//! The value types that flow through the engine: occupancy pairs, the
//! Login/Logout events produced by the diff, and the session records that the
//! read-only query surface reports.

use vstd::prelude::*;
use crate::wts_wrapper::WtsSessionInfoW;

verus! {

/// Whether an occupancy pair appeared (`Login`) or disappeared (`Logout`).
#[derive(Debug, Clone, Copy, PartialEq, Eq, Structural)]
pub enum LoginTrigger {
    Login,
    Logout,
}

/// One Login/Logout event, produced by the diff engine and consumed by the
/// notification renderer. Ephemeral; never persisted.
#[derive(Debug)]
pub struct LoginEvent {
    pub trigger: LoginTrigger,
    pub server_user_name: String,
    pub client_name: String,
}

/// Contracts speak of an event as its trigger together with the two
/// character sequences (server user name, client name).
pub type EventView = (LoginTrigger, Seq<char>, Seq<char>);

impl View for LoginEvent {
    type V = EventView;

    open spec fn view(&self) -> EventView {
        (self.trigger, self.server_user_name@, self.client_name@)
    }
}

/// One occupancy pair: a server-side user name together with the remote
/// client machine it is connected from. Identity is exact string equality,
/// case-sensitive; nothing is normalized here.
#[derive(Debug, PartialEq, Eq, PartialOrd, Ord, Hash)]
pub struct UserClient {
    pub server_user: String,
    pub client_name: String,
}

/// A snapshot, and every contract over one, speaks of an occupancy pair as
/// the pair of its two character sequences (server user, client name).
pub type PairView = (Seq<char>, Seq<char>);

impl View for UserClient {
    type V = PairView;

    open spec fn view(&self) -> PairView {
        (self.server_user@, self.client_name@)
    }
}

impl UserClient {
    /// An exact copy; unlike a derived `Clone`, its contract keeps the fields.
    pub fn duplicate(&self) -> (r: UserClient)
        ensures
            r@ == self@,
    {
        UserClient {
            server_user: self.server_user.clone(),
            client_name: self.client_name.clone(),
        }
    }

    /// Projects one listed session user, with the client name queried for
    /// its session, to its occupancy pair.
    pub fn from_session_user(user: SessionUser, client_name: String) -> (r: UserClient)
        ensures
            r@ == (user.user_name@, client_name@),
    {
        UserClient { server_user: user.user_name, client_name }
    }

    /// Exact-string equality of two occupancy pairs.
    pub fn same_pair(&self, other: &UserClient) -> (r: bool)
        ensures
            r == (self@ == other@),
    {
        let users_match = self.server_user == other.server_user;
        let clients_match = self.client_name == other.client_name;
        users_match && clients_match
    }
}

/// One line of the host's login-user listing.
#[derive(Debug, PartialEq, Eq)]
pub struct SessionUser {
    pub user_name: String,
    pub session_name: String,
    pub id: u32,
    pub state: String,
    pub idle_time: String,
    pub login_time: String,
}

/// Contracts speak of a session user as the tuple of its six fields, the id
/// as the number it is.
pub type SessionUserView = (Seq<char>, Seq<char>, u32, Seq<char>, Seq<char>, Seq<char>);

impl View for SessionUser {
    type V = SessionUserView;

    open spec fn view(&self) -> SessionUserView {
        (
            self.user_name@,
            self.session_name@,
            self.id,
            self.state@,
            self.idle_time@,
            self.login_time@,
        )
    }
}

/// A raw session record joined with the user and client names queried for it.
#[derive(Debug)]
pub struct SessionInfoWithClient {
    pub server_user_name: String,
    pub client_name: String,
    pub session: WtsSessionInfoW,
}

/// Everything the session query surface reports for one host.
#[derive(Debug)]
pub struct ServerSessionAll {
    pub server_name: String,
    pub sessions: Vec<SessionInfoWithClient>,
}

impl ServerSessionAll {
    /// Joins each raw session record with the user name and the client name
    /// queried for it, labelled with the server's name. The three lists run
    /// in step: position `i` of each describes the same session.
    pub fn assemble(
        server_name: String,
        sessions: &Vec<WtsSessionInfoW>,
        user_names: &Vec<String>,
        client_names: &Vec<String>,
    ) -> (all: ServerSessionAll)
        requires
            sessions@.len() == user_names@.len(),
            sessions@.len() == client_names@.len(),
        ensures
            all.server_name == server_name,
            all.sessions@.len() == sessions@.len(),
            forall|i: int|
                0 <= i < sessions@.len() ==> #[trigger] all.sessions@[i].session == sessions@[i]
                    && all.sessions@[i].server_user_name == user_names@[i]
                    && all.sessions@[i].client_name == client_names@[i],
    {
        let mut joined: Vec<SessionInfoWithClient> = Vec::new();
        let mut i: usize = 0;
        while i < sessions.len()
            invariant
                i <= sessions.len(),
                sessions@.len() == user_names@.len(),
                sessions@.len() == client_names@.len(),
                joined@.len() == i,
                forall|j: int|
                    0 <= j < i ==> #[trigger] joined@[j].session == sessions@[j]
                        && joined@[j].server_user_name == user_names@[j]
                        && joined@[j].client_name == client_names@[j],
            decreases sessions.len() - i,
        {
            joined.push(
                SessionInfoWithClient {
                    server_user_name: user_names[i].clone(),
                    client_name: client_names[i].clone(),
                    session: sessions[i].duplicate(),
                },
            );
            proof {
                assert(joined@.last() == joined@[i as int]);
                assert(joined@[i as int].session == sessions@[i as int]);
            }
            i = i + 1;
        }
        ServerSessionAll { server_name, sessions: joined }
    }
}

} // verus!
