//! The snapshot builder: turns the raw session records of one enumeration
//! into a snapshot of occupancy pairs. Records with an empty client name are
//! discarded — a local console session has no remote identity to diff — and
//! the rest project to their (server user, client name) pair.

use vstd::prelude::*;
use crate::app_data::{PairView, SessionInfoWithClient, UserClient};
use crate::diff::pairs_of;

verus! {

/// The snapshot a list of raw records yields: the occupancy pairs of the
/// records with a non-empty client name, in record order.
pub open spec fn snapshot_of(records: Seq<SessionInfoWithClient>) -> Seq<PairView>
    decreases records.len(),
{
    if records.len() == 0 {
        Seq::empty()
    } else {
        let rest = snapshot_of(records.drop_last());
        let r = records.last();
        if r.client_name@.len() == 0 {
            rest
        } else {
            rest.push((r.server_user_name@, r.client_name@))
        }
    }
}

/// Builds the snapshot of one enumeration's records. Malformed or empty
/// input needs no special case: an empty record list yields the empty
/// snapshot.
pub fn build_snapshot(records: &Vec<SessionInfoWithClient>) -> (snap: Vec<UserClient>)
    ensures
        pairs_of(snap@) == snapshot_of(records@),
{
    let mut snap: Vec<UserClient> = Vec::new();
    let mut i: usize = 0;
    while i < records.len()
        invariant
            i <= records.len(),
            pairs_of(snap@) == snapshot_of(records@.take(i as int)),
        decreases records.len() - i,
    {
        proof {
            assert(records@.take(i + 1).drop_last() =~= records@.take(i as int));
            assert(records@.take(i + 1).last() == records@[i as int]);
        }
        if !records[i].client_name.as_str().is_empty() {
            let ghost before = snap@;
            snap.push(UserClient {
                server_user: records[i].server_user_name.clone(),
                client_name: records[i].client_name.clone(),
            });
            proof {
                assert(pairs_of(snap@) =~= pairs_of(before).push(
                    (records@[i as int].server_user_name@, records@[i as int].client_name@),
                ));
            }
        }
        i = i + 1;
    }
    proof {
        assert(records@.take(records@.len() as int) =~= records@);
    }
    snap
}

} // verus!
