//! The diff engine: compares two snapshots of occupancy pairs and produces
//! Login/Logout events.
//!
//! A snapshot is a multiset of occupancy pairs, represented as a vector whose
//! order carries no meaning; every contract here speaks of multiplicities. A
//! pair counts as changed between a base snapshot and another one when its
//! multiplicity differs between the two, including the case where it is
//! absent from the other. A multiplicity change in either direction for the
//! same pair therefore yields both a Login and a Logout event for that pair;
//! that is the documented behaviour of the engine, not an accident.

use vstd::prelude::*;
use crate::app_data::{EventView, LoginEvent, LoginTrigger, PairView, UserClient};

verus! {

/// Multiplicity of the occupancy pair `p` in the snapshot `s`: how many
/// active sessions present this exact user/client pairing.
pub open spec fn mult(s: Seq<PairView>, p: PairView) -> nat
    decreases s.len(),
{
    if s.len() == 0 {
        0
    } else {
        mult(s.drop_last(), p) + (if s.last() == p {
            1nat
        } else {
            0nat
        })
    }
}

/// The views of a snapshot's pairs, in snapshot order.
pub open spec fn pairs_of(s: Seq<UserClient>) -> Seq<PairView> {
    s.map_values(|u: UserClient| u@)
}

/// Whether the pair at position `i` of `s` already appears somewhere before it.
pub open spec fn appears_before(s: Seq<PairView>, i: int) -> bool {
    exists|j: int| 0 <= j < i && s[j] == s[i]
}

/// The changed pairs among the first `i` positions of `base`: each distinct
/// pair of `base` whose multiplicity in `other` differs from its multiplicity
/// in `base`, once, in order of first appearance in `base`.
pub open spec fn changed_upto(base: Seq<PairView>, other: Seq<PairView>, i: int) -> Seq<PairView>
    decreases i,
{
    if i <= 0 {
        Seq::empty()
    } else {
        let rest = changed_upto(base, other, i - 1);
        if !appears_before(base, i - 1) && mult(base, base[i - 1]) != mult(other, base[i - 1]) {
            rest.push(base[i - 1])
        } else {
            rest
        }
    }
}

/// The changed pairs of `base` against `other`.
pub open spec fn changed_pairs(base: Seq<PairView>, other: Seq<PairView>) -> Seq<PairView> {
    changed_upto(base, other, base.len() as int)
}

/// The events announcing every pair of `pairs`, all with the same trigger.
pub open spec fn events_for(t: LoginTrigger, pairs: Seq<PairView>) -> Seq<EventView> {
    pairs.map_values(|p: PairView| (t, p.0, p.1))
}

/// What the diff engine produces for a previous and a current snapshot: a
/// Login event for each changed pair of the current snapshot against the
/// previous one, then a Logout event for each changed pair of the previous
/// snapshot against the current one.
pub open spec fn diff_events(previous: Seq<PairView>, current: Seq<PairView>) -> Seq<EventView> {
    events_for(LoginTrigger::Login, changed_pairs(current, previous)) + events_for(
        LoginTrigger::Logout,
        changed_pairs(previous, current),
    )
}

/// The views of a sequence of events.
pub open spec fn events_of(events: Seq<LoginEvent>) -> Seq<EventView> {
    events.map_values(|e: LoginEvent| e@)
}

proof fn lemma_changed_upto_empty(base: Seq<PairView>, other: Seq<PairView>, i: int)
    requires
        forall|p: PairView| mult(base, p) == mult(other, p),
    ensures
        changed_upto(base, other, i) =~= Seq::<PairView>::empty(),
    decreases i,
{
    if i > 0 {
        lemma_changed_upto_empty(base, other, i - 1);
        assert(mult(base, base[i - 1]) == mult(other, base[i - 1]));
    }
}

proof fn lemma_mult_positive(s: Seq<PairView>, p: PairView)
    ensures
        mult(s, p) > 0 <==> s.contains(p),
    decreases s.len(),
{
    if s.len() > 0 {
        lemma_mult_positive(s.drop_last(), p);
        assert(s.contains(p) <==> (s.drop_last().contains(p) || s.last() == p)) by {
            if s.contains(p) {
                let i = choose|i: int| 0 <= i < s.len() && s[i] == p;
                if i < s.len() - 1 {
                    assert(s.drop_last()[i] == p);
                }
            }
            if s.drop_last().contains(p) {
                let i = choose|i: int| 0 <= i < s.drop_last().len() && s.drop_last()[i] == p;
                assert(s[i] == p);
            }
        }
    }
}

proof fn lemma_changed_upto_contains(base: Seq<PairView>, other: Seq<PairView>, i: int, p: PairView)
    requires
        0 <= i <= base.len(),
    ensures
        changed_upto(base, other, i).contains(p) <==> ((exists|j: int|
            0 <= j < i && base[j] == p) && mult(base, p) != mult(other, p)),
    decreases i,
{
    if i > 0 {
        lemma_changed_upto_contains(base, other, i - 1, p);
        let rest = changed_upto(base, other, i - 1);
        let x = base[i - 1];
        if !appears_before(base, i - 1) && mult(base, x) != mult(other, x) {
            assert(rest.push(x).contains(p) <==> (rest.contains(p) || p == x)) by {
                if rest.push(x).contains(p) {
                    let k = choose|k: int| 0 <= k < rest.push(x).len() && rest.push(x)[k] == p;
                    if k < rest.len() {
                        assert(rest[k] == p);
                    }
                }
                if rest.contains(p) {
                    let k = choose|k: int| 0 <= k < rest.len() && rest[k] == p;
                    assert(rest.push(x)[k] == p);
                }
                assert(rest.push(x)[rest.len() as int] == x);
            }
        }
        if p == x {
            assert(exists|j: int| 0 <= j < i && base[j] == p) by {
                assert(base[i - 1] == p);
            }
        }
    }
}

/// Law: the changed pairs of `base` against `other` are exactly the pairs
/// present in `base` whose multiplicity in `other` differs — including the
/// pairs absent from `other` altogether.
pub proof fn lemma_changed_pairs_characterization(base: Seq<PairView>, other: Seq<PairView>)
    ensures
        forall|p: PairView| #[trigger] changed_pairs(base, other).contains(p) <==> (mult(base, p)
            > 0 && mult(base, p) != mult(other, p)),
{
    assert forall|p: PairView| #[trigger] changed_pairs(base, other).contains(p) <==> (mult(
        base,
        p,
    ) > 0 && mult(base, p) != mult(other, p)) by {
        lemma_changed_upto_contains(base, other, base.len() as int, p);
        lemma_mult_positive(base, p);
    }
}

proof fn lemma_changed_upto_distinct(base: Seq<PairView>, other: Seq<PairView>, i: int)
    requires
        0 <= i <= base.len(),
    ensures
        forall|a: int, b: int|
            0 <= a < b < changed_upto(base, other, i).len() ==> changed_upto(base, other, i)[a]
                != changed_upto(base, other, i)[b],
    decreases i,
{
    if i > 0 {
        lemma_changed_upto_distinct(base, other, i - 1);
        let rest = changed_upto(base, other, i - 1);
        let x = base[i - 1];
        if !appears_before(base, i - 1) && mult(base, x) != mult(other, x) {
            lemma_changed_upto_contains(base, other, i - 1, x);
            assert(!rest.contains(x));
            assert forall|a: int, b: int|
                0 <= a < b < rest.push(x).len() implies rest.push(x)[a] != rest.push(x)[b] by {
                if b == rest.len() {
                    assert(rest.push(x)[a] == rest[a]);
                    if rest[a] == x {
                        assert(rest.contains(x));
                    }
                }
            }
        }
    }
}

/// Law: no changed pair is reported twice; together with the
/// characterization above, each changed pair yields exactly one event.
pub proof fn lemma_changed_pairs_distinct(base: Seq<PairView>, other: Seq<PairView>)
    ensures
        forall|a: int, b: int|
            0 <= a < b < changed_pairs(base, other).len() ==> changed_pairs(base, other)[a]
                != changed_pairs(base, other)[b],
{
    lemma_changed_upto_distinct(base, other, base.len() as int);
}

/// Law: a diff of two snapshots with the same multiplicities — same pairs,
/// same counts — yields no events, so a stable state produces no
/// notification traffic.
pub proof fn lemma_diff_of_unchanged(previous: Seq<PairView>, current: Seq<PairView>)
    requires
        forall|p: PairView| mult(previous, p) == mult(current, p),
    ensures
        diff_events(previous, current) =~= Seq::<EventView>::empty(),
{
    lemma_changed_upto_empty(previous, current, previous.len() as int);
    lemma_changed_upto_empty(current, previous, current.len() as int);
    assert(events_for(LoginTrigger::Login, changed_pairs(current, previous)) =~= Seq::<
        EventView,
    >::empty());
    assert(events_for(LoginTrigger::Logout, changed_pairs(previous, current)) =~= Seq::<
        EventView,
    >::empty());
}

/// Law: diffing any snapshot against itself yields no events.
pub proof fn lemma_diff_of_same_snapshot(s: Seq<PairView>)
    ensures
        diff_events(s, s) =~= Seq::<EventView>::empty(),
{
    lemma_diff_of_unchanged(s, s);
}

/// Multiplicity of `pair` in the snapshot `snap`.
pub fn count_pair(snap: &Vec<UserClient>, pair: &UserClient) -> (n: usize)
    ensures
        n == mult(pairs_of(snap@), pair@),
{
    let ghost all = pairs_of(snap@);
    let mut n: usize = 0;
    let mut i: usize = 0;
    while i < snap.len()
        invariant
            i <= snap.len(),
            n <= i,
            all == pairs_of(snap@),
            n == mult(all.take(i as int), pair@),
        decreases snap.len() - i,
    {
        proof {
            assert(all.take(i + 1).drop_last() =~= all.take(i as int));
            assert(all.take(i + 1).last() == snap@[i as int]@);
        }
        if snap[i].same_pair(pair) {
            n = n + 1;
        }
        i = i + 1;
    }
    proof {
        assert(all.take(snap@.len() as int) =~= all);
    }
    n
}

/// The distinct pairs of `base` whose multiplicity in `other` differs from
/// their multiplicity in `base`, in order of first appearance in `base`.
pub fn detect_chnged_core(base: &Vec<UserClient>, other: &Vec<UserClient>) -> (changed: Vec<
    UserClient,
>)
    ensures
        pairs_of(changed@) == changed_pairs(pairs_of(base@), pairs_of(other@)),
{
    let ghost bp = pairs_of(base@);
    let ghost op = pairs_of(other@);
    let mut changed: Vec<UserClient> = Vec::new();
    let mut i: usize = 0;
    while i < base.len()
        invariant
            i <= base.len(),
            bp == pairs_of(base@),
            op == pairs_of(other@),
            pairs_of(changed@) == changed_upto(bp, op, i as int),
        decreases base.len() - i,
    {
        let mut seen = false;
        let mut j: usize = 0;
        while j < i
            invariant
                j <= i,
                i < base.len(),
                bp == pairs_of(base@),
                seen == exists|k: int| 0 <= k < j && bp[k] == bp[i as int],
            decreases i - j,
        {
            let matches_here = base[j].same_pair(&base[i]);
            if matches_here {
                seen = true;
            }
            proof {
                if matches_here {
                    assert(exists|k: int| 0 <= k < j + 1 && bp[k] == bp[i as int]) by {
                        assert(bp[j as int] == bp[i as int]);
                    }
                } else {
                    assert(bp[j as int] != bp[i as int]);
                }
            }
            j = j + 1;
        }
        if !seen {
            let in_base = count_pair(base, &base[i]);
            let in_other = count_pair(other, &base[i]);
            if in_base != in_other {
                let ghost before = changed@;
                changed.push(base[i].duplicate());
                proof {
                    assert(pairs_of(changed@) =~= pairs_of(before).push(bp[i as int]));
                }
            }
        }
        i = i + 1;
    }
    changed
}

/// Compares the previous and the current snapshot and returns the Login
/// events for newly changed pairs of the current snapshot followed by the
/// Logout events for changed pairs of the previous one.
pub fn create_login_events(previous: &Vec<UserClient>, current: &Vec<UserClient>) -> (events: Vec<
    LoginEvent,
>)
    ensures
        events_of(events@) == diff_events(pairs_of(previous@), pairs_of(current@)),
{
    let ghost pp = pairs_of(previous@);
    let ghost cp = pairs_of(current@);
    let logined = detect_chnged_core(current, previous);
    let logouted = detect_chnged_core(previous, current);
    let mut events: Vec<LoginEvent> = Vec::new();
    let mut i: usize = 0;
    while i < logined.len()
        invariant
            i <= logined.len(),
            pairs_of(logined@) == changed_pairs(cp, pp),
            events_of(events@) == events_for(LoginTrigger::Login, pairs_of(logined@).take(i as int)),
        decreases logined.len() - i,
    {
        let ghost before = events@;
        let u = logined[i].duplicate();
        events.push(LoginEvent {
            trigger: LoginTrigger::Login,
            server_user_name: u.server_user,
            client_name: u.client_name,
        });
        proof {
            assert(events_of(events@) =~= events_of(before).push(
                (LoginTrigger::Login, pairs_of(logined@)[i as int].0, pairs_of(logined@)[i as int].1),
            ));
            assert(events_for(LoginTrigger::Login, pairs_of(logined@).take(i + 1)) =~= events_for(
                LoginTrigger::Login,
                pairs_of(logined@).take(i as int),
            ).push((LoginTrigger::Login, pairs_of(logined@)[i as int].0, pairs_of(logined@)[i as int].1)));
        }
        i = i + 1;
    }
    proof {
        assert(pairs_of(logined@).take(logined@.len() as int) =~= pairs_of(logined@));
    }
    let mut k: usize = 0;
    while k < logouted.len()
        invariant
            k <= logouted.len(),
            pairs_of(logined@) == changed_pairs(cp, pp),
            pairs_of(logouted@) == changed_pairs(pp, cp),
            events_of(events@) == events_for(LoginTrigger::Login, changed_pairs(cp, pp)) + events_for(
                LoginTrigger::Logout,
                pairs_of(logouted@).take(k as int),
            ),
        decreases logouted.len() - k,
    {
        let ghost before = events@;
        let u = logouted[k].duplicate();
        events.push(LoginEvent {
            trigger: LoginTrigger::Logout,
            server_user_name: u.server_user,
            client_name: u.client_name,
        });
        proof {
            assert(events_of(events@) =~= events_of(before).push(
                (LoginTrigger::Logout, pairs_of(logouted@)[k as int].0, pairs_of(logouted@)[k as int].1),
            ));
            assert(events_for(LoginTrigger::Logout, pairs_of(logouted@).take(k + 1)) =~= events_for(
                LoginTrigger::Logout,
                pairs_of(logouted@).take(k as int),
            ).push((LoginTrigger::Logout, pairs_of(logouted@)[k as int].0, pairs_of(logouted@)[k as int].1)));
            assert(events_of(events@) =~= events_for(LoginTrigger::Login, changed_pairs(cp, pp))
                + events_for(LoginTrigger::Logout, pairs_of(logouted@).take(k + 1)));
        }
        k = k + 1;
    }
    proof {
        assert(pairs_of(logouted@).take(logouted@.len() as int) =~= pairs_of(logouted@));
    }
    events
}

} // verus!
