//! The poll scheduler: the state machine that drives the snapshot-diff-notify
//! engine. It has two states — uninitialized (no baseline yet) and armed
//! (a baseline snapshot is retained) — and it is the sole owner of the
//! baseline.
//!
//! On each tick it is handed the outcome of one enumeration call. A failed
//! enumeration leaves the baseline untouched and emits nothing, so a failure
//! is never misread as "everyone logged out". A successful first observation
//! only seeds the baseline. Afterwards every successful tick diffs the new
//! snapshot against the baseline and then advances the baseline
//! unconditionally, whether or not events came out.
//!
//! Delivery of the emitted events is not this state machine's business: its
//! transition takes no delivery outcome, and the laws at the end of this
//! module pin that down.

use vstd::prelude::*;
use crate::app_data::{EventView, LoginEvent, PairView, SessionInfoWithClient, UserClient};
use crate::diff::{create_login_events, diff_events, events_of, mult, pairs_of};
use crate::diff::lemma_diff_of_unchanged;
use crate::snapshot::{build_snapshot, snapshot_of};

verus! {

/// The enumeration collaborator failed; the tick that received this must be
/// skipped. Carries the collaborator's description of the failure.
pub struct EnumerationError {
    pub message: String,
}

/// The poll scheduler. `baseline` is absent before the first successful
/// observation (the warm-up state) and holds the last accepted snapshot
/// afterwards.
pub struct PollScheduler {
    baseline: Option<Vec<UserClient>>,
}

impl View for PollScheduler {
    type V = Option<Seq<PairView>>;

    closed spec fn view(&self) -> Option<Seq<PairView>> {
        match self.baseline {
            Option::None => Option::None,
            Option::Some(b) => Option::Some(pairs_of(b@)),
        }
    }
}

/// What one tick observes: nothing on enumeration failure, the built
/// snapshot on success.
pub open spec fn observed_of(
    enumeration: Result<Vec<SessionInfoWithClient>, EnumerationError>,
) -> Option<Seq<PairView>> {
    match enumeration {
        Result::Ok(records) => Option::Some(snapshot_of(records@)),
        Result::Err(_) => Option::None,
    }
}

/// The baseline one tick leaves behind: a successful observation replaces
/// it, a failed one preserves it.
pub open spec fn tick_baseline(
    baseline: Option<Seq<PairView>>,
    observed: Option<Seq<PairView>>,
) -> Option<Seq<PairView>> {
    match observed {
        Option::None => baseline,
        Option::Some(current) => Option::Some(current),
    }
}

/// The events one tick emits: none on a failed observation, none while the
/// baseline is still being seeded, and the diff of the observed snapshot
/// against the baseline otherwise.
pub open spec fn tick_events(
    baseline: Option<Seq<PairView>>,
    observed: Option<Seq<PairView>>,
) -> Seq<EventView> {
    match observed {
        Option::None => Seq::empty(),
        Option::Some(current) => match baseline {
            Option::None => Seq::empty(),
            Option::Some(previous) => diff_events(previous, current),
        },
    }
}

/// Whether a tick's outcome calls for a delivery: only a non-empty event
/// sequence is handed to the dispatcher.
pub open spec fn notifies(
    baseline: Option<Seq<PairView>>,
    observed: Option<Seq<PairView>>,
) -> bool {
    tick_events(baseline, observed).len() > 0
}

/// The baseline after one full poll round: the tick's transition together
/// with the delivery attempt that may follow it. `delivered` is the outcome
/// of that attempt — `false` when the webhook call failed — and the
/// definition does not consult it.
pub open spec fn round_baseline(
    baseline: Option<Seq<PairView>>,
    observed: Option<Seq<PairView>>,
    delivered: bool,
) -> Option<Seq<PairView>> {
    tick_baseline(baseline, observed)
}

impl PollScheduler {
    /// A scheduler in the warm-up state: no baseline yet.
    pub fn new() -> (s: PollScheduler)
        ensures
            s@ is None,
    {
        PollScheduler { baseline: Option::None }
    }

    /// Whether a baseline is present, i.e. the scheduler is armed.
    pub fn is_armed(&self) -> (r: bool)
        ensures
            r == (self@ is Some),
    {
        match &self.baseline {
            Option::Some(_) => true,
            Option::None => false,
        }
    }

    /// One tick: consumes the outcome of one enumeration call and returns
    /// the events to hand to the dispatcher.
    ///
    /// The last two clauses state two of this engine's laws outright: the
    /// first observation after warm-up never emits events, whatever the
    /// enumerator returned; and a failed enumeration preserves the baseline
    /// exactly and emits nothing.
    pub fn tick(
        &mut self,
        enumeration: Result<Vec<SessionInfoWithClient>, EnumerationError>,
    ) -> (events: Vec<LoginEvent>)
        ensures
            final(self)@ == tick_baseline(old(self)@, observed_of(enumeration)),
            events_of(events@) == tick_events(old(self)@, observed_of(enumeration)),
            old(self)@ is None ==> events@.len() == 0,
            enumeration is Err ==> final(self)@ == old(self)@ && events@.len() == 0,
    {
        match enumeration {
            Result::Err(_) => Vec::new(),
            Result::Ok(records) => {
                let current = build_snapshot(&records);
                let events = match &self.baseline {
                    Option::None => Vec::new(),
                    Option::Some(previous) => create_login_events(previous, &current),
                };
                self.baseline = Option::Some(current);
                events
            },
        }
    }
}

/// Law: a tick that observes a snapshot with the same multiplicities as the
/// baseline — in particular the very same snapshot — asks for no delivery,
/// so a stable state causes no outbound call.
pub proof fn lemma_stable_state_no_notification(previous: Seq<PairView>, current: Seq<PairView>)
    requires
        forall|p: PairView| mult(previous, p) == mult(current, p),
    ensures
        tick_events(Option::Some(previous), Option::Some(current)) =~= Seq::<EventView>::empty(),
        !notifies(Option::Some(previous), Option::Some(current)),
{
    lemma_diff_of_unchanged(previous, current);
}

/// Law: the outcome of the delivery attempt of one round changes neither the
/// baseline that round leaves behind nor what the following tick computes.
/// A failed delivery is logged and forgotten; the next tick diffs normally.
pub proof fn lemma_delivery_outcome_ignored(
    baseline: Option<Seq<PairView>>,
    observed: Option<Seq<PairView>>,
    next_observed: Option<Seq<PairView>>,
)
    ensures
        round_baseline(baseline, observed, false) == round_baseline(baseline, observed, true),
        tick_events(round_baseline(baseline, observed, false), next_observed) == tick_events(
            round_baseline(baseline, observed, true),
            next_observed,
        ),
        tick_baseline(round_baseline(baseline, observed, false), next_observed) == tick_baseline(
            round_baseline(baseline, observed, true),
            next_observed,
        ),
{
}

/// Whether the dispatcher is to be called at all: only for a non-empty
/// event sequence. An empty diff never triggers an outbound call.
pub fn should_notify(events: &Vec<LoginEvent>) -> (r: bool)
    ensures
        r == (events@.len() > 0),
{
    events.len() > 0
}

} // verus!
