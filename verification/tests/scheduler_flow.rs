use session_watch::app_data::{LoginTrigger, SessionInfoWithClient};
use session_watch::scheduler::{EnumerationError, PollScheduler, should_notify};
use session_watch::snapshot::build_snapshot;
use session_watch::wts_wrapper::WtsSessionInfoW;

fn record(user: &str, client: &str) -> SessionInfoWithClient {
    SessionInfoWithClient {
        server_user_name: user.to_string(),
        client_name: client.to_string(),
        session: WtsSessionInfoW {
            session_id: 1,
            state: 0,
            win_station_name: "rdp".to_string(),
        },
    }
}

fn failure() -> EnumerationError {
    EnumerationError { message: "enumeration failed".to_string() }
}

#[test]
fn first_tick_seeds_and_emits_nothing() {
    let mut scheduler = PollScheduler::new();
    assert!(!scheduler.is_armed());
    let events = scheduler.tick(Ok(vec![record("u1", "c1"), record("u2", "c2")]));
    assert!(events.is_empty());
    assert!(scheduler.is_armed());
}

#[test]
fn second_tick_diffs_against_the_baseline() {
    let mut scheduler = PollScheduler::new();
    scheduler.tick(Ok(vec![record("u1", "c1")]));
    let events = scheduler.tick(Ok(vec![record("u1", "c1"), record("u2", "c2")]));
    assert_eq!(events.len(), 1);
    assert_eq!(events[0].trigger, LoginTrigger::Login);
    assert_eq!(events[0].server_user_name, "u2");
    assert_eq!(events[0].client_name, "c2");
}

#[test]
fn failed_enumeration_preserves_the_baseline() {
    let mut scheduler = PollScheduler::new();
    scheduler.tick(Ok(vec![record("u1", "c1")]));
    let events = scheduler.tick(Err(failure()));
    assert!(events.is_empty());
    assert!(scheduler.is_armed());
    // The next successful tick still diffs against the snapshot from before
    // the failure, so the failure was not misread as "everyone logged out".
    let events = scheduler.tick(Ok(vec![]));
    assert_eq!(events.len(), 1);
    assert_eq!(events[0].trigger, LoginTrigger::Logout);
    assert_eq!(events[0].server_user_name, "u1");
}

#[test]
fn failed_enumeration_before_warmup_stays_unarmed() {
    let mut scheduler = PollScheduler::new();
    let events = scheduler.tick(Err(failure()));
    assert!(events.is_empty());
    assert!(!scheduler.is_armed());
}

#[test]
fn delivery_failure_does_not_disturb_the_next_tick() {
    let mut scheduler = PollScheduler::new();
    scheduler.tick(Ok(vec![record("u1", "c1")]));
    let events = scheduler.tick(Ok(vec![record("u1", "c1"), record("u2", "c2")]));
    assert!(should_notify(&events));
    // The delivery of those events fails; nothing of it reaches the
    // scheduler, and the following tick diffs normally.
    let events = scheduler.tick(Ok(vec![record("u1", "c1")]));
    assert_eq!(events.len(), 1);
    assert_eq!(events[0].trigger, LoginTrigger::Logout);
    assert_eq!(events[0].server_user_name, "u2");
}

#[test]
fn stable_state_asks_for_no_delivery() {
    let mut scheduler = PollScheduler::new();
    scheduler.tick(Ok(vec![record("u1", "c1")]));
    let events = scheduler.tick(Ok(vec![record("u1", "c1")]));
    assert!(events.is_empty());
    assert!(!should_notify(&events));
}

#[test]
fn baseline_advances_even_without_events() {
    let mut scheduler = PollScheduler::new();
    scheduler.tick(Ok(vec![record("u1", "c1")]));
    let events = scheduler.tick(Ok(vec![record("u1", "c1")]));
    assert!(events.is_empty());
    let events = scheduler.tick(Ok(vec![record("u1", "c1")]));
    assert!(events.is_empty());
}

#[test]
fn snapshot_builder_drops_records_without_a_client() {
    let mut records = vec![record("console", ""), record("u1", "c1"), record("u1", "c1")];
    records[0].client_name = String::new();
    let snap = build_snapshot(&records);
    assert_eq!(snap.len(), 2);
    assert_eq!(snap[0].server_user, "u1");
    assert_eq!(snap[0].client_name, "c1");
    assert_eq!(snap[1].server_user, "u1");
    assert_eq!(snap[1].client_name, "c1");
}

#[test]
fn empty_enumeration_builds_the_empty_snapshot() {
    let snap = build_snapshot(&vec![]);
    assert!(snap.is_empty());
}
