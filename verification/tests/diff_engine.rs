use session_watch::app_data::{LoginTrigger, UserClient};
use session_watch::diff::{count_pair, create_login_events, detect_chnged_core};

fn pair(user: &str, client: &str) -> UserClient {
    UserClient { server_user: user.to_string(), client_name: client.to_string() }
}

#[test]
fn stable_snapshot_yields_no_events() {
    let snap = vec![pair("u1", "c1"), pair("u2", "c2"), pair("u1", "c1")];
    let same = vec![pair("u1", "c1"), pair("u1", "c1"), pair("u2", "c2")];
    let events = create_login_events(&snap, &same);
    assert!(events.is_empty());
    let events = create_login_events(&snap, &snap);
    assert!(events.is_empty());
}

#[test]
fn appearing_pair_yields_one_login() {
    let previous: Vec<UserClient> = vec![];
    let current = vec![pair("u1", "c1")];
    let events = create_login_events(&previous, &current);
    assert_eq!(events.len(), 1);
    assert_eq!(events[0].trigger, LoginTrigger::Login);
    assert_eq!(events[0].server_user_name, "u1");
    assert_eq!(events[0].client_name, "c1");
}

#[test]
fn disappearing_pair_yields_one_logout() {
    let previous = vec![pair("u1", "c1"), pair("u2", "c2")];
    let current = vec![pair("u1", "c1")];
    let events = create_login_events(&previous, &current);
    assert_eq!(events.len(), 1);
    assert_eq!(events[0].trigger, LoginTrigger::Logout);
    assert_eq!(events[0].server_user_name, "u2");
    assert_eq!(events[0].client_name, "c2");
}

#[test]
fn multiplicity_change_yields_login_and_logout() {
    let previous = vec![pair("u1", "c1")];
    let current = vec![pair("u1", "c1"), pair("u1", "c1")];
    let events = create_login_events(&previous, &current);
    assert_eq!(events.len(), 2);
    assert_eq!(events[0].trigger, LoginTrigger::Login);
    assert_eq!(events[0].server_user_name, "u1");
    assert_eq!(events[0].client_name, "c1");
    assert_eq!(events[1].trigger, LoginTrigger::Logout);
    assert_eq!(events[1].server_user_name, "u1");
    assert_eq!(events[1].client_name, "c1");
}

#[test]
fn logins_come_before_logouts() {
    let previous = vec![pair("gone", "c1")];
    let current = vec![pair("new", "c2")];
    let events = create_login_events(&previous, &current);
    assert_eq!(events.len(), 2);
    assert_eq!(events[0].trigger, LoginTrigger::Login);
    assert_eq!(events[0].server_user_name, "new");
    assert_eq!(events[1].trigger, LoginTrigger::Logout);
    assert_eq!(events[1].server_user_name, "gone");
}

#[test]
fn identity_is_case_sensitive_exact_string() {
    let previous = vec![pair("User", "c1")];
    let current = vec![pair("user", "c1")];
    let events = create_login_events(&previous, &current);
    assert_eq!(events.len(), 2);
    assert_eq!(events[0].trigger, LoginTrigger::Login);
    assert_eq!(events[0].server_user_name, "user");
    assert_eq!(events[1].trigger, LoginTrigger::Logout);
    assert_eq!(events[1].server_user_name, "User");
}

#[test]
fn changed_pairs_are_deduplicated_in_first_appearance_order() {
    let base = vec![pair("b", "c"), pair("a", "c"), pair("b", "c")];
    let other: Vec<UserClient> = vec![];
    let changed = detect_chnged_core(&base, &other);
    assert_eq!(changed, vec![pair("b", "c"), pair("a", "c")]);
}

#[test]
fn unchanged_multiplicity_is_not_reported() {
    let base = vec![pair("a", "c"), pair("b", "c")];
    let other = vec![pair("b", "c"), pair("a", "c"), pair("b", "c")];
    let changed = detect_chnged_core(&base, &other);
    assert_eq!(changed, vec![pair("b", "c")]);
}

#[test]
fn count_pair_counts_multiplicity() {
    let snap = vec![pair("a", "c"), pair("b", "c"), pair("a", "c")];
    assert_eq!(count_pair(&snap, &pair("a", "c")), 2);
    assert_eq!(count_pair(&snap, &pair("b", "c")), 1);
    assert_eq!(count_pair(&snap, &pair("z", "c")), 0);
}
