use session_watch::app_data::{LoginEvent, LoginTrigger, SessionUser, UserClient};
use session_watch::app_data::ServerSessionAll;
use session_watch::notify::create_webhook_msg;
use session_watch::wts_array::WtsArray;
use session_watch::wts_wrapper::WtsSessionInfoW;

fn event(trigger: LoginTrigger, user: &str, client: &str) -> LoginEvent {
    LoginEvent {
        trigger,
        server_user_name: user.to_string(),
        client_name: client.to_string(),
    }
}

#[test]
fn webhook_payload_is_the_exact_json_object() {
    let events = vec![
        event(LoginTrigger::Login, "u1", "c1"),
        event(LoginTrigger::Logout, "u2", "c2"),
    ];
    let payload = create_webhook_msg(&events, "srv");
    let expected = "{\"text\":\"\\n            server: srv\\n            \\n            - **Logined**  client:`c1` server_user:`u1`\\n- **Logouted**  client:`c2` server_user:`u2`\\n        \"}";
    assert_eq!(payload, expected);
}

#[test]
fn webhook_payload_escapes_the_event_text() {
    let events = vec![event(LoginTrigger::Login, "u\"1", "c\\1")];
    let payload = create_webhook_msg(&events, "srv");
    assert!(payload.contains("u\\\"1"));
    assert!(payload.contains("c\\\\1"));
    assert!(serde_json::from_str::<serde_json::Value>(&payload).is_ok());
}

#[test]
fn single_event_payload_has_no_joining_newline() {
    let events = vec![event(LoginTrigger::Logout, "u1", "c1")];
    let payload = create_webhook_msg(&events, "host-1");
    let expected = "{\"text\":\"\\n            server: host-1\\n            \\n            - **Logouted**  client:`c1` server_user:`u1`\\n        \"}";
    assert_eq!(payload, expected);
}

#[test]
fn wts_array_owns_the_converted_records() {
    let records = vec![
        WtsSessionInfoW { session_id: 1, state: 0, win_station_name: "rdp-tcp#1".to_string() },
        WtsSessionInfoW { session_id: 2, state: 4, win_station_name: "console".to_string() },
    ];
    let array = WtsArray::from_raw(records);
    assert!(!array.is_empty());
    let slice = array.as_slice();
    assert_eq!(slice.len(), 2);
    assert_eq!(slice[0].session_id, 1);
    assert_eq!(slice[1].win_station_name, "console");
    let empty: WtsArray<WtsSessionInfoW> = WtsArray::from_raw(vec![]);
    assert!(empty.is_empty());
    assert_eq!(empty.as_slice().len(), 0);
}

#[test]
fn assemble_joins_sessions_with_their_names() {
    let sessions = vec![
        WtsSessionInfoW { session_id: 7, state: 0, win_station_name: "rdp-tcp#7".to_string() },
        WtsSessionInfoW { session_id: 8, state: 1, win_station_name: "rdp-tcp#8".to_string() },
    ];
    let users = vec!["alice".to_string(), "bob".to_string()];
    let clients = vec!["laptop".to_string(), "".to_string()];
    let all = ServerSessionAll::assemble("srv".to_string(), &sessions, &users, &clients);
    assert_eq!(all.server_name, "srv");
    assert_eq!(all.sessions.len(), 2);
    assert_eq!(all.sessions[0].server_user_name, "alice");
    assert_eq!(all.sessions[0].client_name, "laptop");
    assert_eq!(all.sessions[0].session.session_id, 7);
    assert_eq!(all.sessions[1].server_user_name, "bob");
    assert_eq!(all.sessions[1].client_name, "");
    assert_eq!(all.sessions[1].session.win_station_name, "rdp-tcp#8");
}

#[test]
fn session_user_projects_to_its_occupancy_pair() {
    let user = SessionUser {
        user_name: "alice".to_string(),
        session_name: "rdp-tcp#7".to_string(),
        id: 7,
        state: "Active".to_string(),
        idle_time: ".".to_string(),
        login_time: "1/1/2024 9:00".to_string(),
    };
    let uc = UserClient::from_session_user(user, "laptop".to_string());
    assert_eq!(uc.server_user, "alice");
    assert_eq!(uc.client_name, "laptop");
}
