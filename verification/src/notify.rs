//! The notification renderer: turns a tick's events into the single JSON
//! payload that is posted to the chat webhook. Rendering is pure; the
//! delivery call itself is outside the library, and a failed delivery is
//! logged and forgotten by the caller — never queued, never retried.

use vstd::prelude::*;
use vstd::string::StringExecFns;
use crate::app_data::{EventView, LoginEvent, LoginTrigger};
use crate::diff::events_of;

verus! {

/// The keyword announcing an event's trigger.
pub open spec fn trigger_word(t: LoginTrigger) -> Seq<char> {
    match t {
        LoginTrigger::Login => "Logined"@,
        LoginTrigger::Logout => "Logouted"@,
    }
}

/// The one message line announcing one event.
pub open spec fn event_line(e: EventView) -> Seq<char> {
    "- **"@ + trigger_word(e.0) + "**  client:`"@ + e.2 + "` server_user:`"@ + e.1 + "`"@
}

/// The lines for a tick's events, joined with a newline between each two.
pub open spec fn event_lines(events: Seq<EventView>) -> Seq<char>
    decreases events.len(),
{
    if events.len() == 0 {
        Seq::empty()
    } else if events.len() == 1 {
        event_line(events[0])
    } else {
        event_lines(events.drop_last()) + "\n"@ + event_line(events.last())
    }
}

/// The full text of the webhook message for a tick's events, mentioning the
/// observed server by name.
pub open spec fn webhook_text(events: Seq<EventView>, server_name: Seq<char>) -> Seq<char> {
    "\n            server: "@ + server_name + "\n            \n            "@ + event_lines(events)
        + "\n        "@
}

/// The JSON object `{"text": t}`, serialized, for the message text `t`. JSON
/// string escaping is involved, so the result is named rather than spelled
/// out; it depends on the text alone.
pub uninterp spec fn json_text_of(text: Seq<char>) -> Seq<char>;

/// Relies on serde_json (`Map::insert`, `Value::to_string`): the result is
/// the serialized JSON object with the single key `"text"` holding the given
/// text as a JSON string, a function of that text alone.
#[verifier::external_body]
fn json_text_payload(text: &str) -> (payload: String)
    ensures
        payload@ == json_text_of(text@),
{
    let mut body = serde_json::Map::new();
    body.insert("text".to_string(), serde_json::Value::String(text.to_string()));
    serde_json::Value::Object(body).to_string()
}

/// Appends the message line for one event.
fn push_event_line(out: &mut String, event: &LoginEvent)
    ensures
        final(out)@ == old(out)@ + event_line(event@),
{
    out.append("- **");
    match event.trigger {
        LoginTrigger::Login => out.append("Logined"),
        LoginTrigger::Logout => out.append("Logouted"),
    }
    out.append("**  client:`");
    out.append(event.client_name.as_str());
    out.append("` server_user:`");
    out.append(event.server_user_name.as_str());
    out.append("`");
    proof {
        assert(out@ =~= old(out)@ + event_line(event@));
    }
}

/// Renders the webhook payload for a tick's events: one line per event,
/// wrapped in the message template and serialized as the JSON object the
/// webhook endpoint expects.
pub fn create_webhook_msg(login_events: &Vec<LoginEvent>, server_name: &str) -> (payload: String)
    ensures
        payload@ == json_text_of(webhook_text(events_of(login_events@), server_name@)),
{
    let ghost evs = events_of(login_events@);
    let mut msg = String::new();
    let mut i: usize = 0;
    while i < login_events.len()
        invariant
            i <= login_events.len(),
            evs == events_of(login_events@),
            msg@ == event_lines(evs.take(i as int)),
        decreases login_events.len() - i,
    {
        proof {
            assert(evs.take(i + 1).drop_last() =~= evs.take(i as int));
            assert(evs.take(i + 1).last() == login_events@[i as int]@);
        }
        if i > 0 {
            msg.append("\n");
        }
        push_event_line(&mut msg, &login_events[i]);
        proof {
            if i == 0 {
                assert(msg@ =~= event_lines(evs.take(1)));
            } else {
                assert(msg@ =~= event_lines(evs.take(i as int)) + "\n"@ + event_line(
                    evs.take(i + 1).last(),
                ));
            }
        }
        i = i + 1;
    }
    proof {
        assert(evs.take(login_events@.len() as int) =~= evs);
    }
    let mut text = String::new();
    text.append("\n            server: ");
    text.append(server_name);
    text.append("\n            \n            ");
    text.append(msg.as_str());
    text.append("\n        ");
    proof {
        assert(text@ =~= webhook_text(evs, server_name@));
    }
    json_text_payload(text.as_str())
}

} // verus!
