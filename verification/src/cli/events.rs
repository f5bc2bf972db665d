//! Telling a running daemon what a command did.
//!
//! The notification is best effort and has no bearing on the registry. What is
//! decided here is whether there is anything to send, where it goes and what it
//! says; sending it, and giving up on it, is the caller's business.

use vstd::prelude::*;
use vstd::string::StringExecFns;

verus! {

/// Where the control interface of the local daemon listens, as configured.
#[derive(Debug, PartialEq, Eq)]
pub struct Web {
    /// Whether the interface is switched on.
    pub api: bool,
    pub address: String,
    pub port: u64,
    /// The prefix under which the interface is mounted; may be empty.
    pub path: String,
}

/// A notification for the caller to post: the address, and the fields of the body
/// by name.
#[derive(Debug, PartialEq, Eq)]
pub struct Notification {
    pub url: String,
    pub fields: Vec<(String, String)>,
}

/// A [`Notification`] as text.
#[verifier::ext_equal]
pub struct NotificationView {
    pub url: Seq<char>,
    pub fields: Seq<(Seq<char>, Seq<char>)>,
}

impl View for Notification {
    type V = NotificationView;

    open spec fn view(&self) -> NotificationView {
        NotificationView {
            url: self.url@,
            fields: self.fields@.map_values(|field: (String, String)| (field.0@, field.1@)),
        }
    }
}

/// The character that stands for a single decimal digit.
pub open spec fn digit(d: nat) -> char {
    if d == 0 {
        '0'
    } else if d == 1 {
        '1'
    } else if d == 2 {
        '2'
    } else if d == 3 {
        '3'
    } else if d == 4 {
        '4'
    } else if d == 5 {
        '5'
    } else if d == 6 {
        '6'
    } else if d == 7 {
        '7'
    } else if d == 8 {
        '8'
    } else {
        '9'
    }
}

/// A number in decimal, without sign or leading zero.
pub open spec fn decimal(n: nat) -> Seq<char>
    decreases n,
{
    if n < 10 {
        seq![digit(n)]
    } else {
        decimal(n / 10).push(digit(n % 10))
    }
}

/// The address that notifications go to.
pub open spec fn event_url(address: Seq<char>, port: nat, path: Seq<char>) -> Seq<char> {
    "http://"@ + address + ":"@ + decimal(port) + path + "/api/internal/cli-event"@
}

/// The notification about one event, if the interface is switched on. The event is
/// reported as coming from the local agent.
pub open spec fn event_notification(
    api: bool,
    address: Seq<char>,
    port: nat,
    path: Seq<char>,
    event_type: Seq<char>,
    process_id: nat,
    process_name: Seq<char>,
    message: Seq<char>,
) -> Option<NotificationView> {
    if api {
        Some(
            NotificationView {
                url: event_url(address, port, path),
                fields: seq![
                    ("event_type"@, event_type),
                    ("agent_id"@, "local"@),
                    ("agent_name"@, "Local"@),
                    ("process_id"@, decimal(process_id)),
                    ("process_name"@, process_name),
                    ("message"@, message),
                ],
            },
        )
    } else {
        None
    }
}

/// The text of a single decimal digit.
fn digit_text(d: u64) -> (text: &'static str)
    requires
        d < 10,
    ensures
        text@ == seq![digit(d as nat)],
{
    proof {
        reveal_strlit("0");
        reveal_strlit("1");
        reveal_strlit("2");
        reveal_strlit("3");
        reveal_strlit("4");
        reveal_strlit("5");
        reveal_strlit("6");
        reveal_strlit("7");
        reveal_strlit("8");
        reveal_strlit("9");
    }
    let text = if d == 0 {
        "0"
    } else if d == 1 {
        "1"
    } else if d == 2 {
        "2"
    } else if d == 3 {
        "3"
    } else if d == 4 {
        "4"
    } else if d == 5 {
        "5"
    } else if d == 6 {
        "6"
    } else if d == 7 {
        "7"
    } else if d == 8 {
        "8"
    } else {
        "9"
    };
    assert(text@ =~= seq![digit(d as nat)]);
    text
}

/// Writes `n` in decimal.
pub fn to_decimal(n: u64) -> (text: String)
    ensures
        text@ == decimal(n as nat),
    decreases n,
{
    let last = digit_text(n % 10);
    if n < 10 {
        String::from_str(last)
    } else {
        let mut text = to_decimal(n / 10);
        text.append(last);
        assert(text@ =~= decimal(n as nat));
        text
    }
}

/// Prepares the notification that tells the local daemon about an event of the
/// process `process_id`. There is nothing to send where the daemon's interface is
/// switched off.
pub fn emit_event(
    web: &Web,
    event_type: &str,
    process_id: usize,
    process_name: &str,
    message: &str,
) -> (notification: Option<Notification>)
    ensures
        match notification {
            Some(post) => Some(post@),
            None => None,
        } == event_notification(
            web.api,
            web.address@,
            web.port as nat,
            web.path@,
            event_type@,
            process_id as nat,
            process_name@,
            message@,
        ),
{
    if !web.api {
        return None;
    }
    let mut url = String::from_str("http://");
    url.append(web.address.as_str());
    url.append(":");
    url.append(to_decimal(web.port).as_str());
    url.append(web.path.as_str());
    url.append("/api/internal/cli-event");

    let mut fields: Vec<(String, String)> = Vec::new();
    fields.push((String::from_str("event_type"), String::from_str(event_type)));
    fields.push((String::from_str("agent_id"), String::from_str("local")));
    fields.push((String::from_str("agent_name"), String::from_str("Local")));
    fields.push((String::from_str("process_id"), to_decimal(process_id as u64)));
    fields.push((String::from_str("process_name"), String::from_str(process_name)));
    fields.push((String::from_str("message"), String::from_str(message)));

    let post = Notification { url, fields };
    assert(post@.fields =~= seq![
        ("event_type"@, event_type@),
        ("agent_id"@, "local"@),
        ("agent_name"@, "Local"@),
        ("process_id"@, decimal(process_id as nat)),
        ("process_name"@, process_name@),
        ("message"@, message@),
    ]);
    Some(post)
}

} // verus!
