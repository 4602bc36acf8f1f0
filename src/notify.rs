//! Change notifications: reading the events that arrive on a channel, and the
//! announcements a reconciler publishes downstream.
use vstd::prelude::*;
use crate::schema::VlanEntry;
use crate::text::text_eq;

verus! {

/// What JSON text holds under a member: `None` when the text is not JSON,
/// `Some(None)` when the member is absent or not a string, and
/// `Some(Some(s))` when it is the string `s`.
pub uninterp spec fn json_string_member(text: Seq<char>, field: Seq<char>) -> Option<Option<Seq<char>>>;

/// The characters of an optional member read from JSON text.
pub open spec fn member_view(r: Option<Option<String>>) -> Option<Option<Seq<char>>> {
    match r {
        None => None,
        Some(None) => Some(None),
        Some(Some(s)) => Some(Some(s@)),
    }
}

/// Relies on `serde_json::from_str` (into `serde_json::Value`) and
/// `serde_json::Value::get`: `None` when the text is not valid JSON; otherwise
/// the member `field` of the parsed value when that member is a string.
#[verifier::external_body]
fn string_member(text: &str, field: &str) -> (r: Option<Option<String>>)
    ensures
        member_view(r) == json_string_member(text@, field@),
{
    match serde_json::from_str::<serde_json::Value>(text) {
        Ok(v) => match v.get(field) {
            Some(serde_json::Value::String(m)) => Some(Some(m.clone())),
            _ => Some(None),
        },
        Err(_) => None,
    }
}

/// The change a notification announces.
#[derive(Debug, Clone, Copy, PartialEq, Eq, Structural)]
pub enum Operation {
    /// `SET` or `CREATE`: the record was written.
    Update,
    /// `DEL` or `DELETE`.
    Delete,
}

/// The operation an operation name stands for.
pub open spec fn operation_of(op: Seq<char>) -> Option<Operation> {
    if op == "SET"@ || op == "CREATE"@ {
        Some(Operation::Update)
    } else if op == "DEL"@ || op == "DELETE"@ {
        Some(Operation::Delete)
    } else {
        None
    }
}

/// Reads an operation name.
pub fn parse_operation(op: &str) -> (r: Option<Operation>)
    ensures
        r == operation_of(op@),
{
    if text_eq(op, "SET") || text_eq(op, "CREATE") {
        Some(Operation::Update)
    } else if text_eq(op, "DEL") || text_eq(op, "DELETE") {
        Some(Operation::Delete)
    } else {
        None
    }
}

/// A change event: an operation on a key.
#[derive(Debug, Clone, PartialEq, Eq)]
pub struct ChangeEvent {
    pub operation: Operation,
    pub key: String,
}

/// An absent member reads as the empty text.
pub open spec fn or_empty(m: Option<Seq<char>>) -> Seq<char> {
    match m {
        Some(s) => s,
        None => Seq::empty(),
    }
}

/// The event named by an operation member and a key member, if the operation is known.
pub open spec fn event_of(op: Option<Seq<char>>, key: Option<Seq<char>>) -> Option<(Operation, Seq<char>)> {
    match operation_of(or_empty(op)) {
        Some(o) => Some((o, or_empty(key))),
        None => None,
    }
}

/// The event a notification text announces: `None` when the text is not JSON
/// or its operation is unknown.
pub open spec fn notification_event(text: Seq<char>) -> Option<(Operation, Seq<char>)> {
    match (json_string_member(text, "operation"@), json_string_member(text, "key"@)) {
        (Some(op), Some(key)) => event_of(op, key),
        _ => None,
    }
}

/// The operation and key characters of an optional event.
pub open spec fn event_view(e: Option<ChangeEvent>) -> Option<(Operation, Seq<char>)> {
    match e {
        Some(ev) => Some((ev.operation, ev.key@)),
        None => None,
    }
}

/// The characters of an optional text.
pub open spec fn opt_view(s: Option<String>) -> Option<Seq<char>> {
    match s {
        Some(t) => Some(t@),
        None => None,
    }
}

/// The event named by the `operation` and `key` members of a notification.
pub fn event_from_members(operation: Option<String>, key: Option<String>) -> (r: Option<ChangeEvent>)
    ensures
        event_view(r) == event_of(opt_view(operation), opt_view(key)),
{
    let ghost opv = opt_view(operation);
    let ghost keyv = opt_view(key);
    let op = match operation {
        Some(s) => parse_operation(s.as_str()),
        None => {
            proof {
                reveal_strlit("");
                assert(""@ =~= Seq::<char>::empty());
            }
            parse_operation("")
        },
    };
    assert(op == operation_of(or_empty(opv)));
    match op {
        Some(o) => {
            let k = match key {
                Some(s) => s,
                None => String::new(),
            };
            assert(k@ == or_empty(keyv));
            Some(ChangeEvent { operation: o, key: k })
        },
        None => None,
    }
}

/// Reads the event a notification announces; malformed text and unknown
/// operations give `None`.
pub fn read_notification(message: &str) -> (r: Option<ChangeEvent>)
    ensures
        event_view(r) == notification_event(message@),
{
    let op = string_member(message, "operation");
    let key = string_member(message, "key");
    match (op, key) {
        (Some(o), Some(k)) => event_from_members(o, k),
        _ => None,
    }
}

/// An announcement published on a table's channel after a write.
#[derive(Debug, Clone, PartialEq, Eq)]
pub struct TableNotification {
    /// `SET` or `DEL`.
    pub operation: String,
    pub table: String,
    pub key: String,
    /// The record written, for `SET`.
    pub data: Option<VlanEntry>,
}

} // verus!
