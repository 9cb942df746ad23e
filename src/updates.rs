//! Inbound updates and messages, read from the JSON result of a poll.
use vstd::prelude::*;
use crate::envelope::ApiError;
use crate::json::{as_signed, as_unsigned, field, parse_json, parsed_json, JsonValue};
use crate::router::opt_view;

verus! {

/// The part of an inbound message that routing and replies need.
#[derive(Debug)]
pub struct Message {
    pub message_id: i64,
    pub chat_id: i64,
    pub sender_id: Option<i64>,
    pub text: Option<String>,
}

/// One notification of the remote service.
#[derive(Debug)]
pub struct Update {
    pub update_id: u64,
    pub message: Option<Message>,
}

pub open spec fn member_signed(v: JsonValue, key: Seq<char>) -> Option<i64> {
    match field(v, key) {
        Some(x) => as_signed(x),
        None => None,
    }
}

pub open spec fn member_unsigned(v: JsonValue, key: Seq<char>) -> Option<u64> {
    match field(v, key) {
        Some(x) => as_unsigned(x),
        None => None,
    }
}

/// The integer `id` of the object under `key`.
pub open spec fn nested_id(v: JsonValue, key: Seq<char>) -> Option<i64> {
    match field(v, key) {
        Some(o) => member_signed(o, "id"@),
        None => None,
    }
}

pub open spec fn member_text(v: JsonValue) -> Option<Seq<char>> {
    match field(v, "text"@) {
        Some(JsonValue::Str(s)) => Some(s@),
        _ => None,
    }
}

/// A message object has an integer `message_id` and a chat with an integer `id`.
pub open spec fn message_readable(v: JsonValue) -> bool {
    member_signed(v, "message_id"@) is Some && nested_id(v, "chat"@) is Some
}

/// `m` holds what the message object `v` says.
pub open spec fn message_read(v: JsonValue, m: Message) -> bool {
    &&& Some(m.message_id) == member_signed(v, "message_id"@)
    &&& Some(m.chat_id) == nested_id(v, "chat"@)
    &&& m.sender_id == nested_id(v, "from"@)
    &&& opt_view(m.text) == member_text(v)
}

/// An update object has an unsigned `update_id`, and a readable `message` if any.
pub open spec fn update_readable(v: JsonValue) -> bool {
    &&& member_unsigned(v, "update_id"@) is Some
    &&& match field(v, "message"@) {
        Some(m) => message_readable(m),
        None => true,
    }
}

/// `u` holds what the update object `v` says.
pub open spec fn update_read(v: JsonValue, u: Update) -> bool {
    &&& Some(u.update_id) == member_unsigned(v, "update_id"@)
    &&& match field(v, "message"@) {
        Some(m) => u.message is Some && message_read(m, u.message->0),
        None => u.message is None,
    }
}

fn member_i64(v: &JsonValue, key: &str) -> (r: Option<i64>)
    ensures
        r == member_signed(*v, key@),
{
    match v.get(key) {
        Some(x) => x.as_i64(),
        None => None,
    }
}

fn nested_i64(v: &JsonValue, key: &str) -> (r: Option<i64>)
    ensures
        r == nested_id(*v, key@),
{
    match v.get(key) {
        Some(o) => member_i64(o, "id"),
        None => None,
    }
}

pub fn message_from_json(v: &JsonValue) -> (r: Option<Message>)
    ensures
        r is Some <==> message_readable(*v),
        r is Some ==> message_read(*v, r->0),
{
    let message_id = match member_i64(v, "message_id") {
        Some(i) => i,
        None => return None,
    };
    let chat_id = match nested_i64(v, "chat") {
        Some(i) => i,
        None => return None,
    };
    let text = match v.get("text") {
        Some(JsonValue::Str(s)) => Some(s.clone()),
        _ => None,
    };
    Some(Message { message_id, chat_id, sender_id: nested_i64(v, "from"), text })
}

pub fn update_from_json(v: &JsonValue) -> (r: Option<Update>)
    ensures
        r is Some <==> update_readable(*v),
        r is Some ==> update_read(*v, r->0),
{
    let update_id = match v.get("update_id") {
        Some(x) => match x.as_u64() {
            Some(u) => u,
            None => return None,
        },
        None => return None,
    };
    let message = match v.get("message") {
        Some(m) => match message_from_json(m) {
            Some(msg) => Some(msg),
            None => return None,
        },
        None => None,
    };
    Some(Update { update_id, message })
}

/// A poll result is an array of readable updates.
pub open spec fn batch_readable(v: JsonValue) -> bool {
    &&& v is Array
    &&& forall|i: int| 0 <= i < v->Array_0@.len() ==> update_readable(#[trigger] v->Array_0@[i])
}

pub open spec fn batch_read(v: JsonValue, us: Seq<Update>) -> bool {
    &&& us.len() == v->Array_0@.len()
    &&& forall|i: int| 0 <= i < us.len() ==> update_read(v->Array_0@[i], #[trigger] us[i])
}

/// The updates of a poll result, in the order the service gave them.
pub fn updates_from_json(v: &JsonValue) -> (r: Option<Vec<Update>>)
    ensures
        r is Some <==> batch_readable(*v),
        r is Some ==> batch_read(*v, r->0@),
{
    match v {
        JsonValue::Array(items) => {
            let mut us: Vec<Update> = Vec::new();
            let mut i: usize = 0;
            while i < items.len()
                invariant
                    *v == JsonValue::Array(*items),
                    i <= items@.len(),
                    us@.len() == i,
                    forall|j: int| 0 <= j < i ==> update_readable(#[trigger] items@[j]),
                    forall|j: int| 0 <= j < i ==> update_read(items@[j], #[trigger] us@[j]),
                decreases items@.len() - i,
            {
                match update_from_json(&items[i]) {
                    Some(u) => us.push(u),
                    None => {
                        assert(!update_readable(v->Array_0@[i as int]));
                        return None;
                    },
                }
                i = i + 1;
            }
            Some(us)
        },
        _ => None,
    }
}

/// The updates in the decoded `result` text of a poll; a result that is not an array of
/// readable updates is an invalid envelope.
pub fn parse_updates(result: &str) -> (r: Result<Vec<Update>, ApiError>)
    ensures
        r is Ok <==> (parsed_json(result@) is Some && batch_readable(parsed_json(result@)->0)),
        r is Ok ==> batch_read(parsed_json(result@)->0, r->Ok_0@),
        r is Err ==> r->Err_0 is InvalidEnvelope,
{
    match parse_json(result) {
        Some(v) => match updates_from_json(&v) {
            Some(us) => Ok(us),
            None => Err(ApiError::InvalidEnvelope),
        },
        None => Err(ApiError::InvalidEnvelope),
    }
}

} // verus!
