//! A JSON value as plain data, and the serde_json calls that parse and print it.
use vstd::prelude::*;
use serde_json::Value;

verus! {

/// A JSON number: an integer as serde_json holds it, or the text of any other number
/// (printed as `null` where that text is not a JSON number).
#[derive(Debug)]
pub enum JsonNumber {
    Unsigned(u64),
    Signed(i64),
    Fractional(String),
}

/// A JSON value; an object keeps its members in order, keys as strings.
#[derive(Debug)]
pub enum JsonValue {
    Null,
    Bool(bool),
    Number(JsonNumber),
    Str(String),
    Array(Vec<JsonValue>),
    Object(Vec<(String, JsonValue)>),
}

/// serde_json's own value type, carried through the conversions below.
#[verifier::external_type_specification]
#[verifier::external_body]
pub struct ExValue(serde_json::Value);

/// What serde_json parses from a text, `None` where the text is not JSON.
pub uninterp spec fn parsed_json(text: Seq<char>) -> Option<JsonValue>;

/// The compact JSON text that serde_json prints for a value.
pub uninterp spec fn json_text(v: JsonValue) -> Seq<char>;

/// Relies on serde_json::from_str into serde_json::Value: the outcome depends on the text alone.
#[verifier::external_body]
pub fn parse_json(text: &str) -> (r: Option<JsonValue>)
    ensures
        r == parsed_json(text@),
{
    serde_json::from_str::<serde_json::Value>(text).ok().map(from_serde)
}

/// Relies on serde_json::to_string of a serde_json::Value, which cannot fail (all keys are
/// strings): the text depends on the value alone.
#[verifier::external_body]
pub fn print_json(v: &JsonValue) -> (r: String)
    ensures
        r@ == json_text(*v),
{
    serde_json::to_string(&to_serde(v)).unwrap_or_default()
}

/// Moves a serde_json value into the library's type, one variant for one.
#[verifier::external_body]
fn from_serde(v: Value) -> JsonValue {
    match v {
        Value::Null => JsonValue::Null,
        Value::Bool(b) => JsonValue::Bool(b),
        Value::Number(n) => JsonValue::Number(match (n.as_u64(), n.as_i64()) {
            (Some(u), _) => JsonNumber::Unsigned(u),
            (None, Some(i)) => JsonNumber::Signed(i),
            (None, None) => JsonNumber::Fractional(n.to_string()),
        }),
        Value::String(s) => JsonValue::Str(s),
        Value::Array(a) => JsonValue::Array(a.into_iter().map(from_serde).collect()),
        Value::Object(m) => JsonValue::Object(
            m.into_iter().map(|(k, x)| (k, from_serde(x))).collect(),
        ),
    }
}

/// Moves a value of the library's type into a serde_json value, one variant for one.
#[verifier::external_body]
fn to_serde(v: &JsonValue) -> Value {
    match v {
        JsonValue::Null => Value::Null,
        JsonValue::Bool(b) => Value::Bool(*b),
        JsonValue::Number(JsonNumber::Unsigned(u)) => Value::from(*u),
        JsonValue::Number(JsonNumber::Signed(i)) => Value::from(*i),
        JsonValue::Number(JsonNumber::Fractional(s)) => s.parse().map(Value::Number)
            .unwrap_or(Value::Null),
        JsonValue::Str(s) => Value::String(s.clone()),
        JsonValue::Array(a) => Value::Array(a.iter().map(to_serde).collect()),
        JsonValue::Object(m) => Value::Object(
            m.iter().map(|(k, x)| (k.clone(), to_serde(x))).collect(),
        ),
    }
}

/// The value of the last member named `key`.
pub open spec fn find_member(e: Seq<(String, JsonValue)>, key: Seq<char>) -> Option<JsonValue>
    decreases e.len(),
{
    if e.len() == 0 {
        None
    } else if e.last().0@ == key {
        Some(e.last().1)
    } else {
        find_member(e.drop_last(), key)
    }
}

/// The member `key` of an object; `None` for a value that is not an object.
pub open spec fn field(v: JsonValue, key: Seq<char>) -> Option<JsonValue> {
    match v {
        JsonValue::Object(e) => find_member(e@, key),
        _ => None,
    }
}

/// The unsigned integer that a number holds, if it holds one.
pub open spec fn as_unsigned(v: JsonValue) -> Option<u64> {
    match v {
        JsonValue::Number(JsonNumber::Unsigned(u)) => Some(u),
        JsonValue::Number(JsonNumber::Signed(i)) => if i >= 0 {
            Some(i as u64)
        } else {
            None
        },
        _ => None,
    }
}

/// The signed integer that a number holds, if it fits in `i64`.
pub open spec fn as_signed(v: JsonValue) -> Option<i64> {
    match v {
        JsonValue::Number(JsonNumber::Signed(i)) => Some(i),
        JsonValue::Number(JsonNumber::Unsigned(u)) => if u <= i64::MAX {
            Some(u as i64)
        } else {
            None
        },
        _ => None,
    }
}

impl JsonValue {
    /// The member `key` of an object.
    pub fn get(&self, key: &str) -> (r: Option<&JsonValue>)
        ensures
            match r {
                Some(x) => field(*self, key@) == Some(*x),
                None => field(*self, key@) is None,
            },
    {
        match self {
            JsonValue::Object(e) => {
                let k = key.to_owned();
                let mut i = e.len();
                assert(e@.subrange(0, i as int) =~= e@);
                while i > 0
                    invariant
                        i <= e@.len(),
                        k@ == key@,
                        field(*self, key@) == find_member(e@, key@),
                        find_member(e@, key@) == find_member(e@.subrange(0, i as int), key@),
                    decreases i,
                {
                    proof {
                        assert(e@.subrange(0, i as int).drop_last() =~= e@.subrange(0, i - 1));
                    }
                    if e[i - 1].0 == k {
                        assert(e@.subrange(0, i as int).last() == e@[i - 1]);
                        return Some(&e[i - 1].1);
                    }
                    i = i - 1;
                }
                None
            },
            _ => None,
        }
    }

    pub fn as_bool(&self) -> (r: Option<bool>)
        ensures
            r == match *self {
                JsonValue::Bool(b) => Some(b),
                _ => None,
            },
    {
        match self {
            JsonValue::Bool(b) => Some(*b),
            _ => None,
        }
    }

    pub fn as_u64(&self) -> (r: Option<u64>)
        ensures
            r == as_unsigned(*self),
    {
        match self {
            JsonValue::Number(JsonNumber::Unsigned(u)) => Some(*u),
            JsonValue::Number(JsonNumber::Signed(i)) => if *i >= 0 {
                Some(*i as u64)
            } else {
                None
            },
            _ => None,
        }
    }

    pub fn as_i64(&self) -> (r: Option<i64>)
        ensures
            r == as_signed(*self),
    {
        match self {
            JsonValue::Number(JsonNumber::Signed(i)) => Some(*i),
            JsonValue::Number(JsonNumber::Unsigned(u)) => if *u <= i64::MAX as u64 {
                Some(*u as i64)
            } else {
                None
            },
            _ => None,
        }
    }
}

} // verus!
