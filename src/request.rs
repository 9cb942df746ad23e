//! Outbound request descriptors: the endpoint URL, a JSON body, or the text fields of a
//! multipart form with one attached file.
use vstd::prelude::*;
use crate::envelope::ApiError;
use crate::json::{json_text, print_json, JsonValue};

verus! {

/// The endpoint of method `method` for the bot with API key `key`.
pub open spec fn api_url_of(key: Seq<char>, method: Seq<char>) -> Seq<char> {
    "https://api.telegram.org/bot"@ + key + seq!['/'] + method
}

pub fn api_url(key: &str, method: &str) -> (r: String)
    ensures
        r@ == api_url_of(key@, method@),
{
    let mut r = String::from_str("https://api.telegram.org/bot");
    r.append(key);
    r.append("/");
    proof {
        reveal_strlit("/");
    }
    r.append(method);
    r
}

/// The source of an attached file.
pub enum File {
    /// A file on disk, read when the request is sent.
    Disk { path: String },
    /// Bytes in memory, sent under `name`.
    Memory { name: String, source: Vec<u8> },
}

/// A request whose body is JSON text.
pub struct JsonRequest {
    pub url: String,
    pub body: String,
}

/// A multipart request: one text field per parameter and one file under `file_field`.
pub struct FormRequest {
    pub url: String,
    pub fields: Vec<(String, String)>,
    pub file_field: String,
    pub file: File,
}

/// The text of a form field: a string as it is, any other value as its JSON text.
pub open spec fn field_text(v: JsonValue) -> Seq<char> {
    match v {
        JsonValue::Str(s) => s@,
        _ => json_text(v),
    }
}

/// Whether `f` holds, in order, one field for each member of `members`.
pub open spec fn fields_of(members: Seq<(String, JsonValue)>, f: Seq<(String, String)>) -> bool {
    &&& f.len() == members.len()
    &&& forall|i: int|
        0 <= i < f.len() ==> (#[trigger] f[i]).0@ == members[i].0@ && f[i].1@ == field_text(
            members[i].1,
        )
}

/// The form fields of a parameter object; parameters that are not an object are refused.
pub fn form_fields(params: &JsonValue) -> (r: Result<Vec<(String, String)>, ApiError>)
    ensures
        r is Ok <==> params is Object,
        r is Err ==> r->Err_0 is MalformedParameters,
        r is Ok ==> fields_of(params->Object_0@, r->Ok_0@),
{
    match params {
        JsonValue::Object(members) => {
            let mut f: Vec<(String, String)> = Vec::new();
            let mut i: usize = 0;
            while i < members.len()
                invariant
                    i <= members@.len(),
                    f@.len() == i,
                    forall|j: int|
                        0 <= j < i ==> (#[trigger] f@[j]).0@ == members@[j].0@ && f@[j].1@
                            == field_text(members@[j].1),
                decreases members@.len() - i,
            {
                let text = match &members[i].1 {
                    JsonValue::Str(s) => s.clone(),
                    other => print_json(other),
                };
                f.push((members[i].0.clone(), text));
                i = i + 1;
            }
            Ok(f)
        },
        _ => Err(ApiError::MalformedParameters),
    }
}

} // verus!
