//! Decoding the `{ok, result, description}` envelope that wraps every response.
use vstd::prelude::*;
use crate::json::{field, json_text, parse_json, parsed_json, print_json, JsonValue};
use crate::router::opt_view;

verus! {

/// The ways a call to the remote service can fail.
#[derive(Debug)]
pub enum ApiError {
    /// The service could not be reached, or the exchange broke off.
    Transport,
    /// The response is not JSON, or has no boolean `ok`.
    InvalidEnvelope,
    /// The response says `ok` but carries no `result`.
    MissingResult,
    /// The service refused the call, with its description where it gave one.
    Remote { description: Option<String> },
    /// The parameters of a form request are not a JSON object.
    MalformedParameters,
    /// The file to attach could not be opened.
    AttachmentUnreadable,
}

/// What an envelope says, over plain values.
pub enum EnvelopeModel {
    Success(JsonValue),
    MissingResult,
    Remote(Option<Seq<char>>),
    Invalid,
}

pub open spec fn envelope_of(v: JsonValue) -> EnvelopeModel {
    match field(v, "ok"@) {
        Some(JsonValue::Bool(true)) => match field(v, "result"@) {
            Some(res) => EnvelopeModel::Success(res),
            None => EnvelopeModel::MissingResult,
        },
        Some(JsonValue::Bool(false)) => EnvelopeModel::Remote(
            match field(v, "description"@) {
                Some(JsonValue::Str(d)) => Some(d@),
                _ => None,
            },
        ),
        _ => EnvelopeModel::Invalid,
    }
}

/// Whether `r` is the outcome that the envelope `m` calls for: the printed `result` on
/// success, else the matching error.
pub open spec fn decodes_to(m: EnvelopeModel, r: Result<String, ApiError>) -> bool {
    match m {
        EnvelopeModel::Success(res) => r is Ok && r->Ok_0@ == json_text(res),
        EnvelopeModel::MissingResult => r is Err && r->Err_0 is MissingResult,
        EnvelopeModel::Remote(d) => r is Err && r->Err_0 is Remote && opt_view(
            r->Err_0->description,
        ) == d,
        EnvelopeModel::Invalid => r is Err && r->Err_0 is InvalidEnvelope,
    }
}

/// The envelope model of a response text; a text that is not JSON is an invalid envelope.
pub open spec fn response_model(text: Seq<char>) -> EnvelopeModel {
    match parsed_json(text) {
        Some(v) => envelope_of(v),
        None => EnvelopeModel::Invalid,
    }
}

/// Decodes a parsed envelope: the `result` printed back to text, or the error it states.
pub fn decode_envelope(v: &JsonValue) -> (r: Result<String, ApiError>)
    ensures
        decodes_to(envelope_of(*v), r),
{
    let ok = match v.get("ok") {
        Some(x) => x.as_bool(),
        None => None,
    };
    match ok {
        None => Err(ApiError::InvalidEnvelope),
        Some(true) => match v.get("result") {
            Some(res) => Ok(print_json(res)),
            None => Err(ApiError::MissingResult),
        },
        Some(false) => {
            let description = match v.get("description") {
                Some(JsonValue::Str(d)) => Some(d.clone()),
                _ => None,
            };
            Err(ApiError::Remote { description })
        },
    }
}

/// Decodes the raw text of a response.
pub fn decode_response(text: &str) -> (r: Result<String, ApiError>)
    ensures
        decodes_to(response_model(text@), r),
{
    match parse_json(text) {
        Some(v) => decode_envelope(&v),
        None => Err(ApiError::InvalidEnvelope),
    }
}

/// Round trip: a successful envelope whose `result` is the parameter object `params`
/// decodes to the very JSON text that encoding `params` gives, whatever the other
/// members hold.
pub proof fn lemma_round_trip(params: JsonValue, text: Seq<char>, v: JsonValue, r: Result<String, ApiError>)
    requires
        parsed_json(text) == Some(v),
        field(v, "ok"@) == Some(JsonValue::Bool(true)),
        field(v, "result"@) == Some(params),
        decodes_to(response_model(text), r),
    ensures
        r is Ok,
        r->Ok_0@ == json_text(params),
{
}

/// A refusal with a description decodes to a remote error that carries exactly that
/// description.
pub proof fn lemma_refusal_envelope(text: Seq<char>, v: JsonValue, d: String, r: Result<String, ApiError>)
    requires
        parsed_json(text) == Some(v),
        field(v, "ok"@) == Some(JsonValue::Bool(false)),
        field(v, "description"@) == Some(JsonValue::Str(d)),
        decodes_to(response_model(text), r),
    ensures
        r is Err,
        r->Err_0 is Remote,
        r->Err_0->description is Some,
        r->Err_0->description->0@ == d@,
{
}

} // verus!
