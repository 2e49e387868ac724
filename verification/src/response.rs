//! Classification of response bodies. The service reports its own failures
//! inside a JSON object: a `statusCode` field marks the call failed with that
//! code, a bare `message` field marks it failed with code 0, and anything
//! else is decoded as the expected success type. serde_json does the parsing
//! and the field lookups; every decision over what it found is verified, and
//! what it finds is pinned to the body text by named results, so the decode
//! rule holds as an if-and-only-if and equal bodies classify equally.

use vstd::prelude::*;
use vstd::string::StrSliceExecFns;
use vstd::string::StringExecFns;

use crate::error::SubqueryError;

verus! {

/// Whether a text parses as JSON; a function of the text alone.
pub uninterp spec fn json_parses(s: Seq<char>) -> bool;

/// The `statusCode` field of the text parsed as a JSON object: present or
/// not, and its value when it is an unsigned integer; a function of the
/// text alone.
pub uninterp spec fn status_code_of(s: Seq<char>) -> Option<Option<u64>>;

/// The `message` field of the text parsed as a JSON object: present or not,
/// and its characters when it is a string; a function of the text alone.
pub uninterp spec fn message_of(s: Seq<char>) -> Option<Option<Seq<char>>>;

/// The `statusCode` and `message` fields of a parsed JSON object. For each,
/// the outer `Option` says whether the field is present, the inner one
/// whether it has the looked-for type.
#[derive(Clone, Debug)]
pub struct ObjectProbe {
    pub status_code: Option<Option<u64>>,
    pub message: Option<Option<String>>,
}

/// A probed message field as the named result sees it.
pub open spec fn spec_message_view(m: Option<Option<String>>) -> Option<Option<Seq<char>>> {
    match m {
        None => None,
        Some(None) => Some(None),
        Some(Some(s)) => Some(Some(s@)),
    }
}

/// Relies on serde_json::from_str, Value::get, Value::as_u64 and
/// Value::as_str: whether the text parses, and what its `statusCode` and
/// `message` fields hold, are functions of the text alone.
#[verifier::external_body]
fn probe_object(body: &str) -> (r: Option<ObjectProbe>)
    ensures
        r is Some <==> json_parses(body@),
        (r matches Some(p) ==> p.status_code == status_code_of(body@)),
        (r matches Some(p) ==> spec_message_view(p.message) == message_of(body@)),
{
    let v: serde_json::Value = match serde_json::from_str(body) {
        Ok(v) => v,
        Err(_) => return None,
    };
    let status_code = v.get("statusCode").map(|f| f.as_u64());
    let message = v.get("message").map(|f| f.as_str().map(str::to_owned));
    Some(ObjectProbe { status_code, message })
}

/// What a response body turned out to hold.
#[derive(Clone, Debug)]
pub enum BodyShape {
    /// The body does not look like a JSON object; decode it as the success
    /// type.
    NotObject,
    /// The body looks like an object but is not valid JSON.
    Malformed,
    /// The body is a JSON object with these `statusCode` and `message`
    /// fields.
    ObjectFields { status_code: Option<Option<u64>>, message: Option<Option<String>> },
}

/// Probes a response body: only a body that starts with `{` is parsed, and
/// of a parsed object exactly the `statusCode` and `message` fields of the
/// text come back.
pub fn probe_body(body: &str) -> (r: BodyShape)
    ensures
        (r is NotObject <==> body@.len() == 0 || body@[0] != '{'),
        (r is Malformed <==> body@.len() > 0 && body@[0] == '{' && !json_parses(body@)),
        (r is ObjectFields <==> body@.len() > 0 && body@[0] == '{' && json_parses(body@)),
        (r matches BodyShape::ObjectFields { status_code, message } ==> status_code
            == status_code_of(body@) && spec_message_view(message) == message_of(body@)),
{
    if body.unicode_len() == 0 {
        return BodyShape::NotObject;
    }
    if body.get_char(0) != '{' {
        return BodyShape::NotObject;
    }
    match probe_object(body) {
        None => BodyShape::Malformed,
        Some(probe) => BodyShape::ObjectFields {
            status_code: probe.status_code,
            message: probe.message,
        },
    }
}

/// The failure an object body reports through its fields, if any: a
/// `statusCode` field fails the call with that code (the largest value when
/// it is not a number), a bare `message` field fails it with code 0, and the
/// message falls back to a fixed text when absent or not a string.
pub fn classify_fields(
    endpoint: &str,
    status_code: &Option<Option<u64>>,
    message: &Option<Option<String>>,
) -> (r: Option<SubqueryError>)
    ensures
        (match status_code {
            Some(sc) => (r matches Some(e) && e matches SubqueryError::Api(ep, code, msg) && ep@
                == endpoint@ && code == (match sc {
                Some(c) => *c,
                None => u64::MAX,
            }) && msg@ == (match message {
                None => "No message from server"@,
                Some(None) => "Unknown error"@,
                Some(Some(m)) => m@,
            })),
            None => (match message {
                Some(mo) => (r matches Some(e) && e matches SubqueryError::Api(ep, code, msg)
                    && ep@ == endpoint@ && code == 0 && msg@ == (match mo {
                    None => "No message from server"@,
                    Some(m) => m@,
                })),
                None => r is None,
            }),
        }),
{
    match status_code {
        Some(sc) => {
            let code: u64 = match sc {
                Some(c) => *c,
                None => u64::MAX,
            };
            let msg: String = match message {
                None => String::from_str("No message from server"),
                Some(None) => String::from_str("Unknown error"),
                Some(Some(m)) => m.clone(),
            };
            Some(SubqueryError::Api(String::from_str(endpoint), code, msg))
        },
        None => {
            match message {
                Some(mo) => {
                    let msg: String = match mo {
                        None => String::from_str("No message from server"),
                        Some(m) => m.clone(),
                    };
                    Some(SubqueryError::Api(String::from_str(endpoint), 0, msg))
                },
                None => None,
            }
        },
    }
}

/// What to do with a response body.
#[derive(Clone, Debug)]
pub enum ResponseDisposition {
    /// Decode the body as the expected success type.
    DecodeBody,
    /// The body looks like an object but is not valid JSON; decoding it will
    /// surface the decode error.
    Malformed,
    /// The service reported this failure.
    Failed(SubqueryError),
}

/// Decides what a response body means, as a function of the body text and
/// the endpoint alone: a body that does not look like a JSON object, or an
/// object without `statusCode` or `message` fields, is decoded as the
/// success type; an object with a `statusCode` field is the failure with
/// that code, one with only a `message` field the failure with code 0, the
/// message falling back to a fixed text — if and only if.
pub fn response_disposition(endpoint: &str, body: &str) -> (r: ResponseDisposition)
    ensures
        (body@.len() == 0 || body@[0] != '{') ==> r is DecodeBody,
        (r is Malformed <==> body@.len() > 0 && body@[0] == '{' && !json_parses(body@)),
        (body@.len() > 0 && body@[0] == '{' && json_parses(body@) ==> (match status_code_of(
            body@,
        ) {
            Some(sc) => (r matches ResponseDisposition::Failed(e) && e
                matches SubqueryError::Api(ep, code, msg) && ep@ == endpoint@ && code == (
            match sc {
                Some(c) => c,
                None => u64::MAX,
            }) && msg@ == (match message_of(body@) {
                None => "No message from server"@,
                Some(None) => "Unknown error"@,
                Some(Some(m)) => m,
            })),
            None => (match message_of(body@) {
                Some(mo) => (r matches ResponseDisposition::Failed(e) && e
                    matches SubqueryError::Api(ep, code, msg) && ep@ == endpoint@ && code == 0
                    && msg@ == (match mo {
                    None => "No message from server"@,
                    Some(m) => m,
                })),
                None => r is DecodeBody,
            }),
        })),
{
    match probe_body(body) {
        BodyShape::NotObject => ResponseDisposition::DecodeBody,
        BodyShape::Malformed => ResponseDisposition::Malformed,
        BodyShape::ObjectFields { status_code, message } => {
            let outcome = classify_fields(endpoint, &status_code, &message);
            match outcome {
                Some(e) => ResponseDisposition::Failed(e),
                None => ResponseDisposition::DecodeBody,
            }
        },
    }
}

} // verus!
