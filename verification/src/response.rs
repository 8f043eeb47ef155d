//! Interpretation of the remote service's reply: transport and status
//! handling, and extraction of the first completion's message content from
//! the response body. The body is parsed by `serde_json` behind trusted
//! wrappers; everything decided about the parsed value is verified against
//! the JSON model below.

use vstd::prelude::*;
use vstd::string::StringExecFns;
use crate::error::ReviewError;

verus! {

/// The mathematical shape of a parsed JSON document.
pub enum JsonModel {
    Null,
    Truth(bool),
    Number,
    Text(Seq<char>),
    List(Seq<JsonModel>),
    Object(Map<Seq<char>, JsonModel>),
}

/// Declares `serde_json::Value` so it can stand in signatures; the verifier
/// sees nothing inside a value of it, only what the wrappers below say.
#[verifier::external_type_specification]
#[verifier::external_body]
pub struct ExValue(serde_json::Value);

/// What `serde_json::from_str::<Value>` makes of a body: `None` when the text
/// is not a single well-formed JSON document, otherwise its model.
pub uninterp spec fn json_of(s: Seq<char>) -> Option<JsonModel>;

/// The JSON document a `serde_json::Value` holds.
pub uninterp spec fn value_model(v: serde_json::Value) -> JsonModel;

/// Relies on `serde_json::from_str::<Value>`: parses the whole input as one
/// JSON document, deterministically in the input text.
#[verifier::external_body]
fn parse_json(s: &str) -> (r: Option<serde_json::Value>)
    ensures
        r is Some <==> json_of(s@) is Some,
        r matches Some(v) ==> json_of(s@) == Some(value_model(v)),
{
    serde_json::from_str::<serde_json::Value>(s).ok()
}

/// Relies on `serde_json::Value::get` with a string key: on an object, looks
/// the key up; on any other value it returns `None`.
#[verifier::external_body]
fn json_field<'a>(v: &'a serde_json::Value, key: &str) -> (r: Option<&'a serde_json::Value>)
    ensures
        ({
            match value_model(*v) {
                JsonModel::Object(fields) => {
                    &&& (r is Some <==> fields.dom().contains(key@))
                    &&& (r matches Some(f) ==> fields.dom().contains(key@) && value_model(*f)
                        == fields[key@])
                },
                _ => r is None,
            }
        }),
{
    v.get(key)
}

/// Relies on `serde_json::Value::as_array`: `Some` exactly on JSON arrays,
/// handing out the elements in order.
#[verifier::external_body]
fn json_elements<'a>(v: &'a serde_json::Value) -> (r: Option<&'a Vec<serde_json::Value>>)
    ensures
        ({
            match value_model(*v) {
                JsonModel::List(elts) => r matches Some(a) && a@.len() == elts.len() && (forall|
                    i: int,
                |
                    0 <= i < elts.len() ==> value_model(#[trigger] a@[i]) == elts[i]),
                _ => r is None,
            }
        }),
{
    v.as_array()
}

/// Relies on `serde_json::Value::as_str`: `Some` exactly on JSON strings,
/// handing the characters out unchanged.
#[verifier::external_body]
fn json_text<'a>(v: &'a serde_json::Value) -> (r: Option<&'a str>)
    ensures
        ({
            match value_model(*v) {
                JsonModel::Text(t) => r matches Some(s) && s@ == t,
                _ => r is None,
            }
        }),
{
    v.as_str()
}

/// The completions of a reply document: the `choices` field, which must be
/// an array of an object at the top level.
pub open spec fn choices_of(m: JsonModel) -> Option<Seq<JsonModel>> {
    match m {
        JsonModel::Object(fields) => if fields.dom().contains("choices"@) {
            match fields["choices"@] {
                JsonModel::List(cs) => Some(cs),
                _ => None,
            }
        } else {
            None
        },
        _ => None,
    }
}

/// The message content of one completion: `message.content`, a string.
pub open spec fn choice_content(c: JsonModel) -> Option<Seq<char>> {
    match c {
        JsonModel::Object(fields) => if fields.dom().contains("message"@) {
            match fields["message"@] {
                JsonModel::Object(msg) => if msg.dom().contains("content"@) {
                    match msg["content"@] {
                        JsonModel::Text(t) => Some(t),
                        _ => None,
                    }
                } else {
                    None
                },
                _ => None,
            }
        } else {
            None
        },
        _ => None,
    }
}

/// A reply has the expected shape when it carries a `choices` array and every
/// element of it carries a textual `message.content`.
pub open spec fn reply_shape_ok(m: JsonModel) -> bool {
    match choices_of(m) {
        Some(cs) => forall|i: int| 0 <= i < cs.len() ==> choice_content(#[trigger] cs[i]) is Some,
        None => false,
    }
}

/// What a successful-status response body must come to.
pub enum ReplyModel {
    /// The body is not JSON, or not of the expected shape.
    Malformed,
    /// The expected shape, but zero completions.
    Empty,
    /// The first completion's message content.
    Verdict(Seq<char>),
}

pub open spec fn reply_of(body: Seq<char>) -> ReplyModel {
    match json_of(body) {
        None => ReplyModel::Malformed,
        Some(m) => if !reply_shape_ok(m) {
            ReplyModel::Malformed
        } else {
            match choices_of(m) {
                Some(cs) => if cs.len() == 0 {
                    ReplyModel::Empty
                } else {
                    match choice_content(cs[0]) {
                        Some(t) => ReplyModel::Verdict(t),
                        None => ReplyModel::Malformed,
                    }
                },
                None => ReplyModel::Malformed,
            }
        },
    }
}

/// How an extraction result must relate to the body it was read from.
pub open spec fn reply_result_ok(body: Seq<char>, r: Result<String, ReviewError>) -> bool {
    match reply_of(body) {
        ReplyModel::Malformed => r matches Err(ReviewError::MalformedResponse),
        ReplyModel::Empty => r matches Err(ReviewError::EmptyResponse),
        ReplyModel::Verdict(t) => r matches Ok(s) && s@ == t,
    }
}

/// The content of one completion, when it has the expected shape.
fn choice_text(c: &serde_json::Value) -> (r: Option<String>)
    ensures
        r is Some <==> choice_content(value_model(*c)) is Some,
        r matches Some(s) ==> choice_content(value_model(*c)) == Some(s@),
{
    match json_field(c, "message") {
        None => None,
        Some(msg) => match json_field(msg, "content") {
            None => None,
            Some(content) => match json_text(content) {
                None => None,
                Some(text) => Some(text.to_owned()),
            },
        },
    }
}

/// Reads the review verdict out of a successful-status response body:
/// the first completion's message content; `MalformedResponse` when the body
/// is not of the expected shape, `EmptyResponse` when it carries zero
/// completions.
pub fn extract_content(body: &str) -> (r: Result<String, ReviewError>)
    ensures
        reply_result_ok(body@, r),
{
    let parsed = parse_json(body);
    match parsed {
        None => Err(ReviewError::MalformedResponse),
        Some(v) => {
            let ghost m = value_model(v);
            match json_field(&v, "choices") {
                None => Err(ReviewError::MalformedResponse),
                Some(cv) => {
                    match json_elements(cv) {
                        None => Err(ReviewError::MalformedResponse),
                        Some(arr) => {
                            let ghost cs = choices_of(m)->Some_0;
                            let n = arr.len();
                            let mut i: usize = 0;
                            while i < n
                                invariant
                                    i <= n,
                                    n == arr@.len(),
                                    n == cs.len(),
                                    json_of(body@) == Some(m),
                                    choices_of(m) == Some(cs),
                                    forall|j: int|
                                        0 <= j < arr@.len() ==> value_model(#[trigger] arr@[j])
                                            == cs[j],
                                    forall|j: int|
                                        0 <= j < i ==> choice_content(#[trigger] cs[j]) is Some,
                                decreases n - i,
                            {
                                let t = choice_text(&arr[i]);
                                if t.is_none() {
                                    proof {
                                        assert(value_model(arr@[i as int]) == cs[i as int]);
                                        assert(choice_content(cs[i as int]) is None);
                                        assert(!reply_shape_ok(m));
                                    }
                                    return Err(ReviewError::MalformedResponse);
                                }
                                i += 1;
                            }
                            if n == 0 {
                                Err(ReviewError::EmptyResponse)
                            } else {
                                match choice_text(&arr[0]) {
                                    Some(text) => Ok(text),
                                    None => {
                                        proof {
                                            assert(choice_content(cs[0]) is Some);
                                            assert(false);
                                        }
                                        Err(ReviewError::MalformedResponse)
                                    },
                                }
                            }
                        },
                    }
                },
            }
        },
    }
}

/// Whether a status code counts as success.
pub open spec fn is_success_status(status: u16) -> bool {
    200 <= status < 300
}

/// The body text a service error carries: what was read, or the placeholder
/// when reading the body itself failed.
pub open spec fn fallback_body(body: Option<String>) -> Seq<char> {
    match body {
        Some(b) => b@,
        None => "Unknown error"@,
    }
}

/// What the one remote call came to: either a response arrived, with its
/// status code and its body (`None` when the body could not be read), or the
/// transport failed before any response.
#[derive(Debug)]
pub enum HttpOutcome {
    Responded { status: u16, body: Option<String> },
    Failed { message: String },
}

/// How the pipeline's result must relate to the outcome of the remote call.
pub open spec fn http_result_ok(outcome: HttpOutcome, r: Result<String, ReviewError>) -> bool {
    match outcome {
        HttpOutcome::Failed { message } => r matches Err(e) && e matches
            ReviewError::TransportError { message: m } && m@ == message@,
        HttpOutcome::Responded { status, body } => if !is_success_status(status) {
            r matches Err(e) && e matches ReviewError::ServiceError { status: s, body: b } && s
                == status && b@ == fallback_body(body)
        } else {
            match body {
                Some(text) => reply_result_ok(text@, r),
                None => r matches Err(ReviewError::MalformedResponse),
            }
        },
    }
}

/// Turns a response into the review verdict or the error it deserves: a
/// non-success status is a `ServiceError` carrying status and body — never a
/// fabricated verdict — and a successful status hands the body to extraction.
pub fn interpret_response(status: u16, body: Option<String>) -> (r: Result<String, ReviewError>)
    ensures
        http_result_ok(HttpOutcome::Responded { status, body }, r),
{
    if !(200 <= status && status < 300) {
        let b = match body {
            Some(text) => text,
            None => String::from_str("Unknown error"),
        };
        Err(ReviewError::ServiceError { status, body: b })
    } else {
        match body {
            Some(text) => extract_content(text.as_str()),
            None => Err(ReviewError::MalformedResponse),
        }
    }
}

/// Turns the outcome of the remote call into the pipeline's result: a
/// transport failure is a `TransportError`, a response is interpreted.
pub fn handle_http_outcome(outcome: HttpOutcome) -> (r: Result<String, ReviewError>)
    ensures
        http_result_ok(outcome, r),
{
    match outcome {
        HttpOutcome::Failed { message } => Err(ReviewError::TransportError { message }),
        HttpOutcome::Responded { status, body } => interpret_response(status, body),
    }
}

} // verus!
