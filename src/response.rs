//! Reading the service's answer: the status check, the nested lookup of the
//! generated text, and the errors that can come instead.

use vstd::prelude::*;
use crate::text::{decimal, trim, trimmed, u16_decimal};

verus! {

/// One piece of generated content.
pub struct Part {
    pub text: Option<String>,
}

/// The content of a candidate: its parts.
pub struct Content {
    pub parts: Option<Vec<Part>>,
}

/// One generated answer.
pub struct Candidate {
    pub content: Option<Content>,
}

/// The decoded response body: the list of candidates.
pub struct GeminiResponse {
    pub candidates: Option<Vec<Candidate>>,
}

/// Why no commit message came back.
pub enum ApiError {
    /// The service answered with a status outside 200 to 299.
    Status { code: u16, body: String },
    /// The body is not the expected JSON.
    Parse { body: String },
    /// The body holds no text at candidates, content, parts, text.
    NoMessage { body: String },
}

pub const STATUS_PREFIX: &'static str = "gemini api returned status ";

pub const STATUS_SEPARATOR: &'static str = ": ";

pub const PARSE_PREFIX: &'static str = "failed to parse json response: ";

pub const NO_MESSAGE_PREFIX: &'static str =
    "could not extract commit message text from response: ";

/// How the HTTP status type displays a code that it accepts: the code's
/// digits, a space, then the standard reason phrase.
pub uninterp spec fn status_display(code: u16) -> Seq<char>;

/// `t` begins with the decimal digits of `code` followed by a space.
pub open spec fn starts_with_code(t: Seq<char>, code: u16) -> bool {
    let d = decimal(code as nat);
    t.len() > d.len() && t.subrange(0, d.len() as int) == d && t[d.len() as int] == ' '
}

/// Relies on `reqwest::StatusCode::from_u16`, which accepts the codes 100 to
/// 999, and on the status's `Display`, which writes the code, a space and
/// the reason phrase.
#[verifier::external_body]
fn status_text(code: u16) -> (r: Option<String>)
    ensures
        r is Some <==> 100 <= code <= 999,
        r matches Some(t) ==> t@ == status_display(code),
        r matches Some(t) ==> starts_with_code(t@, code),
{
    reqwest::StatusCode::from_u16(code).ok().map(|s| s.to_string())
}

/// How a status is shown in an error: as the HTTP status type displays it,
/// or as bare digits for a code that the type does not accept.
pub open spec fn status_part(code: u16) -> Seq<char> {
    if 100 <= code <= 999 {
        status_display(code)
    } else {
        decimal(code as nat)
    }
}

/// A status code in the success class, 200 to 299.
pub open spec fn success(code: u16) -> bool {
    200 <= code <= 299
}

/// The text of the first part of the first candidate, if every level of it
/// is present.
pub open spec fn first_text(r: GeminiResponse) -> Option<Seq<char>> {
    if r.candidates is Some && r.candidates->0@.len() > 0 {
        let content = r.candidates->0@[0].content;
        if content is Some && content->0.parts is Some && content->0.parts->0@.len() > 0 {
            match content->0.parts->0@[0].text {
                Some(t) => Some(t@),
                None => None,
            }
        } else {
            None
        }
    } else {
        None
    }
}

/// What an answer with status `code`, raw `body`, and `parsed` (the body
/// decoded, or `None` where it is not the expected JSON) comes to.
pub open spec fn response_outcome(
    code: u16,
    body: String,
    parsed: Option<GeminiResponse>,
) -> Result<Seq<char>, ApiError> {
    if !success(code) {
        Err(ApiError::Status { code, body })
    } else {
        match parsed {
            None => Err(ApiError::Parse { body }),
            Some(r) => match first_text(r) {
                Some(t) => Ok(trimmed(t)),
                None => Err(ApiError::NoMessage { body }),
            },
        }
    }
}

/// The human-readable text of an error.
pub open spec fn error_message(e: ApiError) -> Seq<char> {
    match e {
        ApiError::Status { code, body } => STATUS_PREFIX@ + status_part(code)
            + STATUS_SEPARATOR@ + body@,
        ApiError::Parse { body } => PARSE_PREFIX@ + body@,
        ApiError::NoMessage { body } => NO_MESSAGE_PREFIX@ + body@,
    }
}

/// Whether `code` is a success status.
pub fn is_success(code: u16) -> (r: bool)
    ensures
        r == success(code),
{
    200 <= code && code <= 299
}

/// The trimmed text of the first part of the first candidate, or `None`
/// where some level is absent.
pub fn extract_message(r: &GeminiResponse) -> (m: Option<String>)
    ensures
        m is Some <==> first_text(*r) is Some,
        m matches Some(s) ==> s@ == trimmed(first_text(*r)->0),
{
    match &r.candidates {
        Some(cands) if cands.len() > 0 => match &cands[0].content {
            Some(content) => match &content.parts {
                Some(parts) if parts.len() > 0 => match &parts[0].text {
                    Some(t) => Some(trim(t.as_str())),
                    None => None,
                },
                _ => None,
            },
            None => None,
        },
        _ => None,
    }
}

/// Turns the service's answer into the commit message or an error. `parsed`
/// is the body decoded, or `None` where it is not the expected JSON.
pub fn interpret_response(code: u16, body: String, parsed: Option<GeminiResponse>) -> (r: Result<
    String,
    ApiError,
>)
    ensures
        r matches Ok(m) ==> response_outcome(code, body, parsed) == Ok::<Seq<char>, ApiError>(m@),
        r matches Err(e) ==> response_outcome(code, body, parsed) == Err::<Seq<char>, ApiError>(e),
        r is Ok <==> response_outcome(code, body, parsed) is Ok,
{
    if !is_success(code) {
        return Err(ApiError::Status { code, body });
    }
    match parsed {
        None => Err(ApiError::Parse { body }),
        Some(resp) => match extract_message(&resp) {
            Some(m) => Ok(m),
            None => Err(ApiError::NoMessage { body }),
        },
    }
}

impl ApiError {
    /// The human-readable text of the error. It ends with the raw body; for
    /// a failed status the code's digits follow the fixed prefix.
    pub fn message(&self) -> (r: String)
        ensures
            r@ == error_message(*self),
            self matches ApiError::Status { code, body } ==> {
                let start = STATUS_PREFIX@.len() as int;
                r@.subrange(start, start + decimal(code as nat).len()) == decimal(code as nat)
                    && r@.subrange(r@.len() - body@.len(), r@.len() as int) == body@
            },
    {
        match self {
            ApiError::Status { code, body } => {
                let mut s = String::from_str(STATUS_PREFIX);
                let shown = match status_text(*code) {
                    Some(t) => t,
                    None => u16_decimal(*code),
                };
                proof {
                    let d = decimal(*code as nat);
                    assert(shown@.subrange(0, d.len() as int) == d);
                }
                s.append(shown.as_str());
                s.append(STATUS_SEPARATOR);
                s.append(body.as_str());
                proof {
                    let d = decimal(*code as nat);
                    let start = STATUS_PREFIX@.len() as int;
                    assert(s@ == STATUS_PREFIX@ + shown@ + STATUS_SEPARATOR@ + body@);
                    assert(s@.subrange(start, start + d.len()) =~= shown@.subrange(0, d.len() as int));
                    assert(s@.subrange(s@.len() - body@.len(), s@.len() as int) =~= body@);
                }
                s
            },
            ApiError::Parse { body } => {
                let mut s = String::from_str(PARSE_PREFIX);
                s.append(body.as_str());
                s
            },
            ApiError::NoMessage { body } => {
                let mut s = String::from_str(NO_MESSAGE_PREFIX);
                s.append(body.as_str());
                s
            },
        }
    }
}

/// An answer with a failed status is an error that carries the code and the
/// raw body, whatever the body holds, and its message shows both.
pub proof fn lemma_failed_status_reported(code: u16, body: String, parsed: Option<GeminiResponse>)
    requires
        !success(code),
    ensures
        response_outcome(code, body, parsed) == Err::<Seq<char>, ApiError>(
            ApiError::Status { code, body },
        ),
        error_message(ApiError::Status { code, body }) == STATUS_PREFIX@ + status_part(code)
            + STATUS_SEPARATOR@ + body@,
{
}

} // verus!
