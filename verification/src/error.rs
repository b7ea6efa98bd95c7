//! The closed set of failure kinds the pipeline can produce, and how a
//! failed response body is classified into a structured or raw message.

use vstd::prelude::*;
use crate::json::{
    parse_json, get_field, value_as_str, spec_json_of, spec_field_of, spec_str_of,
};

verus! {

/// The message carried by a `NonSuccess` error.
#[derive(Debug, PartialEq, Eq)]
pub enum ApiErrorMessage {
    /// The server returned the structured shape `{ "error": "<message>" }`
    /// and it parsed; holds the message text.
    Nice(String),
    /// The body did not have the structured shape; holds the body verbatim.
    Raw(String),
}

/// Everything that can go wrong when making a request with the API.
/// Exactly one variant is populated per failure.
#[derive(Debug, PartialEq, Eq)]
pub enum ApiError {
    /// A failure before a response was obtained (connection, TLS, timeout),
    /// or a success response whose body failed to decode as the expected
    /// shape; holds a description of the failure.
    Protocol(String),
    /// The server answered with a status code outside the success range;
    /// holds that code and the classified error message.
    NonSuccess(u16, ApiErrorMessage),
    /// A local I/O failure: a response body that could not be read, or a
    /// file that could not be attached to a multipart form.
    IO(String),
}

/// The outcome of one API operation.
pub type ApiResult<T> = Result<T, ApiError>;

/// The `error` member of a structured error body: present exactly when the
/// body parses as a JSON object whose `error` member is a string.
pub open spec fn spec_error_field(body: Seq<char>) -> Option<Seq<char>> {
    match spec_json_of(body) {
        Some(v) => match spec_field_of(v, "error"@) {
            Some(f) => spec_str_of(f),
            None => None,
        },
        None => None,
    }
}

/// What classifying `body` must yield: the structured message when the body
/// has the `{ "error": ... }` shape, otherwise the raw body with no data lost.
pub open spec fn spec_classified(m: ApiErrorMessage, body: Seq<char>) -> bool {
    match spec_error_field(body) {
        Some(msg) => m matches ApiErrorMessage::Nice(n) && n@ == msg,
        None => m matches ApiErrorMessage::Raw(t) && t@ == body,
    }
}

impl ApiErrorMessage {
    /// Classify a failed response body: attempt the structured shape first;
    /// on any parse failure keep the original body text verbatim.
    pub fn from_body(body: &str) -> (r: ApiErrorMessage)
        ensures
            spec_classified(r, body@),
    {
        match parse_json(body) {
            Some(v) => match get_field(&v, "error") {
                Some(f) => match value_as_str(f) {
                    Some(s) => ApiErrorMessage::Nice(s.to_owned()),
                    None => ApiErrorMessage::Raw(body.to_owned()),
                },
                None => ApiErrorMessage::Raw(body.to_owned()),
            },
            None => ApiErrorMessage::Raw(body.to_owned()),
        }
    }
}

} // verus!
