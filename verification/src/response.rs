//! The HTTP response model: a status code, a content type and a body, and
//! the exact JSON bodies of the two error responses.

use vstd::prelude::*;
use vstd::string::StringExecFns;
use crate::json::{json_quote, json_quote_str};

verus! {

/// HTTP status for a success with nothing to report.
pub const STATUS_OK: u16 = 200;

/// HTTP status for a body that could not be read at the transport level.
pub const STATUS_BAD_REQUEST: u16 = 400;

/// HTTP status for a body that was read but does not parse as a `Thing`.
pub const STATUS_UNPROCESSABLE_ENTITY: u16 = 422;

/// The content type announced with a response body. A successful request is
/// answered with an empty body and no content type at all.
#[derive(Debug, Clone, Copy, PartialEq, Eq, Structural)]
pub enum ContentType {
    Json,
    Unset,
}

/// What the endpoint sends back: everything the caller can observe.
#[derive(Debug, Clone)]
pub struct Response {
    pub status: u16,
    pub content_type: ContentType,
    pub body: String,
}

/// The body of a transport-level failure response: a JSON object with the
/// failure message under the single key `error`.
pub open spec fn spec_io_error_body(message: Seq<char>) -> Seq<char> {
    "{\"error\":"@ + json_quote(message) + "}"@
}

/// The body of a parse failure response: a JSON object with the parse
/// message under `error` and the raw request text under `input`.
pub open spec fn spec_parse_error_body(message: Seq<char>, input: Seq<char>) -> Seq<char> {
    "{\"error\":"@ + json_quote(message) + ",\"input\":"@ + json_quote(input) + "}"@
}

/// Builds the transport-failure body for a concrete message.
pub fn io_error_body(message: &str) -> (r: String)
    ensures
        r@ == spec_io_error_body(message@),
{
    let mut out: String = "{\"error\":".to_owned();
    let quoted = json_quote_str(message);
    out.append(quoted.as_str());
    out.append("}");
    proof {
        assert(out@ =~= spec_io_error_body(message@));
    }
    out
}

/// Builds the parse-failure body for a concrete message and raw input text.
pub fn parse_error_body(message: &str, input: &str) -> (r: String)
    ensures
        r@ == spec_parse_error_body(message@, input@),
{
    let mut out: String = "{\"error\":".to_owned();
    let quoted_message = json_quote_str(message);
    out.append(quoted_message.as_str());
    out.append(",\"input\":");
    let quoted_input = json_quote_str(input);
    out.append(quoted_input.as_str());
    out.append("}");
    proof {
        assert(out@ =~= spec_parse_error_body(message@, input@));
    }
    out
}

} // verus!
