//! The `POST /things` endpoint: a request body is decoded into a [`Thing`]
//! by the host framework, and the handler turns the decode outcome into a
//! response. A success is answered with an empty body; each of the two
//! decoding failures is answered with its own status and a JSON error body.

use vstd::prelude::*;
use crate::response::{
    ContentType, Response, STATUS_BAD_REQUEST, STATUS_OK, STATUS_UNPROCESSABLE_ENTITY,
    io_error_body, parse_error_body, spec_io_error_body, spec_parse_error_body,
};

verus! {

/// The record a request body must decode to: one required boolean field.
#[derive(Debug, Clone, Copy, PartialEq, Eq, Structural)]
pub struct Thing {
    pub important_field: bool,
}

/// A failed attempt to decode a request body, as the host framework reports
/// it: either the body could not be read at all, or it was read but does not
/// parse as a `Thing`. A parse failure also carries the raw body text.
#[derive(Debug, Clone)]
pub enum JsonError {
    Io { message: String },
    Parse { input: String, message: String },
}

/// A decoding failure on its way to becoming a response.
#[derive(Debug, Clone)]
pub struct DeserializeError(pub JsonError);

impl From<JsonError> for DeserializeError {
    fn from(je: JsonError) -> (r: DeserializeError) {
        DeserializeError(je)
    }
}

impl vstd::std_specs::convert::FromSpecImpl<JsonError> for DeserializeError {
    open spec fn obeys_from_spec() -> bool {
        true
    }

    open spec fn from_spec(je: JsonError) -> DeserializeError {
        DeserializeError(je)
    }
}

/// The status a decoding failure is answered with: a transport failure is the
/// client's bad request, a parse failure an unprocessable entity.
pub open spec fn spec_error_status(e: JsonError) -> u16 {
    match e {
        JsonError::Io { .. } => STATUS_BAD_REQUEST,
        JsonError::Parse { .. } => STATUS_UNPROCESSABLE_ENTITY,
    }
}

/// The JSON body a decoding failure is answered with: the message under
/// `error`, and for a parse failure also the raw body text under `input`.
pub open spec fn spec_error_body(e: JsonError) -> Seq<char> {
    match e {
        JsonError::Io { message } => spec_io_error_body(message@),
        JsonError::Parse { input, message } => spec_parse_error_body(message@, input@),
    }
}

impl DeserializeError {
    /// Turns a decoding failure into its response: the status from
    /// [`spec_error_status`], the body from [`spec_error_body`], and always
    /// the JSON content type.
    pub fn respond_to(self) -> (r: Response)
        ensures
            r.status == spec_error_status(self.0),
            r.content_type == ContentType::Json,
            r.body@ == spec_error_body(self.0),
    {
        match self.0 {
            JsonError::Io { message } => Response {
                status: STATUS_BAD_REQUEST,
                content_type: ContentType::Json,
                body: io_error_body(message.as_str()),
            },
            JsonError::Parse { input, message } => Response {
                status: STATUS_UNPROCESSABLE_ENTITY,
                content_type: ContentType::Json,
                body: parse_error_body(message.as_str(), input.as_str()),
            },
        }
    }
}

/// The handler behind `POST /things`: a decoded `Thing` is accepted, a
/// decoding failure is wrapped for the error response. An important thing
/// triggers no further action here; the endpoint only acknowledges it.
pub fn create_thing(thing: Result<Thing, JsonError>) -> (r: Result<(), DeserializeError>)
    ensures
        r is Ok <==> thing is Ok,
        thing matches Err(e) ==> r matches Err(d) && d.0 == e,
{
    match thing {
        Ok(t) => {
            if t.important_field {
                // extension point: what an important thing sets off is not
                // part of this endpoint's contract
            }
            Ok(())
        },
        Err(e) => Err(DeserializeError::from(e)),
    }
}

/// Everything the endpoint promises of a response to a given decode outcome.
pub open spec fn response_matches(thing: Result<Thing, JsonError>, r: Response) -> bool {
    match thing {
        Ok(_) => r.status == STATUS_OK && r.content_type == ContentType::Unset && r.body@
            == Seq::<char>::empty(),
        Err(e) => r.status == spec_error_status(e) && r.content_type == ContentType::Json
            && r.body@ == spec_error_body(e),
    }
}

/// The mounted application: one route and nothing else, so a value of it
/// carries no state at all.
#[derive(Debug, Clone, Copy, PartialEq, Eq, Structural)]
pub struct App {}

impl App {
    /// Answers one `POST /things` request whose body the host framework has
    /// already tried to decode.
    pub fn handle_things(&self, thing: Result<Thing, JsonError>) -> (r: Response)
        ensures
            response_matches(thing, r),
    {
        match create_thing(thing) {
            Ok(()) => Response {
                status: STATUS_OK,
                content_type: ContentType::Unset,
                body: String::new(),
            },
            Err(e) => e.respond_to(),
        }
    }
}

/// Builds the application with its one route mounted.
pub fn rocket() -> (app: App)
    ensures
        app == (App {  }),
{
    App {  }
}

/// Repeating a request gives the same answer: the response is determined by
/// the decode outcome alone, and handling a request mutates no state that a
/// later request could see.
pub proof fn lemma_handler_deterministic(
    thing: Result<Thing, JsonError>,
    r1: Response,
    r2: Response,
)
    requires
        response_matches(thing, r1),
        response_matches(thing, r2),
    ensures
        r1.status == r2.status,
        r1.content_type == r2.content_type,
        r1.body@ == r2.body@,
{
}

/// Every error response announces the JSON content type.
pub proof fn lemma_error_response_is_json(thing: Result<Thing, JsonError>, r: Response)
    requires
        response_matches(thing, r),
        thing is Err,
    ensures
        r.content_type == ContentType::Json,
{
}

} // verus!
