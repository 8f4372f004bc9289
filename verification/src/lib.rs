//! A single JSON endpoint: accept a decoded `Thing` or a decoding failure,
//! and answer with a success or a structured JSON error response.

pub mod endpoint;
pub mod json;
pub mod response;
