use vstd::prelude::*;
use crate::json::Json;

verus! {

/// `std::io::Error`, carried opaquely.
#[verifier::external_type_specification]
#[verifier::external_body]
pub struct ExIoError(std::io::Error);

/// Errors of the library's own decisions.
#[derive(Debug)]
pub enum Error {
    /// The server's response did not have the expected shape.
    Protocol(&'static str),
    /// A request was refused before it was sent.
    Other(&'static str),
    /// A JSON value could not be decoded.
    Decode(&'static str, Json),
    /// The websocket connection was closed, with the close code and reason.
    Closed(Option<u16>, String),
    /// Decompressing a payload failed.
    Io(std::io::Error),
}

} // verus!
