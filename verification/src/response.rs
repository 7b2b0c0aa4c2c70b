//! The replies the server sends: a status line and a blank line, with no
//! other header, followed by the file's bytes on success.

use vstd::prelude::*;
use crate::error::ServeError;

verus! {

/// Sent before the bytes of a file that could be opened.
pub const OK_HEADER: &'static str = "HTTP/1.1 200 OK\r\n\r\n";

/// Sent where the file does not exist.
pub const NOT_FOUND_HEADER: &'static str = "HTTP/1.1 404 ServerError\r\n\r\n";

/// Sent where the file could not be opened for any other reason.
pub const SERVER_ERR_HEADER: &'static str = "HTTP/1.1 400 ServerError\r\n\r\n";

/// What to write to the connection.
#[derive(Clone, Copy, Debug)]
pub struct Response {
    /// The status line and the blank line that ends the headers.
    pub header: &'static str,
    /// Whether the file's bytes follow the header.
    pub body: bool,
}

/// The reply that `outcome` calls for, as the header's text and whether a
/// body follows it, or `None` where the connection is dropped without one.
///
/// Success is answered with 200 and the file's bytes, a missing file with
/// 404, any other failure to open the file with 400, both without a body.
/// A request that was malformed, or whose path did not resolve, gets no
/// reply at all.
pub open spec fn reply_to(outcome: Result<(), ServeError>) -> Option<(Seq<char>, bool)> {
    match outcome {
        Ok(_) => Some((OK_HEADER@, true)),
        Err(ServeError::FileNotFound) => Some((NOT_FOUND_HEADER@, false)),
        Err(ServeError::OtherIoError) => Some((SERVER_ERR_HEADER@, false)),
        Err(_) => None,
    }
}

/// The reply `reply` as mathematical values.
pub open spec fn reply_text(reply: Option<Response>) -> Option<(Seq<char>, bool)> {
    match reply {
        Some(r) => Some((r.header@, r.body)),
        None => None,
    }
}

/// Chooses the reply for the outcome of a request: `Ok` where the resolved
/// file is open for reading, else the failure that ended the request.
pub fn respond(outcome: Result<(), ServeError>) -> (reply: Option<Response>)
    ensures
        reply_text(reply) == reply_to(outcome),
{
    match outcome {
        Ok(_) => Some(Response { header: OK_HEADER, body: true }),
        Err(ServeError::FileNotFound) => Some(Response { header: NOT_FOUND_HEADER, body: false }),
        Err(ServeError::OtherIoError) => Some(Response { header: SERVER_ERR_HEADER, body: false }),
        Err(_) => None,
    }
}

} // verus!
