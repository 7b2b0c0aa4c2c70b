//! Path resolution and request dispatch for a minimal static file server.
//!
//! The server answers one request line per connection: it takes the
//! configured prefix off the requested path, holds the remainder's
//! extension against an optional whitelist, and joins the remainder onto
//! the configured root. This crate holds those decisions, each with a
//! contract that Verus proves; reading the line, opening the file and
//! writing the reply are left to the caller.

pub mod error;
pub mod path;
pub mod request;
pub mod resolve;
pub mod response;
pub mod server;
pub mod text;

pub use crate::error::{ResolveError, ServeError};
pub use crate::request::parse_request;
pub use crate::resolve::process_path;
pub use crate::response::{respond, Response};
pub use crate::server::{Server, ServerBuilder};
