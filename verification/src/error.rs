//! The failures of a request, by the stage at which they arise.

use vstd::prelude::*;

verus! {

/// The message of `ResolveError::PrefixMismatch`.
pub const PREFIX_ERR: &'static str = "prefix not found in url";

/// The message of `ResolveError::ExtensionMismatch`.
pub const EXTENSION_MISMATCH_ERR: &'static str = "path extension doesn't match allowed values";

/// Why a requested path names no file to serve.
#[derive(Clone, Copy, Debug, PartialEq, Eq, Structural)]
pub enum ResolveError {
    /// The requested path does not begin with the configured prefix.
    PrefixMismatch,
    /// A whitelist is configured and the path's extension is missing or not
    /// on it.
    ExtensionMismatch,
}

/// Why a request is not answered with the bytes of a file.
#[derive(Clone, Copy, Debug, PartialEq, Eq, Structural)]
pub enum ServeError {
    /// The requested path does not begin with the configured prefix.
    PrefixMismatch,
    /// A whitelist is configured and the path's extension is missing or not
    /// on it.
    ExtensionMismatch,
    /// There is no file at the resolved path.
    FileNotFound,
    /// The resolved file could not be opened or read for another reason:
    /// permission denied, a directory, an I/O error.
    OtherIoError,
    /// The request line names no path, or its method is not `GET`.
    MalformedRequest,
}

impl ResolveError {
    /// The text of the fixed message of this error.
    pub open spec fn message_text(self) -> Seq<char> {
        match self {
            ResolveError::PrefixMismatch => PREFIX_ERR@,
            ResolveError::ExtensionMismatch => EXTENSION_MISMATCH_ERR@,
        }
    }

    /// The same failure among those of a whole request.
    pub open spec fn as_serve_error(self) -> ServeError {
        match self {
            ResolveError::PrefixMismatch => ServeError::PrefixMismatch,
            ResolveError::ExtensionMismatch => ServeError::ExtensionMismatch,
        }
    }

    /// The fixed message of this error; it carries nothing else.
    pub fn message(&self) -> (text: &'static str)
        ensures
            text@ == self.message_text(),
    {
        match self {
            ResolveError::PrefixMismatch => PREFIX_ERR,
            ResolveError::ExtensionMismatch => EXTENSION_MISMATCH_ERR,
        }
    }
}

impl From<ResolveError> for ServeError {
    /// The same failure among those of a whole request.
    fn from(e: ResolveError) -> (served: ServeError) {
        match e {
            ResolveError::PrefixMismatch => ServeError::PrefixMismatch,
            ResolveError::ExtensionMismatch => ServeError::ExtensionMismatch,
        }
    }
}

impl vstd::std_specs::convert::FromSpecImpl<ResolveError> for ServeError {
    open spec fn obeys_from_spec() -> bool {
        true
    }

    open spec fn from_spec(e: ResolveError) -> ServeError {
        e.as_serve_error()
    }
}

} // verus!
