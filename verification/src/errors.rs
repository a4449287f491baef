//! Error taxonomy of the library: local parse failures for identifier text,
//! and the per-call errors a transport hands back.

use vstd::prelude::*;
use crate::records::ErrorResponse;

verus! {

/// Why a piece of identifier text was rejected.
#[derive(Clone, Copy, Debug, PartialEq, Eq, Structural)]
pub enum ParseError {
    /// The `:` or `/` separator is missing at its expected position
    MissingSeparator,
    /// The literal prefix before `:` is not the expected entity kind
    KindMismatch,
    /// The mode segment names no known mode and is not a numeric code
    UnknownMode,
    /// The trailing segment fails the scalar's own parse rule
    InvalidScalar,
}

impl ParseError {
    /// A short description of the rejection, for callers that present errors.
    pub fn describe(&self) -> (s: &'static str)
        ensures
            s@ == spec_describe(*self),
    {
        match self {
            ParseError::MissingSeparator => "missing ':' or '/' separator",
            ParseError::KindMismatch => "entity kind prefix does not match",
            ParseError::UnknownMode => "unknown transport mode",
            ParseError::InvalidScalar => "invalid identifier scalar",
        }
    }
}

/// The description text of each rejection.
pub open spec fn spec_describe(e: ParseError) -> Seq<char> {
    match e {
        ParseError::MissingSeparator => "missing ':' or '/' separator"@,
        ParseError::KindMismatch => "entity kind prefix does not match"@,
        ParseError::UnknownMode => "unknown transport mode"@,
        ParseError::InvalidScalar => "invalid identifier scalar"@,
    }
}

/// A per-call error of the client. Every error is returned to the caller as
/// a typed result; none is swallowed, none triggers a retry.
#[derive(Clone, Debug)]
pub enum Error {
    /// Identifier or mode text was malformed
    Parse(ParseError),
    /// The transport failed before an HTTP status was available
    Transport(String),
    /// Non-success status whose body was not a structured error payload
    Http(u16, String),
    /// Non-success status with a decoded error payload
    Api(u16, ErrorResponse),
    /// Success status, but the body failed to decode into the expected shape
    Decode(String),
}

} // verus!
