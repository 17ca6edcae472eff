//! The error taxonomy of the client layer.
//!
//! Absence of a key is never an error: a lookup for a missing key produces an
//! empty match.  Errors arise only when the engine cannot construct a handle
//! for a path, when a value's textual payload cannot be decoded, or when an
//! option code falls outside the known set.

use vstd::prelude::*;

verus! {

/// The engine returned no handle for a path: the backing file is missing,
/// unreadable or malformed.  The diagnostic message is fixed.
#[derive(Debug, PartialEq, Eq, Structural)]
pub struct OpenError {}

impl OpenError {
    /// The fixed diagnostic text carried by every open failure.
    pub open spec fn spec_message() -> Seq<char> {
        "could not load file"@
    }

    pub fn message(&self) -> (r: String)
        ensures
            r@ == OpenError::spec_message(),
    {
        String::from_str("could not load file")
    }
}

/// A value's textual payload could not be decoded into the expected
/// structured form.  Recoverable: reported to the caller, never a crash.
#[derive(Debug, PartialEq, Eq, Structural)]
pub struct ValueParseError {}

impl ValueParseError {
    pub open spec fn spec_message() -> Seq<char> {
        "could not parse value"@
    }

    pub fn message(&self) -> (r: String)
        ensures
            r@ == ValueParseError::spec_message(),
    {
        String::from_str("could not parse value")
    }
}

/// An option code that is not in the known set was supplied or returned.
/// The offending code is kept for diagnosis.
#[derive(Debug, PartialEq, Eq, Structural)]
pub struct ConfigurationError {
    pub code: u64,
}

impl ConfigurationError {
    pub fn new(code: u64) -> (r: ConfigurationError)
        ensures
            r.code == code,
    {
        ConfigurationError { code }
    }
}

} // verus!
