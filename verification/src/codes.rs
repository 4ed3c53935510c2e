//! The optional error-code overlay distinguishing specific error instances
//! within a classification.

use vstd::prelude::*;

use crate::text::str_eq;

verus! {

/// An open-ended, optional error code: either an application-defined
/// identifier or explicitly "no code".
#[derive(Clone, Debug)]
pub enum ErrorCodes {
    /// An application-defined identifier.
    Code(String),
    /// Explicitly no code; rendered with the reserved literal `none`.
    Unmapped,
}

/// The code carried by a value: the identifier's characters, or `None` for
/// `Unmapped`.
pub open spec fn code_view(c: ErrorCodes) -> Option<Seq<char>> {
    match c {
        ErrorCodes::Code(s) => Some(s@),
        ErrorCodes::Unmapped => None,
    }
}

/// How a caller-supplied code string is stored: the reserved literal `none`
/// always denotes the absence of a code and is never stored verbatim.
pub open spec fn normalize_code(s: Seq<char>) -> Option<Seq<char>> {
    if s == "none"@ {
        None
    } else {
        Some(s)
    }
}

impl ErrorCodes {
    /// The default code: no code at all.
    pub fn default() -> (r: ErrorCodes)
        ensures
            code_view(r) is None,
    {
        ErrorCodes::Unmapped
    }
}

impl PartialEq for ErrorCodes {
    /// Structural equality: identifiers are equal exactly when their
    /// characters are, and the two variants are never equal to each other.
    fn eq(&self, other: &Self) -> bool {
        match (self, other) {
            (ErrorCodes::Code(a), ErrorCodes::Code(b)) => str_eq(a.as_str(), b.as_str()),
            (ErrorCodes::Unmapped, ErrorCodes::Unmapped) => true,
            _ => false,
        }
    }
}

impl vstd::std_specs::cmp::PartialEqSpecImpl for ErrorCodes {
    open spec fn obeys_eq_spec() -> bool {
        true
    }

    open spec fn eq_spec(&self, other: &Self) -> bool {
        code_view(*self) == code_view(*other)
    }
}

} // verus!
