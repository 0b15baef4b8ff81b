//! The error channel of the wired operation.
//!
//! A caller of the wired operation sees one error type.  A parse failure and
//! a validity failure travel through the same channel on purpose: both mean
//! "this input does not yield a usable value", and a caller can only tell
//! them apart by the description.

use vstd::prelude::*;

verus! {

/// The error a wired decode operation returns.
#[derive(Debug, PartialEq, Eq)]
pub enum DecodeError {
    /// The decode capability could not produce a staging value.
    Parse(String),
    /// A staging value was produced and converted, but the validity check
    /// rejected the result; the description is the validity error's.
    Invalid(String),
}

impl DecodeError {
    /// The human-readable description carried by the error.
    pub fn description(&self) -> (r: &String)
        ensures
            self is Parse ==> r@ == self->Parse_0@,
            self is Invalid ==> r@ == self->Invalid_0@,
    {
        match self {
            DecodeError::Parse(d) => d,
            DecodeError::Invalid(d) => d,
        }
    }
}

/// The generation-time error: the declaration is of no supported structural
/// kind, and generation must stop with a diagnostic naming it.
#[derive(Debug, PartialEq, Eq)]
pub enum ShapeError {
    UnsupportedShape { decl: String },
}

} // verus!
