//! Validated decoding for structured data.
//!
//! A type whose instances come from untrusted serialized input should never
//! reach its callers without having passed its own validity check.  This
//! library derives, from a description of a type's shape, the pieces that make
//! "parsed" and "validated" inseparable: an isomorphic staging declaration
//! that the decode capability can fill in, a pure conversion from staging
//! values to real values, and the wiring that runs decode, convert and
//! validate as one operation with a single error channel.

use vstd::prelude::*;

pub mod convert;
pub mod decl;
pub mod decode;
pub mod error;
pub mod extract;
pub mod laws;
pub mod lookup;
pub mod staging;
pub mod value;
pub mod wire;

verus! {

/// The contract a type must meet before a decoded instance of it may reach
/// callers.  Implementors supply their own validity rule and error type.
pub trait Validate: Sized {
    /// The error type returned by a failed validity check.
    type Error;

    /// The validity rule itself, as a mathematical predicate.
    spec fn valid(&self) -> bool;

    /// Checks the instance, returning `Ok(())` exactly when it is valid.
    fn validate(&self) -> (r: Result<(), Self::Error>)
        ensures
            r is Ok <==> self.valid(),
    ;

    /// Consumes the instance, returning it unchanged exactly when it is
    /// valid, and the validity error otherwise.
    fn validated(self) -> (r: Result<Self, Self::Error>)
        ensures
            r is Ok <==> self.valid(),
            r matches Ok(v) ==> v == self,
    {
        match self.validate() {
            Ok(_) => Ok(self),
            Err(e) => Err(e),
        }
    }
}

} // verus!
