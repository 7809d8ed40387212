//! Data model for polyproto identity certificates (ID-Cert) and their
//! certificate signing requests (ID-Csr), a constrained profile of
//! X.509 v3 / PKCS #10 that is generic over the signature algorithm.
//!
//! The crate models names, capabilities and certificate lifecycle state as
//! plain values, enforces the protocol's structural constraints on them, and
//! converts entities to and from the standard wire encodings through a thin
//! ASN.1 DER boundary.
use vstd::prelude::*;

pub mod capabilities;
pub mod certificates;
pub mod errors;
pub mod idcert;
pub mod idcsr;
pub mod key;
pub mod keys;
pub mod name;
pub mod raw;
pub mod signature;
pub mod types;
pub mod wire;

verus! {

use crate::errors::ConstraintError;

/// Structural well-formedness checking, implemented by every entity of the
/// data model. Validation is pure: it never mutates the entity, and its
/// result is a function of the entity's value alone, so validating twice
/// returns the same result.
pub trait Constrained {
    /// The validation verdict as a mathematical function of the value.
    spec fn spec_validate(&self) -> Result<(), ConstraintError>;

    /// Checks the protocol's structural rules for this entity.
    fn validate(&self) -> (r: Result<(), ConstraintError>)
        ensures
            r == self.spec_validate(),
    ;
}

} // verus!
