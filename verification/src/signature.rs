//! Capability contracts for pluggable signature values. A concrete signature
//! scheme supplies a value type that can be rebuilt from raw bytes, rendered
//! back into raw bytes for the wire form's bit string, and names the
//! algorithm that produced it. Signing and verifying belong to the key
//! traits; a signature value only represents.
use vstd::prelude::*;

verus! {

use crate::errors::ConstraintError;
use crate::keys::SignatureType;
use crate::types::{AlgorithmIdentifierOwned, AlgorithmIdentifierValue};

/// A signature value of one concrete algorithm.
///
/// `spec_bytes` is the value's abstract content: the raw bytes it writes
/// into the wire form. An implementation must make `from_bytes` and
/// `to_bytes` exact with respect to it, so that conversion through the wire
/// form is lossless.
pub trait Signature: Sized {
    /// The algorithm identifier every value of this type reports.
    spec fn spec_algorithm_identifier() -> AlgorithmIdentifierValue;

    /// The raw bytes this value encodes to.
    spec fn spec_bytes(&self) -> Seq<u8>;

    /// The byte strings the algorithm accepts as a signature layout:
    /// exactly the ones `from_bytes` rebuilds a value from.
    spec fn spec_bytes_ok(bytes: Seq<u8>) -> bool;

    /// Names the algorithm this signature type belongs to.
    fn algorithm_identifier() -> (r: AlgorithmIdentifierOwned)
        ensures
            r@ == Self::spec_algorithm_identifier(),
    ;

    /// Rebuilds a signature value from its raw bytes; fails exactly when
    /// the byte layout is invalid for the algorithm.
    fn from_bytes(bytes: &[u8]) -> (r: Result<Self, ConstraintError>)
        ensures
            r is Ok <==> Self::spec_bytes_ok(bytes@),
            r matches Ok(s) ==> s.spec_bytes() == bytes@,
    ;

    /// Renders the signature as the raw bytes of the wire form's bit
    /// string; fails when the value cannot be serialized. What it writes,
    /// `from_bytes` accepts back.
    fn to_bytes(&self) -> (r: Result<Vec<u8>, ConstraintError>)
        ensures
            r matches Ok(b) ==> b@ == self.spec_bytes() && Self::spec_bytes_ok(b@),
    ;
}

/// A signer over byte sequences, producing signature values of type `S`.
/// What the signature's bytes are is up to the implementation (it may draw
/// randomness), so nothing is promised of the result.
pub trait Signer<S> {
    /// Signs the given bytes.
    fn sign(&self, data: &[u8]) -> S;
}

/// Reports which concrete signature algorithm a key or signature uses.
pub trait HasSignatureType {
    /// The reported algorithm as an abstract value.
    spec fn spec_signature_type(&self) -> SignatureType;

    /// The signature algorithm this value belongs to.
    fn signature_type(&self) -> (r: SignatureType)
        ensures
            r == self.spec_signature_type(),
    ;
}

} // verus!
