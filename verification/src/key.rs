//! Capability contracts for pluggable key pairs over a chosen signature
//! type. The crate performs no cryptography itself: any implementation that
//! honors these contracts can be plugged in.
use vstd::prelude::*;

verus! {

use crate::errors::{ConstraintError, ConversionError};
use crate::signature::Signature;
use crate::types::{AlgorithmIdentifierOwned, PublicKeyInfo, PublicKeyInfoValue};

/// A private key for the signature type `S`, exclusively owned by its
/// holder. Signing may consume entropy, so nothing is promised about the
/// produced signature value.
pub trait PrivateKey<S: Signature>: Sized {
    /// The public key type corresponding to this private key.
    type PublicKey: PublicKey<S>;

    /// The abstract (algorithm, raw key bits) pair of the corresponding
    /// public key.
    spec fn spec_pubkey_info(&self) -> PublicKeyInfoValue;

    /// The public key corresponding to this private key.
    fn pubkey(&self) -> (r: &Self::PublicKey)
        ensures
            r.spec_info() == self.spec_pubkey_info(),
    ;

    /// Signs the given bytes.
    fn sign(&self, data: &[u8]) -> S;

    /// The algorithm identifier of `S`, as this key reports it.
    fn algorithm_identifier(&self) -> (r: AlgorithmIdentifierOwned)
        ensures
            r@ == S::spec_algorithm_identifier(),
    ;
}

/// A public key for the signature type `S`.
///
/// `spec_info` is the key's abstract content: the (algorithm, raw key bits)
/// pair it embeds into wire structures. An implementation must report and
/// rebuild that pair exactly, so that keys survive the trip through the wire
/// form; `from_public_key_info` must reject malformed or mismatched-algorithm
/// input rather than coerce it.
pub trait PublicKey<S: Signature>: Sized {
    /// The abstract (algorithm, raw key bits) pair of this key.
    spec fn spec_info(&self) -> PublicKeyInfoValue;

    /// The (algorithm, raw key bits) pairs this implementation accepts:
    /// exactly the ones `from_public_key_info` rebuilds a key from. Every
    /// live key's own pair is accepted, so keys survive the trip through
    /// the wire form.
    spec fn spec_info_ok(info: PublicKeyInfoValue) -> bool;

    /// Verifies a signature over the given bytes, failing with a
    /// verification error when it does not match. Implementations must
    /// reject non-canonical signature encodings rather than accept them.
    fn verify_signature(&self, signature: &S, data: &[u8]) -> Result<(), ConstraintError>;

    /// The generic (algorithm identifier, raw key bits) pair used for wire
    /// embedding.
    fn public_key_info(&self) -> (r: PublicKeyInfo)
        ensures
            r@ == self.spec_info(),
            Self::spec_info_ok(self.spec_info()),
    ;

    /// Rebuilds a typed public key from the generic pair; fails exactly on
    /// malformed or mismatched-algorithm input.
    fn from_public_key_info(public_key_info: PublicKeyInfo) -> (r: Result<Self, ConversionError>)
        ensures
            r is Ok <==> Self::spec_info_ok(public_key_info@),
            r matches Ok(k) ==> k.spec_info() == public_key_info@,
    ;

    /// The algorithm identifier of `S`, as this key reports it.
    fn algorithm_identifier(&self) -> (r: AlgorithmIdentifierOwned)
        ensures
            r@ == S::spec_algorithm_identifier(),
    ;
}

} // verus!
