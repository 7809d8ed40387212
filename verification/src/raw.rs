//! A minimal conforming implementation of the signature and key traits that
//! carries bytes unchanged and performs no cryptography. It exists so the
//! generic certificate machinery can be exercised end to end; a real
//! deployment plugs in an implementation backed by actual cryptography.
use vstd::prelude::*;

verus! {

use crate::errors::{ConstraintError, ConversionError};
use crate::key::{PrivateKey, PublicKey};
use crate::signature::Signature;
use crate::types::{
    AlgorithmIdentifierOwned, AlgorithmIdentifierValue, PublicKeyInfo, PublicKeyInfoValue,
};

/// Copies a byte vector.
fn copy_bytes(v: &Vec<u8>) -> (r: Vec<u8>)
    ensures
        r@ == v@,
{
    let mut out: Vec<u8> = Vec::new();
    for i in 0..v.len()
        invariant
            out@ =~= v@.take(i as int),
    {
        out.push(v[i]);
        proof {
            assert(out@ =~= v@.take(i + 1));
        }
    }
    proof {
        assert(out@ =~= v@);
    }
    out
}

/// The object identifier the raw scheme reports.
pub open spec fn raw_algorithm_oid() -> Seq<char> {
    "1.3.101.112"@
}

/// A signature value of the raw scheme: exactly its bytes.
#[derive(Debug, Clone, PartialEq, Eq)]
pub struct RawSignature {
    /// The signature bytes.
    pub bytes: Vec<u8>,
}

impl Signature for RawSignature {
    open spec fn spec_algorithm_identifier() -> AlgorithmIdentifierValue {
        AlgorithmIdentifierValue { oid: raw_algorithm_oid(), parameters: None }
    }

    open spec fn spec_bytes(&self) -> Seq<u8> {
        self.bytes@
    }

    open spec fn spec_bytes_ok(bytes: Seq<u8>) -> bool {
        true
    }

    fn algorithm_identifier() -> (r: AlgorithmIdentifierOwned) {
        AlgorithmIdentifierOwned { oid: "1.3.101.112".to_owned(), parameters: None }
    }

    fn from_bytes(bytes: &[u8]) -> (r: Result<Self, ConstraintError>) {
        let mut out: Vec<u8> = Vec::new();
        let mut i: usize = 0;
        while i < bytes.len()
            invariant
                i <= bytes@.len(),
                out@ =~= bytes@.take(i as int),
            decreases bytes@.len() - i,
        {
            out.push(bytes[i]);
            i = i + 1;
            proof {
                assert(out@ =~= bytes@.take(i as int));
            }
        }
        proof {
            assert(out@ =~= bytes@);
        }
        Ok(RawSignature { bytes: out })
    }

    fn to_bytes(&self) -> (r: Result<Vec<u8>, ConstraintError>) {
        Ok(copy_bytes(&self.bytes))
    }
}

/// A public key of the raw scheme: the (algorithm, raw key bits) pair it
/// reports, held as plain values. Verification accepts a signature exactly
/// when it equals the signed data prefixed by the key bits, mirroring what
/// [`RawPrivateKey::sign`] produces.
#[derive(Debug, Clone, PartialEq, Eq)]
pub struct RawPublicKey {
    /// The raw key bits.
    pub key_bits: Vec<u8>,
}

impl PublicKey<RawSignature> for RawPublicKey {
    open spec fn spec_info(&self) -> PublicKeyInfoValue {
        PublicKeyInfoValue {
            algorithm: RawSignature::spec_algorithm_identifier(),
            public_key_bitstring: self.key_bits@,
        }
    }

    open spec fn spec_info_ok(info: PublicKeyInfoValue) -> bool {
        info.algorithm == RawSignature::spec_algorithm_identifier()
    }

    fn verify_signature(&self, signature: &RawSignature, data: &[u8]) -> Result<
        (),
        ConstraintError,
    > {
        let mut expected = copy_bytes(&self.key_bits);
        let mut i: usize = 0;
        while i < data.len()
            invariant
                i <= data@.len(),
            decreases data@.len() - i,
        {
            expected.push(data[i]);
            i = i + 1;
        }
        if crate::capabilities::bytes_eq(expected.as_slice(), signature.bytes.as_slice()) {
            Ok(())
        } else {
            Err(ConstraintError::InvalidSignatureValue)
        }
    }

    fn public_key_info(&self) -> (r: PublicKeyInfo) {
        PublicKeyInfo {
            algorithm: AlgorithmIdentifierOwned { oid: "1.3.101.112".to_owned(), parameters: None },
            public_key_bitstring: copy_bytes(&self.key_bits),
        }
    }

    fn from_public_key_info(public_key_info: PublicKeyInfo) -> (r: Result<Self, ConversionError>) {
        let expected: String = "1.3.101.112".to_owned();
        if !(public_key_info.algorithm.oid == expected) {
            return Err(ConversionError::InvalidPublicKey);
        }
        if public_key_info.algorithm.parameters.is_some() {
            return Err(ConversionError::InvalidPublicKey);
        }
        proof {
            assert(public_key_info@.algorithm =~= RawSignature::spec_algorithm_identifier());
        }
        Ok(RawPublicKey { key_bits: public_key_info.public_key_bitstring })
    }

    fn algorithm_identifier(&self) -> (r: AlgorithmIdentifierOwned) {
        AlgorithmIdentifierOwned { oid: "1.3.101.112".to_owned(), parameters: None }
    }
}

/// A private key of the raw scheme. Signing concatenates the public key
/// bits and the data: enough to exercise the machinery, and trivially
/// checkable, but no secret is involved.
#[derive(Debug, Clone, PartialEq, Eq)]
pub struct RawPrivateKey {
    /// The corresponding public key.
    pub public_key: RawPublicKey,
}

impl PrivateKey<RawSignature> for RawPrivateKey {
    type PublicKey = RawPublicKey;

    open spec fn spec_pubkey_info(&self) -> PublicKeyInfoValue {
        self.public_key.spec_info()
    }

    fn pubkey(&self) -> (r: &RawPublicKey) {
        &self.public_key
    }

    fn sign(&self, data: &[u8]) -> RawSignature {
        let mut bytes = copy_bytes(&self.public_key.key_bits);
        let mut i: usize = 0;
        while i < data.len()
            invariant
                i <= data@.len(),
            decreases data@.len() - i,
        {
            bytes.push(data[i]);
            i = i + 1;
        }
        RawSignature { bytes }
    }

    fn algorithm_identifier(&self) -> (r: AlgorithmIdentifierOwned) {
        AlgorithmIdentifierOwned { oid: "1.3.101.112".to_owned(), parameters: None }
    }
}

} // verus!
