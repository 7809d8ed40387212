//! Concrete public-key carrier used by the self-contained certificate
//! structures: raw key bytes tagged with the signature algorithm they belong
//! to.
use vstd::prelude::*;

verus! {

/// The signature algorithms this profile knows by name.
#[derive(Debug, Clone, Copy, PartialEq, Eq, Hash, Structural)]
pub enum SignatureType {
    /// Edwards-curve signatures over edwards25519.
    Ed25519,
    /// ECDSA over the NIST P-256 curve with SHA-256.
    EcdsaSecp256r1Sha256,
    /// RSASSA-PKCS1-v1_5 with SHA-256.
    RsaPkcs1Sha256,
}

/// A public key: its raw bytes and the algorithm they belong to.
#[derive(Debug, Clone, PartialEq, Eq, Hash)]
pub struct PublicKey {
    /// The raw key bytes.
    pub key_bytes: Vec<u8>,
    /// The signature algorithm of the key.
    pub signature_type: SignatureType,
}

impl PublicKey {
    /// Builds a public key from raw bytes and an algorithm.
    pub fn new(key_bytes: Vec<u8>, signature_type: SignatureType) -> (r: PublicKey)
        ensures
            r.key_bytes@ == key_bytes@,
            r.signature_type == signature_type,
    {
        PublicKey { key_bytes, signature_type }
    }

    /// The raw key bytes.
    pub fn as_bytes(&self) -> (r: &[u8])
        ensures
            r@ == self.key_bytes@,
    {
        self.key_bytes.as_slice()
    }

    /// The signature algorithm of the key.
    pub fn signature_type(&self) -> (r: SignatureType)
        ensures
            r == self.signature_type,
    {
        self.signature_type
    }
}

/// A signing key for the self-contained certificate structures: raw key
/// bytes tagged with their algorithm. It performs no cryptography; the
/// signature it produces is a placeholder a real implementation replaces.
#[derive(Debug, Clone, PartialEq, Eq, Hash)]
pub struct SigningKey {
    /// The raw key bytes.
    pub key_bytes: Vec<u8>,
    /// The signature algorithm of the key.
    pub signature_type: SignatureType,
}

} // verus!
