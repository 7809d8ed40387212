//! Self-contained certificate structures over a flat federation identity:
//! a signing request, the to-be-signed form an authority derives from it,
//! and the signed certificate. The to-be-signed form serializes itself into
//! an unambiguous length-prefixed byte string for signing.
use vstd::prelude::*;

verus! {

use crate::errors::SigningError;
use crate::keys::{PublicKey, SignatureType, SigningKey};
use crate::signature::{HasSignatureType, Signer};

/// A unique identifier for actors in the federation model: an actor name,
/// the home-server domain, and the top-level domain.
#[derive(Debug, Clone, PartialEq, Eq, Hash)]
pub struct FederationId {
    /// The actor's name.
    pub actor_name: String,
    /// The home-server domain.
    pub domain: String,
    /// The top-level domain.
    pub tld: String,
}

/// A signature value: the algorithm that produced it and its textual form.
#[derive(Debug, Clone, PartialEq, Eq, Hash)]
pub struct Signature<T: Copy> {
    /// The algorithm that produced the signature.
    pub signature_type: T,
    /// The signature itself.
    pub signature: String,
}

/// A certificate signing request for an identity certificate. `expiry`
/// optionally proposes an expiry UNIX timestamp for the requested
/// certificate; the authority may ignore it.
#[derive(Debug, Clone, PartialEq, Eq, Hash)]
pub struct IdCsr {
    /// The subject's public key.
    pub pub_key: PublicKey,
    /// The subject's federation identity.
    pub federation_id: FederationId,
    /// The subject's session identifier.
    pub session_id: String,
    /// The proposed expiry UNIX timestamp, if any.
    pub expiry: Option<u64>,
}

/// An unsigned to-be-signed certificate: the request's content plus the
/// authority-assigned expiry timestamp and serial number. A signing
/// authority signs this to produce an [`IdCert`].
#[derive(Debug, Clone, PartialEq, Eq, Hash)]
pub struct IdCertTBS {
    /// The subject's public key.
    pub pub_key: PublicKey,
    /// The subject's federation identity.
    pub federation_id: FederationId,
    /// The subject's session identifier.
    pub session_id: String,
    /// The expiry UNIX timestamp assigned by the authority.
    pub expiry: u64,
    /// The serial number assigned by the authority.
    pub serial: String,
}

/// A signed identity certificate. The issuing authority is named by the
/// `domain` and `tld` fields of the federation identity.
#[derive(Debug, Clone, PartialEq, Eq, Hash)]
pub struct IdCert {
    /// The subject's public key.
    pub pub_key: PublicKey,
    /// The subject's federation identity.
    pub federation_id: FederationId,
    /// The subject's session identifier.
    pub session_id: String,
    /// The expiry UNIX timestamp.
    pub expiry: u64,
    /// The serial number.
    pub serial: String,
    /// The authority's signature over the to-be-signed bytes.
    pub signature: Signature<SignatureType>,
}

impl HasSignatureType for SigningKey {
    open spec fn spec_signature_type(&self) -> SignatureType {
        self.signature_type
    }

    fn signature_type(&self) -> (r: SignatureType) {
        self.signature_type
    }
}

impl Signer<Signature<SignatureType>> for SigningKey {
    /// Produces a placeholder signature value naming this key's algorithm.
    fn sign(&self, data: &[u8]) -> Signature<SignatureType> {
        Signature { signature_type: self.signature_type, signature: "signed".to_owned() }
    }
}

impl IdCsr {
    /// Derives a to-be-signed certificate from this request by adding the
    /// authority-assigned expiry timestamp and serial number.
    pub fn to_id_cert_tbs(&self, expiry: u64, serial: &str) -> (r: IdCertTBS)
        ensures
            r.pub_key.key_bytes@ == self.pub_key.key_bytes@,
            r.pub_key.signature_type == self.pub_key.signature_type,
            r.federation_id == self.federation_id,
            r.session_id == self.session_id,
            r.expiry == expiry,
            r.serial@ == serial@,
    {
        IdCertTBS {
            pub_key: PublicKey {
                key_bytes: clone_bytes(&self.pub_key.key_bytes),
                signature_type: self.pub_key.signature_type,
            },
            federation_id: FederationId {
                actor_name: self.federation_id.actor_name.clone(),
                domain: self.federation_id.domain.clone(),
                tld: self.federation_id.tld.clone(),
            },
            session_id: self.session_id.clone(),
            expiry,
            serial: serial.to_owned(),
        }
    }
}

impl From<IdCertTBS> for IdCsr {
    /// Reads a request back out of a to-be-signed certificate, keeping the
    /// assigned expiry as the proposed one.
    fn from(value: IdCertTBS) -> (r: IdCsr) {
        IdCsr {
            pub_key: value.pub_key,
            federation_id: value.federation_id,
            session_id: value.session_id,
            expiry: Some(value.expiry),
        }
    }
}

impl vstd::std_specs::convert::FromSpecImpl<IdCertTBS> for IdCsr {
    open spec fn obeys_from_spec() -> bool {
        true
    }

    open spec fn from_spec(value: IdCertTBS) -> IdCsr {
        IdCsr {
            pub_key: value.pub_key,
            federation_id: value.federation_id,
            session_id: value.session_id,
            expiry: Some(value.expiry),
        }
    }
}

/// Copies a byte vector.
fn clone_bytes(v: &Vec<u8>) -> (r: Vec<u8>)
    ensures
        r@ == v@,
{
    let mut out: Vec<u8> = Vec::new();
    for i in 0..v.len()
        invariant
            out@ =~= v@.take(i as int),
    {
        out.push(v[i]);
        proof {
            assert(out@ =~= v@.take(i + 1));
        }
    }
    proof {
        assert(out@ =~= v@);
    }
    out
}

/// The big-endian bytes of a 64-bit number, most significant first.
pub open spec fn u64_be_bytes(n: u64) -> Seq<u8> {
    seq![
        (n / 0x100000000000000) as u8,
        ((n / 0x1000000000000) % 256) as u8,
        ((n / 0x10000000000) % 256) as u8,
        ((n / 0x100000000) % 256) as u8,
        ((n / 0x1000000) % 256) as u8,
        ((n / 0x10000) % 256) as u8,
        ((n / 0x100) % 256) as u8,
        (n % 256) as u8,
    ]
}

/// A length-prefixed block: the big-endian byte length of the string's
/// UTF-8 form, then that form itself.
pub open spec fn len_prefixed(s: Seq<char>) -> Seq<u8> {
    u64_be_bytes(vstd::utf8::encode_utf8(s).len() as u64) + vstd::utf8::encode_utf8(s)
}

/// The unambiguous byte string an authority signs for a to-be-signed
/// certificate: the raw public key bytes, each identity field and the serial
/// length-prefixed, and the expiry in big-endian form.
pub open spec fn id_cert_tbs_bytes(t: IdCertTBS) -> Seq<u8> {
    t.pub_key.key_bytes@ + len_prefixed(t.federation_id.actor_name@) + len_prefixed(
        t.federation_id.domain@,
    ) + len_prefixed(t.federation_id.tld@) + len_prefixed(t.session_id@) + u64_be_bytes(t.expiry)
        + len_prefixed(t.serial@)
}

/// Appends the big-endian bytes of `n`.
fn push_u64_be(out: &mut Vec<u8>, n: u64)
    ensures
        final(out)@ == old(out)@ + u64_be_bytes(n),
{
    out.push((n / 0x100000000000000) as u8);
    out.push(((n / 0x1000000000000) % 256) as u8);
    out.push(((n / 0x10000000000) % 256) as u8);
    out.push(((n / 0x100000000) % 256) as u8);
    out.push(((n / 0x1000000) % 256) as u8);
    out.push(((n / 0x10000) % 256) as u8);
    out.push(((n / 0x100) % 256) as u8);
    out.push((n % 256) as u8);
    proof {
        assert(out@ =~= old(out)@ + u64_be_bytes(n));
    }
}

/// Appends the given bytes.
fn push_bytes(out: &mut Vec<u8>, b: &[u8])
    ensures
        final(out)@ == old(out)@ + b@,
{
    for i in 0..b.len()
        invariant
            out@ =~= old(out)@ + b@.take(i as int),
    {
        out.push(b[i]);
        proof {
            assert(out@ =~= old(out)@ + b@.take(i + 1));
        }
    }
    proof {
        assert(out@ =~= old(out)@ + b@);
    }
}

/// Appends a string's bytes behind their big-endian length.
fn push_len_prefixed(out: &mut Vec<u8>, s: &String)
    ensures
        final(out)@ == old(out)@ + len_prefixed(s@),
{
    let st = s.as_str();
    let b = st.as_bytes();
    push_u64_be(out, b.len() as u64);
    push_bytes(out, b);
    proof {
        assert(out@ =~= old(out)@ + len_prefixed(s@));
    }
}

impl IdCertTBS {
    /// The byte string an authority signs for this certificate.
    fn to_bytes(&self) -> (r: Vec<u8>)
        ensures
            r@ == id_cert_tbs_bytes(*self),
    {
        let mut bytes: Vec<u8> = Vec::new();
        push_bytes(&mut bytes, self.pub_key.as_bytes());
        push_len_prefixed(&mut bytes, &self.federation_id.actor_name);
        push_len_prefixed(&mut bytes, &self.federation_id.domain);
        push_len_prefixed(&mut bytes, &self.federation_id.tld);
        push_len_prefixed(&mut bytes, &self.session_id);
        push_u64_be(&mut bytes, self.expiry);
        push_len_prefixed(&mut bytes, &self.serial);
        proof {
            assert(bytes@ =~= id_cert_tbs_bytes(*self));
        }
        bytes
    }

    /// Signs this to-be-signed certificate with the authority's private
    /// key, producing the final certificate. Fails with a signature-type
    /// mismatch when the signing key's algorithm differs from the embedded
    /// public key's algorithm; in that case no signature is produced.
    pub fn try_sign<P: Signer<Signature<SignatureType>> + HasSignatureType>(
        self,
        private_key: P,
    ) -> (r: Result<IdCert, SigningError>)
        ensures
            private_key.spec_signature_type() != self.pub_key.signature_type ==> r == Err::<
                IdCert,
                SigningError,
            >(
                SigningError::SignatureTypeMismatch(
                    private_key.spec_signature_type(),
                    self.pub_key.signature_type,
                ),
            ),
            private_key.spec_signature_type() == self.pub_key.signature_type ==> (r matches Ok(c)
                && c.pub_key == self.pub_key && c.federation_id == self.federation_id
                && c.session_id == self.session_id && c.expiry == self.expiry && c.serial
                == self.serial),
    {
        if !(private_key.signature_type() == self.pub_key.signature_type()) {
            return Err(
                SigningError::SignatureTypeMismatch(
                    private_key.signature_type(),
                    self.pub_key.signature_type(),
                ),
            );
        }
        let tbs_bytes = self.to_bytes();
        let signature = private_key.sign(tbs_bytes.as_slice());
        Ok(
            IdCert {
                pub_key: self.pub_key,
                federation_id: self.federation_id,
                session_id: self.session_id,
                expiry: self.expiry,
                serial: self.serial,
                signature,
            },
        )
    }
}

} // verus!
