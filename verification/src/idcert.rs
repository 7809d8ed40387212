//! To-be-signed certificates and signed identity certificates (ID-Cert):
//! derivation from a validated request plus authority-supplied fields,
//! domain-scoped issuance, signing, and lossless conversion to and from the
//! X.509 v3 wire encoding.
use vstd::prelude::*;

verus! {

use crate::Constrained;
use crate::capabilities::{
    Capabilities, capabilities_from_extensions_spec, capabilities_spec_validate,
    capabilities_to_extensions_spec, lemma_capabilities_round_trip,
};
use crate::errors::{ConstraintError, ConversionError};
use crate::idcsr::{
    IdCsr, id_csr_validate_actor_spec, id_csr_validate_home_server_spec,
    lemma_name_wire_round_trip, name_to_wire, wire_to_name, wire_to_name_spec,
};
use crate::key::{PrivateKey, PublicKey};
use crate::name::{
    Name, NameComponentValue, domain_components_of, equal_domain_components, name_spec_validate,
};
use crate::signature::Signature;
use crate::types::{
    AlgorithmIdentifierValue, PublicKeyInfo, PublicKeyInfoValue, canonical_oid, is_canonical_oid,
};
use crate::wire::{
    TbsParts, alg_id_der, alg_id_from_der, alg_id_parsed, alg_id_to_der, canonical_der,
    certificate_der, certificate_from_der, certificate_parsed, certificate_to_der, extensions_der,
    extensions_from_der, extensions_parsed, extensions_to_der, int_pad, rdn_sequence_der,
    rdn_sequence_from_der, rdn_sequence_parsed, rdn_sequence_to_der, spki_der_of, spki_from_der,
    spki_parsed, spki_to_der, tbs_certificate_der, tbs_certificate_from_der,
    tbs_certificate_parsed, tbs_certificate_to_der, validity_der_of, validity_from_der,
    validity_parsed, validity_to_der,
};
use crate::idcsr::name_to_wire_spec;

/// A certificate's validity window, as UNIX timestamps.
#[derive(Debug, Clone, Copy, PartialEq, Eq, Structural)]
pub struct Validity {
    /// The instant the certificate becomes valid.
    pub not_before: u64,
    /// The instant the certificate expires.
    pub not_after: u64,
}

/// True of a serial number the profile accepts: a nonempty, minimal
/// (no leading zero octet) big-endian magnitude whose INTEGER content form
/// fits in twenty octets.
pub open spec fn serial_wf(s: Seq<u8>) -> bool {
    &&& s.len() >= 1
    &&& s[0] != 0
    &&& s.len() + (if s[0] >= 0x80 {
        1int
    } else {
        0int
    }) <= 20
}

/// The magnitude bytes of an INTEGER's content octets: one leading zero
/// octet, present only to keep the value non-negative, is dropped.
pub open spec fn int_unpad(s: Seq<u8>) -> Seq<u8> {
    if s.len() > 0 && s[0] == 0 {
        s.drop_first()
    } else {
        s
    }
}

/// Checks a serial number against the profile's rules.
pub fn check_serial(s: &Vec<u8>) -> (r: bool)
    ensures
        r == serial_wf(s@),
{
    s.len() >= 1 && s[0] != 0 && (s.len() < 20 || (s.len() == 20 && s[0] < 0x80))
}

/// An unsigned to-be-signed certificate: the subject's key, name and
/// capabilities copied from a validated request, plus the authority's
/// serial number, its own name and the validity window. Its invariant ties
/// the issuer to the subject's domain.
#[derive(Debug, PartialEq, Eq)]
pub struct IdCertTbs<S: Signature, P: PublicKey<S>> {
    /// The authority-assigned serial number (big-endian magnitude).
    pub serial_number: Vec<u8>,
    /// The algorithm the certificate will be signed with.
    pub signature_algorithm: crate::types::AlgorithmIdentifierOwned,
    /// The issuing authority's name.
    pub issuer: Name,
    /// The validity window.
    pub validity: Validity,
    /// The subject's name.
    pub subject: Name,
    /// The subject's public key.
    pub subject_public_key: P,
    /// The capabilities the certificate grants.
    pub capabilities: Capabilities,
    /// Binds the structure to its signature algorithm without storing a
    /// value.
    pub phantom_data: core::marker::PhantomData<S>,
}

/// The abstract value of an [`IdCertTbs`].
#[verifier::ext_equal]
pub struct IdCertTbsValue {
    /// The serial number's magnitude bytes.
    pub serial_number: Seq<u8>,
    /// The signature algorithm.
    pub signature_algorithm: AlgorithmIdentifierValue,
    /// The issuer name's components.
    pub issuer: Seq<NameComponentValue>,
    /// The validity window.
    pub validity: Validity,
    /// The subject name's components.
    pub subject: Seq<NameComponentValue>,
    /// The subject key's (algorithm, raw key bits) pair.
    pub subject_public_key: PublicKeyInfoValue,
    /// The granted capabilities.
    pub capabilities: Capabilities,
}

impl<S: Signature, P: PublicKey<S>> View for IdCertTbs<S, P> {
    type V = IdCertTbsValue;

    open spec fn view(&self) -> IdCertTbsValue {
        IdCertTbsValue {
            serial_number: self.serial_number@,
            signature_algorithm: self.signature_algorithm@,
            issuer: self.issuer@,
            validity: self.validity,
            subject: self.subject@,
            subject_public_key: self.subject_public_key.spec_info(),
            capabilities: self.capabilities,
        }
    }
}

/// The validation verdict for a to-be-signed certificate: both names valid,
/// the issuer's domain components equal to the subject's (authority is
/// domain-scoped), valid capabilities, a well-formed serial, an ordered
/// validity window, and canonical algorithm identifiers.
pub open spec fn id_cert_tbs_spec_validate(v: IdCertTbsValue) -> Result<(), ConstraintError> {
    match name_spec_validate(v.issuer) {
        Err(e) => Err(e),
        Ok(_) => match name_spec_validate(v.subject) {
            Err(e) => Err(e),
            Ok(_) => if domain_components_of(v.issuer) != domain_components_of(v.subject) {
                Err(ConstraintError::DomainMismatch)
            } else {
                match capabilities_spec_validate(v.capabilities) {
                    Err(e) => Err(e),
                    Ok(_) => if !serial_wf(v.serial_number) {
                        Err(ConstraintError::InvalidSerial)
                    } else if v.validity.not_before > v.validity.not_after {
                        Err(ConstraintError::InvalidValidity)
                    } else if !canonical_oid(v.signature_algorithm.oid) || !canonical_oid(
                        v.subject_public_key.algorithm.oid,
                    ) {
                        Err(ConstraintError::InvalidAlgorithmIdentifier)
                    } else {
                        Ok(())
                    },
                }
            },
        },
    }
}

impl<S: Signature, P: PublicKey<S>> Constrained for IdCertTbs<S, P> {
    open spec fn spec_validate(&self) -> Result<(), ConstraintError> {
        id_cert_tbs_spec_validate(self@)
    }

    fn validate(&self) -> (r: Result<(), ConstraintError>) {
        if let Err(e) = self.issuer.validate() {
            return Err(e);
        }
        if let Err(e) = self.subject.validate() {
            return Err(e);
        }
        if !equal_domain_components(&self.issuer, &self.subject) {
            return Err(ConstraintError::DomainMismatch);
        }
        if let Err(e) = self.capabilities.validate() {
            return Err(e);
        }
        if !check_serial(&self.serial_number) {
            return Err(ConstraintError::InvalidSerial);
        }
        if self.validity.not_before > self.validity.not_after {
            return Err(ConstraintError::InvalidValidity);
        }
        let info = self.subject_public_key.public_key_info();
        if !is_canonical_oid(&self.signature_algorithm.oid) || !is_canonical_oid(
            &info.algorithm.oid,
        ) {
            return Err(ConstraintError::InvalidAlgorithmIdentifier);
        }
        Ok(())
    }
}

/// What decoding a to-be-signed certificate from DER yields: only version 3
/// structures with the profile's extensions are accepted; the serial is the
/// decoded INTEGER's magnitude.
pub open spec fn id_cert_tbs_decoded<S: Signature, P: PublicKey<S>>(b: Seq<u8>) -> Result<
    IdCertTbsValue,
    ConversionError,
> {
    match tbs_certificate_parsed(b) {
        None => Err(ConversionError::DerDecode),
        Some(p) => if p.version != 2 {
            Err(ConversionError::UnsupportedVersion)
        } else {
            match rdn_sequence_parsed(p.issuer_der) {
                None => Err(ConversionError::DerDecode),
                Some(iw) => match wire_to_name_spec(iw) {
                    Err(e) => Err(e),
                    Ok(inv) => match rdn_sequence_parsed(p.subject_der) {
                        None => Err(ConversionError::DerDecode),
                        Some(sw) => match wire_to_name_spec(sw) {
                            Err(e) => Err(e),
                            Ok(snv) => match validity_parsed(p.validity_der) {
                                None => Err(ConversionError::DerDecode),
                                Some((nb, na)) => match alg_id_parsed(p.alg_der) {
                                    None => Err(ConversionError::DerDecode),
                                    Some(alg) => match spki_parsed(p.spki_der) {
                                        None => Err(ConversionError::DerDecode),
                                        Some((palg_der, key_bits)) => match alg_id_parsed(
                                            palg_der,
                                        ) {
                                            None => Err(ConversionError::DerDecode),
                                            Some(palg) => id_cert_tbs_assemble::<S, P>(
                                                p,
                                                inv,
                                                snv,
                                                nb,
                                                na,
                                                alg,
                                                palg,
                                                key_bits,
                                            ),
                                        },
                                    },
                                },
                            },
                        },
                    },
                },
            }
        },
    }
}

/// The last steps of decoding a to-be-signed certificate: the extension
/// list becomes the capabilities, and the key pair must be one the
/// pluggable key implementation accepts.
pub open spec fn id_cert_tbs_assemble<S: Signature, P: PublicKey<S>>(
    p: crate::wire::TbsPartsValue,
    issuer: Seq<NameComponentValue>,
    subject: Seq<NameComponentValue>,
    not_before: u64,
    not_after: u64,
    alg: AlgorithmIdentifierValue,
    palg: AlgorithmIdentifierValue,
    key_bits: Seq<u8>,
) -> Result<IdCertTbsValue, ConversionError> {
    match p.exts_der {
        None => Err(ConversionError::MissingExtension),
        Some(ed) => match extensions_parsed(ed) {
            None => Err(ConversionError::DerDecode),
            Some(exts) => match capabilities_from_extensions_spec(exts) {
                Err(e) => Err(e),
                Ok(caps) => {
                    let info = PublicKeyInfoValue {
                        algorithm: palg,
                        public_key_bitstring: key_bits,
                    };
                    if !P::spec_info_ok(info) {
                        Err(ConversionError::InvalidPublicKey)
                    } else {
                        Ok(
                            IdCertTbsValue {
                                serial_number: int_unpad(p.serial),
                                signature_algorithm: alg,
                                issuer,
                                validity: Validity { not_before, not_after },
                                subject,
                                subject_public_key: info,
                                capabilities: caps,
                            },
                        )
                    }
                },
            },
        },
    }
}

/// A well-formed serial survives the INTEGER padding round trip.
pub proof fn lemma_serial_round_trip(s: Seq<u8>)
    requires
        serial_wf(s),
    ensures
        int_unpad(int_pad(s)) == s,
{
    if s[0] >= 0x80 {
        assert(int_pad(s) == seq![0u8] + s);
        assert((seq![0u8] + s).drop_first() =~= s);
    }
}

/// What encoding a to-be-signed certificate yields: first the library's
/// own checks (well-formed serial, valid capabilities, canonical algorithm
/// identifiers), then the chain of named encoder results. A total function
/// of the structure's value, so encoding is deterministic: equal structures
/// yield identical bytes.
pub open spec fn id_cert_tbs_encoded(v: IdCertTbsValue) -> Result<Seq<u8>, ConversionError> {
    if !serial_wf(v.serial_number) {
        Err(ConversionError::ConstraintError(ConstraintError::InvalidSerial))
    } else {
        match capabilities_spec_validate(v.capabilities) {
            Err(e) => Err(ConversionError::ConstraintError(e)),
            Ok(_) => if !canonical_oid(v.signature_algorithm.oid) || !canonical_oid(
                v.subject_public_key.algorithm.oid,
            ) {
                Err(ConversionError::ConstraintError(ConstraintError::InvalidAlgorithmIdentifier))
            } else {
                match alg_id_der(v.signature_algorithm) {
                    None => Err(ConversionError::DerEncode),
                    Some(ad) => match rdn_sequence_der(name_to_wire_spec(v.issuer)) {
                        None => Err(ConversionError::DerEncode),
                        Some(idr) => match validity_der_of(
                            v.validity.not_before,
                            v.validity.not_after,
                        ) {
                            None => Err(ConversionError::DerEncode),
                            Some(vd) => match rdn_sequence_der(name_to_wire_spec(v.subject)) {
                                None => Err(ConversionError::DerEncode),
                                Some(sd) => match alg_id_der(v.subject_public_key.algorithm) {
                                    None => Err(ConversionError::DerEncode),
                                    Some(pad) => match spki_der_of(
                                        pad,
                                        v.subject_public_key.public_key_bitstring,
                                    ) {
                                        None => Err(ConversionError::DerEncode),
                                        Some(sp) => match extensions_der(
                                            capabilities_to_extensions_spec(v.capabilities),
                                        ) {
                                            None => Err(ConversionError::DerEncode),
                                            Some(ed) => match tbs_certificate_der(
                                                v.serial_number,
                                                ad,
                                                idr,
                                                vd,
                                                sd,
                                                sp,
                                                ed,
                                            ) {
                                                None => Err(ConversionError::DerEncode),
                                                Some(b) => Ok(b),
                                            },
                                        },
                                    },
                                },
                            },
                        },
                    },
                }
            },
        }
    }
}

impl<S: Signature, P: PublicKey<S>> IdCertTbs<S, P> {
    /// Encodes this structure as a DER X.509 v3 to-be-signed certificate.
    /// The result is exactly what the encoding function of the value
    /// dictates — success owed, errors exact, encoding deterministic — and
    /// decoding the produced bytes yields this structure's value back.
    pub fn to_der(&self) -> (r: Result<Vec<u8>, ConversionError>)
        ensures
            r matches Ok(b) ==> id_cert_tbs_encoded(self@) == Ok::<Seq<u8>, ConversionError>(b@)
                && id_cert_tbs_decoded::<S, P>(b@) == Ok::<_, ConversionError>(self@)
                && canonical_der(b@),
            r matches Err(e) ==> id_cert_tbs_encoded(self@) == Err::<Seq<u8>, ConversionError>(
                e,
            ),
    {
        if !check_serial(&self.serial_number) {
            return Err(ConversionError::ConstraintError(ConstraintError::InvalidSerial));
        }
        if let Err(e) = self.capabilities.validate() {
            return Err(ConversionError::ConstraintError(e));
        }
        let pk_info = self.subject_public_key.public_key_info();
        if !is_canonical_oid(&self.signature_algorithm.oid) || !is_canonical_oid(
            &pk_info.algorithm.oid,
        ) {
            return Err(ConversionError::ConstraintError(
                ConstraintError::InvalidAlgorithmIdentifier,
            ));
        }
        proof {
            assert(pk_info@ =~= self.subject_public_key.spec_info());
        }
        let alg_der = match alg_id_to_der(&self.signature_algorithm) {
            Ok(v) => v,
            Err(_) => return Err(ConversionError::DerEncode),
        };
        let issuer_wire = name_to_wire(&self.issuer);
        let issuer_der = match rdn_sequence_to_der(&issuer_wire) {
            Ok(v) => v,
            Err(_) => return Err(ConversionError::DerEncode),
        };
        let validity_der = match validity_to_der(self.validity.not_before, self.validity.not_after)
             {
            Ok(v) => v,
            Err(_) => return Err(ConversionError::DerEncode),
        };
        let subject_wire = name_to_wire(&self.subject);
        let subject_der = match rdn_sequence_to_der(&subject_wire) {
            Ok(v) => v,
            Err(_) => return Err(ConversionError::DerEncode),
        };
        let spki_alg_der = match alg_id_to_der(&pk_info.algorithm) {
            Ok(v) => v,
            Err(_) => return Err(ConversionError::DerEncode),
        };
        let spki_der = match spki_to_der(&spki_alg_der, &pk_info.public_key_bitstring) {
            Ok(v) => v,
            Err(_) => return Err(ConversionError::DerEncode),
        };
        let exts = self.capabilities.to_extensions();
        proof {
            crate::capabilities::lemma_extension_oids_canonical();
            assert forall|i: int| 0 <= i < exts@.len() implies canonical_oid(
                (#[trigger] exts@[i])@.oid,
            ) by {
                let m = exts@.map_values(|x: crate::capabilities::ExtensionData| x@);
                assert(m == capabilities_to_extensions_spec(self.capabilities));
                assert(m.len() == 2);
                assert(m[i] == exts@[i]@);
                assert(i == 0 || i == 1);
            }
        }
        let exts_der = match extensions_to_der(&exts) {
            Ok(v) => v,
            Err(_) => return Err(ConversionError::DerEncode),
        };
        let out = match tbs_certificate_to_der(
            &self.serial_number,
            &alg_der,
            &issuer_der,
            &validity_der,
            &subject_der,
            &spki_der,
            &exts_der,
        ) {
            Ok(v) => v,
            Err(_) => return Err(ConversionError::DerEncode),
        };
        proof {
            lemma_serial_round_trip(self.serial_number@);
            lemma_name_wire_round_trip(self.issuer@);
            lemma_name_wire_round_trip(self.subject@);
            lemma_capabilities_round_trip(self.capabilities);
            assert(pk_info@ =~= self.subject_public_key.spec_info());
            assert((PublicKeyInfoValue {
                algorithm: pk_info@.algorithm,
                public_key_bitstring: pk_info@.public_key_bitstring,
            }) =~= pk_info@);
            assert(id_cert_tbs_decoded::<S, P>(out@) =~= Ok::<_, ConversionError>(self@));
            assert(id_cert_tbs_encoded(self@) =~= Ok::<Seq<u8>, ConversionError>(out@));
        }
        Ok(out)
    }

    /// Decodes a to-be-signed certificate from DER. No validation beyond
    /// what parsing the profile requires happens here; the caller
    /// re-validates explicitly.
    pub fn from_der(bytes: &[u8]) -> (r: Result<IdCertTbs<S, P>, ConversionError>)
        ensures
            r matches Ok(t) ==> id_cert_tbs_decoded::<S, P>(bytes@) == Ok::<_, ConversionError>(
                t@,
            ),
            r matches Err(e) ==> id_cert_tbs_decoded::<S, P>(bytes@) == Err::<IdCertTbsValue, _>(
                e,
            ),
    {
        let p = match tbs_certificate_from_der(bytes) {
            Ok(v) => v,
            Err(_) => return Err(ConversionError::DerDecode),
        };
        if p.version != 2 {
            return Err(ConversionError::UnsupportedVersion);
        }
        let iw = match rdn_sequence_from_der(p.issuer_der.as_slice()) {
            Ok(v) => v,
            Err(_) => return Err(ConversionError::DerDecode),
        };
        let issuer = match wire_to_name(&iw) {
            Ok(v) => v,
            Err(e) => return Err(e),
        };
        let sw = match rdn_sequence_from_der(p.subject_der.as_slice()) {
            Ok(v) => v,
            Err(_) => return Err(ConversionError::DerDecode),
        };
        let subject = match wire_to_name(&sw) {
            Ok(v) => v,
            Err(e) => return Err(e),
        };
        let (not_before, not_after) = match validity_from_der(p.validity_der.as_slice()) {
            Ok(v) => v,
            Err(_) => return Err(ConversionError::DerDecode),
        };
        let signature_algorithm = match alg_id_from_der(p.alg_der.as_slice()) {
            Ok(v) => v,
            Err(_) => return Err(ConversionError::DerDecode),
        };
        let (spki_alg_der, key_bits) = match spki_from_der(p.spki_der.as_slice()) {
            Ok(v) => v,
            Err(_) => return Err(ConversionError::DerDecode),
        };
        let spki_alg = match alg_id_from_der(spki_alg_der.as_slice()) {
            Ok(v) => v,
            Err(_) => return Err(ConversionError::DerDecode),
        };
        let exts_der = match p.exts_der {
            Some(v) => v,
            None => return Err(ConversionError::MissingExtension),
        };
        let exts = match extensions_from_der(exts_der.as_slice()) {
            Ok(v) => v,
            Err(_) => return Err(ConversionError::DerDecode),
        };
        let capabilities = match Capabilities::from_extensions(&exts) {
            Ok(v) => v,
            Err(e) => return Err(e),
        };
        let info = PublicKeyInfo { algorithm: spki_alg, public_key_bitstring: key_bits };
        let subject_public_key = match P::from_public_key_info(info) {
            Ok(k) => k,
            Err(_) => return Err(ConversionError::InvalidPublicKey),
        };
        let mut serial_number = p.serial;
        if serial_number.len() > 0 && serial_number[0] == 0 {
            serial_number.remove(0);
            proof {
                assert(serial_number@ =~= int_unpad(p.serial@));
            }
        }
        let out = IdCertTbs {
            serial_number,
            signature_algorithm,
            issuer,
            validity: Validity { not_before, not_after },
            subject,
            subject_public_key,
            capabilities,
            phantom_data: core::marker::PhantomData,
        };
        proof {
            assert(out@ =~= (match id_cert_tbs_decoded::<S, P>(bytes@) {
                Ok(v) => v,
                Err(_) => out@,
            }));
        }
        Ok(out)
    }
}

/// A signed identity certificate: the to-be-signed structure and the
/// authority's signature over its DER encoding. The terminal artifact of
/// the request lifecycle.
#[derive(Debug, PartialEq, Eq)]
pub struct IdCert<S: Signature, P: PublicKey<S>> {
    /// The to-be-signed structure.
    pub id_cert_tbs: IdCertTbs<S, P>,
    /// The authority's signature over the structure's DER encoding.
    pub signature: S,
}

/// The abstract value of an [`IdCert`].
#[verifier::ext_equal]
pub struct IdCertValue {
    /// The to-be-signed structure's value.
    pub id_cert_tbs: IdCertTbsValue,
    /// The signature's raw bytes.
    pub signature: Seq<u8>,
}

impl<S: Signature, P: PublicKey<S>> View for IdCert<S, P> {
    type V = IdCertValue;

    open spec fn view(&self) -> IdCertValue {
        IdCertValue { id_cert_tbs: self.id_cert_tbs@, signature: self.signature.spec_bytes() }
    }
}

impl<S: Signature, P: PublicKey<S>> Constrained for IdCert<S, P> {
    open spec fn spec_validate(&self) -> Result<(), ConstraintError> {
        id_cert_tbs_spec_validate(self@.id_cert_tbs)
    }

    fn validate(&self) -> (r: Result<(), ConstraintError>) {
        self.id_cert_tbs.validate()
    }
}

/// What decoding a signed certificate from DER yields.
pub open spec fn id_cert_decoded<S: Signature, P: PublicKey<S>>(b: Seq<u8>) -> Result<
    IdCertValue,
    ConversionError,
> {
    match certificate_parsed(b) {
        None => Err(ConversionError::DerDecode),
        Some((tbs_der, alg_der, sig_bits)) => match id_cert_tbs_decoded::<S, P>(tbs_der) {
            Err(e) => Err(e),
            Ok(tv) => match alg_id_parsed(alg_der) {
                None => Err(ConversionError::DerDecode),
                Some(av) => if av != tv.signature_algorithm {
                    Err(ConversionError::DerDecode)
                } else if !S::spec_bytes_ok(sig_bits) {
                    Err(ConversionError::InvalidSignatureBytes)
                } else {
                    Ok(IdCertValue { id_cert_tbs: tv, signature: sig_bits })
                },
            },
        },
    }
}

/// The library-side verdict of issuance, before any encoding or signing:
/// role validation of the request, issuer validation, the domain-scope
/// check, then the serial, window and algorithm-identifier rules; on
/// success, the to-be-signed value the certificate will carry.
pub open spec fn issuance_checked<S: Signature>(
    csr: crate::idcsr::IdCsrValue,
    issuer: Seq<NameComponentValue>,
    serial_number: Seq<u8>,
    validity: Validity,
    home_server: bool,
) -> Result<IdCertTbsValue, ConversionError> {
    match (if home_server {
        id_csr_validate_home_server_spec(csr)
    } else {
        id_csr_validate_actor_spec(csr)
    }) {
        Err(e) => Err(e),
        Ok(_) => match name_spec_validate(issuer) {
            Err(e) => Err(ConversionError::ConstraintError(e)),
            Ok(_) => if domain_components_of(csr.inner_csr.subject) != domain_components_of(
                issuer,
            ) {
                Err(ConversionError::ConstraintError(ConstraintError::DomainMismatch))
            } else if !serial_wf(serial_number) {
                Err(ConversionError::ConstraintError(ConstraintError::InvalidSerial))
            } else if validity.not_before > validity.not_after {
                Err(ConversionError::ConstraintError(ConstraintError::InvalidValidity))
            } else if !canonical_oid(S::spec_algorithm_identifier().oid) {
                Err(ConversionError::ConstraintError(ConstraintError::InvalidAlgorithmIdentifier))
            } else {
                Ok(
                    IdCertTbsValue {
                        serial_number,
                        signature_algorithm: S::spec_algorithm_identifier(),
                        issuer,
                        validity,
                        subject: csr.inner_csr.subject,
                        subject_public_key: csr.inner_csr.subject_public_key,
                        capabilities: csr.inner_csr.capabilities,
                    },
                )
            },
        },
    }
}

/// What encoding a signed certificate yields: the to-be-signed structure's
/// encoding, then the chain of named encoder results. A total function of
/// the certificate's value (the signature enters as its bytes), so encoding
/// is deterministic.
pub open spec fn id_cert_encoded(v: IdCertValue) -> Result<Seq<u8>, ConversionError> {
    match id_cert_tbs_encoded(v.id_cert_tbs) {
        Err(e) => Err(e),
        Ok(tbs) => match alg_id_der(v.id_cert_tbs.signature_algorithm) {
            None => Err(ConversionError::DerEncode),
            Some(ad) => match certificate_der(tbs, ad, v.signature) {
                None => Err(ConversionError::DerEncode),
                Some(b) => Ok(b),
            },
        },
    }
}

impl<S: Signature, P: PublicKey<S>> IdCert<S, P> {
    /// Issues a home-server (CA) certificate from a request: validates the
    /// request for the home-server role and the issuer name, rejects an
    /// issuer whose domain components differ from the subject's before any
    /// signature is produced, then signs the derived to-be-signed structure
    /// and re-validates the assembled certificate before returning it.
    pub fn from_ca_csr<K: PrivateKey<S, PublicKey = P>>(
        id_csr: IdCsr<S, P>,
        signing_key: &K,
        serial_number: Vec<u8>,
        issuer: Name,
        validity: Validity,
    ) -> (r: Result<IdCert<S, P>, ConversionError>)
        ensures
            id_csr_validate_home_server_spec(id_csr@) matches Err(e) ==> r == Err::<
                IdCert<S, P>,
                _,
            >(e),
            id_csr_validate_home_server_spec(id_csr@) is Ok ==> (name_spec_validate(issuer@)
                matches Err(e) ==> r == Err::<IdCert<S, P>, _>(
                ConversionError::ConstraintError(e),
            )),
            id_csr_validate_home_server_spec(id_csr@) is Ok && name_spec_validate(issuer@) is Ok
                && domain_components_of(id_csr@.inner_csr.subject) != domain_components_of(
                issuer@,
            ) ==> r == Err::<IdCert<S, P>, _>(
                ConversionError::ConstraintError(ConstraintError::DomainMismatch),
            ),
            r matches Ok(cert) ==> ({
                &&& cert.id_cert_tbs@ == (IdCertTbsValue {
                    serial_number: serial_number@,
                    signature_algorithm: S::spec_algorithm_identifier(),
                    issuer: issuer@,
                    validity,
                    subject: id_csr@.inner_csr.subject,
                    subject_public_key: id_csr@.inner_csr.subject_public_key,
                    capabilities: id_csr@.inner_csr.capabilities,
                })
                &&& id_cert_tbs_spec_validate(cert.id_cert_tbs@) is Ok
            }),
            issuance_checked::<S>(id_csr@, issuer@, serial_number@, validity, true)
                matches Err(e) ==> r == Err::<IdCert<S, P>, _>(e),
            issuance_checked::<S>(id_csr@, issuer@, serial_number@, validity, true)
                matches Ok(tv) ==> ({
                &&& (id_cert_tbs_encoded(tv) matches Err(e) ==> r == Err::<IdCert<S, P>, _>(e))
                &&& (id_cert_tbs_encoded(tv) is Ok ==> r is Ok)
            }),
    {
        Self::from_csr(id_csr, signing_key, serial_number, issuer, validity, true)
    }

    /// Issues an actor certificate from a request: as [`Self::from_ca_csr`],
    /// with the request validated for the actor role instead.
    pub fn from_actor_csr<K: PrivateKey<S, PublicKey = P>>(
        id_csr: IdCsr<S, P>,
        signing_key: &K,
        serial_number: Vec<u8>,
        issuer: Name,
        validity: Validity,
    ) -> (r: Result<IdCert<S, P>, ConversionError>)
        ensures
            id_csr_validate_actor_spec(id_csr@) matches Err(e) ==> r == Err::<IdCert<S, P>, _>(e),
            id_csr_validate_actor_spec(id_csr@) is Ok ==> (name_spec_validate(issuer@)
                matches Err(e) ==> r == Err::<IdCert<S, P>, _>(
                ConversionError::ConstraintError(e),
            )),
            id_csr_validate_actor_spec(id_csr@) is Ok && name_spec_validate(issuer@) is Ok
                && domain_components_of(id_csr@.inner_csr.subject) != domain_components_of(
                issuer@,
            ) ==> r == Err::<IdCert<S, P>, _>(
                ConversionError::ConstraintError(ConstraintError::DomainMismatch),
            ),
            r matches Ok(cert) ==> ({
                &&& cert.id_cert_tbs@ == (IdCertTbsValue {
                    serial_number: serial_number@,
                    signature_algorithm: S::spec_algorithm_identifier(),
                    issuer: issuer@,
                    validity,
                    subject: id_csr@.inner_csr.subject,
                    subject_public_key: id_csr@.inner_csr.subject_public_key,
                    capabilities: id_csr@.inner_csr.capabilities,
                })
                &&& id_cert_tbs_spec_validate(cert.id_cert_tbs@) is Ok
            }),
            issuance_checked::<S>(id_csr@, issuer@, serial_number@, validity, false)
                matches Err(e) ==> r == Err::<IdCert<S, P>, _>(e),
            issuance_checked::<S>(id_csr@, issuer@, serial_number@, validity, false)
                matches Ok(tv) ==> ({
                &&& (id_cert_tbs_encoded(tv) matches Err(e) ==> r == Err::<IdCert<S, P>, _>(e))
                &&& (id_cert_tbs_encoded(tv) is Ok ==> r is Ok)
            }),
    {
        Self::from_csr(id_csr, signing_key, serial_number, issuer, validity, false)
    }

    /// The shared issuance path: role validation, issuer validation, the
    /// domain-scope check, derivation of the to-be-signed structure,
    /// signing, and re-validation of the assembled certificate.
    fn from_csr<K: PrivateKey<S, PublicKey = P>>(
        id_csr: IdCsr<S, P>,
        signing_key: &K,
        serial_number: Vec<u8>,
        issuer: Name,
        validity: Validity,
        home_server: bool,
    ) -> (r: Result<IdCert<S, P>, ConversionError>)
        ensures
            home_server ==> (id_csr_validate_home_server_spec(id_csr@) matches Err(e) ==> r
                == Err::<IdCert<S, P>, _>(e)),
            !home_server ==> (id_csr_validate_actor_spec(id_csr@) matches Err(e) ==> r == Err::<
                IdCert<S, P>,
                _,
            >(e)),
            (if home_server {
                id_csr_validate_home_server_spec(id_csr@)
            } else {
                id_csr_validate_actor_spec(id_csr@)
            }) is Ok ==> (name_spec_validate(issuer@) matches Err(e) ==> r == Err::<
                IdCert<S, P>,
                _,
            >(ConversionError::ConstraintError(e))),
            (if home_server {
                id_csr_validate_home_server_spec(id_csr@)
            } else {
                id_csr_validate_actor_spec(id_csr@)
            }) is Ok && name_spec_validate(issuer@) is Ok && domain_components_of(
                id_csr@.inner_csr.subject,
            ) != domain_components_of(issuer@) ==> r == Err::<IdCert<S, P>, _>(
                ConversionError::ConstraintError(ConstraintError::DomainMismatch),
            ),
            r matches Ok(cert) ==> ({
                &&& cert.id_cert_tbs@ == (IdCertTbsValue {
                    serial_number: serial_number@,
                    signature_algorithm: S::spec_algorithm_identifier(),
                    issuer: issuer@,
                    validity,
                    subject: id_csr@.inner_csr.subject,
                    subject_public_key: id_csr@.inner_csr.subject_public_key,
                    capabilities: id_csr@.inner_csr.capabilities,
                })
                &&& id_cert_tbs_spec_validate(cert.id_cert_tbs@) is Ok
            }),
            issuance_checked::<S>(id_csr@, issuer@, serial_number@, validity, home_server)
                matches Err(e) ==> r == Err::<IdCert<S, P>, _>(e),
            issuance_checked::<S>(id_csr@, issuer@, serial_number@, validity, home_server)
                matches Ok(tv) ==> ({
                &&& (id_cert_tbs_encoded(tv) matches Err(e) ==> r == Err::<IdCert<S, P>, _>(e))
                &&& (id_cert_tbs_encoded(tv) is Ok ==> ({
                    &&& r matches Ok(cert)
                    &&& cert.id_cert_tbs@ == tv
                }))
            }),
    {
        if home_server {
            if let Err(e) = id_csr.validate_home_server() {
                return Err(e);
            }
        } else {
            if let Err(e) = id_csr.validate_actor() {
                return Err(e);
            }
        }
        if let Err(e) = issuer.validate() {
            return Err(ConversionError::ConstraintError(e));
        }
        if !equal_domain_components(&id_csr.inner_csr.subject, &issuer) {
            return Err(ConversionError::ConstraintError(ConstraintError::DomainMismatch));
        }
        if !check_serial(&serial_number) {
            return Err(ConversionError::ConstraintError(ConstraintError::InvalidSerial));
        }
        if validity.not_before > validity.not_after {
            return Err(ConversionError::ConstraintError(ConstraintError::InvalidValidity));
        }
        let signature_algorithm = signing_key.algorithm_identifier();
        if !is_canonical_oid(&signature_algorithm.oid) {
            return Err(ConversionError::ConstraintError(
                ConstraintError::InvalidAlgorithmIdentifier,
            ));
        }
        let id_cert_tbs = IdCertTbs {
            serial_number,
            signature_algorithm,
            issuer,
            validity,
            subject: id_csr.inner_csr.subject,
            subject_public_key: id_csr.inner_csr.subject_public_key,
            capabilities: id_csr.inner_csr.capabilities,
            phantom_data: core::marker::PhantomData,
        };
        proof {
            assert(id_cert_tbs@ =~= (match issuance_checked::<S>(
                id_csr@,
                issuer@,
                serial_number@,
                validity,
                home_server,
            ) {
                Ok(tv) => tv,
                Err(_) => id_cert_tbs@,
            }));
            assert(id_cert_tbs_spec_validate(id_cert_tbs@) is Ok);
        }
        let tbs_der = match id_cert_tbs.to_der() {
            Ok(v) => v,
            Err(e) => return Err(e),
        };
        let signature = signing_key.sign(tbs_der.as_slice());
        let cert = IdCert { id_cert_tbs, signature };
        if let Err(e) = cert.validate() {
            return Err(ConversionError::ConstraintError(e));
        }
        Ok(cert)
    }

    /// Encodes this certificate as a DER X.509 certificate. The result is
    /// what the encoding function of the certificate's value dictates
    /// (success owed, errors exact, deterministic), except that serializing
    /// the pluggable signature value may fail, which is reported as an
    /// invalid signature value. Decoding the produced bytes yields this
    /// certificate's value back: the binary round trip.
    pub fn to_der(&self) -> (r: Result<Vec<u8>, ConversionError>)
        ensures
            r matches Ok(b) ==> id_cert_encoded(self@) == Ok::<Seq<u8>, ConversionError>(b@)
                && id_cert_decoded::<S, P>(b@) == Ok::<_, ConversionError>(self@)
                && canonical_der(b@),
            r matches Err(e) ==> e == ConversionError::ConstraintError(
                ConstraintError::InvalidSignatureValue,
            ) || id_cert_encoded(self@) == Err::<Seq<u8>, ConversionError>(e),
            id_cert_encoded(self@) is Ok ==> r is Ok || r == Err::<Vec<u8>, _>(
                ConversionError::ConstraintError(ConstraintError::InvalidSignatureValue),
            ),
    {
        let tbs_der = match self.id_cert_tbs.to_der() {
            Ok(v) => v,
            Err(e) => return Err(e),
        };
        proof {
            assert(canonical_oid(self.id_cert_tbs@.signature_algorithm.oid));
        }
        let alg_der = match alg_id_to_der(&self.id_cert_tbs.signature_algorithm) {
            Ok(v) => v,
            Err(_) => return Err(ConversionError::DerEncode),
        };
        let sig_bits = match self.signature.to_bytes() {
            Ok(v) => v,
            Err(_) => return Err(ConversionError::ConstraintError(
                ConstraintError::InvalidSignatureValue,
            )),
        };
        let out = match certificate_to_der(&tbs_der, &alg_der, &sig_bits) {
            Ok(v) => v,
            Err(_) => return Err(ConversionError::DerEncode),
        };
        proof {
            assert(id_cert_decoded::<S, P>(out@) =~= Ok::<_, ConversionError>(self@));
            assert(id_cert_encoded(self@) =~= Ok::<Seq<u8>, ConversionError>(out@));
        }
        Ok(out)
    }

    /// Decodes a certificate from DER bytes. No validation beyond what
    /// parsing the profile requires happens here; the caller re-validates
    /// explicitly.
    pub fn from_der(value: Vec<u8>) -> (r: Result<IdCert<S, P>, ConversionError>)
        ensures
            r matches Ok(cert) ==> id_cert_decoded::<S, P>(value@) == Ok::<_, ConversionError>(
                cert@,
            ),
            r matches Err(e) ==> id_cert_decoded::<S, P>(value@) == Err::<IdCertValue, _>(e),
    {
        let (tbs_der, alg_der, sig_bits) = match certificate_from_der(value.as_slice()) {
            Ok(v) => v,
            Err(_) => return Err(ConversionError::DerDecode),
        };
        let id_cert_tbs = match IdCertTbs::<S, P>::from_der(tbs_der.as_slice()) {
            Ok(v) => v,
            Err(e) => return Err(e),
        };
        let outer_alg = match alg_id_from_der(alg_der.as_slice()) {
            Ok(v) => v,
            Err(_) => return Err(ConversionError::DerDecode),
        };
        if !(outer_alg.oid == id_cert_tbs.signature_algorithm.oid) {
            return Err(ConversionError::DerDecode);
        }
        let params_match = match (&outer_alg.parameters, &id_cert_tbs.signature_algorithm.parameters) {
            (None, None) => true,
            (Some(a), Some(b)) => crate::capabilities::bytes_eq(a.as_slice(), b.as_slice()),
            _ => false,
        };
        if !params_match {
            return Err(ConversionError::DerDecode);
        }
        let signature = match S::from_bytes(sig_bits.as_slice()) {
            Ok(v) => v,
            Err(_) => return Err(ConversionError::InvalidSignatureBytes),
        };
        let out = IdCert { id_cert_tbs, signature };
        proof {
            assert(outer_alg@ =~= out.id_cert_tbs@.signature_algorithm);
            assert(out@ =~= (match id_cert_decoded::<S, P>(value@) {
                Ok(v) => v,
                Err(_) => out@,
            }));
        }
        Ok(out)
    }
}

} // verus!
