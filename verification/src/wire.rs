//! The ASN.1 DER boundary: thin trusted wrappers around the `der`, `spki`
//! and `x509_cert` crates, one encoder and one decoder per wire structure,
//! all working on plain values.
//!
//! Each structure has an uninterpreted `..._parsed` function naming what its
//! decoder yields on given bytes and an uninterpreted `..._der` function
//! naming what its encoder writes (both are deterministic functions of
//! their arguments). An encoder's contract additionally states that
//! decoding its output yields its inputs back. That rests on the `der`
//! crate writing canonical DER; where the codec is lenient on decode (SET
//! ordering, elided DEFAULT fields), raw DER inputs are confined by the
//! [`canonical_der`] predicate, which the decoders establish for every DER
//! field they hand out and the encoders require and preserve.
use vstd::prelude::*;

verus! {

use crate::capabilities::ExtensionData;
use crate::errors::ConversionError;
use crate::types::{AlgorithmIdentifierOwned, canonical_oid};
use der::{Decode, Encode};
use x509_cert::attr::AttributeTypeAndValue;
use x509_cert::certificate::TbsCertificate;
use x509_cert::name::{RdnSequence, RelativeDistinguishedName};
use x509_cert::serial_number::SerialNumber;

/// One attribute of a relative distinguished name as it crosses the
/// boundary: its type's object identifier, the ASN.1 tag of its value, and
/// the value's characters.
#[derive(Debug, Clone, PartialEq, Eq)]
pub struct NameAtv {
    /// The attribute type, dotted decimal.
    pub oid: String,
    /// The ASN.1 tag octet of the attribute value.
    pub tag: u8,
    /// The attribute value's characters.
    pub value: String,
}

/// The abstract value of a [`NameAtv`].
#[verifier::ext_equal]
pub struct NameAtvValue {
    /// The attribute type's characters.
    pub oid: Seq<char>,
    /// The ASN.1 tag octet.
    pub tag: u8,
    /// The value's characters.
    pub value: Seq<char>,
}

impl View for NameAtv {
    type V = NameAtvValue;

    open spec fn view(&self) -> NameAtvValue {
        NameAtvValue { oid: self.oid@, tag: self.tag, value: self.value@ }
    }
}

/// The abstract value of a sequence of relative distinguished names.
pub open spec fn rdns_view(v: Seq<Vec<NameAtv>>) -> Seq<Seq<NameAtvValue>> {
    v.map_values(|r: Vec<NameAtv>| r@.map_values(|a: NameAtv| a@))
}

/// One request attribute as it crosses the boundary: its object identifier
/// and the DER encoding of each of its values.
#[derive(Debug, Clone, PartialEq, Eq)]
pub struct AttributeData {
    /// The attribute's object identifier, dotted decimal.
    pub oid: String,
    /// The DER encoding of each value in the attribute's set.
    pub values: Vec<Vec<u8>>,
}

/// The abstract value of an [`AttributeData`].
#[verifier::ext_equal]
pub struct AttributeDataValue {
    /// The object identifier's characters.
    pub oid: Seq<char>,
    /// The DER bytes of each value.
    pub values: Seq<Seq<u8>>,
}

impl View for AttributeData {
    type V = AttributeDataValue;

    open spec fn view(&self) -> AttributeDataValue {
        AttributeDataValue { oid: self.oid@, values: self.values@.map_values(|v: Vec<u8>| v@) }
    }
}

/// The abstract value of an attribute list.
pub open spec fn attrs_view(v: Seq<AttributeData>) -> Seq<AttributeDataValue> {
    v.map_values(|a: AttributeData| a@)
}

/// The abstract value of an extension list.
pub open spec fn exts_view(v: Seq<ExtensionData>) -> Seq<crate::capabilities::ExtensionDataValue> {
    v.map_values(|x: ExtensionData| x@)
}

/// The fields of a certification request info structure, each as the DER
/// bytes or raw bits it carries.
#[derive(Debug, Clone, PartialEq, Eq)]
pub struct CertReqInfoParts {
    /// The DER encoding of the subject name.
    pub subject_der: Vec<u8>,
    /// The DER encoding of the subject public key info.
    pub spki_der: Vec<u8>,
    /// The DER encoding of the attribute set.
    pub attrs_der: Vec<u8>,
}

/// The abstract value of a [`CertReqInfoParts`].
#[verifier::ext_equal]
pub struct CertReqInfoPartsValue {
    /// The subject name's DER bytes.
    pub subject_der: Seq<u8>,
    /// The subject public key info's DER bytes.
    pub spki_der: Seq<u8>,
    /// The attribute set's DER bytes.
    pub attrs_der: Seq<u8>,
}

impl View for CertReqInfoParts {
    type V = CertReqInfoPartsValue;

    open spec fn view(&self) -> CertReqInfoPartsValue {
        CertReqInfoPartsValue {
            subject_der: self.subject_der@,
            spki_der: self.spki_der@,
            attrs_der: self.attrs_der@,
        }
    }
}

/// The fields of a to-be-signed certificate structure, each as the DER
/// bytes or raw value it carries.
#[derive(Debug, Clone, PartialEq, Eq)]
pub struct TbsParts {
    /// The certificate version: 0, 1 or 2 for v1, v2 or v3.
    pub version: u8,
    /// The serial number's INTEGER content octets.
    pub serial: Vec<u8>,
    /// The DER encoding of the signature algorithm identifier.
    pub alg_der: Vec<u8>,
    /// The DER encoding of the issuer name.
    pub issuer_der: Vec<u8>,
    /// The DER encoding of the validity window.
    pub validity_der: Vec<u8>,
    /// The DER encoding of the subject name.
    pub subject_der: Vec<u8>,
    /// The DER encoding of the subject public key info.
    pub spki_der: Vec<u8>,
    /// The DER encoding of the extension list, when one is present.
    pub exts_der: Option<Vec<u8>>,
}

/// The abstract value of a [`TbsParts`].
#[verifier::ext_equal]
pub struct TbsPartsValue {
    /// The version number.
    pub version: u8,
    /// The serial's INTEGER content octets.
    pub serial: Seq<u8>,
    /// The signature algorithm's DER bytes.
    pub alg_der: Seq<u8>,
    /// The issuer name's DER bytes.
    pub issuer_der: Seq<u8>,
    /// The validity window's DER bytes.
    pub validity_der: Seq<u8>,
    /// The subject name's DER bytes.
    pub subject_der: Seq<u8>,
    /// The subject public key info's DER bytes.
    pub spki_der: Seq<u8>,
    /// The extension list's DER bytes, when present.
    pub exts_der: Option<Seq<u8>>,
}

impl View for TbsParts {
    type V = TbsPartsValue;

    open spec fn view(&self) -> TbsPartsValue {
        TbsPartsValue {
            version: self.version,
            serial: self.serial@,
            alg_der: self.alg_der@,
            issuer_der: self.issuer_der@,
            validity_der: self.validity_der@,
            subject_der: self.subject_der@,
            spki_der: self.spki_der@,
            exts_der: match self.exts_der {
                Some(e) => Some(e@),
                None => None,
            },
        }
    }
}

/// An INTEGER's content octets for the given magnitude bytes: a zero octet
/// is prepended when the top bit is set, to keep the value non-negative.
pub open spec fn int_pad(s: Seq<u8>) -> Seq<u8> {
    if s.len() > 0 && s[0] >= 0x80 {
        seq![0u8] + s
    } else {
        s
    }
}

/// What decoding a DER algorithm identifier yields.
pub uninterp spec fn alg_id_parsed(b: Seq<u8>) -> Option<crate::types::AlgorithmIdentifierValue>;

/// True of byte strings on which the codec's decode-then-encode round trip
/// is the identity: the canonical encodings. The codec accepts a few
/// non-canonical forms (it sorts a decoded SET OF instead of rejecting a
/// misordered one, and restores an elided DEFAULT field), so this is a
/// proper subset of what it accepts. Every byte string the codec itself
/// writes is canonical: the decoders below establish this predicate for
/// each DER field they hand out (those are re-encodings, and re-encoding is
/// idempotent), the encoders require it of every raw DER field they embed
/// and establish it of their output.
pub uninterp spec fn canonical_der(b: Seq<u8>) -> bool;

/// What encoding an algorithm identifier yields, when it succeeds. Each
/// `..._der` function below names one deterministic encoder's result; `None`
/// is the encoder reporting failure.
pub uninterp spec fn alg_id_der(a: crate::types::AlgorithmIdentifierValue) -> Option<Seq<u8>>;

/// What encoding a wire-form name yields.
pub uninterp spec fn rdn_sequence_der(w: Seq<Seq<NameAtvValue>>) -> Option<Seq<u8>>;

/// What encoding a single-attribute, single-value attribute set yields.
pub uninterp spec fn attributes_der(oid: Seq<char>, value: Seq<u8>) -> Option<Seq<u8>>;

/// What encoding a subject public key info from its algorithm's DER bytes
/// and raw key bits yields.
pub uninterp spec fn spki_der_of(alg_der: Seq<u8>, key_bits: Seq<u8>) -> Option<Seq<u8>>;

/// What encoding an extension list yields.
pub uninterp spec fn extensions_der(e: Seq<crate::capabilities::ExtensionDataValue>) -> Option<
    Seq<u8>,
>;

/// What encoding a validity window yields.
pub uninterp spec fn validity_der_of(not_before: u64, not_after: u64) -> Option<Seq<u8>>;

/// What encoding a certification request info from its field encodings
/// yields.
pub uninterp spec fn cert_req_info_der(p: CertReqInfoPartsValue) -> Option<Seq<u8>>;

/// What encoding a certification request from its field encodings yields.
pub uninterp spec fn cert_req_der(info: Seq<u8>, alg: Seq<u8>, sig: Seq<u8>) -> Option<Seq<u8>>;

/// What wrapping certification request DER bytes in PEM text yields, for a
/// line ending given as its code (see [`line_ending_code`]).
pub uninterp spec fn cert_req_pem(b: Seq<u8>, le: u8) -> Option<Seq<char>>;

/// What encoding a to-be-signed certificate from its field encodings
/// yields.
pub uninterp spec fn tbs_certificate_der(
    serial: Seq<u8>,
    alg: Seq<u8>,
    issuer: Seq<u8>,
    validity: Seq<u8>,
    subject: Seq<u8>,
    spki: Seq<u8>,
    exts: Seq<u8>,
) -> Option<Seq<u8>>;

/// What encoding a certificate from its field encodings yields.
pub uninterp spec fn certificate_der(tbs: Seq<u8>, alg: Seq<u8>, sig: Seq<u8>) -> Option<Seq<u8>>;

/// What decoding a DER name (a sequence of relative distinguished names)
/// yields.
pub uninterp spec fn rdn_sequence_parsed(b: Seq<u8>) -> Option<Seq<Seq<NameAtvValue>>>;

/// What decoding a DER attribute set yields.
pub uninterp spec fn attributes_parsed(b: Seq<u8>) -> Option<Seq<AttributeDataValue>>;

/// What decoding a DER subject public key info yields: the algorithm
/// identifier's DER bytes and the raw key bits.
pub uninterp spec fn spki_parsed(b: Seq<u8>) -> Option<(Seq<u8>, Seq<u8>)>;

/// What decoding a DER extension list yields.
pub uninterp spec fn extensions_parsed(b: Seq<u8>) -> Option<
    Seq<crate::capabilities::ExtensionDataValue>,
>;

/// What decoding a DER validity window yields: the two UNIX timestamps.
pub uninterp spec fn validity_parsed(b: Seq<u8>) -> Option<(u64, u64)>;

/// What decoding a DER certification request info yields.
pub uninterp spec fn cert_req_info_parsed(b: Seq<u8>) -> Option<CertReqInfoPartsValue>;

/// What decoding a DER certification request yields: the info bytes, the
/// signature algorithm bytes, and the raw signature bits.
pub uninterp spec fn cert_req_parsed(b: Seq<u8>) -> Option<(Seq<u8>, Seq<u8>, Seq<u8>)>;

/// What reading the PEM text form of a certification request yields: the
/// DER bytes inside it.
pub uninterp spec fn cert_req_pem_parsed(s: Seq<char>) -> Option<Seq<u8>>;

/// What decoding a DER to-be-signed certificate yields.
pub uninterp spec fn tbs_certificate_parsed(b: Seq<u8>) -> Option<TbsPartsValue>;

/// What decoding a DER certificate yields: the to-be-signed bytes, the
/// signature algorithm bytes, and the raw signature bits.
pub uninterp spec fn certificate_parsed(b: Seq<u8>) -> Option<(Seq<u8>, Seq<u8>, Seq<u8>)>;

/// Relies on `spki::AlgorithmIdentifierOwned`'s DER encoding and on
/// `const_oid::ObjectIdentifier::from_str`: for a canonical dotted-decimal
/// string the identifier prints back to the same string, and the `der`
/// codec's decode of its own output recovers the structure.
#[verifier::external_body]
pub(crate) fn alg_id_to_der(a: &AlgorithmIdentifierOwned) -> (r: Result<Vec<u8>, ConversionError>)
    requires
        canonical_oid(a@.oid),
    ensures
        r matches Ok(b) ==> alg_id_der(a@) == Some(b@) && alg_id_parsed(b@) == Some(a@)
            && canonical_der(b@),
        r is Err ==> alg_id_der(a@) is None,
{
    let oid: spki::ObjectIdentifier = match a.oid.parse() {
        Ok(o) => o,
        Err(_) => return Err(ConversionError::DerEncode),
    };
    let parameters = match &a.parameters {
        Some(p) => Some(der::asn1::Any::from_der(p).map_err(|_| ConversionError::DerEncode)?),
        None => None,
    };
    Encode::to_der(&spki::AlgorithmIdentifierOwned { oid, parameters }).map_err(
        |_| ConversionError::DerEncode,
    )
}

/// Relies on `spki::AlgorithmIdentifierOwned::from_der` and
/// `const_oid::ObjectIdentifier`'s display form.
#[verifier::external_body]
pub(crate) fn alg_id_from_der(b: &[u8]) -> (r: Result<AlgorithmIdentifierOwned, ConversionError>)
    ensures
        r matches Ok(a) ==> alg_id_parsed(b@) == Some(a@),
        r is Err ==> alg_id_parsed(b@) is None,
{
    let d: spki::AlgorithmIdentifierOwned = match Decode::from_der(b) {
        Ok(v) => v,
        Err(_) => return Err(ConversionError::DerDecode),
    };
    let parameters = match &d.parameters {
        Some(p) => Some(Encode::to_der(p).map_err(|_| ConversionError::DerDecode)?),
        None => None,
    };
    Ok(AlgorithmIdentifierOwned { oid: d.oid.to_string(), parameters })
}

/// Relies on `x509_cert::name::RdnSequence`'s DER encoding, with one
/// attribute per relative distinguished name, and on `der::asn1::Any`
/// carrying a tagged value's bytes through unchanged.
#[verifier::external_body]
pub(crate) fn rdn_sequence_to_der(rdns: &Vec<Vec<NameAtv>>) -> (r: Result<Vec<u8>, ConversionError>)
    requires
        forall|i: int| 0 <= i < rdns@.len() ==> (#[trigger] rdns@[i])@.len() == 1,
        forall|i: int, j: int|
            0 <= i < rdns@.len() && 0 <= j < rdns@[i]@.len() ==> canonical_oid(
                (#[trigger] rdns@[i]@[j])@.oid,
            ),
    ensures
        r matches Ok(b) ==> rdn_sequence_der(rdns_view(rdns@)) == Some(b@)
            && rdn_sequence_parsed(b@) == Some(rdns_view(rdns@)) && canonical_der(b@),
        r is Err ==> rdn_sequence_der(rdns_view(rdns@)) is None,
{
    let err = ConversionError::DerEncode;
    let mut rs: Vec<RelativeDistinguishedName> = Vec::new();
    for rdn in rdns.iter() {
        let mut set = der::asn1::SetOfVec::new();
        for a in rdn.iter() {
            let oid = a.oid.parse().map_err(|_| err)?;
            let tag = der::Tag::try_from(a.tag).map_err(|_| err)?;
            let value = der::asn1::Any::new(tag, a.value.as_bytes()).map_err(|_| err)?;
            set.insert(AttributeTypeAndValue { oid, value }).map_err(|_| err)?;
        }
        rs.push(RelativeDistinguishedName::from(set));
    }
    Encode::to_der(&RdnSequence::from(rs)).map_err(|_| err)
}

/// Relies on `x509_cert::name::RdnSequence::from_der`; each attribute value
/// is handed out as its tag octet and its content bytes read as UTF-8.
#[verifier::external_body]
pub(crate) fn rdn_sequence_from_der(b: &[u8]) -> (r: Result<Vec<Vec<NameAtv>>, ConversionError>)
    ensures
        r matches Ok(v) ==> rdn_sequence_parsed(b@) == Some(rdns_view(v@)),
        r is Err ==> rdn_sequence_parsed(b@) is None,
{
    let n: x509_cert::name::RdnSequence = match Decode::from_der(b) {
        Ok(v) => v,
        Err(_) => return Err(ConversionError::DerDecode),
    };
    let mut out: Vec<Vec<NameAtv>> = Vec::new();
    for rdn in n.0.iter() {
        let mut atvs: Vec<NameAtv> = Vec::new();
        for a in rdn.0.iter() {
            let value = String::from_utf8(a.value.value().to_vec())
                .map_err(|_| ConversionError::DerDecode)?;
            atvs.push(NameAtv { oid: a.oid.to_string(), tag: der::Tagged::tag(&a.value).octet(), value });
        }
        out.push(atvs);
    }
    Ok(out)
}

/// Relies on `der::asn1::SetOfVec`'s DER encoding of a single
/// `x509_cert::attr::Attribute` with a single value.
#[verifier::external_body]
pub(crate) fn attributes_to_der(oid: &String, value_der: &Vec<u8>) -> (r: Result<Vec<u8>, ConversionError>)
    requires
        canonical_oid(oid@),
    ensures
        r matches Ok(b) ==> attributes_der(oid@, value_der@) == Some(b@) && attributes_parsed(b@)
            == Some(seq![AttributeDataValue { oid: oid@, values: seq![value_der@] }])
            && canonical_der(b@),
        r is Err ==> attributes_der(oid@, value_der@) is None,
{
    let o: spki::ObjectIdentifier = match oid.parse() {
        Ok(v) => v,
        Err(_) => return Err(ConversionError::DerEncode),
    };
    let any = der::asn1::Any::from_der(value_der).map_err(|_| ConversionError::DerEncode)?;
    let values = der::asn1::SetOfVec::try_from(vec![any]).map_err(|_| ConversionError::DerEncode)?;
    let attrs: x509_cert::attr::Attributes = der::asn1::SetOfVec::try_from(
        vec![x509_cert::attr::Attribute { oid: o, values }],
    ).map_err(|_| ConversionError::DerEncode)?;
    Encode::to_der(&attrs).map_err(|_| ConversionError::DerEncode)
}

/// Relies on `x509_cert::attr::Attributes::from_der`; each attribute is
/// handed out as its identifier and the DER bytes of each of its values.
#[verifier::external_body]
pub(crate) fn attributes_from_der(b: &[u8]) -> (r: Result<Vec<AttributeData>, ConversionError>)
    ensures
        r matches Ok(v) ==> attributes_parsed(b@) == Some(attrs_view(v@)),
        r is Err ==> attributes_parsed(b@) is None,
{
    let attrs: x509_cert::attr::Attributes = match Decode::from_der(b) {
        Ok(v) => v,
        Err(_) => return Err(ConversionError::DerDecode),
    };
    let mut out: Vec<AttributeData> = Vec::new();
    for a in attrs.iter() {
        let mut vals: Vec<Vec<u8>> = Vec::new();
        for v in a.values.iter() {
            vals.push(Encode::to_der(v).map_err(|_| ConversionError::DerDecode)?);
        }
        out.push(AttributeData { oid: a.oid.to_string(), values: vals });
    }
    Ok(out)
}

/// Relies on `x509_cert::ext::Extension`'s DER encoding inside a
/// SEQUENCE OF, with each payload wrapped in an OCTET STRING.
#[verifier::external_body]
pub(crate) fn extensions_to_der(exts: &Vec<ExtensionData>) -> (r: Result<Vec<u8>, ConversionError>)
    requires
        forall|i: int| 0 <= i < exts@.len() ==> canonical_oid((#[trigger] exts@[i])@.oid),
    ensures
        r matches Ok(b) ==> extensions_der(exts_view(exts@)) == Some(b@) && extensions_parsed(b@)
            == Some(exts_view(exts@)) && canonical_der(b@),
        r is Err ==> extensions_der(exts_view(exts@)) is None,
{
    let mut out: Vec<x509_cert::ext::Extension> = Vec::new();
    for e in exts.iter() {
        let extn_id: spki::ObjectIdentifier = match e.oid.parse() {
            Ok(v) => v,
            Err(_) => return Err(ConversionError::DerEncode),
        };
        let extn_value = der::asn1::OctetString::new(e.value.clone())
            .map_err(|_| ConversionError::DerEncode)?;
        out.push(x509_cert::ext::Extension { extn_id, critical: e.critical, extn_value });
    }
    Encode::to_der(&out).map_err(|_| ConversionError::DerEncode)
}

/// Relies on `x509_cert::ext::Extensions::from_der`.
#[verifier::external_body]
pub(crate) fn extensions_from_der(b: &[u8]) -> (r: Result<Vec<ExtensionData>, ConversionError>)
    ensures
        r matches Ok(v) ==> extensions_parsed(b@) == Some(exts_view(v@)),
        r is Err ==> extensions_parsed(b@) is None,
{
    let exts: x509_cert::ext::Extensions = match Decode::from_der(b) {
        Ok(v) => v,
        Err(_) => return Err(ConversionError::DerDecode),
    };
    let mut out: Vec<ExtensionData> = Vec::new();
    for e in exts.iter() {
        out.push(
            ExtensionData {
                oid: e.extn_id.to_string(),
                critical: e.critical,
                value: e.extn_value.as_bytes().to_vec(),
            },
        );
    }
    Ok(out)
}

/// Relies on `x509_cert::time::Validity`'s DER encoding with both bounds as
/// GeneralizedTime; `der`'s time types carry whole seconds exactly.
#[verifier::external_body]
pub(crate) fn validity_to_der(not_before: u64, not_after: u64) -> (r: Result<Vec<u8>, ConversionError>)
    ensures
        r matches Ok(b) ==> validity_der_of(not_before, not_after) == Some(b@)
            && validity_parsed(b@) == Some((not_before, not_after)) && canonical_der(b@),
        r is Err ==> validity_der_of(not_before, not_after) is None,
{
    let nb = der::asn1::GeneralizedTime::from_unix_duration(
        core::time::Duration::from_secs(not_before),
    ).map_err(|_| ConversionError::DerEncode)?;
    let na = der::asn1::GeneralizedTime::from_unix_duration(
        core::time::Duration::from_secs(not_after),
    ).map_err(|_| ConversionError::DerEncode)?;
    Encode::to_der(&x509_cert::time::Validity {
        not_before: x509_cert::time::Time::GeneralTime(nb),
        not_after: x509_cert::time::Time::GeneralTime(na),
    }).map_err(|_| ConversionError::DerEncode)
}

/// Relies on `x509_cert::time::Validity::from_der` and
/// `Time::to_unix_duration`.
#[verifier::external_body]
pub(crate) fn validity_from_der(b: &[u8]) -> (r: Result<(u64, u64), ConversionError>)
    ensures
        r matches Ok(v) ==> validity_parsed(b@) == Some(v),
        r is Err ==> validity_parsed(b@) is None,
{
    let v: x509_cert::time::Validity = match Decode::from_der(b) {
        Ok(v) => v,
        Err(_) => return Err(ConversionError::DerDecode),
    };
    Ok((v.not_before.to_unix_duration().as_secs(), v.not_after.to_unix_duration().as_secs()))
}

/// Relies on `spki::SubjectPublicKeyInfoOwned`'s DER encoding and on
/// `der::asn1::BitString::from_bytes` (no unused bits). The algorithm's DER
/// bytes must be canonical (see [`canonical_der`]).
#[verifier::external_body]
pub(crate) fn spki_to_der(alg_der: &Vec<u8>, key_bits: &Vec<u8>) -> (r: Result<Vec<u8>, ConversionError>)
    requires
        canonical_der(alg_der@),
    ensures
        r matches Ok(b) ==> spki_der_of(alg_der@, key_bits@) == Some(b@) && spki_parsed(b@)
            == Some((alg_der@, key_bits@)) && canonical_der(b@),
        r is Err ==> spki_der_of(alg_der@, key_bits@) is None,
{
    let algorithm = Decode::from_der(alg_der).map_err(|_| ConversionError::DerEncode)?;
    let subject_public_key = der::asn1::BitString::from_bytes(key_bits)
        .map_err(|_| ConversionError::DerEncode)?;
    Encode::to_der(&spki::SubjectPublicKeyInfoOwned { algorithm, subject_public_key })
        .map_err(|_| ConversionError::DerEncode)
}

/// Relies on `spki::SubjectPublicKeyInfoOwned::from_der`.
#[verifier::external_body]
pub(crate) fn spki_from_der(b: &[u8]) -> (r: Result<(Vec<u8>, Vec<u8>), ConversionError>)
    ensures
        r matches Ok(p) ==> spki_parsed(b@) == Some((p.0@, p.1@)) && canonical_der(p.0@),
        r is Err ==> spki_parsed(b@) is None,
{
    let k: spki::SubjectPublicKeyInfoOwned = match Decode::from_der(b) {
        Ok(v) => v,
        Err(_) => return Err(ConversionError::DerDecode),
    };
    Ok((
        Encode::to_der(&k.algorithm).map_err(|_| ConversionError::DerDecode)?,
        k.subject_public_key.raw_bytes().to_vec(),
    ))
}

/// Relies on `x509_cert::request::CertReqInfo`'s DER encoding with version
/// v1. The raw DER fields must be canonical: the codec would accept and
/// silently re-sort a misordered SET inside them, so decoding the output
/// would not return such bytes unchanged.
#[verifier::external_body]
pub(crate) fn cert_req_info_to_der(p: &CertReqInfoParts) -> (r: Result<Vec<u8>, ConversionError>)
    requires
        canonical_der(p@.subject_der),
        canonical_der(p@.spki_der),
        canonical_der(p@.attrs_der),
    ensures
        r matches Ok(b) ==> cert_req_info_der(p@) == Some(b@) && cert_req_info_parsed(b@)
            == Some(p@) && canonical_der(b@),
        r is Err ==> cert_req_info_der(p@) is None,
{
    let subject = Decode::from_der(&p.subject_der).map_err(|_| ConversionError::DerEncode)?;
    let public_key = Decode::from_der(&p.spki_der).map_err(|_| ConversionError::DerEncode)?;
    let attributes = Decode::from_der(&p.attrs_der).map_err(|_| ConversionError::DerEncode)?;
    Encode::to_der(&x509_cert::request::CertReqInfo {
        version: x509_cert::request::Version::V1,
        subject,
        public_key,
        attributes,
    }).map_err(|_| ConversionError::DerEncode)
}

/// Relies on `x509_cert::request::CertReqInfo::from_der`; the fields are
/// handed back out as their own DER encodings and raw key bits.
#[verifier::external_body]
pub(crate) fn cert_req_info_from_der(b: &[u8]) -> (r: Result<CertReqInfoParts, ConversionError>)
    ensures
        r matches Ok(p) ==> cert_req_info_parsed(b@) == Some(p@) && canonical_der(p@.subject_der)
            && canonical_der(p@.spki_der) && canonical_der(p@.attrs_der),
        r is Err ==> cert_req_info_parsed(b@) is None,
{
    let cri: x509_cert::request::CertReqInfo = match Decode::from_der(b) {
        Ok(v) => v,
        Err(_) => return Err(ConversionError::DerDecode),
    };
    Ok(CertReqInfoParts {
        subject_der: Encode::to_der(&cri.subject).map_err(|_| ConversionError::DerDecode)?,
        spki_der: Encode::to_der(&cri.public_key).map_err(|_| ConversionError::DerDecode)?,
        attrs_der: Encode::to_der(&cri.attributes).map_err(|_| ConversionError::DerDecode)?,
    })
}

/// Relies on `x509_cert::request::CertReq`'s DER encoding and on
/// `der::asn1::BitString::from_bytes` (no unused bits). The raw DER fields
/// must be canonical (see [`canonical_der`]).
#[verifier::external_body]
pub(crate) fn cert_req_to_der(info_der: &Vec<u8>, alg_der: &Vec<u8>, sig_bits: &Vec<u8>) -> (r: Result<
    Vec<u8>,
    ConversionError,
>)
    requires
        canonical_der(info_der@),
        canonical_der(alg_der@),
    ensures
        r matches Ok(b) ==> cert_req_der(info_der@, alg_der@, sig_bits@) == Some(b@)
            && cert_req_parsed(b@) == Some((info_der@, alg_der@, sig_bits@)) && canonical_der(b@),
        r is Err ==> cert_req_der(info_der@, alg_der@, sig_bits@) is None,
{
    let info = Decode::from_der(info_der).map_err(|_| ConversionError::DerEncode)?;
    let algorithm = Decode::from_der(alg_der).map_err(|_| ConversionError::DerEncode)?;
    let signature = der::asn1::BitString::from_bytes(sig_bits)
        .map_err(|_| ConversionError::DerEncode)?;
    Encode::to_der(&x509_cert::request::CertReq { info, algorithm, signature })
        .map_err(|_| ConversionError::DerEncode)
}

/// Relies on `x509_cert::request::CertReq::from_der`.
#[verifier::external_body]
pub(crate) fn cert_req_from_der(b: &[u8]) -> (r: Result<(Vec<u8>, Vec<u8>, Vec<u8>), ConversionError>)
    ensures
        r matches Ok(p) ==> cert_req_parsed(b@) == Some((p.0@, p.1@, p.2@)) && canonical_der(p.0@)
            && canonical_der(p.1@),
        r is Err ==> cert_req_parsed(b@) is None,
{
    let cr: x509_cert::request::CertReq = match Decode::from_der(b) {
        Ok(v) => v,
        Err(_) => return Err(ConversionError::DerDecode),
    };
    Ok((
        Encode::to_der(&cr.info).map_err(|_| ConversionError::DerDecode)?,
        Encode::to_der(&cr.algorithm).map_err(|_| ConversionError::DerDecode)?,
        cr.signature.raw_bytes().to_vec(),
    ))
}

/// The line ending written between the base64 lines of the PEM text form.
#[derive(Debug, Clone, Copy, PartialEq, Eq, Structural)]
pub enum LineEnding {
    /// Carriage return alone.
    Cr,
    /// Line feed alone.
    Lf,
    /// Carriage return then line feed.
    CrLf,
}

/// The code a line ending is named by in [`cert_req_pem`].
pub open spec fn line_ending_code(le: LineEnding) -> u8 {
    match le {
        LineEnding::Cr => 0u8,
        LineEnding::Lf => 1u8,
        LineEnding::CrLf => 2u8,
    }
}

/// Relies on `der::EncodePem` for `x509_cert::request::CertReq`: the PEM
/// text wraps exactly the DER bytes, whatever the line ending. The DER
/// bytes must be canonical (see [`canonical_der`]).
#[verifier::external_body]
pub(crate) fn cert_req_der_to_pem(der_bytes: &Vec<u8>, line_ending: LineEnding) -> (r: Result<
    String,
    ConversionError,
>)
    requires
        canonical_der(der_bytes@),
    ensures
        r matches Ok(p) ==> cert_req_pem(der_bytes@, line_ending_code(line_ending)) == Some(p@)
            && cert_req_pem_parsed(p@) == Some(der_bytes@),
        r is Err ==> cert_req_pem(der_bytes@, line_ending_code(line_ending)) is None,
{
    let cr: x509_cert::request::CertReq = Decode::from_der(der_bytes)
        .map_err(|_| ConversionError::DerEncode)?;
    let le = match line_ending {
        LineEnding::Cr => der::pem::LineEnding::CR,
        LineEnding::Lf => der::pem::LineEnding::LF,
        LineEnding::CrLf => der::pem::LineEnding::CRLF,
    };
    der::EncodePem::to_pem(&cr, le).map_err(|_| ConversionError::DerEncode)
}

/// Relies on `der::DecodePem` for `x509_cert::request::CertReq`.
#[verifier::external_body]
pub(crate) fn cert_req_pem_to_der(pem: &str) -> (r: Result<Vec<u8>, ConversionError>)
    ensures
        r matches Ok(b) ==> cert_req_pem_parsed(pem@) == Some(b@) && canonical_der(b@),
        r is Err ==> cert_req_pem_parsed(pem@) is None,
{
    let cr: x509_cert::request::CertReq = der::DecodePem::from_pem(pem)
        .map_err(|_| ConversionError::DerDecode)?;
    Encode::to_der(&cr).map_err(|_| ConversionError::DerDecode)
}

/// Relies on `x509_cert::certificate::TbsCertificateInner`'s DER encoding
/// with version v3 and on `x509_cert::serial_number::SerialNumber::new`,
/// which prepends a zero octet when the top bit of the magnitude is set.
/// The raw DER fields must be canonical (see [`canonical_der`]).
#[verifier::external_body]
pub(crate) fn tbs_certificate_to_der(
    serial: &Vec<u8>,
    alg_der: &Vec<u8>,
    issuer_der: &Vec<u8>,
    validity_der: &Vec<u8>,
    subject_der: &Vec<u8>,
    spki_der: &Vec<u8>,
    exts_der: &Vec<u8>,
) -> (r: Result<Vec<u8>, ConversionError>)
    requires
        serial@.len() >= 1,
        serial@[0] != 0,
        serial@.len() + (if serial@[0] >= 0x80 { 1int } else { 0int }) <= 20,
        canonical_der(alg_der@),
        canonical_der(issuer_der@),
        canonical_der(validity_der@),
        canonical_der(subject_der@),
        canonical_der(spki_der@),
        canonical_der(exts_der@),
    ensures
        r matches Ok(b) ==> tbs_certificate_der(
            serial@,
            alg_der@,
            issuer_der@,
            validity_der@,
            subject_der@,
            spki_der@,
            exts_der@,
        ) == Some(b@) && tbs_certificate_parsed(b@) == Some(
            TbsPartsValue {
                version: 2,
                serial: int_pad(serial@),
                alg_der: alg_der@,
                issuer_der: issuer_der@,
                validity_der: validity_der@,
                subject_der: subject_der@,
                spki_der: spki_der@,
                exts_der: Some(exts_der@),
            },
        ) && canonical_der(b@),
        r is Err ==> tbs_certificate_der(
            serial@,
            alg_der@,
            issuer_der@,
            validity_der@,
            subject_der@,
            spki_der@,
            exts_der@,
        ) is None,
{
    let build: Result<Vec<u8>, der::Error> = (|| {
        Encode::to_der(&TbsCertificate {
            version: x509_cert::certificate::Version::V3,
            serial_number: SerialNumber::new(serial)?,
            signature: Decode::from_der(alg_der)?, issuer: Decode::from_der(issuer_der)?,
            validity: Decode::from_der(validity_der)?, subject: Decode::from_der(subject_der)?,
            subject_public_key_info: Decode::from_der(spki_der)?,
            issuer_unique_id: None, subject_unique_id: None,
            extensions: Some(Decode::from_der(exts_der)?),
        })
    })();
    build.map_err(|_| ConversionError::DerEncode)
}

/// Relies on `x509_cert::certificate::TbsCertificateInner::from_der`; the
/// serial is handed out as the decoded INTEGER's content octets.
#[verifier::external_body]
pub(crate) fn tbs_certificate_from_der(b: &[u8]) -> (r: Result<TbsParts, ConversionError>)
    ensures
        r matches Ok(p) ==> tbs_certificate_parsed(b@) == Some(p@) && canonical_der(p@.alg_der)
            && canonical_der(p@.issuer_der) && canonical_der(p@.validity_der) && canonical_der(
            p@.subject_der,
        ) && canonical_der(p@.spki_der) && (p@.exts_der matches Some(e) ==> canonical_der(e)),
        r is Err ==> tbs_certificate_parsed(b@) is None,
{
    let t: TbsCertificate = Decode::from_der(b).map_err(|_| ConversionError::DerDecode)?;
    let read: Result<TbsParts, der::Error> = (|| {
        Ok(TbsParts {
            version: t.version as u8, serial: t.serial_number.as_bytes().to_vec(),
            alg_der: Encode::to_der(&t.signature)?, issuer_der: Encode::to_der(&t.issuer)?,
            validity_der: Encode::to_der(&t.validity)?, subject_der: Encode::to_der(&t.subject)?,
            spki_der: Encode::to_der(&t.subject_public_key_info)?,
            exts_der: match &t.extensions { Some(e) => Some(Encode::to_der(e)?), None => None },
        })
    })();
    read.map_err(|_| ConversionError::DerDecode)
}

/// Relies on `x509_cert::Certificate`'s DER encoding and on
/// `der::asn1::BitString::from_bytes` (no unused bits). The raw DER fields
/// must be canonical (see [`canonical_der`]).
#[verifier::external_body]
pub(crate) fn certificate_to_der(tbs_der: &Vec<u8>, alg_der: &Vec<u8>, sig_bits: &Vec<u8>) -> (r: Result<
    Vec<u8>,
    ConversionError,
>)
    requires
        canonical_der(tbs_der@),
        canonical_der(alg_der@),
    ensures
        r matches Ok(b) ==> certificate_der(tbs_der@, alg_der@, sig_bits@) == Some(b@)
            && certificate_parsed(b@) == Some((tbs_der@, alg_der@, sig_bits@)) && canonical_der(
            b@,
        ),
        r is Err ==> certificate_der(tbs_der@, alg_der@, sig_bits@) is None,
{
    let tbs_certificate = Decode::from_der(tbs_der).map_err(|_| ConversionError::DerEncode)?;
    let signature_algorithm = Decode::from_der(alg_der)
        .map_err(|_| ConversionError::DerEncode)?;
    let signature = der::asn1::BitString::from_bytes(sig_bits)
        .map_err(|_| ConversionError::DerEncode)?;
    Encode::to_der(&x509_cert::Certificate { tbs_certificate, signature_algorithm, signature })
        .map_err(|_| ConversionError::DerEncode)
}

/// Relies on `x509_cert::Certificate::from_der`.
#[verifier::external_body]
pub(crate) fn certificate_from_der(b: &[u8]) -> (r: Result<(Vec<u8>, Vec<u8>, Vec<u8>), ConversionError>)
    ensures
        r matches Ok(p) ==> certificate_parsed(b@) == Some((p.0@, p.1@, p.2@)) && canonical_der(
            p.0@,
        ) && canonical_der(p.1@),
        r is Err ==> certificate_parsed(b@) is None,
{
    let c: x509_cert::Certificate = match Decode::from_der(b) {
        Ok(v) => v,
        Err(_) => return Err(ConversionError::DerDecode),
    };
    Ok((
        Encode::to_der(&c.tbs_certificate).map_err(|_| ConversionError::DerDecode)?,
        Encode::to_der(&c.signature_algorithm).map_err(|_| ConversionError::DerDecode)?,
        c.signature.raw_bytes().to_vec(),
    ))
}

} // verus!
