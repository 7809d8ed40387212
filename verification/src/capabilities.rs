//! Certificate capabilities: the CA role flag with its optional path length
//! constraint, and the key usage flags. Capabilities convert losslessly to
//! and from the generic extension container of the wire format; the two
//! extension payloads (basic constraints and key usage) are encoded and
//! decoded byte-exactly by this module.
use vstd::prelude::*;

verus! {

use crate::Constrained;
use crate::errors::{ConstraintError, ConversionError};

/// The basic constraints of a certificate: whether the subject is a
/// certificate authority (a home server) and, for authorities, how long a
/// certification path it may head.
#[derive(Debug, Clone, Copy, PartialEq, Eq)]
pub struct BasicConstraints {
    /// True when the subject is a certificate authority.
    pub ca: bool,
    /// The longest certification path this authority may head, if bounded.
    /// Only authorities may carry a bound, and the profile caps it at 127.
    pub path_length: Option<u64>,
}

/// The key usage flags, one bit each in the wire encoding.
#[derive(Debug, Clone, Copy, PartialEq, Eq, Structural)]
pub struct KeyUsages {
    /// The key may verify ordinary signatures.
    pub digital_signature: bool,
    /// The key may verify content-commitment (non-repudiation) signatures.
    pub content_commitment: bool,
    /// The key may encipher other keys.
    pub key_encipherment: bool,
    /// The key may encipher user data directly.
    pub data_encipherment: bool,
    /// The key may be used in key agreement.
    pub key_agreement: bool,
    /// The key may verify signatures on certificates.
    pub key_cert_sign: bool,
    /// The key may verify signatures on revocation lists.
    pub crl_sign: bool,
    /// With key agreement: encipher only.
    pub encipher_only: bool,
    /// With key agreement: decipher only.
    pub decipher_only: bool,
}

impl KeyUsages {
    /// The flag set with every flag cleared.
    pub fn none() -> (r: KeyUsages)
        ensures
            r == (KeyUsages {
                digital_signature: false,
                content_commitment: false,
                key_encipherment: false,
                data_encipherment: false,
                key_agreement: false,
                key_cert_sign: false,
                crl_sign: false,
                encipher_only: false,
                decipher_only: false,
            }),
    {
        KeyUsages {
            digital_signature: false,
            content_commitment: false,
            key_encipherment: false,
            data_encipherment: false,
            key_agreement: false,
            key_cert_sign: false,
            crl_sign: false,
            encipher_only: false,
            decipher_only: false,
        }
    }
}

/// The capability set a subject requests and a certificate grants.
#[derive(Debug, Clone, Copy, PartialEq, Eq)]
pub struct Capabilities {
    /// CA role and path length.
    pub basic_constraints: BasicConstraints,
    /// Key usage flags.
    pub key_usage: KeyUsages,
}

/// The validation verdict for capabilities: a path length bound and the
/// certificate-signing usage are reserved for authorities, and the bound
/// must fit in one content octet of the wire form.
pub open spec fn capabilities_spec_validate(c: Capabilities) -> Result<(), ConstraintError> {
    if c.basic_constraints.path_length is Some && !c.basic_constraints.ca {
        Err(ConstraintError::PathLengthWithoutCa)
    } else if c.basic_constraints.path_length matches Some(l) && l > 127 {
        Err(ConstraintError::PathLengthTooLarge)
    } else if c.key_usage.key_cert_sign && !c.basic_constraints.ca {
        Err(ConstraintError::KeyCertSignWithoutCa)
    } else {
        Ok(())
    }
}

impl Constrained for Capabilities {
    open spec fn spec_validate(&self) -> Result<(), ConstraintError> {
        capabilities_spec_validate(*self)
    }

    fn validate(&self) -> (r: Result<(), ConstraintError>) {
        if self.basic_constraints.path_length.is_some() && !self.basic_constraints.ca {
            return Err(ConstraintError::PathLengthWithoutCa);
        }
        if let Some(l) = self.basic_constraints.path_length {
            if l > 127 {
                return Err(ConstraintError::PathLengthTooLarge);
            }
        }
        if self.key_usage.key_cert_sign && !self.basic_constraints.ca {
            return Err(ConstraintError::KeyCertSignWithoutCa);
        }
        Ok(())
    }
}

/// The DER payload of the basic-constraints extension: a SEQUENCE holding
/// the CA boolean (omitted when false, as DER demands of a DEFAULT FALSE
/// field) and the optional one-octet path length INTEGER.
pub open spec fn basic_constraints_bytes(bc: BasicConstraints) -> Seq<u8> {
    match bc.path_length {
        Some(l) => if bc.ca {
            seq![0x30u8, 6, 1, 1, 0xff, 2, 1, l as u8]
        } else {
            seq![0x30u8, 3, 2, 1, l as u8]
        },
        None => if bc.ca {
            seq![0x30u8, 3, 1, 1, 0xff]
        } else {
            seq![0x30u8, 0]
        },
    }
}

/// What decoding a basic-constraints payload yields: exactly the canonical
/// encodings above are accepted, every other byte string is rejected.
pub open spec fn basic_constraints_parse(b: Seq<u8>) -> Option<BasicConstraints> {
    let bc = if b.len() == 2 {
        Some(BasicConstraints { ca: false, path_length: None })
    } else if b.len() == 5 && b[2] == 1 {
        Some(BasicConstraints { ca: true, path_length: None })
    } else if b.len() == 5 && b[2] == 2 && b[4] <= 127 {
        Some(BasicConstraints { ca: false, path_length: Some(b[4] as u64) })
    } else if b.len() == 8 && b[7] <= 127 {
        Some(BasicConstraints { ca: true, path_length: Some(b[7] as u64) })
    } else {
        None
    };
    match bc {
        Some(v) => if basic_constraints_bytes(v) == b {
            Some(v)
        } else {
            None
        },
        None => None,
    }
}

/// The first content octet of the key-usage BIT STRING: one bit per flag,
/// most significant first.
pub open spec fn key_usage_byte0(k: KeyUsages) -> u8 {
    ((if k.digital_signature { 128u8 } else { 0u8 }) + (if k.content_commitment { 64u8 } else { 0u8 })
        + (if k.key_encipherment { 32u8 } else { 0u8 }) + (if k.data_encipherment { 16u8 } else { 0u8 })
        + (if k.key_agreement { 8u8 } else { 0u8 }) + (if k.key_cert_sign { 4u8 } else { 0u8 })
        + (if k.crl_sign { 2u8 } else { 0u8 }) + (if k.encipher_only { 1u8 } else { 0u8 })) as u8
}

/// How many trailing bits of the first content octet are unused, given that
/// the decipher-only flag is clear: the count up to the last set flag.
pub open spec fn key_usage_unused_bits(k: KeyUsages) -> u8 {
    if k.encipher_only {
        0u8
    } else if k.crl_sign {
        1u8
    } else if k.key_cert_sign {
        2u8
    } else if k.key_agreement {
        3u8
    } else if k.data_encipherment {
        4u8
    } else if k.key_encipherment {
        5u8
    } else if k.content_commitment {
        6u8
    } else {
        7u8
    }
}

/// The DER payload of the key-usage extension: a BIT STRING with the named
/// bits of the set flags and every trailing zero bit trimmed.
pub open spec fn key_usage_bytes(k: KeyUsages) -> Seq<u8> {
    if k.decipher_only {
        seq![3u8, 3, 7, key_usage_byte0(k), 0x80]
    } else if key_usage_byte0(k) == 0 {
        seq![3u8, 1, 0]
    } else {
        seq![3u8, 2, key_usage_unused_bits(k), key_usage_byte0(k)]
    }
}

/// The flags named by one content octet, plus the given decipher-only flag.
pub open spec fn key_usage_flags_of_byte(v: u8, decipher: bool) -> KeyUsages {
    KeyUsages {
        digital_signature: v / 128 % 2 == 1,
        content_commitment: v / 64 % 2 == 1,
        key_encipherment: v / 32 % 2 == 1,
        data_encipherment: v / 16 % 2 == 1,
        key_agreement: v / 8 % 2 == 1,
        key_cert_sign: v / 4 % 2 == 1,
        crl_sign: v / 2 % 2 == 1,
        encipher_only: v % 2 == 1,
        decipher_only: decipher,
    }
}

/// What decoding a key-usage payload yields: the flags read from the bit
/// string, accepted only when re-encoding them gives the input back, so
/// only canonical encodings are accepted.
pub open spec fn key_usage_parse(b: Seq<u8>) -> Option<KeyUsages> {
    let k = if b.len() == 3 {
        Some(key_usage_flags_of_byte(0, false))
    } else if b.len() == 4 {
        Some(key_usage_flags_of_byte(b[3], false))
    } else if b.len() == 5 {
        Some(key_usage_flags_of_byte(b[3], true))
    } else {
        None
    };
    match k {
        Some(v) => if key_usage_bytes(v) == b {
            Some(v)
        } else {
            None
        },
        None => None,
    }
}

/// Encodes the basic-constraints payload.
pub fn encode_basic_constraints(bc: &BasicConstraints) -> (r: Vec<u8>)
    requires
        bc.path_length matches Some(l) ==> l <= 127,
    ensures
        r@ == basic_constraints_bytes(*bc),
{
    let mut v: Vec<u8> = Vec::new();
    v.push(0x30);
    match bc.path_length {
        Some(l) => {
            if bc.ca {
                v.push(6);
                v.push(1);
                v.push(1);
                v.push(0xff);
                v.push(2);
                v.push(1);
                v.push(l as u8);
            } else {
                v.push(3);
                v.push(2);
                v.push(1);
                v.push(l as u8);
            }
        },
        None => {
            if bc.ca {
                v.push(3);
                v.push(1);
                v.push(1);
                v.push(0xff);
            } else {
                v.push(0);
            }
        },
    }
    proof {
        assert(v@ =~= basic_constraints_bytes(*bc));
    }
    v
}

/// True when two byte strings hold the same bytes.
pub fn bytes_eq(a: &[u8], b: &[u8]) -> (r: bool)
    ensures
        r == (a@ == b@),
{
    if a.len() != b.len() {
        return false;
    }
    for i in 0..a.len()
        invariant
            a@.len() == b@.len(),
            forall|j: int| 0 <= j < i ==> a@[j] == b@[j],
    {
        if a[i] != b[i] {
            return false;
        }
    }
    proof {
        assert(a@ =~= b@);
    }
    true
}

/// Decodes a basic-constraints payload, accepting only the canonical forms.
pub fn decode_basic_constraints(b: &[u8]) -> (r: Option<BasicConstraints>)
    ensures
        r == basic_constraints_parse(b@),
{
    let bc: Option<BasicConstraints> = if b.len() == 2 {
        Some(BasicConstraints { ca: false, path_length: None })
    } else if b.len() == 5 && b[2] == 1 {
        Some(BasicConstraints { ca: true, path_length: None })
    } else if b.len() == 5 && b[2] == 2 && b[4] <= 127 {
        Some(BasicConstraints { ca: false, path_length: Some(b[4] as u64) })
    } else if b.len() == 8 && b[7] <= 127 {
        Some(BasicConstraints { ca: true, path_length: Some(b[7] as u64) })
    } else {
        None
    };
    match bc {
        Some(v) => {
            let enc = encode_basic_constraints(&v);
            if bytes_eq(enc.as_slice(), b) {
                Some(v)
            } else {
                None
            }
        },
        None => None,
    }
}

/// Encodes the key-usage payload.
#[verifier::rlimit(50)]
pub fn encode_key_usage(k: &KeyUsages) -> (r: Vec<u8>)
    ensures
        r@ == key_usage_bytes(*k),
{
    let byte0: u8 = (if k.digital_signature { 128u8 } else { 0u8 })
        + (if k.content_commitment { 64u8 } else { 0u8 })
        + (if k.key_encipherment { 32u8 } else { 0u8 })
        + (if k.data_encipherment { 16u8 } else { 0u8 })
        + (if k.key_agreement { 8u8 } else { 0u8 })
        + (if k.key_cert_sign { 4u8 } else { 0u8 })
        + (if k.crl_sign { 2u8 } else { 0u8 })
        + (if k.encipher_only { 1u8 } else { 0u8 });
    let mut v: Vec<u8> = Vec::new();
    v.push(3);
    if k.decipher_only {
        v.push(3);
        v.push(7);
        v.push(byte0);
        v.push(0x80);
    } else if byte0 == 0 {
        v.push(1);
        v.push(0);
    } else {
        let unused: u8 = if k.encipher_only {
            0
        } else if k.crl_sign {
            1
        } else if k.key_cert_sign {
            2
        } else if k.key_agreement {
            3
        } else if k.data_encipherment {
            4
        } else if k.key_encipherment {
            5
        } else if k.content_commitment {
            6
        } else {
            7
        };
        v.push(2);
        v.push(unused);
        v.push(byte0);
    }
    proof {
        assert(v@ =~= key_usage_bytes(*k));
    }
    v
}

/// Decodes a key-usage payload, accepting only the canonical forms.
pub fn decode_key_usage(b: &[u8]) -> (r: Option<KeyUsages>)
    ensures
        r == key_usage_parse(b@),
{
    let k: Option<KeyUsages> = if b.len() == 3 {
        Some(key_usage_flags_of(0, false))
    } else if b.len() == 4 {
        Some(key_usage_flags_of(b[3], false))
    } else if b.len() == 5 {
        Some(key_usage_flags_of(b[3], true))
    } else {
        None
    };
    match k {
        Some(v) => {
            let enc = encode_key_usage(&v);
            if bytes_eq(enc.as_slice(), b) {
                Some(v)
            } else {
                None
            }
        },
        None => None,
    }
}

/// Reads the flags named by one content octet.
fn key_usage_flags_of(v: u8, decipher: bool) -> (r: KeyUsages)
    ensures
        r == key_usage_flags_of_byte(v, decipher),
{
    KeyUsages {
        digital_signature: v / 128 % 2 == 1,
        content_commitment: v / 64 % 2 == 1,
        key_encipherment: v / 32 % 2 == 1,
        data_encipherment: v / 16 % 2 == 1,
        key_agreement: v / 8 % 2 == 1,
        key_cert_sign: v / 4 % 2 == 1,
        crl_sign: v / 2 % 2 == 1,
        encipher_only: v % 2 == 1,
        decipher_only: decipher,
    }
}

/// Reading back the octet written for a flag set recovers the flag set.
pub proof fn lemma_key_usage_byte0_inverts(k: KeyUsages)
    ensures
        key_usage_flags_of_byte(key_usage_byte0(k), k.decipher_only) == k,
{
    let v = key_usage_byte0(k);
    assert(key_usage_flags_of_byte(v, k.decipher_only) == k) by (nonlinear_arith)
        requires
            v == key_usage_byte0(k),
    ;
}

/// One certificate extension as it crosses the wire boundary: its object
/// identifier in dotted-decimal form, its criticality, and its DER payload.
#[derive(Debug, Clone, PartialEq, Eq)]
pub struct ExtensionData {
    /// The extension's object identifier, dotted decimal.
    pub oid: String,
    /// Whether a consumer that does not recognize the extension must reject
    /// the certificate.
    pub critical: bool,
    /// The DER payload carried inside the extension's octet string.
    pub value: Vec<u8>,
}

/// The abstract value of an [`ExtensionData`].
#[verifier::ext_equal]
pub struct ExtensionDataValue {
    /// The object identifier's characters.
    pub oid: Seq<char>,
    /// The criticality flag.
    pub critical: bool,
    /// The payload bytes.
    pub value: Seq<u8>,
}

impl View for ExtensionData {
    type V = ExtensionDataValue;

    open spec fn view(&self) -> ExtensionDataValue {
        ExtensionDataValue { oid: self.oid@, critical: self.critical, value: self.value@ }
    }
}

/// The object identifier of the basic-constraints extension.
pub open spec fn basic_constraints_oid() -> Seq<char> {
    "2.5.29.19"@
}

/// The object identifier of the key-usage extension.
pub open spec fn key_usage_oid() -> Seq<char> {
    "2.5.29.15"@
}

/// The extension list a capability set converts to: basic constraints and
/// key usage, both critical, each carrying its canonical payload.
pub open spec fn capabilities_to_extensions_spec(c: Capabilities) -> Seq<ExtensionDataValue> {
    seq![
        ExtensionDataValue {
            oid: basic_constraints_oid(),
            critical: true,
            value: basic_constraints_bytes(c.basic_constraints),
        },
        ExtensionDataValue {
            oid: key_usage_oid(),
            critical: true,
            value: key_usage_bytes(c.key_usage),
        },
    ]
}

/// The capability set read from an extension list. An unrecognized critical
/// extension is rejected; an unrecognized non-critical extension is ignored
/// (the conservative policy this profile documents and fixes). Both known
/// extensions must appear exactly once and carry canonical payloads.
pub open spec fn capabilities_from_extensions_spec(e: Seq<ExtensionDataValue>) -> Result<
    Capabilities,
    ConversionError,
> {
    if exists|i: int|
        0 <= i < e.len() && (#[trigger] e[i]).critical && e[i].oid != basic_constraints_oid()
            && e[i].oid != key_usage_oid() {
        Err(ConversionError::UnknownCriticalExtension)
    } else if !(exists|i: int| 0 <= i < e.len() && (#[trigger] e[i]).oid
        == basic_constraints_oid()) {
        Err(ConversionError::MissingExtension)
    } else if exists|i: int, j: int|
        0 <= i < j < e.len() && (#[trigger] e[i]).oid == basic_constraints_oid() && (
        #[trigger] e[j]).oid == basic_constraints_oid() {
        Err(ConversionError::DuplicateExtension)
    } else if !(exists|i: int| 0 <= i < e.len() && (#[trigger] e[i]).oid == key_usage_oid()) {
        Err(ConversionError::MissingExtension)
    } else if exists|i: int, j: int|
        0 <= i < j < e.len() && (#[trigger] e[i]).oid == key_usage_oid() && (#[trigger] e[j]).oid
            == key_usage_oid() {
        Err(ConversionError::DuplicateExtension)
    } else {
        let bi = choose|i: int| 0 <= i < e.len() && (#[trigger] e[i]).oid
            == basic_constraints_oid();
        let ki = choose|i: int| 0 <= i < e.len() && (#[trigger] e[i]).oid == key_usage_oid();
        match basic_constraints_parse(e[bi].value) {
            Some(bc) => match key_usage_parse(e[ki].value) {
                Some(ku) => Ok(Capabilities { basic_constraints: bc, key_usage: ku }),
                None => Err(ConversionError::InvalidExtensionValue),
            },
            None => Err(ConversionError::InvalidExtensionValue),
        }
    }
}

impl Capabilities {
    /// Converts the capability set into the extension list of the wire form.
    pub fn to_extensions(&self) -> (r: Vec<ExtensionData>)
        requires
            self.basic_constraints.path_length matches Some(l) ==> l <= 127,
        ensures
            r@.map_values(|x: ExtensionData| x@) == capabilities_to_extensions_spec(*self),
    {
        let mut out: Vec<ExtensionData> = Vec::new();
        out.push(
            ExtensionData {
                oid: "2.5.29.19".to_owned(),
                critical: true,
                value: encode_basic_constraints(&self.basic_constraints),
            },
        );
        out.push(
            ExtensionData {
                oid: "2.5.29.15".to_owned(),
                critical: true,
                value: encode_key_usage(&self.key_usage),
            },
        );
        proof {
            assert(out@.map_values(|x: ExtensionData| x@) =~= capabilities_to_extensions_spec(
                *self,
            ));
        }
        out
    }

    /// Reads a capability set back from an extension list, applying the
    /// profile's rejection rules.
    pub fn from_extensions(exts: &Vec<ExtensionData>) -> (r: Result<Capabilities, ConversionError>)
        ensures
            r == capabilities_from_extensions_spec(exts@.map_values(|x: ExtensionData| x@)),
    {
        let ghost e = exts@.map_values(|x: ExtensionData| x@);
        let bc_oid: String = "2.5.29.19".to_owned();
        let ku_oid: String = "2.5.29.15".to_owned();
        let n = exts.len();
        let mut bc_at: usize = 0;
        let mut bc_count: usize = 0;
        let mut ku_at: usize = 0;
        let mut ku_count: usize = 0;
        for i in 0..n
            invariant
                n == e.len(),
                e == exts@.map_values(|x: ExtensionData| x@),
                bc_oid@ == basic_constraints_oid(),
                ku_oid@ == key_usage_oid(),
                bc_count <= i,
                ku_count <= i,
                forall|j: int|
                    0 <= j < i ==> !((#[trigger] e[j]).critical && e[j].oid
                        != basic_constraints_oid() && e[j].oid != key_usage_oid()),
                bc_count == 0 <==> !(exists|j: int|
                    0 <= j < i && (#[trigger] e[j]).oid == basic_constraints_oid()),
                ku_count == 0 <==> !(exists|j: int|
                    0 <= j < i && (#[trigger] e[j]).oid == key_usage_oid()),
                bc_count >= 2 <==> (exists|j: int, k: int|
                    0 <= j < k < i && (#[trigger] e[j]).oid == basic_constraints_oid() && (
                    #[trigger] e[k]).oid == basic_constraints_oid()),
                ku_count >= 2 <==> (exists|j: int, k: int|
                    0 <= j < k < i && (#[trigger] e[j]).oid == key_usage_oid() && (
                    #[trigger] e[k]).oid == key_usage_oid()),
                bc_count >= 1 ==> bc_at < i && e[bc_at as int].oid == basic_constraints_oid(),
                ku_count >= 1 ==> ku_at < i && e[ku_at as int].oid == key_usage_oid(),
        {
            let is_bc = exts[i].oid == bc_oid;
            let is_ku = exts[i].oid == ku_oid;
            proof {
                assert(e[i as int] == exts@[i as int]@);
            }
            if exts[i].critical && !is_bc && !is_ku {
                return Err(ConversionError::UnknownCriticalExtension);
            }
            if is_bc {
                if bc_count == 0 {
                    bc_at = i;
                }
                bc_count = if bc_count < 2 {
                    bc_count + 1
                } else {
                    bc_count
                };
            }
            if is_ku {
                if ku_count == 0 {
                    ku_at = i;
                }
                ku_count = if ku_count < 2 {
                    ku_count + 1
                } else {
                    ku_count
                };
            }
        }
        if bc_count == 0 {
            return Err(ConversionError::MissingExtension);
        }
        if bc_count >= 2 {
            return Err(ConversionError::DuplicateExtension);
        }
        if ku_count == 0 {
            return Err(ConversionError::MissingExtension);
        }
        if ku_count >= 2 {
            return Err(ConversionError::DuplicateExtension);
        }
        proof {
            let bi = choose|i: int| 0 <= i < e.len() && (#[trigger] e[i]).oid
                == basic_constraints_oid();
            assert(bi == bc_at as int);
            let ki = choose|i: int| 0 <= i < e.len() && (#[trigger] e[i]).oid == key_usage_oid();
            assert(ki == ku_at as int);
        }
        let bc = match decode_basic_constraints(exts[bc_at].value.as_slice()) {
            Some(bc) => bc,
            None => {
                return Err(ConversionError::InvalidExtensionValue);
            },
        };
        let ku = match decode_key_usage(exts[ku_at].value.as_slice()) {
            Some(ku) => ku,
            None => {
                return Err(ConversionError::InvalidExtensionValue);
            },
        };
        Ok(Capabilities { basic_constraints: bc, key_usage: ku })
    }
}

/// The two extension identifiers are in canonical dotted-decimal form.
pub proof fn lemma_extension_oids_canonical()
    ensures
        crate::types::canonical_oid(basic_constraints_oid()),
        crate::types::canonical_oid(key_usage_oid()),
{
    reveal_strlit("2.5.29.19");
    reveal_strlit("2.5.29.15");
    assert(crate::types::canonical_oid("2.5.29.19"@));
    assert(crate::types::canonical_oid("2.5.29.15"@));
}

/// Reading back the extension list written for a valid capability set
/// recovers the capability set: conversion through the generic extension
/// container is lossless.
pub proof fn lemma_capabilities_round_trip(c: Capabilities)
    requires
        capabilities_spec_validate(c) is Ok,
    ensures
        capabilities_from_extensions_spec(capabilities_to_extensions_spec(c)) == Ok::<Capabilities, ConversionError>(c),
{
    let e = capabilities_to_extensions_spec(c);
    reveal_strlit("2.5.29.19");
    reveal_strlit("2.5.29.15");
    assert(basic_constraints_oid()[8] == '9' && key_usage_oid()[8] == '5');
    assert(basic_constraints_oid() != key_usage_oid());
    assert(e[0].oid == basic_constraints_oid() && e[1].oid == key_usage_oid());
    assert(e.len() == 2);
    lemma_basic_constraints_round_trip(c.basic_constraints);
    lemma_key_usage_round_trip(c.key_usage);
    let bi = choose|i: int| 0 <= i < e.len() && (#[trigger] e[i]).oid == basic_constraints_oid();
    let ki = choose|i: int| 0 <= i < e.len() && (#[trigger] e[i]).oid == key_usage_oid();
    assert(bi == 0 && ki == 1);
}

/// Decoding the canonical encoding of a basic-constraints value recovers the
/// value: the byte codec round-trips for every value the profile accepts.
pub proof fn lemma_basic_constraints_round_trip(bc: BasicConstraints)
    requires
        bc.path_length matches Some(l) ==> l <= 127,
    ensures
        basic_constraints_parse(basic_constraints_bytes(bc)) == Some(bc),
{
    let b = basic_constraints_bytes(bc);
    match bc.path_length {
        Some(l) => {
            if bc.ca {
                assert(b.len() == 8);
            } else {
                assert(b.len() == 5 && b[2] == 2);
                assert((l as u8) as u64 == l);
            }
        },
        None => {
            if bc.ca {
                assert(b.len() == 5 && b[2] == 1);
            } else {
                assert(b.len() == 2);
            }
        },
    }
}

/// Decoding the canonical encoding of a key-usage flag set recovers the flag
/// set: the byte codec round-trips for every flag set.
pub proof fn lemma_key_usage_round_trip(k: KeyUsages)
    ensures
        key_usage_parse(key_usage_bytes(k)) == Some(k),
{
    let b = key_usage_bytes(k);
    lemma_key_usage_byte0_inverts(k);
    if k.decipher_only {
        assert(b.len() == 5);
        assert(b[3] == key_usage_byte0(k));
    } else if key_usage_byte0(k) == 0 {
        assert(b.len() == 3);
        assert(key_usage_flags_of_byte(0, false) == k) by {
            lemma_key_usage_byte0_inverts(k);
        }
    } else {
        assert(b.len() == 4);
        assert(b[3] == key_usage_byte0(k));
    }
}

} // verus!
