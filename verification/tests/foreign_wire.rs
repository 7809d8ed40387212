//! Decoding wire structures produced outside the library: the profile's
//! rejection rules for foreign names, attributes, extensions and keys.
use der::{Decode, Encode};
use polyproto::capabilities::{Capabilities, ExtensionData};
use polyproto::errors::{ConstraintError, ConversionError};
use polyproto::idcsr::IdCsr;
use polyproto::name::{Name, NameComponent, NameComponentKind};
use polyproto::key::PublicKey as _;
use polyproto::raw::{RawPrivateKey, RawPublicKey, RawSignature};
use std::str::FromStr;

fn comp(kind: NameComponentKind, value: &str) -> NameComponent {
    NameComponent { kind, value: value.to_string() }
}

fn actor_csr_der() -> Vec<u8> {
    let subject = Name {
        components: vec![
            comp(NameComponentKind::CommonName, "alice"),
            comp(NameComponentKind::DomainComponent, "example"),
            comp(NameComponentKind::DomainComponent, "com"),
        ],
    };
    let caps = Capabilities {
        basic_constraints: polyproto::capabilities::BasicConstraints {
            ca: false,
            path_length: None,
        },
        key_usage: polyproto::capabilities::KeyUsages {
            digital_signature: true,
            content_commitment: false,
            key_encipherment: false,
            data_encipherment: false,
            key_agreement: false,
            key_cert_sign: false,
            crl_sign: false,
            encipher_only: false,
            decipher_only: false,
        },
    };
    let key = RawPrivateKey { public_key: RawPublicKey { key_bits: vec![1, 2, 3] } };
    IdCsr::<RawSignature, RawPublicKey>::new(subject, &key, caps)
        .unwrap()
        .to_der()
        .unwrap()
}

#[test]
fn foreign_name_attribute_rejected() {
    let mut req = x509_cert::request::CertReq::from_der(&actor_csr_der()).unwrap();
    req.info.subject =
        x509_cert::name::Name::from_str("C=US,CN=alice").unwrap();
    let der = req.to_der().unwrap();
    let r = IdCsr::<RawSignature, RawPublicKey>::from_der(&der);
    assert_eq!(r.unwrap_err(), ConversionError::UnsupportedNameAttribute);
}

#[test]
fn composite_rdn_rejected() {
    let mut req = x509_cert::request::CertReq::from_der(&actor_csr_der()).unwrap();
    req.info.subject =
        x509_cert::name::Name::from_str("CN=alice+DC=example,DC=com").unwrap();
    let der = req.to_der().unwrap();
    let r = IdCsr::<RawSignature, RawPublicKey>::from_der(&der);
    assert_eq!(r.unwrap_err(), ConversionError::CompositeRdn);
}

#[test]
fn missing_attribute_rejected() {
    let mut req = x509_cert::request::CertReq::from_der(&actor_csr_der()).unwrap();
    req.info.attributes = der::asn1::SetOfVec::new();
    let der = req.to_der().unwrap();
    let r = IdCsr::<RawSignature, RawPublicKey>::from_der(&der);
    assert_eq!(r.unwrap_err(), ConversionError::MissingAttribute);
}

#[test]
fn mismatched_key_algorithm_rejected() {
    let mut req = x509_cert::request::CertReq::from_der(&actor_csr_der()).unwrap();
    req.info.public_key.algorithm.oid = "1.2.840.10045.2.1".parse().unwrap();
    let der = req.to_der().unwrap();
    let r = IdCsr::<RawSignature, RawPublicKey>::from_der(&der);
    assert_eq!(r.unwrap_err(), ConversionError::InvalidPublicKey);
}

#[test]
fn unknown_critical_extension_rejected() {
    let exts = vec![
        ExtensionData { oid: "1.2.3.4".to_string(), critical: true, value: vec![0x05, 0x00] },
    ];
    assert_eq!(
        Capabilities::from_extensions(&exts),
        Err(ConversionError::UnknownCriticalExtension)
    );
}

#[test]
fn unknown_noncritical_extension_ignored() {
    let caps = Capabilities {
        basic_constraints: polyproto::capabilities::BasicConstraints {
            ca: true,
            path_length: None,
        },
        key_usage: polyproto::capabilities::KeyUsages {
            digital_signature: false,
            content_commitment: false,
            key_encipherment: false,
            data_encipherment: false,
            key_agreement: false,
            key_cert_sign: true,
            crl_sign: false,
            encipher_only: false,
            decipher_only: false,
        },
    };
    let mut exts = caps.to_extensions();
    exts.push(ExtensionData {
        oid: "1.2.3.4".to_string(),
        critical: false,
        value: vec![0x05, 0x00],
    });
    assert_eq!(Capabilities::from_extensions(&exts), Ok(caps));
}

#[test]
fn duplicate_and_missing_extensions_rejected() {
    let bc = ExtensionData {
        oid: "2.5.29.19".to_string(),
        critical: true,
        value: polyproto::capabilities::encode_basic_constraints(
            &polyproto::capabilities::BasicConstraints { ca: false, path_length: None },
        ),
    };
    assert_eq!(
        Capabilities::from_extensions(&vec![bc.clone(), bc.clone()]),
        Err(ConversionError::DuplicateExtension)
    );
    assert_eq!(
        Capabilities::from_extensions(&vec![bc.clone()]),
        Err(ConversionError::MissingExtension)
    );
    assert_eq!(
        Capabilities::from_extensions(&vec![]),
        Err(ConversionError::MissingExtension)
    );
}

#[test]
fn invalid_extension_payload_rejected() {
    let bad_bc = ExtensionData {
        oid: "2.5.29.19".to_string(),
        critical: true,
        value: vec![0xde, 0xad],
    };
    let ku = ExtensionData {
        oid: "2.5.29.15".to_string(),
        critical: true,
        value: vec![0x03, 0x01, 0x00],
    };
    assert_eq!(
        Capabilities::from_extensions(&vec![bad_bc, ku]),
        Err(ConversionError::InvalidExtensionValue)
    );
}

#[test]
fn tampered_signature_still_decodes_but_fails_verification() {
    // Decoding performs no signature verification; a flipped signature bit
    // survives the trip and is caught only by the explicit check.
    let mut req = x509_cert::request::CertReq::from_der(&actor_csr_der()).unwrap();
    let mut bits = req.signature.raw_bytes().to_vec();
    bits[0] ^= 0xff;
    req.signature = der::asn1::BitString::from_bytes(&bits).unwrap();
    let der = req.to_der().unwrap();
    let csr = IdCsr::<RawSignature, RawPublicKey>::from_der(&der).unwrap();
    let key = RawPublicKey { key_bits: vec![1, 2, 3] };
    let inner_der = csr.inner_csr.to_der().unwrap();
    assert_eq!(
        key.verify_signature(&csr.signature, &inner_der),
        Err(ConstraintError::InvalidSignatureValue)
    );
}
