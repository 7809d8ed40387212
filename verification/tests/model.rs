//! Validation rules of the data model: names, capabilities, serials.
use polyproto::Constrained;
use polyproto::capabilities::{BasicConstraints, Capabilities, KeyUsages};
use polyproto::errors::ConstraintError;
use polyproto::name::{Name, NameComponent, NameComponentKind, equal_domain_components};

fn comp(kind: NameComponentKind, value: &str) -> NameComponent {
    NameComponent { kind, value: value.to_string() }
}

fn actor_name() -> Name {
    Name {
        components: vec![
            comp(NameComponentKind::CommonName, "alice"),
            comp(NameComponentKind::DomainComponent, "example"),
            comp(NameComponentKind::DomainComponent, "com"),
        ],
    }
}

#[test]
fn valid_name_passes() {
    assert_eq!(actor_name().validate(), Ok(()));
}

#[test]
fn empty_name_fails() {
    let n = Name { components: vec![] };
    assert_eq!(n.validate(), Err(ConstraintError::EmptyName));
}

#[test]
fn misplaced_common_name_fails() {
    let n = Name {
        components: vec![
            comp(NameComponentKind::DomainComponent, "example"),
            comp(NameComponentKind::CommonName, "alice"),
        ],
    };
    assert_eq!(n.validate(), Err(ConstraintError::MisplacedCommonName));
    let n = Name {
        components: vec![
            comp(NameComponentKind::CommonName, "alice"),
            comp(NameComponentKind::CommonName, "bob"),
            comp(NameComponentKind::DomainComponent, "example"),
        ],
    };
    assert_eq!(n.validate(), Err(ConstraintError::MisplacedCommonName));
}

#[test]
fn invalid_common_name_fails() {
    let n = Name {
        components: vec![
            comp(NameComponentKind::CommonName, "Alice Smith"),
            comp(NameComponentKind::DomainComponent, "example"),
        ],
    };
    assert_eq!(n.validate(), Err(ConstraintError::InvalidCommonName));
}

#[test]
fn invalid_domain_component_fails() {
    let n = Name {
        components: vec![
            comp(NameComponentKind::CommonName, "alice"),
            comp(NameComponentKind::DomainComponent, "-example"),
        ],
    };
    assert_eq!(n.validate(), Err(ConstraintError::InvalidDomainComponent));
}

#[test]
fn missing_domain_components_fails() {
    let n = Name { components: vec![comp(NameComponentKind::CommonName, "alice")] };
    assert_eq!(n.validate(), Err(ConstraintError::MissingDomainComponents));
}

#[test]
fn invalid_unit_fails() {
    let n = Name {
        components: vec![
            comp(NameComponentKind::CommonName, "alice"),
            comp(NameComponentKind::DomainComponent, "example"),
            comp(NameComponentKind::OrganizationalUnit, ""),
        ],
    };
    assert_eq!(n.validate(), Err(ConstraintError::InvalidOrganizationalUnit));
}

#[test]
fn domain_components_compare_in_order() {
    let a = actor_name();
    let b = Name {
        components: vec![
            comp(NameComponentKind::CommonName, "authority"),
            comp(NameComponentKind::DomainComponent, "example"),
            comp(NameComponentKind::DomainComponent, "com"),
        ],
    };
    assert!(equal_domain_components(&a, &b));
    let c = Name {
        components: vec![
            comp(NameComponentKind::CommonName, "authority"),
            comp(NameComponentKind::DomainComponent, "com"),
            comp(NameComponentKind::DomainComponent, "example"),
        ],
    };
    assert!(!equal_domain_components(&a, &c));
    let d = Name {
        components: vec![
            comp(NameComponentKind::CommonName, "authority"),
            comp(NameComponentKind::DomainComponent, "other"),
            comp(NameComponentKind::DomainComponent, "org"),
        ],
    };
    assert!(!equal_domain_components(&a, &d));
}

fn no_usage() -> KeyUsages {
    KeyUsages {
        digital_signature: false,
        content_commitment: false,
        key_encipherment: false,
        data_encipherment: false,
        key_agreement: false,
        key_cert_sign: false,
        crl_sign: false,
        encipher_only: false,
        decipher_only: false,
    }
}

#[test]
fn capabilities_rules() {
    let ok = Capabilities {
        basic_constraints: BasicConstraints { ca: true, path_length: Some(1) },
        key_usage: KeyUsages { key_cert_sign: true, ..no_usage() },
    };
    assert_eq!(ok.validate(), Ok(()));
    // Validation is pure: a second run returns the same verdict.
    assert_eq!(ok.validate(), Ok(()));

    let bad = Capabilities {
        basic_constraints: BasicConstraints { ca: false, path_length: Some(1) },
        key_usage: no_usage(),
    };
    assert_eq!(bad.validate(), Err(ConstraintError::PathLengthWithoutCa));

    let bad = Capabilities {
        basic_constraints: BasicConstraints { ca: true, path_length: Some(200) },
        key_usage: no_usage(),
    };
    assert_eq!(bad.validate(), Err(ConstraintError::PathLengthTooLarge));

    let bad = Capabilities {
        basic_constraints: BasicConstraints { ca: false, path_length: None },
        key_usage: KeyUsages { key_cert_sign: true, ..no_usage() },
    };
    assert_eq!(bad.validate(), Err(ConstraintError::KeyCertSignWithoutCa));
}

#[test]
fn basic_constraints_payload_bytes() {
    let e = polyproto::capabilities::encode_basic_constraints(&BasicConstraints {
        ca: false,
        path_length: None,
    });
    assert_eq!(e, vec![0x30, 0x00]);
    let e = polyproto::capabilities::encode_basic_constraints(&BasicConstraints {
        ca: true,
        path_length: None,
    });
    assert_eq!(e, vec![0x30, 0x03, 0x01, 0x01, 0xff]);
    let e = polyproto::capabilities::encode_basic_constraints(&BasicConstraints {
        ca: true,
        path_length: Some(1),
    });
    assert_eq!(e, vec![0x30, 0x06, 0x01, 0x01, 0xff, 0x02, 0x01, 0x01]);
    assert_eq!(
        polyproto::capabilities::decode_basic_constraints(&e),
        Some(BasicConstraints { ca: true, path_length: Some(1) })
    );
    // A non-canonical explicit FALSE boolean is rejected.
    assert_eq!(
        polyproto::capabilities::decode_basic_constraints(&[0x30, 0x03, 0x01, 0x01, 0x00]),
        None
    );
}

#[test]
fn key_usage_payload_bytes() {
    let e = polyproto::capabilities::encode_key_usage(&no_usage());
    assert_eq!(e, vec![0x03, 0x01, 0x00]);
    let k = KeyUsages { digital_signature: true, key_cert_sign: true, ..no_usage() };
    let e = polyproto::capabilities::encode_key_usage(&k);
    // digitalSignature is bit 0 (0x80), keyCertSign bit 5 (0x04): two
    // trailing unused bits.
    assert_eq!(e, vec![0x03, 0x02, 0x02, 0x84]);
    assert_eq!(polyproto::capabilities::decode_key_usage(&e), Some(k));
    let k = KeyUsages { decipher_only: true, ..no_usage() };
    let e = polyproto::capabilities::encode_key_usage(&k);
    assert_eq!(e, vec![0x03, 0x03, 0x07, 0x00, 0x80]);
    assert_eq!(polyproto::capabilities::decode_key_usage(&e), Some(k));
    // A padded (non-canonical) form is rejected.
    assert_eq!(polyproto::capabilities::decode_key_usage(&[0x03, 0x02, 0x00, 0x84]), None);
}

#[test]
fn canonical_oid_checker() {
    assert!(polyproto::types::is_canonical_oid(&"1.3.101.112".to_string()));
    assert!(polyproto::types::is_canonical_oid(&"0.9.2342.19200300.100.1.25".to_string()));
    assert!(!polyproto::types::is_canonical_oid(&"".to_string()));
    assert!(!polyproto::types::is_canonical_oid(&"1..2".to_string()));
    assert!(!polyproto::types::is_canonical_oid(&"1.2.".to_string()));
    assert!(!polyproto::types::is_canonical_oid(&"1.02.3".to_string()));
    assert!(!polyproto::types::is_canonical_oid(&"1.1234567890.3".to_string()));
    assert!(!polyproto::types::is_canonical_oid(&"1.2.x".to_string()));
}

#[test]
fn algorithm_identifier_der_round_trip() {
    let alg = polyproto::types::AlgorithmIdentifierOwned::new("1.3.101.112".to_string(), None);
    let der = alg.to_der().unwrap();
    let back = polyproto::types::AlgorithmIdentifierOwned::from_der(&der).unwrap();
    assert_eq!(back, alg);
    assert!(polyproto::types::AlgorithmIdentifierOwned::from_der(&[0x05, 0x00]).is_err());
    let bad = polyproto::types::AlgorithmIdentifierOwned::new("not-an-oid".to_string(), None);
    assert!(bad.to_der().is_err());
}
