//! Certificate issuance: domain-scoped authority, signing, the end-to-end
//! lifecycle and the certificate wire round trip.
use polyproto::Constrained;
use polyproto::capabilities::{BasicConstraints, Capabilities, KeyUsages};
use polyproto::errors::{ConstraintError, ConversionError};
use polyproto::idcert::{IdCert, Validity};
use polyproto::idcsr::IdCsr;
use polyproto::key::PublicKey;
use polyproto::name::{Name, NameComponent, NameComponentKind};
use polyproto::raw::{RawPrivateKey, RawPublicKey, RawSignature};

fn comp(kind: NameComponentKind, value: &str) -> NameComponent {
    NameComponent { kind, value: value.to_string() }
}

fn name(cn: &str, dcs: &[&str]) -> Name {
    let mut components = vec![comp(NameComponentKind::CommonName, cn)];
    for dc in dcs {
        components.push(comp(NameComponentKind::DomainComponent, dc));
    }
    Name { components }
}

fn no_usage() -> KeyUsages {
    KeyUsages {
        digital_signature: false,
        content_commitment: false,
        key_encipherment: false,
        data_encipherment: false,
        key_agreement: false,
        key_cert_sign: false,
        crl_sign: false,
        encipher_only: false,
        decipher_only: false,
    }
}

fn actor_caps() -> Capabilities {
    Capabilities {
        basic_constraints: BasicConstraints { ca: false, path_length: None },
        key_usage: KeyUsages { digital_signature: true, ..no_usage() },
    }
}

fn ca_caps() -> Capabilities {
    Capabilities {
        basic_constraints: BasicConstraints { ca: true, path_length: Some(0) },
        key_usage: KeyUsages { key_cert_sign: true, ..no_usage() },
    }
}

fn key(bits: &[u8]) -> RawPrivateKey {
    RawPrivateKey { public_key: RawPublicKey { key_bits: bits.to_vec() } }
}

const YEAR: u64 = 31_536_000;

fn window() -> Validity {
    Validity { not_before: 1_700_000_000, not_after: 1_700_000_000 + YEAR }
}

fn actor_csr() -> IdCsr<RawSignature, RawPublicKey> {
    IdCsr::new(name("alice", &["example", "com"]), &key(&[1, 2, 3, 4]), actor_caps()).unwrap()
}

#[test]
fn end_to_end_actor_certificate() {
    // An actor at example.com requests; a CA at example.com issues with
    // serial 01 and a one-year window; the certificate survives the wire.
    let csr = actor_csr();
    assert_eq!(csr.validate_actor(), Ok(()));
    let ca_key = key(&[7, 7, 7]);
    let issuer = name("authority", &["example", "com"]);
    let cert =
        IdCert::from_actor_csr(csr, &ca_key, vec![0x01], issuer, window()).unwrap();
    assert_eq!(cert.validate(), Ok(()));
    let der = cert.to_der().unwrap();
    // Encoding is deterministic: a second encoding yields identical bytes.
    assert_eq!(cert.to_der().unwrap(), der);
    let decoded = IdCert::<RawSignature, RawPublicKey>::from_der(der.clone()).unwrap();
    assert_eq!(decoded, cert);
    assert_eq!(decoded.validate(), Ok(()));
    // The authority's signature over the TBS encoding checks out.
    let tbs_der = decoded.id_cert_tbs.to_der().unwrap();
    assert_eq!(
        ca_key.public_key.verify_signature(&decoded.signature, &tbs_der),
        Ok(())
    );
}

#[test]
fn foreign_authority_cannot_issue() {
    // An authority at other.org must be rejected with a domain mismatch,
    // before any signature is produced.
    let csr = actor_csr();
    let ca_key = key(&[7, 7, 7]);
    let issuer = name("authority", &["other", "org"]);
    let r = IdCert::from_actor_csr(csr, &ca_key, vec![0x01], issuer, window());
    assert_eq!(
        r.unwrap_err(),
        ConversionError::ConstraintError(ConstraintError::DomainMismatch)
    );
}

#[test]
fn ca_certificate_issuance() {
    let csr = IdCsr::<RawSignature, RawPublicKey>::new(
        name("homeserver", &["example", "com"]),
        &key(&[8, 8]),
        ca_caps(),
    )
    .unwrap();
    let ca_key = key(&[9, 9]);
    let issuer = name("root", &["example", "com"]);
    let cert = IdCert::from_ca_csr(csr, &ca_key, vec![0x02], issuer, window()).unwrap();
    assert_eq!(cert.validate(), Ok(()));
    assert!(cert.id_cert_tbs.capabilities.basic_constraints.ca);
    let der = cert.to_der().unwrap();
    let decoded = IdCert::<RawSignature, RawPublicKey>::from_der(der).unwrap();
    assert_eq!(decoded, cert);
}

#[test]
fn ca_path_requires_ca_request() {
    let csr = actor_csr();
    let ca_key = key(&[9]);
    let issuer = name("root", &["example", "com"]);
    let r = IdCert::from_ca_csr(csr, &ca_key, vec![0x02], issuer, window());
    assert_eq!(
        r.unwrap_err(),
        ConversionError::ConstraintError(ConstraintError::HomeServerMustBeCa)
    );
}

#[test]
fn bad_serial_and_window_rejected() {
    let ca_key = key(&[7]);
    let issuer = name("authority", &["example", "com"]);
    let r = IdCert::from_actor_csr(actor_csr(), &ca_key, vec![0x00, 0x01], issuer.clone(), window());
    assert_eq!(
        r.unwrap_err(),
        ConversionError::ConstraintError(ConstraintError::InvalidSerial)
    );
    let r = IdCert::from_actor_csr(
        actor_csr(),
        &ca_key,
        vec![0x01],
        issuer,
        Validity { not_before: 10, not_after: 9 },
    );
    assert_eq!(
        r.unwrap_err(),
        ConversionError::ConstraintError(ConstraintError::InvalidValidity)
    );
}

#[test]
fn high_bit_serial_survives_round_trip() {
    // A serial with the top bit set gains a zero octet on the wire and
    // loses it again on decoding.
    let csr = actor_csr();
    let ca_key = key(&[7]);
    let issuer = name("authority", &["example", "com"]);
    let cert =
        IdCert::from_actor_csr(csr, &ca_key, vec![0xf0, 0x0a], issuer, window()).unwrap();
    let der = cert.to_der().unwrap();
    let decoded = IdCert::<RawSignature, RawPublicKey>::from_der(der).unwrap();
    assert_eq!(decoded.id_cert_tbs.serial_number, vec![0xf0, 0x0a]);
    assert_eq!(decoded, cert);
}

#[test]
fn decoded_tbs_matches_issued_fields() {
    let csr = actor_csr();
    let ca_key = key(&[7]);
    let issuer = name("authority", &["example", "com"]);
    let cert = IdCert::from_actor_csr(csr, &ca_key, vec![0x2a], issuer.clone(), window()).unwrap();
    let tbs = &cert.id_cert_tbs;
    assert_eq!(tbs.serial_number, vec![0x2a]);
    assert_eq!(tbs.issuer, issuer);
    assert_eq!(tbs.subject, name("alice", &["example", "com"]));
    assert_eq!(tbs.validity, window());
    assert_eq!(tbs.capabilities, actor_caps());
    assert_eq!(tbs.signature_algorithm.oid, "1.3.101.112");
    assert_eq!(tbs.subject_public_key.key_bits, vec![1, 2, 3, 4]);
}
