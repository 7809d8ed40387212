//! Signing requests: construction, role validation and wire round trips.
use polyproto::Constrained;
use polyproto::capabilities::{BasicConstraints, Capabilities, KeyUsages};
use polyproto::errors::{ConstraintError, ConversionError};
use polyproto::idcsr::{IdCsr, IdCsrInner};
use polyproto::name::{Name, NameComponent, NameComponentKind};
use polyproto::raw::{RawPrivateKey, RawPublicKey, RawSignature};
use polyproto::wire::LineEnding;

fn comp(kind: NameComponentKind, value: &str) -> NameComponent {
    NameComponent { kind, value: value.to_string() }
}

fn actor_name() -> Name {
    Name {
        components: vec![
            comp(NameComponentKind::CommonName, "alice"),
            comp(NameComponentKind::DomainComponent, "example"),
            comp(NameComponentKind::DomainComponent, "com"),
        ],
    }
}

fn no_usage() -> KeyUsages {
    KeyUsages {
        digital_signature: false,
        content_commitment: false,
        key_encipherment: false,
        data_encipherment: false,
        key_agreement: false,
        key_cert_sign: false,
        crl_sign: false,
        encipher_only: false,
        decipher_only: false,
    }
}

fn actor_caps() -> Capabilities {
    Capabilities {
        basic_constraints: BasicConstraints { ca: false, path_length: None },
        key_usage: KeyUsages { digital_signature: true, ..no_usage() },
    }
}

fn ca_caps() -> Capabilities {
    Capabilities {
        basic_constraints: BasicConstraints { ca: true, path_length: Some(1) },
        key_usage: KeyUsages { key_cert_sign: true, ..no_usage() },
    }
}

fn key(bits: &[u8]) -> RawPrivateKey {
    RawPrivateKey { public_key: RawPublicKey { key_bits: bits.to_vec() } }
}

fn actor_csr() -> IdCsr<RawSignature, RawPublicKey> {
    IdCsr::new(actor_name(), &key(&[1, 2, 3, 4]), actor_caps()).unwrap()
}

#[test]
fn build_and_validate_actor_csr() {
    let csr = actor_csr();
    assert_eq!(csr.validate(), Ok(()));
    assert_eq!(csr.validate_actor(), Ok(()));
    // Validating an already-valid request twice gives the same verdict.
    assert_eq!(csr.validate_actor(), Ok(()));
    assert_eq!(
        csr.validate_home_server(),
        Err(ConversionError::ConstraintError(ConstraintError::HomeServerMustBeCa))
    );
}

#[test]
fn role_enforcement_for_ca_request() {
    let csr = IdCsr::<RawSignature, RawPublicKey>::new(
        actor_name(),
        &key(&[9, 9]),
        ca_caps(),
    )
    .unwrap();
    assert_eq!(csr.validate_home_server(), Ok(()));
    assert_eq!(
        csr.validate_actor(),
        Err(ConversionError::ConstraintError(ConstraintError::ActorCannotBeCa))
    );
}

#[test]
fn invalid_subject_rejected_before_signing() {
    let bad = Name { components: vec![comp(NameComponentKind::CommonName, "alice")] };
    let r = IdCsr::<RawSignature, RawPublicKey>::new(bad, &key(&[1]), actor_caps());
    assert_eq!(
        r.unwrap_err(),
        ConversionError::ConstraintError(ConstraintError::MissingDomainComponents)
    );
    let r = IdCsr::<RawSignature, RawPublicKey>::new(
        actor_name(),
        &key(&[1]),
        Capabilities {
            basic_constraints: BasicConstraints { ca: false, path_length: Some(3) },
            key_usage: no_usage(),
        },
    );
    assert_eq!(
        r.unwrap_err(),
        ConversionError::ConstraintError(ConstraintError::PathLengthWithoutCa)
    );
}

#[test]
fn csr_der_round_trip() {
    let csr = actor_csr();
    let der = csr.to_der().unwrap();
    // Encoding is deterministic: a second encoding yields identical bytes.
    assert_eq!(csr.to_der().unwrap(), der);
    let back = IdCsr::<RawSignature, RawPublicKey>::from_der(&der).unwrap();
    assert_eq!(back, csr);
    assert_eq!(back.validate_actor(), Ok(()));
}

#[test]
fn csr_inner_der_round_trip() {
    let inner = IdCsrInner::<RawSignature, RawPublicKey>::new(
        actor_name(),
        RawPublicKey { key_bits: vec![5, 6, 7] },
        actor_caps(),
    )
    .unwrap();
    let der = inner.to_der().unwrap();
    let back = IdCsrInner::<RawSignature, RawPublicKey>::from_der(&der).unwrap();
    assert_eq!(back, inner);
}

#[test]
fn csr_pem_round_trip() {
    let csr = actor_csr();
    let pem = csr.to_pem(LineEnding::Lf).unwrap();
    assert!(pem.starts_with("-----BEGIN CERTIFICATE REQUEST-----"));
    let back = IdCsr::<RawSignature, RawPublicKey>::from_pem(&pem).unwrap();
    assert_eq!(back, csr);
    let pem_crlf = csr.to_pem(LineEnding::CrLf).unwrap();
    let back = IdCsr::<RawSignature, RawPublicKey>::from_pem(&pem_crlf).unwrap();
    assert_eq!(back, csr);
}

#[test]
fn csr_decode_rejects_garbage() {
    let r = IdCsr::<RawSignature, RawPublicKey>::from_der(&[0x30, 0x01, 0x00]);
    assert_eq!(r.unwrap_err(), ConversionError::DerDecode);
    let r = IdCsr::<RawSignature, RawPublicKey>::from_pem("not pem at all");
    assert_eq!(r.unwrap_err(), ConversionError::DerDecode);
}

#[test]
fn csr_decode_rejects_truncated() {
    let csr = actor_csr();
    let mut der = csr.to_der().unwrap();
    der.pop();
    let r = IdCsr::<RawSignature, RawPublicKey>::from_der(&der);
    assert!(r.is_err());
    // Trailing data is rejected too.
    let mut der = csr.to_der().unwrap();
    der.push(0);
    let r = IdCsr::<RawSignature, RawPublicKey>::from_der(&der);
    assert!(r.is_err());
}
