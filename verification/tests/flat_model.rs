//! The self-contained certificate structures over a flat federation
//! identity, and signature-type consistency when signing them.
use polyproto::certificates::{FederationId, IdCertTBS, IdCsr};
use polyproto::errors::SigningError;
use polyproto::keys::{PublicKey, SignatureType, SigningKey};

fn fid() -> FederationId {
    FederationId {
        actor_name: "alice".to_string(),
        domain: "example".to_string(),
        tld: "com".to_string(),
    }
}

fn csr() -> IdCsr {
    IdCsr {
        pub_key: PublicKey::new(vec![1, 2, 3], SignatureType::Ed25519),
        federation_id: fid(),
        session_id: "session-one".to_string(),
        expiry: Some(2_000_000_000),
    }
}

#[test]
fn to_id_cert_tbs_copies_fields() {
    let request = csr();
    let tbs = request.to_id_cert_tbs(2_100_000_000, "01");
    assert_eq!(tbs.pub_key, request.pub_key);
    assert_eq!(tbs.federation_id, request.federation_id);
    assert_eq!(tbs.session_id, request.session_id);
    assert_eq!(tbs.expiry, 2_100_000_000);
    assert_eq!(tbs.serial, "01");
}

#[test]
fn csr_from_tbs_keeps_expiry() {
    let tbs = csr().to_id_cert_tbs(2_100_000_000, "07");
    let back = IdCsr::from(tbs.clone());
    assert_eq!(back.pub_key, tbs.pub_key);
    assert_eq!(back.federation_id, tbs.federation_id);
    assert_eq!(back.session_id, tbs.session_id);
    assert_eq!(back.expiry, Some(2_100_000_000));
}

#[test]
fn signature_type_mismatch_is_rejected() {
    let tbs = csr().to_id_cert_tbs(2_100_000_000, "01");
    let wrong_key = SigningKey {
        key_bytes: vec![9, 9],
        signature_type: SignatureType::EcdsaSecp256r1Sha256,
    };
    let r: Result<_, SigningError> = tbs.try_sign(wrong_key);
    assert_eq!(
        r.unwrap_err(),
        SigningError::SignatureTypeMismatch(
            SignatureType::EcdsaSecp256r1Sha256,
            SignatureType::Ed25519
        )
    );
}

#[test]
fn matching_key_signs() {
    let tbs = csr().to_id_cert_tbs(2_100_000_000, "01");
    let key = SigningKey { key_bytes: vec![9, 9], signature_type: SignatureType::Ed25519 };
    let cert = tbs.clone().try_sign(key).unwrap();
    assert_eq!(cert.pub_key, tbs.pub_key);
    assert_eq!(cert.federation_id, tbs.federation_id);
    assert_eq!(cert.session_id, tbs.session_id);
    assert_eq!(cert.expiry, tbs.expiry);
    assert_eq!(cert.serial, tbs.serial);
    assert_eq!(cert.signature.signature_type, SignatureType::Ed25519);
}

#[test]
fn tbs_derivation_then_signing_is_stable() {
    let tbs1: IdCertTBS = csr().to_id_cert_tbs(1, "ff");
    let tbs2: IdCertTBS = csr().to_id_cert_tbs(1, "ff");
    assert_eq!(tbs1, tbs2);
}
