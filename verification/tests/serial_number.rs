//! Behavior of the underlying DER integer types for serial numbers.
use der::asn1::Uint;
use x509_cert::certificate::Profile;
use x509_cert::serial_number::SerialNumber;

#[derive(Clone, PartialEq, Eq, Debug)]
enum TestProfile {}

impl Profile for TestProfile {}

fn strip_leading_zeroes(bytes: &[u8]) -> &[u8] {
    if let Some(stripped) = bytes.strip_prefix(&[0u8]) {
        stripped
    } else {
        bytes
    }
}

#[test]
fn test_convert_serial_number() {
    let biguint = Uint::new(&[10u8, 240u8]).unwrap();
    assert_eq!(biguint.as_bytes(), &[10u8, 240u8]);
    let serial_number: SerialNumber<TestProfile> =
        SerialNumber::new(biguint.as_bytes()).unwrap();
    assert_eq!(
        strip_leading_zeroes(serial_number.as_bytes()),
        biguint.as_bytes()
    );

    let biguint = Uint::new(&[240u8, 10u8]).unwrap();
    assert_eq!(biguint.as_bytes(), &[240u8, 10u8]);
    let serial_number: SerialNumber<TestProfile> =
        SerialNumber::new(biguint.as_bytes()).unwrap();
    assert_eq!(
        strip_leading_zeroes(serial_number.as_bytes()),
        biguint.as_bytes()
    );
}

#[test]
fn tbs_decode_rejects_empty_input() {
    let tbs = polyproto::idcert::IdCertTbs::<
        polyproto::raw::RawSignature,
        polyproto::raw::RawPublicKey,
    >::from_der(&[]);
    assert_eq!(tbs.unwrap_err(), polyproto::errors::ConversionError::DerDecode);
}
