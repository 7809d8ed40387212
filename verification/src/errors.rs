//! Error values returned by validation, conversion and signing.
//!
//! Every failure is reported as a value; nothing is retried internally and
//! no construction function returns a partially built entity.
use vstd::prelude::*;

verus! {

/// A protocol-specific structural rule was violated. Recoverable by fixing
/// the offending input; each variant names the invariant that failed.
#[derive(Debug, Clone, Copy, PartialEq, Eq, Structural)]
pub enum ConstraintError {
    /// The name has no components at all.
    EmptyName,
    /// The subject common name is missing, duplicated, or not the first
    /// component of the name.
    MisplacedCommonName,
    /// The common name is empty, too long, or holds a forbidden character.
    InvalidCommonName,
    /// A domain component is not a valid lowercase DNS label.
    InvalidDomainComponent,
    /// The name holds no domain components, so it cannot name a federation
    /// domain.
    MissingDomainComponents,
    /// An organizational unit value is empty, too long, or holds a forbidden
    /// character.
    InvalidOrganizationalUnit,
    /// A certification path length is given although the CA flag is false.
    PathLengthWithoutCa,
    /// The certificate-signing key usage flag is set although the CA flag is
    /// false.
    KeyCertSignWithoutCa,
    /// A path length constraint lies outside the profile's accepted range.
    PathLengthTooLarge,
    /// An actor request carries the CA capability.
    ActorCannotBeCa,
    /// A home-server request does not carry the CA capability.
    HomeServerMustBeCa,
    /// Issuer and subject domain components differ, so the issuing authority
    /// is not scoped to the subject's domain.
    DomainMismatch,
    /// The serial number is empty, not minimal, or longer than 20 octets.
    InvalidSerial,
    /// The validity window ends before it begins.
    InvalidValidity,
    /// An object identifier is not in canonical dotted-decimal form.
    InvalidAlgorithmIdentifier,
    /// A signature or key value could not be accepted by the signature
    /// implementation.
    InvalidSignatureValue,
}

/// Conversion between the data model and the wire encoding failed, either in
/// the ASN.1 codec itself or because a decoded structure violates the
/// protocol profile.
#[derive(Debug, Clone, Copy, PartialEq, Eq, Structural)]
pub enum ConversionError {
    /// A structurally invalid entity was encountered during conversion.
    ConstraintError(ConstraintError),
    /// The ASN.1 codec rejected the input bytes.
    DerDecode,
    /// The ASN.1 codec could not encode the structure.
    DerEncode,
    /// A request attribute with an unrecognized object identifier was found;
    /// the profile rejects every attribute it does not know.
    UnknownAttribute,
    /// The same attribute appears more than once.
    DuplicateAttribute,
    /// The capabilities attribute is missing.
    MissingAttribute,
    /// The capabilities attribute does not hold exactly one value.
    MalformedAttributeValue,
    /// An extension marked critical has an object identifier the profile
    /// does not recognize; such extensions are always rejected.
    UnknownCriticalExtension,
    /// The same extension appears more than once.
    DuplicateExtension,
    /// A required extension is missing.
    MissingExtension,
    /// An extension value does not hold the expected encoding.
    InvalidExtensionValue,
    /// A name holds an attribute type outside the profile (common name,
    /// domain component, organizational unit).
    UnsupportedNameAttribute,
    /// A relative distinguished name holds more than one attribute.
    CompositeRdn,
    /// A name attribute value carries an unexpected ASN.1 string tag.
    WrongValueTag,
    /// The wire structure declares a version the profile does not accept.
    UnsupportedVersion,
    /// The decoded public key was rejected by the key implementation.
    InvalidPublicKey,
    /// The decoded signature bytes were rejected by the signature
    /// implementation.
    InvalidSignatureBytes,
}

/// Why a generic wire to-be-signed certificate could not become a
/// to-be-signed identity certificate.
#[derive(Debug, Clone, Copy, PartialEq, Eq, Structural)]
pub enum TbsCertToIdCert {
    /// The structure carries no subject unique identifier although the
    /// profile expects one.
    SubjectUid,
    /// The structure carries no extensions, so the capabilities are
    /// missing.
    Extensions,
    /// The signature field could not be converted.
    Signature,
}

/// Why a to-be-signed identity certificate could not become a generic wire
/// to-be-signed certificate.
#[derive(Debug, Clone, Copy, PartialEq, Eq, Structural)]
pub enum IdCertToTbsCert {
    /// The serial number could not be converted.
    SerialNumber,
}

/// Signing could not proceed because the signing key's declared algorithm
/// does not match the entity being signed. Fatal to the operation; never
/// silently coerced.
#[derive(Debug, Clone, Copy, PartialEq, Eq, Structural)]
pub enum SigningError {
    /// The signing key's algorithm (first) differs from the algorithm of
    /// the public key embedded in the entity (second).
    SignatureTypeMismatch(crate::keys::SignatureType, crate::keys::SignatureType),
}

impl ConstraintError {
    /// A human-readable description of the invariant that failed.
    pub fn message(&self) -> (r: String) {
        match self {
            ConstraintError::EmptyName => "name has no components".to_owned(),
            ConstraintError::MisplacedCommonName => "common name must appear exactly once, first".to_owned(),
            ConstraintError::InvalidCommonName => "common name is empty, too long, or has forbidden characters".to_owned(),
            ConstraintError::InvalidDomainComponent => "domain component is not a valid DNS label".to_owned(),
            ConstraintError::MissingDomainComponents => "name has no domain components".to_owned(),
            ConstraintError::InvalidOrganizationalUnit => "organizational unit value is invalid".to_owned(),
            ConstraintError::PathLengthWithoutCa => "path length constraint requires the CA flag".to_owned(),
            ConstraintError::KeyCertSignWithoutCa => "certificate-signing key usage requires the CA flag".to_owned(),
            ConstraintError::PathLengthTooLarge => "path length constraint is too large".to_owned(),
            ConstraintError::ActorCannotBeCa => "actor CSR must not be a CA".to_owned(),
            ConstraintError::HomeServerMustBeCa => "home server CSR must have the CA capability set to true".to_owned(),
            ConstraintError::DomainMismatch => "domain components of the issuer and the subject do not match".to_owned(),
            ConstraintError::InvalidSerial => "serial number is empty, padded, or too long".to_owned(),
            ConstraintError::InvalidValidity => "validity window ends before it begins".to_owned(),
            ConstraintError::InvalidAlgorithmIdentifier => "algorithm object identifier is not canonical".to_owned(),
            ConstraintError::InvalidSignatureValue => "signature value was rejected".to_owned(),
        }
    }
}

} // verus!
