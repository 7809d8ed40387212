//! Certificate signing requests (ID-Csr): the unsigned request core, the
//! signed request envelope, role-specific validation, and lossless
//! conversion to and from the PKCS #10 wire encodings.
use vstd::prelude::*;

verus! {

use crate::Constrained;
use crate::capabilities::{
    Capabilities, capabilities_from_extensions_spec, capabilities_spec_validate,
    capabilities_to_extensions_spec, lemma_capabilities_round_trip,
};
use crate::errors::{ConstraintError, ConversionError};
use crate::key::{PrivateKey, PublicKey};
use crate::name::{Name, NameComponent, NameComponentKind, NameComponentValue, name_spec_validate};
use crate::signature::Signature;
use crate::types::{
    AlgorithmIdentifierValue, PublicKeyInfo, PublicKeyInfoValue, canonical_oid, is_canonical_oid,
};
use crate::wire::{
    AttributeDataValue, CertReqInfoParts, CertReqInfoPartsValue, LineEnding, NameAtv, NameAtvValue,
    alg_id_der, alg_id_from_der, alg_id_parsed, alg_id_to_der, attributes_der, attributes_from_der,
    attributes_parsed, attributes_to_der, canonical_der, cert_req_der, cert_req_der_to_pem,
    cert_req_from_der, cert_req_info_der, cert_req_info_from_der, cert_req_info_parsed,
    cert_req_info_to_der, cert_req_parsed, cert_req_pem, cert_req_pem_parsed, cert_req_pem_to_der,
    cert_req_to_der, extensions_der, extensions_from_der, extensions_parsed, extensions_to_der,
    line_ending_code, rdn_sequence_der, rdn_sequence_from_der, rdn_sequence_parsed,
    rdn_sequence_to_der, rdns_view, spki_der_of, spki_from_der, spki_parsed, spki_to_der,
};

/// The PKCS #10 version of a request; this protocol fixes it to version 1.
#[derive(Debug, Clone, Copy, PartialEq, Eq, Structural)]
pub enum PkcsVersion {
    /// PKCS #10 v1.
    V1,
}

/// The dotted-decimal object identifier of a name component kind.
pub open spec fn kind_oid(k: NameComponentKind) -> Seq<char> {
    match k {
        NameComponentKind::CommonName => "2.5.4.3"@,
        NameComponentKind::DomainComponent => "0.9.2342.19200300.100.1.25"@,
        NameComponentKind::OrganizationalUnit => "2.5.4.11"@,
    }
}

/// The ASN.1 string tag a component kind's value carries: UTF8String for
/// common names and organizational units, IA5String for domain components.
pub open spec fn kind_tag(k: NameComponentKind) -> u8 {
    match k {
        NameComponentKind::CommonName => 12u8,
        NameComponentKind::DomainComponent => 22u8,
        NameComponentKind::OrganizationalUnit => 12u8,
    }
}

/// The wire form of a name: one single-attribute relative distinguished
/// name per component, in component order.
pub open spec fn name_to_wire_spec(n: Seq<NameComponentValue>) -> Seq<Seq<NameAtvValue>> {
    n.map_values(
        |c: NameComponentValue|
            seq![NameAtvValue { oid: kind_oid(c.kind), tag: kind_tag(c.kind), value: c.value }],
    )
}

/// The component read from one relative distinguished name: it must hold
/// exactly one attribute, of a kind this profile knows, under the kind's
/// expected string tag.
pub open spec fn component_of_rdn(rdn: Seq<NameAtvValue>) -> Result<
    NameComponentValue,
    ConversionError,
> {
    if rdn.len() != 1 {
        Err(ConversionError::CompositeRdn)
    } else {
        let a = rdn[0];
        let kind = if a.oid == kind_oid(NameComponentKind::CommonName) {
            Some(NameComponentKind::CommonName)
        } else if a.oid == kind_oid(NameComponentKind::DomainComponent) {
            Some(NameComponentKind::DomainComponent)
        } else if a.oid == kind_oid(NameComponentKind::OrganizationalUnit) {
            Some(NameComponentKind::OrganizationalUnit)
        } else {
            None
        };
        match kind {
            Some(k) => if a.tag == kind_tag(k) {
                Ok(NameComponentValue { kind: k, value: a.value })
            } else {
                Err(ConversionError::WrongValueTag)
            },
            None => Err(ConversionError::UnsupportedNameAttribute),
        }
    }
}

/// The name read from a wire-form name, component by component; the first
/// offending relative distinguished name decides the error.
pub open spec fn wire_to_name_spec(w: Seq<Seq<NameAtvValue>>) -> Result<
    Seq<NameComponentValue>,
    ConversionError,
>
    decreases w.len(),
{
    if w.len() == 0 {
        Ok(Seq::empty())
    } else {
        match wire_to_name_spec(w.drop_last()) {
            Err(e) => Err(e),
            Ok(s) => match component_of_rdn(w.last()) {
                Err(e) => Err(e),
                Ok(c) => Ok(s.push(c)),
            },
        }
    }
}

/// The object identifiers of the three component kinds are canonical and
/// pairwise distinct.
pub proof fn lemma_kind_oids()
    ensures
        forall|k: NameComponentKind| canonical_oid(#[trigger] kind_oid(k)),
        kind_oid(NameComponentKind::CommonName) != kind_oid(NameComponentKind::DomainComponent),
        kind_oid(NameComponentKind::CommonName) != kind_oid(
            NameComponentKind::OrganizationalUnit,
        ),
        kind_oid(NameComponentKind::DomainComponent) != kind_oid(
            NameComponentKind::OrganizationalUnit,
        ),
{
    reveal_strlit("2.5.4.3");
    reveal_strlit("0.9.2342.19200300.100.1.25");
    reveal_strlit("2.5.4.11");
    assert(canonical_oid("2.5.4.3"@));
    assert(canonical_oid("0.9.2342.19200300.100.1.25"@)) by {
        let s = "0.9.2342.19200300.100.1.25"@;
        assert(s.len() == 26);
        assert forall|i: int| 0 <= i && i + 9 < s.len() implies #[trigger] crate::types::dot_within_ten(
            s,
            i,
        ) by {
            if i <= 1 {
                assert(s[1] == '.' && i <= 1 <= i + 9);
            } else if i <= 3 {
                assert(s[3] == '.' && i <= 3 <= i + 9);
            } else if i <= 8 {
                assert(s[8] == '.' && i <= 8 <= i + 9);
            } else {
                assert(s[17] == '.' && i <= 17 <= i + 9);
            }
        }
    }
    assert(canonical_oid("2.5.4.11"@));
    assert(kind_oid(NameComponentKind::CommonName).len() == 7);
    assert(kind_oid(NameComponentKind::DomainComponent).len() == 26);
    assert(kind_oid(NameComponentKind::OrganizationalUnit).len() == 8);
    assert(kind_oid(NameComponentKind::CommonName)[6] == '3');
    assert(kind_oid(NameComponentKind::OrganizationalUnit)[6] == '1');
}

/// Reading a name back from its wire form recovers it, for every name.
pub proof fn lemma_name_wire_round_trip(n: Seq<NameComponentValue>)
    ensures
        wire_to_name_spec(name_to_wire_spec(n)) == Ok::<_, ConversionError>(n),
    decreases n.len(),
{
    lemma_kind_oids();
    let w = name_to_wire_spec(n);
    if n.len() == 0 {
        assert(w.len() == 0);
        assert(wire_to_name_spec(w) == Ok::<_, ConversionError>(Seq::<
            NameComponentValue,
        >::empty()));
        assert(n =~= Seq::<NameComponentValue>::empty());
    } else {
        lemma_name_wire_round_trip(n.drop_last());
        assert(w.drop_last() =~= name_to_wire_spec(n.drop_last()));
        let c = n.last();
        assert(w.last() == seq![
            NameAtvValue { oid: kind_oid(c.kind), tag: kind_tag(c.kind), value: c.value },
        ]);
        assert(component_of_rdn(w.last()) == Ok::<_, ConversionError>(c));
        assert(n.drop_last().push(c) =~= n);
    }
}

/// Converts a name into its wire form.
pub fn name_to_wire(n: &Name) -> (r: Vec<Vec<NameAtv>>)
    ensures
        rdns_view(r@) == name_to_wire_spec(n@),
        forall|i: int| 0 <= i < r@.len() ==> (#[trigger] r@[i])@.len() == 1,
        forall|i: int, j: int|
            0 <= i < r@.len() && 0 <= j < r@[i]@.len() ==> canonical_oid(
                (#[trigger] r@[i]@[j])@.oid,
            ),
{
    proof {
        lemma_kind_oids();
    }
    let mut out: Vec<Vec<NameAtv>> = Vec::new();
    let m = n.components.len();
    for i in 0..m
        invariant
            m == n@.len(),
            rdns_view(out@) == name_to_wire_spec(n@.take(i as int)),
            forall|p: int| 0 <= p < out@.len() ==> (#[trigger] out@[p])@.len() == 1,
            forall|p: int, q: int|
                0 <= p < out@.len() && 0 <= q < out@[p]@.len() ==> canonical_oid(
                    (#[trigger] out@[p]@[q])@.oid,
                ),
    {
        proof {
            lemma_kind_oids();
        }
        let c = &n.components[i];
        let atv: NameAtv = match c.kind {
            NameComponentKind::CommonName => NameAtv {
                oid: "2.5.4.3".to_owned(),
                tag: 12,
                value: c.value.clone(),
            },
            NameComponentKind::DomainComponent => NameAtv {
                oid: "0.9.2342.19200300.100.1.25".to_owned(),
                tag: 22,
                value: c.value.clone(),
            },
            NameComponentKind::OrganizationalUnit => NameAtv {
                oid: "2.5.4.11".to_owned(),
                tag: 12,
                value: c.value.clone(),
            },
        };
        proof {
            assert(atv@.oid == kind_oid(n@[i as int].kind));
            assert(atv@.tag == kind_tag(n@[i as int].kind));
            assert(atv@.value == n@[i as int].value);
            assert(atv@ == (NameAtvValue {
                oid: kind_oid(n@[i as int].kind),
                tag: kind_tag(n@[i as int].kind),
                value: n@[i as int].value,
            }));
        }
        let mut rdn: Vec<NameAtv> = Vec::new();
        rdn.push(atv);
        let ghost old_out = out@;
        out.push(rdn);
        proof {
            assert(n@.take(i + 1).drop_last() =~= n@.take(i as int));
            assert(n@.take(i + 1).last() == n@[i as int]);
            assert(out@.last()@.map_values(|a: NameAtv| a@) =~= seq![
                NameAtvValue {
                    oid: kind_oid(n@[i as int].kind),
                    tag: kind_tag(n@[i as int].kind),
                    value: n@[i as int].value,
                },
            ]);
            assert(rdns_view(old_out).len() == old_out.len());
            assert(old_out.len() == i);
            assert(out@ == old_out.push(rdn));
            assert forall|p: int| 0 <= p < i implies rdns_view(out@)[p] == name_to_wire_spec(
                n@.take(i + 1),
            )[p] by {
                assert(out@[p] == old_out[p]);
                assert(rdns_view(out@)[p] == rdns_view(old_out)[p]);
                assert(rdns_view(old_out)[p] == name_to_wire_spec(n@.take(i as int))[p]);
                assert(n@.take(i as int)[p] == n@.take(i + 1)[p]);
            }
            assert(rdns_view(out@)[i as int] == name_to_wire_spec(n@.take(i + 1))[i as int]);
            assert(rdns_view(out@) =~= name_to_wire_spec(n@.take(i + 1)));
        }
    }
    proof {
        assert(n@.take(m as int) =~= n@);
        assert(rdns_view(out@) == name_to_wire_spec(n@));
    }
    out
}

/// An error in a prefix of a wire-form name decides the whole name's error.
proof fn lemma_wire_prefix_error(w: Seq<Seq<NameAtvValue>>, k: int, e: ConversionError)
    requires
        0 <= k <= w.len(),
        wire_to_name_spec(w.take(k)) == Err::<Seq<NameComponentValue>, ConversionError>(e),
    ensures
        wire_to_name_spec(w) == Err::<Seq<NameComponentValue>, ConversionError>(e),
    decreases w.len() - k,
{
    if k == w.len() {
        assert(w.take(k) =~= w);
    } else {
        assert(w.take(k + 1).drop_last() =~= w.take(k));
        lemma_wire_prefix_error(w, k + 1, e);
    }
}

/// Reads a name back from its wire form, rejecting composite relative
/// distinguished names, unknown attribute types and unexpected tags.
pub fn wire_to_name(w: &Vec<Vec<NameAtv>>) -> (r: Result<Name, ConversionError>)
    ensures
        match wire_to_name_spec(rdns_view(w@)) {
            Ok(nv) => r matches Ok(n) && n@ == nv,
            Err(e) => r == Err::<Name, _>(e),
        },
{
    proof {
        lemma_kind_oids();
    }
    let cn_oid: String = "2.5.4.3".to_owned();
    let dc_oid: String = "0.9.2342.19200300.100.1.25".to_owned();
    let ou_oid: String = "2.5.4.11".to_owned();
    let mut comps: Vec<NameComponent> = Vec::new();
    let m = w.len();
    proof {
        assert(rdns_view(w@).take(0) =~= Seq::<Seq<NameAtvValue>>::empty());
        assert(comps@.map_values(|c: NameComponent| c@) =~= Seq::<NameComponentValue>::empty());
    }
    for i in 0..m
        invariant
            m == w@.len(),
            cn_oid@ == kind_oid(NameComponentKind::CommonName),
            dc_oid@ == kind_oid(NameComponentKind::DomainComponent),
            ou_oid@ == kind_oid(NameComponentKind::OrganizationalUnit),
            wire_to_name_spec(rdns_view(w@).take(i as int)) == Ok::<_, ConversionError>(
                comps@.map_values(|c: NameComponent| c@),
            ),
    {
        let ghost v = rdns_view(w@);
        let ghost old_comps = comps@;
        proof {
            assert(v.take(i + 1).drop_last() =~= v.take(i as int));
            assert(v.take(i + 1).last() == v[i as int]);
            assert(v[i as int] =~= w@[i as int]@.map_values(|a: NameAtv| a@));
        }
        let rdn = &w[i];
        if rdn.len() != 1 {
            proof {
                assert(component_of_rdn(v[i as int]) == Err::<NameComponentValue, _>(
                    ConversionError::CompositeRdn,
                ));
                lemma_wire_prefix_error(v, i + 1, ConversionError::CompositeRdn);
            }
            return Err(ConversionError::CompositeRdn);
        }
        let a = &rdn[0];
        proof {
            assert(v[i as int][0] == w@[i as int]@[0]@);
        }
        let kind: NameComponentKind = if a.oid == cn_oid {
            NameComponentKind::CommonName
        } else if a.oid == dc_oid {
            NameComponentKind::DomainComponent
        } else if a.oid == ou_oid {
            NameComponentKind::OrganizationalUnit
        } else {
            proof {
                assert(component_of_rdn(v[i as int]) == Err::<NameComponentValue, _>(
                    ConversionError::UnsupportedNameAttribute,
                ));
                lemma_wire_prefix_error(v, i + 1, ConversionError::UnsupportedNameAttribute);
            }
            return Err(ConversionError::UnsupportedNameAttribute);
        };
        let expected_tag: u8 = match kind {
            NameComponentKind::CommonName => 12,
            NameComponentKind::DomainComponent => 22,
            NameComponentKind::OrganizationalUnit => 12,
        };
        if a.tag != expected_tag {
            proof {
                assert(component_of_rdn(v[i as int]) == Err::<NameComponentValue, _>(
                    ConversionError::WrongValueTag,
                ));
                lemma_wire_prefix_error(v, i + 1, ConversionError::WrongValueTag);
            }
            return Err(ConversionError::WrongValueTag);
        }
        comps.push(NameComponent { kind, value: a.value.clone() });
        proof {
            assert(component_of_rdn(v[i as int]) == Ok::<_, ConversionError>(comps@.last()@));
            assert(comps@.map_values(|c: NameComponent| c@) =~= old_comps.map_values(
                |c: NameComponent| c@,
            ).push(comps@.last()@));
        }
    }
    proof {
        assert(rdns_view(w@).take(m as int) =~= rdns_view(w@));
    }
    Ok(Name { components: comps })
}

/// The object identifier under which a request carries its capabilities:
/// the PKCS #9 extension-request attribute.
pub open spec fn extension_request_oid() -> Seq<char> {
    "1.2.840.113549.1.9.14"@
}

/// The extension-request attribute's identifier is canonical.
pub proof fn lemma_extension_request_oid()
    ensures
        canonical_oid(extension_request_oid()),
{
    reveal_strlit("1.2.840.113549.1.9.14");
    let s = extension_request_oid();
    assert(s.len() == 21);
    assert forall|i: int| 0 <= i && i + 9 < s.len() implies #[trigger] crate::types::dot_within_ten(
        s,
        i,
    ) by {
        if i <= 1 {
            assert(s[1] == '.' && i <= 1 <= i + 9);
        } else if i <= 3 {
            assert(s[3] == '.' && i <= 3 <= i + 9);
        } else if i <= 7 {
            assert(s[7] == '.' && i <= 7 <= i + 9);
        } else {
            assert(s[14] == '.' && i <= 14 <= i + 9);
        }
    }
}

/// The capabilities read from a request's attribute list: exactly one
/// attribute is accepted, it must be the extension-request attribute, it
/// must hold exactly one value, and that value must be a well-formed
/// extension list satisfying the profile's extension rules.
pub open spec fn capabilities_from_attributes_spec(attrs: Seq<AttributeDataValue>) -> Result<
    Capabilities,
    ConversionError,
> {
    if exists|i: int| 0 <= i < attrs.len() && (#[trigger] attrs[i]).oid != extension_request_oid() {
        Err(ConversionError::UnknownAttribute)
    } else if attrs.len() == 0 {
        Err(ConversionError::MissingAttribute)
    } else if attrs.len() > 1 {
        Err(ConversionError::DuplicateAttribute)
    } else if attrs[0].values.len() != 1 {
        Err(ConversionError::MalformedAttributeValue)
    } else {
        match extensions_parsed(attrs[0].values[0]) {
            None => Err(ConversionError::InvalidExtensionValue),
            Some(exts) => capabilities_from_extensions_spec(exts),
        }
    }
}

/// Reads the capabilities out of a request's attribute list.
pub fn capabilities_from_attributes(attrs: &Vec<crate::wire::AttributeData>) -> (r: Result<
    Capabilities,
    ConversionError,
>)
    ensures
        r == capabilities_from_attributes_spec(crate::wire::attrs_view(attrs@)),
{
    let ghost av = crate::wire::attrs_view(attrs@);
    let ext_req: String = "1.2.840.113549.1.9.14".to_owned();
    let m = attrs.len();
    for i in 0..m
        invariant
            m == av.len(),
            av == crate::wire::attrs_view(attrs@),
            ext_req@ == extension_request_oid(),
            forall|j: int| 0 <= j < i ==> (#[trigger] av[j]).oid == extension_request_oid(),
    {
        proof {
            assert(av[i as int] == attrs@[i as int]@);
        }
        if !(attrs[i].oid == ext_req) {
            return Err(ConversionError::UnknownAttribute);
        }
    }
    if attrs.len() == 0 {
        return Err(ConversionError::MissingAttribute);
    }
    if attrs.len() > 1 {
        return Err(ConversionError::DuplicateAttribute);
    }
    proof {
        assert(av[0] == attrs@[0]@);
        assert(av[0].values == attrs@[0].values@.map_values(|v: Vec<u8>| v@));
    }
    if attrs[0].values.len() != 1 {
        return Err(ConversionError::MalformedAttributeValue);
    }
    let exts = match extensions_from_der(attrs[0].values[0].as_slice()) {
        Ok(v) => v,
        Err(_) => {
            return Err(ConversionError::InvalidExtensionValue);
        },
    };
    Capabilities::from_extensions(&exts)
}


/// The unsigned request core: version, subject name, subject public key and
/// requested capabilities. The phantom parameter binds the core to the
/// signature algorithm it will be signed with.
#[derive(Debug, PartialEq, Eq)]
pub struct IdCsrInner<S: Signature, P: PublicKey<S>> {
    /// The PKCS #10 version, fixed to v1.
    pub version: PkcsVersion,
    /// The subject's name.
    pub subject: Name,
    /// The subject's public key.
    pub subject_public_key: P,
    /// The capabilities the subject requests.
    pub capabilities: Capabilities,
    /// Binds the core to its signature algorithm without storing a value.
    pub phantom_data: core::marker::PhantomData<S>,
}

/// The abstract value of an [`IdCsrInner`].
#[verifier::ext_equal]
pub struct IdCsrInnerValue {
    /// The PKCS #10 version.
    pub version: PkcsVersion,
    /// The subject name's components.
    pub subject: Seq<NameComponentValue>,
    /// The subject key's (algorithm, raw key bits) pair.
    pub subject_public_key: PublicKeyInfoValue,
    /// The requested capabilities.
    pub capabilities: Capabilities,
}

impl<S: Signature, P: PublicKey<S>> View for IdCsrInner<S, P> {
    type V = IdCsrInnerValue;

    open spec fn view(&self) -> IdCsrInnerValue {
        IdCsrInnerValue {
            version: self.version,
            subject: self.subject@,
            subject_public_key: self.subject_public_key.spec_info(),
            capabilities: self.capabilities,
        }
    }
}

/// The validation verdict for a request core: the subject name and the
/// capabilities must be well-formed, and the key's algorithm identifier must
/// be canonical so the core has a wire form.
pub open spec fn id_csr_inner_spec_validate(v: IdCsrInnerValue) -> Result<(), ConstraintError> {
    match name_spec_validate(v.subject) {
        Err(e) => Err(e),
        Ok(_) => match capabilities_spec_validate(v.capabilities) {
            Err(e) => Err(e),
            Ok(_) => if !canonical_oid(v.subject_public_key.algorithm.oid) {
                Err(ConstraintError::InvalidAlgorithmIdentifier)
            } else {
                Ok(())
            },
        },
    }
}

impl<S: Signature, P: PublicKey<S>> Constrained for IdCsrInner<S, P> {
    open spec fn spec_validate(&self) -> Result<(), ConstraintError> {
        id_csr_inner_spec_validate(self@)
    }

    fn validate(&self) -> (r: Result<(), ConstraintError>) {
        if let Err(e) = self.subject.validate() {
            return Err(e);
        }
        if let Err(e) = self.capabilities.validate() {
            return Err(e);
        }
        let info = self.subject_public_key.public_key_info();
        if !is_canonical_oid(&info.algorithm.oid) {
            return Err(ConstraintError::InvalidAlgorithmIdentifier);
        }
        Ok(())
    }
}

/// What decoding a request core from DER yields: the parsed wire parts,
/// mapped back through the profile's name and capability rules, with the
/// key pair checked against the pluggable key implementation.
pub open spec fn id_csr_inner_decoded<S: Signature, P: PublicKey<S>>(b: Seq<u8>) -> Result<
    IdCsrInnerValue,
    ConversionError,
> {
    match cert_req_info_parsed(b) {
        None => Err(ConversionError::DerDecode),
        Some(p) => match rdn_sequence_parsed(p.subject_der) {
            None => Err(ConversionError::DerDecode),
            Some(w) => match wire_to_name_spec(w) {
                Err(e) => Err(e),
                Ok(nv) => match spki_parsed(p.spki_der) {
                    None => Err(ConversionError::DerDecode),
                    Some((alg_der, key_bits)) => match alg_id_parsed(alg_der) {
                        None => Err(ConversionError::DerDecode),
                        Some(alg) => match attributes_parsed(p.attrs_der) {
                            None => Err(ConversionError::DerDecode),
                            Some(attrs) => match capabilities_from_attributes_spec(attrs) {
                                Err(e) => Err(e),
                                Ok(caps) => {
                                    let info = PublicKeyInfoValue {
                                        algorithm: alg,
                                        public_key_bitstring: key_bits,
                                    };
                                    if !P::spec_info_ok(info) {
                                        Err(ConversionError::InvalidPublicKey)
                                    } else {
                                        Ok(
                                            IdCsrInnerValue {
                                                version: PkcsVersion::V1,
                                                subject: nv,
                                                subject_public_key: info,
                                                capabilities: caps,
                                            },
                                        )
                                    }
                                },
                            },
                        },
                    },
                },
            },
        },
    }
}

/// What encoding a request core yields: first the library's own checks
/// (valid capabilities, canonical key algorithm identifier), then the chain
/// of named encoder results. A total function of the core's value, so
/// encoding is deterministic: equal cores yield identical bytes.
pub open spec fn id_csr_inner_encoded(v: IdCsrInnerValue) -> Result<Seq<u8>, ConversionError> {
    match capabilities_spec_validate(v.capabilities) {
        Err(e) => Err(ConversionError::ConstraintError(e)),
        Ok(_) => if !canonical_oid(v.subject_public_key.algorithm.oid) {
            Err(ConversionError::ConstraintError(ConstraintError::InvalidAlgorithmIdentifier))
        } else {
            match rdn_sequence_der(name_to_wire_spec(v.subject)) {
                None => Err(ConversionError::DerEncode),
                Some(sub) => match alg_id_der(v.subject_public_key.algorithm) {
                    None => Err(ConversionError::DerEncode),
                    Some(ad) => match spki_der_of(ad, v.subject_public_key.public_key_bitstring) {
                        None => Err(ConversionError::DerEncode),
                        Some(sp) => match extensions_der(
                            capabilities_to_extensions_spec(v.capabilities),
                        ) {
                            None => Err(ConversionError::DerEncode),
                            Some(ed) => match attributes_der(extension_request_oid(), ed) {
                                None => Err(ConversionError::DerEncode),
                                Some(atd) => match cert_req_info_der(
                                    CertReqInfoPartsValue {
                                        subject_der: sub,
                                        spki_der: sp,
                                        attrs_der: atd,
                                    },
                                ) {
                                    None => Err(ConversionError::DerEncode),
                                    Some(b) => Ok(b),
                                },
                            },
                        },
                    },
                },
            }
        },
    }
}

impl<S: Signature, P: PublicKey<S>> IdCsrInner<S, P> {
    /// Builds a request core from a subject name, the subject's public key
    /// and the requested capabilities, after validating name and
    /// capabilities.
    pub fn new(subject: Name, public_key: P, capabilities: Capabilities) -> (r: Result<
        IdCsrInner<S, P>,
        ConversionError,
    >)
        ensures
            name_spec_validate(subject@) matches Err(e) ==> r == Err::<IdCsrInner<S, P>, _>(
                ConversionError::ConstraintError(e),
            ),
            name_spec_validate(subject@) is Ok ==> (capabilities_spec_validate(capabilities)
                matches Err(e) ==> r == Err::<IdCsrInner<S, P>, _>(
                ConversionError::ConstraintError(e),
            )),
            name_spec_validate(subject@) is Ok && capabilities_spec_validate(capabilities) is Ok
                ==> ({
                &&& r matches Ok(inner)
                &&& inner@ == (IdCsrInnerValue {
                    version: PkcsVersion::V1,
                    subject: subject@,
                    subject_public_key: public_key.spec_info(),
                    capabilities,
                })
            }),
    {
        if let Err(e) = subject.validate() {
            return Err(ConversionError::ConstraintError(e));
        }
        if let Err(e) = capabilities.validate() {
            return Err(ConversionError::ConstraintError(e));
        }
        Ok(
            IdCsrInner {
                version: PkcsVersion::V1,
                subject,
                subject_public_key: public_key,
                capabilities,
                phantom_data: core::marker::PhantomData,
            },
        )
    }

    /// Encodes this request core as a DER certification request info.
    /// The result is exactly what the encoding function of the core's value
    /// dictates — success owed, errors exact, encoding deterministic — and
    /// decoding the produced bytes yields this core's value back.
    pub fn to_der(&self) -> (r: Result<Vec<u8>, ConversionError>)
        ensures
            r matches Ok(b) ==> id_csr_inner_encoded(self@) == Ok::<Seq<u8>, ConversionError>(b@)
                && id_csr_inner_decoded::<S, P>(b@) == Ok::<_, ConversionError>(self@)
                && canonical_der(b@),
            r matches Err(e) ==> id_csr_inner_encoded(self@) == Err::<Seq<u8>, ConversionError>(
                e,
            ),
    {
        if let Err(e) = self.capabilities.validate() {
            return Err(ConversionError::ConstraintError(e));
        }
        let pk_info = self.subject_public_key.public_key_info();
        if !is_canonical_oid(&pk_info.algorithm.oid) {
            return Err(ConversionError::ConstraintError(
                ConstraintError::InvalidAlgorithmIdentifier,
            ));
        }
        let wire_name = name_to_wire(&self.subject);
        let subject_der = match rdn_sequence_to_der(&wire_name) {
            Ok(v) => v,
            Err(_) => return Err(ConversionError::DerEncode),
        };
        proof {
            assert(pk_info@ =~= self.subject_public_key.spec_info());
        }
        let alg_der = match alg_id_to_der(&pk_info.algorithm) {
            Ok(v) => v,
            Err(_) => return Err(ConversionError::DerEncode),
        };
        let spki_der = match spki_to_der(&alg_der, &pk_info.public_key_bitstring) {
            Ok(v) => v,
            Err(_) => return Err(ConversionError::DerEncode),
        };
        let exts = self.capabilities.to_extensions();
        proof {
            crate::capabilities::lemma_extension_oids_canonical();
        }
        let exts_der = match extensions_to_der(&exts) {
            Ok(v) => v,
            Err(_) => return Err(ConversionError::DerEncode),
        };
        let ext_req: String = "1.2.840.113549.1.9.14".to_owned();
        proof {
            lemma_extension_request_oid();
        }
        let attrs_der = match attributes_to_der(&ext_req, &exts_der) {
            Ok(v) => v,
            Err(_) => return Err(ConversionError::DerEncode),
        };
        let parts = CertReqInfoParts { subject_der, spki_der, attrs_der };
        let out = match cert_req_info_to_der(&parts) {
            Ok(v) => v,
            Err(_) => return Err(ConversionError::DerEncode),
        };
        proof {
            lemma_name_wire_round_trip(self.subject@);
            let attrs = seq![
                AttributeDataValue { oid: ext_req@, values: seq![exts_der@] },
            ];
            assert(attrs.len() == 1 && attrs[0].oid == extension_request_oid());
            assert(capabilities_from_attributes_spec(attrs) == capabilities_from_extensions_spec(
                capabilities_to_extensions_spec(self.capabilities),
            ));
            lemma_capabilities_round_trip(self.capabilities);
            assert(pk_info@ =~= self.subject_public_key.spec_info());
            assert((PublicKeyInfoValue {
                algorithm: pk_info@.algorithm,
                public_key_bitstring: pk_info@.public_key_bitstring,
            }) =~= pk_info@);
            assert(id_csr_inner_decoded::<S, P>(out@) =~= Ok::<_, ConversionError>(self@));
            assert(id_csr_inner_encoded(self@) =~= Ok::<Seq<u8>, ConversionError>(out@));
        }
        Ok(out)
    }

    /// Decodes a request core from a DER certification request info. The
    /// result is exactly what the decoding function of the bytes dictates;
    /// structural validation is not run here — the caller validates
    /// explicitly.
    pub fn from_der(bytes: &[u8]) -> (r: Result<IdCsrInner<S, P>, ConversionError>)
        ensures
            r matches Ok(inner) ==> id_csr_inner_decoded::<S, P>(bytes@) == Ok::<
                _,
                ConversionError,
            >(inner@),
            r matches Err(e) ==> id_csr_inner_decoded::<S, P>(bytes@) == Err::<
                IdCsrInnerValue,
                _,
            >(e),
    {
        let p = match cert_req_info_from_der(bytes) {
            Ok(v) => v,
            Err(_) => return Err(ConversionError::DerDecode),
        };
        let w = match rdn_sequence_from_der(p.subject_der.as_slice()) {
            Ok(v) => v,
            Err(_) => return Err(ConversionError::DerDecode),
        };
        let subject = match wire_to_name(&w) {
            Ok(n) => n,
            Err(e) => return Err(e),
        };
        let (alg_der, key_bits) = match spki_from_der(p.spki_der.as_slice()) {
            Ok(v) => v,
            Err(_) => return Err(ConversionError::DerDecode),
        };
        let alg = match alg_id_from_der(alg_der.as_slice()) {
            Ok(v) => v,
            Err(_) => return Err(ConversionError::DerDecode),
        };
        let attrs = match attributes_from_der(p.attrs_der.as_slice()) {
            Ok(v) => v,
            Err(_) => return Err(ConversionError::DerDecode),
        };
        let capabilities = match capabilities_from_attributes(&attrs) {
            Ok(v) => v,
            Err(e) => return Err(e),
        };
        let info = PublicKeyInfo { algorithm: alg, public_key_bitstring: key_bits };
        let subject_public_key = match P::from_public_key_info(info) {
            Ok(k) => k,
            Err(_) => return Err(ConversionError::InvalidPublicKey),
        };
        let out = IdCsrInner {
            version: PkcsVersion::V1,
            subject,
            subject_public_key,
            capabilities,
            phantom_data: core::marker::PhantomData,
        };
        proof {
            assert(out@ =~= (match id_csr_inner_decoded::<S, P>(bytes@) {
                Ok(v) => v,
                Err(_) => out@,
            }));
        }
        Ok(out)
    }
}


/// A certificate signing request: the request core, the algorithm of the
/// signature, and the subject's signature over the core's DER encoding.
#[derive(Debug, PartialEq, Eq)]
pub struct IdCsr<S: Signature, P: PublicKey<S>> {
    /// The request core.
    pub inner_csr: IdCsrInner<S, P>,
    /// The algorithm the signature was created with.
    pub signature_algorithm: crate::types::AlgorithmIdentifierOwned,
    /// The signature over the core's DER encoding.
    pub signature: S,
}

/// The abstract value of an [`IdCsr`].
#[verifier::ext_equal]
pub struct IdCsrValue {
    /// The request core's value.
    pub inner_csr: IdCsrInnerValue,
    /// The signature algorithm.
    pub signature_algorithm: AlgorithmIdentifierValue,
    /// The signature's raw bytes.
    pub signature: Seq<u8>,
}

impl<S: Signature, P: PublicKey<S>> View for IdCsr<S, P> {
    type V = IdCsrValue;

    open spec fn view(&self) -> IdCsrValue {
        IdCsrValue {
            inner_csr: self.inner_csr@,
            signature_algorithm: self.signature_algorithm@,
            signature: self.signature.spec_bytes(),
        }
    }
}

/// The validation verdict for a signed request: its core must be valid and
/// the signature algorithm identifier canonical.
pub open spec fn id_csr_spec_validate(v: IdCsrValue) -> Result<(), ConstraintError> {
    match id_csr_inner_spec_validate(v.inner_csr) {
        Err(e) => Err(e),
        Ok(_) => if !canonical_oid(v.signature_algorithm.oid) {
            Err(ConstraintError::InvalidAlgorithmIdentifier)
        } else {
            Ok(())
        },
    }
}

impl<S: Signature, P: PublicKey<S>> Constrained for IdCsr<S, P> {
    open spec fn spec_validate(&self) -> Result<(), ConstraintError> {
        id_csr_spec_validate(self@)
    }

    fn validate(&self) -> (r: Result<(), ConstraintError>) {
        if let Err(e) = self.inner_csr.validate() {
            return Err(e);
        }
        if !is_canonical_oid(&self.signature_algorithm.oid) {
            return Err(ConstraintError::InvalidAlgorithmIdentifier);
        }
        Ok(())
    }
}

/// The verdict of actor validation: a structurally valid request whose
/// capabilities do not claim the CA role.
pub open spec fn id_csr_validate_actor_spec(v: IdCsrValue) -> Result<(), ConversionError> {
    match id_csr_spec_validate(v) {
        Err(e) => Err(ConversionError::ConstraintError(e)),
        Ok(_) => if v.inner_csr.capabilities.basic_constraints.ca {
            Err(ConversionError::ConstraintError(ConstraintError::ActorCannotBeCa))
        } else {
            Ok(())
        },
    }
}

/// The verdict of home-server validation: a structurally valid request
/// whose capabilities claim the CA role.
pub open spec fn id_csr_validate_home_server_spec(v: IdCsrValue) -> Result<(), ConversionError> {
    match id_csr_spec_validate(v) {
        Err(e) => Err(ConversionError::ConstraintError(e)),
        Ok(_) => if !v.inner_csr.capabilities.basic_constraints.ca {
            Err(ConversionError::ConstraintError(ConstraintError::HomeServerMustBeCa))
        } else {
            Ok(())
        },
    }
}

/// A valid request passes exactly one of the two role validations: the one
/// matching its CA flag. Actor and home-server acceptance are mutually
/// exclusive, and validating twice returns the same verdict, since every
/// verdict is a function of the request's value alone.
pub proof fn lemma_role_exclusive(v: IdCsrValue)
    requires
        id_csr_spec_validate(v) is Ok,
    ensures
        id_csr_validate_actor_spec(v) is Ok <==> !v.inner_csr.capabilities.basic_constraints.ca,
        id_csr_validate_home_server_spec(v) is Ok
            <==> v.inner_csr.capabilities.basic_constraints.ca,
        id_csr_validate_actor_spec(v) is Ok <==> !(id_csr_validate_home_server_spec(v) is Ok),
        v.inner_csr.capabilities.basic_constraints.ca ==> id_csr_validate_actor_spec(v) == Err::<
            (),
            _,
        >(ConversionError::ConstraintError(ConstraintError::ActorCannotBeCa)),
        !v.inner_csr.capabilities.basic_constraints.ca ==> id_csr_validate_home_server_spec(v)
            == Err::<(), _>(ConversionError::ConstraintError(ConstraintError::HomeServerMustBeCa)),
{
}

/// What decoding a signed request from DER yields.
pub open spec fn id_csr_decoded<S: Signature, P: PublicKey<S>>(b: Seq<u8>) -> Result<
    IdCsrValue,
    ConversionError,
> {
    match cert_req_parsed(b) {
        None => Err(ConversionError::DerDecode),
        Some((info_der, alg_der, sig_bits)) => match id_csr_inner_decoded::<S, P>(info_der) {
            Err(e) => Err(e),
            Ok(iv) => match alg_id_parsed(alg_der) {
                None => Err(ConversionError::DerDecode),
                Some(av) => if !S::spec_bytes_ok(sig_bits) {
                    Err(ConversionError::InvalidSignatureBytes)
                } else {
                    Ok(IdCsrValue { inner_csr: iv, signature_algorithm: av, signature: sig_bits })
                },
            },
        },
    }
}

/// What decoding a signed request from its PEM text form yields.
pub open spec fn id_csr_pem_decoded<S: Signature, P: PublicKey<S>>(s: Seq<char>) -> Result<
    IdCsrValue,
    ConversionError,
> {
    match cert_req_pem_parsed(s) {
        None => Err(ConversionError::DerDecode),
        Some(b) => id_csr_decoded::<S, P>(b),
    }
}

/// What encoding a signed request yields: the core's encoding, the
/// canonical-identifier check on the signature algorithm, and the chain of
/// named encoder results. A total function of the request's value (the
/// signature enters as its bytes), so encoding is deterministic.
pub open spec fn id_csr_encoded(v: IdCsrValue) -> Result<Seq<u8>, ConversionError> {
    match id_csr_inner_encoded(v.inner_csr) {
        Err(e) => Err(e),
        Ok(info) => if !canonical_oid(v.signature_algorithm.oid) {
            Err(ConversionError::ConstraintError(ConstraintError::InvalidAlgorithmIdentifier))
        } else {
            match alg_id_der(v.signature_algorithm) {
                None => Err(ConversionError::DerEncode),
                Some(ad) => match cert_req_der(info, ad, v.signature) {
                    None => Err(ConversionError::DerEncode),
                    Some(b) => Ok(b),
                },
            }
        },
    }
}

impl<S: Signature, P: PublicKey<S>> IdCsr<S, P> {
    /// Builds and signs a request: validates the subject and capabilities
    /// first (before any cryptographic work), then signs the core's DER
    /// encoding with the subject's private key and records the signature
    /// type's algorithm identifier.
    pub fn new<K: PrivateKey<S, PublicKey = P>>(
        subject: Name,
        signing_key: &K,
        capabilities: Capabilities,
    ) -> (r: Result<IdCsr<S, P>, ConversionError>)
        ensures
            name_spec_validate(subject@) matches Err(e) ==> r == Err::<IdCsr<S, P>, _>(
                ConversionError::ConstraintError(e),
            ),
            name_spec_validate(subject@) is Ok ==> (capabilities_spec_validate(capabilities)
                matches Err(e) ==> r == Err::<IdCsr<S, P>, _>(
                ConversionError::ConstraintError(e),
            )),
            r matches Ok(csr) ==> ({
                &&& csr.inner_csr@ == (IdCsrInnerValue {
                    version: PkcsVersion::V1,
                    subject: subject@,
                    subject_public_key: signing_key.spec_pubkey_info(),
                    capabilities,
                })
                &&& csr.signature_algorithm@ == S::spec_algorithm_identifier()
            }),
            name_spec_validate(subject@) is Ok && capabilities_spec_validate(capabilities) is Ok
                ==> ({
                let inner = IdCsrInnerValue {
                    version: PkcsVersion::V1,
                    subject: subject@,
                    subject_public_key: signing_key.spec_pubkey_info(),
                    capabilities,
                };
                &&& (id_csr_inner_encoded(inner) matches Err(e) ==> r == Err::<IdCsr<S, P>, _>(
                    e,
                ))
                &&& (id_csr_inner_encoded(inner) is Ok ==> r is Ok)
            }),
    {
        if let Err(e) = subject.validate() {
            return Err(ConversionError::ConstraintError(e));
        }
        if let Err(e) = capabilities.validate() {
            return Err(ConversionError::ConstraintError(e));
        }
        let pubkey = match P::from_public_key_info(signing_key.pubkey().public_key_info()) {
            Ok(k) => k,
            Err(e) => return Err(e),
        };
        let inner_csr = match IdCsrInner::<S, P>::new(subject, pubkey, capabilities) {
            Ok(v) => v,
            Err(e) => return Err(e),
        };
        let inner_der = match inner_csr.to_der() {
            Ok(v) => v,
            Err(e) => return Err(e),
        };
        let signature = signing_key.sign(inner_der.as_slice());
        let signature_algorithm = S::algorithm_identifier();
        Ok(IdCsr { inner_csr, signature_algorithm, signature })
    }

    /// Checks the request's well-formedness for the actor role: the generic
    /// rules, then that the CA capability is absent.
    pub fn validate_actor(&self) -> (r: Result<(), ConversionError>)
        ensures
            r == id_csr_validate_actor_spec(self@),
    {
        if let Err(e) = self.validate() {
            return Err(ConversionError::ConstraintError(e));
        }
        if self.inner_csr.capabilities.basic_constraints.ca {
            return Err(ConversionError::ConstraintError(ConstraintError::ActorCannotBeCa));
        }
        Ok(())
    }

    /// Checks the request's well-formedness for the home-server role: the
    /// generic rules, then that the CA capability is present.
    pub fn validate_home_server(&self) -> (r: Result<(), ConversionError>)
        ensures
            r == id_csr_validate_home_server_spec(self@),
    {
        if let Err(e) = self.validate() {
            return Err(ConversionError::ConstraintError(e));
        }
        if !self.inner_csr.capabilities.basic_constraints.ca {
            return Err(ConversionError::ConstraintError(ConstraintError::HomeServerMustBeCa));
        }
        Ok(())
    }

    /// Encodes this request as a DER PKCS #10 certification request. The
    /// result is what the encoding function of the request's value dictates
    /// (success owed, errors exact, deterministic), except that serializing
    /// the pluggable signature value may fail, which is reported as an
    /// invalid signature value. Decoding the produced bytes yields this
    /// request's value back: the binary round trip.
    pub fn to_der(&self) -> (r: Result<Vec<u8>, ConversionError>)
        ensures
            r matches Ok(b) ==> id_csr_encoded(self@) == Ok::<Seq<u8>, ConversionError>(b@)
                && id_csr_decoded::<S, P>(b@) == Ok::<_, ConversionError>(self@)
                && canonical_der(b@),
            r matches Err(e) ==> e == ConversionError::ConstraintError(
                ConstraintError::InvalidSignatureValue,
            ) || id_csr_encoded(self@) == Err::<Seq<u8>, ConversionError>(e),
            id_csr_encoded(self@) is Ok ==> r is Ok || r == Err::<Vec<u8>, _>(
                ConversionError::ConstraintError(ConstraintError::InvalidSignatureValue),
            ),
    {
        let info_der = match self.inner_csr.to_der() {
            Ok(v) => v,
            Err(e) => return Err(e),
        };
        if !is_canonical_oid(&self.signature_algorithm.oid) {
            return Err(ConversionError::ConstraintError(
                ConstraintError::InvalidAlgorithmIdentifier,
            ));
        }
        let alg_der = match alg_id_to_der(&self.signature_algorithm) {
            Ok(v) => v,
            Err(_) => return Err(ConversionError::DerEncode),
        };
        let sig_bits = match self.signature.to_bytes() {
            Ok(v) => v,
            Err(_) => return Err(ConversionError::ConstraintError(
                ConstraintError::InvalidSignatureValue,
            )),
        };
        let out = match cert_req_to_der(&info_der, &alg_der, &sig_bits) {
            Ok(v) => v,
            Err(_) => return Err(ConversionError::DerEncode),
        };
        proof {
            assert(id_csr_decoded::<S, P>(out@) =~= Ok::<_, ConversionError>(self@));
            assert(id_csr_encoded(self@) =~= Ok::<Seq<u8>, ConversionError>(out@));
        }
        Ok(out)
    }

    /// Decodes a request from a DER PKCS #10 certification request. No
    /// signature verification happens here; verification is a separate,
    /// explicit step.
    pub fn from_der(bytes: &[u8]) -> (r: Result<IdCsr<S, P>, ConversionError>)
        ensures
            r matches Ok(csr) ==> id_csr_decoded::<S, P>(bytes@) == Ok::<_, ConversionError>(
                csr@,
            ),
            r matches Err(e) ==> id_csr_decoded::<S, P>(bytes@) == Err::<IdCsrValue, _>(e),
    {
        let (info_der, alg_der, sig_bits) = match cert_req_from_der(bytes) {
            Ok(v) => v,
            Err(_) => return Err(ConversionError::DerDecode),
        };
        let inner_csr = match IdCsrInner::<S, P>::from_der(info_der.as_slice()) {
            Ok(v) => v,
            Err(e) => return Err(e),
        };
        let signature_algorithm = match alg_id_from_der(alg_der.as_slice()) {
            Ok(v) => v,
            Err(_) => return Err(ConversionError::DerDecode),
        };
        let signature = match S::from_bytes(sig_bits.as_slice()) {
            Ok(v) => v,
            Err(_) => return Err(ConversionError::InvalidSignatureBytes),
        };
        let out = IdCsr { inner_csr, signature_algorithm, signature };
        proof {
            assert(out@ =~= (match id_csr_decoded::<S, P>(bytes@) {
                Ok(v) => v,
                Err(_) => out@,
            }));
        }
        Ok(out)
    }

    /// Encodes this request as PEM text: exactly the base64 wrapping of
    /// this request's DER encoding under the chosen line ending. Reading the
    /// produced text back yields this request's value: the text round trip.
    /// As with the binary form, only serializing the pluggable signature
    /// value may fail outside the encoding function.
    pub fn to_pem(&self, line_ending: LineEnding) -> (r: Result<String, ConversionError>)
        ensures
            r matches Ok(p) ==> (id_csr_encoded(self@) matches Ok(b) && cert_req_pem(
                b,
                line_ending_code(line_ending),
            ) == Some(p@) && id_csr_pem_decoded::<S, P>(p@) == Ok::<_, ConversionError>(self@)),
            r matches Err(e) ==> e == ConversionError::ConstraintError(
                ConstraintError::InvalidSignatureValue,
            ) || id_csr_encoded(self@) == Err::<Seq<u8>, ConversionError>(e) || (id_csr_encoded(
                self@,
            ) matches Ok(b) && cert_req_pem(b, line_ending_code(line_ending)) is None && e
                == ConversionError::DerEncode),
            id_csr_encoded(self@) matches Ok(b) && cert_req_pem(
                b,
                line_ending_code(line_ending),
            ) is Some ==> r is Ok || r == Err::<String, _>(
                ConversionError::ConstraintError(ConstraintError::InvalidSignatureValue),
            ),
    {
        let der = match self.to_der() {
            Ok(v) => v,
            Err(e) => return Err(e),
        };
        match cert_req_der_to_pem(&der, line_ending) {
            Ok(p) => Ok(p),
            Err(_) => Err(ConversionError::DerEncode),
        }
    }

    /// Decodes a request from its PEM text form.
    pub fn from_pem(pem: &str) -> (r: Result<IdCsr<S, P>, ConversionError>)
        ensures
            r matches Ok(csr) ==> id_csr_pem_decoded::<S, P>(pem@) == Ok::<_, ConversionError>(
                csr@,
            ),
            r matches Err(e) ==> id_csr_pem_decoded::<S, P>(pem@) == Err::<IdCsrValue, _>(e),
    {
        let der = match cert_req_pem_to_der(pem) {
            Ok(v) => v,
            Err(_) => return Err(ConversionError::DerDecode),
        };
        Self::from_der(der.as_slice())
    }
}

} // verus!
