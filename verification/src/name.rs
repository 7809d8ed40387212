//! Structured federation identities: an ordered sequence of typed name
//! components, at minimum a subject common name followed by the domain
//! components that scope the subject to its home-server domain.
use vstd::prelude::*;

verus! {

use crate::Constrained;
use crate::errors::ConstraintError;

/// The attribute types a name of this profile may carry.
#[derive(Debug, Clone, Copy, PartialEq, Eq, Structural)]
pub enum NameComponentKind {
    /// The subject's identifier (its federation name).
    CommonName,
    /// One level of the home-server domain, in order from the leftmost
    /// subdomain down to the top-level domain.
    DomainComponent,
    /// An optional organizational unit.
    OrganizationalUnit,
}

/// One typed component of a name.
#[derive(Debug, Clone, PartialEq, Eq)]
pub struct NameComponent {
    /// The attribute type of this component.
    pub kind: NameComponentKind,
    /// The attribute value.
    pub value: String,
}

/// The abstract value of a [`NameComponent`].
#[verifier::ext_equal]
pub struct NameComponentValue {
    /// The attribute type of the component.
    pub kind: NameComponentKind,
    /// The component's characters.
    pub value: Seq<char>,
}

impl View for NameComponent {
    type V = NameComponentValue;

    open spec fn view(&self) -> NameComponentValue {
        NameComponentValue { kind: self.kind, value: self.value@ }
    }
}

/// A structured identity: an ordered sequence of typed components.
#[derive(Debug, Clone, PartialEq, Eq)]
pub struct Name {
    /// The components, in their significant order: the common name first,
    /// then the domain components from leftmost subdomain to top-level
    /// domain, then any organizational units.
    pub components: Vec<NameComponent>,
}

impl View for Name {
    type V = Seq<NameComponentValue>;

    open spec fn view(&self) -> Seq<NameComponentValue> {
        self.components@.map_values(|c: NameComponent| c@)
    }
}

/// True of the characters a DNS label may hold.
pub open spec fn valid_label_char(c: char) -> bool {
    ('a' <= c && c <= 'z') || ('0' <= c && c <= '9') || c == '-'
}

/// True of a valid lowercase DNS label: 1 to 63 characters, letters, digits
/// and hyphens only, and no hyphen at either end.
pub open spec fn valid_label(s: Seq<char>) -> bool {
    &&& 1 <= s.len() <= 63
    &&& s[0] != '-'
    &&& s[s.len() - 1] != '-'
    &&& forall|i: int| 0 <= i < s.len() ==> valid_label_char(#[trigger] s[i])
}

/// True of the characters a common name may hold.
pub open spec fn valid_common_name_char(c: char) -> bool {
    ('a' <= c && c <= 'z') || ('0' <= c && c <= '9') || c == '-' || c == '.' || c == '_'
        || c == '@'
}

/// True of a valid common name: 1 to 64 characters from the federation
/// identifier alphabet.
pub open spec fn valid_common_name(s: Seq<char>) -> bool {
    &&& 1 <= s.len() <= 64
    &&& forall|i: int| 0 <= i < s.len() ==> valid_common_name_char(#[trigger] s[i])
}

/// True of the characters an organizational unit may hold.
pub open spec fn valid_unit_char(c: char) -> bool {
    ('a' <= c && c <= 'z') || ('0' <= c && c <= '9') || c == '-' || c == '.' || c == '_'
}

/// True of a valid organizational unit value: 1 to 64 characters.
pub open spec fn valid_unit(s: Seq<char>) -> bool {
    &&& 1 <= s.len() <= 64
    &&& forall|i: int| 0 <= i < s.len() ==> valid_unit_char(#[trigger] s[i])
}

/// The domain component values of a name, in order.
pub open spec fn domain_components_of(n: Seq<NameComponentValue>) -> Seq<Seq<char>>
    decreases n.len(),
{
    if n.len() == 0 {
        Seq::empty()
    } else if n.last().kind == NameComponentKind::DomainComponent {
        domain_components_of(n.drop_last()).push(n.last().value)
    } else {
        domain_components_of(n.drop_last())
    }
}

/// The validation verdict for a name: the common name must come first and be
/// unique, every value must be valid for its kind, and at least one domain
/// component must be present.
pub open spec fn name_spec_validate(n: Seq<NameComponentValue>) -> Result<(), ConstraintError> {
    if n.len() == 0 {
        Err(ConstraintError::EmptyName)
    } else if n[0].kind != NameComponentKind::CommonName {
        Err(ConstraintError::MisplacedCommonName)
    } else if exists|i: int|
        1 <= i < n.len() && #[trigger] n[i].kind == NameComponentKind::CommonName {
        Err(ConstraintError::MisplacedCommonName)
    } else if !valid_common_name(n[0].value) {
        Err(ConstraintError::InvalidCommonName)
    } else if exists|i: int|
        0 <= i < n.len() && #[trigger] n[i].kind == NameComponentKind::DomainComponent
            && !valid_label(n[i].value) {
        Err(ConstraintError::InvalidDomainComponent)
    } else if !(exists|i: int|
        0 <= i < n.len() && #[trigger] n[i].kind == NameComponentKind::DomainComponent) {
        Err(ConstraintError::MissingDomainComponents)
    } else if exists|i: int|
        0 <= i < n.len() && #[trigger] n[i].kind == NameComponentKind::OrganizationalUnit
            && !valid_unit(n[i].value) {
        Err(ConstraintError::InvalidOrganizationalUnit)
    } else {
        Ok(())
    }
}

/// Checks one string against a character predicate and a length range.
/// `mode` selects the predicate: 0 for labels, 1 for common names, 2 for
/// organizational units.
fn check_value(s: &String, mode: u8) -> (r: bool)
    requires
        mode == 0 || mode == 1 || mode == 2,
    ensures
        mode == 0 ==> r == valid_label(s@),
        mode == 1 ==> r == valid_common_name(s@),
        mode == 2 ==> r == valid_unit(s@),
{
    broadcast use vstd::string::is_ascii_spec_bytes;

    let max: usize = if mode == 0 {
        63
    } else {
        64
    };
    let st = s.as_str();
    if !st.is_ascii() {
        // A non-ASCII string has some character above '\u{7f}', which no
        // predicate accepts.
        assert(exists|i: int| 0 <= i < s@.len() && !('\0' <= #[trigger] s@[i] <= '\u{7f}'));
        return false;
    }
    let b = st.as_bytes();
    proof {
        assert(b@ =~= Seq::new(s@.len(), |j: int| s@[j] as u8));
    }
    if b.len() < 1 || b.len() > max {
        return false;
    }
    if mode == 0 && (b[0] == 45 || b[b.len() - 1] == 45) {
        assert(s@[0] as u8 == b@[0] && s@[s@.len() - 1] as u8 == b@[s@.len() - 1]);
        return false;
    }
    for i in 0..b.len()
        invariant
            b@ =~= Seq::new(s@.len(), |j: int| s@[j] as u8),
            b@.len() == s@.len(),
            vstd::utf8::is_ascii_chars(s@),
            mode == 0 || mode == 1 || mode == 2,
            max as int == if mode == 0 { 63int } else { 64int },
            1 <= b@.len() <= max as int,
            mode == 0 ==> s@[0] != '-' && s@[s@.len() - 1] != '-',
            forall|j: int|
                0 <= j < i ==> {
                    let c = #[trigger] s@[j];
                    if mode == 0 {
                        valid_label_char(c)
                    } else if mode == 1 {
                        valid_common_name_char(c)
                    } else {
                        valid_unit_char(c)
                    }
                },
    {
        let v = b[i];
        let ok = (97 <= v && v <= 122) || (48 <= v && v <= 57) || v == 45 || (mode != 0 && (v
            == 46 || v == 95)) || (mode == 1 && v == 64);
        proof {
            assert(s@[i as int] as u8 == v);
            assert('\0' <= s@[i as int] <= '\u{7f}');
        }
        if !ok {
            return false;
        }
    }
    true
}

impl Constrained for Name {
    open spec fn spec_validate(&self) -> Result<(), ConstraintError> {
        name_spec_validate(self@)
    }

    fn validate(&self) -> (r: Result<(), ConstraintError>) {
        let n = self.components.len();
        if n == 0 {
            return Err(ConstraintError::EmptyName);
        }
        if !matches!(self.components[0].kind, NameComponentKind::CommonName) {
            return Err(ConstraintError::MisplacedCommonName);
        }
        for i in 1..n
            invariant
                n == self@.len(),
                n >= 1,
                self@[0].kind == NameComponentKind::CommonName,
                forall|j: int| 1 <= j < i ==> #[trigger] self@[j].kind
                    != NameComponentKind::CommonName,
        {
            if matches!(self.components[i].kind, NameComponentKind::CommonName) {
                assert(self@[i as int].kind == NameComponentKind::CommonName);
                return Err(ConstraintError::MisplacedCommonName);
            }
        }
        if !check_value(&self.components[0].value, 1) {
            return Err(ConstraintError::InvalidCommonName);
        }
        let mut has_dc = false;
        for i in 0..n
            invariant
                n == self@.len(),
                n >= 1,
                self@[0].kind == NameComponentKind::CommonName,
                forall|j: int| 1 <= j < n ==> #[trigger] self@[j].kind
                    != NameComponentKind::CommonName,
                valid_common_name(self@[0].value),
                forall|j: int| 0 <= j < i && #[trigger] self@[j].kind
                    == NameComponentKind::DomainComponent ==> valid_label(self@[j].value),
                has_dc == exists|j: int|
                    0 <= j < i && #[trigger] self@[j].kind == NameComponentKind::DomainComponent,
        {
            if matches!(self.components[i].kind, NameComponentKind::DomainComponent) {
                assert(self@[i as int].kind == NameComponentKind::DomainComponent);
                if !check_value(&self.components[i].value, 0) {
                    assert(!valid_label(self@[i as int].value));
                    return Err(ConstraintError::InvalidDomainComponent);
                }
                has_dc = true;
            } else {
                assert(self@[i as int].kind != NameComponentKind::DomainComponent);
            }
        }
        if !has_dc {
            return Err(ConstraintError::MissingDomainComponents);
        }
        for i in 0..n
            invariant
                n == self@.len(),
                n >= 1,
                self@[0].kind == NameComponentKind::CommonName,
                forall|j: int| 1 <= j < n ==> #[trigger] self@[j].kind
                    != NameComponentKind::CommonName,
                valid_common_name(self@[0].value),
                forall|j: int| 0 <= j < n && #[trigger] self@[j].kind
                    == NameComponentKind::DomainComponent ==> valid_label(self@[j].value),
                exists|j: int|
                    0 <= j < n && #[trigger] self@[j].kind == NameComponentKind::DomainComponent,
                forall|j: int| 0 <= j < i && #[trigger] self@[j].kind
                    == NameComponentKind::OrganizationalUnit ==> valid_unit(self@[j].value),
        {
            if matches!(self.components[i].kind, NameComponentKind::OrganizationalUnit) {
                assert(self@[i as int].kind == NameComponentKind::OrganizationalUnit);
                if !check_value(&self.components[i].value, 2) {
                    assert(!valid_unit(self@[i as int].value));
                    return Err(ConstraintError::InvalidOrganizationalUnit);
                }
            }
        }
        Ok(())
    }
}

impl Name {
    /// The domain component values of this name, in order.
    pub fn domain_components(&self) -> (r: Vec<String>)
        ensures
            r@.map_values(|s: String| s@) == domain_components_of(self@),
    {
        let mut acc: Vec<String> = Vec::new();
        let n = self.components.len();
        for i in 0..n
            invariant
                n == self@.len(),
                acc@.map_values(|s: String| s@) =~= domain_components_of(self@.take(i as int)),
        {
            proof {
                assert(self@.take(i + 1).drop_last() =~= self@.take(i as int));
                assert(self@.take(i + 1).last() == self@[i as int]);
            }
            if matches!(self.components[i].kind, NameComponentKind::DomainComponent) {
                acc.push(self.components[i].value.clone());
            }
            proof {
                assert(acc@.map_values(|s: String| s@) =~= domain_components_of(
                    self@.take(i + 1),
                ));
            }
        }
        proof {
            assert(self@.take(n as int) =~= self@);
        }
        acc
    }
}

/// True when two names agree on their domain components, read in order:
/// the federation model's test that an authority's domain scope covers a
/// subject.
pub fn equal_domain_components(a: &Name, b: &Name) -> (r: bool)
    ensures
        r == (domain_components_of(a@) == domain_components_of(b@)),
{
    let da = a.domain_components();
    let db = b.domain_components();
    if da.len() != db.len() {
        assert(domain_components_of(a@).len() != domain_components_of(b@).len());
        return false;
    }
    for i in 0..da.len()
        invariant
            da@.map_values(|s: String| s@) == domain_components_of(a@),
            db@.map_values(|s: String| s@) == domain_components_of(b@),
            da@.len() == db@.len(),
            forall|j: int| 0 <= j < i ==> #[trigger] da@[j]@ == db@[j]@,
    {
        if !(da[i] == db[i]) {
            assert(domain_components_of(a@)[i as int] != domain_components_of(b@)[i as int]);
            return false;
        }
    }
    proof {
        assert(domain_components_of(a@) =~~= domain_components_of(b@));
    }
    true
}

} // verus!
