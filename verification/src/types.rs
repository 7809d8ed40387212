//! Plain-value carriers for the wire format's algorithm identifiers and
//! public key info structures, with the canonical dotted-decimal object
//! identifier form the profile requires.
use vstd::prelude::*;

verus! {

/// An algorithm identifier: an object identifier in dotted-decimal form plus
/// optional DER-encoded parameters.
#[derive(Debug, Clone, PartialEq, Eq)]
pub struct AlgorithmIdentifierOwned {
    /// The object identifier, dotted decimal (for example `1.3.101.112`).
    pub oid: String,
    /// The DER encoding of the parameters value, if the algorithm has one.
    pub parameters: Option<Vec<u8>>,
}

/// The abstract value of an [`AlgorithmIdentifierOwned`].
#[verifier::ext_equal]
pub struct AlgorithmIdentifierValue {
    /// The identifier's characters.
    pub oid: Seq<char>,
    /// The parameter bytes, if any.
    pub parameters: Option<Seq<u8>>,
}

impl View for AlgorithmIdentifierOwned {
    type V = AlgorithmIdentifierValue;

    open spec fn view(&self) -> AlgorithmIdentifierValue {
        AlgorithmIdentifierValue {
            oid: self.oid@,
            parameters: match self.parameters {
                Some(p) => Some(p@),
                None => None,
            },
        }
    }
}

impl AlgorithmIdentifierOwned {
    /// Builds an algorithm identifier from its object identifier and
    /// optional DER parameters.
    pub fn new(oid: String, parameters: Option<Vec<u8>>) -> (r: Self)
        ensures
            r@.oid == oid@,
            r@.parameters == match parameters {
                Some(p) => Some(p@),
                None => None::<Seq<u8>>,
            },
    {
        Self { oid, parameters }
    }
}

impl AlgorithmIdentifierOwned {
    /// Encodes this identifier as DER. The result is exactly what the
    /// identifier's value dictates: a non-canonical object identifier is
    /// rejected, otherwise the named encoder result decides success, its
    /// bytes decode back to this identifier, and equal identifiers encode
    /// to equal bytes.
    pub fn to_der(&self) -> (r: Result<Vec<u8>, crate::errors::ConversionError>)
        ensures
            !canonical_oid(self@.oid) ==> r == Err::<Vec<u8>, _>(
                crate::errors::ConversionError::ConstraintError(
                    crate::errors::ConstraintError::InvalidAlgorithmIdentifier,
                ),
            ),
            canonical_oid(self@.oid) ==> ({
                &&& (r matches Ok(b) ==> crate::wire::alg_id_der(self@) == Some(b@)
                    && crate::wire::alg_id_parsed(b@) == Some(self@))
                &&& (crate::wire::alg_id_der(self@) is None ==> r == Err::<Vec<u8>, _>(
                    crate::errors::ConversionError::DerEncode,
                ))
                &&& (crate::wire::alg_id_der(self@) is Some ==> r is Ok)
            }),
    {
        if !is_canonical_oid(&self.oid) {
            return Err(
                crate::errors::ConversionError::ConstraintError(
                    crate::errors::ConstraintError::InvalidAlgorithmIdentifier,
                ),
            );
        }
        match crate::wire::alg_id_to_der(self) {
            Ok(b) => Ok(b),
            Err(_) => Err(crate::errors::ConversionError::DerEncode),
        }
    }

    /// Decodes an identifier from DER.
    pub fn from_der(bytes: &[u8]) -> (r: Result<
        AlgorithmIdentifierOwned,
        crate::errors::ConversionError,
    >)
        ensures
            r matches Ok(a) ==> crate::wire::alg_id_parsed(bytes@) == Some(a@),
            r is Err ==> crate::wire::alg_id_parsed(bytes@) is None,
    {
        match crate::wire::alg_id_from_der(bytes) {
            Ok(a) => Ok(a),
            Err(_) => Err(crate::errors::ConversionError::DerDecode),
        }
    }
}

/// The generic (algorithm identifier, raw key bits) pair a public key embeds
/// into the wire structure.
#[derive(Debug, Clone, PartialEq, Eq)]
pub struct PublicKeyInfo {
    /// The key's algorithm.
    pub algorithm: AlgorithmIdentifierOwned,
    /// The raw bits of the public key, as they appear in the wire form's
    /// BIT STRING.
    pub public_key_bitstring: Vec<u8>,
}

/// The abstract value of a [`PublicKeyInfo`].
#[verifier::ext_equal]
pub struct PublicKeyInfoValue {
    /// The key's algorithm.
    pub algorithm: AlgorithmIdentifierValue,
    /// The raw key bits.
    pub public_key_bitstring: Seq<u8>,
}

impl View for PublicKeyInfo {
    type V = PublicKeyInfoValue;

    open spec fn view(&self) -> PublicKeyInfoValue {
        PublicKeyInfoValue {
            algorithm: self.algorithm@,
            public_key_bitstring: self.public_key_bitstring@,
        }
    }
}

/// True of an object identifier character: a decimal digit or a dot.
pub open spec fn oid_char(c: char) -> bool {
    ('0' <= c && c <= '9') || c == '.'
}

/// True when one of the ten characters starting at `i` is a dot.
pub open spec fn dot_within_ten(s: Seq<char>, i: int) -> bool {
    exists|k: int| i <= k <= i + 9 && #[trigger] s[k] == '.'
}

/// True of an object identifier in canonical dotted-decimal form: nonempty,
/// digits separated by single dots, no empty arc, no arc with a superfluous
/// leading zero, and no arc longer than nine digits (so every arc fits the
/// codec's arc type without wrapping).
pub open spec fn canonical_oid(s: Seq<char>) -> bool {
    &&& s.len() >= 1
    &&& forall|i: int| 0 <= i < s.len() ==> oid_char(#[trigger] s[i])
    &&& s[0] != '.'
    &&& s[s.len() - 1] != '.'
    &&& forall|i: int| 0 <= i < s.len() - 1 && #[trigger] s[i] == '.' ==> s[i + 1] != '.'
    &&& forall|i: int|
        0 <= i < s.len() - 1 && #[trigger] s[i] == '0' && (i == 0 || s[i - 1] == '.') ==> s[i
            + 1] == '.'
    &&& forall|i: int| 0 <= i && i + 9 < s.len() ==> #[trigger] dot_within_ten(s, i)
}

/// Checks that a string is an object identifier in canonical dotted-decimal
/// form.
pub fn is_canonical_oid(s: &String) -> (r: bool)
    ensures
        r == canonical_oid(s@),
{
    broadcast use vstd::string::is_ascii_spec_bytes;

    let st = s.as_str();
    if !st.is_ascii() {
        assert(exists|i: int| 0 <= i < s@.len() && !('\0' <= #[trigger] s@[i] <= '\u{7f}'));
        assert(!(forall|i: int| 0 <= i < s@.len() ==> oid_char(#[trigger] s@[i])));
        return false;
    }
    let b = st.as_bytes();
    proof {
        assert(b@ =~= Seq::new(s@.len(), |j: int| s@[j] as u8));
    }
    let n = b.len();
    if n == 0 {
        return false;
    }
    if b[0] == 46 || b[n - 1] == 46 {
        return false;
    }
    // `run` is the exact length of the digit run ending just before index i.
    let mut run: usize = 0;
    for i in 0..n
        invariant
            b@ =~= Seq::new(s@.len(), |j: int| s@[j] as u8),
            b@.len() == s@.len(),
            n == b@.len(),
            vstd::utf8::is_ascii_chars(s@),
            n >= 1,
            s@[0] != '.',
            s@[n - 1] != '.',
            forall|j: int| 0 <= j < i ==> oid_char(#[trigger] s@[j]),
            forall|j: int| 0 <= j < i && j < n - 1 && #[trigger] s@[j] == '.' ==> s@[j + 1]
                != '.',
            forall|j: int|
                0 <= j < i && j < n - 1 && #[trigger] s@[j] == '0' && (j == 0 || s@[j - 1]
                    == '.') ==> s@[j + 1] == '.',
            run <= i,
            forall|k: int| i - run <= k < i ==> #[trigger] s@[k] != '.',
            run == i || s@[i - run - 1] == '.',
            forall|j: int| 0 <= j && j + 9 < i ==> #[trigger] dot_within_ten(s@, j),
    {
        let ghost old_run = run as int;
        let v = b[i];
        proof {
            assert(s@[i as int] as u8 == v);
            assert('\0' <= s@[i as int] <= '\u{7f}');
        }
        if !((48 <= v && v <= 57) || v == 46) {
            return false;
        }
        if v == 46 {
            if i + 1 < n && b[i + 1] == 46 {
                assert(s@[i as int] == '.' && s@[i as int + 1] == '.');
                return false;
            }
            if i + 1 == n {
                // The last character is a dot, already rejected above.
                assert(s@[n - 1] == '.');
                return false;
            }
            run = 0;
        } else {
            if v == 48 && (i == 0 || b[i - 1] == 46) {
                // An arc starting with '0' must be exactly "0".
                if i + 1 < n && b[i + 1] != 46 {
                    assert(s@[i as int] == '0' && (i == 0 || s@[i as int - 1] == '.') && s@[
                        i as int + 1] != '.');
                    return false;
                }
            }
            if run >= 9 {
                // Ten digits in a row: the window starting at i - 9 has no dot.
                assert(forall|k: int| i - 9 <= k <= i ==> #[trigger] s@[k] != '.');
                assert(!dot_within_ten(s@, i - 9));
                return false;
            }
            run = run + 1;
        }
        proof {
            assert forall|j: int| 0 <= j && j + 9 < i + 1 implies #[trigger] dot_within_ten(
                s@,
                j,
            ) by {
                if j + 9 == i {
                    if s@[i as int] == '.' {
                        assert(s@[i as int] == '.' && j <= i <= j + 9);
                    } else {
                        // The digit run reaching back from i is at most nine
                        // characters, so the window holds the dot before it.
                        let p = i - old_run - 1;
                        assert(old_run < 9);
                        assert(old_run != i);
                        assert(s@[p] == '.');
                        assert(j <= p <= j + 9);
                    }
                }
            }
        }
    }
    true
}

} // verus!
