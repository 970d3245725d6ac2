//! Equality and the lexicographic order of OS strings, byte by byte.
use crate::lex::{
    lemma_lex_first_difference, lemma_lex_proper_prefix,
    common_prefix, lemma_lex_lt_asymmetric, lemma_lex_lt_irreflexive, lemma_lex_lt_total,
    lemma_lex_lt_transitive, lemma_lex_mismatch, lemma_lex_prefix, lex_lt,
};
use crate::os_str::{bytes_eq, OsStr, OsString};
use core::cmp::Ordering;
use vstd::prelude::*;
use vstd::string::StringSliceAdditionalSpecFns;
use vstd::std_specs::cmp::{PartialEqSpec, PartialEqSpecImpl, PartialOrdSpecImpl};

verus! {

/// The lexicographic comparison of `a` with `b`.
pub open spec fn lex_ordering(a: Seq<u8>, b: Seq<u8>) -> Ordering {
    if lex_lt(a, b) {
        Ordering::Less
    } else if a == b {
        Ordering::Equal
    } else {
        Ordering::Greater
    }
}

/// Comparing the other way round reverses the result, and the comparison
/// says `Equal` exactly for equal byte sequences.
pub proof fn lemma_ordering_reverses(a: Seq<u8>, b: Seq<u8>)
    ensures
        (lex_ordering(a, b) == Ordering::Less) == (lex_ordering(b, a) == Ordering::Greater),
        (lex_ordering(a, b) == Ordering::Equal) == (a == b),
        (lex_ordering(a, b) == Ordering::Equal) == (lex_ordering(b, a) == Ordering::Equal),
{
    lemma_lex_lt_irreflexive(a);
    lemma_lex_lt_asymmetric(a, b);
    lemma_lex_lt_total(a, b);
}

/// Comparison decides at the first differing byte, by unsigned byte value:
/// where `a` and `b` agree before position `i` and differ at `i`, `a` is
/// `Less` exactly when its byte is the smaller.
pub proof fn lemma_ordering_at_first_difference(a: Seq<u8>, b: Seq<u8>, i: int)
    requires
        0 <= i < a.len(),
        i < b.len(),
        forall|j: int| 0 <= j < i ==> a[j] == b[j],
        a[i] != b[i],
    ensures
        a[i] < b[i] ==> lex_ordering(a, b) == Ordering::Less,
        a[i] > b[i] ==> lex_ordering(a, b) == Ordering::Greater,
{
    lemma_lex_first_difference(a, b, i);
}

/// A proper prefix compares `Less` than the longer string, and the longer
/// string `Greater` than it.
pub proof fn lemma_ordering_proper_prefix(a: Seq<u8>, b: Seq<u8>)
    requires
        a.len() < b.len(),
        forall|j: int| 0 <= j < a.len() ==> a[j] == b[j],
    ensures
        lex_ordering(a, b) == Ordering::Less,
        lex_ordering(b, a) == Ordering::Greater,
{
    lemma_lex_proper_prefix(a, b);
}

/// `==` on OS strings is byte-for-byte: equal byte sequences compare equal,
/// and two OS strings that differ in any byte, or in length, are unequal.
pub proof fn lemma_eq_is_bytewise(a: OsStr, b: OsStr, i: int)
    ensures
        a@ == b@ ==> PartialEqSpec::eq_spec(&a, &b),
        a@.len() != b@.len() ==> !PartialEqSpec::eq_spec(&a, &b),
        0 <= i < a@.len() && i < b@.len() && a@[i] != b@[i] ==> !PartialEqSpec::eq_spec(&a, &b),
{
}

/// `==` on owned OS strings is byte-for-byte too.
pub proof fn lemma_eq_owned_is_bytewise(a: OsString, b: OsString, i: int)
    ensures
        a@ == b@ ==> PartialEqSpec::eq_spec(&a, &b),
        a@.len() != b@.len() ==> !PartialEqSpec::eq_spec(&a, &b),
        0 <= i < a@.len() && i < b@.len() && a@[i] != b@[i] ==> !PartialEqSpec::eq_spec(&a, &b),
{
}

/// Comparison is transitive: `a <= b` and `b <= c` give `a <= c`.
pub proof fn lemma_ordering_transitive(a: Seq<u8>, b: Seq<u8>, c: Seq<u8>)
    requires
        lex_ordering(a, b) != Ordering::Greater,
        lex_ordering(b, c) != Ordering::Greater,
    ensures
        lex_ordering(a, c) != Ordering::Greater,
{
    lemma_lex_lt_total(a, c);
    lemma_lex_lt_irreflexive(a);
    if lex_lt(a, b) && lex_lt(b, c) {
        lemma_lex_lt_transitive(a, b, c);
    }
}

/// Lexicographic byte order on two byte slices.
pub fn compare_bytes(a: &[u8], b: &[u8]) -> (r: Ordering)
    ensures
        r == lex_ordering(a@, b@),
{
    let i = common_prefix(a, b);
    if i < a.len() && i < b.len() {
        proof {
            lemma_lex_mismatch(a@, b@, i);
        }
        if a[i] < b[i] {
            Ordering::Less
        } else {
            Ordering::Greater
        }
    } else {
        proof {
            lemma_lex_prefix(a@, b@, i);
        }
        if a.len() < b.len() {
            Ordering::Less
        } else if a.len() == b.len() {
            Ordering::Equal
        } else {
            Ordering::Greater
        }
    }
}

impl PartialEq for OsStr {
    fn eq(&self, other: &OsStr) -> (r: bool) {
        bytes_eq(self.as_encoded_bytes(), other.as_encoded_bytes())
    }
}

impl PartialEqSpecImpl for OsStr {
    open spec fn obeys_eq_spec() -> bool {
        true
    }

    open spec fn eq_spec(&self, other: &OsStr) -> bool {
        self@ == other@
    }
}

impl Eq for OsStr {
}

impl PartialOrd for OsStr {
    fn partial_cmp(&self, other: &OsStr) -> (r: Option<Ordering>) {
        Some(compare_bytes(self.as_encoded_bytes(), other.as_encoded_bytes()))
    }
}

impl PartialOrdSpecImpl for OsStr {
    open spec fn obeys_partial_cmp_spec() -> bool {
        true
    }

    open spec fn partial_cmp_spec(&self, other: &OsStr) -> Option<Ordering> {
        Some(lex_ordering(self@, other@))
    }
}

impl PartialEq for OsString {
    fn eq(&self, other: &OsString) -> (r: bool) {
        bytes_eq(self.as_encoded_bytes(), other.as_encoded_bytes())
    }
}

impl PartialEqSpecImpl for OsString {
    open spec fn obeys_eq_spec() -> bool {
        true
    }

    open spec fn eq_spec(&self, other: &OsString) -> bool {
        self@ == other@
    }
}

impl Eq for OsString {
}

impl PartialOrd for OsString {
    fn partial_cmp(&self, other: &OsString) -> (r: Option<Ordering>) {
        Some(compare_bytes(self.as_encoded_bytes(), other.as_encoded_bytes()))
    }
}

impl PartialOrdSpecImpl for OsString {
    open spec fn obeys_partial_cmp_spec() -> bool {
        true
    }

    open spec fn partial_cmp_spec(&self, other: &OsString) -> Option<Ordering> {
        Some(lex_ordering(self@, other@))
    }
}

impl PartialEq<str> for OsStr {
    fn eq(&self, other: &str) -> (r: bool) {
        bytes_eq(self.as_encoded_bytes(), other.as_bytes())
    }
}

impl PartialEqSpecImpl<str> for OsStr {
    open spec fn obeys_eq_spec() -> bool {
        true
    }

    open spec fn eq_spec(&self, other: &str) -> bool {
        self@ == other.spec_bytes()
    }
}

impl PartialEq<OsStr> for str {
    fn eq(&self, other: &OsStr) -> (r: bool) {
        bytes_eq(self.as_bytes(), other.as_encoded_bytes())
    }
}

impl PartialEqSpecImpl<OsStr> for str {
    open spec fn obeys_eq_spec() -> bool {
        true
    }

    open spec fn eq_spec(&self, other: &OsStr) -> bool {
        self.spec_bytes() == other@
    }
}

} // verus!
