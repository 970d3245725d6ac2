//! ASCII case mapping on byte sequences.
use vstd::prelude::*;
use vstd::utf8::*;

verus! {

/// Whether `b` is an ASCII upper-case letter `A`..=`Z`.
pub open spec fn is_ascii_upper(b: u8) -> bool {
    0x41 <= b <= 0x5a
}

/// Whether `b` is an ASCII lower-case letter `a`..=`z`.
pub open spec fn is_ascii_lower(b: u8) -> bool {
    0x61 <= b <= 0x7a
}

/// `b` with `A`..=`Z` mapped to `a`..=`z`; every other byte is unchanged.
pub open spec fn to_ascii_lower(b: u8) -> u8 {
    if is_ascii_upper(b) {
        (b + 0x20) as u8
    } else {
        b
    }
}

/// `b` with `a`..=`z` mapped to `A`..=`Z`; every other byte is unchanged.
pub open spec fn to_ascii_upper(b: u8) -> u8 {
    if is_ascii_lower(b) {
        (b - 0x20) as u8
    } else {
        b
    }
}

/// Byte-wise ASCII lower-casing of a byte sequence.
pub open spec fn lower_bytes(s: Seq<u8>) -> Seq<u8> {
    s.map_values(|b: u8| to_ascii_lower(b))
}

/// Byte-wise ASCII upper-casing of a byte sequence.
pub open spec fn upper_bytes(s: Seq<u8>) -> Seq<u8> {
    s.map_values(|b: u8| to_ascii_upper(b))
}

/// Lower-cases the ASCII letters of `v` in place.
pub fn make_lower(v: &mut Vec<u8>)
    ensures
        final(v)@ == lower_bytes(old(v)@),
{
    let n = v.len();
    let mut i: usize = 0;
    while i < n
        invariant
            n == old(v)@.len(),
            v@.len() == n,
            i <= n,
            forall|j: int| 0 <= j < i ==> v@[j] == to_ascii_lower(#[trigger] old(v)@[j]),
            forall|j: int| i <= j < n ==> v@[j] == old(v)@[j],
        decreases n - i,
    {
        let b = v[i];
        if 0x41 <= b && b <= 0x5a {
            v[i] = b + 0x20;
        }
        i = i + 1;
    }
    assert(v@ =~= lower_bytes(old(v)@));
}

/// Upper-cases the ASCII letters of `v` in place.
pub fn make_upper(v: &mut Vec<u8>)
    ensures
        final(v)@ == upper_bytes(old(v)@),
{
    let n = v.len();
    let mut i: usize = 0;
    while i < n
        invariant
            n == old(v)@.len(),
            v@.len() == n,
            i <= n,
            forall|j: int| 0 <= j < i ==> v@[j] == to_ascii_upper(#[trigger] old(v)@[j]),
            forall|j: int| i <= j < n ==> v@[j] == old(v)@[j],
        decreases n - i,
    {
        let b = v[i];
        if 0x61 <= b && b <= 0x7a {
            v[i] = b - 0x20;
        }
        i = i + 1;
    }
    assert(v@ =~= upper_bytes(old(v)@));
}

/// Lower-casing twice is lower-casing once.
pub proof fn lemma_lower_idempotent(s: Seq<u8>)
    ensures
        lower_bytes(lower_bytes(s)) == lower_bytes(s),
{
    assert(lower_bytes(lower_bytes(s)) =~= lower_bytes(s));
}

/// Upper-casing twice is upper-casing once.
pub proof fn lemma_upper_idempotent(s: Seq<u8>)
    ensures
        upper_bytes(upper_bytes(s)) == upper_bytes(s),
{
    assert(upper_bytes(upper_bytes(s)) =~= upper_bytes(s));
}

/// Lower-casing forgets an earlier upper-casing, and the other way round.
pub proof fn lemma_case_last_wins(s: Seq<u8>)
    ensures
        lower_bytes(upper_bytes(s)) == lower_bytes(s),
        upper_bytes(lower_bytes(s)) == upper_bytes(s),
{
    assert(lower_bytes(upper_bytes(s)) =~= lower_bytes(s));
    assert(upper_bytes(lower_bytes(s)) =~= upper_bytes(s));
}

/// Case mapping keeps the length and every byte that is not an ASCII
/// letter.
pub proof fn lemma_case_keeps_non_letters(s: Seq<u8>, i: int)
    requires
        0 <= i < s.len(),
        !is_ascii_upper(s[i]),
        !is_ascii_lower(s[i]),
    ensures
        lower_bytes(s).len() == s.len(),
        upper_bytes(s).len() == s.len(),
        lower_bytes(s)[i] == s[i],
        upper_bytes(s)[i] == s[i],
{
}

/// The codepoint of a one-byte encoding is below 0x80.
proof fn lemma_width_1_small(b: u8)
    ensures
        (b & 0x7f) as u32 <= 0x7f,
{
    assert((b & 0x7f) as u32 <= 0x7f) by (bit_vector);
}

/// A byte-wise map that sends ASCII bytes to ASCII bytes and leaves every
/// other byte alone keeps valid UTF-8 valid.
proof fn lemma_ascii_map_keeps_utf8(s: Seq<u8>, t: Seq<u8>)
    requires
        valid_utf8(s),
        t.len() == s.len(),
        forall|i: int| 0 <= i < s.len() && s[i] < 0x80 ==> #[trigger] t[i] < 0x80,
        forall|i: int| 0 <= i < s.len() && s[i] >= 0x80 ==> #[trigger] t[i] == s[i],
    ensures
        valid_utf8(t),
    decreases s.len(),
{
    if s.len() > 0 {
        let n = length_of_first_scalar(s);
        if s[0] < 0x80 {
            assert(t[0] < 0x80);
            assert(n == 1);
            assert(length_of_first_scalar(t) == 1);
            assert(decode_first_codepoint(t) == codepoint_width_1(t[0]));
            lemma_width_1_small(t[0]);
        } else {
            assert(t[0] == s[0]);
            if s.len() > 1 && s[1] >= 0x80 {
                assert(t[1] == s[1]);
            }
            if s.len() > 2 && s[2] >= 0x80 {
                assert(t[2] == s[2]);
            }
            if s.len() > 3 && s[3] >= 0x80 {
                assert(t[3] == s[3]);
            }
        }
        assert(valid_first_scalar(t));
        assert(length_of_first_scalar(t) == n);
        let s1 = pop_first_scalar(s);
        let t1 = pop_first_scalar(t);
        assert forall|i: int| 0 <= i < s1.len() && s1[i] < 0x80 implies #[trigger] t1[i] < 0x80 by {
            assert(s1[i] == s[i + n]);
            assert(t1[i] == t[i + n]);
        }
        assert forall|i: int| 0 <= i < s1.len() && s1[i] >= 0x80 implies #[trigger] t1[i]
            == s1[i] by {
            assert(s1[i] == s[i + n]);
            assert(t1[i] == t[i + n]);
        }
        lemma_ascii_map_keeps_utf8(s1, t1);
    }
}

/// ASCII case mapping keeps valid UTF-8 valid.
pub proof fn lemma_case_keeps_utf8(s: Seq<u8>)
    requires
        valid_utf8(s),
    ensures
        valid_utf8(lower_bytes(s)),
        valid_utf8(upper_bytes(s)),
{
    lemma_ascii_map_keeps_utf8(s, lower_bytes(s));
    lemma_ascii_map_keeps_utf8(s, upper_bytes(s));
}

/// Lower-casing adds 0x20 to every byte in `A`..=`Z` and keeps every other
/// byte, at every position; the length stays.
pub proof fn lemma_lower_maps_each_byte(s: Seq<u8>, i: int)
    requires
        0 <= i < s.len(),
    ensures
        lower_bytes(s).len() == s.len(),
        0x41 <= s[i] <= 0x5a ==> lower_bytes(s)[i] == s[i] + 0x20,
        !(0x41 <= s[i] <= 0x5a) ==> lower_bytes(s)[i] == s[i],
{
}

/// Upper-casing subtracts 0x20 from every byte in `a`..=`z` and keeps every
/// other byte, at every position; the length stays.
pub proof fn lemma_upper_maps_each_byte(s: Seq<u8>, i: int)
    requires
        0 <= i < s.len(),
    ensures
        upper_bytes(s).len() == s.len(),
        0x61 <= s[i] <= 0x7a ==> upper_bytes(s)[i] == s[i] - 0x20,
        !(0x61 <= s[i] <= 0x7a) ==> upper_bytes(s)[i] == s[i],
{
}

} // verus!
