//! Lexicographic byte order on byte sequences, and the facts that make it a
//! strict total order.
use vstd::prelude::*;

verus! {

/// Whether `a` comes strictly before `b` in lexicographic byte order: at the
/// first position where they differ `a` holds the smaller byte, or `a` is a
/// proper prefix of `b`.
pub open spec fn lex_lt(a: Seq<u8>, b: Seq<u8>) -> bool
    decreases a.len(),
{
    if a.len() == 0 {
        b.len() > 0
    } else if b.len() == 0 {
        false
    } else if a[0] != b[0] {
        a[0] < b[0]
    } else {
        lex_lt(a.drop_first(), b.drop_first())
    }
}

/// When the first `i` bytes agree, comparing from position `i` on decides
/// the comparison of the wholes.
proof fn lemma_lex_lt_skip(a: Seq<u8>, b: Seq<u8>, i: int)
    requires
        0 <= i <= a.len(),
        i <= b.len(),
        a.take(i) == b.take(i),
    ensures
        lex_lt(a, b) == lex_lt(a.skip(i), b.skip(i)),
    decreases i,
{
    if i > 0 {
        assert(a[0] == a.take(i)[0]);
        assert(b[0] == b.take(i)[0]);
        let a1 = a.drop_first();
        let b1 = b.drop_first();
        assert(a1.take(i - 1) =~= a.take(i).drop_first());
        assert(b1.take(i - 1) =~= b.take(i).drop_first());
        lemma_lex_lt_skip(a1, b1, i - 1);
        assert(a1.skip(i - 1) =~= a.skip(i));
        assert(b1.skip(i - 1) =~= b.skip(i));
    } else {
        assert(a.skip(0) =~= a);
        assert(b.skip(0) =~= b);
    }
}

/// At the first differing position `i`, the smaller byte decides.
pub proof fn lemma_lex_mismatch(a: Seq<u8>, b: Seq<u8>, i: usize)
    requires
        i < a.len(),
        i < b.len(),
        a.take(i as int) == b.take(i as int),
        a[i as int] != b[i as int],
    ensures
        lex_lt(a, b) == (a[i as int] < b[i as int]),
        lex_lt(b, a) == (b[i as int] < a[i as int]),
        a != b,
{
    lemma_lex_lt_skip(a, b, i as int);
    lemma_lex_lt_skip(b, a, i as int);
    assert(a.skip(i as int)[0] == a[i as int]);
    assert(b.skip(i as int)[0] == b[i as int]);
}

/// When one sequence is a prefix of the other, the shorter comes first.
pub proof fn lemma_lex_prefix(a: Seq<u8>, b: Seq<u8>, i: usize)
    requires
        i <= a.len(),
        i <= b.len(),
        i == a.len() || i == b.len(),
        a.take(i as int) == b.take(i as int),
    ensures
        lex_lt(a, b) == (a.len() < b.len()),
        lex_lt(b, a) == (b.len() < a.len()),
        (a == b) == (a.len() == b.len()),
{
    lemma_lex_lt_skip(a, b, i as int);
    lemma_lex_lt_skip(b, a, i as int);
    if a.len() == b.len() {
        assert(a =~= a.take(i as int));
        assert(b =~= b.take(i as int));
    }
}

/// The length of the longest common prefix of `a` and `b`.
pub fn common_prefix(a: &[u8], b: &[u8]) -> (i: usize)
    ensures
        i <= a@.len(),
        i <= b@.len(),
        a@.take(i as int) == b@.take(i as int),
        i < a@.len() && i < b@.len() ==> a@[i as int] != b@[i as int],
{
    let n = a.len();
    let m = b.len();
    let mut i: usize = 0;
    while i < n && i < m
        invariant
            n == a@.len(),
            m == b@.len(),
            i <= n,
            i <= m,
            a@.take(i as int) == b@.take(i as int),
        decreases n - i,
    {
        if a[i] != b[i] {
            return i;
        }
        assert(a@.take(i + 1) =~= a@.take(i as int).push(a@[i as int]));
        assert(b@.take(i + 1) =~= b@.take(i as int).push(b@[i as int]));
        i = i + 1;
    }
    i
}

/// No byte sequence comes before itself.
pub proof fn lemma_lex_lt_irreflexive(a: Seq<u8>)
    ensures
        !lex_lt(a, a),
    decreases a.len(),
{
    if a.len() > 0 {
        lemma_lex_lt_irreflexive(a.drop_first());
    }
}

/// Of two byte sequences, at most one comes before the other.
pub proof fn lemma_lex_lt_asymmetric(a: Seq<u8>, b: Seq<u8>)
    ensures
        !(lex_lt(a, b) && lex_lt(b, a)),
    decreases a.len(),
{
    if a.len() > 0 && b.len() > 0 && a[0] == b[0] {
        lemma_lex_lt_asymmetric(a.drop_first(), b.drop_first());
    }
}

/// Lexicographic order is transitive.
pub proof fn lemma_lex_lt_transitive(a: Seq<u8>, b: Seq<u8>, c: Seq<u8>)
    requires
        lex_lt(a, b),
        lex_lt(b, c),
    ensures
        lex_lt(a, c),
    decreases a.len(),
{
    if a.len() > 0 && b.len() > 0 && c.len() > 0 && a[0] == b[0] && b[0] == c[0] {
        lemma_lex_lt_transitive(a.drop_first(), b.drop_first(), c.drop_first());
    }
}

/// Any two different byte sequences are ordered one way or the other.
pub proof fn lemma_lex_lt_total(a: Seq<u8>, b: Seq<u8>)
    ensures
        a != b ==> lex_lt(a, b) || lex_lt(b, a),
    decreases a.len(),
{
    if a.len() > 0 && b.len() > 0 && a[0] == b[0] {
        lemma_lex_lt_total(a.drop_first(), b.drop_first());
        if a.drop_first() == b.drop_first() {
            assert(a =~= seq![a[0]] + a.drop_first());
            assert(b =~= seq![b[0]] + b.drop_first());
        }
    } else if a.len() == 0 && b.len() == 0 {
        assert(a =~= b);
    }
}

/// Where `a` and `b` first differ, at position `i`, `a` comes first exactly
/// when its byte there is the smaller one, as an unsigned number.
pub proof fn lemma_lex_first_difference(a: Seq<u8>, b: Seq<u8>, i: int)
    requires
        0 <= i < a.len(),
        i < b.len(),
        forall|j: int| 0 <= j < i ==> a[j] == b[j],
        a[i] != b[i],
    ensures
        lex_lt(a, b) == (a[i] < b[i]),
        lex_lt(b, a) == (b[i] < a[i]),
        a != b,
{
    assert(a.take(i) =~= b.take(i));
    lemma_lex_lt_skip(a, b, i);
    lemma_lex_lt_skip(b, a, i);
    assert(a.skip(i)[0] == a[i]);
    assert(b.skip(i)[0] == b[i]);
}

/// A proper prefix comes before the longer sequence.
pub proof fn lemma_lex_proper_prefix(a: Seq<u8>, b: Seq<u8>)
    requires
        a.len() < b.len(),
        forall|j: int| 0 <= j < a.len() ==> a[j] == b[j],
    ensures
        lex_lt(a, b),
        !lex_lt(b, a),
        a != b,
{
    let n = a.len() as int;
    assert(a.take(n) =~= b.take(n));
    lemma_lex_lt_skip(a, b, n);
    lemma_lex_lt_skip(b, a, n);
}

} // verus!
