//! Laws that relate the operations of `OsStr` and `OsString` to each other,
//! stated over the byte sequences that their contracts speak of.
use crate::os_str::utf8_str_of;
use vstd::prelude::*;
use vstd::utf8::*;

verus! {

/// Encoding a concatenation of characters concatenates the encodings.
proof fn lemma_encode_concat(x: Seq<char>, y: Seq<char>)
    ensures
        encode_utf8(x + y) == encode_utf8(x) + encode_utf8(y),
    decreases x.len(),
{
    if x.len() > 0 {
        assert((x + y).drop_first() =~= x.drop_first() + y);
        assert((x + y)[0] == x[0]);
        lemma_encode_concat(x.drop_first(), y);
        assert(encode_utf8(x + y) =~= encode_utf8(x) + encode_utf8(y));
    } else {
        assert(x + y =~= y);
    }
}

/// The bytes of any string read back as that string: `OsStr::new(s).to_str()`
/// is `Some(s)`, and `OsString::from_string(s).into_string()` is `Ok(s)`.
pub proof fn lemma_str_round_trip(s: Seq<char>)
    ensures
        utf8_str_of(encode_utf8(s)) == Some(s),
{
    encode_utf8_valid_utf8(s);
    encode_utf8_decode_utf8(s);
}

/// When `to_str` succeeds, the string it returns is made of exactly the
/// bytes of the OS string: converting back with `OsStr::new` gives the same
/// bytes.
pub proof fn lemma_bytes_round_trip(b: Seq<u8>)
    requires
        utf8_str_of(b) is Some,
    ensures
        encode_utf8(utf8_str_of(b)->0) == b,
{
    decode_utf8_encode_utf8(b);
}

/// Pushing valid UTF-8 onto valid UTF-8 keeps it valid, and the text read
/// back is the concatenation of the two texts.
pub proof fn lemma_push_valid_utf8(a: Seq<u8>, b: Seq<u8>)
    requires
        valid_utf8(a),
        valid_utf8(b),
    ensures
        utf8_str_of(a + b) == Some(decode_utf8(a) + decode_utf8(b)),
{
    let ca = decode_utf8(a);
    let cb = decode_utf8(b);
    decode_utf8_encode_utf8(a);
    decode_utf8_encode_utf8(b);
    lemma_encode_concat(ca, cb);
    lemma_str_round_trip(ca + cb);
}

/// Truncating to the old length undoes a push.
pub proof fn lemma_truncate_undoes_push(a: Seq<u8>, b: Seq<u8>)
    ensures
        (a + b).take(a.len() as int) == a,
{
    assert((a + b).take(a.len() as int) =~= a);
}

/// Pushing two pieces one after the other is pushing their concatenation.
pub proof fn lemma_push_assoc(a: Seq<u8>, b: Seq<u8>, c: Seq<u8>)
    ensures
        (a + b) + c == a + (b + c),
{
    assert((a + b) + c =~= a + (b + c));
}

} // verus!
