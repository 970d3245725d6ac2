//! UTF-8 conversions of byte sequences, through the standard library's
//! decoders.
use vstd::prelude::*;
use vstd::string::StringSliceAdditionalSpecFns;
use vstd::utf8::*;

verus! {

/// The lossy text of a sequence of UTF-8 chunks: each run of valid
/// characters, followed by one U+FFFD where its chunk ends in invalid bytes.
pub open spec fn lossy_text(chunks: Seq<(Seq<char>, Seq<u8>)>) -> Seq<char>
    decreases chunks.len(),
{
    if chunks.len() == 0 {
        Seq::empty()
    } else {
        lossy_text(chunks.drop_last()) + chunks.last().0 + if chunks.last().1.len() > 0 {
            seq!['\u{FFFD}']
        } else {
            Seq::empty()
        }
    }
}

/// The characters that lossy UTF-8 decoding of `bytes` yields: the valid
/// runs that UTF-8 chunking finds, each invalid part replaced by one U+FFFD.
pub open spec fn lossy_decode(bytes: Seq<u8>) -> Seq<char> {
    lossy_text(utf8_chunks_of(bytes))
}

/// `core::str::from_utf8`, with the error dropped: it succeeds exactly on
/// valid UTF-8, and the string it returns is made of the given bytes.
#[verifier::external_body]
pub(crate) fn str_from_utf8(bytes: &[u8]) -> (r: Option<&str>)
    ensures
        r is Some <==> valid_utf8(bytes@),
        r matches Some(s) ==> s.spec_bytes() == bytes@,
{
    core::str::from_utf8(bytes).ok()
}

/// `String::from_utf8`: succeeds exactly on valid UTF-8, with a string made
/// of the given bytes; on failure `FromUtf8Error::into_bytes` hands back the
/// bytes that were given.
#[verifier::external_body]
pub(crate) fn string_from_utf8(bytes: Vec<u8>) -> (r: Result<String, Vec<u8>>)
    ensures
        r is Ok <==> valid_utf8(bytes@),
        r matches Ok(s) ==> encode_utf8(s@) == bytes@,
        r matches Err(b) ==> b@ == bytes@,
{
    match String::from_utf8(bytes) {
        Ok(s) => Ok(s),
        Err(e) => Err(e.into_bytes()),
    }
}

/// `String::from_utf8_lossy`, made owned. As documented, it replaces each
/// invalid sequence with U+FFFD: the chunks of `<[u8]>::utf8_chunks` in
/// order, each valid run kept and each non-empty invalid part replaced by one
/// U+FFFD (`lossy_decode`); on valid UTF-8 the text is the decoded
/// characters (the documented borrowed case).
#[verifier::external_body]
pub(crate) fn string_from_utf8_lossy(bytes: &[u8]) -> (r: String)
    ensures
        r@ == lossy_decode(bytes@),
        valid_utf8(bytes@) ==> r@ == decode_utf8(bytes@),
{
    String::from_utf8_lossy(bytes).into_owned()
}

/// `String::into_bytes`: the string's UTF-8 encoding, without copying.
#[verifier::external_body]
pub(crate) fn string_into_bytes(s: String) -> (r: Vec<u8>)
    ensures
        r@ == encode_utf8(s@),
{
    s.into_bytes()
}

/// The chunks that `<[u8]>::utf8_chunks` splits `bytes` into: each a run of
/// valid UTF-8, as characters, followed by the invalid bytes that stopped it.
pub uninterp spec fn utf8_chunks_of(bytes: Seq<u8>) -> Seq<(Seq<char>, Seq<u8>)>;

/// The characters that `char::escape_debug` yields for `c`.
pub uninterp spec fn escape_debug_of(c: char) -> Seq<char>;

/// The bytes a sequence of chunks stands for: each run of characters
/// encoded as UTF-8, followed by its invalid bytes.
pub open spec fn chunk_bytes(chunks: Seq<(Seq<char>, Seq<u8>)>) -> Seq<u8>
    decreases chunks.len(),
{
    if chunks.len() == 0 {
        Seq::empty()
    } else {
        chunk_bytes(chunks.drop_last()) + encode_utf8(chunks.last().0) + chunks.last().1
    }
}

/// The spec view of chunks held in vectors.
pub open spec fn chunk_views(chunks: Seq<(Vec<char>, Vec<u8>)>) -> Seq<(Seq<char>, Seq<u8>)> {
    chunks.map_values(|c: (Vec<char>, Vec<u8>)| (c.0@, c.1@))
}

/// `<[u8]>::utf8_chunks`, each chunk's valid part taken as its characters.
/// Its result is named `utf8_chunks_of`; as its documentation states, the
/// chunks give back the input bytes in order, an invalid part is at most
/// three bytes long, and only the last chunk may have an empty one.
#[verifier::external_body]
pub(crate) fn utf8_chunks(bytes: &[u8]) -> (r: Vec<(Vec<char>, Vec<u8>)>)
    ensures
        chunk_views(r@) == utf8_chunks_of(bytes@),
        chunk_bytes(chunk_views(r@)) == bytes@,
        forall|i: int| 0 <= i < r@.len() ==> (#[trigger] r@[i]).1@.len() <= 3,
        forall|i: int| 0 <= i < r@.len() - 1 ==> (#[trigger] r@[i]).1@.len() > 0,
{
    bytes.utf8_chunks().map(|c| (c.valid().chars().collect(), c.invalid().to_vec())).collect()
}

/// `char::escape_debug`, collected: its characters are named
/// `escape_debug_of` of `c`.
#[verifier::external_body]
pub(crate) fn char_escape_debug(c: char) -> (r: Vec<char>)
    ensures
        r@ == escape_debug_of(c),
{
    c.escape_debug().collect()
}

/// `String::from_iter` over characters: the string holds exactly them.
#[verifier::external_body]
pub(crate) fn string_from_chars(chars: &Vec<char>) -> (r: String)
    ensures
        r@ == chars@,
{
    chars.iter().collect()
}

} // verus!
