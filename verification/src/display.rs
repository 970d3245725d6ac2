//! Text renderings of OS strings: the lossy UTF-8 text that `Display` shows,
//! and the quoted, escaped text that `Debug` shows.
use crate::os_str::{OsStr, OsString};
use crate::utf8::{
    char_escape_debug, chunk_bytes, chunk_views, escape_debug_of, lossy_decode, string_from_chars,
    utf8_chunks, utf8_chunks_of,
};
use vstd::prelude::*;
use vstd::utf8::{decode_utf8, valid_utf8};

verus! {

/// The lower-case hexadecimal digit for `n`, which is below 16.
pub open spec fn hex_digit(n: u8) -> char {
    if n < 10 {
        (0x30 + n) as char
    } else {
        (0x57 + n) as char
    }
}

/// How `Debug` shows a byte that is not part of valid UTF-8: `\xHH`, with
/// two lower-case hexadecimal digits.
pub open spec fn byte_escape(b: u8) -> Seq<char> {
    seq!['\\', 'x', hex_digit(b / 16), hex_digit(b % 16)]
}

/// The escaped text of a run of valid characters.
pub open spec fn escape_chars(cs: Seq<char>) -> Seq<char>
    decreases cs.len(),
{
    if cs.len() == 0 {
        Seq::empty()
    } else {
        escape_chars(cs.drop_last()) + escape_debug_of(cs.last())
    }
}

/// The escaped text of a run of invalid bytes.
pub open spec fn escape_bytes(bs: Seq<u8>) -> Seq<char>
    decreases bs.len(),
{
    if bs.len() == 0 {
        Seq::empty()
    } else {
        escape_bytes(bs.drop_last()) + byte_escape(bs.last())
    }
}

/// The escaped text of a sequence of UTF-8 chunks, without the quotes.
pub open spec fn escape_chunks(chunks: Seq<(Seq<char>, Seq<u8>)>) -> Seq<char>
    decreases chunks.len(),
{
    if chunks.len() == 0 {
        Seq::empty()
    } else {
        escape_chunks(chunks.drop_last()) + escape_chars(chunks.last().0) + escape_bytes(
            chunks.last().1,
        )
    }
}

/// The `Debug` text for UTF-8 chunks: in double quotes, each valid
/// character escaped as `char::escape_debug` does, each invalid byte shown
/// as `\xHH`.
pub open spec fn debug_text(chunks: Seq<(Seq<char>, Seq<u8>)>) -> Seq<char> {
    seq!['"'] + escape_chunks(chunks) + seq!['"']
}

/// The `Debug` text of the bytes `b`.
pub open spec fn debug_text_of(b: Seq<u8>) -> Seq<char> {
    debug_text(utf8_chunks_of(b))
}

/// Whether `c` is a lower-case hexadecimal digit, `0`..=`9` or `a`..=`f`.
pub open spec fn is_lower_hex_digit(c: char) -> bool {
    (0x30 <= c as u32 <= 0x39) || (0x61 <= c as u32 <= 0x66)
}

/// The value a hexadecimal digit is read as.
pub open spec fn hex_digit_value(c: char) -> int {
    if 0x30 <= c as u32 <= 0x39 {
        c as u32 - 0x30
    } else {
        c as u32 - 0x61 + 10
    }
}

/// Each digit value below 16 is written as the lower-case hexadecimal digit
/// that reads back as that value.
proof fn lemma_hex_digit_reads_back(n: u8)
    requires
        n < 16,
    ensures
        is_lower_hex_digit(hex_digit(n)),
        hex_digit_value(hex_digit(n)) == n,
{
    let x: u32 = if n < 10 { (0x30 + n) as u32 } else { (0x57 + n) as u32 };
    assert(hex_digit(n) == x as char);
    assert((x as char) as u32 == x);
}

/// The escape of a byte that is not valid UTF-8 is `\x` and two lower-case
/// hexadecimal digits, high digit first, that read back as the byte.
pub proof fn lemma_byte_escape_reads_back(b: u8)
    ensures
        byte_escape(b).len() == 4,
        byte_escape(b)[0] == '\\',
        byte_escape(b)[1] == 'x',
        is_lower_hex_digit(byte_escape(b)[2]),
        is_lower_hex_digit(byte_escape(b)[3]),
        16 * hex_digit_value(byte_escape(b)[2]) + hex_digit_value(byte_escape(b)[3]) == b,
{
    lemma_hex_digit_reads_back(b / 16);
    lemma_hex_digit_reads_back(b % 16);
}

/// Different bytes get different escapes: the `\xHH` text shows which byte
/// it stands for.
pub proof fn lemma_byte_escape_injective(a: u8, b: u8)
    requires
        byte_escape(a) == byte_escape(b),
    ensures
        a == b,
{
    assert(byte_escape(a)[2] == byte_escape(b)[2]);
    assert(byte_escape(a)[3] == byte_escape(b)[3]);
    lemma_hex_digit_injective(a / 16, b / 16);
    lemma_hex_digit_injective(a % 16, b % 16);
}

/// Different digit values get different hexadecimal digits.
proof fn lemma_hex_digit_injective(n: u8, m: u8)
    requires
        n < 16,
        m < 16,
        hex_digit(n) == hex_digit(m),
    ensures
        n == m,
{
    let x: u32 = if n < 10 { (0x30 + n) as u32 } else { (0x57 + n) as u32 };
    let y: u32 = if m < 10 { (0x30 + m) as u32 } else { (0x57 + m) as u32 };
    assert(hex_digit(n) == x as char);
    assert(hex_digit(m) == y as char);
    assert((x as char) as u32 == x);
    assert((y as char) as u32 == y);
}

/// The lower-case hexadecimal digit for `n`.
fn hex_digit_char(n: u8) -> (r: char)
    requires
        n < 16,
    ensures
        r == hex_digit(n),
{
    if n < 10 {
        (0x30 + n) as char
    } else {
        (0x57 + n) as char
    }
}

/// Appends the escaped text of `bs` to `out`.
fn push_byte_escapes(out: &mut Vec<char>, bs: &Vec<u8>)
    ensures
        final(out)@ == old(out)@ + escape_bytes(bs@),
{
    let mut k: usize = 0;
    while k < bs.len()
        invariant
            k <= bs@.len(),
            out@ == old(out)@ + escape_bytes(bs@.take(k as int)),
        decreases bs@.len() - k,
    {
        let b = bs[k];
        out.push('\\');
        out.push('x');
        out.push(hex_digit_char(b / 16));
        out.push(hex_digit_char(b % 16));
        proof {
            assert(bs@.take(k + 1).drop_last() =~= bs@.take(k as int));
            assert(out@ =~= old(out)@ + escape_bytes(bs@.take(k + 1)));
        }
        k = k + 1;
    }
    assert(bs@.take(bs@.len() as int) =~= bs@);
}

/// Appends the escaped text of `cs` to `out`.
fn push_char_escapes(out: &mut Vec<char>, cs: &Vec<char>)
    ensures
        final(out)@ == old(out)@ + escape_chars(cs@),
{
    let mut j: usize = 0;
    while j < cs.len()
        invariant
            j <= cs@.len(),
            out@ == old(out)@ + escape_chars(cs@.take(j as int)),
        decreases cs@.len() - j,
    {
        let mut esc = char_escape_debug(cs[j]);
        out.append(&mut esc);
        proof {
            assert(cs@.take(j + 1).drop_last() =~= cs@.take(j as int));
            assert(out@ =~= old(out)@ + escape_chars(cs@.take(j + 1)));
        }
        j = j + 1;
    }
    assert(cs@.take(cs@.len() as int) =~= cs@);
}

/// The `Debug` text for the chunks that UTF-8 chunking produced.
pub fn debug_from_chunks(chunks: &Vec<(Vec<char>, Vec<u8>)>) -> (r: String)
    ensures
        r@ == debug_text(chunk_views(chunks@)),
{
    let ghost views = chunk_views(chunks@);
    let mut out: Vec<char> = Vec::new();
    out.push('"');
    let mut i: usize = 0;
    while i < chunks.len()
        invariant
            i <= chunks@.len(),
            views == chunk_views(chunks@),
            out@ == seq!['"'] + escape_chunks(views.take(i as int)),
        decreases chunks@.len() - i,
    {
        let ghost before = out@;
        push_char_escapes(&mut out, &chunks[i].0);
        push_byte_escapes(&mut out, &chunks[i].1);
        proof {
            assert(views[i as int] == (chunks@[i as int].0@, chunks@[i as int].1@));
            assert(views.take(i + 1).drop_last() =~= views.take(i as int));
            assert(out@ =~= seq!['"'] + escape_chunks(views.take(i + 1)));
        }
        i = i + 1;
    }
    out.push('"');
    assert(views.take(chunks@.len() as int) =~= views);
    assert(out@ =~= debug_text(views));
    string_from_chars(&out)
}

/// The `Debug` text of the bytes `bytes`; the chunks it is built from give
/// back every byte, in order.
pub fn debug_string_of(bytes: &[u8]) -> (r: String)
    ensures
        r@ == debug_text_of(bytes@),
        chunk_bytes(utf8_chunks_of(bytes@)) == bytes@,
{
    let chunks = utf8_chunks(bytes);
    debug_from_chunks(&chunks)
}

/// A helper that shows an OS string as text, lossily.
pub struct Display<'a> {
    inner: &'a OsStr,
}

impl<'a> View for Display<'a> {
    type V = Seq<u8>;

    closed spec fn view(&self) -> Seq<u8> {
        self.inner@
    }
}

impl<'a> Display<'a> {
    /// A display helper for `s`.
    pub fn new(s: &'a OsStr) -> (r: Display<'a>)
        ensures
            r@ == s@,
    {
        Display { inner: s }
    }

    /// The text shown: the bytes decoded as UTF-8, each invalid sequence
    /// replaced by U+FFFD.
    pub fn to_string(&self) -> (r: String)
        ensures
            r@ == lossy_decode(self@),
            valid_utf8(self@) ==> r@ == decode_utf8(self@),
    {
        self.inner.to_string_lossy()
    }

    /// The `Debug` text: the same as that of the OS string shown.
    pub fn debug_string(&self) -> (r: String)
        ensures
            r@ == debug_text_of(self@),
            chunk_bytes(utf8_chunks_of(self@)) == self@,
    {
        debug_string_of(self.inner.as_encoded_bytes())
    }
}

impl OsStr {
    /// A helper that shows this OS string as text, lossily.
    pub fn display(&self) -> (r: Display<'_>)
        ensures
            r@ == self@,
    {
        Display { inner: self }
    }

    /// The text `Display` shows: the bytes decoded as UTF-8, each invalid
    /// sequence replaced by U+FFFD.
    pub fn to_string(&self) -> (r: String)
        ensures
            r@ == lossy_decode(self@),
            valid_utf8(self@) ==> r@ == decode_utf8(self@),
    {
        self.to_string_lossy()
    }

    /// The text `Debug` shows: in double quotes, valid characters escaped as
    /// `char::escape_debug` does, invalid bytes as `\xHH`.
    pub fn debug_string(&self) -> (r: String)
        ensures
            r@ == debug_text_of(self@),
            chunk_bytes(utf8_chunks_of(self@)) == self@,
    {
        debug_string_of(self.as_encoded_bytes())
    }
}

impl OsString {
    /// The text `Display` shows: the same as for the `OsStr` it holds.
    pub fn to_string(&self) -> (r: String)
        ensures
            r@ == lossy_decode(self@),
            valid_utf8(self@) ==> r@ == decode_utf8(self@),
    {
        self.as_os_str().to_string_lossy()
    }

    /// The text `Debug` shows: the same as for the `OsStr` it holds.
    pub fn debug_string(&self) -> (r: String)
        ensures
            r@ == debug_text_of(self@),
            chunk_bytes(utf8_chunks_of(self@)) == self@,
    {
        debug_string_of(self.as_encoded_bytes())
    }
}

} // verus!
