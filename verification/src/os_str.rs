//! `OsStr` and `OsString`: byte strings with Unix semantics, where every
//! byte sequence is a valid OS string.
use crate::ascii::{lower_bytes, make_lower, make_upper, upper_bytes};
use crate::capacity::{
    box_leak, vec_capacity, vec_reserve_exact, vec_shrink_to, vec_shrink_to_fit,
    vec_try_reserve_exact,
};
use crate::utf8::{
    lossy_decode, str_from_utf8, string_from_utf8, string_from_utf8_lossy, string_into_bytes,
};
use std::collections::TryReserveError;
use std::rc::Rc;
use std::sync::Arc;
use vstd::prelude::*;
use vstd::slice::slice_to_vec;
use vstd::std_specs::convert::FromSpecImpl;
use vstd::string::StringSliceAdditionalSpecFns;
use vstd::utf8::*;

verus! {

/// A value whose encoded bytes can stand for an OS string.
pub trait AsOsStr {
    /// The bytes this value stands for.
    spec fn os_bytes(&self) -> Seq<u8>;

    /// The bytes this value stands for, borrowed.
    fn as_os_bytes(&self) -> (r: &[u8])
        ensures
            r@ == self.os_bytes(),
    ;
}

impl AsOsStr for str {
    open spec fn os_bytes(&self) -> Seq<u8> {
        self.spec_bytes()
    }

    fn as_os_bytes(&self) -> (r: &[u8]) {
        self.as_bytes()
    }
}

impl AsOsStr for String {
    open spec fn os_bytes(&self) -> Seq<u8> {
        encode_utf8(self@)
    }

    fn as_os_bytes(&self) -> (r: &[u8]) {
        self.as_str().as_bytes()
    }
}

impl AsOsStr for OsStr {
    open spec fn os_bytes(&self) -> Seq<u8> {
        self@
    }

    fn as_os_bytes(&self) -> (r: &[u8]) {
        self.as_encoded_bytes()
    }
}

impl AsOsStr for OsString {
    open spec fn os_bytes(&self) -> Seq<u8> {
        self@
    }

    fn as_os_bytes(&self) -> (r: &[u8]) {
        self.as_encoded_bytes()
    }
}

/// An OS string: a sequence of bytes with no encoding constraint. It holds
/// its bytes itself; `OsString` is the growable form that wraps one.
#[derive(Ord, Hash)]
pub struct OsStr {
    inner: Vec<u8>,
}

/// Owned, growable OS string.
#[derive(Ord, Hash)]
pub struct OsString {
    inner: OsStr,
}

impl View for OsStr {
    type V = Seq<u8>;

    closed spec fn view(&self) -> Seq<u8> {
        self.inner@
    }
}

impl View for OsString {
    type V = Seq<u8>;

    closed spec fn view(&self) -> Seq<u8> {
        self.inner@
    }
}

/// What `to_str` gives for the bytes `b`: the decoded characters when `b`
/// is valid UTF-8, else nothing.
pub open spec fn utf8_str_of(b: Seq<u8>) -> Option<Seq<char>> {
    if valid_utf8(b) {
        Some(decode_utf8(b))
    } else {
        None
    }
}

impl OsStr {
    /// An OS string with the encoded bytes of `s`.
    pub fn new<S: AsOsStr + ?Sized>(s: &S) -> (r: OsStr)
        ensures
            r@ == s.os_bytes(),
    {
        OsStr { inner: slice_to_vec(s.as_os_bytes()) }
    }

    /// The encoded bytes of this OS string.
    pub fn as_encoded_bytes(&self) -> (r: &[u8])
        ensures
            r@ == self@,
    {
        self.inner.as_slice()
    }

    /// An OS string with exactly the given bytes. Every byte sequence is a
    /// valid OS string here, so there is nothing to check.
    pub fn from_encoded_bytes_unchecked(bytes: &[u8]) -> (r: OsStr)
        ensures
            r@ == bytes@,
    {
        OsStr { inner: slice_to_vec(bytes) }
    }

    /// The length in bytes.
    pub fn len(&self) -> (r: usize)
        ensures
            r == self@.len(),
    {
        self.inner.len()
    }

    /// Whether there are no bytes.
    pub fn is_empty(&self) -> (r: bool)
        ensures
            r == (self@.len() == 0),
    {
        self.inner.len() == 0
    }

    /// An owned copy.
    pub fn to_os_string(&self) -> (r: OsString)
        ensures
            r@ == self@,
    {
        OsString { inner: OsStr { inner: slice_to_vec(self.inner.as_slice()) } }
    }

    /// The bytes as a string, when they are valid UTF-8.
    pub fn to_str(&self) -> (r: Option<&str>)
        ensures
            r is Some <==> valid_utf8(self@),
            r matches Some(s) ==> s@ == decode_utf8(self@),
            r matches Some(s) ==> s.spec_bytes() == self@,
    {
        let r = str_from_utf8(self.inner.as_slice());
        proof {
            if let Some(s) = r {
                encode_utf8_decode_utf8(s@);
            }
        }
        r
    }

    /// The bytes decoded as UTF-8, each invalid sequence replaced by U+FFFD.
    pub fn to_string_lossy(&self) -> (r: String)
        ensures
            r@ == lossy_decode(self@),
            valid_utf8(self@) ==> r@ == decode_utf8(self@),
    {
        string_from_utf8_lossy(self.inner.as_slice())
    }

    /// Maps `A`..=`Z` to `a`..=`z` in place; other bytes are unchanged.
    pub fn make_ascii_lowercase(&mut self)
        ensures
            final(self)@ == lower_bytes(old(self)@),
    {
        make_lower(&mut self.inner);
    }

    /// Maps `a`..=`z` to `A`..=`Z` in place; other bytes are unchanged.
    pub fn make_ascii_uppercase(&mut self)
        ensures
            final(self)@ == upper_bytes(old(self)@),
    {
        make_upper(&mut self.inner);
    }

    /// An owned copy (the `ToOwned` conversion).
    pub fn to_owned(&self) -> (r: OsString)
        ensures
            r@ == self@,
    {
        self.to_os_string()
    }

    /// Replaces the contents of `target` with a copy of these bytes.
    pub fn clone_into(&self, target: &mut OsString)
        ensures
            final(target)@ == self@,
    {
        target.inner.inner.clear();
        target.inner.inner.extend_from_slice(self.inner.as_slice());
        assert(target.inner.inner@ =~= self.inner@);
    }

    /// Whether these bytes are the encoded bytes of `other`.
    pub fn eq_str(&self, other: &str) -> (r: bool)
        ensures
            r == (self@ == other.spec_bytes()),
    {
        bytes_eq(self.inner.as_slice(), other.as_bytes())
    }
}

/// Whether two byte slices hold the same bytes.
pub fn bytes_eq(a: &[u8], b: &[u8]) -> (r: bool)
    ensures
        r == (a@ == b@),
{
    if a.len() != b.len() {
        return false;
    }
    let mut i: usize = 0;
    while i < a.len()
        invariant
            a@.len() == b@.len(),
            i <= a@.len(),
            forall|j: int| 0 <= j < i ==> a@[j] == b@[j],
        decreases a@.len() - i,
    {
        if a[i] != b[i] {
            return false;
        }
        i = i + 1;
    }
    assert(a@ =~= b@);
    true
}

impl OsString {
    /// A new empty OS string.
    pub fn new() -> (r: OsString)
        ensures
            r@ == Seq::<u8>::empty(),
    {
        OsString { inner: OsStr { inner: Vec::new() } }
    }

    /// A new empty OS string with room for `capacity` bytes.
    pub fn with_capacity(capacity: usize) -> (r: OsString)
        requires
            capacity <= isize::MAX,
        ensures
            r@ == Seq::<u8>::empty(),
    {
        OsString { inner: OsStr { inner: Vec::with_capacity(capacity) } }
    }

    /// Borrows the contents as an `OsStr`.
    pub fn as_os_str(&self) -> (r: &OsStr)
        ensures
            r@ == self@,
    {
        &self.inner
    }

    /// Appends the encoded bytes of `s`. The new length must fit the largest
    /// allocation, `isize::MAX` bytes.
    pub fn push<S: AsOsStr + ?Sized>(&mut self, s: &S)
        requires
            old(self)@.len() + s.os_bytes().len() <= isize::MAX,
        ensures
            final(self)@ == old(self)@ + s.os_bytes(),
    {
        let bytes = s.as_os_bytes();
        self.inner.inner.extend_from_slice(bytes);
        assert(self.inner.inner@ =~= old(self)@ + s.os_bytes());
    }

    /// Converts into a `String` when the bytes are valid UTF-8; otherwise
    /// gives the OS string back unchanged.
    pub fn into_string(self) -> (r: Result<String, OsString>)
        ensures
            r is Ok <==> valid_utf8(self@),
            r matches Ok(s) ==> s@ == decode_utf8(self@),
            r matches Ok(s) ==> encode_utf8(s@) == self@,
            r matches Err(o) ==> o@ == self@,
    {
        match string_from_utf8(self.inner.inner) {
            Ok(s) => {
                proof {
                    encode_utf8_decode_utf8(s@);
                }
                Ok(s)
            },
            Err(b) => Err(OsString { inner: OsStr { inner: b } }),
        }
    }

    /// Shortens to `len` bytes; does nothing when `len` is not below the
    /// current length.
    pub fn truncate(&mut self, len: usize)
        ensures
            len <= old(self)@.len() ==> final(self)@ == old(self)@.take(len as int),
            len > old(self)@.len() ==> final(self)@ == old(self)@,
    {
        self.inner.inner.truncate(len);
        assert(len <= old(self)@.len() ==> self@ =~= old(self)@.take(len as int));
    }

    /// Makes room for at least `additional` more bytes; the contents stay.
    pub fn reserve(&mut self, additional: usize)
        requires
            old(self)@.len() + additional <= isize::MAX,
        ensures
            final(self)@ == old(self)@,
    {
        self.inner.inner.reserve(additional);
    }

    /// Makes room for exactly `additional` more bytes; the contents stay.
    pub fn reserve_exact(&mut self, additional: usize)
        requires
            old(self)@.len() + additional <= isize::MAX,
        ensures
            final(self)@ == old(self)@,
    {
        vec_reserve_exact(&mut self.inner.inner, additional);
    }

    /// Tries to make room for at least `additional` more bytes; the contents
    /// stay whatever the outcome. It fails when the new length would exceed
    /// `isize::MAX` bytes.
    pub fn try_reserve(&mut self, additional: usize) -> (r: Result<(), TryReserveError>)
        ensures
            final(self)@ == old(self)@,
            old(self)@.len() + additional > isize::MAX ==> r is Err,
    {
        let len = self.inner.inner.len();
        let limit = isize::MAX as usize;
        if len > limit || additional > limit - len {
            // Past the largest allocation both reservations fail the same
            // way, with a capacity overflow and nothing changed.
            vec_try_reserve_exact(&mut self.inner.inner, additional)
        } else {
            self.inner.inner.try_reserve(additional)
        }
    }

    /// Tries to make room for exactly `additional` more bytes; the contents
    /// stay whatever the outcome. It fails when the new length would exceed
    /// `isize::MAX` bytes.
    pub fn try_reserve_exact(&mut self, additional: usize) -> (r: Result<(), TryReserveError>)
        ensures
            final(self)@ == old(self)@,
            old(self)@.len() + additional > isize::MAX ==> r is Err,
    {
        vec_try_reserve_exact(&mut self.inner.inner, additional)
    }

    /// Releases spare capacity; the contents stay.
    pub fn shrink_to_fit(&mut self)
        ensures
            final(self)@ == old(self)@,
    {
        vec_shrink_to_fit(&mut self.inner.inner);
    }

    /// Releases spare capacity down to `min_capacity`; the contents stay.
    pub fn shrink_to(&mut self, min_capacity: usize)
        ensures
            final(self)@ == old(self)@,
    {
        vec_shrink_to(&mut self.inner.inner, min_capacity);
    }

    /// How many bytes fit without reallocating; never below the length, and
    /// never above `isize::MAX`.
    pub fn capacity(&self) -> (r: usize)
        ensures
            r >= self@.len(),
            r <= isize::MAX,
    {
        vec_capacity(&self.inner.inner)
    }

    /// Borrows the contents as a mutable `OsStr`; what is written through it
    /// is what this OS string holds afterwards.
    pub fn as_mut_os_str(&mut self) -> (r: &mut OsStr)
        ensures
            r@ == old(self)@,
            final(self)@ == final(r)@,
    {
        &mut self.inner
    }

    /// Removes all bytes.
    pub fn clear(&mut self)
        ensures
            final(self)@ == Seq::<u8>::empty(),
    {
        self.inner.inner.clear();
    }

    /// The length in bytes.
    pub fn len(&self) -> (r: usize)
        ensures
            r == self@.len(),
    {
        self.inner.inner.len()
    }

    /// Whether there are no bytes.
    pub fn is_empty(&self) -> (r: bool)
        ensures
            r == (self@.len() == 0),
    {
        self.inner.inner.len() == 0
    }

    /// The encoded bytes.
    pub fn as_encoded_bytes(&self) -> (r: &[u8])
        ensures
            r@ == self@,
    {
        self.inner.inner.as_slice()
    }

    /// Appends raw bytes; the new length must fit `isize::MAX`. Every byte
    /// sequence is a valid OS string here, so there is nothing to check.
    pub fn extend_from_slice_unchecked(&mut self, slice: &[u8])
        requires
            old(self)@.len() + slice@.len() <= isize::MAX,
        ensures
            final(self)@ == old(self)@ + slice@,
    {
        self.inner.inner.extend_from_slice(slice);
        assert(self.inner.inner@ =~= old(self)@ + slice@);
    }

    /// Consumes this OS string and leaks its contents, which stay borrowed
    /// for as long as the caller wants.
    pub fn leak<'a>(self) -> (r: &'a mut OsStr)
        ensures
            r@ == self@,
    {
        box_leak(Box::new(self.inner))
    }

    /// Consumes this OS string into a boxed `OsStr`, discarding spare
    /// capacity first, as boxing a slice does.
    pub fn into_boxed_os_str(self) -> (r: Box<OsStr>)
        ensures
            r@ == self@,
    {
        let mut inner = self.inner;
        vec_shrink_to_fit(&mut inner.inner);
        Box::new(inner)
    }
}

impl Clone for OsStr {
    fn clone(&self) -> (r: OsStr)
        ensures
            r@ == self@,
    {
        OsStr { inner: slice_to_vec(self.inner.as_slice()) }
    }
}

impl Clone for OsString {
    fn clone(&self) -> (r: OsString)
        ensures
            r@ == self@,
    {
        OsString { inner: self.inner.clone() }
    }
}

impl Default for OsStr {
    fn default() -> (r: OsStr)
        ensures
            r@ == Seq::<u8>::empty(),
    {
        OsStr { inner: Vec::new() }
    }
}

impl Default for OsString {
    fn default() -> (r: OsString)
        ensures
            r@ == Seq::<u8>::empty(),
    {
        OsString::new()
    }
}

impl OsString {
    /// The OS string made of the UTF-8 encoding of `s`, taking over its
    /// buffer.
    pub fn from_string(s: String) -> (r: OsString)
        ensures
            r@ == encode_utf8(s@),
    {
        OsString { inner: OsStr { inner: string_into_bytes(s) } }
    }

    /// The OS string made of the UTF-8 encoding of `s`.
    pub fn from_str_slice(s: &str) -> (r: OsString)
        ensures
            r@ == s.spec_bytes(),
    {
        OsString { inner: OsStr { inner: slice_to_vec(s.as_bytes()) } }
    }

    /// The OS string holding the contents of a boxed `OsStr`.
    pub fn from_boxed_os_str(boxed: Box<OsStr>) -> (r: OsString)
        ensures
            r@ == boxed@,
    {
        OsString { inner: *boxed }
    }
}

// The `From` conversions state the bytes of what they return in their own
// `ensures`. `from_spec` would have to name a whole value, and no spec
// function can build its byte buffer, so these impls declare that they do
// not follow a `from_spec`; the `ensures` of each `from` says what it makes.
impl From<String> for OsString {
    fn from(s: String) -> (r: OsString)
        ensures
            r@ == encode_utf8(s@),
    {
        OsString::from_string(s)
    }
}

impl FromSpecImpl<String> for OsString {
    open spec fn obeys_from_spec() -> bool {
        false
    }

    open spec fn from_spec(v: String) -> OsString {
        arbitrary()
    }
}

impl<'a> From<&'a str> for OsString {
    fn from(s: &'a str) -> (r: OsString)
        ensures
            r@ == s.spec_bytes(),
    {
        OsString::from_str_slice(s)
    }
}

impl<'a> FromSpecImpl<&'a str> for OsString {
    open spec fn obeys_from_spec() -> bool {
        false
    }

    open spec fn from_spec(v: &'a str) -> OsString {
        arbitrary()
    }
}

impl From<Box<OsStr>> for OsString {
    fn from(boxed: Box<OsStr>) -> (r: OsString)
        ensures
            r@ == boxed@,
    {
        OsString::from_boxed_os_str(boxed)
    }
}

impl FromSpecImpl<Box<OsStr>> for OsString {
    open spec fn obeys_from_spec() -> bool {
        false
    }

    open spec fn from_spec(v: Box<OsStr>) -> OsString {
        arbitrary()
    }
}

impl core::ops::Deref for OsString {
    type Target = OsStr;

    fn deref(&self) -> (r: &OsStr)
        ensures
            r@ == self@,
    {
        &self.inner
    }
}

impl core::borrow::Borrow<OsStr> for OsString {
    fn borrow(&self) -> (r: &OsStr)
        ensures
            ({
                let o: &OsStr = r;
                o@ == self@
            }),
    {
        &self.inner
    }
}

impl From<OsString> for Arc<OsStr> {
    fn from(s: OsString) -> (r: Arc<OsStr>)
        ensures
            r@ == s@,
    {
        Arc::new(s.inner)
    }
}

impl FromSpecImpl<OsString> for Arc<OsStr> {
    open spec fn obeys_from_spec() -> bool {
        false
    }

    open spec fn from_spec(v: OsString) -> Arc<OsStr> {
        arbitrary()
    }
}

impl From<OsString> for Rc<OsStr> {
    fn from(s: OsString) -> (r: Rc<OsStr>)
        ensures
            r@ == s@,
    {
        Rc::new(s.inner)
    }
}

impl FromSpecImpl<OsString> for Rc<OsStr> {
    open spec fn obeys_from_spec() -> bool {
        false
    }

    open spec fn from_spec(v: OsString) -> Rc<OsStr> {
        arbitrary()
    }
}

impl core::ops::DerefMut for OsString {
    fn deref_mut(&mut self) -> (r: &mut OsStr)
        ensures
            r@ == old(self)@,
            final(self)@ == final(r)@,
    {
        &mut self.inner
    }
}

impl<'a> From<&'a OsStr> for Arc<OsStr> {
    fn from(s: &'a OsStr) -> (r: Arc<OsStr>)
        ensures
            r@ == s@,
    {
        Arc::new(s.clone())
    }
}

impl<'a> FromSpecImpl<&'a OsStr> for Arc<OsStr> {
    open spec fn obeys_from_spec() -> bool {
        false
    }

    open spec fn from_spec(v: &'a OsStr) -> Arc<OsStr> {
        arbitrary()
    }
}

impl<'a> From<&'a OsStr> for Rc<OsStr> {
    fn from(s: &'a OsStr) -> (r: Rc<OsStr>)
        ensures
            r@ == s@,
    {
        Rc::new(s.clone())
    }
}

impl<'a> FromSpecImpl<&'a OsStr> for Rc<OsStr> {
    open spec fn obeys_from_spec() -> bool {
        false
    }

    open spec fn from_spec(v: &'a OsStr) -> Rc<OsStr> {
        arbitrary()
    }
}

/// The full range `..`, carried through `Index` as a marker with no
/// contents.
#[verifier::external_type_specification]
#[verifier::external_body]
pub struct ExRangeFull(core::ops::RangeFull);

impl core::ops::Index<core::ops::RangeFull> for OsStr {
    type Output = OsStr;

    fn index(&self, _index: core::ops::RangeFull) -> (r: &OsStr)
        ensures
            r@ == self@,
    {
        self
    }
}

} // verus!
