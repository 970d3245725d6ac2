//! Capacity management of byte vectors and boxes, through the standard
//! library's methods that vstd does not specify. The contents are what these contracts speak of;
//! the capacity an allocator hands out is left open, except where `Vec`
//! guarantees a bound.
use std::collections::TryReserveError;
use vstd::prelude::*;

verus! {

/// `Vec::capacity`: how many elements fit without reallocating, which `Vec`
/// guarantees is never below its length; for a non-zero-sized element such
/// as `u8` it never allocates more than `isize::MAX` bytes.
#[verifier::external_body]
pub(crate) fn vec_capacity(v: &Vec<u8>) -> (r: usize)
    ensures
        r >= v@.len(),
        r <= isize::MAX,
{
    v.capacity()
}

/// `Vec::reserve_exact`: the contents stay as they are; it panics only when
/// the new capacity would exceed `isize::MAX` bytes, which `requires` rules
/// out. What capacity results is not stated.
#[verifier::external_body]
pub(crate) fn vec_reserve_exact(v: &mut Vec<u8>, additional: usize)
    requires
        old(v)@.len() + additional <= isize::MAX,
    ensures
        final(v)@ == old(v)@,
{
    v.reserve_exact(additional)
}

/// `Vec::try_reserve_exact`: the contents stay as they are whether or not
/// the allocation succeeds. As documented, it fails when the capacity would
/// overflow, that is when the new length would exceed `isize::MAX` bytes;
/// otherwise whether it succeeds is the allocator's business and is not
/// stated.
#[verifier::external_body]
pub(crate) fn vec_try_reserve_exact(v: &mut Vec<u8>, additional: usize) -> (r: Result<
    (),
    TryReserveError,
>)
    ensures
        final(v)@ == old(v)@,
        old(v)@.len() + additional > isize::MAX ==> r is Err,
{
    v.try_reserve_exact(additional)
}

/// `Vec::shrink_to_fit`: the contents stay as they are; the capacity that
/// results is not stated.
#[verifier::external_body]
pub(crate) fn vec_shrink_to_fit(v: &mut Vec<u8>)
    ensures
        final(v)@ == old(v)@,
{
    v.shrink_to_fit()
}

/// `Vec::shrink_to`: the contents stay as they are; the capacity that
/// results is not stated.
#[verifier::external_body]
pub(crate) fn vec_shrink_to(v: &mut Vec<u8>, min_capacity: usize)
    ensures
        final(v)@ == old(v)@,
{
    v.shrink_to(min_capacity)
}

/// `Box::leak`: gives up the box and hands out its contents, borrowed for
/// as long as the caller wants.
#[verifier::external_body]
pub(crate) fn box_leak<'a, T>(b: Box<T>) -> (r: &'a mut T)
    ensures
        *r == *b,
{
    Box::leak(b)
}

} // verus!
