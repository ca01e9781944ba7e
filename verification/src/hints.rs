//! Branch hints.
use vstd::prelude::*;

verus! {

/// A "dummy" function with a hint to the compiler that it is unlikely to be
/// called.

pub fn cold_path() {
}

/// Return the given `bool` value with a hint that `true` is the likely case.
#[inline(always)]
pub fn likely(b: bool) -> (r: bool)
    ensures
        r == b,
{
    if b {
        true
    } else {
        cold_path();
        false
    }
}

/// Return the given `bool` value with a hint that `false` is the likely case.
#[inline(always)]
pub fn unlikely(b: bool) -> (r: bool)
    ensures
        r == b,
{
    if b {
        cold_path();
        true
    } else {
        false
    }
}

} // verus!
