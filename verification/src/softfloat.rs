//! Trusted double-precision subtraction on bit patterns.
//!
//! The latent-heat derivation subtracts two enthalpies that the evaluator
//! returned. The two values are carried as bit patterns, so the subtraction
//! goes through a software implementation of IEEE-754 arithmetic behind one
//! trusted wrapper; everything around it is verified against the named
//! result.

use rustc_apfloat::Float;
use vstd::prelude::*;

verus! {

/// The difference of the two double-precision numbers whose bit patterns are
/// `a` and `b`, itself as a bit pattern: IEEE-754 subtraction with the
/// round-to-nearest, ties-to-even rounding mode.
pub uninterp spec fn sub_bits(a: u64, b: u64) -> u64;

/// Relies on rustc_apfloat's `ieee::Double`: its subtraction with the default
/// rounding mode is IEEE-754 double-precision subtraction, round-to-nearest
/// ties-to-even — the arithmetic of the native subtraction operator — and a
/// deterministic function of the two bit patterns alone.
#[verifier::external_body]
pub(crate) fn double_sub(a: u64, b: u64) -> (r: u64)
    ensures
        r == sub_bits(a, b),
{
    let x = rustc_apfloat::ieee::Double::from_bits(a as u128);
    let y = rustc_apfloat::ieee::Double::from_bits(b as u128);
    (x - y).value.to_bits() as u64
}

} // verus!
