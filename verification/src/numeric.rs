//! IEEE-754 arithmetic on raw bit patterns.
//!
//! The simulation's scalars travel through the library as bit patterns
//! (`u32` single precision, `u64` double precision).  The operations on
//! them are delegated to `rustc_apfloat`, a software implementation of
//! IEEE-754 binary arithmetic that rounds to nearest, ties to even — for
//! ordinary values the same result, bit for bit, that the machine's own
//! single- and double-precision operations produce (only the payloads of
//! NaN results may differ).  Each operation is total and a
//! function of its argument patterns alone, so each is named here by an
//! uninterpreted spec function that the rest of the library's contracts
//! speak of.

use rustc_apfloat::ieee::{Double, Single};
use rustc_apfloat::{Float, FloatConvert};
use vstd::prelude::*;

verus! {

/// Single-precision sum of the two patterns.
pub uninterp spec fn add_bits32(a: u32, b: u32) -> u32;

/// Single-precision product of the two patterns.
pub uninterp spec fn mul_bits32(a: u32, b: u32) -> u32;

/// Double-precision sum of the two patterns.
pub uninterp spec fn add_bits64(a: u64, b: u64) -> u64;

/// Double-precision difference of the two patterns.
pub uninterp spec fn sub_bits64(a: u64, b: u64) -> u64;

/// Whether the first pattern compares greater than or equal to the second
/// in double precision.  False when either is a NaN.
pub uninterp spec fn ge_bits64(a: u64, b: u64) -> bool;

/// The double-precision pattern narrowed to single precision.
pub uninterp spec fn narrow_bits(a: u64) -> u32;

/// Relies on `rustc_apfloat`'s `Single` addition: the IEEE-754 sum, rounded
/// to nearest with ties to even, of the two single-precision patterns.
#[verifier::external_body]
pub(crate) fn add32(a: u32, b: u32) -> (r: u32)
    ensures
        r == add_bits32(a, b),
{
    (Single::from_bits(a as u128) + Single::from_bits(b as u128)).value.to_bits() as u32
}

/// Relies on `rustc_apfloat`'s `Single` multiplication: the IEEE-754
/// product, rounded to nearest with ties to even, of the two
/// single-precision patterns.
#[verifier::external_body]
pub(crate) fn mul32(a: u32, b: u32) -> (r: u32)
    ensures
        r == mul_bits32(a, b),
{
    (Single::from_bits(a as u128) * Single::from_bits(b as u128)).value.to_bits() as u32
}

/// Relies on `rustc_apfloat`'s `Double` addition: the IEEE-754 sum, rounded
/// to nearest with ties to even, of the two double-precision patterns.
#[verifier::external_body]
pub(crate) fn add64(a: u64, b: u64) -> (r: u64)
    ensures
        r == add_bits64(a, b),
{
    (Double::from_bits(a as u128) + Double::from_bits(b as u128)).value.to_bits() as u64
}

/// Relies on `rustc_apfloat`'s `Double` subtraction: the IEEE-754
/// difference, rounded to nearest with ties to even, of the two
/// double-precision patterns.
#[verifier::external_body]
pub(crate) fn sub64(a: u64, b: u64) -> (r: u64)
    ensures
        r == sub_bits64(a, b),
{
    (Double::from_bits(a as u128) - Double::from_bits(b as u128)).value.to_bits() as u64
}

/// Relies on `rustc_apfloat`'s `Double` comparison (`PartialOrd`): the
/// IEEE-754 ordering of the two double-precision patterns, in which a NaN
/// compares greater-or-equal to nothing.
#[verifier::external_body]
pub(crate) fn ge64(a: u64, b: u64) -> (r: bool)
    ensures
        r == ge_bits64(a, b),
{
    Double::from_bits(a as u128) >= Double::from_bits(b as u128)
}

/// Relies on `rustc_apfloat`'s `Double`-to-`Single` conversion: the
/// double-precision pattern narrowed to single precision, rounded to
/// nearest with ties to even.
#[verifier::external_body]
pub(crate) fn narrow(a: u64) -> (r: u32)
    ensures
        r == narrow_bits(a),
{
    let mut loses_info = false;
    let narrowed: Single = Double::from_bits(a as u128).convert(&mut loses_info).value;
    narrowed.to_bits() as u32
}

} // verus!
