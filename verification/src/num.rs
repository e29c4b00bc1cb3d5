//! The numeric domain of the evaluator: IEEE-754 double-precision numbers,
//! carried as their 64-bit patterns.
//!
//! The evaluator never interprets a bit pattern itself (with one exception:
//! the absolute value, which by the IEEE-754 encoding is the pattern with the
//! sign bit cleared). Every arithmetic operation and comparison is delegated
//! to outside soft-float code behind the trusted items below, and each
//! result is given a name (`add_of`, `lt_of`, ...) that the contracts of the
//! rest of the library speak of.

use vstd::prelude::*;
use rustc_apfloat::Float;

verus! {

/// A numeric value of the evaluation domain: the bit pattern of an
/// IEEE-754 double-precision number.
pub type NumericLiteral = u64;

/// Bit pattern of +0.0, the sum of an empty operand list.
pub const ZERO_BITS: u64 = 0x0000_0000_0000_0000;

/// Bit pattern of 1.0, the product of an empty operand list; also the
/// encoding of a true comparison.
pub const ONE_BITS: u64 = 0x3FF0_0000_0000_0000;

/// Bit pattern of the machine epsilon 2^-52, the tolerance used by the
/// equality and inequality operators.
pub const EPSILON_BITS: u64 = 0x3CB0_0000_0000_0000;

/// An IEEE-754 double carries its sign in the highest bit, so masking that
/// bit away yields the bit pattern of the absolute value.
pub const ABS_MASK: u64 = 0x7FFF_FFFF_FFFF_FFFF;

/// The IEEE-754 double sum of two bit patterns.
pub uninterp spec fn add_of(a: u64, b: u64) -> u64;

/// The IEEE-754 double difference of two bit patterns.
pub uninterp spec fn sub_of(a: u64, b: u64) -> u64;

/// The IEEE-754 double product of two bit patterns.
pub uninterp spec fn mul_of(a: u64, b: u64) -> u64;

/// The IEEE-754 double quotient of two bit patterns.
pub uninterp spec fn div_of(a: u64, b: u64) -> u64;

/// The double raised to the double power, as the host's power primitive
/// computes it.
pub uninterp spec fn pow_of(a: u64, b: u64) -> u64;

/// The IEEE-754 "less than" comparison of two bit patterns.
pub uninterp spec fn lt_of(a: u64, b: u64) -> bool;

/// The IEEE-754 "less than or equal" comparison of two bit patterns.
pub uninterp spec fn le_of(a: u64, b: u64) -> bool;

/// The IEEE-754 equality of two bit patterns (distinct from bit equality:
/// the two zeros are equal, and a NaN equals nothing).
pub uninterp spec fn eq_of(a: u64, b: u64) -> bool;

/// The IEEE-754 double nearest to the integer (every `i64` is mapped to
/// the double that rounding to nearest even yields).
pub uninterp spec fn double_of_int(i: i64) -> u64;

/// Relies on rustc_apfloat's integer-to-double conversion (round to
/// nearest even): the double depends on the integer alone.
#[verifier::external_body]
pub(crate) fn int_to_bits(i: i64) -> (r: u64)
    ensures
        r == double_of_int(i),
{
    let x = rustc_apfloat::ieee::Double::from_i128(i as i128).value;
    x.to_bits() as u64
}

/// Relies on rustc_apfloat's IEEE double addition, rounding to nearest
/// even as hardware does: the sum depends on the two bit patterns alone.
#[verifier::external_body]
pub(crate) fn add_bits(a: u64, b: u64) -> (r: u64)
    ensures
        r == add_of(a, b),
{
    let x = rustc_apfloat::ieee::Double::from_bits(a as u128);
    let y = rustc_apfloat::ieee::Double::from_bits(b as u128);
    (x + y).value.to_bits() as u64
}

/// Relies on rustc_apfloat's IEEE double subtraction: the difference
/// depends on the two bit patterns alone.
#[verifier::external_body]
pub(crate) fn sub_bits(a: u64, b: u64) -> (r: u64)
    ensures
        r == sub_of(a, b),
{
    let x = rustc_apfloat::ieee::Double::from_bits(a as u128);
    let y = rustc_apfloat::ieee::Double::from_bits(b as u128);
    (x - y).value.to_bits() as u64
}

/// Relies on rustc_apfloat's IEEE double multiplication: the product
/// depends on the two bit patterns alone.
#[verifier::external_body]
pub(crate) fn mul_bits(a: u64, b: u64) -> (r: u64)
    ensures
        r == mul_of(a, b),
{
    let x = rustc_apfloat::ieee::Double::from_bits(a as u128);
    let y = rustc_apfloat::ieee::Double::from_bits(b as u128);
    (x * y).value.to_bits() as u64
}

/// Relies on rustc_apfloat's IEEE double division: the quotient depends
/// on the two bit patterns alone.
#[verifier::external_body]
pub(crate) fn div_bits(a: u64, b: u64) -> (r: u64)
    ensures
        r == div_of(a, b),
{
    let x = rustc_apfloat::ieee::Double::from_bits(a as u128);
    let y = rustc_apfloat::ieee::Double::from_bits(b as u128);
    (x / y).value.to_bits() as u64
}

/// Relies on libm's pow, a pure function of its two double arguments; the
/// bit casts on either side of the call only reinterpret the 64 bits.
#[verifier::external_body]
pub(crate) fn pow_bits(a: u64, b: u64) -> (r: u64)
    ensures
        r == pow_of(a, b),
{
    bytemuck::cast(libm::pow(bytemuck::cast(a), bytemuck::cast(b)))
}

/// Relies on rustc_apfloat's IEEE double comparison (`partial_cmp`, through
/// `<`): true exactly when the first double is less than the second; false
/// whenever either is a NaN.
#[verifier::external_body]
pub(crate) fn lt_bits(a: u64, b: u64) -> (r: bool)
    ensures
        r == lt_of(a, b),
{
    let x = rustc_apfloat::ieee::Double::from_bits(a as u128);
    let y = rustc_apfloat::ieee::Double::from_bits(b as u128);
    x < y
}

/// Relies on rustc_apfloat's IEEE double comparison (`partial_cmp`, through
/// `<=`): false whenever either operand is a NaN.
#[verifier::external_body]
pub(crate) fn le_bits(a: u64, b: u64) -> (r: bool)
    ensures
        r == le_of(a, b),
{
    let x = rustc_apfloat::ieee::Double::from_bits(a as u128);
    let y = rustc_apfloat::ieee::Double::from_bits(b as u128);
    x <= y
}

/// Relies on rustc_apfloat's IEEE double equality (`partial_cmp` yielding
/// `Equal`): the two zeros are equal, and a NaN equals nothing, itself
/// included.
#[verifier::external_body]
pub(crate) fn eq_bits(a: u64, b: u64) -> (r: bool)
    ensures
        r == eq_of(a, b),
{
    let x = rustc_apfloat::ieee::Double::from_bits(a as u128);
    let y = rustc_apfloat::ieee::Double::from_bits(b as u128);
    x == y
}

} // verus!
