//! IEEE-754 binary64 arithmetic on `u64` bit patterns.
//!
//! Every physical quantity in this crate is carried as the 64-bit encoding of
//! an IEEE-754 binary64 number. The five arithmetic primitives the engine
//! needs — addition, subtraction, multiplication, division and the natural
//! logarithm — plus the conversion from an unsigned integer are performed by
//! outside crates behind trusted wrappers. Each result is named by an
//! uninterpreted spec function, so contracts elsewhere in the crate pin every
//! computed series exactly, as an expression over these names.

use vstd::prelude::*;
use rustc_apfloat::Float;
use rustc_apfloat::ieee::Double;

verus! {

/// Bit pattern of binary64 `0.0`.
pub const F64_ZERO: u64 = 0x0000_0000_0000_0000;
/// Bit pattern of binary64 `1.0`.
pub const F64_ONE: u64 = 0x3FF0_0000_0000_0000;
/// Bit pattern of binary64 `2.0`.
pub const F64_TWO: u64 = 0x4000_0000_0000_0000;
/// Bit pattern of binary64 `4.0`.
pub const F64_FOUR: u64 = 0x4010_0000_0000_0000;
/// Bit pattern of binary64 `6.0`.
pub const F64_SIX: u64 = 0x4018_0000_0000_0000;
/// Bit pattern of binary64 `9.0`.
pub const F64_NINE: u64 = 0x4022_0000_0000_0000;
/// Bit pattern of binary64 `10.0`.
pub const F64_TEN: u64 = 0x4024_0000_0000_0000;
/// Bit pattern of binary64 `64.0`.
pub const F64_SIXTY_FOUR: u64 = 0x4050_0000_0000_0000;
/// Bit pattern of binary64 `1000000.0`, the megapascal-to-pascal factor.
pub const F64_MEGA: u64 = 0x412E_8480_0000_0000;

/// Bit pattern of binary64 `+infinity`; every positive finite number is below it.
pub const F64_POS_INFINITY: u64 = 0x7FF0_0000_0000_0000;

/// The binary64 sum of the numbers encoded by `a` and `b`.
pub uninterp spec fn add64(a: u64, b: u64) -> u64;

/// The binary64 difference of the numbers encoded by `a` and `b`.
pub uninterp spec fn sub64(a: u64, b: u64) -> u64;

/// The binary64 product of the numbers encoded by `a` and `b`.
pub uninterp spec fn mul64(a: u64, b: u64) -> u64;

/// The binary64 quotient of the numbers encoded by `a` and `b`.
pub uninterp spec fn div64(a: u64, b: u64) -> u64;

/// The binary64 natural logarithm of the number encoded by `a`.
pub uninterp spec fn ln64(a: u64) -> u64;

/// The binary64 number nearest to the unsigned integer `n`.
pub uninterp spec fn of_uint64(n: u64) -> u64;

/// Relies on `rustc_apfloat::ieee::Double`'s `Add` impl: IEEE-754 binary64
/// addition, rounded to nearest, ties to even.
#[verifier::external_body]
pub(crate) fn add_bits(a: u64, b: u64) -> (r: u64)
    ensures
        r == add64(a, b),
{
    (Double::from_bits(a as u128) + Double::from_bits(b as u128)).value.to_bits() as u64
}

/// Relies on `rustc_apfloat::ieee::Double`'s `Sub` impl: IEEE-754 binary64
/// subtraction, rounded to nearest, ties to even.
#[verifier::external_body]
pub(crate) fn sub_bits(a: u64, b: u64) -> (r: u64)
    ensures
        r == sub64(a, b),
{
    (Double::from_bits(a as u128) - Double::from_bits(b as u128)).value.to_bits() as u64
}

/// Relies on `rustc_apfloat::ieee::Double`'s `Mul` impl: IEEE-754 binary64
/// multiplication, rounded to nearest, ties to even.
#[verifier::external_body]
pub(crate) fn mul_bits(a: u64, b: u64) -> (r: u64)
    ensures
        r == mul64(a, b),
{
    (Double::from_bits(a as u128) * Double::from_bits(b as u128)).value.to_bits() as u64
}

/// Relies on `rustc_apfloat::ieee::Double`'s `Div` impl: IEEE-754 binary64
/// division, rounded to nearest, ties to even.
#[verifier::external_body]
pub(crate) fn div_bits(a: u64, b: u64) -> (r: u64)
    ensures
        r == div64(a, b),
{
    (Double::from_bits(a as u128) / Double::from_bits(b as u128)).value.to_bits() as u64
}

/// Relies on `libm::log`: the natural logarithm of a binary64 value, a pure
/// function of its argument's bits; `bytemuck::cast` only reinterprets the
/// bits on the way in and out.
#[verifier::external_body]
pub(crate) fn ln_bits(a: u64) -> (r: u64)
    ensures
        r == ln64(a),
{
    bytemuck::cast(libm::log(bytemuck::cast(a)))
}

/// Relies on `rustc_apfloat::Float::from_u128`: conversion of an unsigned
/// integer to the nearest binary64 value, ties to even.
#[verifier::external_body]
pub(crate) fn uint_to_bits(n: u64) -> (r: u64)
    ensures
        r == of_uint64(n),
{
    Double::from_u128(n as u128).value.to_bits() as u64
}

/// Whether `a` encodes a positive finite binary64 number (normal or
/// subnormal): the sign bit is clear, the magnitude is not zero, and the
/// exponent field is below the infinity/NaN range.
pub open spec fn spec_is_positive_finite(a: u64) -> bool {
    0 < a < F64_POS_INFINITY
}

/// Bit-level test for a positive finite binary64 value, used by the
/// pre-flight parameter validation.
pub(crate) fn is_positive_finite(a: u64) -> (r: bool)
    ensures
        r == spec_is_positive_finite(a),
{
    0 < a && a < F64_POS_INFINITY
}

} // verus!
