//! Scalars are IEEE-754 binary64 real numbers, carried as their 64-bit
//! encodings (`u64`).  The four rounding arithmetic operations and the square
//! root are performed by the `const_soft_float` crate, a pure-Rust,
//! correctly rounded IEEE-754 implementation; each is named here by an
//! uninterpreted spec function of the operand encodings.  Everything that is
//! decidable from the bit pattern alone — NaN tests, ordering, the clamp
//! against one, widening of 8-bit channel values and narrowing back — is
//! implemented and specified directly over the bits.

use vstd::prelude::*;

use const_soft_float::soft_f64::SoftF64;

verus! {

/// The encoding of `0.0`.
pub const F64_ZERO: u64 = 0;

/// The encoding of `1.0`.
pub const F64_ONE: u64 = 0x3FF0000000000000;

/// The encoding of `2.0`.
pub const F64_TWO: u64 = 0x4000000000000000;

/// The sum of the two reals encoded by `a` and `b`, as computed by
/// IEEE-754 binary64 addition (round to nearest, ties to even).
pub uninterp spec fn add_bits_of(a: u64, b: u64) -> u64;

/// The difference of the two reals encoded by `a` and `b`.
pub uninterp spec fn sub_bits_of(a: u64, b: u64) -> u64;

/// The product of the two reals encoded by `a` and `b`.
pub uninterp spec fn mul_bits_of(a: u64, b: u64) -> u64;

/// The quotient of the two reals encoded by `a` and `b`.
pub uninterp spec fn div_bits_of(a: u64, b: u64) -> u64;

/// The square root of the real encoded by `a` (NaN for negative inputs).
pub uninterp spec fn sqrt_bits_of(a: u64) -> u64;

/// Relies on `const_soft_float`'s `SoftF64::add`: IEEE-754 binary64
/// addition of the encoded operands, round to nearest, ties to even.
#[verifier::external_body]
pub(crate) fn add_bits(a: u64, b: u64) -> (r: u64)
    ensures
        r == add_bits_of(a, b),
{
    SoftF64::from_bits(a).add(SoftF64::from_bits(b)).to_bits()
}

/// Relies on `const_soft_float`'s `SoftF64::sub`: IEEE-754 binary64
/// subtraction of the encoded operands, round to nearest, ties to even.
#[verifier::external_body]
pub(crate) fn sub_bits(a: u64, b: u64) -> (r: u64)
    ensures
        r == sub_bits_of(a, b),
{
    SoftF64::from_bits(a).sub(SoftF64::from_bits(b)).to_bits()
}

/// Relies on `const_soft_float`'s `SoftF64::mul`: IEEE-754 binary64
/// multiplication of the encoded operands, round to nearest, ties to even.
#[verifier::external_body]
pub(crate) fn mul_bits(a: u64, b: u64) -> (r: u64)
    ensures
        r == mul_bits_of(a, b),
{
    SoftF64::from_bits(a).mul(SoftF64::from_bits(b)).to_bits()
}

/// Relies on `const_soft_float`'s `SoftF64::div`: IEEE-754 binary64
/// division of the encoded operands, round to nearest, ties to even.
#[verifier::external_body]
pub(crate) fn div_bits(a: u64, b: u64) -> (r: u64)
    ensures
        r == div_bits_of(a, b),
{
    SoftF64::from_bits(a).div(SoftF64::from_bits(b)).to_bits()
}

/// Relies on `const_soft_float`'s `SoftF64::sqrt`: the correctly rounded
/// IEEE-754 binary64 square root of the encoded operand.
#[verifier::external_body]
pub(crate) fn sqrt_bits(a: u64) -> (r: u64)
    ensures
        r == sqrt_bits_of(a),
{
    SoftF64::from_bits(a).sqrt().to_bits()
}

/// Whether `b` encodes a NaN: exponent field all ones, mantissa nonzero.
pub open spec fn f_is_nan(b: u64) -> bool {
    (b & 0x7FF0000000000000) == 0x7FF0000000000000 && (b & 0x000FFFFFFFFFFFFF) != 0
}

/// The sign bit of the encoding `b`.
pub open spec fn f_sign(b: u64) -> bool {
    (b & 0x8000000000000000) != 0
}

/// The magnitude (sign-stripped) part of the encoding `b`.
pub open spec fn f_mag(b: u64) -> u64 {
    b & 0x7FFFFFFFFFFFFFFF
}

/// The IEEE-754 `<` relation on the reals encoded by `a` and `b`: false
/// whenever either is NaN, with the two zeros equal, and otherwise decided
/// by sign and magnitude.
pub open spec fn f_lt(a: u64, b: u64) -> bool {
    if f_is_nan(a) || f_is_nan(b) {
        false
    } else if f_sign(a) && f_sign(b) {
        f_mag(b) < f_mag(a)
    } else if !f_sign(a) && !f_sign(b) {
        f_mag(a) < f_mag(b)
    } else if f_sign(a) {
        f_mag(a) != 0 || f_mag(b) != 0
    } else {
        false
    }
}

/// `max(1.0, x)`: the larger of one and the encoded real, one when the
/// input is NaN — exactly `f64::max` with a first operand of one.
pub open spec fn f_max_one(x: u64) -> u64 {
    if f_lt(F64_ONE, x) {
        x
    } else {
        F64_ONE
    }
}

/// Whether `b` encodes a NaN.
pub fn is_nan_bits(b: u64) -> (r: bool)
    ensures
        r == f_is_nan(b),
{
    (b & 0x7FF0000000000000) == 0x7FF0000000000000 && (b & 0x000FFFFFFFFFFFFF) != 0
}

/// The IEEE-754 `<` test on two encoded reals.
pub fn lt_bits(a: u64, b: u64) -> (r: bool)
    ensures
        r == f_lt(a, b),
{
    if is_nan_bits(a) || is_nan_bits(b) {
        false
    } else {
        let a_sign: bool = (a & 0x8000000000000000) != 0;
        let b_sign: bool = (b & 0x8000000000000000) != 0;
        let a_mag: u64 = a & 0x7FFFFFFFFFFFFFFF;
        let b_mag: u64 = b & 0x7FFFFFFFFFFFFFFF;
        if a_sign && b_sign {
            b_mag < a_mag
        } else if !a_sign && !b_sign {
            a_mag < b_mag
        } else if a_sign {
            a_mag != 0 || b_mag != 0
        } else {
            false
        }
    }
}

/// The clamp of an encoded real against one from below.
pub fn max_one_bits(x: u64) -> (r: u64)
    ensures
        r == f_max_one(x),
{
    if lt_bits(F64_ONE, x) {
        x
    } else {
        F64_ONE
    }
}

/// The binary64 encoding of the small nonnegative integer `v`: zero maps
/// to the zero encoding, and any other value to the normal number with
/// exponent `floor(log2 v)` and the remaining bits of `v` as the top of
/// the mantissa.
pub open spec fn u8_bits(v: u8) -> u64 {
    if v == 0 {
        0
    } else if v < 2 {
        0x3FF0000000000000
    } else if v < 4 {
        0x4000000000000000 | (((v - 2) as u64) << 51)
    } else if v < 8 {
        0x4010000000000000 | (((v - 4) as u64) << 50)
    } else if v < 16 {
        0x4020000000000000 | (((v - 8) as u64) << 49)
    } else if v < 32 {
        0x4030000000000000 | (((v - 16) as u64) << 48)
    } else if v < 64 {
        0x4040000000000000 | (((v - 32) as u64) << 47)
    } else if v < 128 {
        0x4050000000000000 | (((v - 64) as u64) << 46)
    } else {
        0x4060000000000000 | (((v - 128) as u64) << 45)
    }
}

/// Widens an 8-bit channel value to the encoding of the equal real, as the
/// exact integer-to-double conversion does.
pub fn u8_to_bits(v: u8) -> (r: u64)
    ensures
        r == u8_bits(v),
{
    if v == 0 {
        0
    } else if v < 2 {
        0x3FF0000000000000
    } else if v < 4 {
        0x4000000000000000 | (((v - 2) as u64) << 51)
    } else if v < 8 {
        0x4010000000000000 | (((v - 4) as u64) << 50)
    } else if v < 16 {
        0x4020000000000000 | (((v - 8) as u64) << 49)
    } else if v < 32 {
        0x4030000000000000 | (((v - 16) as u64) << 48)
    } else if v < 64 {
        0x4040000000000000 | (((v - 32) as u64) << 47)
    } else if v < 128 {
        0x4050000000000000 | (((v - 64) as u64) << 46)
    } else {
        0x4060000000000000 | (((v - 128) as u64) << 45)
    }
}

/// The saturating truncation of the encoded real to an 8-bit channel
/// value: NaN and everything below one truncate to 0, everything at or
/// above 256 saturates to 255, and in between the integer part is read
/// from the mantissa — exactly the `as u8` cast of the encoded double.
pub open spec fn bits_u8(b: u64) -> u8 {
    let exp = (b >> 52) & 0x7FF;
    if f_is_nan(b) {
        0
    } else if f_sign(b) {
        0
    } else if exp < 1023 {
        0
    } else if exp >= 1031 {
        255
    } else {
        (((b & 0x000FFFFFFFFFFFFF) | 0x0010000000000000) >> ((1075 - exp) as u64)) as u8
    }
}

/// Widening a channel byte to a real and truncating back returns the
/// byte: the two conversions are inverse on every 8-bit value.
pub proof fn lemma_channel_round_trip(v: u8)
    ensures
        bits_u8(u8_bits(v)) == v,
{
    if v == 0 {
        assert((0u64 & 0x7FF0000000000000) != 0x7FF0000000000000 && (0u64 & 0x8000000000000000)
            == 0 && ((0u64 >> 52) & 0x7FF) == 0) by (bit_vector);
    } else if v < 2 {
        let b: u64 = 0x3FF0000000000000;
        assert((b & 0x7FF0000000000000) != 0x7FF0000000000000 && (b & 0x8000000000000000) == 0 && (
        (b >> 52) & 0x7FF) == 1023 && ((((b & 0x000FFFFFFFFFFFFF) | 0x0010000000000000) >> 52) as u8)
            == v) by (bit_vector)
            requires
                v == 1,
                b == 0x3FF0000000000000u64,
        ;
    } else if v < 4 {
        let b: u64 = 0x4000000000000000 | (((v - 2) as u64) << 51);
        assert((b & 0x7FF0000000000000) != 0x7FF0000000000000 && (b & 0x8000000000000000) == 0 && (
        (b >> 52) & 0x7FF) == 1024 && ((((b & 0x000FFFFFFFFFFFFF) | 0x0010000000000000) >> 51) as u8)
            == v) by (bit_vector)
            requires
                2 <= v < 4,
                b == 0x4000000000000000u64 | (((v - 2) as u64) << 51),
        ;
    } else if v < 8 {
        let b: u64 = 0x4010000000000000 | (((v - 4) as u64) << 50);
        assert((b & 0x7FF0000000000000) != 0x7FF0000000000000 && (b & 0x8000000000000000) == 0 && (
        (b >> 52) & 0x7FF) == 1025 && ((((b & 0x000FFFFFFFFFFFFF) | 0x0010000000000000) >> 50) as u8)
            == v) by (bit_vector)
            requires
                4 <= v < 8,
                b == 0x4010000000000000u64 | (((v - 4) as u64) << 50),
        ;
    } else if v < 16 {
        let b: u64 = 0x4020000000000000 | (((v - 8) as u64) << 49);
        assert((b & 0x7FF0000000000000) != 0x7FF0000000000000 && (b & 0x8000000000000000) == 0 && (
        (b >> 52) & 0x7FF) == 1026 && ((((b & 0x000FFFFFFFFFFFFF) | 0x0010000000000000) >> 49) as u8)
            == v) by (bit_vector)
            requires
                8 <= v < 16,
                b == 0x4020000000000000u64 | (((v - 8) as u64) << 49),
        ;
    } else if v < 32 {
        let b: u64 = 0x4030000000000000 | (((v - 16) as u64) << 48);
        assert((b & 0x7FF0000000000000) != 0x7FF0000000000000 && (b & 0x8000000000000000) == 0 && (
        (b >> 52) & 0x7FF) == 1027 && ((((b & 0x000FFFFFFFFFFFFF) | 0x0010000000000000) >> 48) as u8)
            == v) by (bit_vector)
            requires
                16 <= v < 32,
                b == 0x4030000000000000u64 | (((v - 16) as u64) << 48),
        ;
    } else if v < 64 {
        let b: u64 = 0x4040000000000000 | (((v - 32) as u64) << 47);
        assert((b & 0x7FF0000000000000) != 0x7FF0000000000000 && (b & 0x8000000000000000) == 0 && (
        (b >> 52) & 0x7FF) == 1028 && ((((b & 0x000FFFFFFFFFFFFF) | 0x0010000000000000) >> 47) as u8)
            == v) by (bit_vector)
            requires
                32 <= v < 64,
                b == 0x4040000000000000u64 | (((v - 32) as u64) << 47),
        ;
    } else if v < 128 {
        let b: u64 = 0x4050000000000000 | (((v - 64) as u64) << 46);
        assert((b & 0x7FF0000000000000) != 0x7FF0000000000000 && (b & 0x8000000000000000) == 0 && (
        (b >> 52) & 0x7FF) == 1029 && ((((b & 0x000FFFFFFFFFFFFF) | 0x0010000000000000) >> 46) as u8)
            == v) by (bit_vector)
            requires
                64 <= v < 128,
                b == 0x4050000000000000u64 | (((v - 64) as u64) << 46),
        ;
    } else {
        let b: u64 = 0x4060000000000000 | (((v - 128) as u64) << 45);
        assert((b & 0x7FF0000000000000) != 0x7FF0000000000000 && (b & 0x8000000000000000) == 0 && (
        (b >> 52) & 0x7FF) == 1030 && ((((b & 0x000FFFFFFFFFFFFF) | 0x0010000000000000) >> 45) as u8)
            == v) by (bit_vector)
            requires
                128 <= v,
                b == 0x4060000000000000u64 | (((v - 128) as u64) << 45),
        ;
    }
}

/// Narrows the encoding of a real to an 8-bit channel value by saturating
/// truncation.
pub fn bits_to_u8(b: u64) -> (r: u8)
    ensures
        r == bits_u8(b),
{
    let exp: u64 = (b >> 52) & 0x7FF;
    if is_nan_bits(b) {
        0
    } else if (b & 0x8000000000000000) != 0 {
        0
    } else if exp < 1023 {
        0
    } else if exp >= 1031 {
        255
    } else {
        ((((b & 0x000FFFFFFFFFFFFF) | 0x0010000000000000) >> (1075 - exp)) as u8)
    }
}

} // verus!
