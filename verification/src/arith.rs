//! IEEE-754 scalar arithmetic on bit patterns.
//!
//! The viewport model stores every scalar as the bit pattern of an IEEE-754
//! number (`u32` for single precision, `u64` for double precision). The
//! arithmetic itself is performed by the `rustc_apfloat` software
//! floating-point library behind the trusted wrappers below; each operation's
//! result is a pure function of its operand bit patterns, named by an
//! uninterpreted spec function so that contracts can speak of it exactly.

use vstd::prelude::*;
use rustc_apfloat::Float;
use rustc_apfloat::FloatConvert;

verus! {

/// Bit pattern of the single-precision product of `a` and `b`
/// (round to nearest, ties to even).
pub uninterp spec fn f32_mul(a: u32, b: u32) -> u32;

/// Bit pattern of the single-precision sum of `a` and `b`.
pub uninterp spec fn f32_add(a: u32, b: u32) -> u32;

/// Bit pattern of the single-precision difference `a - b`.
pub uninterp spec fn f32_sub(a: u32, b: u32) -> u32;

/// Bit pattern of the single-precision quotient `a / b`.
pub uninterp spec fn f32_div(a: u32, b: u32) -> u32;

/// Bit pattern of the double-precision difference `a - b`.
pub uninterp spec fn f64_sub(a: u64, b: u64) -> u64;

/// Bit pattern of the double-precision quotient `a / b`.
pub uninterp spec fn f64_div(a: u64, b: u64) -> u64;

/// Bit pattern of the double-precision product of `a` and `b`.
pub uninterp spec fn f64_mul(a: u64, b: u64) -> u64;

/// Bit pattern of the double-precision number nearest to the integer `w`
/// (exact, since every `u32` is representable in double precision).
pub uninterp spec fn f64_of_u32(w: u32) -> u64;

/// Bit pattern of the single-precision number nearest to the double-precision
/// number with bit pattern `a`.
pub uninterp spec fn f32_of_f64(a: u64) -> u32;

/// Negating an IEEE-754 number flips its sign bit and nothing else.
pub open spec fn f32_neg(a: u32) -> u32 {
    a ^ 0x8000_0000
}

/// Relies on rustc_apfloat::ieee::Single's Mul impl: IEEE-754 single-precision
/// multiplication, round to nearest, ties to even.
#[verifier::external_body]
pub fn mul32(a: u32, b: u32) -> (r: u32)
    ensures
        r == f32_mul(a, b),
{
    let x = rustc_apfloat::ieee::Single::from_bits(a as u128);
    let y = rustc_apfloat::ieee::Single::from_bits(b as u128);
    (x * y).value.to_bits() as u32
}

/// Relies on rustc_apfloat::ieee::Single's Add impl: IEEE-754 single-precision
/// addition, round to nearest, ties to even.
#[verifier::external_body]
pub fn add32(a: u32, b: u32) -> (r: u32)
    ensures
        r == f32_add(a, b),
{
    let x = rustc_apfloat::ieee::Single::from_bits(a as u128);
    let y = rustc_apfloat::ieee::Single::from_bits(b as u128);
    (x + y).value.to_bits() as u32
}

/// Relies on rustc_apfloat::ieee::Single's Sub impl: IEEE-754 single-precision
/// subtraction, round to nearest, ties to even.
#[verifier::external_body]
pub fn sub32(a: u32, b: u32) -> (r: u32)
    ensures
        r == f32_sub(a, b),
{
    let x = rustc_apfloat::ieee::Single::from_bits(a as u128);
    let y = rustc_apfloat::ieee::Single::from_bits(b as u128);
    (x - y).value.to_bits() as u32
}

/// Relies on rustc_apfloat::ieee::Single's Div impl: IEEE-754 single-precision
/// division, round to nearest, ties to even.
#[verifier::external_body]
pub fn div32(a: u32, b: u32) -> (r: u32)
    ensures
        r == f32_div(a, b),
{
    let x = rustc_apfloat::ieee::Single::from_bits(a as u128);
    let y = rustc_apfloat::ieee::Single::from_bits(b as u128);
    (x / y).value.to_bits() as u32
}

/// Negation is pure sign-bit arithmetic, so it needs no outside call.
pub fn neg32(a: u32) -> (r: u32)
    ensures
        r == f32_neg(a),
{
    a ^ 0x8000_0000
}

/// Relies on rustc_apfloat::ieee::Double's Sub impl: IEEE-754 double-precision
/// subtraction, round to nearest, ties to even.
#[verifier::external_body]
pub fn sub64(a: u64, b: u64) -> (r: u64)
    ensures
        r == f64_sub(a, b),
{
    let x = rustc_apfloat::ieee::Double::from_bits(a as u128);
    let y = rustc_apfloat::ieee::Double::from_bits(b as u128);
    (x - y).value.to_bits() as u64
}

/// Relies on rustc_apfloat::ieee::Double's Div impl: IEEE-754 double-precision
/// division, round to nearest, ties to even.
#[verifier::external_body]
pub fn div64(a: u64, b: u64) -> (r: u64)
    ensures
        r == f64_div(a, b),
{
    let x = rustc_apfloat::ieee::Double::from_bits(a as u128);
    let y = rustc_apfloat::ieee::Double::from_bits(b as u128);
    (x / y).value.to_bits() as u64
}

/// Relies on rustc_apfloat::ieee::Double's Mul impl: IEEE-754 double-precision
/// multiplication, round to nearest, ties to even.
#[verifier::external_body]
pub fn mul64(a: u64, b: u64) -> (r: u64)
    ensures
        r == f64_mul(a, b),
{
    let x = rustc_apfloat::ieee::Double::from_bits(a as u128);
    let y = rustc_apfloat::ieee::Double::from_bits(b as u128);
    (x * y).value.to_bits() as u64
}

/// Relies on rustc_apfloat's Float::from_u128: conversion of an unsigned
/// integer to the nearest double-precision number (exact for a `u32`).
#[verifier::external_body]
pub fn f64_from_u32(w: u32) -> (r: u64)
    ensures
        r == f64_of_u32(w),
{
    rustc_apfloat::ieee::Double::from_u128(w as u128).value.to_bits() as u64
}

/// Relies on rustc_apfloat's FloatConvert::convert: conversion of a
/// double-precision number to the nearest single-precision number.
#[verifier::external_body]
pub fn f32_from_f64(a: u64) -> (r: u32)
    ensures
        r == f32_of_f64(a),
{
    let x = rustc_apfloat::ieee::Double::from_bits(a as u128);
    let mut loses_info = false;
    let r: rustc_apfloat::StatusAnd<rustc_apfloat::ieee::Single> = x.convert(&mut loses_info);
    r.value.to_bits() as u32
}

} // verus!
