use vstd::prelude::*;
use vstd::string::StringExecFns;

use crate::error::{MathError, MathErrorV, MathResult};

verus! {

/// A complex number, stored as the raw IEEE 754 binary64 bit patterns of its
/// real and imaginary components. All structural logic of this crate (lexing,
/// token resolution, tree building, evaluation) is verified over these bits;
/// the arithmetic itself is done by the `num` crate behind trusted wrappers,
/// each of whose results is named by an uninterpreted spec function of the
/// operand bits alone.
#[derive(Clone, Copy, Debug, PartialEq, Eq, Structural)]
pub struct Number {
    /// Bit pattern of the real component.
    pub re: u64,
    /// Bit pattern of the imaginary component.
    pub im: u64,
}

/// Whether the bit pattern encodes an IEEE 754 binary64 NaN: exponent field
/// all ones and a non-zero mantissa field.
pub open spec fn nan_bits(b: u64) -> bool {
    (b >> 52) & 0x7ff == 0x7ff && (b & 0x000f_ffff_ffff_ffff) != 0
}

/// Whether the bit pattern encodes an IEEE 754 binary64 infinity of either
/// sign: exponent field all ones and a zero mantissa field.
pub open spec fn inf_bits(b: u64) -> bool {
    (b & 0x7fff_ffff_ffff_ffff) == 0x7ff0_0000_0000_0000
}

/// Whether the bit pattern encodes a zero of either sign. These are exactly
/// the values that compare equal to 0.0.
pub open spec fn zero_bits(b: u64) -> bool {
    b == 0u64 || b == 0x8000_0000_0000_0000u64
}

/// Whether a component of the number is NaN, as `num::complex::Complex::is_nan`
/// decides it.
pub open spec fn spec_is_nan(n: Number) -> bool {
    nan_bits(n.re) || nan_bits(n.im)
}

/// Whether the number is infinite, as `num::complex::Complex::is_infinite`
/// decides it: not NaN, and a component is an infinity.
pub open spec fn spec_is_inf(n: Number) -> bool {
    !spec_is_nan(n) && (inf_bits(n.re) || inf_bits(n.im))
}

/// Exponent mask of an IEEE 754 binary64 value, shifted down.
pub const EXP_MASK: u64 = 0x7ff;

/// Mantissa mask of an IEEE 754 binary64 value.
pub const MANTISSA_MASK: u64 = 0x000f_ffff_ffff_ffff;

/// All bits but the sign of an IEEE 754 binary64 value.
pub const MAGNITUDE_MASK: u64 = 0x7fff_ffff_ffff_ffff;

/// Bit pattern of positive infinity.
pub const INF_BITS: u64 = 0x7ff0_0000_0000_0000;

/// Bit pattern of negative zero.
pub const NEG_ZERO_BITS: u64 = 0x8000_0000_0000_0000;

/// Bit pattern of the machine epsilon 2^-52 (exponent 1023 - 52 = 0x3cb,
/// mantissa zero).
pub const EPSILON_BITS: u64 = 0x3cb0_0000_0000_0000;

/// Whether a component of the number is NaN.
pub fn number_is_nan(n: Number) -> (r: bool)
    ensures
        r == spec_is_nan(n),
{
    ((n.re >> 52) & EXP_MASK == EXP_MASK && n.re & MANTISSA_MASK != 0) || ((n.im >> 52) & EXP_MASK
        == EXP_MASK && n.im & MANTISSA_MASK != 0)
}

/// Whether the number is infinite: not NaN, and a component is an infinity.
pub fn number_is_infinite(n: Number) -> (r: bool)
    ensures
        r == spec_is_inf(n),
{
    !number_is_nan(n) && (n.re & MAGNITUDE_MASK == INF_BITS || n.im & MAGNITUDE_MASK == INF_BITS)
}

// What each outside arithmetic call returns, named as a function of the
// operand bit patterns alone. Nothing more is assumed of these results;
// the verified pipeline is proved to route them faithfully.
/// Component bits of the sum computed by complex addition.
pub uninterp spec fn cx_add_of(a_re: u64, a_im: u64, b_re: u64, b_im: u64) -> (u64, u64);

/// Component bits of the difference computed by complex subtraction.
pub uninterp spec fn cx_sub_of(a_re: u64, a_im: u64, b_re: u64, b_im: u64) -> (u64, u64);

/// Component bits of the product computed by complex multiplication.
pub uninterp spec fn cx_mul_of(a_re: u64, a_im: u64, b_re: u64, b_im: u64) -> (u64, u64);

/// Component bits of the quotient computed by complex division.
pub uninterp spec fn cx_div_of(a_re: u64, a_im: u64, b_re: u64, b_im: u64) -> (u64, u64);

/// Component bits of the complex power `a^b`.
pub uninterp spec fn cx_powc_of(a_re: u64, a_im: u64, b_re: u64, b_im: u64) -> (u64, u64);

/// Component bits of the complex negation `-n`.
pub uninterp spec fn cx_neg_of(re: u64, im: u64) -> (u64, u64);

/// Component bits of the complex reciprocal `1/n`.
pub uninterp spec fn cx_inv_of(re: u64, im: u64) -> (u64, u64);

/// Component bits of the complex sine.
pub uninterp spec fn cx_sin_of(re: u64, im: u64) -> (u64, u64);

/// Component bits of the complex cosine.
pub uninterp spec fn cx_cos_of(re: u64, im: u64) -> (u64, u64);

/// Component bits of the complex tangent.
pub uninterp spec fn cx_tan_of(re: u64, im: u64) -> (u64, u64);

/// Component bits of the complex arcsine.
pub uninterp spec fn cx_asin_of(re: u64, im: u64) -> (u64, u64);

/// Component bits of the complex arccosine.
pub uninterp spec fn cx_acos_of(re: u64, im: u64) -> (u64, u64);

/// Component bits of the complex arctangent.
pub uninterp spec fn cx_atan_of(re: u64, im: u64) -> (u64, u64);

/// Component bits of the complex natural logarithm.
pub uninterp spec fn cx_ln_of(re: u64, im: u64) -> (u64, u64);

/// Component bits of the complex square root.
pub uninterp spec fn cx_sqrt_of(re: u64, im: u64) -> (u64, u64);

/// Bits of the real magnitude `|n|` computed by `Complex::norm`.
pub uninterp spec fn cx_norm_of(re: u64, im: u64) -> u64;

/// Bits of the fractional part of a binary64 value.
pub uninterp spec fn fract_of(b: u64) -> u64;

/// Bits of the integer-directed truncation of a binary64 value.
pub uninterp spec fn trunc_of(b: u64) -> u64;

/// Bits of the nearest-integer rounding of a binary64 value.
pub uninterp spec fn round_of(b: u64) -> u64;

/// Bits of the absolute value of a binary64 value.
pub uninterp spec fn abs_of(b: u64) -> u64;

/// Whether the binary64 value with bits `a` is strictly less than the one
/// with bits `b`.
pub uninterp spec fn lt_of(a: u64, b: u64) -> bool;

/// Bits of the binary64 difference `a - b`.
pub uninterp spec fn sub_bits_of(a: u64, b: u64) -> u64;

/// Component bits parsed from a text, or `None` where the text is not a
/// number, as `num::complex::Complex::from_str` decides it.
pub uninterp spec fn parse_cx_of(s: Seq<char>) -> Option<(u64, u64)>;

/// The text that the standard display of a binary64 value produces.
pub uninterp spec fn real_str_of(b: u64) -> Seq<char>;

/// The text that the display of a complex number produces.
pub uninterp spec fn cx_str_of(re: u64, im: u64) -> Seq<char>;

/// A `Number` from a pair of component bits.
pub open spec fn num_of(p: (u64, u64)) -> Number {
    Number { re: p.0, im: p.1 }
}

/// Relies on `<num::complex::Complex<f64> as core::ops::Add>::add`:
/// componentwise addition, a function of the operand bits alone.
#[verifier::external_body]
pub(crate) fn cx_add(a: Number, b: Number) -> (r: Number)
    ensures
        (r.re, r.im) == cx_add_of(a.re, a.im, b.re, b.im),
{
    let x = num::complex::Complex64::new(
        num::traits::FromBytes::from_ne_bytes(&a.re.to_ne_bytes()),
        num::traits::FromBytes::from_ne_bytes(&a.im.to_ne_bytes()),
    );
    let y = num::complex::Complex64::new(
        num::traits::FromBytes::from_ne_bytes(&b.re.to_ne_bytes()),
        num::traits::FromBytes::from_ne_bytes(&b.im.to_ne_bytes()),
    );
    let z = x + y;
    Number { re: z.re.to_bits(), im: z.im.to_bits() }
}

/// Relies on `<num::complex::Complex<f64> as core::ops::Sub>::sub`:
/// componentwise subtraction, a function of the operand bits alone.
#[verifier::external_body]
pub(crate) fn cx_sub(a: Number, b: Number) -> (r: Number)
    ensures
        (r.re, r.im) == cx_sub_of(a.re, a.im, b.re, b.im),
{
    let x = num::complex::Complex64::new(
        num::traits::FromBytes::from_ne_bytes(&a.re.to_ne_bytes()),
        num::traits::FromBytes::from_ne_bytes(&a.im.to_ne_bytes()),
    );
    let y = num::complex::Complex64::new(
        num::traits::FromBytes::from_ne_bytes(&b.re.to_ne_bytes()),
        num::traits::FromBytes::from_ne_bytes(&b.im.to_ne_bytes()),
    );
    let z = x - y;
    Number { re: z.re.to_bits(), im: z.im.to_bits() }
}

/// Relies on `<num::complex::Complex<f64> as core::ops::Mul>::mul`:
/// complex multiplication, a function of the operand bits alone.
#[verifier::external_body]
pub(crate) fn cx_mul(a: Number, b: Number) -> (r: Number)
    ensures
        (r.re, r.im) == cx_mul_of(a.re, a.im, b.re, b.im),
{
    let x = num::complex::Complex64::new(
        num::traits::FromBytes::from_ne_bytes(&a.re.to_ne_bytes()),
        num::traits::FromBytes::from_ne_bytes(&a.im.to_ne_bytes()),
    );
    let y = num::complex::Complex64::new(
        num::traits::FromBytes::from_ne_bytes(&b.re.to_ne_bytes()),
        num::traits::FromBytes::from_ne_bytes(&b.im.to_ne_bytes()),
    );
    let z = x * y;
    Number { re: z.re.to_bits(), im: z.im.to_bits() }
}

/// Relies on `<num::complex::Complex<f64> as core::ops::Div>::div`:
/// complex division, a function of the operand bits alone.
#[verifier::external_body]
pub(crate) fn cx_div(a: Number, b: Number) -> (r: Number)
    ensures
        (r.re, r.im) == cx_div_of(a.re, a.im, b.re, b.im),
{
    let x = num::complex::Complex64::new(
        num::traits::FromBytes::from_ne_bytes(&a.re.to_ne_bytes()),
        num::traits::FromBytes::from_ne_bytes(&a.im.to_ne_bytes()),
    );
    let y = num::complex::Complex64::new(
        num::traits::FromBytes::from_ne_bytes(&b.re.to_ne_bytes()),
        num::traits::FromBytes::from_ne_bytes(&b.im.to_ne_bytes()),
    );
    let z = x / y;
    Number { re: z.re.to_bits(), im: z.im.to_bits() }
}

/// Relies on `num::complex::Complex::powc`: the complex power `a^b`,
/// a function of the operand bits alone.
#[verifier::external_body]
pub(crate) fn cx_powc(a: Number, b: Number) -> (r: Number)
    ensures
        (r.re, r.im) == cx_powc_of(a.re, a.im, b.re, b.im),
{
    let x = num::complex::Complex64::new(
        num::traits::FromBytes::from_ne_bytes(&a.re.to_ne_bytes()),
        num::traits::FromBytes::from_ne_bytes(&a.im.to_ne_bytes()),
    );
    let y = num::complex::Complex64::new(
        num::traits::FromBytes::from_ne_bytes(&b.re.to_ne_bytes()),
        num::traits::FromBytes::from_ne_bytes(&b.im.to_ne_bytes()),
    );
    let z = x.powc(y);
    Number { re: z.re.to_bits(), im: z.im.to_bits() }
}

/// Relies on `<num::complex::Complex<f64> as core::ops::Neg>::neg`:
/// componentwise negation, a function of the operand bits alone.
#[verifier::external_body]
pub(crate) fn cx_neg(n: Number) -> (r: Number)
    ensures
        (r.re, r.im) == cx_neg_of(n.re, n.im),
{
    let x = num::complex::Complex64::new(
        num::traits::FromBytes::from_ne_bytes(&n.re.to_ne_bytes()),
        num::traits::FromBytes::from_ne_bytes(&n.im.to_ne_bytes()),
    );
    let z = -x;
    Number { re: z.re.to_bits(), im: z.im.to_bits() }
}

/// Relies on `num::complex::Complex::inv`: the reciprocal `1/n`,
/// a function of the operand bits alone.
#[verifier::external_body]
pub(crate) fn cx_inv(n: Number) -> (r: Number)
    ensures
        (r.re, r.im) == cx_inv_of(n.re, n.im),
{
    let x = num::complex::Complex64::new(
        num::traits::FromBytes::from_ne_bytes(&n.re.to_ne_bytes()),
        num::traits::FromBytes::from_ne_bytes(&n.im.to_ne_bytes()),
    );
    let z = x.inv();
    Number { re: z.re.to_bits(), im: z.im.to_bits() }
}

/// Relies on `num::complex::Complex::sin`, a function of the operand bits alone.
#[verifier::external_body]
pub(crate) fn cx_sin(n: Number) -> (r: Number)
    ensures
        (r.re, r.im) == cx_sin_of(n.re, n.im),
{
    let x = num::complex::Complex64::new(
        num::traits::FromBytes::from_ne_bytes(&n.re.to_ne_bytes()),
        num::traits::FromBytes::from_ne_bytes(&n.im.to_ne_bytes()),
    );
    let z = x.sin();
    Number { re: z.re.to_bits(), im: z.im.to_bits() }
}

/// Relies on `num::complex::Complex::cos`, a function of the operand bits alone.
#[verifier::external_body]
pub(crate) fn cx_cos(n: Number) -> (r: Number)
    ensures
        (r.re, r.im) == cx_cos_of(n.re, n.im),
{
    let x = num::complex::Complex64::new(
        num::traits::FromBytes::from_ne_bytes(&n.re.to_ne_bytes()),
        num::traits::FromBytes::from_ne_bytes(&n.im.to_ne_bytes()),
    );
    let z = x.cos();
    Number { re: z.re.to_bits(), im: z.im.to_bits() }
}

/// Relies on `num::complex::Complex::tan`, a function of the operand bits alone.
#[verifier::external_body]
pub(crate) fn cx_tan(n: Number) -> (r: Number)
    ensures
        (r.re, r.im) == cx_tan_of(n.re, n.im),
{
    let x = num::complex::Complex64::new(
        num::traits::FromBytes::from_ne_bytes(&n.re.to_ne_bytes()),
        num::traits::FromBytes::from_ne_bytes(&n.im.to_ne_bytes()),
    );
    let z = x.tan();
    Number { re: z.re.to_bits(), im: z.im.to_bits() }
}

/// Relies on `num::complex::Complex::asin`, a function of the operand bits alone.
#[verifier::external_body]
pub(crate) fn cx_asin(n: Number) -> (r: Number)
    ensures
        (r.re, r.im) == cx_asin_of(n.re, n.im),
{
    let x = num::complex::Complex64::new(
        num::traits::FromBytes::from_ne_bytes(&n.re.to_ne_bytes()),
        num::traits::FromBytes::from_ne_bytes(&n.im.to_ne_bytes()),
    );
    let z = x.asin();
    Number { re: z.re.to_bits(), im: z.im.to_bits() }
}

/// Relies on `num::complex::Complex::acos`, a function of the operand bits alone.
#[verifier::external_body]
pub(crate) fn cx_acos(n: Number) -> (r: Number)
    ensures
        (r.re, r.im) == cx_acos_of(n.re, n.im),
{
    let x = num::complex::Complex64::new(
        num::traits::FromBytes::from_ne_bytes(&n.re.to_ne_bytes()),
        num::traits::FromBytes::from_ne_bytes(&n.im.to_ne_bytes()),
    );
    let z = x.acos();
    Number { re: z.re.to_bits(), im: z.im.to_bits() }
}

/// Relies on `num::complex::Complex::atan`, a function of the operand bits alone.
#[verifier::external_body]
pub(crate) fn cx_atan(n: Number) -> (r: Number)
    ensures
        (r.re, r.im) == cx_atan_of(n.re, n.im),
{
    let x = num::complex::Complex64::new(
        num::traits::FromBytes::from_ne_bytes(&n.re.to_ne_bytes()),
        num::traits::FromBytes::from_ne_bytes(&n.im.to_ne_bytes()),
    );
    let z = x.atan();
    Number { re: z.re.to_bits(), im: z.im.to_bits() }
}

/// Relies on `num::complex::Complex::ln`, a function of the operand bits alone.
#[verifier::external_body]
pub(crate) fn cx_ln(n: Number) -> (r: Number)
    ensures
        (r.re, r.im) == cx_ln_of(n.re, n.im),
{
    let x = num::complex::Complex64::new(
        num::traits::FromBytes::from_ne_bytes(&n.re.to_ne_bytes()),
        num::traits::FromBytes::from_ne_bytes(&n.im.to_ne_bytes()),
    );
    let z = x.ln();
    Number { re: z.re.to_bits(), im: z.im.to_bits() }
}

/// Relies on `num::complex::Complex::sqrt`, a function of the operand bits alone.
#[verifier::external_body]
pub(crate) fn cx_sqrt(n: Number) -> (r: Number)
    ensures
        (r.re, r.im) == cx_sqrt_of(n.re, n.im),
{
    let x = num::complex::Complex64::new(
        num::traits::FromBytes::from_ne_bytes(&n.re.to_ne_bytes()),
        num::traits::FromBytes::from_ne_bytes(&n.im.to_ne_bytes()),
    );
    let z = x.sqrt();
    Number { re: z.re.to_bits(), im: z.im.to_bits() }
}

/// Relies on `num::complex::Complex::norm`: the real magnitude `|n|`,
/// a function of the operand bits alone.
#[verifier::external_body]
pub(crate) fn cx_norm(n: Number) -> (r: u64)
    ensures
        r == cx_norm_of(n.re, n.im),
{
    let x = num::complex::Complex64::new(
        num::traits::FromBytes::from_ne_bytes(&n.re.to_ne_bytes()),
        num::traits::FromBytes::from_ne_bytes(&n.im.to_ne_bytes()),
    );
    x.norm().to_bits()
}

/// Relies on `f64::fract`: the fractional part, a function of the bits alone.
#[verifier::external_body]
pub(crate) fn f64_fract(b: u64) -> (r: u64)
    ensures
        r == fract_of(b),
{
    let x: <num::complex::Complex64 as num::complex::ComplexFloat>::Real =
        num::traits::FromBytes::from_ne_bytes(&b.to_ne_bytes());
    x.fract().to_bits()
}

/// Relies on `f64::trunc`: rounding toward zero, a function of the bits alone.
#[verifier::external_body]
pub(crate) fn f64_trunc(b: u64) -> (r: u64)
    ensures
        r == trunc_of(b),
{
    let x: <num::complex::Complex64 as num::complex::ComplexFloat>::Real =
        num::traits::FromBytes::from_ne_bytes(&b.to_ne_bytes());
    x.trunc().to_bits()
}

/// Relies on `f64::round`: rounding to the nearest integer, a function of the
/// bits alone.
#[verifier::external_body]
pub(crate) fn f64_round(b: u64) -> (r: u64)
    ensures
        r == round_of(b),
{
    let x: <num::complex::Complex64 as num::complex::ComplexFloat>::Real =
        num::traits::FromBytes::from_ne_bytes(&b.to_ne_bytes());
    x.round().to_bits()
}

/// Relies on `f64::abs`: the absolute value, a function of the bits alone.
#[verifier::external_body]
pub(crate) fn f64_abs(b: u64) -> (r: u64)
    ensures
        r == abs_of(b),
{
    let x: <num::complex::Complex64 as num::complex::ComplexFloat>::Real =
        num::traits::FromBytes::from_ne_bytes(&b.to_ne_bytes());
    x.abs().to_bits()
}

/// Relies on `<f64 as core::cmp::PartialOrd>::lt`: the IEEE 754 strict order,
/// a function of the two operands' bits alone.
#[verifier::external_body]
pub(crate) fn f64_lt(a: u64, b: u64) -> (r: bool)
    ensures
        r == lt_of(a, b),
{
    let x: <num::complex::Complex64 as num::complex::ComplexFloat>::Real =
        num::traits::FromBytes::from_ne_bytes(&a.to_ne_bytes());
    let y: <num::complex::Complex64 as num::complex::ComplexFloat>::Real =
        num::traits::FromBytes::from_ne_bytes(&b.to_ne_bytes());
    x < y
}

/// Relies on `<f64 as core::ops::Sub>::sub`: IEEE 754 subtraction, a function
/// of the two operands' bits alone.
#[verifier::external_body]
pub(crate) fn f64_sub(a: u64, b: u64) -> (r: u64)
    ensures
        r == sub_bits_of(a, b),
{
    let x: <num::complex::Complex64 as num::complex::ComplexFloat>::Real =
        num::traits::FromBytes::from_ne_bytes(&a.to_ne_bytes());
    let y: <num::complex::Complex64 as num::complex::ComplexFloat>::Real =
        num::traits::FromBytes::from_ne_bytes(&b.to_ne_bytes());
    (x - y).to_bits()
}

/// Relies on `<num::complex::Complex<f64> as core::str::FromStr>::from_str`:
/// whether and how a text parses as a number is a function of the text alone.
#[verifier::external_body]
pub(crate) fn parse_complex(s: &String) -> (r: Option<Number>)
    ensures
        match r {
            Some(n) => parse_cx_of(s@) == Some((n.re, n.im)),
            None => parse_cx_of(s@) is None,
        },
{
    match s.as_str().parse::<num::complex::Complex64>() {
        Ok(z) => Some(Number { re: z.re.to_bits(), im: z.im.to_bits() }),
        Err(_) => None,
    }
}

/// Relies on `<f64 as core::fmt::Display>::fmt` through `ToString`: the
/// rendered text is a function of the bits alone.
#[verifier::external_body]
pub(crate) fn f64_display(b: u64) -> (r: String)
    ensures
        r@ == real_str_of(b),
{
    let x: <num::complex::Complex64 as num::complex::ComplexFloat>::Real =
        num::traits::FromBytes::from_ne_bytes(&b.to_ne_bytes());
    format!("{}", x)
}

/// Relies on `<num::complex::Complex<f64> as core::fmt::Display>::fmt`: the
/// rendered text is a function of the component bits alone.
#[verifier::external_body]
pub(crate) fn cx_display(n: Number) -> (r: String)
    ensures
        r@ == cx_str_of(n.re, n.im),
{
    let x = num::complex::Complex64::new(
        num::traits::FromBytes::from_ne_bytes(&n.re.to_ne_bytes()),
        num::traits::FromBytes::from_ne_bytes(&n.im.to_ne_bytes()),
    );
    format!("{}", x)
}

/// One component of `spec_round_num`: a component whose fractional part is
/// within machine epsilon of zero is truncated to that integer, absorbing
/// floating-point noise; any other component is kept as it is.
pub open spec fn spec_round_component(b: u64) -> u64 {
    if lt_of(abs_of(fract_of(b)), EPSILON_BITS) {
        trunc_of(b)
    } else {
        b
    }
}

/// The integer-snapped form of a number: both components taken through
/// `spec_round_component`.
pub open spec fn spec_round_num(n: Number) -> Number {
    Number { re: spec_round_component(n.re), im: spec_round_component(n.im) }
}

/// The sanitized form of a raw arithmetic result: NaN is an `Undefined`
/// failure, an infinite magnitude is a `TooBig` failure, and any other value
/// is integer-snapped and returned.
pub open spec fn spec_sanitize(n: Number) -> Result<Number, MathErrorV> {
    if spec_is_nan(n) {
        Err(MathErrorV::Undefined)
    } else if spec_is_inf(n) {
        Err(MathErrorV::TooBig)
    } else {
        Ok(spec_round_num(n))
    }
}

/// One component of `round_num`.
fn round_component(b: u64) -> (r: u64)
    ensures
        r == spec_round_component(b),
{
    let f = f64_fract(b);
    let a = f64_abs(f);
    if f64_lt(a, EPSILON_BITS) {
        f64_trunc(b)
    } else {
        b
    }
}

/// Snaps each component whose fractional part is within machine epsilon of
/// zero to the integer below it, absorbing floating-point noise.
pub fn round_num(num: Number) -> (r: Number)
    ensures
        r == spec_round_num(num),
{
    Number { re: round_component(num.re), im: round_component(num.im) }
}

/// Turns a raw arithmetic result into a sanitized number or a typed failure:
/// NaN fails as `Undefined`, an infinite magnitude fails as `TooBig`, and any
/// other value is integer-snapped. Every operator and function result passes
/// through here before it is usable elsewhere.
pub fn sanitize_result(num: Number) -> (r: MathResult)
    ensures
        crate::error::res_view(r) == spec_sanitize(num),
{
    if number_is_nan(num) {
        Err(MathError::Undefined)
    } else if number_is_infinite(num) {
        Err(MathError::TooBig)
    } else {
        Ok(round_num(num))
    }
}

/// The text that `result_to_string` renders for a result.
pub open spec fn spec_result_str(r: Result<Number, MathErrorV>) -> Seq<char> {
    match r {
        Ok(n) => {
            if zero_bits(n.im) {
                real_str_of(n.re)
            } else if !zero_bits(n.re) && !zero_bits(n.im) {
                cx_str_of(n.re, n.im)
            } else {
                real_str_of(n.im) + "i"@
            }
        },
        Err(_) => Seq::empty(),
    }
}

/// Renders a result as text: a pure-real number prints its real part, a
/// pure-imaginary one prints `<im>i`, a general complex one prints both
/// parts, and every failure prints as the empty string.
pub fn result_to_string(result: MathResult) -> (r: String)
    ensures
        r@ == spec_result_str(crate::error::res_view(result)),
{
    match result {
        Ok(num) => {
            if num.im == 0u64 || num.im == NEG_ZERO_BITS {
                f64_display(num.re)
            } else if !(num.re == 0u64 || num.re == NEG_ZERO_BITS) {
                cx_display(num)
            } else {
                f64_display(num.im).concat("i")
            }
        },
        Err(_) => String::new(),
    }
}

} // verus!
