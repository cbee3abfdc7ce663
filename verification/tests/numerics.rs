use matheval::evaluate;
use matheval::number::{
    number_is_infinite, number_is_nan, result_to_string, round_num, sanitize_result, Number,
    EPSILON_BITS,
};
use matheval::variables::{E_BITS, ONE_BITS, PI_BITS, TAU_BITS};
use matheval::NEAR_INT_BITS;

use num::complex::Complex64;

fn num(re: f64, im: f64) -> Number {
    Number {
        re: re.to_bits(),
        im: im.to_bits(),
    }
}

/// Mirrors the integer snap applied to every sanitized component.
fn snap(x: f64) -> f64 {
    if x.fract().abs() < f64::EPSILON {
        x.trunc()
    } else {
        x
    }
}

/// Mirrors the display rounding applied to each final result component.
fn display_round(x: f64) -> f64 {
    if (x.round() - x).abs() < 0.0001 {
        x.round()
    } else {
        x
    }
}

/// The number the pipeline should produce for a sanitized, finite complex
/// result computed by `num`.
fn expect_num(z: Complex64) -> Number {
    num(display_round(snap(z.re)), display_round(snap(z.im)))
}

#[test]
fn constant_bit_patterns_match_std() {
    assert_eq!(PI_BITS, std::f64::consts::PI.to_bits());
    assert_eq!(E_BITS, std::f64::consts::E.to_bits());
    assert_eq!(TAU_BITS, std::f64::consts::TAU.to_bits());
    assert_eq!(ONE_BITS, 1.0f64.to_bits());
    assert_eq!(EPSILON_BITS, f64::EPSILON.to_bits());
    assert_eq!(NEAR_INT_BITS, 0.0001f64.to_bits());
}

#[test]
fn nan_and_infinity_predicates_match_std() {
    assert!(number_is_nan(num(f64::NAN, 0.0)));
    assert!(number_is_nan(num(0.0, f64::NAN)));
    assert!(!number_is_nan(num(1.5, -2.5)));
    assert!(number_is_infinite(num(f64::INFINITY, 0.0)));
    assert!(number_is_infinite(num(0.0, f64::NEG_INFINITY)));
    assert!(!number_is_infinite(num(f64::NAN, f64::INFINITY)));
    assert!(!number_is_infinite(num(1.0, 2.0)));
}

#[test]
fn sanitize_matches_the_reference_rules() {
    assert_eq!(
        sanitize_result(num(f64::NAN, 0.0)),
        Err(matheval::error::MathError::Undefined)
    );
    assert_eq!(
        sanitize_result(num(f64::INFINITY, 1.0)),
        Err(matheval::error::MathError::TooBig)
    );
    assert_eq!(sanitize_result(num(2.5, -1.25)), Ok(num(2.5, -1.25)));
    // A component within machine epsilon of an integer snaps to it.
    assert_eq!(sanitize_result(num(1e-20, 3.0)), Ok(num(0.0, 3.0)));
}

#[test]
fn round_num_snaps_tiny_fractions() {
    assert_eq!(round_num(num(1e-20, 5.0)), num(0.0, 5.0));
    assert_eq!(round_num(num(0.5, 0.0)), num(0.5, 0.0));
}

#[test]
fn tiny_literal_snaps_to_zero() {
    assert_eq!(
        evaluate("0.00000000000000000001+0".to_string()),
        Ok(num(0.0, 0.0))
    );
}

#[test]
fn display_threshold_snaps_near_integers() {
    assert_eq!(evaluate("2.00001+0".to_string()), Ok(num(2.0, 0.0)));
    assert_eq!(evaluate("2.001+0".to_string()), Ok(num(2.001, 0.0)));
}

#[test]
fn arithmetic_matches_num_reference() {
    assert_eq!(evaluate("2+3".to_string()), Ok(num(5.0, 0.0)));
    assert_eq!(evaluate("5-2".to_string()), Ok(num(3.0, 0.0)));
    assert_eq!(evaluate("6/4".to_string()), Ok(num(1.5, 0.0)));
    assert_eq!(evaluate("2^10".to_string()), Ok(num(1024.0, 0.0)));
    assert_eq!(evaluate("-7+0".to_string()), Ok(num(-7.0, 0.0)));
    let z = Complex64::new(0.5, 0.0) / Complex64::new(0.0, 2.0);
    assert_eq!(evaluate("0.5/(2i)".to_string()), Ok(expect_num(z)));
}

#[test]
fn power_of_imaginary_matches_num_reference() {
    let z = Complex64::new(0.0, 1.0).powc(Complex64::new(2.0, 0.0));
    assert_eq!(evaluate("i^2".to_string()), Ok(expect_num(z)));
}

#[test]
fn builtins_match_num_reference() {
    let one = Complex64::new(1.0, 0.0);
    let cases: Vec<(&str, Complex64)> = vec![
        ("sin(1)", one.sin()),
        ("cos(1)", one.cos()),
        ("tan(1)", one.tan()),
        ("csc(1)", one.sin().inv()),
        ("sec(1)", one.cos().inv()),
        ("cot(1)", one.tan().inv()),
        ("arcsin(0.5)", Complex64::new(0.5, 0.0).asin()),
        ("arccos(0.5)", Complex64::new(0.5, 0.0).acos()),
        ("arctan(0.5)", Complex64::new(0.5, 0.0).atan()),
        ("ln(2)", Complex64::new(2.0, 0.0).ln()),
        ("sqrt(2)", Complex64::new(2.0, 0.0).sqrt()),
    ];
    for (input, z) in cases {
        assert_eq!(evaluate(input.to_string()), Ok(expect_num(z)), "{}", input);
    }
}

#[test]
fn abs_is_the_norm() {
    assert_eq!(evaluate("abs(3+4i)".to_string()), Ok(num(5.0, 0.0)));
    assert_eq!(evaluate("abs(0-7)".to_string()), Ok(num(7.0, 0.0)));
}

#[test]
fn sqrt_of_minus_one_is_imaginary() {
    let z = Complex64::new(-1.0, 0.0).sqrt();
    assert_eq!(evaluate("sqrt(0-1)".to_string()), Ok(expect_num(z)));
}

#[test]
fn trig_of_pi_snaps_to_integers() {
    // sin(pi) is not exactly zero in doubles; sanitization snaps the noise.
    assert_eq!(evaluate("sin(pi)+1".to_string()), Ok(num(1.0, 0.0)));
    assert_eq!(
        evaluate("cos(0)".to_string()),
        Ok(expect_num(Complex64::new(0.0, 0.0).cos()))
    );
}

#[test]
fn renders_numbers_like_std() {
    assert_eq!(result_to_string(Ok(num(14.0, 0.0))), "14");
    assert_eq!(result_to_string(Ok(num(0.0, 2.0))), "2i");
    assert_eq!(result_to_string(Ok(num(-1.5, 0.0))), "-1.5");
    assert_eq!(
        result_to_string(Ok(num(1.0, 2.0))),
        format!("{}", Complex64::new(1.0, 2.0))
    );
    assert_eq!(
        result_to_string(Err(matheval::error::MathError::TooBig)),
        ""
    );
}

#[test]
fn number_parsing_goes_through_num() {
    // The numeric lexeme text is handed to num's parser: forms it accepts
    // evaluate, forms it rejects fail.
    assert_eq!(evaluate("2.5+0".to_string()), Ok(num(2.5, 0.0)));
    assert_eq!(
        evaluate("1.+0".to_string()),
        match "1.".parse::<Complex64>() {
            Ok(z) => Ok(expect_num(z + Complex64::new(0.0, 0.0))),
            Err(_) => Err(matheval::error::MathError::BadNumber),
        }
    );
}
