use matheval::error::MathError;
use matheval::evaluate;
use matheval::evaluate_to_string;
use matheval::number::Number;

fn num(re: f64, im: f64) -> Number {
    Number {
        re: re.to_bits(),
        im: im.to_bits(),
    }
}

#[test]
fn precedence_mul_over_add() {
    assert_eq!(evaluate("2+3*4".to_string()), Ok(num(14.0, 0.0)));
}

#[test]
fn precedence_brackets_override() {
    assert_eq!(evaluate("(2+3)*4".to_string()), Ok(num(20.0, 0.0)));
}

#[test]
fn subtraction_is_left_associative() {
    assert_eq!(evaluate("8-3-2".to_string()), Ok(num(3.0, 0.0)));
}

#[test]
fn power_is_right_associative() {
    assert_eq!(evaluate("2^3^2".to_string()), Ok(num(512.0, 0.0)));
}

#[test]
fn implicit_multiplication_number_bracket() {
    assert_eq!(
        evaluate("3(4)".to_string()),
        evaluate("3*(4)".to_string())
    );
    assert_eq!(evaluate("3(4)".to_string()), Ok(num(12.0, 0.0)));
}

#[test]
fn implicit_multiplication_number_variable() {
    assert_eq!(evaluate("2pi".to_string()), evaluate("2*pi".to_string()));
    assert_eq!(
        evaluate("2pi".to_string()),
        Ok(num(2.0 * std::f64::consts::PI, 0.0))
    );
}

#[test]
fn mismatched_bracket_kinds() {
    assert_eq!(
        evaluate("(1+2]".to_string()),
        Err(MathError::UnmatchedWrapping)
    );
}

#[test]
fn unclosed_bracket() {
    assert_eq!(
        evaluate("(1+2".to_string()),
        Err(MathError::UnmatchedWrapping)
    );
}

#[test]
fn unopened_bracket() {
    assert_eq!(
        evaluate("1+2)".to_string()),
        Err(MathError::UnmatchedWrapping)
    );
}

#[test]
fn curly_and_square_brackets_group() {
    assert_eq!(evaluate("{1+2}*[2]".to_string()), Ok(num(6.0, 0.0)));
}

#[test]
fn leading_unary_minus() {
    assert_eq!(evaluate("-3+5".to_string()), Ok(num(2.0, 0.0)));
}

#[test]
fn unary_minus_of_bracket() {
    // Complex negation flips both component signs, so the imaginary zero
    // comes out negative.
    assert_eq!(evaluate("-(2+1)".to_string()), Ok(num(-3.0, -0.0)));
}

#[test]
fn unary_minus_after_operator_is_a_missing_operand() {
    // The insertion algorithm hangs `-` above `*`, leaving `*` without a
    // right operand; a structurally missing operand is `Undefined`.
    assert_eq!(evaluate("4*-2".to_string()), Err(MathError::Undefined));
}

#[test]
fn undefined_variable() {
    assert_eq!(
        evaluate("q+1".to_string()),
        Err(MathError::UndefinedVariable("q".to_string()))
    );
}

#[test]
fn undefined_variable_on_the_right() {
    assert_eq!(
        evaluate("1+q".to_string()),
        Err(MathError::UndefinedVariable("q".to_string()))
    );
}

#[test]
fn undefined_function() {
    assert_eq!(
        evaluate("foo(1)".to_string()),
        Err(MathError::UndefinedFunction("foo".to_string()))
    );
}

#[test]
fn division_by_zero_is_undefined() {
    assert_eq!(evaluate("1/0".to_string()), Err(MathError::Undefined));
    assert_eq!(evaluate("5/0".to_string()), Err(MathError::Undefined));
    assert_eq!(evaluate("0/0".to_string()), Err(MathError::Undefined));
}

#[test]
fn division_by_zero_propagates() {
    assert_eq!(evaluate("(1/0)+5".to_string()), Err(MathError::Undefined));
}

#[test]
fn overflow_is_too_big() {
    // 10^309 does not fit a double: the literal parses to infinity, and the
    // addition keeps the infinite magnitude, which sanitization rejects.
    let big = "9".repeat(309);
    assert_eq!(
        evaluate(format!("{}+{}", big, big)),
        Err(MathError::TooBig)
    );
}

#[test]
fn bad_number() {
    assert_eq!(evaluate("1.2.3".to_string()), Err(MathError::BadNumber));
}

#[test]
fn unknown_character_is_illegal() {
    assert_eq!(evaluate("2,3".to_string()), Err(MathError::IllegalSymbol));
}

#[test]
fn symbol_without_operator_is_illegal() {
    assert_eq!(evaluate("2&3".to_string()), Err(MathError::IllegalSymbol));
}

#[test]
fn unary_use_of_multiplication_is_undefined_operation() {
    assert_eq!(
        evaluate("*3".to_string()),
        Err(MathError::UndefinedOperation("unary multiplication".to_string()))
    );
}

#[test]
fn empty_input() {
    assert_eq!(evaluate("".to_string()), Err(MathError::NoInput));
    assert_eq!(evaluate("   ".to_string()), Err(MathError::NoInput));
}

#[test]
fn whitespace_is_ignored() {
    assert_eq!(evaluate(" 2 +  3 * 4 ".to_string()), Ok(num(14.0, 0.0)));
}

#[test]
fn evaluation_is_deterministic() {
    for input in ["2+3*4", "sin(1)+cos(2)", "2pi^2", "1/0", "q+1", "sqrt(2)"] {
        let first = evaluate(input.to_string());
        let second = evaluate(input.to_string());
        assert_eq!(first, second);
        assert_eq!(
            evaluate_to_string(input.to_string()),
            evaluate_to_string(input.to_string())
        );
    }
}

#[test]
fn renders_pure_real() {
    assert_eq!(evaluate_to_string("2+3*4".to_string()), "14");
}

#[test]
fn renders_pure_imaginary() {
    assert_eq!(evaluate_to_string("2i".to_string()), "2i");
}

#[test]
fn renders_negative_imaginary() {
    assert_eq!(evaluate_to_string("0-2i".to_string()), "-2i");
}

#[test]
fn renders_general_complex() {
    let expected = format!("{}", num::complex::Complex64::new(1.0, 2.0));
    assert_eq!(evaluate_to_string("1+2i".to_string()), expected);
}

#[test]
fn renders_failure_as_empty() {
    assert_eq!(evaluate_to_string("1/0".to_string()), "");
    assert_eq!(evaluate_to_string("(1".to_string()), "");
}

#[test]
fn variable_i_is_imaginary_unit() {
    assert_eq!(evaluate("i*i".to_string()), Ok(num(-1.0, 0.0)));
}

#[test]
fn default_constants_are_bound() {
    assert_eq!(
        evaluate("pi".to_string()),
        Ok(num(std::f64::consts::PI, 0.0))
    );
    assert_eq!(
        evaluate("e".to_string()),
        Ok(num(std::f64::consts::E, 0.0))
    );
    assert_eq!(
        evaluate("tau".to_string()),
        Ok(num(std::f64::consts::TAU, 0.0))
    );
}
