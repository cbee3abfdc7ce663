pub mod context;
pub mod error;
pub mod functions;
pub mod lexer;
pub mod number;
pub mod operator;
pub mod parse;
pub mod token;
pub mod variables;

use vstd::prelude::*;

use crate::context::{Context, ContextV};
use crate::error::{res_view, MathError, MathErrorV, MathResult};
use crate::functions::spec_default_functions;
use crate::lexer::{lex, spec_lex};
use crate::number::{
    abs_of, f64_abs, f64_lt, f64_round, f64_sub, lt_of, result_to_string, round_of,
    spec_result_str, sub_bits_of, Number,
};
use crate::operator::{spec_default_operator_set, OperatorSet};
use crate::parse::{spec_ast_eval, spec_build, Ast};
use crate::token::{spec_resolve, tokenize, TokenError};
use crate::variables::spec_default_variables;

verus! {

/// Bit pattern of the threshold 0.0001: a final result component closer than
/// this to an integer is displayed as that integer.
pub const NEAR_INT_BITS: u64 = 0x3f1a_36e2_eb1c_432d;

/// The final rounding of one result component: where the distance to the
/// nearest integer is below the threshold, that integer; else the component
/// as computed.
pub open spec fn spec_final_round(b: u64) -> u64 {
    if lt_of(abs_of(sub_bits_of(round_of(b), b)), NEAR_INT_BITS) {
        round_of(b)
    } else {
        b
    }
}

fn round(b: u64) -> (r: u64)
    ensures
        r == spec_final_round(b),
{
    let rounded = f64_round(b);
    let diff = f64_sub(rounded, b);
    if f64_lt(f64_abs(diff), NEAR_INT_BITS) {
        rounded
    } else {
        b
    }
}

/// The evaluation failure that a token resolution failure surfaces as.
pub open spec fn spec_token_error(e: TokenError) -> MathErrorV {
    match e {
        TokenError::UnmatchedWrapping => MathErrorV::UnmatchedWrapping,
        TokenError::BadNumber => MathErrorV::BadNumber,
        TokenError::IllegalSymbol => MathErrorV::IllegalSymbol,
    }
}

/// The `MathError` that a token resolution failure surfaces as.
pub fn token_error_to_math(e: TokenError) -> (r: MathError)
    ensures
        r@ == spec_token_error(e),
{
    match e {
        TokenError::UnmatchedWrapping => MathError::UnmatchedWrapping,
        TokenError::BadNumber => MathError::BadNumber,
        TokenError::IllegalSymbol => MathError::IllegalSymbol,
    }
}

/// The default environment's model.
pub open spec fn spec_default_context() -> ContextV {
    ContextV { vars: spec_default_variables(), funcs: spec_default_functions() }
}

/// The whole pipeline on one input text: classify, resolve under the default
/// catalog, build the tree, evaluate against the default environment, and
/// snap each final component that lies within the display threshold of an
/// integer. A function of the input alone: evaluating the same text twice
/// yields the same result, bit for bit.
pub open spec fn spec_evaluate(input: Seq<char>) -> Result<Number, MathErrorV> {
    match spec_resolve(spec_lex(input), spec_default_operator_set()) {
        Err(e) => Err(spec_token_error(e)),
        Ok(ts) => match spec_ast_eval(spec_build(ts), spec_default_context()) {
            Ok(n) => Ok(Number { re: spec_final_round(n.re), im: spec_final_round(n.im) }),
            Err(e) => Err(e),
        },
    }
}

/// Evaluates an expression text against the default catalog and environment.
pub fn evaluate(input: String) -> (r: MathResult)
    ensures
        res_view(r) == spec_evaluate(input@),
{
    let ls = lex(input);
    let ts = match tokenize(OperatorSet::default(), ls) {
        Ok(ts) => ts,
        Err(e) => {
            return Err(token_error_to_math(e));
        },
    };
    let context = Context::default();
    proof {
        assert(context@ =~= spec_default_context());
    }
    let tree = Ast::new(ts);
    let result = tree.evaluate(&context);
    match result {
        Ok(num) => Ok(Number { re: round(num.re), im: round(num.im) }),
        Err(err) => Err(err),
    }
}

/// Evaluates an expression text and renders the outcome: a pure-real result
/// prints its real part, a pure-imaginary one prints `<im>i`, a general
/// complex one prints both parts, and every failure prints as the empty
/// string.
pub fn evaluate_to_string(input: String) -> (r: String)
    ensures
        r@ == spec_result_str(spec_evaluate(input@)),
{
    result_to_string(evaluate(input))
}

/// Law: evaluation is deterministic. The pipeline's outcome is a function of
/// the input text alone, so two evaluations of one text against the default
/// environment agree bit for bit.
pub proof fn lemma_evaluation_deterministic(
    r1: Result<Number, MathErrorV>,
    r2: Result<Number, MathErrorV>,
    input: Seq<char>,
)
    requires
        r1 == spec_evaluate(input),
        r2 == spec_evaluate(input),
    ensures
        r1 == r2,
{
}

} // verus!
