use vstd::prelude::*;

use crate::number::Number;

verus! {

/// A typed failure of one evaluation. Every failure is terminal for that
/// evaluation; none is fatal to the process.
#[derive(Debug, Clone, PartialEq)]
pub enum MathError {
    /// An unrecognized character, or an operator symbol absent from the catalog.
    IllegalSymbol,
    /// A closing bracket with no matching open of the same kind, or an open
    /// bracket never closed.
    UnmatchedWrapping,
    /// A numeric lexeme that cannot be parsed as a number.
    BadNumber,
    /// Kept for API compatibility; complex division by zero surfaces as
    /// `Undefined` through sanitization instead.
    DivisionByZero,
    /// A computation's magnitude is infinite.
    TooBig,
    /// The expression was empty: nothing to evaluate at the root.
    NoInput,
    /// The named operator position (binary or unary) has no behavior.
    UndefinedOperation(String),
    /// A variable lookup missed during evaluation.
    UndefinedVariable(String),
    /// A function lookup missed during evaluation.
    UndefinedFunction(String),
    /// The result is not a number, or the tree is structurally malformed.
    Undefined,
}

/// Mathematical model of `MathError`: the name payloads as character sequences.
pub enum MathErrorV {
    IllegalSymbol,
    UnmatchedWrapping,
    BadNumber,
    DivisionByZero,
    TooBig,
    NoInput,
    UndefinedOperation(Seq<char>),
    UndefinedVariable(Seq<char>),
    UndefinedFunction(Seq<char>),
    Undefined,
}

impl View for MathError {
    type V = MathErrorV;

    open spec fn view(&self) -> MathErrorV {
        match self {
            MathError::IllegalSymbol => MathErrorV::IllegalSymbol,
            MathError::UnmatchedWrapping => MathErrorV::UnmatchedWrapping,
            MathError::BadNumber => MathErrorV::BadNumber,
            MathError::DivisionByZero => MathErrorV::DivisionByZero,
            MathError::TooBig => MathErrorV::TooBig,
            MathError::NoInput => MathErrorV::NoInput,
            MathError::UndefinedOperation(s) => MathErrorV::UndefinedOperation(s@),
            MathError::UndefinedVariable(s) => MathErrorV::UndefinedVariable(s@),
            MathError::UndefinedFunction(s) => MathErrorV::UndefinedFunction(s@),
            MathError::Undefined => MathErrorV::Undefined,
        }
    }
}

/// The outcome of one evaluation: a sanitized number or a typed failure.
pub type MathResult = Result<Number, MathError>;

/// Model of a `MathResult`: the error taken to its view.
pub open spec fn res_view(r: MathResult) -> Result<Number, MathErrorV> {
    match r {
        Ok(n) => Ok(n),
        Err(e) => Err(e@),
    }
}

} // verus!
