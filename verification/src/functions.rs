use vstd::prelude::*;

use crate::context::{funcs_table_view, Context};
use crate::error::{res_view, MathErrorV, MathResult};
use crate::number::{
    cx_acos, cx_acos_of, cx_asin, cx_asin_of, cx_atan, cx_atan_of, cx_cos, cx_cos_of, cx_inv,
    cx_inv_of, cx_ln, cx_ln_of, cx_norm, cx_norm_of, cx_sin, cx_sin_of, cx_sqrt, cx_sqrt_of,
    cx_tan, cx_tan_of, num_of, sanitize_result, spec_sanitize, Number,
};
use crate::parse::{eval0, node_size, spec_ast_eval0, spec_make_node, tree_node, Ast, AstNodeV};
use crate::token::TokenV;

verus! {

/// One of the built-in single-argument computations.
#[derive(Debug, Clone, Copy, PartialEq, Eq, Structural)]
pub enum BuiltinFn {
    Sin,
    Cos,
    Tan,
    Csc,
    Sec,
    Cot,
    Arcsin,
    Arccos,
    Arctan,
    Ln,
    Abs,
    Sqrt,
}

/// A function definition: a built-in computation, or a user-defined one
/// carrying its own body tree and the name of its one formal parameter.
#[derive(Debug)]
pub enum Function {
    /// A fixed built-in computation.
    SoftwareDefined(BuiltinFn),
    /// A stored one-parameter expression tree and its parameter's name.
    AstDefined(Ast, String),
}

/// Mathematical model of a function definition.
pub enum FunctionV {
    SoftwareDefined(BuiltinFn),
    AstDefined(AstNodeV, Seq<char>),
}

impl View for Function {
    type V = FunctionV;

    open spec fn view(&self) -> FunctionV {
        match self {
            Function::SoftwareDefined(b) => FunctionV::SoftwareDefined(*b),
            Function::AstDefined(ast, name) => FunctionV::AstDefined(ast@, name@),
        }
    }
}

/// The termination measure of a function definition: the size of the stored
/// body tree, or zero for a built-in.
pub open spec fn spec_func_size(f: Function) -> nat {
    match f {
        Function::SoftwareDefined(_) => 0,
        Function::AstDefined(ast, _) => node_size(ast@) + 1,
    }
}

/// What a built-in computation yields on a sanitized argument: the outside
/// computation's raw result, sanitized.
pub open spec fn spec_apply_builtin(b: BuiltinFn, n: Number) -> Result<Number, MathErrorV> {
    match b {
        BuiltinFn::Sin => spec_sanitize(num_of(cx_sin_of(n.re, n.im))),
        BuiltinFn::Cos => spec_sanitize(num_of(cx_cos_of(n.re, n.im))),
        BuiltinFn::Tan => spec_sanitize(num_of(cx_tan_of(n.re, n.im))),
        BuiltinFn::Csc => spec_sanitize(spec_inv_of_num(num_of(cx_sin_of(n.re, n.im)))),
        BuiltinFn::Sec => spec_sanitize(spec_inv_of_num(num_of(cx_cos_of(n.re, n.im)))),
        BuiltinFn::Cot => spec_sanitize(spec_inv_of_num(num_of(cx_tan_of(n.re, n.im)))),
        BuiltinFn::Arcsin => spec_sanitize(num_of(cx_asin_of(n.re, n.im))),
        BuiltinFn::Arccos => spec_sanitize(num_of(cx_acos_of(n.re, n.im))),
        BuiltinFn::Arctan => spec_sanitize(num_of(cx_atan_of(n.re, n.im))),
        BuiltinFn::Ln => spec_sanitize(num_of(cx_ln_of(n.re, n.im))),
        BuiltinFn::Abs => spec_sanitize(Number { re: cx_norm_of(n.re, n.im), im: 0 }),
        BuiltinFn::Sqrt => spec_sanitize(num_of(cx_sqrt_of(n.re, n.im))),
    }
}

/// The reciprocal of a number, by its named outside result.
pub open spec fn spec_inv_of_num(n: Number) -> Number {
    num_of(cx_inv_of(n.re, n.im))
}

fn apply_builtin(b: BuiltinFn, n: Number) -> (r: MathResult)
    ensures
        res_view(r) == spec_apply_builtin(b, n),
{
    match b {
        BuiltinFn::Sin => sanitize_result(cx_sin(n)),
        BuiltinFn::Cos => sanitize_result(cx_cos(n)),
        BuiltinFn::Tan => sanitize_result(cx_tan(n)),
        BuiltinFn::Csc => sanitize_result(cx_inv(cx_sin(n))),
        BuiltinFn::Sec => sanitize_result(cx_inv(cx_cos(n))),
        BuiltinFn::Cot => sanitize_result(cx_inv(cx_tan(n))),
        BuiltinFn::Arcsin => sanitize_result(cx_asin(n)),
        BuiltinFn::Arccos => sanitize_result(cx_acos(n)),
        BuiltinFn::Arctan => sanitize_result(cx_atan(n)),
        BuiltinFn::Ln => sanitize_result(cx_ln(n)),
        BuiltinFn::Abs => {
            let norm = cx_norm(n);
            sanitize_result(Number { re: norm, im: 0 })
        },
        BuiltinFn::Sqrt => sanitize_result(cx_sqrt(n)),
    }
}

/// What a function definition computes on an operand result: an operand
/// failure passes through; a built-in applies its computation; a
/// user-defined body is evaluated in a fresh environment that binds only the
/// formal parameter and carries no function table, so it sees neither the
/// caller's variables nor any function.
pub open spec fn spec_compute(f: FunctionV, operand: Result<Number, MathErrorV>) -> Result<
    Number,
    MathErrorV,
> {
    match operand {
        Err(e) => Err(e),
        Ok(v) => match f {
            FunctionV::SoftwareDefined(b) => spec_apply_builtin(b, v),
            FunctionV::AstDefined(body, param) => spec_ast_eval0(
                body,
                Map::empty().insert(param, v),
            ),
        },
    }
}

/// Law: a user-defined function sees its own parameter. A function whose
/// body is just its formal parameter returns the argument unchanged, for
/// every parameter name and every argument value.
pub proof fn lemma_function_parameter_bound(param: Seq<char>, v: Number)
    ensures
        spec_compute(
            FunctionV::AstDefined(spec_make_node(TokenV::Variable(param)), param),
            Ok(v),
        ) == Ok::<Number, MathErrorV>(v),
{
    let m = Map::<Seq<char>, Number>::empty().insert(param, v);
    assert(m.contains_key(param) && m[param] == v);
}

/// Law: user-defined function isolation. A function whose body names any
/// variable other than its formal parameter fails with `UndefinedVariable`
/// for that name when invoked, whatever the caller's environment binds: its
/// evaluation environment contains the parameter alone.
pub proof fn lemma_function_isolation(
    caller: crate::context::ContextV,
    fname: Seq<char>,
    param: Seq<char>,
    other: Seq<char>,
    v: Number,
    op: crate::operator::OperationV,
    d: nat,
)
    requires
        other != param,
        caller.funcs.contains_key(fname),
        caller.funcs[fname] == FunctionV::AstDefined(
            tree_node(
                TokenV::Operator { op, wrapping: d },
                spec_make_node(TokenV::Variable(param)),
                spec_make_node(TokenV::Variable(other)),
            ),
            param,
        ),
    ensures
        crate::context::spec_compute_function(caller, fname, Ok(v)) == Err::<Number, MathErrorV>(
            MathErrorV::UndefinedVariable(other),
        ),
{
    let m = Map::<Seq<char>, Number>::empty().insert(param, v);
    let body = tree_node(
        TokenV::Operator { op, wrapping: d },
        spec_make_node(TokenV::Variable(param)),
        spec_make_node(TokenV::Variable(other)),
    );
    assert(m.contains_key(param) && m[param] == v);
    assert(!m.contains_key(other));
    assert(eval0(spec_make_node(TokenV::Variable(param)), m) == Ok::<Number, MathErrorV>(v));
    assert(eval0(spec_make_node(TokenV::Variable(other)), m) == Err::<Number, MathErrorV>(
        MathErrorV::UndefinedVariable(other),
    ));
    assert(eval0(body, m) == Err::<Number, MathErrorV>(MathErrorV::UndefinedVariable(other)));
}

impl Function {
    /// Computes the function on an operand result. A user-defined function
    /// evaluates its stored tree in a fresh environment holding only its
    /// formal parameter: it cannot see the caller's variables and cannot
    /// call any function.
    pub fn compute(&self, operand: MathResult) -> (r: MathResult)
        ensures
            res_view(r) == spec_compute(self@, res_view(operand)),
        decreases 0nat, spec_func_size(*self), 2nat,
    {
        let v = match operand {
            Ok(v) => v,
            Err(e) => {
                return Err(e);
            },
        };
        match self {
            Function::SoftwareDefined(b) => apply_builtin(*b, v),
            Function::AstDefined(ast, var_name) => {
                let mut ctx = Context::new();
                ctx.assign_variable(var_name.clone(), v);
                let r = ast.evaluate(&ctx);
                proof {
                    assert(ctx@.vars =~= Map::<Seq<char>, Number>::empty().insert(var_name@, v));
                    crate::parse::lemma_ast_eval_empty_funcs(ast@, ctx@.vars);
                }
                r
            },
        }
    }

    /// The built-in function table: trigonometry, inverse trigonometry,
    /// natural logarithm, absolute value and square root, in insertion
    /// order.
    pub fn default_set() -> (r: Vec<(String, Function)>)
        ensures
            funcs_table_view(r@) == spec_default_functions(),
    {
        let mut v: Vec<(String, Function)> = Vec::new();
        proof {
            assert(funcs_table_view(v@) =~= Map::<Seq<char>, FunctionV>::empty());
        }
        push_builtin(&mut v, "sin", BuiltinFn::Sin);
        push_builtin(&mut v, "cos", BuiltinFn::Cos);
        push_builtin(&mut v, "tan", BuiltinFn::Tan);
        push_builtin(&mut v, "csc", BuiltinFn::Csc);
        push_builtin(&mut v, "sec", BuiltinFn::Sec);
        push_builtin(&mut v, "cot", BuiltinFn::Cot);
        push_builtin(&mut v, "arcsin", BuiltinFn::Arcsin);
        push_builtin(&mut v, "arccos", BuiltinFn::Arccos);
        push_builtin(&mut v, "arctan", BuiltinFn::Arctan);
        push_builtin(&mut v, "ln", BuiltinFn::Ln);
        push_builtin(&mut v, "abs", BuiltinFn::Abs);
        push_builtin(&mut v, "sqrt", BuiltinFn::Sqrt);
        v
    }
}

/// Appends one built-in binding to a function table.
fn push_builtin(v: &mut Vec<(String, Function)>, name: &str, b: BuiltinFn)
    ensures
        funcs_table_view(final(v)@) == funcs_table_view(old(v)@).insert(
            name@,
            FunctionV::SoftwareDefined(b),
        ),
{
    let ghost prev = v@;
    v.push((name.to_owned(), Function::SoftwareDefined(b)));
    proof {
        assert(v@.drop_last() =~= prev);
    }
}

/// The default function table as a map.
pub open spec fn spec_default_functions() -> Map<Seq<char>, FunctionV> {
    Map::empty().insert("sin"@, FunctionV::SoftwareDefined(BuiltinFn::Sin)).insert(
        "cos"@,
        FunctionV::SoftwareDefined(BuiltinFn::Cos),
    ).insert("tan"@, FunctionV::SoftwareDefined(BuiltinFn::Tan)).insert(
        "csc"@,
        FunctionV::SoftwareDefined(BuiltinFn::Csc),
    ).insert("sec"@, FunctionV::SoftwareDefined(BuiltinFn::Sec)).insert(
        "cot"@,
        FunctionV::SoftwareDefined(BuiltinFn::Cot),
    ).insert("arcsin"@, FunctionV::SoftwareDefined(BuiltinFn::Arcsin)).insert(
        "arccos"@,
        FunctionV::SoftwareDefined(BuiltinFn::Arccos),
    ).insert("arctan"@, FunctionV::SoftwareDefined(BuiltinFn::Arctan)).insert(
        "ln"@,
        FunctionV::SoftwareDefined(BuiltinFn::Ln),
    ).insert("abs"@, FunctionV::SoftwareDefined(BuiltinFn::Abs)).insert(
        "sqrt"@,
        FunctionV::SoftwareDefined(BuiltinFn::Sqrt),
    )
}

} // verus!
