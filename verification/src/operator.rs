use vstd::prelude::*;
use vstd::string::StringExecFns;

use crate::error::{res_view, MathError, MathErrorV, MathResult};
use crate::number::{
    cx_add, cx_add_of, cx_div, cx_div_of, cx_mul, cx_mul_of, cx_neg, cx_neg_of, cx_powc,
    cx_powc_of, cx_sub, cx_sub_of, num_of, sanitize_result, spec_sanitize, Number,
};

verus! {

/// Which way operators of equal precedence at equal bracket depth group.
#[derive(Debug, Clone, Copy, PartialEq, Eq, Structural)]
pub enum Associativity {
    Left,
    Right,
}

/// The binary behavior an operator descriptor may carry.
#[derive(Debug, Clone, Copy, PartialEq, Eq, Structural)]
pub enum BinaryBehavior {
    Add,
    Subtract,
    Multiply,
    Divide,
    Power,
}

/// The unary behavior an operator descriptor may carry.
#[derive(Debug, Clone, Copy, PartialEq, Eq, Structural)]
pub enum UnaryBehavior {
    Negate,
}

/// An operator descriptor: display name, associativity, precedence, and the
/// optional binary and unary behaviors.
#[derive(Debug, PartialEq, Eq)]
pub struct Operation {
    pub name: String,
    pub associativity: Associativity,
    pub precedence: usize,
    pub binary: Option<BinaryBehavior>,
    pub unary: Option<UnaryBehavior>,
}

/// Mathematical model of an operator descriptor.
pub struct OperationV {
    pub name: Seq<char>,
    pub associativity: Associativity,
    pub precedence: nat,
    pub binary: Option<BinaryBehavior>,
    pub unary: Option<UnaryBehavior>,
}

impl View for Operation {
    type V = OperationV;

    open spec fn view(&self) -> OperationV {
        OperationV {
            name: self.name@,
            associativity: self.associativity,
            precedence: self.precedence as nat,
            binary: self.binary,
            unary: self.unary,
        }
    }
}

impl Clone for Operation {
    /// A copy equal in every field.
    fn clone(&self) -> (r: Self)
        ensures
            r == *self,
    {
        Operation {
            name: self.name.clone(),
            associativity: self.associativity,
            precedence: self.precedence,
            binary: self.binary,
            unary: self.unary,
        }
    }
}

/// The raw (unsanitized) result of a binary behavior on two numbers.
pub open spec fn spec_apply_binary(b: BinaryBehavior, x: Number, y: Number) -> Number {
    match b {
        BinaryBehavior::Add => num_of(cx_add_of(x.re, x.im, y.re, y.im)),
        BinaryBehavior::Subtract => num_of(cx_sub_of(x.re, x.im, y.re, y.im)),
        BinaryBehavior::Multiply => num_of(cx_mul_of(x.re, x.im, y.re, y.im)),
        BinaryBehavior::Divide => num_of(cx_div_of(x.re, x.im, y.re, y.im)),
        BinaryBehavior::Power => num_of(cx_powc_of(x.re, x.im, y.re, y.im)),
    }
}

/// The raw (unsanitized) result of a unary behavior on a number.
pub open spec fn spec_apply_unary(u: UnaryBehavior, x: Number) -> Number {
    match u {
        UnaryBehavior::Negate => num_of(cx_neg_of(x.re, x.im)),
    }
}

fn apply_binary(b: BinaryBehavior, x: Number, y: Number) -> (r: Number)
    ensures
        r == spec_apply_binary(b, x, y),
{
    match b {
        BinaryBehavior::Add => cx_add(x, y),
        BinaryBehavior::Subtract => cx_sub(x, y),
        BinaryBehavior::Multiply => cx_mul(x, y),
        BinaryBehavior::Divide => cx_div(x, y),
        BinaryBehavior::Power => cx_powc(x, y),
    }
}

fn apply_unary(u: UnaryBehavior, x: Number) -> (r: Number)
    ensures
        r == spec_apply_unary(u, x),
{
    match u {
        UnaryBehavior::Negate => cx_neg(x),
    }
}

/// What performing an operator binary position yields: the sanitized behavior
/// result, or `UndefinedOperation` where the descriptor has no binary behavior.
pub open spec fn spec_perform_binary(op: OperationV, a: Number, b: Number) -> Result<
    Number,
    MathErrorV,
> {
    match op.binary {
        Some(beh) => spec_sanitize(spec_apply_binary(beh, a, b)),
        None => Err(MathErrorV::UndefinedOperation("binary "@ + op.name)),
    }
}

/// What performing an operator unary position yields: the sanitized behavior
/// result, or `UndefinedOperation` where the descriptor has no unary behavior.
pub open spec fn spec_perform_unary(op: OperationV, x: Number) -> Result<Number, MathErrorV> {
    match op.unary {
        Some(beh) => spec_sanitize(spec_apply_unary(beh, x)),
        None => Err(MathErrorV::UndefinedOperation("unary "@ + op.name)),
    }
}

impl Operation {
    /// Applies the binary behavior to both operands and sanitizes the result;
    /// fails with `UndefinedOperation` where no binary behavior is defined.
    pub fn perform_binary(&self, a: Number, b: Number) -> (r: MathResult)
        ensures
            res_view(r) == spec_perform_binary(self@, a, b),
    {
        match self.binary {
            Some(beh) => sanitize_result(apply_binary(beh, a, b)),
            None => Err(
                MathError::UndefinedOperation(("binary ").to_owned().concat(self.name.as_str())),
            ),
        }
    }

    /// Applies the unary behavior to the operand and sanitizes the result;
    /// fails with `UndefinedOperation` where no unary behavior is defined.
    pub fn perform_unary(&self, num: Number) -> (r: MathResult)
        ensures
            res_view(r) == spec_perform_unary(self@, num),
    {
        match self.unary {
            Some(beh) => sanitize_result(apply_unary(beh, num)),
            None => Err(
                MathError::UndefinedOperation(("unary ").to_owned().concat(self.name.as_str())),
            ),
        }
    }
}

/// The catalog supplied to the token resolver: a table from symbol characters
/// to operator descriptors, and the implicit operator inserted between two
/// juxtaposed value-producing tokens. The table is kept in insertion order;
/// a later entry for the same symbol overrides an earlier one.
pub struct OperatorSet {
    set: Vec<(char, Operation)>,
    implicit: Operation,
}

/// Mathematical model of the catalog: a map from symbol to descriptor, and
/// the implicit descriptor.
pub struct OperatorSetV {
    pub set: Map<char, OperationV>,
    pub implicit: OperationV,
}

/// The map that a table of entries denotes: each entry inserted in order, a
/// later entry for the same symbol overriding an earlier one.
pub open spec fn table_view(entries: Seq<(char, Operation)>) -> Map<char, OperationV>
    decreases entries.len(),
{
    if entries.len() == 0 {
        Map::empty()
    } else {
        table_view(entries.drop_last()).insert(entries.last().0, entries.last().1@)
    }
}

/// The last entry of the table for a symbol, scanning from the back.
pub open spec fn lookup_last(entries: Seq<(char, Operation)>, symbol: char) -> Option<Operation>
    decreases entries.len(),
{
    if entries.len() == 0 {
        None
    } else if entries.last().0 == symbol {
        Some(entries.last().1)
    } else {
        lookup_last(entries.drop_last(), symbol)
    }
}

/// The table denotes exactly the last binding of each symbol.
pub proof fn lemma_table_view_is_lookup_last(entries: Seq<(char, Operation)>, symbol: char)
    ensures
        table_view(entries).contains_key(symbol) <==> lookup_last(entries, symbol) is Some,
        lookup_last(entries, symbol) matches Some(op) ==> table_view(entries)[symbol] == op@,
    decreases entries.len(),
{
    if entries.len() > 0 {
        lemma_table_view_is_lookup_last(entries.drop_last(), symbol);
    }
}

impl View for OperatorSet {
    type V = OperatorSetV;

    closed spec fn view(&self) -> OperatorSetV {
        OperatorSetV { set: table_view(self.set@), implicit: self.implicit@ }
    }
}

impl OperatorSet {
    /// A catalog from a table of symbol bindings and an implicit operator.
    pub fn new(operators: Vec<(char, Operation)>, implicit: Operation) -> (r: Self)
        ensures
            r@.set == table_view(operators@),
            r@.implicit == implicit@,
    {
        Self { set: operators, implicit }
    }

    /// Looks a symbol up in the table; the latest binding wins.
    pub fn get(&self, symbol: &char) -> (r: Option<&Operation>)
        ensures
            match r {
                Some(op) => self@.set.contains_key(*symbol) && op@ == self@.set[*symbol],
                None => !self@.set.contains_key(*symbol),
            },
    {
        let mut i: usize = self.set.len();
        proof {
            assert(self.set@.take(i as int) =~= self.set@);
        }
        while i > 0
            invariant
                i <= self.set@.len(),
                lookup_last(self.set@, *symbol) == lookup_last(self.set@.take(i as int), *symbol),
            decreases i,
        {
            i = i - 1;
            proof {
                assert(self.set@.take(i as int + 1).drop_last() =~= self.set@.take(i as int));
                assert(self.set@.take(i as int + 1).last() == self.set@[i as int]);
            }
            if self.set[i].0 == *symbol {
                proof {
                    lemma_table_view_is_lookup_last(self.set@, *symbol);
                }
                return Some(&self.set[i].1);
            }
        }
        proof {
            assert(self.set@.take(0) =~= Seq::<(char, Operation)>::empty());
            lemma_table_view_is_lookup_last(self.set@, *symbol);
        }
        None
    }

    /// The operator inserted where two value-producing tokens are juxtaposed
    /// with no explicit symbol between them.
    pub fn implicit(&self) -> (r: &Operation)
        ensures
            r@ == self@.implicit,
    {
        &self.implicit
    }
}

/// The default `+ - * / ^` descriptor for `+`.
pub open spec fn spec_op_add() -> OperationV {
    OperationV {
        name: "addition"@,
        associativity: Associativity::Left,
        precedence: 0,
        binary: Some(BinaryBehavior::Add),
        unary: None,
    }
}

/// The default descriptor for `-`; it also negates when used unary.
pub open spec fn spec_op_sub() -> OperationV {
    OperationV {
        name: "subtraction"@,
        associativity: Associativity::Left,
        precedence: 0,
        binary: Some(BinaryBehavior::Subtract),
        unary: Some(UnaryBehavior::Negate),
    }
}

/// The default descriptor for `*`, also the default implicit operator.
pub open spec fn spec_op_mult() -> OperationV {
    OperationV {
        name: "multiplication"@,
        associativity: Associativity::Left,
        precedence: 1,
        binary: Some(BinaryBehavior::Multiply),
        unary: None,
    }
}

/// The default descriptor for `/`.
pub open spec fn spec_op_div() -> OperationV {
    OperationV {
        name: "division"@,
        associativity: Associativity::Left,
        precedence: 1,
        binary: Some(BinaryBehavior::Divide),
        unary: None,
    }
}

/// The default descriptor for `^`: right-associative, highest precedence.
pub open spec fn spec_op_exp() -> OperationV {
    OperationV {
        name: "exponentiation"@,
        associativity: Associativity::Right,
        precedence: 2,
        binary: Some(BinaryBehavior::Power),
        unary: None,
    }
}

/// The default `+` descriptor: precedence 0, left-associative addition.
pub fn op_add() -> (r: Operation)
    ensures
        r@ == spec_op_add(),
{
    Operation {
        name: ("addition").to_owned(),
        associativity: Associativity::Left,
        precedence: 0,
        binary: Some(BinaryBehavior::Add),
        unary: None,
    }
}

/// The default `-` descriptor: precedence 0, left-associative subtraction
/// with unary negation.
pub fn op_sub() -> (r: Operation)
    ensures
        r@ == spec_op_sub(),
{
    Operation {
        name: ("subtraction").to_owned(),
        associativity: Associativity::Left,
        precedence: 0,
        binary: Some(BinaryBehavior::Subtract),
        unary: Some(UnaryBehavior::Negate),
    }
}

/// The default `*` descriptor: precedence 1, left-associative multiplication.
pub fn op_mult() -> (r: Operation)
    ensures
        r@ == spec_op_mult(),
{
    Operation {
        name: ("multiplication").to_owned(),
        associativity: Associativity::Left,
        precedence: 1,
        binary: Some(BinaryBehavior::Multiply),
        unary: None,
    }
}

/// The default `/` descriptor: precedence 1, left-associative division.
pub fn op_div() -> (r: Operation)
    ensures
        r@ == spec_op_div(),
{
    Operation {
        name: ("division").to_owned(),
        associativity: Associativity::Left,
        precedence: 1,
        binary: Some(BinaryBehavior::Divide),
        unary: None,
    }
}

/// The default `^` descriptor: precedence 2, right-associative power.
pub fn op_exp() -> (r: Operation)
    ensures
        r@ == spec_op_exp(),
{
    Operation {
        name: ("exponentiation").to_owned(),
        associativity: Associativity::Right,
        precedence: 2,
        binary: Some(BinaryBehavior::Power),
        unary: None,
    }
}

/// The default catalog: `+ - * / ^` with conventional precedence and
/// associativity, and multiplication as the implicit operator.
pub open spec fn spec_default_operator_set() -> OperatorSetV {
    OperatorSetV {
        set: map![
            '+' => spec_op_add(),
            '-' => spec_op_sub(),
            '*' => spec_op_mult(),
            '/' => spec_op_div(),
            '^' => spec_op_exp(),
        ],
        implicit: spec_op_mult(),
    }
}

impl Default for OperatorSet {
    /// The default catalog of `+ - * / ^`, with `*` implicit.
    fn default() -> (r: Self)
        ensures
            r@ == spec_default_operator_set(),
    {
        let table = vec![
            ('+', op_add()),
            ('-', op_sub()),
            ('*', op_mult()),
            ('/', op_div()),
            ('^', op_exp()),
        ];
        let r = Self::new(table, op_mult());
        proof {
            reveal_with_fuel(table_view, 6);
            assert(r@.set =~= spec_default_operator_set().set);
        }
        r
    }
}

} // verus!
