use vstd::prelude::*;

use crate::error::{res_view, MathError, MathErrorV, MathResult};
use crate::functions::{spec_compute, Function, FunctionV};
use crate::number::Number;
use crate::variables::Variable;

verus! {

/// The map that a variable binding table denotes: each entry inserted in
/// order, a later entry for the same name overriding an earlier one.
pub open spec fn vars_table_view(entries: Seq<(String, Variable)>) -> Map<Seq<char>, Number>
    decreases entries.len(),
{
    if entries.len() == 0 {
        Map::empty()
    } else {
        vars_table_view(entries.drop_last()).insert(entries.last().0@, entries.last().1@)
    }
}

/// The map that a function definition table denotes.
pub open spec fn funcs_table_view(entries: Seq<(String, Function)>) -> Map<Seq<char>, FunctionV>
    decreases entries.len(),
{
    if entries.len() == 0 {
        Map::empty()
    } else {
        funcs_table_view(entries.drop_last()).insert(entries.last().0@, entries.last().1@)
    }
}

/// The last variable entry for a name, scanning from the back.
pub open spec fn vars_lookup_last(entries: Seq<(String, Variable)>, name: Seq<char>) -> Option<
    Variable,
>
    decreases entries.len(),
{
    if entries.len() == 0 {
        None
    } else if entries.last().0@ == name {
        Some(entries.last().1)
    } else {
        vars_lookup_last(entries.drop_last(), name)
    }
}

/// The index of the last function entry for a name, scanning from the back.
pub open spec fn funcs_lookup_last(entries: Seq<(String, Function)>, name: Seq<char>) -> Option<
    int,
>
    decreases entries.len(),
{
    if entries.len() == 0 {
        None
    } else if entries.last().0@ == name {
        Some(entries.len() - 1)
    } else {
        funcs_lookup_last(entries.drop_last(), name)
    }
}

/// The variable table denotes exactly the last binding of each name.
pub proof fn lemma_vars_table_view_is_lookup_last(
    entries: Seq<(String, Variable)>,
    name: Seq<char>,
)
    ensures
        vars_table_view(entries).contains_key(name) <==> vars_lookup_last(entries, name) is Some,
        vars_lookup_last(entries, name) matches Some(v) ==> vars_table_view(entries)[name] == v@,
    decreases entries.len(),
{
    if entries.len() > 0 {
        lemma_vars_table_view_is_lookup_last(entries.drop_last(), name);
    }
}

/// The function table denotes exactly the last binding of each name.
pub proof fn lemma_funcs_table_view_is_lookup_last(
    entries: Seq<(String, Function)>,
    name: Seq<char>,
)
    ensures
        funcs_table_view(entries).contains_key(name) <==> funcs_lookup_last(entries, name)
            is Some,
        funcs_lookup_last(entries, name) matches Some(i) ==> 0 <= i < entries.len()
            && entries[i].0@ == name && funcs_table_view(entries)[name] == entries[i].1@,
    decreases entries.len(),
{
    if entries.len() > 0 {
        lemma_funcs_table_view_is_lookup_last(entries.drop_last(), name);
    }
}

/// The evaluation environment: variable bindings and function definitions,
/// consulted during evaluation. Both tables are kept in insertion order; a
/// later entry for a name overrides an earlier one.
#[derive(Debug)]
pub struct Context {
    vars: Vec<(String, Variable)>,
    funcs: Vec<(String, Function)>,
}

/// Mathematical model of an environment: a map of variable values and a map
/// of function definitions.
#[verifier::ext_equal]
pub struct ContextV {
    pub vars: Map<Seq<char>, Number>,
    pub funcs: Map<Seq<char>, FunctionV>,
}

impl View for Context {
    type V = ContextV;

    closed spec fn view(&self) -> ContextV {
        ContextV { vars: vars_table_view(self.vars@), funcs: funcs_table_view(self.funcs@) }
    }
}

/// What dispatching a function call through an environment yields:
/// `UndefinedFunction` where the name is not bound, the definition's own
/// computation on the operand where it is.
pub open spec fn spec_compute_function(
    c: ContextV,
    name: Seq<char>,
    operand: Result<Number, MathErrorV>,
) -> Result<Number, MathErrorV> {
    if c.funcs.contains_key(name) {
        spec_compute(c.funcs[name], operand)
    } else {
        Err(MathErrorV::UndefinedFunction(name))
    }
}

impl Context {
    /// The number of entries of the function table; the termination measure
    /// of evaluation, which dispatches user-defined functions in a fresh
    /// environment with an empty function table.
    pub closed spec fn spec_funcs_len(&self) -> nat {
        self.funcs@.len()
    }

    /// An empty environment: no variables, no functions.
    pub fn new() -> (r: Self)
        ensures
            r@.vars == Map::<Seq<char>, Number>::empty(),
            r@.funcs == Map::<Seq<char>, FunctionV>::empty(),
            r.spec_funcs_len() == 0,
    {
        Self { vars: Vec::new(), funcs: Vec::new() }
    }

    /// An environment from a variable table and a function table; a later
    /// entry for a name overrides an earlier one.
    pub fn with(variables: Vec<(String, Variable)>, functions: Vec<(String, Function)>) -> (r:
        Self)
        ensures
            r@.vars == vars_table_view(variables@),
            r@.funcs == funcs_table_view(functions@),
    {
        Self { vars: variables, funcs: functions }
    }

    /// Binds a variable, overriding any earlier binding of the name.
    pub fn assign_variable(&mut self, name: String, value: Number)
        ensures
            final(self)@.vars == old(self)@.vars.insert(name@, value),
            final(self)@.funcs == old(self)@.funcs,
            final(self).spec_funcs_len() == old(self).spec_funcs_len(),
    {
        let ghost prev = self.vars@;
        self.vars.push((name, Variable(value)));
        proof {
            assert(self.vars@.drop_last() =~= prev);
        }
    }

    /// Reads a variable's value; fails with `UndefinedVariable` where the
    /// name is not bound.
    pub fn read_variable(&self, name: String) -> (r: MathResult)
        ensures
            res_view(r) == (if self@.vars.contains_key(name@) {
                Ok::<Number, MathErrorV>(self@.vars[name@])
            } else {
                Err::<Number, MathErrorV>(MathErrorV::UndefinedVariable(name@))
            }),
    {
        let mut i: usize = self.vars.len();
        proof {
            assert(self.vars@.take(i as int) =~= self.vars@);
        }
        while i > 0
            invariant
                i <= self.vars@.len(),
                vars_lookup_last(self.vars@, name@) == vars_lookup_last(
                    self.vars@.take(i as int),
                    name@,
                ),
            decreases i,
        {
            i = i - 1;
            proof {
                assert(self.vars@.take(i as int + 1).drop_last() =~= self.vars@.take(i as int));
                assert(self.vars@.take(i as int + 1).last() == self.vars@[i as int]);
            }
            if self.vars[i].0 == name {
                proof {
                    lemma_vars_table_view_is_lookup_last(self.vars@, name@);
                }
                return Ok(self.vars[i].1.0);
            }
        }
        proof {
            assert(self.vars@.take(0) =~= Seq::<(String, Variable)>::empty());
            lemma_vars_table_view_is_lookup_last(self.vars@, name@);
        }
        Err(MathError::UndefinedVariable(name))
    }

    /// Binds a function definition, overriding any earlier binding of the
    /// name.
    pub fn assign_function(&mut self, name: String, function: Function)
        ensures
            final(self)@.funcs == old(self)@.funcs.insert(name@, function@),
            final(self)@.vars == old(self)@.vars,
    {
        let ghost prev = self.funcs@;
        self.funcs.push((name, function));
        proof {
            assert(self.funcs@.drop_last() =~= prev);
        }
    }

    /// Dispatches a function call: looks the name up and hands the operand
    /// result to the definition's computation; fails with
    /// `UndefinedFunction` where the name is not bound.
    pub fn compute_function(&self, name: String, operand: MathResult) -> (r: MathResult)
        ensures
            res_view(r) == spec_compute_function(self@, name@, res_view(operand)),
        decreases self.spec_funcs_len(), 0nat, 2nat,
    {
        let mut i: usize = self.funcs.len();
        proof {
            assert(self.funcs@.take(i as int) =~= self.funcs@);
        }
        while i > 0
            invariant
                i <= self.funcs@.len(),
                funcs_lookup_last(self.funcs@, name@) == funcs_lookup_last(
                    self.funcs@.take(i as int),
                    name@,
                ),
            decreases i,
        {
            i = i - 1;
            proof {
                assert(self.funcs@.take(i as int + 1).drop_last() =~= self.funcs@.take(i as int));
                assert(self.funcs@.take(i as int + 1).last() == self.funcs@[i as int]);
            }
            if self.funcs[i].0 == name {
                proof {
                    lemma_funcs_table_view_is_lookup_last(self.funcs@, name@);
                }
                return self.funcs[i].1.compute(operand);
            }
        }
        proof {
            assert(self.funcs@.take(0) =~= Seq::<(String, Function)>::empty());
            lemma_funcs_table_view_is_lookup_last(self.funcs@, name@);
        }
        Err(MathError::UndefinedFunction(name))
    }
}

impl Default for Context {
    /// The default environment: the default variables and the built-in
    /// function table.
    fn default() -> (r: Self)
        ensures
            r@.vars == crate::variables::spec_default_variables(),
            r@.funcs == crate::functions::spec_default_functions(),
    {
        Self::with(Variable::default_set(), Function::default_set())
    }
}

} // verus!
