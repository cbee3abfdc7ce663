use vstd::prelude::*;

use crate::number::Number;

verus! {

/// A variable binding's value.
#[derive(Clone, Copy, Debug, PartialEq, Eq, Structural)]
pub struct Variable(pub Number);

impl View for Variable {
    type V = Number;

    open spec fn view(&self) -> Number {
        self.0
    }
}

/// IEEE 754 binary64 bit pattern of the circle constant pi.
pub const PI_BITS: u64 = 0x4009_21fb_5444_2d18;

/// IEEE 754 binary64 bit pattern of Euler's number e.
pub const E_BITS: u64 = 0x4005_bf0a_8b14_5769;

/// IEEE 754 binary64 bit pattern of tau, twice pi.
pub const TAU_BITS: u64 = 0x4019_21fb_5444_2d18;

/// IEEE 754 binary64 bit pattern of 1.0.
pub const ONE_BITS: u64 = 0x3ff0_0000_0000_0000;

impl Variable {
    /// A variable from the bit patterns of the two components of its value.
    pub fn new(re: u64, im: u64) -> (r: Self)
        ensures
            r == Variable(Number { re, im }),
    {
        Variable(Number { re, im })
    }
}

/// The default variable bindings: `pi`, `e`, `tau` and the imaginary unit `i`.
pub open spec fn spec_default_variables() -> Map<Seq<char>, Number> {
    Map::empty().insert("pi"@, Number { re: PI_BITS, im: 0 }).insert(
        "e"@,
        Number { re: E_BITS, im: 0 },
    ).insert("tau"@, Number { re: TAU_BITS, im: 0 }).insert("i"@, Number { re: 0, im: ONE_BITS })
}

impl Variable {
    /// The default binding table: `pi`, `e`, `tau` and the imaginary unit
    /// `i`, in insertion order.
    pub fn default_set() -> (r: Vec<(String, Variable)>)
        ensures
            crate::context::vars_table_view(r@) == spec_default_variables(),
    {
        let mut v: Vec<(String, Variable)> = Vec::new();
        proof {
            assert(crate::context::vars_table_view(v@) =~= Map::<Seq<char>, Number>::empty());
        }
        push_binding(&mut v, "pi", Number { re: PI_BITS, im: 0 });
        push_binding(&mut v, "e", Number { re: E_BITS, im: 0 });
        push_binding(&mut v, "tau", Number { re: TAU_BITS, im: 0 });
        push_binding(&mut v, "i", Number { re: 0, im: ONE_BITS });
        v
    }
}

/// Appends one variable binding to a table.
fn push_binding(v: &mut Vec<(String, Variable)>, name: &str, value: Number)
    ensures
        crate::context::vars_table_view(final(v)@) == crate::context::vars_table_view(
            old(v)@,
        ).insert(name@, value),
{
    let ghost prev = v@;
    v.push((name.to_owned(), Variable(value)));
    proof {
        assert(v@.drop_last() =~= prev);
    }
}

} // verus!
