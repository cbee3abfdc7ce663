use vstd::prelude::*;

use core::cmp::Ordering;

use crate::context::{spec_compute_function, Context, ContextV};
use crate::error::{res_view, MathError, MathErrorV, MathResult};
use crate::number::Number;
use crate::operator::{spec_perform_binary, spec_perform_unary, Associativity, OperationV};
use crate::token::{spec_is_numeric, tokens_view, Token, TokenV};

verus! {

/// One position of the expression tree: either explicitly empty (a child
/// slot not yet filled) or a node holding one token and two child slots.
/// A node is a leaf exactly when both children are empty.
#[derive(Debug)]
pub enum AstNode {
    Node { token: Token, left: Box<AstNode>, right: Box<AstNode> },
    Empty,
}

/// Mathematical model of a tree position.
pub enum AstNodeV {
    Node { token: TokenV, left: Box<AstNodeV>, right: Box<AstNodeV> },
    Empty,
}

/// The model of a tree position: the same shape with each token taken to its
/// view.
pub open spec fn node_view(n: AstNode) -> AstNodeV
    decreases n,
{
    match n {
        AstNode::Node { token, left, right } => AstNodeV::Node {
            token: token@,
            left: Box::new(node_view(*left)),
            right: Box::new(node_view(*right)),
        },
        AstNode::Empty => AstNodeV::Empty,
    }
}

impl View for AstNode {
    type V = AstNodeV;

    open spec fn view(&self) -> AstNodeV {
        node_view(*self)
    }
}

/// The number of nodes of a tree.
pub open spec fn node_size(n: AstNodeV) -> nat
    decreases n,
{
    match n {
        AstNodeV::Node { token, left, right } => 1 + node_size(*left) + node_size(*right),
        AstNodeV::Empty => 0,
    }
}

/// The binding key of a tree position, compared lexicographically: bracket
/// depth first, then operator precedence. Operators carry the depth of their
/// occurrence; a function binds at depth zero with maximal precedence; a
/// leaf (constant or variable) or an empty slot takes the maximal key, so an
/// operator inserted after it always claims it.
pub open spec fn node_key(n: AstNodeV) -> (nat, nat) {
    match n {
        AstNodeV::Node { token: TokenV::Operator { op, wrapping }, .. } => (
            wrapping,
            op.precedence,
        ),
        AstNodeV::Node { token: TokenV::Function(_), .. } => (0, usize::MAX as nat),
        _ => (usize::MAX as nat, usize::MAX as nat),
    }
}

/// How a new node compares against the position it is inserted at: `Less`
/// swims (the new node takes the position, adopting the subtree there as its
/// left child), anything else sinks (the insertion descends into the right
/// child). A key tie is broken by the new node's associativity: left
/// associativity swims, right associativity sinks.
pub open spec fn spec_compare(new: AstNodeV, cur: AstNodeV) -> Ordering {
    let kn = node_key(new);
    let kc = node_key(cur);
    if kn.0 < kc.0 || (kn.0 == kc.0 && kn.1 < kc.1) {
        Ordering::Less
    } else if kn == kc {
        match new {
            AstNodeV::Node { token: TokenV::Operator { op, .. }, .. } => {
                if op.associativity == Associativity::Left {
                    Ordering::Less
                } else {
                    Ordering::Greater
                }
            },
            _ => Ordering::Equal,
        }
    } else {
        Ordering::Greater
    }
}

/// The new node placed above a subtree: it adopts the subtree as its left
/// child and its right child becomes empty. (An empty new node stays empty;
/// insertion never reaches this case with one.)
pub open spec fn spec_swim(new: AstNodeV, cur: AstNodeV) -> AstNodeV {
    match new {
        AstNodeV::Node { token, .. } => AstNodeV::Node {
            token,
            left: Box::new(cur),
            right: Box::new(AstNodeV::Empty),
        },
        AstNodeV::Empty => AstNodeV::Empty,
    }
}

/// One insertion into the tree: an empty position is filled by the new node
/// as it stands; otherwise the new node swims above the position where it
/// compares `Less`, and sinks into the right child where it compares
/// `Equal` or `Greater`.
pub open spec fn spec_insert(cur: AstNodeV, new: AstNodeV) -> AstNodeV
    decreases cur,
{
    match cur {
        AstNodeV::Empty => new,
        AstNodeV::Node { token, left, right } => {
            if spec_compare(new, cur) == Ordering::Less {
                spec_swim(new, cur)
            } else {
                AstNodeV::Node { token, left, right: Box::new(spec_insert(*right, new)) }
            }
        },
    }
}

/// What `Ast::push` does: an empty node is ignored, any other is inserted.
pub open spec fn spec_push(root: AstNodeV, new: AstNodeV) -> AstNodeV {
    if new is Empty {
        root
    } else {
        spec_insert(root, new)
    }
}

/// A fresh leaf node for one token.
pub open spec fn spec_make_node(t: TokenV) -> AstNodeV {
    AstNodeV::Node { token: t, left: Box::new(AstNodeV::Empty), right: Box::new(AstNodeV::Empty) }
}

/// The tree built from the first `i` tokens, each pushed in order.
pub open spec fn spec_build_upto(ts: Seq<TokenV>, i: int) -> AstNodeV
    decreases i,
{
    if i <= 0 {
        AstNodeV::Empty
    } else {
        spec_push(spec_build_upto(ts, i - 1), spec_make_node(ts[i - 1]))
    }
}

/// The tree built from a whole token sequence.
pub open spec fn spec_build(ts: Seq<TokenV>) -> AstNodeV {
    spec_build_upto(ts, ts.len() as int)
}

/// A node from a token and two subtrees, for writing trees out in laws.
pub open spec fn tree_node(t: TokenV, l: AstNodeV, r: AstNodeV) -> AstNodeV {
    AstNodeV::Node { token: t, left: Box::new(l), right: Box::new(r) }
}

/// Law: within one bracket depth, a higher-precedence operator binds
/// tighter. Building `a op1 b op2 c` where `op2` has the higher precedence
/// groups the right pair first: the tree is `op1(a, op2(b, c))`.
pub proof fn lemma_precedence_groups_tighter(
    a: TokenV,
    b: TokenV,
    c: TokenV,
    op1: OperationV,
    op2: OperationV,
    d: nat,
)
    requires
        spec_is_numeric(a),
        spec_is_numeric(b),
        spec_is_numeric(c),
        d < usize::MAX as nat,
        op1.precedence < op2.precedence,
    ensures
        spec_build(
            seq![
                a,
                TokenV::Operator { op: op1, wrapping: d },
                b,
                TokenV::Operator { op: op2, wrapping: d },
                c,
            ],
        ) == tree_node(
            TokenV::Operator { op: op1, wrapping: d },
            spec_make_node(a),
            tree_node(
                TokenV::Operator { op: op2, wrapping: d },
                spec_make_node(b),
                spec_make_node(c),
            ),
        ),
{
    let t1 = TokenV::Operator { op: op1, wrapping: d };
    let t2 = TokenV::Operator { op: op2, wrapping: d };
    let ts = seq![a, t1, b, t2, c];
    let s1 = spec_make_node(a);
    let s2 = tree_node(t1, s1, AstNodeV::Empty);
    let s3 = tree_node(t1, s1, spec_make_node(b));
    let s4 = tree_node(t1, s1, tree_node(t2, spec_make_node(b), AstNodeV::Empty));
    assert(spec_build_upto(ts, 0) == AstNodeV::Empty);
    assert(spec_build_upto(ts, 1) == s1);
    assert(spec_insert(s1, spec_make_node(t1)) == s2);
    assert(spec_build_upto(ts, 2) == s2);
    assert(spec_insert(AstNodeV::Empty, spec_make_node(b)) == spec_make_node(b));
    assert(spec_insert(s2, spec_make_node(b)) == s3);
    assert(spec_build_upto(ts, 3) == s3);
    assert(spec_insert(spec_make_node(b), spec_make_node(t2)) == tree_node(
        t2,
        spec_make_node(b),
        AstNodeV::Empty,
    ));
    assert(spec_insert(s3, spec_make_node(t2)) == s4);
    assert(spec_build_upto(ts, 4) == s4);
    assert(spec_insert(AstNodeV::Empty, spec_make_node(c)) == spec_make_node(c));
    assert(spec_insert(tree_node(t2, spec_make_node(b), AstNodeV::Empty), spec_make_node(c))
        == tree_node(t2, spec_make_node(b), spec_make_node(c)));
    assert(spec_build_upto(ts, 5) == spec_insert(s4, spec_make_node(c)));
}

/// Law: operators of equal precedence at equal depth group to the left when
/// the later one is left-associative. Building `a op1 b op2 c` yields
/// `op2(op1(a, b), c)`.
pub proof fn lemma_left_associative_groups_left(
    a: TokenV,
    b: TokenV,
    c: TokenV,
    op1: OperationV,
    op2: OperationV,
    d: nat,
)
    requires
        spec_is_numeric(a),
        spec_is_numeric(b),
        spec_is_numeric(c),
        d < usize::MAX as nat,
        op1.precedence == op2.precedence,
        op2.associativity == Associativity::Left,
    ensures
        spec_build(
            seq![
                a,
                TokenV::Operator { op: op1, wrapping: d },
                b,
                TokenV::Operator { op: op2, wrapping: d },
                c,
            ],
        ) == tree_node(
            TokenV::Operator { op: op2, wrapping: d },
            tree_node(
                TokenV::Operator { op: op1, wrapping: d },
                spec_make_node(a),
                spec_make_node(b),
            ),
            spec_make_node(c),
        ),
{
    let t1 = TokenV::Operator { op: op1, wrapping: d };
    let t2 = TokenV::Operator { op: op2, wrapping: d };
    let ts = seq![a, t1, b, t2, c];
    let s1 = spec_make_node(a);
    let s2 = tree_node(t1, s1, AstNodeV::Empty);
    let s3 = tree_node(t1, s1, spec_make_node(b));
    let s4 = tree_node(t2, s3, AstNodeV::Empty);
    assert(spec_build_upto(ts, 0) == AstNodeV::Empty);
    assert(spec_build_upto(ts, 1) == s1);
    assert(spec_insert(s1, spec_make_node(t1)) == s2);
    assert(spec_build_upto(ts, 2) == s2);
    assert(spec_insert(AstNodeV::Empty, spec_make_node(b)) == spec_make_node(b));
    assert(spec_insert(s2, spec_make_node(b)) == s3);
    assert(spec_build_upto(ts, 3) == s3);
    assert(spec_insert(s3, spec_make_node(t2)) == s4);
    assert(spec_build_upto(ts, 4) == s4);
    assert(spec_insert(AstNodeV::Empty, spec_make_node(c)) == spec_make_node(c));
    assert(spec_insert(s4, spec_make_node(c)) == tree_node(t2, s3, spec_make_node(c)));
    assert(spec_build_upto(ts, 5) == tree_node(t2, s3, spec_make_node(c)));
}

/// Law: operators of equal precedence at equal depth group to the right when
/// the later one is right-associative. Building `a op1 b op2 c` yields
/// `op1(a, op2(b, c))`, so `a^b^c` parses as `a^(b^c)`.
pub proof fn lemma_right_associative_groups_right(
    a: TokenV,
    b: TokenV,
    c: TokenV,
    op1: OperationV,
    op2: OperationV,
    d: nat,
)
    requires
        spec_is_numeric(a),
        spec_is_numeric(b),
        spec_is_numeric(c),
        d < usize::MAX as nat,
        op1.precedence == op2.precedence,
        op2.associativity == Associativity::Right,
    ensures
        spec_build(
            seq![
                a,
                TokenV::Operator { op: op1, wrapping: d },
                b,
                TokenV::Operator { op: op2, wrapping: d },
                c,
            ],
        ) == tree_node(
            TokenV::Operator { op: op1, wrapping: d },
            spec_make_node(a),
            tree_node(
                TokenV::Operator { op: op2, wrapping: d },
                spec_make_node(b),
                spec_make_node(c),
            ),
        ),
{
    let t1 = TokenV::Operator { op: op1, wrapping: d };
    let t2 = TokenV::Operator { op: op2, wrapping: d };
    let ts = seq![a, t1, b, t2, c];
    let s1 = spec_make_node(a);
    let s2 = tree_node(t1, s1, AstNodeV::Empty);
    let s3 = tree_node(t1, s1, spec_make_node(b));
    let s4 = tree_node(t1, s1, tree_node(t2, spec_make_node(b), AstNodeV::Empty));
    assert(spec_build_upto(ts, 0) == AstNodeV::Empty);
    assert(spec_build_upto(ts, 1) == s1);
    assert(spec_insert(s1, spec_make_node(t1)) == s2);
    assert(spec_build_upto(ts, 2) == s2);
    assert(spec_insert(AstNodeV::Empty, spec_make_node(b)) == spec_make_node(b));
    assert(spec_insert(s2, spec_make_node(b)) == s3);
    assert(spec_build_upto(ts, 3) == s3);
    assert(spec_insert(spec_make_node(b), spec_make_node(t2)) == tree_node(
        t2,
        spec_make_node(b),
        AstNodeV::Empty,
    ));
    assert(spec_insert(s3, spec_make_node(t2)) == s4);
    assert(spec_build_upto(ts, 4) == s4);
    assert(spec_insert(AstNodeV::Empty, spec_make_node(c)) == spec_make_node(c));
    assert(spec_insert(tree_node(t2, spec_make_node(b), AstNodeV::Empty), spec_make_node(c))
        == tree_node(t2, spec_make_node(b), spec_make_node(c)));
    assert(spec_build_upto(ts, 5) == spec_insert(s4, spec_make_node(c)));
}

/// Law: a deeper-bracketed operator binds as a unit regardless of
/// precedence. Building `a op1 b op2 c` where `op1` occurred at a strictly
/// greater bracket depth than `op2` yields `op2(op1(a, b), c)`.
pub proof fn lemma_deeper_bracket_binds_first(
    a: TokenV,
    b: TokenV,
    c: TokenV,
    op1: OperationV,
    op2: OperationV,
    d1: nat,
    d2: nat,
)
    requires
        spec_is_numeric(a),
        spec_is_numeric(b),
        spec_is_numeric(c),
        d1 < usize::MAX as nat,
        d2 < d1,
    ensures
        spec_build(
            seq![
                a,
                TokenV::Operator { op: op1, wrapping: d1 },
                b,
                TokenV::Operator { op: op2, wrapping: d2 },
                c,
            ],
        ) == tree_node(
            TokenV::Operator { op: op2, wrapping: d2 },
            tree_node(
                TokenV::Operator { op: op1, wrapping: d1 },
                spec_make_node(a),
                spec_make_node(b),
            ),
            spec_make_node(c),
        ),
{
    let t1 = TokenV::Operator { op: op1, wrapping: d1 };
    let t2 = TokenV::Operator { op: op2, wrapping: d2 };
    let ts = seq![a, t1, b, t2, c];
    let s1 = spec_make_node(a);
    let s2 = tree_node(t1, s1, AstNodeV::Empty);
    let s3 = tree_node(t1, s1, spec_make_node(b));
    let s4 = tree_node(t2, s3, AstNodeV::Empty);
    assert(spec_build_upto(ts, 0) == AstNodeV::Empty);
    assert(spec_build_upto(ts, 1) == s1);
    assert(spec_insert(s1, spec_make_node(t1)) == s2);
    assert(spec_build_upto(ts, 2) == s2);
    assert(spec_insert(AstNodeV::Empty, spec_make_node(b)) == spec_make_node(b));
    assert(spec_insert(s2, spec_make_node(b)) == s3);
    assert(spec_build_upto(ts, 3) == s3);
    assert(spec_insert(s3, spec_make_node(t2)) == s4);
    assert(spec_build_upto(ts, 4) == s4);
    assert(spec_insert(AstNodeV::Empty, spec_make_node(c)) == spec_make_node(c));
    assert(spec_insert(s4, spec_make_node(c)) == tree_node(t2, s3, spec_make_node(c)));
    assert(spec_build_upto(ts, 5) == tree_node(t2, s3, spec_make_node(c)));
}

impl AstNode {
    /// A fresh leaf node for one token.
    pub fn new(token: Token) -> (r: Self)
        ensures
            r@ == spec_make_node(token@),
    {
        let r = Self::Node {
            token,
            left: Box::new(AstNode::Empty),
            right: Box::new(AstNode::Empty),
        };
        proof {
            assert(node_view(AstNode::Empty) == AstNodeV::Empty);
        }
        r
    }

    /// The two child slots, or `None` at an empty position.
    pub fn children(&self) -> (r: Option<(&Box<AstNode>, &Box<AstNode>)>)
        ensures
            match r {
                Some(p) => self@ == (AstNodeV::Node {
                    token: self.spec_token(),
                    left: Box::new(p.0@),
                    right: Box::new(p.1@),
                }),
                None => self@ is Empty,
            },
    {
        match self {
            Self::Node { ref left, ref right, .. } => Some((left, right)),
            Self::Empty => None,
        }
    }

    /// The token at a non-empty position; arbitrary at an empty one.
    pub open spec fn spec_token(&self) -> TokenV {
        match self@ {
            AstNodeV::Node { token, .. } => token,
            AstNodeV::Empty => arbitrary(),
        }
    }

    /// Whether this position holds a node.
    pub fn is_some(&self) -> (r: bool)
        ensures
            r == (self@ is Node),
    {
        match self {
            Self::Node { .. } => true,
            Self::Empty => false,
        }
    }

    /// Whether this position is empty.
    pub fn is_none(&self) -> (r: bool)
        ensures
            r == (self@ is Empty),
    {
        !self.is_some()
    }

    /// Whether this position holds a node with two empty children.
    pub fn is_leaf(&self) -> (r: bool)
        ensures
            r == match self@ {
                AstNodeV::Node { left, right, .. } => *left is Empty && *right is Empty,
                AstNodeV::Empty => false,
            },
    {
        match self {
            Self::Node { left, right, .. } => left.is_none() && right.is_none(),
            Self::Empty => false,
        }
    }

    /// The binding key of this position: bracket depth, then precedence.
    fn precedence(&self) -> (r: (usize, usize))
        ensures
            (r.0 as nat, r.1 as nat) == node_key(self@),
    {
        match self {
            Self::Node { token: Token::Operator { op, wrapping }, .. } => (*wrapping, op.precedence),
            Self::Node { token: Token::Function(_), .. } => (0, usize::MAX),
            _ => (usize::MAX, usize::MAX),
        }
    }

    /// Compares this node, as the one being inserted, against the node at
    /// the insertion position: `Less` swims, `Equal` and `Greater` sink.
    pub fn compare(&self, other: &Self) -> (r: Ordering)
        ensures
            r == spec_compare(self@, other@),
    {
        let a = self.precedence();
        let b = other.precedence();
        if a.0 < b.0 || (a.0 == b.0 && a.1 < b.1) {
            Ordering::Less
        } else if a.0 == b.0 && a.1 == b.1 {
            match self {
                Self::Node { token: Token::Operator { op, .. }, .. } => {
                    match op.associativity {
                        Associativity::Left => Ordering::Less,
                        Associativity::Right => Ordering::Greater,
                    }
                },
                _ => Ordering::Equal,
            }
        } else {
            Ordering::Greater
        }
    }
}

/// Inserts a non-empty node into an owned subtree, walking the right spine:
/// it swims above the first position it outbinds and sinks past any other.
fn insert_node(cur: AstNode, new: AstNode) -> (r: AstNode)
    requires
        !(new@ is Empty),
    ensures
        r@ == spec_insert(cur@, new@),
    decreases cur,
{
    let ord = new.compare(&cur);
    match cur {
        AstNode::Empty => {
            proof {
                assert(node_view(AstNode::Empty) == AstNodeV::Empty);
            }
            new
        },
        AstNode::Node { token, left, right } => {
            match ord {
                Ordering::Less => {
                    match new {
                        AstNode::Node { token: new_token, .. } => {
                            let r = AstNode::Node {
                                token: new_token,
                                left: Box::new(AstNode::Node { token, left, right }),
                                right: Box::new(AstNode::Empty),
                            };
                            proof {
                                assert(node_view(AstNode::Empty) == AstNodeV::Empty);
                            }
                            r
                        },
                        AstNode::Empty => vstd::pervasive::unreached(),
                    }
                },
                _ => {
                    AstNode::Node { token, left, right: Box::new(insert_node(*right, new)) }
                },
            }
        },
    }
}

/// Evaluation of a tree position in an environment that carries variable
/// bindings but no function table, as the fresh environment of a
/// user-defined function call does. An empty position fails as `Undefined`;
/// a constant returns its value; a variable is looked up; a function node
/// with a non-empty left child is structurally malformed and fails as
/// `Undefined`, and otherwise fails as `UndefinedFunction` since no function
/// is bound. An operator whose left child slot is structurally empty is a
/// unary occurrence and applies its unary behavior to the right result; one
/// with a present left child is binary, and a failure of either operand
/// propagates, the left one first. A structurally missing operand thus
/// surfaces as `Undefined`, while a lookup failure inside an operand keeps
/// its own error.
pub open spec fn eval0(n: AstNodeV, vars: Map<Seq<char>, Number>) -> Result<Number, MathErrorV>
    decreases n,
{
    match n {
        AstNodeV::Empty => Err(MathErrorV::Undefined),
        AstNodeV::Node { token, left, right } => match token {
            TokenV::Constant(c) => Ok(c),
            TokenV::Variable(name) => {
                if vars.contains_key(name) {
                    Ok(vars[name])
                } else {
                    Err(MathErrorV::UndefinedVariable(name))
                }
            },
            TokenV::Function(name) => {
                if !(*left is Empty) {
                    Err(MathErrorV::Undefined)
                } else {
                    Err(MathErrorV::UndefinedFunction(name))
                }
            },
            TokenV::Operator { op, .. } => {
                if *left is Empty {
                    match eval0(*right, vars) {
                        Ok(b) => spec_perform_unary(op, b),
                        Err(e) => Err(e),
                    }
                } else {
                    match (eval0(*left, vars), eval0(*right, vars)) {
                        (Ok(a), Ok(b)) => spec_perform_binary(op, a, b),
                        (Err(e), _) => Err(e),
                        (Ok(_), Err(e)) => Err(e),
                    }
                }
            },
        },
    }
}

/// Evaluation of a tree position in a full environment. A function node
/// must have an empty left child; its right child is the argument
/// expression, whose result (success or failure) is handed to the
/// environment's function dispatch. An operator with a failing left child
/// but succeeding right child is a unary occurrence.
pub open spec fn eval1(n: AstNodeV, ctx: ContextV) -> Result<Number, MathErrorV>
    decreases n,
{
    match n {
        AstNodeV::Empty => Err(MathErrorV::Undefined),
        AstNodeV::Node { token, left, right } => match token {
            TokenV::Constant(c) => Ok(c),
            TokenV::Variable(name) => {
                if ctx.vars.contains_key(name) {
                    Ok(ctx.vars[name])
                } else {
                    Err(MathErrorV::UndefinedVariable(name))
                }
            },
            TokenV::Function(name) => {
                if !(*left is Empty) {
                    Err(MathErrorV::Undefined)
                } else {
                    spec_compute_function(ctx, name, eval1(*right, ctx))
                }
            },
            TokenV::Operator { op, .. } => {
                if *left is Empty {
                    match eval1(*right, ctx) {
                        Ok(b) => spec_perform_unary(op, b),
                        Err(e) => Err(e),
                    }
                } else {
                    match (eval1(*left, ctx), eval1(*right, ctx)) {
                        (Ok(a), Ok(b)) => spec_perform_binary(op, a, b),
                        (Err(e), _) => Err(e),
                        (Ok(_), Err(e)) => Err(e),
                    }
                }
            },
        },
    }
}

/// Evaluation of a whole tree with no function table: an empty root fails as
/// `NoInput`.
pub open spec fn spec_ast_eval0(t: AstNodeV, vars: Map<Seq<char>, Number>) -> Result<
    Number,
    MathErrorV,
> {
    if t is Empty {
        Err(MathErrorV::NoInput)
    } else {
        eval0(t, vars)
    }
}

/// Evaluation of a whole tree in a full environment: an empty root fails as
/// `NoInput`.
pub open spec fn spec_ast_eval(t: AstNodeV, ctx: ContextV) -> Result<Number, MathErrorV> {
    if t is Empty {
        Err(MathErrorV::NoInput)
    } else {
        eval1(t, ctx)
    }
}

/// In an environment whose function table is empty, full evaluation and
/// function-free evaluation agree.
pub proof fn lemma_eval_empty_funcs(n: AstNodeV, vars: Map<Seq<char>, Number>)
    ensures
        eval1(n, ContextV { vars, funcs: Map::empty() }) == eval0(n, vars),
    decreases n,
{
    match n {
        AstNodeV::Empty => {},
        AstNodeV::Node { token, left, right } => {
            match token {
                TokenV::Function(_) => {
                    lemma_eval_empty_funcs(*right, vars);
                },
                TokenV::Operator { .. } => {
                    lemma_eval_empty_funcs(*left, vars);
                    lemma_eval_empty_funcs(*right, vars);
                },
                _ => {},
            }
        },
    }
}

/// In an environment whose function table is empty, whole-tree evaluation
/// and function-free whole-tree evaluation agree.
pub proof fn lemma_ast_eval_empty_funcs(t: AstNodeV, vars: Map<Seq<char>, Number>)
    ensures
        spec_ast_eval(t, ContextV { vars, funcs: Map::empty() }) == spec_ast_eval0(t, vars),
{
    if !(t is Empty) {
        lemma_eval_empty_funcs(t, vars);
    }
}

impl AstNode {
    /// Evaluates this position in an environment, by structural case on the
    /// node as the model `eval1` says.
    pub fn evaluate(&self, ctx: &Context) -> (r: MathResult)
        ensures
            res_view(r) == eval1(self@, ctx@),
        decreases ctx.spec_funcs_len(), node_size(self@), 0nat,
    {
        match self {
            AstNode::Empty => Err(MathError::Undefined),
            AstNode::Node { token, left, right } => {
                proof {
                    assert(node_size(self@) == 1 + node_size((**left)@) + node_size((**right)@));
                }
                match token {
                    Token::Constant(c) => Ok(*c),
                    Token::Variable(v) => ctx.read_variable(v.clone()),
                    Token::Function(f) => {
                        if left.is_some() {
                            return Err(MathError::Undefined);
                        }
                        let arg = right.evaluate(ctx);
                        ctx.compute_function(f.clone(), arg)
                    },
                    Token::Operator { op, .. } => {
                        if left.is_some() {
                            let l = left.evaluate(ctx);
                            let r = right.evaluate(ctx);
                            match (l, r) {
                                (Ok(a), Ok(b)) => op.perform_binary(a, b),
                                (Err(e), _) => Err(e),
                                (Ok(_), Err(e)) => Err(e),
                            }
                        } else {
                            match right.evaluate(ctx) {
                                Ok(b) => op.perform_unary(b),
                                Err(e) => Err(e),
                            }
                        }
                    },
                }
            },
        }
    }
}

/// An expression tree: one owned root position, mutated in place while it is
/// built and read-only during evaluation.
#[derive(Debug)]
pub struct Ast {
    pub root: Box<AstNode>,
}

impl View for Ast {
    type V = AstNodeV;

    open spec fn view(&self) -> AstNodeV {
        (*self.root)@
    }
}

impl Ast {
    /// Builds the tree for a token sequence: every token pushed in order
    /// into an initially empty root.
    pub fn new(tokens: Vec<Token>) -> (r: Self)
        ensures
            r@ == spec_build(tokens_view(tokens@)),
    {
        let ghost ts = tokens_view(tokens@);
        let mut this = Ast { root: Box::new(AstNode::Empty) };
        let mut i: usize = 0;
        while i < tokens.len()
            invariant
                i <= tokens@.len(),
                ts == tokens_view(tokens@),
                this@ == spec_build_upto(ts, i as int),
            decreases tokens@.len() - i,
        {
            proof {
                assert(ts[i as int] == tokens@[i as int]@);
            }
            let t = tokens[i].clone();
            this.push(AstNode::new(t));
            i = i + 1;
        }
        this
    }

    /// Evaluates the whole tree in an environment; an empty root fails as
    /// `NoInput`.
    pub fn evaluate(&self, ctx: &Context) -> (r: MathResult)
        ensures
            res_view(r) == spec_ast_eval(self@, ctx@),
        decreases ctx.spec_funcs_len(), node_size(self@), 1nat,
    {
        if self.root.is_none() {
            return Err(MathError::NoInput);
        }
        self.root.evaluate(ctx)
    }

    /// Pushes one node into the tree; an empty node is ignored.
    pub fn push(&mut self, node: AstNode)
        ensures
            final(self)@ == spec_push(old(self)@, node@),
    {
        if node.is_none() {
            return ;
        }
        let mut tmp: Box<AstNode> = Box::new(AstNode::Empty);
        core::mem::swap(&mut self.root, &mut tmp);
        self.root = Box::new(insert_node(*tmp, node));
    }
}

} // verus!
