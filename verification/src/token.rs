use vstd::prelude::*;

use crate::lexer::{lexemes_view, Lexeme, LexemeV, Wrapping};
use crate::number::{num_of, parse_complex, parse_cx_of, Number};
use crate::operator::{spec_default_operator_set, spec_op_mult, Operation, OperationV, OperatorSet, OperatorSetV};

verus! {

/// The bracket depth recorded on an operator token: how many bracket groups
/// were open where it occurred.
pub type WrappingLevel = usize;

/// Failure of the token resolver.
#[derive(Debug, Clone, PartialEq, Eq, Structural)]
pub enum TokenError {
    /// A closing bracket with no matching open of the same kind, or an open
    /// bracket never closed.
    UnmatchedWrapping,
    /// A numeric lexeme that does not parse as a number.
    BadNumber,
    /// An unknown character, or an operator symbol absent from the catalog.
    IllegalSymbol,
}

/// A lexeme assigned its semantic role, plus bracket-depth context for
/// operators.
#[derive(Debug, PartialEq)]
pub enum Token {
    /// A literal number.
    Constant(Number),
    /// A name to be looked up among the variables at evaluation.
    Variable(String),
    /// A name to be looked up among the functions at evaluation.
    Function(String),
    /// An operator occurrence: its descriptor and the bracket depth where it
    /// occurred.
    Operator { op: Operation, wrapping: WrappingLevel },
}

/// Mathematical model of a token.
pub enum TokenV {
    Constant(Number),
    Variable(Seq<char>),
    Function(Seq<char>),
    Operator { op: OperationV, wrapping: nat },
}

impl View for Token {
    type V = TokenV;

    open spec fn view(&self) -> TokenV {
        match self {
            Token::Constant(n) => TokenV::Constant(*n),
            Token::Variable(s) => TokenV::Variable(s@),
            Token::Function(s) => TokenV::Function(s@),
            Token::Operator { op, wrapping } => TokenV::Operator {
                op: op@,
                wrapping: *wrapping as nat,
            },
        }
    }
}

impl Clone for Token {
    /// A copy whose model is the same.
    fn clone(&self) -> (r: Self)
        ensures
            r@ == self@,
    {
        match self {
            Token::Constant(n) => Token::Constant(*n),
            Token::Variable(s) => Token::Variable(s.clone()),
            Token::Function(s) => Token::Function(s.clone()),
            Token::Operator { op, wrapping } => Token::Operator {
                op: op.clone(),
                wrapping: *wrapping,
            },
        }
    }
}

/// The views of a sequence of tokens.
pub open spec fn tokens_view(s: Seq<Token>) -> Seq<TokenV> {
    s.map_values(|t: Token| t@)
}

/// Whether the token produces a value: a constant or a variable. Juxtaposing
/// two such tokens makes the resolver insert the implicit operator.
pub open spec fn spec_is_numeric(t: TokenV) -> bool {
    match t {
        TokenV::Constant(_) => true,
        TokenV::Variable(_) => true,
        _ => false,
    }
}

impl Token {
    /// Whether the token produces a value: a constant or a variable.
    pub fn is_numeric(&self) -> (r: bool)
        ensures
            r == spec_is_numeric(self@),
    {
        match self {
            Token::Constant(_) => true,
            Token::Variable(_) => true,
            _ => false,
        }
    }
}

/// The implicit operator of the catalog as a token at the given depth.
pub open spec fn implicit_tok(cat: OperatorSetV, depth: nat) -> TokenV {
    TokenV::Operator { op: cat.implicit, wrapping: depth }
}

/// Whether the last emitted token produces a value.
pub open spec fn last_is_numeric(toks: Seq<TokenV>) -> bool {
    toks.len() > 0 && spec_is_numeric(toks.last())
}

/// The token stream with the implicit operator appended where the last
/// emitted token produces a value.
pub open spec fn with_implicit(toks: Seq<TokenV>, depth: nat, cat: OperatorSetV) -> Seq<TokenV> {
    if last_is_numeric(toks) {
        toks.push(implicit_tok(cat, depth))
    } else {
        toks
    }
}

/// The token stream after emitting a value-producing token, inserting the
/// implicit operator first where two values would be juxtaposed.
pub open spec fn push_value(toks: Seq<TokenV>, depth: nat, cat: OperatorSetV, t: TokenV) -> Seq<
    TokenV,
> {
    with_implicit(toks, depth, cat).push(t)
}

/// The token resolution of the lexemes from position `i` on, given the
/// tokens already emitted and the stack of currently open bracket kinds.
/// The stack's length at any point is the bracket depth recorded on
/// operator tokens emitted there.
pub open spec fn spec_resolve_from(
    ls: Seq<LexemeV>,
    i: int,
    toks: Seq<TokenV>,
    stack: Seq<Wrapping>,
    cat: OperatorSetV,
) -> Result<Seq<TokenV>, TokenError>
    decreases ls.len() - i,
{
    if i < 0 || i >= ls.len() {
        if stack.len() == 0 {
            Ok(toks)
        } else {
            Err(TokenError::UnmatchedWrapping)
        }
    } else {
        match ls[i] {
            LexemeV::Number(text) => match parse_cx_of(text) {
                Some(bits) => spec_resolve_from(
                    ls,
                    i + 1,
                    push_value(toks, stack.len(), cat, TokenV::Constant(num_of(bits))),
                    stack,
                    cat,
                ),
                None => Err(TokenError::BadNumber),
            },
            LexemeV::Identifier(name) => {
                let t = if i + 1 < ls.len() && (ls[i + 1] is LeftWrap) {
                    TokenV::Function(name)
                } else {
                    TokenV::Variable(name)
                };
                spec_resolve_from(ls, i + 1, push_value(toks, stack.len(), cat, t), stack, cat)
            },
            LexemeV::Special(c) => {
                if cat.set.contains_key(c) {
                    spec_resolve_from(
                        ls,
                        i + 1,
                        toks.push(TokenV::Operator { op: cat.set[c], wrapping: stack.len() }),
                        stack,
                        cat,
                    )
                } else {
                    Err(TokenError::IllegalSymbol)
                }
            },
            LexemeV::LeftWrap(w) => spec_resolve_from(
                ls,
                i + 1,
                with_implicit(toks, stack.len(), cat),
                stack.push(w),
                cat,
            ),
            LexemeV::RightWrap(w) => {
                if stack.len() > 0 && stack.last() == w {
                    spec_resolve_from(ls, i + 1, toks, stack.drop_last(), cat)
                } else {
                    Err(TokenError::UnmatchedWrapping)
                }
            },
            LexemeV::Unknown(_) => Err(TokenError::IllegalSymbol),
        }
    }
}

/// The token resolution of a whole lexeme sequence under a catalog.
pub open spec fn spec_resolve(ls: Seq<LexemeV>, cat: OperatorSetV) -> Result<
    Seq<TokenV>,
    TokenError,
> {
    spec_resolve_from(ls, 0, Seq::empty(), Seq::empty(), cat)
}

/// Law: implicit multiplication. Under the default catalog, a number lexeme
/// followed directly by an identifier resolves to exactly the tokens of the
/// same pair written with an explicit `*` between them, for every number
/// text and every identifier; evaluation of the two inputs can therefore
/// never differ.
pub proof fn lemma_implicit_multiplication(s: Seq<char>, v: Seq<char>)
    ensures
        spec_resolve(
            seq![LexemeV::Number(s), LexemeV::Identifier(v)],
            spec_default_operator_set(),
        ) == spec_resolve(
            seq![LexemeV::Number(s), LexemeV::Special('*'), LexemeV::Identifier(v)],
            spec_default_operator_set(),
        ),
{
    let cat = spec_default_operator_set();
    let ls1 = seq![LexemeV::Number(s), LexemeV::Identifier(v)];
    let ls2 = seq![LexemeV::Number(s), LexemeV::Special('*'), LexemeV::Identifier(v)];
    let t0 = Seq::<TokenV>::empty();
    let st0 = Seq::<Wrapping>::empty();
    assert(cat.set.contains_key('*'));
    assert(cat.set['*'] == spec_op_mult());
    assert(cat.implicit == spec_op_mult());
    if parse_cx_of(s) is None {
        assert(spec_resolve_from(ls1, 0, t0, st0, cat) == Err::<Seq<TokenV>, TokenError>(
            TokenError::BadNumber,
        ));
        assert(spec_resolve_from(ls2, 0, t0, st0, cat) == Err::<Seq<TokenV>, TokenError>(
            TokenError::BadNumber,
        ));
    } else {
        let bits = parse_cx_of(s).unwrap();
        let cons = TokenV::Constant(num_of(bits));
        let mult = TokenV::Operator { op: spec_op_mult(), wrapping: 0 };
        let vart = TokenV::Variable(v);
        let t1 = t0.push(cons);
        let t2 = t1.push(mult);
        let t3 = t2.push(vart);
        assert(push_value(t0, 0, cat, cons) =~= t1);
        assert(spec_resolve_from(ls1, 0, t0, st0, cat) == spec_resolve_from(ls1, 1, t1, st0, cat));
        assert(t1.last() == cons);
        assert(push_value(t1, 0, cat, vart) =~= t3);
        assert(spec_resolve_from(ls1, 1, t1, st0, cat) == spec_resolve_from(ls1, 2, t3, st0, cat));
        assert(spec_resolve_from(ls1, 2, t3, st0, cat) == Ok::<Seq<TokenV>, TokenError>(t3));
        assert(spec_resolve_from(ls2, 0, t0, st0, cat) == spec_resolve_from(ls2, 1, t1, st0, cat));
        assert(spec_resolve_from(ls2, 1, t1, st0, cat) == spec_resolve_from(ls2, 2, t2, st0, cat));
        assert(t2.last() == mult);
        assert(!last_is_numeric(t2));
        assert(push_value(t2, 0, cat, vart) =~= t3);
        assert(spec_resolve_from(ls2, 2, t2, st0, cat) == spec_resolve_from(ls2, 3, t3, st0, cat));
        assert(spec_resolve_from(ls2, 3, t3, st0, cat) == Ok::<Seq<TokenV>, TokenError>(t3));
    }
}

/// Appends the catalog's implicit operator at the given depth where the last
/// emitted token produces a value.
fn maybe_push_implicit(tokens: &mut Vec<Token>, op_set: &OperatorSet, depth: usize)
    ensures
        tokens_view(final(tokens)@) == with_implicit(
            tokens_view(old(tokens)@),
            depth as nat,
            op_set@,
        ),
{
    let ghost prev = tokens@;
    let mut insert = false;
    match tokens.last() {
        Some(last) => {
            if last.is_numeric() {
                insert = true;
            }
        },
        None => {},
    }
    if insert {
        tokens.push(Token::Operator { op: op_set.implicit().clone(), wrapping: depth });
        proof {
            assert(tokens_view(prev).last() == prev.last()@);
            assert(tokens_view(tokens@) =~= tokens_view(prev).push(
                implicit_tok(op_set@, depth as nat),
            ));
        }
    } else {
        proof {
            if tokens_view(prev).len() > 0 {
                assert(tokens_view(prev).last() == prev.last()@);
            }
            assert(tokens_view(tokens@) =~= tokens_view(prev));
        }
    }
}

/// Resolves the lexeme sequence into a token sequence under the catalog:
/// numbers are parsed, identifiers split into functions and variables by
/// one-lexeme lookahead, operator symbols looked up, implicit operators
/// inserted between juxtaposed values, and brackets matched by kind. Fails
/// with `BadNumber`, `IllegalSymbol` or `UnmatchedWrapping` exactly where
/// the model says.
pub fn tokenize(op_set: OperatorSet, lexemes: Vec<Lexeme>) -> (r: Result<Vec<Token>, TokenError>)
    ensures
        match r {
            Ok(ts) => spec_resolve(lexemes_view(lexemes@), op_set@) == Ok::<_, TokenError>(
                tokens_view(ts@),
            ),
            Err(e) => spec_resolve(lexemes_view(lexemes@), op_set@) == Err::<Seq<TokenV>, _>(e),
        },
{
    let ghost ls = lexemes_view(lexemes@);
    let mut wrappings: Vec<Wrapping> = Vec::new();
    let mut tokens: Vec<Token> = Vec::new();
    let mut index: usize = 0;
    proof {
        assert(tokens_view(tokens@) =~= Seq::<TokenV>::empty());
    }
    while index < lexemes.len()
        invariant
            index <= lexemes@.len(),
            ls == lexemes_view(lexemes@),
            spec_resolve_from(ls, index as int, tokens_view(tokens@), wrappings@, op_set@)
                == spec_resolve(ls, op_set@),
        decreases lexemes@.len() - index,
    {
        let ghost toks0 = tokens_view(tokens@);
        let ghost stack0 = wrappings@;
        proof {
            assert(ls[index as int] == lexemes@[index as int]@);
        }
        match &lexemes[index] {
            Lexeme::Number(s) => {
                match parse_complex(s) {
                    Some(n) => {
                        maybe_push_implicit(&mut tokens, &op_set, wrappings.len());
                        tokens.push(Token::Constant(n));
                        proof {
                            assert(tokens_view(tokens@) =~= push_value(
                                toks0,
                                stack0.len(),
                                op_set@,
                                TokenV::Constant(n),
                            ));
                        }
                    },
                    None => {
                        return Err(TokenError::BadNumber);
                    },
                }
            },
            Lexeme::Identifier(s) => {
                let is_function = index + 1 < lexemes.len() && match &lexemes[index + 1] {
                    Lexeme::LeftWrap(_) => true,
                    _ => false,
                };
                proof {
                    if index + 1 < lexemes@.len() {
                        assert(ls[index as int + 1] == lexemes@[index as int + 1]@);
                    }
                }
                maybe_push_implicit(&mut tokens, &op_set, wrappings.len());
                let t = if is_function {
                    Token::Function(s.clone())
                } else {
                    Token::Variable(s.clone())
                };
                tokens.push(t);
                proof {
                    assert(tokens_view(tokens@) =~= with_implicit(
                        toks0,
                        stack0.len(),
                        op_set@,
                    ).push(tokens@.last()@));
                }
            },
            Lexeme::Special(c) => {
                match op_set.get(c) {
                    Some(op) => {
                        tokens.push(Token::Operator { op: op.clone(), wrapping: wrappings.len() });
                        proof {
                            assert(tokens_view(tokens@) =~= toks0.push(
                                TokenV::Operator { op: op_set@.set[*c], wrapping: stack0.len() },
                            ));
                        }
                    },
                    None => {
                        return Err(TokenError::IllegalSymbol);
                    },
                }
            },
            Lexeme::LeftWrap(w) => {
                maybe_push_implicit(&mut tokens, &op_set, wrappings.len());
                wrappings.push(*w);
            },
            Lexeme::RightWrap(w) => {
                let popped = wrappings.pop();
                let matched = match popped {
                    Some(p) => p == *w,
                    None => false,
                };
                if !matched {
                    return Err(TokenError::UnmatchedWrapping);
                }
            },
            Lexeme::Unknown(_) => {
                return Err(TokenError::IllegalSymbol);
            },
        }
        index = index + 1;
    }
    if wrappings.len() > 0 {
        return Err(TokenError::UnmatchedWrapping);
    }
    Ok(tokens)
}

} // verus!
