use std::cmp::Ordering;

use matheval::context::Context;
use matheval::error::MathError;
use matheval::functions::Function;
use matheval::lexer::{lex, match_wrapping_char, Lexeme, Wrapping};
use matheval::number::Number;
use matheval::operator::{op_mult, Associativity, Operation, OperatorSet};
use matheval::parse::{Ast, AstNode};
use matheval::token::{tokenize, Token, TokenError};
use matheval::variables::Variable;

fn num(re: f64, im: f64) -> Number {
    Number {
        re: re.to_bits(),
        im: im.to_bits(),
    }
}

#[test]
fn lexes_each_class() {
    let ls = lex("2.5+abc (x1]?".to_string());
    assert_eq!(
        ls,
        vec![
            Lexeme::Number("2.5".to_string()),
            Lexeme::Special('+'),
            Lexeme::Identifier("abc".to_string()),
            Lexeme::LeftWrap(Wrapping::Paren),
            Lexeme::Identifier("x1".to_string()),
            Lexeme::RightWrap(Wrapping::Square),
            Lexeme::Special('?'),
        ]
    );
}

#[test]
fn lexes_unknown_characters_through() {
    let ls = lex("1,2".to_string());
    assert_eq!(
        ls,
        vec![
            Lexeme::Number("1".to_string()),
            Lexeme::Unknown(','),
            Lexeme::Number("2".to_string()),
        ]
    );
}

#[test]
fn lexes_number_with_many_dots() {
    // Maximal munch keeps the dots; validation is the resolver's job.
    let ls = lex("1.2.3".to_string());
    assert_eq!(ls, vec![Lexeme::Number("1.2.3".to_string())]);
}

#[test]
fn wrapping_chars_map_to_their_kind() {
    assert_eq!(
        match_wrapping_char('{'),
        Some(Lexeme::LeftWrap(Wrapping::Curly))
    );
    assert_eq!(
        match_wrapping_char(']'),
        Some(Lexeme::RightWrap(Wrapping::Square))
    );
    assert_eq!(match_wrapping_char('+'), None);
}

#[test]
fn tokenize_inserts_implicit_operator() {
    let ts = tokenize(OperatorSet::default(), lex("3x".to_string())).unwrap();
    assert_eq!(ts.len(), 3);
    assert!(matches!(ts[0], Token::Constant(_)));
    match &ts[1] {
        Token::Operator { op, wrapping } => {
            assert_eq!(*op, op_mult());
            assert_eq!(*wrapping, 0);
        }
        other => panic!("expected the implicit operator, got {:?}", other),
    }
    assert_eq!(ts[2], Token::Variable("x".to_string()));
}

#[test]
fn tokenize_distinguishes_functions_from_variables() {
    let ts = tokenize(OperatorSet::default(), lex("sin(x)".to_string())).unwrap();
    assert_eq!(ts[0], Token::Function("sin".to_string()));
    assert_eq!(ts[1], Token::Variable("x".to_string()));
}

#[test]
fn tokenize_records_bracket_depth() {
    let ts = tokenize(OperatorSet::default(), lex("(1+2)*3".to_string())).unwrap();
    match &ts[1] {
        Token::Operator { wrapping, .. } => assert_eq!(*wrapping, 1),
        other => panic!("expected an operator, got {:?}", other),
    }
    match &ts[3] {
        Token::Operator { wrapping, .. } => assert_eq!(*wrapping, 0),
        other => panic!("expected an operator, got {:?}", other),
    }
}

#[test]
fn tokenize_rejects_wrong_closer() {
    assert_eq!(
        tokenize(OperatorSet::default(), lex("{1)".to_string())),
        Err(TokenError::UnmatchedWrapping)
    );
}

#[test]
fn tokenize_rejects_bad_number() {
    assert_eq!(
        tokenize(OperatorSet::default(), lex("1.2.3".to_string())),
        Err(TokenError::BadNumber)
    );
}

#[test]
fn custom_operator_without_binary_behavior() {
    // A catalog entry may omit behaviors; using it then fails at evaluation.
    let bang = Operation {
        name: "bang".to_string(),
        associativity: Associativity::Left,
        precedence: 3,
        binary: None,
        unary: None,
    };
    let set = OperatorSet::new(vec![('!', bang)], op_mult());
    let ts = tokenize(set, lex("2!3".to_string())).unwrap();
    let tree = Ast::new(ts);
    let ctx = Context::new();
    assert_eq!(
        tree.evaluate(&ctx),
        Err(MathError::UndefinedOperation("binary bang".to_string()))
    );
}

#[test]
fn later_catalog_entry_wins() {
    let plus_as_mult = Operation {
        name: "alias".to_string(),
        ..op_mult()
    };
    let set = OperatorSet::new(
        vec![('+', matheval::operator::op_add()), ('+', plus_as_mult)],
        op_mult(),
    );
    let ts = tokenize(set, lex("2+3".to_string())).unwrap();
    let tree = Ast::new(ts);
    assert_eq!(tree.evaluate(&Context::default()), Ok(num(6.0, 0.0)));
}

#[test]
fn tree_shape_follows_precedence() {
    let ts = tokenize(OperatorSet::default(), lex("1+2*3".to_string())).unwrap();
    let tree = Ast::new(ts);
    // Root is `+`, its right child is `*`.
    match &*tree.root {
        AstNode::Node { token, left, right } => {
            assert!(matches!(token, Token::Operator { op, .. } if op.name == "addition"));
            assert!(left.is_leaf());
            match &**right {
                AstNode::Node { token, .. } => {
                    assert!(
                        matches!(token, Token::Operator { op, .. } if op.name == "multiplication")
                    );
                }
                AstNode::Empty => panic!("right child missing"),
            }
        }
        AstNode::Empty => panic!("empty tree"),
    }
}

#[test]
fn children_exposes_the_two_slots() {
    let ts = tokenize(OperatorSet::default(), lex("1+2".to_string())).unwrap();
    let tree = Ast::new(ts);
    let (left, right) = tree.root.children().expect("the root holds a node");
    assert!(left.is_leaf());
    assert!(right.is_leaf());
    assert!(AstNode::Empty.children().is_none());
}

#[test]
fn push_ignores_empty_nodes() {
    let mut tree = Ast::new(Vec::new());
    tree.push(AstNode::Empty);
    assert!(tree.root.is_none());
    assert_eq!(tree.evaluate(&Context::new()), Err(MathError::NoInput));
}

#[test]
fn context_reads_and_overrides_variables() {
    let mut ctx = Context::new();
    ctx.assign_variable("x".to_string(), num(4.0, 0.0));
    assert_eq!(ctx.read_variable("x".to_string()), Ok(num(4.0, 0.0)));
    ctx.assign_variable("x".to_string(), num(7.0, 0.0));
    assert_eq!(ctx.read_variable("x".to_string()), Ok(num(7.0, 0.0)));
    assert_eq!(
        ctx.read_variable("y".to_string()),
        Err(MathError::UndefinedVariable("y".to_string()))
    );
}

#[test]
fn context_with_builds_from_tables() {
    let ctx = Context::with(
        vec![("a".to_string(), Variable::new(2.0f64.to_bits(), 0))],
        Vec::new(),
    );
    assert_eq!(ctx.read_variable("a".to_string()), Ok(num(2.0, 0.0)));
}

#[test]
fn user_defined_function_evaluates_its_body() {
    // double(x) = x+x, applied to 5.
    let body = Ast::new(tokenize(OperatorSet::default(), lex("x+x".to_string())).unwrap());
    let mut ctx = Context::default();
    ctx.assign_function(
        "double".to_string(),
        Function::AstDefined(body, "x".to_string()),
    );
    let call = Ast::new(tokenize(OperatorSet::default(), lex("double(5)".to_string())).unwrap());
    assert_eq!(call.evaluate(&ctx), Ok(num(10.0, 0.0)));
}

#[test]
fn user_defined_function_cannot_see_caller_variables() {
    // f(x) = x+y, invoked as f(1): its fresh environment binds x alone, so
    // y is undefined even though the caller binds y.
    let body = Ast::new(tokenize(OperatorSet::default(), lex("x+y".to_string())).unwrap());
    let mut ctx = Context::default();
    ctx.assign_variable("y".to_string(), num(3.0, 0.0));
    ctx.assign_function("f".to_string(), Function::AstDefined(body, "x".to_string()));
    let call = Ast::new(tokenize(OperatorSet::default(), lex("f(1)".to_string())).unwrap());
    assert_eq!(
        call.evaluate(&ctx),
        Err(MathError::UndefinedVariable("y".to_string()))
    );
}

#[test]
fn user_defined_function_cannot_call_functions() {
    // g(x) = sin(x): the fresh environment carries no function table, so
    // even a built-in name is undefined inside a user-defined body.
    let body = Ast::new(tokenize(OperatorSet::default(), lex("sin(x)".to_string())).unwrap());
    let mut ctx = Context::default();
    ctx.assign_function("g".to_string(), Function::AstDefined(body, "x".to_string()));
    let call = Ast::new(tokenize(OperatorSet::default(), lex("g(1)".to_string())).unwrap());
    assert_eq!(
        call.evaluate(&ctx),
        Err(MathError::UndefinedFunction("sin".to_string()))
    );
}

#[test]
fn function_argument_error_propagates() {
    let call = Ast::new(tokenize(OperatorSet::default(), lex("sin(q)".to_string())).unwrap());
    assert_eq!(
        call.evaluate(&Context::default()),
        Err(MathError::UndefinedVariable("q".to_string()))
    );
}

#[test]
fn compare_orders_by_depth_then_precedence() {
    let ts = tokenize(OperatorSet::default(), lex("+".to_string())).unwrap();
    let plus = AstNode::new(ts.into_iter().next().unwrap());
    let ts = tokenize(OperatorSet::default(), lex("*".to_string())).unwrap();
    let star = AstNode::new(ts.into_iter().next().unwrap());
    let leaf = AstNode::new(Token::Constant(num(1.0, 0.0)));
    // A leaf never outranks an operator: it sinks.
    assert_eq!(leaf.compare(&star), Ordering::Greater);
    // A looser operator swims above a tighter one.
    assert_eq!(plus.compare(&star), Ordering::Less);
    assert_eq!(star.compare(&plus), Ordering::Greater);
    // Equal keys: the new node's associativity decides; `+` is left.
    assert_eq!(plus.compare(&plus), Ordering::Less);
}
