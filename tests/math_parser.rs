use expr_parsing::math_ast::{AstNode, BinOp, Number};
use expr_parsing::math_parser::{parse_exp, ParseError, Precedence, TokenKind};
use expr_parsing::math_parser::TokenKind::{Divide, Eof, LParen, Minus, Modulo, Plus, RParen, Times};

fn id(s: &str) -> TokenKind {
    TokenKind::Id(s.to_string())
}

fn n(v: f64) -> Number {
    Number { bits: v.to_bits() }
}

fn num(v: i32) -> TokenKind {
    TokenKind::NumLit(n(v as f64))
}

fn c(v: i32) -> Box<AstNode> {
    AstNode::num(n(v as f64))
}

fn ok(tokens: &[TokenKind]) -> Box<AstNode> {
    match parse_exp(tokens) {
        Ok(t) => t,
        Err(e) => panic!("unexpected error {:?}", e),
    }
}

#[test]
fn sum_is_left_associated() {
    let t = ok(&[id("a"), Plus, id("b"), Plus, id("c")]);
    assert_eq!(t, AstNode::add(AstNode::add(AstNode::id("a"), AstNode::id("b")), AstNode::id("c")));
}

#[test]
fn product_is_left_associated() {
    let t = ok(&[id("a"), Times, id("b"), Times, id("c")]);
    assert_eq!(t, AstNode::mul(AstNode::mul(AstNode::id("a"), AstNode::id("b")), AstNode::id("c")));
}

#[test]
fn times_binds_tighter_on_the_right() {
    let t = ok(&[id("a"), Plus, id("b"), Times, id("c")]);
    assert_eq!(t, AstNode::add(AstNode::id("a"), AstNode::mul(AstNode::id("b"), AstNode::id("c"))));
}

#[test]
fn times_binds_tighter_on_the_left() {
    let t = ok(&[id("a"), Times, id("b"), Plus, id("c")]);
    assert_eq!(t, AstNode::add(AstNode::mul(AstNode::id("a"), AstNode::id("b")), AstNode::id("c")));
}

#[test]
fn division_chain_is_left_associated() {
    let t = ok(&[num(27), Divide, num(3), Divide, num(9)]);
    assert_eq!(t, AstNode::div(AstNode::div(c(27), c(3)), c(9)));
}

#[test]
fn modulo_and_subtraction() {
    let t = ok(&[id("a"), Minus, id("b"), Modulo, id("c"), Minus, id("d")]);
    assert_eq!(
        t,
        AstNode::sub(
            AstNode::sub(AstNode::id("a"), AstNode::mod_(AstNode::id("b"), AstNode::id("c"))),
            AstNode::id("d")
        )
    );
}

#[test]
fn unary_chain_nests_to_the_right() {
    let t = ok(&[Minus, Minus, Minus, id("x")]);
    assert_eq!(t, AstNode::neg(AstNode::neg(AstNode::neg(AstNode::id("x")))));
}

#[test]
fn mixed_unary_call_and_precedence() {
    let t = ok(&[Minus, num(3), Times, id("x"), Plus, num(5), Divide, id("y"), Minus, num(10)]);
    let expected = AstNode::sub(
        AstNode::add(
            AstNode::mul(AstNode::neg(c(3)), AstNode::id("x")),
            AstNode::div(c(5), AstNode::id("y")),
        ),
        c(10),
    );
    assert_eq!(t, expected);
}

#[test]
fn negated_call() {
    let t = ok(&[Minus, id("f"), LParen, id("x"), RParen]);
    assert_eq!(t, AstNode::neg(AstNode::call(AstNode::id("f"), AstNode::id("x"))));
}

#[test]
fn calls_chain_to_the_left() {
    let t = ok(&[id("f"), LParen, id("x"), RParen, LParen, id("y"), RParen]);
    assert_eq!(
        t,
        AstNode::call(AstNode::call(AstNode::id("f"), AstNode::id("x")), AstNode::id("y"))
    );
}

#[test]
fn negation_wraps_whole_call_chain() {
    let t = ok(&[Minus, id("f"), LParen, id("x"), RParen, LParen, id("y"), RParen]);
    assert_eq!(
        t,
        AstNode::neg(AstNode::call(
            AstNode::call(AstNode::id("f"), AstNode::id("x")),
            AstNode::id("y")
        ))
    );
}

#[test]
fn parentheses_make_no_node() {
    let t = ok(&[LParen, id("a"), Plus, id("b"), RParen, Times, id("c")]);
    assert_eq!(t, AstNode::mul(AstNode::add(AstNode::id("a"), AstNode::id("b")), AstNode::id("c")));
}

#[test]
fn call_argument_is_a_full_expression() {
    let t = ok(&[id("f"), LParen, id("a"), Plus, num(1), RParen]);
    assert_eq!(t, AstNode::call(AstNode::id("f"), AstNode::add(AstNode::id("a"), c(1))));
}

#[test]
fn explicit_eof_ends_the_input() {
    let t = ok(&[id("a"), Plus, id("b"), Eof, id("junk")]);
    assert_eq!(t, AstNode::add(AstNode::id("a"), AstNode::id("b")));
}

#[test]
fn two_primaries_is_trailing_input() {
    assert_eq!(parse_exp(&[id("x"), id("y")]), Err(ParseError::ExpectedEof(id("y"))));
}

#[test]
fn unclosed_parenthesis() {
    assert_eq!(parse_exp(&[LParen, id("x")]), Err(ParseError::ExpectedRParen(Eof)));
}

#[test]
fn unclosed_call() {
    assert_eq!(
        parse_exp(&[id("f"), LParen, id("x"), id("y")]),
        Err(ParseError::ExpectedRParen(id("y")))
    );
}

#[test]
fn operator_cannot_start_a_term() {
    assert_eq!(parse_exp(&[id("x"), Plus, Times]), Err(ParseError::ExpectedPrimary(Times)));
}

#[test]
fn empty_input_has_no_primary() {
    assert_eq!(parse_exp(&[]), Err(ParseError::ExpectedPrimary(Eof)));
}

#[test]
fn stray_right_parenthesis() {
    assert_eq!(parse_exp(&[RParen]), Err(ParseError::ExpectedPrimary(RParen)));
    assert_eq!(parse_exp(&[id("a"), RParen]), Err(ParseError::ExpectedEof(RParen)));
}

#[test]
fn precedence_levels() {
    assert_eq!(Plus.precedence(), Precedence::Add);
    assert_eq!(Minus.precedence(), Precedence::Add);
    assert_eq!(Times.precedence(), Precedence::Mul);
    assert_eq!(Divide.precedence(), Precedence::Mul);
    assert_eq!(Modulo.precedence(), Precedence::Mul);
    assert_eq!(LParen.precedence(), Precedence::Nothing);
    assert_eq!(id("a").precedence(), Precedence::Nothing);
    assert!(Precedence::Mul.is_higher_than(Precedence::Add));
    assert!(!Precedence::Add.is_higher_than(Precedence::Add));
    assert!(Precedence::Add.is_at_least(Precedence::Add));
    assert!(!Precedence::Nothing.is_at_least(Precedence::Add));
}

#[test]
fn operator_tokens_map_to_operators() {
    assert_eq!(Plus.to_binop(), BinOp::Add);
    assert_eq!(Minus.to_binop(), BinOp::Sub);
    assert_eq!(Times.to_binop(), BinOp::Mul);
    assert_eq!(Divide.to_binop(), BinOp::Div);
    assert_eq!(Modulo.to_binop(), BinOp::Mod);
}

#[test]
fn rendering_is_fully_parenthesised() {
    let t = AstNode::add(AstNode::id("a"), AstNode::neg(c(2)));
    assert_eq!(
        t.to_tokens(),
        vec![LParen, id("a"), Plus, LParen, Minus, num(2), RParen, RParen]
    );
    let call = AstNode::call(AstNode::id("f"), AstNode::id("x"));
    assert_eq!(call.to_tokens(), vec![LParen, id("f"), LParen, id("x"), RParen, RParen]);
}

#[test]
fn rendered_tree_parses_back() {
    let inputs: Vec<Vec<TokenKind>> = vec![
        vec![Minus, num(3), Times, id("x"), Plus, num(5), Divide, id("y"), Minus, num(10)],
        vec![num(27), Divide, num(3), Divide, num(9)],
        vec![Minus, id("f"), LParen, id("x"), RParen, LParen, id("y"), RParen],
        vec![num(1), Modulo, LParen, num(2), Minus, num(3), RParen],
    ];
    for ts in inputs {
        let t = ok(&ts);
        let again = ok(&t.to_tokens());
        assert_eq!(again, t);
    }
}

#[test]
fn extra_parentheses_change_nothing() {
    let inputs: Vec<Vec<TokenKind>> = vec![
        vec![id("a"), Plus, id("b"), Times, id("c")],
        vec![Minus, Minus, Minus, id("x")],
        vec![id("f"), LParen, id("x"), RParen, LParen, id("y"), RParen],
        vec![num(7)],
    ];
    for ts in inputs {
        let mut wrapped = vec![LParen];
        wrapped.extend(ts.iter().map(|t| t.copy()));
        wrapped.push(RParen);
        assert_eq!(ok(&wrapped), ok(&ts));
    }
}

#[test]
fn clone_copies_the_tree() {
    let t = AstNode::call(AstNode::neg(AstNode::id("f")), AstNode::sub(c(1), c(2)));
    let u = t.clone();
    assert_eq!(t, u);
}
