use expr_parsing::lisp_parser::{Exp, ParseError, Parser, TokenKind};
use expr_parsing::lisp_parser::TokenKind::{Eof, IntLit, LParen, RParen};

fn id(s: &str) -> TokenKind {
    TokenKind::Id(s.to_string())
}

#[test]
fn single_name() {
    assert_eq!(Parser::parse(&[id("test")]), Ok(Exp::new_id("test")));
}

#[test]
fn single_number() {
    assert_eq!(Parser::parse(&[IntLit(-4)]), Ok(Exp::new_num(-4)));
}

#[test]
fn flat_list() {
    let ts = vec![LParen, IntLit(1), IntLit(2), IntLit(3), IntLit(4), IntLit(5), RParen];
    let expected = Exp::new_parens((1..=5).map(Exp::new_num).collect());
    assert_eq!(Parser::parse(&ts), Ok(expected));
}

#[test]
fn nested_list() {
    let ts = vec![LParen, id("add"), IntLit(3), LParen, id("sub"), id("x"), id("y"), RParen, RParen];
    let inner = Exp::new_parens(vec![Exp::new_id("sub"), Exp::new_id("x"), Exp::new_id("y")]);
    let expected = Exp::new_parens(vec![Exp::new_id("add"), Exp::new_num(3), inner]);
    assert_eq!(Parser::parse(&ts), Ok(expected));
}

#[test]
fn extra_input_after_the_list() {
    let ts = vec![LParen, id("extra"), id("stuff"), id("after"), id("this"), RParen, id("oops")];
    assert_eq!(Parser::parse(&ts), Err(ParseError::ExpectedEof));
}

#[test]
fn unclosed_list_runs_out_of_expressions() {
    assert_eq!(Parser::parse(&[LParen, id("hi")]), Err(ParseError::ExpectedExpression));
}

#[test]
fn empty_list_is_rejected() {
    assert_eq!(Parser::parse(&[LParen, RParen]), Err(ParseError::ExpectedExpression));
}

#[test]
fn empty_input_is_rejected() {
    assert_eq!(Parser::parse(&[]), Err(ParseError::ExpectedExpression));
}

#[test]
fn explicit_eof_is_accepted() {
    assert_eq!(Parser::parse(&[IntLit(9), Eof]), Ok(Exp::new_num(9)));
}
