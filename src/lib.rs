//! Small expression-language front ends: an operator-precedence parser for
//! arithmetic expressions (with laws relating it to a fully parenthesised
//! rendering), a parser for parenthesised lists, a program tree with a
//! scope-walking visitor, and the syntax trees that go with them.

pub mod math_ast;
pub mod math_parser;
pub mod math_laws;
pub mod names_ast;
pub mod name_visit;
pub mod lisp_parser;
pub mod calc_ast;
pub mod tree;
