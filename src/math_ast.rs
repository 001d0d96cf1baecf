//! Syntax tree of the arithmetic expression language.

use vstd::prelude::*;

verus! {

/// A numeric literal, held as the bit pattern of an IEEE-754 binary64 value.
///
/// The parser only carries literals from tokens into the tree; it never does
/// arithmetic on them.
#[derive(Clone, Copy, Debug, PartialEq, Eq, Structural)]
pub struct Number {
    pub bits: u64,
}

/// The binary operators of the language.
#[derive(Clone, Copy, Debug, PartialEq, Eq, Structural)]
pub enum BinOp {
    Add,
    Sub,
    Mul,
    Div,
    Mod,
}

/// An expression tree; every node owns its children.
#[derive(Debug, PartialEq)]
pub enum AstNode {
    Const { val: Number },
    Ident { name: String },
    Negate { lhs: Box<AstNode> },
    Binary { op: BinOp, lhs: Box<AstNode>, rhs: Box<AstNode> },
    Call { callee: Box<AstNode>, arg: Box<AstNode> },
}

impl Clone for AstNode {
    /// Copies every node of the tree.
    fn clone(&self) -> (r: Self)
        ensures
            r == *self,
        decreases self,
    {
        match self {
            AstNode::Const { val } => AstNode::Const { val: *val },
            AstNode::Ident { name } => AstNode::Ident { name: name.clone() },
            AstNode::Negate { lhs } => AstNode::Negate { lhs: Box::new((**lhs).clone()) },
            AstNode::Binary { op, lhs, rhs } => AstNode::Binary {
                op: *op,
                lhs: Box::new((**lhs).clone()),
                rhs: Box::new((**rhs).clone()),
            },
            AstNode::Call { callee, arg } => AstNode::Call {
                callee: Box::new((**callee).clone()),
                arg: Box::new((**arg).clone()),
            },
        }
    }
}

impl AstNode {
    pub fn num(val: Number) -> (r: Box<AstNode>)
        ensures
            *r == (AstNode::Const { val }),
    {
        Box::new(AstNode::Const { val })
    }

    pub fn id(name: &str) -> (r: Box<AstNode>)
        ensures
            *r matches AstNode::Ident { name: n } && n@ == name@,
    {
        Box::new(AstNode::Ident { name: name.to_owned() })
    }

    pub fn neg(lhs: Box<AstNode>) -> (r: Box<AstNode>)
        ensures
            *r == (AstNode::Negate { lhs }),
    {
        Box::new(AstNode::Negate { lhs })
    }

    pub fn bin(lhs: Box<AstNode>, op: BinOp, rhs: Box<AstNode>) -> (r: Box<AstNode>)
        ensures
            *r == (AstNode::Binary { op, lhs, rhs }),
    {
        Box::new(AstNode::Binary { op, lhs, rhs })
    }

    pub fn add(lhs: Box<AstNode>, rhs: Box<AstNode>) -> (r: Box<AstNode>)
        ensures
            *r == (AstNode::Binary { op: BinOp::Add, lhs, rhs }),
    {
        Box::new(AstNode::Binary { op: BinOp::Add, lhs, rhs })
    }

    pub fn sub(lhs: Box<AstNode>, rhs: Box<AstNode>) -> (r: Box<AstNode>)
        ensures
            *r == (AstNode::Binary { op: BinOp::Sub, lhs, rhs }),
    {
        Box::new(AstNode::Binary { op: BinOp::Sub, lhs, rhs })
    }

    pub fn mul(lhs: Box<AstNode>, rhs: Box<AstNode>) -> (r: Box<AstNode>)
        ensures
            *r == (AstNode::Binary { op: BinOp::Mul, lhs, rhs }),
    {
        Box::new(AstNode::Binary { op: BinOp::Mul, lhs, rhs })
    }

    pub fn div(lhs: Box<AstNode>, rhs: Box<AstNode>) -> (r: Box<AstNode>)
        ensures
            *r == (AstNode::Binary { op: BinOp::Div, lhs, rhs }),
    {
        Box::new(AstNode::Binary { op: BinOp::Div, lhs, rhs })
    }

    /// Named with a trailing underscore because `mod` is a keyword.
    pub fn mod_(lhs: Box<AstNode>, rhs: Box<AstNode>) -> (r: Box<AstNode>)
        ensures
            *r == (AstNode::Binary { op: BinOp::Mod, lhs, rhs }),
    {
        Box::new(AstNode::Binary { op: BinOp::Mod, lhs, rhs })
    }

    pub fn call(callee: Box<AstNode>, arg: Box<AstNode>) -> (r: Box<AstNode>)
        ensures
            *r == (AstNode::Call { callee, arg }),
    {
        Box::new(AstNode::Call { callee, arg })
    }
}

} // verus!
