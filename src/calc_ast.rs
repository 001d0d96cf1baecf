//! A minimal arithmetic tree of constants, negation and four operators,
//! with the rewriting that takes a tree to its reciprocal.

use vstd::prelude::*;
use crate::math_ast::Number;

verus! {

/// The bit pattern of the binary64 value 1.0.
pub const ONE_BITS: u64 = 0x3FF0_0000_0000_0000;

/// The four binary operators.
#[derive(Clone, Copy, Debug, PartialEq, Eq, Structural)]
pub enum BinOp {
    Add,
    Sub,
    Mul,
    Div,
}

#[derive(Debug, PartialEq)]
pub enum AstNode {
    Const { val: Number },
    Negate { lhs: Box<AstNode> },
    Binary { op: BinOp, lhs: Box<AstNode>, rhs: Box<AstNode> },
}

impl Clone for AstNode {
    /// Copies every node of the tree.
    fn clone(&self) -> (r: Self)
        ensures
            r == *self,
        decreases self,
    {
        match self {
            AstNode::Const { val } => AstNode::Const { val: *val },
            AstNode::Negate { lhs } => AstNode::Negate { lhs: Box::new((**lhs).clone()) },
            AstNode::Binary { op, lhs, rhs } => AstNode::Binary {
                op: *op,
                lhs: Box::new((**lhs).clone()),
                rhs: Box::new((**rhs).clone()),
            },
        }
    }
}

/// The reciprocal of `t`: a quotient turned over, anything else divided
/// into one.
pub open spec fn recip_of(t: AstNode) -> AstNode {
    match t {
        AstNode::Binary { op: BinOp::Div, lhs, rhs } => AstNode::Binary { op: BinOp::Div, lhs: rhs, rhs: lhs },
        _ => AstNode::Binary {
            op: BinOp::Div,
            lhs: Box::new(AstNode::Const { val: Number { bits: ONE_BITS } }),
            rhs: Box::new(t),
        },
    }
}

impl AstNode {
    pub fn num(val: Number) -> (r: Box<AstNode>)
        ensures
            *r == (AstNode::Const { val }),
    {
        Box::new(AstNode::Const { val })
    }

    pub fn neg(lhs: Box<AstNode>) -> (r: Box<AstNode>)
        ensures
            *r == (AstNode::Negate { lhs }),
    {
        Box::new(AstNode::Negate { lhs })
    }

    pub fn add(lhs: Box<AstNode>, rhs: Box<AstNode>) -> (r: Box<AstNode>)
        ensures
            *r == (AstNode::Binary { op: BinOp::Add, lhs, rhs }),
    {
        Box::new(AstNode::Binary { op: BinOp::Add, lhs, rhs })
    }

    pub fn sub(lhs: Box<AstNode>, rhs: Box<AstNode>) -> (r: Box<AstNode>)
        ensures
            *r == (AstNode::Binary { op: BinOp::Sub, lhs, rhs }),
    {
        Box::new(AstNode::Binary { op: BinOp::Sub, lhs, rhs })
    }

    pub fn mul(lhs: Box<AstNode>, rhs: Box<AstNode>) -> (r: Box<AstNode>)
        ensures
            *r == (AstNode::Binary { op: BinOp::Mul, lhs, rhs }),
    {
        Box::new(AstNode::Binary { op: BinOp::Mul, lhs, rhs })
    }

    pub fn div(lhs: Box<AstNode>, rhs: Box<AstNode>) -> (r: Box<AstNode>)
        ensures
            *r == (AstNode::Binary { op: BinOp::Div, lhs, rhs }),
    {
        Box::new(AstNode::Binary { op: BinOp::Div, lhs, rhs })
    }

    /// A new tree for the reciprocal of this one; this tree is left as it is.
    pub fn recip(&self) -> (r: Box<AstNode>)
        ensures
            *r == recip_of(*self),
    {
        match self {
            AstNode::Binary { op: BinOp::Div, lhs, rhs } => AstNode::div(
                Box::new((**rhs).clone()),
                Box::new((**lhs).clone()),
            ),
            _ => AstNode::div(AstNode::num(Number { bits: ONE_BITS }), Box::new(self.clone())),
        }
    }
}

} // verus!
