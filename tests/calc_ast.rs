use expr_parsing::calc_ast::{AstNode, BinOp, ONE_BITS};
use expr_parsing::math_ast::Number;
use expr_parsing::tree::Node;

fn c(v: f64) -> Box<AstNode> {
    AstNode::num(Number { bits: v.to_bits() })
}

#[test]
fn one_bits_is_one() {
    assert_eq!(f64::from_bits(ONE_BITS), 1.0);
}

#[test]
fn recip_turns_a_quotient_over() {
    let t = AstNode::div(c(3.0), AstNode::add(c(1.0), c(2.0)));
    assert_eq!(t.recip(), AstNode::div(AstNode::add(c(1.0), c(2.0)), c(3.0)));
}

#[test]
fn recip_divides_anything_else_into_one() {
    let t = AstNode::sub(c(3.0), AstNode::neg(c(2.0)));
    assert_eq!(t.recip(), AstNode::div(c(1.0), t.clone()));
    let k = c(5.0);
    assert_eq!(k.recip(), AstNode::div(c(1.0), c(5.0)));
}

#[test]
fn constructors_pick_the_operator() {
    let t = AstNode::mul(c(1.0), c(2.0));
    assert!(matches!(*t, AstNode::Binary { op: BinOp::Mul, .. }));
    let t = AstNode::add(c(1.0), c(2.0));
    assert!(matches!(*t, AstNode::Binary { op: BinOp::Add, .. }));
}

#[test]
fn tree_node_starts_as_a_leaf() {
    let mut a = Node::new(5);
    assert_eq!(a.value, 5);
    assert!(a.left.is_none() && a.right.is_none());
    a.left = Some(Node::new(2));
    a.right = Some(Node::new(7));
    assert_eq!(a.left.as_ref().map(|n| n.value), Some(2));
    assert_eq!(a.right.as_ref().map(|n| n.value), Some(7));
}
