//! A binary tree node that owns its children.

use vstd::prelude::*;

verus! {

#[derive(Debug)]
pub struct Node<T> {
    pub value: T,
    pub left: Option<Box<Node<T>>>,
    pub right: Option<Box<Node<T>>>,
}

impl<T> Node<T> {
    /// A boxed leaf holding `value`.
    pub fn new(value: T) -> (r: Box<Self>)
        ensures
            r.value == value,
            r.left is None,
            r.right is None,
    {
        Box::new(Node { value, left: None, right: None })
    }
}

} // verus!
