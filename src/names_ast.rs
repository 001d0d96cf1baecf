//! A small program tree for name resolution: declarations, statements,
//! expressions and identifiers, each node carrying an id.
//!
//! Ids come from an explicit counter that the builder of a tree passes
//! around, so that no state is shared between trees or threads.

use vstd::prelude::*;

verus! {

/// The source of node ids: hands out `next` and then counts up.
#[derive(Debug)]
pub struct NodeIds {
    pub next: usize,
}

impl NodeIds {
    /// A counter whose first id is 1.
    pub fn new() -> (r: NodeIds)
        ensures
            r.next == 1,
    {
        NodeIds { next: 1 }
    }
}

/// Returns a fresh node id: the counter's current value, which then grows
/// by one, so that ids from one counter never repeat.
pub fn new_node_id(ids: &mut NodeIds) -> (r: usize)
    requires
        old(ids).next < usize::MAX,
    ensures
        r == old(ids).next,
        final(ids).next == old(ids).next + 1,
{
    let r = ids.next;
    ids.next = ids.next + 1;
    r
}

/// A name, with the id by which symbol tables refer to it.
#[derive(Debug)]
pub struct Ident {
    pub id: usize,
    pub name: String,
}

impl Ident {
    pub fn new(ids: &mut NodeIds, name: &str) -> (r: Self)
        requires
            old(ids).next < usize::MAX,
        ensures
            r.id == old(ids).next,
            r.name@ == name@,
            final(ids).next == old(ids).next + 1,
    {
        Ident { id: new_node_id(ids), name: name.to_owned() }
    }
}

/// The root: a list of global declarations.
#[derive(Debug)]
pub struct Program {
    pub decls: Vec<Box<Decl>>,
}

/// A variable with its initializer. Its name carries its id.
#[derive(Debug)]
pub struct VarDecl {
    pub name: Ident,
    pub init: Box<Exp>,
}

/// A function with its parameters and body. Its name carries its id.
#[derive(Debug)]
pub struct FuncDecl {
    pub name: Ident,
    pub args: Vec<Ident>,
    pub code: Box<Stmt>,
}

#[derive(Debug)]
pub enum Decl {
    Var(VarDecl),
    Func(FuncDecl),
}

impl Decl {
    pub fn new_var(vd: VarDecl) -> (r: Box<Self>)
        ensures
            *r == Decl::Var(vd),
    {
        Box::new(Decl::Var(vd))
    }

    pub fn new_func(fd: FuncDecl) -> (r: Box<Self>)
        ensures
            *r == Decl::Func(fd),
    {
        Box::new(Decl::Func(fd))
    }
}

#[derive(Debug)]
pub enum StmtKind {
    Block(Vec<Box<Stmt>>),
    Exp(Box<Exp>),
    Assign { dst: Box<Exp>, src: Box<Exp> },
    Let(VarDecl),
}

#[derive(Debug)]
pub struct Stmt {
    pub id: usize,
    pub kind: StmtKind,
}

impl Stmt {
    /// A statement node with a fresh id.
    pub fn new(ids: &mut NodeIds, kind: StmtKind) -> (r: Box<Self>)
        requires
            old(ids).next < usize::MAX,
        ensures
            r.id == old(ids).next,
            r.kind == kind,
            final(ids).next == old(ids).next + 1,
    {
        Box::new(Stmt { id: new_node_id(ids), kind })
    }
}

#[derive(Debug)]
pub enum ExpKind {
    Id(Ident),
    IntLit(i64),
    Call { callee: Box<Exp>, args: Vec<Box<Exp>> },
}

#[derive(Debug)]
pub struct Exp {
    pub id: usize,
    pub kind: ExpKind,
}

impl Exp {
    /// An expression node with a fresh id.
    pub fn new(ids: &mut NodeIds, kind: ExpKind) -> (r: Box<Self>)
        requires
            old(ids).next < usize::MAX,
        ensures
            r.id == old(ids).next,
            r.kind == kind,
            final(ids).next == old(ids).next + 1,
    {
        Box::new(Exp { id: new_node_id(ids), kind })
    }
}

} // verus!
