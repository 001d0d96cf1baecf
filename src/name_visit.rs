//! The scope-walking visitor of a program tree.
//!
//! The visitor decides what is reported, and in which order: first every
//! global name (these would enter the global scope), then the inside of each
//! declaration, with the scopes that functions and blocks open and the uses
//! of names (where resolution would happen). It hands back the reports as a
//! list of events; showing them is left to the caller.

use vstd::prelude::*;
use crate::names_ast::{Decl, Exp, ExpKind, FuncDecl, Ident, Program, Stmt, StmtKind, VarDecl};

verus! {

/// One report of the visitor. `depth` is the number of scopes that enclose
/// the reported item, for indentation.
#[derive(Debug, PartialEq)]
pub enum VisitEvent {
    /// Start of the listing of global names.
    ListGlobals,
    /// A global variable is declared.
    GlobalVar { name: String, id: usize },
    /// A function is declared.
    Function { name: String, id: usize },
    /// Start of the visit of declarations' insides.
    VisitBodies,
    /// The initializer of a global variable is about to be visited.
    BeginInitializer { name: String },
    /// The initializer of a global variable has been visited.
    EndInitializer,
    /// A function's scope opens.
    BeginFunctionScope { name: String, id: usize },
    /// A function parameter is declared in the function's scope.
    Argument { name: String, id: usize },
    /// A function's scope closes.
    EndFunctionScope { name: String },
    /// A block statement's scope opens.
    BeginBlock { depth: usize },
    /// A block statement's scope closes.
    EndBlock { depth: usize },
    /// A local variable is declared; its initializer is visited next.
    LocalVar { depth: usize, name: String, id: usize },
    /// A name is used by the expression node `node`.
    Use { depth: usize, name: String, node: usize },
}

/// The depth of the scope nested in one of depth `d`; it stops growing at
/// the largest `usize`.
pub open spec fn inner(d: usize) -> usize {
    if d < usize::MAX {
        (d + 1) as usize
    } else {
        d
    }
}

/// What visiting expression `e` at depth `depth` reports: each use of a
/// name, left to right.
pub open spec fn exp_events(e: Exp, depth: usize) -> Seq<VisitEvent>
    decreases e, 0int,
{
    match e.kind {
        ExpKind::Id(ident) => seq![VisitEvent::Use { depth, name: ident.name, node: e.id }],
        ExpKind::IntLit(_) => seq![],
        ExpKind::Call { callee, args } => exp_events(*callee, depth) + exps_events(args@, 0, depth),
    }
}

/// What visiting the expressions `es[i..]` in order reports.
pub open spec fn exps_events(es: Seq<Box<Exp>>, i: int, depth: usize) -> Seq<VisitEvent>
    decreases es, es.len() - i,
{
    if 0 <= i < es.len() {
        exp_events(*es[i], depth) + exps_events(es, i + 1, depth)
    } else {
        seq![]
    }
}

/// What visiting statement `s` at depth `depth` reports.
pub open spec fn stmt_events(s: Stmt, depth: usize) -> Seq<VisitEvent>
    decreases s, 0int,
{
    match s.kind {
        StmtKind::Block(stmts) => seq![VisitEvent::BeginBlock { depth }] + stmts_events(
            stmts@,
            0,
            inner(depth),
        ) + seq![VisitEvent::EndBlock { depth }],
        StmtKind::Exp(e) => exp_events(*e, depth),
        StmtKind::Assign { dst, src } => exp_events(*dst, depth) + exp_events(*src, depth),
        StmtKind::Let(vd) => seq![VisitEvent::LocalVar { depth, name: vd.name.name, id: vd.name.id }]
            + exp_events(*vd.init, inner(depth)),
    }
}

/// What visiting the statements `ss[i..]` in order reports.
pub open spec fn stmts_events(ss: Seq<Box<Stmt>>, i: int, depth: usize) -> Seq<VisitEvent>
    decreases ss, ss.len() - i,
{
    if 0 <= i < ss.len() {
        stmt_events(*ss[i], depth) + stmts_events(ss, i + 1, depth)
    } else {
        seq![]
    }
}

/// What listing declaration `d` among the globals reports.
pub open spec fn listing_event(d: Decl) -> VisitEvent {
    match d {
        Decl::Var(vd) => VisitEvent::GlobalVar { name: vd.name.name, id: vd.name.id },
        Decl::Func(fd) => VisitEvent::Function { name: fd.name.name, id: fd.name.id },
    }
}

/// What visiting the initializer of global variable `vd` reports.
pub open spec fn global_var_events(vd: VarDecl) -> Seq<VisitEvent> {
    seq![VisitEvent::BeginInitializer { name: vd.name.name }] + exp_events(*vd.init, 1)
        + seq![VisitEvent::EndInitializer]
}

/// What visiting function `fd` reports: its scope, its parameters, then
/// its body one scope in.
pub open spec fn func_events(fd: FuncDecl) -> Seq<VisitEvent> {
    seq![VisitEvent::BeginFunctionScope { name: fd.name.name, id: fd.name.id }] + fd.args@.map_values(
        |a: Ident| VisitEvent::Argument { name: a.name, id: a.id },
    ) + stmt_events(*fd.code, 1) + seq![VisitEvent::EndFunctionScope { name: fd.name.name }]
}

/// What visiting the inside of declaration `d` reports.
pub open spec fn decl_events(d: Decl) -> Seq<VisitEvent> {
    match d {
        Decl::Var(vd) => global_var_events(vd),
        Decl::Func(fd) => func_events(fd),
    }
}

/// What visiting the insides of the declarations `ds[i..]` reports.
pub open spec fn decls_events(ds: Seq<Box<Decl>>, i: int) -> Seq<VisitEvent>
    decreases ds.len() - i,
{
    if 0 <= i < ds.len() {
        decl_events(*ds[i]) + decls_events(ds, i + 1)
    } else {
        seq![]
    }
}

/// What visiting program `p` reports: the listing of its globals, then the
/// insides of its declarations.
pub open spec fn program_events(p: Program) -> Seq<VisitEvent> {
    seq![VisitEvent::ListGlobals] + p.decls@.map_values(|d: Box<Decl>| listing_event(*d)) + seq![
        VisitEvent::VisitBodies,
    ] + decls_events(p.decls@, 0)
}

/// Walks a program tree and reports what name resolution would see.
pub struct ScopeVisitor;

impl ScopeVisitor {
    /// Every report of a visit of `prog`, in order.
    pub fn visit_program(&self, prog: &Program) -> (r: Vec<VisitEvent>)
        ensures
            r@ == program_events(*prog),
    {
        let mut out: Vec<VisitEvent> = Vec::new();
        out.push(VisitEvent::ListGlobals);
        let n = prog.decls.len();
        let mut i: usize = 0;
        while i < n
            invariant
                n == prog.decls@.len(),
                i <= n,
                out@ == seq![VisitEvent::ListGlobals] + prog.decls@.subrange(0, i as int).map_values(
                    |d: Box<Decl>| listing_event(*d),
                ),
            decreases n - i,
        {
            let ev = match &*prog.decls[i] {
                Decl::Var(vd) => VisitEvent::GlobalVar { name: vd.name.name.clone(), id: vd.name.id },
                Decl::Func(fd) => VisitEvent::Function { name: fd.name.name.clone(), id: fd.name.id },
            };
            out.push(ev);
            i = i + 1;
            assert(prog.decls@.subrange(0, i as int) =~= prog.decls@.subrange(0, i - 1).push(
                prog.decls@[i - 1],
            ));
            assert(out@ =~= seq![VisitEvent::ListGlobals] + prog.decls@.subrange(0, i as int).map_values(
                |d: Box<Decl>| listing_event(*d),
            ));
        }
        assert(prog.decls@.subrange(0, n as int) =~= prog.decls@);
        out.push(VisitEvent::VisitBodies);
        let ghost head = out@;
        let mut j: usize = 0;
        while j < n
            invariant
                n == prog.decls@.len(),
                j <= n,
                out@ + decls_events(prog.decls@, j as int) == head + decls_events(prog.decls@, 0),
            decreases n - j,
        {
            let ghost before = out@;
            match &*prog.decls[j] {
                Decl::Var(vd) => self.visit_global_var_decl(vd, &mut out),
                Decl::Func(fd) => self.visit_func_decl(fd, &mut out),
            }
            assert(out@ + decls_events(prog.decls@, j + 1) =~= before + decls_events(prog.decls@, j as int));
            j = j + 1;
        }
        assert(out@ =~= program_events(*prog));
        out
    }

    /// Reports the visit of a global variable's initializer; its name was
    /// listed already.
    pub fn visit_global_var_decl(&self, vd: &VarDecl, out: &mut Vec<VisitEvent>)
        ensures
            final(out)@ == old(out)@ + global_var_events(*vd),
    {
        out.push(VisitEvent::BeginInitializer { name: vd.name.name.clone() });
        self.visit_exp(&vd.init, 1, out);
        out.push(VisitEvent::EndInitializer);
        assert(out@ =~= old(out)@ + global_var_events(*vd));
    }

    /// Reports the visit of a function: its scope, its parameters and its
    /// body.
    pub fn visit_func_decl(&self, fd: &FuncDecl, out: &mut Vec<VisitEvent>)
        ensures
            final(out)@ == old(out)@ + func_events(*fd),
    {
        out.push(VisitEvent::BeginFunctionScope { name: fd.name.name.clone(), id: fd.name.id });
        let ghost head = out@;
        let n = fd.args.len();
        let mut i: usize = 0;
        while i < n
            invariant
                n == fd.args@.len(),
                i <= n,
                out@ == head + fd.args@.subrange(0, i as int).map_values(
                    |a: Ident| VisitEvent::Argument { name: a.name, id: a.id },
                ),
            decreases n - i,
        {
            let arg = &fd.args[i];
            out.push(VisitEvent::Argument { name: arg.name.clone(), id: arg.id });
            i = i + 1;
            assert(fd.args@.subrange(0, i as int) =~= fd.args@.subrange(0, i - 1).push(fd.args@[i - 1]));
            assert(out@ =~= head + fd.args@.subrange(0, i as int).map_values(
                |a: Ident| VisitEvent::Argument { name: a.name, id: a.id },
            ));
        }
        assert(fd.args@.subrange(0, n as int) =~= fd.args@);
        self.visit_stmt(&fd.code, 1, out);
        out.push(VisitEvent::EndFunctionScope { name: fd.name.name.clone() });
        assert(out@ =~= old(out)@ + func_events(*fd));
    }

    /// Reports each use of a name in `exp`, left to right.
    pub fn visit_exp(&self, exp: &Box<Exp>, scope_depth: usize, out: &mut Vec<VisitEvent>)
        ensures
            final(out)@ == old(out)@ + exp_events(**exp, scope_depth),
        decreases **exp, 0int,
    {
        match &exp.kind {
            ExpKind::Id(ident) => {
                out.push(VisitEvent::Use { depth: scope_depth, name: ident.name.clone(), node: exp.id });
            },
            ExpKind::IntLit(..) => {},
            ExpKind::Call { callee, args } => {
                self.visit_exp(callee, scope_depth, out);
                let ghost head = out@;
                let n = args.len();
                let mut i: usize = 0;
                while i < n
                    invariant
                        n == args@.len(),
                        i <= n,
                        exp.kind matches ExpKind::Call { args: a, .. } && a == *args,
                        out@ + exps_events(args@, i as int, scope_depth) == head + exps_events(
                            args@,
                            0,
                            scope_depth,
                        ),
                    decreases n - i,
                {
                    let ghost before = out@;
                    proof {
                        assert(decreases_to!(args => args[i as int]));
                    }
                    self.visit_exp(&args[i], scope_depth, out);
                    assert(out@ + exps_events(args@, i + 1, scope_depth) =~= before + exps_events(
                        args@,
                        i as int,
                        scope_depth,
                    ));
                    i = i + 1;
                }
            },
        }
        assert(out@ =~= old(out)@ + exp_events(**exp, scope_depth));
    }

    /// Reports the visit of `stmt`: the scopes that blocks open, local
    /// declarations and the uses of names.
    pub fn visit_stmt(&self, stmt: &Box<Stmt>, scope_depth: usize, out: &mut Vec<VisitEvent>)
        ensures
            final(out)@ == old(out)@ + stmt_events(**stmt, scope_depth),
        decreases **stmt, 0int,
    {
        match &stmt.kind {
            StmtKind::Block(stmts) => {
                out.push(VisitEvent::BeginBlock { depth: scope_depth });
                let depth = scope_depth.saturating_add(1);
                let ghost head = out@;
                let n = stmts.len();
                let mut i: usize = 0;
                while i < n
                    invariant
                        n == stmts@.len(),
                        i <= n,
                        stmt.kind matches StmtKind::Block(b) && b == *stmts,
                        depth == inner(scope_depth),
                        out@ + stmts_events(stmts@, i as int, depth) == head + stmts_events(
                            stmts@,
                            0,
                            depth,
                        ),
                    decreases n - i,
                {
                    let ghost before = out@;
                    proof {
                        assert(decreases_to!(stmts => stmts[i as int]));
                    }
                    self.visit_stmt(&stmts[i], depth, out);
                    assert(out@ + stmts_events(stmts@, i + 1, depth) =~= before + stmts_events(
                        stmts@,
                        i as int,
                        depth,
                    ));
                    i = i + 1;
                }
                out.push(VisitEvent::EndBlock { depth: scope_depth });
            },
            StmtKind::Exp(e) => {
                self.visit_exp(e, scope_depth, out);
            },
            StmtKind::Assign { dst, src } => {
                self.visit_exp(dst, scope_depth, out);
                self.visit_exp(src, scope_depth, out);
            },
            StmtKind::Let(vd) => {
                out.push(
                    VisitEvent::LocalVar { depth: scope_depth, name: vd.name.name.clone(), id: vd.name.id },
                );
                self.visit_exp(&vd.init, scope_depth.saturating_add(1), out);
            },
        }
        assert(out@ =~= old(out)@ + stmt_events(**stmt, scope_depth));
    }
}

} // verus!
