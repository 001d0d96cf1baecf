use expr_parsing::name_visit::{ScopeVisitor, VisitEvent};
use expr_parsing::names_ast::{
    new_node_id, Decl, Exp, ExpKind, FuncDecl, Ident, NodeIds, Program, Stmt, StmtKind, VarDecl,
};

fn name(s: &str) -> String {
    s.to_string()
}

#[test]
fn node_ids_count_up_from_one() {
    let mut ids = NodeIds::new();
    assert_eq!(new_node_id(&mut ids), 1);
    assert_eq!(new_node_id(&mut ids), 2);
    let x = Ident::new(&mut ids, "x");
    assert_eq!(x.id, 3);
    assert_eq!(x.name, "x");
    let e = Exp::new(&mut ids, ExpKind::IntLit(5));
    assert_eq!(e.id, 4);
    let s = Stmt::new(&mut ids, StmtKind::Exp(e));
    assert_eq!(s.id, 5);
    assert_eq!(ids.next, 6);
}

#[test]
fn visit_reports_globals_then_bodies() {
    let mut ids = NodeIds::new();
    // let g = 10;
    let g = Ident::new(&mut ids, "g");
    let init = Exp::new(&mut ids, ExpKind::IntLit(10));
    let g_decl = Decl::new_var(VarDecl { name: g, init });
    // fn f(a) { let l = a; { h(l, 2); } }
    let f = Ident::new(&mut ids, "f");
    let a = Ident::new(&mut ids, "a");
    let l = Ident::new(&mut ids, "l");
    let a_use = Ident::new(&mut ids, "a");
    let a_exp = Exp::new(&mut ids, ExpKind::Id(a_use));
    let let_l = Stmt::new(&mut ids, StmtKind::Let(VarDecl { name: l, init: a_exp }));
    let h = Ident::new(&mut ids, "h");
    let h_exp = Exp::new(&mut ids, ExpKind::Id(h));
    let l_use = Ident::new(&mut ids, "l");
    let l_exp = Exp::new(&mut ids, ExpKind::Id(l_use));
    let two = Exp::new(&mut ids, ExpKind::IntLit(2));
    let call = Exp::new(&mut ids, ExpKind::Call { callee: h_exp, args: vec![l_exp, two] });
    let call_stmt = Stmt::new(&mut ids, StmtKind::Exp(call));
    let inner = Stmt::new(&mut ids, StmtKind::Block(vec![call_stmt]));
    let body = Stmt::new(&mut ids, StmtKind::Block(vec![let_l, inner]));
    let f_decl = Decl::new_func(FuncDecl { name: f, args: vec![a], code: body });
    // let k = g;
    let k = Ident::new(&mut ids, "k");
    let g_use = Ident::new(&mut ids, "g");
    let g_exp = Exp::new(&mut ids, ExpKind::Id(g_use));
    let k_decl = Decl::new_var(VarDecl { name: k, init: g_exp });

    let prog = Program { decls: vec![g_decl, f_decl, k_decl] };
    let events = ScopeVisitor.visit_program(&prog);
    let expected = vec![
        VisitEvent::ListGlobals,
        VisitEvent::GlobalVar { name: name("g"), id: 1 },
        VisitEvent::Function { name: name("f"), id: 3 },
        VisitEvent::GlobalVar { name: name("k"), id: 18 },
        VisitEvent::VisitBodies,
        VisitEvent::BeginInitializer { name: name("g") },
        VisitEvent::EndInitializer,
        VisitEvent::BeginFunctionScope { name: name("f"), id: 3 },
        VisitEvent::Argument { name: name("a"), id: 4 },
        VisitEvent::BeginBlock { depth: 1 },
        VisitEvent::LocalVar { depth: 2, name: name("l"), id: 5 },
        VisitEvent::Use { depth: 3, name: name("a"), node: 7 },
        VisitEvent::BeginBlock { depth: 2 },
        VisitEvent::Use { depth: 3, name: name("h"), node: 10 },
        VisitEvent::Use { depth: 3, name: name("l"), node: 12 },
        VisitEvent::EndBlock { depth: 2 },
        VisitEvent::EndBlock { depth: 1 },
        VisitEvent::EndFunctionScope { name: name("f") },
        VisitEvent::BeginInitializer { name: name("k") },
        VisitEvent::Use { depth: 1, name: name("g"), node: 20 },
        VisitEvent::EndInitializer,
    ];
    assert_eq!(events, expected);
}

#[test]
fn assignment_visits_both_sides() {
    let mut ids = NodeIds::new();
    let d = Ident::new(&mut ids, "dst");
    let dst = Exp::new(&mut ids, ExpKind::Id(d));
    let s = Ident::new(&mut ids, "src");
    let src = Exp::new(&mut ids, ExpKind::Id(s));
    let stmt = Stmt::new(&mut ids, StmtKind::Assign { dst, src });
    let mut out = Vec::new();
    ScopeVisitor.visit_stmt(&stmt, 4, &mut out);
    assert_eq!(
        out,
        vec![
            VisitEvent::Use { depth: 4, name: name("dst"), node: 2 },
            VisitEvent::Use { depth: 4, name: name("src"), node: 4 },
        ]
    );
}

#[test]
fn empty_program_reports_only_the_two_passes() {
    let prog = Program { decls: vec![] };
    assert_eq!(
        ScopeVisitor.visit_program(&prog),
        vec![VisitEvent::ListGlobals, VisitEvent::VisitBodies]
    );
}
