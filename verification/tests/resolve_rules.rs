//! Scenario tests for the pass-wide rules: determinism, full coverage,
//! shadowing, hoisting and mutual recursion, scope discipline, and the
//! format-string scan.

use nameres::ast::{AssignTarget, BinOp, Expr, FunctionDecl, Param, Pos, Program, Stmt, Ty};
use nameres::fixtures;
use nameres::resolver::{resolve_program, BindRes, Diagnostic};
use nameres::scope::SymKind;

fn var(name: &str, pos: Pos) -> Expr {
    Expr::Var { name: name.to_string(), pos }
}

fn int_lit(value: u64, pos: Pos) -> Expr {
    Expr::IntLit { value, pos }
}

fn bin(op: BinOp, lhs: Expr, rhs: Expr) -> Expr {
    Expr::Binary { op, lhs: Box::new(lhs), rhs: Box::new(rhs) }
}

fn call(callee: &str, pos: Pos, args: Vec<Expr>) -> Expr {
    Expr::Call { callee: callee.to_string(), pos, args }
}

fn let_stmt(name: &str, pos: Pos, mutable: bool, init: Expr) -> Stmt {
    Stmt::Let { name: name.to_string(), pos, ty: Ty::Int, mutable, init }
}

fn print_stmt(format: &str, pos: Pos, args: Vec<Expr>) -> Stmt {
    Stmt::Print { format: format.to_string(), pos, args }
}

fn param(name: &str, pos: Pos) -> Param {
    Param { name: name.to_string(), pos, ty: Ty::Int, mutable: false }
}

fn fun(name: &str, pos: Pos, params: Vec<Param>, body: Vec<Stmt>) -> FunctionDecl {
    FunctionDecl { name: name.to_string(), pos, params, ret: Ty::Unit, body }
}

fn prog(funcs: Vec<FunctionDecl>) -> Program {
    Program { funcs }
}

fn undeclared(name: &str, pos: Pos) -> Diagnostic {
    Diagnostic::UndeclaredIdentifier { name: name.to_string(), pos }
}

fn redecl(name: &str, first_pos: Pos, second_pos: Pos) -> Diagnostic {
    Diagnostic::RedeclarationInSameScope { name: name.to_string(), first_pos, second_pos }
}

#[test]
fn resolution_is_deterministic() {
    // Two runs over the same AST yield identical outputs, byte for byte.
    for p in [fixtures::foo(), fixtures::fib(), fixtures::test_for_loop()] {
        let r1 = resolve_program(&p);
        let r2 = resolve_program(&p);
        assert_eq!(r1.diags, r2.diags);
        assert_eq!(r1.bindings, r2.bindings);
        assert_eq!(r1.symbols, r2.symbols);
    }
}

#[test]
fn zero_diagnostics_means_full_coverage() {
    for p in [
        fixtures::foo(),
        fixtures::test_params(),
        fixtures::test_println(),
        fixtures::fib(),
    ] {
        let r = resolve_program(&p);
        assert!(r.diags.is_empty());
        assert!(r.bindings.iter().all(|b| matches!(b.res, BindRes::Resolved(_))));
    }
}

#[test]
fn shadowing_in_inner_scope_is_legal_and_binds_inner() {
    // let x = 1; for i in arr { let x = 2; let y = x; }
    let p = prog(vec![fun(
        "shad",
        1,
        Vec::new(),
        vec![
            let_stmt("x", 2, false, int_lit(1, 2)),
            let_stmt("arr", 3, false, int_lit(0, 3)),
            Stmt::For {
                var: "i".to_string(),
                var_pos: 4,
                range: var("arr", 4),
                body: vec![
                    let_stmt("x", 5, false, int_lit(2, 5)),
                    let_stmt("y", 6, false, var("x", 6)),
                ],
            },
        ],
    )]);
    let r = resolve_program(&p);
    assert_eq!(r.diags, Vec::new());
    // The use of x inside the loop binds to the inner x (declared at line 5),
    // not the outer one (line 2).
    let b = r.bindings.iter().find(|b| b.name == "x" && b.pos == 6).unwrap();
    match b.res {
        BindRes::Resolved(sym) => {
            assert_eq!(r.symbols[sym].pos, 5);
            assert_eq!(r.symbols[sym].kind, SymKind::Variable);
        },
        BindRes::Unresolved => panic!("x should be bound"),
    }
    // The outer x is untouched: both symbols exist.
    assert_eq!(r.symbols.iter().filter(|s| s.name == "x").count(), 2);
}

#[test]
fn mutual_recursion_resolves() {
    // even calls odd, odd calls even: both declared before any body runs.
    let p = prog(vec![
        fun(
            "even",
            1,
            vec![param("n", 1)],
            vec![Stmt::Return {
                result: Some(call("odd", 2, vec![bin(BinOp::Sub, var("n", 2), int_lit(1, 2))])),
            }],
        ),
        fun(
            "odd",
            4,
            vec![param("n", 4)],
            vec![Stmt::Return {
                result: Some(call("even", 5, vec![bin(BinOp::Sub, var("n", 5), int_lit(1, 5))])),
            }],
        ),
    ]);
    let r = resolve_program(&p);
    assert_eq!(r.diags, Vec::new());
    assert!(r.bindings.iter().all(|b| matches!(b.res, BindRes::Resolved(_))));
}

#[test]
fn forward_reference_resolves() {
    // first() calls second(), declared later in the module.
    let p = prog(vec![
        fun(
            "first",
            1,
            Vec::new(),
            vec![Stmt::ExprStmt { expr: call("second", 2, Vec::new()) }],
        ),
        fun("second", 4, Vec::new(), vec![Stmt::Return { result: None }]),
    ]);
    let r = resolve_program(&p);
    assert_eq!(r.diags, Vec::new());
}

#[test]
fn declared_function_names_never_reported_undeclared() {
    // Even in a program with other errors, no diagnostic ever reports a
    // top-level function's name as undeclared: hoisting makes every one
    // visible from every body.
    let p = prog(vec![
        fun(
            "alpha",
            1,
            Vec::new(),
            vec![
                Stmt::ExprStmt { expr: call("beta", 2, Vec::new()) },
                let_stmt("a", 3, false, var("zz", 3)),
            ],
        ),
        fun(
            "beta",
            5,
            Vec::new(),
            vec![Stmt::ExprStmt { expr: call("alpha", 6, Vec::new()) }],
        ),
    ]);
    let r = resolve_program(&p);
    assert_eq!(r.diags, vec![undeclared("zz", 3)]);
}

#[test]
fn duplicate_function_names_report_redeclaration() {
    let p = prog(vec![
        fun("twice", 1, Vec::new(), Vec::new()),
        fun("twice", 3, Vec::new(), Vec::new()),
    ]);
    let r = resolve_program(&p);
    assert_eq!(r.diags, vec![redecl("twice", 1, 3)]);
}

#[test]
fn duplicate_parameter_names_report_redeclaration() {
    let p = prog(vec![fun("g", 1, vec![param("a", 1), param("a", 1)], Vec::new())]);
    let r = resolve_program(&p);
    assert_eq!(r.diags, vec![redecl("a", 1, 1)]);
}

#[test]
fn let_shadowing_parameter_is_same_scope_redeclaration() {
    // Parameters pre-populate the function scope and the body extends the
    // same scope, so `let a` after parameter `a` clashes.
    let p = prog(vec![fun(
        "h",
        1,
        vec![param("a", 1)],
        vec![let_stmt("a", 2, false, int_lit(1, 2))],
    )]);
    let r = resolve_program(&p);
    assert_eq!(r.diags, vec![redecl("a", 1, 2)]);
}

#[test]
fn let_of_induction_variable_in_body_is_redeclaration() {
    // The loop body extends the loop scope itself, whose first symbol is
    // the induction variable: `let i` inside the body is a redeclaration in
    // the same scope, not a shadow.
    let p = prog(vec![fun(
        "redo",
        1,
        Vec::new(),
        vec![
            let_stmt("arr", 2, false, int_lit(0, 2)),
            Stmt::For {
                var: "i".to_string(),
                var_pos: 3,
                range: var("arr", 3),
                body: vec![let_stmt("i", 4, false, int_lit(1, 4))],
            },
        ],
    )]);
    let r = resolve_program(&p);
    assert_eq!(r.diags, vec![redecl("i", 3, 4)]);
}

#[test]
fn loop_range_cannot_see_induction_variable() {
    // for i in i { }: the range is resolved in the enclosing scope, where i
    // is not yet declared.
    let p = prog(vec![fun(
        "loop_header",
        1,
        Vec::new(),
        vec![Stmt::For { var: "i".to_string(), var_pos: 2, range: var("i", 2), body: Vec::new() }],
    )]);
    let r = resolve_program(&p);
    assert_eq!(r.diags, vec![undeclared("i", 2)]);
}

#[test]
fn assignment_to_undeclared_name_is_reported() {
    let p = prog(vec![fun(
        "w",
        1,
        Vec::new(),
        vec![Stmt::Assign {
            target: AssignTarget::Name { name: "q".to_string(), pos: 2 },
            value: int_lit(5, 2),
        }],
    )]);
    let r = resolve_program(&p);
    assert_eq!(r.diags, vec![undeclared("q", 2)]);
}

#[test]
fn slice_assign_target_undef_bounds_report_base_policy() {
    // name[start..end] = v with name declared but start undeclared: the
    // bound is an ordinary use and is reported.
    let p = prog(vec![fun(
        "sl",
        1,
        Vec::new(),
        vec![
            let_stmt("s", 2, true, int_lit(0, 2)),
            Stmt::Assign {
                target: AssignTarget::Slice {
                    name: "s".to_string(),
                    pos: 3,
                    start: Box::new(var("lo", 3)),
                    end: Box::new(int_lit(2, 3)),
                },
                value: int_lit(0, 3),
            },
        ],
    )]);
    let r = resolve_program(&p);
    assert_eq!(r.diags, vec![undeclared("lo", 3)]);
}

#[test]
fn empty_placeholder_is_positional() {
    // "{}" names nothing, so nothing is looked up.
    let p = prog(vec![fun(
        "pr",
        1,
        Vec::new(),
        vec![print_stmt("{}", 2, vec![int_lit(1, 2)])],
    )]);
    let r = resolve_program(&p);
    assert_eq!(r.diags, Vec::new());
    assert_eq!(r.bindings.len(), 0);
}

#[test]
fn undeclared_placeholder_is_reported() {
    let p = prog(vec![fun(
        "pr2",
        1,
        Vec::new(),
        vec![print_stmt("hi {nope}!", 2, Vec::new())],
    )]);
    let r = resolve_program(&p);
    assert_eq!(r.diags, vec![undeclared("nope", 2)]);
}

#[test]
fn unterminated_placeholder_ends_scan() {
    let p = prog(vec![fun(
        "pr3",
        1,
        Vec::new(),
        vec![print_stmt("oops {unclosed", 2, Vec::new())],
    )]);
    let r = resolve_program(&p);
    assert_eq!(r.diags, Vec::new());
    assert_eq!(r.bindings.len(), 0);
}

#[test]
fn two_placeholders_resolve_in_order() {
    let p = prog(vec![fun(
        "pr4",
        1,
        Vec::new(),
        vec![
            let_stmt("a", 2, false, int_lit(1, 2)),
            let_stmt("b", 3, false, int_lit(2, 3)),
            print_stmt("{a} and {b}", 4, Vec::new()),
        ],
    )]);
    let r = resolve_program(&p);
    assert_eq!(r.diags, Vec::new());
    let ph: Vec<&str> = r
        .bindings
        .iter()
        .filter(|b| b.pos == 4)
        .map(|b| b.name.as_str())
        .collect();
    assert_eq!(ph, vec!["a", "b"]);
}

#[test]
fn empty_program_resolves_to_nothing() {
    let r = resolve_program(&prog(Vec::new()));
    assert!(r.diags.is_empty());
    assert!(r.bindings.is_empty());
    assert!(r.symbols.is_empty());
}

#[test]
fn diagnostics_follow_source_order() {
    // Two errors in one body arrive in traversal order.
    let p = prog(vec![fun(
        "ord",
        1,
        Vec::new(),
        vec![
            let_stmt("a", 2, false, var("missing1", 2)),
            let_stmt("b", 3, false, var("missing2", 3)),
        ],
    )]);
    let r = resolve_program(&p);
    assert_eq!(r.diags, vec![undeclared("missing1", 2), undeclared("missing2", 3)]);
}

#[test]
fn error_recovery_continues_the_walk() {
    // The sentinel lets later uses of healthy names still resolve.
    let p = prog(vec![fun(
        "rec",
        1,
        Vec::new(),
        vec![
            let_stmt("a", 2, false, var("ghost", 2)),
            let_stmt("b", 3, false, var("a", 3)),
        ],
    )]);
    let r = resolve_program(&p);
    assert_eq!(r.diags, vec![undeclared("ghost", 2)]);
    let b = r.bindings.iter().find(|b| b.name == "a" && b.pos == 3).unwrap();
    assert!(matches!(b.res, BindRes::Resolved(_)));
    let g = r.bindings.iter().find(|b| b.name == "ghost").unwrap();
    assert_eq!(g.res, BindRes::Unresolved);
}

#[test]
fn symbols_record_kind_and_mutability() {
    let p = prog(vec![fun(
        "sym",
        1,
        vec![param("p0", 1)],
        vec![
            let_stmt("m", 2, true, int_lit(1, 2)),
            Stmt::For {
                var: "i".to_string(),
                var_pos: 3,
                range: var("m", 3),
                body: Vec::new(),
            },
        ],
    )]);
    let r = resolve_program(&p);
    assert_eq!(r.diags, Vec::new());
    let f = r.symbols.iter().find(|s| s.name == "sym").unwrap();
    assert_eq!(f.kind, SymKind::Function);
    let p0 = r.symbols.iter().find(|s| s.name == "p0").unwrap();
    assert_eq!(p0.kind, SymKind::Parameter);
    assert!(!p0.mutable);
    let m = r.symbols.iter().find(|s| s.name == "m").unwrap();
    assert_eq!(m.kind, SymKind::Variable);
    assert!(m.mutable);
    let i = r.symbols.iter().find(|s| s.name == "i").unwrap();
    assert_eq!(i.kind, SymKind::LoopVar);
    assert!(!i.mutable);
}
