//! The fixture corpus: each function below builds, as an AST, one sample
//! program of the toy language that exercises one binding rule — a valid
//! call, a call to an undeclared function, a redeclaration, a use before the
//! declaration, loop-scope leakage, subscripts and slices with declared and
//! undeclared bases and indices, and format-string interpolation.
//!
//! Each constructor's contract pins the sample statement by statement, down
//! to every identifier occurrence, position, mutability flag and format
//! string, through the shape predicates and accessors below — so the
//! contract alone fixes the binding behaviour the sample encodes.  Positions
//! are line numbers within the sample, counted from 1 at the function
//! header.  The tests run `resolve_program` over these programs and check
//! the exact diagnostics each sample is meant to produce.

use vstd::prelude::*;
use crate::ast::{AssignTarget, BinOp, Expr, FunctionDecl, Param, Pos, Program, Stmt, Ty};
use vstd::string::StringExecFns;

verus! {

// --- Shape predicates and accessors over the AST ------------------------
//
// These say what a node is, field by field, as far as resolution reads it:
// names, positions, mutability, structure and format strings.  The declared
// types and the operator of a binary node never matter to binding, and the
// accessors return a harmless literal outside their variant.

pub open spec fn is_var_expr(e: Expr, name: Seq<char>, pos: Pos) -> bool {
    e matches Expr::Var { name: n, pos: q } && n@ == name && q == pos
}

pub open spec fn is_int_expr(e: Expr, value: u64, pos: Pos) -> bool {
    e matches Expr::IntLit { value: v, pos: q } && v == value && q == pos
}

pub open spec fn is_str_expr(e: Expr, pos: Pos) -> bool {
    e matches Expr::StrLit { pos: q, .. } && q == pos
}

pub open spec fn is_bin_expr(e: Expr) -> bool {
    e matches Expr::Binary { .. }
}

pub open spec fn bin_lhs(e: Expr) -> Expr {
    match e {
        Expr::Binary { lhs, .. } => *lhs,
        _ => Expr::IntLit { value: 0, pos: 0 },
    }
}

pub open spec fn bin_rhs(e: Expr) -> Expr {
    match e {
        Expr::Binary { rhs, .. } => *rhs,
        _ => Expr::IntLit { value: 0, pos: 0 },
    }
}

pub open spec fn is_call_expr(e: Expr, callee: Seq<char>, pos: Pos) -> bool {
    e matches Expr::Call { callee: c, pos: q, .. } && c@ == callee && q == pos
}

pub open spec fn call_args(e: Expr) -> Seq<Expr> {
    match e {
        Expr::Call { args, .. } => args@,
        _ => Seq::empty(),
    }
}

pub open spec fn is_subscript_expr(e: Expr) -> bool {
    e matches Expr::Subscript { .. }
}

pub open spec fn subscript_base(e: Expr) -> Expr {
    match e {
        Expr::Subscript { base, .. } => *base,
        _ => Expr::IntLit { value: 0, pos: 0 },
    }
}

pub open spec fn subscript_index(e: Expr) -> Expr {
    match e {
        Expr::Subscript { index, .. } => *index,
        _ => Expr::IntLit { value: 0, pos: 0 },
    }
}

pub open spec fn is_slice_expr(e: Expr) -> bool {
    e matches Expr::Slice { .. }
}

pub open spec fn slice_base(e: Expr) -> Expr {
    match e {
        Expr::Slice { base, .. } => *base,
        _ => Expr::IntLit { value: 0, pos: 0 },
    }
}

pub open spec fn slice_start(e: Expr) -> Expr {
    match e {
        Expr::Slice { start, .. } => *start,
        _ => Expr::IntLit { value: 0, pos: 0 },
    }
}

pub open spec fn slice_end(e: Expr) -> Expr {
    match e {
        Expr::Slice { end, .. } => *end,
        _ => Expr::IntLit { value: 0, pos: 0 },
    }
}

pub open spec fn is_array_expr(e: Expr, n: int) -> bool {
    e matches Expr::ArrayLit { elems, .. } && elems@.len() == n
}

pub open spec fn array_elems(e: Expr) -> Seq<Expr> {
    match e {
        Expr::ArrayLit { elems, .. } => elems@,
        _ => Seq::empty(),
    }
}

pub open spec fn is_let_stmt(s: Stmt, name: Seq<char>, pos: Pos, mutable: bool) -> bool {
    s matches Stmt::Let { name: n, pos: q, mutable: m, .. } && n@ == name && q == pos && m
        == mutable
}

pub open spec fn let_init(s: Stmt) -> Expr {
    match s {
        Stmt::Let { init, .. } => init,
        _ => Expr::IntLit { value: 0, pos: 0 },
    }
}

pub open spec fn is_name_assign(s: Stmt, name: Seq<char>, pos: Pos) -> bool {
    s matches Stmt::Assign { target: AssignTarget::Name { name: n, pos: q }, .. } && n@ == name
        && q == pos
}

pub open spec fn is_subscript_assign(s: Stmt, name: Seq<char>, pos: Pos) -> bool {
    s matches Stmt::Assign { target: AssignTarget::Subscript { name: n, pos: q, .. }, .. } && n@
        == name && q == pos
}

pub open spec fn assign_index(s: Stmt) -> Expr {
    match s {
        Stmt::Assign { target: AssignTarget::Subscript { index, .. }, .. } => *index,
        _ => Expr::IntLit { value: 0, pos: 0 },
    }
}

pub open spec fn assign_value(s: Stmt) -> Expr {
    match s {
        Stmt::Assign { value, .. } => value,
        _ => Expr::IntLit { value: 0, pos: 0 },
    }
}

pub open spec fn is_expr_stmt(s: Stmt) -> bool {
    s matches Stmt::ExprStmt { .. }
}

pub open spec fn stmt_expr(s: Stmt) -> Expr {
    match s {
        Stmt::ExprStmt { expr } => expr,
        _ => Expr::IntLit { value: 0, pos: 0 },
    }
}

pub open spec fn is_for_stmt(s: Stmt, var: Seq<char>, var_pos: Pos) -> bool {
    s matches Stmt::For { var: v, var_pos: q, .. } && v@ == var && q == var_pos
}

pub open spec fn for_range(s: Stmt) -> Expr {
    match s {
        Stmt::For { range, .. } => range,
        _ => Expr::IntLit { value: 0, pos: 0 },
    }
}

pub open spec fn for_body(s: Stmt) -> Seq<Stmt> {
    match s {
        Stmt::For { body, .. } => body@,
        _ => Seq::empty(),
    }
}

pub open spec fn is_print_stmt(s: Stmt, format: Seq<char>, pos: Pos) -> bool {
    s matches Stmt::Print { format: f, pos: q, .. } && f@ == format && q == pos
}

pub open spec fn print_args(s: Stmt) -> Seq<Expr> {
    match s {
        Stmt::Print { args, .. } => args@,
        _ => Seq::empty(),
    }
}

pub open spec fn is_ret_none(s: Stmt) -> bool {
    s matches Stmt::Return { result: None }
}

pub open spec fn is_ret_expr(s: Stmt) -> bool {
    s matches Stmt::Return { result: Some(_) }
}

pub open spec fn ret_expr(s: Stmt) -> Expr {
    match s {
        Stmt::Return { result: Some(e) } => e,
        _ => Expr::IntLit { value: 0, pos: 0 },
    }
}

/// A parameter with this name, position and mutability.
pub open spec fn is_param(p: Param, name: Seq<char>, pos: Pos, mutable: bool) -> bool {
    p.name@ == name && p.pos == pos && p.mutable == mutable
}

// --- Builders -----------------------------------------------------------

fn text(t: &str) -> (r: String)
    ensures
        r@ == t@,
{
    String::from_str(t)
}

fn var(name: &str, pos: Pos) -> (e: Expr)
    ensures
        is_var_expr(e, name@, pos),
{
    Expr::Var { name: text(name), pos }
}

fn int_lit(value: u64, pos: Pos) -> (e: Expr)
    ensures
        is_int_expr(e, value, pos),
{
    Expr::IntLit { value, pos }
}

fn str_lit(t: &str, pos: Pos) -> (e: Expr)
    ensures
        is_str_expr(e, pos),
{
    Expr::StrLit { text: text(t), pos }
}

fn bin(op: BinOp, lhs: Expr, rhs: Expr) -> (e: Expr)
    ensures
        is_bin_expr(e),
        bin_lhs(e) == lhs,
        bin_rhs(e) == rhs,
{
    Expr::Binary { op, lhs: Box::new(lhs), rhs: Box::new(rhs) }
}

fn call(callee: &str, pos: Pos, args: Vec<Expr>) -> (e: Expr)
    ensures
        is_call_expr(e, callee@, pos),
        call_args(e) == args@,
{
    Expr::Call { callee: text(callee), pos, args }
}

fn subscript(base: Expr, index: Expr) -> (e: Expr)
    ensures
        is_subscript_expr(e),
        subscript_base(e) == base,
        subscript_index(e) == index,
{
    Expr::Subscript { base: Box::new(base), index: Box::new(index) }
}

fn slice(base: Expr, start: Expr, end: Expr) -> (e: Expr)
    ensures
        is_slice_expr(e),
        slice_base(e) == base,
        slice_start(e) == start,
        slice_end(e) == end,
{
    Expr::Slice { base: Box::new(base), start: Box::new(start), end: Box::new(end) }
}

fn array3(a: u64, b: u64, c: u64, pos: Pos) -> (e: Expr)
    ensures
        is_array_expr(e, 3),
        is_int_expr(array_elems(e)[0], a, pos),
        is_int_expr(array_elems(e)[1], b, pos),
        is_int_expr(array_elems(e)[2], c, pos),
{
    Expr::ArrayLit { elems: vec![int_lit(a, pos), int_lit(b, pos), int_lit(c, pos)], pos }
}

fn let_stmt(name: &str, pos: Pos, ty: Ty, mutable: bool, init: Expr) -> (s: Stmt)
    ensures
        is_let_stmt(s, name@, pos, mutable),
        let_init(s) == init,
{
    Stmt::Let { name: text(name), pos, ty, mutable, init }
}

fn assign_name(name: &str, pos: Pos, value: Expr) -> (s: Stmt)
    ensures
        is_name_assign(s, name@, pos),
        assign_value(s) == value,
{
    Stmt::Assign { target: AssignTarget::Name { name: text(name), pos }, value }
}

fn assign_subscript(name: &str, pos: Pos, index: Expr, value: Expr) -> (s: Stmt)
    ensures
        is_subscript_assign(s, name@, pos),
        assign_index(s) == index,
        assign_value(s) == value,
{
    Stmt::Assign {
        target: AssignTarget::Subscript { name: text(name), pos, index: Box::new(index) },
        value,
    }
}

fn print_stmt(format: &str, pos: Pos, args: Vec<Expr>) -> (s: Stmt)
    ensures
        is_print_stmt(s, format@, pos),
        print_args(s) == args@,
{
    Stmt::Print { format: text(format), pos, args }
}

fn ret_unit() -> (s: Stmt)
    ensures
        is_ret_none(s),
{
    Stmt::Return { result: None }
}

fn ret(e: Expr) -> (s: Stmt)
    ensures
        is_ret_expr(s),
        ret_expr(s) == e,
{
    Stmt::Return { result: Some(e) }
}

fn param(name: &str, pos: Pos, ty: Ty) -> (r: Param)
    ensures
        is_param(r, name@, pos, false),
{
    Param { name: text(name), pos, ty, mutable: false }
}

fn fun(name: &str, pos: Pos, params: Vec<Param>, ret_ty: Ty, body: Vec<Stmt>) -> (r: FunctionDecl)
    ensures
        r.name@ == name@,
        r.pos == pos,
        r.params == params,
        r.ret == ret_ty,
        r.body == body,
{
    FunctionDecl { name: text(name), pos, params, ret: ret_ty, body }
}

// --- The corpus ---------------------------------------------------------

/// A simple function and a valid call: `foo(a, b)` sums its parameters into
/// a local and returns it; `main` calls it with two literals.  Expected:
/// zero diagnostics, with `x`, `a` and `b` all bound.
pub fn foo() -> (p: Program)
    ensures
        p.funcs@.len() == 2,
        p.funcs@[0].name@ == "foo"@,
        p.funcs@[0].params@.len() == 2,
        is_param(p.funcs@[0].params@[0], "a"@, 1, false),
        is_param(p.funcs@[0].params@[1], "b"@, 1, false),
        p.funcs@[0].body@.len() == 2,
        is_let_stmt(p.funcs@[0].body@[0], "x"@, 2, false),
        is_bin_expr(let_init(p.funcs@[0].body@[0])),
        is_var_expr(bin_lhs(let_init(p.funcs@[0].body@[0])), "a"@, 2),
        is_var_expr(bin_rhs(let_init(p.funcs@[0].body@[0])), "b"@, 2),
        is_ret_expr(p.funcs@[0].body@[1]),
        is_var_expr(ret_expr(p.funcs@[0].body@[1]), "x"@, 3),
        p.funcs@[1].name@ == "main"@,
        p.funcs@[1].params@.len() == 0,
        p.funcs@[1].body@.len() == 2,
        is_expr_stmt(p.funcs@[1].body@[0]),
        is_call_expr(stmt_expr(p.funcs@[1].body@[0]), "foo"@, 6),
        call_args(stmt_expr(p.funcs@[1].body@[0])).len() == 2,
        is_int_expr(call_args(stmt_expr(p.funcs@[1].body@[0]))[0], 1, 6),
        is_int_expr(call_args(stmt_expr(p.funcs@[1].body@[0]))[1], 2, 6),
        is_ret_none(p.funcs@[1].body@[1]),
{
    let foo_fn = fun(
        "foo",
        1,
        vec![param("a", 1, Ty::Int), param("b", 1, Ty::Int)],
        Ty::Int,
        vec![
            let_stmt("x", 2, Ty::Int, false, bin(BinOp::Add, var("a", 2), var("b", 2))),
            ret(var("x", 3)),
        ],
    );
    let main_fn = fun(
        "main",
        5,
        Vec::new(),
        Ty::Unit,
        vec![Stmt::ExprStmt { expr: call("foo", 6, vec![int_lit(1, 6), int_lit(2, 6)]) }, ret_unit()],
    );
    Program { funcs: vec![foo_fn, main_fn] }
}

/// A call to a function that is declared nowhere.  Expected: one
/// `UndeclaredIdentifier` for `bar`.
pub fn test_undef_call() -> (p: Program)
    ensures
        p.funcs@.len() == 1,
        p.funcs@[0].name@ == "test_undef_call"@,
        p.funcs@[0].params@.len() == 0,
        p.funcs@[0].body@.len() == 2,
        is_expr_stmt(p.funcs@[0].body@[0]),
        is_call_expr(stmt_expr(p.funcs@[0].body@[0]), "bar"@, 2),
        call_args(stmt_expr(p.funcs@[0].body@[0])).len() == 2,
        is_int_expr(call_args(stmt_expr(p.funcs@[0].body@[0]))[0], 1, 2),
        is_int_expr(call_args(stmt_expr(p.funcs@[0].body@[0]))[1], 2, 2),
        is_ret_none(p.funcs@[0].body@[1]),
{
    let f = fun(
        "test_undef_call",
        1,
        Vec::new(),
        Ty::Unit,
        vec![
            Stmt::ExprStmt { expr: call("bar", 2, vec![int_lit(1, 2), int_lit(2, 2)]) },
            ret_unit(),
        ],
    );
    Program { funcs: vec![f] }
}

/// Two `let x` in the same scope.  Expected: one `RedeclarationInSameScope`
/// for the second declaration; the first binding is retained.
pub fn test_redecl() -> (p: Program)
    ensures
        p.funcs@.len() == 1,
        p.funcs@[0].name@ == "test_redecl"@,
        p.funcs@[0].params@.len() == 0,
        p.funcs@[0].body@.len() == 3,
        is_let_stmt(p.funcs@[0].body@[0], "x"@, 2, false),
        is_int_expr(let_init(p.funcs@[0].body@[0]), 1, 2),
        is_let_stmt(p.funcs@[0].body@[1], "x"@, 3, false),
        is_int_expr(let_init(p.funcs@[0].body@[1]), 2, 3),
        is_ret_none(p.funcs@[0].body@[2]),
{
    let f = fun(
        "test_redecl",
        1,
        Vec::new(),
        Ty::Unit,
        vec![
            let_stmt("x", 2, Ty::Int, false, int_lit(1, 2)),
            let_stmt("x", 3, Ty::Int, false, int_lit(2, 3)),
            ret_unit(),
        ],
    );
    Program { funcs: vec![f] }
}

/// A use of `x` textually before its declaration in the same scope.
/// Expected: one `UndeclaredIdentifier` for the use; the later declaration
/// itself is fine.
pub fn test_use_before_decl() -> (p: Program)
    ensures
        p.funcs@.len() == 1,
        p.funcs@[0].name@ == "test_use_before_decl"@,
        p.funcs@[0].params@.len() == 0,
        p.funcs@[0].body@.len() == 3,
        is_let_stmt(p.funcs@[0].body@[0], "y"@, 2, false),
        is_bin_expr(let_init(p.funcs@[0].body@[0])),
        is_var_expr(bin_lhs(let_init(p.funcs@[0].body@[0])), "x"@, 2),
        is_int_expr(bin_rhs(let_init(p.funcs@[0].body@[0])), 1, 2),
        is_let_stmt(p.funcs@[0].body@[1], "x"@, 3, false),
        is_int_expr(let_init(p.funcs@[0].body@[1]), 3, 3),
        is_ret_none(p.funcs@[0].body@[2]),
{
    let f = fun(
        "test_use_before_decl",
        1,
        Vec::new(),
        Ty::Unit,
        vec![
            let_stmt("y", 2, Ty::Int, false, bin(BinOp::Add, var("x", 2), int_lit(1, 2))),
            let_stmt("x", 3, Ty::Int, false, int_lit(3, 3)),
            ret_unit(),
        ],
    );
    Program { funcs: vec![f] }
}

/// Parameters are visible throughout the function scope.  Expected: zero
/// diagnostics.
pub fn test_params() -> (p: Program)
    ensures
        p.funcs@.len() == 1,
        p.funcs@[0].name@ == "test_params"@,
        p.funcs@[0].params@.len() == 2,
        is_param(p.funcs@[0].params@[0], "a"@, 1, false),
        is_param(p.funcs@[0].params@[1], "b"@, 1, false),
        p.funcs@[0].body@.len() == 2,
        is_let_stmt(p.funcs@[0].body@[0], "s"@, 2, false),
        is_bin_expr(let_init(p.funcs@[0].body@[0])),
        is_var_expr(bin_lhs(let_init(p.funcs@[0].body@[0])), "a"@, 2),
        is_var_expr(bin_rhs(let_init(p.funcs@[0].body@[0])), "b"@, 2),
        is_ret_none(p.funcs@[0].body@[1]),
{
    let f = fun(
        "test_params",
        1,
        vec![param("a", 1, Ty::Int), param("b", 1, Ty::Int)],
        Ty::Unit,
        vec![
            let_stmt("s", 2, Ty::Int, false, bin(BinOp::Add, var("a", 2), var("b", 2))),
            ret_unit(),
        ],
    );
    Program { funcs: vec![f] }
}

/// Assignment to a mutable binding: resolution only binds the name.
/// Expected: zero diagnostics.
pub fn test_assign_mut() -> (p: Program)
    ensures
        p.funcs@.len() == 1,
        p.funcs@[0].name@ == "test_assign_mut"@,
        p.funcs@[0].params@.len() == 0,
        p.funcs@[0].body@.len() == 3,
        is_let_stmt(p.funcs@[0].body@[0], "m"@, 2, true),
        is_int_expr(let_init(p.funcs@[0].body@[0]), 10, 2),
        is_name_assign(p.funcs@[0].body@[1], "m"@, 3),
        is_int_expr(assign_value(p.funcs@[0].body@[1]), 20, 3),
        is_ret_none(p.funcs@[0].body@[2]),
{
    let f = fun(
        "test_assign_mut",
        1,
        Vec::new(),
        Ty::Unit,
        vec![
            let_stmt("m", 2, Ty::Int, true, int_lit(10, 2)),
            assign_name("m", 3, int_lit(20, 3)),
            ret_unit(),
        ],
    );
    Program { funcs: vec![f] }
}

/// Assignment to an immutable binding: resolution still only binds the
/// name; mutability is enforced downstream.  Expected: zero diagnostics.
pub fn test_assign_immut() -> (p: Program)
    ensures
        p.funcs@.len() == 1,
        p.funcs@[0].name@ == "test_assign_immut"@,
        p.funcs@[0].params@.len() == 0,
        p.funcs@[0].body@.len() == 3,
        is_let_stmt(p.funcs@[0].body@[0], "n"@, 2, false),
        is_int_expr(let_init(p.funcs@[0].body@[0]), 5, 2),
        is_name_assign(p.funcs@[0].body@[1], "n"@, 3),
        is_int_expr(assign_value(p.funcs@[0].body@[1]), 6, 3),
        is_ret_none(p.funcs@[0].body@[2]),
{
    let f = fun(
        "test_assign_immut",
        1,
        Vec::new(),
        Ty::Unit,
        vec![
            let_stmt("n", 2, Ty::Int, false, int_lit(5, 2)),
            assign_name("n", 3, int_lit(6, 3)),
            ret_unit(),
        ],
    );
    Program { funcs: vec![f] }
}

/// A `for` loop introduces a scope for its induction variable that closes
/// with the loop body.  Expected: one `UndeclaredIdentifier` for the use of
/// `i` after the loop; the use inside the body is fine.
pub fn test_for_loop() -> (p: Program)
    ensures
        p.funcs@.len() == 1,
        p.funcs@[0].name@ == "test_for_loop"@,
        p.funcs@[0].params@.len() == 0,
        p.funcs@[0].body@.len() == 4,
        is_let_stmt(p.funcs@[0].body@[0], "arr"@, 2, false),
        is_array_expr(let_init(p.funcs@[0].body@[0]), 3),
        is_for_stmt(p.funcs@[0].body@[1], "i"@, 3),
        is_var_expr(for_range(p.funcs@[0].body@[1]), "arr"@, 3),
        for_body(p.funcs@[0].body@[1]).len() == 1,
        is_let_stmt(for_body(p.funcs@[0].body@[1])[0], "t"@, 4, false),
        is_bin_expr(let_init(for_body(p.funcs@[0].body@[1])[0])),
        is_var_expr(bin_lhs(let_init(for_body(p.funcs@[0].body@[1])[0])), "i"@, 4),
        is_int_expr(bin_rhs(let_init(for_body(p.funcs@[0].body@[1])[0])), 1, 4),
        is_let_stmt(p.funcs@[0].body@[2], "z"@, 6, false),
        is_var_expr(let_init(p.funcs@[0].body@[2]), "i"@, 6),
        is_ret_none(p.funcs@[0].body@[3]),
{
    let f = fun(
        "test_for_loop",
        1,
        Vec::new(),
        Ty::Unit,
        vec![
            let_stmt("arr", 2, Ty::Array, false, array3(1, 2, 3, 2)),
            Stmt::For {
                var: text("i"),
                var_pos: 3,
                range: var("arr", 3),
                body: vec![
                    let_stmt("t", 4, Ty::Int, false, bin(BinOp::Add, var("i", 4), int_lit(1, 4))),
                ],
            },
            let_stmt("z", 6, Ty::Int, false, var("i", 6)),
            ret_unit(),
        ],
    );
    Program { funcs: vec![f] }
}

/// Array subscripts: a literal index needs no lookup, an undeclared
/// identifier index is reported.  Expected: one `UndeclaredIdentifier` for
/// `x`.
pub fn test_subscript() -> (p: Program)
    ensures
        p.funcs@.len() == 1,
        p.funcs@[0].name@ == "test_subscript"@,
        p.funcs@[0].params@.len() == 0,
        p.funcs@[0].body@.len() == 4,
        is_let_stmt(p.funcs@[0].body@[0], "arr"@, 2, false),
        is_array_expr(let_init(p.funcs@[0].body@[0]), 3),
        is_let_stmt(p.funcs@[0].body@[1], "v0"@, 3, false),
        is_subscript_expr(let_init(p.funcs@[0].body@[1])),
        is_var_expr(subscript_base(let_init(p.funcs@[0].body@[1])), "arr"@, 3),
        is_int_expr(subscript_index(let_init(p.funcs@[0].body@[1])), 0, 3),
        is_let_stmt(p.funcs@[0].body@[2], "v1"@, 4, false),
        is_subscript_expr(let_init(p.funcs@[0].body@[2])),
        is_var_expr(subscript_base(let_init(p.funcs@[0].body@[2])), "arr"@, 4),
        is_var_expr(subscript_index(let_init(p.funcs@[0].body@[2])), "x"@, 4),
        is_ret_none(p.funcs@[0].body@[3]),
{
    let f = fun(
        "test_subscript",
        1,
        Vec::new(),
        Ty::Unit,
        vec![
            let_stmt("arr", 2, Ty::Array, false, array3(10, 20, 30, 2)),
            let_stmt("v0", 3, Ty::Int, false, subscript(var("arr", 3), int_lit(0, 3))),
            let_stmt("v1", 4, Ty::Int, false, subscript(var("arr", 4), var("x", 4))),
            ret_unit(),
        ],
    );
    Program { funcs: vec![f] }
}

/// A print statement: the `{msg}` placeholder is resolved like a variable
/// read; the trailing arguments' count and types are not checked here.
/// Expected: zero diagnostics.
pub fn test_println() -> (p: Program)
    ensures
        p.funcs@.len() == 1,
        p.funcs@[0].name@ == "test_println"@,
        p.funcs@[0].params@.len() == 0,
        p.funcs@[0].body@.len() == 3,
        is_let_stmt(p.funcs@[0].body@[0], "msg"@, 2, false),
        is_str_expr(let_init(p.funcs@[0].body@[0]), 2),
        is_print_stmt(p.funcs@[0].body@[1], "{msg}"@, 3),
        print_args(p.funcs@[0].body@[1]).len() == 2,
        is_int_expr(print_args(p.funcs@[0].body@[1])[0], 1, 3),
        is_int_expr(print_args(p.funcs@[0].body@[1])[1], 2, 3),
        is_ret_none(p.funcs@[0].body@[2]),
{
    let f = fun(
        "test_println",
        1,
        Vec::new(),
        Ty::Unit,
        vec![
            let_stmt("msg", 2, Ty::Str, false, str_lit("hello", 2)),
            print_stmt("{msg}", 3, vec![int_lit(1, 3), int_lit(2, 3)]),
            ret_unit(),
        ],
    );
    Program { funcs: vec![f] }
}

/// A valid subscript assignment: `arr` is declared and the index is a
/// literal.  Expected: zero diagnostics.
pub fn test_slice_assign_ok() -> (p: Program)
    ensures
        p.funcs@.len() == 1,
        p.funcs@[0].name@ == "test_slice_assign_ok"@,
        p.funcs@[0].params@.len() == 0,
        p.funcs@[0].body@.len() == 3,
        is_let_stmt(p.funcs@[0].body@[0], "arr"@, 2, true),
        is_array_expr(let_init(p.funcs@[0].body@[0]), 3),
        is_subscript_assign(p.funcs@[0].body@[1], "arr"@, 3),
        is_int_expr(assign_index(p.funcs@[0].body@[1]), 1, 3),
        is_int_expr(assign_value(p.funcs@[0].body@[1]), 42, 3),
        is_ret_none(p.funcs@[0].body@[2]),
{
    let f = fun(
        "test_slice_assign_ok",
        1,
        Vec::new(),
        Ty::Unit,
        vec![
            let_stmt("arr", 2, Ty::Array, true, array3(0, 1, 2, 2)),
            assign_subscript("arr", 3, int_lit(1, 3), int_lit(42, 3)),
            ret_unit(),
        ],
    );
    Program { funcs: vec![f] }
}

/// Subscript assignment to an undeclared base.  Expected: one
/// `UndeclaredIdentifier` for `arr`.
pub fn test_slice_assign_undef_arr() -> (p: Program)
    ensures
        p.funcs@.len() == 1,
        p.funcs@[0].name@ == "test_slice_assign_undef_arr"@,
        p.funcs@[0].params@.len() == 0,
        p.funcs@[0].body@.len() == 2,
        is_subscript_assign(p.funcs@[0].body@[0], "arr"@, 2),
        is_int_expr(assign_index(p.funcs@[0].body@[0]), 0, 2),
        is_int_expr(assign_value(p.funcs@[0].body@[0]), 5, 2),
        is_ret_none(p.funcs@[0].body@[1]),
{
    let f = fun(
        "test_slice_assign_undef_arr",
        1,
        Vec::new(),
        Ty::Unit,
        vec![assign_subscript("arr", 2, int_lit(0, 2), int_lit(5, 2)), ret_unit()],
    );
    Program { funcs: vec![f] }
}

/// Subscript assignment with an undeclared index.  Expected: one
/// `UndeclaredIdentifier` for `i`, none for `arr`.
pub fn test_slice_assign_undef_index() -> (p: Program)
    ensures
        p.funcs@.len() == 1,
        p.funcs@[0].name@ == "test_slice_assign_undef_index"@,
        p.funcs@[0].params@.len() == 0,
        p.funcs@[0].body@.len() == 3,
        is_let_stmt(p.funcs@[0].body@[0], "arr"@, 2, false),
        is_array_expr(let_init(p.funcs@[0].body@[0]), 3),
        is_subscript_assign(p.funcs@[0].body@[1], "arr"@, 3),
        is_var_expr(assign_index(p.funcs@[0].body@[1]), "i"@, 3),
        is_int_expr(assign_value(p.funcs@[0].body@[1]), 7, 3),
        is_ret_none(p.funcs@[0].body@[2]),
{
    let f = fun(
        "test_slice_assign_undef_index",
        1,
        Vec::new(),
        Ty::Unit,
        vec![
            let_stmt("arr", 2, Ty::Array, false, array3(0, 1, 2, 2)),
            assign_subscript("arr", 3, var("i", 3), int_lit(7, 3)),
            ret_unit(),
        ],
    );
    Program { funcs: vec![f] }
}

/// Subscript assignment with base and index both undeclared.  Expected: one
/// `UndeclaredIdentifier` for the base `arr` alone — were `arr` declared,
/// `j` would then be reported.
pub fn test_slice_assign_both_undef() -> (p: Program)
    ensures
        p.funcs@.len() == 1,
        p.funcs@[0].name@ == "test_slice_assign_both_undef"@,
        p.funcs@[0].params@.len() == 0,
        p.funcs@[0].body@.len() == 2,
        is_subscript_assign(p.funcs@[0].body@[0], "arr"@, 2),
        is_var_expr(assign_index(p.funcs@[0].body@[0]), "j"@, 2),
        is_int_expr(assign_value(p.funcs@[0].body@[0]), 9, 2),
        is_ret_none(p.funcs@[0].body@[1]),
{
    let f = fun(
        "test_slice_assign_both_undef",
        1,
        Vec::new(),
        Ty::Unit,
        vec![assign_subscript("arr", 2, var("j", 2), int_lit(9, 2)), ret_unit()],
    );
    Program { funcs: vec![f] }
}

/// A valid subscript read.  Expected: zero diagnostics.
pub fn test_slice_read_ok() -> (p: Program)
    ensures
        p.funcs@.len() == 1,
        p.funcs@[0].name@ == "test_slice_read_ok"@,
        p.funcs@[0].params@.len() == 0,
        p.funcs@[0].body@.len() == 3,
        is_let_stmt(p.funcs@[0].body@[0], "arr"@, 2, false),
        is_array_expr(let_init(p.funcs@[0].body@[0]), 3),
        is_let_stmt(p.funcs@[0].body@[1], "x"@, 3, false),
        is_subscript_expr(let_init(p.funcs@[0].body@[1])),
        is_var_expr(subscript_base(let_init(p.funcs@[0].body@[1])), "arr"@, 3),
        is_int_expr(subscript_index(let_init(p.funcs@[0].body@[1])), 2, 3),
        is_ret_none(p.funcs@[0].body@[2]),
{
    let f = fun(
        "test_slice_read_ok",
        1,
        Vec::new(),
        Ty::Unit,
        vec![
            let_stmt("arr", 2, Ty::Array, false, array3(10, 20, 30, 2)),
            let_stmt("x", 3, Ty::Int, false, subscript(var("arr", 3), int_lit(2, 3))),
            ret_unit(),
        ],
    );
    Program { funcs: vec![f] }
}

/// A subscript read with an undeclared index.  Expected: one
/// `UndeclaredIdentifier` for `k`.
pub fn test_slice_read_undef_index() -> (p: Program)
    ensures
        p.funcs@.len() == 1,
        p.funcs@[0].name@ == "test_slice_read_undef_index"@,
        p.funcs@[0].params@.len() == 0,
        p.funcs@[0].body@.len() == 3,
        is_let_stmt(p.funcs@[0].body@[0], "arr"@, 2, false),
        is_array_expr(let_init(p.funcs@[0].body@[0]), 3),
        is_let_stmt(p.funcs@[0].body@[1], "y"@, 3, false),
        is_subscript_expr(let_init(p.funcs@[0].body@[1])),
        is_var_expr(subscript_base(let_init(p.funcs@[0].body@[1])), "arr"@, 3),
        is_var_expr(subscript_index(let_init(p.funcs@[0].body@[1])), "k"@, 3),
        is_ret_none(p.funcs@[0].body@[2]),
{
    let f = fun(
        "test_slice_read_undef_index",
        1,
        Vec::new(),
        Ty::Unit,
        vec![
            let_stmt("arr", 2, Ty::Array, false, array3(10, 20, 30, 2)),
            let_stmt("y", 3, Ty::Int, false, subscript(var("arr", 3), var("k", 3))),
            ret_unit(),
        ],
    );
    Program { funcs: vec![f] }
}

/// A subscript read from an undeclared base.  Expected: one
/// `UndeclaredIdentifier` for `arr2`.
pub fn test_slice_read_undef_arr() -> (p: Program)
    ensures
        p.funcs@.len() == 1,
        p.funcs@[0].name@ == "test_slice_read_undef_arr"@,
        p.funcs@[0].params@.len() == 0,
        p.funcs@[0].body@.len() == 2,
        is_let_stmt(p.funcs@[0].body@[0], "z"@, 2, false),
        is_subscript_expr(let_init(p.funcs@[0].body@[0])),
        is_var_expr(subscript_base(let_init(p.funcs@[0].body@[0])), "arr2"@, 2),
        is_int_expr(subscript_index(let_init(p.funcs@[0].body@[0])), 0, 2),
        is_ret_none(p.funcs@[0].body@[1]),
{
    let f = fun(
        "test_slice_read_undef_arr",
        1,
        Vec::new(),
        Ty::Unit,
        vec![
            let_stmt("z", 2, Ty::Int, false, subscript(var("arr2", 2), int_lit(0, 2))),
            ret_unit(),
        ],
    );
    Program { funcs: vec![f] }
}

/// A valid slice of a declared variable with literal bounds.  Expected:
/// zero diagnostics.
pub fn test_slice_ok() -> (p: Program)
    ensures
        p.funcs@.len() == 1,
        p.funcs@[0].name@ == "test_slice_ok"@,
        p.funcs@[0].params@.len() == 0,
        p.funcs@[0].body@.len() == 3,
        is_let_stmt(p.funcs@[0].body@[0], "s"@, 2, false),
        is_str_expr(let_init(p.funcs@[0].body@[0]), 2),
        is_let_stmt(p.funcs@[0].body@[1], "t"@, 3, false),
        is_slice_expr(let_init(p.funcs@[0].body@[1])),
        is_var_expr(slice_base(let_init(p.funcs@[0].body@[1])), "s"@, 3),
        is_int_expr(slice_start(let_init(p.funcs@[0].body@[1])), 1, 3),
        is_int_expr(slice_end(let_init(p.funcs@[0].body@[1])), 3, 3),
        is_ret_none(p.funcs@[0].body@[2]),
{
    let f = fun(
        "test_slice_ok",
        1,
        Vec::new(),
        Ty::Unit,
        vec![
            let_stmt("s", 2, Ty::Str, false, str_lit("abcd", 2)),
            let_stmt("t", 3, Ty::Str, false, slice(var("s", 3), int_lit(1, 3), int_lit(3, 3))),
            ret_unit(),
        ],
    );
    Program { funcs: vec![f] }
}

/// A slice of an undeclared variable.  Expected: one
/// `UndeclaredIdentifier` for `u`.
pub fn test_slice_undef_var() -> (p: Program)
    ensures
        p.funcs@.len() == 1,
        p.funcs@[0].name@ == "test_slice_undef_var"@,
        p.funcs@[0].params@.len() == 0,
        p.funcs@[0].body@.len() == 2,
        is_let_stmt(p.funcs@[0].body@[0], "t"@, 2, false),
        is_slice_expr(let_init(p.funcs@[0].body@[0])),
        is_var_expr(slice_base(let_init(p.funcs@[0].body@[0])), "u"@, 2),
        is_int_expr(slice_start(let_init(p.funcs@[0].body@[0])), 0, 2),
        is_int_expr(slice_end(let_init(p.funcs@[0].body@[0])), 2, 2),
        is_ret_none(p.funcs@[0].body@[1]),
{
    let f = fun(
        "test_slice_undef_var",
        1,
        Vec::new(),
        Ty::Unit,
        vec![
            let_stmt("t", 2, Ty::Str, false, slice(var("u", 2), int_lit(0, 2), int_lit(2, 2))),
            ret_unit(),
        ],
    );
    Program { funcs: vec![f] }
}

/// A slice whose start bound is undeclared.  Expected: one
/// `UndeclaredIdentifier` for `a`.
pub fn test_slice_undef_start() -> (p: Program)
    ensures
        p.funcs@.len() == 1,
        p.funcs@[0].name@ == "test_slice_undef_start"@,
        p.funcs@[0].params@.len() == 0,
        p.funcs@[0].body@.len() == 3,
        is_let_stmt(p.funcs@[0].body@[0], "s"@, 2, false),
        is_str_expr(let_init(p.funcs@[0].body@[0]), 2),
        is_let_stmt(p.funcs@[0].body@[1], "x"@, 3, false),
        is_slice_expr(let_init(p.funcs@[0].body@[1])),
        is_var_expr(slice_base(let_init(p.funcs@[0].body@[1])), "s"@, 3),
        is_var_expr(slice_start(let_init(p.funcs@[0].body@[1])), "a"@, 3),
        is_int_expr(slice_end(let_init(p.funcs@[0].body@[1])), 2, 3),
        is_ret_none(p.funcs@[0].body@[2]),
{
    let f = fun(
        "test_slice_undef_start",
        1,
        Vec::new(),
        Ty::Unit,
        vec![
            let_stmt("s", 2, Ty::Str, false, str_lit("hola", 2)),
            let_stmt("x", 3, Ty::Str, false, slice(var("s", 3), var("a", 3), int_lit(2, 3))),
            ret_unit(),
        ],
    );
    Program { funcs: vec![f] }
}

/// A slice whose end bound is undeclared.  Expected: one
/// `UndeclaredIdentifier` for `b`.
pub fn test_slice_undef_end() -> (p: Program)
    ensures
        p.funcs@.len() == 1,
        p.funcs@[0].name@ == "test_slice_undef_end"@,
        p.funcs@[0].params@.len() == 0,
        p.funcs@[0].body@.len() == 3,
        is_let_stmt(p.funcs@[0].body@[0], "s"@, 2, false),
        is_str_expr(let_init(p.funcs@[0].body@[0]), 2),
        is_let_stmt(p.funcs@[0].body@[1], "y"@, 3, false),
        is_slice_expr(let_init(p.funcs@[0].body@[1])),
        is_var_expr(slice_base(let_init(p.funcs@[0].body@[1])), "s"@, 3),
        is_int_expr(slice_start(let_init(p.funcs@[0].body@[1])), 1, 3),
        is_var_expr(slice_end(let_init(p.funcs@[0].body@[1])), "b"@, 3),
        is_ret_none(p.funcs@[0].body@[2]),
{
    let f = fun(
        "test_slice_undef_end",
        1,
        Vec::new(),
        Ty::Unit,
        vec![
            let_stmt("s", 2, Ty::Str, false, str_lit("mundo", 2)),
            let_stmt("y", 3, Ty::Str, false, slice(var("s", 3), int_lit(1, 3), var("b", 3))),
            ret_unit(),
        ],
    );
    Program { funcs: vec![f] }
}

/// A slice with base and both bounds undeclared.  Expected: one
/// `UndeclaredIdentifier` for the base `v` alone — were `v` declared, `i`
/// or `j` would then be reported.
pub fn test_slice_both_undef() -> (p: Program)
    ensures
        p.funcs@.len() == 1,
        p.funcs@[0].name@ == "test_slice_both_undef"@,
        p.funcs@[0].params@.len() == 0,
        p.funcs@[0].body@.len() == 2,
        is_let_stmt(p.funcs@[0].body@[0], "z"@, 2, false),
        is_slice_expr(let_init(p.funcs@[0].body@[0])),
        is_var_expr(slice_base(let_init(p.funcs@[0].body@[0])), "v"@, 2),
        is_var_expr(slice_start(let_init(p.funcs@[0].body@[0])), "i"@, 2),
        is_var_expr(slice_end(let_init(p.funcs@[0].body@[0])), "j"@, 2),
        is_ret_none(p.funcs@[0].body@[1]),
{
    let f = fun(
        "test_slice_both_undef",
        1,
        Vec::new(),
        Ty::Unit,
        vec![
            let_stmt("z", 2, Ty::Str, false, slice(var("v", 2), var("i", 2), var("j", 2))),
            ret_unit(),
        ],
    );
    Program { funcs: vec![f] }
}

/// A slice performed directly on a literal receiver: no lookup for the
/// receiver, only literal bounds.  Expected: zero diagnostics.
pub fn test_slice_literal() -> (p: Program)
    ensures
        p.funcs@.len() == 1,
        p.funcs@[0].name@ == "test_slice_literal"@,
        p.funcs@[0].params@.len() == 0,
        p.funcs@[0].body@.len() == 2,
        is_let_stmt(p.funcs@[0].body@[0], "r"@, 2, false),
        is_slice_expr(let_init(p.funcs@[0].body@[0])),
        is_str_expr(slice_base(let_init(p.funcs@[0].body@[0])), 2),
        is_int_expr(slice_start(let_init(p.funcs@[0].body@[0])), 2, 2),
        is_int_expr(slice_end(let_init(p.funcs@[0].body@[0])), 4, 2),
        is_ret_none(p.funcs@[0].body@[1]),
{
    let f = fun(
        "test_slice_literal",
        1,
        Vec::new(),
        Ty::Unit,
        vec![
            let_stmt(
                "r",
                2,
                Ty::Str,
                false,
                slice(str_lit("rust", 2), int_lit(2, 2), int_lit(4, 2)),
            ),
            ret_unit(),
        ],
    );
    Program { funcs: vec![f] }
}

/// Reassignment from a slice of the assigned variable itself.  Expected:
/// zero diagnostics.
pub fn test_slice_assign() -> (p: Program)
    ensures
        p.funcs@.len() == 1,
        p.funcs@[0].name@ == "test_slice_assign"@,
        p.funcs@[0].params@.len() == 0,
        p.funcs@[0].body@.len() == 3,
        is_let_stmt(p.funcs@[0].body@[0], "s"@, 2, true),
        is_str_expr(let_init(p.funcs@[0].body@[0]), 2),
        is_name_assign(p.funcs@[0].body@[1], "s"@, 3),
        is_slice_expr(assign_value(p.funcs@[0].body@[1])),
        is_var_expr(slice_base(assign_value(p.funcs@[0].body@[1])), "s"@, 3),
        is_int_expr(slice_start(assign_value(p.funcs@[0].body@[1])), 1, 3),
        is_int_expr(slice_end(assign_value(p.funcs@[0].body@[1])), 3, 3),
        is_ret_none(p.funcs@[0].body@[2]),
{
    let f = fun(
        "test_slice_assign",
        1,
        Vec::new(),
        Ty::Unit,
        vec![
            let_stmt("s", 2, Ty::Str, true, str_lit("hello", 2)),
            assign_name("s", 3, slice(var("s", 3), int_lit(1, 3), int_lit(3, 3))),
            ret_unit(),
        ],
    );
    Program { funcs: vec![f] }
}

/// The recursive sample: `fib` calls itself twice and `main` calls `fib`,
/// with format-string interpolation along the way.  Self reference resolves
/// through the hoisted module scope.  Expected: zero diagnostics.
pub fn fib() -> (p: Program)
    ensures
        p.funcs@.len() == 2,
        p.funcs@[0].name@ == "fib"@,
        p.funcs@[0].params@.len() == 1,
        is_param(p.funcs@[0].params@[0], "n"@, 1, false),
        p.funcs@[0].body@.len() == 4,
        is_print_stmt(p.funcs@[0].body@[0], "calling fibonacci of {n}"@, 2),
        print_args(p.funcs@[0].body@[0]).len() == 0,
        is_let_stmt(p.funcs@[0].body@[1], "res"@, 3, false),
        is_bin_expr(let_init(p.funcs@[0].body@[1])),
        is_call_expr(bin_lhs(let_init(p.funcs@[0].body@[1])), "fib"@, 3),
        call_args(bin_lhs(let_init(p.funcs@[0].body@[1]))).len() == 1,
        is_bin_expr(call_args(bin_lhs(let_init(p.funcs@[0].body@[1])))[0]),
        is_var_expr(bin_lhs(call_args(bin_lhs(let_init(p.funcs@[0].body@[1])))[0]), "n"@, 3),
        is_int_expr(bin_rhs(call_args(bin_lhs(let_init(p.funcs@[0].body@[1])))[0]), 1, 3),
        is_call_expr(bin_rhs(let_init(p.funcs@[0].body@[1])), "fib"@, 3),
        call_args(bin_rhs(let_init(p.funcs@[0].body@[1]))).len() == 1,
        is_bin_expr(call_args(bin_rhs(let_init(p.funcs@[0].body@[1])))[0]),
        is_var_expr(bin_lhs(call_args(bin_rhs(let_init(p.funcs@[0].body@[1])))[0]), "n"@, 3),
        is_int_expr(bin_rhs(call_args(bin_rhs(let_init(p.funcs@[0].body@[1])))[0]), 2, 3),
        is_print_stmt(p.funcs@[0].body@[2], "The fibonacci of {n} is: {res}"@, 4),
        is_ret_expr(p.funcs@[0].body@[3]),
        is_var_expr(ret_expr(p.funcs@[0].body@[3]), "res"@, 5),
        p.funcs@[1].name@ == "main"@,
        p.funcs@[1].params@.len() == 0,
        p.funcs@[1].body@.len() == 4,
        is_let_stmt(p.funcs@[1].body@[0], "n"@, 8, false),
        is_int_expr(let_init(p.funcs@[1].body@[0]), 3, 8),
        is_let_stmt(p.funcs@[1].body@[1], "result"@, 9, false),
        is_call_expr(let_init(p.funcs@[1].body@[1]), "fib"@, 9),
        call_args(let_init(p.funcs@[1].body@[1])).len() == 1,
        is_var_expr(call_args(let_init(p.funcs@[1].body@[1]))[0], "n"@, 9),
        is_print_stmt(p.funcs@[1].body@[2], "The fibonacci of {n} is: {result}"@, 10),
        is_ret_none(p.funcs@[1].body@[3]),
{
    let fib_fn = fun(
        "fib",
        1,
        vec![param("n", 1, Ty::Int)],
        Ty::Int,
        vec![
            print_stmt("calling fibonacci of {n}", 2, Vec::new()),
            let_stmt(
                "res",
                3,
                Ty::Int,
                false,
                bin(
                    BinOp::Add,
                    call("fib", 3, vec![bin(BinOp::Sub, var("n", 3), int_lit(1, 3))]),
                    call("fib", 3, vec![bin(BinOp::Sub, var("n", 3), int_lit(2, 3))]),
                ),
            ),
            print_stmt("The fibonacci of {n} is: {res}", 4, Vec::new()),
            ret(var("res", 5)),
        ],
    );
    let main_fn = fun(
        "main",
        7,
        Vec::new(),
        Ty::Unit,
        vec![
            let_stmt("n", 8, Ty::Int, false, int_lit(3, 8)),
            let_stmt("result", 9, Ty::Int, false, call("fib", 9, vec![var("n", 9)])),
            print_stmt("The fibonacci of {n} is: {result}", 10, Vec::new()),
            ret_unit(),
        ],
    );
    Program { funcs: vec![fib_fn, main_fn] }
}

} // verus!
