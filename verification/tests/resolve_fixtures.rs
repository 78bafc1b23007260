//! Runs the resolver over the fixture corpus and checks the exact
//! diagnostics each sample is meant to produce.

use nameres::ast::Pos;
use nameres::fixtures;
use nameres::resolver::{resolve_program, BindRes, Diagnostic, Resolution};

fn undeclared(name: &str, pos: Pos) -> Diagnostic {
    Diagnostic::UndeclaredIdentifier { name: name.to_string(), pos }
}

fn redecl(name: &str, first_pos: Pos, second_pos: Pos) -> Diagnostic {
    Diagnostic::RedeclarationInSameScope { name: name.to_string(), first_pos, second_pos }
}

fn all_bound(r: &Resolution) -> bool {
    r.bindings.iter().all(|b| matches!(b.res, BindRes::Resolved(_)))
}

#[test]
fn foo_valid_call() {
    let r = resolve_program(&fixtures::foo());
    assert_eq!(r.diags, Vec::new());
    assert!(all_bound(&r));
    // x, a and b are all bound: the uses of a and b in x's initializer and
    // the use of x in the return.
    let names: Vec<&str> = r.bindings.iter().map(|b| b.name.as_str()).collect();
    assert!(names.contains(&"a"));
    assert!(names.contains(&"b"));
    assert!(names.contains(&"x"));
}

#[test]
fn undef_call_reports_bar() {
    let r = resolve_program(&fixtures::test_undef_call());
    assert_eq!(r.diags, vec![undeclared("bar", 2)]);
}

#[test]
fn redecl_reports_second_only() {
    let r = resolve_program(&fixtures::test_redecl());
    assert_eq!(r.diags, vec![redecl("x", 2, 3)]);
    // The first declaration's symbol is retained: exactly one `x` symbol.
    let n_x = r.symbols.iter().filter(|s| s.name == "x").count();
    assert_eq!(n_x, 1);
    assert_eq!(r.symbols.iter().find(|s| s.name == "x").unwrap().pos, 2);
}

#[test]
fn use_before_decl_reports_use() {
    let r = resolve_program(&fixtures::test_use_before_decl());
    assert_eq!(r.diags, vec![undeclared("x", 2)]);
}

#[test]
fn params_are_visible() {
    let r = resolve_program(&fixtures::test_params());
    assert_eq!(r.diags, Vec::new());
    assert!(all_bound(&r));
}

#[test]
fn assign_to_mutable_binds() {
    let r = resolve_program(&fixtures::test_assign_mut());
    assert_eq!(r.diags, Vec::new());
    assert!(all_bound(&r));
}

#[test]
fn assign_to_immutable_still_binds() {
    // Resolution binds the name; the type checker enforces mutability later.
    let r = resolve_program(&fixtures::test_assign_immut());
    assert_eq!(r.diags, Vec::new());
    assert!(all_bound(&r));
}

#[test]
fn loop_variable_does_not_leak() {
    let r = resolve_program(&fixtures::test_for_loop());
    assert_eq!(r.diags, vec![undeclared("i", 6)]);
}

#[test]
fn subscript_literal_ok_identifier_checked() {
    let r = resolve_program(&fixtures::test_subscript());
    assert_eq!(r.diags, vec![undeclared("x", 4)]);
}

#[test]
fn println_placeholder_resolves() {
    let r = resolve_program(&fixtures::test_println());
    assert_eq!(r.diags, Vec::new());
    assert!(all_bound(&r));
    // The {msg} placeholder produced a binding occurrence.
    assert!(r.bindings.iter().any(|b| b.name == "msg" && b.pos == 3));
}

#[test]
fn slice_assign_ok() {
    let r = resolve_program(&fixtures::test_slice_assign_ok());
    assert_eq!(r.diags, Vec::new());
}

#[test]
fn slice_assign_undef_arr() {
    let r = resolve_program(&fixtures::test_slice_assign_undef_arr());
    assert_eq!(r.diags, vec![undeclared("arr", 2)]);
}

#[test]
fn slice_assign_undef_index() {
    let r = resolve_program(&fixtures::test_slice_assign_undef_index());
    assert_eq!(r.diags, vec![undeclared("i", 3)]);
}

#[test]
fn slice_assign_both_undef_reports_base_only() {
    let r = resolve_program(&fixtures::test_slice_assign_both_undef());
    assert_eq!(r.diags, vec![undeclared("arr", 2)]);
}

#[test]
fn slice_read_ok() {
    let r = resolve_program(&fixtures::test_slice_read_ok());
    assert_eq!(r.diags, Vec::new());
}

#[test]
fn slice_read_undef_index() {
    let r = resolve_program(&fixtures::test_slice_read_undef_index());
    assert_eq!(r.diags, vec![undeclared("k", 3)]);
}

#[test]
fn slice_read_undef_arr() {
    let r = resolve_program(&fixtures::test_slice_read_undef_arr());
    assert_eq!(r.diags, vec![undeclared("arr2", 2)]);
}

#[test]
fn slice_ok() {
    let r = resolve_program(&fixtures::test_slice_ok());
    assert_eq!(r.diags, Vec::new());
}

#[test]
fn slice_undef_var() {
    let r = resolve_program(&fixtures::test_slice_undef_var());
    assert_eq!(r.diags, vec![undeclared("u", 2)]);
}

#[test]
fn slice_undef_start() {
    let r = resolve_program(&fixtures::test_slice_undef_start());
    assert_eq!(r.diags, vec![undeclared("a", 3)]);
}

#[test]
fn slice_undef_end() {
    let r = resolve_program(&fixtures::test_slice_undef_end());
    assert_eq!(r.diags, vec![undeclared("b", 3)]);
}

#[test]
fn slice_both_undef_reports_base_only() {
    let r = resolve_program(&fixtures::test_slice_both_undef());
    assert_eq!(r.diags, vec![undeclared("v", 2)]);
}

#[test]
fn slice_on_literal_needs_no_lookup() {
    let r = resolve_program(&fixtures::test_slice_literal());
    assert_eq!(r.diags, Vec::new());
    // No identifier occurs at all, so no binding either.
    assert_eq!(r.bindings.len(), 0);
}

#[test]
fn slice_reassignment_ok() {
    let r = resolve_program(&fixtures::test_slice_assign());
    assert_eq!(r.diags, Vec::new());
}

#[test]
fn fib_self_reference_resolves() {
    let r = resolve_program(&fixtures::fib());
    assert_eq!(r.diags, Vec::new());
    assert!(all_bound(&r));
}
