//! The pass-wide guarantees of the resolver, stated and proved over the
//! mathematical model of `resolver` and `scope`.

use vstd::prelude::*;
use crate::ast::{Expr, FunctionDecl, Param, Pos, Program, Stmt, AssignTarget, Ty};
use crate::resolver::{
    resolution_of, st_body, st_bodies, st_close, st_declare, st_expr, st_exprs, st_init, st_open,
    st_params, st_ph_name, st_placeholders, st_program, st_receiver, st_sigs, st_stmt, st_stmts,
    st_target, st_use_name, wf_st, BindResV, BindingV, DiagV, ResolutionV, StV,
};
use crate::scope::{
    entry_matches, find_from, lookup_at, scope_has, table_declare, table_open, wf_table, EntryV,
    ScopeKind, ScopeV, SymKind, TableV,
};

verus! {

/// 1 for the sentinel outcome, 0 for a resolved binding.
pub open spec fn unres_weight(b: BindingV) -> int {
    if b.res is Unresolved {
        1
    } else {
        0
    }
}

/// How many use sites of `bs` are bound to the unresolved sentinel.
pub open spec fn n_unres(bs: Seq<BindingV>) -> int
    decreases bs.len(),
{
    if bs.len() == 0 {
        0
    } else {
        n_unres(bs.drop_last()) + unres_weight(bs.last())
    }
}

proof fn lemma_n_unres_push(bs: Seq<BindingV>, b: BindingV)
    ensures
        n_unres(bs.push(b)) == n_unres(bs) + unres_weight(b),
{
    assert(bs.push(b).drop_last() =~= bs);
    assert(bs.push(b).last() == b);
}

proof fn lemma_n_unres_nonneg(bs: Seq<BindingV>)
    ensures
        n_unres(bs) >= 0,
    decreases bs.len(),
{
    if bs.len() > 0 {
        lemma_n_unres_nonneg(bs.drop_last());
    }
}

proof fn lemma_n_unres_zero(bs: Seq<BindingV>)
    requires
        n_unres(bs) == 0,
    ensures
        forall|i: int| 0 <= i < bs.len() ==> !((#[trigger] bs[i]).res is Unresolved),
    decreases bs.len(),
{
    if bs.len() > 0 {
        lemma_n_unres_nonneg(bs.drop_last());
        assert(unres_weight(bs.last()) >= 0);
        lemma_n_unres_zero(bs.drop_last());
        assert forall|i: int| 0 <= i < bs.len() implies !((#[trigger] bs[i]).res is Unresolved) by {
            if i < bs.len() - 1 {
                assert(bs.drop_last()[i] == bs[i]);
            } else {
                assert(bs[i] == bs.last());
            }
        }
    }
}

/// How far the diagnostics outnumber the sentinel bindings.  Every step of
/// the pass keeps this from shrinking: a use site is only ever left
/// unresolved together with a diagnostic of its own.
pub open spec fn slack(st: StV) -> int {
    st.diags.len() - n_unres(st.bindings)
}

proof fn lemma_slack_use_name(st: StV, name: Seq<char>, pos: Pos)
    ensures
        slack(st_use_name(st, name, pos)) == slack(st),
{
    match lookup_at(st.table, st.table.cur, name) {
        Some(s) => {
            lemma_n_unres_push(st.bindings, BindingV { name, pos, res: BindResV::Resolved(s) });
        },
        None => {
            lemma_n_unres_push(st.bindings, BindingV { name, pos, res: BindResV::Unresolved });
        },
    }
}

proof fn lemma_slack_declare(st: StV, name: Seq<char>, kind: SymKind, mutable: bool, pos: Pos)
    ensures
        slack(st_declare(st, name, kind, mutable, pos)) >= slack(st),
{
}

proof fn lemma_slack_expr(st: StV, e: Expr)
    ensures
        slack(st_expr(st, e)) >= slack(st),
    decreases e, 0int,
{
    match e {
        Expr::IntLit { .. } => {},
        Expr::StrLit { .. } => {},
        Expr::Var { name, pos } => {
            lemma_slack_use_name(st, name@, pos);
        },
        Expr::Binary { lhs, rhs, .. } => {
            lemma_slack_expr(st, *lhs);
            lemma_slack_expr(st_expr(st, *lhs), *rhs);
        },
        Expr::Call { callee, pos, args } => {
            lemma_slack_use_name(st, callee@, pos);
            lemma_slack_exprs(st_use_name(st, callee@, pos), args, 0);
        },
        Expr::Subscript { base, index } => {
            lemma_slack_receiver(st, *base);
            let (st1, go) = st_receiver(st, *base);
            if go {
                lemma_slack_expr(st1, *index);
            }
        },
        Expr::Slice { base, start, end } => {
            lemma_slack_receiver(st, *base);
            let (st1, go) = st_receiver(st, *base);
            if go {
                lemma_slack_expr(st1, *start);
                lemma_slack_expr(st_expr(st1, *start), *end);
            }
        },
        Expr::ArrayLit { elems, .. } => {
            lemma_slack_exprs(st, elems, 0);
        },
    }
}

proof fn lemma_slack_receiver(st: StV, base: Expr)
    ensures
        slack(st_receiver(st, base).0) >= slack(st),
    decreases base, 1int,
{
    match base {
        Expr::IntLit { .. } => {},
        Expr::StrLit { .. } => {},
        Expr::Var { name, pos } => {
            lemma_slack_use_name(st, name@, pos);
        },
        _ => {
            lemma_slack_expr(st, base);
        },
    }
}

proof fn lemma_slack_exprs(st: StV, es: Vec<Expr>, i: int)
    ensures
        slack(st_exprs(st, es, i)) >= slack(st),
    decreases es, es@.len() - i,
{
    if 0 <= i < es@.len() {
        lemma_slack_expr(st, es@[i]);
        lemma_slack_exprs(st_expr(st, es@[i]), es, i + 1);
    }
}

proof fn lemma_slack_target(st: StV, t: AssignTarget)
    ensures
        slack(st_target(st, t)) >= slack(st),
{
    match t {
        AssignTarget::Name { name, pos } => {
            lemma_slack_use_name(st, name@, pos);
        },
        AssignTarget::Subscript { name, pos, index } => {
            lemma_slack_use_name(st, name@, pos);
            if lookup_at(st.table, st.table.cur, name@) is Some {
                lemma_slack_expr(st_use_name(st, name@, pos), *index);
            }
        },
        AssignTarget::Slice { name, pos, start, end } => {
            lemma_slack_use_name(st, name@, pos);
            if lookup_at(st.table, st.table.cur, name@) is Some {
                let st1 = st_use_name(st, name@, pos);
                lemma_slack_expr(st1, *start);
                lemma_slack_expr(st_expr(st1, *start), *end);
            }
        },
    }
}

proof fn lemma_slack_placeholders(st: StV, s: Seq<char>, i: int, pos: Pos)
    ensures
        slack(st_placeholders(st, s, i, pos)) >= slack(st),
    decreases s.len() - i, 0int,
{
    if 0 <= i < s.len() {
        if s[i] == '{' {
            lemma_slack_ph_name(st, s, i + 1, i + 1, pos);
        } else {
            lemma_slack_placeholders(st, s, i + 1, pos);
        }
    }
}

proof fn lemma_slack_ph_name(st: StV, s: Seq<char>, start: int, k: int, pos: Pos)
    ensures
        slack(st_ph_name(st, s, start, k, pos)) >= slack(st),
    decreases s.len() - k, 1int,
{
    if 0 <= k < s.len() {
        if s[k] == '}' {
            let st1 = if 0 <= start && start < k {
                st_use_name(st, s.subrange(start, k), pos)
            } else {
                st
            };
            if 0 <= start && start < k {
                lemma_slack_use_name(st, s.subrange(start, k), pos);
            }
            lemma_slack_placeholders(st1, s, k + 1, pos);
        } else {
            lemma_slack_ph_name(st, s, start, k + 1, pos);
        }
    }
}

proof fn lemma_slack_stmt(st: StV, s: Stmt)
    ensures
        slack(st_stmt(st, s)) >= slack(st),
    decreases s, 0int,
{
    match s {
        Stmt::Let { name, pos, mutable, init, .. } => {
            lemma_slack_expr(st, init);
            lemma_slack_declare(st_expr(st, init), name@, SymKind::Variable, mutable, pos);
        },
        Stmt::Assign { target, value } => {
            lemma_slack_target(st, target);
            lemma_slack_expr(st_target(st, target), value);
        },
        Stmt::ExprStmt { expr } => {
            lemma_slack_expr(st, expr);
        },
        Stmt::For { var, var_pos, range, body } => {
            lemma_slack_expr(st, range);
            let st1 = st_open(st_expr(st, range), crate::scope::ScopeKind::Loop);
            lemma_slack_declare(st1, var@, SymKind::LoopVar, false, var_pos);
            let st2 = st_declare(st1, var@, SymKind::LoopVar, false, var_pos);
            lemma_slack_stmts(st2, body, 0);
        },
        Stmt::Print { format, pos, args } => {
            lemma_slack_placeholders(st, format@, 0, pos);
            lemma_slack_exprs(st_placeholders(st, format@, 0, pos), args, 0);
        },
        Stmt::Return { result } => {
            match result {
                Some(e) => {
                    lemma_slack_expr(st, e);
                },
                None => {},
            }
        },
    }
}

proof fn lemma_slack_stmts(st: StV, ss: Vec<Stmt>, i: int)
    ensures
        slack(st_stmts(st, ss, i)) >= slack(st),
    decreases ss, ss@.len() - i,
{
    if 0 <= i < ss@.len() {
        lemma_slack_stmt(st, ss@[i]);
        lemma_slack_stmts(st_stmt(st, ss@[i]), ss, i + 1);
    }
}

proof fn lemma_slack_sigs(st: StV, funcs: Vec<FunctionDecl>, i: int)
    ensures
        slack(st_sigs(st, funcs, i)) >= slack(st),
    decreases funcs@.len() - i,
{
    if 0 <= i < funcs@.len() {
        lemma_slack_declare(st, funcs@[i].name@, SymKind::Function, false, funcs@[i].pos);
        lemma_slack_sigs(
            st_declare(st, funcs@[i].name@, SymKind::Function, false, funcs@[i].pos),
            funcs,
            i + 1,
        );
    }
}

proof fn lemma_slack_params(st: StV, params: Vec<Param>, i: int)
    ensures
        slack(st_params(st, params, i)) >= slack(st),
    decreases params@.len() - i,
{
    if 0 <= i < params@.len() {
        lemma_slack_declare(
            st,
            params@[i].name@,
            SymKind::Parameter,
            params@[i].mutable,
            params@[i].pos,
        );
        lemma_slack_params(
            st_declare(st, params@[i].name@, SymKind::Parameter, params@[i].mutable, params@[i].pos),
            params,
            i + 1,
        );
    }
}

proof fn lemma_slack_body(st: StV, f: FunctionDecl)
    ensures
        slack(st_body(st, f)) >= slack(st),
{
    let st1 = st_open(st, crate::scope::ScopeKind::Function);
    lemma_slack_params(st1, f.params, 0);
    lemma_slack_stmts(st_params(st1, f.params, 0), f.body, 0);
}

proof fn lemma_slack_bodies(st: StV, funcs: Vec<FunctionDecl>, i: int)
    ensures
        slack(st_bodies(st, funcs, i)) >= slack(st),
    decreases funcs@.len() - i,
{
    if 0 <= i < funcs@.len() {
        lemma_slack_body(st, funcs@[i]);
        lemma_slack_bodies(st_body(st, funcs@[i]), funcs, i + 1);
    }
}

/// Full coverage: a program that resolves with zero diagnostics has every
/// identifier use site bound to a real symbol — none is left at the
/// unresolved sentinel.
pub proof fn lemma_full_coverage(p: Program)
    ensures
        resolution_of(p).diags.len() == 0 ==> forall|i: int|
            0 <= i < resolution_of(p).bindings.len() ==> (#[trigger] resolution_of(
                p,
            ).bindings[i]).res is Resolved,
{
    let st0 = st_init();
    let st1 = st_sigs(st0, p.funcs, 0);
    let st = st_program(p);
    lemma_slack_sigs(st0, p.funcs, 0);
    lemma_slack_bodies(st1, p.funcs, 0);
    if resolution_of(p).diags.len() == 0 {
        lemma_n_unres_nonneg(st.bindings);
        lemma_n_unres_zero(st.bindings);
        assert forall|i: int|
            0 <= i < resolution_of(p).bindings.len() implies (#[trigger] resolution_of(
            p,
        ).bindings[i]).res is Resolved by {
            assert(!(st.bindings[i].res is Unresolved));
        }
    }
}

/// Determinism: the outcome of the pass is a pure function of the AST, so
/// two runs over the same program — which `resolve_program` guarantees both
/// equal `resolution_of(p)` — carry identical diagnostic lists, bindings and
/// symbols.
pub proof fn lemma_deterministic(p: Program, r1: ResolutionV, r2: ResolutionV)
    requires
        r1 == resolution_of(p),
        r2 == resolution_of(p),
    ensures
        r1.diags == r2.diags,
        r1.bindings == r2.bindings,
        r1.symbols == r2.symbols,
{
}

proof fn lemma_find_push_new(entries: Seq<EntryV>, e: EntryV, s: int, name: Seq<char>, j: int)
    requires
        0 <= j <= entries.len(),
        find_from(entries, s, name, j) is None,
        entry_matches(e, s, name),
    ensures
        find_from(entries.push(e), s, name, j) == Some(e.sym),
    decreases entries.len() - j,
{
    if j < entries.len() {
        assert(entries.push(e)[j] == entries[j]);
        lemma_find_push_new(entries, e, s, name, j + 1);
    } else {
        assert(entries.push(e)[j] == e);
    }
}

proof fn lemma_find_push_preserve(entries: Seq<EntryV>, e: EntryV, s: int, name: Seq<char>, j: int)
    requires
        find_from(entries, s, name, j) is Some,
    ensures
        find_from(entries.push(e), s, name, j) == find_from(entries, s, name, j),
    decreases entries.len() - j,
{
    if 0 <= j < entries.len() {
        assert(entries.push(e)[j] == entries[j]);
        if !entry_matches(entries[j], s, name) {
            lemma_find_push_preserve(entries, e, s, name, j + 1);
        }
    }
}

/// Shadowing is legal and binds innermost: declaring `name` in the current
/// scope when the scope itself does not yet bind it — whatever any enclosing
/// scope declares — adds no diagnostic, and a lookup from the current scope
/// afterwards finds exactly the new symbol.
pub proof fn lemma_shadowing(st: StV, name: Seq<char>, kind: SymKind, mutable: bool, pos: Pos)
    requires
        wf_st(st),
        !scope_has(st.table, st.table.cur, name),
    ensures
        ({
            let st2 = st_declare(st, name, kind, mutable, pos);
            &&& st2.diags == st.diags
            &&& st2.bindings == st.bindings
            &&& lookup_at(st2.table, st2.table.cur, name) == Some(st.table.registry.len() as int)
        }),
{
    let st2 = st_declare(st, name, kind, mutable, pos);
    let id = st.table.registry.len() as int;
    let e = EntryV { scope: st.table.cur, name, sym: id };
    lemma_find_push_new(st.table.entries, e, st.table.cur, name, 0);
    assert(find_from(st2.table.entries, st2.table.cur, name, 0) == Some(id));
}

/// Redeclaration in the same scope: when the current scope itself already
/// binds `name`, declaring it again leaves the table — and so the first
/// declaration's binding — untouched, adds no binding occurrence, and adds
/// exactly one `RedeclarationInSameScope` diagnostic naming the first
/// declaration's position and the new one.
pub proof fn lemma_redeclaration(st: StV, name: Seq<char>, kind: SymKind, mutable: bool, pos: Pos)
    requires
        scope_has(st.table, st.table.cur, name),
    ensures
        ({
            let st2 = st_declare(st, name, kind, mutable, pos);
            let first_sym: int = match find_from(st.table.entries, st.table.cur, name, 0) {
                Some(v) => v,
                None => 0,
            };
            &&& st2.table == st.table
            &&& st2.bindings == st.bindings
            &&& st2.diags == st.diags.push(
                DiagV::RedeclarationInSameScope {
                    name,
                    first_pos: st.table.registry[first_sym].pos,
                    second_pos: pos,
                },
            )
        }),
{
}

proof fn lemma_find_from_extend_some(
    e0: Seq<EntryV>,
    e1: Seq<EntryV>,
    s: int,
    name: Seq<char>,
    j: int,
)
    requires
        0 <= j,
        e1.len() >= e0.len(),
        forall|m: int| 0 <= m < e0.len() ==> e1[m] == e0[m],
        find_from(e0, s, name, j) is Some,
    ensures
        find_from(e1, s, name, j) == find_from(e0, s, name, j),
    decreases e0.len() - j,
{
    if j < e0.len() {
        assert(e1[j] == e0[j]);
        if !entry_matches(e0[j], s, name) {
            lemma_find_from_extend_some(e0, e1, s, name, j + 1);
        }
    }
}

proof fn lemma_params_preserve_scope_has(st: StV, params: Vec<Param>, i: int, s: int, name: Seq<char>)
    requires
        scope_has(st.table, s, name),
    ensures
        scope_has(st_params(st, params, i).table, s, name),
    decreases params@.len() - i,
{
    if 0 <= i < params@.len() {
        lemma_declare_preserves_scope_has(
            st,
            params@[i].name@,
            SymKind::Parameter,
            params@[i].mutable,
            params@[i].pos,
            s,
            name,
        );
        lemma_params_preserve_scope_has(
            st_declare(st, params@[i].name@, SymKind::Parameter, params@[i].mutable, params@[i].pos),
            params,
            i + 1,
            s,
            name,
        );
    }
}

proof fn lemma_body_preserves_scope_has(st: StV, f: FunctionDecl, s: int, name: Seq<char>)
    requires
        scope_has(st.table, s, name),
    ensures
        scope_has(st_body(st, f).table, s, name),
{
    let st1 = st_open(st, crate::scope::ScopeKind::Function);
    lemma_params_preserve_scope_has(st1, f.params, 0, s, name);
    let st2 = st_params(st1, f.params, 0);
    lemma_stmts_discipline(st2, f.body, 0);
    let st3 = st_stmts(st2, f.body, 0);
    lemma_find_from_extend_some(st2.table.entries, st3.table.entries, s, name, 0);
}

proof fn lemma_bodies_preserve_scope_has(
    st: StV,
    funcs: Vec<FunctionDecl>,
    i: int,
    s: int,
    name: Seq<char>,
)
    requires
        scope_has(st.table, s, name),
    ensures
        scope_has(st_bodies(st, funcs, i).table, s, name),
    decreases funcs@.len() - i,
{
    if 0 <= i < funcs@.len() {
        lemma_body_preserves_scope_has(st, funcs@[i], s, name);
        lemma_bodies_preserve_scope_has(st_body(st, funcs@[i]), funcs, i + 1, s, name);
    }
}

// --- Spec-level preservation of the table invariants --------------------

proof fn lemma_table_declare_wf(t: TableV, name: Seq<char>, kind: SymKind, mutable: bool, pos: Pos)
    requires
        wf_table(t),
    ensures
        wf_table(table_declare(t, name, kind, mutable, pos).0),
{
    let t1 = table_declare(t, name, kind, mutable, pos).0;
    match find_from(t.entries, t.cur, name, 0) {
        Some(_) => {},
        None => {
            assert forall|j: int|
                0 <= j < t1.entries.len() implies 0 <= #[trigger] t1.entries[j].scope
                < t1.scopes.len() && 0 <= t1.entries[j].sym < t1.registry.len() by {
                if j < t.entries.len() {
                    assert(t1.entries[j] == t.entries[j]);
                } else {
                    assert(t1.entries[j] == EntryV {
                        scope: t.cur,
                        name,
                        sym: t.registry.len() as int,
                    });
                }
            }
        },
    }
}

proof fn lemma_table_open_wf(t: TableV, kind: ScopeKind)
    requires
        wf_table(t),
    ensures
        wf_table(table_open(t, kind)),
{
    let t1 = table_open(t, kind);
    assert forall|i: int|
        0 <= i < t1.scopes.len() implies (#[trigger] t1.scopes[i].parent matches Some(q) ==> 0
        <= q < i) by {
        if i < t.scopes.len() {
            assert(t1.scopes[i] == t.scopes[i]);
        } else {
            assert(t1.scopes[i] == ScopeV { kind, parent: Some(t.cur) });
        }
    }
}

proof fn lemma_reaches_same_scopes(t0: TableV, t1: TableV, s: int)
    requires
        t0.scopes == t1.scopes,
    ensures
        reaches_module(t0, s) == reaches_module(t1, s),
    decreases s,
{
    if 0 <= s < t0.scopes.len() && s != 0 {
        match t0.scopes[s].parent {
            Some(p) => {
                if 0 <= p < s {
                    lemma_reaches_same_scopes(t0, t1, p);
                }
            },
            None => {},
        }
    }
}

proof fn lemma_reaches_extend(t0: TableV, t1: TableV, s: int)
    requires
        reaches_module(t0, s),
        t1.scopes.len() >= t0.scopes.len(),
        forall|j: int| 0 <= j < t0.scopes.len() ==> t1.scopes[j] == t0.scopes[j],
    ensures
        reaches_module(t1, s),
    decreases s,
{
    assert(t1.scopes[s] == t0.scopes[s]);
    if s != 0 {
        match t0.scopes[s].parent {
            Some(p) => {
                if 0 <= p < s {
                    lemma_reaches_extend(t0, t1, p);
                }
            },
            None => {},
        }
    }
}

// --- No use of a hoisted name is ever undeclared ------------------------

/// `d1` extends `d0` and none of the added diagnostics is an
/// `UndeclaredIdentifier` carrying the name `nm`.
pub open spec fn adds_no_undeclared_of(d0: Seq<DiagV>, d1: Seq<DiagV>, nm: Seq<char>) -> bool {
    &&& d1.len() >= d0.len()
    &&& forall|j: int| 0 <= j < d0.len() ==> d1[j] == d0[j]
    &&& forall|j: int|
        d0.len() <= j < d1.len() ==> !((#[trigger] d1[j]) matches DiagV::UndeclaredIdentifier {
            name,
            ..
        } && name == nm)
}

proof fn lemma_adds_none_trans(d0: Seq<DiagV>, d1: Seq<DiagV>, d2: Seq<DiagV>, nm: Seq<char>)
    requires
        adds_no_undeclared_of(d0, d1, nm),
        adds_no_undeclared_of(d1, d2, nm),
    ensures
        adds_no_undeclared_of(d0, d2, nm),
{
}

/// The standing facts the traversal maintains about a hoisted name `nm`:
/// the table is well formed, the current scope's parent chain reaches the
/// module scope, and the module scope itself binds `nm`.
pub open spec fn hoisted_visible(st: StV, nm: Seq<char>) -> bool {
    &&& wf_table(st.table)
    &&& reaches_module(st.table, st.table.cur)
    &&& scope_has(st.table, 0, nm)
}

proof fn lemma_hv_use_name(st: StV, name: Seq<char>, pos: Pos, nm: Seq<char>)
    requires
        hoisted_visible(st, nm),
    ensures
        adds_no_undeclared_of(st.diags, st_use_name(st, name, pos).diags, nm),
{
    if name == nm {
        lemma_module_names_visible(st.table, st.table.cur, nm);
    } else {
        match lookup_at(st.table, st.table.cur, name) {
            Some(_) => {},
            None => {
                let d1 = st_use_name(st, name, pos).diags;
                assert(d1 == st.diags.push(DiagV::UndeclaredIdentifier { name, pos }));
                assert forall|j: int| 0 <= j < st.diags.len() implies d1[j] == st.diags[j] by {}
            },
        }
    }
}

proof fn lemma_hv_declare(st: StV, dname: Seq<char>, kind: SymKind, mutable: bool, pos: Pos, nm: Seq<char>)
    requires
        hoisted_visible(st, nm),
    ensures
        hoisted_visible(st_declare(st, dname, kind, mutable, pos), nm),
        st_declare(st, dname, kind, mutable, pos).table.cur == st.table.cur,
        adds_no_undeclared_of(st.diags, st_declare(st, dname, kind, mutable, pos).diags, nm),
{
    let st1 = st_declare(st, dname, kind, mutable, pos);
    lemma_table_declare_wf(st.table, dname, kind, mutable, pos);
    lemma_declare_preserves_scope_has(st, dname, kind, mutable, pos, 0, nm);
    lemma_reaches_same_scopes(st.table, st1.table, st.table.cur);
}

proof fn lemma_hv_open(st: StV, kind: ScopeKind, nm: Seq<char>)
    requires
        hoisted_visible(st, nm),
    ensures
        hoisted_visible(st_open(st, kind), nm),
        st_open(st, kind).diags == st.diags,
{
    let t = st.table;
    let t1 = st_open(st, kind).table;
    lemma_table_open_wf(t, kind);
    lemma_reaches_extend(t, t1, t.cur);
    assert(t1.scopes[t.cur as int] == t.scopes[t.cur]);
    assert(t1.scopes[t1.cur] == ScopeV { kind, parent: Some(t.cur) });
}

proof fn lemma_hv_close(st: StV, nm: Seq<char>)
    requires
        hoisted_visible(st, nm),
    ensures
        hoisted_visible(st_close(st), nm),
        st_close(st).diags == st.diags,
{
    let t = st.table;
    assert(t.scopes[t.cur].parent matches Some(q) ==> 0 <= q < t.cur);
    match t.scopes[t.cur].parent {
        Some(p) => {
            let t1 = st_close(st).table;
            lemma_reaches_same_scopes(t, t1, p);
        },
        None => {},
    }
}

proof fn lemma_hv_expr(st: StV, e: Expr, nm: Seq<char>)
    requires
        hoisted_visible(st, nm),
    ensures
        adds_no_undeclared_of(st.diags, st_expr(st, e).diags, nm),
    decreases e, 0int,
{
    match e {
        Expr::IntLit { .. } => {},
        Expr::StrLit { .. } => {},
        Expr::Var { name, pos } => {
            lemma_hv_use_name(st, name@, pos, nm);
        },
        Expr::Binary { lhs, rhs, .. } => {
            lemma_hv_expr(st, *lhs, nm);
            let st1 = st_expr(st, *lhs);
            lemma_expr_keeps_table(st, *lhs);
            lemma_hv_expr(st1, *rhs, nm);
            lemma_adds_none_trans(st.diags, st1.diags, st_expr(st1, *rhs).diags, nm);
        },
        Expr::Call { callee, pos, args } => {
            lemma_hv_use_name(st, callee@, pos, nm);
            let st1 = st_use_name(st, callee@, pos);
            lemma_hv_exprs(st1, args, 0, nm);
            lemma_adds_none_trans(st.diags, st1.diags, st_exprs(st1, args, 0).diags, nm);
        },
        Expr::Subscript { base, index } => {
            lemma_hv_receiver(st, *base, nm);
            lemma_receiver_keeps_table(st, *base);
            let (st1, go) = st_receiver(st, *base);
            if go {
                lemma_hv_expr(st1, *index, nm);
                lemma_adds_none_trans(st.diags, st1.diags, st_expr(st1, *index).diags, nm);
            }
        },
        Expr::Slice { base, start, end } => {
            lemma_hv_receiver(st, *base, nm);
            lemma_receiver_keeps_table(st, *base);
            let (st1, go) = st_receiver(st, *base);
            if go {
                lemma_hv_expr(st1, *start, nm);
                let st2 = st_expr(st1, *start);
                lemma_expr_keeps_table(st1, *start);
                lemma_hv_expr(st2, *end, nm);
                lemma_adds_none_trans(st1.diags, st2.diags, st_expr(st2, *end).diags, nm);
                lemma_adds_none_trans(st.diags, st1.diags, st_expr(st2, *end).diags, nm);
            }
        },
        Expr::ArrayLit { elems, .. } => {
            lemma_hv_exprs(st, elems, 0, nm);
        },
    }
}

proof fn lemma_hv_receiver(st: StV, base: Expr, nm: Seq<char>)
    requires
        hoisted_visible(st, nm),
    ensures
        adds_no_undeclared_of(st.diags, st_receiver(st, base).0.diags, nm),
    decreases base, 1int,
{
    match base {
        Expr::IntLit { .. } => {},
        Expr::StrLit { .. } => {},
        Expr::Var { name, pos } => {
            lemma_hv_use_name(st, name@, pos, nm);
        },
        _ => {
            lemma_hv_expr(st, base, nm);
        },
    }
}

proof fn lemma_hv_exprs(st: StV, es: Vec<Expr>, i: int, nm: Seq<char>)
    requires
        hoisted_visible(st, nm),
    ensures
        adds_no_undeclared_of(st.diags, st_exprs(st, es, i).diags, nm),
    decreases es, es@.len() - i,
{
    if 0 <= i < es@.len() {
        lemma_hv_expr(st, es@[i], nm);
        let st1 = st_expr(st, es@[i]);
        lemma_expr_keeps_table(st, es@[i]);
        lemma_hv_exprs(st1, es, i + 1, nm);
        lemma_adds_none_trans(st.diags, st1.diags, st_exprs(st1, es, i + 1).diags, nm);
    }
}

proof fn lemma_hv_target(st: StV, t: AssignTarget, nm: Seq<char>)
    requires
        hoisted_visible(st, nm),
    ensures
        adds_no_undeclared_of(st.diags, st_target(st, t).diags, nm),
{
    match t {
        AssignTarget::Name { name, pos } => {
            lemma_hv_use_name(st, name@, pos, nm);
        },
        AssignTarget::Subscript { name, pos, index } => {
            lemma_hv_use_name(st, name@, pos, nm);
            let st1 = st_use_name(st, name@, pos);
            if lookup_at(st.table, st.table.cur, name@) is Some {
                lemma_hv_expr(st1, *index, nm);
                lemma_adds_none_trans(st.diags, st1.diags, st_expr(st1, *index).diags, nm);
            }
        },
        AssignTarget::Slice { name, pos, start, end } => {
            lemma_hv_use_name(st, name@, pos, nm);
            let st1 = st_use_name(st, name@, pos);
            if lookup_at(st.table, st.table.cur, name@) is Some {
                lemma_hv_expr(st1, *start, nm);
                let st2 = st_expr(st1, *start);
                lemma_expr_keeps_table(st1, *start);
                lemma_hv_expr(st2, *end, nm);
                lemma_adds_none_trans(st1.diags, st2.diags, st_expr(st2, *end).diags, nm);
                lemma_adds_none_trans(st.diags, st1.diags, st_expr(st2, *end).diags, nm);
            }
        },
    }
}

proof fn lemma_hv_placeholders(st: StV, s: Seq<char>, i: int, pos: Pos, nm: Seq<char>)
    requires
        hoisted_visible(st, nm),
    ensures
        adds_no_undeclared_of(st.diags, st_placeholders(st, s, i, pos).diags, nm),
    decreases s.len() - i, 0int,
{
    if 0 <= i < s.len() {
        if s[i] == '{' {
            lemma_hv_ph_name(st, s, i + 1, i + 1, pos, nm);
        } else {
            lemma_hv_placeholders(st, s, i + 1, pos, nm);
        }
    }
}

proof fn lemma_hv_ph_name(st: StV, s: Seq<char>, start: int, k: int, pos: Pos, nm: Seq<char>)
    requires
        hoisted_visible(st, nm),
    ensures
        adds_no_undeclared_of(st.diags, st_ph_name(st, s, start, k, pos).diags, nm),
    decreases s.len() - k, 1int,
{
    if 0 <= k < s.len() {
        if s[k] == '}' {
            let st1 = if 0 <= start && start < k {
                st_use_name(st, s.subrange(start, k), pos)
            } else {
                st
            };
            if 0 <= start && start < k {
                lemma_hv_use_name(st, s.subrange(start, k), pos, nm);
            }
            lemma_hv_placeholders(st1, s, k + 1, pos, nm);
            lemma_adds_none_trans(st.diags, st1.diags, st_placeholders(st1, s, k + 1, pos).diags, nm);
        } else {
            lemma_hv_ph_name(st, s, start, k + 1, pos, nm);
        }
    }
}

proof fn lemma_hv_stmt(st: StV, s: Stmt, nm: Seq<char>)
    requires
        hoisted_visible(st, nm),
    ensures
        hoisted_visible(st_stmt(st, s), nm),
        adds_no_undeclared_of(st.diags, st_stmt(st, s).diags, nm),
    decreases s, 0int,
{
    match s {
        Stmt::Let { name, pos, mutable, init, .. } => {
            lemma_hv_expr(st, init, nm);
            let st1 = st_expr(st, init);
            lemma_expr_keeps_table(st, init);
            lemma_hv_declare(st1, name@, SymKind::Variable, mutable, pos, nm);
            lemma_adds_none_trans(
                st.diags,
                st1.diags,
                st_declare(st1, name@, SymKind::Variable, mutable, pos).diags,
                nm,
            );
        },
        Stmt::Assign { target, value } => {
            lemma_hv_target(st, target, nm);
            let st1 = st_target(st, target);
            lemma_target_keeps_table(st, target);
            lemma_hv_expr(st1, value, nm);
            lemma_expr_keeps_table(st1, value);
            lemma_adds_none_trans(st.diags, st1.diags, st_expr(st1, value).diags, nm);
        },
        Stmt::ExprStmt { expr } => {
            lemma_hv_expr(st, expr, nm);
            lemma_expr_keeps_table(st, expr);
        },
        Stmt::For { var, var_pos, range, body } => {
            lemma_hv_expr(st, range, nm);
            let st1 = st_expr(st, range);
            lemma_expr_keeps_table(st, range);
            lemma_hv_open(st1, crate::scope::ScopeKind::Loop, nm);
            let st2 = st_open(st1, crate::scope::ScopeKind::Loop);
            lemma_hv_declare(st2, var@, SymKind::LoopVar, false, var_pos, nm);
            let st3 = st_declare(st2, var@, SymKind::LoopVar, false, var_pos);
            lemma_hv_stmts(st3, body, 0, nm);
            let st4 = st_stmts(st3, body, 0);
            lemma_hv_close(st4, nm);
            lemma_adds_none_trans(st1.diags, st3.diags, st4.diags, nm);
            lemma_adds_none_trans(st.diags, st1.diags, st4.diags, nm);
        },
        Stmt::Print { format, pos, args } => {
            lemma_hv_placeholders(st, format@, 0, pos, nm);
            let st1 = st_placeholders(st, format@, 0, pos);
            lemma_placeholders_keep_table(st, format@, 0, pos);
            lemma_hv_exprs(st1, args, 0, nm);
            lemma_exprs_keep_table(st1, args, 0);
            lemma_adds_none_trans(st.diags, st1.diags, st_exprs(st1, args, 0).diags, nm);
        },
        Stmt::Return { result } => {
            match result {
                Some(e) => {
                    lemma_hv_expr(st, e, nm);
                    lemma_expr_keeps_table(st, e);
                },
                None => {},
            }
        },
    }
}

proof fn lemma_hv_stmts(st: StV, ss: Vec<Stmt>, i: int, nm: Seq<char>)
    requires
        hoisted_visible(st, nm),
    ensures
        hoisted_visible(st_stmts(st, ss, i), nm),
        adds_no_undeclared_of(st.diags, st_stmts(st, ss, i).diags, nm),
    decreases ss, ss@.len() - i,
{
    if 0 <= i < ss@.len() {
        lemma_hv_stmt(st, ss@[i], nm);
        let st1 = st_stmt(st, ss@[i]);
        lemma_hv_stmts(st1, ss, i + 1, nm);
        lemma_adds_none_trans(st.diags, st1.diags, st_stmts(st1, ss, i + 1).diags, nm);
    }
}

proof fn lemma_hv_params(st: StV, params: Vec<Param>, i: int, nm: Seq<char>)
    requires
        hoisted_visible(st, nm),
    ensures
        hoisted_visible(st_params(st, params, i), nm),
        adds_no_undeclared_of(st.diags, st_params(st, params, i).diags, nm),
    decreases params@.len() - i,
{
    if 0 <= i < params@.len() {
        lemma_hv_declare(
            st,
            params@[i].name@,
            SymKind::Parameter,
            params@[i].mutable,
            params@[i].pos,
            nm,
        );
        let st1 = st_declare(
            st,
            params@[i].name@,
            SymKind::Parameter,
            params@[i].mutable,
            params@[i].pos,
        );
        lemma_hv_params(st1, params, i + 1, nm);
        lemma_adds_none_trans(st.diags, st1.diags, st_params(st1, params, i + 1).diags, nm);
    }
}

proof fn lemma_hv_body(st: StV, f: FunctionDecl, nm: Seq<char>)
    requires
        hoisted_visible(st, nm),
    ensures
        hoisted_visible(st_body(st, f), nm),
        adds_no_undeclared_of(st.diags, st_body(st, f).diags, nm),
{
    lemma_hv_open(st, crate::scope::ScopeKind::Function, nm);
    let st1 = st_open(st, crate::scope::ScopeKind::Function);
    lemma_hv_params(st1, f.params, 0, nm);
    let st2 = st_params(st1, f.params, 0);
    lemma_hv_stmts(st2, f.body, 0, nm);
    let st3 = st_stmts(st2, f.body, 0);
    lemma_hv_close(st3, nm);
    lemma_adds_none_trans(st1.diags, st2.diags, st3.diags, nm);
    lemma_adds_none_trans(st.diags, st1.diags, st3.diags, nm);
}

proof fn lemma_hv_bodies(st: StV, funcs: Vec<FunctionDecl>, i: int, nm: Seq<char>)
    requires
        hoisted_visible(st, nm),
    ensures
        adds_no_undeclared_of(st.diags, st_bodies(st, funcs, i).diags, nm),
    decreases funcs@.len() - i,
{
    if 0 <= i < funcs@.len() {
        lemma_hv_body(st, funcs@[i], nm);
        let st1 = st_body(st, funcs@[i]);
        lemma_hv_bodies(st1, funcs, i + 1, nm);
        lemma_adds_none_trans(st.diags, st1.diags, st_bodies(st1, funcs, i + 1).diags, nm);
    }
}

proof fn lemma_sigs_frame(st: StV, funcs: Vec<FunctionDecl>, i: int, nm: Seq<char>)
    requires
        wf_table(st.table),
    ensures
        wf_table(st_sigs(st, funcs, i).table),
        st_sigs(st, funcs, i).table.scopes == st.table.scopes,
        adds_no_undeclared_of(st.diags, st_sigs(st, funcs, i).diags, nm),
    decreases funcs@.len() - i,
{
    if 0 <= i < funcs@.len() {
        let f = funcs@[i];
        lemma_table_declare_wf(st.table, f.name@, SymKind::Function, false, f.pos);
        let st1 = st_declare(st, f.name@, SymKind::Function, false, f.pos);
        lemma_sigs_frame(st1, funcs, i + 1, nm);
        lemma_adds_none_trans(st.diags, st1.diags, st_sigs(st1, funcs, i + 1).diags, nm);
    }
}

/// Forward and self reference, end to end: no `UndeclaredIdentifier` in the
/// whole resolution of `p` — phase one and every body — carries the name of
/// a top-level function of `p`.  Any use of such a name, a call to the
/// function itself, to an earlier one or to one declared later, always
/// finds a symbol through the hoisted module scope; recursion, mutual
/// recursion and forward calls therefore contribute zero diagnostics.
pub proof fn lemma_declared_function_never_undeclared(p: Program, k: int)
    requires
        0 <= k < p.funcs@.len(),
    ensures
        forall|j: int|
            0 <= j < resolution_of(p).diags.len() ==> !((#[trigger] resolution_of(
                p,
            ).diags[j]) matches DiagV::UndeclaredIdentifier { name, .. } && name == p.funcs@[
                k
            ].name@),
{
    let nm = p.funcs@[k].name@;
    let st0 = st_init();
    assert(wf_table(st0.table));
    lemma_sigs_frame(st0, p.funcs, 0, nm);
    lemma_signatures_hoisted(st0, p.funcs, 0, k);
    lemma_sigs_keep_cur(st0, p.funcs, 0);
    let st1 = st_sigs(st0, p.funcs, 0);
    assert(reaches_module(st1.table, st1.table.cur));
    lemma_hv_bodies(st1, p.funcs, 0, nm);
    lemma_adds_none_trans(st0.diags, st1.diags, st_bodies(st1, p.funcs, 0).diags, nm);
}

/// Top-level hoisting, end to end: every function declared anywhere in the
/// program is bound in the module scope after phase one, and stays bound
/// there through the resolution of every body.  Module-level declarations
/// are visible from the start of the pass to its end.
pub proof fn lemma_hoisting_persists(p: Program, k: int)
    requires
        0 <= k < p.funcs@.len(),
    ensures
        scope_has(st_sigs(st_init(), p.funcs, 0).table, 0, p.funcs@[k].name@),
        scope_has(st_program(p).table, 0, p.funcs@[k].name@),
{
    let st0 = st_init();
    lemma_signatures_hoisted(st0, p.funcs, 0, k);
    let st1 = st_sigs(st0, p.funcs, 0);
    lemma_bodies_preserve_scope_has(st1, p.funcs, 0, 0, p.funcs@[k].name@);
}

/// Does the chain of parents from scope `s` reach the module scope?  It
/// always does for the scope the traversal stands in.
pub open spec fn reaches_module(t: TableV, s: int) -> bool
    decreases s,
{
    if 0 <= s < t.scopes.len() {
        if s == 0 {
            true
        } else {
            match t.scopes[s].parent {
                Some(p) => if 0 <= p < s {
                    reaches_module(t, p)
                } else {
                    false
                },
                None => false,
            }
        }
    } else {
        false
    }
}

/// Hoisting makes every module-level name visible everywhere: a name bound
/// in the module scope is found by lookup from any scope whose parent chain
/// reaches the module scope — possibly shadowed, but never undeclared.
pub proof fn lemma_module_names_visible(t: TableV, s: int, name: Seq<char>)
    requires
        wf_table(t),
        reaches_module(t, s),
        scope_has(t, 0, name),
    ensures
        lookup_at(t, s, name) is Some,
    decreases s,
{
    if s != 0 && find_from(t.entries, s, name, 0) is None {
        match t.scopes[s].parent {
            Some(p) => {
                lemma_module_names_visible(t, p, name);
            },
            None => {},
        }
    }
}

proof fn lemma_declare_preserves_scope_has(
    st: StV,
    dname: Seq<char>,
    kind: SymKind,
    mutable: bool,
    pos: Pos,
    s: int,
    name: Seq<char>,
)
    requires
        scope_has(st.table, s, name),
    ensures
        scope_has(st_declare(st, dname, kind, mutable, pos).table, s, name),
        st_declare(st, dname, kind, mutable, pos).table.cur == st.table.cur,
{
    let (t2, r) = table_declare(st.table, dname, kind, mutable, pos);
    match r {
        Ok(_) => {
            let id = st.table.registry.len() as int;
            let e = EntryV { scope: st.table.cur, name: dname, sym: id };
            lemma_find_push_preserve(st.table.entries, e, s, name, 0);
        },
        Err(_) => {},
    }
}

proof fn lemma_sigs_preserve_scope_has(
    st: StV,
    funcs: Vec<FunctionDecl>,
    i: int,
    s: int,
    name: Seq<char>,
)
    requires
        scope_has(st.table, s, name),
    ensures
        scope_has(st_sigs(st, funcs, i).table, s, name),
    decreases funcs@.len() - i,
{
    if 0 <= i < funcs@.len() {
        lemma_declare_preserves_scope_has(
            st,
            funcs@[i].name@,
            SymKind::Function,
            false,
            funcs@[i].pos,
            s,
            name,
        );
        lemma_sigs_preserve_scope_has(
            st_declare(st, funcs@[i].name@, SymKind::Function, false, funcs@[i].pos),
            funcs,
            i + 1,
            s,
            name,
        );
    }
}

proof fn lemma_sigs_keep_cur(st: StV, funcs: Vec<FunctionDecl>, i: int)
    ensures
        st_sigs(st, funcs, i).table.cur == st.table.cur,
    decreases funcs@.len() - i,
{
    if 0 <= i < funcs@.len() {
        lemma_sigs_keep_cur(
            st_declare(st, funcs@[i].name@, SymKind::Function, false, funcs@[i].pos),
            funcs,
            i + 1,
        );
    }
}

proof fn lemma_expr_keeps_table(st: StV, e: Expr)
    ensures
        st_expr(st, e).table == st.table,
    decreases e, 0int,
{
    match e {
        Expr::IntLit { .. } => {},
        Expr::StrLit { .. } => {},
        Expr::Var { .. } => {},
        Expr::Binary { lhs, rhs, .. } => {
            lemma_expr_keeps_table(st, *lhs);
            lemma_expr_keeps_table(st_expr(st, *lhs), *rhs);
        },
        Expr::Call { callee, pos, args } => {
            lemma_exprs_keep_table(st_use_name(st, callee@, pos), args, 0);
        },
        Expr::Subscript { base, index } => {
            lemma_receiver_keeps_table(st, *base);
            let (st1, go) = st_receiver(st, *base);
            if go {
                lemma_expr_keeps_table(st1, *index);
            }
        },
        Expr::Slice { base, start, end } => {
            lemma_receiver_keeps_table(st, *base);
            let (st1, go) = st_receiver(st, *base);
            if go {
                lemma_expr_keeps_table(st1, *start);
                lemma_expr_keeps_table(st_expr(st1, *start), *end);
            }
        },
        Expr::ArrayLit { elems, .. } => {
            lemma_exprs_keep_table(st, elems, 0);
        },
    }
}

proof fn lemma_receiver_keeps_table(st: StV, base: Expr)
    ensures
        st_receiver(st, base).0.table == st.table,
    decreases base, 1int,
{
    match base {
        Expr::IntLit { .. } => {},
        Expr::StrLit { .. } => {},
        Expr::Var { .. } => {},
        _ => {
            lemma_expr_keeps_table(st, base);
        },
    }
}

proof fn lemma_exprs_keep_table(st: StV, es: Vec<Expr>, i: int)
    ensures
        st_exprs(st, es, i).table == st.table,
    decreases es, es@.len() - i,
{
    if 0 <= i < es@.len() {
        lemma_expr_keeps_table(st, es@[i]);
        lemma_exprs_keep_table(st_expr(st, es@[i]), es, i + 1);
    }
}

proof fn lemma_target_keeps_table(st: StV, t: AssignTarget)
    ensures
        st_target(st, t).table == st.table,
{
    match t {
        AssignTarget::Name { .. } => {},
        AssignTarget::Subscript { name, pos, index } => {
            if lookup_at(st.table, st.table.cur, name@) is Some {
                lemma_expr_keeps_table(st_use_name(st, name@, pos), *index);
            }
        },
        AssignTarget::Slice { name, pos, start, end } => {
            if lookup_at(st.table, st.table.cur, name@) is Some {
                let st1 = st_use_name(st, name@, pos);
                lemma_expr_keeps_table(st1, *start);
                lemma_expr_keeps_table(st_expr(st1, *start), *end);
            }
        },
    }
}

proof fn lemma_placeholders_keep_table(st: StV, s: Seq<char>, i: int, pos: Pos)
    ensures
        st_placeholders(st, s, i, pos).table == st.table,
    decreases s.len() - i, 0int,
{
    if 0 <= i < s.len() {
        if s[i] == '{' {
            lemma_ph_name_keeps_table(st, s, i + 1, i + 1, pos);
        } else {
            lemma_placeholders_keep_table(st, s, i + 1, pos);
        }
    }
}

proof fn lemma_ph_name_keeps_table(st: StV, s: Seq<char>, start: int, k: int, pos: Pos)
    ensures
        st_ph_name(st, s, start, k, pos).table == st.table,
    decreases s.len() - k, 1int,
{
    if 0 <= k < s.len() {
        if s[k] == '}' {
            let st1 = if 0 <= start && start < k {
                st_use_name(st, s.subrange(start, k), pos)
            } else {
                st
            };
            lemma_placeholders_keep_table(st1, s, k + 1, pos);
        } else {
            lemma_ph_name_keeps_table(st, s, start, k + 1, pos);
        }
    }
}

/// Statement-level scope discipline, relating the table after a statement
/// to the table before it: the traversal stands in the same scope again,
/// every scope that existed still reads the same, existing entries are
/// untouched, and whatever entries were added belong either to the current
/// scope itself (a `let`) or to scopes that did not yet exist (loop scopes
/// and their contents).
pub open spec fn discipline(t0: TableV, t1: TableV) -> bool {
    &&& t1.cur == t0.cur
    &&& t1.scopes.len() >= t0.scopes.len()
    &&& forall|j: int| 0 <= j < t0.scopes.len() ==> t1.scopes[j] == t0.scopes[j]
    &&& t1.entries.len() >= t0.entries.len()
    &&& forall|j: int| 0 <= j < t0.entries.len() ==> t1.entries[j] == t0.entries[j]
    &&& forall|j: int|
        t0.entries.len() <= j < t1.entries.len() ==> (#[trigger] t1.entries[j]).scope == t0.cur
            || t1.entries[j].scope >= t0.scopes.len()
}

proof fn lemma_discipline_trans(t0: TableV, t1: TableV, t2: TableV)
    requires
        discipline(t0, t1),
        discipline(t1, t2),
    ensures
        discipline(t0, t2),
{
}

proof fn lemma_stmt_discipline(st: StV, s: Stmt)
    ensures
        discipline(st.table, st_stmt(st, s).table),
    decreases s, 0int,
{
    match s {
        Stmt::Let { name, pos, mutable, init, .. } => {
            lemma_expr_keeps_table(st, init);
        },
        Stmt::Assign { target, value } => {
            lemma_target_keeps_table(st, target);
            lemma_expr_keeps_table(st_target(st, target), value);
        },
        Stmt::ExprStmt { expr } => {
            lemma_expr_keeps_table(st, expr);
        },
        Stmt::For { var, var_pos, range, body } => {
            lemma_expr_keeps_table(st, range);
            let st1 = st_open(st_expr(st, range), crate::scope::ScopeKind::Loop);
            let loop_idx = st.table.scopes.len() as int;
            let st2 = st_declare(st1, var@, SymKind::LoopVar, false, var_pos);
            lemma_stmts_discipline(st2, body, 0);
            let st3 = st_stmts(st2, body, 0);
            assert(st3.table.scopes[loop_idx] == st1.table.scopes[loop_idx]);
            assert(st_stmt(st, s) == st_close(st3));
        },
        Stmt::Print { format, pos, args } => {
            lemma_placeholders_keep_table(st, format@, 0, pos);
            lemma_exprs_keep_table(st_placeholders(st, format@, 0, pos), args, 0);
        },
        Stmt::Return { result } => {
            match result {
                Some(e) => {
                    lemma_expr_keeps_table(st, e);
                },
                None => {},
            }
        },
    }
}

proof fn lemma_stmts_discipline(st: StV, ss: Vec<Stmt>, i: int)
    ensures
        discipline(st.table, st_stmts(st, ss, i).table),
    decreases ss, ss@.len() - i,
{
    if 0 <= i < ss@.len() {
        lemma_stmt_discipline(st, ss@[i]);
        lemma_stmts_discipline(st_stmt(st, ss@[i]), ss, i + 1);
        lemma_discipline_trans(
            st.table,
            st_stmt(st, ss@[i]).table,
            st_stmts(st, ss, i).table,
        );
    }
}

proof fn lemma_find_from_extend(e0: Seq<EntryV>, e1: Seq<EntryV>, s: int, name: Seq<char>, j: int)
    requires
        0 <= j,
        e1.len() >= e0.len(),
        forall|m: int| 0 <= m < e0.len() ==> e1[m] == e0[m],
        forall|m: int| e0.len() <= m < e1.len() ==> (#[trigger] e1[m]).scope != s,
    ensures
        find_from(e1, s, name, j) == find_from(e0, s, name, j),
    decreases e1.len() - j,
{
    if j < e0.len() {
        assert(e1[j] == e0[j]);
        if !entry_matches(e0[j], s, name) {
            lemma_find_from_extend(e0, e1, s, name, j + 1);
        }
    } else if j < e1.len() {
        assert(e1[j].scope != s);
        lemma_find_from_extend(e0, e1, s, name, j + 1);
    }
}

proof fn lemma_lookup_extend(t0: TableV, t1: TableV, s: int, name: Seq<char>)
    requires
        wf_table(t0),
        0 <= s < t0.scopes.len(),
        t1.scopes.len() >= t0.scopes.len(),
        forall|j: int| 0 <= j < t0.scopes.len() ==> t1.scopes[j] == t0.scopes[j],
        t1.entries.len() >= t0.entries.len(),
        forall|j: int| 0 <= j < t0.entries.len() ==> t1.entries[j] == t0.entries[j],
        forall|j: int|
            t0.entries.len() <= j < t1.entries.len() ==> (#[trigger] t1.entries[j]).scope
                >= t0.scopes.len(),
    ensures
        lookup_at(t1, s, name) == lookup_at(t0, s, name),
    decreases s,
{
    lemma_find_from_extend(t0.entries, t1.entries, s, name, 0);
    assert(t1.scopes[s] == t0.scopes[s]);
    if find_from(t0.entries, s, name, 0) is None {
        match t0.scopes[s].parent {
            Some(p) => {
                if 0 <= p < s {
                    lemma_lookup_extend(t0, t1, p, name);
                }
            },
            None => {},
        }
    }
}

/// The loop scope closes with the loop body: after a `for` statement the
/// traversal stands in the very scope it stood in before, and **every**
/// lookup from that scope — the induction variable's name included — gives
/// exactly what it gave before the loop.  A use of the induction variable
/// after the loop is therefore undeclared unless some enclosing scope
/// already bound that name before the loop.
pub proof fn lemma_loop_scope_closes(st: StV, s: Stmt, name: Seq<char>)
    requires
        wf_st(st),
        s matches Stmt::For { .. },
    ensures
        st_stmt(st, s).table.cur == st.table.cur,
        lookup_at(st_stmt(st, s).table, st.table.cur, name) == lookup_at(
            st.table,
            st.table.cur,
            name,
        ),
{
    match s {
        Stmt::For { var, var_pos, range, body } => {
            lemma_expr_keeps_table(st, range);
            let st1 = st_open(st_expr(st, range), crate::scope::ScopeKind::Loop);
            let loop_idx = st.table.scopes.len() as int;
            let st2 = st_declare(st1, var@, SymKind::LoopVar, false, var_pos);
            lemma_stmts_discipline(st2, body, 0);
            let st3 = st_stmts(st2, body, 0);
            assert(st3.table.scopes[loop_idx] == st1.table.scopes[loop_idx]);
            let st4 = st_close(st3);
            assert(st_stmt(st, s) == st4);
            assert(st4.table.cur == st.table.cur);
            assert forall|j: int|
                st.table.entries.len() <= j < st4.table.entries.len() implies (
            #[trigger] st4.table.entries[j]).scope >= st.table.scopes.len() by {
                if j < st2.table.entries.len() {
                    assert(st4.table.entries[j] == st2.table.entries[j]);
                }
            }
            lemma_lookup_extend(st.table, st4.table, st.table.cur, name);
        },
        _ => {},
    }
}

/// Sequential scoping inside bodies: a `let`'s initializer is resolved
/// before the new binding is declared, so a binding whose initializer reads
/// its own name — undeclared so far in the whole chain — gets exactly one
/// `UndeclaredIdentifier` for that use, at the use's position, while the
/// declaration itself goes through: the symbol is registered and no
/// diagnostic concerns it.
pub proof fn lemma_use_before_declare(
    st: StV,
    name: String,
    pos: Pos,
    upos: Pos,
    ty: Ty,
    mutable: bool,
)
    requires
        wf_st(st),
        lookup_at(st.table, st.table.cur, name@) is None,
    ensures
        ({
            let s = Stmt::Let { name, pos, ty, mutable, init: Expr::Var { name, pos: upos } };
            let st2 = st_stmt(st, s);
            &&& st2.diags == st.diags.push(DiagV::UndeclaredIdentifier { name: name@, pos: upos })
            &&& st2.bindings == st.bindings.push(
                BindingV { name: name@, pos: upos, res: BindResV::Unresolved },
            )
            &&& st2.table.registry.len() == st.table.registry.len() + 1
        }),
{
    let s = Stmt::Let { name, pos, ty, mutable, init: Expr::Var { name, pos: upos } };
    let st1 = st_expr(st, Expr::Var { name, pos: upos });
    assert(st1 == st_use_name(st, name@, upos));
    assert(find_from(st.table.entries, st.table.cur, name@, 0) is None);
    assert(st_stmt(st, s) == st_declare(st1, name@, SymKind::Variable, mutable, pos));
}

/// Forward and self reference: after phase one, the scope the signatures
/// were declared into binds **every** top-level function's name — the first,
/// the last, and every one in between — before any body is resolved.  With
/// `lemma_module_names_visible`, a call to any of them from any body's scope
/// therefore finds a symbol: recursion and mutual recursion resolve with no
/// `UndeclaredIdentifier`.
pub proof fn lemma_signatures_hoisted(st: StV, funcs: Vec<FunctionDecl>, i: int, k: int)
    requires
        0 <= i <= k < funcs@.len(),
    ensures
        scope_has(st_sigs(st, funcs, i).table, st.table.cur, funcs@[k].name@),
    decreases funcs@.len() - i,
{
    let f = funcs@[i];
    let st1 = st_declare(st, f.name@, SymKind::Function, false, f.pos);
    assert(st1.table.cur == st.table.cur);
    if i == k {
        match find_from(st.table.entries, st.table.cur, f.name@, 0) {
            Some(_) => {
                lemma_sigs_preserve_scope_has(st1, funcs, i + 1, st.table.cur, f.name@);
            },
            None => {
                let id = st.table.registry.len() as int;
                let e = EntryV { scope: st.table.cur, name: f.name@, sym: id };
                lemma_find_push_new(st.table.entries, e, st.table.cur, f.name@, 0);
                lemma_sigs_preserve_scope_has(st1, funcs, i + 1, st.table.cur, f.name@);
            },
        }
    } else {
        lemma_signatures_hoisted(st1, funcs, i + 1, k);
    }
}

} // verus!
