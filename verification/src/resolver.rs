//! The resolution pass: the declaration binder and the reference resolver,
//! co-traversing the AST in a single pass per lexical scope, threading the
//! diagnostic collector through both.
//!
//! The whole pass has a mathematical model: the spec functions below thread a
//! ghost state `StV` through the very traversal the executable code performs,
//! and every executable function is proved to leave the resolver in exactly
//! the state its spec counterpart describes.  `resolve_program` therefore
//! returns precisely `resolution_of(program)` — a pure function of the AST,
//! which is what makes the pass deterministic.

use vstd::prelude::*;
use crate::ast::{AssignTarget, Expr, FunctionDecl, Param, Pos, Program, Stmt};
use crate::scope::{
    init_table, lookup_at, table_close, table_declare, table_open, ScopeKind, ScopeTable, SymKind,
    Symbol, SymbolV, TableV, wf_table,
};
use vstd::string::{StringExecFns, StrSliceExecFns};

verus! {

/// What a use site resolved to: the symbol, or the explicit unresolved
/// sentinel used for error recovery.
#[derive(Clone, Copy, PartialEq, Eq, Structural, Debug)]
pub enum BindRes {
    /// The use site is bound to this symbol of the registry.
    Resolved(usize),
    /// No visible binding: the sentinel outcome, never a missing reference.
    Unresolved,
}

pub ghost enum BindResV {
    Resolved(int),
    Unresolved,
}

/// One binding occurrence: an identifier use site and what it resolved to.
/// Established once per use site, in traversal order, never revised.
#[derive(PartialEq, Eq, Debug)]
pub struct Binding {
    pub name: String,
    pub pos: Pos,
    pub res: BindRes,
}

pub ghost struct BindingV {
    pub name: Seq<char>,
    pub pos: Pos,
    pub res: BindResV,
}

impl View for Binding {
    type V = BindingV;

    open spec fn view(&self) -> BindingV {
        BindingV {
            name: self.name@,
            pos: self.pos,
            res: match self.res {
                BindRes::Resolved(s) => BindResV::Resolved(s as int),
                BindRes::Unresolved => BindResV::Unresolved,
            },
        }
    }
}

/// A resolution error.  Both kinds are local and non-fatal: the walk always
/// continues and the rest of the tree is still fully annotated.
#[derive(PartialEq, Eq, Debug)]
pub enum Diagnostic {
    /// A use site with no visible binding.
    UndeclaredIdentifier { name: String, pos: Pos },
    /// A second declaration of a name already present in the same scope;
    /// the first declaration is retained.
    RedeclarationInSameScope { name: String, first_pos: Pos, second_pos: Pos },
}

pub ghost enum DiagV {
    UndeclaredIdentifier { name: Seq<char>, pos: Pos },
    RedeclarationInSameScope { name: Seq<char>, first_pos: Pos, second_pos: Pos },
}

impl View for Diagnostic {
    type V = DiagV;

    open spec fn view(&self) -> DiagV {
        match self {
            Diagnostic::UndeclaredIdentifier { name, pos } => DiagV::UndeclaredIdentifier {
                name: name@,
                pos: *pos,
            },
            Diagnostic::RedeclarationInSameScope { name, first_pos, second_pos } => {
                DiagV::RedeclarationInSameScope {
                    name: name@,
                    first_pos: *first_pos,
                    second_pos: *second_pos,
                }
            },
        }
    }
}

/// The pass's durable output: every symbol, every binding occurrence in
/// traversal order, and the diagnostics in source order.
pub struct Resolution {
    pub symbols: Vec<Symbol>,
    pub bindings: Vec<Binding>,
    pub diags: Vec<Diagnostic>,
}

pub ghost struct ResolutionV {
    pub symbols: Seq<SymbolV>,
    pub bindings: Seq<BindingV>,
    pub diags: Seq<DiagV>,
}

impl View for Resolution {
    type V = ResolutionV;

    open spec fn view(&self) -> ResolutionV {
        ResolutionV {
            symbols: self.symbols@.map_values(|s: Symbol| s@),
            bindings: self.bindings@.map_values(|b: Binding| b@),
            diags: self.diags@.map_values(|d: Diagnostic| d@),
        }
    }
}

/// The resolver's whole state while the pass runs.
pub struct Resolver {
    pub table: ScopeTable,
    pub bindings: Vec<Binding>,
    pub diags: Vec<Diagnostic>,
}

/// The mathematical model of the resolver's state.
pub ghost struct StV {
    pub table: TableV,
    pub bindings: Seq<BindingV>,
    pub diags: Seq<DiagV>,
}

impl View for Resolver {
    type V = StV;

    open spec fn view(&self) -> StV {
        StV {
            table: self.table@,
            bindings: self.bindings@.map_values(|b: Binding| b@),
            diags: self.diags@.map_values(|d: Diagnostic| d@),
        }
    }
}

/// Well-formedness of the resolver state: a well-formed table, and every
/// resolved binding pointing into the symbol registry.
pub open spec fn wf_st(st: StV) -> bool {
    &&& wf_table(st.table)
    &&& forall|i: int|
        0 <= i < st.bindings.len() ==> (#[trigger] st.bindings[i].res matches BindResV::Resolved(k)
            ==> 0 <= k < st.table.registry.len())
}

/// The state a run starts from.
pub open spec fn st_init() -> StV {
    StV { table: init_table(), bindings: Seq::empty(), diags: Seq::empty() }
}

pub open spec fn with_binding(st: StV, b: BindingV) -> StV {
    StV { bindings: st.bindings.push(b), ..st }
}

pub open spec fn with_diag(st: StV, d: DiagV) -> StV {
    StV { diags: st.diags.push(d), ..st }
}

/// Resolving one identifier use site: scope-chain lookup from the current
/// scope; on failure, one `UndeclaredIdentifier` diagnostic and the sentinel
/// binding, so the walk continues without cascading.
pub open spec fn st_use_name(st: StV, name: Seq<char>, pos: Pos) -> StV {
    match lookup_at(st.table, st.table.cur, name) {
        Some(s) => with_binding(st, BindingV { name, pos, res: BindResV::Resolved(s) }),
        None => with_binding(
            with_diag(st, DiagV::UndeclaredIdentifier { name, pos }),
            BindingV { name, pos, res: BindResV::Unresolved },
        ),
    }
}

/// Declaring a name in the current scope: on a clash with a name the scope
/// itself already binds, one `RedeclarationInSameScope` diagnostic naming
/// the first declaration's position; the original binding is retained.
pub open spec fn st_declare(st: StV, name: Seq<char>, kind: SymKind, mutable: bool, pos: Pos) -> StV {
    let (t2, r) = table_declare(st.table, name, kind, mutable, pos);
    match r {
        Ok(_) => StV { table: t2, ..st },
        Err(first) => with_diag(
            st,
            DiagV::RedeclarationInSameScope {
                name,
                first_pos: st.table.registry[first].pos,
                second_pos: pos,
            },
        ),
    }
}

pub open spec fn st_open(st: StV, kind: ScopeKind) -> StV {
    StV { table: table_open(st.table, kind), ..st }
}

pub open spec fn st_close(st: StV) -> StV {
    StV { table: table_close(st.table), ..st }
}

/// Resolving one expression, in source order.
pub open spec fn st_expr(st: StV, e: Expr) -> StV
    decreases e, 0int,
{
    match e {
        Expr::IntLit { .. } => st,
        Expr::StrLit { .. } => st,
        Expr::Var { name, pos } => st_use_name(st, name@, pos),
        Expr::Binary { lhs, rhs, .. } => st_expr(st_expr(st, *lhs), *rhs),
        Expr::Call { callee, pos, args } => st_exprs(st_use_name(st, callee@, pos), args, 0),
        Expr::Subscript { base, index } => {
            let (st1, go) = st_receiver(st, *base);
            if go {
                st_expr(st1, *index)
            } else {
                st1
            }
        },
        Expr::Slice { base, start, end } => {
            let (st1, go) = st_receiver(st, *base);
            if go {
                st_expr(st_expr(st1, *start), *end)
            } else {
                st1
            }
        },
        Expr::ArrayLit { elems, .. } => st_exprs(st, elems, 0),
    }
}

/// Resolving the receiver of a subscript or slice.  A literal receiver needs
/// no lookup.  When the receiver is a bare identifier that does not resolve,
/// the index and bound sub-expressions are skipped, so the failure is
/// reported once, for the base alone; were the base declared, they would be
/// resolved as ordinary uses.
pub open spec fn st_receiver(st: StV, base: Expr) -> (StV, bool)
    decreases base, 1int,
{
    match base {
        Expr::IntLit { .. } => (st, true),
        Expr::StrLit { .. } => (st, true),
        Expr::Var { name, pos } => (
            st_use_name(st, name@, pos),
            lookup_at(st.table, st.table.cur, name@) is Some,
        ),
        _ => (st_expr(st, base), true),
    }
}

/// Resolving the expressions of `es` from index `i` on, in order.
pub open spec fn st_exprs(st: StV, es: Vec<Expr>, i: int) -> StV
    decreases es, es@.len() - i,
{
    if 0 <= i < es@.len() {
        st_exprs(st_expr(st, es@[i]), es, i + 1)
    } else {
        st
    }
}

/// Resolving an assignment target.  The base identifier of a subscript or
/// slice target must already be declared; its index and bound
/// sub-expressions are resolved only when it is, so an undeclared base is
/// reported once.
pub open spec fn st_target(st: StV, t: AssignTarget) -> StV {
    match t {
        AssignTarget::Name { name, pos } => st_use_name(st, name@, pos),
        AssignTarget::Subscript { name, pos, index } => {
            let found = lookup_at(st.table, st.table.cur, name@) is Some;
            let st1 = st_use_name(st, name@, pos);
            if found {
                st_expr(st1, *index)
            } else {
                st1
            }
        },
        AssignTarget::Slice { name, pos, start, end } => {
            let found = lookup_at(st.table, st.table.cur, name@) is Some;
            let st1 = st_use_name(st, name@, pos);
            if found {
                st_expr(st_expr(st1, *start), *end)
            } else {
                st1
            }
        },
    }
}

/// Scanning a print format string for `{name}` placeholders from position
/// `i` on.  Each named placeholder is resolved like a variable read at the
/// print statement's position; an empty `{}` is positional and needs no
/// lookup; an unterminated `{` ends the scan.
pub open spec fn st_placeholders(st: StV, s: Seq<char>, i: int, pos: Pos) -> StV
    decreases s.len() - i, 0int,
{
    if 0 <= i < s.len() {
        if s[i] == '{' {
            st_ph_name(st, s, i + 1, i + 1, pos)
        } else {
            st_placeholders(st, s, i + 1, pos)
        }
    } else {
        st
    }
}

/// Scanning for the `}` that closes a placeholder whose name starts at
/// `start`, with the cursor at `k`.
pub open spec fn st_ph_name(st: StV, s: Seq<char>, start: int, k: int, pos: Pos) -> StV
    decreases s.len() - k, 1int,
{
    if 0 <= k < s.len() {
        if s[k] == '}' {
            let st1 = if 0 <= start && start < k {
                st_use_name(st, s.subrange(start, k), pos)
            } else {
                st
            };
            st_placeholders(st1, s, k + 1, pos)
        } else {
            st_ph_name(st, s, start, k + 1, pos)
        }
    } else {
        st
    }
}

/// Resolving one statement, in source order.
///
/// A `for` opens the loop scope with the induction variable as its first
/// symbol, and the body's `let`s then extend that same scope — the loop
/// body introduces no scope of its own.  So a `let` of the induction
/// variable's name inside the body clashes with it: a redeclaration in the
/// same scope, not a shadow.
pub open spec fn st_stmt(st: StV, s: Stmt) -> StV
    decreases s, 0int,
{
    match s {
        Stmt::Let { name, pos, mutable, init, .. } => st_declare(
            st_expr(st, init),
            name@,
            SymKind::Variable,
            mutable,
            pos,
        ),
        Stmt::Assign { target, value } => st_expr(st_target(st, target), value),
        Stmt::ExprStmt { expr } => st_expr(st, expr),
        Stmt::For { var, var_pos, range, body } => st_close(
            st_stmts(
                st_declare(
                    st_open(st_expr(st, range), ScopeKind::Loop),
                    var@,
                    SymKind::LoopVar,
                    false,
                    var_pos,
                ),
                body,
                0,
            ),
        ),
        Stmt::Print { format, pos, args } => st_exprs(st_placeholders(st, format@, 0, pos), args, 0),
        Stmt::Return { result } => match result {
            Some(e) => st_expr(st, e),
            None => st,
        },
    }
}

/// Resolving the statements of `ss` from index `i` on, in order.
pub open spec fn st_stmts(st: StV, ss: Vec<Stmt>, i: int) -> StV
    decreases ss, ss@.len() - i,
{
    if 0 <= i < ss@.len() {
        st_stmts(st_stmt(st, ss@[i]), ss, i + 1)
    } else {
        st
    }
}

/// Phase one of the top level: every function name is declared into the
/// module scope before any body is processed, so forward references and
/// direct or mutual recursion resolve.
pub open spec fn st_sigs(st: StV, funcs: Vec<FunctionDecl>, i: int) -> StV
    decreases funcs@.len() - i,
{
    if 0 <= i < funcs@.len() {
        st_sigs(
            st_declare(st, funcs@[i].name@, SymKind::Function, false, funcs@[i].pos),
            funcs,
            i + 1,
        )
    } else {
        st
    }
}

/// Declaring a function's parameters, in declaration order.
pub open spec fn st_params(st: StV, params: Vec<Param>, i: int) -> StV
    decreases params@.len() - i,
{
    if 0 <= i < params@.len() {
        st_params(
            st_declare(st, params@[i].name@, SymKind::Parameter, params@[i].mutable, params@[i].pos),
            params,
            i + 1,
        )
    } else {
        st
    }
}

/// Phase two, for one function: a function scope is opened under the module
/// scope, the parameters are declared, the body is resolved statement by
/// statement, and the scope closes with the body.
pub open spec fn st_body(st: StV, f: FunctionDecl) -> StV {
    st_close(st_stmts(st_params(st_open(st, ScopeKind::Function), f.params, 0), f.body, 0))
}

/// Phase two over the whole program, in source order.
pub open spec fn st_bodies(st: StV, funcs: Vec<FunctionDecl>, i: int) -> StV
    decreases funcs@.len() - i,
{
    if 0 <= i < funcs@.len() {
        st_bodies(st_body(st, funcs@[i]), funcs, i + 1)
    } else {
        st
    }
}

/// The final state of resolving `p` from a fresh table.
pub open spec fn st_program(p: Program) -> StV {
    st_bodies(st_sigs(st_init(), p.funcs, 0), p.funcs, 0)
}

/// What resolving `p` produces: a pure function of the AST alone.
pub open spec fn resolution_of(p: Program) -> ResolutionV {
    let st = st_program(p);
    ResolutionV { symbols: st.table.registry, bindings: st.bindings, diags: st.diags }
}

impl Resolver {
    /// Resolve one identifier use site, as `st_use_name` describes.
    fn use_name(&mut self, name: &String, pos: Pos)
        requires
            wf_st(old(self)@),
        ensures
            final(self)@ == st_use_name(old(self)@, name@, pos),
            wf_st(final(self)@),
    {
        match self.table.lookup(name) {
            Some(sym) => {
                self.bindings.push(
                    Binding { name: name.clone(), pos, res: BindRes::Resolved(sym) },
                );
                proof {
                    let want = st_use_name(old(self)@, name@, pos);
                    assert(self@.bindings =~= want.bindings);
                    assert(self@.diags =~= want.diags);
                }
            },
            None => {
                self.diags.push(Diagnostic::UndeclaredIdentifier { name: name.clone(), pos });
                self.bindings.push(Binding { name: name.clone(), pos, res: BindRes::Unresolved });
                proof {
                    let want = st_use_name(old(self)@, name@, pos);
                    assert(self@.bindings =~= want.bindings);
                    assert(self@.diags =~= want.diags);
                }
            },
        }
    }

    /// Declare a name in the current scope, as `st_declare` describes.
    fn declare_name(&mut self, name: &String, kind: SymKind, mutable: bool, pos: Pos)
        requires
            wf_st(old(self)@),
        ensures
            final(self)@ == st_declare(old(self)@, name@, kind, mutable, pos),
            wf_st(final(self)@),
    {
        match self.table.declare(name, kind, mutable, pos) {
            Ok(_) => {},
            Err(first) => {
                let first_pos = self.table.registry[first].pos;
                self.diags.push(
                    Diagnostic::RedeclarationInSameScope {
                        name: name.clone(),
                        first_pos,
                        second_pos: pos,
                    },
                );
                proof {
                    let want = st_declare(old(self)@, name@, kind, mutable, pos);
                    assert(self@.diags =~= want.diags);
                }
            },
        }
    }

    fn open_scope(&mut self, kind: ScopeKind)
        requires
            wf_st(old(self)@),
        ensures
            final(self)@ == st_open(old(self)@, kind),
            wf_st(final(self)@),
    {
        self.table.open_scope(kind);
    }

    fn close_scope(&mut self)
        requires
            wf_st(old(self)@),
        ensures
            final(self)@ == st_close(old(self)@),
            wf_st(final(self)@),
    {
        self.table.close_scope();
    }

    /// Resolve one expression, as `st_expr` describes.
    fn resolve_expr(&mut self, e: &Expr)
        requires
            wf_st(old(self)@),
        ensures
            final(self)@ == st_expr(old(self)@, *e),
            wf_st(final(self)@),
        decreases e, 0int,
    {
        match e {
            Expr::IntLit { .. } => {},
            Expr::StrLit { .. } => {},
            Expr::Var { name, pos } => {
                self.use_name(name, *pos);
            },
            Expr::Binary { lhs, rhs, .. } => {
                self.resolve_expr(&**lhs);
                self.resolve_expr(&**rhs);
            },
            Expr::Call { callee, pos, args } => {
                self.use_name(callee, *pos);
                self.resolve_exprs(args, 0);
            },
            Expr::Subscript { base, index } => {
                let go = self.resolve_receiver(&**base);
                if go {
                    self.resolve_expr(&**index);
                }
            },
            Expr::Slice { base, start, end } => {
                let go = self.resolve_receiver(&**base);
                if go {
                    self.resolve_expr(&**start);
                    self.resolve_expr(&**end);
                }
            },
            Expr::ArrayLit { elems, .. } => {
                self.resolve_exprs(elems, 0);
            },
        }
    }

    /// Resolve a subscript or slice receiver, as `st_receiver` describes;
    /// the result says whether the index and bound sub-expressions are to be
    /// resolved.
    fn resolve_receiver(&mut self, base: &Expr) -> (go: bool)
        requires
            wf_st(old(self)@),
        ensures
            final(self)@ == st_receiver(old(self)@, *base).0,
            go == st_receiver(old(self)@, *base).1,
            wf_st(final(self)@),
        decreases base, 1int,
    {
        match base {
            Expr::IntLit { .. } => true,
            Expr::StrLit { .. } => true,
            Expr::Var { name, pos } => {
                let found = self.table.lookup(name).is_some();
                self.use_name(name, *pos);
                found
            },
            _ => {
                self.resolve_expr(base);
                true
            },
        }
    }

    /// Resolve the expressions of `es` from index `i` on.
    fn resolve_exprs(&mut self, es: &Vec<Expr>, i: usize)
        requires
            wf_st(old(self)@),
        ensures
            final(self)@ == st_exprs(old(self)@, *es, i as int),
            wf_st(final(self)@),
        decreases es, es@.len() - i,
    {
        if i < es.len() {
            self.resolve_expr(&es[i]);
            self.resolve_exprs(es, i + 1);
        }
    }

    /// Resolve an assignment target, as `st_target` describes.
    fn resolve_target(&mut self, t: &AssignTarget)
        requires
            wf_st(old(self)@),
        ensures
            final(self)@ == st_target(old(self)@, *t),
            wf_st(final(self)@),
    {
        match t {
            AssignTarget::Name { name, pos } => {
                self.use_name(name, *pos);
            },
            AssignTarget::Subscript { name, pos, index } => {
                let found = self.table.lookup(name).is_some();
                self.use_name(name, *pos);
                if found {
                    self.resolve_expr(&**index);
                }
            },
            AssignTarget::Slice { name, pos, start, end } => {
                let found = self.table.lookup(name).is_some();
                self.use_name(name, *pos);
                if found {
                    self.resolve_expr(&**start);
                    self.resolve_expr(&**end);
                }
            },
        }
    }

    /// Scan a print format string for placeholders from position `i` on, as
    /// `st_placeholders` describes.
    fn resolve_placeholders(&mut self, s: &str, i: usize, pos: Pos)
        requires
            wf_st(old(self)@),
        ensures
            final(self)@ == st_placeholders(old(self)@, s@, i as int, pos),
            wf_st(final(self)@),
        decreases s@.len() - i, 0int,
    {
        let n = s.unicode_len();
        if i < n {
            let c = s.get_char(i);
            if c == '{' {
                self.scan_placeholder_name(s, i + 1, i + 1, pos);
            } else {
                self.resolve_placeholders(s, i + 1, pos);
            }
        }
    }

    /// Scan for the `}` closing a placeholder whose name starts at `start`,
    /// as `st_ph_name` describes.
    fn scan_placeholder_name(&mut self, s: &str, start: usize, k: usize, pos: Pos)
        requires
            wf_st(old(self)@),
            start <= k,
        ensures
            final(self)@ == st_ph_name(old(self)@, s@, start as int, k as int, pos),
            wf_st(final(self)@),
        decreases s@.len() - k, 1int,
    {
        let n = s.unicode_len();
        if k < n {
            let c = s.get_char(k);
            if c == '}' {
                if start < k {
                    let name = String::from_str(s.substring_char(start, k));
                    self.use_name(&name, pos);
                }
                self.resolve_placeholders(s, k + 1, pos);
            } else {
                self.scan_placeholder_name(s, start, k + 1, pos);
            }
        }
    }

    /// Resolve one statement, as `st_stmt` describes.
    fn resolve_stmt(&mut self, s: &Stmt)
        requires
            wf_st(old(self)@),
        ensures
            final(self)@ == st_stmt(old(self)@, *s),
            wf_st(final(self)@),
        decreases s, 0int,
    {
        match s {
            Stmt::Let { name, pos, mutable, init, .. } => {
                self.resolve_expr(init);
                self.declare_name(name, SymKind::Variable, *mutable, *pos);
            },
            Stmt::Assign { target, value } => {
                self.resolve_target(target);
                self.resolve_expr(value);
            },
            Stmt::ExprStmt { expr } => {
                self.resolve_expr(expr);
            },
            Stmt::For { var, var_pos, range, body } => {
                self.resolve_expr(range);
                self.open_scope(ScopeKind::Loop);
                self.declare_name(var, SymKind::LoopVar, false, *var_pos);
                self.resolve_stmts(body, 0);
                self.close_scope();
            },
            Stmt::Print { format, pos, args } => {
                self.resolve_placeholders(format.as_str(), 0, *pos);
                self.resolve_exprs(args, 0);
            },
            Stmt::Return { result } => {
                match result {
                    Some(e) => {
                        self.resolve_expr(e);
                    },
                    None => {},
                }
            },
        }
    }

    /// Resolve the statements of `ss` from index `i` on.
    fn resolve_stmts(&mut self, ss: &Vec<Stmt>, i: usize)
        requires
            wf_st(old(self)@),
        ensures
            final(self)@ == st_stmts(old(self)@, *ss, i as int),
            wf_st(final(self)@),
        decreases ss, ss@.len() - i,
    {
        if i < ss.len() {
            self.resolve_stmt(&ss[i]);
            self.resolve_stmts(ss, i + 1);
        }
    }

    /// Phase one: declare every top-level function name into the module
    /// scope, before any body is processed.
    fn declare_signatures(&mut self, funcs: &Vec<FunctionDecl>, i: usize)
        requires
            wf_st(old(self)@),
        ensures
            final(self)@ == st_sigs(old(self)@, *funcs, i as int),
            wf_st(final(self)@),
        decreases funcs@.len() - i,
    {
        if i < funcs.len() {
            let f = &funcs[i];
            self.declare_name(&f.name, SymKind::Function, false, f.pos);
            self.declare_signatures(funcs, i + 1);
        }
    }

    /// Declare a function's parameters in declaration order.
    fn declare_params(&mut self, params: &Vec<Param>, i: usize)
        requires
            wf_st(old(self)@),
        ensures
            final(self)@ == st_params(old(self)@, *params, i as int),
            wf_st(final(self)@),
        decreases params@.len() - i,
    {
        if i < params.len() {
            let p = &params[i];
            self.declare_name(&p.name, SymKind::Parameter, p.mutable, p.pos);
            self.declare_params(params, i + 1);
        }
    }

    /// Phase two, for one function: its scope, parameters and body.
    fn resolve_body(&mut self, f: &FunctionDecl)
        requires
            wf_st(old(self)@),
        ensures
            final(self)@ == st_body(old(self)@, *f),
            wf_st(final(self)@),
    {
        self.open_scope(ScopeKind::Function);
        self.declare_params(&f.params, 0);
        self.resolve_stmts(&f.body, 0);
        self.close_scope();
    }

    /// Phase two over the whole program.
    fn resolve_bodies(&mut self, funcs: &Vec<FunctionDecl>, i: usize)
        requires
            wf_st(old(self)@),
        ensures
            final(self)@ == st_bodies(old(self)@, *funcs, i as int),
            wf_st(final(self)@),
        decreases funcs@.len() - i,
    {
        if i < funcs.len() {
            self.resolve_body(&funcs[i]);
            self.resolve_bodies(funcs, i + 1);
        }
    }
}

/// Run the whole pass on a program: phase one hoists the top-level function
/// names, phase two resolves every body in source order.  The result is
/// exactly `resolution_of(*p)` — the pass is deterministic and never aborts;
/// an empty diagnostic list is the only success signal.
pub fn resolve_program(p: &Program) -> (r: Resolution)
    ensures
        r@ == resolution_of(*p),
{
    let mut rsv = Resolver { table: ScopeTable::new(), bindings: Vec::new(), diags: Vec::new() };
    proof {
        assert(rsv@.bindings =~= st_init().bindings);
        assert(rsv@.diags =~= st_init().diags);
        assert(rsv@ == st_init());
    }
    rsv.declare_signatures(&p.funcs, 0);
    rsv.resolve_bodies(&p.funcs, 0);
    let r = Resolution { symbols: rsv.table.registry, bindings: rsv.bindings, diags: rsv.diags };
    proof {
        let st = st_program(*p);
        assert(r@.symbols == st.table.registry);
        assert(r@.bindings == st.bindings);
        assert(r@.diags == st.diags);
    }
    r
}

} // verus!
