//! The scope table: a chain of nested binding environments, plus the symbol
//! registry that records the metadata of every declaration.
//!
//! Scopes live in an append-only arena; each scope knows its parent, and the
//! table keeps a cursor `cur` at the scope the traversal is currently inside.
//! Closing a scope moves the cursor back to the parent; since lookups only
//! walk upward from the cursor, a closed scope is detached from every future
//! lookup.  Bindings are kept in one flat list of entries tagged with their
//! scope, so the table itself is a plain append-only structure.

use vstd::prelude::*;
use crate::ast::Pos;

verus! {

/// What a declaration declares.
#[derive(Clone, Copy, PartialEq, Eq, Structural, Debug)]
pub enum SymKind {
    Variable,
    Parameter,
    Function,
    LoopVar,
}

/// What lexical construct a scope belongs to.
#[derive(Clone, Copy, PartialEq, Eq, Structural, Debug)]
pub enum ScopeKind {
    Module,
    Function,
    Loop,
}

/// The identity of one declaration.  Immutable once created.
#[derive(PartialEq, Eq, Debug)]
pub struct Symbol {
    /// The declared name.
    pub name: String,
    /// What kind of declaration introduced it.
    pub kind: SymKind,
    /// Whether the declaration marked the binding mutable.  Only meaningful
    /// for variables and parameters; resolution itself never enforces it.
    pub mutable: bool,
    /// Where the declaration stands in the source.
    pub pos: Pos,
    /// The scope the symbol was declared in.
    pub scope: usize,
}

/// The mathematical identity of a symbol: the name as a character sequence.
pub ghost struct SymbolV {
    pub name: Seq<char>,
    pub kind: SymKind,
    pub mutable: bool,
    pub pos: Pos,
    pub scope: int,
}

impl View for Symbol {
    type V = SymbolV;

    open spec fn view(&self) -> SymbolV {
        SymbolV {
            name: self.name@,
            kind: self.kind,
            mutable: self.mutable,
            pos: self.pos,
            scope: self.scope as int,
        }
    }
}

/// One scope of the arena.
#[derive(Clone, Copy, PartialEq, Eq, Structural, Debug)]
pub struct Scope {
    pub kind: ScopeKind,
    /// The enclosing scope, or `None` for the module scope.
    pub parent: Option<usize>,
}

pub ghost struct ScopeV {
    pub kind: ScopeKind,
    pub parent: Option<int>,
}

impl View for Scope {
    type V = ScopeV;

    open spec fn view(&self) -> ScopeV {
        ScopeV {
            kind: self.kind,
            parent: match self.parent {
                Some(p) => Some(p as int),
                None => None,
            },
        }
    }
}

/// One binding of a name inside one scope.
#[derive(PartialEq, Eq, Debug)]
pub struct Entry {
    pub scope: usize,
    pub name: String,
    pub sym: usize,
}

pub ghost struct EntryV {
    pub scope: int,
    pub name: Seq<char>,
    pub sym: int,
}

impl View for Entry {
    type V = EntryV;

    open spec fn view(&self) -> EntryV {
        EntryV { scope: self.scope as int, name: self.name@, sym: self.sym as int }
    }
}

/// The scope table and the symbol registry.
pub struct ScopeTable {
    /// The arena of scopes; index 0 is the module scope.
    pub scopes: Vec<Scope>,
    /// Every binding made so far, tagged with the scope it belongs to.
    pub entries: Vec<Entry>,
    /// The flat store of all symbols; a symbol's identifier is its index.
    pub registry: Vec<Symbol>,
    /// The scope the traversal is currently inside.
    pub cur: usize,
}

/// The mathematical model of the table.
pub ghost struct TableV {
    pub scopes: Seq<ScopeV>,
    pub entries: Seq<EntryV>,
    pub registry: Seq<SymbolV>,
    pub cur: int,
}

impl View for ScopeTable {
    type V = TableV;

    open spec fn view(&self) -> TableV {
        TableV {
            scopes: self.scopes@.map_values(|s: Scope| s@),
            entries: self.entries@.map_values(|e: Entry| e@),
            registry: self.registry@.map_values(|s: Symbol| s@),
            cur: self.cur as int,
        }
    }
}

/// Does entry `e` bind `name` in scope `s`?
pub open spec fn entry_matches(e: EntryV, s: int, name: Seq<char>) -> bool {
    e.scope == s && e.name == name
}

/// The first entry at or after position `i` that binds `name` in scope `s`,
/// as the symbol it binds the name to.
pub open spec fn find_from(entries: Seq<EntryV>, s: int, name: Seq<char>, i: int) -> Option<int>
    decreases entries.len() - i,
{
    if 0 <= i < entries.len() {
        if entry_matches(entries[i], s, name) {
            Some(entries[i].sym)
        } else {
            find_from(entries, s, name, i + 1)
        }
    } else {
        None
    }
}

/// Does scope `s` itself (not an ancestor) bind `name`?
pub open spec fn scope_has(t: TableV, s: int, name: Seq<char>) -> bool {
    find_from(t.entries, s, name, 0) is Some
}

/// Scope-chain lookup: the nearest enclosing binding of `name`, walking from
/// scope `s` through the ancestor chain to the module scope.  The innermost
/// binding shadows outer ones.
pub open spec fn lookup_at(t: TableV, s: int, name: Seq<char>) -> Option<int>
    decreases s,
{
    if 0 <= s < t.scopes.len() {
        match find_from(t.entries, s, name, 0) {
            Some(sym) => Some(sym),
            None => match t.scopes[s].parent {
                Some(p) => if 0 <= p < s {
                    lookup_at(t, p, name)
                } else {
                    None
                },
                None => None,
            },
        }
    } else {
        None
    }
}

/// Well-formedness of the table: the cursor points at a real scope, parents
/// stand earlier in the arena than their children, and entries point at real
/// scopes and registered symbols.
pub open spec fn wf_table(t: TableV) -> bool {
    &&& 0 <= t.cur < t.scopes.len()
    &&& forall|i: int|
        0 <= i < t.scopes.len() ==> (#[trigger] t.scopes[i].parent matches Some(p) ==> 0 <= p < i)
    &&& forall|j: int|
        0 <= j < t.entries.len() ==> 0 <= #[trigger] t.entries[j].scope < t.scopes.len() && 0 <= t.entries[j].sym
            < t.registry.len()
}

/// The table a resolution run starts from: one open module scope, nothing
/// declared yet.
pub open spec fn init_table() -> TableV {
    TableV {
        scopes: seq![ScopeV { kind: ScopeKind::Module, parent: None }],
        entries: Seq::empty(),
        registry: Seq::empty(),
        cur: 0,
    }
}

/// Opening a scope appends it to the arena, child of the current scope, and
/// moves the cursor into it.
pub open spec fn table_open(t: TableV, kind: ScopeKind) -> TableV {
    TableV {
        scopes: t.scopes.push(ScopeV { kind, parent: Some(t.cur) }),
        cur: t.scopes.len() as int,
        ..t
    }
}

/// Closing the current scope moves the cursor back to its parent, detaching
/// the scope from every future lookup.  The module scope is never closed.
pub open spec fn table_close(t: TableV) -> TableV {
    if 0 <= t.cur < t.scopes.len() {
        match t.scopes[t.cur].parent {
            Some(p) => TableV { cur: p, ..t },
            None => t,
        }
    } else {
        t
    }
}

/// Declaring `name` in the current scope: a redeclaration iff the current
/// scope itself already binds the name — the original binding is then
/// retained and the first symbol is reported; otherwise a fresh symbol is
/// registered and bound.
pub open spec fn table_declare(
    t: TableV,
    name: Seq<char>,
    kind: SymKind,
    mutable: bool,
    pos: Pos,
) -> (TableV, Result<int, int>) {
    match find_from(t.entries, t.cur, name, 0) {
        Some(first) => (t, Err(first)),
        None => {
            let id = t.registry.len() as int;
            (
                TableV {
                    entries: t.entries.push(EntryV { scope: t.cur, name, sym: id }),
                    registry: t.registry.push(
                        SymbolV { name, kind, mutable, pos, scope: t.cur },
                    ),
                    ..t
                },
                Ok(id),
            )
        },
    }
}

/// A found entry names a registered symbol.
pub proof fn lemma_find_from_in_range(t: TableV, s: int, name: Seq<char>, i: int)
    requires
        wf_table(t),
    ensures
        find_from(t.entries, s, name, i) matches Some(v) ==> 0 <= v < t.registry.len(),
    decreases t.entries.len() - i,
{
    if 0 <= i < t.entries.len() && !entry_matches(t.entries[i], s, name) {
        lemma_find_from_in_range(t, s, name, i + 1);
    }
}

/// A successful lookup names a registered symbol.
pub proof fn lemma_lookup_in_range(t: TableV, s: int, name: Seq<char>)
    requires
        wf_table(t),
    ensures
        lookup_at(t, s, name) matches Some(v) ==> 0 <= v < t.registry.len(),
    decreases s,
{
    if 0 <= s < t.scopes.len() {
        lemma_find_from_in_range(t, s, name, 0);
        if find_from(t.entries, s, name, 0) is None {
            match t.scopes[s].parent {
                Some(p) => {
                    if 0 <= p < s {
                        lemma_lookup_in_range(t, p, name);
                    }
                },
                None => {},
            }
        }
    }
}

impl ScopeTable {
    /// A fresh table: one open module scope and an empty registry.
    pub fn new() -> (t: ScopeTable)
        ensures
            t@ == init_table(),
            wf_table(t@),
    {
        let t = ScopeTable {
            scopes: vec![Scope { kind: ScopeKind::Module, parent: None }],
            entries: Vec::new(),
            registry: Vec::new(),
            cur: 0,
        };
        proof {
            assert(t@.scopes =~= init_table().scopes);
            assert(t@.entries =~= init_table().entries);
            assert(t@.registry =~= init_table().registry);
        }
        t
    }

    /// Open a scope of the given kind as a child of the current scope and
    /// step into it.
    pub fn open_scope(&mut self, kind: ScopeKind)
        requires
            wf_table(old(self)@),
        ensures
            final(self)@ == table_open(old(self)@, kind),
            wf_table(final(self)@),
    {
        let s = self.scopes.len();
        self.scopes.push(Scope { kind, parent: Some(self.cur) });
        self.cur = s;
        proof {
            assert(final(self)@.scopes =~= table_open(old(self)@, kind).scopes);
        }
    }

    /// Step back out of the current scope, into its parent.
    pub fn close_scope(&mut self)
        requires
            wf_table(old(self)@),
        ensures
            final(self)@ == table_close(old(self)@),
            wf_table(final(self)@),
    {
        proof {
            let t = old(self)@;
            assert(t.scopes[t.cur].parent matches Some(q) ==> 0 <= q < t.cur);
        }
        match self.scopes[self.cur].parent {
            Some(p) => {
                self.cur = p;
            },
            None => {},
        }
    }

    /// The first entry binding `name` in scope `s` itself, if any.
    fn find_in_scope(&self, s: usize, name: &String) -> (r: Option<usize>)
        ensures
            match r {
                Some(v) => find_from(self@.entries, s as int, name@, 0) == Some(v as int),
                None => find_from(self@.entries, s as int, name@, 0) is None,
            },
    {
        let n = self.entries.len();
        let mut i: usize = 0;
        while i < n
            invariant
                n == self.entries.len(),
                0 <= i <= n,
                find_from(self@.entries, s as int, name@, 0) == find_from(
                    self@.entries,
                    s as int,
                    name@,
                    i as int,
                ),
            decreases n - i,
        {
            let e = &self.entries[i];
            if e.scope == s && e.name == *name {
                return Some(e.sym);
            }
            i = i + 1;
        }
        None
    }

    /// Scope-chain lookup from the current scope: the nearest enclosing
    /// binding of `name`, or `None` when no enclosing scope binds it.
    pub fn lookup(&self, name: &String) -> (r: Option<usize>)
        requires
            wf_table(self@),
        ensures
            match r {
                Some(v) => lookup_at(self@, self@.cur, name@) == Some(v as int) && v
                    < self@.registry.len(),
                None => lookup_at(self@, self@.cur, name@) is None,
            },
    {
        proof {
            lemma_lookup_in_range(self@, self@.cur, name@);
        }
        let mut s = self.cur;
        loop
            invariant
                wf_table(self@),
                s < self.scopes.len(),
                lookup_at(self@, self@.cur, name@) == lookup_at(self@, s as int, name@),
                lookup_at(self@, self@.cur, name@) matches Some(v) ==> 0 <= v
                    < self@.registry.len(),
            decreases s,
        {
            match self.find_in_scope(s, name) {
                Some(v) => {
                    return Some(v);
                },
                None => {
                    match self.scopes[s].parent {
                        Some(p) => {
                            s = p;
                        },
                        None => {
                            return None;
                        },
                    }
                },
            }
        }
    }

    /// Declare `name` in the current scope.  `Ok` carries the fresh symbol's
    /// identifier; `Err` is a redeclaration and carries the symbol the scope
    /// already binds the name to, which is retained.
    pub fn declare(&mut self, name: &String, kind: SymKind, mutable: bool, pos: Pos) -> (r: Result<
        usize,
        usize,
    >)
        requires
            wf_table(old(self)@),
        ensures
            wf_table(final(self)@),
            ({
                let (t2, rv) = table_declare(old(self)@, name@, kind, mutable, pos);
                &&& final(self)@ == t2
                &&& match r {
                    Ok(v) => rv == Ok::<int, int>(v as int),
                    Err(v) => rv == Err::<int, int>(v as int) && v < old(self)@.registry.len(),
                }
            }),
    {
        proof {
            lemma_find_from_in_range(self@, self@.cur, name@, 0);
        }
        match self.find_in_scope(self.cur, name) {
            Some(first) => Err(first),
            None => {
                let id = self.registry.len();
                self.registry.push(
                    Symbol { name: name.clone(), kind, mutable, pos, scope: self.cur },
                );
                self.entries.push(Entry { scope: self.cur, name: name.clone(), sym: id });
                proof {
                    let t0 = old(self)@;
                    let (t2, rv) = table_declare(t0, name@, kind, mutable, pos);
                    assert(final(self)@.entries =~= t2.entries);
                    assert(final(self)@.registry =~= t2.registry);
                    let t1 = final(self)@;
                    assert forall|j: int|
                        0 <= j < t1.entries.len() implies 0 <= #[trigger] t1.entries[j].scope
                        < t1.scopes.len() && 0 <= t1.entries[j].sym < t1.registry.len() by {
                        if j < t0.entries.len() {
                            assert(t1.entries[j] == t0.entries[j]);
                        } else {
                            assert(t1.entries[j] == EntryV {
                                scope: t0.cur,
                                name: name@,
                                sym: t0.registry.len() as int,
                            });
                        }
                    }
                }
                Ok(id)
            },
        }
    }
}

} // verus!
