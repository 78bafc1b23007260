//! The abstract syntax tree that the resolver consumes.
//!
//! The parser hands the resolver a `Program`: a list of top-level function
//! declarations whose bodies are statement lists.  Every identifier use site
//! carries the source position the parser recorded for it, so diagnostics can
//! point back into the source text.

use vstd::prelude::*;

verus! {

/// A source position: the line number the parser recorded for a node.
pub type Pos = u64;

/// The declared type of a binding.  Name resolution never reads types; they
/// are carried through untouched for the type checker.
#[derive(Clone, Copy, PartialEq, Eq, Structural, Debug)]
pub enum Ty {
    Int,
    Str,
    Array,
    Unit,
}

/// A binary operator.  Which operator it is never matters to resolution.
#[derive(Clone, Copy, PartialEq, Eq, Structural, Debug)]
pub enum BinOp {
    Add,
    Sub,
    Mul,
    Div,
    Lt,
    Le,
    Gt,
    Ge,
    Equal,
    NotEqual,
}

/// An expression.  Identifier occurrences in expression position are the use
/// sites the resolver must bind: bare reads, call callees, subscript bases
/// and indices, slice bases and bounds, array elements.
pub enum Expr {
    /// An integer literal: no lookup is required for it.
    IntLit { value: u64, pos: Pos },
    /// A text literal: no lookup is required for it.
    StrLit { text: String, pos: Pos },
    /// A bare identifier read.
    Var { name: String, pos: Pos },
    /// `lhs op rhs`.
    Binary { op: BinOp, lhs: Box<Expr>, rhs: Box<Expr> },
    /// `callee(args...)`; the callee is an identifier use site.
    Call { callee: String, pos: Pos, args: Vec<Expr> },
    /// `base[index]`.
    Subscript { base: Box<Expr>, index: Box<Expr> },
    /// `base[start..end]`.
    Slice { base: Box<Expr>, start: Box<Expr>, end: Box<Expr> },
    /// `[e0, e1, ...]`.
    ArrayLit { elems: Vec<Expr>, pos: Pos },
}

/// The target of an assignment statement.  The base identifier of a
/// subscript or slice target must already be declared at the point of
/// assignment; the index and bound sub-expressions are ordinary uses.
pub enum AssignTarget {
    /// `name = value`.
    Name { name: String, pos: Pos },
    /// `name[index] = value`.
    Subscript { name: String, pos: Pos, index: Box<Expr> },
    /// `name[start..end] = value`.
    Slice { name: String, pos: Pos, start: Box<Expr>, end: Box<Expr> },
}

/// A statement.  Only function bodies, loop bodies and the module introduce
/// scopes; no statement grouping below does.
pub enum Stmt {
    /// `let name: ty = init;` — the initializer is resolved before the new
    /// binding is declared, so a binding's own initializer cannot see itself.
    Let { name: String, pos: Pos, ty: Ty, mutable: bool, init: Expr },
    /// `target = value;` — resolution only binds the names; whether the
    /// target is mutable is enforced downstream.
    Assign { target: AssignTarget, value: Expr },
    /// An expression evaluated for effect, e.g. a bare call.
    ExprStmt { expr: Expr },
    /// `for var in range { body }` — the range expression is resolved in the
    /// enclosing scope; the induction variable lives in a loop scope that
    /// closes with the loop body.
    For { var: String, var_pos: Pos, range: Expr, body: Vec<Stmt> },
    /// A formatted print: the format string is scanned for `{name}`
    /// placeholders, each resolved like a variable read; the trailing
    /// arguments are ordinary expressions.  Their count and types are not
    /// checked here.
    Print { format: String, pos: Pos, args: Vec<Expr> },
    /// `return;` or `return result;`.
    Return { result: Option<Expr> },
}

/// One function parameter.
pub struct Param {
    pub name: String,
    pub pos: Pos,
    pub ty: Ty,
    pub mutable: bool,
}

/// One top-level function declaration.
pub struct FunctionDecl {
    pub name: String,
    pub pos: Pos,
    pub params: Vec<Param>,
    pub ret: Ty,
    pub body: Vec<Stmt>,
}

/// A whole compilation unit: its top-level function declarations in source
/// order.
pub struct Program {
    pub funcs: Vec<FunctionDecl>,
}

} // verus!
