//! Name resolution for a small statically-typed imperative language:
//! functions with typed parameters, `let` bindings, assignment, fixed-size
//! arrays with subscripting, string slicing, `for` loops with an induction
//! variable, and a formatted print construct.
//!
//! The resolver binds every identifier use site to exactly one declaration,
//! detects illegal redeclarations and uses of undeclared names, and produces
//! a list of binding occurrences plus an ordered list of diagnostics for a
//! downstream type checker.  It never aborts early: an empty diagnostic list
//! is the only success signal.

pub mod ast;
pub mod scope;
pub mod resolver;
pub mod laws;
pub mod fixtures;
