//! Arena-allocated abstract-syntax-tree core for a JavaScript-like source
//! language.
//!
//! The [`ast`] module holds the arena, its copyable handles and the node
//! unions, together with the well-formedness invariant every analysis
//! relies on. [`grammar`] is the operator-precedence model of the
//! expression grammar. [`visit`] is the traversal engine: a depth-first,
//! pre-order walk whose exact event sequence is specified and proved, and
//! [`scope`] the reference visitor built on it, tracking lexical scopes
//! and identifier references. [`compare`] gives handles their structural,
//! by-value equality, and [`estree`] with [`json`] describe the
//! literal-bearing subset of the tree as located, typed records.

pub mod ast;
pub mod compare;
pub mod estree;
pub mod grammar;
pub mod json;
pub mod scope;
pub mod visit;
