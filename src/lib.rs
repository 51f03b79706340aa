//! A tree-walking evaluator for a small expression language with
//! first-class functions, pairs and lexically scoped closures.
//!
//! `eval` reduces a syntax tree to a value. Its meaning is `eval_spec`, a
//! function on models of values and frames, and the contract of `eval`
//! says that the code computes exactly that. `laws` proves properties of
//! that meaning.
pub mod ast;
pub mod error;
pub mod eval;
pub mod laws;
pub mod ops;
pub mod scope;
pub mod value;

pub use ast::{
    Binary, BinaryOp, Bool, Call, File, First, Function, If, Int, Let, Location, Parameter, Print,
    Second, Str, Term, Tuple, Var,
};
pub use error::{ErrorKind, Label, RuntimeError};
pub use eval::{eval, run};
pub use ops::apply_binary;
pub use scope::{Scope, Store};
pub use value::{decimal_string, Val};
