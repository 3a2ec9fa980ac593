//! Restricted expressions: the subset of the policy expression language that
//! is exactly expressive enough to denote fully evaluated values.

pub mod ast;
pub mod entities;
pub mod extensions;
pub mod parser;
pub mod validator;
