//! The schema language that is meant to be read and written by people.

pub mod ast;
pub mod err;
