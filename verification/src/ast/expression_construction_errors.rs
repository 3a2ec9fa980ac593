//! The ways in which building an expression can fail.

use crate::ast::text::text;
use smol_str::SmolStr;
use vstd::prelude::*;

verus! {

/// A record was given the same key twice.
#[derive(Debug, PartialEq, Eq)]
pub struct DuplicateKeyError {
    /// The key that occurred a second time.
    pub key: SmolStr,
    /// Where the record was being built.
    pub context: &'static str,
}

/// The mathematical value of a [`DuplicateKeyError`].
pub struct DuplicateKeyErrorView {
    pub key: Seq<char>,
    pub context: Seq<char>,
}

impl View for DuplicateKeyError {
    type V = DuplicateKeyErrorView;

    open spec fn view(&self) -> DuplicateKeyErrorView {
        DuplicateKeyErrorView { key: text(self.key), context: self.context@ }
    }
}

impl DuplicateKeyError {
    /// The key that occurred a second time.
    pub fn key(&self) -> (r: &SmolStr)
        ensures
            text(*r) == self@.key,
    {
        &self.key
    }
}

/// An expression could not be built from its parts.
#[derive(Debug, PartialEq, Eq)]
pub enum ExpressionConstructionError {
    /// A record was given the same key twice.
    DuplicateKey(DuplicateKeyError),
}

/// The mathematical value of an [`ExpressionConstructionError`].
pub enum ExpressionConstructionErrorView {
    DuplicateKey(DuplicateKeyErrorView),
}

impl View for ExpressionConstructionError {
    type V = ExpressionConstructionErrorView;

    open spec fn view(&self) -> ExpressionConstructionErrorView {
        match *self {
            ExpressionConstructionError::DuplicateKey(e) => ExpressionConstructionErrorView::DuplicateKey(e@),
        }
    }
}

impl From<DuplicateKeyError> for ExpressionConstructionError {
    fn from(e: DuplicateKeyError) -> (r: ExpressionConstructionError)
        ensures
            r == ExpressionConstructionError::DuplicateKey(e),
    {
        ExpressionConstructionError::DuplicateKey(e)
    }
}

impl vstd::std_specs::convert::FromSpecImpl<DuplicateKeyError> for ExpressionConstructionError {
    open spec fn obeys_from_spec() -> bool {
        true
    }

    open spec fn from_spec(e: DuplicateKeyError) -> ExpressionConstructionError {
        ExpressionConstructionError::DuplicateKey(e)
    }
}

} // verus!
