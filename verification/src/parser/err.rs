//! What can go wrong when text is read.

use crate::ast::expression_construction_errors::ExpressionConstructionError;
use crate::parser::MaybeLoc;
use vstd::prelude::*;

verus! {

/// The text does not follow the grammar.
#[derive(Debug, PartialEq, Eq)]
pub struct ToCSTError {
    /// Where the text stops following the grammar.
    pub loc: MaybeLoc,
}

/// Why text that follows the grammar still has no meaning.
#[derive(Debug, PartialEq, Eq)]
pub enum ToASTErrorKind {
    /// An expression in it could not be built from its parts.
    ExpressionConstructionError(ExpressionConstructionError),
}

/// The text follows the grammar and still has no meaning.
#[derive(Debug, PartialEq, Eq)]
pub struct ToASTError {
    /// Why it has none.
    pub kind: ToASTErrorKind,
    /// The part of the text that has none.
    pub loc: MaybeLoc,
}

impl ToASTError {
    /// The error of the given kind for the text at `loc`.
    pub fn new(kind: ToASTErrorKind, loc: MaybeLoc) -> (r: ToASTError)
        ensures
            r == (ToASTError { kind, loc }),
    {
        ToASTError { kind, loc }
    }
}

/// One thing that went wrong when text was read.
#[derive(Debug, PartialEq, Eq)]
pub enum ParseError {
    /// The text does not follow the grammar.
    ToCST(ToCSTError),
    /// The text follows the grammar and still has no meaning.
    ToAST(ToASTError),
}

/// All that went wrong when a text was read: one thing at least.
#[derive(Debug, PartialEq, Eq)]
pub struct ParseErrors {
    first: ParseError,
    rest: Vec<ParseError>,
}

impl ParseErrors {
    /// The one error `err`.
    pub fn singleton(err: ParseError) -> (r: ParseErrors)
        ensures
            r.errors() == seq![err],
    {
        ParseErrors { first: err, rest: Vec::new() }
    }

    /// The error `first`, and after it the errors `rest`.
    pub fn new(first: ParseError, rest: Vec<ParseError>) -> (r: ParseErrors)
        ensures
            r.errors() == seq![first] + rest@,
    {
        ParseErrors { first, rest }
    }

    /// The errors, in the order in which they were found.
    pub closed spec fn errors(self) -> Seq<ParseError> {
        seq![self.first] + self.rest@
    }

    /// The error that was found first.
    pub fn first(&self) -> (r: &ParseError)
        ensures
            *r == self.errors()[0],
    {
        &self.first
    }

    /// The errors that were found after the first.
    pub fn rest(&self) -> (r: &Vec<ParseError>)
        ensures
            r@ == self.errors().subrange(1, self.errors().len() as int),
    {
        assert(self.errors().subrange(1, self.errors().len() as int) =~= self.rest@);
        &self.rest
    }
}

} // verus!
