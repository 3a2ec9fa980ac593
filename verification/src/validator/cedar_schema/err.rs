//! What can be wrong with a schema that follows the grammar.

use crate::ast::annotation::AnyId;
use crate::parser::{maybe_loc_view, LocView, Node};
use vstd::prelude::*;

verus! {

/// Something is wrong with what the author of a schema wrote.
#[derive(Debug, PartialEq, Eq)]
pub enum UserError {
    /// One declaration has two annotations with the same key: the key, where
    /// it stands first, and where it stands again.
    DuplicateAnnotations(AnyId, Node<()>, Node<()>),
}

/// The mathematical value of a [`UserError`].
pub enum UserErrorView {
    DuplicateAnnotations { key: Seq<char>, first: Option<LocView>, second: Option<LocView> },
}

impl View for UserError {
    type V = UserErrorView;

    open spec fn view(&self) -> UserErrorView {
        match *self {
            UserError::DuplicateAnnotations(key, first, second) => {
                UserErrorView::DuplicateAnnotations {
                    key: key@,
                    first: maybe_loc_view(first.loc),
                    second: maybe_loc_view(second.loc),
                }
            },
        }
    }
}

} // verus!
