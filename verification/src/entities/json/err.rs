//! The values that have no natural JSON form.

use crate::ast::expr::{ExprKind, ExprKindView};
use crate::ast::name::{Name, NameView};
use crate::ast::text::text;
use smol_str::SmolStr;
use vstd::prelude::*;

verus! {

/// A value could not be written in natural JSON.
#[derive(Debug, PartialEq, Eq)]
pub enum JsonSerializationError {
    /// A call of an extension function has no argument.
    ExtnCall0Arguments {
        /// The function that is called.
        func: Name,
    },
    /// A call of an extension function has two arguments or more.
    ExtnCall2OrMoreArguments {
        /// The function that is called.
        func: Name,
    },
    /// A record has a key that natural JSON keeps for itself.
    ReservedKey {
        /// The key.
        key: SmolStr,
    },
    /// A restricted expression of a kind that stands for no value: an
    /// unknown.
    UnexpectedRestrictedExprKind {
        /// What the expression is.
        kind: ExprKind,
    },
}

/// The mathematical value of a [`JsonSerializationError`].
pub enum JsonSerializationErrorView {
    ExtnCall0Arguments { func: NameView },
    ExtnCall2OrMoreArguments { func: NameView },
    ReservedKey { key: Seq<char> },
    UnexpectedRestrictedExprKind { kind: ExprKindView },
}

impl View for JsonSerializationError {
    type V = JsonSerializationErrorView;

    open spec fn view(&self) -> JsonSerializationErrorView {
        match *self {
            JsonSerializationError::ExtnCall0Arguments { func } => {
                JsonSerializationErrorView::ExtnCall0Arguments { func: func@ }
            },
            JsonSerializationError::ExtnCall2OrMoreArguments { func } => {
                JsonSerializationErrorView::ExtnCall2OrMoreArguments { func: func@ }
            },
            JsonSerializationError::ReservedKey { key } => {
                JsonSerializationErrorView::ReservedKey { key: text(key) }
            },
            JsonSerializationError::UnexpectedRestrictedExprKind { kind } => {
                JsonSerializationErrorView::UnexpectedRestrictedExprKind { kind: kind@ }
            },
        }
    }
}

} // verus!
