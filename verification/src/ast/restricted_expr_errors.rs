//! The error raised when an expression is not a restricted expression.

use crate::ast::expr::{Expr, ExprView};
use crate::ast::text::text;
use smol_str::SmolStr;
use vstd::prelude::*;

verus! {

/// An expression was expected to be a restricted expression, but uses a
/// feature that restricted expressions do not have.
#[derive(Debug, PartialEq, Eq)]
pub struct InvalidRestrictedExpressionError {
    /// What the feature is called.
    pub feature: SmolStr,
    /// The expression that uses the feature. It may be a part of the
    /// expression that was checked.
    pub expr: Expr,
}

/// The mathematical value of an [`InvalidRestrictedExpressionError`].
pub struct InvalidRestrictedExpressionErrorView {
    pub feature: Seq<char>,
    pub expr: ExprView,
}

impl View for InvalidRestrictedExpressionError {
    type V = InvalidRestrictedExpressionErrorView;

    open spec fn view(&self) -> InvalidRestrictedExpressionErrorView {
        InvalidRestrictedExpressionErrorView { feature: text(self.feature), expr: self.expr@ }
    }
}

impl InvalidRestrictedExpressionError {
    /// What the feature is called.
    pub fn feature(&self) -> (r: &SmolStr)
        ensures
            text(*r) == self@.feature,
    {
        &self.feature
    }

    /// The expression that uses the feature.
    pub fn expr(&self) -> (r: &Expr)
        ensures
            r@ == self@.expr,
    {
        &self.expr
    }
}

} // verus!
