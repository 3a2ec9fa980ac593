//! The expression tree and the restricted subset of it.

pub mod annotation;
pub mod expr;
pub mod expr_eq;
pub mod expr_shape;
pub mod expression_construction_errors;
pub mod name;
pub mod restricted_expr;
pub mod restricted_expr_errors;
pub mod text;
pub mod types;
pub mod value;

pub use annotation::{Annotation, Annotations, AnyId};
pub use expr::{
    BinaryOp, Expr, ExprKind, Literal, PatternElem, SlotId, UnaryOp, Unknown, Var,
};
pub use expression_construction_errors::ExpressionConstructionError;
pub use name::{Eid, EntityUID, Id, InternalName, Name};
pub use restricted_expr::{
    is_restricted, BorrowedRestrictedExpr, RestrictedExpr, RestrictedExprShapeOnly,
    RestrictedExpressionError, RestrictedExpressionParseError,
};
pub use types::Type;
pub use value::{
    PartialValue, PartialValueToRestrictedExprError, RepresentableExtensionValue, Value,
    ValueKind, ValueRecord,
};
