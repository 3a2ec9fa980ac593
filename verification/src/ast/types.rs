//! The types that values have at run time.

use crate::ast::name::{Name, NameView};
use vstd::prelude::*;

verus! {

/// The type of a value.
#[derive(Debug, PartialEq, Eq, Hash)]
pub enum Type {
    /// Booleans.
    Bool,
    /// Integers.
    Long,
    /// Strings.
    String,
    /// Sets, whatever is in them.
    SetType,
    /// Records, whatever is in them.
    Record,
    /// The entities of one entity type.
    Entity {
        /// The entity type.
        ty: Name,
    },
    /// The values of one extension type.
    Extension {
        /// The name of the extension type.
        name: Name,
    },
}

/// The mathematical value of a [`Type`].
pub enum TypeView {
    Bool,
    Long,
    String,
    SetType,
    Record,
    Entity { ty: NameView },
    Extension { name: NameView },
}

impl View for Type {
    type V = TypeView;

    open spec fn view(&self) -> TypeView {
        match *self {
            Type::Bool => TypeView::Bool,
            Type::Long => TypeView::Long,
            Type::String => TypeView::String,
            Type::SetType => TypeView::SetType,
            Type::Record => TypeView::Record,
            Type::Entity { ty } => TypeView::Entity { ty: ty@ },
            Type::Extension { name } => TypeView::Extension { name: name@ },
        }
    }
}

impl Clone for Type {
    fn clone(&self) -> (r: Type)
        ensures
            r@ == self@,
    {
        match self {
            Type::Bool => Type::Bool,
            Type::Long => Type::Long,
            Type::String => Type::String,
            Type::SetType => Type::SetType,
            Type::Record => Type::Record,
            Type::Entity { ty } => Type::Entity { ty: ty.clone() },
            Type::Extension { name } => Type::Extension { name: name.clone() },
        }
    }
}

/// The mathematical value of a type that may be absent.
pub open spec fn maybe_type_view(t: Option<Type>) -> Option<TypeView> {
    match t {
        Some(t) => Some(t@),
        None => None,
    }
}

} // verus!
