//! What is known of the extension functions before any of them is called.

use crate::ast::name::{Name, NameView};
use crate::ast::types::{maybe_type_view, Type, TypeView};
use vstd::prelude::*;

verus! {

/// What is known of one extension function: its name, and the type of what
/// it returns, where that is the same for every call.
#[derive(Debug, PartialEq, Eq)]
pub struct ExtensionFunction {
    name: Name,
    return_type: Option<Type>,
}

/// The mathematical value of an [`ExtensionFunction`].
pub struct ExtensionFunctionView {
    pub name: NameView,
    pub return_type: Option<TypeView>,
}

impl View for ExtensionFunction {
    type V = ExtensionFunctionView;

    closed spec fn view(&self) -> ExtensionFunctionView {
        ExtensionFunctionView { name: self.name@, return_type: maybe_type_view(self.return_type) }
    }
}

impl ExtensionFunction {
    /// The extension function `name`, which returns a value of type
    /// `return_type`, or of a type that only a call can tell.
    pub fn new(name: Name, return_type: Option<Type>) -> (r: ExtensionFunction)
        ensures
            r@ == (ExtensionFunctionView { name: name@, return_type: maybe_type_view(return_type) }),
    {
        ExtensionFunction { name, return_type }
    }
}

/// The extension functions that are available.
#[derive(Debug, PartialEq, Eq)]
pub struct Extensions {
    functions: Vec<ExtensionFunction>,
}

/// The type of what the first of `functions`, from position `start` on,
/// that goes by the name `name` returns. Names are compared without their
/// source positions. `None` where none goes by that name, or where the
/// first that does returns a type that only a call can tell.
pub open spec fn return_type_from(
    functions: Seq<ExtensionFunctionView>,
    name: NameView,
    start: int,
) -> Option<TypeView>
    decreases functions.len() - start,
{
    if start < 0 || start >= functions.len() {
        None
    } else if functions[start].name.shape() == name.shape() {
        functions[start].return_type
    } else {
        return_type_from(functions, name, start + 1)
    }
}

impl View for Extensions {
    type V = Seq<ExtensionFunctionView>;

    closed spec fn view(&self) -> Seq<ExtensionFunctionView> {
        Seq::new(self.functions@.len(), |i: int| self.functions@[i]@)
    }
}

/// The mathematical values of a list of extension functions.
pub open spec fn functions_view(functions: Seq<ExtensionFunction>) -> Seq<ExtensionFunctionView> {
    Seq::new(functions.len(), |i: int| functions[i]@)
}

impl Extensions {
    /// No extension functions at all.
    pub fn none() -> (r: Extensions)
        ensures
            r@ == Seq::<ExtensionFunctionView>::empty(),
    {
        let r = Extensions { functions: Vec::new() };
        assert(r@ =~= Seq::<ExtensionFunctionView>::empty());
        r
    }

    /// The given extension functions. Where two go by one name, the first
    /// counts.
    pub fn new(functions: Vec<ExtensionFunction>) -> (r: Extensions)
        ensures
            r@ == functions_view(functions@),
    {
        Extensions { functions }
    }

    /// The type of what the extension function `name` returns, where that
    /// is known without calling it.
    pub fn return_type_of(&self, name: &Name) -> (r: Option<&Type>)
        ensures
            r is Some <==> return_type_from(self@, name@, 0) is Some,
            r matches Some(t) ==> Some(t@) == return_type_from(self@, name@, 0),
    {
        let mut i: usize = 0;
        while i < self.functions.len()
            invariant
                i <= self.functions.len(),
                return_type_from(self@, name@, 0) == return_type_from(self@, name@, i as int),
            decreases self.functions.len() - i,
        {
            if self.functions[i].name.eq_shape(name) {
                return self.functions[i].return_type.as_ref();
            }
            i = i + 1;
        }
        None
    }
}

} // verus!
