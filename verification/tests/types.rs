use cedar_policy_core::ast::{
    BorrowedRestrictedExpr, Eid, EntityUID, Expr, Id, Name, RestrictedExpr, Type, Unknown,
};
use cedar_policy_core::extensions::{ExtensionFunction, Extensions};
use cedar_policy_core::parser::Loc;

fn name(s: &str) -> Name {
    Name::unqualified_name(Id::new_unchecked(s))
}

fn some_extensions() -> Extensions {
    Extensions::new(vec![
        ExtensionFunction::new(name("ip"), Some(Type::Extension { name: name("ipaddr") })),
        ExtensionFunction::new(name("unknown"), None),
        ExtensionFunction::new(name("ip"), Some(Type::Bool)),
    ])
}

fn type_of(e: RestrictedExpr, extensions: &Extensions) -> Option<Type> {
    e.as_borrowed().try_type_of(extensions)
}

#[test]
fn literals_and_aggregates_have_their_types() {
    let none = Extensions::none();
    assert_eq!(type_of(RestrictedExpr::val(true), &none), Some(Type::Bool));
    assert_eq!(type_of(RestrictedExpr::val(1), &none), Some(Type::Long));
    assert_eq!(type_of(RestrictedExpr::val("s"), &none), Some(Type::String));
    let alice = EntityUID::from_components(name("User"), Eid::new("alice"));
    assert_eq!(
        type_of(RestrictedExpr::val(alice), &none),
        Some(Type::Entity { ty: name("User") })
    );
    assert_eq!(type_of(RestrictedExpr::set(vec![]), &none), Some(Type::SetType));
    assert_eq!(
        type_of(
            RestrictedExpr::set(vec![RestrictedExpr::unknown(Unknown::new_untyped("u"))]),
            &none
        ),
        Some(Type::SetType)
    );
    assert_eq!(
        type_of(RestrictedExpr::record(vec![]).unwrap(), &none),
        Some(Type::Record)
    );
}

#[test]
fn an_unknown_has_no_type() {
    assert_eq!(
        type_of(
            RestrictedExpr::unknown(Unknown::new_untyped("u")),
            &some_extensions()
        ),
        None
    );
}

#[test]
fn a_call_has_the_type_that_the_extensions_give() {
    let ext = some_extensions();
    let call = |f: &str| RestrictedExpr::call_extension_fn(name(f), vec![RestrictedExpr::val("x")]);
    // the first function of that name counts
    assert_eq!(
        type_of(call("ip"), &ext),
        Some(Type::Extension { name: name("ipaddr") })
    );
    // a function of which only a call can tell the type
    assert_eq!(type_of(call("unknown"), &ext), None);
    // a function that is not there
    assert_eq!(type_of(call("decimal"), &ext), None);
    assert_eq!(type_of(call("ip"), &Extensions::none()), None);
}

#[test]
fn the_function_is_looked_up_without_its_source_position() {
    let ext = some_extensions();
    let placed = Name::new(Id::new_unchecked("ip"), vec![], Loc::new(0, 2, "ip").into_maybe_loc());
    let e = Expr::call_extension_fn(placed, vec![]);
    let b = BorrowedRestrictedExpr::new(&e).unwrap();
    assert_eq!(
        b.try_type_of(&ext),
        Some(Type::Extension { name: name("ipaddr") })
    );
    assert_eq!(
        ext.return_type_of(&name("ip")),
        Some(&Type::Extension { name: name("ipaddr") })
    );
    assert_eq!(ext.return_type_of(&name("unknown")), None);
}
