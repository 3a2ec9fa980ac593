use cedar_policy_core::ast::{
    Eid, EntityUID, Expr, ExprKind, Id, Name, RestrictedExpr, Unknown,
};
use cedar_policy_core::entities::json::err::JsonSerializationError;
use cedar_policy_core::entities::json::CedarValueJson;

fn name(s: &str) -> Name {
    Name::unqualified_name(Id::new_unchecked(s))
}

#[test]
fn literals_are_written_as_themselves() {
    assert_eq!(
        RestrictedExpr::val(true).to_natural_json(),
        Ok(CedarValueJson::Bool(true))
    );
    assert_eq!(
        RestrictedExpr::val(-12).to_natural_json(),
        Ok(CedarValueJson::Long(-12))
    );
    assert_eq!(
        RestrictedExpr::val("hi").to_natural_json(),
        Ok(CedarValueJson::String("hi".into()))
    );
}

#[test]
fn an_entity_reference_is_written_with_its_type_and_its_identifier() {
    let ty = Name::new(
        Id::new_unchecked("User"),
        vec![Id::new_unchecked("Org"), Id::new_unchecked("Dept")],
        None,
    );
    let e = EntityUID::from_components(ty, Eid::new("alice"));
    assert_eq!(
        RestrictedExpr::val(e).to_natural_json(),
        Ok(CedarValueJson::EntityEscape {
            entity_type: "Org::Dept::User".into(),
            id: "alice".into()
        })
    );
    let e = EntityUID::from_components(name("User"), Eid::new(""));
    assert_eq!(
        RestrictedExpr::val(e).as_borrowed().to_natural_json(),
        Ok(CedarValueJson::EntityEscape {
            entity_type: "User".into(),
            id: "".into()
        })
    );
}

#[test]
fn sets_and_records_are_written_in_their_order() {
    let e = RestrictedExpr::record(vec![
        (
            "b".into(),
            RestrictedExpr::set(vec![RestrictedExpr::val(2), RestrictedExpr::val(1)]),
        ),
        ("a".into(), RestrictedExpr::record(vec![]).unwrap()),
    ])
    .unwrap();
    assert_eq!(
        e.to_natural_json(),
        Ok(CedarValueJson::Record(vec![
            (
                "b".into(),
                CedarValueJson::SetOf(vec![CedarValueJson::Long(2), CedarValueJson::Long(1)])
            ),
            ("a".into(), CedarValueJson::Record(vec![])),
        ]))
    );
    assert_eq!(
        RestrictedExpr::set(vec![]).to_natural_json(),
        Ok(CedarValueJson::SetOf(vec![]))
    );
}

#[test]
fn a_call_on_one_argument_is_written_with_its_function() {
    let e = RestrictedExpr::call_extension_fn(name("ip"), vec![RestrictedExpr::val("10.0.0.1")]);
    assert_eq!(
        e.to_natural_json(),
        Ok(CedarValueJson::ExtnEscape {
            ext_fn: "ip".into(),
            arg: Box::new(CedarValueJson::String("10.0.0.1".into()))
        })
    );
    assert_eq!(
        CedarValueJson::from_expr(e.as_borrowed()),
        e.to_natural_json()
    );
}

#[test]
fn a_call_on_no_argument_or_on_several_has_no_natural_json() {
    assert_eq!(
        RestrictedExpr::call_extension_fn(name("f"), vec![]).to_natural_json(),
        Err(JsonSerializationError::ExtnCall0Arguments { func: name("f") })
    );
    assert_eq!(
        RestrictedExpr::call_extension_fn(
            name("f"),
            vec![RestrictedExpr::val(1), RestrictedExpr::val(2)]
        )
        .to_natural_json(),
        Err(JsonSerializationError::ExtnCall2OrMoreArguments { func: name("f") })
    );
}

#[test]
fn a_record_with_a_reserved_key_has_no_natural_json() {
    for key in ["__entity", "__extn", "__expr"] {
        let e = RestrictedExpr::record(vec![
            ("ok".into(), RestrictedExpr::val(1)),
            (key.into(), RestrictedExpr::val(2)),
        ])
        .unwrap();
        assert_eq!(
            e.to_natural_json(),
            Err(JsonSerializationError::ReservedKey { key: key.into() })
        );
    }
    // the keys are looked at before the values are
    let e = RestrictedExpr::record(vec![
        ("bad".into(), RestrictedExpr::call_extension_fn(name("f"), vec![])),
        ("__extn".into(), RestrictedExpr::val(2)),
        ("__entity".into(), RestrictedExpr::val(2)),
    ])
    .unwrap();
    assert_eq!(
        e.to_natural_json(),
        Err(JsonSerializationError::ReservedKey { key: "__extn".into() })
    );
    // keys that only look alike are none
    let e = RestrictedExpr::record(vec![
        ("__entity_".into(), RestrictedExpr::val(1)),
        ("_extn".into(), RestrictedExpr::val(1)),
        ("__EXPR".into(), RestrictedExpr::val(1)),
    ])
    .unwrap();
    assert!(e.to_natural_json().is_ok());
}

#[test]
fn an_unknown_has_no_natural_json() {
    let u = || Unknown::new_untyped("u");
    assert_eq!(
        RestrictedExpr::unknown(u()).to_natural_json(),
        Err(JsonSerializationError::UnexpectedRestrictedExprKind {
            kind: ExprKind::Unknown(u())
        })
    );
    assert_eq!(
        Expr::unknown(u()).expr_kind().clone(),
        ExprKind::Unknown(u())
    );
}

#[test]
fn the_first_part_without_natural_json_gives_the_error() {
    let e = RestrictedExpr::set(vec![
        RestrictedExpr::val(1),
        RestrictedExpr::record(vec![(
            "k".into(),
            RestrictedExpr::call_extension_fn(
                name("g"),
                vec![RestrictedExpr::call_extension_fn(name("f"), vec![])],
            ),
        )])
        .unwrap(),
        RestrictedExpr::unknown(Unknown::new_untyped("u")),
    ]);
    assert_eq!(
        e.to_natural_json(),
        Err(JsonSerializationError::ExtnCall0Arguments { func: name("f") })
    );
}

#[test]
fn a_name_is_written_with_double_colons() {
    assert_eq!(name("ip").to_string(), "ip");
    let n = Name::new(
        Id::new_unchecked("c"),
        vec![Id::new_unchecked("a"), Id::new_unchecked("b")],
        None,
    );
    assert_eq!(n.to_string(), "a::b::c");
    assert_eq!(n.as_internal_name().to_string(), "a::b::c");
}
