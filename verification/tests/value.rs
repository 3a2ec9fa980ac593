use cedar_policy_core::ast::{
    BinaryOp, Eid, EntityUID, Expr, Id, Literal, Name, PartialValue,
    PartialValueToRestrictedExprError, RepresentableExtensionValue, RestrictedExpr, Unknown,
    Value, ValueKind, ValueRecord, Var,
};
use cedar_policy_core::parser::Loc;

fn name(s: &str) -> Name {
    Name::unqualified_name(Id::new_unchecked(s))
}

fn lit(l: impl Into<Literal>) -> Value {
    Value {
        value: ValueKind::Lit(l.into()),
        loc: None,
    }
}

fn at(n: usize) -> Option<Loc> {
    Loc::new(n, 1, "0123456789").into_maybe_loc()
}

#[test]
fn a_literal_value_becomes_a_literal() {
    assert_eq!(RestrictedExpr::from(lit(true)), RestrictedExpr::val(true));
    assert_eq!(RestrictedExpr::from(lit(-5)), RestrictedExpr::val(-5));
    assert_eq!(RestrictedExpr::from(lit("s")), RestrictedExpr::val("s"));
    let alice = || EntityUID::from_components(name("User"), Eid::new("alice"));
    assert_eq!(RestrictedExpr::from(lit(alice())), RestrictedExpr::val(alice()));
    assert_eq!(
        RestrictedExpr::from(ValueKind::Lit(Literal::Long(9))),
        RestrictedExpr::val(9)
    );
}

#[test]
fn a_value_keeps_its_source_position() {
    let v = Value {
        value: ValueKind::Lit(Literal::Long(1)),
        loc: at(3),
    };
    let r = RestrictedExpr::from(v);
    assert_eq!(r.source_loc(), &at(3));
    assert_eq!(r, RestrictedExpr::val(1).with_maybe_source_loc(at(3)));
}

#[test]
fn a_set_value_becomes_a_set_in_the_same_order() {
    let v = Value {
        value: ValueKind::SetValue(vec![lit(3), lit(1), lit(2)]),
        loc: None,
    };
    let r = RestrictedExpr::from(v);
    let items = r.as_set_elements().unwrap();
    let longs: Vec<_> = items.iter().map(|e| e.as_long()).collect();
    assert_eq!(longs, vec![Some(3), Some(1), Some(2)]);
    let empty = Value {
        value: ValueKind::SetValue(vec![]),
        loc: None,
    };
    assert_eq!(RestrictedExpr::from(empty), RestrictedExpr::set(vec![]));
}

#[test]
fn a_record_value_becomes_a_record_with_the_same_entries() {
    let rec = ValueRecord::new(vec![
        ("b".into(), lit(2)),
        ("a".into(), lit("x")),
    ])
    .unwrap();
    let v = Value {
        value: ValueKind::Record(rec),
        loc: at(0),
    };
    let r = RestrictedExpr::from(v);
    assert_eq!(
        r,
        RestrictedExpr::record(vec![
            ("b".into(), RestrictedExpr::val(2)),
            ("a".into(), RestrictedExpr::val("x")),
        ])
        .unwrap()
        .with_maybe_source_loc(at(0))
    );
}

#[test]
fn a_record_value_cannot_have_a_key_twice() {
    assert!(ValueRecord::new(vec![("a".into(), lit(1)), ("a".into(), lit(2))]).is_none());
    assert!(ValueRecord::new(vec![("a".into(), lit(1)), ("a".into(), lit(1))]).is_none());
    assert!(ValueRecord::new(vec![]).is_some());
    let pairs = ValueRecord::new(vec![("a".into(), lit(1)), ("b".into(), lit(1))])
        .unwrap()
        .into_pairs();
    assert_eq!(pairs.len(), 2);
    assert_eq!(pairs[0].0.as_str(), "a");
    assert_eq!(pairs[1].0.as_str(), "b");
}

#[test]
fn an_extension_value_becomes_the_call_that_makes_it() {
    let ev = RepresentableExtensionValue::new(name("ip"), vec![RestrictedExpr::val("10.0.0.1")]);
    let v = Value {
        value: ValueKind::ExtensionValue(ev),
        loc: at(2),
    };
    assert_eq!(
        RestrictedExpr::from(v),
        RestrictedExpr::call_extension_fn(name("ip"), vec![RestrictedExpr::val("10.0.0.1")])
            .with_maybe_source_loc(at(2))
    );
}

#[test]
fn nested_values_are_converted_all_the_way_down() {
    let inner = Value {
        value: ValueKind::SetValue(vec![lit(1), lit(true)]),
        loc: at(1),
    };
    let rec = ValueRecord::new(vec![("k".into(), inner)]).unwrap();
    let outer = Value {
        value: ValueKind::SetValue(vec![
            Value {
                value: ValueKind::Record(rec),
                loc: at(2),
            },
            lit("z"),
        ]),
        loc: at(3),
    };
    let expected = RestrictedExpr::set(vec![
        RestrictedExpr::record(vec![(
            "k".into(),
            RestrictedExpr::set(vec![RestrictedExpr::val(1), RestrictedExpr::val(true)])
                .with_maybe_source_loc(at(1)),
        )])
        .unwrap()
        .with_maybe_source_loc(at(2)),
        RestrictedExpr::val("z"),
    ])
    .with_maybe_source_loc(at(3));
    assert_eq!(RestrictedExpr::from(outer), expected);
}

#[test]
fn a_partial_value_that_is_a_value_is_converted_as_one() {
    assert_eq!(
        RestrictedExpr::try_from(PartialValue::Value(lit(4))),
        Ok(RestrictedExpr::val(4))
    );
}

#[test]
fn a_residual_that_is_restricted_is_taken_as_it_is() {
    let e = Expr::set(vec![
        Expr::unknown(Unknown::new_untyped("u")),
        Expr::call_extension_fn(name("f"), vec![Expr::val(1)]),
    ]);
    assert_eq!(
        RestrictedExpr::try_from(PartialValue::Residual(e.clone())),
        Ok(RestrictedExpr::new(e).unwrap())
    );
}

#[test]
fn a_residual_that_is_not_restricted_is_handed_back() {
    let e = Expr::set(vec![
        Expr::val(1),
        Expr::binary_app(
            BinaryOp::Eq,
            Expr::unknown(Unknown::new_untyped("u")),
            Expr::var(Var::Principal),
        ),
    ]);
    assert_eq!(
        RestrictedExpr::try_from(PartialValue::Residual(e.clone())),
        Err(PartialValueToRestrictedExprError::NontrivialResidual {
            residual: Box::new(e)
        })
    );
}
