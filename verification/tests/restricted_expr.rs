use cedar_policy_core::ast::expression_construction_errors::DuplicateKeyError;
use cedar_policy_core::ast::restricted_expr_errors::InvalidRestrictedExpressionError;
use cedar_policy_core::ast::{
    is_restricted, BinaryOp, BorrowedRestrictedExpr, Eid, EntityUID, Expr, ExprKind,
    ExpressionConstructionError, Id, Literal, Name, PatternElem, RestrictedExpr,
    RestrictedExprShapeOnly, RestrictedExpressionError, RestrictedExpressionParseError, SlotId,
    UnaryOp, Unknown, Var,
};
use cedar_policy_core::parser::err::{
    ParseError, ParseErrors, ToASTError, ToASTErrorKind, ToCSTError,
};
use cedar_policy_core::parser::Loc;
use smol_str::SmolStr;
use std::collections::hash_map::DefaultHasher;
use std::collections::HashSet;
use std::hash::{Hash, Hasher};

fn name(s: &str) -> Name {
    Name::unqualified_name(Id::new_unchecked(s))
}

fn alice() -> EntityUID {
    EntityUID::from_components(name("User"), Eid::new("alice"))
}

fn invalid(feature: &str, expr: Expr) -> RestrictedExpressionError {
    RestrictedExpressionError::InvalidRestrictedExpression(InvalidRestrictedExpressionError {
        feature: feature.into(),
        expr,
    })
}

fn feature_of(expr: &Expr) -> String {
    match is_restricted(expr) {
        Err(RestrictedExpressionError::InvalidRestrictedExpression(e)) => e.feature.to_string(),
        Ok(()) => panic!("the expression was accepted"),
    }
}

fn hash_of(e: &RestrictedExprShapeOnly<'_>) -> u64 {
    let mut h = DefaultHasher::new();
    e.hash(&mut h);
    h.finish()
}

#[test]
fn duplicate_key() {
    // duplicate key is an error when mapped to values of different types
    assert_eq!(
        RestrictedExpr::record(vec![
            ("foo".into(), RestrictedExpr::val(37),),
            ("foo".into(), RestrictedExpr::val("hello"),),
        ]),
        Err(DuplicateKeyError {
            key: "foo".into(),
            context: "in record literal",
        }
        .into())
    );

    // duplicate key is an error when mapped to different values of same type
    assert_eq!(
        RestrictedExpr::record(vec![
            ("foo".into(), RestrictedExpr::val(37),),
            ("foo".into(), RestrictedExpr::val(101),),
        ]),
        Err(DuplicateKeyError {
            key: "foo".into(),
            context: "in record literal",
        }
        .into())
    );

    // duplicate key is an error when mapped to the same value multiple times
    assert_eq!(
        RestrictedExpr::record(vec![
            ("foo".into(), RestrictedExpr::val(37),),
            ("foo".into(), RestrictedExpr::val(37),),
        ]),
        Err(DuplicateKeyError {
            key: "foo".into(),
            context: "in record literal",
        }
        .into())
    );

    // duplicate key is an error even when other keys appear in between
    assert_eq!(
        RestrictedExpr::record(vec![
            ("bar".into(), RestrictedExpr::val(-3),),
            ("foo".into(), RestrictedExpr::val(37),),
            ("spam".into(), RestrictedExpr::val("eggs"),),
            ("foo".into(), RestrictedExpr::val(37),),
            ("eggs".into(), RestrictedExpr::val("spam"),),
        ]),
        Err(DuplicateKeyError {
            key: "foo".into(),
            context: "in record literal",
        }
        .into())
    );

    // duplicate key is also an error for what a parser makes of a string
    let str = r#"{ foo: 37, bar: "hi", foo: 101 }"#;
    let parsed = Expr::record(vec![
        ("foo".into(), Expr::val(37)),
        ("bar".into(), Expr::val("hi")),
        ("foo".into(), Expr::val(101)),
    ])
    .map_err(|e| {
        ParseErrors::singleton(ParseError::ToAST(ToASTError::new(
            ToASTErrorKind::ExpressionConstructionError(e),
            Loc::new(0, 32, str).into_maybe_loc(),
        )))
    });
    assert_eq!(
        RestrictedExpr::from_parsed(parsed),
        Err(RestrictedExpressionParseError::Parse(
            ParseErrors::singleton(ParseError::ToAST(ToASTError::new(
                ToASTErrorKind::ExpressionConstructionError(
                    DuplicateKeyError {
                        key: "foo".into(),
                        context: "in record literal",
                    }
                    .into()
                ),
                Loc::new(0, 32, str).into_maybe_loc()
            )))
        )),
    )
}

#[test]
fn record_without_duplicates_is_built_in_order() {
    let r = RestrictedExpr::record(vec![
        ("zed".into(), RestrictedExpr::val(1)),
        ("abe".into(), RestrictedExpr::val(true)),
    ])
    .unwrap();
    let pairs = r.as_record_pairs().unwrap();
    assert_eq!(pairs.len(), 2);
    assert_eq!(pairs[0].0.as_str(), "zed");
    assert_eq!(pairs[0].1.as_long(), Some(1));
    assert_eq!(pairs[1].0.as_str(), "abe");
    assert_eq!(pairs[1].1.as_bool(), Some(true));
}

#[test]
fn empty_record_and_single_entry_never_fail() {
    assert!(RestrictedExpr::record(vec![]).is_ok());
    assert!(RestrictedExpr::record(vec![("foo".into(), RestrictedExpr::val(1))]).is_ok());
}

#[test]
fn duplicate_key_names_the_first_key_that_repeats() {
    // "b" repeats at position 2, "a" only at position 3
    let r = RestrictedExpr::record(vec![
        ("a".into(), RestrictedExpr::val(1)),
        ("b".into(), RestrictedExpr::val(2)),
        ("b".into(), RestrictedExpr::val(3)),
        ("a".into(), RestrictedExpr::val(4)),
    ]);
    assert_eq!(
        r,
        Err(ExpressionConstructionError::DuplicateKey(DuplicateKeyError {
            key: "b".into(),
            context: "in record literal",
        }))
    );
}

#[test]
fn keys_that_differ_in_case_or_length_are_different() {
    assert!(RestrictedExpr::record(vec![
        ("foo".into(), RestrictedExpr::val(1)),
        ("Foo".into(), RestrictedExpr::val(1)),
        ("fo".into(), RestrictedExpr::val(1)),
        ("".into(), RestrictedExpr::val(1)),
    ])
    .is_ok());
}

#[test]
fn long_keys_are_compared_by_their_characters() {
    let long_a = "a".repeat(40);
    let mut long_b = "a".repeat(39);
    long_b.push('b');
    assert!(RestrictedExpr::record(vec![
        (SmolStr::new(&long_a), RestrictedExpr::val(1)),
        (SmolStr::new(&long_b), RestrictedExpr::val(1)),
    ])
    .is_ok());
    assert_eq!(
        RestrictedExpr::record(vec![
            (SmolStr::new(&long_a), RestrictedExpr::val(1)),
            (SmolStr::new(&long_a), RestrictedExpr::val(2)),
        ]),
        Err(ExpressionConstructionError::DuplicateKey(DuplicateKeyError {
            key: SmolStr::new(&long_a),
            context: "in record literal",
        }))
    );
}

#[test]
fn literals_and_unknowns_are_restricted() {
    assert_eq!(is_restricted(&Expr::val(true)), Ok(()));
    assert_eq!(is_restricted(&Expr::val(-7)), Ok(()));
    assert_eq!(is_restricted(&Expr::val("hi")), Ok(()));
    assert_eq!(is_restricted(&Expr::val(alice())), Ok(()));
    assert_eq!(is_restricted(&Expr::unknown(Unknown::new_untyped("u"))), Ok(()));
}

#[test]
fn aggregates_of_restricted_expressions_are_restricted() {
    let set = Expr::set(vec![Expr::val(1), Expr::val("two")]);
    assert_eq!(is_restricted(&set), Ok(()));
    let record = Expr::record(vec![("k".into(), set)]).unwrap();
    assert_eq!(is_restricted(&record), Ok(()));
    let call = Expr::call_extension_fn(name("ip"), vec![Expr::val("10.0.0.1"), record]);
    assert_eq!(is_restricted(&call), Ok(()));
    assert_eq!(is_restricted(&Expr::set(vec![])), Ok(()));
    assert_eq!(is_restricted(&Expr::call_extension_fn(name("f"), vec![])), Ok(()));
}

#[test]
fn each_disallowed_kind_is_rejected_with_its_feature() {
    let t = || Expr::val(true);
    assert_eq!(
        is_restricted(&Expr::var(Var::Principal)),
        Err(invalid("variables", Expr::var(Var::Principal)))
    );
    assert_eq!(feature_of(&Expr::var(Var::Action)), "variables");
    assert_eq!(feature_of(&Expr::var(Var::Resource)), "variables");
    assert_eq!(feature_of(&Expr::var(Var::Context)), "variables");
    assert_eq!(
        is_restricted(&Expr::slot(SlotId::Principal)),
        Err(invalid("template slots", Expr::slot(SlotId::Principal)))
    );
    assert_eq!(feature_of(&Expr::slot(SlotId::Resource)), "template slots");
    assert_eq!(
        is_restricted(&Expr::ite(t(), t(), t())),
        Err(invalid("if-then-else", Expr::ite(t(), t(), t())))
    );
    assert_eq!(
        is_restricted(&Expr::and(t(), t())),
        Err(invalid("&&", Expr::and(t(), t())))
    );
    assert_eq!(
        is_restricted(&Expr::or(t(), t())),
        Err(invalid("||", Expr::or(t(), t())))
    );
    assert_eq!(
        is_restricted(&Expr::get_attr(t(), "a".into())),
        Err(invalid("attribute accesses", Expr::get_attr(t(), "a".into())))
    );
    assert_eq!(
        is_restricted(&Expr::has_attr(t(), "a".into())),
        Err(invalid("'has'", Expr::has_attr(t(), "a".into())))
    );
    assert_eq!(
        is_restricted(&Expr::like(t(), vec![PatternElem::Char('a'), PatternElem::Wildcard])),
        Err(invalid(
            "'like'",
            Expr::like(t(), vec![PatternElem::Char('a'), PatternElem::Wildcard])
        ))
    );
    assert_eq!(
        is_restricted(&Expr::is_entity_type(t(), name("User"))),
        Err(invalid("'is'", Expr::is_entity_type(t(), name("User"))))
    );
}

#[test]
fn each_operator_is_rejected_with_its_symbol() {
    let t = || Expr::val(1);
    let unary = [
        (UnaryOp::Not, "!"),
        (UnaryOp::Neg, "-"),
        (UnaryOp::IsEmpty, "isEmpty"),
    ];
    for (op, symbol) in unary {
        assert_eq!(op.symbol(), symbol);
        assert_eq!(
            is_restricted(&Expr::unary_app(op, t())),
            Err(invalid(symbol, Expr::unary_app(op, t())))
        );
    }
    let binary = [
        (BinaryOp::Eq, "=="),
        (BinaryOp::Less, "<"),
        (BinaryOp::LessEq, "<="),
        (BinaryOp::Add, "+"),
        (BinaryOp::Sub, "-"),
        (BinaryOp::Mul, "*"),
        (BinaryOp::In, "in"),
        (BinaryOp::Contains, "contains"),
        (BinaryOp::ContainsAll, "containsAll"),
        (BinaryOp::ContainsAny, "containsAny"),
        (BinaryOp::GetTag, "getTag"),
        (BinaryOp::HasTag, "hasTag"),
    ];
    for (op, symbol) in binary {
        assert_eq!(op.symbol(), symbol);
        assert_eq!(
            is_restricted(&Expr::binary_app(op, t(), t())),
            Err(invalid(symbol, Expr::binary_app(op, t(), t())))
        );
    }
}

#[test]
fn a_disallowed_node_is_found_inside_a_set_a_record_and_a_call() {
    let bad = || Expr::var(Var::Context);
    let in_set = Expr::set(vec![Expr::val(1), bad()]);
    assert_eq!(is_restricted(&in_set), Err(invalid("variables", bad())));
    let in_record = Expr::record(vec![
        ("ok".into(), Expr::val(1)),
        ("bad".into(), bad()),
    ])
    .unwrap();
    assert_eq!(is_restricted(&in_record), Err(invalid("variables", bad())));
    let in_call = Expr::call_extension_fn(name("decimal"), vec![bad()]);
    assert_eq!(is_restricted(&in_call), Err(invalid("variables", bad())));
    // three levels down
    let deep = Expr::set(vec![Expr::record(vec![(
        "k".into(),
        Expr::call_extension_fn(name("f"), vec![Expr::val(1), Expr::and(bad(), bad())]),
    )])
    .unwrap()]);
    assert_eq!(
        is_restricted(&deep),
        Err(invalid("&&", Expr::and(bad(), bad())))
    );
    assert!(RestrictedExpr::new(deep).is_err());
}

#[test]
fn the_first_violation_in_depth_first_order_is_reported() {
    let e = Expr::set(vec![
        Expr::val(1),
        Expr::set(vec![Expr::val(2), Expr::slot(SlotId::Resource)]),
        Expr::var(Var::Principal),
    ]);
    assert_eq!(
        is_restricted(&e),
        Err(invalid("template slots", Expr::slot(SlotId::Resource)))
    );
    // what stands inside a disallowed node is not looked at
    let e = Expr::ite(Expr::var(Var::Principal), Expr::val(1), Expr::val(2));
    assert_eq!(feature_of(&e), "if-then-else");
}

#[test]
fn the_reported_expression_keeps_its_source_position() {
    let at = Loc::new(3, 9, "a, principal").into_maybe_loc();
    let bad = Expr::var(Var::Principal).with_maybe_source_loc(at.clone());
    let e = Expr::set(vec![Expr::val(1), bad.clone()]);
    match is_restricted(&e) {
        Err(RestrictedExpressionError::InvalidRestrictedExpression(err)) => {
            assert_eq!(err.expr().source_loc(), &at);
            assert_eq!(err.feature().as_str(), "variables");
            assert_eq!(err.expr, bad);
        }
        Ok(()) => panic!("the expression was accepted"),
    }
}

#[test]
fn checked_construction_keeps_the_expression() {
    let e = Expr::set(vec![Expr::val(1), Expr::val(2)]);
    let r = RestrictedExpr::new(e.clone()).unwrap();
    assert_eq!(r.as_ref(), &e);
    assert_eq!(Expr::from(r), e);
    let b = BorrowedRestrictedExpr::new(&e).unwrap();
    assert_eq!(b.as_ref(), &e);
    assert_eq!(<&Expr>::from(b), &e);
    assert_eq!(b.to_owned(), RestrictedExpr::new(e.clone()).unwrap());
}

#[test]
fn checked_construction_rejects_what_is_not_restricted() {
    let e = Expr::unary_app(UnaryOp::Neg, Expr::val(1));
    assert_eq!(
        RestrictedExpr::new(e.clone()),
        Err(invalid("-", e.clone()))
    );
    assert_eq!(
        BorrowedRestrictedExpr::new(&e).map(|_| ()),
        Err(invalid("-", e.clone()))
    );
}

#[test]
fn unchecked_construction_wraps_the_expression() {
    let e = Expr::val("x");
    let r = RestrictedExpr::new_unchecked(e.clone());
    assert_eq!(r.as_ref(), &e);
    let b = BorrowedRestrictedExpr::new_unchecked(&e);
    assert_eq!(b.as_ref(), &e);
    assert_eq!(r.as_borrowed(), b);
}

#[test]
fn builders_make_what_the_general_builders_make() {
    assert_eq!(Expr::from(RestrictedExpr::val(5)), Expr::val(5));
    assert_eq!(
        Expr::from(RestrictedExpr::val(Literal::Bool(false))),
        Expr::val(false)
    );
    assert_eq!(
        Expr::from(RestrictedExpr::unknown(Unknown::new_untyped("u"))),
        Expr::unknown(Unknown::new_untyped("u"))
    );
    assert_eq!(
        Expr::from(RestrictedExpr::set(vec![
            RestrictedExpr::val(2),
            RestrictedExpr::val(1)
        ])),
        Expr::set(vec![Expr::val(2), Expr::val(1)])
    );
    assert_eq!(
        Expr::from(RestrictedExpr::call_extension_fn(
            name("ip"),
            vec![RestrictedExpr::val("::1")]
        )),
        Expr::call_extension_fn(name("ip"), vec![Expr::val("::1")])
    );
    assert_eq!(
        Expr::from(
            RestrictedExpr::record(vec![("k".into(), RestrictedExpr::val(1))]).unwrap()
        ),
        Expr::record(vec![("k".into(), Expr::val(1))]).unwrap()
    );
}

#[test]
fn with_maybe_source_loc_changes_the_position_only() {
    let at = Loc::new(0, 2, "37").into_maybe_loc();
    let r = RestrictedExpr::val(37).with_maybe_source_loc(at.clone());
    assert_eq!(r.source_loc(), &at);
    assert_eq!(r.as_long(), Some(37));
    let back = r.with_maybe_source_loc(None);
    assert_eq!(back, RestrictedExpr::val(37));
}

fn present(e: &RestrictedExpr) -> [bool; 8] {
    [
        e.as_bool().is_some(),
        e.as_long().is_some(),
        e.as_string().is_some(),
        e.as_euid().is_some(),
        e.as_unknown().is_some(),
        e.as_set_elements().is_some(),
        e.as_record_pairs().is_some(),
        e.as_extn_fn_call().is_some(),
    ]
}

fn present_borrowed(e: &BorrowedRestrictedExpr<'_>) -> [bool; 8] {
    [
        e.as_bool().is_some(),
        e.as_long().is_some(),
        e.as_string().is_some(),
        e.as_euid().is_some(),
        e.as_unknown().is_some(),
        e.as_set_elements().is_some(),
        e.as_record_pairs().is_some(),
        e.as_extn_fn_call().is_some(),
    ]
}

#[test]
fn exactly_the_matching_accessor_gives_something() {
    let shapes = vec![
        RestrictedExpr::val(true),
        RestrictedExpr::val(i64::MIN),
        RestrictedExpr::val(""),
        RestrictedExpr::val(alice()),
        RestrictedExpr::unknown(Unknown::new_untyped("u")),
        RestrictedExpr::set(vec![]),
        RestrictedExpr::record(vec![]).unwrap(),
        RestrictedExpr::call_extension_fn(name("f"), vec![]),
    ];
    for (i, e) in shapes.iter().enumerate() {
        let mut expected = [false; 8];
        expected[i] = true;
        assert_eq!(present(e), expected);
        assert_eq!(present_borrowed(&e.as_borrowed()), expected);
    }
}

#[test]
fn accessors_give_what_the_expression_holds() {
    assert_eq!(RestrictedExpr::val(false).as_bool(), Some(false));
    assert_eq!(RestrictedExpr::val(i64::MAX).as_long(), Some(i64::MAX));
    assert_eq!(
        RestrictedExpr::val("hello").as_string().map(|s| s.as_str()),
        Some("hello")
    );
    assert_eq!(RestrictedExpr::val(alice()).as_euid(), Some(&alice()));
    assert_eq!(
        RestrictedExpr::unknown(Unknown::new_untyped("u")).as_unknown(),
        Some(&Unknown::new_untyped("u"))
    );
    let set = RestrictedExpr::set(vec![RestrictedExpr::val(3), RestrictedExpr::val("x")]);
    let items = set.as_set_elements().unwrap();
    assert_eq!(items.len(), 2);
    assert_eq!(items[0].as_long(), Some(3));
    assert_eq!(items[1].as_string().map(|s| s.as_str()), Some("x"));
    let call = RestrictedExpr::call_extension_fn(
        name("decimal"),
        vec![RestrictedExpr::val("1.5"), RestrictedExpr::val(2)],
    );
    let (f, args) = call.as_extn_fn_call().unwrap();
    assert_eq!(f, &name("decimal"));
    assert_eq!(args.len(), 2);
    assert_eq!(args[0].as_string().map(|s| s.as_str()), Some("1.5"));
    assert_eq!(args[1].as_long(), Some(2));
}

#[test]
fn what_is_inside_a_restricted_expression_is_restricted() {
    let inner = RestrictedExpr::set(vec![
        RestrictedExpr::val(1),
        RestrictedExpr::record(vec![("k".into(), RestrictedExpr::val("v"))]).unwrap(),
    ]);
    let outer = RestrictedExpr::call_extension_fn(name("f"), vec![inner]);
    let (_, args) = outer.as_extn_fn_call().unwrap();
    for a in &args {
        assert_eq!(is_restricted(a.as_ref()), Ok(()));
        for item in a.as_set_elements().unwrap() {
            assert_eq!(is_restricted(item.as_ref()), Ok(()));
            if let Some(pairs) = item.as_record_pairs() {
                for (_, v) in pairs {
                    assert_eq!(BorrowedRestrictedExpr::new(v.as_ref()), Ok(v));
                }
            }
        }
    }
}

#[test]
fn restricted_expressions_deref_to_expressions() {
    let r = RestrictedExpr::val(1);
    assert!(matches!(r.expr_kind(), ExprKind::Lit(Literal::Long(1))));
    let b = r.as_borrowed();
    assert!(matches!(b.expr_kind(), ExprKind::Lit(Literal::Long(1))));
}

#[test]
fn parsed_text_is_checked_before_it_becomes_restricted() {
    assert_eq!(
        RestrictedExpr::from_parsed(Ok(Expr::val(1))),
        Ok(RestrictedExpr::val(1))
    );
    let e = Expr::binary_app(BinaryOp::Add, Expr::val(1), Expr::val(2));
    assert_eq!(
        RestrictedExpr::from_parsed(Ok(e.clone())),
        Err(RestrictedExpressionParseError::InvalidRestrictedExpression(
            invalid("+", e)
        ))
    );
    assert_eq!(
        RestrictedExpressionParseError::from(invalid("+", Expr::val(1))),
        RestrictedExpressionParseError::InvalidRestrictedExpression(invalid("+", Expr::val(1)))
    );
}

#[test]
fn shape_equality_ignores_source_positions() {
    let src = "[1, User::\"alice\"]";
    let plain = Expr::set(vec![Expr::val(1), Expr::val(alice())]);
    let placed = Expr::set(vec![
        Expr::val(1).with_maybe_source_loc(Loc::new(1, 1, src).into_maybe_loc()),
        Expr::val(alice()).with_maybe_source_loc(Loc::new(4, 13, src).into_maybe_loc()),
    ])
    .with_maybe_source_loc(Loc::new(0, 18, src).into_maybe_loc());
    let a = BorrowedRestrictedExpr::new(&plain).unwrap();
    let b = BorrowedRestrictedExpr::new(&placed).unwrap();
    // the full comparison tells them apart
    assert_ne!(a, b);
    // the comparison by shape does not
    let sa = RestrictedExprShapeOnly::new(a);
    let sb = RestrictedExprShapeOnly::new(b);
    assert_eq!(sa, sb);
    assert_eq!(sa.shape_hash(), sb.shape_hash());
    assert_eq!(hash_of(&sa), hash_of(&sb));
    let mut table = HashSet::new();
    table.insert(sa);
    assert!(table.contains(&sb));
}

#[test]
fn shape_equality_tells_different_shapes_apart() {
    let exprs = vec![
        Expr::val(1),
        Expr::val(2),
        Expr::val(true),
        Expr::val("1"),
        Expr::val(""),
        Expr::val(alice()),
        Expr::unknown(Unknown::new_untyped("1")),
        Expr::set(vec![]),
        Expr::set(vec![Expr::val(1)]),
        Expr::set(vec![Expr::val(1), Expr::val(2)]),
        Expr::set(vec![Expr::val(2), Expr::val(1)]),
        Expr::set(vec![Expr::set(vec![])]),
        Expr::record(vec![]).unwrap(),
        Expr::record(vec![("a".into(), Expr::val(1))]).unwrap(),
        Expr::record(vec![("b".into(), Expr::val(1))]).unwrap(),
        Expr::record(vec![("a".into(), Expr::val(1)), ("b".into(), Expr::val(1))]).unwrap(),
        Expr::record(vec![("b".into(), Expr::val(1)), ("a".into(), Expr::val(1))]).unwrap(),
        Expr::call_extension_fn(name("f"), vec![]),
        Expr::call_extension_fn(name("g"), vec![]),
        Expr::call_extension_fn(name("f"), vec![Expr::val(1)]),
    ];
    for (i, x) in exprs.iter().enumerate() {
        for (j, y) in exprs.iter().enumerate() {
            let a = RestrictedExprShapeOnly::new(BorrowedRestrictedExpr::new(x).unwrap());
            let b = RestrictedExprShapeOnly::new(BorrowedRestrictedExpr::new(y).unwrap());
            assert_eq!(a == b, i == j, "{:?} and {:?}", x, y);
            assert_eq!(x.eq_shape(y), i == j);
            if i == j {
                assert_eq!(a.shape_hash(), b.shape_hash());
            }
        }
    }
}

#[test]
fn shape_hash_has_the_value_that_its_definition_gives() {
    // the digest of `true`: the start value, then 1 for a literal, 1 for a
    // boolean and 1 for `true`, each step being `h * 0x100000001b3 + x`
    let step = |h: u64, x: u64| h.wrapping_mul(0x0000_0100_0000_01b3).wrapping_add(x);
    let expected = step(step(step(0xcbf2_9ce4_8422_2325, 1), 1), 1);
    assert_eq!(Expr::val(true).hash_shape(), expected);
    // the digest of `"a"`: 1 for a literal, 3 for a string, the character,
    // and the mark for the end of a string
    let expected = step(step(step(step(0xcbf2_9ce4_8422_2325, 1), 3), 'a' as u64), 0x11_0000);
    assert_eq!(Expr::val("a").hash_shape(), expected);
    // the digest of `-1`: 1 for a literal, 2 for an integer, and the integer
    // in two's complement
    let expected = step(step(step(0xcbf2_9ce4_8422_2325, 1), 2), u64::MAX);
    assert_eq!(Expr::val(-1).hash_shape(), expected);
}

#[test]
fn shape_equality_of_names_ignores_their_source_positions() {
    let at = Loc::new(0, 2, "ip").into_maybe_loc();
    let placed = Name::new(Id::new_unchecked("ip"), vec![], at);
    let a = Expr::call_extension_fn(placed, vec![Expr::val("::1")]);
    let b = Expr::call_extension_fn(name("ip"), vec![Expr::val("::1")]);
    assert!(a.eq_shape(&b));
    assert_eq!(a.hash_shape(), b.hash_shape());
    let qualified = Name::new(Id::new_unchecked("ip"), vec![Id::new_unchecked("net")], None);
    let c = Expr::call_extension_fn(qualified, vec![Expr::val("::1")]);
    assert!(!a.eq_shape(&c));
}

#[test]
fn shape_equality_holds_of_unrestricted_expressions_too() {
    let e = |at: Option<Loc>| {
        Expr::ite(
            Expr::like(Expr::var(Var::Principal), vec![PatternElem::Wildcard]),
            Expr::get_attr(Expr::var(Var::Context), "a".into()),
            Expr::binary_app(
                BinaryOp::In,
                Expr::slot(SlotId::Principal),
                Expr::unary_app(UnaryOp::Not, Expr::has_attr(Expr::val(1), "b".into())),
            ),
        )
        .with_maybe_source_loc(at)
    };
    let a = e(None);
    let b = e(Loc::new(0, 1, "x").into_maybe_loc());
    assert_ne!(a, b);
    assert!(a.eq_shape(&b));
    assert_eq!(a.hash_shape(), b.hash_shape());
    let c = Expr::or(a.clone(), Expr::is_entity_type(Expr::val(1), name("T")));
    let d = Expr::and(a.clone(), Expr::is_entity_type(Expr::val(1), name("T")));
    assert!(!c.eq_shape(&d));
    assert!(c.eq_shape(&c.clone()));
}

#[test]
fn a_copy_of_an_expression_equals_it() {
    let e = Expr::record(vec![
        ("a".into(), Expr::set(vec![Expr::val(alice()), Expr::val("s")])),
        (
            "b".into(),
            Expr::call_extension_fn(name("f"), vec![Expr::unknown(Unknown::new_untyped("u"))]),
        ),
    ])
    .unwrap()
    .with_maybe_source_loc(Loc::new(0, 5, "12345").into_maybe_loc());
    assert_eq!(e.clone(), e);
    let r = RestrictedExpr::new(e.clone()).unwrap();
    assert_eq!(r.clone(), r);
}

#[test]
fn expressions_are_equal_when_they_agree_in_everything() {
    let exprs = vec![
        Expr::val(1),
        Expr::val(1).with_maybe_source_loc(Loc::new(0, 1, "1").into_maybe_loc()),
        Expr::val(1).with_maybe_source_loc(Loc::new(0, 1, "2").into_maybe_loc()),
        Expr::val("1"),
        Expr::val(true),
        Expr::val(alice()),
        Expr::var(Var::Principal),
        Expr::var(Var::Action),
        Expr::slot(SlotId::Principal),
        Expr::slot(SlotId::Resource),
        Expr::unknown(Unknown::new_untyped("a")),
        Expr::unknown(Unknown::new_untyped("b")),
        Expr::ite(Expr::val(true), Expr::val(1), Expr::val(2)),
        Expr::ite(Expr::val(true), Expr::val(2), Expr::val(1)),
        Expr::and(Expr::val(true), Expr::val(false)),
        Expr::or(Expr::val(true), Expr::val(false)),
        Expr::unary_app(UnaryOp::Not, Expr::val(true)),
        Expr::unary_app(UnaryOp::Neg, Expr::val(true)),
        Expr::binary_app(BinaryOp::Add, Expr::val(1), Expr::val(2)),
        Expr::binary_app(BinaryOp::Sub, Expr::val(1), Expr::val(2)),
        Expr::binary_app(BinaryOp::Add, Expr::val(2), Expr::val(1)),
        Expr::get_attr(Expr::val(1), "a".into()),
        Expr::get_attr(Expr::val(1), "b".into()),
        Expr::has_attr(Expr::val(1), "a".into()),
        Expr::like(Expr::val(1), vec![PatternElem::Wildcard]),
        Expr::like(Expr::val(1), vec![PatternElem::Char('*')]),
        Expr::like(Expr::val(1), vec![]),
        Expr::is_entity_type(Expr::val(1), name("A")),
        Expr::is_entity_type(Expr::val(1), name("B")),
        Expr::set(vec![]),
        Expr::set(vec![Expr::val(1), Expr::val(2)]),
        Expr::set(vec![Expr::val(2), Expr::val(1)]),
        Expr::record(vec![]).unwrap(),
        Expr::record(vec![("a".into(), Expr::val(1))]).unwrap(),
        Expr::record(vec![("a".into(), Expr::val(2))]).unwrap(),
        Expr::call_extension_fn(name("f"), vec![]),
        Expr::call_extension_fn(name("f"), vec![Expr::val(1)]),
        Expr::call_extension_fn(
            Name::new(Id::new_unchecked("f"), vec![], Loc::new(0, 1, "f").into_maybe_loc()),
            vec![],
        ),
    ];
    for (i, x) in exprs.iter().enumerate() {
        for (j, y) in exprs.iter().enumerate() {
            assert_eq!(x == y, i == j, "{:?} and {:?}", x, y);
            assert_eq!(x.expr_kind() == y.expr_kind(), x.expr_kind().clone() == y.expr_kind().clone());
            if let (Ok(a), Ok(b)) = (
                BorrowedRestrictedExpr::new(x),
                BorrowedRestrictedExpr::new(y),
            ) {
                assert_eq!(a == b, i == j);
                assert_eq!(a.to_owned() == b.to_owned(), i == j);
            }
        }
        assert_eq!(&x.clone(), x);
    }
}

#[test]
fn what_a_parser_could_not_read_is_handed_on() {
    let cst = || {
        ParseError::ToCST(ToCSTError {
            loc: Loc::new(4, 1, "1 + ").into_maybe_loc(),
        })
    };
    let ast = || {
        ParseError::ToAST(ToASTError::new(
            ToASTErrorKind::ExpressionConstructionError(
                DuplicateKeyError {
                    key: "k".into(),
                    context: "in record literal",
                }
                .into(),
            ),
            None,
        ))
    };
    assert_eq!(
        RestrictedExpr::from_parsed(Err(ParseErrors::new(cst(), vec![ast()]))),
        Err(RestrictedExpressionParseError::Parse(ParseErrors::new(
            cst(),
            vec![ast()]
        )))
    );
    assert_eq!(
        RestrictedExpressionParseError::from(ParseErrors::singleton(cst())),
        RestrictedExpressionParseError::Parse(ParseErrors::singleton(cst()))
    );
    let errs = ParseErrors::new(cst(), vec![ast(), cst()]);
    assert_eq!(errs.first(), &cst());
    assert_eq!(errs.rest(), &vec![ast(), cst()]);
    assert_eq!(ParseErrors::singleton(ast()).rest(), &vec![]);
    assert_ne!(ParseErrors::singleton(ast()), ParseErrors::singleton(cst()));
}
