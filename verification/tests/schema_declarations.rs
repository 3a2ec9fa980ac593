use cedar_policy_core::ast::{Annotation, Annotations, AnyId, Id};
use cedar_policy_core::parser::{Loc, Node};
use cedar_policy_core::validator::cedar_schema::ast::{
    deduplicate_annotations, ActionDecl, Annotated, AttrDecl, Decl, Declaration, EntityDecl,
    EnumEntityDecl, Namespace, Path, PrimitiveType, QualName, StandardEntityDecl, Type, TypeDecl,
    BUILTIN_TYPES, CEDAR_NAMESPACE, PR,
};
use cedar_policy_core::validator::cedar_schema::err::UserError;
use nonempty::NonEmpty;
use smol_str::SmolStr;

fn at(n: usize) -> Option<Loc> {
    Loc::new(n, 1, "@a(\"1\") @b @a(\"2\")").into_maybe_loc()
}

fn node<T>(t: T) -> Node<T> {
    Node::with_maybe_source_loc(t, None)
}

fn written(key: &str, key_at: usize, value: Option<(&str, usize)>) -> Node<(Node<AnyId>, Option<Node<SmolStr>>)> {
    node((
        Node::with_maybe_source_loc(AnyId::new_unchecked(key), at(key_at)),
        value.map(|(v, n)| Node::with_maybe_source_loc(SmolStr::new(v), at(n))),
    ))
}

fn keys_and_values(a: &Annotations) -> Vec<(String, String, Option<Loc>)> {
    a.iter()
        .iter()
        .map(|(k, v)| (k.as_str().to_string(), v.val.to_string(), v.loc.clone()))
        .collect()
}

#[test]
fn annotations_are_kept_by_their_keys_in_the_order_of_strings() {
    let r = deduplicate_annotations(
        7,
        vec![
            written("doc", 0, Some(("text", 1))),
            written("b", 2, None),
            written("a", 3, Some(("", 4))),
            written("B", 5, Some(("upper", 6))),
            written("ab", 7, None),
        ],
    )
    .unwrap();
    assert_eq!(r.data, 7);
    assert_eq!(
        keys_and_values(&r.annotations),
        vec![
            ("B".to_string(), "upper".to_string(), at(6)),
            ("a".to_string(), "".to_string(), at(4)),
            ("ab".to_string(), "".to_string(), None),
            ("b".to_string(), "".to_string(), None),
            ("doc".to_string(), "text".to_string(), at(1)),
        ]
    );
    assert_eq!(r.annotations.len(), 5);
}

#[test]
fn no_annotations_give_no_annotations() {
    let r = deduplicate_annotations("x", vec![]).unwrap();
    assert_eq!(r.data, "x");
    assert_eq!(r.annotations.len(), 0);
    assert_eq!(r.annotations, Annotations::new());
}

#[test]
fn a_key_that_is_written_twice_is_an_error() {
    let r = deduplicate_annotations(
        (),
        vec![
            written("a", 0, Some(("1", 1))),
            written("b", 2, None),
            written("a", 3, Some(("2", 4))),
        ],
    );
    assert_eq!(
        r,
        Err(UserError::DuplicateAnnotations(
            AnyId::new_unchecked("a"),
            Node::with_maybe_source_loc((), at(0)),
            Node::with_maybe_source_loc((), at(3)),
        ))
    );
    match r {
        Err(UserError::DuplicateAnnotations(_, first, second)) => {
            assert_eq!(first.loc, at(0));
            assert_eq!(second.loc, at(3));
        }
        Ok(_) => panic!("the annotations were accepted"),
    }
}

#[test]
fn the_first_key_that_is_repeated_is_named() {
    let r = deduplicate_annotations(
        (),
        vec![
            written("a", 0, None),
            written("b", 1, None),
            written("b", 2, None),
            written("a", 3, None),
        ],
    );
    match r {
        Err(UserError::DuplicateAnnotations(key, first, second)) => {
            assert_eq!(key.as_str(), "b");
            assert_eq!(first.loc, at(1));
            assert_eq!(second.loc, at(2));
        }
        Ok(_) => panic!("the annotations were accepted"),
    }
}

#[test]
fn the_same_key_with_the_same_value_is_an_error_too() {
    assert!(deduplicate_annotations(
        (),
        vec![written("a", 0, Some(("1", 1))), written("a", 0, Some(("1", 1)))]
    )
    .is_err());
}

#[test]
fn strings_are_ordered_by_their_characters() {
    let a = |s: &str| AnyId::new_unchecked(s);
    assert!(a("a").comes_before(&a("b")));
    assert!(!a("b").comes_before(&a("a")));
    assert!(!a("a").comes_before(&a("a")));
    assert!(a("").comes_before(&a("a")));
    assert!(!a("a").comes_before(&a("")));
    assert!(!a("").comes_before(&a("")));
    assert!(a("a").comes_before(&a("ab")));
    assert!(a("Z").comes_before(&a("a")));
    assert!(a("ab").comes_before(&a("b")));
    assert!(a("z").comes_before(&a("\u{e9}")));
    assert!(a("\u{e9}").comes_before(&a("\u{4e2d}")));
    assert!(a("\u{ffff}").comes_before(&a("\u{10000}")));
    assert!(a("a").same(&a("a")));
    assert!(!a("a").same(&a("A")));
    assert_eq!(a("a").clone(), a("a"));
}

#[test]
fn an_annotation_is_found_by_its_key() {
    let r = deduplicate_annotations(
        (),
        vec![written("b", 0, Some(("2", 1))), written("a", 2, None)],
    )
    .unwrap();
    assert_eq!(
        r.annotations.get(&AnyId::new_unchecked("b")),
        Some(&Annotation {
            val: "2".into(),
            loc: at(1)
        })
    );
    assert_eq!(
        r.annotations.get(&AnyId::new_unchecked("a")),
        Some(&Annotation::with_optional_value(None, None))
    );
    assert_eq!(r.annotations.get(&AnyId::new_unchecked("c")), None);
    assert_eq!(r.annotations.clone(), r.annotations);
    let copy = r.clone();
    assert_eq!(copy, r);
}

#[test]
fn an_annotation_without_a_value_has_the_empty_string() {
    assert_eq!(Annotation::with_optional_value(None, None).val, "");
    assert_eq!(
        Annotation::with_optional_value(Some("v".into()), at(1)),
        Annotation {
            val: "v".into(),
            loc: at(1)
        }
    );
    assert_eq!(Annotation::with_optional_value(Some("v".into()), None).clone().val, "v");
}

fn id(s: &str) -> Id {
    Id::new_unchecked(s)
}

#[test]
fn a_path_is_written_with_double_colons() {
    assert_eq!(Path::single(id("Bool"), None).to_string(), "Bool");
    assert_eq!(
        Path::new(id("Bool"), vec![id("__cedar")], None).to_string(),
        "__cedar::Bool"
    );
    assert_eq!(
        Path::new(id("c"), vec![id("a"), id("b")], None).to_string(),
        "a::b::c"
    );
}

#[test]
fn principal_and_resource_are_written_as_words() {
    assert_eq!(PR::Principal.to_string(), "principal");
    assert_eq!(PR::Resource.to_string(), "resource");
}

#[test]
fn the_built_in_names_are_what_they_are() {
    assert_eq!(BUILTIN_TYPES, ["Long", "String", "Bool"]);
    assert_eq!(CEDAR_NAMESPACE, "__cedar");
    let all = [PrimitiveType::Long, PrimitiveType::String, PrimitiveType::Bool];
    assert_eq!(all.len(), BUILTIN_TYPES.len());
}

#[test]
fn qualified_names_have_a_path_and_unqualified_names_have_none() {
    let q = QualName::qualified(Path::single(id("Action"), None), "view".into());
    assert_eq!(q.path, Some(Path::single(id("Action"), None)));
    assert_eq!(q.eid, "view");
    let u = QualName::unqualified("view".into());
    assert_eq!(u.path, None);
    assert_eq!(u.eid, "view");
    assert_eq!(u.clone().eid, "view");
}

#[test]
fn a_namespace_without_a_name_is_unqualified() {
    let unnamed = Namespace {
        name: None,
        decls: vec![],
        loc: None,
    };
    assert!(unnamed.is_unqualified());
    let named = Namespace {
        name: Some(Path::single(id("N"), None)),
        decls: vec![],
        loc: None,
    };
    assert!(!named.is_unqualified());
}

fn long_type() -> Node<Type> {
    node(Type::Ident(Path::single(id("Long"), None)))
}

#[test]
fn a_type_declaration_declares_its_one_name() {
    let d = TypeDecl {
        name: Node::with_maybe_source_loc(id("Age"), at(5)),
        def: long_type(),
    };
    let names = d.names();
    assert_eq!(names.len(), 1);
    assert_eq!(names[0].node, "Age");
    assert_eq!(names[0].loc, at(5));
}

#[test]
fn an_entity_declaration_declares_its_names_in_order() {
    let names = NonEmpty {
        head: Node::with_maybe_source_loc(id("User"), at(1)),
        tail: vec![
            Node::with_maybe_source_loc(id("Admin"), at(2)),
            Node::with_maybe_source_loc(id("Guest"), at(3)),
        ],
    };
    let standard = EntityDecl::Standard(StandardEntityDecl {
        names: names.clone(),
        member_of_types: vec![],
        attrs: node(vec![]),
        tags: None,
    });
    let got: Vec<_> = standard.names().iter().map(|n| n.node.as_str().to_string()).collect();
    assert_eq!(got, vec!["User", "Admin", "Guest"]);
    assert_eq!(standard.names()[1].loc, at(2));
    let listed = EntityDecl::Enum(EnumEntityDecl {
        names: NonEmpty::new(node(id("Color"))),
        choices: NonEmpty::new(node("red".into())),
    });
    let got: Vec<_> = listed.names().iter().map(|n| n.node.as_str().to_string()).collect();
    assert_eq!(got, vec!["Color"]);
}

#[test]
fn an_action_declaration_declares_its_names_in_order() {
    let d = ActionDecl {
        names: NonEmpty {
            head: Node::with_maybe_source_loc("view".into(), at(1)),
            tail: vec![Node::with_maybe_source_loc("edit".into(), at(2))],
        },
        parents: None,
        app_decls: None,
    };
    let names = d.names();
    assert_eq!(names.len(), 2);
    assert_eq!(names[0].node, "view");
    assert_eq!(names[0].loc, at(1));
    assert_eq!(names[1].node, "edit");
    assert_eq!(names[1].loc, at(2));
    let decl = Declaration::Action(d.clone());
    assert!(matches!(decl, Declaration::Action(_)));
}

#[test]
fn a_copy_of_a_type_has_its_structure() {
    let attr = |name: &str, ty: Node<Type>| {
        node(Annotated {
            data: AttrDecl {
                name: node(name.into()),
                required: name != "opt",
                ty,
            },
            annotations: Annotations::new(),
        })
    };
    let t = Type::Record(vec![
        attr("age", long_type()),
        attr("opt", node(Type::SetOf(Box::new(long_type())))),
        attr("inner", node(Type::Record(vec![attr("x", long_type())]))),
    ]);
    let copy = t.clone();
    match copy {
        Type::Record(attrs) => {
            assert_eq!(attrs.len(), 3);
            assert_eq!(attrs[0].node.data.name.node, "age");
            assert!(attrs[0].node.data.required);
            assert!(matches!(&attrs[0].node.data.ty.node, Type::Ident(p) if p.to_string() == "Long"));
            assert_eq!(attrs[1].node.data.name.node, "opt");
            assert!(!attrs[1].node.data.required);
            assert!(matches!(&attrs[1].node.data.ty.node, Type::SetOf(e) if matches!(&e.node, Type::Ident(_))));
            assert!(matches!(&attrs[2].node.data.ty.node, Type::Record(inner) if inner.len() == 1));
            assert_eq!(attrs[2].node.data.clone().name.node, "inner");
        }
        _ => panic!("the copy of a record type is no record type"),
    }
}
