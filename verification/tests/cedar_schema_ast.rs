use cedar_policy_core::ast::{Id, InternalName};
use cedar_policy_core::parser::Loc;
use cedar_policy_core::validator::cedar_schema::ast::Path;
use std::collections::HashSet;

fn loc() -> Loc {
    Loc::new(1, 1, "foo")
}

fn id(s: &str) -> Id {
    Id::new_unchecked(s)
}

// Ensure the iterators over [`Path`]s return most significant names first
#[test]
fn path_iter() {
    let p = Path::new(
        id("baz"),
        vec![id("foo"), id("bar")],
        loc().into_maybe_loc(),
    );

    let expected: Vec<Id> = vec![id("foo"), id("bar"), id("baz")];

    let expected_borrowed = expected.iter().collect::<Vec<_>>();

    let borrowed = p.iter().into_iter().collect::<Vec<_>>();
    assert_eq!(borrowed, expected_borrowed);
    let moved = p.into_iter().into_iter().map(|n| n.node).collect::<Vec<_>>();
    assert_eq!(moved, expected);
}

#[test]
fn a_single_path_has_no_namespace() {
    let p = Path::single(id("Bool"), None);
    assert_eq!(p.iter(), vec![&id("Bool")]);
    assert_eq!(p.loc(), None);
    assert!(!p.is_in_cedar());
    assert_eq!(p.split_last(), (vec![], id("Bool")));
}

#[test]
fn a_path_is_split_into_namespace_and_base_name() {
    let p = Path::new(id("c"), vec![id("a"), id("b")], None);
    assert_eq!(p.split_last(), (vec![id("a"), id("b")], id("c")));
}

#[test]
fn a_path_knows_where_it_was_read_from() {
    let p = Path::new(id("c"), vec![], loc().into_maybe_loc());
    assert_eq!(p.loc(), Some(&loc()));
    let nodes = p.into_iter();
    assert_eq!(nodes.len(), 1);
    assert_eq!(nodes[0].node, id("c"));
    assert_eq!(nodes[0].loc, Some(loc()));
}

#[test]
fn each_name_of_a_path_gets_the_position_of_the_path() {
    let p = Path::new(id("c"), vec![id("a"), id("b")], loc().into_maybe_loc());
    let nodes = p.into_iter();
    assert_eq!(nodes.len(), 3);
    for n in &nodes {
        assert_eq!(n.loc, Some(loc()));
    }
}

#[test]
fn only_one_namespace_called_cedar_is_in_cedar() {
    assert!(Path::new(id("Bool"), vec![id("__cedar")], None).is_in_cedar());
    assert!(!Path::new(id("Bool"), vec![id("cedar")], None).is_in_cedar());
    assert!(!Path::new(id("Bool"), vec![id("__cedar"), id("x")], None).is_in_cedar());
    assert!(!Path::new(id("Bool"), vec![id("x"), id("__cedar")], None).is_in_cedar());
    assert!(!Path::new(id("__cedar"), vec![], None).is_in_cedar());
    assert!(!Path::single(id("__cedar"), None).is_in_cedar());
}

#[test]
fn a_path_spells_a_name() {
    let p = Path::new(id("c"), vec![id("a"), id("b")], loc().into_maybe_loc());
    let n = InternalName::from(p);
    assert_eq!(n.basename(), &id("c"));
    assert_eq!(n.namespace_components(), &vec![id("a"), id("b")]);
    assert_eq!(n.loc(), &Some(loc()));
}

#[test]
fn paths_are_compared_without_their_source_positions() {
    let a = Path::new(id("c"), vec![id("a")], loc().into_maybe_loc());
    let b = Path::new(id("c"), vec![id("a")], None);
    let c = Path::new(id("c"), vec![id("b")], None);
    assert_eq!(a, b);
    assert_ne!(a, c);
    assert_eq!(a.clone(), a);
    assert_eq!(a.clone().loc(), Some(&loc()));
}

#[test]
fn paths_are_hashed_without_their_source_positions() {
    let mut seen = HashSet::new();
    seen.insert(Path::new(id("c"), vec![id("a")], loc().into_maybe_loc()));
    assert!(seen.contains(&Path::new(id("c"), vec![id("a")], None)));
    assert!(!seen.contains(&Path::new(id("c"), vec![id("b")], None)));
    assert!(!seen.contains(&Path::single(id("c"), None)));
}
