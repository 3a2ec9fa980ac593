//! The syntax tree of a schema.

use crate::ast::annotation::{
    annotation_pairs_view, annotation_with_optional_value, keys_ascend, Annotation,
    AnnotationView, Annotations, AnyId,
};
use crate::ast::name::{
    clone_ids, ids_view, qualified_to_string, Id, InternalName, NameView,
};
use crate::ast::text::{
    comes_before, is_first_repeat, joined, lemma_comes_before_irreflexive, lemma_comes_before_total,
    lemma_comes_before_transitive, repeats_earlier, smol_str_new, text,
};
use crate::parser::{clone_maybe_loc, maybe_loc_view, Loc, LocView, MaybeLoc, Node};
use crate::validator::cedar_schema::err::{UserError, UserErrorView};
use itertools::Either;
use nonempty::NonEmpty;
use smol_str::SmolStr;
use vstd::prelude::*;
use vstd::string::StringExecFns;

verus! {

/// The names of the types that are built in.
pub const BUILTIN_TYPES: [&'static str; 3] = ["Long", "String", "Bool"];

/// The namespace that the types that are built in live in.
pub const CEDAR_NAMESPACE: &'static str = "__cedar";

/// Something that may carry annotations, with the annotations that it
/// carries.
#[derive(Debug, PartialEq, Eq, PartialOrd, Ord)]
pub struct Annotated<T> {
    /// What carries the annotations.
    pub data: T,
    /// The annotations.
    pub annotations: Annotations,
}

impl<T: Clone> Clone for Annotated<T> {
    fn clone(&self) -> (r: Annotated<T>)
        ensures
            cloned::<T>(self.data, r.data),
            r.annotations@ == self.annotations@,
    {
        Annotated { data: self.data.clone(), annotations: self.annotations.clone() }
    }
}

/// An annotation as it was written: a key with the place it stands at, and
/// behind it a value with its place, or nothing.
pub struct WrittenAnnotationView {
    pub key: Seq<char>,
    pub key_loc: Option<LocView>,
    pub value: Option<(Seq<char>, Option<LocView>)>,
}

impl WrittenAnnotationView {
    /// What stands behind the key once the annotation has been read: the
    /// value with its place, or the empty string and no place where no value
    /// was written.
    pub open spec fn annotation(self) -> AnnotationView {
        match self.value {
            Some((val, loc)) => annotation_with_optional_value(Some(val), loc),
            None => annotation_with_optional_value(None, None),
        }
    }
}

/// The mathematical value of a key and what was written behind it.
pub open spec fn written_pair_view(
    pair: (Node<AnyId>, Option<Node<SmolStr>>),
) -> WrittenAnnotationView {
    WrittenAnnotationView {
        key: pair.0.node@,
        key_loc: maybe_loc_view(pair.0.loc),
        value: match pair.1 {
            Some(n) => Some((text(n.node), maybe_loc_view(n.loc))),
            None => None,
        },
    }
}

/// The mathematical values of annotations as they were written.
pub open spec fn written_view(
    annotations: Seq<Node<(Node<AnyId>, Option<Node<SmolStr>>)>>,
) -> Seq<WrittenAnnotationView> {
    Seq::new(annotations.len(), |i: int| written_pair_view(annotations[i].node))
}

/// The keys of annotations as they were written, in the order in which they
/// were written.
pub open spec fn written_keys(written: Seq<WrittenAnnotationView>) -> Seq<Seq<char>> {
    Seq::new(written.len(), |i: int| written[i].key)
}

/// Whether `read` is what `written` reads as: the same keys, each once, in
/// the order of strings, each with what was written behind it.
pub open spec fn reads_as(
    written: Seq<WrittenAnnotationView>,
    read: Seq<(Seq<char>, AnnotationView)>,
) -> bool {
    &&& keys_ascend(read)
    &&& read.len() == written.len()
    &&& forall|i: int|
        0 <= i < written.len() ==> read.contains(
            ((#[trigger] written[i]).key, written[i].annotation()),
        )
}

/// Whether `e` is the error for the annotations `written`, of which two
/// have one key: it names the first key that stands at an earlier place
/// too, that earlier place, and the place where it stands again.
pub open spec fn is_duplicate_error(written: Seq<WrittenAnnotationView>, e: UserErrorView) -> bool {
    exists|i: int, j: int|
        {
            &&& #[trigger] is_first_repeat(written_keys(written), j)
            &&& 0 <= i < j
            &&& written[i].key == written[j].key
            &&& e == (UserErrorView::DuplicateAnnotations {
                key: written[j].key,
                first: (#[trigger] written[i]).key_loc,
                second: written[j].key_loc,
            })
        }
}

/// The mathematical values of keys and what was written behind them.
pub open spec fn written_pairs_view(
    pairs: Seq<(Node<AnyId>, Option<Node<SmolStr>>)>,
) -> Seq<WrittenAnnotationView> {
    Seq::new(pairs.len(), |i: int| written_pair_view(pairs[i]))
}

/// The keys of `pairs`, each with what its annotation reads as.
spec fn read_pairs(pairs: Seq<WrittenAnnotationView>) -> Seq<(Seq<char>, AnnotationView)> {
    Seq::new(pairs.len(), |i: int| (pairs[i].key, pairs[i].annotation()))
}

/// The first position in `unique`, whose keys ascend, whose key does not
/// come before `key`.
fn position_of(unique: &Vec<(Node<AnyId>, Option<Node<SmolStr>>)>, key: &AnyId) -> (p: usize)
    requires
        keys_ascend(read_pairs(written_pairs_view(unique@))),
    ensures
        p <= unique.len(),
        forall|q: int| 0 <= q < p ==> comes_before((#[trigger] unique[q]).0.node@, key@),
        forall|q: int|
            p <= q < unique.len() ==> !comes_before((#[trigger] unique[q]).0.node@, key@),
{
    let ghost read = read_pairs(written_pairs_view(unique@));
    let mut p: usize = 0;
    while p < unique.len() && unique[p].0.node.comes_before(key)
        invariant
            p <= unique.len(),
            forall|q: int| 0 <= q < p ==> comes_before((#[trigger] unique[q]).0.node@, key@),
        decreases unique.len() - p,
    {
        p = p + 1;
    }
    proof {
        assert forall|q: int| p <= q < unique.len() implies !comes_before(
            (#[trigger] unique[q]).0.node@,
            key@,
        ) by {
            if q > p && comes_before(unique[q].0.node@, key@) {
                assert(comes_before(read[p as int].0, read[q].0));
                lemma_comes_before_transitive(unique[p as int].0.node@, unique[q].0.node@, key@);
            }
        }
    }
    p
}

/// What the keys and values `unique` read as, in the same order.
fn read_all(unique: Vec<(Node<AnyId>, Option<Node<SmolStr>>)>) -> (r: Vec<(AnyId, Annotation)>)
    ensures
        annotation_pairs_view(r@) == read_pairs(written_pairs_view(unique@)),
{
    let ghost written = written_pairs_view(unique@);
    let mut out: Vec<(AnyId, Annotation)> = Vec::new();
    for pair in it: unique
        invariant
            it.seq() == unique@,
            written == written_pairs_view(unique@),
            out.len() == it.index(),
            forall|q: int|
                0 <= q < out.len() ==> ((#[trigger] out[q]).0@, out[q].1@) == (
                    written[q].key,
                    written[q].annotation(),
                ),
    {
        assert(written[it.index() as int] == written_pair_view(pair));
        let (key, value) = pair;
        let annotation = match value {
            Some(n) => Annotation::with_optional_value(Some(n.node), n.loc),
            None => Annotation::with_optional_value(None, None),
        };
        out.push((key.node, annotation));
    }
    assert(annotation_pairs_view(out@) =~= read_pairs(written));
    out
}

/// Read the annotations that were written on `data`, and attach them to it.
///
/// No key may be written twice. Where one is, the error names the first key
/// that was written before, the place where it stands first and the place
/// where it stands again. Else the annotations are kept by their keys, in
/// the order of strings, and an annotation without a value gets the empty
/// string for one.
pub fn deduplicate_annotations<T>(
    data: T,
    annotations: Vec<Node<(Node<AnyId>, Option<Node<SmolStr>>)>>,
) -> (r: Result<Annotated<T>, UserError>)
    ensures
        r is Ok <==> written_keys(written_view(annotations@)).no_duplicates(),
        r matches Ok(a) ==> a.data == data && reads_as(
            written_view(annotations@),
            a.annotations@,
        ),
        r matches Err(e) ==> is_duplicate_error(written_view(annotations@), e@),
{
    let ghost written = written_view(annotations@);
    let ghost keys = written_keys(written);
    let ghost mut source: Seq<int> = Seq::empty();
    let mut unique: Vec<(Node<AnyId>, Option<Node<SmolStr>>)> = Vec::new();
    for annotation in it: annotations
        invariant
            it.seq() == annotations@,
            written == written_view(annotations@),
            keys == written_keys(written),
            unique.len() == it.index(),
            source.len() == unique.len(),
            keys_ascend(read_pairs(written_pairs_view(unique@))),
            forall|p: int|
                0 <= p < unique.len() ==> 0 <= (#[trigger] source[p]) < it.index()
                    && written_pair_view(unique[p]) == written[source[p]],
            forall|i: int| 0 <= i < it.index() ==> #[trigger] source.contains(i),
            forall|k: int| 0 <= k < it.index() ==> !repeats_earlier(keys, k),
    {
        let ghost j = it.index() as int;
        let ghost mut old_source = source;
        let ghost before = unique@;
        let ghost read_before = read_pairs(written_pairs_view(before));
        assert(written[j] == written_pair_view(annotation.node));
        let (key, value) = annotation.node;
        let p = position_of(&unique, &key.node);
        if p < unique.len() && unique[p].0.node.same(&key.node) {
            proof {
                let i = source[p as int];
                assert(keys[i] == keys[j]);
                assert(repeats_earlier(keys, j));
                assert(is_first_repeat(keys, j));
                assert(!keys.no_duplicates());
            }
            let first = Node::with_maybe_source_loc((), clone_maybe_loc(&unique[p].0.loc));
            let second = Node::with_maybe_source_loc((), key.loc);
            return Err(UserError::DuplicateAnnotations(key.node, first, second));
        }
        proof {
            // the key differs from every key read so far
            assert forall|q: int| 0 <= q < before.len() implies (#[trigger] before[q]).0.node@
                != key.node@ by {
                lemma_comes_before_irreflexive(key.node@);
                if q > p {
                    assert(comes_before(read_before[p as int].0, read_before[q].0));
                }
            }
            assert(!repeats_earlier(keys, j)) by {
                if repeats_earlier(keys, j) {
                    let i = choose|i: int| 0 <= i < j && keys[i] == keys[j];
                    assert(source.contains(i));
                    let q = choose|q: int| 0 <= q < source.len() && source[q] == i;
                    assert(before[q].0.node@ == key.node@);
                }
            }
            old_source = source;
            source = source.insert(p as int, j);
        }
        unique.insert(p, (key, value));
        proof {
            let read = read_pairs(written_pairs_view(unique@));
            assert forall|a: int, b: int| 0 <= a < b < read.len() implies comes_before(
                (#[trigger] read[a]).0,
                (#[trigger] read[b]).0,
            ) by {
                if b == p {
                    assert(read[a].0 == before[a].0.node@);
                } else if a == p {
                    assert(read[b].0 == before[b - 1].0.node@);
                    lemma_comes_before_total(before[b - 1].0.node@, key.node@);
                } else {
                    let a0 = if a < p {
                        a
                    } else {
                        a - 1
                    };
                    let b0 = if b < p {
                        b
                    } else {
                        b - 1
                    };
                    assert(comes_before(read_before[a0].0, read_before[b0].0));
                }
            }
            assert forall|i: int| 0 <= i < j + 1 implies #[trigger] source.contains(i) by {
                if i == j {
                    assert(source[p as int] == j);
                } else {
                    assert(old_source.contains(i));
                    let q0 = choose|q: int| 0 <= q < old_source.len() && old_source[q] == i;
                    let q = if q0 < p {
                        q0
                    } else {
                        q0 + 1
                    };
                    assert(source[q] == i);
                }
            }
        }
    }
    let ghost read = read_pairs(written_pairs_view(unique@));
    proof {
        assert forall|i: int| 0 <= i < written.len() implies read.contains(
            ((#[trigger] written[i]).key, written[i].annotation()),
        ) by {
            assert(source.contains(i));
            let p = choose|p: int| 0 <= p < source.len() && source[p] == i;
            assert(read[p] == (written[i].key, written[i].annotation()));
        }
        assert forall|a: int, b: int|
            0 <= a < keys.len() && 0 <= b < keys.len() && a != b implies keys[a] != keys[b] by {
            if a < b {
                assert(!repeats_earlier(keys, b));
            } else {
                assert(!repeats_earlier(keys, a));
            }
        }
    }
    let pairs = read_all(unique);
    Ok(Annotated { data, annotations: Annotations::from_ascending(pairs) })
}

#[derive(Debug, PartialEq, Eq, Hash)]
struct PathInternal {
    basename: Id,
    namespace: Vec<Id>,
}

/// A path: a base name, preceded by the names of the namespaces that lead
/// to it. There is always a base name, so a path is never empty.
#[derive(Debug, PartialEq, Eq, Hash)]
pub struct Path(Node<PathInternal>);

/// The mathematical value of a [`Path`].
pub struct PathView {
    pub basename: Seq<char>,
    pub namespace: Seq<Seq<char>>,
    pub loc: Option<LocView>,
}

impl PathView {
    /// The names that the path is made of, the most significant first: those
    /// of the namespaces, then the base name.
    pub open spec fn elements(self) -> Seq<Seq<char>> {
        self.namespace.push(self.basename)
    }

    /// Whether the path names something in the namespace of the types that
    /// are built in: whether exactly one namespace leads to its base name,
    /// and that one is `__cedar`.
    pub open spec fn is_in_cedar(self) -> bool {
        self.namespace.len() == 1 && self.namespace[0] == CEDAR_NAMESPACE@
    }
}

impl View for Path {
    type V = PathView;

    closed spec fn view(&self) -> PathView {
        PathView {
            basename: self.0.node.basename@,
            namespace: ids_view(self.0.node.namespace@),
            loc: maybe_loc_view(self.0.loc),
        }
    }
}

/// The mathematical values of a list of borrowed identifiers.
pub open spec fn id_refs_view(ids: Seq<&Id>) -> Seq<Seq<char>> {
    Seq::new(ids.len(), |i: int| ids[i]@)
}

impl PathInternal {
    fn iter(&self) -> (r: Vec<&Id>)
        ensures
            id_refs_view(r@) == ids_view(self.namespace@).push(self.basename@),
    {
        let mut out: Vec<&Id> = Vec::new();
        let mut i: usize = 0;
        while i < self.namespace.len()
            invariant
                i <= self.namespace.len(),
                out.len() == i,
                forall|j: int| 0 <= j < i ==> (#[trigger] out[j])@ == self.namespace[j]@,
            decreases self.namespace.len() - i,
        {
            out.push(&self.namespace[i]);
            i = i + 1;
        }
        out.push(&self.basename);
        assert(id_refs_view(out@) =~= ids_view(self.namespace@).push(self.basename@));
        out
    }

    fn is_in_cedar(&self) -> (r: bool)
        ensures
            r == (self.namespace.len() == 1 && self.namespace[0]@ == CEDAR_NAMESPACE@),
    {
        self.namespace.len() == 1 && self.namespace[0].is(CEDAR_NAMESPACE)
    }

    fn to_string(&self) -> (r: String)
        ensures
            r@ == joined(ids_view(self.namespace@).push(self.basename@), "::"@),
    {
        qualified_to_string(&self.namespace, &self.basename)
    }

    fn into_iter(self) -> (r: Vec<Id>)
        ensures
            ids_view(r@) == ids_view(self.namespace@).push(self.basename@),
    {
        let ghost before = ids_view(self.namespace@);
        let mut out = self.namespace;
        out.push(self.basename);
        assert(ids_view(out@) =~= before.push(self.basename@));
        out
    }
}

impl Path {
    /// The path that is the base name alone.
    pub fn single(basename: Id, loc: MaybeLoc) -> (r: Path)
        ensures
            r@ == (PathView {
                basename: basename@,
                namespace: Seq::empty(),
                loc: maybe_loc_view(loc),
            }),
    {
        let namespace: Vec<Id> = Vec::new();
        assert(ids_view(namespace@) =~= Seq::empty());
        Path(Node::with_maybe_source_loc(PathInternal { basename, namespace }, loc))
    }

    /// The path to `basename` through the namespaces `namespace`, the most
    /// significant first.
    pub fn new(basename: Id, namespace: Vec<Id>, loc: MaybeLoc) -> (r: Path)
        ensures
            r@ == (PathView {
                basename: basename@,
                namespace: ids_view(namespace@),
                loc: maybe_loc_view(loc),
            }),
    {
        Path(Node::with_maybe_source_loc(PathInternal { basename, namespace }, loc))
    }

    /// The names that the path is made of, the most significant first.
    pub fn iter(&self) -> (r: Vec<&Id>)
        ensures
            id_refs_view(r@) == self@.elements(),
    {
        self.0.node.iter()
    }

    /// Where the path was read from, if it was read from anywhere.
    pub fn loc(&self) -> (r: Option<&Loc>)
        ensures
            r is Some <==> self@.loc is Some,
            r matches Some(l) ==> Some(l@) == self@.loc,
    {
        self.0.loc.as_ref()
    }

    /// The names that the path is made of, the most significant first, each
    /// with the place that the path was read from.
    pub fn into_iter(self) -> (r: Vec<Node<Id>>)
        ensures
            r.len() == self@.elements().len(),
            forall|i: int|
                0 <= i < r.len() ==> (#[trigger] r[i]).node@ == self@.elements()[i]
                    && maybe_loc_view(r[i].loc) == self@.loc,
    {
        let ghost elements = self@.elements();
        let ghost at = self@.loc;
        let loc = self.0.loc;
        let ids = self.0.node.into_iter();
        let mut out: Vec<Node<Id>> = Vec::new();
        for id in it: ids
            invariant
                it.seq() == ids@,
                ids_view(ids@) == elements,
                maybe_loc_view(loc) == at,
                out.len() == it.index(),
                forall|j: int|
                    0 <= j < out.len() ==> (#[trigger] out[j]).node@ == elements[j]
                        && maybe_loc_view(out[j].loc) == at,
        {
            assert(ids_view(ids@)[it.index() as int] == id@);
            out.push(Node::with_maybe_source_loc(id, clone_maybe_loc(&loc)));
        }
        out
    }

    /// The namespaces that lead to the base name, which may be none, and the
    /// base name.
    pub fn split_last(self) -> (r: (Vec<Id>, Id))
        ensures
            ids_view(r.0@) == self@.namespace,
            r.1@ == self@.basename,
    {
        (self.0.node.namespace, self.0.node.basename)
    }

    /// The path as it is written: its names, the most significant first,
    /// with `::` between each two.
    pub fn to_string(&self) -> (r: String)
        ensures
            r@ == joined(self@.elements(), "::"@),
    {
        self.0.node.to_string()
    }

    /// Whether the path names something in the `__cedar` namespace, as
    /// `__cedar::Bool` does.
    pub fn is_in_cedar(&self) -> (r: bool)
        ensures
            r == self@.is_in_cedar(),
    {
        self.0.node.is_in_cedar()
    }
}

impl Clone for Path {
    fn clone(&self) -> (r: Path)
        ensures
            r@ == self@,
    {
        Path(
            Node::with_maybe_source_loc(
                PathInternal {
                    basename: self.0.node.basename.clone(),
                    namespace: clone_ids(&self.0.node.namespace),
                },
                clone_maybe_loc(&self.0.loc),
            ),
        )
    }
}

impl From<Path> for InternalName {
    /// The name that a path spells.
    fn from(value: Path) -> (r: InternalName)
        ensures
            r@ == (NameView {
                id: value@.basename,
                path: value@.namespace,
                loc: value@.loc,
            }),
    {
        InternalName::new(value.0.node.basename, value.0.node.namespace, value.0.loc)
    }
}

impl vstd::std_specs::convert::FromSpecImpl<Path> for InternalName {
    /// The name made from a path is known by its value only.
    open spec fn obeys_from_spec() -> bool {
        false
    }

    open spec fn from_spec(value: Path) -> InternalName {
        arbitrary()
    }
}

/// `nonempty::NonEmpty`: a list that has one item at least. Nothing is
/// known of a value of it but what the items below say.
#[verifier::external_type_specification]
#[verifier::external_body]
#[verifier::reject_recursive_types(T)]
pub struct ExNonEmpty<T>(nonempty::NonEmpty<T>);

/// `itertools::Either`: a value of one of two types. Nothing is known of a
/// value of it.
#[verifier::external_type_specification]
#[verifier::external_body]
#[verifier::reject_recursive_types(L)]
#[verifier::reject_recursive_types(R)]
pub struct ExEither<L, R>(itertools::Either<L, R>);

/// `NonEmpty::clone`: nothing is said of the copy.
pub assume_specification<A: Clone>[ <NonEmpty<A> as Clone>::clone ](ne: &NonEmpty<A>) -> (r:
    NonEmpty<A>)
;

/// `Either::clone`: nothing is said of the copy.
pub assume_specification<A: Clone, B: Clone>[ <Either<A, B> as Clone>::clone ](
    e: &Either<A, B>,
) -> (r: Either<A, B>)
;

/// What a non-empty list of names of entity types holds: its head, then its
/// tail in order.
pub uninterp spec fn entity_names(names: NonEmpty<Node<Id>>) -> Seq<Node<Id>>;

/// What a non-empty list of names of actions holds: its head, then its tail
/// in order.
pub uninterp spec fn action_names(names: NonEmpty<Node<SmolStr>>) -> Seq<Node<SmolStr>>;

/// `NonEmpty::iter`: what the list holds, the head first and then the tail
/// in order. There is a head, so there is one item at least.
#[verifier::external_body]
fn entity_name_refs(names: &NonEmpty<Node<Id>>) -> (r: Vec<&Node<Id>>)
    ensures
        r.len() == entity_names(*names).len(),
        r.len() >= 1,
        forall|i: int| 0 <= i < r.len() ==> *(#[trigger] r[i]) == entity_names(*names)[i],
{
    names.iter().collect()
}

/// `NonEmpty::iter`: what the list holds, the head first and then the tail
/// in order. There is a head, so there is one item at least.
#[verifier::external_body]
fn action_name_refs(names: &NonEmpty<Node<SmolStr>>) -> (r: Vec<&Node<SmolStr>>)
    ensures
        r.len() == action_names(*names).len(),
        r.len() >= 1,
        forall|i: int| 0 <= i < r.len() ==> *(#[trigger] r[i]) == action_names(*names)[i],
{
    names.iter().collect()
}

/// The name of an entity as a schema writes it: an identifier, and the path
/// to its type where one is given.
#[derive(Debug, Clone)]
pub struct QualName {
    pub path: Option<Path>,
    pub eid: SmolStr,
}

impl QualName {
    /// The name `eid` without a path.
    pub fn unqualified(eid: SmolStr) -> (r: QualName)
        ensures
            r.path is None,
            r.eid == eid,
    {
        QualName { path: None, eid }
    }

    /// The name `eid` under the path `path`.
    pub fn qualified(path: Path, eid: SmolStr) -> (r: QualName)
        ensures
            r.path == Some(path),
            r.eid == eid,
    {
        QualName { path: Some(path), eid }
    }
}

/// A namespace: a name, and what is declared in it. Without a name it is the
/// namespace that has none.
#[derive(Debug, Clone)]
pub struct Namespace {
    /// The name of the namespace, if it has one.
    pub name: Option<Path>,
    /// What is declared in the namespace.
    pub decls: Vec<Annotated<Node<Declaration>>>,
    pub loc: MaybeLoc,
}

impl Namespace {
    /// Whether this is the namespace without a name.
    pub fn is_unqualified(&self) -> (r: bool)
        ensures
            r == (self.name is None),
    {
        self.name.is_none()
    }
}

/// A schema: the namespaces in it.
pub type Schema = Vec<Annotated<Namespace>>;

/// What declares names.
pub trait Decl {
    /// The names that are declared, each with the place where it stands.
    fn names(&self) -> Vec<Node<SmolStr>>;
}

/// A declaration: of entity types, of actions, or of a type for common use.
#[derive(Debug, Clone)]
pub enum Declaration {
    Entity(EntityDecl),
    Action(ActionDecl),
    Type(TypeDecl),
}

/// The declaration of a type for common use.
#[derive(Debug, Clone)]
pub struct TypeDecl {
    pub name: Node<Id>,
    pub def: Node<Type>,
}

impl Decl for TypeDecl {
    /// The one name that is declared.
    fn names(&self) -> (r: Vec<Node<SmolStr>>)
        ensures
            r.len() == 1,
            text(r[0].node) == self.name.node@,
            r[0].loc == self.name.loc,
    {
        let mut out: Vec<Node<SmolStr>> = Vec::new();
        out.push(
            Node {
                node: smol_str_new(self.name.node.as_str()),
                loc: clone_maybe_loc(&self.name.loc),
            },
        );
        out
    }
}

/// The declaration of entity types.
#[derive(Debug, Clone)]
pub enum EntityDecl {
    Standard(StandardEntityDecl),
    Enum(EnumEntityDecl),
}

impl EntityDecl {
    /// The names of the entity types that are declared, in the order in
    /// which they are written. There is one at least.
    pub fn names(&self) -> (r: Vec<&Node<Id>>)
        ensures
            r.len() >= 1,
            r.len() == entity_names(self.declared_names()).len(),
            forall|i: int|
                0 <= i < r.len() ==> *(#[trigger] r[i]) == entity_names(self.declared_names())[i],
    {
        match self {
            EntityDecl::Enum(d) => entity_name_refs(&d.names),
            EntityDecl::Standard(d) => entity_name_refs(&d.names),
        }
    }

    /// The list of names that the declaration holds.
    pub open spec fn declared_names(&self) -> NonEmpty<Node<Id>> {
        match *self {
            EntityDecl::Enum(d) => d.names,
            EntityDecl::Standard(d) => d.names,
        }
    }
}

/// The declaration of entity types with attributes.
#[derive(Debug, Clone)]
pub struct StandardEntityDecl {
    /// The names of the entity types. There may be several: they are then
    /// declared alike.
    pub names: NonEmpty<Node<Id>>,
    /// The entity types that entities of these types may be members of.
    pub member_of_types: Vec<Path>,
    /// The attributes of the entities.
    pub attrs: Node<Vec<Node<Annotated<AttrDecl>>>>,
    /// The type of the tags of the entities, if they have tags.
    pub tags: Option<Node<Type>>,
}

/// The declaration of entity types whose entities are listed.
#[derive(Debug, Clone)]
pub struct EnumEntityDecl {
    pub names: NonEmpty<Node<Id>>,
    pub choices: NonEmpty<Node<SmolStr>>,
}

/// A type as a schema writes it.
#[derive(Debug)]
pub enum Type {
    /// The sets of values of a type.
    SetOf(Box<Node<Type>>),
    /// A type that goes by a name: a type for common use or an entity type.
    Ident(Path),
    /// The records with the given attributes.
    Record(Vec<Node<Annotated<AttrDecl>>>),
}

/// The types that are built in.
#[derive(Debug, Clone)]
pub enum PrimitiveType {
    /// Integers.
    Long,
    /// Strings.
    String,
    /// Booleans.
    Bool,
}

/// The declaration of one attribute, in a record or in an entity type.
#[derive(Debug)]
pub struct AttrDecl {
    /// The name of the attribute.
    pub name: Node<SmolStr>,
    /// Whether every value must have the attribute.
    pub required: bool,
    /// The type of the attribute.
    pub ty: Node<Type>,
}

/// The mathematical value of a [`Type`].
pub enum TypeView {
    SetOf(Box<TypeNodeView>),
    Ident(PathView),
    Record(Seq<AnnotatedAttrDeclView>),
}

/// The mathematical value of a [`Type`] with the place it was read from.
pub struct TypeNodeView {
    pub node: TypeView,
    pub loc: Option<LocView>,
}

/// The mathematical value of an [`AttrDecl`].
pub struct AttrDeclView {
    pub name: Seq<char>,
    pub name_loc: Option<LocView>,
    pub required: bool,
    pub ty: TypeNodeView,
}

/// The mathematical value of an [`AttrDecl`] with its annotations and the
/// place it was read from.
pub struct AnnotatedAttrDeclView {
    pub decl: AttrDeclView,
    pub annotations: Seq<(Seq<char>, AnnotationView)>,
    pub loc: Option<LocView>,
}

/// The mathematical value of a type.
pub open spec fn type_view(t: Type) -> TypeView
    decreases t,
{
    match t {
        Type::SetOf(elem) => TypeView::SetOf(Box::new(type_node_view(*elem))),
        Type::Ident(path) => TypeView::Ident(path@),
        Type::Record(attrs) => TypeView::Record(attr_decls_view(attrs@)),
    }
}

/// The mathematical value of a type with the place it was read from.
pub open spec fn type_node_view(n: Node<Type>) -> TypeNodeView
    decreases n,
{
    TypeNodeView { node: type_view(n.node), loc: maybe_loc_view(n.loc) }
}

/// The mathematical value of the declaration of an attribute.
pub open spec fn attr_decl_view(d: AttrDecl) -> AttrDeclView
    decreases d,
{
    AttrDeclView {
        name: text(d.name.node),
        name_loc: maybe_loc_view(d.name.loc),
        required: d.required,
        ty: type_node_view(d.ty),
    }
}

/// The mathematical values of a list of declarations of attributes.
pub open spec fn attr_decls_view(attrs: Seq<Node<Annotated<AttrDecl>>>) -> Seq<
    AnnotatedAttrDeclView,
>
    decreases attrs,
{
    Seq::new(
        attrs.len(),
        |i: int|
            if 0 <= i < attrs.len() {
                AnnotatedAttrDeclView {
                    decl: attr_decl_view(attrs[i].node.data),
                    annotations: attrs[i].node.annotations@,
                    loc: maybe_loc_view(attrs[i].loc),
                }
            } else {
                arbitrary()
            },
    )
}

impl View for Type {
    type V = TypeView;

    open spec fn view(&self) -> TypeView {
        type_view(*self)
    }
}

impl View for AttrDecl {
    type V = AttrDeclView;

    open spec fn view(&self) -> AttrDeclView {
        attr_decl_view(*self)
    }
}

/// A copy of a type with the place it was read from.
fn clone_type_node(n: &Node<Type>) -> (r: Node<Type>)
    ensures
        type_node_view(r) == type_node_view(*n),
    decreases n,
{
    Node { node: clone_type(&n.node), loc: clone_maybe_loc(&n.loc) }
}

/// A copy of the declaration of an attribute.
fn clone_attr_decl(d: &AttrDecl) -> (r: AttrDecl)
    ensures
        r@ == d@,
    decreases d,
{
    AttrDecl {
        name: Node { node: d.name.node.clone(), loc: clone_maybe_loc(&d.name.loc) },
        required: d.required,
        ty: clone_type_node(&d.ty),
    }
}

/// A copy of the declarations of attributes.
fn clone_attr_decls(attrs: &Vec<Node<Annotated<AttrDecl>>>) -> (r: Vec<Node<Annotated<AttrDecl>>>)
    ensures
        attr_decls_view(r@) == attr_decls_view(attrs@),
    decreases attrs,
{
    let mut out: Vec<Node<Annotated<AttrDecl>>> = Vec::new();
    let mut i: usize = 0;
    while i < attrs.len()
        invariant
            i <= attrs.len(),
            out.len() == i,
            forall|j: int|
                0 <= j < i ==> (#[trigger] attr_decls_view(out@)[j]) == attr_decls_view(attrs@)[j],
        decreases attrs.len() - i,
    {
        let a = &attrs[i];
        let ghost before = out@;
        let copy = Node {
            node: Annotated {
                data: clone_attr_decl(&a.node.data),
                annotations: a.node.annotations.clone(),
            },
            loc: clone_maybe_loc(&a.loc),
        };
        out.push(copy);
        proof {
            assert forall|j: int| 0 <= j < i + 1 implies (#[trigger] attr_decls_view(out@)[j])
                == attr_decls_view(attrs@)[j] by {
                if j < i {
                    assert(out@[j] == before[j]);
                    assert(attr_decls_view(before)[j] == attr_decls_view(attrs@)[j]);
                }
            }
        }
        i = i + 1;
    }
    assert(attr_decls_view(out@) =~= attr_decls_view(attrs@));
    out
}

/// A copy of a type.
fn clone_type(t: &Type) -> (r: Type)
    ensures
        r@ == t@,
    decreases t,
{
    match t {
        Type::SetOf(elem) => Type::SetOf(Box::new(clone_type_node(elem))),
        Type::Ident(path) => Type::Ident(path.clone()),
        Type::Record(attrs) => Type::Record(clone_attr_decls(attrs)),
    }
}

impl Clone for Type {
    fn clone(&self) -> (r: Type)
        ensures
            r@ == self@,
    {
        clone_type(self)
    }
}

impl Clone for AttrDecl {
    fn clone(&self) -> (r: AttrDecl)
        ensures
            r@ == self@,
    {
        clone_attr_decl(self)
    }
}

/// What a part of the declaration of an action speaks of.
#[derive(Debug, Clone, Copy, PartialEq, Eq, Structural)]
pub enum PR {
    /// The principal.
    Principal,
    /// The resource.
    Resource,
}

impl PR {
    /// The word by which it is written.
    pub fn to_string(&self) -> (r: String)
        ensures
            r@ == (match *self {
                PR::Principal => "principal"@,
                PR::Resource => "resource"@,
            }),
    {
        match self {
            PR::Principal => String::from_str("principal"),
            PR::Resource => String::from_str("resource"),
        }
    }
}

/// The entity types that the principal or the resource of an action may
/// have.
#[derive(Debug, Clone)]
pub struct PRAppDecl {
    /// Whether this speaks of the principal or of the resource.
    pub kind: Node<PR>,
    /// The entity types. `None` stands for none at all.
    pub entity_tys: Option<NonEmpty<Path>>,
}

/// What an action applies to.
#[derive(Debug, Clone)]
pub enum AppDecl {
    /// The entity types of its principal or of its resource.
    PR(PRAppDecl),
    /// The type of its context.
    Context(Either<Path, Node<Vec<Node<Annotated<AttrDecl>>>>>),
}

/// The declaration of actions.
#[derive(Debug, Clone)]
pub struct ActionDecl {
    /// The names of the actions. There may be several: they are then
    /// declared alike.
    pub names: NonEmpty<Node<SmolStr>>,
    /// The actions that these are members of.
    pub parents: Option<NonEmpty<Node<QualName>>>,
    /// What the actions apply to.
    pub app_decls: Option<Node<NonEmpty<Node<AppDecl>>>>,
}

impl Decl for ActionDecl {
    /// The names of the actions that are declared, in the order in which
    /// they are written, each with the place where it stands. There is one
    /// at least.
    fn names(&self) -> (r: Vec<Node<SmolStr>>)
        ensures
            r.len() >= 1,
            r.len() == action_names(self.names).len(),
            forall|i: int|
                0 <= i < r.len() ==> text((#[trigger] r[i]).node) == text(
                    action_names(self.names)[i].node,
                ) && r[i].loc == action_names(self.names)[i].loc,
    {
        let refs = action_name_refs(&self.names);
        let mut out: Vec<Node<SmolStr>> = Vec::new();
        let mut i: usize = 0;
        while i < refs.len()
            invariant
                i <= refs.len(),
                out.len() == i,
                forall|j: int|
                    0 <= j < i ==> text((#[trigger] out[j]).node) == text(refs[j].node)
                        && out[j].loc == refs[j].loc,
            decreases refs.len() - i,
        {
            out.push(Node { node: refs[i].node.clone(), loc: clone_maybe_loc(&refs[i].loc) });
            i = i + 1;
        }
        out
    }
}

} // verus!
