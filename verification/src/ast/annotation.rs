//! Annotations: keys with optional values that may be attached to what a
//! schema or a policy declares.

use crate::ast::text::{
    comes_before, lemma_comes_before_irreflexive, smol_str_as_str, smol_str_eq, smol_str_lt,
    smol_str_new, text,
};
use crate::parser::{clone_maybe_loc, maybe_loc_view, LocView, MaybeLoc};
use smol_str::SmolStr;
use vstd::prelude::*;

verus! {

/// An identifier of any kind, the words of the language among them.
#[derive(Debug, PartialEq, Eq, PartialOrd, Ord, Hash)]
pub struct AnyId(pub(crate) SmolStr);

impl View for AnyId {
    type V = Seq<char>;

    closed spec fn view(&self) -> Seq<char> {
        text(self.0)
    }
}

impl AnyId {
    /// An identifier with the given characters. Nothing is checked: whether
    /// they form a valid identifier is up to the caller.
    pub fn new_unchecked(s: &str) -> (r: AnyId)
        ensures
            r@ == s@,
    {
        AnyId(smol_str_new(s))
    }

    /// The characters of this identifier.
    pub fn as_str(&self) -> (r: &str)
        ensures
            r@ == self@,
    {
        smol_str_as_str(&self.0)
    }

    /// Whether two identifiers are made of the same characters.
    pub fn same(&self, other: &AnyId) -> (r: bool)
        ensures
            r == (self@ == other@),
    {
        smol_str_eq(&self.0, &other.0)
    }

    /// Whether this identifier comes before `other` in the order of strings.
    pub fn comes_before(&self, other: &AnyId) -> (r: bool)
        ensures
            r == comes_before(self@, other@),
    {
        smol_str_lt(&self.0, &other.0)
    }
}

impl Clone for AnyId {
    fn clone(&self) -> (r: AnyId)
        ensures
            r@ == self@,
    {
        AnyId(self.0.clone())
    }
}

/// What stands behind the key of an annotation: a value, which is the empty
/// string where none was written, and the place that the value was read
/// from.
#[derive(Debug, PartialEq, Eq, PartialOrd, Ord, Hash)]
pub struct Annotation {
    /// The value.
    pub val: SmolStr,
    /// Where the value was read from.
    pub loc: MaybeLoc,
}

/// The mathematical value of an [`Annotation`].
pub struct AnnotationView {
    pub val: Seq<char>,
    pub loc: Option<LocView>,
}

impl View for Annotation {
    type V = AnnotationView;

    open spec fn view(&self) -> AnnotationView {
        AnnotationView { val: text(self.val), loc: maybe_loc_view(self.loc) }
    }
}

/// The annotation for a value that may not have been written: with the
/// empty string for a value that was not.
pub open spec fn annotation_with_optional_value(
    val: Option<Seq<char>>,
    loc: Option<LocView>,
) -> AnnotationView {
    AnnotationView {
        val: match val {
            Some(v) => v,
            None => Seq::empty(),
        },
        loc,
    }
}

impl Annotation {
    /// The annotation with the value `val`, or with the empty string where
    /// there is none, read from `loc`.
    pub fn with_optional_value(val: Option<SmolStr>, loc: MaybeLoc) -> (r: Annotation)
        ensures
            r@ == annotation_with_optional_value(
                match val {
                    Some(v) => Some(text(v)),
                    None => None,
                },
                maybe_loc_view(loc),
            ),
    {
        let val = match val {
            Some(v) => v,
            None => {
                proof {
                    reveal_strlit("");
                }
                let empty = smol_str_new("");
                assert(text(empty) =~= Seq::empty());
                empty
            },
        };
        Annotation { val, loc }
    }
}

impl Clone for Annotation {
    fn clone(&self) -> (r: Annotation)
        ensures
            r@ == self@,
    {
        Annotation { val: self.val.clone(), loc: clone_maybe_loc(&self.loc) }
    }
}

/// The mathematical values of a list of keys and annotations.
pub open spec fn annotation_pairs_view(pairs: Seq<(AnyId, Annotation)>) -> Seq<
    (Seq<char>, AnnotationView),
> {
    Seq::new(pairs.len(), |i: int| (pairs[i].0@, pairs[i].1@))
}

/// Whether the keys of `pairs` stand in the order of strings, each before
/// the next. No key then occurs twice.
pub open spec fn keys_ascend<V>(pairs: Seq<(Seq<char>, V)>) -> bool {
    forall|i: int, j: int|
        0 <= i < j < pairs.len() ==> comes_before((#[trigger] pairs[i]).0, (#[trigger] pairs[j]).0)
}

/// Annotations: keys, each with what stands behind it. No key occurs twice,
/// and the keys are kept in the order of strings.
#[derive(Debug, PartialEq, Eq, PartialOrd, Ord, Hash)]
pub struct Annotations {
    pairs: Vec<(AnyId, Annotation)>,
}

impl View for Annotations {
    type V = Seq<(Seq<char>, AnnotationView)>;

    closed spec fn view(&self) -> Seq<(Seq<char>, AnnotationView)> {
        annotation_pairs_view(self.pairs@)
    }
}

impl Annotations {
    /// The keys stand in the order of strings, each before the next.
    #[verifier::type_invariant]
    spec fn type_inv(self) -> bool {
        keys_ascend(annotation_pairs_view(self.pairs@))
    }

    /// No annotations.
    pub fn new() -> (r: Annotations)
        ensures
            r@ == Seq::<(Seq<char>, AnnotationView)>::empty(),
    {
        let r = Annotations { pairs: Vec::new() };
        assert(r@ =~= Seq::<(Seq<char>, AnnotationView)>::empty());
        r
    }

    /// The annotations made of `pairs`, whose keys stand in the order of
    /// strings already.
    pub(crate) fn from_ascending(pairs: Vec<(AnyId, Annotation)>) -> (r: Annotations)
        requires
            keys_ascend(annotation_pairs_view(pairs@)),
        ensures
            r@ == annotation_pairs_view(pairs@),
    {
        Annotations { pairs }
    }

    /// How many annotations there are.
    pub fn len(&self) -> (r: usize)
        ensures
            r == self@.len(),
    {
        self.pairs.len()
    }

    /// The keys with what stands behind them, in the order of the keys, each
    /// key before the next.
    pub fn iter(&self) -> (r: &Vec<(AnyId, Annotation)>)
        ensures
            annotation_pairs_view(r@) == self@,
            keys_ascend(self@),
    {
        proof {
            use_type_invariant(self);
        }
        &self.pairs
    }

    /// What stands behind the key `key`, where it is among the keys.
    pub fn get(&self, key: &AnyId) -> (r: Option<&Annotation>)
        ensures
            r is Some <==> exists|i: int| 0 <= i < self@.len() && (#[trigger] self@[i]).0 == key@,
            r matches Some(a) ==> exists|i: int|
                0 <= i < self@.len() && (#[trigger] self@[i]) == (key@, a@),
    {
        let mut i: usize = 0;
        while i < self.pairs.len()
            invariant
                i <= self.pairs.len(),
                forall|j: int| 0 <= j < i ==> (#[trigger] self@[j]).0 != key@,
            decreases self.pairs.len() - i,
        {
            if self.pairs[i].0.same(key) {
                assert(self@[i as int] == (key@, self.pairs[i as int].1@));
                return Some(&self.pairs[i].1);
            }
            i = i + 1;
        }
        None
    }
}

impl Clone for Annotations {
    fn clone(&self) -> (r: Annotations)
        ensures
            r@ == self@,
    {
        proof {
            use_type_invariant(self);
        }
        let mut out: Vec<(AnyId, Annotation)> = Vec::new();
        let mut i: usize = 0;
        while i < self.pairs.len()
            invariant
                i <= self.pairs.len(),
                out.len() == i,
                forall|j: int|
                    0 <= j < i ==> (#[trigger] out[j]).0@ == self.pairs[j].0@ && out[j].1@
                        == self.pairs[j].1@,
            decreases self.pairs.len() - i,
        {
            out.push((self.pairs[i].0.clone(), self.pairs[i].1.clone()));
            i = i + 1;
        }
        assert(annotation_pairs_view(out@) =~= annotation_pairs_view(self.pairs@));
        Annotations { pairs: out }
    }
}

/// Where keys ascend, no key occurs twice.
pub proof fn lemma_ascending_keys_differ<V>(pairs: Seq<(Seq<char>, V)>)
    requires
        keys_ascend(pairs),
    ensures
        forall|i: int, j: int|
            0 <= i < pairs.len() && 0 <= j < pairs.len() && i != j ==> (#[trigger] pairs[i]).0
                != (#[trigger] pairs[j]).0,
{
    assert forall|i: int, j: int|
        0 <= i < pairs.len() && 0 <= j < pairs.len() && i != j implies (#[trigger] pairs[i]).0
        != (#[trigger] pairs[j]).0 by {
        lemma_comes_before_irreflexive(pairs[i].0);
        if i < j {
            assert(comes_before(pairs[i].0, pairs[j].0));
        } else {
            assert(comes_before(pairs[j].0, pairs[i].0));
        }
    }
}

} // verus!
