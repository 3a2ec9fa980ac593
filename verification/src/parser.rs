//! Source positions, and syntax nodes that carry one.

pub mod err;

use vstd::prelude::*;
use vstd::std_specs::cmp::PartialEqSpec;
use vstd::string::StringExecFns;

verus! {

/// A region of some source text: `len` bytes starting at byte `offset` of
/// `src`.
#[derive(Debug, PartialEq, Eq, PartialOrd, Ord, Hash)]
pub struct Loc {
    pub offset: usize,
    pub len: usize,
    pub src: String,
}

/// The mathematical value of a [`Loc`].
pub struct LocView {
    pub offset: usize,
    pub len: usize,
    pub src: Seq<char>,
}

/// A source position that may be absent, as it is for every value that was
/// built by calls and not read from text.
pub type MaybeLoc = Option<Loc>;

impl View for Loc {
    type V = LocView;

    open spec fn view(&self) -> LocView {
        LocView { offset: self.offset, len: self.len, src: self.src@ }
    }
}

/// The mathematical value of a [`MaybeLoc`].
pub open spec fn maybe_loc_view(loc: MaybeLoc) -> Option<LocView> {
    match loc {
        Some(l) => Some(l@),
        None => None,
    }
}

impl Loc {
    /// The region of `len` bytes that starts at byte `offset` of `src`.
    pub fn new(offset: usize, len: usize, src: &str) -> (r: Loc)
        ensures
            r@ == (LocView { offset, len, src: src@ }),
    {
        Loc { offset, len, src: String::from_str(src) }
    }

    /// Whether two positions are the same region of the same text.
    pub fn same(&self, other: &Loc) -> (r: bool)
        ensures
            r == (self@ == other@),
    {
        self.offset == other.offset && self.len == other.len && self.src == other.src
    }

    /// This position as one that may be absent.
    pub fn into_maybe_loc(self) -> (r: MaybeLoc)
        ensures
            r == Some(self),
    {
        Some(self)
    }
}

impl Clone for Loc {
    fn clone(&self) -> (r: Loc)
        ensures
            r == *self,
    {
        Loc { offset: self.offset, len: self.len, src: self.src.clone() }
    }
}

/// A copy of a source position that may be absent.
pub fn clone_maybe_loc(loc: &MaybeLoc) -> (r: MaybeLoc)
    ensures
        r == *loc,
{
    match loc {
        Some(l) => Some(l.clone()),
        None => None,
    }
}

/// Whether two source positions that may be absent are both absent, or the
/// same region of the same text.
pub fn same_maybe_loc(a: &MaybeLoc, b: &MaybeLoc) -> (r: bool)
    ensures
        r == (maybe_loc_view(*a) == maybe_loc_view(*b)),
{
    match (a, b) {
        (Some(x), Some(y)) => x.same(y),
        (None, None) => true,
        _ => false,
    }
}

/// A piece of syntax together with the place it was read from.
///
/// Two nodes are equal when the syntax in them is: where they were read
/// from has no part in it.
#[derive(Debug, Eq)]
pub struct Node<T> {
    /// The syntax itself.
    pub node: T,
    /// Where it was read from.
    pub loc: MaybeLoc,
}

impl<T> Node<T> {
    /// Attach a source position, or none, to a piece of syntax.
    pub fn with_maybe_source_loc(node: T, loc: MaybeLoc) -> (r: Node<T>)
        ensures
            r.node == node,
            r.loc == loc,
    {
        Node { node, loc }
    }
}

impl<T: PartialEq> PartialEq for Node<T> {
    fn eq(&self, other: &Self) -> (r: bool) {
        self.node == other.node
    }
}

impl<T: PartialEq> vstd::std_specs::cmp::PartialEqSpecImpl for Node<T> {
    open spec fn obeys_eq_spec() -> bool {
        <T as PartialEqSpec>::obeys_eq_spec()
    }

    open spec fn eq_spec(&self, other: &Self) -> bool {
        self.node.eq_spec(&other.node)
    }
}

/// `Hash::hash`: feeds `t` to the hasher. Nothing is said of what the hasher
/// makes of it.
#[verifier::external_body]
fn hash_into<T: core::hash::Hash, H: core::hash::Hasher>(t: &T, state: &mut H) {
    t.hash(state)
}

impl<T: core::hash::Hash> core::hash::Hash for Node<T> {
    /// The syntax is all that is fed to the hasher: where it was read from
    /// is not.
    fn hash<H: core::hash::Hasher>(&self, state: &mut H) {
        hash_into(&self.node, state)
    }
}

impl<T: Clone> Clone for Node<T> {
    fn clone(&self) -> (r: Node<T>)
        ensures
            cloned::<T>(self.node, r.node),
            r.loc == self.loc,
    {
        Node { node: self.node.clone(), loc: clone_maybe_loc(&self.loc) }
    }
}

} // verus!
