//! Identifiers and the qualified names built from them.

use crate::ast::text::{
    joined, smol_str_as_str, smol_str_eq, smol_str_eq_str, smol_str_new, text,
};
use crate::parser::{clone_maybe_loc, maybe_loc_view, same_maybe_loc, LocView, MaybeLoc};
use itertools::Itertools;
use smol_str::SmolStr;
use vstd::prelude::*;
use vstd::string::StringExecFns;

verus! {

/// A single identifier.
#[derive(Debug, PartialEq, Eq, Hash)]
pub struct Id(pub(crate) SmolStr);

impl View for Id {
    type V = Seq<char>;

    closed spec fn view(&self) -> Seq<char> {
        text(self.0)
    }
}

impl Id {
    /// An identifier with the given characters. Nothing is checked: whether
    /// they form a valid identifier is up to the caller.
    pub fn new_unchecked(s: &str) -> (r: Id)
        ensures
            r@ == s@,
    {
        Id(smol_str_new(s))
    }

    /// The characters of this identifier.
    pub fn as_str(&self) -> (r: &str)
        ensures
            r@ == self@,
    {
        smol_str_as_str(&self.0)
    }

    /// Whether this identifier is made of the characters of `s`.
    pub fn is(&self, s: &str) -> (r: bool)
        ensures
            r == (self@ == s@),
    {
        smol_str_eq_str(&self.0, s)
    }

    /// Whether two identifiers are made of the same characters.
    pub fn same(&self, other: &Id) -> (r: bool)
        ensures
            r == (self@ == other@),
    {
        smol_str_eq(&self.0, &other.0)
    }
}

impl Clone for Id {
    fn clone(&self) -> (r: Id)
        ensures
            r@ == self@,
    {
        Id(self.0.clone())
    }
}

/// The mathematical value of a list of identifiers.
pub open spec fn ids_view(ids: Seq<Id>) -> Seq<Seq<char>> {
    Seq::new(ids.len(), |i: int| ids[i]@)
}

/// `Itertools::join`: the identifiers one after the other, with `sep`
/// between each two. Of no identifier it makes the empty string.
#[verifier::external_body]
pub(crate) fn join_ids(ids: &Vec<Id>, sep: &str) -> (r: String)
    ensures
        r@ == joined(ids_view(ids@), sep@),
{
    ids.iter().map(|id| id.as_str()).join(sep)
}

/// The name that is written as the identifiers `path` and then `id`, with
/// `::` between each two.
pub(crate) fn qualified_to_string(path: &Vec<Id>, id: &Id) -> (r: String)
    ensures
        r@ == joined(ids_view(path@).push(id@), "::"@),
{
    let ghost before = ids_view(path@);
    assert(before.push(id@).drop_last() =~= before);
    if path.len() == 0 {
        String::from_str(id.as_str())
    } else {
        let mut out = join_ids(path, "::");
        out.append("::");
        out.append(id.as_str());
        out
    }
}

/// A copy of a list of identifiers.
pub fn clone_ids(ids: &Vec<Id>) -> (r: Vec<Id>)
    ensures
        ids_view(r@) == ids_view(ids@),
{
    let mut out: Vec<Id> = Vec::new();
    let mut i: usize = 0;
    while i < ids.len()
        invariant
            i <= ids.len(),
            out.len() == i,
            forall|j: int| 0 <= j < i ==> out[j]@ == ids[j]@,
        decreases ids.len() - i,
    {
        out.push(ids[i].clone());
        i = i + 1;
    }
    assert(ids_view(out@) =~= ids_view(ids@));
    out
}

/// Whether two lists of identifiers agree element by element.
pub fn same_ids(a: &Vec<Id>, b: &Vec<Id>) -> (r: bool)
    ensures
        r == (ids_view(a@) == ids_view(b@)),
{
    if a.len() != b.len() {
        assert(ids_view(a@).len() != ids_view(b@).len());
        return false;
    }
    let mut i: usize = 0;
    while i < a.len()
        invariant
            i <= a.len(),
            a.len() == b.len(),
            forall|j: int| 0 <= j < i ==> a[j]@ == b[j]@,
        decreases a.len() - i,
    {
        if !a[i].same(&b[i]) {
            assert(ids_view(a@)[i as int] != ids_view(b@)[i as int]);
            return false;
        }
        i = i + 1;
    }
    assert(ids_view(a@) =~= ids_view(b@));
    true
}

/// A possibly qualified name: a base identifier, preceded by the
/// identifiers of the namespace it lives in, most significant first.
#[derive(Debug, PartialEq, Eq, Hash)]
pub struct InternalName {
    pub(crate) id: Id,
    pub(crate) path: Vec<Id>,
    pub(crate) loc: MaybeLoc,
}

/// The mathematical value of an [`InternalName`] or a [`Name`].
pub struct NameView {
    pub id: Seq<char>,
    pub path: Seq<Seq<char>>,
    pub loc: Option<LocView>,
}

impl NameView {
    /// The name without its source position.
    pub open spec fn shape(self) -> NameView {
        NameView { id: self.id, path: self.path, loc: None }
    }
}

impl View for InternalName {
    type V = NameView;

    closed spec fn view(&self) -> NameView {
        NameView { id: self.id@, path: ids_view(self.path@), loc: maybe_loc_view(self.loc) }
    }
}

impl InternalName {
    /// The name `basename` inside the namespace `path`.
    pub fn new(basename: Id, path: Vec<Id>, loc: MaybeLoc) -> (r: InternalName)
        ensures
            r@ == (NameView {
                id: basename@,
                path: ids_view(path@),
                loc: maybe_loc_view(loc),
            }),
    {
        InternalName { id: basename, path, loc }
    }

    /// The name `id` without a namespace.
    pub fn unqualified_name(id: Id, loc: MaybeLoc) -> (r: InternalName)
        ensures
            r@ == (NameView { id: id@, path: Seq::empty(), loc: maybe_loc_view(loc) }),
    {
        let path: Vec<Id> = Vec::new();
        assert(ids_view(path@) =~= Seq::empty());
        InternalName { id, path, loc }
    }

    /// The base identifier of this name.
    pub fn basename(&self) -> (r: &Id)
        ensures
            r@ == self@.id,
    {
        &self.id
    }

    /// The identifiers of the namespace, most significant first.
    pub fn namespace_components(&self) -> (r: &Vec<Id>)
        ensures
            ids_view(r@) == self@.path,
    {
        &self.path
    }

    /// The source position this name was read from, if any.
    pub fn loc(&self) -> (r: &MaybeLoc)
        ensures
            maybe_loc_view(*r) == self@.loc,
    {
        &self.loc
    }

    /// The name as it is written: the identifiers of its namespace, the
    /// most significant first, and then its own, with `::` between each two.
    pub fn to_string(&self) -> (r: String)
        ensures
            r@ == joined(self@.path.push(self@.id), "::"@),
    {
        qualified_to_string(&self.path, &self.id)
    }

    /// Whether two names agree in everything, their source positions too.
    pub fn same(&self, other: &InternalName) -> (r: bool)
        ensures
            r == (self@ == other@),
    {
        self.id.same(&other.id) && same_ids(&self.path, &other.path) && same_maybe_loc(
            &self.loc,
            &other.loc,
        )
    }

    /// Whether two names agree in everything but their source positions.
    pub fn eq_shape(&self, other: &InternalName) -> (r: bool)
        ensures
            r == (self@.shape() == other@.shape()),
    {
        self.id.same(&other.id) && same_ids(&self.path, &other.path)
    }
}

impl Clone for InternalName {
    fn clone(&self) -> (r: InternalName)
        ensures
            r@ == self@,
    {
        InternalName {
            id: self.id.clone(),
            path: clone_ids(&self.path),
            loc: clone_maybe_loc(&self.loc),
        }
    }
}

/// A name that may be used for an extension function or an entity type.
#[derive(Debug, PartialEq, Eq, Hash)]
pub struct Name(pub(crate) InternalName);

impl View for Name {
    type V = NameView;

    closed spec fn view(&self) -> NameView {
        self.0@
    }
}

impl Name {
    /// The name `basename` inside the namespace `path`.
    pub fn new(basename: Id, path: Vec<Id>, loc: MaybeLoc) -> (r: Name)
        ensures
            r@ == (NameView {
                id: basename@,
                path: ids_view(path@),
                loc: maybe_loc_view(loc),
            }),
    {
        Name(InternalName::new(basename, path, loc))
    }

    /// The name `id` without a namespace and without a source position.
    pub fn unqualified_name(id: Id) -> (r: Name)
        ensures
            r@ == (NameView { id: id@, path: Seq::empty(), loc: None }),
    {
        Name(InternalName::unqualified_name(id, None))
    }

    /// This name as an [`InternalName`].
    pub fn as_internal_name(&self) -> (r: &InternalName)
        ensures
            r@ == self@,
    {
        &self.0
    }

    /// The name as it is written: the identifiers of its namespace, the
    /// most significant first, and then its own, with `::` between each two.
    pub fn to_string(&self) -> (r: String)
        ensures
            r@ == joined(self@.path.push(self@.id), "::"@),
    {
        self.0.to_string()
    }

    /// Whether two names agree in everything, their source positions too.
    pub fn same(&self, other: &Name) -> (r: bool)
        ensures
            r == (self@ == other@),
    {
        self.0.same(&other.0)
    }

    /// Whether two names agree in everything but their source positions.
    pub fn eq_shape(&self, other: &Name) -> (r: bool)
        ensures
            r == (self@.shape() == other@.shape()),
    {
        self.0.eq_shape(&other.0)
    }
}

impl Clone for Name {
    fn clone(&self) -> (r: Name)
        ensures
            r@ == self@,
    {
        Name(self.0.clone())
    }
}

/// The identifier of one entity among those of its type.
#[derive(Debug, PartialEq, Eq, Hash)]
pub struct Eid(pub(crate) SmolStr);

impl View for Eid {
    type V = Seq<char>;

    closed spec fn view(&self) -> Seq<char> {
        text(self.0)
    }
}

impl Eid {
    /// The entity identifier with the given characters.
    pub fn new(s: &str) -> (r: Eid)
        ensures
            r@ == s@,
    {
        Eid(smol_str_new(s))
    }

    /// The characters of this entity identifier.
    pub fn as_str(&self) -> (r: &str)
        ensures
            r@ == self@,
    {
        smol_str_as_str(&self.0)
    }
}

/// A reference to one entity: its type and its identifier.
#[derive(Debug, PartialEq, Eq, Hash)]
pub struct EntityUID {
    pub(crate) ty: Name,
    pub(crate) eid: Eid,
}

/// The mathematical value of an [`EntityUID`].
pub struct EntityUIDView {
    pub ty: NameView,
    pub eid: Seq<char>,
}

impl EntityUIDView {
    /// The entity reference without the source position of its type name.
    pub open spec fn shape(self) -> EntityUIDView {
        EntityUIDView { ty: self.ty.shape(), eid: self.eid }
    }
}

impl View for EntityUID {
    type V = EntityUIDView;

    closed spec fn view(&self) -> EntityUIDView {
        EntityUIDView { ty: self.ty@, eid: self.eid@ }
    }
}

impl EntityUID {
    /// The entity of type `ty` with identifier `eid`.
    pub fn from_components(ty: Name, eid: Eid) -> (r: EntityUID)
        ensures
            r@ == (EntityUIDView { ty: ty@, eid: eid@ }),
    {
        EntityUID { ty, eid }
    }

    /// The type of the entity.
    pub fn entity_type(&self) -> (r: &Name)
        ensures
            r@ == self@.ty,
    {
        &self.ty
    }

    /// The identifier of the entity.
    pub fn eid(&self) -> (r: &Eid)
        ensures
            r@ == self@.eid,
    {
        &self.eid
    }

    /// Whether two entity references agree in everything, source positions
    /// too.
    pub fn same(&self, other: &EntityUID) -> (r: bool)
        ensures
            r == (self@ == other@),
    {
        self.ty.same(&other.ty) && smol_str_eq(&self.eid.0, &other.eid.0)
    }

    /// Whether two entity references agree in everything but source
    /// positions.
    pub fn eq_shape(&self, other: &EntityUID) -> (r: bool)
        ensures
            r == (self@.shape() == other@.shape()),
    {
        self.ty.eq_shape(&other.ty) && smol_str_eq(&self.eid.0, &other.eid.0)
    }
}

impl Clone for EntityUID {
    fn clone(&self) -> (r: EntityUID)
        ensures
            r@ == self@,
    {
        EntityUID { ty: self.ty.clone(), eid: Eid(self.eid.0.clone()) }
    }
}

} // verus!
