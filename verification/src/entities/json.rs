//! Natural JSON: the way in which the value of an attribute, or of the
//! context of a request, is written for the world outside.
//!
//! A boolean, an integer and a string are written as themselves, a set as the
//! list of its elements and a record as an object. A reference to an entity
//! and a value of an extension type have nothing of their own in JSON: they
//! are written as objects with the one key `__entity` or `__extn`. A record
//! may therefore not have such a key itself.

pub mod err;

use crate::ast::expr::{
    exprs_view, pairs_view, Expr, ExprKind, ExprKindView, ExprView, Literal, LiteralView,
};
use crate::ast::name::NameView;
use crate::ast::restricted_expr::{BorrowedRestrictedExpr, RestrictedExpr};
use crate::ast::text::{joined, smol_str_eq_str, smol_str_new, text};
use crate::entities::json::err::{JsonSerializationError, JsonSerializationErrorView};
use smol_str::SmolStr;
use vstd::prelude::*;

verus! {

/// A value in natural JSON.
#[derive(Debug, PartialEq, Eq)]
pub enum CedarValueJson {
    /// A reference to an entity: the name of its type as it is written, and
    /// its identifier.
    EntityEscape { entity_type: SmolStr, id: SmolStr },
    /// A value of an extension type: the name of the function that makes it
    /// as it is written, and the one argument of the function.
    ExtnEscape { ext_fn: SmolStr, arg: Box<CedarValueJson> },
    /// A boolean.
    Bool(bool),
    /// An integer.
    Long(i64),
    /// A string.
    String(SmolStr),
    /// A set: its elements in order.
    SetOf(Vec<CedarValueJson>),
    /// A record: its keys in order, each with its value.
    Record(Vec<(SmolStr, CedarValueJson)>),
}

/// The mathematical value of a [`CedarValueJson`].
pub enum JsonView {
    EntityEscape { entity_type: Seq<char>, id: Seq<char> },
    ExtnEscape { ext_fn: Seq<char>, arg: Box<JsonView> },
    Bool(bool),
    Long(i64),
    String(Seq<char>),
    SetOf(Seq<JsonView>),
    Record(Seq<(Seq<char>, JsonView)>),
}

/// The mathematical values of a list of values in natural JSON.
pub open spec fn jsons_view(items: Seq<CedarValueJson>) -> Seq<JsonView>
    decreases items,
{
    Seq::new(
        items.len(),
        |i: int|
            if 0 <= i < items.len() {
                json_view(items[i])
            } else {
                arbitrary()
            },
    )
}

/// The mathematical values of a list of keys and values in natural JSON.
pub open spec fn json_pairs_view(pairs: Seq<(SmolStr, CedarValueJson)>) -> Seq<
    (Seq<char>, JsonView),
>
    decreases pairs,
{
    Seq::new(
        pairs.len(),
        |i: int|
            if 0 <= i < pairs.len() {
                (text(pairs[i].0), json_view(pairs[i].1))
            } else {
                arbitrary()
            },
    )
}

/// The mathematical value of a value in natural JSON.
pub open spec fn json_view(j: CedarValueJson) -> JsonView
    decreases j,
{
    match j {
        CedarValueJson::EntityEscape { entity_type, id } => JsonView::EntityEscape {
            entity_type: text(entity_type),
            id: text(id),
        },
        CedarValueJson::ExtnEscape { ext_fn, arg } => JsonView::ExtnEscape {
            ext_fn: text(ext_fn),
            arg: Box::new(json_view(*arg)),
        },
        CedarValueJson::Bool(b) => JsonView::Bool(b),
        CedarValueJson::Long(i) => JsonView::Long(i),
        CedarValueJson::String(s) => JsonView::String(text(s)),
        CedarValueJson::SetOf(items) => JsonView::SetOf(jsons_view(items@)),
        CedarValueJson::Record(pairs) => JsonView::Record(json_pairs_view(pairs@)),
    }
}

impl View for CedarValueJson {
    type V = JsonView;

    open spec fn view(&self) -> JsonView {
        json_view(*self)
    }
}

/// Whether natural JSON keeps the key `key` for itself.
pub open spec fn is_reserved_key(key: Seq<char>) -> bool {
    key == "__entity"@ || key == "__extn"@ || key == "__expr"@
}

/// The first key of `pairs`, from position `start` on, that natural JSON
/// keeps for itself.
pub open spec fn first_reserved_key_from(
    pairs: Seq<(Seq<char>, ExprView)>,
    start: int,
) -> Option<Seq<char>>
    decreases pairs.len() - start,
{
    if start < 0 || start >= pairs.len() {
        None
    } else if is_reserved_key(pairs[start].0) {
        Some(pairs[start].0)
    } else {
        first_reserved_key_from(pairs, start + 1)
    }
}

/// The name `n` as it is written.
pub open spec fn name_text(n: NameView) -> Seq<char> {
    joined(n.path.push(n.id), "::"@)
}

/// The literal `l` in natural JSON.
pub open spec fn literal_json(l: LiteralView) -> JsonView {
    match l {
        LiteralView::Bool(b) => JsonView::Bool(b),
        LiteralView::Long(i) => JsonView::Long(i),
        LiteralView::String(s) => JsonView::String(s),
        LiteralView::EntityUID(e) => JsonView::EntityEscape {
            entity_type: name_text(e.ty),
            id: e.eid,
        },
    }
}

/// The first `n` of `items` in natural JSON, or the error for the first of
/// them that has no natural JSON form.
pub open spec fn natural_json_first(items: Seq<ExprView>, n: int) -> Result<
    Seq<JsonView>,
    JsonSerializationErrorView,
>
    decreases items, n,
{
    if n <= 0 || n > items.len() {
        Ok(Seq::empty())
    } else {
        match natural_json_first(items, n - 1) {
            Err(e) => Err(e),
            Ok(done) => match natural_json(items[n - 1]) {
                Err(e) => Err(e),
                Ok(j) => Ok(done.push(j)),
            },
        }
    }
}

/// The first `n` of `pairs` in natural JSON, each value under its key, or
/// the error for the first value among them that has no natural JSON form.
pub open spec fn natural_json_first_pairs(pairs: Seq<(Seq<char>, ExprView)>, n: int) -> Result<
    Seq<(Seq<char>, JsonView)>,
    JsonSerializationErrorView,
>
    decreases pairs, n,
{
    if n <= 0 || n > pairs.len() {
        Ok(Seq::empty())
    } else {
        match natural_json_first_pairs(pairs, n - 1) {
            Err(e) => Err(e),
            Ok(done) => match natural_json(pairs[n - 1].1) {
                Err(e) => Err(e),
                Ok(j) => Ok(done.push((pairs[n - 1].0, j))),
            },
        }
    }
}

/// The expression `e` in natural JSON.
///
/// A literal is written as [`literal_json`] says. A set is the list of its
/// elements and a record the object of its entries, each in natural JSON,
/// in the order in which they stand; but a record with a key that natural
/// JSON keeps for itself has no natural JSON form. A call of an extension
/// function on one argument is written with the name of the function and
/// that argument in natural JSON; a call on none, or on two or more, has no
/// natural JSON form. Nothing else has one. Where a part has none, the
/// whole has none, and the error is that of the first such part.
pub open spec fn natural_json(e: ExprView) -> Result<JsonView, JsonSerializationErrorView>
    decreases e, 0int,
{
    match e.kind {
        ExprKindView::Lit(l) => Ok(literal_json(l)),
        ExprKindView::ExtensionFunctionApp { fn_name, args } => if args.len() == 0 {
            Err(JsonSerializationErrorView::ExtnCall0Arguments { func: fn_name })
        } else if args.len() == 1 {
            match natural_json(args[0]) {
                Ok(j) => Ok(JsonView::ExtnEscape { ext_fn: name_text(fn_name), arg: Box::new(j) }),
                Err(e) => Err(e),
            }
        } else {
            Err(JsonSerializationErrorView::ExtnCall2OrMoreArguments { func: fn_name })
        },
        ExprKindView::SetLiteral(items) => match natural_json_first(items, items.len() as int) {
            Ok(done) => Ok(JsonView::SetOf(done)),
            Err(e) => Err(e),
        },
        ExprKindView::Record(pairs) => match first_reserved_key_from(pairs, 0) {
            Some(key) => Err(JsonSerializationErrorView::ReservedKey { key }),
            None => match natural_json_first_pairs(pairs, pairs.len() as int) {
                Ok(done) => Ok(JsonView::Record(done)),
                Err(e) => Err(e),
            },
        },
        kind => Err(JsonSerializationErrorView::UnexpectedRestrictedExprKind { kind }),
    }
}

/// The outcome of writing natural JSON, as a mathematical value.
pub open spec fn json_result_view(r: Result<CedarValueJson, JsonSerializationError>) -> Result<
    JsonView,
    JsonSerializationErrorView,
> {
    match r {
        Ok(j) => Ok(j@),
        Err(e) => Err(e@),
    }
}

/// The first key of `pairs` that natural JSON keeps for itself.
fn find_reserved_key(pairs: &Vec<(SmolStr, Expr)>) -> (r: Option<&SmolStr>)
    ensures
        r is Some <==> first_reserved_key_from(pairs_view(pairs@), 0) is Some,
        r matches Some(k) ==> Some(text(*k)) == first_reserved_key_from(pairs_view(pairs@), 0),
{
    let ghost views = pairs_view(pairs@);
    let mut i: usize = 0;
    while i < pairs.len()
        invariant
            i <= pairs.len(),
            views == pairs_view(pairs@),
            first_reserved_key_from(views, 0) == first_reserved_key_from(views, i as int),
        decreases pairs.len() - i,
    {
        let key = &pairs[i].0;
        if smol_str_eq_str(key, "__entity") || smol_str_eq_str(key, "__extn") || smol_str_eq_str(
            key,
            "__expr",
        ) {
            return Some(key);
        }
        i = i + 1;
    }
    None
}

/// The literal `l` in natural JSON.
fn literal_to_json(l: &Literal) -> (r: CedarValueJson)
    ensures
        r@ == literal_json(l@),
{
    match l {
        Literal::Bool(b) => CedarValueJson::Bool(*b),
        Literal::Long(i) => CedarValueJson::Long(*i),
        Literal::String(s) => CedarValueJson::String(s.clone()),
        Literal::EntityUID(e) => {
            let entity_type = e.entity_type().to_string();
            CedarValueJson::EntityEscape {
                entity_type: smol_str_new(entity_type.as_str()),
                id: smol_str_new(e.eid().as_str()),
            }
        },
    }
}

/// The expressions `items` in natural JSON.
fn exprs_to_json(items: &Vec<Expr>) -> (r: Result<Vec<CedarValueJson>, JsonSerializationError>)
    ensures
        r matches Ok(done) ==> Ok::<_, JsonSerializationErrorView>(jsons_view(done@))
            == natural_json_first(exprs_view(items@), items.len() as int),
        r matches Err(e) ==> Err::<Seq<JsonView>, _>(e@) == natural_json_first(
            exprs_view(items@),
            items.len() as int,
        ),
    decreases exprs_view(items@), 0int,
{
    let ghost views = exprs_view(items@);
    let mut out: Vec<CedarValueJson> = Vec::new();
    assert(jsons_view(out@) =~= Seq::empty());
    let mut i: usize = 0;
    while i < items.len()
        invariant
            i <= items.len(),
            views == exprs_view(items@),
            natural_json_first(views, i as int) == Ok::<_, JsonSerializationErrorView>(
                jsons_view(out@),
            ),
        decreases items.len() - i,
    {
        assert(views[i as int] == items[i as int]@);
        let ghost before = jsons_view(out@);
        match expr_to_json(&items[i]) {
            Ok(j) => {
                out.push(j);
                assert(jsons_view(out@) =~= before.push(j@));
            },
            Err(e) => {
                proof {
                    lemma_error_stays(views, i as int + 1, items.len() as int);
                }
                return Err(e);
            },
        }
        i = i + 1;
    }
    Ok(out)
}

/// Once the first `n` of `items` have no natural JSON form, no more of them
/// have one either, and the error stays what it is.
proof fn lemma_error_stays(items: Seq<ExprView>, n: int, m: int)
    requires
        0 <= n <= m <= items.len(),
        natural_json_first(items, n) is Err,
    ensures
        natural_json_first(items, m) == natural_json_first(items, n),
    decreases m - n,
{
    if n < m {
        lemma_error_stays(items, n, m - 1);
    }
}

/// What [`lemma_error_stays`] says, of keys and values.
proof fn lemma_error_stays_pairs(pairs: Seq<(Seq<char>, ExprView)>, n: int, m: int)
    requires
        0 <= n <= m <= pairs.len(),
        natural_json_first_pairs(pairs, n) is Err,
    ensures
        natural_json_first_pairs(pairs, m) == natural_json_first_pairs(pairs, n),
    decreases m - n,
{
    if n < m {
        lemma_error_stays_pairs(pairs, n, m - 1);
    }
}

/// The values of `pairs` in natural JSON, each under its key.
fn pairs_to_json(pairs: &Vec<(SmolStr, Expr)>) -> (r: Result<
    Vec<(SmolStr, CedarValueJson)>,
    JsonSerializationError,
>)
    ensures
        r matches Ok(done) ==> Ok::<_, JsonSerializationErrorView>(json_pairs_view(done@))
            == natural_json_first_pairs(pairs_view(pairs@), pairs.len() as int),
        r matches Err(e) ==> Err::<Seq<(Seq<char>, JsonView)>, _>(e@)
            == natural_json_first_pairs(pairs_view(pairs@), pairs.len() as int),
    decreases pairs_view(pairs@), 0int,
{
    let ghost views = pairs_view(pairs@);
    let mut out: Vec<(SmolStr, CedarValueJson)> = Vec::new();
    assert(json_pairs_view(out@) =~= Seq::empty());
    let mut i: usize = 0;
    while i < pairs.len()
        invariant
            i <= pairs.len(),
            views == pairs_view(pairs@),
            natural_json_first_pairs(views, i as int) == Ok::<_, JsonSerializationErrorView>(
                json_pairs_view(out@),
            ),
        decreases pairs.len() - i,
    {
        assert(views[i as int].1 == pairs[i as int].1@);
        assert(views[i as int].0 == text(pairs[i as int].0));
        let ghost before = json_pairs_view(out@);
        match expr_to_json(&pairs[i].1) {
            Ok(j) => {
                let key = pairs[i].0.clone();
                out.push((key, j));
                assert(json_pairs_view(out@) =~= before.push((views[i as int].0, j@)));
            },
            Err(e) => {
                proof {
                    lemma_error_stays_pairs(views, i as int + 1, pairs.len() as int);
                }
                return Err(e);
            },
        }
        i = i + 1;
    }
    Ok(out)
}

/// The expression `e` in natural JSON.
fn expr_to_json(e: &Expr) -> (r: Result<CedarValueJson, JsonSerializationError>)
    ensures
        json_result_view(r) == natural_json(e@),
    decreases e@, 1int,
{
    match e.expr_kind() {
        ExprKind::Lit(l) => Ok(literal_to_json(l)),
        ExprKind::ExtensionFunctionApp { fn_name, args } => {
            assert(e@.kind->ExtensionFunctionApp_args == exprs_view(args@));
            if args.len() == 0 {
                Err(JsonSerializationError::ExtnCall0Arguments { func: fn_name.clone() })
            } else if args.len() == 1 {
                assert(exprs_view(args@)[0] == args[0]@);
                match expr_to_json(&args[0]) {
                    Ok(j) => {
                        let written = fn_name.to_string();
                        Ok(
                            CedarValueJson::ExtnEscape {
                                ext_fn: smol_str_new(written.as_str()),
                                arg: Box::new(j),
                            },
                        )
                    },
                    Err(err) => Err(err),
                }
            } else {
                Err(JsonSerializationError::ExtnCall2OrMoreArguments { func: fn_name.clone() })
            }
        },
        ExprKind::SetLiteral(items) => {
            assert(e@.kind->SetLiteral_0 == exprs_view(items@));
            match exprs_to_json(items) {
                Ok(done) => Ok(CedarValueJson::SetOf(done)),
                Err(err) => Err(err),
            }
        },
        ExprKind::Record(pairs) => {
            assert(e@.kind->Record_0 == pairs_view(pairs@));
            match find_reserved_key(pairs) {
                Some(key) => Err(JsonSerializationError::ReservedKey { key: key.clone() }),
                None => match pairs_to_json(pairs) {
                    Ok(done) => Ok(CedarValueJson::Record(done)),
                    Err(err) => Err(err),
                },
            }
        },
        kind => Err(JsonSerializationError::UnexpectedRestrictedExprKind { kind: kind.clone() }),
    }
}

impl CedarValueJson {
    /// The restricted expression `expr` in natural JSON.
    pub fn from_expr(expr: BorrowedRestrictedExpr<'_>) -> (r: Result<
        CedarValueJson,
        JsonSerializationError,
    >)
        ensures
            json_result_view(r) == natural_json(expr@),
    {
        expr_to_json(expr.as_ref())
    }
}

impl<'a> BorrowedRestrictedExpr<'a> {
    /// This restricted expression in natural JSON.
    pub fn to_natural_json(self) -> (r: Result<CedarValueJson, JsonSerializationError>)
        ensures
            json_result_view(r) == natural_json(self@),
    {
        CedarValueJson::from_expr(self)
    }
}

impl RestrictedExpr {
    /// This restricted expression in natural JSON.
    pub fn to_natural_json(&self) -> (r: Result<CedarValueJson, JsonSerializationError>)
        ensures
            json_result_view(r) == natural_json(self@),
    {
        self.as_borrowed().to_natural_json()
    }
}

} // verus!
