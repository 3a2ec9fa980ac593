//! Restricted expressions: expressions made of literals, unknowns, calls of
//! extension functions, sets and records only.
//!
//! Whether two sets, or two records, with the same members in another order
//! are equal: they are not. A set keeps its elements, and a record its
//! entries, in the order in which they were given, and every comparison in
//! this module goes by that order.

use crate::ast::expr::{
    binary_op_symbol, duplicate_key_error, exprs_view, pairs_view, unary_op_symbol, Expr,
    ExprKind, ExprKindView, ExprView, Literal, LiteralView, Unknown, UnknownView,
};
use crate::ast::expression_construction_errors::ExpressionConstructionError;
use crate::ast::name::{EntityUID, EntityUIDView, Name, NameView};
use crate::ast::restricted_expr_errors::{
    InvalidRestrictedExpressionError, InvalidRestrictedExpressionErrorView,
};
use crate::ast::text::{is_first_repeat, keys_of, smol_str_new, text};
use crate::ast::types::{maybe_type_view, Type, TypeView};
use crate::extensions::{return_type_from, ExtensionFunctionView, Extensions};
use crate::parser::err::ParseErrors;
use crate::parser::{maybe_loc_view, MaybeLoc};
use smol_str::SmolStr;
use vstd::prelude::*;

verus! {

impl ExprKindView {
    /// Whether a node of this kind may occur in a restricted expression.
    pub open spec fn is_allowed(self) -> bool {
        self is Lit || self is Unknown || self is ExtensionFunctionApp || self is SetLiteral
            || self is Record
    }

    /// The name of the feature that a node of this kind uses, where it is
    /// one that restricted expressions do not have.
    pub open spec fn feature_label(self) -> Seq<char> {
        match self {
            ExprKindView::Var(_) => "variables"@,
            ExprKindView::Slot(_) => "template slots"@,
            ExprKindView::If { .. } => "if-then-else"@,
            ExprKindView::And { .. } => "&&"@,
            ExprKindView::Or { .. } => "||"@,
            ExprKindView::UnaryApp { op, .. } => unary_op_symbol(op),
            ExprKindView::BinaryApp { op, .. } => binary_op_symbol(op),
            ExprKindView::GetAttr { .. } => "attribute accesses"@,
            ExprKindView::HasAttr { .. } => "'has'"@,
            ExprKindView::Like { .. } => "'like'"@,
            ExprKindView::Is { .. } => "'is'"@,
            _ => Seq::empty(),
        }
    }
}

/// The first node, going through `items` from position `start` on and into
/// each of them depth first, that may not occur in a restricted expression.
pub open spec fn first_violation_from(items: Seq<ExprView>, start: int) -> Option<ExprView>
    decreases items, items.len() - start,
{
    if start < 0 || start >= items.len() {
        None
    } else {
        match items[start].first_violation() {
            Some(v) => Some(v),
            None => first_violation_from(items, start + 1),
        }
    }
}

/// The first node, going through the values of `pairs` from position `start`
/// on and into each of them depth first, that may not occur in a restricted
/// expression.
pub open spec fn first_violation_from_values(
    pairs: Seq<(Seq<char>, ExprView)>,
    start: int,
) -> Option<ExprView>
    decreases pairs, pairs.len() - start,
{
    if start < 0 || start >= pairs.len() {
        None
    } else {
        match pairs[start].1.first_violation() {
            Some(v) => Some(v),
            None => first_violation_from_values(pairs, start + 1),
        }
    }
}

impl ExprView {
    /// Whether this expression is a restricted expression: this node and
    /// every node below it is a literal, an unknown, a call of an extension
    /// function, a set or a record.
    pub open spec fn is_restricted(self) -> bool
        decreases self,
    {
        match self.kind {
            ExprKindView::Lit(_) => true,
            ExprKindView::Unknown(_) => true,
            ExprKindView::ExtensionFunctionApp { args, .. } => forall|i: int|
                0 <= i < args.len() ==> (#[trigger] args[i]).is_restricted(),
            ExprKindView::SetLiteral(items) => forall|i: int|
                0 <= i < items.len() ==> (#[trigger] items[i]).is_restricted(),
            ExprKindView::Record(pairs) => forall|i: int|
                0 <= i < pairs.len() ==> (#[trigger] pairs[i]).1.is_restricted(),
            _ => false,
        }
    }

    /// The first node, going depth first, that may not occur in a restricted
    /// expression; `None` where there is no such node.
    pub open spec fn first_violation(self) -> Option<ExprView>
        decreases self, 0int,
    {
        match self.kind {
            ExprKindView::Lit(_) => None,
            ExprKindView::Unknown(_) => None,
            ExprKindView::ExtensionFunctionApp { args, .. } => first_violation_from(args, 0),
            ExprKindView::SetLiteral(items) => first_violation_from(items, 0),
            ExprKindView::Record(pairs) => first_violation_from_values(pairs, 0),
            _ => Some(self),
        }
    }
}

/// An expression is a restricted expression exactly when going through it
/// finds no node that may not occur in one; and a node that is found is
/// never of a kind that may.
pub proof fn lemma_first_violation(e: ExprView)
    ensures
        e.first_violation() is None <==> e.is_restricted(),
        e.first_violation() matches Some(v) ==> !v.kind.is_allowed(),
    decreases e, 0int,
{
    match e.kind {
        ExprKindView::ExtensionFunctionApp { args, .. } => lemma_first_violation_from(args, 0),
        ExprKindView::SetLiteral(items) => lemma_first_violation_from(items, 0),
        ExprKindView::Record(pairs) => lemma_first_violation_from_values(pairs, 0),
        _ => {},
    }
}

/// What [`lemma_first_violation`] says, of the items of a list from
/// position `start` on.
pub proof fn lemma_first_violation_from(items: Seq<ExprView>, start: int)
    requires
        0 <= start <= items.len(),
    ensures
        first_violation_from(items, start) is None <==> (forall|i: int|
            start <= i < items.len() ==> (#[trigger] items[i]).is_restricted()),
        first_violation_from(items, start) matches Some(v) ==> !v.kind.is_allowed(),
    decreases items, items.len() - start,
{
    if start < items.len() {
        lemma_first_violation(items[start]);
        lemma_first_violation_from(items, start + 1);
    }
}

/// What [`lemma_first_violation`] says, of the values of a list of keys and
/// values from position `start` on.
pub proof fn lemma_first_violation_from_values(pairs: Seq<(Seq<char>, ExprView)>, start: int)
    requires
        0 <= start <= pairs.len(),
    ensures
        first_violation_from_values(pairs, start) is None <==> (forall|i: int|
            start <= i < pairs.len() ==> (#[trigger] pairs[i]).1.is_restricted()),
        first_violation_from_values(pairs, start) matches Some(v) ==> !v.kind.is_allowed(),
    decreases pairs, pairs.len() - start,
{
    if start < pairs.len() {
        lemma_first_violation(pairs[start].1);
        lemma_first_violation_from_values(pairs, start + 1);
    }
}

/// An expression was expected to be a restricted expression and is none.
#[derive(Debug, PartialEq, Eq)]
pub enum RestrictedExpressionError {
    /// The expression uses a feature that restricted expressions do not
    /// have.
    InvalidRestrictedExpression(InvalidRestrictedExpressionError),
}

/// The mathematical value of a [`RestrictedExpressionError`].
pub enum RestrictedExpressionErrorView {
    InvalidRestrictedExpression(InvalidRestrictedExpressionErrorView),
}

impl View for RestrictedExpressionError {
    type V = RestrictedExpressionErrorView;

    open spec fn view(&self) -> RestrictedExpressionErrorView {
        match *self {
            RestrictedExpressionError::InvalidRestrictedExpression(e) => {
                RestrictedExpressionErrorView::InvalidRestrictedExpression(e@)
            },
        }
    }
}

impl From<InvalidRestrictedExpressionError> for RestrictedExpressionError {
    fn from(e: InvalidRestrictedExpressionError) -> (r: RestrictedExpressionError)
        ensures
            r == RestrictedExpressionError::InvalidRestrictedExpression(e),
    {
        RestrictedExpressionError::InvalidRestrictedExpression(e)
    }
}

impl vstd::std_specs::convert::FromSpecImpl<InvalidRestrictedExpressionError> for RestrictedExpressionError {
    open spec fn obeys_from_spec() -> bool {
        true
    }

    open spec fn from_spec(e: InvalidRestrictedExpressionError) -> RestrictedExpressionError {
        RestrictedExpressionError::InvalidRestrictedExpression(e)
    }
}

/// The error that the node `offender` gives rise to.
pub open spec fn rejection(offender: ExprView) -> RestrictedExpressionErrorView {
    RestrictedExpressionErrorView::InvalidRestrictedExpression(
        InvalidRestrictedExpressionErrorView {
            feature: offender.kind.feature_label(),
            expr: offender,
        },
    )
}

/// The outcome of checking the expression `e`: nothing where it is a
/// restricted expression, else the error for the first node in it, going
/// depth first, that may not occur in one.
pub open spec fn check(e: ExprView) -> Result<(), RestrictedExpressionErrorView> {
    match e.first_violation() {
        Some(offender) => Err(rejection(offender)),
        None => Ok(()),
    }
}

/// The outcome of a check, as a mathematical value.
pub open spec fn outcome_view(r: Result<(), RestrictedExpressionError>) -> Result<
    (),
    RestrictedExpressionErrorView,
> {
    match r {
        Ok(()) => Ok(()),
        Err(e) => Err(e@),
    }
}

/// The error for `expr`, which uses the feature called `feature`.
fn reject(feature: &str, expr: &Expr) -> (r: RestrictedExpressionError)
    ensures
        r@ == RestrictedExpressionErrorView::InvalidRestrictedExpression(
            InvalidRestrictedExpressionErrorView { feature: feature@, expr: expr@ },
        ),
{
    RestrictedExpressionError::InvalidRestrictedExpression(
        InvalidRestrictedExpressionError { feature: smol_str_new(feature), expr: expr.clone() },
    )
}

/// Check each of `items` in turn, and stop at the first that is no
/// restricted expression.
fn all_restricted(items: &Vec<Expr>) -> (r: Result<(), RestrictedExpressionError>)
    ensures
        outcome_view(r) == (match first_violation_from(exprs_view(items@), 0) {
            Some(offender) => Err(rejection(offender)),
            None => Ok(()),
        }),
    decreases exprs_view(items@), 0int,
{
    let ghost views = exprs_view(items@);
    let mut i: usize = 0;
    while i < items.len()
        invariant
            i <= items.len(),
            views == exprs_view(items@),
            first_violation_from(views, 0) == first_violation_from(views, i as int),
        decreases items.len() - i,
    {
        match is_restricted(&items[i]) {
            Ok(()) => {},
            Err(e) => {
                return Err(e);
            },
        }
        i = i + 1;
    }
    Ok(())
}

/// Check the value of each of `pairs` in turn, and stop at the first that is
/// no restricted expression.
fn all_values_restricted(pairs: &Vec<(SmolStr, Expr)>) -> (r: Result<
    (),
    RestrictedExpressionError,
>)
    ensures
        outcome_view(r) == (match first_violation_from_values(pairs_view(pairs@), 0) {
            Some(offender) => Err(rejection(offender)),
            None => Ok(()),
        }),
    decreases pairs_view(pairs@), 0int,
{
    let ghost views = pairs_view(pairs@);
    let mut i: usize = 0;
    while i < pairs.len()
        invariant
            i <= pairs.len(),
            views == pairs_view(pairs@),
            first_violation_from_values(views, 0) == first_violation_from_values(views, i as int),
        decreases pairs.len() - i,
    {
        match is_restricted(&pairs[i].1) {
            Ok(()) => {},
            Err(e) => {
                return Err(e);
            },
        }
        i = i + 1;
    }
    Ok(())
}

/// Does `expr` qualify as a restricted expression?
///
/// Literals and unknowns do. A set does when each element does, a record
/// when each value does, and a call of an extension function when each
/// argument does. Everything else does not. The expression is gone through
/// depth first, and the error names the first node found that does not
/// qualify, which may lie deep inside `expr`.
pub fn is_restricted(expr: &Expr) -> (r: Result<(), RestrictedExpressionError>)
    ensures
        r is Ok <==> expr@.is_restricted(),
        outcome_view(r) == check(expr@),
    decreases expr@, 1int,
{
    proof {
        lemma_first_violation(expr@);
    }
    match expr.expr_kind() {
        ExprKind::Lit(_) => Ok(()),
        ExprKind::Unknown(_) => Ok(()),
        ExprKind::Var(_) => Err(reject("variables", expr)),
        ExprKind::Slot(_) => Err(reject("template slots", expr)),
        ExprKind::If { .. } => Err(reject("if-then-else", expr)),
        ExprKind::And { .. } => Err(reject("&&", expr)),
        ExprKind::Or { .. } => Err(reject("||", expr)),
        ExprKind::UnaryApp { op, .. } => Err(reject(op.symbol(), expr)),
        ExprKind::BinaryApp { op, .. } => Err(reject(op.symbol(), expr)),
        ExprKind::GetAttr { .. } => Err(reject("attribute accesses", expr)),
        ExprKind::HasAttr { .. } => Err(reject("'has'", expr)),
        ExprKind::Like { .. } => Err(reject("'like'", expr)),
        ExprKind::Is { .. } => Err(reject("'is'", expr)),
        ExprKind::ExtensionFunctionApp { args, .. } => all_restricted(args),
        ExprKind::SetLiteral(exprs) => all_restricted(exprs),
        ExprKind::Record(pairs) => all_values_restricted(pairs),
    }
}

/// An expression that is known to be a restricted expression.
///
/// Restricted expressions are what attribute values and the context of a
/// request are written in: they can denote every value, and nothing in them
/// needs a request to be evaluated.
///
/// Two restricted expressions are equal when the expressions in them are:
/// when they agree in everything, the places they were read from among it.
#[derive(Debug, Eq, Hash)]
pub struct RestrictedExpr(Expr);

impl PartialEq for RestrictedExpr {
    fn eq(&self, other: &Self) -> (r: bool) {
        self.0 == other.0
    }
}

impl vstd::std_specs::cmp::PartialEqSpecImpl for RestrictedExpr {
    open spec fn obeys_eq_spec() -> bool {
        true
    }

    open spec fn eq_spec(&self, other: &Self) -> bool {
        self@ == other@
    }
}

impl View for RestrictedExpr {
    type V = ExprView;

    closed spec fn view(&self) -> ExprView {
        self.0@
    }
}

/// The mathematical values of a list of restricted expressions.
pub open spec fn restricted_exprs_view(items: Seq<RestrictedExpr>) -> Seq<ExprView> {
    Seq::new(items.len(), |i: int| items[i]@)
}

/// The mathematical values of a list of keys and restricted expressions.
pub open spec fn restricted_pairs_view(pairs: Seq<(SmolStr, RestrictedExpr)>) -> Seq<
    (Seq<char>, ExprView),
> {
    Seq::new(pairs.len(), |i: int| (text(pairs[i].0), pairs[i].1@))
}

impl RestrictedExpr {
    /// Every restricted expression that exists is one.
    #[verifier::type_invariant]
    spec fn type_inv(self) -> bool {
        self.0@.is_restricted()
    }

    /// Make a restricted expression of `expr`, after checking that it is
    /// one.
    ///
    /// The check walks the whole of `expr`. Where it fails, the error is
    /// that of [`is_restricted`].
    pub fn new(expr: Expr) -> (r: Result<RestrictedExpr, RestrictedExpressionError>)
        ensures
            r is Ok <==> expr@.is_restricted(),
            r matches Ok(e) ==> e@ == expr@,
            r matches Err(err) ==> Err::<(), _>(err@) == check(expr@),
    {
        match is_restricted(&expr) {
            Ok(()) => Ok(RestrictedExpr(expr)),
            Err(e) => Err(e),
        }
    }

    /// Make a restricted expression of `expr` without checking anything: the
    /// caller answers for `expr` being one.
    pub fn new_unchecked(expr: Expr) -> (r: RestrictedExpr)
        requires
            expr@.is_restricted(),
        ensures
            r@ == expr@,
    {
        RestrictedExpr(expr)
    }

    /// The same restricted expression, read from `source_loc` (or from
    /// nowhere).
    pub fn with_maybe_source_loc(self, source_loc: MaybeLoc) -> (r: RestrictedExpr)
        ensures
            r@ == (ExprView { kind: self@.kind, loc: maybe_loc_view(source_loc) }),
    {
        proof {
            use_type_invariant(&self);
        }
        RestrictedExpr::new_unchecked(self.0.with_maybe_source_loc(source_loc))
    }

    /// The restricted expression that is the literal `v`.
    pub fn val<T: Into<Literal>>(v: T) -> (r: RestrictedExpr)
        ensures
            exists|l: Literal| #[trigger]
                call_ensures(T::into, (v,), l) && r@ == (ExprView {
                    kind: ExprKindView::Lit(l@),
                    loc: None,
                }),
    {
        RestrictedExpr::new_unchecked(Expr::val(v))
    }

    /// The restricted expression that is the unknown `u`.
    pub fn unknown(u: Unknown) -> (r: RestrictedExpr)
        ensures
            r@ == (ExprView { kind: ExprKindView::Unknown(u@), loc: None }),
    {
        RestrictedExpr::new_unchecked(Expr::unknown(u))
    }

    /// The set of the given restricted expressions, in the order given.
    pub fn set(exprs: Vec<RestrictedExpr>) -> (r: RestrictedExpr)
        ensures
            r@ == (ExprView {
                kind: ExprKindView::SetLiteral(restricted_exprs_view(exprs@)),
                loc: None,
            }),
    {
        let items = into_exprs(exprs);
        RestrictedExpr::new_unchecked(Expr::set(items))
    }

    /// The record of the given keys and values, in the order given.
    ///
    /// Fails when a key occurs twice, whatever the two values are, and names
    /// the first key that repeats an earlier one.
    pub fn record(pairs: Vec<(SmolStr, RestrictedExpr)>) -> (r: Result<
        RestrictedExpr,
        ExpressionConstructionError,
    >)
        ensures
            r is Ok <==> keys_of(pairs@).no_duplicates(),
            r matches Ok(e) ==> e@ == (ExprView {
                kind: ExprKindView::Record(restricted_pairs_view(pairs@)),
                loc: None,
            }),
            r matches Err(err) ==> exists|j: int| #[trigger]
                is_first_repeat(keys_of(pairs@), j) && err@ == duplicate_key_error(
                    keys_of(pairs@)[j],
                ),
    {
        let items = into_expr_pairs(pairs);
        match Expr::record(items) {
            Ok(e) => Ok(RestrictedExpr::new_unchecked(e)),
            Err(err) => Err(err),
        }
    }

    /// The call of the extension function `function_name` on `args`.
    pub fn call_extension_fn(function_name: Name, args: Vec<RestrictedExpr>) -> (r: RestrictedExpr)
        ensures
            r@ == (ExprView {
                kind: ExprKindView::ExtensionFunctionApp {
                    fn_name: function_name@,
                    args: restricted_exprs_view(args@),
                },
                loc: None,
            }),
    {
        let items = into_exprs(args);
        RestrictedExpr::new_unchecked(Expr::call_extension_fn(function_name, items))
    }
}

/// The expressions that a list of restricted expressions holds.
fn into_exprs(exprs: Vec<RestrictedExpr>) -> (r: Vec<Expr>)
    ensures
        exprs_view(r@) == restricted_exprs_view(exprs@),
        forall|i: int| 0 <= i < r.len() ==> (#[trigger] r[i])@.is_restricted(),
{
    let mut out: Vec<Expr> = Vec::new();
    for e in it: exprs
        invariant
            out.len() == it.index(),
            forall|j: int| 0 <= j < out.len() ==> (#[trigger] out[j])@ == it.seq()[j]@,
            forall|j: int| 0 <= j < out.len() ==> (#[trigger] out[j])@.is_restricted(),
    {
        proof {
            use_type_invariant(&e);
        }
        out.push(e.0);
    }
    assert(exprs_view(out@) =~= restricted_exprs_view(exprs@));
    out
}

/// The keys and expressions that a list of keys and restricted expressions
/// holds.
fn into_expr_pairs(pairs: Vec<(SmolStr, RestrictedExpr)>) -> (r: Vec<(SmolStr, Expr)>)
    ensures
        pairs_view(r@) == restricted_pairs_view(pairs@),
        keys_of(r@) == keys_of(pairs@),
        forall|i: int| 0 <= i < r.len() ==> (#[trigger] r[i]).1@.is_restricted(),
{
    let mut out: Vec<(SmolStr, Expr)> = Vec::new();
    for p in it: pairs
        invariant
            out.len() == it.index(),
            forall|j: int|
                0 <= j < out.len() ==> text((#[trigger] out[j]).0) == text(it.seq()[j].0)
                    && out[j].1@ == it.seq()[j].1@,
            forall|j: int| 0 <= j < out.len() ==> (#[trigger] out[j]).1@.is_restricted(),
    {
        let (k, e) = p;
        proof {
            use_type_invariant(&e);
        }
        out.push((k, e.0));
    }
    assert(pairs_view(out@) =~= restricted_pairs_view(pairs@));
    assert(keys_of(out@) =~= keys_of(pairs@));
    out
}

impl ExprView {
    /// The boolean that this expression is, where it is a boolean literal.
    pub open spec fn as_bool(self) -> Option<bool> {
        match self.kind {
            ExprKindView::Lit(LiteralView::Bool(b)) => Some(b),
            _ => None,
        }
    }

    /// The integer that this expression is, where it is an integer literal.
    pub open spec fn as_long(self) -> Option<i64> {
        match self.kind {
            ExprKindView::Lit(LiteralView::Long(i)) => Some(i),
            _ => None,
        }
    }

    /// The string that this expression is, where it is a string literal.
    pub open spec fn as_string(self) -> Option<Seq<char>> {
        match self.kind {
            ExprKindView::Lit(LiteralView::String(s)) => Some(s),
            _ => None,
        }
    }

    /// The entity that this expression refers to, where it is an entity
    /// reference.
    pub open spec fn as_euid(self) -> Option<EntityUIDView> {
        match self.kind {
            ExprKindView::Lit(LiteralView::EntityUID(e)) => Some(e),
            _ => None,
        }
    }

    /// The unknown that this expression is, where it is one.
    pub open spec fn as_unknown(self) -> Option<UnknownView> {
        match self.kind {
            ExprKindView::Unknown(u) => Some(u),
            _ => None,
        }
    }

    /// The elements of this expression in order, where it is a set.
    pub open spec fn as_set_elements(self) -> Option<Seq<ExprView>> {
        match self.kind {
            ExprKindView::SetLiteral(items) => Some(items),
            _ => None,
        }
    }

    /// The keys and values of this expression in order, where it is a
    /// record.
    pub open spec fn as_record_pairs(self) -> Option<Seq<(Seq<char>, ExprView)>> {
        match self.kind {
            ExprKindView::Record(pairs) => Some(pairs),
            _ => None,
        }
    }

    /// The function and the arguments of this expression, where it is a call
    /// of an extension function.
    pub open spec fn as_extn_fn_call(self) -> Option<(NameView, Seq<ExprView>)> {
        match self.kind {
            ExprKindView::ExtensionFunctionApp { fn_name, args } => Some((fn_name, args)),
            _ => None,
        }
    }
}

/// A restricted expression that belongs to someone else: a reference to an
/// expression that is known to be a restricted expression.
///
/// Two borrowed restricted expressions are equal when the expressions that
/// they refer to are: when these agree in everything, the places they were
/// read from among it.
#[derive(Debug, Clone, Copy, Eq, Hash)]
pub struct BorrowedRestrictedExpr<'a>(&'a Expr);

impl<'a> PartialEq for BorrowedRestrictedExpr<'a> {
    fn eq(&self, other: &Self) -> (r: bool) {
        *self.0 == *other.0
    }
}

impl<'a> vstd::std_specs::cmp::PartialEqSpecImpl for BorrowedRestrictedExpr<'a> {
    open spec fn obeys_eq_spec() -> bool {
        true
    }

    open spec fn eq_spec(&self, other: &Self) -> bool {
        self@ == other@
    }
}

impl<'a> View for BorrowedRestrictedExpr<'a> {
    type V = ExprView;

    closed spec fn view(&self) -> ExprView {
        self.0@
    }
}

/// The mathematical values of a list of borrowed restricted expressions.
pub open spec fn borrowed_exprs_view(items: Seq<BorrowedRestrictedExpr<'_>>) -> Seq<ExprView> {
    Seq::new(items.len(), |i: int| items[i]@)
}

/// The mathematical values of a list of keys and borrowed restricted
/// expressions.
pub open spec fn borrowed_pairs_view(
    pairs: Seq<(&SmolStr, BorrowedRestrictedExpr<'_>)>,
) -> Seq<(Seq<char>, ExprView)> {
    Seq::new(pairs.len(), |i: int| (text(*pairs[i].0), pairs[i].1@))
}

/// The restricted expressions that `items` are, given that each is one.
fn borrow_all<'a>(items: &'a Vec<Expr>) -> (r: Vec<BorrowedRestrictedExpr<'a>>)
    requires
        forall|i: int| 0 <= i < items.len() ==> (#[trigger] exprs_view(items@)[i]).is_restricted(),
    ensures
        borrowed_exprs_view(r@) == exprs_view(items@),
        forall|i: int| 0 <= i < r.len() ==> (#[trigger] r[i])@.is_restricted(),
{
    let mut out: Vec<BorrowedRestrictedExpr<'a>> = Vec::new();
    let mut i: usize = 0;
    while i < items.len()
        invariant
            i <= items.len(),
            out.len() == i,
            forall|j: int|
                0 <= j < items.len() ==> (#[trigger] exprs_view(items@)[j]).is_restricted(),
            forall|j: int| 0 <= j < i ==> (#[trigger] out[j])@ == exprs_view(items@)[j],
        decreases items.len() - i,
    {
        assert(exprs_view(items@)[i as int].is_restricted());
        out.push(BorrowedRestrictedExpr::new_unchecked(&items[i]));
        i = i + 1;
    }
    assert(borrowed_exprs_view(out@) =~= exprs_view(items@));
    out
}

impl<'a> BorrowedRestrictedExpr<'a> {
    /// Every borrowed restricted expression that exists is a restricted
    /// expression.
    #[verifier::type_invariant]
    spec fn type_inv(self) -> bool {
        self.0@.is_restricted()
    }

    /// Make a borrowed restricted expression of `expr`, after checking that
    /// it is a restricted expression.
    ///
    /// The check walks the whole of `expr`. Where it fails, the error is
    /// that of [`is_restricted`].
    pub fn new(expr: &'a Expr) -> (r: Result<BorrowedRestrictedExpr<'a>, RestrictedExpressionError>)
        ensures
            r is Ok <==> expr@.is_restricted(),
            r matches Ok(e) ==> e@ == expr@,
            r matches Err(err) ==> Err::<(), _>(err@) == check(expr@),
    {
        match is_restricted(expr) {
            Ok(()) => Ok(BorrowedRestrictedExpr(expr)),
            Err(e) => Err(e),
        }
    }

    /// Make a borrowed restricted expression of `expr` without checking
    /// anything: the caller answers for `expr` being a restricted
    /// expression.
    pub fn new_unchecked(expr: &'a Expr) -> (r: BorrowedRestrictedExpr<'a>)
        requires
            expr@.is_restricted(),
        ensures
            r@ == expr@,
    {
        BorrowedRestrictedExpr(expr)
    }

    /// A restricted expression of one's own with the same value. This costs
    /// about as much as copying the expression.
    pub fn to_owned(self) -> (r: RestrictedExpr)
        ensures
            r@ == self@,
    {
        proof {
            use_type_invariant(self);
        }
        RestrictedExpr::new_unchecked(self.0.clone())
    }

    /// The boolean that this is, or `None` where it is no boolean literal.
    pub fn as_bool(&self) -> (r: Option<bool>)
        ensures
            r == self@.as_bool(),
    {
        match self.0.expr_kind() {
            ExprKind::Lit(Literal::Bool(b)) => Some(*b),
            _ => None,
        }
    }

    /// The integer that this is, or `None` where it is no integer literal.
    pub fn as_long(&self) -> (r: Option<i64>)
        ensures
            r == self@.as_long(),
    {
        match self.0.expr_kind() {
            ExprKind::Lit(Literal::Long(i)) => Some(*i),
            _ => None,
        }
    }

    /// The string that this is, or `None` where it is no string literal.
    pub fn as_string(&self) -> (r: Option<&'a SmolStr>)
        ensures
            r is Some <==> self@.as_string() is Some,
            r matches Some(s) ==> Some(text(*s)) == self@.as_string(),
    {
        match self.0.expr_kind() {
            ExprKind::Lit(Literal::String(s)) => Some(s),
            _ => None,
        }
    }

    /// The entity that this refers to, or `None` where it is no entity
    /// reference.
    pub fn as_euid(&self) -> (r: Option<&'a EntityUID>)
        ensures
            r is Some <==> self@.as_euid() is Some,
            r matches Some(e) ==> Some(e@) == self@.as_euid(),
    {
        match self.0.expr_kind() {
            ExprKind::Lit(Literal::EntityUID(e)) => Some(e),
            _ => None,
        }
    }

    /// The unknown that this is, or `None` where it is no unknown.
    pub fn as_unknown(&self) -> (r: Option<&'a Unknown>)
        ensures
            r is Some <==> self@.as_unknown() is Some,
            r matches Some(u) ==> Some(u@) == self@.as_unknown(),
    {
        match self.0.expr_kind() {
            ExprKind::Unknown(u) => Some(u),
            _ => None,
        }
    }

    /// The elements of the set in order, or `None` where this is no set.
    ///
    /// Each element is handed out as a restricted expression without being
    /// checked again: what is inside a restricted expression is one.
    pub fn as_set_elements(&self) -> (r: Option<Vec<BorrowedRestrictedExpr<'a>>>)
        ensures
            r is Some <==> self@.as_set_elements() is Some,
            r matches Some(items) ==> Some(borrowed_exprs_view(items@))
                == self@.as_set_elements(),
            r matches Some(items) ==> forall|i: int|
                0 <= i < items.len() ==> (#[trigger] items[i])@.is_restricted(),
    {
        proof {
            use_type_invariant(self);
        }
        match self.0.expr_kind() {
            ExprKind::SetLiteral(items) => Some(borrow_all(items)),
            _ => None,
        }
    }

    /// The keys and values of the record in order, or `None` where this is
    /// no record.
    ///
    /// Each value is handed out as a restricted expression without being
    /// checked again: what is inside a restricted expression is one.
    pub fn as_record_pairs(&self) -> (r: Option<Vec<(&'a SmolStr, BorrowedRestrictedExpr<'a>)>>)
        ensures
            r is Some <==> self@.as_record_pairs() is Some,
            r matches Some(pairs) ==> Some(borrowed_pairs_view(pairs@))
                == self@.as_record_pairs(),
            r matches Some(pairs) ==> forall|i: int|
                0 <= i < pairs.len() ==> (#[trigger] pairs[i]).1@.is_restricted(),
    {
        proof {
            use_type_invariant(self);
        }
        match self.0.expr_kind() {
            ExprKind::Record(pairs) => {
                let mut out: Vec<(&'a SmolStr, BorrowedRestrictedExpr<'a>)> = Vec::new();
                let mut i: usize = 0;
                while i < pairs.len()
                    invariant
                        i <= pairs.len(),
                        out.len() == i,
                        forall|j: int|
                            0 <= j < pairs.len() ==> (#[trigger] pairs_view(
                                pairs@,
                            )[j]).1.is_restricted(),
                        forall|j: int|
                            0 <= j < i ==> text(*(#[trigger] out[j]).0) == text(pairs[j].0)
                                && out[j].1@ == pairs_view(pairs@)[j].1,
                    decreases pairs.len() - i,
                {
                    assert(pairs_view(pairs@)[i as int].1.is_restricted());
                    out.push((&pairs[i].0, BorrowedRestrictedExpr::new_unchecked(&pairs[i].1)));
                    i = i + 1;
                }
                assert(borrowed_pairs_view(out@) =~= pairs_view(pairs@));
                Some(out)
            },
            _ => None,
        }
    }

    /// The function that is called and its arguments in order, or `None`
    /// where this is no call of an extension function.
    ///
    /// Each argument is handed out as a restricted expression without being
    /// checked again: what is inside a restricted expression is one.
    pub fn as_extn_fn_call(&self) -> (r: Option<(&'a Name, Vec<BorrowedRestrictedExpr<'a>>)>)
        ensures
            r is Some <==> self@.as_extn_fn_call() is Some,
            r matches Some(call) ==> Some((call.0@, borrowed_exprs_view(call.1@)))
                == self@.as_extn_fn_call(),
            r matches Some(call) ==> forall|i: int|
                0 <= i < call.1.len() ==> (#[trigger] call.1[i])@.is_restricted(),
    {
        proof {
            use_type_invariant(self);
        }
        match self.0.expr_kind() {
            ExprKind::ExtensionFunctionApp { fn_name, args } => Some((fn_name, borrow_all(args))),
            _ => None,
        }
    }
}

impl RestrictedExpr {
    /// This restricted expression, lent out.
    pub fn as_borrowed(&self) -> (r: BorrowedRestrictedExpr<'_>)
        ensures
            r@ == self@,
    {
        proof {
            use_type_invariant(self);
        }
        BorrowedRestrictedExpr::new_unchecked(&self.0)
    }

    /// The boolean that this is, or `None` where it is no boolean literal.
    pub fn as_bool(&self) -> (r: Option<bool>)
        ensures
            r == self@.as_bool(),
    {
        self.as_borrowed().as_bool()
    }

    /// The integer that this is, or `None` where it is no integer literal.
    pub fn as_long(&self) -> (r: Option<i64>)
        ensures
            r == self@.as_long(),
    {
        self.as_borrowed().as_long()
    }

    /// The string that this is, or `None` where it is no string literal.
    pub fn as_string(&self) -> (r: Option<&SmolStr>)
        ensures
            r is Some <==> self@.as_string() is Some,
            r matches Some(s) ==> Some(text(*s)) == self@.as_string(),
    {
        self.as_borrowed().as_string()
    }

    /// The entity that this refers to, or `None` where it is no entity
    /// reference.
    pub fn as_euid(&self) -> (r: Option<&EntityUID>)
        ensures
            r is Some <==> self@.as_euid() is Some,
            r matches Some(e) ==> Some(e@) == self@.as_euid(),
    {
        self.as_borrowed().as_euid()
    }

    /// The unknown that this is, or `None` where it is no unknown.
    pub fn as_unknown(&self) -> (r: Option<&Unknown>)
        ensures
            r is Some <==> self@.as_unknown() is Some,
            r matches Some(u) ==> Some(u@) == self@.as_unknown(),
    {
        self.as_borrowed().as_unknown()
    }

    /// The elements of the set in order, or `None` where this is no set.
    ///
    /// Each element is handed out as a restricted expression without being
    /// checked again: what is inside a restricted expression is one.
    pub fn as_set_elements(&self) -> (r: Option<Vec<BorrowedRestrictedExpr<'_>>>)
        ensures
            r is Some <==> self@.as_set_elements() is Some,
            r matches Some(items) ==> Some(borrowed_exprs_view(items@))
                == self@.as_set_elements(),
            r matches Some(items) ==> forall|i: int|
                0 <= i < items.len() ==> (#[trigger] items[i])@.is_restricted(),
    {
        self.as_borrowed().as_set_elements()
    }

    /// The keys and values of the record in order, or `None` where this is
    /// no record.
    ///
    /// Each value is handed out as a restricted expression without being
    /// checked again: what is inside a restricted expression is one.
    pub fn as_record_pairs(&self) -> (r: Option<Vec<(&SmolStr, BorrowedRestrictedExpr<'_>)>>)
        ensures
            r is Some <==> self@.as_record_pairs() is Some,
            r matches Some(pairs) ==> Some(borrowed_pairs_view(pairs@))
                == self@.as_record_pairs(),
            r matches Some(pairs) ==> forall|i: int|
                0 <= i < pairs.len() ==> (#[trigger] pairs[i]).1@.is_restricted(),
    {
        self.as_borrowed().as_record_pairs()
    }

    /// The function that is called and its arguments in order, or `None`
    /// where this is no call of an extension function.
    ///
    /// Each argument is handed out as a restricted expression without being
    /// checked again: what is inside a restricted expression is one.
    pub fn as_extn_fn_call(&self) -> (r: Option<(&Name, Vec<BorrowedRestrictedExpr<'_>>)>)
        ensures
            r is Some <==> self@.as_extn_fn_call() is Some,
            r matches Some(call) ==> Some((call.0@, borrowed_exprs_view(call.1@)))
                == self@.as_extn_fn_call(),
            r matches Some(call) ==> forall|i: int|
                0 <= i < call.1.len() ==> (#[trigger] call.1[i])@.is_restricted(),
    {
        self.as_borrowed().as_extn_fn_call()
    }
}

impl Clone for RestrictedExpr {
    fn clone(&self) -> (r: RestrictedExpr)
        ensures
            r@ == self@,
    {
        self.as_borrowed().to_owned()
    }
}

impl From<RestrictedExpr> for Expr {
    /// The expression itself, given up by the restricted expression. This
    /// never fails: every restricted expression is an expression.
    fn from(r: RestrictedExpr) -> (e: Expr)
        ensures
            e@ == r@,
            e@.is_restricted(),
            e@.well_formed(),
    {
        proof {
            use_type_invariant(&r);
        }
        let _ = r.0.expr_kind();
        r.0
    }
}

impl vstd::std_specs::convert::FromSpecImpl<RestrictedExpr> for Expr {
    closed spec fn obeys_from_spec() -> bool {
        true
    }

    closed spec fn from_spec(r: RestrictedExpr) -> Expr {
        r.0
    }
}

impl AsRef<Expr> for RestrictedExpr {
    /// The expression itself. It is a restricted expression, and no record
    /// in it has the same key twice.
    fn as_ref(&self) -> (r: &Expr)
        ensures
            r@ == self@,
            r@.is_restricted(),
            r@.well_formed(),
    {
        proof {
            use_type_invariant(self);
        }
        let _ = self.0.expr_kind();
        &self.0
    }
}

impl core::ops::Deref for RestrictedExpr {
    type Target = Expr;

    fn deref(&self) -> (r: &Expr)
        ensures
            r@ == self@,
            r@.is_restricted(),
            r@.well_formed(),
    {
        self.as_ref()
    }
}

impl<'a> AsRef<Expr> for BorrowedRestrictedExpr<'a> {
    /// The expression itself. It is a restricted expression, and no record
    /// in it has the same key twice.
    fn as_ref(&self) -> (r: &Expr)
        ensures
            r@ == self@,
            r@.is_restricted(),
            r@.well_formed(),
    {
        proof {
            use_type_invariant(self);
        }
        let _ = self.0.expr_kind();
        self.0
    }
}

impl<'a> core::ops::Deref for BorrowedRestrictedExpr<'a> {
    type Target = Expr;

    fn deref(&self) -> (r: &Expr)
        ensures
            r@ == self@,
            r@.is_restricted(),
            r@.well_formed(),
    {
        self.as_ref()
    }
}

impl<'a> From<BorrowedRestrictedExpr<'a>> for &'a Expr {
    /// The expression itself. This never fails: every restricted expression
    /// is an expression.
    fn from(r: BorrowedRestrictedExpr<'a>) -> (e: &'a Expr)
        ensures
            e@ == r@,
            e@.is_restricted(),
            e@.well_formed(),
    {
        proof {
            use_type_invariant(&r);
        }
        let _ = r.0.expr_kind();
        r.0
    }
}

impl<'a> vstd::std_specs::convert::FromSpecImpl<BorrowedRestrictedExpr<'a>> for &'a Expr {
    closed spec fn obeys_from_spec() -> bool {
        true
    }

    closed spec fn from_spec(r: BorrowedRestrictedExpr<'a>) -> &'a Expr {
        r.0
    }
}

/// A borrowed restricted expression, compared and hashed by its shape: by
/// everything in it but the source positions.
///
/// The full comparison, the `==` of [`BorrowedRestrictedExpr`], tells two
/// expressions apart that were read from different places. This one does
/// not, which is what a table keyed by expressions wants.
#[derive(Debug, Eq)]
pub struct RestrictedExprShapeOnly<'a>(BorrowedRestrictedExpr<'a>);

impl<'a> Clone for RestrictedExprShapeOnly<'a> {
    fn clone(&self) -> (r: RestrictedExprShapeOnly<'a>)
        ensures
            r@ == self@,
    {
        RestrictedExprShapeOnly(self.0)
    }
}

impl<'a> View for RestrictedExprShapeOnly<'a> {
    type V = ExprView;

    closed spec fn view(&self) -> ExprView {
        self.0@
    }
}

impl<'a> RestrictedExprShapeOnly<'a> {
    /// The same restricted expression, from now on compared and hashed by
    /// its shape.
    pub fn new(e: BorrowedRestrictedExpr<'a>) -> (r: RestrictedExprShapeOnly<'a>)
        ensures
            r@ == e@,
    {
        RestrictedExprShapeOnly(e)
    }

    /// A number that is the same for any two restricted expressions of the
    /// same shape.
    pub fn shape_hash(&self) -> (r: u64)
        ensures
            r == self@.shape_digest(),
    {
        self.0.as_ref().hash_shape()
    }
}

impl<'a> PartialEq for RestrictedExprShapeOnly<'a> {
    fn eq(&self, other: &Self) -> (r: bool) {
        self.0.as_ref().eq_shape(other.0.as_ref())
    }
}

impl<'a> vstd::std_specs::cmp::PartialEqSpecImpl for RestrictedExprShapeOnly<'a> {
    open spec fn obeys_eq_spec() -> bool {
        true
    }

    open spec fn eq_spec(&self, other: &Self) -> bool {
        self@.shape() == other@.shape()
    }
}

/// `Hasher::write_u64`: feeds `x` to the hasher. Nothing is said of what
/// the hasher makes of it.
#[verifier::external_body]
fn write_u64<H: core::hash::Hasher>(state: &mut H, x: u64) {
    state.write_u64(x)
}

impl<'a> core::hash::Hash for RestrictedExprShapeOnly<'a> {
    /// The digest of the shape is all that is fed to the hasher: what has
    /// the same shape is hashed alike.
    fn hash<H: core::hash::Hasher>(&self, state: &mut H) {
        write_u64(state, self.shape_hash())
    }
}

/// Text was expected to be a restricted expression and is none.
#[derive(Debug, PartialEq, Eq)]
pub enum RestrictedExpressionParseError {
    /// The text is no expression at all.
    Parse(ParseErrors),
    /// The text is an expression, but no restricted expression.
    InvalidRestrictedExpression(RestrictedExpressionError),
}

impl From<ParseErrors> for RestrictedExpressionParseError {
    fn from(e: ParseErrors) -> (r: RestrictedExpressionParseError)
        ensures
            r == RestrictedExpressionParseError::Parse(e),
    {
        RestrictedExpressionParseError::Parse(e)
    }
}

impl vstd::std_specs::convert::FromSpecImpl<ParseErrors> for RestrictedExpressionParseError {
    open spec fn obeys_from_spec() -> bool {
        true
    }

    open spec fn from_spec(e: ParseErrors) -> RestrictedExpressionParseError {
        RestrictedExpressionParseError::Parse(e)
    }
}

impl From<RestrictedExpressionError> for RestrictedExpressionParseError {
    fn from(e: RestrictedExpressionError) -> (r: RestrictedExpressionParseError)
        ensures
            r == RestrictedExpressionParseError::InvalidRestrictedExpression(e),
    {
        RestrictedExpressionParseError::InvalidRestrictedExpression(e)
    }
}

impl vstd::std_specs::convert::FromSpecImpl<RestrictedExpressionError> for RestrictedExpressionParseError {
    open spec fn obeys_from_spec() -> bool {
        true
    }

    open spec fn from_spec(e: RestrictedExpressionError) -> RestrictedExpressionParseError {
        RestrictedExpressionParseError::InvalidRestrictedExpression(e)
    }
}

impl RestrictedExpr {
    /// Make a restricted expression of what a parser made of a text.
    ///
    /// Where the parser failed, its errors are handed on. Where it gave an
    /// expression, this is checked as [`RestrictedExpr::new`] checks it, so
    /// that text can never become a restricted expression unchecked. The
    /// caller has one error type for both: whether a text did not parse, or
    /// parsed and is no restricted expression, is told by its variant.
    pub fn from_parsed(parsed: Result<Expr, ParseErrors>) -> (r: Result<
        RestrictedExpr,
        RestrictedExpressionParseError,
    >)
        ensures
            r is Ok <==> (parsed matches Ok(expr) && expr@.is_restricted()),
            r matches Ok(e) ==> e@ == parsed->Ok_0@,
            parsed matches Err(errs) ==> r == Err::<RestrictedExpr, _>(
                RestrictedExpressionParseError::Parse(errs),
            ),
            parsed matches Ok(expr) ==> (r matches Err(
                RestrictedExpressionParseError::InvalidRestrictedExpression(err),
            ) ==> Err::<(), _>(err@) == check(expr@)),
            parsed matches Ok(expr) ==> !(r matches Err(RestrictedExpressionParseError::Parse(_))),
    {
        match parsed {
            Err(errs) => Err(RestrictedExpressionParseError::Parse(errs)),
            Ok(expr) => match RestrictedExpr::new(expr) {
                Ok(e) => Ok(e),
                Err(err) => Err(RestrictedExpressionParseError::InvalidRestrictedExpression(err)),
            },
        }
    }
}

/// The type of the literal `l`.
pub open spec fn literal_type(l: LiteralView) -> TypeView {
    match l {
        LiteralView::Bool(_) => TypeView::Bool,
        LiteralView::Long(_) => TypeView::Long,
        LiteralView::String(_) => TypeView::String,
        LiteralView::EntityUID(e) => TypeView::Entity { ty: e.ty },
    }
}

impl ExprView {
    /// The type of the value of this restricted expression, as far as it
    /// can be told without evaluating anything: that of a literal, set or
    /// record for a literal, a set or a record, and for a call of an
    /// extension function what `extensions` say that the function returns.
    /// `None` for an unknown, and for a call of which they do not say it.
    /// Only the node itself counts: a set is a set and a record a record,
    /// whatever is inside.
    pub open spec fn try_type_of(self, extensions: Seq<ExtensionFunctionView>) -> Option<TypeView> {
        match self.kind {
            ExprKindView::Lit(l) => Some(literal_type(l)),
            ExprKindView::SetLiteral(_) => Some(TypeView::SetType),
            ExprKindView::Record(_) => Some(TypeView::Record),
            ExprKindView::ExtensionFunctionApp { fn_name, .. } => return_type_from(
                extensions,
                fn_name,
                0,
            ),
            _ => None,
        }
    }
}

impl<'a> BorrowedRestrictedExpr<'a> {
    /// The type of the value of this restricted expression, where it can be
    /// told without evaluating anything.
    ///
    /// It cannot for an unknown, nor for a call of an extension function of
    /// which `extensions` do not say what it returns.
    pub fn try_type_of(&self, extensions: &Extensions) -> (r: Option<Type>)
        ensures
            maybe_type_view(r) == self@.try_type_of(extensions@),
    {
        match self.0.expr_kind() {
            ExprKind::Lit(Literal::Bool(_)) => Some(Type::Bool),
            ExprKind::Lit(Literal::Long(_)) => Some(Type::Long),
            ExprKind::Lit(Literal::String(_)) => Some(Type::String),
            ExprKind::Lit(Literal::EntityUID(e)) => Some(
                Type::Entity { ty: e.entity_type().clone() },
            ),
            ExprKind::SetLiteral(_) => Some(Type::SetType),
            ExprKind::Record(_) => Some(Type::Record),
            ExprKind::ExtensionFunctionApp { fn_name, .. } => {
                match extensions.return_type_of(fn_name) {
                    Some(t) => Some(t.clone()),
                    None => None,
                }
            },
            _ => None,
        }
    }
}

impl ExprView {
    /// Whether `sub` is this expression or lies anywhere inside it.
    pub open spec fn contains(self, sub: ExprView) -> bool
        decreases self,
    {
        self == sub || match self.kind {
            ExprKindView::Lit(_) => false,
            ExprKindView::Var(_) => false,
            ExprKindView::Slot(_) => false,
            ExprKindView::Unknown(_) => false,
            ExprKindView::If { test_expr, then_expr, else_expr } => test_expr.contains(sub)
                || then_expr.contains(sub) || else_expr.contains(sub),
            ExprKindView::And { left, right } => left.contains(sub) || right.contains(sub),
            ExprKindView::Or { left, right } => left.contains(sub) || right.contains(sub),
            ExprKindView::UnaryApp { arg, .. } => arg.contains(sub),
            ExprKindView::BinaryApp { arg1, arg2, .. } => arg1.contains(sub) || arg2.contains(
                sub,
            ),
            ExprKindView::ExtensionFunctionApp { args, .. } => exists|i: int|
                0 <= i < args.len() && (#[trigger] args[i]).contains(sub),
            ExprKindView::GetAttr { expr, .. } => expr.contains(sub),
            ExprKindView::HasAttr { expr, .. } => expr.contains(sub),
            ExprKindView::Like { expr, .. } => expr.contains(sub),
            ExprKindView::Is { expr, .. } => expr.contains(sub),
            ExprKindView::SetLiteral(items) => exists|i: int|
                0 <= i < items.len() && (#[trigger] items[i]).contains(sub),
            ExprKindView::Record(pairs) => exists|i: int|
                0 <= i < pairs.len() && (#[trigger] pairs[i]).1.contains(sub),
        }
    }

    /// How many of the eight typed accessors give something for this
    /// expression.
    pub open spec fn present_accessors(self) -> int {
        (if self.as_bool() is Some {
            1int
        } else {
            0int
        }) + (if self.as_long() is Some {
            1int
        } else {
            0int
        }) + (if self.as_string() is Some {
            1int
        } else {
            0int
        }) + (if self.as_euid() is Some {
            1int
        } else {
            0int
        }) + (if self.as_unknown() is Some {
            1int
        } else {
            0int
        }) + (if self.as_set_elements() is Some {
            1int
        } else {
            0int
        }) + (if self.as_record_pairs() is Some {
            1int
        } else {
            0int
        }) + (if self.as_extn_fn_call() is Some {
            1int
        } else {
            0int
        })
    }
}

/// Closure: what stands directly inside a restricted expression is a
/// restricted expression. Every element of a set is one, every value of a
/// record, and every argument of a call of an extension function.
pub proof fn lemma_children_restricted(e: ExprView)
    requires
        e.is_restricted(),
    ensures
        e.as_set_elements() matches Some(items) ==> forall|i: int|
            0 <= i < items.len() ==> (#[trigger] items[i]).is_restricted(),
        e.as_record_pairs() matches Some(pairs) ==> forall|i: int|
            0 <= i < pairs.len() ==> (#[trigger] pairs[i]).1.is_restricted(),
        e.as_extn_fn_call() matches Some(call) ==> forall|i: int|
            0 <= i < call.1.len() ==> (#[trigger] call.1[i]).is_restricted(),
{
}

/// Closure, all the way down: whatever lies anywhere inside a restricted
/// expression is a restricted expression.
pub proof fn lemma_contained_restricted(e: ExprView, sub: ExprView)
    requires
        e.is_restricted(),
        e.contains(sub),
    ensures
        sub.is_restricted(),
    decreases e,
{
    if e != sub {
        match e.kind {
            ExprKindView::ExtensionFunctionApp { args, .. } => {
                let i = choose|i: int| 0 <= i < args.len() && (#[trigger] args[i]).contains(sub);
                lemma_contained_restricted(args[i], sub);
            },
            ExprKindView::SetLiteral(items) => {
                let i = choose|i: int| 0 <= i < items.len() && (#[trigger] items[i]).contains(sub);
                lemma_contained_restricted(items[i], sub);
            },
            ExprKindView::Record(pairs) => {
                let i = choose|i: int|
                    0 <= i < pairs.len() && (#[trigger] pairs[i]).1.contains(sub);
                lemma_contained_restricted(pairs[i].1, sub);
            },
            _ => {},
        }
    }
}

/// Rejection: a node of a kind that may not occur in a restricted
/// expression keeps every expression that it lies in from being one,
/// however deep it lies and whatever stands around it.
pub proof fn lemma_disallowed_node_rejects(e: ExprView, sub: ExprView)
    requires
        e.contains(sub),
        !sub.kind.is_allowed(),
    ensures
        !e.is_restricted(),
{
    if e.is_restricted() {
        lemma_contained_restricted(e, sub);
    }
}

/// The node that the check reports lies in the expression that was checked:
/// it is that expression or a part of it.
pub proof fn lemma_first_violation_contained(e: ExprView)
    ensures
        e.first_violation() matches Some(v) ==> e.contains(v),
    decreases e, 0int,
{
    match e.kind {
        ExprKindView::ExtensionFunctionApp { args, .. } => {
            lemma_first_violation_from_contained(args, 0);
        },
        ExprKindView::SetLiteral(items) => {
            lemma_first_violation_from_contained(items, 0);
        },
        ExprKindView::Record(pairs) => {
            lemma_first_violation_from_values_contained(pairs, 0);
        },
        _ => {},
    }
}

/// What [`lemma_first_violation_contained`] says, of the items of a list
/// from position `start` on.
pub proof fn lemma_first_violation_from_contained(items: Seq<ExprView>, start: int)
    requires
        0 <= start <= items.len(),
    ensures
        first_violation_from(items, start) matches Some(v) ==> exists|i: int|
            0 <= i < items.len() && (#[trigger] items[i]).contains(v),
    decreases items, items.len() - start,
{
    if start < items.len() {
        lemma_first_violation_contained(items[start]);
        lemma_first_violation_from_contained(items, start + 1);
        if items[start].first_violation() is Some {
            assert(items[start].contains(items[start].first_violation().unwrap()));
        }
    }
}

/// What [`lemma_first_violation_contained`] says, of the values of a list of
/// keys and values from position `start` on.
pub proof fn lemma_first_violation_from_values_contained(
    pairs: Seq<(Seq<char>, ExprView)>,
    start: int,
)
    requires
        0 <= start <= pairs.len(),
    ensures
        first_violation_from_values(pairs, start) matches Some(v) ==> exists|i: int|
            0 <= i < pairs.len() && (#[trigger] pairs[i]).1.contains(v),
    decreases pairs, pairs.len() - start,
{
    if start < pairs.len() {
        lemma_first_violation_contained(pairs[start].1);
        lemma_first_violation_from_values_contained(pairs, start + 1);
        if pairs[start].1.first_violation() is Some {
            assert(pairs[start].1.contains(pairs[start].1.first_violation().unwrap()));
        }
    }
}

/// Exhaustiveness of the typed accessors: of a restricted expression,
/// exactly one of the eight gives something.
pub proof fn lemma_exactly_one_accessor(e: ExprView)
    requires
        e.is_restricted(),
    ensures
        e.present_accessors() == 1,
{
}

} // verus!
