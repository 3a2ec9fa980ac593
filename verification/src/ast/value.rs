//! Fully evaluated values, partially evaluated values, and how they become
//! restricted expressions.

use crate::ast::expr::{Expr, ExprKindView, ExprView, Literal, LiteralView};
use crate::ast::name::{Name, NameView};
use crate::ast::expr::record_keys;
use crate::ast::restricted_expr::{
    is_restricted, restricted_exprs_view, restricted_pairs_view, RestrictedExpr,
};
use crate::ast::text::{find_first_repeat, keys_of, text};
use crate::parser::{maybe_loc_view, LocView, MaybeLoc};
use smol_str::SmolStr;
use vstd::prelude::*;

verus! {

/// A value of an extension type, held as the call of an extension function
/// that makes it.
#[derive(Debug, PartialEq, Eq)]
pub struct RepresentableExtensionValue {
    func: Name,
    args: Vec<RestrictedExpr>,
}

/// The mathematical value of a [`RepresentableExtensionValue`].
pub struct ExtensionValueView {
    pub func: NameView,
    pub args: Seq<ExprView>,
}

impl View for RepresentableExtensionValue {
    type V = ExtensionValueView;

    closed spec fn view(&self) -> ExtensionValueView {
        ExtensionValueView { func: self.func@, args: restricted_exprs_view(self.args@) }
    }
}

impl RepresentableExtensionValue {
    /// The value that the call of `func` on `args` makes.
    pub fn new(func: Name, args: Vec<RestrictedExpr>) -> (r: RepresentableExtensionValue)
        ensures
            r@ == (ExtensionValueView { func: func@, args: restricted_exprs_view(args@) }),
    {
        RepresentableExtensionValue { func, args }
    }

    /// The call that makes this value, as a restricted expression without a
    /// source position.
    pub fn into_restricted_expr(self) -> (r: RestrictedExpr)
        ensures
            r@ == (ExprView {
                kind: ExprKindView::ExtensionFunctionApp { fn_name: self@.func, args: self@.args },
                loc: None,
            }),
    {
        RestrictedExpr::call_extension_fn(self.func, self.args)
    }
}

/// The keys and values of a record value. No key occurs twice.
#[derive(Debug, PartialEq, Eq)]
pub struct ValueRecord {
    pairs: Vec<(SmolStr, Value)>,
}

impl View for ValueRecord {
    type V = Seq<(Seq<char>, ValueView)>;

    closed spec fn view(&self) -> Seq<(Seq<char>, ValueView)> {
        value_pairs_view(self.pairs@)
    }
}

impl ValueRecord {
    /// No key occurs twice.
    #[verifier::type_invariant]
    spec fn type_inv(self) -> bool {
        keys_of(self.pairs@).no_duplicates()
    }

    /// The record of the given keys and values, in the order given, or
    /// `None` where a key occurs twice.
    pub fn new(pairs: Vec<(SmolStr, Value)>) -> (r: Option<ValueRecord>)
        ensures
            r is Some <==> keys_of(pairs@).no_duplicates(),
            r matches Some(rec) ==> rec@ == value_pairs_view(pairs@),
    {
        match find_first_repeat(&pairs) {
            Some(_) => None,
            None => Some(ValueRecord { pairs }),
        }
    }

    /// The keys and values, given up by the record.
    pub fn into_pairs(self) -> (r: Vec<(SmolStr, Value)>)
        ensures
            value_pairs_view(r@) == self@,
            keys_of(r@).no_duplicates(),
            value_keys(self@).no_duplicates(),
    {
        proof {
            use_type_invariant(&self);
            assert(value_keys(value_pairs_view(self.pairs@)) =~= keys_of(self.pairs@));
        }
        self.pairs
    }
}

/// A fully evaluated value, with the place it came from.
#[derive(Debug, PartialEq, Eq)]
pub struct Value {
    /// What the value is.
    pub value: ValueKind,
    /// Where it came from.
    pub loc: MaybeLoc,
}

/// What a fully evaluated value is.
#[derive(Debug, PartialEq, Eq)]
pub enum ValueKind {
    /// A literal.
    Lit(Literal),
    /// A set: its elements, in the order in which they are gone through.
    SetValue(Vec<Value>),
    /// A record: its keys, all different, each with its value.
    Record(ValueRecord),
    /// A value of an extension type.
    ExtensionValue(RepresentableExtensionValue),
}

/// The mathematical value of a [`Value`].
pub struct ValueView {
    pub kind: ValueKindView,
    pub loc: Option<LocView>,
}

/// The mathematical value of a [`ValueKind`].
pub enum ValueKindView {
    Lit(LiteralView),
    SetValue(Seq<ValueView>),
    Record(Seq<(Seq<char>, ValueView)>),
    ExtensionValue { func: NameView, args: Seq<ExprView> },
}

/// The mathematical value of a fully evaluated value.
pub open spec fn value_view(v: Value) -> ValueView
    decreases v,
{
    ValueView { kind: value_kind_view(v.value), loc: maybe_loc_view(v.loc) }
}

/// The mathematical values of a list of values.
pub open spec fn values_view(items: Seq<Value>) -> Seq<ValueView>
    decreases items,
{
    Seq::new(
        items.len(),
        |i: int|
            if 0 <= i < items.len() {
                value_view(items[i])
            } else {
                arbitrary()
            },
    )
}

/// The mathematical values of a list of keys and values.
pub open spec fn value_pairs_view(pairs: Seq<(SmolStr, Value)>) -> Seq<(Seq<char>, ValueView)>
    decreases pairs,
{
    Seq::new(
        pairs.len(),
        |i: int|
            if 0 <= i < pairs.len() {
                (text(pairs[i].0), value_view(pairs[i].1))
            } else {
                arbitrary()
            },
    )
}

/// The mathematical value of what a value is.
pub closed spec fn value_kind_view(k: ValueKind) -> ValueKindView
    decreases k,
{
    match k {
        ValueKind::Lit(l) => ValueKindView::Lit(l@),
        ValueKind::SetValue(items) => ValueKindView::SetValue(values_view(items@)),
        ValueKind::Record(rec) => ValueKindView::Record(value_pairs_view(rec.pairs@)),
        ValueKind::ExtensionValue(ev) => ValueKindView::ExtensionValue {
            func: ev.func@,
            args: restricted_exprs_view(ev.args@),
        },
    }
}

/// What the mathematical value of each kind of value is.
pub proof fn lemma_value_kind_view(k: ValueKind)
    ensures
        k matches ValueKind::Lit(l) ==> k@ == ValueKindView::Lit(l@),
        k matches ValueKind::SetValue(items) ==> k@ == ValueKindView::SetValue(
            values_view(items@),
        ),
        k matches ValueKind::Record(rec) ==> k@ == ValueKindView::Record(rec@),
        k matches ValueKind::ExtensionValue(ev) ==> k@ == (ValueKindView::ExtensionValue {
            func: ev@.func,
            args: ev@.args,
        }),
{
}

impl View for Value {
    type V = ValueView;

    open spec fn view(&self) -> ValueView {
        value_view(*self)
    }
}

impl View for ValueKind {
    type V = ValueKindView;

    open spec fn view(&self) -> ValueKindView {
        value_kind_view(*self)
    }
}

/// The keys of a list of keys and values, in order.
pub open spec fn value_keys(pairs: Seq<(Seq<char>, ValueView)>) -> Seq<Seq<char>> {
    Seq::new(pairs.len(), |i: int| pairs[i].0)
}

/// The restricted expressions for a list of values.
pub open spec fn to_exprs(items: Seq<ValueView>) -> Seq<ExprView>
    decreases items,
{
    Seq::new(
        items.len(),
        |i: int|
            if 0 <= i < items.len() {
                items[i].to_expr()
            } else {
                arbitrary()
            },
    )
}

/// The keys of a list of keys and values, each with the restricted
/// expression for its value.
pub open spec fn to_expr_pairs(pairs: Seq<(Seq<char>, ValueView)>) -> Seq<(Seq<char>, ExprView)>
    decreases pairs,
{
    Seq::new(
        pairs.len(),
        |i: int|
            if 0 <= i < pairs.len() {
                (pairs[i].0, pairs[i].1.to_expr())
            } else {
                arbitrary()
            },
    )
}

impl ValueKindView {
    /// The restricted expression for a value of this kind, but for its
    /// source position.
    pub open spec fn to_expr_kind(self) -> ExprKindView
        decreases self,
    {
        match self {
            ValueKindView::Lit(l) => ExprKindView::Lit(l),
            ValueKindView::SetValue(items) => ExprKindView::SetLiteral(to_exprs(items)),
            ValueKindView::Record(pairs) => ExprKindView::Record(to_expr_pairs(pairs)),
            ValueKindView::ExtensionValue { func, args } => ExprKindView::ExtensionFunctionApp {
                fn_name: func,
                args,
            },
        }
    }
}

impl ValueView {
    /// Whether this is a value as the evaluator makes them: no record in it
    /// has the same key twice, and what makes a value of an extension type
    /// is a call on restricted expressions in which no record has the same
    /// key twice either.
    pub open spec fn well_formed(self) -> bool
        decreases self,
    {
        match self.kind {
            ValueKindView::Lit(_) => true,
            ValueKindView::SetValue(items) => forall|i: int|
                0 <= i < items.len() ==> (#[trigger] items[i]).well_formed(),
            ValueKindView::Record(pairs) => value_keys(pairs).no_duplicates() && forall|i: int|
                0 <= i < pairs.len() ==> (#[trigger] pairs[i]).1.well_formed(),
            ValueKindView::ExtensionValue { args, .. } => forall|i: int|
                0 <= i < args.len() ==> (#[trigger] args[i]).is_restricted()
                    && args[i].well_formed(),
        }
    }

    /// The restricted expression for this value: a literal for a literal, a
    /// set of the expressions for its elements for a set, in the same order,
    /// a record of the expressions for its values for a record, under the
    /// same keys in the same order, and for a value of an extension type
    /// the call that makes it. Each node has the source position of the
    /// value that it stands for.
    pub open spec fn to_expr(self) -> ExprView
        decreases self,
    {
        ExprView { kind: self.kind.to_expr_kind(), loc: self.loc }
    }
}

/// The values that a list of expressions denotes, where each denotes one.
pub open spec fn to_values(items: Seq<ExprView>) -> Seq<ValueView>
    decreases items,
{
    Seq::new(
        items.len(),
        |i: int|
            if 0 <= i < items.len() {
                items[i].to_value().unwrap()
            } else {
                arbitrary()
            },
    )
}

/// The keys of a list of keys and expressions, each with the value that its
/// expression denotes, where each denotes one.
pub open spec fn to_value_pairs(pairs: Seq<(Seq<char>, ExprView)>) -> Seq<(Seq<char>, ValueView)>
    decreases pairs,
{
    Seq::new(
        pairs.len(),
        |i: int|
            if 0 <= i < pairs.len() {
                (pairs[i].0, pairs[i].1.to_value().unwrap())
            } else {
                arbitrary()
            },
    )
}

impl ExprView {
    /// The value that this expression denotes, where it denotes one without
    /// anything being known of its surroundings: a literal denotes itself, a
    /// set of such expressions the set of their values, a record of such
    /// expressions the record of their values, and a call of an extension
    /// function on restricted expressions the value that this call makes.
    /// Nothing else denotes a value: not an unknown, nor anything that is no
    /// restricted expression.
    pub open spec fn to_value(self) -> Option<ValueView>
        decreases self,
    {
        match self.kind {
            ExprKindView::Lit(l) => Some(ValueView { kind: ValueKindView::Lit(l), loc: self.loc }),
            ExprKindView::SetLiteral(items) => if forall|i: int|
                0 <= i < items.len() ==> (#[trigger] items[i]).to_value() is Some {
                Some(ValueView { kind: ValueKindView::SetValue(to_values(items)), loc: self.loc })
            } else {
                None
            },
            ExprKindView::Record(pairs) => if forall|i: int|
                0 <= i < pairs.len() ==> (#[trigger] pairs[i]).1.to_value() is Some {
                Some(
                    ValueView { kind: ValueKindView::Record(to_value_pairs(pairs)), loc: self.loc },
                )
            } else {
                None
            },
            ExprKindView::ExtensionFunctionApp { fn_name, args } => if forall|i: int|
                0 <= i < args.len() ==> (#[trigger] args[i]).is_restricted() {
                Some(
                    ValueView {
                        kind: ValueKindView::ExtensionValue { func: fn_name, args },
                        loc: self.loc,
                    },
                )
            } else {
                None
            },
            _ => None,
        }
    }
}

/// Round trip: the restricted expression for a value is a restricted
/// expression in which no record has the same key twice, and it denotes the
/// value that it was made from: the same literal, the same elements in the
/// same order, the same entries.
pub proof fn lemma_value_round_trip(v: ValueView)
    requires
        v.well_formed(),
    ensures
        v.to_expr().is_restricted(),
        v.to_expr().well_formed(),
        v.to_expr().to_value() == Some(v),
    decreases v,
{
    match v.kind {
        ValueKindView::Lit(_) => {},
        ValueKindView::SetValue(items) => {
            assert forall|i: int| 0 <= i < items.len() implies {
                &&& (#[trigger] to_exprs(items)[i]).is_restricted()
                &&& to_exprs(items)[i].well_formed()
                &&& to_exprs(items)[i].to_value() == Some(items[i])
            } by {
                lemma_value_round_trip(items[i]);
            }
            assert(to_values(to_exprs(items)) =~= items);
        },
        ValueKindView::Record(pairs) => {
            assert forall|i: int| 0 <= i < pairs.len() implies {
                &&& (#[trigger] to_expr_pairs(pairs)[i]).1.is_restricted()
                &&& to_expr_pairs(pairs)[i].1.well_formed()
                &&& to_expr_pairs(pairs)[i].1.to_value() == Some(pairs[i].1)
            } by {
                lemma_value_round_trip(pairs[i].1);
            }
            assert(to_value_pairs(to_expr_pairs(pairs)) =~= pairs);
            assert(record_keys(to_expr_pairs(pairs)) =~= value_keys(pairs));
        },
        ValueKindView::ExtensionValue { .. } => {},
    }
}

/// The restricted expressions for the values `items`, in the same order.
fn values_to_restricted_exprs(items: Vec<Value>) -> (r: Vec<RestrictedExpr>)
    ensures
        restricted_exprs_view(r@) == to_exprs(values_view(items@)),
    decreases values_view(items@), 0int,
{
    let ghost views = values_view(items@);
    let mut out: Vec<RestrictedExpr> = Vec::new();
    for v in it: items
        invariant
            it.seq() == items@,
            views == values_view(items@),
            out.len() == it.index(),
            forall|j: int| 0 <= j < out.len() ==> (#[trigger] out[j])@ == views[j].to_expr(),
    {
        assert(views[it.index() as int] == v@);
        let e = value_to_restricted_expr(v);
        out.push(e);
    }
    assert(restricted_exprs_view(out@) =~= to_exprs(views));
    out
}

/// The keys of `pairs`, each with the restricted expression for its value,
/// in the same order.
fn value_pairs_to_restricted_exprs(pairs: Vec<(SmolStr, Value)>) -> (r: Vec<
    (SmolStr, RestrictedExpr),
>)
    ensures
        restricted_pairs_view(r@) == to_expr_pairs(value_pairs_view(pairs@)),
        keys_of(r@) == keys_of(pairs@),
    decreases value_pairs_view(pairs@), 0int,
{
    let ghost views = value_pairs_view(pairs@);
    let mut out: Vec<(SmolStr, RestrictedExpr)> = Vec::new();
    for p in it: pairs
        invariant
            it.seq() == pairs@,
            views == value_pairs_view(pairs@),
            out.len() == it.index(),
            forall|j: int|
                0 <= j < out.len() ==> text((#[trigger] out[j]).0) == views[j].0 && out[j].1@
                    == views[j].1.to_expr(),
    {
        assert(views[it.index() as int].1 == p.1@);
        let (k, v) = p;
        let e = value_to_restricted_expr(v);
        out.push((k, e));
    }
    assert(restricted_pairs_view(out@) =~= to_expr_pairs(views));
    assert(keys_of(out@) =~= keys_of(pairs@));
    out
}

/// The restricted expression for what the value `kind` is, without a source
/// position.
fn value_kind_to_restricted_expr(kind: ValueKind) -> (r: RestrictedExpr)
    ensures
        r@ == (ExprView { kind: kind@.to_expr_kind(), loc: None }),
    decreases kind@, 0int,
{
    proof {
        lemma_value_kind_view(kind);
    }
    match kind {
        ValueKind::Lit(lit) => RestrictedExpr::val(lit),
        ValueKind::SetValue(items) => RestrictedExpr::set(values_to_restricted_exprs(items)),
        ValueKind::Record(record) => {
            let pairs = record.into_pairs();
            let items = value_pairs_to_restricted_exprs(pairs);
            match RestrictedExpr::record(items) {
                Ok(e) => e,
                Err(_) => unreached(),
            }
        },
        ValueKind::ExtensionValue(ev) => ev.into_restricted_expr(),
    }
}

/// The restricted expression for the value `value`.
fn value_to_restricted_expr(value: Value) -> (r: RestrictedExpr)
    ensures
        r@ == value@.to_expr(),
    decreases value@, 1int,
{
    value_kind_to_restricted_expr(value.value).with_maybe_source_loc(value.loc)
}

impl From<Value> for RestrictedExpr {
    /// The restricted expression for a value. There is one for every value,
    /// and nothing of the value is lost in it.
    fn from(value: Value) -> (r: RestrictedExpr)
        ensures
            r@ == value@.to_expr(),
    {
        value_to_restricted_expr(value)
    }
}

impl vstd::std_specs::convert::FromSpecImpl<Value> for RestrictedExpr {
    /// The restricted expression made from a value is known by its value
    /// only.
    open spec fn obeys_from_spec() -> bool {
        false
    }

    open spec fn from_spec(value: Value) -> RestrictedExpr {
        arbitrary()
    }
}

impl From<ValueKind> for RestrictedExpr {
    /// The restricted expression for what a value is, without a source
    /// position.
    fn from(value: ValueKind) -> (r: RestrictedExpr)
        ensures
            r@ == (ExprView { kind: value@.to_expr_kind(), loc: None }),
    {
        value_kind_to_restricted_expr(value)
    }
}

impl vstd::std_specs::convert::FromSpecImpl<ValueKind> for RestrictedExpr {
    /// The restricted expression made from a value is known by its value
    /// only.
    open spec fn obeys_from_spec() -> bool {
        false
    }

    open spec fn from_spec(value: ValueKind) -> RestrictedExpr {
        arbitrary()
    }
}

/// What evaluation gives where not everything is known: a value, or what is
/// left of an expression that could not be evaluated to the end.
#[derive(Debug, PartialEq, Eq)]
pub enum PartialValue {
    /// A fully evaluated value.
    Value(Value),
    /// An expression that could not be evaluated further.
    Residual(Expr),
}

/// The mathematical value of a [`PartialValue`].
pub enum PartialValueView {
    Value(ValueView),
    Residual(ExprView),
}

impl View for PartialValue {
    type V = PartialValueView;

    open spec fn view(&self) -> PartialValueView {
        match *self {
            PartialValue::Value(v) => PartialValueView::Value(v@),
            PartialValue::Residual(e) => PartialValueView::Residual(e@),
        }
    }
}

/// A partially evaluated value has no restricted expression.
#[derive(Debug, PartialEq, Eq)]
pub enum PartialValueToRestrictedExprError {
    /// What is left of the expression is no restricted expression.
    NontrivialResidual {
        /// What is left of the expression.
        residual: Box<Expr>,
    },
}

/// The mathematical value of a [`PartialValueToRestrictedExprError`].
pub enum PartialValueToRestrictedExprErrorView {
    NontrivialResidual { residual: ExprView },
}

impl View for PartialValueToRestrictedExprError {
    type V = PartialValueToRestrictedExprErrorView;

    open spec fn view(&self) -> PartialValueToRestrictedExprErrorView {
        match *self {
            PartialValueToRestrictedExprError::NontrivialResidual { residual } => {
                PartialValueToRestrictedExprErrorView::NontrivialResidual { residual: residual@ }
            },
        }
    }
}

impl PartialValueView {
    /// The restricted expression for a partially evaluated value: that of
    /// the value where it is one; else what is left of the expression, where
    /// that is a restricted expression as it stands. Nothing is made to fit:
    /// where it is none, there is only the error that carries it.
    pub open spec fn to_expr(self) -> Result<ExprView, PartialValueToRestrictedExprErrorView> {
        match self {
            PartialValueView::Value(v) => Ok(v.to_expr()),
            PartialValueView::Residual(e) => if e.is_restricted() {
                Ok(e)
            } else {
                Err(PartialValueToRestrictedExprErrorView::NontrivialResidual { residual: e })
            },
        }
    }
}

/// The outcome of a conversion, as a mathematical value.
pub open spec fn conversion_view(
    r: Result<RestrictedExpr, PartialValueToRestrictedExprError>,
) -> Result<ExprView, PartialValueToRestrictedExprErrorView> {
    match r {
        Ok(e) => Ok(e@),
        Err(err) => Err(err@),
    }
}

impl TryFrom<PartialValue> for RestrictedExpr {
    type Error = PartialValueToRestrictedExprError;

    /// The restricted expression for a partially evaluated value, where
    /// there is one.
    fn try_from(pvalue: PartialValue) -> (r: Result<
        RestrictedExpr,
        PartialValueToRestrictedExprError,
    >)
        ensures
            conversion_view(r) == pvalue@.to_expr(),
    {
        match pvalue {
            PartialValue::Value(v) => Ok(RestrictedExpr::from(v)),
            PartialValue::Residual(expr) => match is_restricted(&expr) {
                Ok(()) => Ok(RestrictedExpr::new_unchecked(expr)),
                Err(_) => Err(
                    PartialValueToRestrictedExprError::NontrivialResidual {
                        residual: Box::new(expr),
                    },
                ),
            },
        }
    }
}

impl vstd::std_specs::convert::TryFromSpecImpl<PartialValue> for RestrictedExpr {
    /// The outcome of the conversion is known by its value only.
    open spec fn obeys_try_from_spec() -> bool {
        false
    }

    open spec fn try_from_spec(pvalue: PartialValue) -> Result<
        RestrictedExpr,
        PartialValueToRestrictedExprError,
    > {
        arbitrary()
    }
}

} // verus!
