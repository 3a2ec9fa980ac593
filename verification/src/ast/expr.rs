//! The general expression tree.

use crate::ast::expression_construction_errors::{
    DuplicateKeyError, DuplicateKeyErrorView, ExpressionConstructionError,
    ExpressionConstructionErrorView,
};
use crate::ast::name::{EntityUID, EntityUIDView, Name, NameView};
use crate::ast::text::{find_first_repeat, is_first_repeat, keys_of, smol_str_new, text};
use crate::parser::{clone_maybe_loc, maybe_loc_view, LocView, MaybeLoc};
use smol_str::SmolStr;
use vstd::prelude::*;

verus! {

/// The four variables that a policy may mention.
#[derive(Debug, Clone, Copy, PartialEq, Eq, Hash, Structural)]
pub enum Var {
    Principal,
    Action,
    Resource,
    Context,
}

/// The slots that a policy template may leave open.
#[derive(Debug, Clone, Copy, PartialEq, Eq, Hash, Structural)]
pub enum SlotId {
    Principal,
    Resource,
}

/// The operators that take one argument.
#[derive(Debug, Clone, Copy, PartialEq, Eq, Hash, Structural)]
pub enum UnaryOp {
    Not,
    Neg,
    IsEmpty,
}

/// The operators that take two arguments.
#[derive(Debug, Clone, Copy, PartialEq, Eq, Hash, Structural)]
pub enum BinaryOp {
    Eq,
    Less,
    LessEq,
    Add,
    Sub,
    Mul,
    In,
    Contains,
    ContainsAll,
    ContainsAny,
    GetTag,
    HasTag,
}

/// The symbol by which an operator of one argument is written.
pub open spec fn unary_op_symbol(op: UnaryOp) -> Seq<char> {
    match op {
        UnaryOp::Not => "!"@,
        UnaryOp::Neg => "-"@,
        UnaryOp::IsEmpty => "isEmpty"@,
    }
}

/// The symbol by which an operator of two arguments is written.
pub open spec fn binary_op_symbol(op: BinaryOp) -> Seq<char> {
    match op {
        BinaryOp::Eq => "=="@,
        BinaryOp::Less => "<"@,
        BinaryOp::LessEq => "<="@,
        BinaryOp::Add => "+"@,
        BinaryOp::Sub => "-"@,
        BinaryOp::Mul => "*"@,
        BinaryOp::In => "in"@,
        BinaryOp::Contains => "contains"@,
        BinaryOp::ContainsAll => "containsAll"@,
        BinaryOp::ContainsAny => "containsAny"@,
        BinaryOp::GetTag => "getTag"@,
        BinaryOp::HasTag => "hasTag"@,
    }
}

impl UnaryOp {
    /// The symbol by which this operator is written.
    pub fn symbol(&self) -> (r: &'static str)
        ensures
            r@ == unary_op_symbol(*self),
    {
        match self {
            UnaryOp::Not => "!",
            UnaryOp::Neg => "-",
            UnaryOp::IsEmpty => "isEmpty",
        }
    }
}

impl BinaryOp {
    /// The symbol by which this operator is written.
    pub fn symbol(&self) -> (r: &'static str)
        ensures
            r@ == binary_op_symbol(*self),
    {
        match self {
            BinaryOp::Eq => "==",
            BinaryOp::Less => "<",
            BinaryOp::LessEq => "<=",
            BinaryOp::Add => "+",
            BinaryOp::Sub => "-",
            BinaryOp::Mul => "*",
            BinaryOp::In => "in",
            BinaryOp::Contains => "contains",
            BinaryOp::ContainsAll => "containsAll",
            BinaryOp::ContainsAny => "containsAny",
            BinaryOp::GetTag => "getTag",
            BinaryOp::HasTag => "hasTag",
        }
    }
}

/// One element of the pattern on the right of `like`.
#[derive(Debug, Clone, Copy, PartialEq, Eq, Hash, Structural)]
pub enum PatternElem {
    Char(char),
    Wildcard,
}

/// A placeholder for a value that is not known yet.
#[derive(Debug, PartialEq, Eq, Hash)]
pub struct Unknown {
    pub name: SmolStr,
}

/// The mathematical value of an [`Unknown`].
pub struct UnknownView {
    pub name: Seq<char>,
}

impl View for Unknown {
    type V = UnknownView;

    open spec fn view(&self) -> UnknownView {
        UnknownView { name: text(self.name) }
    }
}

/// A literal value.
#[derive(Debug, PartialEq, Eq, Hash)]
pub enum Literal {
    Bool(bool),
    Long(i64),
    String(SmolStr),
    EntityUID(EntityUID),
}

/// The mathematical value of a [`Literal`].
pub enum LiteralView {
    Bool(bool),
    Long(i64),
    String(Seq<char>),
    EntityUID(EntityUIDView),
}

impl View for Literal {
    type V = LiteralView;

    open spec fn view(&self) -> LiteralView {
        match *self {
            Literal::Bool(b) => LiteralView::Bool(b),
            Literal::Long(i) => LiteralView::Long(i),
            Literal::String(s) => LiteralView::String(text(s)),
            Literal::EntityUID(e) => LiteralView::EntityUID(e@),
        }
    }
}

/// A node of the expression tree, with the place it was read from.
#[derive(Debug, Eq, Hash)]
pub struct Expr {
    pub(crate) expr_kind: ExprKind,
    pub(crate) source_loc: MaybeLoc,
}

/// What a node of the expression tree is, and its children.
#[allow(inconsistent_fields)]
#[derive(Debug, Eq, Hash)]
pub enum ExprKind {
    Lit(Literal),
    Var(Var),
    Slot(SlotId),
    Unknown(Unknown),
    If { test_expr: Box<Expr>, then_expr: Box<Expr>, else_expr: Box<Expr> },
    And { left: Box<Expr>, right: Box<Expr> },
    Or { left: Box<Expr>, right: Box<Expr> },
    UnaryApp { op: UnaryOp, arg: Box<Expr> },
    BinaryApp { op: BinaryOp, arg1: Box<Expr>, arg2: Box<Expr> },
    ExtensionFunctionApp { fn_name: Name, args: Vec<Expr> },
    GetAttr { expr: Box<Expr>, attr: SmolStr },
    HasAttr { expr: Box<Expr>, attr: SmolStr },
    Like { expr: Box<Expr>, pattern: Vec<PatternElem> },
    Is { expr: Box<Expr>, entity_type: Name },
    SetLiteral(Vec<Expr>),
    Record(Vec<(SmolStr, Expr)>),
}

/// The mathematical value of an [`Expr`].
pub struct ExprView {
    pub kind: ExprKindView,
    pub loc: Option<LocView>,
}

/// The mathematical value of an [`ExprKind`].
#[allow(inconsistent_fields)]
pub enum ExprKindView {
    Lit(LiteralView),
    Var(Var),
    Slot(SlotId),
    Unknown(UnknownView),
    If { test_expr: Box<ExprView>, then_expr: Box<ExprView>, else_expr: Box<ExprView> },
    And { left: Box<ExprView>, right: Box<ExprView> },
    Or { left: Box<ExprView>, right: Box<ExprView> },
    UnaryApp { op: UnaryOp, arg: Box<ExprView> },
    BinaryApp { op: BinaryOp, arg1: Box<ExprView>, arg2: Box<ExprView> },
    ExtensionFunctionApp { fn_name: NameView, args: Seq<ExprView> },
    GetAttr { expr: Box<ExprView>, attr: Seq<char> },
    HasAttr { expr: Box<ExprView>, attr: Seq<char> },
    Like { expr: Box<ExprView>, pattern: Seq<PatternElem> },
    Is { expr: Box<ExprView>, entity_type: NameView },
    SetLiteral(Seq<ExprView>),
    Record(Seq<(Seq<char>, ExprView)>),
}

/// The mathematical value of an expression.
pub closed spec fn expr_view(e: Expr) -> ExprView
    decreases e,
{
    ExprView { kind: kind_view(e.expr_kind), loc: maybe_loc_view(e.source_loc) }
}

/// The mathematical values of a list of expressions.
pub open spec fn exprs_view(items: Seq<Expr>) -> Seq<ExprView>
    decreases items,
{
    Seq::new(
        items.len(),
        |i: int|
            if 0 <= i < items.len() {
                expr_view(items[i])
            } else {
                arbitrary()
            },
    )
}

/// The mathematical values of a list of keys and expressions.
pub open spec fn pairs_view(pairs: Seq<(SmolStr, Expr)>) -> Seq<(Seq<char>, ExprView)>
    decreases pairs,
{
    Seq::new(
        pairs.len(),
        |i: int|
            if 0 <= i < pairs.len() {
                (text(pairs[i].0), expr_view(pairs[i].1))
            } else {
                arbitrary()
            },
    )
}

/// The mathematical value of what a node is.
pub open spec fn kind_view(k: ExprKind) -> ExprKindView
    decreases k,
{
    match k {
        ExprKind::Lit(l) => ExprKindView::Lit(l@),
        ExprKind::Var(v) => ExprKindView::Var(v),
        ExprKind::Slot(s) => ExprKindView::Slot(s),
        ExprKind::Unknown(u) => ExprKindView::Unknown(u@),
        ExprKind::If { test_expr, then_expr, else_expr } => ExprKindView::If {
            test_expr: Box::new(expr_view(*test_expr)),
            then_expr: Box::new(expr_view(*then_expr)),
            else_expr: Box::new(expr_view(*else_expr)),
        },
        ExprKind::And { left, right } => ExprKindView::And {
            left: Box::new(expr_view(*left)),
            right: Box::new(expr_view(*right)),
        },
        ExprKind::Or { left, right } => ExprKindView::Or {
            left: Box::new(expr_view(*left)),
            right: Box::new(expr_view(*right)),
        },
        ExprKind::UnaryApp { op, arg } => ExprKindView::UnaryApp {
            op,
            arg: Box::new(expr_view(*arg)),
        },
        ExprKind::BinaryApp { op, arg1, arg2 } => ExprKindView::BinaryApp {
            op,
            arg1: Box::new(expr_view(*arg1)),
            arg2: Box::new(expr_view(*arg2)),
        },
        ExprKind::ExtensionFunctionApp { fn_name, args } => ExprKindView::ExtensionFunctionApp {
            fn_name: fn_name@,
            args: exprs_view(args@),
        },
        ExprKind::GetAttr { expr, attr } => ExprKindView::GetAttr {
            expr: Box::new(expr_view(*expr)),
            attr: text(attr),
        },
        ExprKind::HasAttr { expr, attr } => ExprKindView::HasAttr {
            expr: Box::new(expr_view(*expr)),
            attr: text(attr),
        },
        ExprKind::Like { expr, pattern } => ExprKindView::Like {
            expr: Box::new(expr_view(*expr)),
            pattern: pattern@,
        },
        ExprKind::Is { expr, entity_type } => ExprKindView::Is {
            expr: Box::new(expr_view(*expr)),
            entity_type: entity_type@,
        },
        ExprKind::SetLiteral(items) => ExprKindView::SetLiteral(exprs_view(items@)),
        ExprKind::Record(pairs) => ExprKindView::Record(pairs_view(pairs@)),
    }
}

/// The mathematical value of an expression, by its parts.
pub(crate) proof fn lemma_expr_view(e: Expr)
    ensures
        e@ == (ExprView { kind: e.expr_kind@, loc: maybe_loc_view(e.source_loc) }),
{
}

impl View for Expr {
    type V = ExprView;

    open spec fn view(&self) -> ExprView {
        expr_view(*self)
    }
}

impl View for ExprKind {
    type V = ExprKindView;

    open spec fn view(&self) -> ExprKindView {
        kind_view(*self)
    }
}

impl From<bool> for Literal {
    fn from(b: bool) -> (r: Literal)
        ensures
            r@ == LiteralView::Bool(b),
    {
        Literal::Bool(b)
    }
}

impl vstd::std_specs::convert::FromSpecImpl<bool> for Literal {
    open spec fn obeys_from_spec() -> bool {
        true
    }

    open spec fn from_spec(b: bool) -> Literal {
        Literal::Bool(b)
    }
}

impl From<i64> for Literal {
    fn from(i: i64) -> (r: Literal)
        ensures
            r@ == LiteralView::Long(i),
    {
        Literal::Long(i)
    }
}

impl vstd::std_specs::convert::FromSpecImpl<i64> for Literal {
    open spec fn obeys_from_spec() -> bool {
        true
    }

    open spec fn from_spec(i: i64) -> Literal {
        Literal::Long(i)
    }
}

impl<'a> From<&'a str> for Literal {
    fn from(s: &'a str) -> (r: Literal)
        ensures
            r@ == LiteralView::String(s@),
    {
        Literal::String(smol_str_new(s))
    }
}

impl<'a> vstd::std_specs::convert::FromSpecImpl<&'a str> for Literal {
    /// The literal made from a string slice is known by its value only.
    open spec fn obeys_from_spec() -> bool {
        false
    }

    open spec fn from_spec(s: &'a str) -> Literal {
        arbitrary()
    }
}

impl From<SmolStr> for Literal {
    fn from(s: SmolStr) -> (r: Literal)
        ensures
            r@ == LiteralView::String(text(s)),
    {
        Literal::String(s)
    }
}

impl vstd::std_specs::convert::FromSpecImpl<SmolStr> for Literal {
    open spec fn obeys_from_spec() -> bool {
        true
    }

    open spec fn from_spec(s: SmolStr) -> Literal {
        Literal::String(s)
    }
}

impl From<EntityUID> for Literal {
    fn from(e: EntityUID) -> (r: Literal)
        ensures
            r@ == LiteralView::EntityUID(e@),
    {
        Literal::EntityUID(e)
    }
}

impl vstd::std_specs::convert::FromSpecImpl<EntityUID> for Literal {
    open spec fn obeys_from_spec() -> bool {
        true
    }

    open spec fn from_spec(e: EntityUID) -> Literal {
        Literal::EntityUID(e)
    }
}

/// `From<T> for T`: the conversion of a type into itself hands back its
/// argument.
pub assume_specification<A>[ <A as From<A>>::from ](t: A) -> (r: A)
    ensures
        r == t,
;

impl Clone for Unknown {
    fn clone(&self) -> (r: Unknown)
        ensures
            r@ == self@,
    {
        Unknown { name: self.name.clone() }
    }
}

impl Unknown {
    /// The unknown of the given name.
    pub fn new_untyped(name: &str) -> (r: Unknown)
        ensures
            r@ == (UnknownView { name: name@ }),
    {
        Unknown { name: smol_str_new(name) }
    }
}

impl Clone for Literal {
    fn clone(&self) -> (r: Literal)
        ensures
            r@ == self@,
    {
        match self {
            Literal::Bool(b) => Literal::Bool(*b),
            Literal::Long(i) => Literal::Long(*i),
            Literal::String(s) => Literal::String(s.clone()),
            Literal::EntityUID(e) => Literal::EntityUID(e.clone()),
        }
    }
}

/// The keys of a list of keys and values, in order.
pub open spec fn record_keys(pairs: Seq<(Seq<char>, ExprView)>) -> Seq<Seq<char>> {
    Seq::new(pairs.len(), |i: int| pairs[i].0)
}

impl ExprView {
    /// Whether no record anywhere in the expression has the same key twice.
    pub open spec fn well_formed(self) -> bool
        decreases self,
    {
        match self.kind {
            ExprKindView::Lit(_) => true,
            ExprKindView::Var(_) => true,
            ExprKindView::Slot(_) => true,
            ExprKindView::Unknown(_) => true,
            ExprKindView::If { test_expr, then_expr, else_expr } => test_expr.well_formed()
                && then_expr.well_formed() && else_expr.well_formed(),
            ExprKindView::And { left, right } => left.well_formed() && right.well_formed(),
            ExprKindView::Or { left, right } => left.well_formed() && right.well_formed(),
            ExprKindView::UnaryApp { arg, .. } => arg.well_formed(),
            ExprKindView::BinaryApp { arg1, arg2, .. } => arg1.well_formed()
                && arg2.well_formed(),
            ExprKindView::ExtensionFunctionApp { args, .. } => forall|i: int|
                0 <= i < args.len() ==> (#[trigger] args[i]).well_formed(),
            ExprKindView::GetAttr { expr, .. } => expr.well_formed(),
            ExprKindView::HasAttr { expr, .. } => expr.well_formed(),
            ExprKindView::Like { expr, .. } => expr.well_formed(),
            ExprKindView::Is { expr, .. } => expr.well_formed(),
            ExprKindView::SetLiteral(items) => forall|i: int|
                0 <= i < items.len() ==> (#[trigger] items[i]).well_formed(),
            ExprKindView::Record(pairs) => record_keys(pairs).no_duplicates() && forall|i: int|
                0 <= i < pairs.len() ==> (#[trigger] pairs[i]).1.well_formed(),
        }
    }
}

/// The error for a record in which the key `key` occurs a second time.
pub open spec fn duplicate_key_error(key: Seq<char>) -> ExpressionConstructionErrorView {
    ExpressionConstructionErrorView::DuplicateKey(
        DuplicateKeyErrorView { key, context: "in record literal"@ },
    )
}

/// Every expression in a list is well formed, as every expression is.
fn all_well_formed(exprs: &Vec<Expr>)
    ensures
        forall|i: int| 0 <= i < exprs.len() ==> (#[trigger] exprs_view(exprs@)[i]).well_formed(),
{
    let mut i: usize = 0;
    while i < exprs.len()
        invariant
            i <= exprs.len(),
            forall|j: int| 0 <= j < i ==> (#[trigger] exprs_view(exprs@)[j]).well_formed(),
        decreases exprs.len() - i,
    {
        let e = &exprs[i];
        proof {
            use_type_invariant(e);
        }
        i = i + 1;
    }
}

/// Every value in a list of keys and values is well formed, as every
/// expression is.
fn all_values_well_formed(pairs: &Vec<(SmolStr, Expr)>)
    ensures
        forall|i: int|
            0 <= i < pairs.len() ==> (#[trigger] pairs_view(pairs@)[i]).1.well_formed(),
{
    let mut i: usize = 0;
    while i < pairs.len()
        invariant
            i <= pairs.len(),
            forall|j: int| 0 <= j < i ==> (#[trigger] pairs_view(pairs@)[j]).1.well_formed(),
        decreases pairs.len() - i,
    {
        let e = &pairs[i].1;
        proof {
            use_type_invariant(e);
        }
        i = i + 1;
    }
}

impl Expr {
    /// Every expression that exists is well formed: no record in it has the
    /// same key twice.
    #[verifier::type_invariant]
    spec fn type_inv(self) -> bool {
        expr_view(self).well_formed()
    }

    /// What this node is, with its children.
    pub fn expr_kind(&self) -> (r: &ExprKind)
        ensures
            r@ == self@.kind,
            self@.well_formed(),
    {
        proof {
            use_type_invariant(self);
        }
        &self.expr_kind
    }

    /// What this node is, with its children, given up by the node.
    pub fn into_expr_kind(self) -> (r: ExprKind)
        ensures
            r@ == self@.kind,
            self@.well_formed(),
    {
        proof {
            use_type_invariant(&self);
        }
        self.expr_kind
    }

    /// Where this node was read from, if it was read from anywhere.
    pub fn source_loc(&self) -> (r: &MaybeLoc)
        ensures
            maybe_loc_view(*r) == self@.loc,
    {
        &self.source_loc
    }

    /// The same expression, read from `source_loc` (or from nowhere).
    pub fn with_maybe_source_loc(self, source_loc: MaybeLoc) -> (r: Expr)
        ensures
            r@ == (ExprView { kind: self@.kind, loc: maybe_loc_view(source_loc) }),
    {
        proof {
            use_type_invariant(&self);
        }
        Expr { expr_kind: self.expr_kind, source_loc }
    }

    /// The expression that is the literal `v`.
    pub fn val<T: Into<Literal>>(v: T) -> (r: Expr)
        ensures
            exists|l: Literal| #[trigger]
                call_ensures(T::into, (v,), l) && r@ == (ExprView {
                    kind: ExprKindView::Lit(l@),
                    loc: None,
                }),
    {
        let l: Literal = v.into();
        Expr { expr_kind: ExprKind::Lit(l), source_loc: None }
    }

    /// The expression that is the unknown `u`.
    pub fn unknown(u: Unknown) -> (r: Expr)
        ensures
            r@ == (ExprView { kind: ExprKindView::Unknown(u@), loc: None }),
    {
        Expr { expr_kind: ExprKind::Unknown(u), source_loc: None }
    }

    /// The expression that is the variable `v`.
    pub fn var(v: Var) -> (r: Expr)
        ensures
            r@ == (ExprView { kind: ExprKindView::Var(v), loc: None }),
    {
        Expr { expr_kind: ExprKind::Var(v), source_loc: None }
    }

    /// The expression that is the template slot `s`.
    pub fn slot(s: SlotId) -> (r: Expr)
        ensures
            r@ == (ExprView { kind: ExprKindView::Slot(s), loc: None }),
    {
        Expr { expr_kind: ExprKind::Slot(s), source_loc: None }
    }

    /// `if test_expr then then_expr else else_expr`.
    pub fn ite(test_expr: Expr, then_expr: Expr, else_expr: Expr) -> (r: Expr)
        ensures
            r@ == (ExprView {
                kind: ExprKindView::If {
                    test_expr: Box::new(test_expr@),
                    then_expr: Box::new(then_expr@),
                    else_expr: Box::new(else_expr@),
                },
                loc: None,
            }),
    {
        proof {
            use_type_invariant(&test_expr);
            use_type_invariant(&then_expr);
            use_type_invariant(&else_expr);
        }
        Expr {
            expr_kind: ExprKind::If {
                test_expr: Box::new(test_expr),
                then_expr: Box::new(then_expr),
                else_expr: Box::new(else_expr),
            },
            source_loc: None,
        }
    }

    /// `left && right`.
    pub fn and(left: Expr, right: Expr) -> (r: Expr)
        ensures
            r@ == (ExprView {
                kind: ExprKindView::And { left: Box::new(left@), right: Box::new(right@) },
                loc: None,
            }),
    {
        proof {
            use_type_invariant(&left);
            use_type_invariant(&right);
        }
        Expr {
            expr_kind: ExprKind::And { left: Box::new(left), right: Box::new(right) },
            source_loc: None,
        }
    }

    /// `left || right`.
    pub fn or(left: Expr, right: Expr) -> (r: Expr)
        ensures
            r@ == (ExprView {
                kind: ExprKindView::Or { left: Box::new(left@), right: Box::new(right@) },
                loc: None,
            }),
    {
        proof {
            use_type_invariant(&left);
            use_type_invariant(&right);
        }
        Expr {
            expr_kind: ExprKind::Or { left: Box::new(left), right: Box::new(right) },
            source_loc: None,
        }
    }

    /// The operator `op` applied to `arg`.
    pub fn unary_app(op: UnaryOp, arg: Expr) -> (r: Expr)
        ensures
            r@ == (ExprView {
                kind: ExprKindView::UnaryApp { op, arg: Box::new(arg@) },
                loc: None,
            }),
    {
        proof {
            use_type_invariant(&arg);
        }
        Expr { expr_kind: ExprKind::UnaryApp { op, arg: Box::new(arg) }, source_loc: None }
    }

    /// The operator `op` applied to `arg1` and `arg2`.
    pub fn binary_app(op: BinaryOp, arg1: Expr, arg2: Expr) -> (r: Expr)
        ensures
            r@ == (ExprView {
                kind: ExprKindView::BinaryApp {
                    op,
                    arg1: Box::new(arg1@),
                    arg2: Box::new(arg2@),
                },
                loc: None,
            }),
    {
        proof {
            use_type_invariant(&arg1);
            use_type_invariant(&arg2);
        }
        Expr {
            expr_kind: ExprKind::BinaryApp { op, arg1: Box::new(arg1), arg2: Box::new(arg2) },
            source_loc: None,
        }
    }

    /// `expr.attr`.
    pub fn get_attr(expr: Expr, attr: SmolStr) -> (r: Expr)
        ensures
            r@ == (ExprView {
                kind: ExprKindView::GetAttr { expr: Box::new(expr@), attr: text(attr) },
                loc: None,
            }),
    {
        proof {
            use_type_invariant(&expr);
        }
        Expr { expr_kind: ExprKind::GetAttr { expr: Box::new(expr), attr }, source_loc: None }
    }

    /// `expr has attr`.
    pub fn has_attr(expr: Expr, attr: SmolStr) -> (r: Expr)
        ensures
            r@ == (ExprView {
                kind: ExprKindView::HasAttr { expr: Box::new(expr@), attr: text(attr) },
                loc: None,
            }),
    {
        proof {
            use_type_invariant(&expr);
        }
        Expr { expr_kind: ExprKind::HasAttr { expr: Box::new(expr), attr }, source_loc: None }
    }

    /// `expr like pattern`.
    pub fn like(expr: Expr, pattern: Vec<PatternElem>) -> (r: Expr)
        ensures
            r@ == (ExprView {
                kind: ExprKindView::Like { expr: Box::new(expr@), pattern: pattern@ },
                loc: None,
            }),
    {
        proof {
            use_type_invariant(&expr);
        }
        Expr { expr_kind: ExprKind::Like { expr: Box::new(expr), pattern }, source_loc: None }
    }

    /// `expr is entity_type`.
    pub fn is_entity_type(expr: Expr, entity_type: Name) -> (r: Expr)
        ensures
            r@ == (ExprView {
                kind: ExprKindView::Is { expr: Box::new(expr@), entity_type: entity_type@ },
                loc: None,
            }),
    {
        proof {
            use_type_invariant(&expr);
        }
        Expr { expr_kind: ExprKind::Is { expr: Box::new(expr), entity_type }, source_loc: None }
    }

    /// The set of the given expressions, in the order given.
    pub fn set(exprs: Vec<Expr>) -> (r: Expr)
        ensures
            r@ == (ExprView { kind: ExprKindView::SetLiteral(exprs_view(exprs@)), loc: None }),
    {
        all_well_formed(&exprs);
        Expr { expr_kind: ExprKind::SetLiteral(exprs), source_loc: None }
    }

    /// The call of the extension function `fn_name` on `args`.
    pub fn call_extension_fn(fn_name: Name, args: Vec<Expr>) -> (r: Expr)
        ensures
            r@ == (ExprView {
                kind: ExprKindView::ExtensionFunctionApp {
                    fn_name: fn_name@,
                    args: exprs_view(args@),
                },
                loc: None,
            }),
    {
        all_well_formed(&args);
        Expr { expr_kind: ExprKind::ExtensionFunctionApp { fn_name, args }, source_loc: None }
    }

    /// The record of the given keys and values, in the order given.
    ///
    /// Fails when a key occurs twice, whatever the two values are, and names
    /// the first key that repeats an earlier one.
    pub fn record(pairs: Vec<(SmolStr, Expr)>) -> (r: Result<Expr, ExpressionConstructionError>)
        ensures
            r is Ok <==> keys_of(pairs@).no_duplicates(),
            r matches Ok(e) ==> e@ == (ExprView {
                kind: ExprKindView::Record(pairs_view(pairs@)),
                loc: None,
            }),
            r matches Err(err) ==> exists|j: int| #[trigger]
                is_first_repeat(keys_of(pairs@), j) && err@ == duplicate_key_error(
                    keys_of(pairs@)[j],
                ),
    {
        match find_first_repeat(&pairs) {
            Some(j) => {
                let key = pairs[j].0.clone();
                Err(
                    ExpressionConstructionError::DuplicateKey(
                        DuplicateKeyError { key, context: "in record literal" },
                    ),
                )
            },
            None => {
                all_values_well_formed(&pairs);
                proof {
                    assert(record_keys(pairs_view(pairs@)) =~= keys_of(pairs@));
                }
                Ok(Expr { expr_kind: ExprKind::Record(pairs), source_loc: None })
            },
        }
    }
}

/// A copy of a pattern.
fn clone_pattern(pattern: &Vec<PatternElem>) -> (r: Vec<PatternElem>)
    ensures
        r@ == pattern@,
{
    let mut out: Vec<PatternElem> = Vec::new();
    let mut i: usize = 0;
    while i < pattern.len()
        invariant
            i <= pattern.len(),
            out@ == pattern@.subrange(0, i as int),
        decreases pattern.len() - i,
    {
        out.push(pattern[i]);
        assert(out@ =~= pattern@.subrange(0, i + 1));
        i = i + 1;
    }
    assert(pattern@.subrange(0, pattern.len() as int) =~= pattern@);
    out
}

/// A copy of a list of expressions.
fn clone_exprs(items: &Vec<Expr>) -> (r: Vec<Expr>)
    ensures
        exprs_view(r@) == exprs_view(items@),
    decreases items,
{
    let mut out: Vec<Expr> = Vec::new();
    let mut i: usize = 0;
    while i < items.len()
        invariant
            i <= items.len(),
            out.len() == i,
            forall|j: int| 0 <= j < i ==> expr_view(out[j]) == expr_view(items[j]),
        decreases items.len() - i,
    {
        let c = clone_expr(&items[i]);
        out.push(c);
        i = i + 1;
    }
    assert(exprs_view(out@) =~= exprs_view(items@));
    out
}

/// A copy of a list of keys and expressions.
fn clone_pairs(pairs: &Vec<(SmolStr, Expr)>) -> (r: Vec<(SmolStr, Expr)>)
    ensures
        pairs_view(r@) == pairs_view(pairs@),
    decreases pairs,
{
    let mut out: Vec<(SmolStr, Expr)> = Vec::new();
    let mut i: usize = 0;
    while i < pairs.len()
        invariant
            i <= pairs.len(),
            out.len() == i,
            forall|j: int|
                0 <= j < i ==> text(out[j].0) == text(pairs[j].0) && expr_view(out[j].1)
                    == expr_view(pairs[j].1),
        decreases pairs.len() - i,
    {
        let k = pairs[i].0.clone();
        let c = clone_expr(&pairs[i].1);
        out.push((k, c));
        i = i + 1;
    }
    assert(pairs_view(out@) =~= pairs_view(pairs@));
    out
}

/// A copy of what a node is, with copies of its children.
fn clone_kind(k: &ExprKind) -> (r: ExprKind)
    ensures
        r@ == k@,
    decreases k,
{
    match k {
        ExprKind::Lit(l) => ExprKind::Lit(l.clone()),
        ExprKind::Var(v) => ExprKind::Var(*v),
        ExprKind::Slot(s) => ExprKind::Slot(*s),
        ExprKind::Unknown(u) => ExprKind::Unknown(u.clone()),
        ExprKind::If { test_expr, then_expr, else_expr } => ExprKind::If {
            test_expr: Box::new(clone_expr(test_expr)),
            then_expr: Box::new(clone_expr(then_expr)),
            else_expr: Box::new(clone_expr(else_expr)),
        },
        ExprKind::And { left, right } => ExprKind::And {
            left: Box::new(clone_expr(left)),
            right: Box::new(clone_expr(right)),
        },
        ExprKind::Or { left, right } => ExprKind::Or {
            left: Box::new(clone_expr(left)),
            right: Box::new(clone_expr(right)),
        },
        ExprKind::UnaryApp { op, arg } => ExprKind::UnaryApp {
            op: *op,
            arg: Box::new(clone_expr(arg)),
        },
        ExprKind::BinaryApp { op, arg1, arg2 } => ExprKind::BinaryApp {
            op: *op,
            arg1: Box::new(clone_expr(arg1)),
            arg2: Box::new(clone_expr(arg2)),
        },
        ExprKind::ExtensionFunctionApp { fn_name, args } => ExprKind::ExtensionFunctionApp {
            fn_name: fn_name.clone(),
            args: clone_exprs(args),
        },
        ExprKind::GetAttr { expr, attr } => ExprKind::GetAttr {
            expr: Box::new(clone_expr(expr)),
            attr: attr.clone(),
        },
        ExprKind::HasAttr { expr, attr } => ExprKind::HasAttr {
            expr: Box::new(clone_expr(expr)),
            attr: attr.clone(),
        },
        ExprKind::Like { expr, pattern } => ExprKind::Like {
            expr: Box::new(clone_expr(expr)),
            pattern: clone_pattern(pattern),
        },
        ExprKind::Is { expr, entity_type } => ExprKind::Is {
            expr: Box::new(clone_expr(expr)),
            entity_type: entity_type.clone(),
        },
        ExprKind::SetLiteral(items) => ExprKind::SetLiteral(clone_exprs(items)),
        ExprKind::Record(pairs) => ExprKind::Record(clone_pairs(pairs)),
    }
}

/// A copy of an expression.
fn clone_expr(e: &Expr) -> (r: Expr)
    ensures
        r@ == e@,
    decreases e,
{
    proof {
        use_type_invariant(e);
    }
    Expr { expr_kind: clone_kind(&e.expr_kind), source_loc: clone_maybe_loc(&e.source_loc) }
}

impl Clone for ExprKind {
    fn clone(&self) -> (r: ExprKind)
        ensures
            r@ == self@,
    {
        clone_kind(self)
    }
}

impl Clone for Expr {
    fn clone(&self) -> (r: Expr)
        ensures
            r@ == self@,
    {
        clone_expr(self)
    }
}

} // verus!
