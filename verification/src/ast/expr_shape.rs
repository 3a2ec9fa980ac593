//! The shape of an expression: what is left of it when the source positions
//! are taken away.
//!
//! A set keeps its elements, and a record its entries, in the order in which
//! they were given: two expressions have the same shape only where these
//! orders agree.

use crate::ast::expr::{
    BinaryOp, Expr, ExprKind, ExprKindView, ExprView, Literal, LiteralView, PatternElem, SlotId,
    UnaryOp, Var,
};
use crate::ast::expr_eq::same_pattern;
use crate::ast::name::{ids_view, EntityUID, EntityUIDView, Name, NameView};
use crate::ast::expr::{exprs_view, pairs_view};
use crate::ast::text::{smol_str_as_str, smol_str_eq};
use crate::parser::LocView;
use smol_str::SmolStr;
use vstd::prelude::*;

verus! {

impl LiteralView {
    /// The literal without the source positions in it.
    pub open spec fn shape(self) -> LiteralView {
        match self {
            LiteralView::EntityUID(e) => LiteralView::EntityUID(e.shape()),
            _ => self,
        }
    }
}

/// The shapes of a list of expressions.
pub open spec fn shapes_of(items: Seq<ExprView>) -> Seq<ExprView>
    decreases items,
{
    Seq::new(
        items.len(),
        |i: int|
            if 0 <= i < items.len() {
                items[i].shape()
            } else {
                arbitrary()
            },
    )
}

/// The keys of a list of keys and expressions, each with the shape of its
/// expression.
pub open spec fn pair_shapes_of(pairs: Seq<(Seq<char>, ExprView)>) -> Seq<(Seq<char>, ExprView)>
    decreases pairs,
{
    Seq::new(
        pairs.len(),
        |i: int|
            if 0 <= i < pairs.len() {
                (pairs[i].0, pairs[i].1.shape())
            } else {
                arbitrary()
            },
    )
}

impl ExprKindView {
    /// What a node is, with the shapes of its children.
    pub open spec fn shape(self) -> ExprKindView
        decreases self,
    {
        match self {
            ExprKindView::Lit(l) => ExprKindView::Lit(l.shape()),
            ExprKindView::Var(v) => ExprKindView::Var(v),
            ExprKindView::Slot(s) => ExprKindView::Slot(s),
            ExprKindView::Unknown(u) => ExprKindView::Unknown(u),
            ExprKindView::If { test_expr, then_expr, else_expr } => ExprKindView::If {
                test_expr: Box::new(test_expr.shape()),
                then_expr: Box::new(then_expr.shape()),
                else_expr: Box::new(else_expr.shape()),
            },
            ExprKindView::And { left, right } => ExprKindView::And {
                left: Box::new(left.shape()),
                right: Box::new(right.shape()),
            },
            ExprKindView::Or { left, right } => ExprKindView::Or {
                left: Box::new(left.shape()),
                right: Box::new(right.shape()),
            },
            ExprKindView::UnaryApp { op, arg } => ExprKindView::UnaryApp {
                op,
                arg: Box::new(arg.shape()),
            },
            ExprKindView::BinaryApp { op, arg1, arg2 } => ExprKindView::BinaryApp {
                op,
                arg1: Box::new(arg1.shape()),
                arg2: Box::new(arg2.shape()),
            },
            ExprKindView::ExtensionFunctionApp { fn_name, args } => {
                ExprKindView::ExtensionFunctionApp {
                    fn_name: fn_name.shape(),
                    args: shapes_of(args),
                }
            },
            ExprKindView::GetAttr { expr, attr } => ExprKindView::GetAttr {
                expr: Box::new(expr.shape()),
                attr,
            },
            ExprKindView::HasAttr { expr, attr } => ExprKindView::HasAttr {
                expr: Box::new(expr.shape()),
                attr,
            },
            ExprKindView::Like { expr, pattern } => ExprKindView::Like {
                expr: Box::new(expr.shape()),
                pattern,
            },
            ExprKindView::Is { expr, entity_type } => ExprKindView::Is {
                expr: Box::new(expr.shape()),
                entity_type: entity_type.shape(),
            },
            ExprKindView::SetLiteral(items) => ExprKindView::SetLiteral(shapes_of(items)),
            ExprKindView::Record(pairs) => ExprKindView::Record(pair_shapes_of(pairs)),
        }
    }
}

impl ExprView {
    /// The expression without any of the source positions in it.
    pub open spec fn shape(self) -> ExprView
        decreases self,
    {
        ExprView { kind: self.kind.shape(), loc: None }
    }
}

impl Literal {
    /// Whether two literals agree in everything but source positions.
    pub fn eq_shape(&self, other: &Literal) -> (r: bool)
        ensures
            r == (self@.shape() == other@.shape()),
    {
        match (self, other) {
            (Literal::Bool(a), Literal::Bool(b)) => *a == *b,
            (Literal::Long(a), Literal::Long(b)) => *a == *b,
            (Literal::String(a), Literal::String(b)) => smol_str_eq(a, b),
            (Literal::EntityUID(a), Literal::EntityUID(b)) => a.eq_shape(b),
            _ => false,
        }
    }
}

/// Whether two lists of expressions agree, item by item, in everything but
/// source positions.
fn eq_shape_all(a: &Vec<Expr>, b: &Vec<Expr>) -> (r: bool)
    ensures
        r == (shapes_of(exprs_view(a@)) == shapes_of(exprs_view(b@))),
    decreases exprs_view(a@), 0int,
{
    let ghost sa = shapes_of(exprs_view(a@));
    let ghost sb = shapes_of(exprs_view(b@));
    if a.len() != b.len() {
        assert(sa.len() != sb.len());
        return false;
    }
    let mut i: usize = 0;
    while i < a.len()
        invariant
            i <= a.len(),
            a.len() == b.len(),
            sa == shapes_of(exprs_view(a@)),
            sb == shapes_of(exprs_view(b@)),
            forall|j: int| 0 <= j < i ==> sa[j] == sb[j],
        decreases a.len() - i,
    {
        assert(exprs_view(a@)[i as int] == a[i as int]@);
        if !a[i].eq_shape(&b[i]) {
            assert(sa[i as int] != sb[i as int]);
            return false;
        }
        i = i + 1;
    }
    assert(sa =~= sb);
    true
}

/// Whether two lists of keys and expressions agree, entry by entry, in
/// everything but source positions.
fn eq_shape_all_pairs(a: &Vec<(SmolStr, Expr)>, b: &Vec<(SmolStr, Expr)>) -> (r: bool)
    ensures
        r == (pair_shapes_of(pairs_view(a@)) == pair_shapes_of(pairs_view(b@))),
    decreases pairs_view(a@), 0int,
{
    let ghost sa = pair_shapes_of(pairs_view(a@));
    let ghost sb = pair_shapes_of(pairs_view(b@));
    if a.len() != b.len() {
        assert(sa.len() != sb.len());
        return false;
    }
    let mut i: usize = 0;
    while i < a.len()
        invariant
            i <= a.len(),
            a.len() == b.len(),
            sa == pair_shapes_of(pairs_view(a@)),
            sb == pair_shapes_of(pairs_view(b@)),
            forall|j: int| 0 <= j < i ==> sa[j] == sb[j],
        decreases a.len() - i,
    {
        assert(pairs_view(a@)[i as int].1 == a[i as int].1@);
        if !smol_str_eq(&a[i].0, &b[i].0) || !a[i].1.eq_shape(&b[i].1) {
            assert(sa[i as int] != sb[i as int]);
            return false;
        }
        i = i + 1;
    }
    assert(sa =~= sb);
    true
}

impl Expr {
    /// Whether two expressions agree in everything but source positions.
    ///
    /// The elements of a set and the entries of a record are compared in the
    /// order in which they stand.
    pub fn eq_shape(&self, other: &Expr) -> (r: bool)
        ensures
            r == (self@.shape() == other@.shape()),
        decreases self@, 1int,
    {
        match (self.expr_kind(), other.expr_kind()) {
            (ExprKind::Lit(a), ExprKind::Lit(b)) => a.eq_shape(b),
            (ExprKind::Var(a), ExprKind::Var(b)) => *a == *b,
            (ExprKind::Slot(a), ExprKind::Slot(b)) => *a == *b,
            (ExprKind::Unknown(a), ExprKind::Unknown(b)) => smol_str_eq(&a.name, &b.name),
            (
                ExprKind::If { test_expr: t1, then_expr: a1, else_expr: b1 },
                ExprKind::If { test_expr: t2, then_expr: a2, else_expr: b2 },
            ) => t1.eq_shape(t2) && a1.eq_shape(a2) && b1.eq_shape(b2),
            (
                ExprKind::And { left: l1, right: r1 },
                ExprKind::And { left: l2, right: r2 },
            ) => l1.eq_shape(l2) && r1.eq_shape(r2),
            (ExprKind::Or { left: l1, right: r1 }, ExprKind::Or { left: l2, right: r2 }) => {
                l1.eq_shape(l2) && r1.eq_shape(r2)
            },
            (
                ExprKind::UnaryApp { op: o1, arg: a1 },
                ExprKind::UnaryApp { op: o2, arg: a2 },
            ) => *o1 == *o2 && a1.eq_shape(a2),
            (
                ExprKind::BinaryApp { op: o1, arg1: a1, arg2: b1 },
                ExprKind::BinaryApp { op: o2, arg1: a2, arg2: b2 },
            ) => *o1 == *o2 && a1.eq_shape(a2) && b1.eq_shape(b2),
            (
                ExprKind::ExtensionFunctionApp { fn_name: f1, args: a1 },
                ExprKind::ExtensionFunctionApp { fn_name: f2, args: a2 },
            ) => f1.eq_shape(f2) && eq_shape_all(a1, a2),
            (
                ExprKind::GetAttr { expr: e1, attr: a1 },
                ExprKind::GetAttr { expr: e2, attr: a2 },
            ) => smol_str_eq(a1, a2) && e1.eq_shape(e2),
            (
                ExprKind::HasAttr { expr: e1, attr: a1 },
                ExprKind::HasAttr { expr: e2, attr: a2 },
            ) => smol_str_eq(a1, a2) && e1.eq_shape(e2),
            (
                ExprKind::Like { expr: e1, pattern: pat1 },
                ExprKind::Like { expr: e2, pattern: pat2 },
            ) => same_pattern(pat1, pat2) && e1.eq_shape(e2),
            (
                ExprKind::Is { expr: e1, entity_type: t1 },
                ExprKind::Is { expr: e2, entity_type: t2 },
            ) => t1.eq_shape(t2) && e1.eq_shape(e2),
            (ExprKind::SetLiteral(a), ExprKind::SetLiteral(b)) => eq_shape_all(a, b),
            (ExprKind::Record(a), ExprKind::Record(b)) => eq_shape_all_pairs(a, b),
            _ => false,
        }
    }
}

/// One step of the digest: the digest so far, and the next number.
#[verifier::opaque]
pub open spec fn mix(h: u64, x: u64) -> u64 {
    h.wrapping_mul(0x0000_0100_0000_01b3u64).wrapping_add(x)
}

/// The digest after the characters of `s`, one after the other.
pub open spec fn digest_chars(h: u64, s: Seq<char>) -> u64
    decreases s.len(),
{
    if s.len() == 0 {
        h
    } else {
        mix(digest_chars(h, s.drop_last()), s.last() as u64)
    }
}

/// The digest after a string: after its characters, and a mark for its end
/// that no character equals.
pub open spec fn digest_text(h: u64, s: Seq<char>) -> u64 {
    mix(digest_chars(h, s), 0x11_0000u64)
}

/// The digest after the first `n` strings of `items`.
pub open spec fn digest_texts(h: u64, items: Seq<Seq<char>>, n: int) -> u64
    decreases n,
{
    if n <= 0 || n > items.len() {
        h
    } else {
        digest_text(digest_texts(h, items, n - 1), items[n - 1])
    }
}

/// The digest after a name: after the identifiers of its namespace, a mark
/// for their end, and its own identifier. Its source position has no part
/// in it.
pub open spec fn digest_name(h: u64, n: NameView) -> u64 {
    digest_text(mix(digest_texts(h, n.path, n.path.len() as int), 0x11_0001u64), n.id)
}

/// The digest after an entity reference.
pub open spec fn digest_euid(h: u64, e: EntityUIDView) -> u64 {
    digest_text(digest_name(h, e.ty), e.eid)
}

/// The digest after a literal.
pub open spec fn digest_literal(h: u64, l: LiteralView) -> u64 {
    match l {
        LiteralView::Bool(b) => mix(
            mix(h, 1),
            if b {
                1u64
            } else {
                0u64
            },
        ),
        LiteralView::Long(i) => mix(mix(h, 2), i as u64),
        LiteralView::String(s) => digest_text(mix(h, 3), s),
        LiteralView::EntityUID(e) => digest_euid(mix(h, 4), e),
    }
}

/// The number that stands for a variable in a digest.
pub open spec fn var_code(v: Var) -> u64 {
    match v {
        Var::Principal => 0,
        Var::Action => 1,
        Var::Resource => 2,
        Var::Context => 3,
    }
}

/// The number that stands for a slot in a digest.
pub open spec fn slot_code(s: SlotId) -> u64 {
    match s {
        SlotId::Principal => 0,
        SlotId::Resource => 1,
    }
}

/// The number that stands for an operator of one argument in a digest.
pub open spec fn unary_op_code(op: UnaryOp) -> u64 {
    match op {
        UnaryOp::Not => 0,
        UnaryOp::Neg => 1,
        UnaryOp::IsEmpty => 2,
    }
}

/// The number that stands for an operator of two arguments in a digest.
pub open spec fn binary_op_code(op: BinaryOp) -> u64 {
    match op {
        BinaryOp::Eq => 0,
        BinaryOp::Less => 1,
        BinaryOp::LessEq => 2,
        BinaryOp::Add => 3,
        BinaryOp::Sub => 4,
        BinaryOp::Mul => 5,
        BinaryOp::In => 6,
        BinaryOp::Contains => 7,
        BinaryOp::ContainsAll => 8,
        BinaryOp::ContainsAny => 9,
        BinaryOp::GetTag => 10,
        BinaryOp::HasTag => 11,
    }
}

/// The number that stands for an element of a pattern in a digest.
pub open spec fn pattern_elem_code(p: PatternElem) -> u64 {
    match p {
        PatternElem::Char(c) => c as u64,
        PatternElem::Wildcard => 0x11_0002u64,
    }
}

/// The digest after the first `n` elements of a pattern.
pub open spec fn digest_pattern(h: u64, pattern: Seq<PatternElem>, n: int) -> u64
    decreases n,
{
    if n <= 0 || n > pattern.len() {
        h
    } else {
        mix(digest_pattern(h, pattern, n - 1), pattern_elem_code(pattern[n - 1]))
    }
}

/// The digest after the first `n` expressions of `items`.
pub open spec fn digest_exprs(h: u64, items: Seq<ExprView>, n: int) -> u64
    decreases items, n,
{
    if n <= 0 || n > items.len() {
        h
    } else {
        digest_expr(digest_exprs(h, items, n - 1), items[n - 1])
    }
}

/// The digest after the first `n` entries of `pairs`.
pub open spec fn digest_pairs(h: u64, pairs: Seq<(Seq<char>, ExprView)>, n: int) -> u64
    decreases pairs, n,
{
    if n <= 0 || n > pairs.len() {
        h
    } else {
        digest_expr(digest_text(digest_pairs(h, pairs, n - 1), pairs[n - 1].0), pairs[n - 1].1)
    }
}

/// The digest after an expression. The source positions in the expression
/// have no part in it.
pub open spec fn digest_expr(h: u64, e: ExprView) -> u64
    decreases e, 0int,
{
    match e.kind {
        ExprKindView::Lit(l) => digest_literal(mix(h, 1), l),
        ExprKindView::Var(v) => mix(mix(h, 2), var_code(v)),
        ExprKindView::Slot(s) => mix(mix(h, 3), slot_code(s)),
        ExprKindView::Unknown(u) => digest_text(mix(h, 4), u.name),
        ExprKindView::If { test_expr, then_expr, else_expr } => digest_expr(
            digest_expr(digest_expr(mix(h, 5), *test_expr), *then_expr),
            *else_expr,
        ),
        ExprKindView::And { left, right } => digest_expr(digest_expr(mix(h, 6), *left), *right),
        ExprKindView::Or { left, right } => digest_expr(digest_expr(mix(h, 7), *left), *right),
        ExprKindView::UnaryApp { op, arg } => digest_expr(mix(mix(h, 8), unary_op_code(op)), *arg),
        ExprKindView::BinaryApp { op, arg1, arg2 } => digest_expr(
            digest_expr(mix(mix(h, 9), binary_op_code(op)), *arg1),
            *arg2,
        ),
        ExprKindView::ExtensionFunctionApp { fn_name, args } => mix(
            digest_exprs(digest_name(mix(h, 10), fn_name), args, args.len() as int),
            0x11_0003u64,
        ),
        ExprKindView::GetAttr { expr, attr } => digest_text(digest_expr(mix(h, 11), *expr), attr),
        ExprKindView::HasAttr { expr, attr } => digest_text(digest_expr(mix(h, 12), *expr), attr),
        ExprKindView::Like { expr, pattern } => mix(
            digest_pattern(digest_expr(mix(h, 13), *expr), pattern, pattern.len() as int),
            0x11_0003u64,
        ),
        ExprKindView::Is { expr, entity_type } => digest_name(
            digest_expr(mix(h, 14), *expr),
            entity_type,
        ),
        ExprKindView::SetLiteral(items) => mix(
            digest_exprs(mix(h, 15), items, items.len() as int),
            0x11_0003u64,
        ),
        ExprKindView::Record(pairs) => mix(
            digest_pairs(mix(h, 16), pairs, pairs.len() as int),
            0x11_0003u64,
        ),
    }
}

impl ExprView {
    /// A number that is the same for any two expressions of the same shape.
    pub open spec fn shape_digest(self) -> u64 {
        digest_expr(0xcbf2_9ce4_8422_2325u64, self)
    }
}

/// One step of the digest.
fn mix_step(h: u64, x: u64) -> (r: u64)
    ensures
        r == mix(h, x),
{
    reveal(mix);
    h.wrapping_mul(0x0000_0100_0000_01b3u64).wrapping_add(x)
}

/// The digest after the string `s`.
fn hash_str(h: u64, s: &str) -> (r: u64)
    ensures
        r == digest_text(h, s@),
{
    let mut acc = h;
    for c in it: s.chars()
        invariant
            it.seq() == s@,
            acc == digest_chars(h, s@.take(it.index() as int)),
    {
        proof {
            assert(s@.take(it.index() + 1).drop_last() =~= s@.take(it.index() as int));
        }
        acc = mix_step(acc, c as u64);
    }
    proof {
        assert(s@.take(s@.len() as int) =~= s@);
    }
    mix_step(acc, 0x11_0000u64)
}

/// The digest after the name `n`.
fn hash_name(h: u64, n: &Name) -> (r: u64)
    ensures
        r == digest_name(h, n@),
{
    let inner = n.as_internal_name();
    let path = inner.namespace_components();
    let ghost texts = ids_view(path@);
    let mut acc = h;
    let mut i: usize = 0;
    while i < path.len()
        invariant
            i <= path.len(),
            texts == ids_view(path@),
            acc == digest_texts(h, texts, i as int),
        decreases path.len() - i,
    {
        assert(texts[i as int] == path[i as int]@);
        acc = hash_str(acc, path[i].as_str());
        i = i + 1;
    }
    acc = mix_step(acc, 0x11_0001u64);
    hash_str(acc, inner.basename().as_str())
}

/// The digest after the entity reference `e`.
fn hash_euid(h: u64, e: &EntityUID) -> (r: u64)
    ensures
        r == digest_euid(h, e@),
{
    hash_str(hash_name(h, e.entity_type()), e.eid().as_str())
}

/// The digest after the literal `l`.
fn hash_literal(h: u64, l: &Literal) -> (r: u64)
    ensures
        r == digest_literal(h, l@),
{
    match l {
        Literal::Bool(b) => mix_step(
            mix_step(h, 1),
            if *b {
                1u64
            } else {
                0u64
            },
        ),
        Literal::Long(i) => {
            let x: u64 = #[verifier::truncate]
            (*i as u64);
            mix_step(mix_step(h, 2), x)
        },
        Literal::String(s) => hash_str(mix_step(h, 3), smol_str_as_str(s)),
        Literal::EntityUID(e) => hash_euid(mix_step(h, 4), e),
    }
}

/// The digest after the pattern `pattern`.
fn hash_pattern(h: u64, pattern: &Vec<PatternElem>) -> (r: u64)
    ensures
        r == digest_pattern(h, pattern@, pattern.len() as int),
{
    let mut acc = h;
    let mut i: usize = 0;
    while i < pattern.len()
        invariant
            i <= pattern.len(),
            acc == digest_pattern(h, pattern@, i as int),
        decreases pattern.len() - i,
    {
        let code: u64 = match pattern[i] {
            PatternElem::Char(c) => c as u64,
            PatternElem::Wildcard => 0x11_0002u64,
        };
        acc = mix_step(acc, code);
        i = i + 1;
    }
    acc
}

/// The digest after the expressions `items`.
fn hash_exprs(h: u64, items: &Vec<Expr>) -> (r: u64)
    ensures
        r == digest_exprs(h, exprs_view(items@), items.len() as int),
    decreases exprs_view(items@), 0int,
{
    let ghost views = exprs_view(items@);
    let mut acc = h;
    let mut i: usize = 0;
    while i < items.len()
        invariant
            i <= items.len(),
            views == exprs_view(items@),
            acc == digest_exprs(h, views, i as int),
        decreases items.len() - i,
    {
        assert(views[i as int] == items[i as int]@);
        acc = hash_expr(acc, &items[i]);
        i = i + 1;
    }
    acc
}

/// The digest after the entries `pairs`.
fn hash_pairs(h: u64, pairs: &Vec<(SmolStr, Expr)>) -> (r: u64)
    ensures
        r == digest_pairs(h, pairs_view(pairs@), pairs.len() as int),
    decreases pairs_view(pairs@), 0int,
{
    let ghost views = pairs_view(pairs@);
    let mut acc = h;
    let mut i: usize = 0;
    while i < pairs.len()
        invariant
            i <= pairs.len(),
            views == pairs_view(pairs@),
            acc == digest_pairs(h, views, i as int),
        decreases pairs.len() - i,
    {
        assert(views[i as int].1 == pairs[i as int].1@);
        acc = hash_str(acc, smol_str_as_str(&pairs[i].0));
        acc = hash_expr(acc, &pairs[i].1);
        i = i + 1;
    }
    acc
}

/// The digest after the expression `e`.
fn hash_expr(h: u64, e: &Expr) -> (r: u64)
    ensures
        r == digest_expr(h, e@),
    decreases e@, 1int,
{
    match e.expr_kind() {
        ExprKind::Lit(l) => hash_literal(mix_step(h, 1), l),
        ExprKind::Var(v) => {
            let code: u64 = match v {
                Var::Principal => 0,
                Var::Action => 1,
                Var::Resource => 2,
                Var::Context => 3,
            };
            mix_step(mix_step(h, 2), code)
        },
        ExprKind::Slot(s) => {
            let code: u64 = match s {
                SlotId::Principal => 0,
                SlotId::Resource => 1,
            };
            mix_step(mix_step(h, 3), code)
        },
        ExprKind::Unknown(u) => hash_str(mix_step(h, 4), smol_str_as_str(&u.name)),
        ExprKind::If { test_expr, then_expr, else_expr } => hash_expr(
            hash_expr(hash_expr(mix_step(h, 5), test_expr), then_expr),
            else_expr,
        ),
        ExprKind::And { left, right } => hash_expr(hash_expr(mix_step(h, 6), left), right),
        ExprKind::Or { left, right } => hash_expr(hash_expr(mix_step(h, 7), left), right),
        ExprKind::UnaryApp { op, arg } => {
            let code: u64 = match op {
                UnaryOp::Not => 0,
                UnaryOp::Neg => 1,
                UnaryOp::IsEmpty => 2,
            };
            hash_expr(mix_step(mix_step(h, 8), code), arg)
        },
        ExprKind::BinaryApp { op, arg1, arg2 } => {
            let code: u64 = match op {
                BinaryOp::Eq => 0,
                BinaryOp::Less => 1,
                BinaryOp::LessEq => 2,
                BinaryOp::Add => 3,
                BinaryOp::Sub => 4,
                BinaryOp::Mul => 5,
                BinaryOp::In => 6,
                BinaryOp::Contains => 7,
                BinaryOp::ContainsAll => 8,
                BinaryOp::ContainsAny => 9,
                BinaryOp::GetTag => 10,
                BinaryOp::HasTag => 11,
            };
            hash_expr(hash_expr(mix_step(mix_step(h, 9), code), arg1), arg2)
        },
        ExprKind::ExtensionFunctionApp { fn_name, args } => {
            assert(e@.kind->ExtensionFunctionApp_args == exprs_view(args@));
            mix_step(hash_exprs(hash_name(mix_step(h, 10), fn_name), args), 0x11_0003u64)
        },
        ExprKind::GetAttr { expr, attr } => hash_str(
            hash_expr(mix_step(h, 11), expr),
            smol_str_as_str(attr),
        ),
        ExprKind::HasAttr { expr, attr } => hash_str(
            hash_expr(mix_step(h, 12), expr),
            smol_str_as_str(attr),
        ),
        ExprKind::Like { expr, pattern } => mix_step(
            hash_pattern(hash_expr(mix_step(h, 13), expr), pattern),
            0x11_0003u64,
        ),
        ExprKind::Is { expr, entity_type } => hash_name(
            hash_expr(mix_step(h, 14), expr),
            entity_type,
        ),
        ExprKind::SetLiteral(items) => {
            assert(e@.kind->SetLiteral_0 == exprs_view(items@));
            mix_step(hash_exprs(mix_step(h, 15), items), 0x11_0003u64)
        },
        ExprKind::Record(pairs) => {
            assert(e@.kind->Record_0 == pairs_view(pairs@));
            mix_step(hash_pairs(mix_step(h, 16), pairs), 0x11_0003u64)
        },
    }
}

impl Expr {
    /// A number that is the same for any two expressions that agree in
    /// everything but source positions.
    pub fn hash_shape(&self) -> (r: u64)
        ensures
            r == self@.shape_digest(),
    {
        hash_expr(0xcbf2_9ce4_8422_2325u64, self)
    }
}

/// The digest after a list of expressions is the digest after their
/// shapes.
pub proof fn lemma_digest_exprs_of_shapes(h: u64, items: Seq<ExprView>, n: int)
    requires
        0 <= n <= items.len(),
    ensures
        digest_exprs(h, shapes_of(items), n) == digest_exprs(h, items, n),
    decreases items, n,
{
    if n > 0 {
        lemma_digest_exprs_of_shapes(h, items, n - 1);
        lemma_digest_of_shape(digest_exprs(h, items, n - 1), items[n - 1]);
    }
}

/// The digest after a list of keys and expressions is the digest after the
/// keys and the shapes of the expressions.
pub proof fn lemma_digest_pairs_of_shapes(h: u64, pairs: Seq<(Seq<char>, ExprView)>, n: int)
    requires
        0 <= n <= pairs.len(),
    ensures
        digest_pairs(h, pair_shapes_of(pairs), n) == digest_pairs(h, pairs, n),
    decreases pairs, n,
{
    if n > 0 {
        lemma_digest_pairs_of_shapes(h, pairs, n - 1);
        lemma_digest_of_shape(
            digest_text(digest_pairs(h, pairs, n - 1), pairs[n - 1].0),
            pairs[n - 1].1,
        );
    }
}

/// The digest after an expression is the digest after its shape: the source
/// positions have no part in it.
pub proof fn lemma_digest_of_shape(h: u64, e: ExprView)
    ensures
        digest_expr(h, e.shape()) == digest_expr(h, e),
    decreases e, 0int,
{
    match e.kind {
        ExprKindView::Lit(_) => {},
        ExprKindView::Var(_) => {},
        ExprKindView::Slot(_) => {},
        ExprKindView::Unknown(_) => {},
        ExprKindView::If { test_expr, then_expr, else_expr } => {
            let h1 = mix(h, 5);
            lemma_digest_of_shape(h1, *test_expr);
            let h2 = digest_expr(h1, *test_expr);
            lemma_digest_of_shape(h2, *then_expr);
            let h3 = digest_expr(h2, *then_expr);
            lemma_digest_of_shape(h3, *else_expr);
        },
        ExprKindView::And { left, right } => {
            let h1 = mix(h, 6);
            lemma_digest_of_shape(h1, *left);
            lemma_digest_of_shape(digest_expr(h1, *left), *right);
        },
        ExprKindView::Or { left, right } => {
            let h1 = mix(h, 7);
            lemma_digest_of_shape(h1, *left);
            lemma_digest_of_shape(digest_expr(h1, *left), *right);
        },
        ExprKindView::UnaryApp { op, arg } => {
            lemma_digest_of_shape(mix(mix(h, 8), unary_op_code(op)), *arg);
        },
        ExprKindView::BinaryApp { op, arg1, arg2 } => {
            let h1 = mix(mix(h, 9), binary_op_code(op));
            lemma_digest_of_shape(h1, *arg1);
            lemma_digest_of_shape(digest_expr(h1, *arg1), *arg2);
        },
        ExprKindView::ExtensionFunctionApp { fn_name, args } => {
            lemma_digest_exprs_of_shapes(
                digest_name(mix(h, 10), fn_name),
                args,
                args.len() as int,
            );
        },
        ExprKindView::GetAttr { expr, .. } => {
            lemma_digest_of_shape(mix(h, 11), *expr);
        },
        ExprKindView::HasAttr { expr, .. } => {
            lemma_digest_of_shape(mix(h, 12), *expr);
        },
        ExprKindView::Like { expr, .. } => {
            lemma_digest_of_shape(mix(h, 13), *expr);
        },
        ExprKindView::Is { expr, .. } => {
            lemma_digest_of_shape(mix(h, 14), *expr);
        },
        ExprKindView::SetLiteral(items) => {
            lemma_digest_exprs_of_shapes(mix(h, 15), items, items.len() as int);
        },
        ExprKindView::Record(pairs) => {
            lemma_digest_pairs_of_shapes(mix(h, 16), pairs, pairs.len() as int);
        },
    }
}

/// Two expressions of the same shape have the same digest.
pub proof fn lemma_same_shape_same_digest(a: ExprView, b: ExprView)
    requires
        a.shape() == b.shape(),
    ensures
        a.shape_digest() == b.shape_digest(),
{
    lemma_digest_of_shape(0xcbf2_9ce4_8422_2325u64, a);
    lemma_digest_of_shape(0xcbf2_9ce4_8422_2325u64, b);
}

/// The shape of an expression does not depend on where the expression was
/// read from: moving it to another source position, or to none, leaves its
/// shape as it was.
pub proof fn lemma_shape_ignores_source_loc(e: ExprView, loc: Option<LocView>)
    ensures
        (ExprView { kind: e.kind, loc }).shape() == e.shape(),
{
}

/// Equality tells apart what shape does not: an expression moved to another
/// source position differs from what it was, and still has its shape.
pub proof fn lemma_source_loc_distinguishes(e: ExprView, loc: Option<LocView>)
    requires
        loc != e.loc,
    ensures
        (ExprView { kind: e.kind, loc }) != e,
        (ExprView { kind: e.kind, loc }).shape() == e.shape(),
{
}

} // verus!
