//! Equality of expressions: two expressions are equal when they agree in
//! everything, the places they were read from among it.
//!
//! A set keeps its elements, and a record its entries, in the order in which
//! they were given: two expressions are equal only where these orders agree.

use crate::ast::expr::{
    exprs_view, lemma_expr_view, pairs_view, Expr, ExprKind, Literal, PatternElem,
};
use crate::ast::text::smol_str_eq;
use crate::parser::same_maybe_loc;
use smol_str::SmolStr;
use vstd::prelude::*;

verus! {

impl Literal {
    /// Whether two literals agree in everything, source positions too.
    pub fn same(&self, other: &Literal) -> (r: bool)
        ensures
            r == (self@ == other@),
    {
        match (self, other) {
            (Literal::Bool(a), Literal::Bool(b)) => *a == *b,
            (Literal::Long(a), Literal::Long(b)) => *a == *b,
            (Literal::String(a), Literal::String(b)) => smol_str_eq(a, b),
            (Literal::EntityUID(a), Literal::EntityUID(b)) => a.same(b),
            _ => false,
        }
    }
}

/// Whether two patterns are the same.
pub(crate) fn same_pattern(a: &Vec<PatternElem>, b: &Vec<PatternElem>) -> (r: bool)
    ensures
        r == (a@ == b@),
{
    if a.len() != b.len() {
        return false;
    }
    let mut i: usize = 0;
    while i < a.len()
        invariant
            i <= a.len(),
            a.len() == b.len(),
            forall|j: int| 0 <= j < i ==> a[j] == b[j],
        decreases a.len() - i,
    {
        if a[i] != b[i] {
            return false;
        }
        i = i + 1;
    }
    assert(a@ =~= b@);
    true
}

/// Whether two lists of expressions agree item by item.
fn same_exprs(a: &Vec<Expr>, b: &Vec<Expr>) -> (r: bool)
    ensures
        r == (exprs_view(a@) == exprs_view(b@)),
    decreases a,
{
    let ghost va = exprs_view(a@);
    let ghost vb = exprs_view(b@);
    if a.len() != b.len() {
        assert(va.len() != vb.len());
        return false;
    }
    let mut i: usize = 0;
    while i < a.len()
        invariant
            i <= a.len(),
            a.len() == b.len(),
            va == exprs_view(a@),
            vb == exprs_view(b@),
            forall|j: int| 0 <= j < i ==> va[j] == vb[j],
        decreases a.len() - i,
    {
        if !same_expr(&a[i], &b[i]) {
            assert(va[i as int] != vb[i as int]);
            return false;
        }
        i = i + 1;
    }
    assert(va =~= vb);
    true
}

/// Whether two lists of keys and expressions agree entry by entry.
fn same_pairs(a: &Vec<(SmolStr, Expr)>, b: &Vec<(SmolStr, Expr)>) -> (r: bool)
    ensures
        r == (pairs_view(a@) == pairs_view(b@)),
    decreases a,
{
    let ghost va = pairs_view(a@);
    let ghost vb = pairs_view(b@);
    if a.len() != b.len() {
        assert(va.len() != vb.len());
        return false;
    }
    let mut i: usize = 0;
    while i < a.len()
        invariant
            i <= a.len(),
            a.len() == b.len(),
            va == pairs_view(a@),
            vb == pairs_view(b@),
            forall|j: int| 0 <= j < i ==> va[j] == vb[j],
        decreases a.len() - i,
    {
        if !smol_str_eq(&a[i].0, &b[i].0) || !same_expr(&a[i].1, &b[i].1) {
            assert(va[i as int] != vb[i as int]);
            return false;
        }
        i = i + 1;
    }
    assert(va =~= vb);
    true
}

/// Whether two nodes are of the same kind and have the same children.
fn same_kind(a: &ExprKind, b: &ExprKind) -> (r: bool)
    ensures
        r == (a@ == b@),
    decreases a,
{
    match (a, b) {
        (ExprKind::Lit(x), ExprKind::Lit(y)) => x.same(y),
        (ExprKind::Var(x), ExprKind::Var(y)) => *x == *y,
        (ExprKind::Slot(x), ExprKind::Slot(y)) => *x == *y,
        (ExprKind::Unknown(x), ExprKind::Unknown(y)) => smol_str_eq(&x.name, &y.name),
        (
            ExprKind::If { test_expr: t1, then_expr: a1, else_expr: b1 },
            ExprKind::If { test_expr: t2, then_expr: a2, else_expr: b2 },
        ) => same_expr(t1, t2) && same_expr(a1, a2) && same_expr(b1, b2),
        (ExprKind::And { left: l1, right: r1 }, ExprKind::And { left: l2, right: r2 }) => {
            same_expr(l1, l2) && same_expr(r1, r2)
        },
        (ExprKind::Or { left: l1, right: r1 }, ExprKind::Or { left: l2, right: r2 }) => {
            same_expr(l1, l2) && same_expr(r1, r2)
        },
        (ExprKind::UnaryApp { op: o1, arg: a1 }, ExprKind::UnaryApp { op: o2, arg: a2 }) => {
            *o1 == *o2 && same_expr(a1, a2)
        },
        (
            ExprKind::BinaryApp { op: o1, arg1: a1, arg2: b1 },
            ExprKind::BinaryApp { op: o2, arg1: a2, arg2: b2 },
        ) => *o1 == *o2 && same_expr(a1, a2) && same_expr(b1, b2),
        (
            ExprKind::ExtensionFunctionApp { fn_name: f1, args: a1 },
            ExprKind::ExtensionFunctionApp { fn_name: f2, args: a2 },
        ) => f1.same(f2) && same_exprs(a1, a2),
        (
            ExprKind::GetAttr { expr: e1, attr: a1 },
            ExprKind::GetAttr { expr: e2, attr: a2 },
        ) => smol_str_eq(a1, a2) && same_expr(e1, e2),
        (
            ExprKind::HasAttr { expr: e1, attr: a1 },
            ExprKind::HasAttr { expr: e2, attr: a2 },
        ) => smol_str_eq(a1, a2) && same_expr(e1, e2),
        (
            ExprKind::Like { expr: e1, pattern: pat1 },
            ExprKind::Like { expr: e2, pattern: pat2 },
        ) => same_pattern(pat1, pat2) && same_expr(e1, e2),
        (
            ExprKind::Is { expr: e1, entity_type: t1 },
            ExprKind::Is { expr: e2, entity_type: t2 },
        ) => t1.same(t2) && same_expr(e1, e2),
        (ExprKind::SetLiteral(x), ExprKind::SetLiteral(y)) => same_exprs(x, y),
        (ExprKind::Record(x), ExprKind::Record(y)) => same_pairs(x, y),
        _ => false,
    }
}

/// Whether two expressions agree in everything.
fn same_expr(a: &Expr, b: &Expr) -> (r: bool)
    ensures
        r == (a@ == b@),
    decreases a,
{
    proof {
        lemma_expr_view(*a);
        lemma_expr_view(*b);
    }
    same_kind(&a.expr_kind, &b.expr_kind) && same_maybe_loc(&a.source_loc, &b.source_loc)
}

impl PartialEq for Expr {
    fn eq(&self, other: &Self) -> (r: bool) {
        same_expr(self, other)
    }
}

impl vstd::std_specs::cmp::PartialEqSpecImpl for Expr {
    open spec fn obeys_eq_spec() -> bool {
        true
    }

    open spec fn eq_spec(&self, other: &Self) -> bool {
        self@ == other@
    }
}

impl PartialEq for ExprKind {
    fn eq(&self, other: &Self) -> (r: bool) {
        same_kind(self, other)
    }
}

impl vstd::std_specs::cmp::PartialEqSpecImpl for ExprKind {
    open spec fn obeys_eq_spec() -> bool {
        true
    }

    open spec fn eq_spec(&self, other: &Self) -> bool {
        self@ == other@
    }
}

} // verus!
