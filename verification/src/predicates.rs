//! What kinds of calls an expression holds.

use vstd::prelude::*;

use crate::syntax::{
    ParsedExpr, ParsedExprKind, ParsedExprKindView, ParsedExprView, ParsedOrder, ParsedOrderView, ParsedProjection, ParsedProjectionView,
};

verus! {

/// Whether an expression calls a window function, outside its subqueries.
pub open spec fn holds_window(e: ParsedExprView) -> bool
    decreases e, 0int,
{
    match e.kind {
        ParsedExprKindView::Window { .. } => true,
        ParsedExprKindView::NamedWindow { .. } => true,
        ParsedExprKindView::WindowValue { .. } => true,
        ParsedExprKindView::Unary { expr, .. } => holds_window(*expr),
        ParsedExprKindView::Cast { expr, .. } => holds_window(*expr),
        ParsedExprKindView::Array { elements, .. } => any_holds_window(elements, 0),
        ParsedExprKindView::Function { arguments, .. } => any_holds_window(arguments, 0),
        ParsedExprKindView::Binary { left, right, .. } => holds_window(*left) || holds_window(*right),
        ParsedExprKindView::InList { expr, list, .. } => holds_window(*expr) || any_holds_window(list, 0),
        ParsedExprKindView::InSubquery { expr, .. } => holds_window(*expr),
        ParsedExprKindView::QuantifiedSubquery { left, .. } => holds_window(*left),
        ParsedExprKindView::RowSubquery { left, .. } => any_holds_window(left, 0),
        ParsedExprKindView::Aggregate { argument, filter, .. } => (
            argument is Some && holds_window(*argument->0)
        ) || (filter is Some && holds_window(*filter->0)),
        _ => false,
    }
}

/// Whether one of the expressions from a position on calls a window function, outside its subqueries.
pub open spec fn any_holds_window(l: Seq<ParsedExprView>, i: int) -> bool
    decreases l, l.len() - i,
{
    0 <= i < l.len() && (holds_window(l[i]) || any_holds_window(l, i + 1))
}

/// Decides whether an expression calls a window function, outside its subqueries.
pub fn expr_has_window(expr: &ParsedExpr) -> (r: bool)
    ensures
        r == holds_window(expr@),
    decreases expr, 0int,
{
    proof {
        expr.unfold();
    }
    match &expr.kind {
        ParsedExprKind::Window { .. } => true,
        ParsedExprKind::NamedWindow { .. } => true,
        ParsedExprKind::WindowValue { .. } => true,
        ParsedExprKind::Unary { expr, .. } => expr_has_window(expr),
        ParsedExprKind::Cast { expr, .. } => expr_has_window(expr),
        ParsedExprKind::Array { elements, .. } => exprs_have_window(elements),
        ParsedExprKind::Function { arguments, .. } => exprs_have_window(arguments),
        ParsedExprKind::Binary { left, right, .. } => expr_has_window(left) || expr_has_window(right),
        ParsedExprKind::InList { expr, list, .. } => expr_has_window(expr) || exprs_have_window(list),
        ParsedExprKind::InSubquery { expr, .. } => expr_has_window(expr),
        ParsedExprKind::QuantifiedSubquery { left, .. } => expr_has_window(left),
        ParsedExprKind::RowSubquery { left, .. } => exprs_have_window(left),
        ParsedExprKind::Aggregate { argument, filter, .. } => option_has_window(argument) || option_has_window(filter),
        _ => false,
    }
}

/// Decides whether one of the expressions calls a window function, outside its subqueries.
pub fn exprs_have_window(l: &Vec<ParsedExpr>) -> (r: bool)
    ensures
        r == any_holds_window(ParsedExpr::views(l@), 0),
    decreases l, 0int,
{
    let ghost v = ParsedExpr::views(l@);
    for i in 0..l.len()
        invariant
            v == ParsedExpr::views(l@),
            any_holds_window(v, 0) == any_holds_window(v, i as int),
    {
        assert(decreases_to!(l => l@[i as int]));
        assert(v[i as int] == l@[i as int]@);
        if expr_has_window(&l[i]) {
            return true;
        }
    }
    false
}

/// Decides whether an optional expression calls a window function, outside its subqueries.
pub fn option_has_window(e: &Option<Box<ParsedExpr>>) -> (r: bool)
    ensures
        r == (e is Some && holds_window((*e->0)@)),
    decreases e, 0int,
{
    match e {
        Some(e) => expr_has_window(e),
        None => false,
    }
}

/// Decides whether an optional expression calls a window function, outside its subqueries.
pub fn some_has_window(e: &Option<ParsedExpr>) -> (r: bool)
    ensures
        r == (e is Some && holds_window(e->0@)),
{
    match e {
        Some(e) => expr_has_window(e),
        None => false,
    }
}

/// Whether an item of a select list calls a window function, outside its subqueries.
pub open spec fn item_holds_window(p: ParsedProjectionView) -> bool {
    match p {
        ParsedProjectionView::Wildcard => false,
        ParsedProjectionView::Expression { expr, .. } => holds_window(expr),
    }
}

/// Decides whether an item of a select list calls a window function, outside its subqueries.
pub fn projection_has_window(projection: &ParsedProjection) -> (r: bool)
    ensures
        r == item_holds_window(projection@),
{
    proof {
        projection.unfold();
    }
    match projection {
        ParsedProjection::Wildcard => false,
        ParsedProjection::Expression { expr, .. } => expr_has_window(expr),
    }
}

/// Whether one of the sort keys from a position on calls a window function, outside its subqueries.
pub open spec fn any_order_holds_window(l: Seq<ParsedOrderView>, i: int) -> bool
    decreases l, l.len() - i,
{
    0 <= i < l.len() && (holds_window(l[i].expr) || any_order_holds_window(l, i + 1))
}

/// Decides whether one of the sort keys calls a window function, outside its subqueries.
pub fn orders_have_window(l: &Vec<ParsedOrder>) -> (r: bool)
    ensures
        r == any_order_holds_window(ParsedOrder::views(l@), 0),
    decreases l, 0int,
{
    let ghost v = ParsedOrder::views(l@);
    for i in 0..l.len()
        invariant
            v == ParsedOrder::views(l@),
            any_order_holds_window(v, 0) == any_order_holds_window(v, i as int),
    {
        assert(decreases_to!(l => l@[i as int]));
        assert(v[i as int] == l@[i as int]@);
        proof {
            l@[i as int].unfold();
        }
        if expr_has_window(&l[i].expr) {
            return true;
        }
    }
    false
}

/// Whether an expression holds a subquery.
pub open spec fn holds_subquery(e: ParsedExprView) -> bool
    decreases e, 0int,
{
    match e.kind {
        ParsedExprKindView::ScalarSubquery(_) => true,
        ParsedExprKindView::Exists { .. } => true,
        ParsedExprKindView::InSubquery { .. } => true,
        ParsedExprKindView::QuantifiedSubquery { .. } => true,
        ParsedExprKindView::RowSubquery { .. } => true,
        ParsedExprKindView::Unary { expr, .. } => holds_subquery(*expr),
        ParsedExprKindView::Cast { expr, .. } => holds_subquery(*expr),
        ParsedExprKindView::Array { elements, .. } => any_holds_subquery(elements, 0),
        ParsedExprKindView::Function { arguments, .. } => any_holds_subquery(arguments, 0),
        ParsedExprKindView::Binary { left, right, .. } => holds_subquery(*left) || holds_subquery(*right),
        ParsedExprKindView::InList { expr, list, .. } => holds_subquery(*expr) || any_holds_subquery(list, 0),
        ParsedExprKindView::Aggregate { argument, filter, .. } => (
            argument is Some && holds_subquery(*argument->0)
        ) || (filter is Some && holds_subquery(*filter->0)),
        ParsedExprKindView::Window { call, spec } => any_holds_subquery(call.arguments, 0) || (
            call.filter is Some && holds_subquery(*call.filter->0)
        ) || any_holds_subquery(spec.partition_by, 0) || any_order_holds_subquery(spec.order_by, 0),
        ParsedExprKindView::NamedWindow { call, .. } => any_holds_subquery(call.arguments, 0) || (
            call.filter is Some && holds_subquery(*call.filter->0)
        ),
        _ => false,
    }
}

/// Whether one of the expressions from a position on holds a subquery.
pub open spec fn any_holds_subquery(l: Seq<ParsedExprView>, i: int) -> bool
    decreases l, l.len() - i,
{
    0 <= i < l.len() && (holds_subquery(l[i]) || any_holds_subquery(l, i + 1))
}

/// Decides whether an expression holds a subquery.
pub fn expr_has_subquery(expr: &ParsedExpr) -> (r: bool)
    ensures
        r == holds_subquery(expr@),
    decreases expr, 0int,
{
    proof {
        expr.unfold();
    }
    match &expr.kind {
        ParsedExprKind::ScalarSubquery(_) => true,
        ParsedExprKind::Exists { .. } => true,
        ParsedExprKind::InSubquery { .. } => true,
        ParsedExprKind::QuantifiedSubquery { .. } => true,
        ParsedExprKind::RowSubquery { .. } => true,
        ParsedExprKind::Unary { expr, .. } => expr_has_subquery(expr),
        ParsedExprKind::Cast { expr, .. } => expr_has_subquery(expr),
        ParsedExprKind::Array { elements, .. } => exprs_have_subquery(elements),
        ParsedExprKind::Function { arguments, .. } => exprs_have_subquery(arguments),
        ParsedExprKind::Binary { left, right, .. } => expr_has_subquery(left) || expr_has_subquery(right),
        ParsedExprKind::InList { expr, list, .. } => expr_has_subquery(expr) || exprs_have_subquery(list),
        ParsedExprKind::Aggregate { argument, filter, .. } => option_has_subquery(argument) || option_has_subquery(filter),
        ParsedExprKind::Window { call, spec } => {
            proof {
                call.unfold();
                spec.unfold();
            }
            exprs_have_subquery(&call.arguments) || option_has_subquery(&call.filter) || exprs_have_subquery(&spec.partition_by)
                || orders_have_subquery(&spec.order_by)
        },
        ParsedExprKind::NamedWindow { call, .. } => {
            proof {
                call.unfold();
            }
            exprs_have_subquery(&call.arguments) || option_has_subquery(&call.filter)
        },
        _ => false,
    }
}

/// Decides whether one of the expressions holds a subquery.
pub fn exprs_have_subquery(l: &Vec<ParsedExpr>) -> (r: bool)
    ensures
        r == any_holds_subquery(ParsedExpr::views(l@), 0),
    decreases l, 0int,
{
    let ghost v = ParsedExpr::views(l@);
    for i in 0..l.len()
        invariant
            v == ParsedExpr::views(l@),
            any_holds_subquery(v, 0) == any_holds_subquery(v, i as int),
    {
        assert(decreases_to!(l => l@[i as int]));
        assert(v[i as int] == l@[i as int]@);
        if expr_has_subquery(&l[i]) {
            return true;
        }
    }
    false
}

/// Decides whether an optional expression holds a subquery.
pub fn option_has_subquery(e: &Option<Box<ParsedExpr>>) -> (r: bool)
    ensures
        r == (e is Some && holds_subquery((*e->0)@)),
    decreases e, 0int,
{
    match e {
        Some(e) => expr_has_subquery(e),
        None => false,
    }
}

/// Decides whether an optional expression holds a subquery.
pub fn some_has_subquery(e: &Option<ParsedExpr>) -> (r: bool)
    ensures
        r == (e is Some && holds_subquery(e->0@)),
{
    match e {
        Some(e) => expr_has_subquery(e),
        None => false,
    }
}

/// Whether an item of a select list holds a subquery.
pub open spec fn item_holds_subquery(p: ParsedProjectionView) -> bool {
    match p {
        ParsedProjectionView::Wildcard => false,
        ParsedProjectionView::Expression { expr, .. } => holds_subquery(expr),
    }
}

/// Decides whether an item of a select list holds a subquery.
pub fn projection_has_subquery(projection: &ParsedProjection) -> (r: bool)
    ensures
        r == item_holds_subquery(projection@),
{
    proof {
        projection.unfold();
    }
    match projection {
        ParsedProjection::Wildcard => false,
        ParsedProjection::Expression { expr, .. } => expr_has_subquery(expr),
    }
}

/// Whether one of the sort keys from a position on holds a subquery.
pub open spec fn any_order_holds_subquery(l: Seq<ParsedOrderView>, i: int) -> bool
    decreases l, l.len() - i,
{
    0 <= i < l.len() && (holds_subquery(l[i].expr) || any_order_holds_subquery(l, i + 1))
}

/// Decides whether one of the sort keys holds a subquery.
pub fn orders_have_subquery(l: &Vec<ParsedOrder>) -> (r: bool)
    ensures
        r == any_order_holds_subquery(ParsedOrder::views(l@), 0),
    decreases l, 0int,
{
    let ghost v = ParsedOrder::views(l@);
    for i in 0..l.len()
        invariant
            v == ParsedOrder::views(l@),
            any_order_holds_subquery(v, 0) == any_order_holds_subquery(v, i as int),
    {
        assert(decreases_to!(l => l@[i as int]));
        assert(v[i as int] == l@[i as int]@);
        proof {
            l@[i as int].unfold();
        }
        if expr_has_subquery(&l[i].expr) {
            return true;
        }
    }
    false
}

/// Whether an expression calls an aggregate, outside its subqueries.
pub open spec fn holds_aggregate(e: ParsedExprView) -> bool
    decreases e, 0int,
{
    match e.kind {
        ParsedExprKindView::Aggregate { .. } => true,
        ParsedExprKindView::Unary { expr, .. } => holds_aggregate(*expr),
        ParsedExprKindView::Cast { expr, .. } => holds_aggregate(*expr),
        ParsedExprKindView::Array { elements, .. } => any_holds_aggregate(elements, 0),
        ParsedExprKindView::Function { arguments, .. } => any_holds_aggregate(arguments, 0),
        ParsedExprKindView::Binary { left, right, .. } => holds_aggregate(*left) || holds_aggregate(*right),
        ParsedExprKindView::InList { expr, list, .. } => holds_aggregate(*expr) || any_holds_aggregate(list, 0),
        ParsedExprKindView::InSubquery { expr, .. } => holds_aggregate(*expr),
        ParsedExprKindView::QuantifiedSubquery { left, .. } => holds_aggregate(*left),
        ParsedExprKindView::RowSubquery { left, .. } => any_holds_aggregate(left, 0),
        ParsedExprKindView::Window { call, spec } => any_holds_aggregate(call.arguments, 0) || (
            call.filter is Some && holds_aggregate(*call.filter->0)
        ) || any_holds_aggregate(spec.partition_by, 0) || any_order_holds_aggregate(spec.order_by, 0),
        ParsedExprKindView::NamedWindow { call, .. } => any_holds_aggregate(call.arguments, 0) || (
            call.filter is Some && holds_aggregate(*call.filter->0)
        ),
        _ => false,
    }
}

/// Whether one of the expressions from a position on calls an aggregate, outside its subqueries.
pub open spec fn any_holds_aggregate(l: Seq<ParsedExprView>, i: int) -> bool
    decreases l, l.len() - i,
{
    0 <= i < l.len() && (holds_aggregate(l[i]) || any_holds_aggregate(l, i + 1))
}

/// Decides whether an expression calls an aggregate, outside its subqueries.
pub fn expr_has_aggregate(expr: &ParsedExpr) -> (r: bool)
    ensures
        r == holds_aggregate(expr@),
    decreases expr, 0int,
{
    proof {
        expr.unfold();
    }
    match &expr.kind {
        ParsedExprKind::Aggregate { .. } => true,
        ParsedExprKind::Unary { expr, .. } => expr_has_aggregate(expr),
        ParsedExprKind::Cast { expr, .. } => expr_has_aggregate(expr),
        ParsedExprKind::Array { elements, .. } => exprs_have_aggregate(elements),
        ParsedExprKind::Function { arguments, .. } => exprs_have_aggregate(arguments),
        ParsedExprKind::Binary { left, right, .. } => expr_has_aggregate(left) || expr_has_aggregate(right),
        ParsedExprKind::InList { expr, list, .. } => expr_has_aggregate(expr) || exprs_have_aggregate(list),
        ParsedExprKind::InSubquery { expr, .. } => expr_has_aggregate(expr),
        ParsedExprKind::QuantifiedSubquery { left, .. } => expr_has_aggregate(left),
        ParsedExprKind::RowSubquery { left, .. } => exprs_have_aggregate(left),
        ParsedExprKind::Window { call, spec } => {
            proof {
                call.unfold();
                spec.unfold();
            }
            exprs_have_aggregate(&call.arguments) || option_has_aggregate(&call.filter) || exprs_have_aggregate(&spec.partition_by)
                || orders_have_aggregate(&spec.order_by)
        },
        ParsedExprKind::NamedWindow { call, .. } => {
            proof {
                call.unfold();
            }
            exprs_have_aggregate(&call.arguments) || option_has_aggregate(&call.filter)
        },
        _ => false,
    }
}

/// Decides whether one of the expressions calls an aggregate, outside its subqueries.
pub fn exprs_have_aggregate(l: &Vec<ParsedExpr>) -> (r: bool)
    ensures
        r == any_holds_aggregate(ParsedExpr::views(l@), 0),
    decreases l, 0int,
{
    let ghost v = ParsedExpr::views(l@);
    for i in 0..l.len()
        invariant
            v == ParsedExpr::views(l@),
            any_holds_aggregate(v, 0) == any_holds_aggregate(v, i as int),
    {
        assert(decreases_to!(l => l@[i as int]));
        assert(v[i as int] == l@[i as int]@);
        if expr_has_aggregate(&l[i]) {
            return true;
        }
    }
    false
}

/// Decides whether an optional expression calls an aggregate, outside its subqueries.
pub fn option_has_aggregate(e: &Option<Box<ParsedExpr>>) -> (r: bool)
    ensures
        r == (e is Some && holds_aggregate((*e->0)@)),
    decreases e, 0int,
{
    match e {
        Some(e) => expr_has_aggregate(e),
        None => false,
    }
}

/// Whether an item of a select list calls an aggregate, outside its subqueries.
pub open spec fn item_holds_aggregate(p: ParsedProjectionView) -> bool {
    match p {
        ParsedProjectionView::Wildcard => false,
        ParsedProjectionView::Expression { expr, .. } => holds_aggregate(expr),
    }
}

/// Decides whether an item of a select list calls an aggregate, outside its subqueries.
pub fn projection_has_aggregate(projection: &ParsedProjection) -> (r: bool)
    ensures
        r == item_holds_aggregate(projection@),
{
    proof {
        projection.unfold();
    }
    match projection {
        ParsedProjection::Wildcard => false,
        ParsedProjection::Expression { expr, .. } => expr_has_aggregate(expr),
    }
}

/// Whether one of the sort keys from a position on calls an aggregate, outside its subqueries.
pub open spec fn any_order_holds_aggregate(l: Seq<ParsedOrderView>, i: int) -> bool
    decreases l, l.len() - i,
{
    0 <= i < l.len() && (holds_aggregate(l[i].expr) || any_order_holds_aggregate(l, i + 1))
}

/// Decides whether one of the sort keys calls an aggregate, outside its subqueries.
pub fn orders_have_aggregate(l: &Vec<ParsedOrder>) -> (r: bool)
    ensures
        r == any_order_holds_aggregate(ParsedOrder::views(l@), 0),
    decreases l, 0int,
{
    let ghost v = ParsedOrder::views(l@);
    for i in 0..l.len()
        invariant
            v == ParsedOrder::views(l@),
            any_order_holds_aggregate(v, 0) == any_order_holds_aggregate(v, i as int),
    {
        assert(decreases_to!(l => l@[i as int]));
        assert(v[i as int] == l@[i as int]@);
        proof {
            l@[i as int].unfold();
        }
        if expr_has_aggregate(&l[i].expr) {
            return true;
        }
    }
    false
}

} // verus!
