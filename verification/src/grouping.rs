//! Grouped queries: which expressions may stand outside GROUP BY, and how the
//! inputs of window functions refer to grouped columns.

use vstd::prelude::*;

use crate::bound::{
    BoundExpr, BoundExprKind, BoundExprKindView, BoundExprView, BoundOrder, BoundOrderView, BoundProjection, BoundProjectionView,
    BoundWindow, BoundWindowView,
};
use crate::scope::{expr_result, Checked};
use crate::text::text;
use crate::types::{error, DbError, FEATURE_NOT_SUPPORTED, Result};

verus! {

/// Whether a bound expression calls an aggregate.
pub open spec fn aggregated(e: BoundExprView) -> bool
    decreases e, 0int,
{
    match e.kind {
        BoundExprKindView::Aggregate { .. } => true,
        BoundExprKindView::Unary { expr, .. } => aggregated(*expr),
        BoundExprKindView::Cast { expr } => aggregated(*expr),
        BoundExprKindView::Array { elements, .. } => any_aggregated(elements, 0),
        BoundExprKindView::Function { arguments, .. } => any_aggregated(arguments, 0),
        BoundExprKindView::Binary { left, right, .. } => aggregated(*left) || aggregated(*right),
        BoundExprKindView::InList { expr, list, .. } => aggregated(*expr) || any_aggregated(list, 0),
        _ => false,
    }
}

/// Whether one of the bound expressions from a position on calls an aggregate.
pub open spec fn any_aggregated(l: Seq<BoundExprView>, i: int) -> bool
    decreases l, l.len() - i,
{
    0 <= i < l.len() && (aggregated(l[i]) || any_aggregated(l, i + 1))
}

/// Decides whether a bound expression calls an aggregate.
pub fn bound_expr_has_aggregate(expr: &BoundExpr) -> (r: bool)
    ensures
        r == aggregated(expr@),
    decreases expr, 0int,
{
    proof {
        expr.unfold();
    }
    match &expr.kind {
        BoundExprKind::Aggregate { .. } => true,
        BoundExprKind::Unary { expr, .. } => bound_expr_has_aggregate(expr),
        BoundExprKind::Cast { expr } => bound_expr_has_aggregate(expr),
        BoundExprKind::Array { elements, .. } => bound_exprs_have_aggregate(elements),
        BoundExprKind::Function { arguments, .. } => bound_exprs_have_aggregate(arguments),
        BoundExprKind::Binary { left, right, .. } => bound_expr_has_aggregate(left) || bound_expr_has_aggregate(right),
        BoundExprKind::InList { expr, list, .. } => bound_expr_has_aggregate(expr) || bound_exprs_have_aggregate(list),
        _ => false,
    }
}

/// Decides whether one of the bound expressions calls an aggregate.
pub fn bound_exprs_have_aggregate(l: &Vec<BoundExpr>) -> (r: bool)
    ensures
        r == any_aggregated(BoundExpr::views(l@), 0),
    decreases l, 0int,
{
    let ghost v = BoundExpr::views(l@);
    for i in 0..l.len()
        invariant
            v == BoundExpr::views(l@),
            any_aggregated(v, 0) == any_aggregated(v, i as int),
    {
        assert(decreases_to!(l => l@[i as int]));
        assert(v[i as int] == l@[i as int]@);
        if bound_expr_has_aggregate(&l[i]) {
            return true;
        }
    }
    false
}

/// Decides whether a bound expression that may be absent calls an aggregate.
pub fn bound_option_has_aggregate(e: &Option<BoundExpr>) -> (r: bool)
    ensures
        r == (e is Some && aggregated(e->0@)),
{
    match e {
        Some(e) => bound_expr_has_aggregate(e),
        None => false,
    }
}

/// Whether one of the sort keys from a position on calls an aggregate.
pub open spec fn any_order_aggregated(l: Seq<BoundOrderView>, i: int) -> bool
    decreases l.len() - i,
{
    0 <= i < l.len() && ((l[i].expression is Some && aggregated(l[i].expression->0)) || any_order_aggregated(l, i + 1))
}

/// Whether an input of a window function calls an aggregate.
pub open spec fn window_aggregated(w: BoundWindowView) -> bool {
    any_aggregated(w.arguments, 0) || (w.filter is Some && aggregated(w.filter->0)) || any_aggregated(w.partition_by, 0)
        || any_order_aggregated(w.order_by, 0)
}

/// Decides whether an input of a window function calls an aggregate.
pub fn bound_window_input_has_aggregate(window: &BoundWindow) -> (r: bool)
    ensures
        r == window_aggregated(window@),
{
    if bound_exprs_have_aggregate(&window.arguments) || bound_option_has_aggregate(&window.filter) || bound_exprs_have_aggregate(
        &window.partition_by,
    ) {
        return true;
    }
    let ghost v = BoundOrder::views(window.order_by@);
    for i in 0..window.order_by.len()
        invariant
            v == BoundOrder::views(window.order_by@),
            any_order_aggregated(v, 0) == any_order_aggregated(v, i as int),
    {
        assert(v[i as int] == window.order_by@[i as int]@);
        if bound_option_has_aggregate(&window.order_by[i].expression) {
            return true;
        }
    }
    false
}

/// Whether one of the windows from a position on has an aggregated input.
pub open spec fn any_window_aggregated(l: Seq<BoundWindowView>, i: int) -> bool
    decreases l.len() - i,
{
    0 <= i < l.len() && (window_aggregated(l[i]) || any_window_aggregated(l, i + 1))
}

/// Decides whether one of the windows has an aggregated input.
pub fn windows_have_aggregate(l: &Vec<BoundWindow>) -> (r: bool)
    ensures
        r == any_window_aggregated(BoundWindow::views(l@), 0),
{
    let ghost v = BoundWindow::views(l@);
    for i in 0..l.len()
        invariant
            v == BoundWindow::views(l@),
            any_window_aggregated(v, 0) == any_window_aggregated(v, i as int),
    {
        assert(v[i as int] == l@[i as int]@);
        if bound_window_input_has_aggregate(&l[i]) {
            return true;
        }
    }
    false
}

/// Whether one of the output columns from a position on calls an aggregate.
pub open spec fn any_output_aggregated(l: Seq<BoundProjectionView>, i: int) -> bool
    decreases l.len() - i,
{
    0 <= i < l.len() && (aggregated(l[i].expr) || any_output_aggregated(l, i + 1))
}

/// Decides whether one of the output columns calls an aggregate.
pub fn projections_have_aggregate(l: &Vec<BoundProjection>) -> (r: bool)
    ensures
        r == any_output_aggregated(BoundProjection::views(l@), 0),
{
    let ghost v = BoundProjection::views(l@);
    for i in 0..l.len()
        invariant
            v == BoundProjection::views(l@),
            any_output_aggregated(v, 0) == any_output_aggregated(v, i as int),
    {
        assert(v[i as int] == l@[i as int]@);
        if bound_expr_has_aggregate(&l[i].expr) {
            return true;
        }
    }
    false
}

/// The window that delivers its value at an index.
pub open spec fn window_at(windows: Seq<BoundWindowView>, index: usize, i: int) -> Option<usize>
    decreases windows.len() - i,
{
    if i < 0 || i >= windows.len() {
        None
    } else if windows[i].value_index == index {
        Some(i as usize)
    } else {
        window_at(windows, index, i + 1)
    }
}

/// The window whose value an expression is.
pub open spec fn window_of(e: BoundExprView, windows: Seq<BoundWindowView>) -> Option<usize> {
    match e.kind {
        BoundExprKindView::ApplyValue { index } => window_at(windows, index, 0),
        _ => None,
    }
}

fn find_window(windows: &Vec<BoundWindow>, index: usize) -> (r: Option<usize>)
    ensures
        r == window_at(BoundWindow::views(windows@), index, 0),
{
    let ghost v = BoundWindow::views(windows@);
    for i in 0..windows.len()
        invariant
            v == BoundWindow::views(windows@),
            window_at(v, index, 0) == window_at(v, index, i as int),
    {
        assert(v[i as int] == windows@[i as int]@);
        if windows[i].value_index == index {
            return Some(i);
        }
    }
    None
}

/// Finds the window whose value an expression is.
pub fn window_ordinal_for_expr(expr: &BoundExpr, windows: &Vec<BoundWindow>) -> (r: Option<usize>)
    ensures
        r == window_of(expr@, BoundWindow::views(windows@)),
{
    proof {
        expr.unfold();
    }
    match &expr.kind {
        BoundExprKind::ApplyValue { index } => find_window(windows, *index),
        _ => None,
    }
}

/// Whether an expression reads the value of a window.
pub open spec fn reads_window(e: BoundExprView, windows: Seq<BoundWindowView>) -> bool
    decreases e, 0int,
{
    match e.kind {
        BoundExprKindView::ApplyValue { index } => window_at(windows, index, 0) is Some,
        BoundExprKindView::Unary { expr, .. } => reads_window(*expr, windows),
        BoundExprKindView::Cast { expr } => reads_window(*expr, windows),
        BoundExprKindView::Array { elements, .. } => any_reads_window(elements, windows, 0),
        BoundExprKindView::Function { arguments, .. } => any_reads_window(arguments, windows, 0),
        BoundExprKindView::Binary { left, right, .. } => reads_window(*left, windows) || reads_window(*right, windows),
        BoundExprKindView::InList { expr, list, .. } => reads_window(*expr, windows) || any_reads_window(list, windows, 0),
        BoundExprKindView::Aggregate { argument, filter, .. } => (
            argument is Some && reads_window(*argument->0, windows)
        ) || (filter is Some
            && reads_window(*filter->0, windows)),
        _ => false,
    }
}

/// Whether one of the expressions from a position on reads the value of a window.
pub open spec fn any_reads_window(l: Seq<BoundExprView>, windows: Seq<BoundWindowView>, i: int) -> bool
    decreases l, l.len() - i,
{
    0 <= i < l.len() && (reads_window(l[i], windows) || any_reads_window(l, windows, i + 1))
}

/// Decides whether an expression reads the value of a window.
pub fn bound_expr_has_window_slot(expr: &BoundExpr, windows: &Vec<BoundWindow>) -> (r: bool)
    ensures
        r == reads_window(expr@, BoundWindow::views(windows@)),
    decreases expr, 0int,
{
    proof {
        expr.unfold();
    }
    match &expr.kind {
        BoundExprKind::ApplyValue { index } => find_window(windows, *index).is_some(),
        BoundExprKind::Unary { expr, .. } => bound_expr_has_window_slot(expr, windows),
        BoundExprKind::Cast { expr } => bound_expr_has_window_slot(expr, windows),
        BoundExprKind::Array { elements, .. } => bound_exprs_have_window_slot(elements, windows),
        BoundExprKind::Function { arguments, .. } => bound_exprs_have_window_slot(arguments, windows),
        BoundExprKind::Binary { left, right, .. } => bound_expr_has_window_slot(left, windows) || bound_expr_has_window_slot(right, windows),
        BoundExprKind::InList { expr, list, .. } => bound_expr_has_window_slot(expr, windows) || bound_exprs_have_window_slot(list, windows),
        BoundExprKind::Aggregate { argument, filter, .. } => (match argument {
            Some(a) => bound_expr_has_window_slot(a, windows),
            None => false,
        }) || (match filter {
            Some(f) => bound_expr_has_window_slot(f, windows),
            None => false,
        }),
        _ => false,
    }
}

fn bound_exprs_have_window_slot(l: &Vec<BoundExpr>, windows: &Vec<BoundWindow>) -> (r: bool)
    ensures
        r == any_reads_window(BoundExpr::views(l@), BoundWindow::views(windows@), 0),
    decreases l, 0int,
{
    let ghost v = BoundExpr::views(l@);
    let ghost w = BoundWindow::views(windows@);
    for i in 0..l.len()
        invariant
            v == BoundExpr::views(l@),
            w == BoundWindow::views(windows@),
            any_reads_window(v, w, 0) == any_reads_window(v, w, i as int),
    {
        assert(decreases_to!(l => l@[i as int]));
        assert(v[i as int] == l@[i as int]@);
        if bound_expr_has_window_slot(&l[i], windows) {
            return true;
        }
    }
    false
}

/// Decides whether an expression stands in a list.
pub fn contains_expr(l: &Vec<BoundExpr>, e: &BoundExpr) -> (r: bool)
    ensures
        r == BoundExpr::views(l@).contains(e@),
{
    let ghost v = BoundExpr::views(l@);
    for i in 0..l.len()
        invariant
            v == BoundExpr::views(l@),
            forall|k: int| 0 <= k < i ==> v[k] != e@,
    {
        assert(v[i as int] == l@[i as int]@);
        if l[i].same(e) {
            return true;
        }
    }
    false
}

/// Whether an expression is constant within a group: it is built from grouped
/// expressions, aggregates and constants.
pub open spec fn grouped(e: BoundExprView, group: Seq<BoundExprView>) -> Checked<()>
    decreases e, 0int,
{
    if group.contains(e) {
        Ok(())
    } else {
        match e.kind {
            BoundExprKindView::Column { .. } => Err(
                error("42803"@, "column must appear in GROUP BY or be used in an aggregate function"@),
            ),
            BoundExprKindView::Unary { expr, .. } => grouped(*expr, group),
            BoundExprKindView::Cast { expr } => grouped(*expr, group),
            BoundExprKindView::Array { elements, .. } => all_grouped(elements, group, 0),
            BoundExprKindView::Function { arguments, .. } => all_grouped(arguments, group, 0),
            BoundExprKindView::Binary { left, right, .. } => match grouped(*left, group) {
                Err(x) => Err(x),
                Ok(_) => grouped(*right, group),
            },
            BoundExprKindView::InList { expr, list, .. } => match grouped(*expr, group) {
                Err(x) => Err(x),
                Ok(_) => all_grouped(list, group, 0),
            },
            _ => Ok(()),
        }
    }
}

/// Whether the expressions from a position on are constant within a group.
pub open spec fn all_grouped(l: Seq<BoundExprView>, group: Seq<BoundExprView>, i: int) -> Checked<()>
    decreases l, l.len() - i,
{
    if i < 0 || i >= l.len() {
        Ok(())
    } else {
        match grouped(l[i], group) {
            Err(x) => Err(x),
            Ok(_) => all_grouped(l, group, i + 1),
        }
    }
}

/// The contents of a check's outcome.
pub open spec fn check_result(r: Result<()>) -> Checked<()> {
    match r {
        Ok(_) => Ok(()),
        Err(e) => Err(e@),
    }
}

/// Checks that an expression is constant within a group.
pub fn validate_grouped_expr(expr: &BoundExpr, group_by: &Vec<BoundExpr>) -> (r: Result<()>)
    ensures
        check_result(r) == grouped(expr@, BoundExpr::views(group_by@)),
    decreases expr, 0int,
{
    if contains_expr(group_by, expr) {
        return Ok(());
    }
    proof {
        expr.unfold();
    }
    match &expr.kind {
        BoundExprKind::Column { .. } => Err(
            DbError::new("42803", text("column must appear in GROUP BY or be used in an aggregate function")),
        ),
        BoundExprKind::Unary { expr, .. } => validate_grouped_expr(expr, group_by),
        BoundExprKind::Cast { expr } => validate_grouped_expr(expr, group_by),
        BoundExprKind::Array { elements, .. } => validate_grouped_exprs(elements, group_by),
        BoundExprKind::Function { arguments, .. } => validate_grouped_exprs(arguments, group_by),
        BoundExprKind::Binary { left, right, .. } => {
            validate_grouped_expr(left, group_by)?;
            validate_grouped_expr(right, group_by)
        },
        BoundExprKind::InList { expr, list, .. } => {
            validate_grouped_expr(expr, group_by)?;
            validate_grouped_exprs(list, group_by)
        },
        _ => Ok(()),
    }
}

fn validate_grouped_exprs(l: &Vec<BoundExpr>, group_by: &Vec<BoundExpr>) -> (r: Result<()>)
    ensures
        check_result(r) == all_grouped(BoundExpr::views(l@), BoundExpr::views(group_by@), 0),
    decreases l, 0int,
{
    let ghost v = BoundExpr::views(l@);
    let ghost g = BoundExpr::views(group_by@);
    for i in 0..l.len()
        invariant
            v == BoundExpr::views(l@),
            g == BoundExpr::views(group_by@),
            all_grouped(v, g, 0) == all_grouped(v, g, i as int),
    {
        assert(decreases_to!(l => l@[i as int]));
        assert(v[i as int] == l@[i as int]@);
        validate_grouped_expr(&l[i], group_by)?;
    }
    Ok(())
}

/// The first output column with an expression, from a position on.
pub open spec fn output_of(l: Seq<BoundProjectionView>, e: BoundExprView, i: int) -> Option<usize>
    decreases l.len() - i,
{
    if i < 0 || i >= l.len() {
        None
    } else if l[i].expr == e {
        Some(i as usize)
    } else {
        output_of(l, e, i + 1)
    }
}

/// Finds the first output column with an expression.
pub fn find_output(l: &Vec<BoundProjection>, e: &BoundExpr) -> (r: Option<usize>)
    ensures
        r == output_of(BoundProjection::views(l@), e@, 0),
        r matches Some(k) ==> k < l.len() && l@[k as int]@.expr == e@,
{
    let ghost v = BoundProjection::views(l@);
    for i in 0..l.len()
        invariant
            v == BoundProjection::views(l@),
            output_of(v, e@, 0) == output_of(v, e@, i as int),
    {
        assert(v[i as int] == l@[i as int]@);
        if l[i].expr.same(e) {
            return Some(i);
        }
    }
    None
}

/// The output columns that are no window values, from a position on.
pub open spec fn base_outputs(l: Seq<BoundProjectionView>, windows: Seq<BoundWindowView>, i: int, done: Seq<BoundProjectionView>) -> Seq<
    BoundProjectionView,
>
    decreases l.len() - i,
{
    if i < 0 || i >= l.len() {
        done
    } else if window_of(l[i].expr, windows) is None {
        base_outputs(l, windows, i + 1, done.push(l[i]))
    } else {
        base_outputs(l, windows, i + 1, done)
    }
}

/// The grouped column that a window input becomes.
pub open spec fn regrouped(e: BoundExprView, base: Seq<BoundProjectionView>, group: Seq<BoundExprView>) -> Checked<BoundExprView> {
    match grouped(e, group) {
        Err(x) => Err(x),
        Ok(_) => match output_of(base, e, 0) {
            Some(index) => Ok(
                BoundExprView { kind: BoundExprKindView::Column { index }, data_type: e.data_type, nullable: e.nullable },
            ),
            None => if e.kind is Literal || e.kind is Parameter || e.kind is Correlation {
                Ok(e)
            } else {
                Err(error(FEATURE_NOT_SUPPORTED@, "grouped window input expression must appear in the select list"@))
            },
        },
    }
}

/// Finds the grouped column that a window input becomes.
pub fn remap_grouped_window_expr(expression: &BoundExpr, base_projection: &Vec<BoundProjection>, group_by: &Vec<BoundExpr>) -> (r: Result<
    BoundExpr,
>)
    ensures
        expr_result(r) == regrouped(expression@, BoundProjection::views(base_projection@), BoundExpr::views(group_by@)),
{
    validate_grouped_expr(expression, group_by)?;
    proof {
        expression.unfold();
    }
    if let Some(index) = find_output(base_projection, expression) {
        let r = BoundExpr {
            kind: BoundExprKind::Column { index },
            data_type: expression.data_type.clone(),
            nullable: expression.nullable,
        };
        proof {
            r.unfold();
        }
        return Ok(r);
    }
    match &expression.kind {
        BoundExprKind::Literal(_) | BoundExprKind::Parameter { .. } | BoundExprKind::Correlation { .. } => Ok(expression.clone()),
        _ => Err(DbError::new(FEATURE_NOT_SUPPORTED, text("grouped window input expression must appear in the select list"))),
    }
}

/// The grouped columns that window inputs become, from a position on.
pub open spec fn all_regrouped(
    l: Seq<BoundExprView>,
    base: Seq<BoundProjectionView>,
    group: Seq<BoundExprView>,
    i: int,
    done: Seq<BoundExprView>,
) -> Checked<Seq<BoundExprView>>
    decreases l.len() - i,
{
    if i < 0 || i >= l.len() {
        Ok(done)
    } else {
        match regrouped(l[i], base, group) {
            Err(x) => Err(x),
            Ok(b) => all_regrouped(l, base, group, i + 1, done.push(b)),
        }
    }
}

fn remap_all(l: &Vec<BoundExpr>, base: &Vec<BoundProjection>, group: &Vec<BoundExpr>) -> (r: Result<Vec<BoundExpr>>)
    ensures
        (match r {
            Ok(l) => Ok(BoundExpr::views(l@)),
            Err(e) => Err(e@),
        }) == all_regrouped(BoundExpr::views(l@), BoundProjection::views(base@), BoundExpr::views(group@), 0, Seq::empty()),
{
    let ghost v = BoundExpr::views(l@);
    let ghost b = BoundProjection::views(base@);
    let ghost g = BoundExpr::views(group@);
    let ghost whole = all_regrouped(v, b, g, 0, Seq::empty());
    let mut out: Vec<BoundExpr> = Vec::new();
    assert(BoundExpr::views(out@) =~= Seq::empty());
    for i in 0..l.len()
        invariant
            v == BoundExpr::views(l@),
            b == BoundProjection::views(base@),
            g == BoundExpr::views(group@),
            whole == all_regrouped(v, b, g, 0, Seq::empty()),
            whole == all_regrouped(v, b, g, i as int, BoundExpr::views(out@)),
    {
        assert(v[i as int] == l@[i as int]@);
        let e = remap_grouped_window_expr(&l[i], base, group)?;
        let ghost before = BoundExpr::views(out@);
        out.push(e);
        assert(BoundExpr::views(out@) =~= before.push(e@));
    }
    Ok(out)
}

/// The first output column that reads an input column, from a position on.
pub open spec fn column_output(base: Seq<BoundProjectionView>, index: usize, i: int) -> Option<BoundExprView>
    decreases base.len() - i,
{
    if i < 0 || i >= base.len() {
        None
    } else if base[i].expr.kind == (BoundExprKindView::Column { index }) {
        Some(base[i].expr)
    } else {
        column_output(base, index, i + 1)
    }
}

fn find_column_output(base: &Vec<BoundProjection>, index: usize) -> (r: Option<BoundExpr>)
    ensures
        (match r {
            Some(e) => Some(e@),
            None => None,
        }) == column_output(BoundProjection::views(base@), index, 0),
{
    let ghost v = BoundProjection::views(base@);
    for i in 0..base.len()
        invariant
            v == BoundProjection::views(base@),
            column_output(v, index, 0) == column_output(v, index, i as int),
    {
        assert(v[i as int] == base@[i as int]@);
        proof {
            base@[i as int].expr.unfold();
        }
        if let BoundExprKind::Column { index: k } = &base[i].expr.kind {
            if *k == index {
                return Some(base[i].expr.clone());
            }
        }
    }
    None
}

/// The sort key of a window over grouped columns.
pub open spec fn order_regrouped(o: BoundOrderView, base: Seq<BoundProjectionView>, group: Seq<BoundExprView>) -> Checked<BoundOrderView> {
    match (match o.expression {
        Some(e) => Some(e),
        None => column_output(base, o.column_index, 0),
    }) {
        None => Err(error(FEATURE_NOT_SUPPORTED@, "grouped window ORDER BY expression must appear in the select list"@)),
        Some(e) => match regrouped(e, base, group) {
            Err(x) => Err(x),
            Ok(b) => Ok(
                match b.kind {
                    BoundExprKindView::Column { index } => BoundOrderView { column_index: index, expression: None, ..o },
                    _ => BoundOrderView { column_index: usize::MAX, expression: Some(b), ..o },
                },
            ),
        },
    }
}

fn remap_order(order: &BoundOrder, base: &Vec<BoundProjection>, group: &Vec<BoundExpr>) -> (r: Result<BoundOrder>)
    ensures
        (match r {
            Ok(o) => Ok(o@),
            Err(e) => Err(e@),
        }) == order_regrouped(order@, BoundProjection::views(base@), BoundExpr::views(group@)),
{
    let found: Option<BoundExpr> = match &order.expression {
        Some(e) => Some(e.clone()),
        None => find_column_output(base, order.column_index),
    };
    let expression = match found {
        Some(e) => e,
        None => {
            return Err(DbError::new(FEATURE_NOT_SUPPORTED, text("grouped window ORDER BY expression must appear in the select list")));
        },
    };
    let b = remap_grouped_window_expr(&expression, base, group)?;
    proof {
        b.unfold();
    }
    let mut out = order.clone();
    if let BoundExprKind::Column { index } = &b.kind {
        out.column_index = *index;
        out.expression = None;
    } else {
        out.column_index = usize::MAX;
        out.expression = Some(b);
    }
    Ok(out)
}

/// The sort keys of a window over grouped columns, from a position on.
pub open spec fn orders_regrouped(
    l: Seq<BoundOrderView>,
    base: Seq<BoundProjectionView>,
    group: Seq<BoundExprView>,
    i: int,
    done: Seq<BoundOrderView>,
) -> Checked<Seq<BoundOrderView>>
    decreases l.len() - i,
{
    if i < 0 || i >= l.len() {
        Ok(done)
    } else {
        match order_regrouped(l[i], base, group) {
            Err(x) => Err(x),
            Ok(b) => orders_regrouped(l, base, group, i + 1, done.push(b)),
        }
    }
}

fn remap_orders(l: &Vec<BoundOrder>, base: &Vec<BoundProjection>, group: &Vec<BoundExpr>) -> (r: Result<Vec<BoundOrder>>)
    ensures
        (match r {
            Ok(l) => Ok(BoundOrder::views(l@)),
            Err(e) => Err(e@),
        }) == orders_regrouped(BoundOrder::views(l@), BoundProjection::views(base@), BoundExpr::views(group@), 0, Seq::empty()),
{
    let ghost v = BoundOrder::views(l@);
    let ghost b = BoundProjection::views(base@);
    let ghost g = BoundExpr::views(group@);
    let ghost whole = orders_regrouped(v, b, g, 0, Seq::empty());
    let mut out: Vec<BoundOrder> = Vec::new();
    assert(BoundOrder::views(out@) =~= Seq::empty());
    for i in 0..l.len()
        invariant
            v == BoundOrder::views(l@),
            b == BoundProjection::views(base@),
            g == BoundExpr::views(group@),
            whole == orders_regrouped(v, b, g, 0, Seq::empty()),
            whole == orders_regrouped(v, b, g, i as int, BoundOrder::views(out@)),
    {
        assert(v[i as int] == l@[i as int]@);
        let e = remap_order(&l[i], base, group)?;
        let ghost before = BoundOrder::views(out@);
        out.push(e);
        assert(BoundOrder::views(out@) =~= before.push(e@));
    }
    Ok(out)
}

/// A window whose inputs refer to grouped columns.
pub open spec fn window_regrouped(
    w: BoundWindowView,
    base: Seq<BoundProjectionView>,
    group: Seq<BoundExprView>,
) -> Checked<BoundWindowView> {
    match all_regrouped(w.arguments, base, group, 0, Seq::empty()) {
        Err(x) => Err(x),
        Ok(arguments) => match (match w.filter {
            None => Ok(None),
            Some(f) => match regrouped(f, base, group) {
                Err(x) => Err(x),
                Ok(b) => Ok(Some(b)),
            },
        }) {
            Err(x) => Err(x),
            Ok(filter) => match all_regrouped(w.partition_by, base, group, 0, Seq::empty()) {
                Err(x) => Err(x),
                Ok(partition_by) => match orders_regrouped(w.order_by, base, group, 0, Seq::empty()) {
                    Err(x) => Err(x),
                    Ok(order_by) => Ok(BoundWindowView { arguments, filter, partition_by, order_by, ..w }),
                },
            },
        },
    }
}

fn remap_window(w: BoundWindow, base: &Vec<BoundProjection>, group: &Vec<BoundExpr>) -> (r: Result<BoundWindow>)
    ensures
        (match r {
            Ok(w) => Ok(w@),
            Err(e) => Err(e@),
        }) == window_regrouped(w@, BoundProjection::views(base@), BoundExpr::views(group@)),
{
    let arguments = remap_all(&w.arguments, base, group)?;
    let filter: Option<BoundExpr> = match &w.filter {
        None => None,
        Some(f) => {
            let b = remap_grouped_window_expr(f, base, group)?;
            Some(b)
        },
    };
    let partition_by = remap_all(&w.partition_by, base, group)?;
    let order_by = remap_orders(&w.order_by, base, group)?;
    Ok(BoundWindow { arguments, filter, partition_by, order_by, ..w })
}

/// Windows whose inputs refer to grouped columns, from a position on.
pub open spec fn windows_regrouped(
    l: Seq<BoundWindowView>,
    base: Seq<BoundProjectionView>,
    group: Seq<BoundExprView>,
    i: int,
    done: Seq<BoundWindowView>,
) -> Checked<Seq<BoundWindowView>>
    decreases l.len() - i,
{
    if i < 0 || i >= l.len() {
        Ok(done)
    } else {
        match window_regrouped(l[i], base, group) {
            Err(x) => Err(x),
            Ok(b) => windows_regrouped(l, base, group, i + 1, done.push(b)),
        }
    }
}

/// Makes the inputs of windows refer to the grouped columns of the select list.
pub fn remap_grouped_window_inputs(windows: &Vec<BoundWindow>, projection: &Vec<BoundProjection>, group_by: &Vec<BoundExpr>) -> (r: Result<
    Vec<BoundWindow>,
>)
    ensures
        (match r {
            Ok(w) => Ok(BoundWindow::views(w@)),
            Err(e) => Err(e@),
        }) == windows_regrouped(
            BoundWindow::views(windows@),
            base_outputs(BoundProjection::views(projection@), BoundWindow::views(windows@), 0, Seq::empty()),
            BoundExpr::views(group_by@),
            0,
            Seq::empty(),
        ),
{
    let ghost w = BoundWindow::views(windows@);
    let ghost p = BoundProjection::views(projection@);
    let ghost g = BoundExpr::views(group_by@);
    let ghost all = base_outputs(p, w, 0, Seq::empty());
    let mut base: Vec<BoundProjection> = Vec::new();
    assert(BoundProjection::views(base@) =~= Seq::empty());
    for i in 0..projection.len()
        invariant
            w == BoundWindow::views(windows@),
            p == BoundProjection::views(projection@),
            all == base_outputs(p, w, i as int, BoundProjection::views(base@)),
    {
        assert(p[i as int] == projection@[i as int]@);
        if window_ordinal_for_expr(&projection[i].expr, windows).is_none() {
            let ghost before = BoundProjection::views(base@);
            let x = projection[i].clone();
            base.push(x);
            assert(BoundProjection::views(base@) =~= before.push(x@));
        }
    }
    let ghost whole = windows_regrouped(w, all, g, 0, Seq::empty());
    let mut out: Vec<BoundWindow> = Vec::new();
    assert(BoundWindow::views(out@) =~= Seq::empty());
    for i in 0..windows.len()
        invariant
            w == BoundWindow::views(windows@),
            g == BoundExpr::views(group_by@),
            p == BoundProjection::views(projection@),
            all == BoundProjection::views(base@),
            all == base_outputs(p, w, 0, Seq::empty()),
            whole == windows_regrouped(w, all, g, 0, Seq::empty()),
            whole == windows_regrouped(w, all, g, i as int, BoundWindow::views(out@)),
    {
        assert(w[i as int] == windows@[i as int]@);
        let x = remap_window(windows[i].clone(), &base, group_by)?;
        let ghost before = BoundWindow::views(out@);
        out.push(x);
        assert(BoundWindow::views(out@) =~= before.push(x@));
    }
    Ok(out)
}

} // verus!
