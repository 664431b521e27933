//! Tells statements that only read from those that may have an effect.

use vstd::prelude::*;

use crate::binding::{option_view, some_view};
use crate::laws_effects::{changes, leads_inwards, lemma_changes_need_approval, lemma_read_only_holds_queries};
use crate::syntax::{
    ParsedCte, ParsedCteView, ParsedExpr, ParsedExprKind, ParsedExprKindView, ParsedExprView, ParsedJoin, ParsedJoinSource,
    ParsedJoinSourceView, ParsedJoinView, ParsedOrder, ParsedOrderView, ParsedProjection, ParsedProjectionView, ParsedStatement,
    ParsedStatementView, ParsedWindowCall, ParsedWindowCallView, ParsedWindowFrameBound, ParsedWindowFrameBoundView, ParsedWindowSpec,
    ParsedWindowSpecView, StatementEffect,
};

verus! {

/// The deepest nesting that is looked at.
pub const MAX_STATEMENT_EFFECT_DEPTH: usize = 64;

/// The greatest number of statements and expressions that are looked at.
pub const MAX_STATEMENT_EFFECT_NODES: usize = 65536;

/// A statement or an expression within a statement.
pub enum EffectNodeView {
    Statement(ParsedStatementView),
    Expr(ParsedExprView),
}

/// Whether a statement is one that, apart from its parts, only reads.
pub open spec fn reads(s: ParsedStatementView) -> bool {
    s is ScalarSelect || s is Select || s is AdvancedSelect || s is With || s is SetOperation || s is Explain
}

/// Expressions as nodes.
pub open spec fn expr_nodes(l: Seq<ParsedExprView>) -> Seq<EffectNodeView> {
    Seq::new(l.len(), |i: int| EffectNodeView::Expr(l[i]))
}

/// Sort keys as nodes.
pub open spec fn order_nodes(l: Seq<ParsedOrderView>) -> Seq<EffectNodeView> {
    Seq::new(l.len(), |i: int| EffectNodeView::Expr(l[i].expr))
}

/// The queries of a WITH clause as nodes.
pub open spec fn cte_nodes(l: Seq<ParsedCteView>) -> Seq<EffectNodeView> {
    Seq::new(l.len(), |i: int| EffectNodeView::Statement(*l[i].query))
}

/// An expression that may be absent as nodes.
pub open spec fn some_nodes(e: Option<ParsedExprView>) -> Seq<EffectNodeView> {
    match e {
        Some(e) => seq![EffectNodeView::Expr(e)],
        None => Seq::empty(),
    }
}

/// A boxed expression that may be absent as nodes.
pub open spec fn option_nodes(e: Option<Box<ParsedExprView>>) -> Seq<EffectNodeView> {
    match e {
        Some(e) => seq![EffectNodeView::Expr(*e)],
        None => Seq::empty(),
    }
}

/// An item of a select list as nodes.
pub open spec fn item_nodes(p: ParsedProjectionView) -> Seq<EffectNodeView> {
    match p {
        ParsedProjectionView::Wildcard => Seq::empty(),
        ParsedProjectionView::Expression { expr, .. } => seq![EffectNodeView::Expr(expr)],
    }
}

/// A select list as nodes.
pub open spec fn items_nodes(l: Seq<ParsedProjectionView>) -> Seq<EffectNodeView>
    decreases l.len(),
{
    if l.len() == 0 {
        Seq::empty()
    } else {
        items_nodes(l.drop_last()) + item_nodes(l.last())
    }
}

/// A join as nodes.
pub open spec fn join_nodes(j: ParsedJoinView) -> Seq<EffectNodeView> {
    match j.source {
        ParsedJoinSourceView::Derived { query, .. } => seq![EffectNodeView::Statement(*query), EffectNodeView::Expr(j.on)],
        ParsedJoinSourceView::Table(_) => seq![EffectNodeView::Expr(j.on)],
    }
}

/// Joins as nodes.
pub open spec fn joins_nodes(l: Seq<ParsedJoinView>) -> Seq<EffectNodeView>
    decreases l.len(),
{
    if l.len() == 0 {
        Seq::empty()
    } else {
        joins_nodes(l.drop_last()) + join_nodes(l.last())
    }
}

/// A frame bound as nodes.
pub open spec fn bound_nodes(b: ParsedWindowFrameBoundView) -> Seq<EffectNodeView> {
    match b {
        ParsedWindowFrameBoundView::Preceding(e) => seq![EffectNodeView::Expr(*e)],
        ParsedWindowFrameBoundView::Following(e) => seq![EffectNodeView::Expr(*e)],
        _ => Seq::empty(),
    }
}

/// A call of a window function as nodes.
pub open spec fn call_nodes(c: ParsedWindowCallView) -> Seq<EffectNodeView> {
    expr_nodes(c.arguments) + option_nodes(c.filter)
}

/// A window as nodes.
pub open spec fn window_nodes(w: ParsedWindowSpecView) -> Seq<EffectNodeView> {
    expr_nodes(w.partition_by) + order_nodes(w.order_by) + (match w.frame {
        Some(f) => bound_nodes(f.start_bound) + bound_nodes(f.end_bound),
        None => Seq::empty(),
    })
}

/// What a statement directly consists of.
pub open spec fn statement_nodes(s: ParsedStatementView) -> Seq<EffectNodeView> {
    match s {
        ParsedStatementView::ScalarSelect { projection } => items_nodes(projection),
        ParsedStatementView::Select { projection, filter, order_by, offset, limit, .. } => items_nodes(projection) + some_nodes(filter)
            + order_nodes(order_by) + some_nodes(offset) + some_nodes(limit),
        ParsedStatementView::AdvancedSelect { joins, projection, filter, group_by, having, order_by, offset, limit, .. } => joins_nodes(
            joins,
        ) + items_nodes(projection) + some_nodes(filter) + expr_nodes(group_by) + some_nodes(having) + order_nodes(order_by) + some_nodes(
            offset,
        ) + some_nodes(limit),
        ParsedStatementView::With { ctes, body, .. } => seq![EffectNodeView::Statement(*body)] + cte_nodes(ctes),
        ParsedStatementView::SetOperation { left, right, order_by, offset, limit, .. } => seq![
            EffectNodeView::Statement(*left),
            EffectNodeView::Statement(*right),
        ] + order_nodes(order_by) + some_nodes(offset) + some_nodes(limit),
        ParsedStatementView::Explain { statement } => seq![EffectNodeView::Statement(*statement)],
        _ => Seq::empty(),
    }
}

/// What an expression directly consists of.
pub open spec fn expression_nodes(e: ParsedExprView) -> Seq<EffectNodeView> {
    match e.kind {
        ParsedExprKindView::Unary { expr, .. } => seq![EffectNodeView::Expr(*expr)],
        ParsedExprKindView::Cast { expr, .. } => seq![EffectNodeView::Expr(*expr)],
        ParsedExprKindView::Array { elements, .. } => expr_nodes(elements),
        ParsedExprKindView::Function { arguments, .. } => expr_nodes(arguments),
        ParsedExprKindView::Binary { left, right, .. } => seq![EffectNodeView::Expr(*left), EffectNodeView::Expr(*right)],
        ParsedExprKindView::InList { expr, list, .. } => seq![EffectNodeView::Expr(*expr)] + expr_nodes(list),
        ParsedExprKindView::ScalarSubquery(query) => seq![EffectNodeView::Statement(*query)],
        ParsedExprKindView::Exists { subquery, .. } => seq![EffectNodeView::Statement(*subquery)],
        ParsedExprKindView::InSubquery { expr, subquery, .. } => seq![EffectNodeView::Expr(*expr), EffectNodeView::Statement(*subquery)],
        ParsedExprKindView::QuantifiedSubquery { left, subquery, .. } => seq![
            EffectNodeView::Expr(*left),
            EffectNodeView::Statement(*subquery),
        ],
        ParsedExprKindView::RowSubquery { left, subquery, .. } => expr_nodes(left) + seq![EffectNodeView::Statement(*subquery)],
        ParsedExprKindView::Aggregate { argument, filter, .. } => option_nodes(argument) + option_nodes(filter),
        ParsedExprKindView::Window { call, spec } => call_nodes(*call) + window_nodes(*spec),
        ParsedExprKindView::NamedWindow { call, .. } => call_nodes(*call),
        _ => Seq::empty(),
    }
}

/// What a node directly consists of.
pub open spec fn parts(n: EffectNodeView) -> Seq<EffectNodeView> {
    match n {
        EffectNodeView::Statement(s) => statement_nodes(s),
        EffectNodeView::Expr(e) => expression_nodes(e),
    }
}

/// The sum of two counts, where both are there.
pub open spec fn both(a: Option<nat>, b: Option<nat>) -> Option<nat> {
    match (a, b) {
        (Some(a), Some(b)) => Some(a + b),
        _ => None,
    }
}

/// The number of nodes in a tree whose statements only read and which does not
/// reach below the deepest nesting; nothing for any other tree.
pub open spec fn reading_nodes(n: EffectNodeView, depth: nat) -> Option<nat>
    decreases 65 - depth, 1int, 0int,
{
    if depth > 64 || (n is Statement && !reads(n->Statement_0)) {
        None
    } else {
        both(Some(1), all_reading_nodes(parts(n), depth + 1))
    }
}

/// The number of nodes in trees that only read.
pub open spec fn all_reading_nodes(l: Seq<EffectNodeView>, depth: nat) -> Option<nat>
    decreases 65 - depth, 2int, l.len(),
{
    if l.len() == 0 {
        Some(0)
    } else {
        both(all_reading_nodes(l.drop_last(), depth), reading_nodes(l.last(), depth))
    }
}

/// The effect of a statement: it only reads where nothing in it may do more, it is
/// not nested too deeply and it is not too large.
pub open spec fn effect(s: ParsedStatementView) -> StatementEffect {
    match reading_nodes(EffectNodeView::Statement(s), 0) {
        Some(n) => if n <= 65536 {
            StatementEffect::ReadOnly
        } else {
            StatementEffect::RequiresApproval
        },
        None => StatementEffect::RequiresApproval,
    }
}

enum EffectNode<'a> {
    Statement(&'a ParsedStatement),
    Expr(&'a ParsedExpr),
}

impl<'a> EffectNode<'a> {
    closed spec fn view(&self) -> EffectNodeView {
        match self {
            EffectNode::Statement(s) => EffectNodeView::Statement(s@),
            EffectNode::Expr(e) => EffectNodeView::Expr(e@),
        }
    }
}

/// Waiting nodes with their depths.
closed spec fn waiting(l: Seq<(EffectNode, usize)>) -> Seq<(EffectNodeView, nat)> {
    Seq::new(l.len(), |i: int| (l[i].0@, l[i].1 as nat))
}

/// Nodes of one depth.
pub open spec fn at_depth(l: Seq<EffectNodeView>, depth: nat) -> Seq<(EffectNodeView, nat)> {
    Seq::new(l.len(), |i: int| (l[i], depth))
}

/// The number of nodes in waiting trees that only read.
pub open spec fn waiting_nodes(l: Seq<(EffectNodeView, nat)>) -> Option<nat>
    decreases l.len(),
{
    if l.len() == 0 {
        Some(0)
    } else {
        both(waiting_nodes(l.drop_last()), reading_nodes(l.last().0, l.last().1))
    }
}

proof fn lemma_waiting(l: Seq<(EffectNodeView, nat)>, more: Seq<EffectNodeView>, depth: nat)
    ensures
        waiting_nodes(l + at_depth(more, depth)) == both(waiting_nodes(l), all_reading_nodes(more, depth)),
    decreases more.len(),
{
    if more.len() == 0 {
        assert(l + at_depth(more, depth) =~= l);
    } else {
        lemma_waiting(l, more.drop_last(), depth);
        let all = l + at_depth(more, depth);
        assert(all.drop_last() =~= l + at_depth(more.drop_last(), depth));
        assert(all.last() == (more.last(), depth));
    }
}

proof fn lemma_at_depth(l: Seq<(EffectNodeView, nat)>, a: Seq<EffectNodeView>, b: Seq<EffectNodeView>, depth: nat)
    ensures
        l + at_depth(a, depth) + at_depth(b, depth) == l + at_depth(a + b, depth),
{
    assert(l + at_depth(a, depth) + at_depth(b, depth) =~= l + at_depth(a + b, depth));
}

fn push_effect_expr<'a>(pending: &mut Vec<(EffectNode<'a>, usize)>, expr: &'a ParsedExpr, depth: usize)
    ensures
        waiting(final(pending)@) == waiting(old(pending)@) + at_depth(seq![EffectNodeView::Expr(expr@)], depth as nat),
{
    let ghost before = waiting(pending@);
    pending.push((EffectNode::Expr(expr), depth));
    assert(waiting(pending@) =~= before + at_depth(seq![EffectNodeView::Expr(expr@)], depth as nat));
}

fn push_effect_statement<'a>(pending: &mut Vec<(EffectNode<'a>, usize)>, statement: &'a ParsedStatement, depth: usize)
    ensures
        waiting(final(pending)@) == waiting(old(pending)@) + at_depth(seq![EffectNodeView::Statement(statement@)], depth as nat),
{
    let ghost before = waiting(pending@);
    pending.push((EffectNode::Statement(statement), depth));
    assert(waiting(pending@) =~= before + at_depth(seq![EffectNodeView::Statement(statement@)], depth as nat));
}

fn push_effect_projections<'a>(pending: &mut Vec<(EffectNode<'a>, usize)>, projections: &'a Vec<ParsedProjection>, depth: usize)
    ensures
        waiting(final(pending)@) == waiting(old(pending)@) + at_depth(items_nodes(ParsedProjection::views(projections@)), depth as nat),
{
    let ghost before = waiting(pending@);
    let ghost v = ParsedProjection::views(projections@);
    assert(waiting(pending@) =~= before + at_depth(items_nodes(v.take(0)), depth as nat));
    for i in 0..projections.len()
        invariant
            v == ParsedProjection::views(projections@),
            before == waiting(old(pending)@),
            waiting(pending@) == before + at_depth(items_nodes(v.take(i as int)), depth as nat),
    {
        proof {
            projections@[i as int].unfold();
        }
        assert(v.take(i + 1).drop_last() =~= v.take(i as int));
        assert(v.take(i + 1).last() == projections@[i as int]@);
        match &projections[i] {
            ParsedProjection::Wildcard => {
                assert(items_nodes(v.take(i + 1)) =~= items_nodes(v.take(i as int)));
            },
            ParsedProjection::Expression { expr, .. } => {
                push_effect_expr(pending, expr, depth);
                assert(waiting(pending@) =~= before + at_depth(items_nodes(v.take(i + 1)), depth as nat));
            },
        }
    }
    assert(v.take(projections@.len() as int) =~= v);
}

fn push_effect_orders<'a>(pending: &mut Vec<(EffectNode<'a>, usize)>, orders: &'a Vec<ParsedOrder>, depth: usize)
    ensures
        waiting(final(pending)@) == waiting(old(pending)@) + at_depth(order_nodes(ParsedOrder::views(orders@)), depth as nat),
{
    let ghost before = waiting(pending@);
    let ghost v = ParsedOrder::views(orders@);
    assert(waiting(pending@) =~= before + at_depth(order_nodes(v.take(0)), depth as nat));
    for i in 0..orders.len()
        invariant
            v == ParsedOrder::views(orders@),
            before == waiting(old(pending)@),
            waiting(pending@) == before + at_depth(order_nodes(v.take(i as int)), depth as nat),
    {
        proof {
            orders@[i as int].unfold();
        }
        assert(v[i as int] == orders@[i as int]@);
        push_effect_expr(pending, &orders[i].expr, depth);
        assert(waiting(pending@) =~= before + at_depth(order_nodes(v.take(i + 1)), depth as nat));
    }
    assert(v.take(orders@.len() as int) =~= v);
}

fn push_effect_exprs<'a>(pending: &mut Vec<(EffectNode<'a>, usize)>, expressions: &'a Vec<ParsedExpr>, depth: usize)
    ensures
        waiting(final(pending)@) == waiting(old(pending)@) + at_depth(expr_nodes(ParsedExpr::views(expressions@)), depth as nat),
{
    let ghost before = waiting(pending@);
    let ghost v = ParsedExpr::views(expressions@);
    assert(waiting(pending@) =~= before + at_depth(expr_nodes(v.take(0)), depth as nat));
    for i in 0..expressions.len()
        invariant
            v == ParsedExpr::views(expressions@),
            before == waiting(old(pending)@),
            waiting(pending@) == before + at_depth(expr_nodes(v.take(i as int)), depth as nat),
    {
        assert(v[i as int] == expressions@[i as int]@);
        push_effect_expr(pending, &expressions[i], depth);
        assert(waiting(pending@) =~= before + at_depth(expr_nodes(v.take(i + 1)), depth as nat));
    }
    assert(v.take(expressions@.len() as int) =~= v);
}

fn push_effect_ctes<'a>(pending: &mut Vec<(EffectNode<'a>, usize)>, ctes: &'a Vec<ParsedCte>, depth: usize)
    ensures
        waiting(final(pending)@) == waiting(old(pending)@) + at_depth(cte_nodes(ParsedCte::views(ctes@)), depth as nat),
{
    let ghost before = waiting(pending@);
    let ghost v = ParsedCte::views(ctes@);
    assert(waiting(pending@) =~= before + at_depth(cte_nodes(v.take(0)), depth as nat));
    for i in 0..ctes.len()
        invariant
            v == ParsedCte::views(ctes@),
            before == waiting(old(pending)@),
            waiting(pending@) == before + at_depth(cte_nodes(v.take(i as int)), depth as nat),
    {
        proof {
            ctes@[i as int].unfold();
        }
        assert(v[i as int] == ctes@[i as int]@);
        push_effect_statement(pending, &ctes[i].query, depth);
        assert(waiting(pending@) =~= before + at_depth(cte_nodes(v.take(i + 1)), depth as nat));
    }
    assert(v.take(ctes@.len() as int) =~= v);
}

fn push_effect_joins<'a>(pending: &mut Vec<(EffectNode<'a>, usize)>, joins: &'a Vec<ParsedJoin>, depth: usize)
    ensures
        waiting(final(pending)@) == waiting(old(pending)@) + at_depth(joins_nodes(ParsedJoin::views(joins@)), depth as nat),
{
    let ghost before = waiting(pending@);
    let ghost v = ParsedJoin::views(joins@);
    assert(waiting(pending@) =~= before + at_depth(joins_nodes(v.take(0)), depth as nat));
    for i in 0..joins.len()
        invariant
            v == ParsedJoin::views(joins@),
            before == waiting(old(pending)@),
            waiting(pending@) == before + at_depth(joins_nodes(v.take(i as int)), depth as nat),
    {
        proof {
            joins@[i as int].unfold();
            joins@[i as int].source.unfold();
        }
        assert(v.take(i + 1).drop_last() =~= v.take(i as int));
        assert(v.take(i + 1).last() == joins@[i as int]@);
        if let ParsedJoinSource::Derived { query, .. } = &joins[i].source {
            push_effect_statement(pending, query, depth);
        }
        push_effect_expr(pending, &joins[i].on, depth);
        assert(waiting(pending@) =~= before + at_depth(joins_nodes(v.take(i + 1)), depth as nat));
    }
    assert(v.take(joins@.len() as int) =~= v);
}

fn push_effect_optional_expr<'a>(pending: &mut Vec<(EffectNode<'a>, usize)>, expression: &'a Option<ParsedExpr>, depth: usize)
    ensures
        waiting(final(pending)@) == waiting(old(pending)@) + at_depth(some_nodes(some_view(*expression)), depth as nat),
{
    match expression {
        Some(e) => {
            push_effect_expr(pending, e, depth);
        },
        None => {
            assert(waiting(pending@) =~= waiting(pending@) + at_depth(some_nodes(None), depth as nat));
        },
    }
}

fn push_effect_boxed_expr<'a>(pending: &mut Vec<(EffectNode<'a>, usize)>, expression: &'a Option<Box<ParsedExpr>>, depth: usize)
    ensures
        waiting(final(pending)@) == waiting(old(pending)@) + at_depth(option_nodes(option_view(*expression)), depth as nat),
{
    match expression {
        Some(e) => {
            push_effect_expr(pending, e, depth);
        },
        None => {
            assert(waiting(pending@) =~= waiting(pending@) + at_depth(option_nodes(None), depth as nat));
        },
    }
}

fn push_effect_window_bound<'a>(pending: &mut Vec<(EffectNode<'a>, usize)>, bound: &'a ParsedWindowFrameBound, depth: usize)
    ensures
        waiting(final(pending)@) == waiting(old(pending)@) + at_depth(bound_nodes(bound@), depth as nat),
{
    proof {
        bound.unfold();
    }
    match bound {
        ParsedWindowFrameBound::Preceding(e) => {
            push_effect_expr(pending, e, depth);
        },
        ParsedWindowFrameBound::Following(e) => {
            push_effect_expr(pending, e, depth);
        },
        _ => {
            assert(waiting(pending@) =~= waiting(pending@) + at_depth(bound_nodes(bound@), depth as nat));
        },
    }
}

fn push_effect_call<'a>(pending: &mut Vec<(EffectNode<'a>, usize)>, call: &'a ParsedWindowCall, depth: usize)
    ensures
        waiting(final(pending)@) == waiting(old(pending)@) + at_depth(call_nodes(call@), depth as nat),
{
    proof {
        call.unfold();
    }
    let ghost before = waiting(pending@);
    push_effect_exprs(pending, &call.arguments, depth);
    push_effect_boxed_expr(pending, &call.filter, depth);
    assert(waiting(pending@) =~= before + at_depth(call_nodes(call@), depth as nat));
}

fn push_effect_window<'a>(pending: &mut Vec<(EffectNode<'a>, usize)>, spec: &'a ParsedWindowSpec, depth: usize)
    ensures
        waiting(final(pending)@) == waiting(old(pending)@) + at_depth(window_nodes(spec@), depth as nat),
{
    proof {
        spec.unfold();
    }
    let ghost before = waiting(pending@);
    push_effect_exprs(pending, &spec.partition_by, depth);
    push_effect_orders(pending, &spec.order_by, depth);
    if let Some(frame) = &spec.frame {
        proof {
            frame.unfold();
        }
        push_effect_window_bound(pending, &frame.start_bound, depth);
        push_effect_window_bound(pending, &frame.end_bound, depth);
    }
    assert(waiting(pending@) =~= before + at_depth(window_nodes(spec@), depth as nat));
}

fn push_effect_expr_parts<'a>(pending: &mut Vec<(EffectNode<'a>, usize)>, expr: &'a ParsedExpr, depth: usize)
    ensures
        waiting(final(pending)@) == waiting(old(pending)@) + at_depth(expression_nodes(expr@), depth as nat),
{
    let ghost before = waiting(pending@);
    proof {
        expr.unfold();
    }
    match &expr.kind {
        ParsedExprKind::Unary { expr, .. } => {
            push_effect_expr(pending, expr, depth);
        },
        ParsedExprKind::Cast { expr, .. } => {
            push_effect_expr(pending, expr, depth);
        },
        ParsedExprKind::Array { elements, .. } => {
            push_effect_exprs(pending, elements, depth);
        },
        ParsedExprKind::Function { arguments, .. } => {
            push_effect_exprs(pending, arguments, depth);
        },
        ParsedExprKind::Binary { left, right, .. } => {
            push_effect_expr(pending, left, depth);
            push_effect_expr(pending, right, depth);
        },
        ParsedExprKind::InList { expr, list, .. } => {
            push_effect_expr(pending, expr, depth);
            push_effect_exprs(pending, list, depth);
        },
        ParsedExprKind::ScalarSubquery(query) => {
            push_effect_statement(pending, query, depth);
        },
        ParsedExprKind::Exists { subquery, .. } => {
            push_effect_statement(pending, subquery, depth);
        },
        ParsedExprKind::InSubquery { expr, subquery, .. } => {
            push_effect_expr(pending, expr, depth);
            push_effect_statement(pending, subquery, depth);
        },
        ParsedExprKind::QuantifiedSubquery { left, subquery, .. } => {
            push_effect_expr(pending, left, depth);
            push_effect_statement(pending, subquery, depth);
        },
        ParsedExprKind::RowSubquery { left, subquery, .. } => {
            push_effect_exprs(pending, left, depth);
            push_effect_statement(pending, subquery, depth);
        },
        ParsedExprKind::Aggregate { argument, filter, .. } => {
            push_effect_boxed_expr(pending, argument, depth);
            push_effect_boxed_expr(pending, filter, depth);
        },
        ParsedExprKind::Window { call, spec } => {
            push_effect_call(pending, call, depth);
            push_effect_window(pending, spec, depth);
        },
        ParsedExprKind::NamedWindow { call, .. } => {
            push_effect_call(pending, call, depth);
        },
        _ => {},
    }
    assert(waiting(pending@) =~= before + at_depth(expression_nodes(expr@), depth as nat));
}

/// Makes the parts of a statement wait, and tells whether the statement itself only
/// reads.
fn push_effect_statement_parts<'a>(pending: &mut Vec<(EffectNode<'a>, usize)>, statement: &'a ParsedStatement, depth: usize) -> (r: bool)
    ensures
        r == reads(statement@),
        waiting(final(pending)@) == waiting(old(pending)@) + at_depth(statement_nodes(statement@), depth as nat),
{
    let ghost before = waiting(pending@);
    proof {
        statement.unfold();
    }
    match statement {
        ParsedStatement::ScalarSelect { projection } => {
            push_effect_projections(pending, projection, depth);
            true
        },
        ParsedStatement::Select { projection, filter, order_by, offset, limit, .. } => {
            push_effect_projections(pending, projection, depth);
            push_effect_optional_expr(pending, filter, depth);
            proof {
                lemma_at_depth(before, items_nodes(ParsedProjection::views(projection@)), some_nodes(some_view(*filter)), depth as nat);
            }
            push_effect_orders(pending, order_by, depth);
            proof {
                lemma_at_depth(
                    before,
                    items_nodes(ParsedProjection::views(projection@)) + some_nodes(some_view(*filter)),
                    order_nodes(ParsedOrder::views(order_by@)),
                    depth as nat,
                );
            }
            push_effect_optional_expr(pending, offset, depth);
            proof {
                lemma_at_depth(
                    before,
                    items_nodes(
                        ParsedProjection::views(projection@),
                    ) + some_nodes(some_view(*filter)) + order_nodes(ParsedOrder::views(order_by@)),
                    some_nodes(some_view(*offset)),
                    depth as nat,
                );
            }
            push_effect_optional_expr(pending, limit, depth);
            proof {
                lemma_at_depth(
                    before,
                    items_nodes(
                        ParsedProjection::views(projection@),
                    ) + some_nodes(some_view(*filter)) + order_nodes(ParsedOrder::views(order_by@)) + some_nodes(some_view(*offset)),
                    some_nodes(some_view(*limit)),
                    depth as nat,
                );
            }
            true
        },
        ParsedStatement::AdvancedSelect { joins, projection, filter, group_by, having, order_by, offset, limit, .. } => {
            push_effect_joins(pending, joins, depth);
            push_effect_projections(pending, projection, depth);
            proof {
                lemma_at_depth(
                    before,
                    joins_nodes(ParsedJoin::views(joins@)),
                    items_nodes(ParsedProjection::views(projection@)),
                    depth as nat,
                );
            }
            push_effect_optional_expr(pending, filter, depth);
            proof {
                lemma_at_depth(
                    before,
                    joins_nodes(ParsedJoin::views(joins@)) + items_nodes(ParsedProjection::views(projection@)),
                    some_nodes(some_view(*filter)),
                    depth as nat,
                );
            }
            push_effect_exprs(pending, group_by, depth);
            proof {
                lemma_at_depth(
                    before,
                    joins_nodes(ParsedJoin::views(joins@)) + items_nodes(
                        ParsedProjection::views(projection@),
                    ) + some_nodes(some_view(*filter)),
                    expr_nodes(ParsedExpr::views(group_by@)),
                    depth as nat,
                );
            }
            push_effect_optional_expr(pending, having, depth);
            proof {
                lemma_at_depth(
                    before,
                    joins_nodes(ParsedJoin::views(joins@)) + items_nodes(
                        ParsedProjection::views(projection@),
                    ) + some_nodes(some_view(*filter)) + expr_nodes(ParsedExpr::views(group_by@)),
                    some_nodes(some_view(*having)),
                    depth as nat,
                );
            }
            push_effect_orders(pending, order_by, depth);
            proof {
                lemma_at_depth(
                    before,
                    joins_nodes(ParsedJoin::views(joins@)) + items_nodes(
                        ParsedProjection::views(projection@),
                    ) + some_nodes(some_view(*filter)) + expr_nodes(ParsedExpr::views(group_by@)) + some_nodes(some_view(*having)),
                    order_nodes(ParsedOrder::views(order_by@)),
                    depth as nat,
                );
            }
            push_effect_optional_expr(pending, offset, depth);
            proof {
                lemma_at_depth(
                    before,
                    joins_nodes(ParsedJoin::views(joins@)) + items_nodes(
                        ParsedProjection::views(projection@),
                    ) + some_nodes(some_view(*filter)) + expr_nodes(
                        ParsedExpr::views(group_by@),
                    ) + some_nodes(some_view(*having)) + order_nodes(
                        ParsedOrder::views(order_by@),
                    ),
                    some_nodes(some_view(*offset)),
                    depth as nat,
                );
            }
            push_effect_optional_expr(pending, limit, depth);
            proof {
                lemma_at_depth(
                    before,
                    joins_nodes(ParsedJoin::views(joins@)) + items_nodes(
                        ParsedProjection::views(projection@),
                    ) + some_nodes(some_view(*filter)) + expr_nodes(
                        ParsedExpr::views(group_by@),
                    ) + some_nodes(some_view(*having)) + order_nodes(
                        ParsedOrder::views(order_by@),
                    ) + some_nodes(some_view(*offset)),
                    some_nodes(some_view(*limit)),
                    depth as nat,
                );
            }
            true
        },
        ParsedStatement::With { ctes, body, .. } => {
            push_effect_statement(pending, body, depth);
            push_effect_ctes(pending, ctes, depth);
            proof {
                lemma_at_depth(before, seq![EffectNodeView::Statement(body@)], cte_nodes(ParsedCte::views(ctes@)), depth as nat);
            }
            true
        },
        ParsedStatement::SetOperation { left, right, order_by, offset, limit, .. } => {
            push_effect_statement(pending, left, depth);
            push_effect_statement(pending, right, depth);
            proof {
                lemma_at_depth(before, seq![EffectNodeView::Statement(left@)], seq![EffectNodeView::Statement(right@)], depth as nat);
                assert(seq![EffectNodeView::Statement(left@)] + seq![EffectNodeView::Statement(right@)] =~= seq![
                    EffectNodeView::Statement(left@),
                    EffectNodeView::Statement(right@),
                ]);
            }
            push_effect_orders(pending, order_by, depth);
            proof {
                lemma_at_depth(
                    before,
                    seq![EffectNodeView::Statement(left@), EffectNodeView::Statement(right@)],
                    order_nodes(ParsedOrder::views(order_by@)),
                    depth as nat,
                );
            }
            push_effect_optional_expr(pending, offset, depth);
            proof {
                lemma_at_depth(
                    before,
                    seq![EffectNodeView::Statement(left@), EffectNodeView::Statement(right@)] + order_nodes(ParsedOrder::views(order_by@)),
                    some_nodes(some_view(*offset)),
                    depth as nat,
                );
            }
            push_effect_optional_expr(pending, limit, depth);
            proof {
                lemma_at_depth(
                    before,
                    seq![
                        EffectNodeView::Statement(left@),
                        EffectNodeView::Statement(right@),
                    ] + order_nodes(ParsedOrder::views(order_by@)) + some_nodes(some_view(*offset)),
                    some_nodes(some_view(*limit)),
                    depth as nat,
                );
            }
            true
        },
        ParsedStatement::Explain { statement } => {
            push_effect_statement(pending, statement, depth);
            true
        },
        _ => {
            assert(waiting(pending@) =~= before + at_depth(statement_nodes(statement@), depth as nat));
            false
        },
    }
}

proof fn lemma_classified(s: ParsedStatementView)
    ensures
        effect(s) == StatementEffect::ReadOnly ==> s is ScalarSelect || s is Select || s is AdvancedSelect || s is With || s is SetOperation
            || s is Explain,
        effect(s) == StatementEffect::ReadOnly ==> forall|chain: Seq<EffectNodeView>|
            #[trigger] leads_inwards(s, chain) ==> chain.len() <= 65 && !changes(chain.last()),
{
    if effect(s) == StatementEffect::ReadOnly {
        if !(s is ScalarSelect) && !(s is Select) && !(s is AdvancedSelect) && !(s is With) && !(s is SetOperation) && !(s is Explain) {
            lemma_changes_need_approval(s);
        }
        assert forall|chain: Seq<EffectNodeView>| #[trigger] leads_inwards(s, chain) implies chain.len() <= 65 && !changes(chain.last()) by {
            lemma_read_only_holds_queries(s, chain);
            assert(chain.last() == chain[chain.len() - 1]);
        }
    }
}

/// Tells whether a statement only reads.
pub fn classify_statement_effect(statement: &ParsedStatement) -> (r: StatementEffect)
    ensures
        r == effect(statement@),
        statement@ is Insert || statement@ is Update || statement@ is Delete || statement@ is Merge ==> r == StatementEffect::RequiresApproval,
        r == StatementEffect::ReadOnly ==> statement@ is ScalarSelect || statement@ is Select || statement@ is AdvancedSelect
            || statement@ is With || statement@ is SetOperation || statement@ is Explain,
        r == StatementEffect::ReadOnly ==> forall|chain: Seq<EffectNodeView>|
            #[trigger] leads_inwards(statement@, chain) ==> chain.len() <= 65 && !changes(chain.last()),
{
    proof {
        lemma_classified(statement@);
    }
    let ghost root = reading_nodes(EffectNodeView::Statement(statement@), 0);
    let mut pending: Vec<(EffectNode, usize)> = Vec::new();
    let mut visited: usize = 0;
    assert(waiting(pending@) =~= Seq::empty());
    push_effect_statement(&mut pending, statement, 0);
    proof {
        lemma_waiting(Seq::empty(), seq![EffectNodeView::Statement(statement@)], 0);
        assert(seq![EffectNodeView::Statement(statement@)].drop_last() =~= Seq::empty());
        assert(all_reading_nodes(Seq::empty(), 0) == Some(0nat));
    }
    while pending.len() > 0
        invariant
            visited <= 65536,
            root == reading_nodes(EffectNodeView::Statement(statement@), 0),
            root == both(Some(visited as nat), waiting_nodes(waiting(pending@))),
        decreases 65536 - visited,
    {
        let ghost all = waiting(pending@);
        let next = pending.pop();
        let ghost rest = waiting(pending@);
        if let Some((node, depth)) = next {
            assert(all.drop_last() =~= rest);
            assert(all.last() == (node@, depth as nat));
            if depth > MAX_STATEMENT_EFFECT_DEPTH || visited >= MAX_STATEMENT_EFFECT_NODES {
                return StatementEffect::RequiresApproval;
            }
            visited = visited + 1;
            let reading = match node {
                EffectNode::Statement(s) => push_effect_statement_parts(&mut pending, s, depth + 1),
                EffectNode::Expr(e) => {
                    push_effect_expr_parts(&mut pending, e, depth + 1);
                    true
                },
            };
            if !reading {
                return StatementEffect::RequiresApproval;
            }
            proof {
                lemma_waiting(rest, parts(node@), (depth + 1) as nat);
            }
        }
    }
    StatementEffect::ReadOnly
}

/// The part of a statement or expression that a path leads to: each step names one of
/// the direct parts.
pub open spec fn reached(n: EffectNodeView, path: Seq<int>) -> Option<EffectNodeView>
    decreases path.len(),
{
    if path.len() == 0 {
        Some(n)
    } else if 0 <= path[0] < parts(n).len() {
        reached(parts(n)[path[0]], path.skip(1))
    } else {
        None
    }
}

/// A statement that only reads holds no statement, however deeply, that does more than
/// read, and no part that lies too deep to be looked at.
pub proof fn lemma_parts_read(s: ParsedStatementView, path: Seq<int>)
    requires
        effect(s) == StatementEffect::ReadOnly,
        reached(EffectNodeView::Statement(s), path) is Some,
    ensures
        path.len() <= 64,
        reached(EffectNodeView::Statement(s), path)->0 matches EffectNodeView::Statement(part) ==> reads(part),
{
    lemma_reached(EffectNodeView::Statement(s), 0, path);
}

proof fn lemma_reached(n: EffectNodeView, depth: nat, path: Seq<int>)
    requires
        reading_nodes(n, depth) is Some,
    ensures
        reached(n, path) matches Some(m) ==> reading_nodes(m, depth + path.len()) is Some,
    decreases path.len(),
{
    if path.len() > 0 && 0 <= path[0] < parts(n).len() {
        lemma_each_reads(parts(n), depth + 1, path[0]);
        lemma_reached(parts(n)[path[0]], depth + 1, path.skip(1));
    }
}

proof fn lemma_each_reads(l: Seq<EffectNodeView>, depth: nat, i: int)
    requires
        all_reading_nodes(l, depth) is Some,
        0 <= i < l.len(),
    ensures
        reading_nodes(l[i], depth) is Some,
    decreases l.len(),
{
    if i < l.len() - 1 {
        lemma_each_reads(l.drop_last(), depth, i);
    }
}

} // verus!
