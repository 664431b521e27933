//! What the steps from a parsed query to its bound form keep of its expressions.

use vstd::prelude::*;

use crate::bound::{BoundApplyView, BoundWindowView};
use crate::catalog::CatalogView;
use crate::laws_typing::{
    all_resemble, assignments_resemble, clause_resembles, item_resembles, items_resemble, join_resembles, joins_resemble,
    lemma_list_resembles, merge_clause_resembles, merge_resembles, orders_resemble, outlines, resembles,
};
use crate::query_rules::{applied_expr, applied_exprs, applied_items, applied_option, applied_orders, applied_some};
use crate::scope::InputColumnView;
use crate::select_list::{final_item, final_items, final_order, final_orders, window_item, window_items, window_order, window_orders};
use crate::syntax::{
    ParsedConflictActionView, ParsedExprKindView, ParsedExprView, ParsedJoinView, ParsedMergeActionView, ParsedOrderView,
    ParsedProjectionView, ParsedStatementView,
};
use crate::windows::{finalized, finalized_all, finalized_option, lowered, lowered_all};

verus! {

/// Every expression resembles itself.
pub proof fn lemma_resembles_itself(e: ParsedExprView)
    ensures
        resembles(e, e),
    decreases e, 1int,
{
    match e.kind {
        ParsedExprKindView::Unary { expr, .. } => lemma_resembles_itself(*expr),
        ParsedExprKindView::Cast { expr, .. } => lemma_resembles_itself(*expr),
        ParsedExprKindView::Array { elements, .. } => lemma_all_itself(elements, 0),
        ParsedExprKindView::Function { arguments, .. } => lemma_all_itself(arguments, 0),
        ParsedExprKindView::Binary { left, right, .. } => {
            lemma_resembles_itself(*left);
            lemma_resembles_itself(*right);
        },
        ParsedExprKindView::InList { expr, list, .. } => {
            lemma_resembles_itself(*expr);
            lemma_all_itself(list, 0);
        },
        ParsedExprKindView::Aggregate { argument, filter, .. } => {
            if let Some(a) = argument {
                lemma_resembles_itself(*a);
            }
            if let Some(f) = filter {
                lemma_resembles_itself(*f);
            }
        },
        _ => {},
    }
}

proof fn lemma_all_itself(l: Seq<ParsedExprView>, i: int)
    requires
        0 <= i,
    ensures
        all_resemble(l, l, i),
    decreases l, l.len() - i,
{
    if i < l.len() {
        lemma_resembles_itself(l[i]);
        lemma_all_itself(l, i + 1);
    }
}

/// What resembles something that resembles an expression resembles that expression.
pub proof fn lemma_resembles_through(a: ParsedExprView, b: ParsedExprView, c: ParsedExprView)
    requires
        resembles(a, b),
        resembles(b, c),
    ensures
        resembles(a, c),
    decreases a, 1int,
{
    match a.kind {
        ParsedExprKindView::Unary { expr, .. } => lemma_resembles_through(*expr, *b.kind->Unary_expr, *c.kind->Unary_expr),
        ParsedExprKindView::Cast { expr, .. } => lemma_resembles_through(*expr, *b.kind->Cast_expr, *c.kind->Cast_expr),
        ParsedExprKindView::Array { elements, .. } => lemma_all_through(elements, b.kind->Array_elements, c.kind->Array_elements, 0),
        ParsedExprKindView::Function { arguments, .. } => {
            if b.kind is Function && c.kind is Function {
                lemma_all_through(arguments, b.kind->Function_arguments, c.kind->Function_arguments, 0);
            }
        },
        ParsedExprKindView::Binary { left, right, .. } => {
            lemma_resembles_through(*left, *b.kind->Binary_left, *c.kind->Binary_left);
            lemma_resembles_through(*right, *b.kind->Binary_right, *c.kind->Binary_right);
        },
        ParsedExprKindView::InList { expr, list, .. } => {
            lemma_resembles_through(*expr, *b.kind->InList_expr, *c.kind->InList_expr);
            lemma_all_through(list, b.kind->InList_list, c.kind->InList_list, 0);
        },
        ParsedExprKindView::Aggregate { argument, filter, .. } => {
            if let Some(x) = argument {
                lemma_resembles_through(*x, *b.kind->Aggregate_argument->0, *c.kind->Aggregate_argument->0);
            }
            if let Some(f) = filter {
                lemma_resembles_through(*f, *b.kind->Aggregate_filter->0, *c.kind->Aggregate_filter->0);
            }
        },
        _ => {},
    }
}

proof fn lemma_all_through(a: Seq<ParsedExprView>, b: Seq<ParsedExprView>, c: Seq<ParsedExprView>, i: int)
    requires
        0 <= i,
        all_resemble(a, b, i),
        all_resemble(b, c, i),
    ensures
        all_resemble(a, c, i),
    decreases a, a.len() - i,
{
    if i < a.len() {
        lemma_resembles_through(a[i], b[i], c[i]);
        lemma_all_through(a, b, c, i + 1);
    }
}

proof fn lemma_clause_through(a: Option<ParsedExprView>, b: Option<ParsedExprView>, c: Option<ParsedExprView>)
    requires
        clause_resembles(a, b),
        clause_resembles(b, c),
    ensures
        clause_resembles(a, c),
{
    if a is Some {
        lemma_resembles_through(a->0, b->0, c->0);
    }
}

/// The same of sort keys.
pub proof fn lemma_orders_through(a: Seq<ParsedOrderView>, b: Seq<ParsedOrderView>, c: Seq<ParsedOrderView>)
    requires
        orders_resemble(a, b),
        orders_resemble(b, c),
    ensures
        orders_resemble(a, c),
{
    assert forall|k: int| 0 <= k < a.len() implies c[k].ascending == (#[trigger] a[k]).ascending && c[k].nulls_first == a[k].nulls_first
        && resembles(a[k].expr, c[k].expr) by {
        assert(b[k].ascending == a[k].ascending);
        assert(c[k].ascending == b[k].ascending);
        lemma_resembles_through(a[k].expr, b[k].expr, c[k].expr);
    }
}

/// The same of select lists.
pub proof fn lemma_items_through(a: Seq<ParsedProjectionView>, b: Seq<ParsedProjectionView>, c: Seq<ParsedProjectionView>)
    requires
        items_resemble(a, b),
        items_resemble(b, c),
    ensures
        items_resemble(a, c),
{
    assert forall|k: int| 0 <= k < a.len() implies item_resembles(#[trigger] a[k], c[k]) by {
        assert(item_resembles(a[k], b[k]));
        assert(item_resembles(b[k], c[k]));
        if let ParsedProjectionView::Expression { expr, .. } = a[k] {
            lemma_resembles_through(expr, b[k]->Expression_expr, c[k]->Expression_expr);
        }
    }
}

proof fn lemma_assignments_through(
    a: Seq<(crate::syntax::ParsedIdentifierView, ParsedExprView)>,
    b: Seq<(crate::syntax::ParsedIdentifierView, ParsedExprView)>,
    c: Seq<(crate::syntax::ParsedIdentifierView, ParsedExprView)>,
)
    requires
        assignments_resemble(a, b),
        assignments_resemble(b, c),
    ensures
        assignments_resemble(a, c),
{
    assert forall|k: int| 0 <= k < a.len() implies c[k].0 == (#[trigger] a[k]).0 && resembles(a[k].1, c[k].1) by {
        assert(b[k].0 == a[k].0);
        assert(c[k].0 == b[k].0);
        lemma_resembles_through(a[k].1, b[k].1, c[k].1);
    }
}

proof fn lemma_joins_through(a: Seq<ParsedJoinView>, b: Seq<ParsedJoinView>, c: Seq<ParsedJoinView>)
    requires
        joins_resemble(a, b),
        joins_resemble(b, c),
    ensures
        joins_resemble(a, c),
{
    assert forall|k: int| 0 <= k < a.len() implies join_resembles(#[trigger] a[k], c[k]) by {
        assert(join_resembles(a[k], b[k]));
        assert(join_resembles(b[k], c[k]));
        lemma_resembles_through(a[k].on, b[k].on, c[k].on);
    }
}

proof fn lemma_merge_through(a: crate::syntax::ParsedMergeView, b: crate::syntax::ParsedMergeView, c: crate::syntax::ParsedMergeView)
    requires
        merge_resembles(a, b),
        merge_resembles(b, c),
    ensures
        merge_resembles(a, c),
{
    lemma_resembles_through(a.on, b.on, c.on);
    lemma_items_through(a.returning, b.returning, c.returning);
    assert forall|k: int| 0 <= k < a.clauses.len() implies merge_clause_resembles(#[trigger] a.clauses[k], c.clauses[k]) by {
        let (x, y, z) = (a.clauses[k], b.clauses[k], c.clauses[k]);
        assert(merge_clause_resembles(x, y));
        assert(merge_clause_resembles(y, z));
        lemma_clause_through(x.predicate, y.predicate, z.predicate);
        match x.action {
            ParsedMergeActionView::Update { assignments } => lemma_assignments_through(
                assignments,
                y.action->Update_assignments,
                z.action->Update_assignments,
            ),
            ParsedMergeActionView::Insert { values, .. } => lemma_all_through(values, y.action->Insert_values, z.action->Insert_values, 0),
            _ => {},
        }
    }
}

/// What outlines something that outlines a statement outlines that statement.
pub proof fn lemma_outlines_through(s: ParsedStatementView, t: ParsedStatementView, u: ParsedStatementView)
    requires
        outlines(s, t),
        outlines(t, u),
    ensures
        outlines(s, u),
{
    match s {
        ParsedStatementView::Select { projection, filter, order_by, offset, limit, .. } => {
            lemma_items_through(projection, t->Select_projection, u->Select_projection);
            lemma_clause_through(filter, t->Select_filter, u->Select_filter);
            lemma_orders_through(order_by, t->Select_order_by, u->Select_order_by);
            lemma_clause_through(offset, t->Select_offset, u->Select_offset);
            lemma_clause_through(limit, t->Select_limit, u->Select_limit);
        },
        ParsedStatementView::AdvancedSelect { joins, projection, filter, group_by, having, order_by, offset, limit, .. } => {
            lemma_joins_through(joins, t->AdvancedSelect_joins, u->AdvancedSelect_joins);
            lemma_items_through(projection, t->AdvancedSelect_projection, u->AdvancedSelect_projection);
            lemma_clause_through(filter, t->AdvancedSelect_filter, u->AdvancedSelect_filter);
            lemma_all_through(group_by, t->AdvancedSelect_group_by, u->AdvancedSelect_group_by, 0);
            lemma_clause_through(having, t->AdvancedSelect_having, u->AdvancedSelect_having);
            lemma_orders_through(order_by, t->AdvancedSelect_order_by, u->AdvancedSelect_order_by);
            lemma_clause_through(offset, t->AdvancedSelect_offset, u->AdvancedSelect_offset);
            lemma_clause_through(limit, t->AdvancedSelect_limit, u->AdvancedSelect_limit);
        },
        ParsedStatementView::SetOperation { order_by, offset, limit, .. } => {
            lemma_orders_through(order_by, t->SetOperation_order_by, u->SetOperation_order_by);
            lemma_clause_through(offset, t->SetOperation_offset, u->SetOperation_offset);
            lemma_clause_through(limit, t->SetOperation_limit, u->SetOperation_limit);
        },
        ParsedStatementView::With { ctes, .. } => {
            let (b, c) = (t->With_ctes, u->With_ctes);
            assert forall|k: int| 0 <= k < ctes.len() implies c[k].name == (#[trigger] ctes[k]).name && c[k].columns == ctes[k].columns by {
                assert(b[k].name == ctes[k].name);
                assert(c[k].name == b[k].name);
            }
        },
        ParsedStatementView::ScalarSelect { projection } => lemma_items_through(
            projection,
            t->ScalarSelect_projection,
            u->ScalarSelect_projection,
        ),
        ParsedStatementView::Insert { rows, on_conflict, returning, .. } => {
            let (b, c) = (t->Insert_rows, u->Insert_rows);
            assert forall|k: int| 0 <= k < rows.len() implies all_resemble(#[trigger] rows[k], c[k], 0) by {
                assert(all_resemble(rows[k], b[k], 0));
                assert(all_resemble(b[k], c[k], 0));
                lemma_all_through(rows[k], b[k], c[k], 0);
            }
            lemma_items_through(returning, t->Insert_returning, u->Insert_returning);
            if let Some(o) = on_conflict {
                if let ParsedConflictActionView::DoUpdate { assignments, filter } = o.action {
                    let (p, q) = (t->Insert_on_conflict->0.action, u->Insert_on_conflict->0.action);
                    lemma_assignments_through(assignments, p->DoUpdate_assignments, q->DoUpdate_assignments);
                    lemma_clause_through(filter, p->DoUpdate_filter, q->DoUpdate_filter);
                }
            }
        },
        ParsedStatementView::Update { assignments, filter, returning, .. } => {
            lemma_assignments_through(assignments, t->Update_assignments, u->Update_assignments);
            lemma_clause_through(filter, t->Update_filter, u->Update_filter);
            lemma_items_through(returning, t->Update_returning, u->Update_returning);
        },
        ParsedStatementView::Delete { filter, returning, .. } => {
            lemma_clause_through(filter, t->Delete_filter, u->Delete_filter);
            lemma_items_through(returning, t->Delete_returning, u->Delete_returning);
        },
        ParsedStatementView::Merge(m) => lemma_merge_through(m, t->Merge_0, u->Merge_0),
        ParsedStatementView::Call { arguments, .. } => lemma_all_through(arguments, t->Call_arguments, u->Call_arguments, 0),
        ParsedStatementView::RoutineSelect { arguments, .. } => lemma_all_through(
            arguments,
            t->RoutineSelect_arguments,
            u->RoutineSelect_arguments,
            0,
        ),
        ParsedStatementView::PgNotify { channel, payload, .. } => {
            lemma_resembles_through(channel, t->PgNotify_channel, u->PgNotify_channel);
            lemma_resembles_through(payload, t->PgNotify_payload, u->PgNotify_payload);
        },
        _ => {},
    }
}

/// Collecting the windows of an expression keeps the rest of it.
pub proof fn lemma_lowered_resembles(e: ParsedExprView, inputs: Seq<InputColumnView>, state: Seq<BoundWindowView>)
    ensures
        lowered(e, inputs, state) matches Ok((t, _)) ==> resembles(e, t),
    decreases e, 1int,
{
    match e.kind {
        ParsedExprKindView::Unary { expr, .. } => lemma_lowered_resembles(*expr, inputs, state),
        ParsedExprKindView::Cast { expr, .. } => lemma_lowered_resembles(*expr, inputs, state),
        ParsedExprKindView::Array { elements, .. } => lemma_lowered_list(elements, inputs, 0, Seq::empty(), state),
        ParsedExprKindView::Function { arguments, .. } => lemma_lowered_list(arguments, inputs, 0, Seq::empty(), state),
        ParsedExprKindView::Binary { left, right, .. } => {
            lemma_lowered_resembles(*left, inputs, state);
            if let Ok((_, s2)) = lowered(*left, inputs, state) {
            lemma_lowered_resembles(*right, inputs, s2);
            }
        },
        ParsedExprKindView::InList { expr, list, .. } => {
            lemma_lowered_resembles(*expr, inputs, state);
            if let Ok((_, s2)) = lowered(*expr, inputs, state) {
            lemma_lowered_list(list, inputs, 0, Seq::empty(), s2);
            }
        },
        ParsedExprKindView::Aggregate { argument, filter, .. } => {
            lemma_resembles_itself(e);
        },
        _ => lemma_resembles_itself(e),
    }
}

proof fn lemma_lowered_list(
    l: Seq<ParsedExprView>,
    inputs: Seq<InputColumnView>,
    i: int,
    done: Seq<ParsedExprView>,
    state: Seq<BoundWindowView>,
)
    requires
        0 <= i <= l.len(),
        done.len() == i,
        forall|k: int| 0 <= k < i ==> resembles(#[trigger] l[k], done[k]),
    ensures
        lowered_all(l, inputs, i, done, state) matches Ok((r, _)) ==> all_resemble(l, r, 0),
    decreases l, l.len() - i,
{
    if i >= l.len() {
        lemma_list_resembles(l, done);
    } else {
        lemma_lowered_resembles(l[i], inputs, state);
        if let Ok((b, s2)) = lowered(l[i], inputs, state) {
            let next = done.push(b);
            assert forall|k: int| 0 <= k < i + 1 implies resembles(#[trigger] l[k], next[k]) by {
                if k < i {
                    assert(next[k] == done[k]);
                }
            }
            lemma_lowered_list(l, inputs, i + 1, next, s2);
        }
    }
}

/// Collecting the subqueries of an expression keeps the rest of it.
pub proof fn lemma_applied_resembles(
    e: ParsedExprView,
    catalog: CatalogView,
    inputs: Seq<InputColumnView>,
    base: usize,
    depth: usize,
    state: Seq<BoundApplyView>,
)
    ensures
        applied_expr(e, catalog, inputs, base, depth, state) matches Ok((t, _)) ==> resembles(e, t),
    decreases e, 1int,
{
    reveal(applied_expr);
    reveal(applied_exprs);
    reveal(applied_option);
    match e.kind {
        ParsedExprKindView::Unary { expr, .. } => lemma_applied_resembles(*expr, catalog, inputs, base, depth, state),
        ParsedExprKindView::Cast { expr, .. } => lemma_applied_resembles(*expr, catalog, inputs, base, depth, state),
        ParsedExprKindView::Array { elements, .. } => lemma_applied_list(elements, catalog, inputs, base, depth, 0, Seq::empty(), state),
        ParsedExprKindView::Function { arguments, .. } => lemma_applied_list(arguments, catalog, inputs, base, depth, 0, Seq::empty(), state),
        ParsedExprKindView::Binary { left, right, .. } => {
            lemma_applied_resembles(*left, catalog, inputs, base, depth, state);
            if let Ok((_, s2)) = applied_expr(*left, catalog, inputs, base, depth, state) {
            lemma_applied_resembles(*right, catalog, inputs, base, depth, s2);
            }
        },
        ParsedExprKindView::InList { expr, list, .. } => {
            lemma_applied_resembles(*expr, catalog, inputs, base, depth, state);
            if let Ok((_, s2)) = applied_expr(*expr, catalog, inputs, base, depth, state) {
            lemma_applied_list(list, catalog, inputs, base, depth, 0, Seq::empty(), s2);
            }
        },
        ParsedExprKindView::Aggregate { argument, filter, .. } => {
            if let Some(a) = argument {
                lemma_applied_resembles(*a, catalog, inputs, base, depth, state);
            }
            if let Ok((_, s2)) = applied_option(argument, catalog, inputs, base, depth, state) {
                if let Some(f) = filter {
                    lemma_applied_resembles(*f, catalog, inputs, base, depth, s2);
                }
                assert(argument is Some ==> (applied_expr(*argument->0, catalog, inputs, base, depth, state) matches Ok((t, x)) && x == s2));
                assert(applied_option(filter, catalog, inputs, base, depth, s2) matches Ok((f, _)) ==> (filter is Some <==> f is Some) && (
                filter is Some ==> resembles(*filter->0, *f->0)));
            }
            assert(applied_option(argument, catalog, inputs, base, depth, state) matches Ok((a, _)) ==> (argument is Some <==> a is Some) && (
            argument is Some ==> resembles(*argument->0, *a->0)));
        },
        _ => lemma_resembles_itself(e),
    }
}

proof fn lemma_applied_list(
    l: Seq<ParsedExprView>,
    catalog: CatalogView,
    inputs: Seq<InputColumnView>,
    base: usize,
    depth: usize,
    i: int,
    done: Seq<ParsedExprView>,
    state: Seq<BoundApplyView>,
)
    requires
        0 <= i <= l.len(),
        done.len() == i,
        forall|k: int| 0 <= k < i ==> resembles(#[trigger] l[k], done[k]),
    ensures
        applied_exprs(l, catalog, inputs, base, depth, i, done, state) matches Ok((r, _)) ==> all_resemble(l, r, 0),
    decreases l, l.len() - i,
{
    reveal(applied_expr);
    reveal(applied_exprs);
    reveal(applied_option);
    if i >= l.len() {
        lemma_list_resembles(l, done);
    } else {
        lemma_applied_resembles(l[i], catalog, inputs, base, depth, state);
        if let Ok((b, s2)) = applied_expr(l[i], catalog, inputs, base, depth, state) {
            let next = done.push(b);
            assert forall|k: int| 0 <= k < i + 1 implies resembles(#[trigger] l[k], next[k]) by {
                if k < i {
                    assert(next[k] == done[k]);
                }
            }
            lemma_applied_list(l, catalog, inputs, base, depth, i + 1, next, s2);
        }
    }
}

/// Filling in the values of windows keeps the rest of an expression.
pub proof fn lemma_finalized_resembles(e: ParsedExprView, base: usize, windows: Seq<BoundWindowView>)
    ensures
        finalized(e, base, windows) matches Ok(t) ==> resembles(e, t),
    decreases e, 1int,
{
    match e.kind {
        ParsedExprKindView::Unary { expr, .. } => lemma_finalized_resembles(*expr, base, windows),
        ParsedExprKindView::Cast { expr, .. } => lemma_finalized_resembles(*expr, base, windows),
        ParsedExprKindView::Array { elements, .. } => lemma_finalized_list(elements, base, windows, 0, Seq::empty()),
        ParsedExprKindView::Function { arguments, .. } => lemma_finalized_list(arguments, base, windows, 0, Seq::empty()),
        ParsedExprKindView::Binary { left, right, .. } => {
            lemma_finalized_resembles(*left, base, windows);
            lemma_finalized_resembles(*right, base, windows);
        },
        ParsedExprKindView::InList { expr, list, .. } => {
            lemma_finalized_resembles(*expr, base, windows);
            lemma_finalized_list(list, base, windows, 0, Seq::empty());
        },
        ParsedExprKindView::Aggregate { argument, filter, .. } => {
            if let Some(a) = argument {
                lemma_finalized_resembles(*a, base, windows);
            }
            if let Some(f) = filter {
                lemma_finalized_resembles(*f, base, windows);
            }
            assert(finalized_option(argument, base, windows) matches Ok(a) ==> (argument is Some <==> a is Some) && (argument is Some ==> resembles(
                *argument->0,
                *a->0,
            )));
            assert(finalized_option(filter, base, windows) matches Ok(f) ==> (filter is Some <==> f is Some) && (filter is Some ==> resembles(
                *filter->0,
                *f->0,
            )));
        },
        _ => lemma_resembles_itself(e),
    }
}

proof fn lemma_finalized_list(l: Seq<ParsedExprView>, base: usize, windows: Seq<BoundWindowView>, i: int, done: Seq<ParsedExprView>)
    requires
        0 <= i <= l.len(),
        done.len() == i,
        forall|k: int| 0 <= k < i ==> resembles(#[trigger] l[k], done[k]),
    ensures
        finalized_all(l, base, windows, i, done) matches Ok(r) ==> all_resemble(l, r, 0),
    decreases l, l.len() - i,
{
    if i >= l.len() {
        lemma_list_resembles(l, done);
    } else {
        lemma_finalized_resembles(l[i], base, windows);
        if let Ok(b) = finalized(l[i], base, windows) {
            let next = done.push(b);
            assert forall|k: int| 0 <= k < i + 1 implies resembles(#[trigger] l[k], next[k]) by {
                if k < i {
                    assert(next[k] == done[k]);
                }
            }
            lemma_finalized_list(l, base, windows, i + 1, next);
        }
    }
}

proof fn lemma_window_orders(
    l: Seq<ParsedOrderView>,
    inputs: Seq<InputColumnView>,
    i: int,
    done: Seq<ParsedOrderView>,
    state: Seq<BoundWindowView>,
)
    requires
        0 <= i <= l.len(),
        orders_resemble(l.take(i), done),
    ensures
        window_orders(l, inputs, i, done, state) matches Ok((r, _)) ==> orders_resemble(l, r),
    decreases l.len() - i,
{
    if i >= l.len() {
        assert(l.take(i) =~= l);
    } else {
        lemma_lowered_resembles(l[i].expr, inputs, state);
        if let Ok((b, s2)) = window_order(l[i], inputs, state) {
            let next = done.push(b);
            let prefix = l.take(i + 1);
            assert forall|k: int| 0 <= k < prefix.len() implies next[k].ascending == (#[trigger] prefix[k]).ascending && next[k].nulls_first == prefix[k].nulls_first && resembles(
                prefix[k].expr,
                next[k].expr,
            ) by {
                if k < i {
                    assert(prefix[k] == l.take(i)[k]);
                    assert(next[k] == done[k]);
                }
            }
            lemma_window_orders(l, inputs, i + 1, next, s2);
        }
    }
}

proof fn lemma_applied_orders(
    l: Seq<ParsedOrderView>,
    catalog: CatalogView,
    inputs: Seq<InputColumnView>,
    base: usize,
    depth: usize,
    i: int,
    done: Seq<ParsedOrderView>,
    state: Seq<BoundApplyView>,
)
    requires
        0 <= i <= l.len(),
        orders_resemble(l.take(i), done),
    ensures
        applied_orders(l, catalog, inputs, base, depth, i, done, state) matches Ok((r, _)) ==> orders_resemble(l, r),
    decreases l.len() - i,
{
    reveal(applied_orders);
    reveal(applied_expr);
    if i >= l.len() {
        assert(l.take(i) =~= l);
    } else {
        lemma_applied_resembles(l[i].expr, catalog, inputs, base, depth, state);
        if let Ok((e, s2)) = applied_expr(l[i].expr, catalog, inputs, base, depth, state) {
            let b = ParsedOrderView { expr: e, ..l[i] };
            let next = done.push(b);
            let prefix = l.take(i + 1);
            assert forall|k: int| 0 <= k < prefix.len() implies next[k].ascending == (#[trigger] prefix[k]).ascending && next[k].nulls_first == prefix[k].nulls_first && resembles(
                prefix[k].expr,
                next[k].expr,
            ) by {
                if k < i {
                    assert(prefix[k] == l.take(i)[k]);
                    assert(next[k] == done[k]);
                }
            }
            lemma_applied_orders(l, catalog, inputs, base, depth, i + 1, next, s2);
        }
    }
}

proof fn lemma_final_orders(l: Seq<ParsedOrderView>, base: usize, windows: Seq<BoundWindowView>, i: int, done: Seq<ParsedOrderView>)
    requires
        0 <= i <= l.len(),
        orders_resemble(l.take(i), done),
    ensures
        final_orders(l, base, windows, i, done) matches Ok(r) ==> orders_resemble(l, r),
    decreases l.len() - i,
{
    if i >= l.len() {
        assert(l.take(i) =~= l);
    } else {
        lemma_finalized_resembles(l[i].expr, base, windows);
        if let Ok(b) = final_order(l[i], base, windows) {
            let next = done.push(b);
            let prefix = l.take(i + 1);
            assert forall|k: int| 0 <= k < prefix.len() implies next[k].ascending == (#[trigger] prefix[k]).ascending && next[k].nulls_first == prefix[k].nulls_first && resembles(
                prefix[k].expr,
                next[k].expr,
            ) by {
                if k < i {
                    assert(prefix[k] == l.take(i)[k]);
                    assert(next[k] == done[k]);
                }
            }
            lemma_final_orders(l, base, windows, i + 1, next);
        }
    }
}

proof fn lemma_window_items(
    l: Seq<ParsedProjectionView>,
    inputs: Seq<InputColumnView>,
    i: int,
    done: Seq<ParsedProjectionView>,
    state: Seq<BoundWindowView>,
)
    requires
        0 <= i <= l.len(),
        items_resemble(l.take(i), done),
    ensures
        window_items(l, inputs, i, done, state) matches Ok((r, _)) ==> items_resemble(l, r),
    decreases l.len() - i,
{
    if i >= l.len() {
        assert(l.take(i) =~= l);
    } else {
        if l[i] is Expression {
            lemma_lowered_resembles(l[i]->Expression_expr, inputs, state);
        }
        if let Ok((b, s2)) = window_item(l[i], inputs, state) {
            let next = done.push(b);
            let prefix = l.take(i + 1);
            assert forall|k: int| 0 <= k < prefix.len() implies item_resembles(#[trigger] prefix[k], next[k]) by {
                if k < i {
                    assert(prefix[k] == l.take(i)[k]);
                    assert(next[k] == done[k]);
                }
            }
            lemma_window_items(l, inputs, i + 1, next, s2);
        }
    }
}

proof fn lemma_applied_items(
    l: Seq<ParsedProjectionView>,
    catalog: CatalogView,
    inputs: Seq<InputColumnView>,
    base: usize,
    depth: usize,
    i: int,
    done: Seq<ParsedProjectionView>,
    state: Seq<BoundApplyView>,
)
    requires
        0 <= i <= l.len(),
        items_resemble(l.take(i), done),
    ensures
        applied_items(l, catalog, inputs, base, depth, i, done, state) matches Ok((r, _)) ==> items_resemble(l, r),
    decreases l.len() - i,
{
    reveal(applied_items);
    reveal(applied_expr);
    if i >= l.len() {
        assert(l.take(i) =~= l);
    } else {
        if l[i] is Expression {
            lemma_applied_resembles(l[i]->Expression_expr, catalog, inputs, base, depth, state);
        }
        let step = match l[i] {
            ParsedProjectionView::Wildcard => Some((l[i], state)),
            ParsedProjectionView::Expression { expr, alias } => match applied_expr(expr, catalog, inputs, base, depth, state) {
                Err(_) => None,
                Ok((e, s2)) => Some((ParsedProjectionView::Expression { expr: e, alias }, s2)),
            },
        };
        if let Some((b, s2)) = step {
            let next = done.push(b);
            let prefix = l.take(i + 1);
            assert forall|k: int| 0 <= k < prefix.len() implies item_resembles(#[trigger] prefix[k], next[k]) by {
                if k < i {
                    assert(prefix[k] == l.take(i)[k]);
                    assert(next[k] == done[k]);
                }
            }
            lemma_applied_items(l, catalog, inputs, base, depth, i + 1, next, s2);
        }
    }
}

proof fn lemma_final_items(
    l: Seq<ParsedProjectionView>,
    base: usize,
    windows: Seq<BoundWindowView>,
    i: int,
    done: Seq<ParsedProjectionView>,
)
    requires
        0 <= i <= l.len(),
        items_resemble(l.take(i), done),
    ensures
        final_items(l, base, windows, i, done) matches Ok(r) ==> items_resemble(l, r),
    decreases l.len() - i,
{
    if i >= l.len() {
        assert(l.take(i) =~= l);
    } else {
        if l[i] is Expression {
            lemma_finalized_resembles(l[i]->Expression_expr, base, windows);
        }
        if let Ok(b) = final_item(l[i], base, windows) {
            let next = done.push(b);
            let prefix = l.take(i + 1);
            assert forall|k: int| 0 <= k < prefix.len() implies item_resembles(#[trigger] prefix[k], next[k]) by {
                if k < i {
                    assert(prefix[k] == l.take(i)[k]);
                    assert(next[k] == done[k]);
                }
            }
            lemma_final_items(l, base, windows, i + 1, next);
        }
    }
}

/// Sort keys keep their number, order and directions, and select lists their items and
/// names, while windows and subqueries are collected from them.
pub proof fn lemma_lists_kept(
    orders: Seq<ParsedOrderView>,
    items: Seq<ParsedProjectionView>,
    catalog: CatalogView,
    inputs: Seq<InputColumnView>,
    base: usize,
    depth: usize,
    windows: Seq<BoundWindowView>,
    applies: Seq<BoundApplyView>,
)
    ensures
        window_orders(orders, inputs, 0, Seq::empty(), windows) matches Ok((r, _)) ==> orders_resemble(orders, r),
        window_items(items, inputs, 0, Seq::empty(), windows) matches Ok((r, _)) ==> items_resemble(items, r),
        applied_orders(orders, catalog, inputs, base, depth, 0, Seq::empty(), applies) matches Ok((r, _)) ==> orders_resemble(orders, r),
        applied_items(items, catalog, inputs, base, depth, 0, Seq::empty(), applies) matches Ok((r, _)) ==> items_resemble(items, r),
        final_orders(orders, base, windows, 0, Seq::empty()) matches Ok(r) ==> orders_resemble(orders, r),
        final_items(items, base, windows, 0, Seq::empty()) matches Ok(r) ==> items_resemble(items, r),
{
    assert(orders.take(0) =~= Seq::empty());
    assert(items.take(0) =~= Seq::empty());
    lemma_window_orders(orders, inputs, 0, Seq::empty(), windows);
    lemma_window_items(items, inputs, 0, Seq::empty(), windows);
    lemma_applied_orders(orders, catalog, inputs, base, depth, 0, Seq::empty(), applies);
    lemma_applied_items(items, catalog, inputs, base, depth, 0, Seq::empty(), applies);
    lemma_final_orders(orders, base, windows, 0, Seq::empty());
    lemma_final_items(items, base, windows, 0, Seq::empty());
}

/// A clause keeps its form while subqueries are collected from it.
pub proof fn lemma_applied_clause(
    e: Option<ParsedExprView>,
    l: Seq<ParsedExprView>,
    catalog: CatalogView,
    inputs: Seq<InputColumnView>,
    base: usize,
    depth: usize,
    applies: Seq<BoundApplyView>,
)
    ensures
        applied_some(e, catalog, inputs, base, depth, applies) matches Ok((t, _)) ==> clause_resembles(e, t),
        applied_exprs(l, catalog, inputs, base, depth, 0, Seq::empty(), applies) matches Ok((r, _)) ==> all_resemble(l, r, 0),
{
    reveal(applied_some);
    reveal(applied_expr);
    if let Some(x) = e {
        lemma_applied_resembles(x, catalog, inputs, base, depth, applies);
    }
    lemma_applied_list(l, catalog, inputs, base, depth, 0, Seq::empty(), applies);
}

} // verus!
