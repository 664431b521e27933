//! What the steps that prepare an expression for binding leave of it.

use vstd::prelude::*;

use crate::bound::{BoundApplyView, BoundWindowView};
use crate::catalog::CatalogView;
use crate::predicates::{any_holds_subquery, any_holds_window, holds_subquery, holds_window};
use crate::query_rules::{applied_expr, applied_exprs, applied_option};
use crate::scope::InputColumnView;
use crate::subquery::{exists_applied, in_applied, quantified_applied, row_applied, scalar_applied};
use crate::syntax::{ParsedExprKindView, ParsedExprView};
use crate::windows::{finalized, finalized_all, finalized_option, lowered, lowered_all};

verus! {

proof fn lemma_no_windows(l: Seq<ParsedExprView>, i: int)
    requires
        0 <= i,
        forall|k: int| 0 <= k < l.len() ==> !holds_window(#[trigger] l[k]),
    ensures
        !any_holds_window(l, i),
    decreases l.len() - i,
{
    if i < l.len() {
        lemma_no_windows(l, i + 1);
    }
}

/// An expression whose window slots have been filled holds no window.
pub proof fn lemma_finalized(e: ParsedExprView, base: usize, windows: Seq<BoundWindowView>)
    ensures
        finalized(e, base, windows) matches Ok(b) ==> !holds_window(b),
    decreases e, 0int,
{
    match e.kind {
        ParsedExprKindView::Unary { expr, .. } => lemma_finalized(*expr, base, windows),
        ParsedExprKindView::Cast { expr, .. } => lemma_finalized(*expr, base, windows),
        ParsedExprKindView::Array { elements, .. } => lemma_finalized_all(elements, base, windows, 0, Seq::empty()),
        ParsedExprKindView::Function { arguments, .. } => lemma_finalized_all(arguments, base, windows, 0, Seq::empty()),
        ParsedExprKindView::Binary { left, right, .. } => {
            lemma_finalized(*left, base, windows);
            lemma_finalized(*right, base, windows);
        },
        ParsedExprKindView::InList { expr, list, .. } => {
            lemma_finalized(*expr, base, windows);
            lemma_finalized_all(list, base, windows, 0, Seq::empty());
        },
        ParsedExprKindView::InSubquery { expr, .. } => lemma_finalized(*expr, base, windows),
        ParsedExprKindView::QuantifiedSubquery { left, .. } => lemma_finalized(*left, base, windows),
        ParsedExprKindView::RowSubquery { left, .. } => lemma_finalized_all(left, base, windows, 0, Seq::empty()),
        ParsedExprKindView::Aggregate { argument, filter, .. } => {
            lemma_finalized_option(argument, base, windows);
            lemma_finalized_option(filter, base, windows);
        },
        _ => {},
    }
}

proof fn lemma_finalized_all(l: Seq<ParsedExprView>, base: usize, windows: Seq<BoundWindowView>, i: int, done: Seq<ParsedExprView>)
    requires
        0 <= i,
        forall|k: int| 0 <= k < done.len() ==> !holds_window(#[trigger] done[k]),
    ensures
        finalized_all(l, base, windows, i, done) matches Ok(b) ==> !any_holds_window(b, 0),
    decreases l, l.len() - i,
{
    if i >= l.len() {
        lemma_no_windows(done, 0);
    } else {
        lemma_finalized(l[i], base, windows);
        if let Ok(b) = finalized(l[i], base, windows) {
            lemma_finalized_all(l, base, windows, i + 1, done.push(b));
        }
    }
}

proof fn lemma_finalized_option(e: Option<Box<ParsedExprView>>, base: usize, windows: Seq<BoundWindowView>)
    ensures
        finalized_option(e, base, windows) matches Ok(Some(b)) ==> !holds_window(*b),
    decreases e, 0int,
{
    if let Some(e) = e {
        lemma_finalized(*e, base, windows);
    }
}

/// The windows that were found first stay where they are while more are found, so a
/// slot keeps its window.
pub proof fn lemma_lowered(e: ParsedExprView, inputs: Seq<InputColumnView>, windows: Seq<BoundWindowView>)
    ensures
        lowered(e, inputs, windows) matches Ok((_, found)) ==> windows.is_prefix_of(found),
    decreases e, 0int,
{
    match e.kind {
        ParsedExprKindView::Unary { expr, .. } => lemma_lowered(*expr, inputs, windows),
        ParsedExprKindView::Cast { expr, .. } => lemma_lowered(*expr, inputs, windows),
        ParsedExprKindView::Array { elements, .. } => lemma_lowered_all(elements, inputs, 0, Seq::empty(), windows),
        ParsedExprKindView::Function { arguments, .. } => lemma_lowered_all(arguments, inputs, 0, Seq::empty(), windows),
        ParsedExprKindView::Binary { left, right, .. } => {
            lemma_lowered(*left, inputs, windows);
            if let Ok((_, found)) = lowered(*left, inputs, windows) {
                lemma_lowered(*right, inputs, found);
            }
        },
        ParsedExprKindView::InList { expr, list, .. } => {
            lemma_lowered(*expr, inputs, windows);
            if let Ok((_, found)) = lowered(*expr, inputs, windows) {
                lemma_lowered_all(list, inputs, 0, Seq::empty(), found);
            }
        },
        ParsedExprKindView::InSubquery { expr, .. } => lemma_lowered(*expr, inputs, windows),
        ParsedExprKindView::QuantifiedSubquery { left, .. } => lemma_lowered(*left, inputs, windows),
        ParsedExprKindView::RowSubquery { left, .. } => lemma_lowered_all(left, inputs, 0, Seq::empty(), windows),
        _ => {},
    }
}

proof fn lemma_lowered_all(
    l: Seq<ParsedExprView>,
    inputs: Seq<InputColumnView>,
    i: int,
    done: Seq<ParsedExprView>,
    windows: Seq<BoundWindowView>,
)
    requires
        0 <= i,
    ensures
        lowered_all(l, inputs, i, done, windows) matches Ok((_, found)) ==> windows.is_prefix_of(found),
    decreases l, l.len() - i,
{
    if i < l.len() {
        lemma_lowered(l[i], inputs, windows);
        if let Ok((b, found)) = lowered(l[i], inputs, windows) {
            lemma_lowered_all(l, inputs, i + 1, done.push(b), found);
        }
    }
}

proof fn lemma_no_subqueries(l: Seq<ParsedExprView>, i: int)
    requires
        0 <= i,
        forall|k: int| 0 <= k < l.len() ==> !holds_subquery(#[trigger] l[k]),
    ensures
        !any_holds_subquery(l, i),
    decreases l.len() - i,
{
    if i < l.len() {
        lemma_no_subqueries(l, i + 1);
    }
}

/// An expression without window calls holds no subquery once its subqueries have become
/// the values of joined queries; the queries that were found first stay where they are.
pub proof fn lemma_applied(
    e: ParsedExprView,
    catalog: CatalogView,
    inputs: Seq<InputColumnView>,
    base: usize,
    depth: usize,
    applies: Seq<BoundApplyView>,
)
    requires
        !holds_window(e),
    ensures
        applied_expr(e, catalog, inputs, base, depth, applies) matches Ok((b, found)) ==> !holds_subquery(b) && applies.is_prefix_of(found),
    decreases e, 0int,
{
    reveal(applied_expr);
    reveal(applied_exprs);
    reveal(applied_option);
    match e.kind {
        ParsedExprKindView::Unary { expr, .. } => lemma_applied(*expr, catalog, inputs, base, depth, applies),
        ParsedExprKindView::Cast { expr, .. } => lemma_applied(*expr, catalog, inputs, base, depth, applies),
        ParsedExprKindView::Array { elements, .. } => lemma_applied_all(elements, catalog, inputs, base, depth, 0, Seq::empty(), applies),
        ParsedExprKindView::Function { arguments, .. } => lemma_applied_all(
            arguments,
            catalog,
            inputs,
            base,
            depth,
            0,
            Seq::empty(),
            applies,
        ),
        ParsedExprKindView::Binary { left, right, .. } => {
            lemma_applied(*left, catalog, inputs, base, depth, applies);
            if let Ok((_, found)) = applied_expr(*left, catalog, inputs, base, depth, applies) {
                lemma_applied(*right, catalog, inputs, base, depth, found);
            }
        },
        ParsedExprKindView::InList { expr, list, .. } => {
            lemma_applied(*expr, catalog, inputs, base, depth, applies);
            if let Ok((_, found)) = applied_expr(*expr, catalog, inputs, base, depth, applies) {
                lemma_applied_all(list, catalog, inputs, base, depth, 0, Seq::empty(), found);
            }
        },
        ParsedExprKindView::Aggregate { argument, filter, .. } => {
            lemma_applied_option(argument, catalog, inputs, base, depth, applies);
            if let Ok((_, found)) = applied_option(argument, catalog, inputs, base, depth, applies) {
                lemma_applied_option(filter, catalog, inputs, base, depth, found);
            }
        },
        ParsedExprKindView::ScalarSubquery(_) => {
            reveal(scalar_applied);
        },
        ParsedExprKindView::Exists { .. } => {
            reveal(exists_applied);
        },
        ParsedExprKindView::InSubquery { expr, .. } => {
            reveal(in_applied);
            lemma_applied(*expr, catalog, inputs, base, depth, applies);
        },
        ParsedExprKindView::QuantifiedSubquery { left, .. } => {
            reveal(quantified_applied);
            lemma_applied(*left, catalog, inputs, base, depth, applies);
        },
        ParsedExprKindView::RowSubquery { left, .. } => {
            reveal(row_applied);
            lemma_applied_all(left, catalog, inputs, base, depth, 0, Seq::empty(), applies);
        },
        _ => {},
    }
}

proof fn lemma_applied_all(
    l: Seq<ParsedExprView>,
    catalog: CatalogView,
    inputs: Seq<InputColumnView>,
    base: usize,
    depth: usize,
    i: int,
    done: Seq<ParsedExprView>,
    applies: Seq<BoundApplyView>,
)
    requires
        0 <= i,
        !any_holds_window(l, i),
        forall|k: int| 0 <= k < done.len() ==> !holds_subquery(#[trigger] done[k]),
    ensures
        applied_exprs(l, catalog, inputs, base, depth, i, done, applies) matches Ok((b, found)) ==> !any_holds_subquery(b, 0)
            && applies.is_prefix_of(found),
    decreases l, l.len() - i,
{
    reveal(applied_exprs);
    reveal(applied_expr);
    if i >= l.len() {
        lemma_no_subqueries(done, 0);
    } else {
        lemma_applied(l[i], catalog, inputs, base, depth, applies);
        if let Ok((b, found)) = applied_expr(l[i], catalog, inputs, base, depth, applies) {
            lemma_applied_all(l, catalog, inputs, base, depth, i + 1, done.push(b), found);
        }
    }
}

proof fn lemma_applied_option(
    e: Option<Box<ParsedExprView>>,
    catalog: CatalogView,
    inputs: Seq<InputColumnView>,
    base: usize,
    depth: usize,
    applies: Seq<BoundApplyView>,
)
    requires
        e is Some ==> !holds_window(*e->0),
    ensures
        applied_option(e, catalog, inputs, base, depth, applies) matches Ok((b, found)) ==> (b is Some ==> !holds_subquery(*b->0))
            && applies.is_prefix_of(found),
    decreases e, 0int,
{
    reveal(applied_option);
    reveal(applied_expr);
    if let Some(e) = e {
        lemma_applied(*e, catalog, inputs, base, depth, applies);
    }
}

} // verus!
