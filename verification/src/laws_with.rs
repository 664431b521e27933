//! What a query keeps when names of WITH queries are replaced, and what a WITH statement
//! becomes.

use vstd::prelude::*;

use crate::bound::BoundCteView;
use crate::catalog::CatalogView;
use crate::laws_steps::lemma_resembles_itself;
use crate::laws_typing::{all_resemble, clause_resembles, item_resembles, items_resemble, lemma_list_resembles, orders_resemble, resembles};
use crate::query_rules::{cte_of, cte_parts, cte_relation, ctes_of, deeper, with_of, with_statement, WithStateView};
use crate::rewrite::{
    rewritten, rewritten_expr, rewritten_expr_all, rewritten_expr_option, rewritten_items, rewritten_join, rewritten_joins,
    rewritten_name, rewritten_orders, rewritten_some, ReplacementView,
};
use crate::syntax::{
    ParsedCteView, ParsedExprKindView, ParsedExprView, ParsedJoinView, ParsedOrderView, ParsedProjectionView, ParsedStatementView,
};

verus! {

/// Replacing names of relations keeps an expression.
pub proof fn lemma_rewritten_resembles(e: ParsedExprView, replacements: Seq<ReplacementView>, depth: usize)
    ensures
        rewritten_expr(e, replacements, depth) matches Ok(t) ==> resembles(e, t),
    decreases e, 1int,
{
    match e.kind {
        ParsedExprKindView::Unary { expr, .. } => lemma_rewritten_resembles(*expr, replacements, depth),
        ParsedExprKindView::Cast { expr, .. } => lemma_rewritten_resembles(*expr, replacements, depth),
        ParsedExprKindView::Array { elements, .. } => lemma_rewritten_list(elements, replacements, depth, 0, Seq::empty()),
        ParsedExprKindView::Function { arguments, .. } => lemma_rewritten_list(arguments, replacements, depth, 0, Seq::empty()),
        ParsedExprKindView::Binary { left, right, .. } => {
            lemma_rewritten_resembles(*left, replacements, depth);
            lemma_rewritten_resembles(*right, replacements, depth);
        },
        ParsedExprKindView::InList { expr, list, .. } => {
            lemma_rewritten_resembles(*expr, replacements, depth);
            lemma_rewritten_list(list, replacements, depth, 0, Seq::empty());
        },
        ParsedExprKindView::Aggregate { argument, filter, .. } => {
            if let Some(a) = argument {
                lemma_rewritten_resembles(*a, replacements, depth);
            }
            if let Some(f) = filter {
                lemma_rewritten_resembles(*f, replacements, depth);
            }
            assert(rewritten_expr_option(argument, replacements, depth) matches Ok(a) ==> (argument is Some <==> a is Some) && (argument is Some
                ==> resembles(*argument->0, *a->0)));
            assert(rewritten_expr_option(filter, replacements, depth) matches Ok(f) ==> (filter is Some <==> f is Some) && (filter is Some
                ==> resembles(*filter->0, *f->0)));
        },
        _ => lemma_resembles_itself(e),
    }
}

proof fn lemma_rewritten_list(l: Seq<ParsedExprView>, replacements: Seq<ReplacementView>, depth: usize, i: int, done: Seq<ParsedExprView>)
    requires
        0 <= i <= l.len(),
        done.len() == i,
        forall|k: int| 0 <= k < i ==> resembles(#[trigger] l[k], done[k]),
    ensures
        rewritten_expr_all(l, replacements, depth, i, done) matches Ok(r) ==> all_resemble(l, r, 0),
    decreases l, l.len() - i,
{
    if i >= l.len() {
        lemma_list_resembles(l, done);
    } else {
        lemma_rewritten_resembles(l[i], replacements, depth);
        if let Ok(b) = rewritten_expr(l[i], replacements, depth) {
            let next = done.push(b);
            assert forall|k: int| 0 <= k < i + 1 implies resembles(#[trigger] l[k], next[k]) by {
                if k < i {
                    assert(next[k] == done[k]);
                }
            }
            lemma_rewritten_list(l, replacements, depth, i + 1, next);
        }
    }
}

proof fn lemma_rewritten_orders(
    l: Seq<ParsedOrderView>,
    replacements: Seq<ReplacementView>,
    depth: usize,
    i: int,
    done: Seq<ParsedOrderView>,
)
    requires
        0 <= i <= l.len(),
        orders_resemble(l.take(i), done),
    ensures
        rewritten_orders(l, replacements, depth, i, done) matches Ok(r) ==> orders_resemble(l, r),
    decreases l.len() - i,
{
    if i >= l.len() {
        assert(l.take(i) =~= l);
    } else {
        lemma_rewritten_resembles(l[i].expr, replacements, depth);
        if let Ok(e) = rewritten_expr(l[i].expr, replacements, depth) {
            let b = ParsedOrderView { expr: e, ..l[i] };
            let next = done.push(b);
            let prefix = l.take(i + 1);
            assert forall|k: int| 0 <= k < prefix.len() implies next[k].ascending == (#[trigger] prefix[k]).ascending && next[k].nulls_first == prefix[k].nulls_first && resembles(
                prefix[k].expr,
                next[k].expr,
            ) by {
                if k < i {
                    assert(prefix[k] == l.take(i)[k]);
                    assert(next[k] == done[k]);
                }
            }
            lemma_rewritten_orders(l, replacements, depth, i + 1, next);
        }
    }
}

proof fn lemma_rewritten_items(
    l: Seq<ParsedProjectionView>,
    replacements: Seq<ReplacementView>,
    depth: usize,
    i: int,
    done: Seq<ParsedProjectionView>,
)
    requires
        0 <= i <= l.len(),
        items_resemble(l.take(i), done),
    ensures
        rewritten_items(l, replacements, depth, i, done) matches Ok(r) ==> items_resemble(l, r),
    decreases l.len() - i,
{
    if i >= l.len() {
        assert(l.take(i) =~= l);
    } else {
        if l[i] is Expression {
            lemma_rewritten_resembles(l[i]->Expression_expr, replacements, depth);
        }
        let step = match l[i] {
            ParsedProjectionView::Wildcard => Some(l[i]),
            ParsedProjectionView::Expression { expr, alias } => match rewritten_expr(expr, replacements, depth) {
                Err(_) => None,
                Ok(e) => Some(ParsedProjectionView::Expression { expr: e, alias }),
            },
        };
        if let Some(b) = step {
            let next = done.push(b);
            let prefix = l.take(i + 1);
            assert forall|k: int| 0 <= k < prefix.len() implies item_resembles(#[trigger] prefix[k], next[k]) by {
                if k < i {
                    assert(prefix[k] == l.take(i)[k]);
                    assert(next[k] == done[k]);
                }
            }
            lemma_rewritten_items(l, replacements, depth, i + 1, next);
        }
    }
}

proof fn lemma_rewritten_clause(e: Option<ParsedExprView>, replacements: Seq<ReplacementView>, depth: usize)
    ensures
        rewritten_some(e, replacements, depth) matches Ok(t) ==> clause_resembles(e, t),
{
    if let Some(x) = e {
        lemma_rewritten_resembles(x, replacements, depth);
    }
}

/// Whether a query is another over other relations: with the same select list, clauses,
/// directions, DISTINCT, joins and set operator.
pub open spec fn same_query(s: ParsedStatementView, t: ParsedStatementView) -> bool {
    match s {
        ParsedStatementView::Select { projection, filter, order_by, offset, limit, .. } => {
            &&& t is Select
            &&& items_resemble(projection, t->Select_projection)
            &&& clause_resembles(filter, t->Select_filter)
            &&& orders_resemble(order_by, t->Select_order_by)
            &&& clause_resembles(offset, t->Select_offset)
            &&& clause_resembles(limit, t->Select_limit)
        },
        ParsedStatementView::AdvancedSelect { joins, projection, distinct, filter, group_by, having, order_by, offset, limit, .. } => {
            &&& t is AdvancedSelect
            &&& t->AdvancedSelect_joins.len() == joins.len()
            &&& items_resemble(projection, t->AdvancedSelect_projection)
            &&& t->AdvancedSelect_distinct == distinct
            &&& clause_resembles(filter, t->AdvancedSelect_filter)
            &&& all_resemble(group_by, t->AdvancedSelect_group_by, 0)
            &&& clause_resembles(having, t->AdvancedSelect_having)
            &&& orders_resemble(order_by, t->AdvancedSelect_order_by)
            &&& clause_resembles(offset, t->AdvancedSelect_offset)
            &&& clause_resembles(limit, t->AdvancedSelect_limit)
        },
        ParsedStatementView::SetOperation { operator, all, order_by, offset, limit, .. } => {
            &&& t is SetOperation
            &&& t->SetOperation_operator == operator
            &&& t->SetOperation_all == all
            &&& orders_resemble(order_by, t->SetOperation_order_by)
            &&& clause_resembles(offset, t->SetOperation_offset)
            &&& clause_resembles(limit, t->SetOperation_limit)
        },
        _ => true,
    }
}

proof fn lemma_rewritten_joins(l: Seq<ParsedJoinView>, replacements: Seq<ReplacementView>, depth: usize, i: int, done: Seq<ParsedJoinView>)
    requires
        0 <= i <= l.len(),
        done.len() == i,
        forall|k: int| 0 <= k < i ==> done[k].kind == (#[trigger] l[k]).kind && resembles(l[k].on, done[k].on),
    ensures
        rewritten_joins(l, replacements, depth, i, done) matches Ok(r) ==> r.len() == l.len() && forall|k: int|
            0 <= k < l.len() ==> r[k].kind == (#[trigger] l[k]).kind && resembles(l[k].on, r[k].on),
    decreases l.len() - i,
{
    if i < l.len() {
        lemma_rewritten_resembles(l[i].on, replacements, depth);
        if let Ok(b) = rewritten_join(l[i], replacements, depth) {
            let next = done.push(b);
            assert forall|k: int| 0 <= k < i + 1 implies next[k].kind == (#[trigger] l[k]).kind && resembles(l[k].on, next[k].on) by {
                if k < i {
                    assert(next[k] == done[k]);
                }
            }
            lemma_rewritten_joins(l, replacements, depth, i + 1, next);
        }
    }
}

/// Replacing the names of WITH queries keeps a query in everything but the relations that
/// it reads; a relation that no WITH query is named like stays.
pub proof fn lemma_rewritten_same(s: ParsedStatementView, replacements: Seq<ReplacementView>, depth: usize)
    ensures
        rewritten(s, replacements, depth) matches Ok(t) ==> same_query(s, t),
        rewritten(s, replacements, depth) matches Ok(t) ==> (s matches ParsedStatementView::AdvancedSelect { joins, .. } ==> forall|k: int|
            0 <= k < joins.len() ==> t->AdvancedSelect_joins[k].kind == (#[trigger] joins[k]).kind && resembles(
                joins[k].on,
                t->AdvancedSelect_joins[k].on,
            )),
        rewritten(s, replacements, depth) matches Ok(t) ==> (s matches ParsedStatementView::Select { table, .. } ==> t->Select_table
            == rewritten_name(table, replacements)),
{
    match s {
        ParsedStatementView::Select { projection, filter, order_by, offset, limit, .. } => {
            assert(projection.take(0) =~= Seq::empty());
            assert(order_by.take(0) =~= Seq::empty());
            lemma_rewritten_items(projection, replacements, depth, 0, Seq::empty());
            lemma_rewritten_orders(order_by, replacements, depth, 0, Seq::empty());
            lemma_rewritten_clause(filter, replacements, depth);
            lemma_rewritten_clause(offset, replacements, depth);
            lemma_rewritten_clause(limit, replacements, depth);
        },
        ParsedStatementView::AdvancedSelect { joins, projection, filter, group_by, having, order_by, offset, limit, .. } => {
            assert(projection.take(0) =~= Seq::empty());
            assert(order_by.take(0) =~= Seq::empty());
            lemma_rewritten_joins(joins, replacements, depth, 0, Seq::empty());
            lemma_rewritten_items(projection, replacements, depth, 0, Seq::empty());
            lemma_rewritten_orders(order_by, replacements, depth, 0, Seq::empty());
            lemma_rewritten_list(group_by, replacements, depth, 0, Seq::empty());
            lemma_rewritten_clause(filter, replacements, depth);
            lemma_rewritten_clause(having, replacements, depth);
            lemma_rewritten_clause(offset, replacements, depth);
            lemma_rewritten_clause(limit, replacements, depth);
        },
        ParsedStatementView::SetOperation { order_by, offset, limit, .. } => {
            assert(order_by.take(0) =~= Seq::empty());
            lemma_rewritten_orders(order_by, replacements, depth, 0, Seq::empty());
            lemma_rewritten_clause(offset, replacements, depth);
            lemma_rewritten_clause(limit, replacements, depth);
        },
        _ => {},
    }
}

/// Whether a bound WITH query is the one that was written: it is recursive only where the
/// WITH is, and a recursive one keeps its UNION or UNION ALL.
pub open spec fn cte_told(c: ParsedCteView, recursive: bool, b: BoundCteView) -> bool {
    &&& b.recursive is Some ==> recursive && *c.query is SetOperation && (*c.query)->SetOperation_operator is Union && b.union_all
        == (*c.query)->SetOperation_all
    &&& b.recursive is None ==> !b.union_all
}

proof fn lemma_cte(c: ParsedCteView, recursive: bool, schema: Seq<char>, depth: usize, state: WithStateView)
    ensures
        cte_of(c, recursive, schema, depth, state) matches Ok(r) ==> r.ctes.len() == state.ctes.len() + 1 && cte_told(
            c,
            recursive,
            r.ctes.last(),
        ) && forall|k: int| 0 <= k < state.ctes.len() ==> r.ctes[k] == #[trigger] state.ctes[k],
{
    reveal(cte_of);
    reveal(deeper);
    reveal(cte_parts);
    reveal(cte_relation);
}

proof fn lemma_ctes(l: Seq<ParsedCteView>, recursive: bool, schema: Seq<char>, depth: usize, i: int, state: WithStateView)
    requires
        0 <= i <= l.len(),
        state.ctes.len() == i,
        forall|k: int| 0 <= k < i ==> cte_told(#[trigger] l[k], recursive, state.ctes[k]),
    ensures
        ctes_of(l, recursive, schema, depth, i, state) matches Ok(r) ==> r.ctes.len() == l.len() && forall|k: int|
            0 <= k < l.len() ==> cte_told(#[trigger] l[k], recursive, r.ctes[k]),
    decreases l.len() - i,
{
    reveal(ctes_of);
    reveal(cte_of);
    if i < l.len() {
        lemma_cte(l[i], recursive, schema, depth, state);
        if let Ok(next) = cte_of(l[i], recursive, schema, depth, state) {
            assert forall|k: int| 0 <= k < i + 1 implies cte_told(#[trigger] l[k], recursive, next.ctes[k]) by {
                if k < i {
                    assert(next.ctes[k] == state.ctes[k]);
                }
            }
            lemma_ctes(l, recursive, schema, depth, i + 1, next);
        }
    }
}

/// A WITH statement that is bound has one bound query for each that was written, in their
/// order.
pub proof fn lemma_with_told(
    recursive: bool,
    ctes: Seq<ParsedCteView>,
    body: ParsedStatementView,
    catalog: CatalogView,
    depth: usize,
)
    ensures
        with_of(recursive, ctes, body, catalog, depth) matches Ok(b) ==> b is With && b->With_ctes.len() == ctes.len() && forall|k: int|
            0 <= k < ctes.len() ==> cte_told(#[trigger] ctes[k], recursive, b->With_ctes[k]),
{
    reveal(with_of);
    reveal(ctes_of);
    reveal(deeper);
    reveal(with_statement);
    if let Ok(schema) = crate::transient::free_namespace(catalog, depth, 0) {
        if let Ok(c) = crate::transient::with_schema(catalog, schema) {
            lemma_ctes(
                ctes,
                recursive,
                schema,
                depth,
                0,
                WithStateView { catalog: c, replacements: Seq::empty(), ctes: Seq::empty() },
            );
        }
    }
}

} // verus!
