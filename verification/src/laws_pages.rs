//! Parameters in bound queries.

use vstd::prelude::*;

use crate::bind::bound_statement;
use crate::binding::{input_scope, table_scope};
use crate::bound::{BoundExprKindView, BoundExprView, BoundStatementView};
use crate::catalog::CatalogView;
use crate::laws_bind::{joined_query_told, told};
use crate::laws_change::{lemma_statement_answers, parts_of};
use crate::laws_expr::mirrors;
use crate::laws_parameters::{bare, lemma_page_parameters, pages};
use crate::laws_typing::resembles;
use crate::names::named_table;
use crate::query_rules::statement_of;
use crate::scope::{InputColumnView, ScopeView};
use crate::solver_rules::solved;
use crate::soundness::held;
use crate::syntax::{ParsedExprKindView, ParsedExprView, ParsedStatementView};
use crate::type_rules::{typed_statement, unfold_typed_expr, unfold_typed_statement, ResolverView, SessionView};
use crate::types::ScalarTypeView;

verus! {

/// The OFFSET and the LIMIT of a bound query.
pub open spec fn bound_pages(b: BoundStatementView) -> (Option<BoundExprView>, Option<BoundExprView>) {
    match b {
        BoundStatementView::Select { offset, limit, .. } => (offset, limit),
        BoundStatementView::AdvancedSelect { offset, limit, .. } => (
            offset,
            match limit {
                Some(e) => Some(*e),
                None => None,
            },
        ),
        BoundStatementView::SetOperation { offset, limit, .. } => (offset, limit),
        _ => (None, None),
    }
}

/// Whether the table of a query on one table has as many columns as a machine can hold.
pub open spec fn table_held(s: ParsedStatementView, catalog: CatalogView) -> bool {
    s matches ParsedStatementView::Select { table, .. } ==> (named_table(table, catalog) matches Ok(t) ==> t.columns.len() <= usize::MAX)
}

proof fn lemma_typed_pages(s: ParsedStatementView, c: ResolverView, depth: usize, n: usize)
    requires
        s is Select || s is AdvancedSelect || s is SetOperation,
    ensures
        typed_statement(s, c, depth) matches Ok(t) ==> {
            &&& s is Select <==> t is Select
            &&& s is AdvancedSelect <==> t is AdvancedSelect
            &&& s is SetOperation <==> t is SetOperation
            &&& s is Select ==> t->Select_table == s->Select_table
            &&& bare(pages(s).0, n) ==> settled_page(pages(t).0, c, n)
            &&& bare(pages(s).1, n) ==> settled_page(pages(t).1, c, n)
        },
{
    unfold_typed_statement(s, c, depth);
    if bare(pages(s).0, n) {
        unfold_typed_expr(pages(s).0->0, c, depth);
    }
    if bare(pages(s).1, n) {
        unfold_typed_expr(pages(s).1->0, c, depth);
    }
}

/// Whether a clause is a parameter, with its type where that is known.
pub open spec fn settled_page(e: Option<ParsedExprView>, c: ResolverView, n: usize) -> bool {
    e is Some && e->0.kind == if c.parameters.dom().contains(n) {
        ParsedExprKindView::ResolvedParameter { index: n, data_type: c.parameters[n] }
    } else {
        ParsedExprKindView::Parameter(n)
    }
}

proof fn lemma_told_parameter(e: ParsedExprView, scope: ScopeView, b: BoundExprView, n: usize, t: ScalarTypeView)
    requires
        held(scope),
        told(e, scope, b),
        e.kind == (ParsedExprKindView::ResolvedParameter { index: n, data_type: t }),
    ensures
        b.kind == (BoundExprKindView::Parameter { index: n }),
        b.data_type == t,
{
    let u = choose|u: ParsedExprView| #[trigger] resembles(e, u) && mirrors(u, scope, b);
    assert(u.kind == e.kind);
}

/// Whether a bound clause is a parameter of a 64-bit integer.
pub open spec fn counts_by(b: Option<BoundExprView>, n: usize) -> bool {
    b is Some && b->0.kind == (BoundExprKindView::Parameter { index: n }) && b->0.data_type is Int64
}

proof fn lemma_bound_page(s: ParsedStatementView, catalog: CatalogView, n: usize)
    requires
        s is Select || s is AdvancedSelect || s is SetOperation,
        table_held(s, catalog),
    ensures
        statement_of(s, catalog, 0) matches Ok(b) ==> {
            &&& pages(s).0 is Some && pages(s).0->0.kind == (ParsedExprKindView::ResolvedParameter {
                index: n,
                data_type: ScalarTypeView::Int64,
            }) ==> counts_by(bound_pages(b).0, n)
            &&& pages(s).1 is Some && pages(s).1->0.kind == (ParsedExprKindView::ResolvedParameter {
                index: n,
                data_type: ScalarTypeView::Int64,
            }) ==> counts_by(bound_pages(b).1, n)
        },
{
    lemma_statement_answers(s, catalog, 0);
    let wanted = ParsedExprKindView::ResolvedParameter { index: n, data_type: ScalarTypeView::Int64 };
    if let Ok(b) = statement_of(s, catalog, 0) {
        let (offset, limit) = pages(s);
        let first = offset is Some && offset->0.kind == wanted;
        let second = limit is Some && limit->0.kind == wanted;
        if first || second {
            let scope = match s {
                ParsedStatementView::Select { table, .. } => table_scope(Some(named_table(table, catalog)->Ok_0)),
                ParsedStatementView::AdvancedSelect { .. } => {
                    let (local, inputs) = choose|local: Seq<InputColumnView>, inputs: Seq<InputColumnView>|
                        #[trigger] joined_query_told(parts_of(s), local, inputs, b);
                    input_scope(inputs, false)
                },
                _ => table_scope(None),
            };
            assert(held(scope));
            if first {
                lemma_told_parameter(offset->0, scope, bound_pages(b).0->0, n, ScalarTypeView::Int64);
            }
            if second {
                lemma_told_parameter(limit->0, scope, bound_pages(b).1->0, n, ScalarTypeView::Int64);
            }
        }
    }
}

/// A parameter that is the OFFSET or the LIMIT of a query is bound as a 64-bit integer, in
/// its place: the OFFSET stays the OFFSET and the LIMIT the LIMIT.
pub proof fn lemma_page_parameter_bound(s: ParsedStatementView, catalog: CatalogView, session: Option<SessionView>, n: usize)
    requires
        s is Select || s is AdvancedSelect || s is SetOperation,
        table_held(s, catalog),
    ensures
        bound_statement(s, catalog, session) matches Ok(b) ==> {
            &&& bare(pages(s).0, n) ==> counts_by(bound_pages(b).0, n)
            &&& bare(pages(s).1, n) ==> counts_by(bound_pages(b).1, n)
        },
{
    reveal(bound_statement);
    let c = ResolverView { parameters: Map::empty(), catalog: Some(catalog), session };
    lemma_typed_pages(s, c, 0, n);
    if let Ok(t) = typed_statement(s, c, 0) {
        if let Ok(parameters) = solved(t, catalog, 128, Map::empty()) {
            if bare(pages(t).0, n) || bare(pages(t).1, n) {
                lemma_page_parameters(t, catalog, 128, Map::empty(), n);
            }
            let d = ResolverView { parameters, catalog: None, session };
            lemma_typed_pages(t, d, 0, n);
            if let Ok(u) = typed_statement(t, d, 0) {
                lemma_bound_page(u, catalog, n);
            }
        }
    }
}

} // verus!
