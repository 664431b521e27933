//! What a statement keeps when its types, parameters and session values are settled.

use vstd::prelude::*;

use crate::syntax::{
    ParsedConflictActionView, ParsedCteView, ParsedExprKindView, ParsedExprView, ParsedIdentifierView, ParsedJoinSourceView,
    ParsedJoinView, ParsedMergeActionView, ParsedMergeClauseView, ParsedMergeView, ParsedOnConflictView, ParsedOrderView,
    ParsedProjectionView, ParsedStatementView, ScalarFunction,
};
use crate::type_rules::{
    typed_assignments, typed_cte, typed_cte_list, typed_expr, typed_expr_list, typed_join, typed_join_list, typed_merge_clause,
    typed_merge_clause_list, typed_order, typed_order_list, typed_projection, typed_projection_list, typed_rows, typed_statement,
    unfold_typed_assignments, unfold_typed_conflict_action, unfold_typed_cte, unfold_typed_cte_list, unfold_typed_expr,
    unfold_typed_expr_list, unfold_typed_join, unfold_typed_join_list, unfold_typed_join_source, unfold_typed_merge,
    unfold_typed_merge_action, unfold_typed_merge_clause, unfold_typed_merge_clause_list, unfold_typed_on_conflict, unfold_typed_order,
    unfold_typed_order_list, unfold_typed_projection, unfold_typed_projection_list, unfold_typed_rows, unfold_typed_statement,
    ResolverView,
};

verus! {

/// Whether a function asks the session for its value.
pub open spec fn asks_session(f: ScalarFunction) -> bool {
    f is Version || f is CurrentDatabase || f is CurrentUser || f is SessionUser || f is CurrentSetting
}

/// Whether an expression is another one in which at most parameters have got types,
/// calls that ask the session have become constants, casts to named types have got their
/// types, and subqueries and window functions stand for their values.
pub open spec fn resembles(e: ParsedExprView, t: ParsedExprView) -> bool
    decreases e, 0int,
{
    match e.kind {
        ParsedExprKindView::Parameter(index) => t.kind == ParsedExprKindView::Parameter(index) || (t.kind is ResolvedParameter
            && t.kind->ResolvedParameter_index == index),
        ParsedExprKindView::Unary { op, expr } => t.kind is Unary && t.kind->Unary_op == op && resembles(*expr, *t.kind->Unary_expr),
        ParsedExprKindView::Cast { expr, data_type, declared_type } => {
            &&& t.kind is Cast
            &&& t.kind->Cast_declared_type == declared_type
            &&& declared_type is None ==> t.kind->Cast_data_type == data_type
            &&& resembles(*expr, *t.kind->Cast_expr)
        },
        ParsedExprKindView::Array { elements, dimensions } => {
            &&& t.kind is Array
            &&& t.kind->Array_dimensions == dimensions
            &&& all_resemble(elements, t.kind->Array_elements, 0)
        },
        ParsedExprKindView::Function { function, arguments } => {
            ||| t.kind is Function && t.kind->Function_function == function && all_resemble(arguments, t.kind->Function_arguments, 0)
            ||| t.kind is Literal && asks_session(function)
        },
        ParsedExprKindView::Binary { left, op, right } => {
            &&& t.kind is Binary
            &&& t.kind->Binary_op == op
            &&& resembles(*left, *t.kind->Binary_left)
            &&& resembles(*right, *t.kind->Binary_right)
        },
        ParsedExprKindView::InList { expr, list, negated } => {
            &&& t.kind is InList
            &&& t.kind->InList_negated == negated
            &&& resembles(*expr, *t.kind->InList_expr)
            &&& all_resemble(list, t.kind->InList_list, 0)
        },
        ParsedExprKindView::Aggregate { function, argument, distinct, filter } => {
            &&& t.kind is Aggregate
            &&& t.kind->Aggregate_function == function
            &&& t.kind->Aggregate_distinct == distinct
            &&& argument is Some <==> t.kind->Aggregate_argument is Some
            &&& argument is Some ==> resembles(*argument->0, *t.kind->Aggregate_argument->0)
            &&& filter is Some <==> t.kind->Aggregate_filter is Some
            &&& filter is Some ==> resembles(*filter->0, *t.kind->Aggregate_filter->0)
        },
        ParsedExprKindView::ScalarSubquery(_) => true,
        ParsedExprKindView::Exists { .. } => true,
        ParsedExprKindView::InSubquery { .. } => true,
        ParsedExprKindView::QuantifiedSubquery { .. } => true,
        ParsedExprKindView::RowSubquery { .. } => true,
        ParsedExprKindView::Window { .. } => true,
        ParsedExprKindView::NamedWindow { .. } => true,
        ParsedExprKindView::WindowValue { .. } => true,
        _ => t.kind == e.kind,
    }
}

/// Whether expressions resemble those of a list, from one of them on.
pub open spec fn all_resemble(l: Seq<ParsedExprView>, r: Seq<ParsedExprView>, i: int) -> bool
    decreases l, l.len() - i,
{
    &&& l.len() == r.len()
    &&& 0 <= i < l.len() ==> resembles(l[i], r[i]) && all_resemble(l, r, i + 1)
}

/// Whether a clause is there exactly where another is and resembles it.
pub open spec fn clause_resembles(e: Option<ParsedExprView>, t: Option<ParsedExprView>) -> bool {
    &&& e is Some <==> t is Some
    &&& e is Some ==> resembles(e->0, t->0)
}

/// Whether sort keys are others with the same directions.
pub open spec fn orders_resemble(l: Seq<ParsedOrderView>, r: Seq<ParsedOrderView>) -> bool {
    &&& l.len() == r.len()
    &&& forall|k: int|
        0 <= k < l.len() ==> r[k].ascending == (#[trigger] l[k]).ascending && r[k].nulls_first == l[k].nulls_first && resembles(
            l[k].expr,
            r[k].expr,
        )
}

/// Whether an item of a select list is another with the same name.
pub open spec fn item_resembles(p: ParsedProjectionView, q: ParsedProjectionView) -> bool {
    match p {
        ParsedProjectionView::Wildcard => q is Wildcard,
        ParsedProjectionView::Expression { expr, alias } => q is Expression && q->Expression_alias == alias && resembles(
            expr,
            q->Expression_expr,
        ),
    }
}

/// Whether a select list is another with the same names.
pub open spec fn items_resemble(l: Seq<ParsedProjectionView>, r: Seq<ParsedProjectionView>) -> bool {
    &&& l.len() == r.len()
    &&& forall|k: int| 0 <= k < l.len() ==> item_resembles(#[trigger] l[k], r[k])
}

/// Whether assignments are others to the same columns.
pub open spec fn assignments_resemble(
    l: Seq<(ParsedIdentifierView, ParsedExprView)>,
    r: Seq<(ParsedIdentifierView, ParsedExprView)>,
) -> bool {
    &&& l.len() == r.len()
    &&& forall|k: int| 0 <= k < l.len() ==> r[k].0 == (#[trigger] l[k]).0 && resembles(l[k].1, r[k].1)
}

/// Whether rows are others of the same sizes.
pub open spec fn rows_resemble(l: Seq<Seq<ParsedExprView>>, r: Seq<Seq<ParsedExprView>>) -> bool {
    &&& l.len() == r.len()
    &&& forall|k: int| 0 <= k < l.len() ==> all_resemble(#[trigger] l[k], r[k], 0)
}

/// Whether a join is another of the same kind with the same source.
pub open spec fn join_resembles(j: ParsedJoinView, t: ParsedJoinView) -> bool {
    &&& t.kind == j.kind
    &&& resembles(j.on, t.on)
    &&& match j.source {
        ParsedJoinSourceView::Table(x) => t.source == ParsedJoinSourceView::Table(x),
        ParsedJoinSourceView::Derived { lateral, alias, columns, .. } => t.source is Derived && t.source->Derived_lateral == lateral
            && t.source->Derived_alias == alias && t.source->Derived_columns == columns,
    }
}

/// Whether joins are others of the same kinds.
pub open spec fn joins_resemble(l: Seq<ParsedJoinView>, r: Seq<ParsedJoinView>) -> bool {
    &&& l.len() == r.len()
    &&& forall|k: int| 0 <= k < l.len() ==> join_resembles(#[trigger] l[k], r[k])
}

/// Whether WITH queries are others of the same names.
pub open spec fn ctes_resemble(l: Seq<ParsedCteView>, r: Seq<ParsedCteView>) -> bool {
    &&& l.len() == r.len()
    &&& forall|k: int| 0 <= k < l.len() ==> r[k].name == (#[trigger] l[k]).name && r[k].columns == l[k].columns
}

/// Whether an ON CONFLICT clause is another with the same target and the same action.
pub open spec fn conflict_resembles(a: Option<ParsedOnConflictView>, b: Option<ParsedOnConflictView>) -> bool {
    &&& a is Some <==> b is Some
    &&& a is Some ==> {
        &&& b->0.target == a->0.target
        &&& match a->0.action {
            ParsedConflictActionView::DoNothing => b->0.action is DoNothing,
            ParsedConflictActionView::DoUpdate { assignments, filter } => b->0.action is DoUpdate && assignments_resemble(
                assignments,
                b->0.action->DoUpdate_assignments,
            ) && clause_resembles(filter, b->0.action->DoUpdate_filter),
        }
    }
}

/// Whether a clause of a MERGE is another of the same kind with the same action.
pub open spec fn merge_clause_resembles(a: ParsedMergeClauseView, b: ParsedMergeClauseView) -> bool {
    &&& b.kind == a.kind
    &&& clause_resembles(a.predicate, b.predicate)
    &&& match a.action {
        ParsedMergeActionView::Update { assignments } => b.action is Update && assignments_resemble(
            assignments,
            b.action->Update_assignments,
        ),
        ParsedMergeActionView::Insert { columns, values } => b.action is Insert && b.action->Insert_columns == columns && all_resemble(
            values,
            b.action->Insert_values,
            0,
        ),
        _ => b.action == a.action,
    }
}

/// Whether a MERGE is another with the same relations and the same clauses.
pub open spec fn merge_resembles(a: ParsedMergeView, b: ParsedMergeView) -> bool {
    &&& b.target == a.target
    &&& b.source == a.source
    &&& resembles(a.on, b.on)
    &&& a.clauses.len() == b.clauses.len()
    &&& forall|k: int| 0 <= k < a.clauses.len() ==> merge_clause_resembles(#[trigger] a.clauses[k], b.clauses[k])
    &&& items_resemble(a.returning, b.returning)
}

/// Whether a statement is another of the same kind, with the same names and options,
/// whose clauses resemble those of the other. Of nested statements nothing is said.
pub open spec fn outlines(s: ParsedStatementView, t: ParsedStatementView) -> bool {
    match s {
        ParsedStatementView::Select { table, projection, filter, order_by, offset, limit } => {
            &&& t is Select
            &&& t->Select_table == table
            &&& items_resemble(projection, t->Select_projection)
            &&& clause_resembles(filter, t->Select_filter)
            &&& orders_resemble(order_by, t->Select_order_by)
            &&& clause_resembles(offset, t->Select_offset)
            &&& clause_resembles(limit, t->Select_limit)
        },
        ParsedStatementView::AdvancedSelect { table, joins, projection, distinct, filter, group_by, having, order_by, offset, limit } => {
            &&& t is AdvancedSelect
            &&& t->AdvancedSelect_table == table
            &&& joins_resemble(joins, t->AdvancedSelect_joins)
            &&& items_resemble(projection, t->AdvancedSelect_projection)
            &&& t->AdvancedSelect_distinct == distinct
            &&& clause_resembles(filter, t->AdvancedSelect_filter)
            &&& all_resemble(group_by, t->AdvancedSelect_group_by, 0)
            &&& clause_resembles(having, t->AdvancedSelect_having)
            &&& orders_resemble(order_by, t->AdvancedSelect_order_by)
            &&& clause_resembles(offset, t->AdvancedSelect_offset)
            &&& clause_resembles(limit, t->AdvancedSelect_limit)
        },
        ParsedStatementView::SetOperation { operator, all, order_by, offset, limit, .. } => {
            &&& t is SetOperation
            &&& t->SetOperation_operator == operator
            &&& t->SetOperation_all == all
            &&& orders_resemble(order_by, t->SetOperation_order_by)
            &&& clause_resembles(offset, t->SetOperation_offset)
            &&& clause_resembles(limit, t->SetOperation_limit)
        },
        ParsedStatementView::With { recursive, ctes, .. } => t is With && t->With_recursive == recursive && ctes_resemble(
            ctes,
            t->With_ctes,
        ),
        ParsedStatementView::Explain { .. } => t is Explain,
        ParsedStatementView::ScalarSelect { projection } => t is ScalarSelect && items_resemble(projection, t->ScalarSelect_projection),
        ParsedStatementView::Insert { table, columns, rows, on_conflict, returning } => {
            &&& t is Insert
            &&& t->Insert_table == table
            &&& t->Insert_columns == columns
            &&& rows_resemble(rows, t->Insert_rows)
            &&& conflict_resembles(on_conflict, t->Insert_on_conflict)
            &&& items_resemble(returning, t->Insert_returning)
        },
        ParsedStatementView::Update { table, assignments, filter, returning } => {
            &&& t is Update
            &&& t->Update_table == table
            &&& assignments_resemble(assignments, t->Update_assignments)
            &&& clause_resembles(filter, t->Update_filter)
            &&& items_resemble(returning, t->Update_returning)
        },
        ParsedStatementView::Delete { table, filter, returning } => {
            &&& t is Delete
            &&& t->Delete_table == table
            &&& clause_resembles(filter, t->Delete_filter)
            &&& items_resemble(returning, t->Delete_returning)
        },
        ParsedStatementView::Merge(m) => t is Merge && merge_resembles(m, t->Merge_0),
        ParsedStatementView::Call { name, arguments } => t is Call && t->Call_name == name && all_resemble(arguments, t->Call_arguments, 0),
        ParsedStatementView::RoutineSelect { name, arguments, alias } => t is RoutineSelect && t->RoutineSelect_name == name
            && t->RoutineSelect_alias == alias && all_resemble(arguments, t->RoutineSelect_arguments, 0),
        ParsedStatementView::PgNotify { channel, payload, alias } => t is PgNotify && resembles(channel, t->PgNotify_channel) && resembles(
            payload,
            t->PgNotify_payload,
        ) && t->PgNotify_alias == alias,
        ParsedStatementView::SequenceValue { name, alias, .. } => t is SequenceValue && t->SequenceValue_name == name
            && t->SequenceValue_alias == alias,
        ParsedStatementView::CreateView { name, kind, query_sql, columns, replace, if_not_exists, with_data, .. } => {
            &&& t is CreateView
            &&& t->CreateView_name == name
            &&& t->CreateView_kind == kind
            &&& t->CreateView_query_sql == query_sql
            &&& t->CreateView_columns == columns
            &&& t->CreateView_replace == replace
            &&& t->CreateView_if_not_exists == if_not_exists
            &&& t->CreateView_with_data == with_data
        },
        ParsedStatementView::CreateTable { name, columns, constraints, if_not_exists } => {
            &&& t is CreateTable
            &&& t->CreateTable_name == name
            &&& t->CreateTable_if_not_exists == if_not_exists
        },
        ParsedStatementView::AlterTable { name, if_exists, operations } => t is AlterTable && t->AlterTable_name == name
            && t->AlterTable_if_exists == if_exists,
        ParsedStatementView::CreateDomain { name, base_type, base_declared_type, not_null, default, checks } => {
            &&& t is CreateDomain
            &&& t->CreateDomain_name == name
            &&& t->CreateDomain_base_type == base_type
            &&& t->CreateDomain_base_declared_type == base_declared_type
            &&& t->CreateDomain_not_null == not_null
            &&& t->CreateDomain_default is Some <==> default is Some
            &&& t->CreateDomain_checks == checks
        },
        ParsedStatementView::AlterDomain { name, .. } => t is AlterDomain && t->AlterDomain_name == name,
        _ => t == s,
    }
}

proof fn lemma_all_resemble(l: Seq<ParsedExprView>, r: Seq<ParsedExprView>, i: int)
    requires
        0 <= i,
        l.len() == r.len(),
        forall|k: int| 0 <= k < l.len() ==> resembles(#[trigger] l[k], r[k]),
    ensures
        all_resemble(l, r, i),
    decreases l.len() - i,
{
    if i < l.len() {
        assert(resembles(l[i], r[i]));
        lemma_all_resemble(l, r, i + 1);
    }
}

/// Entries of lists that resemble each other resemble each other.
pub proof fn lemma_each_resembles(l: Seq<ParsedExprView>, r: Seq<ParsedExprView>, i: int)
    requires
        0 <= i,
        all_resemble(l, r, i),
    ensures
        forall|k: int| i <= k < l.len() ==> resembles(#[trigger] l[k], r[k]),
    decreases l.len() - i,
{
    if i < l.len() {
        lemma_each_resembles(l, r, i + 1);
    }
}

/// Lists whose entries resemble each other resemble each other.
pub proof fn lemma_list_resembles(l: Seq<ParsedExprView>, r: Seq<ParsedExprView>)
    requires
        l.len() == r.len(),
        forall|k: int| 0 <= k < l.len() ==> resembles(#[trigger] l[k], r[k]),
    ensures
        all_resemble(l, r, 0),
{
    lemma_all_resemble(l, r, 0);
}

/// Settling types keeps an expression: each operator, function, constant and name stays,
/// in its place.
pub proof fn lemma_typed_resembles(e: ParsedExprView, c: ResolverView, depth: usize)
    ensures
        typed_expr(e, c, depth) matches Ok(t) ==> resembles(e, t),
    decreases e, 1int,
{
    unfold_typed_expr(e, c, depth);
    match e.kind {
        ParsedExprKindView::Unary { expr, .. } => lemma_typed_resembles(*expr, c, depth),
        ParsedExprKindView::Cast { expr, .. } => lemma_typed_resembles(*expr, c, depth),
        ParsedExprKindView::Array { elements, .. } => lemma_typed_list(elements, c, depth, 0, Seq::empty()),
        ParsedExprKindView::Function { arguments, .. } => lemma_typed_list(arguments, c, depth, 0, Seq::empty()),
        ParsedExprKindView::Binary { left, right, .. } => {
            lemma_typed_resembles(*left, c, depth);
            lemma_typed_resembles(*right, c, depth);
        },
        ParsedExprKindView::InList { expr, list, .. } => {
            lemma_typed_resembles(*expr, c, depth);
            lemma_typed_list(list, c, depth, 0, Seq::empty());
        },
        ParsedExprKindView::Aggregate { argument, filter, .. } => {
            if let Some(a) = argument {
                lemma_typed_resembles(*a, c, depth);
            }
            if let Some(f) = filter {
                lemma_typed_resembles(*f, c, depth);
            }
        },
        _ => {},
    }
}

proof fn lemma_typed_list(l: Seq<ParsedExprView>, c: ResolverView, depth: usize, i: int, done: Seq<ParsedExprView>)
    requires
        0 <= i <= l.len(),
        done.len() == i,
        forall|k: int| 0 <= k < i ==> resembles(#[trigger] l[k], done[k]),
    ensures
        typed_expr_list(l, c, depth, i, done) matches Ok(r) ==> all_resemble(l, r, 0),
    decreases l, l.len() - i,
{
    unfold_typed_expr_list(l, c, depth, i, done);
    if i >= l.len() {
        lemma_all_resemble(l, done, 0);
    } else {
        lemma_typed_resembles(l[i], c, depth);
        if let Ok(b) = typed_expr(l[i], c, depth) {
            let next = done.push(b);
            assert forall|k: int| 0 <= k < i + 1 implies resembles(#[trigger] l[k], next[k]) by {
                if k < i {
                    assert(next[k] == done[k]);
                }
            }
            lemma_typed_list(l, c, depth, i + 1, next);
        }
    }
}

proof fn lemma_typed_orders(l: Seq<ParsedOrderView>, c: ResolverView, depth: usize, i: int, done: Seq<ParsedOrderView>)
    requires
        0 <= i <= l.len(),
        orders_resemble(l.take(i), done),
    ensures
        typed_order_list(l, c, depth, i, done) matches Ok(r) ==> orders_resemble(l, r),
    decreases l.len() - i,
{
    unfold_typed_order_list(l, c, depth, i, done);
    if i >= l.len() {
        assert(l.take(i) =~= l);
    } else {
        unfold_typed_order(l[i], c, depth);
        lemma_typed_resembles(l[i].expr, c, depth);
        if let Ok(b) = typed_order(l[i], c, depth) {
            let next = done.push(b);
            let prefix = l.take(i + 1);
            assert forall|k: int| 0 <= k < prefix.len() implies next[k].ascending == (#[trigger] prefix[k]).ascending && next[k].nulls_first
                == prefix[k].nulls_first && resembles(prefix[k].expr, next[k].expr) by {
                if k < i {
                    assert(prefix[k] == l.take(i)[k]);
                    assert(next[k] == done[k]);
                }
            }
            lemma_typed_orders(l, c, depth, i + 1, next);
        }
    }
}

proof fn lemma_typed_items(l: Seq<ParsedProjectionView>, c: ResolverView, depth: usize, i: int, done: Seq<ParsedProjectionView>)
    requires
        0 <= i <= l.len(),
        items_resemble(l.take(i), done),
    ensures
        typed_projection_list(l, c, depth, i, done) matches Ok(r) ==> items_resemble(l, r),
    decreases l.len() - i,
{
    unfold_typed_projection_list(l, c, depth, i, done);
    if i >= l.len() {
        assert(l.take(i) =~= l);
    } else {
        unfold_typed_projection(l[i], c, depth);
        if let ParsedProjectionView::Expression { expr, .. } = l[i] {
            lemma_typed_resembles(expr, c, depth);
        }
        if let Ok(b) = typed_projection(l[i], c, depth) {
            let next = done.push(b);
            let prefix = l.take(i + 1);
            assert forall|k: int| 0 <= k < prefix.len() implies item_resembles(#[trigger] prefix[k], next[k]) by {
                if k < i {
                    assert(prefix[k] == l.take(i)[k]);
                    assert(next[k] == done[k]);
                }
            }
            lemma_typed_items(l, c, depth, i + 1, next);
        }
    }
}

proof fn lemma_typed_assignments(
    l: Seq<(ParsedIdentifierView, ParsedExprView)>,
    c: ResolverView,
    depth: usize,
    i: int,
    done: Seq<(ParsedIdentifierView, ParsedExprView)>,
)
    requires
        0 <= i <= l.len(),
        assignments_resemble(l.take(i), done),
    ensures
        typed_assignments(l, c, depth, i, done) matches Ok(r) ==> assignments_resemble(l, r),
    decreases l.len() - i,
{
    unfold_typed_assignments(l, c, depth, i, done);
    if i >= l.len() {
        assert(l.take(i) =~= l);
    } else {
        lemma_typed_resembles(l[i].1, c, depth);
        if let Ok(b) = typed_expr(l[i].1, c, depth) {
            let next = done.push((l[i].0, b));
            let prefix = l.take(i + 1);
            assert forall|k: int| 0 <= k < prefix.len() implies next[k].0 == (#[trigger] prefix[k]).0 && resembles(prefix[k].1, next[k].1) by {
                if k < i {
                    assert(prefix[k] == l.take(i)[k]);
                    assert(next[k] == done[k]);
                }
            }
            lemma_typed_assignments(l, c, depth, i + 1, next);
        }
    }
}

proof fn lemma_typed_rows(l: Seq<Seq<ParsedExprView>>, c: ResolverView, depth: usize, i: int, done: Seq<Seq<ParsedExprView>>)
    requires
        0 <= i <= l.len(),
        rows_resemble(l.take(i), done),
    ensures
        typed_rows(l, c, depth, i, done) matches Ok(r) ==> rows_resemble(l, r),
    decreases l.len() - i,
{
    unfold_typed_rows(l, c, depth, i, done);
    if i >= l.len() {
        assert(l.take(i) =~= l);
    } else {
        lemma_typed_list(l[i], c, depth, 0, Seq::empty());
        if let Ok(b) = typed_expr_list(l[i], c, depth, 0, Seq::empty()) {
            let next = done.push(b);
            let prefix = l.take(i + 1);
            assert forall|k: int| 0 <= k < prefix.len() implies all_resemble(#[trigger] prefix[k], next[k], 0) by {
                if k < i {
                    assert(prefix[k] == l.take(i)[k]);
                    assert(next[k] == done[k]);
                }
            }
            lemma_typed_rows(l, c, depth, i + 1, next);
        }
    }
}

proof fn lemma_typed_joins(l: Seq<ParsedJoinView>, c: ResolverView, depth: usize, i: int, done: Seq<ParsedJoinView>)
    requires
        0 <= i <= l.len(),
        joins_resemble(l.take(i), done),
    ensures
        typed_join_list(l, c, depth, i, done) matches Ok(r) ==> joins_resemble(l, r),
    decreases l.len() - i,
{
    unfold_typed_join_list(l, c, depth, i, done);
    if i >= l.len() {
        assert(l.take(i) =~= l);
    } else {
        unfold_typed_join(l[i], c, depth);
        unfold_typed_join_source(l[i].source, c, depth);
        lemma_typed_resembles(l[i].on, c, depth);
        if let Ok(b) = typed_join(l[i], c, depth) {
            let next = done.push(b);
            let prefix = l.take(i + 1);
            assert(join_resembles(l[i], b));
            assert forall|k: int| 0 <= k < prefix.len() implies join_resembles(#[trigger] prefix[k], next[k]) by {
                if k < i {
                    assert(prefix[k] == l.take(i)[k]);
                    assert(next[k] == done[k]);
                }
            }
            lemma_typed_joins(l, c, depth, i + 1, next);
        }
    }
}

proof fn lemma_typed_ctes(l: Seq<ParsedCteView>, c: ResolverView, depth: usize, i: int, done: Seq<ParsedCteView>)
    requires
        0 <= i <= l.len(),
        ctes_resemble(l.take(i), done),
    ensures
        typed_cte_list(l, c, depth, i, done) matches Ok(r) ==> ctes_resemble(l, r),
    decreases l.len() - i,
{
    unfold_typed_cte_list(l, c, depth, i, done);
    if i >= l.len() {
        assert(l.take(i) =~= l);
    } else {
        unfold_typed_cte(l[i], c, depth);
        if let Ok(b) = typed_cte(l[i], c, depth) {
            let next = done.push(b);
            let prefix = l.take(i + 1);
            assert forall|k: int| 0 <= k < prefix.len() implies next[k].name == (#[trigger] prefix[k]).name && next[k].columns
                == prefix[k].columns by {
                if k < i {
                    assert(prefix[k] == l.take(i)[k]);
                    assert(next[k] == done[k]);
                }
            }
            lemma_typed_ctes(l, c, depth, i + 1, next);
        }
    }
}

proof fn lemma_typed_merge_clause(m: ParsedMergeClauseView, c: ResolverView, depth: usize)
    ensures
        typed_merge_clause(m, c, depth) matches Ok(t) ==> merge_clause_resembles(m, t),
{
    unfold_typed_merge_clause(m, c, depth);
    unfold_typed_merge_action(m.action, c, depth);
    if let Some(p) = m.predicate {
        lemma_typed_resembles(p, c, depth);
    }
    match m.action {
        ParsedMergeActionView::Update { assignments } => {
            assert(assignments.take(0) =~= Seq::empty());
            lemma_typed_assignments(assignments, c, depth, 0, Seq::empty());
        },
        ParsedMergeActionView::Insert { values, .. } => lemma_typed_list(values, c, depth, 0, Seq::empty()),
        _ => {},
    }
}

proof fn lemma_typed_merge_clauses(
    l: Seq<ParsedMergeClauseView>,
    c: ResolverView,
    depth: usize,
    i: int,
    done: Seq<ParsedMergeClauseView>,
)
    requires
        0 <= i <= l.len(),
        done.len() == i,
        forall|k: int| 0 <= k < i ==> merge_clause_resembles(#[trigger] l[k], done[k]),
    ensures
        typed_merge_clause_list(l, c, depth, i, done) matches Ok(r) ==> r.len() == l.len() && forall|k: int|
            0 <= k < l.len() ==> merge_clause_resembles(#[trigger] l[k], r[k]),
    decreases l.len() - i,
{
    unfold_typed_merge_clause_list(l, c, depth, i, done);
    if i < l.len() {
        lemma_typed_merge_clause(l[i], c, depth);
        if let Ok(b) = typed_merge_clause(l[i], c, depth) {
            let next = done.push(b);
            assert forall|k: int| 0 <= k < i + 1 implies merge_clause_resembles(#[trigger] l[k], next[k]) by {
                if k < i {
                    assert(next[k] == done[k]);
                }
            }
            lemma_typed_merge_clauses(l, c, depth, i + 1, next);
        }
    }
}

proof fn lemma_typed_clause(e: Option<ParsedExprView>, c: ResolverView, depth: usize)
    ensures
        e matches Some(x) ==> (typed_expr(x, c, depth) matches Ok(t) ==> resembles(x, t)),
{
    if let Some(x) = e {
        lemma_typed_resembles(x, c, depth);
    }
}

proof fn lemma_typed_query(s: ParsedStatementView, c: ResolverView, depth: usize)
    requires
        s is Select || s is AdvancedSelect || s is SetOperation || s is With || s is ScalarSelect,
    ensures
        typed_statement(s, c, depth) matches Ok(t) ==> outlines(s, t),
{
    unfold_typed_statement(s, c, depth);
    match s {
        ParsedStatementView::Select { projection, filter, order_by, offset, limit, .. } => {
            assert(projection.take(0) =~= Seq::empty());
            assert(order_by.take(0) =~= Seq::empty());
            lemma_typed_items(projection, c, depth, 0, Seq::empty());
            lemma_typed_orders(order_by, c, depth, 0, Seq::empty());
            lemma_typed_clause(filter, c, depth);
            lemma_typed_clause(offset, c, depth);
            lemma_typed_clause(limit, c, depth);
        },
        ParsedStatementView::AdvancedSelect { joins, projection, filter, group_by, having, order_by, offset, limit, .. } => {
            assert(projection.take(0) =~= Seq::empty());
            assert(order_by.take(0) =~= Seq::empty());
            assert(joins.take(0) =~= Seq::empty());
            lemma_typed_joins(joins, c, depth, 0, Seq::empty());
            lemma_typed_items(projection, c, depth, 0, Seq::empty());
            lemma_typed_orders(order_by, c, depth, 0, Seq::empty());
            lemma_typed_list(group_by, c, depth, 0, Seq::empty());
            lemma_typed_clause(filter, c, depth);
            lemma_typed_clause(having, c, depth);
            lemma_typed_clause(offset, c, depth);
            lemma_typed_clause(limit, c, depth);
        },
        ParsedStatementView::SetOperation { order_by, offset, limit, .. } => {
            assert(order_by.take(0) =~= Seq::empty());
            lemma_typed_orders(order_by, c, depth, 0, Seq::empty());
            lemma_typed_clause(offset, c, depth);
            lemma_typed_clause(limit, c, depth);
        },
        ParsedStatementView::With { ctes, .. } => {
            assert(ctes.take(0) =~= Seq::empty());
            lemma_typed_ctes(ctes, c, depth, 0, Seq::empty());
        },
        ParsedStatementView::ScalarSelect { projection } => {
            assert(projection.take(0) =~= Seq::empty());
            lemma_typed_items(projection, c, depth, 0, Seq::empty());
        },
        _ => {},
    }
}

proof fn lemma_typed_change(s: ParsedStatementView, c: ResolverView, depth: usize)
    requires
        s is Insert || s is Update || s is Delete || s is Merge,
    ensures
        typed_statement(s, c, depth) matches Ok(t) ==> outlines(s, t),
{
    unfold_typed_statement(s, c, depth);
    match s {
        ParsedStatementView::Insert { rows, on_conflict, returning, .. } => {
            assert(rows.take(0) =~= Seq::empty());
            assert(returning.take(0) =~= Seq::empty());
            lemma_typed_rows(rows, c, depth, 0, Seq::empty());
            lemma_typed_items(returning, c, depth, 0, Seq::empty());
            if let Some(o) = on_conflict {
                unfold_typed_on_conflict(o, c, depth);
                unfold_typed_conflict_action(o.action, c, depth);
                if let ParsedConflictActionView::DoUpdate { assignments, filter } = o.action {
                    assert(assignments.take(0) =~= Seq::empty());
                    lemma_typed_assignments(assignments, c, depth, 0, Seq::empty());
                    lemma_typed_clause(filter, c, depth);
                }
            }
        },
        ParsedStatementView::Update { assignments, filter, returning, .. } => {
            assert(assignments.take(0) =~= Seq::empty());
            assert(returning.take(0) =~= Seq::empty());
            lemma_typed_assignments(assignments, c, depth, 0, Seq::empty());
            lemma_typed_clause(filter, c, depth);
            lemma_typed_items(returning, c, depth, 0, Seq::empty());
        },
        ParsedStatementView::Delete { filter, returning, .. } => {
            assert(returning.take(0) =~= Seq::empty());
            lemma_typed_clause(filter, c, depth);
            lemma_typed_items(returning, c, depth, 0, Seq::empty());
        },
        ParsedStatementView::Merge(m) => {
            assert(m.returning.take(0) =~= Seq::empty());
            unfold_typed_merge(m, c, depth);
            lemma_typed_resembles(m.on, c, depth);
            lemma_typed_merge_clauses(m.clauses, c, depth, 0, Seq::empty());
            lemma_typed_items(m.returning, c, depth, 0, Seq::empty());
        },
        _ => {},
    }
}

/// Settling types keeps a statement: its kind, its names and options, the number, order
/// and directions of its entries, and the form of its expressions.
pub proof fn lemma_typed_outlines(s: ParsedStatementView, c: ResolverView, depth: usize)
    ensures
        typed_statement(s, c, depth) matches Ok(t) ==> outlines(s, t),
{
    match s {
        ParsedStatementView::Select { .. } | ParsedStatementView::AdvancedSelect { .. } | ParsedStatementView::SetOperation { .. }
        | ParsedStatementView::With { .. } | ParsedStatementView::ScalarSelect { .. } => lemma_typed_query(s, c, depth),
        ParsedStatementView::Insert { .. } | ParsedStatementView::Update { .. } | ParsedStatementView::Delete { .. }
        | ParsedStatementView::Merge(_) => lemma_typed_change(s, c, depth),
        _ => {
            unfold_typed_statement(s, c, depth);
            match s {
                ParsedStatementView::Call { arguments, .. } => lemma_typed_list(arguments, c, depth, 0, Seq::empty()),
                ParsedStatementView::RoutineSelect { arguments, .. } => lemma_typed_list(arguments, c, depth, 0, Seq::empty()),
                ParsedStatementView::PgNotify { channel, payload, .. } => {
                    lemma_typed_resembles(channel, c, depth);
                    lemma_typed_resembles(payload, c, depth);
                },
                _ => {},
            }
        },
    }
}

} // verus!
