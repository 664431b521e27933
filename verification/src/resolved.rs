//! What is settled in a statement once its types and session values have been looked up.

use vstd::prelude::*;

use crate::syntax::{
    ParsedAlterDomainOperationView, ParsedAlterTableOperationView, ParsedColumnView, ParsedConflictActionView, ParsedCteView,
    ParsedDefaultView, ParsedExprKindView, ParsedExprView, ParsedIdentifierView, ParsedJoinSourceView, ParsedJoinView,
    ParsedMergeActionView, ParsedMergeClauseView, ParsedMergeView, ParsedOnConflictView, ParsedOrderView, ParsedProjectionView,
    ParsedSequenceOperationView, ParsedStatementView, ParsedTableConstraintView, ParsedWindowCallView, ParsedWindowFrameBoundView,
    ParsedWindowFrameView, ParsedWindowSpecView, ScalarFunction,
};
use crate::type_rules::{
    typed_alter_domain_operation, typed_alter_table_operation, typed_alter_table_operation_list, typed_assignments, typed_column,
    typed_column_list, typed_conflict_action, typed_cte, typed_cte_list, typed_default, typed_expr, typed_expr_list, typed_join,
    typed_join_list, typed_join_source, typed_merge, typed_merge_action, typed_merge_clause, typed_merge_clause_list, typed_on_conflict,
    typed_order, typed_order_list, typed_projection, typed_projection_list, typed_rows, typed_sequence_operation, typed_statement,
    typed_table_constraint, typed_table_constraint_list, typed_window_call, typed_window_frame, typed_window_frame_bound, typed_window_spec,
    unfold_typed_alter_domain_operation, unfold_typed_alter_table_operation, unfold_typed_alter_table_operation_list,
    unfold_typed_assignments, unfold_typed_column, unfold_typed_column_list, unfold_typed_conflict_action, unfold_typed_cte,
    unfold_typed_cte_list, unfold_typed_default, unfold_typed_expr, unfold_typed_expr_list, unfold_typed_join, unfold_typed_join_list,
    unfold_typed_join_source, unfold_typed_merge, unfold_typed_merge_action, unfold_typed_merge_clause, unfold_typed_merge_clause_list,
    unfold_typed_on_conflict, unfold_typed_order, unfold_typed_order_list, unfold_typed_projection, unfold_typed_projection_list,
    unfold_typed_rows, unfold_typed_sequence_operation, unfold_typed_statement, unfold_typed_table_constraint,
    unfold_typed_table_constraint_list, unfold_typed_window_call, unfold_typed_window_frame, unfold_typed_window_frame_bound,
    unfold_typed_window_spec, ResolverView,
};

verus! {

/// Whether the session knows the value of a call.
pub open spec fn session_call(function: ScalarFunction, arguments: Seq<ParsedExprView>) -> bool {
    match function {
        ScalarFunction::Version | ScalarFunction::CurrentDatabase | ScalarFunction::CurrentUser | ScalarFunction::SessionUser => true,
        ScalarFunction::CurrentSetting => arguments.len() > 0 && (arguments[0].kind matches ParsedExprKindView::Literal(v) && v is Text),
        _ => false,
    }
}

/// Whether an expression holds nothing that is still to be settled.
pub open spec fn resolved_expr(v: ParsedExprView, c: ResolverView) -> bool
    decreases v, 0int,
{
    match v.kind {
        ParsedExprKindView::Parameter(index) => !c.parameters.dom().contains(index),
        ParsedExprKindView::Function { function, arguments } => !(
            c.session is Some && session_call(function, arguments)
        ) && resolved_expr_list(arguments, c, 0),
        ParsedExprKindView::Unary { expr, .. } => resolved_expr(*expr, c),
        ParsedExprKindView::Cast { expr, .. } => resolved_expr(*expr, c),
        ParsedExprKindView::Array { elements, .. } => resolved_expr_list(elements, c, 0),
        ParsedExprKindView::Binary { left, right, .. } => resolved_expr(*left, c) && resolved_expr(*right, c),
        ParsedExprKindView::InList { expr, list, .. } => resolved_expr(*expr, c) && resolved_expr_list(list, c, 0),
        ParsedExprKindView::ScalarSubquery(f0) => resolved_statement(*f0, c),
        ParsedExprKindView::Exists { subquery, .. } => resolved_statement(*subquery, c),
        ParsedExprKindView::InSubquery { expr, subquery, .. } => resolved_expr(*expr, c) && resolved_statement(*subquery, c),
        ParsedExprKindView::QuantifiedSubquery { left, subquery, .. } => resolved_expr(*left, c) && resolved_statement(*subquery, c),
        ParsedExprKindView::RowSubquery { left, subquery, .. } => resolved_expr_list(left, c, 0) && resolved_statement(*subquery, c),
        ParsedExprKindView::Aggregate { argument, filter, .. } => (
            argument is Some ==> resolved_expr(*argument->0, c)
        ) && (filter is Some ==> resolved_expr(*filter->0, c)),
        ParsedExprKindView::Window { call, spec } => resolved_window_call(*call, c) && resolved_window_spec(*spec, c),
        ParsedExprKindView::NamedWindow { call, .. } => resolved_window_call(*call, c),
        _ => true,
    }
}

/// Whether a window call holds nothing that is still to be settled.
pub open spec fn resolved_window_call(v: ParsedWindowCallView, c: ResolverView) -> bool
    decreases v, 0int,
{
    resolved_expr_list(v.arguments, c, 0) && (v.filter is Some ==> resolved_expr(*v.filter->0, c))
}

/// Whether a window spec holds nothing that is still to be settled.
pub open spec fn resolved_window_spec(v: ParsedWindowSpecView, c: ResolverView) -> bool
    decreases v, 0int,
{
    &&& resolved_expr_list(v.partition_by, c, 0)
    &&& resolved_order_list(v.order_by, c, 0)
    &&& (v.frame is Some ==> resolved_window_frame(v.frame->0, c))
}

/// Whether a window frame bound holds nothing that is still to be settled.
pub open spec fn resolved_window_frame_bound(v: ParsedWindowFrameBoundView, c: ResolverView) -> bool
    decreases v, 0int,
{
    match v {
        ParsedWindowFrameBoundView::Preceding(f0) => resolved_expr(*f0, c),
        ParsedWindowFrameBoundView::Following(f0) => resolved_expr(*f0, c),
        _ => true,
    }
}

/// Whether a window frame holds nothing that is still to be settled.
pub open spec fn resolved_window_frame(v: ParsedWindowFrameView, c: ResolverView) -> bool
    decreases v, 0int,
{
    resolved_window_frame_bound(v.start_bound, c) && resolved_window_frame_bound(v.end_bound, c)
}

/// Whether an item of a select list holds nothing that is still to be settled.
pub open spec fn resolved_projection(v: ParsedProjectionView, c: ResolverView) -> bool
    decreases v, 0int,
{
    match v {
        ParsedProjectionView::Expression { expr, .. } => resolved_expr(expr, c),
        _ => true,
    }
}

/// Whether a sort key holds nothing that is still to be settled.
pub open spec fn resolved_order(v: ParsedOrderView, c: ResolverView) -> bool
    decreases v, 0int,
{
    resolved_expr(v.expr, c)
}

/// Whether a WITH query holds nothing that is still to be settled.
pub open spec fn resolved_cte(v: ParsedCteView, c: ResolverView) -> bool
    decreases v, 0int,
{
    resolved_statement(*v.query, c)
}

/// Whether a default holds nothing that is still to be settled.
pub open spec fn resolved_default(v: ParsedDefaultView, c: ResolverView) -> bool
    decreases v, 0int,
{
    resolved_expr(v.expression, c)
}

/// Whether a column holds nothing that is still to be settled.
pub open spec fn resolved_column(v: ParsedColumnView, c: ResolverView) -> bool
    decreases v, 0int,
{
    (v.default is Some ==> resolved_default(v.default->0, c))
}

/// Whether a table constraint holds nothing that is still to be settled.
pub open spec fn resolved_table_constraint(v: ParsedTableConstraintView, c: ResolverView) -> bool
    decreases v, 0int,
{
    match v {
        ParsedTableConstraintView::Check { expression, .. } => resolved_expr(expression, c),
        _ => true,
    }
}

/// Whether a table change holds nothing that is still to be settled.
pub open spec fn resolved_alter_table_operation(v: ParsedAlterTableOperationView, c: ResolverView) -> bool
    decreases v, 0int,
{
    match v {
        ParsedAlterTableOperationView::AddColumn { column, .. } => resolved_column(column, c),
        ParsedAlterTableOperationView::SetDefault { default, .. } => resolved_default(default, c),
        ParsedAlterTableOperationView::AddConstraint { constraint } => resolved_table_constraint(constraint, c),
        _ => true,
    }
}

/// Whether a domain change holds nothing that is still to be settled.
pub open spec fn resolved_alter_domain_operation(v: ParsedAlterDomainOperationView, c: ResolverView) -> bool
    decreases v, 0int,
{
    match v {
        ParsedAlterDomainOperationView::SetDefault(f0) => resolved_default(f0, c),
        _ => true,
    }
}

/// Whether a join source holds nothing that is still to be settled.
pub open spec fn resolved_join_source(v: ParsedJoinSourceView, c: ResolverView) -> bool
    decreases v, 0int,
{
    match v {
        ParsedJoinSourceView::Derived { query, .. } => resolved_statement(*query, c),
        _ => true,
    }
}

/// Whether a join holds nothing that is still to be settled.
pub open spec fn resolved_join(v: ParsedJoinView, c: ResolverView) -> bool
    decreases v, 0int,
{
    resolved_join_source(v.source, c) && resolved_expr(v.on, c)
}

/// Whether a conflict action holds nothing that is still to be settled.
pub open spec fn resolved_conflict_action(v: ParsedConflictActionView, c: ResolverView) -> bool
    decreases v, 0int,
{
    match v {
        ParsedConflictActionView::DoUpdate { assignments, filter } => resolved_assignments(assignments, c, 0) && (
            filter is Some ==> resolved_expr(filter->0, c)
        ),
        _ => true,
    }
}

/// Whether an ON CONFLICT clause holds nothing that is still to be settled.
pub open spec fn resolved_on_conflict(v: ParsedOnConflictView, c: ResolverView) -> bool
    decreases v, 0int,
{
    resolved_conflict_action(v.action, c)
}

/// Whether a MERGE action holds nothing that is still to be settled.
pub open spec fn resolved_merge_action(v: ParsedMergeActionView, c: ResolverView) -> bool
    decreases v, 0int,
{
    match v {
        ParsedMergeActionView::Update { assignments } => resolved_assignments(assignments, c, 0),
        ParsedMergeActionView::Insert { values, .. } => resolved_expr_list(values, c, 0),
        _ => true,
    }
}

/// Whether a MERGE clause holds nothing that is still to be settled.
pub open spec fn resolved_merge_clause(v: ParsedMergeClauseView, c: ResolverView) -> bool
    decreases v, 0int,
{
    (v.predicate is Some ==> resolved_expr(v.predicate->0, c)) && resolved_merge_action(v.action, c)
}

/// Whether a MERGE holds nothing that is still to be settled.
pub open spec fn resolved_merge(v: ParsedMergeView, c: ResolverView) -> bool
    decreases v, 0int,
{
    &&& resolved_expr(v.on, c)
    &&& resolved_merge_clause_list(v.clauses, c, 0)
    &&& resolved_projection_list(v.returning, c, 0)
}

/// Whether a sequence operation holds nothing that is still to be settled.
pub open spec fn resolved_sequence_operation(v: ParsedSequenceOperationView, c: ResolverView) -> bool
    decreases v, 0int,
{
    match v {
        ParsedSequenceOperationView::SetValue { value, .. } => resolved_expr(value, c),
        _ => true,
    }
}

/// Whether a statement holds nothing that is still to be settled.
pub open spec fn resolved_statement(v: ParsedStatementView, c: ResolverView) -> bool
    decreases v, 0int,
{
    match v {
        ParsedStatementView::CreateDomain { default, .. } => (default is Some ==> resolved_default(default->0, c)),
        ParsedStatementView::AlterDomain { operation, .. } => resolved_alter_domain_operation(operation, c),
        ParsedStatementView::CreateTable {
            columns,
            constraints,
            ..
        } => resolved_column_list(columns, c, 0) && resolved_table_constraint_list(constraints, c, 0),
        ParsedStatementView::AlterTable { operations, .. } => resolved_alter_table_operation_list(operations, c, 0),
        ParsedStatementView::CreateView { query, .. } => resolved_statement(*query, c),
        ParsedStatementView::Call { arguments, .. } => resolved_expr_list(arguments, c, 0),
        ParsedStatementView::ScalarSelect { projection } => resolved_projection_list(projection, c, 0),
        ParsedStatementView::RoutineSelect { arguments, .. } => resolved_expr_list(arguments, c, 0),
        ParsedStatementView::PgNotify { channel, payload, .. } => resolved_expr(channel, c) && resolved_expr(payload, c),
        ParsedStatementView::SequenceValue { operation, .. } => resolved_sequence_operation(operation, c),
        ParsedStatementView::Insert { rows, on_conflict, returning, .. } => {
            &&& resolved_rows(rows, c, 0)
            &&& (on_conflict is Some ==> resolved_on_conflict(on_conflict->0, c))
            &&& resolved_projection_list(returning, c, 0)
        },
        ParsedStatementView::Merge(f0) => resolved_merge(f0, c),
        ParsedStatementView::With { ctes, body, .. } => resolved_cte_list(ctes, c, 0) && resolved_statement(*body, c),
        ParsedStatementView::SetOperation { left, right, order_by, offset, limit, .. } => {
            &&& resolved_statement(*left, c)
            &&& resolved_statement(*right, c)
            &&& resolved_order_list(order_by, c, 0)
            &&& (offset is Some ==> resolved_expr(offset->0, c))
            &&& (limit is Some ==> resolved_expr(limit->0, c))
        },
        ParsedStatementView::Select { projection, filter, order_by, offset, limit, .. } => {
            &&& resolved_projection_list(projection, c, 0)
            &&& (filter is Some ==> resolved_expr(filter->0, c))
            &&& resolved_order_list(order_by, c, 0)
            &&& (offset is Some ==> resolved_expr(offset->0, c))
            &&& (limit is Some ==> resolved_expr(limit->0, c))
        },
        ParsedStatementView::AdvancedSelect { joins, projection, filter, group_by, having, order_by, offset, limit, .. } => {
            &&& resolved_join_list(joins, c, 0)
            &&& resolved_projection_list(projection, c, 0)
            &&& (filter is Some ==> resolved_expr(filter->0, c))
            &&& resolved_expr_list(group_by, c, 0)
            &&& (having is Some ==> resolved_expr(having->0, c))
            &&& resolved_order_list(order_by, c, 0)
            &&& (offset is Some ==> resolved_expr(offset->0, c))
            &&& (limit is Some ==> resolved_expr(limit->0, c))
        },
        ParsedStatementView::Explain { statement } => resolved_statement(*statement, c),
        ParsedStatementView::Update { assignments, filter, returning, .. } => {
            &&& resolved_assignments(assignments, c, 0)
            &&& (filter is Some ==> resolved_expr(filter->0, c))
            &&& resolved_projection_list(returning, c, 0)
        },
        ParsedStatementView::Delete { filter, returning, .. } => (
            filter is Some ==> resolved_expr(filter->0, c)
        ) && resolved_projection_list(returning, c, 0),
        _ => true,
    }
}

/// Whether the same holds of each part of a list, from a position on.
pub open spec fn resolved_assignments(l: Seq<(ParsedIdentifierView, ParsedExprView)>, c: ResolverView, i: int) -> bool
    decreases l, l.len() - i,
{
    0 <= i < l.len() ==> resolved_expr(l[i].1, c) && resolved_assignments(l, c, i + 1)
}

/// Whether the same holds of each part of a list, from a position on.
pub open spec fn resolved_alter_table_operation_list(l: Seq<ParsedAlterTableOperationView>, c: ResolverView, i: int) -> bool
    decreases l, l.len() - i,
{
    0 <= i < l.len() ==> resolved_alter_table_operation(l[i], c) && resolved_alter_table_operation_list(l, c, i + 1)
}

/// Whether the same holds of each part of a list, from a position on.
pub open spec fn resolved_column_list(l: Seq<ParsedColumnView>, c: ResolverView, i: int) -> bool
    decreases l, l.len() - i,
{
    0 <= i < l.len() ==> resolved_column(l[i], c) && resolved_column_list(l, c, i + 1)
}

/// Whether the same holds of each part of a list, from a position on.
pub open spec fn resolved_cte_list(l: Seq<ParsedCteView>, c: ResolverView, i: int) -> bool
    decreases l, l.len() - i,
{
    0 <= i < l.len() ==> resolved_cte(l[i], c) && resolved_cte_list(l, c, i + 1)
}

/// Whether the same holds of each part of a list, from a position on.
pub open spec fn resolved_expr_list(l: Seq<ParsedExprView>, c: ResolverView, i: int) -> bool
    decreases l, l.len() - i,
{
    0 <= i < l.len() ==> resolved_expr(l[i], c) && resolved_expr_list(l, c, i + 1)
}

/// Whether the same holds of each part of a list, from a position on.
pub open spec fn resolved_join_list(l: Seq<ParsedJoinView>, c: ResolverView, i: int) -> bool
    decreases l, l.len() - i,
{
    0 <= i < l.len() ==> resolved_join(l[i], c) && resolved_join_list(l, c, i + 1)
}

/// Whether the same holds of each part of a list, from a position on.
pub open spec fn resolved_merge_clause_list(l: Seq<ParsedMergeClauseView>, c: ResolverView, i: int) -> bool
    decreases l, l.len() - i,
{
    0 <= i < l.len() ==> resolved_merge_clause(l[i], c) && resolved_merge_clause_list(l, c, i + 1)
}

/// Whether the same holds of each part of a list, from a position on.
pub open spec fn resolved_order_list(l: Seq<ParsedOrderView>, c: ResolverView, i: int) -> bool
    decreases l, l.len() - i,
{
    0 <= i < l.len() ==> resolved_order(l[i], c) && resolved_order_list(l, c, i + 1)
}

/// Whether the same holds of each part of a list, from a position on.
pub open spec fn resolved_projection_list(l: Seq<ParsedProjectionView>, c: ResolverView, i: int) -> bool
    decreases l, l.len() - i,
{
    0 <= i < l.len() ==> resolved_projection(l[i], c) && resolved_projection_list(l, c, i + 1)
}

/// Whether the same holds of each part of a list, from a position on.
pub open spec fn resolved_table_constraint_list(l: Seq<ParsedTableConstraintView>, c: ResolverView, i: int) -> bool
    decreases l, l.len() - i,
{
    0 <= i < l.len() ==> resolved_table_constraint(l[i], c) && resolved_table_constraint_list(l, c, i + 1)
}

/// Whether the same holds of each part of a list, from a position on.
pub open spec fn resolved_rows(l: Seq<Seq<ParsedExprView>>, c: ResolverView, i: int) -> bool
    decreases l, l.len() - i,
{
    0 <= i < l.len() ==> resolved_expr_list(l[i], c, 0) && resolved_rows(l, c, i + 1)
}

proof fn lemma_unary_expr(v: ParsedExprView, c: ResolverView, depth: usize)
    requires
        v.kind is Unary,
    ensures
        typed_expr(v, c, depth) matches Ok(r) ==> resolved_expr(r, c),
    decreases v, 0int,
{
    unfold_typed_expr(v, c, depth);
    match v.kind {
        ParsedExprKindView::Unary { expr, .. } => {
            lemma_expr_resolved(*expr, c, depth);
        },
        _ => {},
    }
}

proof fn lemma_cast_expr(v: ParsedExprView, c: ResolverView, depth: usize)
    requires
        v.kind is Cast,
    ensures
        typed_expr(v, c, depth) matches Ok(r) ==> resolved_expr(r, c),
    decreases v, 0int,
{
    unfold_typed_expr(v, c, depth);
    match v.kind {
        ParsedExprKindView::Cast { expr, .. } => {
            lemma_expr_resolved(*expr, c, depth);
        },
        _ => {},
    }
}

proof fn lemma_array_expr(v: ParsedExprView, c: ResolverView, depth: usize)
    requires
        v.kind is Array,
    ensures
        typed_expr(v, c, depth) matches Ok(r) ==> resolved_expr(r, c),
    decreases v, 0int,
{
    unfold_typed_expr(v, c, depth);
    match v.kind {
        ParsedExprKindView::Array { elements, .. } => {
            lemma_expr_list_resolved(elements, c, depth, 0, Seq::empty());
        },
        _ => {},
    }
}

proof fn lemma_function_expr(v: ParsedExprView, c: ResolverView, depth: usize)
    requires
        v.kind is Function,
    ensures
        typed_expr(v, c, depth) matches Ok(r) ==> resolved_expr(r, c),
    decreases v, 0int,
{
    unfold_typed_expr(v, c, depth);
    match v.kind {
        ParsedExprKindView::Function { arguments, .. } => {
            lemma_expr_list_resolved(arguments, c, depth, 0, Seq::empty());
        },
        _ => {},
    }
}

proof fn lemma_binary_expr(v: ParsedExprView, c: ResolverView, depth: usize)
    requires
        v.kind is Binary,
    ensures
        typed_expr(v, c, depth) matches Ok(r) ==> resolved_expr(r, c),
    decreases v, 0int,
{
    unfold_typed_expr(v, c, depth);
    match v.kind {
        ParsedExprKindView::Binary { left, right, .. } => {
            lemma_expr_resolved(*left, c, depth);
            lemma_expr_resolved(*right, c, depth);
        },
        _ => {},
    }
}

proof fn lemma_in_list_expr(v: ParsedExprView, c: ResolverView, depth: usize)
    requires
        v.kind is InList,
    ensures
        typed_expr(v, c, depth) matches Ok(r) ==> resolved_expr(r, c),
    decreases v, 0int,
{
    unfold_typed_expr(v, c, depth);
    match v.kind {
        ParsedExprKindView::InList { expr, list, .. } => {
            lemma_expr_resolved(*expr, c, depth);
            lemma_expr_list_resolved(list, c, depth, 0, Seq::empty());
        },
        _ => {},
    }
}

proof fn lemma_scalar_subquery_expr(v: ParsedExprView, c: ResolverView, depth: usize)
    requires
        v.kind is ScalarSubquery,
    ensures
        typed_expr(v, c, depth) matches Ok(r) ==> resolved_expr(r, c),
    decreases v, 0int,
{
    unfold_typed_expr(v, c, depth);
    match v.kind {
        ParsedExprKindView::ScalarSubquery(f0) => {
            lemma_statement_resolved(*f0, c, (depth + 1) as usize);
        },
        _ => {},
    }
}

proof fn lemma_exists_expr(v: ParsedExprView, c: ResolverView, depth: usize)
    requires
        v.kind is Exists,
    ensures
        typed_expr(v, c, depth) matches Ok(r) ==> resolved_expr(r, c),
    decreases v, 0int,
{
    unfold_typed_expr(v, c, depth);
    match v.kind {
        ParsedExprKindView::Exists { subquery, .. } => {
            lemma_statement_resolved(*subquery, c, (depth + 1) as usize);
        },
        _ => {},
    }
}

proof fn lemma_in_subquery_expr(v: ParsedExprView, c: ResolverView, depth: usize)
    requires
        v.kind is InSubquery,
    ensures
        typed_expr(v, c, depth) matches Ok(r) ==> resolved_expr(r, c),
    decreases v, 0int,
{
    unfold_typed_expr(v, c, depth);
    match v.kind {
        ParsedExprKindView::InSubquery { expr, subquery, .. } => {
            lemma_expr_resolved(*expr, c, depth);
            lemma_statement_resolved(*subquery, c, (depth + 1) as usize);
        },
        _ => {},
    }
}

proof fn lemma_quantified_subquery_expr(v: ParsedExprView, c: ResolverView, depth: usize)
    requires
        v.kind is QuantifiedSubquery,
    ensures
        typed_expr(v, c, depth) matches Ok(r) ==> resolved_expr(r, c),
    decreases v, 0int,
{
    unfold_typed_expr(v, c, depth);
    match v.kind {
        ParsedExprKindView::QuantifiedSubquery { left, subquery, .. } => {
            lemma_expr_resolved(*left, c, depth);
            lemma_statement_resolved(*subquery, c, (depth + 1) as usize);
        },
        _ => {},
    }
}

proof fn lemma_row_subquery_expr(v: ParsedExprView, c: ResolverView, depth: usize)
    requires
        v.kind is RowSubquery,
    ensures
        typed_expr(v, c, depth) matches Ok(r) ==> resolved_expr(r, c),
    decreases v, 0int,
{
    unfold_typed_expr(v, c, depth);
    match v.kind {
        ParsedExprKindView::RowSubquery { left, subquery, .. } => {
            lemma_expr_list_resolved(left, c, depth, 0, Seq::empty());
            lemma_statement_resolved(*subquery, c, (depth + 1) as usize);
        },
        _ => {},
    }
}

proof fn lemma_aggregate_expr(v: ParsedExprView, c: ResolverView, depth: usize)
    requires
        v.kind is Aggregate,
    ensures
        typed_expr(v, c, depth) matches Ok(r) ==> resolved_expr(r, c),
    decreases v, 0int,
{
    unfold_typed_expr(v, c, depth);
    match v.kind {
        ParsedExprKindView::Aggregate { argument, filter, .. } => {
            if let Some(y) = argument {
                lemma_expr_resolved(*y, c, depth);
            }
            if let Some(y) = filter {
                lemma_expr_resolved(*y, c, depth);
            }
        },
        _ => {},
    }
}

proof fn lemma_window_expr(v: ParsedExprView, c: ResolverView, depth: usize)
    requires
        v.kind is Window,
    ensures
        typed_expr(v, c, depth) matches Ok(r) ==> resolved_expr(r, c),
    decreases v, 0int,
{
    unfold_typed_expr(v, c, depth);
    match v.kind {
        ParsedExprKindView::Window { call, spec } => {
            lemma_window_call_resolved(*call, c, depth);
            lemma_window_spec_resolved(*spec, c, depth);
        },
        _ => {},
    }
}

proof fn lemma_named_window_expr(v: ParsedExprView, c: ResolverView, depth: usize)
    requires
        v.kind is NamedWindow,
    ensures
        typed_expr(v, c, depth) matches Ok(r) ==> resolved_expr(r, c),
    decreases v, 0int,
{
    unfold_typed_expr(v, c, depth);
    match v.kind {
        ParsedExprKindView::NamedWindow { call, .. } => {
            lemma_window_call_resolved(*call, c, depth);
        },
        _ => {},
    }
}

/// What the types of parameters, the catalog and the session settle is settled everywhere in an expression.
pub proof fn lemma_expr_resolved(v: ParsedExprView, c: ResolverView, depth: usize)
    ensures
        typed_expr(v, c, depth) matches Ok(r) ==> resolved_expr(r, c),
    decreases v, 1int,
{
    match v.kind {
        ParsedExprKindView::Unary { .. } => lemma_unary_expr(v, c, depth),
        ParsedExprKindView::Cast { .. } => lemma_cast_expr(v, c, depth),
        ParsedExprKindView::Array { .. } => lemma_array_expr(v, c, depth),
        ParsedExprKindView::Function { .. } => lemma_function_expr(v, c, depth),
        ParsedExprKindView::Binary { .. } => lemma_binary_expr(v, c, depth),
        ParsedExprKindView::InList { .. } => lemma_in_list_expr(v, c, depth),
        ParsedExprKindView::ScalarSubquery(_) => lemma_scalar_subquery_expr(v, c, depth),
        ParsedExprKindView::Exists { .. } => lemma_exists_expr(v, c, depth),
        ParsedExprKindView::InSubquery { .. } => lemma_in_subquery_expr(v, c, depth),
        ParsedExprKindView::QuantifiedSubquery { .. } => lemma_quantified_subquery_expr(v, c, depth),
        ParsedExprKindView::RowSubquery { .. } => lemma_row_subquery_expr(v, c, depth),
        ParsedExprKindView::Aggregate { .. } => lemma_aggregate_expr(v, c, depth),
        ParsedExprKindView::Window { .. } => lemma_window_expr(v, c, depth),
        ParsedExprKindView::NamedWindow { .. } => lemma_named_window_expr(v, c, depth),
        _ => {
            unfold_typed_expr(v, c, depth);
        },
    }
}

proof fn lemma_window_call_resolved(v: ParsedWindowCallView, c: ResolverView, depth: usize)
    ensures
        typed_window_call(v, c, depth) matches Ok(r) ==> resolved_window_call(r, c),
    decreases v, 0int,
{
    unfold_typed_window_call(v, c, depth);
    lemma_expr_list_resolved(v.arguments, c, depth, 0, Seq::empty());
    if let Some(y) = v.filter {
        lemma_expr_resolved(*y, c, depth);
    }
}

proof fn lemma_window_spec_resolved(v: ParsedWindowSpecView, c: ResolverView, depth: usize)
    ensures
        typed_window_spec(v, c, depth) matches Ok(r) ==> resolved_window_spec(r, c),
    decreases v, 0int,
{
    unfold_typed_window_spec(v, c, depth);
    lemma_expr_list_resolved(v.partition_by, c, depth, 0, Seq::empty());
    lemma_order_list_resolved(v.order_by, c, depth, 0, Seq::empty());
    if let Some(y) = v.frame {
        lemma_window_frame_resolved(y, c, depth);
    }
}

proof fn lemma_window_frame_bound_resolved(v: ParsedWindowFrameBoundView, c: ResolverView, depth: usize)
    ensures
        typed_window_frame_bound(v, c, depth) matches Ok(r) ==> resolved_window_frame_bound(r, c),
    decreases v, 0int,
{
    unfold_typed_window_frame_bound(v, c, depth);
    match v {
        ParsedWindowFrameBoundView::Preceding(f0) => {
            lemma_expr_resolved(*f0, c, depth);
        },
        ParsedWindowFrameBoundView::Following(f0) => {
            lemma_expr_resolved(*f0, c, depth);
        },
        _ => {},
    }
}

proof fn lemma_window_frame_resolved(v: ParsedWindowFrameView, c: ResolverView, depth: usize)
    ensures
        typed_window_frame(v, c, depth) matches Ok(r) ==> resolved_window_frame(r, c),
    decreases v, 0int,
{
    unfold_typed_window_frame(v, c, depth);
    lemma_window_frame_bound_resolved(v.start_bound, c, depth);
    lemma_window_frame_bound_resolved(v.end_bound, c, depth);
}

proof fn lemma_projection_resolved(v: ParsedProjectionView, c: ResolverView, depth: usize)
    ensures
        typed_projection(v, c, depth) matches Ok(r) ==> resolved_projection(r, c),
    decreases v, 0int,
{
    unfold_typed_projection(v, c, depth);
    match v {
        ParsedProjectionView::Expression { expr, .. } => {
            lemma_expr_resolved(expr, c, depth);
        },
        _ => {},
    }
}

proof fn lemma_order_resolved(v: ParsedOrderView, c: ResolverView, depth: usize)
    ensures
        typed_order(v, c, depth) matches Ok(r) ==> resolved_order(r, c),
    decreases v, 0int,
{
    unfold_typed_order(v, c, depth);
    lemma_expr_resolved(v.expr, c, depth);
}

proof fn lemma_cte_resolved(v: ParsedCteView, c: ResolverView, depth: usize)
    ensures
        typed_cte(v, c, depth) matches Ok(r) ==> resolved_cte(r, c),
    decreases v, 0int,
{
    unfold_typed_cte(v, c, depth);
    lemma_statement_resolved(*v.query, c, (depth + 1) as usize);
}

proof fn lemma_default_resolved(v: ParsedDefaultView, c: ResolverView, depth: usize)
    ensures
        typed_default(v, c, depth) matches Ok(r) ==> resolved_default(r, c),
    decreases v, 0int,
{
    unfold_typed_default(v, c, depth);
    lemma_expr_resolved(v.expression, c, depth);
}

proof fn lemma_column_resolved(v: ParsedColumnView, c: ResolverView, depth: usize)
    ensures
        typed_column(v, c, depth) matches Ok(r) ==> resolved_column(r, c),
    decreases v, 0int,
{
    unfold_typed_column(v, c, depth);
    if let Some(y) = v.default {
        lemma_default_resolved(y, c, depth);
    }
}

proof fn lemma_table_constraint_resolved(v: ParsedTableConstraintView, c: ResolverView, depth: usize)
    ensures
        typed_table_constraint(v, c, depth) matches Ok(r) ==> resolved_table_constraint(r, c),
    decreases v, 0int,
{
    unfold_typed_table_constraint(v, c, depth);
    match v {
        ParsedTableConstraintView::Check { expression, .. } => {
            lemma_expr_resolved(expression, c, depth);
        },
        _ => {},
    }
}

proof fn lemma_alter_table_operation_resolved(v: ParsedAlterTableOperationView, c: ResolverView, depth: usize)
    ensures
        typed_alter_table_operation(v, c, depth) matches Ok(r) ==> resolved_alter_table_operation(r, c),
    decreases v, 0int,
{
    unfold_typed_alter_table_operation(v, c, depth);
    match v {
        ParsedAlterTableOperationView::AddColumn { column, .. } => {
            lemma_column_resolved(column, c, depth);
        },
        ParsedAlterTableOperationView::SetDefault { default, .. } => {
            lemma_default_resolved(default, c, depth);
        },
        ParsedAlterTableOperationView::AddConstraint { constraint } => {
            lemma_table_constraint_resolved(constraint, c, depth);
        },
        _ => {},
    }
}

proof fn lemma_alter_domain_operation_resolved(v: ParsedAlterDomainOperationView, c: ResolverView, depth: usize)
    ensures
        typed_alter_domain_operation(v, c, depth) matches Ok(r) ==> resolved_alter_domain_operation(r, c),
    decreases v, 0int,
{
    unfold_typed_alter_domain_operation(v, c, depth);
    match v {
        ParsedAlterDomainOperationView::SetDefault(f0) => {
            lemma_default_resolved(f0, c, depth);
        },
        _ => {},
    }
}

proof fn lemma_join_source_resolved(v: ParsedJoinSourceView, c: ResolverView, depth: usize)
    ensures
        typed_join_source(v, c, depth) matches Ok(r) ==> resolved_join_source(r, c),
    decreases v, 0int,
{
    unfold_typed_join_source(v, c, depth);
    match v {
        ParsedJoinSourceView::Derived { query, .. } => {
            lemma_statement_resolved(*query, c, (depth + 1) as usize);
        },
        _ => {},
    }
}

proof fn lemma_join_resolved(v: ParsedJoinView, c: ResolverView, depth: usize)
    ensures
        typed_join(v, c, depth) matches Ok(r) ==> resolved_join(r, c),
    decreases v, 0int,
{
    unfold_typed_join(v, c, depth);
    lemma_join_source_resolved(v.source, c, depth);
    lemma_expr_resolved(v.on, c, depth);
}

proof fn lemma_conflict_action_resolved(v: ParsedConflictActionView, c: ResolverView, depth: usize)
    ensures
        typed_conflict_action(v, c, depth) matches Ok(r) ==> resolved_conflict_action(r, c),
    decreases v, 0int,
{
    unfold_typed_conflict_action(v, c, depth);
    match v {
        ParsedConflictActionView::DoUpdate { assignments, filter } => {
            lemma_assignments_resolved(assignments, c, depth, 0, Seq::empty());
            if let Some(y) = filter {
                lemma_expr_resolved(y, c, depth);
            }
        },
        _ => {},
    }
}

proof fn lemma_on_conflict_resolved(v: ParsedOnConflictView, c: ResolverView, depth: usize)
    ensures
        typed_on_conflict(v, c, depth) matches Ok(r) ==> resolved_on_conflict(r, c),
    decreases v, 0int,
{
    unfold_typed_on_conflict(v, c, depth);
    lemma_conflict_action_resolved(v.action, c, depth);
}

proof fn lemma_merge_action_resolved(v: ParsedMergeActionView, c: ResolverView, depth: usize)
    ensures
        typed_merge_action(v, c, depth) matches Ok(r) ==> resolved_merge_action(r, c),
    decreases v, 0int,
{
    unfold_typed_merge_action(v, c, depth);
    match v {
        ParsedMergeActionView::Update { assignments } => {
            lemma_assignments_resolved(assignments, c, depth, 0, Seq::empty());
        },
        ParsedMergeActionView::Insert { values, .. } => {
            lemma_expr_list_resolved(values, c, depth, 0, Seq::empty());
        },
        _ => {},
    }
}

proof fn lemma_merge_clause_resolved(v: ParsedMergeClauseView, c: ResolverView, depth: usize)
    ensures
        typed_merge_clause(v, c, depth) matches Ok(r) ==> resolved_merge_clause(r, c),
    decreases v, 0int,
{
    unfold_typed_merge_clause(v, c, depth);
    if let Some(y) = v.predicate {
        lemma_expr_resolved(y, c, depth);
    }
    lemma_merge_action_resolved(v.action, c, depth);
}

proof fn lemma_merge_resolved(v: ParsedMergeView, c: ResolverView, depth: usize)
    ensures
        typed_merge(v, c, depth) matches Ok(r) ==> resolved_merge(r, c),
    decreases v, 0int,
{
    unfold_typed_merge(v, c, depth);
    lemma_expr_resolved(v.on, c, depth);
    lemma_merge_clause_list_resolved(v.clauses, c, depth, 0, Seq::empty());
    lemma_projection_list_resolved(v.returning, c, depth, 0, Seq::empty());
}

proof fn lemma_sequence_operation_resolved(v: ParsedSequenceOperationView, c: ResolverView, depth: usize)
    ensures
        typed_sequence_operation(v, c, depth) matches Ok(r) ==> resolved_sequence_operation(r, c),
    decreases v, 0int,
{
    unfold_typed_sequence_operation(v, c, depth);
    match v {
        ParsedSequenceOperationView::SetValue { value, .. } => {
            lemma_expr_resolved(value, c, depth);
        },
        _ => {},
    }
}

proof fn lemma_create_domain_statement(v: ParsedStatementView, c: ResolverView, depth: usize)
    requires
        v is CreateDomain,
    ensures
        typed_statement(v, c, depth) matches Ok(r) ==> resolved_statement(r, c),
    decreases v, 0int,
{
    unfold_typed_statement(v, c, depth);
    match v {
        ParsedStatementView::CreateDomain { default, .. } => {
            if let Some(y) = default {
                lemma_default_resolved(y, c, depth);
            }
        },
        _ => {},
    }
}

proof fn lemma_alter_domain_statement(v: ParsedStatementView, c: ResolverView, depth: usize)
    requires
        v is AlterDomain,
    ensures
        typed_statement(v, c, depth) matches Ok(r) ==> resolved_statement(r, c),
    decreases v, 0int,
{
    unfold_typed_statement(v, c, depth);
    match v {
        ParsedStatementView::AlterDomain { operation, .. } => {
            lemma_alter_domain_operation_resolved(operation, c, depth);
        },
        _ => {},
    }
}

proof fn lemma_create_table_statement(v: ParsedStatementView, c: ResolverView, depth: usize)
    requires
        v is CreateTable,
    ensures
        typed_statement(v, c, depth) matches Ok(r) ==> resolved_statement(r, c),
    decreases v, 0int,
{
    unfold_typed_statement(v, c, depth);
    match v {
        ParsedStatementView::CreateTable { columns, constraints, .. } => {
            lemma_column_list_resolved(columns, c, depth, 0, Seq::empty());
            lemma_table_constraint_list_resolved(constraints, c, depth, 0, Seq::empty());
        },
        _ => {},
    }
}

proof fn lemma_alter_table_statement(v: ParsedStatementView, c: ResolverView, depth: usize)
    requires
        v is AlterTable,
    ensures
        typed_statement(v, c, depth) matches Ok(r) ==> resolved_statement(r, c),
    decreases v, 0int,
{
    unfold_typed_statement(v, c, depth);
    match v {
        ParsedStatementView::AlterTable { operations, .. } => {
            lemma_alter_table_operation_list_resolved(operations, c, depth, 0, Seq::empty());
        },
        _ => {},
    }
}

proof fn lemma_create_view_statement(v: ParsedStatementView, c: ResolverView, depth: usize)
    requires
        v is CreateView,
    ensures
        typed_statement(v, c, depth) matches Ok(r) ==> resolved_statement(r, c),
    decreases v, 0int,
{
    unfold_typed_statement(v, c, depth);
    match v {
        ParsedStatementView::CreateView { query, .. } => {
            lemma_statement_resolved(*query, c, (depth + 1) as usize);
        },
        _ => {},
    }
}

proof fn lemma_call_statement(v: ParsedStatementView, c: ResolverView, depth: usize)
    requires
        v is Call,
    ensures
        typed_statement(v, c, depth) matches Ok(r) ==> resolved_statement(r, c),
    decreases v, 0int,
{
    unfold_typed_statement(v, c, depth);
    match v {
        ParsedStatementView::Call { arguments, .. } => {
            lemma_expr_list_resolved(arguments, c, depth, 0, Seq::empty());
        },
        _ => {},
    }
}

proof fn lemma_scalar_select_statement(v: ParsedStatementView, c: ResolverView, depth: usize)
    requires
        v is ScalarSelect,
    ensures
        typed_statement(v, c, depth) matches Ok(r) ==> resolved_statement(r, c),
    decreases v, 0int,
{
    unfold_typed_statement(v, c, depth);
    match v {
        ParsedStatementView::ScalarSelect { projection } => {
            lemma_projection_list_resolved(projection, c, depth, 0, Seq::empty());
        },
        _ => {},
    }
}

proof fn lemma_routine_select_statement(v: ParsedStatementView, c: ResolverView, depth: usize)
    requires
        v is RoutineSelect,
    ensures
        typed_statement(v, c, depth) matches Ok(r) ==> resolved_statement(r, c),
    decreases v, 0int,
{
    unfold_typed_statement(v, c, depth);
    match v {
        ParsedStatementView::RoutineSelect { arguments, .. } => {
            lemma_expr_list_resolved(arguments, c, depth, 0, Seq::empty());
        },
        _ => {},
    }
}

proof fn lemma_pg_notify_statement(v: ParsedStatementView, c: ResolverView, depth: usize)
    requires
        v is PgNotify,
    ensures
        typed_statement(v, c, depth) matches Ok(r) ==> resolved_statement(r, c),
    decreases v, 0int,
{
    unfold_typed_statement(v, c, depth);
    match v {
        ParsedStatementView::PgNotify { channel, payload, .. } => {
            lemma_expr_resolved(channel, c, depth);
            lemma_expr_resolved(payload, c, depth);
        },
        _ => {},
    }
}

proof fn lemma_sequence_value_statement(v: ParsedStatementView, c: ResolverView, depth: usize)
    requires
        v is SequenceValue,
    ensures
        typed_statement(v, c, depth) matches Ok(r) ==> resolved_statement(r, c),
    decreases v, 0int,
{
    unfold_typed_statement(v, c, depth);
    match v {
        ParsedStatementView::SequenceValue { operation, .. } => {
            lemma_sequence_operation_resolved(operation, c, depth);
        },
        _ => {},
    }
}

proof fn lemma_insert_statement(v: ParsedStatementView, c: ResolverView, depth: usize)
    requires
        v is Insert,
    ensures
        typed_statement(v, c, depth) matches Ok(r) ==> resolved_statement(r, c),
    decreases v, 0int,
{
    unfold_typed_statement(v, c, depth);
    match v {
        ParsedStatementView::Insert { rows, on_conflict, returning, .. } => {
            lemma_rows_resolved(rows, c, depth, 0, Seq::empty());
            if let Some(y) = on_conflict {
                lemma_on_conflict_resolved(y, c, depth);
            }
            lemma_projection_list_resolved(returning, c, depth, 0, Seq::empty());
        },
        _ => {},
    }
}

proof fn lemma_merge_statement(v: ParsedStatementView, c: ResolverView, depth: usize)
    requires
        v is Merge,
    ensures
        typed_statement(v, c, depth) matches Ok(r) ==> resolved_statement(r, c),
    decreases v, 0int,
{
    unfold_typed_statement(v, c, depth);
    match v {
        ParsedStatementView::Merge(f0) => {
            lemma_merge_resolved(f0, c, depth);
        },
        _ => {},
    }
}

proof fn lemma_with_statement(v: ParsedStatementView, c: ResolverView, depth: usize)
    requires
        v is With,
    ensures
        typed_statement(v, c, depth) matches Ok(r) ==> resolved_statement(r, c),
    decreases v, 0int,
{
    unfold_typed_statement(v, c, depth);
    match v {
        ParsedStatementView::With { ctes, body, .. } => {
            lemma_cte_list_resolved(ctes, c, depth, 0, Seq::empty());
            lemma_statement_resolved(*body, c, (depth + 1) as usize);
        },
        _ => {},
    }
}

proof fn lemma_set_operation_statement(v: ParsedStatementView, c: ResolverView, depth: usize)
    requires
        v is SetOperation,
    ensures
        typed_statement(v, c, depth) matches Ok(r) ==> resolved_statement(r, c),
    decreases v, 0int,
{
    unfold_typed_statement(v, c, depth);
    match v {
        ParsedStatementView::SetOperation { left, right, order_by, offset, limit, .. } => {
            lemma_statement_resolved(*left, c, (depth + 1) as usize);
            lemma_statement_resolved(*right, c, (depth + 1) as usize);
            lemma_order_list_resolved(order_by, c, depth, 0, Seq::empty());
            if let Some(y) = offset {
                lemma_expr_resolved(y, c, depth);
            }
            if let Some(y) = limit {
                lemma_expr_resolved(y, c, depth);
            }
        },
        _ => {},
    }
}

proof fn lemma_select_statement(v: ParsedStatementView, c: ResolverView, depth: usize)
    requires
        v is Select,
    ensures
        typed_statement(v, c, depth) matches Ok(r) ==> resolved_statement(r, c),
    decreases v, 0int,
{
    unfold_typed_statement(v, c, depth);
    match v {
        ParsedStatementView::Select { projection, filter, order_by, offset, limit, .. } => {
            lemma_projection_list_resolved(projection, c, depth, 0, Seq::empty());
            if let Some(y) = filter {
                lemma_expr_resolved(y, c, depth);
            }
            lemma_order_list_resolved(order_by, c, depth, 0, Seq::empty());
            if let Some(y) = offset {
                lemma_expr_resolved(y, c, depth);
            }
            if let Some(y) = limit {
                lemma_expr_resolved(y, c, depth);
            }
        },
        _ => {},
    }
}

proof fn lemma_advanced_select_statement(v: ParsedStatementView, c: ResolverView, depth: usize)
    requires
        v is AdvancedSelect,
    ensures
        typed_statement(v, c, depth) matches Ok(r) ==> resolved_statement(r, c),
    decreases v, 0int,
{
    unfold_typed_statement(v, c, depth);
    match v {
        ParsedStatementView::AdvancedSelect { joins, projection, filter, group_by, having, order_by, offset, limit, .. } => {
            lemma_join_list_resolved(joins, c, depth, 0, Seq::empty());
            lemma_projection_list_resolved(projection, c, depth, 0, Seq::empty());
            if let Some(y) = filter {
                lemma_expr_resolved(y, c, depth);
            }
            lemma_expr_list_resolved(group_by, c, depth, 0, Seq::empty());
            if let Some(y) = having {
                lemma_expr_resolved(y, c, depth);
            }
            lemma_order_list_resolved(order_by, c, depth, 0, Seq::empty());
            if let Some(y) = offset {
                lemma_expr_resolved(y, c, depth);
            }
            if let Some(y) = limit {
                lemma_expr_resolved(y, c, depth);
            }
        },
        _ => {},
    }
}

proof fn lemma_explain_statement(v: ParsedStatementView, c: ResolverView, depth: usize)
    requires
        v is Explain,
    ensures
        typed_statement(v, c, depth) matches Ok(r) ==> resolved_statement(r, c),
    decreases v, 0int,
{
    unfold_typed_statement(v, c, depth);
    match v {
        ParsedStatementView::Explain { statement } => {
            lemma_statement_resolved(*statement, c, (depth + 1) as usize);
        },
        _ => {},
    }
}

proof fn lemma_update_statement(v: ParsedStatementView, c: ResolverView, depth: usize)
    requires
        v is Update,
    ensures
        typed_statement(v, c, depth) matches Ok(r) ==> resolved_statement(r, c),
    decreases v, 0int,
{
    unfold_typed_statement(v, c, depth);
    match v {
        ParsedStatementView::Update { assignments, filter, returning, .. } => {
            lemma_assignments_resolved(assignments, c, depth, 0, Seq::empty());
            if let Some(y) = filter {
                lemma_expr_resolved(y, c, depth);
            }
            lemma_projection_list_resolved(returning, c, depth, 0, Seq::empty());
        },
        _ => {},
    }
}

proof fn lemma_delete_statement(v: ParsedStatementView, c: ResolverView, depth: usize)
    requires
        v is Delete,
    ensures
        typed_statement(v, c, depth) matches Ok(r) ==> resolved_statement(r, c),
    decreases v, 0int,
{
    unfold_typed_statement(v, c, depth);
    match v {
        ParsedStatementView::Delete { filter, returning, .. } => {
            if let Some(y) = filter {
                lemma_expr_resolved(y, c, depth);
            }
            lemma_projection_list_resolved(returning, c, depth, 0, Seq::empty());
        },
        _ => {},
    }
}

/// What the types of parameters, the catalog and the session settle is settled everywhere in a statement.
pub proof fn lemma_statement_resolved(v: ParsedStatementView, c: ResolverView, depth: usize)
    ensures
        typed_statement(v, c, depth) matches Ok(r) ==> resolved_statement(r, c),
    decreases v, 1int,
{
    match v {
        ParsedStatementView::CreateDomain { .. } => lemma_create_domain_statement(v, c, depth),
        ParsedStatementView::AlterDomain { .. } => lemma_alter_domain_statement(v, c, depth),
        ParsedStatementView::CreateTable { .. } => lemma_create_table_statement(v, c, depth),
        ParsedStatementView::AlterTable { .. } => lemma_alter_table_statement(v, c, depth),
        ParsedStatementView::CreateView { .. } => lemma_create_view_statement(v, c, depth),
        ParsedStatementView::Call { .. } => lemma_call_statement(v, c, depth),
        ParsedStatementView::ScalarSelect { .. } => lemma_scalar_select_statement(v, c, depth),
        ParsedStatementView::RoutineSelect { .. } => lemma_routine_select_statement(v, c, depth),
        ParsedStatementView::PgNotify { .. } => lemma_pg_notify_statement(v, c, depth),
        ParsedStatementView::SequenceValue { .. } => lemma_sequence_value_statement(v, c, depth),
        ParsedStatementView::Insert { .. } => lemma_insert_statement(v, c, depth),
        ParsedStatementView::Merge(_) => lemma_merge_statement(v, c, depth),
        ParsedStatementView::With { .. } => lemma_with_statement(v, c, depth),
        ParsedStatementView::SetOperation { .. } => lemma_set_operation_statement(v, c, depth),
        ParsedStatementView::Select { .. } => lemma_select_statement(v, c, depth),
        ParsedStatementView::AdvancedSelect { .. } => lemma_advanced_select_statement(v, c, depth),
        ParsedStatementView::Explain { .. } => lemma_explain_statement(v, c, depth),
        ParsedStatementView::Update { .. } => lemma_update_statement(v, c, depth),
        ParsedStatementView::Delete { .. } => lemma_delete_statement(v, c, depth),
        _ => {
            unfold_typed_statement(v, c, depth);
        },
    }
}

proof fn lemma_assignments_all(l: Seq<(ParsedIdentifierView, ParsedExprView)>, c: ResolverView, i: int)
    requires
        0 <= i,
        forall|k: int| 0 <= k < l.len() ==> resolved_expr((#[trigger] l[k]).1, c),
    ensures
        resolved_assignments(l, c, i),
    decreases l.len() - i,
{
    if i < l.len() {
        lemma_assignments_all(l, c, i + 1);
    }
}

proof fn lemma_assignments_resolved(
    l: Seq<(ParsedIdentifierView, ParsedExprView)>,
    c: ResolverView,
    depth: usize,
    i: int,
    done: Seq<(ParsedIdentifierView, ParsedExprView)>,
)
    requires
        0 <= i,
        forall|k: int| 0 <= k < done.len() ==> resolved_expr((#[trigger] done[k]).1, c),
    ensures
        typed_assignments(l, c, depth, i, done) matches Ok(r) ==> resolved_assignments(r, c, 0),
    decreases l, l.len() - i,
{
    unfold_typed_assignments(l, c, depth, i, done);
    if i >= l.len() {
        lemma_assignments_all(done, c, 0);
    } else {
        lemma_expr_resolved(l[i].1, c, depth);
        if let Ok(b) = typed_expr(l[i].1, c, depth) {
            lemma_assignments_resolved(l, c, depth, i + 1, done.push((l[i].0, b)));
        }
    }
}

proof fn lemma_alter_table_operation_list_all(l: Seq<ParsedAlterTableOperationView>, c: ResolverView, i: int)
    requires
        0 <= i,
        forall|k: int| 0 <= k < l.len() ==> resolved_alter_table_operation(#[trigger] l[k], c),
    ensures
        resolved_alter_table_operation_list(l, c, i),
    decreases l.len() - i,
{
    if i < l.len() {
        lemma_alter_table_operation_list_all(l, c, i + 1);
    }
}

proof fn lemma_alter_table_operation_list_resolved(
    l: Seq<ParsedAlterTableOperationView>,
    c: ResolverView,
    depth: usize,
    i: int,
    done: Seq<ParsedAlterTableOperationView>,
)
    requires
        0 <= i,
        forall|k: int| 0 <= k < done.len() ==> resolved_alter_table_operation(#[trigger] done[k], c),
    ensures
        typed_alter_table_operation_list(l, c, depth, i, done) matches Ok(r) ==> resolved_alter_table_operation_list(r, c, 0),
    decreases l, l.len() - i,
{
    unfold_typed_alter_table_operation_list(l, c, depth, i, done);
    if i >= l.len() {
        lemma_alter_table_operation_list_all(done, c, 0);
    } else {
        lemma_alter_table_operation_resolved(l[i], c, depth);
        if let Ok(b) = typed_alter_table_operation(l[i], c, depth) {
            lemma_alter_table_operation_list_resolved(l, c, depth, i + 1, done.push(b));
        }
    }
}

proof fn lemma_column_list_all(l: Seq<ParsedColumnView>, c: ResolverView, i: int)
    requires
        0 <= i,
        forall|k: int| 0 <= k < l.len() ==> resolved_column(#[trigger] l[k], c),
    ensures
        resolved_column_list(l, c, i),
    decreases l.len() - i,
{
    if i < l.len() {
        lemma_column_list_all(l, c, i + 1);
    }
}

proof fn lemma_column_list_resolved(l: Seq<ParsedColumnView>, c: ResolverView, depth: usize, i: int, done: Seq<ParsedColumnView>)
    requires
        0 <= i,
        forall|k: int| 0 <= k < done.len() ==> resolved_column(#[trigger] done[k], c),
    ensures
        typed_column_list(l, c, depth, i, done) matches Ok(r) ==> resolved_column_list(r, c, 0),
    decreases l, l.len() - i,
{
    unfold_typed_column_list(l, c, depth, i, done);
    if i >= l.len() {
        lemma_column_list_all(done, c, 0);
    } else {
        lemma_column_resolved(l[i], c, depth);
        if let Ok(b) = typed_column(l[i], c, depth) {
            lemma_column_list_resolved(l, c, depth, i + 1, done.push(b));
        }
    }
}

proof fn lemma_cte_list_all(l: Seq<ParsedCteView>, c: ResolverView, i: int)
    requires
        0 <= i,
        forall|k: int| 0 <= k < l.len() ==> resolved_cte(#[trigger] l[k], c),
    ensures
        resolved_cte_list(l, c, i),
    decreases l.len() - i,
{
    if i < l.len() {
        lemma_cte_list_all(l, c, i + 1);
    }
}

proof fn lemma_cte_list_resolved(l: Seq<ParsedCteView>, c: ResolverView, depth: usize, i: int, done: Seq<ParsedCteView>)
    requires
        0 <= i,
        forall|k: int| 0 <= k < done.len() ==> resolved_cte(#[trigger] done[k], c),
    ensures
        typed_cte_list(l, c, depth, i, done) matches Ok(r) ==> resolved_cte_list(r, c, 0),
    decreases l, l.len() - i,
{
    unfold_typed_cte_list(l, c, depth, i, done);
    if i >= l.len() {
        lemma_cte_list_all(done, c, 0);
    } else {
        lemma_cte_resolved(l[i], c, depth);
        if let Ok(b) = typed_cte(l[i], c, depth) {
            lemma_cte_list_resolved(l, c, depth, i + 1, done.push(b));
        }
    }
}

proof fn lemma_expr_list_all(l: Seq<ParsedExprView>, c: ResolverView, i: int)
    requires
        0 <= i,
        forall|k: int| 0 <= k < l.len() ==> resolved_expr(#[trigger] l[k], c),
    ensures
        resolved_expr_list(l, c, i),
    decreases l.len() - i,
{
    if i < l.len() {
        lemma_expr_list_all(l, c, i + 1);
    }
}

proof fn lemma_expr_list_resolved(l: Seq<ParsedExprView>, c: ResolverView, depth: usize, i: int, done: Seq<ParsedExprView>)
    requires
        0 <= i,
        forall|k: int| 0 <= k < done.len() ==> resolved_expr(#[trigger] done[k], c),
    ensures
        typed_expr_list(l, c, depth, i, done) matches Ok(r) ==> resolved_expr_list(r, c, 0),
    decreases l, l.len() - i,
{
    unfold_typed_expr_list(l, c, depth, i, done);
    if i >= l.len() {
        lemma_expr_list_all(done, c, 0);
    } else {
        lemma_expr_resolved(l[i], c, depth);
        if let Ok(b) = typed_expr(l[i], c, depth) {
            lemma_expr_list_resolved(l, c, depth, i + 1, done.push(b));
        }
    }
}

proof fn lemma_join_list_all(l: Seq<ParsedJoinView>, c: ResolverView, i: int)
    requires
        0 <= i,
        forall|k: int| 0 <= k < l.len() ==> resolved_join(#[trigger] l[k], c),
    ensures
        resolved_join_list(l, c, i),
    decreases l.len() - i,
{
    if i < l.len() {
        lemma_join_list_all(l, c, i + 1);
    }
}

proof fn lemma_join_list_resolved(l: Seq<ParsedJoinView>, c: ResolverView, depth: usize, i: int, done: Seq<ParsedJoinView>)
    requires
        0 <= i,
        forall|k: int| 0 <= k < done.len() ==> resolved_join(#[trigger] done[k], c),
    ensures
        typed_join_list(l, c, depth, i, done) matches Ok(r) ==> resolved_join_list(r, c, 0),
    decreases l, l.len() - i,
{
    unfold_typed_join_list(l, c, depth, i, done);
    if i >= l.len() {
        lemma_join_list_all(done, c, 0);
    } else {
        lemma_join_resolved(l[i], c, depth);
        if let Ok(b) = typed_join(l[i], c, depth) {
            lemma_join_list_resolved(l, c, depth, i + 1, done.push(b));
        }
    }
}

proof fn lemma_merge_clause_list_all(l: Seq<ParsedMergeClauseView>, c: ResolverView, i: int)
    requires
        0 <= i,
        forall|k: int| 0 <= k < l.len() ==> resolved_merge_clause(#[trigger] l[k], c),
    ensures
        resolved_merge_clause_list(l, c, i),
    decreases l.len() - i,
{
    if i < l.len() {
        lemma_merge_clause_list_all(l, c, i + 1);
    }
}

proof fn lemma_merge_clause_list_resolved(
    l: Seq<ParsedMergeClauseView>,
    c: ResolverView,
    depth: usize,
    i: int,
    done: Seq<ParsedMergeClauseView>,
)
    requires
        0 <= i,
        forall|k: int| 0 <= k < done.len() ==> resolved_merge_clause(#[trigger] done[k], c),
    ensures
        typed_merge_clause_list(l, c, depth, i, done) matches Ok(r) ==> resolved_merge_clause_list(r, c, 0),
    decreases l, l.len() - i,
{
    unfold_typed_merge_clause_list(l, c, depth, i, done);
    if i >= l.len() {
        lemma_merge_clause_list_all(done, c, 0);
    } else {
        lemma_merge_clause_resolved(l[i], c, depth);
        if let Ok(b) = typed_merge_clause(l[i], c, depth) {
            lemma_merge_clause_list_resolved(l, c, depth, i + 1, done.push(b));
        }
    }
}

proof fn lemma_order_list_all(l: Seq<ParsedOrderView>, c: ResolverView, i: int)
    requires
        0 <= i,
        forall|k: int| 0 <= k < l.len() ==> resolved_order(#[trigger] l[k], c),
    ensures
        resolved_order_list(l, c, i),
    decreases l.len() - i,
{
    if i < l.len() {
        lemma_order_list_all(l, c, i + 1);
    }
}

proof fn lemma_order_list_resolved(l: Seq<ParsedOrderView>, c: ResolverView, depth: usize, i: int, done: Seq<ParsedOrderView>)
    requires
        0 <= i,
        forall|k: int| 0 <= k < done.len() ==> resolved_order(#[trigger] done[k], c),
    ensures
        typed_order_list(l, c, depth, i, done) matches Ok(r) ==> resolved_order_list(r, c, 0),
    decreases l, l.len() - i,
{
    unfold_typed_order_list(l, c, depth, i, done);
    if i >= l.len() {
        lemma_order_list_all(done, c, 0);
    } else {
        lemma_order_resolved(l[i], c, depth);
        if let Ok(b) = typed_order(l[i], c, depth) {
            lemma_order_list_resolved(l, c, depth, i + 1, done.push(b));
        }
    }
}

proof fn lemma_projection_list_all(l: Seq<ParsedProjectionView>, c: ResolverView, i: int)
    requires
        0 <= i,
        forall|k: int| 0 <= k < l.len() ==> resolved_projection(#[trigger] l[k], c),
    ensures
        resolved_projection_list(l, c, i),
    decreases l.len() - i,
{
    if i < l.len() {
        lemma_projection_list_all(l, c, i + 1);
    }
}

proof fn lemma_projection_list_resolved(
    l: Seq<ParsedProjectionView>,
    c: ResolverView,
    depth: usize,
    i: int,
    done: Seq<ParsedProjectionView>,
)
    requires
        0 <= i,
        forall|k: int| 0 <= k < done.len() ==> resolved_projection(#[trigger] done[k], c),
    ensures
        typed_projection_list(l, c, depth, i, done) matches Ok(r) ==> resolved_projection_list(r, c, 0),
    decreases l, l.len() - i,
{
    unfold_typed_projection_list(l, c, depth, i, done);
    if i >= l.len() {
        lemma_projection_list_all(done, c, 0);
    } else {
        lemma_projection_resolved(l[i], c, depth);
        if let Ok(b) = typed_projection(l[i], c, depth) {
            lemma_projection_list_resolved(l, c, depth, i + 1, done.push(b));
        }
    }
}

proof fn lemma_table_constraint_list_all(l: Seq<ParsedTableConstraintView>, c: ResolverView, i: int)
    requires
        0 <= i,
        forall|k: int| 0 <= k < l.len() ==> resolved_table_constraint(#[trigger] l[k], c),
    ensures
        resolved_table_constraint_list(l, c, i),
    decreases l.len() - i,
{
    if i < l.len() {
        lemma_table_constraint_list_all(l, c, i + 1);
    }
}

proof fn lemma_table_constraint_list_resolved(
    l: Seq<ParsedTableConstraintView>,
    c: ResolverView,
    depth: usize,
    i: int,
    done: Seq<ParsedTableConstraintView>,
)
    requires
        0 <= i,
        forall|k: int| 0 <= k < done.len() ==> resolved_table_constraint(#[trigger] done[k], c),
    ensures
        typed_table_constraint_list(l, c, depth, i, done) matches Ok(r) ==> resolved_table_constraint_list(r, c, 0),
    decreases l, l.len() - i,
{
    unfold_typed_table_constraint_list(l, c, depth, i, done);
    if i >= l.len() {
        lemma_table_constraint_list_all(done, c, 0);
    } else {
        lemma_table_constraint_resolved(l[i], c, depth);
        if let Ok(b) = typed_table_constraint(l[i], c, depth) {
            lemma_table_constraint_list_resolved(l, c, depth, i + 1, done.push(b));
        }
    }
}

proof fn lemma_rows_all(l: Seq<Seq<ParsedExprView>>, c: ResolverView, i: int)
    requires
        0 <= i,
        forall|k: int| 0 <= k < l.len() ==> resolved_expr_list(#[trigger] l[k], c, 0),
    ensures
        resolved_rows(l, c, i),
    decreases l.len() - i,
{
    if i < l.len() {
        lemma_rows_all(l, c, i + 1);
    }
}

proof fn lemma_rows_resolved(l: Seq<Seq<ParsedExprView>>, c: ResolverView, depth: usize, i: int, done: Seq<Seq<ParsedExprView>>)
    requires
        0 <= i,
        forall|k: int| 0 <= k < done.len() ==> resolved_expr_list(#[trigger] done[k], c, 0),
    ensures
        typed_rows(l, c, depth, i, done) matches Ok(r) ==> resolved_rows(r, c, 0),
    decreases l, l.len() - i,
{
    unfold_typed_rows(l, c, depth, i, done);
    if i >= l.len() {
        lemma_rows_all(done, c, 0);
    } else {
        lemma_expr_list_resolved(l[i], c, depth, 0, Seq::empty());
        if let Ok(b) = typed_expr_list(l[i], c, depth, 0, Seq::empty()) {
            lemma_rows_resolved(l, c, depth, i + 1, done.push(b));
        }
    }
}

} // verus!
