//! What a refusal says: the code that clients tell refusals apart by.

use vstd::prelude::*;

use crate::binding::{bound_form, predicate_of, table_scope};
use crate::bound::{BoundExprKindView, BoundExprView, BoundProjectionView, BoundStatementView};
use crate::catalog::{find_column_index, CatalogView, TableDefinitionView, TriggerEvent};
use crate::dml::{dml_relation, insert_rows, named_columns};
use crate::grouping::{all_grouped, grouped};
use crate::laws_sorting::numbers;
use crate::names::named_table;
use crate::ordering::order_place;
use crate::queries::set_schema;
use crate::query_rules::statement_of;
use crate::scope::{column_in_inputs, Checked, InputColumnView, ScopeView};
use crate::solver_rules::{constrained, SolverView};
use crate::subquery::query_schema;
use crate::syntax::{ParsedExprKindView, ParsedExprView, ParsedIdentifierView, ParsedObjectNameView, ParsedStatementView, QuerySetOperator};
use crate::types::{DbErrorView, ScalarTypeView};

verus! {

/// The code of a refusal.
pub open spec fn refused_with<T>(r: Checked<T>, code: Seq<char>) -> bool {
    r matches Err(x) && x.sql_state == code
}

/// A table is found where its schema has it. A missing schema and a missing table are told
/// apart.
pub proof fn lemma_table_refusals(name: ParsedObjectNameView, catalog: CatalogView)
    ensures
        ({
            let schema = if name.parts.len() == 1 {
                crate::types::normalized("public"@, false)
            } else {
                name.parts[0].name
            };
            let r = named_table(name, catalog);
            &&& name.parts.len() == 0 || name.parts.len() > 2 ==> refused_with(r, "0A000"@)
            &&& 1 <= name.parts.len() <= 2 && catalog.schema(schema) is None ==> refused_with(r, "3F000"@)
            &&& 1 <= name.parts.len() <= 2 && catalog.schema(schema) is Some && catalog.table(schema, name.parts.last().name) is None
                ==> refused_with(r, "42P01"@)
            &&& 1 <= name.parts.len() <= 2 && catalog.schema(schema) is Some && catalog.table(schema, name.parts.last().name) is Some ==> r
                == Ok::<_, DbErrorView>(catalog.table(schema, name.parts.last().name)->0)
        }),
{
}

/// A data change is refused on a schema, a relation or a materialized view that it cannot
/// change, and on a view that no trigger stands in for.
pub proof fn lemma_target_refusals(name: ParsedObjectNameView, event: TriggerEvent, catalog: CatalogView)
    requires
        1 <= name.parts.len() <= 2,
    ensures
        ({
            let schema = if name.parts.len() == 1 {
                crate::types::normalized("public"@, false)
            } else {
                name.parts[0].name
            };
            let last = name.parts.last().name;
            let r = dml_relation(name, event, catalog);
            &&& catalog.schema(schema) is None ==> refused_with(r, "3F000"@)
            &&& catalog.schema(schema) is Some && catalog.table(schema, last) is None && catalog.view_of(schema, last) is None ==> refused_with(
                r,
                "42P01"@,
            )
            &&& catalog.schema(schema) is Some && catalog.table(schema, last) is None && (catalog.view_of(schema, last) matches Some(v)
                && v.kind is Materialized) ==> refused_with(r, "42809"@)
            &&& catalog.schema(schema) is Some && catalog.table(schema, last) is Some ==> r is Ok
            &&& r matches Err(x) ==> x.sql_state == "3F000"@ || x.sql_state == "42P01"@ || x.sql_state == "42809"@ || x.sql_state == "55000"@
        }),
{
    reveal(dml_relation);
}

proof fn lemma_absent(t: TableDefinitionView, name: Seq<char>, i: int)
    requires
        0 <= i,
        forall|k: int| 0 <= k < t.columns.len() ==> (#[trigger] t.columns[k]).name != name,
    ensures
        find_column_index(t.columns, name, i) is None,
    decreases t.columns.len() - i,
{
    if i < t.columns.len() {
        lemma_absent(t, name, i + 1);
    }
}

/// A column that a table does not have is refused as such, in any expression that is only
/// that column.
pub proof fn lemma_column_refusal(e: ParsedExprView, t: TableDefinitionView, expected: Option<ScalarTypeView>)
    requires
        e.kind matches ParsedExprKindView::Column(name) && name.parts.len() == 1 && forall|k: int|
            0 <= k < t.columns.len() ==> (#[trigger] t.columns[k]).name != name.parts[0].name,
    ensures
        refused_with(bound_form(e, table_scope(Some(t)), expected), "42703"@),
{
    let name = e.kind->Column_0;
    assert(name.parts.last() == name.parts[0]);
    lemma_absent(t, name.parts[0].name, 0);
}

/// A column of a FROM clause is refused as missing or as ambiguous.
pub proof fn lemma_input_column_refusals(name: ParsedObjectNameView, inputs: Seq<InputColumnView>)
    ensures
        1 <= name.parts.len() <= 2 ==> (column_in_inputs(name, inputs) matches Err(x) ==> x.sql_state == "42703"@ || x.sql_state == "42702"@),
        name.parts.len() == 0 || name.parts.len() > 2 ==> refused_with(column_in_inputs(name, inputs), "0A000"@),
{
}

/// What can be bound but is no boolean is refused as a condition for its type.
pub proof fn lemma_condition_refusal(e: ParsedExprView, scope: ScopeView)
    ensures
        bound_form(e, scope, Some(ScalarTypeView::Boolean)) matches Ok(b) ==> (if b.data_type is Boolean {
            predicate_of(e, scope) == Ok::<_, DbErrorView>(b)
        } else {
            refused_with(predicate_of(e, scope), "42804"@)
        }),
{
}

/// What may not stand in a grouped query is refused as such.
pub proof fn lemma_grouping_refusal(e: BoundExprView, group: Seq<BoundExprView>)
    ensures
        grouped(e, group) matches Err(x) ==> x.sql_state == "42803"@,
    decreases e, 0int,
{
    match e.kind {
        BoundExprKindView::Unary { expr, .. } => lemma_grouping_refusal(*expr, group),
        BoundExprKindView::Cast { expr } => lemma_grouping_refusal(*expr, group),
        BoundExprKindView::Array { elements, .. } => lemma_list_refusal(elements, group, 0),
        BoundExprKindView::Function { arguments, .. } => lemma_list_refusal(arguments, group, 0),
        BoundExprKindView::Binary { left, right, .. } => {
            lemma_grouping_refusal(*left, group);
            lemma_grouping_refusal(*right, group);
        },
        BoundExprKindView::InList { expr, list, .. } => {
            lemma_grouping_refusal(*expr, group);
            lemma_list_refusal(list, group, 0);
        },
        _ => {},
    }
}

proof fn lemma_list_refusal(l: Seq<BoundExprView>, group: Seq<BoundExprView>, i: int)
    requires
        0 <= i,
    ensures
        all_grouped(l, group, i) matches Err(x) ==> x.sql_state == "42803"@,
    decreases l, l.len() - i,
{
    if i < l.len() {
        lemma_grouping_refusal(l[i], group);
        lemma_list_refusal(l, group, i + 1);
    }
}

/// A parameter that is asked for two types is refused; one that is asked for the type that
/// it has keeps it.
pub proof fn lemma_parameter_refusals(index: usize, t: ScalarTypeView, position: Option<usize>, s: SolverView)
    ensures
        s.types.dom().contains(index) && s.types[index] != t ==> refused_with(constrained(index, t, position, s).1, "42804"@),
        s.types.dom().contains(index) && s.types[index] == t ==> constrained(index, t, position, s).1 is Ok && constrained(
            index,
            t,
            position,
            s,
        ).0 == s,
        !s.types.dom().contains(index) ==> constrained(index, t, position, s).1 is Ok,
{
}

/// A parameter of which nothing tells the type is refused.
pub proof fn lemma_untyped_parameter_refusal(e: ParsedExprView, t: Option<TableDefinitionView>)
    requires
        e.kind is Parameter,
    ensures
        refused_with(bound_form(e, table_scope(t), None), "42P18"@),
{
}

/// A sort key with a number that no output column has is refused.
pub proof fn lemma_ordinal_refusal(e: ParsedExprView, projection: Seq<BoundProjectionView>, n: int)
    requires
        numbers(e, n),
        projection.len() <= usize::MAX,
    ensures
        n <= 0 ==> refused_with(order_place(e, projection), "42P10"@),
        projection.len() < n <= usize::MAX ==> refused_with(order_place(e, projection), "42P10"@),
        1 <= n <= projection.len() ==> order_place(e, projection) == Ok::<Option<usize>, DbErrorView>(Some((n - 1) as usize)),
{
}

/// A row of an INSERT that has not one value for each column is refused.
pub proof fn lemma_row_refusal(rows: Seq<Seq<ParsedExprView>>, indexes: Seq<usize>, t: TableDefinitionView)
    requires
        rows.len() > 0,
        rows[0].len() != indexes.len(),
    ensures
        refused_with(insert_rows(rows, indexes, t, 0, Seq::empty()), "42601"@),
{
}

/// A column list is refused for a column that is missing and for one that it repeats, and
/// for nothing else.
pub proof fn lemma_column_list_refusals(l: Seq<ParsedIdentifierView>, t: TableDefinitionView, i: int, done: Seq<usize>)
    requires
        0 <= i <= l.len(),
    ensures
        named_columns(l, t, i, done) matches Err(x) ==> x.sql_state == "42703"@ || x.sql_state == "42701"@,
    decreases l.len() - i,
{
    if i < l.len() {
        if let Some(k) = find_column_index(t.columns, l[i].name, 0) {
            lemma_column_list_refusals(l, t, i + 1, done.push(k));
        }
    }
}

/// Queries with different numbers of columns cannot be combined.
pub proof fn lemma_set_refusal(left: BoundStatementView, right: BoundStatementView, operator: QuerySetOperator, all: bool)
    ensures
        query_schema(left) is Ok && query_schema(right) is Ok && query_schema(left)->Ok_0.fields.len() != query_schema(right)->Ok_0.fields.len()
            ==> refused_with(set_schema(left, right, operator, all), "42601"@),
{
}

/// A statement that is nested too deeply is refused for that.
pub proof fn lemma_depth_refusal(s: ParsedStatementView, catalog: CatalogView, depth: usize)
    requires
        depth > 64,
    ensures
        refused_with(statement_of(s, catalog, depth), "54001"@),
{
    reveal(statement_of);
}

} // verus!
