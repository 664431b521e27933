//! What a sort key sorts by, and what a grouped query may show.

use vstd::prelude::*;

use crate::binding::{bound_form, input_scope, table_scope};
use crate::bound::{BoundExprKindView, BoundExprView, BoundOrderView, BoundProjectionView, BoundWindowView};
use crate::catalog::{find_column, ColumnDefinitionView, TableDefinitionView};
use crate::dml::{conflict_columns, conflict_ids, conflict_inputs};
use crate::grouping::{aggregated, all_grouped, any_output_aggregated, grouped, output_of, window_of};
use crate::laws_bind::{lemma_told_form, told};
use crate::laws_parts::{lemma_columns_from, stand_behind};
use crate::ordering::{
    distinct_order, field_named, multi_order, order_place, ordinal_of, output_named, projected_order, set_order, simple_order,
};
use crate::scope::{InputColumnView, ScopeView};
use crate::select_list::{clauses_of, conditions, grouping_of, outputs_grouped, ClausesView};
use crate::syntax::{ParsedConflictTargetView, ParsedExprKindView, ParsedExprView, ParsedIdentifierView, ParsedOrderView};
use crate::types::{FieldView, SchemaView, ValueView};

verus! {

/// Whether a sort key sorts by an expression: by its place where it is a column, by the
/// expression itself otherwise.
pub open spec fn sorts_by(b: BoundOrderView, e: BoundExprView) -> bool {
    &&& b.data_type == e.data_type
    &&& match e.kind {
        BoundExprKindView::Column { index } => b.column_index == index && b.expression is None,
        _ => b.expression == Some(e),
    }
}

/// Whether an expression is an integer constant.
pub open spec fn numbers(e: ParsedExprView, n: int) -> bool {
    match e.kind {
        ParsedExprKindView::Literal(ValueView::Int16(i)) => n == i,
        ParsedExprKindView::Literal(ValueView::Int32(i)) => n == i,
        ParsedExprKindView::Literal(ValueView::Int64(i)) => n == i,
        _ => false,
    }
}

/// Whether an expression is a plain name.
pub open spec fn names_output(e: ParsedExprView, name: Seq<char>) -> bool {
    e.kind matches ParsedExprKindView::Column(c) && c.parts.len() == 1 && c.parts[0].name == name
}

/// Whether an output column is the one that a sort key names: by its number, counted from
/// one, or by its name, which no other output column has.
pub open spec fn chosen(e: ParsedExprView, projection: Seq<BoundProjectionView>, k: int) -> bool {
    &&& 0 <= k < projection.len()
    &&& numbers(e, k + 1) || (names_output(e, projection[k].field.name) && forall|j: int|
        0 <= j < projection.len() && j != k ==> (#[trigger] projection[j]).field.name != projection[k].field.name)
}

proof fn lemma_output_named(l: Seq<BoundProjectionView>, name: Seq<char>, i: int)
    requires
        0 <= i,
        l.len() <= usize::MAX,
    ensures
        output_named(l, name, i) matches Some(k) ==> i <= k < l.len() && l[k as int].field.name == name && forall|j: int|
            i <= j < k ==> (#[trigger] l[j]).field.name != name,
        output_named(l, name, i) is None ==> forall|j: int| i <= j < l.len() ==> (#[trigger] l[j]).field.name != name,
    decreases l.len() - i,
{
    if i < l.len() && l[i].field.name != name {
        lemma_output_named(l, name, i + 1);
    }
}

/// A sort key that is a number or the name of an output column sorts by that column.
pub proof fn lemma_place_chosen(e: ParsedExprView, projection: Seq<BoundProjectionView>)
    requires
        projection.len() <= usize::MAX,
    ensures
        order_place(e, projection) matches Ok(Some(k)) ==> chosen(e, projection, k as int),
        order_place(e, projection) matches Ok(None) ==> (forall|n: int| !numbers(e, n)) && forall|k: int|
            0 <= k < projection.len() ==> !names_output(e, (#[trigger] projection[k]).field.name),
        order_place(e, projection) is Err ==> ordinal_of(e) is Some || e.kind is Column,
{
    if let ParsedExprKindView::Column(c) = e.kind {
        if c.parts.len() == 1 {
            lemma_output_named(projection, c.parts[0].name, 0);
            if let Some(k) = output_named(projection, c.parts[0].name, 0) {
                lemma_output_named(projection, c.parts[0].name, k + 1);
            }
        }
    }
}

/// Whether a sort key sorts by what was written: by the output column that it names, or
/// else by the expression that was written.
pub open spec fn key_told(o: ParsedOrderView, projection: Seq<BoundProjectionView>, scope: ScopeView, b: BoundOrderView) -> bool {
    ||| exists|k: int| #[trigger] chosen(o.expr, projection, k) && sorts_by(b, projection[k].expr)
    ||| exists|e: BoundExprView| #[trigger] sorts_by(b, e) && told(o.expr, scope, e)
}

/// A sort key of a query without grouping sorts by what was written.
pub proof fn lemma_keys_told(
    o: ParsedOrderView,
    projection: Seq<BoundProjectionView>,
    t: TableDefinitionView,
    inputs: Seq<InputColumnView>,
)
    requires
        projection.len() <= usize::MAX,
    ensures
        simple_order(o, projection, t) matches Ok(b) ==> key_told(o, projection, table_scope(Some(t)), b),
        multi_order(o, projection, inputs) matches Ok(b) ==> key_told(o, projection, input_scope(inputs, false), b),
        distinct_order(o, projection, inputs) matches Ok(b) ==> key_told(o, projection, input_scope(inputs, false), b),
{
    lemma_place_chosen(o.expr, projection);
    lemma_told_form(o.expr, table_scope(Some(t)), None);
    lemma_told_form(o.expr, input_scope(inputs, false), None);
    if let Ok(Some(k)) = order_place(o.expr, projection) {
        assert(chosen(o.expr, projection, k as int));
        let e = projection[k as int].expr;
        if let Ok(b) = simple_order(o, projection, t) {
            assert(sorts_by(b, e));
        }
    } else {
        if let Ok(e) = bound_form(o.expr, table_scope(Some(t)), None) {
            if let Ok(b) = simple_order(o, projection, t) {
                assert(sorts_by(b, e));
            }
        }
        if let Ok(e) = bound_form(o.expr, input_scope(inputs, false), None) {
            if let Ok(b) = multi_order(o, projection, inputs) {
                assert(sorts_by(b, e));
            }
            if let Ok(b) = distinct_order(o, projection, inputs) {
                assert(sorts_by(b, e));
            }
        }
    }
}

proof fn lemma_output_of(l: Seq<BoundProjectionView>, e: BoundExprView, i: int)
    requires
        0 <= i,
        l.len() <= usize::MAX,
    ensures
        output_of(l, e, i) matches Some(k) ==> i <= k < l.len() && l[k as int].expr == e,
    decreases l.len() - i,
{
    if i < l.len() && l[i].expr != e {
        lemma_output_of(l, e, i + 1);
    }
}

/// A sort key of a grouped query sorts by an output column: by the one that it names, or
/// by one that shows the expression that was written.
pub proof fn lemma_grouped_key_told(
    o: ParsedOrderView,
    projection: Seq<BoundProjectionView>,
    inputs: Seq<InputColumnView>,
    group: Seq<BoundExprView>,
)
    requires
        projection.len() <= usize::MAX,
    ensures
        projected_order(o, projection, inputs, group) matches Ok(b) ==> {
            &&& b.column_index < projection.len()
            &&& b.expression is None
            &&& b.data_type == projection[b.column_index as int].expr.data_type
            &&& chosen(o.expr, projection, b.column_index as int) || told(
                o.expr,
                input_scope(inputs, true),
                projection[b.column_index as int].expr,
            )
        },
{
    lemma_place_chosen(o.expr, projection);
    lemma_told_form(o.expr, input_scope(inputs, true), None);
    if let Ok(e) = bound_form(o.expr, input_scope(inputs, true), None) {
        lemma_output_of(projection, e, 0);
    }
}

proof fn lemma_field_named(l: Seq<FieldView>, name: Seq<char>, i: int)
    requires
        0 <= i,
        l.len() <= usize::MAX,
    ensures
        field_named(l, name, i) matches Some(k) ==> i <= k < l.len() && l[k as int].name == name,
    decreases l.len() - i,
{
    if i < l.len() && l[i].name != name {
        lemma_field_named(l, name, i + 1);
    }
}

/// A sort key of a set operation sorts by the output column that it names, by its number or
/// its name.
pub proof fn lemma_set_key_told(o: ParsedOrderView, schema: SchemaView)
    requires
        schema.fields.len() <= usize::MAX,
    ensures
        set_order(o, schema) matches Ok(b) ==> {
            &&& b.column_index < schema.fields.len()
            &&& b.expression is None
            &&& b.data_type == schema.fields[b.column_index as int].data_type
            &&& numbers(o.expr, b.column_index + 1) || names_output(o.expr, schema.fields[b.column_index as int].name)
        },
{
    if let ParsedExprKindView::Column(c) = o.expr.kind {
        if c.parts.len() == 1 {
            lemma_field_named(schema.fields, c.parts[0].name, 0);
        }
    }
}

/// Whether a column stands in an expression outside aggregates and outside what a query is
/// grouped by.
pub open spec fn loose(e: BoundExprView, group: Seq<BoundExprView>) -> bool
    decreases e, 0int,
{
    !group.contains(e) && match e.kind {
        BoundExprKindView::Column { .. } => true,
        BoundExprKindView::Unary { expr, .. } => loose(*expr, group),
        BoundExprKindView::Cast { expr } => loose(*expr, group),
        BoundExprKindView::Array { elements, .. } => any_loose(elements, group, 0),
        BoundExprKindView::Function { arguments, .. } => any_loose(arguments, group, 0),
        BoundExprKindView::Binary { left, right, .. } => loose(*left, group) || loose(*right, group),
        BoundExprKindView::InList { expr, list, .. } => loose(*expr, group) || any_loose(list, group, 0),
        _ => false,
    }
}

/// The same of a list, from one of its entries on.
pub open spec fn any_loose(l: Seq<BoundExprView>, group: Seq<BoundExprView>, i: int) -> bool
    decreases l, l.len() - i,
{
    0 <= i < l.len() && (loose(l[i], group) || any_loose(l, group, i + 1))
}

/// An expression may stand in a grouped query exactly where no column of it is loose.
pub proof fn lemma_grouped_loose(e: BoundExprView, group: Seq<BoundExprView>)
    ensures
        grouped(e, group) is Ok <==> !loose(e, group),
    decreases e, 1int,
{
    match e.kind {
        BoundExprKindView::Unary { expr, .. } => lemma_grouped_loose(*expr, group),
        BoundExprKindView::Cast { expr } => lemma_grouped_loose(*expr, group),
        BoundExprKindView::Array { elements, .. } => lemma_all_loose(elements, group, 0),
        BoundExprKindView::Function { arguments, .. } => lemma_all_loose(arguments, group, 0),
        BoundExprKindView::Binary { left, right, .. } => {
            lemma_grouped_loose(*left, group);
            lemma_grouped_loose(*right, group);
        },
        BoundExprKindView::InList { expr, list, .. } => {
            lemma_grouped_loose(*expr, group);
            lemma_all_loose(list, group, 0);
        },
        _ => {},
    }
}

proof fn lemma_all_loose(l: Seq<BoundExprView>, group: Seq<BoundExprView>, i: int)
    requires
        0 <= i,
    ensures
        all_grouped(l, group, i) is Ok <==> !any_loose(l, group, i),
    decreases l, l.len() - i,
{
    if i < l.len() {
        lemma_grouped_loose(l[i], group);
        lemma_all_loose(l, group, i + 1);
    }
}

proof fn lemma_outputs_loose(l: Seq<BoundProjectionView>, windows: Seq<BoundWindowView>, group: Seq<BoundExprView>, i: int)
    requires
        0 <= i,
    ensures
        outputs_grouped(l, windows, group, i) is Ok ==> forall|k: int|
            i <= k < l.len() ==> window_of((#[trigger] l[k]).expr, windows) is Some || !loose(l[k].expr, group),
    decreases l.len() - i,
{
    if i < l.len() {
        lemma_grouped_loose(l[i].expr, group);
        lemma_outputs_loose(l, windows, group, i + 1);
    }
}

proof fn lemma_any_output(l: Seq<BoundProjectionView>, i: int)
    requires
        0 <= i,
    ensures
        any_output_aggregated(l, i) <==> exists|k: int| i <= k < l.len() && aggregated((#[trigger] l[k]).expr),
    decreases l.len() - i,
{
    if i < l.len() {
        lemma_any_output(l, i + 1);
        if aggregated(l[i].expr) {
            assert(aggregated(l[i].expr));
        }
    }
}

/// A query is grouped where it has a GROUP BY or an aggregate. Then each column that it
/// shows is grouped by or stands in an aggregate, and so does each column of its HAVING.
/// No aggregate stands in its WHERE.
pub proof fn lemma_grouping_told(
    c: ClausesView,
    distinct: bool,
    local: Seq<InputColumnView>,
    inputs: Seq<InputColumnView>,
    windows: Seq<BoundWindowView>,
)
    ensures
        clauses_of(c, distinct, local, inputs, windows) matches Ok(b) ==> {
            &&& b.group_by.len() > 0 ==> b.aggregate
            &&& (exists|k: int| 0 <= k < b.projection.len() && aggregated((#[trigger] b.projection[k]).expr)) ==> b.aggregate
            &&& b.having is Some ==> b.aggregate
            &&& b.filter is Some ==> !aggregated(b.filter->0)
            &&& b.aggregate ==> forall|k: int|
                0 <= k < b.projection.len() ==> window_of((#[trigger] b.projection[k]).expr, windows) is Some || !loose(
                    b.projection[k].expr,
                    b.group_by,
                )
            &&& b.aggregate && b.having is Some ==> !loose(b.having->0, b.group_by)
        },
{
    reveal(clauses_of);
    reveal(conditions);
    reveal(grouping_of);
    if let Ok(b) = clauses_of(c, distinct, local, inputs, windows) {
        lemma_outputs_loose(b.projection, windows, b.group_by, 0);
        lemma_any_output(b.projection, 0);
        if b.having is Some {
            lemma_grouped_loose(b.having->0, b.group_by);
        }
    }
}

proof fn lemma_found_column(l: Seq<ColumnDefinitionView>, name: Seq<char>, i: int)
    requires
        0 <= i,
    ensures
        find_column(l, name, i) matches Some(c) ==> c.name == name && exists|k: int| i <= k < l.len() && #[trigger] l[k] == c,
    decreases l.len() - i,
{
    if i < l.len() {
        if l[i].name == name {
            assert(l[i] == l[i]);
        } else {
            lemma_found_column(l, name, i + 1);
        }
    }
}

proof fn lemma_conflict_ids(l: Seq<ParsedIdentifierView>, t: TableDefinitionView, i: int, done: Seq<crate::types::ColumnId>)
    requires
        0 <= i <= l.len(),
        done.len() == i,
        forall|k: int| 0 <= k < i ==> (find_column(t.columns, (#[trigger] l[k]).name, 0) matches Some(c) && c.id == done[k]),
    ensures
        conflict_ids(l, t, i, done) matches Ok(r) ==> r.len() == l.len() && forall|k: int|
            0 <= k < l.len() ==> (find_column(t.columns, (#[trigger] l[k]).name, 0) matches Some(c) && c.id == r[k]),
    decreases l.len() - i,
{
    if i < l.len() {
        if let Some(c) = find_column(t.columns, l[i].name, 0) {
            let next = done.push(c.id);
            assert forall|k: int| 0 <= k < i + 1 implies (find_column(t.columns, (#[trigger] l[k]).name, 0) matches Some(c) && c.id
                == next[k]) by {
                if k < i {
                    assert(next[k] == done[k]);
                }
            }
            lemma_conflict_ids(l, t, i + 1, next);
        }
    }
}

/// The columns that ON CONFLICT names are found by their names, one for each name.
pub proof fn lemma_conflict_columns_told(columns: Seq<ParsedIdentifierView>, t: TableDefinitionView)
    ensures
        conflict_columns(ParsedConflictTargetView::Columns(columns), t) matches Ok(r) ==> r.len() == columns.len() && forall|k: int|
            0 <= k < columns.len() ==> (find_column(t.columns, (#[trigger] columns[k]).name, 0) matches Some(c) && c.id == r[k] && c.name
                == columns[k].name),
{
    lemma_conflict_ids(columns, t, 0, Seq::empty());
    assert forall|k: int| 0 <= k < columns.len() && find_column(t.columns, (#[trigger] columns[k]).name, 0) is Some implies find_column(
        t.columns,
        columns[k].name,
        0,
    )->0.name == columns[k].name by {
        lemma_found_column(t.columns, columns[k].name, 0);
    }
}

/// In ON CONFLICT DO UPDATE the columns of the table stand first, under its name, and
/// behind them those of the row that was refused, under the name excluded.
pub proof fn lemma_conflict_scope_told(t: TableDefinitionView)
    ensures
        exists|own: Seq<InputColumnView>|
            #[trigger] stand_behind(Seq::empty(), t.name, t.columns, false, own) && stand_behind(
                own,
                crate::types::normalized("excluded"@, false),
                t.columns,
                false,
                conflict_inputs(t),
            ),
{
    let none: Seq<InputColumnView> = Seq::empty();
    let own = with_own(t);
    assert(t.columns.take(0) =~= Seq::empty());
    lemma_columns_from(t.name, t.columns, false, 0, none, none);
    lemma_columns_from(crate::types::normalized("excluded"@, false), t.columns, false, 0, own, own);
    assert(stand_behind(none, t.name, t.columns, false, own));
}

/// The columns of a table in a FROM clause of its own.
pub open spec fn with_own(t: TableDefinitionView) -> Seq<InputColumnView> {
    crate::inputs::with_columns(t.name, t.columns, false, 0, Seq::empty())
}

} // verus!
