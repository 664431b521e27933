//! What holds of every bound expression.

use vstd::prelude::*;

use crate::binding::{
    aggregate_type, bound_form, bound_list, bound_option, element_type, expected_element, input_scope, membership_type, operand_type,
    table_scope, Expectation,
};
use crate::bound::{BoundExprKindView, BoundExprView, BoundProjectionView, BoundWindowView};
use crate::catalog::{find_column_index, lemma_column_index, TableDefinitionView};
use crate::dml::{assignments_of, qualified, row_values};
use crate::expr::{meeting_type, type_of, unknown_text, Meeting};
use crate::queries::table_select;
use crate::scope::{lemma_first_answer, Checked, InputColumnView, ScopeView};
use crate::select_list::{
    clauses_of, conditions, output_column, select_items, slot_column, table_items, with_inputs, with_table, ClausesView,
};
use crate::syntax::{ParsedExprKindView, ParsedExprView, ParsedIdentifierView, ParsedOrderView, ParsedProjectionView, UnaryOperator};
use crate::types::{type_accepts, DbErrorView, ScalarTypeView};
use crate::typing::{any_nullable, arithmetic, castable, function_result, numeric, shares_type};

verus! {

/// Whether a scope supplies a column of a type at a nesting depth and a place.
pub open spec fn supplied(scope: ScopeView, depth: usize, index: usize, t: ScalarTypeView, nullable: bool) -> bool {
    match scope {
        ScopeView::Table { table, .. } => {
            &&& depth == 0
            &&& table is Some
            &&& index < table->0.columns.len()
            &&& table->0.columns[index as int].data_type == t
            &&& table->0.columns[index as int].nullable == nullable
        },
        ScopeView::Inputs { inputs, .. } => exists|k: int|
            0 <= k < inputs.len() && (#[trigger] inputs[k]).outer_depth == depth && inputs[k].index == index && inputs[k].data_type == t
                && inputs[k].nullable == nullable,
    }
}

/// Whether every column of a bound expression is one that the scope supplies, every
/// constant may stand at its type and every operator and function has operands that it
/// takes and the type that it gives.
pub open spec fn well_bound(b: BoundExprView, scope: ScopeView) -> bool
    decreases b, 0int,
{
    match b.kind {
        BoundExprKindView::Column { index } => supplied(scope, 0, index, b.data_type, b.nullable),
        BoundExprKindView::Correlation { depth, index } => depth > 0 && supplied(scope, depth, index, b.data_type, b.nullable),
        BoundExprKindView::Literal(v) => type_accepts(b.data_type, v) && b.nullable == (v is Null),
        BoundExprKindView::Parameter { .. } => b.nullable,
        BoundExprKindView::ApplyValue { .. } => true,
        BoundExprKindView::Unary { op, expr } => well_bound(*expr, scope) && match op {
            UnaryOperator::Not => expr.data_type is Boolean && b.data_type is Boolean,
            UnaryOperator::Negate => numeric(expr.data_type) && b.data_type == expr.data_type,
        },
        BoundExprKindView::Cast { expr } => well_bound(*expr, scope) && castable(
            expr.data_type,
            b.data_type,
        ) && b.nullable == expr.nullable,
        BoundExprKindView::Array { elements, .. } => all_well_bound(elements, scope, 0) && b.data_type is Array && !(
            *b.data_type->element is Array
        )
            && !b.nullable,
        BoundExprKindView::Function { function, arguments } => all_well_bound(arguments, scope, 0) && function_result(
            function,
            arguments,
            None,
        ) == Ok::<
            (ScalarTypeView, bool),
            DbErrorView,
        >((b.data_type, b.nullable)),
        BoundExprKindView::Binary { left, op, right } => well_bound(*left, scope) && well_bound(*right, scope) && if arithmetic(op) {
            numeric(b.data_type) || b.data_type is Oid
        } else {
            b.data_type is Boolean
        },
        BoundExprKindView::InList { expr, list, .. } => well_bound(*expr, scope) && all_well_bound(list, scope, 0) && b.data_type is Boolean && b.nullable
            == (expr.nullable || any_nullable(list)),
        BoundExprKindView::Aggregate { function, argument, filter, .. } => {
            &&& scope is Inputs
            &&& scope->aggregates
            &&& match argument {
                Some(a) => well_bound(*a, scope.without_aggregates()),
                None => true,
            }
            &&& match filter {
                Some(f) => well_bound(*f, scope.without_aggregates()) && f.data_type is Boolean,
                None => true,
            }
            &&& aggregate_type(
                function,
                match argument {
                    Some(a) => Some(a.data_type),
                    None => None,
                },
            ) == Some((b.data_type, b.nullable))
        },
    }
}

/// Whether bound expressions are [`well_bound`], from one of them on.
pub open spec fn all_well_bound(l: Seq<BoundExprView>, scope: ScopeView, i: int) -> bool
    decreases l, l.len() - i,
{
    0 <= i < l.len() ==> well_bound(l[i], scope) && all_well_bound(l, scope, i + 1)
}

proof fn lemma_all_well_bound(l: Seq<BoundExprView>, scope: ScopeView, i: int)
    requires
        0 <= i,
        forall|k: int| 0 <= k < l.len() ==> well_bound(#[trigger] l[k], scope),
    ensures
        all_well_bound(l, scope, i),
    decreases l.len() - i,
{
    if i < l.len() {
        lemma_all_well_bound(l, scope, i + 1);
    }
}

/// Whether a binding failed or gave a [`well_bound`] expression.
pub open spec fn form_well(r: Checked<BoundExprView>, scope: ScopeView) -> bool {
    r matches Ok(b) ==> well_bound(b, scope)
}

/// Whether a binding failed or gave [`well_bound`] expressions.
pub open spec fn list_well(r: Checked<Seq<BoundExprView>>, scope: ScopeView) -> bool {
    r matches Ok(l) ==> all_well_bound(l, scope, 0)
}

/// Whether a table of a scope has a number of columns that a machine can hold.
pub open spec fn held(scope: ScopeView) -> bool {
    scope matches ScopeView::Table { table: Some(table), .. } ==> table.columns.len() <= usize::MAX
}

proof fn lemma_column_well(e: ParsedExprView, scope: ScopeView, expected: Option<ScalarTypeView>)
    requires
        held(scope),
        e.kind is Column,
    ensures
        form_well(bound_form(e, scope, expected), scope),
{
    let name = e.kind->Column_0;
    match scope {
        ScopeView::Table { table, .. } => {
            if table is Some && name.parts.len() > 0 {
                lemma_column_index(table->0.columns, name.parts.last().name, 0);
            }
        },
        ScopeView::Inputs { inputs, .. } => {
            if name.parts.len() > 0 {
                let q = if name.parts.len() == 1 {
                    None
                } else {
                    Some(name.parts[0].name)
                };
                lemma_first_answer(inputs, q, name.parts.last().name, true, 0);
                lemma_first_answer(inputs, q, name.parts.last().name, false, 0);
            }
        },
    }
}

proof fn lemma_unary_well(e: ParsedExprView, scope: ScopeView, expected: Option<ScalarTypeView>)
    requires
        held(scope),
        e.kind is Unary,
    ensures
        form_well(bound_form(e, scope, expected), scope),
    decreases e, 0int,
{
    if let ParsedExprKindView::Unary { op, expr } = e.kind {
        lemma_bound_well(
            *expr,
            scope,
            if op == UnaryOperator::Not {
                Some(ScalarTypeView::Boolean)
            } else {
                expected
            },
        );
    }
}

proof fn lemma_cast_well(e: ParsedExprView, scope: ScopeView, expected: Option<ScalarTypeView>)
    requires
        held(scope),
        e.kind is Cast,
    ensures
        form_well(bound_form(e, scope, expected), scope),
    decreases e, 0int,
{
    if let ParsedExprKindView::Cast { expr, data_type, .. } = e.kind {
        lemma_bound_well(*expr, scope, Some(data_type));
        lemma_bound_well(*expr, scope, None);
    }
}

proof fn lemma_array_well(e: ParsedExprView, scope: ScopeView, expected: Option<ScalarTypeView>)
    requires
        held(scope),
        e.kind is Array,
    ensures
        form_well(bound_form(e, scope, expected), scope),
    decreases e, 0int,
{
    if let ParsedExprKindView::Array { elements, .. } = e.kind {
        if let Ok(start) = expected_element(expected, e.position) {
            let meeting = Meeting { label: "array element types "@, literal: scope is Table, left_unknown: false };
            if let Ok(met) = meeting_type(elements, scope, 0, start, meeting, e.position) {
                if let Ok(t) = element_type(met, e.position) {
                    lemma_list_well(elements, scope, Expectation::Each(Some(t)), 0, Seq::empty());
                }
            }
        }
    }
}

proof fn lemma_function_well(e: ParsedExprView, scope: ScopeView, expected: Option<ScalarTypeView>)
    requires
        held(scope),
        e.kind is Function,
    ensures
        form_well(bound_form(e, scope, expected), scope),
    decreases e, 0int,
{
    if let ParsedExprKindView::Function { function, arguments } = e.kind {
        if let Ok(inferred) = type_of(e, scope) {
            let shared = if shares_type(function) {
                inferred
            } else {
                None
            };
            lemma_list_well(arguments, scope, Expectation::Argument(function, shared), 0, Seq::empty());
        }
    }
}

proof fn lemma_binary_well(e: ParsedExprView, scope: ScopeView, expected: Option<ScalarTypeView>)
    requires
        held(scope),
        e.kind is Binary,
    ensures
        form_well(bound_form(e, scope, expected), scope),
    decreases e, 0int,
{
    if let ParsedExprKindView::Binary { left, op, right } = e.kind {
        lemma_bound_well(*left, scope, Some(ScalarTypeView::Boolean));
        lemma_bound_well(*right, scope, Some(ScalarTypeView::Boolean));
        if let (Ok(lt), Ok(rt)) = (type_of(*left, scope), type_of(*right, scope)) {
            if let Ok(t) = operand_type(op, lt, rt, scope is Table, unknown_text(*left), unknown_text(*right), expected, e.position) {
                lemma_bound_well(*left, scope, Some(t));
                lemma_bound_well(*right, scope, Some(t));
            }
        }
    }
}

proof fn lemma_membership_well(e: ParsedExprView, scope: ScopeView, expected: Option<ScalarTypeView>)
    requires
        held(scope),
        e.kind is InList,
    ensures
        form_well(bound_form(e, scope, expected), scope),
    decreases e, 0int,
{
    if let ParsedExprKindView::InList { expr, list, .. } = e.kind {
        if let Ok(start) = type_of(*expr, scope) {
            let meeting = Meeting { label: "IN types "@, literal: scope is Table, left_unknown: unknown_text(*expr) };
            if let Ok(met) = meeting_type(list, scope, 0, start, meeting, e.position) {
                if let Ok(t) = membership_type(met, e.position) {
                    lemma_bound_well(*expr, scope, Some(t));
                    lemma_list_well(list, scope, Expectation::Each(Some(t)), 0, Seq::empty());
                }
            }
        }
    }
}

proof fn lemma_aggregate_well(e: ParsedExprView, scope: ScopeView, expected: Option<ScalarTypeView>)
    requires
        held(scope),
        e.kind is Aggregate,
    ensures
        form_well(bound_form(e, scope, expected), scope),
    decreases e, 0int,
{
    if let ParsedExprKindView::Aggregate { argument, filter, .. } = e.kind {
        let inner = scope.without_aggregates();
        if let Some(a) = argument {
            lemma_bound_well(*a, inner, None);
        }
        if let Some(f) = filter {
            lemma_bound_well(*f, inner, Some(ScalarTypeView::Boolean));
        }
        let a = bound_option(argument, inner, None);
        let f = bound_option(filter, inner, Some(ScalarTypeView::Boolean));
        assert(a matches Ok(Some(a)) ==> well_bound(a, inner));
        assert(f matches Ok(Some(f)) ==> well_bound(f, inner));
    }
}

/// An expression that is bound is [`well_bound`].
pub proof fn lemma_bound_well(e: ParsedExprView, scope: ScopeView, expected: Option<ScalarTypeView>)
    requires
        held(scope),
    ensures
        form_well(bound_form(e, scope, expected), scope),
    decreases e, 1int,
{
    match e.kind {
        ParsedExprKindView::Column(_) => lemma_column_well(e, scope, expected),
        ParsedExprKindView::Unary { .. } => lemma_unary_well(e, scope, expected),
        ParsedExprKindView::Cast { .. } => lemma_cast_well(e, scope, expected),
        ParsedExprKindView::Array { .. } => lemma_array_well(e, scope, expected),
        ParsedExprKindView::Function { .. } => lemma_function_well(e, scope, expected),
        ParsedExprKindView::Binary { .. } => lemma_binary_well(e, scope, expected),
        ParsedExprKindView::InList { .. } => lemma_membership_well(e, scope, expected),
        ParsedExprKindView::Aggregate { .. } => lemma_aggregate_well(e, scope, expected),
        _ => {},
    }
}

proof fn lemma_list_well(l: Seq<ParsedExprView>, scope: ScopeView, expected: Expectation, i: int, done: Seq<BoundExprView>)
    requires
        held(scope),
        0 <= i,
        forall|k: int| 0 <= k < done.len() ==> well_bound(#[trigger] done[k], scope),
    ensures
        list_well(bound_list(l, scope, expected, i, done), scope),
    decreases l, l.len() - i,
{
    if i >= l.len() {
        lemma_all_well_bound(done, scope, 0);
    } else {
        lemma_bound_well(l[i], scope, expected.at(i));
        match bound_form(l[i], scope, expected.at(i)) {
            Err(_) => {},
            Ok(b) => {
                let next = done.push(b);
                assert forall|k: int| 0 <= k < next.len() implies well_bound(#[trigger] next[k], scope) by {
                    if k < done.len() {
                        assert(next[k] == done[k]);
                    }
                }
                lemma_list_well(l, scope, expected, i + 1, next);
            },
        }
    }
}

/// Whether every output column of a query is [`well_bound`] and has the type of what it
/// shows.
pub open spec fn outputs_well(l: Seq<BoundProjectionView>, scope: ScopeView) -> bool {
    forall|k: int|
        0 <= k < l.len() ==> well_bound((#[trigger] l[k]).expr, scope) && l[k].field.data_type == l[k].expr.data_type && l[k].field.nullable
            == l[k].expr.nullable
}

proof fn lemma_with_table(table: TableDefinitionView, i: int, done: Seq<BoundProjectionView>)
    requires
        0 <= i,
        table.columns.len() <= usize::MAX,
        outputs_well(done, table_scope(Some(table))),
    ensures
        outputs_well(with_table(table.columns, i, done), table_scope(Some(table))),
    decreases table.columns.len() - i,
{
    if i < table.columns.len() {
        let c = table.columns[i];
        lemma_with_table(table, i + 1, done.push(slot_column(c.name, i as usize, c.data_type, c.nullable)));
    }
}

proof fn lemma_table_items(
    l: Seq<ParsedProjectionView>,
    table: TableDefinitionView,
    returning: bool,
    i: int,
    done: Seq<BoundProjectionView>,
)
    requires
        0 <= i,
        table.columns.len() <= usize::MAX,
        outputs_well(done, table_scope(Some(table))),
    ensures
        table_items(l, table, returning, i, done) matches Ok(p) ==> outputs_well(p, table_scope(Some(table))),
    decreases l.len() - i,
{
    if i < l.len() {
        match l[i] {
            ParsedProjectionView::Wildcard => {
                lemma_with_table(table, 0, done);
                lemma_table_items(l, table, returning, i + 1, with_table(table.columns, 0, done));
            },
            ParsedProjectionView::Expression { expr, alias } => {
                lemma_bound_well(expr, table_scope(Some(table)), None);
                if let Ok(b) = bound_form(expr, table_scope(Some(table)), None) {
                    lemma_table_items(l, table, returning, i + 1, done.push(output_column(expr, alias, b)));
                }
            },
        }
    }
}

/// A query over one table shows and tests only what its table supplies, and its test is
/// a boolean.
pub proof fn lemma_table_select_well(
    table: TableDefinitionView,
    projection: Seq<ParsedProjectionView>,
    filter: Option<ParsedExprView>,
    order_by: Seq<ParsedOrderView>,
    offset: Option<ParsedExprView>,
    limit: Option<ParsedExprView>,
)
    requires
        table.columns.len() <= usize::MAX,
    ensures
        table_select(table, projection, filter, order_by, offset, limit) matches Ok(s) ==> s is Select && outputs_well(
            s->Select_projection,
            table_scope(Some(table)),
        ) && (s->Select_filter matches Some(f) ==> well_bound(f, table_scope(Some(table))) && f.data_type is Boolean),
{
    reveal(table_select);
    lemma_table_items(projection, table, false, 0, Seq::empty());
    if let Some(f) = filter {
        lemma_bound_well(f, table_scope(Some(table)), Some(ScalarTypeView::Boolean));
    }
}

proof fn lemma_with_inputs(l: Seq<InputColumnView>, inputs: Seq<InputColumnView>, i: int, done: Seq<BoundProjectionView>)
    requires
        0 <= i,
        l.is_prefix_of(inputs),
        forall|k: int| 0 <= k < l.len() ==> (#[trigger] l[k]).outer_depth == 0,
        outputs_well(done, input_scope(inputs, true)),
    ensures
        outputs_well(with_inputs(l, i, done), input_scope(inputs, true)),
    decreases l.len() - i,
{
    if i < l.len() {
        assert(inputs[i] == l[i]);
        lemma_with_inputs(l, inputs, i + 1, done.push(slot_column(l[i].name, l[i].index, l[i].data_type, l[i].nullable)));
    }
}

proof fn lemma_select_items(
    l: Seq<ParsedProjectionView>,
    local: Seq<InputColumnView>,
    inputs: Seq<InputColumnView>,
    i: int,
    done: Seq<BoundProjectionView>,
)
    requires
        0 <= i,
        local.is_prefix_of(inputs),
        forall|k: int| 0 <= k < local.len() ==> (#[trigger] local[k]).outer_depth == 0,
        outputs_well(done, input_scope(inputs, true)),
    ensures
        select_items(l, local, inputs, i, done) matches Ok(p) ==> outputs_well(p, input_scope(inputs, true)),
    decreases l.len() - i,
{
    if i < l.len() {
        match l[i] {
            ParsedProjectionView::Wildcard => {
                lemma_with_inputs(local, inputs, 0, done);
                lemma_select_items(l, local, inputs, i + 1, with_inputs(local, 0, done));
            },
            ParsedProjectionView::Expression { expr, alias } => {
                lemma_bound_well(expr, input_scope(inputs, true), None);
                if let Ok(b) = bound_form(expr, input_scope(inputs, true), None) {
                    lemma_select_items(l, local, inputs, i + 1, done.push(output_column(expr, alias, b)));
                }
            },
        }
    }
}

/// The clauses of a query over joined relations show, test and group by only what the
/// relations and the enclosing queries supply; the tests are booleans.
pub proof fn lemma_clauses_well(
    c: ClausesView,
    distinct: bool,
    local: Seq<InputColumnView>,
    inputs: Seq<InputColumnView>,
    windows: Seq<BoundWindowView>,
)
    requires
        local.is_prefix_of(inputs),
        forall|k: int| 0 <= k < local.len() ==> (#[trigger] local[k]).outer_depth == 0,
    ensures
        clauses_of(c, distinct, local, inputs, windows) matches Ok(b) ==> {
            &&& outputs_well(b.projection, input_scope(inputs, true))
            &&& b.filter matches Some(f) ==> well_bound(f, input_scope(inputs, true)) && f.data_type is Boolean
            &&& all_well_bound(b.group_by, input_scope(inputs, false), 0)
            &&& b.having matches Some(h) ==> well_bound(h, input_scope(inputs, true)) && h.data_type is Boolean
        },
{
    reveal(clauses_of);
    reveal(conditions);
    lemma_select_items(c.projection, local, inputs, 0, Seq::empty());
    if let Some(f) = c.filter {
        lemma_bound_well(f, input_scope(inputs, true), Some(ScalarTypeView::Boolean));
    }
    lemma_list_well(c.group_by, input_scope(inputs, false), Expectation::Each(None), 0, Seq::empty());
    if let Some(h) = c.having {
        lemma_bound_well(h, input_scope(inputs, true), Some(ScalarTypeView::Boolean));
    }
}

/// The values of a row that is written are [`well_bound`].
pub proof fn lemma_row_well(
    row: Seq<ParsedExprView>,
    indexes: Seq<usize>,
    table: TableDefinitionView,
    scope: ScopeView,
    i: int,
    done: Seq<BoundExprView>,
)
    requires
        0 <= i,
        held(scope),
        forall|k: int| 0 <= k < done.len() ==> well_bound(#[trigger] done[k], scope),
    ensures
        list_well(row_values(row, indexes, table, scope, i, done), scope),
    decreases row.len() - i,
{
    if i >= row.len() {
        lemma_all_well_bound(done, scope, 0);
    } else {
        let t = Some(table.columns[indexes[i] as int].data_type);
        lemma_bound_well(row[i], scope, t);
        if let Ok(b) = bound_form(row[i], scope, t) {
            lemma_row_well(row, indexes, table, scope, i + 1, done.push(b));
        }
    }
}

/// Whether each value that is assigned is [`well_bound`].
pub open spec fn assigned_well(l: Seq<(usize, BoundExprView)>, scope: ScopeView) -> bool {
    forall|k: int| 0 <= k < l.len() ==> well_bound((#[trigger] l[k]).1, scope)
}

/// The values that an update assigns are [`well_bound`].
pub proof fn lemma_assignments_well(
    l: Seq<(ParsedIdentifierView, ParsedExprView)>,
    table: TableDefinitionView,
    scope: ScopeView,
    binding: Option<Seq<char>>,
    verb: Seq<char>,
    i: int,
    done: Seq<(usize, BoundExprView)>,
)
    requires
        0 <= i,
        held(scope),
        assigned_well(done, scope),
    ensures
        assignments_of(l, table, scope, binding, verb, i, done) matches Ok(a) ==> assigned_well(a, scope),
    decreases l.len() - i,
{
    if i < l.len() {
        if let Some(k) = find_column_index(table.columns, l[i].0.name, 0) {
            let e = match binding {
                Some(b) => qualified(l[i].1, b),
                None => l[i].1,
            };
            let t = Some(table.columns[k as int].data_type);
            lemma_bound_well(e, scope, t);
            if let Ok(b) = bound_form(e, scope, t) {
                lemma_assignments_well(l, table, scope, binding, verb, i + 1, done.push((k, b)));
            }
        }
    }
}

} // verus!
