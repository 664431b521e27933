//! What a bound statement keeps of the statement that was written.

use vstd::prelude::*;

use crate::binding::{bound_form, bound_list, bound_some, input_scope, predicate_some, table_scope, Expectation};
use crate::bound::{
    BoundExprKindView, BoundExprView, BoundJoinView, BoundMergeClauseView, BoundOnConflictView, BoundOrderView, BoundProjectionView,
    BoundReturningView, BoundStatementView,
};
use crate::catalog::{find_column_index, lemma_column_index, CatalogView, ColumnDefinitionView, TableDefinitionView};
use crate::dml::{assignments_of, insert_rows, named_columns, row_values, target_columns};
use crate::laws_expr::{lemma_bound_mirrors, mirrors};
use crate::laws_steps::{
    lemma_applied_clause, lemma_items_through, lemma_lists_kept, lemma_orders_through, lemma_resembles_itself, lemma_resembles_through,
};
use crate::laws_typing::{all_resemble, clause_resembles, item_resembles, items_resemble, lemma_each_resembles, orders_resemble, resembles};
use crate::queries::{set_of, set_orders, simple_orders, table_select};
use crate::query_rules::{
    advanced_of, applied_clauses, applied_front, join_condition, joined, unfold_advanced_of, unfold_applied_clauses, SelectPartsView,
};
use crate::scope::{InputColumnView, ScopeView};
use crate::select_list::{
    clause_order, clause_orders, clauses_of, conditions, final_items, final_orders, output_column, select_items, slot_column, table_items,
    tail_of, window_items, window_orders, with_inputs, with_table, ClausesView,
};
use crate::soundness::held;
use crate::syntax::{
    ParsedConflictActionView, ParsedExprView, ParsedIdentifierView, ParsedJoinView, ParsedMergeActionView, ParsedMergeClauseView,
    ParsedOnConflictView, ParsedOrderView, ParsedProjectionView,
};
use crate::types::ScalarTypeView;

verus! {

/// Whether a bound expression is the one that was written: the same operators,
/// functions and constants in the same places, over the columns that its names denote.
/// Parameters may have got types, session calls may have become constants, and
/// subqueries and window functions stand for their values.
pub open spec fn told(e: ParsedExprView, scope: ScopeView, b: BoundExprView) -> bool {
    held(scope) ==> exists|t: ParsedExprView| #[trigger] resembles(e, t) && mirrors(t, scope, b)
}

/// Whether a clause is there exactly where it was written, and is the one that was.
pub open spec fn told_if_any(e: Option<ParsedExprView>, scope: ScopeView, b: Option<BoundExprView>) -> bool {
    &&& e is Some <==> b is Some
    &&& e is Some ==> told(e->0, scope, b->0)
}

/// The same of a condition, which is a boolean.
pub open spec fn test_told(e: Option<ParsedExprView>, scope: ScopeView, b: Option<BoundExprView>) -> bool {
    told_if_any(e, scope, b) && (b is Some ==> b->0.data_type is Boolean)
}

/// Whether bound expressions are those of a list, in order.
pub open spec fn all_told(l: Seq<ParsedExprView>, scope: ScopeView, r: Seq<BoundExprView>) -> bool {
    &&& l.len() == r.len()
    &&& forall|k: int| 0 <= k < l.len() ==> told(#[trigger] l[k], scope, r[k])
}

/// Whether sort keys are as many as were written, each with the direction and the place
/// of nulls that were.
pub open spec fn orders_told(l: Seq<ParsedOrderView>, r: Seq<BoundOrderView>) -> bool {
    &&& l.len() == r.len()
    &&& forall|k: int| 0 <= k < l.len() ==> r[k].ascending == (#[trigger] l[k]).ascending && r[k].nulls_first == l[k].nulls_first
}

/// Whether an output column shows a column by its name and its place.
pub open spec fn shows(p: BoundProjectionView, name: Seq<char>, index: usize) -> bool {
    p.field.name == name && p.expr.kind == (BoundExprKindView::Column { index })
}

/// Whether output columns from a place on are those of the items of a select list from
/// one of them on: a star is every column in order, any other item is what was written
/// under its name.
pub open spec fn outputs_told(
    l: Seq<ParsedProjectionView>,
    scope: ScopeView,
    star: Seq<(Seq<char>, usize)>,
    r: Seq<BoundProjectionView>,
    i: int,
    at: int,
) -> bool
    decreases l.len() - i,
{
    if i < 0 || i >= l.len() {
        at == r.len()
    } else {
        match l[i] {
            ParsedProjectionView::Wildcard => {
                &&& at + star.len() <= r.len()
                &&& forall|k: int| 0 <= k < star.len() ==> shows(r[at + k], (#[trigger] star[k]).0, star[k].1)
                &&& outputs_told(l, scope, star, r, i + 1, at + star.len())
            },
            ParsedProjectionView::Expression { expr, alias } => {
                &&& at < r.len()
                &&& told(expr, scope, r[at].expr)
                &&& alias is Some ==> r[at].field.name == alias->0.name
                &&& r[at].field.data_type == r[at].expr.data_type
                &&& outputs_told(l, scope, star, r, i + 1, at + 1)
            },
        }
    }
}

/// The columns that a star stands for in a table.
pub open spec fn table_star(t: TableDefinitionView) -> Seq<(Seq<char>, usize)> {
    Seq::new(t.columns.len(), |k: int| (t.columns[k].name, k as usize))
}

/// The columns that a star stands for in a FROM clause.
pub open spec fn input_star(l: Seq<InputColumnView>) -> Seq<(Seq<char>, usize)> {
    Seq::new(l.len(), |k: int| (l[k].name, l[k].index))
}

/// Whether a RETURNING clause is there exactly where it was written, and returns what was
/// written of the changed row.
pub open spec fn returning_told(l: Seq<ParsedProjectionView>, t: TableDefinitionView, r: Option<BoundReturningView>) -> bool {
    &&& l.len() > 0 <==> r is Some
    &&& r is Some ==> outputs_told(l, table_scope(Some(t)), table_star(t), r->0.projection, 0, 0)
}

/// Whether values are assigned to the columns that were named, each the value that was
/// written for it.
pub open spec fn assignments_told(
    l: Seq<(ParsedIdentifierView, ParsedExprView)>,
    t: TableDefinitionView,
    scope: ScopeView,
    r: Seq<(usize, BoundExprView)>,
) -> bool {
    &&& l.len() == r.len()
    &&& forall|k: int|
        0 <= k < l.len() ==> told((#[trigger] l[k]).1, scope, r[k].1) && (t.columns.len() <= usize::MAX ==> r[k].0 < t.columns.len()
            && t.columns[r[k].0 as int].name == l[k].0.name)
}

/// Whether places of columns are those that were named, or all in order where none was.
pub open spec fn columns_told(l: Seq<ParsedIdentifierView>, t: TableDefinitionView, r: Seq<usize>) -> bool {
    if l.len() == 0 {
        r.len() == t.columns.len() && forall|k: int| 0 <= k < r.len() ==> #[trigger] r[k] == k as usize
    } else {
        &&& r.len() == l.len()
        &&& t.columns.len() <= usize::MAX ==> forall|k: int|
            0 <= k < r.len() ==> (#[trigger] r[k]) < t.columns.len() && t.columns[r[k] as int].name == l[k].name
    }
}

/// Whether rows are those that were written, in order.
pub open spec fn rows_told(l: Seq<Seq<ParsedExprView>>, r: Seq<Seq<BoundExprView>>) -> bool {
    &&& l.len() == r.len()
    &&& forall|k: int| 0 <= k < l.len() ==> all_told(#[trigger] l[k], table_scope(None), r[k])
}

/// Whether an ON CONFLICT clause is there exactly where it was written, with the action
/// that was written.
pub open spec fn conflict_told(c: Option<ParsedOnConflictView>, t: TableDefinitionView, r: Option<BoundOnConflictView>) -> bool {
    &&& c is Some <==> r is Some
    &&& c is Some ==> {
        &&& c->0.target is Some <==> r->0.target_columns is Some
        &&& match c->0.action {
            ParsedConflictActionView::DoNothing => r->0.action is DoNothing,
            ParsedConflictActionView::DoUpdate { assignments, filter } => {
                &&& r->0.action is DoUpdate
                &&& r->0.action->DoUpdate_assignments.len() == assignments.len()
                &&& t.columns.len() <= usize::MAX ==> forall|k: int|
                    0 <= k < assignments.len() ==> r->0.action->DoUpdate_assignments[k].0 < t.columns.len()
                        && t.columns[r->0.action->DoUpdate_assignments[k].0 as int].name == (#[trigger] assignments[k]).0.name
                &&& filter is Some <==> r->0.action->DoUpdate_filter is Some
                &&& filter is Some ==> r->0.action->DoUpdate_filter->0.data_type is Boolean
            },
        }
    }
}

/// Whether a clause of a MERGE applies when it was written to apply, and does what was
/// written.
pub open spec fn merge_clause_told(
    c: ParsedMergeClauseView,
    t: TableDefinitionView,
    inputs: Seq<InputColumnView>,
    r: BoundMergeClauseView,
) -> bool {
    &&& c.kind is Matched <==> r.kind is Matched
    &&& c.kind is NotMatchedByTarget <==> r.kind is NotMatchedByTarget
    &&& c.kind is NotMatchedBySource <==> r.kind is NotMatchedBySource
    &&& test_told(c.predicate, input_scope(inputs, false), r.predicate)
    &&& match c.action {
        ParsedMergeActionView::Update { assignments } => r.action is Update && assignments_told(
            assignments,
            t,
            input_scope(inputs, false),
            r.action->Update_assignments,
        ),
        ParsedMergeActionView::Delete => r.action is Delete,
        ParsedMergeActionView::Insert { columns, values } => r.action is Insert && columns_told(
            columns,
            t,
            r.action->Insert_column_indexes,
        ) && all_told(values, input_scope(inputs, false), r.action->Insert_values),
        ParsedMergeActionView::DoNothing => r.action is DoNothing,
    }
}

/// Whether joins are those that were written, of the same kinds and with the same
/// conditions.
pub open spec fn joins_told(l: Seq<ParsedJoinView>, r: Seq<BoundJoinView>) -> bool {
    &&& l.len() == r.len()
    &&& forall|k: int|
        0 <= k < l.len() ==> r[k].kind == (#[trigger] l[k]).kind && r[k].on.data_type is Boolean && join_told(l[k].on, r[k].on)
}

/// Whether the condition of a join is the one that was written, over some columns.
pub open spec fn join_told(e: ParsedExprView, b: BoundExprView) -> bool {
    exists|inputs: Seq<InputColumnView>| told(e, #[trigger] input_scope(inputs, true), b)
}

pub(crate) proof fn lemma_told_form(e: ParsedExprView, scope: ScopeView, expected: Option<ScalarTypeView>)
    ensures
        bound_form(e, scope, expected) matches Ok(b) ==> told(e, scope, b),
{
    if held(scope) {
        lemma_bound_mirrors(e, scope, expected);
        lemma_resembles_itself(e);
    }
}

pub(crate) proof fn lemma_told_through(e: ParsedExprView, t: ParsedExprView, scope: ScopeView, b: BoundExprView)
    requires
        resembles(e, t),
        told(t, scope, b),
    ensures
        told(e, scope, b),
{
    if held(scope) {
        let u = choose|u: ParsedExprView| #[trigger] resembles(t, u) && mirrors(u, scope, b);
        lemma_resembles_through(e, t, u);
    }
}

pub(crate) proof fn lemma_told_if_through(e: Option<ParsedExprView>, t: Option<ParsedExprView>, scope: ScopeView, b: Option<BoundExprView>)
    requires
        clause_resembles(e, t),
        told_if_any(t, scope, b),
    ensures
        told_if_any(e, scope, b),
{
    if e is Some {
        lemma_told_through(e->0, t->0, scope, b->0);
    }
}

pub(crate) proof fn lemma_all_told_through(l: Seq<ParsedExprView>, t: Seq<ParsedExprView>, scope: ScopeView, r: Seq<BoundExprView>)
    requires
        all_resemble(l, t, 0),
        all_told(t, scope, r),
    ensures
        all_told(l, scope, r),
{
    lemma_each_resembles(l, t, 0);
    assert forall|k: int| 0 <= k < l.len() implies told(#[trigger] l[k], scope, r[k]) by {
        assert(told(t[k], scope, r[k]));
        lemma_told_through(l[k], t[k], scope, r[k]);
    }
}

pub(crate) proof fn lemma_test(e: Option<ParsedExprView>, scope: ScopeView)
    ensures
        predicate_some(e, scope) matches Ok(b) ==> test_told(e, scope, b),
{
    if let Some(e) = e {
        lemma_told_form(e, scope, Some(ScalarTypeView::Boolean));
    }
}

proof fn lemma_page(e: Option<ParsedExprView>, scope: ScopeView)
    ensures
        bound_some(e, scope, Some(ScalarTypeView::Int64)) matches Ok(b) ==> told_if_any(e, scope, b),
{
    if let Some(e) = e {
        lemma_told_form(e, scope, Some(ScalarTypeView::Int64));
    }
}

pub(crate) proof fn lemma_list(l: Seq<ParsedExprView>, scope: ScopeView, expected: Expectation, i: int, done: Seq<BoundExprView>)
    requires
        0 <= i <= l.len(),
        all_told(l.take(i), scope, done),
    ensures
        bound_list(l, scope, expected, i, done) matches Ok(r) ==> all_told(l, scope, r),
    decreases l.len() - i,
{
    if i >= l.len() {
        assert(l.take(i) =~= l);
    } else {
        lemma_told_form(l[i], scope, expected.at(i));
        if let Ok(b) = bound_form(l[i], scope, expected.at(i)) {
            let next = done.push(b);
            let prefix = l.take(i + 1);
            assert forall|k: int| 0 <= k < prefix.len() implies told(#[trigger] prefix[k], scope, next[k]) by {
                if k < i {
                    assert(prefix[k] == l.take(i)[k]);
                    assert(next[k] == done[k]);
                }
            }
            lemma_list(l, scope, expected, i + 1, next);
        }
    }
}

pub(crate) proof fn lemma_row(
    l: Seq<ParsedExprView>,
    indexes: Seq<usize>,
    t: TableDefinitionView,
    scope: ScopeView,
    i: int,
    done: Seq<BoundExprView>,
)
    requires
        0 <= i <= l.len(),
        all_told(l.take(i), scope, done),
    ensures
        row_values(l, indexes, t, scope, i, done) matches Ok(r) ==> all_told(l, scope, r),
    decreases l.len() - i,
{
    if i >= l.len() {
        assert(l.take(i) =~= l);
    } else {
        let expected = Some(t.columns[indexes[i] as int].data_type);
        lemma_told_form(l[i], scope, expected);
        if let Ok(b) = bound_form(l[i], scope, expected) {
            let next = done.push(b);
            let prefix = l.take(i + 1);
            assert forall|k: int| 0 <= k < prefix.len() implies told(#[trigger] prefix[k], scope, next[k]) by {
                if k < i {
                    assert(prefix[k] == l.take(i)[k]);
                    assert(next[k] == done[k]);
                }
            }
            lemma_row(l, indexes, t, scope, i + 1, next);
        }
    }
}

pub(crate) proof fn lemma_rows(
    l: Seq<Seq<ParsedExprView>>,
    indexes: Seq<usize>,
    t: TableDefinitionView,
    i: int,
    done: Seq<Seq<BoundExprView>>,
)
    requires
        0 <= i <= l.len(),
        rows_told(l.take(i), done),
    ensures
        insert_rows(l, indexes, t, i, done) matches Ok(r) ==> rows_told(l, r),
    decreases l.len() - i,
{
    if i >= l.len() {
        assert(l.take(i) =~= l);
    } else {
        assert(l[i].take(0) =~= Seq::empty());
        lemma_row(l[i], indexes, t, table_scope(None), 0, Seq::empty());
        if let Ok(b) = row_values(l[i], indexes, t, table_scope(None), 0, Seq::empty()) {
            let next = done.push(b);
            let prefix = l.take(i + 1);
            assert forall|k: int| 0 <= k < prefix.len() implies all_told(#[trigger] prefix[k], table_scope(None), next[k]) by {
                if k < i {
                    assert(prefix[k] == l.take(i)[k]);
                    assert(next[k] == done[k]);
                }
            }
            lemma_rows(l, indexes, t, i + 1, next);
        }
    }
}

proof fn lemma_columns(l: Seq<ParsedIdentifierView>, t: TableDefinitionView, i: int, done: Seq<usize>)
    requires
        0 <= i <= l.len(),
        done.len() == i,
        t.columns.len() <= usize::MAX ==> forall|k: int|
            0 <= k < i ==> (#[trigger] done[k]) < t.columns.len() && t.columns[done[k] as int].name == l[k].name,
    ensures
        named_columns(l, t, i, done) matches Ok(r) ==> r.len() == l.len() && (t.columns.len() <= usize::MAX ==> forall|k: int|
            0 <= k < r.len() ==> (#[trigger] r[k]) < t.columns.len() && t.columns[r[k] as int].name == l[k].name),
    decreases l.len() - i,
{
    if i < l.len() {
        if t.columns.len() <= usize::MAX {
            lemma_column_index(t.columns, l[i].name, 0);
        }
        if let Some(k) = find_column_index(t.columns, l[i].name, 0) {
            lemma_columns(l, t, i + 1, done.push(k));
        }
    }
}

/// The columns that an INSERT fills are those that it names, in their order, or all
/// columns of the table in their order where it names none.
pub proof fn lemma_columns_told(l: Seq<ParsedIdentifierView>, t: TableDefinitionView)
    ensures
        target_columns(l, t) matches Ok(r) ==> columns_told(l, t, r),
{
    if l.len() > 0 {
        lemma_columns(l, t, 0, Seq::empty());
    }
}

/// Whether values are assigned to the columns that were named.
pub open spec fn assigned_columns(
    l: Seq<(ParsedIdentifierView, ParsedExprView)>,
    t: TableDefinitionView,
    r: Seq<(usize, BoundExprView)>,
) -> bool {
    &&& l.len() == r.len()
    &&& t.columns.len() <= usize::MAX ==> forall|k: int|
        0 <= k < l.len() ==> r[k].0 < t.columns.len() && t.columns[r[k].0 as int].name == (#[trigger] l[k]).0.name
}

pub(crate) proof fn lemma_assigned(
    l: Seq<(ParsedIdentifierView, ParsedExprView)>,
    t: TableDefinitionView,
    scope: ScopeView,
    binding: Option<Seq<char>>,
    verb: Seq<char>,
    i: int,
    done: Seq<(usize, BoundExprView)>,
)
    requires
        0 <= i <= l.len(),
        done.len() == i,
        t.columns.len() <= usize::MAX ==> forall|k: int|
            0 <= k < i ==> done[k].0 < t.columns.len() && t.columns[done[k].0 as int].name == (#[trigger] l[k]).0.name,
        binding is None ==> forall|k: int| 0 <= k < i ==> told((#[trigger] l[k]).1, scope, done[k].1),
    ensures
        assignments_of(l, t, scope, binding, verb, i, done) matches Ok(r) ==> assigned_columns(l, t, r) && (binding is None
            ==> assignments_told(l, t, scope, r)),
    decreases l.len() - i,
{
    if i < l.len() {
        if t.columns.len() <= usize::MAX {
            lemma_column_index(t.columns, l[i].0.name, 0);
        }
        if let Some(k) = find_column_index(t.columns, l[i].0.name, 0) {
            let e = match binding {
                Some(b) => crate::dml::qualified(l[i].1, b),
                None => l[i].1,
            };
            let expected = Some(t.columns[k as int].data_type);
            lemma_told_form(e, scope, expected);
            if let Ok(b) = bound_form(e, scope, expected) {
                let next = done.push((k, b));
                assert forall|j: int| 0 <= j < i + 1 && t.columns.len() <= usize::MAX implies next[j].0 < t.columns.len()
                    && t.columns[next[j].0 as int].name == (#[trigger] l[j]).0.name by {
                    if j < i {
                        assert(next[j] == done[j]);
                    }
                }
                assert forall|j: int| 0 <= j < i + 1 && binding is None implies told((#[trigger] l[j]).1, scope, next[j].1) by {
                    if j < i {
                        assert(next[j] == done[j]);
                    }
                }
                lemma_assigned(l, t, scope, binding, verb, i + 1, next);
            }
        }
    }
}

/// Each value that an UPDATE assigns is the one that was written for its column.
pub proof fn lemma_assignments_told(
    l: Seq<(ParsedIdentifierView, ParsedExprView)>,
    t: TableDefinitionView,
    scope: ScopeView,
    verb: Seq<char>,
)
    ensures
        assignments_of(l, t, scope, None, verb, 0, Seq::empty()) matches Ok(r) ==> assignments_told(l, t, scope, r),
{
    lemma_assigned(l, t, scope, None, verb, 0, Seq::empty());
}

pub(crate) proof fn lemma_table_star(l: Seq<ColumnDefinitionView>, i: int, done: Seq<BoundProjectionView>)
    requires
        0 <= i <= l.len(),
    ensures
        with_table(l, i, done).len() == done.len() + l.len() - i,
        done.is_prefix_of(with_table(l, i, done)),
        forall|k: int| i <= k < l.len() ==> shows(with_table(l, i, done)[done.len() + k - i], (#[trigger] l[k]).name, k as usize),
    decreases l.len() - i,
{
    if i < l.len() {
        let p = slot_column(l[i].name, i as usize, l[i].data_type, l[i].nullable);
        lemma_table_star(l, i + 1, done.push(p));
        let r = with_table(l, i, done);
        assert(r[done.len() as int] == done.push(p)[done.len() as int]);
        assert forall|k: int| 0 <= k < done.len() implies r[k] == done[k] by {
            assert(r[k] == done.push(p)[k]);
        }
        assert(r.take(done.len() as int) =~= done);
    }
}

proof fn lemma_input_star(l: Seq<InputColumnView>, i: int, done: Seq<BoundProjectionView>)
    requires
        0 <= i <= l.len(),
    ensures
        with_inputs(l, i, done).len() == done.len() + l.len() - i,
        done.is_prefix_of(with_inputs(l, i, done)),
        forall|k: int| i <= k < l.len() ==> shows(with_inputs(l, i, done)[done.len() + k - i], (#[trigger] l[k]).name, l[k].index),
    decreases l.len() - i,
{
    if i < l.len() {
        let p = slot_column(l[i].name, l[i].index, l[i].data_type, l[i].nullable);
        lemma_input_star(l, i + 1, done.push(p));
        let r = with_inputs(l, i, done);
        assert(r[done.len() as int] == done.push(p)[done.len() as int]);
        assert forall|k: int| 0 <= k < done.len() implies r[k] == done[k] by {
            assert(r[k] == done.push(p)[k]);
        }
        assert(r.take(done.len() as int) =~= done);
    }
}

pub(crate) proof fn lemma_table_outputs(
    l: Seq<ParsedProjectionView>,
    t: TableDefinitionView,
    returning: bool,
    i: int,
    done: Seq<BoundProjectionView>,
)
    requires
        0 <= i <= l.len(),
    ensures
        table_items(l, t, returning, i, done) matches Ok(r) ==> done.is_prefix_of(r) && outputs_told(
            l,
            table_scope(Some(t)),
            table_star(t),
            r,
            i,
            done.len() as int,
        ),
    decreases l.len() - i,
{
    if i < l.len() {
        let star = table_star(t);
        match l[i] {
            ParsedProjectionView::Wildcard => {
                let next = with_table(t.columns, 0, done);
                lemma_table_star(t.columns, 0, done);
                lemma_table_outputs(l, t, returning, i + 1, next);
                if let Ok(r) = table_items(l, t, returning, i, done) {
                    assert forall|k: int| 0 <= k < star.len() implies shows(r[done.len() + k], (#[trigger] star[k]).0, star[k].1) by {
                        assert(shows(next[done.len() + k], t.columns[k].name, k as usize));
                        assert(r[done.len() + k] == next[done.len() + k]);
                    }
                    assert(r.take(done.len() as int) =~= done);
                }
            },
            ParsedProjectionView::Expression { expr, alias } => {
                lemma_told_form(expr, table_scope(Some(t)), None);
                if let Ok(b) = bound_form(expr, table_scope(Some(t)), None) {
                    let next = done.push(output_column(expr, alias, b));
                    lemma_table_outputs(l, t, returning, i + 1, next);
                    if let Ok(r) = table_items(l, t, returning, i, done) {
                        assert(r[done.len() as int] == next[done.len() as int]);
                        assert(r.take(done.len() as int) =~= done);
                    }
                }
            },
        }
    }
}

proof fn lemma_input_outputs(
    l: Seq<ParsedProjectionView>,
    local: Seq<InputColumnView>,
    inputs: Seq<InputColumnView>,
    i: int,
    done: Seq<BoundProjectionView>,
)
    requires
        0 <= i <= l.len(),
    ensures
        select_items(l, local, inputs, i, done) matches Ok(r) ==> done.is_prefix_of(r) && outputs_told(
            l,
            input_scope(inputs, true),
            input_star(local),
            r,
            i,
            done.len() as int,
        ),
    decreases l.len() - i,
{
    if i < l.len() {
        let star = input_star(local);
        match l[i] {
            ParsedProjectionView::Wildcard => {
                let next = with_inputs(local, 0, done);
                lemma_input_star(local, 0, done);
                lemma_input_outputs(l, local, inputs, i + 1, next);
                if let Ok(r) = select_items(l, local, inputs, i, done) {
                    assert forall|k: int| 0 <= k < star.len() implies shows(r[done.len() + k], (#[trigger] star[k]).0, star[k].1) by {
                        assert(shows(next[done.len() + k], local[k].name, local[k].index));
                        assert(r[done.len() + k] == next[done.len() + k]);
                    }
                    assert(r.take(done.len() as int) =~= done);
                }
            },
            ParsedProjectionView::Expression { expr, alias } => {
                lemma_told_form(expr, input_scope(inputs, true), None);
                if let Ok(b) = bound_form(expr, input_scope(inputs, true), None) {
                    let next = done.push(output_column(expr, alias, b));
                    lemma_input_outputs(l, local, inputs, i + 1, next);
                    if let Ok(r) = select_items(l, local, inputs, i, done) {
                        assert(r[done.len() as int] == next[done.len() as int]);
                        assert(r.take(done.len() as int) =~= done);
                    }
                }
            },
        }
    }
}

pub(crate) proof fn lemma_outputs_through(
    l: Seq<ParsedProjectionView>,
    t: Seq<ParsedProjectionView>,
    scope: ScopeView,
    star: Seq<(Seq<char>, usize)>,
    r: Seq<BoundProjectionView>,
    i: int,
    at: int,
)
    requires
        items_resemble(l, t),
        outputs_told(t, scope, star, r, i, at),
    ensures
        outputs_told(l, scope, star, r, i, at),
    decreases l.len() - i,
{
    if 0 <= i < l.len() {
        assert(item_resembles(l[i], t[i]));
        match l[i] {
            ParsedProjectionView::Wildcard => lemma_outputs_through(l, t, scope, star, r, i + 1, at + star.len()),
            ParsedProjectionView::Expression { expr, .. } => {
                lemma_told_through(expr, t[i]->Expression_expr, scope, r[at].expr);
                lemma_outputs_through(l, t, scope, star, r, i + 1, at + 1);
            },
        }
    }
}

proof fn lemma_simple_orders(
    l: Seq<ParsedOrderView>,
    projection: Seq<BoundProjectionView>,
    t: TableDefinitionView,
    i: int,
    done: Seq<BoundOrderView>,
)
    requires
        0 <= i <= l.len(),
        orders_told(l.take(i), done),
    ensures
        simple_orders(l, projection, t, i, done) matches Ok(r) ==> orders_told(l, r),
    decreases l.len() - i,
{
    if i >= l.len() {
        assert(l.take(i) =~= l);
    } else if let Ok(b) = crate::ordering::simple_order(l[i], projection, t) {
        lemma_next_order(l, i, done, b);
        lemma_simple_orders(l, projection, t, i + 1, done.push(b));
    }
}

pub(crate) proof fn lemma_next_order(l: Seq<ParsedOrderView>, i: int, done: Seq<BoundOrderView>, b: BoundOrderView)
    requires
        0 <= i < l.len(),
        orders_told(l.take(i), done),
        b.ascending == l[i].ascending,
        b.nulls_first == l[i].nulls_first,
    ensures
        orders_told(l.take(i + 1), done.push(b)),
{
    let prefix = l.take(i + 1);
    let next = done.push(b);
    assert forall|k: int| 0 <= k < prefix.len() implies next[k].ascending == (#[trigger] prefix[k]).ascending && next[k].nulls_first
        == prefix[k].nulls_first by {
        if k < i {
            assert(prefix[k] == l.take(i)[k]);
            assert(next[k] == done[k]);
        }
    }
}

proof fn lemma_clause_orders(
    l: Seq<ParsedOrderView>,
    aggregate: bool,
    distinct: bool,
    projection: Seq<BoundProjectionView>,
    inputs: Seq<InputColumnView>,
    group: Seq<BoundExprView>,
    i: int,
    done: Seq<BoundOrderView>,
)
    requires
        0 <= i <= l.len(),
        orders_told(l.take(i), done),
    ensures
        clause_orders(l, aggregate, distinct, projection, inputs, group, i, done) matches Ok(r) ==> orders_told(l, r),
    decreases l.len() - i,
{
    if i >= l.len() {
        assert(l.take(i) =~= l);
    } else if let Ok(b) = clause_order(l[i], aggregate, distinct, projection, inputs, group) {
        lemma_next_order(l, i, done, b);
        lemma_clause_orders(l, aggregate, distinct, projection, inputs, group, i + 1, done.push(b));
    }
}

proof fn lemma_set_orders(l: Seq<ParsedOrderView>, schema: crate::types::SchemaView, i: int, done: Seq<BoundOrderView>)
    requires
        0 <= i <= l.len(),
        orders_told(l.take(i), done),
    ensures
        set_orders(l, schema, i, done) matches Ok(r) ==> orders_told(l, r),
    decreases l.len() - i,
{
    if i >= l.len() {
        assert(l.take(i) =~= l);
    } else if let Ok(b) = crate::ordering::set_order(l[i], schema) {
        lemma_next_order(l, i, done, b);
        lemma_set_orders(l, schema, i + 1, done.push(b));
    }
}

pub(crate) proof fn lemma_orders_told_through(l: Seq<ParsedOrderView>, t: Seq<ParsedOrderView>, r: Seq<BoundOrderView>)
    requires
        orders_resemble(l, t),
        orders_told(t, r),
    ensures
        orders_told(l, r),
{
    assert forall|k: int| 0 <= k < l.len() implies r[k].ascending == (#[trigger] l[k]).ascending && r[k].nulls_first == l[k].nulls_first by {
        assert(t[k].ascending == l[k].ascending);
        assert(r[k].ascending == t[k].ascending);
    }
}

/// Whether a bound query over one table has the clauses that were written.
pub open spec fn table_query_told(
    t: TableDefinitionView,
    projection: Seq<ParsedProjectionView>,
    filter: Option<ParsedExprView>,
    order_by: Seq<ParsedOrderView>,
    offset: Option<ParsedExprView>,
    limit: Option<ParsedExprView>,
    b: BoundStatementView,
) -> bool {
    let scope = table_scope(Some(t));
    &&& b is Select
    &&& b->Select_table_id == t.id
    &&& outputs_told(projection, scope, table_star(t), b->Select_projection, 0, 0)
    &&& test_told(filter, scope, b->Select_filter)
    &&& orders_told(order_by, b->Select_order_by)
    &&& told_if_any(offset, scope, b->Select_offset)
    &&& told_if_any(limit, scope, b->Select_limit)
}

/// A query over one table keeps its select list, its WHERE, its sort keys with their
/// directions, its OFFSET and its LIMIT.
pub proof fn lemma_table_query_told(
    t: TableDefinitionView,
    projection: Seq<ParsedProjectionView>,
    filter: Option<ParsedExprView>,
    order_by: Seq<ParsedOrderView>,
    offset: Option<ParsedExprView>,
    limit: Option<ParsedExprView>,
)
    ensures
        table_select(t, projection, filter, order_by, offset, limit) matches Ok(b) ==> table_query_told(
            t,
            projection,
            filter,
            order_by,
            offset,
            limit,
            b,
        ),
{
    reveal(table_select);
    let scope = table_scope(Some(t));
    lemma_table_outputs(projection, t, false, 0, Seq::empty());
    lemma_test(filter, scope);
    lemma_page(offset, scope);
    lemma_page(limit, scope);
    if let Ok(p) = table_items(projection, t, false, 0, Seq::empty()) {
        assert(order_by.take(0) =~= Seq::empty());
        lemma_simple_orders(order_by, p, t, 0, Seq::empty());
    }
}

/// Whether a bound set operation has the operator, the ALL and the clauses that were
/// written.
pub open spec fn set_query_told(
    operator: crate::syntax::QuerySetOperator,
    all: bool,
    order_by: Seq<ParsedOrderView>,
    offset: Option<ParsedExprView>,
    limit: Option<ParsedExprView>,
    b: BoundStatementView,
) -> bool {
    let scope = table_scope(None);
    &&& b is SetOperation
    &&& b->SetOperation_operator == operator
    &&& b->SetOperation_all == all
    &&& orders_told(order_by, b->SetOperation_order_by)
    &&& told_if_any(offset, scope, b->SetOperation_offset)
    &&& told_if_any(limit, scope, b->SetOperation_limit)
}

/// A set operation keeps its operator, its ALL, its operands in their order, its sort
/// keys with their directions, its OFFSET and its LIMIT.
pub proof fn lemma_set_query_told(
    left: BoundStatementView,
    operator: crate::syntax::QuerySetOperator,
    all: bool,
    right: BoundStatementView,
    order_by: Seq<ParsedOrderView>,
    offset: Option<ParsedExprView>,
    limit: Option<ParsedExprView>,
)
    ensures
        set_of(left, operator, all, right, order_by, offset, limit) matches Ok(b) ==> set_query_told(
            operator,
            all,
            order_by,
            offset,
            limit,
            b,
        ) && *b->SetOperation_left == left && *b->SetOperation_right == right,
{
    reveal(set_of);
    lemma_page(offset, table_scope(None));
    lemma_page(limit, table_scope(None));
    if let Ok(schema) = crate::queries::set_schema(left, right, operator, all) {
        assert(order_by.take(0) =~= Seq::empty());
        lemma_set_orders(order_by, schema, 0, Seq::empty());
    }
}

/// Whether a bound query over a FROM clause has the clauses that were written, over
/// the columns of its relations and of enclosing queries.
pub open spec fn joined_query_told(
    p: SelectPartsView,
    local: Seq<InputColumnView>,
    inputs: Seq<InputColumnView>,
    b: BoundStatementView,
) -> bool {
    let all = input_scope(inputs, true);
    let plain = input_scope(inputs, false);
    &&& b is AdvancedSelect
    &&& b->AdvancedSelect_distinct == p.distinct
    &&& joins_told(p.joins, b->AdvancedSelect_joins)
    &&& outputs_told(p.projection, all, input_star(local), b->AdvancedSelect_projection, 0, 0)
    &&& test_told(p.filter, all, b->AdvancedSelect_filter)
    &&& all_told(p.group_by, plain, b->AdvancedSelect_group_by)
    &&& test_told(p.having, all, b->AdvancedSelect_having)
    &&& orders_told(p.order_by, b->AdvancedSelect_order_by)
    &&& told_if_any(p.offset, plain, b->AdvancedSelect_offset)
    &&& p.limit is Some <==> b->AdvancedSelect_limit is Some
    &&& p.limit is Some ==> told(p.limit->0, plain, *b->AdvancedSelect_limit->0)
}

proof fn lemma_joins(
    l: Seq<ParsedJoinView>,
    catalog: CatalogView,
    depth: usize,
    outer: Seq<InputColumnView>,
    i: int,
    done: Seq<BoundJoinView>,
    local: Seq<InputColumnView>,
)
    requires
        0 <= i <= l.len(),
        joins_told(l.take(i), done),
    ensures
        joined(l, catalog, depth, outer, i, done, local) matches Ok((r, _)) ==> joins_told(l, r),
    decreases l.len() - i,
{
    reveal(joined);
    reveal(crate::query_rules::join_source);
    if i >= l.len() {
        assert(l.take(i) =~= l);
    } else if let Ok((source, next_local)) = crate::query_rules::join_source(
        l[i].source,
        l[i].kind == crate::syntax::JoinKind::Left,
        catalog,
        depth,
        outer,
        local,
    ) {
        if let Ok(on) = join_condition(l[i].on, outer, next_local) {
            lemma_join_condition(l[i].on, outer, next_local);
            let b = BoundJoinView { source, kind: l[i].kind, on };
            let prefix = l.take(i + 1);
            let next = done.push(b);
            assert forall|k: int| 0 <= k < prefix.len() implies next[k].kind == (#[trigger] prefix[k]).kind && next[k].on.data_type is Boolean
                && join_told(prefix[k].on, next[k].on) by {
                if k < i {
                    assert(prefix[k] == l.take(i)[k]);
                    assert(next[k] == done[k]);
                }
            }
            lemma_joins(l, catalog, depth, outer, i + 1, next, next_local);
        }
    }
}

proof fn lemma_join_condition(on: ParsedExprView, outer: Seq<InputColumnView>, local: Seq<InputColumnView>)
    ensures
        join_condition(on, outer, local) matches Ok(b) ==> b.data_type is Boolean && join_told(on, b),
{
    reveal(join_condition);
    if let Ok(inputs) = crate::inputs::with_outer(outer, 0, local) {
        lemma_told_form(on, input_scope(inputs, true), Some(ScalarTypeView::Boolean));
        if let Ok(b) = join_condition(on, outer, local) {
            assert(told(on, input_scope(inputs, true), b));
        }
    }
}

proof fn lemma_applied_kept(c: ClausesView, catalog: CatalogView, inputs: Seq<InputColumnView>, base: usize, depth: usize)
    ensures
        applied_clauses(c, catalog, inputs, base, depth) matches Ok((r, _)) ==> {
            &&& items_resemble(c.projection, r.projection)
            &&& clause_resembles(c.filter, r.filter)
            &&& all_resemble(c.group_by, r.group_by, 0)
            &&& clause_resembles(c.having, r.having)
            &&& orders_resemble(c.order_by, r.order_by)
        },
{
    unfold_applied_clauses(c, catalog, inputs, base, depth);
    lemma_applied_front(c, catalog, inputs, base, depth);
    if let Ok((f, applies)) = applied_front(c, catalog, inputs, base, depth) {
        lemma_applied_clause(f.having, Seq::empty(), catalog, inputs, base, depth, applies);
        if let Ok((_, more)) = crate::query_rules::applied_some(f.having, catalog, inputs, base, depth, applies) {
            lemma_lists_kept(f.order_by, Seq::empty(), catalog, inputs, base, depth, Seq::empty(), more);
        }
    }
}

proof fn lemma_applied_front(c: ClausesView, catalog: CatalogView, inputs: Seq<InputColumnView>, base: usize, depth: usize)
    ensures
        applied_front(c, catalog, inputs, base, depth) matches Ok((r, _)) ==> {
            &&& items_resemble(c.projection, r.projection)
            &&& clause_resembles(c.filter, r.filter)
            &&& all_resemble(c.group_by, r.group_by, 0)
            &&& r.having == c.having
            &&& r.order_by == c.order_by
        },
{
    reveal(applied_front);
    reveal(crate::query_rules::applied_items);
    reveal(crate::query_rules::applied_some);
    reveal(crate::query_rules::applied_exprs);
    lemma_lists_kept(Seq::empty(), c.projection, catalog, inputs, base, depth, Seq::empty(), Seq::empty());
    if let Ok((_, a)) = crate::query_rules::applied_items(c.projection, catalog, inputs, base, depth, 0, Seq::empty(), Seq::empty()) {
        lemma_applied_clause(c.filter, Seq::empty(), catalog, inputs, base, depth, a);
        if let Ok((_, b)) = crate::query_rules::applied_some(c.filter, catalog, inputs, base, depth, a) {
            lemma_applied_clause(None, c.group_by, catalog, inputs, base, depth, b);
        }
    }
}

proof fn lemma_tail(
    c: ClausesView,
    distinct: bool,
    offset: Option<ParsedExprView>,
    limit: Option<ParsedExprView>,
    local: Seq<InputColumnView>,
    inputs: Seq<InputColumnView>,
    windows: Seq<crate::bound::BoundWindowView>,
    applied: nat,
    catalog: CatalogView,
)
    ensures
        tail_of(c, distinct, offset, limit, local, inputs, windows, applied) matches Ok(t) ==> {
            &&& outputs_told(c.projection, input_scope(inputs, true), input_star(local), t.clauses.projection, 0, 0)
            &&& test_told(c.filter, input_scope(inputs, true), t.clauses.filter)
            &&& all_told(c.group_by, input_scope(inputs, false), t.clauses.group_by)
            &&& test_told(c.having, input_scope(inputs, true), t.clauses.having)
            &&& orders_told(c.order_by, t.order_by)
            &&& told_if_any(offset, input_scope(inputs, false), t.offset)
            &&& told_if_any(limit, input_scope(inputs, false), t.limit)
        },
{
    reveal(tail_of);
    reveal(clauses_of);
    reveal(conditions);
    let base = (local.len() + applied) as usize;
    if let Ok(w) = crate::select_list::numbered(windows, base, 0, Seq::empty()) {
        lemma_lists_kept(c.order_by, c.projection, catalog, inputs, base, 0, w, Seq::empty());
        if let (Ok(projection), Ok(order_by)) = (
            final_items(c.projection, base, w, 0, Seq::empty()),
            final_orders(c.order_by, base, w, 0, Seq::empty()),
        ) {
            let d = ClausesView { projection, ..c };
            lemma_input_outputs(projection, local, inputs, 0, Seq::empty());
            lemma_test(c.filter, input_scope(inputs, true));
            lemma_test(c.having, input_scope(inputs, true));
            assert(c.group_by.take(0) =~= Seq::empty());
            lemma_list(c.group_by, input_scope(inputs, false), Expectation::Each(None), 0, Seq::empty());
            if let Ok(b) = clauses_of(d, distinct, local, inputs, w) {
                lemma_outputs_through(c.projection, projection, input_scope(inputs, true), input_star(local), b.projection, 0, 0);
                assert(order_by.take(0) =~= Seq::empty());
                lemma_clause_orders(order_by, b.aggregate, distinct, b.projection, inputs, b.group_by, 0, Seq::empty());
                if let Ok(r) = clause_orders(order_by, b.aggregate, distinct, b.projection, inputs, b.group_by, 0, Seq::empty()) {
                    lemma_orders_told_through(c.order_by, order_by, r);
                }
            }
        }
    }
    lemma_page(offset, input_scope(inputs, false));
    lemma_page(limit, input_scope(inputs, false));
}

/// A query with joins, grouping, DISTINCT, subqueries or windows keeps its joins, its
/// select list, its WHERE, GROUP BY and HAVING, its sort keys with their directions, its
/// OFFSET and its LIMIT.
pub proof fn lemma_joined_query_told(p: SelectPartsView, catalog: CatalogView, depth: usize, outer: Seq<InputColumnView>)
    ensures
        advanced_of(p, catalog, depth, outer) matches Ok(b) ==> exists|local: Seq<InputColumnView>, inputs: Seq<InputColumnView>|
            #[trigger] joined_query_told(p, local, inputs, b),
{
    unfold_advanced_of(p, catalog, depth, outer);
    if let Ok(b) = advanced_of(p, catalog, depth, outer) {
        let own = crate::inputs::input_table(p.table, false, catalog, Seq::empty())->Ok_0.1;
        let (joins, local) = joined(p.joins, catalog, depth, outer, 0, Seq::empty(), own)->Ok_0;
        assert(p.joins.take(0) =~= Seq::empty());
        lemma_joins(p.joins, catalog, depth, outer, 0, Seq::empty(), own);
        let inputs = crate::inputs::with_outer(outer, 0, local)->Ok_0;
        lemma_lists_kept(Seq::empty(), p.projection, catalog, inputs, 0, depth, Seq::empty(), Seq::empty());
        let (projection, w) = window_items(p.projection, inputs, 0, Seq::empty(), Seq::empty())->Ok_0;
        lemma_lists_kept(p.order_by, Seq::empty(), catalog, inputs, 0, depth, w, Seq::empty());
        let (order_by, windows) = window_orders(p.order_by, inputs, 0, Seq::empty(), w)->Ok_0;
        let c = ClausesView { projection, filter: p.filter, group_by: p.group_by, having: p.having, order_by };
        lemma_applied_kept(c, catalog, inputs, local.len() as usize, depth);
        let (d, applies) = applied_clauses(c, catalog, inputs, local.len() as usize, depth)->Ok_0;
        lemma_tail(d, p.distinct, p.offset, p.limit, local, inputs, windows, applies.len(), catalog);
        lemma_items_through(p.projection, projection, d.projection);
        lemma_orders_through(p.order_by, order_by, d.order_by);
        lemma_outputs_through(
            p.projection,
            d.projection,
            input_scope(inputs, true),
            input_star(local),
            b->AdvancedSelect_projection,
            0,
            0,
        );
        lemma_told_if_through(p.filter, d.filter, input_scope(inputs, true), b->AdvancedSelect_filter);
        lemma_all_told_through(p.group_by, d.group_by, input_scope(inputs, false), b->AdvancedSelect_group_by);
        lemma_told_if_through(p.having, d.having, input_scope(inputs, true), b->AdvancedSelect_having);
        lemma_orders_told_through(p.order_by, d.order_by, b->AdvancedSelect_order_by);
        assert(joined_query_told(p, local, inputs, b));
    }
}

} // verus!
