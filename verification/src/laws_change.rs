//! What bound statements keep of statements that change data, and of statements as a
//! whole.

use vstd::prelude::*;

use crate::bind::bound_statement;
use crate::binding::{input_scope, table_scope};
use crate::bound::{BoundExprView, BoundMergeClauseView, BoundMergeView, BoundOnConflictView, BoundReturningView, BoundStatementView};
use crate::catalog::{CatalogView, TableDefinitionView};
use crate::dml::{
    dml_relation, insert_parts, merge_action, merge_clause, merge_clauses, merge_of, on_conflict_of, target_columns, DmlRelationView,
    DmlTarget,
};
use crate::laws_bind::{
    all_told, assignments_told, columns_told, conflict_told, joined_query_told, lemma_all_told_through, lemma_assigned,
    lemma_assignments_told, lemma_columns_told, lemma_joined_query_told, lemma_orders_told_through, lemma_outputs_through, lemma_row,
    lemma_rows, lemma_set_query_told, lemma_table_outputs, lemma_table_query_told, lemma_test, lemma_told_form, lemma_told_if_through,
    lemma_told_through, merge_clause_told, orders_told, returning_told, rows_told, set_query_told, table_query_told, table_star,
    test_told, told,
};
use crate::laws_steps::lemma_outlines_through;
use crate::laws_typing::{
    all_resemble, assignments_resemble, conflict_resembles, items_resemble, join_resembles, lemma_typed_outlines, merge_clause_resembles,
    merge_resembles, outlines, rows_resemble,
};
use crate::names::named_table;
use crate::queries::table_select;
use crate::query_rules::{delete_parts, select_of, statement_of, update_parts, SelectPartsView};
use crate::scope::InputColumnView;
use crate::select_list::returning_of;
use crate::solver_rules::solved;
use crate::syntax::{
    ParsedConflictActionView, ParsedExprView, ParsedIdentifierView, ParsedMergeActionView, ParsedMergeClauseView, ParsedMergeView,
    ParsedObjectNameView, ParsedOnConflictView, ParsedProjectionView, ParsedStatementView, ParsedTableView,
};
use crate::type_rules::{typed_statement, ResolverView, SessionView};
use crate::types::{DbErrorView, ScalarTypeView};
use crate::catalog::TriggerEvent;

verus! {

/// Whether a data change on a name is applied to the table or view of that name: of the
/// schema that it names, or else of the public one.
pub open spec fn target_told(name: ParsedObjectNameView, catalog: CatalogView, r: DmlRelationView) -> bool {
    let schema = if name.parts.len() == 1 {
        crate::types::normalized("public"@, false)
    } else {
        name.parts[0].name
    };
    &&& 1 <= name.parts.len() <= 2
    &&& match r.target {
        DmlTarget::Table(id) => catalog.table(schema, name.parts.last().name) == Some(r.scope) && r.scope.id == id,
        DmlTarget::View(id) => {
            &&& catalog.table(schema, name.parts.last().name) is None
            &&& catalog.view_of(schema, name.parts.last().name) is Some
            &&& catalog.view_of(schema, name.parts.last().name)->0.id == id
            &&& catalog.view_of(schema, name.parts.last().name)->0.kind is Regular
        },
    }
}

/// Whether a bound DELETE deletes from the relation that was named, exactly the rows that
/// its WHERE selects, and returns what was written.
pub open spec fn delete_told(
    filter: Option<ParsedExprView>,
    returning: Seq<ParsedProjectionView>,
    r: DmlRelationView,
    b: BoundStatementView,
) -> bool {
    match r.target {
        DmlTarget::Table(id) => {
            &&& b is Delete
            &&& b->Delete_table_id == id
            &&& test_told(filter, table_scope(Some(r.scope)), b->Delete_filter)
            &&& returning_told(returning, r.scope, b->Delete_returning)
        },
        DmlTarget::View(id) => {
            &&& b is ViewDelete
            &&& b->ViewDelete_view_id == id
            &&& test_told(filter, table_scope(Some(r.scope)), b->ViewDelete_filter)
            &&& returning_told(returning, r.scope, b->ViewDelete_returning)
        },
    }
}

/// Whether a bound UPDATE changes the relation that was named, exactly the rows that its
/// WHERE selects, by the assignments that were written, and returns what was written.
pub open spec fn update_told(
    assignments: Seq<(ParsedIdentifierView, ParsedExprView)>,
    filter: Option<ParsedExprView>,
    returning: Seq<ParsedProjectionView>,
    r: DmlRelationView,
    b: BoundStatementView,
) -> bool {
    match r.target {
        DmlTarget::Table(id) => {
            &&& b is Update
            &&& b->Update_table_id == id
            &&& assignments_told(assignments, r.scope, table_scope(Some(r.scope)), b->Update_assignments)
            &&& test_told(filter, table_scope(Some(r.scope)), b->Update_filter)
            &&& returning_told(returning, r.scope, b->Update_returning)
        },
        DmlTarget::View(id) => {
            &&& b is ViewUpdate
            &&& b->ViewUpdate_view_id == id
            &&& assignments_told(assignments, r.scope, table_scope(Some(r.scope)), b->ViewUpdate_assignments)
            &&& test_told(filter, table_scope(Some(r.scope)), b->ViewUpdate_filter)
            &&& returning_told(returning, r.scope, b->ViewUpdate_returning)
        },
    }
}

/// Whether a bound INSERT writes the rows that were written into the columns that were
/// named, with the ON CONFLICT and RETURNING that were written.
pub open spec fn insert_told(
    columns: Seq<ParsedIdentifierView>,
    rows: Seq<Seq<ParsedExprView>>,
    on_conflict: Option<ParsedOnConflictView>,
    returning: Seq<ParsedProjectionView>,
    r: DmlRelationView,
    b: BoundStatementView,
) -> bool {
    match r.target {
        DmlTarget::Table(id) => {
            &&& b is Insert
            &&& b->Insert_table_id == id
            &&& columns_told(columns, r.scope, b->Insert_column_indexes)
            &&& rows_told(rows, b->Insert_rows)
            &&& conflict_told(on_conflict, r.scope, b->Insert_on_conflict)
            &&& returning_told(returning, r.scope, b->Insert_returning)
        },
        DmlTarget::View(id) => {
            &&& b is ViewInsert
            &&& b->ViewInsert_view_id == id
            &&& columns_told(columns, r.scope, b->ViewInsert_column_indexes)
            &&& rows_told(rows, b->ViewInsert_rows)
            &&& on_conflict is None
            &&& returning_told(returning, r.scope, b->ViewInsert_returning)
        },
    }
}

/// Whether a bound MERGE joins the relations that were named on the condition that was
/// written, with the clauses that were written in their order.
pub open spec fn merge_told(
    m: ParsedMergeView,
    t: TableDefinitionView,
    inputs: Seq<InputColumnView>,
    b: BoundMergeView,
) -> bool {
    &&& b.target.table_id == t.id
    &&& told(m.on, input_scope(inputs, false), b.on)
    &&& b.on.data_type is Boolean
    &&& m.clauses.len() == b.clauses.len()
    &&& forall|k: int| 0 <= k < m.clauses.len() ==> merge_clause_told(#[trigger] m.clauses[k], t, inputs, b.clauses[k])
    &&& returning_told(m.returning, t, b.returning)
}

/// The parts of a SELECT over a FROM clause.
pub open spec fn parts_of(s: ParsedStatementView) -> SelectPartsView {
    match s {
        ParsedStatementView::AdvancedSelect {
            table,
            joins,
            projection,
            distinct,
            filter,
            group_by,
            having,
            order_by,
            offset,
            limit,
        } => SelectPartsView { table, joins, projection, distinct, filter, group_by, having, order_by, offset, limit },
        _ => arbitrary(),
    }
}

/// Whether a bound statement answers a statement: it is of its kind, over the relations
/// that it names, and has the clauses that were written, each exactly where it was
/// written.
pub open spec fn answers(s: ParsedStatementView, catalog: CatalogView, b: BoundStatementView) -> bool {
    match s {
        ParsedStatementView::Select { table, projection, filter, order_by, offset, limit } => {
            ||| b is ViewSelect && filter is None && order_by.len() == 0 && offset is None && limit is None
            ||| exists|t: TableDefinitionView|
                named_table(table, catalog) == Ok::<_, DbErrorView>(t) && #[trigger] table_query_told(
                    t,
                    projection,
                    filter,
                    order_by,
                    offset,
                    limit,
                    b,
                )
        },
        ParsedStatementView::AdvancedSelect { .. } => exists|local: Seq<InputColumnView>, inputs: Seq<InputColumnView>|
            #[trigger] joined_query_told(parts_of(s), local, inputs, b),
        ParsedStatementView::SetOperation { operator, all, order_by, offset, limit, .. } => set_query_told(
            operator,
            all,
            order_by,
            offset,
            limit,
            b,
        ),
        ParsedStatementView::Explain { .. } => b is Explain && (*b->Explain_statement is Select || *b->Explain_statement is AdvancedSelect),
        ParsedStatementView::Delete { table, filter, returning } => exists|r: DmlRelationView|
            #[trigger] target_told(table, catalog, r) && delete_told(filter, returning, r, b),
        ParsedStatementView::Update { table, assignments, filter, returning } => exists|r: DmlRelationView|
            #[trigger] target_told(table, catalog, r) && update_told(assignments, filter, returning, r, b),
        ParsedStatementView::Insert { table, columns, rows, on_conflict, returning } => exists|r: DmlRelationView|
            #[trigger] target_told(table, catalog, r) && insert_told(columns, rows, on_conflict, returning, r, b),
        ParsedStatementView::Merge(m) => b is Merge && exists|t: TableDefinitionView, inputs: Seq<InputColumnView>|
            named_table(m.target.name, catalog) == Ok::<_, DbErrorView>(t) && #[trigger] merge_told(m, t, inputs, b->Merge_0),
        _ => true,
    }
}

proof fn lemma_target(name: ParsedObjectNameView, event: TriggerEvent, catalog: CatalogView)
    ensures
        dml_relation(name, event, catalog) matches Ok(r) ==> target_told(name, catalog, r),
{
    reveal(dml_relation);
}

proof fn lemma_returning(l: Seq<ParsedProjectionView>, t: TableDefinitionView)
    ensures
        returning_of(l, t) matches Ok(r) ==> returning_told(l, t, r),
{
    reveal(returning_of);
    lemma_table_outputs(l, t, true, 0, Seq::empty());
}

/// A DELETE that is bound keeps its WHERE and its RETURNING, on a table and on a view.
pub proof fn lemma_delete_told(s: ParsedStatementView, catalog: CatalogView, depth: usize)
    requires
        s is Delete,
    ensures
        statement_of(s, catalog, depth) matches Ok(b) ==> answers(s, catalog, b),
{
    reveal(statement_of);
    reveal(crate::query_rules::target_source);
    reveal(delete_parts);
    if let ParsedStatementView::Delete { table, filter, returning } = s {
        if let Ok(r) = dml_relation(table, TriggerEvent::Delete, catalog) {
            lemma_target(table, TriggerEvent::Delete, catalog);
            lemma_test(filter, table_scope(Some(r.scope)));
            lemma_returning(returning, r.scope);
            if let Ok(b) = statement_of(s, catalog, depth) {
                assert(target_told(table, catalog, r));
                assert(delete_told(filter, returning, r, b));
            }
        }
    }
}

/// An UPDATE that is bound keeps its assignments, its WHERE and its RETURNING, on a table
/// and on a view.
pub proof fn lemma_update_told(s: ParsedStatementView, catalog: CatalogView, depth: usize)
    requires
        s is Update,
    ensures
        statement_of(s, catalog, depth) matches Ok(b) ==> answers(s, catalog, b),
{
    reveal(statement_of);
    reveal(crate::query_rules::target_source);
    reveal(update_parts);
    if let ParsedStatementView::Update { table, assignments, filter, returning } = s {
        if let Ok(r) = dml_relation(table, TriggerEvent::Update, catalog) {
            lemma_target(table, TriggerEvent::Update, catalog);
            lemma_test(filter, table_scope(Some(r.scope)));
            lemma_returning(returning, r.scope);
            lemma_assignments_told(assignments, r.scope, table_scope(Some(r.scope)), " assigned more than once"@);
            if let Ok(b) = statement_of(s, catalog, depth) {
                assert(target_told(table, catalog, r));
                assert(update_told(assignments, filter, returning, r, b));
            }
        }
    }
}

proof fn lemma_conflict(c: ParsedOnConflictView, t: TableDefinitionView)
    ensures
        on_conflict_of(c, t) matches Ok(r) ==> conflict_told(Some(c), t, Some(r)),
{
    reveal(on_conflict_of);
    if let ParsedConflictActionView::DoUpdate { assignments, .. } = c.action {
        lemma_assigned(
            assignments,
            t,
            input_scope(crate::dml::conflict_inputs(t), false),
            Some(t.name),
            " specified more than once"@,
            0,
            Seq::empty(),
        );
    }
}

/// An INSERT that is bound keeps its columns, its rows, its ON CONFLICT and its RETURNING,
/// on a table and on a view.
pub proof fn lemma_insert_told(s: ParsedStatementView, catalog: CatalogView, depth: usize)
    requires
        s is Insert,
    ensures
        statement_of(s, catalog, depth) matches Ok(b) ==> answers(s, catalog, b),
{
    reveal(statement_of);
    reveal(crate::query_rules::target_source);
    reveal(insert_parts);
    if let ParsedStatementView::Insert { table, columns, rows, on_conflict, returning } = s {
        if let Ok(r) = dml_relation(table, TriggerEvent::Insert, catalog) {
            lemma_target(table, TriggerEvent::Insert, catalog);
            lemma_returning(returning, r.scope);
            lemma_columns_told(columns, r.scope);
            if let Some(c) = on_conflict {
                lemma_conflict(c, r.scope);
            }
            if let Ok(indexes) = target_columns(columns, r.scope) {
                assert(rows.take(0) =~= Seq::empty());
                lemma_rows(rows, indexes, r.scope, 0, Seq::empty());
            }
            if let Ok(b) = statement_of(s, catalog, depth) {
                assert(target_told(table, catalog, r));
                assert(insert_told(columns, rows, on_conflict, returning, r, b));
            }
        }
    }
}

proof fn lemma_merge_clause(c: ParsedMergeClauseView, t: TableDefinitionView, inputs: Seq<InputColumnView>, source: usize)
    ensures
        merge_clause(c, t, inputs, source) matches Ok(r) ==> merge_clause_told(c, t, inputs, r),
{
    reveal(merge_action);
    if let Some(e) = c.predicate {
        lemma_told_form(e, input_scope(inputs, false), Some(ScalarTypeView::Boolean));
    }
    match c.action {
        ParsedMergeActionView::Update { assignments } => lemma_assignments_told(
            assignments,
            t,
            input_scope(inputs, false),
            " assigned more than once"@,
        ),
        ParsedMergeActionView::Insert { columns, values } => {
            lemma_columns_told(columns, t);
            if let Ok(indexes) = target_columns(columns, t) {
                assert(values.take(0) =~= Seq::empty());
                lemma_row(values, indexes, t, input_scope(inputs, false), 0, Seq::empty());
            }
        },
        _ => {},
    }
}

proof fn lemma_merge_clauses(
    l: Seq<ParsedMergeClauseView>,
    t: TableDefinitionView,
    inputs: Seq<InputColumnView>,
    source: usize,
    i: int,
    done: Seq<BoundMergeClauseView>,
)
    requires
        0 <= i <= l.len(),
        done.len() == i,
        forall|k: int| 0 <= k < i ==> merge_clause_told(#[trigger] l[k], t, inputs, done[k]),
    ensures
        merge_clauses(l, t, inputs, source, i, done) matches Ok(r) ==> r.len() == l.len() && forall|k: int|
            0 <= k < l.len() ==> merge_clause_told(#[trigger] l[k], t, inputs, r[k]),
    decreases l.len() - i,
{
    if i < l.len() {
        lemma_merge_clause(l[i], t, inputs, source);
        if let Ok(b) = merge_clause(l[i], t, inputs, source) {
            let next = done.push(b);
            assert forall|k: int| 0 <= k < i + 1 implies merge_clause_told(#[trigger] l[k], t, inputs, next[k]) by {
                if k < i {
                    assert(next[k] == done[k]);
                }
            }
            lemma_merge_clauses(l, t, inputs, source, i + 1, next);
        }
    }
}

/// A MERGE that is bound keeps its condition, its clauses in their order and its
/// RETURNING.
pub proof fn lemma_merge_told(m: ParsedMergeView, catalog: CatalogView)
    ensures
        merge_of(m, catalog) matches Ok(b) ==> exists|t: TableDefinitionView, inputs: Seq<InputColumnView>|
            named_table(m.target.name, catalog) == Ok::<_, DbErrorView>(t) && #[trigger] merge_told(m, t, inputs, b),
{
    reveal(merge_of);
    reveal(crate::inputs::input_table);
    if let Ok(b) = merge_of(m, catalog) {
        let t = named_table(m.target.name, catalog)->Ok_0;
        let own = crate::inputs::input_table(m.target, false, catalog, Seq::empty())->Ok_0.1;
        let (source, inputs) = crate::inputs::input_table(m.source, false, catalog, own)->Ok_0;
        lemma_told_form(m.on, input_scope(inputs, false), Some(ScalarTypeView::Boolean));
        lemma_merge_clauses(m.clauses, t, inputs, source.offset, 0, Seq::empty());
        lemma_returning(m.returning, t);
        assert(merge_told(m, t, inputs, b));
    }
}

/// A statement that is bound answers the statement that was typed.
pub proof fn lemma_statement_answers(s: ParsedStatementView, catalog: CatalogView, depth: usize)
    ensures
        statement_of(s, catalog, depth) matches Ok(b) ==> answers(s, catalog, b),
{
    match s {
        ParsedStatementView::Delete { .. } => lemma_delete_told(s, catalog, depth),
        ParsedStatementView::Update { .. } => lemma_update_told(s, catalog, depth),
        ParsedStatementView::Insert { .. } => lemma_insert_told(s, catalog, depth),
        ParsedStatementView::Merge(m) => {
            lemma_merge_told(m, catalog);
            lemma_plain_merge(m, catalog, depth);
        },
        _ => lemma_query_answers(s, catalog, depth),
    }
}

proof fn lemma_plain_merge(m: ParsedMergeView, catalog: CatalogView, depth: usize)
    ensures
        statement_of(ParsedStatementView::Merge(m), catalog, depth) matches Ok(b) ==> b is Merge && merge_of(m, catalog) == Ok::<_, DbErrorView>(
            b->Merge_0,
        ),
{
    reveal(statement_of);
    reveal(crate::plain::plain_statement);
    reveal(crate::plain::session_statement);
    reveal(crate::plain::type_statement);
    reveal(crate::plain::sequence_statement);
    reveal(crate::plain::object_statement);
    reveal(crate::plain::value_statement);
}

proof fn lemma_query_answers(s: ParsedStatementView, catalog: CatalogView, depth: usize)
    requires
        !(s is Delete || s is Update || s is Insert || s is Merge),
    ensures
        statement_of(s, catalog, depth) matches Ok(b) ==> answers(s, catalog, b),
{
    match s {
        ParsedStatementView::Select { .. } => lemma_select_answers(s, catalog, depth),
        ParsedStatementView::AdvancedSelect { .. } => lemma_joined_answers(s, catalog, depth),
        ParsedStatementView::SetOperation { .. } => lemma_set_answers(s, catalog, depth),
        ParsedStatementView::Explain { .. } => {
            reveal(statement_of);
        },
        _ => {},
    }
}

proof fn lemma_select_answers(s: ParsedStatementView, catalog: CatalogView, depth: usize)
    requires
        s is Select,
    ensures
        statement_of(s, catalog, depth) matches Ok(b) ==> answers(s, catalog, b),
{
    reveal(statement_of);
    reveal(select_of);
    reveal(crate::query_rules::view_source);
    reveal(crate::queries::view_select);
    reveal(crate::names::split_name);
    if let ParsedStatementView::Select { table, projection, filter, order_by, offset, limit } = s {
        let p = SelectPartsView {
            table: ParsedTableView { name: table, alias: None },
            joins: Seq::empty(),
            projection,
            distinct: false,
            filter,
            group_by: Seq::empty(),
            having: None,
            order_by,
            offset,
            limit,
        };
        assert(depth <= 64 ==> statement_of(s, catalog, depth) == select_of(p, catalog, depth));
        if let Ok(b) = select_of(p, catalog, depth) {
            assert(b is ViewSelect || table_select(named_table(table, catalog)->Ok_0, projection, filter, order_by, offset, limit) == Ok::<
                _,
                DbErrorView,
            >(b));
        }
        if let Ok(t) = named_table(table, catalog) {
            lemma_table_query_told(t, projection, filter, order_by, offset, limit);
            if let Ok(b) = table_select(t, projection, filter, order_by, offset, limit) {
                assert(table_query_told(t, projection, filter, order_by, offset, limit, b));
            }
        }
    }
}

proof fn lemma_joined_answers(s: ParsedStatementView, catalog: CatalogView, depth: usize)
    requires
        s is AdvancedSelect,
    ensures
        statement_of(s, catalog, depth) matches Ok(b) ==> answers(s, catalog, b),
{
    reveal(statement_of);
    reveal(crate::query_rules::advanced_of);
    lemma_joined_query_told(parts_of(s), catalog, depth, Seq::empty());
}

proof fn lemma_set_answers(s: ParsedStatementView, catalog: CatalogView, depth: usize)
    requires
        s is SetOperation,
    ensures
        statement_of(s, catalog, depth) matches Ok(b) ==> answers(s, catalog, b),
{
    reveal(statement_of);
    reveal(crate::query_rules::deeper);
    if let ParsedStatementView::SetOperation { left, operator, all, right, order_by, offset, limit } = s {
        if let (Ok(l), Ok(r)) = (crate::query_rules::deeper(*left, catalog, depth), crate::query_rules::deeper(*right, catalog, depth)) {
            lemma_set_query_told(l, operator, all, r, order_by, offset, limit);
        }
    }
}

proof fn lemma_returning_through(
    l: Seq<ParsedProjectionView>,
    t: Seq<ParsedProjectionView>,
    d: TableDefinitionView,
    r: Option<BoundReturningView>,
)
    requires
        items_resemble(l, t),
        returning_told(t, d, r),
    ensures
        returning_told(l, d, r),
{
    if r is Some {
        lemma_outputs_through(l, t, table_scope(Some(d)), table_star(d), r->0.projection, 0, 0);
    }
}

proof fn lemma_assignments_through(
    l: Seq<(ParsedIdentifierView, ParsedExprView)>,
    t: Seq<(ParsedIdentifierView, ParsedExprView)>,
    d: TableDefinitionView,
    scope: crate::scope::ScopeView,
    r: Seq<(usize, BoundExprView)>,
)
    requires
        assignments_resemble(l, t),
        assignments_told(t, d, scope, r),
    ensures
        assignments_told(l, d, scope, r),
{
    assert forall|k: int| 0 <= k < l.len() implies told((#[trigger] l[k]).1, scope, r[k].1) && (d.columns.len() <= usize::MAX ==> r[k].0
        < d.columns.len() && d.columns[r[k].0 as int].name == l[k].0.name) by {
        assert(t[k].0 == l[k].0);
        assert(told(t[k].1, scope, r[k].1));
        lemma_told_through(l[k].1, t[k].1, scope, r[k].1);
    }
}

proof fn lemma_rows_through(l: Seq<Seq<ParsedExprView>>, t: Seq<Seq<ParsedExprView>>, r: Seq<Seq<BoundExprView>>)
    requires
        rows_resemble(l, t),
        rows_told(t, r),
    ensures
        rows_told(l, r),
{
    assert forall|k: int| 0 <= k < l.len() implies all_told(#[trigger] l[k], table_scope(None), r[k]) by {
        assert(all_resemble(l[k], t[k], 0));
        assert(all_told(t[k], table_scope(None), r[k]));
        lemma_all_told_through(l[k], t[k], table_scope(None), r[k]);
    }
}

proof fn lemma_conflict_through(
    a: Option<ParsedOnConflictView>,
    b: Option<ParsedOnConflictView>,
    t: TableDefinitionView,
    r: Option<BoundOnConflictView>,
)
    requires
        conflict_resembles(a, b),
        conflict_told(b, t, r),
    ensures
        conflict_told(a, t, r),
{
    if let Some(c) = a {
        if let ParsedConflictActionView::DoUpdate { assignments, .. } = c.action {
            let l = b->0.action->DoUpdate_assignments;
            let q = r->0.action->DoUpdate_assignments;
            if t.columns.len() <= usize::MAX {
                assert forall|k: int| 0 <= k < assignments.len() implies q[k].0 < t.columns.len() && t.columns[q[k].0 as int].name
                    == (#[trigger] assignments[k]).0.name by {
                    assert(l[k].0 == assignments[k].0);
                }
            }
        }
    }
}

proof fn lemma_joined_through(
    s: ParsedStatementView,
    t: ParsedStatementView,
    local: Seq<InputColumnView>,
    inputs: Seq<InputColumnView>,
    b: BoundStatementView,
)
    requires
        s is AdvancedSelect,
        outlines(s, t),
        joined_query_told(parts_of(t), local, inputs, b),
    ensures
        joined_query_told(parts_of(s), local, inputs, b),
{
    let (p, q) = (parts_of(s), parts_of(t));
    let all = input_scope(inputs, true);
    let plain = input_scope(inputs, false);
    lemma_outputs_through(p.projection, q.projection, all, crate::laws_bind::input_star(local), b->AdvancedSelect_projection, 0, 0);
    lemma_told_if_through(p.filter, q.filter, all, b->AdvancedSelect_filter);
    lemma_all_told_through(p.group_by, q.group_by, plain, b->AdvancedSelect_group_by);
    lemma_told_if_through(p.having, q.having, all, b->AdvancedSelect_having);
    lemma_orders_told_through(p.order_by, q.order_by, b->AdvancedSelect_order_by);
    lemma_told_if_through(p.offset, q.offset, plain, b->AdvancedSelect_offset);
    if p.limit is Some {
        lemma_told_through(p.limit->0, q.limit->0, plain, *b->AdvancedSelect_limit->0);
    }
    let r = b->AdvancedSelect_joins;
    assert forall|k: int| 0 <= k < p.joins.len() implies r[k].kind == (#[trigger] p.joins[k]).kind && r[k].on.data_type is Boolean
        && crate::laws_bind::join_told(p.joins[k].on, r[k].on) by {
        assert(join_resembles(p.joins[k], q.joins[k]));
        assert(r[k].kind == q.joins[k].kind);
        let i = choose|i: Seq<InputColumnView>| told(q.joins[k].on, #[trigger] input_scope(i, true), r[k].on);
        lemma_told_through(p.joins[k].on, q.joins[k].on, input_scope(i, true), r[k].on);
    }
}

proof fn lemma_merge_through(
    m: ParsedMergeView,
    n: ParsedMergeView,
    t: TableDefinitionView,
    inputs: Seq<InputColumnView>,
    b: BoundMergeView,
)
    requires
        merge_resembles(m, n),
        merge_told(n, t, inputs, b),
    ensures
        merge_told(m, t, inputs, b),
{
    lemma_told_through(m.on, n.on, input_scope(inputs, false), b.on);
    lemma_returning_through(m.returning, n.returning, t, b.returning);
    assert forall|k: int| 0 <= k < m.clauses.len() implies merge_clause_told(#[trigger] m.clauses[k], t, inputs, b.clauses[k]) by {
        let (x, y, z) = (m.clauses[k], n.clauses[k], b.clauses[k]);
        assert(merge_clause_resembles(x, y));
        assert(merge_clause_told(y, t, inputs, z));
        lemma_told_if_through(x.predicate, y.predicate, input_scope(inputs, false), z.predicate);
        match x.action {
            ParsedMergeActionView::Update { assignments } => lemma_assignments_through(
                assignments,
                y.action->Update_assignments,
                t,
                input_scope(inputs, false),
                z.action->Update_assignments,
            ),
            ParsedMergeActionView::Insert { values, .. } => lemma_all_told_through(
                values,
                y.action->Insert_values,
                input_scope(inputs, false),
                z.action->Insert_values,
            ),
            _ => {},
        }
    }
}

/// What answers a statement answers every statement that it outlines.
pub proof fn lemma_answers_through(s: ParsedStatementView, t: ParsedStatementView, catalog: CatalogView, b: BoundStatementView)
    requires
        outlines(s, t),
        answers(t, catalog, b),
    ensures
        answers(s, catalog, b),
{
    match s {
        ParsedStatementView::Select { table, projection, filter, order_by, offset, limit } => {
            if !(b is ViewSelect) {
                let d = named_table(table, catalog)->Ok_0;
                let scope = table_scope(Some(d));
                lemma_outputs_through(projection, t->Select_projection, scope, table_star(d), b->Select_projection, 0, 0);
                lemma_told_if_through(filter, t->Select_filter, scope, b->Select_filter);
                lemma_orders_told_through(order_by, t->Select_order_by, b->Select_order_by);
                lemma_told_if_through(offset, t->Select_offset, scope, b->Select_offset);
                lemma_told_if_through(limit, t->Select_limit, scope, b->Select_limit);
                assert(table_query_told(d, projection, filter, order_by, offset, limit, b));
            }
        },
        ParsedStatementView::AdvancedSelect { .. } => {
            let (local, inputs) = choose|local: Seq<InputColumnView>, inputs: Seq<InputColumnView>|
                #[trigger] joined_query_told(parts_of(t), local, inputs, b);
            lemma_joined_through(s, t, local, inputs, b);
        },
        ParsedStatementView::SetOperation { order_by, offset, limit, .. } => {
            lemma_orders_told_through(order_by, t->SetOperation_order_by, b->SetOperation_order_by);
            lemma_told_if_through(offset, t->SetOperation_offset, table_scope(None), b->SetOperation_offset);
            lemma_told_if_through(limit, t->SetOperation_limit, table_scope(None), b->SetOperation_limit);
        },
        ParsedStatementView::Delete { table, filter, returning } => {
            let r = choose|r: DmlRelationView|
                #[trigger] target_told(table, catalog, r) && delete_told(t->Delete_filter, t->Delete_returning, r, b);
            let scope = table_scope(Some(r.scope));
            match r.target {
                DmlTarget::Table(_) => {
                    lemma_told_if_through(filter, t->Delete_filter, scope, b->Delete_filter);
                    lemma_returning_through(returning, t->Delete_returning, r.scope, b->Delete_returning);
                },
                DmlTarget::View(_) => {
                    lemma_told_if_through(filter, t->Delete_filter, scope, b->ViewDelete_filter);
                    lemma_returning_through(returning, t->Delete_returning, r.scope, b->ViewDelete_returning);
                },
            }
            assert(delete_told(filter, returning, r, b));
        },
        ParsedStatementView::Update { table, assignments, filter, returning } => {
            let r = choose|r: DmlRelationView|
                #[trigger] target_told(table, catalog, r) && update_told(
                    t->Update_assignments,
                    t->Update_filter,
                    t->Update_returning,
                    r,
                    b,
                );
            let scope = table_scope(Some(r.scope));
            match r.target {
                DmlTarget::Table(_) => {
                    lemma_assignments_through(assignments, t->Update_assignments, r.scope, scope, b->Update_assignments);
                    lemma_told_if_through(filter, t->Update_filter, scope, b->Update_filter);
                    lemma_returning_through(returning, t->Update_returning, r.scope, b->Update_returning);
                },
                DmlTarget::View(_) => {
                    lemma_assignments_through(assignments, t->Update_assignments, r.scope, scope, b->ViewUpdate_assignments);
                    lemma_told_if_through(filter, t->Update_filter, scope, b->ViewUpdate_filter);
                    lemma_returning_through(returning, t->Update_returning, r.scope, b->ViewUpdate_returning);
                },
            }
            assert(update_told(assignments, filter, returning, r, b));
        },
        ParsedStatementView::Insert { table, columns, rows, on_conflict, returning } => {
            let r = choose|r: DmlRelationView|
                #[trigger] target_told(table, catalog, r) && insert_told(
                    columns,
                    t->Insert_rows,
                    t->Insert_on_conflict,
                    t->Insert_returning,
                    r,
                    b,
                );
            match r.target {
                DmlTarget::Table(_) => {
                    lemma_rows_through(rows, t->Insert_rows, b->Insert_rows);
                    lemma_conflict_through(on_conflict, t->Insert_on_conflict, r.scope, b->Insert_on_conflict);
                    lemma_returning_through(returning, t->Insert_returning, r.scope, b->Insert_returning);
                },
                DmlTarget::View(_) => {
                    lemma_rows_through(rows, t->Insert_rows, b->ViewInsert_rows);
                    lemma_returning_through(returning, t->Insert_returning, r.scope, b->ViewInsert_returning);
                },
            }
            assert(insert_told(columns, rows, on_conflict, returning, r, b));
        },
        ParsedStatementView::Merge(m) => {
            let n = t->Merge_0;
            let (d, inputs) = choose|d: TableDefinitionView, inputs: Seq<InputColumnView>|
                named_table(n.target.name, catalog) == Ok::<_, DbErrorView>(d) && #[trigger] merge_told(n, d, inputs, b->Merge_0);
            lemma_merge_through(m, n, d, inputs, b->Merge_0);
        },
        _ => {},
    }
}

/// A statement that is bound answers the statement that was written: on its way through
/// the types of its names, its parameters and the session, no clause is lost, added or
/// turned into another.
pub proof fn lemma_bound_answers(s: ParsedStatementView, catalog: CatalogView, session: Option<SessionView>)
    ensures
        bound_statement(s, catalog, session) matches Ok(b) ==> answers(s, catalog, b),
{
    reveal(bound_statement);
    let c = ResolverView { parameters: Map::empty(), catalog: Some(catalog), session };
    if let Ok(t) = typed_statement(s, c, 0) {
        lemma_typed_outlines(s, c, 0);
        if let Ok(parameters) = solved(t, catalog, 128, Map::empty()) {
            let d = ResolverView { parameters, catalog: None, session };
            if let Ok(u) = typed_statement(t, d, 0) {
                lemma_typed_outlines(t, d, 0);
                lemma_outlines_through(s, t, u);
                lemma_statement_answers(u, catalog, 0);
                if let Ok(b) = statement_of(u, catalog, 0) {
                    lemma_answers_through(s, u, catalog, b);
                }
            }
        }
    }
}

/// The sort keys of a bound query, on whatever it is a query.
pub open spec fn bound_orders(b: BoundStatementView) -> Seq<crate::bound::BoundOrderView> {
    match b {
        BoundStatementView::Select { order_by, .. } => order_by,
        BoundStatementView::AdvancedSelect { order_by, .. } => order_by,
        BoundStatementView::SetOperation { order_by, .. } => order_by,
        _ => Seq::empty(),
    }
}

/// The sort keys of a parsed query.
pub open spec fn written_orders(s: ParsedStatementView) -> Seq<crate::syntax::ParsedOrderView> {
    match s {
        ParsedStatementView::Select { order_by, .. } => order_by,
        ParsedStatementView::AdvancedSelect { order_by, .. } => order_by,
        ParsedStatementView::SetOperation { order_by, .. } => order_by,
        _ => Seq::empty(),
    }
}

/// A query that is bound sorts by as many keys as were written, and each key sorts
/// upwards or downwards, with nulls first or last, as was written: in plain, joined,
/// grouped, DISTINCT and set-operation queries alike.
pub proof fn lemma_sort_directions(s: ParsedStatementView, catalog: CatalogView, session: Option<SessionView>)
    requires
        s is Select || s is AdvancedSelect || s is SetOperation,
    ensures
        bound_statement(s, catalog, session) matches Ok(b) ==> {
            &&& bound_orders(b).len() == written_orders(s).len()
            &&& forall|k: int|
                0 <= k < written_orders(s).len() ==> (#[trigger] bound_orders(b)[k]).ascending == written_orders(s)[k].ascending
                    && bound_orders(b)[k].nulls_first == written_orders(s)[k].nulls_first
        },
{
    lemma_bound_answers(s, catalog, session);
    if let Ok(b) = bound_statement(s, catalog, session) {
        let l = written_orders(s);
        assert(orders_told(l, bound_orders(b)));
        assert forall|k: int| 0 <= k < l.len() implies (#[trigger] bound_orders(b)[k]).ascending == l[k].ascending
            && bound_orders(b)[k].nulls_first == l[k].nulls_first by {
            assert(l[k].ascending == l[k].ascending);
        }
    }
}

/// A DELETE that is bound deletes from the table or view that it names, and its filter is
/// its WHERE as a boolean over the columns of that relation: there where a WHERE was
/// written, and nowhere else.
pub proof fn lemma_delete_filter(
    table: ParsedObjectNameView,
    filter: Option<ParsedExprView>,
    returning: Seq<ParsedProjectionView>,
    catalog: CatalogView,
    session: Option<SessionView>,
)
    ensures
        bound_statement(ParsedStatementView::Delete { table, filter, returning }, catalog, session) matches Ok(b) ==> {
            &&& b is Delete || b is ViewDelete
            &&& b is Delete ==> (filter is Some <==> b->Delete_filter is Some)
            &&& b is Delete ==> (b->Delete_filter matches Some(f) ==> f.data_type is Boolean)
            &&& b is ViewDelete ==> (filter is Some <==> b->ViewDelete_filter is Some)
            &&& b is ViewDelete ==> (b->ViewDelete_filter matches Some(f) ==> f.data_type is Boolean)
            &&& exists|r: DmlRelationView| #[trigger] target_told(table, catalog, r) && delete_told(filter, returning, r, b)
        },
{
    lemma_bound_answers(ParsedStatementView::Delete { table, filter, returning }, catalog, session);
}

/// An UPDATE that is bound changes the table or view that it names, and its filter is its
/// WHERE as a boolean over the columns of that relation: there where a WHERE was written,
/// and nowhere else.
pub proof fn lemma_update_filter(
    table: ParsedObjectNameView,
    assignments: Seq<(ParsedIdentifierView, ParsedExprView)>,
    filter: Option<ParsedExprView>,
    returning: Seq<ParsedProjectionView>,
    catalog: CatalogView,
    session: Option<SessionView>,
)
    ensures
        bound_statement(ParsedStatementView::Update { table, assignments, filter, returning }, catalog, session) matches Ok(b) ==> {
            &&& b is Update || b is ViewUpdate
            &&& b is Update ==> (filter is Some <==> b->Update_filter is Some)
            &&& b is Update ==> (b->Update_filter matches Some(f) ==> f.data_type is Boolean)
            &&& b is ViewUpdate ==> (filter is Some <==> b->ViewUpdate_filter is Some)
            &&& b is ViewUpdate ==> (b->ViewUpdate_filter matches Some(f) ==> f.data_type is Boolean)
            &&& exists|r: DmlRelationView| #[trigger] target_told(table, catalog, r) && update_told(assignments, filter, returning, r, b)
        },
{
    lemma_bound_answers(ParsedStatementView::Update { table, assignments, filter, returning }, catalog, session);
}

} // verus!
