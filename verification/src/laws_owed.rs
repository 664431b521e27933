//! Statements that change data and are owed an answer.

use vstd::prelude::*;

use crate::bind::bound_statement;
use crate::binding::{bound_form, table_scope};
use crate::bound::{BoundExprView, BoundStatementView};
use crate::catalog::{CatalogView, TableDefinitionView, TriggerEvent};
use crate::dml::{assigned, assignments_of, dml_relation, insert_parts, insert_rows, row_values, target_columns, DmlRelationView, DmlTarget};
use crate::inputs::with_columns;
use crate::laws_success::{
    filter_testable, lemma_found, lemma_test_binds, lemma_test_solves, lemma_test_typed, lemma_valued_binds, lemma_valued_solves,
    table_named, valued, well_named,
};
use crate::query_rules::{statement_of, target_source, update_parts};
use crate::select_list::returning_of;
use crate::solver_rules::{
    solve_assignments, solve_rows, solve_values, solved, target_places, unfold_solve_assignments, unfold_solve_expr, unfold_solve_insert,
    unfold_solve_items, unfold_solve_rows, unfold_solve_some, unfold_solve_statement, unfold_solve_values, SolverView,
};
use crate::syntax::{
    ParsedExprKindView, ParsedExprView, ParsedIdentifierView, ParsedObjectNameView, ParsedProjectionView, ParsedStatementView,
};
use crate::type_rules::{
    typed_assignments, typed_expr_list, typed_rows, typed_statement, unfold_typed_assignments, unfold_typed_expr, unfold_typed_expr_list,
    unfold_typed_projection_list, unfold_typed_rows, unfold_typed_statement, ResolverView, SessionView,
};
use crate::types::{type_of_value, DbErrorView, ScalarTypeView};

verus! {

/// Whether an assignment gives the column at a place a column or a constant of its type.
pub open spec fn suits_column(a: (ParsedIdentifierView, ParsedExprView), t: TableDefinitionView, k: int) -> bool {
    0 <= k < t.columns.len() && t.columns[k].name == a.0.name && valued(a.1, t, t.columns[k].data_type)
}

/// Whether assignments give different columns of a table columns or constants of their
/// types.
pub open spec fn assignable(l: Seq<(ParsedIdentifierView, ParsedExprView)>, t: TableDefinitionView) -> bool {
    &&& forall|j: int| 0 <= j < l.len() ==> exists|k: int| suits_column(#[trigger] l[j], t, k)
    &&& forall|i: int, j: int| 0 <= i < j < l.len() ==> (#[trigger] l[i]).0.name != (#[trigger] l[j]).0.name
}

proof fn lemma_assignments_bind(
    l: Seq<(ParsedIdentifierView, ParsedExprView)>,
    t: TableDefinitionView,
    verb: Seq<char>,
    i: int,
    done: Seq<(usize, BoundExprView)>,
)
    requires
        well_named(t),
        assignable(l, t),
        0 <= i <= l.len(),
        done.len() == i,
        forall|j: int| 0 <= j < i ==> (#[trigger] done[j]).0 < t.columns.len() && t.columns[done[j].0 as int].name == l[j].0.name,
    ensures
        assignments_of(l, t, table_scope(Some(t)), None, verb, i, done) is Ok,
    decreases l.len() - i,
{
    if i < l.len() {
        let k = choose|k: int| suits_column(l[i], t, k);
        assert(suits_column(l[i], t, k));
        lemma_found(t, l[i].0.name, k, 0);
        lemma_valued_binds(l[i].1, t, t.columns[k].data_type, Some(t.columns[k].data_type));
        assert(!assigned(done, k as usize)) by {
            if assigned(done, k as usize) {
                let j = choose|j: int| 0 <= j < done.len() && #[trigger] done[j].0 == k as usize;
                assert(t.columns[done[j].0 as int].name == l[j].0.name);
                assert(l[j].0.name != l[i].0.name);
            }
        }
        if let Ok(b) = bound_form(l[i].1, table_scope(Some(t)), Some(t.columns[k].data_type)) {
            lemma_assignments_bind(l, t, verb, i + 1, done.push((k as usize, b)));
        }
    }
}

proof fn lemma_assignments_typed(
    l: Seq<(ParsedIdentifierView, ParsedExprView)>,
    t: TableDefinitionView,
    c: ResolverView,
    depth: usize,
    i: int,
)
    requires
        assignable(l, t),
        0 <= i <= l.len(),
    ensures
        typed_assignments(l, c, depth, i, l.take(i)) == Ok::<_, DbErrorView>(l),
    decreases l.len() - i,
{
    unfold_typed_assignments(l, c, depth, i, l.take(i));
    if i < l.len() {
        let k = choose|k: int| suits_column(l[i], t, k);
        assert(suits_column(l[i], t, k));
        unfold_typed_expr(l[i].1, c, depth);
        assert(l.take(i).push((l[i].0, l[i].1)) =~= l.take(i + 1));
        lemma_assignments_typed(l, t, c, depth, i + 1);
    } else {
        assert(l.take(i) =~= l);
    }
}

proof fn lemma_assignments_solve(
    l: Seq<(ParsedIdentifierView, ParsedExprView)>,
    t: TableDefinitionView,
    catalog: CatalogView,
    i: int,
    s: SolverView,
)
    requires
        well_named(t),
        assignable(l, t),
        0 <= i <= l.len(),
    ensures
        solve_assignments(l, t, with_columns(t.name, t.columns, false, 0, Seq::empty()), catalog, 0, i, s) == (s, Ok::<(), DbErrorView>(())),
    decreases l.len() - i,
{
    let inputs = with_columns(t.name, t.columns, false, 0, Seq::empty());
    unfold_solve_assignments(l, t, inputs, catalog, 0, i, s);
    if i < l.len() {
        let k = choose|k: int| suits_column(l[i], t, k);
        assert(suits_column(l[i], t, k));
        lemma_found(t, l[i].0.name, k, 0);
        lemma_valued_solves(l[i].1, t, t.columns[k].data_type, t.name, Some(t.columns[k].data_type), catalog, 0, s);
        lemma_assignments_solve(l, t, catalog, i + 1, s);
    }
}

/// The UPDATE without RETURNING.
pub open spec fn plain_update(
    table: ParsedObjectNameView,
    assignments: Seq<(ParsedIdentifierView, ParsedExprView)>,
    filter: Option<ParsedExprView>,
) -> ParsedStatementView {
    ParsedStatementView::Update { table, assignments, filter, returning: Seq::empty() }
}

proof fn lemma_update_typed(
    table: ParsedObjectNameView,
    assignments: Seq<(ParsedIdentifierView, ParsedExprView)>,
    filter: Option<ParsedExprView>,
    t: TableDefinitionView,
    c: ResolverView,
)
    requires
        assignable(assignments, t),
        filter_testable(filter, t),
    ensures
        typed_statement(plain_update(table, assignments, filter), c, 0) == Ok::<_, DbErrorView>(plain_update(table, assignments, filter)),
{
    let none: Seq<ParsedProjectionView> = Seq::empty();
    unfold_typed_statement(plain_update(table, assignments, filter), c, 0);
    unfold_typed_projection_list(none, c, 0, 0, none);
    assert(assignments.take(0) =~= Seq::empty());
    lemma_assignments_typed(assignments, t, c, 0, 0);
    if filter is Some {
        lemma_test_typed(filter->0, t, 64, c, 0);
    }
}

proof fn lemma_update_bound(
    table: ParsedObjectNameView,
    assignments: Seq<(ParsedIdentifierView, ParsedExprView)>,
    filter: Option<ParsedExprView>,
    catalog: CatalogView,
    t: TableDefinitionView,
)
    requires
        table_named(table, catalog, t),
        well_named(t),
        assignable(assignments, t),
        filter_testable(filter, t),
    ensures
        statement_of(plain_update(table, assignments, filter), catalog, 0) matches Ok(b) && b is Update && b->Update_table_id == t.id,
{
    reveal(dml_relation);
    let r = DmlRelationView { target: DmlTarget::Table(t.id), scope: t };
    assert(dml_relation(table, TriggerEvent::Update, catalog) == Ok::<_, DbErrorView>(r));
    if filter is Some {
        lemma_test_binds(filter->0, t, 64);
    }
    lemma_assignments_bind(assignments, t, " assigned more than once"@, 0, Seq::empty());
    reveal(returning_of);
    reveal(update_parts);
    assert(update_parts(r, assignments, filter, Seq::empty()) is Ok);
    reveal(target_source);
    assert(target_source(r.target, catalog, 0) == Ok::<_, DbErrorView>(None::<BoundStatementView>));
    reveal(statement_of);
}

/// An UPDATE of a table that gives columns of it constants or columns of their types,
/// without a WHERE or with one that tests its rows, binds: it changes that table.
pub proof fn lemma_update_binds(
    table: ParsedObjectNameView,
    assignments: Seq<(ParsedIdentifierView, ParsedExprView)>,
    filter: Option<ParsedExprView>,
    catalog: CatalogView,
    session: Option<SessionView>,
    t: TableDefinitionView,
)
    requires
        table_named(table, catalog, t),
        well_named(t),
        assignable(assignments, t),
        filter_testable(filter, t),
    ensures
        bound_statement(plain_update(table, assignments, filter), catalog, session) matches Ok(b) && b is Update && b->Update_table_id == t.id,
{
    let none: Seq<ParsedProjectionView> = Seq::empty();
    let st = plain_update(table, assignments, filter);
    let c = ResolverView { parameters: Map::empty(), catalog: Some(catalog), session };
    lemma_update_typed(table, assignments, filter, t, c);
    reveal(dml_relation);
    let s = SolverView { types: Map::empty(), changed: false };
    let inputs = with_columns(t.name, t.columns, false, 0, Seq::empty());
    unfold_solve_statement(st, catalog, Seq::empty(), None, 0, s);
    lemma_assignments_solve(assignments, t, catalog, 0, s);
    unfold_solve_some(filter, Some(ScalarTypeView::Boolean), inputs, catalog, 0, s);
    if filter is Some {
        lemma_test_solves(filter->0, t, 64, t.name, catalog, 0, s);
    }
    unfold_solve_items(none, None, inputs, catalog, 0, 0, Seq::empty(), s);
    reveal_with_fuel(solved, 1);
    assert(solved(st, catalog, 128, Map::empty()) == Ok::<_, DbErrorView>(s.types));
    let d = ResolverView { parameters: Map::empty(), catalog: None, session };
    lemma_update_typed(table, assignments, filter, t, d);
    lemma_update_bound(table, assignments, filter, catalog, t);
    reveal(bound_statement);
}

/// Whether a row has a constant of its type for each column of a table.
pub open spec fn row_fits(row: Seq<ParsedExprView>, t: TableDefinitionView) -> bool {
    &&& row.len() == t.columns.len()
    &&& forall|k: int|
        0 <= k < row.len() ==> ((#[trigger] row[k]).kind matches ParsedExprKindView::Literal(v) && type_of_value(v) == Some(
            t.columns[k].data_type,
        ))
}

/// Whether every row has a constant of its type for each column of a table.
pub open spec fn rows_fit(rows: Seq<Seq<ParsedExprView>>, t: TableDefinitionView) -> bool {
    forall|k: int| 0 <= k < rows.len() ==> row_fits(#[trigger] rows[k], t)
}

/// The places of all columns of a table.
pub open spec fn all_places(t: TableDefinitionView) -> Seq<usize> {
    Seq::new(t.columns.len(), |i: int| i as usize)
}

proof fn lemma_row_binds(row: Seq<ParsedExprView>, t: TableDefinitionView, i: int, done: Seq<BoundExprView>)
    requires
        t.columns.len() <= usize::MAX,
        row_fits(row, t),
        0 <= i <= row.len(),
    ensures
        row_values(row, all_places(t), t, table_scope(None), i, done) is Ok,
    decreases row.len() - i,
{
    if i < row.len() {
        let u = t.columns[i].data_type;
        assert(all_places(t)[i] as int == i);
        assert(row[i].kind is Literal);
        let v = row[i].kind->Literal_0;
        crate::types::lemma_value_fits(v);
        if let Ok(b) = bound_form(row[i], table_scope(None), Some(u)) {
            lemma_row_binds(row, t, i + 1, done.push(b));
        }
    }
}

proof fn lemma_rows_bind(rows: Seq<Seq<ParsedExprView>>, t: TableDefinitionView, i: int, done: Seq<Seq<BoundExprView>>)
    requires
        t.columns.len() <= usize::MAX,
        rows_fit(rows, t),
        0 <= i <= rows.len(),
    ensures
        insert_rows(rows, all_places(t), t, i, done) is Ok,
    decreases rows.len() - i,
{
    if i < rows.len() {
        assert(row_fits(rows[i], t));
        lemma_row_binds(rows[i], t, 0, Seq::empty());
        if let Ok(b) = row_values(rows[i], all_places(t), t, table_scope(None), 0, Seq::empty()) {
            lemma_rows_bind(rows, t, i + 1, done.push(b));
        }
    }
}

proof fn lemma_row_typed(row: Seq<ParsedExprView>, t: TableDefinitionView, c: ResolverView, i: int)
    requires
        row_fits(row, t),
        0 <= i <= row.len(),
    ensures
        typed_expr_list(row, c, 0, i, row.take(i)) == Ok::<_, DbErrorView>(row),
    decreases row.len() - i,
{
    unfold_typed_expr_list(row, c, 0, i, row.take(i));
    if i < row.len() {
        assert(row[i].kind is Literal);
        unfold_typed_expr(row[i], c, 0);
        assert(row.take(i).push(row[i]) =~= row.take(i + 1));
        lemma_row_typed(row, t, c, i + 1);
    } else {
        assert(row.take(i) =~= row);
    }
}

proof fn lemma_rows_typed(rows: Seq<Seq<ParsedExprView>>, t: TableDefinitionView, c: ResolverView, i: int)
    requires
        rows_fit(rows, t),
        0 <= i <= rows.len(),
    ensures
        typed_rows(rows, c, 0, i, rows.take(i)) == Ok::<_, DbErrorView>(rows),
    decreases rows.len() - i,
{
    unfold_typed_rows(rows, c, 0, i, rows.take(i));
    if i < rows.len() {
        assert(row_fits(rows[i], t));
        assert(rows[i].take(0) =~= Seq::empty());
        lemma_row_typed(rows[i], t, c, 0);
        assert(rows.take(i).push(rows[i]) =~= rows.take(i + 1));
        lemma_rows_typed(rows, t, c, i + 1);
    } else {
        assert(rows.take(i) =~= rows);
    }
}

proof fn lemma_row_solves(row: Seq<ParsedExprView>, t: TableDefinitionView, catalog: CatalogView, i: int, s: SolverView)
    requires
        row_fits(row, t),
        0 <= i <= row.len(),
    ensures
        solve_values(row, all_places(t), t, Seq::empty(), catalog, 0, i, s) == (s, Ok::<(), DbErrorView>(())),
    decreases row.len() - i,
{
    unfold_solve_values(row, all_places(t), t, Seq::empty(), catalog, 0, i, s);
    if i < row.len() {
        assert(row[i].kind is Literal);
        unfold_solve_expr(row[i], Some(t.columns[all_places(t)[i] as int].data_type), Seq::empty(), catalog, 0, s);
        lemma_row_solves(row, t, catalog, i + 1, s);
    }
}

proof fn lemma_rows_solve(rows: Seq<Seq<ParsedExprView>>, t: TableDefinitionView, catalog: CatalogView, i: int, s: SolverView)
    requires
        rows_fit(rows, t),
        0 <= i <= rows.len(),
    ensures
        solve_rows(rows, all_places(t), t, Seq::empty(), catalog, 0, i, s) == (s, Ok::<(), DbErrorView>(())),
    decreases rows.len() - i,
{
    unfold_solve_rows(rows, all_places(t), t, Seq::empty(), catalog, 0, i, s);
    if i < rows.len() {
        assert(row_fits(rows[i], t));
        lemma_row_solves(rows[i], t, catalog, 0, s);
        lemma_rows_solve(rows, t, catalog, i + 1, s);
    }
}

/// The INSERT of rows into all columns of a table.
pub open spec fn plain_insert(table: ParsedObjectNameView, rows: Seq<Seq<ParsedExprView>>) -> ParsedStatementView {
    ParsedStatementView::Insert { table, columns: Seq::empty(), rows, on_conflict: None, returning: Seq::empty() }
}

proof fn lemma_insert_typed(table: ParsedObjectNameView, rows: Seq<Seq<ParsedExprView>>, t: TableDefinitionView, c: ResolverView)
    requires
        rows_fit(rows, t),
    ensures
        typed_statement(plain_insert(table, rows), c, 0) == Ok::<_, DbErrorView>(plain_insert(table, rows)),
{
    let none: Seq<ParsedProjectionView> = Seq::empty();
    unfold_typed_statement(plain_insert(table, rows), c, 0);
    unfold_typed_projection_list(none, c, 0, 0, none);
    assert(rows.take(0) =~= Seq::empty());
    lemma_rows_typed(rows, t, c, 0);
}

proof fn lemma_insert_bound(
    table: ParsedObjectNameView,
    rows: Seq<Seq<ParsedExprView>>,
    catalog: CatalogView,
    t: TableDefinitionView,
)
    requires
        table_named(table, catalog, t),
        well_named(t),
        rows_fit(rows, t),
        rows.len() > 0,
    ensures
        statement_of(plain_insert(table, rows), catalog, 0) matches Ok(b) && b is Insert && b->Insert_table_id == t.id,
{
    reveal(dml_relation);
    let r = DmlRelationView { target: DmlTarget::Table(t.id), scope: t };
    assert(dml_relation(table, TriggerEvent::Insert, catalog) == Ok::<_, DbErrorView>(r));
    lemma_rows_bind(rows, t, 0, Seq::empty());
    assert(target_columns(Seq::empty(), t) == Ok::<_, DbErrorView>(all_places(t)));
    reveal(returning_of);
    reveal(insert_parts);
    assert(insert_parts(r, Seq::empty(), rows, None, Seq::empty()) is Ok);
    reveal(target_source);
    assert(target_source(r.target, catalog, 0) == Ok::<_, DbErrorView>(None::<BoundStatementView>));
    reveal(statement_of);
}

/// An INSERT of rows of constants, one of its type for each column of a table, binds: it
/// fills that table.
pub proof fn lemma_insert_binds(
    table: ParsedObjectNameView,
    rows: Seq<Seq<ParsedExprView>>,
    catalog: CatalogView,
    session: Option<SessionView>,
    t: TableDefinitionView,
)
    requires
        table_named(table, catalog, t),
        well_named(t),
        rows_fit(rows, t),
        rows.len() > 0,
    ensures
        bound_statement(plain_insert(table, rows), catalog, session) matches Ok(b) && b is Insert && b->Insert_table_id == t.id,
{
    let none: Seq<ParsedProjectionView> = Seq::empty();
    let st = plain_insert(table, rows);
    let c = ResolverView { parameters: Map::empty(), catalog: Some(catalog), session };
    lemma_insert_typed(table, rows, t, c);
    reveal(dml_relation);
    let s = SolverView { types: Map::empty(), changed: false };
    let inputs = with_columns(t.name, t.columns, false, 0, Seq::empty());
    unfold_solve_statement(st, catalog, Seq::empty(), None, 0, s);
    unfold_solve_insert(table, Seq::empty(), rows, None, none, None, catalog, 0, s);
    assert(target_places(Seq::empty(), t) == Ok::<_, DbErrorView>(all_places(t)));
    lemma_rows_solve(rows, t, catalog, 0, s);
    unfold_solve_items(none, None, inputs, catalog, 0, 0, Seq::empty(), s);
    reveal_with_fuel(solved, 1);
    assert(solved(st, catalog, 128, Map::empty()) == Ok::<_, DbErrorView>(s.types));
    let d = ResolverView { parameters: Map::empty(), catalog: None, session };
    lemma_insert_typed(table, rows, t, d);
    lemma_insert_bound(table, rows, catalog, t);
    reveal(bound_statement);
}

} // verus!
