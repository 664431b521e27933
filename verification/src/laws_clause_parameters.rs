//! The types of parameters in ON CONFLICT and in the clauses of a MERGE.

use vstd::prelude::*;

use crate::catalog::{CatalogView, TableDefinitionView, TriggerEvent};
use crate::dml::{conflict_inputs, dml_relation};
use crate::inputs::with_columns;
use crate::laws_growth::{grows_clauses, grows_items, grows_values};
use crate::laws_parameters::{assignment_asks, lemma_assignments_want, lemma_some, place_type, lemma_places};
use crate::laws_solver::{asks, clause_asks, known, lemma_asked_is_known};
use crate::names::named_table;
use crate::scope::InputColumnView;
use crate::solver_rules::{
    merge_inputs, solve_assignments, solve_clauses, solve_conflict, solve_expr, solve_rows, solve_some, solve_statement, solve_values,
    solved, target_places, unfold_solve_clauses, unfold_solve_conflict, unfold_solve_insert, unfold_solve_merge, unfold_solve_statement,
    unfold_solve_values, SolverView,
};
use crate::syntax::{
    ParsedConflictActionView, ParsedExprView, ParsedIdentifierView, ParsedMergeActionView, ParsedMergeClauseView, ParsedOnConflictView,
    ParsedStatementView,
};
use crate::types::ScalarTypeView;
use crate::catalog::find_column_index;

verus! {

/// Whether an ON CONFLICT DO UPDATE asks a parameter to have a type: a value for the type of
/// its column, its WHERE for a boolean.
pub open spec fn conflict_asks(on: ParsedOnConflictView, table: TableDefinitionView, n: usize, t: ScalarTypeView) -> bool {
    on.action matches ParsedConflictActionView::DoUpdate { assignments, filter } && (assignment_asks(
        assignments,
        table,
        conflict_inputs(table),
        n,
        t,
    ) || clause_asks(filter, ScalarTypeView::Boolean, conflict_inputs(table), n, t))
}

proof fn lemma_list_wants(
    l: Seq<(ParsedIdentifierView, ParsedExprView)>,
    table: TableDefinitionView,
    inputs: Seq<InputColumnView>,
    catalog: CatalogView,
    s: SolverView,
    n: usize,
    t: ScalarTypeView,
)
    requires
        assignment_asks(l, table, inputs, n, t),
    ensures
        solve_assignments(l, table, inputs, catalog, 0, 0, s).1 is Ok ==> known(
            solve_assignments(l, table, inputs, catalog, 0, 0, s).0,
            n,
            t,
        ),
{
    let k = choose|k: int|
        0 <= k < l.len() && (find_column_index(table.columns, (#[trigger] l[k]).0.name, 0) matches Some(c) && asks(
            l[k].1,
            Some(table.columns[c as int].data_type),
            inputs,
            n,
            t,
        ));
    lemma_assignments_want(l, table, inputs, catalog, 0, k, 0, s, n, t);
}

proof fn lemma_conflict_wants(
    on: ParsedOnConflictView,
    table: TableDefinitionView,
    catalog: CatalogView,
    s: SolverView,
    n: usize,
    t: ScalarTypeView,
)
    requires
        conflict_asks(on, table, n, t),
    ensures
        solve_conflict(on, table, catalog, 0, s).1 is Ok ==> known(solve_conflict(on, table, catalog, 0, s).0, n, t),
{
    unfold_solve_conflict(on, table, catalog, 0, s);
    if let ParsedConflictActionView::DoUpdate { assignments, filter } = on.action {
        let inputs = conflict_inputs(table);
        if assignment_asks(assignments, table, inputs, n, t) {
            lemma_list_wants(assignments, table, inputs, catalog, s, n, t);
        }
        let s1 = solve_assignments(assignments, table, inputs, catalog, 0, 0, s).0;
        lemma_some(filter, ScalarTypeView::Boolean, inputs, catalog, 0, s1, n, t);
    }
}

/// The types that are found for the parameters of an INSERT are those that its ON CONFLICT
/// asks for.
pub proof fn lemma_conflict_parameters(
    st: ParsedStatementView,
    catalog: CatalogView,
    passes: nat,
    types: Map<usize, ScalarTypeView>,
    n: usize,
    t: ScalarTypeView,
)
    requires
        st matches ParsedStatementView::Insert { table, on_conflict, .. } && on_conflict is Some && (dml_relation(
            table,
            TriggerEvent::Insert,
            catalog,
        ) matches Ok(r) && conflict_asks(on_conflict->0, r.scope, n, t)),
    ensures
        solved(st, catalog, passes, types) matches Ok(m) ==> m.dom().contains(n) && m[n] == t,
    decreases passes,
{
    if passes > 0 {
        let s = SolverView { types, changed: false };
        unfold_solve_statement(st, catalog, Seq::empty(), None, 0, s);
        if let ParsedStatementView::Insert { table, columns, rows, on_conflict, returning } = st {
            unfold_solve_insert(table, columns, rows, on_conflict, returning, None, catalog, 0, s);
            let r = dml_relation(table, TriggerEvent::Insert, catalog)->Ok_0;
            let inputs = with_columns(r.scope.name, r.scope.columns, false, 0, Seq::empty());
            if let Ok(indexes) = target_places(columns, r.scope) {
                let s1 = solve_rows(rows, indexes, r.scope, Seq::empty(), catalog, 0, 0, s).0;
                lemma_conflict_wants(on_conflict->0, r.scope, catalog, s1, n, t);
                let s2 = solve_conflict(on_conflict->0, r.scope, catalog, 0, s1).0;
                grows_items(returning, None, inputs, catalog, 0, 0, Seq::empty(), s2);
            }
        }
        let r = solve_statement(st, catalog, Seq::empty(), None, 0, s);
        if r.1 is Ok && r.0.changed {
            lemma_conflict_parameters(st, catalog, (passes - 1) as nat, r.0.types, n, t);
        }
    }
}

/// Whether the action of a MERGE clause asks a parameter to have the type of a column.
pub open spec fn action_asks(
    c: ParsedMergeClauseView,
    table: TableDefinitionView,
    inputs: Seq<InputColumnView>,
    n: usize,
    t: ScalarTypeView,
) -> bool {
    match c.action {
        ParsedMergeActionView::Update { assignments } => assignment_asks(assignments, table, inputs, n, t),
        ParsedMergeActionView::Insert { columns, values } => exists|k: int|
            0 <= k < values.len() && place_type(columns, table, k) is Some && asks(
                #[trigger] values[k],
                place_type(columns, table, k),
                inputs,
                n,
                t,
            ),
        _ => false,
    }
}

proof fn lemma_values_want(
    l: Seq<ParsedExprView>,
    indexes: Seq<usize>,
    table: TableDefinitionView,
    inputs: Seq<InputColumnView>,
    catalog: CatalogView,
    k: int,
    i: int,
    s: SolverView,
    n: usize,
    t: ScalarTypeView,
)
    requires
        0 <= i <= k < l.len(),
        k < indexes.len(),
        asks(l[k], Some(table.columns[indexes[k] as int].data_type), inputs, n, t),
    ensures
        solve_values(l, indexes, table, inputs, catalog, 0, i, s).1 is Ok ==> known(
            solve_values(l, indexes, table, inputs, catalog, 0, i, s).0,
            n,
            t,
        ),
    decreases l.len() - i,
{
    unfold_solve_values(l, indexes, table, inputs, catalog, 0, i, s);
    let expected = Some(table.columns[indexes[i] as int].data_type);
    let s1 = solve_expr(l[i], expected, inputs, catalog, 0, s).0;
    grows_values(l, indexes, table, inputs, catalog, 0, i + 1, s1);
    if i == k {
        lemma_asked_is_known(l[i], expected, inputs, catalog, 0, s, n, t);
    } else {
        lemma_values_want(l, indexes, table, inputs, catalog, k, i + 1, s1, n, t);
    }
}

proof fn lemma_clauses_want(
    l: Seq<ParsedMergeClauseView>,
    table: TableDefinitionView,
    inputs: Seq<InputColumnView>,
    catalog: CatalogView,
    k: int,
    i: int,
    s: SolverView,
    n: usize,
    t: ScalarTypeView,
)
    requires
        0 <= i <= k < l.len(),
        table.columns.len() <= usize::MAX,
        action_asks(l[k], table, inputs, n, t),
    ensures
        solve_clauses(l, table, inputs, catalog, 0, i, s).1 is Ok ==> known(solve_clauses(l, table, inputs, catalog, 0, i, s).0, n, t),
    decreases l.len() - i,
{
    unfold_solve_clauses(l, table, inputs, catalog, 0, i, s);
    let s1 = solve_some(l[i].predicate, Some(ScalarTypeView::Boolean), inputs, catalog, 0, s).0;
    let (s2, _) = match l[i].action {
        ParsedMergeActionView::Update { assignments } => solve_assignments(assignments, table, inputs, catalog, 0, 0, s1),
        ParsedMergeActionView::Insert { columns, values } => match target_places(columns, table) {
            Err(x) => (s1, Err(x)),
            Ok(indexes) => solve_values(values, indexes, table, inputs, catalog, 0, 0, s1),
        },
        _ => (s1, Ok(())),
    };
    grows_clauses(l, table, inputs, catalog, 0, i + 1, s2);
    if i < k {
        lemma_clauses_want(l, table, inputs, catalog, k, i + 1, s2, n, t);
    } else {
        match l[i].action {
            ParsedMergeActionView::Update { assignments } => lemma_list_wants(assignments, table, inputs, catalog, s1, n, t),
            ParsedMergeActionView::Insert { columns, values } => {
                if let Ok(indexes) = target_places(columns, table) {
                    let j = choose|j: int|
                        0 <= j < values.len() && place_type(columns, table, j) is Some && asks(
                            #[trigger] values[j],
                            place_type(columns, table, j),
                            inputs,
                            n,
                            t,
                        );
                    if columns.len() > 0 {
                        lemma_places(columns, table, 0, Seq::empty());
                        assert(find_column_index(table.columns, columns[j].name, 0) == Some(indexes[j]));
                    }
                    assert(place_type(columns, table, j) == Some(table.columns[indexes[j] as int].data_type));
                    lemma_values_want(values, indexes, table, inputs, catalog, j, 0, s1, n, t);
                }
            },
            _ => {},
        }
    }
}

/// The types that are found for the parameters of a MERGE are those that its actions ask
/// for: a value that is assigned or inserted has the type of its column.
pub proof fn lemma_merge_parameters(
    st: ParsedStatementView,
    catalog: CatalogView,
    passes: nat,
    types: Map<usize, ScalarTypeView>,
    k: int,
    n: usize,
    t: ScalarTypeView,
)
    requires
        st matches ParsedStatementView::Merge(m) && 0 <= k < m.clauses.len() && (named_table(m.target.name, catalog) matches Ok(target)
            && target.columns.len() <= usize::MAX && (named_table(m.source.name, catalog) matches Ok(source) && action_asks(
            m.clauses[k],
            target,
            merge_inputs(m, target, source),
            n,
            t,
        ))),
    ensures
        solved(st, catalog, passes, types) matches Ok(m) ==> m.dom().contains(n) && m[n] == t,
    decreases passes,
{
    if passes > 0 {
        let s = SolverView { types, changed: false };
        unfold_solve_statement(st, catalog, Seq::empty(), None, 0, s);
        if let ParsedStatementView::Merge(m) = st {
            unfold_solve_merge(m, None, catalog, 0, s);
            let target = named_table(m.target.name, catalog)->Ok_0;
            let source = named_table(m.source.name, catalog)->Ok_0;
            let inputs = merge_inputs(m, target, source);
            let s1 = solve_expr(m.on, Some(ScalarTypeView::Boolean), inputs, catalog, 0, s).0;
            lemma_clauses_want(m.clauses, target, inputs, catalog, k, 0, s1, n, t);
            let s2 = solve_clauses(m.clauses, target, inputs, catalog, 0, 0, s1).0;
            grows_items(
                m.returning,
                None,
                with_columns(target.name, target.columns, false, 0, Seq::empty()),
                catalog,
                0,
                0,
                Seq::empty(),
                s2,
            );
        }
        let r = solve_statement(st, catalog, Seq::empty(), None, 0, s);
        if r.1 is Ok && r.0.changed {
            lemma_merge_parameters(st, catalog, (passes - 1) as nat, r.0.types, k, n, t);
        }
    }
}

} // verus!
