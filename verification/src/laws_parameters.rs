//! The type that a clause of a statement asks of a parameter is the type that is found.

use vstd::prelude::*;

use crate::catalog::{find_column_index, CatalogView, TableDefinitionView, TriggerEvent};
use crate::dml::dml_relation;
use crate::inputs::{with_columns, with_outer};
use crate::laws_growth::{
    grows_assignments, grows_clauses, grows_conflict, grows_each, grows_items, grows_joins, grows_page, grows_rows, grows_some,
    grows_values,
};
use crate::laws_solver::{always_asks, asks, clause_asks, known, lemma_asked_is_known};
use crate::names::named_table;
use crate::query_rules::SelectPartsView;
use crate::scope::InputColumnView;
use crate::solver_rules::{
    alias_name, grown, merge_inputs, output_types, relation_inputs, solve_advanced, solve_assignments, solve_clauses, solve_each,
    solve_expr, solve_joins, solve_orders, solve_page, solve_pair, solve_rows, solve_select, solve_set, solve_some, solve_source,
    solve_statement, solve_values, solved, target_places, unfold_solve_advanced, unfold_solve_assignments, unfold_solve_clauses,
    unfold_solve_insert, unfold_solve_joins, unfold_solve_merge, unfold_solve_page, unfold_solve_rows, unfold_solve_select,
    unfold_solve_set, unfold_solve_some, unfold_solve_statement, unfold_solve_values, SolverView,
};
use crate::syntax::{
    JoinKind, ParsedExprKindView, ParsedExprView, ParsedIdentifierView, ParsedJoinView, ParsedMergeActionView, ParsedMergeClauseView,
    ParsedOrderView, ParsedSequenceOperationView, ParsedStatementView, ParsedTableView,
};
use crate::types::{DbErrorView, ScalarTypeView};

verus! {

/// Whether an assignment asks its value to have the type of its column.
pub open spec fn assignment_asks(
    l: Seq<(ParsedIdentifierView, ParsedExprView)>,
    table: TableDefinitionView,
    inputs: Seq<InputColumnView>,
    n: usize,
    t: ScalarTypeView,
) -> bool {
    exists|k: int|
        0 <= k < l.len() && (find_column_index(table.columns, (#[trigger] l[k]).0.name, 0) matches Some(c) && asks(
            l[k].1,
            Some(table.columns[c as int].data_type),
            inputs,
            n,
            t,
        ))
}

/// The type of the column that a value of a row is for: that of the column list at its
/// place, or of the table where there is no list.
pub open spec fn place_type(columns: Seq<ParsedIdentifierView>, table: TableDefinitionView, k: int) -> Option<ScalarTypeView> {
    if columns.len() == 0 {
        if k < table.columns.len() {
            Some(table.columns[k].data_type)
        } else {
            None
        }
    } else if k < columns.len() {
        match find_column_index(table.columns, columns[k].name, 0) {
            Some(c) => Some(table.columns[c as int].data_type),
            None => None,
        }
    } else {
        None
    }
}

/// Whether a value of a row asks to have the type of its column.
pub open spec fn row_asks(
    row: Seq<ParsedExprView>,
    columns: Seq<ParsedIdentifierView>,
    table: TableDefinitionView,
    n: usize,
    t: ScalarTypeView,
) -> bool {
    exists|k: int|
        0 <= k < row.len() && place_type(columns, table, k) is Some && asks(
            #[trigger] row[k],
            place_type(columns, table, k),
            Seq::empty(),
            n,
            t,
        )
}

/// Whether a statement asks a parameter to have a type: a WHERE, HAVING or ON asks for a
/// boolean, OFFSET and LIMIT for a 64-bit integer, and a value that is inserted or
/// assigned for the type of its column.
pub open spec fn wants(st: ParsedStatementView, catalog: CatalogView, n: usize, t: ScalarTypeView) -> bool {
    match st {
        ParsedStatementView::Select { table, filter, offset, limit, .. } => relation_inputs(
            table,
            None,
            catalog,
            false,
            Seq::empty(),
        ) matches Ok(inputs) && {
            ||| clause_asks(filter, ScalarTypeView::Boolean, inputs, n, t)
            ||| clause_asks(offset, ScalarTypeView::Int64, inputs, n, t)
            ||| clause_asks(limit, ScalarTypeView::Int64, inputs, n, t)
        },
        ParsedStatementView::AdvancedSelect { table, joins, filter, having, offset, limit, .. } => {
            ||| always_asks(filter, ScalarTypeView::Boolean, n, t)
            ||| always_asks(having, ScalarTypeView::Boolean, n, t)
            ||| always_asks(offset, ScalarTypeView::Int64, n, t)
            ||| always_asks(limit, ScalarTypeView::Int64, n, t)
            ||| exists|k: int| 0 <= k < joins.len() && always_asks(Some((#[trigger] joins[k]).on), ScalarTypeView::Boolean, n, t)
            ||| joins.len() == 0 && (relation_inputs(table.name, alias_name(table.alias), catalog, false, Seq::empty()) matches Ok(inputs) && {
                ||| clause_asks(filter, ScalarTypeView::Boolean, inputs, n, t)
                ||| clause_asks(having, ScalarTypeView::Boolean, inputs, n, t)
            })
        },
        ParsedStatementView::SetOperation { offset, limit, .. } => {
            ||| clause_asks(offset, ScalarTypeView::Int64, Seq::empty(), n, t)
            ||| clause_asks(limit, ScalarTypeView::Int64, Seq::empty(), n, t)
        },
        ParsedStatementView::Delete { table, filter, .. } => dml_relation(table, TriggerEvent::Delete, catalog) matches Ok(r) && clause_asks(
            filter,
            ScalarTypeView::Boolean,
            with_columns(r.scope.name, r.scope.columns, false, 0, Seq::empty()),
            n,
            t,
        ),
        ParsedStatementView::Update { table, assignments, filter, .. } => dml_relation(table, TriggerEvent::Update, catalog) matches Ok(r) && {
            let inputs = with_columns(r.scope.name, r.scope.columns, false, 0, Seq::empty());
            ||| clause_asks(filter, ScalarTypeView::Boolean, inputs, n, t)
            ||| assignment_asks(assignments, r.scope, inputs, n, t)
        },
        ParsedStatementView::Insert { table, columns, rows, .. } => dml_relation(table, TriggerEvent::Insert, catalog) matches Ok(r) && exists|
            i: int,
        | 0 <= i < rows.len() && row_asks(#[trigger] rows[i], columns, r.scope, n, t),
        ParsedStatementView::Merge(m) => named_table(m.target.name, catalog) matches Ok(target) && (named_table(
            m.source.name,
            catalog,
        ) matches Ok(source) && {
            let inputs = merge_inputs(m, target, source);
            ||| clause_asks(Some(m.on), ScalarTypeView::Boolean, inputs, n, t)
            ||| exists|k: int|
                0 <= k < m.clauses.len() && clause_asks((#[trigger] m.clauses[k]).predicate, ScalarTypeView::Boolean, inputs, n, t)
        }),
        ParsedStatementView::SequenceValue { operation, .. } => operation matches ParsedSequenceOperationView::SetValue { value, .. } && asks(
            value,
            Some(ScalarTypeView::Int64),
            Seq::empty(),
            n,
            t,
        ),
        _ => false,
    }
}

pub(crate) proof fn lemma_some(
    e: Option<ParsedExprView>,
    expected: ScalarTypeView,
    inputs: Seq<InputColumnView>,
    catalog: CatalogView,
    depth: usize,
    s: SolverView,
    n: usize,
    t: ScalarTypeView,
)
    ensures
        grown(s, solve_some(e, Some(expected), inputs, catalog, depth, s).0),
        clause_asks(e, expected, inputs, n, t) && solve_some(e, Some(expected), inputs, catalog, depth, s).1 is Ok ==> known(
            solve_some(e, Some(expected), inputs, catalog, depth, s).0,
            n,
            t,
        ),
{
    grows_some(e, Some(expected), inputs, catalog, depth, s);
    unfold_solve_some(e, Some(expected), inputs, catalog, depth, s);
    if clause_asks(e, expected, inputs, n, t) {
        lemma_asked_is_known(e->0, Some(expected), inputs, catalog, depth, s, n, t);
    }
}

/// OFFSET and LIMIT ask for a 64-bit integer.
pub proof fn lemma_page_wants(
    order_by: Seq<ParsedOrderView>,
    offset: Option<ParsedExprView>,
    limit: Option<ParsedExprView>,
    inputs: Seq<InputColumnView>,
    catalog: CatalogView,
    depth: usize,
    s: SolverView,
    n: usize,
    t: ScalarTypeView,
)
    requires
        clause_asks(offset, ScalarTypeView::Int64, inputs, n, t) || clause_asks(limit, ScalarTypeView::Int64, inputs, n, t),
    ensures
        solve_page(order_by, offset, limit, inputs, catalog, depth, s).1 is Ok ==> known(
            solve_page(order_by, offset, limit, inputs, catalog, depth, s).0,
            n,
            t,
        ),
{
    unfold_solve_page(order_by, offset, limit, inputs, catalog, depth, s);
    let s1 = solve_orders(order_by, inputs, catalog, depth, 0, s).0;
    lemma_some(offset, ScalarTypeView::Int64, inputs, catalog, depth, s1, n, t);
    let s2 = solve_some(offset, Some(ScalarTypeView::Int64), inputs, catalog, depth, s1).0;
    lemma_some(limit, ScalarTypeView::Int64, inputs, catalog, depth, s2, n, t);
}

proof fn lemma_select_wants(
    p: SelectPartsView,
    st: ParsedStatementView,
    catalog: CatalogView,
    depth: usize,
    s: SolverView,
    n: usize,
    t: ScalarTypeView,
)
    requires
        st matches ParsedStatementView::Select { table, projection, filter, order_by, offset, limit } && p == (SelectPartsView {
            table: ParsedTableView { name: table, alias: None },
            joins: Seq::empty(),
            projection,
            distinct: false,
            filter,
            group_by: Seq::empty(),
            having: None,
            order_by,
            offset,
            limit,
        }),
        wants(st, catalog, n, t),
    ensures
        solve_select(p, Seq::empty(), None, catalog, depth, s).1 is Ok ==> known(
            solve_select(p, Seq::empty(), None, catalog, depth, s).0,
            n,
            t,
        ),
{
    unfold_solve_select(p, Seq::empty(), None, catalog, depth, s);
    let inputs = relation_inputs(p.table.name, None, catalog, false, Seq::empty())->Ok_0;
    lemma_some(p.filter, ScalarTypeView::Boolean, inputs, catalog, depth, s, n, t);
    let s1 = solve_some(p.filter, Some(ScalarTypeView::Boolean), inputs, catalog, depth, s).0;
    grows_page(p.order_by, p.offset, p.limit, inputs, catalog, depth, s1);
    if clause_asks(p.offset, ScalarTypeView::Int64, inputs, n, t) || clause_asks(p.limit, ScalarTypeView::Int64, inputs, n, t) {
        lemma_page_wants(p.order_by, p.offset, p.limit, inputs, catalog, depth, s1, n, t);
    }
    let s2 = solve_page(p.order_by, p.offset, p.limit, inputs, catalog, depth, s1).0;
    grows_items(p.projection, None, inputs, catalog, depth, 0, Seq::empty(), s2);
}

proof fn lemma_joins_want(
    l: Seq<ParsedJoinView>,
    catalog: CatalogView,
    depth: usize,
    k: int,
    i: int,
    local: Seq<InputColumnView>,
    s: SolverView,
    n: usize,
    t: ScalarTypeView,
)
    requires
        0 <= i <= k < l.len(),
        always_asks(Some(l[k].on), ScalarTypeView::Boolean, n, t),
    ensures
        solve_joins(l, Seq::empty(), catalog, depth, i, local, s).1 is Ok ==> known(
            solve_joins(l, Seq::empty(), catalog, depth, i, local, s).0,
            n,
            t,
        ),
    decreases l.len() - i,
{
    unfold_solve_joins(l, Seq::empty(), catalog, depth, i, local, s);
    let (s1, found) = solve_source(l[i].source, l[i].kind == JoinKind::Left, Seq::empty(), catalog, depth, local, s);
    if found is Ok {
        let next = found->Ok_0;
        let inputs = with_outer(Seq::empty(), 0, next)->Ok_0;
        let s2 = solve_expr(l[i].on, Some(ScalarTypeView::Boolean), inputs, catalog, depth, s1).0;
        grows_joins(l, Seq::empty(), catalog, depth, i + 1, next, s2);
        if i == k {
            assert(clause_asks(Some(l[k].on), ScalarTypeView::Boolean, inputs, n, t));
            lemma_asked_is_known(l[i].on, Some(ScalarTypeView::Boolean), inputs, catalog, depth, s1, n, t);
        } else {
            lemma_joins_want(l, catalog, depth, k, i + 1, next, s2, n, t);
        }
    }
}

proof fn lemma_advanced_wants(
    p: SelectPartsView,
    catalog: CatalogView,
    depth: usize,
    s: SolverView,
    n: usize,
    t: ScalarTypeView,
)
    requires
        wants(
            ParsedStatementView::AdvancedSelect {
                table: p.table,
                joins: p.joins,
                projection: p.projection,
                distinct: p.distinct,
                filter: p.filter,
                group_by: p.group_by,
                having: p.having,
                order_by: p.order_by,
                offset: p.offset,
                limit: p.limit,
            },
            catalog,
            n,
            t,
        ),
    ensures
        solve_advanced(p, Seq::empty(), None, catalog, depth, s).1 is Ok ==> known(
            solve_advanced(p, Seq::empty(), None, catalog, depth, s).0,
            n,
            t,
        ),
{
    unfold_solve_advanced(p, Seq::empty(), None, catalog, depth, s);
    let boolean = Some(ScalarTypeView::Boolean);
    if let Ok(own) = relation_inputs(p.table.name, alias_name(p.table.alias), catalog, false, Seq::empty()) {
        let (s1, found) = solve_joins(p.joins, Seq::empty(), catalog, depth, 0, own, s);
        grows_joins(p.joins, Seq::empty(), catalog, depth, 0, own, s);
        unfold_solve_joins(p.joins, Seq::empty(), catalog, depth, 0, own, s);
        if exists|k: int| 0 <= k < p.joins.len() && always_asks(Some((#[trigger] p.joins[k]).on), ScalarTypeView::Boolean, n, t) {
            let k = choose|k: int| 0 <= k < p.joins.len() && always_asks(Some((#[trigger] p.joins[k]).on), ScalarTypeView::Boolean, n, t);
            lemma_joins_want(p.joins, catalog, depth, k, 0, own, s, n, t);
        }
        if found is Ok {
            let local = found->Ok_0;
            let inputs = with_outer(Seq::empty(), 0, local)->Ok_0;
            assert(always_asks(p.filter, ScalarTypeView::Boolean, n, t) ==> clause_asks(p.filter, ScalarTypeView::Boolean, inputs, n, t));
            assert(always_asks(p.having, ScalarTypeView::Boolean, n, t) ==> clause_asks(p.having, ScalarTypeView::Boolean, inputs, n, t));
            assert(always_asks(p.offset, ScalarTypeView::Int64, n, t) ==> clause_asks(p.offset, ScalarTypeView::Int64, inputs, n, t));
            assert(always_asks(p.limit, ScalarTypeView::Int64, n, t) ==> clause_asks(p.limit, ScalarTypeView::Int64, inputs, n, t));
            lemma_some(p.filter, ScalarTypeView::Boolean, inputs, catalog, depth, s1, n, t);
            let s2 = solve_some(p.filter, boolean, inputs, catalog, depth, s1).0;
            grows_each(p.group_by, None, inputs, catalog, depth, 0, s2);
            let s3 = solve_each(p.group_by, None, inputs, catalog, depth, 0, s2).0;
            lemma_some(p.having, ScalarTypeView::Boolean, inputs, catalog, depth, s3, n, t);
            let s4 = solve_some(p.having, boolean, inputs, catalog, depth, s3).0;
            grows_page(p.order_by, p.offset, p.limit, inputs, catalog, depth, s4);
            if clause_asks(p.offset, ScalarTypeView::Int64, inputs, n, t) || clause_asks(p.limit, ScalarTypeView::Int64, inputs, n, t) {
                lemma_page_wants(p.order_by, p.offset, p.limit, inputs, catalog, depth, s4, n, t);
            }
            let s5 = solve_page(p.order_by, p.offset, p.limit, inputs, catalog, depth, s4).0;
            grows_items(p.projection, None, local, catalog, depth, 0, Seq::empty(), s5);
        }
    }
}

proof fn lemma_set_wants(
    left: ParsedStatementView,
    right: ParsedStatementView,
    offset: Option<ParsedExprView>,
    limit: Option<ParsedExprView>,
    catalog: CatalogView,
    depth: usize,
    s: SolverView,
    n: usize,
    t: ScalarTypeView,
)
    requires
        clause_asks(offset, ScalarTypeView::Int64, Seq::empty(), n, t) || clause_asks(limit, ScalarTypeView::Int64, Seq::empty(), n, t),
    ensures
        solve_set(left, right, offset, limit, Seq::empty(), None, catalog, depth, s).1 is Ok ==> known(
            solve_set(left, right, offset, limit, Seq::empty(), None, catalog, depth, s).0,
            n,
            t,
        ),
{
    unfold_solve_set(left, right, offset, limit, Seq::empty(), None, catalog, depth, s);
    let (s1, r) = solve_pair(left, right, None, Seq::empty(), catalog, depth, s);
    if r is Ok {
        let (a, b) = r->Ok_0;
        let (s2, _) = if a.len() == b.len() {
            solve_pair(left, right, Some(output_types(a, b)), Seq::empty(), catalog, depth, s1)
        } else {
            (s1, Ok((a, b)))
        };
        lemma_some(offset, ScalarTypeView::Int64, Seq::empty(), catalog, depth, s2, n, t);
        let s3 = solve_some(offset, Some(ScalarTypeView::Int64), Seq::empty(), catalog, depth, s2).0;
        lemma_some(limit, ScalarTypeView::Int64, Seq::empty(), catalog, depth, s3, n, t);
    }
}

pub(crate) proof fn lemma_assignments_want(
    l: Seq<(ParsedIdentifierView, ParsedExprView)>,
    table: TableDefinitionView,
    inputs: Seq<InputColumnView>,
    catalog: CatalogView,
    depth: usize,
    k: int,
    i: int,
    s: SolverView,
    n: usize,
    t: ScalarTypeView,
)
    requires
        0 <= i <= k < l.len(),
        find_column_index(table.columns, l[k].0.name, 0) matches Some(c) && asks(
            l[k].1,
            Some(table.columns[c as int].data_type),
            inputs,
            n,
            t,
        ),
    ensures
        solve_assignments(l, table, inputs, catalog, depth, i, s).1 is Ok ==> known(
            solve_assignments(l, table, inputs, catalog, depth, i, s).0,
            n,
            t,
        ),
    decreases l.len() - i,
{
    unfold_solve_assignments(l, table, inputs, catalog, depth, i, s);
    match find_column_index(table.columns, l[i].0.name, 0) {
        None => lemma_assignments_want(l, table, inputs, catalog, depth, k, i + 1, s, n, t),
        Some(c) => {
            let expected = Some(table.columns[c as int].data_type);
            let s1 = solve_expr(l[i].1, expected, inputs, catalog, depth, s).0;
            grows_assignments(l, table, inputs, catalog, depth, i + 1, s1);
            if i == k {
                lemma_asked_is_known(l[i].1, expected, inputs, catalog, depth, s, n, t);
            } else {
                lemma_assignments_want(l, table, inputs, catalog, depth, k, i + 1, s1, n, t);
            }
        },
    }
}

pub(crate) proof fn lemma_places(l: Seq<ParsedIdentifierView>, table: TableDefinitionView, i: int, done: Seq<usize>)
    requires
        0 <= i <= l.len(),
        done.len() == i,
        forall|k: int| 0 <= k < i ==> find_column_index(table.columns, l[k].name, 0) == Some(#[trigger] done[k]),
    ensures
        crate::solver_rules::places_of(l, table, i, done) matches Ok(r) ==> r.len() == l.len() && forall|k: int|
            0 <= k < l.len() ==> find_column_index(table.columns, l[k].name, 0) == Some(#[trigger] r[k]),
    decreases l.len() - i,
{
    if i < l.len() {
        if let Some(k) = find_column_index(table.columns, l[i].name, 0) {
            lemma_places(l, table, i + 1, done.push(k));
        }
    }
}

proof fn lemma_values_want(
    l: Seq<ParsedExprView>,
    indexes: Seq<usize>,
    table: TableDefinitionView,
    catalog: CatalogView,
    depth: usize,
    k: int,
    i: int,
    s: SolverView,
    n: usize,
    t: ScalarTypeView,
)
    requires
        0 <= i <= k < l.len(),
        k < indexes.len(),
        asks(l[k], Some(table.columns[indexes[k] as int].data_type), Seq::empty(), n, t),
    ensures
        solve_values(l, indexes, table, Seq::empty(), catalog, depth, i, s).1 is Ok ==> known(
            solve_values(l, indexes, table, Seq::empty(), catalog, depth, i, s).0,
            n,
            t,
        ),
    decreases l.len() - i,
{
    unfold_solve_values(l, indexes, table, Seq::empty(), catalog, depth, i, s);
    let expected = Some(table.columns[indexes[i] as int].data_type);
    let s1 = solve_expr(l[i], expected, Seq::empty(), catalog, depth, s).0;
    grows_values(l, indexes, table, Seq::empty(), catalog, depth, i + 1, s1);
    if i == k {
        lemma_asked_is_known(l[i], expected, Seq::empty(), catalog, depth, s, n, t);
    } else {
        lemma_values_want(l, indexes, table, catalog, depth, k, i + 1, s1, n, t);
    }
}

proof fn lemma_rows_want(
    l: Seq<Seq<ParsedExprView>>,
    columns: Seq<ParsedIdentifierView>,
    indexes: Seq<usize>,
    table: TableDefinitionView,
    catalog: CatalogView,
    depth: usize,
    k: int,
    i: int,
    s: SolverView,
    n: usize,
    t: ScalarTypeView,
)
    requires
        0 <= i <= k < l.len(),
        target_places(columns, table) == Ok::<_, DbErrorView>(indexes),
        table.columns.len() <= usize::MAX,
        row_asks(l[k], columns, table, n, t),
    ensures
        solve_rows(l, indexes, table, Seq::empty(), catalog, depth, i, s).1 is Ok ==> known(
            solve_rows(l, indexes, table, Seq::empty(), catalog, depth, i, s).0,
            n,
            t,
        ),
    decreases l.len() - i,
{
    unfold_solve_rows(l, indexes, table, Seq::empty(), catalog, depth, i, s);
    let s1 = solve_values(l[i], indexes, table, Seq::empty(), catalog, depth, 0, s).0;
    grows_rows(l, indexes, table, Seq::empty(), catalog, depth, i + 1, s1);
    if i == k {
        let j = choose|j: int|
            0 <= j < l[k].len() && place_type(columns, table, j) is Some && asks(
                #[trigger] l[k][j],
                place_type(columns, table, j),
                Seq::empty(),
                n,
                t,
            );
        if columns.len() > 0 {
            lemma_places(columns, table, 0, Seq::empty());
            assert(find_column_index(table.columns, columns[j].name, 0) == Some(indexes[j]));
        }
        assert(place_type(columns, table, j) == Some(table.columns[indexes[j] as int].data_type));
        lemma_values_want(l[i], indexes, table, catalog, depth, j, 0, s, n, t);
    } else {
        lemma_rows_want(l, columns, indexes, table, catalog, depth, k, i + 1, s1, n, t);
    }
}

proof fn lemma_clauses_want(
    l: Seq<ParsedMergeClauseView>,
    table: TableDefinitionView,
    inputs: Seq<InputColumnView>,
    catalog: CatalogView,
    depth: usize,
    k: int,
    i: int,
    s: SolverView,
    n: usize,
    t: ScalarTypeView,
)
    requires
        0 <= i <= k < l.len(),
        clause_asks(l[k].predicate, ScalarTypeView::Boolean, inputs, n, t),
    ensures
        solve_clauses(l, table, inputs, catalog, depth, i, s).1 is Ok ==> known(
            solve_clauses(l, table, inputs, catalog, depth, i, s).0,
            n,
            t,
        ),
    decreases l.len() - i,
{
    unfold_solve_clauses(l, table, inputs, catalog, depth, i, s);
    lemma_some(l[i].predicate, ScalarTypeView::Boolean, inputs, catalog, depth, s, n, t);
    let s1 = solve_some(l[i].predicate, Some(ScalarTypeView::Boolean), inputs, catalog, depth, s).0;
    let (s2, _) = match l[i].action {
        ParsedMergeActionView::Update { assignments } => solve_assignments(assignments, table, inputs, catalog, depth, 0, s1),
        ParsedMergeActionView::Insert { columns, values } => match target_places(columns, table) {
            Err(x) => (s1, Err(x)),
            Ok(indexes) => solve_values(values, indexes, table, inputs, catalog, depth, 0, s1),
        },
        _ => (s1, Ok(())),
    };
    match l[i].action {
        ParsedMergeActionView::Update { assignments } => grows_assignments(assignments, table, inputs, catalog, depth, 0, s1),
        ParsedMergeActionView::Insert { columns, values } => {
            if let Ok(indexes) = target_places(columns, table) {
                grows_values(values, indexes, table, inputs, catalog, depth, 0, s1);
            }
        },
        _ => {},
    }
    grows_clauses(l, table, inputs, catalog, depth, i + 1, s2);
    if i < k {
        lemma_clauses_want(l, table, inputs, catalog, depth, k, i + 1, s2, n, t);
    }
}

/// Whether the columns of the relation that an INSERT fills are as many as a machine can
/// hold.
pub open spec fn target_held(st: ParsedStatementView, catalog: CatalogView) -> bool {
    st matches ParsedStatementView::Insert { table, .. } ==> (dml_relation(table, TriggerEvent::Insert, catalog) matches Ok(r)
        ==> r.scope.columns.len() <= usize::MAX)
}

/// A pass over a statement that asks a parameter to have a type either finds that type
/// or is refused.
pub proof fn lemma_statement_wants(st: ParsedStatementView, catalog: CatalogView, s: SolverView, n: usize, t: ScalarTypeView)
    requires
        wants(st, catalog, n, t),
        target_held(st, catalog),
    ensures
        solve_statement(st, catalog, Seq::empty(), None, 0, s).1 is Ok ==> known(
            solve_statement(st, catalog, Seq::empty(), None, 0, s).0,
            n,
            t,
        ),
{
    unfold_solve_statement(st, catalog, Seq::empty(), None, 0, s);
    let boolean = Some(ScalarTypeView::Boolean);
    match st {
        ParsedStatementView::Select { table, projection, filter, order_by, offset, limit } => {
            let p = SelectPartsView {
                table: ParsedTableView { name: table, alias: None },
                joins: Seq::empty(),
                projection,
                distinct: false,
                filter,
                group_by: Seq::empty(),
                having: None,
                order_by,
                offset,
                limit,
            };
            lemma_select_wants(p, st, catalog, 0, s, n, t);
        },
        ParsedStatementView::AdvancedSelect { table, joins, projection, distinct, filter, group_by, having, order_by, offset, limit } => {
            let p = SelectPartsView { table, joins, projection, distinct, filter, group_by, having, order_by, offset, limit };
            lemma_advanced_wants(p, catalog, 0, s, n, t);
        },
        ParsedStatementView::SetOperation { left, right, offset, limit, .. } => lemma_set_wants(
            *left,
            *right,
            offset,
            limit,
            catalog,
            0,
            s,
            n,
            t,
        ),
        ParsedStatementView::Delete { table, filter, returning } => {
            if let Ok(r) = dml_relation(table, TriggerEvent::Delete, catalog) {
                let inputs = with_columns(r.scope.name, r.scope.columns, false, 0, Seq::empty());
                lemma_some(filter, ScalarTypeView::Boolean, inputs, catalog, 0, s, n, t);
                let s1 = solve_some(filter, boolean, inputs, catalog, 0, s).0;
                grows_items(returning, None, inputs, catalog, 0, 0, Seq::empty(), s1);
            }
        },
        ParsedStatementView::Update { table, assignments, filter, returning } => {
            if let Ok(r) = dml_relation(table, TriggerEvent::Update, catalog) {
                let inputs = with_columns(r.scope.name, r.scope.columns, false, 0, Seq::empty());
                if assignment_asks(assignments, r.scope, inputs, n, t) {
                    let k = choose|k: int|
                        0 <= k < assignments.len() && (find_column_index(r.scope.columns, (#[trigger] assignments[k]).0.name, 0) matches Some(
                            c,
                        ) && asks(assignments[k].1, Some(r.scope.columns[c as int].data_type), inputs, n, t));
                    lemma_assignments_want(assignments, r.scope, inputs, catalog, 0, k, 0, s, n, t);
                }
                let s1 = solve_assignments(assignments, r.scope, inputs, catalog, 0, 0, s).0;
                lemma_some(filter, ScalarTypeView::Boolean, inputs, catalog, 0, s1, n, t);
                let s2 = solve_some(filter, boolean, inputs, catalog, 0, s1).0;
                grows_items(returning, None, inputs, catalog, 0, 0, Seq::empty(), s2);
            }
        },
        ParsedStatementView::Insert { .. } => lemma_insert_wants(st, catalog, s, n, t),
        ParsedStatementView::Merge(m) => {
            unfold_solve_merge(m, None, catalog, 0, s);
            let target = named_table(m.target.name, catalog)->Ok_0;
            let source = named_table(m.source.name, catalog)->Ok_0;
            let inputs = merge_inputs(m, target, source);
            if asks(m.on, boolean, inputs, n, t) {
                lemma_asked_is_known(m.on, boolean, inputs, catalog, 0, s, n, t);
            }
            let s1 = solve_expr(m.on, boolean, inputs, catalog, 0, s).0;
            grows_clauses(m.clauses, target, inputs, catalog, 0, 0, s1);
            if exists|k: int| 0 <= k < m.clauses.len() && clause_asks((#[trigger] m.clauses[k]).predicate, ScalarTypeView::Boolean, inputs, n, t) {
                let k = choose|k: int|
                    0 <= k < m.clauses.len() && clause_asks((#[trigger] m.clauses[k]).predicate, ScalarTypeView::Boolean, inputs, n, t);
                lemma_clauses_want(m.clauses, target, inputs, catalog, 0, k, 0, s1, n, t);
            }
            let s2 = solve_clauses(m.clauses, target, inputs, catalog, 0, 0, s1).0;
            grows_items(
                m.returning,
                None,
                with_columns(target.name, target.columns, false, 0, Seq::empty()),
                catalog,
                0,
                0,
                Seq::empty(),
                s2,
            );
        },
        ParsedStatementView::SequenceValue { operation, .. } => {
            if let ParsedSequenceOperationView::SetValue { value, .. } = operation {
                lemma_asked_is_known(value, Some(ScalarTypeView::Int64), Seq::empty(), catalog, 0, s, n, t);
            }
        },
        _ => {},
    }
}

proof fn lemma_insert_wants(st: ParsedStatementView, catalog: CatalogView, s: SolverView, n: usize, t: ScalarTypeView)
    requires
        st is Insert,
        wants(st, catalog, n, t),
        target_held(st, catalog),
    ensures
        solve_statement(st, catalog, Seq::empty(), None, 0, s).1 is Ok ==> known(
            solve_statement(st, catalog, Seq::empty(), None, 0, s).0,
            n,
            t,
        ),
{
    unfold_solve_statement(st, catalog, Seq::empty(), None, 0, s);
    if let ParsedStatementView::Insert { table, columns, rows, on_conflict, returning } = st {
        unfold_solve_insert(table, columns, rows, on_conflict, returning, None, catalog, 0, s);
        if let Ok(r) = dml_relation(table, TriggerEvent::Insert, catalog) {
            let inputs = with_columns(r.scope.name, r.scope.columns, false, 0, Seq::empty());
            let k = choose|k: int| 0 <= k < rows.len() && row_asks(#[trigger] rows[k], columns, r.scope, n, t);
            if let Ok(indexes) = target_places(columns, r.scope) {
                lemma_rows_want(rows, columns, indexes, r.scope, catalog, 0, k, 0, s, n, t);
                let s1 = solve_rows(rows, indexes, r.scope, Seq::empty(), catalog, 0, 0, s).0;
                match on_conflict {
                    None => grows_items(returning, None, inputs, catalog, 0, 0, Seq::empty(), s1),
                    Some(on) => {
                        grows_conflict(on, r.scope, catalog, 0, s1);
                        let s2 = crate::solver_rules::solve_conflict(on, r.scope, catalog, 0, s1).0;
                        grows_items(returning, None, inputs, catalog, 0, 0, Seq::empty(), s2);
                    },
                }
            }
        }
    }
}

/// The types that are found for the parameters of a statement are those that it asks for.
/// A parameter in OFFSET or LIMIT is a 64-bit integer, one that is a WHERE, HAVING or ON
/// is a boolean, and one that is inserted into or assigned to a column has its type.
pub proof fn lemma_solved_wants(
    st: ParsedStatementView,
    catalog: CatalogView,
    passes: nat,
    types: Map<usize, ScalarTypeView>,
    n: usize,
    t: ScalarTypeView,
)
    requires
        wants(st, catalog, n, t),
        target_held(st, catalog),
    ensures
        solved(st, catalog, passes, types) matches Ok(m) ==> m.dom().contains(n) && m[n] == t,
    decreases passes,
{
    if passes > 0 {
        let s = SolverView { types, changed: false };
        lemma_statement_wants(st, catalog, s, n, t);
        let r = solve_statement(st, catalog, Seq::empty(), None, 0, s);
        if r.1 is Ok && r.0.changed {
            lemma_solved_wants(st, catalog, (passes - 1) as nat, r.0.types, n, t);
        }
    }
}

/// Whether a clause is a parameter.
pub open spec fn bare(e: Option<ParsedExprView>, n: usize) -> bool {
    e is Some && e->0.kind == ParsedExprKindView::Parameter(n)
}

/// The OFFSET and the LIMIT of a query.
pub open spec fn pages(st: ParsedStatementView) -> (Option<ParsedExprView>, Option<ParsedExprView>) {
    match st {
        ParsedStatementView::Select { offset, limit, .. } => (offset, limit),
        ParsedStatementView::AdvancedSelect { offset, limit, .. } => (offset, limit),
        ParsedStatementView::SetOperation { offset, limit, .. } => (offset, limit),
        _ => (None, None),
    }
}

/// A parameter that is the OFFSET or the LIMIT of a query is found to be a 64-bit
/// integer.
pub proof fn lemma_page_parameters(
    st: ParsedStatementView,
    catalog: CatalogView,
    passes: nat,
    types: Map<usize, ScalarTypeView>,
    n: usize,
)
    requires
        bare(pages(st).0, n) || bare(pages(st).1, n),
    ensures
        solved(st, catalog, passes, types) matches Ok(m) ==> m.dom().contains(n) && m[n] == ScalarTypeView::Int64,
    decreases passes,
{
    let t = ScalarTypeView::Int64;
    let (offset, limit) = pages(st);
    assert(bare(offset, n) ==> always_asks(offset, t, n, t));
    assert(bare(limit, n) ==> always_asks(limit, t, n, t));
    assert(bare(offset, n) ==> clause_asks(offset, t, Seq::empty(), n, t));
    assert(bare(limit, n) ==> clause_asks(limit, t, Seq::empty(), n, t));
    if let ParsedStatementView::Select { table, .. } = st {
        if relation_inputs(table, None, catalog, false, Seq::empty()) is Err {
            lemma_no_relation(st, catalog, passes, types);
        } else {
            lemma_solved_wants(st, catalog, passes, types, n, t);
        }
    } else {
        lemma_solved_wants(st, catalog, passes, types, n, t);
    }
}

proof fn lemma_no_relation(st: ParsedStatementView, catalog: CatalogView, passes: nat, types: Map<usize, ScalarTypeView>)
    requires
        st is Select,
        relation_inputs(st->Select_table, None, catalog, false, Seq::empty()) is Err,
    ensures
        solved(st, catalog, passes, types) is Err,
{
    if passes > 0 {
        let s = SolverView { types, changed: false };
        unfold_solve_statement(st, catalog, Seq::empty(), None, 0, s);
        if let ParsedStatementView::Select { table, projection, filter, order_by, offset, limit } = st {
            let p = SelectPartsView {
                table: ParsedTableView { name: table, alias: None },
                joins: Seq::empty(),
                projection,
                distinct: false,
                filter,
                group_by: Seq::empty(),
                having: None,
                order_by,
                offset,
                limit,
            };
            unfold_solve_select(p, Seq::empty(), None, catalog, 0, s);
        }
    }
}

} // verus!
