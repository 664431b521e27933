//! Statements that are owed an answer: a test made of comparisons of columns and constants
//! binds, and so does a statement that has such a test.

use vstd::prelude::*;

use crate::bind::bound_statement;
use crate::binding::{bound_form, predicate_of, table_scope};
use crate::bound::BoundStatementView;
use crate::catalog::{find_column_index, CatalogView, TableDefinitionView, TriggerEvent};
use crate::dml::dml_relation;
use crate::inputs::{with_columns, with_outer};
use crate::laws_parts::lemma_columns_from;
use crate::queries::table_select;
use crate::query_rules::{delete_parts, select_of, statement_of, target_source, SelectPartsView};
use crate::scope::{first_answer, InputColumnView};
use crate::select_list::{returning_of, table_items};
use crate::solver_rules::{
    relation_inputs, solve_expr, solve_statement, solved, unfold_solve_binary, unfold_solve_expr, unfold_solve_items, unfold_solve_orders,
    unfold_solve_page, unfold_solve_select, unfold_solve_some, unfold_solve_statement, SolverView,
};
use crate::syntax::{
    BinaryOperator, ParsedExprKindView, ParsedExprView, ParsedObjectNameView, ParsedProjectionView, ParsedStatementView, ParsedTableView,
};
use crate::type_rules::{
    typed_expr, typed_statement, unfold_typed_expr, unfold_typed_order_list, unfold_typed_projection, unfold_typed_projection_list,
    unfold_typed_statement, ResolverView, SessionView,
};
use crate::types::{type_of_value, DbErrorView, ScalarTypeView};

verus! {

/// Whether a table has columns of different names, as many as a machine can hold.
pub open spec fn well_named(t: TableDefinitionView) -> bool {
    &&& t.columns.len() <= usize::MAX
    &&& forall|j: int, k: int| 0 <= j < k < t.columns.len() ==> (#[trigger] t.columns[j]).name != (#[trigger] t.columns[k]).name
}

/// Whether a name is that of the column at a place of a table.
pub open spec fn column_at(name: ParsedObjectNameView, t: TableDefinitionView, k: int) -> bool {
    0 <= k < t.columns.len() && name.parts.len() == 1 && t.columns[k].name == name.parts[0].name
}

/// Whether an expression is a column of a table or a constant, of a type.
pub open spec fn valued(e: ParsedExprView, t: TableDefinitionView, u: ScalarTypeView) -> bool {
    match e.kind {
        ParsedExprKindView::Column(name) => exists|k: int| #[trigger] column_at(name, t, k) && t.columns[k].data_type == u,
        ParsedExprKindView::Literal(v) => type_of_value(v) == Some(u),
        _ => false,
    }
}

/// Whether an expression is a test of the rows of a table: comparisons of columns and
/// constants of one type, with NOT, AND and OR, nested no deeper than a number of levels.
pub open spec fn testable(e: ParsedExprView, t: TableDefinitionView, levels: nat) -> bool
    decreases e,
{
    levels > 0 && match e.kind {
        ParsedExprKindView::Literal(v) => v is Boolean,
        ParsedExprKindView::Column(_) => valued(e, t, ScalarTypeView::Boolean),
        ParsedExprKindView::Unary { op, expr } => op is Not && testable(*expr, t, (levels - 1) as nat),
        ParsedExprKindView::Binary { left, op, right } => match op {
            BinaryOperator::And | BinaryOperator::Or => testable(*left, t, (levels - 1) as nat) && testable(*right, t, (levels - 1) as nat),
            BinaryOperator::Eq | BinaryOperator::NotEq | BinaryOperator::Lt | BinaryOperator::LtEq | BinaryOperator::Gt
            | BinaryOperator::GtEq => levels > 1 && exists|u: ScalarTypeView|
                #[trigger] valued(*left, t, u) && valued(*right, t, u),
            _ => false,
        },
        _ => false,
    }
}

pub(crate) proof fn lemma_found(t: TableDefinitionView, name: Seq<char>, k: int, i: int)
    requires
        well_named(t),
        0 <= i <= k < t.columns.len(),
        t.columns[k].name == name,
    ensures
        find_column_index(t.columns, name, i) == Some(k as usize),
    decreases k - i,
{
    if i < k {
        assert(t.columns[i].name != t.columns[k].name);
        lemma_found(t, name, k, i + 1);
    }
}

pub(crate) proof fn lemma_valued_binds(e: ParsedExprView, t: TableDefinitionView, u: ScalarTypeView, expected: Option<ScalarTypeView>)
    requires
        well_named(t),
        valued(e, t, u),
        expected is None || expected == Some(u),
    ensures
        bound_form(e, table_scope(Some(t)), expected) matches Ok(b) && b.data_type == u,
        crate::expr::type_of(e, table_scope(Some(t))) == Ok::<_, DbErrorView>(Some(u)),
{
    if let ParsedExprKindView::Column(name) = e.kind {
        let k = choose|k: int| #[trigger] column_at(name, t, k) && t.columns[k].data_type == u;
        assert(name.parts.last() == name.parts[0]);
        lemma_found(t, name.parts[0].name, k, 0);
    }
}

/// A test of the rows of a table binds over that table, as a boolean.
pub proof fn lemma_test_binds(e: ParsedExprView, t: TableDefinitionView, levels: nat)
    requires
        well_named(t),
        testable(e, t, levels),
    ensures
        bound_form(e, table_scope(Some(t)), Some(ScalarTypeView::Boolean)) matches Ok(b) && b.data_type is Boolean,
        predicate_of(e, table_scope(Some(t))) is Ok,
    decreases e,
{
    match e.kind {
        ParsedExprKindView::Column(_) => lemma_valued_binds(e, t, ScalarTypeView::Boolean, Some(ScalarTypeView::Boolean)),
        ParsedExprKindView::Unary { expr, .. } => lemma_test_binds(*expr, t, (levels - 1) as nat),
        ParsedExprKindView::Binary { left, op, right } => {
            if op is And || op is Or {
                lemma_test_binds(*left, t, (levels - 1) as nat);
                lemma_test_binds(*right, t, (levels - 1) as nat);
            } else {
                let u = choose|u: ScalarTypeView| #[trigger] valued(*left, t, u) && valued(*right, t, u);
                lemma_valued_binds(*left, t, u, Some(u));
                lemma_valued_binds(*right, t, u, Some(u));
            }
        },
        _ => {},
    }
}

proof fn lemma_answered(inputs: Seq<InputColumnView>, name: Seq<char>, local: bool, k: int, i: int)
    requires
        0 <= i <= k < inputs.len(),
        inputs[k].name == name,
        forall|j: int| 0 <= j < inputs.len() ==> (#[trigger] inputs[j]).outer_depth == 0,
        forall|j: int| 0 <= j < inputs.len() && j != k ==> (#[trigger] inputs[j]).name != name,
    ensures
        first_answer(inputs, None, name, local, i) == Some(k),
        first_answer(inputs, None, name, local, k + 1) is None,
    decreases k - i,
{
    lemma_unanswered(inputs, name, local, k + 1);
    if i < k {
        lemma_answered(inputs, name, local, k, i + 1);
    }
}

proof fn lemma_unanswered(inputs: Seq<InputColumnView>, name: Seq<char>, local: bool, i: int)
    requires
        0 <= i,
        forall|j: int| i <= j < inputs.len() ==> (#[trigger] inputs[j]).name != name,
    ensures
        first_answer(inputs, None, name, local, i) is None,
    decreases inputs.len() - i,
{
    if i < inputs.len() {
        lemma_unanswered(inputs, name, local, i + 1);
    }
}

pub(crate) proof fn lemma_valued_solves(
    e: ParsedExprView,
    t: TableDefinitionView,
    u: ScalarTypeView,
    binding: Seq<char>,
    expected: Option<ScalarTypeView>,
    catalog: CatalogView,
    depth: usize,
    s: SolverView,
)
    requires
        well_named(t),
        valued(e, t, u),
        depth < 64,
    ensures
        solve_expr(e, expected, with_columns(binding, t.columns, false, 0, Seq::empty()), catalog, depth, s) == (s, Ok::<_, DbErrorView>(Some(u))),
{
    let inputs = with_columns(binding, t.columns, false, 0, Seq::empty());
    unfold_solve_expr(e, expected, inputs, catalog, depth, s);
    if let ParsedExprKindView::Column(name) = e.kind {
        let k = choose|k: int| #[trigger] column_at(name, t, k) && t.columns[k].data_type == u;
        assert(t.columns.take(0) =~= Seq::empty());
        lemma_columns_from(binding, t.columns, false, 0, Seq::empty(), Seq::empty());
        assert forall|j: int| 0 <= j < inputs.len() implies (#[trigger] inputs[j]).outer_depth == 0 && inputs[j].name == t.columns[j].name
            && inputs[j].data_type == t.columns[j].data_type by {
            assert(t.columns[j].name == t.columns[j].name);
        }
        lemma_answered(inputs, name.parts[0].name, true, k, 0);
    }
}

pub(crate) proof fn lemma_test_solves(
    e: ParsedExprView,
    t: TableDefinitionView,
    levels: nat,
    binding: Seq<char>,
    catalog: CatalogView,
    depth: usize,
    s: SolverView,
)
    requires
        well_named(t),
        testable(e, t, levels),
        depth + levels <= 64,
    ensures
        solve_expr(
            e,
            Some(ScalarTypeView::Boolean),
            with_columns(binding, t.columns, false, 0, Seq::empty()),
            catalog,
            depth,
            s,
        ).0 == s,
        solve_expr(
            e,
            Some(ScalarTypeView::Boolean),
            with_columns(binding, t.columns, false, 0, Seq::empty()),
            catalog,
            depth,
            s,
        ).1 is Ok,
    decreases e,
{
    let inputs = with_columns(binding, t.columns, false, 0, Seq::empty());
    let boolean = Some(ScalarTypeView::Boolean);
    unfold_solve_expr(e, boolean, inputs, catalog, depth, s);
    let d = (depth + 1) as usize;
    match e.kind {
        ParsedExprKindView::Column(_) => lemma_valued_solves(e, t, ScalarTypeView::Boolean, binding, boolean, catalog, depth, s),
        ParsedExprKindView::Unary { expr, .. } => lemma_test_solves(*expr, t, (levels - 1) as nat, binding, catalog, d, s),
        ParsedExprKindView::Binary { left, op, right } => {
            unfold_solve_binary(*left, op, *right, boolean, inputs, catalog, depth, s);
            if op is And || op is Or {
                lemma_test_solves(*left, t, (levels - 1) as nat, binding, catalog, d, s);
                lemma_test_solves(*right, t, (levels - 1) as nat, binding, catalog, d, s);
            } else {
                let u = choose|u: ScalarTypeView| #[trigger] valued(*left, t, u) && valued(*right, t, u);
                lemma_valued_solves(*left, t, u, binding, None, catalog, d, s);
                lemma_valued_solves(*right, t, u, binding, None, catalog, d, s);
                lemma_valued_solves(*left, t, u, binding, Some(u), catalog, d, s);
                lemma_valued_solves(*right, t, u, binding, Some(u), catalog, d, s);
            }
        },
        _ => {},
    }
}

pub(crate) proof fn lemma_test_typed(e: ParsedExprView, t: TableDefinitionView, levels: nat, c: ResolverView, depth: usize)
    requires
        testable(e, t, levels),
    ensures
        typed_expr(e, c, depth) == Ok::<ParsedExprView, DbErrorView>(e),
    decreases e,
{
    unfold_typed_expr(e, c, depth);
    match e.kind {
        ParsedExprKindView::Unary { expr, .. } => lemma_test_typed(*expr, t, (levels - 1) as nat, c, depth),
        ParsedExprKindView::Binary { left, op, right } => {
            if op is And || op is Or {
                lemma_test_typed(*left, t, (levels - 1) as nat, c, depth);
                lemma_test_typed(*right, t, (levels - 1) as nat, c, depth);
            } else {
                let u = choose|u: ScalarTypeView| #[trigger] valued(*left, t, u) && valued(*right, t, u);
                unfold_typed_expr(*left, c, depth);
                unfold_typed_expr(*right, c, depth);
            }
        },
        _ => {},
    }
}

/// Whether a name is that of a table of a catalog.
pub open spec fn table_named(name: ParsedObjectNameView, catalog: CatalogView, t: TableDefinitionView) -> bool {
    let schema = if name.parts.len() == 1 {
        crate::types::normalized("public"@, false)
    } else {
        name.parts[0].name
    };
    &&& 1 <= name.parts.len() <= 2
    &&& catalog.schema(schema) is Some
    &&& catalog.table(schema, name.parts.last().name) == Some(t)
    &&& catalog.view_of(schema, name.parts.last().name) is None
}

/// Whether a WHERE is absent or a test of the rows of a table.
pub open spec fn filter_testable(filter: Option<ParsedExprView>, t: TableDefinitionView) -> bool {
    filter is Some ==> testable(filter->0, t, 64)
}

/// A DELETE from a table, without a WHERE or with one that tests its rows, binds: it
/// deletes from that table.
pub proof fn lemma_delete_binds(
    table: ParsedObjectNameView,
    filter: Option<ParsedExprView>,
    catalog: CatalogView,
    session: Option<SessionView>,
    t: TableDefinitionView,
)
    requires
        table_named(table, catalog, t),
        well_named(t),
        filter_testable(filter, t),
    ensures
        bound_statement(ParsedStatementView::Delete { table, filter, returning: Seq::empty() }, catalog, session) matches Ok(b) && b is Delete
            && b->Delete_table_id == t.id,
{
    let none: Seq<ParsedProjectionView> = Seq::empty();
    let st = ParsedStatementView::Delete { table, filter, returning: none };
    let c = ResolverView { parameters: Map::empty(), catalog: Some(catalog), session };
    lemma_delete_typed(table, filter, t, c);
    reveal(dml_relation);
    let s = SolverView { types: Map::empty(), changed: false };
    let inputs = with_columns(t.name, t.columns, false, 0, Seq::empty());
    unfold_solve_statement(st, catalog, Seq::empty(), None, 0, s);
    unfold_solve_some(filter, Some(ScalarTypeView::Boolean), inputs, catalog, 0, s);
    if filter is Some {
        lemma_test_solves(filter->0, t, 64, t.name, catalog, 0, s);
        lemma_test_binds(filter->0, t, 64);
    }
    unfold_solve_items(none, None, inputs, catalog, 0, 0, Seq::empty(), s);
    reveal_with_fuel(solved, 1);
    assert(solved(st, catalog, 128, Map::empty()) == Ok::<_, DbErrorView>(s.types));
    let d = ResolverView { parameters: Map::empty(), catalog: None, session };
    lemma_delete_typed(table, filter, t, d);
    lemma_delete_bound(table, filter, catalog, t);
    reveal(bound_statement);
}

proof fn lemma_delete_bound(table: ParsedObjectNameView, filter: Option<ParsedExprView>, catalog: CatalogView, t: TableDefinitionView)
    requires
        table_named(table, catalog, t),
        well_named(t),
        filter_testable(filter, t),
    ensures
        statement_of(ParsedStatementView::Delete { table, filter, returning: Seq::empty() }, catalog, 0) matches Ok(b) && b is Delete
            && b->Delete_table_id == t.id,
{
    reveal(dml_relation);
    let r = crate::dml::DmlRelationView { target: crate::dml::DmlTarget::Table(t.id), scope: t };
    assert(dml_relation(table, TriggerEvent::Delete, catalog) == Ok::<_, DbErrorView>(r));
    if filter is Some {
        lemma_test_binds(filter->0, t, 64);
    }
    reveal(returning_of);
    reveal(delete_parts);
    assert(delete_parts(r, filter, Seq::empty()) is Ok);
    reveal(target_source);
    assert(target_source(r.target, catalog, 0) == Ok::<_, DbErrorView>(None::<BoundStatementView>));
    reveal(statement_of);
}

proof fn lemma_delete_typed(table: ParsedObjectNameView, filter: Option<ParsedExprView>, t: TableDefinitionView, c: ResolverView)
    requires
        filter_testable(filter, t),
    ensures
        typed_statement(ParsedStatementView::Delete { table, filter, returning: Seq::empty() }, c, 0) == Ok::<_, DbErrorView>(
            ParsedStatementView::Delete { table, filter, returning: Seq::empty() },
        ),
{
    let none: Seq<ParsedProjectionView> = Seq::empty();
    let st = ParsedStatementView::Delete { table, filter, returning: none };
    unfold_typed_statement(st, c, 0);
    unfold_typed_projection_list(none, c, 0, 0, none);
    if filter is Some {
        lemma_test_typed(filter->0, t, 64, c, 0);
    }
}

/// A query for all columns of a table, without a WHERE or with one that tests its rows,
/// binds: it reads that table.
pub proof fn lemma_select_binds(
    table: ParsedObjectNameView,
    filter: Option<ParsedExprView>,
    catalog: CatalogView,
    session: Option<SessionView>,
    t: TableDefinitionView,
)
    requires
        table_named(table, catalog, t),
        well_named(t),
        t.columns.len() > 0,
        filter_testable(filter, t),
    ensures
        bound_statement(all_columns(table, filter), catalog, session) matches Ok(b) && b is Select && b->Select_table_id == t.id,
{
    let st = all_columns(table, filter);
    let c = ResolverView { parameters: Map::empty(), catalog: Some(catalog), session };
    lemma_select_typed(table, filter, t, c);
    let s = SolverView { types: Map::empty(), changed: false };
    lemma_select_solves(table, filter, catalog, t, s);
    reveal_with_fuel(solved, 1);
    assert(solved(st, catalog, 128, Map::empty()) == Ok::<_, DbErrorView>(s.types));
    let d = ResolverView { parameters: Map::empty(), catalog: None, session };
    lemma_select_typed(table, filter, t, d);
    lemma_select_bound(table, filter, catalog, t);
    reveal(bound_statement);
}

/// The query for all columns of a table.
pub open spec fn all_columns(table: ParsedObjectNameView, filter: Option<ParsedExprView>) -> ParsedStatementView {
    ParsedStatementView::Select {
        table,
        projection: seq![ParsedProjectionView::Wildcard],
        filter,
        order_by: Seq::empty(),
        offset: None,
        limit: None,
    }
}

proof fn lemma_select_typed(table: ParsedObjectNameView, filter: Option<ParsedExprView>, t: TableDefinitionView, c: ResolverView)
    requires
        filter_testable(filter, t),
    ensures
        typed_statement(all_columns(table, filter), c, 0) == Ok::<_, DbErrorView>(all_columns(table, filter)),
{
    let star = seq![ParsedProjectionView::Wildcard];
    unfold_typed_statement(all_columns(table, filter), c, 0);
    unfold_typed_projection_list(star, c, 0, 0, Seq::empty());
    unfold_typed_projection(ParsedProjectionView::Wildcard, c, 0);
    let done = Seq::<ParsedProjectionView>::empty().push(ParsedProjectionView::Wildcard);
    unfold_typed_projection_list(star, c, 0, 1, done);
    assert(done =~= star);
    unfold_typed_order_list(Seq::empty(), c, 0, 0, Seq::empty());
    if filter is Some {
        lemma_test_typed(filter->0, t, 64, c, 0);
    }
}

proof fn lemma_select_solves(
    table: ParsedObjectNameView,
    filter: Option<ParsedExprView>,
    catalog: CatalogView,
    t: TableDefinitionView,
    s: SolverView,
)
    requires
        table_named(table, catalog, t),
        well_named(t),
        filter_testable(filter, t),
    ensures
        solve_statement(all_columns(table, filter), catalog, Seq::empty(), None, 0, s).0 == s,
        solve_statement(all_columns(table, filter), catalog, Seq::empty(), None, 0, s).1 is Ok,
{
    let star = seq![ParsedProjectionView::Wildcard];
    let p = SelectPartsView {
        table: ParsedTableView { name: table, alias: None },
        joins: Seq::empty(),
        projection: star,
        distinct: false,
        filter,
        group_by: Seq::empty(),
        having: None,
        order_by: Seq::empty(),
        offset: None,
        limit: None,
    };
    unfold_solve_statement(all_columns(table, filter), catalog, Seq::empty(), None, 0, s);
    unfold_solve_select(p, Seq::empty(), None, catalog, 0, s);
    let inputs = with_columns(table.parts.last().name, t.columns, false, 0, Seq::empty());
    reveal(relation_inputs);
    assert(relation_inputs(table, None, catalog, false, Seq::empty()) == Ok::<_, DbErrorView>(inputs));
    assert(with_outer(Seq::empty(), 0, inputs) == Ok::<_, DbErrorView>(inputs));
    unfold_solve_some(filter, Some(ScalarTypeView::Boolean), inputs, catalog, 0, s);
    if filter is Some {
        lemma_test_solves(filter->0, t, 64, table.parts.last().name, catalog, 0, s);
    }
    unfold_solve_page(Seq::empty(), None, None, inputs, catalog, 0, s);
    unfold_solve_orders(Seq::empty(), inputs, catalog, 0, 0, s);
    unfold_solve_some(None, Some(ScalarTypeView::Int64), inputs, catalog, 0, s);
    unfold_solve_items(star, None, inputs, catalog, 0, 0, Seq::empty(), s);
    let types = crate::solver_rules::with_local_types(inputs, 0, Seq::empty());
    unfold_solve_items(star, None, inputs, catalog, 0, 1, types, s);
}

proof fn lemma_select_bound(table: ParsedObjectNameView, filter: Option<ParsedExprView>, catalog: CatalogView, t: TableDefinitionView)
    requires
        table_named(table, catalog, t),
        well_named(t),
        t.columns.len() > 0,
        filter_testable(filter, t),
    ensures
        statement_of(all_columns(table, filter), catalog, 0) matches Ok(b) && b is Select && b->Select_table_id == t.id,
{
    let star = seq![ParsedProjectionView::Wildcard];
    let p = SelectPartsView {
        table: ParsedTableView { name: table, alias: None },
        joins: Seq::empty(),
        projection: star,
        distinct: false,
        filter,
        group_by: Seq::empty(),
        having: None,
        order_by: Seq::empty(),
        offset: None,
        limit: None,
    };
    reveal(statement_of);
    reveal(select_of);
    reveal(crate::query_rules::view_source);
    assert(statement_of(all_columns(table, filter), catalog, 0) == select_of(p, catalog, 0));
    reveal(table_select);
    if filter is Some {
        lemma_test_binds(filter->0, t, 64);
    }
    crate::laws_bind::lemma_table_star(t.columns, 0, Seq::empty());
    let all = crate::select_list::with_table(t.columns, 0, Seq::empty());
    assert(table_items(star, t, false, 1, all) == Ok::<_, DbErrorView>(all));
    assert(table_items(star, t, false, 0, Seq::empty()) == Ok::<_, DbErrorView>(all));
}

} // verus!
