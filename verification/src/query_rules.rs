//! How queries, and the statements that hold queries, are bound.

use vstd::prelude::*;

use crate::binding::{input_scope, predicate_of, predicate_some, table_scope};
use crate::bound::{
    BoundApplyView, BoundCteView, BoundExprView, BoundJoinSourceView, BoundJoinView, BoundReturningView, BoundStatementView, BoundTableView,
};
use crate::catalog::{CatalogView, TriggerEvent, ViewDefinitionView, ViewKind};
use crate::dml::{assignments_of, dml_relation, insert_parts, DmlRelationView, DmlTarget, InsertPartsView};
use crate::grouping::aggregated;
use crate::inputs::{binding_error, binding_taken, input_table, with_derived, with_outer};
use crate::names::{named_table, no_object, split_name};
use crate::parser::parsed_sql;
use crate::plain::plain_statement;
use crate::predicates::holds_window;
use crate::queries::{
    fitting_source, materialized_source, new_view, set_of, table_select, view_kind_label, view_place, view_query_plain, view_select,
};
use crate::references::refers;
use crate::rewrite::{replacement, rewritten, ReplacementView};
use crate::scope::{Checked, InputColumnView};
use crate::select_list::{returning_of, schema_of, tail_of, window_items, window_orders, windows_allowed, ClausesView, SelectTailView};
use crate::subquery::{exists_applied, in_applied, quantified_applied, query_schema, row_applied, scalar_applied};
use crate::syntax::{
    JoinKind, ParsedCteView, ParsedExprKindView, ParsedExprView, ParsedIdentifierView, ParsedJoinSourceView, ParsedJoinView,
    ParsedObjectNameView, ParsedOrderView, ParsedProjectionView, ParsedStatementView, ParsedTableView, QuerySetOperator, SqlDialect,
};
use crate::transient::{cte_output, cte_target, free_namespace, recursive_schema_fits, with_relation, with_schema};
use crate::types::{error, error_at, internal_error, unsupported_error, DbErrorView, SYNTAX_ERROR, SchemaView, TableId, UNDEFINED_TABLE};

verus! {

/// Mathematical contents of the parts of a SELECT.
pub struct SelectPartsView {
    pub table: ParsedTableView,
    pub joins: Seq<ParsedJoinView>,
    pub projection: Seq<ParsedProjectionView>,
    pub distinct: bool,
    pub filter: Option<ParsedExprView>,
    pub group_by: Seq<ParsedExprView>,
    pub having: Option<ParsedExprView>,
    pub order_by: Seq<ParsedOrderView>,
    pub offset: Option<ParsedExprView>,
    pub limit: Option<ParsedExprView>,
}

/// The error of a statement inside too many views and nested queries.
pub open spec fn too_deep() -> DbErrorView {
    error("54001"@, "view expansion exceeds the maximum depth of 64"@)
}

/// A derived table and all columns up to it.
#[verifier::opaque]
pub open spec fn derived_source(
    query: BoundStatementView,
    lateral: bool,
    alias: ParsedIdentifierView,
    columns: Seq<ParsedIdentifierView>,
    nullable: bool,
    local: Seq<InputColumnView>,
) -> Checked<(BoundJoinSourceView, Seq<InputColumnView>)> {
    match query_schema(query) {
        Err(x) => Err(x),
        Ok(schema) => if columns.len() > schema.fields.len() {
            Err(error_at(SYNTAX_ERROR@, "derived table has more column aliases than output columns"@, alias.position))
        } else {
            Ok(
                (
                    BoundJoinSourceView::Derived {
                        lateral,
                        query: Box::new(query),
                        binding: alias.name,
                        offset: local.len() as usize,
                        width: schema.fields.len() as usize,
                        nullable,
                    },
                    with_derived(alias.name, schema.fields, columns, nullable, 0, local),
                ),
            )
        },
    }
}

/// The bound condition of a join.
#[verifier::opaque]
pub open spec fn join_condition(on: ParsedExprView, outer: Seq<InputColumnView>, local: Seq<InputColumnView>) -> Checked<BoundExprView> {
    match with_outer(outer, 0, local) {
        Err(x) => Err(x),
        Ok(inputs) => match predicate_of(on, input_scope(inputs, true)) {
            Err(x) => Err(x),
            Ok(b) => if aggregated(b) {
                Err(error("42803"@, "aggregate functions are not allowed in JOIN conditions"@))
            } else {
                Ok(b)
            },
        },
    }
}

/// The bound form of a SELECT from its bound parts.
pub open spec fn advanced_statement(
    table: BoundTableView,
    joins: Seq<BoundJoinView>,
    applies: Seq<BoundApplyView>,
    distinct: bool,
    t: SelectTailView,
) -> BoundStatementView {
    BoundStatementView::AdvancedSelect {
        table,
        joins,
        applies,
        windows: t.clauses.windows,
        schema: schema_of(t.clauses.projection),
        projection: t.clauses.projection,
        distinct,
        filter: t.clauses.filter,
        group_by: t.clauses.group_by,
        having: t.clauses.having,
        order_by: t.order_by,
        offset: t.offset,
        limit: match t.limit {
            Some(e) => Some(Box::new(e)),
            None => None,
        },
        aggregate: t.clauses.aggregate,
    }
}

/// The bound form of an INSERT from its bound parts.
pub open spec fn insert_statement(target: DmlTarget, parts: InsertPartsView, source: Option<BoundStatementView>) -> BoundStatementView {
    match target {
        DmlTarget::Table(table_id) => BoundStatementView::Insert {
            table_id,
            column_indexes: parts.column_indexes,
            rows: parts.rows,
            on_conflict: parts.on_conflict,
            returning: parts.returning,
        },
        DmlTarget::View(view_id) => BoundStatementView::ViewInsert {
            view_id,
            source: Box::new(source->0),
            column_indexes: parts.column_indexes,
            rows: parts.rows,
            returning: parts.returning,
        },
    }
}

/// The bound parts of an UPDATE.
pub struct UpdatePartsView {
    pub assignments: Seq<(usize, BoundExprView)>,
    pub filter: Option<BoundExprView>,
    pub returning: Option<BoundReturningView>,
}

/// The bound parts of an UPDATE.
#[verifier::opaque]
pub open spec fn update_parts(
    relation: DmlRelationView,
    assignments: Seq<(ParsedIdentifierView, ParsedExprView)>,
    filter: Option<ParsedExprView>,
    returning: Seq<ParsedProjectionView>,
) -> Checked<UpdatePartsView> {
    let scope = table_scope(Some(relation.scope));
    match assignments_of(assignments, relation.scope, scope, None, " assigned more than once"@, 0, Seq::empty()) {
        Err(x) => Err(x),
        Ok(assignments) => match returning_of(returning, relation.scope) {
            Err(x) => Err(x),
            Ok(returning) => match predicate_some(filter, scope) {
                Err(x) => Err(x),
                Ok(filter) => Ok(UpdatePartsView { assignments, filter, returning }),
            },
        },
    }
}

/// The bound form of an UPDATE from its bound parts.
pub open spec fn update_statement(target: DmlTarget, parts: UpdatePartsView, source: Option<BoundStatementView>) -> BoundStatementView {
    match target {
        DmlTarget::Table(table_id) => BoundStatementView::Update {
            table_id,
            assignments: parts.assignments,
            filter: parts.filter,
            returning: parts.returning,
        },
        DmlTarget::View(view_id) => BoundStatementView::ViewUpdate {
            view_id,
            source: Box::new(source->0),
            assignments: parts.assignments,
            filter: parts.filter,
            returning: parts.returning,
        },
    }
}

/// The bound parts of a DELETE: its filter and what it returns.
#[verifier::opaque]
pub open spec fn delete_parts(relation: DmlRelationView, filter: Option<ParsedExprView>, returning: Seq<ParsedProjectionView>) -> Checked<
    (Option<BoundExprView>, Option<BoundReturningView>),
> {
    match returning_of(returning, relation.scope) {
        Err(x) => Err(x),
        Ok(returning) => match predicate_some(filter, table_scope(Some(relation.scope))) {
            Err(x) => Err(x),
            Ok(filter) => Ok((filter, returning)),
        },
    }
}

/// The bound form of a DELETE from its bound parts.
pub open spec fn delete_statement(
    target: DmlTarget,
    parts: (Option<BoundExprView>, Option<BoundReturningView>),
    source: Option<BoundStatementView>,
) -> BoundStatementView {
    match target {
        DmlTarget::Table(table_id) => BoundStatementView::Delete { table_id, filter: parts.0, returning: parts.1 },
        DmlTarget::View(view_id) => BoundStatementView::ViewDelete {
            view_id,
            source: Box::new(source->0),
            filter: parts.0,
            returning: parts.1,
        },
    }
}

/// The bound form of an EXPLAIN.
pub open spec fn explained(b: BoundStatementView) -> Checked<BoundStatementView> {
    if b is Select || b is AdvancedSelect {
        Ok(BoundStatementView::Explain { statement: Box::new(b) })
    } else {
        Err(unsupported_error("EXPLAIN supports SELECT statements only"@, None))
    }
}

/// The materialized view that a name denotes, and its table.
#[verifier::opaque]
pub open spec fn refreshed_view(name: ParsedObjectNameView, catalog: CatalogView) -> Checked<(ViewDefinitionView, TableId)> {
    match split_name(name) {
        Err(x) => Err(x),
        Ok(n) => match catalog.view_of(n.schema, n.name) {
            None => Err(no_object(UNDEFINED_TABLE@, "materialized view "@, n.schema, n.name, n.position)),
            Some(view) => if view.kind != ViewKind::Materialized {
                Err(error("42809"@, n.schema + "."@ + n.name + " is not a materialized view"@))
            } else {
                match view.materialized_table_id {
                    None => Err(internal_error("materialized view is missing its backing table"@)),
                    Some(id) => Ok((view, id)),
                }
            },
        },
    }
}

/// What binding WITH queries has produced so far.
pub struct WithStateView {
    pub catalog: CatalogView,
    pub replacements: Seq<ReplacementView>,
    pub ctes: Seq<BoundCteView>,
}

/// The terms of a WITH query.
pub struct CtePartsView {
    pub seed: ParsedStatementView,
    pub term: Option<ParsedStatementView>,
    pub all: bool,
}

/// The terms of a WITH query: a recursive one has two.
pub open spec fn cte_terms(query: ParsedStatementView, recursive: bool) -> Checked<CtePartsView> {
    if !recursive {
        Ok(CtePartsView { seed: query, term: None, all: false })
    } else {
        match query {
            ParsedStatementView::SetOperation { left, operator, all, right, order_by, offset, limit } => if operator
                == QuerySetOperator::Union && order_by.len() == 0 && offset is None && limit is None {
                Ok(CtePartsView { seed: *left, term: Some(*right), all })
            } else {
                Err(unsupported_error("recursive CTEs require a top-level UNION or UNION ALL"@, None))
            },
            _ => Err(unsupported_error("recursive CTEs require a top-level UNION or UNION ALL"@, None)),
        }
    }
}

/// The terms of a WITH query, the first of them ready to be bound.
#[verifier::opaque]
pub open spec fn cte_parts(c: ParsedCteView, recursive: bool, replacements: Seq<ReplacementView>) -> Checked<CtePartsView> {
    if replacement(replacements, c.name.name, 0) is Some {
        Err(error_at("42712"@, "WITH query name "@ + c.name.name + " specified more than once"@, c.name.position))
    } else {
        match (if recursive {
                refers(*c.query, c.name.name, 0)
            } else {
                Ok(false)
        }) {
            Err(x) => Err(x),
            Ok(repeats) => match cte_terms(*c.query, repeats) {
                Err(x) => Err(x),
                Ok(parts) => match rewritten(parts.seed, replacements, 0) {
                    Err(x) => Err(x),
                    Ok(seed) => match (if repeats {
                            refers(seed, c.name.name, 0)
                        } else {
                            Ok(false)
                    }) {
                        Err(x) => Err(x),
                        Ok(true) => Err(
                            error("42P19"@, "recursive reference must not appear within the non-recursive term"@),
                        ),
                        Ok(false) => Ok(CtePartsView { seed, ..parts }),
                    },
                },
            },
        }
    }
}

/// A WITH query whose relation has been created.
pub struct CteRelationView {
    pub catalog: CatalogView,
    pub replacements: Seq<ReplacementView>,
    pub ctes: Seq<BoundCteView>,
    pub output: SchemaView,
    pub table_id: TableId,
}

/// The relation that stands for a WITH query whose first term is bound.
#[verifier::opaque]
pub open spec fn cte_relation(
    c: ParsedCteView,
    seed: BoundStatementView,
    schema: Seq<char>,
    state: WithStateView,
) -> Checked<CteRelationView> {
    match query_schema(seed) {
        Err(x) => Err(x),
        Ok(s) => match cte_output(c.name.name, c.columns, s) {
            Err(x) => Err(x),
            Ok(output) => match with_relation(state.catalog, schema, c.name.name, output) {
                Err(x) => Err(x),
                Ok((catalog, table_id)) => Ok(
                    CteRelationView {
                        catalog,
                        replacements: state.replacements.push(
                            ReplacementView { name: c.name.name, target: cte_target(schema, c.name) },
                        ),
                        ctes: state.ctes,
                        output,
                        table_id,
                    },
                ),
            },
        },
    }
}

/// Whether the recursive term of a WITH query suits its output.
#[verifier::opaque]
pub open spec fn term_fits(output: SchemaView, term: BoundStatementView) -> Checked<()> {
    match query_schema(term) {
        Err(x) => Err(x),
        Ok(s) => recursive_schema_fits(output, s),
    }
}

/// The state with one bound WITH query more.
pub open spec fn with_cte(r: CteRelationView, seed: BoundStatementView, term: Option<BoundStatementView>, all: bool) -> WithStateView {
    WithStateView {
        catalog: r.catalog,
        replacements: r.replacements,
        ctes: r.ctes.push(
            BoundCteView {
                table_id: r.table_id,
                seed: Box::new(seed),
                recursive: match term {
                    Some(t) => Some(Box::new(t)),
                    None => None,
                },
                union_all: all,
            },
        ),
    }
}

/// The bound form of a statement whose WITH queries and body are bound.
#[verifier::opaque]
pub open spec fn with_statement(state: WithStateView, body: BoundStatementView) -> Checked<BoundStatementView> {
    match query_schema(body) {
        Err(x) => Err(x),
        Ok(schema) => Ok(
            BoundStatementView::With { ctes: state.ctes, body: Box::new(body), catalog: Box::new(state.catalog), schema },
        ),
    }
}

/// An expression whose subqueries have become slots, with the subqueries that fill
/// them.
#[verifier::opaque]
pub open spec fn applied_expr(
    e: ParsedExprView,
    catalog: CatalogView,
    inputs: Seq<InputColumnView>,
    base: usize,
    depth: usize,
    applies: Seq<BoundApplyView>,
) -> Checked<(ParsedExprView, Seq<BoundApplyView>)>
    decreases usize::MAX - depth, 1int, e, 0int,
{
    match e.kind {
        ParsedExprKindView::Unary { op, expr } => match applied_expr(*expr, catalog, inputs, base, depth, applies) {
            Err(x) => Err(x),
            Ok((expr, applies)) => Ok(
                (ParsedExprView { kind: ParsedExprKindView::Unary { op, expr: Box::new(expr) }, position: e.position }, applies),
            ),
        },
        ParsedExprKindView::Cast { expr, data_type, declared_type } => match applied_expr(*expr, catalog, inputs, base, depth, applies) {
            Err(x) => Err(x),
            Ok((expr, applies)) => Ok(
                (
                    ParsedExprView {
                        kind: ParsedExprKindView::Cast { expr: Box::new(expr), data_type, declared_type },
                        position: e.position,
                    },
                    applies,
                ),
            ),
        },
        ParsedExprKindView::Array { elements, dimensions } => match applied_exprs(
            elements,
            catalog,
            inputs,
            base,
            depth,
            0,
            Seq::empty(),
            applies,
        ) {
            Err(x) => Err(x),
            Ok((elements, applies)) => Ok(
                (ParsedExprView { kind: ParsedExprKindView::Array { elements, dimensions }, position: e.position }, applies),
            ),
        },
        ParsedExprKindView::Function { function, arguments } => match applied_exprs(
            arguments,
            catalog,
            inputs,
            base,
            depth,
            0,
            Seq::empty(),
            applies,
        ) {
            Err(x) => Err(x),
            Ok((arguments, applies)) => Ok(
                (ParsedExprView { kind: ParsedExprKindView::Function { function, arguments }, position: e.position }, applies),
            ),
        },
        ParsedExprKindView::Binary { left, op, right } => match applied_expr(*left, catalog, inputs, base, depth, applies) {
            Err(x) => Err(x),
            Ok((left, applies)) => match applied_expr(*right, catalog, inputs, base, depth, applies) {
                Err(x) => Err(x),
                Ok((right, applies)) => Ok(
                    (
                        ParsedExprView {
                            kind: ParsedExprKindView::Binary { left: Box::new(left), op, right: Box::new(right) },
                            position: e.position,
                        },
                        applies,
                    ),
                ),
            },
        },
        ParsedExprKindView::InList { expr, list, negated } => match applied_expr(*expr, catalog, inputs, base, depth, applies) {
            Err(x) => Err(x),
            Ok((expr, applies)) => match applied_exprs(list, catalog, inputs, base, depth, 0, Seq::empty(), applies) {
                Err(x) => Err(x),
                Ok((list, applies)) => Ok(
                    (
                        ParsedExprView { kind: ParsedExprKindView::InList { expr: Box::new(expr), list, negated }, position: e.position },
                        applies,
                    ),
                ),
            },
        },
        ParsedExprKindView::Aggregate { function, argument, distinct, filter } => match applied_option(
            argument,
            catalog,
            inputs,
            base,
            depth,
            applies,
        ) {
            Err(x) => Err(x),
            Ok((argument, applies)) => match applied_option(filter, catalog, inputs, base, depth, applies) {
                Err(x) => Err(x),
                Ok((filter, applies)) => Ok(
                    (
                        ParsedExprView {
                            kind: ParsedExprKindView::Aggregate { function, argument, distinct, filter },
                            position: e.position,
                        },
                        applies,
                    ),
                ),
            },
        },
        ParsedExprKindView::ScalarSubquery(subquery) => match nested(*subquery, catalog, depth, inputs) {
            Err(x) => Err(x),
            Ok(query) => scalar_applied(query, base, applies, e.position),
        },
        ParsedExprKindView::Exists { subquery, negated } => match nested(*subquery, catalog, depth, inputs) {
            Err(x) => Err(x),
            Ok(query) => exists_applied(query, negated, base, applies, e.position),
        },
        ParsedExprKindView::InSubquery { expr, subquery, negated } => match applied_expr(*expr, catalog, inputs, base, depth, applies) {
            Err(x) => Err(x),
            Ok((left, applies)) => match nested(*subquery, catalog, depth, inputs) {
                Err(x) => Err(x),
                Ok(query) => in_applied(left, query, negated, inputs, base, applies, e.position),
            },
        },
        ParsedExprKindView::QuantifiedSubquery { left, op, quantifier, subquery } => match applied_expr(
            *left,
            catalog,
            inputs,
            base,
            depth,
            applies,
        ) {
            Err(x) => Err(x),
            Ok((left, applies)) => match nested(*subquery, catalog, depth, inputs) {
                Err(x) => Err(x),
                Ok(query) => quantified_applied(left, op, quantifier, query, inputs, base, applies, e.position),
            },
        },
        ParsedExprKindView::RowSubquery { left, op, quantifier, negated, subquery } => match applied_exprs(
            left,
            catalog,
            inputs,
            base,
            depth,
            0,
            Seq::empty(),
            applies,
        ) {
            Err(x) => Err(x),
            Ok((left, applies)) => match nested(*subquery, catalog, depth, inputs) {
                Err(x) => Err(x),
                Ok(query) => row_applied(left, op, quantifier, negated, query, inputs, base, applies, e.position),
            },
        },
        _ => Ok((e, applies)),
    }
}

/// The same of each expression of a list, from a position on.
#[verifier::opaque]
pub open spec fn applied_exprs(
    l: Seq<ParsedExprView>,
    catalog: CatalogView,
    inputs: Seq<InputColumnView>,
    base: usize,
    depth: usize,
    i: int,
    done: Seq<ParsedExprView>,
    applies: Seq<BoundApplyView>,
) -> Checked<(Seq<ParsedExprView>, Seq<BoundApplyView>)>
    decreases usize::MAX - depth, 1int, l, l.len() - i,
{
    if i < 0 || i >= l.len() {
        Ok((done, applies))
    } else {
        match applied_expr(l[i], catalog, inputs, base, depth, applies) {
            Err(x) => Err(x),
            Ok((b, applies)) => applied_exprs(l, catalog, inputs, base, depth, i + 1, done.push(b), applies),
        }
    }
}

/// The same of an expression that may be absent.
#[verifier::opaque]
pub open spec fn applied_option(
    e: Option<Box<ParsedExprView>>,
    catalog: CatalogView,
    inputs: Seq<InputColumnView>,
    base: usize,
    depth: usize,
    applies: Seq<BoundApplyView>,
) -> Checked<(Option<Box<ParsedExprView>>, Seq<BoundApplyView>)>
    decreases usize::MAX - depth, 1int, e, 0int,
{
    match e {
        None => Ok((None, applies)),
        Some(e) => match applied_expr(*e, catalog, inputs, base, depth, applies) {
            Err(x) => Err(x),
            Ok((b, applies)) => Ok((Some(Box::new(b)), applies)),
        },
    }
}

/// The same of a clause that may be absent.
#[verifier::opaque]
pub open spec fn applied_some(
    e: Option<ParsedExprView>,
    catalog: CatalogView,
    inputs: Seq<InputColumnView>,
    base: usize,
    depth: usize,
    applies: Seq<BoundApplyView>,
) -> Checked<(Option<ParsedExprView>, Seq<BoundApplyView>)>
    decreases usize::MAX - depth, 1int, e, 0int,
{
    match e {
        None => Ok((None, applies)),
        Some(e) => match applied_expr(e, catalog, inputs, base, depth, applies) {
            Err(x) => Err(x),
            Ok((b, applies)) => Ok((Some(b), applies)),
        },
    }
}

/// The same of each item of a select list, from a position on.
#[verifier::opaque]
pub open spec fn applied_items(
    l: Seq<ParsedProjectionView>,
    catalog: CatalogView,
    inputs: Seq<InputColumnView>,
    base: usize,
    depth: usize,
    i: int,
    done: Seq<ParsedProjectionView>,
    applies: Seq<BoundApplyView>,
) -> Checked<(Seq<ParsedProjectionView>, Seq<BoundApplyView>)>
    decreases usize::MAX - depth, 1int, l, l.len() - i,
{
    if i < 0 || i >= l.len() {
        Ok((done, applies))
    } else {
        match l[i] {
            ParsedProjectionView::Wildcard => applied_items(l, catalog, inputs, base, depth, i + 1, done.push(l[i]), applies),
            ParsedProjectionView::Expression { expr, alias } => match applied_expr(expr, catalog, inputs, base, depth, applies) {
                Err(x) => Err(x),
                Ok((e, applies)) => applied_items(
                    l,
                    catalog, inputs, base, depth,
                    i + 1,
                    done.push(ParsedProjectionView::Expression { expr: e, alias }),
                    applies,
                ),
            },
        }
    }
}

/// The same of each sort key, from a position on.
#[verifier::opaque]
pub open spec fn applied_orders(
    l: Seq<ParsedOrderView>,
    catalog: CatalogView,
    inputs: Seq<InputColumnView>,
    base: usize,
    depth: usize,
    i: int,
    done: Seq<ParsedOrderView>,
    applies: Seq<BoundApplyView>,
) -> Checked<(Seq<ParsedOrderView>, Seq<BoundApplyView>)>
    decreases usize::MAX - depth, 1int, l, l.len() - i,
{
    if i < 0 || i >= l.len() {
        Ok((done, applies))
    } else {
        match applied_expr(l[i].expr, catalog, inputs, base, depth, applies) {
            Err(x) => Err(x),
            Ok((e, applies)) => applied_orders(
                l,
                catalog,
                inputs,
                base,
                depth,
                i + 1,
                done.push(ParsedOrderView { expr: e, ..l[i] }),
                applies,
            ),
        }
    }
}

/// The clauses of a query whose subqueries in the select list, in WHERE and in GROUP
/// BY have become slots.
#[verifier::opaque]
pub open spec fn applied_front(
    c: ClausesView,
    catalog: CatalogView,
    inputs: Seq<InputColumnView>,
    base: usize,
    depth: usize,
) -> Checked<(ClausesView, Seq<BoundApplyView>)>
    decreases usize::MAX - depth, 2int, c, 0int,
{
    match applied_items(c.projection, catalog, inputs, base, depth, 0, Seq::empty(), Seq::empty()) {
        Err(x) => Err(x),
        Ok((projection, applies)) => match applied_some(c.filter, catalog, inputs, base, depth, applies) {
            Err(x) => Err(x),
            Ok((filter, applies)) => match applied_exprs(c.group_by, catalog, inputs, base, depth, 0, Seq::empty(), applies) {
                Err(x) => Err(x),
                Ok((group_by, applies)) => Ok((ClausesView { projection, filter, group_by, ..c }, applies)),
            },
        },
    }
}

/// The clauses of a query whose subqueries have become slots.
#[verifier::opaque]
pub open spec fn applied_clauses(
    c: ClausesView,
    catalog: CatalogView,
    inputs: Seq<InputColumnView>,
    base: usize,
    depth: usize,
) -> Checked<(ClausesView, Seq<BoundApplyView>)>
    decreases usize::MAX - depth, 3int, c, 0int,
{
    match applied_front(c, catalog, inputs, base, depth) {
        Err(x) => Err(x),
        Ok((c, applies)) => match applied_some(c.having, catalog, inputs, base, depth, applies) {
            Err(x) => Err(x),
            Ok((having, applies)) => match applied_orders(c.order_by, catalog, inputs, base, depth, 0, Seq::empty(), applies) {
                Err(x) => Err(x),
                Ok((order_by, applies)) => Ok((ClausesView { having, order_by, ..c }, applies)),
            },
        },
    }
}

/// One layer of [`applied_clauses`], over the results of its parts.
pub open spec fn applied_clauses_layer(
    c: ClausesView,
    catalog: CatalogView,
    inputs: Seq<InputColumnView>,
    base: usize,
    depth: usize,
) -> Checked<(ClausesView, Seq<BoundApplyView>)> {
    match applied_front(c, catalog, inputs, base, depth) {
        Err(x) => Err(x),
        Ok((c, applies)) => match applied_some(c.having, catalog, inputs, base, depth, applies) {
            Err(x) => Err(x),
            Ok((having, applies)) => match applied_orders(c.order_by, catalog, inputs, base, depth, 0, Seq::empty(), applies) {
                Err(x) => Err(x),
                Ok((order_by, applies)) => Ok((ClausesView { having, order_by, ..c }, applies)),
            },
        },
    }
}

/// The result is its outermost layer over the results of its parts.
pub proof fn unfold_applied_clauses(c: ClausesView, catalog: CatalogView, inputs: Seq<InputColumnView>, base: usize, depth: usize)
    ensures
        applied_clauses(c, catalog, inputs, base, depth) == applied_clauses_layer(c, catalog, inputs, base, depth),
{
    reveal(applied_clauses);
    reveal(applied_front);
    reveal(applied_orders);
    reveal(applied_some);
}

/// The bound form of a subquery of a query.
#[verifier::opaque]
pub open spec fn nested(
    s: ParsedStatementView,
    catalog: CatalogView,
    depth: usize,
    inputs: Seq<InputColumnView>,
) -> Checked<BoundStatementView>
    decreases usize::MAX - depth, 0int, s, 0int,
{
    if depth == usize::MAX {
        Err(error("54001"@, "subquery nesting exceeds the implementation limit"@))
    } else {
        query_of(s, catalog, (depth + 1) as usize, inputs)
    }
}

/// The bound form of a query that can refer to the columns of enclosing queries.
#[verifier::opaque]
pub open spec fn query_of(
    s: ParsedStatementView,
    catalog: CatalogView,
    depth: usize,
    outer: Seq<InputColumnView>,
) -> Checked<BoundStatementView>
    decreases usize::MAX - depth, 7int, s, 0int,
{
    match s {
        ParsedStatementView::Select { table, projection, filter, order_by, offset, limit } => advanced_of(
            SelectPartsView {
                table: ParsedTableView { name: table, alias: None },
                joins: Seq::empty(),
                projection,
                distinct: false,
                filter,
                group_by: Seq::empty(),
                having: None,
                order_by,
                offset,
                limit,
            },
            catalog,
            depth,
            outer,
        ),
        ParsedStatementView::AdvancedSelect {
            table,
            joins,
            projection,
            distinct,
            filter,
            group_by,
            having,
            order_by,
            offset,
            limit,
        } => advanced_of(
            SelectPartsView { table, joins, projection, distinct, filter, group_by, having, order_by, offset, limit },
            catalog,
            depth,
            outer,
        ),
        _ => statement_of(s, catalog, depth),
    }
}

/// The bound form of a source of a FROM clause and all columns up to it.
#[verifier::opaque]
pub open spec fn join_source(
    s: ParsedJoinSourceView,
    nullable: bool,
    catalog: CatalogView,
    depth: usize,
    outer: Seq<InputColumnView>,
    local: Seq<InputColumnView>,
) -> Checked<(BoundJoinSourceView, Seq<InputColumnView>)>
    decreases usize::MAX - depth, 2int, s, 0int,
{
    match s {
        ParsedJoinSourceView::Table(t) => match input_table(t, nullable, catalog, local) {
            Err(x) => Err(x),
            Ok((table, local)) => Ok((BoundJoinSourceView::Table(table), local)),
        },
        ParsedJoinSourceView::Derived { lateral, query, alias, columns } => if binding_taken(local, alias.name, 0) {
            Err(binding_error(alias.name, alias.position))
        } else {
            match (if lateral {
                    with_outer(outer, 0, local)
                } else {
                    Ok(Seq::empty())
            }) {
                Err(x) => Err(x),
                Ok(visible) => if depth == usize::MAX {
                    Err(error("54001"@, "derived table nesting exceeds the implementation limit"@))
                } else {
                    match query_of(*query, catalog, (depth + 1) as usize, visible) {
                        Err(x) => Err(x),
                        Ok(q) => derived_source(q, lateral, alias, columns, nullable, local),
                    }
                },
            }
        },
    }
}

/// The bound joins of a query and all columns up to them, from a join on.
#[verifier::opaque]
pub open spec fn joined(
    l: Seq<ParsedJoinView>,
    catalog: CatalogView,
    depth: usize,
    outer: Seq<InputColumnView>,
    i: int,
    done: Seq<BoundJoinView>,
    local: Seq<InputColumnView>,
) -> Checked<(Seq<BoundJoinView>, Seq<InputColumnView>)>
    decreases usize::MAX - depth, 3int, l, l.len() - i,
{
    if i < 0 || i >= l.len() {
        Ok((done, local))
    } else if holds_window(l[i].on) {
        Err(error("42P20"@, "window functions are not allowed in JOIN conditions"@))
    } else {
        match join_source(l[i].source, l[i].kind == JoinKind::Left, catalog, depth, outer, local) {
            Err(x) => Err(x),
            Ok((source, local)) => match join_condition(l[i].on, outer, local) {
                Err(x) => Err(x),
                Ok(on) => joined(
                    l,
                    catalog,
                    depth,
                    outer,
                    i + 1,
                    done.push(BoundJoinView { source, kind: l[i].kind, on }),
                    local,
                ),
            },
        }
    }
}

/// The bound form of a query with joins, grouping, subqueries or windows.
#[verifier::opaque]
pub open spec fn advanced_of(
    p: SelectPartsView,
    catalog: CatalogView,
    depth: usize,
    outer: Seq<InputColumnView>,
) -> Checked<BoundStatementView>
    decreases usize::MAX - depth, 4int, p, 0int,
{
    match input_table(p.table, false, catalog, Seq::empty()) {
        Err(x) => Err(x),
        Ok((table, own)) => match joined(p.joins, catalog, depth, outer, 0, Seq::empty(), own) {
            Err(x) => Err(x),
            Ok((joins, local)) => match with_outer(outer, 0, local) {
                Err(x) => Err(x),
                Ok(inputs) => match windows_allowed(p.filter, p.group_by, p.having, p.offset, p.limit) {
                    Err(x) => Err(x),
                    Ok(_) => match window_items(p.projection, inputs, 0, Seq::empty(), Seq::empty()) {
                        Err(x) => Err(x),
                        Ok((projection, w)) => match window_orders(p.order_by, inputs, 0, Seq::empty(), w) {
                            Err(x) => Err(x),
                            Ok((order_by, windows)) => match applied_clauses(
                                ClausesView { projection, filter: p.filter, group_by: p.group_by, having: p.having, order_by },
                                catalog,
                                inputs,
                                local.len() as usize,
                                depth,
                            ) {
                                Err(x) => Err(x),
                                Ok((clauses, applies)) => match tail_of(
                                    clauses,
                                    p.distinct,
                                    p.offset,
                                    p.limit,
                                    local,
                                    inputs,
                                    windows,
                                    applies.len(),
                                ) {
                                    Err(x) => Err(x),
                                    Ok(t) => Ok(advanced_statement(table, joins, applies, p.distinct, t)),
                                },
                            },
                        },
                    },
                },
            },
        },
    }
}

/// One layer of [`advanced_of`], over the results of its parts.
pub open spec fn advanced_of_layer(
    p: SelectPartsView,
    catalog: CatalogView,
    depth: usize,
    outer: Seq<InputColumnView>,
) -> Checked<BoundStatementView> {
    match input_table(p.table, false, catalog, Seq::empty()) {
        Err(x) => Err(x),
        Ok((table, own)) => match joined(p.joins, catalog, depth, outer, 0, Seq::empty(), own) {
            Err(x) => Err(x),
            Ok((joins, local)) => match with_outer(outer, 0, local) {
                Err(x) => Err(x),
                Ok(inputs) => match windows_allowed(p.filter, p.group_by, p.having, p.offset, p.limit) {
                    Err(x) => Err(x),
                    Ok(_) => match window_items(p.projection, inputs, 0, Seq::empty(), Seq::empty()) {
                        Err(x) => Err(x),
                        Ok((projection, w)) => match window_orders(p.order_by, inputs, 0, Seq::empty(), w) {
                            Err(x) => Err(x),
                            Ok((order_by, windows)) => match applied_clauses(
                                ClausesView { projection, filter: p.filter, group_by: p.group_by, having: p.having, order_by },
                                catalog,
                                inputs,
                                local.len() as usize,
                                depth,
                            ) {
                                Err(x) => Err(x),
                                Ok((clauses, applies)) => match tail_of(
                                    clauses,
                                    p.distinct,
                                    p.offset,
                                    p.limit,
                                    local,
                                    inputs,
                                    windows,
                                    applies.len(),
                                ) {
                                    Err(x) => Err(x),
                                    Ok(t) => Ok(advanced_statement(table, joins, applies, p.distinct, t)),
                                },
                            },
                        },
                    },
                },
            },
        },
    }
}

/// The result is its outermost layer over the results of its parts.
pub proof fn unfold_advanced_of(p: SelectPartsView, catalog: CatalogView, depth: usize, outer: Seq<InputColumnView>)
    ensures
        advanced_of(p, catalog, depth, outer) == advanced_of_layer(p, catalog, depth, outer),
{
    reveal(advanced_of);
    reveal(applied_clauses);
    reveal(joined);
}

/// The bound form of a statement one level further in.
#[verifier::opaque]
pub open spec fn deeper(s: ParsedStatementView, catalog: CatalogView, depth: usize) -> Checked<BoundStatementView>
    decreases usize::MAX - depth, 0int, s, 0int,
{
    if depth >= 64 {
        Err(too_deep())
    } else {
        statement_of(s, catalog, (depth + 1) as usize)
    }
}

/// The bound query of a view.
#[verifier::opaque]
pub open spec fn view_source(view: ViewDefinitionView, catalog: CatalogView, depth: usize) -> Checked<BoundStatementView>
    decreases usize::MAX - depth, 3int, view, 0int,
{
    match (match view.kind {
            ViewKind::Regular => match parsed_sql(view.query, SqlDialect::PostgreSql) {
                Err(x) => Err(x),
                Ok(s) => deeper(s, catalog, depth),
            },
            ViewKind::Materialized => materialized_source(view),
    }) {
        Err(x) => Err(x),
        Ok(source) => fitting_source(view, source),
    }
}

/// The bound form of a query on one table or view.
#[verifier::opaque]
pub open spec fn select_of(p: SelectPartsView, catalog: CatalogView, depth: usize) -> Checked<BoundStatementView>
    decreases usize::MAX - depth, 4int, p, 0int,
{
    match split_name(p.table.name) {
        Err(x) => Err(x),
        Ok(n) => match catalog.view_of(n.schema, n.name) {
            Some(view) => match view_query_plain(p.filter, p.order_by, p.offset, p.limit) {
                Err(x) => Err(x),
                Ok(_) => match view_source(view, catalog, depth) {
                    Err(x) => Err(x),
                    Ok(source) => view_select(view, p.projection, source),
                },
            },
            None => match named_table(p.table.name, catalog) {
                Err(x) => Err(x),
                Ok(table) => table_select(table, p.projection, p.filter, p.order_by, p.offset, p.limit),
            },
        },
    }
}

/// The bound query of the view that a data change is applied to, if it is a view.
#[verifier::opaque]
pub open spec fn target_source(target: DmlTarget, catalog: CatalogView, depth: usize) -> Checked<Option<BoundStatementView>>
    decreases usize::MAX - depth, 4int, target, 0int,
{
    match target {
        DmlTarget::Table(_) => Ok(None),
        DmlTarget::View(id) => match catalog.view_by_id(id) {
            None => Err(internal_error("bound view target disappeared"@)),
            Some(view) => match view_source(view, catalog, depth) {
                Err(x) => Err(x),
                Ok(source) => Ok(Some(source)),
            },
        },
    }
}

/// The state after a WITH query has been bound.
#[verifier::opaque]
pub open spec fn cte_of(
    c: ParsedCteView,
    recursive: bool,
    schema: Seq<char>,
    depth: usize,
    state: WithStateView,
) -> Checked<WithStateView>
    decreases usize::MAX - depth, 3int, c, 0int,
{
    match cte_parts(c, recursive, state.replacements) {
        Err(x) => Err(x),
        Ok(parts) => match deeper(parts.seed, state.catalog, depth) {
            Err(x) => Err(x),
            Ok(seed) => match cte_relation(c, seed, schema, state) {
                Err(x) => Err(x),
                Ok(r) => match parts.term {
                    None => Ok(with_cte(r, seed, None, parts.all)),
                    Some(term) => match rewritten(term, r.replacements, 0) {
                        Err(x) => Err(x),
                        Ok(term) => match deeper(term, r.catalog, depth) {
                            Err(x) => Err(x),
                            Ok(term) => match term_fits(r.output, term) {
                                Err(x) => Err(x),
                                Ok(_) => Ok(with_cte(r, seed, Some(term), parts.all)),
                            },
                        },
                    },
                },
            },
        },
    }
}

/// The state after WITH queries have been bound, from one of them on.
#[verifier::opaque]
pub open spec fn ctes_of(
    l: Seq<ParsedCteView>,
    recursive: bool,
    schema: Seq<char>,
    depth: usize,
    i: int,
    state: WithStateView,
) -> Checked<WithStateView>
    decreases usize::MAX - depth, 4int, l, l.len() - i,
{
    if i < 0 || i >= l.len() {
        Ok(state)
    } else {
        match cte_of(l[i], recursive, schema, depth, state) {
            Err(x) => Err(x),
            Ok(state) => ctes_of(l, recursive, schema, depth, i + 1, state),
        }
    }
}

/// The bound form of a statement with WITH queries.
#[verifier::opaque]
pub open spec fn with_of(
    recursive: bool,
    ctes: Seq<ParsedCteView>,
    body: ParsedStatementView,
    catalog: CatalogView,
    depth: usize,
) -> Checked<BoundStatementView>
    decreases usize::MAX - depth, 5int, body, 0int,
{
    match free_namespace(catalog, depth, 0) {
        Err(x) => Err(x),
        Ok(schema) => match with_schema(catalog, schema) {
            Err(x) => Err(x),
            Ok(catalog) => match ctes_of(
                ctes,
                recursive,
                schema,
                depth,
                0,
                WithStateView { catalog, replacements: Seq::empty(), ctes: Seq::empty() },
            ) {
                Err(x) => Err(x),
                Ok(state) => match rewritten(body, state.replacements, 0) {
                    Err(x) => Err(x),
                    Ok(body) => match deeper(body, state.catalog, depth) {
                        Err(x) => Err(x),
                        Ok(body) => with_statement(state, body),
                    },
                },
            },
        },
    }
}

/// The bound form of REFRESH MATERIALIZED VIEW.
#[verifier::opaque]
pub open spec fn refresh_of(
    name: ParsedObjectNameView,
    with_data: bool,
    catalog: CatalogView,
    depth: usize,
) -> Checked<BoundStatementView>
    decreases usize::MAX - depth, 4int, name, 0int,
{
    match refreshed_view(name, catalog) {
        Err(x) => Err(x),
        Ok((view, table_id)) => match parsed_sql(view.query, SqlDialect::PostgreSql) {
            Err(x) => Err(x),
            Ok(s) => match deeper(s, catalog, depth) {
                Err(x) => Err(x),
                Ok(query) => Ok(
                    BoundStatementView::RefreshMaterializedView { view_id: view.id, table_id, query: Box::new(query), with_data },
                ),
            },
        },
    }
}

/// The bound form of a statement. The depth counts the views and nested queries
/// around it.
#[verifier::opaque]
pub open spec fn statement_of(s: ParsedStatementView, catalog: CatalogView, depth: usize) -> Checked<BoundStatementView>
    decreases usize::MAX - depth, 6int, s, 0int,
{
    if depth > 64 {
        Err(too_deep())
    } else {
        match s {
            ParsedStatementView::CreateView {
                name,
                kind,
                query,
                query_sql,
                columns,
                replace,
                if_not_exists,
                with_data,
            } => match view_place(
                name,
                replace,
                if_not_exists,
                catalog,
            ) {
                Err(x) => Err(x),
                Ok(None) => Ok(BoundStatementView::NoOp { tag: "CREATE "@ + view_kind_label(kind) }),
                Ok(Some(place)) => match statement_of(*query, catalog, depth) {
                    Err(x) => Err(x),
                    Ok(q) => new_view(place, kind, q, query_sql, columns, replace, if_not_exists, with_data),
                },
            },
            ParsedStatementView::RefreshMaterializedView { name, with_data } => refresh_of(name, with_data, catalog, depth),
            ParsedStatementView::Insert { table, columns, rows, on_conflict, returning } => match dml_relation(
                table,
                TriggerEvent::Insert,
                catalog,
            ) {
                Err(x) => Err(x),
                Ok(relation) => match insert_parts(relation, columns, rows, on_conflict, returning) {
                    Err(x) => Err(x),
                    Ok(parts) => match target_source(relation.target, catalog, depth) {
                        Err(x) => Err(x),
                        Ok(source) => Ok(insert_statement(relation.target, parts, source)),
                    },
                },
            },
            ParsedStatementView::Update {
                table,
                assignments,
                filter,
                returning,
            } => match dml_relation(table, TriggerEvent::Update, catalog) {
                Err(x) => Err(x),
                Ok(relation) => match update_parts(relation, assignments, filter, returning) {
                    Err(x) => Err(x),
                    Ok(parts) => match target_source(relation.target, catalog, depth) {
                        Err(x) => Err(x),
                        Ok(source) => Ok(update_statement(relation.target, parts, source)),
                    },
                },
            },
            ParsedStatementView::Delete { table, filter, returning } => match dml_relation(table, TriggerEvent::Delete, catalog) {
                Err(x) => Err(x),
                Ok(relation) => match delete_parts(relation, filter, returning) {
                    Err(x) => Err(x),
                    Ok(parts) => match target_source(relation.target, catalog, depth) {
                        Err(x) => Err(x),
                        Ok(source) => Ok(delete_statement(relation.target, parts, source)),
                    },
                },
            },
            ParsedStatementView::With { recursive, ctes, body } => with_of(recursive, ctes, *body, catalog, depth),
            ParsedStatementView::SetOperation {
                left,
                operator,
                all,
                right,
                order_by,
                offset,
                limit,
            } => match deeper(*left, catalog, depth) {
                Err(x) => Err(x),
                Ok(left) => match deeper(*right, catalog, depth) {
                    Err(x) => Err(x),
                    Ok(right) => set_of(left, operator, all, right, order_by, offset, limit),
                },
            },
            ParsedStatementView::Select { table, projection, filter, order_by, offset, limit } => select_of(
                SelectPartsView {
                    table: ParsedTableView { name: table, alias: None },
                    joins: Seq::empty(),
                    projection,
                    distinct: false,
                    filter,
                    group_by: Seq::empty(),
                    having: None,
                    order_by,
                    offset,
                    limit,
                },
                catalog,
                depth,
            ),
            ParsedStatementView::AdvancedSelect {
                table,
                joins,
                projection,
                distinct,
                filter,
                group_by,
                having,
                order_by,
                offset,
                limit,
            } => advanced_of(
                SelectPartsView { table, joins, projection, distinct, filter, group_by, having, order_by, offset, limit },
                catalog,
                depth,
                Seq::empty(),
            ),
            ParsedStatementView::Explain { statement } => match statement_of(*statement, catalog, depth) {
                Err(x) => Err(x),
                Ok(b) => explained(b),
            },
            _ => match plain_statement(s, catalog) {
                Err(x) => Err(x),
                Ok(Some(b)) => Ok(b),
                Ok(None) => Err(internal_error("statement has no bound form"@)),
            },
        }
    }
}

} // verus!
