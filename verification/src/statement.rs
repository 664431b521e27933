//! Binds queries, and the statements that hold queries.

use vstd::pervasive::unreached;
use vstd::prelude::*;

use crate::binding::{bind_multi_boolean, bind_some_boolean, bound_view, make_expr, option_view, some_view};
use crate::bound::{bound_assignments, BoundApply, BoundCte, BoundExpr, BoundJoin, BoundJoinSource, BoundReturning, BoundStatement};
use crate::catalog::{Catalog, TriggerEvent, ViewDefinition, ViewKind};
use crate::dml::{bind_insert_parts, bind_update_assignments, resolve_dml_relation, DmlRelation, DmlTarget};
use crate::grouping::bound_expr_has_aggregate;
use crate::indexes::{bound_result, make_bound_statement};
use crate::inputs::{add_derived, bind_input_table, has_binding, inputs_with_outer};
use crate::names::{no_such_object, resolve_table, split_table_name};
use crate::parser::parse;
use crate::plain::bind_plain_statement;
use crate::predicates::expr_has_window;
use crate::queries::{
    bind_table_select, check_source, find_view_place, make_materialized_source, make_new_view, make_set_operation, make_view_select,
    view_label,
};
use crate::query_rules::{
    advanced_of, applied_clauses, applied_expr, applied_exprs, applied_front, applied_items, applied_option, applied_orders, applied_some,
    cte_of, cte_parts, cte_relation, cte_terms, ctes_of, deeper, delete_parts, derived_source, join_condition, join_source, joined, nested,
    query_of, refresh_of, refreshed_view, select_of, statement_of, target_source, term_fits, unfold_advanced_of, unfold_applied_clauses,
    update_parts, view_source, with_cte, with_of, with_statement, CtePartsView, CteRelationView, SelectPartsView, UpdatePartsView,
    WithStateView,
};
use crate::references::parsed_query_references_table;
use crate::rewrite::{find_replacement, rewrite_cte_references, Replacement};
use crate::scope::{expr_result, InputColumn};
use crate::select_list::{
    bind_returning, bind_tail, check_windows_allowed, lower_window_expr_items, lower_window_expr_orders, make_schema, Clauses,
};
use crate::subquery::{applied_result, apply_exists, apply_in, apply_quantified, apply_row, apply_scalar, bound_query_schema};
use crate::syntax::{
    JoinKind, ParsedCte, ParsedExpr, ParsedExprKind, ParsedIdentifier, ParsedJoin, ParsedJoinSource, ParsedObjectName, ParsedOrder,
    ParsedProjection, ParsedStatement, ParsedTable, QuerySetOperator,
};
use crate::text::{copy_items, text, text2, text3, text4};
use crate::transient::{
    apply_cte_column_aliases, create_cte_relation, create_schema, cte_replacement_name, ensure_recursive_cte_schema, find_namespace,
};
use crate::types::{unsupported, DbError, Identifier, Result, SYNTAX_ERROR, Schema, TableId, UNDEFINED_TABLE};

verus! {

/// The parts of a SELECT.
pub struct SelectParts<'a> {
    pub table: &'a ParsedTable,
    pub joins: &'a Vec<ParsedJoin>,
    pub projection: &'a Vec<ParsedProjection>,
    pub distinct: bool,
    pub filter: &'a Option<ParsedExpr>,
    pub group_by: &'a Vec<ParsedExpr>,
    pub having: &'a Option<ParsedExpr>,
    pub order_by: &'a Vec<ParsedOrder>,
    pub offset: &'a Option<ParsedExpr>,
    pub limit: &'a Option<ParsedExpr>,
}

impl<'a> SelectParts<'a> {
    /// The value as mathematical data.
    pub open spec fn view(&self) -> SelectPartsView {
        SelectPartsView {
            table: self.table@,
            joins: ParsedJoin::views(self.joins@),
            projection: ParsedProjection::views(self.projection@),
            distinct: self.distinct,
            filter: some_view(*self.filter),
            group_by: ParsedExpr::views(self.group_by@),
            having: some_view(*self.having),
            order_by: ParsedOrder::views(self.order_by@),
            offset: some_view(*self.offset),
            limit: some_view(*self.limit),
        }
    }
}

/// Replaces the subqueries of an expression by slots and collects the subqueries.
pub fn lower_apply_expr(
    expr: &ParsedExpr,
    catalog: &Catalog,
    inputs: &Vec<InputColumn>,
    base: usize,
    depth: usize,
    applies: Vec<BoundApply>,
) -> (r: Result<(ParsedExpr, Vec<BoundApply>)>)
    ensures
        applied_result(r) == applied_expr(expr@, catalog@, InputColumn::views(inputs@), base, depth, BoundApply::views(applies@)),
    decreases usize::MAX - depth, 1int, expr, 0int,
{
    proof {
        expr.unfold();
        reveal(applied_expr);
        reveal(applied_exprs);
        reveal(applied_option);
        reveal(nested);
    }
    let position = expr.position;
    match &expr.kind {
        ParsedExprKind::Unary { op, expr } => {
            let (expr, applies) = lower_apply_expr(expr, catalog, inputs, base, depth, applies)?;
            Ok((make_expr(ParsedExprKind::Unary { op: *op, expr: Box::new(expr) }, position), applies))
        },
        ParsedExprKind::Cast { expr, data_type, declared_type } => {
            let (expr, applies) = lower_apply_expr(expr, catalog, inputs, base, depth, applies)?;
            Ok(
                (
                    make_expr(
                        ParsedExprKind::Cast { expr: Box::new(expr), data_type: data_type.clone(), declared_type: declared_type.clone() },
                        position,
                    ),
                    applies,
                ),
            )
        },
        ParsedExprKind::Array { elements, dimensions } => {
            let (elements, applies) = lower_apply_exprs(elements, catalog, inputs, base, depth, applies)?;
            Ok((make_expr(ParsedExprKind::Array { elements, dimensions: copy_items(dimensions) }, position), applies))
        },
        ParsedExprKind::Function { function, arguments } => {
            let (arguments, applies) = lower_apply_exprs(arguments, catalog, inputs, base, depth, applies)?;
            Ok((make_expr(ParsedExprKind::Function { function: *function, arguments }, position), applies))
        },
        ParsedExprKind::Binary { left, op, right } => {
            let (left, applies) = lower_apply_expr(left, catalog, inputs, base, depth, applies)?;
            let (right, applies) = lower_apply_expr(right, catalog, inputs, base, depth, applies)?;
            Ok((make_expr(ParsedExprKind::Binary { left: Box::new(left), op: *op, right: Box::new(right) }, position), applies))
        },
        ParsedExprKind::InList { expr, list, negated } => {
            let (expr, applies) = lower_apply_expr(expr, catalog, inputs, base, depth, applies)?;
            let (list, applies) = lower_apply_exprs(list, catalog, inputs, base, depth, applies)?;
            Ok((make_expr(ParsedExprKind::InList { expr: Box::new(expr), list, negated: *negated }, position), applies))
        },
        ParsedExprKind::Aggregate { function, argument, distinct, filter } => {
            let (argument, applies) = lower_apply_option(argument, catalog, inputs, base, depth, applies)?;
            let (filter, applies) = lower_apply_option(filter, catalog, inputs, base, depth, applies)?;
            Ok((make_expr(ParsedExprKind::Aggregate { function: *function, argument, distinct: *distinct, filter }, position), applies))
        },
        ParsedExprKind::ScalarSubquery(subquery) => {
            let query = bind_nested(subquery, catalog, depth, inputs)?;
            apply_scalar(query, base, applies, position)
        },
        ParsedExprKind::Exists { subquery, negated } => {
            let query = bind_nested(subquery, catalog, depth, inputs)?;
            apply_exists(query, *negated, base, applies, position)
        },
        ParsedExprKind::InSubquery { expr, subquery, negated } => {
            let (left, applies) = lower_apply_expr(expr, catalog, inputs, base, depth, applies)?;
            let query = bind_nested(subquery, catalog, depth, inputs)?;
            apply_in(&left, query, *negated, inputs, base, applies, position)
        },
        ParsedExprKind::QuantifiedSubquery { left, op, quantifier, subquery } => {
            let (left, applies) = lower_apply_expr(left, catalog, inputs, base, depth, applies)?;
            let query = bind_nested(subquery, catalog, depth, inputs)?;
            apply_quantified(&left, *op, *quantifier, query, inputs, base, applies, position)
        },
        ParsedExprKind::RowSubquery { left, op, quantifier, negated, subquery } => {
            let (left, applies) = lower_apply_exprs(left, catalog, inputs, base, depth, applies)?;
            let query = bind_nested(subquery, catalog, depth, inputs)?;
            apply_row(&left, *op, *quantifier, *negated, query, inputs, base, applies, position)
        },
        _ => Ok((expr.clone(), applies)),
    }
}

fn lower_apply_exprs(
    l: &Vec<ParsedExpr>,
    catalog: &Catalog,
    inputs: &Vec<InputColumn>,
    base: usize,
    depth: usize,
    applies: Vec<BoundApply>,
) -> (r: Result<(Vec<ParsedExpr>, Vec<BoundApply>)>)
    ensures
        (match r {
            Ok(x) => Ok((ParsedExpr::views(x.0@), BoundApply::views(x.1@))),
            Err(x) => Err(x@),
        }) == applied_exprs(
            ParsedExpr::views(l@),
            catalog@,
            InputColumn::views(inputs@),
            base,
            depth,
            0,
            Seq::empty(),
            BoundApply::views(applies@),
        ),
    decreases usize::MAX - depth, 1int, l, 0int,
{
    let ghost v = ParsedExpr::views(l@);
    let ghost start = BoundApply::views(applies@);
    let mut found: Vec<BoundApply> = applies;
    let mut out: Vec<ParsedExpr> = Vec::new();
    assert(ParsedExpr::views(out@) =~= Seq::empty());
    for i in 0..l.len()
        invariant
            v == ParsedExpr::views(l@),
            start == BoundApply::views(applies@),
            applied_exprs(v, catalog@, InputColumn::views(inputs@), base, depth, 0, Seq::empty(), start) == applied_exprs(
                v,
                catalog@, InputColumn::views(inputs@), base, depth,
                i as int,
                ParsedExpr::views(out@),
                BoundApply::views(found@),
            ),
    {
        assert(decreases_to!(l => l@[i as int]));
        assert(v[i as int] == l@[i as int]@);
        let ghost before = ParsedExpr::views(out@);
        proof {
            reveal(applied_exprs);
            reveal(applied_expr);
        }
        let (x, next) = lower_apply_expr(&l[i], catalog, inputs, base, depth, found)?;
        found = next;
        out.push(x);
        assert(ParsedExpr::views(out@) =~= before.push(x@));
    }
    proof {
        reveal(applied_exprs);
        reveal(applied_expr);
    }
    Ok((out, found))
}

fn lower_apply_items(
    l: &Vec<ParsedProjection>,
    catalog: &Catalog,
    inputs: &Vec<InputColumn>,
    base: usize,
    depth: usize,
    applies: Vec<BoundApply>,
) -> (r: Result<(Vec<ParsedProjection>, Vec<BoundApply>)>)
    ensures
        (match r {
            Ok(x) => Ok((ParsedProjection::views(x.0@), BoundApply::views(x.1@))),
            Err(x) => Err(x@),
        }) == applied_items(
            ParsedProjection::views(l@),
            catalog@,
            InputColumn::views(inputs@),
            base,
            depth,
            0,
            Seq::empty(),
            BoundApply::views(applies@),
        ),
    decreases usize::MAX - depth, 1int, l, 0int,
{
    let ghost v = ParsedProjection::views(l@);
    let ghost start = BoundApply::views(applies@);
    let mut found: Vec<BoundApply> = applies;
    let mut out: Vec<ParsedProjection> = Vec::new();
    assert(ParsedProjection::views(out@) =~= Seq::empty());
    for i in 0..l.len()
        invariant
            v == ParsedProjection::views(l@),
            start == BoundApply::views(applies@),
            applied_items(v, catalog@, InputColumn::views(inputs@), base, depth, 0, Seq::empty(), start) == applied_items(
                v,
                catalog@, InputColumn::views(inputs@), base, depth,
                i as int,
                ParsedProjection::views(out@),
                BoundApply::views(found@),
            ),
    {
        assert(decreases_to!(l => l@[i as int]));
        assert(v[i as int] == l@[i as int]@);
        let ghost before = ParsedProjection::views(out@);
        proof {
            reveal(applied_items);
            reveal(applied_expr);
        }
        proof {
            l@[i as int].unfold();
        }
        let x = match &l[i] {
            ParsedProjection::Wildcard => ParsedProjection::Wildcard,
            ParsedProjection::Expression { expr, alias } => {
                let (e, next) = lower_apply_expr(expr, catalog, inputs, base, depth, found)?;
                found = next;
                ParsedProjection::Expression { expr: e, alias: alias.clone() }
            },
        };
        proof {
            x.unfold();
        }
        out.push(x);
        assert(ParsedProjection::views(out@) =~= before.push(x@));
    }
    proof {
        reveal(applied_items);
        reveal(applied_expr);
    }
    Ok((out, found))
}

fn lower_apply_orders(
    l: &Vec<ParsedOrder>,
    catalog: &Catalog,
    inputs: &Vec<InputColumn>,
    base: usize,
    depth: usize,
    applies: Vec<BoundApply>,
) -> (r: Result<(Vec<ParsedOrder>, Vec<BoundApply>)>)
    ensures
        (match r {
            Ok(x) => Ok((ParsedOrder::views(x.0@), BoundApply::views(x.1@))),
            Err(x) => Err(x@),
        }) == applied_orders(
            ParsedOrder::views(l@),
            catalog@,
            InputColumn::views(inputs@),
            base,
            depth,
            0,
            Seq::empty(),
            BoundApply::views(applies@),
        ),
    decreases usize::MAX - depth, 1int, l, 0int,
{
    let ghost v = ParsedOrder::views(l@);
    let ghost start = BoundApply::views(applies@);
    let mut found: Vec<BoundApply> = applies;
    let mut out: Vec<ParsedOrder> = Vec::new();
    assert(ParsedOrder::views(out@) =~= Seq::empty());
    for i in 0..l.len()
        invariant
            v == ParsedOrder::views(l@),
            start == BoundApply::views(applies@),
            applied_orders(v, catalog@, InputColumn::views(inputs@), base, depth, 0, Seq::empty(), start) == applied_orders(
                v,
                catalog@, InputColumn::views(inputs@), base, depth,
                i as int,
                ParsedOrder::views(out@),
                BoundApply::views(found@),
            ),
    {
        assert(decreases_to!(l => l@[i as int]));
        assert(v[i as int] == l@[i as int]@);
        let ghost before = ParsedOrder::views(out@);
        proof {
            reveal(applied_orders);
            reveal(applied_expr);
        }
        proof {
            l@[i as int].unfold();
        }
        let (e, next) = lower_apply_expr(&l[i].expr, catalog, inputs, base, depth, found)?;
        found = next;
        let x = ParsedOrder { expr: e, ascending: l[i].ascending, nulls_first: l[i].nulls_first };
        proof {
            x.unfold();
        }
        out.push(x);
        assert(ParsedOrder::views(out@) =~= before.push(x@));
    }
    proof {
        reveal(applied_orders);
        reveal(applied_expr);
    }
    Ok((out, found))
}

fn lower_apply_option(
    e: &Option<Box<ParsedExpr>>,
    catalog: &Catalog,
    inputs: &Vec<InputColumn>,
    base: usize,
    depth: usize,
    applies: Vec<BoundApply>,
) -> (r: Result<(Option<Box<ParsedExpr>>, Vec<BoundApply>)>)
    ensures
        (match r {
            Ok(x) => Ok((option_view(x.0), BoundApply::views(x.1@))),
            Err(x) => Err(x@),
        }) == applied_option(option_view(*e), catalog@, InputColumn::views(inputs@), base, depth, BoundApply::views(applies@)),
    decreases usize::MAX - depth, 1int, e, 0int,
{
    proof {
        reveal(applied_option);
        reveal(applied_expr);
    }
    match e {
        None => Ok((None, applies)),
        Some(e) => {
            let (b, applies) = lower_apply_expr(e, catalog, inputs, base, depth, applies)?;
            Ok((Some(Box::new(b)), applies))
        },
    }
}

fn lower_apply_some(
    e: &Option<ParsedExpr>,
    catalog: &Catalog,
    inputs: &Vec<InputColumn>,
    base: usize,
    depth: usize,
    applies: Vec<BoundApply>,
) -> (r: Result<(Option<ParsedExpr>, Vec<BoundApply>)>)
    ensures
        (match r {
            Ok(x) => Ok((some_view(x.0), BoundApply::views(x.1@))),
            Err(x) => Err(x@),
        }) == applied_some(some_view(*e), catalog@, InputColumn::views(inputs@), base, depth, BoundApply::views(applies@)),
    decreases usize::MAX - depth, 1int, e, 0int,
{
    proof {
        reveal(applied_some);
        reveal(applied_expr);
    }
    match e {
        None => Ok((None, applies)),
        Some(e) => {
            let (b, applies) = lower_apply_expr(e, catalog, inputs, base, depth, applies)?;
            Ok((Some(b), applies))
        },
    }
}

fn lower_apply_clauses(
    c: &Clauses,
    catalog: &Catalog,
    inputs: &Vec<InputColumn>,
    base: usize,
    depth: usize,
) -> (r: Result<(Clauses, Vec<BoundApply>)>)
    ensures
        (match r {
            Ok(x) => Ok((x.0@, BoundApply::views(x.1@))),
            Err(x) => Err(x@),
        }) == applied_clauses(c@, catalog@, InputColumn::views(inputs@), base, depth),
    decreases usize::MAX - depth, 3int, catalog, 0int,
{
    proof {
        unfold_applied_clauses(c@, catalog@, InputColumn::views(inputs@), base, depth);
        reveal(applied_front);
        reveal(applied_exprs);
        reveal(applied_items);
        reveal(applied_some);
    }
    let none: Vec<BoundApply> = Vec::new();
    assert(BoundApply::views(none@) =~= Seq::empty());
    let (projection, applies) = lower_apply_items(&c.projection, catalog, inputs, base, depth, none)?;
    let (filter, applies) = lower_apply_some(&c.filter, catalog, inputs, base, depth, applies)?;
    let (group_by, applies) = lower_apply_exprs(&c.group_by, catalog, inputs, base, depth, applies)?;
    let (having, applies) = lower_apply_some(&c.having, catalog, inputs, base, depth, applies)?;
    let (order_by, applies) = lower_apply_orders(&c.order_by, catalog, inputs, base, depth, applies)?;
    Ok((Clauses { projection, filter, group_by, having, order_by }, applies))
}

fn bind_nested(statement: &ParsedStatement, catalog: &Catalog, depth: usize, inputs: &Vec<InputColumn>) -> (r: Result<BoundStatement>)
    ensures
        bound_result(r) == nested(statement@, catalog@, depth, InputColumn::views(inputs@)),
    decreases usize::MAX - depth, 0int, statement, 0int,
{
    proof {
        reveal(nested);
        reveal(query_of);
    }
    if depth == usize::MAX {
        return Err(DbError::new("54001", text("subquery nesting exceeds the implementation limit")));
    }
    bind_apply_query(statement, catalog, depth + 1, inputs)
}

/// Binds a query that can refer to the columns of enclosing queries.
pub fn bind_apply_query(
    statement: &ParsedStatement,
    catalog: &Catalog,
    depth: usize,
    outer_inputs: &Vec<InputColumn>,
) -> (r: Result<BoundStatement>)
    ensures
        bound_result(r) == query_of(statement@, catalog@, depth, InputColumn::views(outer_inputs@)),
    decreases usize::MAX - depth, 7int, statement, 0int,
{
    proof {
        statement.unfold();
        reveal(query_of);
        reveal(advanced_of);
        reveal(statement_of);
    }
    match statement {
        ParsedStatement::Select { table, projection, filter, order_by, offset, limit } => {
            let table = ParsedTable { name: table.clone(), alias: None };
            let joins: Vec<ParsedJoin> = Vec::new();
            let group_by: Vec<ParsedExpr> = Vec::new();
            assert(ParsedJoin::views(joins@) =~= Seq::empty());
            assert(ParsedExpr::views(group_by@) =~= Seq::empty());
            let parts = SelectParts {
                table: &table,
                joins: &joins,
                projection,
                distinct: false,
                filter,
                group_by: &group_by,
                having: &None,
                order_by,
                offset,
                limit,
            };
            bind_advanced_select(&parts, catalog, depth, outer_inputs)
        },
        ParsedStatement::AdvancedSelect { table, joins, projection, distinct, filter, group_by, having, order_by, offset, limit } => {
            let parts = SelectParts {
                table,
                joins,
                projection,
                distinct: *distinct,
                filter,
                group_by,
                having,
                order_by,
                offset,
                limit,
            };
            bind_advanced_select(&parts, catalog, depth, outer_inputs)
        },
        _ => bind_with_view_depth(statement, catalog, depth),
    }
}

fn make_derived_source(
    query: BoundStatement,
    lateral: bool,
    alias: &ParsedIdentifier,
    columns: &Vec<ParsedIdentifier>,
    nullable: bool,
    local: Vec<InputColumn>,
) -> (r: Result<(BoundJoinSource, Vec<InputColumn>)>)
    ensures
        (match r {
            Ok(x) => Ok((x.0@, InputColumn::views(x.1@))),
            Err(x) => Err(x@),
        }) == derived_source(query@, lateral, alias@, ParsedIdentifier::views(columns@), nullable, InputColumn::views(local@)),
{
    reveal(derived_source);
    let schema = bound_query_schema(&query)?;
    if columns.len() > schema.fields.len() {
        return Err(DbError::at(SYNTAX_ERROR, text("derived table has more column aliases than output columns"), alias.position));
    }
    let offset: usize = local.len();
    let width: usize = schema.fields.len();
    let all = add_derived(&alias.name, &schema.fields, columns, nullable, local);
    let source = BoundJoinSource::Derived {
        lateral,
        query: Box::new(query),
        binding: alias.name.clone(),
        offset,
        width,
        nullable,
    };
    proof {
        source.unfold();
    }
    Ok((source, all))
}

/// Binds a source of a FROM clause.
pub fn bind_join_source(
    source: &ParsedJoinSource,
    nullable: bool,
    catalog: &Catalog,
    depth: usize,
    outer_inputs: &Vec<InputColumn>,
    local: Vec<InputColumn>,
) -> (r: Result<(BoundJoinSource, Vec<InputColumn>)>)
    ensures
        (match r {
            Ok(x) => Ok((x.0@, InputColumn::views(x.1@))),
            Err(x) => Err(x@),
        }) == join_source(source@, nullable, catalog@, depth, InputColumn::views(outer_inputs@), InputColumn::views(local@)),
    decreases usize::MAX - depth, 2int, source, 0int,
{
    proof {
        source.unfold();
        reveal(join_source);
        reveal(query_of);
    }
    match source {
        ParsedJoinSource::Table(t) => {
            let (table, all) = bind_input_table(t, nullable, catalog, local)?;
            let b = BoundJoinSource::Table(table);
            proof {
                b.unfold();
            }
            Ok((b, all))
        },
        ParsedJoinSource::Derived { lateral, query, alias, columns } => {
            if has_binding(&local, &alias.name) {
                return Err(
                    DbError::at("42712", text3("table name ", alias.name.as_str(), " specified more than once"), alias.position),
                );
            }
            let visible: Vec<InputColumn> = if *lateral {
                inputs_with_outer(&local, outer_inputs)?
            } else {
                Vec::new()
            };
            assert(!*lateral ==> InputColumn::views(visible@) =~= Seq::empty());
            if depth == usize::MAX {
                return Err(DbError::new("54001", text("derived table nesting exceeds the implementation limit")));
            }
            let q = bind_apply_query(query, catalog, depth + 1, &visible)?;
            make_derived_source(q, *lateral, alias, columns, nullable, local)
        },
    }
}

fn bind_join_condition(on: &ParsedExpr, outer_inputs: &Vec<InputColumn>, local: &Vec<InputColumn>) -> (r: Result<BoundExpr>)
    ensures
        expr_result(r) == join_condition(on@, InputColumn::views(outer_inputs@), InputColumn::views(local@)),
{
    reveal(join_condition);
    let inputs = inputs_with_outer(local, outer_inputs)?;
    let b = bind_multi_boolean(on, &inputs)?;
    if bound_expr_has_aggregate(&b) {
        return Err(DbError::new("42803", text("aggregate functions are not allowed in JOIN conditions")));
    }
    Ok(b)
}

fn bind_joins(l: &Vec<ParsedJoin>, catalog: &Catalog, depth: usize, outer_inputs: &Vec<InputColumn>, own: Vec<InputColumn>) -> (r: Result<
    (Vec<BoundJoin>, Vec<InputColumn>),
>)
    ensures
        (match r {
            Ok(x) => Ok((BoundJoin::views(x.0@), InputColumn::views(x.1@))),
            Err(x) => Err(x@),
        }) == joined(
            ParsedJoin::views(l@),
            catalog@,
            depth,
            InputColumn::views(outer_inputs@),
            0,
            Seq::empty(),
            InputColumn::views(own@),
        ),
    decreases usize::MAX - depth, 3int, l, 0int,
{
    let ghost v = ParsedJoin::views(l@);
    let ghost o = InputColumn::views(outer_inputs@);
    let ghost start = InputColumn::views(own@);
    let mut local: Vec<InputColumn> = own;
    let mut out: Vec<BoundJoin> = Vec::new();
    assert(BoundJoin::views(out@) =~= Seq::empty());
    for i in 0..l.len()
        invariant
            v == ParsedJoin::views(l@),
            o == InputColumn::views(outer_inputs@),
            start == InputColumn::views(own@),
            joined(v, catalog@, depth, o, 0, Seq::empty(), start) == joined(
                v,
                catalog@,
                depth,
                o,
                i as int,
                BoundJoin::views(out@),
                InputColumn::views(local@),
            ),
    {
        assert(decreases_to!(l => l@[i as int]));
        assert(v[i as int] == l@[i as int]@);
        let ghost before = BoundJoin::views(out@);
        proof {
            l@[i as int].unfold();
            reveal(joined);
            reveal(join_source);
        }
        if expr_has_window(&l[i].on) {
            return Err(DbError::new("42P20", text("window functions are not allowed in JOIN conditions")));
        }
        let nullable = l[i].kind == JoinKind::Left;
        let (source, next) = bind_join_source(&l[i].source, nullable, catalog, depth, outer_inputs, local)?;
        local = next;
        let on = bind_join_condition(&l[i].on, outer_inputs, &local)?;
        let x = BoundJoin { source, kind: l[i].kind, on };
        proof {
            x.unfold();
        }
        out.push(x);
        assert(BoundJoin::views(out@) =~= before.push(x@));
    }
    proof {
        reveal(joined);
        reveal(join_source);
    }
    Ok((out, local))
}

/// Binds a query with joins, grouping, subqueries or windows.
pub fn bind_advanced_select(
    parts: &SelectParts,
    catalog: &Catalog,
    depth: usize,
    outer_inputs: &Vec<InputColumn>,
) -> (r: Result<BoundStatement>)
    ensures
        bound_result(r) == advanced_of(parts@, catalog@, depth, InputColumn::views(outer_inputs@)),
    decreases usize::MAX - depth, 4int, catalog, 0int,
{
    proof {
        unfold_advanced_of(parts@, catalog@, depth, InputColumn::views(outer_inputs@));
    }
    let none: Vec<InputColumn> = Vec::new();
    assert(InputColumn::views(none@) =~= Seq::empty());
    let (table, own) = bind_input_table(parts.table, false, catalog, none)?;
    let (joins, local) = bind_joins(parts.joins, catalog, depth, outer_inputs, own)?;
    let inputs = inputs_with_outer(&local, outer_inputs)?;
    check_windows_allowed(parts.filter, parts.group_by, parts.having, parts.offset, parts.limit)?;
    let no_windows: Vec<crate::bound::BoundWindow> = Vec::new();
    assert(crate::bound::BoundWindow::views(no_windows@) =~= Seq::empty());
    let (projection, w) = lower_window_expr_items(parts.projection, &inputs, no_windows)?;
    let (order_by, windows) = lower_window_expr_orders(parts.order_by, &inputs, w)?;
    let clauses = Clauses {
        projection,
        filter: parts.filter.clone(),
        group_by: ParsedExpr::clone_all(parts.group_by),
        having: parts.having.clone(),
        order_by,
    };
    let (clauses, applies) = lower_apply_clauses(&clauses, catalog, &inputs, local.len(), depth)?;
    assert(BoundApply::views(applies@).len() == applies@.len());
    let t = bind_tail(clauses, parts.distinct, parts.offset, parts.limit, &local, &inputs, windows, applies.len())?;
    let limit: Option<Box<BoundExpr>> = match t.limit {
        Some(e) => Some(Box::new(e)),
        None => None,
    };
    Ok(
        make_bound_statement(
            BoundStatement::AdvancedSelect {
                table,
                joins,
                applies,
                windows: t.clauses.windows,
                schema: make_schema(&t.clauses.projection),
                projection: t.clauses.projection,
                distinct: parts.distinct,
                filter: t.clauses.filter,
                group_by: t.clauses.group_by,
                having: t.clauses.having,
                order_by: t.order_by,
                offset: t.offset,
                limit,
                aggregate: t.clauses.aggregate,
            },
        ),
    )
}

fn bind_deeper(statement: &ParsedStatement, catalog: &Catalog, depth: usize) -> (r: Result<BoundStatement>)
    ensures
        bound_result(r) == deeper(statement@, catalog@, depth),
    decreases usize::MAX - depth, 0int, statement, 0int,
{
    proof {
        reveal(deeper);
        reveal(statement_of);
    }
    if depth >= 64 {
        return Err(DbError::new("54001", text("view expansion exceeds the maximum depth of 64")));
    }
    bind_with_view_depth(statement, catalog, depth + 1)
}

/// Binds the query of a view.
pub fn bind_view_source(view: &ViewDefinition, catalog: &Catalog, depth: usize) -> (r: Result<BoundStatement>)
    ensures
        bound_result(r) == view_source(view@, catalog@, depth),
    decreases usize::MAX - depth, 3int, catalog, 0int,
{
    proof {
        reveal(view_source);
        reveal(deeper);
    }
    let source = match view.kind {
        ViewKind::Regular => {
            let s = parse(view.query.as_str())?;
            bind_deeper(&s, catalog, depth)?
        },
        ViewKind::Materialized => make_materialized_source(view)?,
    };
    check_source(view, source)
}

/// Binds a query on one table or view.
pub fn bind_select(parts: &SelectParts, catalog: &Catalog, depth: usize) -> (r: Result<BoundStatement>)
    ensures
        bound_result(r) == select_of(parts@, catalog@, depth),
    decreases usize::MAX - depth, 4int, catalog, 0int,
{
    proof {
        reveal(select_of);
        reveal(view_source);
    }
    let (schema, relation, _) = split_table_name(&parts.table.name)?;
    if let Some(view) = catalog.view_named(&schema, &relation) {
        if parts.filter.is_some() || parts.order_by.len() > 0 || parts.offset.is_some() || parts.limit.is_some() {
            return Err(unsupported("WHERE, ORDER BY, OFFSET, and LIMIT on views are not supported in this milestone"));
        }
        let source = bind_view_source(view, catalog, depth)?;
        return make_view_select(view, parts.projection, source);
    }
    let table = resolve_table(&parts.table.name, catalog)?;
    bind_table_select(table, parts.projection, parts.filter, parts.order_by, parts.offset, parts.limit)
}

fn bind_target_source(target: DmlTarget, catalog: &Catalog, depth: usize) -> (r: Result<Option<BoundStatement>>)
    ensures
        crate::plain::plain_result(r) == target_source(target, catalog@, depth),
        r matches Ok(s) ==> (s is Some) == (target is View),
    decreases usize::MAX - depth, 4int, catalog, 0int,
{
    proof {
        reveal(target_source);
        reveal(view_source);
    }
    match target {
        DmlTarget::Table(_) => Ok(None),
        DmlTarget::View(id) => match catalog.view_by_id(id) {
            None => Err(DbError::internal("bound view target disappeared")),
            Some(view) => {
                let source = bind_view_source(view, catalog, depth)?;
                Ok(Some(source))
            },
        },
    }
}

/// What binding WITH queries has produced so far.
pub struct WithState {
    pub catalog: Catalog,
    pub replacements: Vec<Replacement>,
    pub ctes: Vec<BoundCte>,
}

impl WithState {
    /// The value as mathematical data.
    pub open spec fn view(&self) -> WithStateView {
        WithStateView { catalog: self.catalog@, replacements: Replacement::views(self.replacements@), ctes: BoundCte::views(self.ctes@) }
    }
}

/// The terms of a WITH query.
pub struct CteParts {
    pub seed: ParsedStatement,
    pub term: Option<ParsedStatement>,
    pub all: bool,
}

impl CteParts {
    /// The value as mathematical data.
    pub open spec fn view(&self) -> CtePartsView {
        CtePartsView {
            seed: self.seed@,
            term: match self.term {
                Some(t) => Some(t@),
                None => None,
            },
            all: self.all,
        }
    }
}

fn split_terms(query: &ParsedStatement, recursive: bool) -> (r: Result<CteParts>)
    ensures
        (match r {
            Ok(p) => Ok(p@),
            Err(e) => Err(e@),
        }) == cte_terms(query@, recursive),
{
    if !recursive {
        return Ok(CteParts { seed: query.clone(), term: None, all: false });
    }
    proof {
        query.unfold();
    }
    if let ParsedStatement::SetOperation { left, operator, all, right, order_by, offset, limit } = query {
        if *operator == QuerySetOperator::Union && order_by.len() == 0 && offset.is_none() && limit.is_none() {
            return Ok(CteParts { seed: (**left).clone(), term: Some((**right).clone()), all: *all });
        }
    }
    Err(unsupported("recursive CTEs require a top-level UNION or UNION ALL"))
}

fn find_cte_parts(c: &ParsedCte, recursive: bool, replacements: &Vec<Replacement>) -> (r: Result<CteParts>)
    ensures
        (match r {
            Ok(p) => Ok(p@),
            Err(e) => Err(e@),
        }) == cte_parts(c@, recursive, Replacement::views(replacements@)),
{
    reveal(cte_parts);
    proof {
        c.unfold();
    }
    if find_replacement(replacements, &c.name.name).is_some() {
        return Err(
            DbError::at("42712", text3("WITH query name ", c.name.name.as_str(), " specified more than once"), c.name.position),
        );
    }
    let repeats = if recursive {
        parsed_query_references_table(&c.query, &c.name.name, 0)?
    } else {
        false
    };
    let parts = split_terms(&c.query, repeats)?;
    let seed = rewrite_cte_references(&parts.seed, replacements, 0)?;
    if repeats {
        if parsed_query_references_table(&seed, &c.name.name, 0)? {
            return Err(DbError::new("42P19", text("recursive reference must not appear within the non-recursive term")));
        }
    }
    Ok(CteParts { seed, term: parts.term, all: parts.all })
}

/// A WITH query whose relation has been created.
pub struct CteRelation {
    pub state: WithState,
    pub output: Schema,
    pub table_id: TableId,
}

impl CteRelation {
    /// The value as mathematical data.
    pub open spec fn view(&self) -> CteRelationView {
        CteRelationView {
            catalog: self.state.catalog@,
            replacements: Replacement::views(self.state.replacements@),
            ctes: BoundCte::views(self.state.ctes@),
            output: self.output@,
            table_id: self.table_id,
        }
    }
}

fn make_cte_relation(c: &ParsedCte, seed: &BoundStatement, schema: &Identifier, state: WithState) -> (r: Result<CteRelation>)
    ensures
        (match r {
            Ok(x) => Ok(x@),
            Err(x) => Err(x@),
        }) == cte_relation(c@, seed@, schema@, state@),
{
    reveal(cte_relation);
    proof {
        c.unfold();
    }
    let s = bound_query_schema(seed)?;
    let output = apply_cte_column_aliases(&c.name, &c.columns, s)?;
    let (catalog, table_id) = create_cte_relation(state.catalog, schema, &c.name, &output)?;
    let mut replacements = state.replacements;
    let ghost before = Replacement::views(replacements@);
    let x = Replacement { name: c.name.name.clone(), target: cte_replacement_name(schema, &c.name) };
    replacements.push(x);
    assert(Replacement::views(replacements@) =~= before.push(x@));
    Ok(CteRelation { state: WithState { catalog, replacements, ctes: state.ctes }, output, table_id })
}

fn check_term(output: &Schema, term: &BoundStatement) -> (r: Result<()>)
    ensures
        crate::grouping::check_result(r) == term_fits(output@, term@),
{
    reveal(term_fits);
    let s = bound_query_schema(term)?;
    ensure_recursive_cte_schema(output, &s)
}

fn add_cte(r: CteRelation, seed: BoundStatement, term: Option<BoundStatement>, all: bool) -> (out: WithState)
    ensures
        out@ == with_cte(
            r@,
            seed@,
            (match term {
                Some(t) => Some(t@),
                None => None,
            }),
            all,
        ),
{
    let recursive: Option<Box<BoundStatement>> = match term {
        Some(t) => Some(Box::new(t)),
        None => None,
    };
    let c = BoundCte { table_id: r.table_id, seed: Box::new(seed), recursive, union_all: all };
    proof {
        c.unfold();
    }
    let mut ctes = r.state.ctes;
    let ghost before = BoundCte::views(ctes@);
    ctes.push(c);
    assert(BoundCte::views(ctes@) =~= before.push(c@));
    WithState { catalog: r.state.catalog, replacements: r.state.replacements, ctes }
}

fn bind_cte(c: &ParsedCte, recursive: bool, schema: &Identifier, depth: usize, state: WithState) -> (r: Result<WithState>)
    ensures
        (match r {
            Ok(x) => Ok(x@),
            Err(x) => Err(x@),
        }) == cte_of(c@, recursive, schema@, depth, state@),
    decreases usize::MAX - depth, 3int, c, 0int,
{
    proof {
        reveal(cte_of);
        reveal(deeper);
    }
    let parts = find_cte_parts(c, recursive, &state.replacements)?;
    let seed = bind_deeper(&parts.seed, &state.catalog, depth)?;
    let relation = make_cte_relation(c, &seed, schema, state)?;
    match &parts.term {
        None => Ok(add_cte(relation, seed, None, parts.all)),
        Some(term) => {
            let term = rewrite_cte_references(term, &relation.state.replacements, 0)?;
            let term = bind_deeper(&term, &relation.state.catalog, depth)?;
            check_term(&relation.output, &term)?;
            Ok(add_cte(relation, seed, Some(term), parts.all))
        },
    }
}

fn bind_ctes(l: &Vec<ParsedCte>, recursive: bool, schema: &Identifier, depth: usize, state: WithState) -> (r: Result<WithState>)
    ensures
        (match r {
            Ok(x) => Ok(x@),
            Err(x) => Err(x@),
        }) == ctes_of(ParsedCte::views(l@), recursive, schema@, depth, 0, state@),
    decreases usize::MAX - depth, 4int, l, 0int,
{
    let ghost v = ParsedCte::views(l@);
    let ghost start = state@;
    let mut now: WithState = state;
    for i in 0..l.len()
        invariant
            v == ParsedCte::views(l@),
            start == state@,
            ctes_of(v, recursive, schema@, depth, 0, start) == ctes_of(v, recursive, schema@, depth, i as int, now@),
    {
        assert(v[i as int] == l@[i as int]@);
        proof {
            reveal(ctes_of);
            reveal(cte_of);
        }
        now = bind_cte(&l[i], recursive, schema, depth, now)?;
    }
    proof {
        reveal(ctes_of);
        reveal(cte_of);
    }
    Ok(now)
}

/// Binds a statement with WITH queries.
pub fn bind_with_clause(
    recursive: bool,
    ctes: &Vec<ParsedCte>,
    body: &ParsedStatement,
    catalog: &Catalog,
    depth: usize,
) -> (r: Result<BoundStatement>)
    ensures
        bound_result(r) == with_of(recursive, ParsedCte::views(ctes@), body@, catalog@, depth),
    decreases usize::MAX - depth, 5int, body, 0int,
{
    proof {
        reveal(with_of);
        reveal(ctes_of);
        reveal(deeper);
    }
    let schema = find_namespace(catalog, depth)?;
    let transient = create_schema(catalog.clone(), schema.clone())?;
    let state = WithState { catalog: transient, replacements: Vec::new(), ctes: Vec::new() };
    assert(Replacement::views(state.replacements@) =~= Seq::empty());
    assert(BoundCte::views(state.ctes@) =~= Seq::empty());
    let state = bind_ctes(ctes, recursive, &schema, depth, state)?;
    let body = rewrite_cte_references(body, &state.replacements, 0)?;
    let body = bind_deeper(&body, &state.catalog, depth)?;
    reveal(with_statement);
    let output = bound_query_schema(&body)?;
    Ok(
        make_bound_statement(
            BoundStatement::With { ctes: state.ctes, body: Box::new(body), catalog: Box::new(state.catalog), schema: output },
        ),
    )
}

fn bind_refresh(name: &ParsedObjectName, with_data: bool, catalog: &Catalog, depth: usize) -> (r: Result<BoundStatement>)
    ensures
        bound_result(r) == refresh_of(name@, with_data, catalog@, depth),
    decreases usize::MAX - depth, 4int, catalog, 0int,
{
    proof {
        reveal(refresh_of);
        reveal(deeper);
    }
    let (view, table_id) = find_refreshed_view(name, catalog)?;
    let s = parse(view.query.as_str())?;
    let query = bind_deeper(&s, catalog, depth)?;
    Ok(
        make_bound_statement(
            BoundStatement::RefreshMaterializedView { view_id: view.id, table_id, query: Box::new(query), with_data },
        ),
    )
}

fn find_refreshed_view<'a>(name: &ParsedObjectName, catalog: &'a Catalog) -> (r: Result<(&'a ViewDefinition, TableId)>)
    ensures
        (match r {
            Ok(p) => Ok((p.0@, p.1)),
            Err(e) => Err(e@),
        }) == refreshed_view(name@, catalog@),
{
    reveal(refreshed_view);
    let (schema, relation, position) = split_table_name(name)?;
    match catalog.view_named(&schema, &relation) {
        None => Err(no_such_object(UNDEFINED_TABLE, "materialized view ", &schema, &relation, position)),
        Some(view) => {
            if view.kind != ViewKind::Materialized {
                return Err(DbError::new("42809", text4(schema.as_str(), ".", relation.as_str(), " is not a materialized view")));
            }
            match view.materialized_table_id {
                None => Err(DbError::internal("materialized view is missing its backing table")),
                Some(id) => Ok((view, id)),
            }
        },
    }
}

fn bind_insert(statement: &ParsedStatement, catalog: &Catalog, depth: usize) -> (r: Result<BoundStatement>)
    requires
        statement is Insert,
        depth <= 64,
    ensures
        bound_result(r) == statement_of(statement@, catalog@, depth),
    decreases usize::MAX - depth, 5int, statement, 0int,
{
    proof {
        statement.unfold();
        reveal(statement_of);
        reveal(target_source);
    }
    match statement {
        ParsedStatement::Insert { table, columns, rows, on_conflict, returning } => {
            let relation = resolve_dml_relation(table, TriggerEvent::Insert, catalog)?;
            let parts = bind_insert_parts(&relation, columns, rows, on_conflict, returning)?;
            let source = bind_target_source(relation.target, catalog, depth)?;
            Ok(
                make_bound_statement(
                    match (relation.target, source) {
                        (DmlTarget::Table(table_id), _) => BoundStatement::Insert {
                            table_id,
                            column_indexes: parts.column_indexes,
                            rows: parts.rows,
                            on_conflict: parts.on_conflict,
                            returning: parts.returning,
                        },
                        (DmlTarget::View(view_id), Some(source)) => BoundStatement::ViewInsert {
                            view_id,
                            source: Box::new(source),
                            column_indexes: parts.column_indexes,
                            rows: parts.rows,
                            returning: parts.returning,
                        },
                        _ => unreached(),
                    },
                ),
            )
        },
        _ => unreached(),
    }
}

fn bind_update_parts(
    relation: &DmlRelation,
    assignments: &Vec<(ParsedIdentifier, ParsedExpr)>,
    filter: &Option<ParsedExpr>,
    returning: &Vec<ParsedProjection>,
) -> (r: Result<(Vec<(usize, BoundExpr)>, Option<BoundExpr>, Option<BoundReturning>)>)
    ensures
        (match r {
            Ok(p) => Ok(
                UpdatePartsView {
                    assignments: bound_assignments(p.0@),
                    filter: bound_view(p.1),
                    returning: match p.2 {
                        Some(x) => Some(x@),
                        None => None,
                    },
                },
            ),
            Err(e) => Err(e@),
        }) == update_parts(
            relation@,
            crate::syntax::assignment_views(assignments@),
            some_view(*filter),
            ParsedProjection::views(returning@),
        ),
{
    reveal(update_parts);
    let assignments = bind_update_assignments(assignments, &relation.scope)?;
    let returning = bind_returning(returning, &relation.scope)?;
    let filter = bind_some_boolean(filter, &relation.scope)?;
    Ok((assignments, filter, returning))
}

/// Binds an UPDATE.
fn bind_update(statement: &ParsedStatement, catalog: &Catalog, depth: usize) -> (r: Result<BoundStatement>)
    requires
        statement is Update,
        depth <= 64,
    ensures
        bound_result(r) == statement_of(statement@, catalog@, depth),
    decreases usize::MAX - depth, 5int, statement, 0int,
{
    proof {
        statement.unfold();
        reveal(statement_of);
        reveal(target_source);
    }
    match statement {
        ParsedStatement::Update { table, assignments, filter, returning } => {
            let relation = resolve_dml_relation(table, TriggerEvent::Update, catalog)?;
            let (assignments, filter, returning) = bind_update_parts(&relation, assignments, filter, returning)?;
            let source = bind_target_source(relation.target, catalog, depth)?;
            Ok(
                make_bound_statement(
                    match (relation.target, source) {
                        (DmlTarget::Table(table_id), _) => BoundStatement::Update { table_id, assignments, filter, returning },
                        (DmlTarget::View(view_id), Some(source)) => BoundStatement::ViewUpdate {
                            view_id,
                            source: Box::new(source),
                            assignments,
                            filter,
                            returning,
                        },
                        _ => unreached(),
                    },
                ),
            )
        },
        _ => unreached(),
    }
}

/// Binds a DELETE.
fn bind_delete(statement: &ParsedStatement, catalog: &Catalog, depth: usize) -> (r: Result<BoundStatement>)
    requires
        statement is Delete,
        depth <= 64,
    ensures
        bound_result(r) == statement_of(statement@, catalog@, depth),
    decreases usize::MAX - depth, 5int, statement, 0int,
{
    proof {
        statement.unfold();
        reveal(statement_of);
        reveal(target_source);
    }
    match statement {
        ParsedStatement::Delete { table, filter, returning } => {
            let relation = resolve_dml_relation(table, TriggerEvent::Delete, catalog)?;
            reveal(delete_parts);
            let returning = bind_returning(returning, &relation.scope)?;
            let filter = bind_some_boolean(filter, &relation.scope)?;
            let source = bind_target_source(relation.target, catalog, depth)?;
            Ok(
                make_bound_statement(
                    match (relation.target, source) {
                        (DmlTarget::Table(table_id), _) => BoundStatement::Delete { table_id, filter, returning },
                        (DmlTarget::View(view_id), Some(source)) => BoundStatement::ViewDelete {
                            view_id,
                            source: Box::new(source),
                            filter,
                            returning,
                        },
                        _ => unreached(),
                    },
                ),
            )
        },
        _ => unreached(),
    }
}

fn bind_create_view(statement: &ParsedStatement, catalog: &Catalog, depth: usize) -> (r: Result<BoundStatement>)
    requires
        statement is CreateView,
        depth <= 64,
    ensures
        bound_result(r) == statement_of(statement@, catalog@, depth),
    decreases usize::MAX - depth, 6int, statement, 0int,
{
    proof {
        statement.unfold();
        reveal(statement_of);
    }
    match statement {
        ParsedStatement::CreateView { name, kind, query, query_sql, columns, replace, if_not_exists, with_data } => {
            match find_view_place(name, *replace, *if_not_exists, catalog)? {
                None => Ok(make_bound_statement(BoundStatement::NoOp { tag: text2("CREATE ", view_label(*kind)) })),
                Some(place) => {
                    let q = bind_with_view_depth(query, catalog, depth)?;
                    make_new_view(place, *kind, q, query_sql.as_str(), columns, *replace, *if_not_exists, *with_data)
                },
            }
        },
        _ => unreached(),
    }
}

/// Binds a set operation.
fn bind_set_operation(statement: &ParsedStatement, catalog: &Catalog, depth: usize) -> (r: Result<BoundStatement>)
    requires
        statement is SetOperation,
        depth <= 64,
    ensures
        bound_result(r) == statement_of(statement@, catalog@, depth),
    decreases usize::MAX - depth, 5int, statement, 0int,
{
    proof {
        statement.unfold();
        reveal(statement_of);
        reveal(deeper);
    }
    match statement {
        ParsedStatement::SetOperation { left, operator, all, right, order_by, offset, limit } => {
            let left = bind_deeper(left, catalog, depth)?;
            let right = bind_deeper(right, catalog, depth)?;
            make_set_operation(left, *operator, *all, right, order_by, offset, limit)
        },
        _ => unreached(),
    }
}

fn bind_select_statement(statement: &ParsedStatement, catalog: &Catalog, depth: usize) -> (r: Result<BoundStatement>)
    requires
        statement is Select || statement is AdvancedSelect,
        depth <= 64,
    ensures
        bound_result(r) == statement_of(statement@, catalog@, depth),
    decreases usize::MAX - depth, 5int, statement, 0int,
{
    proof {
        statement.unfold();
        reveal(statement_of);
        reveal(advanced_of);
        reveal(select_of);
    }
    match statement {
        ParsedStatement::Select { table, projection, filter, order_by, offset, limit } => {
            let table = ParsedTable { name: table.clone(), alias: None };
            let joins: Vec<ParsedJoin> = Vec::new();
            let group_by: Vec<ParsedExpr> = Vec::new();
            assert(ParsedJoin::views(joins@) =~= Seq::empty());
            assert(ParsedExpr::views(group_by@) =~= Seq::empty());
            let parts = SelectParts {
                table: &table,
                joins: &joins,
                projection,
                distinct: false,
                filter,
                group_by: &group_by,
                having: &None,
                order_by,
                offset,
                limit,
            };
            bind_select(&parts, catalog, depth)
        },
        ParsedStatement::AdvancedSelect { table, joins, projection, distinct, filter, group_by, having, order_by, offset, limit } => {
            let parts = SelectParts {
                table,
                joins,
                projection,
                distinct: *distinct,
                filter,
                group_by,
                having,
                order_by,
                offset,
                limit,
            };
            let none: Vec<InputColumn> = Vec::new();
            assert(InputColumn::views(none@) =~= Seq::empty());
            bind_advanced_select(&parts, catalog, depth, &none)
        },
        _ => unreached(),
    }
}

/// Binds a statement inside a number of views and nested queries.
pub fn bind_with_view_depth(statement: &ParsedStatement, catalog: &Catalog, depth: usize) -> (r: Result<BoundStatement>)
    ensures
        bound_result(r) == statement_of(statement@, catalog@, depth),
    decreases usize::MAX - depth, 6int, statement, 1int,
{
    proof {
        statement.unfold();
        reveal(statement_of);
        reveal(refresh_of);
        reveal(with_of);
    }
    if depth > 64 {
        return Err(DbError::new("54001", text("view expansion exceeds the maximum depth of 64")));
    }
    match statement {
        ParsedStatement::CreateView { .. } => bind_create_view(statement, catalog, depth),
        ParsedStatement::RefreshMaterializedView { name, with_data } => bind_refresh(name, *with_data, catalog, depth),
        ParsedStatement::Insert { .. } => bind_insert(statement, catalog, depth),
        ParsedStatement::Update { .. } => bind_update(statement, catalog, depth),
        ParsedStatement::Delete { .. } => bind_delete(statement, catalog, depth),
        ParsedStatement::With { recursive, ctes, body } => bind_with_clause(*recursive, ctes, body, catalog, depth),
        ParsedStatement::SetOperation { .. } => bind_set_operation(statement, catalog, depth),
        ParsedStatement::Select { .. } => bind_select_statement(statement, catalog, depth),
        ParsedStatement::AdvancedSelect { .. } => bind_select_statement(statement, catalog, depth),
        ParsedStatement::Explain { statement: inner } => {
            let b = bind_with_view_depth(inner, catalog, depth)?;
            proof {
                b.unfold();
            }
            if !(matches!(b, BoundStatement::Select { .. }) || matches!(b, BoundStatement::AdvancedSelect { .. })) {
                return Err(unsupported("EXPLAIN supports SELECT statements only"));
            }
            Ok(make_bound_statement(BoundStatement::Explain { statement: Box::new(b) }))
        },
        _ => match bind_plain_statement(statement, catalog)? {
            Some(b) => Ok(b),
            None => Err(DbError::internal("statement has no bound form")),
        },
    }
}

} // verus!
