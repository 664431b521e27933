//! Settles parameters, named types and session values in a statement.

use vstd::pervasive::unreached;
use vstd::prelude::*;

use crate::binding::make_expr;
use crate::catalog::{Catalog, DomainConstraint};
use crate::ddl::resolve_declared_data_type;
use crate::syntax::{
    assignment_views, expr_rows, ParsedAlterDomainOperation, ParsedAlterTableOperation, ParsedColumn, ParsedConflictAction, ParsedCte,
    ParsedDefault, ParsedExpr, ParsedExprKind, ParsedIdentifier, ParsedJoin, ParsedJoinSource, ParsedMerge, ParsedMergeAction,
    ParsedMergeClause, ParsedObjectName, ParsedOnConflict, ParsedOrder, ParsedProjection, ParsedSequenceOperation, ParsedStatement,
    ParsedTableConstraint, ParsedWindowCall, ParsedWindowFrame, ParsedWindowFrameBound, ParsedWindowSpec, ScalarFunction, SessionBindValues,
};
use crate::text::{copy_items, lowercase, text, text2};
use crate::type_rules::{
    cast_target, session_expr, session_view, text_expr, typed_alter_domain_operation, typed_alter_table_operation,
    typed_alter_table_operation_list, typed_assignments, typed_column, typed_column_list, typed_conflict_action, typed_cte, typed_cte_list,
    typed_default, typed_expr, typed_expr_list, typed_join, typed_join_list, typed_join_source, typed_merge, typed_merge_action,
    typed_merge_clause, typed_merge_clause_list, typed_on_conflict, typed_order, typed_order_list, typed_projection, typed_projection_list,
    typed_rows, typed_sequence_operation, typed_statement, typed_table_constraint, typed_table_constraint_list, typed_window_call,
    typed_window_frame, typed_window_frame_bound, typed_window_spec, unfold_typed_alter_domain_operation,
    unfold_typed_alter_table_operation, unfold_typed_alter_table_operation_list, unfold_typed_assignments, unfold_typed_column,
    unfold_typed_column_list, unfold_typed_conflict_action, unfold_typed_cte, unfold_typed_cte_list, unfold_typed_default,
    unfold_typed_expr, unfold_typed_expr_list, unfold_typed_join, unfold_typed_join_list, unfold_typed_join_source, unfold_typed_merge,
    unfold_typed_merge_action, unfold_typed_merge_clause, unfold_typed_merge_clause_list, unfold_typed_on_conflict, unfold_typed_order,
    unfold_typed_order_list, unfold_typed_projection, unfold_typed_projection_list, unfold_typed_rows, unfold_typed_sequence_operation,
    unfold_typed_statement, unfold_typed_table_constraint, unfold_typed_table_constraint_list, unfold_typed_window_call,
    unfold_typed_window_frame, unfold_typed_window_frame_bound, unfold_typed_window_spec, Resolver,
};
use crate::types::{DbError, Result, ScalarType, Value};

verus! {

fn find_cast_target(written: &ScalarType, name: &Option<ParsedObjectName>, catalog: Option<&Catalog>) -> (r: Result<ScalarType>)
    ensures
        (match r {
            Ok(t) => Ok(t@),
            Err(e) => Err(e@),
        }) == cast_target(
            written@,
            match *name {
                Some(n) => Some(n@),
                None => None,
            },
            match catalog {
                Some(c) => Some(c@),
                None => None,
            },
        ),
{
    match (name, catalog) {
        (Some(name), Some(catalog)) => {
            let (t, _) = resolve_declared_data_type(catalog, written, name)?;
            Ok(t)
        },
        _ => Ok(written.clone()),
    }
}

fn make_text_expr(v: &str, position: Option<usize>) -> (r: ParsedExpr)
    ensures
        r@ == text_expr(v@, position),
{
    make_expr(ParsedExprKind::Literal(Value::Text(text(v))), position)
}

fn is_true(e: &ParsedExpr) -> (r: bool)
    ensures
        r == (e@.kind == crate::syntax::ParsedExprKindView::Literal(crate::types::ValueView::Boolean(true))),
{
    proof {
        e.unfold();
    }
    match &e.kind {
        ParsedExprKind::Literal(Value::Boolean(b)) => *b,
        _ => false,
    }
}

fn make_session_expr(
    function: ScalarFunction,
    arguments: Vec<ParsedExpr>,
    session: Option<SessionBindValues>,
    position: Option<usize>,
) -> (r: Result<
    ParsedExpr,
>)
    ensures
        (match r {
            Ok(x) => Ok(x@),
            Err(x) => Err(x@),
        }) == session_expr(
            function,
            ParsedExpr::views(arguments@),
            match session {
                Some(s) => Some(session_view(s)),
                None => None,
            },
            position,
        ),
{
    if let Some(s) = session {
        match function {
            ScalarFunction::Version => {
                return Ok(make_text_expr(s.version, position));
            },
            ScalarFunction::CurrentDatabase => {
                return Ok(make_text_expr(s.current_database, position));
            },
            ScalarFunction::CurrentUser => {
                return Ok(make_text_expr(s.current_user, position));
            },
            ScalarFunction::SessionUser => {
                return Ok(make_text_expr(s.session_user, position));
            },
            ScalarFunction::CurrentSetting => {
                if arguments.len() > 0 {
                    assert(ParsedExpr::views(arguments@)[0] == arguments@[0]@);
                    proof {
                        arguments@[0].unfold();
                    }
                    if let ParsedExprKind::Literal(Value::Text(n)) = &arguments[0].kind {
                        let name = lowercase(n.as_str());
                        if let Some(v) = s.settings.get(name.as_str()) {
                            return Ok(make_text_expr(v.as_str(), position));
                        }
                        if arguments.len() > 1 {
                            assert(ParsedExpr::views(arguments@)[1] == arguments@[1]@);
                            if is_true(&arguments[1]) {
                                return Ok(make_expr(ParsedExprKind::Literal(Value::Null), position));
                            }
                        }
                        return Err(DbError::at("42704", text2("unrecognized configuration parameter ", name.as_str()), position));
                    }
                }
            },
            _ => {},
        }
    }
    Ok(make_expr(ParsedExprKind::Function { function, arguments }, position))
}

/// Resolves the types in an expression.
pub fn type_expr(v: &ParsedExpr, c: &Resolver, depth: usize) -> (r: Result<ParsedExpr>)
    requires
        depth < 64,
    ensures
        (match r {
            Ok(x) => Ok(x@),
            Err(x) => Err(x@),
        }) == typed_expr(v@, c@, depth),
    decreases v, 0int,
{
    proof {
        v.unfold();
        unfold_typed_expr(v@, c@, depth);
    }
    let position = v.position;
    match &v.kind {
        ParsedExprKind::Parameter(index) => match c.parameters.get(index) {
            Some(t) => Ok(make_expr(ParsedExprKind::ResolvedParameter { index: *index, data_type: t.clone() }, position)),
            None => Ok(v.clone()),
        },
        ParsedExprKind::Cast { expr, data_type, declared_type } => {
            let expr = type_expr(expr, c, depth)?;
            let data_type = find_cast_target(data_type, declared_type, c.catalog)?;
            Ok(
                make_expr(
                    ParsedExprKind::Cast { expr: Box::new(expr), data_type, declared_type: declared_type.clone() },
                    position,
                ),
            )
        },
        ParsedExprKind::Function { function, arguments } => {
            let arguments = type_expr_list(arguments, c, depth)?;
            make_session_expr(*function, arguments, c.session, position)
        },
        ParsedExprKind::Unary { op, expr } => {
            let expr: ParsedExpr = type_expr(expr, c, depth)?;
            Ok(make_expr(ParsedExprKind::Unary { op: *op, expr: Box::new(expr) }, position))
        },
        ParsedExprKind::Array { elements, dimensions } => {
            let elements: Vec<ParsedExpr> = type_expr_list(elements, c, depth)?;
            Ok(make_expr(ParsedExprKind::Array { elements, dimensions: copy_items(dimensions) }, position))
        },
        ParsedExprKind::Binary { left, op, right } => {
            let left: ParsedExpr = type_expr(left, c, depth)?;
            let right: ParsedExpr = type_expr(right, c, depth)?;
            Ok(make_expr(ParsedExprKind::Binary { left: Box::new(left), op: *op, right: Box::new(right) }, position))
        },
        ParsedExprKind::InList { expr, list, negated } => {
            let expr: ParsedExpr = type_expr(expr, c, depth)?;
            let list: Vec<ParsedExpr> = type_expr_list(list, c, depth)?;
            Ok(make_expr(ParsedExprKind::InList { expr: Box::new(expr), list, negated: *negated }, position))
        },
        ParsedExprKind::ScalarSubquery(f0) => {
            let f0: ParsedStatement = type_statement(f0, c, depth + 1)?;
            Ok(make_expr(ParsedExprKind::ScalarSubquery(Box::new(f0)), position))
        },
        ParsedExprKind::Exists { subquery, negated } => {
            let subquery: ParsedStatement = type_statement(subquery, c, depth + 1)?;
            Ok(make_expr(ParsedExprKind::Exists { subquery: Box::new(subquery), negated: *negated }, position))
        },
        ParsedExprKind::InSubquery { expr, subquery, negated } => {
            let expr: ParsedExpr = type_expr(expr, c, depth)?;
            let subquery: ParsedStatement = type_statement(subquery, c, depth + 1)?;
            Ok(make_expr(ParsedExprKind::InSubquery { expr: Box::new(expr), subquery: Box::new(subquery), negated: *negated }, position))
        },
        ParsedExprKind::QuantifiedSubquery { left, op, quantifier, subquery } => {
            let left: ParsedExpr = type_expr(left, c, depth)?;
            let subquery: ParsedStatement = type_statement(subquery, c, depth + 1)?;
            Ok(
                make_expr(
                    ParsedExprKind::QuantifiedSubquery {
                        left: Box::new(left),
                        op: *op,
                        quantifier: *quantifier,
                        subquery: Box::new(subquery),
                    },
                    position,
                ),
            )
        },
        ParsedExprKind::RowSubquery { left, op, quantifier, negated, subquery } => {
            let left: Vec<ParsedExpr> = type_expr_list(left, c, depth)?;
            let subquery: ParsedStatement = type_statement(subquery, c, depth + 1)?;
            Ok(
                make_expr(
                    ParsedExprKind::RowSubquery { left, op: *op, quantifier: *quantifier, negated: *negated, subquery: Box::new(subquery) },
                    position,
                ),
            )
        },
        ParsedExprKind::Aggregate { function, argument, distinct, filter } => {
            let argument: Option<Box<ParsedExpr>> = match argument { None => None, Some(y) => Some(Box::new(type_expr(y, c, depth)?)) };
            let filter: Option<Box<ParsedExpr>> = match filter { None => None, Some(y) => Some(Box::new(type_expr(y, c, depth)?)) };
            Ok(make_expr(ParsedExprKind::Aggregate { function: *function, argument, distinct: *distinct, filter }, position))
        },
        ParsedExprKind::Window { call, spec } => {
            let call: ParsedWindowCall = type_window_call(call, c, depth)?;
            let spec: ParsedWindowSpec = type_window_spec(spec, c, depth)?;
            Ok(make_expr(ParsedExprKind::Window { call: Box::new(call), spec: Box::new(spec) }, position))
        },
        ParsedExprKind::NamedWindow { call, name } => {
            let call: ParsedWindowCall = type_window_call(call, c, depth)?;
            Ok(make_expr(ParsedExprKind::NamedWindow { call: Box::new(call), name: name.clone() }, position))
        },
        _ => Ok(v.clone()),
    }
}

/// Resolves the types in a window call.
pub fn type_window_call(v: &ParsedWindowCall, c: &Resolver, depth: usize) -> (r: Result<ParsedWindowCall>)
    requires
        depth < 64,
    ensures
        (match r {
            Ok(x) => Ok(x@),
            Err(x) => Err(x@),
        }) == typed_window_call(v@, c@, depth),
    decreases v, 0int,
{
    proof {
        v.unfold();
        unfold_typed_window_call(v@, c@, depth);
    }
    let arguments: Vec<ParsedExpr> = type_expr_list(&v.arguments, c, depth)?;
    let filter: Option<Box<ParsedExpr>> = match &v.filter { None => None, Some(y) => Some(Box::new(type_expr(y, c, depth)?)) };
    let r = ParsedWindowCall { function: v.function, arguments, count_star: v.count_star, filter };
    proof {
        r.unfold();
    }
    Ok(r)
}

/// Resolves the types in a window spec.
pub fn type_window_spec(v: &ParsedWindowSpec, c: &Resolver, depth: usize) -> (r: Result<ParsedWindowSpec>)
    requires
        depth < 64,
    ensures
        (match r {
            Ok(x) => Ok(x@),
            Err(x) => Err(x@),
        }) == typed_window_spec(v@, c@, depth),
    decreases v, 0int,
{
    proof {
        v.unfold();
        unfold_typed_window_spec(v@, c@, depth);
    }
    let partition_by: Vec<ParsedExpr> = type_expr_list(&v.partition_by, c, depth)?;
    let order_by: Vec<ParsedOrder> = type_order_list(&v.order_by, c, depth)?;
    let frame: Option<ParsedWindowFrame> = match &v.frame { None => None, Some(y) => Some(type_window_frame(y, c, depth)?) };
    let r = ParsedWindowSpec {
        window_name: match (&v.window_name) { Some(y) => Some(y.clone()), None => None },
        partition_by,
        order_by,
        frame,
    };
    proof {
        r.unfold();
    }
    Ok(r)
}

/// Resolves the types in a window frame bound.
pub fn type_window_frame_bound(v: &ParsedWindowFrameBound, c: &Resolver, depth: usize) -> (r: Result<ParsedWindowFrameBound>)
    requires
        depth < 64,
    ensures
        (match r {
            Ok(x) => Ok(x@),
            Err(x) => Err(x@),
        }) == typed_window_frame_bound(v@, c@, depth),
    decreases v, 0int,
{
    proof {
        v.unfold();
        unfold_typed_window_frame_bound(v@, c@, depth);
    }
    match v {
        ParsedWindowFrameBound::Preceding(f0) => {
            let f0: ParsedExpr = type_expr(f0, c, depth)?;
            let r = ParsedWindowFrameBound::Preceding(Box::new(f0));
            proof {
                r.unfold();
            }
            Ok(r)
        },
        ParsedWindowFrameBound::Following(f0) => {
            let f0: ParsedExpr = type_expr(f0, c, depth)?;
            let r = ParsedWindowFrameBound::Following(Box::new(f0));
            proof {
                r.unfold();
            }
            Ok(r)
        },
        _ => Ok(v.clone()),
    }
}

/// Resolves the types in a window frame.
pub fn type_window_frame(v: &ParsedWindowFrame, c: &Resolver, depth: usize) -> (r: Result<ParsedWindowFrame>)
    requires
        depth < 64,
    ensures
        (match r {
            Ok(x) => Ok(x@),
            Err(x) => Err(x@),
        }) == typed_window_frame(v@, c@, depth),
    decreases v, 0int,
{
    proof {
        v.unfold();
        unfold_typed_window_frame(v@, c@, depth);
    }
    let start_bound: ParsedWindowFrameBound = type_window_frame_bound(&v.start_bound, c, depth)?;
    let end_bound: ParsedWindowFrameBound = type_window_frame_bound(&v.end_bound, c, depth)?;
    let r = ParsedWindowFrame { units: v.units, start_bound, end_bound };
    proof {
        r.unfold();
    }
    Ok(r)
}

/// Resolves the types in an item of a select list.
pub fn type_projection(v: &ParsedProjection, c: &Resolver, depth: usize) -> (r: Result<ParsedProjection>)
    requires
        depth < 64,
    ensures
        (match r {
            Ok(x) => Ok(x@),
            Err(x) => Err(x@),
        }) == typed_projection(v@, c@, depth),
    decreases v, 0int,
{
    proof {
        v.unfold();
        unfold_typed_projection(v@, c@, depth);
    }
    match v {
        ParsedProjection::Expression { expr, alias } => {
            let expr: ParsedExpr = type_expr(expr, c, depth)?;
            let r = ParsedProjection::Expression { expr, alias: match alias { Some(y) => Some(y.clone()), None => None } };
            proof {
                r.unfold();
            }
            Ok(r)
        },
        _ => Ok(v.clone()),
    }
}

/// Resolves the types in a sort key.
pub fn type_order(v: &ParsedOrder, c: &Resolver, depth: usize) -> (r: Result<ParsedOrder>)
    requires
        depth < 64,
    ensures
        (match r {
            Ok(x) => Ok(x@),
            Err(x) => Err(x@),
        }) == typed_order(v@, c@, depth),
    decreases v, 0int,
{
    proof {
        v.unfold();
        unfold_typed_order(v@, c@, depth);
    }
    let expr: ParsedExpr = type_expr(&v.expr, c, depth)?;
    let r = ParsedOrder { expr, ascending: v.ascending, nulls_first: v.nulls_first };
    proof {
        r.unfold();
    }
    Ok(r)
}

/// Resolves the types in a WITH query.
pub fn type_cte(v: &ParsedCte, c: &Resolver, depth: usize) -> (r: Result<ParsedCte>)
    requires
        depth < 64,
    ensures
        (match r {
            Ok(x) => Ok(x@),
            Err(x) => Err(x@),
        }) == typed_cte(v@, c@, depth),
    decreases v, 0int,
{
    proof {
        v.unfold();
        unfold_typed_cte(v@, c@, depth);
    }
    let query: ParsedStatement = type_statement(&v.query, c, depth + 1)?;
    let r = ParsedCte { name: (&v.name).clone(), columns: ParsedIdentifier::clone_all((&v.columns)), query: Box::new(query) };
    proof {
        r.unfold();
    }
    Ok(r)
}

/// Resolves the types in a default.
pub fn type_default(v: &ParsedDefault, c: &Resolver, depth: usize) -> (r: Result<ParsedDefault>)
    requires
        depth < 64,
    ensures
        (match r {
            Ok(x) => Ok(x@),
            Err(x) => Err(x@),
        }) == typed_default(v@, c@, depth),
    decreases v, 0int,
{
    proof {
        v.unfold();
        unfold_typed_default(v@, c@, depth);
    }
    let expression: ParsedExpr = type_expr(&v.expression, c, depth)?;
    let r = ParsedDefault { expression, sql: (&v.sql).clone() };
    proof {
        r.unfold();
    }
    Ok(r)
}

/// Resolves the types in a column.
pub fn type_column(v: &ParsedColumn, c: &Resolver, depth: usize) -> (r: Result<ParsedColumn>)
    requires
        depth < 64,
    ensures
        (match r {
            Ok(x) => Ok(x@),
            Err(x) => Err(x@),
        }) == typed_column(v@, c@, depth),
    decreases v, 0int,
{
    proof {
        v.unfold();
        unfold_typed_column(v@, c@, depth);
    }
    let default: Option<ParsedDefault> = match &v.default { None => None, Some(y) => Some(type_default(y, c, depth)?) };
    let r = ParsedColumn {
        name: (&v.name).clone(),
        data_type: (&v.data_type).clone(),
        declared_type: match (&v.declared_type) { Some(y) => Some(y.clone()), None => None },
        nullable: v.nullable,
        primary_key: v.primary_key,
        unique: v.unique,
        default,
    };
    proof {
        r.unfold();
    }
    Ok(r)
}

/// Resolves the types in a table constraint.
pub fn type_table_constraint(v: &ParsedTableConstraint, c: &Resolver, depth: usize) -> (r: Result<ParsedTableConstraint>)
    requires
        depth < 64,
    ensures
        (match r {
            Ok(x) => Ok(x@),
            Err(x) => Err(x@),
        }) == typed_table_constraint(v@, c@, depth),
    decreases v, 0int,
{
    proof {
        v.unfold();
        unfold_typed_table_constraint(v@, c@, depth);
    }
    match v {
        ParsedTableConstraint::Check { name, expression, sql } => {
            let expression: ParsedExpr = type_expr(expression, c, depth)?;
            let r = ParsedTableConstraint::Check {
                name: match name { Some(y) => Some(y.clone()), None => None },
                expression,
                sql: sql.clone(),
            };
            proof {
                r.unfold();
            }
            Ok(r)
        },
        _ => Ok(v.clone()),
    }
}

/// Resolves the types in a table change.
pub fn type_alter_table_operation(v: &ParsedAlterTableOperation, c: &Resolver, depth: usize) -> (r: Result<ParsedAlterTableOperation>)
    requires
        depth < 64,
    ensures
        (match r {
            Ok(x) => Ok(x@),
            Err(x) => Err(x@),
        }) == typed_alter_table_operation(v@, c@, depth),
    decreases v, 0int,
{
    proof {
        v.unfold();
        unfold_typed_alter_table_operation(v@, c@, depth);
    }
    match v {
        ParsedAlterTableOperation::AddColumn { column, if_not_exists } => {
            let column: ParsedColumn = type_column(column, c, depth)?;
            let r = ParsedAlterTableOperation::AddColumn { column, if_not_exists: *if_not_exists };
            proof {
                r.unfold();
            }
            Ok(r)
        },
        ParsedAlterTableOperation::SetDefault { column, default } => {
            let default: ParsedDefault = type_default(default, c, depth)?;
            let r = ParsedAlterTableOperation::SetDefault { column: column.clone(), default };
            proof {
                r.unfold();
            }
            Ok(r)
        },
        ParsedAlterTableOperation::AddConstraint { constraint } => {
            let constraint: ParsedTableConstraint = type_table_constraint(constraint, c, depth)?;
            let r = ParsedAlterTableOperation::AddConstraint { constraint };
            proof {
                r.unfold();
            }
            Ok(r)
        },
        _ => Ok(v.clone()),
    }
}

/// Resolves the types in a domain change.
pub fn type_alter_domain_operation(v: &ParsedAlterDomainOperation, c: &Resolver, depth: usize) -> (r: Result<ParsedAlterDomainOperation>)
    requires
        depth < 64,
    ensures
        (match r {
            Ok(x) => Ok(x@),
            Err(x) => Err(x@),
        }) == typed_alter_domain_operation(v@, c@, depth),
    decreases v, 0int,
{
    proof {
        v.unfold();
        unfold_typed_alter_domain_operation(v@, c@, depth);
    }
    match v {
        ParsedAlterDomainOperation::SetDefault(f0) => {
            let f0: ParsedDefault = type_default(f0, c, depth)?;
            let r = ParsedAlterDomainOperation::SetDefault(f0);
            proof {
                r.unfold();
            }
            Ok(r)
        },
        _ => Ok(v.clone()),
    }
}

/// Resolves the types in a join source.
pub fn type_join_source(v: &ParsedJoinSource, c: &Resolver, depth: usize) -> (r: Result<ParsedJoinSource>)
    requires
        depth < 64,
    ensures
        (match r {
            Ok(x) => Ok(x@),
            Err(x) => Err(x@),
        }) == typed_join_source(v@, c@, depth),
    decreases v, 0int,
{
    proof {
        v.unfold();
        unfold_typed_join_source(v@, c@, depth);
    }
    match v {
        ParsedJoinSource::Derived { lateral, query, alias, columns } => {
            let query: ParsedStatement = type_statement(query, c, depth + 1)?;
            let r = ParsedJoinSource::Derived {
                lateral: *lateral,
                query: Box::new(query),
                alias: alias.clone(),
                columns: ParsedIdentifier::clone_all(columns),
            };
            proof {
                r.unfold();
            }
            Ok(r)
        },
        _ => Ok(v.clone()),
    }
}

/// Resolves the types in a join.
pub fn type_join(v: &ParsedJoin, c: &Resolver, depth: usize) -> (r: Result<ParsedJoin>)
    requires
        depth < 64,
    ensures
        (match r {
            Ok(x) => Ok(x@),
            Err(x) => Err(x@),
        }) == typed_join(v@, c@, depth),
    decreases v, 0int,
{
    proof {
        v.unfold();
        unfold_typed_join(v@, c@, depth);
    }
    let source: ParsedJoinSource = type_join_source(&v.source, c, depth)?;
    let on: ParsedExpr = type_expr(&v.on, c, depth)?;
    let r = ParsedJoin { source, kind: v.kind, on };
    proof {
        r.unfold();
    }
    Ok(r)
}

/// Resolves the types in a conflict action.
pub fn type_conflict_action(v: &ParsedConflictAction, c: &Resolver, depth: usize) -> (r: Result<ParsedConflictAction>)
    requires
        depth < 64,
    ensures
        (match r {
            Ok(x) => Ok(x@),
            Err(x) => Err(x@),
        }) == typed_conflict_action(v@, c@, depth),
    decreases v, 0int,
{
    proof {
        v.unfold();
        unfold_typed_conflict_action(v@, c@, depth);
    }
    match v {
        ParsedConflictAction::DoUpdate { assignments, filter } => {
            let assignments: Vec<(ParsedIdentifier, ParsedExpr)> = type_assignments(assignments, c, depth)?;
            let filter: Option<ParsedExpr> = match filter { None => None, Some(y) => Some(type_expr(y, c, depth)?) };
            let r = ParsedConflictAction::DoUpdate { assignments, filter };
            proof {
                r.unfold();
            }
            Ok(r)
        },
        _ => Ok(v.clone()),
    }
}

/// Resolves the types in an ON CONFLICT clause.
pub fn type_on_conflict(v: &ParsedOnConflict, c: &Resolver, depth: usize) -> (r: Result<ParsedOnConflict>)
    requires
        depth < 64,
    ensures
        (match r {
            Ok(x) => Ok(x@),
            Err(x) => Err(x@),
        }) == typed_on_conflict(v@, c@, depth),
    decreases v, 0int,
{
    proof {
        v.unfold();
        unfold_typed_on_conflict(v@, c@, depth);
    }
    let action: ParsedConflictAction = type_conflict_action(&v.action, c, depth)?;
    let r = ParsedOnConflict { target: match (&v.target) { Some(y) => Some(y.clone()), None => None }, action };
    proof {
        r.unfold();
    }
    Ok(r)
}

/// Resolves the types in a MERGE action.
pub fn type_merge_action(v: &ParsedMergeAction, c: &Resolver, depth: usize) -> (r: Result<ParsedMergeAction>)
    requires
        depth < 64,
    ensures
        (match r {
            Ok(x) => Ok(x@),
            Err(x) => Err(x@),
        }) == typed_merge_action(v@, c@, depth),
    decreases v, 0int,
{
    proof {
        v.unfold();
        unfold_typed_merge_action(v@, c@, depth);
    }
    match v {
        ParsedMergeAction::Update { assignments } => {
            let assignments: Vec<(ParsedIdentifier, ParsedExpr)> = type_assignments(assignments, c, depth)?;
            let r = ParsedMergeAction::Update { assignments };
            proof {
                r.unfold();
            }
            Ok(r)
        },
        ParsedMergeAction::Insert { columns, values } => {
            let values: Vec<ParsedExpr> = type_expr_list(values, c, depth)?;
            let r = ParsedMergeAction::Insert { columns: ParsedIdentifier::clone_all(columns), values };
            proof {
                r.unfold();
            }
            Ok(r)
        },
        _ => Ok(v.clone()),
    }
}

/// Resolves the types in a MERGE clause.
pub fn type_merge_clause(v: &ParsedMergeClause, c: &Resolver, depth: usize) -> (r: Result<ParsedMergeClause>)
    requires
        depth < 64,
    ensures
        (match r {
            Ok(x) => Ok(x@),
            Err(x) => Err(x@),
        }) == typed_merge_clause(v@, c@, depth),
    decreases v, 0int,
{
    proof {
        v.unfold();
        unfold_typed_merge_clause(v@, c@, depth);
    }
    let predicate: Option<ParsedExpr> = match &v.predicate { None => None, Some(y) => Some(type_expr(y, c, depth)?) };
    let action: ParsedMergeAction = type_merge_action(&v.action, c, depth)?;
    let r = ParsedMergeClause { kind: v.kind, predicate, action };
    proof {
        r.unfold();
    }
    Ok(r)
}

/// Resolves the types in a MERGE.
pub fn type_merge(v: &ParsedMerge, c: &Resolver, depth: usize) -> (r: Result<ParsedMerge>)
    requires
        depth < 64,
    ensures
        (match r {
            Ok(x) => Ok(x@),
            Err(x) => Err(x@),
        }) == typed_merge(v@, c@, depth),
    decreases v, 0int,
{
    proof {
        v.unfold();
        unfold_typed_merge(v@, c@, depth);
    }
    let on: ParsedExpr = type_expr(&v.on, c, depth)?;
    let clauses: Vec<ParsedMergeClause> = type_merge_clause_list(&v.clauses, c, depth)?;
    let returning: Vec<ParsedProjection> = type_projection_list(&v.returning, c, depth)?;
    let r = ParsedMerge { target: (&v.target).clone(), source: (&v.source).clone(), on, clauses, returning };
    proof {
        r.unfold();
    }
    Ok(r)
}

/// Resolves the types in a sequence operation.
pub fn type_sequence_operation(v: &ParsedSequenceOperation, c: &Resolver, depth: usize) -> (r: Result<ParsedSequenceOperation>)
    requires
        depth < 64,
    ensures
        (match r {
            Ok(x) => Ok(x@),
            Err(x) => Err(x@),
        }) == typed_sequence_operation(v@, c@, depth),
    decreases v, 0int,
{
    proof {
        v.unfold();
        unfold_typed_sequence_operation(v@, c@, depth);
    }
    match v {
        ParsedSequenceOperation::SetValue { value, is_called } => {
            let value: ParsedExpr = type_expr(value, c, depth)?;
            let r = ParsedSequenceOperation::SetValue { value, is_called: *is_called };
            proof {
                r.unfold();
            }
            Ok(r)
        },
        _ => Ok(v.clone()),
    }
}

fn type_statement_create_domain(v: &ParsedStatement, c: &Resolver, depth: usize) -> (r: Result<ParsedStatement>)
    requires
        depth < 64,
        v is CreateDomain,
    ensures
        (match r {
            Ok(x) => Ok(x@),
            Err(x) => Err(x@),
        }) == typed_statement(v@, c@, depth),
    decreases v, 0int,
{
    proof {
        v.unfold();
        unfold_typed_statement(v@, c@, depth);
    }
    match v {
        ParsedStatement::CreateDomain { name, base_type, base_declared_type, not_null, default, checks } => {
            let default: Option<ParsedDefault> = match default { None => None, Some(y) => Some(type_default(y, c, depth)?) };
            let r = ParsedStatement::CreateDomain {
                name: name.clone(),
                base_type: base_type.clone(),
                base_declared_type: match base_declared_type { Some(y) => Some(y.clone()), None => None },
                not_null: *not_null,
                default,
                checks: DomainConstraint::clone_all(checks),
            };
            proof {
                r.unfold();
            }
            Ok(r)
        },
        _ => unreached(),
    }
}

fn type_statement_alter_domain(v: &ParsedStatement, c: &Resolver, depth: usize) -> (r: Result<ParsedStatement>)
    requires
        depth < 64,
        v is AlterDomain,
    ensures
        (match r {
            Ok(x) => Ok(x@),
            Err(x) => Err(x@),
        }) == typed_statement(v@, c@, depth),
    decreases v, 0int,
{
    proof {
        v.unfold();
        unfold_typed_statement(v@, c@, depth);
    }
    match v {
        ParsedStatement::AlterDomain { name, operation } => {
            let operation: ParsedAlterDomainOperation = type_alter_domain_operation(operation, c, depth)?;
            let r = ParsedStatement::AlterDomain { name: name.clone(), operation };
            proof {
                r.unfold();
            }
            Ok(r)
        },
        _ => unreached(),
    }
}

fn type_statement_create_table(v: &ParsedStatement, c: &Resolver, depth: usize) -> (r: Result<ParsedStatement>)
    requires
        depth < 64,
        v is CreateTable,
    ensures
        (match r {
            Ok(x) => Ok(x@),
            Err(x) => Err(x@),
        }) == typed_statement(v@, c@, depth),
    decreases v, 0int,
{
    proof {
        v.unfold();
        unfold_typed_statement(v@, c@, depth);
    }
    match v {
        ParsedStatement::CreateTable { name, columns, constraints, if_not_exists } => {
            let columns: Vec<ParsedColumn> = type_column_list(columns, c, depth)?;
            let constraints: Vec<ParsedTableConstraint> = type_table_constraint_list(constraints, c, depth)?;
            let r = ParsedStatement::CreateTable { name: name.clone(), columns, constraints, if_not_exists: *if_not_exists };
            proof {
                r.unfold();
            }
            Ok(r)
        },
        _ => unreached(),
    }
}

fn type_statement_alter_table(v: &ParsedStatement, c: &Resolver, depth: usize) -> (r: Result<ParsedStatement>)
    requires
        depth < 64,
        v is AlterTable,
    ensures
        (match r {
            Ok(x) => Ok(x@),
            Err(x) => Err(x@),
        }) == typed_statement(v@, c@, depth),
    decreases v, 0int,
{
    proof {
        v.unfold();
        unfold_typed_statement(v@, c@, depth);
    }
    match v {
        ParsedStatement::AlterTable { name, if_exists, operations } => {
            let operations: Vec<ParsedAlterTableOperation> = type_alter_table_operation_list(operations, c, depth)?;
            let r = ParsedStatement::AlterTable { name: name.clone(), if_exists: *if_exists, operations };
            proof {
                r.unfold();
            }
            Ok(r)
        },
        _ => unreached(),
    }
}

fn type_statement_create_view(v: &ParsedStatement, c: &Resolver, depth: usize) -> (r: Result<ParsedStatement>)
    requires
        depth < 64,
        v is CreateView,
    ensures
        (match r {
            Ok(x) => Ok(x@),
            Err(x) => Err(x@),
        }) == typed_statement(v@, c@, depth),
    decreases v, 0int,
{
    proof {
        v.unfold();
        unfold_typed_statement(v@, c@, depth);
    }
    match v {
        ParsedStatement::CreateView { name, kind, query, query_sql, columns, replace, if_not_exists, with_data } => {
            let query: ParsedStatement = type_statement(query, c, depth + 1)?;
            let r = ParsedStatement::CreateView {
                name: name.clone(),
                kind: *kind,
                query: Box::new(query),
                query_sql: query_sql.clone(),
                columns: ParsedIdentifier::clone_all(columns),
                replace: *replace,
                if_not_exists: *if_not_exists,
                with_data: *with_data,
            };
            proof {
                r.unfold();
            }
            Ok(r)
        },
        _ => unreached(),
    }
}

fn type_statement_call(v: &ParsedStatement, c: &Resolver, depth: usize) -> (r: Result<ParsedStatement>)
    requires
        depth < 64,
        v is Call,
    ensures
        (match r {
            Ok(x) => Ok(x@),
            Err(x) => Err(x@),
        }) == typed_statement(v@, c@, depth),
    decreases v, 0int,
{
    proof {
        v.unfold();
        unfold_typed_statement(v@, c@, depth);
    }
    match v {
        ParsedStatement::Call { name, arguments } => {
            let arguments: Vec<ParsedExpr> = type_expr_list(arguments, c, depth)?;
            let r = ParsedStatement::Call { name: name.clone(), arguments };
            proof {
                r.unfold();
            }
            Ok(r)
        },
        _ => unreached(),
    }
}

fn type_statement_scalar_select(v: &ParsedStatement, c: &Resolver, depth: usize) -> (r: Result<ParsedStatement>)
    requires
        depth < 64,
        v is ScalarSelect,
    ensures
        (match r {
            Ok(x) => Ok(x@),
            Err(x) => Err(x@),
        }) == typed_statement(v@, c@, depth),
    decreases v, 0int,
{
    proof {
        v.unfold();
        unfold_typed_statement(v@, c@, depth);
    }
    match v {
        ParsedStatement::ScalarSelect { projection } => {
            let projection: Vec<ParsedProjection> = type_projection_list(projection, c, depth)?;
            let r = ParsedStatement::ScalarSelect { projection };
            proof {
                r.unfold();
            }
            Ok(r)
        },
        _ => unreached(),
    }
}

fn type_statement_routine_select(v: &ParsedStatement, c: &Resolver, depth: usize) -> (r: Result<ParsedStatement>)
    requires
        depth < 64,
        v is RoutineSelect,
    ensures
        (match r {
            Ok(x) => Ok(x@),
            Err(x) => Err(x@),
        }) == typed_statement(v@, c@, depth),
    decreases v, 0int,
{
    proof {
        v.unfold();
        unfold_typed_statement(v@, c@, depth);
    }
    match v {
        ParsedStatement::RoutineSelect { name, arguments, alias } => {
            let arguments: Vec<ParsedExpr> = type_expr_list(arguments, c, depth)?;
            let r = ParsedStatement::RoutineSelect {
                name: name.clone(),
                arguments,
                alias: match alias { Some(y) => Some(y.clone()), None => None },
            };
            proof {
                r.unfold();
            }
            Ok(r)
        },
        _ => unreached(),
    }
}

fn type_statement_pg_notify(v: &ParsedStatement, c: &Resolver, depth: usize) -> (r: Result<ParsedStatement>)
    requires
        depth < 64,
        v is PgNotify,
    ensures
        (match r {
            Ok(x) => Ok(x@),
            Err(x) => Err(x@),
        }) == typed_statement(v@, c@, depth),
    decreases v, 0int,
{
    proof {
        v.unfold();
        unfold_typed_statement(v@, c@, depth);
    }
    match v {
        ParsedStatement::PgNotify { channel, payload, alias } => {
            let channel: ParsedExpr = type_expr(channel, c, depth)?;
            let payload: ParsedExpr = type_expr(payload, c, depth)?;
            let r = ParsedStatement::PgNotify { channel, payload, alias: match alias { Some(y) => Some(y.clone()), None => None } };
            proof {
                r.unfold();
            }
            Ok(r)
        },
        _ => unreached(),
    }
}

fn type_statement_sequence_value(v: &ParsedStatement, c: &Resolver, depth: usize) -> (r: Result<ParsedStatement>)
    requires
        depth < 64,
        v is SequenceValue,
    ensures
        (match r {
            Ok(x) => Ok(x@),
            Err(x) => Err(x@),
        }) == typed_statement(v@, c@, depth),
    decreases v, 0int,
{
    proof {
        v.unfold();
        unfold_typed_statement(v@, c@, depth);
    }
    match v {
        ParsedStatement::SequenceValue { name, operation, alias } => {
            let operation: ParsedSequenceOperation = type_sequence_operation(operation, c, depth)?;
            let r = ParsedStatement::SequenceValue {
                name: name.clone(),
                operation,
                alias: match alias { Some(y) => Some(y.clone()), None => None },
            };
            proof {
                r.unfold();
            }
            Ok(r)
        },
        _ => unreached(),
    }
}

fn type_statement_insert(v: &ParsedStatement, c: &Resolver, depth: usize) -> (r: Result<ParsedStatement>)
    requires
        depth < 64,
        v is Insert,
    ensures
        (match r {
            Ok(x) => Ok(x@),
            Err(x) => Err(x@),
        }) == typed_statement(v@, c@, depth),
    decreases v, 0int,
{
    proof {
        v.unfold();
        unfold_typed_statement(v@, c@, depth);
    }
    match v {
        ParsedStatement::Insert { table, columns, rows, on_conflict, returning } => {
            let rows: Vec<Vec<ParsedExpr>> = type_rows(rows, c, depth)?;
            let on_conflict: Option<ParsedOnConflict> = match on_conflict { None => None, Some(y) => Some(type_on_conflict(y, c, depth)?) };
            let returning: Vec<ParsedProjection> = type_projection_list(returning, c, depth)?;
            let r = ParsedStatement::Insert {
                table: table.clone(),
                columns: ParsedIdentifier::clone_all(columns),
                rows,
                on_conflict,
                returning,
            };
            proof {
                r.unfold();
            }
            Ok(r)
        },
        _ => unreached(),
    }
}

fn type_statement_merge(v: &ParsedStatement, c: &Resolver, depth: usize) -> (r: Result<ParsedStatement>)
    requires
        depth < 64,
        v is Merge,
    ensures
        (match r {
            Ok(x) => Ok(x@),
            Err(x) => Err(x@),
        }) == typed_statement(v@, c@, depth),
    decreases v, 0int,
{
    proof {
        v.unfold();
        unfold_typed_statement(v@, c@, depth);
    }
    match v {
        ParsedStatement::Merge(f0) => {
            let f0: ParsedMerge = type_merge(f0, c, depth)?;
            let r = ParsedStatement::Merge(f0);
            proof {
                r.unfold();
            }
            Ok(r)
        },
        _ => unreached(),
    }
}

fn type_statement_with(v: &ParsedStatement, c: &Resolver, depth: usize) -> (r: Result<ParsedStatement>)
    requires
        depth < 64,
        v is With,
    ensures
        (match r {
            Ok(x) => Ok(x@),
            Err(x) => Err(x@),
        }) == typed_statement(v@, c@, depth),
    decreases v, 0int,
{
    proof {
        v.unfold();
        unfold_typed_statement(v@, c@, depth);
    }
    match v {
        ParsedStatement::With { recursive, ctes, body } => {
            let ctes: Vec<ParsedCte> = type_cte_list(ctes, c, depth)?;
            let body: ParsedStatement = type_statement(body, c, depth + 1)?;
            let r = ParsedStatement::With { recursive: *recursive, ctes, body: Box::new(body) };
            proof {
                r.unfold();
            }
            Ok(r)
        },
        _ => unreached(),
    }
}

fn type_statement_set_operation(v: &ParsedStatement, c: &Resolver, depth: usize) -> (r: Result<ParsedStatement>)
    requires
        depth < 64,
        v is SetOperation,
    ensures
        (match r {
            Ok(x) => Ok(x@),
            Err(x) => Err(x@),
        }) == typed_statement(v@, c@, depth),
    decreases v, 0int,
{
    proof {
        v.unfold();
        unfold_typed_statement(v@, c@, depth);
    }
    match v {
        ParsedStatement::SetOperation { left, operator, all, right, order_by, offset, limit } => {
            let left: ParsedStatement = type_statement(left, c, depth + 1)?;
            let right: ParsedStatement = type_statement(right, c, depth + 1)?;
            let order_by: Vec<ParsedOrder> = type_order_list(order_by, c, depth)?;
            let offset: Option<ParsedExpr> = match offset { None => None, Some(y) => Some(type_expr(y, c, depth)?) };
            let limit: Option<ParsedExpr> = match limit { None => None, Some(y) => Some(type_expr(y, c, depth)?) };
            let r = ParsedStatement::SetOperation {
                left: Box::new(left),
                operator: *operator,
                all: *all,
                right: Box::new(right),
                order_by,
                offset,
                limit,
            };
            proof {
                r.unfold();
            }
            Ok(r)
        },
        _ => unreached(),
    }
}

fn type_statement_select(v: &ParsedStatement, c: &Resolver, depth: usize) -> (r: Result<ParsedStatement>)
    requires
        depth < 64,
        v is Select,
    ensures
        (match r {
            Ok(x) => Ok(x@),
            Err(x) => Err(x@),
        }) == typed_statement(v@, c@, depth),
    decreases v, 0int,
{
    proof {
        v.unfold();
        unfold_typed_statement(v@, c@, depth);
    }
    match v {
        ParsedStatement::Select { table, projection, filter, order_by, offset, limit } => {
            let projection: Vec<ParsedProjection> = type_projection_list(projection, c, depth)?;
            let filter: Option<ParsedExpr> = match filter { None => None, Some(y) => Some(type_expr(y, c, depth)?) };
            let order_by: Vec<ParsedOrder> = type_order_list(order_by, c, depth)?;
            let offset: Option<ParsedExpr> = match offset { None => None, Some(y) => Some(type_expr(y, c, depth)?) };
            let limit: Option<ParsedExpr> = match limit { None => None, Some(y) => Some(type_expr(y, c, depth)?) };
            let r = ParsedStatement::Select { table: table.clone(), projection, filter, order_by, offset, limit };
            proof {
                r.unfold();
            }
            Ok(r)
        },
        _ => unreached(),
    }
}

fn type_statement_advanced_select(v: &ParsedStatement, c: &Resolver, depth: usize) -> (r: Result<ParsedStatement>)
    requires
        depth < 64,
        v is AdvancedSelect,
    ensures
        (match r {
            Ok(x) => Ok(x@),
            Err(x) => Err(x@),
        }) == typed_statement(v@, c@, depth),
    decreases v, 0int,
{
    proof {
        v.unfold();
        unfold_typed_statement(v@, c@, depth);
    }
    match v {
        ParsedStatement::AdvancedSelect { table, joins, projection, distinct, filter, group_by, having, order_by, offset, limit } => {
            let joins: Vec<ParsedJoin> = type_join_list(joins, c, depth)?;
            let projection: Vec<ParsedProjection> = type_projection_list(projection, c, depth)?;
            let filter: Option<ParsedExpr> = match filter { None => None, Some(y) => Some(type_expr(y, c, depth)?) };
            let group_by: Vec<ParsedExpr> = type_expr_list(group_by, c, depth)?;
            let having: Option<ParsedExpr> = match having { None => None, Some(y) => Some(type_expr(y, c, depth)?) };
            let order_by: Vec<ParsedOrder> = type_order_list(order_by, c, depth)?;
            let offset: Option<ParsedExpr> = match offset { None => None, Some(y) => Some(type_expr(y, c, depth)?) };
            let limit: Option<ParsedExpr> = match limit { None => None, Some(y) => Some(type_expr(y, c, depth)?) };
            let r = ParsedStatement::AdvancedSelect {
                table: table.clone(),
                joins,
                projection,
                distinct: *distinct,
                filter,
                group_by,
                having,
                order_by,
                offset,
                limit,
            };
            proof {
                r.unfold();
            }
            Ok(r)
        },
        _ => unreached(),
    }
}

fn type_statement_explain(v: &ParsedStatement, c: &Resolver, depth: usize) -> (r: Result<ParsedStatement>)
    requires
        depth < 64,
        v is Explain,
    ensures
        (match r {
            Ok(x) => Ok(x@),
            Err(x) => Err(x@),
        }) == typed_statement(v@, c@, depth),
    decreases v, 0int,
{
    proof {
        v.unfold();
        unfold_typed_statement(v@, c@, depth);
    }
    match v {
        ParsedStatement::Explain { statement } => {
            let statement: ParsedStatement = type_statement(statement, c, depth + 1)?;
            let r = ParsedStatement::Explain { statement: Box::new(statement) };
            proof {
                r.unfold();
            }
            Ok(r)
        },
        _ => unreached(),
    }
}

fn type_statement_update(v: &ParsedStatement, c: &Resolver, depth: usize) -> (r: Result<ParsedStatement>)
    requires
        depth < 64,
        v is Update,
    ensures
        (match r {
            Ok(x) => Ok(x@),
            Err(x) => Err(x@),
        }) == typed_statement(v@, c@, depth),
    decreases v, 0int,
{
    proof {
        v.unfold();
        unfold_typed_statement(v@, c@, depth);
    }
    match v {
        ParsedStatement::Update { table, assignments, filter, returning } => {
            let assignments: Vec<(ParsedIdentifier, ParsedExpr)> = type_assignments(assignments, c, depth)?;
            let filter: Option<ParsedExpr> = match filter { None => None, Some(y) => Some(type_expr(y, c, depth)?) };
            let returning: Vec<ParsedProjection> = type_projection_list(returning, c, depth)?;
            let r = ParsedStatement::Update { table: table.clone(), assignments, filter, returning };
            proof {
                r.unfold();
            }
            Ok(r)
        },
        _ => unreached(),
    }
}

fn type_statement_delete(v: &ParsedStatement, c: &Resolver, depth: usize) -> (r: Result<ParsedStatement>)
    requires
        depth < 64,
        v is Delete,
    ensures
        (match r {
            Ok(x) => Ok(x@),
            Err(x) => Err(x@),
        }) == typed_statement(v@, c@, depth),
    decreases v, 0int,
{
    proof {
        v.unfold();
        unfold_typed_statement(v@, c@, depth);
    }
    match v {
        ParsedStatement::Delete { table, filter, returning } => {
            let filter: Option<ParsedExpr> = match filter { None => None, Some(y) => Some(type_expr(y, c, depth)?) };
            let returning: Vec<ParsedProjection> = type_projection_list(returning, c, depth)?;
            let r = ParsedStatement::Delete { table: table.clone(), filter, returning };
            proof {
                r.unfold();
            }
            Ok(r)
        },
        _ => unreached(),
    }
}

/// Resolves the types in a statement.
pub fn type_statement(v: &ParsedStatement, c: &Resolver, depth: usize) -> (r: Result<ParsedStatement>)
    ensures
        (match r {
            Ok(x) => Ok(x@),
            Err(x) => Err(x@),
        }) == typed_statement(v@, c@, depth),
    decreases v, 1int,
{
    proof {
        v.unfold();
        unfold_typed_statement(v@, c@, depth);
    }
    if depth >= 64 {
        return Err(DbError::new("54001", text("statement nesting exceeds the maximum depth of 64")));
    }
    match v {
        ParsedStatement::CreateDomain { .. } => type_statement_create_domain(v, c, depth),
        ParsedStatement::AlterDomain { .. } => type_statement_alter_domain(v, c, depth),
        ParsedStatement::CreateTable { .. } => type_statement_create_table(v, c, depth),
        ParsedStatement::AlterTable { .. } => type_statement_alter_table(v, c, depth),
        ParsedStatement::CreateView { .. } => type_statement_create_view(v, c, depth),
        ParsedStatement::Call { .. } => type_statement_call(v, c, depth),
        ParsedStatement::ScalarSelect { .. } => type_statement_scalar_select(v, c, depth),
        ParsedStatement::RoutineSelect { .. } => type_statement_routine_select(v, c, depth),
        ParsedStatement::PgNotify { .. } => type_statement_pg_notify(v, c, depth),
        ParsedStatement::SequenceValue { .. } => type_statement_sequence_value(v, c, depth),
        ParsedStatement::Insert { .. } => type_statement_insert(v, c, depth),
        ParsedStatement::Merge(_) => type_statement_merge(v, c, depth),
        ParsedStatement::With { .. } => type_statement_with(v, c, depth),
        ParsedStatement::SetOperation { .. } => type_statement_set_operation(v, c, depth),
        ParsedStatement::Select { .. } => type_statement_select(v, c, depth),
        ParsedStatement::AdvancedSelect { .. } => type_statement_advanced_select(v, c, depth),
        ParsedStatement::Explain { .. } => type_statement_explain(v, c, depth),
        ParsedStatement::Update { .. } => type_statement_update(v, c, depth),
        ParsedStatement::Delete { .. } => type_statement_delete(v, c, depth),
        _ => Ok(v.clone()),
    }
}

fn type_assignments(l: &Vec<(ParsedIdentifier, ParsedExpr)>, c: &Resolver, depth: usize) -> (r: Result<Vec<(ParsedIdentifier, ParsedExpr)>>)
    requires
        depth < 64,
    ensures
        (match r {
            Ok(x) => Ok(assignment_views(x@)),
            Err(x) => Err(x@),
        }) == typed_assignments(assignment_views(l@), c@, depth, 0, Seq::empty()),
    decreases l, 0int,
{
    let ghost v = assignment_views(l@);
    let mut out: Vec<(ParsedIdentifier, ParsedExpr)> = Vec::new();
    assert(assignment_views(out@) =~= Seq::empty());
    for i in 0..l.len()
        invariant
            depth < 64,
            v == assignment_views(l@),
            typed_assignments(v, c@, depth, 0, Seq::empty()) == typed_assignments(v, c@, depth, i as int, assignment_views(out@)),
    {
        assert(decreases_to!(l => l@[i as int].1));
        assert(v[i as int] == (l@[i as int].0@, l@[i as int].1@));
        let ghost before = assignment_views(out@);
        proof {
            unfold_typed_assignments(v, c@, depth, i as int, before);
        }
        let x = type_expr(&l[i].1, c, depth)?;
        out.push((l[i].0.clone(), x));
        assert(assignment_views(out@) =~= before.push((l@[i as int].0@, x@)));
    }
    proof {
        unfold_typed_assignments(v, c@, depth, l@.len() as int, assignment_views(out@));
    }
    Ok(out)
}

fn type_alter_table_operation_list(
    l: &Vec<ParsedAlterTableOperation>,
    c: &Resolver,
    depth: usize,
) -> (r: Result<Vec<ParsedAlterTableOperation>>)
    requires
        depth < 64,
    ensures
        (match r {
            Ok(x) => Ok(ParsedAlterTableOperation::views(x@)),
            Err(x) => Err(x@),
        }) == typed_alter_table_operation_list(ParsedAlterTableOperation::views(l@), c@, depth, 0, Seq::empty()),
    decreases l, 0int,
{
    let ghost v = ParsedAlterTableOperation::views(l@);
    let mut out: Vec<ParsedAlterTableOperation> = Vec::new();
    assert(ParsedAlterTableOperation::views(out@) =~= Seq::empty());
    for i in 0..l.len()
        invariant
            depth < 64,
            v == ParsedAlterTableOperation::views(l@),
            typed_alter_table_operation_list(v, c@, depth, 0, Seq::empty()) == typed_alter_table_operation_list(
                v,
                c@,
                depth,
                i as int,
                ParsedAlterTableOperation::views(out@),
            ),
    {
        assert(decreases_to!(l => l@[i as int]));
        assert(v[i as int] == l@[i as int]@);
        let ghost before = ParsedAlterTableOperation::views(out@);
        proof {
            unfold_typed_alter_table_operation_list(v, c@, depth, i as int, before);
        }
        let x = type_alter_table_operation(&l[i], c, depth)?;
        out.push(x);
        assert(ParsedAlterTableOperation::views(out@) =~= before.push(x@));
    }
    proof {
        unfold_typed_alter_table_operation_list(v, c@, depth, l@.len() as int, ParsedAlterTableOperation::views(out@));
    }
    Ok(out)
}

fn type_column_list(l: &Vec<ParsedColumn>, c: &Resolver, depth: usize) -> (r: Result<Vec<ParsedColumn>>)
    requires
        depth < 64,
    ensures
        (match r {
            Ok(x) => Ok(ParsedColumn::views(x@)),
            Err(x) => Err(x@),
        }) == typed_column_list(ParsedColumn::views(l@), c@, depth, 0, Seq::empty()),
    decreases l, 0int,
{
    let ghost v = ParsedColumn::views(l@);
    let mut out: Vec<ParsedColumn> = Vec::new();
    assert(ParsedColumn::views(out@) =~= Seq::empty());
    for i in 0..l.len()
        invariant
            depth < 64,
            v == ParsedColumn::views(l@),
            typed_column_list(v, c@, depth, 0, Seq::empty()) == typed_column_list(v, c@, depth, i as int, ParsedColumn::views(out@)),
    {
        assert(decreases_to!(l => l@[i as int]));
        assert(v[i as int] == l@[i as int]@);
        let ghost before = ParsedColumn::views(out@);
        proof {
            unfold_typed_column_list(v, c@, depth, i as int, before);
        }
        let x = type_column(&l[i], c, depth)?;
        out.push(x);
        assert(ParsedColumn::views(out@) =~= before.push(x@));
    }
    proof {
        unfold_typed_column_list(v, c@, depth, l@.len() as int, ParsedColumn::views(out@));
    }
    Ok(out)
}

fn type_cte_list(l: &Vec<ParsedCte>, c: &Resolver, depth: usize) -> (r: Result<Vec<ParsedCte>>)
    requires
        depth < 64,
    ensures
        (match r {
            Ok(x) => Ok(ParsedCte::views(x@)),
            Err(x) => Err(x@),
        }) == typed_cte_list(ParsedCte::views(l@), c@, depth, 0, Seq::empty()),
    decreases l, 0int,
{
    let ghost v = ParsedCte::views(l@);
    let mut out: Vec<ParsedCte> = Vec::new();
    assert(ParsedCte::views(out@) =~= Seq::empty());
    for i in 0..l.len()
        invariant
            depth < 64,
            v == ParsedCte::views(l@),
            typed_cte_list(v, c@, depth, 0, Seq::empty()) == typed_cte_list(v, c@, depth, i as int, ParsedCte::views(out@)),
    {
        assert(decreases_to!(l => l@[i as int]));
        assert(v[i as int] == l@[i as int]@);
        let ghost before = ParsedCte::views(out@);
        proof {
            unfold_typed_cte_list(v, c@, depth, i as int, before);
        }
        let x = type_cte(&l[i], c, depth)?;
        out.push(x);
        assert(ParsedCte::views(out@) =~= before.push(x@));
    }
    proof {
        unfold_typed_cte_list(v, c@, depth, l@.len() as int, ParsedCte::views(out@));
    }
    Ok(out)
}

fn type_expr_list(l: &Vec<ParsedExpr>, c: &Resolver, depth: usize) -> (r: Result<Vec<ParsedExpr>>)
    requires
        depth < 64,
    ensures
        (match r {
            Ok(x) => Ok(ParsedExpr::views(x@)),
            Err(x) => Err(x@),
        }) == typed_expr_list(ParsedExpr::views(l@), c@, depth, 0, Seq::empty()),
    decreases l, 0int,
{
    let ghost v = ParsedExpr::views(l@);
    let mut out: Vec<ParsedExpr> = Vec::new();
    assert(ParsedExpr::views(out@) =~= Seq::empty());
    for i in 0..l.len()
        invariant
            depth < 64,
            v == ParsedExpr::views(l@),
            typed_expr_list(v, c@, depth, 0, Seq::empty()) == typed_expr_list(v, c@, depth, i as int, ParsedExpr::views(out@)),
    {
        assert(decreases_to!(l => l@[i as int]));
        assert(v[i as int] == l@[i as int]@);
        let ghost before = ParsedExpr::views(out@);
        proof {
            unfold_typed_expr_list(v, c@, depth, i as int, before);
        }
        let x = type_expr(&l[i], c, depth)?;
        out.push(x);
        assert(ParsedExpr::views(out@) =~= before.push(x@));
    }
    proof {
        unfold_typed_expr_list(v, c@, depth, l@.len() as int, ParsedExpr::views(out@));
    }
    Ok(out)
}

fn type_join_list(l: &Vec<ParsedJoin>, c: &Resolver, depth: usize) -> (r: Result<Vec<ParsedJoin>>)
    requires
        depth < 64,
    ensures
        (match r {
            Ok(x) => Ok(ParsedJoin::views(x@)),
            Err(x) => Err(x@),
        }) == typed_join_list(ParsedJoin::views(l@), c@, depth, 0, Seq::empty()),
    decreases l, 0int,
{
    let ghost v = ParsedJoin::views(l@);
    let mut out: Vec<ParsedJoin> = Vec::new();
    assert(ParsedJoin::views(out@) =~= Seq::empty());
    for i in 0..l.len()
        invariant
            depth < 64,
            v == ParsedJoin::views(l@),
            typed_join_list(v, c@, depth, 0, Seq::empty()) == typed_join_list(v, c@, depth, i as int, ParsedJoin::views(out@)),
    {
        assert(decreases_to!(l => l@[i as int]));
        assert(v[i as int] == l@[i as int]@);
        let ghost before = ParsedJoin::views(out@);
        proof {
            unfold_typed_join_list(v, c@, depth, i as int, before);
        }
        let x = type_join(&l[i], c, depth)?;
        out.push(x);
        assert(ParsedJoin::views(out@) =~= before.push(x@));
    }
    proof {
        unfold_typed_join_list(v, c@, depth, l@.len() as int, ParsedJoin::views(out@));
    }
    Ok(out)
}

fn type_merge_clause_list(l: &Vec<ParsedMergeClause>, c: &Resolver, depth: usize) -> (r: Result<Vec<ParsedMergeClause>>)
    requires
        depth < 64,
    ensures
        (match r {
            Ok(x) => Ok(ParsedMergeClause::views(x@)),
            Err(x) => Err(x@),
        }) == typed_merge_clause_list(ParsedMergeClause::views(l@), c@, depth, 0, Seq::empty()),
    decreases l, 0int,
{
    let ghost v = ParsedMergeClause::views(l@);
    let mut out: Vec<ParsedMergeClause> = Vec::new();
    assert(ParsedMergeClause::views(out@) =~= Seq::empty());
    for i in 0..l.len()
        invariant
            depth < 64,
            v == ParsedMergeClause::views(l@),
            typed_merge_clause_list(v, c@, depth, 0, Seq::empty()) == typed_merge_clause_list(
                v,
                c@,
                depth,
                i as int,
                ParsedMergeClause::views(out@),
            ),
    {
        assert(decreases_to!(l => l@[i as int]));
        assert(v[i as int] == l@[i as int]@);
        let ghost before = ParsedMergeClause::views(out@);
        proof {
            unfold_typed_merge_clause_list(v, c@, depth, i as int, before);
        }
        let x = type_merge_clause(&l[i], c, depth)?;
        out.push(x);
        assert(ParsedMergeClause::views(out@) =~= before.push(x@));
    }
    proof {
        unfold_typed_merge_clause_list(v, c@, depth, l@.len() as int, ParsedMergeClause::views(out@));
    }
    Ok(out)
}

fn type_order_list(l: &Vec<ParsedOrder>, c: &Resolver, depth: usize) -> (r: Result<Vec<ParsedOrder>>)
    requires
        depth < 64,
    ensures
        (match r {
            Ok(x) => Ok(ParsedOrder::views(x@)),
            Err(x) => Err(x@),
        }) == typed_order_list(ParsedOrder::views(l@), c@, depth, 0, Seq::empty()),
    decreases l, 0int,
{
    let ghost v = ParsedOrder::views(l@);
    let mut out: Vec<ParsedOrder> = Vec::new();
    assert(ParsedOrder::views(out@) =~= Seq::empty());
    for i in 0..l.len()
        invariant
            depth < 64,
            v == ParsedOrder::views(l@),
            typed_order_list(v, c@, depth, 0, Seq::empty()) == typed_order_list(v, c@, depth, i as int, ParsedOrder::views(out@)),
    {
        assert(decreases_to!(l => l@[i as int]));
        assert(v[i as int] == l@[i as int]@);
        let ghost before = ParsedOrder::views(out@);
        proof {
            unfold_typed_order_list(v, c@, depth, i as int, before);
        }
        let x = type_order(&l[i], c, depth)?;
        out.push(x);
        assert(ParsedOrder::views(out@) =~= before.push(x@));
    }
    proof {
        unfold_typed_order_list(v, c@, depth, l@.len() as int, ParsedOrder::views(out@));
    }
    Ok(out)
}

fn type_projection_list(l: &Vec<ParsedProjection>, c: &Resolver, depth: usize) -> (r: Result<Vec<ParsedProjection>>)
    requires
        depth < 64,
    ensures
        (match r {
            Ok(x) => Ok(ParsedProjection::views(x@)),
            Err(x) => Err(x@),
        }) == typed_projection_list(ParsedProjection::views(l@), c@, depth, 0, Seq::empty()),
    decreases l, 0int,
{
    let ghost v = ParsedProjection::views(l@);
    let mut out: Vec<ParsedProjection> = Vec::new();
    assert(ParsedProjection::views(out@) =~= Seq::empty());
    for i in 0..l.len()
        invariant
            depth < 64,
            v == ParsedProjection::views(l@),
            typed_projection_list(v, c@, depth, 0, Seq::empty()) == typed_projection_list(
                v,
                c@,
                depth,
                i as int,
                ParsedProjection::views(out@),
            ),
    {
        assert(decreases_to!(l => l@[i as int]));
        assert(v[i as int] == l@[i as int]@);
        let ghost before = ParsedProjection::views(out@);
        proof {
            unfold_typed_projection_list(v, c@, depth, i as int, before);
        }
        let x = type_projection(&l[i], c, depth)?;
        out.push(x);
        assert(ParsedProjection::views(out@) =~= before.push(x@));
    }
    proof {
        unfold_typed_projection_list(v, c@, depth, l@.len() as int, ParsedProjection::views(out@));
    }
    Ok(out)
}

fn type_table_constraint_list(l: &Vec<ParsedTableConstraint>, c: &Resolver, depth: usize) -> (r: Result<Vec<ParsedTableConstraint>>)
    requires
        depth < 64,
    ensures
        (match r {
            Ok(x) => Ok(ParsedTableConstraint::views(x@)),
            Err(x) => Err(x@),
        }) == typed_table_constraint_list(ParsedTableConstraint::views(l@), c@, depth, 0, Seq::empty()),
    decreases l, 0int,
{
    let ghost v = ParsedTableConstraint::views(l@);
    let mut out: Vec<ParsedTableConstraint> = Vec::new();
    assert(ParsedTableConstraint::views(out@) =~= Seq::empty());
    for i in 0..l.len()
        invariant
            depth < 64,
            v == ParsedTableConstraint::views(l@),
            typed_table_constraint_list(v, c@, depth, 0, Seq::empty()) == typed_table_constraint_list(
                v,
                c@,
                depth,
                i as int,
                ParsedTableConstraint::views(out@),
            ),
    {
        assert(decreases_to!(l => l@[i as int]));
        assert(v[i as int] == l@[i as int]@);
        let ghost before = ParsedTableConstraint::views(out@);
        proof {
            unfold_typed_table_constraint_list(v, c@, depth, i as int, before);
        }
        let x = type_table_constraint(&l[i], c, depth)?;
        out.push(x);
        assert(ParsedTableConstraint::views(out@) =~= before.push(x@));
    }
    proof {
        unfold_typed_table_constraint_list(v, c@, depth, l@.len() as int, ParsedTableConstraint::views(out@));
    }
    Ok(out)
}

fn type_rows(l: &Vec<Vec<ParsedExpr>>, c: &Resolver, depth: usize) -> (r: Result<Vec<Vec<ParsedExpr>>>)
    requires
        depth < 64,
    ensures
        (match r {
            Ok(x) => Ok(expr_rows(x@)),
            Err(x) => Err(x@),
        }) == typed_rows(expr_rows(l@), c@, depth, 0, Seq::empty()),
    decreases l, 0int,
{
    let ghost v = expr_rows(l@);
    let mut out: Vec<Vec<ParsedExpr>> = Vec::new();
    assert(expr_rows(out@) =~= Seq::empty());
    for i in 0..l.len()
        invariant
            depth < 64,
            v == expr_rows(l@),
            typed_rows(v, c@, depth, 0, Seq::empty()) == typed_rows(v, c@, depth, i as int, expr_rows(out@)),
    {
        assert(decreases_to!(l => l@[i as int]));
        assert(v[i as int] == ParsedExpr::views(l@[i as int]@));
        let ghost before = expr_rows(out@);
        proof {
            unfold_typed_rows(v, c@, depth, i as int, before);
        }
        let x = type_expr_list(&l[i], c, depth)?;
        out.push(x);
        assert(expr_rows(out@) =~= before.push(ParsedExpr::views(x@)));
    }
    proof {
        unfold_typed_rows(v, c@, depth, l@.len() as int, expr_rows(out@));
    }
    Ok(out)
}

} // verus!
