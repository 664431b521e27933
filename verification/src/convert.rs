//! Takes over expressions and queries from a syntax tree.

use sqlparser::ast::{
    CastKind, Cte, DuplicateTreatment, Expr, Fetch, Function, FunctionArg, FunctionArgExpr, FunctionArgumentList, FunctionArguments,
    GroupByExpr, Join, JoinConstraint, JoinOperator, LimitClause, NamedWindowDefinition, NamedWindowExpr, OrderBy, OrderByExpr, OrderByKind,
    Query, Select, SelectItem, SetExpr, TableFactor, TableWithJoins, Top, TopQuantity, UnaryOperator as SqlUnaryOperator, WindowFrame,
    WindowFrameBound, WindowSpec, WindowType, With,
};
use vstd::prelude::*;

use crate::binding::{make_expr, option_view, some_view};
use crate::convert_parts::{
    any_string_text, compare_rows, convert_column_names, convert_distinct, convert_frame_units, convert_select_table,
    convert_sequence_value_select, convert_set_operator, convert_set_quantifier, convert_table_with_joins, find_aggregate, find_scalar,
    find_trim_function, find_window_function, has_no_groups, has_typed_columns, has_wildcard, is_advanced, is_extended, is_notification,
    is_only_star, is_routine_call, make_advanced_select, make_either, make_integer_literal, make_no_page, make_path_text, make_plain_select,
    make_rows_equal, negate_if, pick_limit, resolve_named_clauses, sequence_operation_name, ArrayItems, ArrayItemsView, Page,
};
use crate::convert_rules::{
    aggregate_argument, all_expr, any_expr, arguments_in, arguments_of, array_expr, array_of, array_rows, binary_expr, body_of, body_top,
    bound_of, call_expr, call_of, cast_expr, clauses_of, converted_box, converted_expr, converted_exprs, converted_query, converted_some,
    ctes_of, fetch_of, frame_of, from_of, groups_of, invocation_of, items_of, join_source_of, joins_of, leaf_expr, limit_of, list_expr,
    order_by_of, orders_of, page_of, plain_call, query_expr, routine_item, routine_of, routine_select, row_items, rows_in, scalar_items,
    select_of, set_operand, set_operation, text_expr, top_of, typed_expr, unary_expr, unfold_aggregate_argument, unfold_all_expr,
    unfold_any_expr, unfold_arguments_in, unfold_arguments_of, unfold_array_expr, unfold_array_of, unfold_array_rows, unfold_binary_expr,
    unfold_body_of, unfold_body_top, unfold_bound_of, unfold_call_expr, unfold_call_of, unfold_cast_expr, unfold_clauses_of,
    unfold_converted_box, unfold_converted_expr, unfold_converted_exprs, unfold_converted_query, unfold_converted_some, unfold_ctes_of,
    unfold_fetch_of, unfold_frame_of, unfold_from_of, unfold_groups_of, unfold_invocation_of, unfold_items_of, unfold_join_source_of,
    unfold_joins_of, unfold_leaf_expr, unfold_limit_of, unfold_list_expr, unfold_order_by_of, unfold_orders_of, unfold_page_of,
    unfold_plain_call, unfold_query_expr, unfold_routine_item, unfold_routine_of, unfold_routine_select, unfold_row_items, unfold_rows_in,
    unfold_scalar_items, unfold_select_of, unfold_set_operand, unfold_set_operation, unfold_text_expr, unfold_top_of, unfold_typed_expr,
    unfold_unary_expr, unfold_window_arguments, unfold_window_call_of, unfold_window_spec_of, unfold_windows_of, unfold_with_of,
    window_arguments, window_call_of, window_spec_of, windows_of, with_of,
};
use crate::literals::{
    convert_binary_operator, convert_comparison_operator, convert_sql_value, interval_literal_text, named_at_parameter_index,
    parse_temporal_literal, row_comparison_operator, validate_scalar_function_arity,
};
use crate::named_windows::{find_window, find_window_place, inherit_window, WindowDefinition};
use crate::outside::{expressions_in, start_of_expr};
use crate::rewrite::make_statement;
use crate::select_list::Clauses;
use crate::source::{convert_ident, convert_idents, convert_object_name, convert_some_ident, name_view, position_of};
use crate::sql_types::convert_column_data_type;
use crate::syntax::{
    AggregateFunction, BinaryOperator, JoinKind, ParsedCte, ParsedExpr, ParsedExprKind, ParsedExprKindView, ParsedExprView,
    ParsedIdentifier, ParsedJoin, ParsedJoinSource, ParsedObjectName, ParsedOrder, ParsedProjection, ParsedStatement, ParsedStatementView,
    ParsedTable, ParsedWindowCall, ParsedWindowFrame, ParsedWindowFrameBound, ParsedWindowSpec, ScalarFunction, SubqueryQuantifier,
    UnaryOperator, WindowFunction,
};
use crate::text::{index_text, text, text3};
use crate::types::{unsupported, unsupported_at, ArrayDimension, DbError, Result, SYNTAX_ERROR, Value};

verus! {

/// The contents of a statement that may be absent.
pub open spec fn statement_view(s: Option<ParsedStatement>) -> Option<ParsedStatementView> {
    match s {
        Some(s) => Some(s@),
        None => None,
    }
}

fn is_no_arguments(a: &FunctionArguments) -> (r: bool)
    ensures
        r == (*a is None),
{
    match a {
        FunctionArguments::None => true,
        _ => false,
    }
}

fn is_distinct(d: &Option<DuplicateTreatment>) -> (r: bool)
    ensures
        r == (*d == Some(DuplicateTreatment::Distinct)),
{
    match d {
        Some(DuplicateTreatment::Distinct) => true,
        _ => false,
    }
}

fn same_dimensions(a: &Vec<ArrayDimension>, b: &Vec<ArrayDimension>) -> (r: bool)
    ensures
        r == (a@ == b@),
{
    if a.len() != b.len() {
        return false;
    }
    for i in 0..a.len()
        invariant
            a@.len() == b@.len(),
            forall|k: int| 0 <= k < i ==> a@[k] == b@[k],
    {
        if a[i] != b[i] {
            return false;
        }
    }
    assert(a@ =~= b@);
    true
}

fn single(a: ParsedExpr) -> (r: Vec<ParsedExpr>)
    ensures
        ParsedExpr::views(r@) == seq![a@],
{
    let l: Vec<ParsedExpr> = vec![a];
    assert(ParsedExpr::views(l@) =~= seq![a@]);
    l
}

fn pair(a: ParsedExpr, b: ParsedExpr) -> (r: Vec<ParsedExpr>)
    ensures
        ParsedExpr::views(r@) == seq![a@, b@],
{
    let l: Vec<ParsedExpr> = vec![a, b];
    assert(ParsedExpr::views(l@) =~= seq![a@, b@]);
    l
}

fn triple(a: ParsedExpr, b: ParsedExpr, c: ParsedExpr) -> (r: Vec<ParsedExpr>)
    ensures
        ParsedExpr::views(r@) == seq![a@, b@, c@],
{
    let l: Vec<ParsedExpr> = vec![a, b, c];
    assert(ParsedExpr::views(l@) =~= seq![a@, b@, c@]);
    l
}

fn make_function(function: ScalarFunction, arguments: Vec<ParsedExpr>, position: Option<usize>) -> (r: ParsedExpr)
    ensures
        r@ == (ParsedExprView { kind: ParsedExprKindView::Function { function, arguments: ParsedExpr::views(arguments@) }, position }),
{
    make_expr(ParsedExprKind::Function { function, arguments }, position)
}

fn make_row_query(
    left: Vec<ParsedExpr>,
    op: BinaryOperator,
    quantifier: Option<SubqueryQuantifier>,
    negated: bool,
    query: ParsedStatement,
    position: Option<usize>,
) -> (r: ParsedExpr)
    ensures
        r@ == (ParsedExprView {
            kind: ParsedExprKindView::RowSubquery {
                left: ParsedExpr::views(left@),
                op,
                quantifier,
                negated,
                subquery: Box::new(query@),
            },
            position,
        }),
{
    make_expr(ParsedExprKind::RowSubquery { left, op, quantifier, negated, subquery: Box::new(query) }, position)
}

/// Takes over expressions.
pub fn convert_exprs(l: &Vec<Expr>, sql: &str) -> (r: Result<Vec<ParsedExpr>>)
    ensures
        (match r {
            Ok(x) => Ok(ParsedExpr::views(x@)),
            Err(x) => Err(x@),
        }) == converted_exprs(l@, sql@, 0, Seq::empty()),
        r matches Ok(x) ==> x@.len() == l@.len(),
    decreases l, 0int, 0int,
{
    let mut out: Vec<ParsedExpr> = Vec::new();
    assert(ParsedExpr::views(out@) =~= Seq::empty());
    for i in 0..l.len()
        invariant
            out@.len() == i,
            converted_exprs(l@, sql@, 0, Seq::empty()) == converted_exprs(l@, sql@, i as int, ParsedExpr::views(out@)),
    {
        assert(decreases_to!(l => l@[i as int]));
        let ghost before = ParsedExpr::views(out@);
        proof {
            unfold_converted_exprs(l@, sql@, i as int, before);
        }
        let x = convert_expr(&l[i], sql)?;
        out.push(x);
        assert(ParsedExpr::views(out@) =~= before.push(x@));
    }
    proof {
        unfold_converted_exprs(l@, sql@, l@.len() as int, ParsedExpr::views(out@));
    }
    Ok(out)
}

/// Takes over an expression that may be absent.
pub fn convert_some(e: &Option<Expr>, sql: &str) -> (r: Result<Option<ParsedExpr>>)
    ensures
        (match r {
            Ok(x) => Ok(some_view(x)),
            Err(x) => Err(x@),
        }) == converted_some(*e, sql@),
    decreases e, 1int, 0int,
{
    proof {
        unfold_converted_some(*e, sql@);
    }
    match e {
        None => Ok(None),
        Some(e) => Ok(Some(convert_expr(e, sql)?)),
    }
}

fn convert_box(e: &Option<Box<Expr>>, sql: &str) -> (r: Result<Option<Box<ParsedExpr>>>)
    ensures
        (match r {
            Ok(x) => Ok(option_view(x)),
            Err(x) => Err(x@),
        }) == converted_box(*e, sql@),
    decreases e, 1int, 0int,
{
    proof {
        unfold_converted_box(*e, sql@);
    }
    match e {
        None => Ok(None),
        Some(e) => Ok(Some(Box::new(convert_expr(e, sql)?))),
    }
}

fn convert_row_items(l: &Vec<Expr>, sql: &str, position: Option<usize>) -> (r: Result<Vec<ParsedExpr>>)
    ensures
        (match r {
            Ok(x) => Ok(ParsedExpr::views(x@)),
            Err(x) => Err(x@),
        }) == row_items(l@, sql@, position),
        r matches Ok(x) ==> x@.len() == l@.len() && x@.len() > 0,
    decreases l, 1int, 0int,
{
    proof {
        unfold_row_items(l@, sql@, position);
    }
    if l.len() == 0 {
        return Err(DbError::at(SYNTAX_ERROR, text("row values require at least one expression"), position));
    }
    convert_exprs(l, sql)
}

fn convert_row_in_list(left: &Vec<ParsedExpr>, l: &Vec<Expr>, sql: &str, position: Option<usize>) -> (r: Result<Option<ParsedExpr>>)
    ensures
        (match r {
            Ok(x) => Ok(some_view(x)),
            Err(x) => Err(x@),
        }) == rows_in(ParsedExpr::views(left@), l@, sql@, position, 0, None),
    decreases l, 0int, 0int,
{
    let ghost v = ParsedExpr::views(left@);
    let mut done: Option<ParsedExpr> = None;
    for i in 0..l.len()
        invariant
            v == ParsedExpr::views(left@),
            rows_in(v, l@, sql@, position, 0, None) == rows_in(v, l@, sql@, position, i as int, some_view(done)),
    {
        assert(decreases_to!(l => l@[i as int]));
        proof {
            unfold_rows_in(v, l@, sql@, position, i as int, some_view(done));
        }
        match &l[i] {
            Expr::Tuple(r) => {
                if r.len() != left.len() {
                    return Err(DbError::at(SYNTAX_ERROR, text("row comparison operands must have the same number of columns"), position));
                }
                let right = convert_row_items(r, sql, position)?;
                done = Some(make_either(done, make_rows_equal(left, &right, position), position));
            },
            _ => {
                return Err(DbError::at(SYNTAX_ERROR, text("row IN lists require row values"), position));
            },
        }
    }
    proof {
        unfold_rows_in(v, l@, sql@, position, l@.len() as int, some_view(done));
    }
    Ok(done)
}

fn convert_arguments(l: &Vec<FunctionArg>, sql: &str, message: &str, position: Option<usize>) -> (r: Result<Vec<ParsedExpr>>)
    ensures
        (match r {
            Ok(x) => Ok(ParsedExpr::views(x@)),
            Err(x) => Err(x@),
        }) == arguments_in(l@, sql@, message@, position, 0, Seq::empty()),
    decreases l, 0int, 0int,
{
    let mut out: Vec<ParsedExpr> = Vec::new();
    assert(ParsedExpr::views(out@) =~= Seq::empty());
    for i in 0..l.len()
        invariant
            out@.len() == i,
            arguments_in(l@, sql@, message@, position, 0, Seq::empty()) == arguments_in(
                l@,
                sql@,
                message@,
                position,
                i as int,
                ParsedExpr::views(out@),
            ),
    {
        assert(decreases_to!(l => l@[i as int]));
        let ghost before = ParsedExpr::views(out@);
        proof {
            unfold_arguments_in(l@, sql@, message@, position, i as int, before);
        }
        let x = match &l[i] {
            FunctionArg::Unnamed(FunctionArgExpr::Expr(e)) => convert_expr(e, sql)?,
            _ => {
                return Err(unsupported_at(message, position));
            },
        };
        out.push(x);
        assert(ParsedExpr::views(out@) =~= before.push(x@));
    }
    proof {
        unfold_arguments_in(l@, sql@, message@, position, l@.len() as int, ParsedExpr::views(out@));
    }
    Ok(out)
}

fn convert_scalar_function_arguments(a: &FunctionArguments, sql: &str, position: Option<usize>) -> (r: Result<Vec<ParsedExpr>>)
    ensures
        (match r {
            Ok(x) => Ok(ParsedExpr::views(x@)),
            Err(x) => Err(x@),
        }) == arguments_of(*a, sql@, position),
    decreases a, 1int, 0int,
{
    proof {
        unfold_arguments_of(*a, sql@, position);
    }
    match a {
        FunctionArguments::None => {
            let none: Vec<ParsedExpr> = Vec::new();
            assert(ParsedExpr::views(none@) =~= Seq::empty());
            Ok(none)
        },
        FunctionArguments::Subquery(_) => Err(unsupported_at("subquery function arguments are not supported yet", position)),
        FunctionArguments::List(list) => {
            if list.duplicate_treatment.is_some() || list.clauses.len() > 0 {
                return Err(unsupported_at("function argument modifiers are not supported yet", position));
            }
            convert_arguments(&list.args, sql, "function calls support positional expression arguments only", position)
        },
    }
}

fn convert_aggregate_argument(
    list: &FunctionArgumentList,
    f: AggregateFunction,
    distinct: bool,
    sql: &str,
    position: Option<usize>,
) -> (r: Result<Option<Box<ParsedExpr>>>)
    ensures
        (match r {
            Ok(x) => Ok(option_view(x)),
            Err(x) => Err(x@),
        }) == aggregate_argument(*list, f, distinct, sql@, position),
    decreases list, 1int, 0int,
{
    proof {
        unfold_aggregate_argument(*list, f, distinct, sql@, position);
    }
    if list.args.len() != 1 {
        return Err(unsupported_at("aggregate requires one expression, or COUNT(*)", position));
    }
    assert(decreases_to!(list => list.args));
    assert(decreases_to!(list.args => list.args@[0]));
    match &list.args[0] {
        FunctionArg::Unnamed(FunctionArgExpr::Wildcard) => if f == AggregateFunction::Count && !distinct {
            Ok(None)
        } else {
            Err(DbError::at(SYNTAX_ERROR, text("DISTINCT aggregate requires an expression"), position))
        },
        FunctionArg::Unnamed(FunctionArgExpr::Expr(e)) => Ok(Some(Box::new(convert_expr(e, sql)?))),
        _ => Err(unsupported_at("aggregate requires one expression, or COUNT(*)", position)),
    }
}

fn convert_plain_call(f: &Function, sql: &str, position: Option<usize>) -> (r: Result<ParsedExprKind>)
    ensures
        (match r {
            Ok(x) => Ok(x.shape()),
            Err(x) => Err(x@),
        }) == plain_call(*f, sql@, position),
    decreases f, 1int, 0int,
{
    proof {
        unfold_plain_call(*f, sql@, position);
    }
    if f.uses_odbc_syntax || !is_no_arguments(&f.parameters) || f.null_treatment.is_some() || f.within_group.len() > 0 {
        return Err(unsupported_at("aggregate options are not supported yet", position));
    }
    let filter = convert_box(&f.filter, sql)?;
    let path = make_path_text(&f.name);
    if let Some(function) = find_scalar(&path) {
        if filter.is_some() {
            return Err(unsupported_at("FILTER is supported only for aggregate functions", position));
        }
        let arguments = convert_scalar_function_arguments(&f.args, sql, position)?;
        validate_scalar_function_arity(function, arguments.len(), position)?;
        return Ok(ParsedExprKind::Function { function, arguments });
    }
    match find_aggregate(&path) {
        None => Err(unsupported_at("this SQL function is not supported yet", position)),
        Some(function) => match &f.args {
            FunctionArguments::List(list) => {
                if list.clauses.len() > 0 {
                    return Err(unsupported_at("ordered aggregate arguments are not supported yet", position));
                }
                let distinct = is_distinct(&list.duplicate_treatment);
                let argument = convert_aggregate_argument(list, function, distinct, sql, position)?;
                Ok(ParsedExprKind::Aggregate { function, argument, distinct, filter })
            },
            _ => Err(unsupported_at("aggregate arguments must use parentheses", position)),
        },
    }
}

/// Takes over sort keys.
pub fn convert_orders(l: &Vec<OrderByExpr>, sql: &str) -> (r: Result<Vec<ParsedOrder>>)
    ensures
        (match r {
            Ok(x) => Ok(ParsedOrder::views(x@)),
            Err(x) => Err(x@),
        }) == orders_of(l@, sql@, 0, Seq::empty()),
    decreases l, 0int, 0int,
{
    let mut out: Vec<ParsedOrder> = Vec::new();
    assert(ParsedOrder::views(out@) =~= Seq::empty());
    for i in 0..l.len()
        invariant
            out@.len() == i,
            orders_of(l@, sql@, 0, Seq::empty()) == orders_of(l@, sql@, i as int, ParsedOrder::views(out@)),
    {
        assert(decreases_to!(l => l@[i as int]));
        let ghost before = ParsedOrder::views(out@);
        proof {
            unfold_orders_of(l@, sql@, i as int, before);
        }
        if l[i].with_fill.is_some() {
            return Err(unsupported("ORDER BY WITH FILL is not supported"));
        }
        assert(decreases_to!(l@[i as int] => l@[i as int].expr));
        let expr = convert_expr(&l[i].expr, sql)?;
        let ascending: bool = match l[i].options.asc {
            Some(asc) => asc,
            None => true,
        };
        let x = ParsedOrder { expr, ascending, nulls_first: l[i].options.nulls_first };
        proof {
            x.unfold();
        }
        out.push(x);
        assert(ParsedOrder::views(out@) =~= before.push(x@));
    }
    proof {
        unfold_orders_of(l@, sql@, l@.len() as int, ParsedOrder::views(out@));
    }
    Ok(out)
}

fn convert_bound(b: &WindowFrameBound, sql: &str) -> (r: Result<ParsedWindowFrameBound>)
    ensures
        (match r {
            Ok(x) => Ok(x@),
            Err(x) => Err(x@),
        }) == bound_of(*b, sql@),
    decreases b, 1int, 0int,
{
    proof {
        unfold_bound_of(*b, sql@);
    }
    let r = match b {
        WindowFrameBound::CurrentRow => ParsedWindowFrameBound::CurrentRow,
        WindowFrameBound::Preceding(None) => ParsedWindowFrameBound::UnboundedPreceding,
        WindowFrameBound::Preceding(Some(e)) => ParsedWindowFrameBound::Preceding(Box::new(convert_expr(e, sql)?)),
        WindowFrameBound::Following(None) => ParsedWindowFrameBound::UnboundedFollowing,
        WindowFrameBound::Following(Some(e)) => ParsedWindowFrameBound::Following(Box::new(convert_expr(e, sql)?)),
    };
    proof {
        r.unfold();
    }
    Ok(r)
}

fn convert_frame(f: &WindowFrame, sql: &str) -> (r: Result<ParsedWindowFrame>)
    ensures
        (match r {
            Ok(x) => Ok(x@),
            Err(x) => Err(x@),
        }) == frame_of(*f, sql@),
    decreases f, 1int, 0int,
{
    proof {
        unfold_frame_of(*f, sql@);
    }
    let units = convert_frame_units(&f.units)?;
    let start_bound = convert_bound(&f.start_bound, sql)?;
    let end_bound = match &f.end_bound {
        None => {
            let b = ParsedWindowFrameBound::CurrentRow;
            proof {
                b.unfold();
            }
            b
        },
        Some(b) => convert_bound(b, sql)?,
    };
    let r = ParsedWindowFrame { units, start_bound, end_bound };
    proof {
        r.unfold();
    }
    Ok(r)
}

fn convert_window_spec(w: &WindowSpec, sql: &str) -> (r: Result<ParsedWindowSpec>)
    ensures
        (match r {
            Ok(x) => Ok(x@),
            Err(x) => Err(x@),
        }) == window_spec_of(*w, sql@),
    decreases w, 1int, 0int,
{
    proof {
        unfold_window_spec_of(*w, sql@);
    }
    let partition_by = convert_exprs(&w.partition_by, sql)?;
    let order_by = convert_orders(&w.order_by, sql)?;
    let frame: Option<ParsedWindowFrame> = match &w.window_frame {
        None => None,
        Some(f) => Some(convert_frame(f, sql)?),
    };
    let r = ParsedWindowSpec { window_name: convert_some_ident(&w.window_name, sql), partition_by, order_by, frame };
    proof {
        r.unfold();
    }
    Ok(r)
}

fn convert_window_arguments(
    a: &FunctionArguments,
    function: WindowFunction,
    sql: &str,
    position: Option<usize>,
) -> (r: Result<(Vec<ParsedExpr>, bool)>)
    ensures
        (match r {
            Ok(x) => Ok((ParsedExpr::views(x.0@), x.1)),
            Err(x) => Err(x@),
        }) == window_arguments(*a, function, sql@, position),
    decreases a, 1int, 0int,
{
    proof {
        unfold_window_arguments(*a, function, sql@, position);
    }
    match a {
        FunctionArguments::List(list) => {
            if is_distinct(&list.duplicate_treatment) {
                return Err(unsupported_at("DISTINCT window aggregates are not supported yet", position));
            }
            if list.clauses.len() > 0 {
                return Err(unsupported_at("ordered window arguments are not supported yet", position));
            }
            if function == WindowFunction::Aggregate(AggregateFunction::Count) && is_only_star(&list.args) {
                let none: Vec<ParsedExpr> = Vec::new();
                assert(ParsedExpr::views(none@) =~= Seq::empty());
                return Ok((none, true));
            }
            let arguments = convert_arguments(&list.args, sql, "window calls support positional expression arguments only", position)?;
            Ok((arguments, false))
        },
        _ => Err(unsupported_at("window function arguments must use parentheses", position)),
    }
}

fn convert_window_call(f: &Function, sql: &str, position: Option<usize>) -> (r: Result<ParsedWindowCall>)
    ensures
        (match r {
            Ok(x) => Ok(x@),
            Err(x) => Err(x@),
        }) == window_call_of(*f, sql@, position),
    decreases f, 1int, 0int,
{
    proof {
        unfold_window_call_of(*f, sql@, position);
    }
    if f.uses_odbc_syntax || !is_no_arguments(&f.parameters) || f.null_treatment.is_some() || f.within_group.len() > 0 {
        return Err(unsupported_at("window function options are not supported yet", position));
    }
    let path = make_path_text(&f.name);
    match find_window_function(&path) {
        None => Err(unsupported_at("this window function is not supported yet", position)),
        Some(function) => {
            let (arguments, count_star) = convert_window_arguments(&f.args, function, sql, position)?;
            let aggregates = match function {
                WindowFunction::Aggregate(_) => true,
                _ => false,
            };
            if f.filter.is_some() && !aggregates {
                return Err(DbError::at("42809", text("FILTER is supported only for aggregate window functions"), position));
            }
            let filter = convert_box(&f.filter, sql)?;
            let r = ParsedWindowCall { function, arguments, count_star, filter };
            proof {
                r.unfold();
            }
            Ok(r)
        },
    }
}

fn convert_call(f: &Function, sql: &str, position: Option<usize>) -> (r: Result<ParsedExprKind>)
    ensures
        (match r {
            Ok(x) => Ok(x.shape()),
            Err(x) => Err(x@),
        }) == call_of(*f, sql@, position),
    decreases f, 2int, 0int,
{
    proof {
        unfold_call_of(*f, sql@, position);
    }
    match &f.over {
        None => convert_plain_call(f, sql, position),
        Some(over) => {
            let call = convert_window_call(f, sql, position)?;
            match over {
                WindowType::NamedWindow(name) => Ok(ParsedExprKind::NamedWindow { call: Box::new(call), name: convert_ident(name, sql) }),
                WindowType::WindowSpec(w) => {
                    let spec = convert_window_spec(w, sql)?;
                    Ok(ParsedExprKind::Window { call: Box::new(call), spec: Box::new(spec) })
                },
            }
        },
    }
}

/// Takes over an array.
pub fn convert_array_expression(l: &Vec<Expr>, sql: &str, position: Option<usize>) -> (r: Result<ArrayItems>)
    ensures
        (match r {
            Ok(x) => Ok(x@),
            Err(x) => Err(x@),
        }) == array_of(l@, sql@, position),
    decreases l, 2int, 0int,
{
    proof {
        unfold_array_of(l@, sql@, position);
    }
    if l.len() == 0 {
        let elements: Vec<ParsedExpr> = Vec::new();
        assert(ParsedExpr::views(elements@) =~= Seq::empty());
        return Ok(ArrayItems { elements, dimensions: Vec::new() });
    }
    let nested = match &l[0] {
        Expr::Array(_) => true,
        _ => false,
    };
    if nested {
        return convert_array_rows(l, sql, position);
    }
    let elements = convert_exprs(l, sql)?;
    let dimensions: Vec<ArrayDimension> = vec![ArrayDimension { length: l.len(), lower_bound: 1 }];
    assert(dimensions@ =~= seq![ArrayDimension { length: l@.len() as usize, lower_bound: 1 }]);
    Ok(ArrayItems { elements, dimensions })
}

fn convert_array_rows(l: &Vec<Expr>, sql: &str, position: Option<usize>) -> (r: Result<ArrayItems>)
    ensures
        (match r {
            Ok(x) => Ok(x@),
            Err(x) => Err(x@),
        }) == array_rows(l@, sql@, position, 0, ArrayItemsView { elements: Seq::empty(), dimensions: Seq::empty() }),
    decreases l, 1int, 0int,
{
    let ghost start = ArrayItemsView { elements: Seq::empty(), dimensions: Seq::empty() };
    let mut elements: Vec<ParsedExpr> = Vec::new();
    let mut dimensions: Vec<ArrayDimension> = Vec::new();
    assert(ParsedExpr::views(elements@) =~= Seq::empty());
    for i in 0..l.len()
        invariant
            start == (ArrayItemsView { elements: Seq::empty(), dimensions: Seq::empty() }),
            array_rows(l@, sql@, position, 0, start) == array_rows(
                l@,
                sql@,
                position,
                i as int,
                ArrayItemsView { elements: ParsedExpr::views(elements@), dimensions: dimensions@ },
            ),
    {
        assert(decreases_to!(l => l@[i as int]));
        proof {
            unfold_array_rows(
                l@,
                sql@,
                position,
                i as int,
                ArrayItemsView { elements: ParsedExpr::views(elements@), dimensions: dimensions@ },
            );
        }
        match &l[i] {
            Expr::Array(row) => {
                let items = convert_array_expression(&row.elem, sql, position)?;
                let mut all: Vec<ArrayDimension> = vec![ArrayDimension { length: l.len(), lower_bound: 1 }];
                let ghost first = all@;
                assert(first =~= seq![ArrayDimension { length: l@.len() as usize, lower_bound: 1 }]);
                for k in 0..items.dimensions.len()
                    invariant
                        all@ == first + items.dimensions@.take(k as int),
                {
                    all.push(items.dimensions[k]);
                    assert(items.dimensions@.take(k + 1) =~= items.dimensions@.take(k as int).push(items.dimensions@[k as int]));
                }
                assert(items.dimensions@.take(items.dimensions@.len() as int) =~= items.dimensions@);
                if i > 0 && !same_dimensions(&all, &dimensions) {
                    return Err(DbError::at("2202E", text("multidimensional arrays must have rows of the same size"), position));
                }
                let ghost before = ParsedExpr::views(elements@);
                let mut more = items.elements;
                let ghost added = ParsedExpr::views(more@);
                elements.append(&mut more);
                assert(ParsedExpr::views(elements@) =~= before + added);
                dimensions = all;
            },
            _ => {
                return Err(DbError::at("2202E", text("multidimensional arrays must have rows of the same size"), position));
            },
        }
    }
    proof {
        unfold_array_rows(
            l@,
            sql@,
            position,
            l@.len() as int,
            ArrayItemsView { elements: ParsedExpr::views(elements@), dimensions: dimensions@ },
        );
    }
    Ok(ArrayItems { elements, dimensions })
}

fn convert_leaf(e: &Expr, sql: &str, position: Option<usize>) -> (r: Result<ParsedExpr>)
    ensures
        (match r {
            Ok(x) => Ok(x@),
            Err(x) => Err(x@),
        }) == leaf_expr(*e, sql@, position),
    decreases e, 0int, 0int,
{
    proof {
        unfold_leaf_expr(*e, sql@, position);
    }
    match e {
        Expr::Identifier(ident) => {
            if ident.quote_style.is_none() {
                if let Some(index) = named_at_parameter_index(ident.value.as_str()) {
                    return Ok(make_expr(ParsedExprKind::Parameter(index), position));
                }
            }
            let x = convert_ident(ident, sql);
            let parts: Vec<ParsedIdentifier> = vec![x];
            assert(ParsedIdentifier::views(parts@) =~= seq![x@]);
            Ok(make_expr(ParsedExprKind::Column(ParsedObjectName { parts }), position))
        },
        Expr::CompoundIdentifier(parts) => {
            let parts = convert_idents(parts, sql);
            Ok(make_expr(ParsedExprKind::Column(ParsedObjectName { parts }), position))
        },
        Expr::Value(v) => {
            let kind = convert_sql_value(&v.value, position)?;
            Ok(make_expr(kind, position))
        },
        _ => Err(unsupported_at("this SQL expression is not supported yet", position)),
    }
}

fn convert_typed(e: &Expr, sql: &str, position: Option<usize>) -> (r: Result<ParsedExpr>)
    ensures
        (match r {
            Ok(x) => Ok(x@),
            Err(x) => Err(x@),
        }) == typed_expr(*e, sql@, position),
    decreases e, 0int, 0int,
{
    proof {
        unfold_typed_expr(*e, sql@, position);
    }
    match e {
        Expr::TypedString(t) => match any_string_text(&t.value.value) {
            None => Err(DbError::at(SYNTAX_ERROR, text("typed literal requires a string value"), position)),
            Some(s) => {
                let v = parse_temporal_literal(&t.data_type, s.as_str(), position)?;
                Ok(make_expr(ParsedExprKind::Literal(v), position))
            },
        },
        Expr::Interval(i) => {
            if i.leading_field.is_some() || i.leading_precision.is_some() || i.last_field.is_some()
                || i.fractional_seconds_precision.is_some() {
                return Err(unsupported_at("INTERVAL field and precision qualifiers are not supported yet", position));
            }
            let s = interval_literal_text(&i.value, position)?;
            Ok(make_expr(ParsedExprKind::Literal(Value::Interval(s)), position))
        },
        _ => Err(unsupported_at("this SQL expression is not supported yet", position)),
    }
}

fn convert_cast(e: &Expr, sql: &str, position: Option<usize>) -> (r: Result<ParsedExpr>)
    ensures
        (match r {
            Ok(x) => Ok(x@),
            Err(x) => Err(x@),
        }) == cast_expr(*e, sql@, position),
    decreases e, 0int, 0int,
{
    proof {
        unfold_cast_expr(*e, sql@, position);
    }
    match e {
        Expr::Cast { kind, expr, data_type, array, format } => {
            let supported = match kind {
                CastKind::Cast => true,
                CastKind::DoubleColon => true,
                _ => false,
            };
            if !supported {
                return Err(unsupported_at("TRY_CAST and SAFE_CAST are not supported", position));
            }
            if *array || format.is_some() {
                return Err(unsupported_at("this CAST option is not supported", position));
            }
            let (data_type, declared_type) = convert_column_data_type(data_type, sql)?;
            let b = convert_expr(expr, sql)?;
            Ok(make_expr(ParsedExprKind::Cast { expr: Box::new(b), data_type, declared_type }, position))
        },
        _ => Err(unsupported_at("this SQL expression is not supported yet", position)),
    }
}

fn convert_array(e: &Expr, sql: &str, position: Option<usize>) -> (r: Result<ParsedExpr>)
    ensures
        (match r {
            Ok(x) => Ok(x@),
            Err(x) => Err(x@),
        }) == array_expr(*e, sql@, position),
    decreases e, 0int, 0int,
{
    proof {
        unfold_array_expr(*e, sql@, position);
    }
    match e {
        Expr::Array(a) => {
            let items = convert_array_expression(&a.elem, sql, position)?;
            Ok(make_expr(ParsedExprKind::Array { elements: items.elements, dimensions: items.dimensions }, position))
        },
        _ => Err(unsupported_at("this SQL expression is not supported yet", position)),
    }
}

fn convert_text(e: &Expr, sql: &str, position: Option<usize>) -> (r: Result<ParsedExpr>)
    ensures
        (match r {
            Ok(x) => Ok(x@),
            Err(x) => Err(x@),
        }) == text_expr(*e, sql@, position),
    decreases e, 0int, 0int,
{
    proof {
        unfold_text_expr(*e, sql@, position);
    }
    match e {
        Expr::Substring { expr, substring_from, substring_for, .. } => match substring_from {
            None => Err(DbError::at(SYNTAX_ERROR, text("SUBSTRING requires a start position"), position)),
            Some(from) => {
                let a = convert_expr(expr, sql)?;
                let b = convert_expr(from, sql)?;
                match substring_for {
                    None => Ok(make_function(ScalarFunction::Substring, pair(a, b), position)),
                    Some(length) => {
                        let c = convert_expr(length, sql)?;
                        Ok(make_function(ScalarFunction::Substring, triple(a, b, c), position))
                    },
                }
            },
        },
        Expr::Position { expr, .. } => {
            let parts = expressions_in(e);
            let n: usize = parts.len();
            assert(decreases_to!(*e => parts@[n - 2]));
            let a = convert_expr(&parts[n - 2], sql)?;
            let b = convert_expr(expr, sql)?;
            Ok(make_function(ScalarFunction::Strpos, pair(a, b), position))
        },
        Expr::Trim { expr, trim_where, trim_what, trim_characters } => {
            if trim_characters.is_some() {
                return Err(unsupported_at("comma-separated TRIM characters are not supported", position));
            }
            let a = convert_expr(expr, sql)?;
            match trim_what {
                None => Ok(make_function(find_trim_function(trim_where), single(a), position)),
                Some(what) => {
                    let b = convert_expr(what, sql)?;
                    Ok(make_function(find_trim_function(trim_where), pair(a, b), position))
                },
            }
        },
        _ => Err(unsupported_at("this SQL expression is not supported yet", position)),
    }
}

fn convert_unary(e: &Expr, sql: &str, position: Option<usize>) -> (r: Result<ParsedExpr>)
    ensures
        (match r {
            Ok(x) => Ok(x@),
            Err(x) => Err(x@),
        }) == unary_expr(*e, sql@, position),
    decreases e, 0int, 0int,
{
    proof {
        unfold_unary_expr(*e, sql@, position);
    }
    match e {
        Expr::UnaryOp { op, expr } => match op {
            SqlUnaryOperator::Not => {
                let b = convert_expr(expr, sql)?;
                Ok(make_expr(ParsedExprKind::Unary { op: UnaryOperator::Not, expr: Box::new(b) }, position))
            },
            SqlUnaryOperator::Minus => {
                let b = convert_expr(expr, sql)?;
                Ok(make_expr(ParsedExprKind::Unary { op: UnaryOperator::Negate, expr: Box::new(b) }, position))
            },
            SqlUnaryOperator::Plus => convert_expr(expr, sql),
            _ => Err(unsupported_at("this unary operator is not supported yet", position)),
        },
        _ => Err(unsupported_at("this SQL expression is not supported yet", position)),
    }
}

fn convert_binary(e: &Expr, sql: &str, position: Option<usize>) -> (r: Result<ParsedExpr>)
    ensures
        (match r {
            Ok(x) => Ok(x@),
            Err(x) => Err(x@),
        }) == binary_expr(*e, sql@, position),
    decreases e, 0int, 0int,
{
    proof {
        unfold_binary_expr(*e, sql@, position);
    }
    match e {
        Expr::BinaryOp { left, op, right } => {
            let op = convert_binary_operator(op, position)?;
            match (&**left, &**right) {
                (Expr::Tuple(l), Expr::Tuple(r)) => {
                    let op = row_comparison_operator(op, position)?;
                    if l.len() != r.len() {
                        return Err(
                            DbError::at(SYNTAX_ERROR, text("row comparison operands must have the same number of columns"), position),
                        );
                    }
                    let a = convert_row_items(l, sql, position)?;
                    let b = convert_row_items(r, sql, position)?;
                    Ok(compare_rows(op, &a, &b, position))
                },
                (Expr::Tuple(l), Expr::Subquery(q)) => {
                    let left = convert_row_items(l, sql, position)?;
                    let op = row_comparison_operator(op, position)?;
                    let query = convert_select_query(q, sql)?;
                    Ok(make_row_query(left, op, None, false, query, position))
                },
                (Expr::Subquery(q), Expr::Tuple(r)) => {
                    let left = convert_row_items(r, sql, position)?;
                    let op = row_comparison_operator(op, position)?;
                    let query = convert_select_query(q, sql)?;
                    Ok(make_row_query(left, op, None, false, query, position))
                },
                _ => {
                    let a = convert_expr(left, sql)?;
                    let b = convert_expr(right, sql)?;
                    Ok(make_expr(ParsedExprKind::Binary { left: Box::new(a), op, right: Box::new(b) }, position))
                },
            }
        },
        _ => Err(unsupported_at("this SQL expression is not supported yet", position)),
    }
}

fn convert_list(e: &Expr, sql: &str, position: Option<usize>) -> (r: Result<ParsedExpr>)
    ensures
        (match r {
            Ok(x) => Ok(x@),
            Err(x) => Err(x@),
        }) == list_expr(*e, sql@, position),
    decreases e, 0int, 0int,
{
    proof {
        unfold_list_expr(*e, sql@, position);
    }
    match e {
        Expr::InList { expr, list, negated } => {
            if list.len() == 0 {
                return Err(DbError::at(SYNTAX_ERROR, text("IN list must contain at least one expression"), position));
            }
            match &**expr {
                Expr::Tuple(l) => {
                    let items = convert_row_items(l, sql, position)?;
                    match convert_row_in_list(&items, list, sql, position)? {
                        Some(found) => Ok(negate_if(*negated, found, position)),
                        None => Err(DbError::at(SYNTAX_ERROR, text("IN list must contain at least one expression"), position)),
                    }
                },
                _ => {
                    let b = convert_expr(expr, sql)?;
                    let items = convert_exprs(list, sql)?;
                    Ok(make_expr(ParsedExprKind::InList { expr: Box::new(b), list: items, negated: *negated }, position))
                },
            }
        },
        _ => Err(unsupported_at("this SQL expression is not supported yet", position)),
    }
}

fn convert_subquery(e: &Expr, sql: &str, position: Option<usize>) -> (r: Result<ParsedExpr>)
    ensures
        (match r {
            Ok(x) => Ok(x@),
            Err(x) => Err(x@),
        }) == query_expr(*e, sql@, position),
    decreases e, 0int, 0int,
{
    proof {
        unfold_query_expr(*e, sql@, position);
    }
    match e {
        Expr::Subquery(q) => {
            let query = convert_select_query(q, sql)?;
            Ok(make_expr(ParsedExprKind::ScalarSubquery(Box::new(query)), position))
        },
        Expr::Exists { subquery, negated } => {
            let query = convert_select_query(subquery, sql)?;
            Ok(make_expr(ParsedExprKind::Exists { subquery: Box::new(query), negated: *negated }, position))
        },
        Expr::InSubquery { expr, subquery, negated } => match &**expr {
            Expr::Tuple(l) => {
                    let left = convert_row_items(l, sql, position)?;
                    let query = convert_select_query(subquery, sql)?;
                    Ok(make_row_query(left, BinaryOperator::Eq, Some(SubqueryQuantifier::Any), *negated, query, position))
            },
            _ => {
                let b = convert_expr(expr, sql)?;
                let query = convert_select_query(subquery, sql)?;
                Ok(make_expr(ParsedExprKind::InSubquery { expr: Box::new(b), subquery: Box::new(query), negated: *negated }, position))
            },
        },
        _ => Err(unsupported_at("this SQL expression is not supported yet", position)),
    }
}

fn convert_any(e: &Expr, sql: &str, position: Option<usize>) -> (r: Result<ParsedExpr>)
    ensures
        (match r {
            Ok(x) => Ok(x@),
            Err(x) => Err(x@),
        }) == any_expr(*e, sql@, position),
    decreases e, 0int, 0int,
{
    proof {
        unfold_any_expr(*e, sql@, position);
    }
    match e {
        Expr::AnyOp { left, compare_op, right, .. } => match &**right {
            Expr::Subquery(subquery) => {
                let op = convert_comparison_operator(compare_op, position)?;
                match &**left {
                    Expr::Tuple(l) => {
                    let left = convert_row_items(l, sql, position)?;
                    let op = row_comparison_operator(op, position)?;
                    let query = convert_select_query(subquery, sql)?;
                    Ok(make_row_query(left, op, Some(SubqueryQuantifier::Any), false, query, position))
                    },
                    _ => {
                        let b = convert_expr(left, sql)?;
                        let query = convert_select_query(subquery, sql)?;
                        Ok(
                            make_expr(
                                ParsedExprKind::QuantifiedSubquery {
                                    left: Box::new(b),
                                    op,
                                    quantifier: SubqueryQuantifier::Any,
                                    subquery: Box::new(query),
                                },
                                position,
                            ),
                        )
                    },
                }
            },
            _ => Err(unsupported_at("ANY over arrays or non-subquery expressions is not supported yet", position)),
        },
        _ => Err(unsupported_at("this SQL expression is not supported yet", position)),
    }
}

fn convert_all(e: &Expr, sql: &str, position: Option<usize>) -> (r: Result<ParsedExpr>)
    ensures
        (match r {
            Ok(x) => Ok(x@),
            Err(x) => Err(x@),
        }) == all_expr(*e, sql@, position),
    decreases e, 0int, 0int,
{
    proof {
        unfold_all_expr(*e, sql@, position);
    }
    match e {
        Expr::AllOp { left, compare_op, right } => match &**right {
            Expr::Subquery(subquery) => {
                let op = convert_comparison_operator(compare_op, position)?;
                match &**left {
                    Expr::Tuple(l) => {
                    let left = convert_row_items(l, sql, position)?;
                    let op = row_comparison_operator(op, position)?;
                    let query = convert_select_query(subquery, sql)?;
                    Ok(make_row_query(left, op, Some(SubqueryQuantifier::All), false, query, position))
                    },
                    _ => {
                        let b = convert_expr(left, sql)?;
                        let query = convert_select_query(subquery, sql)?;
                        Ok(
                            make_expr(
                                ParsedExprKind::QuantifiedSubquery {
                                    left: Box::new(b),
                                    op,
                                    quantifier: SubqueryQuantifier::All,
                                    subquery: Box::new(query),
                                },
                                position,
                            ),
                        )
                    },
                }
            },
            _ => Err(unsupported_at("ALL over arrays or non-subquery expressions is not supported yet", position)),
        },
        _ => Err(unsupported_at("this SQL expression is not supported yet", position)),
    }
}

fn convert_function(e: &Expr, sql: &str, position: Option<usize>) -> (r: Result<ParsedExpr>)
    ensures
        (match r {
            Ok(x) => Ok(x@),
            Err(x) => Err(x@),
        }) == call_expr(*e, sql@, position),
    decreases e, 0int, 0int,
{
    proof {
        unfold_call_expr(*e, sql@, position);
    }
    match e {
        Expr::Function(f) => {
            let kind = convert_call(f, sql, position)?;
            Ok(make_expr(kind, position))
        },
        _ => Err(unsupported_at("this SQL expression is not supported yet", position)),
    }
}

/// Takes over an expression.
pub fn convert_expr(e: &Expr, sql: &str) -> (r: Result<ParsedExpr>)
    ensures
        (match r {
            Ok(x) => Ok(x@),
            Err(x) => Err(x@),
        }) == converted_expr(*e, sql@),
    decreases e, 1int, 0int,
{
    proof {
        unfold_converted_expr(*e, sql@);
    }
    let position = position_of(sql, start_of_expr(e));
    match e {
        Expr::Identifier(..) => convert_leaf(e, sql, position),
        Expr::CompoundIdentifier(..) => convert_leaf(e, sql, position),
        Expr::Nested(inner) => convert_expr(inner, sql),
        Expr::Value(..) => convert_leaf(e, sql, position),
        Expr::TypedString(..) => convert_typed(e, sql, position),
        Expr::Interval(..) => convert_typed(e, sql, position),
        Expr::Cast { .. } => convert_cast(e, sql, position),
        Expr::Array(..) => convert_array(e, sql, position),
        Expr::Substring { .. } => convert_text(e, sql, position),
        Expr::Trim { .. } => convert_text(e, sql, position),
        Expr::Position { .. } => convert_text(e, sql, position),
        Expr::UnaryOp { .. } => convert_unary(e, sql, position),
        Expr::BinaryOp { .. } => convert_binary(e, sql, position),
        Expr::InList { .. } => convert_list(e, sql, position),
        Expr::Subquery(..) => convert_subquery(e, sql, position),
        Expr::Exists { .. } => convert_subquery(e, sql, position),
        Expr::InSubquery { .. } => convert_subquery(e, sql, position),
        Expr::AnyOp { .. } => convert_any(e, sql, position),
        Expr::AllOp { .. } => convert_all(e, sql, position),
        Expr::Tuple(_) => Err(unsupported_at("row values are supported only in comparisons and IN predicates", position)),
        Expr::Function(..) => convert_function(e, sql, position),
        _ => Err(unsupported_at("this SQL expression is not supported yet", position)),
    }
}

/// Takes over a select list.
pub fn convert_projection_items(l: &Vec<SelectItem>, sql: &str) -> (r: Result<Vec<ParsedProjection>>)
    ensures
        (match r {
            Ok(x) => Ok(ParsedProjection::views(x@)),
            Err(x) => Err(x@),
        }) == items_of(l@, sql@, 0, Seq::empty()),
    decreases l, 0int, 0int,
{
    let mut out: Vec<ParsedProjection> = Vec::new();
    assert(ParsedProjection::views(out@) =~= Seq::empty());
    for i in 0..l.len()
        invariant
            out@.len() == i,
            items_of(l@, sql@, 0, Seq::empty()) == items_of(l@, sql@, i as int, ParsedProjection::views(out@)),
    {
        assert(decreases_to!(l => l@[i as int]));
        let ghost before = ParsedProjection::views(out@);
        proof {
            unfold_items_of(l@, sql@, i as int, before);
        }
        let x = match &l[i] {
            SelectItem::Wildcard(_) => ParsedProjection::Wildcard,
            SelectItem::UnnamedExpr(e) => ParsedProjection::Expression { expr: convert_expr(e, sql)?, alias: None },
            SelectItem::ExprWithAlias { expr, alias } => ParsedProjection::Expression {
                expr: convert_expr(expr, sql)?,
                alias: Some(convert_ident(alias, sql)),
            },
            _ => {
                return Err(unsupported("qualified wildcards and multiple aliases are not supported yet"));
            },
        };
        proof {
            x.unfold();
        }
        out.push(x);
        assert(ParsedProjection::views(out@) =~= before.push(x@));
    }
    proof {
        unfold_items_of(l@, sql@, l@.len() as int, ParsedProjection::views(out@));
    }
    Ok(out)
}

fn convert_named_windows(l: &Vec<NamedWindowDefinition>, sql: &str) -> (r: Result<Vec<WindowDefinition>>)
    ensures
        (match r {
            Ok(x) => Ok(WindowDefinition::views(x@)),
            Err(x) => Err(x@),
        }) == windows_of(l@, sql@, 0, Seq::empty()),
    decreases l, 0int, 0int,
{
    let mut out: Vec<WindowDefinition> = Vec::new();
    assert(WindowDefinition::views(out@) =~= Seq::empty());
    for i in 0..l.len()
        invariant
            out@.len() == i,
            windows_of(l@, sql@, 0, Seq::empty()) == windows_of(l@, sql@, i as int, WindowDefinition::views(out@)),
    {
        assert(decreases_to!(l => l@[i as int]));
        let ghost before = WindowDefinition::views(out@);
        proof {
            unfold_windows_of(l@, sql@, i as int, before);
        }
        let name = convert_ident(&l[i].0, sql);
        if find_window_place(&out, &name.name, 0).is_some() {
            return Err(DbError::at("42P20", text3("window ", name.name.as_str(), " is already defined"), name.position));
        }
        assert(decreases_to!(l@[i as int] => l@[i as int].1));
        let spec = match &l[i].1 {
            NamedWindowExpr::NamedWindow(base) => find_window(&convert_ident(base, sql), &out)?,
            NamedWindowExpr::WindowSpec(w) => {
                let own = convert_window_spec(w, sql)?;
                inherit_window(&own, &out)?
            },
        };
        let x = WindowDefinition { name, spec };
        out.push(x);
        assert(WindowDefinition::views(out@) =~= before.push(x@));
    }
    proof {
        unfold_windows_of(l@, sql@, l@.len() as int, WindowDefinition::views(out@));
    }
    Ok(out)
}

fn convert_joins(l: &Vec<Join>, sql: &str) -> (r: Result<Vec<ParsedJoin>>)
    ensures
        (match r {
            Ok(x) => Ok(ParsedJoin::views(x@)),
            Err(x) => Err(x@),
        }) == joins_of(l@, sql@, 0, Seq::empty()),
    decreases l, 0int, 0int,
{
    let mut out: Vec<ParsedJoin> = Vec::new();
    assert(ParsedJoin::views(out@) =~= Seq::empty());
    for i in 0..l.len()
        invariant
            out@.len() == i,
            joins_of(l@, sql@, 0, Seq::empty()) == joins_of(l@, sql@, i as int, ParsedJoin::views(out@)),
    {
        assert(decreases_to!(l => l@[i as int]));
        let ghost before = ParsedJoin::views(out@);
        proof {
            unfold_joins_of(l@, sql@, i as int, before);
        }
        if l[i].global {
            return Err(unsupported("GLOBAL joins are not supported"));
        }
        assert(decreases_to!(l@[i as int] => l@[i as int].relation));
        assert(decreases_to!(l@[i as int] => l@[i as int].join_operator));
        let (kind, on) = match &l[i].join_operator {
            JoinOperator::Join(JoinConstraint::On(on)) | JoinOperator::Inner(JoinConstraint::On(on)) => (JoinKind::Inner, on),
            JoinOperator::Left(JoinConstraint::On(on)) | JoinOperator::LeftOuter(JoinConstraint::On(on)) => (JoinKind::Left, on),
            JoinOperator::Join(_) | JoinOperator::Inner(_) | JoinOperator::Left(_) | JoinOperator::LeftOuter(_) => {
                return Err(unsupported("joins require an ON predicate"));
            },
            _ => {
                return Err(unsupported("only INNER and LEFT joins are supported"));
            },
        };
        let source = convert_join_source(&l[i].relation, sql)?;
        let on = convert_expr(on, sql)?;
        let x = ParsedJoin { source, kind, on };
        proof {
            x.unfold();
        }
        out.push(x);
        assert(ParsedJoin::views(out@) =~= before.push(x@));
    }
    proof {
        unfold_joins_of(l@, sql@, l@.len() as int, ParsedJoin::views(out@));
    }
    Ok(out)
}

fn convert_join_source(t: &TableFactor, sql: &str) -> (r: Result<ParsedJoinSource>)
    ensures
        (match r {
            Ok(x) => Ok(x@),
            Err(x) => Err(x@),
        }) == join_source_of(*t, sql@),
    decreases t, 1int, 0int,
{
    proof {
        unfold_join_source_of(*t, sql@);
    }
    let r = match t {
        TableFactor::Table { .. } => ParsedJoinSource::Table(convert_select_table(t, sql)?),
        TableFactor::Derived { lateral, subquery, alias, sample } => {
            if sample.is_some() {
                return Err(unsupported("TABLESAMPLE on derived tables is not supported yet"));
            }
            match alias {
                None => {
                    return Err(DbError::new(SYNTAX_ERROR, text("derived tables require an explicit relation alias")));
                },
                Some(alias) => {
                    if alias.at.is_some() {
                        return Err(unsupported("AT aliases on derived tables are not supported"));
                    }
                    if has_typed_columns(&alias.columns) {
                        return Err(unsupported("typed column aliases on derived tables are not supported"));
                    }
                    let query = convert_select_query(subquery, sql)?;
                    ParsedJoinSource::Derived {
                        lateral: *lateral,
                        query: Box::new(query),
                        alias: convert_ident(&alias.name, sql),
                        columns: convert_column_names(&alias.columns, sql),
                    }
                },
            }
        },
        _ => {
            return Err(unsupported("table functions and this join source are not supported yet"));
        },
    };
    proof {
        r.unfold();
    }
    Ok(r)
}

fn convert_select_from(t: &TableWithJoins, sql: &str) -> (r: Result<(ParsedTable, Vec<ParsedJoin>)>)
    ensures
        (match r {
            Ok(x) => Ok((x.0@, ParsedJoin::views(x.1@))),
            Err(x) => Err(x@),
        }) == from_of(*t, sql@),
    decreases t, 1int, 0int,
{
    proof {
        unfold_from_of(*t, sql@);
    }
    let table = convert_select_table(&t.relation, sql)?;
    let joins = convert_joins(&t.joins, sql)?;
    Ok((table, joins))
}

fn convert_groups(g: &GroupByExpr, sql: &str) -> (r: Result<Vec<ParsedExpr>>)
    ensures
        (match r {
            Ok(x) => Ok(ParsedExpr::views(x@)),
            Err(x) => Err(x@),
        }) == groups_of(*g, sql@),
    decreases g, 1int, 0int,
{
    proof {
        unfold_groups_of(*g, sql@);
    }
    match g {
        GroupByExpr::Expressions(l, modifiers) => {
            if modifiers.len() > 0 {
                return Err(unsupported("GROUP BY modifiers are not supported yet"));
            }
            convert_exprs(l, sql)
        },
        GroupByExpr::All(_) => Err(unsupported("GROUP BY ALL is not supported yet")),
    }
}

/// Takes over a call of a routine.
pub fn convert_routine_invocation(f: &Function, sql: &str) -> (r: Result<(ParsedObjectName, Vec<ParsedExpr>)>)
    ensures
        (match r {
            Ok(x) => Ok((x.0@, ParsedExpr::views(x.1@))),
            Err(x) => Err(x@),
        }) == invocation_of(*f, sql@),
    decreases f, 1int, 0int,
{
    proof {
        unfold_invocation_of(*f, sql@);
    }
    if f.uses_odbc_syntax || !is_no_arguments(&f.parameters) || f.filter.is_some() || f.null_treatment.is_some() || f.over.is_some()
        || f.within_group.len() > 0 {
        return Err(unsupported("routine invocation options are not supported"));
    }
    match &f.args {
        FunctionArguments::List(list) => {
            if list.duplicate_treatment.is_some() || list.clauses.len() > 0 {
                return Err(unsupported("routine argument modifiers are not supported"));
            }
            let arguments = convert_arguments(&list.args, sql, "routine calls support positional expression arguments only", None)?;
            let name = convert_object_name(&f.name, sql)?;
            Ok((name, arguments))
        },
        _ => Err(unsupported("routine invocation requires a parenthesized argument list")),
    }
}

fn convert_routine(f: &Function, alias: Option<ParsedIdentifier>, sql: &str) -> (r: Result<ParsedStatement>)
    ensures
        (match r {
            Ok(x) => Ok(x@),
            Err(x) => Err(x@),
        }) == routine_of(*f, name_view(alias), sql@),
    decreases f, 2int, 0int,
{
    proof {
        unfold_routine_of(*f, name_view(alias), sql@);
    }
    let (name, arguments) = convert_routine_invocation(f, sql)?;
    let ghost v = ParsedExpr::views(arguments@);
    if is_notification(&make_path_text(&f.name)) {
        if arguments.len() != 2 {
            return Err(
                DbError::new(
                    "42883",
                    text3("function pg_notify does not accept ", index_text(arguments.len()).as_str(), " arguments"),
                ),
            );
        }
        assert(v[0] == arguments@[0]@ && v[1] == arguments@[1]@);
        return Ok(make_statement(ParsedStatement::PgNotify { channel: arguments[0].clone(), payload: arguments[1].clone(), alias }));
    }
    match sequence_operation_name(&name) {
        Some(operation) => convert_sequence_value_select(operation, &arguments, alias),
        None => Ok(make_statement(ParsedStatement::RoutineSelect { name, arguments, alias })),
    }
}

fn convert_scalar_items(l: &Vec<SelectItem>, sql: &str) -> (r: Result<ParsedStatement>)
    ensures
        (match r {
            Ok(x) => Ok(x@),
            Err(x) => Err(x@),
        }) == scalar_items(l@, sql@),
    decreases l, 1int, 0int,
{
    proof {
        unfold_scalar_items(l@, sql@);
    }
    let projection = convert_projection_items(l, sql)?;
    if has_wildcard(&projection) {
        return Err(unsupported("SELECT without FROM does not support wildcards"));
    }
    Ok(make_statement(ParsedStatement::ScalarSelect { projection }))
}

fn convert_routine_item(l: &Vec<SelectItem>, sql: &str) -> (r: Result<Option<ParsedStatement>>)
    ensures
        (match r {
            Ok(x) => Ok(statement_view(x)),
            Err(x) => Err(x@),
        }) == routine_item(l@, sql@),
    decreases l, 1int, 0int,
{
    proof {
        unfold_routine_item(l@, sql@);
    }
    if l.len() != 1 {
        return Ok(None);
    }
    assert(decreases_to!(l => l@[0]));
    match &l[0] {
        SelectItem::UnnamedExpr(Expr::Function(f)) => {
            if is_routine_call(&make_path_text(&f.name)) {
                Ok(Some(convert_routine(f, None, sql)?))
            } else {
                Ok(None)
            }
        },
        SelectItem::ExprWithAlias { expr: Expr::Function(f), alias } => {
            if is_routine_call(&make_path_text(&f.name)) {
                Ok(Some(convert_routine(f, Some(convert_ident(alias, sql)), sql)?))
            } else {
                Ok(None)
            }
        },
        SelectItem::UnnamedExpr(_) | SelectItem::ExprWithAlias { .. } => Ok(None),
        _ => Err(unsupported("scalar SELECT does not support wildcards")),
    }
}

fn convert_routine_select(s: &Select, page: &Page, sql: &str) -> (r: Result<ParsedStatement>)
    ensures
        (match r {
            Ok(x) => Ok(x@),
            Err(x) => Err(x@),
        }) == routine_select(*s, page@, sql@),
    decreases s, 1int, 0int,
{
    proof {
        unfold_routine_select(*s, page@, sql@);
    }
    if s.selection.is_some() || s.having.is_some() || page.order_by.len() > 0 || page.offset.is_some() || page.limit.is_some()
        || !has_no_groups(&s.group_by) {
        return Err(unsupported("scalar routine SELECT does not support query clauses"));
    }
    match convert_routine_item(&s.projection, sql)? {
        Some(statement) => Ok(statement),
        None => convert_scalar_items(&s.projection, sql),
    }
}

fn convert_clauses(s: &Select, page: &Page, sql: &str) -> (r: Result<Clauses>)
    ensures
        (match r {
            Ok(x) => Ok(x@),
            Err(x) => Err(x@),
        }) == clauses_of(*s, page@, sql@),
    decreases s, 1int, 0int,
{
    proof {
        unfold_clauses_of(*s, page@, sql@);
    }
    let projection = convert_projection_items(&s.projection, sql)?;
    let filter = convert_some(&s.selection, sql)?;
    let group_by = convert_groups(&s.group_by, sql)?;
    let having = convert_some(&s.having, sql)?;
    Ok(Clauses { projection, filter, group_by, having, order_by: ParsedOrder::clone_all(&page.order_by) })
}

fn convert_select(s: &Select, top_taken: bool, page: Page, sql: &str) -> (r: Result<ParsedStatement>)
    ensures
        (match r {
            Ok(x) => Ok(x@),
            Err(x) => Err(x@),
        }) == select_of(*s, top_taken, page@, sql@),
    decreases s, 2int, 0int,
{
    proof {
        unfold_select_of(*s, top_taken, page@, sql@);
    }
    let distinct = convert_distinct(&s.distinct)?;
    if is_extended(s, top_taken) {
        return Err(unsupported("extended SELECT clauses are not supported yet"));
    }
    if s.from.len() == 0 {
        if distinct {
            return Err(unsupported("SELECT DISTINCT without FROM is not supported yet"));
        }
        if s.named_window.len() > 0 {
            return Err(unsupported("named WINDOW clauses without FROM are not supported yet"));
        }
        return convert_routine_select(s, &page, sql);
    }
    let windows = convert_named_windows(&s.named_window, sql)?;
    if s.from.len() != 1 {
        return Err(unsupported("SELECT supports exactly one table"));
    }
    let written = convert_clauses(s, &page, sql)?;
    let clauses = resolve_named_clauses(&written, &windows)?;
    assert(decreases_to!(s => s.from));
    assert(decreases_to!(s.from => s.from@[0]));
    if is_advanced(distinct, &s.from[0], &clauses) {
        let (table, joins) = convert_select_from(&s.from[0], sql)?;
        Ok(make_advanced_select(distinct, table, joins, clauses, page))
    } else {
        let table = convert_table_with_joins(&s.from[0], sql)?;
        Ok(make_plain_select(table, clauses, page))
    }
}

fn convert_set_operand(e: &SetExpr, sql: &str, depth: usize) -> (r: Result<ParsedStatement>)
    ensures
        (match r {
            Ok(x) => Ok(x@),
            Err(x) => Err(x@),
        }) == set_operand(*e, sql@, depth),
    decreases e, 1int, 0int,
{
    proof {
        unfold_set_operand(*e, sql@, depth);
    }
    match e {
        SetExpr::Select(s) => convert_select(s, false, make_no_page(), sql),
        SetExpr::Query(q) => convert_select_query(q, sql),
        SetExpr::SetOperation { .. } => convert_set_operation(e, make_no_page(), sql, depth),
        SetExpr::Values(_) => Err(unsupported("VALUES operands are not supported in set operations yet")),
        _ => Err(unsupported("this query body is not supported in a set operation")),
    }
}

/// Takes over a set operation.
pub fn convert_set_operation(e: &SetExpr, page: Page, sql: &str, depth: usize) -> (r: Result<ParsedStatement>)
    ensures
        (match r {
            Ok(x) => Ok(x@),
            Err(x) => Err(x@),
        }) == set_operation(*e, page@, sql@, depth),
    decreases e, 0int, 0int,
{
    proof {
        unfold_set_operation(*e, page@, sql@, depth);
    }
    match e {
        SetExpr::SetOperation { left, op, set_quantifier, right } => {
            if depth >= 64 {
                return Err(DbError::new("54001", text("set operation nesting exceeds the maximum depth of 64")));
            }
            let operator = convert_set_operator(op)?;
            let all = convert_set_quantifier(set_quantifier)?;
            let a = convert_set_operand(left, sql, depth + 1)?;
            let b = convert_set_operand(right, sql, depth + 1)?;
            Ok(
                make_statement(
                    ParsedStatement::SetOperation {
                        left: Box::new(a),
                        operator,
                        all,
                        right: Box::new(b),
                        order_by: page.order_by,
                        offset: page.offset,
                        limit: page.limit,
                    },
                ),
            )
        },
        _ => Err(unsupported("this query body is not supported in a set operation")),
    }
}

fn convert_top(t: &Option<Top>, sql: &str) -> (r: Result<Option<ParsedExpr>>)
    ensures
        (match r {
            Ok(x) => Ok(some_view(x)),
            Err(x) => Err(x@),
        }) == top_of(*t, sql@),
    decreases t, 1int, 0int,
{
    proof {
        unfold_top_of(*t, sql@);
    }
    match t {
        None => Ok(None),
        Some(t) => {
            if t.with_ties || t.percent {
                return Err(unsupported("TOP PERCENT and TOP WITH TIES are not supported"));
            }
            match &t.quantity {
                None => Err(unsupported("TOP requires an explicit row count")),
                Some(TopQuantity::Expr(e)) => Ok(Some(convert_expr(e, sql)?)),
                Some(TopQuantity::Constant(n)) => if *n <= 9223372036854775807 {
                    Ok(Some(make_integer_literal(*n as i64)))
                } else {
                    Err(DbError::new("22003", text("TOP value is out of range")))
                },
            }
        },
    }
}

fn convert_body_top(b: &SetExpr, sql: &str) -> (r: Result<Option<ParsedExpr>>)
    ensures
        (match r {
            Ok(x) => Ok(some_view(x)),
            Err(x) => Err(x@),
        }) == body_top(*b, sql@),
    decreases b, 1int, 0int,
{
    proof {
        unfold_body_top(*b, sql@);
    }
    match b {
        SetExpr::Select(s) => convert_top(&s.top, sql),
        _ => Ok(None),
    }
}

fn convert_order_by(o: &Option<OrderBy>, sql: &str) -> (r: Result<Vec<ParsedOrder>>)
    ensures
        (match r {
            Ok(x) => Ok(ParsedOrder::views(x@)),
            Err(x) => Err(x@),
        }) == order_by_of(*o, sql@),
    decreases o, 1int, 0int,
{
    proof {
        unfold_order_by_of(*o, sql@);
    }
    match o {
        None => {
            let none: Vec<ParsedOrder> = Vec::new();
            assert(ParsedOrder::views(none@) =~= Seq::empty());
            Ok(none)
        },
        Some(o) => {
            if o.interpolate.is_some() {
                return Err(unsupported("ORDER BY INTERPOLATE is not supported"));
            }
            match &o.kind {
                OrderByKind::Expressions(l) => convert_orders(l, sql),
                OrderByKind::All(_) => Err(unsupported("ORDER BY ALL is not supported")),
            }
        },
    }
}

fn convert_fetch(f: &Option<Fetch>, sql: &str) -> (r: Result<Option<ParsedExpr>>)
    ensures
        (match r {
            Ok(x) => Ok(some_view(x)),
            Err(x) => Err(x@),
        }) == fetch_of(*f, sql@),
    decreases f, 1int, 0int,
{
    proof {
        unfold_fetch_of(*f, sql@);
    }
    match f {
        None => Ok(None),
        Some(f) => {
            if f.with_ties || f.percent {
                return Err(unsupported("FETCH PERCENT and FETCH WITH TIES are not supported"));
            }
            match &f.quantity {
                None => Ok(Some(make_integer_literal(1))),
                Some(e) => Ok(Some(convert_expr(e, sql)?)),
            }
        },
    }
}

fn convert_limit(c: &Option<LimitClause>, sql: &str) -> (r: Result<(Option<ParsedExpr>, Option<ParsedExpr>)>)
    ensures
        (match r {
            Ok(x) => Ok((some_view(x.0), some_view(x.1))),
            Err(x) => Err(x@),
        }) == limit_of(*c, sql@),
    decreases c, 1int, 0int,
{
    proof {
        unfold_limit_of(*c, sql@);
    }
    match c {
        None => Ok((None, None)),
        Some(LimitClause::LimitOffset { limit, offset, limit_by }) => {
            if limit_by.len() > 0 {
                return Err(unsupported("LIMIT BY and unrepresentable row-limit forms are not supported"));
            }
            let limit = convert_some(limit, sql)?;
            match offset {
                None => Ok((limit, None)),
                Some(o) => {
                    let b = convert_expr(&o.value, sql)?;
                    Ok((limit, Some(b)))
                },
            }
        },
        Some(LimitClause::OffsetCommaLimit { offset, limit }) => {
            let a = convert_expr(limit, sql)?;
            let b = convert_expr(offset, sql)?;
            Ok((Some(a), Some(b)))
        },
    }
}

fn convert_page(q: &Query, sql: &str) -> (r: Result<Page>)
    ensures
        (match r {
            Ok(x) => Ok(x@),
            Err(x) => Err(x@),
        }) == page_of(*q, sql@),
    decreases q, 1int, 0int,
{
    proof {
        unfold_page_of(*q, sql@);
    }
    let top = convert_body_top(&q.body, sql)?;
    let order_by = convert_order_by(&q.order_by, sql)?;
    let fetch = convert_fetch(&q.fetch, sql)?;
    let (limit, offset) = convert_limit(&q.limit_clause, sql)?;
    let limit = pick_limit(top, limit, fetch)?;
    Ok(Page { order_by, offset, limit })
}

fn convert_ctes(l: &Vec<Cte>, sql: &str) -> (r: Result<Vec<ParsedCte>>)
    ensures
        (match r {
            Ok(x) => Ok(ParsedCte::views(x@)),
            Err(x) => Err(x@),
        }) == ctes_of(l@, sql@, 0, Seq::empty()),
    decreases l, 0int, 0int,
{
    let mut out: Vec<ParsedCte> = Vec::new();
    assert(ParsedCte::views(out@) =~= Seq::empty());
    for i in 0..l.len()
        invariant
            out@.len() == i,
            ctes_of(l@, sql@, 0, Seq::empty()) == ctes_of(l@, sql@, i as int, ParsedCte::views(out@)),
    {
        assert(decreases_to!(l => l@[i as int]));
        let ghost before = ParsedCte::views(out@);
        proof {
            unfold_ctes_of(l@, sql@, i as int, before);
        }
        if l[i].from.is_some() {
            return Err(unsupported("CTE FROM modifiers are not supported"));
        }
        assert(decreases_to!(l@[i as int] => l@[i as int].query));
        let query = convert_select_query(&l[i].query, sql)?;
        let x = ParsedCte {
            name: convert_ident(&l[i].alias.name, sql),
            columns: convert_column_names(&l[i].alias.columns, sql),
            query: Box::new(query),
        };
        proof {
            x.unfold();
        }
        out.push(x);
        assert(ParsedCte::views(out@) =~= before.push(x@));
    }
    proof {
        unfold_ctes_of(l@, sql@, l@.len() as int, ParsedCte::views(out@));
    }
    Ok(out)
}

fn convert_with_clause(w: &Option<With>, body: ParsedStatement, sql: &str) -> (r: Result<ParsedStatement>)
    ensures
        (match r {
            Ok(x) => Ok(x@),
            Err(x) => Err(x@),
        }) == with_of(*w, body@, sql@),
    decreases w, 1int, 0int,
{
    proof {
        unfold_with_of(*w, body@, sql@);
    }
    match w {
        None => Ok(body),
        Some(w) => {
            let ctes = convert_ctes(&w.cte_tables, sql)?;
            if ctes.len() == 0 {
                return Err(DbError::new(SYNTAX_ERROR, text("WITH requires at least one CTE")));
            }
            Ok(make_statement(ParsedStatement::With { recursive: w.recursive, ctes, body: Box::new(body) }))
        },
    }
}

fn convert_body(b: &SetExpr, page: Page, sql: &str) -> (r: Result<ParsedStatement>)
    ensures
        (match r {
            Ok(x) => Ok(x@),
            Err(x) => Err(x@),
        }) == body_of(*b, page@, sql@),
    decreases b, 2int, 0int,
{
    proof {
        unfold_body_of(*b, page@, sql@);
    }
    match b {
        SetExpr::Select(s) => convert_select(s, true, page, sql),
        SetExpr::SetOperation { .. } => convert_set_operation(b, page, sql, 0),
        SetExpr::Query(q) => {
            if page.order_by.len() == 0 && page.offset.is_none() && page.limit.is_none() {
                convert_select_query(q, sql)
            } else {
                Err(unsupported("outer ORDER BY, OFFSET, and LIMIT on a parenthesized query are not supported yet"))
            }
        },
        SetExpr::Values(_) => Err(unsupported("standalone VALUES queries are not supported yet")),
        _ => Err(unsupported("this query body is not supported in a set operation")),
    }
}

/// Takes over a query.
pub fn convert_select_query(q: &Query, sql: &str) -> (r: Result<ParsedStatement>)
    ensures
        (match r {
            Ok(x) => Ok(x@),
            Err(x) => Err(x@),
        }) == converted_query(*q, sql@),
    decreases q, 2int, 0int,
{
    proof {
        unfold_converted_query(*q, sql@);
    }
    if q.locks.len() > 0 || q.for_clause.is_some() || q.settings.is_some() || q.format_clause.is_some() || q.pipe_operators.len() > 0 {
        return Err(unsupported("this SELECT query form is not supported yet"));
    }
    let page = convert_page(q, sql)?;
    let body = convert_body(&q.body, page, sql)?;
    convert_with_clause(&q.with, body, sql)
}

} // verus!
