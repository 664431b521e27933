//! What the parts of a syntax tree become in a statement.
//!
//! The rules call each other all around. Each stands with its outermost layer, and a
//! proof function equates the two: a proof unfolds one rule at one place, and the rules
//! that it calls stay whole.

use sqlparser::ast::{
    Cte, DuplicateTreatment, Expr, Fetch, Function, FunctionArg, FunctionArgExpr, FunctionArgumentList, FunctionArguments, GroupByExpr,
    Join, JoinConstraint, JoinOperator, LimitClause, NamedWindowDefinition, NamedWindowExpr, OrderBy, OrderByExpr, OrderByKind, Query,
    Select, SelectItem, SetExpr, TableFactor, TableWithJoins, Top, TopQuantity, UnaryOperator as SqlUnaryOperator, WindowFrame,
    WindowFrameBound, WindowSpec, WindowType, With,
};
use vstd::prelude::*;

use crate::convert_parts::{
    advanced, advanced_select, aggregate_named, any_string_of, any_wildcard, column_names, distinct_of, either, extended, frame_units,
    integer_literal, is_routine, named_clauses, negated_if, no_groups, no_page, notifies, one_limit, only_star, path_text, plain_select,
    plain_table_of, row_compared, rows_equal, scalar_named, sequence_call, sequence_select, set_all, set_operator, table_of, trim_function,
    typed_columns, window_function_named, ArrayItemsView, PageView,
};
use crate::literals::{arity_check, at_parameter, comparison_of, interval_of, literal_kind, operator_of, row_comparison, temporal_of};
use crate::named_windows::{inherited, lemma_inherited, lemma_window_named, stand_alone, window_named, window_place, WindowDefinitionView};
use crate::outside::{expr_start, last_operand};
use crate::scope::Checked;
use crate::select_list::ClausesView;
use crate::source::{ident_of, idents_of, object_name_of, place_of, some_ident};
use crate::sql_types::column_type_of;
use crate::syntax::{
    AggregateFunction, BinaryOperator, JoinKind, ParsedCteView, ParsedExprKindView, ParsedExprView, ParsedIdentifierView,
    ParsedJoinSourceView, ParsedJoinView, ParsedObjectNameView, ParsedOrderView, ParsedProjectionView, ParsedStatementView, ParsedTableView,
    ParsedWindowCallView, ParsedWindowFrameBoundView, ParsedWindowFrameView, ParsedWindowSpecView, ScalarFunction, SubqueryQuantifier,
    UnaryOperator, WindowFunction,
};
use crate::text::decimal;
use crate::types::{error, error_at, internal_error, unsupported_error, ArrayDimension, SYNTAX_ERROR, ValueView};

verus! {

/// Expressions as statements hold them, from one of them on.
pub closed spec fn converted_exprs(l: Seq<Expr>, sql: Seq<char>, i: int, done: Seq<ParsedExprView>) -> Checked<Seq<ParsedExprView>>
    decreases l, 0int, l.len() - i,
{
    if i < 0 || i >= l.len() {
        Ok(done)
    } else {
        match converted_expr(l[i], sql) {
            Err(x) => Err(x),
            Ok(b) => converted_exprs(l, sql, i + 1, done.push(b)),
        }
    }
}

/// One layer of [`converted_exprs`], over the results of its parts.
pub open spec fn converted_exprs_layer(l: Seq<Expr>, sql: Seq<char>, i: int, done: Seq<ParsedExprView>) -> Checked<Seq<ParsedExprView>> {
    if i < 0 || i >= l.len() {
        Ok(done)
    } else {
        match converted_expr(l[i], sql) {
            Err(x) => Err(x),
            Ok(b) => converted_exprs(l, sql, i + 1, done.push(b)),
        }
    }
}

/// The result is its outermost layer over the results of its parts.
pub proof fn unfold_converted_exprs(l: Seq<Expr>, sql: Seq<char>, i: int, done: Seq<ParsedExprView>)
    ensures
        converted_exprs(l, sql, i, done) == converted_exprs_layer(l, sql, i, done),
{
}

/// An expression that may be absent.
pub closed spec fn converted_some(e: Option<Expr>, sql: Seq<char>) -> Checked<Option<ParsedExprView>>
    decreases e, 1int, 0int,
{
    match e {
        None => Ok(None),
        Some(e) => match converted_expr(e, sql) {
            Err(x) => Err(x),
            Ok(b) => Ok(Some(b)),
        },
    }
}

/// One layer of [`converted_some`], over the results of its parts.
pub open spec fn converted_some_layer(e: Option<Expr>, sql: Seq<char>) -> Checked<Option<ParsedExprView>> {
    match e {
        None => Ok(None),
        Some(e) => match converted_expr(e, sql) {
            Err(x) => Err(x),
            Ok(b) => Ok(Some(b)),
        },
    }
}

/// The result is its outermost layer over the results of its parts.
pub proof fn unfold_converted_some(e: Option<Expr>, sql: Seq<char>)
    ensures
        converted_some(e, sql) == converted_some_layer(e, sql),
{
}

/// A boxed expression that may be absent.
pub closed spec fn converted_box(e: Option<Box<Expr>>, sql: Seq<char>) -> Checked<Option<Box<ParsedExprView>>>
    decreases e, 1int, 0int,
{
    match e {
        None => Ok(None),
        Some(e) => match converted_expr(*e, sql) {
            Err(x) => Err(x),
            Ok(b) => Ok(Some(Box::new(b))),
        },
    }
}

/// One layer of [`converted_box`], over the results of its parts.
pub open spec fn converted_box_layer(e: Option<Box<Expr>>, sql: Seq<char>) -> Checked<Option<Box<ParsedExprView>>> {
    match e {
        None => Ok(None),
        Some(e) => match converted_expr(*e, sql) {
            Err(x) => Err(x),
            Ok(b) => Ok(Some(Box::new(b))),
        },
    }
}

/// The result is its outermost layer over the results of its parts.
pub proof fn unfold_converted_box(e: Option<Box<Expr>>, sql: Seq<char>)
    ensures
        converted_box(e, sql) == converted_box_layer(e, sql),
{
}

/// The members of a row.
pub closed spec fn row_items(l: Seq<Expr>, sql: Seq<char>, position: Option<usize>) -> Checked<Seq<ParsedExprView>>
    decreases l, 1int, 0int,
{
    if l.len() == 0 {
        Err(error_at(SYNTAX_ERROR@, "row values require at least one expression"@, position))
    } else {
        converted_exprs(l, sql, 0, Seq::empty())
    }
}

/// One layer of [`row_items`], over the results of its parts.
pub open spec fn row_items_layer(l: Seq<Expr>, sql: Seq<char>, position: Option<usize>) -> Checked<Seq<ParsedExprView>> {
    if l.len() == 0 {
        Err(error_at(SYNTAX_ERROR@, "row values require at least one expression"@, position))
    } else {
        converted_exprs(l, sql, 0, Seq::empty())
    }
}

/// The result is its outermost layer over the results of its parts.
pub proof fn unfold_row_items(l: Seq<Expr>, sql: Seq<char>, position: Option<usize>)
    ensures
        row_items(l, sql, position) == row_items_layer(l, sql, position),
{
}

/// The comparisons of a row with the entries of a list, from one of them on.
pub closed spec fn rows_in(
    left: Seq<ParsedExprView>,
    l: Seq<Expr>,
    sql: Seq<char>,
    position: Option<usize>,
    i: int,
    done: Option<ParsedExprView>,
) -> Checked<Option<ParsedExprView>>
    decreases l, 0int, l.len() - i,
{
    if i < 0 || i >= l.len() {
        Ok(done)
    } else {
        match l[i] {
            Expr::Tuple(r) => if r@.len() != left.len() {
                Err(error_at(SYNTAX_ERROR@, "row comparison operands must have the same number of columns"@, position))
            } else {
                match row_items(r@, sql, position) {
                    Err(x) => Err(x),
                    Ok(right) => rows_in(
                        left,
                        l,
                        sql,
                        position,
                        i + 1,
                        Some(either(done, rows_equal(left, right, left.len(), position), position)),
                    ),
                }
            },
            _ => Err(error_at(SYNTAX_ERROR@, "row IN lists require row values"@, position)),
        }
    }
}

/// One layer of [`rows_in`], over the results of its parts.
pub open spec fn rows_in_layer(
    left: Seq<ParsedExprView>,
    l: Seq<Expr>,
    sql: Seq<char>,
    position: Option<usize>,
    i: int,
    done: Option<ParsedExprView>,
) -> Checked<Option<ParsedExprView>> {
    if i < 0 || i >= l.len() {
        Ok(done)
    } else {
        match l[i] {
            Expr::Tuple(r) => if r@.len() != left.len() {
                Err(error_at(SYNTAX_ERROR@, "row comparison operands must have the same number of columns"@, position))
            } else {
                match row_items(r@, sql, position) {
                    Err(x) => Err(x),
                    Ok(right) => rows_in(
                        left,
                        l,
                        sql,
                        position,
                        i + 1,
                        Some(either(done, rows_equal(left, right, left.len(), position), position)),
                    ),
                }
            },
            _ => Err(error_at(SYNTAX_ERROR@, "row IN lists require row values"@, position)),
        }
    }
}

/// The result is its outermost layer over the results of its parts.
pub proof fn unfold_rows_in(
    left: Seq<ParsedExprView>,
    l: Seq<Expr>,
    sql: Seq<char>,
    position: Option<usize>,
    i: int,
    done: Option<ParsedExprView>,
)
    ensures
        rows_in(left, l, sql, position, i, done) == rows_in_layer(left, l, sql, position, i, done),
{
}

/// Positional arguments, from one of them on.
pub closed spec fn arguments_in(
    l: Seq<FunctionArg>,
    sql: Seq<char>,
    message: Seq<char>,
    position: Option<usize>,
    i: int,
    done: Seq<ParsedExprView>,
) -> Checked<Seq<ParsedExprView>>
    decreases l, 0int, l.len() - i,
{
    if i < 0 || i >= l.len() {
        Ok(done)
    } else {
        match l[i] {
            FunctionArg::Unnamed(FunctionArgExpr::Expr(e)) => match converted_expr(e, sql) {
                Err(x) => Err(x),
                Ok(b) => arguments_in(l, sql, message, position, i + 1, done.push(b)),
            },
            _ => Err(unsupported_error(message, position)),
        }
    }
}

/// One layer of [`arguments_in`], over the results of its parts.
pub open spec fn arguments_in_layer(
    l: Seq<FunctionArg>,
    sql: Seq<char>,
    message: Seq<char>,
    position: Option<usize>,
    i: int,
    done: Seq<ParsedExprView>,
) -> Checked<Seq<ParsedExprView>> {
    if i < 0 || i >= l.len() {
        Ok(done)
    } else {
        match l[i] {
            FunctionArg::Unnamed(FunctionArgExpr::Expr(e)) => match converted_expr(e, sql) {
                Err(x) => Err(x),
                Ok(b) => arguments_in(l, sql, message, position, i + 1, done.push(b)),
            },
            _ => Err(unsupported_error(message, position)),
        }
    }
}

/// The result is its outermost layer over the results of its parts.
pub proof fn unfold_arguments_in(
    l: Seq<FunctionArg>,
    sql: Seq<char>,
    message: Seq<char>,
    position: Option<usize>,
    i: int,
    done: Seq<ParsedExprView>,
)
    ensures
        arguments_in(l, sql, message, position, i, done) == arguments_in_layer(l, sql, message, position, i, done),
{
}

/// The arguments of a built-in function.
pub closed spec fn arguments_of(a: FunctionArguments, sql: Seq<char>, position: Option<usize>) -> Checked<Seq<ParsedExprView>>
    decreases a, 1int, 0int,
{
    match a {
        FunctionArguments::None => Ok(Seq::empty()),
        FunctionArguments::Subquery(_) => Err(unsupported_error("subquery function arguments are not supported yet"@, position)),
        FunctionArguments::List(list) => if list.duplicate_treatment is Some || list.clauses@.len() > 0 {
            Err(unsupported_error("function argument modifiers are not supported yet"@, position))
        } else {
            arguments_in(
                list.args@,
                sql,
                "function calls support positional expression arguments only"@,
                position,
                0,
                Seq::empty(),
            )
        },
    }
}

/// One layer of [`arguments_of`], over the results of its parts.
pub open spec fn arguments_of_layer(a: FunctionArguments, sql: Seq<char>, position: Option<usize>) -> Checked<Seq<ParsedExprView>> {
    match a {
        FunctionArguments::None => Ok(Seq::empty()),
        FunctionArguments::Subquery(_) => Err(unsupported_error("subquery function arguments are not supported yet"@, position)),
        FunctionArguments::List(list) => if list.duplicate_treatment is Some || list.clauses@.len() > 0 {
            Err(unsupported_error("function argument modifiers are not supported yet"@, position))
        } else {
            arguments_in(
                list.args@,
                sql,
                "function calls support positional expression arguments only"@,
                position,
                0,
                Seq::empty(),
            )
        },
    }
}

/// The result is its outermost layer over the results of its parts.
pub proof fn unfold_arguments_of(a: FunctionArguments, sql: Seq<char>, position: Option<usize>)
    ensures
        arguments_of(a, sql, position) == arguments_of_layer(a, sql, position),
{
}

/// The argument of an aggregate.
pub closed spec fn aggregate_argument(
    list: FunctionArgumentList,
    f: AggregateFunction,
    distinct: bool,
    sql: Seq<char>,
    position: Option<usize>,
) -> Checked<Option<Box<ParsedExprView>>>
    decreases list, 1int, 0int,
{
    if list.args@.len() == 1 {
        match list.args@[0] {
            FunctionArg::Unnamed(FunctionArgExpr::Wildcard) => if f == AggregateFunction::Count && !distinct {
                Ok(None)
            } else {
                Err(error_at(SYNTAX_ERROR@, "DISTINCT aggregate requires an expression"@, position))
            },
            FunctionArg::Unnamed(FunctionArgExpr::Expr(e)) => match converted_expr(e, sql) {
                Err(x) => Err(x),
                Ok(b) => Ok(Some(Box::new(b))),
            },
            _ => Err(unsupported_error("aggregate requires one expression, or COUNT(*)"@, position)),
        }
    } else {
        Err(unsupported_error("aggregate requires one expression, or COUNT(*)"@, position))
    }
}

/// One layer of [`aggregate_argument`], over the results of its parts.
pub open spec fn aggregate_argument_layer(
    list: FunctionArgumentList,
    f: AggregateFunction,
    distinct: bool,
    sql: Seq<char>,
    position: Option<usize>,
) -> Checked<Option<Box<ParsedExprView>>> {
    if list.args@.len() == 1 {
        match list.args@[0] {
            FunctionArg::Unnamed(FunctionArgExpr::Wildcard) => if f == AggregateFunction::Count && !distinct {
                Ok(None)
            } else {
                Err(error_at(SYNTAX_ERROR@, "DISTINCT aggregate requires an expression"@, position))
            },
            FunctionArg::Unnamed(FunctionArgExpr::Expr(e)) => match converted_expr(e, sql) {
                Err(x) => Err(x),
                Ok(b) => Ok(Some(Box::new(b))),
            },
            _ => Err(unsupported_error("aggregate requires one expression, or COUNT(*)"@, position)),
        }
    } else {
        Err(unsupported_error("aggregate requires one expression, or COUNT(*)"@, position))
    }
}

/// The result is its outermost layer over the results of its parts.
pub proof fn unfold_aggregate_argument(
    list: FunctionArgumentList,
    f: AggregateFunction,
    distinct: bool,
    sql: Seq<char>,
    position: Option<usize>,
)
    ensures
        aggregate_argument(list, f, distinct, sql, position) == aggregate_argument_layer(list, f, distinct, sql, position),
{
}

/// A call without a window.
pub closed spec fn plain_call(f: Function, sql: Seq<char>, position: Option<usize>) -> Checked<ParsedExprKindView>
    decreases f, 1int, 0int,
{
    if f.uses_odbc_syntax || !(f.parameters is None) || f.null_treatment is Some || f.within_group@.len() > 0 {
        Err(unsupported_error("aggregate options are not supported yet"@, position))
    } else {
        match converted_box(f.filter, sql) {
            Err(x) => Err(x),
            Ok(filter) => match scalar_named(path_text(f.name)) {
                Some(function) => if filter is Some {
                    Err(unsupported_error("FILTER is supported only for aggregate functions"@, position))
                } else {
                    match arguments_of(f.args, sql, position) {
                        Err(x) => Err(x),
                        Ok(arguments) => match arity_check(function, arguments.len(), position) {
                            Err(x) => Err(x),
                            Ok(_) => Ok(ParsedExprKindView::Function { function, arguments }),
                        },
                    }
                },
                None => match aggregate_named(path_text(f.name)) {
                    None => Err(unsupported_error("this SQL function is not supported yet"@, position)),
                    Some(function) => match f.args {
                        FunctionArguments::List(list) => if list.clauses@.len() > 0 {
                            Err(unsupported_error("ordered aggregate arguments are not supported yet"@, position))
                        } else {
                            {
                                let distinct = list.duplicate_treatment == Some(DuplicateTreatment::Distinct);
                                match aggregate_argument(list, function, distinct, sql, position) {
                                    Err(x) => Err(x),
                                    Ok(argument) => Ok(ParsedExprKindView::Aggregate { function, argument, distinct, filter }),
                                }
                            }
                        },
                        _ => Err(unsupported_error("aggregate arguments must use parentheses"@, position)),
                    },
                },
            },
        }
    }
}

/// One layer of [`plain_call`], over the results of its parts.
pub open spec fn plain_call_layer(f: Function, sql: Seq<char>, position: Option<usize>) -> Checked<ParsedExprKindView> {
    if f.uses_odbc_syntax || !(f.parameters is None) || f.null_treatment is Some || f.within_group@.len() > 0 {
        Err(unsupported_error("aggregate options are not supported yet"@, position))
    } else {
        match converted_box(f.filter, sql) {
            Err(x) => Err(x),
            Ok(filter) => match scalar_named(path_text(f.name)) {
                Some(function) => if filter is Some {
                    Err(unsupported_error("FILTER is supported only for aggregate functions"@, position))
                } else {
                    match arguments_of(f.args, sql, position) {
                        Err(x) => Err(x),
                        Ok(arguments) => match arity_check(function, arguments.len(), position) {
                            Err(x) => Err(x),
                            Ok(_) => Ok(ParsedExprKindView::Function { function, arguments }),
                        },
                    }
                },
                None => match aggregate_named(path_text(f.name)) {
                    None => Err(unsupported_error("this SQL function is not supported yet"@, position)),
                    Some(function) => match f.args {
                        FunctionArguments::List(list) => if list.clauses@.len() > 0 {
                            Err(unsupported_error("ordered aggregate arguments are not supported yet"@, position))
                        } else {
                            {
                                let distinct = list.duplicate_treatment == Some(DuplicateTreatment::Distinct);
                                match aggregate_argument(list, function, distinct, sql, position) {
                                    Err(x) => Err(x),
                                    Ok(argument) => Ok(ParsedExprKindView::Aggregate { function, argument, distinct, filter }),
                                }
                            }
                        },
                        _ => Err(unsupported_error("aggregate arguments must use parentheses"@, position)),
                    },
                },
            },
        }
    }
}

/// The result is its outermost layer over the results of its parts.
pub proof fn unfold_plain_call(f: Function, sql: Seq<char>, position: Option<usize>)
    ensures
        plain_call(f, sql, position) == plain_call_layer(f, sql, position),
{
}

/// Sort keys, from one of them on.
pub closed spec fn orders_of(l: Seq<OrderByExpr>, sql: Seq<char>, i: int, done: Seq<ParsedOrderView>) -> Checked<Seq<ParsedOrderView>>
    decreases l, 0int, l.len() - i,
{
    if i < 0 || i >= l.len() {
        Ok(done)
    } else if l[i].with_fill is Some {
        Err(unsupported_error("ORDER BY WITH FILL is not supported"@, None))
    } else {
        match converted_expr(l[i].expr, sql) {
            Err(x) => Err(x),
            Ok(e) => orders_of(l, sql, i + 1, done.push(
                    ParsedOrderView {
                        expr: e,
                        ascending: match l[i].options.asc {
                            Some(asc) => asc,
                            None => true,
                        },
                        nulls_first: l[i].options.nulls_first,
            })),
        }
    }
}

/// One layer of [`orders_of`], over the results of its parts.
pub open spec fn orders_of_layer(l: Seq<OrderByExpr>, sql: Seq<char>, i: int, done: Seq<ParsedOrderView>) -> Checked<Seq<ParsedOrderView>> {
    if i < 0 || i >= l.len() {
        Ok(done)
    } else if l[i].with_fill is Some {
        Err(unsupported_error("ORDER BY WITH FILL is not supported"@, None))
    } else {
        match converted_expr(l[i].expr, sql) {
            Err(x) => Err(x),
            Ok(e) => orders_of(l, sql, i + 1, done.push(
                    ParsedOrderView {
                        expr: e,
                        ascending: match l[i].options.asc {
                            Some(asc) => asc,
                            None => true,
                        },
                        nulls_first: l[i].options.nulls_first,
            })),
        }
    }
}

/// The result is its outermost layer over the results of its parts.
pub proof fn unfold_orders_of(l: Seq<OrderByExpr>, sql: Seq<char>, i: int, done: Seq<ParsedOrderView>)
    ensures
        orders_of(l, sql, i, done) == orders_of_layer(l, sql, i, done),
{
}

/// A bound of a frame.
pub closed spec fn bound_of(b: WindowFrameBound, sql: Seq<char>) -> Checked<ParsedWindowFrameBoundView>
    decreases b, 1int, 0int,
{
    match b {
        WindowFrameBound::CurrentRow => Ok(ParsedWindowFrameBoundView::CurrentRow),
        WindowFrameBound::Preceding(None) => Ok(ParsedWindowFrameBoundView::UnboundedPreceding),
        WindowFrameBound::Preceding(Some(e)) => match converted_expr(*e, sql) {
            Err(x) => Err(x),
            Ok(b) => Ok(ParsedWindowFrameBoundView::Preceding(Box::new(b))),
        },
        WindowFrameBound::Following(None) => Ok(ParsedWindowFrameBoundView::UnboundedFollowing),
        WindowFrameBound::Following(Some(e)) => match converted_expr(*e, sql) {
            Err(x) => Err(x),
            Ok(b) => Ok(ParsedWindowFrameBoundView::Following(Box::new(b))),
        },
    }
}

/// One layer of [`bound_of`], over the results of its parts.
pub open spec fn bound_of_layer(b: WindowFrameBound, sql: Seq<char>) -> Checked<ParsedWindowFrameBoundView> {
    match b {
        WindowFrameBound::CurrentRow => Ok(ParsedWindowFrameBoundView::CurrentRow),
        WindowFrameBound::Preceding(None) => Ok(ParsedWindowFrameBoundView::UnboundedPreceding),
        WindowFrameBound::Preceding(Some(e)) => match converted_expr(*e, sql) {
            Err(x) => Err(x),
            Ok(b) => Ok(ParsedWindowFrameBoundView::Preceding(Box::new(b))),
        },
        WindowFrameBound::Following(None) => Ok(ParsedWindowFrameBoundView::UnboundedFollowing),
        WindowFrameBound::Following(Some(e)) => match converted_expr(*e, sql) {
            Err(x) => Err(x),
            Ok(b) => Ok(ParsedWindowFrameBoundView::Following(Box::new(b))),
        },
    }
}

/// The result is its outermost layer over the results of its parts.
pub proof fn unfold_bound_of(b: WindowFrameBound, sql: Seq<char>)
    ensures
        bound_of(b, sql) == bound_of_layer(b, sql),
{
}

/// A frame.
pub closed spec fn frame_of(f: WindowFrame, sql: Seq<char>) -> Checked<ParsedWindowFrameView>
    decreases f, 1int, 0int,
{
    match frame_units(f.units) {
        Err(x) => Err(x),
        Ok(units) => match bound_of(f.start_bound, sql) {
            Err(x) => Err(x),
            Ok(start_bound) => match f.end_bound {
                None => Ok(ParsedWindowFrameView { units, start_bound, end_bound: ParsedWindowFrameBoundView::CurrentRow }),
                Some(b) => match bound_of(b, sql) {
                    Err(x) => Err(x),
                    Ok(end_bound) => Ok(ParsedWindowFrameView { units, start_bound, end_bound }),
                },
            },
        },
    }
}

/// One layer of [`frame_of`], over the results of its parts.
pub open spec fn frame_of_layer(f: WindowFrame, sql: Seq<char>) -> Checked<ParsedWindowFrameView> {
    match frame_units(f.units) {
        Err(x) => Err(x),
        Ok(units) => match bound_of(f.start_bound, sql) {
            Err(x) => Err(x),
            Ok(start_bound) => match f.end_bound {
                None => Ok(ParsedWindowFrameView { units, start_bound, end_bound: ParsedWindowFrameBoundView::CurrentRow }),
                Some(b) => match bound_of(b, sql) {
                    Err(x) => Err(x),
                    Ok(end_bound) => Ok(ParsedWindowFrameView { units, start_bound, end_bound }),
                },
            },
        },
    }
}

/// The result is its outermost layer over the results of its parts.
pub proof fn unfold_frame_of(f: WindowFrame, sql: Seq<char>)
    ensures
        frame_of(f, sql) == frame_of_layer(f, sql),
{
}

/// A window.
pub closed spec fn window_spec_of(w: WindowSpec, sql: Seq<char>) -> Checked<ParsedWindowSpecView>
    decreases w, 1int, 0int,
{
    match converted_exprs(w.partition_by@, sql, 0, Seq::empty()) {
        Err(x) => Err(x),
        Ok(partition_by) => match orders_of(w.order_by@, sql, 0, Seq::empty()) {
            Err(x) => Err(x),
            Ok(order_by) => match w.window_frame {
                None => Ok(ParsedWindowSpecView { window_name: some_ident(w.window_name, sql), partition_by, order_by, frame: None }),
                Some(f) => match frame_of(f, sql) {
                    Err(x) => Err(x),
                    Ok(frame) => Ok(
                        ParsedWindowSpecView { window_name: some_ident(w.window_name, sql), partition_by, order_by, frame: Some(frame) },
                    ),
                },
            },
        },
    }
}

/// One layer of [`window_spec_of`], over the results of its parts.
pub open spec fn window_spec_of_layer(w: WindowSpec, sql: Seq<char>) -> Checked<ParsedWindowSpecView> {
    match converted_exprs(w.partition_by@, sql, 0, Seq::empty()) {
        Err(x) => Err(x),
        Ok(partition_by) => match orders_of(w.order_by@, sql, 0, Seq::empty()) {
            Err(x) => Err(x),
            Ok(order_by) => match w.window_frame {
                None => Ok(ParsedWindowSpecView { window_name: some_ident(w.window_name, sql), partition_by, order_by, frame: None }),
                Some(f) => match frame_of(f, sql) {
                    Err(x) => Err(x),
                    Ok(frame) => Ok(
                        ParsedWindowSpecView { window_name: some_ident(w.window_name, sql), partition_by, order_by, frame: Some(frame) },
                    ),
                },
            },
        },
    }
}

/// The result is its outermost layer over the results of its parts.
pub proof fn unfold_window_spec_of(w: WindowSpec, sql: Seq<char>)
    ensures
        window_spec_of(w, sql) == window_spec_of_layer(w, sql),
{
}

/// The arguments of a window function, and whether they are a star.
pub closed spec fn window_arguments(
    a: FunctionArguments,
    function: WindowFunction,
    sql: Seq<char>,
    position: Option<usize>,
) -> Checked<(Seq<ParsedExprView>, bool)>
    decreases a, 1int, 0int,
{
    match a {
        FunctionArguments::List(list) => if list.duplicate_treatment == Some(DuplicateTreatment::Distinct) {
            Err(unsupported_error("DISTINCT window aggregates are not supported yet"@, position))
        } else if list.clauses@.len() > 0 {
            Err(unsupported_error("ordered window arguments are not supported yet"@, position))
        } else if function == WindowFunction::Aggregate(AggregateFunction::Count) && only_star(list.args@) {
            Ok((Seq::empty(), true))
        } else {
            match arguments_in(
                list.args@,
                sql,
                "window calls support positional expression arguments only"@,
                position,
                0,
                Seq::empty(),
            ) {
                Err(x) => Err(x),
                Ok(arguments) => Ok((arguments, false)),
            }
        },
        _ => Err(unsupported_error("window function arguments must use parentheses"@, position)),
    }
}

/// One layer of [`window_arguments`], over the results of its parts.
pub open spec fn window_arguments_layer(
    a: FunctionArguments,
    function: WindowFunction,
    sql: Seq<char>,
    position: Option<usize>,
) -> Checked<(Seq<ParsedExprView>, bool)> {
    match a {
        FunctionArguments::List(list) => if list.duplicate_treatment == Some(DuplicateTreatment::Distinct) {
            Err(unsupported_error("DISTINCT window aggregates are not supported yet"@, position))
        } else if list.clauses@.len() > 0 {
            Err(unsupported_error("ordered window arguments are not supported yet"@, position))
        } else if function == WindowFunction::Aggregate(AggregateFunction::Count) && only_star(list.args@) {
            Ok((Seq::empty(), true))
        } else {
            match arguments_in(
                list.args@,
                sql,
                "window calls support positional expression arguments only"@,
                position,
                0,
                Seq::empty(),
            ) {
                Err(x) => Err(x),
                Ok(arguments) => Ok((arguments, false)),
            }
        },
        _ => Err(unsupported_error("window function arguments must use parentheses"@, position)),
    }
}

/// The result is its outermost layer over the results of its parts.
pub proof fn unfold_window_arguments(a: FunctionArguments, function: WindowFunction, sql: Seq<char>, position: Option<usize>)
    ensures
        window_arguments(a, function, sql, position) == window_arguments_layer(a, function, sql, position),
{
}

/// A call of a window function.
pub closed spec fn window_call_of(f: Function, sql: Seq<char>, position: Option<usize>) -> Checked<ParsedWindowCallView>
    decreases f, 1int, 0int,
{
    if f.uses_odbc_syntax || !(f.parameters is None) || f.null_treatment is Some || f.within_group@.len() > 0 {
        Err(unsupported_error("window function options are not supported yet"@, position))
    } else {
        match window_function_named(path_text(f.name)) {
            None => Err(unsupported_error("this window function is not supported yet"@, position)),
            Some(function) => match window_arguments(f.args, function, sql, position) {
                Err(x) => Err(x),
                Ok((arguments, count_star)) => if f.filter is Some && !(function is Aggregate) {
                    Err(error_at("42809"@, "FILTER is supported only for aggregate window functions"@, position))
                } else {
                    match converted_box(f.filter, sql) {
                        Err(x) => Err(x),
                        Ok(filter) => Ok(ParsedWindowCallView { function, arguments, count_star, filter }),
                    }
                },
            },
        }
    }
}

/// One layer of [`window_call_of`], over the results of its parts.
pub open spec fn window_call_of_layer(f: Function, sql: Seq<char>, position: Option<usize>) -> Checked<ParsedWindowCallView> {
    if f.uses_odbc_syntax || !(f.parameters is None) || f.null_treatment is Some || f.within_group@.len() > 0 {
        Err(unsupported_error("window function options are not supported yet"@, position))
    } else {
        match window_function_named(path_text(f.name)) {
            None => Err(unsupported_error("this window function is not supported yet"@, position)),
            Some(function) => match window_arguments(f.args, function, sql, position) {
                Err(x) => Err(x),
                Ok((arguments, count_star)) => if f.filter is Some && !(function is Aggregate) {
                    Err(error_at("42809"@, "FILTER is supported only for aggregate window functions"@, position))
                } else {
                    match converted_box(f.filter, sql) {
                        Err(x) => Err(x),
                        Ok(filter) => Ok(ParsedWindowCallView { function, arguments, count_star, filter }),
                    }
                },
            },
        }
    }
}

/// The result is its outermost layer over the results of its parts.
pub proof fn unfold_window_call_of(f: Function, sql: Seq<char>, position: Option<usize>)
    ensures
        window_call_of(f, sql, position) == window_call_of_layer(f, sql, position),
{
}

/// A call.
pub closed spec fn call_of(f: Function, sql: Seq<char>, position: Option<usize>) -> Checked<ParsedExprKindView>
    decreases f, 2int, 0int,
{
    match f.over {
        None => plain_call(f, sql, position),
        Some(over) => match window_call_of(f, sql, position) {
            Err(x) => Err(x),
            Ok(call) => match over {
                WindowType::NamedWindow(name) => Ok(ParsedExprKindView::NamedWindow { call: Box::new(call), name: ident_of(name, sql) }),
                WindowType::WindowSpec(w) => match window_spec_of(w, sql) {
                    Err(x) => Err(x),
                    Ok(spec) => Ok(ParsedExprKindView::Window { call: Box::new(call), spec: Box::new(spec) }),
                },
            },
        },
    }
}

/// One layer of [`call_of`], over the results of its parts.
pub open spec fn call_of_layer(f: Function, sql: Seq<char>, position: Option<usize>) -> Checked<ParsedExprKindView> {
    match f.over {
        None => plain_call(f, sql, position),
        Some(over) => match window_call_of(f, sql, position) {
            Err(x) => Err(x),
            Ok(call) => match over {
                WindowType::NamedWindow(name) => Ok(ParsedExprKindView::NamedWindow { call: Box::new(call), name: ident_of(name, sql) }),
                WindowType::WindowSpec(w) => match window_spec_of(w, sql) {
                    Err(x) => Err(x),
                    Ok(spec) => Ok(ParsedExprKindView::Window { call: Box::new(call), spec: Box::new(spec) }),
                },
            },
        },
    }
}

/// The result is its outermost layer over the results of its parts.
pub proof fn unfold_call_of(f: Function, sql: Seq<char>, position: Option<usize>)
    ensures
        call_of(f, sql, position) == call_of_layer(f, sql, position),
{
}

/// The elements of an array in one row, and its dimensions.
pub closed spec fn array_of(l: Seq<Expr>, sql: Seq<char>, position: Option<usize>) -> Checked<ArrayItemsView>
    decreases l, 2int, 0int,
{
    if l.len() == 0 {
        Ok(ArrayItemsView { elements: Seq::empty(), dimensions: Seq::empty() })
    } else if l[0] is Array {
        array_rows(l, sql, position, 0, ArrayItemsView { elements: Seq::empty(), dimensions: Seq::empty() })
    } else {
        match converted_exprs(l, sql, 0, Seq::empty()) {
            Err(x) => Err(x),
            Ok(elements) => Ok(
                ArrayItemsView { elements, dimensions: seq![ArrayDimension { length: l.len() as usize, lower_bound: 1 }] },
            ),
        }
    }
}

/// One layer of [`array_of`], over the results of its parts.
pub open spec fn array_of_layer(l: Seq<Expr>, sql: Seq<char>, position: Option<usize>) -> Checked<ArrayItemsView> {
    if l.len() == 0 {
        Ok(ArrayItemsView { elements: Seq::empty(), dimensions: Seq::empty() })
    } else if l[0] is Array {
        array_rows(l, sql, position, 0, ArrayItemsView { elements: Seq::empty(), dimensions: Seq::empty() })
    } else {
        match converted_exprs(l, sql, 0, Seq::empty()) {
            Err(x) => Err(x),
            Ok(elements) => Ok(
                ArrayItemsView { elements, dimensions: seq![ArrayDimension { length: l.len() as usize, lower_bound: 1 }] },
            ),
        }
    }
}

/// The result is its outermost layer over the results of its parts.
pub proof fn unfold_array_of(l: Seq<Expr>, sql: Seq<char>, position: Option<usize>)
    ensures
        array_of(l, sql, position) == array_of_layer(l, sql, position),
{
}

/// The rows of an array of arrays, from one of them on.
pub closed spec fn array_rows(
    l: Seq<Expr>,
    sql: Seq<char>,
    position: Option<usize>,
    i: int,
    done: ArrayItemsView,
) -> Checked<ArrayItemsView>
    decreases l, 1int, l.len() - i,
{
    if i < 0 || i >= l.len() {
        Ok(done)
    } else {
        match l[i] {
            Expr::Array(row) => match array_of(row.elem@, sql, position) {
                Err(x) => Err(x),
                Ok(items) => {
                    let dimensions = seq![ArrayDimension { length: l.len() as usize, lower_bound: 1 }] + items.dimensions;
                    if i > 0 && dimensions != done.dimensions {
                        Err(error_at("2202E"@, "multidimensional arrays must have rows of the same size"@, position))
                    } else {
                        array_rows(l, sql, position, i + 1, ArrayItemsView { elements: done.elements + items.elements, dimensions })
                    }
                },
            },
            _ => Err(error_at("2202E"@, "multidimensional arrays must have rows of the same size"@, position)),
        }
    }
}

/// One layer of [`array_rows`], over the results of its parts.
pub open spec fn array_rows_layer(
    l: Seq<Expr>,
    sql: Seq<char>,
    position: Option<usize>,
    i: int,
    done: ArrayItemsView,
) -> Checked<ArrayItemsView> {
    if i < 0 || i >= l.len() {
        Ok(done)
    } else {
        match l[i] {
            Expr::Array(row) => match array_of(row.elem@, sql, position) {
                Err(x) => Err(x),
                Ok(items) => {
                    let dimensions = seq![ArrayDimension { length: l.len() as usize, lower_bound: 1 }] + items.dimensions;
                    if i > 0 && dimensions != done.dimensions {
                        Err(error_at("2202E"@, "multidimensional arrays must have rows of the same size"@, position))
                    } else {
                        array_rows(l, sql, position, i + 1, ArrayItemsView { elements: done.elements + items.elements, dimensions })
                    }
                },
            },
            _ => Err(error_at("2202E"@, "multidimensional arrays must have rows of the same size"@, position)),
        }
    }
}

/// The result is its outermost layer over the results of its parts.
pub proof fn unfold_array_rows(l: Seq<Expr>, sql: Seq<char>, position: Option<usize>, i: int, done: ArrayItemsView)
    ensures
        array_rows(l, sql, position, i, done) == array_rows_layer(l, sql, position, i, done),
{
}

/// A name or a literal.
pub closed spec fn leaf_expr(e: Expr, sql: Seq<char>, position: Option<usize>) -> Checked<ParsedExprView>
    decreases e, 0int, 0int,
{
    match e {
        Expr::Identifier(ident) => if ident.quote_style is None && at_parameter(ident.value@) is Some {
            Ok(ParsedExprView { kind: ParsedExprKindView::Parameter(at_parameter(ident.value@)->0), position })
        } else {
            Ok(ParsedExprView { kind: ParsedExprKindView::Column(ParsedObjectNameView { parts: seq![ident_of(ident, sql)] }), position })
        },
        Expr::CompoundIdentifier(parts) => Ok(
            ParsedExprView { kind: ParsedExprKindView::Column(ParsedObjectNameView { parts: idents_of(parts@, sql) }), position },
        ),
        Expr::Value(v) => match literal_kind(v.value, position) {
            Err(x) => Err(x),
            Ok(kind) => Ok(ParsedExprView { kind, position }),
        },
        _ => Err(unsupported_error("this SQL expression is not supported yet"@, position)),
    }
}

/// One layer of [`leaf_expr`], over the results of its parts.
pub open spec fn leaf_expr_layer(e: Expr, sql: Seq<char>, position: Option<usize>) -> Checked<ParsedExprView> {
    match e {
        Expr::Identifier(ident) => if ident.quote_style is None && at_parameter(ident.value@) is Some {
            Ok(ParsedExprView { kind: ParsedExprKindView::Parameter(at_parameter(ident.value@)->0), position })
        } else {
            Ok(ParsedExprView { kind: ParsedExprKindView::Column(ParsedObjectNameView { parts: seq![ident_of(ident, sql)] }), position })
        },
        Expr::CompoundIdentifier(parts) => Ok(
            ParsedExprView { kind: ParsedExprKindView::Column(ParsedObjectNameView { parts: idents_of(parts@, sql) }), position },
        ),
        Expr::Value(v) => match literal_kind(v.value, position) {
            Err(x) => Err(x),
            Ok(kind) => Ok(ParsedExprView { kind, position }),
        },
        _ => Err(unsupported_error("this SQL expression is not supported yet"@, position)),
    }
}

/// The result is its outermost layer over the results of its parts.
pub proof fn unfold_leaf_expr(e: Expr, sql: Seq<char>, position: Option<usize>)
    ensures
        leaf_expr(e, sql, position) == leaf_expr_layer(e, sql, position),
{
}

/// A literal with a type.
pub closed spec fn typed_expr(e: Expr, sql: Seq<char>, position: Option<usize>) -> Checked<ParsedExprView>
    decreases e, 0int, 0int,
{
    match e {
        Expr::TypedString(t) => match any_string_of(t.value.value) {
            None => Err(error_at(SYNTAX_ERROR@, "typed literal requires a string value"@, position)),
            Some(s) => match temporal_of(t.data_type, s, position) {
                Err(x) => Err(x),
                Ok(v) => Ok(ParsedExprView { kind: ParsedExprKindView::Literal(v), position }),
            },
        },
        Expr::Interval(i) => if i.leading_field is Some || i.leading_precision is Some || i.last_field is Some || i.fractional_seconds_precision is Some {
            Err(unsupported_error("INTERVAL field and precision qualifiers are not supported yet"@, position))
        } else {
            match interval_of(*i.value, position) {
                Err(x) => Err(x),
                Ok(s) => Ok(ParsedExprView { kind: ParsedExprKindView::Literal(ValueView::Interval(s)), position }),
            }
        },
        _ => Err(unsupported_error("this SQL expression is not supported yet"@, position)),
    }
}

/// One layer of [`typed_expr`], over the results of its parts.
pub open spec fn typed_expr_layer(e: Expr, sql: Seq<char>, position: Option<usize>) -> Checked<ParsedExprView> {
    match e {
        Expr::TypedString(t) => match any_string_of(t.value.value) {
            None => Err(error_at(SYNTAX_ERROR@, "typed literal requires a string value"@, position)),
            Some(s) => match temporal_of(t.data_type, s, position) {
                Err(x) => Err(x),
                Ok(v) => Ok(ParsedExprView { kind: ParsedExprKindView::Literal(v), position }),
            },
        },
        Expr::Interval(i) => if i.leading_field is Some || i.leading_precision is Some || i.last_field is Some || i.fractional_seconds_precision is Some {
            Err(unsupported_error("INTERVAL field and precision qualifiers are not supported yet"@, position))
        } else {
            match interval_of(*i.value, position) {
                Err(x) => Err(x),
                Ok(s) => Ok(ParsedExprView { kind: ParsedExprKindView::Literal(ValueView::Interval(s)), position }),
            }
        },
        _ => Err(unsupported_error("this SQL expression is not supported yet"@, position)),
    }
}

/// The result is its outermost layer over the results of its parts.
pub proof fn unfold_typed_expr(e: Expr, sql: Seq<char>, position: Option<usize>)
    ensures
        typed_expr(e, sql, position) == typed_expr_layer(e, sql, position),
{
}

/// A cast.
pub closed spec fn cast_expr(e: Expr, sql: Seq<char>, position: Option<usize>) -> Checked<ParsedExprView>
    decreases e, 0int, 0int,
{
    match e {
        Expr::Cast { kind, expr, data_type, array, format } => if !(kind is Cast || kind is DoubleColon) {
            Err(unsupported_error("TRY_CAST and SAFE_CAST are not supported"@, position))
        } else if array || format is Some {
            Err(unsupported_error("this CAST option is not supported"@, position))
        } else {
            match column_type_of(data_type, sql) {
                Err(x) => Err(x),
                Ok((t, declared_type)) => match converted_expr(*expr, sql) {
                    Err(x) => Err(x),
                    Ok(b) => Ok(
                        ParsedExprView { kind: ParsedExprKindView::Cast { expr: Box::new(b), data_type: t, declared_type }, position },
                    ),
                },
            }
        },
        _ => Err(unsupported_error("this SQL expression is not supported yet"@, position)),
    }
}

/// One layer of [`cast_expr`], over the results of its parts.
pub open spec fn cast_expr_layer(e: Expr, sql: Seq<char>, position: Option<usize>) -> Checked<ParsedExprView> {
    match e {
        Expr::Cast { kind, expr, data_type, array, format } => if !(kind is Cast || kind is DoubleColon) {
            Err(unsupported_error("TRY_CAST and SAFE_CAST are not supported"@, position))
        } else if array || format is Some {
            Err(unsupported_error("this CAST option is not supported"@, position))
        } else {
            match column_type_of(data_type, sql) {
                Err(x) => Err(x),
                Ok((t, declared_type)) => match converted_expr(*expr, sql) {
                    Err(x) => Err(x),
                    Ok(b) => Ok(
                        ParsedExprView { kind: ParsedExprKindView::Cast { expr: Box::new(b), data_type: t, declared_type }, position },
                    ),
                },
            }
        },
        _ => Err(unsupported_error("this SQL expression is not supported yet"@, position)),
    }
}

/// The result is its outermost layer over the results of its parts.
pub proof fn unfold_cast_expr(e: Expr, sql: Seq<char>, position: Option<usize>)
    ensures
        cast_expr(e, sql, position) == cast_expr_layer(e, sql, position),
{
}

/// An array.
pub closed spec fn array_expr(e: Expr, sql: Seq<char>, position: Option<usize>) -> Checked<ParsedExprView>
    decreases e, 0int, 0int,
{
    match e {
        Expr::Array(a) => match array_of(a.elem@, sql, position) {
            Err(x) => Err(x),
            Ok(items) => Ok(
                ParsedExprView { kind: ParsedExprKindView::Array { elements: items.elements, dimensions: items.dimensions }, position },
            ),
        },
        _ => Err(unsupported_error("this SQL expression is not supported yet"@, position)),
    }
}

/// One layer of [`array_expr`], over the results of its parts.
pub open spec fn array_expr_layer(e: Expr, sql: Seq<char>, position: Option<usize>) -> Checked<ParsedExprView> {
    match e {
        Expr::Array(a) => match array_of(a.elem@, sql, position) {
            Err(x) => Err(x),
            Ok(items) => Ok(
                ParsedExprView { kind: ParsedExprKindView::Array { elements: items.elements, dimensions: items.dimensions }, position },
            ),
        },
        _ => Err(unsupported_error("this SQL expression is not supported yet"@, position)),
    }
}

/// The result is its outermost layer over the results of its parts.
pub proof fn unfold_array_expr(e: Expr, sql: Seq<char>, position: Option<usize>)
    ensures
        array_expr(e, sql, position) == array_expr_layer(e, sql, position),
{
}

/// A part of a text.
pub closed spec fn text_expr(e: Expr, sql: Seq<char>, position: Option<usize>) -> Checked<ParsedExprView>
    decreases e, 0int, 0int,
{
    match e {
        Expr::Substring { expr, substring_from, substring_for, .. } => match substring_from {
            None => Err(error_at(SYNTAX_ERROR@, "SUBSTRING requires a start position"@, position)),
            Some(from) => match converted_expr(*expr, sql) {
                Err(x) => Err(x),
                Ok(a) => match converted_expr(*from, sql) {
                    Err(x) => Err(x),
                    Ok(b) => match substring_for {
                        None => Ok(
                            ParsedExprView {
                                kind: ParsedExprKindView::Function { function: ScalarFunction::Substring, arguments: seq![a, b] },
                                position,
                            },
                        ),
                        Some(length) => match converted_expr(*length, sql) {
                            Err(x) => Err(x),
                            Ok(c) => Ok(
                                ParsedExprView {
                                    kind: ParsedExprKindView::Function { function: ScalarFunction::Substring, arguments: seq![a, b, c] },
                                    position,
                                },
                            ),
                        },
                    },
                },
            },
        },
        Expr::Position { expr, .. } => if !decreases_to!(e => last_operand(e)) {
            Err(internal_error("POSITION has no text to search"@))
        } else {
            match converted_expr(last_operand(e), sql) {
                Err(x) => Err(x),
                Ok(a) => match converted_expr(*expr, sql) {
                    Err(x) => Err(x),
                    Ok(b) => Ok(
                        ParsedExprView {
                            kind: ParsedExprKindView::Function { function: ScalarFunction::Strpos, arguments: seq![a, b] },
                            position,
                        },
                    ),
                },
            }
        },
        Expr::Trim { expr, trim_where, trim_what, trim_characters } => if trim_characters is Some {
            Err(unsupported_error("comma-separated TRIM characters are not supported"@, position))
        } else {
            match converted_expr(*expr, sql) {
                Err(x) => Err(x),
                Ok(a) => match trim_what {
                    None => Ok(
                        ParsedExprView {
                            kind: ParsedExprKindView::Function { function: trim_function(trim_where), arguments: seq![a] },
                            position,
                        },
                    ),
                    Some(what) => match converted_expr(*what, sql) {
                        Err(x) => Err(x),
                        Ok(b) => Ok(
                            ParsedExprView {
                                kind: ParsedExprKindView::Function { function: trim_function(trim_where), arguments: seq![a, b] },
                                position,
                            },
                        ),
                    },
                },
            }
        },
        _ => Err(unsupported_error("this SQL expression is not supported yet"@, position)),
    }
}

/// One layer of [`text_expr`], over the results of its parts.
pub open spec fn text_expr_layer(e: Expr, sql: Seq<char>, position: Option<usize>) -> Checked<ParsedExprView> {
    match e {
        Expr::Substring { expr, substring_from, substring_for, .. } => match substring_from {
            None => Err(error_at(SYNTAX_ERROR@, "SUBSTRING requires a start position"@, position)),
            Some(from) => match converted_expr(*expr, sql) {
                Err(x) => Err(x),
                Ok(a) => match converted_expr(*from, sql) {
                    Err(x) => Err(x),
                    Ok(b) => match substring_for {
                        None => Ok(
                            ParsedExprView {
                                kind: ParsedExprKindView::Function { function: ScalarFunction::Substring, arguments: seq![a, b] },
                                position,
                            },
                        ),
                        Some(length) => match converted_expr(*length, sql) {
                            Err(x) => Err(x),
                            Ok(c) => Ok(
                                ParsedExprView {
                                    kind: ParsedExprKindView::Function { function: ScalarFunction::Substring, arguments: seq![a, b, c] },
                                    position,
                                },
                            ),
                        },
                    },
                },
            },
        },
        Expr::Position { expr, .. } => if !decreases_to!(e => last_operand(e)) {
            Err(internal_error("POSITION has no text to search"@))
        } else {
            match converted_expr(last_operand(e), sql) {
                Err(x) => Err(x),
                Ok(a) => match converted_expr(*expr, sql) {
                    Err(x) => Err(x),
                    Ok(b) => Ok(
                        ParsedExprView {
                            kind: ParsedExprKindView::Function { function: ScalarFunction::Strpos, arguments: seq![a, b] },
                            position,
                        },
                    ),
                },
            }
        },
        Expr::Trim { expr, trim_where, trim_what, trim_characters } => if trim_characters is Some {
            Err(unsupported_error("comma-separated TRIM characters are not supported"@, position))
        } else {
            match converted_expr(*expr, sql) {
                Err(x) => Err(x),
                Ok(a) => match trim_what {
                    None => Ok(
                        ParsedExprView {
                            kind: ParsedExprKindView::Function { function: trim_function(trim_where), arguments: seq![a] },
                            position,
                        },
                    ),
                    Some(what) => match converted_expr(*what, sql) {
                        Err(x) => Err(x),
                        Ok(b) => Ok(
                            ParsedExprView {
                                kind: ParsedExprKindView::Function { function: trim_function(trim_where), arguments: seq![a, b] },
                                position,
                            },
                        ),
                    },
                },
            }
        },
        _ => Err(unsupported_error("this SQL expression is not supported yet"@, position)),
    }
}

/// The result is its outermost layer over the results of its parts.
pub proof fn unfold_text_expr(e: Expr, sql: Seq<char>, position: Option<usize>)
    ensures
        text_expr(e, sql, position) == text_expr_layer(e, sql, position),
{
}

/// An operator with one operand.
pub closed spec fn unary_expr(e: Expr, sql: Seq<char>, position: Option<usize>) -> Checked<ParsedExprView>
    decreases e, 0int, 0int,
{
    match e {
        Expr::UnaryOp { op, expr } => match op {
            SqlUnaryOperator::Not => match converted_expr(*expr, sql) {
                Err(x) => Err(x),
                Ok(b) => Ok(ParsedExprView { kind: ParsedExprKindView::Unary { op: UnaryOperator::Not, expr: Box::new(b) }, position }),
            },
            SqlUnaryOperator::Minus => match converted_expr(*expr, sql) {
                Err(x) => Err(x),
                Ok(b) => Ok(ParsedExprView { kind: ParsedExprKindView::Unary { op: UnaryOperator::Negate, expr: Box::new(b) }, position }),
            },
            SqlUnaryOperator::Plus => converted_expr(*expr, sql),
            _ => Err(unsupported_error("this unary operator is not supported yet"@, position)),
        },
        _ => Err(unsupported_error("this SQL expression is not supported yet"@, position)),
    }
}

/// One layer of [`unary_expr`], over the results of its parts.
pub open spec fn unary_expr_layer(e: Expr, sql: Seq<char>, position: Option<usize>) -> Checked<ParsedExprView> {
    match e {
        Expr::UnaryOp { op, expr } => match op {
            SqlUnaryOperator::Not => match converted_expr(*expr, sql) {
                Err(x) => Err(x),
                Ok(b) => Ok(ParsedExprView { kind: ParsedExprKindView::Unary { op: UnaryOperator::Not, expr: Box::new(b) }, position }),
            },
            SqlUnaryOperator::Minus => match converted_expr(*expr, sql) {
                Err(x) => Err(x),
                Ok(b) => Ok(ParsedExprView { kind: ParsedExprKindView::Unary { op: UnaryOperator::Negate, expr: Box::new(b) }, position }),
            },
            SqlUnaryOperator::Plus => converted_expr(*expr, sql),
            _ => Err(unsupported_error("this unary operator is not supported yet"@, position)),
        },
        _ => Err(unsupported_error("this SQL expression is not supported yet"@, position)),
    }
}

/// The result is its outermost layer over the results of its parts.
pub proof fn unfold_unary_expr(e: Expr, sql: Seq<char>, position: Option<usize>)
    ensures
        unary_expr(e, sql, position) == unary_expr_layer(e, sql, position),
{
}

/// An operator with two operands.
pub closed spec fn binary_expr(e: Expr, sql: Seq<char>, position: Option<usize>) -> Checked<ParsedExprView>
    decreases e, 0int, 0int,
{
    match e {
        Expr::BinaryOp { left, op, right } => match operator_of(op, position) {
            Err(x) => Err(x),
            Ok(op) => match (*left, *right) {
                (Expr::Tuple(l), Expr::Tuple(r)) => match row_comparison(op, position) {
                    Err(x) => Err(x),
                    Ok(op) => if l@.len() != r@.len() {
                        Err(error_at(SYNTAX_ERROR@, "row comparison operands must have the same number of columns"@, position))
                    } else {
                        match row_items(l@, sql, position) {
                            Err(x) => Err(x),
                            Ok(a) => match row_items(r@, sql, position) {
                                Err(x) => Err(x),
                                Ok(b) => Ok(row_compared(op, a, b, position)),
                            },
                        }
                    },
                },
                (Expr::Tuple(l), Expr::Subquery(q)) => match row_items(l@, sql, position) {
                    Err(x) => Err(x),
                    Ok(items) => match row_comparison(op, position) {
                        Err(x) => Err(x),
                        Ok(row_op) => match converted_query(*q, sql) {
                            Err(x) => Err(x),
                            Ok(query) => Ok(
                                ParsedExprView {
                                    kind: ParsedExprKindView::RowSubquery {
                                        left: items,
                                        op: row_op,
                                        quantifier: None,
                                        negated: false,
                                        subquery: Box::new(query),
                                    },
                                    position,
                                },
                            ),
                        },
                    },
                },
                (Expr::Subquery(q), Expr::Tuple(r)) => match row_items(r@, sql, position) {
                    Err(x) => Err(x),
                    Ok(items) => match row_comparison(op, position) {
                        Err(x) => Err(x),
                        Ok(row_op) => match converted_query(*q, sql) {
                            Err(x) => Err(x),
                            Ok(query) => Ok(
                                ParsedExprView {
                                    kind: ParsedExprKindView::RowSubquery {
                                        left: items,
                                        op: row_op,
                                        quantifier: None,
                                        negated: false,
                                        subquery: Box::new(query),
                                    },
                                    position,
                                },
                            ),
                        },
                    },
                },
                _ => match converted_expr(*left, sql) {
                    Err(x) => Err(x),
                    Ok(a) => match converted_expr(*right, sql) {
                        Err(x) => Err(x),
                        Ok(b) => Ok(
                            ParsedExprView { kind: ParsedExprKindView::Binary { left: Box::new(a), op, right: Box::new(b) }, position },
                        ),
                    },
                },
            },
        },
        _ => Err(unsupported_error("this SQL expression is not supported yet"@, position)),
    }
}

/// One layer of [`binary_expr`], over the results of its parts.
pub open spec fn binary_expr_layer(e: Expr, sql: Seq<char>, position: Option<usize>) -> Checked<ParsedExprView> {
    match e {
        Expr::BinaryOp { left, op, right } => match operator_of(op, position) {
            Err(x) => Err(x),
            Ok(op) => match (*left, *right) {
                (Expr::Tuple(l), Expr::Tuple(r)) => match row_comparison(op, position) {
                    Err(x) => Err(x),
                    Ok(op) => if l@.len() != r@.len() {
                        Err(error_at(SYNTAX_ERROR@, "row comparison operands must have the same number of columns"@, position))
                    } else {
                        match row_items(l@, sql, position) {
                            Err(x) => Err(x),
                            Ok(a) => match row_items(r@, sql, position) {
                                Err(x) => Err(x),
                                Ok(b) => Ok(row_compared(op, a, b, position)),
                            },
                        }
                    },
                },
                (Expr::Tuple(l), Expr::Subquery(q)) => match row_items(l@, sql, position) {
                    Err(x) => Err(x),
                    Ok(items) => match row_comparison(op, position) {
                        Err(x) => Err(x),
                        Ok(row_op) => match converted_query(*q, sql) {
                            Err(x) => Err(x),
                            Ok(query) => Ok(
                                ParsedExprView {
                                    kind: ParsedExprKindView::RowSubquery {
                                        left: items,
                                        op: row_op,
                                        quantifier: None,
                                        negated: false,
                                        subquery: Box::new(query),
                                    },
                                    position,
                                },
                            ),
                        },
                    },
                },
                (Expr::Subquery(q), Expr::Tuple(r)) => match row_items(r@, sql, position) {
                    Err(x) => Err(x),
                    Ok(items) => match row_comparison(op, position) {
                        Err(x) => Err(x),
                        Ok(row_op) => match converted_query(*q, sql) {
                            Err(x) => Err(x),
                            Ok(query) => Ok(
                                ParsedExprView {
                                    kind: ParsedExprKindView::RowSubquery {
                                        left: items,
                                        op: row_op,
                                        quantifier: None,
                                        negated: false,
                                        subquery: Box::new(query),
                                    },
                                    position,
                                },
                            ),
                        },
                    },
                },
                _ => match converted_expr(*left, sql) {
                    Err(x) => Err(x),
                    Ok(a) => match converted_expr(*right, sql) {
                        Err(x) => Err(x),
                        Ok(b) => Ok(
                            ParsedExprView { kind: ParsedExprKindView::Binary { left: Box::new(a), op, right: Box::new(b) }, position },
                        ),
                    },
                },
            },
        },
        _ => Err(unsupported_error("this SQL expression is not supported yet"@, position)),
    }
}

/// The result is its outermost layer over the results of its parts.
pub proof fn unfold_binary_expr(e: Expr, sql: Seq<char>, position: Option<usize>)
    ensures
        binary_expr(e, sql, position) == binary_expr_layer(e, sql, position),
{
}

/// An IN predicate over a list.
pub closed spec fn list_expr(e: Expr, sql: Seq<char>, position: Option<usize>) -> Checked<ParsedExprView>
    decreases e, 0int, 0int,
{
    match e {
        Expr::InList { expr, list, negated } => if list@.len() == 0 {
            Err(error_at(SYNTAX_ERROR@, "IN list must contain at least one expression"@, position))
        } else {
            match *expr {
                Expr::Tuple(l) => match row_items(l@, sql, position) {
                    Err(x) => Err(x),
                    Ok(items) => match rows_in(items, list@, sql, position, 0, None) {
                        Err(x) => Err(x),
                        Ok(found) => match found {
                            Some(found) => Ok(negated_if(negated, found, position)),
                            None => Err(error_at(SYNTAX_ERROR@, "IN list must contain at least one expression"@, position)),
                        },
                    },
                },
                _ => match converted_expr(*expr, sql) {
                    Err(x) => Err(x),
                    Ok(b) => match converted_exprs(list@, sql, 0, Seq::empty()) {
                        Err(x) => Err(x),
                        Ok(items) => Ok(
                            ParsedExprView { kind: ParsedExprKindView::InList { expr: Box::new(b), list: items, negated }, position },
                        ),
                    },
                },
            }
        },
        _ => Err(unsupported_error("this SQL expression is not supported yet"@, position)),
    }
}

/// One layer of [`list_expr`], over the results of its parts.
pub open spec fn list_expr_layer(e: Expr, sql: Seq<char>, position: Option<usize>) -> Checked<ParsedExprView> {
    match e {
        Expr::InList { expr, list, negated } => if list@.len() == 0 {
            Err(error_at(SYNTAX_ERROR@, "IN list must contain at least one expression"@, position))
        } else {
            match *expr {
                Expr::Tuple(l) => match row_items(l@, sql, position) {
                    Err(x) => Err(x),
                    Ok(items) => match rows_in(items, list@, sql, position, 0, None) {
                        Err(x) => Err(x),
                        Ok(found) => match found {
                            Some(found) => Ok(negated_if(negated, found, position)),
                            None => Err(error_at(SYNTAX_ERROR@, "IN list must contain at least one expression"@, position)),
                        },
                    },
                },
                _ => match converted_expr(*expr, sql) {
                    Err(x) => Err(x),
                    Ok(b) => match converted_exprs(list@, sql, 0, Seq::empty()) {
                        Err(x) => Err(x),
                        Ok(items) => Ok(
                            ParsedExprView { kind: ParsedExprKindView::InList { expr: Box::new(b), list: items, negated }, position },
                        ),
                    },
                },
            }
        },
        _ => Err(unsupported_error("this SQL expression is not supported yet"@, position)),
    }
}

/// The result is its outermost layer over the results of its parts.
pub proof fn unfold_list_expr(e: Expr, sql: Seq<char>, position: Option<usize>)
    ensures
        list_expr(e, sql, position) == list_expr_layer(e, sql, position),
{
}

/// A subquery, or a predicate over one.
pub closed spec fn query_expr(e: Expr, sql: Seq<char>, position: Option<usize>) -> Checked<ParsedExprView>
    decreases e, 0int, 0int,
{
    match e {
        Expr::Subquery(q) => match converted_query(*q, sql) {
            Err(x) => Err(x),
            Ok(query) => Ok(ParsedExprView { kind: ParsedExprKindView::ScalarSubquery(Box::new(query)), position }),
        },
        Expr::Exists { subquery, negated } => match converted_query(*subquery, sql) {
            Err(x) => Err(x),
            Ok(query) => Ok(ParsedExprView { kind: ParsedExprKindView::Exists { subquery: Box::new(query), negated }, position }),
        },
        Expr::InSubquery { expr, subquery, negated } => match *expr {
            Expr::Tuple(l) => match row_items(l@, sql, position) {
                Err(x) => Err(x),
                Ok(items) => match converted_query(*subquery, sql) {
                    Err(x) => Err(x),
                    Ok(query) => Ok(
                        ParsedExprView {
                            kind: ParsedExprKindView::RowSubquery {
                                left: items,
                                op: BinaryOperator::Eq,
                                quantifier: Some(SubqueryQuantifier::Any),
                                negated: negated,
                                subquery: Box::new(query),
                            },
                            position,
                        },
                    ),
                },
            },
            _ => match converted_expr(*expr, sql) {
                Err(x) => Err(x),
                Ok(b) => match converted_query(*subquery, sql) {
                    Err(x) => Err(x),
                    Ok(query) => Ok(
                        ParsedExprView {
                            kind: ParsedExprKindView::InSubquery { expr: Box::new(b), subquery: Box::new(query), negated },
                            position,
                        },
                    ),
                },
            },
        },
        _ => Err(unsupported_error("this SQL expression is not supported yet"@, position)),
    }
}

/// One layer of [`query_expr`], over the results of its parts.
pub open spec fn query_expr_layer(e: Expr, sql: Seq<char>, position: Option<usize>) -> Checked<ParsedExprView> {
    match e {
        Expr::Subquery(q) => match converted_query(*q, sql) {
            Err(x) => Err(x),
            Ok(query) => Ok(ParsedExprView { kind: ParsedExprKindView::ScalarSubquery(Box::new(query)), position }),
        },
        Expr::Exists { subquery, negated } => match converted_query(*subquery, sql) {
            Err(x) => Err(x),
            Ok(query) => Ok(ParsedExprView { kind: ParsedExprKindView::Exists { subquery: Box::new(query), negated }, position }),
        },
        Expr::InSubquery { expr, subquery, negated } => match *expr {
            Expr::Tuple(l) => match row_items(l@, sql, position) {
                Err(x) => Err(x),
                Ok(items) => match converted_query(*subquery, sql) {
                    Err(x) => Err(x),
                    Ok(query) => Ok(
                        ParsedExprView {
                            kind: ParsedExprKindView::RowSubquery {
                                left: items,
                                op: BinaryOperator::Eq,
                                quantifier: Some(SubqueryQuantifier::Any),
                                negated: negated,
                                subquery: Box::new(query),
                            },
                            position,
                        },
                    ),
                },
            },
            _ => match converted_expr(*expr, sql) {
                Err(x) => Err(x),
                Ok(b) => match converted_query(*subquery, sql) {
                    Err(x) => Err(x),
                    Ok(query) => Ok(
                        ParsedExprView {
                            kind: ParsedExprKindView::InSubquery { expr: Box::new(b), subquery: Box::new(query), negated },
                            position,
                        },
                    ),
                },
            },
        },
        _ => Err(unsupported_error("this SQL expression is not supported yet"@, position)),
    }
}

/// The result is its outermost layer over the results of its parts.
pub proof fn unfold_query_expr(e: Expr, sql: Seq<char>, position: Option<usize>)
    ensures
        query_expr(e, sql, position) == query_expr_layer(e, sql, position),
{
}

/// An ANY predicate.
pub closed spec fn any_expr(e: Expr, sql: Seq<char>, position: Option<usize>) -> Checked<ParsedExprView>
    decreases e, 0int, 0int,
{
    match e {
        Expr::AnyOp { left, compare_op, right, .. } => match *right {
            Expr::Subquery(subquery) => match comparison_of(compare_op, position) {
                Err(x) => Err(x),
                Ok(op) => match *left {
                    Expr::Tuple(l) => match row_items(l@, sql, position) {
                        Err(x) => Err(x),
                        Ok(items) => match row_comparison(op, position) {
                            Err(x) => Err(x),
                            Ok(row_op) => match converted_query(*subquery, sql) {
                                Err(x) => Err(x),
                                Ok(query) => Ok(
                                    ParsedExprView {
                                        kind: ParsedExprKindView::RowSubquery {
                                            left: items,
                                            op: row_op,
                                            quantifier: Some(SubqueryQuantifier::Any),
                                            negated: false,
                                            subquery: Box::new(query),
                                        },
                                        position,
                                    },
                                ),
                            },
                        },
                    },
                    _ => match converted_expr(*left, sql) {
                        Err(x) => Err(x),
                        Ok(b) => match converted_query(*subquery, sql) {
                            Err(x) => Err(x),
                            Ok(query) => Ok(
                                ParsedExprView {
                                    kind: ParsedExprKindView::QuantifiedSubquery {
                                        left: Box::new(b),
                                        op,
                                        quantifier: SubqueryQuantifier::Any,
                                        subquery: Box::new(query),
                                    },
                                    position,
                                },
                            ),
                        },
                    },
                },
            },
            _ => Err(unsupported_error("ANY over arrays or non-subquery expressions is not supported yet"@, position)),
        },
        _ => Err(unsupported_error("this SQL expression is not supported yet"@, position)),
    }
}

/// One layer of [`any_expr`], over the results of its parts.
pub open spec fn any_expr_layer(e: Expr, sql: Seq<char>, position: Option<usize>) -> Checked<ParsedExprView> {
    match e {
        Expr::AnyOp { left, compare_op, right, .. } => match *right {
            Expr::Subquery(subquery) => match comparison_of(compare_op, position) {
                Err(x) => Err(x),
                Ok(op) => match *left {
                    Expr::Tuple(l) => match row_items(l@, sql, position) {
                        Err(x) => Err(x),
                        Ok(items) => match row_comparison(op, position) {
                            Err(x) => Err(x),
                            Ok(row_op) => match converted_query(*subquery, sql) {
                                Err(x) => Err(x),
                                Ok(query) => Ok(
                                    ParsedExprView {
                                        kind: ParsedExprKindView::RowSubquery {
                                            left: items,
                                            op: row_op,
                                            quantifier: Some(SubqueryQuantifier::Any),
                                            negated: false,
                                            subquery: Box::new(query),
                                        },
                                        position,
                                    },
                                ),
                            },
                        },
                    },
                    _ => match converted_expr(*left, sql) {
                        Err(x) => Err(x),
                        Ok(b) => match converted_query(*subquery, sql) {
                            Err(x) => Err(x),
                            Ok(query) => Ok(
                                ParsedExprView {
                                    kind: ParsedExprKindView::QuantifiedSubquery {
                                        left: Box::new(b),
                                        op,
                                        quantifier: SubqueryQuantifier::Any,
                                        subquery: Box::new(query),
                                    },
                                    position,
                                },
                            ),
                        },
                    },
                },
            },
            _ => Err(unsupported_error("ANY over arrays or non-subquery expressions is not supported yet"@, position)),
        },
        _ => Err(unsupported_error("this SQL expression is not supported yet"@, position)),
    }
}

/// The result is its outermost layer over the results of its parts.
pub proof fn unfold_any_expr(e: Expr, sql: Seq<char>, position: Option<usize>)
    ensures
        any_expr(e, sql, position) == any_expr_layer(e, sql, position),
{
}

/// An ALL predicate.
pub closed spec fn all_expr(e: Expr, sql: Seq<char>, position: Option<usize>) -> Checked<ParsedExprView>
    decreases e, 0int, 0int,
{
    match e {
        Expr::AllOp { left, compare_op, right } => match *right {
            Expr::Subquery(subquery) => match comparison_of(compare_op, position) {
                Err(x) => Err(x),
                Ok(op) => match *left {
                    Expr::Tuple(l) => match row_items(l@, sql, position) {
                        Err(x) => Err(x),
                        Ok(items) => match row_comparison(op, position) {
                            Err(x) => Err(x),
                            Ok(row_op) => match converted_query(*subquery, sql) {
                                Err(x) => Err(x),
                                Ok(query) => Ok(
                                    ParsedExprView {
                                        kind: ParsedExprKindView::RowSubquery {
                                            left: items,
                                            op: row_op,
                                            quantifier: Some(SubqueryQuantifier::All),
                                            negated: false,
                                            subquery: Box::new(query),
                                        },
                                        position,
                                    },
                                ),
                            },
                        },
                    },
                    _ => match converted_expr(*left, sql) {
                        Err(x) => Err(x),
                        Ok(b) => match converted_query(*subquery, sql) {
                            Err(x) => Err(x),
                            Ok(query) => Ok(
                                ParsedExprView {
                                    kind: ParsedExprKindView::QuantifiedSubquery {
                                        left: Box::new(b),
                                        op,
                                        quantifier: SubqueryQuantifier::All,
                                        subquery: Box::new(query),
                                    },
                                    position,
                                },
                            ),
                        },
                    },
                },
            },
            _ => Err(unsupported_error("ALL over arrays or non-subquery expressions is not supported yet"@, position)),
        },
        _ => Err(unsupported_error("this SQL expression is not supported yet"@, position)),
    }
}

/// One layer of [`all_expr`], over the results of its parts.
pub open spec fn all_expr_layer(e: Expr, sql: Seq<char>, position: Option<usize>) -> Checked<ParsedExprView> {
    match e {
        Expr::AllOp { left, compare_op, right } => match *right {
            Expr::Subquery(subquery) => match comparison_of(compare_op, position) {
                Err(x) => Err(x),
                Ok(op) => match *left {
                    Expr::Tuple(l) => match row_items(l@, sql, position) {
                        Err(x) => Err(x),
                        Ok(items) => match row_comparison(op, position) {
                            Err(x) => Err(x),
                            Ok(row_op) => match converted_query(*subquery, sql) {
                                Err(x) => Err(x),
                                Ok(query) => Ok(
                                    ParsedExprView {
                                        kind: ParsedExprKindView::RowSubquery {
                                            left: items,
                                            op: row_op,
                                            quantifier: Some(SubqueryQuantifier::All),
                                            negated: false,
                                            subquery: Box::new(query),
                                        },
                                        position,
                                    },
                                ),
                            },
                        },
                    },
                    _ => match converted_expr(*left, sql) {
                        Err(x) => Err(x),
                        Ok(b) => match converted_query(*subquery, sql) {
                            Err(x) => Err(x),
                            Ok(query) => Ok(
                                ParsedExprView {
                                    kind: ParsedExprKindView::QuantifiedSubquery {
                                        left: Box::new(b),
                                        op,
                                        quantifier: SubqueryQuantifier::All,
                                        subquery: Box::new(query),
                                    },
                                    position,
                                },
                            ),
                        },
                    },
                },
            },
            _ => Err(unsupported_error("ALL over arrays or non-subquery expressions is not supported yet"@, position)),
        },
        _ => Err(unsupported_error("this SQL expression is not supported yet"@, position)),
    }
}

/// The result is its outermost layer over the results of its parts.
pub proof fn unfold_all_expr(e: Expr, sql: Seq<char>, position: Option<usize>)
    ensures
        all_expr(e, sql, position) == all_expr_layer(e, sql, position),
{
}

/// A call.
pub closed spec fn call_expr(e: Expr, sql: Seq<char>, position: Option<usize>) -> Checked<ParsedExprView>
    decreases e, 0int, 0int,
{
    match e {
        Expr::Function(f) => match call_of(f, sql, position) {
            Err(x) => Err(x),
            Ok(kind) => Ok(ParsedExprView { kind, position }),
        },
        _ => Err(unsupported_error("this SQL expression is not supported yet"@, position)),
    }
}

/// One layer of [`call_expr`], over the results of its parts.
pub open spec fn call_expr_layer(e: Expr, sql: Seq<char>, position: Option<usize>) -> Checked<ParsedExprView> {
    match e {
        Expr::Function(f) => match call_of(f, sql, position) {
            Err(x) => Err(x),
            Ok(kind) => Ok(ParsedExprView { kind, position }),
        },
        _ => Err(unsupported_error("this SQL expression is not supported yet"@, position)),
    }
}

/// The result is its outermost layer over the results of its parts.
pub proof fn unfold_call_expr(e: Expr, sql: Seq<char>, position: Option<usize>)
    ensures
        call_expr(e, sql, position) == call_expr_layer(e, sql, position),
{
}

/// An expression as statements hold it.
pub closed spec fn converted_expr(e: Expr, sql: Seq<char>) -> Checked<ParsedExprView>
    decreases e, 1int, 0int,
{
    let position = place_of(sql, expr_start(e));
    match e {
        Expr::Identifier(..) => leaf_expr(e, sql, position),
        Expr::CompoundIdentifier(..) => leaf_expr(e, sql, position),
        Expr::Nested(inner) => converted_expr(*inner, sql),
        Expr::Value(..) => leaf_expr(e, sql, position),
        Expr::TypedString(..) => typed_expr(e, sql, position),
        Expr::Interval(..) => typed_expr(e, sql, position),
        Expr::Cast { .. } => cast_expr(e, sql, position),
        Expr::Array(..) => array_expr(e, sql, position),
        Expr::Substring { .. } => text_expr(e, sql, position),
        Expr::Trim { .. } => text_expr(e, sql, position),
        Expr::Position { .. } => text_expr(e, sql, position),
        Expr::UnaryOp { .. } => unary_expr(e, sql, position),
        Expr::BinaryOp { .. } => binary_expr(e, sql, position),
        Expr::InList { .. } => list_expr(e, sql, position),
        Expr::Subquery(..) => query_expr(e, sql, position),
        Expr::Exists { .. } => query_expr(e, sql, position),
        Expr::InSubquery { .. } => query_expr(e, sql, position),
        Expr::AnyOp { .. } => any_expr(e, sql, position),
        Expr::AllOp { .. } => all_expr(e, sql, position),
        Expr::Tuple(_) => Err(unsupported_error("row values are supported only in comparisons and IN predicates"@, position)),
        Expr::Function(..) => call_expr(e, sql, position),
        _ => Err(unsupported_error("this SQL expression is not supported yet"@, position)),
    }
}

/// One layer of [`converted_expr`], over the results of its parts.
pub open spec fn converted_expr_layer(e: Expr, sql: Seq<char>) -> Checked<ParsedExprView> {
    let position = place_of(sql, expr_start(e));
    match e {
        Expr::Identifier(..) => leaf_expr(e, sql, position),
        Expr::CompoundIdentifier(..) => leaf_expr(e, sql, position),
        Expr::Nested(inner) => converted_expr(*inner, sql),
        Expr::Value(..) => leaf_expr(e, sql, position),
        Expr::TypedString(..) => typed_expr(e, sql, position),
        Expr::Interval(..) => typed_expr(e, sql, position),
        Expr::Cast { .. } => cast_expr(e, sql, position),
        Expr::Array(..) => array_expr(e, sql, position),
        Expr::Substring { .. } => text_expr(e, sql, position),
        Expr::Trim { .. } => text_expr(e, sql, position),
        Expr::Position { .. } => text_expr(e, sql, position),
        Expr::UnaryOp { .. } => unary_expr(e, sql, position),
        Expr::BinaryOp { .. } => binary_expr(e, sql, position),
        Expr::InList { .. } => list_expr(e, sql, position),
        Expr::Subquery(..) => query_expr(e, sql, position),
        Expr::Exists { .. } => query_expr(e, sql, position),
        Expr::InSubquery { .. } => query_expr(e, sql, position),
        Expr::AnyOp { .. } => any_expr(e, sql, position),
        Expr::AllOp { .. } => all_expr(e, sql, position),
        Expr::Tuple(_) => Err(unsupported_error("row values are supported only in comparisons and IN predicates"@, position)),
        Expr::Function(..) => call_expr(e, sql, position),
        _ => Err(unsupported_error("this SQL expression is not supported yet"@, position)),
    }
}

/// The result is its outermost layer over the results of its parts.
pub proof fn unfold_converted_expr(e: Expr, sql: Seq<char>)
    ensures
        converted_expr(e, sql) == converted_expr_layer(e, sql),
{
}

/// A select list, from an item on.
pub closed spec fn items_of(
    l: Seq<SelectItem>,
    sql: Seq<char>,
    i: int,
    done: Seq<ParsedProjectionView>,
) -> Checked<Seq<ParsedProjectionView>>
    decreases l, 0int, l.len() - i,
{
    if i < 0 || i >= l.len() {
        Ok(done)
    } else {
        match l[i] {
            SelectItem::Wildcard(_) => items_of(l, sql, i + 1, done.push(ParsedProjectionView::Wildcard)),
            SelectItem::UnnamedExpr(e) => match converted_expr(e, sql) {
                Err(x) => Err(x),
                Ok(b) => items_of(l, sql, i + 1, done.push(ParsedProjectionView::Expression { expr: b, alias: None })),
            },
            SelectItem::ExprWithAlias { expr, alias } => match converted_expr(expr, sql) {
                Err(x) => Err(x),
                Ok(b) => items_of(
                    l,
                    sql,
                    i + 1,
                    done.push(ParsedProjectionView::Expression { expr: b, alias: Some(ident_of(alias, sql)) }),
                ),
            },
            _ => Err(unsupported_error("qualified wildcards and multiple aliases are not supported yet"@, None)),
        }
    }
}

/// One layer of [`items_of`], over the results of its parts.
pub open spec fn items_of_layer(
    l: Seq<SelectItem>,
    sql: Seq<char>,
    i: int,
    done: Seq<ParsedProjectionView>,
) -> Checked<Seq<ParsedProjectionView>> {
    if i < 0 || i >= l.len() {
        Ok(done)
    } else {
        match l[i] {
            SelectItem::Wildcard(_) => items_of(l, sql, i + 1, done.push(ParsedProjectionView::Wildcard)),
            SelectItem::UnnamedExpr(e) => match converted_expr(e, sql) {
                Err(x) => Err(x),
                Ok(b) => items_of(l, sql, i + 1, done.push(ParsedProjectionView::Expression { expr: b, alias: None })),
            },
            SelectItem::ExprWithAlias { expr, alias } => match converted_expr(expr, sql) {
                Err(x) => Err(x),
                Ok(b) => items_of(
                    l,
                    sql,
                    i + 1,
                    done.push(ParsedProjectionView::Expression { expr: b, alias: Some(ident_of(alias, sql)) }),
                ),
            },
            _ => Err(unsupported_error("qualified wildcards and multiple aliases are not supported yet"@, None)),
        }
    }
}

/// The result is its outermost layer over the results of its parts.
pub proof fn unfold_items_of(l: Seq<SelectItem>, sql: Seq<char>, i: int, done: Seq<ParsedProjectionView>)
    ensures
        items_of(l, sql, i, done) == items_of_layer(l, sql, i, done),
{
}

/// The windows of a WINDOW clause, from one of them on.
pub closed spec fn windows_of(
    l: Seq<NamedWindowDefinition>,
    sql: Seq<char>,
    i: int,
    done: Seq<WindowDefinitionView>,
) -> Checked<Seq<WindowDefinitionView>>
    decreases l, 0int, l.len() - i,
{
    if i < 0 || i >= l.len() {
        Ok(done)
    } else if window_place(done, ident_of(l[i].0, sql).name, 0) is Some {
        Err(error_at("42P20"@, "window "@ + ident_of(l[i].0, sql).name + " is already defined"@, ident_of(l[i].0, sql).position))
    } else {
        match l[i].1 {
            NamedWindowExpr::NamedWindow(name) => match window_named(ident_of(name, sql), done) {
                Err(x) => Err(x),
                Ok(spec) => windows_of(l, sql, i + 1, done.push(WindowDefinitionView { name: ident_of(l[i].0, sql), spec })),
            },
            NamedWindowExpr::WindowSpec(w) => match window_spec_of(w, sql) {
                Err(x) => Err(x),
                Ok(own) => match inherited(own, done) {
                    Err(x) => Err(x),
                    Ok(spec) => windows_of(l, sql, i + 1, done.push(WindowDefinitionView { name: ident_of(l[i].0, sql), spec })),
                },
            },
        }
    }
}

/// One layer of [`windows_of`], over the results of its parts.
pub open spec fn windows_of_layer(
    l: Seq<NamedWindowDefinition>,
    sql: Seq<char>,
    i: int,
    done: Seq<WindowDefinitionView>,
) -> Checked<Seq<WindowDefinitionView>> {
    if i < 0 || i >= l.len() {
        Ok(done)
    } else if window_place(done, ident_of(l[i].0, sql).name, 0) is Some {
        Err(error_at("42P20"@, "window "@ + ident_of(l[i].0, sql).name + " is already defined"@, ident_of(l[i].0, sql).position))
    } else {
        match l[i].1 {
            NamedWindowExpr::NamedWindow(name) => match window_named(ident_of(name, sql), done) {
                Err(x) => Err(x),
                Ok(spec) => windows_of(l, sql, i + 1, done.push(WindowDefinitionView { name: ident_of(l[i].0, sql), spec })),
            },
            NamedWindowExpr::WindowSpec(w) => match window_spec_of(w, sql) {
                Err(x) => Err(x),
                Ok(own) => match inherited(own, done) {
                    Err(x) => Err(x),
                    Ok(spec) => windows_of(l, sql, i + 1, done.push(WindowDefinitionView { name: ident_of(l[i].0, sql), spec })),
                },
            },
        }
    }
}

/// The result is its outermost layer over the results of its parts.
pub proof fn unfold_windows_of(l: Seq<NamedWindowDefinition>, sql: Seq<char>, i: int, done: Seq<WindowDefinitionView>)
    ensures
        windows_of(l, sql, i, done) == windows_of_layer(l, sql, i, done),
{
}

/// Joins, from one of them on.
pub closed spec fn joins_of(l: Seq<Join>, sql: Seq<char>, i: int, done: Seq<ParsedJoinView>) -> Checked<Seq<ParsedJoinView>>
    decreases l, 0int, l.len() - i,
{
    if i < 0 || i >= l.len() {
        Ok(done)
    } else if l[i].global {
        Err(unsupported_error("GLOBAL joins are not supported"@, None))
    } else {
        match l[i].join_operator {
            JoinOperator::Join(JoinConstraint::On(on)) | JoinOperator::Inner(
                JoinConstraint::On(on),
            ) => match join_source_of(l[i].relation, sql) {
                Err(x) => Err(x),
                Ok(source) => match converted_expr(on, sql) {
                    Err(x) => Err(x),
                    Ok(b) => joins_of(l, sql, i + 1, done.push(ParsedJoinView { source, kind: JoinKind::Inner, on: b })),
                },
            },
            JoinOperator::Left(JoinConstraint::On(on)) | JoinOperator::LeftOuter(
                JoinConstraint::On(on),
            ) => match join_source_of(l[i].relation, sql) {
                Err(x) => Err(x),
                Ok(source) => match converted_expr(on, sql) {
                    Err(x) => Err(x),
                    Ok(b) => joins_of(l, sql, i + 1, done.push(ParsedJoinView { source, kind: JoinKind::Left, on: b })),
                },
            },
            JoinOperator::Join(_) | JoinOperator::Inner(_) | JoinOperator::Left(_) | JoinOperator::LeftOuter(_) => Err(
                unsupported_error("joins require an ON predicate"@, None),
            ),
            _ => Err(unsupported_error("only INNER and LEFT joins are supported"@, None)),
        }
    }
}

/// One layer of [`joins_of`], over the results of its parts.
pub open spec fn joins_of_layer(l: Seq<Join>, sql: Seq<char>, i: int, done: Seq<ParsedJoinView>) -> Checked<Seq<ParsedJoinView>> {
    if i < 0 || i >= l.len() {
        Ok(done)
    } else if l[i].global {
        Err(unsupported_error("GLOBAL joins are not supported"@, None))
    } else {
        match l[i].join_operator {
            JoinOperator::Join(JoinConstraint::On(on)) | JoinOperator::Inner(
                JoinConstraint::On(on),
            ) => match join_source_of(l[i].relation, sql) {
                Err(x) => Err(x),
                Ok(source) => match converted_expr(on, sql) {
                    Err(x) => Err(x),
                    Ok(b) => joins_of(l, sql, i + 1, done.push(ParsedJoinView { source, kind: JoinKind::Inner, on: b })),
                },
            },
            JoinOperator::Left(JoinConstraint::On(on)) | JoinOperator::LeftOuter(
                JoinConstraint::On(on),
            ) => match join_source_of(l[i].relation, sql) {
                Err(x) => Err(x),
                Ok(source) => match converted_expr(on, sql) {
                    Err(x) => Err(x),
                    Ok(b) => joins_of(l, sql, i + 1, done.push(ParsedJoinView { source, kind: JoinKind::Left, on: b })),
                },
            },
            JoinOperator::Join(_) | JoinOperator::Inner(_) | JoinOperator::Left(_) | JoinOperator::LeftOuter(_) => Err(
                unsupported_error("joins require an ON predicate"@, None),
            ),
            _ => Err(unsupported_error("only INNER and LEFT joins are supported"@, None)),
        }
    }
}

/// The result is its outermost layer over the results of its parts.
pub proof fn unfold_joins_of(l: Seq<Join>, sql: Seq<char>, i: int, done: Seq<ParsedJoinView>)
    ensures
        joins_of(l, sql, i, done) == joins_of_layer(l, sql, i, done),
{
}

/// A source of a FROM clause.
pub closed spec fn join_source_of(t: TableFactor, sql: Seq<char>) -> Checked<ParsedJoinSourceView>
    decreases t, 1int, 0int,
{
    match t {
        TableFactor::Table { .. } => match table_of(t, sql) {
            Err(x) => Err(x),
            Ok(table) => Ok(ParsedJoinSourceView::Table(table)),
        },
        TableFactor::Derived { lateral, subquery, alias, sample } => if sample is Some {
            Err(unsupported_error("TABLESAMPLE on derived tables is not supported yet"@, None))
        } else {
            match alias {
                None => Err(error(SYNTAX_ERROR@, "derived tables require an explicit relation alias"@)),
                Some(alias) => if alias.at is Some {
                    Err(unsupported_error("AT aliases on derived tables are not supported"@, None))
                } else if typed_columns(alias.columns@) {
                    Err(unsupported_error("typed column aliases on derived tables are not supported"@, None))
                } else {
                    match converted_query(*subquery, sql) {
                        Err(x) => Err(x),
                        Ok(query) => Ok(
                            ParsedJoinSourceView::Derived {
                                lateral,
                                query: Box::new(query),
                                alias: ident_of(alias.name, sql),
                                columns: column_names(alias.columns@, sql),
                            },
                        ),
                    }
                },
            }
        },
        _ => Err(unsupported_error("table functions and this join source are not supported yet"@, None)),
    }
}

/// One layer of [`join_source_of`], over the results of its parts.
pub open spec fn join_source_of_layer(t: TableFactor, sql: Seq<char>) -> Checked<ParsedJoinSourceView> {
    match t {
        TableFactor::Table { .. } => match table_of(t, sql) {
            Err(x) => Err(x),
            Ok(table) => Ok(ParsedJoinSourceView::Table(table)),
        },
        TableFactor::Derived { lateral, subquery, alias, sample } => if sample is Some {
            Err(unsupported_error("TABLESAMPLE on derived tables is not supported yet"@, None))
        } else {
            match alias {
                None => Err(error(SYNTAX_ERROR@, "derived tables require an explicit relation alias"@)),
                Some(alias) => if alias.at is Some {
                    Err(unsupported_error("AT aliases on derived tables are not supported"@, None))
                } else if typed_columns(alias.columns@) {
                    Err(unsupported_error("typed column aliases on derived tables are not supported"@, None))
                } else {
                    match converted_query(*subquery, sql) {
                        Err(x) => Err(x),
                        Ok(query) => Ok(
                            ParsedJoinSourceView::Derived {
                                lateral,
                                query: Box::new(query),
                                alias: ident_of(alias.name, sql),
                                columns: column_names(alias.columns@, sql),
                            },
                        ),
                    }
                },
            }
        },
        _ => Err(unsupported_error("table functions and this join source are not supported yet"@, None)),
    }
}

/// The result is its outermost layer over the results of its parts.
pub proof fn unfold_join_source_of(t: TableFactor, sql: Seq<char>)
    ensures
        join_source_of(t, sql) == join_source_of_layer(t, sql),
{
}

/// A FROM clause.
pub closed spec fn from_of(t: TableWithJoins, sql: Seq<char>) -> Checked<(ParsedTableView, Seq<ParsedJoinView>)>
    decreases t, 1int, 0int,
{
    match table_of(t.relation, sql) {
        Err(x) => Err(x),
        Ok(table) => match joins_of(t.joins@, sql, 0, Seq::empty()) {
            Err(x) => Err(x),
            Ok(joins) => Ok((table, joins)),
        },
    }
}

/// One layer of [`from_of`], over the results of its parts.
pub open spec fn from_of_layer(t: TableWithJoins, sql: Seq<char>) -> Checked<(ParsedTableView, Seq<ParsedJoinView>)> {
    match table_of(t.relation, sql) {
        Err(x) => Err(x),
        Ok(table) => match joins_of(t.joins@, sql, 0, Seq::empty()) {
            Err(x) => Err(x),
            Ok(joins) => Ok((table, joins)),
        },
    }
}

/// The result is its outermost layer over the results of its parts.
pub proof fn unfold_from_of(t: TableWithJoins, sql: Seq<char>)
    ensures
        from_of(t, sql) == from_of_layer(t, sql),
{
}

/// A GROUP BY clause.
pub closed spec fn groups_of(g: GroupByExpr, sql: Seq<char>) -> Checked<Seq<ParsedExprView>>
    decreases g, 1int, 0int,
{
    match g {
        GroupByExpr::Expressions(l, modifiers) => if modifiers@.len() > 0 {
            Err(unsupported_error("GROUP BY modifiers are not supported yet"@, None))
        } else {
            converted_exprs(l@, sql, 0, Seq::empty())
        },
        GroupByExpr::All(_) => Err(unsupported_error("GROUP BY ALL is not supported yet"@, None)),
    }
}

/// One layer of [`groups_of`], over the results of its parts.
pub open spec fn groups_of_layer(g: GroupByExpr, sql: Seq<char>) -> Checked<Seq<ParsedExprView>> {
    match g {
        GroupByExpr::Expressions(l, modifiers) => if modifiers@.len() > 0 {
            Err(unsupported_error("GROUP BY modifiers are not supported yet"@, None))
        } else {
            converted_exprs(l@, sql, 0, Seq::empty())
        },
        GroupByExpr::All(_) => Err(unsupported_error("GROUP BY ALL is not supported yet"@, None)),
    }
}

/// The result is its outermost layer over the results of its parts.
pub proof fn unfold_groups_of(g: GroupByExpr, sql: Seq<char>)
    ensures
        groups_of(g, sql) == groups_of_layer(g, sql),
{
}

/// A call of a routine.
pub closed spec fn invocation_of(f: Function, sql: Seq<char>) -> Checked<(ParsedObjectNameView, Seq<ParsedExprView>)>
    decreases f, 1int, 0int,
{
    if f.uses_odbc_syntax || !(f.parameters is None) || f.filter is Some || f.null_treatment is Some || f.over is Some
        || f.within_group@.len() > 0 {
        Err(unsupported_error("routine invocation options are not supported"@, None))
    } else {
        match f.args {
            FunctionArguments::List(list) => if list.duplicate_treatment is Some || list.clauses@.len() > 0 {
                Err(unsupported_error("routine argument modifiers are not supported"@, None))
            } else {
                match arguments_in(
                    list.args@,
                    sql,
                    "routine calls support positional expression arguments only"@,
                    None,
                    0,
                    Seq::empty(),
                ) {
                    Err(x) => Err(x),
                    Ok(arguments) => match object_name_of(f.name, sql) {
                        Err(x) => Err(x),
                        Ok(name) => Ok((name, arguments)),
                    },
                }
            },
            _ => Err(unsupported_error("routine invocation requires a parenthesized argument list"@, None)),
        }
    }
}

/// One layer of [`invocation_of`], over the results of its parts.
pub open spec fn invocation_of_layer(f: Function, sql: Seq<char>) -> Checked<(ParsedObjectNameView, Seq<ParsedExprView>)> {
    if f.uses_odbc_syntax || !(f.parameters is None) || f.filter is Some || f.null_treatment is Some || f.over is Some
        || f.within_group@.len() > 0 {
        Err(unsupported_error("routine invocation options are not supported"@, None))
    } else {
        match f.args {
            FunctionArguments::List(list) => if list.duplicate_treatment is Some || list.clauses@.len() > 0 {
                Err(unsupported_error("routine argument modifiers are not supported"@, None))
            } else {
                match arguments_in(
                    list.args@,
                    sql,
                    "routine calls support positional expression arguments only"@,
                    None,
                    0,
                    Seq::empty(),
                ) {
                    Err(x) => Err(x),
                    Ok(arguments) => match object_name_of(f.name, sql) {
                        Err(x) => Err(x),
                        Ok(name) => Ok((name, arguments)),
                    },
                }
            },
            _ => Err(unsupported_error("routine invocation requires a parenthesized argument list"@, None)),
        }
    }
}

/// The result is its outermost layer over the results of its parts.
pub proof fn unfold_invocation_of(f: Function, sql: Seq<char>)
    ensures
        invocation_of(f, sql) == invocation_of_layer(f, sql),
{
}

/// A SELECT of one routine call.
pub closed spec fn routine_of(f: Function, alias: Option<ParsedIdentifierView>, sql: Seq<char>) -> Checked<ParsedStatementView>
    decreases f, 2int, 0int,
{
    match invocation_of(f, sql) {
        Err(x) => Err(x),
        Ok((name, arguments)) => if notifies(path_text(f.name)) {
            if arguments.len() != 2 {
                Err(error("42883"@, "function pg_notify does not accept "@ + decimal(arguments.len()) + " arguments"@))
            } else {
                Ok(ParsedStatementView::PgNotify { channel: arguments[0], payload: arguments[1], alias })
            }
        } else {
            match sequence_call(name) {
                Some(operation) => sequence_select(operation, arguments, alias),
                None => Ok(ParsedStatementView::RoutineSelect { name, arguments, alias }),
            }
        },
    }
}

/// One layer of [`routine_of`], over the results of its parts.
pub open spec fn routine_of_layer(f: Function, alias: Option<ParsedIdentifierView>, sql: Seq<char>) -> Checked<ParsedStatementView> {
    match invocation_of(f, sql) {
        Err(x) => Err(x),
        Ok((name, arguments)) => if notifies(path_text(f.name)) {
            if arguments.len() != 2 {
                Err(error("42883"@, "function pg_notify does not accept "@ + decimal(arguments.len()) + " arguments"@))
            } else {
                Ok(ParsedStatementView::PgNotify { channel: arguments[0], payload: arguments[1], alias })
            }
        } else {
            match sequence_call(name) {
                Some(operation) => sequence_select(operation, arguments, alias),
                None => Ok(ParsedStatementView::RoutineSelect { name, arguments, alias }),
            }
        },
    }
}

/// The result is its outermost layer over the results of its parts.
pub proof fn unfold_routine_of(f: Function, alias: Option<ParsedIdentifierView>, sql: Seq<char>)
    ensures
        routine_of(f, alias, sql) == routine_of_layer(f, alias, sql),
{
}

/// A SELECT of scalars.
pub closed spec fn scalar_items(l: Seq<SelectItem>, sql: Seq<char>) -> Checked<ParsedStatementView>
    decreases l, 1int, 0int,
{
    match items_of(l, sql, 0, Seq::empty()) {
        Err(x) => Err(x),
        Ok(projection) => if any_wildcard(projection, 0) {
            Err(unsupported_error("SELECT without FROM does not support wildcards"@, None))
        } else {
            Ok(ParsedStatementView::ScalarSelect { projection })
        },
    }
}

/// One layer of [`scalar_items`], over the results of its parts.
pub open spec fn scalar_items_layer(l: Seq<SelectItem>, sql: Seq<char>) -> Checked<ParsedStatementView> {
    match items_of(l, sql, 0, Seq::empty()) {
        Err(x) => Err(x),
        Ok(projection) => if any_wildcard(projection, 0) {
            Err(unsupported_error("SELECT without FROM does not support wildcards"@, None))
        } else {
            Ok(ParsedStatementView::ScalarSelect { projection })
        },
    }
}

/// The result is its outermost layer over the results of its parts.
pub proof fn unfold_scalar_items(l: Seq<SelectItem>, sql: Seq<char>)
    ensures
        scalar_items(l, sql) == scalar_items_layer(l, sql),
{
}

/// The single item of a SELECT without tables, where it calls a routine.
pub closed spec fn routine_item(l: Seq<SelectItem>, sql: Seq<char>) -> Checked<Option<ParsedStatementView>>
    decreases l, 1int, 0int,
{
    if l.len() != 1 {
        Ok(None)
    } else {
        match l[0] {
            SelectItem::UnnamedExpr(Expr::Function(f)) => if is_routine(path_text(f.name)) {
                match routine_of(f, None, sql) {
                    Err(x) => Err(x),
                    Ok(s) => Ok(Some(s)),
                }
            } else {
                Ok(None)
            },
            SelectItem::ExprWithAlias { expr: Expr::Function(f), alias } => if is_routine(path_text(f.name)) {
                match routine_of(f, Some(ident_of(alias, sql)), sql) {
                    Err(x) => Err(x),
                    Ok(s) => Ok(Some(s)),
                }
            } else {
                Ok(None)
            },
            SelectItem::UnnamedExpr(_) | SelectItem::ExprWithAlias { .. } => Ok(None),
            _ => Err(unsupported_error("scalar SELECT does not support wildcards"@, None)),
        }
    }
}

/// One layer of [`routine_item`], over the results of its parts.
pub open spec fn routine_item_layer(l: Seq<SelectItem>, sql: Seq<char>) -> Checked<Option<ParsedStatementView>> {
    if l.len() != 1 {
        Ok(None)
    } else {
        match l[0] {
            SelectItem::UnnamedExpr(Expr::Function(f)) => if is_routine(path_text(f.name)) {
                match routine_of(f, None, sql) {
                    Err(x) => Err(x),
                    Ok(s) => Ok(Some(s)),
                }
            } else {
                Ok(None)
            },
            SelectItem::ExprWithAlias { expr: Expr::Function(f), alias } => if is_routine(path_text(f.name)) {
                match routine_of(f, Some(ident_of(alias, sql)), sql) {
                    Err(x) => Err(x),
                    Ok(s) => Ok(Some(s)),
                }
            } else {
                Ok(None)
            },
            SelectItem::UnnamedExpr(_) | SelectItem::ExprWithAlias { .. } => Ok(None),
            _ => Err(unsupported_error("scalar SELECT does not support wildcards"@, None)),
        }
    }
}

/// The result is its outermost layer over the results of its parts.
pub proof fn unfold_routine_item(l: Seq<SelectItem>, sql: Seq<char>)
    ensures
        routine_item(l, sql) == routine_item_layer(l, sql),
{
}

/// A SELECT without tables.
pub closed spec fn routine_select(s: Select, page: PageView, sql: Seq<char>) -> Checked<ParsedStatementView>
    decreases s, 1int, 0int,
{
    if s.selection is Some || s.having is Some || page.order_by.len() > 0 || page.offset is Some || page.limit is Some
        || !no_groups(s.group_by) {
        Err(unsupported_error("scalar routine SELECT does not support query clauses"@, None))
    } else {
        match routine_item(s.projection@, sql) {
            Err(x) => Err(x),
            Ok(found) => match found {
                Some(st) => Ok(st),
                None => scalar_items(s.projection@, sql),
            },
        }
    }
}

/// One layer of [`routine_select`], over the results of its parts.
pub open spec fn routine_select_layer(s: Select, page: PageView, sql: Seq<char>) -> Checked<ParsedStatementView> {
    if s.selection is Some || s.having is Some || page.order_by.len() > 0 || page.offset is Some || page.limit is Some
        || !no_groups(s.group_by) {
        Err(unsupported_error("scalar routine SELECT does not support query clauses"@, None))
    } else {
        match routine_item(s.projection@, sql) {
            Err(x) => Err(x),
            Ok(found) => match found {
                Some(st) => Ok(st),
                None => scalar_items(s.projection@, sql),
            },
        }
    }
}

/// The result is its outermost layer over the results of its parts.
pub proof fn unfold_routine_select(s: Select, page: PageView, sql: Seq<char>)
    ensures
        routine_select(s, page, sql) == routine_select_layer(s, page, sql),
{
}

/// The clauses of a SELECT.
pub closed spec fn clauses_of(s: Select, page: PageView, sql: Seq<char>) -> Checked<ClausesView>
    decreases s, 1int, 0int,
{
    match items_of(s.projection@, sql, 0, Seq::empty()) {
        Err(x) => Err(x),
        Ok(projection) => match converted_some(s.selection, sql) {
            Err(x) => Err(x),
            Ok(filter) => match groups_of(s.group_by, sql) {
                Err(x) => Err(x),
                Ok(group_by) => match converted_some(s.having, sql) {
                    Err(x) => Err(x),
                    Ok(having) => Ok(ClausesView { projection, filter, group_by, having, order_by: page.order_by }),
                },
            },
        },
    }
}

/// One layer of [`clauses_of`], over the results of its parts.
pub open spec fn clauses_of_layer(s: Select, page: PageView, sql: Seq<char>) -> Checked<ClausesView> {
    match items_of(s.projection@, sql, 0, Seq::empty()) {
        Err(x) => Err(x),
        Ok(projection) => match converted_some(s.selection, sql) {
            Err(x) => Err(x),
            Ok(filter) => match groups_of(s.group_by, sql) {
                Err(x) => Err(x),
                Ok(group_by) => match converted_some(s.having, sql) {
                    Err(x) => Err(x),
                    Ok(having) => Ok(ClausesView { projection, filter, group_by, having, order_by: page.order_by }),
                },
            },
        },
    }
}

/// The result is its outermost layer over the results of its parts.
pub proof fn unfold_clauses_of(s: Select, page: PageView, sql: Seq<char>)
    ensures
        clauses_of(s, page, sql) == clauses_of_layer(s, page, sql),
{
}

/// A SELECT.
pub closed spec fn select_of(s: Select, top_taken: bool, page: PageView, sql: Seq<char>) -> Checked<ParsedStatementView>
    decreases s, 2int, 0int,
{
    match distinct_of(s.distinct) {
        Err(x) => Err(x),
        Ok(distinct) => if extended(s, top_taken) {
            Err(unsupported_error("extended SELECT clauses are not supported yet"@, None))
        } else if s.from@.len() == 0 {
            if distinct {
                Err(unsupported_error("SELECT DISTINCT without FROM is not supported yet"@, None))
            } else if s.named_window@.len() > 0 {
                Err(unsupported_error("named WINDOW clauses without FROM are not supported yet"@, None))
            } else {
                routine_select(s, page, sql)
            }
        } else {
            match windows_of(s.named_window@, sql, 0, Seq::empty()) {
                Err(x) => Err(x),
                Ok(windows) => if s.from@.len() != 1 {
                    Err(unsupported_error("SELECT supports exactly one table"@, None))
                } else {
                    match clauses_of(s, page, sql) {
                        Err(x) => Err(x),
                        Ok(written) => match named_clauses(written, windows) {
                            Err(x) => Err(x),
                            Ok(clauses) => if advanced(distinct, s.from@[0], clauses) {
                                match from_of(s.from@[0], sql) {
                                    Err(x) => Err(x),
                                    Ok((table, joins)) => Ok(advanced_select(distinct, table, joins, clauses, page)),
                                }
                            } else {
                                match plain_table_of(s.from@[0], sql) {
                                    Err(x) => Err(x),
                                    Ok(table) => Ok(plain_select(table, clauses, page)),
                                }
                            },
                        },
                    }
                },
            }
        },
    }
}

/// One layer of [`select_of`], over the results of its parts.
pub open spec fn select_of_layer(s: Select, top_taken: bool, page: PageView, sql: Seq<char>) -> Checked<ParsedStatementView> {
    match distinct_of(s.distinct) {
        Err(x) => Err(x),
        Ok(distinct) => if extended(s, top_taken) {
            Err(unsupported_error("extended SELECT clauses are not supported yet"@, None))
        } else if s.from@.len() == 0 {
            if distinct {
                Err(unsupported_error("SELECT DISTINCT without FROM is not supported yet"@, None))
            } else if s.named_window@.len() > 0 {
                Err(unsupported_error("named WINDOW clauses without FROM are not supported yet"@, None))
            } else {
                routine_select(s, page, sql)
            }
        } else {
            match windows_of(s.named_window@, sql, 0, Seq::empty()) {
                Err(x) => Err(x),
                Ok(windows) => if s.from@.len() != 1 {
                    Err(unsupported_error("SELECT supports exactly one table"@, None))
                } else {
                    match clauses_of(s, page, sql) {
                        Err(x) => Err(x),
                        Ok(written) => match named_clauses(written, windows) {
                            Err(x) => Err(x),
                            Ok(clauses) => if advanced(distinct, s.from@[0], clauses) {
                                match from_of(s.from@[0], sql) {
                                    Err(x) => Err(x),
                                    Ok((table, joins)) => Ok(advanced_select(distinct, table, joins, clauses, page)),
                                }
                            } else {
                                match plain_table_of(s.from@[0], sql) {
                                    Err(x) => Err(x),
                                    Ok(table) => Ok(plain_select(table, clauses, page)),
                                }
                            },
                        },
                    }
                },
            }
        },
    }
}

/// The result is its outermost layer over the results of its parts.
pub proof fn unfold_select_of(s: Select, top_taken: bool, page: PageView, sql: Seq<char>)
    ensures
        select_of(s, top_taken, page, sql) == select_of_layer(s, top_taken, page, sql),
{
}

/// An operand of a set operation.
pub closed spec fn set_operand(e: SetExpr, sql: Seq<char>, depth: usize) -> Checked<ParsedStatementView>
    decreases e, 1int, 0int,
{
    match e {
        SetExpr::Select(s) => select_of(*s, false, no_page(), sql),
        SetExpr::Query(q) => converted_query(*q, sql),
        SetExpr::SetOperation { .. } => set_operation(e, no_page(), sql, depth),
        SetExpr::Values(_) => Err(unsupported_error("VALUES operands are not supported in set operations yet"@, None)),
        _ => Err(unsupported_error("this query body is not supported in a set operation"@, None)),
    }
}

/// One layer of [`set_operand`], over the results of its parts.
pub open spec fn set_operand_layer(e: SetExpr, sql: Seq<char>, depth: usize) -> Checked<ParsedStatementView> {
    match e {
        SetExpr::Select(s) => select_of(*s, false, no_page(), sql),
        SetExpr::Query(q) => converted_query(*q, sql),
        SetExpr::SetOperation { .. } => set_operation(e, no_page(), sql, depth),
        SetExpr::Values(_) => Err(unsupported_error("VALUES operands are not supported in set operations yet"@, None)),
        _ => Err(unsupported_error("this query body is not supported in a set operation"@, None)),
    }
}

/// The result is its outermost layer over the results of its parts.
pub proof fn unfold_set_operand(e: SetExpr, sql: Seq<char>, depth: usize)
    ensures
        set_operand(e, sql, depth) == set_operand_layer(e, sql, depth),
{
}

/// A set operation.
pub closed spec fn set_operation(e: SetExpr, page: PageView, sql: Seq<char>, depth: usize) -> Checked<ParsedStatementView>
    decreases e, 0int, 0int,
{
    match e {
        SetExpr::SetOperation { left, op, set_quantifier, right } => if depth >= 64 {
            Err(error("54001"@, "set operation nesting exceeds the maximum depth of 64"@))
        } else {
            match set_operator(op) {
                Err(x) => Err(x),
                Ok(operator) => match set_all(set_quantifier) {
                    Err(x) => Err(x),
                    Ok(all) => match set_operand(*left, sql, (depth + 1) as usize) {
                        Err(x) => Err(x),
                        Ok(a) => match set_operand(*right, sql, (depth + 1) as usize) {
                            Err(x) => Err(x),
                            Ok(b) => Ok(
                                ParsedStatementView::SetOperation {
                                    left: Box::new(a),
                                    operator,
                                    all,
                                    right: Box::new(b),
                                    order_by: page.order_by,
                                    offset: page.offset,
                                    limit: page.limit,
                                },
                            ),
                        },
                    },
                },
            }
        },
        _ => Err(unsupported_error("this query body is not supported in a set operation"@, None)),
    }
}

/// One layer of [`set_operation`], over the results of its parts.
pub open spec fn set_operation_layer(e: SetExpr, page: PageView, sql: Seq<char>, depth: usize) -> Checked<ParsedStatementView> {
    match e {
        SetExpr::SetOperation { left, op, set_quantifier, right } => if depth >= 64 {
            Err(error("54001"@, "set operation nesting exceeds the maximum depth of 64"@))
        } else {
            match set_operator(op) {
                Err(x) => Err(x),
                Ok(operator) => match set_all(set_quantifier) {
                    Err(x) => Err(x),
                    Ok(all) => match set_operand(*left, sql, (depth + 1) as usize) {
                        Err(x) => Err(x),
                        Ok(a) => match set_operand(*right, sql, (depth + 1) as usize) {
                            Err(x) => Err(x),
                            Ok(b) => Ok(
                                ParsedStatementView::SetOperation {
                                    left: Box::new(a),
                                    operator,
                                    all,
                                    right: Box::new(b),
                                    order_by: page.order_by,
                                    offset: page.offset,
                                    limit: page.limit,
                                },
                            ),
                        },
                    },
                },
            }
        },
        _ => Err(unsupported_error("this query body is not supported in a set operation"@, None)),
    }
}

/// The result is its outermost layer over the results of its parts.
pub proof fn unfold_set_operation(e: SetExpr, page: PageView, sql: Seq<char>, depth: usize)
    ensures
        set_operation(e, page, sql, depth) == set_operation_layer(e, page, sql, depth),
{
}

/// The rows that TOP asks for.
pub closed spec fn top_of(t: Option<Top>, sql: Seq<char>) -> Checked<Option<ParsedExprView>>
    decreases t, 1int, 0int,
{
    match t {
        None => Ok(None),
        Some(t) => if t.with_ties || t.percent {
            Err(unsupported_error("TOP PERCENT and TOP WITH TIES are not supported"@, None))
        } else {
            match t.quantity {
                None => Err(unsupported_error("TOP requires an explicit row count"@, None)),
                Some(TopQuantity::Expr(e)) => match converted_expr(e, sql) {
                    Err(x) => Err(x),
                    Ok(b) => Ok(Some(b)),
                },
                Some(TopQuantity::Constant(n)) => if n <= i64::MAX {
                    Ok(Some(integer_literal(n as i64)))
                } else {
                    Err(error("22003"@, "TOP value is out of range"@))
                },
            }
        },
    }
}

/// One layer of [`top_of`], over the results of its parts.
pub open spec fn top_of_layer(t: Option<Top>, sql: Seq<char>) -> Checked<Option<ParsedExprView>> {
    match t {
        None => Ok(None),
        Some(t) => if t.with_ties || t.percent {
            Err(unsupported_error("TOP PERCENT and TOP WITH TIES are not supported"@, None))
        } else {
            match t.quantity {
                None => Err(unsupported_error("TOP requires an explicit row count"@, None)),
                Some(TopQuantity::Expr(e)) => match converted_expr(e, sql) {
                    Err(x) => Err(x),
                    Ok(b) => Ok(Some(b)),
                },
                Some(TopQuantity::Constant(n)) => if n <= i64::MAX {
                    Ok(Some(integer_literal(n as i64)))
                } else {
                    Err(error("22003"@, "TOP value is out of range"@))
                },
            }
        },
    }
}

/// The result is its outermost layer over the results of its parts.
pub proof fn unfold_top_of(t: Option<Top>, sql: Seq<char>)
    ensures
        top_of(t, sql) == top_of_layer(t, sql),
{
}

/// The rows that the body of a query asks for.
pub closed spec fn body_top(b: SetExpr, sql: Seq<char>) -> Checked<Option<ParsedExprView>>
    decreases b, 1int, 0int,
{
    match b {
        SetExpr::Select(s) => top_of(s.top, sql),
        _ => Ok(None),
    }
}

/// One layer of [`body_top`], over the results of its parts.
pub open spec fn body_top_layer(b: SetExpr, sql: Seq<char>) -> Checked<Option<ParsedExprView>> {
    match b {
        SetExpr::Select(s) => top_of(s.top, sql),
        _ => Ok(None),
    }
}

/// The result is its outermost layer over the results of its parts.
pub proof fn unfold_body_top(b: SetExpr, sql: Seq<char>)
    ensures
        body_top(b, sql) == body_top_layer(b, sql),
{
}

/// An ORDER BY clause.
pub closed spec fn order_by_of(o: Option<OrderBy>, sql: Seq<char>) -> Checked<Seq<ParsedOrderView>>
    decreases o, 1int, 0int,
{
    match o {
        None => Ok(Seq::empty()),
        Some(o) => if o.interpolate is Some {
            Err(unsupported_error("ORDER BY INTERPOLATE is not supported"@, None))
        } else {
            match o.kind {
                OrderByKind::Expressions(l) => orders_of(l@, sql, 0, Seq::empty()),
                OrderByKind::All(_) => Err(unsupported_error("ORDER BY ALL is not supported"@, None)),
            }
        },
    }
}

/// One layer of [`order_by_of`], over the results of its parts.
pub open spec fn order_by_of_layer(o: Option<OrderBy>, sql: Seq<char>) -> Checked<Seq<ParsedOrderView>> {
    match o {
        None => Ok(Seq::empty()),
        Some(o) => if o.interpolate is Some {
            Err(unsupported_error("ORDER BY INTERPOLATE is not supported"@, None))
        } else {
            match o.kind {
                OrderByKind::Expressions(l) => orders_of(l@, sql, 0, Seq::empty()),
                OrderByKind::All(_) => Err(unsupported_error("ORDER BY ALL is not supported"@, None)),
            }
        },
    }
}

/// The result is its outermost layer over the results of its parts.
pub proof fn unfold_order_by_of(o: Option<OrderBy>, sql: Seq<char>)
    ensures
        order_by_of(o, sql) == order_by_of_layer(o, sql),
{
}

/// The rows that FETCH asks for.
pub closed spec fn fetch_of(f: Option<Fetch>, sql: Seq<char>) -> Checked<Option<ParsedExprView>>
    decreases f, 1int, 0int,
{
    match f {
        None => Ok(None),
        Some(f) => if f.with_ties || f.percent {
            Err(unsupported_error("FETCH PERCENT and FETCH WITH TIES are not supported"@, None))
        } else {
            match f.quantity {
                None => Ok(Some(integer_literal(1))),
                Some(e) => match converted_expr(e, sql) {
                    Err(x) => Err(x),
                    Ok(b) => Ok(Some(b)),
                },
            }
        },
    }
}

/// One layer of [`fetch_of`], over the results of its parts.
pub open spec fn fetch_of_layer(f: Option<Fetch>, sql: Seq<char>) -> Checked<Option<ParsedExprView>> {
    match f {
        None => Ok(None),
        Some(f) => if f.with_ties || f.percent {
            Err(unsupported_error("FETCH PERCENT and FETCH WITH TIES are not supported"@, None))
        } else {
            match f.quantity {
                None => Ok(Some(integer_literal(1))),
                Some(e) => match converted_expr(e, sql) {
                    Err(x) => Err(x),
                    Ok(b) => Ok(Some(b)),
                },
            }
        },
    }
}

/// The result is its outermost layer over the results of its parts.
pub proof fn unfold_fetch_of(f: Option<Fetch>, sql: Seq<char>)
    ensures
        fetch_of(f, sql) == fetch_of_layer(f, sql),
{
}

/// LIMIT and OFFSET.
pub closed spec fn limit_of(c: Option<LimitClause>, sql: Seq<char>) -> Checked<(Option<ParsedExprView>, Option<ParsedExprView>)>
    decreases c, 1int, 0int,
{
    match c {
        None => Ok((None, None)),
        Some(LimitClause::LimitOffset { limit, offset, limit_by }) => if limit_by@.len() > 0 {
            Err(unsupported_error("LIMIT BY and unrepresentable row-limit forms are not supported"@, None))
        } else {
            match converted_some(limit, sql) {
                Err(x) => Err(x),
                Ok(limit) => match offset {
                    None => Ok((limit, None)),
                    Some(o) => match converted_expr(o.value, sql) {
                        Err(x) => Err(x),
                        Ok(b) => Ok((limit, Some(b))),
                    },
                },
            }
        },
        Some(LimitClause::OffsetCommaLimit { offset, limit }) => match converted_expr(limit, sql) {
            Err(x) => Err(x),
            Ok(a) => match converted_expr(offset, sql) {
                Err(x) => Err(x),
                Ok(b) => Ok((Some(a), Some(b))),
            },
        },
    }
}

/// One layer of [`limit_of`], over the results of its parts.
pub open spec fn limit_of_layer(c: Option<LimitClause>, sql: Seq<char>) -> Checked<(Option<ParsedExprView>, Option<ParsedExprView>)> {
    match c {
        None => Ok((None, None)),
        Some(LimitClause::LimitOffset { limit, offset, limit_by }) => if limit_by@.len() > 0 {
            Err(unsupported_error("LIMIT BY and unrepresentable row-limit forms are not supported"@, None))
        } else {
            match converted_some(limit, sql) {
                Err(x) => Err(x),
                Ok(limit) => match offset {
                    None => Ok((limit, None)),
                    Some(o) => match converted_expr(o.value, sql) {
                        Err(x) => Err(x),
                        Ok(b) => Ok((limit, Some(b))),
                    },
                },
            }
        },
        Some(LimitClause::OffsetCommaLimit { offset, limit }) => match converted_expr(limit, sql) {
            Err(x) => Err(x),
            Ok(a) => match converted_expr(offset, sql) {
                Err(x) => Err(x),
                Ok(b) => Ok((Some(a), Some(b))),
            },
        },
    }
}

/// The result is its outermost layer over the results of its parts.
pub proof fn unfold_limit_of(c: Option<LimitClause>, sql: Seq<char>)
    ensures
        limit_of(c, sql) == limit_of_layer(c, sql),
{
}

/// The order and the page of a query.
pub closed spec fn page_of(q: Query, sql: Seq<char>) -> Checked<PageView>
    decreases q, 1int, 0int,
{
    match body_top(*q.body, sql) {
        Err(x) => Err(x),
        Ok(top) => match order_by_of(q.order_by, sql) {
            Err(x) => Err(x),
            Ok(order_by) => match fetch_of(q.fetch, sql) {
                Err(x) => Err(x),
                Ok(fetch) => match limit_of(q.limit_clause, sql) {
                    Err(x) => Err(x),
                    Ok((limit, offset)) => match one_limit(top, limit, fetch) {
                        Err(x) => Err(x),
                        Ok(limit) => Ok(PageView { order_by, offset, limit }),
                    },
                },
            },
        },
    }
}

/// One layer of [`page_of`], over the results of its parts.
pub open spec fn page_of_layer(q: Query, sql: Seq<char>) -> Checked<PageView> {
    match body_top(*q.body, sql) {
        Err(x) => Err(x),
        Ok(top) => match order_by_of(q.order_by, sql) {
            Err(x) => Err(x),
            Ok(order_by) => match fetch_of(q.fetch, sql) {
                Err(x) => Err(x),
                Ok(fetch) => match limit_of(q.limit_clause, sql) {
                    Err(x) => Err(x),
                    Ok((limit, offset)) => match one_limit(top, limit, fetch) {
                        Err(x) => Err(x),
                        Ok(limit) => Ok(PageView { order_by, offset, limit }),
                    },
                },
            },
        },
    }
}

/// The result is its outermost layer over the results of its parts.
pub proof fn unfold_page_of(q: Query, sql: Seq<char>)
    ensures
        page_of(q, sql) == page_of_layer(q, sql),
{
}

/// WITH queries, from one of them on.
pub closed spec fn ctes_of(l: Seq<Cte>, sql: Seq<char>, i: int, done: Seq<ParsedCteView>) -> Checked<Seq<ParsedCteView>>
    decreases l, 0int, l.len() - i,
{
    if i < 0 || i >= l.len() {
        Ok(done)
    } else if l[i].from is Some {
        Err(unsupported_error("CTE FROM modifiers are not supported"@, None))
    } else {
        match converted_query(*l[i].query, sql) {
            Err(x) => Err(x),
            Ok(query) => ctes_of(l, sql, i + 1, done.push(
                    ParsedCteView {
                        name: ident_of(l[i].alias.name, sql),
                        columns: column_names(l[i].alias.columns@, sql),
                        query: Box::new(query),
            })),
        }
    }
}

/// One layer of [`ctes_of`], over the results of its parts.
pub open spec fn ctes_of_layer(l: Seq<Cte>, sql: Seq<char>, i: int, done: Seq<ParsedCteView>) -> Checked<Seq<ParsedCteView>> {
    if i < 0 || i >= l.len() {
        Ok(done)
    } else if l[i].from is Some {
        Err(unsupported_error("CTE FROM modifiers are not supported"@, None))
    } else {
        match converted_query(*l[i].query, sql) {
            Err(x) => Err(x),
            Ok(query) => ctes_of(l, sql, i + 1, done.push(
                    ParsedCteView {
                        name: ident_of(l[i].alias.name, sql),
                        columns: column_names(l[i].alias.columns@, sql),
                        query: Box::new(query),
            })),
        }
    }
}

/// The result is its outermost layer over the results of its parts.
pub proof fn unfold_ctes_of(l: Seq<Cte>, sql: Seq<char>, i: int, done: Seq<ParsedCteView>)
    ensures
        ctes_of(l, sql, i, done) == ctes_of_layer(l, sql, i, done),
{
}

/// A statement with WITH queries.
pub closed spec fn with_of(w: Option<With>, body: ParsedStatementView, sql: Seq<char>) -> Checked<ParsedStatementView>
    decreases w, 1int, 0int,
{
    match w {
        None => Ok(body),
        Some(w) => match ctes_of(w.cte_tables@, sql, 0, Seq::empty()) {
            Err(x) => Err(x),
            Ok(ctes) => if ctes.len() == 0 {
                Err(error(SYNTAX_ERROR@, "WITH requires at least one CTE"@))
            } else {
                Ok(ParsedStatementView::With { recursive: w.recursive, ctes, body: Box::new(body) })
            },
        },
    }
}

/// One layer of [`with_of`], over the results of its parts.
pub open spec fn with_of_layer(w: Option<With>, body: ParsedStatementView, sql: Seq<char>) -> Checked<ParsedStatementView> {
    match w {
        None => Ok(body),
        Some(w) => match ctes_of(w.cte_tables@, sql, 0, Seq::empty()) {
            Err(x) => Err(x),
            Ok(ctes) => if ctes.len() == 0 {
                Err(error(SYNTAX_ERROR@, "WITH requires at least one CTE"@))
            } else {
                Ok(ParsedStatementView::With { recursive: w.recursive, ctes, body: Box::new(body) })
            },
        },
    }
}

/// The result is its outermost layer over the results of its parts.
pub proof fn unfold_with_of(w: Option<With>, body: ParsedStatementView, sql: Seq<char>)
    ensures
        with_of(w, body, sql) == with_of_layer(w, body, sql),
{
}

/// The body of a query.
pub closed spec fn body_of(b: SetExpr, page: PageView, sql: Seq<char>) -> Checked<ParsedStatementView>
    decreases b, 2int, 0int,
{
    match b {
        SetExpr::Select(s) => select_of(*s, true, page, sql),
        SetExpr::SetOperation { .. } => set_operation(b, page, sql, 0),
        SetExpr::Query(q) => if page.order_by.len() == 0 && page.offset is None && page.limit is None {
            converted_query(*q, sql)
        } else {
            Err(unsupported_error("outer ORDER BY, OFFSET, and LIMIT on a parenthesized query are not supported yet"@, None))
        },
        SetExpr::Values(_) => Err(unsupported_error("standalone VALUES queries are not supported yet"@, None)),
        _ => Err(unsupported_error("this query body is not supported in a set operation"@, None)),
    }
}

/// One layer of [`body_of`], over the results of its parts.
pub open spec fn body_of_layer(b: SetExpr, page: PageView, sql: Seq<char>) -> Checked<ParsedStatementView> {
    match b {
        SetExpr::Select(s) => select_of(*s, true, page, sql),
        SetExpr::SetOperation { .. } => set_operation(b, page, sql, 0),
        SetExpr::Query(q) => if page.order_by.len() == 0 && page.offset is None && page.limit is None {
            converted_query(*q, sql)
        } else {
            Err(unsupported_error("outer ORDER BY, OFFSET, and LIMIT on a parenthesized query are not supported yet"@, None))
        },
        SetExpr::Values(_) => Err(unsupported_error("standalone VALUES queries are not supported yet"@, None)),
        _ => Err(unsupported_error("this query body is not supported in a set operation"@, None)),
    }
}

/// The result is its outermost layer over the results of its parts.
pub proof fn unfold_body_of(b: SetExpr, page: PageView, sql: Seq<char>)
    ensures
        body_of(b, page, sql) == body_of_layer(b, page, sql),
{
}

/// A query as statements hold it.
pub closed spec fn converted_query(q: Query, sql: Seq<char>) -> Checked<ParsedStatementView>
    decreases q, 2int, 0int,
{
    if q.locks@.len() > 0 || q.for_clause is Some || q.settings is Some || q.format_clause is Some || q.pipe_operators@.len() > 0 {
        Err(unsupported_error("this SELECT query form is not supported yet"@, None))
    } else {
        match page_of(q, sql) {
            Err(x) => Err(x),
            Ok(page) => match body_of(*q.body, page, sql) {
                Err(x) => Err(x),
                Ok(body) => with_of(q.with, body, sql),
            },
        }
    }
}

/// One layer of [`converted_query`], over the results of its parts.
pub open spec fn converted_query_layer(q: Query, sql: Seq<char>) -> Checked<ParsedStatementView> {
    if q.locks@.len() > 0 || q.for_clause is Some || q.settings is Some || q.format_clause is Some || q.pipe_operators@.len() > 0 {
        Err(unsupported_error("this SELECT query form is not supported yet"@, None))
    } else {
        match page_of(q, sql) {
            Err(x) => Err(x),
            Ok(page) => match body_of(*q.body, page, sql) {
                Err(x) => Err(x),
                Ok(body) => with_of(q.with, body, sql),
            },
        }
    }
}

/// The result is its outermost layer over the results of its parts.
pub proof fn unfold_converted_query(q: Query, sql: Seq<char>)
    ensures
        converted_query(q, sql) == converted_query_layer(q, sql),
{
}

/// The windows of a WINDOW clause stand on their own, whatever they extend.
pub proof fn lemma_windows_of(l: Seq<NamedWindowDefinition>, sql: Seq<char>, i: int, done: Seq<WindowDefinitionView>)
    requires
        0 <= i,
        done.len() == i,
        l.len() <= usize::MAX,
        stand_alone(done),
    ensures
        windows_of(l, sql, i, done) matches Ok(w) ==> stand_alone(w),
    decreases l.len() - i,
{
    unfold_windows_of(l, sql, i, done);
    if i < l.len() && window_place(done, ident_of(l[i].0, sql).name, 0) is None {
        let name = ident_of(l[i].0, sql);
        match l[i].1 {
            NamedWindowExpr::NamedWindow(base) => {
                lemma_window_named(ident_of(base, sql), done);
                if let Ok(spec) = window_named(ident_of(base, sql), done) {
                    lemma_windows_of(l, sql, i + 1, done.push(WindowDefinitionView { name, spec }));
                }
            },
            NamedWindowExpr::WindowSpec(w) => {
                if let Ok(own) = window_spec_of(w, sql) {
                    lemma_inherited(own, done);
                    if let Ok(spec) = inherited(own, done) {
                        lemma_windows_of(l, sql, i + 1, done.push(WindowDefinitionView { name, spec }));
                    }
                }
            },
        }
    }
}

} // verus!
