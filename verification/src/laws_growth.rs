//! The types that are known of parameters stay known.

use vstd::prelude::*;

use crate::catalog::{find_column_index, CatalogView, RoutineDefinitionView, TableDefinitionView, TriggerEvent};
use crate::dml::{conflict_inputs, dml_relation};
use crate::expr::meet;
use crate::inputs::{with_columns, with_outer};
use crate::names::{named_table, split_name};
use crate::query_rules::SelectPartsView;
use crate::rewrite::rewritten;
use crate::scope::InputColumnView;
use crate::solver_rules::{
    SolverView, WithTypesView, agreed_type, alias_name, constrained, constrained_by, element_of, expected_at, field_types, first_type,
    grown, merge_inputs, one, operand_type, output_types, parameter_index, relation_inputs, solve_advanced, solve_arguments,
    solve_assignments, solve_binary, solve_bound, solve_call, solve_clauses, solve_conflict, solve_cte, solve_ctes, solve_each,
    solve_expr, solve_first, solve_frame, solve_function, solve_in, solve_insert, solve_items, solve_joins, solve_keys, solve_meet,
    solve_membership, solve_merge, solve_nested, solve_option, solve_orders, solve_page, solve_pair, solve_routine, solve_row,
    solve_row_query, solve_rows, solve_select, solve_set, solve_shift, solve_some, solve_source, solve_spec, solve_statement, solve_texts,
    solve_types, solve_values, solve_window, solve_with, solver_catalog, solver_namespace, solver_relation, solver_terms, target_places,
    tried_schema, unfold_solve_advanced, unfold_solve_arguments, unfold_solve_assignments, unfold_solve_binary, unfold_solve_bound,
    unfold_solve_call, unfold_solve_clauses, unfold_solve_conflict, unfold_solve_cte, unfold_solve_ctes, unfold_solve_each,
    unfold_solve_expr, unfold_solve_first, unfold_solve_frame, unfold_solve_function, unfold_solve_in, unfold_solve_insert,
    unfold_solve_items, unfold_solve_joins, unfold_solve_keys, unfold_solve_meet, unfold_solve_membership, unfold_solve_merge,
    unfold_solve_nested, unfold_solve_option, unfold_solve_orders, unfold_solve_page, unfold_solve_pair, unfold_solve_routine,
    unfold_solve_row, unfold_solve_row_query, unfold_solve_rows, unfold_solve_select, unfold_solve_set, unfold_solve_shift,
    unfold_solve_some, unfold_solve_source, unfold_solve_spec, unfold_solve_statement, unfold_solve_texts, unfold_solve_types,
    unfold_solve_values, unfold_solve_window, unfold_solve_with, with_local_types,
};
use crate::syntax::{
    BinaryOperator, JoinKind, ParsedConflictActionView, ParsedCteView, ParsedExprKindView, ParsedExprView, ParsedIdentifierView,
    ParsedJoinSourceView, ParsedJoinView, ParsedMergeActionView, ParsedMergeClauseView, ParsedMergeView, ParsedObjectNameView,
    ParsedOnConflictView, ParsedOrderView, ParsedProjectionView, ParsedSequenceOperationView, ParsedStatementView, ParsedTableView,
    ParsedWindowCallView, ParsedWindowFrameBoundView, ParsedWindowFrameView, ParsedWindowSpecView, ScalarFunction, UnaryOperator,
    WindowFrameUnits, WindowFunction,
};
use crate::types::{ScalarTypeView, UNDEFINED_COLUMN};
use crate::typing::numeric;

verus! {

/// No type of a parameter is lost.
pub(crate) proof fn grows_constrained(index: usize, t: ScalarTypeView, position: Option<usize>, s: SolverView)
    ensures
        grown(s, constrained(index, t, position, s).0),
{
}

/// No type of a parameter is lost.
pub(crate) proof fn grows_constrained_by(index: Option<usize>, t: Option<ScalarTypeView>, position: Option<usize>, s: SolverView)
    ensures
        grown(s, constrained_by(index, t, position, s).0),
{
    if let (Some(index), Some(t)) = (index, t) {
        grows_constrained(index, t, position, s);
    }
}

/// No type of a parameter is lost.
pub(crate) proof fn grows_each(
    l: Seq<ParsedExprView>,
    expected: Option<ScalarTypeView>,
    inputs: Seq<InputColumnView>,
    catalog: CatalogView,
    depth: usize,
    i: int,
    s: SolverView,
)
    ensures
        grown(s, solve_each(l, expected, inputs, catalog, depth, i, s).0),
    decreases 64 - depth, 5int, l.len() - i,
{
    unfold_solve_each(l, expected, inputs, catalog, depth, i, s);
    if i < 0 || i >= l.len() {
    } else {
        grows_expr(l[i], expected, inputs, catalog, depth, s);
        match solve_expr(l[i], expected, inputs, catalog, depth, s) {
            (s, Err(x)) => {},
            (s, Ok(_)) => {
                grows_each(l, expected, inputs, catalog, depth, i + 1, s);
            },
        }
    }
}

/// No type of a parameter is lost.
pub(crate) proof fn grows_keys(
    l: Seq<ParsedOrderView>,
    inputs: Seq<InputColumnView>,
    catalog: CatalogView,
    depth: usize,
    i: int,
    s: SolverView,
)
    ensures
        grown(s, solve_keys(l, inputs, catalog, depth, i, s).0),
    decreases 64 - depth, 5int, l.len() - i,
{
    unfold_solve_keys(l, inputs, catalog, depth, i, s);
    if i < 0 || i >= l.len() {
    } else {
        grows_expr(l[i].expr, None, inputs, catalog, depth, s);
        match solve_expr(l[i].expr, None, inputs, catalog, depth, s) {
            (s, Err(x)) => {},
            (s, Ok(_)) => {
                grows_keys(l, inputs, catalog, depth, i + 1, s);
            },
        }
    }
}

/// No type of a parameter is lost.
pub(crate) proof fn grows_orders(
    l: Seq<ParsedOrderView>,
    inputs: Seq<InputColumnView>,
    catalog: CatalogView,
    depth: usize,
    i: int,
    s: SolverView,
)
    ensures
        grown(s, solve_orders(l, inputs, catalog, depth, i, s).0),
    decreases 64 - depth, 5int, l.len() - i,
{
    unfold_solve_orders(l, inputs, catalog, depth, i, s);
    if i < 0 || i >= l.len() {
    } else {
        grows_expr(l[i].expr, None, inputs, catalog, depth, s);
        match solve_expr(l[i].expr, None, inputs, catalog, depth, s) {
            (s, Err(x)) => {
                if x.sql_state == UNDEFINED_COLUMN@ {
                    grows_orders(l, inputs, catalog, depth, i + 1, s);
                } else {
                }
            },
            (s, Ok(_)) => {
                grows_orders(l, inputs, catalog, depth, i + 1, s);
            },
        }
    }
}

/// No type of a parameter is lost.
pub(crate) proof fn grows_meet(
    l: Seq<ParsedExprView>,
    expected: Option<ScalarTypeView>,
    inputs: Seq<InputColumnView>,
    catalog: CatalogView,
    depth: usize,
    i: int,
    met: Option<ScalarTypeView>,
    s: SolverView,
)
    ensures
        grown(s, solve_meet(l, expected, inputs, catalog, depth, i, met, s).0),
    decreases 64 - depth, 5int, l.len() - i,
{
    unfold_solve_meet(l, expected, inputs, catalog, depth, i, met, s);
    if i < 0 || i >= l.len() {
    } else {
        grows_expr(l[i], expected, inputs, catalog, depth, s);
        match solve_expr(l[i], expected, inputs, catalog, depth, s) {
            (s, Err(x)) => {},
            (s, Ok(t)) => {
                grows_meet(l, expected, inputs, catalog, depth, i + 1, meet(met, t), s);
            },
        }
    }
}

/// No type of a parameter is lost.
pub(crate) proof fn grows_texts(
    l: Seq<ParsedExprView>,
    inputs: Seq<InputColumnView>,
    catalog: CatalogView,
    depth: usize,
    i: int,
    s: SolverView,
)
    ensures
        grown(s, solve_texts(l, inputs, catalog, depth, i, s).0),
    decreases 64 - depth, 5int, l.len() - i,
{
    unfold_solve_texts(l, inputs, catalog, depth, i, s);
    if i < 0 || i >= l.len() {
    } else {
        grows_expr(l[i], None, inputs, catalog, depth, s);
        match solve_expr(l[i], None, inputs, catalog, depth, s) {
            (s, Err(x)) => {},
            (s, Ok(t)) => {
                if t is None {
                    grows_expr(l[i], Some(ScalarTypeView::Text), inputs, catalog, depth, s);
                    match solve_expr(l[i], Some(ScalarTypeView::Text), inputs, catalog, depth, s) {
                        (s, Err(x)) => {},
                        (s, Ok(_)) => {
                            grows_texts(l, inputs, catalog, depth, i + 1, s);
                        },
                    }
                } else {
                    grows_texts(l, inputs, catalog, depth, i + 1, s);
                }
            },
        }
    }
}

/// No type of a parameter is lost.
pub(crate) proof fn grows_types(
    l: Seq<ParsedExprView>,
    inputs: Seq<InputColumnView>,
    catalog: CatalogView,
    depth: usize,
    i: int,
    done: Seq<Option<ScalarTypeView>>,
    s: SolverView,
)
    ensures
        grown(s, solve_types(l, inputs, catalog, depth, i, done, s).0),
    decreases 64 - depth, 5int, l.len() - i,
{
    unfold_solve_types(l, inputs, catalog, depth, i, done, s);
    if i < 0 || i >= l.len() {
    } else {
        grows_expr(l[i], None, inputs, catalog, depth, s);
        match solve_expr(l[i], None, inputs, catalog, depth, s) {
            (s, Err(x)) => {},
            (s, Ok(t)) => {
                grows_types(l, inputs, catalog, depth, i + 1, done.push(t), s);
            },
        }
    }
}

/// No type of a parameter is lost.
pub(crate) proof fn grows_row(
    l: Seq<ParsedExprView>,
    types: Seq<Option<ScalarTypeView>>,
    inputs: Seq<InputColumnView>,
    catalog: CatalogView,
    depth: usize,
    i: int,
    s: SolverView,
)
    ensures
        grown(s, solve_row(l, types, inputs, catalog, depth, i, s).0),
    decreases 64 - depth, 5int, l.len() - i,
{
    unfold_solve_row(l, types, inputs, catalog, depth, i, s);
    if i < 0 || i >= l.len() || i >= types.len() {
    } else {
        if types[i] is None {
            grows_row(l, types, inputs, catalog, depth, i + 1, s);
        } else {
            grows_expr(l[i], types[i], inputs, catalog, depth, s);
            match solve_expr(l[i], types[i], inputs, catalog, depth, s) {
                (s, Err(x)) => {},
                (s, Ok(_)) => {
                    grows_row(l, types, inputs, catalog, depth, i + 1, s);
                },
            }
        }
    }
}

/// No type of a parameter is lost.
pub(crate) proof fn grows_some(
    e: Option<ParsedExprView>,
    expected: Option<ScalarTypeView>,
    inputs: Seq<InputColumnView>,
    catalog: CatalogView,
    depth: usize,
    s: SolverView,
)
    ensures
        grown(s, solve_some(e, expected, inputs, catalog, depth, s).0),
    decreases 64 - depth, 5int, 0int,
{
    unfold_solve_some(e, expected, inputs, catalog, depth, s);
    match e {
        None => {},
        Some(e) => {
            grows_expr(e, expected, inputs, catalog, depth, s);
            match solve_expr(e, expected, inputs, catalog, depth, s) {
                (s, Err(x)) => {},
                (s, Ok(_)) => {},
            }
        },
    }
}

/// No type of a parameter is lost.
pub(crate) proof fn grows_option(
    e: Option<Box<ParsedExprView>>,
    expected: Option<ScalarTypeView>,
    inputs: Seq<InputColumnView>,
    catalog: CatalogView,
    depth: usize,
    s: SolverView,
)
    ensures
        grown(s, solve_option(e, expected, inputs, catalog, depth, s).0),
    decreases 64 - depth, 5int, 0int,
{
    unfold_solve_option(e, expected, inputs, catalog, depth, s);
    match e {
        None => {},
        Some(e) => {
            grows_expr(*e, expected, inputs, catalog, depth, s);
        },
    }
}

/// No type of a parameter is lost.
pub(crate) proof fn grows_function(
    function: ScalarFunction,
    arguments: Seq<ParsedExprView>,
    expected: Option<ScalarTypeView>,
    inputs: Seq<InputColumnView>,
    catalog: CatalogView,
    depth: usize,
    s: SolverView,
)
    ensures
        grown(s, solve_function(function, arguments, expected, inputs, catalog, depth, s).0),
    decreases 64 - depth, 3int, 0int,
{
    unfold_solve_function(function, arguments, expected, inputs, catalog, depth, s);
    if depth >= 64 {
    } else {
        match function {
            ScalarFunction::Version | ScalarFunction::CurrentDatabase | ScalarFunction::CurrentUser | ScalarFunction::SessionUser
                | ScalarFunction::CurrentSetting => {},
            ScalarFunction::Lower | ScalarFunction::Upper | ScalarFunction::Btrim | ScalarFunction::Ltrim | ScalarFunction::Rtrim
                | ScalarFunction::Replace => {
                grows_each(
                    arguments,
                    Some(ScalarTypeView::Text),
                    inputs,
                    catalog,
                    (depth + 1) as usize,
                    0,
                    s,
                );
                match solve_each(
                    arguments,
                    Some(ScalarTypeView::Text),
                    inputs,
                    catalog,
                    (depth + 1) as usize,
                    0,
                    s,
                ) {
                    (s, Err(x)) => {},
                    (s, Ok(_)) => {},
                }
            },
            ScalarFunction::Strpos => {
                grows_each(arguments, Some(ScalarTypeView::Text), inputs, catalog, (depth + 1) as usize, 0, s);
                match solve_each(arguments, Some(ScalarTypeView::Text), inputs, catalog, (depth + 1) as usize, 0, s) {
                    (s, Err(x)) => {},
                    (s, Ok(_)) => {},
                }
            },
            ScalarFunction::CharacterLength | ScalarFunction::OctetLength => {
                if arguments.len() < 1 {
                } else {
                    grows_expr(arguments[0], None, inputs, catalog, (depth + 1) as usize, s);
                    match solve_expr(arguments[0], None, inputs, catalog, (depth + 1) as usize, s) {
                        (s, Err(x)) => {},
                        (s, Ok(t)) => {
                            if t is None {
                                grows_expr(arguments[0], Some(ScalarTypeView::Text), inputs, catalog, (depth + 1) as usize, s);
                                match solve_expr(arguments[0], Some(ScalarTypeView::Text), inputs, catalog, (depth + 1) as usize, s) {
                                    (s, Err(x)) => {},
                                    (s, Ok(_)) => {},
                                }
                            } else {
                            }
                        },
                    }
                }
            },
            ScalarFunction::Abs => {
                if arguments.len() < 1 {
                } else {
                    grows_expr(
                    arguments[0],
                    (if expected is Some && numeric(expected->0) { expected } else { None }),
                    inputs,
                    catalog,
                    (depth + 1) as usize,
                    s,
                );
                }
            },
            ScalarFunction::Coalesce | ScalarFunction::NullIf | ScalarFunction::Greatest | ScalarFunction::Least => {
                grows_meet(
                arguments,
                None,
                inputs,
                catalog,
                (depth + 1) as usize,
                0,
                expected,
                s,
            );
                match solve_meet(
                arguments,
                None,
                inputs,
                catalog,
                (depth + 1) as usize,
                0,
                expected,
                s,
            ) {
                    (s, Err(x)) => {},
                    (s, Ok(met)) => {
                        if met is None {
                        } else {
                            grows_each(arguments, met, inputs, catalog, (depth + 1) as usize, 0, s);
                            match solve_each(arguments, met, inputs, catalog, (depth + 1) as usize, 0, s) {
                                (s, Err(x)) => {},
                                (s, Ok(_)) => {},
                            }
                        }
                    },
                }
            },
            ScalarFunction::Concat => {
                grows_texts(arguments, inputs, catalog, (depth + 1) as usize, 0, s);
                match solve_texts(arguments, inputs, catalog, (depth + 1) as usize, 0, s) {
                    (s, Err(x)) => {},
                    (s, Ok(_)) => {},
                }
            },
            ScalarFunction::Substring => {
                if arguments.len() < 1 {
                } else {
                    grows_expr(arguments[0], Some(ScalarTypeView::Text), inputs, catalog, (depth + 1) as usize, s);
                    match solve_expr(arguments[0], Some(ScalarTypeView::Text), inputs, catalog, (depth + 1) as usize, s) {
                        (s, Err(x)) => {},
                        (s, Ok(_)) => {
                            grows_each(arguments, Some(ScalarTypeView::Int32), inputs, catalog, (depth + 1) as usize, 1, s);
                            match solve_each(arguments, Some(ScalarTypeView::Int32), inputs, catalog, (depth + 1) as usize, 1, s) {
                                (s, Err(x)) => {},
                                (s, Ok(_)) => {},
                            }
                        },
                    }
                }
            },
            ScalarFunction::JsonbTypeof => {
                if arguments.len() < 1 {
                } else {
                    grows_expr(arguments[0], Some(ScalarTypeView::Jsonb), inputs, catalog, (depth + 1) as usize, s);
                    match solve_expr(arguments[0], Some(ScalarTypeView::Jsonb), inputs, catalog, (depth + 1) as usize, s) {
                        (s, Err(x)) => {},
                        (s, Ok(_)) => {},
                    }
                }
            },
            ScalarFunction::ArrayLength => {
                if arguments.len() < 2 {
                } else {
                    grows_expr(arguments[0], None, inputs, catalog, (depth + 1) as usize, s);
                    match solve_expr(arguments[0], None, inputs, catalog, (depth + 1) as usize, s) {
                        (s, Err(x)) => {},
                        (s, Ok(_)) => {
                            grows_expr(arguments[1], Some(ScalarTypeView::Int32), inputs, catalog, (depth + 1) as usize, s);
                            match solve_expr(arguments[1], Some(ScalarTypeView::Int32), inputs, catalog, (depth + 1) as usize, s) {
                                (s, Err(x)) => {},
                                (s, Ok(_)) => {},
                            }
                        },
                    }
                }
            },
            ScalarFunction::Cardinality => {
                if arguments.len() < 1 {
                } else {
                    grows_expr(arguments[0], None, inputs, catalog, (depth + 1) as usize, s);
                    match solve_expr(arguments[0], None, inputs, catalog, (depth + 1) as usize, s) {
                        (s, Err(x)) => {},
                        (s, Ok(_)) => {},
                    }
                }
            },
        }
    }
}

/// No type of a parameter is lost.
pub(crate) proof fn grows_bound(
    b: ParsedWindowFrameBoundView,
    t: Option<ScalarTypeView>,
    inputs: Seq<InputColumnView>,
    catalog: CatalogView,
    depth: usize,
    s: SolverView,
)
    ensures
        grown(s, solve_bound(b, t, inputs, catalog, depth, s).0),
    decreases 64 - depth, 5int, 0int,
{
    unfold_solve_bound(b, t, inputs, catalog, depth, s);
    match b {
        ParsedWindowFrameBoundView::Preceding(e) => {
            grows_expr(*e, t, inputs, catalog, depth, s);
            match solve_expr(*e, t, inputs, catalog, depth, s) {
                (s, Err(x)) => {},
                (s, Ok(_)) => {},
            }
        },
        ParsedWindowFrameBoundView::Following(e) => {
            grows_expr(*e, t, inputs, catalog, depth, s);
            match solve_expr(*e, t, inputs, catalog, depth, s) {
                (s, Err(x)) => {},
                (s, Ok(_)) => {},
            }
        },
        _ => {},
    }
}

/// No type of a parameter is lost.
pub(crate) proof fn grows_frame(
    f: Option<ParsedWindowFrameView>,
    order_by: Seq<ParsedOrderView>,
    inputs: Seq<InputColumnView>,
    catalog: CatalogView,
    depth: usize,
    s: SolverView,
)
    ensures
        grown(s, solve_frame(f, order_by, inputs, catalog, depth, s).0),
    decreases 64 - depth, 6int, 0int,
{
    unfold_solve_frame(f, order_by, inputs, catalog, depth, s);
    match f {
        None => {},
        Some(f) => {
            if f.units == WindowFrameUnits::Rows {
            } else {
                if order_by.len() == 0 {
                } else {
                    grows_expr(order_by[0].expr, None, inputs, catalog, depth, s);
                }
            }
            match (if f.units == WindowFrameUnits::Rows {
                (s, Ok(Some(ScalarTypeView::Int64)))
            } else if order_by.len() == 0 {
                (s, Ok(None))
            } else {
                solve_expr(order_by[0].expr, None, inputs, catalog, depth, s)
        }) {
                (s, Err(x)) => {},
                (s, Ok(t)) => {
                    grows_bound(f.start_bound, t, inputs, catalog, depth, s);
                    match solve_bound(f.start_bound, t, inputs, catalog, depth, s) {
                        (s, Err(x)) => {},
                        (s, Ok(_)) => {
                            grows_bound(f.end_bound, t, inputs, catalog, depth, s);
                        },
                    }
                },
            }
        },
    }
}

/// No type of a parameter is lost.
pub(crate) proof fn grows_shift(
    arguments: Seq<ParsedExprView>,
    inputs: Seq<InputColumnView>,
    catalog: CatalogView,
    depth: usize,
    s: SolverView,
)
    ensures
        grown(s, solve_shift(arguments, inputs, catalog, depth, s).0),
    decreases 64 - depth, 6int, 0int,
{
    unfold_solve_shift(arguments, inputs, catalog, depth, s);
    grows_first(arguments, inputs, catalog, depth, s);
    match solve_first(arguments, inputs, catalog, depth, s) {
        (s, Err(x)) => {},
        (s, Ok(value)) => {
            if arguments.len() < 2 {
            } else {
                grows_expr(arguments[1], Some(ScalarTypeView::Int64), inputs, catalog, depth, s);
                match solve_expr(arguments[1], Some(ScalarTypeView::Int64), inputs, catalog, depth, s) {
                    (s, Err(x)) => {},
                    (s, Ok(_)) => {
                        if arguments.len() < 3 {
                        } else {
                            grows_expr(arguments[2], value, inputs, catalog, depth, s);
                            match solve_expr(arguments[2], value, inputs, catalog, depth, s) {
                                (s, Err(x)) => {},
                                (s, Ok(default)) => {
                                    if meet(value, default) is None {
                                    } else {
                                        grows_expr(arguments[0], meet(value, default), inputs, catalog, depth, s);
                                        match solve_expr(arguments[0], meet(value, default), inputs, catalog, depth, s) {
                                            (s, Err(x)) => {},
                                            (s, Ok(_)) => {
                                                grows_expr(arguments[2], meet(value, default), inputs, catalog, depth, s);
                                                match solve_expr(arguments[2], meet(value, default), inputs, catalog, depth, s) {
                                                    (s, Err(x)) => {},
                                                    (s, Ok(_)) => {},
                                                }
                                            },
                                        }
                                    }
                                },
                            }
                        }
                    },
                }
            }
        },
    }
}

/// No type of a parameter is lost.
pub(crate) proof fn grows_first(
    arguments: Seq<ParsedExprView>,
    inputs: Seq<InputColumnView>,
    catalog: CatalogView,
    depth: usize,
    s: SolverView,
)
    ensures
        grown(s, solve_first(arguments, inputs, catalog, depth, s).0),
    decreases 64 - depth, 5int, 0int,
{
    unfold_solve_first(arguments, inputs, catalog, depth, s);
    if arguments.len() == 0 {
    } else {
        grows_expr(arguments[0], None, inputs, catalog, depth, s);
    }
}

/// No type of a parameter is lost.
pub(crate) proof fn grows_call(
    function: WindowFunction,
    arguments: Seq<ParsedExprView>,
    inputs: Seq<InputColumnView>,
    catalog: CatalogView,
    depth: usize,
    s: SolverView,
)
    ensures
        grown(s, solve_call(function, arguments, inputs, catalog, depth, s).0),
    decreases 64 - depth, 7int, 0int,
{
    unfold_solve_call(function, arguments, inputs, catalog, depth, s);
    match function {
        WindowFunction::RowNumber | WindowFunction::Rank | WindowFunction::DenseRank => {},
        WindowFunction::Lag | WindowFunction::Lead => {
            grows_shift(arguments, inputs, catalog, depth, s);
        },
        WindowFunction::FirstValue | WindowFunction::LastValue => {
            grows_first(arguments, inputs, catalog, depth, s);
        },
        WindowFunction::NthValue => {
            grows_first(arguments, inputs, catalog, depth, s);
            match solve_first(arguments, inputs, catalog, depth, s) {
                (s, Err(x)) => {},
                (s, Ok(value)) => {
                    if arguments.len() < 2 {
                    } else {
                        grows_expr(arguments[1], Some(ScalarTypeView::Int64), inputs, catalog, depth, s);
                        match solve_expr(arguments[1], Some(ScalarTypeView::Int64), inputs, catalog, depth, s) {
                            (s, Err(x)) => {},
                            (s, Ok(_)) => {},
                        }
                    }
                },
            }
        },
        WindowFunction::Aggregate(f) => {
            grows_first(arguments, inputs, catalog, depth, s);
            match solve_first(arguments, inputs, catalog, depth, s) {
                (s, Err(x)) => {},
                (s, Ok(t)) => {},
            }
        },
    }
}

/// No type of a parameter is lost.
pub(crate) proof fn grows_window(
    call: ParsedWindowCallView,
    spec: Option<ParsedWindowSpecView>,
    inputs: Seq<InputColumnView>,
    catalog: CatalogView,
    depth: usize,
    s: SolverView,
)
    ensures
        grown(s, solve_window(call, spec, inputs, catalog, depth, s).0),
    decreases 64 - depth, 3int, 0int,
{
    unfold_solve_window(call, spec, inputs, catalog, depth, s);
    if depth >= 64 {
    } else {
        match spec {
            None => {},
            Some(spec) => {
                grows_spec(spec, inputs, catalog, (depth + 1) as usize, s);
            },
        }
        match (match spec {
                None => (s, Ok(())),
                Some(spec) => solve_spec(spec, inputs, catalog, (depth + 1) as usize, s),
        }) {
            (s, Err(x)) => {},
            (s, Ok(_)) => {
                grows_option(call.filter, Some(ScalarTypeView::Boolean), inputs, catalog, (depth + 1) as usize, s);
                match solve_option(call.filter, Some(ScalarTypeView::Boolean), inputs, catalog, (depth + 1) as usize, s) {
                    (s, Err(x)) => {},
                    (s, Ok(_)) => {
                        grows_call(call.function, call.arguments, inputs, catalog, (depth + 1) as usize, s);
                    },
                }
            },
        }
    }
}

/// No type of a parameter is lost.
pub(crate) proof fn grows_spec(spec: ParsedWindowSpecView, inputs: Seq<InputColumnView>, catalog: CatalogView, depth: usize, s: SolverView)
    ensures
        grown(s, solve_spec(spec, inputs, catalog, depth, s).0),
    decreases 64 - depth, 7int, 0int,
{
    unfold_solve_spec(spec, inputs, catalog, depth, s);
    grows_each(spec.partition_by, None, inputs, catalog, depth, 0, s);
    match solve_each(spec.partition_by, None, inputs, catalog, depth, 0, s) {
        (s, Err(x)) => {},
        (s, Ok(_)) => {
            grows_keys(spec.order_by, inputs, catalog, depth, 0, s);
            match solve_keys(spec.order_by, inputs, catalog, depth, 0, s) {
                (s, Err(x)) => {},
                (s, Ok(_)) => {
                    grows_frame(spec.frame, spec.order_by, inputs, catalog, depth, s);
                },
            }
        },
    }
}

/// No type of a parameter is lost.
pub(crate) proof fn grows_nested(
    q: ParsedStatementView,
    expected: Option<Seq<Option<ScalarTypeView>>>,
    inputs: Seq<InputColumnView>,
    catalog: CatalogView,
    depth: usize,
    s: SolverView,
)
    ensures
        grown(s, solve_nested(q, expected, inputs, catalog, depth, s).0),
    decreases 64 - depth, 2int, 0int,
{
    unfold_solve_nested(q, expected, inputs, catalog, depth, s);
    if depth >= 64 {
    } else {
        grows_statement(q, catalog, inputs, expected, (depth + 1) as usize, s);
    }
}

/// No type of a parameter is lost.
pub(crate) proof fn grows_binary(
    left: ParsedExprView,
    op: BinaryOperator,
    right: ParsedExprView,
    expected: Option<ScalarTypeView>,
    inputs: Seq<InputColumnView>,
    catalog: CatalogView,
    depth: usize,
    s: SolverView,
)
    ensures
        grown(s, solve_binary(left, op, right, expected, inputs, catalog, depth, s).0),
    decreases 64 - depth, 3int, 0int,
{
    unfold_solve_binary(left, op, right, expected, inputs, catalog, depth, s);
    if depth >= 64 {
    } else {
        if op == BinaryOperator::And || op == BinaryOperator::Or {
            grows_expr(left, Some(ScalarTypeView::Boolean), inputs, catalog, (depth + 1) as usize, s);
            match solve_expr(left, Some(ScalarTypeView::Boolean), inputs, catalog, (depth + 1) as usize, s) {
                (s, Err(x)) => {},
                (s, Ok(_)) => {
                    grows_expr(right, Some(ScalarTypeView::Boolean), inputs, catalog, (depth + 1) as usize, s);
                    match solve_expr(right, Some(ScalarTypeView::Boolean), inputs, catalog, (depth + 1) as usize, s) {
                        (s, Err(x)) => {},
                        (s, Ok(_)) => {},
                    }
                },
            }
        } else {
            grows_expr(left, None, inputs, catalog, (depth + 1) as usize, s);
            match solve_expr(left, None, inputs, catalog, (depth + 1) as usize, s) {
                (s, Err(x)) => {},
                (s, Ok(lt)) => {
                    grows_expr(right, None, inputs, catalog, (depth + 1) as usize, s);
                    match solve_expr(right, None, inputs, catalog, (depth + 1) as usize, s) {
                        (s, Err(x)) => {},
                        (s, Ok(rt)) => {
                            grows_constrained_by(parameter_index(left), rt, left.position, s);
                            match constrained_by(parameter_index(left), rt, left.position, s) {
                                (s, Err(x)) => {},
                                (s, Ok(_)) => {
                                    grows_constrained_by(parameter_index(right), lt, right.position, s);
                                    match constrained_by(parameter_index(right), lt, right.position, s) {
                                        (s, Err(x)) => {},
                                        (s, Ok(_)) => {
                                            if operand_type(op, lt, rt, expected) is None {
                                            } else {
                                                grows_expr(
                                                    left,
                                                    operand_type(op, lt, rt, expected),
                                                    inputs,
                                                    catalog,
                                                    (depth + 1) as usize,
                                                    s,
                                                );
                                                match solve_expr(left, operand_type(op, lt, rt, expected), inputs, catalog, (depth + 1) as usize, s) {
                                                    (s, Err(x)) => {},
                                                    (s, Ok(_)) => {
                                                        grows_expr(
                                    right,
                                    operand_type(op, lt, rt, expected),
                                    inputs,
                                    catalog,
                                    (depth + 1) as usize,
                                    s,
                                );
                                                        match solve_expr(
                                    right,
                                    operand_type(op, lt, rt, expected),
                                    inputs,
                                    catalog,
                                    (depth + 1) as usize,
                                    s,
                                ) {
                                                            (s, Err(x)) => {},
                                                            (s, Ok(_)) => {},
                                                        }
                                                    },
                                                }
                                            }
                                        },
                                    }
                                },
                            }
                        },
                    }
                },
            }
        }
    }
}

/// No type of a parameter is lost.
pub(crate) proof fn grows_membership(
    expr: ParsedExprView,
    list: Seq<ParsedExprView>,
    inputs: Seq<InputColumnView>,
    catalog: CatalogView,
    depth: usize,
    s: SolverView,
)
    ensures
        grown(s, solve_membership(expr, list, inputs, catalog, depth, s).0),
    decreases 64 - depth, 3int, 0int,
{
    unfold_solve_membership(expr, list, inputs, catalog, depth, s);
    if depth >= 64 {
    } else {
        grows_expr(expr, None, inputs, catalog, (depth + 1) as usize, s);
        match solve_expr(expr, None, inputs, catalog, (depth + 1) as usize, s) {
            (s, Err(x)) => {},
            (s, Ok(t)) => {
                grows_meet(list, None, inputs, catalog, (depth + 1) as usize, 0, t, s);
                match solve_meet(list, None, inputs, catalog, (depth + 1) as usize, 0, t, s) {
                    (s, Err(x)) => {},
                    (s, Ok(met)) => {
                        if met is None {
                        } else {
                            grows_expr(expr, met, inputs, catalog, (depth + 1) as usize, s);
                            match solve_expr(expr, met, inputs, catalog, (depth + 1) as usize, s) {
                                (s, Err(x)) => {},
                                (s, Ok(_)) => {
                                    grows_each(list, met, inputs, catalog, (depth + 1) as usize, 0, s);
                                    match solve_each(list, met, inputs, catalog, (depth + 1) as usize, 0, s) {
                                        (s, Err(x)) => {},
                                        (s, Ok(_)) => {},
                                    }
                                },
                            }
                        }
                    },
                }
            },
        }
    }
}

/// No type of a parameter is lost.
pub(crate) proof fn grows_expr(
    e: ParsedExprView,
    expected: Option<ScalarTypeView>,
    inputs: Seq<InputColumnView>,
    catalog: CatalogView,
    depth: usize,
    s: SolverView,
)
    ensures
        grown(s, solve_expr(e, expected, inputs, catalog, depth, s).0),
    decreases 64 - depth, 4int, 0int,
{
    unfold_solve_expr(e, expected, inputs, catalog, depth, s);
    if depth >= 64 {
    } else {
        match e.kind {
            ParsedExprKindView::Column(name) => {},
            ParsedExprKindView::Literal(v) => {},
            ParsedExprKindView::Parameter(index) => {
                grows_constrained_by(Some(index), expected, e.position, s);
                match constrained_by(Some(index), expected, e.position, s) {
                    (s, Err(x)) => {},
                    (s, Ok(_)) => {},
                }
            },
            ParsedExprKindView::ResolvedParameter { index, data_type } => {
                grows_constrained(index, data_type, e.position, s);
                match constrained(index, data_type, e.position, s) {
                    (s, Err(x)) => {},
                    (s, Ok(_)) => {
                        grows_constrained_by(Some(index), expected, e.position, s);
                        match constrained_by(Some(index), expected, e.position, s) {
                            (s, Err(x)) => {},
                            (s, Ok(_)) => {},
                        }
                    },
                }
            },
            ParsedExprKindView::ApplyValue { data_type, .. } => {},
            ParsedExprKindView::Unary { op, expr } => {
                if op == UnaryOperator::Not {
                    grows_expr(*expr, Some(ScalarTypeView::Boolean), inputs, catalog, (depth + 1) as usize, s);
                    match solve_expr(*expr, Some(ScalarTypeView::Boolean), inputs, catalog, (depth + 1) as usize, s) {
                        (s, Err(x)) => {},
                        (s, Ok(_)) => {},
                    }
                } else {
                    grows_expr(*expr, expected, inputs, catalog, (depth + 1) as usize, s);
                }
            },
            ParsedExprKindView::Cast { expr, data_type, .. } => {
                if parameter_index(*expr) is Some {
                    grows_constrained(parameter_index(*expr)->0, data_type, expr.position, s);
                    match constrained(parameter_index(*expr)->0, data_type, expr.position, s) {
                        (s, Err(x)) => {},
                        (s, Ok(_)) => {
                            grows_expr(*expr, Some(data_type), inputs, catalog, (depth + 1) as usize, s);
                            match solve_expr(*expr, Some(data_type), inputs, catalog, (depth + 1) as usize, s) {
                                (s, Err(x)) => {},
                                (s, Ok(_)) => {},
                            }
                        },
                    }
                } else {
                    grows_expr(*expr, None, inputs, catalog, (depth + 1) as usize, s);
                    match solve_expr(*expr, None, inputs, catalog, (depth + 1) as usize, s) {
                        (s, Err(x)) => {},
                        (s, Ok(_)) => {},
                    }
                }
            },
            ParsedExprKindView::Array { elements, .. } => {
                grows_meet(
                elements,
                element_of(expected),
                inputs,
                catalog,
                (depth + 1) as usize,
                0,
                element_of(expected),
                s,
            );
                match solve_meet(
                elements,
                element_of(expected),
                inputs,
                catalog,
                (depth + 1) as usize,
                0,
                element_of(expected),
                s,
            ) {
                    (s, Err(x)) => {},
                    (s, Ok(met)) => {},
                }
            },
            ParsedExprKindView::Function { function, arguments } => {
                grows_function(
                function,
                arguments,
                expected,
                inputs,
                catalog,
                depth,
                s,
            );
            },
            ParsedExprKindView::Binary { left, op, right } => {
                grows_binary(*left, op, *right, expected, inputs, catalog, depth, s);
            },
            ParsedExprKindView::InList { expr, list, .. } => {
                grows_membership(*expr, list, inputs, catalog, depth, s);
            },
            ParsedExprKindView::ScalarSubquery(subquery) => {
                grows_nested(*subquery, one(expected), inputs, catalog, depth, s);
                match solve_nested(*subquery, one(expected), inputs, catalog, depth, s) {
                    (s, Err(x)) => {},
                    (s, Ok(output)) => {},
                }
            },
            ParsedExprKindView::Exists { subquery, .. } => {
                grows_nested(*subquery, None, inputs, catalog, depth, s);
                match solve_nested(*subquery, None, inputs, catalog, depth, s) {
                    (s, Err(x)) => {},
                    (s, Ok(_)) => {},
                }
            },
            ParsedExprKindView::InSubquery { expr, subquery, .. } => {
                grows_in(*expr, *subquery, inputs, catalog, depth, s);
            },
            ParsedExprKindView::QuantifiedSubquery { left, subquery, .. } => {
                grows_in(*left, *subquery, inputs, catalog, depth, s);
            },
            ParsedExprKindView::RowSubquery { left, subquery, .. } => {
                grows_row_query(left, *subquery, inputs, catalog, depth, s);
            },
            ParsedExprKindView::Aggregate { function, argument, filter, .. } => {
                grows_option(
                filter,
                Some(ScalarTypeView::Boolean),
                inputs,
                catalog,
                (depth + 1) as usize,
                s,
            );
                match solve_option(
                filter,
                Some(ScalarTypeView::Boolean),
                inputs,
                catalog,
                (depth + 1) as usize,
                s,
            ) {
                    (s, Err(x)) => {},
                    (s, Ok(_)) => {
                        grows_option(argument, None, inputs, catalog, (depth + 1) as usize, s);
                        match solve_option(argument, None, inputs, catalog, (depth + 1) as usize, s) {
                            (s, Err(x)) => {},
                            (s, Ok(t)) => {},
                        }
                    },
                }
            },
            ParsedExprKindView::Window { call, spec } => {
                grows_window(*call, Some(*spec), inputs, catalog, depth, s);
            },
            ParsedExprKindView::NamedWindow { call, .. } => {
                grows_window(*call, None, inputs, catalog, depth, s);
            },
            ParsedExprKindView::WindowValue { .. } => {},
        }
    }
}

/// No type of a parameter is lost.
pub(crate) proof fn grows_in(
    e: ParsedExprView,
    subquery: ParsedStatementView,
    inputs: Seq<InputColumnView>,
    catalog: CatalogView,
    depth: usize,
    s: SolverView,
)
    ensures
        grown(s, solve_in(e, subquery, inputs, catalog, depth, s).0),
    decreases 64 - depth, 3int, 0int,
{
    unfold_solve_in(e, subquery, inputs, catalog, depth, s);
    if depth >= 64 {
    } else {
        grows_expr(e, None, inputs, catalog, (depth + 1) as usize, s);
        match solve_expr(e, None, inputs, catalog, (depth + 1) as usize, s) {
            (s, Err(x)) => {},
            (s, Ok(left)) => {
                grows_nested(subquery, one(left), inputs, catalog, depth, s);
                match solve_nested(subquery, one(left), inputs, catalog, depth, s) {
                    (s, Err(x)) => {},
                    (s, Ok(output)) => {
                        if meet(left, first_type(output)) is None {
                        } else {
                            grows_expr(e, meet(left, first_type(output)), inputs, catalog, (depth + 1) as usize, s);
                            match solve_expr(e, meet(left, first_type(output)), inputs, catalog, (depth + 1) as usize, s) {
                                (s, Err(x)) => {},
                                (s, Ok(_)) => {
                                    grows_nested(subquery, one(meet(left, first_type(output))), inputs, catalog, depth, s);
                                    match solve_nested(subquery, one(meet(left, first_type(output))), inputs, catalog, depth, s) {
                                        (s, Err(x)) => {},
                                        (s, Ok(_)) => {},
                                    }
                                },
                            }
                        }
                    },
                }
            },
        }
    }
}

/// No type of a parameter is lost.
pub(crate) proof fn grows_row_query(
    left: Seq<ParsedExprView>,
    subquery: ParsedStatementView,
    inputs: Seq<InputColumnView>,
    catalog: CatalogView,
    depth: usize,
    s: SolverView,
)
    ensures
        grown(s, solve_row_query(left, subquery, inputs, catalog, depth, s).0),
    decreases 64 - depth, 3int, 0int,
{
    unfold_solve_row_query(left, subquery, inputs, catalog, depth, s);
    if depth >= 64 {
    } else {
        grows_types(left, inputs, catalog, (depth + 1) as usize, 0, Seq::empty(), s);
        match solve_types(left, inputs, catalog, (depth + 1) as usize, 0, Seq::empty(), s) {
            (s, Err(x)) => {},
            (s, Ok(types)) => {
                grows_nested(subquery, Some(types), inputs, catalog, depth, s);
                match solve_nested(subquery, Some(types), inputs, catalog, depth, s) {
                    (s, Err(x)) => {},
                    (s, Ok(output)) => {
                        grows_row(left, output, inputs, catalog, (depth + 1) as usize, 0, s);
                        match solve_row(left, output, inputs, catalog, (depth + 1) as usize, 0, s) {
                            (s, Err(x)) => {},
                            (s, Ok(_)) => {},
                        }
                    },
                }
            },
        }
    }
}

/// No type of a parameter is lost.
pub(crate) proof fn grows_items(
    l: Seq<ParsedProjectionView>,
    expected: Option<Seq<Option<ScalarTypeView>>>,
    inputs: Seq<InputColumnView>,
    catalog: CatalogView,
    depth: usize,
    i: int,
    done: Seq<Option<ScalarTypeView>>,
    s: SolverView,
)
    ensures
        grown(s, solve_items(l, expected, inputs, catalog, depth, i, done, s).0),
    decreases 64 - depth, 5int, l.len() - i,
{
    unfold_solve_items(l, expected, inputs, catalog, depth, i, done, s);
    if i < 0 || i >= l.len() {
    } else {
        match l[i] {
            ParsedProjectionView::Wildcard => {
                grows_items(l, expected, inputs, catalog, depth, i + 1, with_local_types(inputs, 0, done), s);
            },
            ParsedProjectionView::Expression { expr, .. } => {
                grows_expr(
                expr,
                expected_at(expected, done.len() as int),
                inputs,
                catalog,
                depth,
                s,
            );
                match solve_expr(
                expr,
                expected_at(expected, done.len() as int),
                inputs,
                catalog,
                depth,
                s,
            ) {
                    (s, Err(x)) => {},
                    (s, Ok(t)) => {
                        grows_items(l, expected, inputs, catalog, depth, i + 1, done.push(t), s);
                    },
                }
            },
        }
    }
}

/// No type of a parameter is lost.
pub(crate) proof fn grows_assignments(
    l: Seq<(ParsedIdentifierView, ParsedExprView)>,
    table: TableDefinitionView,
    inputs: Seq<InputColumnView>,
    catalog: CatalogView,
    depth: usize,
    i: int,
    s: SolverView,
)
    ensures
        grown(s, solve_assignments(l, table, inputs, catalog, depth, i, s).0),
    decreases 64 - depth, 5int, l.len() - i,
{
    unfold_solve_assignments(l, table, inputs, catalog, depth, i, s);
    if i < 0 || i >= l.len() {
    } else {
        match find_column_index(table.columns, l[i].0.name, 0) {
            None => {
                grows_assignments(l, table, inputs, catalog, depth, i + 1, s);
            },
            Some(k) => {
                grows_expr(l[i].1, Some(table.columns[k as int].data_type), inputs, catalog, depth, s);
                match solve_expr(l[i].1, Some(table.columns[k as int].data_type), inputs, catalog, depth, s) {
                    (s, Err(x)) => {},
                    (s, Ok(_)) => {
                        grows_assignments(l, table, inputs, catalog, depth, i + 1, s);
                    },
                }
            },
        }
    }
}

/// No type of a parameter is lost.
pub(crate) proof fn grows_values(
    l: Seq<ParsedExprView>,
    indexes: Seq<usize>,
    table: TableDefinitionView,
    inputs: Seq<InputColumnView>,
    catalog: CatalogView,
    depth: usize,
    i: int,
    s: SolverView,
)
    ensures
        grown(s, solve_values(l, indexes, table, inputs, catalog, depth, i, s).0),
    decreases 64 - depth, 5int, l.len() - i,
{
    unfold_solve_values(l, indexes, table, inputs, catalog, depth, i, s);
    if i < 0 || i >= l.len() || i >= indexes.len() {
    } else {
        grows_expr(l[i], Some(table.columns[indexes[i] as int].data_type), inputs, catalog, depth, s);
        match solve_expr(l[i], Some(table.columns[indexes[i] as int].data_type), inputs, catalog, depth, s) {
            (s, Err(x)) => {},
            (s, Ok(_)) => {
                grows_values(l, indexes, table, inputs, catalog, depth, i + 1, s);
            },
        }
    }
}

/// No type of a parameter is lost.
pub(crate) proof fn grows_rows(
    l: Seq<Seq<ParsedExprView>>,
    indexes: Seq<usize>,
    table: TableDefinitionView,
    inputs: Seq<InputColumnView>,
    catalog: CatalogView,
    depth: usize,
    i: int,
    s: SolverView,
)
    ensures
        grown(s, solve_rows(l, indexes, table, inputs, catalog, depth, i, s).0),
    decreases 64 - depth, 6int, l.len() - i,
{
    unfold_solve_rows(l, indexes, table, inputs, catalog, depth, i, s);
    if i < 0 || i >= l.len() {
    } else {
        grows_values(l[i], indexes, table, inputs, catalog, depth, 0, s);
        match solve_values(l[i], indexes, table, inputs, catalog, depth, 0, s) {
            (s, Err(x)) => {},
            (s, Ok(_)) => {
                grows_rows(l, indexes, table, inputs, catalog, depth, i + 1, s);
            },
        }
    }
}

/// No type of a parameter is lost.
pub(crate) proof fn grows_conflict(on: ParsedOnConflictView, table: TableDefinitionView, catalog: CatalogView, depth: usize, s: SolverView)
    ensures
        grown(s, solve_conflict(on, table, catalog, depth, s).0),
    decreases 64 - depth, 7int, 0int,
{
    unfold_solve_conflict(on, table, catalog, depth, s);
    match on.action {
        ParsedConflictActionView::DoNothing => {},
        ParsedConflictActionView::DoUpdate { assignments, filter } => {
            let inputs = conflict_inputs(table);
            grows_assignments(assignments, table, inputs, catalog, depth, 0, s);
            match solve_assignments(assignments, table, inputs, catalog, depth, 0, s) {
                (s, Err(x)) => {},
                (s, Ok(_)) => {
                    grows_some(filter, Some(ScalarTypeView::Boolean), inputs, catalog, depth, s);
                },
            }
        },
    }
}

/// No type of a parameter is lost.
pub(crate) proof fn grows_clauses(
    l: Seq<ParsedMergeClauseView>,
    table: TableDefinitionView,
    inputs: Seq<InputColumnView>,
    catalog: CatalogView,
    depth: usize,
    i: int,
    s: SolverView,
)
    ensures
        grown(s, solve_clauses(l, table, inputs, catalog, depth, i, s).0),
    decreases 64 - depth, 7int, l.len() - i,
{
    unfold_solve_clauses(l, table, inputs, catalog, depth, i, s);
    if i < 0 || i >= l.len() {
    } else {
        grows_some(l[i].predicate, Some(ScalarTypeView::Boolean), inputs, catalog, depth, s);
        match solve_some(l[i].predicate, Some(ScalarTypeView::Boolean), inputs, catalog, depth, s) {
            (s, Err(x)) => {},
            (s, Ok(_)) => {
                match l[i].action {
                    ParsedMergeActionView::Update { assignments } => {
                        grows_assignments(assignments, table, inputs, catalog, depth, 0, s);
                    },
                    ParsedMergeActionView::Insert { columns, values } => {
                        match target_places(columns, table) {
                            Err(x) => {},
                            Ok(indexes) => {
                                grows_values(values, indexes, table, inputs, catalog, depth, 0, s);
                            },
                        }
                    },
                    _ => {},
                }
                match (match l[i].action {
                    ParsedMergeActionView::Update { assignments } => solve_assignments(assignments, table, inputs, catalog, depth, 0, s),
                    ParsedMergeActionView::Insert { columns, values } => match target_places(columns, table) {
                        Err(x) => (s, Err(x)),
                        Ok(indexes) => solve_values(values, indexes, table, inputs, catalog, depth, 0, s),
                    },
                    _ => (s, Ok(())),
            }) {
                    (s, Err(x)) => {},
                    (s, Ok(_)) => {
                        grows_clauses(l, table, inputs, catalog, depth, i + 1, s);
                    },
                }
            },
        }
    }
}

/// No type of a parameter is lost.
pub(crate) proof fn grows_merge(
    m: ParsedMergeView,
    expected: Option<Seq<Option<ScalarTypeView>>>,
    catalog: CatalogView,
    depth: usize,
    s: SolverView,
)
    ensures
        grown(s, solve_merge(m, expected, catalog, depth, s).0),
    decreases 64 - depth, 8int, 0int,
{
    unfold_solve_merge(m, expected, catalog, depth, s);
    match named_table(m.target.name, catalog) {
        Err(x) => {},
        Ok(target) => {
            match named_table(m.source.name, catalog) {
                Err(x) => {},
                Ok(source) => {
                    let inputs = merge_inputs(m, target, source);
                    grows_expr(m.on, Some(ScalarTypeView::Boolean), inputs, catalog, depth, s);
                    match solve_expr(m.on, Some(ScalarTypeView::Boolean), inputs, catalog, depth, s) {
                        (s, Err(x)) => {},
                        (s, Ok(_)) => {
                            grows_clauses(m.clauses, target, inputs, catalog, depth, 0, s);
                            match solve_clauses(m.clauses, target, inputs, catalog, depth, 0, s) {
                                (s, Err(x)) => {},
                                (s, Ok(_)) => {
                                    grows_items(
                            m.returning,
                            expected,
                            with_columns(target.name, target.columns, false, 0, Seq::empty()),
                            catalog,
                            depth,
                            0,
                            Seq::empty(),
                            s,
                        );
                                },
                            }
                        },
                    }
                },
            }
        },
    }
}

/// No type of a parameter is lost.
pub(crate) proof fn grows_arguments(
    l: Seq<ParsedExprView>,
    routines: Seq<RoutineDefinitionView>,
    name: Seq<char>,
    catalog: CatalogView,
    depth: usize,
    i: int,
    s: SolverView,
)
    ensures
        grown(s, solve_arguments(l, routines, name, catalog, depth, i, s).0),
    decreases 64 - depth, 5int, l.len() - i,
{
    unfold_solve_arguments(l, routines, name, catalog, depth, i, s);
    if i < 0 || i >= l.len() {
    } else {
        grows_expr(l[i], agreed_type(routines, name, l.len(), i, 0, None), Seq::empty(), catalog, depth, s);
        match solve_expr(l[i], agreed_type(routines, name, l.len(), i, 0, None), Seq::empty(), catalog, depth, s) {
            (s, Err(x)) => {},
            (s, Ok(_)) => {
                grows_arguments(l, routines, name, catalog, depth, i + 1, s);
            },
        }
    }
}

/// No type of a parameter is lost.
pub(crate) proof fn grows_joins(
    l: Seq<ParsedJoinView>,
    outer: Seq<InputColumnView>,
    catalog: CatalogView,
    depth: usize,
    i: int,
    local: Seq<InputColumnView>,
    s: SolverView,
)
    ensures
        grown(s, solve_joins(l, outer, catalog, depth, i, local, s).0),
    decreases 64 - depth, 7int, l.len() - i,
{
    unfold_solve_joins(l, outer, catalog, depth, i, local, s);
    if i < 0 || i >= l.len() {
    } else {
        grows_source(l[i].source, l[i].kind == JoinKind::Left, outer, catalog, depth, local, s);
        match solve_source(l[i].source, l[i].kind == JoinKind::Left, outer, catalog, depth, local, s) {
            (s, Err(x)) => {},
            (s, Ok(local)) => {
                match with_outer(outer, 0, local) {
                    Err(x) => {},
                    Ok(inputs) => {
                        grows_expr(l[i].on, Some(ScalarTypeView::Boolean), inputs, catalog, depth, s);
                        match solve_expr(l[i].on, Some(ScalarTypeView::Boolean), inputs, catalog, depth, s) {
                            (s, Err(x)) => {},
                            (s, Ok(_)) => {
                                grows_joins(l, outer, catalog, depth, i + 1, local, s);
                            },
                        }
                    },
                }
            },
        }
    }
}

/// No type of a parameter is lost.
pub(crate) proof fn grows_source(
    source: ParsedJoinSourceView,
    nullable: bool,
    outer: Seq<InputColumnView>,
    catalog: CatalogView,
    depth: usize,
    local: Seq<InputColumnView>,
    s: SolverView,
)
    ensures
        grown(s, solve_source(source, nullable, outer, catalog, depth, local, s).0),
    decreases 64 - depth, 6int, 0int,
{
    unfold_solve_source(source, nullable, outer, catalog, depth, local, s);
    match source {
        ParsedJoinSourceView::Table(t) => {},
        ParsedJoinSourceView::Derived { lateral, query, alias, columns } => {
            match (if lateral {
                with_outer(outer, 0, local)
            } else {
                Ok(Seq::empty())
        }) {
                Err(x) => {},
                Ok(visible) => {
                    grows_nested(*query, None, visible, catalog, depth, s);
                    match solve_nested(*query, None, visible, catalog, depth, s) {
                        (s, Err(x)) => {},
                        (s, Ok(_)) => {},
                    }
                },
            }
        },
    }
}

/// No type of a parameter is lost.
pub(crate) proof fn grows_advanced(
    p: SelectPartsView,
    outer: Seq<InputColumnView>,
    expected: Option<Seq<Option<ScalarTypeView>>>,
    catalog: CatalogView,
    depth: usize,
    s: SolverView,
)
    ensures
        grown(s, solve_advanced(p, outer, expected, catalog, depth, s).0),
    decreases 64 - depth, 8int, 0int,
{
    unfold_solve_advanced(p, outer, expected, catalog, depth, s);
    match relation_inputs(p.table.name, alias_name(p.table.alias), catalog, false, Seq::empty()) {
        Err(x) => {},
        Ok(own) => {
            grows_joins(p.joins, outer, catalog, depth, 0, own, s);
            match solve_joins(p.joins, outer, catalog, depth, 0, own, s) {
                (s, Err(x)) => {},
                (s, Ok(local)) => {
                    match with_outer(outer, 0, local) {
                        Err(x) => {},
                        Ok(inputs) => {
                            grows_some(p.filter, Some(ScalarTypeView::Boolean), inputs, catalog, depth, s);
                            match solve_some(p.filter, Some(ScalarTypeView::Boolean), inputs, catalog, depth, s) {
                                (s, Err(x)) => {},
                                (s, Ok(_)) => {
                                    grows_each(p.group_by, None, inputs, catalog, depth, 0, s);
                                    match solve_each(p.group_by, None, inputs, catalog, depth, 0, s) {
                                        (s, Err(x)) => {},
                                        (s, Ok(_)) => {
                                            grows_some(p.having, Some(ScalarTypeView::Boolean), inputs, catalog, depth, s);
                                            match solve_some(p.having, Some(ScalarTypeView::Boolean), inputs, catalog, depth, s) {
                                                (s, Err(x)) => {},
                                                (s, Ok(_)) => {
                                                    grows_page(p.order_by, p.offset, p.limit, inputs, catalog, depth, s);
                                                    match solve_page(p.order_by, p.offset, p.limit, inputs, catalog, depth, s) {
                                                        (s, Err(x)) => {},
                                                        (s, Ok(_)) => {
                                                            grows_items(p.projection, expected, local, catalog, depth, 0, Seq::empty(), s);
                                                        },
                                                    }
                                                },
                                            }
                                        },
                                    }
                                },
                            }
                        },
                    }
                },
            }
        },
    }
}

/// No type of a parameter is lost.
pub(crate) proof fn grows_page(
    order_by: Seq<ParsedOrderView>,
    offset: Option<ParsedExprView>,
    limit: Option<ParsedExprView>,
    inputs: Seq<InputColumnView>,
    catalog: CatalogView,
    depth: usize,
    s: SolverView,
)
    ensures
        grown(s, solve_page(order_by, offset, limit, inputs, catalog, depth, s).0),
    decreases 64 - depth, 6int, 0int,
{
    unfold_solve_page(order_by, offset, limit, inputs, catalog, depth, s);
    grows_orders(order_by, inputs, catalog, depth, 0, s);
    match solve_orders(order_by, inputs, catalog, depth, 0, s) {
        (s, Err(x)) => {},
        (s, Ok(_)) => {
            grows_some(offset, Some(ScalarTypeView::Int64), inputs, catalog, depth, s);
            match solve_some(offset, Some(ScalarTypeView::Int64), inputs, catalog, depth, s) {
                (s, Err(x)) => {},
                (s, Ok(_)) => {
                    grows_some(limit, Some(ScalarTypeView::Int64), inputs, catalog, depth, s);
                },
            }
        },
    }
}

/// No type of a parameter is lost.
pub(crate) proof fn grows_select(
    p: SelectPartsView,
    outer: Seq<InputColumnView>,
    expected: Option<Seq<Option<ScalarTypeView>>>,
    catalog: CatalogView,
    depth: usize,
    s: SolverView,
)
    ensures
        grown(s, solve_select(p, outer, expected, catalog, depth, s).0),
    decreases 64 - depth, 8int, 0int,
{
    unfold_solve_select(p, outer, expected, catalog, depth, s);
    match relation_inputs(p.table.name, None, catalog, false, Seq::empty()) {
        Err(x) => {},
        Ok(local) => {
            match with_outer(outer, 0, local) {
                Err(x) => {},
                Ok(inputs) => {
                    grows_some(p.filter, Some(ScalarTypeView::Boolean), inputs, catalog, depth, s);
                    match solve_some(p.filter, Some(ScalarTypeView::Boolean), inputs, catalog, depth, s) {
                        (s, Err(x)) => {},
                        (s, Ok(_)) => {
                            grows_page(p.order_by, p.offset, p.limit, inputs, catalog, depth, s);
                            match solve_page(p.order_by, p.offset, p.limit, inputs, catalog, depth, s) {
                                (s, Err(x)) => {},
                                (s, Ok(_)) => {
                                    grows_items(p.projection, expected, inputs, catalog, depth, 0, Seq::empty(), s);
                                },
                            }
                        },
                    }
                },
            }
        },
    }
}

/// No type of a parameter is lost.
pub(crate) proof fn grows_set(
    left: ParsedStatementView,
    right: ParsedStatementView,
    offset: Option<ParsedExprView>,
    limit: Option<ParsedExprView>,
    outer: Seq<InputColumnView>,
    expected: Option<Seq<Option<ScalarTypeView>>>,
    catalog: CatalogView,
    depth: usize,
    s: SolverView,
)
    ensures
        grown(s, solve_set(left, right, offset, limit, outer, expected, catalog, depth, s).0),
    decreases 64 - depth, 8int, 0int,
{
    unfold_solve_set(left, right, offset, limit, outer, expected, catalog, depth, s);
    grows_pair(left, right, expected, outer, catalog, depth, s);
    match solve_pair(left, right, expected, outer, catalog, depth, s) {
        (s, Err(x)) => {},
        (s, Ok((a, b))) => {
            if a.len() == b.len() {
                grows_pair(left, right, Some(output_types(a, b)), outer, catalog, depth, s);
            } else {
            }
            match (if a.len() == b.len() {
                solve_pair(left, right, Some(output_types(a, b)), outer, catalog, depth, s)
            } else {
                (s, Ok((a, b)))
        }) {
                (s, Err(x)) => {},
                (s, Ok((a, b))) => {
                    grows_some(offset, Some(ScalarTypeView::Int64), Seq::empty(), catalog, depth, s);
                    match solve_some(offset, Some(ScalarTypeView::Int64), Seq::empty(), catalog, depth, s) {
                        (s, Err(x)) => {},
                        (s, Ok(_)) => {
                            grows_some(limit, Some(ScalarTypeView::Int64), Seq::empty(), catalog, depth, s);
                            match solve_some(limit, Some(ScalarTypeView::Int64), Seq::empty(), catalog, depth, s) {
                                (s, Err(x)) => {},
                                (s, Ok(_)) => {},
                            }
                        },
                    }
                },
            }
        },
    }
}

/// No type of a parameter is lost.
pub(crate) proof fn grows_pair(
    left: ParsedStatementView,
    right: ParsedStatementView,
    expected: Option<Seq<Option<ScalarTypeView>>>,
    outer: Seq<InputColumnView>,
    catalog: CatalogView,
    depth: usize,
    s: SolverView,
)
    ensures
        grown(s, solve_pair(left, right, expected, outer, catalog, depth, s).0),
    decreases 64 - depth, 7int, 0int,
{
    unfold_solve_pair(left, right, expected, outer, catalog, depth, s);
    grows_nested(left, expected, outer, catalog, depth, s);
    match solve_nested(left, expected, outer, catalog, depth, s) {
        (s, Err(x)) => {},
        (s, Ok(a)) => {
            grows_nested(right, expected, outer, catalog, depth, s);
            match solve_nested(right, expected, outer, catalog, depth, s) {
                (s, Err(x)) => {},
                (s, Ok(b)) => {},
            }
        },
    }
}

/// No type of a parameter is lost.
pub(crate) proof fn grows_cte(
    cte: ParsedCteView,
    recursive: bool,
    schema_name: Seq<char>,
    depth: usize,
    state: WithTypesView,
    s: SolverView,
)
    ensures
        grown(s, solve_cte(cte, recursive, schema_name, depth, state, s).0),
    decreases 64 - depth, 7int, 0int,
{
    unfold_solve_cte(cte, recursive, schema_name, depth, state, s);
    match solver_terms(cte, recursive, state.replacements) {
        Err(x) => {},
        Ok(terms) => {
            match terms {
                None => {},
                Some(terms) => {
                    grows_nested(terms.seed, None, Seq::empty(), state.catalog, depth, s);
                    match solve_nested(terms.seed, None, Seq::empty(), state.catalog, depth, s) {
                        (s, Err(x)) => {},
                        (s, Ok(types)) => {
                            match tried_schema(terms.seed, state.catalog, Seq::empty(), depth, s.types) {
                                None => {},
                                Some(schema) => {
                                    match solver_relation(cte, schema, schema_name, state) {
                                        Err(x) => {},
                                        Ok((next, output)) => {
                                            match terms.term {
                                                None => {},
                                                Some(term) => {
                                                    match rewritten(term, next.replacements, 0) {
                                                        Err(x) => {},
                                                        Ok(term) => {
                                                            grows_nested(
                                    term,
                                    Some(field_types(output.fields)),
                                    Seq::empty(),
                                    next.catalog,
                                    depth,
                                    s,
                                );
                                                            match solve_nested(
                                    term,
                                    Some(field_types(output.fields)),
                                    Seq::empty(),
                                    next.catalog,
                                    depth,
                                    s,
                                ) {
                                                                (s, Err(x)) => {},
                                                                (s, Ok(_)) => {},
                                                            }
                                                        },
                                                    }
                                                },
                                            }
                                        },
                                    }
                                },
                            }
                        },
                    }
                },
            }
        },
    }
}

/// No type of a parameter is lost.
pub(crate) proof fn grows_ctes(
    l: Seq<ParsedCteView>,
    recursive: bool,
    schema_name: Seq<char>,
    depth: usize,
    i: int,
    state: WithTypesView,
    s: SolverView,
)
    ensures
        grown(s, solve_ctes(l, recursive, schema_name, depth, i, state, s).0),
    decreases 64 - depth, 8int, l.len() - i,
{
    unfold_solve_ctes(l, recursive, schema_name, depth, i, state, s);
    if i < 0 || i >= l.len() || state.early is Some {
    } else {
        grows_cte(l[i], recursive, schema_name, depth, state, s);
        match solve_cte(l[i], recursive, schema_name, depth, state, s) {
            (s, Err(x)) => {},
            (s, Ok(state)) => {
                grows_ctes(l, recursive, schema_name, depth, i + 1, state, s);
            },
        }
    }
}

/// No type of a parameter is lost.
pub(crate) proof fn grows_with(
    recursive: bool,
    ctes: Seq<ParsedCteView>,
    body: ParsedStatementView,
    expected: Option<Seq<Option<ScalarTypeView>>>,
    catalog: CatalogView,
    depth: usize,
    s: SolverView,
)
    ensures
        grown(s, solve_with(recursive, ctes, body, expected, catalog, depth, s).0),
    decreases 64 - depth, 9int, 0int,
{
    unfold_solve_with(recursive, ctes, body, expected, catalog, depth, s);
    match solver_catalog(catalog, depth) {
        Err(x) => {},
        Ok(transient) => {
            grows_ctes(
            ctes,
            recursive,
            solver_namespace(depth),
            depth,
            0,
            WithTypesView { catalog: transient, replacements: Seq::empty(), early: None },
            s,
        );
            match solve_ctes(
            ctes,
            recursive,
            solver_namespace(depth),
            depth,
            0,
            WithTypesView { catalog: transient, replacements: Seq::empty(), early: None },
            s,
        ) {
                (s, Err(x)) => {},
                (s, Ok(state)) => {
                    match state.early {
                        Some(types) => {},
                        None => {
                            match rewritten(body, state.replacements, 0) {
                                Err(x) => {},
                                Ok(body) => {
                                    grows_nested(body, expected, Seq::empty(), state.catalog, depth, s);
                                },
                            }
                        },
                    }
                },
            }
        },
    }
}

/// No type of a parameter is lost.
pub(crate) proof fn grows_insert(
    table: ParsedObjectNameView,
    columns: Seq<ParsedIdentifierView>,
    rows: Seq<Seq<ParsedExprView>>,
    on_conflict: Option<ParsedOnConflictView>,
    returning: Seq<ParsedProjectionView>,
    expected: Option<Seq<Option<ScalarTypeView>>>,
    catalog: CatalogView,
    depth: usize,
    s: SolverView,
)
    ensures
        grown(s, solve_insert(table, columns, rows, on_conflict, returning, expected, catalog, depth, s).0),
    decreases 64 - depth, 8int, 0int,
{
    unfold_solve_insert(table, columns, rows, on_conflict, returning, expected, catalog, depth, s);
    match dml_relation(table, TriggerEvent::Insert, catalog) {
        Err(x) => {},
        Ok(relation) => {
            let table = relation.scope;
            let inputs = with_columns(table.name, table.columns, false, 0, Seq::empty());
            match target_places(columns, table) {
                Err(x) => {},
                Ok(indexes) => {
                    grows_rows(rows, indexes, table, Seq::empty(), catalog, depth, 0, s);
                    match solve_rows(rows, indexes, table, Seq::empty(), catalog, depth, 0, s) {
                        (s, Err(x)) => {},
                        (s, Ok(_)) => {
                            match on_conflict {
                                None => {
                                    grows_items(returning, expected, inputs, catalog, depth, 0, Seq::empty(), s);
                                },
                                Some(on) => {
                                    if relation.target is View {
                                    } else {
                                        grows_conflict(on, table, catalog, depth, s);
                                        match solve_conflict(on, table, catalog, depth, s) {
                                            (s, Err(x)) => {},
                                            (s, Ok(_)) => {
                                                grows_items(returning, expected, inputs, catalog, depth, 0, Seq::empty(), s);
                                            },
                                        }
                                    }
                                },
                            }
                        },
                    }
                },
            }
        },
    }
}

/// No type of a parameter is lost.
pub(crate) proof fn grows_routine(
    name: ParsedObjectNameView,
    arguments: Seq<ParsedExprView>,
    catalog: CatalogView,
    depth: usize,
    s: SolverView,
)
    ensures
        grown(s, solve_routine(name, arguments, catalog, depth, s).0),
    decreases 64 - depth, 6int, 0int,
{
    unfold_solve_routine(name, arguments, catalog, depth, s);
    match split_name(name) {
        Err(x) => {},
        Ok(n) => {
            match catalog.schema(n.schema) {
                None => {},
                Some(schema) => {
                    grows_arguments(arguments, schema.routines, n.name, catalog, depth, 0, s);
                    match solve_arguments(arguments, schema.routines, n.name, catalog, depth, 0, s) {
                        (s, Err(x)) => {},
                        (s, Ok(_)) => {},
                    }
                },
            }
        },
    }
}

/// No type of a parameter is lost.
pub(crate) proof fn grows_statement(
    st: ParsedStatementView,
    catalog: CatalogView,
    outer: Seq<InputColumnView>,
    expected: Option<Seq<Option<ScalarTypeView>>>,
    depth: usize,
    s: SolverView,
)
    ensures
        grown(s, solve_statement(st, catalog, outer, expected, depth, s).0),
    decreases 64 - depth, 10int, 0int,
{
    unfold_solve_statement(st, catalog, outer, expected, depth, s);
    if depth >= 64 {
    } else {
        match st {
            ParsedStatementView::Select { table, projection, filter, order_by, offset, limit } => {
                grows_select(
                SelectPartsView {
                    table: ParsedTableView { name: table, alias: None },
                    joins: Seq::empty(),
                    projection,
                    distinct: false,
                    filter,
                    group_by: Seq::empty(),
                    having: None,
                    order_by,
                    offset,
                    limit,
                },
                outer,
                expected,
                catalog,
                depth,
                s,
            );
            },
            ParsedStatementView::AdvancedSelect {
                table,
                joins,
                projection,
                distinct,
                filter,
                group_by,
                having,
                order_by,
                offset,
                limit,
            } => {
                grows_advanced(
                SelectPartsView { table, joins, projection, distinct, filter, group_by, having, order_by, offset, limit },
                outer,
                expected,
                catalog,
                depth,
                s,
            );
            },
            ParsedStatementView::SetOperation { left, right, offset, limit, .. } => {
                grows_set(
                *left,
                *right,
                offset,
                limit,
                outer,
                expected,
                catalog,
                depth,
                s,
            );
            },
            ParsedStatementView::With { recursive, ctes, body } => {
                grows_with(recursive, ctes, *body, expected, catalog, depth, s);
            },
            ParsedStatementView::Insert { table, columns, rows, on_conflict, returning } => {
                grows_insert(
                table,
                columns,
                rows,
                on_conflict,
                returning,
                expected,
                catalog,
                depth,
                s,
            );
            },
            ParsedStatementView::Update {
                table,
                assignments,
                filter,
                returning,
            } => {
                match dml_relation(table, TriggerEvent::Update, catalog) {
                    Err(x) => {},
                    Ok(relation) => {
                        let table = relation.scope;
                        let inputs = with_columns(table.name, table.columns, false, 0, Seq::empty());
                        grows_assignments(assignments, table, inputs, catalog, depth, 0, s);
                        match solve_assignments(assignments, table, inputs, catalog, depth, 0, s) {
                            (s, Err(x)) => {},
                            (s, Ok(_)) => {
                                grows_some(filter, Some(ScalarTypeView::Boolean), inputs, catalog, depth, s);
                                match solve_some(filter, Some(ScalarTypeView::Boolean), inputs, catalog, depth, s) {
                                    (s, Err(x)) => {},
                                    (s, Ok(_)) => {
                                        grows_items(returning, expected, inputs, catalog, depth, 0, Seq::empty(), s);
                                    },
                                }
                            },
                        }
                    },
                }
            },
            ParsedStatementView::Delete { table, filter, returning } => {
                match dml_relation(table, TriggerEvent::Delete, catalog) {
                    Err(x) => {},
                    Ok(relation) => {
                        let table = relation.scope;
                        let inputs = with_columns(table.name, table.columns, false, 0, Seq::empty());
                        grows_some(filter, Some(ScalarTypeView::Boolean), inputs, catalog, depth, s);
                        match solve_some(filter, Some(ScalarTypeView::Boolean), inputs, catalog, depth, s) {
                            (s, Err(x)) => {},
                            (s, Ok(_)) => {
                                grows_items(returning, expected, inputs, catalog, depth, 0, Seq::empty(), s);
                            },
                        }
                    },
                }
            },
            ParsedStatementView::Merge(m) => {
                grows_merge(m, expected, catalog, depth, s);
            },
            ParsedStatementView::Explain { statement } => {
                grows_nested(*statement, expected, outer, catalog, depth, s);
            },
            ParsedStatementView::CreateView { query, .. } => {
                grows_nested(*query, expected, outer, catalog, depth, s);
            },
            ParsedStatementView::Call { name, arguments } => {
                grows_routine(name, arguments, catalog, depth, s);
            },
            ParsedStatementView::RoutineSelect { name, arguments, .. } => {
                grows_routine(name, arguments, catalog, depth, s);
            },
            ParsedStatementView::ScalarSelect { projection } => {
                grows_items(
                projection,
                expected,
                Seq::empty(), catalog, depth,
                0,
                Seq::empty(),
                s,
            );
            },
            ParsedStatementView::SequenceValue { operation, .. } => {
                match operation {
                    ParsedSequenceOperationView::SetValue { value, .. } => {
                        grows_expr(
                    value,
                    Some(ScalarTypeView::Int64),
                    Seq::empty(),
                    catalog,
                    depth,
                    s,
                );
                        match solve_expr(
                    value,
                    Some(ScalarTypeView::Int64),
                    Seq::empty(),
                    catalog,
                    depth,
                    s,
                ) {
                            (s, Err(x)) => {},
                            (s, Ok(_)) => {},
                        }
                    },
                    _ => {},
                }
            },
            _ => {},
        }
    }
}

} // verus!
