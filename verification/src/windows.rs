//! Window functions: their calls, frames and slots.

use vstd::prelude::*;

use crate::binding::{
    aggregate_result_type, aggregate_type, bind_each, bind_expr_multi, bound_form, bound_list, bound_option, input_scope, list_result,
    make_expr, option_view, Expectation,
};
use crate::bound::{
    BoundExpr, BoundExprView, BoundOrder, BoundOrderView, BoundWindow, BoundWindowFrame, BoundWindowFrameBound, BoundWindowFrameBoundView,
    BoundWindowFrameView, BoundWindowView,
};
use crate::names::{either_place, first_place};
use crate::ordering::{bound_expression_order, order_over, order_result};
use crate::predicates::{
    any_holds_subquery, any_holds_window, any_order_holds_subquery, any_order_holds_window, expr_has_aggregate, expr_has_subquery,
    expr_has_window, exprs_have_subquery, exprs_have_window, holds_aggregate, holds_subquery, holds_window, option_has_subquery,
    option_has_window, orders_have_subquery, orders_have_window,
};
use crate::scope::{expr_result, Checked, InputColumn, InputColumnView, Scope};
use crate::syntax::{
    AggregateFunction, ParsedExpr, ParsedExprKind, ParsedExprKindView, ParsedExprView, ParsedOrder, ParsedOrderView, ParsedWindowCall,
    ParsedWindowCallView, ParsedWindowFrame, ParsedWindowFrameBound, ParsedWindowFrameBoundView, ParsedWindowFrameView, ParsedWindowSpec,
    ParsedWindowSpecView, WindowFrameUnits, WindowFunction,
};
use crate::text::{copy_items, same_text, text};
use crate::types::{
    error, error_at, internal_error, unsupported_at, unsupported_error, DATATYPE_MISMATCH, DbError, Result, ScalarType, ScalarTypeView,
};
use crate::typing::{is_numeric, numeric};

verus! {

/// A bound call of a window function.
pub struct BoundWindowCall {
    pub function: WindowFunction,
    pub arguments: Vec<BoundExpr>,
    pub count_star: bool,
    pub filter: Option<BoundExpr>,
    pub data_type: ScalarType,
    pub nullable: bool,
}

/// Mathematical contents of a [`BoundWindowCall`].
pub struct BoundWindowCallView {
    pub function: WindowFunction,
    pub arguments: Seq<BoundExprView>,
    pub count_star: bool,
    pub filter: Option<BoundExprView>,
    pub data_type: ScalarTypeView,
    pub nullable: bool,
}

impl BoundWindowCall {
    /// The value as mathematical data.
    pub open spec fn view(&self) -> BoundWindowCallView {
        BoundWindowCallView {
            function: self.function,
            arguments: BoundExpr::views(self.arguments@),
            count_star: self.count_star,
            filter: match self.filter {
                Some(f) => Some(f@),
                None => None,
            },
            data_type: self.data_type@,
            nullable: self.nullable,
        }
    }
}

/// The bound form of an aggregate over a window.
pub open spec fn aggregate_window(
    call: ParsedWindowCallView,
    function: AggregateFunction,
    inputs: Seq<InputColumnView>,
    position: Option<usize>,
) -> Checked<BoundWindowCallView> {
    let scope = input_scope(inputs, true);
    let argument: Checked<Option<BoundExprView>> = if call.arguments.len() == 0 && call.count_star && function == AggregateFunction::Count {
        Ok(None)
    } else if call.arguments.len() == 1 && !call.count_star {
        match bound_form(call.arguments[0], scope, None) {
            Err(x) => Err(x),
            Ok(b) => Ok(Some(b)),
        }
    } else {
        Err(internal_error("aggregate window argument shape changed after parsing"@))
    };
    match argument {
        Err(x) => Err(x),
        Ok(a) => match bound_option(call.filter, scope, Some(ScalarTypeView::Boolean)) {
            Err(x) => Err(x),
            Ok(filter) => match aggregate_type(
                function,
                match a {
                    Some(b) => Some(b.data_type),
                    None => None,
                },
            ) {
                None => Err(error_at(DATATYPE_MISMATCH@, "aggregate window argument has an incompatible type"@, position)),
                Some((data_type, nullable)) => Ok(
                    BoundWindowCallView {
                        function: call.function,
                        arguments: match a {
                            Some(b) => seq![b],
                            None => Seq::empty(),
                        },
                        count_star: call.count_star,
                        filter,
                        data_type,
                        nullable,
                    },
                ),
            },
        },
    }
}

fn bind_aggregate_window(
    call: &ParsedWindowCall,
    function: AggregateFunction,
    inputs: &Vec<InputColumn>,
    position: Option<usize>,
) -> (r: Result<
    BoundWindowCall,
>)
    ensures
        (match r {
            Ok(c) => Ok(c@),
            Err(e) => Err(e@),
        }) == aggregate_window(call@, function, InputColumn::views(inputs@), position),
{
    proof {
        call.unfold();
    }
    let mut arguments: Vec<BoundExpr> = Vec::new();
    assert(BoundExpr::views(arguments@) =~= Seq::empty());
    if call.arguments.len() == 0 && call.count_star && function == AggregateFunction::Count {
    } else if call.arguments.len() == 1 && !call.count_star {
        assert(call@.arguments[0] == call.arguments@[0]@);
        let b = bind_expr_multi(&call.arguments[0], inputs, None, true)?;
        proof {
            b.unfold();
        }
        arguments.push(b);
        assert(BoundExpr::views(arguments@) =~= seq![b@]);
    } else {
        return Err(DbError::internal("aggregate window argument shape changed after parsing"));
    }
    let filter: Option<BoundExpr> = match &call.filter {
        None => None,
        Some(f) => Some(bind_expr_multi(f, inputs, Some(&ScalarType::Boolean), true)?),
    };
    let argument_type: Option<&ScalarType> = if arguments.len() == 0 {
        None
    } else {
        Some(&arguments[0].data_type)
    };
    match aggregate_result_type(function, argument_type) {
        None => Err(DbError::at(DATATYPE_MISMATCH, text("aggregate window argument has an incompatible type"), position)),
        Some((data_type, nullable)) => Ok(
            BoundWindowCall { function: call.function, arguments, count_star: call.count_star, filter, data_type, nullable },
        ),
    }
}

/// Whether a window function returns a value of its first argument.
pub open spec fn takes_value(f: WindowFunction) -> bool {
    match f {
        WindowFunction::RowNumber | WindowFunction::Rank | WindowFunction::DenseRank => false,
        _ => true,
    }
}

/// How many arguments a ranking or value function can bind.
pub open spec fn most_arguments(f: WindowFunction) -> int {
    match f {
        WindowFunction::RowNumber | WindowFunction::Rank | WindowFunction::DenseRank => 0,
        WindowFunction::Lag | WindowFunction::Lead => 3,
        WindowFunction::NthValue => 2,
        _ => 1,
    }
}

/// The bound arguments of a ranking or value function.
pub open spec fn value_arguments(
    f: WindowFunction,
    arguments: Seq<ParsedExprView>,
    inputs: Seq<InputColumnView>,
) -> Checked<Seq<BoundExprView>> {
    if !takes_value(f) {
        Ok(Seq::empty())
    } else if arguments.len() == 0 {
        Err(internal_error("value window function argument disappeared"@))
    } else {
        match bound_form(arguments[0], input_scope(inputs, true), None) {
            Err(x) => Err(x),
            Ok(first) => if f == WindowFunction::NthValue && arguments.len() < 2 {
                Err(internal_error("NTH_VALUE offset disappeared"@))
            } else if most_arguments(f) < 2 || arguments.len() < 2 {
                Ok(seq![first])
            } else {
                match bound_form(arguments[1], input_scope(inputs, false), Some(ScalarTypeView::Int64)) {
                    Err(x) => Err(x),
                    Ok(second) => if most_arguments(f) < 3 || arguments.len() < 3 {
                        Ok(seq![first, second])
                    } else {
                        match bound_form(arguments[2], input_scope(inputs, false), Some(first.data_type)) {
                            Err(x) => Err(x),
                            Ok(third) => Ok(seq![first, second, third]),
                        }
                    },
                }
            },
        }
    }
}

fn bind_value_arguments(f: WindowFunction, arguments: &Vec<ParsedExpr>, inputs: &Vec<InputColumn>) -> (r: Result<Vec<BoundExpr>>)
    ensures
        list_result(r) == value_arguments(f, ParsedExpr::views(arguments@), InputColumn::views(inputs@)),
{
    let ghost v = ParsedExpr::views(arguments@);
    let mut out: Vec<BoundExpr> = Vec::new();
    assert(BoundExpr::views(out@) =~= Seq::empty());
    match f {
        WindowFunction::RowNumber | WindowFunction::Rank | WindowFunction::DenseRank => {
            return Ok(out);
        },
        _ => {},
    }
    if arguments.len() == 0 {
        return Err(DbError::internal("value window function argument disappeared"));
    }
    assert(v[0] == arguments@[0]@);
    let first = bind_expr_multi(&arguments[0], inputs, None, true)?;
    proof {
        first.unfold();
    }
    let value_type = first.data_type.clone();
    out.push(first);
    assert(BoundExpr::views(out@) =~= seq![first@]);
    if f == WindowFunction::NthValue && arguments.len() < 2 {
        return Err(DbError::internal("NTH_VALUE offset disappeared"));
    }
    let shifts = f == WindowFunction::Lag || f == WindowFunction::Lead;
    if !(shifts || f == WindowFunction::NthValue) || arguments.len() < 2 {
        return Ok(out);
    }
    assert(v[1] == arguments@[1]@);
    let second = bind_expr_multi(&arguments[1], inputs, Some(&ScalarType::Int64), false)?;
    out.push(second);
    assert(BoundExpr::views(out@) =~= seq![first@, second@]);
    if !shifts || arguments.len() < 3 {
        return Ok(out);
    }
    assert(v[2] == arguments@[2]@);
    let third = bind_expr_multi(&arguments[2], inputs, Some(&value_type), false)?;
    out.push(third);
    assert(BoundExpr::views(out@) =~= seq![first@, second@, third@]);
    Ok(out)
}

/// The bound form of a call of a window function.
pub open spec fn window_call(
    call: ParsedWindowCallView,
    inputs: Seq<InputColumnView>,
    position: Option<usize>,
) -> Checked<BoundWindowCallView> {
    if any_holds_window(call.arguments, 0) || (call.filter is Some && holds_window(*call.filter->0)) {
        Err(error_at("42P20"@, "window function calls cannot be nested"@, position))
    } else if any_holds_subquery(call.arguments, 0) || (call.filter is Some && holds_subquery(*call.filter->0)) {
        Err(unsupported_error("subquery expressions in window function arguments are not supported yet"@, position))
    } else {
        match call.function {
            WindowFunction::Aggregate(function) => aggregate_window(call, function, inputs, position),
            _ => match value_arguments(call.function, call.arguments, inputs) {
                Err(x) => Err(x),
                Ok(arguments) => if call.arguments.len() > most_arguments(call.function) {
                    Err(internal_error("window function retained an unexpected argument"@))
                } else {
                    Ok(
                        BoundWindowCallView {
                            function: call.function,
                            arguments,
                            count_star: false,
                            filter: None,
                            data_type: if arguments.len() > 0 {
                                arguments[0].data_type
                            } else {
                                ScalarTypeView::Int64
                            },
                            nullable: arguments.len() > 0,
                        },
                    )
                },
            },
        }
    }
}

/// Binds a call of a window function.
pub fn bind_window_call(call: &ParsedWindowCall, inputs: &Vec<InputColumn>, position: Option<usize>) -> (r: Result<BoundWindowCall>)
    ensures
        (match r {
            Ok(c) => Ok(c@),
            Err(e) => Err(e@),
        }) == window_call(call@, InputColumn::views(inputs@), position),
{
    proof {
        call.unfold();
    }
    if exprs_have_window(&call.arguments) || option_has_window(&call.filter) {
        return Err(DbError::at("42P20", text("window function calls cannot be nested"), position));
    }
    if exprs_have_subquery(&call.arguments) || option_has_subquery(&call.filter) {
        return Err(unsupported_at("subquery expressions in window function arguments are not supported yet", position));
    }
    if let WindowFunction::Aggregate(function) = call.function {
        return bind_aggregate_window(call, function, inputs, position);
    }
    let arguments = bind_value_arguments(call.function, &call.arguments, inputs)?;
    let most: usize = match call.function {
        WindowFunction::RowNumber | WindowFunction::Rank | WindowFunction::DenseRank => 0,
        WindowFunction::Lag | WindowFunction::Lead => 3,
        WindowFunction::NthValue => 2,
        _ => 1,
    };
    if call.arguments.len() > most {
        return Err(DbError::internal("window function retained an unexpected argument"));
    }
    let nullable = arguments.len() > 0;
    let data_type = if nullable {
        assert(BoundExpr::views(arguments@)[0] == arguments@[0]@);
        proof {
            arguments@[0].unfold();
        }
        arguments[0].data_type.clone()
    } else {
        ScalarType::Int64
    };
    Ok(BoundWindowCall { function: call.function, arguments, count_star: false, filter: None, data_type, nullable })
}

/// Whether a frame bound counts from the current row.
pub open spec fn has_offset(b: ParsedWindowFrameBoundView) -> bool {
    b is Preceding || b is Following
}

/// The type of the offsets of a frame.
pub open spec fn offset_type(
    frame: ParsedWindowFrameView,
    inputs: Seq<InputColumnView>,
    order_by: Seq<BoundOrderView>,
    position: Option<usize>,
) -> Checked<ScalarTypeView> {
    if frame.units is Rows || !(has_offset(frame.start_bound) || has_offset(frame.end_bound)) {
        Ok(ScalarTypeView::Int64)
    } else if order_by.len() != 1 {
        Err(error_at("42P20"@, "RANGE with offset PRECEDING/FOLLOWING requires exactly one ORDER BY column"@, position))
    } else {
        let key: Checked<ScalarTypeView> = match order_by[0].expression {
            Some(e) => Ok(e.data_type),
            None => if order_by[0].column_index < inputs.len() {
                Ok(inputs[order_by[0].column_index as int].data_type)
            } else {
                Err(internal_error("window ORDER BY type index is out of bounds"@))
            },
        };
        match key {
            Err(x) => Err(x),
            Ok(t) => if numeric(t) {
                Ok(t)
            } else {
                Err(error_at("42883"@, "RANGE offset is supported only for numeric ORDER BY expressions"@, position))
            },
        }
    }
}

fn find_offset_type(
    frame: &ParsedWindowFrame,
    inputs: &Vec<InputColumn>,
    order_by: &Vec<BoundOrder>,
    position: Option<usize>,
) -> (r: Result<
    ScalarType,
>)
    ensures
        (match r {
            Ok(t) => Ok(t@),
            Err(e) => Err(e@),
        }) == offset_type(frame@, InputColumn::views(inputs@), BoundOrder::views(order_by@), position),
{
    proof {
        frame.unfold();
        frame.start_bound.unfold();
        frame.end_bound.unfold();
    }
    let start = matches!(frame.start_bound, ParsedWindowFrameBound::Preceding(_)) || matches!(
        frame.start_bound,
        ParsedWindowFrameBound::Following(_)
    );
    let end = matches!(frame.end_bound, ParsedWindowFrameBound::Preceding(_)) || matches!(
        frame.end_bound,
        ParsedWindowFrameBound::Following(_)
    );
    if matches!(frame.units, WindowFrameUnits::Rows) || !(start || end) {
        return Ok(ScalarType::Int64);
    }
    if order_by.len() != 1 {
        return Err(
            DbError::at("42P20", text("RANGE with offset PRECEDING/FOLLOWING requires exactly one ORDER BY column"), position),
        );
    }
    assert(BoundOrder::views(order_by@)[0] == order_by@[0]@);
    let t: ScalarType = match &order_by[0].expression {
        Some(e) => {
            proof {
                e.unfold();
            }
            e.data_type.clone()
        },
        None => {
            let k: usize = order_by[0].column_index;
            if k >= inputs.len() {
                return Err(DbError::internal("window ORDER BY type index is out of bounds"));
            }
            assert(InputColumn::views(inputs@)[k as int] == inputs@[k as int]@);
            inputs[k].data_type.clone()
        },
    };
    if !is_numeric(&t) {
        return Err(DbError::at("42883", text("RANGE offset is supported only for numeric ORDER BY expressions"), position));
    }
    Ok(t)
}

/// The bound form of an offset of a frame.
pub open spec fn frame_offset(e: ParsedExprView, t: ScalarTypeView, position: Option<usize>) -> Checked<BoundExprView> {
    if holds_aggregate(e) || holds_subquery(e) || holds_window(e) {
        Err(
            error_at(
                "42P20"@,
                "window frame offset cannot contain aggregate, window, or subquery expressions"@,
                first_place(e.position, position),
            ),
        )
    } else {
        match bound_form(e, input_scope(Seq::empty(), false), Some(t)) {
            Ok(b) => Ok(b),
            Err(x) => if x.sql_state == "42703"@ || x.sql_state == "42P01"@ {
                Err(error_at("42P20"@, "window frame offset cannot contain variables"@, first_place(x.position, position)))
            } else {
                Err(x)
            },
        }
    }
}

fn bind_frame_offset(offset: &ParsedExpr, t: &ScalarType, position: Option<usize>) -> (r: Result<BoundExpr>)
    ensures
        expr_result(r) == frame_offset(offset@, t@, position),
{
    proof {
        offset.unfold();
    }
    if expr_has_aggregate(offset) || expr_has_subquery(offset) || expr_has_window(offset) {
        return Err(
            DbError::at(
                "42P20",
                text("window frame offset cannot contain aggregate, window, or subquery expressions"),
                either_place(offset.position, position),
            ),
        );
    }
    let none: Vec<InputColumn> = Vec::new();
    assert(InputColumn::views(none@) =~= Seq::empty());
    match bind_expr_multi(offset, &none, Some(t), false) {
        Ok(b) => Ok(b),
        Err(x) => {
            if same_text(x.sql_state.as_str(), "42703") || same_text(x.sql_state.as_str(), "42P01") {
                Err(DbError::at("42P20", text("window frame offset cannot contain variables"), either_place(x.position, position)))
            } else {
                Err(x)
            }
        },
    }
}

/// The bound form of a frame bound.
pub open spec fn frame_bound(
    b: ParsedWindowFrameBoundView,
    t: ScalarTypeView,
    position: Option<usize>,
) -> Checked<BoundWindowFrameBoundView> {
    match b {
        ParsedWindowFrameBoundView::UnboundedPreceding => Ok(BoundWindowFrameBoundView::UnboundedPreceding),
        ParsedWindowFrameBoundView::Preceding(e) => match frame_offset(*e, t, position) {
            Err(x) => Err(x),
            Ok(o) => Ok(BoundWindowFrameBoundView::Preceding(o)),
        },
        ParsedWindowFrameBoundView::CurrentRow => Ok(BoundWindowFrameBoundView::CurrentRow),
        ParsedWindowFrameBoundView::Following(e) => match frame_offset(*e, t, position) {
            Err(x) => Err(x),
            Ok(o) => Ok(BoundWindowFrameBoundView::Following(o)),
        },
        ParsedWindowFrameBoundView::UnboundedFollowing => Ok(BoundWindowFrameBoundView::UnboundedFollowing),
    }
}

/// Binds a frame bound.
pub fn bind_window_frame_bound(bound: &ParsedWindowFrameBound, offset_type: &ScalarType, position: Option<usize>) -> (r: Result<
    BoundWindowFrameBound,
>)
    ensures
        (match r {
            Ok(b) => Ok(b@),
            Err(e) => Err(e@),
        }) == frame_bound(bound@, offset_type@, position),
{
    proof {
        bound.unfold();
    }
    match bound {
        ParsedWindowFrameBound::UnboundedPreceding => Ok(BoundWindowFrameBound::UnboundedPreceding),
        ParsedWindowFrameBound::Preceding(e) => {
            let o = bind_frame_offset(e, offset_type, position)?;
            Ok(BoundWindowFrameBound::Preceding(o))
        },
        ParsedWindowFrameBound::CurrentRow => Ok(BoundWindowFrameBound::CurrentRow),
        ParsedWindowFrameBound::Following(e) => {
            let o = bind_frame_offset(e, offset_type, position)?;
            Ok(BoundWindowFrameBound::Following(o))
        },
        ParsedWindowFrameBound::UnboundedFollowing => Ok(BoundWindowFrameBound::UnboundedFollowing),
    }
}

/// The bound form of a frame.
pub open spec fn window_frame(
    frame: ParsedWindowFrameView,
    inputs: Seq<InputColumnView>,
    order_by: Seq<BoundOrderView>,
    position: Option<usize>,
) -> Checked<BoundWindowFrameView> {
    match offset_type(frame, inputs, order_by, position) {
        Err(x) => Err(x),
        Ok(t) => match frame_bound(frame.start_bound, t, position) {
            Err(x) => Err(x),
            Ok(start_bound) => match frame_bound(frame.end_bound, t, position) {
                Err(x) => Err(x),
                Ok(end_bound) => Ok(BoundWindowFrameView { units: frame.units, start_bound, end_bound }),
            },
        },
    }
}

/// Binds a frame.
pub fn bind_window_frame(
    frame: &ParsedWindowFrame,
    inputs: &Vec<InputColumn>,
    order_by: &Vec<BoundOrder>,
    position: Option<usize>,
) -> (r: Result<
    BoundWindowFrame,
>)
    ensures
        (match r {
            Ok(f) => Ok(f@),
            Err(e) => Err(e@),
        }) == window_frame(frame@, InputColumn::views(inputs@), BoundOrder::views(order_by@), position),
{
    proof {
        frame.unfold();
    }
    let t = find_offset_type(frame, inputs, order_by, position)?;
    let start_bound = bind_window_frame_bound(&frame.start_bound, &t, position)?;
    let end_bound = bind_window_frame_bound(&frame.end_bound, &t, position)?;
    Ok(BoundWindowFrame { units: frame.units, start_bound, end_bound })
}

/// A sort key of a window.
pub open spec fn window_order(order: ParsedOrderView, inputs: Seq<InputColumnView>) -> Checked<BoundOrderView> {
    match bound_form(order.expr, input_scope(inputs, true), None) {
        Err(x) => Err(x),
        Ok(e) => order_over(order, e),
    }
}

fn bind_window_order(order: &ParsedOrder, inputs: &Vec<InputColumn>) -> (r: Result<BoundOrder>)
    ensures
        order_result(r) == window_order(order@, InputColumn::views(inputs@)),
{
    proof {
        order.unfold();
    }
    let e = bind_expr_multi(&order.expr, inputs, None, true)?;
    bound_expression_order(order, e)
}

/// The sort keys of a window, from a position on.
pub open spec fn window_orders(
    l: Seq<ParsedOrderView>,
    inputs: Seq<InputColumnView>,
    i: int,
    done: Seq<BoundOrderView>,
) -> Checked<Seq<BoundOrderView>>
    decreases l.len() - i,
{
    if i < 0 || i >= l.len() {
        Ok(done)
    } else {
        match window_order(l[i], inputs) {
            Err(x) => Err(x),
            Ok(b) => window_orders(l, inputs, i + 1, done.push(b)),
        }
    }
}

fn bind_window_orders(l: &Vec<ParsedOrder>, inputs: &Vec<InputColumn>) -> (r: Result<Vec<BoundOrder>>)
    ensures
        (match r {
            Ok(l) => Ok(BoundOrder::views(l@)),
            Err(e) => Err(e@),
        }) == window_orders(ParsedOrder::views(l@), InputColumn::views(inputs@), 0, Seq::empty()),
{
    let ghost v = ParsedOrder::views(l@);
    let mut out: Vec<BoundOrder> = Vec::new();
    assert(BoundOrder::views(out@) =~= Seq::empty());
    for i in 0..l.len()
        invariant
            v == ParsedOrder::views(l@),
            window_orders(v, InputColumn::views(inputs@), 0, Seq::empty()) == window_orders(
                v,
                InputColumn::views(inputs@),
                i as int,
                BoundOrder::views(out@),
            ),
    {
        assert(v[i as int] == l@[i as int]@);
        let x = bind_window_order(&l[i], inputs)?;
        let ghost before = BoundOrder::views(out@);
        out.push(x);
        assert(BoundOrder::views(out@) =~= before.push(x@));
    }
    Ok(out)
}

/// The bound form of a window function call over a window, without a slot.
#[verifier::opaque]
pub open spec fn window_of_call(
    call: ParsedWindowCallView,
    spec: ParsedWindowSpecView,
    inputs: Seq<InputColumnView>,
    position: Option<usize>,
) -> Checked<BoundWindowView> {
    if spec.window_name is Some {
        Err(internal_error("window inheritance was not resolved before binding"@))
    } else if any_holds_window(spec.partition_by, 0) || any_order_holds_window(spec.order_by, 0) {
        Err(error_at("42P20"@, "window function calls cannot be nested"@, position))
    } else if any_holds_subquery(spec.partition_by, 0) || any_order_holds_subquery(spec.order_by, 0) {
        Err(unsupported_error("subquery expressions in window definitions are not supported yet"@, position))
    } else {
        match window_call(call, inputs, position) {
            Err(x) => Err(x),
            Ok(c) => match bound_list(spec.partition_by, input_scope(inputs, true), Expectation::Each(None), 0, Seq::empty()) {
                Err(x) => Err(x),
                Ok(partition_by) => match window_orders(spec.order_by, inputs, 0, Seq::empty()) {
                    Err(x) => Err(x),
                    Ok(order_by) => match (match spec.frame {
                        None => Ok(None),
                        Some(f) => match window_frame(f, inputs, order_by, position) {
                            Err(x) => Err(x),
                            Ok(b) => Ok(Some(b)),
                        },
                    }) {
                        Err(x) => Err(x),
                        Ok(frame) => Ok(
                            BoundWindowView {
                                function: c.function,
                                value_index: usize::MAX,
                                arguments: c.arguments,
                                count_star: c.count_star,
                                filter: c.filter,
                                partition_by,
                                order_by,
                                frame,
                                data_type: c.data_type,
                                nullable: c.nullable,
                            },
                        ),
                    },
                },
            },
        }
    }
}

fn bind_window(
    call: &ParsedWindowCall,
    spec: &ParsedWindowSpec,
    inputs: &Vec<InputColumn>,
    position: Option<usize>,
) -> (r: Result<BoundWindow>)
    ensures
        (match r {
            Ok(w) => Ok(w@),
            Err(e) => Err(e@),
        }) == window_of_call(call@, spec@, InputColumn::views(inputs@), position),
{
    reveal(window_of_call);
    proof {
        spec.unfold();
    }
    if spec.window_name.is_some() {
        return Err(DbError::internal("window inheritance was not resolved before binding"));
    }
    if exprs_have_window(&spec.partition_by) || orders_have_window(&spec.order_by) {
        return Err(DbError::at("42P20", text("window function calls cannot be nested"), position));
    }
    if exprs_have_subquery(&spec.partition_by) || orders_have_subquery(&spec.order_by) {
        return Err(unsupported_at("subquery expressions in window definitions are not supported yet", position));
    }
    let c = bind_window_call(call, inputs, position)?;
    let partition_by = bind_each(&spec.partition_by, &Scope::Inputs { inputs, aggregates: true }, None)?;
    let order_by = bind_window_orders(&spec.order_by, inputs)?;
    let frame: Option<BoundWindowFrame> = match &spec.frame {
        None => None,
        Some(f) => Some(bind_window_frame(f, inputs, &order_by, position)?),
    };
    Ok(
        BoundWindow {
            function: c.function,
            value_index: usize::MAX,
            arguments: c.arguments,
            count_star: c.count_star,
            filter: c.filter,
            partition_by,
            order_by,
            frame,
            data_type: c.data_type,
            nullable: c.nullable,
        },
    )
}

/// An expression whose window calls have become slots, with the windows that
/// fill them.
pub open spec fn lowered(
    e: ParsedExprView,
    inputs: Seq<InputColumnView>,
    windows: Seq<BoundWindowView>,
) -> Checked<(ParsedExprView, Seq<BoundWindowView>)>
    decreases e, 0int,
{
    match e.kind {
        ParsedExprKindView::Unary { op, expr } => match lowered(*expr, inputs, windows) {
            Err(x) => Err(x),
            Ok((expr, windows)) => Ok(
                (ParsedExprView { kind: ParsedExprKindView::Unary { op, expr: Box::new(expr) }, position: e.position }, windows),
            ),
        },
        ParsedExprKindView::Cast { expr, data_type, declared_type } => match lowered(*expr, inputs, windows) {
            Err(x) => Err(x),
            Ok((expr, windows)) => Ok(
                (
                    ParsedExprView {
                        kind: ParsedExprKindView::Cast { expr: Box::new(expr), data_type, declared_type },
                        position: e.position,
                    },
                    windows,
                ),
            ),
        },
        ParsedExprKindView::Array { elements, dimensions } => match lowered_all(elements, inputs, 0, Seq::empty(), windows) {
            Err(x) => Err(x),
            Ok((elements, windows)) => Ok(
                (ParsedExprView { kind: ParsedExprKindView::Array { elements, dimensions }, position: e.position }, windows),
            ),
        },
        ParsedExprKindView::Function { function, arguments } => match lowered_all(arguments, inputs, 0, Seq::empty(), windows) {
            Err(x) => Err(x),
            Ok((arguments, windows)) => Ok(
                (ParsedExprView { kind: ParsedExprKindView::Function { function, arguments }, position: e.position }, windows),
            ),
        },
        ParsedExprKindView::Binary { left, op, right } => match lowered(*left, inputs, windows) {
            Err(x) => Err(x),
            Ok((left, windows)) => match lowered(*right, inputs, windows) {
                Err(x) => Err(x),
                Ok((right, windows)) => Ok(
                    (
                        ParsedExprView {
                            kind: ParsedExprKindView::Binary { left: Box::new(left), op, right: Box::new(right) },
                            position: e.position,
                        },
                        windows,
                    ),
                ),
            },
        },
        ParsedExprKindView::InList { expr, list, negated } => match lowered(*expr, inputs, windows) {
            Err(x) => Err(x),
            Ok((expr, windows)) => match lowered_all(list, inputs, 0, Seq::empty(), windows) {
                Err(x) => Err(x),
                Ok((list, windows)) => Ok(
                    (
                        ParsedExprView { kind: ParsedExprKindView::InList { expr: Box::new(expr), list, negated }, position: e.position },
                        windows,
                    ),
                ),
            },
        },
        ParsedExprKindView::InSubquery { expr, subquery, negated } => match lowered(*expr, inputs, windows) {
            Err(x) => Err(x),
            Ok((expr, windows)) => Ok(
                (
                    ParsedExprView {
                        kind: ParsedExprKindView::InSubquery { expr: Box::new(expr), subquery, negated },
                        position: e.position,
                    },
                    windows,
                ),
            ),
        },
        ParsedExprKindView::QuantifiedSubquery { left, op, quantifier, subquery } => match lowered(*left, inputs, windows) {
            Err(x) => Err(x),
            Ok((left, windows)) => Ok(
                (
                    ParsedExprView {
                        kind: ParsedExprKindView::QuantifiedSubquery { left: Box::new(left), op, quantifier, subquery },
                        position: e.position,
                    },
                    windows,
                ),
            ),
        },
        ParsedExprKindView::RowSubquery {
            left,
            op,
            quantifier,
            negated,
            subquery,
        } => match lowered_all(left, inputs, 0, Seq::empty(), windows) {
            Err(x) => Err(x),
            Ok((left, windows)) => Ok(
                (
                    ParsedExprView {
                        kind: ParsedExprKindView::RowSubquery { left, op, quantifier, negated, subquery },
                        position: e.position,
                    },
                    windows,
                ),
            ),
        },
        ParsedExprKindView::Aggregate { argument, filter, .. } => if (argument is Some && holds_window(*argument->0)) || (filter is Some
            && holds_window(*filter->0)) {
            Err(error_at("42P20"@, "window function calls cannot be nested"@, e.position))
        } else {
            Ok((e, windows))
        },
        ParsedExprKindView::Window { call, spec } => match window_of_call(*call, *spec, inputs, e.position) {
            Err(x) => Err(x),
            Ok(w) => Ok(
                (
                    ParsedExprView { kind: ParsedExprKindView::WindowValue { ordinal: windows.len() as usize }, position: e.position },
                    windows.push(w),
                ),
            ),
        },
        ParsedExprKindView::NamedWindow { .. } => Err(internal_error("named window reference was not resolved"@)),
        ParsedExprKindView::WindowValue { .. } => Err(internal_error("window expression was lowered more than once"@)),
        _ => Ok((e, windows)),
    }
}

/// The same of each expression of a list, from a position on.
pub open spec fn lowered_all(
    l: Seq<ParsedExprView>,
    inputs: Seq<InputColumnView>,
    i: int,
    done: Seq<ParsedExprView>,
    windows: Seq<BoundWindowView>,
) -> Checked<(Seq<ParsedExprView>, Seq<BoundWindowView>)>
    decreases l, l.len() - i,
{
    if i < 0 || i >= l.len() {
        Ok((done, windows))
    } else {
        match lowered(l[i], inputs, windows) {
            Err(x) => Err(x),
            Ok((b, windows)) => lowered_all(l, inputs, i + 1, done.push(b), windows),
        }
    }
}

/// Replaces the window calls of an expression by slots and collects the windows.
pub fn lower_window_expr(
    expr: &ParsedExpr,
    inputs: &Vec<InputColumn>,
    windows: Vec<BoundWindow>,
) -> (r: Result<(ParsedExpr, Vec<BoundWindow>)>)
    ensures
        (match r {
            Ok(x) => Ok((x.0@, BoundWindow::views(x.1@))),
            Err(x) => Err(x@),
        }) == lowered(expr@, InputColumn::views(inputs@), BoundWindow::views(windows@)),
    decreases expr, 0int,
{
    proof {
        expr.unfold();
    }
    let position = expr.position;
    match &expr.kind {
        ParsedExprKind::Unary { op, expr } => {
            let (expr, windows) = lower_window_expr(expr, inputs, windows)?;
            Ok((make_expr(ParsedExprKind::Unary { op: *op, expr: Box::new(expr) }, position), windows))
        },
        ParsedExprKind::Cast { expr, data_type, declared_type } => {
            let (expr, windows) = lower_window_expr(expr, inputs, windows)?;
            Ok(
                (
                    make_expr(
                        ParsedExprKind::Cast { expr: Box::new(expr), data_type: data_type.clone(), declared_type: declared_type.clone() },
                        position,
                    ),
                    windows,
                ),
            )
        },
        ParsedExprKind::Array { elements, dimensions } => {
            let (elements, windows) = lower_window_expr_all(elements, inputs, windows)?;
            Ok((make_expr(ParsedExprKind::Array { elements, dimensions: copy_items(dimensions) }, position), windows))
        },
        ParsedExprKind::Function { function, arguments } => {
            let (arguments, windows) = lower_window_expr_all(arguments, inputs, windows)?;
            Ok((make_expr(ParsedExprKind::Function { function: *function, arguments }, position), windows))
        },
        ParsedExprKind::Binary { left, op, right } => {
            let (left, windows) = lower_window_expr(left, inputs, windows)?;
            let (right, windows) = lower_window_expr(right, inputs, windows)?;
            Ok((make_expr(ParsedExprKind::Binary { left: Box::new(left), op: *op, right: Box::new(right) }, position), windows))
        },
        ParsedExprKind::InList { expr, list, negated } => {
            let (expr, windows) = lower_window_expr(expr, inputs, windows)?;
            let (list, windows) = lower_window_expr_all(list, inputs, windows)?;
            Ok((make_expr(ParsedExprKind::InList { expr: Box::new(expr), list, negated: *negated }, position), windows))
        },
        ParsedExprKind::InSubquery { expr, subquery, negated } => {
            let (expr, windows) = lower_window_expr(expr, inputs, windows)?;
            Ok(
                (
                    make_expr(
                        ParsedExprKind::InSubquery { expr: Box::new(expr), subquery: Box::new((**subquery).clone()), negated: *negated },
                        position,
                    ),
                    windows,
                ),
            )
        },
        ParsedExprKind::QuantifiedSubquery { left, op, quantifier, subquery } => {
            let (left, windows) = lower_window_expr(left, inputs, windows)?;
            Ok(
                (
                    make_expr(
                        ParsedExprKind::QuantifiedSubquery {
                            left: Box::new(left),
                            op: *op,
                            quantifier: *quantifier,
                            subquery: Box::new((**subquery).clone()),
                        },
                        position,
                    ),
                    windows,
                ),
            )
        },
        ParsedExprKind::RowSubquery { left, op, quantifier, negated, subquery } => {
            let (left, windows) = lower_window_expr_all(left, inputs, windows)?;
            Ok(
                (
                    make_expr(
                        ParsedExprKind::RowSubquery {
                            left,
                            op: *op,
                            quantifier: *quantifier,
                            negated: *negated,
                            subquery: Box::new((**subquery).clone()),
                        },
                        position,
                    ),
                    windows,
                ),
            )
        },
        ParsedExprKind::Aggregate { argument, filter, .. } => {
            if option_has_window(argument) || option_has_window(filter) {
                return Err(DbError::at("42P20", text("window function calls cannot be nested"), expr.position));
            }
            Ok((expr.clone(), windows))
        },
        ParsedExprKind::Window { call, spec } => {
            let w = bind_window(call, spec, inputs, expr.position)?;
            let ordinal: usize = windows.len();
            let ghost before = BoundWindow::views(windows@);
            let mut windows = windows;
            windows.push(w);
            assert(BoundWindow::views(windows@) =~= before.push(w@));
            Ok((make_expr(ParsedExprKind::WindowValue { ordinal }, position), windows))
        },
        ParsedExprKind::NamedWindow { .. } => Err(DbError::internal("named window reference was not resolved")),
        ParsedExprKind::WindowValue { .. } => Err(DbError::internal("window expression was lowered more than once")),
        _ => Ok((expr.clone(), windows)),
    }
}

/// Does the same to each expression of a list.
pub fn lower_window_expr_all(
    l: &Vec<ParsedExpr>,
    inputs: &Vec<InputColumn>,
    windows: Vec<BoundWindow>,
) -> (r: Result<(Vec<ParsedExpr>, Vec<BoundWindow>)>)
    ensures
        (match r {
            Ok(x) => Ok((ParsedExpr::views(x.0@), BoundWindow::views(x.1@))),
            Err(x) => Err(x@),
        }) == lowered_all(ParsedExpr::views(l@), InputColumn::views(inputs@), 0, Seq::empty(), BoundWindow::views(windows@)),
    decreases l, 0int,
{
    let ghost v = ParsedExpr::views(l@);
    let ghost start = BoundWindow::views(windows@);
    let mut found: Vec<BoundWindow> = windows;
    let mut out: Vec<ParsedExpr> = Vec::new();
    assert(ParsedExpr::views(out@) =~= Seq::empty());
    for i in 0..l.len()
        invariant
            v == ParsedExpr::views(l@),
            start == BoundWindow::views(windows@),
            lowered_all(v, InputColumn::views(inputs@), 0, Seq::empty(), start) == lowered_all(
                v,
                InputColumn::views(inputs@),
                i as int,
                ParsedExpr::views(out@),
                BoundWindow::views(found@),
            ),
    {
        assert(decreases_to!(l => l@[i as int]));
        assert(v[i as int] == l@[i as int]@);
        let (x, next) = lower_window_expr(&l[i], inputs, found)?;
        found = next;
        let ghost before = ParsedExpr::views(out@);
        out.push(x);
        assert(ParsedExpr::views(out@) =~= before.push(x@));
    }
    Ok((out, found))
}

/// An expression whose window slots have become the values at known indices.
pub open spec fn finalized(e: ParsedExprView, base: usize, windows: Seq<BoundWindowView>) -> Checked<ParsedExprView>
    decreases e, 0int,
{
    match e.kind {
        ParsedExprKindView::Unary { op, expr } => match finalized(*expr, base, windows) {
            Err(x) => Err(x),
            Ok(expr) => Ok(ParsedExprView { kind: ParsedExprKindView::Unary { op, expr: Box::new(expr) }, position: e.position }),
        },
        ParsedExprKindView::Cast { expr, data_type, declared_type } => match finalized(*expr, base, windows) {
            Err(x) => Err(x),
            Ok(expr) => Ok(
                ParsedExprView { kind: ParsedExprKindView::Cast { expr: Box::new(expr), data_type, declared_type }, position: e.position },
            ),
        },
        ParsedExprKindView::Array { elements, dimensions } => match finalized_all(elements, base, windows, 0, Seq::empty()) {
            Err(x) => Err(x),
            Ok(elements) => Ok(ParsedExprView { kind: ParsedExprKindView::Array { elements, dimensions }, position: e.position }),
        },
        ParsedExprKindView::Function { function, arguments } => match finalized_all(arguments, base, windows, 0, Seq::empty()) {
            Err(x) => Err(x),
            Ok(arguments) => Ok(ParsedExprView { kind: ParsedExprKindView::Function { function, arguments }, position: e.position }),
        },
        ParsedExprKindView::Binary { left, op, right } => match finalized(*left, base, windows) {
            Err(x) => Err(x),
            Ok(left) => match finalized(*right, base, windows) {
                Err(x) => Err(x),
                Ok(right) => Ok(
                    ParsedExprView {
                        kind: ParsedExprKindView::Binary { left: Box::new(left), op, right: Box::new(right) },
                        position: e.position,
                    },
                ),
            },
        },
        ParsedExprKindView::InList { expr, list, negated } => match finalized(*expr, base, windows) {
            Err(x) => Err(x),
            Ok(expr) => match finalized_all(list, base, windows, 0, Seq::empty()) {
                Err(x) => Err(x),
                Ok(list) => Ok(
                    ParsedExprView { kind: ParsedExprKindView::InList { expr: Box::new(expr), list, negated }, position: e.position },
                ),
            },
        },
        ParsedExprKindView::InSubquery { expr, subquery, negated } => match finalized(*expr, base, windows) {
            Err(x) => Err(x),
            Ok(expr) => Ok(
                ParsedExprView { kind: ParsedExprKindView::InSubquery { expr: Box::new(expr), subquery, negated }, position: e.position },
            ),
        },
        ParsedExprKindView::QuantifiedSubquery { left, op, quantifier, subquery } => match finalized(*left, base, windows) {
            Err(x) => Err(x),
            Ok(left) => Ok(
                ParsedExprView {
                    kind: ParsedExprKindView::QuantifiedSubquery { left: Box::new(left), op, quantifier, subquery },
                    position: e.position,
                },
            ),
        },
        ParsedExprKindView::RowSubquery {
            left,
            op,
            quantifier,
            negated,
            subquery,
        } => match finalized_all(left, base, windows, 0, Seq::empty()) {
            Err(x) => Err(x),
            Ok(left) => Ok(
                ParsedExprView { kind: ParsedExprKindView::RowSubquery { left, op, quantifier, negated, subquery }, position: e.position },
            ),
        },
        ParsedExprKindView::Aggregate { function, argument, distinct, filter } => match finalized_option(argument, base, windows) {
            Err(x) => Err(x),
            Ok(argument) => match finalized_option(filter, base, windows) {
                Err(x) => Err(x),
                Ok(filter) => Ok(
                    ParsedExprView { kind: ParsedExprKindView::Aggregate { function, argument, distinct, filter }, position: e.position },
                ),
            },
        },
        ParsedExprKindView::WindowValue { ordinal } => if base + ordinal > usize::MAX {
            Err(error("54001"@, "window value index overflowed"@))
        } else if ordinal >= windows.len() {
            Err(internal_error("window value ordinal is outside the bound window list"@))
        } else {
            Ok(
                ParsedExprView {
                    kind: ParsedExprKindView::ApplyValue {
                        index: (base + ordinal) as usize,
                        data_type: windows[ordinal as int].data_type,
                        nullable: windows[ordinal as int].nullable,
                    },
                    position: e.position,
                },
            )
        },
        ParsedExprKindView::Window { .. } => Err(internal_error("window expression was not lowered"@)),
        ParsedExprKindView::NamedWindow { .. } => Err(internal_error("named window reference was not resolved"@)),
        _ => Ok(e),
    }
}

/// The same of each expression of a list, from a position on.
pub open spec fn finalized_all(
    l: Seq<ParsedExprView>,
    base: usize,
    windows: Seq<BoundWindowView>,
    i: int,
    done: Seq<ParsedExprView>,
) -> Checked<Seq<ParsedExprView>>
    decreases l, l.len() - i,
{
    if i < 0 || i >= l.len() {
        Ok(done)
    } else {
        match finalized(l[i], base, windows) {
            Err(x) => Err(x),
            Ok(b) => finalized_all(l, base, windows, i + 1, done.push(b)),
        }
    }
}

/// The same of an expression that may be absent.
pub open spec fn finalized_option(
    e: Option<Box<ParsedExprView>>,
    base: usize,
    windows: Seq<BoundWindowView>,
) -> Checked<Option<Box<ParsedExprView>>>
    decreases e, 0int,
{
    match e {
        None => Ok(None),
        Some(e) => match finalized(*e, base, windows) {
            Err(x) => Err(x),
            Ok(b) => Ok(Some(Box::new(b))),
        },
    }
}

/// Replaces the window slots of an expression by the values that fill them.
pub fn finalize_window_values(expr: &ParsedExpr, base: usize, windows: &Vec<BoundWindow>) -> (r: Result<ParsedExpr>)
    ensures
        (match r {
            Ok(x) => Ok(x@),
            Err(x) => Err(x@),
        }) == finalized(expr@, base, BoundWindow::views(windows@)),
    decreases expr, 0int,
{
    proof {
        expr.unfold();
    }
    let position = expr.position;
    match &expr.kind {
        ParsedExprKind::Unary { op, expr } => {
            let expr = finalize_window_values(expr, base, windows)?;
            Ok(make_expr(ParsedExprKind::Unary { op: *op, expr: Box::new(expr) }, position))
        },
        ParsedExprKind::Cast { expr, data_type, declared_type } => {
            let expr = finalize_window_values(expr, base, windows)?;
            Ok(
                make_expr(
                    ParsedExprKind::Cast { expr: Box::new(expr), data_type: data_type.clone(), declared_type: declared_type.clone() },
                    position,
                ),
            )
        },
        ParsedExprKind::Array { elements, dimensions } => {
            let elements = finalize_window_values_all(elements, base, windows)?;
            Ok(make_expr(ParsedExprKind::Array { elements, dimensions: copy_items(dimensions) }, position))
        },
        ParsedExprKind::Function { function, arguments } => {
            let arguments = finalize_window_values_all(arguments, base, windows)?;
            Ok(make_expr(ParsedExprKind::Function { function: *function, arguments }, position))
        },
        ParsedExprKind::Binary { left, op, right } => {
            let left = finalize_window_values(left, base, windows)?;
            let right = finalize_window_values(right, base, windows)?;
            Ok(make_expr(ParsedExprKind::Binary { left: Box::new(left), op: *op, right: Box::new(right) }, position))
        },
        ParsedExprKind::InList { expr, list, negated } => {
            let expr = finalize_window_values(expr, base, windows)?;
            let list = finalize_window_values_all(list, base, windows)?;
            Ok(make_expr(ParsedExprKind::InList { expr: Box::new(expr), list, negated: *negated }, position))
        },
        ParsedExprKind::InSubquery { expr, subquery, negated } => {
            let expr = finalize_window_values(expr, base, windows)?;
            Ok(
                make_expr(
                    ParsedExprKind::InSubquery { expr: Box::new(expr), subquery: Box::new((**subquery).clone()), negated: *negated },
                    position,
                ),
            )
        },
        ParsedExprKind::QuantifiedSubquery { left, op, quantifier, subquery } => {
            let left = finalize_window_values(left, base, windows)?;
            Ok(
                make_expr(
                    ParsedExprKind::QuantifiedSubquery {
                        left: Box::new(left),
                        op: *op,
                        quantifier: *quantifier,
                        subquery: Box::new((**subquery).clone()),
                    },
                    position,
                ),
            )
        },
        ParsedExprKind::RowSubquery { left, op, quantifier, negated, subquery } => {
            let left = finalize_window_values_all(left, base, windows)?;
            Ok(
                make_expr(
                    ParsedExprKind::RowSubquery {
                        left,
                        op: *op,
                        quantifier: *quantifier,
                        negated: *negated,
                        subquery: Box::new((**subquery).clone()),
                    },
                    position,
                ),
            )
        },
        ParsedExprKind::Aggregate { function, argument, distinct, filter } => {
            let argument = finalize_window_values_option(argument, base, windows)?;
            let filter = finalize_window_values_option(filter, base, windows)?;
            Ok(make_expr(ParsedExprKind::Aggregate { function: *function, argument, distinct: *distinct, filter }, position))
        },
        ParsedExprKind::WindowValue { ordinal } => {
            let index: usize = match base.checked_add(*ordinal) {
                Some(k) => k,
                None => {
                    return Err(DbError::new("54001", text("window value index overflowed")));
                },
            };
            if *ordinal >= windows.len() {
                return Err(DbError::internal("window value ordinal is outside the bound window list"));
            }
            assert(BoundWindow::views(windows@)[*ordinal as int] == windows@[*ordinal as int]@);
            let w = &windows[*ordinal];
            Ok(
                make_expr(
                    ParsedExprKind::ApplyValue { index, data_type: w.data_type.clone(), nullable: w.nullable },
                    expr.position,
                ),
            )
        },
        ParsedExprKind::Window { .. } => Err(DbError::internal("window expression was not lowered")),
        ParsedExprKind::NamedWindow { .. } => Err(DbError::internal("named window reference was not resolved")),
        _ => Ok(expr.clone()),
    }
}

/// Does the same to each expression of a list.
pub fn finalize_window_values_all(l: &Vec<ParsedExpr>, base: usize, windows: &Vec<BoundWindow>) -> (r: Result<Vec<ParsedExpr>>)
    ensures
        (match r {
            Ok(x) => Ok(ParsedExpr::views(x@)),
            Err(x) => Err(x@),
        }) == finalized_all(ParsedExpr::views(l@), base, BoundWindow::views(windows@), 0, Seq::empty()),
    decreases l, 0int,
{
    let ghost v = ParsedExpr::views(l@);
    let mut out: Vec<ParsedExpr> = Vec::new();
    assert(ParsedExpr::views(out@) =~= Seq::empty());
    for i in 0..l.len()
        invariant
            v == ParsedExpr::views(l@),
            finalized_all(v, base, BoundWindow::views(windows@), 0, Seq::empty()) == finalized_all(
                v,
                base,
                BoundWindow::views(windows@),
                i as int,
                ParsedExpr::views(out@),
            ),
    {
        assert(decreases_to!(l => l@[i as int]));
        assert(v[i as int] == l@[i as int]@);
        let x = finalize_window_values(&l[i], base, windows)?;
        let ghost before = ParsedExpr::views(out@);
        out.push(x);
        assert(ParsedExpr::views(out@) =~= before.push(x@));
    }
    Ok(out)
}

/// Does the same to an expression that may be absent.
fn finalize_window_values_option(
    e: &Option<Box<ParsedExpr>>,
    base: usize,
    windows: &Vec<BoundWindow>,
) -> (r: Result<Option<Box<ParsedExpr>>>)
    ensures
        (match r {
            Ok(x) => Ok(option_view(x)),
            Err(x) => Err(x@),
        }) == finalized_option(option_view(*e), base, BoundWindow::views(windows@)),
    decreases e, 0int,
{
    match e {
        None => Ok(None),
        Some(e) => {
            let b = finalize_window_values(e, base, windows)?;
            Ok(Some(Box::new(b)))
        },
    }
}

} // verus!
