//! Binding of expressions: names become slots and every node gets a type.

use std::collections::BTreeMap;

use vstd::pervasive::unreached;
use vstd::prelude::*;

use crate::bound::{BoundExpr, BoundExprKind, BoundExprKindView, BoundExprView};
use crate::catalog::{TableDefinition, TableDefinitionView};
use crate::expr::{
    infer_type, is_unknown_text_literal, meet_all, meeting_type, missing_argument, sum_result_type, sum_type, type_of, unknown_text,
    Meeting,
};
use crate::scope::{
    bind_column, column_of, declared_parameter, expr_result, parameter_views, table_view, Checked, InputColumn, InputColumnView, Scope,
    ScopeView,
};
use crate::syntax::{
    AggregateFunction, BinaryOperator, ParsedExpr, ParsedExprKind, ParsedExprKindView, ParsedExprView, ScalarFunction, UnaryOperator,
};
use crate::text::{copy_items, decimal, index_text, text, text2, text4};
use crate::types::{
    described, error_at, internal_error, type_accepts, type_of_value, unsupported_at, unsupported_error, DATATYPE_MISMATCH, DbError,
    DbErrorView, INDETERMINATE_DATATYPE, Result, ScalarType, ScalarTypeView, Value, ValueView,
};
use crate::typing::{
    any_nullable, argument_type, arithmetic, cast_check, common, common_type, common_type_with_literal, common_with_literal, compatible,
    ensure_explicit_cast_supported, ensure_types_compatible, function_result, has_nullable, indexable_type, is_arithmetic_operator,
    is_numeric, least_argument_count, least_arguments, numeric, orderable, scalar_function_argument_type, shares_argument_type, shares_type,
    validate_bound_scalar_function,
};

verus! {

/// The bound form of a constant where a type may be expected.
pub open spec fn literal_of(v: ValueView, expected: Option<ScalarTypeView>, position: Option<usize>) -> Checked<BoundExprView> {
    match expected {
        Some(t) => if type_accepts(t, v) {
            Ok(BoundExprView { kind: BoundExprKindView::Literal(v), data_type: t, nullable: v is Null })
        } else if t is Enum && v is Text {
            Err(error_at("22P02"@, "invalid input value for enum: "@ + v->Text_0, position))
        } else {
            Err(error_at(DATATYPE_MISMATCH@, "value cannot be assigned to "@ + described(t), position))
        },
        None => Ok(
            BoundExprView {
                kind: BoundExprKindView::Literal(v),
                data_type: match type_of_value(v) {
                    Some(t) => t,
                    None => ScalarTypeView::Text,
                },
                nullable: v is Null,
            },
        ),
    }
}

/// Binds a constant.
pub fn bind_literal(value: &Value, expected: Option<&ScalarType>, position: Option<usize>) -> (r: Result<BoundExpr>)
    ensures
        expr_result(r) == literal_of(value@, ScalarType::opt_ref(expected), position),
{
    let data_type = match expected {
        Some(t) => {
            if !t.accepts(value) {
                if let (ScalarType::Enum { .. }, Value::Text(label)) = (t, value) {
                    return Err(DbError::at("22P02", text2("invalid input value for enum: ", label.as_str()), position));
                }
                return Err(DbError::at(DATATYPE_MISMATCH, text2("value cannot be assigned to ", t.describe().as_str()), position));
            }
            t.clone()
        },
        None => match value.scalar_type() {
            Some(t) => t,
            None => ScalarType::Text,
        },
    };
    let r = BoundExpr { nullable: value.is_null(), kind: BoundExprKind::Literal(value.clone()), data_type };
    proof {
        r.unfold();
    }
    Ok(r)
}

/// The bound form of a parameter without a settled type.
pub open spec fn parameter_of(
    index: usize,
    declared: Option<ScalarTypeView>,
    expected: Option<ScalarTypeView>,
    position: Option<usize>,
) -> Checked<
    BoundExprView,
> {
    let fits = match declared {
        Some(t) => compatible(t, expected, position),
        None => Ok(()),
    };
    match fits {
        Err(e) => Err(e),
        Ok(_) => match (match expected {
            Some(t) => Some(t),
            None => declared,
        }) {
            Some(t) => Ok(BoundExprView { kind: BoundExprKindView::Parameter { index }, data_type: t, nullable: true }),
            None => Err(
                error_at(INDETERMINATE_DATATYPE@, "could not determine data type of parameter $"@ + decimal(index as nat), position),
            ),
        },
    }
}

/// The bound form of a parameter with a settled type.
pub open spec fn resolved_parameter_of(
    index: usize,
    data_type: ScalarTypeView,
    declared: Option<ScalarTypeView>,
    expected: Option<ScalarTypeView>,
    position: Option<usize>,
) -> Checked<BoundExprView> {
    match compatible(data_type, declared, position) {
        Err(e) => Err(e),
        Ok(_) => match compatible(data_type, expected, position) {
            Err(e) => Err(e),
            Ok(_) => Ok(BoundExprView { kind: BoundExprKindView::Parameter { index }, data_type, nullable: true }),
        },
    }
}

/// The bound form of a negation or a sign change.
pub open spec fn unary_of(
    op: UnaryOperator,
    operand: Checked<BoundExprView>,
    scope: ScopeView,
    position: Option<usize>,
) -> Checked<BoundExprView> {
    match operand {
        Err(e) => Err(e),
        Ok(b) => match op {
            UnaryOperator::Not => if b.data_type != ScalarTypeView::Boolean {
                Err(error_at(DATATYPE_MISMATCH@, "NOT operand must be boolean"@, position))
            } else {
                Ok(
                    BoundExprView {
                        kind: BoundExprKindView::Unary { op, expr: Box::new(b) },
                        data_type: ScalarTypeView::Boolean,
                        nullable: scope is Table || b.nullable,
                    },
                )
            },
            UnaryOperator::Negate => if !numeric(b.data_type) {
                Err(error_at(DATATYPE_MISMATCH@, "unary minus requires a numeric operand"@, position))
            } else {
                Ok(
                    BoundExprView {
                        kind: BoundExprKindView::Unary { op, expr: Box::new(b) },
                        data_type: b.data_type,
                        nullable: !(scope is Table) && b.nullable,
                    },
                )
            },
        },
    }
}

/// The bound form of a cast of a bound operand.
pub open spec fn cast_of(operand: Checked<BoundExprView>, target: ScalarTypeView, position: Option<usize>) -> Checked<BoundExprView> {
    match operand {
        Err(e) => Err(e),
        Ok(b) => match cast_check(b.data_type, target, position) {
            Err(e) => Err(e),
            Ok(_) => Ok(
                BoundExprView { kind: BoundExprKindView::Cast { expr: Box::new(b) }, data_type: target, nullable: b.nullable },
            ),
        },
    }
}

/// The element type that an array constructor should have, as far as its place
/// in the expression says.
pub open spec fn expected_element(expected: Option<ScalarTypeView>, position: Option<usize>) -> Checked<Option<ScalarTypeView>> {
    match expected {
        Some(ScalarTypeView::Array { element }) => Ok(Some(*element)),
        Some(t) => Err(error_at(DATATYPE_MISMATCH@, "array cannot be assigned to "@ + described(t), position)),
        None => Ok(None),
    }
}

/// The element type of an array constructor whose elements meet at a type.
pub open spec fn element_type(met: Option<ScalarTypeView>, position: Option<usize>) -> Checked<ScalarTypeView> {
    match met {
        None => Err(
            DbErrorView {
                hint: Some("Explicitly cast the array, for example ARRAY[]::integer[]."@),
                ..error_at(INDETERMINATE_DATATYPE@, "cannot determine type of empty array"@, position)
            },
        ),
        Some(t) => if t is Array {
            Err(error_at(DATATYPE_MISMATCH@, "nested array values must use one flattened PostgreSQL array type"@, position))
        } else {
            Ok(t)
        },
    }
}

/// The operand type of an IN predicate whose operands meet at a type.
pub open spec fn membership_type(met: Option<ScalarTypeView>, position: Option<usize>) -> Checked<ScalarTypeView> {
    match met {
        None => Err(error_at(INDETERMINATE_DATATYPE@, "could not determine data type of IN operands"@, position)),
        Some(t) => if t is Json {
            Err(error_at("42883"@, "could not identify an equality operator for type json"@, position))
        } else {
            Ok(t)
        },
    }
}

/// The operand type of a comparison or computation.
pub open spec fn operand_type(
    op: BinaryOperator,
    left: Option<ScalarTypeView>,
    right: Option<ScalarTypeView>,
    literal: bool,
    left_unknown: bool,
    right_unknown: bool,
    expected: Option<ScalarTypeView>,
    position: Option<usize>,
) -> Checked<ScalarTypeView> {
    let met: Checked<ScalarTypeView> = match (left, right) {
        (Some(l), Some(r)) => match (if literal {
            common_with_literal(l, r, left_unknown, right_unknown)
        } else {
            common(l, r)
        }) {
            Some(t) => Ok(t),
            None => Err(
                error_at(DATATYPE_MISMATCH@, "operator cannot match "@ + described(l) + " with "@ + described(r), position),
            ),
        },
        (Some(t), None) => Ok(t),
        (None, Some(t)) => Ok(t),
        (None, None) => Err(error_at(INDETERMINATE_DATATYPE@, "could not determine comparison operand types"@, position)),
    };
    match met {
        Err(e) => Err(e),
        Ok(t) => if !arithmetic(op) {
            Ok(t)
        } else if !numeric(t) {
            Err(error_at("42883"@, "arithmetic operator is not defined for "@ + described(t), position))
        } else {
            match compatible(t, expected, position) {
                Err(e) => Err(e),
                Ok(_) => match expected {
                    Some(x) => Ok(x),
                    None => Ok(t),
                },
            }
        },
    }
}

/// The result type of an aggregate over an argument type and whether it may be
/// null, where the aggregate is defined.
pub open spec fn aggregate_type(function: AggregateFunction, argument: Option<ScalarTypeView>) -> Option<(ScalarTypeView, bool)> {
    match function {
        AggregateFunction::Count => Some((ScalarTypeView::Int64, false)),
        AggregateFunction::Avg => match argument {
            Some(t) => if numeric(t) {
                Some((ScalarTypeView::Float64, true))
            } else {
                None
            },
            None => None,
        },
        AggregateFunction::Sum => match argument {
            Some(t) => if numeric(t) {
                Some((sum_type(t), true))
            } else {
                None
            },
            None => None,
        },
        AggregateFunction::Min | AggregateFunction::Max => match argument {
            Some(t) => if orderable(t) {
                Some((t, true))
            } else {
                None
            },
            None => None,
        },
    }
}

/// The result type of an aggregate.
pub fn aggregate_result_type(function: AggregateFunction, argument: Option<&ScalarType>) -> (r: Option<(ScalarType, bool)>)
    ensures
        (match r {
            Some(p) => Some((p.0@, p.1)),
            None => None,
        }) == aggregate_type(function, ScalarType::opt_ref(argument)),
{
    match function {
        AggregateFunction::Count => Some((ScalarType::Int64, false)),
        AggregateFunction::Avg => match argument {
            Some(t) => if is_numeric(t) {
                Some((ScalarType::Float64, true))
            } else {
                None
            },
            None => None,
        },
        AggregateFunction::Sum => match argument {
            Some(t) => if is_numeric(t) {
                Some((sum_result_type(t.clone()), true))
            } else {
                None
            },
            None => None,
        },
        AggregateFunction::Min | AggregateFunction::Max => match argument {
            Some(t) => if indexable_type(t) {
                Some((t.clone(), true))
            } else {
                None
            },
            None => None,
        },
    }
}

/// What is expected of each expression of a list.
pub enum Expectation {
    /// All of them are expected to have one type, if any.
    Each(Option<ScalarTypeView>),
    /// They are arguments of a built-in function whose shared type is given.
    Argument(ScalarFunction, Option<ScalarTypeView>),
}

impl Expectation {
    /// What is expected at a position.
    pub open spec fn at(self, i: int) -> Option<ScalarTypeView> {
        match self {
            Expectation::Each(t) => t,
            Expectation::Argument(f, shared) => argument_type(f, i, shared),
        }
    }
}

/// The bound forms of a list of expressions, from a position on.
pub open spec fn bound_list(
    l: Seq<ParsedExprView>,
    scope: ScopeView,
    expected: Expectation,
    i: int,
    done: Seq<BoundExprView>,
) -> Checked<Seq<BoundExprView>>
    decreases l, l.len() - i,
{
    if i < 0 || i >= l.len() {
        Ok(done)
    } else {
        match bound_form(l[i], scope, expected.at(i)) {
            Err(e) => Err(e),
            Ok(b) => bound_list(l, scope, expected, i + 1, done.push(b)),
        }
    }
}

/// The bound form of an optional expression.
pub open spec fn bound_option(
    e: Option<Box<ParsedExprView>>,
    scope: ScopeView,
    expected: Option<ScalarTypeView>,
) -> Checked<Option<BoundExprView>>
    decreases e, 0int,
{
    match e {
        None => Ok(None),
        Some(e) => match bound_form(*e, scope, expected) {
            Err(x) => Err(x),
            Ok(b) => Ok(Some(b)),
        },
    }
}

/// An optional bound expression in a box.
pub open spec fn boxed(b: Option<BoundExprView>) -> Option<Box<BoundExprView>> {
    match b {
        Some(b) => Some(Box::new(b)),
        None => None,
    }
}

/// The bound form of an aggregate over bound parts.
pub open spec fn aggregate_of(
    function: AggregateFunction,
    argument: Checked<Option<BoundExprView>>,
    distinct: bool,
    filter: Checked<Option<BoundExprView>>,
    position: Option<usize>,
) -> Checked<BoundExprView> {
    match argument {
        Err(e) => Err(e),
        Ok(a) => if distinct && a is Some && a->0.data_type is Json {
            Err(error_at("42883"@, "could not identify an equality operator for type json"@, position))
        } else {
            match filter {
                Err(e) => Err(e),
                Ok(f) => if f is Some && !(f->0.data_type is Boolean) {
                    Err(error_at(DATATYPE_MISMATCH@, "aggregate FILTER predicate must be boolean"@, position))
                } else {
                    match aggregate_type(
                        function,
                        match a {
                            Some(b) => Some(b.data_type),
                            None => None,
                        },
                    ) {
                        None => Err(error_at(DATATYPE_MISMATCH@, "aggregate argument has an incompatible type"@, position)),
                        Some((data_type, nullable)) => Ok(
                            BoundExprView {
                                kind: BoundExprKindView::Aggregate { function, argument: boxed(a), distinct, filter: boxed(f) },
                                data_type,
                                nullable,
                            },
                        ),
                    }
                },
            }
        },
    }
}

/// The bound form of an expression in a scope, where a type may be expected.
pub open spec fn bound_form(e: ParsedExprView, scope: ScopeView, expected: Option<ScalarTypeView>) -> Checked<BoundExprView>
    decreases e, 0int,
{
    let position = e.position;
    match e.kind {
        ParsedExprKindView::Column(name) => match column_of(name, scope, position) {
            Err(x) => Err(x),
            Ok(b) => match compatible(b.data_type, expected, position) {
                Err(x) => Err(x),
                Ok(_) => Ok(b),
            },
        },
        ParsedExprKindView::Literal(v) => literal_of(v, expected, position),
        ParsedExprKindView::Parameter(index) => parameter_of(index, scope.parameter(index), expected, position),
        ParsedExprKindView::ResolvedParameter { index, data_type } => resolved_parameter_of(
            index,
            data_type,
            scope.parameter(index),
            expected,
            position,
        ),
        ParsedExprKindView::ApplyValue { index, data_type, nullable } => match compatible(data_type, expected, position) {
            Err(x) => Err(x),
            Ok(_) => Ok(BoundExprView { kind: BoundExprKindView::ApplyValue { index }, data_type, nullable }),
        },
        ParsedExprKindView::Unary { op, expr } => unary_of(
            op,
            bound_form(
                *expr,
                scope,
                if op == UnaryOperator::Not {
                    Some(ScalarTypeView::Boolean)
                } else {
                    expected
                },
            ),
            scope,
            position,
        ),
        ParsedExprKindView::Cast { expr, data_type, .. } => match compatible(data_type, expected, position) {
            Err(x) => Err(x),
            Ok(_) => match type_of(*expr, scope) {
                Err(x) => Err(x),
                Ok(source) => cast_of(
                    bound_form(
                        *expr,
                        scope,
                        if source is None {
                            Some(data_type)
                        } else {
                            None
                        },
                    ),
                    data_type,
                    position,
                ),
            },
        },
        ParsedExprKindView::Array { elements, dimensions } => match expected_element(expected, position) {
            Err(x) => Err(x),
            Ok(start) => match meeting_type(
                elements,
                scope,
                0,
                start,
                Meeting { label: "array element types "@, literal: scope is Table, left_unknown: false },
                position,
            ) {
                Err(x) => Err(x),
                Ok(met) => match element_type(met, position) {
                    Err(x) => Err(x),
                    Ok(t) => match bound_list(elements, scope, Expectation::Each(Some(t)), 0, Seq::empty()) {
                        Err(x) => Err(x),
                        Ok(items) => Ok(
                            BoundExprView {
                                kind: BoundExprKindView::Array { elements: items, dimensions },
                                data_type: ScalarTypeView::Array { element: Box::new(t) },
                                nullable: false,
                            },
                        ),
                    },
                },
            },
        },
        ParsedExprKindView::Function { function, arguments } => match type_of(e, scope) {
            Err(x) => Err(x),
            Ok(inferred) => match (match inferred {
                Some(t) => compatible(t, expected, position),
                None => Ok(()),
            }) {
                Err(x) => Err(x),
                Ok(_) => match bound_list(
                    arguments,
                    scope,
                    Expectation::Argument(
                        function,
                        if shares_type(function) {
                            inferred
                        } else {
                            None
                        },
                    ),
                    0,
                    Seq::empty(),
                ) {
                    Err(x) => Err(x),
                    Ok(items) => if items.len() < least_arguments(function) {
                        Err(missing_argument())
                    } else {
                        match function_result(function, items, position) {
                            Err(x) => Err(x),
                            Ok((data_type, nullable)) => Ok(
                                BoundExprView { kind: BoundExprKindView::Function { function, arguments: items }, data_type, nullable },
                            ),
                        }
                    },
                },
            },
        },
        ParsedExprKindView::Binary { left, op, right } => if op == BinaryOperator::And || op == BinaryOperator::Or {
            match bound_form(*left, scope, Some(ScalarTypeView::Boolean)) {
                Err(x) => Err(x),
                Ok(l) => match bound_form(*right, scope, Some(ScalarTypeView::Boolean)) {
                    Err(x) => Err(x),
                    Ok(r) => if scope is Table && !(l.data_type is Boolean && r.data_type is Boolean) {
                        Err(error_at(DATATYPE_MISMATCH@, "boolean operator operands must be boolean"@, position))
                    } else {
                        Ok(
                            BoundExprView {
                                kind: BoundExprKindView::Binary { left: Box::new(l), op, right: Box::new(r) },
                                data_type: ScalarTypeView::Boolean,
                                nullable: scope is Table || l.nullable || r.nullable,
                            },
                        )
                    },
                },
            }
        } else {
            match type_of(*left, scope) {
                Err(x) => Err(x),
                Ok(lt) => match type_of(*right, scope) {
                    Err(x) => Err(x),
                    Ok(rt) => match operand_type(
                        op,
                        lt,
                        rt,
                        scope is Table,
                        unknown_text(*left),
                        unknown_text(*right),
                        expected,
                        position,
                    ) {
                        Err(x) => Err(x),
                        Ok(t) => match bound_form(*left, scope, Some(t)) {
                            Err(x) => Err(x),
                            Ok(l) => match bound_form(*right, scope, Some(t)) {
                                Err(x) => Err(x),
                                Ok(r) => Ok(
                                    BoundExprView {
                                        kind: BoundExprKindView::Binary { left: Box::new(l), op, right: Box::new(r) },
                                        data_type: if arithmetic(op) {
                                            t
                                        } else {
                                            ScalarTypeView::Boolean
                                        },
                                        nullable: l.nullable || r.nullable,
                                    },
                                ),
                            },
                        },
                    },
                },
            }
        },
        ParsedExprKindView::InList { expr, list, negated } => if expected is Some && !(expected->0 is Boolean) {
            Err(error_at(DATATYPE_MISMATCH@, "IN predicate produces a boolean result"@, position))
        } else {
            match type_of(*expr, scope) {
                Err(x) => Err(x),
                Ok(start) => match meeting_type(
                    list,
                    scope,
                    0,
                    start,
                    Meeting { label: "IN types "@, literal: scope is Table, left_unknown: unknown_text(*expr) },
                    position,
                ) {
                    Err(x) => Err(x),
                    Ok(met) => match membership_type(met, position) {
                        Err(x) => Err(x),
                        Ok(t) => match bound_form(*expr, scope, Some(t)) {
                            Err(x) => Err(x),
                            Ok(b) => match bound_list(list, scope, Expectation::Each(Some(t)), 0, Seq::empty()) {
                                Err(x) => Err(x),
                                Ok(items) => Ok(
                                    BoundExprView {
                                        kind: BoundExprKindView::InList { expr: Box::new(b), list: items, negated },
                                        data_type: ScalarTypeView::Boolean,
                                        nullable: b.nullable || any_nullable(items),
                                    },
                                ),
                            },
                        },
                    },
                },
            }
        },
        ParsedExprKindView::ScalarSubquery(_) => Err(unsupported_error("scalar subquery Apply execution is not supported yet"@, position)),
        ParsedExprKindView::Exists { .. } => Err(unsupported_error("EXISTS Apply execution is not supported yet"@, position)),
        ParsedExprKindView::InSubquery { .. } => Err(unsupported_error("IN subquery Apply execution is not supported yet"@, position)),
        ParsedExprKindView::QuantifiedSubquery { .. } => Err(
            unsupported_error("ANY/ALL subquery Apply execution is not supported yet"@, position),
        ),
        ParsedExprKindView::RowSubquery { .. } => Err(
            unsupported_error("row subquery Apply execution is not supported in this context"@, position),
        ),
        ParsedExprKindView::Aggregate { function, argument, distinct, filter } => match scope {
            ScopeView::Table { .. } => Err(unsupported_error("aggregate is not valid in this statement"@, position)),
            ScopeView::Inputs { aggregates, .. } => if !aggregates {
                Err(error_at("42803"@, "aggregate functions are not allowed in this clause"@, position))
            } else {
                aggregate_of(
                    function,
                    bound_option(argument, scope.without_aggregates(), None),
                    distinct,
                    bound_option(filter, scope.without_aggregates(), Some(ScalarTypeView::Boolean)),
                    position,
                )
            },
        },
        _ => Err(
            if scope is Table {
                error_at("42P20"@, "window functions are not allowed in this statement"@, position)
            } else {
                internal_error("window expression reached binding before lowering"@)
            },
        ),
    }
}

/// The contents of a list of bound expressions or error.
pub open spec fn list_result(r: Result<Vec<BoundExpr>>) -> Checked<Seq<BoundExprView>> {
    match r {
        Ok(l) => Ok(BoundExpr::views(l@)),
        Err(e) => Err(e@),
    }
}

/// Binds a list of expressions of which one type may be expected.
pub fn bind_each(l: &Vec<ParsedExpr>, scope: &Scope, expected: Option<&ScalarType>) -> (r: Result<Vec<BoundExpr>>)
    ensures
        list_result(r) == bound_list(
            ParsedExpr::views(l@),
            scope@,
            Expectation::Each(ScalarType::opt_ref(expected)),
            0,
            Seq::empty(),
        ),
    decreases l, 0int,
{
    let ghost v = ParsedExpr::views(l@);
    let ghost rule = Expectation::Each(ScalarType::opt_ref(expected));
    let ghost whole = bound_list(v, scope@, rule, 0, Seq::empty());
    let mut out: Vec<BoundExpr> = Vec::new();
    assert(BoundExpr::views(out@) =~= Seq::empty());
    for i in 0..l.len()
        invariant
            v == ParsedExpr::views(l@),
            rule == Expectation::Each(ScalarType::opt_ref(expected)),
            whole == bound_list(v, scope@, rule, 0, Seq::empty()),
            whole == bound_list(v, scope@, rule, i as int, BoundExpr::views(out@)),
    {
        assert(decreases_to!(l => l@[i as int]));
        assert(v[i as int] == l@[i as int]@);
        let b = bind_in(&l[i], scope, expected)?;
        let ghost before = BoundExpr::views(out@);
        out.push(b);
        assert(BoundExpr::views(out@) =~= before.push(b@));
    }
    Ok(out)
}

fn bind_arguments(l: &Vec<ParsedExpr>, scope: &Scope, function: ScalarFunction, shared: Option<&ScalarType>) -> (r: Result<Vec<BoundExpr>>)
    ensures
        list_result(r) == bound_list(
            ParsedExpr::views(l@),
            scope@,
            Expectation::Argument(function, ScalarType::opt_ref(shared)),
            0,
            Seq::empty(),
        ),
    decreases l, 0int,
{
    let ghost v = ParsedExpr::views(l@);
    let ghost rule = Expectation::Argument(function, ScalarType::opt_ref(shared));
    let ghost whole = bound_list(v, scope@, rule, 0, Seq::empty());
    let mut out: Vec<BoundExpr> = Vec::new();
    assert(BoundExpr::views(out@) =~= Seq::empty());
    for i in 0..l.len()
        invariant
            v == ParsedExpr::views(l@),
            rule == Expectation::Argument(function, ScalarType::opt_ref(shared)),
            whole == bound_list(v, scope@, rule, 0, Seq::empty()),
            whole == bound_list(v, scope@, rule, i as int, BoundExpr::views(out@)),
    {
        assert(decreases_to!(l => l@[i as int]));
        assert(v[i as int] == l@[i as int]@);
        let expected = scalar_function_argument_type(function, i, shared);
        let b = bind_in(&l[i], scope, expected.as_ref())?;
        let ghost before = BoundExpr::views(out@);
        out.push(b);
        assert(BoundExpr::views(out@) =~= before.push(b@));
    }
    Ok(out)
}

/// A list that binds has as many bound forms as expressions.
pub proof fn lemma_bound_list_len(l: Seq<ParsedExprView>, scope: ScopeView, expected: Expectation, i: int, done: Seq<BoundExprView>)
    requires
        0 <= i <= l.len(),
    ensures
        bound_list(l, scope, expected, i, done) matches Ok(items) ==> items.len() == done.len() + l.len() - i,
    decreases l.len() - i,
{
    if i < l.len() {
        if let Ok(b) = bound_form(l[i], scope, expected.at(i)) {
            lemma_bound_list_len(l, scope, expected, i + 1, done.push(b));
        }
    }
}

fn find_operand_type(
    op: BinaryOperator,
    left: Option<ScalarType>,
    right: Option<ScalarType>,
    literal: bool,
    left_unknown: bool,
    right_unknown: bool,
    expected: Option<&ScalarType>,
    position: Option<usize>,
) -> (r: Result<ScalarType>)
    ensures
        match r {
            Ok(t) => operand_type(
                op,
                ScalarType::opt(left),
                ScalarType::opt(right),
                literal,
                left_unknown,
                right_unknown,
                ScalarType::opt_ref(expected),
                position,
            ) == Ok::<ScalarTypeView, DbErrorView>(t@),
            Err(e) => operand_type(
                op,
                ScalarType::opt(left),
                ScalarType::opt(right),
                literal,
                left_unknown,
                right_unknown,
                ScalarType::opt_ref(expected),
                position,
            ) == Err::<ScalarTypeView, DbErrorView>(e@),
        },
{
    let met: ScalarType = match (left, right) {
        (Some(l), Some(r)) => {
            let shared = if literal {
                common_type_with_literal(&l, &r, left_unknown, right_unknown)
            } else {
                common_type(&l, &r)
            };
            match shared {
                Some(t) => t,
                None => {
                    return Err(
                        DbError::at(
                            DATATYPE_MISMATCH,
                            text4("operator cannot match ", l.describe().as_str(), " with ", r.describe().as_str()),
                            position,
                        ),
                    );
                },
            }
        },
        (Some(t), None) => t,
        (None, Some(t)) => t,
        (None, None) => {
            return Err(DbError::at(INDETERMINATE_DATATYPE, text("could not determine comparison operand types"), position));
        },
    };
    if !is_arithmetic_operator(op) {
        return Ok(met);
    }
    if !is_numeric(&met) {
        return Err(DbError::at("42883", text2("arithmetic operator is not defined for ", met.describe().as_str()), position));
    }
    ensure_types_compatible(&met, expected, position)?;
    match expected {
        Some(t) => Ok(t.clone()),
        None => Ok(met),
    }
}

fn without_aggregates<'a>(scope: &Scope<'a>) -> (r: Scope<'a>)
    ensures
        r@ == scope@.without_aggregates(),
{
    match scope {
        Scope::Table { table, parameters } => Scope::Table { table: *table, parameters: *parameters },
        Scope::Inputs { inputs, .. } => Scope::Inputs { inputs: *inputs, aggregates: false },
    }
}

fn is_boolean(t: &ScalarType) -> (r: bool)
    ensures
        r == (t@ is Boolean),
{
    matches!(t, ScalarType::Boolean)
}

/// Builds a bound expression from its parts.
pub fn make_bound(kind: BoundExprKind, data_type: ScalarType, nullable: bool) -> (r: BoundExpr)
    ensures
        r@ == (BoundExprView { kind: kind.shape(), data_type: data_type@, nullable }),
{
    let r = BoundExpr { kind, data_type, nullable };
    proof {
        r.unfold();
    }
    r
}

/// Builds an expression from its parts.
pub fn make_expr(kind: ParsedExprKind, position: Option<usize>) -> (r: ParsedExpr)
    ensures
        r@ == (ParsedExprView { kind: kind.shape(), position }),
{
    let r = ParsedExpr { kind, position };
    proof {
        r.unfold();
    }
    r
}

fn bind_array(elements: &Vec<ParsedExpr>, scope: &Scope, expected: Option<&ScalarType>, position: Option<usize>) -> (r: Result<
    (Vec<BoundExpr>, ScalarType),
>)
    ensures
        (match r {
            Ok(p) => Ok((BoundExpr::views(p.0@), p.1@)),
            Err(e) => Err(e@),
        }) == (match expected_element(ScalarType::opt_ref(expected), position) {
            Err(x) => Err(x),
            Ok(start) => match meeting_type(
                ParsedExpr::views(elements@),
                scope@,
                0,
                start,
                (Meeting { label: "array element types "@, literal: scope@ is Table, left_unknown: false }),
                position,
            ) {
                Err(x) => Err(x),
                Ok(met) => match element_type(met, position) {
                    Err(x) => Err(x),
                    Ok(t) => match bound_list(ParsedExpr::views(elements@), scope@, Expectation::Each(Some(t)), 0, Seq::empty()) {
                        Err(x) => Err(x),
                        Ok(items) => Ok((items, t)),
                    },
                },
            },
        }),
    decreases elements, 1int,
{
    let start: Option<ScalarType> = match expected {
        Some(ScalarType::Array { element }) => {
            assert(*ScalarType::opt_ref(expected)->0->element == (**element)@);
            Some((**element).clone())
        },
        Some(t) => {
            return Err(DbError::at(DATATYPE_MISMATCH, text2("array cannot be assigned to ", t.describe().as_str()), position));
        },
        None => None,
    };
    let literal = matches!(scope, Scope::Table { .. });
    let met = meet_all(elements, scope, start, "array element types ", literal, false, position)?;
    let t: ScalarType = match met {
        Some(t) => t,
        None => {
            return Err(
                DbError::at(INDETERMINATE_DATATYPE, text("cannot determine type of empty array"), position).with_hint(
                    "Explicitly cast the array, for example ARRAY[]::integer[].",
                ),
            );
        },
    };
    if matches!(t, ScalarType::Array { .. }) {
        return Err(DbError::at(DATATYPE_MISMATCH, text("nested array values must use one flattened PostgreSQL array type"), position));
    }
    let items = bind_each(elements, scope, Some(&t))?;
    Ok((items, t))
}

fn bind_option(e: &Option<Box<ParsedExpr>>, scope: &Scope, expected: Option<&ScalarType>) -> (r: Result<Option<BoundExpr>>)
    ensures
        (match r {
            Ok(Some(b)) => Ok(Some(b@)),
            Ok(None) => Ok(None),
            Err(e) => Err(e@),
        }) == bound_option(option_view(*e), scope@, ScalarType::opt_ref(expected)),
    decreases e, 0int,
{
    match e {
        None => Ok(None),
        Some(e) => {
            let b = bind_in(e, scope, expected)?;
            Ok(Some(b))
        },
    }
}

/// The contents of an optional boxed expression.
pub open spec fn option_view(e: Option<Box<ParsedExpr>>) -> Option<Box<ParsedExprView>> {
    match e {
        Some(e) => Some(Box::new((*e)@)),
        None => None,
    }
}

fn box_option(b: Option<BoundExpr>) -> (r: Option<Box<BoundExpr>>)
    ensures
        (match r {
            Some(x) => Some(Box::new((*x)@)),
            None => None,
        }) == (match b {
            Some(x) => Some(Box::new(x@)),
            None => None,
        }),
{
    match b {
        Some(b) => Some(Box::new(b)),
        None => None,
    }
}

fn bind_unary(expr: &ParsedExpr, scope: &Scope, expected: Option<&ScalarType>) -> (r: Result<BoundExpr>)
    requires
        expr.kind is Unary,
    ensures
        expr_result(r) == bound_form(expr@, scope@, ScalarType::opt_ref(expected)),
    decreases expr, 0int,
{
    let position = expr.position;
    proof {
        expr.unfold();
    }
    match &expr.kind {
        ParsedExprKind::Unary { op, expr: inner } => match op {
            UnaryOperator::Not => {
                let b = bind_in(inner, scope, Some(&ScalarType::Boolean))?;
                proof {
                    b.unfold();
                }
                if !is_boolean(&b.data_type) {
                    return Err(DbError::at(DATATYPE_MISMATCH, text("NOT operand must be boolean"), position));
                }
                let nullable = matches!(scope, Scope::Table { .. }) || b.nullable;
                Ok(make_bound(BoundExprKind::Unary { op: *op, expr: Box::new(b) }, ScalarType::Boolean, nullable))
            },
            UnaryOperator::Negate => {
                let b = bind_in(inner, scope, expected)?;
                proof {
                    b.unfold();
                }
                if !is_numeric(&b.data_type) {
                    return Err(DbError::at(DATATYPE_MISMATCH, text("unary minus requires a numeric operand"), position));
                }
                let nullable = !matches!(scope, Scope::Table { .. }) && b.nullable;
                let data_type = b.data_type.clone();
                Ok(make_bound(BoundExprKind::Unary { op: *op, expr: Box::new(b) }, data_type, nullable))
            },
        },
        _ => unreached(),
    }
}

fn bind_cast(expr: &ParsedExpr, scope: &Scope, expected: Option<&ScalarType>) -> (r: Result<BoundExpr>)
    requires
        expr.kind is Cast,
    ensures
        expr_result(r) == bound_form(expr@, scope@, ScalarType::opt_ref(expected)),
    decreases expr, 0int,
{
    let position = expr.position;
    proof {
        expr.unfold();
    }
    match &expr.kind {
        ParsedExprKind::Cast { expr: inner, data_type, .. } => {
            ensure_types_compatible(data_type, expected, position)?;
            let source = infer_type(inner, scope)?;
            let b = bind_in(
                inner,
                scope,
                if source.is_none() {
                    Some(data_type)
                } else {
                    None
                },
            )?;
            proof {
                b.unfold();
            }
            ensure_explicit_cast_supported(&b.data_type, data_type, position)?;
            let nullable = b.nullable;
            Ok(make_bound(BoundExprKind::Cast { expr: Box::new(b) }, data_type.clone(), nullable))
        },
        _ => unreached(),
    }
}

fn bind_call(expr: &ParsedExpr, scope: &Scope, expected: Option<&ScalarType>) -> (r: Result<BoundExpr>)
    requires
        expr.kind is Function,
    ensures
        expr_result(r) == bound_form(expr@, scope@, ScalarType::opt_ref(expected)),
    decreases expr, 0int,
{
    let position = expr.position;
    proof {
        expr.unfold();
    }
    match &expr.kind {
        ParsedExprKind::Function { function, arguments } => {
            let inferred = infer_type(expr, scope)?;
            if let Some(t) = &inferred {
                ensure_types_compatible(t, expected, position)?;
            }
            let shared: Option<&ScalarType> = if shares_argument_type(*function) {
                inferred.as_ref()
            } else {
                None
            };
            let items = bind_arguments(arguments, scope, *function, shared)?;
            if items.len() < least_argument_count(*function) {
                return Err(DbError::internal("scalar function argument is missing"));
            }
            let (data_type, nullable) = validate_bound_scalar_function(*function, &items, position)?;
            Ok(make_bound(BoundExprKind::Function { function: *function, arguments: items }, data_type, nullable))
        },
        _ => unreached(),
    }
}

fn bind_binary(expr: &ParsedExpr, scope: &Scope, expected: Option<&ScalarType>) -> (r: Result<BoundExpr>)
    requires
        expr.kind is Binary,
    ensures
        expr_result(r) == bound_form(expr@, scope@, ScalarType::opt_ref(expected)),
    decreases expr, 0int,
{
    let position = expr.position;
    proof {
        expr.unfold();
    }
    match &expr.kind {
        ParsedExprKind::Binary { left, op, right } => {
            if *op == BinaryOperator::And || *op == BinaryOperator::Or {
                let l = bind_in(left, scope, Some(&ScalarType::Boolean))?;
                let r = bind_in(right, scope, Some(&ScalarType::Boolean))?;
                proof {
                    l.unfold();
                    r.unfold();
                }
                let strict = matches!(scope, Scope::Table { .. });
                if strict && !(is_boolean(&l.data_type) && is_boolean(&r.data_type)) {
                    return Err(DbError::at(DATATYPE_MISMATCH, text("boolean operator operands must be boolean"), position));
                }
                let nullable = strict || l.nullable || r.nullable;
                return Ok(
                    make_bound(
                        BoundExprKind::Binary { left: Box::new(l), op: *op, right: Box::new(r) },
                        ScalarType::Boolean,
                        nullable,
                    ),
                );
            }
            let lt = infer_type(left, scope)?;
            let rt = infer_type(right, scope)?;
            let literal = matches!(scope, Scope::Table { .. });
            let t = find_operand_type(
                *op,
                lt,
                rt,
                literal,
                is_unknown_text_literal(left),
                is_unknown_text_literal(right),
                expected,
                position,
            )?;
            let l = bind_in(left, scope, Some(&t))?;
            let r = bind_in(right, scope, Some(&t))?;
            proof {
                l.unfold();
                r.unfold();
            }
            let nullable = l.nullable || r.nullable;
            let data_type = if is_arithmetic_operator(*op) {
                t
            } else {
                ScalarType::Boolean
            };
            Ok(make_bound(BoundExprKind::Binary { left: Box::new(l), op: *op, right: Box::new(r) }, data_type, nullable))
        },
        _ => unreached(),
    }
}

fn bind_membership(expr: &ParsedExpr, scope: &Scope, expected: Option<&ScalarType>) -> (r: Result<BoundExpr>)
    requires
        expr.kind is InList,
    ensures
        expr_result(r) == bound_form(expr@, scope@, ScalarType::opt_ref(expected)),
    decreases expr, 0int,
{
    let position = expr.position;
    proof {
        expr.unfold();
    }
    match &expr.kind {
        ParsedExprKind::InList { expr: inner, list, negated } => {
            if let Some(t) = expected {
                if !is_boolean(t) {
                    return Err(DbError::at(DATATYPE_MISMATCH, text("IN predicate produces a boolean result"), position));
                }
            }
            let start = infer_type(inner, scope)?;
            let literal = matches!(scope, Scope::Table { .. });
            let met = meet_all(list, scope, start, "IN types ", literal, is_unknown_text_literal(inner), position)?;
            let t: ScalarType = match met {
                Some(t) => t,
                None => {
                    return Err(DbError::at(INDETERMINATE_DATATYPE, text("could not determine data type of IN operands"), position));
                },
            };
            if matches!(t, ScalarType::Json) {
                return Err(DbError::at("42883", text("could not identify an equality operator for type json"), position));
            }
            let b = bind_in(inner, scope, Some(&t))?;
            let items = bind_each(list, scope, Some(&t))?;
            proof {
                b.unfold();
            }
            let nullable = b.nullable || has_nullable(&items);
            Ok(make_bound(BoundExprKind::InList { expr: Box::new(b), list: items, negated: *negated }, ScalarType::Boolean, nullable))
        },
        _ => unreached(),
    }
}

fn bind_aggregate(expr: &ParsedExpr, scope: &Scope, expected: Option<&ScalarType>) -> (r: Result<BoundExpr>)
    requires
        expr.kind is Aggregate,
    ensures
        expr_result(r) == bound_form(expr@, scope@, ScalarType::opt_ref(expected)),
    decreases expr, 0int,
{
    let position = expr.position;
    proof {
        expr.unfold();
    }
    match &expr.kind {
        ParsedExprKind::Aggregate { function, argument, distinct, filter } => match scope {
            Scope::Table { .. } => Err(unsupported_at("aggregate is not valid in this statement", position)),
            Scope::Inputs { aggregates, .. } => {
                if !*aggregates {
                    return Err(DbError::at("42803", text("aggregate functions are not allowed in this clause"), position));
                }
                let inner = without_aggregates(scope);
                let a = bind_option(argument, &inner, None)?;
                proof {
                    if a is Some {
                        a->0.unfold();
                    }
                }
                if let Some(b) = &a {
                    if *distinct && matches!(b.data_type, ScalarType::Json) {
                        return Err(DbError::at("42883", text("could not identify an equality operator for type json"), position));
                    }
                }
                let f = bind_option(filter, &inner, Some(&ScalarType::Boolean))?;
                proof {
                    if f is Some {
                        f->0.unfold();
                    }
                }
                if let Some(b) = &f {
                    if !is_boolean(&b.data_type) {
                        return Err(DbError::at(DATATYPE_MISMATCH, text("aggregate FILTER predicate must be boolean"), position));
                    }
                }
                let argument_type: Option<&ScalarType> = match &a {
                    Some(b) => Some(&b.data_type),
                    None => None,
                };
                match aggregate_result_type(*function, argument_type) {
                    None => Err(DbError::at(DATATYPE_MISMATCH, text("aggregate argument has an incompatible type"), position)),
                    Some((data_type, nullable)) => Ok(
                        make_bound(
                            BoundExprKind::Aggregate {
                                function: *function,
                                argument: box_option(a),
                                distinct: *distinct,
                                filter: box_option(f),
                            },
                            data_type,
                            nullable,
                        ),
                    ),
                }
            },
        },
        _ => unreached(),
    }
}

/// Binds an expression in a scope, where a type may be expected.
pub fn bind_in(expr: &ParsedExpr, scope: &Scope, expected: Option<&ScalarType>) -> (r: Result<BoundExpr>)
    ensures
        expr_result(r) == bound_form(expr@, scope@, ScalarType::opt_ref(expected)),
    decreases expr, 1int,
{
    let position = expr.position;
    proof {
        expr.unfold();
    }
    match &expr.kind {
        ParsedExprKind::Column(name) => {
            let b = bind_column(name, scope, position)?;
            proof {
                b.unfold();
            }
            ensure_types_compatible(&b.data_type, expected, position)?;
            Ok(b)
        },
        ParsedExprKind::Literal(value) => bind_literal(value, expected, position),
        ParsedExprKind::Parameter(index) => {
            let declared = declared_parameter(scope, *index);
            if let Some(t) = &declared {
                ensure_types_compatible(t, expected, position)?;
            }
            match expected {
                Some(t) => Ok(make_bound(BoundExprKind::Parameter { index: *index }, t.clone(), true)),
                None => match declared {
                    Some(t) => Ok(make_bound(BoundExprKind::Parameter { index: *index }, t, true)),
                    None => Err(
                        DbError::at(
                            INDETERMINATE_DATATYPE,
                            text2("could not determine data type of parameter $", index_text(*index).as_str()),
                            position,
                        ),
                    ),
                },
            }
        },
        ParsedExprKind::ResolvedParameter { index, data_type } => {
            let declared = declared_parameter(scope, *index);
            ensure_types_compatible(data_type, declared.as_ref(), position)?;
            ensure_types_compatible(data_type, expected, position)?;
            Ok(make_bound(BoundExprKind::Parameter { index: *index }, data_type.clone(), true))
        },
        ParsedExprKind::ApplyValue { index, data_type, nullable } => {
            ensure_types_compatible(data_type, expected, position)?;
            Ok(make_bound(BoundExprKind::ApplyValue { index: *index }, data_type.clone(), *nullable))
        },
        ParsedExprKind::Unary { .. } => bind_unary(expr, scope, expected),
        ParsedExprKind::Cast { .. } => bind_cast(expr, scope, expected),
        ParsedExprKind::Array { elements, dimensions } => {
            let (items, t) = bind_array(elements, scope, expected, position)?;
            Ok(
                make_bound(
                    BoundExprKind::Array { elements: items, dimensions: copy_items(dimensions) },
                    ScalarType::Array { element: Box::new(t) },
                    false,
                ),
            )
        },
        ParsedExprKind::Function { .. } => bind_call(expr, scope, expected),
        ParsedExprKind::Binary { .. } => bind_binary(expr, scope, expected),
        ParsedExprKind::InList { .. } => bind_membership(expr, scope, expected),
        ParsedExprKind::ScalarSubquery(_) => Err(unsupported_at("scalar subquery Apply execution is not supported yet", position)),
        ParsedExprKind::Exists { .. } => Err(unsupported_at("EXISTS Apply execution is not supported yet", position)),
        ParsedExprKind::InSubquery { .. } => Err(unsupported_at("IN subquery Apply execution is not supported yet", position)),
        ParsedExprKind::QuantifiedSubquery { .. } => Err(
            unsupported_at("ANY/ALL subquery Apply execution is not supported yet", position),
        ),
        ParsedExprKind::RowSubquery { .. } => Err(
            unsupported_at("row subquery Apply execution is not supported in this context", position),
        ),
        ParsedExprKind::Aggregate { .. } => bind_aggregate(expr, scope, expected),
        ParsedExprKind::Window { .. } | ParsedExprKind::NamedWindow { .. } | ParsedExprKind::WindowValue { .. } => match scope {
            Scope::Table { .. } => Err(DbError::at("42P20", text("window functions are not allowed in this statement"), position)),
            Scope::Inputs { .. } => Err(DbError::internal("window expression reached binding before lowering")),
        },
    }
}

/// The scope of one table without declared parameters.
pub open spec fn table_scope(table: Option<TableDefinitionView>) -> ScopeView {
    ScopeView::Table { table, parameters: Map::empty() }
}

/// The scope of the columns of a FROM clause.
pub open spec fn input_scope(inputs: Seq<InputColumnView>, aggregates: bool) -> ScopeView {
    ScopeView::Inputs { inputs, aggregates }
}

/// Binds an expression over one table, with declared parameter types.
pub fn bind_expr_with_parameter_types(
    expr: &ParsedExpr,
    table: Option<&TableDefinition>,
    expected: Option<&ScalarType>,
    parameter_types: &BTreeMap<usize, ScalarType>,
) -> (r: Result<BoundExpr>)
    ensures
        expr_result(r) == bound_form(
            expr@,
            (ScopeView::Table { table: table_view(table), parameters: parameter_views(parameter_types@) }),
            ScalarType::opt_ref(expected),
        ),
{
    bind_in(expr, &Scope::Table { table, parameters: parameter_types }, expected)
}

/// Binds an expression over one table.
pub fn bind_expr(expr: &ParsedExpr, table: Option<&TableDefinition>, expected: Option<&ScalarType>) -> (r: Result<BoundExpr>)
    ensures
        expr_result(r) == bound_form(expr@, table_scope(table_view(table)), ScalarType::opt_ref(expected)),
{
    let none: BTreeMap<usize, ScalarType> = BTreeMap::new();
    assert(parameter_views(none@) =~= Map::empty());
    bind_in(expr, &Scope::Table { table, parameters: &none }, expected)
}

/// Binds an expression over the columns of a FROM clause.
pub fn bind_expr_multi(expr: &ParsedExpr, inputs: &Vec<InputColumn>, expected: Option<&ScalarType>, allow_aggregate: bool) -> (r: Result<
    BoundExpr,
>)
    ensures
        expr_result(r) == bound_form(expr@, input_scope(InputColumn::views(inputs@), allow_aggregate), ScalarType::opt_ref(expected)),
{
    bind_in(expr, &Scope::Inputs { inputs, aggregates: allow_aggregate }, expected)
}

/// The bound form of a predicate.
pub open spec fn predicate_of(e: ParsedExprView, scope: ScopeView) -> Checked<BoundExprView> {
    match bound_form(e, scope, Some(ScalarTypeView::Boolean)) {
        Err(x) => Err(x),
        Ok(b) => if b.data_type is Boolean {
            Ok(b)
        } else {
            Err(error_at(DATATYPE_MISMATCH@, "predicate must be boolean"@, e.position))
        },
    }
}

fn bind_predicate(expr: &ParsedExpr, scope: &Scope) -> (r: Result<BoundExpr>)
    ensures
        expr_result(r) == predicate_of(expr@, scope@),
{
    let bound = bind_in(expr, scope, Some(&ScalarType::Boolean))?;
    proof {
        bound.unfold();
        expr.unfold();
    }
    if !is_boolean(&bound.data_type) {
        return Err(DbError::at(DATATYPE_MISMATCH, text("predicate must be boolean"), expr.position));
    }
    Ok(bound)
}

/// Binds a predicate over one table.
pub fn bind_boolean_expr(expr: &ParsedExpr, table: &TableDefinition) -> (r: Result<BoundExpr>)
    ensures
        expr_result(r) == predicate_of(expr@, table_scope(Some(table@))),
{
    let none: BTreeMap<usize, ScalarType> = BTreeMap::new();
    assert(parameter_views(none@) =~= Map::empty());
    bind_predicate(expr, &Scope::Table { table: Some(table), parameters: &none })
}

/// Binds a predicate over the columns of a FROM clause.
pub fn bind_multi_boolean(expr: &ParsedExpr, inputs: &Vec<InputColumn>) -> (r: Result<BoundExpr>)
    ensures
        expr_result(r) == predicate_of(expr@, input_scope(InputColumn::views(inputs@), true)),
{
    bind_predicate(expr, &Scope::Inputs { inputs, aggregates: true })
}

/// The bound form of an expression that may be absent.
pub open spec fn bound_some(
    e: Option<ParsedExprView>,
    scope: ScopeView,
    expected: Option<ScalarTypeView>,
) -> Checked<Option<BoundExprView>> {
    match e {
        None => Ok(None),
        Some(e) => match bound_form(e, scope, expected) {
            Err(x) => Err(x),
            Ok(b) => Ok(Some(b)),
        },
    }
}

/// The bound form of a predicate that may be absent.
pub open spec fn predicate_some(e: Option<ParsedExprView>, scope: ScopeView) -> Checked<Option<BoundExprView>> {
    match e {
        None => Ok(None),
        Some(e) => match predicate_of(e, scope) {
            Err(x) => Err(x),
            Ok(b) => Ok(Some(b)),
        },
    }
}

/// The contents of an expression that may be absent.
pub open spec fn some_view(e: Option<ParsedExpr>) -> Option<ParsedExprView> {
    match e {
        Some(e) => Some(e@),
        None => None,
    }
}

/// The contents of a bound expression that may be absent.
pub open spec fn bound_view(e: Option<BoundExpr>) -> Option<BoundExprView> {
    match e {
        Some(e) => Some(e@),
        None => None,
    }
}

/// The contents of a bound expression that may be absent or of an error.
pub open spec fn some_result(r: Result<Option<BoundExpr>>) -> Checked<Option<BoundExprView>> {
    match r {
        Ok(b) => Ok(bound_view(b)),
        Err(e) => Err(e@),
    }
}

/// Binds an expression that may be absent.
pub fn bind_some(e: &Option<ParsedExpr>, scope: &Scope, expected: Option<&ScalarType>) -> (r: Result<Option<BoundExpr>>)
    ensures
        some_result(r) == bound_some(some_view(*e), scope@, ScalarType::opt_ref(expected)),
{
    match e {
        None => Ok(None),
        Some(e) => {
            let b = bind_in(e, scope, expected)?;
            Ok(Some(b))
        },
    }
}

/// Binds an expression over one table that may be absent.
pub fn bind_some_expr(
    e: &Option<ParsedExpr>,
    table: Option<&TableDefinition>,
    expected: Option<&ScalarType>,
) -> (r: Result<Option<BoundExpr>>)
    ensures
        some_result(r) == bound_some(some_view(*e), table_scope(table_view(table)), ScalarType::opt_ref(expected)),
{
    match e {
        None => Ok(None),
        Some(e) => {
            let b = bind_expr(e, table, expected)?;
            Ok(Some(b))
        },
    }
}

/// Binds a predicate over one table that may be absent.
pub fn bind_some_boolean(e: &Option<ParsedExpr>, table: &TableDefinition) -> (r: Result<Option<BoundExpr>>)
    ensures
        some_result(r) == predicate_some(some_view(*e), table_scope(Some(table@))),
{
    match e {
        None => Ok(None),
        Some(e) => {
            let b = bind_boolean_expr(e, table)?;
            Ok(Some(b))
        },
    }
}

/// Binds a predicate over the columns of a FROM clause that may be absent.
pub fn bind_some_multi_boolean(e: &Option<ParsedExpr>, inputs: &Vec<InputColumn>) -> (r: Result<Option<BoundExpr>>)
    ensures
        some_result(r) == predicate_some(some_view(*e), input_scope(InputColumn::views(inputs@), true)),
{
    match e {
        None => Ok(None),
        Some(e) => {
            let b = bind_multi_boolean(e, inputs)?;
            Ok(Some(b))
        },
    }
}

} // verus!
