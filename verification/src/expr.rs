//! Types of expressions and their bound forms.

use vstd::prelude::*;

use crate::scope::{bind_column, column_of, declared_parameter, Checked, Scope, ScopeView};
use crate::syntax::{AggregateFunction, ParsedExpr, ParsedExprKind, ParsedExprKindView, ParsedExprView, ScalarFunction, UnaryOperator};
use crate::text::{text, text4};
use crate::types::{
    described, error_at, internal_error, type_of_value, unsupported_at, unsupported_error, DATATYPE_MISMATCH, DbError, DbErrorView, Result,
    ScalarType, ScalarTypeView, Value,
};
use crate::typing::{
    arithmetic, common, common_type, common_type_with_literal, common_with_literal, fixed_result, fixed_result_type, is_arithmetic_operator,
};

verus! {

/// Whether an expression is a string constant whose type is not settled yet, or
/// an array of such.
pub open spec fn unknown_text(e: ParsedExprView) -> bool
    decreases e,
{
    match e.kind {
        ParsedExprKindView::Literal(v) => v is Text || v is Null,
        ParsedExprKindView::Array { elements, .. } => only_unknown_text(elements),
        _ => false,
    }
}

/// Whether every expression of a list is a string constant of unsettled type.
pub open spec fn only_unknown_text(l: Seq<ParsedExprView>) -> bool
    decreases l,
{
    forall|i: int| 0 <= i < l.len() ==> unknown_text(#[trigger] l[i])
}

/// Decides whether an expression is a string constant whose type is not settled
/// yet, or an array of such.
pub fn is_unknown_text_literal(expression: &ParsedExpr) -> (r: bool)
    ensures
        r == unknown_text(expression@),
    decreases expression,
{
    proof {
        expression.unfold();
    }
    match &expression.kind {
        ParsedExprKind::Literal(value) => matches!(value, Value::Text(_) | Value::Null),
        ParsedExprKind::Array { elements, .. } => all_unknown_text(elements),
        _ => false,
    }
}

fn all_unknown_text(l: &Vec<ParsedExpr>) -> (r: bool)
    ensures
        r == only_unknown_text(ParsedExpr::views(l@)),
    decreases l,
{
    let ghost v = ParsedExpr::views(l@);
    for i in 0..l.len()
        invariant
            v == ParsedExpr::views(l@),
            forall|k: int| 0 <= k < i ==> unknown_text(#[trigger] v[k]),
    {
        assert(decreases_to!(l => l@[i as int]));
        assert(v[i as int] == l@[i as int]@);
        if !is_unknown_text_literal(&l[i]) {
            return false;
        }
    }
    true
}

/// How the types of a list of expressions are made to meet.
pub struct Meeting {
    /// What a message calls the types.
    pub label: Seq<char>,
    /// Whether string constants of unknown type give way.
    pub literal: bool,
    /// Whether the type met so far is that of such a constant.
    pub left_unknown: bool,
}

/// The type at which a list of expressions meets, from a position on.
pub open spec fn meeting_type(
    l: Seq<ParsedExprView>,
    scope: ScopeView,
    i: int,
    met: Option<ScalarTypeView>,
    rule: Meeting,
    position: Option<usize>,
) -> Checked<
    Option<ScalarTypeView>,
>
    decreases l, l.len() - i,
{
    if i < 0 || i >= l.len() {
        Ok(met)
    } else {
        match type_of(l[i], scope) {
            Err(e) => Err(e),
            Ok(None) => meeting_type(l, scope, i + 1, met, rule, position),
            Ok(Some(candidate)) => match met {
                None => meeting_type(l, scope, i + 1, Some(candidate), rule, position),
                Some(current) => match (if rule.literal {
                    common_with_literal(current, candidate, rule.left_unknown, unknown_text(l[i]))
                } else {
                    common(current, candidate)
                }) {
                    Some(t) => meeting_type(l, scope, i + 1, Some(t), rule, position),
                    None => Err(
                        error_at(
                            DATATYPE_MISMATCH@,
                            rule.label + described(current) + " and "@ + described(candidate) + " cannot be matched"@,
                            position,
                        ),
                    ),
                },
            },
        }
    }
}

/// The type of a sum over values of a type.
pub open spec fn sum_type(t: ScalarTypeView) -> ScalarTypeView {
    match t {
        ScalarTypeView::Int16 | ScalarTypeView::Int32 | ScalarTypeView::Int64 => ScalarTypeView::Int64,
        ScalarTypeView::Float32 | ScalarTypeView::Float64 => ScalarTypeView::Float64,
        _ => t,
    }
}

/// The type of a sum over values of a type.
pub fn sum_result_type(t: ScalarType) -> (r: ScalarType)
    ensures
        r@ == sum_type(t@),
{
    match t {
        ScalarType::Int16 | ScalarType::Int32 | ScalarType::Int64 => ScalarType::Int64,
        ScalarType::Float32 | ScalarType::Float64 => ScalarType::Float64,
        _ => t,
    }
}

/// The type at which two possibly unknown types meet.
pub open spec fn meet(left: Option<ScalarTypeView>, right: Option<ScalarTypeView>) -> Option<ScalarTypeView> {
    match (left, right) {
        (Some(l), Some(r)) => common(l, r),
        (Some(t), None) => Some(t),
        (None, Some(t)) => Some(t),
        (None, None) => None,
    }
}

/// The type at which two possibly unknown types meet.
pub fn meet_types(left: Option<ScalarType>, right: Option<ScalarType>) -> (r: Option<ScalarType>)
    ensures
        ScalarType::opt(r) == meet(ScalarType::opt(left), ScalarType::opt(right)),
{
    match (left, right) {
        (Some(l), Some(r)) => common_type(&l, &r),
        (Some(t), None) => Some(t),
        (None, Some(t)) => Some(t),
        (None, None) => None,
    }
}

/// The error of a built-in function call without its arguments.
pub open spec fn missing_argument() -> DbErrorView {
    internal_error("scalar function argument is missing"@)
}

/// How array elements meet.
pub open spec fn array_meeting() -> Meeting {
    Meeting { label: "array element types "@, literal: false, left_unknown: false }
}

/// How function arguments meet.
pub open spec fn argument_meeting() -> Meeting {
    Meeting { label: "function argument types "@, literal: false, left_unknown: false }
}

/// The type that an expression has on its own, if that is settled.
pub open spec fn type_of(e: ParsedExprView, scope: ScopeView) -> Checked<Option<ScalarTypeView>>
    decreases e, 0int,
{
    match e.kind {
        ParsedExprKindView::Column(name) => match column_of(name, scope, e.position) {
            Ok(b) => Ok(Some(b.data_type)),
            Err(x) => Err(x),
        },
        ParsedExprKindView::Literal(v) => Ok(type_of_value(v)),
        ParsedExprKindView::Parameter(index) => Ok(scope.parameter(index)),
        ParsedExprKindView::ResolvedParameter { data_type, .. } => Ok(Some(data_type)),
        ParsedExprKindView::Unary { op, expr } => match op {
            UnaryOperator::Not => Ok(Some(ScalarTypeView::Boolean)),
            UnaryOperator::Negate => type_of(*expr, scope),
        },
        ParsedExprKindView::Cast { data_type, .. } => Ok(Some(data_type)),
        ParsedExprKindView::Array { elements, .. } => match meeting_type(elements, scope, 0, None, array_meeting(), e.position) {
            Err(x) => Err(x),
            Ok(None) => Ok(None),
            Ok(Some(t)) => Ok(Some(ScalarTypeView::Array { element: Box::new(t) })),
        },
        ParsedExprKindView::Function { function, arguments } => match fixed_result(function) {
            Some(t) => Ok(Some(t)),
            None => if function != ScalarFunction::Abs {
                meeting_type(arguments, scope, 0, None, argument_meeting(), e.position)
            } else if arguments.len() == 0 {
                Err(missing_argument())
            } else {
                type_of(arguments[0], scope)
            },
        },
        ParsedExprKindView::Binary { left, op, right } => if arithmetic(op) {
            match type_of(*left, scope) {
                Err(x) => Err(x),
                Ok(l) => match type_of(*right, scope) {
                    Err(x) => Err(x),
                    Ok(r) => Ok(meet(l, r)),
                },
            }
        } else {
            Ok(Some(ScalarTypeView::Boolean))
        },
        ParsedExprKindView::InList { .. } => Ok(Some(ScalarTypeView::Boolean)),
        ParsedExprKindView::Exists { .. } => Ok(Some(ScalarTypeView::Boolean)),
        ParsedExprKindView::InSubquery { .. } => Ok(Some(ScalarTypeView::Boolean)),
        ParsedExprKindView::QuantifiedSubquery { .. } => Ok(Some(ScalarTypeView::Boolean)),
        ParsedExprKindView::RowSubquery { .. } => Ok(Some(ScalarTypeView::Boolean)),
        ParsedExprKindView::ScalarSubquery(_) => Ok(None),
        ParsedExprKindView::ApplyValue { data_type, .. } => Ok(Some(data_type)),
        ParsedExprKindView::WindowValue { .. } => Ok(Some(ScalarTypeView::Int64)),
        ParsedExprKindView::Window { .. } => Err(
            if scope is Table {
                error_at("42P20"@, "window functions are not allowed in this statement"@, e.position)
            } else {
                internal_error("window expression reached type inference before lowering"@)
            },
        ),
        ParsedExprKindView::NamedWindow { .. } => Err(
            if scope is Table {
                error_at("42704"@, "named window reference was not resolved"@, e.position)
            } else {
                internal_error("named window reference was not resolved"@)
            },
        ),
        ParsedExprKindView::Aggregate { function, argument, .. } => if scope is Table {
            Err(unsupported_error("aggregate is not valid in this statement"@, e.position))
        } else {
            match function {
                AggregateFunction::Count => Ok(Some(ScalarTypeView::Int64)),
                AggregateFunction::Avg => Ok(Some(ScalarTypeView::Float64)),
                _ => match argument {
                    None => Err(error_at(DATATYPE_MISMATCH@, "aggregate requires an argument"@, e.position)),
                    Some(a) => match type_of(*a, scope) {
                        Err(x) => Err(x),
                        Ok(None) => Ok(None),
                        Ok(Some(t)) => Ok(
                            Some(
                                if function == AggregateFunction::Sum {
                                    sum_type(t)
                                } else {
                                    t
                                },
                            ),
                        ),
                    },
                },
            }
        },
    }
}

/// The contents of a found type or error.
pub open spec fn type_result(r: Result<Option<ScalarType>>) -> Checked<Option<ScalarTypeView>> {
    match r {
        Ok(t) => Ok(ScalarType::opt(t)),
        Err(e) => Err(e@),
    }
}

/// Finds the type at which a list of expressions meets.
pub fn meet_all(
    l: &Vec<ParsedExpr>,
    scope: &Scope,
    start: Option<ScalarType>,
    label: &str,
    literal: bool,
    left_unknown: bool,
    position: Option<usize>,
) -> (r: Result<Option<ScalarType>>)
    ensures
        type_result(r) == meeting_type(
            ParsedExpr::views(l@),
            scope@,
            0,
            ScalarType::opt(start),
            (Meeting { label: label@, literal, left_unknown }),
            position,
        ),
    decreases l,
{
    let ghost v = ParsedExpr::views(l@);
    let ghost rule = Meeting { label: label@, literal, left_unknown };
    let ghost whole = meeting_type(v, scope@, 0, ScalarType::opt(start), rule, position);
    let mut met: Option<ScalarType> = start;
    for i in 0..l.len()
        invariant
            v == ParsedExpr::views(l@),
            rule == (Meeting { label: label@, literal, left_unknown }),
            whole == meeting_type(v, scope@, 0, ScalarType::opt(start), rule, position),
            whole == meeting_type(v, scope@, i as int, ScalarType::opt(met), rule, position),
    {
        assert(decreases_to!(l => l@[i as int]));
        assert(v[i as int] == l@[i as int]@);
        let found = infer_type(&l[i], scope)?;
        if let Some(candidate) = found {
            match &met {
                None => {
                    met = Some(candidate);
                },
                Some(current) => {
                    let shared = if literal {
                        common_type_with_literal(current, &candidate, left_unknown, is_unknown_text_literal(&l[i]))
                    } else {
                        common_type(current, &candidate)
                    };
                    match shared {
                        Some(t) => {
                            met = Some(t);
                        },
                        None => {
                            let mut message: String = text4(label, current.describe().as_str(), " and ", candidate.describe().as_str());
                            message.append(" cannot be matched");
                            return Err(DbError::at(DATATYPE_MISMATCH, message, position));
                        },
                    }
                },
            }
        }
    }
    Ok(met)
}

/// Finds the type that an expression has on its own.
pub fn infer_type(expr: &ParsedExpr, scope: &Scope) -> (r: Result<Option<ScalarType>>)
    ensures
        type_result(r) == type_of(expr@, scope@),
    decreases expr,
{
    proof {
        expr.unfold();
    }
    match &expr.kind {
        ParsedExprKind::Column(name) => {
            let b = bind_column(name, scope, expr.position)?;
            proof {
                b.unfold();
            }
            Ok(Some(b.data_type))
        },
        ParsedExprKind::Literal(value) => Ok(value.scalar_type()),
        ParsedExprKind::Parameter(index) => Ok(declared_parameter(scope, *index)),
        ParsedExprKind::ResolvedParameter { data_type, .. } => Ok(Some(data_type.clone())),
        ParsedExprKind::Unary { op, expr: inner } => match op {
            UnaryOperator::Not => Ok(Some(ScalarType::Boolean)),
            UnaryOperator::Negate => infer_type(inner, scope),
        },
        ParsedExprKind::Cast { data_type, .. } => Ok(Some(data_type.clone())),
        ParsedExprKind::Array { elements, .. } => {
            let met = meet_all(elements, scope, None, "array element types ", false, false, expr.position)?;
            match met {
                None => Ok(None),
                Some(t) => Ok(Some(ScalarType::Array { element: Box::new(t) })),
            }
        },
        ParsedExprKind::Function { function, arguments } => {
            match fixed_result_type(*function) {
                Some(t) => Ok(Some(t)),
                None => if *function == ScalarFunction::Abs {
                    if arguments.len() == 0 {
                        return Err(DbError::internal("scalar function argument is missing"));
                    }
                    assert(ParsedExpr::views(arguments@)[0] == arguments@[0]@);
                    assert(decreases_to!(arguments => arguments@[0]));
                    infer_type(&arguments[0], scope)
                } else {
                    meet_all(arguments, scope, None, "function argument types ", false, false, expr.position)
                },
            }
        },
        ParsedExprKind::Binary { left, op, right } => {
            if is_arithmetic_operator(*op) {
                let l = infer_type(left, scope)?;
                let r = infer_type(right, scope)?;
                Ok(meet_types(l, r))
            } else {
                Ok(Some(ScalarType::Boolean))
            }
        },
        ParsedExprKind::InList { .. } => Ok(Some(ScalarType::Boolean)),
        ParsedExprKind::Exists { .. } => Ok(Some(ScalarType::Boolean)),
        ParsedExprKind::InSubquery { .. } => Ok(Some(ScalarType::Boolean)),
        ParsedExprKind::QuantifiedSubquery { .. } => Ok(Some(ScalarType::Boolean)),
        ParsedExprKind::RowSubquery { .. } => Ok(Some(ScalarType::Boolean)),
        ParsedExprKind::ScalarSubquery(_) => Ok(None),
        ParsedExprKind::ApplyValue { data_type, .. } => Ok(Some(data_type.clone())),
        ParsedExprKind::WindowValue { .. } => Ok(Some(ScalarType::Int64)),
        ParsedExprKind::Window { .. } => match scope {
            Scope::Table { .. } => Err(DbError::at("42P20", text("window functions are not allowed in this statement"), expr.position)),
            Scope::Inputs { .. } => Err(DbError::internal("window expression reached type inference before lowering")),
        },
        ParsedExprKind::NamedWindow { .. } => match scope {
            Scope::Table { .. } => Err(DbError::at("42704", text("named window reference was not resolved"), expr.position)),
            Scope::Inputs { .. } => Err(DbError::internal("named window reference was not resolved")),
        },
        ParsedExprKind::Aggregate { function, argument, .. } => match scope {
            Scope::Table { .. } => Err(unsupported_at("aggregate is not valid in this statement", expr.position)),
            Scope::Inputs { .. } => match function {
                AggregateFunction::Count => Ok(Some(ScalarType::Int64)),
                AggregateFunction::Avg => Ok(Some(ScalarType::Float64)),
                _ => match argument {
                    None => Err(DbError::at(DATATYPE_MISMATCH, text("aggregate requires an argument"), expr.position)),
                    Some(a) => {
                        let t = infer_type(a, scope)?;
                        match t {
                            None => Ok(None),
                            Some(t) => Ok(
                                Some(
                                    if *function == AggregateFunction::Sum {
                                        sum_result_type(t)
                                    } else {
                                        t
                                    },
                                ),
                            ),
                        }
                    },
                },
            },
        },
    }
}

} // verus!
