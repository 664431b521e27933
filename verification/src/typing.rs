//! Rules on scalar types: which types meet, which casts exist, what built-in
//! functions ask for and give back.

use std::cmp::Ordering;

use vstd::prelude::*;

use crate::bound::{BoundExpr, BoundExprView};
use crate::syntax::{BinaryOperator, ScalarFunction};
use crate::text::{text, text3, text4};
use crate::types::{described, error_at, DATATYPE_MISMATCH, DbError, DbErrorView, Result, ScalarType, ScalarTypeView};

verus! {

/// Whether an operator computes a number.
pub open spec fn arithmetic(op: BinaryOperator) -> bool {
    op == BinaryOperator::Add || op == BinaryOperator::Subtract || op == BinaryOperator::Multiply || op == BinaryOperator::Divide || op
        == BinaryOperator::Modulo
}

/// Decides whether an operator computes a number.
pub fn is_arithmetic_operator(operator: BinaryOperator) -> (r: bool)
    ensures
        r == arithmetic(operator),
{
    matches!(
        operator,
        BinaryOperator::Add | BinaryOperator::Subtract | BinaryOperator::Multiply | BinaryOperator::Divide | BinaryOperator::Modulo
    )
}

/// Whether a type is one of the integer types.
pub open spec fn integral(t: ScalarTypeView) -> bool {
    t is Int16 || t is Int32 || t is Int64
}

/// Whether a type is numeric.
pub open spec fn numeric(t: ScalarTypeView) -> bool {
    integral(t) || t is Float32 || t is Float64 || t is Decimal
}

/// Decides whether a type is numeric.
pub fn is_numeric(data_type: &ScalarType) -> (r: bool)
    ensures
        r == numeric(data_type@),
{
    matches!(
        data_type,
        ScalarType::Int16 | ScalarType::Int32 | ScalarType::Int64 | ScalarType::Float32 | ScalarType::Float64 | ScalarType::Decimal { .. }
    )
}

/// The place of a type in the order in which numeric types widen; zero for the rest.
pub open spec fn rank(t: ScalarTypeView) -> int {
    match t {
        ScalarTypeView::Int16 => 1,
        ScalarTypeView::Int32 => 2,
        ScalarTypeView::Int64 => 3,
        ScalarTypeView::Decimal { .. } => 4,
        ScalarTypeView::Float32 => 5,
        ScalarTypeView::Float64 => 6,
        _ => 0,
    }
}

/// The place of a type in the order in which numeric types widen; zero for the rest.
pub fn numeric_rank(data_type: &ScalarType) -> (r: u8)
    ensures
        r == rank(data_type@),
{
    match data_type {
        ScalarType::Int16 => 1,
        ScalarType::Int32 => 2,
        ScalarType::Int64 => 3,
        ScalarType::Decimal { .. } => 4,
        ScalarType::Float32 => 5,
        ScalarType::Float64 => 6,
        _ => 0,
    }
}

/// Compares two types by their numeric rank.
pub fn compare_scalar_types(left: &ScalarType, right: &ScalarType) -> (r: Ordering)
    ensures
        r == Ordering::Less <==> rank(left@) < rank(right@),
        r == Ordering::Equal <==> rank(left@) == rank(right@),
        r == Ordering::Greater <==> rank(left@) > rank(right@),
{
    let a: u8 = numeric_rank(left);
    let b: u8 = numeric_rank(right);
    if a < b {
        Ordering::Less
    } else if a == b {
        Ordering::Equal
    } else {
        Ordering::Greater
    }
}

/// Whether a type holds text.
pub open spec fn textual(t: ScalarTypeView) -> bool {
    t is Name || t is InternalChar || t is Char || t is Varchar || t is Text
}

/// Decides whether a type holds text.
pub fn is_textual(data_type: &ScalarType) -> (r: bool)
    ensures
        r == textual(data_type@),
{
    matches!(
        data_type,
        ScalarType::Name | ScalarType::InternalChar | ScalarType::Char { .. } | ScalarType::Varchar { .. } | ScalarType::Text
    )
}

/// Whether a type has an order that a B+Tree can keep.
pub open spec fn orderable(t: ScalarTypeView) -> bool {
    !(t is Json || t is Jsonb || t is Array || t is Vector)
}

/// Decides whether a type has an order that a B+Tree can keep.
pub fn indexable_type(data_type: &ScalarType) -> (r: bool)
    ensures
        r == orderable(data_type@),
{
    !matches!(data_type, ScalarType::Json | ScalarType::Jsonb | ScalarType::Array { .. } | ScalarType::Vector { .. })
}

/// Whether a full-text index can cover a type.
pub open spec fn searchable(t: ScalarTypeView) -> bool {
    t is Char || t is Varchar || t is Text
}

/// Decides whether a full-text index can cover a type.
pub fn text_search_type(data_type: &ScalarType) -> (r: bool)
    ensures
        r == searchable(data_type@),
{
    matches!(data_type, ScalarType::Char { .. } | ScalarType::Varchar { .. } | ScalarType::Text)
}

/// The type at which two types meet: equal types meet at themselves, object
/// identifiers meet integers, numbers meet at the wider one and texts at `Text`.
pub open spec fn common(left: ScalarTypeView, right: ScalarTypeView) -> Option<ScalarTypeView> {
    if left == right {
        Some(left)
    } else if (left is Oid && integral(right)) || (right is Oid && integral(left)) {
        Some(ScalarTypeView::Oid)
    } else if numeric(left) && numeric(right) {
        if rank(left) >= rank(right) {
            Some(left)
        } else {
            Some(right)
        }
    } else if textual(left) && textual(right) {
        Some(ScalarTypeView::Text)
    } else {
        None
    }
}

fn is_integral(data_type: &ScalarType) -> (r: bool)
    ensures
        r == integral(data_type@),
{
    matches!(data_type, ScalarType::Int16 | ScalarType::Int32 | ScalarType::Int64)
}

/// The type at which two types meet.
pub fn common_type(left: &ScalarType, right: &ScalarType) -> (r: Option<ScalarType>)
    ensures
        ScalarType::opt(r) == common(left@, right@),
{
    if left.same(right) {
        Some(left.clone())
    } else if (matches!(left, ScalarType::Oid) && is_integral(right)) || (matches!(right, ScalarType::Oid) && is_integral(left)) {
        Some(ScalarType::Oid)
    } else if is_numeric(left) && is_numeric(right) {
        if numeric_rank(left) >= numeric_rank(right) {
            Some(left.clone())
        } else {
            Some(right.clone())
        }
    } else if is_textual(left) && is_textual(right) {
        Some(ScalarType::Text)
    } else {
        None
    }
}

/// The type at which two types meet when one side may be a string constant of
/// yet unknown type, which an enum, an object identifier or an enum array absorbs.
pub open spec fn common_with_literal(left: ScalarTypeView, right: ScalarTypeView, left_unknown: bool, right_unknown: bool) -> Option<
    ScalarTypeView,
> {
    match common(left, right) {
        Some(t) => Some(t),
        None => if left is Enum && right is Text {
            if right_unknown {
                Some(left)
            } else {
                None
            }
        } else if left is Text && right is Enum {
            if left_unknown {
                Some(right)
            } else {
                None
            }
        } else if left is Oid && right is Text {
            if right_unknown {
                Some(ScalarTypeView::Oid)
            } else {
                None
            }
        } else if left is Text && right is Oid {
            if left_unknown {
                Some(ScalarTypeView::Oid)
            } else {
                None
            }
        } else if left is Array && right is Array {
            if right_unknown && *left->element is Enum && *right->element is Text {
                Some(left)
            } else if left_unknown && *left->element is Text && *right->element is Enum {
                Some(right)
            } else {
                None
            }
        } else {
            None
        },
    }
}

/// The type at which two types meet when one side may be a string constant of
/// yet unknown type.
pub fn common_type_with_literal(left: &ScalarType, right: &ScalarType, left_unknown: bool, right_unknown: bool) -> (r: Option<ScalarType>)
    ensures
        ScalarType::opt(r) == common_with_literal(left@, right@, left_unknown, right_unknown),
{
    let met = common_type(left, right);
    if met.is_some() {
        return met;
    }
    match (left, right) {
        (ScalarType::Enum { .. }, ScalarType::Text) => if right_unknown {
            Some(left.clone())
        } else {
            None
        },
        (ScalarType::Text, ScalarType::Enum { .. }) => if left_unknown {
            Some(right.clone())
        } else {
            None
        },
        (ScalarType::Oid, ScalarType::Text) => if right_unknown {
            Some(ScalarType::Oid)
        } else {
            None
        },
        (ScalarType::Text, ScalarType::Oid) => if left_unknown {
            Some(ScalarType::Oid)
        } else {
            None
        },
        (ScalarType::Array { element: left_element }, ScalarType::Array { element: right_element }) => {
            assert(*left@->element == (**left_element)@);
            assert(*right@->element == (**right_element)@);
            if right_unknown && matches!(**left_element, ScalarType::Enum { .. }) && matches!(**right_element, ScalarType::Text) {
                Some(left.clone())
            } else if left_unknown && matches!(**left_element, ScalarType::Text) && matches!(**right_element, ScalarType::Enum { .. }) {
                Some(right.clone())
            } else {
                None
            }
        },
        _ => None,
    }
}

/// What is said of a type that does not fit where another is expected.
pub open spec fn mismatch_error(actual: ScalarTypeView, expected: ScalarTypeView, position: Option<usize>) -> DbErrorView {
    error_at(DATATYPE_MISMATCH@, "expected "@ + described(expected) + ", found "@ + described(actual), position)
}

/// Whether a type fits where another may be expected, and the error if not.
pub open spec fn compatible(actual: ScalarTypeView, expected: Option<ScalarTypeView>, position: Option<usize>) -> std::result::Result<
    (),
    DbErrorView,
> {
    match expected {
        Some(t) => if common(actual, t) is Some {
            Ok(())
        } else {
            Err(mismatch_error(actual, t, position))
        },
        None => Ok(()),
    }
}

/// Accepts a type that fits where another may be expected.
pub fn ensure_types_compatible(actual: &ScalarType, expected: Option<&ScalarType>, position: Option<usize>) -> (r: Result<()>)
    ensures
        match r {
            Ok(_) => compatible(actual@, ScalarType::opt_ref(expected), position) is Ok,
            Err(e) => compatible(actual@, ScalarType::opt_ref(expected), position) == Err::<(), DbErrorView>(e@),
        },
{
    match expected {
        None => Ok(()),
        Some(t) => {
            if common_type(actual, t).is_none() {
                return Err(
                    DbError::at(
                        DATATYPE_MISMATCH,
                        text4("expected ", t.describe().as_str(), ", found ", actual.describe().as_str()),
                        position,
                    ),
                );
            }
            Ok(())
        },
    }
}

/// Whether an explicit cast between two types exists.
pub open spec fn castable(source: ScalarTypeView, target: ScalarTypeView) -> bool {
    ||| source == target
    ||| numeric(source) && numeric(target)
    ||| textual(target)
    ||| textual(source) && !(target is Array || target is Vector)
    ||| source is Date && target == (ScalarTypeView::Timestamp { with_timezone: false })
    ||| source is Timestamp && (target is Date || target is Time || target is Timestamp)
    ||| source is Json && target is Jsonb
    ||| source is Jsonb && target is Json
    ||| source is Oid && integral(target)
    ||| integral(source) && target is Oid
    ||| source is Array && target is Array
}

/// Whether an explicit cast exists, and the error if not.
pub open spec fn cast_check(
    source: ScalarTypeView,
    target: ScalarTypeView,
    position: Option<usize>,
) -> std::result::Result<(), DbErrorView> {
    if castable(source, target) {
        Ok(())
    } else {
        Err(error_at("42846"@, "cannot cast type "@ + described(source) + " to "@ + described(target), position))
    }
}

/// Accepts an explicit cast that exists.
pub fn ensure_explicit_cast_supported(source: &ScalarType, target: &ScalarType, position: Option<usize>) -> (r: Result<()>)
    ensures
        match r {
            Ok(_) => cast_check(source@, target@, position) is Ok,
            Err(e) => cast_check(source@, target@, position) == Err::<(), DbErrorView>(e@),
        },
{
    let supported = source.same(target) || (is_numeric(source) && is_numeric(target)) || is_textual(target) || (is_textual(source)
        && matches!(
            target,
            ScalarType::Boolean | ScalarType::Int16 | ScalarType::Int32 | ScalarType::Int64 | ScalarType::Oid | ScalarType::Float32
            | ScalarType::Float64 | ScalarType::Decimal { .. } | ScalarType::Binary | ScalarType::Date | ScalarType::Time
            | ScalarType::Timestamp { .. } | ScalarType::Interval | ScalarType::Json | ScalarType::Jsonb | ScalarType::Uuid
            | ScalarType::Enum { .. }
        )) || match (source, target) {
        (ScalarType::Date, ScalarType::Timestamp { with_timezone }) => !*with_timezone,
        (ScalarType::Timestamp { .. }, ScalarType::Date) => true,
        (ScalarType::Timestamp { .. }, ScalarType::Time) => true,
        (ScalarType::Timestamp { .. }, ScalarType::Timestamp { .. }) => true,
        (ScalarType::Json, ScalarType::Jsonb) => true,
        (ScalarType::Jsonb, ScalarType::Json) => true,
        (ScalarType::Oid, t) => is_integral(t),
        (t, ScalarType::Oid) => is_integral(t),
        (ScalarType::Array { .. }, ScalarType::Array { .. }) => true,
        _ => false,
    };
    if supported {
        Ok(())
    } else {
        Err(
            DbError::at(
                "42846",
                text4("cannot cast type ", source.describe().as_str(), " to ", target.describe().as_str()),
                position,
            ),
        )
    }
}

/// The name of a built-in function in messages.
pub open spec fn function_name(f: ScalarFunction) -> Seq<char> {
    match f {
        ScalarFunction::Version => "Version"@,
        ScalarFunction::CurrentDatabase => "CurrentDatabase"@,
        ScalarFunction::CurrentUser => "CurrentUser"@,
        ScalarFunction::SessionUser => "SessionUser"@,
        ScalarFunction::CurrentSetting => "CurrentSetting"@,
        ScalarFunction::Lower => "Lower"@,
        ScalarFunction::Upper => "Upper"@,
        ScalarFunction::CharacterLength => "CharacterLength"@,
        ScalarFunction::OctetLength => "OctetLength"@,
        ScalarFunction::Abs => "Abs"@,
        ScalarFunction::Coalesce => "Coalesce"@,
        ScalarFunction::NullIf => "NullIf"@,
        ScalarFunction::Concat => "Concat"@,
        ScalarFunction::Substring => "Substring"@,
        ScalarFunction::Btrim => "Btrim"@,
        ScalarFunction::Ltrim => "Ltrim"@,
        ScalarFunction::Rtrim => "Rtrim"@,
        ScalarFunction::Replace => "Replace"@,
        ScalarFunction::Strpos => "Strpos"@,
        ScalarFunction::Greatest => "Greatest"@,
        ScalarFunction::Least => "Least"@,
        ScalarFunction::JsonbTypeof => "JsonbTypeof"@,
        ScalarFunction::ArrayLength => "ArrayLength"@,
        ScalarFunction::Cardinality => "Cardinality"@,
    }
}

/// The name of a built-in function in messages.
pub fn function_label(f: ScalarFunction) -> (r: &'static str)
    ensures
        r@ == function_name(f),
{
    match f {
        ScalarFunction::Version => "Version",
        ScalarFunction::CurrentDatabase => "CurrentDatabase",
        ScalarFunction::CurrentUser => "CurrentUser",
        ScalarFunction::SessionUser => "SessionUser",
        ScalarFunction::CurrentSetting => "CurrentSetting",
        ScalarFunction::Lower => "Lower",
        ScalarFunction::Upper => "Upper",
        ScalarFunction::CharacterLength => "CharacterLength",
        ScalarFunction::OctetLength => "OctetLength",
        ScalarFunction::Abs => "Abs",
        ScalarFunction::Coalesce => "Coalesce",
        ScalarFunction::NullIf => "NullIf",
        ScalarFunction::Concat => "Concat",
        ScalarFunction::Substring => "Substring",
        ScalarFunction::Btrim => "Btrim",
        ScalarFunction::Ltrim => "Ltrim",
        ScalarFunction::Rtrim => "Rtrim",
        ScalarFunction::Replace => "Replace",
        ScalarFunction::Strpos => "Strpos",
        ScalarFunction::Greatest => "Greatest",
        ScalarFunction::Least => "Least",
        ScalarFunction::JsonbTypeof => "JsonbTypeof",
        ScalarFunction::ArrayLength => "ArrayLength",
        ScalarFunction::Cardinality => "Cardinality",
    }
}

/// Fewest arguments that the result type of a built-in function can be told from.
pub open spec fn least_arguments(f: ScalarFunction) -> nat {
    match f {
        ScalarFunction::Lower | ScalarFunction::Upper | ScalarFunction::CharacterLength | ScalarFunction::OctetLength | ScalarFunction::Abs
        | ScalarFunction::NullIf | ScalarFunction::JsonbTypeof | ScalarFunction::ArrayLength | ScalarFunction::Cardinality => 1,
        _ => 0,
    }
}

/// Fewest arguments that the result type of a built-in function can be told from.
pub fn least_argument_count(f: ScalarFunction) -> (r: usize)
    ensures
        r == least_arguments(f),
{
    match f {
        ScalarFunction::Lower | ScalarFunction::Upper | ScalarFunction::CharacterLength | ScalarFunction::OctetLength | ScalarFunction::Abs
        | ScalarFunction::NullIf | ScalarFunction::JsonbTypeof | ScalarFunction::ArrayLength | ScalarFunction::Cardinality => 1,
        _ => 0,
    }
}

/// Whether all arguments of a built-in function share one type, which is also its result.
pub open spec fn shares_type(f: ScalarFunction) -> bool {
    f == ScalarFunction::Coalesce || f == ScalarFunction::NullIf || f == ScalarFunction::Greatest || f == ScalarFunction::Least
}

/// Decides whether all arguments of a built-in function share one type.
pub fn shares_argument_type(f: ScalarFunction) -> (r: bool)
    ensures
        r == shares_type(f),
{
    matches!(f, ScalarFunction::Coalesce | ScalarFunction::NullIf | ScalarFunction::Greatest | ScalarFunction::Least)
}

/// The result type of a built-in function that has a fixed one.
pub open spec fn fixed_result(f: ScalarFunction) -> Option<ScalarTypeView> {
    match f {
        ScalarFunction::Version | ScalarFunction::CurrentDatabase | ScalarFunction::CurrentUser | ScalarFunction::SessionUser
        | ScalarFunction::CurrentSetting | ScalarFunction::Lower | ScalarFunction::Upper | ScalarFunction::Concat
        | ScalarFunction::Substring | ScalarFunction::Btrim | ScalarFunction::Ltrim | ScalarFunction::Rtrim | ScalarFunction::Replace
        | ScalarFunction::JsonbTypeof => Some(ScalarTypeView::Text),
        ScalarFunction::CharacterLength | ScalarFunction::OctetLength | ScalarFunction::ArrayLength | ScalarFunction::Cardinality
        | ScalarFunction::Strpos => Some(ScalarTypeView::Int32),
        _ => None,
    }
}

/// The result type of a built-in function that has a fixed one.
pub fn fixed_result_type(f: ScalarFunction) -> (r: Option<ScalarType>)
    ensures
        ScalarType::opt(r) == fixed_result(f),
{
    match f {
        ScalarFunction::Version | ScalarFunction::CurrentDatabase | ScalarFunction::CurrentUser | ScalarFunction::SessionUser
        | ScalarFunction::CurrentSetting | ScalarFunction::Lower | ScalarFunction::Upper | ScalarFunction::Concat
        | ScalarFunction::Substring | ScalarFunction::Btrim | ScalarFunction::Ltrim | ScalarFunction::Rtrim | ScalarFunction::Replace
        | ScalarFunction::JsonbTypeof => Some(ScalarType::Text),
        ScalarFunction::CharacterLength | ScalarFunction::OctetLength | ScalarFunction::ArrayLength | ScalarFunction::Cardinality
        | ScalarFunction::Strpos => Some(ScalarType::Int32),
        _ => None,
    }
}

/// The type that a built-in function expects of an argument, given the type that
/// its arguments share.
pub open spec fn argument_type(f: ScalarFunction, index: int, shared: Option<ScalarTypeView>) -> Option<ScalarTypeView> {
    match f {
        ScalarFunction::CurrentSetting => if index == 0 {
            Some(ScalarTypeView::Text)
        } else {
            Some(ScalarTypeView::Boolean)
        },
        ScalarFunction::Lower | ScalarFunction::Upper | ScalarFunction::Btrim | ScalarFunction::Ltrim | ScalarFunction::Rtrim
        | ScalarFunction::Replace | ScalarFunction::Strpos => Some(ScalarTypeView::Text),
        ScalarFunction::Substring => if index == 0 {
            Some(ScalarTypeView::Text)
        } else {
            Some(ScalarTypeView::Int32)
        },
        ScalarFunction::JsonbTypeof => Some(ScalarTypeView::Jsonb),
        ScalarFunction::ArrayLength => if index == 1 {
            Some(ScalarTypeView::Int32)
        } else {
            None
        },
        ScalarFunction::Coalesce | ScalarFunction::NullIf | ScalarFunction::Greatest | ScalarFunction::Least => shared,
        _ => None,
    }
}

/// The type that a built-in function expects of an argument.
pub fn scalar_function_argument_type(f: ScalarFunction, index: usize, shared: Option<&ScalarType>) -> (r: Option<ScalarType>)
    ensures
        ScalarType::opt(r) == argument_type(f, index as int, ScalarType::opt_ref(shared)),
{
    match f {
        ScalarFunction::CurrentSetting => if index == 0 {
            Some(ScalarType::Text)
        } else {
            Some(ScalarType::Boolean)
        },
        ScalarFunction::Lower | ScalarFunction::Upper | ScalarFunction::Btrim | ScalarFunction::Ltrim | ScalarFunction::Rtrim
        | ScalarFunction::Replace | ScalarFunction::Strpos => Some(ScalarType::Text),
        ScalarFunction::Substring => if index == 0 {
            Some(ScalarType::Text)
        } else {
            Some(ScalarType::Int32)
        },
        ScalarFunction::JsonbTypeof => Some(ScalarType::Jsonb),
        ScalarFunction::ArrayLength => if index == 1 {
            Some(ScalarType::Int32)
        } else {
            None
        },
        ScalarFunction::Coalesce | ScalarFunction::NullIf | ScalarFunction::Greatest | ScalarFunction::Least => match shared {
            Some(t) => Some(t.clone()),
            None => None,
        },
        _ => None,
    }
}

/// Whether some expression may be null.
pub open spec fn any_nullable(l: Seq<BoundExprView>) -> bool {
    exists|i: int| 0 <= i < l.len() && (#[trigger] l[i]).nullable
}

/// Whether every expression may be null.
pub open spec fn all_nullable(l: Seq<BoundExprView>) -> bool {
    forall|i: int| 0 <= i < l.len() ==> (#[trigger] l[i]).nullable
}

/// Whether every expression holds text.
pub open spec fn all_textual(l: Seq<BoundExprView>) -> bool {
    forall|i: int| 0 <= i < l.len() ==> textual((#[trigger] l[i]).data_type)
}

/// Whether every expression has one type.
pub open spec fn all_of_type(l: Seq<BoundExprView>, t: ScalarTypeView) -> bool {
    forall|i: int| 0 <= i < l.len() ==> (#[trigger] l[i]).data_type == t
}

/// Decides whether some expression may be null.
pub fn has_nullable(l: &Vec<BoundExpr>) -> (r: bool)
    ensures
        r == any_nullable(BoundExpr::views(l@)),
{
    let ghost v = BoundExpr::views(l@);
    for i in 0..l.len()
        invariant
            v == BoundExpr::views(l@),
            forall|k: int| 0 <= k < i ==> !(#[trigger] v[k]).nullable,
    {
        proof {
            l@[i as int].unfold();
        }
        assert(v[i as int] == l@[i as int]@);
        if l[i].nullable {
            return true;
        }
    }
    false
}

/// Decides whether every expression may be null.
pub fn only_nullable(l: &Vec<BoundExpr>) -> (r: bool)
    ensures
        r == all_nullable(BoundExpr::views(l@)),
{
    let ghost v = BoundExpr::views(l@);
    for i in 0..l.len()
        invariant
            v == BoundExpr::views(l@),
            forall|k: int| 0 <= k < i ==> (#[trigger] v[k]).nullable,
    {
        proof {
            l@[i as int].unfold();
        }
        assert(v[i as int] == l@[i as int]@);
        if !l[i].nullable {
            return false;
        }
    }
    true
}

/// Decides whether every expression holds text.
pub fn only_textual(l: &Vec<BoundExpr>) -> (r: bool)
    ensures
        r == all_textual(BoundExpr::views(l@)),
{
    let ghost v = BoundExpr::views(l@);
    for i in 0..l.len()
        invariant
            v == BoundExpr::views(l@),
            forall|k: int| 0 <= k < i ==> textual((#[trigger] v[k]).data_type),
    {
        proof {
            l@[i as int].unfold();
        }
        assert(v[i as int] == l@[i as int]@);
        if !is_textual(&l[i].data_type) {
            return false;
        }
    }
    true
}

/// Decides whether every expression has one type.
pub fn only_of_type(l: &Vec<BoundExpr>, t: &ScalarType) -> (r: bool)
    ensures
        r == all_of_type(BoundExpr::views(l@), t@),
{
    let ghost v = BoundExpr::views(l@);
    for i in 0..l.len()
        invariant
            v == BoundExpr::views(l@),
            forall|k: int| 0 <= k < i ==> (#[trigger] v[k]).data_type == t@,
    {
        proof {
            l@[i as int].unfold();
        }
        assert(v[i as int] == l@[i as int]@);
        if !l[i].data_type.same(t) {
            return false;
        }
    }
    true
}

/// The result type of a built-in function on bound arguments and whether it may
/// be null, or the error if the arguments do not fit.
pub open spec fn function_result(f: ScalarFunction, args: Seq<BoundExprView>, position: Option<usize>) -> std::result::Result<
    (ScalarTypeView, bool),
    DbErrorView,
> {
    match f {
        ScalarFunction::Version | ScalarFunction::CurrentDatabase | ScalarFunction::CurrentUser | ScalarFunction::SessionUser => Ok(
            (ScalarTypeView::Text, false),
        ),
        ScalarFunction::CurrentSetting => Ok((ScalarTypeView::Text, true)),
        ScalarFunction::Lower | ScalarFunction::Upper => if textual(args[0].data_type) {
            Ok((ScalarTypeView::Text, args[0].nullable))
        } else {
            Err(error_at("42883"@, "function "@ + function_name(f) + " requires a textual argument"@, position))
        },
        ScalarFunction::CharacterLength | ScalarFunction::OctetLength => if textual(args[0].data_type) || args[0].data_type is Binary {
            Ok((ScalarTypeView::Int32, args[0].nullable))
        } else {
            Err(error_at("42883"@, "function "@ + function_name(f) + " requires text or bytea"@, position))
        },
        ScalarFunction::Abs => if numeric(args[0].data_type) {
            Ok((args[0].data_type, args[0].nullable))
        } else {
            Err(error_at("42883"@, "ABS requires a numeric argument"@, position))
        },
        ScalarFunction::Coalesce => if args.len() > 0 {
            Ok((args[0].data_type, all_nullable(args)))
        } else {
            Err(error_at("42883"@, "COALESCE requires an argument"@, position))
        },
        ScalarFunction::NullIf => Ok((args[0].data_type, true)),
        ScalarFunction::Concat => Ok((ScalarTypeView::Text, false)),
        ScalarFunction::Substring => Ok((ScalarTypeView::Text, any_nullable(args))),
        ScalarFunction::Btrim | ScalarFunction::Ltrim | ScalarFunction::Rtrim | ScalarFunction::Replace
        | ScalarFunction::Strpos => if all_textual(
            args,
        ) {
            Ok(
                (
                    if f == ScalarFunction::Strpos {
                        ScalarTypeView::Int32
                    } else {
                        ScalarTypeView::Text
                    },
                    any_nullable(args),
                ),
            )
        } else {
            Err(error_at("42883"@, "function "@ + function_name(f) + " requires textual arguments"@, position))
        },
        ScalarFunction::Greatest | ScalarFunction::Least => if args.len() == 0 {
            Err(error_at("42883"@, "function "@ + function_name(f) + " requires an argument"@, position))
        } else if all_of_type(args, args[0].data_type) {
            Ok((args[0].data_type, all_nullable(args)))
        } else {
            Err(error_at("42883"@, "function "@ + function_name(f) + " arguments must have a common type"@, position))
        },
        ScalarFunction::JsonbTypeof => if args[0].data_type is Jsonb {
            Ok((ScalarTypeView::Text, args[0].nullable))
        } else {
            Err(error_at("42883"@, "JSONB_TYPEOF requires a jsonb argument"@, position))
        },
        ScalarFunction::ArrayLength | ScalarFunction::Cardinality => if args[0].data_type is Array {
            Ok((ScalarTypeView::Int32, true))
        } else {
            Err(error_at("42883"@, "function "@ + function_name(f) + " requires an array argument"@, position))
        },
    }
}

/// The result type of a built-in function on bound arguments.
pub fn validate_bound_scalar_function(f: ScalarFunction, arguments: &Vec<BoundExpr>, position: Option<usize>) -> (r: Result<
    (ScalarType, bool),
>)
    requires
        arguments.len() >= least_arguments(f),
    ensures
        match r {
            Ok(p) => function_result(f, BoundExpr::views(arguments@), position) == Ok::<_, DbErrorView>((p.0@, p.1)),
            Err(e) => function_result(f, BoundExpr::views(arguments@), position) == Err::<(ScalarTypeView, bool), _>(e@),
        },
{
    let ghost v = BoundExpr::views(arguments@);
    proof {
        if arguments@.len() > 0 {
            arguments@[0].unfold();
            assert(v[0] == arguments@[0]@);
        }
    }
    match f {
        ScalarFunction::Version | ScalarFunction::CurrentDatabase | ScalarFunction::CurrentUser | ScalarFunction::SessionUser => Ok(
            (ScalarType::Text, false),
        ),
        ScalarFunction::CurrentSetting => Ok((ScalarType::Text, true)),
        ScalarFunction::Lower | ScalarFunction::Upper => {
            if !is_textual(&arguments[0].data_type) {
                return Err(DbError::at("42883", text3("function ", function_label(f), " requires a textual argument"), position));
            }
            Ok((ScalarType::Text, arguments[0].nullable))
        },
        ScalarFunction::CharacterLength | ScalarFunction::OctetLength => {
            if !is_textual(&arguments[0].data_type) && !matches!(arguments[0].data_type, ScalarType::Binary) {
                return Err(DbError::at("42883", text3("function ", function_label(f), " requires text or bytea"), position));
            }
            Ok((ScalarType::Int32, arguments[0].nullable))
        },
        ScalarFunction::Abs => {
            if !is_numeric(&arguments[0].data_type) {
                return Err(DbError::at("42883", text("ABS requires a numeric argument"), position));
            }
            Ok((arguments[0].data_type.clone(), arguments[0].nullable))
        },
        ScalarFunction::Coalesce => {
            if arguments.len() == 0 {
                return Err(DbError::at("42883", text("COALESCE requires an argument"), position));
            }
            Ok((arguments[0].data_type.clone(), only_nullable(arguments)))
        },
        ScalarFunction::NullIf => Ok((arguments[0].data_type.clone(), true)),
        ScalarFunction::Concat => Ok((ScalarType::Text, false)),
        ScalarFunction::Substring => Ok((ScalarType::Text, has_nullable(arguments))),
        ScalarFunction::Btrim | ScalarFunction::Ltrim | ScalarFunction::Rtrim | ScalarFunction::Replace | ScalarFunction::Strpos => {
            if !only_textual(arguments) {
                return Err(DbError::at("42883", text3("function ", function_label(f), " requires textual arguments"), position));
            }
            let data_type = if f == ScalarFunction::Strpos {
                ScalarType::Int32
            } else {
                ScalarType::Text
            };
            Ok((data_type, has_nullable(arguments)))
        },
        ScalarFunction::Greatest | ScalarFunction::Least => {
            if arguments.len() == 0 {
                return Err(DbError::at("42883", text3("function ", function_label(f), " requires an argument"), position));
            }
            let data_type = arguments[0].data_type.clone();
            if !only_of_type(arguments, &data_type) {
                return Err(DbError::at("42883", text3("function ", function_label(f), " arguments must have a common type"), position));
            }
            Ok((data_type, only_nullable(arguments)))
        },
        ScalarFunction::JsonbTypeof => {
            if !matches!(arguments[0].data_type, ScalarType::Jsonb) {
                return Err(DbError::at("42883", text("JSONB_TYPEOF requires a jsonb argument"), position));
            }
            Ok((ScalarType::Text, arguments[0].nullable))
        },
        ScalarFunction::ArrayLength | ScalarFunction::Cardinality => {
            if !matches!(arguments[0].data_type, ScalarType::Array { .. }) {
                return Err(DbError::at("42883", text3("function ", function_label(f), " requires an array argument"), position));
            }
            Ok((ScalarType::Int32, true))
        },
    }
}

/// Two types meet at one that both fit and that both can be cast to.
pub proof fn lemma_common_fits(left: ScalarTypeView, right: ScalarTypeView)
    ensures
        common(left, right) matches Some(t) ==> common(left, t) is Some && common(right, t) is Some && castable(left, t) && castable(right, t),
{
}

/// It does not matter which of two types comes first, unless they are two decimal types
/// of different sizes: there the first one wins.
pub proof fn lemma_common_symmetric(left: ScalarTypeView, right: ScalarTypeView)
    ensures
        common(left, right) is Some <==> common(right, left) is Some,
        !(left is Decimal && right is Decimal) ==> common(left, right) == common(right, left),
        left is Decimal && right is Decimal ==> common(left, right) == Some(left),
{
}

/// Of two operands one of which may be a constant of unknown type, it does not matter
/// which comes first.
pub proof fn lemma_common_with_literal_symmetric(left: ScalarTypeView, right: ScalarTypeView, left_unknown: bool, right_unknown: bool)
    requires
        !(left is Decimal && right is Decimal),
    ensures
        common_with_literal(left, right, left_unknown, right_unknown) == common_with_literal(right, left, right_unknown, left_unknown),
{
}

/// A number that meets another number at a type is never narrowed.
pub proof fn lemma_common_widens(left: ScalarTypeView, right: ScalarTypeView)
    requires
        numeric(left),
        numeric(right),
    ensures
        common(left, right) matches Some(t) && numeric(t) && rank(left) <= rank(t) && rank(right) <= rank(t),
{
}

} // verus!
