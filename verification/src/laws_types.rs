//! What holds of types, names and session values.

use sqlparser::ast::{CharacterLength, DataType, ExactNumberInfo, Ident};
use vstd::prelude::*;

use crate::binding::aggregate_type;
use crate::bound::BoundExprView;
use crate::scope::Checked;
use crate::source::ident_of;
use crate::sql_types::{column_type_of, data_type_of};
use crate::syntax::{AggregateFunction, ParsedExprKindView, ParsedExprView, ScalarFunction};
use crate::text::lower;
use crate::type_rules::{typed_expr, unfold_typed_expr, unfold_typed_expr_list, ResolverView};
use crate::types::{type_accepts, type_of_value, DbErrorView, ScalarTypeView, ValueView};
use crate::typing::{castable, common, function_result, textual};

verus! {

/// Whether a length is the one that was written.
pub open spec fn same_length(written: Option<CharacterLength>, length: Option<u32>) -> bool {
    &&& written is None <==> length is None
    &&& written matches Some(CharacterLength::IntegerLength { length: n, .. }) ==> length is Some && length->0 == n
}

/// Whether a type is the one that is written as a data type.
pub open spec fn named_as(t: ScalarTypeView, written: DataType) -> bool {
    match t {
        ScalarTypeView::Boolean => written is Boolean || written is Bool,
        ScalarTypeView::Int16 => written is TinyInt || written is SmallInt || written is Int2,
        ScalarTypeView::Int32 => written is MediumInt || written is Int || written is Integer || written is Int4,
        ScalarTypeView::Int64 => written is BigInt || written is Int8,
        ScalarTypeView::Float32 => written is Real || written is Float4 || (written matches DataType::Float(ExactNumberInfo::Precision(p))
            && p <= 24),
        ScalarTypeView::Float64 => written is DoublePrecision || written is Float8 || written is Double || (written matches DataType::Float(
            n,
        ) && !(n matches ExactNumberInfo::Precision(p) && p <= 24)),
        ScalarTypeView::Decimal { precision, scale } => {
            ||| written matches DataType::Numeric(n) && same_digits(n, precision, scale)
            ||| written matches DataType::Decimal(n) && same_digits(n, precision, scale)
            ||| written matches DataType::Dec(n) && same_digits(n, precision, scale)
        },
        ScalarTypeView::Char { length } => {
            ||| written matches DataType::Character(l) && same_length(l, length)
            ||| written matches DataType::Char(l) && same_length(l, length)
        },
        ScalarTypeView::Varchar { length } => {
            ||| written matches DataType::CharacterVarying(l) && same_length(l, length)
            ||| written matches DataType::CharVarying(l) && same_length(l, length)
            ||| written matches DataType::Varchar(l) && same_length(l, length)
            ||| written matches DataType::Nvarchar(l) && same_length(l, length)
        },
        ScalarTypeView::Text => written is Text || written is TinyText || written is MediumText || written is LongText,
        ScalarTypeView::Binary => written is Bytea || written is Blob || written is Binary || written is Varbinary,
        ScalarTypeView::Date => written is Date,
        ScalarTypeView::Time => written matches DataType::Time(_, zone) && !(zone is WithTimeZone || zone is Tz),
        ScalarTypeView::Timestamp { with_timezone } => {
            ||| written matches DataType::Timestamp(_, zone) && (with_timezone <==> zone is WithTimeZone || zone is Tz)
            ||| written is Datetime && !with_timezone
        },
        ScalarTypeView::Interval => written is Interval,
        ScalarTypeView::Json => written is JSON,
        ScalarTypeView::Jsonb => written is JSONB,
        ScalarTypeView::Uuid => written is Uuid,
        ScalarTypeView::Vector { .. } | ScalarTypeView::Oid | ScalarTypeView::Name => written is Custom,
        ScalarTypeView::Array { .. } => written is Array,
        _ => false,
    }
}

/// Whether a precision and a scale are those that were written.
pub open spec fn same_digits(n: ExactNumberInfo, precision: Option<u32>, scale: Option<u32>) -> bool {
    match n {
        ExactNumberInfo::None => precision is None && scale is None,
        ExactNumberInfo::Precision(p) => precision is Some && precision->0 == p && scale == Some(0u32),
        ExactNumberInfo::PrecisionAndScale(p, s) => precision is Some && precision->0 == p && scale is Some && scale->0 == s && s <= p,
    }
}

/// A built-in type is the one that was written, with its length, precision and scale.
pub proof fn lemma_types_kept(written: DataType, sql: Seq<char>)
    ensures
        data_type_of(written) matches Ok(t) ==> named_as(t, written),
        column_type_of(written, sql) matches Ok((t, name)) ==> (name is None ==> named_as(t, written)) && (name is Some
            ==> written is Custom || written is Array),
        written is Custom && column_type_of(written, sql) is Ok && column_type_of(written, sql)->Ok_0.1 is Some ==> column_type_of(
            written,
            sql,
        )->Ok_0.0 is Text,
{
    reveal(data_type_of);
    reveal(column_type_of);
}

/// A name in quotes keeps its letters, and any other name is in lower case.
pub proof fn lemma_names_folded(i: Ident, sql: Seq<char>)
    ensures
        i.quote_style is Some ==> ident_of(i, sql).name == i.value@,
        i.quote_style is None ==> ident_of(i, sql).name == lower(i.value@),
        i.quote_style is None ==> ident_of(i, sql).name.len() == i.value@.len() && forall|k: int|
            0 <= k < i.value@.len() ==> !('A' <= #[trigger] ident_of(i, sql).name[k] <= 'Z'),
{
    reveal(ident_of);
}

/// Numbers meet at the wider of their types: an integer type only where both are integers
/// that fit it, and a float wherever one of them is a float.
pub proof fn lemma_numbers_meet(left: ScalarTypeView, right: ScalarTypeView)
    ensures
        common(left, right) matches Some(t) ==> {
            &&& t is Int16 ==> left is Int16 && right is Int16
            &&& t is Int32 ==> (left is Int16 || left is Int32) && (right is Int16 || right is Int32)
            &&& t is Int64 ==> (left is Int16 || left is Int32 || left is Int64) && (right is Int16 || right is Int32 || right is Int64)
            &&& t is Decimal ==> !(left is Float32 || left is Float64 || right is Float32 || right is Float64)
            &&& t is Float32 ==> !(left is Float64 || right is Float64) && (left is Float32 || right is Float32)
            &&& t is Float64 ==> left is Float64 || right is Float64
            &&& t is Boolean ==> left is Boolean && right is Boolean
            &&& t is Date ==> left is Date && right is Date
            &&& t is Text && left != right ==> textual(left) && textual(right)
            &&& t == left || t == right || t is Text
        },
        common(left, left) == Some(left),
        left is Boolean && !(right is Boolean) ==> common(left, right) is None,
        left is Date && !(right is Date) ==> common(left, right) is None,
        left is Uuid && !(right is Uuid) ==> common(left, right) is None,
        left is Text && (right is Int16 || right is Int32 || right is Int64 || right is Boolean || right is Date) ==> common(left, right) is None,
{
}

/// A built-in function gives text, a count or the type of its argument, and may be null
/// only where its arguments may make it so.
pub proof fn lemma_function_types(f: ScalarFunction, args: Seq<BoundExprView>, position: Option<usize>)
    requires
        args.len() > 0 || f is Version || f is CurrentDatabase || f is CurrentUser || f is SessionUser || f is Concat || f is CurrentSetting,
    ensures
        function_result(f, args, position) matches Ok((t, nullable)) ==> match f {
            ScalarFunction::Version | ScalarFunction::CurrentDatabase | ScalarFunction::CurrentUser
            | ScalarFunction::SessionUser => t is Text && !nullable,
            ScalarFunction::CurrentSetting => t is Text && nullable,
            ScalarFunction::Lower | ScalarFunction::Upper => t is Text && nullable == args[0].nullable && textual(args[0].data_type),
            ScalarFunction::Concat => t is Text && !nullable,
            ScalarFunction::Substring | ScalarFunction::Btrim | ScalarFunction::Ltrim | ScalarFunction::Rtrim
            | ScalarFunction::Replace => t is Text && (nullable <==> exists|k: int| 0 <= k < args.len() && (#[trigger] args[k]).nullable),
            ScalarFunction::Strpos => t is Int32 && (nullable <==> exists|k: int| 0 <= k < args.len() && (#[trigger] args[k]).nullable),
            ScalarFunction::CharacterLength | ScalarFunction::OctetLength => t is Int32 && nullable == args[0].nullable && (textual(
                args[0].data_type,
            ) || args[0].data_type is Binary),
            ScalarFunction::JsonbTypeof => t is Text && nullable == args[0].nullable && args[0].data_type is Jsonb,
            ScalarFunction::ArrayLength | ScalarFunction::Cardinality => t is Int32 && nullable && args[0].data_type is Array,
            ScalarFunction::Abs => t == args[0].data_type && nullable == args[0].nullable && (t is Int16 || t is Int32 || t is Int64
                || t is Decimal || t is Float32 || t is Float64),
            ScalarFunction::NullIf => t == args[0].data_type && nullable,
            ScalarFunction::Coalesce | ScalarFunction::Greatest | ScalarFunction::Least => t == args[0].data_type && (nullable
                <==> forall|k: int| 0 <= k < args.len() ==> (#[trigger] args[k]).nullable),
        },
{
}

/// A sum of integers is a 64-bit integer and a sum of floats a 64-bit float; a sum of
/// exact numbers keeps their type. A count is a 64-bit integer that is never null, an
/// average is a 64-bit float, and a least or greatest value has the type of the values.
pub proof fn lemma_aggregate_types(f: AggregateFunction, t: ScalarTypeView)
    ensures
        aggregate_type(AggregateFunction::Count, None) == Some((ScalarTypeView::Int64, false)),
        aggregate_type(f, Some(t)) matches Some((r, nullable)) ==> match f {
            AggregateFunction::Count => r is Int64 && !nullable,
            AggregateFunction::Avg => r is Float64 && nullable,
            AggregateFunction::Sum => nullable && (t is Int16 || t is Int32 || t is Int64 ==> r is Int64) && (t is Float32 || t is Float64
                ==> r is Float64) && (t is Decimal ==> r == t),
            AggregateFunction::Min | AggregateFunction::Max => nullable && r == t,
        },
        t is Text || t is Boolean || t is Date ==> aggregate_type(AggregateFunction::Sum, Some(t)) is None && aggregate_type(
            AggregateFunction::Avg,
            Some(t),
        ) is None,
        t is Int16 || t is Int32 || t is Int64 || t is Decimal || t is Float32 || t is Float64 ==> aggregate_type(f, Some(t)) is Some,
        f is Count ==> aggregate_type(f, Some(t)) is Some,
        t is Json || t is Jsonb || t is Array || t is Vector ==> aggregate_type(AggregateFunction::Min, Some(t)) is None && aggregate_type(
            AggregateFunction::Max,
            Some(t),
        ) is None,
{
}

/// A constant stands only where its value belongs: a boolean as a boolean, an integer where
/// it is in range, a text as text or as a label of an enum, and a null anywhere.
pub proof fn lemma_constants_fit(t: ScalarTypeView, v: ValueView)
    ensures
        v is Null ==> type_accepts(t, v),
        type_accepts(t, v) && v is Boolean ==> t is Boolean,
        type_accepts(t, v) && t is Boolean ==> v is Boolean || v is Null,
        v matches ValueView::Int32(n) ==> (t is Int16 ==> (type_accepts(t, v) <==> -0x8000 <= n <= 0x7fff)),
        v matches ValueView::Int64(n) ==> (t is Int32 ==> (type_accepts(t, v) <==> -0x8000_0000 <= n <= 0x7fff_ffff)),
        v is Int16 || v is Int32 || v is Int64 ==> (type_accepts(t, v) ==> t is Int16 || t is Int32 || t is Int64 || t is Oid || t is Decimal
            || t is Float32 || t is Float64),
        v is Text && type_accepts(t, v) ==> textual(t) || t is Enum || t is Oid,
        v matches ValueView::Text(s) ==> (t matches ScalarTypeView::Enum { labels, .. } ==> (type_accepts(t, v) <==> labels.contains(s))),
        v is Date && type_accepts(t, v) ==> t is Date,
        v is Uuid && type_accepts(t, v) ==> t is Uuid,
        type_of_value(v) matches Some(u) ==> (v is Boolean <==> u is Boolean) && (v is Int32 <==> u is Int32) && (v is Int64 <==> u is Int64)
            && (v is Text <==> u is Text) && (v is Decimal <==> u is Decimal) && (v is Date <==> u is Date),
{
}

/// Every type casts to itself and to text, numbers cast to numbers, and a number never
/// casts to a boolean or a date.
pub proof fn lemma_casts(a: ScalarTypeView, b: ScalarTypeView)
    ensures
        castable(a, a),
        b is Text ==> castable(a, b),
        (a is Int16 || a is Int32 || a is Int64 || a is Decimal || a is Float32 || a is Float64) && (b is Boolean || b is Date || b is Uuid
            || b is Json || b is Jsonb || b is Interval || b is Binary) ==> !castable(a, b),
        (a is Int16 || a is Int32 || a is Int64 || a is Decimal || a is Float32 || a is Float64) && (b is Int16 || b is Int32 || b is Int64
            || b is Decimal || b is Float32 || b is Float64) ==> castable(a, b),
        a is Boolean && castable(a, b) ==> b is Boolean || textual(b),
        a is Text && (b is Array || b is Vector) ==> !castable(a, b),
{
}

/// A call that asks the session becomes what the session says, and stays a call where
/// there is no session.
pub proof fn lemma_session_answers(e: ParsedExprView, c: ResolverView, depth: usize)
    requires
        e.kind is Function,
        e.kind->Function_arguments.len() == 0,
    ensures
        c.session is None ==> typed_expr(e, c, depth) == Ok::<ParsedExprView, DbErrorView>(e),
        c.session matches Some(s) ==> {
            let f = e.kind->Function_function;
            &&& f is Version ==> says_text(typed_expr(e, c, depth), s.version)
            &&& f is CurrentDatabase ==> says_text(typed_expr(e, c, depth), s.current_database)
            &&& f is CurrentUser ==> says_text(typed_expr(e, c, depth), s.current_user)
            &&& f is SessionUser ==> says_text(typed_expr(e, c, depth), s.session_user)
        },
{
    unfold_typed_expr(e, c, depth);
    unfold_typed_expr_list(e.kind->Function_arguments, c, depth, 0, Seq::empty());
    assert(e.kind->Function_arguments =~= Seq::empty());
}

/// Whether a result is a constant text.
pub open spec fn says_text(r: Checked<ParsedExprView>, text: Seq<char>) -> bool {
    r matches Ok(e) && e.kind == ParsedExprKindView::Literal(ValueView::Text(text))
}

} // verus!
