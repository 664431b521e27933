//! Literals, placeholders and operators.

use sqlparser::ast::{BinaryOperator as SqlBinaryOperator, DataType, Expr, Value as SqlValue};
use vstd::prelude::*;

use crate::numbers::{parse_unsigned, unsigned_value};
use crate::outside::{
    date_of, decimal_of, read_date, read_decimal, read_scientific, read_time, read_timestamp, read_zoned, scientific_of, text_view, time_of,
    timestamp_of, zoned_of,
};
use crate::scope::Checked;
use crate::sql_types::{convert_data_type, data_type_of};
use crate::syntax::{BinaryOperator, ParsedExprKind, ParsedExprKindView, ScalarFunction};
use crate::text::{characters, decimal, index_text, same_text, substring, text, text2, text3, text5};
use crate::types::{error_at, unsupported_at, unsupported_error, DbError, Result, ScalarType, ScalarTypeView, Value, ValueView};
use crate::typing::{function_label, function_name};

verus! {

/// Whether a text holds a character.
pub open spec fn holds_char(s: Seq<char>, c: char) -> bool {
    exists|i: int| 0 <= i < s.len() && s[i] == c
}

/// Decides whether a text holds a character.
pub fn contains_char(s: &str, c: char) -> (r: bool)
    ensures
        r == holds_char(s@, c),
{
    let chars = characters(s);
    for i in 0..chars.len()
        invariant
            chars@ == s@,
            forall|k: int| 0 <= k < i ==> chars@[k] != c,
    {
        if chars[i] == c {
            return true;
        }
    }
    false
}

/// The constant that a number stands for: the smallest integer type that holds it,
/// or else an exact number.
pub open spec fn number_of(s: Seq<char>, position: Option<usize>) -> Checked<ValueView> {
    match unsigned_value(s) {
        Some(n) => if n <= i32::MAX {
            Ok(ValueView::Int32(n as i32))
        } else if n <= i64::MAX {
            Ok(ValueView::Int64(n as i64))
        } else {
            exact_number_of(s, position)
        },
        None => exact_number_of(s, position),
    }
}

/// The exact number in a text.
pub open spec fn exact_number_of(s: Seq<char>, position: Option<usize>) -> Checked<ValueView> {
    match (if holds_char(s, 'e') || holds_char(s, 'E') {
        scientific_of(s)
    } else {
        decimal_of(s)
    }) {
        Some(d) => Ok(ValueView::Decimal(d)),
        None => Err(error_at("22003"@, "numeric literal "@ + s + " is out of range"@, position)),
    }
}

/// The contents of a result with a constant.
pub open spec fn value_result(r: Result<Value>) -> Checked<ValueView> {
    match r {
        Ok(v) => Ok(v@),
        Err(e) => Err(e@),
    }
}

/// Takes over a number.
pub fn convert_number(s: &str, position: Option<usize>) -> (r: Result<Value>)
    ensures
        value_result(r) == number_of(s@, position),
{
    if let Some(n) = parse_unsigned(s) {
        if n <= 2147483647 {
            return Ok(Value::Int32(n as i32));
        }
        if n <= 9223372036854775807 {
            return Ok(Value::Int64(n as i64));
        }
    }
    let d = if contains_char(s, 'e') || contains_char(s, 'E') {
        read_scientific(s)
    } else {
        read_decimal(s)
    };
    match d {
        Some(d) => Ok(Value::Decimal(d)),
        None => Err(DbError::at("22003", text3("numeric literal ", s, " is out of range"), position)),
    }
}

/// The number of a parameter: what follows a prefix, counted from one.
pub open spec fn parameter_after(s: Seq<char>, prefix: int) -> Option<usize> {
    if s.len() <= prefix || s[prefix] == '+' {
        None
    } else {
        match unsigned_value(s.skip(prefix)) {
            Some(n) => if 1 <= n <= usize::MAX && n <= u64::MAX {
                Some(n as usize)
            } else {
                None
            },
            None => None,
        }
    }
}

fn read_parameter(chars: &Vec<char>, prefix: usize) -> (r: Option<usize>)
    ensures
        r == parameter_after(chars@, prefix as int),
{
    if chars.len() <= prefix || chars[prefix] == '+' {
        return None;
    }
    let rest = substring(chars, prefix, chars.len());
    assert(chars@.subrange(prefix as int, chars@.len() as int) =~= chars@.skip(prefix as int));
    match parse_unsigned(rest.as_str()) {
        Some(n) => if 1 <= n && n <= usize::MAX as u64 {
            Some(n as usize)
        } else {
            None
        },
        None => None,
    }
}

/// The number of a parameter that is written as a name, such as `@p1`.
#[verifier::opaque]
pub open spec fn at_parameter(s: Seq<char>) -> Option<usize> {
    if s.len() > 2 && s[0] == '@' && (s[1] == 'p' || s[1] == 'P') {
        parameter_after(s, 2)
    } else {
        None
    }
}

/// The number of a parameter that is written as a name.
pub fn named_at_parameter_index(s: &str) -> (r: Option<usize>)
    ensures
        r == at_parameter(s@),
{
    reveal(at_parameter);
    let chars = characters(s);
    if chars.len() > 2 && chars[0] == '@' && (chars[1] == 'p' || chars[1] == 'P') {
        read_parameter(&chars, 2)
    } else {
        None
    }
}

/// The number of a parameter that is written with a placeholder, such as `$1`.
pub open spec fn placeholder_of(s: Seq<char>) -> Option<usize> {
    if s.len() > 1 && s[0] == '$' {
        parameter_after(s, 1)
    } else {
        at_parameter(s)
    }
}

fn placeholder_index(s: &str) -> (r: Option<usize>)
    ensures
        r == placeholder_of(s@),
{
    let chars = characters(s);
    if chars.len() > 1 && chars[0] == '$' {
        read_parameter(&chars, 1)
    } else {
        named_at_parameter_index(s)
    }
}

/// The text of a literal that is a string.
pub open spec fn string_of(v: SqlValue) -> Option<Seq<char>> {
    match v {
        SqlValue::SingleQuotedString(s) | SqlValue::DoubleQuotedString(s) | SqlValue::EscapedStringLiteral(s)
        | SqlValue::UnicodeStringLiteral(s) | SqlValue::NationalStringLiteral(s) => Some(s@),
        SqlValue::DollarQuotedString(s) => Some(s.value@),
        _ => None,
    }
}

/// The text of a literal that is a string.
pub fn string_text(v: &SqlValue) -> (r: Option<String>)
    ensures
        text_view(r) == string_of(*v),
{
    match v {
        SqlValue::SingleQuotedString(s) | SqlValue::DoubleQuotedString(s) | SqlValue::EscapedStringLiteral(s)
        | SqlValue::UnicodeStringLiteral(s) | SqlValue::NationalStringLiteral(s) => Some(s.clone()),
        SqlValue::DollarQuotedString(s) => Some(s.value.clone()),
        _ => None,
    }
}

/// The expression that a literal or a placeholder stands for.
#[verifier::opaque]
pub open spec fn literal_kind(v: SqlValue, position: Option<usize>) -> Checked<ParsedExprKindView> {
    match v {
        SqlValue::Null => Ok(ParsedExprKindView::Literal(ValueView::Null)),
        SqlValue::Boolean(b) => Ok(ParsedExprKindView::Literal(ValueView::Boolean(b))),
        SqlValue::Number(s, _) => match number_of(s@, position) {
            Err(x) => Err(x),
            Ok(n) => Ok(ParsedExprKindView::Literal(n)),
        },
        SqlValue::Placeholder(s) => match placeholder_of(s@) {
            Some(index) => Ok(ParsedExprKindView::Parameter(index)),
            None => Err(error_at("42P02"@, "there is no parameter "@ + s@, position)),
        },
        _ => match string_of(v) {
            Some(s) => Ok(ParsedExprKindView::Literal(ValueView::Text(s))),
            None => Err(unsupported_error("this literal form is not supported yet"@, position)),
        },
    }
}

/// The contents of the shape of an expression, which is no tree.
pub open spec fn leaf_view(k: ParsedExprKind) -> ParsedExprKindView {
    match k {
        ParsedExprKind::Literal(v) => ParsedExprKindView::Literal(v@),
        ParsedExprKind::Parameter(index) => ParsedExprKindView::Parameter(index),
        _ => arbitrary(),
    }
}

/// Takes over a literal or a placeholder.
pub fn convert_sql_value(v: &SqlValue, position: Option<usize>) -> (r: Result<ParsedExprKind>)
    ensures
        (match r {
            Ok(k) => Ok(leaf_view(k)),
            Err(e) => Err(e@),
        }) == literal_kind(*v, position),
        r matches Ok(k) ==> k is Literal || k is Parameter,
{
    reveal(literal_kind);
    match v {
        SqlValue::Null => Ok(ParsedExprKind::Literal(Value::Null)),
        SqlValue::Boolean(b) => Ok(ParsedExprKind::Literal(Value::Boolean(*b))),
        SqlValue::Number(s, _) => {
            let n = convert_number(s.as_str(), position)?;
            Ok(ParsedExprKind::Literal(n))
        },
        SqlValue::Placeholder(s) => match placeholder_index(s.as_str()) {
            Some(index) => Ok(ParsedExprKind::Parameter(index)),
            None => Err(DbError::at("42P02", text2("there is no parameter ", s.as_str()), position)),
        },
        _ => match string_text(v) {
            Some(s) => Ok(ParsedExprKind::Literal(Value::Text(s))),
            None => Err(unsupported_at("this literal form is not supported yet", position)),
        },
    }
}

/// The temporal value in a text.
pub open spec fn temporal_text(t: ScalarTypeView, s: Seq<char>) -> Option<Option<ValueView>> {
    match t {
        ScalarTypeView::Date => match date_of(s, "%Y-%m-%d"@) {
            Some(d) => Some(Some(ValueView::Date(d))),
            None => Some(None),
        },
        ScalarTypeView::Time => match time_of(s, "%H:%M:%S%.f"@) {
            Some(d) => Some(Some(ValueView::Time(d))),
            None => Some(None),
        },
        ScalarTypeView::Timestamp { with_timezone } => if with_timezone {
            match zoned_of(s, "%Y-%m-%d %H:%M:%S%.f%#z"@) {
                Some(d) => Some(Some(ValueView::Timestamp { text: d, with_timezone })),
                None => Some(None),
            }
        } else {
            match timestamp_of(s, "%Y-%m-%d %H:%M:%S%.f"@) {
                Some(d) => Some(Some(ValueView::Timestamp { text: d, with_timezone })),
                None => Some(None),
            }
        },
        ScalarTypeView::Interval => Some(Some(ValueView::Interval(s))),
        _ => None,
    }
}

/// The constant that a typed string stands for.
#[verifier::opaque]
pub open spec fn temporal_of(t: DataType, s: Seq<char>, position: Option<usize>) -> Checked<ValueView> {
    match data_type_of(t) {
        Err(x) => Err(x),
        Ok(t) => match temporal_text(t, s) {
            None => Err(unsupported_error("typed literals are supported only for temporal types"@, position)),
            Some(None) => Err(error_at("22007"@, "invalid temporal literal "@ + s, position)),
            Some(Some(v)) => Ok(v),
        },
    }
}

fn read_temporal(t: &ScalarType, s: &str) -> (r: Option<Option<Value>>)
    ensures
        (match r {
            Some(Some(v)) => Some(Some(v@)),
            Some(None) => Some(None),
            None => None,
        }) == temporal_text(t@, s@),
{
    match t {
        ScalarType::Date => match read_date(s, "%Y-%m-%d") {
            Some(d) => Some(Some(Value::Date(d))),
            None => Some(None),
        },
        ScalarType::Time => match read_time(s, "%H:%M:%S%.f") {
            Some(d) => Some(Some(Value::Time(d))),
            None => Some(None),
        },
        ScalarType::Timestamp { with_timezone } => if *with_timezone {
            match read_zoned(s, "%Y-%m-%d %H:%M:%S%.f%#z") {
                Some(d) => Some(Some(Value::Timestamp { text: d, with_timezone: true })),
                None => Some(None),
            }
        } else {
            match read_timestamp(s, "%Y-%m-%d %H:%M:%S%.f") {
                Some(d) => Some(Some(Value::Timestamp { text: d, with_timezone: false })),
                None => Some(None),
            }
        },
        ScalarType::Interval => Some(Some(Value::Interval(text(s)))),
        _ => None,
    }
}

/// Takes over a typed string.
pub fn parse_temporal_literal(t: &DataType, s: &str, position: Option<usize>) -> (r: Result<Value>)
    ensures
        value_result(r) == temporal_of(*t, s@, position),
{
    reveal(temporal_of);
    let t = convert_data_type(t)?;
    match read_temporal(&t, s) {
        None => Err(unsupported_at("typed literals are supported only for temporal types", position)),
        Some(None) => Err(DbError::at("22007", text2("invalid temporal literal ", s), position)),
        Some(Some(v)) => Ok(v),
    }
}

/// The text of an interval.
#[verifier::opaque]
pub open spec fn interval_of(e: Expr, position: Option<usize>) -> Checked<Seq<char>> {
    match e {
        Expr::Value(v) => match string_of(v.value) {
            Some(s) => Ok(s),
            None => Err(unsupported_error("INTERVAL requires a string literal"@, position)),
        },
        _ => Err(unsupported_error("INTERVAL requires a string literal"@, position)),
    }
}

/// Takes over the text of an interval.
pub fn interval_literal_text(e: &Expr, position: Option<usize>) -> (r: Result<String>)
    ensures
        (match r {
            Ok(s) => Ok(s@),
            Err(e) => Err(e@),
        }) == interval_of(*e, position),
{
    reveal(interval_of);
    match e {
        Expr::Value(v) => match string_text(&v.value) {
            Some(s) => Ok(s),
            None => Err(unsupported_at("INTERVAL requires a string literal", position)),
        },
        _ => Err(unsupported_at("INTERVAL requires a string literal", position)),
    }
}

/// The operator that SQL names.
#[verifier::opaque]
pub open spec fn operator_of(op: SqlBinaryOperator, position: Option<usize>) -> Checked<BinaryOperator> {
    match op {
        SqlBinaryOperator::Plus => Ok(BinaryOperator::Add),
        SqlBinaryOperator::Minus => Ok(BinaryOperator::Subtract),
        SqlBinaryOperator::Multiply => Ok(BinaryOperator::Multiply),
        SqlBinaryOperator::Divide => Ok(BinaryOperator::Divide),
        SqlBinaryOperator::Modulo => Ok(BinaryOperator::Modulo),
        SqlBinaryOperator::Eq => Ok(BinaryOperator::Eq),
        SqlBinaryOperator::NotEq => Ok(BinaryOperator::NotEq),
        SqlBinaryOperator::Lt => Ok(BinaryOperator::Lt),
        SqlBinaryOperator::LtEq => Ok(BinaryOperator::LtEq),
        SqlBinaryOperator::Gt => Ok(BinaryOperator::Gt),
        SqlBinaryOperator::GtEq => Ok(BinaryOperator::GtEq),
        SqlBinaryOperator::And => Ok(BinaryOperator::And),
        SqlBinaryOperator::Or => Ok(BinaryOperator::Or),
        _ => Err(unsupported_error("this binary operator is not supported yet"@, position)),
    }
}

/// The contents of a result with an operator.
pub open spec fn operator_result(r: Result<BinaryOperator>) -> Checked<BinaryOperator> {
    match r {
        Ok(op) => Ok(op),
        Err(e) => Err(e@),
    }
}

/// Takes over an operator.
pub fn convert_binary_operator(op: &SqlBinaryOperator, position: Option<usize>) -> (r: Result<BinaryOperator>)
    ensures
        operator_result(r) == operator_of(*op, position),
{
    reveal(operator_of);
    match op {
        SqlBinaryOperator::Plus => Ok(BinaryOperator::Add),
        SqlBinaryOperator::Minus => Ok(BinaryOperator::Subtract),
        SqlBinaryOperator::Multiply => Ok(BinaryOperator::Multiply),
        SqlBinaryOperator::Divide => Ok(BinaryOperator::Divide),
        SqlBinaryOperator::Modulo => Ok(BinaryOperator::Modulo),
        SqlBinaryOperator::Eq => Ok(BinaryOperator::Eq),
        SqlBinaryOperator::NotEq => Ok(BinaryOperator::NotEq),
        SqlBinaryOperator::Lt => Ok(BinaryOperator::Lt),
        SqlBinaryOperator::LtEq => Ok(BinaryOperator::LtEq),
        SqlBinaryOperator::Gt => Ok(BinaryOperator::Gt),
        SqlBinaryOperator::GtEq => Ok(BinaryOperator::GtEq),
        SqlBinaryOperator::And => Ok(BinaryOperator::And),
        SqlBinaryOperator::Or => Ok(BinaryOperator::Or),
        _ => Err(unsupported_at("this binary operator is not supported yet", position)),
    }
}

/// Whether an operator compares.
pub open spec fn compares(op: BinaryOperator) -> bool {
    op == BinaryOperator::Eq || op == BinaryOperator::NotEq || op == BinaryOperator::Lt || op == BinaryOperator::LtEq || op
        == BinaryOperator::Gt || op == BinaryOperator::GtEq
}

/// The comparison that SQL names.
#[verifier::opaque]
pub open spec fn comparison_of(op: SqlBinaryOperator, position: Option<usize>) -> Checked<BinaryOperator> {
    match operator_of(op, position) {
        Err(x) => Err(x),
        Ok(op) => if compares(op) {
            Ok(op)
        } else {
            Err(unsupported_error("ANY and ALL require a comparison operator"@, position))
        },
    }
}

/// Takes over a comparison.
pub fn convert_comparison_operator(op: &SqlBinaryOperator, position: Option<usize>) -> (r: Result<BinaryOperator>)
    ensures
        operator_result(r) == comparison_of(*op, position),
{
    reveal(comparison_of);
    let op = convert_binary_operator(op, position)?;
    if op == BinaryOperator::Eq || op == BinaryOperator::NotEq || op == BinaryOperator::Lt || op == BinaryOperator::LtEq || op
        == BinaryOperator::Gt || op == BinaryOperator::GtEq {
        Ok(op)
    } else {
        Err(unsupported_at("ANY and ALL require a comparison operator", position))
    }
}

/// The comparison of rows: only for equality.
#[verifier::opaque]
pub open spec fn row_comparison(op: BinaryOperator, position: Option<usize>) -> Checked<BinaryOperator> {
    if op == BinaryOperator::Eq || op == BinaryOperator::NotEq {
        Ok(op)
    } else {
        Err(unsupported_error("row values support only = and <> comparisons"@, position))
    }
}

/// Takes over a comparison of rows.
pub fn row_comparison_operator(op: BinaryOperator, position: Option<usize>) -> (r: Result<BinaryOperator>)
    ensures
        operator_result(r) == row_comparison(op, position),
{
    reveal(row_comparison);
    if op == BinaryOperator::Eq || op == BinaryOperator::NotEq {
        Ok(op)
    } else {
        Err(unsupported_at("row values support only = and <> comparisons", position))
    }
}

/// The built-in function of a name in lower case.
pub open spec fn plain_function(name: Seq<char>) -> Option<ScalarFunction> {
    if name == "version"@ {
        Some(ScalarFunction::Version)
    } else if name == "current_database"@ || name == "current_catalog"@ {
        Some(ScalarFunction::CurrentDatabase)
    } else if name == "current_user"@ || name == "user"@ {
        Some(ScalarFunction::CurrentUser)
    } else if name == "session_user"@ {
        Some(ScalarFunction::SessionUser)
    } else if name == "current_setting"@ {
        Some(ScalarFunction::CurrentSetting)
    } else if name == "lower"@ {
        Some(ScalarFunction::Lower)
    } else if name == "upper"@ {
        Some(ScalarFunction::Upper)
    } else if name == "length"@ || name == "char_length"@ || name == "character_length"@ {
        Some(ScalarFunction::CharacterLength)
    } else if name == "octet_length"@ {
        Some(ScalarFunction::OctetLength)
    } else if name == "abs"@ {
        Some(ScalarFunction::Abs)
    } else if name == "coalesce"@ {
        Some(ScalarFunction::Coalesce)
    } else if name == "nullif"@ {
        Some(ScalarFunction::NullIf)
    } else if name == "concat"@ {
        Some(ScalarFunction::Concat)
    } else if name == "substring"@ || name == "substr"@ {
        Some(ScalarFunction::Substring)
    } else if name == "btrim"@ || name == "trim"@ {
        Some(ScalarFunction::Btrim)
    } else if name == "ltrim"@ {
        Some(ScalarFunction::Ltrim)
    } else if name == "rtrim"@ {
        Some(ScalarFunction::Rtrim)
    } else if name == "replace"@ {
        Some(ScalarFunction::Replace)
    } else if name == "strpos"@ {
        Some(ScalarFunction::Strpos)
    } else if name == "greatest"@ {
        Some(ScalarFunction::Greatest)
    } else if name == "least"@ {
        Some(ScalarFunction::Least)
    } else if name == "jsonb_typeof"@ {
        Some(ScalarFunction::JsonbTypeof)
    } else if name == "array_length"@ {
        Some(ScalarFunction::ArrayLength)
    } else if name == "cardinality"@ {
        Some(ScalarFunction::Cardinality)
    } else {
        None
    }
}

fn find_plain_function(name: &str) -> (r: Option<ScalarFunction>)
    ensures
        r == plain_function(name@),
{
    if same_text(name, "version") {
        Some(ScalarFunction::Version)
    } else if same_text(name, "current_database") || same_text(name, "current_catalog") {
        Some(ScalarFunction::CurrentDatabase)
    } else if same_text(name, "current_user") || same_text(name, "user") {
        Some(ScalarFunction::CurrentUser)
    } else if same_text(name, "session_user") {
        Some(ScalarFunction::SessionUser)
    } else if same_text(name, "current_setting") {
        Some(ScalarFunction::CurrentSetting)
    } else if same_text(name, "lower") {
        Some(ScalarFunction::Lower)
    } else if same_text(name, "upper") {
        Some(ScalarFunction::Upper)
    } else if same_text(name, "length") || same_text(name, "char_length") || same_text(name, "character_length") {
        Some(ScalarFunction::CharacterLength)
    } else if same_text(name, "octet_length") {
        Some(ScalarFunction::OctetLength)
    } else if same_text(name, "abs") {
        Some(ScalarFunction::Abs)
    } else if same_text(name, "coalesce") {
        Some(ScalarFunction::Coalesce)
    } else if same_text(name, "nullif") {
        Some(ScalarFunction::NullIf)
    } else if same_text(name, "concat") {
        Some(ScalarFunction::Concat)
    } else if same_text(name, "substring") || same_text(name, "substr") {
        Some(ScalarFunction::Substring)
    } else if same_text(name, "btrim") || same_text(name, "trim") {
        Some(ScalarFunction::Btrim)
    } else if same_text(name, "ltrim") {
        Some(ScalarFunction::Ltrim)
    } else if same_text(name, "rtrim") {
        Some(ScalarFunction::Rtrim)
    } else if same_text(name, "replace") {
        Some(ScalarFunction::Replace)
    } else if same_text(name, "strpos") {
        Some(ScalarFunction::Strpos)
    } else if same_text(name, "greatest") {
        Some(ScalarFunction::Greatest)
    } else if same_text(name, "least") {
        Some(ScalarFunction::Least)
    } else if same_text(name, "jsonb_typeof") {
        Some(ScalarFunction::JsonbTypeof)
    } else if same_text(name, "array_length") {
        Some(ScalarFunction::ArrayLength)
    } else if same_text(name, "cardinality") {
        Some(ScalarFunction::Cardinality)
    } else {
        None
    }
}

/// Whether a text starts with another.
pub open spec fn starts_with(s: Seq<char>, prefix: Seq<char>) -> bool {
    s.len() >= prefix.len() && s.take(prefix.len() as int) == prefix
}

/// The built-in function of a name in lower case, with or without its schema.
#[verifier::opaque]
pub open spec fn function_named(name: Seq<char>) -> Option<ScalarFunction> {
    if starts_with(name, "pg_catalog."@) {
        plain_function(name.skip("pg_catalog."@.len() as int))
    } else {
        plain_function(name)
    }
}

/// The rest of a text behind a prefix.
pub fn strip_prefix(s: &str, prefix: &str) -> (r: Option<String>)
    ensures
        text_view(r) == (if starts_with(s@, prefix@) {
            Some(s@.skip(prefix@.len() as int))
        } else {
            None
        }),
{
    let chars = characters(s);
    let first = characters(prefix);
    if chars.len() < first.len() {
        return None;
    }
    let head = substring(&chars, 0, first.len());
    assert(chars@.subrange(0, first@.len() as int) =~= s@.take(prefix@.len() as int));
    if !same_text(head.as_str(), prefix) {
        return None;
    }
    assert(chars@.subrange(first@.len() as int, chars@.len() as int) =~= s@.skip(prefix@.len() as int));
    Some(substring(&chars, first.len(), chars.len()))
}

/// Finds a built-in function by its name.
pub fn scalar_function_from_name(name: &str) -> (r: Option<ScalarFunction>)
    ensures
        r == function_named(name@),
{
    reveal(function_named);
    match strip_prefix(name, "pg_catalog.") {
        Some(rest) => find_plain_function(rest.as_str()),
        None => find_plain_function(name),
    }
}

/// The fewest and the most arguments of a built-in function; no bound where it takes
/// any number.
pub open spec fn arity(f: ScalarFunction) -> (nat, Option<nat>) {
    match f {
        ScalarFunction::Version | ScalarFunction::CurrentDatabase | ScalarFunction::CurrentUser
        | ScalarFunction::SessionUser => (0, Some(0)),
        ScalarFunction::CurrentSetting => (1, Some(2)),
        ScalarFunction::Lower | ScalarFunction::Upper | ScalarFunction::CharacterLength | ScalarFunction::OctetLength | ScalarFunction::Abs
        | ScalarFunction::JsonbTypeof | ScalarFunction::Cardinality => (1, Some(1)),
        ScalarFunction::NullIf | ScalarFunction::Strpos | ScalarFunction::ArrayLength => (2, Some(2)),
        ScalarFunction::Substring => (2, Some(3)),
        ScalarFunction::Btrim | ScalarFunction::Ltrim | ScalarFunction::Rtrim => (1, Some(2)),
        ScalarFunction::Replace => (3, Some(3)),
        ScalarFunction::Coalesce | ScalarFunction::Concat | ScalarFunction::Greatest | ScalarFunction::Least => (1, None),
    }
}

/// Whether a built-in function takes a number of arguments.
#[verifier::opaque]
pub open spec fn arity_check(f: ScalarFunction, count: nat, position: Option<usize>) -> Checked<()> {
    if count < arity(f).0 || (arity(f).1 is Some && count > arity(f).1->0) {
        Err(error_at("42883"@, "function "@ + function_name(f) + " does not accept "@ + decimal(count) + " arguments"@, position))
    } else {
        Ok(())
    }
}

/// Checks the number of arguments of a built-in function.
pub fn validate_scalar_function_arity(f: ScalarFunction, count: usize, position: Option<usize>) -> (r: Result<()>)
    ensures
        (match r {
            Ok(_) => Ok(()),
            Err(e) => Err(e@),
        }) == arity_check(f, count as nat, position),
{
    reveal(arity_check);
    let fits: bool = match f {
        ScalarFunction::Version | ScalarFunction::CurrentDatabase | ScalarFunction::CurrentUser | ScalarFunction::SessionUser => count == 0,
        ScalarFunction::CurrentSetting => count == 1 || count == 2,
        ScalarFunction::Lower | ScalarFunction::Upper | ScalarFunction::CharacterLength | ScalarFunction::OctetLength | ScalarFunction::Abs
        | ScalarFunction::JsonbTypeof | ScalarFunction::Cardinality => count == 1,
        ScalarFunction::NullIf | ScalarFunction::Strpos | ScalarFunction::ArrayLength => count == 2,
        ScalarFunction::Substring => count == 2 || count == 3,
        ScalarFunction::Btrim | ScalarFunction::Ltrim | ScalarFunction::Rtrim => count == 1 || count == 2,
        ScalarFunction::Replace => count == 3,
        ScalarFunction::Coalesce | ScalarFunction::Concat | ScalarFunction::Greatest | ScalarFunction::Least => count >= 1,
    };
    if fits {
        Ok(())
    } else {
        Err(
            DbError::at(
                "42883",
                text5("function ", function_label(f), " does not accept ", index_text(count).as_str(), " arguments"),
                position,
            ),
        )
    }
}

} // verus!
