//! The types that SQL names.

use sqlparser::ast::{ArrayElemTypeDef, CharacterLength, DataType, ExactNumberInfo, ObjectName, ObjectNamePart, TimezoneInfo};
use vstd::prelude::*;

use crate::numbers::{parse_unsigned, unsigned_value};
use crate::scope::Checked;
use crate::source::{convert_object_name, object_name_of};
use crate::syntax::{ParsedObjectName, ParsedObjectNameView};
use crate::text::{lower, same_ignoring_case};
use crate::types::{error, unsupported, unsupported_error, DbError, DbErrorView, Result, ScalarType, ScalarTypeView};
use crate::text::text;

verus! {

/// A type with the name that it was declared by, where it is no built-in type.
pub type Declared = (ScalarTypeView, Option<ParsedObjectNameView>);

/// The contents of a declared type.
pub open spec fn declared_view(d: (ScalarType, Option<ParsedObjectName>)) -> Declared {
    (
        d.0@,
        match d.1 {
            Some(n) => Some(n@),
            None => None,
        },
    )
}

/// The contents of a result with a declared type.
pub open spec fn declared_result(r: Result<(ScalarType, Option<ParsedObjectName>)>) -> Checked<Declared> {
    match r {
        Ok(d) => Ok(declared_view(d)),
        Err(e) => Err(e@),
    }
}

/// The contents of a result with a type.
pub open spec fn scalar_result(r: Result<ScalarType>) -> Checked<ScalarTypeView> {
    match r {
        Ok(t) => Ok(t@),
        Err(e) => Err(e@),
    }
}

/// The error of a type with a size that cannot be kept.
pub open spec fn size_error() -> DbErrorView {
    error("22023"@, "type size is out of range"@)
}

fn bad_size() -> (r: DbError)
    ensures
        r@ == size_error(),
{
    DbError::new("22023", text("type size is out of range"))
}

/// The length of a character type.
pub open spec fn length_of(l: Option<CharacterLength>) -> Checked<Option<u32>> {
    match l {
        None => Ok(None),
        Some(CharacterLength::Max) => Err(unsupported_error("MAX type lengths are not supported"@, None)),
        Some(CharacterLength::IntegerLength { length, .. }) => if length <= u32::MAX {
            Ok(Some(length as u32))
        } else {
            Err(size_error())
        },
    }
}

fn convert_length(l: &Option<CharacterLength>) -> (r: Result<Option<u32>>)
    ensures
        (match r {
            Ok(x) => Ok(x),
            Err(e) => Err(e@),
        }) == length_of(*l),
{
    match l {
        None => Ok(None),
        Some(CharacterLength::Max) => Err(unsupported("MAX type lengths are not supported")),
        Some(CharacterLength::IntegerLength { length, .. }) => if *length <= u32::MAX as u64 {
            Ok(Some(*length as u32))
        } else {
            Err(bad_size())
        },
    }
}

/// A type of exact numbers.
pub open spec fn exact_type(n: ExactNumberInfo) -> Checked<ScalarTypeView> {
    match n {
        ExactNumberInfo::None => Ok(ScalarTypeView::Decimal { precision: None, scale: None }),
        ExactNumberInfo::Precision(p) => if p <= u32::MAX {
            Ok(ScalarTypeView::Decimal { precision: Some(p as u32), scale: Some(0) })
        } else {
            Err(size_error())
        },
        ExactNumberInfo::PrecisionAndScale(p, s) => if p <= u32::MAX && 0 <= s <= p {
            Ok(ScalarTypeView::Decimal { precision: Some(p as u32), scale: Some(s as u32) })
        } else {
            Err(size_error())
        },
    }
}

fn convert_exact_type(n: &ExactNumberInfo) -> (r: Result<ScalarType>)
    ensures
        scalar_result(r) == exact_type(*n),
{
    match n {
        ExactNumberInfo::None => Ok(ScalarType::Decimal { precision: None, scale: None }),
        ExactNumberInfo::Precision(p) => if *p <= u32::MAX as u64 {
            Ok(ScalarType::Decimal { precision: Some(*p as u32), scale: Some(0) })
        } else {
            Err(bad_size())
        },
        ExactNumberInfo::PrecisionAndScale(p, s) => if *p <= u32::MAX as u64 && *s >= 0 && *s as u64 <= *p {
            Ok(ScalarType::Decimal { precision: Some(*p as u32), scale: Some(*s as u32) })
        } else {
            Err(bad_size())
        },
    }
}

/// A type of approximate numbers: up to 24 bits of precision fit the small one.
pub open spec fn float_type(n: ExactNumberInfo) -> ScalarTypeView {
    match n {
        ExactNumberInfo::Precision(p) => if p <= 24 {
            ScalarTypeView::Float32
        } else {
            ScalarTypeView::Float64
        },
        _ => ScalarTypeView::Float64,
    }
}

/// Whether a time type has a time zone.
pub open spec fn zoned(t: TimezoneInfo) -> bool {
    t is WithTimeZone || t is Tz
}

fn is_zoned(t: &TimezoneInfo) -> (r: bool)
    ensures
        r == zoned(*t),
{
    match t {
        TimezoneInfo::WithTimeZone => true,
        TimezoneInfo::Tz => true,
        _ => false,
    }
}

/// The text of a name that is a single unquoted word.
pub open spec fn plain_name(n: ObjectName) -> Option<Seq<char>> {
    if n.0@.len() == 1 {
        match n.0@[0] {
            ObjectNamePart::Identifier(i) => if i.quote_style is None {
                Some(lower(i.value@))
            } else {
                None
            },
            ObjectNamePart::Function(_) => None,
        }
    } else {
        None
    }
}

/// Decides whether a name is a given single unquoted word in lower case.
pub fn is_plain_name(n: &ObjectName, word: &str) -> (r: bool)
    ensures
        r == (plain_name(*n) == Some(lower(word@))),
{
    if n.0.len() != 1 {
        return false;
    }
    match &n.0[0] {
        ObjectNamePart::Identifier(i) => i.quote_style.is_none() && same_ignoring_case(i.value.as_str(), word),
        ObjectNamePart::Function(_) => false,
    }
}

/// The dimensions of a vector type.
pub open spec fn vector_type(modifiers: Seq<String>) -> Checked<ScalarTypeView> {
    if modifiers.len() == 0 {
        Ok(ScalarTypeView::Vector { dimensions: None })
    } else if modifiers.len() == 1 {
        match unsigned_value(modifiers[0]@) {
            Some(n) => if 0 < n <= 65535 {
                Ok(ScalarTypeView::Vector { dimensions: Some(n as usize) })
            } else {
                Err(size_error())
            },
            None => Err(size_error()),
        }
    } else {
        Err(size_error())
    }
}

fn convert_vector_type(modifiers: &Vec<String>) -> (r: Result<ScalarType>)
    ensures
        scalar_result(r) == vector_type(modifiers@),
{
    if modifiers.len() == 0 {
        Ok(ScalarType::Vector { dimensions: None })
    } else if modifiers.len() == 1 {
        match parse_unsigned(modifiers[0].as_str()) {
            Some(n) => if 0 < n && n <= 65535 {
                Ok(ScalarType::Vector { dimensions: Some(n as usize) })
            } else {
                Err(bad_size())
            },
            None => Err(bad_size()),
        }
    } else {
        Err(bad_size())
    }
}

/// The built-in type that SQL names; nothing where the name may be a user's.
pub open spec fn built_in(t: DataType) -> Checked<Option<ScalarTypeView>>
    decreases t,
{
    match t {
        DataType::Boolean | DataType::Bool => Ok(Some(ScalarTypeView::Boolean)),
        DataType::TinyInt(_) | DataType::SmallInt(_) | DataType::Int2(_) => Ok(Some(ScalarTypeView::Int16)),
        DataType::MediumInt(_) | DataType::Int(_) | DataType::Integer(_) | DataType::Int4(_) => Ok(Some(ScalarTypeView::Int32)),
        DataType::BigInt(_) | DataType::Int8(_) => Ok(Some(ScalarTypeView::Int64)),
        DataType::Real | DataType::Float4 => Ok(Some(ScalarTypeView::Float32)),
        DataType::DoublePrecision | DataType::Float8 | DataType::Double(_) => Ok(Some(ScalarTypeView::Float64)),
        DataType::Float(n) => Ok(Some(float_type(n))),
        DataType::Numeric(n) | DataType::Decimal(n) | DataType::Dec(n) => match exact_type(n) {
            Err(x) => Err(x),
            Ok(t) => Ok(Some(t)),
        },
        DataType::Character(l) | DataType::Char(l) => match length_of(l) {
            Err(x) => Err(x),
            Ok(length) => Ok(Some(ScalarTypeView::Char { length })),
        },
        DataType::CharacterVarying(l) | DataType::CharVarying(l) | DataType::Varchar(l) | DataType::Nvarchar(l) => match length_of(l) {
            Err(x) => Err(x),
            Ok(length) => Ok(Some(ScalarTypeView::Varchar { length })),
        },
        DataType::Text | DataType::TinyText | DataType::MediumText | DataType::LongText => Ok(Some(ScalarTypeView::Text)),
        DataType::Bytea | DataType::Blob(_) | DataType::Binary(_) | DataType::Varbinary(_) => Ok(Some(ScalarTypeView::Binary)),
        DataType::Date => Ok(Some(ScalarTypeView::Date)),
        DataType::Time(_, zone) => if zoned(zone) {
            Err(unsupported_error("TIME WITH TIME ZONE is not supported"@, None))
        } else {
            Ok(Some(ScalarTypeView::Time))
        },
        DataType::Timestamp(_, zone) => Ok(Some(ScalarTypeView::Timestamp { with_timezone: zoned(zone) })),
        DataType::Datetime(_) => Ok(Some(ScalarTypeView::Timestamp { with_timezone: false })),
        DataType::Interval { fields, .. } => if fields is Some {
            Err(unsupported_error("INTERVAL field qualifiers are not supported yet"@, None))
        } else {
            Ok(Some(ScalarTypeView::Interval))
        },
        DataType::JSON => Ok(Some(ScalarTypeView::Json)),
        DataType::JSONB => Ok(Some(ScalarTypeView::Jsonb)),
        DataType::Uuid => Ok(Some(ScalarTypeView::Uuid)),
        DataType::Custom(name, modifiers) => if plain_name(name) == Some(lower("vector"@)) {
            match vector_type(modifiers@) {
                Err(x) => Err(x),
                Ok(t) => Ok(Some(t)),
            }
        } else if modifiers@.len() > 0 {
            Err(unsupported_error("type modifiers are not supported for this type"@, None))
        } else if plain_name(name) == Some(lower("oid"@)) {
            Ok(Some(ScalarTypeView::Oid))
        } else if plain_name(name) == Some(lower("name"@)) {
            Ok(Some(ScalarTypeView::Name))
        } else {
            Ok(None)
        },
        DataType::Array(ArrayElemTypeDef::SquareBracket(element, _)) => match built_in(*element) {
            Err(x) => Err(x),
            Ok(None) => Ok(None),
            Ok(Some(t)) => Ok(Some(ScalarTypeView::Array { element: Box::new(t) })),
        },
        _ => Err(unsupported_error("this SQL data type is not supported"@, None)),
    }
}

fn find_built_in(t: &DataType) -> (r: Result<Option<ScalarType>>)
    ensures
        (match r {
            Ok(x) => Ok(ScalarType::opt(x)),
            Err(e) => Err(e@),
        }) == built_in(*t),
    decreases t,
{
    match t {
        DataType::Boolean | DataType::Bool => Ok(Some(ScalarType::Boolean)),
        DataType::TinyInt(_) | DataType::SmallInt(_) | DataType::Int2(_) => Ok(Some(ScalarType::Int16)),
        DataType::MediumInt(_) | DataType::Int(_) | DataType::Integer(_) | DataType::Int4(_) => Ok(Some(ScalarType::Int32)),
        DataType::BigInt(_) | DataType::Int8(_) => Ok(Some(ScalarType::Int64)),
        DataType::Real | DataType::Float4 => Ok(Some(ScalarType::Float32)),
        DataType::DoublePrecision | DataType::Float8 | DataType::Double(_) => Ok(Some(ScalarType::Float64)),
        DataType::Float(n) => match n {
            ExactNumberInfo::Precision(p) => if *p <= 24 {
                Ok(Some(ScalarType::Float32))
            } else {
                Ok(Some(ScalarType::Float64))
            },
            _ => Ok(Some(ScalarType::Float64)),
        },
        DataType::Numeric(n) | DataType::Decimal(n) | DataType::Dec(n) => Ok(Some(convert_exact_type(n)?)),
        DataType::Character(l) | DataType::Char(l) => Ok(Some(ScalarType::Char { length: convert_length(l)? })),
        DataType::CharacterVarying(l) | DataType::CharVarying(l) | DataType::Varchar(l) | DataType::Nvarchar(l) => Ok(
            Some(ScalarType::Varchar { length: convert_length(l)? }),
        ),
        DataType::Text | DataType::TinyText | DataType::MediumText | DataType::LongText => Ok(Some(ScalarType::Text)),
        DataType::Bytea | DataType::Blob(_) | DataType::Binary(_) | DataType::Varbinary(_) => Ok(Some(ScalarType::Binary)),
        DataType::Date => Ok(Some(ScalarType::Date)),
        DataType::Time(_, zone) => if is_zoned(zone) {
            Err(unsupported("TIME WITH TIME ZONE is not supported"))
        } else {
            Ok(Some(ScalarType::Time))
        },
        DataType::Timestamp(_, zone) => Ok(Some(ScalarType::Timestamp { with_timezone: is_zoned(zone) })),
        DataType::Datetime(_) => Ok(Some(ScalarType::Timestamp { with_timezone: false })),
        DataType::Interval { fields, .. } => if fields.is_some() {
            Err(unsupported("INTERVAL field qualifiers are not supported yet"))
        } else {
            Ok(Some(ScalarType::Interval))
        },
        DataType::JSON => Ok(Some(ScalarType::Json)),
        DataType::JSONB => Ok(Some(ScalarType::Jsonb)),
        DataType::Uuid => Ok(Some(ScalarType::Uuid)),
        DataType::Custom(name, modifiers) => if is_plain_name(name, "vector") {
            Ok(Some(convert_vector_type(modifiers)?))
        } else if modifiers.len() > 0 {
            Err(unsupported("type modifiers are not supported for this type"))
        } else if is_plain_name(name, "oid") {
            Ok(Some(ScalarType::Oid))
        } else if is_plain_name(name, "name") {
            Ok(Some(ScalarType::Name))
        } else {
            Ok(None)
        },
        DataType::Array(ArrayElemTypeDef::SquareBracket(element, _)) => match find_built_in(element)? {
            None => Ok(None),
            Some(t) => Ok(Some(ScalarType::Array { element: Box::new(t) })),
        },
        _ => Err(unsupported("this SQL data type is not supported")),
    }
}

/// The type that SQL names, which has to be a built-in one.
#[verifier::opaque]
pub open spec fn data_type_of(t: DataType) -> Checked<ScalarTypeView> {
    match built_in(t) {
        Err(x) => Err(x),
        Ok(Some(t)) => Ok(t),
        Ok(None) => Err(unsupported_error("user-defined types are not supported here"@, None)),
    }
}

/// Takes over a type, which has to be a built-in one.
pub fn convert_data_type(t: &DataType) -> (r: Result<ScalarType>)
    ensures
        scalar_result(r) == data_type_of(*t),
{
    reveal(data_type_of);
    match find_built_in(t)? {
        Some(t) => Ok(t),
        None => Err(unsupported("user-defined types are not supported here")),
    }
}

/// The type of a column. A user's type stands as text, or as an array of texts, with
/// its name.
pub open spec fn column_type_from(t: DataType, sql: Seq<char>) -> Checked<Declared>
    decreases t,
{
    match built_in(t) {
        Err(x) => Err(x),
        Ok(Some(t)) => Ok((t, None)),
        Ok(None) => match t {
            DataType::Custom(name, _) => match object_name_of(name, sql) {
                Err(x) => Err(x),
                Ok(n) => Ok((ScalarTypeView::Text, Some(n))),
            },
            DataType::Array(ArrayElemTypeDef::SquareBracket(element, _)) => match column_type_from(*element, sql) {
                Err(x) => Err(x),
                Ok((t, n)) => Ok((ScalarTypeView::Array { element: Box::new(t) }, n)),
            },
            _ => Err(unsupported_error("this SQL data type is not supported"@, None)),
        },
    }
}

fn find_column_type(t: &DataType, sql: &str) -> (r: Result<(ScalarType, Option<ParsedObjectName>)>)
    ensures
        declared_result(r) == column_type_from(*t, sql@),
    decreases t,
{
    if let Some(t) = find_built_in(t)? {
        return Ok((t, None));
    }
    match t {
        DataType::Custom(name, _) => {
            let n = convert_object_name(name, sql)?;
            Ok((ScalarType::Text, Some(n)))
        },
        DataType::Array(ArrayElemTypeDef::SquareBracket(element, _)) => {
            let (t, n) = find_column_type(element, sql)?;
            Ok((ScalarType::Array { element: Box::new(t) }, n))
        },
        _ => Err(unsupported("this SQL data type is not supported")),
    }
}

/// The type of a column as it stands in a text.
#[verifier::opaque]
pub open spec fn column_type_of(t: DataType, sql: Seq<char>) -> Checked<Declared> {
    column_type_from(t, sql)
}

/// Takes over the type of a column.
pub fn convert_column_data_type(t: &DataType, sql: &str) -> (r: Result<(ScalarType, Option<ParsedObjectName>)>)
    ensures
        declared_result(r) == column_type_of(*t, sql@),
{
    reveal(column_type_of);
    find_column_type(t, sql)
}

} // verus!
