//! Scalar types, values, identifiers, row shapes and structured errors.

use vstd::prelude::*;

use crate::text::{clone_strings, copy_items, decimal, decimal_text, lower, lowercase, same_strings, strings, text, text3};

verus! {

/// SQLSTATE of a feature the engine does not offer.
pub const FEATURE_NOT_SUPPORTED: &'static str = "0A000";

/// SQLSTATE of a malformed statement.
pub const SYNTAX_ERROR: &'static str = "42601";

/// SQLSTATE of a schema that does not exist.
pub const UNDEFINED_SCHEMA: &'static str = "3F000";

/// SQLSTATE of a relation that does not exist.
pub const UNDEFINED_TABLE: &'static str = "42P01";

/// SQLSTATE of a column that does not exist.
pub const UNDEFINED_COLUMN: &'static str = "42703";

/// SQLSTATE of an expression with an unfitting type.
pub const DATATYPE_MISMATCH: &'static str = "42804";

/// SQLSTATE of an expression whose type cannot be found.
pub const INDETERMINATE_DATATYPE: &'static str = "42P18";

/// Longest name, in bytes, that the engine keeps.
pub const MAX_POSTGRES_NAME_BYTES: usize = 63;

/// Identity of a schema.
#[derive(Debug, Clone, Copy, PartialEq, Eq, PartialOrd, Ord, Hash, Structural)]
pub struct SchemaId(pub u64);

/// Identity of a table.
#[derive(Debug, Clone, Copy, PartialEq, Eq, PartialOrd, Ord, Hash, Structural)]
pub struct TableId(pub u64);

/// Identity of a column.
#[derive(Debug, Clone, Copy, PartialEq, Eq, PartialOrd, Ord, Hash, Structural)]
pub struct ColumnId(pub u64);

/// Identity of a constraint.
#[derive(Debug, Clone, Copy, PartialEq, Eq, PartialOrd, Ord, Hash, Structural)]
pub struct ConstraintId(pub u64);

/// Identity of an index.
#[derive(Debug, Clone, Copy, PartialEq, Eq, PartialOrd, Ord, Hash, Structural)]
pub struct IndexId(pub u64);

/// Identity of a sequence.
#[derive(Debug, Clone, Copy, PartialEq, Eq, PartialOrd, Ord, Hash, Structural)]
pub struct SequenceId(pub u64);

/// Identity of a view.
#[derive(Debug, Clone, Copy, PartialEq, Eq, PartialOrd, Ord, Hash, Structural)]
pub struct ViewId(pub u64);

/// Identity of a routine.
#[derive(Debug, Clone, Copy, PartialEq, Eq, PartialOrd, Ord, Hash, Structural)]
pub struct RoutineId(pub u64);

/// Identity of a trigger.
#[derive(Debug, Clone, Copy, PartialEq, Eq, PartialOrd, Ord, Hash, Structural)]
pub struct TriggerId(pub u64);

/// Identity of a user-defined type.
#[derive(Debug, Clone, Copy, PartialEq, Eq, PartialOrd, Ord, Hash, Structural)]
pub struct TypeId(pub u64);

/// Extent of one dimension of an array.
#[derive(Debug, Clone, Copy, PartialEq, Eq, Structural)]
pub struct ArrayDimension {
    pub length: usize,
    pub lower_bound: i32,
}

/// A normalized SQL name: unquoted names are folded to lower case, quoted names
/// keep their spelling.
#[derive(Debug, PartialEq, Eq, PartialOrd, Ord, Hash)]
pub struct Identifier {
    pub value: String,
}

impl Identifier {
    /// The normalized spelling.
    pub open spec fn view(&self) -> Seq<char> {
        self.value@
    }

    /// The spellings of a sequence of names.
    pub open spec fn views(l: Seq<Identifier>) -> Seq<Seq<char>> {
        Seq::new(l.len(), |i: int| l[i]@)
    }

    /// A name as written in a statement.
    pub fn new(value: &str, quoted: bool) -> (r: Identifier)
        ensures
            r@ == normalized(value@, quoted),
    {
        if quoted {
            Identifier { value: text(value) }
        } else {
            Identifier { value: lowercase(value) }
        }
    }

    /// A name written without quotes.
    pub fn unquoted(value: &str) -> (r: Identifier)
        ensures
            r@ == lower(value@),
    {
        Identifier { value: lowercase(value) }
    }

    /// A name written inside quotes.
    pub fn quoted(value: &str) -> (r: Identifier)
        ensures
            r@ == value@,
    {
        Identifier { value: text(value) }
    }

    /// The normalized spelling.
    pub fn as_str(&self) -> (r: &str)
        ensures
            r@ == self@,
    {
        self.value.as_str()
    }

    /// Decides whether two names are the same.
    pub fn same(&self, other: &Identifier) -> (r: bool)
        ensures
            r == (self@ == other@),
    {
        self.value == other.value
    }

    /// Copies every name of a vector.
    pub fn clone_all(l: &Vec<Identifier>) -> (out: Vec<Identifier>)
        ensures
            Identifier::views(out@) == Identifier::views(l@),
    {
        let mut out: Vec<Identifier> = Vec::new();
        for i in 0..l.len()
            invariant
                out.len() == i,
                forall|k: int| 0 <= k < i ==> out@[k]@ == l@[k]@,
        {
            out.push(l[i].clone());
        }
        assert(Identifier::views(out@) =~= Identifier::views(l@));
        out
    }
}

impl Clone for Identifier {
    fn clone(&self) -> (r: Self)
        ensures
            r == *self,
    {
        Identifier { value: self.value.clone() }
    }
}

/// The spelling that a written name stands for.
pub open spec fn normalized(value: Seq<char>, quoted: bool) -> Seq<char> {
    if quoted {
        value
    } else {
        lower(value)
    }
}

/// A scalar column type.
#[derive(Debug, PartialEq)]
pub enum ScalarType {
    Boolean,
    Int16,
    Int32,
    Int64,
    Oid,
    Float32,
    Float64,
    Decimal { precision: Option<u32>, scale: Option<u32> },
    Name,
    InternalChar,
    Char { length: Option<u32> },
    Varchar { length: Option<u32> },
    Text,
    Binary,
    Date,
    Time,
    Timestamp { with_timezone: bool },
    Interval,
    Json,
    Jsonb,
    Uuid,
    Enum { type_id: TypeId, labels: Vec<String> },
    Array { element: Box<ScalarType> },
    Vector { dimensions: Option<usize> },
}

/// Mathematical contents of a [`ScalarType`].
pub enum ScalarTypeView {
    Boolean,
    Int16,
    Int32,
    Int64,
    Oid,
    Float32,
    Float64,
    Decimal { precision: Option<u32>, scale: Option<u32> },
    Name,
    InternalChar,
    Char { length: Option<u32> },
    Varchar { length: Option<u32> },
    Text,
    Binary,
    Date,
    Time,
    Timestamp { with_timezone: bool },
    Interval,
    Json,
    Jsonb,
    Uuid,
    Enum { type_id: TypeId, labels: Seq<Seq<char>> },
    Array { element: Box<ScalarTypeView> },
    Vector { dimensions: Option<usize> },
}

impl ScalarType {
    /// The value as mathematical data.
    pub open spec fn view(&self) -> ScalarTypeView
        decreases self,
    {
        match *self {
            ScalarType::Boolean => ScalarTypeView::Boolean,
            ScalarType::Int16 => ScalarTypeView::Int16,
            ScalarType::Int32 => ScalarTypeView::Int32,
            ScalarType::Int64 => ScalarTypeView::Int64,
            ScalarType::Oid => ScalarTypeView::Oid,
            ScalarType::Float32 => ScalarTypeView::Float32,
            ScalarType::Float64 => ScalarTypeView::Float64,
            ScalarType::Decimal { precision, scale } => ScalarTypeView::Decimal { precision, scale },
            ScalarType::Name => ScalarTypeView::Name,
            ScalarType::InternalChar => ScalarTypeView::InternalChar,
            ScalarType::Char { length } => ScalarTypeView::Char { length },
            ScalarType::Varchar { length } => ScalarTypeView::Varchar { length },
            ScalarType::Text => ScalarTypeView::Text,
            ScalarType::Binary => ScalarTypeView::Binary,
            ScalarType::Date => ScalarTypeView::Date,
            ScalarType::Time => ScalarTypeView::Time,
            ScalarType::Timestamp { with_timezone } => ScalarTypeView::Timestamp { with_timezone },
            ScalarType::Interval => ScalarTypeView::Interval,
            ScalarType::Json => ScalarTypeView::Json,
            ScalarType::Jsonb => ScalarTypeView::Jsonb,
            ScalarType::Uuid => ScalarTypeView::Uuid,
            ScalarType::Enum { type_id, labels } => ScalarTypeView::Enum { type_id, labels: strings(labels@) },
            ScalarType::Array { element } => ScalarTypeView::Array { element: Box::new((*element)@) },
            ScalarType::Vector { dimensions } => ScalarTypeView::Vector { dimensions },
        }
    }

    /// The contents of each value of a sequence.
    pub open spec fn views(l: Seq<ScalarType>) -> Seq<ScalarTypeView>
        decreases l,
    {
        Seq::new(l.len(), |i: int| if 0 <= i < l.len() { l[i]@ } else { arbitrary() })
    }

    /// Copies every value of a vector.
    pub fn clone_all(l: &Vec<ScalarType>) -> (out: Vec<ScalarType>)
        ensures
            ScalarType::views(out@) == ScalarType::views(l@),
        decreases l,
    {
        let mut out: Vec<ScalarType> = Vec::new();
        for i in 0..l.len()
            invariant
                out.len() == i,
                forall|k: int| 0 <= k < i ==> out@[k]@ == l@[k]@,
        {
            assert(decreases_to!(l => l@[i as int]));
            out.push(l[i].clone());
        }
        assert(ScalarType::views(out@) =~= ScalarType::views(l@));
        out
    }

    /// Decides whether two values hold the same contents.
    pub fn same(&self, other: &ScalarType) -> (r: bool)
        ensures
            r == (self@ == other@),
        decreases self,
    {
        match (self, other) {
            (ScalarType::Boolean, ScalarType::Boolean) => true,
            (ScalarType::Int16, ScalarType::Int16) => true,
            (ScalarType::Int32, ScalarType::Int32) => true,
            (ScalarType::Int64, ScalarType::Int64) => true,
            (ScalarType::Oid, ScalarType::Oid) => true,
            (ScalarType::Float32, ScalarType::Float32) => true,
            (ScalarType::Float64, ScalarType::Float64) => true,
            (
                ScalarType::Decimal { precision: a_precision, scale: a_scale },
                ScalarType::Decimal { precision: b_precision, scale: b_scale },
            ) => (*a_precision == *b_precision) && (*a_scale == *b_scale),
            (ScalarType::Name, ScalarType::Name) => true,
            (ScalarType::InternalChar, ScalarType::InternalChar) => true,
            (ScalarType::Char { length: a_length }, ScalarType::Char { length: b_length }) => (*a_length == *b_length),
            (ScalarType::Varchar { length: a_length }, ScalarType::Varchar { length: b_length }) => (*a_length == *b_length),
            (ScalarType::Text, ScalarType::Text) => true,
            (ScalarType::Binary, ScalarType::Binary) => true,
            (ScalarType::Date, ScalarType::Date) => true,
            (ScalarType::Time, ScalarType::Time) => true,
            (
                ScalarType::Timestamp { with_timezone: a_with_timezone },
                ScalarType::Timestamp { with_timezone: b_with_timezone },
            ) => (*a_with_timezone == *b_with_timezone),
            (ScalarType::Interval, ScalarType::Interval) => true,
            (ScalarType::Json, ScalarType::Json) => true,
            (ScalarType::Jsonb, ScalarType::Jsonb) => true,
            (ScalarType::Uuid, ScalarType::Uuid) => true,
            (
                ScalarType::Enum { type_id: a_type_id, labels: a_labels },
                ScalarType::Enum { type_id: b_type_id, labels: b_labels },
            ) => (*a_type_id == *b_type_id) && (same_strings(a_labels, b_labels)),
            (ScalarType::Array { element: a_element }, ScalarType::Array { element: b_element }) => ((**a_element).same(&**b_element)),
            (
                ScalarType::Vector { dimensions: a_dimensions },
                ScalarType::Vector { dimensions: b_dimensions },
            ) => (*a_dimensions == *b_dimensions),
            _ => false,
        }
    }

    /// Decides whether two vectors hold the same contents.
    pub fn same_all(a: &Vec<ScalarType>, b: &Vec<ScalarType>) -> (r: bool)
        ensures
            r == (ScalarType::views(a@) == ScalarType::views(b@)),
        decreases a,
    {
        if a.len() != b.len() {
            assert(ScalarType::views(a@).len() != ScalarType::views(b@).len());
            return false;
        }
        for i in 0..a.len()
            invariant
                a.len() == b.len(),
                forall|k: int| 0 <= k < i ==> a@[k]@ == b@[k]@,
        {
            assert(decreases_to!(a => a@[i as int]));
            if !a[i].same(&b[i]) {
                assert(ScalarType::views(a@)[i as int] != ScalarType::views(b@)[i as int]);
                return false;
            }
        }
        assert(ScalarType::views(a@) =~= ScalarType::views(b@));
        true
    }

}

impl Clone for ScalarType {
    fn clone(&self) -> (r: Self)
        ensures
            r@ == self@,
        decreases self,
    {
        match self {
            ScalarType::Boolean => ScalarType::Boolean,
            ScalarType::Int16 => ScalarType::Int16,
            ScalarType::Int32 => ScalarType::Int32,
            ScalarType::Int64 => ScalarType::Int64,
            ScalarType::Oid => ScalarType::Oid,
            ScalarType::Float32 => ScalarType::Float32,
            ScalarType::Float64 => ScalarType::Float64,
            ScalarType::Decimal { precision, scale } => ScalarType::Decimal { precision: *precision, scale: *scale },
            ScalarType::Name => ScalarType::Name,
            ScalarType::InternalChar => ScalarType::InternalChar,
            ScalarType::Char { length } => ScalarType::Char { length: *length },
            ScalarType::Varchar { length } => ScalarType::Varchar { length: *length },
            ScalarType::Text => ScalarType::Text,
            ScalarType::Binary => ScalarType::Binary,
            ScalarType::Date => ScalarType::Date,
            ScalarType::Time => ScalarType::Time,
            ScalarType::Timestamp { with_timezone } => ScalarType::Timestamp { with_timezone: *with_timezone },
            ScalarType::Interval => ScalarType::Interval,
            ScalarType::Json => ScalarType::Json,
            ScalarType::Jsonb => ScalarType::Jsonb,
            ScalarType::Uuid => ScalarType::Uuid,
            ScalarType::Enum { type_id, labels } => ScalarType::Enum { type_id: *type_id, labels: clone_strings(labels) },
            ScalarType::Array { element } => ScalarType::Array { element: Box::new((**element).clone()) },
            ScalarType::Vector { dimensions } => ScalarType::Vector { dimensions: *dimensions },
        }
    }
}

/// A constant. Numbers beyond the machine integers and temporal values are kept
/// in their written form.
#[derive(Debug, PartialEq)]
pub enum Value {
    Null,
    Boolean(bool),
    Int16(i16),
    Int32(i32),
    Int64(i64),
    Oid(u32),
    Float64(String),
    Decimal(String),
    Text(String),
    Binary(Vec<u8>),
    Date(String),
    Time(String),
    Timestamp { text: String, with_timezone: bool },
    Interval(String),
    Json(String),
    Jsonb(String),
    Uuid(String),
}

/// Mathematical contents of a [`Value`].
pub enum ValueView {
    Null,
    Boolean(bool),
    Int16(i16),
    Int32(i32),
    Int64(i64),
    Oid(u32),
    Float64(Seq<char>),
    Decimal(Seq<char>),
    Text(Seq<char>),
    Binary(Seq<u8>),
    Date(Seq<char>),
    Time(Seq<char>),
    Timestamp { text: Seq<char>, with_timezone: bool },
    Interval(Seq<char>),
    Json(Seq<char>),
    Jsonb(Seq<char>),
    Uuid(Seq<char>),
}

impl Value {
    /// The value as mathematical data.
    pub open spec fn view(&self) -> ValueView {
        match *self {
            Value::Null => ValueView::Null,
            Value::Boolean(f0) => ValueView::Boolean(f0),
            Value::Int16(f0) => ValueView::Int16(f0),
            Value::Int32(f0) => ValueView::Int32(f0),
            Value::Int64(f0) => ValueView::Int64(f0),
            Value::Oid(f0) => ValueView::Oid(f0),
            Value::Float64(f0) => ValueView::Float64(f0@),
            Value::Decimal(f0) => ValueView::Decimal(f0@),
            Value::Text(f0) => ValueView::Text(f0@),
            Value::Binary(f0) => ValueView::Binary(f0@),
            Value::Date(f0) => ValueView::Date(f0@),
            Value::Time(f0) => ValueView::Time(f0@),
            Value::Timestamp { text, with_timezone } => ValueView::Timestamp { text: text@, with_timezone },
            Value::Interval(f0) => ValueView::Interval(f0@),
            Value::Json(f0) => ValueView::Json(f0@),
            Value::Jsonb(f0) => ValueView::Jsonb(f0@),
            Value::Uuid(f0) => ValueView::Uuid(f0@),
        }
    }

    /// Decides whether two values hold the same contents.
    pub fn same(&self, other: &Value) -> (r: bool)
        ensures
            r == (self@ == other@),
    {
        match (self, other) {
            (Value::Null, Value::Null) => true,
            (Value::Boolean(a_f0), Value::Boolean(b_f0)) => (*a_f0 == *b_f0),
            (Value::Int16(a_f0), Value::Int16(b_f0)) => (*a_f0 == *b_f0),
            (Value::Int32(a_f0), Value::Int32(b_f0)) => (*a_f0 == *b_f0),
            (Value::Int64(a_f0), Value::Int64(b_f0)) => (*a_f0 == *b_f0),
            (Value::Oid(a_f0), Value::Oid(b_f0)) => (*a_f0 == *b_f0),
            (Value::Float64(a_f0), Value::Float64(b_f0)) => (*a_f0 == *b_f0),
            (Value::Decimal(a_f0), Value::Decimal(b_f0)) => (*a_f0 == *b_f0),
            (Value::Text(a_f0), Value::Text(b_f0)) => (*a_f0 == *b_f0),
            (Value::Binary(a_f0), Value::Binary(b_f0)) => (same_items(a_f0, b_f0)),
            (Value::Date(a_f0), Value::Date(b_f0)) => (*a_f0 == *b_f0),
            (Value::Time(a_f0), Value::Time(b_f0)) => (*a_f0 == *b_f0),
            (
                Value::Timestamp { text: a_text, with_timezone: a_with_timezone },
                Value::Timestamp { text: b_text, with_timezone: b_with_timezone },
            ) => (*a_text == *b_text) && (*a_with_timezone == *b_with_timezone),
            (Value::Interval(a_f0), Value::Interval(b_f0)) => (*a_f0 == *b_f0),
            (Value::Json(a_f0), Value::Json(b_f0)) => (*a_f0 == *b_f0),
            (Value::Jsonb(a_f0), Value::Jsonb(b_f0)) => (*a_f0 == *b_f0),
            (Value::Uuid(a_f0), Value::Uuid(b_f0)) => (*a_f0 == *b_f0),
            _ => false,
        }
    }

}

impl Clone for Value {
    fn clone(&self) -> (r: Self)
        ensures
            r@ == self@,
    {
        match self {
            Value::Null => Value::Null,
            Value::Boolean(f0) => Value::Boolean(*f0),
            Value::Int16(f0) => Value::Int16(*f0),
            Value::Int32(f0) => Value::Int32(*f0),
            Value::Int64(f0) => Value::Int64(*f0),
            Value::Oid(f0) => Value::Oid(*f0),
            Value::Float64(f0) => Value::Float64(f0.clone()),
            Value::Decimal(f0) => Value::Decimal(f0.clone()),
            Value::Text(f0) => Value::Text(f0.clone()),
            Value::Binary(f0) => Value::Binary(copy_items(f0)),
            Value::Date(f0) => Value::Date(f0.clone()),
            Value::Time(f0) => Value::Time(f0.clone()),
            Value::Timestamp { text, with_timezone } => Value::Timestamp { text: text.clone(), with_timezone: *with_timezone },
            Value::Interval(f0) => Value::Interval(f0.clone()),
            Value::Json(f0) => Value::Json(f0.clone()),
            Value::Jsonb(f0) => Value::Jsonb(f0.clone()),
            Value::Uuid(f0) => Value::Uuid(f0.clone()),
        }
    }
}

/// One output column of a query.
#[derive(Debug, PartialEq)]
pub struct Field {
    pub name: String,
    pub data_type: ScalarType,
    pub nullable: bool,
}

/// Mathematical contents of a [`Field`].
pub struct FieldView {
    pub name: Seq<char>,
    pub data_type: ScalarTypeView,
    pub nullable: bool,
}

impl Field {
    /// The value as mathematical data.
    pub open spec fn view(&self) -> FieldView {
        FieldView {
            name: self.name@,
            data_type: self.data_type@,
            nullable: self.nullable,
        }
    }

    /// The contents of each value of a sequence.
    pub open spec fn views(l: Seq<Field>) -> Seq<FieldView> {
        Seq::new(l.len(), |i: int| l[i]@)
    }

    /// Copies every value of a vector.
    pub fn clone_all(l: &Vec<Field>) -> (out: Vec<Field>)
        ensures
            Field::views(out@) == Field::views(l@),
    {
        let mut out: Vec<Field> = Vec::new();
        for i in 0..l.len()
            invariant
                out.len() == i,
                forall|k: int| 0 <= k < i ==> out@[k]@ == l@[k]@,
        {
            out.push(l[i].clone());
        }
        assert(Field::views(out@) =~= Field::views(l@));
        out
    }

    /// Decides whether two values hold the same contents.
    pub fn same(&self, other: &Field) -> (r: bool)
        ensures
            r == (self@ == other@),
    {
        (*(&self.name) == *(&other.name)) && (self.data_type.same(&other.data_type)) && (*(&self.nullable) == *(&other.nullable))
    }

    /// Decides whether two vectors hold the same contents.
    pub fn same_all(a: &Vec<Field>, b: &Vec<Field>) -> (r: bool)
        ensures
            r == (Field::views(a@) == Field::views(b@)),
    {
        if a.len() != b.len() {
            assert(Field::views(a@).len() != Field::views(b@).len());
            return false;
        }
        for i in 0..a.len()
            invariant
                a.len() == b.len(),
                forall|k: int| 0 <= k < i ==> a@[k]@ == b@[k]@,
        {
            if !a[i].same(&b[i]) {
                assert(Field::views(a@)[i as int] != Field::views(b@)[i as int]);
                return false;
            }
        }
        assert(Field::views(a@) =~= Field::views(b@));
        true
    }

}

impl Clone for Field {
    fn clone(&self) -> (r: Self)
        ensures
            r@ == self@,
    {
        Field {
            name: self.name.clone(),
            data_type: self.data_type.clone(),
            nullable: self.nullable,
        }
    }
}

/// The output columns of a query.
#[derive(Debug, PartialEq)]
pub struct Schema {
    pub fields: Vec<Field>,
}

/// Mathematical contents of a [`Schema`].
pub struct SchemaView {
    pub fields: Seq<FieldView>,
}

impl Schema {
    /// The value as mathematical data.
    pub open spec fn view(&self) -> SchemaView {
        SchemaView {
            fields: Field::views(self.fields@),
        }
    }

    /// Decides whether two values hold the same contents.
    pub fn same(&self, other: &Schema) -> (r: bool)
        ensures
            r == (self@ == other@),
    {
        (Field::same_all(&self.fields, &other.fields))
    }

}

impl Clone for Schema {
    fn clone(&self) -> (r: Self)
        ensures
            r@ == self@,
    {
        Schema {
            fields: Field::clone_all(&self.fields),
        }
    }
}

/// A structured error.
#[derive(Debug, PartialEq)]
pub struct DbError {
    pub sql_state: String,
    pub message: String,
    pub detail: Option<String>,
    pub hint: Option<String>,
    pub position: Option<usize>,
}

/// Mathematical contents of a [`DbError`].
pub struct DbErrorView {
    pub sql_state: Seq<char>,
    pub message: Seq<char>,
    pub detail: Option<Seq<char>>,
    pub hint: Option<Seq<char>>,
    pub position: Option<usize>,
}

impl DbError {
    /// The value as mathematical data.
    pub open spec fn view(&self) -> DbErrorView {
        DbErrorView {
            sql_state: self.sql_state@,
            message: self.message@,
            detail: match self.detail { Some(x) => Some(x@), None => None },
            hint: match self.hint { Some(x) => Some(x@), None => None },
            position: self.position,
        }
    }

}

impl Clone for DbError {
    fn clone(&self) -> (r: Self)
        ensures
            r@ == self@,
    {
        DbError {
            sql_state: self.sql_state.clone(),
            message: self.message.clone(),
            detail: match &self.detail { Some(y) => Some(y.clone()), None => None },
            hint: match &self.hint { Some(y) => Some(y.clone()), None => None },
            position: self.position,
        }
    }
}

/// A result of the library.
pub type Result<T> = std::result::Result<T, DbError>;

/// An error with a code, a message and a place in the statement.
pub open spec fn error_at(sql_state: Seq<char>, message: Seq<char>, position: Option<usize>) -> DbErrorView {
    DbErrorView { sql_state, message, detail: None, hint: None, position }
}

/// An error with a code and a message.
pub open spec fn error(sql_state: Seq<char>, message: Seq<char>) -> DbErrorView {
    error_at(sql_state, message, None)
}

/// An error that reports a broken internal promise.
pub open spec fn internal_error(message: Seq<char>) -> DbErrorView {
    error("XX000"@, message)
}

/// An error that reports a missing feature.
pub open spec fn unsupported_error(message: Seq<char>, position: Option<usize>) -> DbErrorView {
    error_at(FEATURE_NOT_SUPPORTED@, message, position)
}

impl DbError {
    /// An error with a code and a message.
    pub fn new(sql_state: &str, message: String) -> (r: DbError)
        ensures
            r@ == error(sql_state@, message@),
    {
        DbError { sql_state: text(sql_state), message, detail: None, hint: None, position: None }
    }

    /// An error with a code, a message and a place.
    pub fn at(sql_state: &str, message: String, position: Option<usize>) -> (r: DbError)
        ensures
            r@ == error_at(sql_state@, message@, position),
    {
        DbError { sql_state: text(sql_state), message, detail: None, hint: None, position }
    }

    /// An error that reports a broken internal promise.
    pub fn internal(message: &str) -> (r: DbError)
        ensures
            r@ == internal_error(message@),
    {
        DbError::new("XX000", text(message))
    }

    /// The same error with advice.
    pub fn with_hint(self, hint: &str) -> (r: DbError)
        ensures
            r@ == (DbErrorView { hint: Some(hint@), ..self@ }),
    {
        DbError { hint: Some(text(hint)), ..self }
    }

    /// The same error with an explanation.
    pub fn with_detail(self, detail: String) -> (r: DbError)
        ensures
            r@ == (DbErrorView { detail: Some(detail@), ..self@ }),
    {
        DbError { detail: Some(detail), ..self }
    }

}

/// The error of a missing feature.
pub fn unsupported(message: &str) -> (r: DbError)
    ensures
        r@ == unsupported_error(message@, None),
{
    DbError::new(FEATURE_NOT_SUPPORTED, text(message))
}

/// The error of a missing feature at a place in the statement.
pub fn unsupported_at(message: &str, position: Option<usize>) -> (r: DbError)
    ensures
        r@ == unsupported_error(message@, position),
{
    DbError::at(FEATURE_NOT_SUPPORTED, text(message), position)
}

/// Decides whether two vectors of bytes are equal.
pub fn same_items(a: &Vec<u8>, b: &Vec<u8>) -> (r: bool)
    ensures
        r == (a@ == b@),
{
    if a.len() != b.len() {
        return false;
    }
    for i in 0..a.len()
        invariant
            a.len() == b.len(),
            forall|k: int| 0 <= k < i ==> a@[k] == b@[k],
    {
        if a[i] != b[i] {
            return false;
        }
    }
    assert(a@ =~= b@);
    true
}

/// How an optional size is written in a type's description.
pub open spec fn described_size(n: Option<nat>) -> Seq<char> {
    match n {
        Some(n) => "Some("@ + decimal(n) + ")"@,
        None => "None"@,
    }
}

/// How a list of enum labels is written in a type's description.
pub open spec fn described_labels(labels: Seq<Seq<char>>) -> Seq<char>
    decreases labels.len(),
{
    if labels.len() == 0 {
        ""@
    } else if labels.len() == 1 {
        "\""@ + labels[0] + "\""@
    } else {
        described_labels(labels.drop_last()) + ", \""@ + labels.last() + "\""@
    }
}

/// How a type is written in messages.
pub open spec fn described(t: ScalarTypeView) -> Seq<char>
    decreases t,
{
    match t {
        ScalarTypeView::Boolean => "Boolean"@,
        ScalarTypeView::Int16 => "Int16"@,
        ScalarTypeView::Int32 => "Int32"@,
        ScalarTypeView::Int64 => "Int64"@,
        ScalarTypeView::Oid => "Oid"@,
        ScalarTypeView::Float32 => "Float32"@,
        ScalarTypeView::Float64 => "Float64"@,
        ScalarTypeView::Decimal { precision, scale } => "Decimal { precision: "@ + described_size(size_of(precision)) + ", scale: "@
            + described_size(size_of(scale)) + " }"@,
        ScalarTypeView::Name => "Name"@,
        ScalarTypeView::InternalChar => "InternalChar"@,
        ScalarTypeView::Char { length } => "Char { length: "@ + described_size(size_of(length)) + " }"@,
        ScalarTypeView::Varchar { length } => "Varchar { length: "@ + described_size(size_of(length)) + " }"@,
        ScalarTypeView::Text => "Text"@,
        ScalarTypeView::Binary => "Binary"@,
        ScalarTypeView::Date => "Date"@,
        ScalarTypeView::Time => "Time"@,
        ScalarTypeView::Timestamp { with_timezone } => if with_timezone {
            "Timestamp { with_timezone: true }"@
        } else {
            "Timestamp { with_timezone: false }"@
        },
        ScalarTypeView::Interval => "Interval"@,
        ScalarTypeView::Json => "Json"@,
        ScalarTypeView::Jsonb => "Jsonb"@,
        ScalarTypeView::Uuid => "Uuid"@,
        ScalarTypeView::Enum { type_id, labels } => "Enum { type_id: TypeId("@ + decimal(type_id.0 as nat) + "), labels: ["@
            + described_labels(labels) + "] }"@,
        ScalarTypeView::Array { element } => "Array { element: "@ + described(*element) + " }"@,
        ScalarTypeView::Vector { dimensions } => "Vector { dimensions: "@ + described_size(match dimensions {
            Some(n) => Some(n as nat),
            None => None,
        }) + " }"@,
    }
}

/// An optional size as a natural number.
pub open spec fn size_of(n: Option<u32>) -> Option<nat> {
    match n {
        Some(n) => Some(n as nat),
        None => None,
    }
}

fn size_text(n: Option<u64>) -> (r: String)
    ensures
        r@ == described_size(match n { Some(n) => Some(n as nat), None => None }),
{
    match n {
        Some(n) => text3("Some(", decimal_text(n).as_str(), ")"),
        None => text("None"),
    }
}

fn wide_size(n: Option<u32>) -> (r: Option<u64>)
    ensures
        (match r { Some(n) => Some(n as nat), None => None }) == size_of(n),
{
    match n {
        Some(n) => Some(n as u64),
        None => None,
    }
}

fn labels_text(labels: &Vec<String>) -> (r: String)
    ensures
        r@ == described_labels(strings(labels@)),
{
    let mut out: String = text("");
    for i in 0..labels.len()
        invariant
            out@ == described_labels(strings(labels@).take(i as int)),
    {
        assert(strings(labels@).take(i + 1).drop_last() =~= strings(labels@).take(i as int));
        if i == 0 {
            out = text3("\"", labels[i].as_str(), "\"");
        } else {
            out.append(", \"");
            out.append(labels[i].as_str());
            out.append("\"");
        }
        assert(strings(labels@).take(i + 1).last() == labels@[i as int]@);
    }
    assert(strings(labels@).take(labels@.len() as int) =~= strings(labels@));
    out
}

impl ScalarType {
    /// Writes the type the way messages show it.
    pub fn describe(&self) -> (r: String)
        ensures
            r@ == described(self@),
        decreases self,
    {
        match self {
            ScalarType::Boolean => text("Boolean"),
            ScalarType::Int16 => text("Int16"),
            ScalarType::Int32 => text("Int32"),
            ScalarType::Int64 => text("Int64"),
            ScalarType::Oid => text("Oid"),
            ScalarType::Float32 => text("Float32"),
            ScalarType::Float64 => text("Float64"),
            ScalarType::Decimal { precision, scale } => {
                let mut out: String = text3("Decimal { precision: ", size_text(wide_size(*precision)).as_str(), ", scale: ");
                out.append(size_text(wide_size(*scale)).as_str());
                out.append(" }");
                out
            },
            ScalarType::Name => text("Name"),
            ScalarType::InternalChar => text("InternalChar"),
            ScalarType::Char { length } => text3("Char { length: ", size_text(wide_size(*length)).as_str(), " }"),
            ScalarType::Varchar { length } => text3("Varchar { length: ", size_text(wide_size(*length)).as_str(), " }"),
            ScalarType::Text => text("Text"),
            ScalarType::Binary => text("Binary"),
            ScalarType::Date => text("Date"),
            ScalarType::Time => text("Time"),
            ScalarType::Timestamp { with_timezone } => if *with_timezone {
                text("Timestamp { with_timezone: true }")
            } else {
                text("Timestamp { with_timezone: false }")
            },
            ScalarType::Interval => text("Interval"),
            ScalarType::Json => text("Json"),
            ScalarType::Jsonb => text("Jsonb"),
            ScalarType::Uuid => text("Uuid"),
            ScalarType::Enum { type_id, labels } => {
                let mut out: String = text3("Enum { type_id: TypeId(", decimal_text(type_id.0).as_str(), "), labels: [");
                out.append(labels_text(labels).as_str());
                out.append("] }");
                out
            },
            ScalarType::Array { element } => text3("Array { element: ", (**element).describe().as_str(), " }"),
            ScalarType::Vector { dimensions } => text3(
                "Vector { dimensions: ",
                size_text(match dimensions { Some(n) => Some(*n as u64), None => None }).as_str(),
                " }",
            ),
        }
    }
}

/// The type that a constant has on its own; a null has none.
pub open spec fn type_of_value(v: ValueView) -> Option<ScalarTypeView> {
    match v {
        ValueView::Null => None,
        ValueView::Boolean(_) => Some(ScalarTypeView::Boolean),
        ValueView::Int16(_) => Some(ScalarTypeView::Int16),
        ValueView::Int32(_) => Some(ScalarTypeView::Int32),
        ValueView::Int64(_) => Some(ScalarTypeView::Int64),
        ValueView::Oid(_) => Some(ScalarTypeView::Oid),
        ValueView::Float64(_) => Some(ScalarTypeView::Float64),
        ValueView::Decimal(_) => Some(ScalarTypeView::Decimal { precision: None, scale: None }),
        ValueView::Text(_) => Some(ScalarTypeView::Text),
        ValueView::Binary(_) => Some(ScalarTypeView::Binary),
        ValueView::Date(_) => Some(ScalarTypeView::Date),
        ValueView::Time(_) => Some(ScalarTypeView::Time),
        ValueView::Timestamp { with_timezone, .. } => Some(ScalarTypeView::Timestamp { with_timezone }),
        ValueView::Interval(_) => Some(ScalarTypeView::Interval),
        ValueView::Json(_) => Some(ScalarTypeView::Json),
        ValueView::Jsonb(_) => Some(ScalarTypeView::Jsonb),
        ValueView::Uuid(_) => Some(ScalarTypeView::Uuid),
    }
}

/// Whether an integer lies in the range of a numeric type.
pub open spec fn integer_fits(t: ScalarTypeView, n: int) -> bool {
    match t {
        ScalarTypeView::Int16 => i16::MIN <= n <= i16::MAX,
        ScalarTypeView::Int32 => i32::MIN <= n <= i32::MAX,
        ScalarTypeView::Int64 => true,
        ScalarTypeView::Oid => 0 <= n <= u32::MAX,
        ScalarTypeView::Decimal { .. } => true,
        ScalarTypeView::Float32 => true,
        ScalarTypeView::Float64 => true,
        _ => false,
    }
}

/// Whether a text is a row of decimal digits.
pub open spec fn all_digits(s: Seq<char>) -> bool {
    s.len() > 0 && forall|i: int| 0 <= i < s.len() ==> '0' <= #[trigger] s[i] <= '9'
}

/// Whether a constant may stand where a type is expected.
pub open spec fn type_accepts(t: ScalarTypeView, v: ValueView) -> bool {
    match v {
        ValueView::Null => true,
        ValueView::Boolean(_) => t == ScalarTypeView::Boolean,
        ValueView::Int16(n) => integer_fits(t, n as int),
        ValueView::Int32(n) => integer_fits(t, n as int),
        ValueView::Int64(n) => integer_fits(t, n as int),
        ValueView::Oid(n) => integer_fits(t, n as int),
        ValueView::Float64(_) => t is Decimal || t is Float32 || t is Float64,
        ValueView::Decimal(_) => t is Decimal || t is Float32 || t is Float64,
        ValueView::Text(s) => match t {
            ScalarTypeView::Name | ScalarTypeView::InternalChar | ScalarTypeView::Char { .. } | ScalarTypeView::Varchar {
                ..
            } | ScalarTypeView::Text => true,
            ScalarTypeView::Enum { labels, .. } => labels.contains(s),
            ScalarTypeView::Oid => all_digits(s),
            _ => false,
        },
        ValueView::Binary(_) => t == ScalarTypeView::Binary,
        ValueView::Date(_) => t == ScalarTypeView::Date,
        ValueView::Time(_) => t == ScalarTypeView::Time,
        ValueView::Timestamp { with_timezone, .. } => t == (ScalarTypeView::Timestamp { with_timezone }),
        ValueView::Interval(_) => t == ScalarTypeView::Interval,
        ValueView::Json(_) => t == ScalarTypeView::Json,
        ValueView::Jsonb(_) => t == ScalarTypeView::Jsonb,
        ValueView::Uuid(_) => t == ScalarTypeView::Uuid,
    }
}

fn contains_text(labels: &Vec<String>, s: &String) -> (r: bool)
    ensures
        r == strings(labels@).contains(s@),
{
    for i in 0..labels.len()
        invariant
            forall|k: int| 0 <= k < i ==> labels@[k]@ != s@,
    {
        if labels[i] == *s {
            assert(strings(labels@)[i as int] == s@);
            return true;
        }
    }
    assert forall|k: int| 0 <= k < strings(labels@).len() implies strings(labels@)[k] != s@ by {
        assert(labels@[k]@ != s@);
    }
    false
}

fn is_digits(s: &str) -> (r: bool)
    ensures
        r == all_digits(s@),
{
    let chars = crate::text::characters(s);
    for i in 0..chars.len()
        invariant
            chars@ == s@,
            forall|k: int| 0 <= k < i ==> '0' <= #[trigger] s@[k] <= '9',
    {
        if !('0' <= chars[i] && chars[i] <= '9') {
            assert(!('0' <= s@[i as int] <= '9'));
            return false;
        }
    }
    chars.len() > 0
}

fn accepts_integer(t: &ScalarType, n: i64) -> (r: bool)
    ensures
        r == integer_fits(t@, n as int),
{
    match t {
        ScalarType::Int16 => -32768 <= n && n <= 32767,
        ScalarType::Int32 => -2147483648 <= n && n <= 2147483647,
        ScalarType::Int64 => true,
        ScalarType::Oid => 0 <= n && n <= 4294967295,
        ScalarType::Decimal { .. } => true,
        ScalarType::Float32 => true,
        ScalarType::Float64 => true,
        _ => false,
    }
}

impl ScalarType {
    /// Decides whether a constant may stand where this type is expected.
    pub fn accepts(&self, value: &Value) -> (r: bool)
        ensures
            r == type_accepts(self@, value@),
    {
        match value {
            Value::Null => true,
            Value::Boolean(_) => matches!(self, ScalarType::Boolean),
            Value::Int16(n) => accepts_integer(self, *n as i64),
            Value::Int32(n) => accepts_integer(self, *n as i64),
            Value::Int64(n) => accepts_integer(self, *n),
            Value::Oid(n) => accepts_integer(self, *n as i64),
            Value::Float64(_) => matches!(self, ScalarType::Decimal { .. } | ScalarType::Float32 | ScalarType::Float64),
            Value::Decimal(_) => matches!(self, ScalarType::Decimal { .. } | ScalarType::Float32 | ScalarType::Float64),
            Value::Text(s) => match self {
                ScalarType::Name | ScalarType::InternalChar | ScalarType::Char { .. } | ScalarType::Varchar { .. }
                | ScalarType::Text => true,
                ScalarType::Enum { labels, .. } => contains_text(labels, s),
                ScalarType::Oid => is_digits(s.as_str()),
                _ => false,
            },
            Value::Binary(_) => matches!(self, ScalarType::Binary),
            Value::Date(_) => matches!(self, ScalarType::Date),
            Value::Time(_) => matches!(self, ScalarType::Time),
            Value::Timestamp { with_timezone: zoned, .. } => match self {
                ScalarType::Timestamp { with_timezone } => *with_timezone == *zoned,
                _ => false,
            },
            Value::Interval(_) => matches!(self, ScalarType::Interval),
            Value::Json(_) => matches!(self, ScalarType::Json),
            Value::Jsonb(_) => matches!(self, ScalarType::Jsonb),
            Value::Uuid(_) => matches!(self, ScalarType::Uuid),
        }
    }

    /// The contents of an optional type.
    pub open spec fn opt(t: Option<ScalarType>) -> Option<ScalarTypeView> {
        match t {
            Some(t) => Some(t@),
            None => None,
        }
    }

    /// The contents of an optional borrowed type.
    pub open spec fn opt_ref(t: Option<&ScalarType>) -> Option<ScalarTypeView> {
        match t {
            Some(t) => Some(t@),
            None => None,
        }
    }
}

impl Value {
    /// The type that the constant has on its own; a null has none.
    pub fn scalar_type(&self) -> (r: Option<ScalarType>)
        ensures
            ScalarType::opt(r) == type_of_value(self@),
    {
        match self {
            Value::Null => None,
            Value::Boolean(_) => Some(ScalarType::Boolean),
            Value::Int16(_) => Some(ScalarType::Int16),
            Value::Int32(_) => Some(ScalarType::Int32),
            Value::Int64(_) => Some(ScalarType::Int64),
            Value::Oid(_) => Some(ScalarType::Oid),
            Value::Float64(_) => Some(ScalarType::Float64),
            Value::Decimal(_) => Some(ScalarType::Decimal { precision: None, scale: None }),
            Value::Text(_) => Some(ScalarType::Text),
            Value::Binary(_) => Some(ScalarType::Binary),
            Value::Date(_) => Some(ScalarType::Date),
            Value::Time(_) => Some(ScalarType::Time),
            Value::Timestamp { with_timezone, .. } => Some(ScalarType::Timestamp { with_timezone: *with_timezone }),
            Value::Interval(_) => Some(ScalarType::Interval),
            Value::Json(_) => Some(ScalarType::Json),
            Value::Jsonb(_) => Some(ScalarType::Jsonb),
            Value::Uuid(_) => Some(ScalarType::Uuid),
        }
    }

    /// Whether the constant is a null.
    pub fn is_null(&self) -> (r: bool)
        ensures
            r == (self@ is Null),
    {
        matches!(self, Value::Null)
    }
}

impl Field {
    /// An output column.
    pub fn new(name: &str, data_type: ScalarType, nullable: bool) -> (r: Field)
        ensures
            r@ == (FieldView { name: name@, data_type: data_type@, nullable }),
    {
        Field { name: text(name), data_type, nullable }
    }
}

impl Schema {
    /// A row shape.
    pub fn new(fields: Vec<Field>) -> (r: Schema)
        ensures
            r@ == (SchemaView { fields: Field::views(fields@) }),
    {
        Schema { fields }
    }
}

/// A name that has been read once reads the same again.
pub proof fn lemma_normalized_again(value: Seq<char>, quoted: bool)
    ensures
        normalized(normalized(value, quoted), quoted) == normalized(value, quoted),
        normalized(normalized(value, quoted), true) == normalized(value, quoted),
{
    assert(lower(lower(value)) =~= lower(value));
}

/// A constant may stand where its own type is expected.
pub proof fn lemma_value_fits(v: ValueView)
    ensures
        type_of_value(v) matches Some(t) ==> type_accepts(t, v),
        type_of_value(v) is None <==> v is Null,
{
}

} // verus!
