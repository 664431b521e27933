//! The syntax tree that statements are parsed into.

use vstd::prelude::*;

use crate::catalog::{
    DomainConstraint, DomainConstraintView, DropBehavior, EnumValuePosition, EnumValuePositionView, IndexMethod, NewSequence,
    NewSequenceView, ReferentialAction, RoutineArgumentMode, RoutineKind, TriggerEvent, TriggerLevel, TriggerTiming, ViewKind,
};
use crate::text::strings;
use crate::types::{ArrayDimension, Identifier, ScalarType, ScalarTypeView, Value, ValueView};
use crate::settings::SessionSettings;

verus! {

/// A source dialect of SQL.
#[derive(Debug, Clone, Copy, PartialEq, Eq, Structural)]
pub enum SqlDialect {
    PostgreSql,
    MySql,
    Sqlite,
    SqlServer,
}

impl Default for SqlDialect {
    fn default() -> (r: Self)
        ensures
            r == SqlDialect::PostgreSql,
    {
        SqlDialect::PostgreSql
    }
}

impl SqlDialect {
    /// The name shown to people.
    pub open spec fn name(self) -> Seq<char> {
        match self {
            SqlDialect::PostgreSql => "PostgreSQL"@,
            SqlDialect::MySql => "MySQL"@,
            SqlDialect::Sqlite => "SQLite"@,
            SqlDialect::SqlServer => "SQL Server"@,
        }
    }

    /// The name shown to people.
    pub fn label(self) -> (r: &'static str)
        ensures
            r@ == self.name(),
    {
        match self {
            SqlDialect::PostgreSql => "PostgreSQL",
            SqlDialect::MySql => "MySQL",
            SqlDialect::Sqlite => "SQLite",
            SqlDialect::SqlServer => "SQL Server",
        }
    }
}

/// How a transaction sees the work of others.
#[derive(Debug, Clone, Copy, PartialEq, Eq, Structural)]
pub enum IsolationLevel {
    ReadCommitted,
    RepeatableRead,
    Serializable,
}

/// Whether a transaction may write.
#[derive(Debug, Clone, Copy, PartialEq, Eq, Structural)]
pub enum TransactionAccessMode {
    ReadWrite,
    ReadOnly,
}

/// The characteristics of a transaction.
#[derive(Debug, Clone, Copy, PartialEq, Eq, Structural)]
pub struct TransactionCharacteristics {
    pub isolation_level: IsolationLevel,
    pub access_mode: TransactionAccessMode,
    pub deferrable: bool,
}

impl Default for TransactionCharacteristics {
    fn default() -> (r: Self)
        ensures
            r.isolation_level == IsolationLevel::ReadCommitted,
            r.access_mode == TransactionAccessMode::ReadWrite,
            !r.deferrable,
    {
        TransactionCharacteristics {
            isolation_level: IsolationLevel::ReadCommitted,
            access_mode: TransactionAccessMode::ReadWrite,
            deferrable: false,
        }
    }
}

/// Whether the end of a transaction starts the next one.
#[derive(Debug, Clone, Copy, PartialEq, Eq, Structural)]
pub enum TransactionChain {
    Default,
    Chain,
    NoChain,
}

impl Default for TransactionChain {
    fn default() -> (r: Self)
        ensures
            r == TransactionChain::Default,
    {
        TransactionChain::Default
    }
}

/// Values of the running session that statements may ask for.
#[derive(Debug, Clone, Copy, PartialEq, Eq)]
pub struct SessionBindValues<'a> {
    pub version: &'a str,
    pub current_database: &'a str,
    pub current_user: &'a str,
    pub session_user: &'a str,
    pub settings: &'a SessionSettings,
}

/// How a comparison ranges over a subquery.
#[derive(Debug, Clone, Copy, PartialEq, Eq, Structural)]
pub enum SubqueryQuantifier {
    Any,
    All,
}

/// An aggregate function.
#[derive(Debug, Clone, Copy, PartialEq, Eq, Structural)]
pub enum AggregateFunction {
    Count,
    Sum,
    Avg,
    Min,
    Max,
}

/// A window function.
#[derive(Debug, Clone, Copy, PartialEq, Eq, Structural)]
pub enum WindowFunction {
    RowNumber,
    Rank,
    DenseRank,
    Lag,
    Lead,
    FirstValue,
    LastValue,
    NthValue,
    Aggregate(AggregateFunction),
}

/// What a window frame counts.
#[derive(Debug, Clone, Copy, PartialEq, Eq, Structural)]
pub enum WindowFrameUnits {
    Rows,
    Range,
}

/// A built-in scalar function.
#[derive(Debug, Clone, Copy, PartialEq, Eq, Structural)]
pub enum ScalarFunction {
    Version,
    CurrentDatabase,
    CurrentUser,
    SessionUser,
    CurrentSetting,
    Lower,
    Upper,
    CharacterLength,
    OctetLength,
    Abs,
    Coalesce,
    NullIf,
    Concat,
    Substring,
    Btrim,
    Ltrim,
    Rtrim,
    Replace,
    Strpos,
    Greatest,
    Least,
    JsonbTypeof,
    ArrayLength,
    Cardinality,
}

/// A unary operator.
#[derive(Debug, Clone, Copy, PartialEq, Eq, Structural)]
pub enum UnaryOperator {
    Not,
    Negate,
}

/// A binary operator.
#[derive(Debug, Clone, Copy, PartialEq, Eq, Structural)]
pub enum BinaryOperator {
    Add,
    Subtract,
    Multiply,
    Divide,
    Modulo,
    Eq,
    NotEq,
    Lt,
    LtEq,
    Gt,
    GtEq,
    And,
    Or,
}

/// A set operation.
#[derive(Debug, Clone, Copy, PartialEq, Eq, Structural)]
pub enum QuerySetOperator {
    Union,
    Intersect,
    Except,
}

/// The kind of object a DDL statement names.
#[derive(Debug, Clone, Copy, PartialEq, Eq, Structural)]
pub enum DdlObjectKind {
    Schema,
    Table,
    Index,
    Sequence,
    View,
    MaterializedView,
    Type,
}

/// The kind of a join.
#[derive(Debug, Clone, Copy, PartialEq, Eq, Structural)]
pub enum JoinKind {
    Inner,
    Left,
}

/// Which rows a MERGE clause applies to.
#[derive(Debug, Clone, Copy, PartialEq, Eq, Structural)]
pub enum ParsedMergeClauseKind {
    Matched,
    NotMatchedByTarget,
    NotMatchedBySource,
}

/// Whether running a statement needs approval.
#[derive(Debug, Clone, Copy, PartialEq, Eq, Structural)]
pub enum StatementEffect {
    ReadOnly,
    RequiresApproval,
}

/// A name and the place where it was written.
#[derive(Debug, PartialEq, Eq)]
pub struct ParsedIdentifier {
    pub name: Identifier,
    pub position: Option<usize>,
}

/// Mathematical contents of a [`ParsedIdentifier`].
pub struct ParsedIdentifierView {
    pub name: Seq<char>,
    pub position: Option<usize>,
}

impl ParsedIdentifier {
    /// The value as mathematical data.
    pub open spec fn view(&self) -> ParsedIdentifierView {
        ParsedIdentifierView {
            name: self.name@,
            position: self.position,
        }
    }

    /// The contents of each value of a sequence.
    pub open spec fn views(l: Seq<ParsedIdentifier>) -> Seq<ParsedIdentifierView> {
        Seq::new(l.len(), |i: int| l[i]@)
    }

    /// Copies every value of a vector.
    pub fn clone_all(l: &Vec<ParsedIdentifier>) -> (out: Vec<ParsedIdentifier>)
        ensures
            ParsedIdentifier::views(out@) == ParsedIdentifier::views(l@),
    {
        let mut out: Vec<ParsedIdentifier> = Vec::new();
        for i in 0..l.len()
            invariant
                out.len() == i,
                forall|k: int| 0 <= k < i ==> out@[k]@ == l@[k]@,
        {
            out.push(l[i].clone());
        }
        assert(ParsedIdentifier::views(out@) =~= ParsedIdentifier::views(l@));
        out
    }

}

impl Clone for ParsedIdentifier {
    fn clone(&self) -> (r: Self)
        ensures
            r@ == self@,
    {
        ParsedIdentifier {
            name: self.name.clone(),
            position: self.position,
        }
    }
}

/// A possibly qualified name.
#[derive(Debug, PartialEq, Eq)]
pub struct ParsedObjectName {
    pub parts: Vec<ParsedIdentifier>,
}

/// Mathematical contents of a [`ParsedObjectName`].
pub struct ParsedObjectNameView {
    pub parts: Seq<ParsedIdentifierView>,
}

impl ParsedObjectName {
    /// The value as mathematical data.
    pub open spec fn view(&self) -> ParsedObjectNameView {
        ParsedObjectNameView {
            parts: ParsedIdentifier::views(self.parts@),
        }
    }

    /// The contents of each value of a sequence.
    pub open spec fn views(l: Seq<ParsedObjectName>) -> Seq<ParsedObjectNameView> {
        Seq::new(l.len(), |i: int| l[i]@)
    }

    /// Copies every value of a vector.
    pub fn clone_all(l: &Vec<ParsedObjectName>) -> (out: Vec<ParsedObjectName>)
        ensures
            ParsedObjectName::views(out@) == ParsedObjectName::views(l@),
    {
        let mut out: Vec<ParsedObjectName> = Vec::new();
        for i in 0..l.len()
            invariant
                out.len() == i,
                forall|k: int| 0 <= k < i ==> out@[k]@ == l@[k]@,
        {
            out.push(l[i].clone());
        }
        assert(ParsedObjectName::views(out@) =~= ParsedObjectName::views(l@));
        out
    }

}

impl Clone for ParsedObjectName {
    fn clone(&self) -> (r: Self)
        ensures
            r@ == self@,
    {
        ParsedObjectName {
            parts: ParsedIdentifier::clone_all(&self.parts),
        }
    }
}

/// The value of an index option.
#[derive(Debug, PartialEq, Eq)]
pub enum ParsedIndexOptionValue {
    Text(String),
    Integer(usize),
}

/// Mathematical contents of a [`ParsedIndexOptionValue`].
pub enum ParsedIndexOptionValueView {
    Text(Seq<char>),
    Integer(usize),
}

impl ParsedIndexOptionValue {
    /// The value as mathematical data.
    pub open spec fn view(&self) -> ParsedIndexOptionValueView {
        match *self {
            ParsedIndexOptionValue::Text(f0) => ParsedIndexOptionValueView::Text(f0@),
            ParsedIndexOptionValue::Integer(f0) => ParsedIndexOptionValueView::Integer(f0),
        }
    }

}

impl Clone for ParsedIndexOptionValue {
    fn clone(&self) -> (r: Self)
        ensures
            r@ == self@,
    {
        match self {
            ParsedIndexOptionValue::Text(f0) => ParsedIndexOptionValue::Text(f0.clone()),
            ParsedIndexOptionValue::Integer(f0) => ParsedIndexOptionValue::Integer(*f0),
        }
    }
}

/// One index option.
#[derive(Debug, PartialEq, Eq)]
pub struct ParsedIndexOption {
    pub name: ParsedIdentifier,
    pub value: ParsedIndexOptionValue,
}

/// Mathematical contents of a [`ParsedIndexOption`].
pub struct ParsedIndexOptionView {
    pub name: ParsedIdentifierView,
    pub value: ParsedIndexOptionValueView,
}

impl ParsedIndexOption {
    /// The value as mathematical data.
    pub open spec fn view(&self) -> ParsedIndexOptionView {
        ParsedIndexOptionView {
            name: self.name@,
            value: self.value@,
        }
    }

    /// The contents of each value of a sequence.
    pub open spec fn views(l: Seq<ParsedIndexOption>) -> Seq<ParsedIndexOptionView> {
        Seq::new(l.len(), |i: int| l[i]@)
    }

    /// Copies every value of a vector.
    pub fn clone_all(l: &Vec<ParsedIndexOption>) -> (out: Vec<ParsedIndexOption>)
        ensures
            ParsedIndexOption::views(out@) == ParsedIndexOption::views(l@),
    {
        let mut out: Vec<ParsedIndexOption> = Vec::new();
        for i in 0..l.len()
            invariant
                out.len() == i,
                forall|k: int| 0 <= k < i ==> out@[k]@ == l@[k]@,
        {
            out.push(l[i].clone());
        }
        assert(ParsedIndexOption::views(out@) =~= ParsedIndexOption::views(l@));
        out
    }

}

impl Clone for ParsedIndexOption {
    fn clone(&self) -> (r: Self)
        ensures
            r@ == self@,
    {
        ParsedIndexOption {
            name: self.name.clone(),
            value: self.value.clone(),
        }
    }
}

/// A CREATE INDEX statement.
#[derive(Debug, PartialEq, Eq)]
pub struct ParsedCreateIndex {
    pub name: ParsedIdentifier,
    pub table: ParsedObjectName,
    pub key_columns: Vec<ParsedIdentifier>,
    pub include_columns: Vec<ParsedIdentifier>,
    pub unique: bool,
    pub method: IndexMethod,
    pub options: Vec<ParsedIndexOption>,
    pub if_not_exists: bool,
}

/// Mathematical contents of a [`ParsedCreateIndex`].
pub struct ParsedCreateIndexView {
    pub name: ParsedIdentifierView,
    pub table: ParsedObjectNameView,
    pub key_columns: Seq<ParsedIdentifierView>,
    pub include_columns: Seq<ParsedIdentifierView>,
    pub unique: bool,
    pub method: IndexMethod,
    pub options: Seq<ParsedIndexOptionView>,
    pub if_not_exists: bool,
}

impl ParsedCreateIndex {
    /// The value as mathematical data.
    pub open spec fn view(&self) -> ParsedCreateIndexView {
        ParsedCreateIndexView {
            name: self.name@,
            table: self.table@,
            key_columns: ParsedIdentifier::views(self.key_columns@),
            include_columns: ParsedIdentifier::views(self.include_columns@),
            unique: self.unique,
            method: self.method,
            options: ParsedIndexOption::views(self.options@),
            if_not_exists: self.if_not_exists,
        }
    }

}

impl Clone for ParsedCreateIndex {
    fn clone(&self) -> (r: Self)
        ensures
            r@ == self@,
    {
        ParsedCreateIndex {
            name: self.name.clone(),
            table: self.table.clone(),
            key_columns: ParsedIdentifier::clone_all(&self.key_columns),
            include_columns: ParsedIdentifier::clone_all(&self.include_columns),
            unique: self.unique,
            method: self.method,
            options: ParsedIndexOption::clone_all(&self.options),
            if_not_exists: self.if_not_exists,
        }
    }
}

/// A declared routine argument.
#[derive(Debug, PartialEq)]
pub struct ParsedRoutineArgument {
    pub name: Option<Identifier>,
    pub data_type: ScalarType,
    pub declared_type: Option<ParsedObjectName>,
    pub mode: RoutineArgumentMode,
}

/// Mathematical contents of a [`ParsedRoutineArgument`].
pub struct ParsedRoutineArgumentView {
    pub name: Option<Seq<char>>,
    pub data_type: ScalarTypeView,
    pub declared_type: Option<ParsedObjectNameView>,
    pub mode: RoutineArgumentMode,
}

impl ParsedRoutineArgument {
    /// The value as mathematical data.
    pub open spec fn view(&self) -> ParsedRoutineArgumentView {
        ParsedRoutineArgumentView {
            name: match self.name { Some(x) => Some(x@), None => None },
            data_type: self.data_type@,
            declared_type: match self.declared_type { Some(x) => Some(x@), None => None },
            mode: self.mode,
        }
    }

    /// The contents of each value of a sequence.
    pub open spec fn views(l: Seq<ParsedRoutineArgument>) -> Seq<ParsedRoutineArgumentView> {
        Seq::new(l.len(), |i: int| l[i]@)
    }

    /// Copies every value of a vector.
    pub fn clone_all(l: &Vec<ParsedRoutineArgument>) -> (out: Vec<ParsedRoutineArgument>)
        ensures
            ParsedRoutineArgument::views(out@) == ParsedRoutineArgument::views(l@),
    {
        let mut out: Vec<ParsedRoutineArgument> = Vec::new();
        for i in 0..l.len()
            invariant
                out.len() == i,
                forall|k: int| 0 <= k < i ==> out@[k]@ == l@[k]@,
        {
            out.push(l[i].clone());
        }
        assert(ParsedRoutineArgument::views(out@) =~= ParsedRoutineArgument::views(l@));
        out
    }

}

impl Clone for ParsedRoutineArgument {
    fn clone(&self) -> (r: Self)
        ensures
            r@ == self@,
    {
        ParsedRoutineArgument {
            name: match &self.name { Some(y) => Some(y.clone()), None => None },
            data_type: self.data_type.clone(),
            declared_type: match &self.declared_type { Some(y) => Some(y.clone()), None => None },
            mode: self.mode,
        }
    }
}

/// A table in a FROM clause.
#[derive(Debug, PartialEq)]
pub struct ParsedTable {
    pub name: ParsedObjectName,
    pub alias: Option<ParsedIdentifier>,
}

/// Mathematical contents of a [`ParsedTable`].
pub struct ParsedTableView {
    pub name: ParsedObjectNameView,
    pub alias: Option<ParsedIdentifierView>,
}

impl ParsedTable {
    /// The value as mathematical data.
    pub open spec fn view(&self) -> ParsedTableView {
        ParsedTableView {
            name: self.name@,
            alias: match self.alias { Some(x) => Some(x@), None => None },
        }
    }

}

impl Clone for ParsedTable {
    fn clone(&self) -> (r: Self)
        ensures
            r@ == self@,
    {
        ParsedTable {
            name: self.name.clone(),
            alias: match &self.alias { Some(y) => Some(y.clone()), None => None },
        }
    }
}

/// What ON CONFLICT watches.
#[derive(Debug, PartialEq, Eq)]
pub enum ParsedConflictTarget {
    Columns(Vec<ParsedIdentifier>),
    Constraint(ParsedObjectName),
}

/// Mathematical contents of a [`ParsedConflictTarget`].
pub enum ParsedConflictTargetView {
    Columns(Seq<ParsedIdentifierView>),
    Constraint(ParsedObjectNameView),
}

impl ParsedConflictTarget {
    /// The value as mathematical data.
    pub open spec fn view(&self) -> ParsedConflictTargetView {
        match *self {
            ParsedConflictTarget::Columns(f0) => ParsedConflictTargetView::Columns(ParsedIdentifier::views(f0@)),
            ParsedConflictTarget::Constraint(f0) => ParsedConflictTargetView::Constraint(f0@),
        }
    }

}

impl Clone for ParsedConflictTarget {
    fn clone(&self) -> (r: Self)
        ensures
            r@ == self@,
    {
        match self {
            ParsedConflictTarget::Columns(f0) => ParsedConflictTarget::Columns(ParsedIdentifier::clone_all(f0)),
            ParsedConflictTarget::Constraint(f0) => ParsedConflictTarget::Constraint(f0.clone()),
        }
    }
}

/// What REINDEX rebuilds.
#[derive(Debug, PartialEq)]
pub enum ParsedReindexTarget {
    Index(ParsedObjectName),
    Table(ParsedObjectName),
    Schema(ParsedIdentifier),
    Database(ParsedIdentifier),
}

/// Mathematical contents of a [`ParsedReindexTarget`].
pub enum ParsedReindexTargetView {
    Index(ParsedObjectNameView),
    Table(ParsedObjectNameView),
    Schema(ParsedIdentifierView),
    Database(ParsedIdentifierView),
}

impl ParsedReindexTarget {
    /// The value as mathematical data.
    pub open spec fn view(&self) -> ParsedReindexTargetView {
        match *self {
            ParsedReindexTarget::Index(f0) => ParsedReindexTargetView::Index(f0@),
            ParsedReindexTarget::Table(f0) => ParsedReindexTargetView::Table(f0@),
            ParsedReindexTarget::Schema(f0) => ParsedReindexTargetView::Schema(f0@),
            ParsedReindexTarget::Database(f0) => ParsedReindexTargetView::Database(f0@),
        }
    }

}

impl Clone for ParsedReindexTarget {
    fn clone(&self) -> (r: Self)
        ensures
            r@ == self@,
    {
        match self {
            ParsedReindexTarget::Index(f0) => ParsedReindexTarget::Index(f0.clone()),
            ParsedReindexTarget::Table(f0) => ParsedReindexTarget::Table(f0.clone()),
            ParsedReindexTarget::Schema(f0) => ParsedReindexTarget::Schema(f0.clone()),
            ParsedReindexTarget::Database(f0) => ParsedReindexTarget::Database(f0.clone()),
        }
    }
}

/// The options of ALTER SEQUENCE.
#[derive(Debug, PartialEq)]
pub struct ParsedAlterSequence {
    pub increment: Option<i64>,
    pub min_value: Option<i64>,
    pub max_value: Option<i64>,
    pub restart: Option<i64>,
    pub cycle: Option<bool>,
    pub owner: Option<Option<(ParsedObjectName, ParsedIdentifier)>>,
}

impl Default for ParsedAlterSequence {
    fn default() -> (r: Self)
        ensures
            r == (ParsedAlterSequence { increment: None, min_value: None, max_value: None, restart: None, cycle: None, owner: None }),
    {
        ParsedAlterSequence { increment: None, min_value: None, max_value: None, restart: None, cycle: None, owner: None }
    }
}

/// Mathematical contents of a [`ParsedAlterSequence`].
pub struct ParsedAlterSequenceView {
    pub increment: Option<i64>,
    pub min_value: Option<i64>,
    pub max_value: Option<i64>,
    pub restart: Option<i64>,
    pub cycle: Option<bool>,
    pub owner: Option<Option<(ParsedObjectNameView, ParsedIdentifierView)>>,
}

impl ParsedAlterSequence {
    /// The value as mathematical data.
    pub open spec fn view(&self) -> ParsedAlterSequenceView {
        ParsedAlterSequenceView {
            increment: self.increment,
            min_value: self.min_value,
            max_value: self.max_value,
            restart: self.restart,
            cycle: self.cycle,
            owner: match self.owner { Some(x) => Some(match x { Some(x) => Some((x.0@, x.1@)), None => None }), None => None },
        }
    }

}

impl Clone for ParsedAlterSequence {
    fn clone(&self) -> (r: Self)
        ensures
            r@ == self@,
    {
        ParsedAlterSequence {
            increment: self.increment,
            min_value: self.min_value,
            max_value: self.max_value,
            restart: self.restart,
            cycle: self.cycle,
            owner: match &self.owner {
                Some(y) => Some(match y { Some(y) => Some(((&y.0).clone(), (&y.1).clone())), None => None }),
                None => None,
            },
        }
    }
}

/// The shape of an expression.
#[derive(Debug, PartialEq)]
pub enum ParsedExprKind {
    Column(ParsedObjectName),
    Literal(Value),
    Parameter(usize),
    ResolvedParameter {
        index: usize,
        data_type: ScalarType,
    },
    Unary {
        op: UnaryOperator,
        expr: Box<ParsedExpr>,
    },
    Cast {
        expr: Box<ParsedExpr>,
        data_type: ScalarType,
        declared_type: Option<ParsedObjectName>,
    },
    Array {
        elements: Vec<ParsedExpr>,
        dimensions: Vec<ArrayDimension>,
    },
    Function {
        function: ScalarFunction,
        arguments: Vec<ParsedExpr>,
    },
    Binary {
        left: Box<ParsedExpr>,
        op: BinaryOperator,
        right: Box<ParsedExpr>,
    },
    InList {
        expr: Box<ParsedExpr>,
        list: Vec<ParsedExpr>,
        negated: bool,
    },
    ScalarSubquery(Box<ParsedStatement>),
    Exists {
        subquery: Box<ParsedStatement>,
        negated: bool,
    },
    InSubquery {
        expr: Box<ParsedExpr>,
        subquery: Box<ParsedStatement>,
        negated: bool,
    },
    QuantifiedSubquery {
        left: Box<ParsedExpr>,
        op: BinaryOperator,
        quantifier: SubqueryQuantifier,
        subquery: Box<ParsedStatement>,
    },
    RowSubquery {
        left: Vec<ParsedExpr>,
        op: BinaryOperator,
        quantifier: Option<SubqueryQuantifier>,
        negated: bool,
        subquery: Box<ParsedStatement>,
    },
    ApplyValue {
        index: usize,
        data_type: ScalarType,
        nullable: bool,
    },
    Aggregate {
        function: AggregateFunction,
        argument: Option<Box<ParsedExpr>>,
        distinct: bool,
        filter: Option<Box<ParsedExpr>>,
    },
    Window {
        call: Box<ParsedWindowCall>,
        spec: Box<ParsedWindowSpec>,
    },
    NamedWindow {
        call: Box<ParsedWindowCall>,
        name: ParsedIdentifier,
    },
    WindowValue {
        ordinal: usize,
    },
}

/// Mathematical contents of a [`ParsedExprKind`].
pub enum ParsedExprKindView {
    Column(ParsedObjectNameView),
    Literal(ValueView),
    Parameter(usize),
    ResolvedParameter { index: usize, data_type: ScalarTypeView },
    Unary { op: UnaryOperator, expr: Box<ParsedExprView> },
    Cast { expr: Box<ParsedExprView>, data_type: ScalarTypeView, declared_type: Option<ParsedObjectNameView> },
    Array { elements: Seq<ParsedExprView>, dimensions: Seq<ArrayDimension> },
    Function { function: ScalarFunction, arguments: Seq<ParsedExprView> },
    Binary { left: Box<ParsedExprView>, op: BinaryOperator, right: Box<ParsedExprView> },
    InList { expr: Box<ParsedExprView>, list: Seq<ParsedExprView>, negated: bool },
    ScalarSubquery(Box<ParsedStatementView>),
    Exists { subquery: Box<ParsedStatementView>, negated: bool },
    InSubquery { expr: Box<ParsedExprView>, subquery: Box<ParsedStatementView>, negated: bool },
    QuantifiedSubquery {
        left: Box<ParsedExprView>,
        op: BinaryOperator,
        quantifier: SubqueryQuantifier,
        subquery: Box<ParsedStatementView>,
    },
    RowSubquery {
        left: Seq<ParsedExprView>,
        op: BinaryOperator,
        quantifier: Option<SubqueryQuantifier>,
        negated: bool,
        subquery: Box<ParsedStatementView>,
    },
    ApplyValue { index: usize, data_type: ScalarTypeView, nullable: bool },
    Aggregate { function: AggregateFunction, argument: Option<Box<ParsedExprView>>, distinct: bool, filter: Option<Box<ParsedExprView>> },
    Window { call: Box<ParsedWindowCallView>, spec: Box<ParsedWindowSpecView> },
    NamedWindow { call: Box<ParsedWindowCallView>, name: ParsedIdentifierView },
    WindowValue { ordinal: usize },
}

impl ParsedExprKind {
    /// The outermost layer of the value, over the contents of its parts.
    pub open spec fn shape(&self) -> ParsedExprKindView {
        match *self {
            ParsedExprKind::Column(f0) => ParsedExprKindView::Column(f0@),
            ParsedExprKind::Literal(f0) => ParsedExprKindView::Literal(f0@),
            ParsedExprKind::Parameter(f0) => ParsedExprKindView::Parameter(f0),
            ParsedExprKind::ResolvedParameter { index, data_type } => ParsedExprKindView::ResolvedParameter {
                index,
                data_type: data_type@,
            },
            ParsedExprKind::Unary { op, expr } => ParsedExprKindView::Unary { op, expr: Box::new((*expr)@) },
            ParsedExprKind::Cast { expr, data_type, declared_type } => ParsedExprKindView::Cast {
                expr: Box::new((*expr)@),
                data_type: data_type@,
                declared_type: match declared_type { Some(x) => Some(x@), None => None },
            },
            ParsedExprKind::Array { elements, dimensions } => ParsedExprKindView::Array {
                elements: ParsedExpr::views(elements@),
                dimensions: dimensions@,
            },
            ParsedExprKind::Function { function, arguments } => ParsedExprKindView::Function {
                function,
                arguments: ParsedExpr::views(arguments@),
            },
            ParsedExprKind::Binary { left, op, right } => ParsedExprKindView::Binary {
                left: Box::new((*left)@),
                op,
                right: Box::new((*right)@),
            },
            ParsedExprKind::InList { expr, list, negated } => ParsedExprKindView::InList {
                expr: Box::new((*expr)@),
                list: ParsedExpr::views(list@),
                negated,
            },
            ParsedExprKind::ScalarSubquery(f0) => ParsedExprKindView::ScalarSubquery(Box::new((*f0)@)),
            ParsedExprKind::Exists { subquery, negated } => ParsedExprKindView::Exists { subquery: Box::new((*subquery)@), negated },
            ParsedExprKind::InSubquery { expr, subquery, negated } => ParsedExprKindView::InSubquery {
                expr: Box::new((*expr)@),
                subquery: Box::new((*subquery)@),
                negated,
            },
            ParsedExprKind::QuantifiedSubquery { left, op, quantifier, subquery } => ParsedExprKindView::QuantifiedSubquery {
                left: Box::new((*left)@),
                op,
                quantifier,
                subquery: Box::new((*subquery)@),
            },
            ParsedExprKind::RowSubquery { left, op, quantifier, negated, subquery } => ParsedExprKindView::RowSubquery {
                left: ParsedExpr::views(left@),
                op,
                quantifier,
                negated,
                subquery: Box::new((*subquery)@),
            },
            ParsedExprKind::ApplyValue { index, data_type, nullable } => ParsedExprKindView::ApplyValue {
                index,
                data_type: data_type@,
                nullable,
            },
            ParsedExprKind::Aggregate { function, argument, distinct, filter } => ParsedExprKindView::Aggregate {
                function,
                argument: match argument { Some(x) => Some(Box::new((*x)@)), None => None },
                distinct,
                filter: match filter { Some(x) => Some(Box::new((*x)@)), None => None },
            },
            ParsedExprKind::Window { call, spec } => ParsedExprKindView::Window { call: Box::new((*call)@), spec: Box::new((*spec)@) },
            ParsedExprKind::NamedWindow { call, name } => ParsedExprKindView::NamedWindow { call: Box::new((*call)@), name: name@ },
            ParsedExprKind::WindowValue { ordinal } => ParsedExprKindView::WindowValue { ordinal },
        }
    }

}

/// An expression and the place where it was written.
#[derive(Debug, PartialEq)]
pub struct ParsedExpr {
    pub kind: ParsedExprKind,
    pub position: Option<usize>,
}

/// Mathematical contents of a [`ParsedExpr`].
pub struct ParsedExprView {
    pub kind: ParsedExprKindView,
    pub position: Option<usize>,
}

impl ParsedExpr {
    /// The value as mathematical data.
    pub closed spec fn view(&self) -> ParsedExprView
        decreases self,
    {
        ParsedExprView {
            kind: match self.kind {
                ParsedExprKind::Column(f0) => ParsedExprKindView::Column(f0@),
                ParsedExprKind::Literal(f0) => ParsedExprKindView::Literal(f0@),
                ParsedExprKind::Parameter(f0) => ParsedExprKindView::Parameter(f0),
                ParsedExprKind::ResolvedParameter { index, data_type } => ParsedExprKindView::ResolvedParameter {
                    index,
                    data_type: data_type@,
                },
                ParsedExprKind::Unary { op, expr } => ParsedExprKindView::Unary { op, expr: Box::new((*expr)@) },
                ParsedExprKind::Cast { expr, data_type, declared_type } => ParsedExprKindView::Cast {
                    expr: Box::new((*expr)@),
                    data_type: data_type@,
                    declared_type: match declared_type { Some(x) => Some(x@), None => None },
                },
                ParsedExprKind::Array { elements, dimensions } => ParsedExprKindView::Array {
                    elements: ParsedExpr::views_in(elements@),
                    dimensions: dimensions@,
                },
                ParsedExprKind::Function { function, arguments } => ParsedExprKindView::Function {
                    function,
                    arguments: ParsedExpr::views_in(arguments@),
                },
                ParsedExprKind::Binary { left, op, right } => ParsedExprKindView::Binary {
                    left: Box::new((*left)@),
                    op,
                    right: Box::new((*right)@),
                },
                ParsedExprKind::InList { expr, list, negated } => ParsedExprKindView::InList {
                    expr: Box::new((*expr)@),
                    list: ParsedExpr::views_in(list@),
                    negated,
                },
                ParsedExprKind::ScalarSubquery(f0) => ParsedExprKindView::ScalarSubquery(Box::new((*f0)@)),
                ParsedExprKind::Exists { subquery, negated } => ParsedExprKindView::Exists { subquery: Box::new((*subquery)@), negated },
                ParsedExprKind::InSubquery { expr, subquery, negated } => ParsedExprKindView::InSubquery {
                    expr: Box::new((*expr)@),
                    subquery: Box::new((*subquery)@),
                    negated,
                },
                ParsedExprKind::QuantifiedSubquery { left, op, quantifier, subquery } => ParsedExprKindView::QuantifiedSubquery {
                    left: Box::new((*left)@),
                    op,
                    quantifier,
                    subquery: Box::new((*subquery)@),
                },
                ParsedExprKind::RowSubquery { left, op, quantifier, negated, subquery } => ParsedExprKindView::RowSubquery {
                    left: ParsedExpr::views_in(left@),
                    op,
                    quantifier,
                    negated,
                    subquery: Box::new((*subquery)@),
                },
                ParsedExprKind::ApplyValue { index, data_type, nullable } => ParsedExprKindView::ApplyValue {
                    index,
                    data_type: data_type@,
                    nullable,
                },
                ParsedExprKind::Aggregate { function, argument, distinct, filter } => ParsedExprKindView::Aggregate {
                    function,
                    argument: match argument { Some(x) => Some(Box::new((*x)@)), None => None },
                    distinct,
                    filter: match filter { Some(x) => Some(Box::new((*x)@)), None => None },
                },
                ParsedExprKind::Window { call, spec } => ParsedExprKindView::Window { call: Box::new((*call)@), spec: Box::new((*spec)@) },
                ParsedExprKind::NamedWindow { call, name } => ParsedExprKindView::NamedWindow { call: Box::new((*call)@), name: name@ },
                ParsedExprKind::WindowValue { ordinal } => ParsedExprKindView::WindowValue { ordinal },
            },
            position: self.position,
        }
    }

    /// The outermost layer of the value, over the contents of its parts.
    pub open spec fn shape(&self) -> ParsedExprView {
        ParsedExprView {
            kind: self.kind.shape(),
            position: self.position,
        }
    }

    /// The contents of a value are its outermost layer over the contents of its parts.
    pub proof fn unfold(&self)
        ensures
            self@ == self.shape(),
    {
        match self.kind {
            ParsedExprKind::Array { elements, dimensions } => {
                ParsedExpr::lemma_views_in(elements@);
            },
            ParsedExprKind::Function { function, arguments } => {
                ParsedExpr::lemma_views_in(arguments@);
            },
            ParsedExprKind::InList { expr, list, negated } => {
                ParsedExpr::lemma_views_in(list@);
            },
            ParsedExprKind::RowSubquery { left, op, quantifier, negated, subquery } => {
                ParsedExpr::lemma_views_in(left@);
            },
            _ => {},
        }
    }

    /// The contents of each value of a sequence.
    pub open spec fn views(l: Seq<ParsedExpr>) -> Seq<ParsedExprView> {
        Seq::new(l.len(), |i: int| l[i]@)
    }

    closed spec fn views_in(l: Seq<ParsedExpr>) -> Seq<ParsedExprView>
        decreases l,
    {
        Seq::new(l.len(), |i: int| if 0 <= i < l.len() { l[i]@ } else { arbitrary() })
    }

    proof fn lemma_views_in(l: Seq<ParsedExpr>)
        ensures
            ParsedExpr::views_in(l) == ParsedExpr::views(l),
    {
        assert(ParsedExpr::views_in(l) =~= ParsedExpr::views(l));
    }

}

/// A window function call.
#[derive(Debug, PartialEq)]
pub struct ParsedWindowCall {
    pub function: WindowFunction,
    pub arguments: Vec<ParsedExpr>,
    pub count_star: bool,
    pub filter: Option<Box<ParsedExpr>>,
}

/// Mathematical contents of a [`ParsedWindowCall`].
pub struct ParsedWindowCallView {
    pub function: WindowFunction,
    pub arguments: Seq<ParsedExprView>,
    pub count_star: bool,
    pub filter: Option<Box<ParsedExprView>>,
}

impl ParsedWindowCall {
    /// The value as mathematical data.
    pub closed spec fn view(&self) -> ParsedWindowCallView
        decreases self,
    {
        ParsedWindowCallView {
            function: self.function,
            arguments: ParsedExpr::views_in(self.arguments@),
            count_star: self.count_star,
            filter: match self.filter { Some(x) => Some(Box::new((*x)@)), None => None },
        }
    }

    /// The outermost layer of the value, over the contents of its parts.
    pub open spec fn shape(&self) -> ParsedWindowCallView {
        ParsedWindowCallView {
            function: self.function,
            arguments: ParsedExpr::views(self.arguments@),
            count_star: self.count_star,
            filter: match self.filter { Some(x) => Some(Box::new((*x)@)), None => None },
        }
    }

    /// The contents of a value are its outermost layer over the contents of its parts.
    pub proof fn unfold(&self)
        ensures
            self@ == self.shape(),
    {
        ParsedExpr::lemma_views_in(self.arguments@);
    }

}

/// A window definition.
#[derive(Debug, PartialEq)]
pub struct ParsedWindowSpec {
    pub window_name: Option<ParsedIdentifier>,
    pub partition_by: Vec<ParsedExpr>,
    pub order_by: Vec<ParsedOrder>,
    pub frame: Option<ParsedWindowFrame>,
}

/// Mathematical contents of a [`ParsedWindowSpec`].
pub struct ParsedWindowSpecView {
    pub window_name: Option<ParsedIdentifierView>,
    pub partition_by: Seq<ParsedExprView>,
    pub order_by: Seq<ParsedOrderView>,
    pub frame: Option<ParsedWindowFrameView>,
}

impl ParsedWindowSpec {
    /// The value as mathematical data.
    pub closed spec fn view(&self) -> ParsedWindowSpecView
        decreases self,
    {
        ParsedWindowSpecView {
            window_name: match self.window_name { Some(x) => Some(x@), None => None },
            partition_by: ParsedExpr::views_in(self.partition_by@),
            order_by: ParsedOrder::views_in(self.order_by@),
            frame: match self.frame { Some(x) => Some(x@), None => None },
        }
    }

    /// The outermost layer of the value, over the contents of its parts.
    pub open spec fn shape(&self) -> ParsedWindowSpecView {
        ParsedWindowSpecView {
            window_name: match self.window_name { Some(x) => Some(x@), None => None },
            partition_by: ParsedExpr::views(self.partition_by@),
            order_by: ParsedOrder::views(self.order_by@),
            frame: match self.frame { Some(x) => Some(x@), None => None },
        }
    }

    /// The contents of a value are its outermost layer over the contents of its parts.
    pub proof fn unfold(&self)
        ensures
            self@ == self.shape(),
    {
        ParsedExpr::lemma_views_in(self.partition_by@);
        ParsedOrder::lemma_views_in(self.order_by@);
    }

}

/// One end of a window frame.
#[derive(Debug, PartialEq)]
pub enum ParsedWindowFrameBound {
    UnboundedPreceding,
    Preceding(Box<ParsedExpr>),
    CurrentRow,
    Following(Box<ParsedExpr>),
    UnboundedFollowing,
}

/// Mathematical contents of a [`ParsedWindowFrameBound`].
pub enum ParsedWindowFrameBoundView {
    UnboundedPreceding,
    Preceding(Box<ParsedExprView>),
    CurrentRow,
    Following(Box<ParsedExprView>),
    UnboundedFollowing,
}

impl ParsedWindowFrameBound {
    /// The value as mathematical data.
    pub closed spec fn view(&self) -> ParsedWindowFrameBoundView
        decreases self,
    {
        match *self {
            ParsedWindowFrameBound::UnboundedPreceding => ParsedWindowFrameBoundView::UnboundedPreceding,
            ParsedWindowFrameBound::Preceding(f0) => ParsedWindowFrameBoundView::Preceding(Box::new((*f0)@)),
            ParsedWindowFrameBound::CurrentRow => ParsedWindowFrameBoundView::CurrentRow,
            ParsedWindowFrameBound::Following(f0) => ParsedWindowFrameBoundView::Following(Box::new((*f0)@)),
            ParsedWindowFrameBound::UnboundedFollowing => ParsedWindowFrameBoundView::UnboundedFollowing,
        }
    }

    /// The outermost layer of the value, over the contents of its parts.
    pub open spec fn shape(&self) -> ParsedWindowFrameBoundView {
        match *self {
            ParsedWindowFrameBound::UnboundedPreceding => ParsedWindowFrameBoundView::UnboundedPreceding,
            ParsedWindowFrameBound::Preceding(f0) => ParsedWindowFrameBoundView::Preceding(Box::new((*f0)@)),
            ParsedWindowFrameBound::CurrentRow => ParsedWindowFrameBoundView::CurrentRow,
            ParsedWindowFrameBound::Following(f0) => ParsedWindowFrameBoundView::Following(Box::new((*f0)@)),
            ParsedWindowFrameBound::UnboundedFollowing => ParsedWindowFrameBoundView::UnboundedFollowing,
        }
    }

    /// The contents of a value are its outermost layer over the contents of its parts.
    pub proof fn unfold(&self)
        ensures
            self@ == self.shape(),
    {
    }

}

/// A window frame.
#[derive(Debug, PartialEq)]
pub struct ParsedWindowFrame {
    pub units: WindowFrameUnits,
    pub start_bound: ParsedWindowFrameBound,
    pub end_bound: ParsedWindowFrameBound,
}

/// Mathematical contents of a [`ParsedWindowFrame`].
pub struct ParsedWindowFrameView {
    pub units: WindowFrameUnits,
    pub start_bound: ParsedWindowFrameBoundView,
    pub end_bound: ParsedWindowFrameBoundView,
}

impl ParsedWindowFrame {
    /// The value as mathematical data.
    pub closed spec fn view(&self) -> ParsedWindowFrameView
        decreases self,
    {
        ParsedWindowFrameView {
            units: self.units,
            start_bound: self.start_bound@,
            end_bound: self.end_bound@,
        }
    }

    /// The outermost layer of the value, over the contents of its parts.
    pub open spec fn shape(&self) -> ParsedWindowFrameView {
        ParsedWindowFrameView {
            units: self.units,
            start_bound: self.start_bound@,
            end_bound: self.end_bound@,
        }
    }

    /// The contents of a value are its outermost layer over the contents of its parts.
    pub proof fn unfold(&self)
        ensures
            self@ == self.shape(),
    {
    }

}

/// One item of a select list.
#[derive(Debug, PartialEq)]
pub enum ParsedProjection {
    Wildcard,
    Expression {
        expr: ParsedExpr,
        alias: Option<ParsedIdentifier>,
    },
}

/// Mathematical contents of a [`ParsedProjection`].
pub enum ParsedProjectionView {
    Wildcard,
    Expression { expr: ParsedExprView, alias: Option<ParsedIdentifierView> },
}

impl ParsedProjection {
    /// The value as mathematical data.
    pub closed spec fn view(&self) -> ParsedProjectionView
        decreases self,
    {
        match *self {
            ParsedProjection::Wildcard => ParsedProjectionView::Wildcard,
            ParsedProjection::Expression { expr, alias } => ParsedProjectionView::Expression {
                expr: expr@,
                alias: match alias { Some(x) => Some(x@), None => None },
            },
        }
    }

    /// The outermost layer of the value, over the contents of its parts.
    pub open spec fn shape(&self) -> ParsedProjectionView {
        match *self {
            ParsedProjection::Wildcard => ParsedProjectionView::Wildcard,
            ParsedProjection::Expression { expr, alias } => ParsedProjectionView::Expression {
                expr: expr@,
                alias: match alias { Some(x) => Some(x@), None => None },
            },
        }
    }

    /// The contents of a value are its outermost layer over the contents of its parts.
    pub proof fn unfold(&self)
        ensures
            self@ == self.shape(),
    {
    }

    /// The contents of each value of a sequence.
    pub open spec fn views(l: Seq<ParsedProjection>) -> Seq<ParsedProjectionView> {
        Seq::new(l.len(), |i: int| l[i]@)
    }

    closed spec fn views_in(l: Seq<ParsedProjection>) -> Seq<ParsedProjectionView>
        decreases l,
    {
        Seq::new(l.len(), |i: int| if 0 <= i < l.len() { l[i]@ } else { arbitrary() })
    }

    proof fn lemma_views_in(l: Seq<ParsedProjection>)
        ensures
            ParsedProjection::views_in(l) == ParsedProjection::views(l),
    {
        assert(ParsedProjection::views_in(l) =~= ParsedProjection::views(l));
    }

}

/// One item of an ORDER BY list.
#[derive(Debug, PartialEq)]
pub struct ParsedOrder {
    pub expr: ParsedExpr,
    pub ascending: bool,
    pub nulls_first: Option<bool>,
}

/// Mathematical contents of a [`ParsedOrder`].
pub struct ParsedOrderView {
    pub expr: ParsedExprView,
    pub ascending: bool,
    pub nulls_first: Option<bool>,
}

impl ParsedOrder {
    /// The value as mathematical data.
    pub closed spec fn view(&self) -> ParsedOrderView
        decreases self,
    {
        ParsedOrderView {
            expr: self.expr@,
            ascending: self.ascending,
            nulls_first: self.nulls_first,
        }
    }

    /// The outermost layer of the value, over the contents of its parts.
    pub open spec fn shape(&self) -> ParsedOrderView {
        ParsedOrderView {
            expr: self.expr@,
            ascending: self.ascending,
            nulls_first: self.nulls_first,
        }
    }

    /// The contents of a value are its outermost layer over the contents of its parts.
    pub proof fn unfold(&self)
        ensures
            self@ == self.shape(),
    {
    }

    /// The contents of each value of a sequence.
    pub open spec fn views(l: Seq<ParsedOrder>) -> Seq<ParsedOrderView> {
        Seq::new(l.len(), |i: int| l[i]@)
    }

    closed spec fn views_in(l: Seq<ParsedOrder>) -> Seq<ParsedOrderView>
        decreases l,
    {
        Seq::new(l.len(), |i: int| if 0 <= i < l.len() { l[i]@ } else { arbitrary() })
    }

    proof fn lemma_views_in(l: Seq<ParsedOrder>)
        ensures
            ParsedOrder::views_in(l) == ParsedOrder::views(l),
    {
        assert(ParsedOrder::views_in(l) =~= ParsedOrder::views(l));
    }

}

/// One query of a WITH clause.
#[derive(Debug, PartialEq)]
pub struct ParsedCte {
    pub name: ParsedIdentifier,
    pub columns: Vec<ParsedIdentifier>,
    pub query: Box<ParsedStatement>,
}

/// Mathematical contents of a [`ParsedCte`].
pub struct ParsedCteView {
    pub name: ParsedIdentifierView,
    pub columns: Seq<ParsedIdentifierView>,
    pub query: Box<ParsedStatementView>,
}

impl ParsedCte {
    /// The value as mathematical data.
    pub closed spec fn view(&self) -> ParsedCteView
        decreases self,
    {
        ParsedCteView {
            name: self.name@,
            columns: ParsedIdentifier::views(self.columns@),
            query: Box::new((*self.query)@),
        }
    }

    /// The outermost layer of the value, over the contents of its parts.
    pub open spec fn shape(&self) -> ParsedCteView {
        ParsedCteView {
            name: self.name@,
            columns: ParsedIdentifier::views(self.columns@),
            query: Box::new((*self.query)@),
        }
    }

    /// The contents of a value are its outermost layer over the contents of its parts.
    pub proof fn unfold(&self)
        ensures
            self@ == self.shape(),
    {
    }

    /// The contents of each value of a sequence.
    pub open spec fn views(l: Seq<ParsedCte>) -> Seq<ParsedCteView> {
        Seq::new(l.len(), |i: int| l[i]@)
    }

    closed spec fn views_in(l: Seq<ParsedCte>) -> Seq<ParsedCteView>
        decreases l,
    {
        Seq::new(l.len(), |i: int| if 0 <= i < l.len() { l[i]@ } else { arbitrary() })
    }

    proof fn lemma_views_in(l: Seq<ParsedCte>)
        ensures
            ParsedCte::views_in(l) == ParsedCte::views(l),
    {
        assert(ParsedCte::views_in(l) =~= ParsedCte::views(l));
    }

}

/// A default and its written form.
#[derive(Debug, PartialEq)]
pub struct ParsedDefault {
    pub expression: ParsedExpr,
    pub sql: String,
}

/// Mathematical contents of a [`ParsedDefault`].
pub struct ParsedDefaultView {
    pub expression: ParsedExprView,
    pub sql: Seq<char>,
}

impl ParsedDefault {
    /// The value as mathematical data.
    pub closed spec fn view(&self) -> ParsedDefaultView
        decreases self,
    {
        ParsedDefaultView {
            expression: self.expression@,
            sql: self.sql@,
        }
    }

    /// The outermost layer of the value, over the contents of its parts.
    pub open spec fn shape(&self) -> ParsedDefaultView {
        ParsedDefaultView {
            expression: self.expression@,
            sql: self.sql@,
        }
    }

    /// The contents of a value are its outermost layer over the contents of its parts.
    pub proof fn unfold(&self)
        ensures
            self@ == self.shape(),
    {
    }

}

/// A declared column.
#[derive(Debug, PartialEq)]
pub struct ParsedColumn {
    pub name: ParsedIdentifier,
    pub data_type: ScalarType,
    pub declared_type: Option<ParsedObjectName>,
    pub nullable: bool,
    pub primary_key: bool,
    pub unique: bool,
    pub default: Option<ParsedDefault>,
}

/// Mathematical contents of a [`ParsedColumn`].
pub struct ParsedColumnView {
    pub name: ParsedIdentifierView,
    pub data_type: ScalarTypeView,
    pub declared_type: Option<ParsedObjectNameView>,
    pub nullable: bool,
    pub primary_key: bool,
    pub unique: bool,
    pub default: Option<ParsedDefaultView>,
}

impl ParsedColumn {
    /// The value as mathematical data.
    pub closed spec fn view(&self) -> ParsedColumnView
        decreases self,
    {
        ParsedColumnView {
            name: self.name@,
            data_type: self.data_type@,
            declared_type: match self.declared_type { Some(x) => Some(x@), None => None },
            nullable: self.nullable,
            primary_key: self.primary_key,
            unique: self.unique,
            default: match self.default { Some(x) => Some(x@), None => None },
        }
    }

    /// The outermost layer of the value, over the contents of its parts.
    pub open spec fn shape(&self) -> ParsedColumnView {
        ParsedColumnView {
            name: self.name@,
            data_type: self.data_type@,
            declared_type: match self.declared_type { Some(x) => Some(x@), None => None },
            nullable: self.nullable,
            primary_key: self.primary_key,
            unique: self.unique,
            default: match self.default { Some(x) => Some(x@), None => None },
        }
    }

    /// The contents of a value are its outermost layer over the contents of its parts.
    pub proof fn unfold(&self)
        ensures
            self@ == self.shape(),
    {
    }

    /// The contents of each value of a sequence.
    pub open spec fn views(l: Seq<ParsedColumn>) -> Seq<ParsedColumnView> {
        Seq::new(l.len(), |i: int| l[i]@)
    }

    closed spec fn views_in(l: Seq<ParsedColumn>) -> Seq<ParsedColumnView>
        decreases l,
    {
        Seq::new(l.len(), |i: int| if 0 <= i < l.len() { l[i]@ } else { arbitrary() })
    }

    proof fn lemma_views_in(l: Seq<ParsedColumn>)
        ensures
            ParsedColumn::views_in(l) == ParsedColumn::views(l),
    {
        assert(ParsedColumn::views_in(l) =~= ParsedColumn::views(l));
    }

}

/// A declared table constraint.
#[derive(Debug, PartialEq)]
pub enum ParsedTableConstraint {
    PrimaryKey {
        name: Option<ParsedIdentifier>,
        columns: Vec<ParsedIdentifier>,
    },
    Unique {
        name: Option<ParsedIdentifier>,
        columns: Vec<ParsedIdentifier>,
    },
    Check {
        name: Option<ParsedIdentifier>,
        expression: ParsedExpr,
        sql: String,
    },
    ForeignKey {
        name: Option<ParsedIdentifier>,
        columns: Vec<ParsedIdentifier>,
        referenced_table: ParsedObjectName,
        referenced_columns: Vec<ParsedIdentifier>,
        on_delete: ReferentialAction,
        on_update: ReferentialAction,
    },
}

/// Mathematical contents of a [`ParsedTableConstraint`].
pub enum ParsedTableConstraintView {
    PrimaryKey { name: Option<ParsedIdentifierView>, columns: Seq<ParsedIdentifierView> },
    Unique { name: Option<ParsedIdentifierView>, columns: Seq<ParsedIdentifierView> },
    Check { name: Option<ParsedIdentifierView>, expression: ParsedExprView, sql: Seq<char> },
    ForeignKey {
        name: Option<ParsedIdentifierView>,
        columns: Seq<ParsedIdentifierView>,
        referenced_table: ParsedObjectNameView,
        referenced_columns: Seq<ParsedIdentifierView>,
        on_delete: ReferentialAction,
        on_update: ReferentialAction,
    },
}

impl ParsedTableConstraint {
    /// The value as mathematical data.
    pub closed spec fn view(&self) -> ParsedTableConstraintView
        decreases self,
    {
        match *self {
            ParsedTableConstraint::PrimaryKey { name, columns } => ParsedTableConstraintView::PrimaryKey {
                name: match name { Some(x) => Some(x@), None => None },
                columns: ParsedIdentifier::views(columns@),
            },
            ParsedTableConstraint::Unique { name, columns } => ParsedTableConstraintView::Unique {
                name: match name { Some(x) => Some(x@), None => None },
                columns: ParsedIdentifier::views(columns@),
            },
            ParsedTableConstraint::Check { name, expression, sql } => ParsedTableConstraintView::Check {
                name: match name { Some(x) => Some(x@), None => None },
                expression: expression@,
                sql: sql@,
            },
            ParsedTableConstraint::ForeignKey {
                name,
                columns,
                referenced_table,
                referenced_columns,
                on_delete,
                on_update,
            } => ParsedTableConstraintView::ForeignKey {
                name: match name { Some(x) => Some(x@), None => None },
                columns: ParsedIdentifier::views(columns@),
                referenced_table: referenced_table@,
                referenced_columns: ParsedIdentifier::views(referenced_columns@),
                on_delete,
                on_update,
            },
        }
    }

    /// The outermost layer of the value, over the contents of its parts.
    pub open spec fn shape(&self) -> ParsedTableConstraintView {
        match *self {
            ParsedTableConstraint::PrimaryKey { name, columns } => ParsedTableConstraintView::PrimaryKey {
                name: match name { Some(x) => Some(x@), None => None },
                columns: ParsedIdentifier::views(columns@),
            },
            ParsedTableConstraint::Unique { name, columns } => ParsedTableConstraintView::Unique {
                name: match name { Some(x) => Some(x@), None => None },
                columns: ParsedIdentifier::views(columns@),
            },
            ParsedTableConstraint::Check { name, expression, sql } => ParsedTableConstraintView::Check {
                name: match name { Some(x) => Some(x@), None => None },
                expression: expression@,
                sql: sql@,
            },
            ParsedTableConstraint::ForeignKey {
                name,
                columns,
                referenced_table,
                referenced_columns,
                on_delete,
                on_update,
            } => ParsedTableConstraintView::ForeignKey {
                name: match name { Some(x) => Some(x@), None => None },
                columns: ParsedIdentifier::views(columns@),
                referenced_table: referenced_table@,
                referenced_columns: ParsedIdentifier::views(referenced_columns@),
                on_delete,
                on_update,
            },
        }
    }

    /// The contents of a value are its outermost layer over the contents of its parts.
    pub proof fn unfold(&self)
        ensures
            self@ == self.shape(),
    {
    }

    /// The contents of each value of a sequence.
    pub open spec fn views(l: Seq<ParsedTableConstraint>) -> Seq<ParsedTableConstraintView> {
        Seq::new(l.len(), |i: int| l[i]@)
    }

    closed spec fn views_in(l: Seq<ParsedTableConstraint>) -> Seq<ParsedTableConstraintView>
        decreases l,
    {
        Seq::new(l.len(), |i: int| if 0 <= i < l.len() { l[i]@ } else { arbitrary() })
    }

    proof fn lemma_views_in(l: Seq<ParsedTableConstraint>)
        ensures
            ParsedTableConstraint::views_in(l) == ParsedTableConstraint::views(l),
    {
        assert(ParsedTableConstraint::views_in(l) =~= ParsedTableConstraint::views(l));
    }

}

/// One operation of ALTER TABLE.
#[derive(Debug, PartialEq)]
pub enum ParsedAlterTableOperation {
    RenameTable {
        new_name: ParsedIdentifier,
    },
    RenameColumn {
        old_name: ParsedIdentifier,
        new_name: ParsedIdentifier,
    },
    AddColumn {
        column: ParsedColumn,
        if_not_exists: bool,
    },
    DropColumns {
        columns: Vec<ParsedIdentifier>,
        if_exists: bool,
        behavior: DropBehavior,
    },
    SetNotNull {
        column: ParsedIdentifier,
    },
    DropNotNull {
        column: ParsedIdentifier,
    },
    SetDefault {
        column: ParsedIdentifier,
        default: ParsedDefault,
    },
    DropDefault {
        column: ParsedIdentifier,
    },
    SetDataType {
        column: ParsedIdentifier,
        data_type: ScalarType,
        declared_type: Option<ParsedObjectName>,
    },
    AddConstraint {
        constraint: ParsedTableConstraint,
    },
    DropConstraint {
        name: ParsedIdentifier,
        if_exists: bool,
        behavior: DropBehavior,
    },
    SetTriggerEnabled {
        name: ParsedIdentifier,
        enabled: bool,
    },
}

/// Mathematical contents of a [`ParsedAlterTableOperation`].
pub enum ParsedAlterTableOperationView {
    RenameTable { new_name: ParsedIdentifierView },
    RenameColumn { old_name: ParsedIdentifierView, new_name: ParsedIdentifierView },
    AddColumn { column: ParsedColumnView, if_not_exists: bool },
    DropColumns { columns: Seq<ParsedIdentifierView>, if_exists: bool, behavior: DropBehavior },
    SetNotNull { column: ParsedIdentifierView },
    DropNotNull { column: ParsedIdentifierView },
    SetDefault { column: ParsedIdentifierView, default: ParsedDefaultView },
    DropDefault { column: ParsedIdentifierView },
    SetDataType { column: ParsedIdentifierView, data_type: ScalarTypeView, declared_type: Option<ParsedObjectNameView> },
    AddConstraint { constraint: ParsedTableConstraintView },
    DropConstraint { name: ParsedIdentifierView, if_exists: bool, behavior: DropBehavior },
    SetTriggerEnabled { name: ParsedIdentifierView, enabled: bool },
}

impl ParsedAlterTableOperation {
    /// The value as mathematical data.
    pub closed spec fn view(&self) -> ParsedAlterTableOperationView
        decreases self,
    {
        match *self {
            ParsedAlterTableOperation::RenameTable { new_name } => ParsedAlterTableOperationView::RenameTable { new_name: new_name@ },
            ParsedAlterTableOperation::RenameColumn { old_name, new_name } => ParsedAlterTableOperationView::RenameColumn {
                old_name: old_name@,
                new_name: new_name@,
            },
            ParsedAlterTableOperation::AddColumn { column, if_not_exists } => ParsedAlterTableOperationView::AddColumn {
                column: column@,
                if_not_exists,
            },
            ParsedAlterTableOperation::DropColumns { columns, if_exists, behavior } => ParsedAlterTableOperationView::DropColumns {
                columns: ParsedIdentifier::views(columns@),
                if_exists,
                behavior,
            },
            ParsedAlterTableOperation::SetNotNull { column } => ParsedAlterTableOperationView::SetNotNull { column: column@ },
            ParsedAlterTableOperation::DropNotNull { column } => ParsedAlterTableOperationView::DropNotNull { column: column@ },
            ParsedAlterTableOperation::SetDefault { column, default } => ParsedAlterTableOperationView::SetDefault {
                column: column@,
                default: default@,
            },
            ParsedAlterTableOperation::DropDefault { column } => ParsedAlterTableOperationView::DropDefault { column: column@ },
            ParsedAlterTableOperation::SetDataType { column, data_type, declared_type } => ParsedAlterTableOperationView::SetDataType {
                column: column@,
                data_type: data_type@,
                declared_type: match declared_type { Some(x) => Some(x@), None => None },
            },
            ParsedAlterTableOperation::AddConstraint { constraint } => ParsedAlterTableOperationView::AddConstraint {
                constraint: constraint@,
            },
            ParsedAlterTableOperation::DropConstraint { name, if_exists, behavior } => ParsedAlterTableOperationView::DropConstraint {
                name: name@,
                if_exists,
                behavior,
            },
            ParsedAlterTableOperation::SetTriggerEnabled { name, enabled } => ParsedAlterTableOperationView::SetTriggerEnabled {
                name: name@,
                enabled,
            },
        }
    }

    /// The outermost layer of the value, over the contents of its parts.
    pub open spec fn shape(&self) -> ParsedAlterTableOperationView {
        match *self {
            ParsedAlterTableOperation::RenameTable { new_name } => ParsedAlterTableOperationView::RenameTable { new_name: new_name@ },
            ParsedAlterTableOperation::RenameColumn { old_name, new_name } => ParsedAlterTableOperationView::RenameColumn {
                old_name: old_name@,
                new_name: new_name@,
            },
            ParsedAlterTableOperation::AddColumn { column, if_not_exists } => ParsedAlterTableOperationView::AddColumn {
                column: column@,
                if_not_exists,
            },
            ParsedAlterTableOperation::DropColumns { columns, if_exists, behavior } => ParsedAlterTableOperationView::DropColumns {
                columns: ParsedIdentifier::views(columns@),
                if_exists,
                behavior,
            },
            ParsedAlterTableOperation::SetNotNull { column } => ParsedAlterTableOperationView::SetNotNull { column: column@ },
            ParsedAlterTableOperation::DropNotNull { column } => ParsedAlterTableOperationView::DropNotNull { column: column@ },
            ParsedAlterTableOperation::SetDefault { column, default } => ParsedAlterTableOperationView::SetDefault {
                column: column@,
                default: default@,
            },
            ParsedAlterTableOperation::DropDefault { column } => ParsedAlterTableOperationView::DropDefault { column: column@ },
            ParsedAlterTableOperation::SetDataType { column, data_type, declared_type } => ParsedAlterTableOperationView::SetDataType {
                column: column@,
                data_type: data_type@,
                declared_type: match declared_type { Some(x) => Some(x@), None => None },
            },
            ParsedAlterTableOperation::AddConstraint { constraint } => ParsedAlterTableOperationView::AddConstraint {
                constraint: constraint@,
            },
            ParsedAlterTableOperation::DropConstraint { name, if_exists, behavior } => ParsedAlterTableOperationView::DropConstraint {
                name: name@,
                if_exists,
                behavior,
            },
            ParsedAlterTableOperation::SetTriggerEnabled { name, enabled } => ParsedAlterTableOperationView::SetTriggerEnabled {
                name: name@,
                enabled,
            },
        }
    }

    /// The contents of a value are its outermost layer over the contents of its parts.
    pub proof fn unfold(&self)
        ensures
            self@ == self.shape(),
    {
    }

    /// The contents of each value of a sequence.
    pub open spec fn views(l: Seq<ParsedAlterTableOperation>) -> Seq<ParsedAlterTableOperationView> {
        Seq::new(l.len(), |i: int| l[i]@)
    }

    closed spec fn views_in(l: Seq<ParsedAlterTableOperation>) -> Seq<ParsedAlterTableOperationView>
        decreases l,
    {
        Seq::new(l.len(), |i: int| if 0 <= i < l.len() { l[i]@ } else { arbitrary() })
    }

    proof fn lemma_views_in(l: Seq<ParsedAlterTableOperation>)
        ensures
            ParsedAlterTableOperation::views_in(l) == ParsedAlterTableOperation::views(l),
    {
        assert(ParsedAlterTableOperation::views_in(l) =~= ParsedAlterTableOperation::views(l));
    }

}

/// The operation of ALTER DOMAIN.
#[derive(Debug, PartialEq)]
pub enum ParsedAlterDomainOperation {
    SetDefault(ParsedDefault),
    DropDefault,
    SetNotNull,
    DropNotNull,
    AddConstraint(DomainConstraint),
    DropConstraint {
        name: ParsedIdentifier,
        if_exists: bool,
    },
}

/// Mathematical contents of a [`ParsedAlterDomainOperation`].
pub enum ParsedAlterDomainOperationView {
    SetDefault(ParsedDefaultView),
    DropDefault,
    SetNotNull,
    DropNotNull,
    AddConstraint(DomainConstraintView),
    DropConstraint { name: ParsedIdentifierView, if_exists: bool },
}

impl ParsedAlterDomainOperation {
    /// The value as mathematical data.
    pub closed spec fn view(&self) -> ParsedAlterDomainOperationView
        decreases self,
    {
        match *self {
            ParsedAlterDomainOperation::SetDefault(f0) => ParsedAlterDomainOperationView::SetDefault(f0@),
            ParsedAlterDomainOperation::DropDefault => ParsedAlterDomainOperationView::DropDefault,
            ParsedAlterDomainOperation::SetNotNull => ParsedAlterDomainOperationView::SetNotNull,
            ParsedAlterDomainOperation::DropNotNull => ParsedAlterDomainOperationView::DropNotNull,
            ParsedAlterDomainOperation::AddConstraint(f0) => ParsedAlterDomainOperationView::AddConstraint(f0@),
            ParsedAlterDomainOperation::DropConstraint { name, if_exists } => ParsedAlterDomainOperationView::DropConstraint {
                name: name@,
                if_exists,
            },
        }
    }

    /// The outermost layer of the value, over the contents of its parts.
    pub open spec fn shape(&self) -> ParsedAlterDomainOperationView {
        match *self {
            ParsedAlterDomainOperation::SetDefault(f0) => ParsedAlterDomainOperationView::SetDefault(f0@),
            ParsedAlterDomainOperation::DropDefault => ParsedAlterDomainOperationView::DropDefault,
            ParsedAlterDomainOperation::SetNotNull => ParsedAlterDomainOperationView::SetNotNull,
            ParsedAlterDomainOperation::DropNotNull => ParsedAlterDomainOperationView::DropNotNull,
            ParsedAlterDomainOperation::AddConstraint(f0) => ParsedAlterDomainOperationView::AddConstraint(f0@),
            ParsedAlterDomainOperation::DropConstraint { name, if_exists } => ParsedAlterDomainOperationView::DropConstraint {
                name: name@,
                if_exists,
            },
        }
    }

    /// The contents of a value are its outermost layer over the contents of its parts.
    pub proof fn unfold(&self)
        ensures
            self@ == self.shape(),
    {
    }

}

/// The right side of a join.
#[derive(Debug, PartialEq)]
pub enum ParsedJoinSource {
    Table(ParsedTable),
    Derived {
        lateral: bool,
        query: Box<ParsedStatement>,
        alias: ParsedIdentifier,
        columns: Vec<ParsedIdentifier>,
    },
}

/// Mathematical contents of a [`ParsedJoinSource`].
pub enum ParsedJoinSourceView {
    Table(ParsedTableView),
    Derived { lateral: bool, query: Box<ParsedStatementView>, alias: ParsedIdentifierView, columns: Seq<ParsedIdentifierView> },
}

impl ParsedJoinSource {
    /// The value as mathematical data.
    pub closed spec fn view(&self) -> ParsedJoinSourceView
        decreases self,
    {
        match *self {
            ParsedJoinSource::Table(f0) => ParsedJoinSourceView::Table(f0@),
            ParsedJoinSource::Derived { lateral, query, alias, columns } => ParsedJoinSourceView::Derived {
                lateral,
                query: Box::new((*query)@),
                alias: alias@,
                columns: ParsedIdentifier::views(columns@),
            },
        }
    }

    /// The outermost layer of the value, over the contents of its parts.
    pub open spec fn shape(&self) -> ParsedJoinSourceView {
        match *self {
            ParsedJoinSource::Table(f0) => ParsedJoinSourceView::Table(f0@),
            ParsedJoinSource::Derived { lateral, query, alias, columns } => ParsedJoinSourceView::Derived {
                lateral,
                query: Box::new((*query)@),
                alias: alias@,
                columns: ParsedIdentifier::views(columns@),
            },
        }
    }

    /// The contents of a value are its outermost layer over the contents of its parts.
    pub proof fn unfold(&self)
        ensures
            self@ == self.shape(),
    {
    }

}

/// A join.
#[derive(Debug, PartialEq)]
pub struct ParsedJoin {
    pub source: ParsedJoinSource,
    pub kind: JoinKind,
    pub on: ParsedExpr,
}

/// Mathematical contents of a [`ParsedJoin`].
pub struct ParsedJoinView {
    pub source: ParsedJoinSourceView,
    pub kind: JoinKind,
    pub on: ParsedExprView,
}

impl ParsedJoin {
    /// The value as mathematical data.
    pub closed spec fn view(&self) -> ParsedJoinView
        decreases self,
    {
        ParsedJoinView {
            source: self.source@,
            kind: self.kind,
            on: self.on@,
        }
    }

    /// The outermost layer of the value, over the contents of its parts.
    pub open spec fn shape(&self) -> ParsedJoinView {
        ParsedJoinView {
            source: self.source@,
            kind: self.kind,
            on: self.on@,
        }
    }

    /// The contents of a value are its outermost layer over the contents of its parts.
    pub proof fn unfold(&self)
        ensures
            self@ == self.shape(),
    {
    }

    /// The contents of each value of a sequence.
    pub open spec fn views(l: Seq<ParsedJoin>) -> Seq<ParsedJoinView> {
        Seq::new(l.len(), |i: int| l[i]@)
    }

    closed spec fn views_in(l: Seq<ParsedJoin>) -> Seq<ParsedJoinView>
        decreases l,
    {
        Seq::new(l.len(), |i: int| if 0 <= i < l.len() { l[i]@ } else { arbitrary() })
    }

    proof fn lemma_views_in(l: Seq<ParsedJoin>)
        ensures
            ParsedJoin::views_in(l) == ParsedJoin::views(l),
    {
        assert(ParsedJoin::views_in(l) =~= ParsedJoin::views(l));
    }

}

/// What ON CONFLICT does.
#[derive(Debug, PartialEq)]
pub enum ParsedConflictAction {
    DoNothing,
    DoUpdate {
        assignments: Vec<(ParsedIdentifier, ParsedExpr)>,
        filter: Option<ParsedExpr>,
    },
}

/// Mathematical contents of a [`ParsedConflictAction`].
pub enum ParsedConflictActionView {
    DoNothing,
    DoUpdate { assignments: Seq<(ParsedIdentifierView, ParsedExprView)>, filter: Option<ParsedExprView> },
}

impl ParsedConflictAction {
    /// The value as mathematical data.
    pub closed spec fn view(&self) -> ParsedConflictActionView
        decreases self,
    {
        match *self {
            ParsedConflictAction::DoNothing => ParsedConflictActionView::DoNothing,
            ParsedConflictAction::DoUpdate { assignments, filter } => ParsedConflictActionView::DoUpdate {
                assignments: assignment_views_in(assignments@),
                filter: match filter { Some(x) => Some(x@), None => None },
            },
        }
    }

    /// The outermost layer of the value, over the contents of its parts.
    pub open spec fn shape(&self) -> ParsedConflictActionView {
        match *self {
            ParsedConflictAction::DoNothing => ParsedConflictActionView::DoNothing,
            ParsedConflictAction::DoUpdate { assignments, filter } => ParsedConflictActionView::DoUpdate {
                assignments: assignment_views(assignments@),
                filter: match filter { Some(x) => Some(x@), None => None },
            },
        }
    }

    /// The contents of a value are its outermost layer over the contents of its parts.
    pub proof fn unfold(&self)
        ensures
            self@ == self.shape(),
    {
        match *self {
            ParsedConflictAction::DoUpdate { assignments, filter } => {
                lemma_assignment_views_in(assignments@);
            },
            _ => {},
        }
    }

}

/// An ON CONFLICT clause.
#[derive(Debug, PartialEq)]
pub struct ParsedOnConflict {
    pub target: Option<ParsedConflictTarget>,
    pub action: ParsedConflictAction,
}

/// Mathematical contents of a [`ParsedOnConflict`].
pub struct ParsedOnConflictView {
    pub target: Option<ParsedConflictTargetView>,
    pub action: ParsedConflictActionView,
}

impl ParsedOnConflict {
    /// The value as mathematical data.
    pub closed spec fn view(&self) -> ParsedOnConflictView
        decreases self,
    {
        ParsedOnConflictView {
            target: match self.target { Some(x) => Some(x@), None => None },
            action: self.action@,
        }
    }

    /// The outermost layer of the value, over the contents of its parts.
    pub open spec fn shape(&self) -> ParsedOnConflictView {
        ParsedOnConflictView {
            target: match self.target { Some(x) => Some(x@), None => None },
            action: self.action@,
        }
    }

    /// The contents of a value are its outermost layer over the contents of its parts.
    pub proof fn unfold(&self)
        ensures
            self@ == self.shape(),
    {
    }

}

/// What a MERGE clause does.
#[derive(Debug, PartialEq)]
pub enum ParsedMergeAction {
    Update {
        assignments: Vec<(ParsedIdentifier, ParsedExpr)>,
    },
    Delete,
    Insert {
        columns: Vec<ParsedIdentifier>,
        values: Vec<ParsedExpr>,
    },
    DoNothing,
}

/// Mathematical contents of a [`ParsedMergeAction`].
pub enum ParsedMergeActionView {
    Update { assignments: Seq<(ParsedIdentifierView, ParsedExprView)> },
    Delete,
    Insert { columns: Seq<ParsedIdentifierView>, values: Seq<ParsedExprView> },
    DoNothing,
}

impl ParsedMergeAction {
    /// The value as mathematical data.
    pub closed spec fn view(&self) -> ParsedMergeActionView
        decreases self,
    {
        match *self {
            ParsedMergeAction::Update { assignments } => ParsedMergeActionView::Update { assignments: assignment_views_in(assignments@) },
            ParsedMergeAction::Delete => ParsedMergeActionView::Delete,
            ParsedMergeAction::Insert { columns, values } => ParsedMergeActionView::Insert {
                columns: ParsedIdentifier::views(columns@),
                values: ParsedExpr::views_in(values@),
            },
            ParsedMergeAction::DoNothing => ParsedMergeActionView::DoNothing,
        }
    }

    /// The outermost layer of the value, over the contents of its parts.
    pub open spec fn shape(&self) -> ParsedMergeActionView {
        match *self {
            ParsedMergeAction::Update { assignments } => ParsedMergeActionView::Update { assignments: assignment_views(assignments@) },
            ParsedMergeAction::Delete => ParsedMergeActionView::Delete,
            ParsedMergeAction::Insert { columns, values } => ParsedMergeActionView::Insert {
                columns: ParsedIdentifier::views(columns@),
                values: ParsedExpr::views(values@),
            },
            ParsedMergeAction::DoNothing => ParsedMergeActionView::DoNothing,
        }
    }

    /// The contents of a value are its outermost layer over the contents of its parts.
    pub proof fn unfold(&self)
        ensures
            self@ == self.shape(),
    {
        match *self {
            ParsedMergeAction::Update { assignments } => {
                lemma_assignment_views_in(assignments@);
            },
            ParsedMergeAction::Insert { columns, values } => {
                ParsedExpr::lemma_views_in(values@);
            },
            _ => {},
        }
    }

}

/// A WHEN clause of MERGE.
#[derive(Debug, PartialEq)]
pub struct ParsedMergeClause {
    pub kind: ParsedMergeClauseKind,
    pub predicate: Option<ParsedExpr>,
    pub action: ParsedMergeAction,
}

/// Mathematical contents of a [`ParsedMergeClause`].
pub struct ParsedMergeClauseView {
    pub kind: ParsedMergeClauseKind,
    pub predicate: Option<ParsedExprView>,
    pub action: ParsedMergeActionView,
}

impl ParsedMergeClause {
    /// The value as mathematical data.
    pub closed spec fn view(&self) -> ParsedMergeClauseView
        decreases self,
    {
        ParsedMergeClauseView {
            kind: self.kind,
            predicate: match self.predicate { Some(x) => Some(x@), None => None },
            action: self.action@,
        }
    }

    /// The outermost layer of the value, over the contents of its parts.
    pub open spec fn shape(&self) -> ParsedMergeClauseView {
        ParsedMergeClauseView {
            kind: self.kind,
            predicate: match self.predicate { Some(x) => Some(x@), None => None },
            action: self.action@,
        }
    }

    /// The contents of a value are its outermost layer over the contents of its parts.
    pub proof fn unfold(&self)
        ensures
            self@ == self.shape(),
    {
    }

    /// The contents of each value of a sequence.
    pub open spec fn views(l: Seq<ParsedMergeClause>) -> Seq<ParsedMergeClauseView> {
        Seq::new(l.len(), |i: int| l[i]@)
    }

    closed spec fn views_in(l: Seq<ParsedMergeClause>) -> Seq<ParsedMergeClauseView>
        decreases l,
    {
        Seq::new(l.len(), |i: int| if 0 <= i < l.len() { l[i]@ } else { arbitrary() })
    }

    proof fn lemma_views_in(l: Seq<ParsedMergeClause>)
        ensures
            ParsedMergeClause::views_in(l) == ParsedMergeClause::views(l),
    {
        assert(ParsedMergeClause::views_in(l) =~= ParsedMergeClause::views(l));
    }

}

/// A MERGE statement.
#[derive(Debug, PartialEq)]
pub struct ParsedMerge {
    pub target: ParsedTable,
    pub source: ParsedTable,
    pub on: ParsedExpr,
    pub clauses: Vec<ParsedMergeClause>,
    pub returning: Vec<ParsedProjection>,
}

/// Mathematical contents of a [`ParsedMerge`].
pub struct ParsedMergeView {
    pub target: ParsedTableView,
    pub source: ParsedTableView,
    pub on: ParsedExprView,
    pub clauses: Seq<ParsedMergeClauseView>,
    pub returning: Seq<ParsedProjectionView>,
}

impl ParsedMerge {
    /// The value as mathematical data.
    pub closed spec fn view(&self) -> ParsedMergeView
        decreases self,
    {
        ParsedMergeView {
            target: self.target@,
            source: self.source@,
            on: self.on@,
            clauses: ParsedMergeClause::views_in(self.clauses@),
            returning: ParsedProjection::views_in(self.returning@),
        }
    }

    /// The outermost layer of the value, over the contents of its parts.
    pub open spec fn shape(&self) -> ParsedMergeView {
        ParsedMergeView {
            target: self.target@,
            source: self.source@,
            on: self.on@,
            clauses: ParsedMergeClause::views(self.clauses@),
            returning: ParsedProjection::views(self.returning@),
        }
    }

    /// The contents of a value are its outermost layer over the contents of its parts.
    pub proof fn unfold(&self)
        ensures
            self@ == self.shape(),
    {
        ParsedMergeClause::lemma_views_in(self.clauses@);
        ParsedProjection::lemma_views_in(self.returning@);
    }

}

/// An operation on a sequence.
#[derive(Debug, PartialEq)]
pub enum ParsedSequenceOperation {
    NextValue,
    CurrentValue,
    SetValue { value: ParsedExpr, is_called: bool },
}

/// Mathematical contents of a [`ParsedSequenceOperation`].
pub enum ParsedSequenceOperationView {
    NextValue,
    CurrentValue,
    SetValue { value: ParsedExprView, is_called: bool },
}

impl ParsedSequenceOperation {
    /// The value as mathematical data.
    pub closed spec fn view(&self) -> ParsedSequenceOperationView
        decreases self,
    {
        match *self {
            ParsedSequenceOperation::NextValue => ParsedSequenceOperationView::NextValue,
            ParsedSequenceOperation::CurrentValue => ParsedSequenceOperationView::CurrentValue,
            ParsedSequenceOperation::SetValue { value, is_called } => ParsedSequenceOperationView::SetValue { value: value@, is_called },
        }
    }

    /// The outermost layer of the value, over the contents of its parts.
    pub open spec fn shape(&self) -> ParsedSequenceOperationView {
        match *self {
            ParsedSequenceOperation::NextValue => ParsedSequenceOperationView::NextValue,
            ParsedSequenceOperation::CurrentValue => ParsedSequenceOperationView::CurrentValue,
            ParsedSequenceOperation::SetValue { value, is_called } => ParsedSequenceOperationView::SetValue { value: value@, is_called },
        }
    }

    /// The contents of a value are its outermost layer over the contents of its parts.
    pub proof fn unfold(&self)
        ensures
            self@ == self.shape(),
    {
    }

}

/// A statement.
#[derive(Debug, PartialEq)]
pub enum ParsedStatement {
    Begin {
        characteristics: TransactionCharacteristics,
    },
    Commit {
        chain: TransactionChain,
    },
    Rollback {
        chain: TransactionChain,
    },
    Savepoint {
        name: ParsedIdentifier,
    },
    RollbackTo {
        name: ParsedIdentifier,
    },
    ReleaseSavepoint {
        name: ParsedIdentifier,
    },
    Analyze {
        table: Option<ParsedObjectName>,
    },
    Vacuum {
        table: Option<ParsedObjectName>,
        analyze: bool,
    },
    Reindex {
        target: ParsedReindexTarget,
    },
    Listen {
        channel: ParsedIdentifier,
    },
    Unlisten {
        channel: Option<ParsedIdentifier>,
    },
    Notify {
        channel: ParsedIdentifier,
        payload: String,
    },
    Do {
        body: String,
    },
    DiscardAll,
    DeallocateAll,
    CreateSchema {
        name: ParsedIdentifier,
        if_not_exists: bool,
    },
    CreateEnumType {
        name: ParsedObjectName,
        labels: Vec<String>,
    },
    CreateDomain {
        name: ParsedObjectName,
        base_type: ScalarType,
        base_declared_type: Option<ParsedObjectName>,
        not_null: bool,
        default: Option<ParsedDefault>,
        checks: Vec<DomainConstraint>,
    },
    AlterEnumAddValue {
        name: ParsedObjectName,
        label: String,
        position: Option<EnumValuePosition>,
        if_not_exists: bool,
    },
    AlterEnumRenameValue {
        name: ParsedObjectName,
        old_label: String,
        new_label: String,
    },
    AlterDomain {
        name: ParsedObjectName,
        operation: ParsedAlterDomainOperation,
    },
    AlterSchemaRename {
        name: ParsedIdentifier,
        new_name: ParsedIdentifier,
        if_exists: bool,
    },
    DropObjects {
        kind: DdlObjectKind,
        names: Vec<ParsedObjectName>,
        if_exists: bool,
        behavior: DropBehavior,
    },
    CreateTable {
        name: ParsedObjectName,
        columns: Vec<ParsedColumn>,
        constraints: Vec<ParsedTableConstraint>,
        if_not_exists: bool,
    },
    AlterTable {
        name: ParsedObjectName,
        if_exists: bool,
        operations: Vec<ParsedAlterTableOperation>,
    },
    CreateIndex(ParsedCreateIndex),
    AlterIndexRename {
        name: ParsedObjectName,
        new_name: ParsedIdentifier,
    },
    CreateSequence {
        name: ParsedObjectName,
        sequence: NewSequence,
        if_not_exists: bool,
        owner: Option<(ParsedObjectName, ParsedIdentifier)>,
    },
    AlterSequenceRename {
        name: ParsedObjectName,
        if_exists: bool,
        new_name: ParsedIdentifier,
    },
    AlterSequence {
        name: ParsedObjectName,
        if_exists: bool,
        options: ParsedAlterSequence,
    },
    CreateView {
        name: ParsedObjectName,
        kind: ViewKind,
        query: Box<ParsedStatement>,
        query_sql: String,
        columns: Vec<ParsedIdentifier>,
        replace: bool,
        if_not_exists: bool,
        with_data: bool,
    },
    AlterViewRename {
        name: ParsedObjectName,
        kind: ViewKind,
        if_exists: bool,
        new_name: ParsedIdentifier,
    },
    RefreshMaterializedView {
        name: ParsedObjectName,
        with_data: bool,
    },
    CreateRoutine {
        name: ParsedObjectName,
        kind: RoutineKind,
        arguments: Vec<ParsedRoutineArgument>,
        return_type: Option<ScalarType>,
        return_declared_type: Option<ParsedObjectName>,
        returns_set: bool,
        language: String,
        body: String,
        replace: bool,
    },
    DropRoutine {
        name: ParsedObjectName,
        kind: RoutineKind,
        argument_types: Option<Vec<ParsedRoutineArgument>>,
        if_exists: bool,
        behavior: DropBehavior,
    },
    Call {
        name: ParsedObjectName,
        arguments: Vec<ParsedExpr>,
    },
    ScalarSelect {
        projection: Vec<ParsedProjection>,
    },
    RoutineSelect {
        name: ParsedObjectName,
        arguments: Vec<ParsedExpr>,
        alias: Option<ParsedIdentifier>,
    },
    PgNotify {
        channel: ParsedExpr,
        payload: ParsedExpr,
        alias: Option<ParsedIdentifier>,
    },
    SequenceValue {
        name: ParsedObjectName,
        operation: ParsedSequenceOperation,
        alias: Option<ParsedIdentifier>,
    },
    CreateTrigger {
        name: ParsedIdentifier,
        table: ParsedObjectName,
        timing: TriggerTiming,
        level: TriggerLevel,
        events: Vec<TriggerEvent>,
        routine: ParsedObjectName,
    },
    DropTrigger {
        name: ParsedIdentifier,
        table: ParsedObjectName,
        if_exists: bool,
        behavior: DropBehavior,
    },
    Insert {
        table: ParsedObjectName,
        columns: Vec<ParsedIdentifier>,
        rows: Vec<Vec<ParsedExpr>>,
        on_conflict: Option<ParsedOnConflict>,
        returning: Vec<ParsedProjection>,
    },
    Merge(ParsedMerge),
    With {
        recursive: bool,
        ctes: Vec<ParsedCte>,
        body: Box<ParsedStatement>,
    },
    SetOperation {
        left: Box<ParsedStatement>,
        operator: QuerySetOperator,
        all: bool,
        right: Box<ParsedStatement>,
        order_by: Vec<ParsedOrder>,
        offset: Option<ParsedExpr>,
        limit: Option<ParsedExpr>,
    },
    Select {
        table: ParsedObjectName,
        projection: Vec<ParsedProjection>,
        filter: Option<ParsedExpr>,
        order_by: Vec<ParsedOrder>,
        offset: Option<ParsedExpr>,
        limit: Option<ParsedExpr>,
    },
    AdvancedSelect {
        table: ParsedTable,
        joins: Vec<ParsedJoin>,
        projection: Vec<ParsedProjection>,
        distinct: bool,
        filter: Option<ParsedExpr>,
        group_by: Vec<ParsedExpr>,
        having: Option<ParsedExpr>,
        order_by: Vec<ParsedOrder>,
        offset: Option<ParsedExpr>,
        limit: Option<ParsedExpr>,
    },
    Explain {
        statement: Box<ParsedStatement>,
    },
    Update {
        table: ParsedObjectName,
        assignments: Vec<(ParsedIdentifier, ParsedExpr)>,
        filter: Option<ParsedExpr>,
        returning: Vec<ParsedProjection>,
    },
    Delete {
        table: ParsedObjectName,
        filter: Option<ParsedExpr>,
        returning: Vec<ParsedProjection>,
    },
}

/// Mathematical contents of a [`ParsedStatement`].
pub enum ParsedStatementView {
    Begin { characteristics: TransactionCharacteristics },
    Commit { chain: TransactionChain },
    Rollback { chain: TransactionChain },
    Savepoint { name: ParsedIdentifierView },
    RollbackTo { name: ParsedIdentifierView },
    ReleaseSavepoint { name: ParsedIdentifierView },
    Analyze { table: Option<ParsedObjectNameView> },
    Vacuum { table: Option<ParsedObjectNameView>, analyze: bool },
    Reindex { target: ParsedReindexTargetView },
    Listen { channel: ParsedIdentifierView },
    Unlisten { channel: Option<ParsedIdentifierView> },
    Notify { channel: ParsedIdentifierView, payload: Seq<char> },
    Do { body: Seq<char> },
    DiscardAll,
    DeallocateAll,
    CreateSchema { name: ParsedIdentifierView, if_not_exists: bool },
    CreateEnumType { name: ParsedObjectNameView, labels: Seq<Seq<char>> },
    CreateDomain {
        name: ParsedObjectNameView,
        base_type: ScalarTypeView,
        base_declared_type: Option<ParsedObjectNameView>,
        not_null: bool,
        default: Option<ParsedDefaultView>,
        checks: Seq<DomainConstraintView>,
    },
    AlterEnumAddValue { name: ParsedObjectNameView, label: Seq<char>, position: Option<EnumValuePositionView>, if_not_exists: bool },
    AlterEnumRenameValue { name: ParsedObjectNameView, old_label: Seq<char>, new_label: Seq<char> },
    AlterDomain { name: ParsedObjectNameView, operation: ParsedAlterDomainOperationView },
    AlterSchemaRename { name: ParsedIdentifierView, new_name: ParsedIdentifierView, if_exists: bool },
    DropObjects { kind: DdlObjectKind, names: Seq<ParsedObjectNameView>, if_exists: bool, behavior: DropBehavior },
    CreateTable {
        name: ParsedObjectNameView,
        columns: Seq<ParsedColumnView>,
        constraints: Seq<ParsedTableConstraintView>,
        if_not_exists: bool,
    },
    AlterTable { name: ParsedObjectNameView, if_exists: bool, operations: Seq<ParsedAlterTableOperationView> },
    CreateIndex(ParsedCreateIndexView),
    AlterIndexRename { name: ParsedObjectNameView, new_name: ParsedIdentifierView },
    CreateSequence {
        name: ParsedObjectNameView,
        sequence: NewSequenceView,
        if_not_exists: bool,
        owner: Option<(ParsedObjectNameView, ParsedIdentifierView)>,
    },
    AlterSequenceRename { name: ParsedObjectNameView, if_exists: bool, new_name: ParsedIdentifierView },
    AlterSequence { name: ParsedObjectNameView, if_exists: bool, options: ParsedAlterSequenceView },
    CreateView {
        name: ParsedObjectNameView,
        kind: ViewKind,
        query: Box<ParsedStatementView>,
        query_sql: Seq<char>,
        columns: Seq<ParsedIdentifierView>,
        replace: bool,
        if_not_exists: bool,
        with_data: bool,
    },
    AlterViewRename { name: ParsedObjectNameView, kind: ViewKind, if_exists: bool, new_name: ParsedIdentifierView },
    RefreshMaterializedView { name: ParsedObjectNameView, with_data: bool },
    CreateRoutine {
        name: ParsedObjectNameView,
        kind: RoutineKind,
        arguments: Seq<ParsedRoutineArgumentView>,
        return_type: Option<ScalarTypeView>,
        return_declared_type: Option<ParsedObjectNameView>,
        returns_set: bool,
        language: Seq<char>,
        body: Seq<char>,
        replace: bool,
    },
    DropRoutine {
        name: ParsedObjectNameView,
        kind: RoutineKind,
        argument_types: Option<Seq<ParsedRoutineArgumentView>>,
        if_exists: bool,
        behavior: DropBehavior,
    },
    Call { name: ParsedObjectNameView, arguments: Seq<ParsedExprView> },
    ScalarSelect { projection: Seq<ParsedProjectionView> },
    RoutineSelect { name: ParsedObjectNameView, arguments: Seq<ParsedExprView>, alias: Option<ParsedIdentifierView> },
    PgNotify { channel: ParsedExprView, payload: ParsedExprView, alias: Option<ParsedIdentifierView> },
    SequenceValue { name: ParsedObjectNameView, operation: ParsedSequenceOperationView, alias: Option<ParsedIdentifierView> },
    CreateTrigger {
        name: ParsedIdentifierView,
        table: ParsedObjectNameView,
        timing: TriggerTiming,
        level: TriggerLevel,
        events: Seq<TriggerEvent>,
        routine: ParsedObjectNameView,
    },
    DropTrigger { name: ParsedIdentifierView, table: ParsedObjectNameView, if_exists: bool, behavior: DropBehavior },
    Insert {
        table: ParsedObjectNameView,
        columns: Seq<ParsedIdentifierView>,
        rows: Seq<Seq<ParsedExprView>>,
        on_conflict: Option<ParsedOnConflictView>,
        returning: Seq<ParsedProjectionView>,
    },
    Merge(ParsedMergeView),
    With { recursive: bool, ctes: Seq<ParsedCteView>, body: Box<ParsedStatementView> },
    SetOperation {
        left: Box<ParsedStatementView>,
        operator: QuerySetOperator,
        all: bool,
        right: Box<ParsedStatementView>,
        order_by: Seq<ParsedOrderView>,
        offset: Option<ParsedExprView>,
        limit: Option<ParsedExprView>,
    },
    Select {
        table: ParsedObjectNameView,
        projection: Seq<ParsedProjectionView>,
        filter: Option<ParsedExprView>,
        order_by: Seq<ParsedOrderView>,
        offset: Option<ParsedExprView>,
        limit: Option<ParsedExprView>,
    },
    AdvancedSelect {
        table: ParsedTableView,
        joins: Seq<ParsedJoinView>,
        projection: Seq<ParsedProjectionView>,
        distinct: bool,
        filter: Option<ParsedExprView>,
        group_by: Seq<ParsedExprView>,
        having: Option<ParsedExprView>,
        order_by: Seq<ParsedOrderView>,
        offset: Option<ParsedExprView>,
        limit: Option<ParsedExprView>,
    },
    Explain { statement: Box<ParsedStatementView> },
    Update {
        table: ParsedObjectNameView,
        assignments: Seq<(ParsedIdentifierView, ParsedExprView)>,
        filter: Option<ParsedExprView>,
        returning: Seq<ParsedProjectionView>,
    },
    Delete { table: ParsedObjectNameView, filter: Option<ParsedExprView>, returning: Seq<ParsedProjectionView> },
}

impl ParsedStatement {
    /// The value as mathematical data.
    pub closed spec fn view(&self) -> ParsedStatementView
        decreases self,
    {
        match *self {
            ParsedStatement::Begin { characteristics } => ParsedStatementView::Begin { characteristics },
            ParsedStatement::Commit { chain } => ParsedStatementView::Commit { chain },
            ParsedStatement::Rollback { chain } => ParsedStatementView::Rollback { chain },
            ParsedStatement::Savepoint { name } => ParsedStatementView::Savepoint { name: name@ },
            ParsedStatement::RollbackTo { name } => ParsedStatementView::RollbackTo { name: name@ },
            ParsedStatement::ReleaseSavepoint { name } => ParsedStatementView::ReleaseSavepoint { name: name@ },
            ParsedStatement::Analyze { table } => ParsedStatementView::Analyze { table: match table { Some(x) => Some(x@), None => None } },
            ParsedStatement::Vacuum { table, analyze } => ParsedStatementView::Vacuum {
                table: match table { Some(x) => Some(x@), None => None },
                analyze,
            },
            ParsedStatement::Reindex { target } => ParsedStatementView::Reindex { target: target@ },
            ParsedStatement::Listen { channel } => ParsedStatementView::Listen { channel: channel@ },
            ParsedStatement::Unlisten { channel } => ParsedStatementView::Unlisten {
                channel: match channel { Some(x) => Some(x@), None => None },
            },
            ParsedStatement::Notify { channel, payload } => ParsedStatementView::Notify { channel: channel@, payload: payload@ },
            ParsedStatement::Do { body } => ParsedStatementView::Do { body: body@ },
            ParsedStatement::DiscardAll => ParsedStatementView::DiscardAll,
            ParsedStatement::DeallocateAll => ParsedStatementView::DeallocateAll,
            ParsedStatement::CreateSchema { name, if_not_exists } => ParsedStatementView::CreateSchema { name: name@, if_not_exists },
            ParsedStatement::CreateEnumType { name, labels } => ParsedStatementView::CreateEnumType {
                name: name@,
                labels: strings(labels@),
            },
            ParsedStatement::CreateDomain {
                name,
                base_type,
                base_declared_type,
                not_null,
                default,
                checks,
            } => ParsedStatementView::CreateDomain {
                name: name@,
                base_type: base_type@,
                base_declared_type: match base_declared_type { Some(x) => Some(x@), None => None },
                not_null,
                default: match default { Some(x) => Some(x@), None => None },
                checks: DomainConstraint::views(checks@),
            },
            ParsedStatement::AlterEnumAddValue { name, label, position, if_not_exists } => ParsedStatementView::AlterEnumAddValue {
                name: name@,
                label: label@,
                position: match position { Some(x) => Some(x@), None => None },
                if_not_exists,
            },
            ParsedStatement::AlterEnumRenameValue { name, old_label, new_label } => ParsedStatementView::AlterEnumRenameValue {
                name: name@,
                old_label: old_label@,
                new_label: new_label@,
            },
            ParsedStatement::AlterDomain { name, operation } => ParsedStatementView::AlterDomain { name: name@, operation: operation@ },
            ParsedStatement::AlterSchemaRename { name, new_name, if_exists } => ParsedStatementView::AlterSchemaRename {
                name: name@,
                new_name: new_name@,
                if_exists,
            },
            ParsedStatement::DropObjects { kind, names, if_exists, behavior } => ParsedStatementView::DropObjects {
                kind,
                names: ParsedObjectName::views(names@),
                if_exists,
                behavior,
            },
            ParsedStatement::CreateTable { name, columns, constraints, if_not_exists } => ParsedStatementView::CreateTable {
                name: name@,
                columns: ParsedColumn::views_in(columns@),
                constraints: ParsedTableConstraint::views_in(constraints@),
                if_not_exists,
            },
            ParsedStatement::AlterTable { name, if_exists, operations } => ParsedStatementView::AlterTable {
                name: name@,
                if_exists,
                operations: ParsedAlterTableOperation::views_in(operations@),
            },
            ParsedStatement::CreateIndex(f0) => ParsedStatementView::CreateIndex(f0@),
            ParsedStatement::AlterIndexRename { name, new_name } => ParsedStatementView::AlterIndexRename {
                name: name@,
                new_name: new_name@,
            },
            ParsedStatement::CreateSequence { name, sequence, if_not_exists, owner } => ParsedStatementView::CreateSequence {
                name: name@,
                sequence: sequence@,
                if_not_exists,
                owner: match owner { Some(x) => Some((x.0@, x.1@)), None => None },
            },
            ParsedStatement::AlterSequenceRename { name, if_exists, new_name } => ParsedStatementView::AlterSequenceRename {
                name: name@,
                if_exists,
                new_name: new_name@,
            },
            ParsedStatement::AlterSequence { name, if_exists, options } => ParsedStatementView::AlterSequence {
                name: name@,
                if_exists,
                options: options@,
            },
            ParsedStatement::CreateView {
                name,
                kind,
                query,
                query_sql,
                columns,
                replace,
                if_not_exists,
                with_data,
            } => ParsedStatementView::CreateView {
                name: name@,
                kind,
                query: Box::new((*query)@),
                query_sql: query_sql@,
                columns: ParsedIdentifier::views(columns@),
                replace,
                if_not_exists,
                with_data,
            },
            ParsedStatement::AlterViewRename { name, kind, if_exists, new_name } => ParsedStatementView::AlterViewRename {
                name: name@,
                kind,
                if_exists,
                new_name: new_name@,
            },
            ParsedStatement::RefreshMaterializedView { name, with_data } => ParsedStatementView::RefreshMaterializedView {
                name: name@,
                with_data,
            },
            ParsedStatement::CreateRoutine {
                name,
                kind,
                arguments,
                return_type,
                return_declared_type,
                returns_set,
                language,
                body,
                replace,
            } => ParsedStatementView::CreateRoutine {
                name: name@,
                kind,
                arguments: ParsedRoutineArgument::views(arguments@),
                return_type: match return_type { Some(x) => Some(x@), None => None },
                return_declared_type: match return_declared_type { Some(x) => Some(x@), None => None },
                returns_set,
                language: language@,
                body: body@,
                replace,
            },
            ParsedStatement::DropRoutine { name, kind, argument_types, if_exists, behavior } => ParsedStatementView::DropRoutine {
                name: name@,
                kind,
                argument_types: match argument_types { Some(x) => Some(ParsedRoutineArgument::views(x@)), None => None },
                if_exists,
                behavior,
            },
            ParsedStatement::Call { name, arguments } => ParsedStatementView::Call {
                name: name@,
                arguments: ParsedExpr::views_in(arguments@),
            },
            ParsedStatement::ScalarSelect { projection } => ParsedStatementView::ScalarSelect {
                projection: ParsedProjection::views_in(projection@),
            },
            ParsedStatement::RoutineSelect { name, arguments, alias } => ParsedStatementView::RoutineSelect {
                name: name@,
                arguments: ParsedExpr::views_in(arguments@),
                alias: match alias { Some(x) => Some(x@), None => None },
            },
            ParsedStatement::PgNotify { channel, payload, alias } => ParsedStatementView::PgNotify {
                channel: channel@,
                payload: payload@,
                alias: match alias { Some(x) => Some(x@), None => None },
            },
            ParsedStatement::SequenceValue { name, operation, alias } => ParsedStatementView::SequenceValue {
                name: name@,
                operation: operation@,
                alias: match alias { Some(x) => Some(x@), None => None },
            },
            ParsedStatement::CreateTrigger { name, table, timing, level, events, routine } => ParsedStatementView::CreateTrigger {
                name: name@,
                table: table@,
                timing,
                level,
                events: events@,
                routine: routine@,
            },
            ParsedStatement::DropTrigger { name, table, if_exists, behavior } => ParsedStatementView::DropTrigger {
                name: name@,
                table: table@,
                if_exists,
                behavior,
            },
            ParsedStatement::Insert { table, columns, rows, on_conflict, returning } => ParsedStatementView::Insert {
                table: table@,
                columns: ParsedIdentifier::views(columns@),
                rows: expr_rows_in(rows@),
                on_conflict: match on_conflict { Some(x) => Some(x@), None => None },
                returning: ParsedProjection::views_in(returning@),
            },
            ParsedStatement::Merge(f0) => ParsedStatementView::Merge(f0@),
            ParsedStatement::With { recursive, ctes, body } => ParsedStatementView::With {
                recursive,
                ctes: ParsedCte::views_in(ctes@),
                body: Box::new((*body)@),
            },
            ParsedStatement::SetOperation { left, operator, all, right, order_by, offset, limit } => ParsedStatementView::SetOperation {
                left: Box::new((*left)@),
                operator,
                all,
                right: Box::new((*right)@),
                order_by: ParsedOrder::views_in(order_by@),
                offset: match offset { Some(x) => Some(x@), None => None },
                limit: match limit { Some(x) => Some(x@), None => None },
            },
            ParsedStatement::Select { table, projection, filter, order_by, offset, limit } => ParsedStatementView::Select {
                table: table@,
                projection: ParsedProjection::views_in(projection@),
                filter: match filter { Some(x) => Some(x@), None => None },
                order_by: ParsedOrder::views_in(order_by@),
                offset: match offset { Some(x) => Some(x@), None => None },
                limit: match limit { Some(x) => Some(x@), None => None },
            },
            ParsedStatement::AdvancedSelect {
                table,
                joins,
                projection,
                distinct,
                filter,
                group_by,
                having,
                order_by,
                offset,
                limit,
            } => ParsedStatementView::AdvancedSelect {
                table: table@,
                joins: ParsedJoin::views_in(joins@),
                projection: ParsedProjection::views_in(projection@),
                distinct,
                filter: match filter { Some(x) => Some(x@), None => None },
                group_by: ParsedExpr::views_in(group_by@),
                having: match having { Some(x) => Some(x@), None => None },
                order_by: ParsedOrder::views_in(order_by@),
                offset: match offset { Some(x) => Some(x@), None => None },
                limit: match limit { Some(x) => Some(x@), None => None },
            },
            ParsedStatement::Explain { statement } => ParsedStatementView::Explain { statement: Box::new((*statement)@) },
            ParsedStatement::Update { table, assignments, filter, returning } => ParsedStatementView::Update {
                table: table@,
                assignments: assignment_views_in(assignments@),
                filter: match filter { Some(x) => Some(x@), None => None },
                returning: ParsedProjection::views_in(returning@),
            },
            ParsedStatement::Delete { table, filter, returning } => ParsedStatementView::Delete {
                table: table@,
                filter: match filter { Some(x) => Some(x@), None => None },
                returning: ParsedProjection::views_in(returning@),
            },
        }
    }

    /// The outermost layer of the value, over the contents of its parts.
    pub open spec fn shape(&self) -> ParsedStatementView {
        match *self {
            ParsedStatement::Begin { characteristics } => ParsedStatementView::Begin { characteristics },
            ParsedStatement::Commit { chain } => ParsedStatementView::Commit { chain },
            ParsedStatement::Rollback { chain } => ParsedStatementView::Rollback { chain },
            ParsedStatement::Savepoint { name } => ParsedStatementView::Savepoint { name: name@ },
            ParsedStatement::RollbackTo { name } => ParsedStatementView::RollbackTo { name: name@ },
            ParsedStatement::ReleaseSavepoint { name } => ParsedStatementView::ReleaseSavepoint { name: name@ },
            ParsedStatement::Analyze { table } => ParsedStatementView::Analyze { table: match table { Some(x) => Some(x@), None => None } },
            ParsedStatement::Vacuum { table, analyze } => ParsedStatementView::Vacuum {
                table: match table { Some(x) => Some(x@), None => None },
                analyze,
            },
            ParsedStatement::Reindex { target } => ParsedStatementView::Reindex { target: target@ },
            ParsedStatement::Listen { channel } => ParsedStatementView::Listen { channel: channel@ },
            ParsedStatement::Unlisten { channel } => ParsedStatementView::Unlisten {
                channel: match channel { Some(x) => Some(x@), None => None },
            },
            ParsedStatement::Notify { channel, payload } => ParsedStatementView::Notify { channel: channel@, payload: payload@ },
            ParsedStatement::Do { body } => ParsedStatementView::Do { body: body@ },
            ParsedStatement::DiscardAll => ParsedStatementView::DiscardAll,
            ParsedStatement::DeallocateAll => ParsedStatementView::DeallocateAll,
            ParsedStatement::CreateSchema { name, if_not_exists } => ParsedStatementView::CreateSchema { name: name@, if_not_exists },
            ParsedStatement::CreateEnumType { name, labels } => ParsedStatementView::CreateEnumType {
                name: name@,
                labels: strings(labels@),
            },
            ParsedStatement::CreateDomain {
                name,
                base_type,
                base_declared_type,
                not_null,
                default,
                checks,
            } => ParsedStatementView::CreateDomain {
                name: name@,
                base_type: base_type@,
                base_declared_type: match base_declared_type { Some(x) => Some(x@), None => None },
                not_null,
                default: match default { Some(x) => Some(x@), None => None },
                checks: DomainConstraint::views(checks@),
            },
            ParsedStatement::AlterEnumAddValue { name, label, position, if_not_exists } => ParsedStatementView::AlterEnumAddValue {
                name: name@,
                label: label@,
                position: match position { Some(x) => Some(x@), None => None },
                if_not_exists,
            },
            ParsedStatement::AlterEnumRenameValue { name, old_label, new_label } => ParsedStatementView::AlterEnumRenameValue {
                name: name@,
                old_label: old_label@,
                new_label: new_label@,
            },
            ParsedStatement::AlterDomain { name, operation } => ParsedStatementView::AlterDomain { name: name@, operation: operation@ },
            ParsedStatement::AlterSchemaRename { name, new_name, if_exists } => ParsedStatementView::AlterSchemaRename {
                name: name@,
                new_name: new_name@,
                if_exists,
            },
            ParsedStatement::DropObjects { kind, names, if_exists, behavior } => ParsedStatementView::DropObjects {
                kind,
                names: ParsedObjectName::views(names@),
                if_exists,
                behavior,
            },
            ParsedStatement::CreateTable { name, columns, constraints, if_not_exists } => ParsedStatementView::CreateTable {
                name: name@,
                columns: ParsedColumn::views(columns@),
                constraints: ParsedTableConstraint::views(constraints@),
                if_not_exists,
            },
            ParsedStatement::AlterTable { name, if_exists, operations } => ParsedStatementView::AlterTable {
                name: name@,
                if_exists,
                operations: ParsedAlterTableOperation::views(operations@),
            },
            ParsedStatement::CreateIndex(f0) => ParsedStatementView::CreateIndex(f0@),
            ParsedStatement::AlterIndexRename { name, new_name } => ParsedStatementView::AlterIndexRename {
                name: name@,
                new_name: new_name@,
            },
            ParsedStatement::CreateSequence { name, sequence, if_not_exists, owner } => ParsedStatementView::CreateSequence {
                name: name@,
                sequence: sequence@,
                if_not_exists,
                owner: match owner { Some(x) => Some((x.0@, x.1@)), None => None },
            },
            ParsedStatement::AlterSequenceRename { name, if_exists, new_name } => ParsedStatementView::AlterSequenceRename {
                name: name@,
                if_exists,
                new_name: new_name@,
            },
            ParsedStatement::AlterSequence { name, if_exists, options } => ParsedStatementView::AlterSequence {
                name: name@,
                if_exists,
                options: options@,
            },
            ParsedStatement::CreateView {
                name,
                kind,
                query,
                query_sql,
                columns,
                replace,
                if_not_exists,
                with_data,
            } => ParsedStatementView::CreateView {
                name: name@,
                kind,
                query: Box::new((*query)@),
                query_sql: query_sql@,
                columns: ParsedIdentifier::views(columns@),
                replace,
                if_not_exists,
                with_data,
            },
            ParsedStatement::AlterViewRename { name, kind, if_exists, new_name } => ParsedStatementView::AlterViewRename {
                name: name@,
                kind,
                if_exists,
                new_name: new_name@,
            },
            ParsedStatement::RefreshMaterializedView { name, with_data } => ParsedStatementView::RefreshMaterializedView {
                name: name@,
                with_data,
            },
            ParsedStatement::CreateRoutine {
                name,
                kind,
                arguments,
                return_type,
                return_declared_type,
                returns_set,
                language,
                body,
                replace,
            } => ParsedStatementView::CreateRoutine {
                name: name@,
                kind,
                arguments: ParsedRoutineArgument::views(arguments@),
                return_type: match return_type { Some(x) => Some(x@), None => None },
                return_declared_type: match return_declared_type { Some(x) => Some(x@), None => None },
                returns_set,
                language: language@,
                body: body@,
                replace,
            },
            ParsedStatement::DropRoutine { name, kind, argument_types, if_exists, behavior } => ParsedStatementView::DropRoutine {
                name: name@,
                kind,
                argument_types: match argument_types { Some(x) => Some(ParsedRoutineArgument::views(x@)), None => None },
                if_exists,
                behavior,
            },
            ParsedStatement::Call { name, arguments } => ParsedStatementView::Call {
                name: name@,
                arguments: ParsedExpr::views(arguments@),
            },
            ParsedStatement::ScalarSelect { projection } => ParsedStatementView::ScalarSelect {
                projection: ParsedProjection::views(projection@),
            },
            ParsedStatement::RoutineSelect { name, arguments, alias } => ParsedStatementView::RoutineSelect {
                name: name@,
                arguments: ParsedExpr::views(arguments@),
                alias: match alias { Some(x) => Some(x@), None => None },
            },
            ParsedStatement::PgNotify { channel, payload, alias } => ParsedStatementView::PgNotify {
                channel: channel@,
                payload: payload@,
                alias: match alias { Some(x) => Some(x@), None => None },
            },
            ParsedStatement::SequenceValue { name, operation, alias } => ParsedStatementView::SequenceValue {
                name: name@,
                operation: operation@,
                alias: match alias { Some(x) => Some(x@), None => None },
            },
            ParsedStatement::CreateTrigger { name, table, timing, level, events, routine } => ParsedStatementView::CreateTrigger {
                name: name@,
                table: table@,
                timing,
                level,
                events: events@,
                routine: routine@,
            },
            ParsedStatement::DropTrigger { name, table, if_exists, behavior } => ParsedStatementView::DropTrigger {
                name: name@,
                table: table@,
                if_exists,
                behavior,
            },
            ParsedStatement::Insert { table, columns, rows, on_conflict, returning } => ParsedStatementView::Insert {
                table: table@,
                columns: ParsedIdentifier::views(columns@),
                rows: expr_rows(rows@),
                on_conflict: match on_conflict { Some(x) => Some(x@), None => None },
                returning: ParsedProjection::views(returning@),
            },
            ParsedStatement::Merge(f0) => ParsedStatementView::Merge(f0@),
            ParsedStatement::With { recursive, ctes, body } => ParsedStatementView::With {
                recursive,
                ctes: ParsedCte::views(ctes@),
                body: Box::new((*body)@),
            },
            ParsedStatement::SetOperation { left, operator, all, right, order_by, offset, limit } => ParsedStatementView::SetOperation {
                left: Box::new((*left)@),
                operator,
                all,
                right: Box::new((*right)@),
                order_by: ParsedOrder::views(order_by@),
                offset: match offset { Some(x) => Some(x@), None => None },
                limit: match limit { Some(x) => Some(x@), None => None },
            },
            ParsedStatement::Select { table, projection, filter, order_by, offset, limit } => ParsedStatementView::Select {
                table: table@,
                projection: ParsedProjection::views(projection@),
                filter: match filter { Some(x) => Some(x@), None => None },
                order_by: ParsedOrder::views(order_by@),
                offset: match offset { Some(x) => Some(x@), None => None },
                limit: match limit { Some(x) => Some(x@), None => None },
            },
            ParsedStatement::AdvancedSelect {
                table,
                joins,
                projection,
                distinct,
                filter,
                group_by,
                having,
                order_by,
                offset,
                limit,
            } => ParsedStatementView::AdvancedSelect {
                table: table@,
                joins: ParsedJoin::views(joins@),
                projection: ParsedProjection::views(projection@),
                distinct,
                filter: match filter { Some(x) => Some(x@), None => None },
                group_by: ParsedExpr::views(group_by@),
                having: match having { Some(x) => Some(x@), None => None },
                order_by: ParsedOrder::views(order_by@),
                offset: match offset { Some(x) => Some(x@), None => None },
                limit: match limit { Some(x) => Some(x@), None => None },
            },
            ParsedStatement::Explain { statement } => ParsedStatementView::Explain { statement: Box::new((*statement)@) },
            ParsedStatement::Update { table, assignments, filter, returning } => ParsedStatementView::Update {
                table: table@,
                assignments: assignment_views(assignments@),
                filter: match filter { Some(x) => Some(x@), None => None },
                returning: ParsedProjection::views(returning@),
            },
            ParsedStatement::Delete { table, filter, returning } => ParsedStatementView::Delete {
                table: table@,
                filter: match filter { Some(x) => Some(x@), None => None },
                returning: ParsedProjection::views(returning@),
            },
        }
    }

    /// The contents of a value are its outermost layer over the contents of its parts.
    pub proof fn unfold(&self)
        ensures
            self@ == self.shape(),
    {
        match *self {
            ParsedStatement::CreateTable { name, columns, constraints, if_not_exists } => {
                ParsedColumn::lemma_views_in(columns@);
                ParsedTableConstraint::lemma_views_in(constraints@);
            },
            ParsedStatement::AlterTable { name, if_exists, operations } => {
                ParsedAlterTableOperation::lemma_views_in(operations@);
            },
            ParsedStatement::Call { name, arguments } => {
                ParsedExpr::lemma_views_in(arguments@);
            },
            ParsedStatement::ScalarSelect { projection } => {
                ParsedProjection::lemma_views_in(projection@);
            },
            ParsedStatement::RoutineSelect { name, arguments, alias } => {
                ParsedExpr::lemma_views_in(arguments@);
            },
            ParsedStatement::Insert { table, columns, rows, on_conflict, returning } => {
                lemma_expr_rows_in(rows@);
                ParsedProjection::lemma_views_in(returning@);
            },
            ParsedStatement::With { recursive, ctes, body } => {
                ParsedCte::lemma_views_in(ctes@);
            },
            ParsedStatement::SetOperation { left, operator, all, right, order_by, offset, limit } => {
                ParsedOrder::lemma_views_in(order_by@);
            },
            ParsedStatement::Select { table, projection, filter, order_by, offset, limit } => {
                ParsedProjection::lemma_views_in(projection@);
                ParsedOrder::lemma_views_in(order_by@);
            },
            ParsedStatement::AdvancedSelect { table, joins, projection, distinct, filter, group_by, having, order_by, offset, limit } => {
                ParsedJoin::lemma_views_in(joins@);
                ParsedProjection::lemma_views_in(projection@);
                ParsedExpr::lemma_views_in(group_by@);
                ParsedOrder::lemma_views_in(order_by@);
            },
            ParsedStatement::Update { table, assignments, filter, returning } => {
                lemma_assignment_views_in(assignments@);
                ParsedProjection::lemma_views_in(returning@);
            },
            ParsedStatement::Delete { table, filter, returning } => {
                ParsedProjection::lemma_views_in(returning@);
            },
            _ => {},
        }
    }

}

/// The contents of a list of assignments.
pub open spec fn assignment_views(l: Seq<(ParsedIdentifier, ParsedExpr)>) -> Seq<(ParsedIdentifierView, ParsedExprView)> {
    Seq::new(l.len(), |i: int| (l[i].0@, l[i].1@))
}

closed spec fn assignment_views_in(l: Seq<(ParsedIdentifier, ParsedExpr)>) -> Seq<(ParsedIdentifierView, ParsedExprView)>
    decreases l,
{
    Seq::new(l.len(), |i: int| if 0 <= i < l.len() { (l[i].0@, l[i].1@) } else { arbitrary() })
}

proof fn lemma_assignment_views_in(l: Seq<(ParsedIdentifier, ParsedExpr)>)
    ensures
        assignment_views_in(l) == assignment_views(l),
{
    assert(assignment_views_in(l) =~= assignment_views(l));
}

/// The contents of a list of expression rows.
pub open spec fn expr_rows(l: Seq<Vec<ParsedExpr>>) -> Seq<Seq<ParsedExprView>> {
    Seq::new(l.len(), |i: int| ParsedExpr::views(l[i]@))
}

closed spec fn expr_rows_in(l: Seq<Vec<ParsedExpr>>) -> Seq<Seq<ParsedExprView>>
    decreases l,
{
    Seq::new(l.len(), |i: int| if 0 <= i < l.len() { ParsedExpr::views_in(l[i]@) } else { arbitrary() })
}

proof fn lemma_expr_rows_in(l: Seq<Vec<ParsedExpr>>)
    ensures
        expr_rows_in(l) == expr_rows(l),
{
    assert forall|i: int| 0 <= i < l.len() implies expr_rows_in(l)[i] == expr_rows(l)[i] by {
        ParsedExpr::lemma_views_in(l[i]@);
    }
    assert(expr_rows_in(l) =~= expr_rows(l));
}

} // verus!
