//! The catalog that statements are bound against.

use vstd::prelude::*;

use crate::text::{clone_strings, copy_items, lower, strings};
use crate::types::{
    ColumnId, ConstraintId, Identifier, IndexId, RoutineId, ScalarType, ScalarTypeView, Schema, SchemaId, SchemaView, SequenceId, TableId,
    TriggerId, TypeId, ViewId,
};

verus! {

/// What a drop does to dependent objects.
#[derive(Debug, Clone, Copy, PartialEq, Eq, Structural)]
pub enum DropBehavior {
    Restrict,
    Cascade,
}

/// What a foreign key does when its target changes.
#[derive(Debug, Clone, Copy, PartialEq, Eq, Structural)]
pub enum ReferentialAction {
    NoAction,
    Restrict,
    Cascade,
    SetNull,
    SetDefault,
}

/// Kind of a view.
#[derive(Debug, Clone, Copy, PartialEq, Eq, Structural)]
pub enum ViewKind {
    Regular,
    Materialized,
}

/// Kind of a routine.
#[derive(Debug, Clone, Copy, PartialEq, Eq, Structural)]
pub enum RoutineKind {
    Function,
    Procedure,
}

/// Direction of a routine argument.
#[derive(Debug, Clone, Copy, PartialEq, Eq, Structural)]
pub enum RoutineArgumentMode {
    In,
    Out,
    InOut,
    Variadic,
}

impl RoutineArgumentMode {
    /// Whether callers supply the argument.
    pub open spec fn takes_input(self) -> bool {
        self != RoutineArgumentMode::Out
    }

    /// Whether the argument carries a result.
    pub open spec fn gives_output(self) -> bool {
        self == RoutineArgumentMode::Out || self == RoutineArgumentMode::InOut
    }

    /// Decides whether callers supply the argument.
    pub fn accepts_input(self) -> (r: bool)
        ensures
            r == self.takes_input(),
    {
        self != RoutineArgumentMode::Out
    }

    /// Decides whether the argument carries a result.
    pub fn produces_output(self) -> (r: bool)
        ensures
            r == self.gives_output(),
    {
        self == RoutineArgumentMode::Out || self == RoutineArgumentMode::InOut
    }
}

/// When a trigger fires.
#[derive(Debug, Clone, Copy, PartialEq, Eq, Structural)]
pub enum TriggerTiming {
    Before,
    After,
    InsteadOf,
    BeforeStatement,
    AfterStatement,
}

/// How often a trigger fires.
#[derive(Debug, Clone, Copy, PartialEq, Eq, Structural)]
pub enum TriggerLevel {
    Row,
    Statement,
}

/// What a trigger reacts to.
#[derive(Debug, Clone, Copy, PartialEq, Eq, PartialOrd, Ord, Hash, Structural)]
pub enum TriggerEvent {
    Insert,
    Update,
    Delete,
}

/// The relation a trigger belongs to.
#[derive(Debug, Clone, Copy, PartialEq, Eq, Structural)]
pub enum TriggerTarget {
    Table(TableId),
    View(ViewId),
}

/// Access method of an index.
#[derive(Debug, Clone, Copy, PartialEq, Eq, Structural)]
pub enum IndexMethod {
    BTree,
    FullText,
    Hnsw,
}

/// Text analysis of a full-text index.
#[derive(Debug, Clone, Copy, PartialEq, Eq, Structural)]
pub enum FullTextAnalyzer {
    Standard,
    Whitespace,
}

/// Distance of a vector index.
#[derive(Debug, Clone, Copy, PartialEq, Eq, Structural)]
pub enum VectorDistanceMetric {
    Cosine,
    L2,
    Dot,
}

/// Settings of an index.
#[derive(Debug, Clone, Copy, PartialEq, Eq, Structural)]
pub enum IndexOptions {
    BTree,
    FullText { analyzer: FullTextAnalyzer },
    Hnsw { metric: VectorDistanceMetric, dimensions: usize, m: usize, ef_construction: usize, ef_search: usize },
}

/// A reference to a catalog object.
#[derive(Debug, Clone, Copy, PartialEq, Eq, PartialOrd, Ord, Hash, Structural)]
pub enum CatalogObjectRef {
    Schema(SchemaId),
    Table(TableId),
    Index(IndexId),
    Sequence(SequenceId),
    View(ViewId),
    Type(TypeId),
    Routine(RoutineId),
}

/// Where a new enum label goes.
#[derive(Debug, PartialEq)]
pub enum EnumValuePosition {
    Before(String),
    After(String),
}

/// Mathematical contents of a [`EnumValuePosition`].
pub enum EnumValuePositionView {
    Before(Seq<char>),
    After(Seq<char>),
}

impl EnumValuePosition {
    /// The value as mathematical data.
    pub open spec fn view(&self) -> EnumValuePositionView {
        match *self {
            EnumValuePosition::Before(f0) => EnumValuePositionView::Before(f0@),
            EnumValuePosition::After(f0) => EnumValuePositionView::After(f0@),
        }
    }

}

impl Clone for EnumValuePosition {
    fn clone(&self) -> (r: Self)
        ensures
            r@ == self@,
    {
        match self {
            EnumValuePosition::Before(f0) => EnumValuePosition::Before(f0.clone()),
            EnumValuePosition::After(f0) => EnumValuePosition::After(f0.clone()),
        }
    }
}

/// A stored expression in its written form.
#[derive(Debug, PartialEq)]
pub struct CatalogExpression {
    pub sql: String,
}

/// Mathematical contents of a [`CatalogExpression`].
pub struct CatalogExpressionView {
    pub sql: Seq<char>,
}

impl CatalogExpression {
    /// The value as mathematical data.
    pub open spec fn view(&self) -> CatalogExpressionView {
        CatalogExpressionView {
            sql: self.sql@,
        }
    }

}

impl Clone for CatalogExpression {
    fn clone(&self) -> (r: Self)
        ensures
            r@ == self@,
    {
        CatalogExpression {
            sql: self.sql.clone(),
        }
    }
}

impl CatalogExpression {
    /// A stored expression.
    pub fn new(sql: String) -> (r: CatalogExpression)
        ensures
            r@ == (CatalogExpressionView { sql: sql@ }),
    {
        CatalogExpression { sql }
    }
}

/// A check of a domain.
#[derive(Debug, PartialEq)]
pub struct DomainConstraint {
    pub id: Option<ConstraintId>,
    pub name: Option<Identifier>,
    pub expression: CatalogExpression,
}

/// Mathematical contents of a [`DomainConstraint`].
pub struct DomainConstraintView {
    pub id: Option<ConstraintId>,
    pub name: Option<Seq<char>>,
    pub expression: CatalogExpressionView,
}

impl DomainConstraint {
    /// The value as mathematical data.
    pub open spec fn view(&self) -> DomainConstraintView {
        DomainConstraintView {
            id: self.id,
            name: match self.name { Some(x) => Some(x@), None => None },
            expression: self.expression@,
        }
    }

    /// The contents of each value of a sequence.
    pub open spec fn views(l: Seq<DomainConstraint>) -> Seq<DomainConstraintView> {
        Seq::new(l.len(), |i: int| l[i]@)
    }

    /// Copies every value of a vector.
    pub fn clone_all(l: &Vec<DomainConstraint>) -> (out: Vec<DomainConstraint>)
        ensures
            DomainConstraint::views(out@) == DomainConstraint::views(l@),
    {
        let mut out: Vec<DomainConstraint> = Vec::new();
        for i in 0..l.len()
            invariant
                out.len() == i,
                forall|k: int| 0 <= k < i ==> out@[k]@ == l@[k]@,
        {
            out.push(l[i].clone());
        }
        assert(DomainConstraint::views(out@) =~= DomainConstraint::views(l@));
        out
    }

}

impl Clone for DomainConstraint {
    fn clone(&self) -> (r: Self)
        ensures
            r@ == self@,
    {
        DomainConstraint {
            id: self.id,
            name: match &self.name { Some(y) => Some(y.clone()), None => None },
            expression: self.expression.clone(),
        }
    }
}

/// A column to be created.
#[derive(Debug, PartialEq)]
pub struct NewColumn {
    pub name: Identifier,
    pub data_type: ScalarType,
    pub declared_type: Option<TypeId>,
    pub nullable: bool,
    pub primary_key: bool,
    pub unique: bool,
    pub default: Option<CatalogExpression>,
}

/// Mathematical contents of a [`NewColumn`].
pub struct NewColumnView {
    pub name: Seq<char>,
    pub data_type: ScalarTypeView,
    pub declared_type: Option<TypeId>,
    pub nullable: bool,
    pub primary_key: bool,
    pub unique: bool,
    pub default: Option<CatalogExpressionView>,
}

impl NewColumn {
    /// The value as mathematical data.
    pub open spec fn view(&self) -> NewColumnView {
        NewColumnView {
            name: self.name@,
            data_type: self.data_type@,
            declared_type: self.declared_type,
            nullable: self.nullable,
            primary_key: self.primary_key,
            unique: self.unique,
            default: match self.default { Some(x) => Some(x@), None => None },
        }
    }

    /// The contents of each value of a sequence.
    pub open spec fn views(l: Seq<NewColumn>) -> Seq<NewColumnView> {
        Seq::new(l.len(), |i: int| l[i]@)
    }

    /// Copies every value of a vector.
    pub fn clone_all(l: &Vec<NewColumn>) -> (out: Vec<NewColumn>)
        ensures
            NewColumn::views(out@) == NewColumn::views(l@),
    {
        let mut out: Vec<NewColumn> = Vec::new();
        for i in 0..l.len()
            invariant
                out.len() == i,
                forall|k: int| 0 <= k < i ==> out@[k]@ == l@[k]@,
        {
            out.push(l[i].clone());
        }
        assert(NewColumn::views(out@) =~= NewColumn::views(l@));
        out
    }

}

impl Clone for NewColumn {
    fn clone(&self) -> (r: Self)
        ensures
            r@ == self@,
    {
        NewColumn {
            name: self.name.clone(),
            data_type: self.data_type.clone(),
            declared_type: self.declared_type,
            nullable: self.nullable,
            primary_key: self.primary_key,
            unique: self.unique,
            default: match &self.default { Some(y) => Some(y.clone()), None => None },
        }
    }
}

impl NewColumn {
    /// A nullable column without constraints.
    pub fn new(name: Identifier, data_type: ScalarType) -> (r: NewColumn)
        ensures
            r@ == (NewColumnView {
                name: name@,
                data_type: data_type@,
                declared_type: None,
                nullable: true,
                primary_key: false,
                unique: false,
                default: None,
            }),
    {
        NewColumn { name, data_type, declared_type: None, nullable: true, primary_key: false, unique: false, default: None }
    }
}

/// What a constraint to be created demands.
#[derive(Debug, PartialEq)]
pub enum NewConstraintKind {
    PrimaryKey { columns: Vec<Identifier> },
    Unique { columns: Vec<Identifier> },
    Check { expression: CatalogExpression },
    ForeignKey {
        columns: Vec<Identifier>,
        referenced_table: TableId,
        referenced_columns: Vec<Identifier>,
        on_delete: ReferentialAction,
        on_update: ReferentialAction,
    },
}

/// Mathematical contents of a [`NewConstraintKind`].
pub enum NewConstraintKindView {
    PrimaryKey { columns: Seq<Seq<char>> },
    Unique { columns: Seq<Seq<char>> },
    Check { expression: CatalogExpressionView },
    ForeignKey {
        columns: Seq<Seq<char>>,
        referenced_table: TableId,
        referenced_columns: Seq<Seq<char>>,
        on_delete: ReferentialAction,
        on_update: ReferentialAction,
    },
}

impl NewConstraintKind {
    /// The value as mathematical data.
    pub open spec fn view(&self) -> NewConstraintKindView {
        match *self {
            NewConstraintKind::PrimaryKey { columns } => NewConstraintKindView::PrimaryKey { columns: Identifier::views(columns@) },
            NewConstraintKind::Unique { columns } => NewConstraintKindView::Unique { columns: Identifier::views(columns@) },
            NewConstraintKind::Check { expression } => NewConstraintKindView::Check { expression: expression@ },
            NewConstraintKind::ForeignKey {
                columns,
                referenced_table,
                referenced_columns,
                on_delete,
                on_update,
            } => NewConstraintKindView::ForeignKey {
                columns: Identifier::views(columns@),
                referenced_table,
                referenced_columns: Identifier::views(referenced_columns@),
                on_delete,
                on_update,
            },
        }
    }

}

impl Clone for NewConstraintKind {
    fn clone(&self) -> (r: Self)
        ensures
            r@ == self@,
    {
        match self {
            NewConstraintKind::PrimaryKey { columns } => NewConstraintKind::PrimaryKey { columns: Identifier::clone_all(columns) },
            NewConstraintKind::Unique { columns } => NewConstraintKind::Unique { columns: Identifier::clone_all(columns) },
            NewConstraintKind::Check { expression } => NewConstraintKind::Check { expression: expression.clone() },
            NewConstraintKind::ForeignKey {
                columns,
                referenced_table,
                referenced_columns,
                on_delete,
                on_update,
            } => NewConstraintKind::ForeignKey {
                columns: Identifier::clone_all(columns),
                referenced_table: *referenced_table,
                referenced_columns: Identifier::clone_all(referenced_columns),
                on_delete: *on_delete,
                on_update: *on_update,
            },
        }
    }
}

/// A constraint to be created.
#[derive(Debug, PartialEq)]
pub struct NewConstraint {
    pub name: Identifier,
    pub kind: NewConstraintKind,
}

/// Mathematical contents of a [`NewConstraint`].
pub struct NewConstraintView {
    pub name: Seq<char>,
    pub kind: NewConstraintKindView,
}

impl NewConstraint {
    /// The value as mathematical data.
    pub open spec fn view(&self) -> NewConstraintView {
        NewConstraintView {
            name: self.name@,
            kind: self.kind@,
        }
    }

    /// The contents of each value of a sequence.
    pub open spec fn views(l: Seq<NewConstraint>) -> Seq<NewConstraintView> {
        Seq::new(l.len(), |i: int| l[i]@)
    }

    /// Copies every value of a vector.
    pub fn clone_all(l: &Vec<NewConstraint>) -> (out: Vec<NewConstraint>)
        ensures
            NewConstraint::views(out@) == NewConstraint::views(l@),
    {
        let mut out: Vec<NewConstraint> = Vec::new();
        for i in 0..l.len()
            invariant
                out.len() == i,
                forall|k: int| 0 <= k < i ==> out@[k]@ == l@[k]@,
        {
            out.push(l[i].clone());
        }
        assert(NewConstraint::views(out@) =~= NewConstraint::views(l@));
        out
    }

}

impl Clone for NewConstraint {
    fn clone(&self) -> (r: Self)
        ensures
            r@ == self@,
    {
        NewConstraint {
            name: self.name.clone(),
            kind: self.kind.clone(),
        }
    }
}

/// An index to be created.
#[derive(Debug, PartialEq)]
pub struct NewIndex {
    pub name: Identifier,
    pub key_columns: Vec<Identifier>,
    pub include_columns: Vec<Identifier>,
    pub unique: bool,
    pub method: IndexMethod,
    pub options: IndexOptions,
}

/// Mathematical contents of a [`NewIndex`].
pub struct NewIndexView {
    pub name: Seq<char>,
    pub key_columns: Seq<Seq<char>>,
    pub include_columns: Seq<Seq<char>>,
    pub unique: bool,
    pub method: IndexMethod,
    pub options: IndexOptions,
}

impl NewIndex {
    /// The value as mathematical data.
    pub open spec fn view(&self) -> NewIndexView {
        NewIndexView {
            name: self.name@,
            key_columns: Identifier::views(self.key_columns@),
            include_columns: Identifier::views(self.include_columns@),
            unique: self.unique,
            method: self.method,
            options: self.options,
        }
    }

}

impl Clone for NewIndex {
    fn clone(&self) -> (r: Self)
        ensures
            r@ == self@,
    {
        NewIndex {
            name: self.name.clone(),
            key_columns: Identifier::clone_all(&self.key_columns),
            include_columns: Identifier::clone_all(&self.include_columns),
            unique: self.unique,
            method: self.method,
            options: self.options,
        }
    }
}

/// A sequence to be created.
#[derive(Debug, PartialEq)]
pub struct NewSequence {
    pub name: Identifier,
    pub data_type: ScalarType,
    pub increment: i64,
    pub min_value: Option<i64>,
    pub max_value: Option<i64>,
    pub start_value: Option<i64>,
    pub cycle: bool,
    pub owner: Option<(TableId, ColumnId)>,
}

/// Mathematical contents of a [`NewSequence`].
pub struct NewSequenceView {
    pub name: Seq<char>,
    pub data_type: ScalarTypeView,
    pub increment: i64,
    pub min_value: Option<i64>,
    pub max_value: Option<i64>,
    pub start_value: Option<i64>,
    pub cycle: bool,
    pub owner: Option<(TableId, ColumnId)>,
}

impl NewSequence {
    /// The value as mathematical data.
    pub open spec fn view(&self) -> NewSequenceView {
        NewSequenceView {
            name: self.name@,
            data_type: self.data_type@,
            increment: self.increment,
            min_value: self.min_value,
            max_value: self.max_value,
            start_value: self.start_value,
            cycle: self.cycle,
            owner: self.owner,
        }
    }

}

impl Clone for NewSequence {
    fn clone(&self) -> (r: Self)
        ensures
            r@ == self@,
    {
        NewSequence {
            name: self.name.clone(),
            data_type: self.data_type.clone(),
            increment: self.increment,
            min_value: self.min_value,
            max_value: self.max_value,
            start_value: self.start_value,
            cycle: self.cycle,
            owner: self.owner,
        }
    }
}

impl NewSequence {
    /// A sequence of 64-bit integers that counts up by one.
    pub fn new(name: Identifier) -> (r: NewSequence)
        ensures
            r@ == (NewSequenceView {
                name: name@,
                data_type: ScalarTypeView::Int64,
                increment: 1,
                min_value: None,
                max_value: None,
                start_value: None,
                cycle: false,
                owner: None,
            }),
    {
        NewSequence {
            name,
            data_type: ScalarType::Int64,
            increment: 1,
            min_value: None,
            max_value: None,
            start_value: None,
            cycle: false,
            owner: None,
        }
    }
}

/// A column of a table.
#[derive(Debug, PartialEq)]
pub struct ColumnDefinition {
    pub id: ColumnId,
    pub name: Identifier,
    pub data_type: ScalarType,
    pub declared_type: Option<TypeId>,
    pub nullable: bool,
    pub primary_key: bool,
    pub unique: bool,
    pub default: Option<CatalogExpression>,
}

/// Mathematical contents of a [`ColumnDefinition`].
pub struct ColumnDefinitionView {
    pub id: ColumnId,
    pub name: Seq<char>,
    pub data_type: ScalarTypeView,
    pub declared_type: Option<TypeId>,
    pub nullable: bool,
    pub primary_key: bool,
    pub unique: bool,
    pub default: Option<CatalogExpressionView>,
}

impl ColumnDefinition {
    /// The value as mathematical data.
    pub open spec fn view(&self) -> ColumnDefinitionView {
        ColumnDefinitionView {
            id: self.id,
            name: self.name@,
            data_type: self.data_type@,
            declared_type: self.declared_type,
            nullable: self.nullable,
            primary_key: self.primary_key,
            unique: self.unique,
            default: match self.default { Some(x) => Some(x@), None => None },
        }
    }

    /// The contents of each value of a sequence.
    pub open spec fn views(l: Seq<ColumnDefinition>) -> Seq<ColumnDefinitionView> {
        Seq::new(l.len(), |i: int| l[i]@)
    }

    /// Copies every value of a vector.
    pub fn clone_all(l: &Vec<ColumnDefinition>) -> (out: Vec<ColumnDefinition>)
        ensures
            ColumnDefinition::views(out@) == ColumnDefinition::views(l@),
    {
        let mut out: Vec<ColumnDefinition> = Vec::new();
        for i in 0..l.len()
            invariant
                out.len() == i,
                forall|k: int| 0 <= k < i ==> out@[k]@ == l@[k]@,
        {
            out.push(l[i].clone());
        }
        assert(ColumnDefinition::views(out@) =~= ColumnDefinition::views(l@));
        out
    }

}

impl Clone for ColumnDefinition {
    fn clone(&self) -> (r: Self)
        ensures
            r@ == self@,
    {
        ColumnDefinition {
            id: self.id,
            name: self.name.clone(),
            data_type: self.data_type.clone(),
            declared_type: self.declared_type,
            nullable: self.nullable,
            primary_key: self.primary_key,
            unique: self.unique,
            default: match &self.default { Some(y) => Some(y.clone()), None => None },
        }
    }
}

/// What a constraint demands.
#[derive(Debug, PartialEq)]
pub enum ConstraintKind {
    PrimaryKey { columns: Vec<ColumnId> },
    Unique { columns: Vec<ColumnId> },
    Check { expression: CatalogExpression },
    ForeignKey {
        columns: Vec<ColumnId>,
        referenced_table: TableId,
        referenced_columns: Vec<ColumnId>,
        on_delete: ReferentialAction,
        on_update: ReferentialAction,
    },
}

/// Mathematical contents of a [`ConstraintKind`].
pub enum ConstraintKindView {
    PrimaryKey { columns: Seq<ColumnId> },
    Unique { columns: Seq<ColumnId> },
    Check { expression: CatalogExpressionView },
    ForeignKey {
        columns: Seq<ColumnId>,
        referenced_table: TableId,
        referenced_columns: Seq<ColumnId>,
        on_delete: ReferentialAction,
        on_update: ReferentialAction,
    },
}

impl ConstraintKind {
    /// The value as mathematical data.
    pub open spec fn view(&self) -> ConstraintKindView {
        match *self {
            ConstraintKind::PrimaryKey { columns } => ConstraintKindView::PrimaryKey { columns: columns@ },
            ConstraintKind::Unique { columns } => ConstraintKindView::Unique { columns: columns@ },
            ConstraintKind::Check { expression } => ConstraintKindView::Check { expression: expression@ },
            ConstraintKind::ForeignKey {
                columns,
                referenced_table,
                referenced_columns,
                on_delete,
                on_update,
            } => ConstraintKindView::ForeignKey {
                columns: columns@,
                referenced_table,
                referenced_columns: referenced_columns@,
                on_delete,
                on_update,
            },
        }
    }

}

impl Clone for ConstraintKind {
    fn clone(&self) -> (r: Self)
        ensures
            r@ == self@,
    {
        match self {
            ConstraintKind::PrimaryKey { columns } => ConstraintKind::PrimaryKey { columns: copy_items(columns) },
            ConstraintKind::Unique { columns } => ConstraintKind::Unique { columns: copy_items(columns) },
            ConstraintKind::Check { expression } => ConstraintKind::Check { expression: expression.clone() },
            ConstraintKind::ForeignKey {
                columns,
                referenced_table,
                referenced_columns,
                on_delete,
                on_update,
            } => ConstraintKind::ForeignKey {
                columns: copy_items(columns),
                referenced_table: *referenced_table,
                referenced_columns: copy_items(referenced_columns),
                on_delete: *on_delete,
                on_update: *on_update,
            },
        }
    }
}

/// A constraint of a table.
#[derive(Debug, PartialEq)]
pub struct ConstraintDefinition {
    pub id: ConstraintId,
    pub name: Identifier,
    pub kind: ConstraintKind,
}

/// Mathematical contents of a [`ConstraintDefinition`].
pub struct ConstraintDefinitionView {
    pub id: ConstraintId,
    pub name: Seq<char>,
    pub kind: ConstraintKindView,
}

impl ConstraintDefinition {
    /// The value as mathematical data.
    pub open spec fn view(&self) -> ConstraintDefinitionView {
        ConstraintDefinitionView {
            id: self.id,
            name: self.name@,
            kind: self.kind@,
        }
    }

    /// The contents of each value of a sequence.
    pub open spec fn views(l: Seq<ConstraintDefinition>) -> Seq<ConstraintDefinitionView> {
        Seq::new(l.len(), |i: int| l[i]@)
    }

    /// Copies every value of a vector.
    pub fn clone_all(l: &Vec<ConstraintDefinition>) -> (out: Vec<ConstraintDefinition>)
        ensures
            ConstraintDefinition::views(out@) == ConstraintDefinition::views(l@),
    {
        let mut out: Vec<ConstraintDefinition> = Vec::new();
        for i in 0..l.len()
            invariant
                out.len() == i,
                forall|k: int| 0 <= k < i ==> out@[k]@ == l@[k]@,
        {
            out.push(l[i].clone());
        }
        assert(ConstraintDefinition::views(out@) =~= ConstraintDefinition::views(l@));
        out
    }

}

impl Clone for ConstraintDefinition {
    fn clone(&self) -> (r: Self)
        ensures
            r@ == self@,
    {
        ConstraintDefinition {
            id: self.id,
            name: self.name.clone(),
            kind: self.kind.clone(),
        }
    }
}

/// An index of a table.
#[derive(Debug, PartialEq)]
pub struct IndexDefinition {
    pub id: IndexId,
    pub name: Identifier,
    pub key_columns: Vec<ColumnId>,
    pub include_columns: Vec<ColumnId>,
    pub unique: bool,
    pub method: IndexMethod,
    pub options: IndexOptions,
}

/// Mathematical contents of a [`IndexDefinition`].
pub struct IndexDefinitionView {
    pub id: IndexId,
    pub name: Seq<char>,
    pub key_columns: Seq<ColumnId>,
    pub include_columns: Seq<ColumnId>,
    pub unique: bool,
    pub method: IndexMethod,
    pub options: IndexOptions,
}

impl IndexDefinition {
    /// The value as mathematical data.
    pub open spec fn view(&self) -> IndexDefinitionView {
        IndexDefinitionView {
            id: self.id,
            name: self.name@,
            key_columns: self.key_columns@,
            include_columns: self.include_columns@,
            unique: self.unique,
            method: self.method,
            options: self.options,
        }
    }

    /// The contents of each value of a sequence.
    pub open spec fn views(l: Seq<IndexDefinition>) -> Seq<IndexDefinitionView> {
        Seq::new(l.len(), |i: int| l[i]@)
    }

    /// Copies every value of a vector.
    pub fn clone_all(l: &Vec<IndexDefinition>) -> (out: Vec<IndexDefinition>)
        ensures
            IndexDefinition::views(out@) == IndexDefinition::views(l@),
    {
        let mut out: Vec<IndexDefinition> = Vec::new();
        for i in 0..l.len()
            invariant
                out.len() == i,
                forall|k: int| 0 <= k < i ==> out@[k]@ == l@[k]@,
        {
            out.push(l[i].clone());
        }
        assert(IndexDefinition::views(out@) =~= IndexDefinition::views(l@));
        out
    }

}

impl Clone for IndexDefinition {
    fn clone(&self) -> (r: Self)
        ensures
            r@ == self@,
    {
        IndexDefinition {
            id: self.id,
            name: self.name.clone(),
            key_columns: copy_items(&self.key_columns),
            include_columns: copy_items(&self.include_columns),
            unique: self.unique,
            method: self.method,
            options: self.options,
        }
    }
}

/// A trigger of a relation.
#[derive(Debug, PartialEq)]
pub struct TriggerDefinition {
    pub id: TriggerId,
    pub name: Identifier,
    pub timing: TriggerTiming,
    pub level: TriggerLevel,
    pub events: Vec<TriggerEvent>,
    pub routine_id: RoutineId,
    pub enabled: bool,
}

/// Mathematical contents of a [`TriggerDefinition`].
pub struct TriggerDefinitionView {
    pub id: TriggerId,
    pub name: Seq<char>,
    pub timing: TriggerTiming,
    pub level: TriggerLevel,
    pub events: Seq<TriggerEvent>,
    pub routine_id: RoutineId,
    pub enabled: bool,
}

impl TriggerDefinition {
    /// The value as mathematical data.
    pub open spec fn view(&self) -> TriggerDefinitionView {
        TriggerDefinitionView {
            id: self.id,
            name: self.name@,
            timing: self.timing,
            level: self.level,
            events: self.events@,
            routine_id: self.routine_id,
            enabled: self.enabled,
        }
    }

    /// The contents of each value of a sequence.
    pub open spec fn views(l: Seq<TriggerDefinition>) -> Seq<TriggerDefinitionView> {
        Seq::new(l.len(), |i: int| l[i]@)
    }

    /// Copies every value of a vector.
    pub fn clone_all(l: &Vec<TriggerDefinition>) -> (out: Vec<TriggerDefinition>)
        ensures
            TriggerDefinition::views(out@) == TriggerDefinition::views(l@),
    {
        let mut out: Vec<TriggerDefinition> = Vec::new();
        for i in 0..l.len()
            invariant
                out.len() == i,
                forall|k: int| 0 <= k < i ==> out@[k]@ == l@[k]@,
        {
            out.push(l[i].clone());
        }
        assert(TriggerDefinition::views(out@) =~= TriggerDefinition::views(l@));
        out
    }

}

impl Clone for TriggerDefinition {
    fn clone(&self) -> (r: Self)
        ensures
            r@ == self@,
    {
        TriggerDefinition {
            id: self.id,
            name: self.name.clone(),
            timing: self.timing,
            level: self.level,
            events: copy_items(&self.events),
            routine_id: self.routine_id,
            enabled: self.enabled,
        }
    }
}

/// A table.
#[derive(Debug, PartialEq)]
pub struct TableDefinition {
    pub id: TableId,
    pub schema_id: SchemaId,
    pub name: Identifier,
    pub columns: Vec<ColumnDefinition>,
    pub constraints: Vec<ConstraintDefinition>,
    pub indexes: Vec<IndexDefinition>,
    pub triggers: Vec<TriggerDefinition>,
}

/// Mathematical contents of a [`TableDefinition`].
pub struct TableDefinitionView {
    pub id: TableId,
    pub schema_id: SchemaId,
    pub name: Seq<char>,
    pub columns: Seq<ColumnDefinitionView>,
    pub constraints: Seq<ConstraintDefinitionView>,
    pub indexes: Seq<IndexDefinitionView>,
    pub triggers: Seq<TriggerDefinitionView>,
}

impl TableDefinition {
    /// The value as mathematical data.
    pub open spec fn view(&self) -> TableDefinitionView {
        TableDefinitionView {
            id: self.id,
            schema_id: self.schema_id,
            name: self.name@,
            columns: ColumnDefinition::views(self.columns@),
            constraints: ConstraintDefinition::views(self.constraints@),
            indexes: IndexDefinition::views(self.indexes@),
            triggers: TriggerDefinition::views(self.triggers@),
        }
    }

    /// The contents of each value of a sequence.
    pub open spec fn views(l: Seq<TableDefinition>) -> Seq<TableDefinitionView> {
        Seq::new(l.len(), |i: int| l[i]@)
    }

    /// Copies every value of a vector.
    pub fn clone_all(l: &Vec<TableDefinition>) -> (out: Vec<TableDefinition>)
        ensures
            TableDefinition::views(out@) == TableDefinition::views(l@),
    {
        let mut out: Vec<TableDefinition> = Vec::new();
        for i in 0..l.len()
            invariant
                out.len() == i,
                forall|k: int| 0 <= k < i ==> out@[k]@ == l@[k]@,
        {
            out.push(l[i].clone());
        }
        assert(TableDefinition::views(out@) =~= TableDefinition::views(l@));
        out
    }

}

impl Clone for TableDefinition {
    fn clone(&self) -> (r: Self)
        ensures
            r@ == self@,
    {
        TableDefinition {
            id: self.id,
            schema_id: self.schema_id,
            name: self.name.clone(),
            columns: ColumnDefinition::clone_all(&self.columns),
            constraints: ConstraintDefinition::clone_all(&self.constraints),
            indexes: IndexDefinition::clone_all(&self.indexes),
            triggers: TriggerDefinition::clone_all(&self.triggers),
        }
    }
}

/// A view.
#[derive(Debug, PartialEq)]
pub struct ViewDefinition {
    pub id: ViewId,
    pub name: Identifier,
    pub kind: ViewKind,
    pub query: String,
    pub output: Schema,
    pub materialized_table_id: Option<TableId>,
    pub populated: bool,
    pub triggers: Vec<TriggerDefinition>,
}

/// Mathematical contents of a [`ViewDefinition`].
pub struct ViewDefinitionView {
    pub id: ViewId,
    pub name: Seq<char>,
    pub kind: ViewKind,
    pub query: Seq<char>,
    pub output: SchemaView,
    pub materialized_table_id: Option<TableId>,
    pub populated: bool,
    pub triggers: Seq<TriggerDefinitionView>,
}

impl ViewDefinition {
    /// The value as mathematical data.
    pub open spec fn view(&self) -> ViewDefinitionView {
        ViewDefinitionView {
            id: self.id,
            name: self.name@,
            kind: self.kind,
            query: self.query@,
            output: self.output@,
            materialized_table_id: self.materialized_table_id,
            populated: self.populated,
            triggers: TriggerDefinition::views(self.triggers@),
        }
    }

    /// The contents of each value of a sequence.
    pub open spec fn views(l: Seq<ViewDefinition>) -> Seq<ViewDefinitionView> {
        Seq::new(l.len(), |i: int| l[i]@)
    }

    /// Copies every value of a vector.
    pub fn clone_all(l: &Vec<ViewDefinition>) -> (out: Vec<ViewDefinition>)
        ensures
            ViewDefinition::views(out@) == ViewDefinition::views(l@),
    {
        let mut out: Vec<ViewDefinition> = Vec::new();
        for i in 0..l.len()
            invariant
                out.len() == i,
                forall|k: int| 0 <= k < i ==> out@[k]@ == l@[k]@,
        {
            out.push(l[i].clone());
        }
        assert(ViewDefinition::views(out@) =~= ViewDefinition::views(l@));
        out
    }

}

impl Clone for ViewDefinition {
    fn clone(&self) -> (r: Self)
        ensures
            r@ == self@,
    {
        ViewDefinition {
            id: self.id,
            name: self.name.clone(),
            kind: self.kind,
            query: self.query.clone(),
            output: self.output.clone(),
            materialized_table_id: self.materialized_table_id,
            populated: self.populated,
            triggers: TriggerDefinition::clone_all(&self.triggers),
        }
    }
}

/// A sequence.
#[derive(Debug, PartialEq)]
pub struct SequenceDefinition {
    pub id: SequenceId,
    pub name: Identifier,
}

/// Mathematical contents of a [`SequenceDefinition`].
pub struct SequenceDefinitionView {
    pub id: SequenceId,
    pub name: Seq<char>,
}

impl SequenceDefinition {
    /// The value as mathematical data.
    pub open spec fn view(&self) -> SequenceDefinitionView {
        SequenceDefinitionView {
            id: self.id,
            name: self.name@,
        }
    }

    /// The contents of each value of a sequence.
    pub open spec fn views(l: Seq<SequenceDefinition>) -> Seq<SequenceDefinitionView> {
        Seq::new(l.len(), |i: int| l[i]@)
    }

    /// Copies every value of a vector.
    pub fn clone_all(l: &Vec<SequenceDefinition>) -> (out: Vec<SequenceDefinition>)
        ensures
            SequenceDefinition::views(out@) == SequenceDefinition::views(l@),
    {
        let mut out: Vec<SequenceDefinition> = Vec::new();
        for i in 0..l.len()
            invariant
                out.len() == i,
                forall|k: int| 0 <= k < i ==> out@[k]@ == l@[k]@,
        {
            out.push(l[i].clone());
        }
        assert(SequenceDefinition::views(out@) =~= SequenceDefinition::views(l@));
        out
    }

}

impl Clone for SequenceDefinition {
    fn clone(&self) -> (r: Self)
        ensures
            r@ == self@,
    {
        SequenceDefinition {
            id: self.id,
            name: self.name.clone(),
        }
    }
}

/// What a user-defined type is.
#[derive(Debug, PartialEq)]
pub enum UserDefinedTypeKind {
    Enum { labels: Vec<String> },
    Domain {
        base_type: ScalarType,
        base_declared_type: Option<TypeId>,
        not_null: bool,
        default: Option<CatalogExpression>,
        checks: Vec<DomainConstraint>,
    },
}

/// Mathematical contents of a [`UserDefinedTypeKind`].
pub enum UserDefinedTypeKindView {
    Enum { labels: Seq<Seq<char>> },
    Domain {
        base_type: ScalarTypeView,
        base_declared_type: Option<TypeId>,
        not_null: bool,
        default: Option<CatalogExpressionView>,
        checks: Seq<DomainConstraintView>,
    },
}

impl UserDefinedTypeKind {
    /// The value as mathematical data.
    pub open spec fn view(&self) -> UserDefinedTypeKindView {
        match *self {
            UserDefinedTypeKind::Enum { labels } => UserDefinedTypeKindView::Enum { labels: strings(labels@) },
            UserDefinedTypeKind::Domain { base_type, base_declared_type, not_null, default, checks } => UserDefinedTypeKindView::Domain {
                base_type: base_type@,
                base_declared_type,
                not_null,
                default: match default { Some(x) => Some(x@), None => None },
                checks: DomainConstraint::views(checks@),
            },
        }
    }

}

impl Clone for UserDefinedTypeKind {
    fn clone(&self) -> (r: Self)
        ensures
            r@ == self@,
    {
        match self {
            UserDefinedTypeKind::Enum { labels } => UserDefinedTypeKind::Enum { labels: clone_strings(labels) },
            UserDefinedTypeKind::Domain { base_type, base_declared_type, not_null, default, checks } => UserDefinedTypeKind::Domain {
                base_type: base_type.clone(),
                base_declared_type: *base_declared_type,
                not_null: *not_null,
                default: match default { Some(y) => Some(y.clone()), None => None },
                checks: DomainConstraint::clone_all(checks),
            },
        }
    }
}

/// A user-defined type.
#[derive(Debug, PartialEq)]
pub struct TypeDefinition {
    pub id: TypeId,
    pub name: Identifier,
    pub definition: UserDefinedTypeKind,
}

/// Mathematical contents of a [`TypeDefinition`].
pub struct TypeDefinitionView {
    pub id: TypeId,
    pub name: Seq<char>,
    pub definition: UserDefinedTypeKindView,
}

impl TypeDefinition {
    /// The value as mathematical data.
    pub open spec fn view(&self) -> TypeDefinitionView {
        TypeDefinitionView {
            id: self.id,
            name: self.name@,
            definition: self.definition@,
        }
    }

    /// The contents of each value of a sequence.
    pub open spec fn views(l: Seq<TypeDefinition>) -> Seq<TypeDefinitionView> {
        Seq::new(l.len(), |i: int| l[i]@)
    }

    /// Copies every value of a vector.
    pub fn clone_all(l: &Vec<TypeDefinition>) -> (out: Vec<TypeDefinition>)
        ensures
            TypeDefinition::views(out@) == TypeDefinition::views(l@),
    {
        let mut out: Vec<TypeDefinition> = Vec::new();
        for i in 0..l.len()
            invariant
                out.len() == i,
                forall|k: int| 0 <= k < i ==> out@[k]@ == l@[k]@,
        {
            out.push(l[i].clone());
        }
        assert(TypeDefinition::views(out@) =~= TypeDefinition::views(l@));
        out
    }

}

impl Clone for TypeDefinition {
    fn clone(&self) -> (r: Self)
        ensures
            r@ == self@,
    {
        TypeDefinition {
            id: self.id,
            name: self.name.clone(),
            definition: self.definition.clone(),
        }
    }
}

/// An argument of a routine.
#[derive(Debug, PartialEq)]
pub struct RoutineArgument {
    pub name: Option<Identifier>,
    pub data_type: ScalarType,
    pub declared_type: Option<TypeId>,
    pub mode: RoutineArgumentMode,
}

/// Mathematical contents of a [`RoutineArgument`].
pub struct RoutineArgumentView {
    pub name: Option<Seq<char>>,
    pub data_type: ScalarTypeView,
    pub declared_type: Option<TypeId>,
    pub mode: RoutineArgumentMode,
}

impl RoutineArgument {
    /// The value as mathematical data.
    pub open spec fn view(&self) -> RoutineArgumentView {
        RoutineArgumentView {
            name: match self.name { Some(x) => Some(x@), None => None },
            data_type: self.data_type@,
            declared_type: self.declared_type,
            mode: self.mode,
        }
    }

    /// The contents of each value of a sequence.
    pub open spec fn views(l: Seq<RoutineArgument>) -> Seq<RoutineArgumentView> {
        Seq::new(l.len(), |i: int| l[i]@)
    }

    /// Copies every value of a vector.
    pub fn clone_all(l: &Vec<RoutineArgument>) -> (out: Vec<RoutineArgument>)
        ensures
            RoutineArgument::views(out@) == RoutineArgument::views(l@),
    {
        let mut out: Vec<RoutineArgument> = Vec::new();
        for i in 0..l.len()
            invariant
                out.len() == i,
                forall|k: int| 0 <= k < i ==> out@[k]@ == l@[k]@,
        {
            out.push(l[i].clone());
        }
        assert(RoutineArgument::views(out@) =~= RoutineArgument::views(l@));
        out
    }

}

impl Clone for RoutineArgument {
    fn clone(&self) -> (r: Self)
        ensures
            r@ == self@,
    {
        RoutineArgument {
            name: match &self.name { Some(y) => Some(y.clone()), None => None },
            data_type: self.data_type.clone(),
            declared_type: self.declared_type,
            mode: self.mode,
        }
    }
}

/// A stored routine.
#[derive(Debug, PartialEq)]
pub struct RoutineDefinition {
    pub id: RoutineId,
    pub name: Identifier,
    pub kind: RoutineKind,
    pub arguments: Vec<RoutineArgument>,
    pub return_type: Option<ScalarType>,
    pub return_declared_type: Option<TypeId>,
    pub returns_set: bool,
    pub language: String,
    pub body: String,
}

/// Mathematical contents of a [`RoutineDefinition`].
pub struct RoutineDefinitionView {
    pub id: RoutineId,
    pub name: Seq<char>,
    pub kind: RoutineKind,
    pub arguments: Seq<RoutineArgumentView>,
    pub return_type: Option<ScalarTypeView>,
    pub return_declared_type: Option<TypeId>,
    pub returns_set: bool,
    pub language: Seq<char>,
    pub body: Seq<char>,
}

impl RoutineDefinition {
    /// The value as mathematical data.
    pub open spec fn view(&self) -> RoutineDefinitionView {
        RoutineDefinitionView {
            id: self.id,
            name: self.name@,
            kind: self.kind,
            arguments: RoutineArgument::views(self.arguments@),
            return_type: match self.return_type { Some(x) => Some(x@), None => None },
            return_declared_type: self.return_declared_type,
            returns_set: self.returns_set,
            language: self.language@,
            body: self.body@,
        }
    }

    /// The contents of each value of a sequence.
    pub open spec fn views(l: Seq<RoutineDefinition>) -> Seq<RoutineDefinitionView> {
        Seq::new(l.len(), |i: int| l[i]@)
    }

    /// Copies every value of a vector.
    pub fn clone_all(l: &Vec<RoutineDefinition>) -> (out: Vec<RoutineDefinition>)
        ensures
            RoutineDefinition::views(out@) == RoutineDefinition::views(l@),
    {
        let mut out: Vec<RoutineDefinition> = Vec::new();
        for i in 0..l.len()
            invariant
                out.len() == i,
                forall|k: int| 0 <= k < i ==> out@[k]@ == l@[k]@,
        {
            out.push(l[i].clone());
        }
        assert(RoutineDefinition::views(out@) =~= RoutineDefinition::views(l@));
        out
    }

}

impl Clone for RoutineDefinition {
    fn clone(&self) -> (r: Self)
        ensures
            r@ == self@,
    {
        RoutineDefinition {
            id: self.id,
            name: self.name.clone(),
            kind: self.kind,
            arguments: RoutineArgument::clone_all(&self.arguments),
            return_type: match &self.return_type { Some(y) => Some(y.clone()), None => None },
            return_declared_type: self.return_declared_type,
            returns_set: self.returns_set,
            language: self.language.clone(),
            body: self.body.clone(),
        }
    }
}

/// A schema and everything in it.
#[derive(Debug, PartialEq)]
pub struct SchemaDefinition {
    pub id: SchemaId,
    pub name: Identifier,
    pub tables: Vec<TableDefinition>,
    pub views: Vec<ViewDefinition>,
    pub sequences: Vec<SequenceDefinition>,
    pub types: Vec<TypeDefinition>,
    pub routines: Vec<RoutineDefinition>,
}

/// Mathematical contents of a [`SchemaDefinition`].
pub struct SchemaDefinitionView {
    pub id: SchemaId,
    pub name: Seq<char>,
    pub tables: Seq<TableDefinitionView>,
    pub views: Seq<ViewDefinitionView>,
    pub sequences: Seq<SequenceDefinitionView>,
    pub types: Seq<TypeDefinitionView>,
    pub routines: Seq<RoutineDefinitionView>,
}

impl SchemaDefinition {
    /// The value as mathematical data.
    pub open spec fn view(&self) -> SchemaDefinitionView {
        SchemaDefinitionView {
            id: self.id,
            name: self.name@,
            tables: TableDefinition::views(self.tables@),
            views: ViewDefinition::views(self.views@),
            sequences: SequenceDefinition::views(self.sequences@),
            types: TypeDefinition::views(self.types@),
            routines: RoutineDefinition::views(self.routines@),
        }
    }

    /// The contents of each value of a sequence.
    pub open spec fn views(l: Seq<SchemaDefinition>) -> Seq<SchemaDefinitionView> {
        Seq::new(l.len(), |i: int| l[i]@)
    }

    /// Copies every value of a vector.
    pub fn clone_all(l: &Vec<SchemaDefinition>) -> (out: Vec<SchemaDefinition>)
        ensures
            SchemaDefinition::views(out@) == SchemaDefinition::views(l@),
    {
        let mut out: Vec<SchemaDefinition> = Vec::new();
        for i in 0..l.len()
            invariant
                out.len() == i,
                forall|k: int| 0 <= k < i ==> out@[k]@ == l@[k]@,
        {
            out.push(l[i].clone());
        }
        assert(SchemaDefinition::views(out@) =~= SchemaDefinition::views(l@));
        out
    }

}

impl Clone for SchemaDefinition {
    fn clone(&self) -> (r: Self)
        ensures
            r@ == self@,
    {
        SchemaDefinition {
            id: self.id,
            name: self.name.clone(),
            tables: TableDefinition::clone_all(&self.tables),
            views: ViewDefinition::clone_all(&self.views),
            sequences: SequenceDefinition::clone_all(&self.sequences),
            types: TypeDefinition::clone_all(&self.types),
            routines: RoutineDefinition::clone_all(&self.routines),
        }
    }
}

/// The objects of one database. Identities below `next_id` are in use.
#[derive(Debug, PartialEq)]
pub struct Catalog {
    pub database: Identifier,
    pub schemas: Vec<SchemaDefinition>,
    pub next_id: u64,
}

/// Mathematical contents of a [`Catalog`].
pub struct CatalogView {
    pub database: Seq<char>,
    pub schemas: Seq<SchemaDefinitionView>,
    pub next_id: u64,
}

impl Catalog {
    /// The value as mathematical data.
    pub open spec fn view(&self) -> CatalogView {
        CatalogView {
            database: self.database@,
            schemas: SchemaDefinition::views(self.schemas@),
            next_id: self.next_id,
        }
    }

}

impl Clone for Catalog {
    fn clone(&self) -> (r: Self)
        ensures
            r@ == self@,
    {
        Catalog {
            database: self.database.clone(),
            schemas: SchemaDefinition::clone_all(&self.schemas),
            next_id: self.next_id,
        }
    }
}

/// The first schema with a name of a list, from a position on.
pub open spec fn find_schema(l: Seq<SchemaDefinitionView>, key: Seq<char>, i: int) -> Option<SchemaDefinitionView>
    decreases l.len() - i,
{
    if i < 0 || i >= l.len() {
        None
    } else if l[i].name == key {
        Some(l[i])
    } else {
        find_schema(l, key, i + 1)
    }
}

/// Searches the first schema with a name of a list.
pub fn search_schema<'a>(l: &'a Vec<SchemaDefinition>, key: &Identifier) -> (r: Option<&'a SchemaDefinition>)
    ensures
        match r {
            Some(x) => find_schema(SchemaDefinition::views(l@), key@, 0) == Some(x@),
            None => find_schema(SchemaDefinition::views(l@), key@, 0) is None,
        },
{
    let ghost s = SchemaDefinition::views(l@);
    for i in 0..l.len()
        invariant
            s == SchemaDefinition::views(l@),
            find_schema(s, key@, 0) == find_schema(s, key@, i as int),
    {
        assert(s[i as int] == l@[i as int]@);
        if l[i].name.same(key) {
            return Some(&l[i]);
        }
    }
    None
}

/// The first table with a name of a list, from a position on.
pub open spec fn find_table(l: Seq<TableDefinitionView>, key: Seq<char>, i: int) -> Option<TableDefinitionView>
    decreases l.len() - i,
{
    if i < 0 || i >= l.len() {
        None
    } else if l[i].name == key {
        Some(l[i])
    } else {
        find_table(l, key, i + 1)
    }
}

/// Searches the first table with a name of a list.
pub fn search_table<'a>(l: &'a Vec<TableDefinition>, key: &Identifier) -> (r: Option<&'a TableDefinition>)
    ensures
        match r {
            Some(x) => find_table(TableDefinition::views(l@), key@, 0) == Some(x@),
            None => find_table(TableDefinition::views(l@), key@, 0) is None,
        },
{
    let ghost s = TableDefinition::views(l@);
    for i in 0..l.len()
        invariant
            s == TableDefinition::views(l@),
            find_table(s, key@, 0) == find_table(s, key@, i as int),
    {
        assert(s[i as int] == l@[i as int]@);
        if l[i].name.same(key) {
            return Some(&l[i]);
        }
    }
    None
}

/// The first view with a name of a list, from a position on.
pub open spec fn find_view(l: Seq<ViewDefinitionView>, key: Seq<char>, i: int) -> Option<ViewDefinitionView>
    decreases l.len() - i,
{
    if i < 0 || i >= l.len() {
        None
    } else if l[i].name == key {
        Some(l[i])
    } else {
        find_view(l, key, i + 1)
    }
}

/// Searches the first view with a name of a list.
pub fn search_view<'a>(l: &'a Vec<ViewDefinition>, key: &Identifier) -> (r: Option<&'a ViewDefinition>)
    ensures
        match r {
            Some(x) => find_view(ViewDefinition::views(l@), key@, 0) == Some(x@),
            None => find_view(ViewDefinition::views(l@), key@, 0) is None,
        },
{
    let ghost s = ViewDefinition::views(l@);
    for i in 0..l.len()
        invariant
            s == ViewDefinition::views(l@),
            find_view(s, key@, 0) == find_view(s, key@, i as int),
    {
        assert(s[i as int] == l@[i as int]@);
        if l[i].name.same(key) {
            return Some(&l[i]);
        }
    }
    None
}

/// The first sequence with a name of a list, from a position on.
pub open spec fn find_sequence(l: Seq<SequenceDefinitionView>, key: Seq<char>, i: int) -> Option<SequenceDefinitionView>
    decreases l.len() - i,
{
    if i < 0 || i >= l.len() {
        None
    } else if l[i].name == key {
        Some(l[i])
    } else {
        find_sequence(l, key, i + 1)
    }
}

/// Searches the first sequence with a name of a list.
pub fn search_sequence<'a>(l: &'a Vec<SequenceDefinition>, key: &Identifier) -> (r: Option<&'a SequenceDefinition>)
    ensures
        match r {
            Some(x) => find_sequence(SequenceDefinition::views(l@), key@, 0) == Some(x@),
            None => find_sequence(SequenceDefinition::views(l@), key@, 0) is None,
        },
{
    let ghost s = SequenceDefinition::views(l@);
    for i in 0..l.len()
        invariant
            s == SequenceDefinition::views(l@),
            find_sequence(s, key@, 0) == find_sequence(s, key@, i as int),
    {
        assert(s[i as int] == l@[i as int]@);
        if l[i].name.same(key) {
            return Some(&l[i]);
        }
    }
    None
}

/// The first type with a name of a list, from a position on.
pub open spec fn find_type(l: Seq<TypeDefinitionView>, key: Seq<char>, i: int) -> Option<TypeDefinitionView>
    decreases l.len() - i,
{
    if i < 0 || i >= l.len() {
        None
    } else if l[i].name == key {
        Some(l[i])
    } else {
        find_type(l, key, i + 1)
    }
}

/// Searches the first type with a name of a list.
pub fn search_type<'a>(l: &'a Vec<TypeDefinition>, key: &Identifier) -> (r: Option<&'a TypeDefinition>)
    ensures
        match r {
            Some(x) => find_type(TypeDefinition::views(l@), key@, 0) == Some(x@),
            None => find_type(TypeDefinition::views(l@), key@, 0) is None,
        },
{
    let ghost s = TypeDefinition::views(l@);
    for i in 0..l.len()
        invariant
            s == TypeDefinition::views(l@),
            find_type(s, key@, 0) == find_type(s, key@, i as int),
    {
        assert(s[i as int] == l@[i as int]@);
        if l[i].name.same(key) {
            return Some(&l[i]);
        }
    }
    None
}

/// The first column with a name of a list, from a position on.
pub open spec fn find_column(l: Seq<ColumnDefinitionView>, key: Seq<char>, i: int) -> Option<ColumnDefinitionView>
    decreases l.len() - i,
{
    if i < 0 || i >= l.len() {
        None
    } else if l[i].name == key {
        Some(l[i])
    } else {
        find_column(l, key, i + 1)
    }
}

/// Searches the first column with a name of a list.
pub fn search_column<'a>(l: &'a Vec<ColumnDefinition>, key: &Identifier) -> (r: Option<&'a ColumnDefinition>)
    ensures
        match r {
            Some(x) => find_column(ColumnDefinition::views(l@), key@, 0) == Some(x@),
            None => find_column(ColumnDefinition::views(l@), key@, 0) is None,
        },
{
    let ghost s = ColumnDefinition::views(l@);
    for i in 0..l.len()
        invariant
            s == ColumnDefinition::views(l@),
            find_column(s, key@, 0) == find_column(s, key@, i as int),
    {
        assert(s[i as int] == l@[i as int]@);
        if l[i].name.same(key) {
            return Some(&l[i]);
        }
    }
    None
}

/// The first constraint with a name of a list, from a position on.
pub open spec fn find_constraint(l: Seq<ConstraintDefinitionView>, key: Seq<char>, i: int) -> Option<ConstraintDefinitionView>
    decreases l.len() - i,
{
    if i < 0 || i >= l.len() {
        None
    } else if l[i].name == key {
        Some(l[i])
    } else {
        find_constraint(l, key, i + 1)
    }
}

/// Searches the first constraint with a name of a list.
pub fn search_constraint<'a>(l: &'a Vec<ConstraintDefinition>, key: &Identifier) -> (r: Option<&'a ConstraintDefinition>)
    ensures
        match r {
            Some(x) => find_constraint(ConstraintDefinition::views(l@), key@, 0) == Some(x@),
            None => find_constraint(ConstraintDefinition::views(l@), key@, 0) is None,
        },
{
    let ghost s = ConstraintDefinition::views(l@);
    for i in 0..l.len()
        invariant
            s == ConstraintDefinition::views(l@),
            find_constraint(s, key@, 0) == find_constraint(s, key@, i as int),
    {
        assert(s[i as int] == l@[i as int]@);
        if l[i].name.same(key) {
            return Some(&l[i]);
        }
    }
    None
}

/// The first index with a name of a list, from a position on.
pub open spec fn find_index(l: Seq<IndexDefinitionView>, key: Seq<char>, i: int) -> Option<IndexDefinitionView>
    decreases l.len() - i,
{
    if i < 0 || i >= l.len() {
        None
    } else if l[i].name == key {
        Some(l[i])
    } else {
        find_index(l, key, i + 1)
    }
}

/// Searches the first index with a name of a list.
pub fn search_index<'a>(l: &'a Vec<IndexDefinition>, key: &Identifier) -> (r: Option<&'a IndexDefinition>)
    ensures
        match r {
            Some(x) => find_index(IndexDefinition::views(l@), key@, 0) == Some(x@),
            None => find_index(IndexDefinition::views(l@), key@, 0) is None,
        },
{
    let ghost s = IndexDefinition::views(l@);
    for i in 0..l.len()
        invariant
            s == IndexDefinition::views(l@),
            find_index(s, key@, 0) == find_index(s, key@, i as int),
    {
        assert(s[i as int] == l@[i as int]@);
        if l[i].name.same(key) {
            return Some(&l[i]);
        }
    }
    None
}

/// The first trigger with a name of a list, from a position on.
pub open spec fn find_trigger(l: Seq<TriggerDefinitionView>, key: Seq<char>, i: int) -> Option<TriggerDefinitionView>
    decreases l.len() - i,
{
    if i < 0 || i >= l.len() {
        None
    } else if l[i].name == key {
        Some(l[i])
    } else {
        find_trigger(l, key, i + 1)
    }
}

/// Searches the first trigger with a name of a list.
pub fn search_trigger<'a>(l: &'a Vec<TriggerDefinition>, key: &Identifier) -> (r: Option<&'a TriggerDefinition>)
    ensures
        match r {
            Some(x) => find_trigger(TriggerDefinition::views(l@), key@, 0) == Some(x@),
            None => find_trigger(TriggerDefinition::views(l@), key@, 0) is None,
        },
{
    let ghost s = TriggerDefinition::views(l@);
    for i in 0..l.len()
        invariant
            s == TriggerDefinition::views(l@),
            find_trigger(s, key@, 0) == find_trigger(s, key@, i as int),
    {
        assert(s[i as int] == l@[i as int]@);
        if l[i].name.same(key) {
            return Some(&l[i]);
        }
    }
    None
}

/// The first table with an identity of a list, from a position on.
pub open spec fn find_table_by_id(l: Seq<TableDefinitionView>, key: TableId, i: int) -> Option<TableDefinitionView>
    decreases l.len() - i,
{
    if i < 0 || i >= l.len() {
        None
    } else if l[i].id == key {
        Some(l[i])
    } else {
        find_table_by_id(l, key, i + 1)
    }
}

/// Searches the first table with an identity of a list.
pub fn search_table_by_id<'a>(l: &'a Vec<TableDefinition>, key: TableId) -> (r: Option<&'a TableDefinition>)
    ensures
        match r {
            Some(x) => find_table_by_id(TableDefinition::views(l@), key, 0) == Some(x@),
            None => find_table_by_id(TableDefinition::views(l@), key, 0) is None,
        },
{
    let ghost s = TableDefinition::views(l@);
    for i in 0..l.len()
        invariant
            s == TableDefinition::views(l@),
            find_table_by_id(s, key, 0) == find_table_by_id(s, key, i as int),
    {
        assert(s[i as int] == l@[i as int]@);
        if l[i].id == key {
            return Some(&l[i]);
        }
    }
    None
}

/// The first view with an identity of a list, from a position on.
pub open spec fn find_view_by_id(l: Seq<ViewDefinitionView>, key: ViewId, i: int) -> Option<ViewDefinitionView>
    decreases l.len() - i,
{
    if i < 0 || i >= l.len() {
        None
    } else if l[i].id == key {
        Some(l[i])
    } else {
        find_view_by_id(l, key, i + 1)
    }
}

/// Searches the first view with an identity of a list.
pub fn search_view_by_id<'a>(l: &'a Vec<ViewDefinition>, key: ViewId) -> (r: Option<&'a ViewDefinition>)
    ensures
        match r {
            Some(x) => find_view_by_id(ViewDefinition::views(l@), key, 0) == Some(x@),
            None => find_view_by_id(ViewDefinition::views(l@), key, 0) is None,
        },
{
    let ghost s = ViewDefinition::views(l@);
    for i in 0..l.len()
        invariant
            s == ViewDefinition::views(l@),
            find_view_by_id(s, key, 0) == find_view_by_id(s, key, i as int),
    {
        assert(s[i as int] == l@[i as int]@);
        if l[i].id == key {
            return Some(&l[i]);
        }
    }
    None
}

/// The first schema with an identity of a list, from a position on.
pub open spec fn find_schema_by_id(l: Seq<SchemaDefinitionView>, key: SchemaId, i: int) -> Option<SchemaDefinitionView>
    decreases l.len() - i,
{
    if i < 0 || i >= l.len() {
        None
    } else if l[i].id == key {
        Some(l[i])
    } else {
        find_schema_by_id(l, key, i + 1)
    }
}

/// Searches the first schema with an identity of a list.
pub fn search_schema_by_id<'a>(l: &'a Vec<SchemaDefinition>, key: SchemaId) -> (r: Option<&'a SchemaDefinition>)
    ensures
        match r {
            Some(x) => find_schema_by_id(SchemaDefinition::views(l@), key, 0) == Some(x@),
            None => find_schema_by_id(SchemaDefinition::views(l@), key, 0) is None,
        },
{
    let ghost s = SchemaDefinition::views(l@);
    for i in 0..l.len()
        invariant
            s == SchemaDefinition::views(l@),
            find_schema_by_id(s, key, 0) == find_schema_by_id(s, key, i as int),
    {
        assert(s[i as int] == l@[i as int]@);
        if l[i].id == key {
            return Some(&l[i]);
        }
    }
    None
}

/// The column positions of a table whose names match, first one first.
pub open spec fn find_column_index(l: Seq<ColumnDefinitionView>, name: Seq<char>, i: int) -> Option<usize>
    decreases l.len() - i,
{
    if i < 0 || i >= l.len() {
        None
    } else if l[i].name == name {
        Some(i as usize)
    } else {
        find_column_index(l, name, i + 1)
    }
}

/// The position of the column with an identity, first one first.
pub open spec fn find_column_index_by_id(l: Seq<ColumnDefinitionView>, id: ColumnId, i: int) -> Option<usize>
    decreases l.len() - i,
{
    if i < 0 || i >= l.len() {
        None
    } else if l[i].id == id {
        Some(i as usize)
    } else {
        find_column_index_by_id(l, id, i + 1)
    }
}

/// A found column position lies in the table and names the column.
pub proof fn lemma_column_index(l: Seq<ColumnDefinitionView>, name: Seq<char>, i: int)
    requires
        0 <= i,
        l.len() <= usize::MAX,
    ensures
        find_column_index(l, name, i) matches Some(k) ==> i <= k < l.len() && l[k as int].name == name,
    decreases l.len() - i,
{
    if i < l.len() && l[i].name != name {
        lemma_column_index(l, name, i + 1);
    }
}

/// The first index of a name among the tables of a schema.
pub open spec fn find_index_in(l: Seq<TableDefinitionView>, name: Seq<char>, i: int) -> Option<IndexDefinitionView>
    decreases l.len() - i,
{
    if i < 0 || i >= l.len() {
        None
    } else {
        match find_index(l[i].indexes, name, 0) {
            Some(x) => Some(x),
            None => find_index_in(l, name, i + 1),
        }
    }
}

/// The first table of an identity among the schemas.
pub open spec fn find_table_by_id_in(l: Seq<SchemaDefinitionView>, id: TableId, i: int) -> Option<TableDefinitionView>
    decreases l.len() - i,
{
    if i < 0 || i >= l.len() {
        None
    } else {
        match find_table_by_id(l[i].tables, id, 0) {
            Some(x) => Some(x),
            None => find_table_by_id_in(l, id, i + 1),
        }
    }
}

/// The first view of an identity among the schemas.
pub open spec fn find_view_by_id_in(l: Seq<SchemaDefinitionView>, id: ViewId, i: int) -> Option<ViewDefinitionView>
    decreases l.len() - i,
{
    if i < 0 || i >= l.len() {
        None
    } else {
        match find_view_by_id(l[i].views, id, 0) {
            Some(x) => Some(x),
            None => find_view_by_id_in(l, id, i + 1),
        }
    }
}

impl TableDefinition {
    /// The columns in order.
    pub fn columns(&self) -> (r: &Vec<ColumnDefinition>)
        ensures
            *r == self.columns,
    {
        &self.columns
    }

    /// The column of a name.
    pub fn column(&self, name: &Identifier) -> (r: Option<&ColumnDefinition>)
        ensures
            match r {
                Some(c) => find_column(self@.columns, name@, 0) == Some(c@),
                None => find_column(self@.columns, name@, 0) is None,
            },
    {
        search_column(&self.columns, name)
    }

    /// The position of the column of a name.
    pub fn column_index(&self, name: &Identifier) -> (r: Option<usize>)
        ensures
            r == find_column_index(self@.columns, name@, 0),
            r matches Some(k) ==> k < self.columns.len(),
    {
        let ghost l = ColumnDefinition::views(self.columns@);
        for i in 0..self.columns.len()
            invariant
                l == ColumnDefinition::views(self.columns@),
                find_column_index(l, name@, 0) == find_column_index(l, name@, i as int),
        {
            assert(l[i as int] == self.columns@[i as int]@);
            if self.columns[i].name.same(name) {
                return Some(i);
            }
        }
        None
    }

    /// The position of the column of an identity.
    pub fn column_index_by_id(&self, id: ColumnId) -> (r: Option<usize>)
        ensures
            r == find_column_index_by_id(self@.columns, id, 0),
            r matches Some(k) ==> k < self.columns.len(),
    {
        let ghost l = ColumnDefinition::views(self.columns@);
        for i in 0..self.columns.len()
            invariant
                l == ColumnDefinition::views(self.columns@),
                find_column_index_by_id(l, id, 0) == find_column_index_by_id(l, id, i as int),
        {
            assert(l[i as int] == self.columns@[i as int]@);
            if self.columns[i].id == id {
                return Some(i);
            }
        }
        None
    }

    /// The constraint of a name.
    pub fn constraint(&self, name: &Identifier) -> (r: Option<&ConstraintDefinition>)
        ensures
            match r {
                Some(c) => find_constraint(self@.constraints, name@, 0) == Some(c@),
                None => find_constraint(self@.constraints, name@, 0) is None,
            },
    {
        search_constraint(&self.constraints, name)
    }

    /// The index of a name.
    pub fn index(&self, name: &Identifier) -> (r: Option<&IndexDefinition>)
        ensures
            match r {
                Some(c) => find_index(self@.indexes, name@, 0) == Some(c@),
                None => find_index(self@.indexes, name@, 0) is None,
            },
    {
        search_index(&self.indexes, name)
    }

    /// The trigger of a name.
    pub fn trigger(&self, name: &Identifier) -> (r: Option<&TriggerDefinition>)
        ensures
            match r {
                Some(c) => find_trigger(self@.triggers, name@, 0) == Some(c@),
                None => find_trigger(self@.triggers, name@, 0) is None,
            },
    {
        search_trigger(&self.triggers, name)
    }

    /// A scope with one nullable column, in which a stored expression is bound.
    pub fn expression_scope(name: Identifier, data_type: ScalarType) -> (r: TableDefinition)
        ensures
            r@ == scope_of_value(name@, data_type@),
    {
        let column = ColumnDefinition {
            id: ColumnId(0),
            name: name.clone(),
            data_type,
            declared_type: None,
            nullable: true,
            primary_key: false,
            unique: false,
            default: None,
        };
        let mut columns: Vec<ColumnDefinition> = Vec::new();
        columns.push(column);
        let r = TableDefinition {
            id: TableId(0),
            schema_id: SchemaId(0),
            name,
            columns,
            constraints: Vec::new(),
            indexes: Vec::new(),
            triggers: Vec::new(),
        };
        assert(r@.columns =~= scope_of_value(name@, data_type@).columns);
        assert(r@.constraints =~= Seq::empty());
        assert(r@.indexes =~= Seq::empty());
        assert(r@.triggers =~= Seq::empty());
        r
    }

    /// A scope whose columns are the output columns of a query.
    pub fn expression_scope_for_schema(name: Identifier, output: &Schema) -> (r: TableDefinition)
        ensures
            r@ == scope_of_schema(name@, output@),
    {
        let mut columns: Vec<ColumnDefinition> = Vec::new();
        for i in 0..output.fields.len()
            invariant
                columns.len() == i,
                forall|k: int| 0 <= k < i ==> columns@[k]@ == scope_column(output@, k),
        {
            assert(output@.fields[i as int] == output.fields@[i as int]@);
            columns.push(ColumnDefinition {
                id: ColumnId(i as u64),
                name: Identifier::unquoted(output.fields[i].name.as_str()),
                data_type: output.fields[i].data_type.clone(),
                declared_type: None,
                nullable: output.fields[i].nullable,
                primary_key: false,
                unique: false,
                default: None,
            });
        }
        let r = TableDefinition {
            id: TableId(0),
            schema_id: SchemaId(0),
            name,
            columns,
            constraints: Vec::new(),
            indexes: Vec::new(),
            triggers: Vec::new(),
        };
        assert(r@.columns =~= scope_of_schema(name@, output@).columns);
        assert(r@.constraints =~= Seq::empty());
        assert(r@.indexes =~= Seq::empty());
        assert(r@.triggers =~= Seq::empty());
        r
    }
}

/// The scope in which a stored expression over one value is bound.
pub open spec fn scope_of_value(name: Seq<char>, data_type: ScalarTypeView) -> TableDefinitionView {
    TableDefinitionView {
        id: TableId(0),
        schema_id: SchemaId(0),
        name,
        columns: seq![
            ColumnDefinitionView {
                id: ColumnId(0),
                name,
                data_type,
                declared_type: None,
                nullable: true,
                primary_key: false,
                unique: false,
                default: None,
            },
        ],
        constraints: Seq::empty(),
        indexes: Seq::empty(),
        triggers: Seq::empty(),
    }
}

/// The column that stands for an output column of a query.
pub open spec fn scope_column(output: SchemaView, i: int) -> ColumnDefinitionView {
    ColumnDefinitionView {
        id: ColumnId(i as u64),
        name: lower(output.fields[i].name),
        data_type: output.fields[i].data_type,
        declared_type: None,
        nullable: output.fields[i].nullable,
        primary_key: false,
        unique: false,
        default: None,
    }
}

/// The scope whose columns are the output columns of a query.
pub open spec fn scope_of_schema(name: Seq<char>, output: SchemaView) -> TableDefinitionView {
    TableDefinitionView {
        id: TableId(0),
        schema_id: SchemaId(0),
        name,
        columns: Seq::new(output.fields.len(), |i: int| scope_column(output, i)),
        constraints: Seq::empty(),
        indexes: Seq::empty(),
        triggers: Seq::empty(),
    }
}

impl TypeDefinitionView {
    /// The scalar type that values of the user-defined type have.
    pub open spec fn logical(self) -> ScalarTypeView {
        match self.definition {
            UserDefinedTypeKindView::Enum { labels } => ScalarTypeView::Enum { type_id: self.id, labels },
            UserDefinedTypeKindView::Domain { base_type, .. } => base_type,
        }
    }
}

impl TypeDefinition {
    /// The scalar type that values of the user-defined type have.
    pub fn logical_type(&self) -> (r: ScalarType)
        ensures
            r@ == self@.logical(),
    {
        match &self.definition {
            UserDefinedTypeKind::Enum { labels } => ScalarType::Enum { type_id: self.id, labels: clone_strings(labels) },
            UserDefinedTypeKind::Domain { base_type, .. } => base_type.clone(),
        }
    }
}

impl ViewDefinition {
    /// The trigger of a name.
    pub fn trigger(&self, name: &Identifier) -> (r: Option<&TriggerDefinition>)
        ensures
            match r {
                Some(c) => find_trigger(self@.triggers, name@, 0) == Some(c@),
                None => find_trigger(self@.triggers, name@, 0) is None,
            },
    {
        search_trigger(&self.triggers, name)
    }
}

impl SchemaDefinitionView {
    /// Whether a table, view, sequence or index of the schema has a name.
    pub open spec fn has_relation(self, name: Seq<char>) -> bool {
        ||| find_table(self.tables, name, 0) is Some
        ||| find_view(self.views, name, 0) is Some
        ||| find_sequence(self.sequences, name, 0) is Some
        ||| find_index_in(self.tables, name, 0) is Some
    }
}

impl SchemaDefinition {
    /// The table of a name.
    pub fn table(&self, name: &Identifier) -> (r: Option<&TableDefinition>)
        ensures
            match r {
                Some(c) => find_table(self@.tables, name@, 0) == Some(c@),
                None => find_table(self@.tables, name@, 0) is None,
            },
    {
        search_table(&self.tables, name)
    }

    /// The view of a name.
    pub fn view_named(&self, name: &Identifier) -> (r: Option<&ViewDefinition>)
        ensures
            match r {
                Some(c) => find_view(self@.views, name@, 0) == Some(c@),
                None => find_view(self@.views, name@, 0) is None,
            },
    {
        search_view(&self.views, name)
    }

    /// The index of a name, in whichever table it stands.
    pub fn index(&self, name: &Identifier) -> (r: Option<&IndexDefinition>)
        ensures
            match r {
                Some(c) => find_index_in(self@.tables, name@, 0) == Some(c@),
                None => find_index_in(self@.tables, name@, 0) is None,
            },
    {
        let ghost l = TableDefinition::views(self.tables@);
        for i in 0..self.tables.len()
            invariant
                l == TableDefinition::views(self.tables@),
                find_index_in(l, name@, 0) == find_index_in(l, name@, i as int),
        {
            assert(l[i as int] == self.tables@[i as int]@);
            if let Some(x) = self.tables[i].index(name) {
                return Some(x);
            }
        }
        None
    }

    /// Decides whether a relation of the schema has a name.
    pub fn relation_name_exists(&self, name: &Identifier) -> (r: bool)
        ensures
            r == self@.has_relation(name@),
    {
        self.table(name).is_some() || self.view_named(name).is_some() || search_sequence(&self.sequences, name).is_some()
            || self.index(name).is_some()
    }
}

impl CatalogView {
    /// The schema of a name.
    pub open spec fn schema(self, name: Seq<char>) -> Option<SchemaDefinitionView> {
        find_schema(self.schemas, name, 0)
    }

    /// The table of a qualified name.
    pub open spec fn table(self, schema: Seq<char>, name: Seq<char>) -> Option<TableDefinitionView> {
        match self.schema(schema) {
            Some(s) => find_table(s.tables, name, 0),
            None => None,
        }
    }

    /// The view of a qualified name.
    pub open spec fn view_of(self, schema: Seq<char>, name: Seq<char>) -> Option<ViewDefinitionView> {
        match self.schema(schema) {
            Some(s) => find_view(s.views, name, 0),
            None => None,
        }
    }

    /// The index of a qualified name.
    pub open spec fn index(self, schema: Seq<char>, name: Seq<char>) -> Option<IndexDefinitionView> {
        match self.schema(schema) {
            Some(s) => find_index_in(s.tables, name, 0),
            None => None,
        }
    }

    /// The sequence of a qualified name.
    pub open spec fn sequence(self, schema: Seq<char>, name: Seq<char>) -> Option<SequenceDefinitionView> {
        match self.schema(schema) {
            Some(s) => find_sequence(s.sequences, name, 0),
            None => None,
        }
    }

    /// The user-defined type of a qualified name.
    pub open spec fn type_of(self, schema: Seq<char>, name: Seq<char>) -> Option<TypeDefinitionView> {
        match self.schema(schema) {
            Some(s) => find_type(s.types, name, 0),
            None => None,
        }
    }

    /// The table of an identity.
    pub open spec fn table_by_id(self, id: TableId) -> Option<TableDefinitionView> {
        find_table_by_id_in(self.schemas, id, 0)
    }

    /// The view of an identity.
    pub open spec fn view_by_id(self, id: ViewId) -> Option<ViewDefinitionView> {
        find_view_by_id_in(self.schemas, id, 0)
    }

    /// The schema of an identity.
    pub open spec fn schema_by_id(self, id: SchemaId) -> Option<SchemaDefinitionView> {
        find_schema_by_id(self.schemas, id, 0)
    }
}

impl Catalog {
    /// The schema of a name.
    pub fn schema(&self, name: &Identifier) -> (r: Option<&SchemaDefinition>)
        ensures
            match r {
                Some(c) => self@.schema(name@) == Some(c@),
                None => self@.schema(name@) is None,
            },
    {
        search_schema(&self.schemas, name)
    }

    /// The table of a qualified name.
    pub fn table(&self, schema: &Identifier, name: &Identifier) -> (r: Option<&TableDefinition>)
        ensures
            match r {
                Some(c) => self@.table(schema@, name@) == Some(c@),
                None => self@.table(schema@, name@) is None,
            },
    {
        match self.schema(schema) {
            Some(s) => s.table(name),
            None => None,
        }
    }

    /// The view of a qualified name.
    pub fn view_named(&self, schema: &Identifier, name: &Identifier) -> (r: Option<&ViewDefinition>)
        ensures
            match r {
                Some(c) => self@.view_of(schema@, name@) == Some(c@),
                None => self@.view_of(schema@, name@) is None,
            },
    {
        match self.schema(schema) {
            Some(s) => s.view_named(name),
            None => None,
        }
    }

    /// The index of a qualified name.
    pub fn index(&self, schema: &Identifier, name: &Identifier) -> (r: Option<&IndexDefinition>)
        ensures
            match r {
                Some(c) => self@.index(schema@, name@) == Some(c@),
                None => self@.index(schema@, name@) is None,
            },
    {
        match self.schema(schema) {
            Some(s) => s.index(name),
            None => None,
        }
    }

    /// The sequence of a qualified name.
    pub fn sequence(&self, schema: &Identifier, name: &Identifier) -> (r: Option<&SequenceDefinition>)
        ensures
            match r {
                Some(c) => self@.sequence(schema@, name@) == Some(c@),
                None => self@.sequence(schema@, name@) is None,
            },
    {
        match self.schema(schema) {
            Some(s) => search_sequence(&s.sequences, name),
            None => None,
        }
    }

    /// The user-defined type of a qualified name.
    pub fn user_defined_type(&self, schema: &Identifier, name: &Identifier) -> (r: Option<&TypeDefinition>)
        ensures
            match r {
                Some(c) => self@.type_of(schema@, name@) == Some(c@),
                None => self@.type_of(schema@, name@) is None,
            },
    {
        match self.schema(schema) {
            Some(s) => search_type(&s.types, name),
            None => None,
        }
    }

    /// The table of an identity.
    pub fn table_by_id(&self, id: TableId) -> (r: Option<&TableDefinition>)
        ensures
            match r {
                Some(c) => self@.table_by_id(id) == Some(c@),
                None => self@.table_by_id(id) is None,
            },
    {
        let ghost l = SchemaDefinition::views(self.schemas@);
        for i in 0..self.schemas.len()
            invariant
                l == SchemaDefinition::views(self.schemas@),
                find_table_by_id_in(l, id, 0) == find_table_by_id_in(l, id, i as int),
        {
            assert(l[i as int] == self.schemas@[i as int]@);
            if let Some(x) = search_table_by_id(&self.schemas[i].tables, id) {
                return Some(x);
            }
        }
        None
    }

    /// The view of an identity.
    pub fn view_by_id(&self, id: ViewId) -> (r: Option<&ViewDefinition>)
        ensures
            match r {
                Some(c) => self@.view_by_id(id) == Some(c@),
                None => self@.view_by_id(id) is None,
            },
    {
        let ghost l = SchemaDefinition::views(self.schemas@);
        for i in 0..self.schemas.len()
            invariant
                l == SchemaDefinition::views(self.schemas@),
                find_view_by_id_in(l, id, 0) == find_view_by_id_in(l, id, i as int),
        {
            assert(l[i as int] == self.schemas@[i as int]@);
            if let Some(x) = search_view_by_id(&self.schemas[i].views, id) {
                return Some(x);
            }
        }
        None
    }

    /// The schema of an identity.
    pub fn schema_by_id(&self, id: SchemaId) -> (r: Option<&SchemaDefinition>)
        ensures
            match r {
                Some(c) => self@.schema_by_id(id) == Some(c@),
                None => self@.schema_by_id(id) is None,
            },
    {
        search_schema_by_id(&self.schemas, id)
    }
}

} // verus!
