//! The statements that binding produces.

use vstd::prelude::*;

use crate::catalog::{
    Catalog, CatalogExpression, CatalogExpressionView, CatalogObjectRef, CatalogView, DomainConstraint, DomainConstraintView, DropBehavior,
    EnumValuePosition, EnumValuePositionView, NewColumn, NewColumnView, NewConstraint, NewConstraintView, NewIndex, NewIndexView,
    NewSequence, NewSequenceView, RoutineArgument, RoutineArgumentView, RoutineKind, TriggerEvent, TriggerLevel, TriggerTarget,
    TriggerTiming, ViewKind,
};
use crate::syntax::{
    AggregateFunction, BinaryOperator, DdlObjectKind, JoinKind, QuerySetOperator, ScalarFunction, SubqueryQuantifier, TransactionChain,
    TransactionCharacteristics, UnaryOperator, WindowFrameUnits, WindowFunction,
};
use crate::text::{copy_items, strings};
use crate::types::{
    ArrayDimension, ColumnId, ConstraintId, Field, FieldView, Identifier, IndexId, RoutineId, ScalarType, ScalarTypeView, Schema, SchemaId,
    SchemaView, SequenceId, TableId, TriggerId, TypeId, Value, ValueView, ViewId,
};

verus! {

/// Which rows a bound MERGE clause applies to.
#[derive(Debug, Clone, Copy, PartialEq, Eq, Structural)]
pub enum BoundMergeClauseKind {
    Matched,
    NotMatchedByTarget,
    NotMatchedBySource,
}

/// What a bound REINDEX rebuilds.
#[derive(Debug, Clone, Copy, PartialEq, Eq, Structural)]
pub enum BoundReindexTarget {
    Index(IndexId),
    Table(TableId),
    Schema(SchemaId),
    Database,
}

/// The shape of a bound expression.
#[derive(Debug, PartialEq)]
pub enum BoundExprKind {
    Column {
        index: usize,
    },
    Literal(Value),
    Parameter {
        index: usize,
    },
    Correlation {
        depth: usize,
        index: usize,
    },
    Unary {
        op: UnaryOperator,
        expr: Box<BoundExpr>,
    },
    Cast {
        expr: Box<BoundExpr>,
    },
    Array {
        elements: Vec<BoundExpr>,
        dimensions: Vec<ArrayDimension>,
    },
    Function {
        function: ScalarFunction,
        arguments: Vec<BoundExpr>,
    },
    Binary {
        left: Box<BoundExpr>,
        op: BinaryOperator,
        right: Box<BoundExpr>,
    },
    InList {
        expr: Box<BoundExpr>,
        list: Vec<BoundExpr>,
        negated: bool,
    },
    ApplyValue {
        index: usize,
    },
    Aggregate {
        function: AggregateFunction,
        argument: Option<Box<BoundExpr>>,
        distinct: bool,
        filter: Option<Box<BoundExpr>>,
    },
}

/// Mathematical contents of a [`BoundExprKind`].
pub enum BoundExprKindView {
    Column { index: usize },
    Literal(ValueView),
    Parameter { index: usize },
    Correlation { depth: usize, index: usize },
    Unary { op: UnaryOperator, expr: Box<BoundExprView> },
    Cast { expr: Box<BoundExprView> },
    Array { elements: Seq<BoundExprView>, dimensions: Seq<ArrayDimension> },
    Function { function: ScalarFunction, arguments: Seq<BoundExprView> },
    Binary { left: Box<BoundExprView>, op: BinaryOperator, right: Box<BoundExprView> },
    InList { expr: Box<BoundExprView>, list: Seq<BoundExprView>, negated: bool },
    ApplyValue { index: usize },
    Aggregate { function: AggregateFunction, argument: Option<Box<BoundExprView>>, distinct: bool, filter: Option<Box<BoundExprView>> },
}

impl BoundExprKind {
    /// The outermost layer of the value, over the contents of its parts.
    pub open spec fn shape(&self) -> BoundExprKindView {
        match *self {
            BoundExprKind::Column { index } => BoundExprKindView::Column { index },
            BoundExprKind::Literal(f0) => BoundExprKindView::Literal(f0@),
            BoundExprKind::Parameter { index } => BoundExprKindView::Parameter { index },
            BoundExprKind::Correlation { depth, index } => BoundExprKindView::Correlation { depth, index },
            BoundExprKind::Unary { op, expr } => BoundExprKindView::Unary { op, expr: Box::new((*expr)@) },
            BoundExprKind::Cast { expr } => BoundExprKindView::Cast { expr: Box::new((*expr)@) },
            BoundExprKind::Array { elements, dimensions } => BoundExprKindView::Array {
                elements: BoundExpr::views(elements@),
                dimensions: dimensions@,
            },
            BoundExprKind::Function { function, arguments } => BoundExprKindView::Function {
                function,
                arguments: BoundExpr::views(arguments@),
            },
            BoundExprKind::Binary { left, op, right } => BoundExprKindView::Binary {
                left: Box::new((*left)@),
                op,
                right: Box::new((*right)@),
            },
            BoundExprKind::InList { expr, list, negated } => BoundExprKindView::InList {
                expr: Box::new((*expr)@),
                list: BoundExpr::views(list@),
                negated,
            },
            BoundExprKind::ApplyValue { index } => BoundExprKindView::ApplyValue { index },
            BoundExprKind::Aggregate { function, argument, distinct, filter } => BoundExprKindView::Aggregate {
                function,
                argument: match argument { Some(x) => Some(Box::new((*x)@)), None => None },
                distinct,
                filter: match filter { Some(x) => Some(Box::new((*x)@)), None => None },
            },
        }
    }

}

/// A bound expression: its shape, its type and whether it may be null.
#[derive(Debug, PartialEq)]
pub struct BoundExpr {
    pub kind: BoundExprKind,
    pub data_type: ScalarType,
    pub nullable: bool,
}

/// Mathematical contents of a [`BoundExpr`].
pub struct BoundExprView {
    pub kind: BoundExprKindView,
    pub data_type: ScalarTypeView,
    pub nullable: bool,
}

impl BoundExpr {
    /// The value as mathematical data.
    pub closed spec fn view(&self) -> BoundExprView
        decreases self,
    {
        BoundExprView {
            kind: match self.kind {
                BoundExprKind::Column { index } => BoundExprKindView::Column { index },
                BoundExprKind::Literal(f0) => BoundExprKindView::Literal(f0@),
                BoundExprKind::Parameter { index } => BoundExprKindView::Parameter { index },
                BoundExprKind::Correlation { depth, index } => BoundExprKindView::Correlation { depth, index },
                BoundExprKind::Unary { op, expr } => BoundExprKindView::Unary { op, expr: Box::new((*expr)@) },
                BoundExprKind::Cast { expr } => BoundExprKindView::Cast { expr: Box::new((*expr)@) },
                BoundExprKind::Array { elements, dimensions } => BoundExprKindView::Array {
                    elements: BoundExpr::views_in(elements@),
                    dimensions: dimensions@,
                },
                BoundExprKind::Function { function, arguments } => BoundExprKindView::Function {
                    function,
                    arguments: BoundExpr::views_in(arguments@),
                },
                BoundExprKind::Binary { left, op, right } => BoundExprKindView::Binary {
                    left: Box::new((*left)@),
                    op,
                    right: Box::new((*right)@),
                },
                BoundExprKind::InList { expr, list, negated } => BoundExprKindView::InList {
                    expr: Box::new((*expr)@),
                    list: BoundExpr::views_in(list@),
                    negated,
                },
                BoundExprKind::ApplyValue { index } => BoundExprKindView::ApplyValue { index },
                BoundExprKind::Aggregate { function, argument, distinct, filter } => BoundExprKindView::Aggregate {
                    function,
                    argument: match argument { Some(x) => Some(Box::new((*x)@)), None => None },
                    distinct,
                    filter: match filter { Some(x) => Some(Box::new((*x)@)), None => None },
                },
            },
            data_type: self.data_type@,
            nullable: self.nullable,
        }
    }

    /// The outermost layer of the value, over the contents of its parts.
    pub open spec fn shape(&self) -> BoundExprView {
        BoundExprView {
            kind: self.kind.shape(),
            data_type: self.data_type@,
            nullable: self.nullable,
        }
    }

    /// The contents of a value are its outermost layer over the contents of its parts.
    pub proof fn unfold(&self)
        ensures
            self@ == self.shape(),
    {
        match self.kind {
            BoundExprKind::Array { elements, dimensions } => {
                BoundExpr::lemma_views_in(elements@);
            },
            BoundExprKind::Function { function, arguments } => {
                BoundExpr::lemma_views_in(arguments@);
            },
            BoundExprKind::InList { expr, list, negated } => {
                BoundExpr::lemma_views_in(list@);
            },
            _ => {},
        }
    }

    /// The contents of each value of a sequence.
    pub open spec fn views(l: Seq<BoundExpr>) -> Seq<BoundExprView> {
        Seq::new(l.len(), |i: int| l[i]@)
    }

    closed spec fn views_in(l: Seq<BoundExpr>) -> Seq<BoundExprView>
        decreases l,
    {
        Seq::new(l.len(), |i: int| if 0 <= i < l.len() { l[i]@ } else { arbitrary() })
    }

    proof fn lemma_views_in(l: Seq<BoundExpr>)
        ensures
            BoundExpr::views_in(l) == BoundExpr::views(l),
    {
        assert(BoundExpr::views_in(l) =~= BoundExpr::views(l));
    }

}

/// One bound item of a select list.
#[derive(Debug, PartialEq)]
pub struct BoundProjection {
    pub expr: BoundExpr,
    pub field: Field,
}

/// Mathematical contents of a [`BoundProjection`].
pub struct BoundProjectionView {
    pub expr: BoundExprView,
    pub field: FieldView,
}

impl BoundProjection {
    /// The value as mathematical data.
    pub open spec fn view(&self) -> BoundProjectionView {
        BoundProjectionView {
            expr: self.expr@,
            field: self.field@,
        }
    }

    /// The contents of each value of a sequence.
    pub open spec fn views(l: Seq<BoundProjection>) -> Seq<BoundProjectionView> {
        Seq::new(l.len(), |i: int| l[i]@)
    }

    /// Copies every value of a vector.
    pub fn clone_all(l: &Vec<BoundProjection>) -> (out: Vec<BoundProjection>)
        ensures
            BoundProjection::views(out@) == BoundProjection::views(l@),
    {
        let mut out: Vec<BoundProjection> = Vec::new();
        for i in 0..l.len()
            invariant
                out.len() == i,
                forall|k: int| 0 <= k < i ==> out@[k]@ == l@[k]@,
        {
            out.push(l[i].clone());
        }
        assert(BoundProjection::views(out@) =~= BoundProjection::views(l@));
        out
    }

}

impl Clone for BoundProjection {
    fn clone(&self) -> (r: Self)
        ensures
            r@ == self@,
    {
        BoundProjection {
            expr: self.expr.clone(),
            field: self.field.clone(),
        }
    }
}

/// One bound item of an ORDER BY list.
#[derive(Debug, PartialEq)]
pub struct BoundOrder {
    pub column_index: usize,
    pub expression: Option<BoundExpr>,
    pub data_type: ScalarType,
    pub ascending: bool,
    pub nulls_first: Option<bool>,
}

/// Mathematical contents of a [`BoundOrder`].
pub struct BoundOrderView {
    pub column_index: usize,
    pub expression: Option<BoundExprView>,
    pub data_type: ScalarTypeView,
    pub ascending: bool,
    pub nulls_first: Option<bool>,
}

impl BoundOrder {
    /// The value as mathematical data.
    pub open spec fn view(&self) -> BoundOrderView {
        BoundOrderView {
            column_index: self.column_index,
            expression: match self.expression { Some(x) => Some(x@), None => None },
            data_type: self.data_type@,
            ascending: self.ascending,
            nulls_first: self.nulls_first,
        }
    }

    /// The contents of each value of a sequence.
    pub open spec fn views(l: Seq<BoundOrder>) -> Seq<BoundOrderView> {
        Seq::new(l.len(), |i: int| l[i]@)
    }

    /// Copies every value of a vector.
    pub fn clone_all(l: &Vec<BoundOrder>) -> (out: Vec<BoundOrder>)
        ensures
            BoundOrder::views(out@) == BoundOrder::views(l@),
    {
        let mut out: Vec<BoundOrder> = Vec::new();
        for i in 0..l.len()
            invariant
                out.len() == i,
                forall|k: int| 0 <= k < i ==> out@[k]@ == l@[k]@,
        {
            out.push(l[i].clone());
        }
        assert(BoundOrder::views(out@) =~= BoundOrder::views(l@));
        out
    }

}

impl Clone for BoundOrder {
    fn clone(&self) -> (r: Self)
        ensures
            r@ == self@,
    {
        BoundOrder {
            column_index: self.column_index,
            expression: match &self.expression { Some(y) => Some(y.clone()), None => None },
            data_type: self.data_type.clone(),
            ascending: self.ascending,
            nulls_first: self.nulls_first,
        }
    }
}

/// One end of a bound window frame.
#[derive(Debug, PartialEq)]
pub enum BoundWindowFrameBound {
    UnboundedPreceding,
    Preceding(BoundExpr),
    CurrentRow,
    Following(BoundExpr),
    UnboundedFollowing,
}

/// Mathematical contents of a [`BoundWindowFrameBound`].
pub enum BoundWindowFrameBoundView {
    UnboundedPreceding,
    Preceding(BoundExprView),
    CurrentRow,
    Following(BoundExprView),
    UnboundedFollowing,
}

impl BoundWindowFrameBound {
    /// The value as mathematical data.
    pub open spec fn view(&self) -> BoundWindowFrameBoundView {
        match *self {
            BoundWindowFrameBound::UnboundedPreceding => BoundWindowFrameBoundView::UnboundedPreceding,
            BoundWindowFrameBound::Preceding(f0) => BoundWindowFrameBoundView::Preceding(f0@),
            BoundWindowFrameBound::CurrentRow => BoundWindowFrameBoundView::CurrentRow,
            BoundWindowFrameBound::Following(f0) => BoundWindowFrameBoundView::Following(f0@),
            BoundWindowFrameBound::UnboundedFollowing => BoundWindowFrameBoundView::UnboundedFollowing,
        }
    }

}

impl Clone for BoundWindowFrameBound {
    fn clone(&self) -> (r: Self)
        ensures
            r@ == self@,
    {
        match self {
            BoundWindowFrameBound::UnboundedPreceding => BoundWindowFrameBound::UnboundedPreceding,
            BoundWindowFrameBound::Preceding(f0) => BoundWindowFrameBound::Preceding(f0.clone()),
            BoundWindowFrameBound::CurrentRow => BoundWindowFrameBound::CurrentRow,
            BoundWindowFrameBound::Following(f0) => BoundWindowFrameBound::Following(f0.clone()),
            BoundWindowFrameBound::UnboundedFollowing => BoundWindowFrameBound::UnboundedFollowing,
        }
    }
}

/// A bound window frame.
#[derive(Debug, PartialEq)]
pub struct BoundWindowFrame {
    pub units: WindowFrameUnits,
    pub start_bound: BoundWindowFrameBound,
    pub end_bound: BoundWindowFrameBound,
}

/// Mathematical contents of a [`BoundWindowFrame`].
pub struct BoundWindowFrameView {
    pub units: WindowFrameUnits,
    pub start_bound: BoundWindowFrameBoundView,
    pub end_bound: BoundWindowFrameBoundView,
}

impl BoundWindowFrame {
    /// The value as mathematical data.
    pub open spec fn view(&self) -> BoundWindowFrameView {
        BoundWindowFrameView {
            units: self.units,
            start_bound: self.start_bound@,
            end_bound: self.end_bound@,
        }
    }

}

impl Clone for BoundWindowFrame {
    fn clone(&self) -> (r: Self)
        ensures
            r@ == self@,
    {
        BoundWindowFrame {
            units: self.units,
            start_bound: self.start_bound.clone(),
            end_bound: self.end_bound.clone(),
        }
    }
}

/// A bound window.
#[derive(Debug, PartialEq)]
pub struct BoundWindow {
    pub function: WindowFunction,
    pub value_index: usize,
    pub arguments: Vec<BoundExpr>,
    pub count_star: bool,
    pub filter: Option<BoundExpr>,
    pub partition_by: Vec<BoundExpr>,
    pub order_by: Vec<BoundOrder>,
    pub frame: Option<BoundWindowFrame>,
    pub data_type: ScalarType,
    pub nullable: bool,
}

/// Mathematical contents of a [`BoundWindow`].
pub struct BoundWindowView {
    pub function: WindowFunction,
    pub value_index: usize,
    pub arguments: Seq<BoundExprView>,
    pub count_star: bool,
    pub filter: Option<BoundExprView>,
    pub partition_by: Seq<BoundExprView>,
    pub order_by: Seq<BoundOrderView>,
    pub frame: Option<BoundWindowFrameView>,
    pub data_type: ScalarTypeView,
    pub nullable: bool,
}

impl BoundWindow {
    /// The value as mathematical data.
    pub open spec fn view(&self) -> BoundWindowView {
        BoundWindowView {
            function: self.function,
            value_index: self.value_index,
            arguments: BoundExpr::views(self.arguments@),
            count_star: self.count_star,
            filter: match self.filter { Some(x) => Some(x@), None => None },
            partition_by: BoundExpr::views(self.partition_by@),
            order_by: BoundOrder::views(self.order_by@),
            frame: match self.frame { Some(x) => Some(x@), None => None },
            data_type: self.data_type@,
            nullable: self.nullable,
        }
    }

    /// The contents of each value of a sequence.
    pub open spec fn views(l: Seq<BoundWindow>) -> Seq<BoundWindowView> {
        Seq::new(l.len(), |i: int| l[i]@)
    }

    /// Copies every value of a vector.
    pub fn clone_all(l: &Vec<BoundWindow>) -> (out: Vec<BoundWindow>)
        ensures
            BoundWindow::views(out@) == BoundWindow::views(l@),
    {
        let mut out: Vec<BoundWindow> = Vec::new();
        for i in 0..l.len()
            invariant
                out.len() == i,
                forall|k: int| 0 <= k < i ==> out@[k]@ == l@[k]@,
        {
            out.push(l[i].clone());
        }
        assert(BoundWindow::views(out@) =~= BoundWindow::views(l@));
        out
    }

}

impl Clone for BoundWindow {
    fn clone(&self) -> (r: Self)
        ensures
            r@ == self@,
    {
        BoundWindow {
            function: self.function,
            value_index: self.value_index,
            arguments: BoundExpr::clone_all(&self.arguments),
            count_star: self.count_star,
            filter: match &self.filter { Some(y) => Some(y.clone()), None => None },
            partition_by: BoundExpr::clone_all(&self.partition_by),
            order_by: BoundOrder::clone_all(&self.order_by),
            frame: match &self.frame { Some(y) => Some(y.clone()), None => None },
            data_type: self.data_type.clone(),
            nullable: self.nullable,
        }
    }
}

/// A bound RETURNING clause.
#[derive(Debug, PartialEq)]
pub struct BoundReturning {
    pub schema: Schema,
    pub projection: Vec<BoundProjection>,
}

/// Mathematical contents of a [`BoundReturning`].
pub struct BoundReturningView {
    pub schema: SchemaView,
    pub projection: Seq<BoundProjectionView>,
}

impl BoundReturning {
    /// The value as mathematical data.
    pub open spec fn view(&self) -> BoundReturningView {
        BoundReturningView {
            schema: self.schema@,
            projection: BoundProjection::views(self.projection@),
        }
    }

}

impl Clone for BoundReturning {
    fn clone(&self) -> (r: Self)
        ensures
            r@ == self@,
    {
        BoundReturning {
            schema: self.schema.clone(),
            projection: BoundProjection::clone_all(&self.projection),
        }
    }
}

/// What a bound ON CONFLICT does.
#[derive(Debug, PartialEq)]
pub enum BoundConflictAction {
    DoNothing,
    DoUpdate {
        assignments: Vec<(usize, BoundExpr)>,
        filter: Option<BoundExpr>,
    },
}

/// Mathematical contents of a [`BoundConflictAction`].
pub enum BoundConflictActionView {
    DoNothing,
    DoUpdate { assignments: Seq<(usize, BoundExprView)>, filter: Option<BoundExprView> },
}

impl BoundConflictAction {
    /// The value as mathematical data.
    pub open spec fn view(&self) -> BoundConflictActionView {
        match *self {
            BoundConflictAction::DoNothing => BoundConflictActionView::DoNothing,
            BoundConflictAction::DoUpdate { assignments, filter } => BoundConflictActionView::DoUpdate {
                assignments: bound_assignments(assignments@),
                filter: match filter { Some(x) => Some(x@), None => None },
            },
        }
    }

}

impl Clone for BoundConflictAction {
    fn clone(&self) -> (r: Self)
        ensures
            r@ == self@,
    {
        match self {
            BoundConflictAction::DoNothing => BoundConflictAction::DoNothing,
            BoundConflictAction::DoUpdate { assignments, filter } => BoundConflictAction::DoUpdate {
                assignments: clone_bound_assignments(assignments),
                filter: match filter { Some(y) => Some(y.clone()), None => None },
            },
        }
    }
}

/// A bound ON CONFLICT clause.
#[derive(Debug, PartialEq)]
pub struct BoundOnConflict {
    pub target_columns: Option<Vec<usize>>,
    pub action: BoundConflictAction,
}

/// Mathematical contents of a [`BoundOnConflict`].
pub struct BoundOnConflictView {
    pub target_columns: Option<Seq<usize>>,
    pub action: BoundConflictActionView,
}

impl BoundOnConflict {
    /// The value as mathematical data.
    pub open spec fn view(&self) -> BoundOnConflictView {
        BoundOnConflictView {
            target_columns: match self.target_columns { Some(x) => Some(x@), None => None },
            action: self.action@,
        }
    }

}

impl Clone for BoundOnConflict {
    fn clone(&self) -> (r: Self)
        ensures
            r@ == self@,
    {
        BoundOnConflict {
            target_columns: match &self.target_columns { Some(y) => Some(copy_items(y)), None => None },
            action: self.action.clone(),
        }
    }
}

/// A bound table and the slots of its columns.
#[derive(Debug, PartialEq, Eq)]
pub struct BoundTable {
    pub table_id: TableId,
    pub binding: Identifier,
    pub offset: usize,
    pub width: usize,
    pub nullable: bool,
}

/// Mathematical contents of a [`BoundTable`].
pub struct BoundTableView {
    pub table_id: TableId,
    pub binding: Seq<char>,
    pub offset: usize,
    pub width: usize,
    pub nullable: bool,
}

impl BoundTable {
    /// The value as mathematical data.
    pub open spec fn view(&self) -> BoundTableView {
        BoundTableView {
            table_id: self.table_id,
            binding: self.binding@,
            offset: self.offset,
            width: self.width,
            nullable: self.nullable,
        }
    }

}

impl Clone for BoundTable {
    fn clone(&self) -> (r: Self)
        ensures
            r@ == self@,
    {
        BoundTable {
            table_id: self.table_id,
            binding: self.binding.clone(),
            offset: self.offset,
            width: self.width,
            nullable: self.nullable,
        }
    }
}

/// What a bound MERGE clause does.
#[derive(Debug, PartialEq)]
pub enum BoundMergeAction {
    Update {
        assignments: Vec<(usize, BoundExpr)>,
    },
    Delete,
    Insert {
        column_indexes: Vec<usize>,
        values: Vec<BoundExpr>,
    },
    DoNothing,
}

/// Mathematical contents of a [`BoundMergeAction`].
pub enum BoundMergeActionView {
    Update { assignments: Seq<(usize, BoundExprView)> },
    Delete,
    Insert { column_indexes: Seq<usize>, values: Seq<BoundExprView> },
    DoNothing,
}

impl BoundMergeAction {
    /// The value as mathematical data.
    pub open spec fn view(&self) -> BoundMergeActionView {
        match *self {
            BoundMergeAction::Update { assignments } => BoundMergeActionView::Update { assignments: bound_assignments(assignments@) },
            BoundMergeAction::Delete => BoundMergeActionView::Delete,
            BoundMergeAction::Insert { column_indexes, values } => BoundMergeActionView::Insert {
                column_indexes: column_indexes@,
                values: BoundExpr::views(values@),
            },
            BoundMergeAction::DoNothing => BoundMergeActionView::DoNothing,
        }
    }

}

impl Clone for BoundMergeAction {
    fn clone(&self) -> (r: Self)
        ensures
            r@ == self@,
    {
        match self {
            BoundMergeAction::Update { assignments } => BoundMergeAction::Update { assignments: clone_bound_assignments(assignments) },
            BoundMergeAction::Delete => BoundMergeAction::Delete,
            BoundMergeAction::Insert { column_indexes, values } => BoundMergeAction::Insert {
                column_indexes: copy_items(column_indexes),
                values: BoundExpr::clone_all(values),
            },
            BoundMergeAction::DoNothing => BoundMergeAction::DoNothing,
        }
    }
}

/// A bound WHEN clause of MERGE.
#[derive(Debug, PartialEq)]
pub struct BoundMergeClause {
    pub kind: BoundMergeClauseKind,
    pub predicate: Option<BoundExpr>,
    pub action: BoundMergeAction,
}

/// Mathematical contents of a [`BoundMergeClause`].
pub struct BoundMergeClauseView {
    pub kind: BoundMergeClauseKind,
    pub predicate: Option<BoundExprView>,
    pub action: BoundMergeActionView,
}

impl BoundMergeClause {
    /// The value as mathematical data.
    pub open spec fn view(&self) -> BoundMergeClauseView {
        BoundMergeClauseView {
            kind: self.kind,
            predicate: match self.predicate { Some(x) => Some(x@), None => None },
            action: self.action@,
        }
    }

    /// The contents of each value of a sequence.
    pub open spec fn views(l: Seq<BoundMergeClause>) -> Seq<BoundMergeClauseView> {
        Seq::new(l.len(), |i: int| l[i]@)
    }

    /// Copies every value of a vector.
    pub fn clone_all(l: &Vec<BoundMergeClause>) -> (out: Vec<BoundMergeClause>)
        ensures
            BoundMergeClause::views(out@) == BoundMergeClause::views(l@),
    {
        let mut out: Vec<BoundMergeClause> = Vec::new();
        for i in 0..l.len()
            invariant
                out.len() == i,
                forall|k: int| 0 <= k < i ==> out@[k]@ == l@[k]@,
        {
            out.push(l[i].clone());
        }
        assert(BoundMergeClause::views(out@) =~= BoundMergeClause::views(l@));
        out
    }

}

impl Clone for BoundMergeClause {
    fn clone(&self) -> (r: Self)
        ensures
            r@ == self@,
    {
        BoundMergeClause {
            kind: self.kind,
            predicate: match &self.predicate { Some(y) => Some(y.clone()), None => None },
            action: self.action.clone(),
        }
    }
}

/// A bound MERGE statement.
#[derive(Debug, PartialEq)]
pub struct BoundMerge {
    pub target: BoundTable,
    pub source: BoundTable,
    pub on: BoundExpr,
    pub clauses: Vec<BoundMergeClause>,
    pub returning: Option<BoundReturning>,
}

/// Mathematical contents of a [`BoundMerge`].
pub struct BoundMergeView {
    pub target: BoundTableView,
    pub source: BoundTableView,
    pub on: BoundExprView,
    pub clauses: Seq<BoundMergeClauseView>,
    pub returning: Option<BoundReturningView>,
}

impl BoundMerge {
    /// The value as mathematical data.
    pub open spec fn view(&self) -> BoundMergeView {
        BoundMergeView {
            target: self.target@,
            source: self.source@,
            on: self.on@,
            clauses: BoundMergeClause::views(self.clauses@),
            returning: match self.returning { Some(x) => Some(x@), None => None },
        }
    }

}

impl Clone for BoundMerge {
    fn clone(&self) -> (r: Self)
        ensures
            r@ == self@,
    {
        BoundMerge {
            target: self.target.clone(),
            source: self.source.clone(),
            on: self.on.clone(),
            clauses: BoundMergeClause::clone_all(&self.clauses),
            returning: match &self.returning { Some(y) => Some(y.clone()), None => None },
        }
    }
}

/// One bound operation of ALTER TABLE.
#[derive(Debug, PartialEq)]
pub enum BoundAlterTableOperation {
    RenameTable {
        new_name: Identifier,
    },
    RenameColumn {
        column_id: ColumnId,
        new_name: Identifier,
    },
    AddColumn {
        column: NewColumn,
        if_not_exists: bool,
    },
    DropColumns {
        column_ids: Vec<ColumnId>,
        if_exists: bool,
        behavior: DropBehavior,
    },
    SetNotNull {
        column_id: ColumnId,
    },
    DropNotNull {
        column_id: ColumnId,
    },
    SetDefault {
        column_id: ColumnId,
        default: CatalogExpression,
    },
    DropDefault {
        column_id: ColumnId,
    },
    SetDataType {
        column_id: ColumnId,
        data_type: ScalarType,
        declared_type: Option<TypeId>,
    },
    AddConstraint {
        constraint: NewConstraint,
    },
    DropConstraint {
        constraint_id: Option<ConstraintId>,
        if_exists: bool,
        behavior: DropBehavior,
    },
    SetTriggerEnabled {
        trigger_id: Option<TriggerId>,
        name: Identifier,
        enabled: bool,
    },
}

/// Mathematical contents of a [`BoundAlterTableOperation`].
pub enum BoundAlterTableOperationView {
    RenameTable { new_name: Seq<char> },
    RenameColumn { column_id: ColumnId, new_name: Seq<char> },
    AddColumn { column: NewColumnView, if_not_exists: bool },
    DropColumns { column_ids: Seq<ColumnId>, if_exists: bool, behavior: DropBehavior },
    SetNotNull { column_id: ColumnId },
    DropNotNull { column_id: ColumnId },
    SetDefault { column_id: ColumnId, default: CatalogExpressionView },
    DropDefault { column_id: ColumnId },
    SetDataType { column_id: ColumnId, data_type: ScalarTypeView, declared_type: Option<TypeId> },
    AddConstraint { constraint: NewConstraintView },
    DropConstraint { constraint_id: Option<ConstraintId>, if_exists: bool, behavior: DropBehavior },
    SetTriggerEnabled { trigger_id: Option<TriggerId>, name: Seq<char>, enabled: bool },
}

impl BoundAlterTableOperation {
    /// The value as mathematical data.
    pub open spec fn view(&self) -> BoundAlterTableOperationView {
        match *self {
            BoundAlterTableOperation::RenameTable { new_name } => BoundAlterTableOperationView::RenameTable { new_name: new_name@ },
            BoundAlterTableOperation::RenameColumn { column_id, new_name } => BoundAlterTableOperationView::RenameColumn {
                column_id,
                new_name: new_name@,
            },
            BoundAlterTableOperation::AddColumn { column, if_not_exists } => BoundAlterTableOperationView::AddColumn {
                column: column@,
                if_not_exists,
            },
            BoundAlterTableOperation::DropColumns { column_ids, if_exists, behavior } => BoundAlterTableOperationView::DropColumns {
                column_ids: column_ids@,
                if_exists,
                behavior,
            },
            BoundAlterTableOperation::SetNotNull { column_id } => BoundAlterTableOperationView::SetNotNull { column_id },
            BoundAlterTableOperation::DropNotNull { column_id } => BoundAlterTableOperationView::DropNotNull { column_id },
            BoundAlterTableOperation::SetDefault { column_id, default } => BoundAlterTableOperationView::SetDefault {
                column_id,
                default: default@,
            },
            BoundAlterTableOperation::DropDefault { column_id } => BoundAlterTableOperationView::DropDefault { column_id },
            BoundAlterTableOperation::SetDataType { column_id, data_type, declared_type } => BoundAlterTableOperationView::SetDataType {
                column_id,
                data_type: data_type@,
                declared_type,
            },
            BoundAlterTableOperation::AddConstraint { constraint } => BoundAlterTableOperationView::AddConstraint {
                constraint: constraint@,
            },
            BoundAlterTableOperation::DropConstraint {
                constraint_id,
                if_exists,
                behavior,
            } => BoundAlterTableOperationView::DropConstraint {
                constraint_id,
                if_exists,
                behavior,
            },
            BoundAlterTableOperation::SetTriggerEnabled { trigger_id, name, enabled } => BoundAlterTableOperationView::SetTriggerEnabled {
                trigger_id,
                name: name@,
                enabled,
            },
        }
    }

    /// The contents of each value of a sequence.
    pub open spec fn views(l: Seq<BoundAlterTableOperation>) -> Seq<BoundAlterTableOperationView> {
        Seq::new(l.len(), |i: int| l[i]@)
    }

    /// Copies every value of a vector.
    pub fn clone_all(l: &Vec<BoundAlterTableOperation>) -> (out: Vec<BoundAlterTableOperation>)
        ensures
            BoundAlterTableOperation::views(out@) == BoundAlterTableOperation::views(l@),
    {
        let mut out: Vec<BoundAlterTableOperation> = Vec::new();
        for i in 0..l.len()
            invariant
                out.len() == i,
                forall|k: int| 0 <= k < i ==> out@[k]@ == l@[k]@,
        {
            out.push(l[i].clone());
        }
        assert(BoundAlterTableOperation::views(out@) =~= BoundAlterTableOperation::views(l@));
        out
    }

}

impl Clone for BoundAlterTableOperation {
    fn clone(&self) -> (r: Self)
        ensures
            r@ == self@,
    {
        match self {
            BoundAlterTableOperation::RenameTable { new_name } => BoundAlterTableOperation::RenameTable { new_name: new_name.clone() },
            BoundAlterTableOperation::RenameColumn { column_id, new_name } => BoundAlterTableOperation::RenameColumn {
                column_id: *column_id,
                new_name: new_name.clone(),
            },
            BoundAlterTableOperation::AddColumn { column, if_not_exists } => BoundAlterTableOperation::AddColumn {
                column: column.clone(),
                if_not_exists: *if_not_exists,
            },
            BoundAlterTableOperation::DropColumns { column_ids, if_exists, behavior } => BoundAlterTableOperation::DropColumns {
                column_ids: copy_items(column_ids),
                if_exists: *if_exists,
                behavior: *behavior,
            },
            BoundAlterTableOperation::SetNotNull { column_id } => BoundAlterTableOperation::SetNotNull { column_id: *column_id },
            BoundAlterTableOperation::DropNotNull { column_id } => BoundAlterTableOperation::DropNotNull { column_id: *column_id },
            BoundAlterTableOperation::SetDefault { column_id, default } => BoundAlterTableOperation::SetDefault {
                column_id: *column_id,
                default: default.clone(),
            },
            BoundAlterTableOperation::DropDefault { column_id } => BoundAlterTableOperation::DropDefault { column_id: *column_id },
            BoundAlterTableOperation::SetDataType { column_id, data_type, declared_type } => BoundAlterTableOperation::SetDataType {
                column_id: *column_id,
                data_type: data_type.clone(),
                declared_type: *declared_type,
            },
            BoundAlterTableOperation::AddConstraint { constraint } => BoundAlterTableOperation::AddConstraint {
                constraint: constraint.clone(),
            },
            BoundAlterTableOperation::DropConstraint { constraint_id, if_exists, behavior } => BoundAlterTableOperation::DropConstraint {
                constraint_id: *constraint_id,
                if_exists: *if_exists,
                behavior: *behavior,
            },
            BoundAlterTableOperation::SetTriggerEnabled { trigger_id, name, enabled } => BoundAlterTableOperation::SetTriggerEnabled {
                trigger_id: *trigger_id,
                name: name.clone(),
                enabled: *enabled,
            },
        }
    }
}

/// The bound operation of ALTER DOMAIN.
#[derive(Debug, PartialEq)]
pub enum BoundAlterDomainOperation {
    SetDefault(CatalogExpression),
    DropDefault,
    SetNotNull,
    DropNotNull,
    AddConstraint(DomainConstraint),
    DropConstraint { name: Identifier, if_exists: bool },
}

/// Mathematical contents of a [`BoundAlterDomainOperation`].
pub enum BoundAlterDomainOperationView {
    SetDefault(CatalogExpressionView),
    DropDefault,
    SetNotNull,
    DropNotNull,
    AddConstraint(DomainConstraintView),
    DropConstraint { name: Seq<char>, if_exists: bool },
}

impl BoundAlterDomainOperation {
    /// The value as mathematical data.
    pub open spec fn view(&self) -> BoundAlterDomainOperationView {
        match *self {
            BoundAlterDomainOperation::SetDefault(f0) => BoundAlterDomainOperationView::SetDefault(f0@),
            BoundAlterDomainOperation::DropDefault => BoundAlterDomainOperationView::DropDefault,
            BoundAlterDomainOperation::SetNotNull => BoundAlterDomainOperationView::SetNotNull,
            BoundAlterDomainOperation::DropNotNull => BoundAlterDomainOperationView::DropNotNull,
            BoundAlterDomainOperation::AddConstraint(f0) => BoundAlterDomainOperationView::AddConstraint(f0@),
            BoundAlterDomainOperation::DropConstraint { name, if_exists } => BoundAlterDomainOperationView::DropConstraint {
                name: name@,
                if_exists,
            },
        }
    }

}

impl Clone for BoundAlterDomainOperation {
    fn clone(&self) -> (r: Self)
        ensures
            r@ == self@,
    {
        match self {
            BoundAlterDomainOperation::SetDefault(f0) => BoundAlterDomainOperation::SetDefault(f0.clone()),
            BoundAlterDomainOperation::DropDefault => BoundAlterDomainOperation::DropDefault,
            BoundAlterDomainOperation::SetNotNull => BoundAlterDomainOperation::SetNotNull,
            BoundAlterDomainOperation::DropNotNull => BoundAlterDomainOperation::DropNotNull,
            BoundAlterDomainOperation::AddConstraint(f0) => BoundAlterDomainOperation::AddConstraint(f0.clone()),
            BoundAlterDomainOperation::DropConstraint { name, if_exists } => BoundAlterDomainOperation::DropConstraint {
                name: name.clone(),
                if_exists: *if_exists,
            },
        }
    }
}

/// A bound operation on a sequence.
#[derive(Debug, PartialEq)]
pub enum BoundSequenceOperation {
    NextValue,
    CurrentValue { value: Option<i64> },
    SetValue { value: BoundExpr, is_called: bool },
}

/// Mathematical contents of a [`BoundSequenceOperation`].
pub enum BoundSequenceOperationView {
    NextValue,
    CurrentValue { value: Option<i64> },
    SetValue { value: BoundExprView, is_called: bool },
}

impl BoundSequenceOperation {
    /// The value as mathematical data.
    pub open spec fn view(&self) -> BoundSequenceOperationView {
        match *self {
            BoundSequenceOperation::NextValue => BoundSequenceOperationView::NextValue,
            BoundSequenceOperation::CurrentValue { value } => BoundSequenceOperationView::CurrentValue { value },
            BoundSequenceOperation::SetValue { value, is_called } => BoundSequenceOperationView::SetValue { value: value@, is_called },
        }
    }

}

impl Clone for BoundSequenceOperation {
    fn clone(&self) -> (r: Self)
        ensures
            r@ == self@,
    {
        match self {
            BoundSequenceOperation::NextValue => BoundSequenceOperation::NextValue,
            BoundSequenceOperation::CurrentValue { value } => BoundSequenceOperation::CurrentValue { value: *value },
            BoundSequenceOperation::SetValue { value, is_called } => BoundSequenceOperation::SetValue {
                value: value.clone(),
                is_called: *is_called,
            },
        }
    }
}

/// How an apply combines a row with a subquery.
#[derive(Debug, PartialEq)]
pub enum BoundApplyKind {
    Scalar,
    Exists {
        negated: bool,
    },
    In {
        left: BoundExpr,
        negated: bool,
    },
    Quantified {
        left: BoundExpr,
        op: BinaryOperator,
        quantifier: SubqueryQuantifier,
    },
    RowScalar {
        left: Vec<BoundExpr>,
        op: BinaryOperator,
        operand_types: Vec<ScalarType>,
    },
    RowQuantified {
        left: Vec<BoundExpr>,
        op: BinaryOperator,
        quantifier: SubqueryQuantifier,
        negated: bool,
        operand_types: Vec<ScalarType>,
    },
}

/// Mathematical contents of a [`BoundApplyKind`].
pub enum BoundApplyKindView {
    Scalar,
    Exists { negated: bool },
    In { left: BoundExprView, negated: bool },
    Quantified { left: BoundExprView, op: BinaryOperator, quantifier: SubqueryQuantifier },
    RowScalar { left: Seq<BoundExprView>, op: BinaryOperator, operand_types: Seq<ScalarTypeView> },
    RowQuantified {
        left: Seq<BoundExprView>,
        op: BinaryOperator,
        quantifier: SubqueryQuantifier,
        negated: bool,
        operand_types: Seq<ScalarTypeView>,
    },
}

impl BoundApplyKind {
    /// The value as mathematical data.
    pub open spec fn view(&self) -> BoundApplyKindView {
        match *self {
            BoundApplyKind::Scalar => BoundApplyKindView::Scalar,
            BoundApplyKind::Exists { negated } => BoundApplyKindView::Exists { negated },
            BoundApplyKind::In { left, negated } => BoundApplyKindView::In { left: left@, negated },
            BoundApplyKind::Quantified { left, op, quantifier } => BoundApplyKindView::Quantified { left: left@, op, quantifier },
            BoundApplyKind::RowScalar { left, op, operand_types } => BoundApplyKindView::RowScalar {
                left: BoundExpr::views(left@),
                op,
                operand_types: ScalarType::views(operand_types@),
            },
            BoundApplyKind::RowQuantified { left, op, quantifier, negated, operand_types } => BoundApplyKindView::RowQuantified {
                left: BoundExpr::views(left@),
                op,
                quantifier,
                negated,
                operand_types: ScalarType::views(operand_types@),
            },
        }
    }

}

impl Clone for BoundApplyKind {
    fn clone(&self) -> (r: Self)
        ensures
            r@ == self@,
    {
        match self {
            BoundApplyKind::Scalar => BoundApplyKind::Scalar,
            BoundApplyKind::Exists { negated } => BoundApplyKind::Exists { negated: *negated },
            BoundApplyKind::In { left, negated } => BoundApplyKind::In { left: left.clone(), negated: *negated },
            BoundApplyKind::Quantified { left, op, quantifier } => BoundApplyKind::Quantified {
                left: left.clone(),
                op: *op,
                quantifier: *quantifier,
            },
            BoundApplyKind::RowScalar { left, op, operand_types } => BoundApplyKind::RowScalar {
                left: BoundExpr::clone_all(left),
                op: *op,
                operand_types: ScalarType::clone_all(operand_types),
            },
            BoundApplyKind::RowQuantified { left, op, quantifier, negated, operand_types } => BoundApplyKind::RowQuantified {
                left: BoundExpr::clone_all(left),
                op: *op,
                quantifier: *quantifier,
                negated: *negated,
                operand_types: ScalarType::clone_all(operand_types),
            },
        }
    }
}

/// A bound subquery evaluated per row.
#[derive(Debug, PartialEq)]
pub struct BoundApply {
    pub kind: BoundApplyKind,
    pub query: Box<BoundStatement>,
}

/// Mathematical contents of a [`BoundApply`].
pub struct BoundApplyView {
    pub kind: BoundApplyKindView,
    pub query: Box<BoundStatementView>,
}

impl BoundApply {
    /// The value as mathematical data.
    pub closed spec fn view(&self) -> BoundApplyView
        decreases self,
    {
        BoundApplyView {
            kind: self.kind@,
            query: Box::new((*self.query)@),
        }
    }

    /// The outermost layer of the value, over the contents of its parts.
    pub open spec fn shape(&self) -> BoundApplyView {
        BoundApplyView {
            kind: self.kind@,
            query: Box::new((*self.query)@),
        }
    }

    /// The contents of a value are its outermost layer over the contents of its parts.
    pub proof fn unfold(&self)
        ensures
            self@ == self.shape(),
    {
    }

    /// The contents of each value of a sequence.
    pub open spec fn views(l: Seq<BoundApply>) -> Seq<BoundApplyView> {
        Seq::new(l.len(), |i: int| l[i]@)
    }

    closed spec fn views_in(l: Seq<BoundApply>) -> Seq<BoundApplyView>
        decreases l,
    {
        Seq::new(l.len(), |i: int| if 0 <= i < l.len() { l[i]@ } else { arbitrary() })
    }

    proof fn lemma_views_in(l: Seq<BoundApply>)
        ensures
            BoundApply::views_in(l) == BoundApply::views(l),
    {
        assert(BoundApply::views_in(l) =~= BoundApply::views(l));
    }

}

/// The right side of a bound join.
#[derive(Debug, PartialEq)]
pub enum BoundJoinSource {
    Table(BoundTable),
    Derived {
        lateral: bool,
        query: Box<BoundStatement>,
        binding: Identifier,
        offset: usize,
        width: usize,
        nullable: bool,
    },
}

/// Mathematical contents of a [`BoundJoinSource`].
pub enum BoundJoinSourceView {
    Table(BoundTableView),
    Derived { lateral: bool, query: Box<BoundStatementView>, binding: Seq<char>, offset: usize, width: usize, nullable: bool },
}

impl BoundJoinSource {
    /// The value as mathematical data.
    pub closed spec fn view(&self) -> BoundJoinSourceView
        decreases self,
    {
        match *self {
            BoundJoinSource::Table(f0) => BoundJoinSourceView::Table(f0@),
            BoundJoinSource::Derived { lateral, query, binding, offset, width, nullable } => BoundJoinSourceView::Derived {
                lateral,
                query: Box::new((*query)@),
                binding: binding@,
                offset,
                width,
                nullable,
            },
        }
    }

    /// The outermost layer of the value, over the contents of its parts.
    pub open spec fn shape(&self) -> BoundJoinSourceView {
        match *self {
            BoundJoinSource::Table(f0) => BoundJoinSourceView::Table(f0@),
            BoundJoinSource::Derived { lateral, query, binding, offset, width, nullable } => BoundJoinSourceView::Derived {
                lateral,
                query: Box::new((*query)@),
                binding: binding@,
                offset,
                width,
                nullable,
            },
        }
    }

    /// The contents of a value are its outermost layer over the contents of its parts.
    pub proof fn unfold(&self)
        ensures
            self@ == self.shape(),
    {
    }

}

/// A bound join.
#[derive(Debug, PartialEq)]
pub struct BoundJoin {
    pub source: BoundJoinSource,
    pub kind: JoinKind,
    pub on: BoundExpr,
}

/// Mathematical contents of a [`BoundJoin`].
pub struct BoundJoinView {
    pub source: BoundJoinSourceView,
    pub kind: JoinKind,
    pub on: BoundExprView,
}

impl BoundJoin {
    /// The value as mathematical data.
    pub closed spec fn view(&self) -> BoundJoinView
        decreases self,
    {
        BoundJoinView {
            source: self.source@,
            kind: self.kind,
            on: self.on@,
        }
    }

    /// The outermost layer of the value, over the contents of its parts.
    pub open spec fn shape(&self) -> BoundJoinView {
        BoundJoinView {
            source: self.source@,
            kind: self.kind,
            on: self.on@,
        }
    }

    /// The contents of a value are its outermost layer over the contents of its parts.
    pub proof fn unfold(&self)
        ensures
            self@ == self.shape(),
    {
    }

    /// The contents of each value of a sequence.
    pub open spec fn views(l: Seq<BoundJoin>) -> Seq<BoundJoinView> {
        Seq::new(l.len(), |i: int| l[i]@)
    }

    closed spec fn views_in(l: Seq<BoundJoin>) -> Seq<BoundJoinView>
        decreases l,
    {
        Seq::new(l.len(), |i: int| if 0 <= i < l.len() { l[i]@ } else { arbitrary() })
    }

    proof fn lemma_views_in(l: Seq<BoundJoin>)
        ensures
            BoundJoin::views_in(l) == BoundJoin::views(l),
    {
        assert(BoundJoin::views_in(l) =~= BoundJoin::views(l));
    }

}

/// A bound query of a WITH clause.
#[derive(Debug, PartialEq)]
pub struct BoundCte {
    pub table_id: TableId,
    pub seed: Box<BoundStatement>,
    pub recursive: Option<Box<BoundStatement>>,
    pub union_all: bool,
}

/// Mathematical contents of a [`BoundCte`].
pub struct BoundCteView {
    pub table_id: TableId,
    pub seed: Box<BoundStatementView>,
    pub recursive: Option<Box<BoundStatementView>>,
    pub union_all: bool,
}

impl BoundCte {
    /// The value as mathematical data.
    pub closed spec fn view(&self) -> BoundCteView
        decreases self,
    {
        BoundCteView {
            table_id: self.table_id,
            seed: Box::new((*self.seed)@),
            recursive: match self.recursive { Some(x) => Some(Box::new((*x)@)), None => None },
            union_all: self.union_all,
        }
    }

    /// The outermost layer of the value, over the contents of its parts.
    pub open spec fn shape(&self) -> BoundCteView {
        BoundCteView {
            table_id: self.table_id,
            seed: Box::new((*self.seed)@),
            recursive: match self.recursive { Some(x) => Some(Box::new((*x)@)), None => None },
            union_all: self.union_all,
        }
    }

    /// The contents of a value are its outermost layer over the contents of its parts.
    pub proof fn unfold(&self)
        ensures
            self@ == self.shape(),
    {
    }

    /// The contents of each value of a sequence.
    pub open spec fn views(l: Seq<BoundCte>) -> Seq<BoundCteView> {
        Seq::new(l.len(), |i: int| l[i]@)
    }

    closed spec fn views_in(l: Seq<BoundCte>) -> Seq<BoundCteView>
        decreases l,
    {
        Seq::new(l.len(), |i: int| if 0 <= i < l.len() { l[i]@ } else { arbitrary() })
    }

    proof fn lemma_views_in(l: Seq<BoundCte>)
        ensures
            BoundCte::views_in(l) == BoundCte::views(l),
    {
        assert(BoundCte::views_in(l) =~= BoundCte::views(l));
    }

}

/// A bound statement.
#[derive(Debug, PartialEq)]
pub enum BoundStatement {
    NoOp {
        tag: String,
    },
    Begin {
        characteristics: TransactionCharacteristics,
    },
    Commit {
        chain: TransactionChain,
    },
    Rollback {
        chain: TransactionChain,
    },
    Savepoint {
        name: Identifier,
    },
    RollbackTo {
        name: Identifier,
    },
    ReleaseSavepoint {
        name: Identifier,
    },
    Analyze {
        table_id: Option<TableId>,
    },
    Vacuum {
        table_id: Option<TableId>,
        analyze: bool,
    },
    Reindex {
        target: BoundReindexTarget,
    },
    Listen {
        channel: Identifier,
    },
    Unlisten {
        channel: Option<Identifier>,
    },
    Notify {
        channel: Identifier,
        payload: String,
    },
    Do {
        body: String,
    },
    DiscardAll,
    DeallocateAll,
    CreateSchema {
        name: Identifier,
        if_not_exists: bool,
    },
    CreateEnumType {
        schema: Identifier,
        name: Identifier,
        labels: Vec<String>,
    },
    CreateDomain {
        schema: Identifier,
        name: Identifier,
        base_type: ScalarType,
        base_declared_type: Option<TypeId>,
        not_null: bool,
        default: Option<CatalogExpression>,
        checks: Vec<DomainConstraint>,
    },
    AlterEnumAddValue {
        type_id: TypeId,
        label: String,
        position: Option<EnumValuePosition>,
        if_not_exists: bool,
    },
    AlterEnumRenameValue {
        type_id: TypeId,
        old_label: String,
        new_label: String,
    },
    AlterDomain {
        type_id: TypeId,
        operation: BoundAlterDomainOperation,
    },
    AlterSchemaRename {
        schema_id: SchemaId,
        new_name: Identifier,
    },
    DropObjects {
        kind: DdlObjectKind,
        objects: Vec<CatalogObjectRef>,
        behavior: DropBehavior,
    },
    CreateTable {
        schema: Identifier,
        name: Identifier,
        columns: Vec<NewColumn>,
        constraints: Vec<NewConstraint>,
        if_not_exists: bool,
    },
    AlterTable {
        table_id: TableId,
        operations: Vec<BoundAlterTableOperation>,
    },
    CreateIndex {
        table_id: TableId,
        index: NewIndex,
        if_not_exists: bool,
    },
    AlterIndexRename {
        index_id: IndexId,
        new_name: Identifier,
    },
    CreateSequence {
        schema: Identifier,
        sequence: NewSequence,
        if_not_exists: bool,
    },
    AlterSequenceRename {
        sequence_id: SequenceId,
        new_name: Identifier,
    },
    AlterSequence {
        sequence_id: SequenceId,
        increment: Option<i64>,
        min_value: Option<i64>,
        max_value: Option<i64>,
        restart: Option<i64>,
        cycle: Option<bool>,
        owner: Option<Option<(TableId, ColumnId)>>,
    },
    CreateView {
        schema: Identifier,
        name: Identifier,
        kind: ViewKind,
        query: Box<BoundStatement>,
        query_sql: String,
        output: Schema,
        references: Vec<CatalogObjectRef>,
        replace: bool,
        if_not_exists: bool,
        with_data: bool,
        existing: Option<ViewId>,
    },
    AlterViewRename {
        view_id: ViewId,
        new_name: Identifier,
    },
    RefreshMaterializedView {
        view_id: ViewId,
        table_id: TableId,
        query: Box<BoundStatement>,
        with_data: bool,
    },
    CreateRoutine {
        schema: Identifier,
        name: Identifier,
        kind: RoutineKind,
        arguments: Vec<RoutineArgument>,
        return_type: Option<ScalarType>,
        return_declared_type: Option<TypeId>,
        returns_set: bool,
        language: String,
        body: String,
        replace: bool,
    },
    DropRoutine {
        routine_id: RoutineId,
        behavior: DropBehavior,
    },
    Call {
        routine_id: RoutineId,
        arguments: Vec<BoundExpr>,
        schema: Schema,
    },
    ScalarSelect {
        projection: Vec<BoundProjection>,
        schema: Schema,
    },
    RoutineSelect {
        routine_id: RoutineId,
        arguments: Vec<BoundExpr>,
        schema: Schema,
        returns_set: bool,
    },
    PgNotify {
        channel: BoundExpr,
        payload: BoundExpr,
        schema: Schema,
    },
    SequenceValue {
        sequence_id: SequenceId,
        operation: BoundSequenceOperation,
        schema: Schema,
    },
    CreateTrigger {
        target: TriggerTarget,
        name: Identifier,
        timing: TriggerTiming,
        level: TriggerLevel,
        events: Vec<TriggerEvent>,
        routine_id: RoutineId,
    },
    DropTrigger {
        trigger_id: TriggerId,
        behavior: DropBehavior,
    },
    ViewSelect {
        view_id: ViewId,
        source: Box<BoundStatement>,
        schema: Schema,
        projection: Vec<usize>,
    },
    Insert {
        table_id: TableId,
        column_indexes: Vec<usize>,
        rows: Vec<Vec<BoundExpr>>,
        on_conflict: Option<BoundOnConflict>,
        returning: Option<BoundReturning>,
    },
    ViewInsert {
        view_id: ViewId,
        source: Box<BoundStatement>,
        column_indexes: Vec<usize>,
        rows: Vec<Vec<BoundExpr>>,
        returning: Option<BoundReturning>,
    },
    Merge(BoundMerge),
    With {
        ctes: Vec<BoundCte>,
        body: Box<BoundStatement>,
        catalog: Box<Catalog>,
        schema: Schema,
    },
    SetOperation {
        left: Box<BoundStatement>,
        operator: QuerySetOperator,
        all: bool,
        right: Box<BoundStatement>,
        schema: Schema,
        order_by: Vec<BoundOrder>,
        offset: Option<BoundExpr>,
        limit: Option<BoundExpr>,
    },
    Select {
        table_id: TableId,
        schema: Schema,
        projection: Vec<BoundProjection>,
        filter: Option<BoundExpr>,
        order_by: Vec<BoundOrder>,
        offset: Option<BoundExpr>,
        limit: Option<BoundExpr>,
    },
    AdvancedSelect {
        table: BoundTable,
        joins: Vec<BoundJoin>,
        applies: Vec<BoundApply>,
        windows: Vec<BoundWindow>,
        schema: Schema,
        projection: Vec<BoundProjection>,
        distinct: bool,
        filter: Option<BoundExpr>,
        group_by: Vec<BoundExpr>,
        having: Option<BoundExpr>,
        order_by: Vec<BoundOrder>,
        offset: Option<BoundExpr>,
        limit: Option<Box<BoundExpr>>,
        aggregate: bool,
    },
    Explain {
        statement: Box<BoundStatement>,
    },
    Update {
        table_id: TableId,
        assignments: Vec<(usize, BoundExpr)>,
        filter: Option<BoundExpr>,
        returning: Option<BoundReturning>,
    },
    ViewUpdate {
        view_id: ViewId,
        source: Box<BoundStatement>,
        assignments: Vec<(usize, BoundExpr)>,
        filter: Option<BoundExpr>,
        returning: Option<BoundReturning>,
    },
    Delete {
        table_id: TableId,
        filter: Option<BoundExpr>,
        returning: Option<BoundReturning>,
    },
    ViewDelete {
        view_id: ViewId,
        source: Box<BoundStatement>,
        filter: Option<BoundExpr>,
        returning: Option<BoundReturning>,
    },
}

/// Mathematical contents of a [`BoundStatement`].
pub enum BoundStatementView {
    NoOp { tag: Seq<char> },
    Begin { characteristics: TransactionCharacteristics },
    Commit { chain: TransactionChain },
    Rollback { chain: TransactionChain },
    Savepoint { name: Seq<char> },
    RollbackTo { name: Seq<char> },
    ReleaseSavepoint { name: Seq<char> },
    Analyze { table_id: Option<TableId> },
    Vacuum { table_id: Option<TableId>, analyze: bool },
    Reindex { target: BoundReindexTarget },
    Listen { channel: Seq<char> },
    Unlisten { channel: Option<Seq<char>> },
    Notify { channel: Seq<char>, payload: Seq<char> },
    Do { body: Seq<char> },
    DiscardAll,
    DeallocateAll,
    CreateSchema { name: Seq<char>, if_not_exists: bool },
    CreateEnumType { schema: Seq<char>, name: Seq<char>, labels: Seq<Seq<char>> },
    CreateDomain {
        schema: Seq<char>,
        name: Seq<char>,
        base_type: ScalarTypeView,
        base_declared_type: Option<TypeId>,
        not_null: bool,
        default: Option<CatalogExpressionView>,
        checks: Seq<DomainConstraintView>,
    },
    AlterEnumAddValue { type_id: TypeId, label: Seq<char>, position: Option<EnumValuePositionView>, if_not_exists: bool },
    AlterEnumRenameValue { type_id: TypeId, old_label: Seq<char>, new_label: Seq<char> },
    AlterDomain { type_id: TypeId, operation: BoundAlterDomainOperationView },
    AlterSchemaRename { schema_id: SchemaId, new_name: Seq<char> },
    DropObjects { kind: DdlObjectKind, objects: Seq<CatalogObjectRef>, behavior: DropBehavior },
    CreateTable {
        schema: Seq<char>,
        name: Seq<char>,
        columns: Seq<NewColumnView>,
        constraints: Seq<NewConstraintView>,
        if_not_exists: bool,
    },
    AlterTable { table_id: TableId, operations: Seq<BoundAlterTableOperationView> },
    CreateIndex { table_id: TableId, index: NewIndexView, if_not_exists: bool },
    AlterIndexRename { index_id: IndexId, new_name: Seq<char> },
    CreateSequence { schema: Seq<char>, sequence: NewSequenceView, if_not_exists: bool },
    AlterSequenceRename { sequence_id: SequenceId, new_name: Seq<char> },
    AlterSequence {
        sequence_id: SequenceId,
        increment: Option<i64>,
        min_value: Option<i64>,
        max_value: Option<i64>,
        restart: Option<i64>,
        cycle: Option<bool>,
        owner: Option<Option<(TableId, ColumnId)>>,
    },
    CreateView {
        schema: Seq<char>,
        name: Seq<char>,
        kind: ViewKind,
        query: Box<BoundStatementView>,
        query_sql: Seq<char>,
        output: SchemaView,
        references: Seq<CatalogObjectRef>,
        replace: bool,
        if_not_exists: bool,
        with_data: bool,
        existing: Option<ViewId>,
    },
    AlterViewRename { view_id: ViewId, new_name: Seq<char> },
    RefreshMaterializedView { view_id: ViewId, table_id: TableId, query: Box<BoundStatementView>, with_data: bool },
    CreateRoutine {
        schema: Seq<char>,
        name: Seq<char>,
        kind: RoutineKind,
        arguments: Seq<RoutineArgumentView>,
        return_type: Option<ScalarTypeView>,
        return_declared_type: Option<TypeId>,
        returns_set: bool,
        language: Seq<char>,
        body: Seq<char>,
        replace: bool,
    },
    DropRoutine { routine_id: RoutineId, behavior: DropBehavior },
    Call { routine_id: RoutineId, arguments: Seq<BoundExprView>, schema: SchemaView },
    ScalarSelect { projection: Seq<BoundProjectionView>, schema: SchemaView },
    RoutineSelect { routine_id: RoutineId, arguments: Seq<BoundExprView>, schema: SchemaView, returns_set: bool },
    PgNotify { channel: BoundExprView, payload: BoundExprView, schema: SchemaView },
    SequenceValue { sequence_id: SequenceId, operation: BoundSequenceOperationView, schema: SchemaView },
    CreateTrigger {
        target: TriggerTarget,
        name: Seq<char>,
        timing: TriggerTiming,
        level: TriggerLevel,
        events: Seq<TriggerEvent>,
        routine_id: RoutineId,
    },
    DropTrigger { trigger_id: TriggerId, behavior: DropBehavior },
    ViewSelect { view_id: ViewId, source: Box<BoundStatementView>, schema: SchemaView, projection: Seq<usize> },
    Insert {
        table_id: TableId,
        column_indexes: Seq<usize>,
        rows: Seq<Seq<BoundExprView>>,
        on_conflict: Option<BoundOnConflictView>,
        returning: Option<BoundReturningView>,
    },
    ViewInsert {
        view_id: ViewId,
        source: Box<BoundStatementView>,
        column_indexes: Seq<usize>,
        rows: Seq<Seq<BoundExprView>>,
        returning: Option<BoundReturningView>,
    },
    Merge(BoundMergeView),
    With { ctes: Seq<BoundCteView>, body: Box<BoundStatementView>, catalog: Box<CatalogView>, schema: SchemaView },
    SetOperation {
        left: Box<BoundStatementView>,
        operator: QuerySetOperator,
        all: bool,
        right: Box<BoundStatementView>,
        schema: SchemaView,
        order_by: Seq<BoundOrderView>,
        offset: Option<BoundExprView>,
        limit: Option<BoundExprView>,
    },
    Select {
        table_id: TableId,
        schema: SchemaView,
        projection: Seq<BoundProjectionView>,
        filter: Option<BoundExprView>,
        order_by: Seq<BoundOrderView>,
        offset: Option<BoundExprView>,
        limit: Option<BoundExprView>,
    },
    AdvancedSelect {
        table: BoundTableView,
        joins: Seq<BoundJoinView>,
        applies: Seq<BoundApplyView>,
        windows: Seq<BoundWindowView>,
        schema: SchemaView,
        projection: Seq<BoundProjectionView>,
        distinct: bool,
        filter: Option<BoundExprView>,
        group_by: Seq<BoundExprView>,
        having: Option<BoundExprView>,
        order_by: Seq<BoundOrderView>,
        offset: Option<BoundExprView>,
        limit: Option<Box<BoundExprView>>,
        aggregate: bool,
    },
    Explain { statement: Box<BoundStatementView> },
    Update {
        table_id: TableId,
        assignments: Seq<(usize, BoundExprView)>,
        filter: Option<BoundExprView>,
        returning: Option<BoundReturningView>,
    },
    ViewUpdate {
        view_id: ViewId,
        source: Box<BoundStatementView>,
        assignments: Seq<(usize, BoundExprView)>,
        filter: Option<BoundExprView>,
        returning: Option<BoundReturningView>,
    },
    Delete { table_id: TableId, filter: Option<BoundExprView>, returning: Option<BoundReturningView> },
    ViewDelete { view_id: ViewId, source: Box<BoundStatementView>, filter: Option<BoundExprView>, returning: Option<BoundReturningView> },
}

impl BoundStatement {
    /// The value as mathematical data.
    pub closed spec fn view(&self) -> BoundStatementView
        decreases self,
    {
        match *self {
            BoundStatement::NoOp { tag } => BoundStatementView::NoOp { tag: tag@ },
            BoundStatement::Begin { characteristics } => BoundStatementView::Begin { characteristics },
            BoundStatement::Commit { chain } => BoundStatementView::Commit { chain },
            BoundStatement::Rollback { chain } => BoundStatementView::Rollback { chain },
            BoundStatement::Savepoint { name } => BoundStatementView::Savepoint { name: name@ },
            BoundStatement::RollbackTo { name } => BoundStatementView::RollbackTo { name: name@ },
            BoundStatement::ReleaseSavepoint { name } => BoundStatementView::ReleaseSavepoint { name: name@ },
            BoundStatement::Analyze { table_id } => BoundStatementView::Analyze { table_id },
            BoundStatement::Vacuum { table_id, analyze } => BoundStatementView::Vacuum { table_id, analyze },
            BoundStatement::Reindex { target } => BoundStatementView::Reindex { target },
            BoundStatement::Listen { channel } => BoundStatementView::Listen { channel: channel@ },
            BoundStatement::Unlisten { channel } => BoundStatementView::Unlisten {
                channel: match channel { Some(x) => Some(x@), None => None },
            },
            BoundStatement::Notify { channel, payload } => BoundStatementView::Notify { channel: channel@, payload: payload@ },
            BoundStatement::Do { body } => BoundStatementView::Do { body: body@ },
            BoundStatement::DiscardAll => BoundStatementView::DiscardAll,
            BoundStatement::DeallocateAll => BoundStatementView::DeallocateAll,
            BoundStatement::CreateSchema { name, if_not_exists } => BoundStatementView::CreateSchema { name: name@, if_not_exists },
            BoundStatement::CreateEnumType { schema, name, labels } => BoundStatementView::CreateEnumType {
                schema: schema@,
                name: name@,
                labels: strings(labels@),
            },
            BoundStatement::CreateDomain {
                schema,
                name,
                base_type,
                base_declared_type,
                not_null,
                default,
                checks,
            } => BoundStatementView::CreateDomain {
                schema: schema@,
                name: name@,
                base_type: base_type@,
                base_declared_type,
                not_null,
                default: match default { Some(x) => Some(x@), None => None },
                checks: DomainConstraint::views(checks@),
            },
            BoundStatement::AlterEnumAddValue { type_id, label, position, if_not_exists } => BoundStatementView::AlterEnumAddValue {
                type_id,
                label: label@,
                position: match position { Some(x) => Some(x@), None => None },
                if_not_exists,
            },
            BoundStatement::AlterEnumRenameValue { type_id, old_label, new_label } => BoundStatementView::AlterEnumRenameValue {
                type_id,
                old_label: old_label@,
                new_label: new_label@,
            },
            BoundStatement::AlterDomain { type_id, operation } => BoundStatementView::AlterDomain { type_id, operation: operation@ },
            BoundStatement::AlterSchemaRename { schema_id, new_name } => BoundStatementView::AlterSchemaRename {
                schema_id,
                new_name: new_name@,
            },
            BoundStatement::DropObjects { kind, objects, behavior } => BoundStatementView::DropObjects {
                kind,
                objects: objects@,
                behavior,
            },
            BoundStatement::CreateTable { schema, name, columns, constraints, if_not_exists } => BoundStatementView::CreateTable {
                schema: schema@,
                name: name@,
                columns: NewColumn::views(columns@),
                constraints: NewConstraint::views(constraints@),
                if_not_exists,
            },
            BoundStatement::AlterTable { table_id, operations } => BoundStatementView::AlterTable {
                table_id,
                operations: BoundAlterTableOperation::views(operations@),
            },
            BoundStatement::CreateIndex { table_id, index, if_not_exists } => BoundStatementView::CreateIndex {
                table_id,
                index: index@,
                if_not_exists,
            },
            BoundStatement::AlterIndexRename { index_id, new_name } => BoundStatementView::AlterIndexRename {
                index_id,
                new_name: new_name@,
            },
            BoundStatement::CreateSequence { schema, sequence, if_not_exists } => BoundStatementView::CreateSequence {
                schema: schema@,
                sequence: sequence@,
                if_not_exists,
            },
            BoundStatement::AlterSequenceRename { sequence_id, new_name } => BoundStatementView::AlterSequenceRename {
                sequence_id,
                new_name: new_name@,
            },
            BoundStatement::AlterSequence {
                sequence_id,
                increment,
                min_value,
                max_value,
                restart,
                cycle,
                owner,
            } => BoundStatementView::AlterSequence {
                sequence_id,
                increment,
                min_value,
                max_value,
                restart,
                cycle,
                owner,
            },
            BoundStatement::CreateView {
                schema,
                name,
                kind,
                query,
                query_sql,
                output,
                references,
                replace,
                if_not_exists,
                with_data,
                existing,
            } => BoundStatementView::CreateView {
                schema: schema@,
                name: name@,
                kind,
                query: Box::new((*query)@),
                query_sql: query_sql@,
                output: output@,
                references: references@,
                replace,
                if_not_exists,
                with_data,
                existing,
            },
            BoundStatement::AlterViewRename { view_id, new_name } => BoundStatementView::AlterViewRename { view_id, new_name: new_name@ },
            BoundStatement::RefreshMaterializedView { view_id, table_id, query, with_data } => BoundStatementView::RefreshMaterializedView {
                view_id,
                table_id,
                query: Box::new((*query)@),
                with_data,
            },
            BoundStatement::CreateRoutine {
                schema,
                name,
                kind,
                arguments,
                return_type,
                return_declared_type,
                returns_set,
                language,
                body,
                replace,
            } => BoundStatementView::CreateRoutine {
                schema: schema@,
                name: name@,
                kind,
                arguments: RoutineArgument::views(arguments@),
                return_type: match return_type { Some(x) => Some(x@), None => None },
                return_declared_type,
                returns_set,
                language: language@,
                body: body@,
                replace,
            },
            BoundStatement::DropRoutine { routine_id, behavior } => BoundStatementView::DropRoutine { routine_id, behavior },
            BoundStatement::Call { routine_id, arguments, schema } => BoundStatementView::Call {
                routine_id,
                arguments: BoundExpr::views_in(arguments@),
                schema: schema@,
            },
            BoundStatement::ScalarSelect { projection, schema } => BoundStatementView::ScalarSelect {
                projection: BoundProjection::views(projection@),
                schema: schema@,
            },
            BoundStatement::RoutineSelect { routine_id, arguments, schema, returns_set } => BoundStatementView::RoutineSelect {
                routine_id,
                arguments: BoundExpr::views_in(arguments@),
                schema: schema@,
                returns_set,
            },
            BoundStatement::PgNotify { channel, payload, schema } => BoundStatementView::PgNotify {
                channel: channel@,
                payload: payload@,
                schema: schema@,
            },
            BoundStatement::SequenceValue { sequence_id, operation, schema } => BoundStatementView::SequenceValue {
                sequence_id,
                operation: operation@,
                schema: schema@,
            },
            BoundStatement::CreateTrigger { target, name, timing, level, events, routine_id } => BoundStatementView::CreateTrigger {
                target,
                name: name@,
                timing,
                level,
                events: events@,
                routine_id,
            },
            BoundStatement::DropTrigger { trigger_id, behavior } => BoundStatementView::DropTrigger { trigger_id, behavior },
            BoundStatement::ViewSelect { view_id, source, schema, projection } => BoundStatementView::ViewSelect {
                view_id,
                source: Box::new((*source)@),
                schema: schema@,
                projection: projection@,
            },
            BoundStatement::Insert { table_id, column_indexes, rows, on_conflict, returning } => BoundStatementView::Insert {
                table_id,
                column_indexes: column_indexes@,
                rows: bound_rows(rows@),
                on_conflict: match on_conflict { Some(x) => Some(x@), None => None },
                returning: match returning { Some(x) => Some(x@), None => None },
            },
            BoundStatement::ViewInsert { view_id, source, column_indexes, rows, returning } => BoundStatementView::ViewInsert {
                view_id,
                source: Box::new((*source)@),
                column_indexes: column_indexes@,
                rows: bound_rows(rows@),
                returning: match returning { Some(x) => Some(x@), None => None },
            },
            BoundStatement::Merge(f0) => BoundStatementView::Merge(f0@),
            BoundStatement::With { ctes, body, catalog, schema } => BoundStatementView::With {
                ctes: BoundCte::views_in(ctes@),
                body: Box::new((*body)@),
                catalog: Box::new((*catalog)@),
                schema: schema@,
            },
            BoundStatement::SetOperation {
                left,
                operator,
                all,
                right,
                schema,
                order_by,
                offset,
                limit,
            } => BoundStatementView::SetOperation {
                left: Box::new((*left)@),
                operator,
                all,
                right: Box::new((*right)@),
                schema: schema@,
                order_by: BoundOrder::views(order_by@),
                offset: match offset { Some(x) => Some(x@), None => None },
                limit: match limit { Some(x) => Some(x@), None => None },
            },
            BoundStatement::Select { table_id, schema, projection, filter, order_by, offset, limit } => BoundStatementView::Select {
                table_id,
                schema: schema@,
                projection: BoundProjection::views(projection@),
                filter: match filter { Some(x) => Some(x@), None => None },
                order_by: BoundOrder::views(order_by@),
                offset: match offset { Some(x) => Some(x@), None => None },
                limit: match limit { Some(x) => Some(x@), None => None },
            },
            BoundStatement::AdvancedSelect {
                table,
                joins,
                applies,
                windows,
                schema,
                projection,
                distinct,
                filter,
                group_by,
                having,
                order_by,
                offset,
                limit,
                aggregate,
            } => BoundStatementView::AdvancedSelect {
                table: table@,
                joins: BoundJoin::views_in(joins@),
                applies: BoundApply::views_in(applies@),
                windows: BoundWindow::views(windows@),
                schema: schema@,
                projection: BoundProjection::views(projection@),
                distinct,
                filter: match filter { Some(x) => Some(x@), None => None },
                group_by: BoundExpr::views_in(group_by@),
                having: match having { Some(x) => Some(x@), None => None },
                order_by: BoundOrder::views(order_by@),
                offset: match offset { Some(x) => Some(x@), None => None },
                limit: match limit { Some(x) => Some(Box::new((*x)@)), None => None },
                aggregate,
            },
            BoundStatement::Explain { statement } => BoundStatementView::Explain { statement: Box::new((*statement)@) },
            BoundStatement::Update { table_id, assignments, filter, returning } => BoundStatementView::Update {
                table_id,
                assignments: bound_assignments(assignments@),
                filter: match filter { Some(x) => Some(x@), None => None },
                returning: match returning { Some(x) => Some(x@), None => None },
            },
            BoundStatement::ViewUpdate { view_id, source, assignments, filter, returning } => BoundStatementView::ViewUpdate {
                view_id,
                source: Box::new((*source)@),
                assignments: bound_assignments(assignments@),
                filter: match filter { Some(x) => Some(x@), None => None },
                returning: match returning { Some(x) => Some(x@), None => None },
            },
            BoundStatement::Delete { table_id, filter, returning } => BoundStatementView::Delete {
                table_id,
                filter: match filter { Some(x) => Some(x@), None => None },
                returning: match returning { Some(x) => Some(x@), None => None },
            },
            BoundStatement::ViewDelete { view_id, source, filter, returning } => BoundStatementView::ViewDelete {
                view_id,
                source: Box::new((*source)@),
                filter: match filter { Some(x) => Some(x@), None => None },
                returning: match returning { Some(x) => Some(x@), None => None },
            },
        }
    }

    /// The outermost layer of the value, over the contents of its parts.
    pub open spec fn shape(&self) -> BoundStatementView {
        match *self {
            BoundStatement::NoOp { tag } => BoundStatementView::NoOp { tag: tag@ },
            BoundStatement::Begin { characteristics } => BoundStatementView::Begin { characteristics },
            BoundStatement::Commit { chain } => BoundStatementView::Commit { chain },
            BoundStatement::Rollback { chain } => BoundStatementView::Rollback { chain },
            BoundStatement::Savepoint { name } => BoundStatementView::Savepoint { name: name@ },
            BoundStatement::RollbackTo { name } => BoundStatementView::RollbackTo { name: name@ },
            BoundStatement::ReleaseSavepoint { name } => BoundStatementView::ReleaseSavepoint { name: name@ },
            BoundStatement::Analyze { table_id } => BoundStatementView::Analyze { table_id },
            BoundStatement::Vacuum { table_id, analyze } => BoundStatementView::Vacuum { table_id, analyze },
            BoundStatement::Reindex { target } => BoundStatementView::Reindex { target },
            BoundStatement::Listen { channel } => BoundStatementView::Listen { channel: channel@ },
            BoundStatement::Unlisten { channel } => BoundStatementView::Unlisten {
                channel: match channel { Some(x) => Some(x@), None => None },
            },
            BoundStatement::Notify { channel, payload } => BoundStatementView::Notify { channel: channel@, payload: payload@ },
            BoundStatement::Do { body } => BoundStatementView::Do { body: body@ },
            BoundStatement::DiscardAll => BoundStatementView::DiscardAll,
            BoundStatement::DeallocateAll => BoundStatementView::DeallocateAll,
            BoundStatement::CreateSchema { name, if_not_exists } => BoundStatementView::CreateSchema { name: name@, if_not_exists },
            BoundStatement::CreateEnumType { schema, name, labels } => BoundStatementView::CreateEnumType {
                schema: schema@,
                name: name@,
                labels: strings(labels@),
            },
            BoundStatement::CreateDomain {
                schema,
                name,
                base_type,
                base_declared_type,
                not_null,
                default,
                checks,
            } => BoundStatementView::CreateDomain {
                schema: schema@,
                name: name@,
                base_type: base_type@,
                base_declared_type,
                not_null,
                default: match default { Some(x) => Some(x@), None => None },
                checks: DomainConstraint::views(checks@),
            },
            BoundStatement::AlterEnumAddValue { type_id, label, position, if_not_exists } => BoundStatementView::AlterEnumAddValue {
                type_id,
                label: label@,
                position: match position { Some(x) => Some(x@), None => None },
                if_not_exists,
            },
            BoundStatement::AlterEnumRenameValue { type_id, old_label, new_label } => BoundStatementView::AlterEnumRenameValue {
                type_id,
                old_label: old_label@,
                new_label: new_label@,
            },
            BoundStatement::AlterDomain { type_id, operation } => BoundStatementView::AlterDomain { type_id, operation: operation@ },
            BoundStatement::AlterSchemaRename { schema_id, new_name } => BoundStatementView::AlterSchemaRename {
                schema_id,
                new_name: new_name@,
            },
            BoundStatement::DropObjects { kind, objects, behavior } => BoundStatementView::DropObjects {
                kind,
                objects: objects@,
                behavior,
            },
            BoundStatement::CreateTable { schema, name, columns, constraints, if_not_exists } => BoundStatementView::CreateTable {
                schema: schema@,
                name: name@,
                columns: NewColumn::views(columns@),
                constraints: NewConstraint::views(constraints@),
                if_not_exists,
            },
            BoundStatement::AlterTable { table_id, operations } => BoundStatementView::AlterTable {
                table_id,
                operations: BoundAlterTableOperation::views(operations@),
            },
            BoundStatement::CreateIndex { table_id, index, if_not_exists } => BoundStatementView::CreateIndex {
                table_id,
                index: index@,
                if_not_exists,
            },
            BoundStatement::AlterIndexRename { index_id, new_name } => BoundStatementView::AlterIndexRename {
                index_id,
                new_name: new_name@,
            },
            BoundStatement::CreateSequence { schema, sequence, if_not_exists } => BoundStatementView::CreateSequence {
                schema: schema@,
                sequence: sequence@,
                if_not_exists,
            },
            BoundStatement::AlterSequenceRename { sequence_id, new_name } => BoundStatementView::AlterSequenceRename {
                sequence_id,
                new_name: new_name@,
            },
            BoundStatement::AlterSequence {
                sequence_id,
                increment,
                min_value,
                max_value,
                restart,
                cycle,
                owner,
            } => BoundStatementView::AlterSequence {
                sequence_id,
                increment,
                min_value,
                max_value,
                restart,
                cycle,
                owner,
            },
            BoundStatement::CreateView {
                schema,
                name,
                kind,
                query,
                query_sql,
                output,
                references,
                replace,
                if_not_exists,
                with_data,
                existing,
            } => BoundStatementView::CreateView {
                schema: schema@,
                name: name@,
                kind,
                query: Box::new((*query)@),
                query_sql: query_sql@,
                output: output@,
                references: references@,
                replace,
                if_not_exists,
                with_data,
                existing,
            },
            BoundStatement::AlterViewRename { view_id, new_name } => BoundStatementView::AlterViewRename { view_id, new_name: new_name@ },
            BoundStatement::RefreshMaterializedView { view_id, table_id, query, with_data } => BoundStatementView::RefreshMaterializedView {
                view_id,
                table_id,
                query: Box::new((*query)@),
                with_data,
            },
            BoundStatement::CreateRoutine {
                schema,
                name,
                kind,
                arguments,
                return_type,
                return_declared_type,
                returns_set,
                language,
                body,
                replace,
            } => BoundStatementView::CreateRoutine {
                schema: schema@,
                name: name@,
                kind,
                arguments: RoutineArgument::views(arguments@),
                return_type: match return_type { Some(x) => Some(x@), None => None },
                return_declared_type,
                returns_set,
                language: language@,
                body: body@,
                replace,
            },
            BoundStatement::DropRoutine { routine_id, behavior } => BoundStatementView::DropRoutine { routine_id, behavior },
            BoundStatement::Call { routine_id, arguments, schema } => BoundStatementView::Call {
                routine_id,
                arguments: BoundExpr::views(arguments@),
                schema: schema@,
            },
            BoundStatement::ScalarSelect { projection, schema } => BoundStatementView::ScalarSelect {
                projection: BoundProjection::views(projection@),
                schema: schema@,
            },
            BoundStatement::RoutineSelect { routine_id, arguments, schema, returns_set } => BoundStatementView::RoutineSelect {
                routine_id,
                arguments: BoundExpr::views(arguments@),
                schema: schema@,
                returns_set,
            },
            BoundStatement::PgNotify { channel, payload, schema } => BoundStatementView::PgNotify {
                channel: channel@,
                payload: payload@,
                schema: schema@,
            },
            BoundStatement::SequenceValue { sequence_id, operation, schema } => BoundStatementView::SequenceValue {
                sequence_id,
                operation: operation@,
                schema: schema@,
            },
            BoundStatement::CreateTrigger { target, name, timing, level, events, routine_id } => BoundStatementView::CreateTrigger {
                target,
                name: name@,
                timing,
                level,
                events: events@,
                routine_id,
            },
            BoundStatement::DropTrigger { trigger_id, behavior } => BoundStatementView::DropTrigger { trigger_id, behavior },
            BoundStatement::ViewSelect { view_id, source, schema, projection } => BoundStatementView::ViewSelect {
                view_id,
                source: Box::new((*source)@),
                schema: schema@,
                projection: projection@,
            },
            BoundStatement::Insert { table_id, column_indexes, rows, on_conflict, returning } => BoundStatementView::Insert {
                table_id,
                column_indexes: column_indexes@,
                rows: bound_rows(rows@),
                on_conflict: match on_conflict { Some(x) => Some(x@), None => None },
                returning: match returning { Some(x) => Some(x@), None => None },
            },
            BoundStatement::ViewInsert { view_id, source, column_indexes, rows, returning } => BoundStatementView::ViewInsert {
                view_id,
                source: Box::new((*source)@),
                column_indexes: column_indexes@,
                rows: bound_rows(rows@),
                returning: match returning { Some(x) => Some(x@), None => None },
            },
            BoundStatement::Merge(f0) => BoundStatementView::Merge(f0@),
            BoundStatement::With { ctes, body, catalog, schema } => BoundStatementView::With {
                ctes: BoundCte::views(ctes@),
                body: Box::new((*body)@),
                catalog: Box::new((*catalog)@),
                schema: schema@,
            },
            BoundStatement::SetOperation {
                left,
                operator,
                all,
                right,
                schema,
                order_by,
                offset,
                limit,
            } => BoundStatementView::SetOperation {
                left: Box::new((*left)@),
                operator,
                all,
                right: Box::new((*right)@),
                schema: schema@,
                order_by: BoundOrder::views(order_by@),
                offset: match offset { Some(x) => Some(x@), None => None },
                limit: match limit { Some(x) => Some(x@), None => None },
            },
            BoundStatement::Select { table_id, schema, projection, filter, order_by, offset, limit } => BoundStatementView::Select {
                table_id,
                schema: schema@,
                projection: BoundProjection::views(projection@),
                filter: match filter { Some(x) => Some(x@), None => None },
                order_by: BoundOrder::views(order_by@),
                offset: match offset { Some(x) => Some(x@), None => None },
                limit: match limit { Some(x) => Some(x@), None => None },
            },
            BoundStatement::AdvancedSelect {
                table,
                joins,
                applies,
                windows,
                schema,
                projection,
                distinct,
                filter,
                group_by,
                having,
                order_by,
                offset,
                limit,
                aggregate,
            } => BoundStatementView::AdvancedSelect {
                table: table@,
                joins: BoundJoin::views(joins@),
                applies: BoundApply::views(applies@),
                windows: BoundWindow::views(windows@),
                schema: schema@,
                projection: BoundProjection::views(projection@),
                distinct,
                filter: match filter { Some(x) => Some(x@), None => None },
                group_by: BoundExpr::views(group_by@),
                having: match having { Some(x) => Some(x@), None => None },
                order_by: BoundOrder::views(order_by@),
                offset: match offset { Some(x) => Some(x@), None => None },
                limit: match limit { Some(x) => Some(Box::new((*x)@)), None => None },
                aggregate,
            },
            BoundStatement::Explain { statement } => BoundStatementView::Explain { statement: Box::new((*statement)@) },
            BoundStatement::Update { table_id, assignments, filter, returning } => BoundStatementView::Update {
                table_id,
                assignments: bound_assignments(assignments@),
                filter: match filter { Some(x) => Some(x@), None => None },
                returning: match returning { Some(x) => Some(x@), None => None },
            },
            BoundStatement::ViewUpdate { view_id, source, assignments, filter, returning } => BoundStatementView::ViewUpdate {
                view_id,
                source: Box::new((*source)@),
                assignments: bound_assignments(assignments@),
                filter: match filter { Some(x) => Some(x@), None => None },
                returning: match returning { Some(x) => Some(x@), None => None },
            },
            BoundStatement::Delete { table_id, filter, returning } => BoundStatementView::Delete {
                table_id,
                filter: match filter { Some(x) => Some(x@), None => None },
                returning: match returning { Some(x) => Some(x@), None => None },
            },
            BoundStatement::ViewDelete { view_id, source, filter, returning } => BoundStatementView::ViewDelete {
                view_id,
                source: Box::new((*source)@),
                filter: match filter { Some(x) => Some(x@), None => None },
                returning: match returning { Some(x) => Some(x@), None => None },
            },
        }
    }

    /// The contents of a value are its outermost layer over the contents of its parts.
    pub proof fn unfold(&self)
        ensures
            self@ == self.shape(),
    {
        match *self {
            BoundStatement::Call { routine_id, arguments, schema } => {
                BoundExpr::lemma_views_in(arguments@);
            },
            BoundStatement::RoutineSelect { routine_id, arguments, schema, returns_set } => {
                BoundExpr::lemma_views_in(arguments@);
            },
            BoundStatement::With { ctes, body, catalog, schema } => {
                BoundCte::lemma_views_in(ctes@);
            },
            BoundStatement::AdvancedSelect {
                table,
                joins,
                applies,
                windows,
                schema,
                projection,
                distinct,
                filter,
                group_by,
                having,
                order_by,
                offset,
                limit,
                aggregate,
            } => {
                BoundJoin::lemma_views_in(joins@);
                BoundApply::lemma_views_in(applies@);
                BoundExpr::lemma_views_in(group_by@);
            },
            _ => {},
        }
    }

}

/// The contents of a list of bound assignments.
pub open spec fn bound_assignments(l: Seq<(usize, BoundExpr)>) -> Seq<(usize, BoundExprView)> {
    Seq::new(l.len(), |i: int| (l[i].0, l[i].1@))
}

/// The contents of a list of bound rows.
pub open spec fn bound_rows(l: Seq<Vec<BoundExpr>>) -> Seq<Seq<BoundExprView>> {
    Seq::new(l.len(), |i: int| BoundExpr::views(l[i]@))
}

/// Copies a list of bound assignments.
pub fn clone_bound_assignments(l: &Vec<(usize, BoundExpr)>) -> (out: Vec<(usize, BoundExpr)>)
    ensures
        bound_assignments(out@) == bound_assignments(l@),
{
    let mut out: Vec<(usize, BoundExpr)> = Vec::new();
    for i in 0..l.len()
        invariant
            out.len() == i,
            forall|k: int| 0 <= k < i ==> out@[k].0 == l@[k].0 && out@[k].1@ == l@[k].1@,
    {
        let item: &(usize, BoundExpr) = &l[i];
        out.push((item.0, item.1.clone()));
    }
    assert(bound_assignments(out@) =~= bound_assignments(l@));
    out
}

/// Copies a list of bound rows.
pub fn clone_bound_rows(l: &Vec<Vec<BoundExpr>>) -> (out: Vec<Vec<BoundExpr>>)
    ensures
        bound_rows(out@) == bound_rows(l@),
{
    let mut out: Vec<Vec<BoundExpr>> = Vec::new();
    for i in 0..l.len()
        invariant
            out.len() == i,
            forall|k: int| 0 <= k < i ==> BoundExpr::views(out@[k]@) == BoundExpr::views(l@[k]@),
    {
        out.push(BoundExpr::clone_all(&l[i]));
    }
    assert(bound_rows(out@) =~= bound_rows(l@));
    out
}

/// Decides whether two lists of array dimensions are equal.
pub fn same_items(a: &Vec<ArrayDimension>, b: &Vec<ArrayDimension>) -> (r: bool)
    ensures
        r == (a@ == b@),
{
    if a.len() != b.len() {
        return false;
    }
    for i in 0..a.len()
        invariant
            a.len() == b.len(),
            forall|k: int| 0 <= k < i ==> a@[k] == b@[k],
    {
        if a[i] != b[i] {
            return false;
        }
    }
    assert(a@ =~= b@);
    true
}

impl BoundJoinSourceView {
    /// The first slot of the source.
    pub open spec fn offset(self) -> usize {
        match self {
            BoundJoinSourceView::Table(table) => table.offset,
            BoundJoinSourceView::Derived { offset, .. } => offset,
        }
    }

    /// The number of slots of the source.
    pub open spec fn width(self) -> usize {
        match self {
            BoundJoinSourceView::Table(table) => table.width,
            BoundJoinSourceView::Derived { width, .. } => width,
        }
    }

    /// The name that the source is known by.
    pub open spec fn binding(self) -> Seq<char> {
        match self {
            BoundJoinSourceView::Table(table) => table.binding,
            BoundJoinSourceView::Derived { binding, .. } => binding,
        }
    }
}

impl BoundJoinSource {
    /// The first slot of the source.
    pub fn offset(&self) -> (r: usize)
        ensures
            r == self@.offset(),
    {
        match self {
            BoundJoinSource::Table(table) => table.offset,
            BoundJoinSource::Derived { offset, .. } => *offset,
        }
    }

    /// The number of slots of the source.
    pub fn width(&self) -> (r: usize)
        ensures
            r == self@.width(),
    {
        match self {
            BoundJoinSource::Table(table) => table.width,
            BoundJoinSource::Derived { width, .. } => *width,
        }
    }

    /// The name that the source is known by.
    pub fn binding(&self) -> (r: &Identifier)
        ensures
            r@ == self@.binding(),
    {
        match self {
            BoundJoinSource::Table(table) => &table.binding,
            BoundJoinSource::Derived { binding, .. } => binding,
        }
    }
}

} // verus!
