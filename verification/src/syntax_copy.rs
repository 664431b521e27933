//! Copies of syntax trees.

use vstd::prelude::*;

use crate::syntax::{
    assignment_views, expr_rows, ParsedAlterDomainOperation, ParsedAlterTableOperation, ParsedColumn, ParsedConflictAction, ParsedCte,
    ParsedDefault, ParsedExpr, ParsedExprKind, ParsedIdentifier, ParsedJoin, ParsedJoinSource, ParsedMerge, ParsedMergeAction,
    ParsedMergeClause, ParsedObjectName, ParsedOnConflict, ParsedOrder, ParsedProjection, ParsedRoutineArgument, ParsedSequenceOperation,
    ParsedStatement, ParsedTableConstraint, ParsedWindowCall, ParsedWindowFrame, ParsedWindowFrameBound, ParsedWindowSpec,
};
use crate::catalog::DomainConstraint;
use crate::text::{clone_strings, copy_items};

verus! {

impl Clone for ParsedExprKind {
    fn clone(&self) -> (r: Self)
        ensures
            r.shape() == self.shape(),
        decreases self,
    {
        match self {
            ParsedExprKind::Column(f0) => ParsedExprKind::Column(f0.clone()),
            ParsedExprKind::Literal(f0) => ParsedExprKind::Literal(f0.clone()),
            ParsedExprKind::Parameter(f0) => ParsedExprKind::Parameter(*f0),
            ParsedExprKind::ResolvedParameter { index, data_type } => ParsedExprKind::ResolvedParameter {
                index: *index,
                data_type: data_type.clone(),
            },
            ParsedExprKind::Unary { op, expr } => ParsedExprKind::Unary { op: *op, expr: Box::new((**expr).clone()) },
            ParsedExprKind::Cast { expr, data_type, declared_type } => ParsedExprKind::Cast {
                expr: Box::new((**expr).clone()),
                data_type: data_type.clone(),
                declared_type: match declared_type { Some(y) => Some(y.clone()), None => None },
            },
            ParsedExprKind::Array { elements, dimensions } => ParsedExprKind::Array {
                elements: ParsedExpr::clone_all(elements),
                dimensions: copy_items(dimensions),
            },
            ParsedExprKind::Function { function, arguments } => ParsedExprKind::Function {
                function: *function,
                arguments: ParsedExpr::clone_all(arguments),
            },
            ParsedExprKind::Binary { left, op, right } => ParsedExprKind::Binary {
                left: Box::new((**left).clone()),
                op: *op,
                right: Box::new((**right).clone()),
            },
            ParsedExprKind::InList { expr, list, negated } => ParsedExprKind::InList {
                expr: Box::new((**expr).clone()),
                list: ParsedExpr::clone_all(list),
                negated: *negated,
            },
            ParsedExprKind::ScalarSubquery(f0) => ParsedExprKind::ScalarSubquery(Box::new((**f0).clone())),
            ParsedExprKind::Exists { subquery, negated } => ParsedExprKind::Exists {
                subquery: Box::new((**subquery).clone()),
                negated: *negated,
            },
            ParsedExprKind::InSubquery { expr, subquery, negated } => ParsedExprKind::InSubquery {
                expr: Box::new((**expr).clone()),
                subquery: Box::new((**subquery).clone()),
                negated: *negated,
            },
            ParsedExprKind::QuantifiedSubquery { left, op, quantifier, subquery } => ParsedExprKind::QuantifiedSubquery {
                left: Box::new((**left).clone()),
                op: *op,
                quantifier: *quantifier,
                subquery: Box::new((**subquery).clone()),
            },
            ParsedExprKind::RowSubquery { left, op, quantifier, negated, subquery } => ParsedExprKind::RowSubquery {
                left: ParsedExpr::clone_all(left),
                op: *op,
                quantifier: *quantifier,
                negated: *negated,
                subquery: Box::new((**subquery).clone()),
            },
            ParsedExprKind::ApplyValue { index, data_type, nullable } => ParsedExprKind::ApplyValue {
                index: *index,
                data_type: data_type.clone(),
                nullable: *nullable,
            },
            ParsedExprKind::Aggregate { function, argument, distinct, filter } => ParsedExprKind::Aggregate {
                function: *function,
                argument: match argument { Some(y) => Some(Box::new((**y).clone())), None => None },
                distinct: *distinct,
                filter: match filter { Some(y) => Some(Box::new((**y).clone())), None => None },
            },
            ParsedExprKind::Window { call, spec } => ParsedExprKind::Window {
                call: Box::new((**call).clone()),
                spec: Box::new((**spec).clone()),
            },
            ParsedExprKind::NamedWindow { call, name } => ParsedExprKind::NamedWindow {
                call: Box::new((**call).clone()),
                name: name.clone(),
            },
            ParsedExprKind::WindowValue { ordinal } => ParsedExprKind::WindowValue { ordinal: *ordinal },
        }
    }
}

impl ParsedExpr {
    /// Copies every value of a vector.
    pub fn clone_all(l: &Vec<ParsedExpr>) -> (out: Vec<ParsedExpr>)
        ensures
            ParsedExpr::views(out@) == ParsedExpr::views(l@),
        decreases l,
    {
        let mut out: Vec<ParsedExpr> = Vec::new();
        for i in 0..l.len()
            invariant
                out.len() == i,
                forall|k: int| 0 <= k < i ==> out@[k]@ == l@[k]@,
        {
            assert(decreases_to!(l => l@[i as int]));
            out.push(l[i].clone());
        }
        assert(ParsedExpr::views(out@) =~= ParsedExpr::views(l@));
        out
    }

}

impl Clone for ParsedExpr {
    fn clone(&self) -> (r: Self)
        ensures
            r@ == self@,
        decreases self,
    {
        proof {
            self.unfold();
        }
        let r = ParsedExpr {
            kind: self.kind.clone(),
            position: self.position,
        };
        proof {
            r.unfold();
        }
        r
    }
}

impl Clone for ParsedWindowCall {
    fn clone(&self) -> (r: Self)
        ensures
            r@ == self@,
        decreases self,
    {
        proof {
            self.unfold();
        }
        let r = ParsedWindowCall {
            function: self.function,
            arguments: ParsedExpr::clone_all(&self.arguments),
            count_star: self.count_star,
            filter: match &self.filter { Some(y) => Some(Box::new((**y).clone())), None => None },
        };
        proof {
            r.unfold();
        }
        r
    }
}

impl Clone for ParsedWindowSpec {
    fn clone(&self) -> (r: Self)
        ensures
            r@ == self@,
        decreases self,
    {
        proof {
            self.unfold();
        }
        let r = ParsedWindowSpec {
            window_name: match &self.window_name { Some(y) => Some(y.clone()), None => None },
            partition_by: ParsedExpr::clone_all(&self.partition_by),
            order_by: ParsedOrder::clone_all(&self.order_by),
            frame: match &self.frame { Some(y) => Some(y.clone()), None => None },
        };
        proof {
            r.unfold();
        }
        r
    }
}

impl Clone for ParsedWindowFrameBound {
    fn clone(&self) -> (r: Self)
        ensures
            r@ == self@,
        decreases self,
    {
        proof {
            self.unfold();
        }
        let r = match self {
            ParsedWindowFrameBound::UnboundedPreceding => ParsedWindowFrameBound::UnboundedPreceding,
            ParsedWindowFrameBound::Preceding(f0) => ParsedWindowFrameBound::Preceding(Box::new((**f0).clone())),
            ParsedWindowFrameBound::CurrentRow => ParsedWindowFrameBound::CurrentRow,
            ParsedWindowFrameBound::Following(f0) => ParsedWindowFrameBound::Following(Box::new((**f0).clone())),
            ParsedWindowFrameBound::UnboundedFollowing => ParsedWindowFrameBound::UnboundedFollowing,
        };
        proof {
            r.unfold();
        }
        r
    }
}

impl Clone for ParsedWindowFrame {
    fn clone(&self) -> (r: Self)
        ensures
            r@ == self@,
        decreases self,
    {
        proof {
            self.unfold();
        }
        let r = ParsedWindowFrame {
            units: self.units,
            start_bound: self.start_bound.clone(),
            end_bound: self.end_bound.clone(),
        };
        proof {
            r.unfold();
        }
        r
    }
}

impl ParsedProjection {
    /// Copies every value of a vector.
    pub fn clone_all(l: &Vec<ParsedProjection>) -> (out: Vec<ParsedProjection>)
        ensures
            ParsedProjection::views(out@) == ParsedProjection::views(l@),
        decreases l,
    {
        let mut out: Vec<ParsedProjection> = Vec::new();
        for i in 0..l.len()
            invariant
                out.len() == i,
                forall|k: int| 0 <= k < i ==> out@[k]@ == l@[k]@,
        {
            assert(decreases_to!(l => l@[i as int]));
            out.push(l[i].clone());
        }
        assert(ParsedProjection::views(out@) =~= ParsedProjection::views(l@));
        out
    }

}

impl Clone for ParsedProjection {
    fn clone(&self) -> (r: Self)
        ensures
            r@ == self@,
        decreases self,
    {
        proof {
            self.unfold();
        }
        let r = match self {
            ParsedProjection::Wildcard => ParsedProjection::Wildcard,
            ParsedProjection::Expression { expr, alias } => ParsedProjection::Expression {
                expr: expr.clone(),
                alias: match alias { Some(y) => Some(y.clone()), None => None },
            },
        };
        proof {
            r.unfold();
        }
        r
    }
}

impl ParsedOrder {
    /// Copies every value of a vector.
    pub fn clone_all(l: &Vec<ParsedOrder>) -> (out: Vec<ParsedOrder>)
        ensures
            ParsedOrder::views(out@) == ParsedOrder::views(l@),
        decreases l,
    {
        let mut out: Vec<ParsedOrder> = Vec::new();
        for i in 0..l.len()
            invariant
                out.len() == i,
                forall|k: int| 0 <= k < i ==> out@[k]@ == l@[k]@,
        {
            assert(decreases_to!(l => l@[i as int]));
            out.push(l[i].clone());
        }
        assert(ParsedOrder::views(out@) =~= ParsedOrder::views(l@));
        out
    }

}

impl Clone for ParsedOrder {
    fn clone(&self) -> (r: Self)
        ensures
            r@ == self@,
        decreases self,
    {
        proof {
            self.unfold();
        }
        let r = ParsedOrder {
            expr: self.expr.clone(),
            ascending: self.ascending,
            nulls_first: self.nulls_first,
        };
        proof {
            r.unfold();
        }
        r
    }
}

impl ParsedCte {
    /// Copies every value of a vector.
    pub fn clone_all(l: &Vec<ParsedCte>) -> (out: Vec<ParsedCte>)
        ensures
            ParsedCte::views(out@) == ParsedCte::views(l@),
        decreases l,
    {
        let mut out: Vec<ParsedCte> = Vec::new();
        for i in 0..l.len()
            invariant
                out.len() == i,
                forall|k: int| 0 <= k < i ==> out@[k]@ == l@[k]@,
        {
            assert(decreases_to!(l => l@[i as int]));
            out.push(l[i].clone());
        }
        assert(ParsedCte::views(out@) =~= ParsedCte::views(l@));
        out
    }

}

impl Clone for ParsedCte {
    fn clone(&self) -> (r: Self)
        ensures
            r@ == self@,
        decreases self,
    {
        proof {
            self.unfold();
        }
        let r = ParsedCte {
            name: self.name.clone(),
            columns: ParsedIdentifier::clone_all(&self.columns),
            query: Box::new((*self.query).clone()),
        };
        proof {
            r.unfold();
        }
        r
    }
}

impl Clone for ParsedDefault {
    fn clone(&self) -> (r: Self)
        ensures
            r@ == self@,
        decreases self,
    {
        proof {
            self.unfold();
        }
        let r = ParsedDefault {
            expression: self.expression.clone(),
            sql: self.sql.clone(),
        };
        proof {
            r.unfold();
        }
        r
    }
}

impl ParsedColumn {
    /// Copies every value of a vector.
    pub fn clone_all(l: &Vec<ParsedColumn>) -> (out: Vec<ParsedColumn>)
        ensures
            ParsedColumn::views(out@) == ParsedColumn::views(l@),
        decreases l,
    {
        let mut out: Vec<ParsedColumn> = Vec::new();
        for i in 0..l.len()
            invariant
                out.len() == i,
                forall|k: int| 0 <= k < i ==> out@[k]@ == l@[k]@,
        {
            assert(decreases_to!(l => l@[i as int]));
            out.push(l[i].clone());
        }
        assert(ParsedColumn::views(out@) =~= ParsedColumn::views(l@));
        out
    }

}

impl Clone for ParsedColumn {
    fn clone(&self) -> (r: Self)
        ensures
            r@ == self@,
        decreases self,
    {
        proof {
            self.unfold();
        }
        let r = ParsedColumn {
            name: self.name.clone(),
            data_type: self.data_type.clone(),
            declared_type: match &self.declared_type { Some(y) => Some(y.clone()), None => None },
            nullable: self.nullable,
            primary_key: self.primary_key,
            unique: self.unique,
            default: match &self.default { Some(y) => Some(y.clone()), None => None },
        };
        proof {
            r.unfold();
        }
        r
    }
}

impl ParsedTableConstraint {
    /// Copies every value of a vector.
    pub fn clone_all(l: &Vec<ParsedTableConstraint>) -> (out: Vec<ParsedTableConstraint>)
        ensures
            ParsedTableConstraint::views(out@) == ParsedTableConstraint::views(l@),
        decreases l,
    {
        let mut out: Vec<ParsedTableConstraint> = Vec::new();
        for i in 0..l.len()
            invariant
                out.len() == i,
                forall|k: int| 0 <= k < i ==> out@[k]@ == l@[k]@,
        {
            assert(decreases_to!(l => l@[i as int]));
            out.push(l[i].clone());
        }
        assert(ParsedTableConstraint::views(out@) =~= ParsedTableConstraint::views(l@));
        out
    }

}

impl Clone for ParsedTableConstraint {
    fn clone(&self) -> (r: Self)
        ensures
            r@ == self@,
        decreases self,
    {
        proof {
            self.unfold();
        }
        let r = match self {
            ParsedTableConstraint::PrimaryKey { name, columns } => ParsedTableConstraint::PrimaryKey {
                name: match name { Some(y) => Some(y.clone()), None => None },
                columns: ParsedIdentifier::clone_all(columns),
            },
            ParsedTableConstraint::Unique { name, columns } => ParsedTableConstraint::Unique {
                name: match name { Some(y) => Some(y.clone()), None => None },
                columns: ParsedIdentifier::clone_all(columns),
            },
            ParsedTableConstraint::Check { name, expression, sql } => ParsedTableConstraint::Check {
                name: match name { Some(y) => Some(y.clone()), None => None },
                expression: expression.clone(),
                sql: sql.clone(),
            },
            ParsedTableConstraint::ForeignKey {
                name,
                columns,
                referenced_table,
                referenced_columns,
                on_delete,
                on_update,
            } => ParsedTableConstraint::ForeignKey {
                name: match name { Some(y) => Some(y.clone()), None => None },
                columns: ParsedIdentifier::clone_all(columns),
                referenced_table: referenced_table.clone(),
                referenced_columns: ParsedIdentifier::clone_all(referenced_columns),
                on_delete: *on_delete,
                on_update: *on_update,
            },
        };
        proof {
            r.unfold();
        }
        r
    }
}

impl ParsedAlterTableOperation {
    /// Copies every value of a vector.
    pub fn clone_all(l: &Vec<ParsedAlterTableOperation>) -> (out: Vec<ParsedAlterTableOperation>)
        ensures
            ParsedAlterTableOperation::views(out@) == ParsedAlterTableOperation::views(l@),
        decreases l,
    {
        let mut out: Vec<ParsedAlterTableOperation> = Vec::new();
        for i in 0..l.len()
            invariant
                out.len() == i,
                forall|k: int| 0 <= k < i ==> out@[k]@ == l@[k]@,
        {
            assert(decreases_to!(l => l@[i as int]));
            out.push(l[i].clone());
        }
        assert(ParsedAlterTableOperation::views(out@) =~= ParsedAlterTableOperation::views(l@));
        out
    }

}

impl Clone for ParsedAlterTableOperation {
    fn clone(&self) -> (r: Self)
        ensures
            r@ == self@,
        decreases self,
    {
        proof {
            self.unfold();
        }
        let r = match self {
            ParsedAlterTableOperation::RenameTable { new_name } => ParsedAlterTableOperation::RenameTable { new_name: new_name.clone() },
            ParsedAlterTableOperation::RenameColumn { old_name, new_name } => ParsedAlterTableOperation::RenameColumn {
                old_name: old_name.clone(),
                new_name: new_name.clone(),
            },
            ParsedAlterTableOperation::AddColumn { column, if_not_exists } => ParsedAlterTableOperation::AddColumn {
                column: column.clone(),
                if_not_exists: *if_not_exists,
            },
            ParsedAlterTableOperation::DropColumns { columns, if_exists, behavior } => ParsedAlterTableOperation::DropColumns {
                columns: ParsedIdentifier::clone_all(columns),
                if_exists: *if_exists,
                behavior: *behavior,
            },
            ParsedAlterTableOperation::SetNotNull { column } => ParsedAlterTableOperation::SetNotNull { column: column.clone() },
            ParsedAlterTableOperation::DropNotNull { column } => ParsedAlterTableOperation::DropNotNull { column: column.clone() },
            ParsedAlterTableOperation::SetDefault { column, default } => ParsedAlterTableOperation::SetDefault {
                column: column.clone(),
                default: default.clone(),
            },
            ParsedAlterTableOperation::DropDefault { column } => ParsedAlterTableOperation::DropDefault { column: column.clone() },
            ParsedAlterTableOperation::SetDataType { column, data_type, declared_type } => ParsedAlterTableOperation::SetDataType {
                column: column.clone(),
                data_type: data_type.clone(),
                declared_type: match declared_type { Some(y) => Some(y.clone()), None => None },
            },
            ParsedAlterTableOperation::AddConstraint { constraint } => ParsedAlterTableOperation::AddConstraint {
                constraint: constraint.clone(),
            },
            ParsedAlterTableOperation::DropConstraint { name, if_exists, behavior } => ParsedAlterTableOperation::DropConstraint {
                name: name.clone(),
                if_exists: *if_exists,
                behavior: *behavior,
            },
            ParsedAlterTableOperation::SetTriggerEnabled { name, enabled } => ParsedAlterTableOperation::SetTriggerEnabled {
                name: name.clone(),
                enabled: *enabled,
            },
        };
        proof {
            r.unfold();
        }
        r
    }
}

impl Clone for ParsedAlterDomainOperation {
    fn clone(&self) -> (r: Self)
        ensures
            r@ == self@,
        decreases self,
    {
        proof {
            self.unfold();
        }
        let r = match self {
            ParsedAlterDomainOperation::SetDefault(f0) => ParsedAlterDomainOperation::SetDefault(f0.clone()),
            ParsedAlterDomainOperation::DropDefault => ParsedAlterDomainOperation::DropDefault,
            ParsedAlterDomainOperation::SetNotNull => ParsedAlterDomainOperation::SetNotNull,
            ParsedAlterDomainOperation::DropNotNull => ParsedAlterDomainOperation::DropNotNull,
            ParsedAlterDomainOperation::AddConstraint(f0) => ParsedAlterDomainOperation::AddConstraint(f0.clone()),
            ParsedAlterDomainOperation::DropConstraint { name, if_exists } => ParsedAlterDomainOperation::DropConstraint {
                name: name.clone(),
                if_exists: *if_exists,
            },
        };
        proof {
            r.unfold();
        }
        r
    }
}

impl Clone for ParsedJoinSource {
    fn clone(&self) -> (r: Self)
        ensures
            r@ == self@,
        decreases self,
    {
        proof {
            self.unfold();
        }
        let r = match self {
            ParsedJoinSource::Table(f0) => ParsedJoinSource::Table(f0.clone()),
            ParsedJoinSource::Derived { lateral, query, alias, columns } => ParsedJoinSource::Derived {
                lateral: *lateral,
                query: Box::new((**query).clone()),
                alias: alias.clone(),
                columns: ParsedIdentifier::clone_all(columns),
            },
        };
        proof {
            r.unfold();
        }
        r
    }
}

impl ParsedJoin {
    /// Copies every value of a vector.
    pub fn clone_all(l: &Vec<ParsedJoin>) -> (out: Vec<ParsedJoin>)
        ensures
            ParsedJoin::views(out@) == ParsedJoin::views(l@),
        decreases l,
    {
        let mut out: Vec<ParsedJoin> = Vec::new();
        for i in 0..l.len()
            invariant
                out.len() == i,
                forall|k: int| 0 <= k < i ==> out@[k]@ == l@[k]@,
        {
            assert(decreases_to!(l => l@[i as int]));
            out.push(l[i].clone());
        }
        assert(ParsedJoin::views(out@) =~= ParsedJoin::views(l@));
        out
    }

}

impl Clone for ParsedJoin {
    fn clone(&self) -> (r: Self)
        ensures
            r@ == self@,
        decreases self,
    {
        proof {
            self.unfold();
        }
        let r = ParsedJoin {
            source: self.source.clone(),
            kind: self.kind,
            on: self.on.clone(),
        };
        proof {
            r.unfold();
        }
        r
    }
}

impl Clone for ParsedConflictAction {
    fn clone(&self) -> (r: Self)
        ensures
            r@ == self@,
        decreases self,
    {
        proof {
            self.unfold();
        }
        let r = match self {
            ParsedConflictAction::DoNothing => ParsedConflictAction::DoNothing,
            ParsedConflictAction::DoUpdate { assignments, filter } => ParsedConflictAction::DoUpdate {
                assignments: clone_assignments(assignments),
                filter: match filter { Some(y) => Some(y.clone()), None => None },
            },
        };
        proof {
            r.unfold();
        }
        r
    }
}

impl Clone for ParsedOnConflict {
    fn clone(&self) -> (r: Self)
        ensures
            r@ == self@,
        decreases self,
    {
        proof {
            self.unfold();
        }
        let r = ParsedOnConflict {
            target: match &self.target { Some(y) => Some(y.clone()), None => None },
            action: self.action.clone(),
        };
        proof {
            r.unfold();
        }
        r
    }
}

impl Clone for ParsedMergeAction {
    fn clone(&self) -> (r: Self)
        ensures
            r@ == self@,
        decreases self,
    {
        proof {
            self.unfold();
        }
        let r = match self {
            ParsedMergeAction::Update { assignments } => ParsedMergeAction::Update { assignments: clone_assignments(assignments) },
            ParsedMergeAction::Delete => ParsedMergeAction::Delete,
            ParsedMergeAction::Insert { columns, values } => ParsedMergeAction::Insert {
                columns: ParsedIdentifier::clone_all(columns),
                values: ParsedExpr::clone_all(values),
            },
            ParsedMergeAction::DoNothing => ParsedMergeAction::DoNothing,
        };
        proof {
            r.unfold();
        }
        r
    }
}

impl ParsedMergeClause {
    /// Copies every value of a vector.
    pub fn clone_all(l: &Vec<ParsedMergeClause>) -> (out: Vec<ParsedMergeClause>)
        ensures
            ParsedMergeClause::views(out@) == ParsedMergeClause::views(l@),
        decreases l,
    {
        let mut out: Vec<ParsedMergeClause> = Vec::new();
        for i in 0..l.len()
            invariant
                out.len() == i,
                forall|k: int| 0 <= k < i ==> out@[k]@ == l@[k]@,
        {
            assert(decreases_to!(l => l@[i as int]));
            out.push(l[i].clone());
        }
        assert(ParsedMergeClause::views(out@) =~= ParsedMergeClause::views(l@));
        out
    }

}

impl Clone for ParsedMergeClause {
    fn clone(&self) -> (r: Self)
        ensures
            r@ == self@,
        decreases self,
    {
        proof {
            self.unfold();
        }
        let r = ParsedMergeClause {
            kind: self.kind,
            predicate: match &self.predicate { Some(y) => Some(y.clone()), None => None },
            action: self.action.clone(),
        };
        proof {
            r.unfold();
        }
        r
    }
}

impl Clone for ParsedMerge {
    fn clone(&self) -> (r: Self)
        ensures
            r@ == self@,
        decreases self,
    {
        proof {
            self.unfold();
        }
        let r = ParsedMerge {
            target: self.target.clone(),
            source: self.source.clone(),
            on: self.on.clone(),
            clauses: ParsedMergeClause::clone_all(&self.clauses),
            returning: ParsedProjection::clone_all(&self.returning),
        };
        proof {
            r.unfold();
        }
        r
    }
}

impl Clone for ParsedSequenceOperation {
    fn clone(&self) -> (r: Self)
        ensures
            r@ == self@,
        decreases self,
    {
        proof {
            self.unfold();
        }
        let r = match self {
            ParsedSequenceOperation::NextValue => ParsedSequenceOperation::NextValue,
            ParsedSequenceOperation::CurrentValue => ParsedSequenceOperation::CurrentValue,
            ParsedSequenceOperation::SetValue { value, is_called } => ParsedSequenceOperation::SetValue {
                value: value.clone(),
                is_called: *is_called,
            },
        };
        proof {
            r.unfold();
        }
        r
    }
}

impl Clone for ParsedStatement {
    fn clone(&self) -> (r: Self)
        ensures
            r@ == self@,
        decreases self,
    {
        proof {
            self.unfold();
        }
        let r = match self {
            ParsedStatement::Begin { characteristics } => ParsedStatement::Begin { characteristics: *characteristics },
            ParsedStatement::Commit { chain } => ParsedStatement::Commit { chain: *chain },
            ParsedStatement::Rollback { chain } => ParsedStatement::Rollback { chain: *chain },
            ParsedStatement::Savepoint { name } => ParsedStatement::Savepoint { name: name.clone() },
            ParsedStatement::RollbackTo { name } => ParsedStatement::RollbackTo { name: name.clone() },
            ParsedStatement::ReleaseSavepoint { name } => ParsedStatement::ReleaseSavepoint { name: name.clone() },
            ParsedStatement::Analyze { table } => ParsedStatement::Analyze {
                table: match table { Some(y) => Some(y.clone()), None => None },
            },
            ParsedStatement::Vacuum { table, analyze } => ParsedStatement::Vacuum {
                table: match table { Some(y) => Some(y.clone()), None => None },
                analyze: *analyze,
            },
            ParsedStatement::Reindex { target } => ParsedStatement::Reindex { target: target.clone() },
            ParsedStatement::Listen { channel } => ParsedStatement::Listen { channel: channel.clone() },
            ParsedStatement::Unlisten { channel } => ParsedStatement::Unlisten {
                channel: match channel { Some(y) => Some(y.clone()), None => None },
            },
            ParsedStatement::Notify { channel, payload } => ParsedStatement::Notify { channel: channel.clone(), payload: payload.clone() },
            ParsedStatement::Do { body } => ParsedStatement::Do { body: body.clone() },
            ParsedStatement::DiscardAll => ParsedStatement::DiscardAll,
            ParsedStatement::DeallocateAll => ParsedStatement::DeallocateAll,
            ParsedStatement::CreateSchema { name, if_not_exists } => ParsedStatement::CreateSchema {
                name: name.clone(),
                if_not_exists: *if_not_exists,
            },
            ParsedStatement::CreateEnumType { name, labels } => ParsedStatement::CreateEnumType {
                name: name.clone(),
                labels: clone_strings(labels),
            },
            ParsedStatement::CreateDomain {
                name,
                base_type,
                base_declared_type,
                not_null,
                default,
                checks,
            } => ParsedStatement::CreateDomain {
                name: name.clone(),
                base_type: base_type.clone(),
                base_declared_type: match base_declared_type { Some(y) => Some(y.clone()), None => None },
                not_null: *not_null,
                default: match default { Some(y) => Some(y.clone()), None => None },
                checks: DomainConstraint::clone_all(checks),
            },
            ParsedStatement::AlterEnumAddValue { name, label, position, if_not_exists } => ParsedStatement::AlterEnumAddValue {
                name: name.clone(),
                label: label.clone(),
                position: match position { Some(y) => Some(y.clone()), None => None },
                if_not_exists: *if_not_exists,
            },
            ParsedStatement::AlterEnumRenameValue { name, old_label, new_label } => ParsedStatement::AlterEnumRenameValue {
                name: name.clone(),
                old_label: old_label.clone(),
                new_label: new_label.clone(),
            },
            ParsedStatement::AlterDomain { name, operation } => ParsedStatement::AlterDomain {
                name: name.clone(),
                operation: operation.clone(),
            },
            ParsedStatement::AlterSchemaRename { name, new_name, if_exists } => ParsedStatement::AlterSchemaRename {
                name: name.clone(),
                new_name: new_name.clone(),
                if_exists: *if_exists,
            },
            ParsedStatement::DropObjects { kind, names, if_exists, behavior } => ParsedStatement::DropObjects {
                kind: *kind,
                names: ParsedObjectName::clone_all(names),
                if_exists: *if_exists,
                behavior: *behavior,
            },
            ParsedStatement::CreateTable { name, columns, constraints, if_not_exists } => ParsedStatement::CreateTable {
                name: name.clone(),
                columns: ParsedColumn::clone_all(columns),
                constraints: ParsedTableConstraint::clone_all(constraints),
                if_not_exists: *if_not_exists,
            },
            ParsedStatement::AlterTable { name, if_exists, operations } => ParsedStatement::AlterTable {
                name: name.clone(),
                if_exists: *if_exists,
                operations: ParsedAlterTableOperation::clone_all(operations),
            },
            ParsedStatement::CreateIndex(f0) => ParsedStatement::CreateIndex(f0.clone()),
            ParsedStatement::AlterIndexRename { name, new_name } => ParsedStatement::AlterIndexRename {
                name: name.clone(),
                new_name: new_name.clone(),
            },
            ParsedStatement::CreateSequence { name, sequence, if_not_exists, owner } => ParsedStatement::CreateSequence {
                name: name.clone(),
                sequence: sequence.clone(),
                if_not_exists: *if_not_exists,
                owner: match owner { Some(y) => Some(((&y.0).clone(), (&y.1).clone())), None => None },
            },
            ParsedStatement::AlterSequenceRename { name, if_exists, new_name } => ParsedStatement::AlterSequenceRename {
                name: name.clone(),
                if_exists: *if_exists,
                new_name: new_name.clone(),
            },
            ParsedStatement::AlterSequence { name, if_exists, options } => ParsedStatement::AlterSequence {
                name: name.clone(),
                if_exists: *if_exists,
                options: options.clone(),
            },
            ParsedStatement::CreateView {
                name,
                kind,
                query,
                query_sql,
                columns,
                replace,
                if_not_exists,
                with_data,
            } => ParsedStatement::CreateView {
                name: name.clone(),
                kind: *kind,
                query: Box::new((**query).clone()),
                query_sql: query_sql.clone(),
                columns: ParsedIdentifier::clone_all(columns),
                replace: *replace,
                if_not_exists: *if_not_exists,
                with_data: *with_data,
            },
            ParsedStatement::AlterViewRename { name, kind, if_exists, new_name } => ParsedStatement::AlterViewRename {
                name: name.clone(),
                kind: *kind,
                if_exists: *if_exists,
                new_name: new_name.clone(),
            },
            ParsedStatement::RefreshMaterializedView { name, with_data } => ParsedStatement::RefreshMaterializedView {
                name: name.clone(),
                with_data: *with_data,
            },
            ParsedStatement::CreateRoutine {
                name,
                kind,
                arguments,
                return_type,
                return_declared_type,
                returns_set,
                language,
                body,
                replace,
            } => ParsedStatement::CreateRoutine {
                name: name.clone(),
                kind: *kind,
                arguments: ParsedRoutineArgument::clone_all(arguments),
                return_type: match return_type { Some(y) => Some(y.clone()), None => None },
                return_declared_type: match return_declared_type { Some(y) => Some(y.clone()), None => None },
                returns_set: *returns_set,
                language: language.clone(),
                body: body.clone(),
                replace: *replace,
            },
            ParsedStatement::DropRoutine { name, kind, argument_types, if_exists, behavior } => ParsedStatement::DropRoutine {
                name: name.clone(),
                kind: *kind,
                argument_types: match argument_types { Some(y) => Some(ParsedRoutineArgument::clone_all(y)), None => None },
                if_exists: *if_exists,
                behavior: *behavior,
            },
            ParsedStatement::Call { name, arguments } => ParsedStatement::Call {
                name: name.clone(),
                arguments: ParsedExpr::clone_all(arguments),
            },
            ParsedStatement::ScalarSelect { projection } => ParsedStatement::ScalarSelect {
                projection: ParsedProjection::clone_all(projection),
            },
            ParsedStatement::RoutineSelect { name, arguments, alias } => ParsedStatement::RoutineSelect {
                name: name.clone(),
                arguments: ParsedExpr::clone_all(arguments),
                alias: match alias { Some(y) => Some(y.clone()), None => None },
            },
            ParsedStatement::PgNotify { channel, payload, alias } => ParsedStatement::PgNotify {
                channel: channel.clone(),
                payload: payload.clone(),
                alias: match alias { Some(y) => Some(y.clone()), None => None },
            },
            ParsedStatement::SequenceValue { name, operation, alias } => ParsedStatement::SequenceValue {
                name: name.clone(),
                operation: operation.clone(),
                alias: match alias { Some(y) => Some(y.clone()), None => None },
            },
            ParsedStatement::CreateTrigger { name, table, timing, level, events, routine } => ParsedStatement::CreateTrigger {
                name: name.clone(),
                table: table.clone(),
                timing: *timing,
                level: *level,
                events: copy_items(events),
                routine: routine.clone(),
            },
            ParsedStatement::DropTrigger { name, table, if_exists, behavior } => ParsedStatement::DropTrigger {
                name: name.clone(),
                table: table.clone(),
                if_exists: *if_exists,
                behavior: *behavior,
            },
            ParsedStatement::Insert { table, columns, rows, on_conflict, returning } => ParsedStatement::Insert {
                table: table.clone(),
                columns: ParsedIdentifier::clone_all(columns),
                rows: clone_expr_rows(rows),
                on_conflict: match on_conflict { Some(y) => Some(y.clone()), None => None },
                returning: ParsedProjection::clone_all(returning),
            },
            ParsedStatement::Merge(f0) => ParsedStatement::Merge(f0.clone()),
            ParsedStatement::With { recursive, ctes, body } => ParsedStatement::With {
                recursive: *recursive,
                ctes: ParsedCte::clone_all(ctes),
                body: Box::new((**body).clone()),
            },
            ParsedStatement::SetOperation { left, operator, all, right, order_by, offset, limit } => ParsedStatement::SetOperation {
                left: Box::new((**left).clone()),
                operator: *operator,
                all: *all,
                right: Box::new((**right).clone()),
                order_by: ParsedOrder::clone_all(order_by),
                offset: match offset { Some(y) => Some(y.clone()), None => None },
                limit: match limit { Some(y) => Some(y.clone()), None => None },
            },
            ParsedStatement::Select { table, projection, filter, order_by, offset, limit } => ParsedStatement::Select {
                table: table.clone(),
                projection: ParsedProjection::clone_all(projection),
                filter: match filter { Some(y) => Some(y.clone()), None => None },
                order_by: ParsedOrder::clone_all(order_by),
                offset: match offset { Some(y) => Some(y.clone()), None => None },
                limit: match limit { Some(y) => Some(y.clone()), None => None },
            },
            ParsedStatement::AdvancedSelect {
                table,
                joins,
                projection,
                distinct,
                filter,
                group_by,
                having,
                order_by,
                offset,
                limit,
            } => ParsedStatement::AdvancedSelect {
                table: table.clone(),
                joins: ParsedJoin::clone_all(joins),
                projection: ParsedProjection::clone_all(projection),
                distinct: *distinct,
                filter: match filter { Some(y) => Some(y.clone()), None => None },
                group_by: ParsedExpr::clone_all(group_by),
                having: match having { Some(y) => Some(y.clone()), None => None },
                order_by: ParsedOrder::clone_all(order_by),
                offset: match offset { Some(y) => Some(y.clone()), None => None },
                limit: match limit { Some(y) => Some(y.clone()), None => None },
            },
            ParsedStatement::Explain { statement } => ParsedStatement::Explain { statement: Box::new((**statement).clone()) },
            ParsedStatement::Update { table, assignments, filter, returning } => ParsedStatement::Update {
                table: table.clone(),
                assignments: clone_assignments(assignments),
                filter: match filter { Some(y) => Some(y.clone()), None => None },
                returning: ParsedProjection::clone_all(returning),
            },
            ParsedStatement::Delete { table, filter, returning } => ParsedStatement::Delete {
                table: table.clone(),
                filter: match filter { Some(y) => Some(y.clone()), None => None },
                returning: ParsedProjection::clone_all(returning),
            },
        };
        proof {
            r.unfold();
        }
        r
    }
}

/// Copies a list of assignments.
pub fn clone_assignments(l: &Vec<(ParsedIdentifier, ParsedExpr)>) -> (out: Vec<(ParsedIdentifier, ParsedExpr)>)
    ensures
        assignment_views(out@) == assignment_views(l@),
    decreases l,
{
    let mut out: Vec<(ParsedIdentifier, ParsedExpr)> = Vec::new();
    for i in 0..l.len()
        invariant
            out.len() == i,
            forall|k: int| 0 <= k < i ==> out@[k].0@ == l@[k].0@ && out@[k].1@ == l@[k].1@,
    {
        assert(decreases_to!(l => l@[i as int]));
        let item: &(ParsedIdentifier, ParsedExpr) = &l[i];
        assert(decreases_to!(l@[i as int] => l@[i as int].1));
        out.push((item.0.clone(), item.1.clone()));
    }
    assert(assignment_views(out@) =~= assignment_views(l@));
    out
}

/// Copies a list of expression rows.
pub fn clone_expr_rows(l: &Vec<Vec<ParsedExpr>>) -> (out: Vec<Vec<ParsedExpr>>)
    ensures
        expr_rows(out@) == expr_rows(l@),
    decreases l,
{
    let mut out: Vec<Vec<ParsedExpr>> = Vec::new();
    for i in 0..l.len()
        invariant
            out.len() == i,
            forall|k: int| 0 <= k < i ==> ParsedExpr::views(out@[k]@) == ParsedExpr::views(l@[k]@),
    {
        assert(decreases_to!(l => l@[i as int]));
        out.push(ParsedExpr::clone_all(&l[i]));
    }
    assert(expr_rows(out@) =~= expr_rows(l@));
    out
}

} // verus!
