//! Copies and comparisons of bound trees.

use vstd::prelude::*;

use crate::bound::{
    clone_bound_assignments, clone_bound_rows, same_items, BoundAlterTableOperation, BoundApply, BoundCte, BoundExpr, BoundExprKind,
    BoundJoin, BoundJoinSource, BoundOrder, BoundProjection, BoundStatement, BoundWindow,
};
use crate::catalog::{DomainConstraint, NewColumn, NewConstraint, RoutineArgument};
use crate::text::{clone_strings, copy_items};

verus! {

impl BoundExprKind {
    /// Decides whether two values hold the same contents.
    pub fn same(&self, other: &BoundExprKind) -> (r: bool)
        ensures
            r == (self.shape() == other.shape()),
        decreases self,
    {
        match (self, other) {
            (BoundExprKind::Column { index: a_index }, BoundExprKind::Column { index: b_index }) => (*a_index == *b_index),
            (BoundExprKind::Literal(a_f0), BoundExprKind::Literal(b_f0)) => (a_f0.same(b_f0)),
            (BoundExprKind::Parameter { index: a_index }, BoundExprKind::Parameter { index: b_index }) => (*a_index == *b_index),
            (
                BoundExprKind::Correlation { depth: a_depth, index: a_index },
                BoundExprKind::Correlation { depth: b_depth, index: b_index },
            ) => (*a_depth == *b_depth) && (*a_index == *b_index),
            (
                BoundExprKind::Unary { op: a_op, expr: a_expr },
                BoundExprKind::Unary { op: b_op, expr: b_expr },
            ) => (*a_op == *b_op) && ((**a_expr).same(&**b_expr)),
            (BoundExprKind::Cast { expr: a_expr }, BoundExprKind::Cast { expr: b_expr }) => ((**a_expr).same(&**b_expr)),
            (
                BoundExprKind::Array { elements: a_elements, dimensions: a_dimensions },
                BoundExprKind::Array { elements: b_elements, dimensions: b_dimensions },
            ) => (BoundExpr::same_all(a_elements, b_elements)) && (same_items(a_dimensions, b_dimensions)),
            (
                BoundExprKind::Function { function: a_function, arguments: a_arguments },
                BoundExprKind::Function { function: b_function, arguments: b_arguments },
            ) => (*a_function == *b_function) && (BoundExpr::same_all(a_arguments, b_arguments)),
            (
                BoundExprKind::Binary { left: a_left, op: a_op, right: a_right },
                BoundExprKind::Binary { left: b_left, op: b_op, right: b_right },
            ) => ((**a_left).same(&**b_left)) && (*a_op == *b_op) && ((**a_right).same(&**b_right)),
            (
                BoundExprKind::InList { expr: a_expr, list: a_list, negated: a_negated },
                BoundExprKind::InList { expr: b_expr, list: b_list, negated: b_negated },
            ) => ((**a_expr).same(&**b_expr)) && (BoundExpr::same_all(a_list, b_list)) && (*a_negated == *b_negated),
            (BoundExprKind::ApplyValue { index: a_index }, BoundExprKind::ApplyValue { index: b_index }) => (*a_index == *b_index),
            (
                BoundExprKind::Aggregate { function: a_function, argument: a_argument, distinct: a_distinct, filter: a_filter },
                BoundExprKind::Aggregate { function: b_function, argument: b_argument, distinct: b_distinct, filter: b_filter },
            ) => (*a_function == *b_function) && (
                match (a_argument, b_argument) { (Some(p), Some(q)) => (**p).same(&**q), (None, None) => true, _ => false }
            ) && (*a_distinct == *b_distinct) && (
                match (a_filter, b_filter) { (Some(p), Some(q)) => (**p).same(&**q), (None, None) => true, _ => false }
            ),
            _ => false,
        }
    }

}

impl Clone for BoundExprKind {
    fn clone(&self) -> (r: Self)
        ensures
            r.shape() == self.shape(),
        decreases self,
    {
        match self {
            BoundExprKind::Column { index } => BoundExprKind::Column { index: *index },
            BoundExprKind::Literal(f0) => BoundExprKind::Literal(f0.clone()),
            BoundExprKind::Parameter { index } => BoundExprKind::Parameter { index: *index },
            BoundExprKind::Correlation { depth, index } => BoundExprKind::Correlation { depth: *depth, index: *index },
            BoundExprKind::Unary { op, expr } => BoundExprKind::Unary { op: *op, expr: Box::new((**expr).clone()) },
            BoundExprKind::Cast { expr } => BoundExprKind::Cast { expr: Box::new((**expr).clone()) },
            BoundExprKind::Array { elements, dimensions } => BoundExprKind::Array {
                elements: BoundExpr::clone_all(elements),
                dimensions: copy_items(dimensions),
            },
            BoundExprKind::Function { function, arguments } => BoundExprKind::Function {
                function: *function,
                arguments: BoundExpr::clone_all(arguments),
            },
            BoundExprKind::Binary { left, op, right } => BoundExprKind::Binary {
                left: Box::new((**left).clone()),
                op: *op,
                right: Box::new((**right).clone()),
            },
            BoundExprKind::InList { expr, list, negated } => BoundExprKind::InList {
                expr: Box::new((**expr).clone()),
                list: BoundExpr::clone_all(list),
                negated: *negated,
            },
            BoundExprKind::ApplyValue { index } => BoundExprKind::ApplyValue { index: *index },
            BoundExprKind::Aggregate { function, argument, distinct, filter } => BoundExprKind::Aggregate {
                function: *function,
                argument: match argument { Some(y) => Some(Box::new((**y).clone())), None => None },
                distinct: *distinct,
                filter: match filter { Some(y) => Some(Box::new((**y).clone())), None => None },
            },
        }
    }
}

impl BoundExpr {
    /// Copies every value of a vector.
    pub fn clone_all(l: &Vec<BoundExpr>) -> (out: Vec<BoundExpr>)
        ensures
            BoundExpr::views(out@) == BoundExpr::views(l@),
        decreases l,
    {
        let mut out: Vec<BoundExpr> = Vec::new();
        for i in 0..l.len()
            invariant
                out.len() == i,
                forall|k: int| 0 <= k < i ==> out@[k]@ == l@[k]@,
        {
            assert(decreases_to!(l => l@[i as int]));
            out.push(l[i].clone());
        }
        assert(BoundExpr::views(out@) =~= BoundExpr::views(l@));
        out
    }

    /// Decides whether two values hold the same contents.
    pub fn same(&self, other: &BoundExpr) -> (r: bool)
        ensures
            r == (self@ == other@),
        decreases self,
    {
        proof {
            self.unfold();
            other.unfold();
        }
        (self.kind.same(&other.kind)) && (self.data_type.same(&other.data_type)) && (*(&self.nullable) == *(&other.nullable))
    }

    /// Decides whether two vectors hold the same contents.
    pub fn same_all(a: &Vec<BoundExpr>, b: &Vec<BoundExpr>) -> (r: bool)
        ensures
            r == (BoundExpr::views(a@) == BoundExpr::views(b@)),
        decreases a,
    {
        if a.len() != b.len() {
            assert(BoundExpr::views(a@).len() != BoundExpr::views(b@).len());
            return false;
        }
        for i in 0..a.len()
            invariant
                a.len() == b.len(),
                forall|k: int| 0 <= k < i ==> a@[k]@ == b@[k]@,
        {
            assert(decreases_to!(a => a@[i as int]));
            if !a[i].same(&b[i]) {
                assert(BoundExpr::views(a@)[i as int] != BoundExpr::views(b@)[i as int]);
                return false;
            }
        }
        assert(BoundExpr::views(a@) =~= BoundExpr::views(b@));
        true
    }

}

impl Clone for BoundExpr {
    fn clone(&self) -> (r: Self)
        ensures
            r@ == self@,
        decreases self,
    {
        proof {
            self.unfold();
        }
        let r = BoundExpr {
            kind: self.kind.clone(),
            data_type: self.data_type.clone(),
            nullable: self.nullable,
        };
        proof {
            r.unfold();
        }
        r
    }
}

impl BoundApply {
    /// Copies every value of a vector.
    pub fn clone_all(l: &Vec<BoundApply>) -> (out: Vec<BoundApply>)
        ensures
            BoundApply::views(out@) == BoundApply::views(l@),
        decreases l,
    {
        let mut out: Vec<BoundApply> = Vec::new();
        for i in 0..l.len()
            invariant
                out.len() == i,
                forall|k: int| 0 <= k < i ==> out@[k]@ == l@[k]@,
        {
            assert(decreases_to!(l => l@[i as int]));
            out.push(l[i].clone());
        }
        assert(BoundApply::views(out@) =~= BoundApply::views(l@));
        out
    }

}

impl Clone for BoundApply {
    fn clone(&self) -> (r: Self)
        ensures
            r@ == self@,
        decreases self,
    {
        proof {
            self.unfold();
        }
        let r = BoundApply {
            kind: self.kind.clone(),
            query: Box::new((*self.query).clone()),
        };
        proof {
            r.unfold();
        }
        r
    }
}

impl Clone for BoundJoinSource {
    fn clone(&self) -> (r: Self)
        ensures
            r@ == self@,
        decreases self,
    {
        proof {
            self.unfold();
        }
        let r = match self {
            BoundJoinSource::Table(f0) => BoundJoinSource::Table(f0.clone()),
            BoundJoinSource::Derived { lateral, query, binding, offset, width, nullable } => BoundJoinSource::Derived {
                lateral: *lateral,
                query: Box::new((**query).clone()),
                binding: binding.clone(),
                offset: *offset,
                width: *width,
                nullable: *nullable,
            },
        };
        proof {
            r.unfold();
        }
        r
    }
}

impl BoundJoin {
    /// Copies every value of a vector.
    pub fn clone_all(l: &Vec<BoundJoin>) -> (out: Vec<BoundJoin>)
        ensures
            BoundJoin::views(out@) == BoundJoin::views(l@),
        decreases l,
    {
        let mut out: Vec<BoundJoin> = Vec::new();
        for i in 0..l.len()
            invariant
                out.len() == i,
                forall|k: int| 0 <= k < i ==> out@[k]@ == l@[k]@,
        {
            assert(decreases_to!(l => l@[i as int]));
            out.push(l[i].clone());
        }
        assert(BoundJoin::views(out@) =~= BoundJoin::views(l@));
        out
    }

}

impl Clone for BoundJoin {
    fn clone(&self) -> (r: Self)
        ensures
            r@ == self@,
        decreases self,
    {
        proof {
            self.unfold();
        }
        let r = BoundJoin {
            source: self.source.clone(),
            kind: self.kind,
            on: self.on.clone(),
        };
        proof {
            r.unfold();
        }
        r
    }
}

impl BoundCte {
    /// Copies every value of a vector.
    pub fn clone_all(l: &Vec<BoundCte>) -> (out: Vec<BoundCte>)
        ensures
            BoundCte::views(out@) == BoundCte::views(l@),
        decreases l,
    {
        let mut out: Vec<BoundCte> = Vec::new();
        for i in 0..l.len()
            invariant
                out.len() == i,
                forall|k: int| 0 <= k < i ==> out@[k]@ == l@[k]@,
        {
            assert(decreases_to!(l => l@[i as int]));
            out.push(l[i].clone());
        }
        assert(BoundCte::views(out@) =~= BoundCte::views(l@));
        out
    }

}

impl Clone for BoundCte {
    fn clone(&self) -> (r: Self)
        ensures
            r@ == self@,
        decreases self,
    {
        proof {
            self.unfold();
        }
        let r = BoundCte {
            table_id: self.table_id,
            seed: Box::new((*self.seed).clone()),
            recursive: match &self.recursive { Some(y) => Some(Box::new((**y).clone())), None => None },
            union_all: self.union_all,
        };
        proof {
            r.unfold();
        }
        r
    }
}

impl Clone for BoundStatement {
    fn clone(&self) -> (r: Self)
        ensures
            r@ == self@,
        decreases self,
    {
        proof {
            self.unfold();
        }
        let r = match self {
            BoundStatement::NoOp { tag } => BoundStatement::NoOp { tag: tag.clone() },
            BoundStatement::Begin { characteristics } => BoundStatement::Begin { characteristics: *characteristics },
            BoundStatement::Commit { chain } => BoundStatement::Commit { chain: *chain },
            BoundStatement::Rollback { chain } => BoundStatement::Rollback { chain: *chain },
            BoundStatement::Savepoint { name } => BoundStatement::Savepoint { name: name.clone() },
            BoundStatement::RollbackTo { name } => BoundStatement::RollbackTo { name: name.clone() },
            BoundStatement::ReleaseSavepoint { name } => BoundStatement::ReleaseSavepoint { name: name.clone() },
            BoundStatement::Analyze { table_id } => BoundStatement::Analyze { table_id: *table_id },
            BoundStatement::Vacuum { table_id, analyze } => BoundStatement::Vacuum { table_id: *table_id, analyze: *analyze },
            BoundStatement::Reindex { target } => BoundStatement::Reindex { target: *target },
            BoundStatement::Listen { channel } => BoundStatement::Listen { channel: channel.clone() },
            BoundStatement::Unlisten { channel } => BoundStatement::Unlisten {
                channel: match channel { Some(y) => Some(y.clone()), None => None },
            },
            BoundStatement::Notify { channel, payload } => BoundStatement::Notify { channel: channel.clone(), payload: payload.clone() },
            BoundStatement::Do { body } => BoundStatement::Do { body: body.clone() },
            BoundStatement::DiscardAll => BoundStatement::DiscardAll,
            BoundStatement::DeallocateAll => BoundStatement::DeallocateAll,
            BoundStatement::CreateSchema { name, if_not_exists } => BoundStatement::CreateSchema {
                name: name.clone(),
                if_not_exists: *if_not_exists,
            },
            BoundStatement::CreateEnumType { schema, name, labels } => BoundStatement::CreateEnumType {
                schema: schema.clone(),
                name: name.clone(),
                labels: clone_strings(labels),
            },
            BoundStatement::CreateDomain {
                schema,
                name,
                base_type,
                base_declared_type,
                not_null,
                default,
                checks,
            } => BoundStatement::CreateDomain {
                schema: schema.clone(),
                name: name.clone(),
                base_type: base_type.clone(),
                base_declared_type: *base_declared_type,
                not_null: *not_null,
                default: match default { Some(y) => Some(y.clone()), None => None },
                checks: DomainConstraint::clone_all(checks),
            },
            BoundStatement::AlterEnumAddValue { type_id, label, position, if_not_exists } => BoundStatement::AlterEnumAddValue {
                type_id: *type_id,
                label: label.clone(),
                position: match position { Some(y) => Some(y.clone()), None => None },
                if_not_exists: *if_not_exists,
            },
            BoundStatement::AlterEnumRenameValue { type_id, old_label, new_label } => BoundStatement::AlterEnumRenameValue {
                type_id: *type_id,
                old_label: old_label.clone(),
                new_label: new_label.clone(),
            },
            BoundStatement::AlterDomain { type_id, operation } => BoundStatement::AlterDomain {
                type_id: *type_id,
                operation: operation.clone(),
            },
            BoundStatement::AlterSchemaRename { schema_id, new_name } => BoundStatement::AlterSchemaRename {
                schema_id: *schema_id,
                new_name: new_name.clone(),
            },
            BoundStatement::DropObjects { kind, objects, behavior } => BoundStatement::DropObjects {
                kind: *kind,
                objects: copy_items(objects),
                behavior: *behavior,
            },
            BoundStatement::CreateTable { schema, name, columns, constraints, if_not_exists } => BoundStatement::CreateTable {
                schema: schema.clone(),
                name: name.clone(),
                columns: NewColumn::clone_all(columns),
                constraints: NewConstraint::clone_all(constraints),
                if_not_exists: *if_not_exists,
            },
            BoundStatement::AlterTable { table_id, operations } => BoundStatement::AlterTable {
                table_id: *table_id,
                operations: BoundAlterTableOperation::clone_all(operations),
            },
            BoundStatement::CreateIndex { table_id, index, if_not_exists } => BoundStatement::CreateIndex {
                table_id: *table_id,
                index: index.clone(),
                if_not_exists: *if_not_exists,
            },
            BoundStatement::AlterIndexRename { index_id, new_name } => BoundStatement::AlterIndexRename {
                index_id: *index_id,
                new_name: new_name.clone(),
            },
            BoundStatement::CreateSequence { schema, sequence, if_not_exists } => BoundStatement::CreateSequence {
                schema: schema.clone(),
                sequence: sequence.clone(),
                if_not_exists: *if_not_exists,
            },
            BoundStatement::AlterSequenceRename { sequence_id, new_name } => BoundStatement::AlterSequenceRename {
                sequence_id: *sequence_id,
                new_name: new_name.clone(),
            },
            BoundStatement::AlterSequence {
                sequence_id,
                increment,
                min_value,
                max_value,
                restart,
                cycle,
                owner,
            } => BoundStatement::AlterSequence {
                sequence_id: *sequence_id,
                increment: *increment,
                min_value: *min_value,
                max_value: *max_value,
                restart: *restart,
                cycle: *cycle,
                owner: *owner,
            },
            BoundStatement::CreateView {
                schema,
                name,
                kind,
                query,
                query_sql,
                output,
                references,
                replace,
                if_not_exists,
                with_data,
                existing,
            } => BoundStatement::CreateView {
                schema: schema.clone(),
                name: name.clone(),
                kind: *kind,
                query: Box::new((**query).clone()),
                query_sql: query_sql.clone(),
                output: output.clone(),
                references: copy_items(references),
                replace: *replace,
                if_not_exists: *if_not_exists,
                with_data: *with_data,
                existing: *existing,
            },
            BoundStatement::AlterViewRename { view_id, new_name } => BoundStatement::AlterViewRename {
                view_id: *view_id,
                new_name: new_name.clone(),
            },
            BoundStatement::RefreshMaterializedView { view_id, table_id, query, with_data } => BoundStatement::RefreshMaterializedView {
                view_id: *view_id,
                table_id: *table_id,
                query: Box::new((**query).clone()),
                with_data: *with_data,
            },
            BoundStatement::CreateRoutine {
                schema,
                name,
                kind,
                arguments,
                return_type,
                return_declared_type,
                returns_set,
                language,
                body,
                replace,
            } => BoundStatement::CreateRoutine {
                schema: schema.clone(),
                name: name.clone(),
                kind: *kind,
                arguments: RoutineArgument::clone_all(arguments),
                return_type: match return_type { Some(y) => Some(y.clone()), None => None },
                return_declared_type: *return_declared_type,
                returns_set: *returns_set,
                language: language.clone(),
                body: body.clone(),
                replace: *replace,
            },
            BoundStatement::DropRoutine { routine_id, behavior } => BoundStatement::DropRoutine {
                routine_id: *routine_id,
                behavior: *behavior,
            },
            BoundStatement::Call { routine_id, arguments, schema } => BoundStatement::Call {
                routine_id: *routine_id,
                arguments: BoundExpr::clone_all(arguments),
                schema: schema.clone(),
            },
            BoundStatement::ScalarSelect { projection, schema } => BoundStatement::ScalarSelect {
                projection: BoundProjection::clone_all(projection),
                schema: schema.clone(),
            },
            BoundStatement::RoutineSelect { routine_id, arguments, schema, returns_set } => BoundStatement::RoutineSelect {
                routine_id: *routine_id,
                arguments: BoundExpr::clone_all(arguments),
                schema: schema.clone(),
                returns_set: *returns_set,
            },
            BoundStatement::PgNotify { channel, payload, schema } => BoundStatement::PgNotify {
                channel: channel.clone(),
                payload: payload.clone(),
                schema: schema.clone(),
            },
            BoundStatement::SequenceValue { sequence_id, operation, schema } => BoundStatement::SequenceValue {
                sequence_id: *sequence_id,
                operation: operation.clone(),
                schema: schema.clone(),
            },
            BoundStatement::CreateTrigger { target, name, timing, level, events, routine_id } => BoundStatement::CreateTrigger {
                target: *target,
                name: name.clone(),
                timing: *timing,
                level: *level,
                events: copy_items(events),
                routine_id: *routine_id,
            },
            BoundStatement::DropTrigger { trigger_id, behavior } => BoundStatement::DropTrigger {
                trigger_id: *trigger_id,
                behavior: *behavior,
            },
            BoundStatement::ViewSelect { view_id, source, schema, projection } => BoundStatement::ViewSelect {
                view_id: *view_id,
                source: Box::new((**source).clone()),
                schema: schema.clone(),
                projection: copy_items(projection),
            },
            BoundStatement::Insert { table_id, column_indexes, rows, on_conflict, returning } => BoundStatement::Insert {
                table_id: *table_id,
                column_indexes: copy_items(column_indexes),
                rows: clone_bound_rows(rows),
                on_conflict: match on_conflict { Some(y) => Some(y.clone()), None => None },
                returning: match returning { Some(y) => Some(y.clone()), None => None },
            },
            BoundStatement::ViewInsert { view_id, source, column_indexes, rows, returning } => BoundStatement::ViewInsert {
                view_id: *view_id,
                source: Box::new((**source).clone()),
                column_indexes: copy_items(column_indexes),
                rows: clone_bound_rows(rows),
                returning: match returning { Some(y) => Some(y.clone()), None => None },
            },
            BoundStatement::Merge(f0) => BoundStatement::Merge(f0.clone()),
            BoundStatement::With { ctes, body, catalog, schema } => BoundStatement::With {
                ctes: BoundCte::clone_all(ctes),
                body: Box::new((**body).clone()),
                catalog: Box::new((**catalog).clone()),
                schema: schema.clone(),
            },
            BoundStatement::SetOperation { left, operator, all, right, schema, order_by, offset, limit } => BoundStatement::SetOperation {
                left: Box::new((**left).clone()),
                operator: *operator,
                all: *all,
                right: Box::new((**right).clone()),
                schema: schema.clone(),
                order_by: BoundOrder::clone_all(order_by),
                offset: match offset { Some(y) => Some(y.clone()), None => None },
                limit: match limit { Some(y) => Some(y.clone()), None => None },
            },
            BoundStatement::Select { table_id, schema, projection, filter, order_by, offset, limit } => BoundStatement::Select {
                table_id: *table_id,
                schema: schema.clone(),
                projection: BoundProjection::clone_all(projection),
                filter: match filter { Some(y) => Some(y.clone()), None => None },
                order_by: BoundOrder::clone_all(order_by),
                offset: match offset { Some(y) => Some(y.clone()), None => None },
                limit: match limit { Some(y) => Some(y.clone()), None => None },
            },
            BoundStatement::AdvancedSelect {
                table,
                joins,
                applies,
                windows,
                schema,
                projection,
                distinct,
                filter,
                group_by,
                having,
                order_by,
                offset,
                limit,
                aggregate,
            } => BoundStatement::AdvancedSelect {
                table: table.clone(),
                joins: BoundJoin::clone_all(joins),
                applies: BoundApply::clone_all(applies),
                windows: BoundWindow::clone_all(windows),
                schema: schema.clone(),
                projection: BoundProjection::clone_all(projection),
                distinct: *distinct,
                filter: match filter { Some(y) => Some(y.clone()), None => None },
                group_by: BoundExpr::clone_all(group_by),
                having: match having { Some(y) => Some(y.clone()), None => None },
                order_by: BoundOrder::clone_all(order_by),
                offset: match offset { Some(y) => Some(y.clone()), None => None },
                limit: match limit { Some(y) => Some(Box::new((**y).clone())), None => None },
                aggregate: *aggregate,
            },
            BoundStatement::Explain { statement } => BoundStatement::Explain { statement: Box::new((**statement).clone()) },
            BoundStatement::Update { table_id, assignments, filter, returning } => BoundStatement::Update {
                table_id: *table_id,
                assignments: clone_bound_assignments(assignments),
                filter: match filter { Some(y) => Some(y.clone()), None => None },
                returning: match returning { Some(y) => Some(y.clone()), None => None },
            },
            BoundStatement::ViewUpdate { view_id, source, assignments, filter, returning } => BoundStatement::ViewUpdate {
                view_id: *view_id,
                source: Box::new((**source).clone()),
                assignments: clone_bound_assignments(assignments),
                filter: match filter { Some(y) => Some(y.clone()), None => None },
                returning: match returning { Some(y) => Some(y.clone()), None => None },
            },
            BoundStatement::Delete { table_id, filter, returning } => BoundStatement::Delete {
                table_id: *table_id,
                filter: match filter { Some(y) => Some(y.clone()), None => None },
                returning: match returning { Some(y) => Some(y.clone()), None => None },
            },
            BoundStatement::ViewDelete { view_id, source, filter, returning } => BoundStatement::ViewDelete {
                view_id: *view_id,
                source: Box::new((**source).clone()),
                filter: match filter { Some(y) => Some(y.clone()), None => None },
                returning: match returning { Some(y) => Some(y.clone()), None => None },
            },
        };
        proof {
            r.unfold();
        }
        r
    }
}

} // verus!
