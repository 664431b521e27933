//! Which statements of the syntax tree can be written out, as far as parts of them are.

use sqlparser::ast::{AlterColumnOperation, AlterTableOperation, ColumnDef, ColumnOption, Statement, TableConstraint};
use vstd::prelude::*;

use crate::outside::{expr_written, query_written};

verus! {

/// Whether the expression of a constraint can be written out.
pub open spec fn constraint_written(c: TableConstraint) -> bool {
    match c {
        TableConstraint::Check(c) => expr_written(*c.expr),
        _ => true,
    }
}

/// Whether the expressions of constraints can be written out.
pub open spec fn constraints_written(l: Seq<TableConstraint>) -> bool {
    forall|i: int| 0 <= i < l.len() ==> constraint_written(#[trigger] l[i])
}

/// Whether the expression of an option of a column can be written out.
pub open spec fn option_written(o: ColumnOption) -> bool {
    match o {
        ColumnOption::Default(e) => expr_written(e),
        ColumnOption::Check(c) => expr_written(*c.expr),
        _ => true,
    }
}

/// Whether the expressions of a column can be written out.
pub open spec fn column_written(c: ColumnDef) -> bool {
    forall|i: int| 0 <= i < c.options@.len() ==> option_written((#[trigger] c.options@[i]).option)
}

/// Whether the expressions of columns can be written out.
pub open spec fn columns_written(l: Seq<ColumnDef>) -> bool {
    forall|i: int| 0 <= i < l.len() ==> column_written(#[trigger] l[i])
}

/// Whether the expression of a change of a column can be written out.
pub open spec fn change_written(op: AlterColumnOperation) -> bool {
    match op {
        AlterColumnOperation::SetDefault { value } => expr_written(value),
        _ => true,
    }
}

/// Whether the expressions of an operation of an ALTER TABLE can be written out.
pub open spec fn operation_written(op: AlterTableOperation) -> bool {
    match op {
        AlterTableOperation::AddColumn { column_def, .. } => column_written(column_def),
        AlterTableOperation::AlterColumn { op, .. } => change_written(op),
        AlterTableOperation::AddConstraint { constraint, .. } => constraint_written(constraint),
        _ => true,
    }
}

/// Whether the expressions of operations of an ALTER TABLE can be written out.
pub open spec fn operations_written(l: Seq<AlterTableOperation>) -> bool {
    forall|i: int| 0 <= i < l.len() ==> operation_written(#[trigger] l[i])
}

/// Whether the expressions and queries of a statement that the library writes out can be
/// written.
pub open spec fn statement_written(s: Statement) -> bool
    decreases s,
{
    match s {
        Statement::CreateTable(t) => columns_written(t.columns@) && constraints_written(t.constraints@),
        Statement::AlterTable(t) => operations_written(t.operations@),
        Statement::CreateDomain(d) => (match d.default {
            Some(e) => expr_written(e),
            None => true,
        }) && constraints_written(d.constraints@),
        Statement::CreateView(v) => query_written(*v.query),
        Statement::Explain { statement, .. } => statement_written(*statement),
        _ => true,
    }
}

/// The same of each statement.
pub open spec fn all_written(l: Seq<Statement>) -> bool {
    forall|i: int| 0 <= i < l.len() ==> statement_written(#[trigger] l[i])
}

} // verus!
