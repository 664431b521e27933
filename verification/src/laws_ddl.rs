//! What bound statements keep of definitions and of session control.

use vstd::prelude::*;

use crate::bind::bound_statement;
use crate::bound::{BoundAlterTableOperationView, BoundStatementView};
use crate::catalog::{find_column, CatalogObjectRef, CatalogView, NewColumnView, NewConstraintView, TableDefinitionView};
use crate::ddl::{
    change_of, column_of_table, columns_of_table, constraint_of, constraints_of, create_table_of, drop_of, object_of, objects_of,
};
use crate::indexes::create_index_of;
use crate::names::named_table;
use crate::plain::{given, object_statement, plain_statement, sequence_statement, session_statement, type_statement, value_statement};
use crate::query_rules::statement_of;
use crate::scope::Checked;
use crate::solver_rules::solved;
use crate::syntax::{
    DdlObjectKind, ParsedAlterTableOperationView, ParsedColumnView, ParsedIdentifierView, ParsedObjectNameView, ParsedStatementView,
    ParsedTableConstraintView,
};
use crate::type_rules::{
    typed_column, typed_column_list, typed_statement, typed_table_constraint, typed_table_constraint_list, unfold_typed_column,
    unfold_typed_column_list, unfold_typed_default, unfold_typed_statement, unfold_typed_table_constraint,
    unfold_typed_table_constraint_list, ResolverView, SessionView,
};
use crate::types::DbErrorView;

verus! {

/// The schema that a name denotes: the one that it names, or else the public one.
pub open spec fn schema_in(name: ParsedObjectNameView) -> Seq<char> {
    if name.parts.len() == 1 {
        crate::types::normalized("public"@, false)
    } else {
        name.parts[0].name
    }
}

/// Whether a new column is the one that was defined.
pub open spec fn column_told(c: ParsedColumnView, r: NewColumnView) -> bool {
    &&& r.name == c.name.name
    &&& r.nullable == c.nullable
    &&& r.primary_key == c.primary_key
    &&& r.unique == c.unique
    &&& c.declared_type is None ==> r.data_type == c.data_type && r.declared_type is None
    &&& c.declared_type is Some ==> r.declared_type is Some
    &&& c.default is Some <==> r.default is Some
    &&& c.default is Some ==> r.default->0.sql == c.default->0.sql
}

/// Whether new columns are those that were defined, in order.
pub open spec fn columns_told(l: Seq<ParsedColumnView>, r: Seq<NewColumnView>) -> bool {
    &&& l.len() == r.len()
    &&& forall|k: int| 0 <= k < l.len() ==> column_told(#[trigger] l[k], r[k])
}

/// Whether names are those of identifiers, in order.
pub open spec fn names_told(l: Seq<ParsedIdentifierView>, r: Seq<Seq<char>>) -> bool {
    &&& l.len() == r.len()
    &&& forall|k: int| 0 <= k < l.len() ==> r[k] == (#[trigger] l[k]).name
}

/// The name that a constraint was given.
pub open spec fn given_name(c: ParsedTableConstraintView) -> Option<ParsedIdentifierView> {
    match c {
        ParsedTableConstraintView::PrimaryKey { name, .. } => name,
        ParsedTableConstraintView::Unique { name, .. } => name,
        ParsedTableConstraintView::Check { name, .. } => name,
        ParsedTableConstraintView::ForeignKey { name, .. } => name,
    }
}

/// Whether a new constraint is the one that was defined.
pub open spec fn constraint_told(c: ParsedTableConstraintView, catalog: CatalogView, r: NewConstraintView) -> bool {
    &&& given_name(c) is Some ==> r.name == given_name(c)->0.name
    &&& match c {
        ParsedTableConstraintView::PrimaryKey { columns, .. } => r.kind is PrimaryKey && names_told(columns, r.kind->PrimaryKey_columns),
        ParsedTableConstraintView::Unique { columns, .. } => r.kind is Unique && names_told(columns, r.kind->Unique_columns),
        ParsedTableConstraintView::Check { sql, .. } => r.kind is Check && r.kind->Check_expression.sql == sql,
        ParsedTableConstraintView::ForeignKey { columns, referenced_table, referenced_columns, on_delete, on_update, .. } => {
            &&& r.kind is ForeignKey
            &&& names_told(columns, r.kind->ForeignKey_columns)
            &&& named_table(referenced_table, catalog) matches Ok(t) && r.kind->ForeignKey_referenced_table == t.id
            &&& referenced_columns.len() > 0 ==> names_told(referenced_columns, r.kind->ForeignKey_referenced_columns)
            &&& r.kind->ForeignKey_referenced_columns.len() == columns.len()
            &&& r.kind->ForeignKey_on_delete == on_delete
            &&& r.kind->ForeignKey_on_update == on_update
        },
    }
}

/// Whether a reference is to an object of a kind.
pub open spec fn of_kind(kind: DdlObjectKind, o: CatalogObjectRef) -> bool {
    &&& kind is Schema <==> o is Schema
    &&& kind is Table <==> o is Table
    &&& kind is Index <==> o is Index
    &&& kind is Sequence <==> o is Sequence
    &&& kind is View || kind is MaterializedView <==> o is View
    &&& kind is Type <==> o is Type
}

/// Whether a bound table change is the one that was written.
pub open spec fn change_told(
    op: ParsedAlterTableOperationView,
    t: TableDefinitionView,
    catalog: CatalogView,
    r: BoundAlterTableOperationView,
) -> bool {
    match op {
        ParsedAlterTableOperationView::RenameTable { new_name } => r == (BoundAlterTableOperationView::RenameTable { new_name: new_name.name }),
        ParsedAlterTableOperationView::RenameColumn { old_name, new_name } => {
            &&& r is RenameColumn
            &&& r->RenameColumn_new_name == new_name.name
            &&& find_column(t.columns, old_name.name, 0) matches Some(c) && r->RenameColumn_column_id == c.id
        },
        ParsedAlterTableOperationView::AddColumn { column, if_not_exists } => r is AddColumn && column_told(column, r->AddColumn_column)
            && r->AddColumn_if_not_exists == if_not_exists,
        ParsedAlterTableOperationView::DropColumns { if_exists, behavior, .. } => r is DropColumns && r->DropColumns_if_exists == if_exists
            && r->DropColumns_behavior == behavior,
        ParsedAlterTableOperationView::SetNotNull { column } => r is SetNotNull && (find_column(t.columns, column.name, 0) matches Some(c)
            && r->SetNotNull_column_id == c.id),
        ParsedAlterTableOperationView::DropNotNull { column } => r is DropNotNull && (find_column(t.columns, column.name, 0) matches Some(c)
            && r->DropNotNull_column_id == c.id),
        ParsedAlterTableOperationView::SetDefault { column, default } => {
            &&& r is SetDefault
            &&& r->SetDefault_default.sql == default.sql
            &&& find_column(t.columns, column.name, 0) matches Some(c) && r->SetDefault_column_id == c.id
        },
        ParsedAlterTableOperationView::DropDefault { column } => r is DropDefault && (find_column(t.columns, column.name, 0) matches Some(c)
            && r->DropDefault_column_id == c.id),
        ParsedAlterTableOperationView::SetDataType { column, data_type, declared_type } => {
            &&& r is SetDataType
            &&& declared_type is None ==> r->SetDataType_data_type == data_type
            &&& find_column(t.columns, column.name, 0) matches Some(c) && r->SetDataType_column_id == c.id
        },
        ParsedAlterTableOperationView::AddConstraint { constraint } => r is AddConstraint && constraint_told(
            constraint,
            catalog,
            r->AddConstraint_constraint,
        ),
        ParsedAlterTableOperationView::DropConstraint { if_exists, behavior, .. } => r is DropConstraint && r->DropConstraint_if_exists
            == if_exists && r->DropConstraint_behavior == behavior,
        ParsedAlterTableOperationView::SetTriggerEnabled { name, enabled } => r is SetTriggerEnabled && r->SetTriggerEnabled_name == name.name
            && r->SetTriggerEnabled_enabled == enabled,
    }
}

/// Whether a bound statement defines, drops or controls what a statement says.
pub open spec fn defines(s: ParsedStatementView, catalog: CatalogView, b: BoundStatementView) -> bool {
    match s {
        ParsedStatementView::Begin { characteristics } => b == (BoundStatementView::Begin { characteristics }),
        ParsedStatementView::Commit { chain } => b == (BoundStatementView::Commit { chain }),
        ParsedStatementView::Rollback { chain } => b == (BoundStatementView::Rollback { chain }),
        ParsedStatementView::Savepoint { name } => b == (BoundStatementView::Savepoint { name: name.name }),
        ParsedStatementView::RollbackTo { name } => b == (BoundStatementView::RollbackTo { name: name.name }),
        ParsedStatementView::ReleaseSavepoint { name } => b == (BoundStatementView::ReleaseSavepoint { name: name.name }),
        ParsedStatementView::Analyze { table } => b is Analyze && (table is Some <==> b->Analyze_table_id is Some),
        ParsedStatementView::Vacuum { table, analyze } => b is Vacuum && b->Vacuum_analyze == analyze && (table is Some
            <==> b->Vacuum_table_id is Some),
        ParsedStatementView::Listen { channel } => b == (BoundStatementView::Listen { channel: channel.name }),
        ParsedStatementView::Unlisten { channel } => b is Unlisten && (channel is Some <==> b->Unlisten_channel is Some) && (channel is Some
            ==> b->Unlisten_channel->0 == channel->0.name),
        ParsedStatementView::Notify { channel, payload } => b == (BoundStatementView::Notify { channel: channel.name, payload }),
        ParsedStatementView::Do { body } => b == (BoundStatementView::Do { body }),
        ParsedStatementView::DiscardAll => b is DiscardAll,
        ParsedStatementView::DeallocateAll => b is DeallocateAll,
        ParsedStatementView::CreateSchema { name, if_not_exists } => {
            &&& b == (BoundStatementView::CreateSchema { name: name.name, if_not_exists })
            &&& !if_not_exists ==> catalog.schema(name.name) is None
        },
        ParsedStatementView::CreateEnumType { name, labels } => b is CreateEnumType && b->CreateEnumType_labels == labels,
        ParsedStatementView::AlterEnumAddValue { label, position, if_not_exists, .. } => b is AlterEnumAddValue && b->AlterEnumAddValue_label
            == label && b->AlterEnumAddValue_position == position && b->AlterEnumAddValue_if_not_exists == if_not_exists,
        ParsedStatementView::AlterEnumRenameValue { old_label, new_label, .. } => b is AlterEnumRenameValue
            && b->AlterEnumRenameValue_old_label == old_label && b->AlterEnumRenameValue_new_label == new_label,
        ParsedStatementView::AlterSchemaRename { name, new_name, if_exists } => {
            ||| b is NoOp && if_exists && catalog.schema(name.name) is None
            ||| b is AlterSchemaRename && b->AlterSchemaRename_new_name == new_name.name && (catalog.schema(name.name) matches Some(x)
                && b->AlterSchemaRename_schema_id == x.id)
        },
        ParsedStatementView::DropObjects { kind, names, if_exists, behavior } => {
            ||| b is NoOp && (if_exists || names.len() == 0)
            ||| b is DropObjects && b->DropObjects_kind == kind && b->DropObjects_behavior == behavior && b->DropObjects_objects.len()
                <= names.len() && (!if_exists ==> b->DropObjects_objects.len() == names.len()) && forall|k: int|
                0 <= k < b->DropObjects_objects.len() ==> of_kind(kind, #[trigger] b->DropObjects_objects[k])
        },
        ParsedStatementView::CreateTable { name, columns, constraints, if_not_exists } => {
            &&& b is CreateTable
            &&& b->CreateTable_schema == schema_in(name)
            &&& b->CreateTable_name == name.parts.last().name
            &&& b->CreateTable_if_not_exists == if_not_exists
            &&& columns_told(columns, b->CreateTable_columns)
            &&& b->CreateTable_constraints.len() == constraints.len()
            &&& forall|k: int|
                0 <= k < constraints.len() ==> constraint_told(#[trigger] constraints[k], catalog, b->CreateTable_constraints[k])
        },
        ParsedStatementView::CreateIndex(i) => {
            ||| b is NoOp && i.if_not_exists
            ||| b is CreateIndex && b->CreateIndex_if_not_exists == i.if_not_exists && b->CreateIndex_index.name == i.name.name
                && b->CreateIndex_index.unique == i.unique && b->CreateIndex_index.method == i.method && names_told(
                i.key_columns,
                b->CreateIndex_index.key_columns,
            ) && names_told(i.include_columns, b->CreateIndex_index.include_columns)
        },
        ParsedStatementView::AlterIndexRename { name, new_name } => b is AlterIndexRename && b->AlterIndexRename_new_name == new_name.name && (
        catalog.index(schema_in(name), name.parts.last().name) matches Some(i) && b->AlterIndexRename_index_id == i.id),
        ParsedStatementView::CreateSequence { name, sequence, if_not_exists, .. } => {
            &&& b is CreateSequence
            &&& b->CreateSequence_schema == schema_in(name)
            &&& b->CreateSequence_sequence.name == name.parts.last().name
            &&& b->CreateSequence_if_not_exists == if_not_exists
            &&& b->CreateSequence_sequence.increment == sequence.increment
            &&& b->CreateSequence_sequence.min_value == sequence.min_value
            &&& b->CreateSequence_sequence.max_value == sequence.max_value
            &&& b->CreateSequence_sequence.start_value == sequence.start_value
            &&& b->CreateSequence_sequence.cycle == sequence.cycle
        },
        ParsedStatementView::AlterSequenceRename { name, if_exists, new_name } => {
            ||| b is NoOp && if_exists
            ||| b is AlterSequenceRename && b->AlterSequenceRename_new_name == new_name.name && (catalog.sequence(
                schema_in(name),
                name.parts.last().name,
            ) matches Some(q) && b->AlterSequenceRename_sequence_id == q.id)
        },
        ParsedStatementView::AlterSequence { name, if_exists, options } => {
            ||| b is NoOp && if_exists
            ||| b is AlterSequence && b->AlterSequence_increment == options.increment && b->AlterSequence_min_value == options.min_value
                && b->AlterSequence_max_value == options.max_value && b->AlterSequence_restart == options.restart && b->AlterSequence_cycle
                == options.cycle && (catalog.sequence(schema_in(name), name.parts.last().name) matches Some(q)
                && b->AlterSequence_sequence_id == q.id)
        },
        ParsedStatementView::CreateTrigger { name, timing, level, events, .. } => b is CreateTrigger && b->CreateTrigger_name == name.name
            && b->CreateTrigger_timing == timing && b->CreateTrigger_level == level && b->CreateTrigger_events == events,
        _ => true,
    }
}

proof fn lemma_column(c: ParsedColumnView, catalog: CatalogView)
    ensures
        column_of_table(c, catalog) matches Ok(r) ==> column_told(c, r),
{
}

proof fn lemma_columns_from(l: Seq<ParsedColumnView>, catalog: CatalogView, i: int, done: Seq<NewColumnView>)
    requires
        0 <= i <= l.len(),
        columns_told(l.take(i), done),
    ensures
        columns_of_table(l, catalog, i, done) matches Ok(r) ==> columns_told(l, r),
    decreases l.len() - i,
{
    if i >= l.len() {
        assert(l.take(i) =~= l);
    } else if let Ok(c) = column_of_table(l[i], catalog) {
        lemma_column(l[i], catalog);
        let prefix = l.take(i + 1);
        let next = done.push(c);
        assert forall|k: int| 0 <= k < prefix.len() implies column_told(#[trigger] prefix[k], next[k]) by {
            if k < i {
                assert(prefix[k] == l.take(i)[k]);
                assert(next[k] == done[k]);
            }
        }
        lemma_columns_from(l, catalog, i + 1, next);
    }
}

proof fn lemma_constraint(c: ParsedTableConstraintView, table: Seq<char>, ordinal: usize, columns: Seq<NewColumnView>, catalog: CatalogView)
    ensures
        constraint_of(c, table, ordinal, columns, catalog) matches Ok(r) ==> constraint_told(c, catalog, r),
{
    reveal(constraint_of);
}

proof fn lemma_constraints_from(
    l: Seq<ParsedTableConstraintView>,
    table: Seq<char>,
    columns: Seq<NewColumnView>,
    catalog: CatalogView,
    i: int,
    done: Seq<NewConstraintView>,
)
    requires
        0 <= i <= l.len(),
        done.len() == i,
        forall|k: int| 0 <= k < i ==> constraint_told(#[trigger] l[k], catalog, done[k]),
    ensures
        constraints_of(l, table, columns, catalog, i, done) matches Ok(r) ==> r.len() == l.len() && forall|k: int|
            0 <= k < l.len() ==> constraint_told(#[trigger] l[k], catalog, r[k]),
    decreases l.len() - i,
{
    if i < l.len() {
        lemma_constraint(l[i], table, i as usize, columns, catalog);
        if let Ok(c) = constraint_of(l[i], table, i as usize, columns, catalog) {
            let next = done.push(c);
            assert forall|k: int| 0 <= k < i + 1 implies constraint_told(#[trigger] l[k], catalog, next[k]) by {
                if k < i {
                    assert(next[k] == done[k]);
                }
            }
            lemma_constraints_from(l, table, columns, catalog, i + 1, next);
        }
    }
}

proof fn lemma_objects_from(
    kind: DdlObjectKind,
    l: Seq<ParsedObjectNameView>,
    if_exists: bool,
    catalog: CatalogView,
    i: int,
    done: Seq<CatalogObjectRef>,
)
    requires
        0 <= i <= l.len(),
        done.len() <= i,
        !if_exists ==> done.len() == i,
        forall|k: int| 0 <= k < done.len() ==> of_kind(kind, #[trigger] done[k]),
    ensures
        objects_of(kind, l, if_exists, catalog, i, done) matches Ok(r) ==> r.len() <= l.len() && (!if_exists ==> r.len() == l.len())
            && forall|k: int| 0 <= k < r.len() ==> of_kind(kind, #[trigger] r[k]),
    decreases l.len() - i,
{
    if i < l.len() {
        match object_of(kind, l[i], catalog) {
            Ok(Ok(o)) => {
                assert(of_kind(kind, o));
                lemma_objects_from(kind, l, if_exists, catalog, i + 1, done.push(o));
            },
            Ok(Err(_)) => {
                if if_exists {
                    lemma_objects_from(kind, l, if_exists, catalog, i + 1, done);
                }
            },
            Err(_) => {},
        }
    }
}

/// A table change that is bound is the one that was written. Only a column that is there
/// already is not added again, where IF NOT EXISTS was written.
pub proof fn lemma_change_told(
    op: ParsedAlterTableOperationView,
    t: TableDefinitionView,
    ordinal: int,
    columns: Seq<NewColumnView>,
    catalog: CatalogView,
)
    ensures
        change_of(op, t, ordinal, columns, catalog) matches Ok((r, _)) ==> {
            &&& r is Some ==> change_told(op, t, catalog, r->0)
            &&& r is None ==> op is AddColumn && op->AddColumn_if_not_exists
        },
{
    reveal(change_of);
    if let ParsedAlterTableOperationView::AddConstraint { constraint } = op {
        lemma_constraint(
            constraint,
            t.name,
            if t.constraints.len() + ordinal > usize::MAX {
                usize::MAX
            } else {
                (t.constraints.len() + ordinal) as usize
            },
            columns,
            catalog,
        );
    }
}

/// A definition, a DROP or a statement that controls the session is bound as it was
/// written.
pub proof fn lemma_statement_defines(s: ParsedStatementView, catalog: CatalogView, depth: usize)
    ensures
        statement_of(s, catalog, depth) matches Ok(b) ==> defines(s, catalog, b),
{
    lemma_plain(s, catalog, depth);
    match s {
        ParsedStatementView::CreateTable { name, columns, constraints, .. } => {
            reveal(object_statement);
            reveal(create_table_of);
            assert(columns.take(0) =~= Seq::empty());
            lemma_columns_from(columns, catalog, 0, Seq::empty());
            if let Ok(c) = columns_of_table(columns, catalog, 0, Seq::empty()) {
                lemma_constraints_from(constraints, name.parts.last().name, c, catalog, 0, Seq::empty());
            }
        },
        ParsedStatementView::DropObjects { kind, names, if_exists, .. } => {
            reveal(object_statement);
            reveal(drop_of);
            lemma_objects_from(kind, names, if_exists, catalog, 0, Seq::empty());
        },
        ParsedStatementView::CreateIndex(_) => {
            reveal(object_statement);
            reveal(create_index_of);
        },
        ParsedStatementView::AlterIndexRename { .. } | ParsedStatementView::CreateTrigger { .. } => {
            reveal(object_statement);
        },
        ParsedStatementView::CreateSequence { .. } | ParsedStatementView::AlterSequenceRename { .. }
        | ParsedStatementView::AlterSequence { .. } => {
            reveal(sequence_statement);
        },
        ParsedStatementView::CreateSchema { .. } | ParsedStatementView::CreateEnumType { .. }
        | ParsedStatementView::AlterEnumAddValue { .. } | ParsedStatementView::AlterEnumRenameValue { .. }
        | ParsedStatementView::AlterSchemaRename { .. } => {
            reveal(type_statement);
        },
        _ => {
            reveal(session_statement);
        },
    }
}

/// Whether a statement is bound through the plain statements.
pub open spec fn plain_kind(s: ParsedStatementView) -> bool {
    !(s is CreateView || s is RefreshMaterializedView || s is Insert || s is Update || s is Delete || s is With || s is SetOperation
        || s is Select || s is AdvancedSelect || s is Explain)
}

pub(crate) proof fn lemma_plain(s: ParsedStatementView, catalog: CatalogView, depth: usize)
    ensures
        plain_kind(s) ==> (statement_of(s, catalog, depth) matches Ok(b) ==> plain_statement(s, catalog) == Ok::<_, DbErrorView>(Some(b))),
        plain_statement(s, catalog) matches Ok(Some(b)) ==> {
            ||| session_statement(s, catalog) == Ok::<_, DbErrorView>(Some(b))
            ||| session_statement(s, catalog) == none_yet() && type_statement(s, catalog) == Ok::<_, DbErrorView>(Some(b))
            ||| session_statement(s, catalog) == none_yet() && type_statement(s, catalog) == none_yet()
                && sequence_statement(s, catalog) == Ok::<_, DbErrorView>(Some(b))
            ||| session_statement(s, catalog) == none_yet() && type_statement(s, catalog) == none_yet()
                && sequence_statement(s, catalog) == none_yet() && object_statement(s, catalog) == Ok::<_, DbErrorView>(Some(b))
            ||| session_statement(s, catalog) == none_yet() && type_statement(s, catalog) == none_yet()
                && sequence_statement(s, catalog) == none_yet() && object_statement(s, catalog) == none_yet()
                && value_statement(s, catalog) == Ok::<_, DbErrorView>(Some(b))
        },
        session_statement(s, catalog) == none_yet() || session_kind(s),
        type_statement(s, catalog) == none_yet() || type_kind(s),
        sequence_statement(s, catalog) == none_yet() || sequence_kind(s),
        object_statement(s, catalog) == none_yet() || object_kind(s),
        value_statement(s, catalog) == none_yet() || value_kind(s),
{
    reveal(statement_of);
    reveal(plain_statement);
    reveal(session_statement);
    reveal(type_statement);
    reveal(sequence_statement);
    reveal(object_statement);
    reveal(value_statement);
}

/// Nothing that is bound yet.
pub open spec fn none_yet() -> Checked<Option<BoundStatementView>> {
    Ok(None)
}

/// Whether a statement controls the session.
pub open spec fn session_kind(s: ParsedStatementView) -> bool {
    s is Begin || s is Commit || s is Rollback || s is Savepoint || s is RollbackTo || s is ReleaseSavepoint || s is Analyze || s is Vacuum
        || s is Reindex || s is Listen || s is Unlisten || s is Notify || s is Do || s is DiscardAll || s is DeallocateAll
}

/// Whether a statement is about schemas and types.
pub open spec fn type_kind(s: ParsedStatementView) -> bool {
    s is CreateSchema || s is CreateEnumType || s is CreateDomain || s is AlterEnumAddValue || s is AlterEnumRenameValue || s is AlterDomain
        || s is AlterSchemaRename
}

/// Whether a statement is about sequences.
pub open spec fn sequence_kind(s: ParsedStatementView) -> bool {
    s is CreateSequence || s is AlterSequenceRename || s is AlterSequence || s is SequenceValue
}

/// Whether a statement is about tables, indexes, views and triggers.
pub open spec fn object_kind(s: ParsedStatementView) -> bool {
    s is DropObjects || s is CreateTable || s is AlterTable || s is CreateIndex || s is AlterIndexRename || s is AlterViewRename
        || s is CreateTrigger || s is DropTrigger
}

/// Whether a statement is about routines or values.
pub open spec fn value_kind(s: ParsedStatementView) -> bool {
    s is CreateRoutine || s is DropRoutine || s is Call || s is RoutineSelect || s is PgNotify || s is ScalarSelect || s is Merge
}

proof fn lemma_typed_column(v: ParsedColumnView, c: ResolverView, depth: usize)
    ensures
        typed_column(v, c, depth) matches Ok(t) ==> same_column(v, t),
{
    unfold_typed_column(v, c, depth);
    if let Some(d) = v.default {
        unfold_typed_default(d, c, depth);
    }
}

/// Whether a column definition is another up to the types in its default.
pub open spec fn same_column(a: ParsedColumnView, b: ParsedColumnView) -> bool {
    &&& b.name == a.name
    &&& b.data_type == a.data_type
    &&& b.declared_type == a.declared_type
    &&& b.nullable == a.nullable
    &&& b.primary_key == a.primary_key
    &&& b.unique == a.unique
    &&& a.default is Some <==> b.default is Some
    &&& a.default is Some ==> b.default->0.sql == a.default->0.sql
}

/// Whether a constraint is another up to the types in its condition.
pub open spec fn same_constraint(a: ParsedTableConstraintView, b: ParsedTableConstraintView) -> bool {
    match a {
        ParsedTableConstraintView::Check { name, sql, .. } => b is Check && b->Check_name == name && b->Check_sql == sql,
        _ => b == a,
    }
}

proof fn lemma_typed_columns(l: Seq<ParsedColumnView>, c: ResolverView, depth: usize, i: int, done: Seq<ParsedColumnView>)
    requires
        0 <= i <= l.len(),
        done.len() == i,
        forall|k: int| 0 <= k < i ==> same_column(#[trigger] l[k], done[k]),
    ensures
        typed_column_list(l, c, depth, i, done) matches Ok(r) ==> r.len() == l.len() && forall|k: int|
            0 <= k < l.len() ==> same_column(#[trigger] l[k], r[k]),
    decreases l.len() - i,
{
    unfold_typed_column_list(l, c, depth, i, done);
    if i < l.len() {
        lemma_typed_column(l[i], c, depth);
        if let Ok(b) = typed_column(l[i], c, depth) {
            let next = done.push(b);
            assert forall|k: int| 0 <= k < i + 1 implies same_column(#[trigger] l[k], next[k]) by {
                if k < i {
                    assert(next[k] == done[k]);
                }
            }
            lemma_typed_columns(l, c, depth, i + 1, next);
        }
    }
}

proof fn lemma_typed_constraints(
    l: Seq<ParsedTableConstraintView>,
    c: ResolverView,
    depth: usize,
    i: int,
    done: Seq<ParsedTableConstraintView>,
)
    requires
        0 <= i <= l.len(),
        done.len() == i,
        forall|k: int| 0 <= k < i ==> same_constraint(#[trigger] l[k], done[k]),
    ensures
        typed_table_constraint_list(l, c, depth, i, done) matches Ok(r) ==> r.len() == l.len() && forall|k: int|
            0 <= k < l.len() ==> same_constraint(#[trigger] l[k], r[k]),
    decreases l.len() - i,
{
    unfold_typed_table_constraint_list(l, c, depth, i, done);
    if i < l.len() {
        unfold_typed_table_constraint(l[i], c, depth);
        if let Ok(b) = typed_table_constraint(l[i], c, depth) {
            let next = done.push(b);
            assert forall|k: int| 0 <= k < i + 1 implies same_constraint(#[trigger] l[k], next[k]) by {
                if k < i {
                    assert(next[k] == done[k]);
                }
            }
            lemma_typed_constraints(l, c, depth, i + 1, next);
        }
    }
}

proof fn lemma_defines_through(s: ParsedStatementView, c: ResolverView, depth: usize, catalog: CatalogView, b: BoundStatementView)
    ensures
        typed_statement(s, c, depth) matches Ok(t) ==> (defines(t, catalog, b) ==> defines(s, catalog, b)),
{
    unfold_typed_statement(s, c, depth);
    if let Ok(t) = typed_statement(s, c, depth) {
        if let ParsedStatementView::CreateTable { columns, constraints, .. } = s {
            lemma_typed_columns(columns, c, depth, 0, Seq::empty());
            lemma_typed_constraints(constraints, c, depth, 0, Seq::empty());
            if defines(t, catalog, b) {
                let (tc, tk) = (t->CreateTable_columns, t->CreateTable_constraints);
                assert forall|k: int| 0 <= k < columns.len() implies column_told(#[trigger] columns[k], b->CreateTable_columns[k]) by {
                    assert(same_column(columns[k], tc[k]));
                    assert(column_told(tc[k], b->CreateTable_columns[k]));
                }
                assert forall|k: int| 0 <= k < constraints.len() implies constraint_told(
                    #[trigger] constraints[k],
                    catalog,
                    b->CreateTable_constraints[k],
                ) by {
                    assert(same_constraint(constraints[k], tk[k]));
                    assert(constraint_told(tk[k], catalog, b->CreateTable_constraints[k]));
                }
            }
        }
    }
}

/// A definition, a DROP or a statement that controls the session keeps what was written:
/// its names, its columns and constraints, its options and its behaviour.
pub proof fn lemma_bound_defines(s: ParsedStatementView, catalog: CatalogView, session: Option<SessionView>)
    ensures
        bound_statement(s, catalog, session) matches Ok(b) ==> defines(s, catalog, b),
{
    reveal(bound_statement);
    let c = ResolverView { parameters: Map::empty(), catalog: Some(catalog), session };
    if let Ok(t) = typed_statement(s, c, 0) {
        if let Ok(parameters) = solved(t, catalog, 128, Map::empty()) {
            let d = ResolverView { parameters, catalog: None, session };
            if let Ok(u) = typed_statement(t, d, 0) {
                if let Ok(b) = statement_of(u, catalog, 0) {
                    lemma_statement_defines(u, catalog, 0);
                    lemma_defines_through(t, d, 0, catalog, b);
                    lemma_defines_through(s, c, 0, catalog, b);
                }
            }
        }
    }
}

} // verus!
