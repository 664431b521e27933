//! What the syntax tree of definitions and of session control keeps of what was written.

use sqlparser::ast::{
    ColumnDef, ColumnOption, ColumnOptionDef, CreateTable, ObjectName, ReferentialAction as SqlReferentialAction, Statement,
    TableConstraint, TransactionAccessMode as SqlTransactionAccessMode, TransactionIsolationLevel, TransactionMode,
};
use sqlparser::tokenizer::Token;
use vstd::prelude::*;

use crate::catalog::ReferentialAction;
use crate::convert_ddl::{
    column_of, column_option_of, column_options_of, columns_of, create_table_of, foreign_key_of, index_columns_of, plain_column,
    table_constraint_of, table_constraints_of, ColumnPartsView,
};
use crate::convert_statement::{
    converted_statement, definition_statement, drop_statement, dropped_kind, modes_from, object_names_of, plain_transaction,
    transaction_statement,
};
use crate::source::{ident_of, idents_of, object_name_of, some_ident, word_at, SourceView};
use crate::sql_types::column_type_of;
use crate::syntax::{
    IsolationLevel, ParsedColumnView, ParsedIdentifierView, ParsedObjectNameView, ParsedStatementView, ParsedTableConstraintView,
    TransactionAccessMode, TransactionCharacteristics,
};
use crate::token_statements::{
    alter_view_of, do_of, listen_of, notify_of, reindex_of, reindex_target, session_statement, star_at, unlisten_of, view_kind,
};
use crate::tokens::{pair_at, token_name};
use crate::transaction_tokens::{isolation_at, mode_at, ModesView};
use crate::types::DbErrorView;

verus! {

/// Whether names are those that were written, in order.
pub open spec fn same_objects(l: Seq<ObjectName>, sql: Seq<char>, r: Seq<ParsedObjectNameView>) -> bool {
    &&& l.len() == r.len()
    &&& forall|k: int| 0 <= k < l.len() ==> object_name_of(#[trigger] l[k], sql) == Ok::<_, DbErrorView>(r[k])
}

proof fn lemma_objects_from(l: Seq<ObjectName>, sql: Seq<char>, i: int, done: Seq<ParsedObjectNameView>)
    requires
        0 <= i <= l.len(),
        same_objects(l.take(i), sql, done),
    ensures
        object_names_of(l, sql, i, done) matches Ok(r) ==> same_objects(l, sql, r),
    decreases l.len() - i,
{
    if i >= l.len() {
        assert(l.take(i) =~= l);
    } else if let Ok(b) = object_name_of(l[i], sql) {
        let prefix = l.take(i + 1);
        let next = done.push(b);
        assert forall|k: int| 0 <= k < prefix.len() implies object_name_of(#[trigger] prefix[k], sql) == Ok::<_, DbErrorView>(next[k]) by {
            if k < i {
                assert(prefix[k] == l.take(i)[k]);
                assert(next[k] == done[k]);
            }
        }
        lemma_objects_from(l, sql, i + 1, next);
    }
}

/// A DROP keeps the kind and the names of what is dropped, its IF EXISTS and its CASCADE.
pub proof fn lemma_drop_kept(s: Statement, source: SourceView)
    requires
        s is Drop,
    ensures
        converted_statement(s, source) matches Ok(st) ==> st is DropObjects && (s matches Statement::Drop {
            object_type,
            if_exists,
            names,
            cascade,
            ..
        } ==> {
            &&& object_type is Table <==> st->DropObjects_kind is Table
            &&& object_type is View <==> st->DropObjects_kind is View
            &&& object_type is MaterializedView <==> st->DropObjects_kind is MaterializedView
            &&& object_type is Index <==> st->DropObjects_kind is Index
            &&& object_type is Schema <==> st->DropObjects_kind is Schema
            &&& object_type is Sequence <==> st->DropObjects_kind is Sequence
            &&& object_type is Type <==> st->DropObjects_kind is Type
            &&& st->DropObjects_if_exists == if_exists
            &&& cascade <==> st->DropObjects_behavior is Cascade
            &&& same_objects(names@, source.sql, st->DropObjects_names)
        }),
{
    reveal(drop_statement);
    reveal(dropped_kind);
    if let Statement::Drop { names, .. } = s {
        assert(names@.take(0) =~= Seq::empty());
        lemma_objects_from(names@, source.sql, 0, Seq::empty());
    }
}

/// Whether an isolation level is the one that was written; READ UNCOMMITTED reads as READ
/// COMMITTED.
pub open spec fn same_isolation(written: TransactionIsolationLevel, level: IsolationLevel) -> bool {
    &&& written is ReadUncommitted || written is ReadCommitted <==> level is ReadCommitted
    &&& written is RepeatableRead <==> level is RepeatableRead
    &&& written is Serializable <==> level is Serializable
}

proof fn lemma_modes_from(
    l: Seq<TransactionMode>,
    i: int,
    isolation_seen: bool,
    access_seen: bool,
    c: TransactionCharacteristics,
)
    requires
        0 <= i <= l.len(),
    ensures
        modes_from(l, i, isolation_seen, access_seen, c) matches Ok(r) ==> {
            &&& r.deferrable == c.deferrable
            &&& isolation_seen ==> r.isolation_level == c.isolation_level
            &&& access_seen ==> r.access_mode == c.access_mode
            &&& forall|k: int| i <= k < l.len() ==> ((#[trigger] l[k]) matches TransactionMode::IsolationLevel(x) ==> !isolation_seen && same_isolation(x, r.isolation_level))
            &&& forall|k: int|
                i <= k < l.len() ==> ((#[trigger] l[k]) matches TransactionMode::AccessMode(x) ==> !access_seen && (x is ReadOnly <==> r.access_mode is ReadOnly))
            &&& (forall|k: int| i <= k < l.len() ==> !((#[trigger] l[k]) is IsolationLevel)) ==> r.isolation_level == c.isolation_level
            &&& (forall|k: int| i <= k < l.len() ==> !((#[trigger] l[k]) is AccessMode)) ==> r.access_mode == c.access_mode
        },
    decreases l.len() - i,
{
    if i < l.len() {
        match l[i] {
            TransactionMode::IsolationLevel(level) => {
                let next = match level {
                    TransactionIsolationLevel::RepeatableRead => IsolationLevel::RepeatableRead,
                    TransactionIsolationLevel::Serializable => IsolationLevel::Serializable,
                    _ => IsolationLevel::ReadCommitted,
                };
                lemma_modes_from(l, i + 1, true, access_seen, TransactionCharacteristics { isolation_level: next, ..c });
            },
            TransactionMode::AccessMode(mode) => {
                let next = match mode {
                    SqlTransactionAccessMode::ReadOnly => TransactionAccessMode::ReadOnly,
                    SqlTransactionAccessMode::ReadWrite => TransactionAccessMode::ReadWrite,
                };
                lemma_modes_from(l, i + 1, isolation_seen, true, TransactionCharacteristics { access_mode: next, ..c });
            },
        }
    }
}

/// A statement that controls a transaction keeps its modes, its savepoint and its CHAIN. A
/// transaction of which nothing is asked reads what is committed and may write.
pub proof fn lemma_transaction_kept(s: Statement, source: SourceView)
    ensures
        converted_statement(s, source) matches Ok(st) ==> match s {
            Statement::StartTransaction { modes, .. } => {
                &&& st is Begin
                &&& forall|k: int|
                    0 <= k < modes@.len() ==> ((#[trigger] modes@[k]) matches TransactionMode::IsolationLevel(x) ==> same_isolation(
                        x,
                        st->Begin_characteristics.isolation_level,
                    ))
                &&& forall|k: int|
                    0 <= k < modes@.len() ==> ((#[trigger] modes@[k]) matches TransactionMode::AccessMode(x) ==> (x is ReadOnly
                        <==> st->Begin_characteristics.access_mode is ReadOnly))
                &&& modes@.len() == 0 ==> st->Begin_characteristics.isolation_level is ReadCommitted
                    && st->Begin_characteristics.access_mode is ReadWrite && !st->Begin_characteristics.deferrable
            },
            Statement::Commit { chain, .. } => st is Commit && (chain <==> st->Commit_chain is Chain),
            Statement::Rollback { chain, savepoint } => {
                &&& savepoint is Some ==> st is RollbackTo && st->RollbackTo_name == ident_of(savepoint->0, source.sql)
                &&& savepoint is None ==> st is Rollback && (chain <==> st->Rollback_chain is Chain)
            },
            Statement::Savepoint { name } => st is Savepoint && st->Savepoint_name == ident_of(name, source.sql),
            Statement::ReleaseSavepoint { name } => st is ReleaseSavepoint && st->ReleaseSavepoint_name == ident_of(name, source.sql),
            Statement::Explain { statement, .. } => st is Explain && converted_statement(*statement, source) == Ok::<_, DbErrorView>(
                *st->Explain_statement,
            ),
            _ => true,
        },
{
    reveal(transaction_statement);
    if let Statement::StartTransaction { modes, .. } = s {
        lemma_modes_from(modes@, 0, false, false, plain_transaction(false));
    }
}

/// An isolation level in a text is the one that its words name.
pub proof fn lemma_isolation_words(l: Seq<Token>, at: int)
    ensures
        isolation_at(l, at) matches Ok((level, next)) ==> {
            &&& level is Serializable ==> word_at(l, at, "SERIALIZABLE"@) && next == at + 1
            &&& level is RepeatableRead ==> pair_at(l, at, "REPEATABLE"@, "READ"@) && next == at + 2
            &&& level is ReadCommitted ==> (pair_at(l, at, "READ"@, "COMMITTED"@) || pair_at(l, at, "READ"@, "UNCOMMITTED"@)) && next == at + 2
        },
{
    reveal(isolation_at);
}

/// A mode of a transaction sets what its words name, and only that.
pub proof fn lemma_mode_words(l: Seq<Token>, s: ModesView)
    ensures
        mode_at(l, s) matches Ok(r) ==> {
            &&& r.cursor > s.cursor
            &&& word_at(l, s.cursor, "ISOLATION"@) ==> r.characteristics.access_mode == s.characteristics.access_mode
                && r.characteristics.deferrable == s.characteristics.deferrable
            &&& !word_at(l, s.cursor, "ISOLATION"@) ==> r.characteristics.isolation_level == s.characteristics.isolation_level
            &&& r.characteristics.access_mode != s.characteristics.access_mode && r.characteristics.access_mode is ReadOnly ==> pair_at(
                l,
                s.cursor,
                "READ"@,
                "ONLY"@,
            )
            &&& r.characteristics.access_mode != s.characteristics.access_mode && r.characteristics.access_mode is ReadWrite ==> pair_at(
                l,
                s.cursor,
                "READ"@,
                "WRITE"@,
            )
            &&& r.characteristics.deferrable && !s.characteristics.deferrable ==> word_at(l, s.cursor, "DEFERRABLE"@)
            &&& !r.characteristics.deferrable && s.characteristics.deferrable ==> pair_at(l, s.cursor, "NOT"@, "DEFERRABLE"@)
        },
{
    reveal(mode_at);
    reveal(isolation_at);
    reveal(crate::tokens::word_expected);
}

/// A statement about the session is of the kind that its first word names, and keeps the
/// names that follow.
pub proof fn lemma_session_words(l: Seq<Token>)
    ensures
        session_statement(l) matches Ok(Some(st)) ==> match st {
            ParsedStatementView::Reindex { target } => {
                &&& word_at(l, 0, "REINDEX"@)
                &&& target is Index ==> word_at(l, 1, "INDEX"@)
                &&& target is Table ==> word_at(l, 1, "TABLE"@)
                &&& target is Schema ==> word_at(l, 1, "SCHEMA"@)
                &&& target is Database ==> word_at(l, 1, "DATABASE"@)
            },
            ParsedStatementView::Listen { channel } => word_at(l, 0, "LISTEN"@) && (token_name(l, 1) matches Ok((n, _)) && n == channel),
            ParsedStatementView::Unlisten { channel } => word_at(l, 0, "UNLISTEN"@) && (channel is None <==> star_at(l, 1)) && (channel is Some
                ==> (token_name(l, 1) matches Ok((n, _)) && n == channel->0)),
            ParsedStatementView::Notify { channel, payload } => word_at(l, 0, "NOTIFY"@) && (token_name(l, 1) matches Ok((n, _)) && n
                == channel),
            ParsedStatementView::Do { .. } => word_at(l, 0, "DO"@),
            _ => false,
        },
        session_statement(l) == Ok::<Option<ParsedStatementView>, DbErrorView>(None) ==> !word_at(l, 0, "LISTEN"@) && !word_at(
            l,
            0,
            "NOTIFY"@,
        ) && !word_at(l, 0, "REINDEX"@) && !word_at(l, 0, "UNLISTEN"@) && !word_at(l, 0, "DO"@),
{
    reveal(session_statement);
    reveal(reindex_of);
    reveal(reindex_target);
    reveal(listen_of);
    reveal(unlisten_of);
    reveal(notify_of);
    reveal(do_of);
}

/// Whether an action on referring rows is the one that was written; none where none was.
pub open spec fn same_action(written: Option<SqlReferentialAction>, a: ReferentialAction) -> bool {
    &&& written is None || written == Some(SqlReferentialAction::NoAction) <==> a is NoAction
    &&& written == Some(SqlReferentialAction::Restrict) <==> a is Restrict
    &&& written == Some(SqlReferentialAction::Cascade) <==> a is Cascade
    &&& written == Some(SqlReferentialAction::SetNull) <==> a is SetNull
    &&& written == Some(SqlReferentialAction::SetDefault) <==> a is SetDefault
}

/// A constraint of a table keeps its kind, its columns and, as a foreign key, what it
/// refers to and what happens on DELETE and on UPDATE.
pub proof fn lemma_constraint_kept(c: TableConstraint, sql: Seq<char>)
    ensures
        table_constraint_of(c, sql) matches Ok(r) ==> match c {
            TableConstraint::PrimaryKey(k) => r is PrimaryKey && r->PrimaryKey_name == some_ident(k.name, sql) && index_columns_of(
                k.columns@,
                sql,
                0,
                Seq::empty(),
            ) == Ok::<_, DbErrorView>(r->PrimaryKey_columns),
            TableConstraint::Unique(k) => r is Unique && r->Unique_name == some_ident(k.name, sql) && index_columns_of(
                k.columns@,
                sql,
                0,
                Seq::empty(),
            ) == Ok::<_, DbErrorView>(r->Unique_columns),
            TableConstraint::Check(k) => r is Check && r->Check_name == some_ident(k.name, sql) && crate::laws_parse::says(
                *k.expr,
                sql,
                r->Check_expression,
            ),
            TableConstraint::ForeignKey(k) => {
                &&& r is ForeignKey
                &&& r->ForeignKey_name == some_ident(k.name, sql)
                &&& r->ForeignKey_columns == idents_of(k.columns@, sql)
                &&& object_name_of(k.foreign_table, sql) == Ok::<_, DbErrorView>(r->ForeignKey_referenced_table)
                &&& r->ForeignKey_referenced_columns == idents_of(k.referred_columns@, sql)
                &&& same_action(k.on_delete, r->ForeignKey_on_delete)
                &&& same_action(k.on_update, r->ForeignKey_on_update)
            },
            _ => false,
        },
{
    reveal(table_constraint_of);
    reveal(foreign_key_of);
    reveal(crate::convert_ddl::check_of);
}

/// An option of a column says what was written and leaves the rest: NULL and NOT NULL
/// settle whether it may be null, PRIMARY KEY makes it a key that is never null, UNIQUE
/// makes it unique.
pub proof fn lemma_column_option_kept(o: ColumnOptionDef, name: ParsedIdentifierView, sql: Seq<char>, parts: ColumnPartsView)
    ensures
        column_option_of(o, name, sql, parts) matches Ok(r) ==> match o.option {
            ColumnOption::Null => r == (ColumnPartsView { nullable: true, ..parts }),
            ColumnOption::NotNull => r == (ColumnPartsView { nullable: false, ..parts }),
            ColumnOption::Default(e) => {
                &&& r == (ColumnPartsView { default: r.default, ..parts })
                &&& parts.default is None
                &&& r.default is Some
                &&& crate::laws_parse::says(e, sql, r.default->0.expression)
            },
            ColumnOption::PrimaryKey(_) => {
                &&& !r.nullable
                &&& r.default == parts.default
                &&& o.name is None ==> r.primary_key && r.unique && r.constraints == parts.constraints
                &&& o.name is Some ==> r.primary_key == parts.primary_key && r.constraints.len() == parts.constraints.len() + 1
                    && r.constraints.last() is PrimaryKey && r.constraints.last()->PrimaryKey_columns == seq![name]
            },
            ColumnOption::Unique(_) => {
                &&& r.nullable == parts.nullable
                &&& r.primary_key == parts.primary_key
                &&& r.default == parts.default
                &&& o.name is None ==> r.unique && r.constraints == parts.constraints
                &&& o.name is Some ==> r.unique == parts.unique && r.constraints.len() == parts.constraints.len() + 1
                    && r.constraints.last() is Unique && r.constraints.last()->Unique_columns == seq![name]
            },
            ColumnOption::Check(_) => {
                &&& r == (ColumnPartsView { constraints: r.constraints, ..parts })
                &&& r.constraints.len() == parts.constraints.len() + 1
                &&& r.constraints.last() is Check
            },
            ColumnOption::ForeignKey(k) => {
                &&& r == (ColumnPartsView { constraints: r.constraints, ..parts })
                &&& r.constraints.len() == parts.constraints.len() + 1
                &&& r.constraints.last() is ForeignKey
                &&& r.constraints.last()->ForeignKey_columns == seq![name]
                &&& same_action(k.on_delete, r.constraints.last()->ForeignKey_on_delete)
                &&& same_action(k.on_update, r.constraints.last()->ForeignKey_on_update)
            },
            _ => false,
        },
{
    reveal(column_option_of);
    reveal(foreign_key_of);
    reveal(crate::convert_ddl::check_of);
    reveal(crate::convert_ddl::default_of);
}

/// A column keeps its name and its type. Without options it may be null, is no key, is not
/// unique and has no default.
pub proof fn lemma_column_kept(c: ColumnDef, sql: Seq<char>)
    ensures
        column_of(c, sql) matches Ok((r, constraints)) ==> {
            &&& r.name == ident_of(c.name, sql)
            &&& column_type_of(c.data_type, sql) == Ok::<_, DbErrorView>((r.data_type, r.declared_type))
            &&& c.options@.len() == 0 ==> r.nullable && !r.primary_key && !r.unique && r.default is None && constraints.len() == 0
            &&& c.options@.len() == 1 && c.options@[0].option is NotNull ==> !r.nullable
            &&& c.options@.len() == 1 && c.options@[0].option is PrimaryKey ==> !r.nullable
        },
{
    reveal(column_of);
    let name = ident_of(c.name, sql);
    if c.options@.len() == 1 {
        lemma_column_option_kept(c.options@[0], name, sql, plain_column());
        if let Ok(p) = column_option_of(c.options@[0], name, sql, plain_column()) {
            assert(column_options_of(c.options@, name, sql, 1, p) == Ok::<_, DbErrorView>(p));
        }
    }
}

/// A CREATE TABLE keeps its name and its IF NOT EXISTS, and its constraints are those at
/// its columns followed by its own.
pub proof fn lemma_create_table_kept(s: CreateTable, source: SourceView)
    ensures
        converted_statement(Statement::CreateTable(s), source) matches Ok(st) ==> {
            &&& st is CreateTable
            &&& object_name_of(s.name, source.sql) == Ok::<_, DbErrorView>(st->CreateTable_name)
            &&& st->CreateTable_if_not_exists == s.if_not_exists
            &&& st->CreateTable_columns.len() == s.columns@.len()
            &&& forall|k: int|
                0 <= k < s.columns@.len() ==> (column_of(#[trigger] s.columns@[k], source.sql) matches Ok((c, _)) && c
                    == st->CreateTable_columns[k])
            &&& table_constraints_of(s.constraints@, source.sql, 0, Seq::empty()) matches Ok(more) && more.len()
                <= st->CreateTable_constraints.len() && st->CreateTable_constraints.skip(
                st->CreateTable_constraints.len() - more.len(),
            ) == more
        },
{
    reveal(definition_statement);
    reveal(create_table_of);
    lemma_columns_kept(s.columns@, source.sql, 0, Seq::empty(), Seq::empty());
    if let Ok((_, own)) = columns_of(s.columns@, source.sql, 0, Seq::empty(), Seq::empty()) {
        if let Ok(more) = table_constraints_of(s.constraints@, source.sql, 0, Seq::empty()) {
            assert((own + more).skip(own.len() as int) =~= more);
        }
    }
}

proof fn lemma_columns_kept(
    l: Seq<ColumnDef>,
    sql: Seq<char>,
    i: int,
    done: Seq<ParsedColumnView>,
    constraints: Seq<ParsedTableConstraintView>,
)
    requires
        0 <= i <= l.len(),
        done.len() == i,
        forall|k: int| 0 <= k < i ==> (column_of(#[trigger] l[k], sql) matches Ok((c, _)) && c == done[k]),
    ensures
        columns_of(l, sql, i, done, constraints) matches Ok((r, _)) ==> r.len() == l.len() && forall|k: int|
            0 <= k < l.len() ==> (column_of(#[trigger] l[k], sql) matches Ok((c, _)) && c == r[k]),
    decreases l.len() - i,
{
    if i < l.len() {
        if let Ok((c, more)) = column_of(l[i], sql) {
            let next = done.push(c);
            assert forall|k: int| 0 <= k < i + 1 implies (column_of(#[trigger] l[k], sql) matches Ok((c, _)) && c == next[k]) by {
                if k < i {
                    assert(next[k] == done[k]);
                }
            }
            lemma_columns_kept(l, sql, i + 1, next, constraints + more);
        }
    }
}

/// An ALTER VIEW renames the kind of view that was written, and keeps its names and its IF
/// EXISTS.
pub proof fn lemma_alter_view_kept(l: Seq<Token>)
    ensures
        alter_view_of(l) matches Ok(Some(st)) ==> {
            &&& st is AlterViewRename
            &&& word_at(l, 0, "ALTER"@)
            &&& st->AlterViewRename_kind is Materialized <==> pair_at(l, 1, "MATERIALIZED"@, "VIEW"@)
            &&& st->AlterViewRename_kind is Regular ==> word_at(l, 1, "VIEW"@)
            &&& st->AlterViewRename_if_exists <==> pair_at(
                l,
                if st->AlterViewRename_kind is Materialized {
                    3
                } else {
                    2
                },
                "IF"@,
                "EXISTS"@,
            )
        },
{
    reveal(alter_view_of);
    reveal(view_kind);
}

} // verus!
