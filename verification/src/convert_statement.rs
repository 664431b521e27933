//! Takes over statements from a syntax tree.

use sqlparser::ast::{
    AlterIndexOperation, AlterSchemaOperation, AlterTypeAddValuePosition, AlterTypeOperation, BeginTransactionKind, DiscardObject, Ident,
    ObjectName, ObjectType, SchemaName, Statement, TransactionAccessMode as SqlTransactionAccessMode, TransactionIsolationLevel,
    TransactionMode, UserDefinedTypeRepresentation,
};
use sqlparser::tokenizer::Token;
use vstd::prelude::*;

use crate::catalog::{DropBehavior, EnumValuePosition, EnumValuePositionView, RoutineKind};
use crate::convert::{convert_routine_invocation, convert_select_query};
use crate::convert_ddl::{
    alter_table_of, convert_alter_table, convert_create_domain, convert_create_index, convert_create_sequence, convert_create_table,
    convert_create_view, create_domain_of, create_index_of, create_sequence_of, create_table_of, create_view_of,
};
use crate::convert_dml::{convert_delete, convert_insert, convert_merge, convert_update, delete_of, insert_of, merge_of, update_of};
use crate::convert_routine::{
    convert_create_function, convert_create_trigger, convert_drop_routine, convert_drop_trigger, create_function_of, create_trigger_of,
    drop_routine_of, drop_trigger_of,
};
use crate::convert_rules::{converted_query, invocation_of};
use crate::rewrite::{make_statement, statement_result};
use crate::scope::Checked;
use crate::source::{
    convert_ident, convert_object_name, convert_single_identifier, has_keyword_pair, has_keyword_sequence, has_pair, has_triple, ident_of,
    object_name_of, single_name_of, Source, SourceView,
};
use crate::syntax::{
    DdlObjectKind, IsolationLevel, ParsedObjectName, ParsedObjectNameView, ParsedStatement, ParsedStatementView, TransactionAccessMode,
    TransactionChain, TransactionCharacteristics,
};
use crate::text::{lower, same_ignoring_case, strings, text};
use crate::types::{error, unsupported, unsupported_error, DbError, Result, SYNTAX_ERROR};
use crate::written::statement_written;

verus! {

/// The contents of a dotted name that may be absent.
pub open spec fn some_object_view(n: Option<ParsedObjectName>) -> Option<ParsedObjectNameView> {
    match n {
        Some(n) => Some(n@),
        None => None,
    }
}

/// The labels of an enumeration.
pub open spec fn labels_of(l: Seq<Ident>) -> Seq<Seq<char>> {
    Seq::new(l.len(), |i: int| l[i].value@)
}

fn convert_labels(l: &Vec<Ident>) -> (r: Vec<String>)
    ensures
        strings(r@) == labels_of(l@),
{
    let mut out: Vec<String> = Vec::new();
    for i in 0..l.len()
        invariant
            strings(out@) =~= labels_of(l@).take(i as int),
    {
        let ghost before = strings(out@);
        let x = l[i].value.clone();
        out.push(x);
        assert(strings(out@) =~= before.push(x@));
    }
    out
}

/// Where a label goes.
pub open spec fn place_in(p: Option<AlterTypeAddValuePosition>) -> Option<EnumValuePositionView> {
    match p {
        None => None,
        Some(AlterTypeAddValuePosition::Before(label)) => Some(EnumValuePositionView::Before(label.value@)),
        Some(AlterTypeAddValuePosition::After(label)) => Some(EnumValuePositionView::After(label.value@)),
    }
}

fn convert_place(p: &Option<AlterTypeAddValuePosition>) -> (r: Option<EnumValuePosition>)
    ensures
        (match r {
            Some(x) => Some(x@),
            None => None,
        }) == place_in(*p),
{
    match p {
        None => None,
        Some(AlterTypeAddValuePosition::Before(label)) => Some(EnumValuePosition::Before(label.value.clone())),
        Some(AlterTypeAddValuePosition::After(label)) => Some(EnumValuePosition::After(label.value.clone())),
    }
}

/// The characteristics that transaction modes ask for, from one of them on.
pub open spec fn modes_from(
    l: Seq<TransactionMode>,
    i: int,
    isolation_seen: bool,
    access_seen: bool,
    c: TransactionCharacteristics,
) -> Checked<
    TransactionCharacteristics,
>
    decreases l.len() - i,
{
    if i < 0 || i >= l.len() {
        Ok(c)
    } else {
        match l[i] {
            TransactionMode::IsolationLevel(level) => if isolation_seen {
                Err(error(SYNTAX_ERROR@, "transaction isolation level was specified more than once"@))
            } else {
                match level {
                    TransactionIsolationLevel::ReadUncommitted | TransactionIsolationLevel::ReadCommitted => modes_from(
                        l,
                        i + 1,
                        true,
                        access_seen,
                        TransactionCharacteristics { isolation_level: IsolationLevel::ReadCommitted, ..c },
                    ),
                    TransactionIsolationLevel::RepeatableRead => modes_from(
                        l,
                        i + 1,
                        true,
                        access_seen,
                        TransactionCharacteristics { isolation_level: IsolationLevel::RepeatableRead, ..c },
                    ),
                    TransactionIsolationLevel::Serializable => modes_from(
                        l,
                        i + 1,
                        true,
                        access_seen,
                        TransactionCharacteristics { isolation_level: IsolationLevel::Serializable, ..c },
                    ),
                    TransactionIsolationLevel::Snapshot => Err(unsupported_error("SNAPSHOT isolation is not supported"@, None)),
                }
            },
            TransactionMode::AccessMode(mode) => if access_seen {
                Err(error(SYNTAX_ERROR@, "transaction access mode was specified more than once"@))
            } else {
                modes_from(
                    l,
                    i + 1,
                    isolation_seen,
                    true,
                    TransactionCharacteristics {
                        access_mode: match mode {
                            SqlTransactionAccessMode::ReadOnly => TransactionAccessMode::ReadOnly,
                            SqlTransactionAccessMode::ReadWrite => TransactionAccessMode::ReadWrite,
                        },
                        ..c
                    },
                )
            },
        }
    }
}

/// A transaction of which nothing is asked.
pub open spec fn plain_transaction(deferrable: bool) -> TransactionCharacteristics {
    TransactionCharacteristics { isolation_level: IsolationLevel::ReadCommitted, access_mode: TransactionAccessMode::ReadWrite, deferrable }
}

/// Takes over transaction modes.
pub fn convert_transaction_modes(l: &Vec<TransactionMode>, deferrable: bool) -> (r: Result<TransactionCharacteristics>)
    ensures
        (match r {
            Ok(x) => Ok(x),
            Err(x) => Err(x@),
        }) == modes_from(l@, 0, false, false, plain_transaction(deferrable)),
{
    let mut c = TransactionCharacteristics {
        isolation_level: IsolationLevel::ReadCommitted,
        access_mode: TransactionAccessMode::ReadWrite,
        deferrable,
    };
    let mut isolation_seen = false;
    let mut access_seen = false;
    for i in 0..l.len()
        invariant
            modes_from(l@, 0, false, false, plain_transaction(deferrable)) == modes_from(l@, i as int, isolation_seen, access_seen, c),
    {
        match &l[i] {
            TransactionMode::IsolationLevel(level) => {
                if isolation_seen {
                    return Err(DbError::new(SYNTAX_ERROR, text("transaction isolation level was specified more than once")));
                }
                isolation_seen = true;
                c.isolation_level = match level {
                    TransactionIsolationLevel::ReadUncommitted | TransactionIsolationLevel::ReadCommitted => IsolationLevel::ReadCommitted,
                    TransactionIsolationLevel::RepeatableRead => IsolationLevel::RepeatableRead,
                    TransactionIsolationLevel::Serializable => IsolationLevel::Serializable,
                    TransactionIsolationLevel::Snapshot => {
                        return Err(unsupported("SNAPSHOT isolation is not supported"));
                    },
                };
            },
            TransactionMode::AccessMode(mode) => {
                if access_seen {
                    return Err(DbError::new(SYNTAX_ERROR, text("transaction access mode was specified more than once")));
                }
                access_seen = true;
                c.access_mode = match mode {
                    SqlTransactionAccessMode::ReadOnly => TransactionAccessMode::ReadOnly,
                    SqlTransactionAccessMode::ReadWrite => TransactionAccessMode::ReadWrite,
                };
            },
        }
    }
    Ok(c)
}

/// Whether the keyword after BEGIN or START is a supported one.
pub open spec fn supported_start(begin: bool, kind: Option<BeginTransactionKind>) -> bool {
    match kind {
        None => begin,
        Some(BeginTransactionKind::Transaction) => true,
        Some(BeginTransactionKind::Work) => begin,
        Some(BeginTransactionKind::Tran) => false,
    }
}

fn is_supported_start(begin: bool, kind: &Option<BeginTransactionKind>) -> (r: bool)
    ensures
        r == supported_start(begin, *kind),
{
    match kind {
        None => begin,
        Some(BeginTransactionKind::Transaction) => true,
        Some(BeginTransactionKind::Work) => begin,
        Some(BeginTransactionKind::Tran) => false,
    }
}

/// Whether the end of a transaction starts the next one.
pub open spec fn chain_of(chain: bool, tokens: Seq<Token>) -> TransactionChain {
    if chain {
        TransactionChain::Chain
    } else if has_triple(tokens, "AND"@, "NO"@, "CHAIN"@) {
        TransactionChain::NoChain
    } else {
        TransactionChain::Default
    }
}

/// Takes over whether the end of a transaction starts the next one.
pub fn convert_transaction_chain(chain: bool, tokens: &Vec<Token>) -> (r: TransactionChain)
    ensures
        r == chain_of(chain, tokens@),
{
    if chain {
        TransactionChain::Chain
    } else if has_keyword_sequence(tokens, "AND", "NO", "CHAIN") {
        TransactionChain::NoChain
    } else {
        TransactionChain::Default
    }
}

/// A statement that controls a transaction.
#[verifier::opaque]
pub open spec fn transaction_statement(s: Statement, source: SourceView) -> Checked<ParsedStatementView> {
    match s {
        Statement::StartTransaction {
            modes,
            begin,
            transaction,
            modifier,
            statements,
            exception,
            has_end_keyword,
        } => if !supported_start(begin, transaction) || modifier is Some || statements@.len() > 0 || exception is Some || has_end_keyword {
            Err(unsupported_error("transaction modes and options are not supported yet"@, None))
        } else {
            match modes_from(modes@, 0, false, false, plain_transaction(false)) {
                Err(x) => Err(x),
                Ok(characteristics) => Ok((ParsedStatementView::Begin { characteristics })),
            }
        },
        Statement::Commit { chain, end, modifier } => if end || modifier is Some || has_pair(source.tokens, "COMMIT"@, "TRAN"@) {
            Err(unsupported_error("COMMIT options are not supported yet"@, None))
        } else {
            Ok(ParsedStatementView::Commit { chain: chain_of(chain, source.tokens) })
        },
        Statement::Rollback { chain, savepoint } => if has_pair(source.tokens, "ROLLBACK"@, "TRAN"@) {
            Err(unsupported_error("ROLLBACK TRAN is not supported"@, None))
        } else {
            match savepoint {
                Some(name) => if chain || has_triple(source.tokens, "AND"@, "NO"@, "CHAIN"@) {
                    Err(unsupported_error("ROLLBACK TO SAVEPOINT cannot use AND CHAIN"@, None))
                } else {
                    Ok(ParsedStatementView::RollbackTo { name: ident_of(name, source.sql) })
                },
                None => Ok(ParsedStatementView::Rollback { chain: chain_of(chain, source.tokens) }),
            }
        },
        Statement::Savepoint { name } => Ok(ParsedStatementView::Savepoint { name: ident_of(name, source.sql) }),
        Statement::ReleaseSavepoint { name } => Ok(ParsedStatementView::ReleaseSavepoint { name: ident_of(name, source.sql) }),
        _ => Err(unsupported_error("SQL statement is not supported in this milestone"@, None)),
    }
}

/// Takes over a statement that controls a transaction.
pub fn convert_transaction_statement(s: &Statement, source: &Source) -> (r: Result<ParsedStatement>)
    ensures
        (match r {
            Ok(x) => Ok(x@),
            Err(x) => Err(x@),
        }) == transaction_statement(*s, source@),
{
    reveal(transaction_statement);
    match s {
        Statement::StartTransaction { modes, begin, transaction, modifier, statements, exception, has_end_keyword } => {
            if !is_supported_start(*begin, transaction) || modifier.is_some() || statements.len() > 0 || exception.is_some()
                || *has_end_keyword {
                return Err(unsupported("transaction modes and options are not supported yet"));
            }
            let characteristics = convert_transaction_modes(modes, false)?;
            Ok(make_statement(ParsedStatement::Begin { characteristics }))
        },
        Statement::Commit { chain, end, modifier } => {
            if *end || modifier.is_some() || has_keyword_pair(&source.tokens, "COMMIT", "TRAN") {
                return Err(unsupported("COMMIT options are not supported yet"));
            }
            Ok(make_statement(ParsedStatement::Commit { chain: convert_transaction_chain(*chain, &source.tokens) }))
        },
        Statement::Rollback { chain, savepoint } => {
            if has_keyword_pair(&source.tokens, "ROLLBACK", "TRAN") {
                return Err(unsupported("ROLLBACK TRAN is not supported"));
            }
            match savepoint {
                Some(name) => {
                    if *chain || has_keyword_sequence(&source.tokens, "AND", "NO", "CHAIN") {
                        return Err(unsupported("ROLLBACK TO SAVEPOINT cannot use AND CHAIN"));
                    }
                    Ok(make_statement(ParsedStatement::RollbackTo { name: convert_ident(name, source.sql) }))
                },
                None => {
                    Ok(make_statement(ParsedStatement::Rollback { chain: convert_transaction_chain(*chain, &source.tokens) }))
                },
            }
        },
        Statement::Savepoint { name } => {
            Ok(make_statement(ParsedStatement::Savepoint { name: convert_ident(name, source.sql) }))
        },
        Statement::ReleaseSavepoint { name } => {
            Ok(make_statement(ParsedStatement::ReleaseSavepoint { name: convert_ident(name, source.sql) }))
        },
        _ => {
            Err(unsupported("SQL statement is not supported in this milestone"))
        },
    }
}

/// A dotted name that may be absent.
#[verifier::opaque]
pub open spec fn some_object_of(n: Option<ObjectName>, sql: Seq<char>) -> Checked<Option<ParsedObjectNameView>> {
    match n {
        None => Ok(None),
        Some(n) => match object_name_of(n, sql) {
            Err(x) => Err(x),
            Ok(n) => Ok(Some(n)),
        },
    }
}

/// Takes over a dotted name that may be absent.
fn convert_some_object(n: &Option<ObjectName>, sql: &str) -> (r: Result<Option<ParsedObjectName>>)
    ensures
        (match r {
            Ok(x) => Ok(some_object_view(x)),
            Err(x) => Err(x@),
        }) == some_object_of(*n, sql@),
{
    reveal(some_object_of);
    match n {
        None => {
            Ok(None)
        },
        Some(n) => {
            let n = convert_object_name(n, sql)?;
            Ok(Some(n))
        },
    }
}

/// A statement that keeps a database or a session in order.
#[verifier::opaque]
pub open spec fn maintenance_statement(s: Statement, source: SourceView) -> Checked<ParsedStatementView> {
    match s {
        Statement::Analyze(a) => if a.partitions is Some || a.for_columns || a.columns@.len() > 0
            || a.cache_metadata || a.noscan || a.compute_statistics || a.has_table_keyword {
            Err(unsupported_error("this ANALYZE form is not supported yet"@, None))
        } else {
            match some_object_of(a.table_name, source.sql) { Err(x) => Err(x), Ok(table) => Ok((ParsedStatementView::Analyze { table })) }
        },
        Statement::Vacuum(v) => if v.full || v.sort_only || v.delete_only || v.reindex || v.recluster || v.threshold is Some || v.boost {
            Err(unsupported_error("this VACUUM form is not supported yet"@, None))
        } else {
            match some_object_of(v.table_name, source.sql) {
                Err(x) => Err(x),
                Ok(table) => Ok((ParsedStatementView::Vacuum { table, analyze: false })),
            }
        },
        Statement::Discard { object_type } => match object_type {
            DiscardObject::ALL => Ok((ParsedStatementView::DiscardAll)),
            _ => Err(unsupported_error("only DISCARD ALL is supported"@, None)),
        },
        Statement::Deallocate { name, .. } => if name.quote_style is None && lower(name.value@) == lower("ALL"@) {
            Ok((ParsedStatementView::DeallocateAll))
        } else {
            Err(unsupported_error("only DEALLOCATE ALL is supported at the SQL boundary"@, None))
        },
        _ => Err(unsupported_error("SQL statement is not supported in this milestone"@, None)),
    }
}

/// Takes over a statement that keeps a database or a session in order.
pub fn convert_maintenance_statement(s: &Statement, source: &Source) -> (r: Result<ParsedStatement>)
    ensures
        (match r {
            Ok(x) => Ok(x@),
            Err(x) => Err(x@),
        }) == maintenance_statement(*s, source@),
{
    reveal(maintenance_statement);
    match s {
        Statement::Analyze(a) => {
            if a.partitions.is_some() || a.for_columns || a.columns.len() > 0 || a.cache_metadata || a.noscan || a.compute_statistics
                || a.has_table_keyword {
                return Err(unsupported("this ANALYZE form is not supported yet"));
            }
            let table = convert_some_object(&a.table_name, source.sql)?;
            Ok(make_statement(ParsedStatement::Analyze { table }))
        },
        Statement::Vacuum(v) => {
            if v.full || v.sort_only || v.delete_only || v.reindex || v.recluster || v.threshold.is_some() || v.boost {
                return Err(unsupported("this VACUUM form is not supported yet"));
            }
            let table = convert_some_object(&v.table_name, source.sql)?;
            Ok(make_statement(ParsedStatement::Vacuum { table, analyze: false }))
        },
        Statement::Discard { object_type } => {
            match object_type {
                DiscardObject::ALL => {
                    Ok(make_statement(ParsedStatement::DiscardAll))
                },
                _ => {
                    Err(unsupported("only DISCARD ALL is supported"))
                },
            }
        },
        Statement::Deallocate { name, .. } => {
            if name.quote_style.is_none() && same_ignoring_case(name.value.as_str(), "ALL") {
                Ok(make_statement(ParsedStatement::DeallocateAll))
            } else {
                Err(unsupported("only DEALLOCATE ALL is supported at the SQL boundary"))
            }
        },
        _ => {
            Err(unsupported("SQL statement is not supported in this milestone"))
        },
    }
}

/// A statement about a schema.
#[verifier::opaque]
pub open spec fn schema_statement(s: Statement, source: SourceView) -> Checked<ParsedStatementView> {
    match s {
        Statement::CreateSchema {
            schema_name,
            if_not_exists,
            with,
            options,
            default_collate_spec,
            clone,
        } => if with is Some || options is Some || default_collate_spec is Some || clone is Some {
            Err(unsupported_error("CREATE SCHEMA options are not supported yet"@, None))
        } else {
            match schema_name {
                SchemaName::Simple(name) => match object_name_of(name, source.sql) {
                    Err(x) => Err(x),
                    Ok(o) => if o.parts.len() != 1 {
                        Err(unsupported_error("qualified schema names are not supported"@, None))
                    } else {
                        Ok(ParsedStatementView::CreateSchema { name: o.parts[0], if_not_exists })
                    },
                },
                _ => Err(unsupported_error("CREATE SCHEMA AUTHORIZATION is not supported yet"@, None)),
            }
        },
        Statement::AlterSchema(a) => if a.operations@.len() != 1 {
            Err(unsupported_error("ALTER SCHEMA supports one operation at a time"@, None))
        } else {
            match object_name_of(a.name, source.sql) {
                Err(x) => Err(x),
                Ok(o) => if o.parts.len() != 1 {
                    Err(unsupported_error("qualified schema names are not supported"@, None))
                } else {
                    match a.operations@[0] {
                        AlterSchemaOperation::Rename { name } => match single_name_of(name, source.sql) {
                            Err(x) => Err(x),
                            Ok(new_name) => Ok(
                                ParsedStatementView::AlterSchemaRename { name: o.parts[0], new_name, if_exists: a.if_exists },
                            ),
                        },
                        _ => Err(unsupported_error("only ALTER SCHEMA ... RENAME TO is supported"@, None)),
                    }
                },
            }
        },
        _ => Err(unsupported_error("SQL statement is not supported in this milestone"@, None)),
    }
}

/// Takes over a statement about a schema.
pub fn convert_schema_statement(s: &Statement, source: &Source) -> (r: Result<ParsedStatement>)
    ensures
        (match r {
            Ok(x) => Ok(x@),
            Err(x) => Err(x@),
        }) == schema_statement(*s, source@),
{
    reveal(schema_statement);
    match s {
        Statement::CreateSchema { schema_name, if_not_exists, with, options, default_collate_spec, clone } => {
            if with.is_some() || options.is_some() || default_collate_spec.is_some() || clone.is_some() {
                return Err(unsupported("CREATE SCHEMA options are not supported yet"));
            }
            match schema_name {
                SchemaName::Simple(name) => {
                    let o = convert_object_name(name, source.sql)?;
                    if o.parts.len() != 1 {
                        return Err(unsupported("qualified schema names are not supported"));
                    }
                    assert(o@.parts[0] == o.parts@[0]@);
                    Ok(make_statement(ParsedStatement::CreateSchema { name: o.parts[0].clone(), if_not_exists: *if_not_exists }))
                },
                _ => {
                    Err(unsupported("CREATE SCHEMA AUTHORIZATION is not supported yet"))
                },
            }
        },
        Statement::AlterSchema(a) => {
            if a.operations.len() != 1 {
                return Err(unsupported("ALTER SCHEMA supports one operation at a time"));
            }
            let o = convert_object_name(&a.name, source.sql)?;
            if o.parts.len() != 1 {
                return Err(unsupported("qualified schema names are not supported"));
            }
            match &a.operations[0] {
                AlterSchemaOperation::Rename { name } => {
                    let new_name = convert_single_identifier(name, source.sql)?;
                    assert(o@.parts[0] == o.parts@[0]@);
                    Ok(make_statement(ParsedStatement::AlterSchemaRename { name: o.parts[0].clone(), new_name, if_exists: a.if_exists }))
                },
                _ => {
                    Err(unsupported("only ALTER SCHEMA ... RENAME TO is supported"))
                },
            }
        },
        _ => {
            Err(unsupported("SQL statement is not supported in this milestone"))
        },
    }
}

/// A statement about a type.
#[verifier::opaque]
pub open spec fn type_statement(s: Statement, source: SourceView) -> Checked<ParsedStatementView> {
    match s {
        Statement::CreateType { name, representation } => match representation {
            Some(UserDefinedTypeRepresentation::Enum { labels }) => match object_name_of(name, source.sql) {
                Err(x) => Err(x),
                Ok(name) => Ok(ParsedStatementView::CreateEnumType { name, labels: labels_of(labels@) }),
            },
            _ => Err(unsupported_error("only CREATE TYPE ... AS ENUM is supported"@, None)),
        },
        Statement::AlterType(a) => match object_name_of(a.name, source.sql) {
            Err(x) => Err(x),
            Ok(name) => match a.operation {
                AlterTypeOperation::Rename(_) => Err(unsupported_error("ALTER TYPE RENAME TO is not supported yet"@, None)),
                AlterTypeOperation::AddValue(o) => Ok(
                    ParsedStatementView::AlterEnumAddValue {
                        name,
                        label: o.value.value@,
                        position: place_in(o.position),
                        if_not_exists: o.if_not_exists,
                    },
                ),
                AlterTypeOperation::RenameValue(o) => Ok(
                    ParsedStatementView::AlterEnumRenameValue { name, old_label: o.from.value@, new_label: o.to.value@ },
                ),
            },
        },
        _ => Err(unsupported_error("SQL statement is not supported in this milestone"@, None)),
    }
}

/// Takes over a statement about a type.
pub fn convert_type_statement(s: &Statement, source: &Source) -> (r: Result<ParsedStatement>)
    ensures
        (match r {
            Ok(x) => Ok(x@),
            Err(x) => Err(x@),
        }) == type_statement(*s, source@),
{
    reveal(type_statement);
    match s {
        Statement::CreateType { name, representation } => {
            match representation {
                Some(UserDefinedTypeRepresentation::Enum { labels }) => {
                    let name = convert_object_name(name, source.sql)?;
                    Ok(make_statement(ParsedStatement::CreateEnumType { name, labels: convert_labels(labels) }))
                },
                _ => {
                    Err(unsupported("only CREATE TYPE ... AS ENUM is supported"))
                },
            }
        },
        Statement::AlterType(a) => {
            let name = convert_object_name(&a.name, source.sql)?;
            match &a.operation {
                AlterTypeOperation::Rename(_) => {
                    Err(unsupported("ALTER TYPE RENAME TO is not supported yet"))
                },
                AlterTypeOperation::AddValue(o) => {
                    Ok(
                        make_statement(
                            ParsedStatement::AlterEnumAddValue {
                                name,
                                label: o.value.value.clone(),
                                position: convert_place(&o.position),
                                if_not_exists: o.if_not_exists,
                            },
                        ),
                    )
                },
                AlterTypeOperation::RenameValue(o) => {
                    Ok(
                        make_statement(
                            ParsedStatement::AlterEnumRenameValue { name, old_label: o.from.value.clone(), new_label: o.to.value.clone() },
                        ),
                    )
                },
            }
        },
        _ => {
            Err(unsupported("SQL statement is not supported in this milestone"))
        },
    }
}

/// Dotted names, from one of them on.
pub open spec fn object_names_of(
    l: Seq<ObjectName>,
    sql: Seq<char>,
    i: int,
    done: Seq<ParsedObjectNameView>,
) -> Checked<Seq<ParsedObjectNameView>>
    decreases l.len() - i,
{
    if i < 0 || i >= l.len() {
        Ok(done)
    } else {
        match object_name_of(l[i], sql) {
            Err(x) => Err(x),
            Ok(b) => object_names_of(l, sql, i + 1, done.push(b)),
        }
    }
}

/// Takes over dotted names.
pub fn convert_object_names(l: &Vec<ObjectName>, sql: &str) -> (r: Result<Vec<ParsedObjectName>>)
    ensures
        (match r {
            Ok(x) => Ok(ParsedObjectName::views(x@)),
            Err(x) => Err(x@),
        }) == object_names_of(l@, sql@, 0, Seq::empty()),
{
    let mut out: Vec<ParsedObjectName> = Vec::new();
    assert(ParsedObjectName::views(out@) =~= Seq::empty());
    for i in 0..l.len()
        invariant
            object_names_of(l@, sql@, 0, Seq::empty()) == object_names_of(l@, sql@, i as int, ParsedObjectName::views(out@)),
    {
        let ghost before = ParsedObjectName::views(out@);
        let x = convert_object_name(&l[i], sql)?;
        out.push(x);
        assert(ParsedObjectName::views(out@) =~= before.push(x@));
    }
    Ok(out)
}

/// The kind of a dropped object.
#[verifier::opaque]
pub open spec fn dropped_kind(t: ObjectType) -> Checked<DdlObjectKind> {
    match t {
        ObjectType::Schema => Ok(DdlObjectKind::Schema),
        ObjectType::Table => Ok(DdlObjectKind::Table),
        ObjectType::Index => Ok(DdlObjectKind::Index),
        ObjectType::Sequence => Ok(DdlObjectKind::Sequence),
        ObjectType::View => Ok(DdlObjectKind::View),
        ObjectType::MaterializedView => Ok(DdlObjectKind::MaterializedView),
        ObjectType::Type => Ok(DdlObjectKind::Type),
        _ => Err(unsupported_error("this DROP object type is not supported"@, None)),
    }
}

/// Takes over the kind of a dropped object.
fn convert_dropped_kind(t: &ObjectType) -> (r: Result<DdlObjectKind>)
    ensures
        (match r {
            Ok(x) => Ok(x),
            Err(x) => Err(x@),
        }) == dropped_kind(*t),
{
    reveal(dropped_kind);
    match t {
        ObjectType::Schema => {
            Ok(DdlObjectKind::Schema)
        },
        ObjectType::Table => {
            Ok(DdlObjectKind::Table)
        },
        ObjectType::Index => {
            Ok(DdlObjectKind::Index)
        },
        ObjectType::Sequence => {
            Ok(DdlObjectKind::Sequence)
        },
        ObjectType::View => {
            Ok(DdlObjectKind::View)
        },
        ObjectType::MaterializedView => {
            Ok(DdlObjectKind::MaterializedView)
        },
        ObjectType::Type => {
            Ok(DdlObjectKind::Type)
        },
        _ => {
            Err(unsupported("this DROP object type is not supported"))
        },
    }
}

/// A statement that drops objects.
#[verifier::opaque]
pub open spec fn drop_statement(s: Statement, source: SourceView) -> Checked<ParsedStatementView> {
    match s {
        Statement::Drop {
            object_type,
            if_exists,
            names,
            cascade,
            restrict,
            purge,
            temporary,
            table,
        } => if purge || temporary || table is Some || (cascade && restrict) {
            Err(unsupported_error("this DROP form is not supported"@, None))
        } else {
            match dropped_kind(object_type) {
                Err(x) => Err(x),
                Ok(kind) => if names@.len() == 0 {
                    Err(error(SYNTAX_ERROR@, "DROP requires at least one object name"@))
                } else {
                    match object_names_of(names@, source.sql, 0, Seq::empty()) {
                        Err(x) => Err(x),
                        Ok(objects) => Ok(
                            ParsedStatementView::DropObjects {
                                kind,
                                names: objects,
                                if_exists,
                                behavior: if cascade { DropBehavior::Cascade } else { DropBehavior::Restrict },
                            },
                        ),
                    }
                },
            }
        },
        _ => Err(unsupported_error("SQL statement is not supported in this milestone"@, None)),
    }
}

/// Takes over a statement that drops objects.
pub fn convert_drop_statement(s: &Statement, source: &Source) -> (r: Result<ParsedStatement>)
    ensures
        (match r {
            Ok(x) => Ok(x@),
            Err(x) => Err(x@),
        }) == drop_statement(*s, source@),
{
    reveal(drop_statement);
    match s {
        Statement::Drop { object_type, if_exists, names, cascade, restrict, purge, temporary, table } => {
            if *purge || *temporary || table.is_some() || (*cascade && *restrict) {
                return Err(unsupported("this DROP form is not supported"));
            }
            let kind = convert_dropped_kind(object_type)?;
            if names.len() == 0 {
                return Err(DbError::new(SYNTAX_ERROR, text("DROP requires at least one object name")));
            }
            let objects = convert_object_names(names, source.sql)?;
            Ok(
                make_statement(
                    ParsedStatement::DropObjects {
                        kind,
                        names: objects,
                        if_exists: *if_exists,
                        behavior: if *cascade { DropBehavior::Cascade } else { DropBehavior::Restrict },
                    },
                ),
            )
        },
        _ => {
            Err(unsupported("SQL statement is not supported in this milestone"))
        },
    }
}

/// A statement that defines an object.
#[verifier::opaque]
pub open spec fn definition_statement(s: Statement, source: SourceView) -> Checked<ParsedStatementView> {
    match s {
        Statement::CreateDomain(d) => create_domain_of(d, source),
        Statement::CreateTable(t) => create_table_of(t, source.sql),
        Statement::AlterTable(t) => alter_table_of(t, source.sql),
        Statement::CreateIndex(i) => create_index_of(i, source),
        Statement::AlterIndex { name, operation } => match operation {
            AlterIndexOperation::RenameIndex { index_name } => match object_name_of(name, source.sql) {
                Err(x) => Err(x),
                Ok(old) => match single_name_of(index_name, source.sql) {
                    Err(x) => Err(x),
                    Ok(new_name) => Ok((ParsedStatementView::AlterIndexRename { name: old, new_name })),
                },
            },
        },
        Statement::CreateSequence { temporary, if_not_exists, name, data_type, sequence_options, owned_by } => create_sequence_of(
            temporary,
            if_not_exists,
            name,
            data_type,
            sequence_options@,
            owned_by,
            source.sql,
        ),
        Statement::CreateView(v) => create_view_of(v, source),
        _ => Err(unsupported_error("SQL statement is not supported in this milestone"@, None)),
    }
}

/// Takes over a statement that defines an object.
pub(crate) fn convert_definition_statement(s: &Statement, source: &Source) -> (r: Result<ParsedStatement>)
    requires
        statement_written(*s),
    ensures
        (match r {
            Ok(x) => Ok(x@),
            Err(x) => Err(x@),
        }) == definition_statement(*s, source@),
{
    reveal(definition_statement);
    match s {
        Statement::CreateDomain(d) => {
            convert_create_domain(d, source)
        },
        Statement::CreateTable(t) => {
            convert_create_table(t, source.sql)
        },
        Statement::AlterTable(t) => {
            convert_alter_table(t, source.sql)
        },
        Statement::CreateIndex(i) => {
            convert_create_index(i, source)
        },
        Statement::AlterIndex { name, operation } => {
            match operation {
                AlterIndexOperation::RenameIndex { index_name } => {
                    let old = convert_object_name(name, source.sql)?;
                    let new_name = convert_single_identifier(index_name, source.sql)?;
                    Ok(make_statement(ParsedStatement::AlterIndexRename { name: old, new_name }))
                },
            }
        },
        Statement::CreateSequence { temporary, if_not_exists, name, data_type, sequence_options, owned_by } => {
            convert_create_sequence(*temporary, *if_not_exists, name, data_type, sequence_options, owned_by, source.sql)
        },
        Statement::CreateView(v) => {
            convert_create_view(v, source)
        },
        _ => {
            Err(unsupported("SQL statement is not supported in this milestone"))
        },
    }
}

/// A statement about a routine or a trigger.
#[verifier::opaque]
pub open spec fn routine_statement(s: Statement, source: SourceView) -> Checked<ParsedStatementView> {
    match s {
        Statement::CreateFunction(f) => create_function_of(f, source.sql),
        Statement::DropFunction(f) => drop_routine_of(f.func_desc@, RoutineKind::Function, f.if_exists, f.drop_behavior, source.sql),
        Statement::DropProcedure { if_exists, proc_desc, drop_behavior } => drop_routine_of(
            proc_desc@,
            RoutineKind::Procedure,
            if_exists,
            drop_behavior,
            source.sql,
        ),
        Statement::CreateTrigger(t) => create_trigger_of(t, source.sql),
        Statement::DropTrigger(t) => drop_trigger_of(t, source.sql),
        Statement::Call(f) => match invocation_of(f, source.sql) {
            Err(x) => Err(x),
            Ok((name, arguments)) => Ok((ParsedStatementView::Call { name, arguments })),
        },
        _ => Err(unsupported_error("SQL statement is not supported in this milestone"@, None)),
    }
}

/// Takes over a statement about a routine or a trigger.
pub fn convert_routine_statement(s: &Statement, source: &Source) -> (r: Result<ParsedStatement>)
    ensures
        (match r {
            Ok(x) => Ok(x@),
            Err(x) => Err(x@),
        }) == routine_statement(*s, source@),
{
    reveal(routine_statement);
    match s {
        Statement::CreateFunction(f) => {
            convert_create_function(f, source.sql)
        },
        Statement::DropFunction(f) => {
            convert_drop_routine(&f.func_desc, RoutineKind::Function, f.if_exists, &f.drop_behavior, source.sql)
        },
        Statement::DropProcedure { if_exists, proc_desc, drop_behavior } => {
            convert_drop_routine(proc_desc, RoutineKind::Procedure, *if_exists, drop_behavior, source.sql)
        },
        Statement::CreateTrigger(t) => {
            convert_create_trigger(t, source.sql)
        },
        Statement::DropTrigger(t) => {
            convert_drop_trigger(t, source.sql)
        },
        Statement::Call(f) => {
            let (name, arguments) = convert_routine_invocation(f, source.sql)?;
            Ok(make_statement(ParsedStatement::Call { name, arguments }))
        },
        _ => {
            Err(unsupported("SQL statement is not supported in this milestone"))
        },
    }
}

/// A statement that reads or changes data.
#[verifier::opaque]
pub open spec fn data_statement(s: Statement, source: SourceView) -> Checked<ParsedStatementView> {
    match s {
        Statement::Insert(i) => insert_of(i, source.sql),
        Statement::Merge(m) => merge_of(m, source),
        Statement::Query(q) => converted_query(*q, source.sql),
        Statement::Update(u) => update_of(u, source.sql),
        Statement::Delete(d) => delete_of(d, source.sql),
        _ => Err(unsupported_error("SQL statement is not supported in this milestone"@, None)),
    }
}

/// Takes over a statement that reads or changes data.
pub fn convert_data_statement(s: &Statement, source: &Source) -> (r: Result<ParsedStatement>)
    ensures
        (match r {
            Ok(x) => Ok(x@),
            Err(x) => Err(x@),
        }) == data_statement(*s, source@),
{
    reveal(data_statement);
    match s {
        Statement::Insert(i) => {
            convert_insert(i, source.sql)
        },
        Statement::Merge(m) => {
            convert_merge(m, source)
        },
        Statement::Query(q) => {
            convert_select_query(q, source.sql)
        },
        Statement::Update(u) => {
            convert_update(u, source.sql)
        },
        Statement::Delete(d) => {
            convert_delete(d, source.sql)
        },
        _ => {
            Err(unsupported("SQL statement is not supported in this milestone"))
        },
    }
}

/// What a statement of the syntax tree says.
pub open spec fn converted_statement(s: Statement, source: SourceView) -> Checked<ParsedStatementView>
    decreases s,
{
    match s {
        Statement::StartTransaction { .. } | Statement::Commit { .. } | Statement::Rollback { .. }
        | Statement::Savepoint { .. } | Statement::ReleaseSavepoint { .. } => transaction_statement(s, source),
        Statement::Analyze(_) | Statement::Vacuum(_) | Statement::Discard { .. }
        | Statement::Deallocate { .. } => maintenance_statement(s, source),
        Statement::CreateSchema { .. } | Statement::AlterSchema(_) => schema_statement(s, source),
        Statement::CreateType { .. } | Statement::AlterType(_) => type_statement(s, source),
        Statement::Drop { .. } => drop_statement(s, source),
        Statement::CreateDomain(_) | Statement::CreateTable(_) | Statement::AlterTable(_)
        | Statement::CreateIndex(_) | Statement::AlterIndex { .. } | Statement::CreateSequence { .. }
        | Statement::CreateView(_) => definition_statement(s, source),
        Statement::CreateFunction(_) | Statement::DropFunction(_) | Statement::DropProcedure { .. }
        | Statement::CreateTrigger(_) | Statement::DropTrigger(_) | Statement::Call(_) => routine_statement(s, source),
        Statement::Insert(_) | Statement::Merge(_) | Statement::Query(_) | Statement::Update(_)
        | Statement::Delete(_) => data_statement(s, source),
        Statement::Explain { analyze, verbose, query_plan, estimate, statement, format, options, .. } => if analyze || verbose || query_plan
            || estimate || format is Some || options is Some {
            Err(unsupported_error("EXPLAIN options and EXPLAIN ANALYZE are not supported yet"@, None))
        } else {
            match converted_statement(*statement, source) {
                Err(x) => Err(x),
                Ok(statement) => Ok(ParsedStatementView::Explain { statement: Box::new(statement) }),
            }
        },
        _ => Err(unsupported_error("SQL statement is not supported in this milestone"@, None)),
    }
}

/// Takes over a statement of the syntax tree.
pub(crate) fn convert_statement(s: &Statement, source: &Source) -> (r: Result<ParsedStatement>)
    requires
        statement_written(*s),
    ensures
        statement_result(r) == converted_statement(*s, source@),
    decreases s,
{
    match s {
        Statement::StartTransaction { .. } | Statement::Commit { .. } | Statement::Rollback { .. }
        | Statement::Savepoint { .. } | Statement::ReleaseSavepoint { .. } => convert_transaction_statement(s, source),
        Statement::Analyze(_) | Statement::Vacuum(_) | Statement::Discard { .. }
        | Statement::Deallocate { .. } => convert_maintenance_statement(s, source),
        Statement::CreateSchema { .. } | Statement::AlterSchema(_) => convert_schema_statement(s, source),
        Statement::CreateType { .. } | Statement::AlterType(_) => convert_type_statement(s, source),
        Statement::Drop { .. } => convert_drop_statement(s, source),
        Statement::CreateDomain(_) | Statement::CreateTable(_) | Statement::AlterTable(_)
        | Statement::CreateIndex(_) | Statement::AlterIndex { .. } | Statement::CreateSequence { .. }
        | Statement::CreateView(_) => convert_definition_statement(s, source),
        Statement::CreateFunction(_) | Statement::DropFunction(_) | Statement::DropProcedure { .. }
        | Statement::CreateTrigger(_) | Statement::DropTrigger(_) | Statement::Call(_) => convert_routine_statement(s, source),
        Statement::Insert(_) | Statement::Merge(_) | Statement::Query(_) | Statement::Update(_)
        | Statement::Delete(_) => convert_data_statement(s, source),
        Statement::Explain { analyze, verbose, query_plan, estimate, statement, format, options, .. } => {
            if *analyze || *verbose || *query_plan || *estimate || format.is_some() || options.is_some() {
                return Err(unsupported("EXPLAIN options and EXPLAIN ANALYZE are not supported yet"));
            }
            let statement = convert_statement(statement, source)?;
            Ok(make_statement(ParsedStatement::Explain { statement: Box::new(statement) }))
        },
        _ => Err(unsupported("SQL statement is not supported in this milestone")),
    }
}

} // verus!
