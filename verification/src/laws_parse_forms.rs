//! No clause is lost: a statement with a clause that has no place in the syntax tree is
//! refused, and what has a place is kept.

use sqlparser::ast::{
    ArgMode, CreateFunction, CreateIndex, CreateTable, CreateTrigger, CreateView, Delete, Distinct, DropTrigger, GroupByExpr, Insert,
    OperateFunctionArg, Query, Select, Statement, TableFactor, TableWithJoins, TriggerEvent as SqlTriggerEvent, TriggerObject,
    TriggerObjectKind, Update,
};
use vstd::prelude::*;

use crate::catalog::TriggerEvent;
use crate::convert_ddl::{
    create_index_of, create_table_of, create_view_of, index_columns_of, index_method_of, unusual_table, unusual_view, view_columns_of,
};
use crate::convert_dml::{delete_of, insert_of, unusual_delete, unusual_insert, unusual_update, update_of};
use crate::convert_parts::{distinct_of, extended, plain_table_of, table_alias, table_of, PageView};
use crate::convert_routine::{
    argument_of, create_function_of, create_trigger_of, drop_trigger_of, event_of, events_of, some_arguments_of, timing_of,
    unusual_function, unusual_trigger,
};
use crate::convert_rules::{
    converted_query, fetch_of, page_of, select_of, unfold_converted_query, unfold_fetch_of, unfold_groups_of, unfold_page_of,
    unfold_select_of,
};
use crate::convert_statement::{converted_statement, data_statement, definition_statement, routine_statement};
use crate::laws_parse::{asks_for, says};
use crate::source::{ident_of, object_name_of, single_name_of, SourceView};
use crate::sql_types::column_type_of;
use crate::syntax::ParsedObjectNameView;
use crate::types::DbErrorView;

verus! {

/// Whether a table is named without anything else that a FROM clause may say of one.
pub open spec fn plainly_named(t: TableFactor, sql: Seq<char>, name: ParsedObjectNameView) -> bool {
    t matches TableFactor::Table {
        name: n,
        args,
        with_hints,
        version,
        with_ordinality,
        partitions,
        json_path,
        sample,
        index_hints,
        ..
    } && object_name_of(n, sql) == Ok::<_, DbErrorView>(name) && args is None && with_hints@.len() == 0 && version is None
        && !with_ordinality && partitions@.len() == 0 && json_path is None && sample is None && index_hints@.len() == 0
}

/// The table of a statement is the one that was named, without joins and alias; that of a
/// FROM clause keeps its alias.
pub proof fn lemma_tables_kept(t: TableWithJoins, f: TableFactor, sql: Seq<char>)
    ensures
        plain_table_of(t, sql) matches Ok(name) ==> t.joins@.len() == 0 && plainly_named(t.relation, sql, name) && (
        t.relation matches TableFactor::Table { alias, .. } && alias is None),
        table_of(f, sql) matches Ok(r) ==> plainly_named(f, sql, r.name) && (f matches TableFactor::Table { alias, .. } && (alias is Some
            <==> r.alias is Some) && (alias is Some ==> r.alias->0 == ident_of(alias->0.name, sql) && alias->0.columns@.len() == 0)),
{
    reveal(plain_table_of);
    reveal(table_of);
    reveal(table_alias);
}

/// A DELETE that is taken over has no USING, no further tables, no ORDER BY and no LIMIT.
pub proof fn lemma_delete_forms(s: Delete, source: SourceView)
    ensures
        converted_statement(Statement::Delete(s), source) is Ok ==> s.using is None && s.tables@.len() == 0 && s.order_by@.len() == 0
            && s.limit is None && s.output is None && s.optimizer_hints@.len() == 0,
{
    reveal(data_statement);
    reveal(delete_of);
    reveal(unusual_delete);
}

/// An UPDATE that is taken over has no FROM, no OR, no ORDER BY and no LIMIT.
pub proof fn lemma_update_forms(s: Update, source: SourceView)
    ensures
        converted_statement(Statement::Update(s), source) is Ok ==> s.from is None && s.or is None && s.order_by@.len() == 0 && s.limit is None
            && s.output is None && s.optimizer_hints@.len() == 0,
{
    reveal(data_statement);
    reveal(update_of);
    reveal(unusual_update);
}

/// An INSERT that is taken over has no OR, IGNORE, OVERWRITE, REPLACE, alias or SET list.
pub proof fn lemma_insert_forms(s: Insert, source: SourceView)
    ensures
        converted_statement(Statement::Insert(s), source) is Ok ==> {
            &&& s.or is None
            &&& !s.ignore
            &&& !s.overwrite
            &&& !s.replace_into
            &&& s.table_alias is None
            &&& s.insert_alias is None
            &&& s.assignments@.len() == 0
            &&& s.partitioned is None
            &&& s.after_columns@.len() == 0
            &&& s.priority is None
            &&& s.multi_table_into_clauses@.len() == 0
            &&& s.multi_table_when_clauses@.len() == 0
            &&& s.multi_table_else_clause is None
        },
{
    reveal(data_statement);
    reveal(insert_of);
    reveal(unusual_insert);
}

/// A SELECT that is taken over has at most one relation before its joins, no DISTINCT ON,
/// INTO, QUALIFY, PREWHERE, CONNECT BY, CLUSTER BY, SORT BY or LATERAL VIEW, and groups by
/// plain expressions.
pub proof fn lemma_select_forms(s: Select, top_taken: bool, page: PageView, sql: Seq<char>)
    ensures
        select_of(s, top_taken, page, sql) is Ok ==> {
            &&& s.from@.len() <= 1
            &&& s.distinct is None || s.distinct == Some(Distinct::All) || s.distinct == Some(Distinct::Distinct)
            &&& !top_taken ==> s.top is None
            &&& s.into is None
            &&& s.qualify is None
            &&& s.prewhere is None
            &&& s.connect_by@.len() == 0
            &&& s.cluster_by@.len() == 0
            &&& s.distribute_by@.len() == 0
            &&& s.sort_by@.len() == 0
            &&& s.lateral_views@.len() == 0
            &&& s.exclude is None
            &&& s.value_table_mode is None
            &&& s.from@.len() == 1 ==> (s.group_by matches GroupByExpr::Expressions(_, modifiers) && modifiers@.len() == 0)
        },
{
    unfold_select_of(s, top_taken, page, sql);
    reveal(distinct_of);
    reveal(extended);
    crate::convert_rules::unfold_clauses_of(s, page, sql);
    unfold_groups_of(s.group_by, sql);
}

/// A query that is taken over has no locks, no FOR, SETTINGS or FORMAT clause and no pipes.
/// It has at most one row limit, which keeps no ties and is no percentage.
pub proof fn lemma_query_forms(q: Query, sql: Seq<char>)
    ensures
        converted_query(q, sql) is Ok ==> {
            &&& q.locks@.len() == 0
            &&& q.for_clause is None
            &&& q.settings is None
            &&& q.format_clause is None
            &&& q.pipe_operators@.len() == 0
            &&& q.fetch is Some ==> !q.fetch->0.with_ties && !q.fetch->0.percent
            &&& q.fetch is Some ==> (page_of(q, sql) matches Ok(p) && fetch_of(q.fetch, sql) == Ok::<_, DbErrorView>(p.limit))
            &&& q.fetch matches Some(f) ==> (f.quantity matches Some(e) ==> (page_of(q, sql) matches Ok(p) && p.limit is Some && says(
                e,
                sql,
                p.limit->0,
            )))
        },
{
    unfold_converted_query(q, sql);
    unfold_page_of(q, sql);
    unfold_fetch_of(q.fetch, sql);
    reveal(crate::convert_parts::one_limit);
}

/// A CREATE TABLE that is taken over is of a plain table: not temporary, replacing, from a
/// query, LIKE another, inheriting or partitioned.
pub proof fn lemma_create_table_forms(s: CreateTable, source: SourceView)
    ensures
        converted_statement(Statement::CreateTable(s), source) is Ok ==> !s.or_replace && !s.temporary && !s.external && s.query is None
            && s.like is None && s.clone is None && s.inherits is None && s.partition_by is None && s.partition_of is None
            && s.on_commit is None && !s.without_rowid && !s.strict && s.primary_key is None,
{
    reveal(definition_statement);
    reveal(create_table_of);
    reveal(unusual_table);
}

/// A CREATE VIEW keeps its name, whether it is materialized, its query, its REPLACE and its
/// IF NOT EXISTS.
pub proof fn lemma_create_view_kept(s: CreateView, source: SourceView)
    ensures
        converted_statement(Statement::CreateView(s), source) matches Ok(st) ==> {
            &&& st is CreateView
            &&& object_name_of(s.name, source.sql) == Ok::<_, DbErrorView>(st->CreateView_name)
            &&& s.materialized <==> st->CreateView_kind is Materialized
            &&& asks_for(*s.query, source.sql, *st->CreateView_query)
            &&& view_columns_of(s.columns@, source.sql, 0, Seq::empty()) == Ok::<_, DbErrorView>(st->CreateView_columns)
            &&& st->CreateView_replace == s.or_replace
            &&& st->CreateView_if_not_exists == s.if_not_exists
            &&& !(s.or_replace && s.if_not_exists)
            &&& !(s.or_replace && s.materialized)
            &&& !s.temporary
            &&& s.to is None
        },
{
    reveal(definition_statement);
    reveal(create_view_of);
    reveal(unusual_view);
}

/// A CREATE INDEX keeps its name, its table, its columns, UNIQUE and IF NOT EXISTS, has no
/// predicate, and is a tree unless another method was named.
pub proof fn lemma_create_index_kept(s: CreateIndex, source: SourceView)
    ensures
        converted_statement(Statement::CreateIndex(s), source) matches Ok(st) ==> {
            &&& st is CreateIndex
            &&& s.name is Some && single_name_of(s.name->0, source.sql) == Ok::<_, DbErrorView>(st->CreateIndex_0.name)
            &&& object_name_of(s.table_name, source.sql) == Ok::<_, DbErrorView>(st->CreateIndex_0.table)
            &&& index_columns_of(s.columns@, source.sql, 0, Seq::empty()) == Ok::<_, DbErrorView>(st->CreateIndex_0.key_columns)
            &&& st->CreateIndex_0.unique == s.unique
            &&& st->CreateIndex_0.if_not_exists == s.if_not_exists
            &&& s.using is None ==> st->CreateIndex_0.method is BTree
            &&& s.predicate is None
            &&& !s.concurrently
            &&& s.nulls_distinct is None
        },
{
    reveal(definition_statement);
    reveal(create_index_of);
    reveal(index_method_of);
}

/// Whether a trigger waits for what was written.
pub open spec fn same_event(written: SqlTriggerEvent, e: TriggerEvent) -> bool {
    &&& written is Insert <==> e is Insert
    &&& written is Update <==> e is Update
    &&& written is Delete <==> e is Delete
}

proof fn lemma_events_from(l: Seq<SqlTriggerEvent>, i: int, done: Seq<TriggerEvent>)
    requires
        0 <= i <= l.len(),
        done.len() == i,
        forall|k: int| 0 <= k < i ==> same_event(#[trigger] l[k], done[k]),
    ensures
        events_of(l, i, done) matches Ok(r) ==> r.len() == l.len() && forall|k: int| 0 <= k < l.len() ==> same_event(#[trigger] l[k], r[k]),
    decreases l.len() - i,
{
    reveal(event_of);
    if i < l.len() {
        if let Ok(e) = event_of(l[i]) {
            let next = done.push(e);
            assert forall|k: int| 0 <= k < i + 1 implies same_event(#[trigger] l[k], next[k]) by {
                if k < i {
                    assert(next[k] == done[k]);
                }
            }
            lemma_events_from(l, i + 1, next);
        }
    }
}

/// A CREATE TRIGGER keeps its name, its table, its function, when it fires, how often and
/// for what, and has no condition.
pub proof fn lemma_create_trigger_kept(s: CreateTrigger, source: SourceView)
    ensures
        converted_statement(Statement::CreateTrigger(s), source) matches Ok(st) ==> {
            &&& st is CreateTrigger
            &&& object_name_of(s.name, source.sql) matches Ok(n) && n.parts.len() == 1 && n.parts[0] == st->CreateTrigger_name
            &&& object_name_of(s.table_name, source.sql) == Ok::<_, DbErrorView>(st->CreateTrigger_table)
            &&& s.period matches Some(p) && (p is Before <==> st->CreateTrigger_timing is Before
                || st->CreateTrigger_timing is BeforeStatement) && (p is After <==> st->CreateTrigger_timing is After
                || st->CreateTrigger_timing is AfterStatement) && (p is InsteadOf <==> st->CreateTrigger_timing is InsteadOf)
            &&& st->CreateTrigger_level is Row <==> (s.trigger_object == Some(TriggerObjectKind::ForEach(TriggerObject::Row))
                || s.trigger_object == Some(TriggerObjectKind::For(TriggerObject::Row)))
            &&& st->CreateTrigger_events.len() == s.events@.len()
            &&& forall|k: int| 0 <= k < s.events@.len() ==> same_event(#[trigger] s.events@[k], st->CreateTrigger_events[k])
            &&& s.condition is None
            &&& !s.or_replace
            &&& !s.is_constraint
        },
{
    reveal(routine_statement);
    reveal(create_trigger_of);
    reveal(unusual_trigger);
    reveal(timing_of);
    lemma_events_from(s.events@, 0, Seq::empty());
}

/// An argument of a routine keeps its type and the way in which it is passed, and has no
/// default.
pub proof fn lemma_argument_kept(a: OperateFunctionArg, sql: Seq<char>)
    ensures
        argument_of(a, sql) matches Ok(r) ==> {
            &&& column_type_of(a.data_type, sql) == Ok::<_, DbErrorView>((r.data_type, r.declared_type))
            &&& a.mode is None || a.mode == Some(ArgMode::In) <==> r.mode is In
            &&& a.mode == Some(ArgMode::Out) <==> r.mode is Out
            &&& a.mode == Some(ArgMode::InOut) <==> r.mode is InOut
            &&& a.mode == Some(ArgMode::Variadic) <==> r.mode is Variadic
            &&& a.default_expr is None
        },
{
    reveal(argument_of);
}

/// A CREATE FUNCTION keeps its name, its arguments and its REPLACE, and is a function.
pub proof fn lemma_create_function_kept(s: CreateFunction, source: SourceView)
    ensures
        converted_statement(Statement::CreateFunction(s), source) matches Ok(st) ==> {
            &&& st is CreateRoutine
            &&& st->CreateRoutine_kind is Function
            &&& object_name_of(s.name, source.sql) == Ok::<_, DbErrorView>(st->CreateRoutine_name)
            &&& some_arguments_of(s.args, source.sql) == Ok::<_, DbErrorView>(st->CreateRoutine_arguments)
            &&& st->CreateRoutine_replace == s.or_replace
            &&& !s.temporary
            &&& !s.if_not_exists
        },
{
    reveal(routine_statement);
    reveal(create_function_of);
    reveal(unusual_function);
}

/// A DROP TRIGGER keeps its name, its table and its IF EXISTS.
pub proof fn lemma_drop_trigger_kept(s: DropTrigger, source: SourceView)
    ensures
        converted_statement(Statement::DropTrigger(s), source) matches Ok(st) ==> {
            &&& st is DropTrigger
            &&& object_name_of(s.trigger_name, source.sql) matches Ok(n) && n.parts.len() == 1 && n.parts[0] == st->DropTrigger_name
            &&& s.table_name is Some && object_name_of(s.table_name->0, source.sql) == Ok::<_, DbErrorView>(st->DropTrigger_table)
            &&& st->DropTrigger_if_exists == s.if_exists
        },
{
    reveal(routine_statement);
    reveal(drop_trigger_of);
}

} // verus!
