//! What the syntax tree of a statement that changes data keeps of what was written.

use sqlparser::ast::{
    Assignment, AssignmentTarget, ConflictTarget, Delete, Expr, FromTable, Insert, Merge, MergeAction, MergeClause, MergeInsertKind,
    ObjectName, OnConflictAction, OnInsert, OutputClause, Parens, Query, SelectItem, SetExpr, Statement, TableObject, Update,
};
use vstd::prelude::*;

use crate::convert_dml::{
    assignment_of, assignments_of, conflict_action_of, conflict_of, conflict_target_of, delete_of, insert_of, merge_action_of,
    merge_clause_of, merge_clauses_of, merge_of, merge_output, merge_values, returning_items, rows_of, single_names_of, update_of,
    values_of,
};
use crate::convert_parts::{plain_table_of, table_of};
use crate::convert_rules::{converted_exprs, unfold_converted_some};
use crate::convert_statement::{converted_statement, data_statement};
use crate::laws_parse::{asks_for, lemma_items_kept, lemma_list_kept, same_item, says, says_if_any};
use crate::merge_tokens::{merge_info, MergeClauseTokenInfo};
use crate::source::{object_name_of, single_name_of, SourceView};
use crate::syntax::{ParsedExprView, ParsedIdentifierView, ParsedMergeClauseView, ParsedOnConflictView, ParsedProjectionView};
use crate::types::DbErrorView;

verus! {

/// Whether assignments are those that were written, each value to its column.
pub open spec fn same_assignments(l: Seq<Assignment>, sql: Seq<char>, r: Seq<(ParsedIdentifierView, ParsedExprView)>) -> bool {
    &&& l.len() == r.len()
    &&& forall|k: int|
        0 <= k < l.len() ==> says((#[trigger] l[k]).value, sql, r[k].1) && (l[k].target matches AssignmentTarget::ColumnName(name)
            && single_name_of(name, sql) == Ok::<_, DbErrorView>(r[k].0))
}

proof fn lemma_assignments_from(l: Seq<Assignment>, sql: Seq<char>, i: int, done: Seq<(ParsedIdentifierView, ParsedExprView)>)
    requires
        0 <= i <= l.len(),
        same_assignments(l.take(i), sql, done),
    ensures
        assignments_of(l, sql, i, done) matches Ok(r) ==> same_assignments(l, sql, r),
    decreases l.len() - i,
{
    if i >= l.len() {
        assert(l.take(i) =~= l);
    } else {
        reveal(assignment_of);
        if let Ok(b) = assignment_of(l[i], sql) {
            let prefix = l.take(i + 1);
            let next = done.push(b);
            assert forall|k: int| 0 <= k < prefix.len() implies says((#[trigger] prefix[k]).value, sql, next[k].1) && (
            prefix[k].target matches AssignmentTarget::ColumnName(name) && single_name_of(name, sql) == Ok::<_, DbErrorView>(next[k].0)) by {
                if k < i {
                    assert(prefix[k] == l.take(i)[k]);
                    assert(next[k] == done[k]);
                }
            }
            lemma_assignments_from(l, sql, i + 1, next);
        }
    }
}

/// A SET list keeps its assignments and their order.
pub proof fn lemma_assignments_kept(l: Seq<Assignment>, sql: Seq<char>)
    ensures
        assignments_of(l, sql, 0, Seq::empty()) matches Ok(r) ==> same_assignments(l, sql, r),
{
    assert(l.take(0) =~= Seq::empty());
    lemma_assignments_from(l, sql, 0, Seq::empty());
}

/// Whether names are those that were written, in order.
pub open spec fn same_names(l: Seq<ObjectName>, sql: Seq<char>, r: Seq<ParsedIdentifierView>) -> bool {
    &&& l.len() == r.len()
    &&& forall|k: int| 0 <= k < l.len() ==> single_name_of(#[trigger] l[k], sql) == Ok::<_, DbErrorView>(r[k])
}

proof fn lemma_names_from(l: Seq<ObjectName>, sql: Seq<char>, i: int, done: Seq<ParsedIdentifierView>)
    requires
        0 <= i <= l.len(),
        same_names(l.take(i), sql, done),
    ensures
        single_names_of(l, sql, i, done) matches Ok(r) ==> same_names(l, sql, r),
    decreases l.len() - i,
{
    if i >= l.len() {
        assert(l.take(i) =~= l);
    } else if let Ok(b) = single_name_of(l[i], sql) {
        let prefix = l.take(i + 1);
        let next = done.push(b);
        assert forall|k: int| 0 <= k < prefix.len() implies single_name_of(#[trigger] prefix[k], sql) == Ok::<_, DbErrorView>(next[k]) by {
            if k < i {
                assert(prefix[k] == l.take(i)[k]);
                assert(next[k] == done[k]);
            }
        }
        lemma_names_from(l, sql, i + 1, next);
    }
}

/// Whether rows are those that were written, value by value.
pub open spec fn same_rows(l: Seq<Parens<Vec<Expr>>>, sql: Seq<char>, r: Seq<Seq<ParsedExprView>>) -> bool {
    &&& l.len() == r.len()
    &&& forall|k: int| 0 <= k < l.len() ==> same_values((#[trigger] l[k]).content@, sql, r[k])
}

/// Whether values are those that were written, in order.
pub open spec fn same_values(l: Seq<Expr>, sql: Seq<char>, r: Seq<ParsedExprView>) -> bool {
    &&& l.len() == r.len()
    &&& forall|k: int| 0 <= k < l.len() ==> says(#[trigger] l[k], sql, r[k])
}

proof fn lemma_rows_from(l: Seq<Parens<Vec<Expr>>>, sql: Seq<char>, i: int, done: Seq<Seq<ParsedExprView>>)
    requires
        0 <= i <= l.len(),
        same_rows(l.take(i), sql, done),
    ensures
        rows_of(l, sql, i, done) matches Ok(r) ==> same_rows(l, sql, r),
    decreases l.len() - i,
{
    if i >= l.len() {
        assert(l.take(i) =~= l);
    } else {
        lemma_list_kept(l[i].content@, sql);
        if let Ok(b) = converted_exprs(l[i].content@, sql, 0, Seq::empty()) {
            let prefix = l.take(i + 1);
            let next = done.push(b);
            assert forall|k: int| 0 <= k < prefix.len() implies same_values((#[trigger] prefix[k]).content@, sql, next[k]) by {
                if k < i {
                    assert(prefix[k] == l.take(i)[k]);
                    assert(next[k] == done[k]);
                }
            }
            lemma_rows_from(l, sql, i + 1, next);
        }
    }
}

/// Whether a RETURNING list is the one that was written; none where none was.
pub open spec fn same_returning(l: Option<Vec<SelectItem>>, sql: Seq<char>, r: Seq<ParsedProjectionView>) -> bool {
    match l {
        None => r.len() == 0,
        Some(l) => r.len() == l@.len() && forall|k: int| 0 <= k < r.len() ==> same_item(#[trigger] l@[k], sql, r[k]),
    }
}

proof fn lemma_returning_kept(l: Option<Vec<SelectItem>>, sql: Seq<char>)
    ensures
        returning_items(l, sql) matches Ok(r) ==> same_returning(l, sql, r),
{
    reveal(returning_items);
    if let Some(l) = l {
        lemma_items_kept(l@, sql);
    }
}

/// A DELETE keeps its table, its WHERE and its RETURNING.
pub proof fn lemma_delete_kept(s: Delete, source: SourceView)
    ensures
        converted_statement(Statement::Delete(s), source) matches Ok(st) ==> {
            &&& st is Delete
            &&& says_if_any(s.selection, source.sql, st->Delete_filter)
            &&& same_returning(s.returning, source.sql, st->Delete_returning)
            &&& s.from matches FromTable::WithFromKeyword(tables) && tables@.len() == 1 && plain_table_of(tables@[0], source.sql)
                == Ok::<_, DbErrorView>(st->Delete_table)
        },
{
    reveal(data_statement);
    reveal(delete_of);
    lemma_returning_kept(s.returning, source.sql);
    unfold_converted_some(s.selection, source.sql);
}

/// An UPDATE keeps its table, its assignments, its WHERE and its RETURNING.
pub proof fn lemma_update_kept(s: Update, source: SourceView)
    ensures
        converted_statement(Statement::Update(s), source) matches Ok(st) ==> {
            &&& st is Update
            &&& plain_table_of(s.table, source.sql) == Ok::<_, DbErrorView>(st->Update_table)
            &&& same_assignments(s.assignments@, source.sql, st->Update_assignments)
            &&& says_if_any(s.selection, source.sql, st->Update_filter)
            &&& same_returning(s.returning, source.sql, st->Update_returning)
        },
{
    reveal(data_statement);
    reveal(update_of);
    lemma_returning_kept(s.returning, source.sql);
    lemma_assignments_kept(s.assignments@, source.sql);
    unfold_converted_some(s.selection, source.sql);
}

/// Whether an ON CONFLICT clause is the one that was written.
pub open spec fn same_conflict(on: Option<OnInsert>, sql: Seq<char>, r: Option<ParsedOnConflictView>) -> bool {
    match on {
        Some(OnInsert::OnConflict(c)) => {
            &&& r is Some
            &&& c.conflict_target is Some <==> r->0.target is Some
            &&& c.conflict_target matches Some(ConflictTarget::Columns(l)) ==> r->0.target->0 is Columns && r->0.target->0->Columns_0
                == crate::source::idents_of(l@, sql)
            &&& c.conflict_target matches Some(ConflictTarget::OnConstraint(name)) ==> r->0.target->0 is Constraint && object_name_of(
                name,
                sql,
            ) == Ok::<_, DbErrorView>(r->0.target->0->Constraint_0)
            &&& match c.action {
                OnConflictAction::DoNothing => r->0.action is DoNothing,
                OnConflictAction::DoUpdate(u) => r->0.action is DoUpdate && same_assignments(
                    u.assignments@,
                    sql,
                    r->0.action->DoUpdate_assignments,
                ) && says_if_any(u.selection, sql, r->0.action->DoUpdate_filter),
            }
        },
        None => r is None,
        _ => false,
    }
}

proof fn lemma_conflict_kept(on: Option<OnInsert>, sql: Seq<char>)
    ensures
        conflict_of(on, sql) matches Ok(r) ==> same_conflict(on, sql, r),
{
    reveal(conflict_of);
    reveal(conflict_action_of);
    reveal(conflict_target_of);
    if let Some(OnInsert::OnConflict(c)) = on {
        if let OnConflictAction::DoUpdate(u) = c.action {
            lemma_assignments_kept(u.assignments@, sql);
            unfold_converted_some(u.selection, sql);
        }
    }
}

/// An INSERT keeps its table, its columns, its rows, its ON CONFLICT and its RETURNING.
pub proof fn lemma_insert_kept(s: Insert, source: SourceView)
    ensures
        converted_statement(Statement::Insert(s), source) matches Ok(st) ==> {
            &&& st is Insert
            &&& s.table matches TableObject::TableName(name) && object_name_of(name, source.sql) == Ok::<_, DbErrorView>(st->Insert_table)
            &&& same_names(s.columns@, source.sql, st->Insert_columns)
            &&& s.source is Some
            &&& *s.source->0.body matches SetExpr::Values(v) && same_rows(v.rows@, source.sql, st->Insert_rows)
            &&& same_conflict(s.on, source.sql, st->Insert_on_conflict)
            &&& same_returning(s.returning, source.sql, st->Insert_returning)
        },
{
    reveal(data_statement);
    reveal(insert_of);
    reveal(values_of);
    lemma_returning_kept(s.returning, source.sql);
    lemma_conflict_kept(s.on, source.sql);
    assert(s.columns@.take(0) =~= Seq::empty());
    lemma_names_from(s.columns@, source.sql, 0, Seq::empty());
    if let Some(q) = s.source {
        if let SetExpr::Values(v) = *q.body {
            assert(v.rows@.take(0) =~= Seq::empty());
            lemma_rows_from(v.rows@, source.sql, 0, Seq::empty());
        }
    }
}

/// Whether a clause of a MERGE is the one that was written. A clause whose tokens say DO
/// NOTHING does nothing.
pub open spec fn same_merge_clause(c: MergeClause, nothing: bool, sql: Seq<char>, r: ParsedMergeClauseView) -> bool {
    &&& c.clause_kind is Matched <==> r.kind is Matched
    &&& c.clause_kind is NotMatchedBySource <==> r.kind is NotMatchedBySource
    &&& c.clause_kind is NotMatched || c.clause_kind is NotMatchedByTarget <==> r.kind is NotMatchedByTarget
    &&& says_if_any(c.predicate, sql, r.predicate)
    &&& if nothing {
        r.action is DoNothing
    } else {
        match c.action {
            MergeAction::Update(u) => r.action is Update && same_assignments(u.assignments@, sql, r.action->Update_assignments),
            MergeAction::Delete { .. } => r.action is Delete,
            MergeAction::Insert(i) => r.action is Insert && same_names(i.columns@, sql, r.action->Insert_columns) && (
            i.kind matches MergeInsertKind::Values(v) && v.rows@.len() == 1 && same_values(v.rows@[0].content@, sql, r.action->Insert_values)),
        }
    }
}

proof fn lemma_merge_clause_kept(c: MergeClause, nothing: bool, sql: Seq<char>)
    ensures
        merge_clause_of(c, nothing, sql) matches Ok(r) ==> same_merge_clause(c, nothing, sql, r),
{
    reveal(merge_clause_of);
    reveal(merge_action_of);
    reveal(merge_values);
    unfold_converted_some(c.predicate, sql);
    match c.action {
        MergeAction::Update(u) => lemma_assignments_kept(u.assignments@, sql),
        MergeAction::Insert(i) => {
            assert(i.columns@.take(0) =~= Seq::empty());
            lemma_names_from(i.columns@, sql, 0, Seq::empty());
            if let MergeInsertKind::Values(v) = i.kind {
                if v.rows@.len() == 1 {
                    lemma_list_kept(v.rows@[0].content@, sql);
                }
            }
        },
        _ => {},
    }
}

proof fn lemma_merge_clauses_from(
    l: Seq<MergeClause>,
    told: Seq<MergeClauseTokenInfo>,
    sql: Seq<char>,
    i: int,
    done: Seq<ParsedMergeClauseView>,
)
    requires
        0 <= i <= l.len(),
        done.len() == i,
        forall|k: int| 0 <= k < i ==> same_merge_clause(#[trigger] l[k], told[k].do_nothing is Some, sql, done[k]),
    ensures
        merge_clauses_of(l, told, sql, i, done) matches Ok(r) ==> r.len() == l.len() && forall|k: int|
            0 <= k < l.len() ==> same_merge_clause(#[trigger] l[k], told[k].do_nothing is Some, sql, r[k]),
    decreases l.len() - i,
{
    if i < l.len() {
        lemma_merge_clause_kept(l[i], told[i].do_nothing is Some, sql);
        if let Ok(b) = merge_clause_of(l[i], told[i].do_nothing is Some, sql) {
            let next = done.push(b);
            assert forall|k: int| 0 <= k < i + 1 implies same_merge_clause(#[trigger] l[k], told[k].do_nothing is Some, sql, next[k]) by {
                if k < i {
                    assert(next[k] == done[k]);
                }
            }
            lemma_merge_clauses_from(l, told, sql, i + 1, next);
        }
    }
}

/// A MERGE keeps its target and its source, its condition, its clauses in their order and
/// its RETURNING.
pub proof fn lemma_merge_kept(m: Merge, source: SourceView)
    ensures
        converted_statement(Statement::Merge(m), source) matches Ok(st) ==> {
            &&& st is Merge
            &&& table_of(m.table, source.sql) == Ok::<_, DbErrorView>(st->Merge_0.target)
            &&& table_of(m.source, source.sql) == Ok::<_, DbErrorView>(st->Merge_0.source)
            &&& says(*m.on, source.sql, st->Merge_0.on)
            &&& st->Merge_0.clauses.len() == m.clauses@.len()
            &&& merge_info(source.tokens) is Some
            &&& forall|k: int|
                0 <= k < m.clauses@.len() ==> same_merge_clause(
                    #[trigger] m.clauses@[k],
                    merge_info(source.tokens)->0[k].do_nothing is Some,
                    source.sql,
                    st->Merge_0.clauses[k],
                )
            &&& m.output is None ==> st->Merge_0.returning.len() == 0
            &&& m.output matches Some(OutputClause::Returning { select_items, .. }) ==> st->Merge_0.returning.len() == select_items@.len()
                && forall|k: int|
                0 <= k < select_items@.len() ==> same_item(#[trigger] select_items@[k], source.sql, st->Merge_0.returning[k])
        },
{
    reveal(data_statement);
    reveal(merge_of);
    reveal(merge_output);
    if let Some(OutputClause::Returning { select_items, .. }) = m.output {
        lemma_items_kept(select_items@, source.sql);
    }
    if let Some(told) = merge_info(source.tokens) {
        lemma_merge_clauses_from(m.clauses@, told, source.sql, 0, Seq::empty());
    }
}

/// A query that is a statement is taken over as that query.
pub proof fn lemma_query_kept(q: Query, source: SourceView)
    ensures
        converted_statement(Statement::Query(Box::new(q)), source) matches Ok(st) ==> asks_for(q, source.sql, st),
{
    reveal(data_statement);
}

} // verus!
