//! Takes over statements that change data from a syntax tree.

use sqlparser::ast::{
    Assignment, AssignmentTarget, ConflictTarget, Delete, Expr, FromTable, Insert, Merge, MergeAction, MergeClause, MergeClauseKind,
    MergeInsertKind, ObjectName, OnConflictAction, OnInsert, OutputClause, Parens, Query, SelectItem, SetExpr, TableObject, Update,
};
use vstd::prelude::*;

use crate::convert::{convert_expr, convert_exprs, convert_projection_items, convert_some};
use crate::convert_parts::{convert_select_table, convert_table_with_joins, plain_table_of, table_of};
use crate::convert_rules::{converted_expr, converted_exprs, converted_some, items_of};
use crate::merge_tokens::{merge_clause_token_info, merge_info, MergeClauseTokenInfo};
use crate::rewrite::make_statement;
use crate::scope::Checked;
use crate::solver::conflict_view;
use crate::source::{
    convert_idents, convert_object_name, convert_single_identifier, idents_of, object_name_of, single_name_of, Source, SourceView,
};
use crate::syntax::{
    assignment_views, expr_rows, ParsedConflictAction, ParsedConflictActionView, ParsedConflictTarget, ParsedConflictTargetView, ParsedExpr,
    ParsedExprView, ParsedIdentifier, ParsedIdentifierView, ParsedMerge, ParsedMergeAction, ParsedMergeActionView, ParsedMergeClause,
    ParsedMergeClauseKind, ParsedMergeClauseView, ParsedMergeView, ParsedOnConflict, ParsedOnConflictView, ParsedProjection,
    ParsedProjectionView, ParsedStatement, ParsedStatementView, ParsedTable,
};
use crate::text::text;
use crate::types::{error, internal_error, unsupported, unsupported_error, DbError, Result, SYNTAX_ERROR};

verus! {

/// The contents of a conflict target that may be absent.
pub open spec fn target_view(t: Option<ParsedConflictTarget>) -> Option<ParsedConflictTargetView> {
    match t {
        Some(t) => Some(t@),
        None => None,
    }
}

fn make_conflict_action(a: ParsedConflictAction) -> (r: ParsedConflictAction)
    ensures
        r@ == a.shape(),
{
    proof {
        a.unfold();
    }
    a
}

fn make_on_conflict(target: Option<ParsedConflictTarget>, action: ParsedConflictAction) -> (r: ParsedOnConflict)
    ensures
        r@ == (ParsedOnConflictView { target: target_view(target), action: action@ }),
{
    let r = ParsedOnConflict { target, action };
    proof {
        r.unfold();
    }
    r
}

fn make_merge_action(a: ParsedMergeAction) -> (r: ParsedMergeAction)
    ensures
        r@ == a.shape(),
{
    proof {
        a.unfold();
    }
    a
}

fn make_merge_clause(kind: ParsedMergeClauseKind, predicate: Option<ParsedExpr>, action: ParsedMergeAction) -> (r: ParsedMergeClause)
    ensures
        r@ == (ParsedMergeClauseView { kind, predicate: crate::binding::some_view(predicate), action: action@ }),
{
    let r = ParsedMergeClause { kind, predicate, action };
    proof {
        r.unfold();
    }
    r
}

fn make_merge(
    target: ParsedTable,
    source: ParsedTable,
    on: ParsedExpr,
    clauses: Vec<ParsedMergeClause>,
    returning: Vec<ParsedProjection>,
) -> (r: ParsedStatement)
    ensures
        r@ == ParsedStatementView::Merge(
            ParsedMergeView {
                target: target@,
                source: source@,
                on: on@,
                clauses: ParsedMergeClause::views(clauses@),
                returning: ParsedProjection::views(returning@),
            },
        ),
{
    let m = ParsedMerge { target, source, on, clauses, returning };
    proof {
        m.unfold();
    }
    make_statement(ParsedStatement::Merge(m))
}

fn no_items() -> (r: Vec<ParsedProjection>)
    ensures
        ParsedProjection::views(r@) == Seq::<ParsedProjectionView>::empty(),
{
    let l: Vec<ParsedProjection> = Vec::new();
    assert(ParsedProjection::views(l@) =~= Seq::empty());
    l
}

/// When a MERGE clause applies.
pub open spec fn merge_kind(k: MergeClauseKind) -> ParsedMergeClauseKind {
    match k {
        MergeClauseKind::Matched => ParsedMergeClauseKind::Matched,
        MergeClauseKind::NotMatched | MergeClauseKind::NotMatchedByTarget => ParsedMergeClauseKind::NotMatchedByTarget,
        MergeClauseKind::NotMatchedBySource => ParsedMergeClauseKind::NotMatchedBySource,
    }
}

fn convert_merge_kind(k: &MergeClauseKind) -> (r: ParsedMergeClauseKind)
    ensures
        r == merge_kind(*k),
{
    match k {
        MergeClauseKind::Matched => ParsedMergeClauseKind::Matched,
        MergeClauseKind::NotMatched | MergeClauseKind::NotMatchedByTarget => ParsedMergeClauseKind::NotMatchedByTarget,
        MergeClauseKind::NotMatchedBySource => ParsedMergeClauseKind::NotMatchedBySource,
    }
}

/// An assignment.
#[verifier::opaque]
pub open spec fn assignment_of(a: Assignment, sql: Seq<char>) -> Checked<(ParsedIdentifierView, ParsedExprView)> {
    match a.target {
        AssignmentTarget::ColumnName(name) => match single_name_of(name, sql) {
            Err(x) => Err(x),
            Ok(column) => match converted_expr(a.value, sql) {
                Err(x) => Err(x),
                Ok(value) => Ok((column, value)),
            },
        },
        AssignmentTarget::Tuple(_) => Err(unsupported_error("tuple assignments are not supported yet"@, None)),
    }
}

/// Takes over an assignment.
fn convert_assignment(a: &Assignment, sql: &str) -> (r: Result<(ParsedIdentifier, ParsedExpr)>)
    ensures
        (match r {
            Ok(x) => Ok((x.0@, x.1@)),
            Err(x) => Err(x@),
        }) == assignment_of(*a, sql@),
{
    reveal(assignment_of);
    match &a.target {
        AssignmentTarget::ColumnName(name) => {
            let column = convert_single_identifier(name, sql)?;
            let value = convert_expr(&a.value, sql)?;
            Ok((column, value))
        },
        AssignmentTarget::Tuple(_) => {
            Err(unsupported("tuple assignments are not supported yet"))
        },
    }
}

/// Assignments, from one of them on.
pub open spec fn assignments_of(
    l: Seq<Assignment>,
    sql: Seq<char>,
    i: int,
    done: Seq<(ParsedIdentifierView, ParsedExprView)>,
) -> Checked<Seq<(ParsedIdentifierView, ParsedExprView)>>
    decreases l.len() - i,
{
    if i < 0 || i >= l.len() {
        Ok(done)
    } else {
        match assignment_of(l[i], sql) {
            Err(x) => Err(x),
            Ok(b) => assignments_of(l, sql, i + 1, done.push(b)),
        }
    }
}

/// Takes over assignments.
pub fn convert_assignments(l: &Vec<Assignment>, sql: &str) -> (r: Result<Vec<(ParsedIdentifier, ParsedExpr)>>)
    ensures
        (match r {
            Ok(x) => Ok(assignment_views(x@)),
            Err(x) => Err(x@),
        }) == assignments_of(l@, sql@, 0, Seq::empty()),
{
    let mut out: Vec<(ParsedIdentifier, ParsedExpr)> = Vec::new();
    assert(assignment_views(out@) =~= Seq::empty());
    for i in 0..l.len()
        invariant
            assignments_of(l@, sql@, 0, Seq::empty()) == assignments_of(l@, sql@, i as int, assignment_views(out@)),
    {
        let ghost before = assignment_views(out@);
        let x = convert_assignment(&l[i], sql)?;
        out.push(x);
        assert(assignment_views(out@) =~= before.push((x.0@, x.1@)));
    }
    Ok(out)
}

/// Dotted names that have to be single ones, from one of them on.
pub open spec fn single_names_of(
    l: Seq<ObjectName>,
    sql: Seq<char>,
    i: int,
    done: Seq<ParsedIdentifierView>,
) -> Checked<Seq<ParsedIdentifierView>>
    decreases l.len() - i,
{
    if i < 0 || i >= l.len() {
        Ok(done)
    } else {
        match single_name_of(l[i], sql) {
            Err(x) => Err(x),
            Ok(b) => single_names_of(l, sql, i + 1, done.push(b)),
        }
    }
}

/// Takes over dotted names that have to be single ones.
pub fn convert_single_identifiers(l: &Vec<ObjectName>, sql: &str) -> (r: Result<Vec<ParsedIdentifier>>)
    ensures
        (match r {
            Ok(x) => Ok(ParsedIdentifier::views(x@)),
            Err(x) => Err(x@),
        }) == single_names_of(l@, sql@, 0, Seq::empty()),
{
    let mut out: Vec<ParsedIdentifier> = Vec::new();
    assert(ParsedIdentifier::views(out@) =~= Seq::empty());
    for i in 0..l.len()
        invariant
            single_names_of(l@, sql@, 0, Seq::empty()) == single_names_of(l@, sql@, i as int, ParsedIdentifier::views(out@)),
    {
        let ghost before = ParsedIdentifier::views(out@);
        let x = convert_single_identifier(&l[i], sql)?;
        out.push(x);
        assert(ParsedIdentifier::views(out@) =~= before.push(x@));
    }
    Ok(out)
}

/// What to do about a conflict.
#[verifier::opaque]
pub open spec fn conflict_action_of(a: OnConflictAction, sql: Seq<char>) -> Checked<ParsedConflictActionView> {
    match a {
        OnConflictAction::DoNothing => Ok((ParsedConflictActionView::DoNothing)),
        OnConflictAction::DoUpdate(update) => match assignments_of(update.assignments@, sql, 0, Seq::empty()) {
            Err(x) => Err(x),
            Ok(assignments) => match converted_some(update.selection, sql) {
                Err(x) => Err(x),
                Ok(filter) => Ok((ParsedConflictActionView::DoUpdate { assignments, filter })),
            },
        },
    }
}

/// Takes over what to do about a conflict.
fn convert_conflict_action(a: &OnConflictAction, sql: &str) -> (r: Result<ParsedConflictAction>)
    ensures
        (match r {
            Ok(x) => Ok(x@),
            Err(x) => Err(x@),
        }) == conflict_action_of(*a, sql@),
{
    reveal(conflict_action_of);
    match a {
        OnConflictAction::DoNothing => {
            Ok(make_conflict_action(ParsedConflictAction::DoNothing))
        },
        OnConflictAction::DoUpdate(update) => {
            let assignments = convert_assignments(&update.assignments, sql)?;
            let filter = convert_some(&update.selection, sql)?;
            Ok(make_conflict_action(ParsedConflictAction::DoUpdate { assignments, filter }))
        },
    }
}

/// What a conflict is about.
#[verifier::opaque]
pub open spec fn conflict_target_of(t: Option<ConflictTarget>, sql: Seq<char>) -> Checked<Option<ParsedConflictTargetView>> {
    match t {
        None => Ok(None),
        Some(ConflictTarget::Columns(l)) => Ok(Some(ParsedConflictTargetView::Columns(idents_of(l@, sql)))),
        Some(ConflictTarget::OnConstraint(name)) => match object_name_of(name, sql) {
            Err(x) => Err(x),
            Ok(name) => Ok(Some(ParsedConflictTargetView::Constraint(name))),
        },
    }
}

/// Takes over what a conflict is about.
fn convert_conflict_target(t: &Option<ConflictTarget>, sql: &str) -> (r: Result<Option<ParsedConflictTarget>>)
    ensures
        (match r {
            Ok(x) => Ok(target_view(x)),
            Err(x) => Err(x@),
        }) == conflict_target_of(*t, sql@),
{
    reveal(conflict_target_of);
    match t {
        None => {
            Ok(None)
        },
        Some(ConflictTarget::Columns(l)) => {
            Ok(Some(ParsedConflictTarget::Columns(convert_idents(l, sql))))
        },
        Some(ConflictTarget::OnConstraint(name)) => {
            let name = convert_object_name(name, sql)?;
            Ok(Some(ParsedConflictTarget::Constraint(name)))
        },
    }
}

/// An ON CONFLICT clause.
#[verifier::opaque]
pub open spec fn conflict_of(on: Option<OnInsert>, sql: Seq<char>) -> Checked<Option<ParsedOnConflictView>> {
    match on {
        None => Ok(None),
        Some(OnInsert::DuplicateKeyUpdate(_)) => Err(unsupported_error("ON DUPLICATE KEY UPDATE is not PostgreSQL ON CONFLICT"@, None)),
        Some(OnInsert::OnConflict(c)) => match conflict_target_of(c.conflict_target, sql) {
            Err(x) => Err(x),
            Ok(target) => match conflict_action_of(c.action, sql) {
                Err(x) => Err(x),
                Ok(action) => Ok(Some(ParsedOnConflictView { target, action })),
            },
        },
        _ => Err(unsupported_error("ON DUPLICATE KEY UPDATE is not PostgreSQL ON CONFLICT"@, None)),
    }
}

/// Takes over an ON CONFLICT clause.
pub fn convert_on_conflict(on: &Option<OnInsert>, sql: &str) -> (r: Result<Option<ParsedOnConflict>>)
    ensures
        (match r {
            Ok(x) => Ok(conflict_view(x)),
            Err(x) => Err(x@),
        }) == conflict_of(*on, sql@),
{
    reveal(conflict_of);
    match on {
        None => {
            Ok(None)
        },
        Some(OnInsert::DuplicateKeyUpdate(_)) => {
            Err(unsupported("ON DUPLICATE KEY UPDATE is not PostgreSQL ON CONFLICT"))
        },
        Some(OnInsert::OnConflict(c)) => {
            let target = convert_conflict_target(&c.conflict_target, sql)?;
            let action = convert_conflict_action(&c.action, sql)?;
            Ok(Some(make_on_conflict(target, action)))
        },
        _ => {
            Err(unsupported("ON DUPLICATE KEY UPDATE is not PostgreSQL ON CONFLICT"))
        },
    }
}

/// Rows of values, from one of them on.
pub open spec fn rows_of(
    l: Seq<Parens<Vec<Expr>>>,
    sql: Seq<char>,
    i: int,
    done: Seq<Seq<ParsedExprView>>,
) -> Checked<Seq<Seq<ParsedExprView>>>
    decreases l.len() - i,
{
    if i < 0 || i >= l.len() {
        Ok(done)
    } else {
        match converted_exprs(l[i].content@, sql, 0, Seq::empty()) {
            Err(x) => Err(x),
            Ok(b) => rows_of(l, sql, i + 1, done.push(b)),
        }
    }
}

fn convert_rows(l: &Vec<Parens<Vec<Expr>>>, sql: &str) -> (r: Result<Vec<Vec<ParsedExpr>>>)
    ensures
        (match r {
            Ok(x) => Ok(expr_rows(x@)),
            Err(x) => Err(x@),
        }) == rows_of(l@, sql@, 0, Seq::empty()),
{
    let mut out: Vec<Vec<ParsedExpr>> = Vec::new();
    assert(expr_rows(out@) =~= Seq::empty());
    for i in 0..l.len()
        invariant
            rows_of(l@, sql@, 0, Seq::empty()) == rows_of(l@, sql@, i as int, expr_rows(out@)),
    {
        let ghost before = expr_rows(out@);
        let x = convert_exprs(&l[i].content, sql)?;
        out.push(x);
        assert(expr_rows(out@) =~= before.push(ParsedExpr::views(x@)));
    }
    Ok(out)
}

/// The rows of a VALUES list.
#[verifier::opaque]
pub open spec fn values_of(query: Query, sql: Seq<char>) -> Checked<Seq<Seq<ParsedExprView>>> {
    if query.with is Some || query.order_by is Some || query.limit_clause is Some || query.fetch is Some || query.locks@.len() > 0
        || query.for_clause is Some || query.settings is Some || query.format_clause is Some || query.pipe_operators@.len() > 0 {
        Err(unsupported_error("INSERT ... VALUES cannot contain query clauses"@, None))
    } else {
        match *query.body {
            SetExpr::Values(values) => if values.explicit_row || values.value_keyword {
                Err(unsupported_error("dialect-specific VALUES forms are not supported"@, None))
            } else {
                rows_of(values.rows@, sql, 0, Seq::empty())
            },
            _ => Err(unsupported_error("INSERT ... SELECT is not supported yet"@, None)),
        }
    }
}

/// Takes over the rows of a VALUES list.
pub fn convert_values_query(query: &Query, sql: &str) -> (r: Result<Vec<Vec<ParsedExpr>>>)
    ensures
        (match r {
            Ok(x) => Ok(expr_rows(x@)),
            Err(x) => Err(x@),
        }) == values_of(*query, sql@),
{
    reveal(values_of);
    if query.with.is_some() || query.order_by.is_some() || query.limit_clause.is_some() || query.fetch.is_some()
        || query.locks.len() > 0 || query.for_clause.is_some() || query.settings.is_some() || query.format_clause.is_some()
        || query.pipe_operators.len() > 0 {
        return Err(unsupported("INSERT ... VALUES cannot contain query clauses"));
    }
    match &*query.body {
        SetExpr::Values(values) => {
            if values.explicit_row || values.value_keyword {
                return Err(unsupported("dialect-specific VALUES forms are not supported"));
            }
            convert_rows(&values.rows, sql)
        },
        _ => {
            Err(unsupported("INSERT ... SELECT is not supported yet"))
        },
    }
}

/// A RETURNING clause.
#[verifier::opaque]
pub open spec fn returning_items(l: Option<Vec<SelectItem>>, sql: Seq<char>) -> Checked<Seq<ParsedProjectionView>> {
    match l {
        None => {
            let none = Seq::<ParsedProjectionView>::empty();
            Ok(none)
        },
        Some(l) => items_of(l@, sql, 0, Seq::empty()),
    }
}

/// Takes over a RETURNING clause.
fn convert_returning(l: &Option<Vec<SelectItem>>, sql: &str) -> (r: Result<Vec<ParsedProjection>>)
    ensures
        (match r {
            Ok(x) => Ok(ParsedProjection::views(x@)),
            Err(x) => Err(x@),
        }) == returning_items(*l, sql@),
{
    reveal(returning_items);
    match l {
        None => {
            let none = no_items();
            Ok(none)
        },
        Some(l) => {
            convert_projection_items(l, sql)
        },
    }
}

/// Whether an INSERT has clauses that are not supported.
#[verifier::opaque]
pub open spec fn unusual_insert(s: Insert) -> bool {
    s.optimizer_hints@.len() > 0 || s.or is Some || s.ignore || s.table_alias is Some || s.overwrite || s.assignments@.len() > 0
        || s.partitioned is Some || s.after_columns@.len() > 0 || s.output is Some || s.replace_into || s.priority is Some
        || s.insert_alias is Some || s.settings is Some || s.format_clause is Some || s.multi_table_insert_type is Some
        || s.multi_table_into_clauses@.len() > 0 || s.multi_table_when_clauses@.len() > 0 || s.multi_table_else_clause is Some
}

/// Decides whether an INSERT has clauses that are not supported.
fn is_unusual_insert(s: &Insert) -> (r: bool)
    ensures
        r == unusual_insert(*s),
{
    reveal(unusual_insert);
    s.optimizer_hints.len() > 0 || s.or.is_some() || s.ignore || s.table_alias.is_some() || s.overwrite || s.assignments.len() > 0
        || s.partitioned.is_some() || s.after_columns.len() > 0 || s.output.is_some() || s.replace_into || s.priority.is_some()
        || s.insert_alias.is_some() || s.settings.is_some() || s.format_clause.is_some() || s.multi_table_insert_type.is_some()
        || s.multi_table_into_clauses.len() > 0 || s.multi_table_when_clauses.len() > 0 || s.multi_table_else_clause.is_some()
}

/// Whether an UPDATE has clauses that are not supported.
#[verifier::opaque]
pub open spec fn unusual_update(s: Update) -> bool {
    s.optimizer_hints@.len() > 0 || s.from is Some || s.output is Some || s.or is Some || s.order_by@.len() > 0 || s.limit is Some
}

/// Decides whether an UPDATE has clauses that are not supported.
fn is_unusual_update(s: &Update) -> (r: bool)
    ensures
        r == unusual_update(*s),
{
    reveal(unusual_update);
    s.optimizer_hints.len() > 0 || s.from.is_some() || s.output.is_some() || s.or.is_some() || s.order_by.len() > 0 || s.limit.is_some()
}

/// Whether a DELETE has clauses that are not supported.
#[verifier::opaque]
pub open spec fn unusual_delete(s: Delete) -> bool {
    s.optimizer_hints@.len() > 0 || s.tables@.len() > 0 || s.using is Some || s.output is Some || s.order_by@.len() > 0 || s.limit is Some
}

/// Decides whether a DELETE has clauses that are not supported.
fn is_unusual_delete(s: &Delete) -> (r: bool)
    ensures
        r == unusual_delete(*s),
{
    reveal(unusual_delete);
    s.optimizer_hints.len() > 0 || s.tables.len() > 0 || s.using.is_some() || s.output.is_some() || s.order_by.len() > 0
        || s.limit.is_some()
}

/// An INSERT.
#[verifier::opaque]
pub open spec fn insert_of(s: Insert, sql: Seq<char>) -> Checked<ParsedStatementView> {
    if unusual_insert(s) {
        Err(unsupported_error("this INSERT form is not supported yet"@, None))
    } else {
        match conflict_of(s.on, sql) {
            Err(x) => Err(x),
            Ok(on_conflict) => match returning_items(s.returning, sql) {
                Err(x) => Err(x),
                Ok(returning) => match s.table {
                    TableObject::TableName(table) => match s.source {
                        None => Err(error(SYNTAX_ERROR@, "INSERT requires VALUES"@)),
                        Some(source) => match values_of(*source, sql) {
                            Err(x) => Err(x),
                            Ok(rows) => match single_names_of(s.columns@, sql, 0, Seq::empty()) {
                                Err(x) => Err(x),
                                Ok(columns) => match object_name_of(table, sql) {
                                    Err(x) => Err(x),
                                    Ok(table) => Ok((ParsedStatementView::Insert { table, columns, rows, on_conflict, returning })),
                                },
                            },
                        },
                    },
                    _ => Err(unsupported_error("INSERT targets must be named tables"@, None)),
                },
            },
        }
    }
}

/// Takes over an INSERT.
pub fn convert_insert(s: &Insert, sql: &str) -> (r: Result<ParsedStatement>)
    ensures
        (match r {
            Ok(x) => Ok(x@),
            Err(x) => Err(x@),
        }) == insert_of(*s, sql@),
{
    reveal(insert_of);
    if is_unusual_insert(s) {
        return Err(unsupported("this INSERT form is not supported yet"));
    }
    let on_conflict = convert_on_conflict(&s.on, sql)?;
    let returning = convert_returning(&s.returning, sql)?;
    match &s.table {
        TableObject::TableName(table) => {
            match &s.source {
                None => {
                    Err(DbError::new(SYNTAX_ERROR, text("INSERT requires VALUES")))
                },
                Some(source) => {
                    let rows = convert_values_query(source, sql)?;
                    let columns = convert_single_identifiers(&s.columns, sql)?;
                    let table = convert_object_name(table, sql)?;
                    Ok(make_statement(ParsedStatement::Insert { table, columns, rows, on_conflict, returning }))
                },
            }
        },
        _ => {
            Err(unsupported("INSERT targets must be named tables"))
        },
    }
}

/// An UPDATE.
#[verifier::opaque]
pub open spec fn update_of(s: Update, sql: Seq<char>) -> Checked<ParsedStatementView> {
    if unusual_update(s) {
        Err(unsupported_error("this UPDATE form is not supported yet"@, None))
    } else {
        match returning_items(s.returning, sql) {
            Err(x) => Err(x),
            Ok(returning) => match plain_table_of(s.table, sql) {
                Err(x) => Err(x),
                Ok(table) => match assignments_of(s.assignments@, sql, 0, Seq::empty()) {
                    Err(x) => Err(x),
                    Ok(assignments) => match converted_some(s.selection, sql) {
                        Err(x) => Err(x),
                        Ok(filter) => Ok((ParsedStatementView::Update { table, assignments, filter, returning })),
                    },
                },
            },
        }
    }
}

/// Takes over an UPDATE.
pub fn convert_update(s: &Update, sql: &str) -> (r: Result<ParsedStatement>)
    ensures
        (match r {
            Ok(x) => Ok(x@),
            Err(x) => Err(x@),
        }) == update_of(*s, sql@),
{
    reveal(update_of);
    if is_unusual_update(s) {
        return Err(unsupported("this UPDATE form is not supported yet"));
    }
    let returning = convert_returning(&s.returning, sql)?;
    let table = convert_table_with_joins(&s.table, sql)?;
    let assignments = convert_assignments(&s.assignments, sql)?;
    let filter = convert_some(&s.selection, sql)?;
    Ok(make_statement(ParsedStatement::Update { table, assignments, filter, returning }))
}

/// A DELETE.
#[verifier::opaque]
pub open spec fn delete_of(s: Delete, sql: Seq<char>) -> Checked<ParsedStatementView> {
    if unusual_delete(s) {
        Err(unsupported_error("this DELETE form is not supported yet"@, None))
    } else {
        match returning_items(s.returning, sql) {
            Err(x) => Err(x),
            Ok(returning) => match s.from {
                FromTable::WithFromKeyword(tables) => if tables@.len() != 1 {
                    Err(unsupported_error("DELETE supports exactly one table"@, None))
                } else {
                    match plain_table_of(tables@[0], sql) {
                        Err(x) => Err(x),
                        Ok(table) => match converted_some(s.selection, sql) {
                            Err(x) => Err(x),
                            Ok(filter) => Ok((ParsedStatementView::Delete { table, filter, returning })),
                        },
                    }
                },
                FromTable::WithoutKeyword(_) => Err(unsupported_error("DELETE requires a named table after FROM"@, None)),
            },
        }
    }
}

/// Takes over a DELETE.
pub fn convert_delete(s: &Delete, sql: &str) -> (r: Result<ParsedStatement>)
    ensures
        (match r {
            Ok(x) => Ok(x@),
            Err(x) => Err(x@),
        }) == delete_of(*s, sql@),
{
    reveal(delete_of);
    if is_unusual_delete(s) {
        return Err(unsupported("this DELETE form is not supported yet"));
    }
    let returning = convert_returning(&s.returning, sql)?;
    match &s.from {
        FromTable::WithFromKeyword(tables) => {
            if tables.len() != 1 {
                return Err(unsupported("DELETE supports exactly one table"));
            }
            let table = convert_table_with_joins(&tables[0], sql)?;
            let filter = convert_some(&s.selection, sql)?;
            Ok(make_statement(ParsedStatement::Delete { table, filter, returning }))
        },
        FromTable::WithoutKeyword(_) => {
            Err(unsupported("DELETE requires a named table after FROM"))
        },
    }
}

/// The values that a MERGE inserts.
#[verifier::opaque]
pub open spec fn merge_values(k: MergeInsertKind, sql: Seq<char>) -> Checked<Seq<ParsedExprView>> {
    match k {
        MergeInsertKind::Values(values) => if values.explicit_row || values.value_keyword || values.rows@.len() != 1 {
            Err(unsupported_error("MERGE INSERT requires exactly one standard VALUES row"@, None))
        } else {
            converted_exprs(values.rows@[0].content@, sql, 0, Seq::empty())
        },
        MergeInsertKind::Row => Err(unsupported_error("MERGE INSERT ROW is not supported"@, None)),
    }
}

/// Takes over the values that a MERGE inserts.
fn convert_merge_values(k: &MergeInsertKind, sql: &str) -> (r: Result<Vec<ParsedExpr>>)
    ensures
        (match r {
            Ok(x) => Ok(ParsedExpr::views(x@)),
            Err(x) => Err(x@),
        }) == merge_values(*k, sql@),
{
    reveal(merge_values);
    match k {
        MergeInsertKind::Values(values) => {
            if values.explicit_row || values.value_keyword || values.rows.len() != 1 {
                return Err(unsupported("MERGE INSERT requires exactly one standard VALUES row"));
            }
            convert_exprs(&values.rows[0].content, sql)
        },
        MergeInsertKind::Row => {
            Err(unsupported("MERGE INSERT ROW is not supported"))
        },
    }
}

/// What a MERGE clause does.
#[verifier::opaque]
pub open spec fn merge_action_of(a: MergeAction, kind: ParsedMergeClauseKind, sql: Seq<char>) -> Checked<ParsedMergeActionView> {
    match a {
        MergeAction::Update(update) => if kind == ParsedMergeClauseKind::NotMatchedByTarget {
            Err(error(SYNTAX_ERROR@, "MERGE UPDATE requires WHEN MATCHED or WHEN NOT MATCHED BY SOURCE"@))
        } else if update.update_predicate is Some || update.delete_predicate is Some {
            Err(unsupported_error("Oracle MERGE UPDATE predicates are not supported"@, None))
        } else {
            match assignments_of(update.assignments@, sql, 0, Seq::empty()) {
                Err(x) => Err(x),
                Ok(assignments) => Ok((ParsedMergeActionView::Update { assignments })),
            }
        },
        MergeAction::Delete { .. } => if kind == ParsedMergeClauseKind::NotMatchedByTarget {
            Err(error(SYNTAX_ERROR@, "MERGE DELETE requires WHEN MATCHED or WHEN NOT MATCHED BY SOURCE"@))
        } else {
            Ok((ParsedMergeActionView::Delete))
        },
        MergeAction::Insert(insert) => if kind != ParsedMergeClauseKind::NotMatchedByTarget {
            Err(error(SYNTAX_ERROR@, "MERGE INSERT requires WHEN NOT MATCHED"@))
        } else if insert.insert_predicate is Some {
            Err(unsupported_error("Oracle MERGE INSERT predicates are not supported"@, None))
        } else {
            match single_names_of(insert.columns@, sql, 0, Seq::empty()) {
                Err(x) => Err(x),
                Ok(columns) => match merge_values(insert.kind, sql) {
                    Err(x) => Err(x),
                    Ok(values) => Ok((ParsedMergeActionView::Insert { columns, values })),
                },
            }
        },
    }
}

/// Takes over what a MERGE clause does.
fn convert_merge_action(a: &MergeAction, kind: ParsedMergeClauseKind, sql: &str) -> (r: Result<ParsedMergeAction>)
    ensures
        (match r {
            Ok(x) => Ok(x@),
            Err(x) => Err(x@),
        }) == merge_action_of(*a, kind, sql@),
{
    reveal(merge_action_of);
    match a {
        MergeAction::Update(update) => {
            if kind == ParsedMergeClauseKind::NotMatchedByTarget {
                return Err(DbError::new(SYNTAX_ERROR, text("MERGE UPDATE requires WHEN MATCHED or WHEN NOT MATCHED BY SOURCE")));
            }
            if update.update_predicate.is_some() || update.delete_predicate.is_some() {
                return Err(unsupported("Oracle MERGE UPDATE predicates are not supported"));
            }
            let assignments = convert_assignments(&update.assignments, sql)?;
            Ok(make_merge_action(ParsedMergeAction::Update { assignments }))
        },
        MergeAction::Delete { .. } => {
            if kind == ParsedMergeClauseKind::NotMatchedByTarget {
                return Err(DbError::new(SYNTAX_ERROR, text("MERGE DELETE requires WHEN MATCHED or WHEN NOT MATCHED BY SOURCE")));
            }
            Ok(make_merge_action(ParsedMergeAction::Delete))
        },
        MergeAction::Insert(insert) => {
            if kind != ParsedMergeClauseKind::NotMatchedByTarget {
                return Err(DbError::new(SYNTAX_ERROR, text("MERGE INSERT requires WHEN NOT MATCHED")));
            }
            if insert.insert_predicate.is_some() {
                return Err(unsupported("Oracle MERGE INSERT predicates are not supported"));
            }
            let columns = convert_single_identifiers(&insert.columns, sql)?;
            let values = convert_merge_values(&insert.kind, sql)?;
            Ok(make_merge_action(ParsedMergeAction::Insert { columns, values }))
        },
    }
}

/// A MERGE clause.
#[verifier::opaque]
pub open spec fn merge_clause_of(c: MergeClause, nothing: bool, sql: Seq<char>) -> Checked<ParsedMergeClauseView> {
    let kind = merge_kind(c.clause_kind);
    if nothing {
        match converted_some(c.predicate, sql) {
            Err(x) => Err(x),
            Ok(predicate) => Ok(ParsedMergeClauseView { kind, predicate, action: ParsedMergeActionView::DoNothing }),
        }
    } else {
        match merge_action_of(c.action, kind, sql) {
            Err(x) => Err(x),
            Ok(action) => match converted_some(c.predicate, sql) {
                Err(x) => Err(x),
                Ok(predicate) => Ok(ParsedMergeClauseView { kind, predicate, action }),
            },
        }
    }
}

/// Takes over a MERGE clause.
fn convert_merge_clause(c: &MergeClause, nothing: bool, sql: &str) -> (r: Result<ParsedMergeClause>)
    ensures
        (match r {
            Ok(x) => Ok(x@),
            Err(x) => Err(x@),
        }) == merge_clause_of(*c, nothing, sql@),
{
    reveal(merge_clause_of);
    let kind = convert_merge_kind(&c.clause_kind);
    if nothing {
        let predicate = convert_some(&c.predicate, sql)?;
        Ok(make_merge_clause(kind, predicate, make_merge_action(ParsedMergeAction::DoNothing)))
    } else {
        let action = convert_merge_action(&c.action, kind, sql)?;
        let predicate = convert_some(&c.predicate, sql)?;
        Ok(make_merge_clause(kind, predicate, action))
    }
}

/// MERGE clauses, from one of them on; of each the tokens tell whether it does nothing.
pub open spec fn merge_clauses_of(
    l: Seq<MergeClause>,
    told: Seq<MergeClauseTokenInfo>,
    sql: Seq<char>,
    i: int,
    done: Seq<ParsedMergeClauseView>,
) -> Checked<Seq<ParsedMergeClauseView>>
    decreases l.len() - i,
{
    if i < 0 || i >= l.len() {
        Ok(done)
    } else {
        match merge_clause_of(l[i], told[i].do_nothing is Some, sql) {
            Err(x) => Err(x),
            Ok(b) => merge_clauses_of(l, told, sql, i + 1, done.push(b)),
        }
    }
}

fn convert_merge_clauses(l: &Vec<MergeClause>, told: &Vec<MergeClauseTokenInfo>, sql: &str) -> (r: Result<Vec<ParsedMergeClause>>)
    requires
        l@.len() == told@.len(),
    ensures
        (match r {
            Ok(x) => Ok(ParsedMergeClause::views(x@)),
            Err(x) => Err(x@),
        }) == merge_clauses_of(l@, told@, sql@, 0, Seq::empty()),
{
    let mut out: Vec<ParsedMergeClause> = Vec::new();
    assert(ParsedMergeClause::views(out@) =~= Seq::empty());
    for i in 0..l.len()
        invariant
            l@.len() == told@.len(),
            merge_clauses_of(l@, told@, sql@, 0, Seq::empty()) == merge_clauses_of(
                l@,
                told@,
                sql@,
                i as int,
                ParsedMergeClause::views(out@),
            ),
    {
        let ghost before = ParsedMergeClause::views(out@);
        let x = convert_merge_clause(&l[i], told[i].do_nothing.is_some(), sql)?;
        out.push(x);
        assert(ParsedMergeClause::views(out@) =~= before.push(x@));
    }
    Ok(out)
}

/// What a MERGE returns.
#[verifier::opaque]
pub open spec fn merge_output(o: Option<OutputClause>, sql: Seq<char>) -> Checked<Seq<ParsedProjectionView>> {
    match o {
        None => {
            let none = Seq::<ParsedProjectionView>::empty();
            Ok(none)
        },
        Some(OutputClause::Returning { select_items, .. }) => items_of(select_items@, sql, 0, Seq::empty()),
        Some(OutputClause::Output { .. }) => Err(unsupported_error("MERGE OUTPUT is not supported"@, None)),
    }
}

/// Takes over what a MERGE returns.
fn convert_merge_output(o: &Option<OutputClause>, sql: &str) -> (r: Result<Vec<ParsedProjection>>)
    ensures
        (match r {
            Ok(x) => Ok(ParsedProjection::views(x@)),
            Err(x) => Err(x@),
        }) == merge_output(*o, sql@),
{
    reveal(merge_output);
    match o {
        None => {
            let none = no_items();
            Ok(none)
        },
        Some(OutputClause::Returning { select_items, .. }) => {
            convert_projection_items(select_items, sql)
        },
        Some(OutputClause::Output { .. }) => {
            Err(unsupported("MERGE OUTPUT is not supported"))
        },
    }
}

/// A MERGE.
#[verifier::opaque]
pub open spec fn merge_of(m: Merge, source: SourceView) -> Checked<ParsedStatementView> {
    if m.optimizer_hints@.len() > 0 {
        Err(unsupported_error("MERGE optimizer hints are not supported"@, None))
    } else if !m.into {
        Err(error(SYNTAX_ERROR@, "MERGE requires INTO"@))
    } else if m.clauses@.len() == 0 {
        Err(error(SYNTAX_ERROR@, "MERGE requires at least one WHEN clause"@))
    } else {
        match merge_output(m.output, source.sql) {
            Err(x) => Err(x),
            Ok(returning) => match merge_info(source.tokens) {
                None => Err(internal_error("MERGE token audit could not identify the statement clauses"@)),
                Some(told) => if told.len() != m.clauses@.len() {
                    Err(internal_error("MERGE token audit disagrees with the parsed clause count"@))
                } else {
                    match merge_clauses_of(m.clauses@, told, source.sql, 0, Seq::empty()) {
                        Err(x) => Err(x),
                        Ok(clauses) => match table_of(m.table, source.sql) {
                            Err(x) => Err(x),
                            Ok(target) => match table_of(m.source, source.sql) {
                                Err(x) => Err(x),
                                Ok(origin) => match converted_expr(*m.on, source.sql) {
                                    Err(x) => Err(x),
                                    Ok(on) => Ok(
                                        ParsedStatementView::Merge(
                                            ParsedMergeView { target, source: origin, on, clauses, returning },
                                        ),
                                    ),
                                },
                            },
                        },
                    }
                },
            },
        }
    }
}

/// Takes over a MERGE.
pub fn convert_merge(m: &Merge, source: &Source) -> (r: Result<ParsedStatement>)
    ensures
        (match r {
            Ok(x) => Ok(x@),
            Err(x) => Err(x@),
        }) == merge_of(*m, source@),
{
    reveal(merge_of);
    if m.optimizer_hints.len() > 0 {
        return Err(unsupported("MERGE optimizer hints are not supported"));
    }
    if !m.into {
        return Err(DbError::new(SYNTAX_ERROR, text("MERGE requires INTO")));
    }
    if m.clauses.len() == 0 {
        return Err(DbError::new(SYNTAX_ERROR, text("MERGE requires at least one WHEN clause")));
    }
    let returning = convert_merge_output(&m.output, source.sql)?;
    match merge_clause_token_info(&source.tokens) {
        None => {
            Err(DbError::internal("MERGE token audit could not identify the statement clauses"))
        },
        Some(told) => {
            if told.len() != m.clauses.len() {
                return Err(DbError::internal("MERGE token audit disagrees with the parsed clause count"));
            }
            let clauses = convert_merge_clauses(&m.clauses, &told, source.sql)?;
            let target = convert_select_table(&m.table, source.sql)?;
            let origin = convert_select_table(&m.source, source.sql)?;
            let on = convert_expr(&m.on, source.sql)?;
            Ok(make_merge(target, origin, on, clauses, returning))
        },
    }
}

} // verus!
