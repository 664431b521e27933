//! INSERT, UPDATE, DELETE and MERGE.

use vstd::prelude::*;

use crate::binding::{bind_in, bind_multi_boolean, bound_form, input_scope, make_expr, predicate_of, table_scope};
use crate::bound::{
    bound_assignments, bound_rows, BoundConflictAction, BoundConflictActionView, BoundExpr, BoundExprKind, BoundExprKindView, BoundExprView,
    BoundMerge, BoundMergeAction, BoundMergeActionView, BoundMergeClause, BoundMergeClauseKind, BoundMergeClauseView, BoundMergeView,
    BoundOnConflict, BoundOnConflictView, BoundReturning, BoundReturningView,
};
use crate::catalog::{
    find_column, find_column_index, find_column_index_by_id, find_constraint, lemma_column_index, Catalog, CatalogView, ConstraintKind,
    ConstraintKindView, IndexDefinition, IndexDefinitionView, IndexMethod, TableDefinition, TableDefinitionView, TriggerDefinition,
    TriggerDefinitionView, TriggerEvent, TriggerLevel, TriggerTiming, ViewKind,
};
use crate::inputs::{add_columns, bind_input_table, input_table, with_columns};
use crate::names::{named_table, no_object, no_schema, no_such_object, no_such_schema, resolve_table, split_name, split_table_name};
use crate::scope::{
    expr_result, name_position, no_column, no_such_column, position_of_name, Checked, InputColumn, InputColumnView, Scope, ScopeView,
};
use crate::select_list::{bind_returning, returning_of};
use crate::syntax::{
    assignment_views, expr_rows, ParsedConflictAction, ParsedConflictActionView, ParsedConflictTarget, ParsedConflictTargetView, ParsedExpr,
    ParsedExprKind, ParsedExprKindView, ParsedExprView, ParsedIdentifier, ParsedIdentifierView, ParsedMerge, ParsedMergeAction,
    ParsedMergeActionView, ParsedMergeClause, ParsedMergeClauseKind, ParsedMergeClauseView, ParsedMergeView, ParsedObjectName,
    ParsedObjectNameView, ParsedOnConflict, ParsedOnConflictView,
};
use crate::text::{copy_items, text, text2, text3, text4, text5};
use crate::types::{
    error, error_at, internal_error, normalized, unsupported_at, unsupported_error, ColumnId, DATATYPE_MISMATCH, DbError, DbErrorView,
    Identifier, Result, SYNTAX_ERROR, ScalarType, TableId, UNDEFINED_TABLE, ViewId,
};

verus! {

/// What a data change is applied to.
#[derive(Debug, Clone, Copy, PartialEq, Eq, Structural)]
pub enum DmlTarget {
    Table(TableId),
    View(ViewId),
}

/// What a data change is applied to, with the columns that it can name.
pub struct DmlRelation {
    pub target: DmlTarget,
    pub scope: TableDefinition,
}

/// Mathematical contents of a [`DmlRelation`].
pub struct DmlRelationView {
    pub target: DmlTarget,
    pub scope: TableDefinitionView,
}

impl DmlRelation {
    /// The value as mathematical data.
    pub open spec fn view(&self) -> DmlRelationView {
        DmlRelationView { target: self.target, scope: self.scope@ }
    }
}

/// The name of an event.
pub open spec fn event_name(e: TriggerEvent) -> Seq<char> {
    match e {
        TriggerEvent::Insert => "Insert"@,
        TriggerEvent::Update => "Update"@,
        TriggerEvent::Delete => "Delete"@,
    }
}

fn name_event(e: TriggerEvent) -> (r: String)
    ensures
        r@ == event_name(e),
{
    match e {
        TriggerEvent::Insert => text("Insert"),
        TriggerEvent::Update => text("Update"),
        TriggerEvent::Delete => text("Delete"),
    }
}

/// Whether a trigger of a view carries out a data change.
pub open spec fn replaces(t: TriggerDefinitionView, event: TriggerEvent) -> bool {
    t.enabled && t.timing == TriggerTiming::InsteadOf && t.level == TriggerLevel::Row && t.events.contains(event)
}

fn trigger_replaces(t: &TriggerDefinition, event: TriggerEvent) -> (r: bool)
    ensures
        r == replaces(t@, event),
{
    let mut found: bool = false;
    for i in 0..t.events.len()
        invariant
            found == exists|k: int| 0 <= k < i && t.events@[k] == event,
    {
        if t.events[i] == event {
            found = true;
        }
    }
    assert(found == t.events@.contains(event));
    t.enabled && t.timing == TriggerTiming::InsteadOf && t.level == TriggerLevel::Row && found
}

/// Whether one of the triggers carries out a data change, from a position on.
pub open spec fn any_replaces(l: Seq<TriggerDefinitionView>, event: TriggerEvent, i: int) -> bool
    decreases l.len() - i,
{
    0 <= i < l.len() && (replaces(l[i], event) || any_replaces(l, event, i + 1))
}

/// Decides whether one of the triggers carries out a data change.
fn triggers_replace(l: &Vec<TriggerDefinition>, event: TriggerEvent) -> (r: bool)
    ensures
        r == any_replaces(TriggerDefinition::views(l@), event, 0),
{
    let ghost v = TriggerDefinition::views(l@);
    for i in 0..l.len()
        invariant
            v == TriggerDefinition::views(l@),
            any_replaces(v, event, 0) == any_replaces(v, event, i as int),
    {
        assert(v[i as int] == l@[i as int]@);
        if trigger_replaces(&l[i], event) {
            return true;
        }
    }
    false
}

/// What a data change on a name is applied to.
#[verifier::opaque]
pub open spec fn dml_relation(name: ParsedObjectNameView, event: TriggerEvent, catalog: CatalogView) -> Checked<DmlRelationView> {
    match split_name(name) {
        Err(x) => Err(x),
        Ok(s) => if catalog.schema(s.schema) is None {
            Err(no_schema(s.schema, s.position))
        } else {
            match catalog.table(s.schema, s.name) {
                Some(t) => Ok(DmlRelationView { target: DmlTarget::Table(t.id), scope: t }),
                None => match catalog.view_of(s.schema, s.name) {
                    None => Err(no_object(UNDEFINED_TABLE@, "relation "@, s.schema, s.name, s.position)),
                    Some(v) => if v.kind != ViewKind::Regular {
                        Err(error_at("42809"@, "cannot modify a materialized view"@, s.position))
                    } else if !any_replaces(v.triggers, event, 0) {
                        Err(
                            DbErrorView {
                                detail: Some("no enabled INSTEAD OF ROW trigger handles "@ + event_name(event)),
                                hint: Some("Create a matching INSTEAD OF trigger on the view."@),
                                ..error_at("55000"@, "cannot modify view "@ + s.schema + "."@ + s.name, s.position)
                            },
                        )
                    } else {
                        Ok(
                            DmlRelationView {
                                target: DmlTarget::View(v.id),
                                scope: crate::catalog::scope_of_schema(v.name, v.output),
                            },
                        )
                    },
                },
            }
        },
    }
}

/// Finds what a data change on a name is applied to.
pub fn resolve_dml_relation(name: &ParsedObjectName, event: TriggerEvent, catalog: &Catalog) -> (r: Result<DmlRelation>)
    ensures
        (match r {
            Ok(d) => Ok(d@),
            Err(e) => Err(e@),
        }) == dml_relation(name@, event, catalog@),
{
    reveal(dml_relation);
    let (schema, relation, position) = split_table_name(name)?;
    if catalog.schema(&schema).is_none() {
        return Err(no_such_schema(&schema, position));
    }
    if let Some(t) = catalog.table(&schema, &relation) {
        return Ok(DmlRelation { target: DmlTarget::Table(t.id), scope: t.clone() });
    }
    let v = match catalog.view_named(&schema, &relation) {
        Some(v) => v,
        None => {
            return Err(no_such_object(UNDEFINED_TABLE, "relation ", &schema, &relation, position));
        },
    };
    if v.kind != ViewKind::Regular {
        return Err(DbError::at("42809", text("cannot modify a materialized view"), position));
    }
    if !triggers_replace(&v.triggers, event) {
        let e = DbError::at("55000", text4("cannot modify view ", schema.as_str(), ".", relation.as_str()), position);
        let detail = text2("no enabled INSTEAD OF ROW trigger handles ", name_event(event).as_str());
        return Err(e.with_detail(detail).with_hint("Create a matching INSTEAD OF trigger on the view."));
    }
    Ok(
        DmlRelation {
            target: DmlTarget::View(v.id),
            scope: TableDefinition::expression_scope_for_schema(v.name.clone(), &v.output),
        },
    )
}

/// The error of a column that is named twice.
pub open spec fn repeated_column(name: Seq<char>, verb: Seq<char>, position: Option<usize>) -> DbErrorView {
    error_at("42701"@, "column "@ + name + verb, position)
}

/// The columns of a column list, from a position on.
pub open spec fn named_columns(l: Seq<ParsedIdentifierView>, table: TableDefinitionView, i: int, done: Seq<usize>) -> Checked<Seq<usize>>
    decreases l.len() - i,
{
    if i < 0 || i >= l.len() {
        Ok(done)
    } else {
        match find_column_index(table.columns, l[i].name, 0) {
            None => Err(no_column(l[i].name, l[i].position)),
            Some(k) => if done.contains(k) {
                Err(repeated_column(l[i].name, " specified more than once"@, l[i].position))
            } else {
                named_columns(l, table, i + 1, done.push(k))
            },
        }
    }
}

/// The columns that a row fills: those of the column list, or all of them.
pub open spec fn target_columns(l: Seq<ParsedIdentifierView>, table: TableDefinitionView) -> Checked<Seq<usize>> {
    if l.len() == 0 {
        Ok(Seq::new(table.columns.len(), |i: int| i as usize))
    } else {
        named_columns(l, table, 0, Seq::empty())
    }
}

/// Decides whether an index stands in a list.
pub fn contains_index(l: &Vec<usize>, k: usize) -> (r: bool)
    ensures
        r == l@.contains(k),
{
    for i in 0..l.len()
        invariant
            forall|j: int| 0 <= j < i ==> l@[j] != k,
    {
        if l[i] == k {
            return true;
        }
    }
    false
}

fn find_target_columns(l: &Vec<ParsedIdentifier>, table: &TableDefinition) -> (r: Result<Vec<usize>>)
    ensures
        (match r {
            Ok(x) => Ok(x@),
            Err(x) => Err(x@),
        }) == target_columns(ParsedIdentifier::views(l@), table@),
        r matches Ok(x) ==> forall|j: int| 0 <= j < x@.len() ==> x@[j] < table.columns@.len(),
{
    let mut out: Vec<usize> = Vec::new();
    if l.len() == 0 {
        for i in 0..table.columns.len()
            invariant
                out.len() == i,
                forall|j: int| 0 <= j < i ==> out@[j] == j as usize,
        {
            out.push(i);
        }
        assert(out@ =~= Seq::new(table@.columns.len(), |i: int| i as usize));
        return Ok(out);
    }
    let ghost v = ParsedIdentifier::views(l@);
    assert(out@ =~= Seq::empty());
    for i in 0..l.len()
        invariant
            v == ParsedIdentifier::views(l@),
            target_columns(v, table@) == named_columns(v, table@, i as int, out@),
            forall|j: int| 0 <= j < out@.len() ==> out@[j] < table.columns@.len(),
    {
        assert(v[i as int] == l@[i as int]@);
        match table.column_index(&l[i].name) {
            None => {
                return Err(no_such_column(&l[i].name, l[i].position));
            },
            Some(k) => {
                if contains_index(&out, k) {
                    return Err(
                        DbError::at("42701", text3("column ", l[i].name.as_str(), " specified more than once"), l[i].position),
                    );
                }
                out.push(k);
            },
        }
    }
    Ok(out)
}

/// The bound values of a row, from a position on.
pub open spec fn row_values(
    row: Seq<ParsedExprView>,
    indexes: Seq<usize>,
    table: TableDefinitionView,
    scope: ScopeView,
    i: int,
    done: Seq<BoundExprView>,
) -> Checked<Seq<BoundExprView>>
    decreases row.len() - i,
{
    if i < 0 || i >= row.len() {
        Ok(done)
    } else {
        match bound_form(row[i], scope, Some(table.columns[indexes[i] as int].data_type)) {
            Err(x) => Err(x),
            Ok(b) => row_values(row, indexes, table, scope, i + 1, done.push(b)),
        }
    }
}

fn bind_row_values(row: &Vec<ParsedExpr>, indexes: &Vec<usize>, table: &TableDefinition, scope: &Scope) -> (r: Result<Vec<BoundExpr>>)
    requires
        row.len() == indexes.len(),
        forall|j: int| 0 <= j < indexes@.len() ==> indexes@[j] < table.columns@.len(),
    ensures
        crate::binding::list_result(r) == row_values(ParsedExpr::views(row@), indexes@, table@, scope@, 0, Seq::empty()),
{
    let ghost v = ParsedExpr::views(row@);
    let mut out: Vec<BoundExpr> = Vec::new();
    assert(BoundExpr::views(out@) =~= Seq::empty());
    for i in 0..row.len()
        invariant
            row.len() == indexes.len(),
            forall|j: int| 0 <= j < indexes@.len() ==> indexes@[j] < table.columns@.len(),
            v == ParsedExpr::views(row@),
            row_values(v, indexes@, table@, scope@, 0, Seq::empty()) == row_values(
                v,
                indexes@,
                table@,
                scope@,
                i as int,
                BoundExpr::views(out@),
            ),
    {
        assert(v[i as int] == row@[i as int]@);
        let k: usize = indexes[i];
        assert(table@.columns[k as int] == table.columns@[k as int]@);
        let b = bind_in(&row[i], scope, Some(&table.columns[k].data_type))?;
        let ghost before = BoundExpr::views(out@);
        out.push(b);
        assert(BoundExpr::views(out@) =~= before.push(b@));
    }
    Ok(out)
}

/// The bound rows of an INSERT, from a position on.
pub open spec fn insert_rows(
    rows: Seq<Seq<ParsedExprView>>,
    indexes: Seq<usize>,
    table: TableDefinitionView,
    i: int,
    done: Seq<Seq<BoundExprView>>,
) -> Checked<
    Seq<Seq<BoundExprView>>,
>
    decreases rows.len() - i,
{
    if i < 0 || i >= rows.len() {
        Ok(done)
    } else if rows[i].len() != indexes.len() {
        Err(error(SYNTAX_ERROR@, "INSERT has more target columns than expressions"@))
    } else {
        match row_values(rows[i], indexes, table, table_scope(None), 0, Seq::empty()) {
            Err(x) => Err(x),
            Ok(b) => insert_rows(rows, indexes, table, i + 1, done.push(b)),
        }
    }
}

fn bind_insert_rows(rows: &Vec<Vec<ParsedExpr>>, indexes: &Vec<usize>, table: &TableDefinition) -> (r: Result<Vec<Vec<BoundExpr>>>)
    requires
        forall|j: int| 0 <= j < indexes@.len() ==> indexes@[j] < table.columns@.len(),
    ensures
        (match r {
            Ok(l) => Ok(bound_rows(l@)),
            Err(e) => Err(e@),
        }) == insert_rows(expr_rows(rows@), indexes@, table@, 0, Seq::empty()),
{
    let none: std::collections::BTreeMap<usize, ScalarType> = std::collections::BTreeMap::new();
    assert(crate::scope::parameter_views(none@) =~= Map::empty());
    let scope = Scope::Table { table: None, parameters: &none };
    let ghost v = expr_rows(rows@);
    let mut out: Vec<Vec<BoundExpr>> = Vec::new();
    assert(bound_rows(out@) =~= Seq::empty());
    for i in 0..rows.len()
        invariant
            scope@ == table_scope(None),
            forall|j: int| 0 <= j < indexes@.len() ==> indexes@[j] < table.columns@.len(),
            v == expr_rows(rows@),
            insert_rows(v, indexes@, table@, 0, Seq::empty()) == insert_rows(v, indexes@, table@, i as int, bound_rows(out@)),
    {
        assert(v[i as int] == ParsedExpr::views(rows@[i as int]@));
        if rows[i].len() != indexes.len() {
            return Err(DbError::new(SYNTAX_ERROR, text("INSERT has more target columns than expressions")));
        }
        let b = bind_row_values(&rows[i], indexes, table, &scope)?;
        let ghost before = bound_rows(out@);
        out.push(b);
        assert(bound_rows(out@) =~= before.push(BoundExpr::views(b@)));
    }
    Ok(out)
}

/// An expression whose bare column names belong to a relation.
pub open spec fn qualified(e: ParsedExprView, binding: Seq<char>) -> ParsedExprView
    decreases e, 0int,
{
    match e.kind {
        ParsedExprKindView::Unary { op, expr } => ParsedExprView {
            kind: ParsedExprKindView::Unary { op, expr: Box::new(qualified(*expr, binding)) },
            position: e.position,
        },
        ParsedExprKindView::Cast { expr, data_type, declared_type } => ParsedExprView {
            kind: ParsedExprKindView::Cast { expr: Box::new(qualified(*expr, binding)), data_type, declared_type },
            position: e.position,
        },
        ParsedExprKindView::Array { elements, dimensions } => ParsedExprView {
            kind: ParsedExprKindView::Array { elements: qualified_all(elements, binding, 0, Seq::empty()), dimensions },
            position: e.position,
        },
        ParsedExprKindView::Function { function, arguments } => ParsedExprView {
            kind: ParsedExprKindView::Function { function, arguments: qualified_all(arguments, binding, 0, Seq::empty()) },
            position: e.position,
        },
        ParsedExprKindView::Binary { left, op, right } => ParsedExprView {
            kind: ParsedExprKindView::Binary { left: Box::new(qualified(*left, binding)), op, right: Box::new(qualified(*right, binding)) },
            position: e.position,
        },
        ParsedExprKindView::InList { expr, list, negated } => ParsedExprView {
            kind: ParsedExprKindView::InList {
                expr: Box::new(qualified(*expr, binding)),
                list: qualified_all(list, binding, 0, Seq::empty()),
                negated,
            },
            position: e.position,
        },
        ParsedExprKindView::Aggregate { function, argument, distinct, filter } => ParsedExprView {
            kind: ParsedExprKindView::Aggregate {
                function,
                argument: match argument { Some(x) => Some(Box::new(qualified(*x, binding))), None => None },
                distinct,
                filter: match filter { Some(x) => Some(Box::new(qualified(*x, binding))), None => None },
            },
            position: e.position,
        },
        ParsedExprKindView::Column(name) => if name.parts.len() == 1 {
            ParsedExprView {
                kind: ParsedExprKindView::Column(
                    ParsedObjectNameView {
                        parts: seq![ParsedIdentifierView { name: binding, position: name.parts[0].position }, name.parts[0]],
                    },
                ),
                position: e.position,
            }
        } else {
            e
        },
        _ => e,
    }
}

/// The same of each expression of a list, from a position on.
pub open spec fn qualified_all(l: Seq<ParsedExprView>, binding: Seq<char>, i: int, done: Seq<ParsedExprView>) -> Seq<ParsedExprView>
    decreases l, l.len() - i,
{
    if i < 0 || i >= l.len() {
        done
    } else {
        qualified_all(l, binding, i + 1, done.push(qualified(l[i], binding)))
    }
}

/// Gives the bare column names of an expression a relation.
pub fn qualify_conflict_expr(expr: &ParsedExpr, binding: &Identifier) -> (r: ParsedExpr)
    ensures
        r@ == qualified(expr@, binding@),
    decreases expr, 0int,
{
    proof {
        expr.unfold();
    }
    let position = expr.position;
    match &expr.kind {
        ParsedExprKind::Unary { op, expr } => {
            let expr = qualify_conflict_expr(expr, binding);
            make_expr(ParsedExprKind::Unary { op: *op, expr: Box::new(expr) }, position)
        },
        ParsedExprKind::Cast { expr, data_type, declared_type } => {
            let expr = qualify_conflict_expr(expr, binding);
            make_expr(
                ParsedExprKind::Cast { expr: Box::new(expr), data_type: data_type.clone(), declared_type: declared_type.clone() },
                position,
            )
        },
        ParsedExprKind::Array { elements, dimensions } => {
            let elements = qualify_conflict_expr_all(elements, binding);
            make_expr(ParsedExprKind::Array { elements, dimensions: copy_items(dimensions) }, position)
        },
        ParsedExprKind::Function { function, arguments } => {
            let arguments = qualify_conflict_expr_all(arguments, binding);
            make_expr(ParsedExprKind::Function { function: *function, arguments }, position)
        },
        ParsedExprKind::Binary { left, op, right } => {
            let left = qualify_conflict_expr(left, binding);
            let right = qualify_conflict_expr(right, binding);
            make_expr(ParsedExprKind::Binary { left: Box::new(left), op: *op, right: Box::new(right) }, position)
        },
        ParsedExprKind::InList { expr, list, negated } => {
            let expr = qualify_conflict_expr(expr, binding);
            let list = qualify_conflict_expr_all(list, binding);
            make_expr(ParsedExprKind::InList { expr: Box::new(expr), list, negated: *negated }, position)
        },
        ParsedExprKind::Aggregate { function, argument, distinct, filter } => {
            let argument: Option<Box<ParsedExpr>> = match argument {
                Some(x) => Some(Box::new(qualify_conflict_expr(x, binding))),
                None => None,
            };
            let filter: Option<Box<ParsedExpr>> = match filter {
                Some(x) => Some(Box::new(qualify_conflict_expr(x, binding))),
                None => None,
            };
            make_expr(ParsedExprKind::Aggregate { function: *function, argument, distinct: *distinct, filter }, position)
        },
        ParsedExprKind::Column(name) => {
            if name.parts.len() != 1 {
                return expr.clone();
            }
            assert(name@.parts[0] == name.parts@[0]@);
            let mut parts: Vec<ParsedIdentifier> = Vec::new();
            parts.push(ParsedIdentifier { name: binding.clone(), position: name.parts[0].position });
            parts.push(name.parts[0].clone());
            let full = ParsedObjectName { parts };
            assert(full@.parts =~= seq![
                ParsedIdentifierView { name: binding@, position: name@.parts[0].position },
                name@.parts[0],
            ]);
            make_expr(ParsedExprKind::Column(full), position)
        },
        _ => expr.clone(),
    }
}

fn qualify_conflict_expr_all(l: &Vec<ParsedExpr>, binding: &Identifier) -> (r: Vec<ParsedExpr>)
    ensures
        ParsedExpr::views(r@) == qualified_all(ParsedExpr::views(l@), binding@, 0, Seq::empty()),
    decreases l, 0int,
{
    let ghost v = ParsedExpr::views(l@);
    let mut out: Vec<ParsedExpr> = Vec::new();
    assert(ParsedExpr::views(out@) =~= Seq::empty());
    for i in 0..l.len()
        invariant
            v == ParsedExpr::views(l@),
            qualified_all(v, binding@, 0, Seq::empty()) == qualified_all(v, binding@, i as int, ParsedExpr::views(out@)),
    {
        assert(decreases_to!(l => l@[i as int]));
        assert(v[i as int] == l@[i as int]@);
        let x = qualify_conflict_expr(&l[i], binding);
        let ghost before = ParsedExpr::views(out@);
        out.push(x);
        assert(ParsedExpr::views(out@) =~= before.push(x@));
    }
    out
}

/// The bound assignments of an update, from a position on. Bare column names
/// belong to a relation where one is given.
pub open spec fn assignments_of(
    l: Seq<(ParsedIdentifierView, ParsedExprView)>,
    table: TableDefinitionView,
    scope: ScopeView,
    binding: Option<Seq<char>>,
    verb: Seq<char>,
    i: int,
    done: Seq<(usize, BoundExprView)>,
) -> Checked<Seq<(usize, BoundExprView)>>
    decreases l.len() - i,
{
    if i < 0 || i >= l.len() {
        Ok(done)
    } else {
        match find_column_index(table.columns, l[i].0.name, 0) {
            None => Err(no_column(l[i].0.name, l[i].0.position)),
            Some(k) => if assigned(done, k) {
                Err(repeated_column(l[i].0.name, verb, l[i].0.position))
            } else {
                match bound_form(
                    match binding {
                        Some(b) => qualified(l[i].1, b),
                        None => l[i].1,
                    },
                    scope,
                    Some(table.columns[k as int].data_type),
                ) {
                    Err(x) => Err(x),
                    Ok(b) => assignments_of(l, table, scope, binding, verb, i + 1, done.push((k, b))),
                }
            },
        }
    }
}

/// Whether a column is assigned.
pub open spec fn assigned(l: Seq<(usize, BoundExprView)>, k: usize) -> bool {
    exists|j: int| 0 <= j < l.len() && #[trigger] l[j].0 == k
}

fn is_assigned(l: &Vec<(usize, BoundExpr)>, k: usize) -> (r: bool)
    ensures
        r == assigned(bound_assignments(l@), k),
{
    let ghost v = bound_assignments(l@);
    for i in 0..l.len()
        invariant
            v == bound_assignments(l@),
            forall|j: int| 0 <= j < i ==> (#[trigger] v[j]).0 != k,
    {
        assert(v[i as int].0 == l@[i as int].0);
        if l[i].0 == k {
            return true;
        }
    }
    false
}

fn bind_assignments(
    l: &Vec<(ParsedIdentifier, ParsedExpr)>,
    table: &TableDefinition,
    scope: &Scope,
    binding: Option<&Identifier>,
    verb: &str,
) -> (r:
    Result<Vec<(usize, BoundExpr)>>)
    ensures
        (match r {
            Ok(x) => Ok(bound_assignments(x@)),
            Err(x) => Err(x@),
        }) == assignments_of(
            assignment_views(l@),
            table@,
            scope@,
            crate::scope::identifier_view(binding),
            verb@,
            0,
            Seq::empty(),
        ),
{
    let ghost v = assignment_views(l@);
    let ghost b = crate::scope::identifier_view(binding);
    let mut out: Vec<(usize, BoundExpr)> = Vec::new();
    assert(bound_assignments(out@) =~= Seq::empty());
    for i in 0..l.len()
        invariant
            v == assignment_views(l@),
            b == crate::scope::identifier_view(binding),
            assignments_of(v, table@, scope@, b, verb@, 0, Seq::empty()) == assignments_of(
                v,
                table@,
                scope@,
                b,
                verb@,
                i as int,
                bound_assignments(out@),
            ),
    {
        assert(v[i as int] == (l@[i as int].0@, l@[i as int].1@));
        let column = &l[i].0;
        match table.column_index(&column.name) {
            None => {
                return Err(no_such_column(&column.name, column.position));
            },
            Some(k) => {
                if is_assigned(&out, k) {
                    return Err(DbError::at("42701", text3("column ", column.name.as_str(), verb), column.position));
                }
                assert(table@.columns[k as int] == table.columns@[k as int]@);
                let e = match binding {
                    Some(n) => bind_in(&qualify_conflict_expr(&l[i].1, n), scope, Some(&table.columns[k].data_type))?,
                    None => bind_in(&l[i].1, scope, Some(&table.columns[k].data_type))?,
                };
                let ghost before = bound_assignments(out@);
                out.push((k, e));
                assert(bound_assignments(out@) =~= before.push((k, e@)));
            },
        }
    }
    Ok(out)
}

/// Binds the assignments of an UPDATE.
pub fn bind_update_assignments(l: &Vec<(ParsedIdentifier, ParsedExpr)>, table: &TableDefinition) -> (r: Result<Vec<(usize, BoundExpr)>>)
    ensures
        (match r {
            Ok(x) => Ok(bound_assignments(x@)),
            Err(x) => Err(x@),
        }) == assignments_of(
            assignment_views(l@),
            table@,
            table_scope(Some(table@)),
            None,
            " assigned more than once"@,
            0,
            Seq::empty(),
        ),
{
    let none: std::collections::BTreeMap<usize, ScalarType> = std::collections::BTreeMap::new();
    assert(crate::scope::parameter_views(none@) =~= Map::empty());
    bind_assignments(l, table, &Scope::Table { table: Some(table), parameters: &none }, None, " assigned more than once")
}

/// The identities of the columns of a conflict target, from a position on.
pub open spec fn conflict_ids(
    l: Seq<ParsedIdentifierView>,
    table: TableDefinitionView,
    i: int,
    done: Seq<ColumnId>,
) -> Checked<Seq<ColumnId>>
    decreases l.len() - i,
{
    if i < 0 || i >= l.len() {
        Ok(done)
    } else {
        match find_column(table.columns, l[i].name, 0) {
            None => Err(no_column(l[i].name, l[i].position)),
            Some(c) => if done.contains(c.id) {
                Err(repeated_column(l[i].name, " specified more than once"@, l[i].position))
            } else {
                conflict_ids(l, table, i + 1, done.push(c.id))
            },
        }
    }
}

/// Decides whether an identity stands in a list.
pub fn contains_id(l: &Vec<ColumnId>, id: ColumnId) -> (r: bool)
    ensures
        r == l@.contains(id),
{
    for i in 0..l.len()
        invariant
            forall|j: int| 0 <= j < i ==> l@[j] != id,
    {
        if l[i] == id {
            return true;
        }
    }
    false
}

/// Finds the identities of columns, each named once.
pub fn find_column_ids(l: &Vec<ParsedIdentifier>, table: &TableDefinition) -> (r: Result<Vec<ColumnId>>)
    ensures
        (match r {
            Ok(x) => Ok(x@),
            Err(x) => Err(x@),
        }) == conflict_ids(ParsedIdentifier::views(l@), table@, 0, Seq::empty()),
{
    let ghost v = ParsedIdentifier::views(l@);
    let mut out: Vec<ColumnId> = Vec::new();
    assert(out@ =~= Seq::empty());
    for i in 0..l.len()
        invariant
            v == ParsedIdentifier::views(l@),
            conflict_ids(v, table@, 0, Seq::empty()) == conflict_ids(v, table@, i as int, out@),
    {
        assert(v[i as int] == l@[i as int]@);
        match table.column(&l[i].name) {
            None => {
                return Err(no_such_column(&l[i].name, l[i].position));
            },
            Some(c) => {
                if contains_id(&out, c.id) {
                    return Err(
                        DbError::at("42701", text3("column ", l[i].name.as_str(), " specified more than once"), l[i].position),
                    );
                }
                out.push(c.id);
            },
        }
    }
    Ok(out)
}

/// Whether two lists of columns have the same length and the second holds the
/// columns of the first.
pub open spec fn same_columns(left: Seq<ColumnId>, right: Seq<ColumnId>) -> bool {
    left.len() == right.len() && forall|i: int| 0 <= i < left.len() ==> right.contains(#[trigger] left[i])
}

/// Decides whether two lists name the same columns.
pub fn same_column_set(left: &Vec<ColumnId>, right: &Vec<ColumnId>) -> (r: bool)
    ensures
        r == same_columns(left@, right@),
{
    if left.len() != right.len() {
        return false;
    }
    for i in 0..left.len()
        invariant
            forall|j: int| 0 <= j < i ==> right@.contains(#[trigger] left@[j]),
    {
        if !contains_id(right, left[i]) {
            assert(!right@.contains(left@[i as int]));
            return false;
        }
    }
    true
}

/// Whether an index makes a set of columns unique.
pub open spec fn makes_unique(index: IndexDefinitionView, ids: Seq<ColumnId>) -> bool {
    index.unique && index.method == IndexMethod::BTree && same_columns(index.key_columns, ids)
}

/// Whether one of the indexes makes a set of columns unique, from a position on.
pub open spec fn any_makes_unique(l: Seq<IndexDefinitionView>, ids: Seq<ColumnId>, i: int) -> bool
    decreases l.len() - i,
{
    0 <= i < l.len() && (makes_unique(l[i], ids) || any_makes_unique(l, ids, i + 1))
}

/// Decides whether one of the indexes makes a set of columns unique.
fn has_unique_index(l: &Vec<IndexDefinition>, ids: &Vec<ColumnId>) -> (r: bool)
    ensures
        r == any_makes_unique(IndexDefinition::views(l@), ids@, 0),
{
    let ghost v = IndexDefinition::views(l@);
    for i in 0..l.len()
        invariant
            v == IndexDefinition::views(l@),
            any_makes_unique(v, ids@, 0) == any_makes_unique(v, ids@, i as int),
    {
        assert(v[i as int] == l@[i as int]@);
        if (l[i].unique && l[i].method == IndexMethod::BTree && same_column_set(&l[i].key_columns, ids)) {
            return true;
        }
    }
    false
}

/// The identities of the columns of a conflict target.
pub open spec fn conflict_columns(target: ParsedConflictTargetView, table: TableDefinitionView) -> Checked<Seq<ColumnId>> {
    match target {
        ParsedConflictTargetView::Columns(columns) => if columns.len() == 0 {
            Err(error(SYNTAX_ERROR@, "ON CONFLICT column target is empty"@))
        } else {
            match conflict_ids(columns, table, 0, Seq::empty()) {
                Err(x) => Err(x),
                Ok(ids) => if any_makes_unique(table.indexes, ids, 0) {
                    Ok(ids)
                } else {
                    Err(error("42P10"@, "there is no unique or exclusion constraint matching ON CONFLICT"@))
                },
            }
        },
        ParsedConflictTargetView::Constraint(name) => if name.parts.len() != 1 {
            Err(unsupported_error("ON CONFLICT constraint names must be unqualified"@, name_position(name)))
        } else {
            match find_constraint(table.constraints, name.parts[0].name, 0) {
                None => Err(
                    error_at(
                        "42704"@,
                        "constraint "@ + name.parts[0].name + " for table "@ + table.name + " does not exist"@,
                        name.parts[0].position,
                    ),
                ),
                Some(c) => match c.kind {
                    ConstraintKindView::PrimaryKey { columns } => Ok(columns),
                    ConstraintKindView::Unique { columns } => Ok(columns),
                    _ => Err(error_at("42809"@, "constraint "@ + c.name + " is not unique"@, name.parts[0].position)),
                },
            }
        },
    }
}

fn find_conflict_columns(target: &ParsedConflictTarget, table: &TableDefinition) -> (r: Result<Vec<ColumnId>>)
    ensures
        (match r {
            Ok(x) => Ok(x@),
            Err(x) => Err(x@),
        }) == conflict_columns(target@, table@),
{
    match target {
        ParsedConflictTarget::Columns(columns) => {
            if columns.len() == 0 {
                return Err(DbError::new(SYNTAX_ERROR, text("ON CONFLICT column target is empty")));
            }
            let ids = find_column_ids(columns, table)?;
            if !has_unique_index(&table.indexes, &ids) {
                return Err(DbError::new("42P10", text("there is no unique or exclusion constraint matching ON CONFLICT")));
            }
            Ok(ids)
        },
        ParsedConflictTarget::Constraint(name) => {
            if name.parts.len() != 1 {
                return Err(unsupported_at("ON CONFLICT constraint names must be unqualified", position_of_name(name)));
            }
            assert(name@.parts[0] == name.parts@[0]@);
            let part = &name.parts[0];
            match table.constraint(&part.name) {
                None => Err(
                    DbError::at(
                        "42704",
                        text5("constraint ", part.name.as_str(), " for table ", table.name.as_str(), " does not exist"),
                        part.position,
                    ),
                ),
                Some(c) => match &c.kind {
                    ConstraintKind::PrimaryKey { columns } => Ok(copy_items(columns)),
                    ConstraintKind::Unique { columns } => Ok(copy_items(columns)),
                    _ => Err(DbError::at("42809", text3("constraint ", c.name.as_str(), " is not unique"), part.position)),
                },
            }
        },
    }
}

/// The positions of columns in their table, from one of them on.
pub open spec fn column_places(ids: Seq<ColumnId>, table: TableDefinitionView, i: int, done: Seq<usize>) -> Checked<Seq<usize>>
    decreases ids.len() - i,
{
    if i < 0 || i >= ids.len() {
        Ok(done)
    } else {
        match find_column_index_by_id(table.columns, ids[i], 0) {
            None => Err(internal_error("ON CONFLICT target column is absent from its table"@)),
            Some(k) => column_places(ids, table, i + 1, done.push(k)),
        }
    }
}

/// The columns of a conflict target.
pub open spec fn conflict_target(target: ParsedConflictTargetView, table: TableDefinitionView) -> Checked<Seq<usize>> {
    match conflict_columns(target, table) {
        Err(x) => Err(x),
        Ok(ids) => column_places(ids, table, 0, Seq::empty()),
    }
}

/// Binds a conflict target.
pub fn bind_conflict_target(target: &ParsedConflictTarget, table: &TableDefinition) -> (r: Result<Vec<usize>>)
    ensures
        (match r {
            Ok(x) => Ok(x@),
            Err(x) => Err(x@),
        }) == conflict_target(target@, table@),
{
    let ids = find_conflict_columns(target, table)?;
    let mut out: Vec<usize> = Vec::new();
    assert(out@ =~= Seq::empty());
    for i in 0..ids.len()
        invariant
            conflict_target(target@, table@) == column_places(ids@, table@, i as int, out@),
    {
        match table.column_index_by_id(ids[i]) {
            None => {
                return Err(DbError::internal("ON CONFLICT target column is absent from its table"));
            },
            Some(k) => out.push(k),
        }
    }
    Ok(out)
}

/// The columns that a conflicting update can name: those of the table and those
/// of the row that could not be inserted.
pub open spec fn conflict_inputs(table: TableDefinitionView) -> Seq<InputColumnView> {
    with_columns(
        normalized("excluded"@, false),
        table.columns,
        false,
        0,
        with_columns(table.name, table.columns, false, 0, Seq::empty()),
    )
}

/// The bound form of an ON CONFLICT clause.
#[verifier::opaque]
pub open spec fn on_conflict_of(c: ParsedOnConflictView, table: TableDefinitionView) -> Checked<BoundOnConflictView> {
    match (match c.target {
        None => Ok(None),
        Some(t) => match conflict_target(t, table) {
            Err(x) => Err(x),
            Ok(k) => Ok(Some(k)),
        },
    }) {
        Err(x) => Err(x),
        Ok(target_columns) => match c.action {
            ParsedConflictActionView::DoNothing => Ok(
                BoundOnConflictView { target_columns, action: BoundConflictActionView::DoNothing },
            ),
            ParsedConflictActionView::DoUpdate { assignments, filter } => if target_columns is None {
                Err(error(SYNTAX_ERROR@, "ON CONFLICT DO UPDATE requires a conflict target"@))
            } else if table.name == normalized("excluded"@, false) {
                Err(
                    DbErrorView {
                        hint: Some("Alias the target table when target aliases are supported."@),
                        ..error("42712"@, "table name excluded conflicts with the ON CONFLICT pseudo-relation"@)
                    },
                )
            } else {
                match assignments_of(
                    assignments,
                    table,
                    input_scope(conflict_inputs(table), false),
                    Some(table.name),
                    " specified more than once"@,
                    0,
                    Seq::empty(),
                ) {
                    Err(x) => Err(x),
                    Ok(assignments) => match (match filter {
                        None => Ok(None),
                        Some(e) => match predicate_of(qualified(e, table.name), input_scope(conflict_inputs(table), true)) {
                            Err(x) => Err(x),
                            Ok(b) => Ok(Some(b)),
                        },
                    }) {
                        Err(x) => Err(x),
                        Ok(filter) => Ok(
                            BoundOnConflictView { target_columns, action: BoundConflictActionView::DoUpdate { assignments, filter } },
                        ),
                    },
                }
            },
        },
    }
}

/// Binds an ON CONFLICT clause.
pub fn bind_on_conflict(on_conflict: &ParsedOnConflict, table: &TableDefinition) -> (r: Result<BoundOnConflict>)
    ensures
        (match r {
            Ok(x) => Ok(x@),
            Err(x) => Err(x@),
        }) == on_conflict_of(on_conflict@, table@),
{
    reveal(on_conflict_of);
    proof {
        on_conflict.unfold();
        on_conflict.action.unfold();
    }
    let target_columns: Option<Vec<usize>> = match &on_conflict.target {
        None => None,
        Some(t) => Some(bind_conflict_target(t, table)?),
    };
    match &on_conflict.action {
        ParsedConflictAction::DoNothing => Ok(BoundOnConflict { target_columns, action: BoundConflictAction::DoNothing }),
        ParsedConflictAction::DoUpdate { assignments, filter } => {
            if target_columns.is_none() {
                return Err(DbError::new(SYNTAX_ERROR, text("ON CONFLICT DO UPDATE requires a conflict target")));
            }
            let excluded = Identifier::unquoted("excluded");
            if table.name.same(&excluded) {
                return Err(
                    DbError::new("42712", text("table name excluded conflicts with the ON CONFLICT pseudo-relation")).with_hint(
                        "Alias the target table when target aliases are supported.",
                    ),
                );
            }
            let none: Vec<InputColumn> = Vec::new();
            assert(InputColumn::views(none@) =~= Seq::empty());
            let own = add_columns(&table.name, &table.columns, false, none);
            let inputs = add_columns(&excluded, &table.columns, false, own);
            let assignments = bind_assignments(
                assignments,
                table,
                &Scope::Inputs { inputs: &inputs, aggregates: false },
                Some(&table.name),
                " specified more than once",
            )?;
            let filter: Option<BoundExpr> = match filter {
                None => None,
                Some(e) => Some(bind_multi_boolean(&qualify_conflict_expr(e, &table.name), &inputs)?),
            };
            Ok(BoundOnConflict { target_columns, action: BoundConflictAction::DoUpdate { assignments, filter } })
        },
    }
}

/// Whether a bound expression reads a column at or after an index.
pub open spec fn reads_from(e: BoundExprView, first: usize) -> bool
    decreases e, 0int,
{
    match e.kind {
        BoundExprKindView::Column { index } => index >= first,
        BoundExprKindView::Unary { expr, .. } => reads_from(*expr, first),
        BoundExprKindView::Cast { expr } => reads_from(*expr, first),
        BoundExprKindView::Array { elements, .. } => any_reads_from(elements, first, 0),
        BoundExprKindView::Function { arguments, .. } => any_reads_from(arguments, first, 0),
        BoundExprKindView::Binary { left, right, .. } => reads_from(*left, first) || reads_from(*right, first),
        BoundExprKindView::InList { expr, list, .. } => reads_from(*expr, first) || any_reads_from(list, first, 0),
        BoundExprKindView::Aggregate { argument, filter, .. } => (argument is Some && reads_from(*argument->0, first)) || (filter is Some
            && reads_from(*filter->0, first)),
        _ => false,
    }
}

/// Whether one of the expressions from a position on reads a column at or after an
/// index.
pub open spec fn any_reads_from(l: Seq<BoundExprView>, first: usize, i: int) -> bool
    decreases l, l.len() - i,
{
    0 <= i < l.len() && (reads_from(l[i], first) || any_reads_from(l, first, i + 1))
}

/// Decides whether a bound expression reads a column at or after an index.
pub fn bound_expr_references_column_at_or_after(expr: &BoundExpr, first_index: usize) -> (r: bool)
    ensures
        r == reads_from(expr@, first_index),
    decreases expr, 0int,
{
    proof {
        expr.unfold();
    }
    match &expr.kind {
        BoundExprKind::Column { index } => *index >= first_index,
        BoundExprKind::Unary { expr, .. } => bound_expr_references_column_at_or_after(expr, first_index),
        BoundExprKind::Cast { expr } => bound_expr_references_column_at_or_after(expr, first_index),
        BoundExprKind::Array { elements, .. } => bound_exprs_reference_column_at_or_after(elements, first_index),
        BoundExprKind::Function { arguments, .. } => bound_exprs_reference_column_at_or_after(arguments, first_index),
        BoundExprKind::Binary { left, right, .. } => bound_expr_references_column_at_or_after(left, first_index)
            || bound_expr_references_column_at_or_after(right, first_index),
        BoundExprKind::InList { expr, list, .. } => bound_expr_references_column_at_or_after(expr, first_index)
            || bound_exprs_reference_column_at_or_after(list, first_index),
        BoundExprKind::Aggregate { argument, filter, .. } => (match argument {
            Some(a) => bound_expr_references_column_at_or_after(a, first_index),
            None => false,
        }) || (match filter {
            Some(f) => bound_expr_references_column_at_or_after(f, first_index),
            None => false,
        }),
        _ => false,
    }
}

fn bound_exprs_reference_column_at_or_after(l: &Vec<BoundExpr>, first_index: usize) -> (r: bool)
    ensures
        r == any_reads_from(BoundExpr::views(l@), first_index, 0),
    decreases l, 0int,
{
    let ghost v = BoundExpr::views(l@);
    for i in 0..l.len()
        invariant
            v == BoundExpr::views(l@),
            any_reads_from(v, first_index, 0) == any_reads_from(v, first_index, i as int),
    {
        assert(decreases_to!(l => l@[i as int]));
        assert(v[i as int] == l@[i as int]@);
        if bound_expr_references_column_at_or_after(&l[i], first_index) {
            return true;
        }
    }
    false
}

/// The error of a MERGE branch that reads source columns which are not there.
pub open spec fn no_merge_source() -> DbErrorView {
    DbErrorView {
        hint: Some("Reference only target columns in this MERGE branch."@),
        ..error(UNDEFINED_TABLE@, "MERGE source columns are not available in WHEN NOT MATCHED BY SOURCE"@)
    }
}

fn invalid_merge_source_reference() -> (r: DbError)
    ensures
        r@ == no_merge_source(),
{
    DbError::new(UNDEFINED_TABLE, text("MERGE source columns are not available in WHEN NOT MATCHED BY SOURCE")).with_hint(
        "Reference only target columns in this MERGE branch.",
    )
}

/// Which rows a MERGE clause applies to.
pub open spec fn merge_kind(k: ParsedMergeClauseKind) -> BoundMergeClauseKind {
    match k {
        ParsedMergeClauseKind::Matched => BoundMergeClauseKind::Matched,
        ParsedMergeClauseKind::NotMatchedByTarget => BoundMergeClauseKind::NotMatchedByTarget,
        ParsedMergeClauseKind::NotMatchedBySource => BoundMergeClauseKind::NotMatchedBySource,
    }
}

/// A predicate of a MERGE, without aggregates.
pub open spec fn merge_predicate(e: ParsedExprView, inputs: Seq<InputColumnView>) -> Checked<BoundExprView> {
    predicate_of(e, input_scope(inputs, false))
}

fn bind_merge_boolean(expr: &ParsedExpr, inputs: &Vec<InputColumn>) -> (r: Result<BoundExpr>)
    ensures
        expr_result(r) == merge_predicate(expr@, InputColumn::views(inputs@)),
{
    let bound = crate::binding::bind_expr_multi(expr, inputs, Some(&ScalarType::Boolean), false)?;
    proof {
        bound.unfold();
        expr.unfold();
    }
    if !matches!(bound.data_type, ScalarType::Boolean) {
        return Err(DbError::at(DATATYPE_MISMATCH, text("predicate must be boolean"), expr.position));
    }
    Ok(bound)
}

/// Whether one of the assignments from a position on reads a column at or after an
/// index.
pub open spec fn any_assigned_from(l: Seq<(usize, BoundExprView)>, first: usize, i: int) -> bool
    decreases l.len() - i,
{
    0 <= i < l.len() && (reads_from(l[i].1, first) || any_assigned_from(l, first, i + 1))
}

fn assignments_read_from(l: &Vec<(usize, BoundExpr)>, first: usize) -> (r: bool)
    ensures
        r == any_assigned_from(bound_assignments(l@), first, 0),
{
    let ghost v = bound_assignments(l@);
    for i in 0..l.len()
        invariant
            v == bound_assignments(l@),
            any_assigned_from(v, first, 0) == any_assigned_from(v, first, i as int),
    {
        assert(v[i as int] == (l@[i as int].0, l@[i as int].1@));
        if bound_expr_references_column_at_or_after(&l[i].1, first) {
            return true;
        }
    }
    false
}

/// The bound action of a MERGE clause.
#[verifier::opaque]
pub open spec fn merge_action(
    a: ParsedMergeActionView,
    kind: ParsedMergeClauseKind,
    table: TableDefinitionView,
    inputs: Seq<InputColumnView>,
    source: usize,
) -> Checked<BoundMergeActionView> {
    match a {
        ParsedMergeActionView::Update { assignments } => if kind == ParsedMergeClauseKind::NotMatchedByTarget {
            Err(error(SYNTAX_ERROR@, "MERGE UPDATE requires WHEN MATCHED or WHEN NOT MATCHED BY SOURCE"@))
        } else {
            match assignments_of(assignments, table, input_scope(inputs, false), None, " assigned more than once"@, 0, Seq::empty()) {
                Err(x) => Err(x),
                Ok(assignments) => if kind == ParsedMergeClauseKind::NotMatchedBySource && any_assigned_from(assignments, source, 0) {
                    Err(no_merge_source())
                } else {
                    Ok(BoundMergeActionView::Update { assignments })
                },
            }
        },
        ParsedMergeActionView::Delete => if kind == ParsedMergeClauseKind::NotMatchedByTarget {
            Err(error(SYNTAX_ERROR@, "MERGE DELETE requires WHEN MATCHED or WHEN NOT MATCHED BY SOURCE"@))
        } else {
            Ok(BoundMergeActionView::Delete)
        },
        ParsedMergeActionView::Insert { columns, values } => if kind != ParsedMergeClauseKind::NotMatchedByTarget {
            Err(error(SYNTAX_ERROR@, "MERGE INSERT requires WHEN NOT MATCHED"@))
        } else {
            match target_columns(columns, table) {
                Err(x) => Err(x),
                Ok(column_indexes) => if values.len() != column_indexes.len() {
                    Err(error(SYNTAX_ERROR@, "MERGE INSERT has more target columns than expressions"@))
                } else {
                    match row_values(values, column_indexes, table, input_scope(inputs, false), 0, Seq::empty()) {
                        Err(x) => Err(x),
                        Ok(values) => Ok(BoundMergeActionView::Insert { column_indexes, values }),
                    }
                },
            }
        },
        ParsedMergeActionView::DoNothing => Ok(BoundMergeActionView::DoNothing),
    }
}

fn bind_merge_action(
    a: &ParsedMergeAction,
    kind: ParsedMergeClauseKind,
    table: &TableDefinition,
    inputs: &Vec<InputColumn>,
    source: usize,
) -> (r: Result<BoundMergeAction>)
    ensures
        (match r {
            Ok(x) => Ok(x@),
            Err(x) => Err(x@),
        }) == merge_action(a@, kind, table@, InputColumn::views(inputs@), source),
{
    reveal(merge_action);
    proof {
        a.unfold();
    }
    let scope = Scope::Inputs { inputs, aggregates: false };
    match a {
        ParsedMergeAction::Update { assignments } => {
            if kind == ParsedMergeClauseKind::NotMatchedByTarget {
                return Err(DbError::new(SYNTAX_ERROR, text("MERGE UPDATE requires WHEN MATCHED or WHEN NOT MATCHED BY SOURCE")));
            }
            let assignments = bind_assignments(assignments, table, &scope, None, " assigned more than once")?;
            if kind == ParsedMergeClauseKind::NotMatchedBySource && assignments_read_from(&assignments, source) {
                return Err(invalid_merge_source_reference());
            }
            Ok(BoundMergeAction::Update { assignments })
        },
        ParsedMergeAction::Delete => {
            if kind == ParsedMergeClauseKind::NotMatchedByTarget {
                return Err(DbError::new(SYNTAX_ERROR, text("MERGE DELETE requires WHEN MATCHED or WHEN NOT MATCHED BY SOURCE")));
            }
            Ok(BoundMergeAction::Delete)
        },
        ParsedMergeAction::Insert { columns, values } => {
            if kind != ParsedMergeClauseKind::NotMatchedByTarget {
                return Err(DbError::new(SYNTAX_ERROR, text("MERGE INSERT requires WHEN NOT MATCHED")));
            }
            let column_indexes = find_target_columns(columns, table)?;
            if values.len() != column_indexes.len() {
                return Err(DbError::new(SYNTAX_ERROR, text("MERGE INSERT has more target columns than expressions")));
            }
            let values = bind_row_values(values, &column_indexes, table, &scope)?;
            Ok(BoundMergeAction::Insert { column_indexes, values })
        },
        ParsedMergeAction::DoNothing => Ok(BoundMergeAction::DoNothing),
    }
}

/// The bound form of a MERGE clause.
pub open spec fn merge_clause(c: ParsedMergeClauseView, table: TableDefinitionView, inputs: Seq<InputColumnView>, source: usize) -> Checked<
    BoundMergeClauseView,
> {
    match (match c.predicate {
        None => Ok(None),
        Some(e) => match merge_predicate(e, inputs) {
            Err(x) => Err(x),
            Ok(b) => Ok(Some(b)),
        },
    }) {
        Err(x) => Err(x),
        Ok(predicate) => if c.kind == ParsedMergeClauseKind::NotMatchedBySource && predicate is Some && reads_from(predicate->0, source) {
            Err(no_merge_source())
        } else {
            match merge_action(c.action, c.kind, table, inputs, source) {
                Err(x) => Err(x),
                Ok(action) => Ok(BoundMergeClauseView { kind: merge_kind(c.kind), predicate, action }),
            }
        },
    }
}

fn bind_merge_clause(
    c: &ParsedMergeClause,
    table: &TableDefinition,
    inputs: &Vec<InputColumn>,
    source: usize,
) -> (r: Result<BoundMergeClause>)
    ensures
        (match r {
            Ok(x) => Ok(x@),
            Err(x) => Err(x@),
        }) == merge_clause(c@, table@, InputColumn::views(inputs@), source),
{
    proof {
        c.unfold();
    }
    let kind = match c.kind {
        ParsedMergeClauseKind::Matched => BoundMergeClauseKind::Matched,
        ParsedMergeClauseKind::NotMatchedByTarget => BoundMergeClauseKind::NotMatchedByTarget,
        ParsedMergeClauseKind::NotMatchedBySource => BoundMergeClauseKind::NotMatchedBySource,
    };
    let predicate: Option<BoundExpr> = match &c.predicate {
        None => None,
        Some(e) => Some(bind_merge_boolean(e, inputs)?),
    };
    if let Some(p) = &predicate {
        if c.kind == ParsedMergeClauseKind::NotMatchedBySource && bound_expr_references_column_at_or_after(p, source) {
            return Err(invalid_merge_source_reference());
        }
    }
    let action = bind_merge_action(&c.action, c.kind, table, inputs, source)?;
    Ok(BoundMergeClause { kind, predicate, action })
}

/// The bound clauses of a MERGE, from a position on.
pub open spec fn merge_clauses(
    l: Seq<ParsedMergeClauseView>,
    table: TableDefinitionView,
    inputs: Seq<InputColumnView>,
    source: usize,
    i: int,
    done: Seq<BoundMergeClauseView>,
) -> Checked<Seq<BoundMergeClauseView>>
    decreases l.len() - i,
{
    if i < 0 || i >= l.len() {
        Ok(done)
    } else {
        match merge_clause(l[i], table, inputs, source) {
            Err(x) => Err(x),
            Ok(b) => merge_clauses(l, table, inputs, source, i + 1, done.push(b)),
        }
    }
}

fn bind_merge_clauses(
    l: &Vec<ParsedMergeClause>,
    table: &TableDefinition,
    inputs: &Vec<InputColumn>,
    source: usize,
) -> (r: Result<Vec<BoundMergeClause>>)
    ensures
        (match r {
            Ok(l) => Ok(BoundMergeClause::views(l@)),
            Err(e) => Err(e@),
        }) == merge_clauses(ParsedMergeClause::views(l@), table@, InputColumn::views(inputs@), source, 0, Seq::empty()),
{
    let ghost v = ParsedMergeClause::views(l@);
    let mut out: Vec<BoundMergeClause> = Vec::new();
    assert(BoundMergeClause::views(out@) =~= Seq::empty());
    for i in 0..l.len()
        invariant
            v == ParsedMergeClause::views(l@),
            merge_clauses(v, table@, InputColumn::views(inputs@), source, 0, Seq::empty()) == merge_clauses(
                v,
                table@,
                InputColumn::views(inputs@),
                source,
                i as int,
                BoundMergeClause::views(out@),
            ),
    {
        assert(v[i as int] == l@[i as int]@);
        let x = bind_merge_clause(&l[i], table, inputs, source)?;
        let ghost before = BoundMergeClause::views(out@);
        out.push(x);
        assert(BoundMergeClause::views(out@) =~= before.push(x@));
    }
    Ok(out)
}

/// The bound form of a MERGE.
#[verifier::opaque]
pub open spec fn merge_of(m: ParsedMergeView, catalog: CatalogView) -> Checked<BoundMergeView> {
    match named_table(m.target.name, catalog) {
        Err(x) => Err(x),
        Ok(table) => match input_table(m.target, false, catalog, Seq::empty()) {
            Err(x) => Err(x),
            Ok((target, own)) => match input_table(m.source, false, catalog, own) {
                Err(x) => Err(x),
                Ok((source, inputs)) => match merge_predicate(m.on, inputs) {
                    Err(x) => Err(x),
                    Ok(on) => match merge_clauses(m.clauses, table, inputs, source.offset, 0, Seq::empty()) {
                        Err(x) => Err(x),
                        Ok(clauses) => match returning_of(m.returning, table) {
                            Err(x) => Err(x),
                            Ok(returning) => Ok(BoundMergeView { target, source, on, clauses, returning }),
                        },
                    },
                },
            },
        },
    }
}

/// Binds a MERGE.
pub fn bind_merge(merge: &ParsedMerge, catalog: &Catalog) -> (r: Result<BoundMerge>)
    ensures
        (match r {
            Ok(x) => Ok(x@),
            Err(x) => Err(x@),
        }) == merge_of(merge@, catalog@),
{
    reveal(merge_of);
    proof {
        merge.unfold();
    }
    let table = resolve_table(&merge.target.name, catalog)?;
    let none: Vec<InputColumn> = Vec::new();
    assert(InputColumn::views(none@) =~= Seq::empty());
    let (target, own) = bind_input_table(&merge.target, false, catalog, none)?;
    let (source, inputs) = bind_input_table(&merge.source, false, catalog, own)?;
    let on = bind_merge_boolean(&merge.on, &inputs)?;
    let clauses = bind_merge_clauses(&merge.clauses, table, &inputs, source.offset)?;
    let returning = bind_returning(&merge.returning, table)?;
    Ok(BoundMerge { target, source, on, clauses, returning })
}

/// An INSERT into a relation, before its source is known.
pub struct InsertParts {
    pub column_indexes: Vec<usize>,
    pub rows: Vec<Vec<BoundExpr>>,
    pub on_conflict: Option<BoundOnConflict>,
    pub returning: Option<BoundReturning>,
}

/// Mathematical contents of [`InsertParts`].
pub struct InsertPartsView {
    pub column_indexes: Seq<usize>,
    pub rows: Seq<Seq<BoundExprView>>,
    pub on_conflict: Option<BoundOnConflictView>,
    pub returning: Option<BoundReturningView>,
}

impl InsertParts {
    /// The value as mathematical data.
    pub open spec fn view(&self) -> InsertPartsView {
        InsertPartsView {
            column_indexes: self.column_indexes@,
            rows: bound_rows(self.rows@),
            on_conflict: match self.on_conflict {
                Some(x) => Some(x@),
                None => None,
            },
            returning: match self.returning {
                Some(x) => Some(x@),
                None => None,
            },
        }
    }
}

/// The bound parts of an INSERT.
#[verifier::opaque]
pub open spec fn insert_parts(
    relation: DmlRelationView,
    columns: Seq<ParsedIdentifierView>,
    rows: Seq<Seq<ParsedExprView>>,
    on_conflict: Option<ParsedOnConflictView>,
    returning: Seq<crate::syntax::ParsedProjectionView>,
) -> Checked<InsertPartsView> {
    match target_columns(columns, relation.scope) {
        Err(x) => Err(x),
        Ok(column_indexes) => if rows.len() == 0 {
            Err(error(SYNTAX_ERROR@, "INSERT requires at least one row"@))
        } else {
            match insert_rows(rows, column_indexes, relation.scope, 0, Seq::empty()) {
                Err(x) => Err(x),
                Ok(rows) => if relation.target is View && on_conflict is Some {
                    Err(unsupported_error("ON CONFLICT is not supported for view DML"@, None))
                } else {
                    match (match on_conflict {
                        None => Ok(None),
                        Some(c) => match on_conflict_of(c, relation.scope) {
                            Err(x) => Err(x),
                            Ok(b) => Ok(Some(b)),
                        },
                    }) {
                        Err(x) => Err(x),
                        Ok(on_conflict) => match returning_of(returning, relation.scope) {
                            Err(x) => Err(x),
                            Ok(returning) => Ok(InsertPartsView { column_indexes, rows, on_conflict, returning }),
                        },
                    }
                },
            }
        },
    }
}

/// Binds the parts of an INSERT.
pub fn bind_insert_parts(
    relation: &DmlRelation,
    columns: &Vec<ParsedIdentifier>,
    rows: &Vec<Vec<ParsedExpr>>,
    on_conflict: &Option<ParsedOnConflict>,
    returning: &Vec<crate::syntax::ParsedProjection>,
) -> (r: Result<InsertParts>)
    ensures
        (match r {
            Ok(x) => Ok(x@),
            Err(x) => Err(x@),
        }) == insert_parts(
            relation@,
            ParsedIdentifier::views(columns@),
            expr_rows(rows@),
            (match *on_conflict {
                Some(c) => Some(c@),
                None => None,
            }),
            crate::syntax::ParsedProjection::views(returning@),
        ),
{
    reveal(insert_parts);
    let table = &relation.scope;
    let column_indexes = find_target_columns(columns, table)?;
    if rows.len() == 0 {
        return Err(DbError::new(SYNTAX_ERROR, text("INSERT requires at least one row")));
    }
    let rows = bind_insert_rows(rows, &column_indexes, table)?;
    if matches!(relation.target, DmlTarget::View(_)) && on_conflict.is_some() {
        return Err(crate::types::unsupported("ON CONFLICT is not supported for view DML"));
    }
    let on_conflict: Option<BoundOnConflict> = match on_conflict {
        None => None,
        Some(c) => Some(bind_on_conflict(c, table)?),
    };
    let returning = bind_returning(returning, table)?;
    Ok(InsertParts { column_indexes, rows, on_conflict, returning })
}

/// The columns that a row fills lie in the table, and none is filled twice.
pub proof fn lemma_target_columns(l: Seq<ParsedIdentifierView>, table: TableDefinitionView)
    requires
        table.columns.len() <= usize::MAX,
    ensures
        target_columns(l, table) matches Ok(k) ==> k.no_duplicates() && (
            forall|j: int| 0 <= j < k.len() ==> #[trigger] k[j] < table.columns.len()
        ),
{
    if l.len() > 0 {
        lemma_named_columns(l, table, 0, Seq::empty());
    }
}

proof fn lemma_named_columns(l: Seq<ParsedIdentifierView>, table: TableDefinitionView, i: int, done: Seq<usize>)
    requires
        0 <= i,
        table.columns.len() <= usize::MAX,
        done.no_duplicates(),
        forall|j: int| 0 <= j < done.len() ==> #[trigger] done[j] < table.columns.len(),
    ensures
        named_columns(l, table, i, done) matches Ok(k) ==> k.no_duplicates() && (forall|j: int|
            0 <= j < k.len() ==> #[trigger] k[j] < table.columns.len()),
    decreases l.len() - i,
{
    if i < l.len() {
        lemma_column_index(table.columns, l[i].name, 0);
        if let Some(k) = find_column_index(table.columns, l[i].name, 0) {
            if !done.contains(k) {
                lemma_named_columns(l, table, i + 1, done.push(k));
            }
        }
    }
}

proof fn lemma_row_values(
    row: Seq<ParsedExprView>,
    indexes: Seq<usize>,
    table: TableDefinitionView,
    scope: ScopeView,
    i: int,
    done: Seq<BoundExprView>,
)
    requires
        0 <= i <= row.len(),
        done.len() == i,
    ensures
        row_values(row, indexes, table, scope, i, done) matches Ok(b) ==> b.len() == row.len(),
    decreases row.len() - i,
{
    if i < row.len() {
        if let Ok(b) = bound_form(row[i], scope, Some(table.columns[indexes[i] as int].data_type)) {
            lemma_row_values(row, indexes, table, scope, i + 1, done.push(b));
        }
    }
}

/// Every row of an INSERT is bound, and each has one value for each column that it
/// fills.
pub proof fn lemma_insert_rows(rows: Seq<Seq<ParsedExprView>>, indexes: Seq<usize>, table: TableDefinitionView)
    ensures
        insert_rows(rows, indexes, table, 0, Seq::empty()) matches Ok(b) ==> b.len() == rows.len() && (forall|j: int|
            0 <= j < b.len() ==> (#[trigger] b[j]).len() == indexes.len()),
{
    lemma_insert_rows_from(rows, indexes, table, 0, Seq::empty());
}

proof fn lemma_insert_rows_from(
    rows: Seq<Seq<ParsedExprView>>,
    indexes: Seq<usize>,
    table: TableDefinitionView,
    i: int,
    done: Seq<Seq<BoundExprView>>,
)
    requires
        0 <= i <= rows.len(),
        done.len() == i,
        forall|j: int| 0 <= j < done.len() ==> (#[trigger] done[j]).len() == indexes.len(),
    ensures
        insert_rows(rows, indexes, table, i, done) matches Ok(b) ==> b.len() == rows.len() && (forall|j: int|
            0 <= j < b.len() ==> (#[trigger] b[j]).len() == indexes.len()),
    decreases rows.len() - i,
{
    if i < rows.len() && rows[i].len() == indexes.len() {
        lemma_row_values(rows[i], indexes, table, table_scope(None), 0, Seq::empty());
        if let Ok(b) = row_values(rows[i], indexes, table, table_scope(None), 0, Seq::empty()) {
            lemma_insert_rows_from(rows, indexes, table, i + 1, done.push(b));
        }
    }
}

/// Whether no column is assigned twice and each lies in the table.
pub open spec fn assigned_once(l: Seq<(usize, BoundExprView)>, table: TableDefinitionView) -> bool {
    &&& forall|j: int| 0 <= j < l.len() ==> (#[trigger] l[j]).0 < table.columns.len()
    &&& forall|j: int, k: int| 0 <= j < k < l.len() ==> (#[trigger] l[j]).0 != (#[trigger] l[k]).0
}

/// An update assigns no column twice, and only columns of its table.
pub proof fn lemma_assignments(
    l: Seq<(ParsedIdentifierView, ParsedExprView)>,
    table: TableDefinitionView,
    scope: ScopeView,
    binding: Option<Seq<char>>,
    verb: Seq<char>,
    i: int,
    done: Seq<(usize, BoundExprView)>,
)
    requires
        0 <= i,
        table.columns.len() <= usize::MAX,
        assigned_once(done, table),
    ensures
        assignments_of(l, table, scope, binding, verb, i, done) matches Ok(a) ==> assigned_once(a, table),
    decreases l.len() - i,
{
    if i < l.len() {
        lemma_column_index(table.columns, l[i].0.name, 0);
        if let Some(k) = find_column_index(table.columns, l[i].0.name, 0) {
            if !assigned(done, k) {
                let e = match binding {
                    Some(b) => qualified(l[i].1, b),
                    None => l[i].1,
                };
                if let Ok(b) = bound_form(e, scope, Some(table.columns[k as int].data_type)) {
                    let next = done.push((k, b));
                    assert forall|j: int, m: int| 0 <= j < m < next.len() implies (#[trigger] next[j]).0 != (#[trigger] next[m]).0 by {
                        if m == done.len() {
                            assert(done[j].0 != k);
                        }
                    }
                    lemma_assignments(l, table, scope, binding, verb, i + 1, next);
                }
            }
        }
    }
}

} // verus!
