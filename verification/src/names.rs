//! Names of relations and of output columns.

use vstd::prelude::*;

use crate::catalog::{Catalog, CatalogView, TableDefinition, TableDefinitionView, TriggerTarget};
use crate::scope::{name_position, position_of_name, Checked};
use crate::syntax::{
    ParsedExpr, ParsedExprKind, ParsedExprKindView, ParsedExprView, ParsedIdentifier, ParsedIdentifierView, ParsedObjectName,
    ParsedObjectNameView, ScalarFunction,
};
use crate::text::{text, text3, text5};
use crate::types::{
    error_at, internal_error, unsupported_at, unsupported_error, DbError, DbErrorView, Identifier, Result, UNDEFINED_SCHEMA,
    UNDEFINED_TABLE,
};

verus! {

/// A relation name taken apart: its schema, its own name and where it is written.
pub struct SplitName {
    pub schema: Seq<char>,
    pub name: Seq<char>,
    pub position: Option<usize>,
}

/// The first of two places that is known.
pub open spec fn first_place(a: Option<usize>, b: Option<usize>) -> Option<usize> {
    match a {
        Some(p) => Some(p),
        None => b,
    }
}

/// The first of two places that is known.
pub fn either_place(a: Option<usize>, b: Option<usize>) -> (r: Option<usize>)
    ensures
        r == first_place(a, b),
{
    match a {
        Some(p) => Some(p),
        None => b,
    }
}

/// How a relation name is taken apart. A name without a schema is in `public`.
pub open spec fn split_name(name: ParsedObjectNameView) -> Checked<SplitName> {
    if name.parts.len() == 1 {
        Ok(SplitName { schema: crate::types::normalized("public"@, false), name: name.parts[0].name, position: name.parts[0].position })
    } else if name.parts.len() == 2 {
        Ok(
            SplitName {
                schema: name.parts[0].name,
                name: name.parts[1].name,
                position: first_place(name.parts[1].position, name.parts[0].position),
            },
        )
    } else {
        Err(unsupported_error("database-qualified names are not supported yet"@, name_position(name)))
    }
}

/// Takes a relation name apart.
pub fn split_table_name(name: &ParsedObjectName) -> (r: Result<(Identifier, Identifier, Option<usize>)>)
    ensures
        match r {
            Ok(p) => split_name(name@) == Ok::<SplitName, DbErrorView>(SplitName { schema: p.0@, name: p.1@, position: p.2 }),
            Err(e) => split_name(name@) == Err::<SplitName, DbErrorView>(e@),
        },
{
    if name.parts.len() == 1 {
        assert(name@.parts[0] == name.parts@[0]@);
        Ok((Identifier::unquoted("public"), name.parts[0].name.clone(), name.parts[0].position))
    } else if name.parts.len() == 2 {
        assert(name@.parts[0] == name.parts@[0]@);
        assert(name@.parts[1] == name.parts@[1]@);
        Ok((name.parts[0].name.clone(), name.parts[1].name.clone(), either_place(name.parts[1].position, name.parts[0].position)))
    } else {
        Err(unsupported_at("database-qualified names are not supported yet", position_of_name(name)))
    }
}

/// The error of a schema that does not exist.
pub open spec fn no_schema(name: Seq<char>, position: Option<usize>) -> DbErrorView {
    error_at(UNDEFINED_SCHEMA@, "schema "@ + name + " does not exist"@, position)
}

/// The error of a schema that does not exist.
pub fn no_such_schema(name: &Identifier, position: Option<usize>) -> (r: DbError)
    ensures
        r@ == no_schema(name@, position),
{
    DbError::at(UNDEFINED_SCHEMA, text3("schema ", name.as_str(), " does not exist"), position)
}

/// The error of an object that does not exist.
pub open spec fn no_object(state: Seq<char>, kind: Seq<char>, schema: Seq<char>, name: Seq<char>, position: Option<usize>) -> DbErrorView {
    error_at(state, kind + schema + "."@ + name + " does not exist"@, position)
}

/// The error of an object that does not exist.
pub fn no_such_object(state: &str, kind: &str, schema: &Identifier, name: &Identifier, position: Option<usize>) -> (r: DbError)
    ensures
        r@ == no_object(state@, kind@, schema@, name@, position),
{
    DbError::at(state, text5(kind, schema.as_str(), ".", name.as_str(), " does not exist"), position)
}

/// The table that a name denotes.
pub open spec fn named_table(name: ParsedObjectNameView, catalog: CatalogView) -> Checked<TableDefinitionView> {
    match split_name(name) {
        Err(e) => Err(e),
        Ok(s) => if catalog.schema(s.schema) is None {
            Err(no_schema(s.schema, s.position))
        } else {
            match catalog.table(s.schema, s.name) {
                Some(t) => Ok(t),
                None => Err(no_object(UNDEFINED_TABLE@, "relation "@, s.schema, s.name, s.position)),
            }
        },
    }
}

/// Finds the table that a name denotes.
pub fn resolve_table<'a>(name: &ParsedObjectName, catalog: &'a Catalog) -> (r: Result<&'a TableDefinition>)
    ensures
        match r {
            Ok(t) => named_table(name@, catalog@) == Ok::<TableDefinitionView, DbErrorView>(t@),
            Err(e) => named_table(name@, catalog@) == Err::<TableDefinitionView, DbErrorView>(e@),
        },
{
    let (schema, table, position) = split_table_name(name)?;
    if catalog.schema(&schema).is_none() {
        return Err(no_such_schema(&schema, position));
    }
    match catalog.table(&schema, &table) {
        Some(t) => Ok(t),
        None => Err(no_such_object(UNDEFINED_TABLE, "relation ", &schema, &table, position)),
    }
}

/// The table or view that a trigger is attached to.
pub open spec fn trigger_target(name: ParsedObjectNameView, catalog: CatalogView) -> Checked<TriggerTarget> {
    match split_name(name) {
        Err(e) => Err(e),
        Ok(s) => if catalog.schema(s.schema) is None {
            Err(no_schema(s.schema, s.position))
        } else {
            match (catalog.table(s.schema, s.name), catalog.view_of(s.schema, s.name)) {
                (Some(t), _) => Ok(TriggerTarget::Table(t.id)),
                (None, Some(v)) => Ok(TriggerTarget::View(v.id)),
                (None, None) => Err(no_object(UNDEFINED_TABLE@, "relation "@, s.schema, s.name, s.position)),
            }
        },
    }
}

/// Finds the table or view that a trigger is attached to.
pub fn resolve_trigger_target(name: &ParsedObjectName, catalog: &Catalog) -> (r: Result<TriggerTarget>)
    ensures
        match r {
            Ok(t) => trigger_target(name@, catalog@) == Ok::<TriggerTarget, DbErrorView>(t),
            Err(e) => trigger_target(name@, catalog@) == Err::<TriggerTarget, DbErrorView>(e@),
        },
{
    let (schema_name, relation_name, position) = split_table_name(name)?;
    if catalog.schema(&schema_name).is_none() {
        return Err(no_such_schema(&schema_name, position));
    }
    if let Some(table) = catalog.table(&schema_name, &relation_name) {
        return Ok(TriggerTarget::Table(table.id));
    }
    if let Some(view) = catalog.view_named(&schema_name, &relation_name) {
        return Ok(TriggerTarget::View(view.id));
    }
    Err(no_such_object(UNDEFINED_TABLE, "relation ", &schema_name, &relation_name, position))
}

/// The name of the table or view that a trigger is attached to.
pub open spec fn target_name(target: TriggerTarget, catalog: CatalogView) -> Checked<Seq<char>> {
    match target {
        TriggerTarget::Table(id) => match catalog.table_by_id(id) {
            Some(t) => Ok(t.name),
            None => Err(internal_error("bound trigger table disappeared"@)),
        },
        TriggerTarget::View(id) => match catalog.view_by_id(id) {
            Some(v) => Ok(v.name),
            None => Err(internal_error("bound trigger view disappeared"@)),
        },
    }
}

/// Finds the name of the table or view that a trigger is attached to.
pub fn trigger_target_name<'a>(target: TriggerTarget, catalog: &'a Catalog) -> (r: Result<&'a Identifier>)
    ensures
        match r {
            Ok(n) => target_name(target, catalog@) == Ok::<Seq<char>, DbErrorView>(n@),
            Err(e) => target_name(target, catalog@) == Err::<Seq<char>, DbErrorView>(e@),
        },
{
    match target {
        TriggerTarget::Table(id) => match catalog.table_by_id(id) {
            Some(t) => Ok(&t.name),
            None => Err(DbError::internal("bound trigger table disappeared")),
        },
        TriggerTarget::View(id) => match catalog.view_by_id(id) {
            Some(v) => Ok(&v.name),
            None => Err(DbError::internal("bound trigger view disappeared")),
        },
    }
}

/// The name of an output column without an alias.
pub open spec fn output_name(e: ParsedExprView) -> Seq<char> {
    match e.kind {
        ParsedExprKindView::Column(column) => if column.parts.len() > 0 {
            column.parts.last().name
        } else {
            "?column?"@
        },
        ParsedExprKindView::Function { function, .. } => match function {
            ScalarFunction::Version => "version"@,
            ScalarFunction::CurrentDatabase => "current_database"@,
            ScalarFunction::CurrentUser => "current_user"@,
            ScalarFunction::SessionUser => "session_user"@,
            _ => "?column?"@,
        },
        _ => "?column?"@,
    }
}

/// Finds the name of an output column without an alias.
pub fn projection_name(expr: &ParsedExpr) -> (r: String)
    ensures
        r@ == output_name(expr@),
{
    proof {
        expr.unfold();
    }
    match &expr.kind {
        ParsedExprKind::Column(column) => {
            let n: usize = column.parts.len();
            if n > 0 {
                assert(column@.parts[n - 1] == column.parts@[n - 1]@);
                return text(column.parts[n - 1].name.as_str());
            }
            text("?column?")
        },
        ParsedExprKind::Function { function, .. } => match function {
            ScalarFunction::Version => text("version"),
            ScalarFunction::CurrentDatabase => text("current_database"),
            ScalarFunction::CurrentUser => text("current_user"),
            ScalarFunction::SessionUser => text("session_user"),
            _ => text("?column?"),
        },
        _ => text("?column?"),
    }
}

/// The name of an output column.
pub open spec fn label_of(e: ParsedExprView, alias: Option<ParsedIdentifierView>) -> Seq<char> {
    match alias {
        Some(a) => a.name,
        None => output_name(e),
    }
}

/// Finds the name of an output column.
pub fn projection_label(expr: &ParsedExpr, alias: &Option<ParsedIdentifier>) -> (r: String)
    ensures
        r@ == label_of(
            expr@,
            match *alias {
                Some(a) => Some(a@),
                None => None,
            },
        ),
{
    match alias {
        Some(a) => text(a.name.as_str()),
        None => projection_name(expr),
    }
}

} // verus!
