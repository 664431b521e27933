//! Statements that hold no query.

use vstd::prelude::*;

use crate::binding::{bind_expr, bound_form, table_scope};
use crate::bound::{
    BoundAlterDomainOperation, BoundAlterDomainOperationView, BoundExpr, BoundExprView, BoundProjection, BoundProjectionView,
    BoundReindexTarget, BoundSequenceOperation, BoundSequenceOperationView, BoundStatement, BoundStatementView,
};
use crate::catalog::{
    find_column, find_trigger, Catalog, CatalogView, DomainConstraint, DomainConstraintView, DropBehavior, NewSequenceView,
    RoutineDefinition, RoutineDefinitionView, RoutineKind, TableDefinition, TriggerTarget, UserDefinedTypeKind, UserDefinedTypeKindView,
    ViewKind,
};
use crate::ddl::{
    alter_table_of, bind_alter_table, bind_create_table, bind_default, bind_drop_objects, bind_some_default, create_table_of, default_of,
    drop_of, named_type, resolve_user_defined_type, resolve_written_type, written_type,
};
use crate::dml::{bind_merge, merge_of};
use crate::grouping::check_result;
use crate::indexes::{bind_create_index, create_index_of, make_bound_statement};
use crate::names::{
    named_table, no_object, no_schema, no_such_object, no_such_schema, resolve_table, resolve_trigger_target, split_name, split_table_name,
    target_name, trigger_target, trigger_target_name,
};
use crate::routines::{bind_routine_statement, routine_statement, single_field_schema};
use crate::scope::{no_column, no_such_column, Checked};
use crate::select_list::{make_output, make_schema, output_column, outputs_result, schema_of};
use crate::stored::{bind_catalog_expression_with_catalog, stored_expression};
use crate::syntax::{
    ParsedAlterDomainOperation, ParsedAlterDomainOperationView, ParsedIdentifier, ParsedIdentifierView, ParsedObjectName,
    ParsedObjectNameView, ParsedProjection, ParsedProjectionView, ParsedReindexTarget, ParsedReindexTargetView, ParsedSequenceOperation,
    ParsedSequenceOperationView, ParsedStatement, ParsedStatementView,
};
use crate::text::{clone_strings, copy_items, text, text3, text5};
use crate::types::{
    error, error_at, normalized, unsupported, unsupported_error, ColumnId, DbError, DbErrorView, FieldView, Identifier, Result, RoutineId,
    ScalarType, ScalarTypeView, SchemaView, TableId, UNDEFINED_TABLE,
};

verus! {

/// The contents of a bound statement, where there is one, or of an error.
pub open spec fn plain_result(r: Result<Option<BoundStatement>>) -> Checked<Option<BoundStatementView>> {
    match r {
        Ok(Some(s)) => Ok(Some(s@)),
        Ok(None) => Ok(None),
        Err(e) => Err(e@),
    }
}

fn made(s: BoundStatement) -> (r: Result<Option<BoundStatement>>)
    ensures
        plain_result(r) == Ok::<Option<BoundStatementView>, DbErrorView>(Some(s.shape())),
{
    Ok(Some(make_bound_statement(s)))
}

/// The identity of a table that may be named.
pub open spec fn some_table(name: Option<ParsedObjectNameView>, catalog: CatalogView) -> Checked<Option<TableId>> {
    match name {
        None => Ok(None),
        Some(name) => match named_table(name, catalog) {
            Err(x) => Err(x),
            Ok(t) => Ok(Some(t.id)),
        },
    }
}

fn find_some_table(name: &Option<ParsedObjectName>, catalog: &Catalog) -> (r: Result<Option<TableId>>)
    ensures
        (match r {
            Ok(t) => Ok(t),
            Err(e) => Err(e@),
        }) == some_table(
            match *name {
                Some(n) => Some(n@),
                None => None,
            },
            catalog@,
        ),
{
    match name {
        None => Ok(None),
        Some(name) => {
            let t = resolve_table(name, catalog)?;
            Ok(Some(t.id))
        },
    }
}

/// What a REINDEX rebuilds.
pub open spec fn reindex_target(t: ParsedReindexTargetView, catalog: CatalogView) -> Checked<BoundReindexTarget> {
    match t {
        ParsedReindexTargetView::Index(name) => match split_name(name) {
            Err(x) => Err(x),
            Ok(s) => match catalog.index(s.schema, s.name) {
                Some(i) => Ok(BoundReindexTarget::Index(i.id)),
                None => Err(no_object("42704"@, "index "@, s.schema, s.name, s.position)),
            },
        },
        ParsedReindexTargetView::Table(name) => match named_table(name, catalog) {
            Err(x) => Err(x),
            Ok(t) => Ok(BoundReindexTarget::Table(t.id)),
        },
        ParsedReindexTargetView::Schema(name) => match catalog.schema(name.name) {
            Some(s) => Ok(BoundReindexTarget::Schema(s.id)),
            None => Err(no_schema(name.name, name.position)),
        },
        ParsedReindexTargetView::Database(name) => if catalog.database == name.name {
            Ok(BoundReindexTarget::Database)
        } else {
            Err(error_at("3D000"@, "database "@ + name.name + " does not exist"@, name.position))
        },
    }
}

fn find_reindex_target(t: &ParsedReindexTarget, catalog: &Catalog) -> (r: Result<BoundReindexTarget>)
    ensures
        (match r {
            Ok(t) => Ok(t),
            Err(e) => Err(e@),
        }) == reindex_target(t@, catalog@),
{
    match t {
        ParsedReindexTarget::Index(name) => {
            let (schema, name, position) = split_table_name(name)?;
            match catalog.index(&schema, &name) {
                Some(i) => Ok(BoundReindexTarget::Index(i.id)),
                None => Err(no_such_object("42704", "index ", &schema, &name, position)),
            }
        },
        ParsedReindexTarget::Table(name) => {
            let t = resolve_table(name, catalog)?;
            Ok(BoundReindexTarget::Table(t.id))
        },
        ParsedReindexTarget::Schema(name) => match catalog.schema(&name.name) {
            Some(s) => Ok(BoundReindexTarget::Schema(s.id)),
            None => Err(no_such_schema(&name.name, name.position)),
        },
        ParsedReindexTarget::Database(name) => {
            if catalog.database.same(&name.name) {
                Ok(BoundReindexTarget::Database)
            } else {
                Err(DbError::at("3D000", text3("database ", name.name.as_str(), " does not exist"), name.position))
            }
        },
    }
}

/// The bound form of statements on transactions, sessions and maintenance.
#[verifier::opaque]
pub open spec fn session_statement(s: ParsedStatementView, catalog: CatalogView) -> Checked<Option<BoundStatementView>> {
    match s {
        ParsedStatementView::Begin { characteristics } => Ok(Some(BoundStatementView::Begin { characteristics })),
        ParsedStatementView::Commit { chain } => Ok(Some(BoundStatementView::Commit { chain })),
        ParsedStatementView::Rollback { chain } => Ok(Some(BoundStatementView::Rollback { chain })),
        ParsedStatementView::Savepoint { name } => Ok(Some(BoundStatementView::Savepoint { name: name.name })),
        ParsedStatementView::RollbackTo { name } => Ok(Some(BoundStatementView::RollbackTo { name: name.name })),
        ParsedStatementView::ReleaseSavepoint { name } => Ok(Some(BoundStatementView::ReleaseSavepoint { name: name.name })),
        ParsedStatementView::Analyze { table } => match some_table(table, catalog) {
            Err(x) => Err(x),
            Ok(table_id) => Ok(Some(BoundStatementView::Analyze { table_id })),
        },
        ParsedStatementView::Vacuum { table, analyze } => match some_table(table, catalog) {
            Err(x) => Err(x),
            Ok(table_id) => Ok(Some(BoundStatementView::Vacuum { table_id, analyze })),
        },
        ParsedStatementView::Reindex { target } => match reindex_target(target, catalog) {
            Err(x) => Err(x),
            Ok(target) => Ok(Some(BoundStatementView::Reindex { target })),
        },
        ParsedStatementView::Listen { channel } => Ok(Some(BoundStatementView::Listen { channel: channel.name })),
        ParsedStatementView::Unlisten { channel } => Ok(
            Some(
                BoundStatementView::Unlisten {
                    channel: match channel {
                        Some(c) => Some(c.name),
                        None => None,
                    },
                },
            ),
        ),
        ParsedStatementView::Notify { channel, payload } => Ok(Some(BoundStatementView::Notify { channel: channel.name, payload })),
        ParsedStatementView::Do { body } => Ok(Some(BoundStatementView::Do { body })),
        ParsedStatementView::DiscardAll => Ok(Some(BoundStatementView::DiscardAll)),
        ParsedStatementView::DeallocateAll => Ok(Some(BoundStatementView::DeallocateAll)),
        _ => Ok(None),
    }
}

fn bind_session_statement(s: &ParsedStatement, catalog: &Catalog) -> (r: Result<Option<BoundStatement>>)
    ensures
        plain_result(r) == session_statement(s@, catalog@),
{
    reveal(session_statement);
    proof {
        s.unfold();
    }
    match s {
        ParsedStatement::Begin { characteristics } => made(BoundStatement::Begin { characteristics: *characteristics }),
        ParsedStatement::Commit { chain } => made(BoundStatement::Commit { chain: *chain }),
        ParsedStatement::Rollback { chain } => made(BoundStatement::Rollback { chain: *chain }),
        ParsedStatement::Savepoint { name } => made(BoundStatement::Savepoint { name: name.name.clone() }),
        ParsedStatement::RollbackTo { name } => made(BoundStatement::RollbackTo { name: name.name.clone() }),
        ParsedStatement::ReleaseSavepoint { name } => made(BoundStatement::ReleaseSavepoint { name: name.name.clone() }),
        ParsedStatement::Analyze { table } => {
            let table_id = find_some_table(table, catalog)?;
            made(BoundStatement::Analyze { table_id })
        },
        ParsedStatement::Vacuum { table, analyze } => {
            let table_id = find_some_table(table, catalog)?;
            made(BoundStatement::Vacuum { table_id, analyze: *analyze })
        },
        ParsedStatement::Reindex { target } => {
            let target = find_reindex_target(target, catalog)?;
            made(BoundStatement::Reindex { target })
        },
        ParsedStatement::Listen { channel } => made(BoundStatement::Listen { channel: channel.name.clone() }),
        ParsedStatement::Unlisten { channel } => {
            let channel: Option<Identifier> = match channel {
                Some(c) => Some(c.name.clone()),
                None => None,
            };
            made(BoundStatement::Unlisten { channel })
        },
        ParsedStatement::Notify { channel, payload } => made(
            BoundStatement::Notify { channel: channel.name.clone(), payload: payload.clone() },
        ),
        ParsedStatement::Do { body } => made(BoundStatement::Do { body: body.clone() }),
        ParsedStatement::DiscardAll => made(BoundStatement::DiscardAll),
        ParsedStatement::DeallocateAll => made(BoundStatement::DeallocateAll),
        _ => Ok(None),
    }
}

/// Whether a new type can have a name.
pub open spec fn free_type_name(name: ParsedObjectNameView, catalog: CatalogView) -> Checked<(Seq<char>, Seq<char>)> {
    match split_name(name) {
        Err(x) => Err(x),
        Ok(s) => if catalog.schema(s.schema) is None {
            Err(no_schema(s.schema, s.position))
        } else if catalog.type_of(s.schema, s.name) is Some {
            Err(error_at("42710"@, "type "@ + s.schema + "."@ + s.name + " already exists"@, s.position))
        } else {
            Ok((s.schema, s.name))
        },
    }
}

fn check_type_name(name: &ParsedObjectName, catalog: &Catalog) -> (r: Result<(Identifier, Identifier)>)
    ensures
        (match r {
            Ok(p) => Ok((p.0@, p.1@)),
            Err(e) => Err(e@),
        }) == free_type_name(name@, catalog@),
{
    let (schema, name, position) = split_table_name(name)?;
    if catalog.schema(&schema).is_none() {
        return Err(no_such_schema(&schema, position));
    }
    if catalog.user_defined_type(&schema, &name).is_some() {
        return Err(DbError::at("42710", text5("type ", schema.as_str(), ".", name.as_str(), " already exists"), position));
    }
    Ok((schema, name))
}

/// Whether the checks of a domain from a position on are predicates over its value.
pub open spec fn domain_checks(l: Seq<DomainConstraintView>, base: ScalarTypeView, catalog: CatalogView, i: int) -> Checked<()>
    decreases l.len() - i,
{
    if i < 0 || i >= l.len() {
        Ok(())
    } else {
        match domain_check(l[i], base, catalog) {
            Err(x) => Err(x),
            Ok(_) => domain_checks(l, base, catalog, i + 1),
        }
    }
}

/// The bound form of a check of a domain.
pub open spec fn domain_check(c: DomainConstraintView, base: ScalarTypeView, catalog: CatalogView) -> Checked<BoundExprView> {
    stored_expression(
        c.expression,
        Some(crate::catalog::scope_of_value(normalized("value"@, false), base)),
        Some(ScalarTypeView::Boolean),
        Map::empty(),
        Some(catalog),
    )
}

fn bind_domain_check(c: &DomainConstraint, base: &ScalarType, catalog: &Catalog) -> (r: Result<BoundExpr>)
    ensures
        crate::scope::expr_result(r) == domain_check(c@, base@, catalog@),
{
    let scope = TableDefinition::expression_scope(Identifier::unquoted("value"), base.clone());
    bind_catalog_expression_with_catalog(&c.expression, Some(&scope), Some(&ScalarType::Boolean), catalog)
}

fn check_domain(l: &Vec<DomainConstraint>, base: &ScalarType, catalog: &Catalog) -> (r: Result<()>)
    ensures
        check_result(r) == domain_checks(DomainConstraint::views(l@), base@, catalog@, 0),
{
    let ghost v = DomainConstraint::views(l@);
    for i in 0..l.len()
        invariant
            v == DomainConstraint::views(l@),
            domain_checks(v, base@, catalog@, 0) == domain_checks(v, base@, catalog@, i as int),
    {
        assert(v[i as int] == l@[i as int]@);
        bind_domain_check(&l[i], base, catalog)?;
    }
    Ok(())
}

/// Whether the base type of a domain is no domain itself.
pub open spec fn domain_base(name: Option<ParsedObjectNameView>, catalog: CatalogView) -> Checked<()> {
    match name {
        None => Ok(()),
        Some(name) => match named_type(name, catalog) {
            Err(x) => Err(x),
            Ok(t) => if t.definition is Domain {
                Err(unsupported_error("domains whose base type is another domain are not supported yet"@, None))
            } else {
                Ok(())
            },
        },
    }
}

fn check_domain_base(name: &Option<ParsedObjectName>, catalog: &Catalog) -> (r: Result<()>)
    ensures
        check_result(r) == domain_base(
            match *name {
                Some(n) => Some(n@),
                None => None,
            },
            catalog@,
        ),
{
    match name {
        None => Ok(()),
        Some(name) => {
            let t = resolve_user_defined_type(name, catalog)?;
            if matches!(t.definition, UserDefinedTypeKind::Domain { .. }) {
                return Err(unsupported("domains whose base type is another domain are not supported yet"));
            }
            Ok(())
        },
    }
}

/// The bound form of CREATE DOMAIN.
#[verifier::opaque]
pub open spec fn create_domain_of(s: ParsedStatementView, catalog: CatalogView) -> Checked<Option<BoundStatementView>> {
    match s {
        ParsedStatementView::CreateDomain { name, base_type, base_declared_type, not_null, default, checks } => match free_type_name(
            name,
            catalog,
        ) {
            Err(x) => Err(x),
            Ok((schema, name)) => match domain_base(base_declared_type, catalog) {
                Err(x) => Err(x),
                Ok(_) => match written_type(base_type, base_declared_type, catalog) {
                    Err(x) => Err(x),
                    Ok((base_type, base_declared_type)) => match default_of(default, base_type) {
                        Err(x) => Err(x),
                        Ok(default) => match domain_checks(checks, base_type, catalog, 0) {
                            Err(x) => Err(x),
                            Ok(_) => Ok(
                                Some(
                                    BoundStatementView::CreateDomain {
                                        schema,
                                        name,
                                        base_type,
                                        base_declared_type,
                                        not_null,
                                        default,
                                        checks,
                                    },
                                ),
                            ),
                        },
                    },
                },
            },
        },
        _ => Ok(None),
    }
}

fn bind_create_domain(s: &ParsedStatement, catalog: &Catalog) -> (r: Result<Option<BoundStatement>>)
    ensures
        plain_result(r) == create_domain_of(s@, catalog@),
{
    reveal(create_domain_of);
    proof {
        s.unfold();
    }
    match s {
        ParsedStatement::CreateDomain { name, base_type, base_declared_type, not_null, default, checks } => {
            let (schema, name) = check_type_name(name, catalog)?;
            check_domain_base(base_declared_type, catalog)?;
            let (base_type, base_declared_type) = resolve_written_type(base_type, base_declared_type, catalog)?;
            let default = bind_some_default(default, &base_type)?;
            check_domain(checks, &base_type, catalog)?;
            made(
                BoundStatement::CreateDomain {
                    schema,
                    name,
                    base_type,
                    base_declared_type,
                    not_null: *not_null,
                    default,
                    checks: DomainConstraint::clone_all(checks),
                },
            )
        },
        _ => Ok(None),
    }
}

/// Whether one of the checks of a domain from a position on has a name.
pub open spec fn check_named(l: Seq<DomainConstraintView>, name: Seq<char>, i: int) -> bool
    decreases l.len() - i,
{
    0 <= i < l.len() && (l[i].name == Some(name) || check_named(l, name, i + 1))
}

fn has_check(l: &Vec<DomainConstraint>, name: &Identifier) -> (r: bool)
    ensures
        r == check_named(DomainConstraint::views(l@), name@, 0),
{
    let ghost v = DomainConstraint::views(l@);
    for i in 0..l.len()
        invariant
            v == DomainConstraint::views(l@),
            check_named(v, name@, 0) == check_named(v, name@, i as int),
    {
        assert(v[i as int] == l@[i as int]@);
        if let Some(n) = &l[i].name {
            if n.same(name) {
                return true;
            }
        }
    }
    false
}

/// The bound change of a domain.
#[verifier::opaque]
pub open spec fn domain_change(
    op: ParsedAlterDomainOperationView,
    base: ScalarTypeView,
    checks: Seq<DomainConstraintView>,
    catalog: CatalogView,
) -> Checked<BoundAlterDomainOperationView> {
    match op {
        ParsedAlterDomainOperationView::SetDefault(d) => match default_of(Some(d), base) {
            Err(x) => Err(x),
            Ok(e) => Ok(BoundAlterDomainOperationView::SetDefault(e->0)),
        },
        ParsedAlterDomainOperationView::DropDefault => Ok(BoundAlterDomainOperationView::DropDefault),
        ParsedAlterDomainOperationView::SetNotNull => Ok(BoundAlterDomainOperationView::SetNotNull),
        ParsedAlterDomainOperationView::DropNotNull => Ok(BoundAlterDomainOperationView::DropNotNull),
        ParsedAlterDomainOperationView::AddConstraint(c) => match domain_check(c, base, catalog) {
            Err(x) => Err(x),
            Ok(_) => Ok(BoundAlterDomainOperationView::AddConstraint(c)),
        },
        ParsedAlterDomainOperationView::DropConstraint { name, if_exists } => if !if_exists && !check_named(checks, name.name, 0) {
            Err(error_at("42704"@, "constraint "@ + name.name + " does not exist"@, name.position))
        } else {
            Ok(BoundAlterDomainOperationView::DropConstraint { name: name.name, if_exists })
        },
    }
}

fn bind_domain_change(op: &ParsedAlterDomainOperation, base: &ScalarType, checks: &Vec<DomainConstraint>, catalog: &Catalog) -> (r: Result<
    BoundAlterDomainOperation,
>)
    ensures
        (match r {
            Ok(o) => Ok(o@),
            Err(e) => Err(e@),
        }) == domain_change(op@, base@, DomainConstraint::views(checks@), catalog@),
{
    reveal(domain_change);
    proof {
        op.unfold();
    }
    match op {
        ParsedAlterDomainOperation::SetDefault(d) => {
            let e = bind_default(d, base)?;
            Ok(BoundAlterDomainOperation::SetDefault(e))
        },
        ParsedAlterDomainOperation::DropDefault => Ok(BoundAlterDomainOperation::DropDefault),
        ParsedAlterDomainOperation::SetNotNull => Ok(BoundAlterDomainOperation::SetNotNull),
        ParsedAlterDomainOperation::DropNotNull => Ok(BoundAlterDomainOperation::DropNotNull),
        ParsedAlterDomainOperation::AddConstraint(c) => {
            bind_domain_check(c, base, catalog)?;
            Ok(BoundAlterDomainOperation::AddConstraint(c.clone()))
        },
        ParsedAlterDomainOperation::DropConstraint { name, if_exists } => {
            if !*if_exists && !has_check(checks, &name.name) {
                return Err(DbError::at("42704", text3("constraint ", name.name.as_str(), " does not exist"), name.position));
            }
            Ok(BoundAlterDomainOperation::DropConstraint { name: name.name.clone(), if_exists: *if_exists })
        },
    }
}

/// The bound form of statements on schemas and user-defined types.
#[verifier::opaque]
pub open spec fn type_statement(s: ParsedStatementView, catalog: CatalogView) -> Checked<Option<BoundStatementView>> {
    match s {
        ParsedStatementView::CreateSchema { name, if_not_exists } => if catalog.schema(name.name) is Some && !if_not_exists {
            Err(error_at("42P06"@, "schema "@ + name.name + " already exists"@, name.position))
        } else {
            Ok(Some(BoundStatementView::CreateSchema { name: name.name, if_not_exists }))
        },
        ParsedStatementView::CreateEnumType { name, labels } => match free_type_name(name, catalog) {
            Err(x) => Err(x),
            Ok((schema, name)) => Ok(Some(BoundStatementView::CreateEnumType { schema, name, labels })),
        },
        ParsedStatementView::CreateDomain { .. } => create_domain_of(s, catalog),
        ParsedStatementView::AlterEnumAddValue { name, label, position, if_not_exists } => match named_type(name, catalog) {
            Err(x) => Err(x),
            Ok(t) => if t.definition is Enum {
                Ok(Some(BoundStatementView::AlterEnumAddValue { type_id: t.id, label, position, if_not_exists }))
            } else {
                Err(error("42809"@, "ALTER TYPE ADD VALUE requires an enum type"@))
            },
        },
        ParsedStatementView::AlterEnumRenameValue { name, old_label, new_label } => match named_type(name, catalog) {
            Err(x) => Err(x),
            Ok(t) => if t.definition is Enum {
                Ok(Some(BoundStatementView::AlterEnumRenameValue { type_id: t.id, old_label, new_label }))
            } else {
                Err(error("42809"@, "ALTER TYPE RENAME VALUE requires an enum type"@))
            },
        },
        ParsedStatementView::AlterDomain { name, operation } => match named_type(name, catalog) {
            Err(x) => Err(x),
            Ok(t) => match t.definition {
                UserDefinedTypeKindView::Domain { base_type, checks, .. } => match domain_change(operation, base_type, checks, catalog) {
                    Err(x) => Err(x),
                    Ok(operation) => Ok(Some(BoundStatementView::AlterDomain { type_id: t.id, operation })),
                },
                _ => Err(error("42809"@, "ALTER DOMAIN requires a domain type"@)),
            },
        },
        ParsedStatementView::AlterSchemaRename { name, new_name, if_exists } => match catalog.schema(name.name) {
            None => if if_exists {
                Ok(Some(BoundStatementView::NoOp { tag: "ALTER SCHEMA"@ }))
            } else {
                Err(no_schema(name.name, name.position))
            },
            Some(schema) => if catalog.schema(new_name.name) is Some {
                Err(error_at("42P06"@, "schema "@ + new_name.name + " already exists"@, new_name.position))
            } else {
                Ok(Some(BoundStatementView::AlterSchemaRename { schema_id: schema.id, new_name: new_name.name }))
            },
        },
        _ => Ok(None),
    }
}

fn bind_type_statement(s: &ParsedStatement, catalog: &Catalog) -> (r: Result<Option<BoundStatement>>)
    ensures
        plain_result(r) == type_statement(s@, catalog@),
{
    reveal(type_statement);
    proof {
        s.unfold();
    }
    match s {
        ParsedStatement::CreateSchema { name, if_not_exists } => {
            if catalog.schema(&name.name).is_some() && !*if_not_exists {
                return Err(DbError::at("42P06", text3("schema ", name.name.as_str(), " already exists"), name.position));
            }
            made(BoundStatement::CreateSchema { name: name.name.clone(), if_not_exists: *if_not_exists })
        },
        ParsedStatement::CreateEnumType { name, labels } => {
            let (schema, name) = check_type_name(name, catalog)?;
            made(BoundStatement::CreateEnumType { schema, name, labels: clone_strings(labels) })
        },
        ParsedStatement::CreateDomain { .. } => bind_create_domain(s, catalog),
        ParsedStatement::AlterEnumAddValue { name, label, position, if_not_exists } => {
            let t = resolve_user_defined_type(name, catalog)?;
            if !matches!(t.definition, UserDefinedTypeKind::Enum { .. }) {
                return Err(DbError::new("42809", text("ALTER TYPE ADD VALUE requires an enum type")));
            }
            made(
                BoundStatement::AlterEnumAddValue {
                    type_id: t.id,
                    label: label.clone(),
                    position: position.clone(),
                    if_not_exists: *if_not_exists,
                },
            )
        },
        ParsedStatement::AlterEnumRenameValue { name, old_label, new_label } => {
            let t = resolve_user_defined_type(name, catalog)?;
            if !matches!(t.definition, UserDefinedTypeKind::Enum { .. }) {
                return Err(DbError::new("42809", text("ALTER TYPE RENAME VALUE requires an enum type")));
            }
            made(
                BoundStatement::AlterEnumRenameValue { type_id: t.id, old_label: old_label.clone(), new_label: new_label.clone() },
            )
        },
        ParsedStatement::AlterDomain { name, operation } => {
            let t = resolve_user_defined_type(name, catalog)?;
            match &t.definition {
                UserDefinedTypeKind::Domain { base_type, checks, .. } => {
                    let operation = bind_domain_change(operation, base_type, checks, catalog)?;
                    made(BoundStatement::AlterDomain { type_id: t.id, operation })
                },
                _ => Err(DbError::new("42809", text("ALTER DOMAIN requires a domain type"))),
            }
        },
        ParsedStatement::AlterSchemaRename { name, new_name, if_exists } => match catalog.schema(&name.name) {
            None => {
                if *if_exists {
                    return made(BoundStatement::NoOp { tag: text("ALTER SCHEMA") });
                }
                Err(no_such_schema(&name.name, name.position))
            },
            Some(schema) => {
                if catalog.schema(&new_name.name).is_some() {
                    return Err(
                        DbError::at("42P06", text3("schema ", new_name.name.as_str(), " already exists"), new_name.position),
                    );
                }
                made(BoundStatement::AlterSchemaRename { schema_id: schema.id, new_name: new_name.name.clone() })
            },
        },
        _ => Ok(None),
    }
}

/// The column that owns a sequence.
pub open spec fn sequence_owner(
    o: Option<(ParsedObjectNameView, ParsedIdentifierView)>,
    catalog: CatalogView,
) -> Checked<Option<(TableId, ColumnId)>> {
    match o {
        None => Ok(None),
        Some((table, column)) => match named_table(table, catalog) {
            Err(x) => Err(x),
            Ok(t) => match find_column(t.columns, column.name, 0) {
                Some(c) => Ok(Some((t.id, c.id))),
                None => Err(no_column(column.name, column.position)),
            },
        },
    }
}

fn find_sequence_owner(o: &Option<(ParsedObjectName, ParsedIdentifier)>, catalog: &Catalog) -> (r: Result<Option<(TableId, ColumnId)>>)
    ensures
        (match r {
            Ok(x) => Ok(x),
            Err(x) => Err(x@),
        }) == sequence_owner(
            match *o {
                Some(x) => Some((x.0@, x.1@)),
                None => None,
            },
            catalog@,
        ),
{
    match o {
        None => Ok(None),
        Some(o) => {
            let t = resolve_table(&o.0, catalog)?;
            match t.column(&o.1.name) {
                Some(c) => Ok(Some((t.id, c.id))),
                None => Err(no_such_column(&o.1.name, o.1.position)),
            }
        },
    }
}

/// The bound form of an operation on a sequence's value.
pub open spec fn sequence_operation(op: ParsedSequenceOperationView) -> Checked<BoundSequenceOperationView> {
    match op {
        ParsedSequenceOperationView::NextValue => Ok(BoundSequenceOperationView::NextValue),
        ParsedSequenceOperationView::CurrentValue => Ok(BoundSequenceOperationView::CurrentValue { value: None }),
        ParsedSequenceOperationView::SetValue { value, is_called } => match bound_form(
            value,
            table_scope(None),
            Some(ScalarTypeView::Int64),
        ) {
            Err(x) => Err(x),
            Ok(value) => Ok(BoundSequenceOperationView::SetValue { value, is_called }),
        },
    }
}

/// The name of the value of a sequence.
pub open spec fn sequence_label(op: ParsedSequenceOperationView, alias: Option<ParsedIdentifierView>) -> Seq<char> {
    match alias {
        Some(a) => a.name,
        None => match op {
            ParsedSequenceOperationView::NextValue => "nextval"@,
            ParsedSequenceOperationView::CurrentValue => "currval"@,
            ParsedSequenceOperationView::SetValue { .. } => "setval"@,
        },
    }
}

fn bind_sequence_operation(op: &ParsedSequenceOperation) -> (r: Result<BoundSequenceOperation>)
    ensures
        (match r {
            Ok(o) => Ok(o@),
            Err(e) => Err(e@),
        }) == sequence_operation(op@),
{
    proof {
        op.unfold();
    }
    match op {
        ParsedSequenceOperation::NextValue => Ok(BoundSequenceOperation::NextValue),
        ParsedSequenceOperation::CurrentValue => Ok(BoundSequenceOperation::CurrentValue { value: None }),
        ParsedSequenceOperation::SetValue { value, is_called } => {
            let value = bind_expr(value, None, Some(&ScalarType::Int64))?;
            Ok(BoundSequenceOperation::SetValue { value, is_called: *is_called })
        },
    }
}

/// The bound form of statements on sequences.
#[verifier::opaque]
pub open spec fn sequence_statement(s: ParsedStatementView, catalog: CatalogView) -> Checked<Option<BoundStatementView>> {
    match s {
        ParsedStatementView::CreateSequence { name, sequence, if_not_exists, owner } => match split_name(name) {
            Err(x) => Err(x),
            Ok(n) => if catalog.schema(n.schema) is None {
                Err(no_schema(n.schema, n.position))
            } else if catalog.sequence(n.schema, n.name) is Some && !if_not_exists {
                Err(error_at("42P07"@, "relation "@ + n.schema + "."@ + n.name + " already exists"@, n.position))
            } else {
                match sequence_owner(owner, catalog) {
                    Err(x) => Err(x),
                    Ok(owner) => Ok(
                        Some(
                            BoundStatementView::CreateSequence {
                                schema: n.schema,
                                sequence: NewSequenceView { name: n.name, owner, ..sequence },
                                if_not_exists,
                            },
                        ),
                    ),
                }
            },
        },
        ParsedStatementView::AlterSequenceRename { name, if_exists, new_name } => match split_name(name) {
            Err(x) => Err(x),
            Ok(n) => match catalog.sequence(n.schema, n.name) {
                None => if if_exists {
                    Ok(Some(BoundStatementView::NoOp { tag: "ALTER SEQUENCE"@ }))
                } else {
                    Err(no_object("42P01"@, "sequence "@, n.schema, n.name, n.position))
                },
                Some(q) => Ok(Some(BoundStatementView::AlterSequenceRename { sequence_id: q.id, new_name: new_name.name })),
            },
        },
        ParsedStatementView::AlterSequence { name, if_exists, options } => match split_name(name) {
            Err(x) => Err(x),
            Ok(n) => match catalog.sequence(n.schema, n.name) {
                None => if if_exists {
                    Ok(Some(BoundStatementView::NoOp { tag: "ALTER SEQUENCE"@ }))
                } else {
                    Err(no_object("42P01"@, "sequence "@, n.schema, n.name, n.position))
                },
                Some(q) => match (match options.owner {
                    None => Ok(None),
                    Some(o) => match sequence_owner(o, catalog) {
                        Err(x) => Err(x),
                        Ok(o) => Ok(Some(o)),
                    },
                }) {
                    Err(x) => Err(x),
                    Ok(owner) => Ok(
                        Some(
                            BoundStatementView::AlterSequence {
                                sequence_id: q.id,
                                increment: options.increment,
                                min_value: options.min_value,
                                max_value: options.max_value,
                                restart: options.restart,
                                cycle: options.cycle,
                                owner,
                            },
                        ),
                    ),
                },
            },
        },
        ParsedStatementView::SequenceValue { name, operation, alias } => match split_name(name) {
            Err(x) => Err(x),
            Ok(n) => match catalog.sequence(n.schema, n.name) {
                None => Err(no_object("42P01"@, "sequence "@, n.schema, n.name, n.position)),
                Some(q) => match sequence_operation(operation) {
                    Err(x) => Err(x),
                    Ok(o) => Ok(
                        Some(
                            BoundStatementView::SequenceValue {
                                sequence_id: q.id,
                                operation: o,
                                schema: SchemaView {
                                    fields: seq![
                                        FieldView {
                                            name: sequence_label(operation, alias),
                                            data_type: ScalarTypeView::Int64,
                                            nullable: false,
                                        },
                                    ],
                                },
                            },
                        ),
                    ),
                },
            },
        },
        _ => Ok(None),
    }
}

fn bind_sequence_statement(s: &ParsedStatement, catalog: &Catalog) -> (r: Result<Option<BoundStatement>>)
    ensures
        plain_result(r) == sequence_statement(s@, catalog@),
{
    reveal(sequence_statement);
    proof {
        s.unfold();
    }
    match s {
        ParsedStatement::CreateSequence { name, sequence, if_not_exists, owner } => {
            let (schema, name, position) = split_table_name(name)?;
            if catalog.schema(&schema).is_none() {
                return Err(no_such_schema(&schema, position));
            }
            if catalog.sequence(&schema, &name).is_some() && !*if_not_exists {
                let m = text5("relation ", schema.as_str(), ".", name.as_str(), " already exists");
                return Err(DbError::at("42P07", m, position));
            }
            let mut sequence = sequence.clone();
            sequence.name = name;
            sequence.owner = find_sequence_owner(owner, catalog)?;
            made(BoundStatement::CreateSequence { schema, sequence, if_not_exists: *if_not_exists })
        },
        ParsedStatement::AlterSequenceRename { name, if_exists, new_name } => {
            let (schema, name, position) = split_table_name(name)?;
            match catalog.sequence(&schema, &name) {
                None => {
                    if *if_exists {
                        return made(BoundStatement::NoOp { tag: text("ALTER SEQUENCE") });
                    }
                    Err(no_such_object("42P01", "sequence ", &schema, &name, position))
                },
                Some(q) => made(BoundStatement::AlterSequenceRename { sequence_id: q.id, new_name: new_name.name.clone() }),
            }
        },
        ParsedStatement::AlterSequence { name, if_exists, options } => {
            let (schema, name, position) = split_table_name(name)?;
            match catalog.sequence(&schema, &name) {
                None => {
                    if *if_exists {
                        return made(BoundStatement::NoOp { tag: text("ALTER SEQUENCE") });
                    }
                    Err(no_such_object("42P01", "sequence ", &schema, &name, position))
                },
                Some(q) => {
                    let owner: Option<Option<(TableId, ColumnId)>> = match &options.owner {
                        None => None,
                        Some(o) => Some(find_sequence_owner(o, catalog)?),
                    };
                    made(
                        BoundStatement::AlterSequence {
                            sequence_id: q.id,
                            increment: options.increment,
                            min_value: options.min_value,
                            max_value: options.max_value,
                            restart: options.restart,
                            cycle: options.cycle,
                            owner,
                        },
                    )
                },
            }
        },
        ParsedStatement::SequenceValue { name, operation, alias } => {
            let (schema, name, position) = split_table_name(name)?;
            match catalog.sequence(&schema, &name) {
                None => Err(no_such_object("42P01", "sequence ", &schema, &name, position)),
                Some(q) => {
                    let o = bind_sequence_operation(operation)?;
                    proof {
                        operation.unfold();
                    }
                    let label: &str = match alias {
                        Some(a) => a.name.as_str(),
                        None => match operation {
                            ParsedSequenceOperation::NextValue => "nextval",
                            ParsedSequenceOperation::CurrentValue => "currval",
                            ParsedSequenceOperation::SetValue { .. } => "setval",
                        },
                    };
                    made(
                        BoundStatement::SequenceValue {
                            sequence_id: q.id,
                            operation: o,
                            schema: single_field_schema(label, ScalarType::Int64, false),
                        },
                    )
                },
            }
        },
        _ => Ok(None),
    }
}

/// Whether a routine can be called by a trigger.
pub open spec fn trigger_function(r: RoutineDefinitionView, name: Seq<char>) -> bool {
    r.name == name && r.kind == RoutineKind::Function && r.arguments.len() == 0 && r.return_type is None
}

/// The routines of a name that a trigger can call, from a position on.
pub open spec fn trigger_functions(l: Seq<RoutineDefinitionView>, name: Seq<char>, i: int, done: Seq<RoutineId>) -> Seq<RoutineId>
    decreases l.len() - i,
{
    if i < 0 || i >= l.len() {
        done
    } else if trigger_function(l[i], name) {
        trigger_functions(l, name, i + 1, done.push(l[i].id))
    } else {
        trigger_functions(l, name, i + 1, done)
    }
}

fn find_trigger_functions(l: &Vec<RoutineDefinition>, name: &Identifier) -> (r: Vec<RoutineId>)
    ensures
        r@ == trigger_functions(RoutineDefinition::views(l@), name@, 0, Seq::empty()),
{
    let ghost v = RoutineDefinition::views(l@);
    let mut out: Vec<RoutineId> = Vec::new();
    assert(out@ =~= Seq::empty());
    for i in 0..l.len()
        invariant
            v == RoutineDefinition::views(l@),
            trigger_functions(v, name@, 0, Seq::empty()) == trigger_functions(v, name@, i as int, out@),
    {
        assert(v[i as int] == l@[i as int]@);
        if l[i].name.same(name) && l[i].kind == RoutineKind::Function && l[i].arguments.len() == 0 && l[i].return_type.is_none() {
            out.push(l[i].id);
        }
    }
    out
}

/// The routine that a new trigger calls.
pub open spec fn trigger_routine(name: ParsedObjectNameView, catalog: CatalogView) -> Checked<RoutineId> {
    match split_name(name) {
        Err(x) => Err(x),
        Ok(n) => match catalog.schema(n.schema) {
            None => Err(no_schema(n.schema, n.position)),
            Some(s) => {
                let found = trigger_functions(s.routines, n.name, 0, Seq::empty());
                if found.len() == 1 {
                    Ok(found[0])
                } else if found.len() == 0 {
                    Err(
                        error_at("42883"@, "trigger function "@ + n.schema + "."@ + n.name + "() does not exist"@, n.position),
                    )
                } else {
                    Err(error_at("42725"@, "trigger function "@ + n.schema + "."@ + n.name + "() is ambiguous"@, n.position))
                }
            },
        },
    }
}

fn find_trigger_routine(name: &ParsedObjectName, catalog: &Catalog) -> (r: Result<RoutineId>)
    ensures
        (match r {
            Ok(x) => Ok(x),
            Err(x) => Err(x@),
        }) == trigger_routine(name@, catalog@),
{
    let (schema, name, position) = split_table_name(name)?;
    let s = match catalog.schema(&schema) {
        Some(s) => s,
        None => {
            return Err(no_such_schema(&schema, position));
        },
    };
    let found = find_trigger_functions(&s.routines, &name);
    if found.len() == 1 {
        return Ok(found[0]);
    }
    if found.len() == 0 {
        let m = text5("trigger function ", schema.as_str(), ".", name.as_str(), "() does not exist");
        return Err(DbError::at("42883", m, position));
    }
    Err(DbError::at("42725", text5("trigger function ", schema.as_str(), ".", name.as_str(), "() is ambiguous"), position))
}

/// The bound form of DROP TRIGGER.
pub open spec fn drop_trigger_of(
    name: ParsedIdentifierView,
    table: ParsedObjectNameView,
    if_exists: bool,
    behavior: DropBehavior,
    catalog: CatalogView,
) -> Checked<Option<BoundStatementView>> {
    match trigger_target(table, catalog) {
        Err(x) => Err(x),
        Ok(target) => match (match target {
            TriggerTarget::Table(id) => match catalog.table_by_id(id) {
                Some(t) => find_trigger(t.triggers, name.name, 0),
                None => None,
            },
            TriggerTarget::View(id) => match catalog.view_by_id(id) {
                Some(v) => find_trigger(v.triggers, name.name, 0),
                None => None,
            },
        }) {
            Some(t) => Ok(Some(BoundStatementView::DropTrigger { trigger_id: t.id, behavior })),
            None => if if_exists {
                Ok(Some(BoundStatementView::NoOp { tag: "DROP TRIGGER"@ }))
            } else {
                match target_name(target, catalog) {
                    Err(x) => Err(x),
                    Ok(n) => Err(
                        error_at("42704"@, "trigger "@ + name.name + " for relation "@ + n + " does not exist"@, name.position),
                    ),
                }
            },
        },
    }
}

fn bind_drop_trigger(
    name: &ParsedIdentifier,
    table: &ParsedObjectName,
    if_exists: bool,
    behavior: DropBehavior,
    catalog: &Catalog,
) -> (r: Result<
    Option<BoundStatement>,
>)
    ensures
        plain_result(r) == drop_trigger_of(name@, table@, if_exists, behavior, catalog@),
{
    let target = resolve_trigger_target(table, catalog)?;
    let found = match target {
        TriggerTarget::Table(id) => match catalog.table_by_id(id) {
            Some(t) => t.trigger(&name.name),
            None => None,
        },
        TriggerTarget::View(id) => match catalog.view_by_id(id) {
            Some(v) => v.trigger(&name.name),
            None => None,
        },
    };
    match found {
        Some(t) => made(BoundStatement::DropTrigger { trigger_id: t.id, behavior }),
        None => {
            if if_exists {
                return made(BoundStatement::NoOp { tag: text("DROP TRIGGER") });
            }
            let n = trigger_target_name(target, catalog)?;
            let m = text5("trigger ", name.name.as_str(), " for relation ", n.as_str(), " does not exist");
            Err(DbError::at("42704", m, name.position))
        },
    }
}

/// The bound form of ALTER VIEW ... RENAME.
pub open spec fn rename_view_of(
    name: ParsedObjectNameView,
    kind: ViewKind,
    if_exists: bool,
    new_name: ParsedIdentifierView,
    catalog: CatalogView,
) -> Checked<
    Option<BoundStatementView>,
> {
    match split_name(name) {
        Err(x) => Err(x),
        Ok(n) => match catalog.view_of(n.schema, n.name) {
            None => if if_exists {
                Ok(
                    Some(
                        BoundStatementView::NoOp {
                            tag: match kind {
                                ViewKind::Regular => "ALTER VIEW"@,
                                ViewKind::Materialized => "ALTER MATERIALIZED VIEW"@,
                            },
                        },
                    ),
                )
            } else {
                Err(no_object(UNDEFINED_TABLE@, "view "@, n.schema, n.name, n.position))
            },
            Some(v) => if v.kind != kind {
                Err(
                    error(
                        "42809"@,
                        n.schema + "."@ + n.name + " is not a "@ + (match kind {
                            ViewKind::Regular => "view"@,
                            ViewKind::Materialized => "materialized view"@,
                        }),
                    ),
                )
            } else {
                Ok(Some(BoundStatementView::AlterViewRename { view_id: v.id, new_name: new_name.name }))
            },
        },
    }
}

fn bind_rename_view(name: &ParsedObjectName, kind: ViewKind, if_exists: bool, new_name: &ParsedIdentifier, catalog: &Catalog) -> (r: Result<
    Option<BoundStatement>,
>)
    ensures
        plain_result(r) == rename_view_of(name@, kind, if_exists, new_name@, catalog@),
{
    let (schema, name, position) = split_table_name(name)?;
    match catalog.view_named(&schema, &name) {
        None => {
            if if_exists {
                let tag = match kind {
                    ViewKind::Regular => "ALTER VIEW",
                    ViewKind::Materialized => "ALTER MATERIALIZED VIEW",
                };
                return made(BoundStatement::NoOp { tag: text(tag) });
            }
            Err(no_such_object(UNDEFINED_TABLE, "view ", &schema, &name, position))
        },
        Some(v) => {
            if v.kind != kind {
                let expected = match kind {
                    ViewKind::Regular => "view",
                    ViewKind::Materialized => "materialized view",
                };
                return Err(DbError::new("42809", text5(schema.as_str(), ".", name.as_str(), " is not a ", expected)));
            }
            made(BoundStatement::AlterViewRename { view_id: v.id, new_name: new_name.name.clone() })
        },
    }
}

/// The bound form of statements on tables, indexes, views and triggers.
#[verifier::opaque]
pub open spec fn object_statement(s: ParsedStatementView, catalog: CatalogView) -> Checked<Option<BoundStatementView>> {
    match s {
        ParsedStatementView::DropObjects { kind, names, if_exists, behavior } => given(drop_of(kind, names, if_exists, behavior, catalog)),
        ParsedStatementView::CreateTable { name, columns, constraints, if_not_exists } => given(
            create_table_of(name, columns, constraints, if_not_exists, catalog),
        ),
        ParsedStatementView::AlterTable { name, if_exists, operations } => given(alter_table_of(name, if_exists, operations, catalog)),
        ParsedStatementView::CreateIndex(index) => given(create_index_of(index, catalog)),
        ParsedStatementView::AlterIndexRename { name, new_name } => match split_name(name) {
            Err(x) => Err(x),
            Ok(n) => match catalog.index(n.schema, n.name) {
                Some(i) => Ok(Some(BoundStatementView::AlterIndexRename { index_id: i.id, new_name: new_name.name })),
                None => Err(no_object("42704"@, "index "@, n.schema, n.name, n.position)),
            },
        },
        ParsedStatementView::AlterViewRename { name, kind, if_exists, new_name } => rename_view_of(
            name,
            kind,
            if_exists,
            new_name,
            catalog,
        ),
        ParsedStatementView::CreateTrigger { name, table, timing, level, events, routine } => match trigger_target(table, catalog) {
            Err(x) => Err(x),
            Ok(target) => match trigger_routine(routine, catalog) {
                Err(x) => Err(x),
                Ok(routine_id) => Ok(
                    Some(BoundStatementView::CreateTrigger { target, name: name.name, timing, level, events, routine_id }),
                ),
            },
        },
        ParsedStatementView::DropTrigger { name, table, if_exists, behavior } => drop_trigger_of(name, table, if_exists, behavior, catalog),
        _ => Ok(None),
    }
}

/// A statement that is there.
pub open spec fn given(s: Checked<BoundStatementView>) -> Checked<Option<BoundStatementView>> {
    match s {
        Err(x) => Err(x),
        Ok(s) => Ok(Some(s)),
    }
}

fn give(s: Result<BoundStatement>) -> (r: Result<Option<BoundStatement>>)
    ensures
        plain_result(r) == given(crate::indexes::bound_result(s)),
{
    match s {
        Ok(s) => Ok(Some(s)),
        Err(e) => Err(e),
    }
}

fn bind_object_statement(s: &ParsedStatement, catalog: &Catalog) -> (r: Result<Option<BoundStatement>>)
    ensures
        plain_result(r) == object_statement(s@, catalog@),
{
    reveal(object_statement);
    proof {
        s.unfold();
    }
    match s {
        ParsedStatement::DropObjects { kind, names, if_exists, behavior } => give(
            bind_drop_objects(*kind, names, *if_exists, *behavior, catalog),
        ),
        ParsedStatement::CreateTable { name, columns, constraints, if_not_exists } => give(
            bind_create_table(name, columns, constraints, *if_not_exists, catalog),
        ),
        ParsedStatement::AlterTable { name, if_exists, operations } => give(bind_alter_table(name, *if_exists, operations, catalog)),
        ParsedStatement::CreateIndex(index) => give(bind_create_index(index, catalog)),
        ParsedStatement::AlterIndexRename { name, new_name } => {
            let (schema, name, position) = split_table_name(name)?;
            match catalog.index(&schema, &name) {
                Some(i) => made(BoundStatement::AlterIndexRename { index_id: i.id, new_name: new_name.name.clone() }),
                None => Err(no_such_object("42704", "index ", &schema, &name, position)),
            }
        },
        ParsedStatement::AlterViewRename { name, kind, if_exists, new_name } => bind_rename_view(
            name,
            *kind,
            *if_exists,
            new_name,
            catalog,
        ),
        ParsedStatement::CreateTrigger { name, table, timing, level, events, routine } => {
            let target = resolve_trigger_target(table, catalog)?;
            let routine_id = find_trigger_routine(routine, catalog)?;
            made(
                BoundStatement::CreateTrigger {
                    target,
                    name: name.name.clone(),
                    timing: *timing,
                    level: *level,
                    events: copy_items(events),
                    routine_id,
                },
            )
        },
        ParsedStatement::DropTrigger { name, table, if_exists, behavior } => bind_drop_trigger(name, table, *if_exists, *behavior, catalog),
        _ => Ok(None),
    }
}

/// The output columns of a SELECT without FROM, from an item on.
pub open spec fn scalar_items(l: Seq<ParsedProjectionView>, i: int, done: Seq<BoundProjectionView>) -> Checked<Seq<BoundProjectionView>>
    decreases l.len() - i,
{
    if i < 0 || i >= l.len() {
        Ok(done)
    } else {
        match l[i] {
            ParsedProjectionView::Wildcard => Err(unsupported_error("SELECT without FROM does not support wildcards"@, None)),
            ParsedProjectionView::Expression { expr, alias } => match bound_form(expr, table_scope(None), None) {
                Err(x) => Err(x),
                Ok(b) => scalar_items(l, i + 1, done.push(output_column(expr, alias, b))),
            },
        }
    }
}

fn bind_scalar_items(l: &Vec<ParsedProjection>) -> (r: Result<Vec<BoundProjection>>)
    ensures
        outputs_result(r) == scalar_items(ParsedProjection::views(l@), 0, Seq::empty()),
{
    let ghost v = ParsedProjection::views(l@);
    let mut out: Vec<BoundProjection> = Vec::new();
    assert(BoundProjection::views(out@) =~= Seq::empty());
    for i in 0..l.len()
        invariant
            v == ParsedProjection::views(l@),
            scalar_items(v, 0, Seq::empty()) == scalar_items(v, i as int, BoundProjection::views(out@)),
    {
        assert(v[i as int] == l@[i as int]@);
        proof {
            l@[i as int].unfold();
        }
        match &l[i] {
            ParsedProjection::Wildcard => {
                return Err(unsupported("SELECT without FROM does not support wildcards"));
            },
            ParsedProjection::Expression { expr, alias } => {
                let b = bind_expr(expr, None, None)?;
                let x = make_output(expr, alias, b);
                let ghost before = BoundProjection::views(out@);
                out.push(x);
                assert(BoundProjection::views(out@) =~= before.push(x@));
            },
        }
    }
    Ok(out)
}

/// The bound form of routine statements, of SELECT without FROM and of MERGE.
#[verifier::opaque]
pub open spec fn value_statement(s: ParsedStatementView, catalog: CatalogView) -> Checked<Option<BoundStatementView>> {
    match s {
        ParsedStatementView::CreateRoutine { .. } => given(routine_statement(s, catalog)),
        ParsedStatementView::DropRoutine { .. } => given(routine_statement(s, catalog)),
        ParsedStatementView::Call { .. } => given(routine_statement(s, catalog)),
        ParsedStatementView::RoutineSelect { .. } => given(routine_statement(s, catalog)),
        ParsedStatementView::PgNotify { channel, payload, alias } => match bound_form(
            channel,
            table_scope(None),
            Some(ScalarTypeView::Text),
        ) {
            Err(x) => Err(x),
            Ok(channel) => match bound_form(payload, table_scope(None), Some(ScalarTypeView::Text)) {
                Err(x) => Err(x),
                Ok(payload) => Ok(
                    Some(
                        BoundStatementView::PgNotify {
                            channel,
                            payload,
                            schema: SchemaView {
                                fields: seq![
                                    FieldView {
                                        name: match alias {
                                            Some(a) => a.name,
                                            None => "pg_notify"@,
                                        },
                                        data_type: ScalarTypeView::Text,
                                        nullable: true,
                                    },
                                ],
                            },
                        },
                    ),
                ),
            },
        },
        ParsedStatementView::ScalarSelect { projection } => match scalar_items(projection, 0, Seq::empty()) {
            Err(x) => Err(x),
            Ok(projection) => Ok(Some(BoundStatementView::ScalarSelect { projection, schema: schema_of(projection) })),
        },
        ParsedStatementView::Merge(merge) => match merge_of(merge, catalog) {
            Err(x) => Err(x),
            Ok(m) => Ok(Some(BoundStatementView::Merge(m))),
        },
        _ => Ok(None),
    }
}

fn bind_value_statement(s: &ParsedStatement, catalog: &Catalog) -> (r: Result<Option<BoundStatement>>)
    ensures
        plain_result(r) == value_statement(s@, catalog@),
{
    reveal(value_statement);
    proof {
        s.unfold();
    }
    match s {
        ParsedStatement::CreateRoutine { .. } => give(bind_routine_statement(s, catalog)),
        ParsedStatement::DropRoutine { .. } => give(bind_routine_statement(s, catalog)),
        ParsedStatement::Call { .. } => give(bind_routine_statement(s, catalog)),
        ParsedStatement::RoutineSelect { .. } => give(bind_routine_statement(s, catalog)),
        ParsedStatement::PgNotify { channel, payload, alias } => {
            let channel = bind_expr(channel, None, Some(&ScalarType::Text))?;
            let payload = bind_expr(payload, None, Some(&ScalarType::Text))?;
            let label: &str = match alias {
                Some(a) => a.name.as_str(),
                None => "pg_notify",
            };
            made(BoundStatement::PgNotify { channel, payload, schema: single_field_schema(label, ScalarType::Text, true) })
        },
        ParsedStatement::ScalarSelect { projection } => {
            let projection = bind_scalar_items(projection)?;
            made(BoundStatement::ScalarSelect { schema: make_schema(&projection), projection })
        },
        ParsedStatement::Merge(merge) => {
            let m = bind_merge(merge, catalog)?;
            made(BoundStatement::Merge(m))
        },
        _ => Ok(None),
    }
}

/// The bound form of a statement that holds no query.
#[verifier::opaque]
pub open spec fn plain_statement(s: ParsedStatementView, catalog: CatalogView) -> Checked<Option<BoundStatementView>> {
    match session_statement(s, catalog) {
        Ok(None) => match type_statement(s, catalog) {
            Ok(None) => match sequence_statement(s, catalog) {
                Ok(None) => match object_statement(s, catalog) {
                    Ok(None) => value_statement(s, catalog),
                    r => r,
                },
                r => r,
            },
            r => r,
        },
        r => r,
    }
}

/// Binds a statement that holds no query.
pub fn bind_plain_statement(s: &ParsedStatement, catalog: &Catalog) -> (r: Result<Option<BoundStatement>>)
    ensures
        plain_result(r) == plain_statement(s@, catalog@),
{
    reveal(plain_statement);
    if let Some(b) = bind_session_statement(s, catalog)? {
        return Ok(Some(b));
    }
    if let Some(b) = bind_type_statement(s, catalog)? {
        return Ok(Some(b));
    }
    if let Some(b) = bind_sequence_statement(s, catalog)? {
        return Ok(Some(b));
    }
    if let Some(b) = bind_object_statement(s, catalog)? {
        return Ok(Some(b));
    }
    bind_value_statement(s, catalog)
}

} // verus!
