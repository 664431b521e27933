//! Tables, constraints, user-defined types and dropped objects.

use vstd::prelude::*;

use crate::binding::{bind_boolean_expr, bind_expr, bound_form, predicate_of, table_scope};
use crate::bound::{BoundAlterTableOperation, BoundAlterTableOperationView, BoundStatement, BoundStatementView};
use crate::catalog::{
    find_column, find_constraint, find_trigger, Catalog, CatalogExpression, CatalogExpressionView, CatalogObjectRef, CatalogView,
    ColumnDefinition, ColumnDefinitionView, DropBehavior, NewColumn, NewColumnView, NewConstraint, NewConstraintKind, NewConstraintKindView,
    NewConstraintView, TableDefinition, TableDefinitionView, TypeDefinition, TypeDefinitionView, ViewKind,
};
use crate::grouping::check_result;
use crate::indexes::{bound_result, copy_names, make_bound_statement, names_of};
use crate::names::{named_table, no_object, no_schema, no_such_object, no_such_schema, resolve_table, split_name, split_table_name};
use crate::scope::{no_column, no_such_column, Checked};
use crate::syntax::{
    DdlObjectKind, ParsedAlterTableOperation, ParsedAlterTableOperationView, ParsedColumn, ParsedColumnView, ParsedDefault,
    ParsedDefaultView, ParsedIdentifier, ParsedIdentifierView, ParsedObjectName, ParsedObjectNameView, ParsedTableConstraint,
    ParsedTableConstraintView,
};
use crate::text::{decimal, index_text, text, text2, text3, text4, text5};
use crate::types::{
    error, error_at, unsupported, unsupported_error, ColumnId, DbError, DbErrorView, Field, FieldView, Identifier, Result, ScalarType,
    ScalarTypeView, Schema, SchemaView, TypeId,
};

verus! {

/// The user-defined type that a name denotes.
pub open spec fn named_type(name: ParsedObjectNameView, catalog: CatalogView) -> Checked<TypeDefinitionView> {
    match split_name(name) {
        Err(x) => Err(x),
        Ok(s) => match catalog.type_of(s.schema, s.name) {
            Some(t) => Ok(t),
            None => Err(no_object("42704"@, "type "@, s.schema, s.name, s.position)),
        },
    }
}

/// Finds the user-defined type that a name denotes.
pub fn resolve_user_defined_type<'a>(name: &ParsedObjectName, catalog: &'a Catalog) -> (r: Result<&'a TypeDefinition>)
    ensures
        (match r {
            Ok(t) => Ok(t@),
            Err(e) => Err(e@),
        }) == named_type(name@, catalog@),
{
    let (schema, named, position) = split_table_name(name)?;
    match catalog.user_defined_type(&schema, &named) {
        Some(t) => Ok(t),
        None => Err(no_such_object("42704", "type ", &schema, &named, position)),
    }
}

/// The scalar type of a value that is declared with a user-defined type, or with an
/// array of one.
pub open spec fn declared_type(
    written: ScalarTypeView,
    name: ParsedObjectNameView,
    catalog: CatalogView,
) -> Checked<(ScalarTypeView, TypeId)> {
    match named_type(name, catalog) {
        Err(x) => Err(x),
        Ok(t) => Ok(
            (
                match written {
                    ScalarTypeView::Array { .. } => ScalarTypeView::Array { element: Box::new(t.logical()) },
                    _ => t.logical(),
                },
                t.id,
            ),
        ),
    }
}

/// Finds the scalar type of a value that is declared with a user-defined type.
pub fn resolve_declared_data_type(catalog: &Catalog, written: &ScalarType, name: &ParsedObjectName) -> (r: Result<(ScalarType, TypeId)>)
    ensures
        (match r {
            Ok(p) => Ok((p.0@, p.1)),
            Err(e) => Err(e@),
        }) == declared_type(written@, name@, catalog@),
{
    let t = resolve_user_defined_type(name, catalog)?;
    let logical = t.logical_type();
    match written {
        ScalarType::Array { .. } => {
            let ghost element = logical@;
            let r = ScalarType::Array { element: Box::new(logical) };
            assert(r@ == (ScalarTypeView::Array { element: Box::new(element) }));
            Ok((r, t.id))
        },
        _ => Ok((logical, t.id)),
    }
}

/// The scalar type of a value and the user-defined type that it is declared with,
/// if any.
pub open spec fn written_type(written: ScalarTypeView, name: Option<ParsedObjectNameView>, catalog: CatalogView) -> Checked<
    (ScalarTypeView, Option<TypeId>),
> {
    match name {
        None => Ok((written, None)),
        Some(name) => match declared_type(written, name, catalog) {
            Err(x) => Err(x),
            Ok((t, id)) => Ok((t, Some(id))),
        },
    }
}

/// Finds the scalar type of a value and the user-defined type that it is declared
/// with.
pub fn resolve_written_type(
    written: &ScalarType,
    name: &Option<ParsedObjectName>,
    catalog: &Catalog,
) -> (r: Result<(ScalarType, Option<TypeId>)>)
    ensures
        (match r {
            Ok(p) => Ok((p.0@, p.1)),
            Err(e) => Err(e@),
        }) == written_type(
            written@,
            (match *name {
                Some(n) => Some(n@),
                None => None,
            }),
            catalog@,
        ),
{
    match name {
        None => Ok((written.clone(), None)),
        Some(name) => {
            let (t, id) = resolve_declared_data_type(catalog, written, name)?;
            Ok((t, Some(id)))
        },
    }
}

/// The stored form of a default, where it suits a type.
pub open spec fn default_of(d: Option<ParsedDefaultView>, t: ScalarTypeView) -> Checked<Option<CatalogExpressionView>> {
    match d {
        None => Ok(None),
        Some(d) => match bound_form(d.expression, table_scope(None), Some(t)) {
            Err(x) => Err(x),
            Ok(_) => Ok(Some(CatalogExpressionView { sql: d.sql })),
        },
    }
}

/// Checks a default against a type and makes its stored form.
pub fn bind_default(d: &ParsedDefault, t: &ScalarType) -> (r: Result<CatalogExpression>)
    ensures
        (match r {
            Ok(e) => Ok(Some(e@)),
            Err(e) => Err(e@),
        }) == default_of(Some(d@), t@),
{
    proof {
        d.unfold();
    }
    bind_expr(&d.expression, None, Some(t))?;
    Ok(CatalogExpression::new(d.sql.clone()))
}

/// Checks a default that may be absent.
pub fn bind_some_default(d: &Option<ParsedDefault>, t: &ScalarType) -> (r: Result<Option<CatalogExpression>>)
    ensures
        (match r {
            Ok(Some(e)) => Ok(Some(e@)),
            Ok(None) => Ok(None),
            Err(e) => Err(e@),
        }) == default_of(
            match *d {
                Some(d) => Some(d@),
                None => None,
            },
            t@,
        ),
{
    match d {
        None => Ok(None),
        Some(d) => {
            let e = bind_default(d, t)?;
            Ok(Some(e))
        },
    }
}

/// The bound form of a column definition.
pub open spec fn column_of_table(c: ParsedColumnView, catalog: CatalogView) -> Checked<NewColumnView> {
    match written_type(c.data_type, c.declared_type, catalog) {
        Err(x) => Err(x),
        Ok((data_type, declared_type)) => match default_of(c.default, data_type) {
            Err(x) => Err(x),
            Ok(default) => Ok(
                NewColumnView {
                    name: c.name.name,
                    data_type,
                    declared_type,
                    nullable: c.nullable,
                    primary_key: c.primary_key,
                    unique: c.unique,
                    default,
                },
            ),
        },
    }
}

fn bind_column_definition(c: &ParsedColumn, catalog: &Catalog) -> (r: Result<NewColumn>)
    ensures
        (match r {
            Ok(x) => Ok(x@),
            Err(x) => Err(x@),
        }) == column_of_table(c@, catalog@),
{
    proof {
        c.unfold();
    }
    let (data_type, declared_type) = resolve_written_type(&c.data_type, &c.declared_type, catalog)?;
    let default = bind_some_default(&c.default, &data_type)?;
    Ok(
        NewColumn {
            name: c.name.name.clone(),
            data_type,
            declared_type,
            nullable: c.nullable,
            primary_key: c.primary_key,
            unique: c.unique,
            default,
        },
    )
}

/// The place of the new column of a name, from a position on.
pub open spec fn new_column_place(l: Seq<NewColumnView>, name: Seq<char>, i: int) -> Option<usize>
    decreases l.len() - i,
{
    if i < 0 || i >= l.len() {
        None
    } else if l[i].name == name {
        Some(i as usize)
    } else {
        new_column_place(l, name, i + 1)
    }
}

/// Finds the place of the new column of a name.
pub fn find_new_column(l: &Vec<NewColumn>, name: &Identifier, from: usize) -> (r: Option<usize>)
    ensures
        r == new_column_place(NewColumn::views(l@), name@, from as int),
        r matches Some(k) ==> from <= k < l.len(),
{
    let ghost v = NewColumn::views(l@);
    let mut i: usize = from;
    while i < l.len()
        invariant
            from <= i,
            v == NewColumn::views(l@),
            new_column_place(v, name@, from as int) == new_column_place(v, name@, i as int),
        decreases l.len() - i,
    {
        assert(v[i as int] == l@[i as int]@);
        if l[i].name.same(name) {
            return Some(i);
        }
        i += 1;
    }
    None
}

/// The columns of a new table, from a definition on. Each has its own name.
pub open spec fn columns_of_table(
    l: Seq<ParsedColumnView>,
    catalog: CatalogView,
    i: int,
    done: Seq<NewColumnView>,
) -> Checked<Seq<NewColumnView>>
    decreases l.len() - i,
{
    if i < 0 || i >= l.len() {
        Ok(done)
    } else if new_column_place(done, l[i].name.name, 0) is Some {
        Err(error_at("42701"@, "column "@ + l[i].name.name + " specified more than once"@, l[i].name.position))
    } else {
        match column_of_table(l[i], catalog) {
            Err(x) => Err(x),
            Ok(c) => columns_of_table(l, catalog, i + 1, done.push(c)),
        }
    }
}

fn bind_column_definitions(l: &Vec<ParsedColumn>, catalog: &Catalog) -> (r: Result<Vec<NewColumn>>)
    ensures
        (match r {
            Ok(x) => Ok(NewColumn::views(x@)),
            Err(x) => Err(x@),
        }) == columns_of_table(ParsedColumn::views(l@), catalog@, 0, Seq::empty()),
{
    let ghost v = ParsedColumn::views(l@);
    let mut out: Vec<NewColumn> = Vec::new();
    assert(NewColumn::views(out@) =~= Seq::empty());
    for i in 0..l.len()
        invariant
            v == ParsedColumn::views(l@),
            columns_of_table(v, catalog@, 0, Seq::empty()) == columns_of_table(v, catalog@, i as int, NewColumn::views(out@)),
    {
        assert(v[i as int] == l@[i as int]@);
        proof {
            l@[i as int].unfold();
        }
        let name = &l[i].name;
        if find_new_column(&out, &name.name, 0).is_some() {
            return Err(DbError::at("42701", text3("column ", name.name.as_str(), " specified more than once"), name.position));
        }
        let x = bind_column_definition(&l[i], catalog)?;
        let ghost before = NewColumn::views(out@);
        out.push(x);
        assert(NewColumn::views(out@) =~= before.push(x@));
    }
    Ok(out)
}

/// Whether the columns of a constraint from a position on exist and are named once.
pub open spec fn constrained(l: Seq<ParsedIdentifierView>, columns: Seq<NewColumnView>, i: int) -> Checked<()>
    decreases l.len() - i,
{
    if i < 0 || i >= l.len() {
        Ok(())
    } else if new_column_place(columns, l[i].name, 0) is None {
        Err(no_column(l[i].name, l[i].position))
    } else if name_place(l, l[i].name, 0) != Some(i as usize) {
        Err(error_at("42701"@, "column "@ + l[i].name + " specified more than once"@, l[i].position))
    } else {
        constrained(l, columns, i + 1)
    }
}

/// The place of a name, from a position on.
pub open spec fn name_place(l: Seq<ParsedIdentifierView>, name: Seq<char>, i: int) -> Option<usize>
    decreases l.len() - i,
{
    if i < 0 || i >= l.len() {
        None
    } else if l[i].name == name {
        Some(i as usize)
    } else {
        name_place(l, name, i + 1)
    }
}

/// Finds the place of a name.
fn find_name(l: &Vec<ParsedIdentifier>, name: &Identifier, from: usize) -> (r: Option<usize>)
    ensures
        r == name_place(ParsedIdentifier::views(l@), name@, from as int),
        r matches Some(k) ==> from <= k < l.len(),
{
    let ghost v = ParsedIdentifier::views(l@);
    let mut i: usize = from;
    while i < l.len()
        invariant
            from <= i,
            v == ParsedIdentifier::views(l@),
            name_place(v, name@, from as int) == name_place(v, name@, i as int),
        decreases l.len() - i,
    {
        assert(v[i as int] == l@[i as int]@);
        if l[i].name.same(name) {
            return Some(i);
        }
        i += 1;
    }
    None
}

fn check_constrained(l: &Vec<ParsedIdentifier>, columns: &Vec<NewColumn>) -> (r: Result<()>)
    ensures
        check_result(r) == constrained(ParsedIdentifier::views(l@), NewColumn::views(columns@), 0),
{
    let ghost v = ParsedIdentifier::views(l@);
    let ghost c = NewColumn::views(columns@);
    for i in 0..l.len()
        invariant
            v == ParsedIdentifier::views(l@),
            c == NewColumn::views(columns@),
            constrained(v, c, 0) == constrained(v, c, i as int),
    {
        assert(v[i as int] == l@[i as int]@);
        if find_new_column(columns, &l[i].name, 0).is_none() {
            return Err(no_such_column(&l[i].name, l[i].position));
        }
        if find_name(l, &l[i].name, 0) != Some(i) {
            return Err(DbError::at("42701", text3("column ", l[i].name.as_str(), " specified more than once"), l[i].position));
        }
    }
    Ok(())
}

/// The output of a table with new columns.
pub open spec fn new_fields(l: Seq<NewColumnView>) -> Seq<FieldView> {
    Seq::new(l.len(), |i: int| FieldView { name: l[i].name, data_type: l[i].data_type, nullable: l[i].nullable })
}

/// The scope in which the checks of a new table are bound.
pub open spec fn new_table_scope(name: Seq<char>, columns: Seq<NewColumnView>) -> TableDefinitionView {
    crate::catalog::scope_of_schema(name, SchemaView { fields: new_fields(columns) })
}

fn make_table_scope(name: &Identifier, columns: &Vec<NewColumn>) -> (r: TableDefinition)
    ensures
        r@ == new_table_scope(name@, NewColumn::views(columns@)),
{
    let mut fields: Vec<Field> = Vec::new();
    for i in 0..columns.len()
        invariant
            fields.len() == i,
            forall|k: int|
                0 <= k < i ==> fields@[k]@ == (FieldView {
                    name: columns@[k]@.name,
                    data_type: columns@[k]@.data_type,
                    nullable: columns@[k]@.nullable,
                }),
    {
        fields.push(Field::new(columns[i].name.as_str(), columns[i].data_type.clone(), columns[i].nullable));
    }
    assert(Field::views(fields@) =~= new_fields(NewColumn::views(columns@)));
    TableDefinition::expression_scope_for_schema(name.clone(), &Schema::new(fields))
}

/// The name of a constraint that is given none.
pub open spec fn constraint_name(name: Option<ParsedIdentifierView>, table: Seq<char>, ordinal: usize, suffix: Seq<char>) -> Seq<char> {
    match name {
        Some(n) => n.name,
        None => table + "_"@ + decimal(ordinal as nat) + suffix,
    }
}

fn find_constraint_name(name: &Option<ParsedIdentifier>, table: &Identifier, ordinal: usize, suffix: &str) -> (r: Identifier)
    ensures
        r@ == constraint_name(
            (match *name {
                Some(n) => Some(n@),
                None => None,
            }),
            table@,
            ordinal,
            suffix@,
        ),
{
    match name {
        Some(n) => n.name.clone(),
        None => Identifier::quoted(text4(table.as_str(), "_", index_text(ordinal).as_str(), suffix).as_str()),
    }
}

/// The names of the columns of a primary key, from a column on.
pub open spec fn key_names(l: Seq<ColumnDefinitionView>, i: int, done: Seq<Seq<char>>) -> Seq<Seq<char>>
    decreases l.len() - i,
{
    if i < 0 || i >= l.len() {
        done
    } else if l[i].primary_key {
        key_names(l, i + 1, done.push(l[i].name))
    } else {
        key_names(l, i + 1, done)
    }
}

fn find_key_names(l: &Vec<ColumnDefinition>) -> (r: Vec<Identifier>)
    ensures
        Identifier::views(r@) == key_names(ColumnDefinition::views(l@), 0, Seq::empty()),
{
    let ghost v = ColumnDefinition::views(l@);
    let mut out: Vec<Identifier> = Vec::new();
    assert(Identifier::views(out@) =~= Seq::empty());
    for i in 0..l.len()
        invariant
            v == ColumnDefinition::views(l@),
            key_names(v, 0, Seq::empty()) == key_names(v, i as int, Identifier::views(out@)),
    {
        assert(v[i as int] == l@[i as int]@);
        if l[i].primary_key {
            let x = l[i].name.clone();
            let ghost before = Identifier::views(out@);
            out.push(x);
            assert(Identifier::views(out@) =~= before.push(x@));
        }
    }
    out
}

/// Whether the columns of a name list from a position on stand in a table.
pub open spec fn referenced(l: Seq<ParsedIdentifierView>, table: TableDefinitionView, i: int) -> Checked<()>
    decreases l.len() - i,
{
    if i < 0 || i >= l.len() {
        Ok(())
    } else if find_column(table.columns, l[i].name, 0) is None {
        Err(no_column(l[i].name, l[i].position))
    } else {
        referenced(l, table, i + 1)
    }
}

fn check_referenced(l: &Vec<ParsedIdentifier>, table: &TableDefinition) -> (r: Result<()>)
    ensures
        check_result(r) == referenced(ParsedIdentifier::views(l@), table@, 0),
{
    let ghost v = ParsedIdentifier::views(l@);
    for i in 0..l.len()
        invariant
            v == ParsedIdentifier::views(l@),
            referenced(v, table@, 0) == referenced(v, table@, i as int),
    {
        assert(v[i as int] == l@[i as int]@);
        if table.column(&l[i].name).is_none() {
            return Err(no_such_column(&l[i].name, l[i].position));
        }
    }
    Ok(())
}

/// The columns that a foreign key refers to: those named, or the primary key.
pub open spec fn foreign_columns(
    columns: Seq<ParsedIdentifierView>,
    referenced_columns: Seq<ParsedIdentifierView>,
    table: TableDefinitionView,
) -> Checked<
    Seq<Seq<char>>,
> {
    match referenced(referenced_columns, table, 0) {
        Err(x) => Err(x),
        Ok(_) => {
            let names = if referenced_columns.len() == 0 {
                key_names(table.columns, 0, Seq::empty())
            } else {
                names_of(referenced_columns)
            };
            if names.len() != columns.len() {
                Err(error("42830"@, "number of referencing and referenced columns for foreign key disagree"@))
            } else {
                Ok(names)
            }
        },
    }
}

fn find_foreign_columns(columns: &Vec<ParsedIdentifier>, referenced_columns: &Vec<ParsedIdentifier>, table: &TableDefinition) -> (r: Result<
    Vec<Identifier>,
>)
    ensures
        (match r {
            Ok(x) => Ok(Identifier::views(x@)),
            Err(x) => Err(x@),
        }) == foreign_columns(ParsedIdentifier::views(columns@), ParsedIdentifier::views(referenced_columns@), table@),
{
    check_referenced(referenced_columns, table)?;
    let names = if referenced_columns.len() == 0 {
        find_key_names(&table.columns)
    } else {
        copy_names(referenced_columns)
    };
    assert(Identifier::views(names@).len() == names@.len());
    if names.len() != columns.len() {
        return Err(DbError::new("42830", text("number of referencing and referenced columns for foreign key disagree")));
    }
    Ok(names)
}

/// The bound form of a table constraint.
#[verifier::opaque]
pub open spec fn constraint_of(
    c: ParsedTableConstraintView,
    table: Seq<char>,
    ordinal: usize,
    columns: Seq<NewColumnView>,
    catalog: CatalogView,
) -> Checked<NewConstraintView> {
    match c {
        ParsedTableConstraintView::PrimaryKey { name, columns: l } => match constrained(l, columns, 0) {
            Err(x) => Err(x),
            Ok(_) => Ok(
                NewConstraintView {
                    name: constraint_name(name, table, ordinal, "_pkey"@),
                    kind: NewConstraintKindView::PrimaryKey { columns: names_of(l) },
                },
            ),
        },
        ParsedTableConstraintView::Unique { name, columns: l } => match constrained(l, columns, 0) {
            Err(x) => Err(x),
            Ok(_) => Ok(
                NewConstraintView {
                    name: constraint_name(name, table, ordinal, "_key"@),
                    kind: NewConstraintKindView::Unique { columns: names_of(l) },
                },
            ),
        },
        ParsedTableConstraintView::Check { name, expression, sql } => match predicate_of(
            expression,
            table_scope(Some(new_table_scope(table, columns))),
        ) {
            Err(x) => Err(x),
            Ok(_) => Ok(
                NewConstraintView {
                    name: constraint_name(name, table, ordinal, "_check"@),
                    kind: NewConstraintKindView::Check { expression: CatalogExpressionView { sql } },
                },
            ),
        },
        ParsedTableConstraintView::ForeignKey {
            name,
            columns: l,
            referenced_table,
            referenced_columns,
            on_delete,
            on_update,
        } => match constrained(
            l,
            columns,
            0,
        ) {
            Err(x) => Err(x),
            Ok(_) => match named_table(referenced_table, catalog) {
                Err(x) => Err(x),
                Ok(other) => match foreign_columns(l, referenced_columns, other) {
                    Err(x) => Err(x),
                    Ok(names) => Ok(
                        NewConstraintView {
                            name: constraint_name(name, table, ordinal, "_fkey"@),
                            kind: NewConstraintKindView::ForeignKey {
                                columns: names_of(l),
                                referenced_table: other.id,
                                referenced_columns: names,
                                on_delete,
                                on_update,
                            },
                        },
                    ),
                },
            },
        },
    }
}

/// Binds a table constraint.
pub fn bind_table_constraint(
    c: &ParsedTableConstraint,
    table: &Identifier,
    ordinal: usize,
    columns: &Vec<NewColumn>,
    catalog: &Catalog,
) -> (r: Result<
    NewConstraint,
>)
    ensures
        (match r {
            Ok(x) => Ok(x@),
            Err(x) => Err(x@),
        }) == constraint_of(c@, table@, ordinal, NewColumn::views(columns@), catalog@),
{
    reveal(constraint_of);
    proof {
        c.unfold();
    }
    match c {
        ParsedTableConstraint::PrimaryKey { name, columns: l } => {
            check_constrained(l, columns)?;
            Ok(
                NewConstraint {
                    name: find_constraint_name(name, table, ordinal, "_pkey"),
                    kind: NewConstraintKind::PrimaryKey { columns: copy_names(l) },
                },
            )
        },
        ParsedTableConstraint::Unique { name, columns: l } => {
            check_constrained(l, columns)?;
            Ok(
                NewConstraint {
                    name: find_constraint_name(name, table, ordinal, "_key"),
                    kind: NewConstraintKind::Unique { columns: copy_names(l) },
                },
            )
        },
        ParsedTableConstraint::Check { name, expression, sql } => {
            bind_boolean_expr(expression, &make_table_scope(table, columns))?;
            Ok(
                NewConstraint {
                    name: find_constraint_name(name, table, ordinal, "_check"),
                    kind: NewConstraintKind::Check { expression: CatalogExpression::new(sql.clone()) },
                },
            )
        },
        ParsedTableConstraint::ForeignKey { name, columns: l, referenced_table, referenced_columns, on_delete, on_update } => {
            check_constrained(l, columns)?;
            let other = resolve_table(referenced_table, catalog)?;
            let names = find_foreign_columns(l, referenced_columns, other)?;
            Ok(
                NewConstraint {
                    name: find_constraint_name(name, table, ordinal, "_fkey"),
                    kind: NewConstraintKind::ForeignKey {
                        columns: copy_names(l),
                        referenced_table: other.id,
                        referenced_columns: names,
                        on_delete: *on_delete,
                        on_update: *on_update,
                    },
                },
            )
        },
    }
}

/// The constraints of a new table, from a position on.
pub open spec fn constraints_of(
    l: Seq<ParsedTableConstraintView>,
    table: Seq<char>,
    columns: Seq<NewColumnView>,
    catalog: CatalogView,
    i: int,
    done: Seq<NewConstraintView>,
) -> Checked<Seq<NewConstraintView>>
    decreases l.len() - i,
{
    if i < 0 || i >= l.len() {
        Ok(done)
    } else {
        match constraint_of(l[i], table, i as usize, columns, catalog) {
            Err(x) => Err(x),
            Ok(c) => constraints_of(l, table, columns, catalog, i + 1, done.push(c)),
        }
    }
}

fn bind_table_constraints(l: &Vec<ParsedTableConstraint>, table: &Identifier, columns: &Vec<NewColumn>, catalog: &Catalog) -> (r: Result<
    Vec<NewConstraint>,
>)
    ensures
        (match r {
            Ok(x) => Ok(NewConstraint::views(x@)),
            Err(x) => Err(x@),
        }) == constraints_of(ParsedTableConstraint::views(l@), table@, NewColumn::views(columns@), catalog@, 0, Seq::empty()),
{
    let ghost v = ParsedTableConstraint::views(l@);
    let ghost c = NewColumn::views(columns@);
    let mut out: Vec<NewConstraint> = Vec::new();
    assert(NewConstraint::views(out@) =~= Seq::empty());
    for i in 0..l.len()
        invariant
            v == ParsedTableConstraint::views(l@),
            c == NewColumn::views(columns@),
            constraints_of(v, table@, c, catalog@, 0, Seq::empty()) == constraints_of(
                v,
                table@,
                c,
                catalog@,
                i as int,
                NewConstraint::views(out@),
            ),
    {
        assert(v[i as int] == l@[i as int]@);
        let x = bind_table_constraint(&l[i], table, i, columns, catalog)?;
        let ghost before = NewConstraint::views(out@);
        out.push(x);
        assert(NewConstraint::views(out@) =~= before.push(x@));
    }
    Ok(out)
}

/// The bound form of CREATE TABLE.
#[verifier::opaque]
pub open spec fn create_table_of(
    name: ParsedObjectNameView,
    columns: Seq<ParsedColumnView>,
    constraints: Seq<ParsedTableConstraintView>,
    if_not_exists: bool,
    catalog: CatalogView,
) -> Checked<BoundStatementView> {
    match split_name(name) {
        Err(x) => Err(x),
        Ok(s) => match catalog.schema(s.schema) {
            None => Err(no_schema(s.schema, s.position)),
            Some(schema) => if schema.has_relation(s.name) && !if_not_exists {
                Err(error_at("42P07"@, "relation "@ + s.schema + "."@ + s.name + " already exists"@, s.position))
            } else {
                match columns_of_table(columns, catalog, 0, Seq::empty()) {
                    Err(x) => Err(x),
                    Ok(columns) => match constraints_of(constraints, s.name, columns, catalog, 0, Seq::empty()) {
                        Err(x) => Err(x),
                        Ok(constraints) => Ok(
                            BoundStatementView::CreateTable { schema: s.schema, name: s.name, columns, constraints, if_not_exists },
                        ),
                    },
                }
            },
        },
    }
}

/// Binds CREATE TABLE.
pub fn bind_create_table(
    name: &ParsedObjectName,
    columns: &Vec<ParsedColumn>,
    constraints: &Vec<ParsedTableConstraint>,
    if_not_exists: bool,
    catalog: &Catalog,
) -> (r: Result<BoundStatement>)
    ensures
        bound_result(r) == create_table_of(
            name@,
            ParsedColumn::views(columns@),
            ParsedTableConstraint::views(constraints@),
            if_not_exists,
            catalog@,
        ),
{
    reveal(create_table_of);
    let (schema, table, position) = split_table_name(name)?;
    match catalog.schema(&schema) {
        None => {
            return Err(no_such_schema(&schema, position));
        },
        Some(s) => {
            if s.relation_name_exists(&table) && !if_not_exists {
                let m = text5("relation ", schema.as_str(), ".", table.as_str(), " already exists");
                return Err(DbError::at("42P07", m, position));
            }
        },
    }
    let columns = bind_column_definitions(columns, catalog)?;
    let constraints = bind_table_constraints(constraints, &table, &columns, catalog)?;
    Ok(make_bound_statement(BoundStatement::CreateTable { schema, name: table, columns, constraints, if_not_exists }))
}

/// The columns of a table as they would be created.
pub open spec fn existing_columns(l: Seq<ColumnDefinitionView>) -> Seq<NewColumnView> {
    Seq::new(
        l.len(),
        |i: int|
            NewColumnView {
                name: l[i].name,
                data_type: l[i].data_type,
                declared_type: l[i].declared_type,
                nullable: l[i].nullable,
                primary_key: l[i].primary_key,
                unique: l[i].unique,
                default: l[i].default,
            },
    )
}

fn copy_existing_columns(l: &Vec<ColumnDefinition>) -> (r: Vec<NewColumn>)
    ensures
        NewColumn::views(r@) == existing_columns(ColumnDefinition::views(l@)),
{
    let ghost v = ColumnDefinition::views(l@);
    let mut out: Vec<NewColumn> = Vec::new();
    for i in 0..l.len()
        invariant
            v == ColumnDefinition::views(l@),
            out.len() == i,
            forall|k: int| 0 <= k < i ==> out@[k]@ == #[trigger] existing_columns(v)[k],
    {
        assert(v[i as int] == l@[i as int]@);
        out.push(
            NewColumn {
                name: l[i].name.clone(),
                data_type: l[i].data_type.clone(),
                declared_type: l[i].declared_type,
                nullable: l[i].nullable,
                primary_key: l[i].primary_key,
                unique: l[i].unique,
                default: l[i].default.clone(),
            },
        );
    }
    assert(NewColumn::views(out@) =~= existing_columns(v));
    out
}

/// The identity of a column.
pub open spec fn column_id(table: TableDefinitionView, column: ParsedIdentifierView) -> Checked<ColumnId> {
    match find_column(table.columns, column.name, 0) {
        Some(c) => Ok(c.id),
        None => Err(no_column(column.name, column.position)),
    }
}

/// Finds the identity of a column.
pub fn resolve_column_id(table: &TableDefinition, column: &ParsedIdentifier) -> (r: Result<ColumnId>)
    ensures
        (match r {
            Ok(i) => Ok(i),
            Err(e) => Err(e@),
        }) == column_id(table@, column@),
{
    match table.column(&column.name) {
        Some(c) => Ok(c.id),
        None => Err(no_such_column(&column.name, column.position)),
    }
}

/// The identities of dropped columns, from a position on.
pub open spec fn dropped_columns(
    l: Seq<ParsedIdentifierView>,
    table: TableDefinitionView,
    if_exists: bool,
    i: int,
    done: Seq<ColumnId>,
) -> Checked<
    Seq<ColumnId>,
>
    decreases l.len() - i,
{
    if i < 0 || i >= l.len() {
        Ok(done)
    } else {
        match find_column(table.columns, l[i].name, 0) {
            Some(c) => dropped_columns(l, table, if_exists, i + 1, done.push(c.id)),
            None => if if_exists {
                dropped_columns(l, table, if_exists, i + 1, done)
            } else {
                Err(no_column(l[i].name, l[i].position))
            },
        }
    }
}

fn find_dropped_columns(l: &Vec<ParsedIdentifier>, table: &TableDefinition, if_exists: bool) -> (r: Result<Vec<ColumnId>>)
    ensures
        (match r {
            Ok(x) => Ok(x@),
            Err(x) => Err(x@),
        }) == dropped_columns(ParsedIdentifier::views(l@), table@, if_exists, 0, Seq::empty()),
{
    let ghost v = ParsedIdentifier::views(l@);
    let mut out: Vec<ColumnId> = Vec::new();
    assert(out@ =~= Seq::empty());
    for i in 0..l.len()
        invariant
            v == ParsedIdentifier::views(l@),
            dropped_columns(v, table@, if_exists, 0, Seq::empty()) == dropped_columns(v, table@, if_exists, i as int, out@),
    {
        assert(v[i as int] == l@[i as int]@);
        match table.column(&l[i].name) {
            Some(c) => out.push(c.id),
            None => {
                if !if_exists {
                    return Err(no_such_column(&l[i].name, l[i].position));
                }
            },
        }
    }
    Ok(out)
}

/// A bound table change and the columns after it; a change that adds an existing
/// column may be skipped.
#[verifier::opaque]
pub open spec fn change_of(
    op: ParsedAlterTableOperationView,
    table: TableDefinitionView,
    ordinal: int,
    columns: Seq<NewColumnView>,
    catalog: CatalogView,
) -> Checked<(Option<BoundAlterTableOperationView>, Seq<NewColumnView>)> {
    match op {
        ParsedAlterTableOperationView::RenameTable { new_name } => {
            let schema = catalog.schema_by_id(table.schema_id);
            if schema is Some && schema->0.has_relation(new_name.name) {
                Err(error_at("42P07"@, "relation "@ + new_name.name + " already exists"@, new_name.position))
            } else {
                Ok((Some(BoundAlterTableOperationView::RenameTable { new_name: new_name.name }), columns))
            }
        },
        ParsedAlterTableOperationView::RenameColumn { old_name, new_name } => match column_id(table, old_name) {
            Err(x) => Err(x),
            Ok(column_id) => if find_column(table.columns, new_name.name, 0) is Some {
                Err(error_at("42701"@, "column "@ + new_name.name + " already exists"@, new_name.position))
            } else {
                Ok((Some(BoundAlterTableOperationView::RenameColumn { column_id, new_name: new_name.name }), columns))
            },
        },
        ParsedAlterTableOperationView::AddColumn { column, if_not_exists } => if new_column_place(columns, column.name.name, 0) is Some {
            if if_not_exists {
                Ok((None, columns))
            } else {
                Err(error_at("42701"@, "column "@ + column.name.name + " already exists"@, column.name.position))
            }
        } else {
            match column_of_table(column, catalog) {
                Err(x) => Err(x),
                Ok(c) => Ok((Some(BoundAlterTableOperationView::AddColumn { column: c, if_not_exists }), columns.push(c))),
            }
        },
        ParsedAlterTableOperationView::DropColumns { columns: l, if_exists, behavior } => match dropped_columns(
            l,
            table,
            if_exists,
            0,
            Seq::empty(),
        ) {
            Err(x) => Err(x),
            Ok(column_ids) => Ok((Some(BoundAlterTableOperationView::DropColumns { column_ids, if_exists, behavior }), columns)),
        },
        ParsedAlterTableOperationView::SetNotNull { column } => match column_id(table, column) {
            Err(x) => Err(x),
            Ok(column_id) => Ok((Some(BoundAlterTableOperationView::SetNotNull { column_id }), columns)),
        },
        ParsedAlterTableOperationView::DropNotNull { column } => match column_id(table, column) {
            Err(x) => Err(x),
            Ok(column_id) => Ok((Some(BoundAlterTableOperationView::DropNotNull { column_id }), columns)),
        },
        ParsedAlterTableOperationView::SetDefault { column, default } => match find_column(table.columns, column.name, 0) {
            None => Err(no_column(column.name, column.position)),
            Some(c) => match default_of(Some(default), c.data_type) {
                Err(x) => Err(x),
                Ok(d) => Ok((Some(BoundAlterTableOperationView::SetDefault { column_id: c.id, default: d->0 }), columns)),
            },
        },
        ParsedAlterTableOperationView::DropDefault { column } => match column_id(table, column) {
            Err(x) => Err(x),
            Ok(column_id) => Ok((Some(BoundAlterTableOperationView::DropDefault { column_id }), columns)),
        },
        ParsedAlterTableOperationView::SetDataType { column, data_type, declared_type } => match written_type(
            data_type,
            declared_type,
            catalog,
        ) {
            Err(x) => Err(x),
            Ok((data_type, declared_type)) => match column_id(table, column) {
                Err(x) => Err(x),
                Ok(column_id) => Ok(
                    (Some(BoundAlterTableOperationView::SetDataType { column_id, data_type, declared_type }), columns),
                ),
            },
        },
        ParsedAlterTableOperationView::AddConstraint { constraint } => match constraint_of(
            constraint,
            table.name,
            if table.constraints.len() + ordinal > usize::MAX {
                usize::MAX
            } else {
                (table.constraints.len() + ordinal) as usize
            },
            columns,
            catalog,
        ) {
            Err(x) => Err(x),
            Ok(constraint) => Ok((Some(BoundAlterTableOperationView::AddConstraint { constraint }), columns)),
        },
        ParsedAlterTableOperationView::DropConstraint { name, if_exists, behavior } => match find_constraint(
            table.constraints,
            name.name,
            0,
        ) {
            Some(c) => Ok(
                (Some(BoundAlterTableOperationView::DropConstraint { constraint_id: Some(c.id), if_exists, behavior }), columns),
            ),
            None => if if_exists {
                Ok((Some(BoundAlterTableOperationView::DropConstraint { constraint_id: None, if_exists, behavior }), columns))
            } else {
                Err(error_at("42704"@, "constraint "@ + name.name + " does not exist"@, name.position))
            },
        },
        ParsedAlterTableOperationView::SetTriggerEnabled { name, enabled } => match find_trigger(table.triggers, name.name, 0) {
            Some(t) => Ok(
                (
                    Some(BoundAlterTableOperationView::SetTriggerEnabled { trigger_id: Some(t.id), name: name.name, enabled }),
                    columns,
                ),
            ),
            None => Err(error_at("42704"@, "trigger "@ + name.name + " does not exist"@, name.position)),
        },
    }
}

fn bind_change(
    op: &ParsedAlterTableOperation,
    table: &TableDefinition,
    ordinal: usize,
    columns: Vec<NewColumn>,
    catalog: &Catalog,
) -> (r: Result<
    (Option<BoundAlterTableOperation>, Vec<NewColumn>),
>)
    ensures
        (match r {
            Ok(p) => Ok(
                (
                    match p.0 {
                        Some(o) => Some(o@),
                        None => None,
                    },
                    NewColumn::views(p.1@),
                ),
            ),
            Err(e) => Err(e@),
        }) == change_of(op@, table@, ordinal as int, NewColumn::views(columns@), catalog@),
{
    reveal(change_of);
    proof {
        op.unfold();
    }
    match op {
        ParsedAlterTableOperation::RenameTable { new_name } => {
            if let Some(s) = catalog.schema_by_id(table.schema_id) {
                if s.relation_name_exists(&new_name.name) {
                    return Err(DbError::at("42P07", text3("relation ", new_name.name.as_str(), " already exists"), new_name.position));
                }
            }
            Ok((Some(BoundAlterTableOperation::RenameTable { new_name: new_name.name.clone() }), columns))
        },
        ParsedAlterTableOperation::RenameColumn { old_name, new_name } => {
            let column_id = resolve_column_id(table, old_name)?;
            if table.column(&new_name.name).is_some() {
                return Err(DbError::at("42701", text3("column ", new_name.name.as_str(), " already exists"), new_name.position));
            }
            Ok((Some(BoundAlterTableOperation::RenameColumn { column_id, new_name: new_name.name.clone() }), columns))
        },
        ParsedAlterTableOperation::AddColumn { column, if_not_exists } => {
            proof {
                column.unfold();
            }
            if find_new_column(&columns, &column.name.name, 0).is_some() {
                if *if_not_exists {
                    return Ok((None, columns));
                }
                return Err(
                    DbError::at("42701", text3("column ", column.name.name.as_str(), " already exists"), column.name.position),
                );
            }
            let c = bind_column_definition(column, catalog)?;
            let ghost before = NewColumn::views(columns@);
            let mut columns = columns;
            let copy = c.clone();
            columns.push(copy);
            assert(NewColumn::views(columns@) =~= before.push(c@));
            Ok((Some(BoundAlterTableOperation::AddColumn { column: c, if_not_exists: *if_not_exists }), columns))
        },
        ParsedAlterTableOperation::DropColumns { columns: l, if_exists, behavior } => {
            let column_ids = find_dropped_columns(l, table, *if_exists)?;
            Ok(
                (
                    Some(BoundAlterTableOperation::DropColumns { column_ids, if_exists: *if_exists, behavior: *behavior }),
                    columns,
                ),
            )
        },
        ParsedAlterTableOperation::SetNotNull { column } => {
            let column_id = resolve_column_id(table, column)?;
            Ok((Some(BoundAlterTableOperation::SetNotNull { column_id }), columns))
        },
        ParsedAlterTableOperation::DropNotNull { column } => {
            let column_id = resolve_column_id(table, column)?;
            Ok((Some(BoundAlterTableOperation::DropNotNull { column_id }), columns))
        },
        ParsedAlterTableOperation::SetDefault { column, default } => {
            let c = match table.column(&column.name) {
                Some(c) => c,
                None => {
                    return Err(no_such_column(&column.name, column.position));
                },
            };
            let d = bind_default(default, &c.data_type)?;
            Ok((Some(BoundAlterTableOperation::SetDefault { column_id: c.id, default: d }), columns))
        },
        ParsedAlterTableOperation::DropDefault { column } => {
            let column_id = resolve_column_id(table, column)?;
            Ok((Some(BoundAlterTableOperation::DropDefault { column_id }), columns))
        },
        ParsedAlterTableOperation::SetDataType { column, data_type, declared_type } => {
            let (data_type, declared_type) = resolve_written_type(data_type, declared_type, catalog)?;
            let column_id = resolve_column_id(table, column)?;
            Ok((Some(BoundAlterTableOperation::SetDataType { column_id, data_type, declared_type }), columns))
        },
        ParsedAlterTableOperation::AddConstraint { constraint } => {
            let k: usize = match table.constraints.len().checked_add(ordinal) {
                Some(k) => k,
                None => usize::MAX,
            };
            let constraint = bind_table_constraint(constraint, &table.name, k, &columns, catalog)?;
            Ok((Some(BoundAlterTableOperation::AddConstraint { constraint }), columns))
        },
        ParsedAlterTableOperation::DropConstraint { name, if_exists, behavior } => {
            let constraint_id = match table.constraint(&name.name) {
                Some(c) => Some(c.id),
                None => {
                    if !*if_exists {
                        return Err(DbError::at("42704", text3("constraint ", name.name.as_str(), " does not exist"), name.position));
                    }
                    None
                },
            };
            Ok(
                (
                    Some(
                        BoundAlterTableOperation::DropConstraint { constraint_id, if_exists: *if_exists, behavior: *behavior },
                    ),
                    columns,
                ),
            )
        },
        ParsedAlterTableOperation::SetTriggerEnabled { name, enabled } => match table.trigger(&name.name) {
            Some(t) => Ok(
                (
                    Some(
                        BoundAlterTableOperation::SetTriggerEnabled {
                            trigger_id: Some(t.id),
                            name: name.name.clone(),
                            enabled: *enabled,
                        },
                    ),
                    columns,
                ),
            ),
            None => Err(DbError::at("42704", text3("trigger ", name.name.as_str(), " does not exist"), name.position)),
        },
    }
}

/// The bound changes of a table, from one of them on.
pub open spec fn changes_of(
    l: Seq<ParsedAlterTableOperationView>,
    table: TableDefinitionView,
    catalog: CatalogView,
    i: int,
    columns: Seq<NewColumnView>,
    done: Seq<BoundAlterTableOperationView>,
) -> Checked<Seq<BoundAlterTableOperationView>>
    decreases l.len() - i,
{
    if i < 0 || i >= l.len() {
        Ok(done)
    } else {
        match change_of(l[i], table, i, columns, catalog) {
            Err(x) => Err(x),
            Ok((op, columns)) => changes_of(
                l,
                table,
                catalog,
                i + 1,
                columns,
                match op {
                    Some(o) => done.push(o),
                    None => done,
                },
            ),
        }
    }
}

/// The bound form of ALTER TABLE.
#[verifier::opaque]
pub open spec fn alter_table_of(
    name: ParsedObjectNameView,
    if_exists: bool,
    operations: Seq<ParsedAlterTableOperationView>,
    catalog: CatalogView,
) -> Checked<BoundStatementView> {
    match named_table(name, catalog) {
        Err(x) => if if_exists {
            Ok(BoundStatementView::NoOp { tag: "ALTER TABLE"@ })
        } else {
            Err(x)
        },
        Ok(table) => match changes_of(operations, table, catalog, 0, existing_columns(table.columns), Seq::empty()) {
            Err(x) => Err(x),
            Ok(operations) => Ok(BoundStatementView::AlterTable { table_id: table.id, operations }),
        },
    }
}

/// Binds ALTER TABLE.
pub fn bind_alter_table(
    name: &ParsedObjectName,
    if_exists: bool,
    operations: &Vec<ParsedAlterTableOperation>,
    catalog: &Catalog,
) -> (r: Result<
    BoundStatement,
>)
    ensures
        bound_result(r) == alter_table_of(name@, if_exists, ParsedAlterTableOperation::views(operations@), catalog@),
{
    reveal(alter_table_of);
    let table = match resolve_table(name, catalog) {
        Ok(t) => t,
        Err(e) => {
            if if_exists {
                return Ok(make_bound_statement(BoundStatement::NoOp { tag: text("ALTER TABLE") }));
            }
            return Err(e);
        },
    };
    let ghost v = ParsedAlterTableOperation::views(operations@);
    let ghost whole = changes_of(v, table@, catalog@, 0, existing_columns(table@.columns), Seq::empty());
    let mut columns: Vec<NewColumn> = copy_existing_columns(&table.columns);
    let mut out: Vec<BoundAlterTableOperation> = Vec::new();
    assert(BoundAlterTableOperation::views(out@) =~= Seq::empty());
    for i in 0..operations.len()
        invariant
            v == ParsedAlterTableOperation::views(operations@),
            whole == changes_of(v, table@, catalog@, 0, existing_columns(table@.columns), Seq::empty()),
            whole == changes_of(
                v,
                table@,
                catalog@,
                i as int,
                NewColumn::views(columns@),
                BoundAlterTableOperation::views(out@),
            ),
            named_table(name@, catalog@) == Ok::<TableDefinitionView, DbErrorView>(table@),
    {
        reveal(alter_table_of);
        assert(v[i as int] == operations@[i as int]@);
        let (op, next) = bind_change(&operations[i], table, i, columns, catalog)?;
        columns = next;
        if let Some(o) = op {
            let ghost before = BoundAlterTableOperation::views(out@);
            out.push(o);
            assert(BoundAlterTableOperation::views(out@) =~= before.push(o@));
        }
    }
    Ok(make_bound_statement(BoundStatement::AlterTable { table_id: table.id, operations: out }))
}

/// How an object kind is called in a command tag.
pub open spec fn object_label(kind: DdlObjectKind) -> Seq<char> {
    match kind {
        DdlObjectKind::Schema => "SCHEMA"@,
        DdlObjectKind::Table => "TABLE"@,
        DdlObjectKind::Index => "INDEX"@,
        DdlObjectKind::Sequence => "SEQUENCE"@,
        DdlObjectKind::View => "VIEW"@,
        DdlObjectKind::MaterializedView => "MATERIALIZED VIEW"@,
        DdlObjectKind::Type => "TYPE"@,
    }
}

/// How an object kind is called in a command tag.
pub fn ddl_object_label(kind: DdlObjectKind) -> (r: &'static str)
    ensures
        r@ == object_label(kind),
{
    match kind {
        DdlObjectKind::Schema => "SCHEMA",
        DdlObjectKind::Table => "TABLE",
        DdlObjectKind::Index => "INDEX",
        DdlObjectKind::Sequence => "SEQUENCE",
        DdlObjectKind::View => "VIEW",
        DdlObjectKind::MaterializedView => "MATERIALIZED VIEW",
        DdlObjectKind::Type => "TYPE",
    }
}

/// The object that a name denotes. A name that cannot denote an object of its kind
/// is an outer error; one that denotes none is an inner error.
pub open spec fn object_of(kind: DdlObjectKind, name: ParsedObjectNameView, catalog: CatalogView) -> Checked<Checked<CatalogObjectRef>> {
    match kind {
        DdlObjectKind::Schema => if name.parts.len() != 1 {
            Err(unsupported_error("qualified schema names are not supported"@, None))
        } else {
            Ok(
                match catalog.schema(name.parts[0].name) {
                    Some(s) => Ok(CatalogObjectRef::Schema(s.id)),
                    None => Err(no_schema(name.parts[0].name, name.parts[0].position)),
                },
            )
        },
        DdlObjectKind::Table => Ok(
            match named_table(name, catalog) {
                Ok(t) => Ok(CatalogObjectRef::Table(t.id)),
                Err(x) => Err(x),
            },
        ),
        _ => match split_name(name) {
            Err(x) => Err(x),
            Ok(s) => Ok(
                match kind {
                    DdlObjectKind::Index => match catalog.index(s.schema, s.name) {
                        Some(i) => Ok(CatalogObjectRef::Index(i.id)),
                        None => Err(no_object("42704"@, "index "@, s.schema, s.name, s.position)),
                    },
                    DdlObjectKind::Sequence => match catalog.sequence(s.schema, s.name) {
                        Some(q) => Ok(CatalogObjectRef::Sequence(q.id)),
                        None => Err(no_object("42P01"@, "sequence "@, s.schema, s.name, s.position)),
                    },
                    DdlObjectKind::Type => match catalog.type_of(s.schema, s.name) {
                        Some(t) => Ok(CatalogObjectRef::Type(t.id)),
                        None => Err(no_object("42704"@, "type "@, s.schema, s.name, s.position)),
                    },
                    _ => match catalog.view_of(s.schema, s.name) {
                        Some(v) => if (kind == DdlObjectKind::MaterializedView) == (v.kind == ViewKind::Materialized) {
                            Ok(CatalogObjectRef::View(v.id))
                        } else {
                            Err(no_object("42P01"@, "view "@, s.schema, s.name, s.position))
                        },
                        None => Err(no_object("42P01"@, "view "@, s.schema, s.name, s.position)),
                    },
                },
            ),
        },
    }
}

fn find_object(kind: DdlObjectKind, name: &ParsedObjectName, catalog: &Catalog) -> (r: Result<Result<CatalogObjectRef>>)
    ensures
        (match r {
            Ok(Ok(o)) => Ok(Ok(o)),
            Ok(Err(e)) => Ok(Err(e@)),
            Err(e) => Err(e@),
        }) == object_of(kind, name@, catalog@),
{
    match kind {
        DdlObjectKind::Schema => {
            if name.parts.len() != 1 {
                return Err(unsupported("qualified schema names are not supported"));
            }
            assert(name@.parts[0] == name.parts@[0]@);
            let part = &name.parts[0];
            return Ok(
                match catalog.schema(&part.name) {
                    Some(s) => Ok(CatalogObjectRef::Schema(s.id)),
                    None => Err(no_such_schema(&part.name, part.position)),
                },
            );
        },
        DdlObjectKind::Table => {
            return Ok(
                match resolve_table(name, catalog) {
                    Ok(t) => Ok(CatalogObjectRef::Table(t.id)),
                    Err(e) => Err(e),
                },
            );
        },
        _ => {},
    }
    let (schema, object, position) = split_table_name(name)?;
    Ok(
        match kind {
            DdlObjectKind::Index => match catalog.index(&schema, &object) {
                Some(i) => Ok(CatalogObjectRef::Index(i.id)),
                None => Err(no_such_object("42704", "index ", &schema, &object, position)),
            },
            DdlObjectKind::Sequence => match catalog.sequence(&schema, &object) {
                Some(q) => Ok(CatalogObjectRef::Sequence(q.id)),
                None => Err(no_such_object("42P01", "sequence ", &schema, &object, position)),
            },
            DdlObjectKind::Type => match catalog.user_defined_type(&schema, &object) {
                Some(t) => Ok(CatalogObjectRef::Type(t.id)),
                None => Err(no_such_object("42704", "type ", &schema, &object, position)),
            },
            _ => match catalog.view_named(&schema, &object) {
                Some(v) => {
                    if (kind == DdlObjectKind::MaterializedView) == (v.kind == ViewKind::Materialized) {
                        Ok(CatalogObjectRef::View(v.id))
                    } else {
                        Err(no_such_object("42P01", "view ", &schema, &object, position))
                    }
                },
                None => Err(no_such_object("42P01", "view ", &schema, &object, position)),
            },
        },
    )
}

/// The objects that names denote, from a position on.
pub open spec fn objects_of(
    kind: DdlObjectKind,
    l: Seq<ParsedObjectNameView>,
    if_exists: bool,
    catalog: CatalogView,
    i: int,
    done: Seq<CatalogObjectRef>,
) -> Checked<Seq<CatalogObjectRef>>
    decreases l.len() - i,
{
    if i < 0 || i >= l.len() {
        Ok(done)
    } else {
        match object_of(kind, l[i], catalog) {
            Err(x) => Err(x),
            Ok(Ok(o)) => objects_of(kind, l, if_exists, catalog, i + 1, done.push(o)),
            Ok(Err(x)) => if if_exists {
                objects_of(kind, l, if_exists, catalog, i + 1, done)
            } else {
                Err(x)
            },
        }
    }
}

/// The bound form of DROP.
#[verifier::opaque]
pub open spec fn drop_of(
    kind: DdlObjectKind,
    names: Seq<ParsedObjectNameView>,
    if_exists: bool,
    behavior: DropBehavior,
    catalog: CatalogView,
) -> Checked<
    BoundStatementView,
> {
    match objects_of(kind, names, if_exists, catalog, 0, Seq::empty()) {
        Err(x) => Err(x),
        Ok(objects) => if objects.len() == 0 {
            Ok(BoundStatementView::NoOp { tag: "DROP "@ + object_label(kind) })
        } else {
            Ok(BoundStatementView::DropObjects { kind, objects, behavior })
        },
    }
}

/// Binds DROP.
pub fn bind_drop_objects(
    kind: DdlObjectKind,
    names: &Vec<ParsedObjectName>,
    if_exists: bool,
    behavior: DropBehavior,
    catalog: &Catalog,
) -> (r: Result<
    BoundStatement,
>)
    ensures
        bound_result(r) == drop_of(kind, ParsedObjectName::views(names@), if_exists, behavior, catalog@),
{
    reveal(drop_of);
    let ghost v = ParsedObjectName::views(names@);
    let mut objects: Vec<CatalogObjectRef> = Vec::new();
    assert(objects@ =~= Seq::empty());
    for i in 0..names.len()
        invariant
            v == ParsedObjectName::views(names@),
            objects_of(kind, v, if_exists, catalog@, 0, Seq::empty()) == objects_of(kind, v, if_exists, catalog@, i as int, objects@),
    {
        reveal(drop_of);
        assert(v[i as int] == names@[i as int]@);
        match find_object(kind, &names[i], catalog)? {
            Ok(o) => objects.push(o),
            Err(e) => {
                if !if_exists {
                    return Err(e);
                }
            },
        }
    }
    if objects.len() == 0 {
        return Ok(make_bound_statement(BoundStatement::NoOp { tag: text2("DROP ", ddl_object_label(kind)) }));
    }
    Ok(make_bound_statement(BoundStatement::DropObjects { kind, objects, behavior }))
}

} // verus!
