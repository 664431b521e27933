//! The relations that stand for WITH queries while a statement is bound.

use vstd::prelude::*;

use crate::catalog::{
    Catalog, CatalogView, ColumnDefinition, ColumnDefinitionView, ConstraintDefinition, IndexDefinition, RoutineDefinition,
    SchemaDefinition, SchemaDefinitionView, SequenceDefinition, TableDefinition, TableDefinitionView, TriggerDefinition, TypeDefinition,
    ViewDefinition,
};
use crate::grouping::check_result;
use crate::names::{no_schema, no_such_schema};
use crate::scope::Checked;
use crate::syntax::{ParsedIdentifier, ParsedIdentifierView, ParsedObjectName, ParsedObjectNameView};
use crate::text::{decimal, decimal_text, index_text, text, text3, text4, text5};
use crate::types::{
    described, error, normalized, ColumnId, DATATYPE_MISMATCH, DbError, DbErrorView, Field, FieldView, Identifier, Result, SYNTAX_ERROR,
    Schema, SchemaId, SchemaView, TableId,
};
use crate::typing::{common, common_type};

verus! {

/// The place of the schema of a name, from a position on.
pub open spec fn schema_place(l: Seq<SchemaDefinitionView>, name: Seq<char>, i: int) -> Option<usize>
    decreases l.len() - i,
{
    if i < 0 || i >= l.len() {
        None
    } else if l[i].name == name {
        Some(i as usize)
    } else {
        schema_place(l, name, i + 1)
    }
}

/// Finds the place of the schema of a name.
fn find_schema_place(l: &Vec<SchemaDefinition>, name: &Identifier, from: usize) -> (r: Option<usize>)
    ensures
        r == schema_place(SchemaDefinition::views(l@), name@, from as int),
        r matches Some(k) ==> from <= k < l.len(),
{
    let ghost v = SchemaDefinition::views(l@);
    let mut i: usize = from;
    while i < l.len()
        invariant
            from <= i,
            v == SchemaDefinition::views(l@),
            schema_place(v, name@, from as int) == schema_place(v, name@, i as int),
        decreases l.len() - i,
    {
        assert(v[i as int] == l@[i as int]@);
        if l[i].name.same(name) {
            return Some(i);
        }
        i += 1;
    }
    None
}

/// The error of a catalog without unused identities.
pub open spec fn identities_exhausted() -> DbErrorView {
    error("54000"@, "catalog identity space is exhausted"@)
}

/// A catalog with one schema more.
#[verifier::opaque]
pub open spec fn with_schema(c: CatalogView, name: Seq<char>) -> Checked<CatalogView> {
    if c.schema(name) is Some {
        Err(error("42P06"@, "schema "@ + name + " already exists"@))
    } else if c.next_id == u64::MAX {
        Err(identities_exhausted())
    } else {
        Ok(
            CatalogView {
                schemas: c.schemas.push(
                    SchemaDefinitionView {
                        id: SchemaId(c.next_id),
                        name,
                        tables: Seq::empty(),
                        views: Seq::empty(),
                        sequences: Seq::empty(),
                        types: Seq::empty(),
                        routines: Seq::empty(),
                    },
                ),
                next_id: (c.next_id + 1) as u64,
                ..c
            },
        )
    }
}

/// Adds a schema to a catalog.
pub fn create_schema(catalog: Catalog, name: Identifier) -> (r: Result<Catalog>)
    ensures
        (match r {
            Ok(c) => Ok(c@),
            Err(e) => Err(e@),
        }) == with_schema(catalog@, name@),
{
    reveal(with_schema);
    if catalog.schema(&name).is_some() {
        return Err(DbError::new("42P06", text3("schema ", name.as_str(), " already exists")));
    }
    if catalog.next_id == u64::MAX {
        return Err(DbError::new("54000", text("catalog identity space is exhausted")));
    }
    let id: u64 = catalog.next_id;
    let ghost before = SchemaDefinition::views(catalog.schemas@);
    let s = SchemaDefinition {
        id: SchemaId(id),
        name,
        tables: Vec::new(),
        views: Vec::new(),
        sequences: Vec::new(),
        types: Vec::new(),
        routines: Vec::new(),
    };
    assert(TableDefinition::views(s.tables@) =~= Seq::empty());
    assert(ViewDefinition::views(s.views@) =~= Seq::empty());
    assert(SequenceDefinition::views(s.sequences@) =~= Seq::empty());
    assert(TypeDefinition::views(s.types@) =~= Seq::empty());
    assert(RoutineDefinition::views(s.routines@) =~= Seq::empty());
    let mut schemas = catalog.schemas;
    schemas.push(s);
    assert(SchemaDefinition::views(schemas@) =~= before.push(s@));
    Ok(Catalog { database: catalog.database, schemas, next_id: id + 1 })
}

/// Plain columns for the output of a query, from a field on.
pub open spec fn plain_columns(
    fields: Seq<FieldView>,
    first: u64,
    i: int,
    done: Seq<ColumnDefinitionView>,
) -> Checked<Seq<ColumnDefinitionView>>
    decreases fields.len() - i,
{
    if i < 0 || i >= fields.len() {
        Ok(done)
    } else if crate::catalog::find_column_index(done, normalized(fields[i].name, false), 0) is Some {
        Err(error("42701"@, "column "@ + normalized(fields[i].name, false) + " specified more than once"@))
    } else {
        plain_columns(
            fields,
            first,
            i + 1,
            done.push(
                ColumnDefinitionView {
                    id: ColumnId((first + i) as u64),
                    name: normalized(fields[i].name, false),
                    data_type: fields[i].data_type,
                    declared_type: None,
                    nullable: fields[i].nullable,
                    primary_key: false,
                    unique: false,
                    default: None,
                },
            ),
        )
    }
}

fn place_of(columns: &Vec<ColumnDefinition>, name: &Identifier) -> (r: bool)
    ensures
        r == (crate::catalog::find_column_index(ColumnDefinition::views(columns@), name@, 0) is Some),
{
    let ghost v = ColumnDefinition::views(columns@);
    for i in 0..columns.len()
        invariant
            v == ColumnDefinition::views(columns@),
            crate::catalog::find_column_index(v, name@, 0) == crate::catalog::find_column_index(v, name@, i as int),
    {
        assert(v[i as int] == columns@[i as int]@);
        if columns[i].name.same(name) {
            return true;
        }
    }
    false
}

fn make_plain_columns(fields: &Vec<Field>, first: u64) -> (r: Result<Vec<ColumnDefinition>>)
    requires
        first + fields.len() <= u64::MAX,
    ensures
        (match r {
            Ok(l) => Ok(ColumnDefinition::views(l@)),
            Err(e) => Err(e@),
        }) == plain_columns(Field::views(fields@), first, 0, Seq::empty()),
{
    let ghost f = Field::views(fields@);
    let mut out: Vec<ColumnDefinition> = Vec::new();
    assert(ColumnDefinition::views(out@) =~= Seq::empty());
    for i in 0..fields.len()
        invariant
            first + fields.len() <= u64::MAX,
            f == Field::views(fields@),
            plain_columns(f, first, 0, Seq::empty()) == plain_columns(f, first, i as int, ColumnDefinition::views(out@)),
    {
        assert(f[i as int] == fields@[i as int]@);
        let name = Identifier::unquoted(fields[i].name.as_str());
        if place_of(&out, &name) {
            return Err(DbError::new("42701", text3("column ", name.as_str(), " specified more than once")));
        }
        let x = ColumnDefinition {
            id: ColumnId(first + i as u64),
            name,
            data_type: fields[i].data_type.clone(),
            declared_type: None,
            nullable: fields[i].nullable,
            primary_key: false,
            unique: false,
            default: None,
        };
        let ghost before = ColumnDefinition::views(out@);
        out.push(x);
        assert(ColumnDefinition::views(out@) =~= before.push(x@));
    }
    Ok(out)
}

/// A catalog with one table more: its columns are the output of a query.
#[verifier::opaque]
pub open spec fn with_relation(c: CatalogView, schema: Seq<char>, name: Seq<char>, output: SchemaView) -> Checked<(CatalogView, TableId)> {
    match schema_place(c.schemas, schema, 0) {
        None => Err(no_schema(schema, None)),
        Some(k) => if c.schemas[k as int].has_relation(name) {
            Err(error("42P07"@, "relation "@ + schema + "."@ + name + " already exists"@))
        } else if c.next_id + 1 + output.fields.len() > u64::MAX {
            Err(identities_exhausted())
        } else {
            match plain_columns(output.fields, (c.next_id + 1) as u64, 0, Seq::empty()) {
                Err(x) => Err(x),
                Ok(columns) => {
                    let table = TableDefinitionView {
                        id: TableId(c.next_id),
                        schema_id: c.schemas[k as int].id,
                        name,
                        columns,
                        constraints: Seq::empty(),
                        indexes: Seq::empty(),
                        triggers: Seq::empty(),
                    };
                    let s = c.schemas[k as int];
                    Ok(
                        (
                            CatalogView {
                                schemas: c.schemas.update(k as int, SchemaDefinitionView { tables: s.tables.push(table), ..s }),
                                next_id: (c.next_id + 1 + output.fields.len()) as u64,
                                ..c
                            },
                            TableId(c.next_id),
                        ),
                    )
                },
            }
        },
    }
}

/// Adds the relation that stands for a WITH query.
pub fn create_cte_relation(
    catalog: Catalog,
    schema: &Identifier,
    name: &ParsedIdentifier,
    output: &Schema,
) -> (r: Result<(Catalog, TableId)>)
    ensures
        (match r {
            Ok(p) => Ok((p.0@, p.1)),
            Err(e) => Err(e@),
        }) == with_relation(catalog@, schema@, name@.name, output@),
{
    reveal(with_relation);
    let k: usize = match find_schema_place(&catalog.schemas, schema, 0) {
        Some(k) => k,
        None => {
            return Err(no_such_schema(schema, None));
        },
    };
    assert(catalog@.schemas[k as int] == catalog.schemas@[k as int]@);
    if catalog.schemas[k].relation_name_exists(&name.name) {
        return Err(DbError::new("42P07", text5("relation ", schema.as_str(), ".", name.name.as_str(), " already exists")));
    }
    let id: u64 = catalog.next_id;
    let n: usize = output.fields.len();
    if id >= u64::MAX || n as u64 > u64::MAX - id - 1 {
        return Err(DbError::new("54000", text("catalog identity space is exhausted")));
    }
    let columns = make_plain_columns(&output.fields, id + 1)?;
    let table = TableDefinition {
        id: TableId(id),
        schema_id: catalog.schemas[k].id,
        name: name.name.clone(),
        columns,
        constraints: Vec::new(),
        indexes: Vec::new(),
        triggers: Vec::new(),
    };
    assert(ConstraintDefinition::views(table.constraints@) =~= Seq::empty());
    assert(IndexDefinition::views(table.indexes@) =~= Seq::empty());
    assert(TriggerDefinition::views(table.triggers@) =~= Seq::empty());
    let ghost before = catalog@.schemas;
    let mut s = catalog.schemas[k].clone();
    let ghost tables = TableDefinition::views(s.tables@);
    s.tables.push(table);
    assert(TableDefinition::views(s.tables@) =~= tables.push(table@));
    let mut schemas = catalog.schemas;
    schemas.set(k, s);
    assert(SchemaDefinition::views(schemas@) =~= before.update(k as int, s@));
    Ok((Catalog { database: catalog.database, schemas, next_id: id + 1 + n as u64 }, TableId(id)))
}

/// The name of a namespace for WITH queries.
pub open spec fn namespace(depth: usize, suffix: u64) -> Seq<char> {
    normalized("__ordadb_cte_"@ + decimal(depth as nat) + "_"@ + decimal(suffix as nat), false)
}

/// The first namespace that no schema uses, from a suffix on.
pub open spec fn free_namespace(c: CatalogView, depth: usize, suffix: u64) -> Checked<Seq<char>>
    decreases u64::MAX - suffix,
{
    if c.schema(namespace(depth, suffix)) is None {
        Ok(namespace(depth, suffix))
    } else if suffix == u64::MAX {
        Err(error("54000"@, "could not allocate a transient CTE namespace"@))
    } else {
        free_namespace(c, depth, (suffix + 1) as u64)
    }
}

/// Finds the first namespace that no schema uses.
pub fn find_namespace(catalog: &Catalog, depth: usize) -> (r: Result<Identifier>)
    ensures
        (match r {
            Ok(n) => Ok(n@),
            Err(e) => Err(e@),
        }) == free_namespace(catalog@, depth, 0),
{
    let mut suffix: u64 = 0;
    loop
        invariant
            free_namespace(catalog@, depth, 0) == free_namespace(catalog@, depth, suffix),
        decreases u64::MAX - suffix,
    {
        let name = text4("__ordadb_cte_", index_text(depth).as_str(), "_", decimal_text(suffix).as_str());
        let candidate = Identifier::unquoted(name.as_str());
        if catalog.schema(&candidate).is_none() {
            return Ok(candidate);
        }
        if suffix == u64::MAX {
            return Err(DbError::new("54000", text("could not allocate a transient CTE namespace")));
        }
        suffix += 1;
    }
}

/// Fields under the names of a column list.
pub open spec fn renamed_fields(fields: Seq<FieldView>, columns: Seq<ParsedIdentifierView>) -> Seq<FieldView> {
    Seq::new(fields.len(), |i: int| FieldView { name: columns[i].name, ..fields[i] })
}

/// Gives fields the names of a column list of the same length.
pub fn rename_fields(fields: &Vec<Field>, columns: &Vec<ParsedIdentifier>) -> (r: Vec<Field>)
    requires
        fields.len() == columns.len(),
    ensures
        Field::views(r@) == renamed_fields(Field::views(fields@), ParsedIdentifier::views(columns@)),
{
    let ghost f = Field::views(fields@);
    let ghost c = ParsedIdentifier::views(columns@);
    let mut out: Vec<Field> = Vec::new();
    for i in 0..fields.len()
        invariant
            fields.len() == columns.len(),
            f == Field::views(fields@),
            c == ParsedIdentifier::views(columns@),
            out.len() == i,
            forall|k: int| 0 <= k < i ==> out@[k]@ == (FieldView { name: c[k].name, ..f[k] }),
    {
        assert(f[i as int] == fields@[i as int]@);
        assert(c[i as int] == columns@[i as int]@);
        out.push(Field { name: text(columns[i].name.as_str()), data_type: fields[i].data_type.clone(), nullable: fields[i].nullable });
    }
    assert(Field::views(out@) =~= renamed_fields(f, c));
    out
}

/// The output of a WITH query under its column list.
#[verifier::opaque]
pub open spec fn cte_output(name: Seq<char>, columns: Seq<ParsedIdentifierView>, output: SchemaView) -> Checked<SchemaView> {
    if columns.len() == 0 {
        Ok(output)
    } else if columns.len() != output.fields.len() {
        Err(
            error(
                "42601"@,
                "WITH query "@ + name + " has "@ + decimal(output.fields.len()) + " columns available but "@ + decimal(columns.len())
                    + " columns specified"@,
            ),
        )
    } else {
        Ok(SchemaView { fields: renamed_fields(output.fields, columns) })
    }
}

/// Applies the column list of a WITH query to its output.
pub fn apply_cte_column_aliases(name: &ParsedIdentifier, columns: &Vec<ParsedIdentifier>, output: Schema) -> (r: Result<Schema>)
    ensures
        (match r {
            Ok(s) => Ok(s@),
            Err(e) => Err(e@),
        }) == cte_output(name@.name, ParsedIdentifier::views(columns@), output@),
{
    reveal(cte_output);
    if columns.len() == 0 {
        return Ok(output);
    }
    if columns.len() != output.fields.len() {
        let start = text5(
            "WITH query ",
            name.name.as_str(),
            " has ",
            index_text(output.fields.len()).as_str(),
            " columns available but ",
        );
        return Err(DbError::new("42601", text3(start.as_str(), index_text(columns.len()).as_str(), " columns specified")));
    }
    Ok(Schema::new(rename_fields(&output.fields, columns)))
}

/// The name by which a rewritten query refers to a WITH query.
pub open spec fn cte_target(schema: Seq<char>, name: ParsedIdentifierView) -> ParsedObjectNameView {
    ParsedObjectNameView { parts: seq![ParsedIdentifierView { name: schema, position: name.position }, name] }
}

/// Makes the name by which a rewritten query refers to a WITH query.
pub fn cte_replacement_name(schema: &Identifier, name: &ParsedIdentifier) -> (r: ParsedObjectName)
    ensures
        r@ == cte_target(schema@, name@),
{
    let mut parts: Vec<ParsedIdentifier> = Vec::new();
    parts.push(ParsedIdentifier { name: schema.clone(), position: name.position });
    parts.push(name.clone());
    let r = ParsedObjectName { parts };
    assert(r@.parts =~= cte_target(schema@, name@).parts);
    r
}

/// Whether the recursive term of a WITH query delivers what its first term does,
/// from a column on.
pub open spec fn recursive_fits(seed: Seq<FieldView>, recursive: Seq<FieldView>, i: int) -> Checked<()>
    decreases seed.len() - i,
{
    if i < 0 || i >= seed.len() {
        Ok(())
    } else {
        match common(seed[i].data_type, recursive[i].data_type) {
            None => Err(
                error(
                    DATATYPE_MISMATCH@,
                    "recursive UNION types "@ + described(seed[i].data_type) + " and "@ + described(recursive[i].data_type)
                        + " cannot be matched"@,
                ),
            ),
            Some(t) => if t != seed[i].data_type {
                Err(error(DATATYPE_MISMATCH@, "recursive query column type must match the non-recursive term"@))
            } else {
                recursive_fits(seed, recursive, i + 1)
            },
        }
    }
}

/// Whether the recursive term of a WITH query delivers what its first term does.
#[verifier::opaque]
pub open spec fn recursive_schema_fits(seed: SchemaView, recursive: SchemaView) -> Checked<()> {
    if seed.fields.len() != recursive.fields.len() {
        Err(error(SYNTAX_ERROR@, "recursive UNION queries must have the same number of columns"@))
    } else {
        recursive_fits(seed.fields, recursive.fields, 0)
    }
}

/// Checks that the recursive term of a WITH query delivers what its first term does.
pub fn ensure_recursive_cte_schema(seed: &Schema, recursive: &Schema) -> (r: Result<()>)
    ensures
        check_result(r) == recursive_schema_fits(seed@, recursive@),
{
    reveal(recursive_schema_fits);
    if seed.fields.len() != recursive.fields.len() {
        return Err(DbError::new(SYNTAX_ERROR, text("recursive UNION queries must have the same number of columns")));
    }
    let ghost a = Field::views(seed.fields@);
    let ghost b = Field::views(recursive.fields@);
    for i in 0..seed.fields.len()
        invariant
            seed.fields.len() == recursive.fields.len(),
            a == Field::views(seed.fields@),
            b == Field::views(recursive.fields@),
            recursive_schema_fits(seed@, recursive@) == recursive_fits(a, b, i as int),
    {
        assert(a[i as int] == seed.fields@[i as int]@);
        assert(b[i as int] == recursive.fields@[i as int]@);
        let s = &seed.fields[i].data_type;
        let t = &recursive.fields[i].data_type;
        match common_type(s, t) {
            None => {
                return Err(
                    DbError::new(
                        DATATYPE_MISMATCH,
                        text5("recursive UNION types ", s.describe().as_str(), " and ", t.describe().as_str(), " cannot be matched"),
                    ),
                );
            },
            Some(m) => {
                if !m.same(s) {
                    return Err(DbError::new(DATATYPE_MISMATCH, text("recursive query column type must match the non-recursive term")));
                }
            },
        }
    }
    Ok(())
}

/// The namespace of WITH queries is the name of no schema of the catalog.
pub proof fn lemma_free_namespace(c: CatalogView, depth: usize, suffix: u64)
    ensures
        free_namespace(c, depth, suffix) matches Ok(n) ==> c.schema(n) is None,
    decreases u64::MAX - suffix,
{
    if c.schema(namespace(depth, suffix)) is Some && suffix < u64::MAX {
        lemma_free_namespace(c, depth, (suffix + 1) as u64);
    }
}

} // verus!
