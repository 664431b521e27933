//! The columns that a FROM clause provides.

use vstd::prelude::*;

use crate::bound::{BoundTable, BoundTableView};
use crate::catalog::{Catalog, CatalogView, ColumnDefinition, ColumnDefinitionView};
use crate::names::{named_table, resolve_table};
use crate::scope::{Checked, InputColumn, InputColumnView};
use crate::syntax::{ParsedIdentifier, ParsedIdentifierView, ParsedTable, ParsedTableView};
use crate::text::{text, text3};
use crate::types::{error, error_at, normalized, DbError, DbErrorView, Field, FieldView, Identifier, Result};

verus! {

/// Whether one of the columns belongs to a name, from a position on.
pub open spec fn binding_taken(l: Seq<InputColumnView>, binding: Seq<char>, i: int) -> bool
    decreases l.len() - i,
{
    0 <= i < l.len() && (l[i].binding == binding || binding_taken(l, binding, i + 1))
}

/// Decides whether one of the columns belongs to a name.
pub fn has_binding(l: &Vec<InputColumn>, binding: &Identifier) -> (r: bool)
    ensures
        r == binding_taken(InputColumn::views(l@), binding@, 0),
{
    let ghost v = InputColumn::views(l@);
    for i in 0..l.len()
        invariant
            v == InputColumn::views(l@),
            binding_taken(v, binding@, 0) == binding_taken(v, binding@, i as int),
    {
        assert(v[i as int] == l@[i as int]@);
        if l[i].binding.same(binding) {
            return true;
        }
    }
    false
}

/// The error of a name that stands for two relations.
pub open spec fn binding_error(binding: Seq<char>, position: Option<usize>) -> DbErrorView {
    error_at("42712"@, "table name "@ + binding + " specified more than once"@, position)
}

/// Columns followed by those of a table, from one of its columns on.
pub open spec fn with_columns(
    binding: Seq<char>,
    columns: Seq<ColumnDefinitionView>,
    nullable: bool,
    i: int,
    done: Seq<InputColumnView>,
) -> Seq<InputColumnView>
    decreases columns.len() - i,
{
    if i < 0 || i >= columns.len() {
        done
    } else {
        with_columns(
            binding,
            columns,
            nullable,
            i + 1,
            done.push(
                InputColumnView {
                    binding,
                    name: columns[i].name,
                    index: done.len() as usize,
                    data_type: columns[i].data_type,
                    nullable: nullable || columns[i].nullable,
                    outer_depth: 0,
                },
            ),
        )
    }
}

/// Adds the columns of a table.
pub fn add_columns(binding: &Identifier, columns: &Vec<ColumnDefinition>, nullable: bool, inputs: Vec<InputColumn>) -> (r: Vec<InputColumn>)
    ensures
        InputColumn::views(r@) == with_columns(
            binding@,
            ColumnDefinition::views(columns@),
            nullable,
            0,
            InputColumn::views(inputs@),
        ),
{
    let ghost c = ColumnDefinition::views(columns@);
    let ghost whole = with_columns(binding@, c, nullable, 0, InputColumn::views(inputs@));
    let mut out: Vec<InputColumn> = inputs;
    for i in 0..columns.len()
        invariant
            c == ColumnDefinition::views(columns@),
            whole == with_columns(binding@, c, nullable, i as int, InputColumn::views(out@)),
    {
        assert(c[i as int] == columns@[i as int]@);
        let x = InputColumn {
            binding: binding.clone(),
            name: columns[i].name.clone(),
            index: out.len(),
            data_type: columns[i].data_type.clone(),
            nullable: nullable || columns[i].nullable,
            outer_depth: 0,
        };
        let ghost before = InputColumn::views(out@);
        out.push(x);
        assert(InputColumn::views(out@) =~= before.push(x@));
    }
    out
}

/// The bound form of a table in a FROM clause and all columns up to it.
#[verifier::opaque]
pub open spec fn input_table(parsed: ParsedTableView, nullable: bool, catalog: CatalogView, inputs: Seq<InputColumnView>) -> Checked<
    (BoundTableView, Seq<InputColumnView>),
> {
    match named_table(parsed.name, catalog) {
        Err(x) => Err(x),
        Ok(table) => {
            let binding = match parsed.alias {
                Some(a) => a.name,
                None => table.name,
            };
            if binding_taken(inputs, binding, 0) {
                Err(binding_error(binding, None))
            } else {
                Ok(
                    (
                        BoundTableView {
                            table_id: table.id,
                            binding,
                            offset: inputs.len() as usize,
                            width: table.columns.len() as usize,
                            nullable,
                        },
                        with_columns(binding, table.columns, nullable, 0, inputs),
                    ),
                )
            }
        },
    }
}

/// Binds a table in a FROM clause.
pub fn bind_input_table(parsed: &ParsedTable, nullable: bool, catalog: &Catalog, inputs: Vec<InputColumn>) -> (r: Result<
    (BoundTable, Vec<InputColumn>),
>)
    ensures
        (match r {
            Ok(p) => Ok((p.0@, InputColumn::views(p.1@))),
            Err(e) => Err(e@),
        }) == input_table(parsed@, nullable, catalog@, InputColumn::views(inputs@)),
{
    reveal(input_table);
    let table = resolve_table(&parsed.name, catalog)?;
    let binding: Identifier = match &parsed.alias {
        Some(a) => a.name.clone(),
        None => table.name.clone(),
    };
    if has_binding(&inputs, &binding) {
        return Err(DbError::at("42712", text3("table name ", binding.as_str(), " specified more than once"), None));
    }
    let offset: usize = inputs.len();
    let all = add_columns(&binding, &table.columns, nullable, inputs);
    Ok((BoundTable { table_id: table.id, binding, offset, width: table.columns.len(), nullable }, all))
}

/// The name of an output column of a derived table.
pub open spec fn derived_name(fields: Seq<FieldView>, aliases: Seq<ParsedIdentifierView>, i: int) -> Seq<char> {
    if i < aliases.len() {
        aliases[i].name
    } else {
        normalized(fields[i].name, false)
    }
}

/// Columns followed by those of a derived table, from one of its columns on.
pub open spec fn with_derived(
    binding: Seq<char>,
    fields: Seq<FieldView>,
    aliases: Seq<ParsedIdentifierView>,
    nullable: bool,
    i: int,
    done: Seq<InputColumnView>,
) -> Seq<InputColumnView>
    decreases fields.len() - i,
{
    if i < 0 || i >= fields.len() {
        done
    } else {
        with_derived(
            binding,
            fields,
            aliases,
            nullable,
            i + 1,
            done.push(
                InputColumnView {
                    binding,
                    name: derived_name(fields, aliases, i),
                    index: done.len() as usize,
                    data_type: fields[i].data_type,
                    nullable: nullable || fields[i].nullable,
                    outer_depth: 0,
                },
            ),
        )
    }
}

/// Adds the columns of a derived table.
pub fn add_derived(
    binding: &Identifier,
    fields: &Vec<Field>,
    aliases: &Vec<ParsedIdentifier>,
    nullable: bool,
    inputs: Vec<InputColumn>,
) -> (r: Vec<
    InputColumn,
>)
    ensures
        InputColumn::views(r@) == with_derived(
            binding@,
            Field::views(fields@),
            ParsedIdentifier::views(aliases@),
            nullable,
            0,
            InputColumn::views(inputs@),
        ),
{
    let ghost f = Field::views(fields@);
    let ghost a = ParsedIdentifier::views(aliases@);
    let ghost whole = with_derived(binding@, f, a, nullable, 0, InputColumn::views(inputs@));
    let mut out: Vec<InputColumn> = inputs;
    for i in 0..fields.len()
        invariant
            f == Field::views(fields@),
            a == ParsedIdentifier::views(aliases@),
            whole == with_derived(binding@, f, a, nullable, i as int, InputColumn::views(out@)),
    {
        assert(f[i as int] == fields@[i as int]@);
        let name: Identifier = if i < aliases.len() {
            assert(a[i as int] == aliases@[i as int]@);
            aliases[i].name.clone()
        } else {
            Identifier::unquoted(fields[i].name.as_str())
        };
        let x = InputColumn {
            binding: binding.clone(),
            name,
            index: out.len(),
            data_type: fields[i].data_type.clone(),
            nullable: nullable || fields[i].nullable,
            outer_depth: 0,
        };
        let ghost before = InputColumn::views(out@);
        out.push(x);
        assert(InputColumn::views(out@) =~= before.push(x@));
    }
    out
}

/// Local columns followed by those of the enclosing queries, from a position on,
/// each one level further out.
pub open spec fn with_outer(outer: Seq<InputColumnView>, i: int, done: Seq<InputColumnView>) -> Checked<Seq<InputColumnView>>
    decreases outer.len() - i,
{
    if i < 0 || i >= outer.len() {
        Ok(done)
    } else if outer[i].outer_depth == usize::MAX {
        Err(error("54001"@, "correlation scope depth exceeds the implementation limit"@))
    } else {
        with_outer(outer, i + 1, done.push(InputColumnView { outer_depth: (outer[i].outer_depth + 1) as usize, ..outer[i] }))
    }
}

/// Adds the columns of the enclosing queries to the local ones.
pub fn inputs_with_outer(local_inputs: &Vec<InputColumn>, outer_inputs: &Vec<InputColumn>) -> (r: Result<Vec<InputColumn>>)
    ensures
        (match r {
            Ok(l) => Ok(InputColumn::views(l@)),
            Err(e) => Err(e@),
        }) == with_outer(InputColumn::views(outer_inputs@), 0, InputColumn::views(local_inputs@)),
{
    let ghost o = InputColumn::views(outer_inputs@);
    let mut out: Vec<InputColumn> = Vec::new();
    for i in 0..local_inputs.len()
        invariant
            out.len() == i,
            forall|k: int| 0 <= k < i ==> out@[k]@ == local_inputs@[k]@,
    {
        out.push(local_inputs[i].clone());
    }
    assert(InputColumn::views(out@) =~= InputColumn::views(local_inputs@));
    let ghost whole = with_outer(o, 0, InputColumn::views(local_inputs@));
    for i in 0..outer_inputs.len()
        invariant
            o == InputColumn::views(outer_inputs@),
            whole == with_outer(o, 0, InputColumn::views(local_inputs@)),
            whole == with_outer(o, i as int, InputColumn::views(out@)),
    {
        assert(o[i as int] == outer_inputs@[i as int]@);
        let mut x = outer_inputs[i].clone();
        match x.outer_depth.checked_add(1) {
            Some(d) => {
                x.outer_depth = d;
            },
            None => {
                return Err(DbError::new("54001", text("correlation scope depth exceeds the implementation limit")));
            },
        }
        let ghost before = InputColumn::views(out@);
        out.push(x);
        assert(InputColumn::views(out@) =~= before.push(x@));
    }
    Ok(out)
}

} // verus!
