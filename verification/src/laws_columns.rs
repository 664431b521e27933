//! The names and types of the columns of derived tables, WITH queries and results.

use vstd::prelude::*;

use crate::bound::{BoundExprView, BoundProjectionView};
use crate::inputs::with_derived;
use crate::scope::InputColumnView;
use crate::select_list::{output_column, schema_of};
use crate::syntax::{ParsedExprKindView, ParsedExprView, ParsedIdentifierView};
use crate::text::lower;
use crate::transient::cte_output;
use crate::types::{FieldView, SchemaView};

verus! {

/// Whether the columns of a derived table stand behind others in a FROM clause: under its
/// alias, in their order, with their types, by the column aliases as far as there are any
/// and by their own names in lower case from there on.
pub open spec fn derived_behind(
    before: Seq<InputColumnView>,
    binding: Seq<char>,
    fields: Seq<FieldView>,
    aliases: Seq<ParsedIdentifierView>,
    nullable: bool,
    n: int,
    after: Seq<InputColumnView>,
) -> bool {
    &&& after.len() == before.len() + n
    &&& forall|k: int| 0 <= k < before.len() ==> after[k] == #[trigger] before[k]
    &&& forall|k: int|
        0 <= k < n ==> {
            let c = after[before.len() + k];
            &&& c.binding == binding
            &&& c.name == if k < aliases.len() {
                aliases[k].name
            } else {
                lower((#[trigger] fields[k]).name)
            }
            &&& c.data_type == fields[k].data_type
            &&& c.nullable <==> nullable || fields[k].nullable
            &&& c.outer_depth == 0
            &&& c.index == (before.len() + k) as usize
        }
}

proof fn lemma_derived_from(
    binding: Seq<char>,
    fields: Seq<FieldView>,
    aliases: Seq<ParsedIdentifierView>,
    nullable: bool,
    i: int,
    before: Seq<InputColumnView>,
    done: Seq<InputColumnView>,
)
    requires
        0 <= i <= fields.len(),
        derived_behind(before, binding, fields, aliases, nullable, i, done),
    ensures
        derived_behind(
            before,
            binding,
            fields,
            aliases,
            nullable,
            fields.len() as int,
            with_derived(binding, fields, aliases, nullable, i, done),
        ),
    decreases fields.len() - i,
{
    if i < fields.len() {
        let c = InputColumnView {
            binding,
            name: crate::inputs::derived_name(fields, aliases, i),
            index: done.len() as usize,
            data_type: fields[i].data_type,
            nullable: nullable || fields[i].nullable,
            outer_depth: 0,
        };
        let next = done.push(c);
        assert forall|k: int| 0 <= k < before.len() implies next[k] == #[trigger] before[k] by {
            assert(done[k] == before[k]);
        }
        assert forall|k: int| 0 <= k < i + 1 implies {
            let c = next[before.len() + k];
            &&& c.binding == binding
            &&& c.name == if k < aliases.len() {
                aliases[k].name
            } else {
                lower((#[trigger] fields[k]).name)
            }
            &&& c.data_type == fields[k].data_type
            &&& c.nullable <==> nullable || fields[k].nullable
            &&& c.outer_depth == 0
            &&& c.index == (before.len() + k) as usize
        } by {
            if k < i {
                assert(next[before.len() + k] == done[before.len() + k]);
                assert(fields[k].name == fields[k].name);
            }
        }
        lemma_derived_from(binding, fields, aliases, nullable, i + 1, before, next);
    }
}

/// A derived table supplies the columns of its query under its alias, by its column aliases
/// as far as it has any.
pub proof fn lemma_derived_supplies(
    binding: Seq<char>,
    fields: Seq<FieldView>,
    aliases: Seq<ParsedIdentifierView>,
    nullable: bool,
    local: Seq<InputColumnView>,
)
    ensures
        derived_behind(
            local,
            binding,
            fields,
            aliases,
            nullable,
            fields.len() as int,
            with_derived(binding, fields, aliases, nullable, 0, local),
        ),
{
    lemma_derived_from(binding, fields, aliases, nullable, 0, local, local);
}

/// A WITH query has the columns of its query, by the names of its column list where it has
/// one, which then names all of them.
pub proof fn lemma_with_columns_told(name: Seq<char>, columns: Seq<ParsedIdentifierView>, output: SchemaView)
    ensures
        cte_output(name, columns, output) matches Ok(r) ==> {
            &&& r.fields.len() == output.fields.len()
            &&& columns.len() == 0 || columns.len() == output.fields.len()
            &&& forall|k: int|
                0 <= k < r.fields.len() ==> {
                    &&& (#[trigger] r.fields[k]).data_type == output.fields[k].data_type
                    &&& r.fields[k].nullable == output.fields[k].nullable
                    &&& r.fields[k].name == if columns.len() == 0 {
                        output.fields[k].name
                    } else {
                        columns[k].name
                    }
                }
        },
        cte_output(name, columns, output) is Ok <==> columns.len() == 0 || columns.len() == output.fields.len(),
{
    reveal(cte_output);
}

/// An output column goes by its alias, or else by the name of the column that it shows, and
/// has the type of what it shows.
pub proof fn lemma_output_named(e: ParsedExprView, alias: Option<ParsedIdentifierView>, b: BoundExprView)
    ensures
        output_column(e, alias, b).expr == b,
        output_column(e, alias, b).field.data_type == b.data_type,
        output_column(e, alias, b).field.nullable == b.nullable,
        alias matches Some(a) ==> output_column(e, alias, b).field.name == a.name,
        alias is None ==> (e.kind matches ParsedExprKindView::Column(c) ==> (c.parts.len() > 0 ==> output_column(e, alias, b).field.name
            == c.parts.last().name)),
{
}

/// The schema of a query has one field for each output column, in their order.
pub proof fn lemma_schema_told(l: Seq<BoundProjectionView>)
    ensures
        schema_of(l).fields.len() == l.len(),
        forall|k: int| 0 <= k < l.len() ==> schema_of(l).fields[k] == (#[trigger] l[k]).field,
{
}

} // verus!
