//! What bound statements keep of queries without tables, of sequences, views and domains.

use vstd::prelude::*;

use crate::binding::{bound_form, table_scope};
use crate::bound::{BoundProjectionView, BoundStatementView};
use crate::catalog::{CatalogView, DomainConstraintView};
use crate::laws_bind::{lemma_told_form, outputs_told, told};
use crate::laws_ddl::{lemma_plain, schema_in};
use crate::plain::{create_domain_of, domain_change, scalar_items, sequence_statement, type_statement, value_statement};
use crate::queries::{new_view, view_place};
use crate::query_rules::{refresh_of, refreshed_view, statement_of};
use crate::select_list::output_column;
use crate::subquery::query_schema;
use crate::syntax::{ParsedAlterDomainOperationView, ParsedProjectionView, ParsedSequenceOperationView, ParsedStatementView};
use crate::types::{DbErrorView, ScalarTypeView};

verus! {

proof fn lemma_scalar_outputs(l: Seq<ParsedProjectionView>, i: int, done: Seq<BoundProjectionView>)
    requires
        0 <= i <= l.len(),
    ensures
        scalar_items(l, i, done) matches Ok(r) ==> done.is_prefix_of(r) && outputs_told(
            l,
            table_scope(None),
            Seq::empty(),
            r,
            i,
            done.len() as int,
        ),
    decreases l.len() - i,
{
    if i < l.len() {
        if let ParsedProjectionView::Expression { expr, alias } = l[i] {
            lemma_told_form(expr, table_scope(None), None);
            if let Ok(b) = bound_form(expr, table_scope(None), None) {
                let next = done.push(output_column(expr, alias, b));
                lemma_scalar_outputs(l, i + 1, next);
                if let Ok(r) = scalar_items(l, i, done) {
                    assert(r[done.len() as int] == next[done.len() as int]);
                    assert(r.take(done.len() as int) =~= done);
                }
            }
        }
    }
}

/// Whether a bound statement without tables is the one that was written.
pub open spec fn value_told(s: ParsedStatementView, catalog: CatalogView, b: BoundStatementView) -> bool {
    match s {
        ParsedStatementView::ScalarSelect { projection } => b is ScalarSelect && outputs_told(
            projection,
            table_scope(None),
            Seq::empty(),
            b->ScalarSelect_projection,
            0,
            0,
        ),
        ParsedStatementView::PgNotify { channel, payload, alias } => {
            &&& b is PgNotify
            &&& told(channel, table_scope(None), b->PgNotify_channel)
            &&& told(payload, table_scope(None), b->PgNotify_payload)
            &&& b->PgNotify_schema.fields.len() == 1
            &&& alias is Some ==> b->PgNotify_schema.fields[0].name == alias->0.name
        },
        ParsedStatementView::SequenceValue { name, operation, alias } => {
            &&& b is SequenceValue
            &&& catalog.sequence(schema_in(name), name.parts.last().name) matches Some(q) && b->SequenceValue_sequence_id == q.id
            &&& b->SequenceValue_schema.fields.len() == 1
            &&& b->SequenceValue_schema.fields[0].data_type is Int64
            &&& alias is Some ==> b->SequenceValue_schema.fields[0].name == alias->0.name
            &&& match operation {
                ParsedSequenceOperationView::NextValue => b->SequenceValue_operation is NextValue,
                ParsedSequenceOperationView::CurrentValue => b->SequenceValue_operation is CurrentValue,
                ParsedSequenceOperationView::SetValue { value, is_called } => b->SequenceValue_operation is SetValue
                    && b->SequenceValue_operation->SetValue_is_called == is_called && told(
                    value,
                    table_scope(None),
                    b->SequenceValue_operation->SetValue_value,
                ),
            }
        },
        ParsedStatementView::CreateDomain { base_type, base_declared_type, not_null, default, checks, .. } => {
            &&& b is CreateDomain
            &&& b->CreateDomain_not_null == not_null
            &&& b->CreateDomain_checks == checks
            &&& default is Some <==> b->CreateDomain_default is Some
            &&& default is Some ==> b->CreateDomain_default->0.sql == default->0.sql
            &&& base_declared_type is None ==> b->CreateDomain_base_type == base_type
        },
        _ => true,
    }
}

/// A query without tables, a notification, a call on a sequence and a CREATE DOMAIN are
/// bound as they were written.
pub proof fn lemma_value_told(s: ParsedStatementView, catalog: CatalogView, depth: usize)
    ensures
        statement_of(s, catalog, depth) matches Ok(b) ==> value_told(s, catalog, b),
{
    lemma_plain(s, catalog, depth);
    match s {
        ParsedStatementView::ScalarSelect { projection } => {
            reveal(value_statement);
            lemma_scalar_outputs(projection, 0, Seq::empty());
        },
        ParsedStatementView::PgNotify { channel, payload, .. } => {
            reveal(value_statement);
            lemma_told_form(channel, table_scope(None), Some(ScalarTypeView::Text));
            lemma_told_form(payload, table_scope(None), Some(ScalarTypeView::Text));
        },
        ParsedStatementView::SequenceValue { operation, .. } => {
            reveal(sequence_statement);
            if let ParsedSequenceOperationView::SetValue { value, .. } = operation {
                lemma_told_form(value, table_scope(None), Some(ScalarTypeView::Int64));
            }
        },
        ParsedStatementView::CreateDomain { .. } => {
            reveal(type_statement);
            reveal(create_domain_of);
        },
        _ => {},
    }
}

/// A change of a domain is bound as it was written.
pub proof fn lemma_domain_change_told(
    op: ParsedAlterDomainOperationView,
    base: ScalarTypeView,
    checks: Seq<DomainConstraintView>,
    catalog: CatalogView,
)
    ensures
        domain_change(op, base, checks, catalog) matches Ok(r) ==> match op {
            ParsedAlterDomainOperationView::SetDefault(d) => r is SetDefault && r->SetDefault_0.sql == d.sql,
            ParsedAlterDomainOperationView::DropDefault => r is DropDefault,
            ParsedAlterDomainOperationView::SetNotNull => r is SetNotNull,
            ParsedAlterDomainOperationView::DropNotNull => r is DropNotNull,
            ParsedAlterDomainOperationView::AddConstraint(c) => r is AddConstraint && r->AddConstraint_0 == c,
            ParsedAlterDomainOperationView::DropConstraint { name, if_exists } => r is DropConstraint && r->DropConstraint_name == name.name
                && r->DropConstraint_if_exists == if_exists,
        },
{
    reveal(domain_change);
}

/// A CREATE VIEW keeps its place, its kind, its text, its REPLACE, its IF NOT EXISTS and its
/// WITH DATA; its query is bound, and its columns go by the names that were written. Where
/// IF NOT EXISTS was written and the view is there, nothing is done.
pub proof fn lemma_create_view_told(s: ParsedStatementView, catalog: CatalogView, depth: usize)
    requires
        s is CreateView,
    ensures
        statement_of(s, catalog, depth) matches Ok(b) ==> (s matches ParsedStatementView::CreateView {
            name,
            kind,
            query,
            query_sql,
            columns,
            replace,
            if_not_exists,
            with_data,
        } ==> {
            ||| b is NoOp && if_not_exists && catalog.view_of(schema_in(name), name.parts.last().name) is Some
            ||| {
                &&& b is CreateView
                &&& b->CreateView_schema == schema_in(name)
                &&& b->CreateView_name == name.parts.last().name
                &&& b->CreateView_kind == kind
                &&& b->CreateView_query_sql == query_sql
                &&& b->CreateView_replace == replace
                &&& b->CreateView_if_not_exists == if_not_exists
                &&& b->CreateView_with_data == with_data
                &&& statement_of(*query, catalog, depth) == Ok::<_, DbErrorView>(*b->CreateView_query)
                &&& columns.len() == 0 ==> query_schema(*b->CreateView_query) == Ok::<_, DbErrorView>(b->CreateView_output)
                &&& columns.len() > 0 ==> b->CreateView_output.fields.len() == columns.len() && forall|k: int|
                    0 <= k < columns.len() ==> b->CreateView_output.fields[k].name == (#[trigger] columns[k]).name
                &&& b->CreateView_existing is Some ==> replace
            }
        }),
{
    reveal(statement_of);
    reveal(new_view);
    reveal(view_place);
    reveal(crate::transient::renamed_fields);
}

/// A REFRESH keeps its WITH DATA and refreshes the materialized view that was named.
pub proof fn lemma_refresh_told(s: ParsedStatementView, catalog: CatalogView, depth: usize)
    requires
        s is RefreshMaterializedView,
    ensures
        statement_of(s, catalog, depth) matches Ok(b) ==> (s matches ParsedStatementView::RefreshMaterializedView { name, with_data } ==> {
            &&& b is RefreshMaterializedView
            &&& b->RefreshMaterializedView_with_data == with_data
            &&& catalog.view_of(schema_in(name), name.parts.last().name) matches Some(v) && v.kind is Materialized && v.id
                == b->RefreshMaterializedView_view_id && v.materialized_table_id == Some(b->RefreshMaterializedView_table_id)
        }),
{
    if let ParsedStatementView::RefreshMaterializedView { name, with_data } = s {
        lemma_refresh_part(name, with_data, catalog, depth);
        reveal(statement_of);
        reveal(refresh_of);
        assert(depth <= 64 ==> statement_of(s, catalog, depth) == refresh_of(name, with_data, catalog, depth));
    }
}

proof fn lemma_refresh_part(name: crate::syntax::ParsedObjectNameView, with_data: bool, catalog: CatalogView, depth: usize)
    ensures
        refresh_of(name, with_data, catalog, depth) matches Ok(b) ==> {
            &&& b is RefreshMaterializedView
            &&& b->RefreshMaterializedView_with_data == with_data
            &&& catalog.view_of(schema_in(name), name.parts.last().name) matches Some(v) && v.kind is Materialized && v.id
                == b->RefreshMaterializedView_view_id && v.materialized_table_id == Some(b->RefreshMaterializedView_table_id)
        },
{
    reveal(refresh_of);
    reveal(crate::query_rules::deeper);
    reveal(refreshed_view);
}

} // verus!
