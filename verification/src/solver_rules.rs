//! How the types of parameters follow from where they stand.
//!
//! The rules call each other all around. Each stands with its outermost layer, and a
//! proof function equates the two: a proof unfolds one rule at one place, and the rules
//! that it calls stay whole.

use vstd::prelude::*;

use crate::catalog::{find_column_index, CatalogView, RoutineDefinitionView, TableDefinitionView, TriggerEvent};
use crate::dml::{conflict_inputs, dml_relation};
use crate::expr::{meet, sum_type};
use crate::inputs::{with_columns, with_derived, with_outer};
use crate::names::{named_table, split_name};
use crate::query_rules::{query_of, statement_of, SelectPartsView};
use crate::references::refers;
use crate::rewrite::{replacement, rewritten, ReplacementView};
use crate::scope::{column_in_inputs, no_column, Checked, InputColumnView};
use crate::subquery::query_schema;
use crate::syntax::{
    AggregateFunction, BinaryOperator, JoinKind, ParsedConflictActionView, ParsedCteView, ParsedExprKindView, ParsedExprView,
    ParsedIdentifierView, ParsedJoinSourceView, ParsedJoinView, ParsedMergeActionView, ParsedMergeClauseView, ParsedMergeView,
    ParsedObjectNameView, ParsedOnConflictView, ParsedOrderView, ParsedProjectionView, ParsedSequenceOperationView, ParsedStatementView,
    ParsedTableView, ParsedWindowCallView, ParsedWindowFrameBoundView, ParsedWindowFrameView, ParsedWindowSpecView, QuerySetOperator,
    ScalarFunction, UnaryOperator, WindowFrameUnits, WindowFunction,
};
use crate::text::decimal;
use crate::transient::{cte_output, cte_target, with_relation, with_schema};
use crate::type_rules::{typed_statement, ResolverView};
use crate::types::{
    described, error, error_at, internal_error, normalized, type_of_value, unsupported_error, DATATYPE_MISMATCH, DbErrorView, FieldView,
    ScalarTypeView, SchemaView, UNDEFINED_COLUMN,
};
use crate::typing::{arithmetic, numeric};

verus! {

/// Mathematical contents of what is known about parameters: their types, and
/// whether the current pass has found one.
pub struct SolverView {
    pub types: Map<usize, ScalarTypeView>,
    pub changed: bool,
}

impl SolverView {
    /// The known type of a parameter.
    pub open spec fn type_at(self, index: usize) -> Option<ScalarTypeView> {
        if self.types.dom().contains(index) {
            Some(self.types[index])
        } else {
            None
        }
    }
}

/// Whether every known type has stayed, and nothing was added unless it is said that
/// something was.
pub open spec fn grown(before: SolverView, after: SolverView) -> bool {
    &&& before.changed ==> after.changed
    &&& after.changed || after.types == before.types
    &&& forall|i: usize| #[trigger] before.types.dom().contains(i) ==> after.types.dom().contains(i) && after.types[i] == before.types[i]
}

/// Whether a pass over a statement that starts from the types of its parameters succeeds
/// and adds none.
pub open spec fn settled(st: ParsedStatementView, catalog: CatalogView, types: Map<usize, ScalarTypeView>) -> bool {
    let s = SolverView { types, changed: false };
    solve_statement(st, catalog, Seq::empty(), None, 0, s).0 == s && solve_statement(st, catalog, Seq::empty(), None, 0, s).1 is Ok
}

/// A parameter gets a type, unless it has another one.
pub open spec fn constrained(index: usize, t: ScalarTypeView, position: Option<usize>, s: SolverView) -> (SolverView, Checked<()>) {
    match s.type_at(index) {
        Some(known) => if known == t {
            (s, Ok(()))
        } else {
            (
                s,
                Err(
                    DbErrorView {
                        detail: Some(
                            "parameter $"@ + decimal(index as nat) + " was constrained as both "@ + described(known) + " and "@ + described(t),
                        ),
                        ..error_at(
                            DATATYPE_MISMATCH@,
                            "inconsistent types deduced for parameter $"@ + decimal(index as nat),
                            position,
                        )
                    },
                ),
            )
        },
        None => (SolverView { types: s.types.insert(index, t), changed: true }, Ok(())),
    }
}

/// A parameter gets a type where both are there.
pub open spec fn constrained_by(
    index: Option<usize>,
    t: Option<ScalarTypeView>,
    position: Option<usize>,
    s: SolverView,
) -> (SolverView, Checked<()>) {
    match (index, t) {
        (Some(index), Some(t)) => constrained(index, t, position, s),
        _ => (s, Ok(())),
    }
}

/// The parameter that an expression is.
pub open spec fn parameter_index(e: ParsedExprView) -> Option<usize> {
    match e.kind {
        ParsedExprKindView::Parameter(index) => Some(index),
        ParsedExprKindView::ResolvedParameter { index, .. } => Some(index),
        _ => None,
    }
}

/// The operand type of an operator, as far as it is known.
pub open spec fn operand_type(
    op: BinaryOperator,
    a: Option<ScalarTypeView>,
    b: Option<ScalarTypeView>,
    expected: Option<ScalarTypeView>,
) -> Option<
    ScalarTypeView,
> {
    if a is None && b is None && arithmetic(op) {
        expected
    } else {
        meet(a, b)
    }
}

/// The types at which the output columns of two queries meet.
pub open spec fn output_types(a: Seq<Option<ScalarTypeView>>, b: Seq<Option<ScalarTypeView>>) -> Seq<Option<ScalarTypeView>> {
    Seq::new(
        if a.len() < b.len() {
            a.len()
        } else {
            b.len()
        },
        |i: int| meet(a[i], b[i]),
    )
}

/// The element type of an expected array.
pub open spec fn element_of(t: Option<ScalarTypeView>) -> Option<ScalarTypeView> {
    match t {
        Some(ScalarTypeView::Array { element }) => Some(*element),
        _ => None,
    }
}

/// The array of an element type.
pub open spec fn array_of(t: Option<ScalarTypeView>) -> Option<ScalarTypeView> {
    match t {
        Some(t) => Some(ScalarTypeView::Array { element: Box::new(t) }),
        None => None,
    }
}

/// One expected output column.
pub open spec fn one(t: Option<ScalarTypeView>) -> Option<Seq<Option<ScalarTypeView>>> {
    match t {
        Some(t) => Some(seq![Some(t)]),
        None => None,
    }
}

/// The type of the first output column.
pub open spec fn first_type(l: Seq<Option<ScalarTypeView>>) -> Option<ScalarTypeView> {
    if l.len() > 0 {
        l[0]
    } else {
        None
    }
}

/// The expected type of an output column.
pub open spec fn expected_at(l: Option<Seq<Option<ScalarTypeView>>>, i: int) -> Option<ScalarTypeView> {
    match l {
        Some(l) => if 0 <= i < l.len() {
            l[i]
        } else {
            None
        },
        None => None,
    }
}

/// The type of an aggregate over an argument type, as far as it is known.
pub open spec fn total_type(f: AggregateFunction, t: Option<ScalarTypeView>) -> Option<ScalarTypeView> {
    match f {
        AggregateFunction::Count => Some(ScalarTypeView::Int64),
        AggregateFunction::Avg => match t {
            Some(_) => Some(ScalarTypeView::Float64),
            None => None,
        },
        AggregateFunction::Sum => match t {
            Some(t) => Some(sum_type(t)),
            None => None,
        },
        AggregateFunction::Min | AggregateFunction::Max => t,
    }
}

/// The error of a statement that is nested too deeply for the inference.
pub open spec fn too_nested() -> DbErrorView {
    error("54001"@, "parameter type inference exceeded its statement depth limit"@)
}

/// Output types followed by those of the local columns, from a column on.
pub open spec fn with_local_types(l: Seq<InputColumnView>, i: int, done: Seq<Option<ScalarTypeView>>) -> Seq<Option<ScalarTypeView>>
    decreases l.len() - i,
{
    if i < 0 || i >= l.len() {
        done
    } else if l[i].outer_depth == 0 {
        with_local_types(l, i + 1, done.push(Some(l[i].data_type)))
    } else {
        with_local_types(l, i + 1, done)
    }
}

/// The name of an alias.
pub open spec fn alias_name(a: Option<ParsedIdentifierView>) -> Option<Seq<char>> {
    match a {
        Some(a) => Some(a.name),
        None => None,
    }
}

/// Columns followed by those of a table or a view.
#[verifier::opaque]
pub open spec fn relation_inputs(
    name: ParsedObjectNameView,
    binding: Option<Seq<char>>,
    catalog: CatalogView,
    nullable: bool,
    local: Seq<InputColumnView>,
) -> Checked<
    Seq<InputColumnView>,
> {
    match split_name(name) {
        Err(x) => Err(x),
        Ok(n) => {
            let b = match binding {
                Some(b) => b,
                None => n.name,
            };
            match catalog.view_of(n.schema, n.name) {
                Some(v) => Ok(with_derived(b, v.output.fields, Seq::empty(), nullable, 0, local)),
                None => match named_table(name, catalog) {
                    Err(x) => Err(x),
                    Ok(t) => Ok(with_columns(b, t.columns, nullable, 0, local)),
                },
            }
        },
    }
}

/// The columns of a MERGE.
pub open spec fn merge_inputs(m: ParsedMergeView, target: TableDefinitionView, source: TableDefinitionView) -> Seq<InputColumnView> {
    with_columns(
        match m.source.alias {
            Some(a) => a.name,
            None => source.name,
        },
        source.columns,
        false,
        0,
        with_columns(
            match m.target.alias {
                Some(a) => a.name,
                None => target.name,
            },
            target.columns,
            false,
            0,
            Seq::empty(),
        ),
    )
}

/// The columns of a column list, from a position on.
pub open spec fn places_of(l: Seq<ParsedIdentifierView>, table: TableDefinitionView, i: int, done: Seq<usize>) -> Checked<Seq<usize>>
    decreases l.len() - i,
{
    if i < 0 || i >= l.len() {
        Ok(done)
    } else {
        match find_column_index(table.columns, l[i].name, 0) {
            None => Err(no_column(l[i].name, l[i].position)),
            Some(k) => places_of(l, table, i + 1, done.push(k)),
        }
    }
}

/// The columns that a row fills: those of the column list, or all of them.
pub open spec fn target_places(l: Seq<ParsedIdentifierView>, table: TableDefinitionView) -> Checked<Seq<usize>> {
    if l.len() == 0 {
        Ok(Seq::new(table.columns.len(), |i: int| i as usize))
    } else {
        places_of(l, table, 0, Seq::empty())
    }
}

/// The type that all routines of a name and a number of arguments have at an
/// argument, from a routine on; nothing where they disagree.
pub open spec fn agreed_type(
    l: Seq<RoutineDefinitionView>,
    name: Seq<char>,
    count: nat,
    argument: int,
    i: int,
    found: Option<ScalarTypeView>,
) -> Option<ScalarTypeView>
    decreases l.len() - i,
{
    if i < 0 || i >= l.len() {
        found
    } else if l[i].name != name || l[i].arguments.len() != count {
        agreed_type(l, name, count, argument, i + 1, found)
    } else {
        match found {
            None => agreed_type(l, name, count, argument, i + 1, Some(l[i].arguments[argument].data_type)),
            Some(t) => if t == l[i].arguments[argument].data_type {
                agreed_type(l, name, count, argument, i + 1, found)
            } else {
                None
            },
        }
    }
}

/// The output of a statement under the parameter types known so far, where it can
/// be bound.
#[verifier::opaque]
pub open spec fn tried_schema(
    st: ParsedStatementView,
    catalog: CatalogView,
    outer: Seq<InputColumnView>,
    depth: usize,
    types: Map<usize, ScalarTypeView>,
) -> Option<SchemaView> {
    let inner = (depth + 1) as usize;
    match typed_statement(st, ResolverView { parameters: types, catalog: None, session: None }, inner) {
        Err(_) => None,
        Ok(st) => match (if outer.len() == 0 {
            statement_of(st, catalog, inner)
        } else {
            query_of(st, catalog, inner, outer)
        }) {
            Err(_) => None,
            Ok(b) => match query_schema(b) {
                Err(_) => None,
                Ok(schema) => Some(schema),
            },
        },
    }
}

/// What has been found about WITH queries so far. An early end has output types.
pub struct WithTypesView {
    pub catalog: CatalogView,
    pub replacements: Seq<ReplacementView>,
    pub early: Option<Seq<Option<ScalarTypeView>>>,
}

/// The terms of a WITH query as the inference takes them.
pub struct TermsView {
    pub seed: ParsedStatementView,
    pub term: Option<ParsedStatementView>,
}

/// The terms of a WITH query; nothing where a recursive one is no union.
#[verifier::opaque]
pub open spec fn solver_terms(cte: ParsedCteView, recursive: bool, replacements: Seq<ReplacementView>) -> Checked<Option<TermsView>> {
    if replacement(replacements, cte.name.name, 0) is Some {
        Err(error_at("42712"@, "WITH query name "@ + cte.name.name + " specified more than once"@, cte.name.position))
    } else {
        match (if recursive {
                refers(*cte.query, cte.name.name, 0)
            } else {
                Ok(false)
        }) {
            Err(x) => Err(x),
            Ok(repeats) => {
                let parts: Option<TermsView> = if !repeats {
                    Some(TermsView { seed: *cte.query, term: None })
                } else {
                    match *cte.query {
                        ParsedStatementView::SetOperation { left, operator, right, .. } => if operator == QuerySetOperator::Union {
                            Some(TermsView { seed: *left, term: Some(*right) })
                        } else {
                            None
                        },
                        _ => None,
                    }
                };
                match parts {
                    None => Ok(None),
                    Some(parts) => match rewritten(parts.seed, replacements, 0) {
                        Err(x) => Err(x),
                        Ok(seed) => Ok(Some(TermsView { seed, term: parts.term })),
                    },
                }
            },
        }
    }
}

/// The relation that stands for a WITH query, and its output.
#[verifier::opaque]
pub open spec fn solver_relation(cte: ParsedCteView, schema: SchemaView, namespace: Seq<char>, state: WithTypesView) -> Checked<
    (WithTypesView, SchemaView),
> {
    match cte_output(cte.name.name, cte.columns, schema) {
        Err(x) => Err(x),
        Ok(output) => match with_relation(state.catalog, namespace, cte.name.name, output) {
            Err(x) => Err(x),
            Ok((catalog, _)) => Ok(
                (
                    WithTypesView {
                        catalog,
                        replacements: state.replacements.push(
                            ReplacementView { name: cte.name.name, target: cte_target(namespace, cte.name) },
                        ),
                        early: None,
                    },
                    output,
                ),
            ),
        },
    }
}

/// The types of fields.
pub open spec fn field_types(l: Seq<FieldView>) -> Seq<Option<ScalarTypeView>> {
    Seq::new(l.len(), |i: int| Some(l[i].data_type))
}

/// The namespace of WITH queries during the inference.
pub open spec fn solver_namespace(depth: usize) -> Seq<char> {
    normalized("__ordadb_param_cte_"@ + decimal(depth as nat), false)
}

/// The catalog with a namespace for WITH queries.
#[verifier::opaque]
pub open spec fn solver_catalog(catalog: CatalogView, depth: usize) -> Checked<CatalogView> {
    if catalog.schema(solver_namespace(depth)) is None {
        with_schema(catalog, solver_namespace(depth))
    } else {
        Ok(catalog)
    }
}

/// The types that passes over a statement find, until one adds nothing.
pub open spec fn solved(st: ParsedStatementView, catalog: CatalogView, passes: nat, types: Map<usize, ScalarTypeView>) -> Checked<
    Map<usize, ScalarTypeView>,
>
    decreases passes,
{
    if passes == 0 {
        Err(error("54001"@, "parameter type inference exceeded its fixed-point pass limit"@))
    } else {
        match solve_statement(st, catalog, Seq::empty(), None, 0, SolverView { types, changed: false }) {
            (_, Err(x)) => Err(x),
            (s, Ok(_)) => if s.changed {
                solved(st, catalog, (passes - 1) as nat, s.types)
            } else {
                Ok(s.types)
            },
        }
    }
}

/// What expressions of which one type may be expected tell, from one of them on.
pub closed spec fn solve_each(
    l: Seq<ParsedExprView>,
    expected: Option<ScalarTypeView>,
    inputs: Seq<InputColumnView>,
    catalog: CatalogView,
    depth: usize,
    i: int,
    s: SolverView,
) -> (SolverView, Checked<()>)
    decreases 64 - depth, 5int, l.len() - i,
{
    if i < 0 || i >= l.len() {
        (s, Ok(()))
    } else {
        match solve_expr(l[i], expected, inputs, catalog, depth, s) {
            (s, Err(x)) => (s, Err(x)),
            (s, Ok(_)) => solve_each(l, expected, inputs, catalog, depth, i + 1, s),
        }
    }
}

/// One layer of [`solve_each`], over the results of its parts.
pub open spec fn solve_each_layer(
    l: Seq<ParsedExprView>,
    expected: Option<ScalarTypeView>,
    inputs: Seq<InputColumnView>,
    catalog: CatalogView,
    depth: usize,
    i: int,
    s: SolverView,
) -> (SolverView, Checked<()>) {
    if i < 0 || i >= l.len() {
        (s, Ok(()))
    } else {
        match solve_expr(l[i], expected, inputs, catalog, depth, s) {
            (s, Err(x)) => (s, Err(x)),
            (s, Ok(_)) => solve_each(l, expected, inputs, catalog, depth, i + 1, s),
        }
    }
}

/// The result is its outermost layer over the results of its parts.
pub proof fn unfold_solve_each(
    l: Seq<ParsedExprView>,
    expected: Option<ScalarTypeView>,
    inputs: Seq<InputColumnView>,
    catalog: CatalogView,
    depth: usize,
    i: int,
    s: SolverView,
)
    ensures
        solve_each(l, expected, inputs, catalog, depth, i, s) == solve_each_layer(l, expected, inputs, catalog, depth, i, s),
{
}

/// What the sort keys of a window tell, from one of them on.
pub closed spec fn solve_keys(
    l: Seq<ParsedOrderView>,
    inputs: Seq<InputColumnView>,
    catalog: CatalogView,
    depth: usize,
    i: int,
    s: SolverView,
) -> (SolverView, Checked<()>)
    decreases 64 - depth, 5int, l.len() - i,
{
    if i < 0 || i >= l.len() {
        (s, Ok(()))
    } else {
        match solve_expr(l[i].expr, None, inputs, catalog, depth, s) {
            (s, Err(x)) => (s, Err(x)),
            (s, Ok(_)) => solve_keys(l, inputs, catalog, depth, i + 1, s),
        }
    }
}

/// One layer of [`solve_keys`], over the results of its parts.
pub open spec fn solve_keys_layer(
    l: Seq<ParsedOrderView>,
    inputs: Seq<InputColumnView>,
    catalog: CatalogView,
    depth: usize,
    i: int,
    s: SolverView,
) -> (SolverView, Checked<()>) {
    if i < 0 || i >= l.len() {
        (s, Ok(()))
    } else {
        match solve_expr(l[i].expr, None, inputs, catalog, depth, s) {
            (s, Err(x)) => (s, Err(x)),
            (s, Ok(_)) => solve_keys(l, inputs, catalog, depth, i + 1, s),
        }
    }
}

/// The result is its outermost layer over the results of its parts.
pub proof fn unfold_solve_keys(
    l: Seq<ParsedOrderView>,
    inputs: Seq<InputColumnView>,
    catalog: CatalogView,
    depth: usize,
    i: int,
    s: SolverView,
)
    ensures
        solve_keys(l, inputs, catalog, depth, i, s) == solve_keys_layer(l, inputs, catalog, depth, i, s),
{
}

/// What the sort keys of a query tell, from one of them on. A key may name an output
/// column.
pub closed spec fn solve_orders(
    l: Seq<ParsedOrderView>,
    inputs: Seq<InputColumnView>,
    catalog: CatalogView,
    depth: usize,
    i: int,
    s: SolverView,
) -> (SolverView, Checked<()>)
    decreases 64 - depth, 5int, l.len() - i,
{
    if i < 0 || i >= l.len() {
        (s, Ok(()))
    } else {
        match solve_expr(l[i].expr, None, inputs, catalog, depth, s) {
            (s, Err(x)) => if x.sql_state == UNDEFINED_COLUMN@ {
                solve_orders(l, inputs, catalog, depth, i + 1, s)
            } else {
                (s, Err(x))
            },
            (s, Ok(_)) => solve_orders(l, inputs, catalog, depth, i + 1, s),
        }
    }
}

/// One layer of [`solve_orders`], over the results of its parts.
pub open spec fn solve_orders_layer(
    l: Seq<ParsedOrderView>,
    inputs: Seq<InputColumnView>,
    catalog: CatalogView,
    depth: usize,
    i: int,
    s: SolverView,
) -> (SolverView, Checked<()>) {
    if i < 0 || i >= l.len() {
        (s, Ok(()))
    } else {
        match solve_expr(l[i].expr, None, inputs, catalog, depth, s) {
            (s, Err(x)) => if x.sql_state == UNDEFINED_COLUMN@ {
                solve_orders(l, inputs, catalog, depth, i + 1, s)
            } else {
                (s, Err(x))
            },
            (s, Ok(_)) => solve_orders(l, inputs, catalog, depth, i + 1, s),
        }
    }
}

/// The result is its outermost layer over the results of its parts.
pub proof fn unfold_solve_orders(
    l: Seq<ParsedOrderView>,
    inputs: Seq<InputColumnView>,
    catalog: CatalogView,
    depth: usize,
    i: int,
    s: SolverView,
)
    ensures
        solve_orders(l, inputs, catalog, depth, i, s) == solve_orders_layer(l, inputs, catalog, depth, i, s),
{
}

/// The type at which expressions meet, from one of them on.
pub closed spec fn solve_meet(
    l: Seq<ParsedExprView>,
    expected: Option<ScalarTypeView>,
    inputs: Seq<InputColumnView>,
    catalog: CatalogView,
    depth: usize,
    i: int,
    met: Option<ScalarTypeView>,
    s: SolverView,
) -> (SolverView, Checked<Option<ScalarTypeView>>)
    decreases 64 - depth, 5int, l.len() - i,
{
    if i < 0 || i >= l.len() {
        (s, Ok(met))
    } else {
        match solve_expr(l[i], expected, inputs, catalog, depth, s) {
            (s, Err(x)) => (s, Err(x)),
            (s, Ok(t)) => solve_meet(l, expected, inputs, catalog, depth, i + 1, meet(met, t), s),
        }
    }
}

/// One layer of [`solve_meet`], over the results of its parts.
pub open spec fn solve_meet_layer(
    l: Seq<ParsedExprView>,
    expected: Option<ScalarTypeView>,
    inputs: Seq<InputColumnView>,
    catalog: CatalogView,
    depth: usize,
    i: int,
    met: Option<ScalarTypeView>,
    s: SolverView,
) -> (SolverView, Checked<Option<ScalarTypeView>>) {
    if i < 0 || i >= l.len() {
        (s, Ok(met))
    } else {
        match solve_expr(l[i], expected, inputs, catalog, depth, s) {
            (s, Err(x)) => (s, Err(x)),
            (s, Ok(t)) => solve_meet(l, expected, inputs, catalog, depth, i + 1, meet(met, t), s),
        }
    }
}

/// The result is its outermost layer over the results of its parts.
pub proof fn unfold_solve_meet(
    l: Seq<ParsedExprView>,
    expected: Option<ScalarTypeView>,
    inputs: Seq<InputColumnView>,
    catalog: CatalogView,
    depth: usize,
    i: int,
    met: Option<ScalarTypeView>,
    s: SolverView,
)
    ensures
        solve_meet(l, expected, inputs, catalog, depth, i, met, s) == solve_meet_layer(l, expected, inputs, catalog, depth, i, met, s),
{
}

/// What expressions that become text tell, from one of them on.
pub closed spec fn solve_texts(
    l: Seq<ParsedExprView>,
    inputs: Seq<InputColumnView>,
    catalog: CatalogView,
    depth: usize,
    i: int,
    s: SolverView,
) -> (SolverView, Checked<()>)
    decreases 64 - depth, 5int, l.len() - i,
{
    if i < 0 || i >= l.len() {
        (s, Ok(()))
    } else {
        match solve_expr(l[i], None, inputs, catalog, depth, s) {
            (s, Err(x)) => (s, Err(x)),
            (s, Ok(t)) => if t is None {
                match solve_expr(l[i], Some(ScalarTypeView::Text), inputs, catalog, depth, s) {
                    (s, Err(x)) => (s, Err(x)),
                    (s, Ok(_)) => solve_texts(l, inputs, catalog, depth, i + 1, s),
                }
            } else {
                solve_texts(l, inputs, catalog, depth, i + 1, s)
            },
        }
    }
}

/// One layer of [`solve_texts`], over the results of its parts.
pub open spec fn solve_texts_layer(
    l: Seq<ParsedExprView>,
    inputs: Seq<InputColumnView>,
    catalog: CatalogView,
    depth: usize,
    i: int,
    s: SolverView,
) -> (SolverView, Checked<()>) {
    if i < 0 || i >= l.len() {
        (s, Ok(()))
    } else {
        match solve_expr(l[i], None, inputs, catalog, depth, s) {
            (s, Err(x)) => (s, Err(x)),
            (s, Ok(t)) => if t is None {
                match solve_expr(l[i], Some(ScalarTypeView::Text), inputs, catalog, depth, s) {
                    (s, Err(x)) => (s, Err(x)),
                    (s, Ok(_)) => solve_texts(l, inputs, catalog, depth, i + 1, s),
                }
            } else {
                solve_texts(l, inputs, catalog, depth, i + 1, s)
            },
        }
    }
}

/// The result is its outermost layer over the results of its parts.
pub proof fn unfold_solve_texts(
    l: Seq<ParsedExprView>,
    inputs: Seq<InputColumnView>,
    catalog: CatalogView,
    depth: usize,
    i: int,
    s: SolverView,
)
    ensures
        solve_texts(l, inputs, catalog, depth, i, s) == solve_texts_layer(l, inputs, catalog, depth, i, s),
{
}

/// The types of expressions, from one of them on.
pub closed spec fn solve_types(
    l: Seq<ParsedExprView>,
    inputs: Seq<InputColumnView>,
    catalog: CatalogView,
    depth: usize,
    i: int,
    done: Seq<Option<ScalarTypeView>>,
    s: SolverView,
) -> (SolverView, Checked<Seq<Option<ScalarTypeView>>>)
    decreases 64 - depth, 5int, l.len() - i,
{
    if i < 0 || i >= l.len() {
        (s, Ok(done))
    } else {
        match solve_expr(l[i], None, inputs, catalog, depth, s) {
            (s, Err(x)) => (s, Err(x)),
            (s, Ok(t)) => solve_types(l, inputs, catalog, depth, i + 1, done.push(t), s),
        }
    }
}

/// One layer of [`solve_types`], over the results of its parts.
pub open spec fn solve_types_layer(
    l: Seq<ParsedExprView>,
    inputs: Seq<InputColumnView>,
    catalog: CatalogView,
    depth: usize,
    i: int,
    done: Seq<Option<ScalarTypeView>>,
    s: SolverView,
) -> (SolverView, Checked<Seq<Option<ScalarTypeView>>>) {
    if i < 0 || i >= l.len() {
        (s, Ok(done))
    } else {
        match solve_expr(l[i], None, inputs, catalog, depth, s) {
            (s, Err(x)) => (s, Err(x)),
            (s, Ok(t)) => solve_types(l, inputs, catalog, depth, i + 1, done.push(t), s),
        }
    }
}

/// The result is its outermost layer over the results of its parts.
pub proof fn unfold_solve_types(
    l: Seq<ParsedExprView>,
    inputs: Seq<InputColumnView>,
    catalog: CatalogView,
    depth: usize,
    i: int,
    done: Seq<Option<ScalarTypeView>>,
    s: SolverView,
)
    ensures
        solve_types(l, inputs, catalog, depth, i, done, s) == solve_types_layer(l, inputs, catalog, depth, i, done, s),
{
}

/// What the members of a row of known types tell, from one of them on.
pub closed spec fn solve_row(
    l: Seq<ParsedExprView>,
    types: Seq<Option<ScalarTypeView>>,
    inputs: Seq<InputColumnView>,
    catalog: CatalogView,
    depth: usize,
    i: int,
    s: SolverView,
) -> (SolverView, Checked<()>)
    decreases 64 - depth, 5int, l.len() - i,
{
    if i < 0 || i >= l.len() || i >= types.len() {
        (s, Ok(()))
    } else if types[i] is None {
        solve_row(l, types, inputs, catalog, depth, i + 1, s)
    } else {
        match solve_expr(l[i], types[i], inputs, catalog, depth, s) {
            (s, Err(x)) => (s, Err(x)),
            (s, Ok(_)) => solve_row(l, types, inputs, catalog, depth, i + 1, s),
        }
    }
}

/// One layer of [`solve_row`], over the results of its parts.
pub open spec fn solve_row_layer(
    l: Seq<ParsedExprView>,
    types: Seq<Option<ScalarTypeView>>,
    inputs: Seq<InputColumnView>,
    catalog: CatalogView,
    depth: usize,
    i: int,
    s: SolverView,
) -> (SolverView, Checked<()>) {
    if i < 0 || i >= l.len() || i >= types.len() {
        (s, Ok(()))
    } else if types[i] is None {
        solve_row(l, types, inputs, catalog, depth, i + 1, s)
    } else {
        match solve_expr(l[i], types[i], inputs, catalog, depth, s) {
            (s, Err(x)) => (s, Err(x)),
            (s, Ok(_)) => solve_row(l, types, inputs, catalog, depth, i + 1, s),
        }
    }
}

/// The result is its outermost layer over the results of its parts.
pub proof fn unfold_solve_row(
    l: Seq<ParsedExprView>,
    types: Seq<Option<ScalarTypeView>>,
    inputs: Seq<InputColumnView>,
    catalog: CatalogView,
    depth: usize,
    i: int,
    s: SolverView,
)
    ensures
        solve_row(l, types, inputs, catalog, depth, i, s) == solve_row_layer(l, types, inputs, catalog, depth, i, s),
{
}

/// What a clause that may be absent tells.
pub closed spec fn solve_some(
    e: Option<ParsedExprView>,
    expected: Option<ScalarTypeView>,
    inputs: Seq<InputColumnView>,
    catalog: CatalogView,
    depth: usize,
    s: SolverView,
) -> (SolverView, Checked<()>)
    decreases 64 - depth, 5int, 0int,
{
    match e {
        None => (s, Ok(())),
        Some(e) => match solve_expr(e, expected, inputs, catalog, depth, s) {
            (s, Err(x)) => (s, Err(x)),
            (s, Ok(_)) => (s, Ok(())),
        },
    }
}

/// One layer of [`solve_some`], over the results of its parts.
pub open spec fn solve_some_layer(
    e: Option<ParsedExprView>,
    expected: Option<ScalarTypeView>,
    inputs: Seq<InputColumnView>,
    catalog: CatalogView,
    depth: usize,
    s: SolverView,
) -> (SolverView, Checked<()>) {
    match e {
        None => (s, Ok(())),
        Some(e) => match solve_expr(e, expected, inputs, catalog, depth, s) {
            (s, Err(x)) => (s, Err(x)),
            (s, Ok(_)) => (s, Ok(())),
        },
    }
}

/// The result is its outermost layer over the results of its parts.
pub proof fn unfold_solve_some(
    e: Option<ParsedExprView>,
    expected: Option<ScalarTypeView>,
    inputs: Seq<InputColumnView>,
    catalog: CatalogView,
    depth: usize,
    s: SolverView,
)
    ensures
        solve_some(e, expected, inputs, catalog, depth, s) == solve_some_layer(e, expected, inputs, catalog, depth, s),
{
}

/// The type of an expression that may be absent.
pub closed spec fn solve_option(
    e: Option<Box<ParsedExprView>>,
    expected: Option<ScalarTypeView>,
    inputs: Seq<InputColumnView>,
    catalog: CatalogView,
    depth: usize,
    s: SolverView,
) -> (SolverView, Checked<Option<ScalarTypeView>>)
    decreases 64 - depth, 5int, 0int,
{
    match e {
        None => (s, Ok(None)),
        Some(e) => solve_expr(*e, expected, inputs, catalog, depth, s),
    }
}

/// One layer of [`solve_option`], over the results of its parts.
pub open spec fn solve_option_layer(
    e: Option<Box<ParsedExprView>>,
    expected: Option<ScalarTypeView>,
    inputs: Seq<InputColumnView>,
    catalog: CatalogView,
    depth: usize,
    s: SolverView,
) -> (SolverView, Checked<Option<ScalarTypeView>>) {
    match e {
        None => (s, Ok(None)),
        Some(e) => solve_expr(*e, expected, inputs, catalog, depth, s),
    }
}

/// The result is its outermost layer over the results of its parts.
pub proof fn unfold_solve_option(
    e: Option<Box<ParsedExprView>>,
    expected: Option<ScalarTypeView>,
    inputs: Seq<InputColumnView>,
    catalog: CatalogView,
    depth: usize,
    s: SolverView,
)
    ensures
        solve_option(e, expected, inputs, catalog, depth, s) == solve_option_layer(e, expected, inputs, catalog, depth, s),
{
}

/// The type of a call of a built-in function.
pub closed spec fn solve_function(
    function: ScalarFunction,
    arguments: Seq<ParsedExprView>,
    expected: Option<ScalarTypeView>,
    inputs: Seq<InputColumnView>,
    catalog: CatalogView,
    depth: usize,
    s: SolverView,
) -> (SolverView, Checked<Option<ScalarTypeView>>)
    decreases 64 - depth, 3int, 0int,
{
    if depth >= 64 { (s, Err(too_nested())) } else { match function {
            ScalarFunction::Version | ScalarFunction::CurrentDatabase | ScalarFunction::CurrentUser | ScalarFunction::SessionUser
                | ScalarFunction::CurrentSetting => (s, Ok(Some(ScalarTypeView::Text))),
            ScalarFunction::Lower | ScalarFunction::Upper | ScalarFunction::Btrim | ScalarFunction::Ltrim | ScalarFunction::Rtrim
                | ScalarFunction::Replace => match solve_each(
                    arguments,
                    Some(ScalarTypeView::Text),
                    inputs,
                    catalog,
                    (depth + 1) as usize,
                    0,
                    s,
                ) {
                (s, Err(x)) => (s, Err(x)),
                (s, Ok(_)) => (s, Ok(Some(ScalarTypeView::Text))),
            },
            ScalarFunction::Strpos => match solve_each(arguments, Some(ScalarTypeView::Text), inputs, catalog, (depth + 1) as usize, 0, s) {
                (s, Err(x)) => (s, Err(x)),
                (s, Ok(_)) => (s, Ok(Some(ScalarTypeView::Int32))),
            },
            ScalarFunction::CharacterLength | ScalarFunction::OctetLength => if arguments.len() < 1 {
                (s, Err(internal_error("scalar function argument is missing"@)))
            } else {
                match solve_expr(arguments[0], None, inputs, catalog, (depth + 1) as usize, s) {
                    (s, Err(x)) => (s, Err(x)),
                    (s, Ok(t)) => if t is None {
                        match solve_expr(arguments[0], Some(ScalarTypeView::Text), inputs, catalog, (depth + 1) as usize, s) {
                            (s, Err(x)) => (s, Err(x)),
                            (s, Ok(_)) => (s, Ok(Some(ScalarTypeView::Int32))),
                        }
                    } else {
                        (s, Ok(Some(ScalarTypeView::Int32)))
                    },
                }
            },
            ScalarFunction::Abs => if arguments.len() < 1 {
                (s, Err(internal_error("scalar function argument is missing"@)))
            } else {
                solve_expr(
                    arguments[0],
                    (if expected is Some && numeric(expected->0) { expected } else { None }),
                    inputs,
                    catalog,
                    (depth + 1) as usize,
                    s,
                )
            },
            ScalarFunction::Coalesce | ScalarFunction::NullIf | ScalarFunction::Greatest | ScalarFunction::Least => match solve_meet(
                arguments,
                None,
                inputs,
                catalog,
                (depth + 1) as usize,
                0,
                expected,
                s,
            ) {
                (s, Err(x)) => (s, Err(x)),
                (s, Ok(met)) => if met is None {
                    (s, Ok(met))
                } else {
                    match solve_each(arguments, met, inputs, catalog, (depth + 1) as usize, 0, s) {
                        (s, Err(x)) => (s, Err(x)),
                        (s, Ok(_)) => (s, Ok(met)),
                    }
                },
            },
            ScalarFunction::Concat => match solve_texts(arguments, inputs, catalog, (depth + 1) as usize, 0, s) {
                (s, Err(x)) => (s, Err(x)),
                (s, Ok(_)) => (s, Ok(Some(ScalarTypeView::Text))),
            },
            ScalarFunction::Substring => if arguments.len() < 1 {
                (s, Err(internal_error("scalar function argument is missing"@)))
            } else {
                match solve_expr(arguments[0], Some(ScalarTypeView::Text), inputs, catalog, (depth + 1) as usize, s) {
                    (s, Err(x)) => (s, Err(x)),
                    (s, Ok(_)) => match solve_each(arguments, Some(ScalarTypeView::Int32), inputs, catalog, (depth + 1) as usize, 1, s) {
                        (s, Err(x)) => (s, Err(x)),
                        (s, Ok(_)) => (s, Ok(Some(ScalarTypeView::Text))),
                    },
                }
            },
            ScalarFunction::JsonbTypeof => if arguments.len() < 1 {
                (s, Err(internal_error("scalar function argument is missing"@)))
            } else {
                match solve_expr(arguments[0], Some(ScalarTypeView::Jsonb), inputs, catalog, (depth + 1) as usize, s) {
                    (s, Err(x)) => (s, Err(x)),
                    (s, Ok(_)) => (s, Ok(Some(ScalarTypeView::Text))),
                }
            },
            ScalarFunction::ArrayLength => if arguments.len() < 2 {
                (s, Err(internal_error("scalar function argument is missing"@)))
            } else {
                match solve_expr(arguments[0], None, inputs, catalog, (depth + 1) as usize, s) {
                    (s, Err(x)) => (s, Err(x)),
                    (s, Ok(_)) => match solve_expr(arguments[1], Some(ScalarTypeView::Int32), inputs, catalog, (depth + 1) as usize, s) {
                        (s, Err(x)) => (s, Err(x)),
                        (s, Ok(_)) => (s, Ok(Some(ScalarTypeView::Int32))),
                    },
                }
            },
            ScalarFunction::Cardinality => if arguments.len() < 1 {
                (s, Err(internal_error("scalar function argument is missing"@)))
            } else {
                match solve_expr(arguments[0], None, inputs, catalog, (depth + 1) as usize, s) {
                    (s, Err(x)) => (s, Err(x)),
                    (s, Ok(_)) => (s, Ok(Some(ScalarTypeView::Int32))),
                }
            },
    } }
}

/// One layer of [`solve_function`], over the results of its parts.
pub open spec fn solve_function_layer(
    function: ScalarFunction,
    arguments: Seq<ParsedExprView>,
    expected: Option<ScalarTypeView>,
    inputs: Seq<InputColumnView>,
    catalog: CatalogView,
    depth: usize,
    s: SolverView,
) -> (SolverView, Checked<Option<ScalarTypeView>>) {
    if depth >= 64 { (s, Err(too_nested())) } else { match function {
            ScalarFunction::Version | ScalarFunction::CurrentDatabase | ScalarFunction::CurrentUser | ScalarFunction::SessionUser
                | ScalarFunction::CurrentSetting => (s, Ok(Some(ScalarTypeView::Text))),
            ScalarFunction::Lower | ScalarFunction::Upper | ScalarFunction::Btrim | ScalarFunction::Ltrim | ScalarFunction::Rtrim
                | ScalarFunction::Replace => match solve_each(
                    arguments,
                    Some(ScalarTypeView::Text),
                    inputs,
                    catalog,
                    (depth + 1) as usize,
                    0,
                    s,
                ) {
                (s, Err(x)) => (s, Err(x)),
                (s, Ok(_)) => (s, Ok(Some(ScalarTypeView::Text))),
            },
            ScalarFunction::Strpos => match solve_each(arguments, Some(ScalarTypeView::Text), inputs, catalog, (depth + 1) as usize, 0, s) {
                (s, Err(x)) => (s, Err(x)),
                (s, Ok(_)) => (s, Ok(Some(ScalarTypeView::Int32))),
            },
            ScalarFunction::CharacterLength | ScalarFunction::OctetLength => if arguments.len() < 1 {
                (s, Err(internal_error("scalar function argument is missing"@)))
            } else {
                match solve_expr(arguments[0], None, inputs, catalog, (depth + 1) as usize, s) {
                    (s, Err(x)) => (s, Err(x)),
                    (s, Ok(t)) => if t is None {
                        match solve_expr(arguments[0], Some(ScalarTypeView::Text), inputs, catalog, (depth + 1) as usize, s) {
                            (s, Err(x)) => (s, Err(x)),
                            (s, Ok(_)) => (s, Ok(Some(ScalarTypeView::Int32))),
                        }
                    } else {
                        (s, Ok(Some(ScalarTypeView::Int32)))
                    },
                }
            },
            ScalarFunction::Abs => if arguments.len() < 1 {
                (s, Err(internal_error("scalar function argument is missing"@)))
            } else {
                solve_expr(
                    arguments[0],
                    (if expected is Some && numeric(expected->0) { expected } else { None }),
                    inputs,
                    catalog,
                    (depth + 1) as usize,
                    s,
                )
            },
            ScalarFunction::Coalesce | ScalarFunction::NullIf | ScalarFunction::Greatest | ScalarFunction::Least => match solve_meet(
                arguments,
                None,
                inputs,
                catalog,
                (depth + 1) as usize,
                0,
                expected,
                s,
            ) {
                (s, Err(x)) => (s, Err(x)),
                (s, Ok(met)) => if met is None {
                    (s, Ok(met))
                } else {
                    match solve_each(arguments, met, inputs, catalog, (depth + 1) as usize, 0, s) {
                        (s, Err(x)) => (s, Err(x)),
                        (s, Ok(_)) => (s, Ok(met)),
                    }
                },
            },
            ScalarFunction::Concat => match solve_texts(arguments, inputs, catalog, (depth + 1) as usize, 0, s) {
                (s, Err(x)) => (s, Err(x)),
                (s, Ok(_)) => (s, Ok(Some(ScalarTypeView::Text))),
            },
            ScalarFunction::Substring => if arguments.len() < 1 {
                (s, Err(internal_error("scalar function argument is missing"@)))
            } else {
                match solve_expr(arguments[0], Some(ScalarTypeView::Text), inputs, catalog, (depth + 1) as usize, s) {
                    (s, Err(x)) => (s, Err(x)),
                    (s, Ok(_)) => match solve_each(arguments, Some(ScalarTypeView::Int32), inputs, catalog, (depth + 1) as usize, 1, s) {
                        (s, Err(x)) => (s, Err(x)),
                        (s, Ok(_)) => (s, Ok(Some(ScalarTypeView::Text))),
                    },
                }
            },
            ScalarFunction::JsonbTypeof => if arguments.len() < 1 {
                (s, Err(internal_error("scalar function argument is missing"@)))
            } else {
                match solve_expr(arguments[0], Some(ScalarTypeView::Jsonb), inputs, catalog, (depth + 1) as usize, s) {
                    (s, Err(x)) => (s, Err(x)),
                    (s, Ok(_)) => (s, Ok(Some(ScalarTypeView::Text))),
                }
            },
            ScalarFunction::ArrayLength => if arguments.len() < 2 {
                (s, Err(internal_error("scalar function argument is missing"@)))
            } else {
                match solve_expr(arguments[0], None, inputs, catalog, (depth + 1) as usize, s) {
                    (s, Err(x)) => (s, Err(x)),
                    (s, Ok(_)) => match solve_expr(arguments[1], Some(ScalarTypeView::Int32), inputs, catalog, (depth + 1) as usize, s) {
                        (s, Err(x)) => (s, Err(x)),
                        (s, Ok(_)) => (s, Ok(Some(ScalarTypeView::Int32))),
                    },
                }
            },
            ScalarFunction::Cardinality => if arguments.len() < 1 {
                (s, Err(internal_error("scalar function argument is missing"@)))
            } else {
                match solve_expr(arguments[0], None, inputs, catalog, (depth + 1) as usize, s) {
                    (s, Err(x)) => (s, Err(x)),
                    (s, Ok(_)) => (s, Ok(Some(ScalarTypeView::Int32))),
                }
            },
    } }
}

/// The result is its outermost layer over the results of its parts.
pub proof fn unfold_solve_function(
    function: ScalarFunction,
    arguments: Seq<ParsedExprView>,
    expected: Option<ScalarTypeView>,
    inputs: Seq<InputColumnView>,
    catalog: CatalogView,
    depth: usize,
    s: SolverView,
)
    ensures
        solve_function(function, arguments, expected, inputs, catalog, depth, s) == solve_function_layer(
            function,
            arguments,
            expected,
            inputs,
            catalog,
            depth,
            s,
        ),
{
}

/// What a frame bound tells.
pub closed spec fn solve_bound(
    b: ParsedWindowFrameBoundView,
    t: Option<ScalarTypeView>,
    inputs: Seq<InputColumnView>,
    catalog: CatalogView,
    depth: usize,
    s: SolverView,
) -> (SolverView, Checked<()>)
    decreases 64 - depth, 5int, 0int,
{
    match b {
        ParsedWindowFrameBoundView::Preceding(e) => match solve_expr(*e, t, inputs, catalog, depth, s) {
            (s, Err(x)) => (s, Err(x)),
            (s, Ok(_)) => (s, Ok(())),
        },
        ParsedWindowFrameBoundView::Following(e) => match solve_expr(*e, t, inputs, catalog, depth, s) {
            (s, Err(x)) => (s, Err(x)),
            (s, Ok(_)) => (s, Ok(())),
        },
        _ => (s, Ok(())),
    }
}

/// One layer of [`solve_bound`], over the results of its parts.
pub open spec fn solve_bound_layer(
    b: ParsedWindowFrameBoundView,
    t: Option<ScalarTypeView>,
    inputs: Seq<InputColumnView>,
    catalog: CatalogView,
    depth: usize,
    s: SolverView,
) -> (SolverView, Checked<()>) {
    match b {
        ParsedWindowFrameBoundView::Preceding(e) => match solve_expr(*e, t, inputs, catalog, depth, s) {
            (s, Err(x)) => (s, Err(x)),
            (s, Ok(_)) => (s, Ok(())),
        },
        ParsedWindowFrameBoundView::Following(e) => match solve_expr(*e, t, inputs, catalog, depth, s) {
            (s, Err(x)) => (s, Err(x)),
            (s, Ok(_)) => (s, Ok(())),
        },
        _ => (s, Ok(())),
    }
}

/// The result is its outermost layer over the results of its parts.
pub proof fn unfold_solve_bound(
    b: ParsedWindowFrameBoundView,
    t: Option<ScalarTypeView>,
    inputs: Seq<InputColumnView>,
    catalog: CatalogView,
    depth: usize,
    s: SolverView,
)
    ensures
        solve_bound(b, t, inputs, catalog, depth, s) == solve_bound_layer(b, t, inputs, catalog, depth, s),
{
}

/// What a frame tells.
pub closed spec fn solve_frame(
    f: Option<ParsedWindowFrameView>,
    order_by: Seq<ParsedOrderView>,
    inputs: Seq<InputColumnView>,
    catalog: CatalogView,
    depth: usize,
    s: SolverView,
) -> (SolverView, Checked<()>)
    decreases 64 - depth, 6int, 0int,
{
    match f {
        None => (s, Ok(())),
        Some(f) => match (if f.units == WindowFrameUnits::Rows {
                (s, Ok(Some(ScalarTypeView::Int64)))
            } else if order_by.len() == 0 {
                (s, Ok(None))
            } else {
                solve_expr(order_by[0].expr, None, inputs, catalog, depth, s)
        }) {
            (s, Err(x)) => (s, Err(x)),
            (s, Ok(t)) => match solve_bound(f.start_bound, t, inputs, catalog, depth, s) {
                (s, Err(x)) => (s, Err(x)),
                (s, Ok(_)) => solve_bound(f.end_bound, t, inputs, catalog, depth, s),
            },
        },
    }
}

/// One layer of [`solve_frame`], over the results of its parts.
pub open spec fn solve_frame_layer(
    f: Option<ParsedWindowFrameView>,
    order_by: Seq<ParsedOrderView>,
    inputs: Seq<InputColumnView>,
    catalog: CatalogView,
    depth: usize,
    s: SolverView,
) -> (SolverView, Checked<()>) {
    match f {
        None => (s, Ok(())),
        Some(f) => match (if f.units == WindowFrameUnits::Rows {
                (s, Ok(Some(ScalarTypeView::Int64)))
            } else if order_by.len() == 0 {
                (s, Ok(None))
            } else {
                solve_expr(order_by[0].expr, None, inputs, catalog, depth, s)
        }) {
            (s, Err(x)) => (s, Err(x)),
            (s, Ok(t)) => match solve_bound(f.start_bound, t, inputs, catalog, depth, s) {
                (s, Err(x)) => (s, Err(x)),
                (s, Ok(_)) => solve_bound(f.end_bound, t, inputs, catalog, depth, s),
            },
        },
    }
}

/// The result is its outermost layer over the results of its parts.
pub proof fn unfold_solve_frame(
    f: Option<ParsedWindowFrameView>,
    order_by: Seq<ParsedOrderView>,
    inputs: Seq<InputColumnView>,
    catalog: CatalogView,
    depth: usize,
    s: SolverView,
)
    ensures
        solve_frame(f, order_by, inputs, catalog, depth, s) == solve_frame_layer(f, order_by, inputs, catalog, depth, s),
{
}

/// The type of a value from another row of a window.
pub closed spec fn solve_shift(
    arguments: Seq<ParsedExprView>,
    inputs: Seq<InputColumnView>,
    catalog: CatalogView,
    depth: usize,
    s: SolverView,
) -> (SolverView, Checked<Option<ScalarTypeView>>)
    decreases 64 - depth, 6int, 0int,
{
    match solve_first(arguments, inputs, catalog, depth, s) {
        (s, Err(x)) => (s, Err(x)),
        (s, Ok(value)) => if arguments.len() < 2 {
            (s, Ok(value))
        } else {
            match solve_expr(arguments[1], Some(ScalarTypeView::Int64), inputs, catalog, depth, s) {
                (s, Err(x)) => (s, Err(x)),
                (s, Ok(_)) => if arguments.len() < 3 {
                    (s, Ok(value))
                } else {
                    match solve_expr(arguments[2], value, inputs, catalog, depth, s) {
                        (s, Err(x)) => (s, Err(x)),
                        (s, Ok(default)) => if meet(value, default) is None {
                            (s, Ok(None))
                        } else {
                            match solve_expr(arguments[0], meet(value, default), inputs, catalog, depth, s) {
                                (s, Err(x)) => (s, Err(x)),
                                (s, Ok(_)) => match solve_expr(arguments[2], meet(value, default), inputs, catalog, depth, s) {
                                    (s, Err(x)) => (s, Err(x)),
                                    (s, Ok(_)) => (s, Ok(meet(value, default))),
                                },
                            }
                        },
                    }
                },
            }
        },
    }
}

/// One layer of [`solve_shift`], over the results of its parts.
pub open spec fn solve_shift_layer(
    arguments: Seq<ParsedExprView>,
    inputs: Seq<InputColumnView>,
    catalog: CatalogView,
    depth: usize,
    s: SolverView,
) -> (SolverView, Checked<Option<ScalarTypeView>>) {
    match solve_first(arguments, inputs, catalog, depth, s) {
        (s, Err(x)) => (s, Err(x)),
        (s, Ok(value)) => if arguments.len() < 2 {
            (s, Ok(value))
        } else {
            match solve_expr(arguments[1], Some(ScalarTypeView::Int64), inputs, catalog, depth, s) {
                (s, Err(x)) => (s, Err(x)),
                (s, Ok(_)) => if arguments.len() < 3 {
                    (s, Ok(value))
                } else {
                    match solve_expr(arguments[2], value, inputs, catalog, depth, s) {
                        (s, Err(x)) => (s, Err(x)),
                        (s, Ok(default)) => if meet(value, default) is None {
                            (s, Ok(None))
                        } else {
                            match solve_expr(arguments[0], meet(value, default), inputs, catalog, depth, s) {
                                (s, Err(x)) => (s, Err(x)),
                                (s, Ok(_)) => match solve_expr(arguments[2], meet(value, default), inputs, catalog, depth, s) {
                                    (s, Err(x)) => (s, Err(x)),
                                    (s, Ok(_)) => (s, Ok(meet(value, default))),
                                },
                            }
                        },
                    }
                },
            }
        },
    }
}

/// The result is its outermost layer over the results of its parts.
pub proof fn unfold_solve_shift(
    arguments: Seq<ParsedExprView>,
    inputs: Seq<InputColumnView>,
    catalog: CatalogView,
    depth: usize,
    s: SolverView,
)
    ensures
        solve_shift(arguments, inputs, catalog, depth, s) == solve_shift_layer(arguments, inputs, catalog, depth, s),
{
}

/// The type of the first argument.
pub closed spec fn solve_first(
    arguments: Seq<ParsedExprView>,
    inputs: Seq<InputColumnView>,
    catalog: CatalogView,
    depth: usize,
    s: SolverView,
) -> (SolverView, Checked<Option<ScalarTypeView>>)
    decreases 64 - depth, 5int, 0int,
{
    if arguments.len() == 0 {
        (s, Ok(None))
    } else {
        solve_expr(arguments[0], None, inputs, catalog, depth, s)
    }
}

/// One layer of [`solve_first`], over the results of its parts.
pub open spec fn solve_first_layer(
    arguments: Seq<ParsedExprView>,
    inputs: Seq<InputColumnView>,
    catalog: CatalogView,
    depth: usize,
    s: SolverView,
) -> (SolverView, Checked<Option<ScalarTypeView>>) {
    if arguments.len() == 0 {
        (s, Ok(None))
    } else {
        solve_expr(arguments[0], None, inputs, catalog, depth, s)
    }
}

/// The result is its outermost layer over the results of its parts.
pub proof fn unfold_solve_first(
    arguments: Seq<ParsedExprView>,
    inputs: Seq<InputColumnView>,
    catalog: CatalogView,
    depth: usize,
    s: SolverView,
)
    ensures
        solve_first(arguments, inputs, catalog, depth, s) == solve_first_layer(arguments, inputs, catalog, depth, s),
{
}

/// The type of a call of a window function.
pub closed spec fn solve_call(
    function: WindowFunction,
    arguments: Seq<ParsedExprView>,
    inputs: Seq<InputColumnView>,
    catalog: CatalogView,
    depth: usize,
    s: SolverView,
) -> (SolverView, Checked<Option<ScalarTypeView>>)
    decreases 64 - depth, 7int, 0int,
{
    match function {
        WindowFunction::RowNumber | WindowFunction::Rank | WindowFunction::DenseRank => (s, Ok(Some(ScalarTypeView::Int64))),
        WindowFunction::Lag | WindowFunction::Lead => solve_shift(arguments, inputs, catalog, depth, s),
        WindowFunction::FirstValue | WindowFunction::LastValue => solve_first(arguments, inputs, catalog, depth, s),
        WindowFunction::NthValue => match solve_first(arguments, inputs, catalog, depth, s) {
            (s, Err(x)) => (s, Err(x)),
            (s, Ok(value)) => if arguments.len() < 2 {
                (s, Ok(value))
            } else {
                match solve_expr(arguments[1], Some(ScalarTypeView::Int64), inputs, catalog, depth, s) {
                    (s, Err(x)) => (s, Err(x)),
                    (s, Ok(_)) => (s, Ok(value)),
                }
            },
        },
        WindowFunction::Aggregate(f) => match solve_first(arguments, inputs, catalog, depth, s) {
            (s, Err(x)) => (s, Err(x)),
            (s, Ok(t)) => (s, Ok(total_type(f, t))),
        },
    }
}

/// One layer of [`solve_call`], over the results of its parts.
pub open spec fn solve_call_layer(
    function: WindowFunction,
    arguments: Seq<ParsedExprView>,
    inputs: Seq<InputColumnView>,
    catalog: CatalogView,
    depth: usize,
    s: SolverView,
) -> (SolverView, Checked<Option<ScalarTypeView>>) {
    match function {
        WindowFunction::RowNumber | WindowFunction::Rank | WindowFunction::DenseRank => (s, Ok(Some(ScalarTypeView::Int64))),
        WindowFunction::Lag | WindowFunction::Lead => solve_shift(arguments, inputs, catalog, depth, s),
        WindowFunction::FirstValue | WindowFunction::LastValue => solve_first(arguments, inputs, catalog, depth, s),
        WindowFunction::NthValue => match solve_first(arguments, inputs, catalog, depth, s) {
            (s, Err(x)) => (s, Err(x)),
            (s, Ok(value)) => if arguments.len() < 2 {
                (s, Ok(value))
            } else {
                match solve_expr(arguments[1], Some(ScalarTypeView::Int64), inputs, catalog, depth, s) {
                    (s, Err(x)) => (s, Err(x)),
                    (s, Ok(_)) => (s, Ok(value)),
                }
            },
        },
        WindowFunction::Aggregate(f) => match solve_first(arguments, inputs, catalog, depth, s) {
            (s, Err(x)) => (s, Err(x)),
            (s, Ok(t)) => (s, Ok(total_type(f, t))),
        },
    }
}

/// The result is its outermost layer over the results of its parts.
pub proof fn unfold_solve_call(
    function: WindowFunction,
    arguments: Seq<ParsedExprView>,
    inputs: Seq<InputColumnView>,
    catalog: CatalogView,
    depth: usize,
    s: SolverView,
)
    ensures
        solve_call(function, arguments, inputs, catalog, depth, s) == solve_call_layer(function, arguments, inputs, catalog, depth, s),
{
}

/// The type of a window function over a window.
pub closed spec fn solve_window(
    call: ParsedWindowCallView,
    spec: Option<ParsedWindowSpecView>,
    inputs: Seq<InputColumnView>,
    catalog: CatalogView,
    depth: usize,
    s: SolverView,
) -> (SolverView, Checked<Option<ScalarTypeView>>)
    decreases 64 - depth, 3int, 0int,
{
    if depth >= 64 {
        (s, Err(too_nested()))
    } else {
        match (match spec {
                None => (s, Ok(())),
                Some(spec) => solve_spec(spec, inputs, catalog, (depth + 1) as usize, s),
        }) {
            (s, Err(x)) => (s, Err(x)),
            (s, Ok(_)) => match solve_option(call.filter, Some(ScalarTypeView::Boolean), inputs, catalog, (depth + 1) as usize, s) {
                (s, Err(x)) => (s, Err(x)),
                (s, Ok(_)) => solve_call(call.function, call.arguments, inputs, catalog, (depth + 1) as usize, s),
            },
        }
    }
}

/// One layer of [`solve_window`], over the results of its parts.
pub open spec fn solve_window_layer(
    call: ParsedWindowCallView,
    spec: Option<ParsedWindowSpecView>,
    inputs: Seq<InputColumnView>,
    catalog: CatalogView,
    depth: usize,
    s: SolverView,
) -> (SolverView, Checked<Option<ScalarTypeView>>) {
    if depth >= 64 {
        (s, Err(too_nested()))
    } else {
        match (match spec {
                None => (s, Ok(())),
                Some(spec) => solve_spec(spec, inputs, catalog, (depth + 1) as usize, s),
        }) {
            (s, Err(x)) => (s, Err(x)),
            (s, Ok(_)) => match solve_option(call.filter, Some(ScalarTypeView::Boolean), inputs, catalog, (depth + 1) as usize, s) {
                (s, Err(x)) => (s, Err(x)),
                (s, Ok(_)) => solve_call(call.function, call.arguments, inputs, catalog, (depth + 1) as usize, s),
            },
        }
    }
}

/// The result is its outermost layer over the results of its parts.
pub proof fn unfold_solve_window(
    call: ParsedWindowCallView,
    spec: Option<ParsedWindowSpecView>,
    inputs: Seq<InputColumnView>,
    catalog: CatalogView,
    depth: usize,
    s: SolverView,
)
    ensures
        solve_window(call, spec, inputs, catalog, depth, s) == solve_window_layer(call, spec, inputs, catalog, depth, s),
{
}

/// What a window tells.
pub closed spec fn solve_spec(
    spec: ParsedWindowSpecView,
    inputs: Seq<InputColumnView>,
    catalog: CatalogView,
    depth: usize,
    s: SolverView,
) -> (SolverView, Checked<()>)
    decreases 64 - depth, 7int, 0int,
{
    match solve_each(spec.partition_by, None, inputs, catalog, depth, 0, s) {
        (s, Err(x)) => (s, Err(x)),
        (s, Ok(_)) => match solve_keys(spec.order_by, inputs, catalog, depth, 0, s) {
            (s, Err(x)) => (s, Err(x)),
            (s, Ok(_)) => solve_frame(spec.frame, spec.order_by, inputs, catalog, depth, s),
        },
    }
}

/// One layer of [`solve_spec`], over the results of its parts.
pub open spec fn solve_spec_layer(
    spec: ParsedWindowSpecView,
    inputs: Seq<InputColumnView>,
    catalog: CatalogView,
    depth: usize,
    s: SolverView,
) -> (SolverView, Checked<()>) {
    match solve_each(spec.partition_by, None, inputs, catalog, depth, 0, s) {
        (s, Err(x)) => (s, Err(x)),
        (s, Ok(_)) => match solve_keys(spec.order_by, inputs, catalog, depth, 0, s) {
            (s, Err(x)) => (s, Err(x)),
            (s, Ok(_)) => solve_frame(spec.frame, spec.order_by, inputs, catalog, depth, s),
        },
    }
}

/// The result is its outermost layer over the results of its parts.
pub proof fn unfold_solve_spec(spec: ParsedWindowSpecView, inputs: Seq<InputColumnView>, catalog: CatalogView, depth: usize, s: SolverView)
    ensures
        solve_spec(spec, inputs, catalog, depth, s) == solve_spec_layer(spec, inputs, catalog, depth, s),
{
}

/// The output types of a subquery.
pub closed spec fn solve_nested(
    q: ParsedStatementView,
    expected: Option<Seq<Option<ScalarTypeView>>>,
    inputs: Seq<InputColumnView>,
    catalog: CatalogView,
    depth: usize,
    s: SolverView,
) -> (SolverView, Checked<Seq<Option<ScalarTypeView>>>)
    decreases 64 - depth, 2int, 0int,
{
    if depth >= 64 {
        (s, Err(too_nested()))
    } else {
        solve_statement(q, catalog, inputs, expected, (depth + 1) as usize, s)
    }
}

/// One layer of [`solve_nested`], over the results of its parts.
pub open spec fn solve_nested_layer(
    q: ParsedStatementView,
    expected: Option<Seq<Option<ScalarTypeView>>>,
    inputs: Seq<InputColumnView>,
    catalog: CatalogView,
    depth: usize,
    s: SolverView,
) -> (SolverView, Checked<Seq<Option<ScalarTypeView>>>) {
    if depth >= 64 {
        (s, Err(too_nested()))
    } else {
        solve_statement(q, catalog, inputs, expected, (depth + 1) as usize, s)
    }
}

/// The result is its outermost layer over the results of its parts.
pub proof fn unfold_solve_nested(
    q: ParsedStatementView,
    expected: Option<Seq<Option<ScalarTypeView>>>,
    inputs: Seq<InputColumnView>,
    catalog: CatalogView,
    depth: usize,
    s: SolverView,
)
    ensures
        solve_nested(q, expected, inputs, catalog, depth, s) == solve_nested_layer(q, expected, inputs, catalog, depth, s),
{
}

/// The type of an operator.
pub closed spec fn solve_binary(
    left: ParsedExprView,
    op: BinaryOperator,
    right: ParsedExprView,
    expected: Option<ScalarTypeView>,
    inputs: Seq<InputColumnView>,
    catalog: CatalogView,
    depth: usize,
    s: SolverView,
) -> (SolverView, Checked<Option<ScalarTypeView>>)
    decreases 64 - depth, 3int, 0int,
{
    if depth >= 64 {
        (s, Err(too_nested()))
    } else if op == BinaryOperator::And || op == BinaryOperator::Or {
        match solve_expr(left, Some(ScalarTypeView::Boolean), inputs, catalog, (depth + 1) as usize, s) {
            (s, Err(x)) => (s, Err(x)),
            (s, Ok(_)) => match solve_expr(right, Some(ScalarTypeView::Boolean), inputs, catalog, (depth + 1) as usize, s) {
                (s, Err(x)) => (s, Err(x)),
                (s, Ok(_)) => (s, Ok(Some(ScalarTypeView::Boolean))),
            },
        }
    } else {
        match solve_expr(left, None, inputs, catalog, (depth + 1) as usize, s) {
            (s, Err(x)) => (s, Err(x)),
            (s, Ok(lt)) => match solve_expr(right, None, inputs, catalog, (depth + 1) as usize, s) {
                (s, Err(x)) => (s, Err(x)),
                (s, Ok(rt)) => match constrained_by(parameter_index(left), rt, left.position, s) {
                    (s, Err(x)) => (s, Err(x)),
                    (s, Ok(_)) => match constrained_by(parameter_index(right), lt, right.position, s) {
                        (s, Err(x)) => (s, Err(x)),
                        (s, Ok(_)) => if operand_type(op, lt, rt, expected) is None {
                            (s, Ok(if arithmetic(op) { None } else { Some(ScalarTypeView::Boolean) }))
                        } else {
                            match solve_expr(left, operand_type(op, lt, rt, expected), inputs, catalog, (depth + 1) as usize, s) {
                                (s, Err(x)) => (s, Err(x)),
                                (s, Ok(_)) => match solve_expr(
                                    right,
                                    operand_type(op, lt, rt, expected),
                                    inputs,
                                    catalog,
                                    (depth + 1) as usize,
                                    s,
                                ) {
                                    (s, Err(x)) => (s, Err(x)),
                                    (s, Ok(_)) => (
                                        s,
                                        Ok(if arithmetic(op) { operand_type(op, lt, rt, expected) } else { Some(ScalarTypeView::Boolean) }),
                                    ),
                                },
                            }
                        },
                    },
                },
            },
        }
    }
}

/// One layer of [`solve_binary`], over the results of its parts.
pub open spec fn solve_binary_layer(
    left: ParsedExprView,
    op: BinaryOperator,
    right: ParsedExprView,
    expected: Option<ScalarTypeView>,
    inputs: Seq<InputColumnView>,
    catalog: CatalogView,
    depth: usize,
    s: SolverView,
) -> (SolverView, Checked<Option<ScalarTypeView>>) {
    if depth >= 64 {
        (s, Err(too_nested()))
    } else if op == BinaryOperator::And || op == BinaryOperator::Or {
        match solve_expr(left, Some(ScalarTypeView::Boolean), inputs, catalog, (depth + 1) as usize, s) {
            (s, Err(x)) => (s, Err(x)),
            (s, Ok(_)) => match solve_expr(right, Some(ScalarTypeView::Boolean), inputs, catalog, (depth + 1) as usize, s) {
                (s, Err(x)) => (s, Err(x)),
                (s, Ok(_)) => (s, Ok(Some(ScalarTypeView::Boolean))),
            },
        }
    } else {
        match solve_expr(left, None, inputs, catalog, (depth + 1) as usize, s) {
            (s, Err(x)) => (s, Err(x)),
            (s, Ok(lt)) => match solve_expr(right, None, inputs, catalog, (depth + 1) as usize, s) {
                (s, Err(x)) => (s, Err(x)),
                (s, Ok(rt)) => match constrained_by(parameter_index(left), rt, left.position, s) {
                    (s, Err(x)) => (s, Err(x)),
                    (s, Ok(_)) => match constrained_by(parameter_index(right), lt, right.position, s) {
                        (s, Err(x)) => (s, Err(x)),
                        (s, Ok(_)) => if operand_type(op, lt, rt, expected) is None {
                            (s, Ok(if arithmetic(op) { None } else { Some(ScalarTypeView::Boolean) }))
                        } else {
                            match solve_expr(left, operand_type(op, lt, rt, expected), inputs, catalog, (depth + 1) as usize, s) {
                                (s, Err(x)) => (s, Err(x)),
                                (s, Ok(_)) => match solve_expr(
                                    right,
                                    operand_type(op, lt, rt, expected),
                                    inputs,
                                    catalog,
                                    (depth + 1) as usize,
                                    s,
                                ) {
                                    (s, Err(x)) => (s, Err(x)),
                                    (s, Ok(_)) => (
                                        s,
                                        Ok(if arithmetic(op) { operand_type(op, lt, rt, expected) } else { Some(ScalarTypeView::Boolean) }),
                                    ),
                                },
                            }
                        },
                    },
                },
            },
        }
    }
}

/// The result is its outermost layer over the results of its parts.
pub proof fn unfold_solve_binary(
    left: ParsedExprView,
    op: BinaryOperator,
    right: ParsedExprView,
    expected: Option<ScalarTypeView>,
    inputs: Seq<InputColumnView>,
    catalog: CatalogView,
    depth: usize,
    s: SolverView,
)
    ensures
        solve_binary(left, op, right, expected, inputs, catalog, depth, s) == solve_binary_layer(
            left,
            op,
            right,
            expected,
            inputs,
            catalog,
            depth,
            s,
        ),
{
}

/// The type of an IN predicate over a list.
pub closed spec fn solve_membership(
    expr: ParsedExprView,
    list: Seq<ParsedExprView>,
    inputs: Seq<InputColumnView>,
    catalog: CatalogView,
    depth: usize,
    s: SolverView,
) -> (SolverView, Checked<Option<ScalarTypeView>>)
    decreases 64 - depth, 3int, 0int,
{
    if depth >= 64 {
        (s, Err(too_nested()))
    } else {
        match solve_expr(expr, None, inputs, catalog, (depth + 1) as usize, s) {
            (s, Err(x)) => (s, Err(x)),
            (s, Ok(t)) => match solve_meet(list, None, inputs, catalog, (depth + 1) as usize, 0, t, s) {
                (s, Err(x)) => (s, Err(x)),
                (s, Ok(met)) => if met is None {
                    (s, Ok(Some(ScalarTypeView::Boolean)))
                } else {
                    match solve_expr(expr, met, inputs, catalog, (depth + 1) as usize, s) {
                        (s, Err(x)) => (s, Err(x)),
                        (s, Ok(_)) => match solve_each(list, met, inputs, catalog, (depth + 1) as usize, 0, s) {
                            (s, Err(x)) => (s, Err(x)),
                            (s, Ok(_)) => (s, Ok(Some(ScalarTypeView::Boolean))),
                        },
                    }
                },
            },
        }
    }
}

/// One layer of [`solve_membership`], over the results of its parts.
pub open spec fn solve_membership_layer(
    expr: ParsedExprView,
    list: Seq<ParsedExprView>,
    inputs: Seq<InputColumnView>,
    catalog: CatalogView,
    depth: usize,
    s: SolverView,
) -> (SolverView, Checked<Option<ScalarTypeView>>) {
    if depth >= 64 {
        (s, Err(too_nested()))
    } else {
        match solve_expr(expr, None, inputs, catalog, (depth + 1) as usize, s) {
            (s, Err(x)) => (s, Err(x)),
            (s, Ok(t)) => match solve_meet(list, None, inputs, catalog, (depth + 1) as usize, 0, t, s) {
                (s, Err(x)) => (s, Err(x)),
                (s, Ok(met)) => if met is None {
                    (s, Ok(Some(ScalarTypeView::Boolean)))
                } else {
                    match solve_expr(expr, met, inputs, catalog, (depth + 1) as usize, s) {
                        (s, Err(x)) => (s, Err(x)),
                        (s, Ok(_)) => match solve_each(list, met, inputs, catalog, (depth + 1) as usize, 0, s) {
                            (s, Err(x)) => (s, Err(x)),
                            (s, Ok(_)) => (s, Ok(Some(ScalarTypeView::Boolean))),
                        },
                    }
                },
            },
        }
    }
}

/// The result is its outermost layer over the results of its parts.
pub proof fn unfold_solve_membership(
    expr: ParsedExprView,
    list: Seq<ParsedExprView>,
    inputs: Seq<InputColumnView>,
    catalog: CatalogView,
    depth: usize,
    s: SolverView,
)
    ensures
        solve_membership(expr, list, inputs, catalog, depth, s) == solve_membership_layer(expr, list, inputs, catalog, depth, s),
{
}

/// What an expression tells about parameter types, and its own type.
pub closed spec fn solve_expr(
    e: ParsedExprView,
    expected: Option<ScalarTypeView>,
    inputs: Seq<InputColumnView>,
    catalog: CatalogView,
    depth: usize,
    s: SolverView,
) -> (SolverView, Checked<Option<ScalarTypeView>>)
    decreases 64 - depth, 4int, 0int,
{
    if depth >= 64 {
        (s, Err(error("54001"@, "parameter type inference exceeded its expression depth limit"@)))
    } else {
        match e.kind {
            ParsedExprKindView::Column(name) => match column_in_inputs(name, inputs) {
                Err(x) => (s, Err(x)),
                Ok(k) => (s, Ok(Some(inputs[k as int].data_type))),
            },
            ParsedExprKindView::Literal(v) => (
                s,
                Ok(
                    match type_of_value(v) {
                        Some(t) => Some(t),
                        None => expected,
                    },
                ),
            ),
            ParsedExprKindView::Parameter(index) => match constrained_by(Some(index), expected, e.position, s) {
                (s, Err(x)) => (s, Err(x)),
                (s, Ok(_)) => (s, Ok(s.type_at(index))),
            },
            ParsedExprKindView::ResolvedParameter { index, data_type } => match constrained(index, data_type, e.position, s) {
                (s, Err(x)) => (s, Err(x)),
                (s, Ok(_)) => match constrained_by(Some(index), expected, e.position, s) {
                    (s, Err(x)) => (s, Err(x)),
                    (s, Ok(_)) => (s, Ok(Some(data_type))),
                },
            },
            ParsedExprKindView::ApplyValue { data_type, .. } => (s, Ok(Some(data_type))),
            ParsedExprKindView::Unary { op, expr } => if op == UnaryOperator::Not {
                match solve_expr(*expr, Some(ScalarTypeView::Boolean), inputs, catalog, (depth + 1) as usize, s) {
                    (s, Err(x)) => (s, Err(x)),
                    (s, Ok(_)) => (s, Ok(Some(ScalarTypeView::Boolean))),
                }
            } else {
                solve_expr(*expr, expected, inputs, catalog, (depth + 1) as usize, s)
            },
            ParsedExprKindView::Cast { expr, data_type, .. } => if parameter_index(*expr) is Some {
                match constrained(parameter_index(*expr)->0, data_type, expr.position, s) {
                    (s, Err(x)) => (s, Err(x)),
                    (s, Ok(_)) => match solve_expr(*expr, Some(data_type), inputs, catalog, (depth + 1) as usize, s) {
                        (s, Err(x)) => (s, Err(x)),
                        (s, Ok(_)) => (s, Ok(Some(data_type))),
                    },
                }
            } else {
                match solve_expr(*expr, None, inputs, catalog, (depth + 1) as usize, s) {
                    (s, Err(x)) => (s, Err(x)),
                    (s, Ok(_)) => (s, Ok(Some(data_type))),
                }
            },
            ParsedExprKindView::Array { elements, .. } => match solve_meet(
                elements,
                element_of(expected),
                inputs,
                catalog,
                (depth + 1) as usize,
                0,
                element_of(expected),
                s,
            ) {
                (s, Err(x)) => (s, Err(x)),
                (s, Ok(met)) => (s, Ok(array_of(met))),
            },
            ParsedExprKindView::Function { function, arguments } => solve_function(
                function,
                arguments,
                expected,
                inputs,
                catalog,
                depth,
                s,
            ),
            ParsedExprKindView::Binary { left, op, right } => solve_binary(*left, op, *right, expected, inputs, catalog, depth, s),
            ParsedExprKindView::InList { expr, list, .. } => solve_membership(*expr, list, inputs, catalog, depth, s),
            ParsedExprKindView::ScalarSubquery(subquery) => match solve_nested(*subquery, one(expected), inputs, catalog, depth, s) {
                (s, Err(x)) => (s, Err(x)),
                (s, Ok(output)) => (s, Ok(first_type(output))),
            },
            ParsedExprKindView::Exists { subquery, .. } => match solve_nested(*subquery, None, inputs, catalog, depth, s) {
                (s, Err(x)) => (s, Err(x)),
                (s, Ok(_)) => (s, Ok(Some(ScalarTypeView::Boolean))),
            },
            ParsedExprKindView::InSubquery { expr, subquery, .. } => solve_in(*expr, *subquery, inputs, catalog, depth, s),
            ParsedExprKindView::QuantifiedSubquery { left, subquery, .. } => solve_in(*left, *subquery, inputs, catalog, depth, s),
            ParsedExprKindView::RowSubquery { left, subquery, .. } => solve_row_query(left, *subquery, inputs, catalog, depth, s),
            ParsedExprKindView::Aggregate { function, argument, filter, .. } => match solve_option(
                filter,
                Some(ScalarTypeView::Boolean),
                inputs,
                catalog,
                (depth + 1) as usize,
                s,
            ) {
                (s, Err(x)) => (s, Err(x)),
                (s, Ok(_)) => match solve_option(argument, None, inputs, catalog, (depth + 1) as usize, s) {
                    (s, Err(x)) => (s, Err(x)),
                    (s, Ok(t)) => (s, Ok(total_type(function, t))),
                },
            },
            ParsedExprKindView::Window { call, spec } => solve_window(*call, Some(*spec), inputs, catalog, depth, s),
            ParsedExprKindView::NamedWindow { call, .. } => solve_window(*call, None, inputs, catalog, depth, s),
            ParsedExprKindView::WindowValue { .. } => (s, Ok(None)),
        }
    }
}

/// One layer of [`solve_expr`], over the results of its parts.
pub open spec fn solve_expr_layer(
    e: ParsedExprView,
    expected: Option<ScalarTypeView>,
    inputs: Seq<InputColumnView>,
    catalog: CatalogView,
    depth: usize,
    s: SolverView,
) -> (SolverView, Checked<Option<ScalarTypeView>>) {
    if depth >= 64 {
        (s, Err(error("54001"@, "parameter type inference exceeded its expression depth limit"@)))
    } else {
        match e.kind {
            ParsedExprKindView::Column(name) => match column_in_inputs(name, inputs) {
                Err(x) => (s, Err(x)),
                Ok(k) => (s, Ok(Some(inputs[k as int].data_type))),
            },
            ParsedExprKindView::Literal(v) => (
                s,
                Ok(
                    match type_of_value(v) {
                        Some(t) => Some(t),
                        None => expected,
                    },
                ),
            ),
            ParsedExprKindView::Parameter(index) => match constrained_by(Some(index), expected, e.position, s) {
                (s, Err(x)) => (s, Err(x)),
                (s, Ok(_)) => (s, Ok(s.type_at(index))),
            },
            ParsedExprKindView::ResolvedParameter { index, data_type } => match constrained(index, data_type, e.position, s) {
                (s, Err(x)) => (s, Err(x)),
                (s, Ok(_)) => match constrained_by(Some(index), expected, e.position, s) {
                    (s, Err(x)) => (s, Err(x)),
                    (s, Ok(_)) => (s, Ok(Some(data_type))),
                },
            },
            ParsedExprKindView::ApplyValue { data_type, .. } => (s, Ok(Some(data_type))),
            ParsedExprKindView::Unary { op, expr } => if op == UnaryOperator::Not {
                match solve_expr(*expr, Some(ScalarTypeView::Boolean), inputs, catalog, (depth + 1) as usize, s) {
                    (s, Err(x)) => (s, Err(x)),
                    (s, Ok(_)) => (s, Ok(Some(ScalarTypeView::Boolean))),
                }
            } else {
                solve_expr(*expr, expected, inputs, catalog, (depth + 1) as usize, s)
            },
            ParsedExprKindView::Cast { expr, data_type, .. } => if parameter_index(*expr) is Some {
                match constrained(parameter_index(*expr)->0, data_type, expr.position, s) {
                    (s, Err(x)) => (s, Err(x)),
                    (s, Ok(_)) => match solve_expr(*expr, Some(data_type), inputs, catalog, (depth + 1) as usize, s) {
                        (s, Err(x)) => (s, Err(x)),
                        (s, Ok(_)) => (s, Ok(Some(data_type))),
                    },
                }
            } else {
                match solve_expr(*expr, None, inputs, catalog, (depth + 1) as usize, s) {
                    (s, Err(x)) => (s, Err(x)),
                    (s, Ok(_)) => (s, Ok(Some(data_type))),
                }
            },
            ParsedExprKindView::Array { elements, .. } => match solve_meet(
                elements,
                element_of(expected),
                inputs,
                catalog,
                (depth + 1) as usize,
                0,
                element_of(expected),
                s,
            ) {
                (s, Err(x)) => (s, Err(x)),
                (s, Ok(met)) => (s, Ok(array_of(met))),
            },
            ParsedExprKindView::Function { function, arguments } => solve_function(
                function,
                arguments,
                expected,
                inputs,
                catalog,
                depth,
                s,
            ),
            ParsedExprKindView::Binary { left, op, right } => solve_binary(*left, op, *right, expected, inputs, catalog, depth, s),
            ParsedExprKindView::InList { expr, list, .. } => solve_membership(*expr, list, inputs, catalog, depth, s),
            ParsedExprKindView::ScalarSubquery(subquery) => match solve_nested(*subquery, one(expected), inputs, catalog, depth, s) {
                (s, Err(x)) => (s, Err(x)),
                (s, Ok(output)) => (s, Ok(first_type(output))),
            },
            ParsedExprKindView::Exists { subquery, .. } => match solve_nested(*subquery, None, inputs, catalog, depth, s) {
                (s, Err(x)) => (s, Err(x)),
                (s, Ok(_)) => (s, Ok(Some(ScalarTypeView::Boolean))),
            },
            ParsedExprKindView::InSubquery { expr, subquery, .. } => solve_in(*expr, *subquery, inputs, catalog, depth, s),
            ParsedExprKindView::QuantifiedSubquery { left, subquery, .. } => solve_in(*left, *subquery, inputs, catalog, depth, s),
            ParsedExprKindView::RowSubquery { left, subquery, .. } => solve_row_query(left, *subquery, inputs, catalog, depth, s),
            ParsedExprKindView::Aggregate { function, argument, filter, .. } => match solve_option(
                filter,
                Some(ScalarTypeView::Boolean),
                inputs,
                catalog,
                (depth + 1) as usize,
                s,
            ) {
                (s, Err(x)) => (s, Err(x)),
                (s, Ok(_)) => match solve_option(argument, None, inputs, catalog, (depth + 1) as usize, s) {
                    (s, Err(x)) => (s, Err(x)),
                    (s, Ok(t)) => (s, Ok(total_type(function, t))),
                },
            },
            ParsedExprKindView::Window { call, spec } => solve_window(*call, Some(*spec), inputs, catalog, depth, s),
            ParsedExprKindView::NamedWindow { call, .. } => solve_window(*call, None, inputs, catalog, depth, s),
            ParsedExprKindView::WindowValue { .. } => (s, Ok(None)),
        }
    }
}

/// The result is its outermost layer over the results of its parts.
pub proof fn unfold_solve_expr(
    e: ParsedExprView,
    expected: Option<ScalarTypeView>,
    inputs: Seq<InputColumnView>,
    catalog: CatalogView,
    depth: usize,
    s: SolverView,
)
    ensures
        solve_expr(e, expected, inputs, catalog, depth, s) == solve_expr_layer(e, expected, inputs, catalog, depth, s),
{
}

/// The type of a comparison with a subquery.
pub closed spec fn solve_in(
    e: ParsedExprView,
    subquery: ParsedStatementView,
    inputs: Seq<InputColumnView>,
    catalog: CatalogView,
    depth: usize,
    s: SolverView,
) -> (SolverView, Checked<Option<ScalarTypeView>>)
    decreases 64 - depth, 3int, 0int,
{
    if depth >= 64 { (s, Err(too_nested())) } else { match solve_expr(e, None, inputs, catalog, (depth + 1) as usize, s) {
            (s, Err(x)) => (s, Err(x)),
            (s, Ok(left)) => match solve_nested(subquery, one(left), inputs, catalog, depth, s) {
                (s, Err(x)) => (s, Err(x)),
                (s, Ok(output)) => if meet(left, first_type(output)) is None {
                    (s, Ok(Some(ScalarTypeView::Boolean)))
                } else {
                    match solve_expr(e, meet(left, first_type(output)), inputs, catalog, (depth + 1) as usize, s) {
                        (s, Err(x)) => (s, Err(x)),
                        (s, Ok(_)) => match solve_nested(subquery, one(meet(left, first_type(output))), inputs, catalog, depth, s) {
                            (s, Err(x)) => (s, Err(x)),
                            (s, Ok(_)) => (s, Ok(Some(ScalarTypeView::Boolean))),
                        },
                    }
                },
            },
    } }
}

/// One layer of [`solve_in`], over the results of its parts.
pub open spec fn solve_in_layer(
    e: ParsedExprView,
    subquery: ParsedStatementView,
    inputs: Seq<InputColumnView>,
    catalog: CatalogView,
    depth: usize,
    s: SolverView,
) -> (SolverView, Checked<Option<ScalarTypeView>>) {
    if depth >= 64 { (s, Err(too_nested())) } else { match solve_expr(e, None, inputs, catalog, (depth + 1) as usize, s) {
            (s, Err(x)) => (s, Err(x)),
            (s, Ok(left)) => match solve_nested(subquery, one(left), inputs, catalog, depth, s) {
                (s, Err(x)) => (s, Err(x)),
                (s, Ok(output)) => if meet(left, first_type(output)) is None {
                    (s, Ok(Some(ScalarTypeView::Boolean)))
                } else {
                    match solve_expr(e, meet(left, first_type(output)), inputs, catalog, (depth + 1) as usize, s) {
                        (s, Err(x)) => (s, Err(x)),
                        (s, Ok(_)) => match solve_nested(subquery, one(meet(left, first_type(output))), inputs, catalog, depth, s) {
                            (s, Err(x)) => (s, Err(x)),
                            (s, Ok(_)) => (s, Ok(Some(ScalarTypeView::Boolean))),
                        },
                    }
                },
            },
    } }
}

/// The result is its outermost layer over the results of its parts.
pub proof fn unfold_solve_in(
    e: ParsedExprView,
    subquery: ParsedStatementView,
    inputs: Seq<InputColumnView>,
    catalog: CatalogView,
    depth: usize,
    s: SolverView,
)
    ensures
        solve_in(e, subquery, inputs, catalog, depth, s) == solve_in_layer(e, subquery, inputs, catalog, depth, s),
{
}

/// The type of a comparison of a row with a subquery.
pub closed spec fn solve_row_query(
    left: Seq<ParsedExprView>,
    subquery: ParsedStatementView,
    inputs: Seq<InputColumnView>,
    catalog: CatalogView,
    depth: usize,
    s: SolverView,
) -> (SolverView, Checked<Option<ScalarTypeView>>)
    decreases 64 - depth, 3int, 0int,
{
    if depth >= 64 { (s, Err(too_nested())) } else { match solve_types(left, inputs, catalog, (depth + 1) as usize, 0, Seq::empty(), s) {
            (s, Err(x)) => (s, Err(x)),
            (s, Ok(types)) => match solve_nested(subquery, Some(types), inputs, catalog, depth, s) {
                (s, Err(x)) => (s, Err(x)),
                (s, Ok(output)) => match solve_row(left, output, inputs, catalog, (depth + 1) as usize, 0, s) {
                    (s, Err(x)) => (s, Err(x)),
                    (s, Ok(_)) => (s, Ok(Some(ScalarTypeView::Boolean))),
                },
            },
    } }
}

/// One layer of [`solve_row_query`], over the results of its parts.
pub open spec fn solve_row_query_layer(
    left: Seq<ParsedExprView>,
    subquery: ParsedStatementView,
    inputs: Seq<InputColumnView>,
    catalog: CatalogView,
    depth: usize,
    s: SolverView,
) -> (SolverView, Checked<Option<ScalarTypeView>>) {
    if depth >= 64 { (s, Err(too_nested())) } else { match solve_types(left, inputs, catalog, (depth + 1) as usize, 0, Seq::empty(), s) {
            (s, Err(x)) => (s, Err(x)),
            (s, Ok(types)) => match solve_nested(subquery, Some(types), inputs, catalog, depth, s) {
                (s, Err(x)) => (s, Err(x)),
                (s, Ok(output)) => match solve_row(left, output, inputs, catalog, (depth + 1) as usize, 0, s) {
                    (s, Err(x)) => (s, Err(x)),
                    (s, Ok(_)) => (s, Ok(Some(ScalarTypeView::Boolean))),
                },
            },
    } }
}

/// The result is its outermost layer over the results of its parts.
pub proof fn unfold_solve_row_query(
    left: Seq<ParsedExprView>,
    subquery: ParsedStatementView,
    inputs: Seq<InputColumnView>,
    catalog: CatalogView,
    depth: usize,
    s: SolverView,
)
    ensures
        solve_row_query(left, subquery, inputs, catalog, depth, s) == solve_row_query_layer(left, subquery, inputs, catalog, depth, s),
{
}

/// The output types of a select list, from an item on.
pub closed spec fn solve_items(
    l: Seq<ParsedProjectionView>,
    expected: Option<Seq<Option<ScalarTypeView>>>,
    inputs: Seq<InputColumnView>,
    catalog: CatalogView,
    depth: usize,
    i: int,
    done: Seq<Option<ScalarTypeView>>,
    s: SolverView,
) -> (SolverView, Checked<Seq<Option<ScalarTypeView>>>)
    decreases 64 - depth, 5int, l.len() - i,
{
    if i < 0 || i >= l.len() {
        (s, Ok(done))
    } else {
        match l[i] {
            ParsedProjectionView::Wildcard => solve_items(l, expected, inputs, catalog, depth, i + 1, with_local_types(inputs, 0, done), s),
            ParsedProjectionView::Expression { expr, .. } => match solve_expr(
                expr,
                expected_at(expected, done.len() as int),
                inputs,
                catalog,
                depth,
                s,
            ) {
                (s, Err(x)) => (s, Err(x)),
                (s, Ok(t)) => solve_items(l, expected, inputs, catalog, depth, i + 1, done.push(t), s),
            },
        }
    }
}

/// One layer of [`solve_items`], over the results of its parts.
pub open spec fn solve_items_layer(
    l: Seq<ParsedProjectionView>,
    expected: Option<Seq<Option<ScalarTypeView>>>,
    inputs: Seq<InputColumnView>,
    catalog: CatalogView,
    depth: usize,
    i: int,
    done: Seq<Option<ScalarTypeView>>,
    s: SolverView,
) -> (SolverView, Checked<Seq<Option<ScalarTypeView>>>) {
    if i < 0 || i >= l.len() {
        (s, Ok(done))
    } else {
        match l[i] {
            ParsedProjectionView::Wildcard => solve_items(l, expected, inputs, catalog, depth, i + 1, with_local_types(inputs, 0, done), s),
            ParsedProjectionView::Expression { expr, .. } => match solve_expr(
                expr,
                expected_at(expected, done.len() as int),
                inputs,
                catalog,
                depth,
                s,
            ) {
                (s, Err(x)) => (s, Err(x)),
                (s, Ok(t)) => solve_items(l, expected, inputs, catalog, depth, i + 1, done.push(t), s),
            },
        }
    }
}

/// The result is its outermost layer over the results of its parts.
pub proof fn unfold_solve_items(
    l: Seq<ParsedProjectionView>,
    expected: Option<Seq<Option<ScalarTypeView>>>,
    inputs: Seq<InputColumnView>,
    catalog: CatalogView,
    depth: usize,
    i: int,
    done: Seq<Option<ScalarTypeView>>,
    s: SolverView,
)
    ensures
        solve_items(l, expected, inputs, catalog, depth, i, done, s) == solve_items_layer(l, expected, inputs, catalog, depth, i, done, s),
{
}

/// What assignments tell, from one of them on.
pub closed spec fn solve_assignments(
    l: Seq<(ParsedIdentifierView, ParsedExprView)>,
    table: TableDefinitionView,
    inputs: Seq<InputColumnView>,
    catalog: CatalogView,
    depth: usize,
    i: int,
    s: SolverView,
) -> (SolverView, Checked<()>)
    decreases 64 - depth, 5int, l.len() - i,
{
    if i < 0 || i >= l.len() {
        (s, Ok(()))
    } else {
        match find_column_index(table.columns, l[i].0.name, 0) {
            None => solve_assignments(l, table, inputs, catalog, depth, i + 1, s),
            Some(k) => match solve_expr(l[i].1, Some(table.columns[k as int].data_type), inputs, catalog, depth, s) {
                (s, Err(x)) => (s, Err(x)),
                (s, Ok(_)) => solve_assignments(l, table, inputs, catalog, depth, i + 1, s),
            },
        }
    }
}

/// One layer of [`solve_assignments`], over the results of its parts.
pub open spec fn solve_assignments_layer(
    l: Seq<(ParsedIdentifierView, ParsedExprView)>,
    table: TableDefinitionView,
    inputs: Seq<InputColumnView>,
    catalog: CatalogView,
    depth: usize,
    i: int,
    s: SolverView,
) -> (SolverView, Checked<()>) {
    if i < 0 || i >= l.len() {
        (s, Ok(()))
    } else {
        match find_column_index(table.columns, l[i].0.name, 0) {
            None => solve_assignments(l, table, inputs, catalog, depth, i + 1, s),
            Some(k) => match solve_expr(l[i].1, Some(table.columns[k as int].data_type), inputs, catalog, depth, s) {
                (s, Err(x)) => (s, Err(x)),
                (s, Ok(_)) => solve_assignments(l, table, inputs, catalog, depth, i + 1, s),
            },
        }
    }
}

/// The result is its outermost layer over the results of its parts.
pub proof fn unfold_solve_assignments(
    l: Seq<(ParsedIdentifierView, ParsedExprView)>,
    table: TableDefinitionView,
    inputs: Seq<InputColumnView>,
    catalog: CatalogView,
    depth: usize,
    i: int,
    s: SolverView,
)
    ensures
        solve_assignments(l, table, inputs, catalog, depth, i, s) == solve_assignments_layer(l, table, inputs, catalog, depth, i, s),
{
}

/// What the values of a row tell, from one of them on.
pub closed spec fn solve_values(
    l: Seq<ParsedExprView>,
    indexes: Seq<usize>,
    table: TableDefinitionView,
    inputs: Seq<InputColumnView>,
    catalog: CatalogView,
    depth: usize,
    i: int,
    s: SolverView,
) -> (SolverView, Checked<()>)
    decreases 64 - depth, 5int, l.len() - i,
{
    if i < 0 || i >= l.len() || i >= indexes.len() {
        (s, Ok(()))
    } else {
        match solve_expr(l[i], Some(table.columns[indexes[i] as int].data_type), inputs, catalog, depth, s) {
            (s, Err(x)) => (s, Err(x)),
            (s, Ok(_)) => solve_values(l, indexes, table, inputs, catalog, depth, i + 1, s),
        }
    }
}

/// One layer of [`solve_values`], over the results of its parts.
pub open spec fn solve_values_layer(
    l: Seq<ParsedExprView>,
    indexes: Seq<usize>,
    table: TableDefinitionView,
    inputs: Seq<InputColumnView>,
    catalog: CatalogView,
    depth: usize,
    i: int,
    s: SolverView,
) -> (SolverView, Checked<()>) {
    if i < 0 || i >= l.len() || i >= indexes.len() {
        (s, Ok(()))
    } else {
        match solve_expr(l[i], Some(table.columns[indexes[i] as int].data_type), inputs, catalog, depth, s) {
            (s, Err(x)) => (s, Err(x)),
            (s, Ok(_)) => solve_values(l, indexes, table, inputs, catalog, depth, i + 1, s),
        }
    }
}

/// The result is its outermost layer over the results of its parts.
pub proof fn unfold_solve_values(
    l: Seq<ParsedExprView>,
    indexes: Seq<usize>,
    table: TableDefinitionView,
    inputs: Seq<InputColumnView>,
    catalog: CatalogView,
    depth: usize,
    i: int,
    s: SolverView,
)
    ensures
        solve_values(l, indexes, table, inputs, catalog, depth, i, s) == solve_values_layer(
            l,
            indexes,
            table,
            inputs,
            catalog,
            depth,
            i,
            s,
        ),
{
}

/// What rows tell, from one of them on.
pub closed spec fn solve_rows(
    l: Seq<Seq<ParsedExprView>>,
    indexes: Seq<usize>,
    table: TableDefinitionView,
    inputs: Seq<InputColumnView>,
    catalog: CatalogView,
    depth: usize,
    i: int,
    s: SolverView,
) -> (SolverView, Checked<()>)
    decreases 64 - depth, 6int, l.len() - i,
{
    if i < 0 || i >= l.len() {
        (s, Ok(()))
    } else {
        match solve_values(l[i], indexes, table, inputs, catalog, depth, 0, s) {
            (s, Err(x)) => (s, Err(x)),
            (s, Ok(_)) => solve_rows(l, indexes, table, inputs, catalog, depth, i + 1, s),
        }
    }
}

/// One layer of [`solve_rows`], over the results of its parts.
pub open spec fn solve_rows_layer(
    l: Seq<Seq<ParsedExprView>>,
    indexes: Seq<usize>,
    table: TableDefinitionView,
    inputs: Seq<InputColumnView>,
    catalog: CatalogView,
    depth: usize,
    i: int,
    s: SolverView,
) -> (SolverView, Checked<()>) {
    if i < 0 || i >= l.len() {
        (s, Ok(()))
    } else {
        match solve_values(l[i], indexes, table, inputs, catalog, depth, 0, s) {
            (s, Err(x)) => (s, Err(x)),
            (s, Ok(_)) => solve_rows(l, indexes, table, inputs, catalog, depth, i + 1, s),
        }
    }
}

/// The result is its outermost layer over the results of its parts.
pub proof fn unfold_solve_rows(
    l: Seq<Seq<ParsedExprView>>,
    indexes: Seq<usize>,
    table: TableDefinitionView,
    inputs: Seq<InputColumnView>,
    catalog: CatalogView,
    depth: usize,
    i: int,
    s: SolverView,
)
    ensures
        solve_rows(l, indexes, table, inputs, catalog, depth, i, s) == solve_rows_layer(l, indexes, table, inputs, catalog, depth, i, s),
{
}

/// What an ON CONFLICT clause tells.
pub closed spec fn solve_conflict(
    on: ParsedOnConflictView,
    table: TableDefinitionView,
    catalog: CatalogView,
    depth: usize,
    s: SolverView,
) -> (SolverView, Checked<()>)
    decreases 64 - depth, 7int, 0int,
{
    match on.action {
        ParsedConflictActionView::DoNothing => (s, Ok(())),
        ParsedConflictActionView::DoUpdate { assignments, filter } => {
            let inputs = conflict_inputs(table);
            match solve_assignments(assignments, table, inputs, catalog, depth, 0, s) {
                (s, Err(x)) => (s, Err(x)),
                (s, Ok(_)) => solve_some(filter, Some(ScalarTypeView::Boolean), inputs, catalog, depth, s),
            }
        },
    }
}

/// One layer of [`solve_conflict`], over the results of its parts.
pub open spec fn solve_conflict_layer(
    on: ParsedOnConflictView,
    table: TableDefinitionView,
    catalog: CatalogView,
    depth: usize,
    s: SolverView,
) -> (SolverView, Checked<()>) {
    match on.action {
        ParsedConflictActionView::DoNothing => (s, Ok(())),
        ParsedConflictActionView::DoUpdate { assignments, filter } => {
            let inputs = conflict_inputs(table);
            match solve_assignments(assignments, table, inputs, catalog, depth, 0, s) {
                (s, Err(x)) => (s, Err(x)),
                (s, Ok(_)) => solve_some(filter, Some(ScalarTypeView::Boolean), inputs, catalog, depth, s),
            }
        },
    }
}

/// The result is its outermost layer over the results of its parts.
pub proof fn unfold_solve_conflict(on: ParsedOnConflictView, table: TableDefinitionView, catalog: CatalogView, depth: usize, s: SolverView)
    ensures
        solve_conflict(on, table, catalog, depth, s) == solve_conflict_layer(on, table, catalog, depth, s),
{
}

/// What MERGE clauses tell, from one of them on.
pub closed spec fn solve_clauses(
    l: Seq<ParsedMergeClauseView>,
    table: TableDefinitionView,
    inputs: Seq<InputColumnView>,
    catalog: CatalogView,
    depth: usize,
    i: int,
    s: SolverView,
) -> (SolverView, Checked<()>)
    decreases 64 - depth, 7int, l.len() - i,
{
    if i < 0 || i >= l.len() {
        (s, Ok(()))
    } else {
        match solve_some(l[i].predicate, Some(ScalarTypeView::Boolean), inputs, catalog, depth, s) {
            (s, Err(x)) => (s, Err(x)),
            (s, Ok(_)) => match (match l[i].action {
                    ParsedMergeActionView::Update { assignments } => solve_assignments(assignments, table, inputs, catalog, depth, 0, s),
                    ParsedMergeActionView::Insert { columns, values } => match target_places(columns, table) {
                        Err(x) => (s, Err(x)),
                        Ok(indexes) => solve_values(values, indexes, table, inputs, catalog, depth, 0, s),
                    },
                    _ => (s, Ok(())),
            }) {
                (s, Err(x)) => (s, Err(x)),
                (s, Ok(_)) => solve_clauses(l, table, inputs, catalog, depth, i + 1, s),
            },
        }
    }
}

/// One layer of [`solve_clauses`], over the results of its parts.
pub open spec fn solve_clauses_layer(
    l: Seq<ParsedMergeClauseView>,
    table: TableDefinitionView,
    inputs: Seq<InputColumnView>,
    catalog: CatalogView,
    depth: usize,
    i: int,
    s: SolverView,
) -> (SolverView, Checked<()>) {
    if i < 0 || i >= l.len() {
        (s, Ok(()))
    } else {
        match solve_some(l[i].predicate, Some(ScalarTypeView::Boolean), inputs, catalog, depth, s) {
            (s, Err(x)) => (s, Err(x)),
            (s, Ok(_)) => match (match l[i].action {
                    ParsedMergeActionView::Update { assignments } => solve_assignments(assignments, table, inputs, catalog, depth, 0, s),
                    ParsedMergeActionView::Insert { columns, values } => match target_places(columns, table) {
                        Err(x) => (s, Err(x)),
                        Ok(indexes) => solve_values(values, indexes, table, inputs, catalog, depth, 0, s),
                    },
                    _ => (s, Ok(())),
            }) {
                (s, Err(x)) => (s, Err(x)),
                (s, Ok(_)) => solve_clauses(l, table, inputs, catalog, depth, i + 1, s),
            },
        }
    }
}

/// The result is its outermost layer over the results of its parts.
pub proof fn unfold_solve_clauses(
    l: Seq<ParsedMergeClauseView>,
    table: TableDefinitionView,
    inputs: Seq<InputColumnView>,
    catalog: CatalogView,
    depth: usize,
    i: int,
    s: SolverView,
)
    ensures
        solve_clauses(l, table, inputs, catalog, depth, i, s) == solve_clauses_layer(l, table, inputs, catalog, depth, i, s),
{
}

/// What a MERGE tells, and its output types.
pub closed spec fn solve_merge(
    m: ParsedMergeView,
    expected: Option<Seq<Option<ScalarTypeView>>>,
    catalog: CatalogView,
    depth: usize,
    s: SolverView,
) -> (SolverView, Checked<Seq<Option<ScalarTypeView>>>)
    decreases 64 - depth, 8int, 0int,
{
    match named_table(m.target.name, catalog) {
        Err(x) => (s, Err(x)),
        Ok(target) => match named_table(m.source.name, catalog) {
            Err(x) => (s, Err(x)),
            Ok(source) => {
                let inputs = merge_inputs(m, target, source);
                match solve_expr(m.on, Some(ScalarTypeView::Boolean), inputs, catalog, depth, s) {
                    (s, Err(x)) => (s, Err(x)),
                    (s, Ok(_)) => match solve_clauses(m.clauses, target, inputs, catalog, depth, 0, s) {
                        (s, Err(x)) => (s, Err(x)),
                        (s, Ok(_)) => solve_items(
                            m.returning,
                            expected,
                            with_columns(target.name, target.columns, false, 0, Seq::empty()),
                            catalog,
                            depth,
                            0,
                            Seq::empty(),
                            s,
                        ),
                    },
                }
            },
        },
    }
}

/// One layer of [`solve_merge`], over the results of its parts.
pub open spec fn solve_merge_layer(
    m: ParsedMergeView,
    expected: Option<Seq<Option<ScalarTypeView>>>,
    catalog: CatalogView,
    depth: usize,
    s: SolverView,
) -> (SolverView, Checked<Seq<Option<ScalarTypeView>>>) {
    match named_table(m.target.name, catalog) {
        Err(x) => (s, Err(x)),
        Ok(target) => match named_table(m.source.name, catalog) {
            Err(x) => (s, Err(x)),
            Ok(source) => {
                let inputs = merge_inputs(m, target, source);
                match solve_expr(m.on, Some(ScalarTypeView::Boolean), inputs, catalog, depth, s) {
                    (s, Err(x)) => (s, Err(x)),
                    (s, Ok(_)) => match solve_clauses(m.clauses, target, inputs, catalog, depth, 0, s) {
                        (s, Err(x)) => (s, Err(x)),
                        (s, Ok(_)) => solve_items(
                            m.returning,
                            expected,
                            with_columns(target.name, target.columns, false, 0, Seq::empty()),
                            catalog,
                            depth,
                            0,
                            Seq::empty(),
                            s,
                        ),
                    },
                }
            },
        },
    }
}

/// The result is its outermost layer over the results of its parts.
pub proof fn unfold_solve_merge(
    m: ParsedMergeView,
    expected: Option<Seq<Option<ScalarTypeView>>>,
    catalog: CatalogView,
    depth: usize,
    s: SolverView,
)
    ensures
        solve_merge(m, expected, catalog, depth, s) == solve_merge_layer(m, expected, catalog, depth, s),
{
}

/// What the arguments of a routine call tell, from one of them on.
pub closed spec fn solve_arguments(
    l: Seq<ParsedExprView>,
    routines: Seq<RoutineDefinitionView>,
    name: Seq<char>,
    catalog: CatalogView,
    depth: usize,
    i: int,
    s: SolverView,
) -> (SolverView, Checked<()>)
    decreases 64 - depth, 5int, l.len() - i,
{
    if i < 0 || i >= l.len() {
        (s, Ok(()))
    } else {
        match solve_expr(l[i], agreed_type(routines, name, l.len(), i, 0, None), Seq::empty(), catalog, depth, s) {
            (s, Err(x)) => (s, Err(x)),
            (s, Ok(_)) => solve_arguments(l, routines, name, catalog, depth, i + 1, s),
        }
    }
}

/// One layer of [`solve_arguments`], over the results of its parts.
pub open spec fn solve_arguments_layer(
    l: Seq<ParsedExprView>,
    routines: Seq<RoutineDefinitionView>,
    name: Seq<char>,
    catalog: CatalogView,
    depth: usize,
    i: int,
    s: SolverView,
) -> (SolverView, Checked<()>) {
    if i < 0 || i >= l.len() {
        (s, Ok(()))
    } else {
        match solve_expr(l[i], agreed_type(routines, name, l.len(), i, 0, None), Seq::empty(), catalog, depth, s) {
            (s, Err(x)) => (s, Err(x)),
            (s, Ok(_)) => solve_arguments(l, routines, name, catalog, depth, i + 1, s),
        }
    }
}

/// The result is its outermost layer over the results of its parts.
pub proof fn unfold_solve_arguments(
    l: Seq<ParsedExprView>,
    routines: Seq<RoutineDefinitionView>,
    name: Seq<char>,
    catalog: CatalogView,
    depth: usize,
    i: int,
    s: SolverView,
)
    ensures
        solve_arguments(l, routines, name, catalog, depth, i, s) == solve_arguments_layer(l, routines, name, catalog, depth, i, s),
{
}

/// What joins tell, and the columns up to them, from one of them on.
pub closed spec fn solve_joins(
    l: Seq<ParsedJoinView>,
    outer: Seq<InputColumnView>,
    catalog: CatalogView,
    depth: usize,
    i: int,
    local: Seq<InputColumnView>,
    s: SolverView,
) -> (SolverView, Checked<Seq<InputColumnView>>)
    decreases 64 - depth, 7int, l.len() - i,
{
    if i < 0 || i >= l.len() {
        (s, Ok(local))
    } else {
        match solve_source(l[i].source, l[i].kind == JoinKind::Left, outer, catalog, depth, local, s) {
            (s, Err(x)) => (s, Err(x)),
            (s, Ok(local)) => match with_outer(outer, 0, local) {
                Err(x) => (s, Err(x)),
                Ok(inputs) => match solve_expr(l[i].on, Some(ScalarTypeView::Boolean), inputs, catalog, depth, s) {
                    (s, Err(x)) => (s, Err(x)),
                    (s, Ok(_)) => solve_joins(l, outer, catalog, depth, i + 1, local, s),
                },
            },
        }
    }
}

/// One layer of [`solve_joins`], over the results of its parts.
pub open spec fn solve_joins_layer(
    l: Seq<ParsedJoinView>,
    outer: Seq<InputColumnView>,
    catalog: CatalogView,
    depth: usize,
    i: int,
    local: Seq<InputColumnView>,
    s: SolverView,
) -> (SolverView, Checked<Seq<InputColumnView>>) {
    if i < 0 || i >= l.len() {
        (s, Ok(local))
    } else {
        match solve_source(l[i].source, l[i].kind == JoinKind::Left, outer, catalog, depth, local, s) {
            (s, Err(x)) => (s, Err(x)),
            (s, Ok(local)) => match with_outer(outer, 0, local) {
                Err(x) => (s, Err(x)),
                Ok(inputs) => match solve_expr(l[i].on, Some(ScalarTypeView::Boolean), inputs, catalog, depth, s) {
                    (s, Err(x)) => (s, Err(x)),
                    (s, Ok(_)) => solve_joins(l, outer, catalog, depth, i + 1, local, s),
                },
            },
        }
    }
}

/// The result is its outermost layer over the results of its parts.
pub proof fn unfold_solve_joins(
    l: Seq<ParsedJoinView>,
    outer: Seq<InputColumnView>,
    catalog: CatalogView,
    depth: usize,
    i: int,
    local: Seq<InputColumnView>,
    s: SolverView,
)
    ensures
        solve_joins(l, outer, catalog, depth, i, local, s) == solve_joins_layer(l, outer, catalog, depth, i, local, s),
{
}

/// What a source of a FROM clause tells, and the columns up to it.
pub closed spec fn solve_source(
    source: ParsedJoinSourceView,
    nullable: bool,
    outer: Seq<InputColumnView>,
    catalog: CatalogView,
    depth: usize,
    local: Seq<InputColumnView>,
    s: SolverView,
) -> (SolverView, Checked<Seq<InputColumnView>>)
    decreases 64 - depth, 6int, 0int,
{
    match source {
        ParsedJoinSourceView::Table(t) => (s, relation_inputs(t.name, alias_name(t.alias), catalog, nullable, local)),
        ParsedJoinSourceView::Derived { lateral, query, alias, columns } => match (if lateral {
                with_outer(outer, 0, local)
            } else {
                Ok(Seq::empty())
        }) {
            Err(x) => (s, Err(x)),
            Ok(visible) => match solve_nested(*query, None, visible, catalog, depth, s) {
                (s, Err(x)) => (s, Err(x)),
                (s, Ok(_)) => (
                    s,
                    Ok(
                        match tried_schema(*query, catalog, visible, depth, s.types) {
                            Some(schema) => with_derived(alias.name, schema.fields, columns, nullable, 0, local),
                            None => local,
                        },
                    ),
                ),
            },
        },
    }
}

/// One layer of [`solve_source`], over the results of its parts.
pub open spec fn solve_source_layer(
    source: ParsedJoinSourceView,
    nullable: bool,
    outer: Seq<InputColumnView>,
    catalog: CatalogView,
    depth: usize,
    local: Seq<InputColumnView>,
    s: SolverView,
) -> (SolverView, Checked<Seq<InputColumnView>>) {
    match source {
        ParsedJoinSourceView::Table(t) => (s, relation_inputs(t.name, alias_name(t.alias), catalog, nullable, local)),
        ParsedJoinSourceView::Derived { lateral, query, alias, columns } => match (if lateral {
                with_outer(outer, 0, local)
            } else {
                Ok(Seq::empty())
        }) {
            Err(x) => (s, Err(x)),
            Ok(visible) => match solve_nested(*query, None, visible, catalog, depth, s) {
                (s, Err(x)) => (s, Err(x)),
                (s, Ok(_)) => (
                    s,
                    Ok(
                        match tried_schema(*query, catalog, visible, depth, s.types) {
                            Some(schema) => with_derived(alias.name, schema.fields, columns, nullable, 0, local),
                            None => local,
                        },
                    ),
                ),
            },
        },
    }
}

/// The result is its outermost layer over the results of its parts.
pub proof fn unfold_solve_source(
    source: ParsedJoinSourceView,
    nullable: bool,
    outer: Seq<InputColumnView>,
    catalog: CatalogView,
    depth: usize,
    local: Seq<InputColumnView>,
    s: SolverView,
)
    ensures
        solve_source(source, nullable, outer, catalog, depth, local, s) == solve_source_layer(
            source,
            nullable,
            outer,
            catalog,
            depth,
            local,
            s,
        ),
{
}

/// What a query with joins tells, and its output types.
pub closed spec fn solve_advanced(
    p: SelectPartsView,
    outer: Seq<InputColumnView>,
    expected: Option<Seq<Option<ScalarTypeView>>>,
    catalog: CatalogView,
    depth: usize,
    s: SolverView,
) -> (SolverView, Checked<Seq<Option<ScalarTypeView>>>)
    decreases 64 - depth, 8int, 0int,
{
    match relation_inputs(p.table.name, alias_name(p.table.alias), catalog, false, Seq::empty()) {
        Err(x) => (s, Err(x)),
        Ok(own) => match solve_joins(p.joins, outer, catalog, depth, 0, own, s) {
            (s, Err(x)) => (s, Err(x)),
            (s, Ok(local)) => match with_outer(outer, 0, local) {
                Err(x) => (s, Err(x)),
                Ok(inputs) => match solve_some(p.filter, Some(ScalarTypeView::Boolean), inputs, catalog, depth, s) {
                    (s, Err(x)) => (s, Err(x)),
                    (s, Ok(_)) => match solve_each(p.group_by, None, inputs, catalog, depth, 0, s) {
                        (s, Err(x)) => (s, Err(x)),
                        (s, Ok(_)) => match solve_some(p.having, Some(ScalarTypeView::Boolean), inputs, catalog, depth, s) {
                            (s, Err(x)) => (s, Err(x)),
                            (s, Ok(_)) => match solve_page(p.order_by, p.offset, p.limit, inputs, catalog, depth, s) {
                                (s, Err(x)) => (s, Err(x)),
                                (s, Ok(_)) => solve_items(p.projection, expected, local, catalog, depth, 0, Seq::empty(), s),
                            },
                        },
                    },
                },
            },
        },
    }
}

/// One layer of [`solve_advanced`], over the results of its parts.
pub open spec fn solve_advanced_layer(
    p: SelectPartsView,
    outer: Seq<InputColumnView>,
    expected: Option<Seq<Option<ScalarTypeView>>>,
    catalog: CatalogView,
    depth: usize,
    s: SolverView,
) -> (SolverView, Checked<Seq<Option<ScalarTypeView>>>) {
    match relation_inputs(p.table.name, alias_name(p.table.alias), catalog, false, Seq::empty()) {
        Err(x) => (s, Err(x)),
        Ok(own) => match solve_joins(p.joins, outer, catalog, depth, 0, own, s) {
            (s, Err(x)) => (s, Err(x)),
            (s, Ok(local)) => match with_outer(outer, 0, local) {
                Err(x) => (s, Err(x)),
                Ok(inputs) => match solve_some(p.filter, Some(ScalarTypeView::Boolean), inputs, catalog, depth, s) {
                    (s, Err(x)) => (s, Err(x)),
                    (s, Ok(_)) => match solve_each(p.group_by, None, inputs, catalog, depth, 0, s) {
                        (s, Err(x)) => (s, Err(x)),
                        (s, Ok(_)) => match solve_some(p.having, Some(ScalarTypeView::Boolean), inputs, catalog, depth, s) {
                            (s, Err(x)) => (s, Err(x)),
                            (s, Ok(_)) => match solve_page(p.order_by, p.offset, p.limit, inputs, catalog, depth, s) {
                                (s, Err(x)) => (s, Err(x)),
                                (s, Ok(_)) => solve_items(p.projection, expected, local, catalog, depth, 0, Seq::empty(), s),
                            },
                        },
                    },
                },
            },
        },
    }
}

/// The result is its outermost layer over the results of its parts.
pub proof fn unfold_solve_advanced(
    p: SelectPartsView,
    outer: Seq<InputColumnView>,
    expected: Option<Seq<Option<ScalarTypeView>>>,
    catalog: CatalogView,
    depth: usize,
    s: SolverView,
)
    ensures
        solve_advanced(p, outer, expected, catalog, depth, s) == solve_advanced_layer(p, outer, expected, catalog, depth, s),
{
}

/// What ORDER BY, OFFSET and LIMIT tell.
pub closed spec fn solve_page(
    order_by: Seq<ParsedOrderView>,
    offset: Option<ParsedExprView>,
    limit: Option<ParsedExprView>,
    inputs: Seq<InputColumnView>,
    catalog: CatalogView,
    depth: usize,
    s: SolverView,
) -> (SolverView, Checked<()>)
    decreases 64 - depth, 6int, 0int,
{
    match solve_orders(order_by, inputs, catalog, depth, 0, s) {
        (s, Err(x)) => (s, Err(x)),
        (s, Ok(_)) => match solve_some(offset, Some(ScalarTypeView::Int64), inputs, catalog, depth, s) {
            (s, Err(x)) => (s, Err(x)),
            (s, Ok(_)) => solve_some(limit, Some(ScalarTypeView::Int64), inputs, catalog, depth, s),
        },
    }
}

/// One layer of [`solve_page`], over the results of its parts.
pub open spec fn solve_page_layer(
    order_by: Seq<ParsedOrderView>,
    offset: Option<ParsedExprView>,
    limit: Option<ParsedExprView>,
    inputs: Seq<InputColumnView>,
    catalog: CatalogView,
    depth: usize,
    s: SolverView,
) -> (SolverView, Checked<()>) {
    match solve_orders(order_by, inputs, catalog, depth, 0, s) {
        (s, Err(x)) => (s, Err(x)),
        (s, Ok(_)) => match solve_some(offset, Some(ScalarTypeView::Int64), inputs, catalog, depth, s) {
            (s, Err(x)) => (s, Err(x)),
            (s, Ok(_)) => solve_some(limit, Some(ScalarTypeView::Int64), inputs, catalog, depth, s),
        },
    }
}

/// The result is its outermost layer over the results of its parts.
pub proof fn unfold_solve_page(
    order_by: Seq<ParsedOrderView>,
    offset: Option<ParsedExprView>,
    limit: Option<ParsedExprView>,
    inputs: Seq<InputColumnView>,
    catalog: CatalogView,
    depth: usize,
    s: SolverView,
)
    ensures
        solve_page(order_by, offset, limit, inputs, catalog, depth, s) == solve_page_layer(
            order_by,
            offset,
            limit,
            inputs,
            catalog,
            depth,
            s,
        ),
{
}

/// What a query on one relation tells, and its output types.
pub closed spec fn solve_select(
    p: SelectPartsView,
    outer: Seq<InputColumnView>,
    expected: Option<Seq<Option<ScalarTypeView>>>,
    catalog: CatalogView,
    depth: usize,
    s: SolverView,
) -> (SolverView, Checked<Seq<Option<ScalarTypeView>>>)
    decreases 64 - depth, 8int, 0int,
{
    match relation_inputs(p.table.name, None, catalog, false, Seq::empty()) {
        Err(x) => (s, Err(x)),
        Ok(local) => match with_outer(outer, 0, local) {
            Err(x) => (s, Err(x)),
            Ok(inputs) => match solve_some(p.filter, Some(ScalarTypeView::Boolean), inputs, catalog, depth, s) {
                (s, Err(x)) => (s, Err(x)),
                (s, Ok(_)) => match solve_page(p.order_by, p.offset, p.limit, inputs, catalog, depth, s) {
                    (s, Err(x)) => (s, Err(x)),
                    (s, Ok(_)) => solve_items(p.projection, expected, inputs, catalog, depth, 0, Seq::empty(), s),
                },
            },
        },
    }
}

/// One layer of [`solve_select`], over the results of its parts.
pub open spec fn solve_select_layer(
    p: SelectPartsView,
    outer: Seq<InputColumnView>,
    expected: Option<Seq<Option<ScalarTypeView>>>,
    catalog: CatalogView,
    depth: usize,
    s: SolverView,
) -> (SolverView, Checked<Seq<Option<ScalarTypeView>>>) {
    match relation_inputs(p.table.name, None, catalog, false, Seq::empty()) {
        Err(x) => (s, Err(x)),
        Ok(local) => match with_outer(outer, 0, local) {
            Err(x) => (s, Err(x)),
            Ok(inputs) => match solve_some(p.filter, Some(ScalarTypeView::Boolean), inputs, catalog, depth, s) {
                (s, Err(x)) => (s, Err(x)),
                (s, Ok(_)) => match solve_page(p.order_by, p.offset, p.limit, inputs, catalog, depth, s) {
                    (s, Err(x)) => (s, Err(x)),
                    (s, Ok(_)) => solve_items(p.projection, expected, inputs, catalog, depth, 0, Seq::empty(), s),
                },
            },
        },
    }
}

/// The result is its outermost layer over the results of its parts.
pub proof fn unfold_solve_select(
    p: SelectPartsView,
    outer: Seq<InputColumnView>,
    expected: Option<Seq<Option<ScalarTypeView>>>,
    catalog: CatalogView,
    depth: usize,
    s: SolverView,
)
    ensures
        solve_select(p, outer, expected, catalog, depth, s) == solve_select_layer(p, outer, expected, catalog, depth, s),
{
}

/// What a set operation tells, and its output types.
pub closed spec fn solve_set(
    left: ParsedStatementView,
    right: ParsedStatementView,
    offset: Option<ParsedExprView>,
    limit: Option<ParsedExprView>,
    outer: Seq<InputColumnView>,
    expected: Option<Seq<Option<ScalarTypeView>>>,
    catalog: CatalogView,
    depth: usize,
    s: SolverView,
) -> (SolverView, Checked<Seq<Option<ScalarTypeView>>>)
    decreases 64 - depth, 8int, 0int,
{
    match solve_pair(left, right, expected, outer, catalog, depth, s) {
        (s, Err(x)) => (s, Err(x)),
        (s, Ok((a, b))) => match (if a.len() == b.len() {
                solve_pair(left, right, Some(output_types(a, b)), outer, catalog, depth, s)
            } else {
                (s, Ok((a, b)))
        }) {
            (s, Err(x)) => (s, Err(x)),
            (s, Ok((a, b))) => match solve_some(offset, Some(ScalarTypeView::Int64), Seq::empty(), catalog, depth, s) {
                (s, Err(x)) => (s, Err(x)),
                (s, Ok(_)) => match solve_some(limit, Some(ScalarTypeView::Int64), Seq::empty(), catalog, depth, s) {
                    (s, Err(x)) => (s, Err(x)),
                    (s, Ok(_)) => (s, Ok(output_types(a, b))),
                },
            },
        },
    }
}

/// One layer of [`solve_set`], over the results of its parts.
pub open spec fn solve_set_layer(
    left: ParsedStatementView,
    right: ParsedStatementView,
    offset: Option<ParsedExprView>,
    limit: Option<ParsedExprView>,
    outer: Seq<InputColumnView>,
    expected: Option<Seq<Option<ScalarTypeView>>>,
    catalog: CatalogView,
    depth: usize,
    s: SolverView,
) -> (SolverView, Checked<Seq<Option<ScalarTypeView>>>) {
    match solve_pair(left, right, expected, outer, catalog, depth, s) {
        (s, Err(x)) => (s, Err(x)),
        (s, Ok((a, b))) => match (if a.len() == b.len() {
                solve_pair(left, right, Some(output_types(a, b)), outer, catalog, depth, s)
            } else {
                (s, Ok((a, b)))
        }) {
            (s, Err(x)) => (s, Err(x)),
            (s, Ok((a, b))) => match solve_some(offset, Some(ScalarTypeView::Int64), Seq::empty(), catalog, depth, s) {
                (s, Err(x)) => (s, Err(x)),
                (s, Ok(_)) => match solve_some(limit, Some(ScalarTypeView::Int64), Seq::empty(), catalog, depth, s) {
                    (s, Err(x)) => (s, Err(x)),
                    (s, Ok(_)) => (s, Ok(output_types(a, b))),
                },
            },
        },
    }
}

/// The result is its outermost layer over the results of its parts.
pub proof fn unfold_solve_set(
    left: ParsedStatementView,
    right: ParsedStatementView,
    offset: Option<ParsedExprView>,
    limit: Option<ParsedExprView>,
    outer: Seq<InputColumnView>,
    expected: Option<Seq<Option<ScalarTypeView>>>,
    catalog: CatalogView,
    depth: usize,
    s: SolverView,
)
    ensures
        solve_set(left, right, offset, limit, outer, expected, catalog, depth, s) == solve_set_layer(
            left,
            right,
            offset,
            limit,
            outer,
            expected,
            catalog,
            depth,
            s,
        ),
{
}

/// The output types of two queries.
pub closed spec fn solve_pair(
    left: ParsedStatementView,
    right: ParsedStatementView,
    expected: Option<Seq<Option<ScalarTypeView>>>,
    outer: Seq<InputColumnView>,
    catalog: CatalogView,
    depth: usize,
    s: SolverView,
) -> (SolverView, Checked<(Seq<Option<ScalarTypeView>>, Seq<Option<ScalarTypeView>>)>)
    decreases 64 - depth, 7int, 0int,
{
    match solve_nested(left, expected, outer, catalog, depth, s) {
        (s, Err(x)) => (s, Err(x)),
        (s, Ok(a)) => match solve_nested(right, expected, outer, catalog, depth, s) {
            (s, Err(x)) => (s, Err(x)),
            (s, Ok(b)) => (s, Ok((a, b))),
        },
    }
}

/// One layer of [`solve_pair`], over the results of its parts.
pub open spec fn solve_pair_layer(
    left: ParsedStatementView,
    right: ParsedStatementView,
    expected: Option<Seq<Option<ScalarTypeView>>>,
    outer: Seq<InputColumnView>,
    catalog: CatalogView,
    depth: usize,
    s: SolverView,
) -> (SolverView, Checked<(Seq<Option<ScalarTypeView>>, Seq<Option<ScalarTypeView>>)>) {
    match solve_nested(left, expected, outer, catalog, depth, s) {
        (s, Err(x)) => (s, Err(x)),
        (s, Ok(a)) => match solve_nested(right, expected, outer, catalog, depth, s) {
            (s, Err(x)) => (s, Err(x)),
            (s, Ok(b)) => (s, Ok((a, b))),
        },
    }
}

/// The result is its outermost layer over the results of its parts.
pub proof fn unfold_solve_pair(
    left: ParsedStatementView,
    right: ParsedStatementView,
    expected: Option<Seq<Option<ScalarTypeView>>>,
    outer: Seq<InputColumnView>,
    catalog: CatalogView,
    depth: usize,
    s: SolverView,
)
    ensures
        solve_pair(left, right, expected, outer, catalog, depth, s) == solve_pair_layer(left, right, expected, outer, catalog, depth, s),
{
}

/// What a WITH query tells.
pub closed spec fn solve_cte(
    cte: ParsedCteView,
    recursive: bool,
    schema_name: Seq<char>,
    depth: usize,
    state: WithTypesView,
    s: SolverView,
) -> (SolverView, Checked<WithTypesView>)
    decreases 64 - depth, 7int, 0int,
{
    match solver_terms(cte, recursive, state.replacements) {
        Err(x) => (s, Err(x)),
        Ok(terms) => match terms {
            None => (s, Ok(WithTypesView { early: Some(Seq::empty()), ..state })),
            Some(terms) => match solve_nested(terms.seed, None, Seq::empty(), state.catalog, depth, s) {
                (s, Err(x)) => (s, Err(x)),
                (s, Ok(types)) => match tried_schema(terms.seed, state.catalog, Seq::empty(), depth, s.types) {
                    None => (s, Ok(WithTypesView { early: Some(types), ..state })),
                    Some(schema) => match solver_relation(cte, schema, schema_name, state) {
                        Err(x) => (s, Err(x)),
                        Ok((next, output)) => match terms.term {
                            None => (s, Ok(next)),
                            Some(term) => match rewritten(term, next.replacements, 0) {
                                Err(x) => (s, Err(x)),
                                Ok(term) => match solve_nested(
                                    term,
                                    Some(field_types(output.fields)),
                                    Seq::empty(),
                                    next.catalog,
                                    depth,
                                    s,
                                ) {
                                    (s, Err(x)) => (s, Err(x)),
                                    (s, Ok(_)) => (s, Ok(next)),
                                },
                            },
                        },
                    },
                },
            },
        },
    }
}

/// One layer of [`solve_cte`], over the results of its parts.
pub open spec fn solve_cte_layer(
    cte: ParsedCteView,
    recursive: bool,
    schema_name: Seq<char>,
    depth: usize,
    state: WithTypesView,
    s: SolverView,
) -> (SolverView, Checked<WithTypesView>) {
    match solver_terms(cte, recursive, state.replacements) {
        Err(x) => (s, Err(x)),
        Ok(terms) => match terms {
            None => (s, Ok(WithTypesView { early: Some(Seq::empty()), ..state })),
            Some(terms) => match solve_nested(terms.seed, None, Seq::empty(), state.catalog, depth, s) {
                (s, Err(x)) => (s, Err(x)),
                (s, Ok(types)) => match tried_schema(terms.seed, state.catalog, Seq::empty(), depth, s.types) {
                    None => (s, Ok(WithTypesView { early: Some(types), ..state })),
                    Some(schema) => match solver_relation(cte, schema, schema_name, state) {
                        Err(x) => (s, Err(x)),
                        Ok((next, output)) => match terms.term {
                            None => (s, Ok(next)),
                            Some(term) => match rewritten(term, next.replacements, 0) {
                                Err(x) => (s, Err(x)),
                                Ok(term) => match solve_nested(
                                    term,
                                    Some(field_types(output.fields)),
                                    Seq::empty(),
                                    next.catalog,
                                    depth,
                                    s,
                                ) {
                                    (s, Err(x)) => (s, Err(x)),
                                    (s, Ok(_)) => (s, Ok(next)),
                                },
                            },
                        },
                    },
                },
            },
        },
    }
}

/// The result is its outermost layer over the results of its parts.
pub proof fn unfold_solve_cte(
    cte: ParsedCteView,
    recursive: bool,
    schema_name: Seq<char>,
    depth: usize,
    state: WithTypesView,
    s: SolverView,
)
    ensures
        solve_cte(cte, recursive, schema_name, depth, state, s) == solve_cte_layer(cte, recursive, schema_name, depth, state, s),
{
}

/// What WITH queries tell, from one of them on.
pub closed spec fn solve_ctes(
    l: Seq<ParsedCteView>,
    recursive: bool,
    schema_name: Seq<char>,
    depth: usize,
    i: int,
    state: WithTypesView,
    s: SolverView,
) -> (SolverView, Checked<WithTypesView>)
    decreases 64 - depth, 8int, l.len() - i,
{
    if i < 0 || i >= l.len() || state.early is Some {
        (s, Ok(state))
    } else {
        match solve_cte(l[i], recursive, schema_name, depth, state, s) {
            (s, Err(x)) => (s, Err(x)),
            (s, Ok(state)) => solve_ctes(l, recursive, schema_name, depth, i + 1, state, s),
        }
    }
}

/// One layer of [`solve_ctes`], over the results of its parts.
pub open spec fn solve_ctes_layer(
    l: Seq<ParsedCteView>,
    recursive: bool,
    schema_name: Seq<char>,
    depth: usize,
    i: int,
    state: WithTypesView,
    s: SolverView,
) -> (SolverView, Checked<WithTypesView>) {
    if i < 0 || i >= l.len() || state.early is Some {
        (s, Ok(state))
    } else {
        match solve_cte(l[i], recursive, schema_name, depth, state, s) {
            (s, Err(x)) => (s, Err(x)),
            (s, Ok(state)) => solve_ctes(l, recursive, schema_name, depth, i + 1, state, s),
        }
    }
}

/// The result is its outermost layer over the results of its parts.
pub proof fn unfold_solve_ctes(
    l: Seq<ParsedCteView>,
    recursive: bool,
    schema_name: Seq<char>,
    depth: usize,
    i: int,
    state: WithTypesView,
    s: SolverView,
)
    ensures
        solve_ctes(l, recursive, schema_name, depth, i, state, s) == solve_ctes_layer(l, recursive, schema_name, depth, i, state, s),
{
}

/// What a statement with WITH queries tells, and its output types.
pub closed spec fn solve_with(
    recursive: bool,
    ctes: Seq<ParsedCteView>,
    body: ParsedStatementView,
    expected: Option<Seq<Option<ScalarTypeView>>>,
    catalog: CatalogView,
    depth: usize,
    s: SolverView,
) -> (SolverView, Checked<Seq<Option<ScalarTypeView>>>)
    decreases 64 - depth, 9int, 0int,
{
    match solver_catalog(catalog, depth) {
        Err(x) => (s, Err(x)),
        Ok(transient) => match solve_ctes(
            ctes,
            recursive,
            solver_namespace(depth),
            depth,
            0,
            WithTypesView { catalog: transient, replacements: Seq::empty(), early: None },
            s,
        ) {
            (s, Err(x)) => (s, Err(x)),
            (s, Ok(state)) => match state.early {
                Some(types) => (s, Ok(types)),
                None => match rewritten(body, state.replacements, 0) {
                    Err(x) => (s, Err(x)),
                    Ok(body) => solve_nested(body, expected, Seq::empty(), state.catalog, depth, s),
                },
            },
        },
    }
}

/// One layer of [`solve_with`], over the results of its parts.
pub open spec fn solve_with_layer(
    recursive: bool,
    ctes: Seq<ParsedCteView>,
    body: ParsedStatementView,
    expected: Option<Seq<Option<ScalarTypeView>>>,
    catalog: CatalogView,
    depth: usize,
    s: SolverView,
) -> (SolverView, Checked<Seq<Option<ScalarTypeView>>>) {
    match solver_catalog(catalog, depth) {
        Err(x) => (s, Err(x)),
        Ok(transient) => match solve_ctes(
            ctes,
            recursive,
            solver_namespace(depth),
            depth,
            0,
            WithTypesView { catalog: transient, replacements: Seq::empty(), early: None },
            s,
        ) {
            (s, Err(x)) => (s, Err(x)),
            (s, Ok(state)) => match state.early {
                Some(types) => (s, Ok(types)),
                None => match rewritten(body, state.replacements, 0) {
                    Err(x) => (s, Err(x)),
                    Ok(body) => solve_nested(body, expected, Seq::empty(), state.catalog, depth, s),
                },
            },
        },
    }
}

/// The result is its outermost layer over the results of its parts.
pub proof fn unfold_solve_with(
    recursive: bool,
    ctes: Seq<ParsedCteView>,
    body: ParsedStatementView,
    expected: Option<Seq<Option<ScalarTypeView>>>,
    catalog: CatalogView,
    depth: usize,
    s: SolverView,
)
    ensures
        solve_with(recursive, ctes, body, expected, catalog, depth, s) == solve_with_layer(
            recursive,
            ctes,
            body,
            expected,
            catalog,
            depth,
            s,
        ),
{
}

/// What an INSERT tells, and its output types.
pub closed spec fn solve_insert(
    table: ParsedObjectNameView,
    columns: Seq<ParsedIdentifierView>,
    rows: Seq<Seq<ParsedExprView>>,
    on_conflict: Option<ParsedOnConflictView>,
    returning: Seq<ParsedProjectionView>,
    expected: Option<Seq<Option<ScalarTypeView>>>,
    catalog: CatalogView,
    depth: usize,
    s: SolverView,
) -> (SolverView, Checked<Seq<Option<ScalarTypeView>>>)
    decreases 64 - depth, 8int, 0int,
{
    match dml_relation(table, TriggerEvent::Insert, catalog) {
        Err(x) => (s, Err(x)),
        Ok(relation) => {
            let table = relation.scope;
            let inputs = with_columns(table.name, table.columns, false, 0, Seq::empty());
            match target_places(columns, table) {
                Err(x) => (s, Err(x)),
                Ok(indexes) => match solve_rows(rows, indexes, table, Seq::empty(), catalog, depth, 0, s) {
                    (s, Err(x)) => (s, Err(x)),
                    (s, Ok(_)) => match on_conflict {
                        None => solve_items(returning, expected, inputs, catalog, depth, 0, Seq::empty(), s),
                        Some(on) => if relation.target is View {
                            (s, Err(unsupported_error("ON CONFLICT is not supported for view DML"@, None)))
                        } else {
                            match solve_conflict(on, table, catalog, depth, s) {
                                (s, Err(x)) => (s, Err(x)),
                                (s, Ok(_)) => solve_items(returning, expected, inputs, catalog, depth, 0, Seq::empty(), s),
                            }
                        },
                    },
                },
            }
        },
    }
}

/// One layer of [`solve_insert`], over the results of its parts.
pub open spec fn solve_insert_layer(
    table: ParsedObjectNameView,
    columns: Seq<ParsedIdentifierView>,
    rows: Seq<Seq<ParsedExprView>>,
    on_conflict: Option<ParsedOnConflictView>,
    returning: Seq<ParsedProjectionView>,
    expected: Option<Seq<Option<ScalarTypeView>>>,
    catalog: CatalogView,
    depth: usize,
    s: SolverView,
) -> (SolverView, Checked<Seq<Option<ScalarTypeView>>>) {
    match dml_relation(table, TriggerEvent::Insert, catalog) {
        Err(x) => (s, Err(x)),
        Ok(relation) => {
            let table = relation.scope;
            let inputs = with_columns(table.name, table.columns, false, 0, Seq::empty());
            match target_places(columns, table) {
                Err(x) => (s, Err(x)),
                Ok(indexes) => match solve_rows(rows, indexes, table, Seq::empty(), catalog, depth, 0, s) {
                    (s, Err(x)) => (s, Err(x)),
                    (s, Ok(_)) => match on_conflict {
                        None => solve_items(returning, expected, inputs, catalog, depth, 0, Seq::empty(), s),
                        Some(on) => if relation.target is View {
                            (s, Err(unsupported_error("ON CONFLICT is not supported for view DML"@, None)))
                        } else {
                            match solve_conflict(on, table, catalog, depth, s) {
                                (s, Err(x)) => (s, Err(x)),
                                (s, Ok(_)) => solve_items(returning, expected, inputs, catalog, depth, 0, Seq::empty(), s),
                            }
                        },
                    },
                },
            }
        },
    }
}

/// The result is its outermost layer over the results of its parts.
pub proof fn unfold_solve_insert(
    table: ParsedObjectNameView,
    columns: Seq<ParsedIdentifierView>,
    rows: Seq<Seq<ParsedExprView>>,
    on_conflict: Option<ParsedOnConflictView>,
    returning: Seq<ParsedProjectionView>,
    expected: Option<Seq<Option<ScalarTypeView>>>,
    catalog: CatalogView,
    depth: usize,
    s: SolverView,
)
    ensures
        solve_insert(table, columns, rows, on_conflict, returning, expected, catalog, depth, s) == solve_insert_layer(
            table,
            columns,
            rows,
            on_conflict,
            returning,
            expected,
            catalog,
            depth,
            s,
        ),
{
}

/// What a routine call tells.
pub closed spec fn solve_routine(
    name: ParsedObjectNameView,
    arguments: Seq<ParsedExprView>,
    catalog: CatalogView,
    depth: usize,
    s: SolverView,
) -> (SolverView, Checked<Seq<Option<ScalarTypeView>>>)
    decreases 64 - depth, 6int, 0int,
{
    match split_name(name) {
        Err(x) => (s, Err(x)),
        Ok(n) => match catalog.schema(n.schema) {
            None => (s, Ok(Seq::empty())),
            Some(schema) => match solve_arguments(arguments, schema.routines, n.name, catalog, depth, 0, s) {
                (s, Err(x)) => (s, Err(x)),
                (s, Ok(_)) => (s, Ok(Seq::empty())),
            },
        },
    }
}

/// One layer of [`solve_routine`], over the results of its parts.
pub open spec fn solve_routine_layer(
    name: ParsedObjectNameView,
    arguments: Seq<ParsedExprView>,
    catalog: CatalogView,
    depth: usize,
    s: SolverView,
) -> (SolverView, Checked<Seq<Option<ScalarTypeView>>>) {
    match split_name(name) {
        Err(x) => (s, Err(x)),
        Ok(n) => match catalog.schema(n.schema) {
            None => (s, Ok(Seq::empty())),
            Some(schema) => match solve_arguments(arguments, schema.routines, n.name, catalog, depth, 0, s) {
                (s, Err(x)) => (s, Err(x)),
                (s, Ok(_)) => (s, Ok(Seq::empty())),
            },
        },
    }
}

/// The result is its outermost layer over the results of its parts.
pub proof fn unfold_solve_routine(
    name: ParsedObjectNameView,
    arguments: Seq<ParsedExprView>,
    catalog: CatalogView,
    depth: usize,
    s: SolverView,
)
    ensures
        solve_routine(name, arguments, catalog, depth, s) == solve_routine_layer(name, arguments, catalog, depth, s),
{
}

/// What a statement tells about parameter types, and its output types.
pub closed spec fn solve_statement(
    st: ParsedStatementView,
    catalog: CatalogView,
    outer: Seq<InputColumnView>,
    expected: Option<Seq<Option<ScalarTypeView>>>,
    depth: usize,
    s: SolverView,
) -> (SolverView, Checked<Seq<Option<ScalarTypeView>>>)
    decreases 64 - depth, 10int, 0int,
{
    if depth >= 64 {
        (s, Err(error("54001"@, "parameter type inference exceeded its statement depth limit"@)))
    } else {
        match st {
            ParsedStatementView::Select { table, projection, filter, order_by, offset, limit } => solve_select(
                SelectPartsView {
                    table: ParsedTableView { name: table, alias: None },
                    joins: Seq::empty(),
                    projection,
                    distinct: false,
                    filter,
                    group_by: Seq::empty(),
                    having: None,
                    order_by,
                    offset,
                    limit,
                },
                outer,
                expected,
                catalog,
                depth,
                s,
            ),
            ParsedStatementView::AdvancedSelect {
                table,
                joins,
                projection,
                distinct,
                filter,
                group_by,
                having,
                order_by,
                offset,
                limit,
            } => solve_advanced(
                SelectPartsView { table, joins, projection, distinct, filter, group_by, having, order_by, offset, limit },
                outer,
                expected,
                catalog,
                depth,
                s,
            ),
            ParsedStatementView::SetOperation { left, right, offset, limit, .. } => solve_set(
                *left,
                *right,
                offset,
                limit,
                outer,
                expected,
                catalog,
                depth,
                s,
            ),
            ParsedStatementView::With { recursive, ctes, body } => solve_with(recursive, ctes, *body, expected, catalog, depth, s),
            ParsedStatementView::Insert { table, columns, rows, on_conflict, returning } => solve_insert(
                table,
                columns,
                rows,
                on_conflict,
                returning,
                expected,
                catalog,
                depth,
                s,
            ),
            ParsedStatementView::Update {
                table,
                assignments,
                filter,
                returning,
            } => match dml_relation(table, TriggerEvent::Update, catalog) {
                Err(x) => (s, Err(x)),
                Ok(relation) => {
                    let table = relation.scope;
                    let inputs = with_columns(table.name, table.columns, false, 0, Seq::empty());
                    match solve_assignments(assignments, table, inputs, catalog, depth, 0, s) {
                        (s, Err(x)) => (s, Err(x)),
                        (s, Ok(_)) => match solve_some(filter, Some(ScalarTypeView::Boolean), inputs, catalog, depth, s) {
                            (s, Err(x)) => (s, Err(x)),
                            (s, Ok(_)) => solve_items(returning, expected, inputs, catalog, depth, 0, Seq::empty(), s),
                        },
                    }
                },
            },
            ParsedStatementView::Delete { table, filter, returning } => match dml_relation(table, TriggerEvent::Delete, catalog) {
                Err(x) => (s, Err(x)),
                Ok(relation) => {
                    let table = relation.scope;
                    let inputs = with_columns(table.name, table.columns, false, 0, Seq::empty());
                    match solve_some(filter, Some(ScalarTypeView::Boolean), inputs, catalog, depth, s) {
                        (s, Err(x)) => (s, Err(x)),
                        (s, Ok(_)) => solve_items(returning, expected, inputs, catalog, depth, 0, Seq::empty(), s),
                    }
                },
            },
            ParsedStatementView::Merge(m) => solve_merge(m, expected, catalog, depth, s),
            ParsedStatementView::Explain { statement } => solve_nested(*statement, expected, outer, catalog, depth, s),
            ParsedStatementView::CreateView { query, .. } => solve_nested(*query, expected, outer, catalog, depth, s),
            ParsedStatementView::Call { name, arguments } => solve_routine(name, arguments, catalog, depth, s),
            ParsedStatementView::RoutineSelect { name, arguments, .. } => solve_routine(name, arguments, catalog, depth, s),
            ParsedStatementView::ScalarSelect { projection } => solve_items(
                projection,
                expected,
                Seq::empty(), catalog, depth,
                0,
                Seq::empty(),
                s,
            ),
            ParsedStatementView::SequenceValue { operation, .. } => match operation {
                ParsedSequenceOperationView::SetValue { value, .. } => match solve_expr(
                    value,
                    Some(ScalarTypeView::Int64),
                    Seq::empty(),
                    catalog,
                    depth,
                    s,
                ) {
                    (s, Err(x)) => (s, Err(x)),
                    (s, Ok(_)) => (s, Ok(Seq::empty())),
                },
                _ => (s, Ok(Seq::empty())),
            },
            _ => (s, Ok(Seq::empty())),
        }
    }
}

/// One layer of [`solve_statement`], over the results of its parts.
pub open spec fn solve_statement_layer(
    st: ParsedStatementView,
    catalog: CatalogView,
    outer: Seq<InputColumnView>,
    expected: Option<Seq<Option<ScalarTypeView>>>,
    depth: usize,
    s: SolverView,
) -> (SolverView, Checked<Seq<Option<ScalarTypeView>>>) {
    if depth >= 64 {
        (s, Err(error("54001"@, "parameter type inference exceeded its statement depth limit"@)))
    } else {
        match st {
            ParsedStatementView::Select { table, projection, filter, order_by, offset, limit } => solve_select(
                SelectPartsView {
                    table: ParsedTableView { name: table, alias: None },
                    joins: Seq::empty(),
                    projection,
                    distinct: false,
                    filter,
                    group_by: Seq::empty(),
                    having: None,
                    order_by,
                    offset,
                    limit,
                },
                outer,
                expected,
                catalog,
                depth,
                s,
            ),
            ParsedStatementView::AdvancedSelect {
                table,
                joins,
                projection,
                distinct,
                filter,
                group_by,
                having,
                order_by,
                offset,
                limit,
            } => solve_advanced(
                SelectPartsView { table, joins, projection, distinct, filter, group_by, having, order_by, offset, limit },
                outer,
                expected,
                catalog,
                depth,
                s,
            ),
            ParsedStatementView::SetOperation { left, right, offset, limit, .. } => solve_set(
                *left,
                *right,
                offset,
                limit,
                outer,
                expected,
                catalog,
                depth,
                s,
            ),
            ParsedStatementView::With { recursive, ctes, body } => solve_with(recursive, ctes, *body, expected, catalog, depth, s),
            ParsedStatementView::Insert { table, columns, rows, on_conflict, returning } => solve_insert(
                table,
                columns,
                rows,
                on_conflict,
                returning,
                expected,
                catalog,
                depth,
                s,
            ),
            ParsedStatementView::Update {
                table,
                assignments,
                filter,
                returning,
            } => match dml_relation(table, TriggerEvent::Update, catalog) {
                Err(x) => (s, Err(x)),
                Ok(relation) => {
                    let table = relation.scope;
                    let inputs = with_columns(table.name, table.columns, false, 0, Seq::empty());
                    match solve_assignments(assignments, table, inputs, catalog, depth, 0, s) {
                        (s, Err(x)) => (s, Err(x)),
                        (s, Ok(_)) => match solve_some(filter, Some(ScalarTypeView::Boolean), inputs, catalog, depth, s) {
                            (s, Err(x)) => (s, Err(x)),
                            (s, Ok(_)) => solve_items(returning, expected, inputs, catalog, depth, 0, Seq::empty(), s),
                        },
                    }
                },
            },
            ParsedStatementView::Delete { table, filter, returning } => match dml_relation(table, TriggerEvent::Delete, catalog) {
                Err(x) => (s, Err(x)),
                Ok(relation) => {
                    let table = relation.scope;
                    let inputs = with_columns(table.name, table.columns, false, 0, Seq::empty());
                    match solve_some(filter, Some(ScalarTypeView::Boolean), inputs, catalog, depth, s) {
                        (s, Err(x)) => (s, Err(x)),
                        (s, Ok(_)) => solve_items(returning, expected, inputs, catalog, depth, 0, Seq::empty(), s),
                    }
                },
            },
            ParsedStatementView::Merge(m) => solve_merge(m, expected, catalog, depth, s),
            ParsedStatementView::Explain { statement } => solve_nested(*statement, expected, outer, catalog, depth, s),
            ParsedStatementView::CreateView { query, .. } => solve_nested(*query, expected, outer, catalog, depth, s),
            ParsedStatementView::Call { name, arguments } => solve_routine(name, arguments, catalog, depth, s),
            ParsedStatementView::RoutineSelect { name, arguments, .. } => solve_routine(name, arguments, catalog, depth, s),
            ParsedStatementView::ScalarSelect { projection } => solve_items(
                projection,
                expected,
                Seq::empty(), catalog, depth,
                0,
                Seq::empty(),
                s,
            ),
            ParsedStatementView::SequenceValue { operation, .. } => match operation {
                ParsedSequenceOperationView::SetValue { value, .. } => match solve_expr(
                    value,
                    Some(ScalarTypeView::Int64),
                    Seq::empty(),
                    catalog,
                    depth,
                    s,
                ) {
                    (s, Err(x)) => (s, Err(x)),
                    (s, Ok(_)) => (s, Ok(Seq::empty())),
                },
                _ => (s, Ok(Seq::empty())),
            },
            _ => (s, Ok(Seq::empty())),
        }
    }
}

/// The result is its outermost layer over the results of its parts.
pub proof fn unfold_solve_statement(
    st: ParsedStatementView,
    catalog: CatalogView,
    outer: Seq<InputColumnView>,
    expected: Option<Seq<Option<ScalarTypeView>>>,
    depth: usize,
    s: SolverView,
)
    ensures
        solve_statement(st, catalog, outer, expected, depth, s) == solve_statement_layer(st, catalog, outer, expected, depth, s),
{
}

} // verus!
