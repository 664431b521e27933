//! What the parts of a bound query keep: the columns of its FROM clause, its subqueries
//! and its windows.

use vstd::prelude::*;

use crate::binding::{bound_form, input_scope, Expectation};
use crate::bound::{
    BoundApplyKindView, BoundApplyView, BoundExprView, BoundJoinSourceView, BoundOrderView, BoundStatementView, BoundWindowFrameBoundView,
};
use crate::catalog::{CatalogView, ColumnDefinitionView};
use crate::inputs::{input_table, with_columns, with_outer};
use crate::laws_bind::{all_told, lemma_list, lemma_next_order, lemma_told_form, orders_told, told};
use crate::names::named_table;
use crate::query_rules::{applied_expr, join_source, nested};
use crate::scope::InputColumnView;
use crate::subquery::{exists_applied, in_applied, operand_of, quantified_applied, query_schema, row_applied, row_of, scalar_applied};
use crate::syntax::{
    BinaryOperator, ParsedExprKindView, ParsedExprView, ParsedJoinSourceView, ParsedOrderView, ParsedTableView, ParsedWindowCallView,
    ParsedWindowFrameBoundView, ParsedWindowSpecView, SubqueryQuantifier,
};
use crate::types::{DbErrorView, FieldView, ScalarTypeView};
use crate::windows::{window_call, window_of_call, window_order, window_orders};

verus! {

/// Whether the columns of a relation stand behind others in a FROM clause: under its name,
/// in their order, with their names and types, and able to be null where they are or where
/// the relation is the outer side of a join.
pub open spec fn stand_behind(
    before: Seq<InputColumnView>,
    binding: Seq<char>,
    columns: Seq<ColumnDefinitionView>,
    nullable: bool,
    after: Seq<InputColumnView>,
) -> bool {
    &&& after.len() == before.len() + columns.len()
    &&& forall|k: int| 0 <= k < before.len() ==> after[k] == #[trigger] before[k]
    &&& forall|k: int|
        0 <= k < columns.len() ==> {
            &&& after[before.len() + k].binding == binding
            &&& after[before.len() + k].name == (#[trigger] columns[k]).name
            &&& after[before.len() + k].data_type == columns[k].data_type
            &&& after[before.len() + k].nullable <==> nullable || columns[k].nullable
            &&& after[before.len() + k].outer_depth == 0
            &&& after[before.len() + k].index == (before.len() + k) as usize
        }
}

pub(crate) proof fn lemma_columns_from(
    binding: Seq<char>,
    columns: Seq<ColumnDefinitionView>,
    nullable: bool,
    i: int,
    before: Seq<InputColumnView>,
    done: Seq<InputColumnView>,
)
    requires
        0 <= i <= columns.len(),
        stand_behind(before, binding, columns.take(i), nullable, done),
    ensures
        stand_behind(before, binding, columns, nullable, with_columns(binding, columns, nullable, i, done)),
    decreases columns.len() - i,
{
    if i >= columns.len() {
        assert(columns.take(i) =~= columns);
    } else {
        let c = InputColumnView {
            binding,
            name: columns[i].name,
            index: done.len() as usize,
            data_type: columns[i].data_type,
            nullable: nullable || columns[i].nullable,
            outer_depth: 0,
        };
        let prefix = columns.take(i + 1);
        let next = done.push(c);
        assert forall|k: int| 0 <= k < before.len() implies next[k] == #[trigger] before[k] by {
            assert(done[k] == before[k]);
        }
        assert forall|k: int| 0 <= k < prefix.len() implies {
            &&& next[before.len() + k].binding == binding
            &&& next[before.len() + k].name == (#[trigger] prefix[k]).name
            &&& next[before.len() + k].data_type == prefix[k].data_type
            &&& next[before.len() + k].nullable <==> nullable || prefix[k].nullable
            &&& next[before.len() + k].outer_depth == 0
            &&& next[before.len() + k].index == (before.len() + k) as usize
        } by {
            if k < i {
                assert(prefix[k] == columns.take(i)[k]);
                assert(next[before.len() + k] == done[before.len() + k]);
            }
        }
        lemma_columns_from(binding, columns, nullable, i + 1, before, next);
    }
}

/// A table in a FROM clause supplies its own columns under its alias, or else under its
/// name, behind those of the relations before it.
pub proof fn lemma_table_supplies(parsed: ParsedTableView, nullable: bool, catalog: CatalogView, inputs: Seq<InputColumnView>)
    ensures
        input_table(parsed, nullable, catalog, inputs) matches Ok((b, after)) ==> named_table(parsed.name, catalog) is Ok && ({
            let t = named_table(parsed.name, catalog)->Ok_0;
            &&& b.table_id == t.id
            &&& b.nullable == nullable
            &&& b.binding == match parsed.alias {
                Some(a) => a.name,
                None => t.name,
            }
            &&& b.offset == inputs.len() as usize
            &&& b.width == t.columns.len() as usize
            &&& stand_behind(inputs, b.binding, t.columns, nullable, after)
        }),
{
    reveal(input_table);
    if let Ok(t) = named_table(parsed.name, catalog) {
        let binding = match parsed.alias {
            Some(a) => a.name,
            None => t.name,
        };
        assert(t.columns.take(0) =~= Seq::empty());
        lemma_columns_from(binding, t.columns, nullable, 0, inputs, inputs);
    }
}

/// The relation that a LEFT join adds can be null, and only that.
pub proof fn lemma_outer_side(
    s: ParsedJoinSourceView,
    nullable: bool,
    catalog: CatalogView,
    depth: usize,
    outer: Seq<InputColumnView>,
    local: Seq<InputColumnView>,
)
    ensures
        join_source(s, nullable, catalog, depth, outer, local) matches Ok((b, _)) ==> match b {
            BoundJoinSourceView::Table(t) => s is Table && t.nullable == nullable,
            BoundJoinSourceView::Derived { lateral, binding, nullable: can, .. } => {
                &&& s is Derived
                &&& can == nullable
                &&& lateral == s->Derived_lateral
                &&& binding == s->Derived_alias.name
            },
        },
{
    reveal(join_source);
    reveal(crate::query_rules::query_of);
    reveal(crate::query_rules::derived_source);
    reveal(input_table);
}

/// The columns of enclosing queries stand behind those of a query, one level further out.
pub proof fn lemma_enclosing_columns(outer: Seq<InputColumnView>, i: int, done: Seq<InputColumnView>)
    requires
        0 <= i <= outer.len(),
    ensures
        with_outer(outer, i, done) matches Ok(r) ==> {
            &&& r.len() == done.len() + outer.len() - i
            &&& forall|k: int| 0 <= k < done.len() ==> r[k] == #[trigger] done[k]
            &&& forall|k: int|
                i <= k < outer.len() ==> {
                    let c = r[done.len() + k - i];
                    &&& c.outer_depth == (#[trigger] outer[k]).outer_depth + 1
                    &&& c.name == outer[k].name
                    &&& c.binding == outer[k].binding
                    &&& c.index == outer[k].index
                    &&& c.data_type == outer[k].data_type
                    &&& c.nullable == outer[k].nullable
                }
        },
    decreases outer.len() - i,
{
    if i < outer.len() && outer[i].outer_depth < usize::MAX {
        let c = InputColumnView { outer_depth: (outer[i].outer_depth + 1) as usize, ..outer[i] };
        let next = done.push(c);
        lemma_enclosing_columns(outer, i + 1, next);
        if let Ok(r) = with_outer(outer, i, done) {
            assert(r[done.len() as int] == next[done.len() as int]);
            assert forall|k: int| 0 <= k < done.len() implies r[k] == #[trigger] done[k] by {
                assert(r[k] == next[k]);
            }
        }
    }
}

/// Whether one subquery has been put behind others, and a slot stands for its value.
pub open spec fn put_behind(
    applies: Seq<BoundApplyView>,
    base: usize,
    query: BoundStatementView,
    t: ScalarTypeView,
    r: (ParsedExprView, Seq<BoundApplyView>),
) -> bool {
    &&& r.1.len() == applies.len() + 1
    &&& forall|k: int| 0 <= k < applies.len() ==> r.1[k] == #[trigger] applies[k]
    &&& *r.1.last().query == query
    &&& r.0.kind is ApplyValue
    &&& r.0.kind->ApplyValue_index == base + applies.len()
    &&& r.0.kind->ApplyValue_data_type == t
}

/// What a subquery predicate becomes: EXISTS, IN, ANY, ALL and their NOT stay what they
/// are, over the same operands and the same subquery.
pub open spec fn subquery_told(
    e: ParsedExprView,
    catalog: CatalogView,
    inputs: Seq<InputColumnView>,
    base: usize,
    depth: usize,
    applies: Seq<BoundApplyView>,
    r: (ParsedExprView, Seq<BoundApplyView>),
) -> bool {
    let kind = r.1.last().kind;
    let query = *r.1.last().query;
    match e.kind {
        ParsedExprKindView::ScalarSubquery(q) => {
            &&& kind is Scalar
            &&& nested(*q, catalog, depth, inputs) == Ok::<_, DbErrorView>(query)
            &&& query_schema(query) matches Ok(s) && s.fields.len() == 1 && put_behind(applies, base, query, s.fields[0].data_type, r)
        },
        ParsedExprKindView::Exists { subquery, negated } => {
            &&& kind == (BoundApplyKindView::Exists { negated })
            &&& nested(*subquery, catalog, depth, inputs) == Ok::<_, DbErrorView>(query)
            &&& put_behind(applies, base, query, ScalarTypeView::Boolean, r)
        },
        ParsedExprKindView::InSubquery { expr, subquery, negated } => {
            &&& kind is In
            &&& kind->In_negated == negated
            &&& nested(*subquery, catalog, depth, inputs) == Ok::<_, DbErrorView>(query)
            &&& applied_expr(*expr, catalog, inputs, base, depth, applies) matches Ok((left, before)) && told(
                left,
                input_scope(inputs, false),
                kind->In_left,
            ) && put_behind(before, base, query, ScalarTypeView::Boolean, r)
        },
        ParsedExprKindView::QuantifiedSubquery { left, op, quantifier, subquery } => {
            &&& kind is Quantified
            &&& kind->Quantified_op == op
            &&& kind->Quantified_quantifier == quantifier
            &&& nested(*subquery, catalog, depth, inputs) == Ok::<_, DbErrorView>(query)
            &&& applied_expr(*left, catalog, inputs, base, depth, applies) matches Ok((left, before)) && told(
                left,
                input_scope(inputs, false),
                kind->Quantified_left,
            ) && put_behind(before, base, query, ScalarTypeView::Boolean, r)
        },
        _ => true,
    }
}

proof fn lemma_scalar(query: BoundStatementView, base: usize, applies: Seq<BoundApplyView>, position: Option<usize>)
    ensures
        scalar_applied(query, base, applies, position) matches Ok(r) ==> r.1.last().kind is Scalar && (query_schema(query) matches Ok(s)
            && s.fields.len() == 1 && put_behind(applies, base, query, s.fields[0].data_type, r)),
{
    reveal(scalar_applied);
}

proof fn lemma_exists(query: BoundStatementView, negated: bool, base: usize, applies: Seq<BoundApplyView>, position: Option<usize>)
    ensures
        exists_applied(query, negated, base, applies, position) matches Ok(r) ==> r.1.last().kind == (BoundApplyKindView::Exists { negated })
            && put_behind(applies, base, query, ScalarTypeView::Boolean, r),
{
    reveal(exists_applied);
}

proof fn lemma_operand(
    label: Seq<char>,
    operator: Seq<char>,
    left: ParsedExprView,
    query: BoundStatementView,
    inputs: Seq<InputColumnView>,
    position: Option<usize>,
)
    ensures
        operand_of(label, operator, left, query, inputs, position) matches Ok(b) ==> told(left, input_scope(inputs, false), b),
{
    if let Ok(field) = crate::subquery::scalar_field(query, position) {
        if let Ok(t) = crate::subquery::matched_type(label, operator, left, inputs, field.data_type, position) {
            lemma_told_form(left, input_scope(inputs, false), Some(t));
        }
    }
}

proof fn lemma_in(
    left: ParsedExprView,
    query: BoundStatementView,
    negated: bool,
    inputs: Seq<InputColumnView>,
    base: usize,
    applies: Seq<BoundApplyView>,
    position: Option<usize>,
)
    ensures
        in_applied(left, query, negated, inputs, base, applies, position) matches Ok(r) ==> {
            &&& r.1.last().kind is In
            &&& r.1.last().kind->In_negated == negated
            &&& told(left, input_scope(inputs, false), r.1.last().kind->In_left)
            &&& put_behind(applies, base, query, ScalarTypeView::Boolean, r)
        },
{
    reveal(in_applied);
    lemma_operand("IN types "@, "could not identify an equality operator for type json"@, left, query, inputs, position);
}

proof fn lemma_quantified(
    left: ParsedExprView,
    op: BinaryOperator,
    quantifier: SubqueryQuantifier,
    query: BoundStatementView,
    inputs: Seq<InputColumnView>,
    base: usize,
    applies: Seq<BoundApplyView>,
    position: Option<usize>,
)
    ensures
        quantified_applied(left, op, quantifier, query, inputs, base, applies, position) matches Ok(r) ==> {
            &&& r.1.last().kind is Quantified
            &&& r.1.last().kind->Quantified_op == op
            &&& r.1.last().kind->Quantified_quantifier == quantifier
            &&& told(left, input_scope(inputs, false), r.1.last().kind->Quantified_left)
            &&& put_behind(applies, base, query, ScalarTypeView::Boolean, r)
        },
{
    reveal(quantified_applied);
    lemma_operand(
        "quantified comparison types "@,
        "could not identify a comparison operator for type json"@,
        left,
        query,
        inputs,
        position,
    );
}

/// A subquery and a predicate over one keep their sense: EXISTS, IN, ANY, ALL and NOT,
/// the operator, the operand and the subquery.
pub proof fn lemma_subquery_told(
    e: ParsedExprView,
    catalog: CatalogView,
    inputs: Seq<InputColumnView>,
    base: usize,
    depth: usize,
    applies: Seq<BoundApplyView>,
)
    requires
        e.kind is ScalarSubquery || e.kind is Exists || e.kind is InSubquery || e.kind is QuantifiedSubquery,
    ensures
        applied_expr(e, catalog, inputs, base, depth, applies) matches Ok(r) ==> subquery_told(
            e,
            catalog,
            inputs,
            base,
            depth,
            applies,
            r,
        ),
{
    reveal(applied_expr);
    reveal(nested);
    match e.kind {
        ParsedExprKindView::ScalarSubquery(q) => {
            if let Ok(query) = nested(*q, catalog, depth, inputs) {
                lemma_scalar(query, base, applies, e.position);
            }
        },
        ParsedExprKindView::Exists { subquery, negated } => {
            if let Ok(query) = nested(*subquery, catalog, depth, inputs) {
                lemma_exists(query, negated, base, applies, e.position);
            }
        },
        ParsedExprKindView::InSubquery { expr, subquery, negated } => {
            if let (Ok((left, before)), Ok(query)) = (
                applied_expr(*expr, catalog, inputs, base, depth, applies),
                nested(*subquery, catalog, depth, inputs),
            ) {
                lemma_in(left, query, negated, inputs, base, before, e.position);
            }
        },
        ParsedExprKindView::QuantifiedSubquery { left, op, quantifier, subquery } => {
            if let (Ok((left, before)), Ok(query)) = (
                applied_expr(*left, catalog, inputs, base, depth, applies),
                nested(*subquery, catalog, depth, inputs),
            ) {
                lemma_quantified(left, op, quantifier, query, inputs, base, before, e.position);
            }
        },
        _ => {},
    }
}

/// A comparison of a row with a subquery keeps its operator, its NOT and its ANY or ALL,
/// and the subquery has as many columns as the row has members.
pub proof fn lemma_row_subquery_told(
    left: Seq<ParsedExprView>,
    op: BinaryOperator,
    quantifier: Option<SubqueryQuantifier>,
    negated: bool,
    query: BoundStatementView,
    inputs: Seq<InputColumnView>,
    base: usize,
    applies: Seq<BoundApplyView>,
    position: Option<usize>,
)
    ensures
        row_applied(left, op, quantifier, negated, query, inputs, base, applies, position) matches Ok(r) ==> {
            let kind = r.1.last().kind;
            &&& put_behind(applies, base, query, ScalarTypeView::Boolean, r)
            &&& query_schema(query) matches Ok(s) && s.fields.len() == left.len()
            &&& quantifier is None ==> kind is RowScalar && kind->RowScalar_op == op && all_told(
                left,
                input_scope(inputs, false),
                kind->RowScalar_left,
            )
            &&& quantifier is Some ==> kind is RowQuantified && kind->RowQuantified_op == op && kind->RowQuantified_quantifier
                == quantifier->0 && kind->RowQuantified_negated == negated && all_told(
                left,
                input_scope(inputs, false),
                kind->RowQuantified_left,
            )
        },
{
    reveal(row_applied);
    if let Ok(s) = query_schema(query) {
        if left.len() == s.fields.len() {
            assert(left.take(0) =~= Seq::empty());
            lemma_row_members(left, s.fields, inputs, position, 0, Seq::empty(), Seq::empty());
        }
    }
}

proof fn lemma_row_members(
    left: Seq<ParsedExprView>,
    fields: Seq<FieldView>,
    inputs: Seq<InputColumnView>,
    position: Option<usize>,
    i: int,
    bound: Seq<BoundExprView>,
    types: Seq<ScalarTypeView>,
)
    requires
        0 <= i <= left.len(),
        left.len() == fields.len(),
        all_told(left.take(i), input_scope(inputs, false), bound),
    ensures
        row_of(left, fields, inputs, position, i, bound, types) matches Ok((r, _)) ==> all_told(left, input_scope(inputs, false), r),
    decreases left.len() - i,
{
    if i >= left.len() {
        assert(left.take(i) =~= left);
    } else if let Ok(t) = crate::subquery::matched_type(
        "row comparison types "@,
        "could not identify an equality operator for type json"@,
        left[i],
        inputs,
        fields[i].data_type,
        position,
    ) {
        let scope = input_scope(inputs, false);
        lemma_told_form(left[i], scope, Some(t));
        if let Ok(b) = bound_form(left[i], scope, Some(t)) {
            let next = bound.push(b);
            let prefix = left.take(i + 1);
            assert forall|k: int| 0 <= k < prefix.len() implies told(#[trigger] prefix[k], scope, next[k]) by {
                if k < i {
                    assert(prefix[k] == left.take(i)[k]);
                    assert(next[k] == bound[k]);
                }
            }
            lemma_row_members(left, fields, inputs, position, i + 1, next, types.push(t));
        }
    }
}

proof fn lemma_window_orders(l: Seq<ParsedOrderView>, inputs: Seq<InputColumnView>, i: int, done: Seq<BoundOrderView>)
    requires
        0 <= i <= l.len(),
        orders_told(l.take(i), done),
    ensures
        window_orders(l, inputs, i, done) matches Ok(r) ==> orders_told(l, r),
    decreases l.len() - i,
{
    if i >= l.len() {
        assert(l.take(i) =~= l);
    } else if let Ok(b) = window_order(l[i], inputs) {
        lemma_next_order(l, i, done, b);
        lemma_window_orders(l, inputs, i + 1, done.push(b));
    }
}

/// Whether a bound of a frame is the one that was written.
pub open spec fn frame_bound_told(b: ParsedWindowFrameBoundView, r: BoundWindowFrameBoundView) -> bool {
    match b {
        ParsedWindowFrameBoundView::UnboundedPreceding => r is UnboundedPreceding,
        ParsedWindowFrameBoundView::Preceding(e) => r is Preceding && told(*e, input_scope(Seq::empty(), false), r->Preceding_0),
        ParsedWindowFrameBoundView::CurrentRow => r is CurrentRow,
        ParsedWindowFrameBoundView::Following(e) => r is Following && told(*e, input_scope(Seq::empty(), false), r->Following_0),
        ParsedWindowFrameBoundView::UnboundedFollowing => r is UnboundedFollowing,
    }
}

proof fn lemma_frame_bound(b: ParsedWindowFrameBoundView, t: ScalarTypeView, position: Option<usize>)
    ensures
        crate::windows::frame_bound(b, t, position) matches Ok(r) ==> frame_bound_told(b, r),
{
    match b {
        ParsedWindowFrameBoundView::Preceding(e) => lemma_told_form(*e, input_scope(Seq::empty(), false), Some(t)),
        ParsedWindowFrameBoundView::Following(e) => lemma_told_form(*e, input_scope(Seq::empty(), false), Some(t)),
        _ => {},
    }
}

proof fn lemma_window_call(call: ParsedWindowCallView, inputs: Seq<InputColumnView>, position: Option<usize>)
    ensures
        window_call(call, inputs, position) matches Ok(c) ==> {
            &&& c.function == call.function
            &&& call.function is Aggregate ==> c.count_star == call.count_star && (call.filter is Some <==> c.filter is Some) && (
            call.filter is Some ==> told(*call.filter->0, input_scope(inputs, true), c.filter->0))
            &&& c.arguments.len() <= call.arguments.len()
            &&& c.arguments.len() > 0 ==> told(call.arguments[0], input_scope(inputs, true), c.arguments[0])
            &&& c.arguments.len() > 1 ==> told(call.arguments[1], input_scope(inputs, false), c.arguments[1])
            &&& c.arguments.len() > 2 ==> told(call.arguments[2], input_scope(inputs, false), c.arguments[2])
        },
{
    let all = input_scope(inputs, true);
    let plain = input_scope(inputs, false);
    if call.arguments.len() > 0 {
        lemma_told_form(call.arguments[0], all, None);
    }
    if call.arguments.len() > 1 {
        lemma_told_form(call.arguments[1], plain, Some(ScalarTypeView::Int64));
    }
    if call.arguments.len() > 2 {
        if let Ok(first) = bound_form(call.arguments[0], all, None) {
            lemma_told_form(call.arguments[2], plain, Some(first.data_type));
        }
    }
    if let Some(f) = call.filter {
        lemma_told_form(*f, all, Some(ScalarTypeView::Boolean));
    }
}

/// A window that is bound keeps its function and arguments, its PARTITION BY, its ORDER BY
/// with the directions, and its frame.
pub proof fn lemma_window_told(
    call: ParsedWindowCallView,
    spec: ParsedWindowSpecView,
    inputs: Seq<InputColumnView>,
    position: Option<usize>,
)
    ensures
        window_of_call(call, spec, inputs, position) matches Ok(w) ==> {
            &&& w.function == call.function
            &&& call.function is Aggregate ==> w.count_star == call.count_star && (call.filter is Some <==> w.filter is Some)
            &&& w.arguments.len() > 0 ==> told(call.arguments[0], input_scope(inputs, true), w.arguments[0])
            &&& w.arguments.len() > 1 ==> told(call.arguments[1], input_scope(inputs, false), w.arguments[1])
            &&& all_told(spec.partition_by, input_scope(inputs, true), w.partition_by)
            &&& orders_told(spec.order_by, w.order_by)
            &&& spec.frame is Some <==> w.frame is Some
            &&& spec.frame is Some ==> w.frame->0.units == spec.frame->0.units && frame_bound_told(
                spec.frame->0.start_bound,
                w.frame->0.start_bound,
            ) && frame_bound_told(spec.frame->0.end_bound, w.frame->0.end_bound)
        },
{
    reveal(window_of_call);
    lemma_window_call(call, inputs, position);
    assert(spec.partition_by.take(0) =~= Seq::empty());
    lemma_list(spec.partition_by, input_scope(inputs, true), Expectation::Each(None), 0, Seq::empty());
    assert(spec.order_by.take(0) =~= Seq::empty());
    lemma_window_orders(spec.order_by, inputs, 0, Seq::empty());
    if let Some(f) = spec.frame {
        if let Ok(order_by) = window_orders(spec.order_by, inputs, 0, Seq::empty()) {
            if let Ok(t) = crate::windows::offset_type(f, inputs, order_by, position) {
                lemma_frame_bound(f.start_bound, t, position);
                lemma_frame_bound(f.end_bound, t, position);
            }
        }
    }
}

} // verus!
