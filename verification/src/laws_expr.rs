//! What a bound expression keeps of the expression that was written.

use vstd::prelude::*;

use crate::binding::{bound_form, bound_list, bound_option, predicate_of, predicate_some, Expectation};
use crate::bound::{BoundExprKindView, BoundExprView};
use crate::catalog::lemma_column_index;
use crate::scope::{first_answer, lemma_first_answer, Checked, InputColumnView, ScopeView};
use crate::soundness::held;
use crate::syntax::{AggregateFunction, ParsedExprKindView, ParsedExprView, ParsedObjectNameView, UnaryOperator};
use crate::types::ScalarTypeView;

verus! {

/// Whether a column of a FROM clause goes by a name, with a qualifier or without.
pub open spec fn goes_by(c: InputColumnView, name: ParsedObjectNameView) -> bool {
    &&& c.name == name.parts.last().name
    &&& name.parts.len() == 2 ==> c.binding == name.parts[0].name
}

/// Whether a bound expression is the column of a scope that a name denotes: the column
/// of that name of the table, or the one column of that name of the FROM clause, which
/// hides those of enclosing queries.
pub open spec fn denotes(name: ParsedObjectNameView, scope: ScopeView, b: BoundExprView) -> bool {
    match scope {
        ScopeView::Table { table, .. } => {
            &&& table is Some
            &&& name.parts.len() == 1 || name.parts.len() == 2 && name.parts[0].name == table->0.name
            &&& b.kind is Column
            &&& b.kind->Column_index < table->0.columns.len()
            &&& table->0.columns[b.kind->Column_index as int].name == name.parts.last().name
            &&& table->0.columns[b.kind->Column_index as int].data_type == b.data_type
            &&& table->0.columns[b.kind->Column_index as int].nullable == b.nullable
        },
        ScopeView::Inputs { inputs, .. } => exists|k: int|
            {
                &&& 0 <= k < inputs.len()
                &&& goes_by(#[trigger] inputs[k], name)
                &&& inputs[k].data_type == b.data_type
                &&& inputs[k].nullable == b.nullable
                &&& b.kind == if inputs[k].outer_depth == 0 {
                    BoundExprKindView::Column { index: inputs[k].index }
                } else {
                    BoundExprKindView::Correlation { depth: inputs[k].outer_depth, index: inputs[k].index }
                }
                &&& forall|j: int|
                    0 <= j < inputs.len() && j != k && goes_by(#[trigger] inputs[j], name) ==> inputs[k].outer_depth == 0
                        && inputs[j].outer_depth > 0
            },
    }
}

/// Whether a bound expression is the one that was written, part by part: the same
/// constants, parameters, operators, functions and casts, over the columns that its
/// names denote.
pub open spec fn mirrors(e: ParsedExprView, scope: ScopeView, b: BoundExprView) -> bool
    decreases e, 0int,
{
    match e.kind {
        ParsedExprKindView::Column(name) => denotes(name, scope, b),
        ParsedExprKindView::Literal(v) => b.kind == BoundExprKindView::Literal(v),
        ParsedExprKindView::Parameter(index) => b.kind == (BoundExprKindView::Parameter { index }),
        ParsedExprKindView::ResolvedParameter { index, data_type } => b.kind == (BoundExprKindView::Parameter { index }) && b.data_type
            == data_type,
        ParsedExprKindView::ApplyValue { index, data_type, nullable } => b.kind == (BoundExprKindView::ApplyValue { index }) && b.data_type
            == data_type && b.nullable == nullable,
        ParsedExprKindView::Unary { op, expr } => {
            &&& b.kind is Unary
            &&& b.kind->Unary_op == op
            &&& mirrors(*expr, scope, *b.kind->Unary_expr)
            &&& op == UnaryOperator::Not ==> b.data_type is Boolean
        },
        ParsedExprKindView::Cast { expr, data_type, .. } => {
            &&& b.kind is Cast
            &&& b.data_type == data_type
            &&& mirrors(*expr, scope, *b.kind->Cast_expr)
        },
        ParsedExprKindView::Array { elements, dimensions } => {
            &&& b.kind is Array
            &&& b.kind->Array_dimensions == dimensions
            &&& all_mirror(elements, scope, b.kind->Array_elements, 0)
        },
        ParsedExprKindView::Function { function, arguments } => {
            &&& b.kind is Function
            &&& b.kind->Function_function == function
            &&& all_mirror(arguments, scope, b.kind->Function_arguments, 0)
        },
        ParsedExprKindView::Binary { left, op, right } => {
            &&& b.kind is Binary
            &&& b.kind->Binary_op == op
            &&& mirrors(*left, scope, *b.kind->Binary_left)
            &&& mirrors(*right, scope, *b.kind->Binary_right)
            &&& !(op is Add || op is Subtract || op is Multiply || op is Divide || op is Modulo) ==> b.data_type is Boolean
        },
        ParsedExprKindView::InList { expr, list, negated } => {
            &&& b.kind is InList
            &&& b.kind->InList_negated == negated
            &&& mirrors(*expr, scope, *b.kind->InList_expr)
            &&& all_mirror(list, scope, b.kind->InList_list, 0)
            &&& b.data_type is Boolean
        },
        ParsedExprKindView::Aggregate { function, argument, distinct, filter } => {
            &&& b.kind is Aggregate
            &&& b.kind->Aggregate_function == function
            &&& b.kind->Aggregate_distinct == distinct
            &&& argument is Some <==> b.kind->Aggregate_argument is Some
            &&& argument is Some ==> mirrors(*argument->0, scope.without_aggregates(), *b.kind->Aggregate_argument->0)
            &&& filter is Some <==> b.kind->Aggregate_filter is Some
            &&& filter is Some ==> mirrors(*filter->0, scope.without_aggregates(), *b.kind->Aggregate_filter->0)
                && b.kind->Aggregate_filter->0.data_type is Boolean
            &&& match function {
                AggregateFunction::Count => b.data_type is Int64 && !b.nullable,
                AggregateFunction::Avg => b.data_type is Float64 && b.nullable,
                AggregateFunction::Sum => b.nullable && argument is Some,
                AggregateFunction::Min | AggregateFunction::Max => b.nullable && argument is Some && b.data_type
                    == b.kind->Aggregate_argument->0.data_type,
            }
        },
        _ => false,
    }
}

/// Whether bound expressions are those of a list, from one of them on.
pub open spec fn all_mirror(l: Seq<ParsedExprView>, scope: ScopeView, r: Seq<BoundExprView>, i: int) -> bool
    decreases l, l.len() - i,
{
    &&& l.len() == r.len()
    &&& 0 <= i < l.len() ==> mirrors(l[i], scope, r[i]) && all_mirror(l, scope, r, i + 1)
}

/// Whether a binding failed or gave what was written.
pub open spec fn form_mirrors(e: ParsedExprView, scope: ScopeView, r: Checked<BoundExprView>) -> bool {
    r matches Ok(b) ==> mirrors(e, scope, b)
}

proof fn lemma_alone(inputs: Seq<InputColumnView>, qualifier: Option<Seq<char>>, name: Seq<char>, local: bool, i: int)
    requires
        0 <= i,
    ensures
        first_answer(inputs, qualifier, name, local, i) matches Some(k) ==> forall|j: int|
            i <= j < k ==> !crate::scope::answers(#[trigger] inputs[j], qualifier, name, local),
        first_answer(inputs, qualifier, name, local, i) is None ==> forall|j: int|
            i <= j < inputs.len() ==> !crate::scope::answers(#[trigger] inputs[j], qualifier, name, local),
    decreases inputs.len() - i,
{
    if i < inputs.len() && !crate::scope::answers(inputs[i], qualifier, name, local) {
        lemma_alone(inputs, qualifier, name, local, i + 1);
    }
}

proof fn lemma_column_mirrors(e: ParsedExprView, scope: ScopeView, expected: Option<ScalarTypeView>)
    requires
        held(scope),
        e.kind is Column,
    ensures
        form_mirrors(e, scope, bound_form(e, scope, expected)),
{
    let name = e.kind->Column_0;
    match scope {
        ScopeView::Table { table, .. } => {
            if table is Some && name.parts.len() > 0 {
                lemma_column_index(table->0.columns, name.parts.last().name, 0);
            }
        },
        ScopeView::Inputs { inputs, .. } => {
            if let Ok(b) = bound_form(e, scope, expected) {
                let q = if name.parts.len() == 1 {
                    None
                } else {
                    Some(name.parts[0].name)
                };
                let n = name.parts.last().name;
                lemma_first_answer(inputs, q, n, true, 0);
                lemma_first_answer(inputs, q, n, false, 0);
                lemma_alone(inputs, q, n, true, 0);
                lemma_alone(inputs, q, n, false, 0);
                let local = first_answer(inputs, q, n, true, 0) is Some;
                let k = first_answer(inputs, q, n, local, 0)->0;
                lemma_alone(inputs, q, n, local, k + 1);
                assert(goes_by(inputs[k], name));
                assert forall|j: int| 0 <= j < inputs.len() && j != k && goes_by(#[trigger] inputs[j], name) implies inputs[k].outer_depth == 0
                    && inputs[j].outer_depth > 0 by {
                    assert(!crate::scope::answers(inputs[j], q, n, local));
                }
            }
        },
    }
}

/// An expression that is bound is the one that was written, part by part.
pub proof fn lemma_bound_mirrors(e: ParsedExprView, scope: ScopeView, expected: Option<ScalarTypeView>)
    requires
        held(scope),
    ensures
        form_mirrors(e, scope, bound_form(e, scope, expected)),
    decreases e, 1int,
{
    match e.kind {
        ParsedExprKindView::Column(_) => lemma_column_mirrors(e, scope, expected),
        ParsedExprKindView::Unary { op, expr } => lemma_bound_mirrors(
            *expr,
            scope,
            if op == UnaryOperator::Not {
                Some(ScalarTypeView::Boolean)
            } else {
                expected
            },
        ),
        ParsedExprKindView::Cast { expr, data_type, .. } => {
            lemma_bound_mirrors(*expr, scope, Some(data_type));
            lemma_bound_mirrors(*expr, scope, None);
        },
        ParsedExprKindView::Array { elements, .. } => lemma_elements_mirror(e, scope, expected),
        ParsedExprKindView::Function { .. } => lemma_call_mirrors(e, scope, expected),
        ParsedExprKindView::Binary { .. } => lemma_operands_mirror(e, scope, expected),
        ParsedExprKindView::InList { .. } => lemma_membership_mirrors(e, scope, expected),
        ParsedExprKindView::Aggregate { argument, filter, .. } => {
            let inner = scope.without_aggregates();
            if let Some(a) = argument {
                lemma_bound_mirrors(*a, inner, None);
            }
            if let Some(f) = filter {
                lemma_bound_mirrors(*f, inner, Some(ScalarTypeView::Boolean));
            }
            let a = bound_option(argument, inner, None);
            let f = bound_option(filter, inner, Some(ScalarTypeView::Boolean));
            assert(a matches Ok(a) ==> (argument is Some <==> a is Some));
            assert(f matches Ok(f) ==> (filter is Some <==> f is Some));
            assert(a matches Ok(Some(a)) ==> mirrors(*argument->0, inner, a));
            assert(f matches Ok(Some(f)) ==> mirrors(*filter->0, inner, f));
        },
        _ => {},
    }
}

proof fn lemma_elements_mirror(e: ParsedExprView, scope: ScopeView, expected: Option<ScalarTypeView>)
    requires
        held(scope),
        e.kind is Array,
    ensures
        form_mirrors(e, scope, bound_form(e, scope, expected)),
    decreases e, 0int,
{
    if let ParsedExprKindView::Array { elements, .. } = e.kind {
        if let Ok(b) = bound_form(e, scope, expected) {
            if let ScalarTypeView::Array { element } = b.data_type {
                lemma_bound_list_mirrors(elements, scope, Expectation::Each(Some(*element)), 0, Seq::empty());
            }
        }
    }
}

proof fn lemma_call_mirrors(e: ParsedExprView, scope: ScopeView, expected: Option<ScalarTypeView>)
    requires
        held(scope),
        e.kind is Function,
    ensures
        form_mirrors(e, scope, bound_form(e, scope, expected)),
    decreases e, 0int,
{
    if let ParsedExprKindView::Function { function, arguments } = e.kind {
        if let Ok(inferred) = crate::expr::type_of(e, scope) {
            let shared = if crate::typing::shares_type(function) {
                inferred
            } else {
                None
            };
            lemma_bound_list_mirrors(arguments, scope, Expectation::Argument(function, shared), 0, Seq::empty());
        }
    }
}

proof fn lemma_operands_mirror(e: ParsedExprView, scope: ScopeView, expected: Option<ScalarTypeView>)
    requires
        held(scope),
        e.kind is Binary,
    ensures
        form_mirrors(e, scope, bound_form(e, scope, expected)),
    decreases e, 0int,
{
    if let ParsedExprKindView::Binary { left, op, right } = e.kind {
        lemma_bound_mirrors(*left, scope, Some(ScalarTypeView::Boolean));
        lemma_bound_mirrors(*right, scope, Some(ScalarTypeView::Boolean));
        if let (Ok(lt), Ok(rt)) = (crate::expr::type_of(*left, scope), crate::expr::type_of(*right, scope)) {
            if let Ok(t) = crate::binding::operand_type(
                op,
                lt,
                rt,
                scope is Table,
                crate::expr::unknown_text(*left),
                crate::expr::unknown_text(*right),
                expected,
                e.position,
            ) {
                lemma_bound_mirrors(*left, scope, Some(t));
                lemma_bound_mirrors(*right, scope, Some(t));
            }
        }
    }
}

proof fn lemma_membership_mirrors(e: ParsedExprView, scope: ScopeView, expected: Option<ScalarTypeView>)
    requires
        held(scope),
        e.kind is InList,
    ensures
        form_mirrors(e, scope, bound_form(e, scope, expected)),
    decreases e, 0int,
{
    if let ParsedExprKindView::InList { expr, list, .. } = e.kind {
        if let Ok(start) = crate::expr::type_of(*expr, scope) {
            let meeting = crate::expr::Meeting {
                label: "IN types "@,
                literal: scope is Table,
                left_unknown: crate::expr::unknown_text(*expr),
            };
            if let Ok(met) = crate::expr::meeting_type(list, scope, 0, start, meeting, e.position) {
                if let Ok(t) = crate::binding::membership_type(met, e.position) {
                    lemma_bound_mirrors(*expr, scope, Some(t));
                    lemma_bound_list_mirrors(list, scope, Expectation::Each(Some(t)), 0, Seq::empty());
                }
            }
        }
    }
}

proof fn lemma_all_mirror(l: Seq<ParsedExprView>, scope: ScopeView, r: Seq<BoundExprView>, i: int)
    requires
        0 <= i,
        l.len() == r.len(),
        forall|k: int| 0 <= k < l.len() ==> mirrors(#[trigger] l[k], scope, r[k]),
    ensures
        all_mirror(l, scope, r, i),
    decreases l.len() - i,
{
    if i < l.len() {
        assert(mirrors(l[i], scope, r[i]));
        lemma_all_mirror(l, scope, r, i + 1);
    }
}

/// A list that is bound holds what was written, entry by entry.
pub proof fn lemma_bound_list_mirrors(
    l: Seq<ParsedExprView>,
    scope: ScopeView,
    expected: Expectation,
    i: int,
    done: Seq<BoundExprView>,
)
    requires
        held(scope),
        0 <= i <= l.len(),
        done.len() == i,
        forall|k: int| 0 <= k < i ==> mirrors(#[trigger] l[k], scope, done[k]),
    ensures
        bound_list(l, scope, expected, i, done) matches Ok(r) ==> r.len() == l.len() && all_mirror(l, scope, r, 0),
    decreases l, l.len() - i,
{
    if i >= l.len() {
        lemma_all_mirror(l, scope, done, 0);
    } else {
        lemma_bound_mirrors(l[i], scope, expected.at(i));
        if let Ok(b) = bound_form(l[i], scope, expected.at(i)) {
            let next = done.push(b);
            assert forall|k: int| 0 <= k < i + 1 implies mirrors(#[trigger] l[k], scope, next[k]) by {
                if k < i {
                    assert(next[k] == done[k]);
                }
            }
            lemma_bound_list_mirrors(l, scope, expected, i + 1, next);
        }
    }
}

/// Whether a condition is there exactly where it was written, is a boolean and is the
/// one that was written.
pub open spec fn condition_kept(e: Option<ParsedExprView>, scope: ScopeView, b: Option<BoundExprView>) -> bool {
    &&& e is Some <==> b is Some
    &&& e is Some ==> b->0.data_type is Boolean && mirrors(e->0, scope, b->0)
}

/// A condition that is bound is a boolean and is the one that was written.
pub proof fn lemma_condition_kept(e: Option<ParsedExprView>, scope: ScopeView)
    requires
        held(scope),
    ensures
        predicate_some(e, scope) matches Ok(b) ==> condition_kept(e, scope, b),
        e matches Some(x) ==> (predicate_of(x, scope) matches Ok(b) ==> b.data_type is Boolean && mirrors(x, scope, b)),
{
    if let Some(e) = e {
        lemma_bound_mirrors(e, scope, Some(ScalarTypeView::Boolean));
    }
}

} // verus!
