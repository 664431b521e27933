//! Where a parameter stands tells its type.

use vstd::prelude::*;

use crate::catalog::CatalogView;
use crate::laws_growth::{grows_constrained_by, grows_each, grows_expr, grows_meet, grows_option};
use crate::scope::{column_in_inputs, InputColumnView};
use crate::solver_rules::{
    grown, operand_type, solve_each, solve_expr, solve_meet, solve_membership, solve_option, unfold_solve_binary, unfold_solve_each,
    unfold_solve_expr, unfold_solve_function, unfold_solve_membership, unfold_solve_option, SolverView,
};
use crate::syntax::{ParsedExprKindView, ParsedExprView, ScalarFunction, UnaryOperator};
use crate::types::{type_of_value, ScalarTypeView};

verus! {

/// Whether a parameter is known to have a type.
pub open spec fn known(s: SolverView, n: usize, t: ScalarTypeView) -> bool {
    s.types.dom().contains(n) && s.types[n] == t
}

/// Whether an expression has a type of its own: a column has the type of its column and
/// a constant that of its value.
pub open spec fn fixed(e: ParsedExprView, inputs: Seq<InputColumnView>, t: ScalarTypeView) -> bool {
    match e.kind {
        ParsedExprKindView::Column(name) => column_in_inputs(name, inputs) matches Ok(k) && inputs[k].data_type == t,
        ParsedExprKindView::Literal(v) => type_of_value(v) == Some(t),
        _ => false,
    }
}

/// Whether an expression that is expected to have a type asks a parameter to have one:
/// the parameter itself, where a type is expected of it; under NOT, AND and OR, where a
/// boolean is; under a cast, the type that it is cast to; next to a column or a constant
/// in a comparison or in arithmetic, the type of that; and as an argument of a function,
/// the type that the function takes.
pub open spec fn asks(
    e: ParsedExprView,
    expected: Option<ScalarTypeView>,
    inputs: Seq<InputColumnView>,
    n: usize,
    t: ScalarTypeView,
) -> bool
    decreases e, 0int,
{
    match e.kind {
        ParsedExprKindView::Parameter(index) => index == n && expected == Some(t),
        ParsedExprKindView::ResolvedParameter { index, data_type } => index == n && (data_type == t || expected == Some(t)),
        ParsedExprKindView::Unary { op, expr } => if op == UnaryOperator::Not {
            asks(*expr, Some(ScalarTypeView::Boolean), inputs, n, t)
        } else {
            asks(*expr, expected, inputs, n, t)
        },
        ParsedExprKindView::Cast { expr, data_type, .. } => match expr.kind {
            ParsedExprKindView::Parameter(index) => index == n && data_type == t,
            ParsedExprKindView::ResolvedParameter { index, .. } => index == n && data_type == t,
            _ => asks(*expr, None, inputs, n, t),
        },
        ParsedExprKindView::Binary { left, op, right } => if op is And || op is Or {
            asks(*left, Some(ScalarTypeView::Boolean), inputs, n, t) || asks(*right, Some(ScalarTypeView::Boolean), inputs, n, t)
        } else {
            ||| left.kind == ParsedExprKindView::Parameter(n) && fixed(*right, inputs, t)
            ||| right.kind == ParsedExprKindView::Parameter(n) && fixed(*left, inputs, t)
            ||| asks(*left, None, inputs, n, t)
            ||| asks(*right, None, inputs, n, t)
        },
        ParsedExprKindView::InList { expr, list, .. } => asks(*expr, None, inputs, n, t),
        ParsedExprKindView::Function { function, arguments } => match function {
            ScalarFunction::Lower | ScalarFunction::Upper | ScalarFunction::Btrim | ScalarFunction::Ltrim | ScalarFunction::Rtrim
            | ScalarFunction::Replace | ScalarFunction::Strpos => any_asks(
                arguments,
                Some(ScalarTypeView::Text),
                inputs,
                n,
                t,
                0,
            ),
            ScalarFunction::Substring => {
                ||| arguments.len() > 0 && asks(arguments[0], Some(ScalarTypeView::Text), inputs, n, t)
                ||| any_asks(arguments, Some(ScalarTypeView::Int32), inputs, n, t, 1)
            },
            ScalarFunction::JsonbTypeof => arguments.len() > 0 && asks(arguments[0], Some(ScalarTypeView::Jsonb), inputs, n, t),
            ScalarFunction::ArrayLength => arguments.len() > 1 && asks(arguments[1], Some(ScalarTypeView::Int32), inputs, n, t),
            _ => false,
        },
        ParsedExprKindView::Aggregate { filter, .. } => filter is Some && asks(
            *filter->0,
            Some(ScalarTypeView::Boolean),
            inputs,
            n,
            t,
        ),
        _ => false,
    }
}

/// Whether an expression of a list asks, from one of them on.
pub open spec fn any_asks(
    l: Seq<ParsedExprView>,
    expected: Option<ScalarTypeView>,
    inputs: Seq<InputColumnView>,
    n: usize,
    t: ScalarTypeView,
    i: int,
) -> bool
    decreases l, l.len() - i,
{
    0 <= i < l.len() && (asks(l[i], expected, inputs, n, t) || any_asks(l, expected, inputs, n, t, i + 1))
}

/// Whether a clause of which a type is expected asks.
pub open spec fn clause_asks(
    e: Option<ParsedExprView>,
    expected: ScalarTypeView,
    inputs: Seq<InputColumnView>,
    n: usize,
    t: ScalarTypeView,
) -> bool {
    e is Some && asks(e->0, Some(expected), inputs, n, t)
}

/// Whether a clause asks whatever the columns around it are.
pub open spec fn always_asks(e: Option<ParsedExprView>, expected: ScalarTypeView, n: usize, t: ScalarTypeView) -> bool {
    forall|inputs: Seq<InputColumnView>| #[trigger] clause_asks(e, expected, inputs, n, t)
}

/// A type that is known stays known.
pub proof fn lemma_known_grows(a: SolverView, b: SolverView, n: usize, t: ScalarTypeView)
    requires
        grown(a, b),
        known(a, n, t),
    ensures
        known(b, n, t),
{
}

/// An expression that asks a parameter to have a type either gives it that type or is
/// refused.
pub proof fn lemma_asked_is_known(
    e: ParsedExprView,
    expected: Option<ScalarTypeView>,
    inputs: Seq<InputColumnView>,
    catalog: CatalogView,
    depth: usize,
    s: SolverView,
    n: usize,
    t: ScalarTypeView,
)
    requires
        asks(e, expected, inputs, n, t),
    ensures
        solve_expr(e, expected, inputs, catalog, depth, s).1 is Ok ==> known(
            solve_expr(e, expected, inputs, catalog, depth, s).0,
            n,
            t,
        ),
    decreases e, 1int,
{
    let d = (depth + 1) as usize;
    let r = solve_expr(e, expected, inputs, catalog, depth, s);
    match e.kind {
        ParsedExprKindView::Parameter(_) => unfold_solve_expr(e, expected, inputs, catalog, depth, s),
        ParsedExprKindView::ResolvedParameter { index, data_type } => {
            unfold_solve_expr(e, expected, inputs, catalog, depth, s);
            let s2 = crate::solver_rules::constrained(index, data_type, e.position, s).0;
            grows_constrained_by(Some(index), expected, e.position, s2);
        },
        ParsedExprKindView::Unary { op, expr } => {
            unfold_solve_expr(e, expected, inputs, catalog, depth, s);
            let wanted = if op == UnaryOperator::Not {
                Some(ScalarTypeView::Boolean)
            } else {
                expected
            };
            lemma_asked_is_known(*expr, wanted, inputs, catalog, d, s, n, t);
        },
        ParsedExprKindView::Cast { expr, data_type, .. } => {
            unfold_solve_expr(e, expected, inputs, catalog, depth, s);
            if let Some(index) = crate::solver_rules::parameter_index(*expr) {
                let s2 = crate::solver_rules::constrained(index, data_type, expr.position, s).0;
                grows_expr(*expr, Some(data_type), inputs, catalog, d, s2);
                if r.1 is Ok {
                    assert(known(s2, n, t));
                    lemma_known_grows(s2, r.0, n, t);
                }
            } else {
                lemma_asked_is_known(*expr, None, inputs, catalog, d, s, n, t);
            }
        },
        ParsedExprKindView::Binary { .. } => lemma_operand_known(e, expected, inputs, catalog, depth, s, n, t),
        ParsedExprKindView::InList { .. } => {
            unfold_solve_expr(e, expected, inputs, catalog, depth, s);
            lemma_member_known(e, inputs, catalog, depth, s, n, t);
        },
        ParsedExprKindView::Function { .. } => lemma_argument_known(e, expected, inputs, catalog, depth, s, n, t),
        ParsedExprKindView::Aggregate { argument, filter, .. } => {
            unfold_solve_expr(e, expected, inputs, catalog, depth, s);
            let boolean = Some(ScalarTypeView::Boolean);
            unfold_solve_option(filter, boolean, inputs, catalog, d, s);
            lemma_asked_is_known(*filter->0, boolean, inputs, catalog, d, s, n, t);
            let s2 = solve_option(filter, boolean, inputs, catalog, d, s).0;
            grows_option(argument, None, inputs, catalog, d, s2);
            if r.1 is Ok {
                assert(known(s2, n, t));
                lemma_known_grows(s2, r.0, n, t);
            }
        },
        _ => {},
    }
}

proof fn lemma_fixed(
    e: ParsedExprView,
    inputs: Seq<InputColumnView>,
    catalog: CatalogView,
    depth: usize,
    s: SolverView,
    t: ScalarTypeView,
)
    requires
        fixed(e, inputs, t),
    ensures
        solve_expr(e, None, inputs, catalog, depth, s).0 == s,
        solve_expr(e, None, inputs, catalog, depth, s).1 matches Ok(u) ==> u == Some(t),
{
    unfold_solve_expr(e, None, inputs, catalog, depth, s);
}

proof fn lemma_operand_known(
    e: ParsedExprView,
    expected: Option<ScalarTypeView>,
    inputs: Seq<InputColumnView>,
    catalog: CatalogView,
    depth: usize,
    s: SolverView,
    n: usize,
    t: ScalarTypeView,
)
    requires
        e.kind is Binary,
        asks(e, expected, inputs, n, t),
    ensures
        solve_expr(e, expected, inputs, catalog, depth, s).1 is Ok ==> known(
            solve_expr(e, expected, inputs, catalog, depth, s).0,
            n,
            t,
        ),
    decreases e, 0int,
{
    unfold_solve_expr(e, expected, inputs, catalog, depth, s);
    if let ParsedExprKindView::Binary { left, op, right } = e.kind {
        unfold_solve_binary(*left, op, *right, expected, inputs, catalog, depth, s);
        let d = (depth + 1) as usize;
        if op is And || op is Or {
            let boolean = Some(ScalarTypeView::Boolean);
            let s1 = solve_expr(*left, boolean, inputs, catalog, d, s).0;
            grows_expr(*right, boolean, inputs, catalog, d, s1);
            if asks(*left, boolean, inputs, n, t) {
                lemma_asked_is_known(*left, boolean, inputs, catalog, d, s, n, t);
            } else {
                lemma_asked_is_known(*right, boolean, inputs, catalog, d, s1, n, t);
            }
        } else {
            let (s1, lt) = solve_expr(*left, None, inputs, catalog, d, s);
            let (s2, rt) = solve_expr(*right, None, inputs, catalog, d, s1);
            grows_expr(*right, None, inputs, catalog, d, s1);
            if lt is Ok && rt is Ok {
                let (lt, rt) = (lt->Ok_0, rt->Ok_0);
                let s3 = crate::solver_rules::constrained_by(crate::solver_rules::parameter_index(*left), rt, left.position, s2).0;
                grows_constrained_by(crate::solver_rules::parameter_index(*left), rt, left.position, s2);
                let s4 = crate::solver_rules::constrained_by(crate::solver_rules::parameter_index(*right), lt, right.position, s3).0;
                grows_constrained_by(crate::solver_rules::parameter_index(*right), lt, right.position, s3);
                let met = operand_type(op, lt, rt, expected);
                let s5 = solve_expr(*left, met, inputs, catalog, d, s4).0;
                grows_expr(*left, met, inputs, catalog, d, s4);
                grows_expr(*right, met, inputs, catalog, d, s5);
                if left.kind == ParsedExprKindView::Parameter(n) && fixed(*right, inputs, t) {
                    lemma_fixed(*right, inputs, catalog, d, s1, t);
                    assert(solve_expr(e, expected, inputs, catalog, depth, s).1 is Ok ==> known(s3, n, t));
                } else if right.kind == ParsedExprKindView::Parameter(n) && fixed(*left, inputs, t) {
                    lemma_fixed(*left, inputs, catalog, d, s, t);
                    assert(solve_expr(e, expected, inputs, catalog, depth, s).1 is Ok ==> known(s4, n, t));
                } else if asks(*left, None, inputs, n, t) {
                    lemma_asked_is_known(*left, None, inputs, catalog, d, s, n, t);
                    lemma_known_grows(s1, s2, n, t);
                } else {
                    lemma_asked_is_known(*right, None, inputs, catalog, d, s1, n, t);
                }
            }
        }
    }
}

proof fn lemma_member_known(
    e: ParsedExprView,
    inputs: Seq<InputColumnView>,
    catalog: CatalogView,
    depth: usize,
    s: SolverView,
    n: usize,
    t: ScalarTypeView,
)
    requires
        e.kind is InList,
        asks(e, None, inputs, n, t),
    ensures
        solve_membership(*e.kind->InList_expr, e.kind->InList_list, inputs, catalog, depth, s).1 is Ok ==> known(
            solve_membership(*e.kind->InList_expr, e.kind->InList_list, inputs, catalog, depth, s).0,
            n,
            t,
        ),
    decreases e, 0int,
{
    if let ParsedExprKindView::InList { expr, list, .. } = e.kind {
        unfold_solve_membership(*expr, list, inputs, catalog, depth, s);
        let d = (depth + 1) as usize;
        let (s1, u) = solve_expr(*expr, None, inputs, catalog, d, s);
        if u is Ok {
            let u = u->Ok_0;
            let (s2, met) = solve_meet(list, None, inputs, catalog, d, 0, u, s1);
            grows_meet(list, None, inputs, catalog, d, 0, u, s1);
            if met is Ok {
                let met = met->Ok_0;
                let s3 = solve_expr(*expr, met, inputs, catalog, d, s2).0;
                grows_expr(*expr, met, inputs, catalog, d, s2);
                grows_each(list, met, inputs, catalog, d, 0, s3);
                lemma_asked_is_known(*expr, None, inputs, catalog, d, s, n, t);
                if solve_membership(*expr, list, inputs, catalog, depth, s).1 is Ok {
                    lemma_known_grows(s1, s2, n, t);
                }
            }
        }
    }
}

proof fn lemma_each_known(
    l: Seq<ParsedExprView>,
    expected: Option<ScalarTypeView>,
    inputs: Seq<InputColumnView>,
    catalog: CatalogView,
    depth: usize,
    from: int,
    i: int,
    s: SolverView,
    n: usize,
    t: ScalarTypeView,
)
    requires
        0 <= i <= from,
        any_asks(l, expected, inputs, n, t, from),
    ensures
        solve_each(l, expected, inputs, catalog, depth, i, s).1 is Ok ==> known(
            solve_each(l, expected, inputs, catalog, depth, i, s).0,
            n,
            t,
        ),
    decreases l, l.len() - i,
{
    unfold_solve_each(l, expected, inputs, catalog, depth, i, s);
    let (s1, r) = solve_expr(l[i], expected, inputs, catalog, depth, s);
    if r is Ok {
        grows_each(l, expected, inputs, catalog, depth, i + 1, s1);
        if i == from && asks(l[i], expected, inputs, n, t) {
            lemma_asked_is_known(l[i], expected, inputs, catalog, depth, s, n, t);
        } else if i == from {
            lemma_each_known(l, expected, inputs, catalog, depth, from + 1, i + 1, s1, n, t);
        } else {
            lemma_each_known(l, expected, inputs, catalog, depth, from, i + 1, s1, n, t);
        }
    }
}

proof fn lemma_argument_known(
    e: ParsedExprView,
    expected: Option<ScalarTypeView>,
    inputs: Seq<InputColumnView>,
    catalog: CatalogView,
    depth: usize,
    s: SolverView,
    n: usize,
    t: ScalarTypeView,
)
    requires
        e.kind is Function,
        asks(e, expected, inputs, n, t),
    ensures
        solve_expr(e, expected, inputs, catalog, depth, s).1 is Ok ==> known(
            solve_expr(e, expected, inputs, catalog, depth, s).0,
            n,
            t,
        ),
    decreases e, 0int,
{
    unfold_solve_expr(e, expected, inputs, catalog, depth, s);
    if let ParsedExprKindView::Function { function, arguments } = e.kind {
        unfold_solve_function(function, arguments, expected, inputs, catalog, depth, s);
        let d = (depth + 1) as usize;
        let whole = Some(ScalarTypeView::Text);
        match function {
            ScalarFunction::Lower | ScalarFunction::Upper | ScalarFunction::Btrim | ScalarFunction::Ltrim | ScalarFunction::Rtrim
            | ScalarFunction::Replace | ScalarFunction::Strpos => lemma_each_known(arguments, whole, inputs, catalog, d, 0, 0, s, n, t),
            ScalarFunction::Substring => {
                let s1 = solve_expr(arguments[0], whole, inputs, catalog, d, s).0;
                let part = Some(ScalarTypeView::Int32);
                grows_each(arguments, part, inputs, catalog, d, 1, s1);
                if arguments.len() > 0 && asks(arguments[0], whole, inputs, n, t) {
                    lemma_asked_is_known(arguments[0], whole, inputs, catalog, d, s, n, t);
                } else {
                    lemma_each_known(arguments, part, inputs, catalog, d, 1, 1, s1, n, t);
                }
            },
            ScalarFunction::JsonbTypeof => lemma_asked_is_known(
                arguments[0],
                Some(ScalarTypeView::Jsonb),
                inputs,
                catalog,
                d,
                s,
                n,
                t,
            ),
            ScalarFunction::ArrayLength => {
                let s1 = solve_expr(arguments[0], None, inputs, catalog, d, s).0;
                lemma_asked_is_known(arguments[1], Some(ScalarTypeView::Int32), inputs, catalog, d, s1, n, t);
            },
            _ => {},
        }
    }
}

} // verus!
