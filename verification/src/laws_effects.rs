//! What the classification of statements promises, over the statements themselves.

use vstd::prelude::*;

use crate::effects::{
    all_reading_nodes, bound_nodes, cte_nodes, effect, expr_nodes, items_nodes, joins_nodes, option_nodes, order_nodes, parts,
    reading_nodes, some_nodes, EffectNodeView,
};
use crate::syntax::{
    ParsedCteView, ParsedExprKindView, ParsedExprView, ParsedJoinSourceView, ParsedJoinView, ParsedOrderView, ParsedProjectionView,
    ParsedStatementView, ParsedWindowFrameBoundView, StatementEffect,
};

verus! {

/// Whether a statement or expression is an expression of a list.
pub open spec fn among(part: EffectNodeView, l: Seq<ParsedExprView>) -> bool {
    exists|i: int| 0 <= i < l.len() && part == EffectNodeView::Expr(#[trigger] l[i])
}

/// Whether it is the expression of a sort key.
pub open spec fn sorts(part: EffectNodeView, l: Seq<ParsedOrderView>) -> bool {
    exists|i: int| 0 <= i < l.len() && part == EffectNodeView::Expr((#[trigger] l[i]).expr)
}

/// Whether it is the expression of an item of a select list.
pub open spec fn shown(part: EffectNodeView, l: Seq<ParsedProjectionView>) -> bool {
    exists|i: int|
        0 <= i < l.len() && ((#[trigger] l[i]) matches ParsedProjectionView::Expression { expr, .. } && part == EffectNodeView::Expr(expr))
}

/// Whether it is the condition or the derived table of a join.
pub open spec fn joins_it(part: EffectNodeView, l: Seq<ParsedJoinView>) -> bool {
    exists|i: int|
        0 <= i < l.len() && (part == EffectNodeView::Expr((#[trigger] l[i]).on) || (l[i].source matches ParsedJoinSourceView::Derived {
            query,
            ..
        } && part == EffectNodeView::Statement(*query)))
}

/// Whether it is a clause that is there.
pub open spec fn clause(part: EffectNodeView, e: Option<ParsedExprView>) -> bool {
    e matches Some(e) && part == EffectNodeView::Expr(e)
}

/// Whether it is a boxed expression that is there.
pub open spec fn boxed(part: EffectNodeView, e: Option<Box<ParsedExprView>>) -> bool {
    e matches Some(e) && part == EffectNodeView::Expr(*e)
}

/// Whether it is the distance of a frame bound.
pub open spec fn distance(part: EffectNodeView, b: ParsedWindowFrameBoundView) -> bool {
    ||| b matches ParsedWindowFrameBoundView::Preceding(e) && part == EffectNodeView::Expr(*e)
    ||| b matches ParsedWindowFrameBoundView::Following(e) && part == EffectNodeView::Expr(*e)
}

/// Whether a statement or expression stands directly in a query.
pub open spec fn stands_in_query(part: EffectNodeView, s: ParsedStatementView) -> bool {
    match s {
        ParsedStatementView::ScalarSelect { projection } => shown(part, projection),
        ParsedStatementView::Select { projection, filter, order_by, offset, limit, .. } => {
            ||| shown(part, projection)
            ||| clause(part, filter)
            ||| sorts(part, order_by)
            ||| clause(part, offset)
            ||| clause(part, limit)
        },
        ParsedStatementView::AdvancedSelect { joins, projection, filter, group_by, having, order_by, offset, limit, .. } => {
            ||| joins_it(part, joins)
            ||| shown(part, projection)
            ||| clause(part, filter)
            ||| among(part, group_by)
            ||| clause(part, having)
            ||| sorts(part, order_by)
            ||| clause(part, offset)
            ||| clause(part, limit)
        },
        ParsedStatementView::With { ctes, body, .. } => {
            ||| part == EffectNodeView::Statement(*body)
            ||| exists|i: int| 0 <= i < ctes.len() && part == EffectNodeView::Statement(*(#[trigger] ctes[i]).query)
        },
        ParsedStatementView::SetOperation { left, right, order_by, offset, limit, .. } => {
            ||| part == EffectNodeView::Statement(*left)
            ||| part == EffectNodeView::Statement(*right)
            ||| sorts(part, order_by)
            ||| clause(part, offset)
            ||| clause(part, limit)
        },
        ParsedStatementView::Explain { statement } => part == EffectNodeView::Statement(*statement),
        _ => false,
    }
}

/// Whether a statement or expression stands directly in an expression.
pub open spec fn stands_in_expr(part: EffectNodeView, e: ParsedExprView) -> bool {
    match e.kind {
        ParsedExprKindView::Unary { expr, .. } => part == EffectNodeView::Expr(*expr),
        ParsedExprKindView::Cast { expr, .. } => part == EffectNodeView::Expr(*expr),
        ParsedExprKindView::Array { elements, .. } => among(part, elements),
        ParsedExprKindView::Function { arguments, .. } => among(part, arguments),
        ParsedExprKindView::Binary { left, right, .. } => part == EffectNodeView::Expr(*left) || part == EffectNodeView::Expr(*right),
        ParsedExprKindView::InList { expr, list, .. } => part == EffectNodeView::Expr(*expr) || among(part, list),
        ParsedExprKindView::ScalarSubquery(query) => part == EffectNodeView::Statement(*query),
        ParsedExprKindView::Exists { subquery, .. } => part == EffectNodeView::Statement(*subquery),
        ParsedExprKindView::InSubquery { expr, subquery, .. } => part == EffectNodeView::Expr(*expr) || part == EffectNodeView::Statement(
            *subquery,
        ),
        ParsedExprKindView::QuantifiedSubquery { left, subquery, .. } => part == EffectNodeView::Expr(*left) || part
            == EffectNodeView::Statement(*subquery),
        ParsedExprKindView::RowSubquery { left, subquery, .. } => among(part, left) || part == EffectNodeView::Statement(*subquery),
        ParsedExprKindView::Aggregate { argument, filter, .. } => boxed(part, argument) || boxed(part, filter),
        ParsedExprKindView::Window { call, spec } => {
            ||| among(part, call.arguments)
            ||| boxed(part, call.filter)
            ||| among(part, spec.partition_by)
            ||| sorts(part, spec.order_by)
            ||| spec.frame matches Some(f) && (distance(part, f.start_bound) || distance(part, f.end_bound))
        },
        ParsedExprKindView::NamedWindow { call, .. } => among(part, call.arguments) || boxed(part, call.filter),
        _ => false,
    }
}

/// Whether a statement or expression stands directly in another.
pub open spec fn stands_in(part: EffectNodeView, whole: EffectNodeView) -> bool {
    match whole {
        EffectNodeView::Statement(s) => stands_in_query(part, s),
        EffectNodeView::Expr(e) => stands_in_expr(part, e),
    }
}

/// Whether statements and expressions lead from a statement inwards, each standing
/// directly in the one before it.
pub open spec fn leads_inwards(s: ParsedStatementView, chain: Seq<EffectNodeView>) -> bool {
    &&& chain.len() > 0
    &&& chain[0] == EffectNodeView::Statement(s)
    &&& forall|i: int| 0 < i < chain.len() ==> stands_in(#[trigger] chain[i], chain[i - 1])
}

/// Whether a part is a statement other than a query or an EXPLAIN.
pub open spec fn changes(part: EffectNodeView) -> bool {
    part matches EffectNodeView::Statement(s) && !(s is ScalarSelect) && !(s is Select) && !(s is AdvancedSelect) && !(s is With) && !(
        s is SetOperation
    ) && !(s is Explain)
}

proof fn lemma_shown(l: Seq<ParsedProjectionView>, part: EffectNodeView)
    ensures
        items_nodes(l).contains(part) <==> shown(part, l),
    decreases l.len(),
{
    if l.len() > 0 {
        let before = l.drop_last();
        lemma_shown(before, part);
        let a = items_nodes(before);
        let b = items_nodes(l);
        if b.contains(part) {
            let k = choose|k: int| 0 <= k < b.len() && b[k] == part;
            if k < a.len() {
                assert(a[k] == part);
                assert(a.contains(part));
                let i = choose|i: int|
                    0 <= i < before.len() && ((#[trigger] before[i]) matches ParsedProjectionView::Expression { expr, .. } && part
                        == EffectNodeView::Expr(expr));
                assert(l[i] == before[i]);
            } else {
                assert(l[l.len() - 1] == l.last());
            }
        }
        if shown(part, l) {
            let i = choose|i: int|
                0 <= i < l.len() && ((#[trigger] l[i]) matches ParsedProjectionView::Expression { expr, .. } && part
                    == EffectNodeView::Expr(expr));
            if i < l.len() - 1 {
                assert(before[i] == l[i]);
                let k = choose|k: int| 0 <= k < a.len() && a[k] == part;
                assert(b[k] == part);
            } else {
                assert(b[a.len() as int] == part);
            }
        }
    }
}

proof fn lemma_joined(l: Seq<ParsedJoinView>, part: EffectNodeView)
    ensures
        joins_nodes(l).contains(part) <==> joins_it(part, l),
    decreases l.len(),
{
    if l.len() > 0 {
        let before = l.drop_last();
        lemma_joined(before, part);
        let a = joins_nodes(before);
        let b = joins_nodes(l);
        if b.contains(part) {
            let k = choose|k: int| 0 <= k < b.len() && b[k] == part;
            if k < a.len() {
                assert(a[k] == part);
                assert(a.contains(part));
                let i = choose|i: int|
                    0 <= i < before.len() && (part == EffectNodeView::Expr((#[trigger] before[i]).on) || (
                    before[i].source matches ParsedJoinSourceView::Derived { query, .. } && part == EffectNodeView::Statement(*query)));
                assert(l[i] == before[i]);
            } else {
                assert(l[l.len() - 1] == l.last());
            }
        }
        if joins_it(part, l) {
            let i = choose|i: int|
                0 <= i < l.len() && (part == EffectNodeView::Expr((#[trigger] l[i]).on) || (
                l[i].source matches ParsedJoinSourceView::Derived { query, .. } && part == EffectNodeView::Statement(*query)));
            if i < l.len() - 1 {
                assert(before[i] == l[i]);
                let k = choose|k: int| 0 <= k < a.len() && a[k] == part;
                assert(b[k] == part);
            } else {
                assert(l.last() == l[i]);
                if part == EffectNodeView::Expr(l[i].on) {
                    assert(b.last() == part);
                } else {
                    assert(b[a.len() as int] == part);
                }
            }
        }
    }
}

proof fn lemma_joint(a: Seq<EffectNodeView>, b: Seq<EffectNodeView>, part: EffectNodeView)
    ensures
        (a + b).contains(part) <==> a.contains(part) || b.contains(part),
{
    let l = a + b;
    if a.contains(part) {
        let k = choose|k: int| 0 <= k < a.len() && a[k] == part;
        assert(l[k] == part);
    }
    if b.contains(part) {
        let k = choose|k: int| 0 <= k < b.len() && b[k] == part;
        assert(l[a.len() + k] == part);
    }
    if l.contains(part) {
        let k = choose|k: int| 0 <= k < l.len() && l[k] == part;
        if k < a.len() {
            assert(a[k] == part);
        } else {
            assert(b[k - a.len()] == part);
        }
    }
}

/// The parts that are looked at are those that stand in a statement or expression.
pub proof fn lemma_parts_stand_in(part: EffectNodeView, whole: EffectNodeView)
    ensures
        parts(whole).contains(part) <==> stands_in(part, whole),
{
    assert forall|a: Seq<EffectNodeView>, b: Seq<EffectNodeView>| (#[trigger] (a + b)).contains(part) <==> a.contains(part) || b.contains(
        part,
    ) by {
        lemma_joint(a, b, part);
    }
    assert forall|l: Seq<ParsedProjectionView>| (#[trigger] items_nodes(l)).contains(part) <==> shown(part, l) by {
        lemma_shown(l, part);
    }
    assert forall|l: Seq<ParsedJoinView>| (#[trigger] joins_nodes(l)).contains(part) <==> joins_it(part, l) by {
        lemma_joined(l, part);
    }
    assert forall|l: Seq<ParsedExprView>| (#[trigger] expr_nodes(l)).contains(part) <==> among(part, l) by {
        lemma_among(l, part);
    }
    assert forall|l: Seq<ParsedOrderView>| (#[trigger] order_nodes(l)).contains(part) <==> sorts(part, l) by {
        lemma_sorts(l, part);
    }
    assert forall|l: Seq<ParsedCteView>| (#[trigger] cte_nodes(l)).contains(part) <==> (exists|i: int|
        0 <= i < l.len() && part == EffectNodeView::Statement(*(#[trigger] l[i]).query)) by {
        lemma_ctes(l, part);
    }
    assert forall|e: Option<ParsedExprView>| (#[trigger] some_nodes(e)).contains(part) <==> clause(part, e) by {
        if clause(part, e) {
            assert(some_nodes(e)[0] == part);
        }
    }
    assert forall|e: Option<Box<ParsedExprView>>| (#[trigger] option_nodes(e)).contains(part) <==> boxed(part, e) by {
        if boxed(part, e) {
            assert(option_nodes(e)[0] == part);
        }
    }
    assert forall|b: ParsedWindowFrameBoundView| (#[trigger] bound_nodes(b)).contains(part) <==> distance(part, b) by {
        if distance(part, b) {
            assert(bound_nodes(b)[0] == part);
        }
    }
    assert forall|n: EffectNodeView| (#[trigger] seq![n]).contains(part) <==> part == n by {
        assert(seq![n][0] == n);
    }
    assert forall|n: EffectNodeView, m: EffectNodeView| (#[trigger] seq![n, m]).contains(part) <==> part == n || part == m by {
        assert(seq![n, m][0] == n);
        assert(seq![n, m][1] == m);
    }
}

proof fn lemma_among(l: Seq<ParsedExprView>, part: EffectNodeView)
    ensures
        expr_nodes(l).contains(part) <==> among(part, l),
{
    if expr_nodes(l).contains(part) {
        let k = choose|k: int| 0 <= k < l.len() && expr_nodes(l)[k] == part;
        assert(part == EffectNodeView::Expr(l[k]));
    }
    if among(part, l) {
        let k = choose|i: int| 0 <= i < l.len() && part == EffectNodeView::Expr(#[trigger] l[i]);
        assert(expr_nodes(l)[k] == part);
    }
}

proof fn lemma_sorts(l: Seq<ParsedOrderView>, part: EffectNodeView)
    ensures
        order_nodes(l).contains(part) <==> sorts(part, l),
{
    if order_nodes(l).contains(part) {
        let k = choose|k: int| 0 <= k < l.len() && order_nodes(l)[k] == part;
        assert(part == EffectNodeView::Expr(l[k].expr));
    }
    if sorts(part, l) {
        let k = choose|i: int| 0 <= i < l.len() && part == EffectNodeView::Expr((#[trigger] l[i]).expr);
        assert(order_nodes(l)[k] == part);
    }
}

proof fn lemma_ctes(l: Seq<ParsedCteView>, part: EffectNodeView)
    ensures
        cte_nodes(l).contains(part) <==> (exists|i: int| 0 <= i < l.len() && part == EffectNodeView::Statement(*(#[trigger] l[i]).query)),
{
    if cte_nodes(l).contains(part) {
        let k = choose|k: int| 0 <= k < l.len() && cte_nodes(l)[k] == part;
        assert(part == EffectNodeView::Statement(*l[k].query));
    }
    if exists|i: int| 0 <= i < l.len() && part == EffectNodeView::Statement(*(#[trigger] l[i]).query) {
        let k = choose|i: int| 0 <= i < l.len() && part == EffectNodeView::Statement(*(#[trigger] l[i]).query);
        assert(cte_nodes(l)[k] == part);
    }
}

proof fn lemma_member_reads(l: Seq<EffectNodeView>, depth: nat, part: EffectNodeView)
    requires
        all_reading_nodes(l, depth) is Some,
        l.contains(part),
    ensures
        reading_nodes(part, depth) is Some,
    decreases l.len(),
{
    let k = choose|k: int| 0 <= k < l.len() && l[k] == part;
    if k < l.len() - 1 {
        assert(l.drop_last()[k] == part);
        lemma_member_reads(l.drop_last(), depth, part);
    }
}

proof fn lemma_chain_reads(s: ParsedStatementView, chain: Seq<EffectNodeView>, i: int)
    requires
        effect(s) == StatementEffect::ReadOnly,
        leads_inwards(s, chain),
        0 <= i < chain.len(),
    ensures
        reading_nodes(chain[i], i as nat) is Some,
    decreases i,
{
    if i > 0 {
        lemma_chain_reads(s, chain, i - 1);
        lemma_parts_stand_in(chain[i], chain[i - 1]);
        lemma_member_reads(parts(chain[i - 1]), i as nat, chain[i]);
    }
}

/// A statement that is classified as reading holds, at any depth, only queries and
/// EXPLAIN: no INSERT, UPDATE, DELETE, MERGE, CALL, transaction control or change of the
/// catalog, and nothing nested deeper than 64 levels.
pub proof fn lemma_read_only_holds_queries(s: ParsedStatementView, chain: Seq<EffectNodeView>)
    requires
        effect(s) == StatementEffect::ReadOnly,
        leads_inwards(s, chain),
    ensures
        chain.len() <= 65,
        forall|i: int| 0 <= i < chain.len() ==> !changes(#[trigger] chain[i]),
{
    lemma_chain_reads(s, chain, chain.len() - 1);
    assert forall|i: int| 0 <= i < chain.len() implies !changes(#[trigger] chain[i]) by {
        lemma_chain_reads(s, chain, i);
    }
}

/// The number of statements and expressions in one, down to a number of levels.
pub open spec fn tree_size(n: EffectNodeView, levels: nat) -> nat
    decreases levels, 1int, 0int,
{
    if levels == 0 {
        0
    } else {
        1 + trees_size(parts(n), (levels - 1) as nat)
    }
}

/// The number of statements and expressions in several.
pub open spec fn trees_size(l: Seq<EffectNodeView>, levels: nat) -> nat
    decreases levels, 2int, l.len(),
{
    if l.len() == 0 {
        0
    } else {
        trees_size(l.drop_last(), levels) + tree_size(l.last(), levels)
    }
}

/// Whether a chain of parts inwards ends in a statement that is no query, or goes
/// below the deepest nesting that is looked at.
pub open spec fn ends_badly(n: EffectNodeView, depth: nat, chain: Seq<EffectNodeView>) -> bool {
    &&& chain.len() > 0
    &&& chain[0] == n
    &&& forall|i: int| 0 < i < chain.len() ==> stands_in(#[trigger] chain[i], chain[i - 1])
    &&& changes(chain.last()) || depth + chain.len() > 65
}

proof fn lemma_refusal(n: EffectNodeView, depth: nat) -> (chain: Seq<EffectNodeView>)
    ensures
        reading_nodes(n, depth) is None ==> ends_badly(n, depth, chain),
        depth <= 65 && reading_nodes(n, depth) is Some ==> reading_nodes(n, depth) == Some(tree_size(n, (65 - depth) as nat)),
    decreases 65 - depth, 1int, 0int,
{
    if depth > 64 || changes(n) {
        seq![n]
    } else {
        let (part, rest) = lemma_refusals(parts(n), depth + 1);
        if all_reading_nodes(parts(n), depth + 1) is None {
            lemma_parts_stand_in(part, n);
            let chain = seq![n] + rest;
            assert(chain.last() == rest.last());
            assert forall|i: int| 0 < i < chain.len() implies stands_in(#[trigger] chain[i], chain[i - 1]) by {
                assert(chain[i] == rest[i - 1]);
                if i > 1 {
                    assert(chain[i - 1] == rest[i - 2]);
                }
            }
            chain
        } else {
            seq![n]
        }
    }
}

proof fn lemma_refusals(l: Seq<EffectNodeView>, depth: nat) -> (r: (EffectNodeView, Seq<EffectNodeView>))
    ensures
        all_reading_nodes(l, depth) is None ==> l.contains(r.0) && ends_badly(r.0, depth, r.1),
        depth <= 65 && all_reading_nodes(l, depth) is Some ==> all_reading_nodes(l, depth) == Some(trees_size(l, (65 - depth) as nat)),
    decreases 65 - depth, 2int, l.len(),
{
    if l.len() == 0 {
        arbitrary()
    } else {
        let before = lemma_refusals(l.drop_last(), depth);
        let chain = lemma_refusal(l.last(), depth);
        if all_reading_nodes(l.drop_last(), depth) is None {
            let k = choose|k: int| 0 <= k < l.drop_last().len() && l.drop_last()[k] == before.0;
            assert(l[k] == before.0);
            before
        } else {
            assert(l[l.len() - 1] == l.last());
            (l.last(), chain)
        }
    }
}

/// Approval is asked for only with a reason: a statement within that is no query, a
/// nesting of more than 64 levels, or more than 65536 parts.
pub proof fn lemma_approval_has_a_reason(s: ParsedStatementView)
    requires
        effect(s) == StatementEffect::RequiresApproval,
    ensures
        (exists|chain: Seq<EffectNodeView>|
            #[trigger] leads_inwards(s, chain) && (changes(chain.last()) || chain.len() > 65)) || tree_size(
            EffectNodeView::Statement(s),
            65,
        ) > 65536,
{
    let chain = lemma_refusal(EffectNodeView::Statement(s), 0);
    if reading_nodes(EffectNodeView::Statement(s), 0) is None {
        assert(leads_inwards(s, chain));
    }
}

/// A statement other than a query or an EXPLAIN is never classified as reading.
pub proof fn lemma_changes_need_approval(s: ParsedStatementView)
    requires
        !(s is ScalarSelect) && !(s is Select) && !(s is AdvancedSelect) && !(s is With) && !(s is SetOperation) && !(s is Explain),
    ensures
        effect(s) == StatementEffect::RequiresApproval,
{
    if effect(s) == StatementEffect::ReadOnly {
        let chain = seq![EffectNodeView::Statement(s)];
        lemma_read_only_holds_queries(s, chain);
        assert(changes(chain[0]));
    }
}

} // verus!
