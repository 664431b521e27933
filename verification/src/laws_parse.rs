//! What the syntax tree of a query promises to keep of what was written.

use sqlparser::ast::{
    BinaryOperator as SqlBinaryOperator, Cte, Distinct, Expr, GroupByExpr, Join, JoinConstraint, JoinOperator, LimitClause, OrderByExpr,
    OrderByKind, Query, Select, SelectItem, SetExpr, UnaryOperator as SqlUnaryOperator,
};
use vstd::prelude::*;

use crate::convert_parts::{distinct_of, named_clauses, no_page, set_all, set_operator, PageView};
use crate::convert_rules::{
    clauses_of, converted_expr, converted_exprs, converted_query, converted_some, ctes_of, items_of, join_source_of, joins_of, limit_of,
    order_by_of, orders_of, page_of, row_items, select_of, set_operand, set_operation, unfold_all_expr, unfold_any_expr,
    unfold_binary_expr, unfold_body_of, unfold_cast_expr, unfold_clauses_of, unfold_converted_expr, unfold_converted_exprs,
    unfold_converted_query, unfold_converted_some, unfold_ctes_of, unfold_from_of, unfold_groups_of, unfold_items_of, unfold_joins_of,
    unfold_limit_of, unfold_list_expr, unfold_order_by_of, unfold_orders_of, unfold_page_of, unfold_query_expr, unfold_select_of,
    unfold_set_operand, unfold_set_operation, unfold_unary_expr, unfold_with_of,
};
use crate::literals::{comparison_of, operator_of, row_comparison};
use crate::named_windows::{
    named, named_all, named_item, named_items, named_option, named_order, named_orders, named_some, WindowDefinitionView,
};
use crate::predicates::{any_holds_window, holds_window};
use crate::source::ident_of;
use crate::sql_types::column_type_of;
use crate::syntax::{
    BinaryOperator, JoinKind, ParsedCteView, ParsedExprKindView, ParsedExprView, ParsedJoinView, ParsedOrderView, ParsedProjectionView,
    ParsedStatementView, SubqueryQuantifier, UnaryOperator,
};
use crate::types::DbErrorView;

verus! {

/// Whether an expression that was written is taken over as another.
pub open spec fn says(e: Expr, sql: Seq<char>, p: ParsedExprView) -> bool {
    converted_expr(e, sql) == Ok::<ParsedExprView, DbErrorView>(p)
}

/// Whether a query that was written is taken over as a statement.
pub open spec fn asks_for(q: Query, sql: Seq<char>, s: ParsedStatementView) -> bool {
    converted_query(q, sql) == Ok::<ParsedStatementView, DbErrorView>(s)
}

/// Whether a clause is there exactly where it was written, and says the same.
pub open spec fn says_if_any(e: Option<Expr>, sql: Seq<char>, p: Option<ParsedExprView>) -> bool {
    &&& e is Some <==> p is Some
    &&& e matches Some(e) ==> says(e, sql, p->0)
}

/// Whether an operator is the one that was written.
pub open spec fn same_operator(written: SqlBinaryOperator, op: BinaryOperator) -> bool {
    &&& written is Plus <==> op is Add
    &&& written is Minus <==> op is Subtract
    &&& written is Multiply <==> op is Multiply
    &&& written is Divide <==> op is Divide
    &&& written is Modulo <==> op is Modulo
    &&& written is Eq <==> op is Eq
    &&& written is NotEq <==> op is NotEq
    &&& written is Lt <==> op is Lt
    &&& written is LtEq <==> op is LtEq
    &&& written is Gt <==> op is Gt
    &&& written is GtEq <==> op is GtEq
    &&& written is And <==> op is And
    &&& written is Or <==> op is Or
}

/// Each operator keeps its name: a plus adds, a less-than compares the same way round.
/// Exactly the arithmetic, comparing and logical operators are taken over.
pub proof fn lemma_operators_keep_their_names(written: SqlBinaryOperator, position: Option<usize>)
    ensures
        operator_of(written, position) matches Ok(op) ==> same_operator(written, op),
        operator_of(written, position) is Ok <==> (written is Plus || written is Minus || written is Multiply || written is Divide
            || written is Modulo || written is Eq || written is NotEq || written is Lt || written is LtEq || written is Gt || written is GtEq
            || written is And || written is Or),
        comparison_of(written, position) matches Ok(op) ==> same_operator(written, op),
        comparison_of(written, position) is Ok <==> (written is Eq || written is NotEq || written is Lt || written is LtEq || written is Gt
            || written is GtEq),
{
    reveal(operator_of);
    reveal(comparison_of);
}

/// Every set operation keeps its operator, its ALL and the order of its operands.
pub open spec fn keeps_set_operation(e: SetExpr, page: PageView, sql: Seq<char>, depth: usize, s: ParsedStatementView) -> bool {
    e matches SetExpr::SetOperation { left, op, set_quantifier, right } ==> {
        &&& s is SetOperation
        &&& op is Union <==> s->SetOperation_operator is Union
        &&& op is Intersect <==> s->SetOperation_operator is Intersect
        &&& op is Except <==> s->SetOperation_operator is Except
        &&& s->SetOperation_all <==> set_quantifier is All
        &&& set_operand(*left, sql, (depth + 1) as usize) == Ok::<ParsedStatementView, DbErrorView>(*s->SetOperation_left)
        &&& set_operand(*right, sql, (depth + 1) as usize) == Ok::<ParsedStatementView, DbErrorView>(*s->SetOperation_right)
        &&& s->SetOperation_order_by == page.order_by
        &&& s->SetOperation_offset == page.offset
        &&& s->SetOperation_limit == page.limit
    }
}

/// A set operation keeps its operator, its ALL and the order of its operands, whether it
/// is the body of a query or an operand of another set operation.
pub proof fn lemma_set_operation_kept(e: SetExpr, page: PageView, sql: Seq<char>, depth: usize)
    ensures
        set_operation(e, page, sql, depth) matches Ok(s) ==> keeps_set_operation(e, page, sql, depth, s),
        set_operand(e, sql, depth) matches Ok(s) ==> keeps_set_operation(e, no_page(), sql, depth, s),
{
    unfold_set_operation(e, page, sql, depth);
    unfold_set_operation(e, no_page(), sql, depth);
    unfold_set_operand(e, sql, depth);
    reveal(set_operator);
    reveal(set_all);
}

/// An operand of a set operation is the query that it would be on its own: a SELECT has
/// no order or page, and a query in parentheses keeps its own.
pub proof fn lemma_operands_stand_alone(e: SetExpr, sql: Seq<char>, depth: usize)
    ensures
        e matches SetExpr::Query(q) ==> set_operand(e, sql, depth) == converted_query(*q, sql),
        e matches SetExpr::Select(s) ==> set_operand(e, sql, depth) == select_of(
            *s,
            false,
            PageView { order_by: Seq::empty(), offset: None, limit: None },
            sql,
        ),
        set_operand(e, sql, depth) is Ok ==> e is Query || e is Select || e is SetOperation,
{
    unfold_set_operand(e, sql, depth);
}

/// A query whose body is a set operation becomes that set operation, with the order and
/// the page that were written behind it; a WITH clause is kept around it.
pub proof fn lemma_query_is_its_set_operation(q: Query, sql: Seq<char>)
    requires
        *q.body is SetOperation,
    ensures
        converted_query(q, sql) matches Ok(s) ==> page_of(q, sql) is Ok && ({
            let inner = if q.with is Some {
                *s->With_body
            } else {
                s
            };
            &&& q.with is Some <==> s is With
            &&& keeps_set_operation(*q.body, page_of(q, sql)->Ok_0, sql, 0, inner)
        }),
{
    unfold_converted_query(q, sql);
    if let Ok(page) = page_of(q, sql) {
        unfold_body_of(*q.body, page, sql);
        lemma_set_operation_kept(*q.body, page, sql, 0);
        if let Ok(body) = set_operation(*q.body, page, sql, 0) {
            unfold_with_of(q.with, body, sql);
        }
    }
}

proof fn lemma_exprs_from(l: Seq<Expr>, sql: Seq<char>, i: int, done: Seq<ParsedExprView>)
    requires
        0 <= i <= l.len(),
    ensures
        converted_exprs(l, sql, i, done) matches Ok(r) ==> {
            &&& r.len() == done.len() + l.len() - i
            &&& forall|k: int| 0 <= k < done.len() ==> r[k] == done[k]
            &&& forall|k: int| i <= k < l.len() ==> says(#[trigger] l[k], sql, r[done.len() + k - i])
        },
    decreases l.len() - i,
{
    unfold_converted_exprs(l, sql, i, done);
    if i < l.len() {
        if let Ok(b) = converted_expr(l[i], sql) {
            lemma_exprs_from(l, sql, i + 1, done.push(b));
            if let Ok(r) = converted_exprs(l, sql, i + 1, done.push(b)) {
                assert(r[done.len() as int] == done.push(b)[done.len() as int]);
                assert forall|k: int| 0 <= k < done.len() implies r[k] == done[k] by {
                    assert(r[k] == done.push(b)[k]);
                }
            }
        }
    }
}

/// A list keeps its length and order: each entry says what was written at its place.
pub proof fn lemma_list_kept(l: Seq<Expr>, sql: Seq<char>)
    ensures
        converted_exprs(l, sql, 0, Seq::empty()) matches Ok(r) ==> r.len() == l.len() && forall|k: int|
            0 <= k < l.len() ==> says(#[trigger] l[k], sql, r[k]),
{
    lemma_exprs_from(l, sql, 0, Seq::empty());
}

/// Whether a sort key is the one that was written: ascending unless DESC was, and with
/// NULLS FIRST or LAST exactly as written.
pub open spec fn same_sort_key(written: OrderByExpr, sql: Seq<char>, o: ParsedOrderView) -> bool {
    &&& says(written.expr, sql, o.expr)
    &&& o.ascending <==> written.options.asc != Some(false)
    &&& o.nulls_first == written.options.nulls_first
}

proof fn lemma_orders_from(l: Seq<OrderByExpr>, sql: Seq<char>, i: int, done: Seq<ParsedOrderView>)
    requires
        0 <= i <= l.len(),
    ensures
        orders_of(l, sql, i, done) matches Ok(r) ==> {
            &&& r.len() == done.len() + l.len() - i
            &&& forall|k: int| 0 <= k < done.len() ==> r[k] == done[k]
            &&& forall|k: int| i <= k < l.len() ==> same_sort_key(#[trigger] l[k], sql, r[done.len() + k - i])
        },
    decreases l.len() - i,
{
    unfold_orders_of(l, sql, i, done);
    if i < l.len() && !(l[i].with_fill is Some) {
        if let Ok(e) = converted_expr(l[i].expr, sql) {
            let o = ParsedOrderView {
                expr: e,
                ascending: match l[i].options.asc {
                    Some(asc) => asc,
                    None => true,
                },
                nulls_first: l[i].options.nulls_first,
            };
            lemma_orders_from(l, sql, i + 1, done.push(o));
            if let Ok(r) = orders_of(l, sql, i, done) {
                assert(r[done.len() as int] == done.push(o)[done.len() as int]);
                assert forall|k: int| 0 <= k < done.len() implies r[k] == done[k] by {
                    assert(r[k] == done.push(o)[k]);
                }
            }
        }
    }
}

/// An ORDER BY keeps its sort keys, their order and their directions.
pub proof fn lemma_order_kept(l: Seq<OrderByExpr>, sql: Seq<char>)
    ensures
        orders_of(l, sql, 0, Seq::empty()) matches Ok(r) ==> r.len() == l.len() && forall|k: int|
            0 <= k < l.len() ==> same_sort_key(#[trigger] l[k], sql, r[k]),
{
    lemma_orders_from(l, sql, 0, Seq::empty());
}

/// Whether an item of a select list is the one that was written.
pub open spec fn same_item(written: SelectItem, sql: Seq<char>, p: ParsedProjectionView) -> bool {
    match p {
        ParsedProjectionView::Wildcard => written is Wildcard,
        ParsedProjectionView::Expression { expr, alias } => {
            ||| written matches SelectItem::UnnamedExpr(e) && says(e, sql, expr) && alias is None
            ||| written matches SelectItem::ExprWithAlias { expr: e, alias: a } && says(e, sql, expr) && alias == Some(ident_of(a, sql))
        },
    }
}

proof fn lemma_items_from(l: Seq<SelectItem>, sql: Seq<char>, i: int, done: Seq<ParsedProjectionView>)
    requires
        0 <= i <= l.len(),
    ensures
        items_of(l, sql, i, done) matches Ok(r) ==> {
            &&& r.len() == done.len() + l.len() - i
            &&& forall|k: int| 0 <= k < done.len() ==> r[k] == done[k]
            &&& forall|k: int| i <= k < l.len() ==> same_item(#[trigger] l[k], sql, r[done.len() + k - i])
        },
    decreases l.len() - i,
{
    unfold_items_of(l, sql, i, done);
    if i < l.len() {
        let next = match l[i] {
            SelectItem::Wildcard(_) => Ok(ParsedProjectionView::Wildcard),
            SelectItem::UnnamedExpr(e) => match converted_expr(e, sql) {
                Ok(b) => Ok(ParsedProjectionView::Expression { expr: b, alias: None }),
                Err(x) => Err(x),
            },
            SelectItem::ExprWithAlias { expr, alias } => match converted_expr(expr, sql) {
                Ok(b) => Ok(ParsedProjectionView::Expression { expr: b, alias: Some(ident_of(alias, sql)) }),
                Err(x) => Err(x),
            },
            _ => Err(arbitrary()),
        };
        if let Ok(p) = next {
            lemma_items_from(l, sql, i + 1, done.push(p));
            if let Ok(r) = items_of(l, sql, i, done) {
                assert(r[done.len() as int] == done.push(p)[done.len() as int]);
                assert forall|k: int| 0 <= k < done.len() implies r[k] == done[k] by {
                    assert(r[k] == done.push(p)[k]);
                }
            }
        }
    }
}

/// A select list, and with it a RETURNING list, keeps its items, their order and their
/// names.
pub proof fn lemma_items_kept(l: Seq<SelectItem>, sql: Seq<char>)
    ensures
        items_of(l, sql, 0, Seq::empty()) matches Ok(r) ==> r.len() == l.len() && forall|k: int|
            0 <= k < l.len() ==> same_item(#[trigger] l[k], sql, r[k]),
{
    lemma_items_from(l, sql, 0, Seq::empty());
}

/// Whether a join is the one that was written.
pub open spec fn same_join(written: Join, sql: Seq<char>, j: ParsedJoinView) -> bool {
    &&& join_source_of(written.relation, sql) == Ok::<_, DbErrorView>(j.source)
    &&& match j.kind {
        JoinKind::Inner => {
            ||| written.join_operator matches JoinOperator::Join(JoinConstraint::On(on)) && says(on, sql, j.on)
            ||| written.join_operator matches JoinOperator::Inner(JoinConstraint::On(on)) && says(on, sql, j.on)
        },
        JoinKind::Left => {
            ||| written.join_operator matches JoinOperator::Left(JoinConstraint::On(on)) && says(on, sql, j.on)
            ||| written.join_operator matches JoinOperator::LeftOuter(JoinConstraint::On(on)) && says(on, sql, j.on)
        },
    }
}

proof fn lemma_joins_from(l: Seq<Join>, sql: Seq<char>, i: int, done: Seq<ParsedJoinView>)
    requires
        0 <= i <= l.len(),
    ensures
        joins_of(l, sql, i, done) matches Ok(r) ==> {
            &&& r.len() == done.len() + l.len() - i
            &&& forall|k: int| 0 <= k < done.len() ==> r[k] == done[k]
            &&& forall|k: int| i <= k < l.len() ==> same_join(#[trigger] l[k], sql, r[done.len() + k - i])
        },
    decreases l.len() - i,
{
    unfold_joins_of(l, sql, i, done);
    if i < l.len() && joins_of(l, sql, i, done) is Ok {
        let (on, kind) = match l[i].join_operator {
            JoinOperator::Join(JoinConstraint::On(on)) => (on, JoinKind::Inner),
            JoinOperator::Inner(JoinConstraint::On(on)) => (on, JoinKind::Inner),
            JoinOperator::Left(JoinConstraint::On(on)) => (on, JoinKind::Left),
            JoinOperator::LeftOuter(JoinConstraint::On(on)) => (on, JoinKind::Left),
            _ => arbitrary(),
        };
        if let (Ok(source), Ok(b)) = (join_source_of(l[i].relation, sql), converted_expr(on, sql)) {
            let j = ParsedJoinView { source, kind, on: b };
            lemma_joins_from(l, sql, i + 1, done.push(j));
            if let Ok(r) = joins_of(l, sql, i, done) {
                assert(r[done.len() as int] == done.push(j)[done.len() as int]);
                assert forall|k: int| 0 <= k < done.len() implies r[k] == done[k] by {
                    assert(r[k] == done.push(j)[k]);
                }
            }
        }
    }
}

/// A FROM clause keeps its joins, their order, their kinds and their conditions.
pub proof fn lemma_joins_kept(l: Seq<Join>, sql: Seq<char>)
    ensures
        joins_of(l, sql, 0, Seq::empty()) matches Ok(r) ==> r.len() == l.len() && forall|k: int|
            0 <= k < l.len() ==> same_join(#[trigger] l[k], sql, r[k]),
{
    lemma_joins_from(l, sql, 0, Seq::empty());
}

proof fn lemma_ctes_from(l: Seq<Cte>, sql: Seq<char>, i: int, done: Seq<ParsedCteView>)
    requires
        0 <= i <= l.len(),
    ensures
        ctes_of(l, sql, i, done) matches Ok(r) ==> {
            &&& r.len() == done.len() + l.len() - i
            &&& forall|k: int| 0 <= k < done.len() ==> r[k] == done[k]
            &&& forall|k: int|
                i <= k < l.len() ==> asks_for(*(#[trigger] l[k]).query, sql, *r[done.len() + k - i].query) && r[done.len() + k - i].name
                    == ident_of(l[k].alias.name, sql) && r[done.len() + k - i].columns.len() == l[k].alias.columns@.len()
        },
    decreases l.len() - i,
{
    unfold_ctes_of(l, sql, i, done);
    reveal(crate::convert_parts::column_names);
    if i < l.len() && ctes_of(l, sql, i, done) is Ok {
        if let Ok(query) = converted_query(*l[i].query, sql) {
            let c = ParsedCteView {
                name: ident_of(l[i].alias.name, sql),
                columns: crate::convert_parts::column_names(l[i].alias.columns@, sql),
                query: Box::new(query),
            };
            lemma_ctes_from(l, sql, i + 1, done.push(c));
            if let Ok(r) = ctes_of(l, sql, i, done) {
                assert(r[done.len() as int] == done.push(c)[done.len() as int]);
                assert forall|k: int| 0 <= k < done.len() implies r[k] == done[k] by {
                    assert(r[k] == done.push(c)[k]);
                }
            }
        }
    }
}

/// A WITH clause keeps its queries, their order, their names and RECURSIVE, and stands
/// around the body of the query.
pub proof fn lemma_with_kept(q: Query, sql: Seq<char>)
    requires
        q.with is Some,
    ensures
        converted_query(q, sql) matches Ok(s) ==> {
            &&& s is With
            &&& s->With_recursive == q.with->0.recursive
            &&& s->With_ctes.len() == q.with->0.cte_tables@.len()
            &&& forall|k: int|
                0 <= k < s->With_ctes.len() ==> asks_for(*q.with->0.cte_tables@[k].query, sql, *(#[trigger] s->With_ctes[k]).query)
                    && s->With_ctes[k].name == ident_of(q.with->0.cte_tables@[k].alias.name, sql)
            &&& asks_for(Query { with: None, ..q }, sql, *s->With_body)
        },
{
    unfold_converted_query(q, sql);
    let plain = Query { with: None, ..q };
    unfold_converted_query(plain, sql);
    unfold_page_of(q, sql);
    unfold_page_of(plain, sql);
    if let Ok(page) = page_of(q, sql) {
        unfold_body_of(*q.body, page, sql);
        if let Ok(body) = crate::convert_rules::body_of(*q.body, page, sql) {
            unfold_with_of(q.with, body, sql);
            unfold_with_of(None, body, sql);
            lemma_ctes_from(q.with->0.cte_tables@, sql, 0, Seq::empty());
        }
    }
}

/// LIMIT bounds the number of rows and OFFSET skips rows, whichever was written first.
pub proof fn lemma_page_kept(c: LimitClause, sql: Seq<char>)
    ensures
        limit_of(Some(c), sql) matches Ok(r) ==> match c {
            LimitClause::LimitOffset { limit, offset, .. } => says_if_any(limit, sql, r.0) && (offset is Some <==> r.1 is Some) && (
            offset matches Some(o) ==> says(o.value, sql, r.1->0)),
            LimitClause::OffsetCommaLimit { offset, limit } => r.0 is Some && says(limit, sql, r.0->0) && r.1 is Some && says(
                offset,
                sql,
                r.1->0,
            ),
        },
{
    unfold_limit_of(Some(c), sql);
    if let LimitClause::LimitOffset { limit, offset, .. } = c {
        unfold_converted_some(limit, sql);
    }
}

/// The page of a query is the one that was written: without TOP and FETCH its LIMIT is
/// that of the LIMIT clause, and its sort keys are those of ORDER BY.
pub proof fn lemma_query_page_kept(q: Query, sql: Seq<char>)
    ensures
        page_of(q, sql) matches Ok(p) ==> {
            &&& order_by_of(q.order_by, sql) == Ok::<_, DbErrorView>(p.order_by)
            &&& limit_of(q.limit_clause, sql) is Ok
            &&& p.offset == limit_of(q.limit_clause, sql)->Ok_0.1
            &&& limit_of(q.limit_clause, sql)->Ok_0.0 is Some ==> p.limit == limit_of(q.limit_clause, sql)->Ok_0.0
            &&& q.limit_clause is None ==> p.offset is None
            &&& q.order_by is None <==> (p.order_by.len() == 0 && q.order_by is None)
            &&& q.order_by matches Some(o) ==> (o.kind matches OrderByKind::Expressions(l) && p.order_by.len() == l@.len() && forall|k: int|
                0 <= k < l@.len() ==> same_sort_key(#[trigger] l@[k], sql, p.order_by[k]))
        },
{
    unfold_page_of(q, sql);
    unfold_order_by_of(q.order_by, sql);
    unfold_limit_of(q.limit_clause, sql);
    if let Some(o) = q.order_by {
        if let OrderByKind::Expressions(l) = o.kind {
            lemma_order_kept(l@, sql);
        }
    }
    reveal(crate::convert_parts::one_limit);
}

/// What a written operator with operands says, over what its operands say.
pub open spec fn keeps_operator(e: Expr, sql: Seq<char>, p: ParsedExprView) -> bool {
    match e {
        Expr::Nested(inner) => says(*inner, sql, p),
        Expr::UnaryOp { op, expr } => match op {
            SqlUnaryOperator::Plus => says(*expr, sql, p),
            SqlUnaryOperator::Minus => p.kind matches ParsedExprKindView::Unary { op: kept, expr: inner } && kept == UnaryOperator::Negate
                && says(*expr, sql, *inner),
            SqlUnaryOperator::Not => p.kind matches ParsedExprKindView::Unary { op: kept, expr: inner } && kept == UnaryOperator::Not && says(
                *expr,
                sql,
                *inner,
            ),
            _ => false,
        },
        Expr::BinaryOp { left, op, right } => !(*left is Tuple) && !(*right is Tuple) ==> {
            &&& p.kind is Binary
            &&& same_operator(op, p.kind->Binary_op)
            &&& says(*left, sql, *p.kind->Binary_left)
            &&& says(*right, sql, *p.kind->Binary_right)
        },
        Expr::Cast { expr, data_type, .. } => {
            &&& p.kind is Cast
            &&& says(*expr, sql, *p.kind->Cast_expr)
            &&& column_type_of(data_type, sql) == Ok::<_, DbErrorView>((p.kind->Cast_data_type, p.kind->Cast_declared_type))
        },
        _ => true,
    }
}

/// An operator keeps its name and the order of its operands: a difference stays the left
/// operand less the right one, and a sign or a NOT stays what it was.
pub proof fn lemma_operators_kept(e: Expr, sql: Seq<char>)
    ensures
        converted_expr(e, sql) matches Ok(p) ==> keeps_operator(e, sql, p),
{
    unfold_converted_expr(e, sql);
    let position = crate::source::place_of(sql, crate::outside::expr_start(e));
    match e {
        Expr::UnaryOp { .. } => unfold_unary_expr(e, sql, position),
        Expr::BinaryOp { op, .. } => {
            unfold_binary_expr(e, sql, position);
            lemma_operators_keep_their_names(op, position);
        },
        Expr::Cast { .. } => unfold_cast_expr(e, sql, position),
        _ => {},
    }
}

/// What a written membership or subquery predicate says, over what its parts say.
pub open spec fn keeps_predicate(e: Expr, sql: Seq<char>, p: ParsedExprView) -> bool {
    match e {
        Expr::InList { expr, list, negated } => !(*expr is Tuple) ==> {
            &&& p.kind is InList
            &&& p.kind->InList_negated == negated
            &&& says(*expr, sql, *p.kind->InList_expr)
            &&& p.kind->InList_list.len() == list@.len()
            &&& forall|k: int| 0 <= k < list@.len() ==> says(#[trigger] list@[k], sql, p.kind->InList_list[k])
        },
        Expr::Exists { subquery, negated } => {
            &&& p.kind is Exists
            &&& p.kind->Exists_negated == negated
            &&& asks_for(*subquery, sql, *p.kind->Exists_subquery)
        },
        Expr::Subquery(subquery) => p.kind is ScalarSubquery && asks_for(*subquery, sql, *p.kind->ScalarSubquery_0),
        Expr::InSubquery { expr, subquery, negated } => !(*expr is Tuple) ==> {
            &&& p.kind is InSubquery
            &&& p.kind->InSubquery_negated == negated
            &&& says(*expr, sql, *p.kind->InSubquery_expr)
            &&& asks_for(*subquery, sql, *p.kind->InSubquery_subquery)
        },
        Expr::AnyOp { left, compare_op, right, .. } => !(*left is Tuple) ==> {
            &&& p.kind is QuantifiedSubquery
            &&& p.kind->QuantifiedSubquery_quantifier is Any
            &&& same_operator(compare_op, p.kind->QuantifiedSubquery_op)
            &&& says(*left, sql, *p.kind->QuantifiedSubquery_left)
            &&& *right matches Expr::Subquery(q) && asks_for(*q, sql, *p.kind->QuantifiedSubquery_subquery)
        },
        Expr::AllOp { left, compare_op, right } => !(*left is Tuple) ==> {
            &&& p.kind is QuantifiedSubquery
            &&& p.kind->QuantifiedSubquery_quantifier is All
            &&& same_operator(compare_op, p.kind->QuantifiedSubquery_op)
            &&& says(*left, sql, *p.kind->QuantifiedSubquery_left)
            &&& *right matches Expr::Subquery(q) && asks_for(*q, sql, *p.kind->QuantifiedSubquery_subquery)
        },
        _ => true,
    }
}

/// A membership or subquery predicate keeps its NOT, its ANY or ALL, its operator and
/// its parts.
pub proof fn lemma_predicates_kept(e: Expr, sql: Seq<char>)
    ensures
        converted_expr(e, sql) matches Ok(p) ==> keeps_predicate(e, sql, p),
{
    unfold_converted_expr(e, sql);
    let position = crate::source::place_of(sql, crate::outside::expr_start(e));
    match e {
        Expr::InList { list, .. } => {
            unfold_list_expr(e, sql, position);
            lemma_list_kept(list@, sql);
        },
        Expr::Exists { .. } | Expr::Subquery(_) | Expr::InSubquery { .. } => unfold_query_expr(e, sql, position),
        Expr::AnyOp { compare_op, .. } => {
            unfold_any_expr(e, sql, position);
            lemma_operators_keep_their_names(compare_op, position);
        },
        Expr::AllOp { compare_op, .. } => {
            unfold_all_expr(e, sql, position);
            lemma_operators_keep_their_names(compare_op, position);
        },
        _ => {},
    }
}

/// What a row predicate says: rows are equal member by member, and NOT IN, ANY and ALL
/// over a subquery keep their sense.
pub open spec fn keeps_row_predicate(e: Expr, sql: Seq<char>, p: ParsedExprView) -> bool {
    match e {
        Expr::InSubquery { expr, subquery, negated } => *expr is Tuple ==> {
            &&& p.kind is RowSubquery
            &&& p.kind->RowSubquery_negated == negated
            &&& p.kind->RowSubquery_op is Eq
            &&& p.kind->RowSubquery_quantifier == Some(SubqueryQuantifier::Any)
            &&& same_row(*expr, sql, p.kind->RowSubquery_left)
            &&& asks_for(*subquery, sql, *p.kind->RowSubquery_subquery)
        },
        Expr::AnyOp { left, compare_op, right, .. } => *left is Tuple ==> {
            &&& p.kind is RowSubquery
            &&& !p.kind->RowSubquery_negated
            &&& same_operator(compare_op, p.kind->RowSubquery_op)
            &&& p.kind->RowSubquery_quantifier == Some(SubqueryQuantifier::Any)
            &&& same_row(*left, sql, p.kind->RowSubquery_left)
            &&& *right matches Expr::Subquery(q) && asks_for(*q, sql, *p.kind->RowSubquery_subquery)
        },
        Expr::AllOp { left, compare_op, right } => *left is Tuple ==> {
            &&& p.kind is RowSubquery
            &&& !p.kind->RowSubquery_negated
            &&& same_operator(compare_op, p.kind->RowSubquery_op)
            &&& p.kind->RowSubquery_quantifier == Some(SubqueryQuantifier::All)
            &&& same_row(*left, sql, p.kind->RowSubquery_left)
            &&& *right matches Expr::Subquery(q) && asks_for(*q, sql, *p.kind->RowSubquery_subquery)
        },
        Expr::BinaryOp { left, op, right } => (*left is Tuple && *right is Subquery) || (*left is Subquery && *right is Tuple) ==> {
            let (row, query) = if *left is Tuple {
                (*left, *right)
            } else {
                (*right, *left)
            };
            &&& p.kind is RowSubquery
            &&& !p.kind->RowSubquery_negated
            &&& same_operator(op, p.kind->RowSubquery_op)
            &&& p.kind->RowSubquery_quantifier is None
            &&& same_row(row, sql, p.kind->RowSubquery_left)
            &&& query matches Expr::Subquery(q) && asks_for(*q, sql, *p.kind->RowSubquery_subquery)
        },
        _ => true,
    }
}

/// Whether a row that was written has these members in this order.
pub open spec fn same_row(e: Expr, sql: Seq<char>, l: Seq<ParsedExprView>) -> bool {
    e matches Expr::Tuple(row) && l.len() == row@.len() && forall|k: int| 0 <= k < row@.len() ==> says(#[trigger] row@[k], sql, l[k])
}

proof fn lemma_row_kept(e: Expr, sql: Seq<char>, position: Option<usize>)
    ensures
        e matches Expr::Tuple(row) ==> (row_items(row@, sql, position) matches Ok(l) ==> same_row(e, sql, l)),
{
    if let Expr::Tuple(row) = e {
        crate::convert_rules::unfold_row_items(row@, sql, position);
        lemma_list_kept(row@, sql);
    }
}

/// A predicate over a row and a subquery keeps its members, their order, its operator,
/// its NOT and its ANY or ALL.
pub proof fn lemma_row_predicates_kept(e: Expr, sql: Seq<char>)
    ensures
        converted_expr(e, sql) matches Ok(p) ==> keeps_row_predicate(e, sql, p),
{
    unfold_converted_expr(e, sql);
    reveal(row_comparison);
    let position = crate::source::place_of(sql, crate::outside::expr_start(e));
    match e {
        Expr::InSubquery { expr, .. } => {
            unfold_query_expr(e, sql, position);
            lemma_row_kept(*expr, sql, position);
        },
        Expr::AnyOp { compare_op, left, .. } => {
            unfold_any_expr(e, sql, position);
            lemma_operators_keep_their_names(compare_op, position);
            lemma_row_kept(*left, sql, position);
        },
        Expr::AllOp { compare_op, left, .. } => {
            unfold_all_expr(e, sql, position);
            lemma_operators_keep_their_names(compare_op, position);
            lemma_row_kept(*left, sql, position);
        },
        Expr::BinaryOp { left, op, right } => {
            unfold_binary_expr(e, sql, position);
            lemma_operators_keep_their_names(op, position);
            lemma_row_kept(*left, sql, position);
            lemma_row_kept(*right, sql, position);
        },
        _ => {},
    }
}

/// Expressions in which no window function is called keep their form when the windows of
/// a WINDOW clause are looked up.
pub proof fn lemma_windows_only(e: ParsedExprView, windows: Seq<WindowDefinitionView>)
    requires
        !holds_window(e),
    ensures
        named(e, windows) == Ok::<ParsedExprView, DbErrorView>(e),
    decreases e, 0int,
{
    match e.kind {
        ParsedExprKindView::Unary { expr, .. } => lemma_windows_only(*expr, windows),
        ParsedExprKindView::Cast { expr, .. } => lemma_windows_only(*expr, windows),
        ParsedExprKindView::Array { elements, .. } => lemma_windows_only_in(elements, windows, 0),
        ParsedExprKindView::Function { arguments, .. } => lemma_windows_only_in(arguments, windows, 0),
        ParsedExprKindView::Binary { left, right, .. } => {
            lemma_windows_only(*left, windows);
            lemma_windows_only(*right, windows);
        },
        ParsedExprKindView::InList { expr, list, .. } => {
            lemma_windows_only(*expr, windows);
            lemma_windows_only_in(list, windows, 0);
        },
        ParsedExprKindView::InSubquery { expr, .. } => lemma_windows_only(*expr, windows),
        ParsedExprKindView::QuantifiedSubquery { left, .. } => lemma_windows_only(*left, windows),
        ParsedExprKindView::RowSubquery { left, .. } => lemma_windows_only_in(left, windows, 0),
        ParsedExprKindView::Aggregate { argument, filter, .. } => {
            if let Some(a) = argument {
                lemma_windows_only(*a, windows);
            }
            if let Some(f) = filter {
                lemma_windows_only(*f, windows);
            }
            reveal_with_fuel(named_option, 1);
            assert(named_option(argument, windows) == Ok::<_, DbErrorView>(argument));
            assert(named_option(filter, windows) == Ok::<_, DbErrorView>(filter));
        },
        _ => {},
    }
}

proof fn lemma_windows_only_in(l: Seq<ParsedExprView>, windows: Seq<WindowDefinitionView>, i: int)
    requires
        0 <= i <= l.len(),
        !any_holds_window(l, i),
    ensures
        named_all(l, windows, i, l.take(i)) == Ok::<Seq<ParsedExprView>, DbErrorView>(l),
        i == 0 ==> named_all(l, windows, i, Seq::empty()) == Ok::<Seq<ParsedExprView>, DbErrorView>(l),
    decreases l, l.len() - i,
{
    assert(l.take(0) =~= Seq::empty());
    if i < l.len() {
        lemma_windows_only(l[i], windows);
        lemma_windows_only_in(l, windows, i + 1);
        assert(l.take(i).push(l[i]) =~= l.take(i + 1));
    } else {
        assert(l.take(i) =~= l);
    }
}

/// Whether a clause is the one that was written, up to the windows that it names.
pub open spec fn same_clause(written: Option<Expr>, sql: Seq<char>, windows: Seq<WindowDefinitionView>, p: Option<ParsedExprView>) -> bool {
    &&& written is Some <==> p is Some
    &&& written matches Some(e) ==> converted_expr(e, sql) is Ok && named(converted_expr(e, sql)->Ok_0, windows) == Ok::<_, DbErrorView>(
        p->0,
    ) && (!holds_window(converted_expr(e, sql)->Ok_0) ==> says(e, sql, p->0))
}

proof fn lemma_clause(written: Option<Expr>, sql: Seq<char>, windows: Seq<WindowDefinitionView>)
    ensures
        converted_some(written, sql) matches Ok(p) ==> (named_some(p, windows) matches Ok(n) ==> same_clause(written, sql, windows, n)),
{
    unfold_converted_some(written, sql);
    if let Ok(Some(p)) = converted_some(written, sql) {
        if !holds_window(p) {
            lemma_windows_only(p, windows);
        }
    }
}

/// The windows that a SELECT defines.
pub open spec fn windows_in(s: Select, sql: Seq<char>) -> Seq<WindowDefinitionView> {
    crate::convert_rules::windows_of(s.named_window@, sql, 0, Seq::empty())->Ok_0
}

proof fn lemma_orders_named(l: Seq<ParsedOrderView>, windows: Seq<WindowDefinitionView>, i: int, done: Seq<ParsedOrderView>)
    requires
        0 <= i <= l.len(),
    ensures
        named_orders(l, windows, i, done) matches Ok(r) ==> {
            &&& r.len() == done.len() + l.len() - i
            &&& forall|k: int| 0 <= k < done.len() ==> r[k] == done[k]
            &&& forall|k: int|
                i <= k < l.len() ==> r[done.len() + k - i].ascending == (#[trigger] l[k]).ascending && r[done.len() + k - i].nulls_first
                    == l[k].nulls_first && (!holds_window(l[k].expr) ==> r[done.len() + k - i].expr == l[k].expr)
        },
    decreases l.len() - i,
{
    if i < l.len() {
        if !holds_window(l[i].expr) {
            lemma_windows_only(l[i].expr, windows);
        }
        if let Ok(o) = named_order(l[i], windows) {
            lemma_orders_named(l, windows, i + 1, done.push(o));
            if let Ok(r) = named_orders(l, windows, i, done) {
                assert(r[done.len() as int] == done.push(o)[done.len() as int]);
                assert forall|k: int| 0 <= k < done.len() implies r[k] == done[k] by {
                    assert(r[k] == done.push(o)[k]);
                }
            }
        }
    }
}

/// Whether an item of a select list shows what was written, up to the windows that it
/// names.
pub open spec fn same_output(written: SelectItem, sql: Seq<char>, p: ParsedProjectionView) -> bool {
    match p {
        ParsedProjectionView::Wildcard => written is Wildcard,
        ParsedProjectionView::Expression { expr, alias } => {
            ||| written matches SelectItem::UnnamedExpr(e) && alias is None && converted_expr(e, sql) is Ok && (!holds_window(
                converted_expr(e, sql)->Ok_0,
            ) ==> says(e, sql, expr))
            ||| written matches SelectItem::ExprWithAlias { expr: e, alias: a } && alias == Some(ident_of(a, sql)) && converted_expr(
                e,
                sql,
            ) is Ok && (!holds_window(converted_expr(e, sql)->Ok_0) ==> says(e, sql, expr))
        },
    }
}

proof fn lemma_items_named(
    written: Seq<SelectItem>,
    sql: Seq<char>,
    l: Seq<ParsedProjectionView>,
    windows: Seq<WindowDefinitionView>,
    i: int,
    done: Seq<ParsedProjectionView>,
)
    requires
        0 <= i <= l.len(),
        l.len() == written.len(),
        forall|k: int| 0 <= k < l.len() ==> same_item(#[trigger] written[k], sql, l[k]),
    ensures
        named_items(l, windows, i, done) matches Ok(r) ==> {
            &&& r.len() == done.len() + l.len() - i
            &&& forall|k: int| 0 <= k < done.len() ==> r[k] == done[k]
            &&& forall|k: int| i <= k < l.len() ==> same_output(#[trigger] written[k], sql, r[done.len() + k - i])
        },
    decreases l.len() - i,
{
    if i < l.len() {
        assert(same_item(written[i], sql, l[i]));
        if let ParsedProjectionView::Expression { expr, .. } = l[i] {
            if !holds_window(expr) {
                lemma_windows_only(expr, windows);
            }
        }
        if let Ok(p) = named_item(l[i], windows) {
            assert(same_output(written[i], sql, p));
            lemma_items_named(written, sql, l, windows, i + 1, done.push(p));
            if let Ok(r) = named_items(l, windows, i, done) {
                assert(r[done.len() as int] == done.push(p)[done.len() as int]);
                assert forall|k: int| 0 <= k < done.len() implies r[k] == done[k] by {
                    assert(r[k] == done.push(p)[k]);
                }
            }
        }
    }
}

/// Whether sort keys have the directions of others, in the same order, and say the same
/// up to the windows that they name.
pub open spec fn same_directions(l: Seq<ParsedOrderView>, r: Seq<ParsedOrderView>) -> bool {
    &&& r.len() == l.len()
    &&& forall|k: int|
        0 <= k < l.len() ==> (#[trigger] r[k]).ascending == l[k].ascending && r[k].nulls_first == l[k].nulls_first && (!holds_window(
            l[k].expr,
        ) ==> r[k].expr == l[k].expr)
}

/// Whether a select list shows what was written, item by item.
pub open spec fn same_outputs(written: Seq<SelectItem>, sql: Seq<char>, l: Seq<ParsedProjectionView>) -> bool {
    l.len() == written.len() && forall|k: int| 0 <= k < l.len() ==> same_output(#[trigger] written[k], sql, l[k])
}

/// What a SELECT keeps of what was written.
pub open spec fn keeps_select(s: Select, page: PageView, sql: Seq<char>, st: ParsedStatementView) -> bool {
    match st {
        ParsedStatementView::Select { projection, filter, order_by, offset, limit, .. } => {
            &&& s.distinct != Some(Distinct::Distinct)
            &&& same_outputs(s.projection@, sql, projection)
            &&& same_clause(s.selection, sql, windows_in(s, sql), filter)
            &&& s.having is None
            &&& s.from@[0].joins@.len() == 0
            &&& s.group_by matches GroupByExpr::Expressions(l, _) && l@.len() == 0
            &&& same_directions(page.order_by, order_by)
            &&& offset == page.offset
            &&& limit == page.limit
        },
        ParsedStatementView::AdvancedSelect { projection, joins, distinct, filter, group_by, having, order_by, offset, limit, .. } => {
            &&& distinct <==> s.distinct == Some(Distinct::Distinct)
            &&& same_outputs(s.projection@, sql, projection)
            &&& same_clause(s.selection, sql, windows_in(s, sql), filter)
            &&& same_clause(s.having, sql, windows_in(s, sql), having)
            &&& s.group_by matches GroupByExpr::Expressions(l, _) && l@.len() == group_by.len()
            &&& joins.len() == s.from@[0].joins@.len()
            &&& forall|k: int| 0 <= k < joins.len() ==> same_join(s.from@[0].joins@[k], sql, #[trigger] joins[k])
            &&& same_directions(page.order_by, order_by)
            &&& offset == page.offset
            &&& limit == page.limit
        },
        _ => false,
    }
}

proof fn lemma_groups_named(l: Seq<ParsedExprView>, windows: Seq<WindowDefinitionView>, i: int, done: Seq<ParsedExprView>)
    requires
        0 <= i <= l.len(),
    ensures
        named_all(l, windows, i, done) matches Ok(r) ==> r.len() == done.len() + l.len() - i,
    decreases l.len() - i,
{
    if i < l.len() {
        if let Ok(e) = named(l[i], windows) {
            lemma_groups_named(l, windows, i + 1, done.push(e));
        }
    }
}

/// A SELECT from a table keeps each of its clauses: its select list, DISTINCT, joins,
/// WHERE, GROUP BY, HAVING, ORDER BY, OFFSET and LIMIT.
pub proof fn lemma_select_kept(s: Select, top_taken: bool, page: PageView, sql: Seq<char>)
    requires
        s.from@.len() > 0,
    ensures
        select_of(s, top_taken, page, sql) matches Ok(st) ==> keeps_select(s, page, sql, st),
{
    unfold_select_of(s, top_taken, page, sql);
    if let Ok(windows) = crate::convert_rules::windows_of(s.named_window@, sql, 0, Seq::empty()) {
        unfold_clauses_of(s, page, sql);
        if let Ok(c) = clauses_of(s, page, sql) {
            lemma_items_kept(s.projection@, sql);
            lemma_items_named(s.projection@, sql, c.projection, windows, 0, Seq::empty());
            lemma_clause(s.selection, sql, windows);
            lemma_clause(s.having, sql, windows);
            unfold_groups_of(s.group_by, sql);
            if let GroupByExpr::Expressions(l, _) = s.group_by {
                lemma_list_kept(l@, sql);
            }
            lemma_groups_named(c.group_by, windows, 0, Seq::empty());
            lemma_orders_named(c.order_by, windows, 0, Seq::empty());
            unfold_from_of(s.from@[0], sql);
            lemma_joins_kept(s.from@[0].joins@, sql);
        }
    }
    reveal(distinct_of);
    reveal(named_clauses);
    reveal(crate::convert_parts::advanced);
}

} // verus!
