//! What is written is taken over wherever its parts are: a refusal has a reason.

use sqlparser::ast::{
    BinaryOperator as SqlBinaryOperator, Delete, Distinct, Expr, FromTable, OrderByExpr, Query, SetExpr, Statement, Update,
};
use vstd::prelude::*;

use crate::convert_dml::{assignments_of, delete_of, returning_items, unusual_delete, unusual_update, update_of};
use crate::convert_parts::{plain_table_of, set_all, set_operator, PageView};
use crate::convert_rules::{
    body_of, converted_expr, converted_exprs, converted_query, orders_of, page_of, set_operand, set_operation, unfold_binary_expr,
    unfold_converted_expr, unfold_converted_exprs, unfold_converted_query, unfold_converted_some, unfold_leaf_expr, unfold_orders_of,
    unfold_query_expr, unfold_set_operation, unfold_unary_expr, unfold_with_of,
};
use crate::convert_statement::{converted_statement, data_statement};
use crate::laws_parse::lemma_operators_keep_their_names;
use crate::source::SourceView;
use crate::syntax::{ParsedExprView, ParsedOrderView};

verus! {

/// A set operation of two operands that can be taken over can be taken over, unless it is
/// MINUS, is by name or is nested too deeply.
pub proof fn lemma_set_operation_taken(e: SetExpr, page: PageView, sql: Seq<char>, depth: usize)
    ensures
        e matches SetExpr::SetOperation { left, op, set_quantifier, right } ==> (set_operation(e, page, sql, depth) is Ok <==> depth < 64 && (
        op is Union || op is Intersect || op is Except) && (set_quantifier is All || set_quantifier is None || set_quantifier is Distinct)
            && set_operand(*left, sql, (depth + 1) as usize) is Ok && set_operand(*right, sql, (depth + 1) as usize) is Ok),
{
    unfold_set_operation(e, page, sql, depth);
    reveal(set_operator);
    reveal(set_all);
}

/// A query whose clauses and body can be taken over can be taken over, without WITH and the
/// clauses that no query has here.
pub proof fn lemma_query_taken(q: Query, sql: Seq<char>)
    requires
        q.with is None,
        q.locks@.len() == 0,
        q.for_clause is None,
        q.settings is None,
        q.format_clause is None,
        q.pipe_operators@.len() == 0,
    ensures
        converted_query(q, sql) is Ok <==> page_of(q, sql) is Ok && body_of(*q.body, page_of(q, sql)->Ok_0, sql) is Ok,
{
    unfold_converted_query(q, sql);
    if let Ok(page) = page_of(q, sql) {
        if let Ok(body) = body_of(*q.body, page, sql) {
            unfold_with_of(q.with, body, sql);
        }
    }
}

/// Whether an operator is one that is taken over.
pub open spec fn taken_operator(op: SqlBinaryOperator) -> bool {
    op is Plus || op is Minus || op is Multiply || op is Divide || op is Modulo || op is Eq || op is NotEq || op is Lt || op is LtEq || op is Gt
        || op is GtEq || op is And || op is Or
}

/// An expression whose parts can be taken over can be taken over: names always, an operator
/// where it is known, a subquery where its query can be.
pub proof fn lemma_expressions_taken(e: Expr, sql: Seq<char>)
    ensures
        e is Identifier || e is CompoundIdentifier ==> converted_expr(e, sql) is Ok,
        e matches Expr::Nested(inner) ==> converted_expr(e, sql) == converted_expr(*inner, sql),
        e matches Expr::BinaryOp { left, op, right } ==> (!(*left is Tuple) && !(*right is Tuple) ==> (converted_expr(e, sql) is Ok
            <==> taken_operator(op) && converted_expr(*left, sql) is Ok && converted_expr(*right, sql) is Ok)),
        e matches Expr::UnaryOp { op, expr } ==> (converted_expr(e, sql) is Ok <==> (op is Not || op is Minus || op is Plus) && converted_expr(
            *expr,
            sql,
        ) is Ok),
        e matches Expr::Exists { subquery, .. } ==> (converted_expr(e, sql) is Ok <==> converted_query(*subquery, sql) is Ok),
        e matches Expr::Subquery(subquery) ==> (converted_expr(e, sql) is Ok <==> converted_query(*subquery, sql) is Ok),
        e matches Expr::InSubquery { expr, subquery, .. } ==> (!(*expr is Tuple) ==> (converted_expr(e, sql) is Ok <==> converted_expr(
            *expr,
            sql,
        ) is Ok && converted_query(*subquery, sql) is Ok)),
{
    unfold_converted_expr(e, sql);
    let position = crate::source::place_of(sql, crate::outside::expr_start(e));
    match e {
        Expr::Identifier(_) | Expr::CompoundIdentifier(_) => unfold_leaf_expr(e, sql, position),
        Expr::BinaryOp { op, .. } => {
            unfold_binary_expr(e, sql, position);
            lemma_operators_keep_their_names(op, position);
        },
        Expr::UnaryOp { .. } => unfold_unary_expr(e, sql, position),
        Expr::Exists { .. } | Expr::Subquery(_) | Expr::InSubquery { .. } => unfold_query_expr(e, sql, position),
        _ => {},
    }
}

/// A list whose entries can be taken over can be taken over.
pub proof fn lemma_list_taken(l: Seq<Expr>, sql: Seq<char>, i: int, done: Seq<ParsedExprView>)
    requires
        0 <= i <= l.len(),
    ensures
        converted_exprs(l, sql, i, done) is Ok <==> forall|k: int| i <= k < l.len() ==> converted_expr(#[trigger] l[k], sql) is Ok,
    decreases l.len() - i,
{
    unfold_converted_exprs(l, sql, i, done);
    if i < l.len() {
        if let Ok(b) = converted_expr(l[i], sql) {
            lemma_list_taken(l, sql, i + 1, done.push(b));
        } else {
            assert(!(converted_expr(l[i], sql) is Ok));
        }
    }
}

/// Sort keys whose expressions can be taken over can be taken over, unless one is WITH FILL.
pub proof fn lemma_orders_taken(l: Seq<OrderByExpr>, sql: Seq<char>, i: int, done: Seq<ParsedOrderView>)
    requires
        0 <= i <= l.len(),
    ensures
        orders_of(l, sql, i, done) is Ok <==> forall|k: int|
            i <= k < l.len() ==> (#[trigger] l[k]).with_fill is None && converted_expr(l[k].expr, sql) is Ok,
    decreases l.len() - i,
{
    unfold_orders_of(l, sql, i, done);
    if i < l.len() {
        if !(l[i].with_fill is Some) && converted_expr(l[i].expr, sql) is Ok {
            let o = ParsedOrderView {
                expr: converted_expr(l[i].expr, sql)->Ok_0,
                ascending: match l[i].options.asc {
                    Some(asc) => asc,
                    None => true,
                },
                nulls_first: l[i].options.nulls_first,
            };
            lemma_orders_taken(l, sql, i + 1, done.push(o));
        } else {
            assert(!(l[i].with_fill is None && converted_expr(l[i].expr, sql) is Ok));
        }
    }
}

/// A DELETE from one plain table can be taken over where its WHERE and RETURNING can.
pub proof fn lemma_delete_taken(s: Delete, source: SourceView)
    ensures
        converted_statement(Statement::Delete(s), source) is Ok <==> !unusual_delete(s) && returning_items(s.returning, source.sql) is Ok && (
        s.from matches FromTable::WithFromKeyword(tables) && tables@.len() == 1 && plain_table_of(tables@[0], source.sql) is Ok) && (
        s.selection is Some ==> converted_expr(s.selection->0, source.sql) is Ok),
{
    reveal(data_statement);
    reveal(delete_of);
    unfold_converted_some(s.selection, source.sql);
}

/// An UPDATE of one plain table can be taken over where its assignments, its WHERE and its
/// RETURNING can.
pub proof fn lemma_update_taken(s: Update, source: SourceView)
    ensures
        converted_statement(Statement::Update(s), source) is Ok <==> !unusual_update(s) && returning_items(s.returning, source.sql) is Ok
            && plain_table_of(s.table, source.sql) is Ok && assignments_of(s.assignments@, source.sql, 0, Seq::empty()) is Ok && (
        s.selection is Some ==> converted_expr(s.selection->0, source.sql) is Ok),
{
    reveal(data_statement);
    reveal(update_of);
    unfold_converted_some(s.selection, source.sql);
}

} // verus!
