//! Whether a query refers to a table by its bare name.

use vstd::prelude::*;

use crate::scope::Checked;
use crate::syntax::{
    ParsedCte, ParsedCteView, ParsedExpr, ParsedExprKind, ParsedExprKindView, ParsedExprView, ParsedJoin, ParsedJoinSource,
    ParsedJoinSourceView, ParsedJoinView, ParsedObjectName, ParsedObjectNameView, ParsedOrder, ParsedOrderView, ParsedProjection,
    ParsedProjectionView, ParsedStatement, ParsedStatementView,
};
use crate::text::text;
use crate::types::{error, DbError, Identifier, Result};

verus! {

/// Whether a name is the bare name of a table.
pub open spec fn bare_name(name: ParsedObjectNameView, t: Seq<char>) -> bool {
    name.parts.len() == 1 && name.parts[0].name == t
}

/// Decides whether a name is the bare name of a table.
pub fn cte_table_matches(name: &ParsedObjectName, table: &Identifier) -> (r: bool)
    ensures
        r == bare_name(name@, table@),
{
    if name.parts.len() != 1 {
        return false;
    }
    assert(name@.parts[0] == name.parts@[0]@);
    name.parts[0].name.same(table)
}

/// The first of two answers that settles a question.
pub open spec fn either(a: Checked<bool>, b: Checked<bool>) -> Checked<bool> {
    match a {
        Err(x) => Err(x),
        Ok(true) => Ok(true),
        Ok(false) => b,
    }
}

/// The contents of an answer or of an error.
pub open spec fn found_result(r: Result<bool>) -> Checked<bool> {
    match r {
        Ok(b) => Ok(b),
        Err(e) => Err(e@),
    }
}

/// Whether a query refers to a table by its bare name. Queries nested deeper than
/// the analysis goes are refused.
pub open spec fn refers(s: ParsedStatementView, t: Seq<char>, d: usize) -> Checked<bool>
    decreases s, 0int,
{
    if d >= 64 {
        Err(error("54001"@, "recursive CTE analysis exceeds the maximum depth of 64"@))
    } else {
        match s {
            ParsedStatementView::Select { table, projection, filter, order_by, offset, limit } => either(
                Ok(bare_name(table, t)),
                either(
                    refers_items(projection, t, d, 0),
                    either(
                        refers_some(filter, t, d),
                        either(refers_orders(order_by, t, d, 0), either(refers_some(offset, t, d), refers_some(limit, t, d))),
                    ),
                ),
            ),
            ParsedStatementView::AdvancedSelect {
                table,
                joins,
                projection,
                filter,
                group_by,
                having,
                order_by,
                offset,
                limit,
                ..
            } => either(
                Ok(bare_name(table.name, t)),
                either(
                    refers_sources(joins, t, d, 0),
                    either(
                        refers_conditions(joins, t, d, 0),
                        either(
                            refers_items(projection, t, d, 0),
                            either(
                                refers_some(filter, t, d),
                                either(
                                    refers_exprs(group_by, t, d, 0),
                                    either(
                                        refers_some(having, t, d),
                                        either(
                                            refers_orders(order_by, t, d, 0),
                                            either(refers_some(offset, t, d), refers_some(limit, t, d)),
                                        ),
                                    ),
                                ),
                            ),
                        ),
                    ),
                ),
            ),
            ParsedStatementView::SetOperation { left, right, order_by, offset, limit, .. } => either(
                refers(*left, t, (d + 1) as usize),
                either(
                    refers(*right, t, (d + 1) as usize),
                    either(refers_orders(order_by, t, d, 0), either(refers_some(offset, t, d), refers_some(limit, t, d))),
                ),
            ),
            ParsedStatementView::With { ctes, body, .. } => if defines(ctes, t, 0) {
                Ok(false)
            } else {
                either(refers_ctes(ctes, t, d, 0), refers(*body, t, (d + 1) as usize))
            },
            ParsedStatementView::Explain { statement } => refers(*statement, t, (d + 1) as usize),
            _ => Ok(false),
        }
    }
}

/// Whether one of the WITH queries from a position on has a name.
pub open spec fn defines(l: Seq<ParsedCteView>, t: Seq<char>, i: int) -> bool
    decreases l.len() - i,
{
    0 <= i < l.len() && (l[i].name.name == t || defines(l, t, i + 1))
}

/// Decides whether one of the WITH queries has a name.
pub fn has_definition(l: &Vec<ParsedCte>, table: &Identifier) -> (r: bool)
    ensures
        r == defines(ParsedCte::views(l@), table@, 0),
{
    let ghost v = ParsedCte::views(l@);
    for i in 0..l.len()
        invariant
            v == ParsedCte::views(l@),
            defines(v, table@, 0) == defines(v, table@, i as int),
    {
        assert(v[i as int] == l@[i as int]@);
        proof {
            l@[i as int].unfold();
        }
        if l[i].name.name.same(table) {
            return true;
        }
    }
    false
}

/// Whether a source of a FROM clause is or refers to a table.
pub open spec fn refers_source(s: ParsedJoinSourceView, t: Seq<char>, d: usize) -> Checked<bool>
    decreases s, 0int,
{
    match s {
        ParsedJoinSourceView::Table(table) => Ok(bare_name(table.name, t)),
        ParsedJoinSourceView::Derived { query, .. } => refers(*query, t, (d + 1) as usize),
    }
}

fn source_references_table(s: &ParsedJoinSource, table: &Identifier, depth: usize) -> (r: Result<bool>)
    requires
        depth < 64,
    ensures
        found_result(r) == refers_source(s@, table@, depth),
    decreases s, 0int,
{
    proof {
        s.unfold();
    }
    match s {
        ParsedJoinSource::Table(source) => Ok(cte_table_matches(&source.name, table)),
        ParsedJoinSource::Derived { query, .. } => parsed_query_references_table(query, table, depth + 1),
    }
}

/// Whether an expression that may be absent refers to a table.
pub open spec fn refers_some(e: Option<ParsedExprView>, t: Seq<char>, d: usize) -> Checked<bool>
    decreases e, 0int,
{
    match e {
        Some(e) => refers_expr(e, t, d),
        None => Ok(false),
    }
}

/// Decides whether an expression that may be absent refers to a table.
fn parsed_optional_expr_references_table(e: &Option<ParsedExpr>, table: &Identifier, depth: usize) -> (r: Result<bool>)
    requires
        depth < 64,
    ensures
        found_result(r) == refers_some(crate::binding::some_view(*e), table@, depth),
    decreases e, 0int,
{
    match e {
        Some(e) => parsed_expr_references_table(e, table, depth),
        None => Ok(false),
    }
}

/// Whether an expression that may be absent refers to a table.
pub open spec fn refers_option(e: Option<Box<ParsedExprView>>, t: Seq<char>, d: usize) -> Checked<bool>
    decreases e, 0int,
{
    match e {
        Some(e) => refers_expr(*e, t, d),
        None => Ok(false),
    }
}

fn option_references_table(e: &Option<Box<ParsedExpr>>, table: &Identifier, depth: usize) -> (r: Result<bool>)
    requires
        depth < 64,
    ensures
        found_result(r) == refers_option(crate::binding::option_view(*e), table@, depth),
    decreases e, 0int,
{
    match e {
        Some(e) => parsed_expr_references_table(e, table, depth),
        None => Ok(false),
    }
}

/// Whether an item of a select list refers to a table.
pub open spec fn refers_item(p: ParsedProjectionView, t: Seq<char>, d: usize) -> Checked<bool>
    decreases p, 0int,
{
    match p {
        ParsedProjectionView::Wildcard => Ok(false),
        ParsedProjectionView::Expression { expr, .. } => refers_expr(expr, t, d),
    }
}

fn item_references_table(p: &ParsedProjection, table: &Identifier, depth: usize) -> (r: Result<bool>)
    requires
        depth < 64,
    ensures
        found_result(r) == refers_item(p@, table@, depth),
    decreases p, 0int,
{
    proof {
        p.unfold();
    }
    match p {
        ParsedProjection::Wildcard => Ok(false),
        ParsedProjection::Expression { expr, .. } => parsed_expr_references_table(expr, table, depth),
    }
}

/// Whether one of the joined sources is or refers to a table, from a position on.
pub open spec fn refers_sources(l: Seq<ParsedJoinView>, t: Seq<char>, d: usize, i: int) -> Checked<bool>
    decreases l, l.len() - i,
{
    if i < 0 || i >= l.len() {
        Ok(false)
    } else {
        either(refers_source(l[i].source, t, d), refers_sources(l, t, d, i + 1))
    }
}

fn sources_reference_table(l: &Vec<ParsedJoin>, table: &Identifier, depth: usize) -> (r: Result<bool>)
    requires
        depth < 64,
    ensures
        found_result(r) == refers_sources(ParsedJoin::views(l@), table@, depth, 0),
    decreases l, 0int,
{
    let ghost v = ParsedJoin::views(l@);
    for i in 0..l.len()
        invariant
            depth < 64,
            v == ParsedJoin::views(l@),
            refers_sources(v, table@, depth, 0) == refers_sources(v, table@, depth, i as int),
    {
        assert(decreases_to!(l => l@[i as int]));
        assert(v[i as int] == l@[i as int]@);
        proof {
            l@[i as int].unfold();
        }
        if source_references_table(&l[i].source, table, depth)? {
            return Ok(true);
        }
    }
    Ok(false)
}

/// Whether one of the join conditions refers to a table, from a position on.
pub open spec fn refers_conditions(l: Seq<ParsedJoinView>, t: Seq<char>, d: usize, i: int) -> Checked<bool>
    decreases l, l.len() - i,
{
    if i < 0 || i >= l.len() {
        Ok(false)
    } else {
        either(refers_expr(l[i].on, t, d), refers_conditions(l, t, d, i + 1))
    }
}

fn conditions_reference_table(l: &Vec<ParsedJoin>, table: &Identifier, depth: usize) -> (r: Result<bool>)
    requires
        depth < 64,
    ensures
        found_result(r) == refers_conditions(ParsedJoin::views(l@), table@, depth, 0),
    decreases l, 0int,
{
    let ghost v = ParsedJoin::views(l@);
    for i in 0..l.len()
        invariant
            depth < 64,
            v == ParsedJoin::views(l@),
            refers_conditions(v, table@, depth, 0) == refers_conditions(v, table@, depth, i as int),
    {
        assert(decreases_to!(l => l@[i as int]));
        assert(v[i as int] == l@[i as int]@);
        proof {
            l@[i as int].unfold();
        }
        if parsed_expr_references_table(&l[i].on, table, depth)? {
            return Ok(true);
        }
    }
    Ok(false)
}

/// Whether one of the items of a select list refers to a table, from a position on.
pub open spec fn refers_items(l: Seq<ParsedProjectionView>, t: Seq<char>, d: usize, i: int) -> Checked<bool>
    decreases l, l.len() - i,
{
    if i < 0 || i >= l.len() {
        Ok(false)
    } else {
        either(refers_item(l[i], t, d), refers_items(l, t, d, i + 1))
    }
}

fn parsed_projections_reference_table(l: &Vec<ParsedProjection>, table: &Identifier, depth: usize) -> (r: Result<bool>)
    requires
        depth < 64,
    ensures
        found_result(r) == refers_items(ParsedProjection::views(l@), table@, depth, 0),
    decreases l, 0int,
{
    let ghost v = ParsedProjection::views(l@);
    for i in 0..l.len()
        invariant
            depth < 64,
            v == ParsedProjection::views(l@),
            refers_items(v, table@, depth, 0) == refers_items(v, table@, depth, i as int),
    {
        assert(decreases_to!(l => l@[i as int]));
        assert(v[i as int] == l@[i as int]@);
        if item_references_table(&l[i], table, depth)? {
            return Ok(true);
        }
    }
    Ok(false)
}

/// Whether one of the sort keys refers to a table, from a position on.
pub open spec fn refers_orders(l: Seq<ParsedOrderView>, t: Seq<char>, d: usize, i: int) -> Checked<bool>
    decreases l, l.len() - i,
{
    if i < 0 || i >= l.len() {
        Ok(false)
    } else {
        either(refers_expr(l[i].expr, t, d), refers_orders(l, t, d, i + 1))
    }
}

fn parsed_orders_reference_table(l: &Vec<ParsedOrder>, table: &Identifier, depth: usize) -> (r: Result<bool>)
    requires
        depth < 64,
    ensures
        found_result(r) == refers_orders(ParsedOrder::views(l@), table@, depth, 0),
    decreases l, 0int,
{
    let ghost v = ParsedOrder::views(l@);
    for i in 0..l.len()
        invariant
            depth < 64,
            v == ParsedOrder::views(l@),
            refers_orders(v, table@, depth, 0) == refers_orders(v, table@, depth, i as int),
    {
        assert(decreases_to!(l => l@[i as int]));
        assert(v[i as int] == l@[i as int]@);
        proof {
            l@[i as int].unfold();
        }
        if parsed_expr_references_table(&l[i].expr, table, depth)? {
            return Ok(true);
        }
    }
    Ok(false)
}

/// Whether one of the expressions refers to a table, from a position on.
pub open spec fn refers_exprs(l: Seq<ParsedExprView>, t: Seq<char>, d: usize, i: int) -> Checked<bool>
    decreases l, l.len() - i,
{
    if i < 0 || i >= l.len() {
        Ok(false)
    } else {
        either(refers_expr(l[i], t, d), refers_exprs(l, t, d, i + 1))
    }
}

fn parsed_exprs_reference_table(l: &Vec<ParsedExpr>, table: &Identifier, depth: usize) -> (r: Result<bool>)
    requires
        depth < 64,
    ensures
        found_result(r) == refers_exprs(ParsedExpr::views(l@), table@, depth, 0),
    decreases l, 0int,
{
    let ghost v = ParsedExpr::views(l@);
    for i in 0..l.len()
        invariant
            depth < 64,
            v == ParsedExpr::views(l@),
            refers_exprs(v, table@, depth, 0) == refers_exprs(v, table@, depth, i as int),
    {
        assert(decreases_to!(l => l@[i as int]));
        assert(v[i as int] == l@[i as int]@);
        if parsed_expr_references_table(&l[i], table, depth)? {
            return Ok(true);
        }
    }
    Ok(false)
}

/// Whether one of the WITH queries refers to a table, from a position on.
pub open spec fn refers_ctes(l: Seq<ParsedCteView>, t: Seq<char>, d: usize, i: int) -> Checked<bool>
    decreases l, l.len() - i,
{
    if i < 0 || i >= l.len() {
        Ok(false)
    } else {
        either(refers(*l[i].query, t, (d + 1) as usize), refers_ctes(l, t, d, i + 1))
    }
}

fn ctes_reference_table(l: &Vec<ParsedCte>, table: &Identifier, depth: usize) -> (r: Result<bool>)
    requires
        depth < 64,
    ensures
        found_result(r) == refers_ctes(ParsedCte::views(l@), table@, depth, 0),
    decreases l, 0int,
{
    let ghost v = ParsedCte::views(l@);
    for i in 0..l.len()
        invariant
            depth < 64,
            v == ParsedCte::views(l@),
            refers_ctes(v, table@, depth, 0) == refers_ctes(v, table@, depth, i as int),
    {
        assert(decreases_to!(l => l@[i as int]));
        assert(v[i as int] == l@[i as int]@);
        proof {
            l@[i as int].unfold();
        }
        if parsed_query_references_table(&l[i].query, table, depth + 1)? {
            return Ok(true);
        }
    }
    Ok(false)
}

/// Whether one of the expressions refers to a table, from the last of the first `n` back to the first.
pub open spec fn refers_back(l: Seq<ParsedExprView>, t: Seq<char>, d: usize, n: int) -> Checked<bool>
    decreases l, n,
{
    if n <= 0 || n > l.len() {
        Ok(false)
    } else {
        either(refers_expr(l[n - 1], t, d), refers_back(l, t, d, n - 1))
    }
}

fn exprs_reference_table_back(l: &Vec<ParsedExpr>, table: &Identifier, depth: usize) -> (r: Result<bool>)
    requires
        depth < 64,
    ensures
        found_result(r) == refers_back(ParsedExpr::views(l@), table@, depth, l@.len() as int),
    decreases l, 0int,
{
    let ghost v = ParsedExpr::views(l@);
    let mut n: usize = l.len();
    while n > 0
        invariant
            depth < 64,
            n <= l.len(),
            v == ParsedExpr::views(l@),
            refers_back(v, table@, depth, l@.len() as int) == refers_back(v, table@, depth, n as int),
        decreases n,
    {
        assert(decreases_to!(l => l@[n - 1]));
        assert(v[n - 1] == l@[n - 1]@);
        if parsed_expr_references_table(&l[n - 1], table, depth)? {
            return Ok(true);
        }
        n -= 1;
    }
    Ok(false)
}

/// Whether one of the sort keys refers to a table, from the last of the first `n` back to the first.
pub open spec fn refers_orders_back(l: Seq<ParsedOrderView>, t: Seq<char>, d: usize, n: int) -> Checked<bool>
    decreases l, n,
{
    if n <= 0 || n > l.len() {
        Ok(false)
    } else {
        either(refers_expr(l[n - 1].expr, t, d), refers_orders_back(l, t, d, n - 1))
    }
}

fn orders_reference_table_back(l: &Vec<ParsedOrder>, table: &Identifier, depth: usize) -> (r: Result<bool>)
    requires
        depth < 64,
    ensures
        found_result(r) == refers_orders_back(ParsedOrder::views(l@), table@, depth, l@.len() as int),
    decreases l, 0int,
{
    let ghost v = ParsedOrder::views(l@);
    let mut n: usize = l.len();
    while n > 0
        invariant
            depth < 64,
            n <= l.len(),
            v == ParsedOrder::views(l@),
            refers_orders_back(v, table@, depth, l@.len() as int) == refers_orders_back(v, table@, depth, n as int),
        decreases n,
    {
        assert(decreases_to!(l => l@[n - 1]));
        assert(v[n - 1] == l@[n - 1]@);
        proof {
            l@[n - 1].unfold();
        }
        if parsed_expr_references_table(&l[n - 1].expr, table, depth)? {
            return Ok(true);
        }
        n -= 1;
    }
    Ok(false)
}

/// Whether an expression refers to a table. The answer of the part that is visited
/// first counts: subqueries come before operands, and lists are visited backwards.
pub open spec fn refers_expr(e: ParsedExprView, t: Seq<char>, d: usize) -> Checked<bool>
    decreases e, 0int,
{
    match e.kind {
        ParsedExprKindView::Unary { expr, .. } => refers_expr(*expr, t, d),
        ParsedExprKindView::Cast { expr, .. } => refers_expr(*expr, t, d),
        ParsedExprKindView::Array { elements, .. } => refers_back(elements, t, d, elements.len() as int),
        ParsedExprKindView::Function { arguments, .. } => refers_back(arguments, t, d, arguments.len() as int),
        ParsedExprKindView::Binary { left, right, .. } => either(refers_expr(*left, t, d), refers_expr(*right, t, d)),
        ParsedExprKindView::InList { expr, list, .. } => either(refers_expr(*expr, t, d), refers_back(list, t, d, list.len() as int)),
        ParsedExprKindView::ScalarSubquery(query) => refers(*query, t, (d + 1) as usize),
        ParsedExprKindView::Exists { subquery, .. } => refers(*subquery, t, (d + 1) as usize),
        ParsedExprKindView::InSubquery { expr, subquery, .. } => either(refers(*subquery, t, (d + 1) as usize), refers_expr(*expr, t, d)),
        ParsedExprKindView::QuantifiedSubquery { left, subquery, .. } => either(
            refers(*subquery, t, (d + 1) as usize),
            refers_expr(*left, t, d),
        ),
        ParsedExprKindView::RowSubquery { left, subquery, .. } => either(
            refers(*subquery, t, (d + 1) as usize),
            refers_back(left, t, d, left.len() as int),
        ),
        ParsedExprKindView::Aggregate { argument, filter, .. } => either(refers_option(argument, t, d), refers_option(filter, t, d)),
        ParsedExprKindView::Window { call, spec } => either(
            refers_back(spec.partition_by, t, d, spec.partition_by.len() as int),
            either(
                refers_orders_back(spec.order_by, t, d, spec.order_by.len() as int),
                either(refers_back(call.arguments, t, d, call.arguments.len() as int), refers_option(call.filter, t, d)),
            ),
        ),
        ParsedExprKindView::NamedWindow { call, .. } => either(
            refers_back(call.arguments, t, d, call.arguments.len() as int),
            refers_option(call.filter, t, d),
        ),
        _ => Ok(false),
    }
}

/// Decides whether an expression refers to a table.
pub fn parsed_expr_references_table(expression: &ParsedExpr, table: &Identifier, depth: usize) -> (r: Result<bool>)
    requires
        depth < 64,
    ensures
        found_result(r) == refers_expr(expression@, table@, depth),
    decreases expression, 0int,
{
    proof {
        expression.unfold();
    }
    match &expression.kind {
        ParsedExprKind::Unary { expr, .. } => parsed_expr_references_table(expr, table, depth),
        ParsedExprKind::Cast { expr, .. } => parsed_expr_references_table(expr, table, depth),
        ParsedExprKind::Array { elements, .. } => exprs_reference_table_back(elements, table, depth),
        ParsedExprKind::Function { arguments, .. } => exprs_reference_table_back(arguments, table, depth),
        ParsedExprKind::Binary { left, right, .. } => {
            if parsed_expr_references_table(left, table, depth)? {
                return Ok(true);
            }
            parsed_expr_references_table(right, table, depth)
        },
        ParsedExprKind::InList { expr, list, .. } => {
            if parsed_expr_references_table(expr, table, depth)? {
                return Ok(true);
            }
            exprs_reference_table_back(list, table, depth)
        },
        ParsedExprKind::ScalarSubquery(query) => parsed_query_references_table(query, table, depth + 1),
        ParsedExprKind::Exists { subquery, .. } => parsed_query_references_table(subquery, table, depth + 1),
        ParsedExprKind::InSubquery { expr, subquery, .. } => {
            if parsed_query_references_table(subquery, table, depth + 1)? {
                return Ok(true);
            }
            parsed_expr_references_table(expr, table, depth)
        },
        ParsedExprKind::QuantifiedSubquery { left, subquery, .. } => {
            if parsed_query_references_table(subquery, table, depth + 1)? {
                return Ok(true);
            }
            parsed_expr_references_table(left, table, depth)
        },
        ParsedExprKind::RowSubquery { left, subquery, .. } => {
            if parsed_query_references_table(subquery, table, depth + 1)? {
                return Ok(true);
            }
            exprs_reference_table_back(left, table, depth)
        },
        ParsedExprKind::Aggregate { argument, filter, .. } => {
            if option_references_table(argument, table, depth)? {
                return Ok(true);
            }
            option_references_table(filter, table, depth)
        },
        ParsedExprKind::Window { call, spec } => {
            proof {
                call.unfold();
                spec.unfold();
            }
            if exprs_reference_table_back(&spec.partition_by, table, depth)?
                || orders_reference_table_back(&spec.order_by, table, depth)? || exprs_reference_table_back(
                &call.arguments,
                table,
                depth,
            )? {
                return Ok(true);
            }
            option_references_table(&call.filter, table, depth)
        },
        ParsedExprKind::NamedWindow { call, .. } => {
            proof {
                call.unfold();
            }
            if exprs_reference_table_back(&call.arguments, table, depth)? {
                return Ok(true);
            }
            option_references_table(&call.filter, table, depth)
        },
        _ => Ok(false),
    }
}

/// Decides whether a query refers to a table by its bare name.
pub fn parsed_query_references_table(statement: &ParsedStatement, table: &Identifier, depth: usize) -> (r: Result<bool>)
    ensures
        found_result(r) == refers(statement@, table@, depth),
    decreases statement, 0int,
{
    if depth >= 64 {
        return Err(DbError::new("54001", text("recursive CTE analysis exceeds the maximum depth of 64")));
    }
    proof {
        statement.unfold();
    }
    match statement {
        ParsedStatement::Select { table: source, projection, filter, order_by, offset, limit } => {
            if cte_table_matches(source, table) || parsed_projections_reference_table(projection, table, depth)?
                || parsed_optional_expr_references_table(filter, table, depth)? || parsed_orders_reference_table(order_by, table, depth)?
                || parsed_optional_expr_references_table(offset, table, depth)? {
                return Ok(true);
            }
            parsed_optional_expr_references_table(limit, table, depth)
        },
        ParsedStatement::AdvancedSelect { table: source, joins, projection, filter, group_by, having, order_by, offset, limit, .. } => {
            if cte_table_matches(&source.name, table) || sources_reference_table(joins, table, depth)? || conditions_reference_table(
                joins,
                table,
                depth,
            )? || parsed_projections_reference_table(projection, table, depth)?
                || parsed_optional_expr_references_table(filter, table, depth)?
                || parsed_exprs_reference_table(group_by, table, depth)? || parsed_optional_expr_references_table(having, table, depth)?
                || parsed_orders_reference_table(order_by, table, depth)? || parsed_optional_expr_references_table(offset, table, depth)? {
                return Ok(true);
            }
            parsed_optional_expr_references_table(limit, table, depth)
        },
        ParsedStatement::SetOperation { left, right, order_by, offset, limit, .. } => {
            if parsed_query_references_table(left, table, depth + 1)? || parsed_query_references_table(right, table, depth + 1)?
                || parsed_orders_reference_table(order_by, table, depth)? || parsed_optional_expr_references_table(offset, table, depth)? {
                return Ok(true);
            }
            parsed_optional_expr_references_table(limit, table, depth)
        },
        ParsedStatement::With { ctes, body, .. } => {
            if has_definition(ctes, table) {
                return Ok(false);
            }
            if ctes_reference_table(ctes, table, depth)? {
                return Ok(true);
            }
            parsed_query_references_table(body, table, depth + 1)
        },
        ParsedStatement::Explain { statement } => parsed_query_references_table(statement, table, depth + 1),
        _ => Ok(false),
    }
}

} // verus!
