//! References to WITH queries are rewritten to the relations that stand for them.

use vstd::prelude::*;

use crate::binding::{make_expr, option_view, some_view};
use crate::scope::Checked;
use crate::syntax::{
    ParsedCte, ParsedCteView, ParsedExpr, ParsedExprKind, ParsedExprKindView, ParsedExprView, ParsedJoin, ParsedJoinSource,
    ParsedJoinSourceView, ParsedJoinView, ParsedObjectName, ParsedObjectNameView, ParsedOrder, ParsedOrderView, ParsedProjection,
    ParsedProjectionView, ParsedStatement, ParsedStatementView, ParsedTable, ParsedTableView, ParsedWindowCall, ParsedWindowCallView,
    ParsedWindowSpec, ParsedWindowSpecView,
};
use crate::text::{copy_items, text};
use crate::types::{error, DbError, Identifier, Result};

verus! {

/// The relation that stands for a WITH query.
pub struct Replacement {
    pub name: Identifier,
    pub target: ParsedObjectName,
}

/// Mathematical contents of a [`Replacement`].
pub struct ReplacementView {
    pub name: Seq<char>,
    pub target: ParsedObjectNameView,
}

impl Replacement {
    /// The value as mathematical data.
    pub open spec fn view(&self) -> ReplacementView {
        ReplacementView { name: self.name@, target: self.target@ }
    }

    /// The contents of each value of a sequence.
    pub open spec fn views(l: Seq<Replacement>) -> Seq<ReplacementView> {
        Seq::new(l.len(), |i: int| l[i]@)
    }
}

/// The relation that stands for a name, from a position on.
pub open spec fn replacement(l: Seq<ReplacementView>, name: Seq<char>, i: int) -> Option<ParsedObjectNameView>
    decreases l.len() - i,
{
    if i < 0 || i >= l.len() {
        None
    } else if l[i].name == name {
        Some(l[i].target)
    } else {
        replacement(l, name, i + 1)
    }
}

/// Finds the relation that stands for a name.
pub fn find_replacement<'a>(l: &'a Vec<Replacement>, name: &Identifier) -> (r: Option<&'a ParsedObjectName>)
    ensures
        (match r {
            Some(t) => Some(t@),
            None => None,
        }) == replacement(Replacement::views(l@), name@, 0),
{
    let ghost v = Replacement::views(l@);
    for i in 0..l.len()
        invariant
            v == Replacement::views(l@),
            replacement(v, name@, 0) == replacement(v, name@, i as int),
    {
        assert(v[i as int] == l@[i as int]@);
        if l[i].name.same(name) {
            return Some(&l[i].target);
        }
    }
    None
}

/// The replacements that no WITH query of an inner scope hides, from a position on.
pub open spec fn visible(l: Seq<ReplacementView>, ctes: Seq<ParsedCteView>, i: int, done: Seq<ReplacementView>) -> Seq<ReplacementView>
    decreases l.len() - i,
{
    if i < 0 || i >= l.len() {
        done
    } else if crate::references::defines(ctes, l[i].name, 0) {
        visible(l, ctes, i + 1, done)
    } else {
        visible(l, ctes, i + 1, done.push(l[i]))
    }
}

fn visible_replacements(l: &Vec<Replacement>, ctes: &Vec<ParsedCte>) -> (r: Vec<Replacement>)
    ensures
        Replacement::views(r@) == visible(Replacement::views(l@), ParsedCte::views(ctes@), 0, Seq::empty()),
{
    let ghost v = Replacement::views(l@);
    let ghost c = ParsedCte::views(ctes@);
    let mut out: Vec<Replacement> = Vec::new();
    assert(Replacement::views(out@) =~= Seq::empty());
    for i in 0..l.len()
        invariant
            v == Replacement::views(l@),
            c == ParsedCte::views(ctes@),
            visible(v, c, 0, Seq::empty()) == visible(v, c, i as int, Replacement::views(out@)),
    {
        assert(v[i as int] == l@[i as int]@);
        if !crate::references::has_definition(ctes, &l[i].name) {
            let x = Replacement { name: l[i].name.clone(), target: l[i].target.clone() };
            let ghost before = Replacement::views(out@);
            out.push(x);
            assert(Replacement::views(out@) =~= before.push(x@));
        }
    }
    out
}

/// A relation name after replacement.
pub open spec fn rewritten_name(name: ParsedObjectNameView, r: Seq<ReplacementView>) -> ParsedObjectNameView {
    if name.parts.len() == 1 {
        match replacement(r, name.parts[0].name, 0) {
            Some(t) => t,
            None => name,
        }
    } else {
        name
    }
}

/// Rewrites a relation name.
pub fn rewrite_cte_table(name: &ParsedObjectName, replacements: &Vec<Replacement>) -> (r: ParsedObjectName)
    ensures
        r@ == rewritten_name(name@, Replacement::views(replacements@)),
{
    if name.parts.len() == 1 {
        assert(name@.parts[0] == name.parts@[0]@);
        if let Some(t) = find_replacement(replacements, &name.parts[0].name) {
            return t.clone();
        }
    }
    name.clone()
}

/// An expression whose subqueries refer to replacements.
pub open spec fn rewritten_expr(e: ParsedExprView, replacements: Seq<ReplacementView>, depth: usize) -> Checked<ParsedExprView>
    decreases e, 0int,
{
    match e.kind {
        ParsedExprKindView::Unary { op, expr } => match rewritten_expr(*expr, replacements, depth) {
            Err(x) => Err(x),
            Ok(expr) => Ok(ParsedExprView { kind: ParsedExprKindView::Unary { op, expr: Box::new(expr) }, position: e.position }),
        },
        ParsedExprKindView::Cast { expr, data_type, declared_type } => match rewritten_expr(*expr, replacements, depth) {
            Err(x) => Err(x),
            Ok(expr) => Ok(
                ParsedExprView { kind: ParsedExprKindView::Cast { expr: Box::new(expr), data_type, declared_type }, position: e.position },
            ),
        },
        ParsedExprKindView::Array { elements, dimensions } => match rewritten_expr_all(elements, replacements, depth, 0, Seq::empty()) {
            Err(x) => Err(x),
            Ok(elements) => Ok(ParsedExprView { kind: ParsedExprKindView::Array { elements, dimensions }, position: e.position }),
        },
        ParsedExprKindView::Function { function, arguments } => match rewritten_expr_all(arguments, replacements, depth, 0, Seq::empty()) {
            Err(x) => Err(x),
            Ok(arguments) => Ok(ParsedExprView { kind: ParsedExprKindView::Function { function, arguments }, position: e.position }),
        },
        ParsedExprKindView::Binary { left, op, right } => match rewritten_expr(*left, replacements, depth) {
            Err(x) => Err(x),
            Ok(left) => match rewritten_expr(*right, replacements, depth) {
                Err(x) => Err(x),
                Ok(right) => Ok(
                    ParsedExprView {
                        kind: ParsedExprKindView::Binary { left: Box::new(left), op, right: Box::new(right) },
                        position: e.position,
                    },
                ),
            },
        },
        ParsedExprKindView::InList { expr, list, negated } => match rewritten_expr(*expr, replacements, depth) {
            Err(x) => Err(x),
            Ok(expr) => match rewritten_expr_all(list, replacements, depth, 0, Seq::empty()) {
                Err(x) => Err(x),
                Ok(list) => Ok(
                    ParsedExprView { kind: ParsedExprKindView::InList { expr: Box::new(expr), list, negated }, position: e.position },
                ),
            },
        },
        ParsedExprKindView::Aggregate {
            function,
            argument,
            distinct,
            filter,
        } => match rewritten_expr_option(argument, replacements, depth) {
            Err(x) => Err(x),
            Ok(argument) => match rewritten_expr_option(filter, replacements, depth) {
                Err(x) => Err(x),
                Ok(filter) => Ok(
                    ParsedExprView { kind: ParsedExprKindView::Aggregate { function, argument, distinct, filter }, position: e.position },
                ),
            },
        },
        ParsedExprKindView::ScalarSubquery(query) => match rewritten(*query, replacements, (depth + 1) as usize) {
            Err(x) => Err(x),
            Ok(q) => Ok(ParsedExprView { kind: ParsedExprKindView::ScalarSubquery(Box::new(q)), position: e.position }),
        },
        ParsedExprKindView::Exists { subquery, negated } => match rewritten(*subquery, replacements, (depth + 1) as usize) {
            Err(x) => Err(x),
            Ok(q) => Ok(ParsedExprView { kind: ParsedExprKindView::Exists { subquery: Box::new(q), negated }, position: e.position }),
        },
        ParsedExprKindView::InSubquery { expr, subquery, negated } => match rewritten_expr(*expr, replacements, depth) {
            Err(x) => Err(x),
            Ok(expr) => match rewritten(*subquery, replacements, (depth + 1) as usize) {
                Err(x) => Err(x),
                Ok(q) => Ok(
                    ParsedExprView {
                        kind: ParsedExprKindView::InSubquery { expr: Box::new(expr), subquery: Box::new(q), negated },
                        position: e.position,
                    },
                ),
            },
        },
        ParsedExprKindView::QuantifiedSubquery { left, op, quantifier, subquery } => match rewritten_expr(*left, replacements, depth) {
            Err(x) => Err(x),
            Ok(left) => match rewritten(*subquery, replacements, (depth + 1) as usize) {
                Err(x) => Err(x),
                Ok(q) => Ok(
                    ParsedExprView {
                        kind: ParsedExprKindView::QuantifiedSubquery { left: Box::new(left), op, quantifier, subquery: Box::new(q) },
                        position: e.position,
                    },
                ),
            },
        },
        ParsedExprKindView::RowSubquery { left, op, quantifier, negated, subquery } => match rewritten_expr_all(
            left,
            replacements,
            depth,
            0,
            Seq::empty(),
        ) {
            Err(x) => Err(x),
            Ok(left) => match rewritten(*subquery, replacements, (depth + 1) as usize) {
                Err(x) => Err(x),
                Ok(q) => Ok(
                    ParsedExprView {
                        kind: ParsedExprKindView::RowSubquery { left, op, quantifier, negated, subquery: Box::new(q) },
                        position: e.position,
                    },
                ),
            },
        },
        ParsedExprKindView::Window { call, spec } => match rewritten_call(*call, replacements, depth) {
            Err(x) => Err(x),
            Ok(c) => match rewritten_spec(*spec, replacements, depth) {
                Err(x) => Err(x),
                Ok(s) => Ok(
                    ParsedExprView { kind: ParsedExprKindView::Window { call: Box::new(c), spec: Box::new(s) }, position: e.position },
                ),
            },
        },
        ParsedExprKindView::NamedWindow { call, name } => match rewritten_call(*call, replacements, depth) {
            Err(x) => Err(x),
            Ok(c) => Ok(ParsedExprView { kind: ParsedExprKindView::NamedWindow { call: Box::new(c), name }, position: e.position }),
        },
        _ => Ok(e),
    }
}

/// The same of each expression of a list, from a position on.
pub open spec fn rewritten_expr_all(
    l: Seq<ParsedExprView>,
    replacements: Seq<ReplacementView>,
    depth: usize,
    i: int,
    done: Seq<ParsedExprView>,
) -> Checked<Seq<ParsedExprView>>
    decreases l, l.len() - i,
{
    if i < 0 || i >= l.len() {
        Ok(done)
    } else {
        match rewritten_expr(l[i], replacements, depth) {
            Err(x) => Err(x),
            Ok(b) => rewritten_expr_all(l, replacements, depth, i + 1, done.push(b)),
        }
    }
}

/// The same of an expression that may be absent.
pub open spec fn rewritten_expr_option(
    e: Option<Box<ParsedExprView>>,
    replacements: Seq<ReplacementView>,
    depth: usize,
) -> Checked<Option<Box<ParsedExprView>>>
    decreases e, 0int,
{
    match e {
        None => Ok(None),
        Some(e) => match rewritten_expr(*e, replacements, depth) {
            Err(x) => Err(x),
            Ok(b) => Ok(Some(Box::new(b))),
        },
    }
}

/// Rewrites the subqueries of an expression.
pub fn rewrite_cte_expr(expr: &ParsedExpr, replacements: &Vec<Replacement>, depth: usize) -> (r: Result<ParsedExpr>)
    requires
        depth < 64,
    ensures
        (match r {
            Ok(x) => Ok(x@),
            Err(x) => Err(x@),
        }) == rewritten_expr(expr@, Replacement::views(replacements@), depth),
    decreases expr, 0int,
{
    proof {
        expr.unfold();
    }
    let position = expr.position;
    match &expr.kind {
        ParsedExprKind::Unary { op, expr } => {
            let expr = rewrite_cte_expr(expr, replacements, depth)?;
            Ok(make_expr(ParsedExprKind::Unary { op: *op, expr: Box::new(expr) }, position))
        },
        ParsedExprKind::Cast { expr, data_type, declared_type } => {
            let expr = rewrite_cte_expr(expr, replacements, depth)?;
            Ok(
                make_expr(
                    ParsedExprKind::Cast { expr: Box::new(expr), data_type: data_type.clone(), declared_type: declared_type.clone() },
                    position,
                ),
            )
        },
        ParsedExprKind::Array { elements, dimensions } => {
            let elements = rewrite_cte_expr_all(elements, replacements, depth)?;
            Ok(make_expr(ParsedExprKind::Array { elements, dimensions: copy_items(dimensions) }, position))
        },
        ParsedExprKind::Function { function, arguments } => {
            let arguments = rewrite_cte_expr_all(arguments, replacements, depth)?;
            Ok(make_expr(ParsedExprKind::Function { function: *function, arguments }, position))
        },
        ParsedExprKind::Binary { left, op, right } => {
            let left = rewrite_cte_expr(left, replacements, depth)?;
            let right = rewrite_cte_expr(right, replacements, depth)?;
            Ok(make_expr(ParsedExprKind::Binary { left: Box::new(left), op: *op, right: Box::new(right) }, position))
        },
        ParsedExprKind::InList { expr, list, negated } => {
            let expr = rewrite_cte_expr(expr, replacements, depth)?;
            let list = rewrite_cte_expr_all(list, replacements, depth)?;
            Ok(make_expr(ParsedExprKind::InList { expr: Box::new(expr), list, negated: *negated }, position))
        },
        ParsedExprKind::Aggregate { function, argument, distinct, filter } => {
            let argument = rewrite_cte_expr_option(argument, replacements, depth)?;
            let filter = rewrite_cte_expr_option(filter, replacements, depth)?;
            Ok(make_expr(ParsedExprKind::Aggregate { function: *function, argument, distinct: *distinct, filter }, position))
        },
        ParsedExprKind::ScalarSubquery(query) => {
            let q = rewrite_cte_references(query, replacements, depth + 1)?;
            Ok(make_expr(ParsedExprKind::ScalarSubquery(Box::new(q)), position))
        },
        ParsedExprKind::Exists { subquery, negated } => {
            let q = rewrite_cte_references(subquery, replacements, depth + 1)?;
            Ok(make_expr(ParsedExprKind::Exists { subquery: Box::new(q), negated: *negated }, position))
        },
        ParsedExprKind::InSubquery { expr, subquery, negated } => {
            let expr = rewrite_cte_expr(expr, replacements, depth)?;
            let q = rewrite_cte_references(subquery, replacements, depth + 1)?;
            Ok(make_expr(ParsedExprKind::InSubquery { expr: Box::new(expr), subquery: Box::new(q), negated: *negated }, position))
        },
        ParsedExprKind::QuantifiedSubquery { left, op, quantifier, subquery } => {
            let left = rewrite_cte_expr(left, replacements, depth)?;
            let q = rewrite_cte_references(subquery, replacements, depth + 1)?;
            Ok(
                make_expr(
                    ParsedExprKind::QuantifiedSubquery {
                        left: Box::new(left),
                        op: *op,
                        quantifier: *quantifier,
                        subquery: Box::new(q),
                    },
                    position,
                ),
            )
        },
        ParsedExprKind::RowSubquery { left, op, quantifier, negated, subquery } => {
            let left = rewrite_cte_expr_all(left, replacements, depth)?;
            let q = rewrite_cte_references(subquery, replacements, depth + 1)?;
            Ok(
                make_expr(
                    ParsedExprKind::RowSubquery {
                        left,
                        op: *op,
                        quantifier: *quantifier,
                        negated: *negated,
                        subquery: Box::new(q),
                    },
                    position,
                ),
            )
        },
        ParsedExprKind::Window { call, spec } => {
            let c = rewrite_cte_call(call, replacements, depth)?;
            let s = rewrite_cte_spec(spec, replacements, depth)?;
            Ok(make_expr(ParsedExprKind::Window { call: Box::new(c), spec: Box::new(s) }, position))
        },
        ParsedExprKind::NamedWindow { call, name } => {
            let c = rewrite_cte_call(call, replacements, depth)?;
            Ok(make_expr(ParsedExprKind::NamedWindow { call: Box::new(c), name: name.clone() }, position))
        },
        _ => Ok(expr.clone()),
    }
}

/// Does the same to each expression of a list.
pub fn rewrite_cte_expr_all(l: &Vec<ParsedExpr>, replacements: &Vec<Replacement>, depth: usize) -> (r: Result<Vec<ParsedExpr>>)
    requires
        depth < 64,
    ensures
        (match r {
            Ok(x) => Ok(ParsedExpr::views(x@)),
            Err(x) => Err(x@),
        }) == rewritten_expr_all(ParsedExpr::views(l@), Replacement::views(replacements@), depth, 0, Seq::empty()),
    decreases l, 0int,
{
    let ghost v = ParsedExpr::views(l@);
    let mut out: Vec<ParsedExpr> = Vec::new();
    assert(ParsedExpr::views(out@) =~= Seq::empty());
    for i in 0..l.len()
        invariant
            v == ParsedExpr::views(l@),
            depth < 64,
            rewritten_expr_all(v, Replacement::views(replacements@), depth, 0, Seq::empty()) == rewritten_expr_all(
                v,
                Replacement::views(replacements@),
                depth,
                i as int,
                ParsedExpr::views(out@),
            ),
    {
        assert(decreases_to!(l => l@[i as int]));
        assert(v[i as int] == l@[i as int]@);
        let x = rewrite_cte_expr(&l[i], replacements, depth)?;
        let ghost before = ParsedExpr::views(out@);
        out.push(x);
        assert(ParsedExpr::views(out@) =~= before.push(x@));
    }
    Ok(out)
}

/// Does the same to an expression that may be absent.
fn rewrite_cte_expr_option(
    e: &Option<Box<ParsedExpr>>,
    replacements: &Vec<Replacement>,
    depth: usize,
) -> (r: Result<Option<Box<ParsedExpr>>>)
    requires
        depth < 64,
    ensures
        (match r {
            Ok(x) => Ok(option_view(x)),
            Err(x) => Err(x@),
        }) == rewritten_expr_option(option_view(*e), Replacement::views(replacements@), depth),
    decreases e, 0int,
{
    match e {
        None => Ok(None),
        Some(e) => {
            let b = rewrite_cte_expr(e, replacements, depth)?;
            Ok(Some(Box::new(b)))
        },
    }
}

/// A window call whose subqueries refer to replacements.
pub open spec fn rewritten_call(c: ParsedWindowCallView, replacements: Seq<ReplacementView>, depth: usize) -> Checked<ParsedWindowCallView>
    decreases c, 0int,
{
    match rewritten_expr_option(c.filter, replacements, depth) {
        Err(x) => Err(x),
        Ok(filter) => match rewritten_expr_all(c.arguments, replacements, depth, 0, Seq::empty()) {
            Err(x) => Err(x),
            Ok(arguments) => Ok(ParsedWindowCallView { filter, arguments, ..c }),
        },
    }
}

fn rewrite_cte_call(c: &ParsedWindowCall, replacements: &Vec<Replacement>, depth: usize) -> (r: Result<ParsedWindowCall>)
    requires
        depth < 64,
    ensures
        (match r {
            Ok(x) => Ok(x@),
            Err(x) => Err(x@),
        }) == rewritten_call(c@, Replacement::views(replacements@), depth),
    decreases c, 0int,
{
    proof {
        c.unfold();
    }
    let filter = rewrite_cte_expr_option(&c.filter, replacements, depth)?;
    let arguments = rewrite_cte_expr_all(&c.arguments, replacements, depth)?;
    let r = ParsedWindowCall { function: c.function, arguments, count_star: c.count_star, filter };
    proof {
        r.unfold();
    }
    Ok(r)
}

/// A window whose subqueries refer to replacements.
pub open spec fn rewritten_spec(s: ParsedWindowSpecView, replacements: Seq<ReplacementView>, depth: usize) -> Checked<ParsedWindowSpecView>
    decreases s, 0int,
{
    match rewritten_orders(s.order_by, replacements, depth, 0, Seq::empty()) {
        Err(x) => Err(x),
        Ok(order_by) => match rewritten_expr_all(s.partition_by, replacements, depth, 0, Seq::empty()) {
            Err(x) => Err(x),
            Ok(partition_by) => Ok(ParsedWindowSpecView { order_by, partition_by, ..s }),
        },
    }
}

fn rewrite_cte_spec(s: &ParsedWindowSpec, replacements: &Vec<Replacement>, depth: usize) -> (r: Result<ParsedWindowSpec>)
    requires
        depth < 64,
    ensures
        (match r {
            Ok(x) => Ok(x@),
            Err(x) => Err(x@),
        }) == rewritten_spec(s@, Replacement::views(replacements@), depth),
    decreases s, 0int,
{
    proof {
        s.unfold();
    }
    let order_by = rewrite_cte_expr_orders(&s.order_by, replacements, depth)?;
    let partition_by = rewrite_cte_expr_all(&s.partition_by, replacements, depth)?;
    let r = ParsedWindowSpec { window_name: s.window_name.clone(), partition_by, order_by, frame: s.frame.clone() };
    proof {
        r.unfold();
    }
    Ok(r)
}

/// Each entry of a list whose subqueries refer to replacements, from a position on.
pub open spec fn rewritten_items(
    l: Seq<ParsedProjectionView>,
    replacements: Seq<ReplacementView>,
    depth: usize,
    i: int,
    done: Seq<ParsedProjectionView>,
) -> Checked<Seq<ParsedProjectionView>>
    decreases l, l.len() - i,
{
    if i < 0 || i >= l.len() {
        Ok(done)
    } else {
        match l[i] {
            ParsedProjectionView::Wildcard => rewritten_items(l, replacements, depth, i + 1, done.push(l[i])),
            ParsedProjectionView::Expression { expr, alias } => match rewritten_expr(expr, replacements, depth) {
                Err(x) => Err(x),
                Ok(e) => rewritten_items(l, replacements, depth, i + 1, done.push(ParsedProjectionView::Expression { expr: e, alias })),
            },
        }
    }
}

/// Does the same to each entry of a list.
pub fn rewrite_cte_expr_items(
    l: &Vec<ParsedProjection>,
    replacements: &Vec<Replacement>,
    depth: usize,
) -> (r: Result<Vec<ParsedProjection>>)
    requires
        depth < 64,
    ensures
        (match r {
            Ok(x) => Ok(ParsedProjection::views(x@)),
            Err(x) => Err(x@),
        }) == rewritten_items(ParsedProjection::views(l@), Replacement::views(replacements@), depth, 0, Seq::empty()),
    decreases l, 0int,
{
    let ghost v = ParsedProjection::views(l@);
    let mut out: Vec<ParsedProjection> = Vec::new();
    assert(ParsedProjection::views(out@) =~= Seq::empty());
    for i in 0..l.len()
        invariant
            v == ParsedProjection::views(l@),
            depth < 64,
            rewritten_items(v, Replacement::views(replacements@), depth, 0, Seq::empty()) == rewritten_items(
                v,
                Replacement::views(replacements@),
                depth,
                i as int,
                ParsedProjection::views(out@),
            ),
    {
        assert(decreases_to!(l => l@[i as int]));
        assert(v[i as int] == l@[i as int]@);
        proof {
            l@[i as int].unfold();
        }
        let x = match &l[i] {
            ParsedProjection::Wildcard => ParsedProjection::Wildcard,
            ParsedProjection::Expression { expr, alias } => {
                let e = rewrite_cte_expr(expr, replacements, depth)?;
                ParsedProjection::Expression { expr: e, alias: alias.clone() }
            },
        };
        proof {
            x.unfold();
        }
        let ghost before = ParsedProjection::views(out@);
        out.push(x);
        assert(ParsedProjection::views(out@) =~= before.push(x@));
    }
    Ok(out)
}

/// Each entry of a list whose subqueries refer to replacements, from a position on.
pub open spec fn rewritten_orders(
    l: Seq<ParsedOrderView>,
    replacements: Seq<ReplacementView>,
    depth: usize,
    i: int,
    done: Seq<ParsedOrderView>,
) -> Checked<Seq<ParsedOrderView>>
    decreases l, l.len() - i,
{
    if i < 0 || i >= l.len() {
        Ok(done)
    } else {
        match rewritten_expr(l[i].expr, replacements, depth) {
            Err(x) => Err(x),
            Ok(e) => rewritten_orders(l, replacements, depth, i + 1, done.push(ParsedOrderView { expr: e, ..l[i] })),
        }
    }
}

/// Does the same to each entry of a list.
pub fn rewrite_cte_expr_orders(l: &Vec<ParsedOrder>, replacements: &Vec<Replacement>, depth: usize) -> (r: Result<Vec<ParsedOrder>>)
    requires
        depth < 64,
    ensures
        (match r {
            Ok(x) => Ok(ParsedOrder::views(x@)),
            Err(x) => Err(x@),
        }) == rewritten_orders(ParsedOrder::views(l@), Replacement::views(replacements@), depth, 0, Seq::empty()),
    decreases l, 0int,
{
    let ghost v = ParsedOrder::views(l@);
    let mut out: Vec<ParsedOrder> = Vec::new();
    assert(ParsedOrder::views(out@) =~= Seq::empty());
    for i in 0..l.len()
        invariant
            v == ParsedOrder::views(l@),
            depth < 64,
            rewritten_orders(v, Replacement::views(replacements@), depth, 0, Seq::empty()) == rewritten_orders(
                v,
                Replacement::views(replacements@),
                depth,
                i as int,
                ParsedOrder::views(out@),
            ),
    {
        assert(decreases_to!(l => l@[i as int]));
        assert(v[i as int] == l@[i as int]@);
        proof {
            l@[i as int].unfold();
        }
        let e = rewrite_cte_expr(&l[i].expr, replacements, depth)?;
        let x = ParsedOrder { expr: e, ascending: l[i].ascending, nulls_first: l[i].nulls_first };
        proof {
            x.unfold();
        }
        let ghost before = ParsedOrder::views(out@);
        out.push(x);
        assert(ParsedOrder::views(out@) =~= before.push(x@));
    }
    Ok(out)
}

/// An expression that may be absent whose subqueries refer to replacements.
pub open spec fn rewritten_some(
    e: Option<ParsedExprView>,
    replacements: Seq<ReplacementView>,
    depth: usize,
) -> Checked<Option<ParsedExprView>>
    decreases e, 0int,
{
    match e {
        None => Ok(None),
        Some(e) => match rewritten_expr(e, replacements, depth) {
            Err(x) => Err(x),
            Ok(e) => Ok(Some(e)),
        },
    }
}

fn rewrite_cte_optional_expr(e: &Option<ParsedExpr>, replacements: &Vec<Replacement>, depth: usize) -> (r: Result<Option<ParsedExpr>>)
    requires
        depth < 64,
    ensures
        (match r {
            Ok(x) => Ok(some_view(x)),
            Err(x) => Err(x@),
        }) == rewritten_some(some_view(*e), Replacement::views(replacements@), depth),
    decreases e, 0int,
{
    match e {
        None => Ok(None),
        Some(e) => {
            let e = rewrite_cte_expr(e, replacements, depth)?;
            Ok(Some(e))
        },
    }
}

/// A source of a FROM clause that refers to replacements.
pub open spec fn rewritten_source(
    s: ParsedJoinSourceView,
    replacements: Seq<ReplacementView>,
    depth: usize,
) -> Checked<ParsedJoinSourceView>
    decreases s, 0int,
{
    match s {
        ParsedJoinSourceView::Table(t) => Ok(
            ParsedJoinSourceView::Table(ParsedTableView { name: rewritten_name(t.name, replacements), ..t }),
        ),
        ParsedJoinSourceView::Derived { lateral, query, alias, columns } => match rewritten(*query, replacements, (depth + 1) as usize) {
            Err(x) => Err(x),
            Ok(q) => Ok(ParsedJoinSourceView::Derived { lateral, query: Box::new(q), alias, columns }),
        },
    }
}

fn rewrite_cte_source(s: &ParsedJoinSource, replacements: &Vec<Replacement>, depth: usize) -> (r: Result<ParsedJoinSource>)
    requires
        depth < 64,
    ensures
        (match r {
            Ok(x) => Ok(x@),
            Err(x) => Err(x@),
        }) == rewritten_source(s@, Replacement::views(replacements@), depth),
    decreases s, 0int,
{
    proof {
        s.unfold();
    }
    let r = match s {
        ParsedJoinSource::Table(t) => ParsedJoinSource::Table(
            ParsedTable { name: rewrite_cte_table(&t.name, replacements), alias: t.alias.clone() },
        ),
        ParsedJoinSource::Derived { lateral, query, alias, columns } => {
            let q = rewrite_cte_references(query, replacements, depth + 1)?;
            ParsedJoinSource::Derived {
                lateral: *lateral,
                query: Box::new(q),
                alias: alias.clone(),
                columns: crate::syntax::ParsedIdentifier::clone_all(columns),
            }
        },
    };
    proof {
        r.unfold();
    }
    Ok(r)
}

/// A join that refers to replacements.
pub open spec fn rewritten_join(j: ParsedJoinView, replacements: Seq<ReplacementView>, depth: usize) -> Checked<ParsedJoinView>
    decreases j, 0int,
{
    match rewritten_source(j.source, replacements, depth) {
        Err(x) => Err(x),
        Ok(source) => match rewritten_expr(j.on, replacements, depth) {
            Err(x) => Err(x),
            Ok(on) => Ok(ParsedJoinView { source, on, ..j }),
        },
    }
}

fn rewrite_cte_join(j: &ParsedJoin, replacements: &Vec<Replacement>, depth: usize) -> (r: Result<ParsedJoin>)
    requires
        depth < 64,
    ensures
        (match r {
            Ok(x) => Ok(x@),
            Err(x) => Err(x@),
        }) == rewritten_join(j@, Replacement::views(replacements@), depth),
    decreases j, 0int,
{
    proof {
        j.unfold();
    }
    let source = rewrite_cte_source(&j.source, replacements, depth)?;
    let on = rewrite_cte_expr(&j.on, replacements, depth)?;
    let r = ParsedJoin { source, kind: j.kind, on };
    proof {
        r.unfold();
    }
    Ok(r)
}

/// Joins that refer to replacements, from a position on.
pub open spec fn rewritten_joins(
    l: Seq<ParsedJoinView>,
    replacements: Seq<ReplacementView>,
    depth: usize,
    i: int,
    done: Seq<ParsedJoinView>,
) -> Checked<Seq<ParsedJoinView>>
    decreases l, l.len() - i,
{
    if i < 0 || i >= l.len() {
        Ok(done)
    } else {
        match rewritten_join(l[i], replacements, depth) {
            Err(x) => Err(x),
            Ok(b) => rewritten_joins(l, replacements, depth, i + 1, done.push(b)),
        }
    }
}

fn rewrite_cte_joins(l: &Vec<ParsedJoin>, replacements: &Vec<Replacement>, depth: usize) -> (r: Result<Vec<ParsedJoin>>)
    requires
        depth < 64,
    ensures
        (match r {
            Ok(l) => Ok(ParsedJoin::views(l@)),
            Err(e) => Err(e@),
        }) == rewritten_joins(ParsedJoin::views(l@), Replacement::views(replacements@), depth, 0, Seq::empty()),
    decreases l, 0int,
{
    let ghost v = ParsedJoin::views(l@);
    let mut out: Vec<ParsedJoin> = Vec::new();
    assert(ParsedJoin::views(out@) =~= Seq::empty());
    for i in 0..l.len()
        invariant
            v == ParsedJoin::views(l@),
            depth < 64,
            rewritten_joins(v, Replacement::views(replacements@), depth, 0, Seq::empty()) == rewritten_joins(
                v,
                Replacement::views(replacements@),
                depth,
                i as int,
                ParsedJoin::views(out@),
            ),
    {
        assert(decreases_to!(l => l@[i as int]));
        assert(v[i as int] == l@[i as int]@);
        let x = rewrite_cte_join(&l[i], replacements, depth)?;
        let ghost before = ParsedJoin::views(out@);
        out.push(x);
        assert(ParsedJoin::views(out@) =~= before.push(x@));
    }
    Ok(out)
}

/// A WITH query that refers to replacements.
pub open spec fn rewritten_cte(c: ParsedCteView, replacements: Seq<ReplacementView>, depth: usize) -> Checked<ParsedCteView>
    decreases c, 0int,
{
    match rewritten(*c.query, replacements, (depth + 1) as usize) {
        Err(x) => Err(x),
        Ok(q) => Ok(ParsedCteView { query: Box::new(q), ..c }),
    }
}

fn rewrite_cte_query(c: &ParsedCte, replacements: &Vec<Replacement>, depth: usize) -> (r: Result<ParsedCte>)
    requires
        depth < 64,
    ensures
        (match r {
            Ok(x) => Ok(x@),
            Err(x) => Err(x@),
        }) == rewritten_cte(c@, Replacement::views(replacements@), depth),
    decreases c, 0int,
{
    proof {
        c.unfold();
    }
    let q = rewrite_cte_references(&c.query, replacements, depth + 1)?;
    let r = ParsedCte {
        name: c.name.clone(),
        columns: crate::syntax::ParsedIdentifier::clone_all(&c.columns),
        query: Box::new(q),
    };
    proof {
        r.unfold();
    }
    Ok(r)
}

/// WITH queries that refer to replacements, from a position on.
pub open spec fn rewritten_ctes(
    l: Seq<ParsedCteView>,
    replacements: Seq<ReplacementView>,
    depth: usize,
    i: int,
    done: Seq<ParsedCteView>,
) -> Checked<Seq<ParsedCteView>>
    decreases l, l.len() - i,
{
    if i < 0 || i >= l.len() {
        Ok(done)
    } else {
        match rewritten_cte(l[i], replacements, depth) {
            Err(x) => Err(x),
            Ok(b) => rewritten_ctes(l, replacements, depth, i + 1, done.push(b)),
        }
    }
}

fn rewrite_cte_queries(l: &Vec<ParsedCte>, replacements: &Vec<Replacement>, depth: usize) -> (r: Result<Vec<ParsedCte>>)
    requires
        depth < 64,
    ensures
        (match r {
            Ok(l) => Ok(ParsedCte::views(l@)),
            Err(e) => Err(e@),
        }) == rewritten_ctes(ParsedCte::views(l@), Replacement::views(replacements@), depth, 0, Seq::empty()),
    decreases l, 0int,
{
    let ghost v = ParsedCte::views(l@);
    let mut out: Vec<ParsedCte> = Vec::new();
    assert(ParsedCte::views(out@) =~= Seq::empty());
    for i in 0..l.len()
        invariant
            v == ParsedCte::views(l@),
            depth < 64,
            rewritten_ctes(v, Replacement::views(replacements@), depth, 0, Seq::empty()) == rewritten_ctes(
                v,
                Replacement::views(replacements@),
                depth,
                i as int,
                ParsedCte::views(out@),
            ),
    {
        assert(decreases_to!(l => l@[i as int]));
        assert(v[i as int] == l@[i as int]@);
        let x = rewrite_cte_query(&l[i], replacements, depth)?;
        let ghost before = ParsedCte::views(out@);
        out.push(x);
        assert(ParsedCte::views(out@) =~= before.push(x@));
    }
    Ok(out)
}

/// A query that refers to replacements. Queries nested deeper than the rewriting
/// goes are refused.
pub open spec fn rewritten(s: ParsedStatementView, replacements: Seq<ReplacementView>, depth: usize) -> Checked<ParsedStatementView>
    decreases s, 0int,
{
    if depth >= 64 {
        Err(error("54001"@, "CTE scope nesting exceeds the maximum depth of 64"@))
    } else {
        match s {
            ParsedStatementView::Select { table, projection, filter, order_by, offset, limit } => match rewritten_items(
                projection,
                replacements,
                depth,
                0,
                Seq::empty(),
            ) {
                Err(x) => Err(x),
                Ok(projection) => match rewritten_some(filter, replacements, depth) {
                    Err(x) => Err(x),
                    Ok(filter) => match rewritten_orders(order_by, replacements, depth, 0, Seq::empty()) {
                        Err(x) => Err(x),
                        Ok(order_by) => match rewritten_some(offset, replacements, depth) {
                            Err(x) => Err(x),
                            Ok(offset) => match rewritten_some(limit, replacements, depth) {
                                Err(x) => Err(x),
                                Ok(limit) => Ok(
                                    ParsedStatementView::Select {
                                        table: rewritten_name(table, replacements),
                                        projection,
                                        filter,
                                        order_by,
                                        offset,
                                        limit,
                                    },
                                ),
                            },
                        },
                    },
                },
            },
            ParsedStatementView::AdvancedSelect {
                table,
                joins,
                projection,
                distinct,
                filter,
                group_by,
                having,
                order_by,
                offset,
                limit,
            } => match rewritten_joins(joins, replacements, depth, 0, Seq::empty()) {
                Err(x) => Err(x),
                Ok(joins) => match rewritten_items(projection, replacements, depth, 0, Seq::empty()) {
                    Err(x) => Err(x),
                    Ok(projection) => match rewritten_some(filter, replacements, depth) {
                        Err(x) => Err(x),
                        Ok(filter) => match rewritten_expr_all(group_by, replacements, depth, 0, Seq::empty()) {
                            Err(x) => Err(x),
                            Ok(group_by) => match rewritten_some(having, replacements, depth) {
                                Err(x) => Err(x),
                                Ok(having) => match rewritten_orders(order_by, replacements, depth, 0, Seq::empty()) {
                                    Err(x) => Err(x),
                                    Ok(order_by) => match rewritten_some(offset, replacements, depth) {
                                        Err(x) => Err(x),
                                        Ok(offset) => match rewritten_some(limit, replacements, depth) {
                                            Err(x) => Err(x),
                                            Ok(limit) => Ok(
                                                ParsedStatementView::AdvancedSelect {
                                                    table: ParsedTableView { name: rewritten_name(table.name, replacements), ..table },
                                                    joins,
                                                    projection,
                                                    distinct,
                                                    filter,
                                                    group_by,
                                                    having,
                                                    order_by,
                                                    offset,
                                                    limit,
                                                },
                                            ),
                                        },
                                    },
                                },
                            },
                        },
                    },
                },
            },
            ParsedStatementView::SetOperation { left, operator, all, right, order_by, offset, limit } => match rewritten(
                *left,
                replacements,
                (depth + 1) as usize,
            ) {
                Err(x) => Err(x),
                Ok(left) => match rewritten(*right, replacements, (depth + 1) as usize) {
                    Err(x) => Err(x),
                    Ok(right) => match rewritten_orders(order_by, replacements, depth, 0, Seq::empty()) {
                        Err(x) => Err(x),
                        Ok(order_by) => match rewritten_some(offset, replacements, depth) {
                            Err(x) => Err(x),
                            Ok(offset) => match rewritten_some(limit, replacements, depth) {
                                Err(x) => Err(x),
                                Ok(limit) => Ok(
                                    ParsedStatementView::SetOperation {
                                        left: Box::new(left),
                                        operator,
                                        all,
                                        right: Box::new(right),
                                        order_by,
                                        offset,
                                        limit,
                                    },
                                ),
                            },
                        },
                    },
                },
            },
            ParsedStatementView::With { recursive, ctes, body } => {
                let outer = visible(replacements, ctes, 0, Seq::empty());
                match rewritten_ctes(ctes, outer, depth, 0, Seq::empty()) {
                    Err(x) => Err(x),
                    Ok(ctes) => match rewritten(*body, outer, (depth + 1) as usize) {
                        Err(x) => Err(x),
                        Ok(body) => Ok(ParsedStatementView::With { recursive, ctes, body: Box::new(body) }),
                    },
                }
            },
            ParsedStatementView::Explain { statement } => match rewritten(*statement, replacements, (depth + 1) as usize) {
                Err(x) => Err(x),
                Ok(q) => Ok(ParsedStatementView::Explain { statement: Box::new(q) }),
            },
            _ => Ok(s),
        }
    }
}

/// The contents of a statement or of an error.
pub open spec fn statement_result(r: Result<ParsedStatement>) -> Checked<ParsedStatementView> {
    match r {
        Ok(s) => Ok(s@),
        Err(e) => Err(e@),
    }
}

/// Builds a statement.
pub fn make_statement(s: ParsedStatement) -> (r: ParsedStatement)
    ensures
        r == s,
        r@ == s.shape(),
{
    proof {
        s.unfold();
    }
    s
}

fn rewrite_select(statement: &ParsedStatement, replacements: &Vec<Replacement>, depth: usize) -> (r: Result<ParsedStatement>)
    requires
        depth < 64,
        statement is Select,
    ensures
        statement_result(r) == rewritten(statement@, Replacement::views(replacements@), depth),
    decreases statement, 0int,
{
    proof {
        statement.unfold();
    }
    match statement {
        ParsedStatement::Select { table, projection, filter, order_by, offset, limit } => {
            let projection = rewrite_cte_expr_items(projection, replacements, depth)?;
            let filter = rewrite_cte_optional_expr(filter, replacements, depth)?;
            let order_by = rewrite_cte_expr_orders(order_by, replacements, depth)?;
            let offset = rewrite_cte_optional_expr(offset, replacements, depth)?;
            let limit = rewrite_cte_optional_expr(limit, replacements, depth)?;
            Ok(
                make_statement(
                    ParsedStatement::Select {
                        table: rewrite_cte_table(table, replacements),
                        projection,
                        filter,
                        order_by,
                        offset,
                        limit,
                    },
                ),
            )
        },
        _ => Ok(statement.clone()),
    }
}

#[verifier::rlimit(40)]
fn rewrite_advanced_select(statement: &ParsedStatement, replacements: &Vec<Replacement>, depth: usize) -> (r: Result<ParsedStatement>)
    requires
        depth < 64,
        statement is AdvancedSelect,
    ensures
        statement_result(r) == rewritten(statement@, Replacement::views(replacements@), depth),
    decreases statement, 0int,
{
    proof {
        statement.unfold();
    }
    match statement {
        ParsedStatement::AdvancedSelect { table, joins, projection, distinct, filter, group_by, having, order_by, offset, limit } => {
            let joins = rewrite_cte_joins(joins, replacements, depth)?;
            let projection = rewrite_cte_expr_items(projection, replacements, depth)?;
            let filter = rewrite_cte_optional_expr(filter, replacements, depth)?;
            let group_by = rewrite_cte_expr_all(group_by, replacements, depth)?;
            let having = rewrite_cte_optional_expr(having, replacements, depth)?;
            let order_by = rewrite_cte_expr_orders(order_by, replacements, depth)?;
            let offset = rewrite_cte_optional_expr(offset, replacements, depth)?;
            let limit = rewrite_cte_optional_expr(limit, replacements, depth)?;
            Ok(
                make_statement(
                    ParsedStatement::AdvancedSelect {
                        table: ParsedTable { name: rewrite_cte_table(&table.name, replacements), alias: table.alias.clone() },
                        joins,
                        projection,
                        distinct: *distinct,
                        filter,
                        group_by,
                        having,
                        order_by,
                        offset,
                        limit,
                    },
                ),
            )
        },
        _ => Ok(statement.clone()),
    }
}

/// Rewrites the references of a query to WITH queries.
pub fn rewrite_cte_references(statement: &ParsedStatement, replacements: &Vec<Replacement>, depth: usize) -> (r: Result<ParsedStatement>)
    ensures
        statement_result(r) == rewritten(statement@, Replacement::views(replacements@), depth),
    decreases statement, 1int,
{
    if depth >= 64 {
        return Err(DbError::new("54001", text("CTE scope nesting exceeds the maximum depth of 64")));
    }
    proof {
        statement.unfold();
    }
    match statement {
        ParsedStatement::Select { .. } => rewrite_select(statement, replacements, depth),
        ParsedStatement::AdvancedSelect { .. } => rewrite_advanced_select(statement, replacements, depth),
        ParsedStatement::SetOperation { left, operator, all, right, order_by, offset, limit } => {
            let left = rewrite_cte_references(left, replacements, depth + 1)?;
            let right = rewrite_cte_references(right, replacements, depth + 1)?;
            let order_by = rewrite_cte_expr_orders(order_by, replacements, depth)?;
            let offset = rewrite_cte_optional_expr(offset, replacements, depth)?;
            let limit = rewrite_cte_optional_expr(limit, replacements, depth)?;
            Ok(
                make_statement(
                    ParsedStatement::SetOperation {
                        left: Box::new(left),
                        operator: *operator,
                        all: *all,
                        right: Box::new(right),
                        order_by,
                        offset,
                        limit,
                    },
                ),
            )
        },
        ParsedStatement::With { recursive, ctes, body } => {
            let outer = visible_replacements(replacements, ctes);
            let ctes = rewrite_cte_queries(ctes, &outer, depth)?;
            let body = rewrite_cte_references(body, &outer, depth + 1)?;
            Ok(make_statement(ParsedStatement::With { recursive: *recursive, ctes, body: Box::new(body) }))
        },
        ParsedStatement::Explain { statement } => {
            let q = rewrite_cte_references(statement, replacements, depth + 1)?;
            Ok(make_statement(ParsedStatement::Explain { statement: Box::new(q) }))
        },
        _ => Ok(statement.clone()),
    }
}

} // verus!
