//! Windows that are defined by name.

use vstd::prelude::*;

use crate::binding::{make_expr, option_view, some_view};
use crate::scope::Checked;
use crate::syntax::{
    ParsedExpr, ParsedExprKind, ParsedExprKindView, ParsedExprView, ParsedIdentifier, ParsedIdentifierView, ParsedOrder, ParsedOrderView,
    ParsedProjection, ParsedProjectionView, ParsedWindowSpec, ParsedWindowSpecView,
};
use crate::text::{copy_items, text2, text3};
use crate::types::{error_at, DbError, DbErrorView, Identifier, Result};

verus! {

/// A window with the name that it is defined by.
pub struct WindowDefinition {
    pub name: ParsedIdentifier,
    pub spec: ParsedWindowSpec,
}

/// Mathematical contents of a [`WindowDefinition`].
pub struct WindowDefinitionView {
    pub name: ParsedIdentifierView,
    pub spec: ParsedWindowSpecView,
}

impl WindowDefinition {
    /// The value as mathematical data.
    pub open spec fn view(&self) -> WindowDefinitionView {
        WindowDefinitionView { name: self.name@, spec: self.spec@ }
    }

    /// The contents of each value of a sequence.
    pub open spec fn views(l: Seq<WindowDefinition>) -> Seq<WindowDefinitionView> {
        Seq::new(l.len(), |i: int| l[i]@)
    }
}

/// The place of a window of a name, from a position on.
pub open spec fn window_place(l: Seq<WindowDefinitionView>, name: Seq<char>, i: int) -> Option<usize>
    decreases l.len() - i,
{
    if i < 0 || i >= l.len() {
        None
    } else if l[i].name.name == name {
        Some(i as usize)
    } else {
        window_place(l, name, i + 1)
    }
}

/// Finds a window by its name.
pub fn find_window_place(l: &Vec<WindowDefinition>, name: &Identifier, from: usize) -> (r: Option<usize>)
    ensures
        r == window_place(WindowDefinition::views(l@), name@, from as int),
        r matches Some(k) ==> from <= k < l.len(),
{
    let ghost v = WindowDefinition::views(l@);
    let mut i: usize = from;
    while i < l.len()
        invariant
            from <= i,
            v == WindowDefinition::views(l@),
            window_place(v, name@, from as int) == window_place(v, name@, i as int),
        decreases l.len() - i,
    {
        assert(v[i as int] == l@[i as int]@);
        if l[i].name.name.same(name) {
            return Some(i);
        }
        i += 1;
    }
    None
}

/// The error of a window that is not defined.
pub open spec fn no_window(name: ParsedIdentifierView) -> DbErrorView {
    error_at("42704"@, "window "@ + name.name + " does not exist"@, name.position)
}

fn no_such_window(name: &ParsedIdentifier) -> (r: DbError)
    ensures
        r@ == no_window(name@),
{
    DbError::at("42704", text3("window ", name.name.as_str(), " does not exist"), name.position)
}

/// The window of a name.
#[verifier::opaque]
pub open spec fn window_named(name: ParsedIdentifierView, windows: Seq<WindowDefinitionView>) -> Checked<ParsedWindowSpecView> {
    match window_place(windows, name.name, 0) {
        None => Err(no_window(name)),
        Some(k) => Ok(windows[k as int].spec),
    }
}

/// The contents of a result with a window.
pub open spec fn spec_result(r: Result<ParsedWindowSpec>) -> Checked<ParsedWindowSpecView> {
    match r {
        Ok(w) => Ok(w@),
        Err(e) => Err(e@),
    }
}

/// Finds the window of a name.
pub fn find_window(name: &ParsedIdentifier, windows: &Vec<WindowDefinition>) -> (r: Result<ParsedWindowSpec>)
    ensures
        spec_result(r) == window_named(name@, WindowDefinition::views(windows@)),
{
    reveal(window_named);
    match find_window_place(windows, &name.name, 0) {
        None => Err(no_such_window(name)),
        Some(k) => {
            assert(WindowDefinition::views(windows@)[k as int] == windows@[k as int]@);
            Ok(windows[k].spec.clone())
        },
    }
}

/// A window that stands on its own: where it extends a window of a name, it takes over
/// what that window says. It may add an order and a frame, but change nothing.
#[verifier::opaque]
pub open spec fn inherited(spec: ParsedWindowSpecView, windows: Seq<WindowDefinitionView>) -> Checked<ParsedWindowSpecView> {
    match spec.window_name {
        None => Ok(spec),
        Some(name) => match window_named(name, windows) {
            Err(x) => Err(x),
            Ok(base) => if spec.partition_by.len() > 0 {
                Err(error_at("42P20"@, "cannot override PARTITION BY clause of window "@ + name.name, name.position))
            } else if spec.order_by.len() > 0 && base.order_by.len() > 0 {
                Err(error_at("42P20"@, "cannot override ORDER BY clause of window "@ + name.name, name.position))
            } else if base.frame is Some {
                Err(error_at("42P20"@, "cannot copy window "@ + name.name + " because it has a frame clause"@, name.position))
            } else {
                Ok(
                    ParsedWindowSpecView {
                        window_name: None,
                        partition_by: base.partition_by,
                        order_by: if spec.order_by.len() > 0 {
                            spec.order_by
                        } else {
                            base.order_by
                        },
                        frame: spec.frame,
                    },
                )
            },
        },
    }
}

/// Makes a window stand on its own.
pub fn inherit_window(spec: &ParsedWindowSpec, windows: &Vec<WindowDefinition>) -> (r: Result<ParsedWindowSpec>)
    ensures
        spec_result(r) == inherited(spec@, WindowDefinition::views(windows@)),
{
    reveal(inherited);
    proof {
        spec.unfold();
    }
    let name = match &spec.window_name {
        None => {
            return Ok(spec.clone());
        },
        Some(name) => name,
    };
    let base = find_window(name, windows)?;
    proof {
        base.unfold();
    }
    let ghost b = base@;
    if spec.partition_by.len() > 0 {
        return Err(DbError::at("42P20", text2("cannot override PARTITION BY clause of window ", name.name.as_str()), name.position));
    }
    if spec.order_by.len() > 0 && base.order_by.len() > 0 {
        return Err(DbError::at("42P20", text2("cannot override ORDER BY clause of window ", name.name.as_str()), name.position));
    }
    if base.frame.is_some() {
        return Err(
            DbError::at("42P20", text3("cannot copy window ", name.name.as_str(), " because it has a frame clause"), name.position),
        );
    }
    let order_by = if spec.order_by.len() > 0 {
        ParsedOrder::clone_all(&spec.order_by)
    } else {
        base.order_by
    };
    let r = ParsedWindowSpec { window_name: None, partition_by: base.partition_by, order_by, frame: spec.frame.clone() };
    proof {
        r.unfold();
    }
    Ok(r)
}

/// An expression whose windows stand on their own.
pub open spec fn named(e: ParsedExprView, windows: Seq<WindowDefinitionView>) -> Checked<ParsedExprView>
    decreases e, 0int,
{
    match e.kind {
        ParsedExprKindView::Unary { op, expr } => match named(*expr, windows) {
            Err(x) => Err(x),
            Ok(expr) => Ok(ParsedExprView { kind: ParsedExprKindView::Unary { op, expr: Box::new(expr) }, position: e.position }),
        },
        ParsedExprKindView::Cast { expr, data_type, declared_type } => match named(*expr, windows) {
            Err(x) => Err(x),
            Ok(expr) => Ok(
                ParsedExprView { kind: ParsedExprKindView::Cast { expr: Box::new(expr), data_type, declared_type }, position: e.position },
            ),
        },
        ParsedExprKindView::Array { elements, dimensions } => match named_all(elements, windows, 0, Seq::empty()) {
            Err(x) => Err(x),
            Ok(elements) => Ok(ParsedExprView { kind: ParsedExprKindView::Array { elements, dimensions }, position: e.position }),
        },
        ParsedExprKindView::Function { function, arguments } => match named_all(arguments, windows, 0, Seq::empty()) {
            Err(x) => Err(x),
            Ok(arguments) => Ok(ParsedExprView { kind: ParsedExprKindView::Function { function, arguments }, position: e.position }),
        },
        ParsedExprKindView::Binary { left, op, right } => match named(*left, windows) {
            Err(x) => Err(x),
            Ok(left) => match named(*right, windows) {
                Err(x) => Err(x),
                Ok(right) => Ok(
                    ParsedExprView {
                        kind: ParsedExprKindView::Binary { left: Box::new(left), op, right: Box::new(right) },
                        position: e.position,
                    },
                ),
            },
        },
        ParsedExprKindView::InList { expr, list, negated } => match named(*expr, windows) {
            Err(x) => Err(x),
            Ok(expr) => match named_all(list, windows, 0, Seq::empty()) {
                Err(x) => Err(x),
                Ok(list) => Ok(
                    ParsedExprView { kind: ParsedExprKindView::InList { expr: Box::new(expr), list, negated }, position: e.position },
                ),
            },
        },
        ParsedExprKindView::InSubquery { expr, subquery, negated } => match named(*expr, windows) {
            Err(x) => Err(x),
            Ok(expr) => Ok(
                ParsedExprView { kind: ParsedExprKindView::InSubquery { expr: Box::new(expr), subquery, negated }, position: e.position },
            ),
        },
        ParsedExprKindView::QuantifiedSubquery { left, op, quantifier, subquery } => match named(*left, windows) {
            Err(x) => Err(x),
            Ok(left) => Ok(
                ParsedExprView {
                    kind: ParsedExprKindView::QuantifiedSubquery { left: Box::new(left), op, quantifier, subquery },
                    position: e.position,
                },
            ),
        },
        ParsedExprKindView::RowSubquery { left, op, quantifier, negated, subquery } => match named_all(left, windows, 0, Seq::empty()) {
            Err(x) => Err(x),
            Ok(left) => Ok(
                ParsedExprView { kind: ParsedExprKindView::RowSubquery { left, op, quantifier, negated, subquery }, position: e.position },
            ),
        },
        ParsedExprKindView::Aggregate { function, argument, distinct, filter } => match named_option(argument, windows) {
            Err(x) => Err(x),
            Ok(argument) => match named_option(filter, windows) {
                Err(x) => Err(x),
                Ok(filter) => Ok(
                    ParsedExprView { kind: ParsedExprKindView::Aggregate { function, argument, distinct, filter }, position: e.position },
                ),
            },
        },
        ParsedExprKindView::Window { call, spec } => match inherited(*spec, windows) {
            Err(x) => Err(x),
            Ok(s) => Ok(ParsedExprView { kind: ParsedExprKindView::Window { call, spec: Box::new(s) }, position: e.position }),
        },
        ParsedExprKindView::NamedWindow { call, name } => match window_named(name, windows) {
            Err(x) => Err(x),
            Ok(s) => Ok(ParsedExprView { kind: ParsedExprKindView::Window { call, spec: Box::new(s) }, position: e.position }),
        },
        _ => Ok(e),
    }
}

/// The same of each expression of a list, from a position on.
pub open spec fn named_all(
    l: Seq<ParsedExprView>,
    windows: Seq<WindowDefinitionView>,
    i: int,
    done: Seq<ParsedExprView>,
) -> Checked<Seq<ParsedExprView>>
    decreases l, l.len() - i,
{
    if i < 0 || i >= l.len() {
        Ok(done)
    } else {
        match named(l[i], windows) {
            Err(x) => Err(x),
            Ok(b) => named_all(l, windows, i + 1, done.push(b)),
        }
    }
}

/// The same of an expression that may be absent.
pub open spec fn named_option(e: Option<Box<ParsedExprView>>, windows: Seq<WindowDefinitionView>) -> Checked<Option<Box<ParsedExprView>>>
    decreases e, 0int,
{
    match e {
        None => Ok(None),
        Some(e) => match named(*e, windows) {
            Err(x) => Err(x),
            Ok(b) => Ok(Some(Box::new(b))),
        },
    }
}

/// Makes the windows of an expression stand on their own.
pub fn resolve_named_window_expr(expr: &ParsedExpr, windows: &Vec<WindowDefinition>) -> (r: Result<ParsedExpr>)
    ensures
        (match r {
            Ok(x) => Ok(x@),
            Err(x) => Err(x@),
        }) == named(expr@, WindowDefinition::views(windows@)),
    decreases expr, 0int,
{
    proof {
        expr.unfold();
    }
    let position = expr.position;
    match &expr.kind {
        ParsedExprKind::Unary { op, expr } => {
            let expr = resolve_named_window_expr(expr, windows)?;
            Ok(make_expr(ParsedExprKind::Unary { op: *op, expr: Box::new(expr) }, position))
        },
        ParsedExprKind::Cast { expr, data_type, declared_type } => {
            let expr = resolve_named_window_expr(expr, windows)?;
            Ok(
                make_expr(
                    ParsedExprKind::Cast { expr: Box::new(expr), data_type: data_type.clone(), declared_type: declared_type.clone() },
                    position,
                ),
            )
        },
        ParsedExprKind::Array { elements, dimensions } => {
            let elements = resolve_named_window_expr_all(elements, windows)?;
            Ok(make_expr(ParsedExprKind::Array { elements, dimensions: copy_items(dimensions) }, position))
        },
        ParsedExprKind::Function { function, arguments } => {
            let arguments = resolve_named_window_expr_all(arguments, windows)?;
            Ok(make_expr(ParsedExprKind::Function { function: *function, arguments }, position))
        },
        ParsedExprKind::Binary { left, op, right } => {
            let left = resolve_named_window_expr(left, windows)?;
            let right = resolve_named_window_expr(right, windows)?;
            Ok(make_expr(ParsedExprKind::Binary { left: Box::new(left), op: *op, right: Box::new(right) }, position))
        },
        ParsedExprKind::InList { expr, list, negated } => {
            let expr = resolve_named_window_expr(expr, windows)?;
            let list = resolve_named_window_expr_all(list, windows)?;
            Ok(make_expr(ParsedExprKind::InList { expr: Box::new(expr), list, negated: *negated }, position))
        },
        ParsedExprKind::InSubquery { expr, subquery, negated } => {
            let expr = resolve_named_window_expr(expr, windows)?;
            Ok(
                make_expr(
                    ParsedExprKind::InSubquery { expr: Box::new(expr), subquery: Box::new((**subquery).clone()), negated: *negated },
                    position,
                ),
            )
        },
        ParsedExprKind::QuantifiedSubquery { left, op, quantifier, subquery } => {
            let left = resolve_named_window_expr(left, windows)?;
            Ok(
                make_expr(
                    ParsedExprKind::QuantifiedSubquery {
                        left: Box::new(left),
                        op: *op,
                        quantifier: *quantifier,
                        subquery: Box::new((**subquery).clone()),
                    },
                    position,
                ),
            )
        },
        ParsedExprKind::RowSubquery { left, op, quantifier, negated, subquery } => {
            let left = resolve_named_window_expr_all(left, windows)?;
            Ok(
                make_expr(
                    ParsedExprKind::RowSubquery {
                        left,
                        op: *op,
                        quantifier: *quantifier,
                        negated: *negated,
                        subquery: Box::new((**subquery).clone()),
                    },
                    position,
                ),
            )
        },
        ParsedExprKind::Aggregate { function, argument, distinct, filter } => {
            let argument = resolve_named_window_expr_option(argument, windows)?;
            let filter = resolve_named_window_expr_option(filter, windows)?;
            Ok(make_expr(ParsedExprKind::Aggregate { function: *function, argument, distinct: *distinct, filter }, position))
        },
        ParsedExprKind::Window { call, spec } => {
            let s = inherit_window(spec, windows)?;
            Ok(make_expr(ParsedExprKind::Window { call: Box::new((**call).clone()), spec: Box::new(s) }, position))
        },
        ParsedExprKind::NamedWindow { call, name } => {
            let s = find_window(name, windows)?;
            Ok(make_expr(ParsedExprKind::Window { call: Box::new((**call).clone()), spec: Box::new(s) }, position))
        },
        _ => Ok(expr.clone()),
    }
}

/// Does the same to each expression of a list.
pub fn resolve_named_window_expr_all(l: &Vec<ParsedExpr>, windows: &Vec<WindowDefinition>) -> (r: Result<Vec<ParsedExpr>>)
    ensures
        (match r {
            Ok(x) => Ok(ParsedExpr::views(x@)),
            Err(x) => Err(x@),
        }) == named_all(ParsedExpr::views(l@), WindowDefinition::views(windows@), 0, Seq::empty()),
    decreases l, 0int,
{
    let ghost v = ParsedExpr::views(l@);
    let mut out: Vec<ParsedExpr> = Vec::new();
    assert(ParsedExpr::views(out@) =~= Seq::empty());
    for i in 0..l.len()
        invariant
            v == ParsedExpr::views(l@),
            named_all(v, WindowDefinition::views(windows@), 0, Seq::empty()) == named_all(
                v,
                WindowDefinition::views(windows@),
                i as int,
                ParsedExpr::views(out@),
            ),
    {
        assert(decreases_to!(l => l@[i as int]));
        assert(v[i as int] == l@[i as int]@);
        let x = resolve_named_window_expr(&l[i], windows)?;
        let ghost before = ParsedExpr::views(out@);
        out.push(x);
        assert(ParsedExpr::views(out@) =~= before.push(x@));
    }
    Ok(out)
}

/// Does the same to an expression that may be absent.
fn resolve_named_window_expr_option(e: &Option<Box<ParsedExpr>>, windows: &Vec<WindowDefinition>) -> (r: Result<Option<Box<ParsedExpr>>>)
    ensures
        (match r {
            Ok(x) => Ok(option_view(x)),
            Err(x) => Err(x@),
        }) == named_option(option_view(*e), WindowDefinition::views(windows@)),
    decreases e, 0int,
{
    match e {
        None => Ok(None),
        Some(e) => {
            let b = resolve_named_window_expr(e, windows)?;
            Ok(Some(Box::new(b)))
        },
    }
}

/// An item of a select list whose windows stand on their own.
pub open spec fn named_item(p: ParsedProjectionView, windows: Seq<WindowDefinitionView>) -> Checked<ParsedProjectionView>
{
    match p {
        ParsedProjectionView::Wildcard => Ok(p),
        ParsedProjectionView::Expression { expr, alias } => match named(expr, windows) {
            Err(x) => Err(x),
            Ok(e) => Ok(ParsedProjectionView::Expression { expr: e, alias }),
        },
    }
}

/// The same of each entry of a list, from a position on.
pub open spec fn named_items(
    l: Seq<ParsedProjectionView>,
    windows: Seq<WindowDefinitionView>,
    i: int,
    done: Seq<ParsedProjectionView>,
) -> Checked<Seq<ParsedProjectionView>>
    decreases l.len() - i,
{
    if i < 0 || i >= l.len() {
        Ok(done)
    } else {
        match named_item(l[i], windows) {
            Err(x) => Err(x),
            Ok(b) => named_items(l, windows, i + 1, done.push(b)),
        }
    }
}

/// Does the same to each entry of a list.
pub fn resolve_named_window_expr_items(l: &Vec<ParsedProjection>, windows: &Vec<WindowDefinition>) -> (r: Result<Vec<ParsedProjection>>)
    ensures
        (match r {
            Ok(x) => Ok(ParsedProjection::views(x@)),
            Err(x) => Err(x@),
        }) == named_items(ParsedProjection::views(l@), WindowDefinition::views(windows@), 0, Seq::empty()),
{
    let ghost v = ParsedProjection::views(l@);
    let mut out: Vec<ParsedProjection> = Vec::new();
    assert(ParsedProjection::views(out@) =~= Seq::empty());
    for i in 0..l.len()
        invariant
            v == ParsedProjection::views(l@),
            named_items(v, WindowDefinition::views(windows@), 0, Seq::empty()) == named_items(
                v,
                WindowDefinition::views(windows@),
                i as int,
                ParsedProjection::views(out@),
            ),
    {
        assert(v[i as int] == l@[i as int]@);
        proof {
            l@[i as int].unfold();
        }
        let x = match &l[i] {
            ParsedProjection::Wildcard => ParsedProjection::Wildcard,
            ParsedProjection::Expression { expr, alias } => {
                let e = resolve_named_window_expr(expr, windows)?;
                ParsedProjection::Expression { expr: e, alias: alias.clone() }
            },
        };
        proof {
            x.unfold();
        }
        let ghost before = ParsedProjection::views(out@);
        out.push(x);
        assert(ParsedProjection::views(out@) =~= before.push(x@));
    }
    Ok(out)
}

/// A sort key whose windows stand on their own.
pub open spec fn named_order(p: ParsedOrderView, windows: Seq<WindowDefinitionView>) -> Checked<ParsedOrderView>
{
    match named(p.expr, windows) {
        Err(x) => Err(x),
        Ok(e) => Ok(ParsedOrderView { expr: e, ..p }),
    }
}

/// The same of each entry of a list, from a position on.
pub open spec fn named_orders(
    l: Seq<ParsedOrderView>,
    windows: Seq<WindowDefinitionView>,
    i: int,
    done: Seq<ParsedOrderView>,
) -> Checked<Seq<ParsedOrderView>>
    decreases l.len() - i,
{
    if i < 0 || i >= l.len() {
        Ok(done)
    } else {
        match named_order(l[i], windows) {
            Err(x) => Err(x),
            Ok(b) => named_orders(l, windows, i + 1, done.push(b)),
        }
    }
}

/// Does the same to each entry of a list.
pub fn resolve_named_window_expr_orders(l: &Vec<ParsedOrder>, windows: &Vec<WindowDefinition>) -> (r: Result<Vec<ParsedOrder>>)
    ensures
        (match r {
            Ok(x) => Ok(ParsedOrder::views(x@)),
            Err(x) => Err(x@),
        }) == named_orders(ParsedOrder::views(l@), WindowDefinition::views(windows@), 0, Seq::empty()),
{
    let ghost v = ParsedOrder::views(l@);
    let mut out: Vec<ParsedOrder> = Vec::new();
    assert(ParsedOrder::views(out@) =~= Seq::empty());
    for i in 0..l.len()
        invariant
            v == ParsedOrder::views(l@),
            named_orders(v, WindowDefinition::views(windows@), 0, Seq::empty()) == named_orders(
                v,
                WindowDefinition::views(windows@),
                i as int,
                ParsedOrder::views(out@),
            ),
    {
        assert(v[i as int] == l@[i as int]@);
        proof {
            l@[i as int].unfold();
        }
        let e = resolve_named_window_expr(&l[i].expr, windows)?;
        let x = ParsedOrder { expr: e, ascending: l[i].ascending, nulls_first: l[i].nulls_first };
        proof {
            x.unfold();
        }
        let ghost before = ParsedOrder::views(out@);
        out.push(x);
        assert(ParsedOrder::views(out@) =~= before.push(x@));
    }
    Ok(out)
}

/// An expression that may be absent whose windows stand on their own.
pub open spec fn named_some(e: Option<ParsedExprView>, windows: Seq<WindowDefinitionView>) -> Checked<Option<ParsedExprView>> {
    match e {
        None => Ok(None),
        Some(e) => match named(e, windows) {
            Err(x) => Err(x),
            Ok(e) => Ok(Some(e)),
        },
    }
}

/// Makes the windows of an expression that may be absent stand on their own.
pub fn resolve_named_window_some(e: &Option<ParsedExpr>, windows: &Vec<WindowDefinition>) -> (r: Result<Option<ParsedExpr>>)
    ensures
        (match r {
            Ok(x) => Ok(some_view(x)),
            Err(x) => Err(x@),
        }) == named_some(some_view(*e), WindowDefinition::views(windows@)),
{
    match e {
        None => Ok(None),
        Some(e) => {
            let e = resolve_named_window_expr(e, windows)?;
            Ok(Some(e))
        },
    }
}

/// Whether a window still names another one, outside the subqueries of an expression.
pub open spec fn names_window(e: ParsedExprView) -> bool
    decreases e, 0int,
{
    match e.kind {
        ParsedExprKindView::Unary { expr, .. } => names_window(*expr),
        ParsedExprKindView::Cast { expr, .. } => names_window(*expr),
        ParsedExprKindView::Array { elements, .. } => any_names_window(elements, 0),
        ParsedExprKindView::Function { arguments, .. } => any_names_window(arguments, 0),
        ParsedExprKindView::Binary { left, right, .. } => names_window(*left) || names_window(*right),
        ParsedExprKindView::InList { expr, list, .. } => names_window(*expr) || any_names_window(list, 0),
        ParsedExprKindView::InSubquery { expr, .. } => names_window(*expr),
        ParsedExprKindView::QuantifiedSubquery { left, .. } => names_window(*left),
        ParsedExprKindView::RowSubquery { left, .. } => any_names_window(left, 0),
        ParsedExprKindView::Aggregate { argument, filter, .. } => (argument is Some && names_window(*argument->0)) || (filter is Some
            && names_window(*filter->0)),
        ParsedExprKindView::Window { spec, .. } => spec.window_name is Some,
        ParsedExprKindView::NamedWindow { .. } => true,
        _ => false,
    }
}

/// The same of one of the expressions of a list, from a position on.
pub open spec fn any_names_window(l: Seq<ParsedExprView>, i: int) -> bool
    decreases l, l.len() - i,
{
    0 <= i < l.len() && (names_window(l[i]) || any_names_window(l, i + 1))
}

/// Whether each window stands on its own.
pub open spec fn stand_alone(windows: Seq<WindowDefinitionView>) -> bool {
    forall|k: int| 0 <= k < windows.len() ==> (#[trigger] windows[k]).spec.window_name is None
}

proof fn lemma_window_place(l: Seq<WindowDefinitionView>, name: Seq<char>, i: int)
    requires
        0 <= i,
        l.len() <= usize::MAX,
    ensures
        window_place(l, name, i) matches Some(k) ==> k < l.len(),
    decreases l.len() - i,
{
    if i < l.len() && l[i].name.name != name {
        lemma_window_place(l, name, i + 1);
    }
}

/// A window that extends one of windows that stand on their own stands on its own too.
pub proof fn lemma_inherited(spec: ParsedWindowSpecView, windows: Seq<WindowDefinitionView>)
    ensures
        inherited(spec, windows) matches Ok(s) ==> s.window_name is None,
{
    reveal(inherited);
}

/// Among windows that stand on their own, one that is named stands on its own.
pub proof fn lemma_window_named(name: ParsedIdentifierView, windows: Seq<WindowDefinitionView>)
    requires
        windows.len() <= usize::MAX,
        stand_alone(windows),
    ensures
        window_named(name, windows) matches Ok(s) ==> s.window_name is None,
{
    reveal(window_named);
    lemma_window_place(windows, name.name, 0);
}

/// Once the windows of an expression have been looked up, none of them names another.
pub proof fn lemma_named(e: ParsedExprView, windows: Seq<WindowDefinitionView>)
    requires
        windows.len() <= usize::MAX,
        stand_alone(windows),
    ensures
        named(e, windows) matches Ok(b) ==> !names_window(b),
    decreases e, 0int,
{
    match e.kind {
        ParsedExprKindView::Unary { expr, .. } => lemma_named(*expr, windows),
        ParsedExprKindView::Cast { expr, .. } => lemma_named(*expr, windows),
        ParsedExprKindView::Array { elements, .. } => lemma_named_all(elements, windows, 0, Seq::empty()),
        ParsedExprKindView::Function { arguments, .. } => lemma_named_all(arguments, windows, 0, Seq::empty()),
        ParsedExprKindView::Binary { left, right, .. } => {
            lemma_named(*left, windows);
            lemma_named(*right, windows);
        },
        ParsedExprKindView::InList { expr, list, .. } => {
            lemma_named(*expr, windows);
            lemma_named_all(list, windows, 0, Seq::empty());
        },
        ParsedExprKindView::InSubquery { expr, .. } => lemma_named(*expr, windows),
        ParsedExprKindView::QuantifiedSubquery { left, .. } => lemma_named(*left, windows),
        ParsedExprKindView::RowSubquery { left, .. } => lemma_named_all(left, windows, 0, Seq::empty()),
        ParsedExprKindView::Aggregate { argument, filter, .. } => {
            lemma_named_option(argument, windows);
            lemma_named_option(filter, windows);
        },
        ParsedExprKindView::Window { spec, .. } => lemma_inherited(*spec, windows),
        ParsedExprKindView::NamedWindow { name, .. } => lemma_window_named(name, windows),
        _ => {},
    }
}

proof fn lemma_none_names_window(l: Seq<ParsedExprView>, i: int)
    requires
        0 <= i,
        forall|k: int| 0 <= k < l.len() ==> !names_window(#[trigger] l[k]),
    ensures
        !any_names_window(l, i),
    decreases l.len() - i,
{
    if i < l.len() {
        lemma_none_names_window(l, i + 1);
    }
}

proof fn lemma_named_all(l: Seq<ParsedExprView>, windows: Seq<WindowDefinitionView>, i: int, done: Seq<ParsedExprView>)
    requires
        0 <= i,
        windows.len() <= usize::MAX,
        stand_alone(windows),
        forall|k: int| 0 <= k < done.len() ==> !names_window(#[trigger] done[k]),
    ensures
        named_all(l, windows, i, done) matches Ok(b) ==> !any_names_window(b, 0),
    decreases l, l.len() - i,
{
    if i >= l.len() {
        lemma_none_names_window(done, 0);
    } else {
        lemma_named(l[i], windows);
        if let Ok(b) = named(l[i], windows) {
            lemma_named_all(l, windows, i + 1, done.push(b));
        }
    }
}

proof fn lemma_named_option(e: Option<Box<ParsedExprView>>, windows: Seq<WindowDefinitionView>)
    requires
        windows.len() <= usize::MAX,
        stand_alone(windows),
    ensures
        named_option(e, windows) matches Ok(Some(b)) ==> !names_window(*b),
    decreases e, 0int,
{
    if let Some(e) = e {
        lemma_named(*e, windows);
    }
}

} // verus!
