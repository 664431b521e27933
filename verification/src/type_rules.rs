//! How parameters, named types and session values are settled in a statement.
//!
//! The rules call each other all around. Each stands with its outermost layer, and a
//! proof function equates the two: a proof unfolds one rule at one place, and the rules
//! that it calls stay whole.

use std::collections::BTreeMap;

use vstd::prelude::*;

use crate::catalog::{Catalog, CatalogView};
use crate::ddl::declared_type as declared;
use crate::scope::{parameter_views, Checked};
use crate::syntax::{
    ParsedAlterDomainOperationView, ParsedAlterTableOperationView, ParsedColumnView, ParsedConflictActionView, ParsedCteView,
    ParsedDefaultView, ParsedExprKindView, ParsedExprView, ParsedIdentifierView, ParsedJoinSourceView, ParsedJoinView,
    ParsedMergeActionView, ParsedMergeClauseView, ParsedMergeView, ParsedObjectNameView, ParsedOnConflictView, ParsedOrderView,
    ParsedProjectionView, ParsedSequenceOperationView, ParsedStatementView, ParsedTableConstraintView, ParsedWindowCallView,
    ParsedWindowFrameBoundView, ParsedWindowFrameView, ParsedWindowSpecView, ScalarFunction, SessionBindValues,
};
use crate::text::lower;
use crate::types::{error, error_at, ScalarType, ScalarTypeView, ValueView};

verus! {

/// Mathematical contents of [`SessionBindValues`].
pub struct SessionView {
    pub version: Seq<char>,
    pub current_database: Seq<char>,
    pub current_user: Seq<char>,
    pub session_user: Seq<char>,
    pub settings: Map<Seq<char>, Seq<char>>,
}

/// The contents of the values of a session.
pub open spec fn session_view(s: SessionBindValues) -> SessionView {
    SessionView {
        version: s.version@,
        current_database: s.current_database@,
        current_user: s.current_user@,
        session_user: s.session_user@,
        settings: s.settings@,
    }
}

/// What is known about the types and values in a statement.
#[derive(Clone, Copy)]
pub struct Resolver<'a> {
    pub parameters: &'a BTreeMap<usize, ScalarType>,
    pub catalog: Option<&'a Catalog>,
    pub session: Option<SessionBindValues<'a>>,
}

/// Mathematical contents of a [`Resolver`].
pub struct ResolverView {
    pub parameters: Map<usize, ScalarTypeView>,
    pub catalog: Option<CatalogView>,
    pub session: Option<SessionView>,
}

impl<'a> Resolver<'a> {
    /// The value as mathematical data.
    pub open spec fn view(&self) -> ResolverView {
        ResolverView {
            parameters: parameter_views(self.parameters@),
            catalog: match self.catalog {
                Some(c) => Some(c@),
                None => None,
            },
            session: match self.session {
                Some(s) => Some(session_view(s)),
                None => None,
            },
        }
    }
}

/// The type that a cast converts to.
pub open spec fn cast_target(
    written: ScalarTypeView,
    name: Option<ParsedObjectNameView>,
    catalog: Option<CatalogView>,
) -> Checked<ScalarTypeView> {
    match (name, catalog) {
        (Some(name), Some(catalog)) => match declared(written, name, catalog) {
            Err(x) => Err(x),
            Ok((t, _)) => Ok(t),
        },
        _ => Ok(written),
    }
}

/// A constant text.
pub open spec fn text_expr(v: Seq<char>, position: Option<usize>) -> ParsedExprView {
    ParsedExprView { kind: ParsedExprKindView::Literal(ValueView::Text(v)), position }
}

/// A call whose value the session may know.
pub open spec fn session_expr(
    function: ScalarFunction,
    arguments: Seq<ParsedExprView>,
    session: Option<SessionView>,
    position: Option<usize>,
) -> Checked<
    ParsedExprView,
> {
    let same = ParsedExprView { kind: ParsedExprKindView::Function { function, arguments }, position };
    match session {
        None => Ok(same),
        Some(s) => match function {
            ScalarFunction::Version => Ok(text_expr(s.version, position)),
            ScalarFunction::CurrentDatabase => Ok(text_expr(s.current_database, position)),
            ScalarFunction::CurrentUser => Ok(text_expr(s.current_user, position)),
            ScalarFunction::SessionUser => Ok(text_expr(s.session_user, position)),
            ScalarFunction::CurrentSetting => if arguments.len() > 0 && arguments[0].kind is Literal && arguments[0].kind->Literal_0 is Text {
                let name = lower(arguments[0].kind->Literal_0->Text_0);
                if s.settings.dom().contains(name) {
                    Ok(text_expr(s.settings[name], position))
                } else if arguments.len() > 1 && arguments[1].kind == ParsedExprKindView::Literal(ValueView::Boolean(true)) {
                    Ok(ParsedExprView { kind: ParsedExprKindView::Literal(ValueView::Null), position })
                } else {
                    Err(error_at("42704"@, "unrecognized configuration parameter "@ + name, position))
                }
            } else {
                Ok(same)
            },
            _ => Ok(same),
        },
    }
}

/// An expression with resolved types.
pub closed spec fn typed_expr(v: ParsedExprView, c: ResolverView, depth: usize) -> Checked<ParsedExprView>
    decreases v, 0int,
{
    match v.kind {
        ParsedExprKindView::Parameter(index) => if c.parameters.dom().contains(index) {
            Ok(
                ParsedExprView {
                    kind: ParsedExprKindView::ResolvedParameter { index, data_type: c.parameters[index] },
                    position: v.position,
                },
            )
        } else {
            Ok(v)
        },
        ParsedExprKindView::Cast { expr, data_type, declared_type } => match typed_expr(*expr, c, depth) {
            Err(x) => Err(x),
            Ok(expr) => match cast_target(data_type, declared_type, c.catalog) {
                Err(x) => Err(x),
                Ok(data_type) => Ok(
                    ParsedExprView {
                        kind: ParsedExprKindView::Cast { expr: Box::new(expr), data_type, declared_type },
                        position: v.position,
                    },
                ),
            },
        },
        ParsedExprKindView::Function { function, arguments } => match typed_expr_list(arguments, c, depth, 0, Seq::empty()) {
            Err(x) => Err(x),
            Ok(arguments) => session_expr(function, arguments, c.session, v.position),
        },
        ParsedExprKindView::Unary { op, expr } => match typed_expr(*expr, c, depth) {
            Err(x) => Err(x),
            Ok(expr) => Ok(ParsedExprView { kind: ParsedExprKindView::Unary { op, expr: Box::new(expr) }, position: v.position }),
        },
        ParsedExprKindView::Array { elements, dimensions } => match typed_expr_list(elements, c, depth, 0, Seq::empty()) {
            Err(x) => Err(x),
            Ok(elements) => Ok(ParsedExprView { kind: ParsedExprKindView::Array { elements, dimensions }, position: v.position }),
        },
        ParsedExprKindView::Binary { left, op, right } => match typed_expr(*left, c, depth) {
            Err(x) => Err(x),
            Ok(left) => match typed_expr(*right, c, depth) {
                Err(x) => Err(x),
                Ok(right) => Ok(
                    ParsedExprView {
                        kind: ParsedExprKindView::Binary { left: Box::new(left), op, right: Box::new(right) },
                        position: v.position,
                    },
                ),
            },
        },
        ParsedExprKindView::InList { expr, list, negated } => match typed_expr(*expr, c, depth) {
            Err(x) => Err(x),
            Ok(expr) => match typed_expr_list(list, c, depth, 0, Seq::empty()) {
                Err(x) => Err(x),
                Ok(list) => Ok(
                    ParsedExprView { kind: ParsedExprKindView::InList { expr: Box::new(expr), list, negated }, position: v.position },
                ),
            },
        },
        ParsedExprKindView::ScalarSubquery(f0) => match typed_statement(*f0, c, (depth + 1) as usize) {
            Err(x) => Err(x),
            Ok(f0) => Ok(ParsedExprView { kind: ParsedExprKindView::ScalarSubquery(Box::new(f0)), position: v.position }),
        },
        ParsedExprKindView::Exists { subquery, negated } => match typed_statement(*subquery, c, (depth + 1) as usize) {
            Err(x) => Err(x),
            Ok(subquery) => Ok(
                ParsedExprView { kind: ParsedExprKindView::Exists { subquery: Box::new(subquery), negated }, position: v.position },
            ),
        },
        ParsedExprKindView::InSubquery { expr, subquery, negated } => match typed_expr(*expr, c, depth) {
            Err(x) => Err(x),
            Ok(expr) => match typed_statement(*subquery, c, (depth + 1) as usize) {
                Err(x) => Err(x),
                Ok(subquery) => Ok(
                    ParsedExprView {
                        kind: ParsedExprKindView::InSubquery { expr: Box::new(expr), subquery: Box::new(subquery), negated },
                        position: v.position,
                    },
                ),
            },
        },
        ParsedExprKindView::QuantifiedSubquery { left, op, quantifier, subquery } => match typed_expr(*left, c, depth) {
            Err(x) => Err(x),
            Ok(left) => match typed_statement(*subquery, c, (depth + 1) as usize) {
                Err(x) => Err(x),
                Ok(subquery) => Ok(
                    ParsedExprView {
                        kind: ParsedExprKindView::QuantifiedSubquery { left: Box::new(left), op, quantifier, subquery: Box::new(subquery) },
                        position: v.position,
                    },
                ),
            },
        },
        ParsedExprKindView::RowSubquery {
            left,
            op,
            quantifier,
            negated,
            subquery,
        } => match typed_expr_list(left, c, depth, 0, Seq::empty()) {
            Err(x) => Err(x),
            Ok(left) => match typed_statement(*subquery, c, (depth + 1) as usize) {
                Err(x) => Err(x),
                Ok(subquery) => Ok(
                    ParsedExprView {
                        kind: ParsedExprKindView::RowSubquery { left, op, quantifier, negated, subquery: Box::new(subquery) },
                        position: v.position,
                    },
                ),
            },
        },
        ParsedExprKindView::Aggregate { function, argument, distinct, filter } => match (
            match argument {
                None => Ok(None),
                Some(y) => match typed_expr(*y, c, depth) { Err(x) => Err(x), Ok(z) => Ok(Some(Box::new(z))) },
            }
        ) {
            Err(x) => Err(x),
            Ok(argument) => match (
                match filter {
                    None => Ok(None),
                    Some(y) => match typed_expr(*y, c, depth) { Err(x) => Err(x), Ok(z) => Ok(Some(Box::new(z))) },
                }
            ) {
                Err(x) => Err(x),
                Ok(filter) => Ok(
                    ParsedExprView { kind: ParsedExprKindView::Aggregate { function, argument, distinct, filter }, position: v.position },
                ),
            },
        },
        ParsedExprKindView::Window { call, spec } => match typed_window_call(*call, c, depth) {
            Err(x) => Err(x),
            Ok(call) => match typed_window_spec(*spec, c, depth) {
                Err(x) => Err(x),
                Ok(spec) => Ok(
                    ParsedExprView {
                        kind: ParsedExprKindView::Window { call: Box::new(call), spec: Box::new(spec) },
                        position: v.position,
                    },
                ),
            },
        },
        ParsedExprKindView::NamedWindow { call, name } => match typed_window_call(*call, c, depth) {
            Err(x) => Err(x),
            Ok(call) => Ok(ParsedExprView { kind: ParsedExprKindView::NamedWindow { call: Box::new(call), name }, position: v.position }),
        },
        _ => Ok(v),
    }
}

/// One layer of [`typed_expr`], over the results of its parts.
pub open spec fn typed_expr_layer(v: ParsedExprView, c: ResolverView, depth: usize) -> Checked<ParsedExprView> {
    match v.kind {
        ParsedExprKindView::Parameter(index) => if c.parameters.dom().contains(index) {
            Ok(
                ParsedExprView {
                    kind: ParsedExprKindView::ResolvedParameter { index, data_type: c.parameters[index] },
                    position: v.position,
                },
            )
        } else {
            Ok(v)
        },
        ParsedExprKindView::Cast { expr, data_type, declared_type } => match typed_expr(*expr, c, depth) {
            Err(x) => Err(x),
            Ok(expr) => match cast_target(data_type, declared_type, c.catalog) {
                Err(x) => Err(x),
                Ok(data_type) => Ok(
                    ParsedExprView {
                        kind: ParsedExprKindView::Cast { expr: Box::new(expr), data_type, declared_type },
                        position: v.position,
                    },
                ),
            },
        },
        ParsedExprKindView::Function { function, arguments } => match typed_expr_list(arguments, c, depth, 0, Seq::empty()) {
            Err(x) => Err(x),
            Ok(arguments) => session_expr(function, arguments, c.session, v.position),
        },
        ParsedExprKindView::Unary { op, expr } => match typed_expr(*expr, c, depth) {
            Err(x) => Err(x),
            Ok(expr) => Ok(ParsedExprView { kind: ParsedExprKindView::Unary { op, expr: Box::new(expr) }, position: v.position }),
        },
        ParsedExprKindView::Array { elements, dimensions } => match typed_expr_list(elements, c, depth, 0, Seq::empty()) {
            Err(x) => Err(x),
            Ok(elements) => Ok(ParsedExprView { kind: ParsedExprKindView::Array { elements, dimensions }, position: v.position }),
        },
        ParsedExprKindView::Binary { left, op, right } => match typed_expr(*left, c, depth) {
            Err(x) => Err(x),
            Ok(left) => match typed_expr(*right, c, depth) {
                Err(x) => Err(x),
                Ok(right) => Ok(
                    ParsedExprView {
                        kind: ParsedExprKindView::Binary { left: Box::new(left), op, right: Box::new(right) },
                        position: v.position,
                    },
                ),
            },
        },
        ParsedExprKindView::InList { expr, list, negated } => match typed_expr(*expr, c, depth) {
            Err(x) => Err(x),
            Ok(expr) => match typed_expr_list(list, c, depth, 0, Seq::empty()) {
                Err(x) => Err(x),
                Ok(list) => Ok(
                    ParsedExprView { kind: ParsedExprKindView::InList { expr: Box::new(expr), list, negated }, position: v.position },
                ),
            },
        },
        ParsedExprKindView::ScalarSubquery(f0) => match typed_statement(*f0, c, (depth + 1) as usize) {
            Err(x) => Err(x),
            Ok(f0) => Ok(ParsedExprView { kind: ParsedExprKindView::ScalarSubquery(Box::new(f0)), position: v.position }),
        },
        ParsedExprKindView::Exists { subquery, negated } => match typed_statement(*subquery, c, (depth + 1) as usize) {
            Err(x) => Err(x),
            Ok(subquery) => Ok(
                ParsedExprView { kind: ParsedExprKindView::Exists { subquery: Box::new(subquery), negated }, position: v.position },
            ),
        },
        ParsedExprKindView::InSubquery { expr, subquery, negated } => match typed_expr(*expr, c, depth) {
            Err(x) => Err(x),
            Ok(expr) => match typed_statement(*subquery, c, (depth + 1) as usize) {
                Err(x) => Err(x),
                Ok(subquery) => Ok(
                    ParsedExprView {
                        kind: ParsedExprKindView::InSubquery { expr: Box::new(expr), subquery: Box::new(subquery), negated },
                        position: v.position,
                    },
                ),
            },
        },
        ParsedExprKindView::QuantifiedSubquery { left, op, quantifier, subquery } => match typed_expr(*left, c, depth) {
            Err(x) => Err(x),
            Ok(left) => match typed_statement(*subquery, c, (depth + 1) as usize) {
                Err(x) => Err(x),
                Ok(subquery) => Ok(
                    ParsedExprView {
                        kind: ParsedExprKindView::QuantifiedSubquery { left: Box::new(left), op, quantifier, subquery: Box::new(subquery) },
                        position: v.position,
                    },
                ),
            },
        },
        ParsedExprKindView::RowSubquery {
            left,
            op,
            quantifier,
            negated,
            subquery,
        } => match typed_expr_list(left, c, depth, 0, Seq::empty()) {
            Err(x) => Err(x),
            Ok(left) => match typed_statement(*subquery, c, (depth + 1) as usize) {
                Err(x) => Err(x),
                Ok(subquery) => Ok(
                    ParsedExprView {
                        kind: ParsedExprKindView::RowSubquery { left, op, quantifier, negated, subquery: Box::new(subquery) },
                        position: v.position,
                    },
                ),
            },
        },
        ParsedExprKindView::Aggregate { function, argument, distinct, filter } => match (
            match argument {
                None => Ok(None),
                Some(y) => match typed_expr(*y, c, depth) { Err(x) => Err(x), Ok(z) => Ok(Some(Box::new(z))) },
            }
        ) {
            Err(x) => Err(x),
            Ok(argument) => match (
                match filter {
                    None => Ok(None),
                    Some(y) => match typed_expr(*y, c, depth) { Err(x) => Err(x), Ok(z) => Ok(Some(Box::new(z))) },
                }
            ) {
                Err(x) => Err(x),
                Ok(filter) => Ok(
                    ParsedExprView { kind: ParsedExprKindView::Aggregate { function, argument, distinct, filter }, position: v.position },
                ),
            },
        },
        ParsedExprKindView::Window { call, spec } => match typed_window_call(*call, c, depth) {
            Err(x) => Err(x),
            Ok(call) => match typed_window_spec(*spec, c, depth) {
                Err(x) => Err(x),
                Ok(spec) => Ok(
                    ParsedExprView {
                        kind: ParsedExprKindView::Window { call: Box::new(call), spec: Box::new(spec) },
                        position: v.position,
                    },
                ),
            },
        },
        ParsedExprKindView::NamedWindow { call, name } => match typed_window_call(*call, c, depth) {
            Err(x) => Err(x),
            Ok(call) => Ok(ParsedExprView { kind: ParsedExprKindView::NamedWindow { call: Box::new(call), name }, position: v.position }),
        },
        _ => Ok(v),
    }
}

/// The result is its outermost layer over the results of its parts.
pub proof fn unfold_typed_expr(v: ParsedExprView, c: ResolverView, depth: usize)
    ensures
        typed_expr(v, c, depth) == typed_expr_layer(v, c, depth),
{
}

/// A window call with resolved types.
pub closed spec fn typed_window_call(v: ParsedWindowCallView, c: ResolverView, depth: usize) -> Checked<ParsedWindowCallView>
    decreases v, 0int,
{
    match typed_expr_list(v.arguments, c, depth, 0, Seq::empty()) {
        Err(x) => Err(x),
        Ok(arguments) => match (
            match v.filter {
                None => Ok(None),
                Some(y) => match typed_expr(*y, c, depth) { Err(x) => Err(x), Ok(z) => Ok(Some(Box::new(z))) },
            }
        ) { Err(x) => Err(x), Ok(filter) => Ok(ParsedWindowCallView { arguments, filter, ..v }) },
    }
}

/// One layer of [`typed_window_call`], over the results of its parts.
pub open spec fn typed_window_call_layer(v: ParsedWindowCallView, c: ResolverView, depth: usize) -> Checked<ParsedWindowCallView> {
    match typed_expr_list(v.arguments, c, depth, 0, Seq::empty()) {
        Err(x) => Err(x),
        Ok(arguments) => match (
            match v.filter {
                None => Ok(None),
                Some(y) => match typed_expr(*y, c, depth) { Err(x) => Err(x), Ok(z) => Ok(Some(Box::new(z))) },
            }
        ) { Err(x) => Err(x), Ok(filter) => Ok(ParsedWindowCallView { arguments, filter, ..v }) },
    }
}

/// The result is its outermost layer over the results of its parts.
pub proof fn unfold_typed_window_call(v: ParsedWindowCallView, c: ResolverView, depth: usize)
    ensures
        typed_window_call(v, c, depth) == typed_window_call_layer(v, c, depth),
{
}

/// A window spec with resolved types.
pub closed spec fn typed_window_spec(v: ParsedWindowSpecView, c: ResolverView, depth: usize) -> Checked<ParsedWindowSpecView>
    decreases v, 0int,
{
    match typed_expr_list(v.partition_by, c, depth, 0, Seq::empty()) {
        Err(x) => Err(x),
        Ok(partition_by) => match typed_order_list(v.order_by, c, depth, 0, Seq::empty()) {
            Err(x) => Err(x),
            Ok(order_by) => match (
                match v.frame {
                    None => Ok(None),
                    Some(y) => match typed_window_frame(y, c, depth) { Err(x) => Err(x), Ok(z) => Ok(Some(z)) },
                }
            ) { Err(x) => Err(x), Ok(frame) => Ok(ParsedWindowSpecView { partition_by, order_by, frame, ..v }) },
        },
    }
}

/// One layer of [`typed_window_spec`], over the results of its parts.
pub open spec fn typed_window_spec_layer(v: ParsedWindowSpecView, c: ResolverView, depth: usize) -> Checked<ParsedWindowSpecView> {
    match typed_expr_list(v.partition_by, c, depth, 0, Seq::empty()) {
        Err(x) => Err(x),
        Ok(partition_by) => match typed_order_list(v.order_by, c, depth, 0, Seq::empty()) {
            Err(x) => Err(x),
            Ok(order_by) => match (
                match v.frame {
                    None => Ok(None),
                    Some(y) => match typed_window_frame(y, c, depth) { Err(x) => Err(x), Ok(z) => Ok(Some(z)) },
                }
            ) { Err(x) => Err(x), Ok(frame) => Ok(ParsedWindowSpecView { partition_by, order_by, frame, ..v }) },
        },
    }
}

/// The result is its outermost layer over the results of its parts.
pub proof fn unfold_typed_window_spec(v: ParsedWindowSpecView, c: ResolverView, depth: usize)
    ensures
        typed_window_spec(v, c, depth) == typed_window_spec_layer(v, c, depth),
{
}

/// A window frame bound with resolved types.
pub closed spec fn typed_window_frame_bound(
    v: ParsedWindowFrameBoundView,
    c: ResolverView,
    depth: usize,
) -> Checked<ParsedWindowFrameBoundView>
    decreases v, 0int,
{
    match v {
        ParsedWindowFrameBoundView::Preceding(f0) => match typed_expr(*f0, c, depth) {
            Err(x) => Err(x),
            Ok(f0) => Ok(ParsedWindowFrameBoundView::Preceding(Box::new(f0))),
        },
        ParsedWindowFrameBoundView::Following(f0) => match typed_expr(*f0, c, depth) {
            Err(x) => Err(x),
            Ok(f0) => Ok(ParsedWindowFrameBoundView::Following(Box::new(f0))),
        },
        _ => Ok(v),
    }
}

/// One layer of [`typed_window_frame_bound`], over the results of its parts.
pub open spec fn typed_window_frame_bound_layer(
    v: ParsedWindowFrameBoundView,
    c: ResolverView,
    depth: usize,
) -> Checked<ParsedWindowFrameBoundView> {
    match v {
        ParsedWindowFrameBoundView::Preceding(f0) => match typed_expr(*f0, c, depth) {
            Err(x) => Err(x),
            Ok(f0) => Ok(ParsedWindowFrameBoundView::Preceding(Box::new(f0))),
        },
        ParsedWindowFrameBoundView::Following(f0) => match typed_expr(*f0, c, depth) {
            Err(x) => Err(x),
            Ok(f0) => Ok(ParsedWindowFrameBoundView::Following(Box::new(f0))),
        },
        _ => Ok(v),
    }
}

/// The result is its outermost layer over the results of its parts.
pub proof fn unfold_typed_window_frame_bound(v: ParsedWindowFrameBoundView, c: ResolverView, depth: usize)
    ensures
        typed_window_frame_bound(v, c, depth) == typed_window_frame_bound_layer(v, c, depth),
{
}

/// A window frame with resolved types.
pub closed spec fn typed_window_frame(v: ParsedWindowFrameView, c: ResolverView, depth: usize) -> Checked<ParsedWindowFrameView>
    decreases v, 0int,
{
    match typed_window_frame_bound(v.start_bound, c, depth) {
        Err(x) => Err(x),
        Ok(start_bound) => match typed_window_frame_bound(v.end_bound, c, depth) {
            Err(x) => Err(x),
            Ok(end_bound) => Ok(ParsedWindowFrameView { start_bound, end_bound, ..v }),
        },
    }
}

/// One layer of [`typed_window_frame`], over the results of its parts.
pub open spec fn typed_window_frame_layer(v: ParsedWindowFrameView, c: ResolverView, depth: usize) -> Checked<ParsedWindowFrameView> {
    match typed_window_frame_bound(v.start_bound, c, depth) {
        Err(x) => Err(x),
        Ok(start_bound) => match typed_window_frame_bound(v.end_bound, c, depth) {
            Err(x) => Err(x),
            Ok(end_bound) => Ok(ParsedWindowFrameView { start_bound, end_bound, ..v }),
        },
    }
}

/// The result is its outermost layer over the results of its parts.
pub proof fn unfold_typed_window_frame(v: ParsedWindowFrameView, c: ResolverView, depth: usize)
    ensures
        typed_window_frame(v, c, depth) == typed_window_frame_layer(v, c, depth),
{
}

/// An item of a select list with resolved types.
pub closed spec fn typed_projection(v: ParsedProjectionView, c: ResolverView, depth: usize) -> Checked<ParsedProjectionView>
    decreases v, 0int,
{
    match v {
        ParsedProjectionView::Expression { expr, alias } => match typed_expr(expr, c, depth) {
            Err(x) => Err(x),
            Ok(expr) => Ok(ParsedProjectionView::Expression { expr, alias }),
        },
        _ => Ok(v),
    }
}

/// One layer of [`typed_projection`], over the results of its parts.
pub open spec fn typed_projection_layer(v: ParsedProjectionView, c: ResolverView, depth: usize) -> Checked<ParsedProjectionView> {
    match v {
        ParsedProjectionView::Expression { expr, alias } => match typed_expr(expr, c, depth) {
            Err(x) => Err(x),
            Ok(expr) => Ok(ParsedProjectionView::Expression { expr, alias }),
        },
        _ => Ok(v),
    }
}

/// The result is its outermost layer over the results of its parts.
pub proof fn unfold_typed_projection(v: ParsedProjectionView, c: ResolverView, depth: usize)
    ensures
        typed_projection(v, c, depth) == typed_projection_layer(v, c, depth),
{
}

/// A sort key with resolved types.
pub closed spec fn typed_order(v: ParsedOrderView, c: ResolverView, depth: usize) -> Checked<ParsedOrderView>
    decreases v, 0int,
{
    match typed_expr(v.expr, c, depth) { Err(x) => Err(x), Ok(expr) => Ok(ParsedOrderView { expr, ..v }) }
}

/// One layer of [`typed_order`], over the results of its parts.
pub open spec fn typed_order_layer(v: ParsedOrderView, c: ResolverView, depth: usize) -> Checked<ParsedOrderView> {
    match typed_expr(v.expr, c, depth) { Err(x) => Err(x), Ok(expr) => Ok(ParsedOrderView { expr, ..v }) }
}

/// The result is its outermost layer over the results of its parts.
pub proof fn unfold_typed_order(v: ParsedOrderView, c: ResolverView, depth: usize)
    ensures
        typed_order(v, c, depth) == typed_order_layer(v, c, depth),
{
}

/// A WITH query with resolved types.
pub closed spec fn typed_cte(v: ParsedCteView, c: ResolverView, depth: usize) -> Checked<ParsedCteView>
    decreases v, 0int,
{
    match typed_statement(*v.query, c, (depth + 1) as usize) {
        Err(x) => Err(x),
        Ok(query) => Ok(ParsedCteView { query: Box::new(query), ..v }),
    }
}

/// One layer of [`typed_cte`], over the results of its parts.
pub open spec fn typed_cte_layer(v: ParsedCteView, c: ResolverView, depth: usize) -> Checked<ParsedCteView> {
    match typed_statement(*v.query, c, (depth + 1) as usize) {
        Err(x) => Err(x),
        Ok(query) => Ok(ParsedCteView { query: Box::new(query), ..v }),
    }
}

/// The result is its outermost layer over the results of its parts.
pub proof fn unfold_typed_cte(v: ParsedCteView, c: ResolverView, depth: usize)
    ensures
        typed_cte(v, c, depth) == typed_cte_layer(v, c, depth),
{
}

/// A default with resolved types.
pub closed spec fn typed_default(v: ParsedDefaultView, c: ResolverView, depth: usize) -> Checked<ParsedDefaultView>
    decreases v, 0int,
{
    match typed_expr(v.expression, c, depth) { Err(x) => Err(x), Ok(expression) => Ok(ParsedDefaultView { expression, ..v }) }
}

/// One layer of [`typed_default`], over the results of its parts.
pub open spec fn typed_default_layer(v: ParsedDefaultView, c: ResolverView, depth: usize) -> Checked<ParsedDefaultView> {
    match typed_expr(v.expression, c, depth) { Err(x) => Err(x), Ok(expression) => Ok(ParsedDefaultView { expression, ..v }) }
}

/// The result is its outermost layer over the results of its parts.
pub proof fn unfold_typed_default(v: ParsedDefaultView, c: ResolverView, depth: usize)
    ensures
        typed_default(v, c, depth) == typed_default_layer(v, c, depth),
{
}

/// A column with resolved types.
pub closed spec fn typed_column(v: ParsedColumnView, c: ResolverView, depth: usize) -> Checked<ParsedColumnView>
    decreases v, 0int,
{
    match (
        match v.default { None => Ok(None), Some(y) => match typed_default(y, c, depth) { Err(x) => Err(x), Ok(z) => Ok(Some(z)) } }
    ) { Err(x) => Err(x), Ok(default) => Ok(ParsedColumnView { default, ..v }) }
}

/// One layer of [`typed_column`], over the results of its parts.
pub open spec fn typed_column_layer(v: ParsedColumnView, c: ResolverView, depth: usize) -> Checked<ParsedColumnView> {
    match (
        match v.default { None => Ok(None), Some(y) => match typed_default(y, c, depth) { Err(x) => Err(x), Ok(z) => Ok(Some(z)) } }
    ) { Err(x) => Err(x), Ok(default) => Ok(ParsedColumnView { default, ..v }) }
}

/// The result is its outermost layer over the results of its parts.
pub proof fn unfold_typed_column(v: ParsedColumnView, c: ResolverView, depth: usize)
    ensures
        typed_column(v, c, depth) == typed_column_layer(v, c, depth),
{
}

/// A table constraint with resolved types.
pub closed spec fn typed_table_constraint(v: ParsedTableConstraintView, c: ResolverView, depth: usize) -> Checked<ParsedTableConstraintView>
    decreases v, 0int,
{
    match v {
        ParsedTableConstraintView::Check { name, expression, sql } => match typed_expr(expression, c, depth) {
            Err(x) => Err(x),
            Ok(expression) => Ok(ParsedTableConstraintView::Check { name, expression, sql }),
        },
        _ => Ok(v),
    }
}

/// One layer of [`typed_table_constraint`], over the results of its parts.
pub open spec fn typed_table_constraint_layer(
    v: ParsedTableConstraintView,
    c: ResolverView,
    depth: usize,
) -> Checked<ParsedTableConstraintView> {
    match v {
        ParsedTableConstraintView::Check { name, expression, sql } => match typed_expr(expression, c, depth) {
            Err(x) => Err(x),
            Ok(expression) => Ok(ParsedTableConstraintView::Check { name, expression, sql }),
        },
        _ => Ok(v),
    }
}

/// The result is its outermost layer over the results of its parts.
pub proof fn unfold_typed_table_constraint(v: ParsedTableConstraintView, c: ResolverView, depth: usize)
    ensures
        typed_table_constraint(v, c, depth) == typed_table_constraint_layer(v, c, depth),
{
}

/// A table change with resolved types.
pub closed spec fn typed_alter_table_operation(
    v: ParsedAlterTableOperationView,
    c: ResolverView,
    depth: usize,
) -> Checked<ParsedAlterTableOperationView>
    decreases v, 0int,
{
    match v {
        ParsedAlterTableOperationView::AddColumn { column, if_not_exists } => match typed_column(column, c, depth) {
            Err(x) => Err(x),
            Ok(column) => Ok(ParsedAlterTableOperationView::AddColumn { column, if_not_exists }),
        },
        ParsedAlterTableOperationView::SetDefault { column, default } => match typed_default(default, c, depth) {
            Err(x) => Err(x),
            Ok(default) => Ok(ParsedAlterTableOperationView::SetDefault { column, default }),
        },
        ParsedAlterTableOperationView::AddConstraint { constraint } => match typed_table_constraint(constraint, c, depth) {
            Err(x) => Err(x),
            Ok(constraint) => Ok(ParsedAlterTableOperationView::AddConstraint { constraint }),
        },
        _ => Ok(v),
    }
}

/// One layer of [`typed_alter_table_operation`], over the results of its parts.
pub open spec fn typed_alter_table_operation_layer(
    v: ParsedAlterTableOperationView,
    c: ResolverView,
    depth: usize,
) -> Checked<ParsedAlterTableOperationView> {
    match v {
        ParsedAlterTableOperationView::AddColumn { column, if_not_exists } => match typed_column(column, c, depth) {
            Err(x) => Err(x),
            Ok(column) => Ok(ParsedAlterTableOperationView::AddColumn { column, if_not_exists }),
        },
        ParsedAlterTableOperationView::SetDefault { column, default } => match typed_default(default, c, depth) {
            Err(x) => Err(x),
            Ok(default) => Ok(ParsedAlterTableOperationView::SetDefault { column, default }),
        },
        ParsedAlterTableOperationView::AddConstraint { constraint } => match typed_table_constraint(constraint, c, depth) {
            Err(x) => Err(x),
            Ok(constraint) => Ok(ParsedAlterTableOperationView::AddConstraint { constraint }),
        },
        _ => Ok(v),
    }
}

/// The result is its outermost layer over the results of its parts.
pub proof fn unfold_typed_alter_table_operation(v: ParsedAlterTableOperationView, c: ResolverView, depth: usize)
    ensures
        typed_alter_table_operation(v, c, depth) == typed_alter_table_operation_layer(v, c, depth),
{
}

/// A domain change with resolved types.
pub closed spec fn typed_alter_domain_operation(
    v: ParsedAlterDomainOperationView,
    c: ResolverView,
    depth: usize,
) -> Checked<ParsedAlterDomainOperationView>
    decreases v, 0int,
{
    match v {
        ParsedAlterDomainOperationView::SetDefault(f0) => match typed_default(f0, c, depth) {
            Err(x) => Err(x),
            Ok(f0) => Ok(ParsedAlterDomainOperationView::SetDefault(f0)),
        },
        _ => Ok(v),
    }
}

/// One layer of [`typed_alter_domain_operation`], over the results of its parts.
pub open spec fn typed_alter_domain_operation_layer(
    v: ParsedAlterDomainOperationView,
    c: ResolverView,
    depth: usize,
) -> Checked<ParsedAlterDomainOperationView> {
    match v {
        ParsedAlterDomainOperationView::SetDefault(f0) => match typed_default(f0, c, depth) {
            Err(x) => Err(x),
            Ok(f0) => Ok(ParsedAlterDomainOperationView::SetDefault(f0)),
        },
        _ => Ok(v),
    }
}

/// The result is its outermost layer over the results of its parts.
pub proof fn unfold_typed_alter_domain_operation(v: ParsedAlterDomainOperationView, c: ResolverView, depth: usize)
    ensures
        typed_alter_domain_operation(v, c, depth) == typed_alter_domain_operation_layer(v, c, depth),
{
}

/// A join source with resolved types.
pub closed spec fn typed_join_source(v: ParsedJoinSourceView, c: ResolverView, depth: usize) -> Checked<ParsedJoinSourceView>
    decreases v, 0int,
{
    match v {
        ParsedJoinSourceView::Derived { lateral, query, alias, columns } => match typed_statement(*query, c, (depth + 1) as usize) {
            Err(x) => Err(x),
            Ok(query) => Ok(ParsedJoinSourceView::Derived { lateral, query: Box::new(query), alias, columns }),
        },
        _ => Ok(v),
    }
}

/// One layer of [`typed_join_source`], over the results of its parts.
pub open spec fn typed_join_source_layer(v: ParsedJoinSourceView, c: ResolverView, depth: usize) -> Checked<ParsedJoinSourceView> {
    match v {
        ParsedJoinSourceView::Derived { lateral, query, alias, columns } => match typed_statement(*query, c, (depth + 1) as usize) {
            Err(x) => Err(x),
            Ok(query) => Ok(ParsedJoinSourceView::Derived { lateral, query: Box::new(query), alias, columns }),
        },
        _ => Ok(v),
    }
}

/// The result is its outermost layer over the results of its parts.
pub proof fn unfold_typed_join_source(v: ParsedJoinSourceView, c: ResolverView, depth: usize)
    ensures
        typed_join_source(v, c, depth) == typed_join_source_layer(v, c, depth),
{
}

/// A join with resolved types.
pub closed spec fn typed_join(v: ParsedJoinView, c: ResolverView, depth: usize) -> Checked<ParsedJoinView>
    decreases v, 0int,
{
    match typed_join_source(v.source, c, depth) {
        Err(x) => Err(x),
        Ok(source) => match typed_expr(v.on, c, depth) { Err(x) => Err(x), Ok(on) => Ok(ParsedJoinView { source, on, ..v }) },
    }
}

/// One layer of [`typed_join`], over the results of its parts.
pub open spec fn typed_join_layer(v: ParsedJoinView, c: ResolverView, depth: usize) -> Checked<ParsedJoinView> {
    match typed_join_source(v.source, c, depth) {
        Err(x) => Err(x),
        Ok(source) => match typed_expr(v.on, c, depth) { Err(x) => Err(x), Ok(on) => Ok(ParsedJoinView { source, on, ..v }) },
    }
}

/// The result is its outermost layer over the results of its parts.
pub proof fn unfold_typed_join(v: ParsedJoinView, c: ResolverView, depth: usize)
    ensures
        typed_join(v, c, depth) == typed_join_layer(v, c, depth),
{
}

/// A conflict action with resolved types.
pub closed spec fn typed_conflict_action(v: ParsedConflictActionView, c: ResolverView, depth: usize) -> Checked<ParsedConflictActionView>
    decreases v, 0int,
{
    match v {
        ParsedConflictActionView::DoUpdate { assignments, filter } => match typed_assignments(assignments, c, depth, 0, Seq::empty()) {
            Err(x) => Err(x),
            Ok(assignments) => match (
                match filter { None => Ok(None), Some(y) => match typed_expr(y, c, depth) { Err(x) => Err(x), Ok(z) => Ok(Some(z)) } }
            ) { Err(x) => Err(x), Ok(filter) => Ok(ParsedConflictActionView::DoUpdate { assignments, filter }) },
        },
        _ => Ok(v),
    }
}

/// One layer of [`typed_conflict_action`], over the results of its parts.
pub open spec fn typed_conflict_action_layer(
    v: ParsedConflictActionView,
    c: ResolverView,
    depth: usize,
) -> Checked<ParsedConflictActionView> {
    match v {
        ParsedConflictActionView::DoUpdate { assignments, filter } => match typed_assignments(assignments, c, depth, 0, Seq::empty()) {
            Err(x) => Err(x),
            Ok(assignments) => match (
                match filter { None => Ok(None), Some(y) => match typed_expr(y, c, depth) { Err(x) => Err(x), Ok(z) => Ok(Some(z)) } }
            ) { Err(x) => Err(x), Ok(filter) => Ok(ParsedConflictActionView::DoUpdate { assignments, filter }) },
        },
        _ => Ok(v),
    }
}

/// The result is its outermost layer over the results of its parts.
pub proof fn unfold_typed_conflict_action(v: ParsedConflictActionView, c: ResolverView, depth: usize)
    ensures
        typed_conflict_action(v, c, depth) == typed_conflict_action_layer(v, c, depth),
{
}

/// An ON CONFLICT clause with resolved types.
pub closed spec fn typed_on_conflict(v: ParsedOnConflictView, c: ResolverView, depth: usize) -> Checked<ParsedOnConflictView>
    decreases v, 0int,
{
    match typed_conflict_action(v.action, c, depth) { Err(x) => Err(x), Ok(action) => Ok(ParsedOnConflictView { action, ..v }) }
}

/// One layer of [`typed_on_conflict`], over the results of its parts.
pub open spec fn typed_on_conflict_layer(v: ParsedOnConflictView, c: ResolverView, depth: usize) -> Checked<ParsedOnConflictView> {
    match typed_conflict_action(v.action, c, depth) { Err(x) => Err(x), Ok(action) => Ok(ParsedOnConflictView { action, ..v }) }
}

/// The result is its outermost layer over the results of its parts.
pub proof fn unfold_typed_on_conflict(v: ParsedOnConflictView, c: ResolverView, depth: usize)
    ensures
        typed_on_conflict(v, c, depth) == typed_on_conflict_layer(v, c, depth),
{
}

/// A MERGE action with resolved types.
pub closed spec fn typed_merge_action(v: ParsedMergeActionView, c: ResolverView, depth: usize) -> Checked<ParsedMergeActionView>
    decreases v, 0int,
{
    match v {
        ParsedMergeActionView::Update { assignments } => match typed_assignments(assignments, c, depth, 0, Seq::empty()) {
            Err(x) => Err(x),
            Ok(assignments) => Ok(ParsedMergeActionView::Update { assignments }),
        },
        ParsedMergeActionView::Insert { columns, values } => match typed_expr_list(values, c, depth, 0, Seq::empty()) {
            Err(x) => Err(x),
            Ok(values) => Ok(ParsedMergeActionView::Insert { columns, values }),
        },
        _ => Ok(v),
    }
}

/// One layer of [`typed_merge_action`], over the results of its parts.
pub open spec fn typed_merge_action_layer(v: ParsedMergeActionView, c: ResolverView, depth: usize) -> Checked<ParsedMergeActionView> {
    match v {
        ParsedMergeActionView::Update { assignments } => match typed_assignments(assignments, c, depth, 0, Seq::empty()) {
            Err(x) => Err(x),
            Ok(assignments) => Ok(ParsedMergeActionView::Update { assignments }),
        },
        ParsedMergeActionView::Insert { columns, values } => match typed_expr_list(values, c, depth, 0, Seq::empty()) {
            Err(x) => Err(x),
            Ok(values) => Ok(ParsedMergeActionView::Insert { columns, values }),
        },
        _ => Ok(v),
    }
}

/// The result is its outermost layer over the results of its parts.
pub proof fn unfold_typed_merge_action(v: ParsedMergeActionView, c: ResolverView, depth: usize)
    ensures
        typed_merge_action(v, c, depth) == typed_merge_action_layer(v, c, depth),
{
}

/// A MERGE clause with resolved types.
pub closed spec fn typed_merge_clause(v: ParsedMergeClauseView, c: ResolverView, depth: usize) -> Checked<ParsedMergeClauseView>
    decreases v, 0int,
{
    match (match v.predicate { None => Ok(None), Some(y) => match typed_expr(y, c, depth) { Err(x) => Err(x), Ok(z) => Ok(Some(z)) } }) {
        Err(x) => Err(x),
        Ok(predicate) => match typed_merge_action(v.action, c, depth) {
            Err(x) => Err(x),
            Ok(action) => Ok(ParsedMergeClauseView { predicate, action, ..v }),
        },
    }
}

/// One layer of [`typed_merge_clause`], over the results of its parts.
pub open spec fn typed_merge_clause_layer(v: ParsedMergeClauseView, c: ResolverView, depth: usize) -> Checked<ParsedMergeClauseView> {
    match (match v.predicate { None => Ok(None), Some(y) => match typed_expr(y, c, depth) { Err(x) => Err(x), Ok(z) => Ok(Some(z)) } }) {
        Err(x) => Err(x),
        Ok(predicate) => match typed_merge_action(v.action, c, depth) {
            Err(x) => Err(x),
            Ok(action) => Ok(ParsedMergeClauseView { predicate, action, ..v }),
        },
    }
}

/// The result is its outermost layer over the results of its parts.
pub proof fn unfold_typed_merge_clause(v: ParsedMergeClauseView, c: ResolverView, depth: usize)
    ensures
        typed_merge_clause(v, c, depth) == typed_merge_clause_layer(v, c, depth),
{
}

/// A MERGE with resolved types.
pub closed spec fn typed_merge(v: ParsedMergeView, c: ResolverView, depth: usize) -> Checked<ParsedMergeView>
    decreases v, 0int,
{
    match typed_expr(v.on, c, depth) {
        Err(x) => Err(x),
        Ok(on) => match typed_merge_clause_list(v.clauses, c, depth, 0, Seq::empty()) {
            Err(x) => Err(x),
            Ok(clauses) => match typed_projection_list(v.returning, c, depth, 0, Seq::empty()) {
                Err(x) => Err(x),
                Ok(returning) => Ok(ParsedMergeView { on, clauses, returning, ..v }),
            },
        },
    }
}

/// One layer of [`typed_merge`], over the results of its parts.
pub open spec fn typed_merge_layer(v: ParsedMergeView, c: ResolverView, depth: usize) -> Checked<ParsedMergeView> {
    match typed_expr(v.on, c, depth) {
        Err(x) => Err(x),
        Ok(on) => match typed_merge_clause_list(v.clauses, c, depth, 0, Seq::empty()) {
            Err(x) => Err(x),
            Ok(clauses) => match typed_projection_list(v.returning, c, depth, 0, Seq::empty()) {
                Err(x) => Err(x),
                Ok(returning) => Ok(ParsedMergeView { on, clauses, returning, ..v }),
            },
        },
    }
}

/// The result is its outermost layer over the results of its parts.
pub proof fn unfold_typed_merge(v: ParsedMergeView, c: ResolverView, depth: usize)
    ensures
        typed_merge(v, c, depth) == typed_merge_layer(v, c, depth),
{
}

/// A sequence operation with resolved types.
pub closed spec fn typed_sequence_operation(
    v: ParsedSequenceOperationView,
    c: ResolverView,
    depth: usize,
) -> Checked<ParsedSequenceOperationView>
    decreases v, 0int,
{
    match v {
        ParsedSequenceOperationView::SetValue { value, is_called } => match typed_expr(value, c, depth) {
            Err(x) => Err(x),
            Ok(value) => Ok(ParsedSequenceOperationView::SetValue { value, is_called }),
        },
        _ => Ok(v),
    }
}

/// One layer of [`typed_sequence_operation`], over the results of its parts.
pub open spec fn typed_sequence_operation_layer(
    v: ParsedSequenceOperationView,
    c: ResolverView,
    depth: usize,
) -> Checked<ParsedSequenceOperationView> {
    match v {
        ParsedSequenceOperationView::SetValue { value, is_called } => match typed_expr(value, c, depth) {
            Err(x) => Err(x),
            Ok(value) => Ok(ParsedSequenceOperationView::SetValue { value, is_called }),
        },
        _ => Ok(v),
    }
}

/// The result is its outermost layer over the results of its parts.
pub proof fn unfold_typed_sequence_operation(v: ParsedSequenceOperationView, c: ResolverView, depth: usize)
    ensures
        typed_sequence_operation(v, c, depth) == typed_sequence_operation_layer(v, c, depth),
{
}

/// A statement with resolved types.
pub closed spec fn typed_statement(v: ParsedStatementView, c: ResolverView, depth: usize) -> Checked<ParsedStatementView>
    decreases v, 0int,
{
    if depth >= 64 {
        Err(error("54001"@, "statement nesting exceeds the maximum depth of 64"@))
    } else {
    match v {
        ParsedStatementView::CreateDomain { name, base_type, base_declared_type, not_null, default, checks } => match (
            match default { None => Ok(None), Some(y) => match typed_default(y, c, depth) { Err(x) => Err(x), Ok(z) => Ok(Some(z)) } }
        ) {
            Err(x) => Err(x),
            Ok(default) => Ok(ParsedStatementView::CreateDomain { name, base_type, base_declared_type, not_null, default, checks }),
        },
        ParsedStatementView::AlterDomain { name, operation } => match typed_alter_domain_operation(operation, c, depth) {
            Err(x) => Err(x),
            Ok(operation) => Ok(ParsedStatementView::AlterDomain { name, operation }),
        },
        ParsedStatementView::CreateTable {
            name,
            columns,
            constraints,
            if_not_exists,
        } => match typed_column_list(columns, c, depth, 0, Seq::empty()) {
            Err(x) => Err(x),
            Ok(columns) => match typed_table_constraint_list(constraints, c, depth, 0, Seq::empty()) {
                Err(x) => Err(x),
                Ok(constraints) => Ok(ParsedStatementView::CreateTable { name, columns, constraints, if_not_exists }),
            },
        },
        ParsedStatementView::AlterTable { name, if_exists, operations } => match typed_alter_table_operation_list(
            operations,
            c,
            depth,
            0,
            Seq::empty(),
        ) {
            Err(x) => Err(x),
            Ok(operations) => Ok(ParsedStatementView::AlterTable { name, if_exists, operations }),
        },
        ParsedStatementView::CreateView {
            name,
            kind,
            query,
            query_sql,
            columns,
            replace,
            if_not_exists,
            with_data,
        } => match typed_statement(*query, c, (depth + 1) as usize) {
            Err(x) => Err(x),
            Ok(query) => Ok(
                ParsedStatementView::CreateView {
                    name,
                    kind,
                    query: Box::new(query),
                    query_sql,
                    columns,
                    replace,
                    if_not_exists,
                    with_data,
                },
            ),
        },
        ParsedStatementView::Call { name, arguments } => match typed_expr_list(arguments, c, depth, 0, Seq::empty()) {
            Err(x) => Err(x),
            Ok(arguments) => Ok(ParsedStatementView::Call { name, arguments }),
        },
        ParsedStatementView::ScalarSelect { projection } => match typed_projection_list(projection, c, depth, 0, Seq::empty()) {
            Err(x) => Err(x),
            Ok(projection) => Ok(ParsedStatementView::ScalarSelect { projection }),
        },
        ParsedStatementView::RoutineSelect { name, arguments, alias } => match typed_expr_list(arguments, c, depth, 0, Seq::empty()) {
            Err(x) => Err(x),
            Ok(arguments) => Ok(ParsedStatementView::RoutineSelect { name, arguments, alias }),
        },
        ParsedStatementView::PgNotify { channel, payload, alias } => match typed_expr(channel, c, depth) {
            Err(x) => Err(x),
            Ok(channel) => match typed_expr(payload, c, depth) {
                Err(x) => Err(x),
                Ok(payload) => Ok(ParsedStatementView::PgNotify { channel, payload, alias }),
            },
        },
        ParsedStatementView::SequenceValue { name, operation, alias } => match typed_sequence_operation(operation, c, depth) {
            Err(x) => Err(x),
            Ok(operation) => Ok(ParsedStatementView::SequenceValue { name, operation, alias }),
        },
        ParsedStatementView::Insert { table, columns, rows, on_conflict, returning } => match typed_rows(rows, c, depth, 0, Seq::empty()) {
            Err(x) => Err(x),
            Ok(rows) => match (
                match on_conflict {
                    None => Ok(None),
                    Some(y) => match typed_on_conflict(y, c, depth) { Err(x) => Err(x), Ok(z) => Ok(Some(z)) },
                }
            ) {
                Err(x) => Err(x),
                Ok(on_conflict) => match typed_projection_list(returning, c, depth, 0, Seq::empty()) {
                    Err(x) => Err(x),
                    Ok(returning) => Ok(ParsedStatementView::Insert { table, columns, rows, on_conflict, returning }),
                },
            },
        },
        ParsedStatementView::Merge(f0) => match typed_merge(f0, c, depth) {
            Err(x) => Err(x),
            Ok(f0) => Ok(ParsedStatementView::Merge(f0)),
        },
        ParsedStatementView::With { recursive, ctes, body } => match typed_cte_list(ctes, c, depth, 0, Seq::empty()) {
            Err(x) => Err(x),
            Ok(ctes) => match typed_statement(*body, c, (depth + 1) as usize) {
                Err(x) => Err(x),
                Ok(body) => Ok(ParsedStatementView::With { recursive, ctes, body: Box::new(body) }),
            },
        },
        ParsedStatementView::SetOperation {
            left,
            operator,
            all,
            right,
            order_by,
            offset,
            limit,
        } => match typed_statement(*left, c, (depth + 1) as usize) {
            Err(x) => Err(x),
            Ok(left) => match typed_statement(*right, c, (depth + 1) as usize) {
                Err(x) => Err(x),
                Ok(right) => match typed_order_list(order_by, c, depth, 0, Seq::empty()) {
                    Err(x) => Err(x),
                    Ok(order_by) => match (
                        match offset {
                            None => Ok(None),
                            Some(y) => match typed_expr(y, c, depth) { Err(x) => Err(x), Ok(z) => Ok(Some(z)) },
                        }
                    ) {
                        Err(x) => Err(x),
                        Ok(offset) => match (
                            match limit {
                                None => Ok(None),
                                Some(y) => match typed_expr(y, c, depth) { Err(x) => Err(x), Ok(z) => Ok(Some(z)) },
                            }
                        ) {
                            Err(x) => Err(x),
                            Ok(limit) => Ok(
                                ParsedStatementView::SetOperation {
                                    left: Box::new(left),
                                    operator,
                                    all,
                                    right: Box::new(right),
                                    order_by,
                                    offset,
                                    limit,
                                },
                            ),
                        },
                    },
                },
            },
        },
        ParsedStatementView::Select {
            table,
            projection,
            filter,
            order_by,
            offset,
            limit,
        } => match typed_projection_list(projection, c, depth, 0, Seq::empty()) {
            Err(x) => Err(x),
            Ok(projection) => match (
                match filter { None => Ok(None), Some(y) => match typed_expr(y, c, depth) { Err(x) => Err(x), Ok(z) => Ok(Some(z)) } }
            ) {
                Err(x) => Err(x),
                Ok(filter) => match typed_order_list(order_by, c, depth, 0, Seq::empty()) {
                    Err(x) => Err(x),
                    Ok(order_by) => match (
                        match offset {
                            None => Ok(None),
                            Some(y) => match typed_expr(y, c, depth) { Err(x) => Err(x), Ok(z) => Ok(Some(z)) },
                        }
                    ) {
                        Err(x) => Err(x),
                        Ok(offset) => match (
                            match limit {
                                None => Ok(None),
                                Some(y) => match typed_expr(y, c, depth) { Err(x) => Err(x), Ok(z) => Ok(Some(z)) },
                            }
                        ) {
                            Err(x) => Err(x),
                            Ok(limit) => Ok(ParsedStatementView::Select { table, projection, filter, order_by, offset, limit }),
                        },
                    },
                },
            },
        },
        ParsedStatementView::AdvancedSelect {
            table,
            joins,
            projection,
            distinct,
            filter,
            group_by,
            having,
            order_by,
            offset,
            limit,
        } => match typed_join_list(joins, c, depth, 0, Seq::empty()) {
            Err(x) => Err(x),
            Ok(joins) => match typed_projection_list(projection, c, depth, 0, Seq::empty()) {
                Err(x) => Err(x),
                Ok(projection) => match (
                    match filter { None => Ok(None), Some(y) => match typed_expr(y, c, depth) { Err(x) => Err(x), Ok(z) => Ok(Some(z)) } }
                ) {
                    Err(x) => Err(x),
                    Ok(filter) => match typed_expr_list(group_by, c, depth, 0, Seq::empty()) {
                        Err(x) => Err(x),
                        Ok(group_by) => match (
                            match having {
                                None => Ok(None),
                                Some(y) => match typed_expr(y, c, depth) { Err(x) => Err(x), Ok(z) => Ok(Some(z)) },
                            }
                        ) {
                            Err(x) => Err(x),
                            Ok(having) => match typed_order_list(order_by, c, depth, 0, Seq::empty()) {
                                Err(x) => Err(x),
                                Ok(order_by) => match (
                                    match offset {
                                        None => Ok(None),
                                        Some(y) => match typed_expr(y, c, depth) { Err(x) => Err(x), Ok(z) => Ok(Some(z)) },
                                    }
                                ) {
                                    Err(x) => Err(x),
                                    Ok(offset) => match (
                                        match limit {
                                            None => Ok(None),
                                            Some(y) => match typed_expr(y, c, depth) { Err(x) => Err(x), Ok(z) => Ok(Some(z)) },
                                        }
                                    ) {
                                        Err(x) => Err(x),
                                        Ok(limit) => Ok(
                                            ParsedStatementView::AdvancedSelect {
                                                table,
                                                joins,
                                                projection,
                                                distinct,
                                                filter,
                                                group_by,
                                                having,
                                                order_by,
                                                offset,
                                                limit,
                                            },
                                        ),
                                    },
                                },
                            },
                        },
                    },
                },
            },
        },
        ParsedStatementView::Explain { statement } => match typed_statement(*statement, c, (depth + 1) as usize) {
            Err(x) => Err(x),
            Ok(statement) => Ok(ParsedStatementView::Explain { statement: Box::new(statement) }),
        },
        ParsedStatementView::Update {
            table,
            assignments,
            filter,
            returning,
        } => match typed_assignments(assignments, c, depth, 0, Seq::empty()) {
            Err(x) => Err(x),
            Ok(assignments) => match (
                match filter { None => Ok(None), Some(y) => match typed_expr(y, c, depth) { Err(x) => Err(x), Ok(z) => Ok(Some(z)) } }
            ) {
                Err(x) => Err(x),
                Ok(filter) => match typed_projection_list(returning, c, depth, 0, Seq::empty()) {
                    Err(x) => Err(x),
                    Ok(returning) => Ok(ParsedStatementView::Update { table, assignments, filter, returning }),
                },
            },
        },
        ParsedStatementView::Delete { table, filter, returning } => match (
            match filter { None => Ok(None), Some(y) => match typed_expr(y, c, depth) { Err(x) => Err(x), Ok(z) => Ok(Some(z)) } }
        ) {
            Err(x) => Err(x),
            Ok(filter) => match typed_projection_list(returning, c, depth, 0, Seq::empty()) {
                Err(x) => Err(x),
                Ok(returning) => Ok(ParsedStatementView::Delete { table, filter, returning }),
            },
        },
        _ => Ok(v),
    }
    }
}

/// One layer of [`typed_statement`], over the results of its parts.
pub open spec fn typed_statement_layer(v: ParsedStatementView, c: ResolverView, depth: usize) -> Checked<ParsedStatementView> {
    if depth >= 64 {
        Err(error("54001"@, "statement nesting exceeds the maximum depth of 64"@))
    } else {
    match v {
        ParsedStatementView::CreateDomain { name, base_type, base_declared_type, not_null, default, checks } => match (
            match default { None => Ok(None), Some(y) => match typed_default(y, c, depth) { Err(x) => Err(x), Ok(z) => Ok(Some(z)) } }
        ) {
            Err(x) => Err(x),
            Ok(default) => Ok(ParsedStatementView::CreateDomain { name, base_type, base_declared_type, not_null, default, checks }),
        },
        ParsedStatementView::AlterDomain { name, operation } => match typed_alter_domain_operation(operation, c, depth) {
            Err(x) => Err(x),
            Ok(operation) => Ok(ParsedStatementView::AlterDomain { name, operation }),
        },
        ParsedStatementView::CreateTable {
            name,
            columns,
            constraints,
            if_not_exists,
        } => match typed_column_list(columns, c, depth, 0, Seq::empty()) {
            Err(x) => Err(x),
            Ok(columns) => match typed_table_constraint_list(constraints, c, depth, 0, Seq::empty()) {
                Err(x) => Err(x),
                Ok(constraints) => Ok(ParsedStatementView::CreateTable { name, columns, constraints, if_not_exists }),
            },
        },
        ParsedStatementView::AlterTable { name, if_exists, operations } => match typed_alter_table_operation_list(
            operations,
            c,
            depth,
            0,
            Seq::empty(),
        ) {
            Err(x) => Err(x),
            Ok(operations) => Ok(ParsedStatementView::AlterTable { name, if_exists, operations }),
        },
        ParsedStatementView::CreateView {
            name,
            kind,
            query,
            query_sql,
            columns,
            replace,
            if_not_exists,
            with_data,
        } => match typed_statement(*query, c, (depth + 1) as usize) {
            Err(x) => Err(x),
            Ok(query) => Ok(
                ParsedStatementView::CreateView {
                    name,
                    kind,
                    query: Box::new(query),
                    query_sql,
                    columns,
                    replace,
                    if_not_exists,
                    with_data,
                },
            ),
        },
        ParsedStatementView::Call { name, arguments } => match typed_expr_list(arguments, c, depth, 0, Seq::empty()) {
            Err(x) => Err(x),
            Ok(arguments) => Ok(ParsedStatementView::Call { name, arguments }),
        },
        ParsedStatementView::ScalarSelect { projection } => match typed_projection_list(projection, c, depth, 0, Seq::empty()) {
            Err(x) => Err(x),
            Ok(projection) => Ok(ParsedStatementView::ScalarSelect { projection }),
        },
        ParsedStatementView::RoutineSelect { name, arguments, alias } => match typed_expr_list(arguments, c, depth, 0, Seq::empty()) {
            Err(x) => Err(x),
            Ok(arguments) => Ok(ParsedStatementView::RoutineSelect { name, arguments, alias }),
        },
        ParsedStatementView::PgNotify { channel, payload, alias } => match typed_expr(channel, c, depth) {
            Err(x) => Err(x),
            Ok(channel) => match typed_expr(payload, c, depth) {
                Err(x) => Err(x),
                Ok(payload) => Ok(ParsedStatementView::PgNotify { channel, payload, alias }),
            },
        },
        ParsedStatementView::SequenceValue { name, operation, alias } => match typed_sequence_operation(operation, c, depth) {
            Err(x) => Err(x),
            Ok(operation) => Ok(ParsedStatementView::SequenceValue { name, operation, alias }),
        },
        ParsedStatementView::Insert { table, columns, rows, on_conflict, returning } => match typed_rows(rows, c, depth, 0, Seq::empty()) {
            Err(x) => Err(x),
            Ok(rows) => match (
                match on_conflict {
                    None => Ok(None),
                    Some(y) => match typed_on_conflict(y, c, depth) { Err(x) => Err(x), Ok(z) => Ok(Some(z)) },
                }
            ) {
                Err(x) => Err(x),
                Ok(on_conflict) => match typed_projection_list(returning, c, depth, 0, Seq::empty()) {
                    Err(x) => Err(x),
                    Ok(returning) => Ok(ParsedStatementView::Insert { table, columns, rows, on_conflict, returning }),
                },
            },
        },
        ParsedStatementView::Merge(f0) => match typed_merge(f0, c, depth) {
            Err(x) => Err(x),
            Ok(f0) => Ok(ParsedStatementView::Merge(f0)),
        },
        ParsedStatementView::With { recursive, ctes, body } => match typed_cte_list(ctes, c, depth, 0, Seq::empty()) {
            Err(x) => Err(x),
            Ok(ctes) => match typed_statement(*body, c, (depth + 1) as usize) {
                Err(x) => Err(x),
                Ok(body) => Ok(ParsedStatementView::With { recursive, ctes, body: Box::new(body) }),
            },
        },
        ParsedStatementView::SetOperation {
            left,
            operator,
            all,
            right,
            order_by,
            offset,
            limit,
        } => match typed_statement(*left, c, (depth + 1) as usize) {
            Err(x) => Err(x),
            Ok(left) => match typed_statement(*right, c, (depth + 1) as usize) {
                Err(x) => Err(x),
                Ok(right) => match typed_order_list(order_by, c, depth, 0, Seq::empty()) {
                    Err(x) => Err(x),
                    Ok(order_by) => match (
                        match offset {
                            None => Ok(None),
                            Some(y) => match typed_expr(y, c, depth) { Err(x) => Err(x), Ok(z) => Ok(Some(z)) },
                        }
                    ) {
                        Err(x) => Err(x),
                        Ok(offset) => match (
                            match limit {
                                None => Ok(None),
                                Some(y) => match typed_expr(y, c, depth) { Err(x) => Err(x), Ok(z) => Ok(Some(z)) },
                            }
                        ) {
                            Err(x) => Err(x),
                            Ok(limit) => Ok(
                                ParsedStatementView::SetOperation {
                                    left: Box::new(left),
                                    operator,
                                    all,
                                    right: Box::new(right),
                                    order_by,
                                    offset,
                                    limit,
                                },
                            ),
                        },
                    },
                },
            },
        },
        ParsedStatementView::Select {
            table,
            projection,
            filter,
            order_by,
            offset,
            limit,
        } => match typed_projection_list(projection, c, depth, 0, Seq::empty()) {
            Err(x) => Err(x),
            Ok(projection) => match (
                match filter { None => Ok(None), Some(y) => match typed_expr(y, c, depth) { Err(x) => Err(x), Ok(z) => Ok(Some(z)) } }
            ) {
                Err(x) => Err(x),
                Ok(filter) => match typed_order_list(order_by, c, depth, 0, Seq::empty()) {
                    Err(x) => Err(x),
                    Ok(order_by) => match (
                        match offset {
                            None => Ok(None),
                            Some(y) => match typed_expr(y, c, depth) { Err(x) => Err(x), Ok(z) => Ok(Some(z)) },
                        }
                    ) {
                        Err(x) => Err(x),
                        Ok(offset) => match (
                            match limit {
                                None => Ok(None),
                                Some(y) => match typed_expr(y, c, depth) { Err(x) => Err(x), Ok(z) => Ok(Some(z)) },
                            }
                        ) {
                            Err(x) => Err(x),
                            Ok(limit) => Ok(ParsedStatementView::Select { table, projection, filter, order_by, offset, limit }),
                        },
                    },
                },
            },
        },
        ParsedStatementView::AdvancedSelect {
            table,
            joins,
            projection,
            distinct,
            filter,
            group_by,
            having,
            order_by,
            offset,
            limit,
        } => match typed_join_list(joins, c, depth, 0, Seq::empty()) {
            Err(x) => Err(x),
            Ok(joins) => match typed_projection_list(projection, c, depth, 0, Seq::empty()) {
                Err(x) => Err(x),
                Ok(projection) => match (
                    match filter { None => Ok(None), Some(y) => match typed_expr(y, c, depth) { Err(x) => Err(x), Ok(z) => Ok(Some(z)) } }
                ) {
                    Err(x) => Err(x),
                    Ok(filter) => match typed_expr_list(group_by, c, depth, 0, Seq::empty()) {
                        Err(x) => Err(x),
                        Ok(group_by) => match (
                            match having {
                                None => Ok(None),
                                Some(y) => match typed_expr(y, c, depth) { Err(x) => Err(x), Ok(z) => Ok(Some(z)) },
                            }
                        ) {
                            Err(x) => Err(x),
                            Ok(having) => match typed_order_list(order_by, c, depth, 0, Seq::empty()) {
                                Err(x) => Err(x),
                                Ok(order_by) => match (
                                    match offset {
                                        None => Ok(None),
                                        Some(y) => match typed_expr(y, c, depth) { Err(x) => Err(x), Ok(z) => Ok(Some(z)) },
                                    }
                                ) {
                                    Err(x) => Err(x),
                                    Ok(offset) => match (
                                        match limit {
                                            None => Ok(None),
                                            Some(y) => match typed_expr(y, c, depth) { Err(x) => Err(x), Ok(z) => Ok(Some(z)) },
                                        }
                                    ) {
                                        Err(x) => Err(x),
                                        Ok(limit) => Ok(
                                            ParsedStatementView::AdvancedSelect {
                                                table,
                                                joins,
                                                projection,
                                                distinct,
                                                filter,
                                                group_by,
                                                having,
                                                order_by,
                                                offset,
                                                limit,
                                            },
                                        ),
                                    },
                                },
                            },
                        },
                    },
                },
            },
        },
        ParsedStatementView::Explain { statement } => match typed_statement(*statement, c, (depth + 1) as usize) {
            Err(x) => Err(x),
            Ok(statement) => Ok(ParsedStatementView::Explain { statement: Box::new(statement) }),
        },
        ParsedStatementView::Update {
            table,
            assignments,
            filter,
            returning,
        } => match typed_assignments(assignments, c, depth, 0, Seq::empty()) {
            Err(x) => Err(x),
            Ok(assignments) => match (
                match filter { None => Ok(None), Some(y) => match typed_expr(y, c, depth) { Err(x) => Err(x), Ok(z) => Ok(Some(z)) } }
            ) {
                Err(x) => Err(x),
                Ok(filter) => match typed_projection_list(returning, c, depth, 0, Seq::empty()) {
                    Err(x) => Err(x),
                    Ok(returning) => Ok(ParsedStatementView::Update { table, assignments, filter, returning }),
                },
            },
        },
        ParsedStatementView::Delete { table, filter, returning } => match (
            match filter { None => Ok(None), Some(y) => match typed_expr(y, c, depth) { Err(x) => Err(x), Ok(z) => Ok(Some(z)) } }
        ) {
            Err(x) => Err(x),
            Ok(filter) => match typed_projection_list(returning, c, depth, 0, Seq::empty()) {
                Err(x) => Err(x),
                Ok(returning) => Ok(ParsedStatementView::Delete { table, filter, returning }),
            },
        },
        _ => Ok(v),
    }
    }
}

/// The result is its outermost layer over the results of its parts.
pub proof fn unfold_typed_statement(v: ParsedStatementView, c: ResolverView, depth: usize)
    ensures
        typed_statement(v, c, depth) == typed_statement_layer(v, c, depth),
{
}

/// A list with resolved types, from a position on.
pub closed spec fn typed_assignments(
    l: Seq<(ParsedIdentifierView, ParsedExprView)>,
    c: ResolverView,
    depth: usize,
    i: int,
    done: Seq<(ParsedIdentifierView, ParsedExprView)>,
) -> Checked<Seq<(ParsedIdentifierView, ParsedExprView)>>
    decreases l, l.len() - i,
{
    if i < 0 || i >= l.len() {
        Ok(done)
    } else {
        match typed_expr(l[i].1, c, depth) {
            Err(x) => Err(x),
            Ok(b) => typed_assignments(l, c, depth, i + 1, done.push((l[i].0, b))),
        }
    }
}

/// The result is its outermost layer over the results of its parts.
pub proof fn unfold_typed_assignments(
    l: Seq<(ParsedIdentifierView, ParsedExprView)>,
    c: ResolverView,
    depth: usize,
    i: int,
    done: Seq<(ParsedIdentifierView, ParsedExprView)>,
)
    ensures
        typed_assignments(l, c, depth, i, done) == (if i < 0 || i >= l.len() {
        Ok(done)
    } else {
        match typed_expr(l[i].1, c, depth) {
            Err(x) => Err(x),
            Ok(b) => typed_assignments(l, c, depth, i + 1, done.push((l[i].0, b))),
        }
    }),
{
}

/// A list with resolved types, from a position on.
pub closed spec fn typed_alter_table_operation_list(
    l: Seq<ParsedAlterTableOperationView>,
    c: ResolverView,
    depth: usize,
    i: int,
    done: Seq<ParsedAlterTableOperationView>,
) -> Checked<Seq<ParsedAlterTableOperationView>>
    decreases l, l.len() - i,
{
    if i < 0 || i >= l.len() {
        Ok(done)
    } else {
        match typed_alter_table_operation(l[i], c, depth) {
            Err(x) => Err(x),
            Ok(b) => typed_alter_table_operation_list(l, c, depth, i + 1, done.push(b)),
        }
    }
}

/// The result is its outermost layer over the results of its parts.
pub proof fn unfold_typed_alter_table_operation_list(
    l: Seq<ParsedAlterTableOperationView>,
    c: ResolverView,
    depth: usize,
    i: int,
    done: Seq<ParsedAlterTableOperationView>,
)
    ensures
        typed_alter_table_operation_list(l, c, depth, i, done) == (if i < 0 || i >= l.len() {
        Ok(done)
    } else {
        match typed_alter_table_operation(l[i], c, depth) {
            Err(x) => Err(x),
            Ok(b) => typed_alter_table_operation_list(l, c, depth, i + 1, done.push(b)),
        }
    }),
{
}

/// A list with resolved types, from a position on.
pub closed spec fn typed_column_list(
    l: Seq<ParsedColumnView>,
    c: ResolverView,
    depth: usize,
    i: int,
    done: Seq<ParsedColumnView>,
) -> Checked<Seq<ParsedColumnView>>
    decreases l, l.len() - i,
{
    if i < 0 || i >= l.len() {
        Ok(done)
    } else {
        match typed_column(l[i], c, depth) {
            Err(x) => Err(x),
            Ok(b) => typed_column_list(l, c, depth, i + 1, done.push(b)),
        }
    }
}

/// The result is its outermost layer over the results of its parts.
pub proof fn unfold_typed_column_list(l: Seq<ParsedColumnView>, c: ResolverView, depth: usize, i: int, done: Seq<ParsedColumnView>)
    ensures
        typed_column_list(l, c, depth, i, done) == (if i < 0 || i >= l.len() {
        Ok(done)
    } else {
        match typed_column(l[i], c, depth) {
            Err(x) => Err(x),
            Ok(b) => typed_column_list(l, c, depth, i + 1, done.push(b)),
        }
    }),
{
}

/// A list with resolved types, from a position on.
pub closed spec fn typed_cte_list(
    l: Seq<ParsedCteView>,
    c: ResolverView,
    depth: usize,
    i: int,
    done: Seq<ParsedCteView>,
) -> Checked<Seq<ParsedCteView>>
    decreases l, l.len() - i,
{
    if i < 0 || i >= l.len() {
        Ok(done)
    } else {
        match typed_cte(l[i], c, depth) {
            Err(x) => Err(x),
            Ok(b) => typed_cte_list(l, c, depth, i + 1, done.push(b)),
        }
    }
}

/// The result is its outermost layer over the results of its parts.
pub proof fn unfold_typed_cte_list(l: Seq<ParsedCteView>, c: ResolverView, depth: usize, i: int, done: Seq<ParsedCteView>)
    ensures
        typed_cte_list(l, c, depth, i, done) == (if i < 0 || i >= l.len() {
        Ok(done)
    } else {
        match typed_cte(l[i], c, depth) {
            Err(x) => Err(x),
            Ok(b) => typed_cte_list(l, c, depth, i + 1, done.push(b)),
        }
    }),
{
}

/// A list with resolved types, from a position on.
pub closed spec fn typed_expr_list(
    l: Seq<ParsedExprView>,
    c: ResolverView,
    depth: usize,
    i: int,
    done: Seq<ParsedExprView>,
) -> Checked<Seq<ParsedExprView>>
    decreases l, l.len() - i,
{
    if i < 0 || i >= l.len() {
        Ok(done)
    } else {
        match typed_expr(l[i], c, depth) {
            Err(x) => Err(x),
            Ok(b) => typed_expr_list(l, c, depth, i + 1, done.push(b)),
        }
    }
}

/// The result is its outermost layer over the results of its parts.
pub proof fn unfold_typed_expr_list(l: Seq<ParsedExprView>, c: ResolverView, depth: usize, i: int, done: Seq<ParsedExprView>)
    ensures
        typed_expr_list(l, c, depth, i, done) == (if i < 0 || i >= l.len() {
        Ok(done)
    } else {
        match typed_expr(l[i], c, depth) {
            Err(x) => Err(x),
            Ok(b) => typed_expr_list(l, c, depth, i + 1, done.push(b)),
        }
    }),
{
}

/// A list with resolved types, from a position on.
pub closed spec fn typed_join_list(
    l: Seq<ParsedJoinView>,
    c: ResolverView,
    depth: usize,
    i: int,
    done: Seq<ParsedJoinView>,
) -> Checked<Seq<ParsedJoinView>>
    decreases l, l.len() - i,
{
    if i < 0 || i >= l.len() {
        Ok(done)
    } else {
        match typed_join(l[i], c, depth) {
            Err(x) => Err(x),
            Ok(b) => typed_join_list(l, c, depth, i + 1, done.push(b)),
        }
    }
}

/// The result is its outermost layer over the results of its parts.
pub proof fn unfold_typed_join_list(l: Seq<ParsedJoinView>, c: ResolverView, depth: usize, i: int, done: Seq<ParsedJoinView>)
    ensures
        typed_join_list(l, c, depth, i, done) == (if i < 0 || i >= l.len() {
        Ok(done)
    } else {
        match typed_join(l[i], c, depth) {
            Err(x) => Err(x),
            Ok(b) => typed_join_list(l, c, depth, i + 1, done.push(b)),
        }
    }),
{
}

/// A list with resolved types, from a position on.
pub closed spec fn typed_merge_clause_list(
    l: Seq<ParsedMergeClauseView>,
    c: ResolverView,
    depth: usize,
    i: int,
    done: Seq<ParsedMergeClauseView>,
) -> Checked<Seq<ParsedMergeClauseView>>
    decreases l, l.len() - i,
{
    if i < 0 || i >= l.len() {
        Ok(done)
    } else {
        match typed_merge_clause(l[i], c, depth) {
            Err(x) => Err(x),
            Ok(b) => typed_merge_clause_list(l, c, depth, i + 1, done.push(b)),
        }
    }
}

/// The result is its outermost layer over the results of its parts.
pub proof fn unfold_typed_merge_clause_list(
    l: Seq<ParsedMergeClauseView>,
    c: ResolverView,
    depth: usize,
    i: int,
    done: Seq<ParsedMergeClauseView>,
)
    ensures
        typed_merge_clause_list(l, c, depth, i, done) == (if i < 0 || i >= l.len() {
        Ok(done)
    } else {
        match typed_merge_clause(l[i], c, depth) {
            Err(x) => Err(x),
            Ok(b) => typed_merge_clause_list(l, c, depth, i + 1, done.push(b)),
        }
    }),
{
}

/// A list with resolved types, from a position on.
pub closed spec fn typed_order_list(
    l: Seq<ParsedOrderView>,
    c: ResolverView,
    depth: usize,
    i: int,
    done: Seq<ParsedOrderView>,
) -> Checked<Seq<ParsedOrderView>>
    decreases l, l.len() - i,
{
    if i < 0 || i >= l.len() {
        Ok(done)
    } else {
        match typed_order(l[i], c, depth) {
            Err(x) => Err(x),
            Ok(b) => typed_order_list(l, c, depth, i + 1, done.push(b)),
        }
    }
}

/// The result is its outermost layer over the results of its parts.
pub proof fn unfold_typed_order_list(l: Seq<ParsedOrderView>, c: ResolverView, depth: usize, i: int, done: Seq<ParsedOrderView>)
    ensures
        typed_order_list(l, c, depth, i, done) == (if i < 0 || i >= l.len() {
        Ok(done)
    } else {
        match typed_order(l[i], c, depth) {
            Err(x) => Err(x),
            Ok(b) => typed_order_list(l, c, depth, i + 1, done.push(b)),
        }
    }),
{
}

/// A list with resolved types, from a position on.
pub closed spec fn typed_projection_list(
    l: Seq<ParsedProjectionView>,
    c: ResolverView,
    depth: usize,
    i: int,
    done: Seq<ParsedProjectionView>,
) -> Checked<Seq<ParsedProjectionView>>
    decreases l, l.len() - i,
{
    if i < 0 || i >= l.len() {
        Ok(done)
    } else {
        match typed_projection(l[i], c, depth) {
            Err(x) => Err(x),
            Ok(b) => typed_projection_list(l, c, depth, i + 1, done.push(b)),
        }
    }
}

/// The result is its outermost layer over the results of its parts.
pub proof fn unfold_typed_projection_list(
    l: Seq<ParsedProjectionView>,
    c: ResolverView,
    depth: usize,
    i: int,
    done: Seq<ParsedProjectionView>,
)
    ensures
        typed_projection_list(l, c, depth, i, done) == (if i < 0 || i >= l.len() {
        Ok(done)
    } else {
        match typed_projection(l[i], c, depth) {
            Err(x) => Err(x),
            Ok(b) => typed_projection_list(l, c, depth, i + 1, done.push(b)),
        }
    }),
{
}

/// A list with resolved types, from a position on.
pub closed spec fn typed_table_constraint_list(
    l: Seq<ParsedTableConstraintView>,
    c: ResolverView,
    depth: usize,
    i: int,
    done: Seq<ParsedTableConstraintView>,
) -> Checked<Seq<ParsedTableConstraintView>>
    decreases l, l.len() - i,
{
    if i < 0 || i >= l.len() {
        Ok(done)
    } else {
        match typed_table_constraint(l[i], c, depth) {
            Err(x) => Err(x),
            Ok(b) => typed_table_constraint_list(l, c, depth, i + 1, done.push(b)),
        }
    }
}

/// The result is its outermost layer over the results of its parts.
pub proof fn unfold_typed_table_constraint_list(
    l: Seq<ParsedTableConstraintView>,
    c: ResolverView,
    depth: usize,
    i: int,
    done: Seq<ParsedTableConstraintView>,
)
    ensures
        typed_table_constraint_list(l, c, depth, i, done) == (if i < 0 || i >= l.len() {
        Ok(done)
    } else {
        match typed_table_constraint(l[i], c, depth) {
            Err(x) => Err(x),
            Ok(b) => typed_table_constraint_list(l, c, depth, i + 1, done.push(b)),
        }
    }),
{
}

/// A list with resolved types, from a position on.
pub closed spec fn typed_rows(
    l: Seq<Seq<ParsedExprView>>,
    c: ResolverView,
    depth: usize,
    i: int,
    done: Seq<Seq<ParsedExprView>>,
) -> Checked<Seq<Seq<ParsedExprView>>>
    decreases l, l.len() - i,
{
    if i < 0 || i >= l.len() {
        Ok(done)
    } else {
        match typed_expr_list(l[i], c, depth, 0, Seq::empty()) {
            Err(x) => Err(x),
            Ok(b) => typed_rows(l, c, depth, i + 1, done.push(b)),
        }
    }
}

/// The result is its outermost layer over the results of its parts.
pub proof fn unfold_typed_rows(l: Seq<Seq<ParsedExprView>>, c: ResolverView, depth: usize, i: int, done: Seq<Seq<ParsedExprView>>)
    ensures
        typed_rows(l, c, depth, i, done) == (if i < 0 || i >= l.len() {
        Ok(done)
    } else {
        match typed_expr_list(l[i], c, depth, 0, Seq::empty()) {
            Err(x) => Err(x),
            Ok(b) => typed_rows(l, c, depth, i + 1, done.push(b)),
        }
    }),
{
}

} // verus!
