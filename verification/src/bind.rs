//! Binds parsed statements against a catalog.

use std::collections::BTreeMap;

use vstd::prelude::*;

use crate::bound::{BoundStatement, BoundStatementView};
use crate::catalog::{Catalog, CatalogView};
use crate::indexes::bound_result;
use crate::query_rules::statement_of;
use crate::resolve::type_statement;
use crate::resolved::{lemma_statement_resolved, resolved_statement};
use crate::scope::{parameter_views, Checked};
use crate::solver::ParameterTypeSolver;
use crate::solver_rules::solved;
use crate::statement::bind_with_view_depth;
use crate::syntax::{ParsedStatement, ParsedStatementView, SessionBindValues};
use crate::type_rules::{session_view, typed_statement, Resolver, ResolverView, SessionView};
use crate::types::{Result, ScalarType, ScalarTypeView};

verus! {

/// The bound form of a statement. First the types that it names are looked up and the
/// values of the session take their places, next the types of its parameters are found.
#[verifier::opaque]
pub open spec fn bound_statement(
    s: ParsedStatementView,
    catalog: CatalogView,
    session: Option<SessionView>,
) -> Checked<BoundStatementView> {
    match typed_statement(s, ResolverView { parameters: Map::empty(), catalog: Some(catalog), session }, 0) {
        Err(x) => Err(x),
        Ok(s) => match solved(s, catalog, 128, Map::empty()) {
            Err(x) => Err(x),
            Ok(parameters) => match typed_statement(s, ResolverView { parameters, catalog: None, session }, 0) {
                Err(x) => Err(x),
                Ok(s) => statement_of(s, catalog, 0),
            },
        },
    }
}

fn bind_internal(statement: &ParsedStatement, catalog: &Catalog, session: Option<SessionBindValues>) -> (r: Result<BoundStatement>)
    ensures
        bound_result(r) == bound_statement(
            statement@,
            catalog@,
            (match session {
                Some(s) => Some(session_view(s)),
                None => None,
            }),
        ),
{
    reveal(bound_statement);
    let none: BTreeMap<usize, ScalarType> = BTreeMap::new();
    assert(parameter_views(none@) =~= Map::empty());
    let named = type_statement(statement, &Resolver { parameters: &none, catalog: Some(catalog), session }, 0)?;
    let types = ParameterTypeSolver::solve(&named, catalog)?;
    let typed = type_statement(&named, &Resolver { parameters: &types, catalog: None, session }, 0)?;
    bind_with_view_depth(&typed, catalog, 0)
}

/// Binds a parsed statement against a catalog.
pub fn bind(statement: ParsedStatement, catalog: &Catalog) -> (r: Result<BoundStatement>)
    ensures
        bound_result(r) == bound_statement(statement@, catalog@, None),
{
    bind_internal(&statement, catalog, None)
}

/// Binds a parsed statement with the values of the current session. Functions that ask
/// the session become constants before types are found.
pub fn bind_with_session(statement: ParsedStatement, catalog: &Catalog, session: SessionBindValues<'_>) -> (r: Result<BoundStatement>)
    ensures
        bound_result(r) == bound_statement(statement@, catalog@, Some(session_view(session))),
{
    bind_internal(&statement, catalog, Some(session))
}

/// What is bound is a statement in which everything that the session and the types of
/// its parameters settle is settled.
pub proof fn lemma_bound_settled(s: ParsedStatementView, catalog: CatalogView, session: Option<SessionView>)
    ensures
        bound_statement(s, catalog, session) is Ok ==> exists|t: ParsedStatementView, parameters: Map<usize, ScalarTypeView>|
            #![trigger resolved_statement(t, ResolverView { parameters, catalog: None, session }), statement_of(t, catalog, 0)]
            resolved_statement(t, ResolverView { parameters, catalog: None, session }) && statement_of(t, catalog, 0) == bound_statement(
                s,
                catalog,
                session,
            ),
{
    reveal(bound_statement);
    if let Ok(named) = typed_statement(s, ResolverView { parameters: Map::empty(), catalog: Some(catalog), session }, 0) {
        if let Ok(parameters) = solved(named, catalog, 128, Map::empty()) {
            let c = ResolverView { parameters, catalog: None, session };
            lemma_statement_resolved(named, c, 0);
            if let Ok(t) = typed_statement(named, c, 0) {
                assert(resolved_statement(t, c));
            }
        }
    }
}

} // verus!
