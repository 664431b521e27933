//! Expressions that are stored in a catalog.

use std::collections::BTreeMap;

use vstd::prelude::*;

use crate::binding::{bind_expr_with_parameter_types, bound_form};
use crate::bound::{BoundExpr, BoundExprView};
use crate::catalog::{Catalog, CatalogExpression, CatalogExpressionView, CatalogView, TableDefinition, TableDefinitionView};
use crate::expression_parser::{parse_parsed_expression, parsed_expression};
use crate::resolve::type_expr;
use crate::scope::{expr_result, parameter_views, table_view, Checked, ScopeView};
use crate::type_rules::{typed_expr, Resolver, ResolverView};
use crate::types::{Result, ScalarType, ScalarTypeView};

verus! {

/// The bound form of a stored expression.
#[verifier::opaque]
pub open spec fn stored_expression(
    e: CatalogExpressionView,
    table: Option<TableDefinitionView>,
    expected: Option<ScalarTypeView>,
    parameters: Map<usize, ScalarTypeView>,
    catalog: Option<CatalogView>,
) -> Checked<BoundExprView> {
    match parsed_expression(e.sql, "catalog expression contains trailing SQL"@) {
        Err(x) => Err(x),
        Ok(p) => match typed_expr(p, ResolverView { parameters, catalog, session: None }, 0) {
            Err(x) => Err(x),
            Ok(p) => bound_form(p, ScopeView::Table { table, parameters }, expected),
        },
    }
}

/// Binds a stored expression with positional parameter types and a catalog, where
/// there is one, in which named types are looked up.
pub fn bind_catalog_expression_with_parameter_types_and_catalog(
    expression: &CatalogExpression,
    table: Option<&TableDefinition>,
    expected: Option<&ScalarType>,
    parameter_types: &BTreeMap<usize, ScalarType>,
    catalog: Option<&Catalog>,
) -> (r: Result<BoundExpr>)
    ensures
        expr_result(r) == stored_expression(
            expression@,
            table_view(table),
            ScalarType::opt_ref(expected),
            parameter_views(parameter_types@),
            (match catalog {
                Some(c) => Some(c@),
                None => None,
            }),
        ),
{
    reveal(stored_expression);
    let parsed = parse_parsed_expression(expression.sql.as_str(), "catalog expression contains trailing SQL")?;
    let typed = type_expr(&parsed, &Resolver { parameters: parameter_types, catalog, session: None }, 0)?;
    bind_expr_with_parameter_types(&typed, table, expected, parameter_types)
}

/// Binds a stored expression that names no user-defined type.
pub fn bind_catalog_expression(
    expression: &CatalogExpression,
    table: Option<&TableDefinition>,
    expected: Option<&ScalarType>,
) -> (r: Result<BoundExpr>)
    ensures
        expr_result(r) == stored_expression(expression@, table_view(table), ScalarType::opt_ref(expected), Map::empty(), None),
{
    let none: BTreeMap<usize, ScalarType> = BTreeMap::new();
    assert(parameter_views(none@) =~= Map::empty());
    bind_catalog_expression_with_parameter_types_and_catalog(expression, table, expected, &none, None)
}

/// Binds a stored expression; named types are looked up in the catalog that owns it.
pub fn bind_catalog_expression_with_catalog(
    expression: &CatalogExpression,
    table: Option<&TableDefinition>,
    expected: Option<&ScalarType>,
    catalog: &Catalog,
) -> (r: Result<BoundExpr>)
    ensures
        expr_result(r) == stored_expression(
            expression@,
            table_view(table),
            ScalarType::opt_ref(expected),
            Map::empty(),
            Some(catalog@),
        ),
{
    let none: BTreeMap<usize, ScalarType> = BTreeMap::new();
    assert(parameter_views(none@) =~= Map::empty());
    bind_catalog_expression_with_parameter_types_and_catalog(expression, table, expected, &none, Some(catalog))
}

/// Binds a stored expression with positional parameter types.
pub fn bind_catalog_expression_with_parameter_types(
    expression: &CatalogExpression,
    table: Option<&TableDefinition>,
    expected: Option<&ScalarType>,
    parameter_types: &BTreeMap<usize, ScalarType>,
) -> (r: Result<BoundExpr>)
    ensures
        expr_result(r) == stored_expression(
            expression@,
            table_view(table),
            ScalarType::opt_ref(expected),
            parameter_views(parameter_types@),
            None,
        ),
{
    bind_catalog_expression_with_parameter_types_and_catalog(expression, table, expected, parameter_types, None)
}

} // verus!
