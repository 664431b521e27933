//! Sort keys.

use vstd::prelude::*;

use crate::binding::{bind_expr, bind_expr_multi, bound_form, input_scope, table_scope};
use crate::bound::{
    BoundExpr, BoundExprKind, BoundExprKindView, BoundExprView, BoundOrder, BoundOrderView, BoundProjection, BoundProjectionView,
};
use crate::catalog::{TableDefinition, TableDefinitionView};
use crate::grouping::{find_output, grouped, output_of, validate_grouped_expr};
use crate::scope::{no_column, no_such_column, Checked, InputColumn, InputColumnView};
use crate::syntax::{ParsedExpr, ParsedExprKind, ParsedExprKindView, ParsedExprView, ParsedOrder, ParsedOrderView};
use crate::text::{decimal, decimal_text, same_text, text, text3};
use crate::types::{
    error, error_at, unsupported_at, unsupported_error, DbError, Field, FieldView, Identifier, Result, Schema, SchemaView, Value, ValueView,
};

verus! {

/// The number that an integer constant in ORDER BY stands for.
pub open spec fn ordinal_of(e: ParsedExprView) -> Option<int> {
    match e.kind {
        ParsedExprKindView::Literal(ValueView::Int16(n)) => Some(n as int),
        ParsedExprKindView::Literal(ValueView::Int32(n)) => Some(n as int),
        ParsedExprKindView::Literal(ValueView::Int64(n)) => Some(n as int),
        _ => None,
    }
}

fn find_ordinal(e: &ParsedExpr) -> (r: Option<i64>)
    ensures
        (match r {
            Some(n) => Some(n as int),
            None => None,
        }) == ordinal_of(e@),
{
    proof {
        e.unfold();
    }
    match &e.kind {
        ParsedExprKind::Literal(Value::Int16(n)) => Some(*n as i64),
        ParsedExprKind::Literal(Value::Int32(n)) => Some(*n as i64),
        ParsedExprKind::Literal(Value::Int64(n)) => Some(*n),
        _ => None,
    }
}

/// The first output column of a name, from a position on.
pub open spec fn output_named(l: Seq<BoundProjectionView>, name: Seq<char>, i: int) -> Option<usize>
    decreases l.len() - i,
{
    if i < 0 || i >= l.len() {
        None
    } else if l[i].field.name == name {
        Some(i as usize)
    } else {
        output_named(l, name, i + 1)
    }
}

/// Finds the first output column of a name.
pub fn find_output_named(l: &Vec<BoundProjection>, name: &Identifier, from: usize) -> (r: Option<usize>)
    ensures
        r == output_named(BoundProjection::views(l@), name@, from as int),
        r matches Some(k) ==> from <= k < l.len(),
{
    let ghost v = BoundProjection::views(l@);
    let mut i: usize = from;
    while i < l.len()
        invariant
            from <= i,
            v == BoundProjection::views(l@),
            output_named(v, name@, from as int) == output_named(v, name@, i as int),
        decreases l.len() - i,
    {
        assert(v[i as int] == l@[i as int]@);
        if same_text(l[i].field.name.as_str(), name.as_str()) {
            return Some(i);
        }
        i += 1;
    }
    None
}

/// The first field of a name, from a position on.
pub open spec fn field_named(l: Seq<FieldView>, name: Seq<char>, i: int) -> Option<usize>
    decreases l.len() - i,
{
    if i < 0 || i >= l.len() {
        None
    } else if l[i].name == name {
        Some(i as usize)
    } else {
        field_named(l, name, i + 1)
    }
}

/// Finds the first field of a name.
pub fn find_field_named(l: &Vec<Field>, name: &Identifier, from: usize) -> (r: Option<usize>)
    ensures
        r == field_named(Field::views(l@), name@, from as int),
        r matches Some(k) ==> from <= k < l.len(),
{
    let ghost v = Field::views(l@);
    let mut i: usize = from;
    while i < l.len()
        invariant
            from <= i,
            v == Field::views(l@),
            field_named(v, name@, from as int) == field_named(v, name@, i as int),
        decreases l.len() - i,
    {
        assert(v[i as int] == l@[i as int]@);
        if same_text(l[i].name.as_str(), name.as_str()) {
            return Some(i);
        }
        i += 1;
    }
    None
}

/// The output column that a sort key selects by its number or its name.
pub open spec fn order_place(e: ParsedExprView, projection: Seq<BoundProjectionView>) -> Checked<Option<usize>> {
    match ordinal_of(e) {
        Some(n) => if n <= 0 {
            Err(error_at("42P10"@, "ORDER BY position must be greater than zero"@, e.position))
        } else if n - 1 > usize::MAX {
            Err(error("22003"@, "ORDER BY position is out of range"@))
        } else if n - 1 >= projection.len() {
            Err(error_at("42P10"@, "ORDER BY position "@ + decimal(n as nat) + " is not in select list"@, e.position))
        } else {
            Ok(Some((n - 1) as usize))
        },
        None => match e.kind {
            ParsedExprKindView::Column(name) => if name.parts.len() != 1 {
                Ok(None)
            } else {
                match output_named(projection, name.parts[0].name, 0) {
                    None => Ok(None),
                    Some(k) => if output_named(projection, name.parts[0].name, k + 1) is Some {
                        Err(error_at("42702"@, "ORDER BY "@ + name.parts[0].name + " is ambiguous"@, name.parts[0].position))
                    } else {
                        Ok(Some(k))
                    },
                }
            },
            _ => Ok(None),
        },
    }
}

/// Finds the output column that a sort key selects by its number or its name.
pub fn projected_order_position(expr: &ParsedExpr, projection: &Vec<BoundProjection>) -> (r: Result<Option<usize>>)
    ensures
        (match r {
            Ok(p) => Ok(p),
            Err(e) => Err(e@),
        }) == order_place(expr@, BoundProjection::views(projection@)),
        r matches Ok(Some(k)) ==> k < projection.len(),
{
    proof {
        expr.unfold();
    }
    if let Some(n) = find_ordinal(expr) {
        if n <= 0 {
            return Err(DbError::at("42P10", text("ORDER BY position must be greater than zero"), expr.position));
        }
        let k: u64 = (n - 1) as u64;
        if k > usize::MAX as u64 {
            return Err(DbError::new("22003", text("ORDER BY position is out of range")));
        }
        let position: usize = k as usize;
        if position >= projection.len() {
            return Err(
                DbError::at(
                    "42P10",
                    text3("ORDER BY position ", decimal_text(n as u64).as_str(), " is not in select list"),
                    expr.position,
                ),
            );
        }
        return Ok(Some(position));
    }
    match &expr.kind {
        ParsedExprKind::Column(name) => {
            if name.parts.len() != 1 {
                return Ok(None);
            }
            assert(name@.parts[0] == name.parts@[0]@);
            let part = &name.parts[0];
            match find_output_named(projection, &part.name, 0) {
                None => Ok(None),
                Some(k) => {
                    if find_output_named(projection, &part.name, k + 1).is_some() {
                        return Err(DbError::at("42702", text3("ORDER BY ", part.name.as_str(), " is ambiguous"), part.position));
                    }
                    Ok(Some(k))
                },
            }
        },
        _ => Ok(None),
    }
}

/// The sort key over a bound expression.
pub open spec fn order_over(order: ParsedOrderView, e: BoundExprView) -> Checked<BoundOrderView> {
    if e.data_type is Json {
        Err(error_at("42883"@, "could not identify an ordering operator for type json"@, order.expr.position))
    } else {
        Ok(
            BoundOrderView {
                column_index: match e.kind {
                    BoundExprKindView::Column { index } => index,
                    _ => usize::MAX,
                },
                expression: match e.kind {
                    BoundExprKindView::Column { .. } => None,
                    _ => Some(e),
                },
                data_type: e.data_type,
                ascending: order.ascending,
                nulls_first: order.nulls_first,
            },
        )
    }
}

/// The contents of a sort key or error.
pub open spec fn order_result(r: Result<BoundOrder>) -> Checked<BoundOrderView> {
    match r {
        Ok(o) => Ok(o@),
        Err(e) => Err(e@),
    }
}

/// Makes the sort key over a bound expression.
pub fn bound_expression_order(order: &ParsedOrder, expression: BoundExpr) -> (r: Result<BoundOrder>)
    ensures
        order_result(r) == order_over(order@, expression@),
{
    proof {
        order.unfold();
        order.expr.unfold();
        expression.unfold();
    }
    if matches!(expression.data_type, crate::types::ScalarType::Json) {
        return Err(DbError::at("42883", text("could not identify an ordering operator for type json"), order.expr.position));
    }
    let data_type = expression.data_type.clone();
    let slot: Option<usize> = match &expression.kind {
        BoundExprKind::Column { index } => Some(*index),
        _ => None,
    };
    Ok(
        match slot {
            Some(index) => BoundOrder {
                column_index: index,
                expression: None,
                data_type,
                ascending: order.ascending,
                nulls_first: order.nulls_first,
            },
            None => BoundOrder {
                column_index: usize::MAX,
                expression: Some(expression),
                data_type,
                ascending: order.ascending,
                nulls_first: order.nulls_first,
            },
        },
    )
}

/// A sort key of a query on one table.
pub open spec fn simple_order(
    order: ParsedOrderView,
    projection: Seq<BoundProjectionView>,
    table: TableDefinitionView,
) -> Checked<BoundOrderView> {
    match order_place(order.expr, projection) {
        Err(x) => Err(x),
        Ok(Some(k)) => order_over(order, projection[k as int].expr),
        Ok(None) => match bound_form(order.expr, table_scope(Some(table)), None) {
            Err(x) => Err(x),
            Ok(e) => order_over(order, e),
        },
    }
}

/// Binds a sort key of a query on one table.
pub fn bind_simple_order(order: &ParsedOrder, projection: &Vec<BoundProjection>, table: &TableDefinition) -> (r: Result<BoundOrder>)
    ensures
        order_result(r) == simple_order(order@, BoundProjection::views(projection@), table@),
{
    proof {
        order.unfold();
    }
    let e = match projected_order_position(&order.expr, projection)? {
        Some(k) => {
            assert(BoundProjection::views(projection@)[k as int] == projection@[k as int]@);
            projection[k].expr.clone()
        },
        None => bind_expr(&order.expr, Some(table), None)?,
    };
    bound_expression_order(order, e)
}

/// A sort key of a query on the columns of a FROM clause.
pub open spec fn multi_order(
    order: ParsedOrderView,
    projection: Seq<BoundProjectionView>,
    inputs: Seq<InputColumnView>,
) -> Checked<BoundOrderView> {
    match order_place(order.expr, projection) {
        Err(x) => Err(x),
        Ok(Some(k)) => order_over(order, projection[k as int].expr),
        Ok(None) => match bound_form(order.expr, input_scope(inputs, false), None) {
            Err(x) => Err(x),
            Ok(e) => order_over(order, e),
        },
    }
}

/// Binds a sort key of a query on the columns of a FROM clause.
pub fn bind_multi_order(order: &ParsedOrder, projection: &Vec<BoundProjection>, inputs: &Vec<InputColumn>) -> (r: Result<BoundOrder>)
    ensures
        order_result(r) == multi_order(order@, BoundProjection::views(projection@), InputColumn::views(inputs@)),
{
    proof {
        order.unfold();
    }
    let e = match projected_order_position(&order.expr, projection)? {
        Some(k) => {
            assert(BoundProjection::views(projection@)[k as int] == projection@[k as int]@);
            projection[k].expr.clone()
        },
        None => bind_expr_multi(&order.expr, inputs, None, false)?,
    };
    bound_expression_order(order, e)
}

/// A sort key of a query without duplicates: it has to be an output column.
pub open spec fn distinct_order(order: ParsedOrderView, projection: Seq<BoundProjectionView>, inputs: Seq<InputColumnView>) -> Checked<
    BoundOrderView,
> {
    match order_place(order.expr, projection) {
        Err(x) => Err(x),
        Ok(Some(k)) => order_over(order, projection[k as int].expr),
        Ok(None) => match bound_form(order.expr, input_scope(inputs, false), None) {
            Err(x) => Err(x),
            Ok(e) => if output_of(projection, e, 0) is None {
                Err(error_at("42P10"@, "for SELECT DISTINCT, ORDER BY expressions must appear in select list"@, order.expr.position))
            } else {
                order_over(order, e)
            },
        },
    }
}

/// Binds a sort key of a query without duplicates.
pub fn bind_distinct_order(order: &ParsedOrder, projection: &Vec<BoundProjection>, inputs: &Vec<InputColumn>) -> (r: Result<BoundOrder>)
    ensures
        order_result(r) == distinct_order(order@, BoundProjection::views(projection@), InputColumn::views(inputs@)),
{
    proof {
        order.unfold();
        order.expr.unfold();
    }
    let e = match projected_order_position(&order.expr, projection)? {
        Some(k) => {
            assert(BoundProjection::views(projection@)[k as int] == projection@[k as int]@);
            projection[k].expr.clone()
        },
        None => {
            let e = bind_expr_multi(&order.expr, inputs, None, false)?;
            if find_output(projection, &e).is_none() {
                return Err(
                    DbError::at(
                        "42P10",
                        text("for SELECT DISTINCT, ORDER BY expressions must appear in select list"),
                        order.expr.position,
                    ),
                );
            }
            e
        },
    };
    bound_expression_order(order, e)
}

/// A sort key of a grouped query: it has to be an output column.
pub open spec fn projected_order(
    order: ParsedOrderView,
    projection: Seq<BoundProjectionView>,
    inputs: Seq<InputColumnView>,
    group: Seq<BoundExprView>,
) -> Checked<BoundOrderView> {
    let place: Checked<usize> = match order_place(order.expr, projection) {
        Err(x) => Err(x),
        Ok(Some(k)) => Ok(k),
        Ok(None) => match bound_form(order.expr, input_scope(inputs, true), None) {
            Err(x) => Err(x),
            Ok(e) => match grouped(e, group) {
                Err(x) => Err(x),
                Ok(_) => match output_of(projection, e, 0) {
                    Some(k) => Ok(k),
                    None => Err(
                        unsupported_error("ORDER BY on grouped queries requires a selected grouped expression"@, order.expr.position),
                    ),
                },
            },
        },
    };
    match place {
        Err(x) => Err(x),
        Ok(k) => Ok(
            BoundOrderView {
                column_index: k,
                expression: None,
                data_type: projection[k as int].expr.data_type,
                ascending: order.ascending,
                nulls_first: order.nulls_first,
            },
        ),
    }
}

/// Binds a sort key of a grouped query.
pub fn bind_projected_order(
    order: &ParsedOrder,
    projection: &Vec<BoundProjection>,
    inputs: &Vec<InputColumn>,
    group_by: &Vec<BoundExpr>,
) -> (r:
    Result<BoundOrder>)
    ensures
        order_result(r) == projected_order(
            order@,
            BoundProjection::views(projection@),
            InputColumn::views(inputs@),
            BoundExpr::views(group_by@),
        ),
{
    proof {
        order.unfold();
        order.expr.unfold();
    }
    let position: usize = match projected_order_position(&order.expr, projection)? {
        Some(k) => k,
        None => {
            let e = bind_expr_multi(&order.expr, inputs, None, true)?;
            validate_grouped_expr(&e, group_by)?;
            match find_output(projection, &e) {
                Some(k) => k,
                None => {
                    return Err(
                        unsupported_at("ORDER BY on grouped queries requires a selected grouped expression", order.expr.position),
                    );
                },
            }
        },
    };
    assert(BoundProjection::views(projection@)[position as int] == projection@[position as int]@);
    proof {
        projection@[position as int].expr.unfold();
    }
    Ok(
        BoundOrder {
            column_index: position,
            expression: None,
            data_type: projection[position].expr.data_type.clone(),
            ascending: order.ascending,
            nulls_first: order.nulls_first,
        },
    )
}

/// The output column that a sort key of a set operation selects.
pub open spec fn set_place(e: ParsedExprView, fields: Seq<FieldView>) -> Checked<usize> {
    match ordinal_of(e) {
        Some(n) => if n <= 0 {
            Err(unsupported_error("ORDER BY on a set operation supports output columns or ordinals only"@, e.position))
        } else if n - 1 > usize::MAX {
            Err(error("22003"@, "ORDER BY position is out of range"@))
        } else {
            Ok((n - 1) as usize)
        },
        None => if e.kind is Column && e.kind->Column_0.parts.len() == 1 {
            let part = e.kind->Column_0.parts[0];
            match field_named(fields, part.name, 0) {
                None => Err(no_column(part.name, part.position)),
                Some(k) => if field_named(fields, part.name, k + 1) is Some {
                    Err(error_at("42702"@, "column reference "@ + part.name + " is ambiguous"@, part.position))
                } else {
                    Ok(k)
                },
            }
        } else {
            Err(unsupported_error("ORDER BY on a set operation supports output columns or ordinals only"@, e.position))
        },
    }
}

fn find_set_place(expr: &ParsedExpr, fields: &Vec<Field>) -> (r: Result<usize>)
    ensures
        (match r {
            Ok(k) => Ok(k),
            Err(e) => Err(e@),
        }) == set_place(expr@, Field::views(fields@)),
        r matches Ok(k) ==> k < 0xffff_ffff_ffff_ffff,
{
    proof {
        expr.unfold();
    }
    if let Some(n) = find_ordinal(expr) {
        if n <= 0 {
            return Err(unsupported_at("ORDER BY on a set operation supports output columns or ordinals only", expr.position));
        }
        let k: u64 = (n - 1) as u64;
        if k > usize::MAX as u64 {
            return Err(DbError::new("22003", text("ORDER BY position is out of range")));
        }
        return Ok(k as usize);
    }
    if let ParsedExprKind::Column(name) = &expr.kind {
        if name.parts.len() == 1 {
            assert(name@.parts[0] == name.parts@[0]@);
            let part = &name.parts[0];
            return match find_field_named(fields, &part.name, 0) {
                None => Err(no_such_column(&part.name, part.position)),
                Some(k) => {
                    if find_field_named(fields, &part.name, k + 1).is_some() {
                        return Err(DbError::at("42702", text3("column reference ", part.name.as_str(), " is ambiguous"), part.position));
                    }
                    Ok(k)
                },
            };
        }
    }
    Err(unsupported_at("ORDER BY on a set operation supports output columns or ordinals only", expr.position))
}

/// A sort key of a set operation.
pub open spec fn set_order(order: ParsedOrderView, schema: SchemaView) -> Checked<BoundOrderView> {
    match set_place(order.expr, schema.fields) {
        Err(x) => Err(x),
        Ok(k) => if k >= schema.fields.len() {
            Err(error_at("42P10"@, "ORDER BY position "@ + decimal((k + 1) as nat) + " is not in select list"@, order.expr.position))
        } else {
            Ok(
                BoundOrderView {
                    column_index: k,
                    expression: None,
                    data_type: schema.fields[k as int].data_type,
                    ascending: order.ascending,
                    nulls_first: order.nulls_first,
                },
            )
        },
    }
}

/// Binds a sort key of a set operation.
pub fn bind_set_order(order: &ParsedOrder, schema: &Schema) -> (r: Result<BoundOrder>)
    ensures
        order_result(r) == set_order(order@, schema@),
{
    proof {
        order.unfold();
        order.expr.unfold();
    }
    let k = find_set_place(&order.expr, &schema.fields)?;
    if k >= schema.fields.len() {
        let n: u64 = (k as u64) + 1;
        return Err(
            DbError::at(
                "42P10",
                text3("ORDER BY position ", decimal_text(n).as_str(), " is not in select list"),
                order.expr.position,
            ),
        );
    }
    assert(schema@.fields[k as int] == schema.fields@[k as int]@);
    Ok(
        BoundOrder {
            column_index: k,
            expression: None,
            data_type: schema.fields[k].data_type.clone(),
            ascending: order.ascending,
            nulls_first: order.nulls_first,
        },
    )
}

} // verus!
