//! The parts of queries that bind without looking at other queries.

use vstd::prelude::*;

use crate::binding::{bind_some_boolean, bind_some_expr, bound_some, predicate_some, some_view, table_scope};
use crate::bound::{BoundOrder, BoundOrderView, BoundProjection, BoundProjectionView, BoundStatement, BoundStatementView};
use crate::catalog::{Catalog, CatalogView, TableDefinition, TableDefinitionView, ViewDefinition, ViewDefinitionView, ViewKind};
use crate::dependencies::{bound_statement_references, with_references};
use crate::indexes::{bound_result, make_bound_statement};
use crate::names::{no_schema, no_such_schema, split_name, split_table_name};
use crate::ordering::{bind_set_order, bind_simple_order, field_named, find_field_named, set_order, simple_order};
use crate::scope::{no_column, no_such_column, Checked};
use crate::select_list::{bind_table_items, make_schema, make_slot, schema_of, slot_column, table_items};
use crate::subquery::{bound_query_schema, query_schema};
use crate::syntax::{
    ParsedExpr, ParsedExprKind, ParsedExprKindView, ParsedExprView, ParsedIdentifier, ParsedIdentifierView, ParsedObjectName,
    ParsedObjectNameView, ParsedOrder, ParsedOrderView, ParsedProjection, ParsedProjectionView, QuerySetOperator,
};
use crate::text::{text, text3, text5};
use crate::transient::{rename_fields, renamed_fields};
use crate::types::{
    described, error, error_at, internal_error, unsupported_at, unsupported_error, DATATYPE_MISMATCH, DbError, DbErrorView, Field,
    FieldView, Identifier, Result, SYNTAX_ERROR, ScalarType, ScalarTypeView, Schema, SchemaView, ViewId,
};
use crate::typing::{common, common_type};

verus! {

/// The sort keys of a query on one table, from a position on.
pub open spec fn simple_orders(
    l: Seq<ParsedOrderView>,
    projection: Seq<BoundProjectionView>,
    table: TableDefinitionView,
    i: int,
    done: Seq<BoundOrderView>,
) -> Checked<Seq<BoundOrderView>>
    decreases l.len() - i,
{
    if i < 0 || i >= l.len() {
        Ok(done)
    } else {
        match simple_order(l[i], projection, table) {
            Err(x) => Err(x),
            Ok(b) => simple_orders(l, projection, table, i + 1, done.push(b)),
        }
    }
}

fn bind_simple_orders(l: &Vec<ParsedOrder>, projection: &Vec<BoundProjection>, table: &TableDefinition) -> (r: Result<Vec<BoundOrder>>)
    ensures
        (match r {
            Ok(l) => Ok(BoundOrder::views(l@)),
            Err(e) => Err(e@),
        }) == simple_orders(ParsedOrder::views(l@), BoundProjection::views(projection@), table@, 0, Seq::empty()),
{
    let ghost v = ParsedOrder::views(l@);
    let mut out: Vec<BoundOrder> = Vec::new();
    assert(BoundOrder::views(out@) =~= Seq::empty());
    for i in 0..l.len()
        invariant
            v == ParsedOrder::views(l@),
            simple_orders(v, BoundProjection::views(projection@), table@, 0, Seq::empty()) == simple_orders(
                v,
                BoundProjection::views(projection@),
                table@,
                i as int,
                BoundOrder::views(out@),
            ),
    {
        assert(v[i as int] == l@[i as int]@);
        let x = bind_simple_order(&l[i], projection, table)?;
        let ghost before = BoundOrder::views(out@);
        out.push(x);
        assert(BoundOrder::views(out@) =~= before.push(x@));
    }
    Ok(out)
}

/// The bound form of a query on one table.
#[verifier::opaque]
pub open spec fn table_select(
    table: TableDefinitionView,
    projection: Seq<ParsedProjectionView>,
    filter: Option<ParsedExprView>,
    order_by: Seq<ParsedOrderView>,
    offset: Option<ParsedExprView>,
    limit: Option<ParsedExprView>,
) -> Checked<BoundStatementView> {
    match table_items(projection, table, false, 0, Seq::empty()) {
        Err(x) => Err(x),
        Ok(projection) => if projection.len() == 0 {
            Err(error(SYNTAX_ERROR@, "SELECT projection is empty"@))
        } else {
            match predicate_some(filter, table_scope(Some(table))) {
                Err(x) => Err(x),
                Ok(filter) => match simple_orders(order_by, projection, table, 0, Seq::empty()) {
                    Err(x) => Err(x),
                    Ok(order_by) => match bound_some(limit, table_scope(Some(table)), Some(ScalarTypeView::Int64)) {
                        Err(x) => Err(x),
                        Ok(limit) => match bound_some(offset, table_scope(Some(table)), Some(ScalarTypeView::Int64)) {
                            Err(x) => Err(x),
                            Ok(offset) => Ok(
                                BoundStatementView::Select {
                                    table_id: table.id,
                                    schema: schema_of(projection),
                                    projection,
                                    filter,
                                    order_by,
                                    offset,
                                    limit,
                                },
                            ),
                        },
                    },
                },
            }
        },
    }
}

/// Binds a query on one table.
pub fn bind_table_select(
    table: &TableDefinition,
    projection: &Vec<ParsedProjection>,
    filter: &Option<ParsedExpr>,
    order_by: &Vec<ParsedOrder>,
    offset: &Option<ParsedExpr>,
    limit: &Option<ParsedExpr>,
) -> (r: Result<BoundStatement>)
    ensures
        bound_result(r) == table_select(
            table@,
            ParsedProjection::views(projection@),
            some_view(*filter),
            ParsedOrder::views(order_by@),
            some_view(*offset),
            some_view(*limit),
        ),
{
    reveal(table_select);
    let projection = bind_table_items(projection, table, false)?;
    if projection.len() == 0 {
        return Err(DbError::new(SYNTAX_ERROR, text("SELECT projection is empty")));
    }
    let filter = bind_some_boolean(filter, table)?;
    let order_by = bind_simple_orders(order_by, &projection, table)?;
    let limit = bind_some_expr(limit, Some(table), Some(&ScalarType::Int64))?;
    let offset = bind_some_expr(offset, Some(table), Some(&ScalarType::Int64))?;
    Ok(
        make_bound_statement(
            BoundStatement::Select {
                table_id: table.id,
                schema: make_schema(&projection),
                projection,
                filter,
                order_by,
                offset,
                limit,
            },
        ),
    )
}

/// The output columns of a materialized view.
pub open spec fn stored_columns(fields: Seq<FieldView>) -> Seq<BoundProjectionView> {
    Seq::new(fields.len(), |i: int| slot_column(fields[i].name, i as usize, fields[i].data_type, fields[i].nullable))
}

/// The query that reads a materialized view.
#[verifier::opaque]
pub open spec fn materialized_source(view: ViewDefinitionView) -> Checked<BoundStatementView> {
    if !view.populated {
        Err(
            DbErrorView {
                hint: Some("run REFRESH MATERIALIZED VIEW before querying it"@),
                ..error("55000"@, "materialized view "@ + view.name + " has not been populated"@)
            },
        )
    } else {
        match view.materialized_table_id {
            None => Err(internal_error("materialized view is missing its backing table"@)),
            Some(table_id) => Ok(
                BoundStatementView::Select {
                    table_id,
                    schema: view.output,
                    projection: stored_columns(view.output.fields),
                    filter: None,
                    order_by: Seq::empty(),
                    offset: None,
                    limit: None,
                },
            ),
        }
    }
}

/// Makes the query that reads a materialized view.
pub fn make_materialized_source(view: &ViewDefinition) -> (r: Result<BoundStatement>)
    ensures
        bound_result(r) == materialized_source(view@),
{
    reveal(materialized_source);
    if !view.populated {
        return Err(
            DbError::new("55000", text3("materialized view ", view.name.as_str(), " has not been populated")).with_hint(
                "run REFRESH MATERIALIZED VIEW before querying it",
            ),
        );
    }
    let table_id = match view.materialized_table_id {
        Some(id) => id,
        None => {
            return Err(DbError::internal("materialized view is missing its backing table"));
        },
    };
    let ghost f = Field::views(view.output.fields@);
    let mut projection: Vec<BoundProjection> = Vec::new();
    for i in 0..view.output.fields.len()
        invariant
            f == Field::views(view.output.fields@),
            projection.len() == i,
            forall|k: int| 0 <= k < i ==> projection@[k]@ == #[trigger] stored_columns(f)[k],
    {
        assert(f[i as int] == view.output.fields@[i as int]@);
        let x = &view.output.fields[i];
        projection.push(make_slot(x.name.as_str(), i, &x.data_type, x.nullable));
    }
    assert(BoundProjection::views(projection@) =~= stored_columns(f));
    let order_by: Vec<BoundOrder> = Vec::new();
    assert(BoundOrder::views(order_by@) =~= Seq::empty());
    Ok(
        make_bound_statement(
            BoundStatement::Select {
                table_id,
                schema: view.output.clone(),
                projection,
                filter: None,
                order_by,
                offset: None,
                limit: None,
            },
        ),
    )
}

/// Whether fields have the types of other fields, from a position on.
pub open spec fn same_types(a: Seq<FieldView>, b: Seq<FieldView>, i: int) -> bool
    decreases a.len() - i,
{
    i < 0 || i >= a.len() || i >= b.len() || (a[i].data_type == b[i].data_type && same_types(a, b, i + 1))
}

fn have_same_types(a: &Vec<Field>, b: &Vec<Field>) -> (r: bool)
    requires
        a.len() == b.len(),
    ensures
        r == same_types(Field::views(a@), Field::views(b@), 0),
{
    let ghost v = Field::views(a@);
    let ghost w = Field::views(b@);
    for i in 0..a.len()
        invariant
            a.len() == b.len(),
            v == Field::views(a@),
            w == Field::views(b@),
            same_types(v, w, 0) == same_types(v, w, i as int),
    {
        assert(v[i as int] == a@[i as int]@);
        assert(w[i as int] == b@[i as int]@);
        if !a[i].data_type.same(&b[i].data_type) {
            return false;
        }
    }
    true
}

/// A bound view query, where its output still is that of the view.
#[verifier::opaque]
pub open spec fn fitting_source(view: ViewDefinitionView, source: BoundStatementView) -> Checked<BoundStatementView> {
    match query_schema(source) {
        Err(x) => Err(x),
        Ok(schema) => if schema.fields.len() != view.output.fields.len() || !same_types(schema.fields, view.output.fields, 0) {
            Err(error("42P16"@, "stored view query output no longer matches its catalog definition"@))
        } else {
            Ok(source)
        },
    }
}

/// Checks that the output of a bound view query still is that of the view.
pub fn check_source(view: &ViewDefinition, source: BoundStatement) -> (r: Result<BoundStatement>)
    ensures
        bound_result(r) == fitting_source(view@, source@),
{
    reveal(fitting_source);
    let schema = bound_query_schema(&source)?;
    if schema.fields.len() != view.output.fields.len() || !have_same_types(&schema.fields, &view.output.fields) {
        return Err(DbError::new("42P16", text("stored view query output no longer matches its catalog definition")));
    }
    Ok(source)
}

/// Whether a query on a view asks only for columns.
pub open spec fn view_query_plain(
    filter: Option<ParsedExprView>,
    order_by: Seq<ParsedOrderView>,
    offset: Option<ParsedExprView>,
    limit: Option<ParsedExprView>,
) -> Checked<()> {
    if filter is Some || order_by.len() > 0 || offset is Some || limit is Some {
        Err(unsupported_error("WHERE, ORDER BY, OFFSET, and LIMIT on views are not supported in this milestone"@, None))
    } else {
        Ok(())
    }
}

/// The positions and the fields of the columns of a view that a select list names,
/// from an item on.
pub open spec fn view_items(
    l: Seq<ParsedProjectionView>,
    fields: Seq<FieldView>,
    i: int,
    positions: Seq<usize>,
    done: Seq<FieldView>,
) -> Checked<(Seq<usize>, Seq<FieldView>)>
    decreases l.len() - i,
{
    if i < 0 || i >= l.len() {
        Ok((positions, done))
    } else {
        match l[i] {
            ParsedProjectionView::Wildcard => view_items(
                l,
                fields,
                i + 1,
                positions + Seq::new(fields.len(), |k: int| k as usize),
                done + fields,
            ),
            ParsedProjectionView::Expression { expr, alias } => match expr.kind {
                ParsedExprKindView::Column(name) => if name.parts.len() == 0 {
                    Err(error(SYNTAX_ERROR@, "view column reference is empty"@))
                } else {
                    match field_named(fields, name.parts.last().name, 0) {
                        None => Err(no_column(name.parts.last().name, name.parts.last().position)),
                        Some(k) => view_items(
                            l,
                            fields,
                            i + 1,
                            positions.push(k),
                            done.push(
                                FieldView {
                                    name: match alias {
                                        Some(a) => a.name,
                                        None => fields[k as int].name,
                                    },
                                    ..fields[k as int]
                                },
                            ),
                        ),
                    }
                },
                _ => Err(unsupported_error("view projection supports columns and wildcard only"@, expr.position)),
            },
        }
    }
}

fn all_positions(n: usize, positions: Vec<usize>) -> (r: Vec<usize>)
    ensures
        r@ == positions@ + Seq::new(n as nat, |k: int| k as usize),
{
    let mut out: Vec<usize> = positions;
    for i in 0..n
        invariant
            out@ == positions@ + Seq::new(i as nat, |k: int| k as usize),
    {
        out.push(i);
        assert(out@ =~= positions@ + Seq::new((i + 1) as nat, |k: int| k as usize));
    }
    assert(out@ =~= positions@ + Seq::new(n as nat, |k: int| k as usize));
    out
}

fn all_fields(fields: &Vec<Field>, done: Vec<Field>) -> (r: Vec<Field>)
    ensures
        Field::views(r@) == Field::views(done@) + Field::views(fields@),
{
    let mut out: Vec<Field> = done;
    for i in 0..fields.len()
        invariant
            Field::views(out@) == Field::views(done@) + Field::views(fields@).take(i as int),
    {
        let x = fields[i].clone();
        let ghost before = Field::views(out@);
        out.push(x);
        assert(Field::views(out@) =~= before.push(x@));
        assert(Field::views(out@) =~= Field::views(done@) + Field::views(fields@).take(i + 1));
    }
    assert(Field::views(fields@).take(fields@.len() as int) =~= Field::views(fields@));
    out
}

fn find_view_items(l: &Vec<ParsedProjection>, fields: &Vec<Field>) -> (r: Result<(Vec<usize>, Vec<Field>)>)
    ensures
        (match r {
            Ok(p) => Ok((p.0@, Field::views(p.1@))),
            Err(e) => Err(e@),
        }) == view_items(ParsedProjection::views(l@), Field::views(fields@), 0, Seq::empty(), Seq::empty()),
{
    let ghost v = ParsedProjection::views(l@);
    let ghost f = Field::views(fields@);
    let ghost whole = view_items(v, f, 0, Seq::empty(), Seq::empty());
    let mut positions: Vec<usize> = Vec::new();
    let mut done: Vec<Field> = Vec::new();
    assert(positions@ =~= Seq::empty());
    assert(Field::views(done@) =~= Seq::empty());
    for i in 0..l.len()
        invariant
            v == ParsedProjection::views(l@),
            f == Field::views(fields@),
            whole == view_items(v, f, 0, Seq::empty(), Seq::empty()),
            whole == view_items(v, f, i as int, positions@, Field::views(done@)),
    {
        assert(v[i as int] == l@[i as int]@);
        proof {
            l@[i as int].unfold();
        }
        match &l[i] {
            ParsedProjection::Wildcard => {
                positions = all_positions(fields.len(), positions);
                done = all_fields(fields, done);
            },
            ParsedProjection::Expression { expr, alias } => {
                proof {
                    expr.unfold();
                }
                match &expr.kind {
                    ParsedExprKind::Column(name) => {
                        let n: usize = name.parts.len();
                        if n == 0 {
                            return Err(DbError::new(SYNTAX_ERROR, text("view column reference is empty")));
                        }
                        assert(name@.parts[n - 1] == name.parts@[n - 1]@);
                        let part = &name.parts[n - 1];
                        match find_field_named(fields, &part.name, 0) {
                            None => {
                                return Err(no_such_column(&part.name, part.position));
                            },
                            Some(k) => {
                                assert(f[k as int] == fields@[k as int]@);
                                let mut x = fields[k].clone();
                                if let Some(a) = alias {
                                    x.name = text(a.name.as_str());
                                }
                                let ghost before = Field::views(done@);
                                positions.push(k);
                                done.push(x);
                                assert(Field::views(done@) =~= before.push(x@));
                            },
                        }
                    },
                    _ => {
                        return Err(unsupported_at("view projection supports columns and wildcard only", expr.position));
                    },
                }
            },
        }
    }
    Ok((positions, done))
}

/// The bound form of a query on a view whose own query is bound.
#[verifier::opaque]
pub open spec fn view_select(
    view: ViewDefinitionView,
    projection: Seq<ParsedProjectionView>,
    source: BoundStatementView,
) -> Checked<BoundStatementView> {
    match query_schema(source) {
        Err(x) => Err(x),
        Ok(schema) => if schema.fields.len() != view.output.fields.len() {
            Err(error("42P16"@, "stored view query output no longer matches its catalog definition"@))
        } else {
            match view_items(projection, view.output.fields, 0, Seq::empty(), Seq::empty()) {
                Err(x) => Err(x),
                Ok((positions, fields)) => if fields.len() == 0 {
                    Err(error(SYNTAX_ERROR@, "SELECT projection is empty"@))
                } else {
                    Ok(
                        BoundStatementView::ViewSelect {
                            view_id: view.id,
                            source: Box::new(source),
                            schema: SchemaView { fields },
                            projection: positions,
                        },
                    )
                },
            }
        },
    }
}

/// Binds a query on a view whose own query is bound.
pub fn make_view_select(view: &ViewDefinition, projection: &Vec<ParsedProjection>, source: BoundStatement) -> (r: Result<BoundStatement>)
    ensures
        bound_result(r) == view_select(view@, ParsedProjection::views(projection@), source@),
{
    reveal(view_select);
    let schema = bound_query_schema(&source)?;
    if schema.fields.len() != view.output.fields.len() {
        return Err(DbError::new("42P16", text("stored view query output no longer matches its catalog definition")));
    }
    let (positions, fields) = find_view_items(projection, &view.output.fields)?;
    assert(Field::views(fields@).len() == fields@.len());
    if fields.len() == 0 {
        return Err(DbError::new(SYNTAX_ERROR, text("SELECT projection is empty")));
    }
    Ok(
        make_bound_statement(
            BoundStatement::ViewSelect {
                view_id: view.id,
                source: Box::new(source),
                schema: Schema::new(fields),
                projection: positions,
            },
        ),
    )
}

/// The output of a set operation, from a column on.
pub open spec fn set_fields(left: Seq<FieldView>, right: Seq<FieldView>, i: int, done: Seq<FieldView>) -> Checked<Seq<FieldView>>
    decreases left.len() - i,
{
    if i < 0 || i >= left.len() || i >= right.len() {
        Ok(done)
    } else {
        match common(left[i].data_type, right[i].data_type) {
            None => Err(
                error(
                    DATATYPE_MISMATCH@,
                    "set-operation types "@ + described(left[i].data_type) + " and "@ + described(right[i].data_type)
                        + " cannot be matched"@,
                ),
            ),
            Some(t) => set_fields(
                left,
                right,
                i + 1,
                done.push(FieldView { name: left[i].name, data_type: t, nullable: left[i].nullable || right[i].nullable }),
            ),
        }
    }
}

fn make_set_fields(left: &Vec<Field>, right: &Vec<Field>) -> (r: Result<Vec<Field>>)
    requires
        left.len() == right.len(),
    ensures
        (match r {
            Ok(x) => Ok(Field::views(x@)),
            Err(x) => Err(x@),
        }) == set_fields(Field::views(left@), Field::views(right@), 0, Seq::empty()),
{
    let ghost v = Field::views(left@);
    let ghost w = Field::views(right@);
    let mut out: Vec<Field> = Vec::new();
    assert(Field::views(out@) =~= Seq::empty());
    for i in 0..left.len()
        invariant
            left.len() == right.len(),
            v == Field::views(left@),
            w == Field::views(right@),
            set_fields(v, w, 0, Seq::empty()) == set_fields(v, w, i as int, Field::views(out@)),
    {
        assert(v[i as int] == left@[i as int]@);
        assert(w[i as int] == right@[i as int]@);
        let a = &left[i].data_type;
        let b = &right[i].data_type;
        match common_type(a, b) {
            None => {
                return Err(
                    DbError::new(
                        DATATYPE_MISMATCH,
                        text5("set-operation types ", a.describe().as_str(), " and ", b.describe().as_str(), " cannot be matched"),
                    ),
                );
            },
            Some(t) => {
                let x = Field { name: left[i].name.clone(), data_type: t, nullable: left[i].nullable || right[i].nullable };
                let ghost before = Field::views(out@);
                out.push(x);
                assert(Field::views(out@) =~= before.push(x@));
            },
        }
    }
    Ok(out)
}

/// Whether one of the fields is of type json, from a position on.
pub open spec fn any_json_field(l: Seq<FieldView>, i: int) -> bool
    decreases l.len() - i,
{
    0 <= i < l.len() && (l[i].data_type is Json || any_json_field(l, i + 1))
}

/// Decides whether one of the fields is of type json.
fn has_json_field(l: &Vec<Field>) -> (r: bool)
    ensures
        r == any_json_field(Field::views(l@), 0),
{
    let ghost v = Field::views(l@);
    for i in 0..l.len()
        invariant
            v == Field::views(l@),
            any_json_field(v, 0) == any_json_field(v, i as int),
    {
        assert(v[i as int] == l@[i as int]@);
        if matches!(l[i].data_type, ScalarType::Json) {
            return true;
        }
    }
    false
}

/// The sort keys of a set operation, from a position on.
pub open spec fn set_orders(l: Seq<ParsedOrderView>, schema: SchemaView, i: int, done: Seq<BoundOrderView>) -> Checked<Seq<BoundOrderView>>
    decreases l.len() - i,
{
    if i < 0 || i >= l.len() {
        Ok(done)
    } else {
        match set_order(l[i], schema) {
            Err(x) => Err(x),
            Ok(b) => set_orders(l, schema, i + 1, done.push(b)),
        }
    }
}

fn bind_set_orders(l: &Vec<ParsedOrder>, schema: &Schema) -> (r: Result<Vec<BoundOrder>>)
    ensures
        (match r {
            Ok(l) => Ok(BoundOrder::views(l@)),
            Err(e) => Err(e@),
        }) == set_orders(ParsedOrder::views(l@), schema@, 0, Seq::empty()),
{
    let ghost v = ParsedOrder::views(l@);
    let mut out: Vec<BoundOrder> = Vec::new();
    assert(BoundOrder::views(out@) =~= Seq::empty());
    for i in 0..l.len()
        invariant
            v == ParsedOrder::views(l@),
            set_orders(v, schema@, 0, Seq::empty()) == set_orders(v, schema@, i as int, BoundOrder::views(out@)),
    {
        assert(v[i as int] == l@[i as int]@);
        let x = bind_set_order(&l[i], schema)?;
        let ghost before = BoundOrder::views(out@);
        out.push(x);
        assert(BoundOrder::views(out@) =~= before.push(x@));
    }
    Ok(out)
}

/// The output of a set operation.
pub open spec fn set_schema(
    left: BoundStatementView,
    right: BoundStatementView,
    operator: QuerySetOperator,
    all: bool,
) -> Checked<SchemaView> {
    match query_schema(left) {
        Err(x) => Err(x),
        Ok(a) => match query_schema(right) {
            Err(x) => Err(x),
            Ok(b) => if a.fields.len() != b.fields.len() {
                Err(error(SYNTAX_ERROR@, "each set-operation query must have the same number of columns"@))
            } else {
                match set_fields(a.fields, b.fields, 0, Seq::empty()) {
                    Err(x) => Err(x),
                    Ok(fields) => if !(operator == QuerySetOperator::Union && all) && any_json_field(fields, 0) {
                        Err(error("42883"@, "could not identify an equality operator for type json"@))
                    } else {
                        Ok(SchemaView { fields })
                    },
                }
            },
        },
    }
}

fn make_set_schema(left: &BoundStatement, right: &BoundStatement, operator: QuerySetOperator, all: bool) -> (r: Result<Schema>)
    ensures
        (match r {
            Ok(s) => Ok(s@),
            Err(e) => Err(e@),
        }) == set_schema(left@, right@, operator, all),
{
    let a = bound_query_schema(left)?;
    let b = bound_query_schema(right)?;
    if a.fields.len() != b.fields.len() {
        return Err(DbError::new(SYNTAX_ERROR, text("each set-operation query must have the same number of columns")));
    }
    let fields = make_set_fields(&a.fields, &b.fields)?;
    if !(operator == QuerySetOperator::Union && all) && has_json_field(&fields) {
        return Err(DbError::new("42883", text("could not identify an equality operator for type json")));
    }
    Ok(Schema::new(fields))
}

/// The bound form of a set operation whose operands are bound.
#[verifier::opaque]
pub open spec fn set_of(
    left: BoundStatementView,
    operator: QuerySetOperator,
    all: bool,
    right: BoundStatementView,
    order_by: Seq<ParsedOrderView>,
    offset: Option<ParsedExprView>,
    limit: Option<ParsedExprView>,
) -> Checked<BoundStatementView> {
    match set_schema(left, right, operator, all) {
        Err(x) => Err(x),
        Ok(schema) => match set_orders(order_by, schema, 0, Seq::empty()) {
            Err(x) => Err(x),
            Ok(order_by) => match bound_some(offset, table_scope(None), Some(ScalarTypeView::Int64)) {
                Err(x) => Err(x),
                Ok(offset) => match bound_some(limit, table_scope(None), Some(ScalarTypeView::Int64)) {
                    Err(x) => Err(x),
                    Ok(limit) => Ok(
                        BoundStatementView::SetOperation {
                            left: Box::new(left),
                            operator,
                            all,
                            right: Box::new(right),
                            schema,
                            order_by,
                            offset,
                            limit,
                        },
                    ),
                },
            },
        },
    }
}

/// Binds a set operation whose operands are bound.
pub fn make_set_operation(
    left: BoundStatement,
    operator: QuerySetOperator,
    all: bool,
    right: BoundStatement,
    order_by: &Vec<ParsedOrder>,
    offset: &Option<ParsedExpr>,
    limit: &Option<ParsedExpr>,
) -> (r: Result<BoundStatement>)
    ensures
        bound_result(r) == set_of(
            left@,
            operator,
            all,
            right@,
            ParsedOrder::views(order_by@),
            some_view(*offset),
            some_view(*limit),
        ),
{
    reveal(set_of);
    let schema = make_set_schema(&left, &right, operator, all)?;
    let order_by = bind_set_orders(order_by, &schema)?;
    let offset = bind_some_expr(offset, None, Some(&ScalarType::Int64))?;
    let limit = bind_some_expr(limit, None, Some(&ScalarType::Int64))?;
    Ok(
        make_bound_statement(
            BoundStatement::SetOperation {
                left: Box::new(left),
                operator,
                all,
                right: Box::new(right),
                schema,
                order_by,
                offset,
                limit,
            },
        ),
    )
}

/// How a view kind is called in a command tag.
pub open spec fn view_kind_label(kind: ViewKind) -> Seq<char> {
    match kind {
        ViewKind::Regular => "VIEW"@,
        ViewKind::Materialized => "MATERIALIZED VIEW"@,
    }
}

/// How a view kind is called in a command tag.
pub fn view_label(kind: ViewKind) -> (r: &'static str)
    ensures
        r@ == view_kind_label(kind),
{
    match kind {
        ViewKind::Regular => "VIEW",
        ViewKind::Materialized => "MATERIALIZED VIEW",
    }
}

/// Where a new view goes.
pub struct ViewPlace {
    pub schema: Identifier,
    pub name: Identifier,
    pub existing: Option<ViewId>,
}

/// Mathematical contents of a [`ViewPlace`].
pub struct ViewPlaceView {
    pub schema: Seq<char>,
    pub name: Seq<char>,
    pub existing: Option<ViewId>,
}

impl ViewPlace {
    /// The value as mathematical data.
    pub open spec fn view(&self) -> ViewPlaceView {
        ViewPlaceView { schema: self.schema@, name: self.name@, existing: self.existing }
    }
}

/// Where a new view goes; nothing where it exists and need not be created.
#[verifier::opaque]
pub open spec fn view_place(
    name: ParsedObjectNameView,
    replace: bool,
    if_not_exists: bool,
    catalog: CatalogView,
) -> Checked<Option<ViewPlaceView>> {
    match split_name(name) {
        Err(x) => Err(x),
        Ok(n) => if catalog.schema(n.schema) is None {
            Err(no_schema(n.schema, n.position))
        } else {
            let existing = catalog.view_of(n.schema, n.name);
            if existing is Some && !replace {
                if if_not_exists {
                    Ok(None)
                } else {
                    Err(error_at("42P07"@, "relation "@ + n.schema + "."@ + n.name + " already exists"@, n.position))
                }
            } else {
                Ok(
                    Some(
                        ViewPlaceView {
                            schema: n.schema,
                            name: n.name,
                            existing: match existing {
                                Some(v) => Some(v.id),
                                None => None,
                            },
                        },
                    ),
                )
            }
        },
    }
}

/// Finds where a new view goes.
pub fn find_view_place(name: &ParsedObjectName, replace: bool, if_not_exists: bool, catalog: &Catalog) -> (r: Result<Option<ViewPlace>>)
    ensures
        (match r {
            Ok(Some(p)) => Ok(Some(p@)),
            Ok(None) => Ok(None),
            Err(e) => Err(e@),
        }) == view_place(name@, replace, if_not_exists, catalog@),
{
    reveal(view_place);
    let (schema, name, position) = split_table_name(name)?;
    if catalog.schema(&schema).is_none() {
        return Err(no_such_schema(&schema, position));
    }
    let existing = match catalog.view_named(&schema, &name) {
        Some(v) => Some(v.id),
        None => None,
    };
    if existing.is_some() && !replace {
        if if_not_exists {
            return Ok(None);
        }
        return Err(DbError::at("42P07", text5("relation ", schema.as_str(), ".", name.as_str(), " already exists"), position));
    }
    Ok(Some(ViewPlace { schema, name, existing }))
}

/// The bound form of CREATE VIEW whose query is bound.
#[verifier::opaque]
pub open spec fn new_view(
    place: ViewPlaceView,
    kind: ViewKind,
    query: BoundStatementView,
    query_sql: Seq<char>,
    columns: Seq<ParsedIdentifierView>,
    replace: bool,
    if_not_exists: bool,
    with_data: bool,
) -> Checked<BoundStatementView> {
    match query_schema(query) {
        Err(x) => Err(x),
        Ok(schema) => if columns.len() > 0 && columns.len() != schema.fields.len() {
            Err(error("42601"@, "view column list does not match query output"@))
        } else {
            Ok(
                BoundStatementView::CreateView {
                    schema: place.schema,
                    name: place.name,
                    kind,
                    query: Box::new(query),
                    query_sql,
                    output: if columns.len() > 0 {
                        SchemaView { fields: renamed_fields(schema.fields, columns) }
                    } else {
                        schema
                    },
                    references: with_references(query, Seq::empty()),
                    replace,
                    if_not_exists,
                    with_data,
                    existing: place.existing,
                },
            )
        },
    }
}

/// Binds CREATE VIEW whose query is bound.
pub fn make_new_view(
    place: ViewPlace,
    kind: ViewKind,
    query: BoundStatement,
    query_sql: &str,
    columns: &Vec<ParsedIdentifier>,
    replace: bool,
    if_not_exists: bool,
    with_data: bool,
) -> (r: Result<BoundStatement>)
    ensures
        bound_result(r) == new_view(
            place@,
            kind,
            query@,
            query_sql@,
            ParsedIdentifier::views(columns@),
            replace,
            if_not_exists,
            with_data,
        ),
{
    reveal(new_view);
    let schema = bound_query_schema(&query)?;
    if columns.len() > 0 && columns.len() != schema.fields.len() {
        return Err(DbError::new("42601", text("view column list does not match query output")));
    }
    let output = if columns.len() > 0 {
        Schema::new(rename_fields(&schema.fields, columns))
    } else {
        schema
    };
    let references = bound_statement_references(&query);
    Ok(
        make_bound_statement(
            BoundStatement::CreateView {
                schema: place.schema,
                name: place.name,
                kind,
                query: Box::new(query),
                query_sql: text(query_sql),
                output,
                references,
                replace,
                if_not_exists,
                with_data,
                existing: place.existing,
            },
        ),
    )
}

/// The output of a set operation has a column for each pair of columns: it has the name
/// of the left one and the type at which the two meet, and may be null where one may be.
pub proof fn lemma_set_fields(left: Seq<FieldView>, right: Seq<FieldView>, i: int, done: Seq<FieldView>)
    requires
        left.len() == right.len(),
        0 <= i <= left.len(),
        done.len() == i,
        forall|j: int| 0 <= j < done.len() ==> met(left[j], right[j], #[trigger] done[j]),
    ensures
        set_fields(left, right, i, done) matches Ok(f) ==> f.len() == left.len() && (forall|j: int|
            0 <= j < f.len() ==> met(left[j], right[j], #[trigger] f[j])),
    decreases left.len() - i,
{
    if i < left.len() {
        if let Some(t) = common(left[i].data_type, right[i].data_type) {
            let field = FieldView { name: left[i].name, data_type: t, nullable: left[i].nullable || right[i].nullable };
            lemma_set_fields(left, right, i + 1, done.push(field));
        }
    }
}

/// Whether a column is what two columns meet at.
pub open spec fn met(left: FieldView, right: FieldView, out: FieldView) -> bool {
    &&& out.name == left.name
    &&& common(left.data_type, right.data_type) == Some(out.data_type)
    &&& out.nullable == (left.nullable || right.nullable)
}

} // verus!
