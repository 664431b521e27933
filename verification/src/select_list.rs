//! Select lists and the clauses that are bound after them.

use vstd::prelude::*;

use crate::binding::{
    bind_each, bind_expr, bind_expr_multi, bind_some, bind_some_multi_boolean, bound_form, bound_list, bound_some, bound_view, input_scope,
    make_bound, predicate_some, some_view, table_scope, Expectation,
};
use crate::bound::{
    BoundExpr, BoundExprKind, BoundExprKindView, BoundExprView, BoundOrder, BoundOrderView, BoundProjection, BoundProjectionView,
    BoundReturning, BoundReturningView, BoundWindow, BoundWindowView,
};
use crate::catalog::{ColumnDefinition, ColumnDefinitionView, TableDefinition, TableDefinitionView};
use crate::grouping::{
    aggregated, any_output_aggregated, any_window_aggregated, base_outputs, bound_expr_has_aggregate, bound_expr_has_window_slot,
    bound_option_has_aggregate, check_result, grouped, projections_have_aggregate, reads_window, remap_grouped_window_inputs,
    validate_grouped_expr, window_of, window_ordinal_for_expr, windows_have_aggregate, windows_regrouped,
};
use crate::names::{label_of, projection_label};
use crate::ordering::{
    bind_distinct_order, bind_multi_order, bind_projected_order, distinct_order, multi_order, order_result, projected_order,
};
use crate::predicates::{any_holds_window, exprs_have_window, holds_subquery, holds_window, some_has_subquery, some_has_window};
use crate::scope::{Checked, InputColumn, InputColumnView, Scope};
use crate::syntax::{
    ParsedExpr, ParsedExprView, ParsedIdentifier, ParsedIdentifierView, ParsedOrder, ParsedOrderView, ParsedProjection,
    ParsedProjectionView,
};
use crate::text::text;
use crate::types::{
    error, unsupported, unsupported_error, DbError, Field, FieldView, Result, SYNTAX_ERROR, ScalarType, ScalarTypeView, Schema, SchemaView,
};
use crate::windows::{finalize_window_values, finalized, lower_window_expr, lowered};

verus! {

/// The output column of an expression.
pub open spec fn output_column(e: ParsedExprView, alias: Option<ParsedIdentifierView>, b: BoundExprView) -> BoundProjectionView {
    BoundProjectionView { expr: b, field: FieldView { name: label_of(e, alias), data_type: b.data_type, nullable: b.nullable } }
}

/// Makes the output column of an expression.
pub fn make_output(expr: &ParsedExpr, alias: &Option<ParsedIdentifier>, b: BoundExpr) -> (r: BoundProjection)
    ensures
        r@ == output_column(
            expr@,
            match *alias {
                Some(a) => Some(a@),
                None => None,
            },
            b@,
        ),
{
    proof {
        b.unfold();
    }
    let name = projection_label(expr, alias);
    let field = Field::new(name.as_str(), b.data_type.clone(), b.nullable);
    BoundProjection { expr: b, field }
}

/// The output column that repeats an input column.
pub open spec fn slot_column(name: Seq<char>, index: usize, data_type: ScalarTypeView, nullable: bool) -> BoundProjectionView {
    BoundProjectionView {
        expr: BoundExprView { kind: BoundExprKindView::Column { index }, data_type, nullable },
        field: FieldView { name, data_type, nullable },
    }
}

/// Makes the output column that repeats an input column.
pub fn make_slot(name: &str, index: usize, data_type: &ScalarType, nullable: bool) -> (r: BoundProjection)
    ensures
        r@ == slot_column(name@, index, data_type@, nullable),
{
    BoundProjection {
        expr: make_bound(BoundExprKind::Column { index }, data_type.clone(), nullable),
        field: Field::new(name, data_type.clone(), nullable),
    }
}

/// Output columns followed by the columns of a FROM clause, from a position on.
pub open spec fn with_inputs(l: Seq<InputColumnView>, i: int, done: Seq<BoundProjectionView>) -> Seq<BoundProjectionView>
    decreases l.len() - i,
{
    if i < 0 || i >= l.len() {
        done
    } else {
        with_inputs(l, i + 1, done.push(slot_column(l[i].name, l[i].index, l[i].data_type, l[i].nullable)))
    }
}

fn add_inputs(l: &Vec<InputColumn>, out: Vec<BoundProjection>) -> (r: Vec<BoundProjection>)
    ensures
        BoundProjection::views(r@) == with_inputs(InputColumn::views(l@), 0, BoundProjection::views(out@)),
{
    let ghost v = InputColumn::views(l@);
    let ghost whole = with_inputs(v, 0, BoundProjection::views(out@));
    let mut all: Vec<BoundProjection> = out;
    for i in 0..l.len()
        invariant
            v == InputColumn::views(l@),
            whole == with_inputs(v, i as int, BoundProjection::views(all@)),
    {
        assert(v[i as int] == l@[i as int]@);
        let x = make_slot(l[i].name.as_str(), l[i].index, &l[i].data_type, l[i].nullable);
        let ghost before = BoundProjection::views(all@);
        all.push(x);
        assert(BoundProjection::views(all@) =~= before.push(x@));
    }
    all
}

/// Output columns followed by the columns of a table, from a position on.
pub open spec fn with_table(l: Seq<ColumnDefinitionView>, i: int, done: Seq<BoundProjectionView>) -> Seq<BoundProjectionView>
    decreases l.len() - i,
{
    if i < 0 || i >= l.len() {
        done
    } else {
        with_table(l, i + 1, done.push(slot_column(l[i].name, i as usize, l[i].data_type, l[i].nullable)))
    }
}

fn add_table(l: &Vec<ColumnDefinition>, out: Vec<BoundProjection>) -> (r: Vec<BoundProjection>)
    ensures
        BoundProjection::views(r@) == with_table(ColumnDefinition::views(l@), 0, BoundProjection::views(out@)),
{
    let ghost v = ColumnDefinition::views(l@);
    let ghost whole = with_table(v, 0, BoundProjection::views(out@));
    let mut all: Vec<BoundProjection> = out;
    for i in 0..l.len()
        invariant
            v == ColumnDefinition::views(l@),
            whole == with_table(v, i as int, BoundProjection::views(all@)),
    {
        assert(v[i as int] == l@[i as int]@);
        let x = make_slot(l[i].name.as_str(), i, &l[i].data_type, l[i].nullable);
        let ghost before = BoundProjection::views(all@);
        all.push(x);
        assert(BoundProjection::views(all@) =~= before.push(x@));
    }
    all
}

/// The output columns of a select list over a FROM clause, from an item on.
pub open spec fn select_items(
    l: Seq<ParsedProjectionView>,
    local: Seq<InputColumnView>,
    inputs: Seq<InputColumnView>,
    i: int,
    done: Seq<BoundProjectionView>,
) -> Checked<Seq<BoundProjectionView>>
    decreases l.len() - i,
{
    if i < 0 || i >= l.len() {
        Ok(done)
    } else {
        match l[i] {
            ParsedProjectionView::Wildcard => select_items(l, local, inputs, i + 1, with_inputs(local, 0, done)),
            ParsedProjectionView::Expression { expr, alias } => match bound_form(expr, input_scope(inputs, true), None) {
                Err(x) => Err(x),
                Ok(b) => select_items(l, local, inputs, i + 1, done.push(output_column(expr, alias, b))),
            },
        }
    }
}

/// The contents of output columns or of an error.
pub open spec fn outputs_result(r: Result<Vec<BoundProjection>>) -> Checked<Seq<BoundProjectionView>> {
    match r {
        Ok(l) => Ok(BoundProjection::views(l@)),
        Err(e) => Err(e@),
    }
}

fn bind_select_items(l: &Vec<ParsedProjection>, local: &Vec<InputColumn>, inputs: &Vec<InputColumn>) -> (r: Result<Vec<BoundProjection>>)
    ensures
        outputs_result(r) == select_items(
            ParsedProjection::views(l@),
            InputColumn::views(local@),
            InputColumn::views(inputs@),
            0,
            Seq::empty(),
        ),
{
    let ghost v = ParsedProjection::views(l@);
    let ghost a = InputColumn::views(local@);
    let ghost b = InputColumn::views(inputs@);
    let mut out: Vec<BoundProjection> = Vec::new();
    assert(BoundProjection::views(out@) =~= Seq::empty());
    for i in 0..l.len()
        invariant
            v == ParsedProjection::views(l@),
            a == InputColumn::views(local@),
            b == InputColumn::views(inputs@),
            select_items(v, a, b, 0, Seq::empty()) == select_items(v, a, b, i as int, BoundProjection::views(out@)),
    {
        assert(v[i as int] == l@[i as int]@);
        proof {
            l@[i as int].unfold();
        }
        match &l[i] {
            ParsedProjection::Wildcard => {
                out = add_inputs(local, out);
            },
            ParsedProjection::Expression { expr, alias } => {
                let e = bind_expr_multi(expr, inputs, None, true)?;
                let x = make_output(expr, alias, e);
                let ghost before = BoundProjection::views(out@);
                out.push(x);
                assert(BoundProjection::views(out@) =~= before.push(x@));
            },
        }
    }
    Ok(out)
}

/// The output columns of a select list over one table, from an item on. In a
/// RETURNING list aggregates are refused.
pub open spec fn table_items(
    l: Seq<ParsedProjectionView>,
    table: TableDefinitionView,
    returning: bool,
    i: int,
    done: Seq<BoundProjectionView>,
) -> Checked<
    Seq<BoundProjectionView>,
>
    decreases l.len() - i,
{
    if i < 0 || i >= l.len() {
        Ok(done)
    } else {
        match l[i] {
            ParsedProjectionView::Wildcard => table_items(l, table, returning, i + 1, with_table(table.columns, 0, done)),
            ParsedProjectionView::Expression { expr, alias } => match bound_form(expr, table_scope(Some(table)), None) {
                Err(x) => Err(x),
                Ok(b) => if returning && aggregated(b) {
                    Err(error("42803"@, "aggregate functions are not allowed in RETURNING"@))
                } else {
                    table_items(l, table, returning, i + 1, done.push(output_column(expr, alias, b)))
                },
            },
        }
    }
}

/// Binds a select list over one table.
pub fn bind_table_items(l: &Vec<ParsedProjection>, table: &TableDefinition, returning: bool) -> (r: Result<Vec<BoundProjection>>)
    ensures
        outputs_result(r) == table_items(ParsedProjection::views(l@), table@, returning, 0, Seq::empty()),
{
    let ghost v = ParsedProjection::views(l@);
    let mut out: Vec<BoundProjection> = Vec::new();
    assert(BoundProjection::views(out@) =~= Seq::empty());
    for i in 0..l.len()
        invariant
            v == ParsedProjection::views(l@),
            table_items(v, table@, returning, 0, Seq::empty()) == table_items(v, table@, returning, i as int, BoundProjection::views(out@)),
    {
        assert(v[i as int] == l@[i as int]@);
        proof {
            l@[i as int].unfold();
        }
        match &l[i] {
            ParsedProjection::Wildcard => {
                out = add_table(&table.columns, out);
            },
            ParsedProjection::Expression { expr, alias } => {
                let e = bind_expr(expr, Some(table), None)?;
                if returning && bound_expr_has_aggregate(&e) {
                    return Err(DbError::new("42803", text("aggregate functions are not allowed in RETURNING")));
                }
                let x = make_output(expr, alias, e);
                let ghost before = BoundProjection::views(out@);
                out.push(x);
                assert(BoundProjection::views(out@) =~= before.push(x@));
            },
        }
    }
    Ok(out)
}

/// The fields of output columns.
pub open spec fn fields_of(l: Seq<BoundProjectionView>) -> Seq<FieldView> {
    Seq::new(l.len(), |i: int| l[i].field)
}

/// The schema of output columns.
pub open spec fn schema_of(l: Seq<BoundProjectionView>) -> SchemaView {
    SchemaView { fields: fields_of(l) }
}

/// Makes the schema of output columns.
pub fn make_schema(l: &Vec<BoundProjection>) -> (r: Schema)
    ensures
        r@ == schema_of(BoundProjection::views(l@)),
{
    let mut fields: Vec<Field> = Vec::new();
    for i in 0..l.len()
        invariant
            fields.len() == i,
            forall|k: int| 0 <= k < i ==> fields@[k]@ == l@[k]@.field,
    {
        fields.push(l[i].field.clone());
    }
    assert(Field::views(fields@) =~= fields_of(BoundProjection::views(l@)));
    Schema::new(fields)
}

/// The bound form of a RETURNING list.
#[verifier::opaque]
pub open spec fn returning_of(l: Seq<ParsedProjectionView>, table: TableDefinitionView) -> Checked<Option<BoundReturningView>> {
    if l.len() == 0 {
        Ok(None)
    } else {
        match table_items(l, table, true, 0, Seq::empty()) {
            Err(x) => Err(x),
            Ok(projection) => Ok(Some(BoundReturningView { schema: schema_of(projection), projection })),
        }
    }
}

/// Binds a RETURNING list.
pub fn bind_returning(returning: &Vec<ParsedProjection>, table: &TableDefinition) -> (r: Result<Option<BoundReturning>>)
    ensures
        (match r {
            Ok(Some(b)) => Ok(Some(b@)),
            Ok(None) => Ok(None),
            Err(e) => Err(e@),
        }) == returning_of(ParsedProjection::views(returning@), table@),
{
    reveal(returning_of);
    if returning.len() == 0 {
        return Ok(None);
    }
    let projection = bind_table_items(returning, table, true)?;
    Ok(Some(BoundReturning { schema: make_schema(&projection), projection }))
}

/// Whether one of the output columns is of type json, from a position on.
pub open spec fn any_json_output(l: Seq<BoundProjectionView>, i: int) -> bool
    decreases l.len() - i,
{
    0 <= i < l.len() && (l[i].expr.data_type is Json || any_json_output(l, i + 1))
}

/// Decides whether one of the output columns is of type json.
fn has_json_output(l: &Vec<BoundProjection>) -> (r: bool)
    ensures
        r == any_json_output(BoundProjection::views(l@), 0),
{
    let ghost v = BoundProjection::views(l@);
    for i in 0..l.len()
        invariant
            v == BoundProjection::views(l@),
            any_json_output(v, 0) == any_json_output(v, i as int),
    {
        assert(v[i as int] == l@[i as int]@);
        if is_json(&l[i].expr) {
            return true;
        }
    }
    false
}

fn is_json(e: &BoundExpr) -> (r: bool)
    ensures
        r == (e@.data_type is Json),
{
    proof {
        e.unfold();
    }
    matches!(e.data_type, ScalarType::Json)
}

/// The clauses of a query after its FROM clause.
pub struct Clauses {
    pub projection: Vec<ParsedProjection>,
    pub filter: Option<ParsedExpr>,
    pub group_by: Vec<ParsedExpr>,
    pub having: Option<ParsedExpr>,
    pub order_by: Vec<ParsedOrder>,
}

/// Mathematical contents of [`Clauses`].
pub struct ClausesView {
    pub projection: Seq<ParsedProjectionView>,
    pub filter: Option<ParsedExprView>,
    pub group_by: Seq<ParsedExprView>,
    pub having: Option<ParsedExprView>,
    pub order_by: Seq<ParsedOrderView>,
}

impl Clauses {
    /// The value as mathematical data.
    pub open spec fn view(&self) -> ClausesView {
        ClausesView {
            projection: ParsedProjection::views(self.projection@),
            filter: some_view(self.filter),
            group_by: ParsedExpr::views(self.group_by@),
            having: some_view(self.having),
            order_by: ParsedOrder::views(self.order_by@),
        }
    }
}

/// Where window functions must not stand.
#[verifier::opaque]
pub open spec fn windows_allowed(
    filter: Option<ParsedExprView>,
    group_by: Seq<ParsedExprView>,
    having: Option<ParsedExprView>,
    offset: Option<ParsedExprView>,
    limit: Option<ParsedExprView>,
) -> Checked<()> {
    if filter is Some && holds_window(filter->0) {
        Err(error("42P20"@, "window functions are not allowed in WHERE"@))
    } else if any_holds_window(group_by, 0) {
        Err(error("42P20"@, "window functions are not allowed in GROUP BY"@))
    } else if having is Some && holds_window(having->0) {
        Err(error("42P20"@, "window functions are not allowed in HAVING"@))
    } else if (limit is Some && holds_window(limit->0)) || (offset is Some && holds_window(offset->0)) {
        Err(error("42P20"@, "window functions are not allowed in LIMIT or OFFSET"@))
    } else {
        Ok(())
    }
}

/// Refuses window functions where they must not stand.
pub fn check_windows_allowed(
    filter: &Option<ParsedExpr>,
    group_by: &Vec<ParsedExpr>,
    having: &Option<ParsedExpr>,
    offset: &Option<ParsedExpr>,
    limit: &Option<ParsedExpr>,
) -> (r: Result<()>)
    ensures
        check_result(r) == windows_allowed(
            some_view(*filter),
            ParsedExpr::views(group_by@),
            some_view(*having),
            some_view(*offset),
            some_view(*limit),
        ),
{
    reveal(windows_allowed);
    if some_has_window(filter) {
        return Err(DbError::new("42P20", text("window functions are not allowed in WHERE")));
    }
    if exprs_have_window(group_by) {
        return Err(DbError::new("42P20", text("window functions are not allowed in GROUP BY")));
    }
    if some_has_window(having) {
        return Err(DbError::new("42P20", text("window functions are not allowed in HAVING")));
    }
    if some_has_window(limit) || some_has_window(offset) {
        return Err(DbError::new("42P20", text("window functions are not allowed in LIMIT or OFFSET")));
    }
    Ok(())
}

/// An item of a select list whose window calls have become slots.
pub open spec fn window_item(
    p: ParsedProjectionView,
    inputs: Seq<InputColumnView>,
    windows: Seq<BoundWindowView>,
) -> Checked<(ParsedProjectionView, Seq<BoundWindowView>)>
{
    match p {
        ParsedProjectionView::Wildcard => Ok((p, windows)),
        ParsedProjectionView::Expression { expr, alias } => match lowered(expr, inputs, windows) {
            Err(x) => Err(x),
            Ok((e, windows)) => Ok((ParsedProjectionView::Expression { expr: e, alias }, windows)),
        },
    }
}

/// The same of each entry of a list, from a position on.
pub open spec fn window_items(
    l: Seq<ParsedProjectionView>,
    inputs: Seq<InputColumnView>,
    i: int,
    done: Seq<ParsedProjectionView>,
    windows: Seq<BoundWindowView>,
) -> Checked<(Seq<ParsedProjectionView>, Seq<BoundWindowView>)>
    decreases l.len() - i,
{
    if i < 0 || i >= l.len() {
        Ok((done, windows))
    } else {
        match window_item(l[i], inputs, windows) {
            Err(x) => Err(x),
            Ok((b, windows)) => window_items(l, inputs, i + 1, done.push(b), windows),
        }
    }
}

/// Does the same to each entry of a list.
pub fn lower_window_expr_items(
    l: &Vec<ParsedProjection>,
    inputs: &Vec<InputColumn>,
    windows: Vec<BoundWindow>,
) -> (r: Result<(Vec<ParsedProjection>, Vec<BoundWindow>)>)
    ensures
        (match r {
            Ok(x) => Ok((ParsedProjection::views(x.0@), BoundWindow::views(x.1@))),
            Err(x) => Err(x@),
        }) == window_items(ParsedProjection::views(l@), InputColumn::views(inputs@), 0, Seq::empty(), BoundWindow::views(windows@)),
{
    let ghost v = ParsedProjection::views(l@);
    let ghost start = BoundWindow::views(windows@);
    let mut found: Vec<BoundWindow> = windows;
    let mut out: Vec<ParsedProjection> = Vec::new();
    assert(ParsedProjection::views(out@) =~= Seq::empty());
    for i in 0..l.len()
        invariant
            v == ParsedProjection::views(l@),
            start == BoundWindow::views(windows@),
            window_items(v, InputColumn::views(inputs@), 0, Seq::empty(), start) == window_items(
                v,
                InputColumn::views(inputs@),
                i as int,
                ParsedProjection::views(out@),
                BoundWindow::views(found@),
            ),
    {
        assert(v[i as int] == l@[i as int]@);
        proof {
            l@[i as int].unfold();
        }
        let x = match &l[i] {
            ParsedProjection::Wildcard => ParsedProjection::Wildcard,
            ParsedProjection::Expression { expr, alias } => {
                let (e, next) = lower_window_expr(expr, inputs, found)?;
                found = next;
                ParsedProjection::Expression { expr: e, alias: alias.clone() }
            },
        };
        proof {
            x.unfold();
        }
        let ghost before = ParsedProjection::views(out@);
        out.push(x);
        assert(ParsedProjection::views(out@) =~= before.push(x@));
    }
    Ok((out, found))
}

/// A sort key whose window calls have become slots.
pub open spec fn window_order(
    p: ParsedOrderView,
    inputs: Seq<InputColumnView>,
    windows: Seq<BoundWindowView>,
) -> Checked<(ParsedOrderView, Seq<BoundWindowView>)>
{
    match lowered(p.expr, inputs, windows) {
        Err(x) => Err(x),
        Ok((e, windows)) => Ok((ParsedOrderView { expr: e, ..p }, windows)),
    }
}

/// The same of each entry of a list, from a position on.
pub open spec fn window_orders(
    l: Seq<ParsedOrderView>,
    inputs: Seq<InputColumnView>,
    i: int,
    done: Seq<ParsedOrderView>,
    windows: Seq<BoundWindowView>,
) -> Checked<(Seq<ParsedOrderView>, Seq<BoundWindowView>)>
    decreases l.len() - i,
{
    if i < 0 || i >= l.len() {
        Ok((done, windows))
    } else {
        match window_order(l[i], inputs, windows) {
            Err(x) => Err(x),
            Ok((b, windows)) => window_orders(l, inputs, i + 1, done.push(b), windows),
        }
    }
}

/// Does the same to each entry of a list.
pub fn lower_window_expr_orders(
    l: &Vec<ParsedOrder>,
    inputs: &Vec<InputColumn>,
    windows: Vec<BoundWindow>,
) -> (r: Result<(Vec<ParsedOrder>, Vec<BoundWindow>)>)
    ensures
        (match r {
            Ok(x) => Ok((ParsedOrder::views(x.0@), BoundWindow::views(x.1@))),
            Err(x) => Err(x@),
        }) == window_orders(ParsedOrder::views(l@), InputColumn::views(inputs@), 0, Seq::empty(), BoundWindow::views(windows@)),
{
    let ghost v = ParsedOrder::views(l@);
    let ghost start = BoundWindow::views(windows@);
    let mut found: Vec<BoundWindow> = windows;
    let mut out: Vec<ParsedOrder> = Vec::new();
    assert(ParsedOrder::views(out@) =~= Seq::empty());
    for i in 0..l.len()
        invariant
            v == ParsedOrder::views(l@),
            start == BoundWindow::views(windows@),
            window_orders(v, InputColumn::views(inputs@), 0, Seq::empty(), start) == window_orders(
                v,
                InputColumn::views(inputs@),
                i as int,
                ParsedOrder::views(out@),
                BoundWindow::views(found@),
            ),
    {
        assert(v[i as int] == l@[i as int]@);
        proof {
            l@[i as int].unfold();
        }
        let (e, next) = lower_window_expr(&l[i].expr, inputs, found)?;
        found = next;
        let x = ParsedOrder { expr: e, ascending: l[i].ascending, nulls_first: l[i].nulls_first };
        proof {
            x.unfold();
        }
        let ghost before = ParsedOrder::views(out@);
        out.push(x);
        assert(ParsedOrder::views(out@) =~= before.push(x@));
    }
    Ok((out, found))
}

/// An item of a select list whose window slots have become values.
pub open spec fn final_item(p: ParsedProjectionView, base: usize, windows: Seq<BoundWindowView>) -> Checked<ParsedProjectionView>
{
    match p {
        ParsedProjectionView::Wildcard => Ok(p),
        ParsedProjectionView::Expression { expr, alias } => match finalized(expr, base, windows) {
            Err(x) => Err(x),
            Ok(e) => Ok(ParsedProjectionView::Expression { expr: e, alias }),
        },
    }
}

/// The same of each entry of a list, from a position on.
pub open spec fn final_items(
    l: Seq<ParsedProjectionView>,
    base: usize,
    windows: Seq<BoundWindowView>,
    i: int,
    done: Seq<ParsedProjectionView>,
) -> Checked<Seq<ParsedProjectionView>>
    decreases l.len() - i,
{
    if i < 0 || i >= l.len() {
        Ok(done)
    } else {
        match final_item(l[i], base, windows) {
            Err(x) => Err(x),
            Ok(b) => final_items(l, base, windows, i + 1, done.push(b)),
        }
    }
}

/// Does the same to each entry of a list.
pub fn finalize_window_values_items(
    l: &Vec<ParsedProjection>,
    base: usize,
    windows: &Vec<BoundWindow>,
) -> (r: Result<Vec<ParsedProjection>>)
    ensures
        (match r {
            Ok(x) => Ok(ParsedProjection::views(x@)),
            Err(x) => Err(x@),
        }) == final_items(ParsedProjection::views(l@), base, BoundWindow::views(windows@), 0, Seq::empty()),
{
    let ghost v = ParsedProjection::views(l@);
    let mut out: Vec<ParsedProjection> = Vec::new();
    assert(ParsedProjection::views(out@) =~= Seq::empty());
    for i in 0..l.len()
        invariant
            v == ParsedProjection::views(l@),
            final_items(v, base, BoundWindow::views(windows@), 0, Seq::empty()) == final_items(
                v,
                base,
                BoundWindow::views(windows@),
                i as int,
                ParsedProjection::views(out@),
            ),
    {
        assert(v[i as int] == l@[i as int]@);
        proof {
            l@[i as int].unfold();
        }
        let x = match &l[i] {
            ParsedProjection::Wildcard => ParsedProjection::Wildcard,
            ParsedProjection::Expression { expr, alias } => {
                let e = finalize_window_values(expr, base, windows)?;
                ParsedProjection::Expression { expr: e, alias: alias.clone() }
            },
        };
        proof {
            x.unfold();
        }
        let ghost before = ParsedProjection::views(out@);
        out.push(x);
        assert(ParsedProjection::views(out@) =~= before.push(x@));
    }
    Ok(out)
}

/// A sort key whose window slots have become values.
pub open spec fn final_order(p: ParsedOrderView, base: usize, windows: Seq<BoundWindowView>) -> Checked<ParsedOrderView>
{
    match finalized(p.expr, base, windows) {
        Err(x) => Err(x),
        Ok(e) => Ok(ParsedOrderView { expr: e, ..p }),
    }
}

/// The same of each entry of a list, from a position on.
pub open spec fn final_orders(
    l: Seq<ParsedOrderView>,
    base: usize,
    windows: Seq<BoundWindowView>,
    i: int,
    done: Seq<ParsedOrderView>,
) -> Checked<Seq<ParsedOrderView>>
    decreases l.len() - i,
{
    if i < 0 || i >= l.len() {
        Ok(done)
    } else {
        match final_order(l[i], base, windows) {
            Err(x) => Err(x),
            Ok(b) => final_orders(l, base, windows, i + 1, done.push(b)),
        }
    }
}

/// Does the same to each entry of a list.
pub fn finalize_window_values_orders(l: &Vec<ParsedOrder>, base: usize, windows: &Vec<BoundWindow>) -> (r: Result<Vec<ParsedOrder>>)
    ensures
        (match r {
            Ok(x) => Ok(ParsedOrder::views(x@)),
            Err(x) => Err(x@),
        }) == final_orders(ParsedOrder::views(l@), base, BoundWindow::views(windows@), 0, Seq::empty()),
{
    let ghost v = ParsedOrder::views(l@);
    let mut out: Vec<ParsedOrder> = Vec::new();
    assert(ParsedOrder::views(out@) =~= Seq::empty());
    for i in 0..l.len()
        invariant
            v == ParsedOrder::views(l@),
            final_orders(v, base, BoundWindow::views(windows@), 0, Seq::empty()) == final_orders(
                v,
                base,
                BoundWindow::views(windows@),
                i as int,
                ParsedOrder::views(out@),
            ),
    {
        assert(v[i as int] == l@[i as int]@);
        proof {
            l@[i as int].unfold();
        }
        let e = finalize_window_values(&l[i].expr, base, windows)?;
        let x = ParsedOrder { expr: e, ascending: l[i].ascending, nulls_first: l[i].nulls_first };
        proof {
            x.unfold();
        }
        let ghost before = ParsedOrder::views(out@);
        out.push(x);
        assert(ParsedOrder::views(out@) =~= before.push(x@));
    }
    Ok(out)
}

/// Windows with the indices of their values, from a position on.
pub open spec fn numbered(l: Seq<BoundWindowView>, base: usize, i: int, done: Seq<BoundWindowView>) -> Checked<Seq<BoundWindowView>>
    decreases l.len() - i,
{
    if i < 0 || i >= l.len() {
        Ok(done)
    } else if base + i > usize::MAX {
        Err(error("54001"@, "window value index overflowed"@))
    } else {
        numbered(l, base, i + 1, done.push(BoundWindowView { value_index: (base + i) as usize, ..l[i] }))
    }
}

fn number_windows(l: &Vec<BoundWindow>, base: usize) -> (r: Result<Vec<BoundWindow>>)
    ensures
        (match r {
            Ok(l) => Ok(BoundWindow::views(l@)),
            Err(e) => Err(e@),
        }) == numbered(BoundWindow::views(l@), base, 0, Seq::empty()),
{
    let ghost v = BoundWindow::views(l@);
    let mut out: Vec<BoundWindow> = Vec::new();
    assert(BoundWindow::views(out@) =~= Seq::empty());
    for i in 0..l.len()
        invariant
            v == BoundWindow::views(l@),
            numbered(v, base, 0, Seq::empty()) == numbered(v, base, i as int, BoundWindow::views(out@)),
    {
        assert(v[i as int] == l@[i as int]@);
        let index: usize = match base.checked_add(i) {
            Some(k) => k,
            None => {
                return Err(DbError::new("54001", text("window value index overflowed")));
            },
        };
        let mut x = l[i].clone();
        x.value_index = index;
        let ghost before = BoundWindow::views(out@);
        out.push(x);
        assert(BoundWindow::views(out@) =~= before.push(x@));
    }
    Ok(out)
}

/// Whether the output columns from a position on may stand in a grouped query.
pub open spec fn outputs_grouped(
    l: Seq<BoundProjectionView>,
    windows: Seq<BoundWindowView>,
    group: Seq<BoundExprView>,
    i: int,
) -> Checked<()>
    decreases l.len() - i,
{
    if i < 0 || i >= l.len() {
        Ok(())
    } else if window_of(l[i].expr, windows) is Some {
        outputs_grouped(l, windows, group, i + 1)
    } else if reads_window(l[i].expr, windows) {
        Err(unsupported_error("grouped window functions must be top-level SELECT expressions"@, None))
    } else {
        match grouped(l[i].expr, group) {
            Err(x) => Err(x),
            Ok(_) => outputs_grouped(l, windows, group, i + 1),
        }
    }
}

fn check_outputs_grouped(l: &Vec<BoundProjection>, windows: &Vec<BoundWindow>, group: &Vec<BoundExpr>) -> (r: Result<()>)
    ensures
        check_result(r) == outputs_grouped(BoundProjection::views(l@), BoundWindow::views(windows@), BoundExpr::views(group@), 0),
{
    let ghost v = BoundProjection::views(l@);
    let ghost w = BoundWindow::views(windows@);
    let ghost g = BoundExpr::views(group@);
    for i in 0..l.len()
        invariant
            v == BoundProjection::views(l@),
            w == BoundWindow::views(windows@),
            g == BoundExpr::views(group@),
            outputs_grouped(v, w, g, 0) == outputs_grouped(v, w, g, i as int),
    {
        assert(v[i as int] == l@[i as int]@);
        if window_ordinal_for_expr(&l[i].expr, windows).is_none() {
            if bound_expr_has_window_slot(&l[i].expr, windows) {
                return Err(unsupported("grouped window functions must be top-level SELECT expressions"));
            }
            validate_grouped_expr(&l[i].expr, group)?;
        }
    }
    Ok(())
}

/// The rules that a sort key follows in a query.
pub open spec fn clause_order(
    o: ParsedOrderView,
    aggregate: bool,
    distinct: bool,
    projection: Seq<BoundProjectionView>,
    inputs: Seq<InputColumnView>,
    group: Seq<BoundExprView>,
) -> Checked<BoundOrderView> {
    if aggregate {
        projected_order(o, projection, inputs, group)
    } else if distinct {
        distinct_order(o, projection, inputs)
    } else {
        multi_order(o, projection, inputs)
    }
}

fn bind_clause_order(
    o: &ParsedOrder,
    aggregate: bool,
    distinct: bool,
    projection: &Vec<BoundProjection>,
    inputs: &Vec<InputColumn>,
    group: &Vec<BoundExpr>,
) -> (r: Result<BoundOrder>)
    ensures
        order_result(r) == clause_order(
            o@,
            aggregate,
            distinct,
            BoundProjection::views(projection@),
            InputColumn::views(inputs@),
            BoundExpr::views(group@),
        ),
{
    if aggregate {
        bind_projected_order(o, projection, inputs, group)
    } else if distinct {
        bind_distinct_order(o, projection, inputs)
    } else {
        bind_multi_order(o, projection, inputs)
    }
}

/// The sort keys of a query, from a position on.
pub open spec fn clause_orders(
    l: Seq<ParsedOrderView>,
    aggregate: bool,
    distinct: bool,
    projection: Seq<BoundProjectionView>,
    inputs: Seq<InputColumnView>,
    group: Seq<BoundExprView>,
    i: int,
    done: Seq<BoundOrderView>,
) -> Checked<Seq<BoundOrderView>>
    decreases l.len() - i,
{
    if i < 0 || i >= l.len() {
        Ok(done)
    } else {
        match clause_order(l[i], aggregate, distinct, projection, inputs, group) {
            Err(x) => Err(x),
            Ok(b) => clause_orders(l, aggregate, distinct, projection, inputs, group, i + 1, done.push(b)),
        }
    }
}

fn bind_clause_orders(
    l: &Vec<ParsedOrder>,
    aggregate: bool,
    distinct: bool,
    projection: &Vec<BoundProjection>,
    inputs: &Vec<InputColumn>,
    group: &Vec<BoundExpr>,
) -> (r: Result<Vec<BoundOrder>>)
    ensures
        (match r {
            Ok(l) => Ok(BoundOrder::views(l@)),
            Err(e) => Err(e@),
        }) == clause_orders(
            ParsedOrder::views(l@),
            aggregate,
            distinct,
            BoundProjection::views(projection@),
            InputColumn::views(inputs@),
            BoundExpr::views(group@),
            0,
            Seq::empty(),
        ),
{
    let ghost v = ParsedOrder::views(l@);
    let mut out: Vec<BoundOrder> = Vec::new();
    assert(BoundOrder::views(out@) =~= Seq::empty());
    for i in 0..l.len()
        invariant
            v == ParsedOrder::views(l@),
            clause_orders(
                v,
                aggregate,
                distinct,
                BoundProjection::views(projection@),
                InputColumn::views(inputs@),
                BoundExpr::views(group@),
                0,
                Seq::empty(),
            ) == clause_orders(
                v,
                aggregate,
                distinct,
                BoundProjection::views(projection@),
                InputColumn::views(inputs@),
                BoundExpr::views(group@),
                i as int,
                BoundOrder::views(out@),
            ),
    {
        assert(v[i as int] == l@[i as int]@);
        let x = bind_clause_order(&l[i], aggregate, distinct, projection, inputs, group)?;
        let ghost before = BoundOrder::views(out@);
        out.push(x);
        assert(BoundOrder::views(out@) =~= before.push(x@));
    }
    Ok(out)
}

/// The bound clauses of a query.
pub struct BoundClauses {
    pub projection: Vec<BoundProjection>,
    pub filter: Option<BoundExpr>,
    pub group_by: Vec<BoundExpr>,
    pub having: Option<BoundExpr>,
    pub windows: Vec<BoundWindow>,
    pub aggregate: bool,
}

/// Mathematical contents of [`BoundClauses`].
pub struct BoundClausesView {
    pub projection: Seq<BoundProjectionView>,
    pub filter: Option<BoundExprView>,
    pub group_by: Seq<BoundExprView>,
    pub having: Option<BoundExprView>,
    pub windows: Seq<BoundWindowView>,
    pub aggregate: bool,
}

impl BoundClauses {
    /// The value as mathematical data.
    pub open spec fn view(&self) -> BoundClausesView {
        BoundClausesView {
            projection: BoundProjection::views(self.projection@),
            filter: bound_view(self.filter),
            group_by: BoundExpr::views(self.group_by@),
            having: bound_view(self.having),
            windows: BoundWindow::views(self.windows@),
            aggregate: self.aggregate,
        }
    }
}

/// The bound WHERE, GROUP BY and HAVING clauses.
#[verifier::opaque]
pub open spec fn conditions(c: ClausesView, inputs: Seq<InputColumnView>) -> Checked<(
    Option<BoundExprView>,
    Seq<BoundExprView>,
    Option<BoundExprView>,
)> {
    match predicate_some(c.filter, input_scope(inputs, true)) {
        Err(x) => Err(x),
        Ok(filter) => if filter is Some && aggregated(filter->0) {
            Err(error("42803"@, "aggregate functions are not allowed in WHERE"@))
        } else {
            match bound_list(c.group_by, input_scope(inputs, false), Expectation::Each(None), 0, Seq::empty()) {
                Err(x) => Err(x),
                Ok(group_by) => match predicate_some(c.having, input_scope(inputs, true)) {
                    Err(x) => Err(x),
                    Ok(having) => Ok((filter, group_by, having)),
                },
            }
        },
    }
}

fn bind_conditions(c: &Clauses, inputs: &Vec<InputColumn>) -> (r: Result<(Option<BoundExpr>, Vec<BoundExpr>, Option<BoundExpr>)>)
    ensures
        (match r {
            Ok(p) => Ok((bound_view(p.0), BoundExpr::views(p.1@), bound_view(p.2))),
            Err(e) => Err(e@),
        }) == conditions(c@, InputColumn::views(inputs@)),
{
    reveal(conditions);
    let filter = bind_some_multi_boolean(&c.filter, inputs)?;
    if bound_option_has_aggregate(&filter) {
        return Err(DbError::new("42803", text("aggregate functions are not allowed in WHERE")));
    }
    let group_by = bind_each(&c.group_by, &Scope::Inputs { inputs, aggregates: false }, None)?;
    let having = bind_some_multi_boolean(&c.having, inputs)?;
    Ok((filter, group_by, having))
}

/// The rules of grouping, and the windows over grouped columns.
#[verifier::opaque]
pub open spec fn grouping_of(
    projection: Seq<BoundProjectionView>,
    group_by: Seq<BoundExprView>,
    having: Option<BoundExprView>,
    windows: Seq<BoundWindowView>,
) -> Checked<(Seq<BoundWindowView>, bool)> {
    if group_by.len() > 0 || any_output_aggregated(projection, 0) || (having is Some && aggregated(having->0))
        || any_window_aggregated(windows, 0) {
        match outputs_grouped(projection, windows, group_by, 0) {
            Err(x) => Err(x),
            Ok(_) => match (match having {
                Some(h) => grouped(h, group_by),
                None => Ok(()),
            }) {
                Err(x) => Err(x),
                Ok(_) => match windows_regrouped(windows, base_outputs(projection, windows, 0, Seq::empty()), group_by, 0, Seq::empty()) {
                    Err(x) => Err(x),
                    Ok(w) => Ok((w, true)),
                },
            },
        }
    } else if having is Some {
        Err(error("42803"@, "HAVING requires grouping or an aggregate"@))
    } else {
        Ok((windows, false))
    }
}

fn check_grouping(
    projection: &Vec<BoundProjection>,
    group_by: &Vec<BoundExpr>,
    having: &Option<BoundExpr>,
    windows: Vec<BoundWindow>,
) -> (r: Result<
    (Vec<BoundWindow>, bool),
>)
    ensures
        (match r {
            Ok(p) => Ok((BoundWindow::views(p.0@), p.1)),
            Err(e) => Err(e@),
        }) == grouping_of(
            BoundProjection::views(projection@),
            BoundExpr::views(group_by@),
            bound_view(*having),
            BoundWindow::views(windows@),
        ),
{
    reveal(grouping_of);
    let aggregate = group_by.len() > 0 || projections_have_aggregate(projection) || bound_option_has_aggregate(having)
        || windows_have_aggregate(
        &windows,
    );
    if aggregate {
        check_outputs_grouped(projection, &windows, group_by)?;
        if let Some(h) = having {
            validate_grouped_expr(h, group_by)?;
        }
        let w = remap_grouped_window_inputs(&windows, projection, group_by)?;
        Ok((w, true))
    } else {
        if having.is_some() {
            return Err(DbError::new("42803", text("HAVING requires grouping or an aggregate")));
        }
        Ok((windows, false))
    }
}

/// The bound clauses of a query whose windows and subqueries have been replaced.
#[verifier::opaque]
pub open spec fn clauses_of(
    c: ClausesView,
    distinct: bool,
    local: Seq<InputColumnView>,
    inputs: Seq<InputColumnView>,
    windows: Seq<BoundWindowView>,
) -> Checked<BoundClausesView> {
    match select_items(c.projection, local, inputs, 0, Seq::empty()) {
        Err(x) => Err(x),
        Ok(projection) => if projection.len() == 0 {
            Err(error(SYNTAX_ERROR@, "SELECT projection is empty"@))
        } else if distinct && any_json_output(projection, 0) {
            Err(error("42883"@, "could not identify an equality operator for type json"@))
        } else {
            match conditions(c, inputs) {
                Err(x) => Err(x),
                Ok((filter, group_by, having)) => match grouping_of(projection, group_by, having, windows) {
                    Err(x) => Err(x),
                    Ok((windows, aggregate)) => Ok(BoundClausesView { projection, filter, group_by, having, windows, aggregate }),
                },
            }
        },
    }
}

fn bind_clauses(c: &Clauses, distinct: bool, local: &Vec<InputColumn>, inputs: &Vec<InputColumn>, windows: Vec<BoundWindow>) -> (r: Result<
    BoundClauses,
>)
    ensures
        (match r {
            Ok(b) => Ok(b@),
            Err(e) => Err(e@),
        }) == clauses_of(c@, distinct, InputColumn::views(local@), InputColumn::views(inputs@), BoundWindow::views(windows@)),
{
    reveal(clauses_of);
    let projection = bind_select_items(&c.projection, local, inputs)?;
    if projection.len() == 0 {
        return Err(DbError::new(SYNTAX_ERROR, text("SELECT projection is empty")));
    }
    if distinct && has_json_output(&projection) {
        return Err(DbError::new("42883", text("could not identify an equality operator for type json")));
    }
    let (filter, group_by, having) = bind_conditions(c, inputs)?;
    let (windows, aggregate) = check_grouping(&projection, &group_by, &having, windows)?;
    Ok(BoundClauses { projection, filter, group_by, having, windows, aggregate })
}

/// A query whose FROM clause has been bound and whose subqueries are numbered.
pub struct SelectTail {
    pub clauses: BoundClauses,
    pub order_by: Vec<BoundOrder>,
    pub offset: Option<BoundExpr>,
    pub limit: Option<BoundExpr>,
}

/// Mathematical contents of a [`SelectTail`].
pub struct SelectTailView {
    pub clauses: BoundClausesView,
    pub order_by: Seq<BoundOrderView>,
    pub offset: Option<BoundExprView>,
    pub limit: Option<BoundExprView>,
}

impl SelectTail {
    /// The value as mathematical data.
    pub open spec fn view(&self) -> SelectTailView {
        SelectTailView {
            clauses: self.clauses@,
            order_by: BoundOrder::views(self.order_by@),
            offset: bound_view(self.offset),
            limit: bound_view(self.limit),
        }
    }
}

/// Everything after the FROM clause of a query whose window calls and subqueries
/// have become slots; the slots of windows follow those of subqueries.
#[verifier::opaque]
pub open spec fn tail_of(
    c: ClausesView,
    distinct: bool,
    offset: Option<ParsedExprView>,
    limit: Option<ParsedExprView>,
    local: Seq<InputColumnView>,
    inputs: Seq<InputColumnView>,
    windows: Seq<BoundWindowView>,
    applied: nat,
) -> Checked<SelectTailView> {
    let base = local.len() + applied;
    if base > usize::MAX {
        Err(error("54001"@, "window value index overflowed"@))
    } else {
        match numbered(windows, base as usize, 0, Seq::empty()) {
            Err(x) => Err(x),
            Ok(windows) => match final_items(c.projection, base as usize, windows, 0, Seq::empty()) {
                Err(x) => Err(x),
                Ok(projection) => match final_orders(c.order_by, base as usize, windows, 0, Seq::empty()) {
                    Err(x) => Err(x),
                    Ok(order_by) => match clauses_of(ClausesView { projection, ..c }, distinct, local, inputs, windows) {
                        Err(x) => Err(x),
                        Ok(b) => match clause_orders(order_by, b.aggregate, distinct, b.projection, inputs, b.group_by, 0, Seq::empty()) {
                            Err(x) => Err(x),
                            Ok(order_by) => if (limit is Some && holds_subquery(limit->0)) || (
                                offset is Some && holds_subquery(offset->0)
                            ) {
                                Err(unsupported_error("subqueries in LIMIT or OFFSET are not supported yet"@, None))
                            } else {
                                match bound_some(limit, input_scope(inputs, false), Some(ScalarTypeView::Int64)) {
                                    Err(x) => Err(x),
                                    Ok(limit) => match bound_some(offset, input_scope(inputs, false), Some(ScalarTypeView::Int64)) {
                                        Err(x) => Err(x),
                                        Ok(offset) => Ok(SelectTailView { clauses: b, order_by, offset, limit }),
                                    },
                                }
                            },
                        },
                    },
                },
            },
        }
    }
}

/// Binds everything after the FROM clause of a query whose window calls and
/// subqueries have become slots.
pub fn bind_tail(
    c: Clauses,
    distinct: bool,
    offset: &Option<ParsedExpr>,
    limit: &Option<ParsedExpr>,
    local: &Vec<InputColumn>,
    inputs: &Vec<InputColumn>,
    windows: Vec<BoundWindow>,
    applied: usize,
) -> (r: Result<SelectTail>)
    ensures
        (match r {
            Ok(t) => Ok(t@),
            Err(e) => Err(e@),
        }) == tail_of(
            c@,
            distinct,
            some_view(*offset),
            some_view(*limit),
            InputColumn::views(local@),
            InputColumn::views(inputs@),
            BoundWindow::views(windows@),
            applied as nat,
        ),
{
    reveal(tail_of);
    let base: usize = match local.len().checked_add(applied) {
        Some(k) => k,
        None => {
            return Err(DbError::new("54001", text("window value index overflowed")));
        },
    };
    let windows = number_windows(&windows, base)?;
    let projection = finalize_window_values_items(&c.projection, base, &windows)?;
    let order_by = finalize_window_values_orders(&c.order_by, base, &windows)?;
    let c = Clauses { projection, filter: c.filter, group_by: c.group_by, having: c.having, order_by: c.order_by };
    let b = bind_clauses(&c, distinct, local, inputs, windows)?;
    let order_by = bind_clause_orders(&order_by, b.aggregate, distinct, &b.projection, inputs, &b.group_by)?;
    if some_has_subquery(limit) || some_has_subquery(offset) {
        return Err(unsupported("subqueries in LIMIT or OFFSET are not supported yet"));
    }
    let limit = bind_some(limit, &Scope::Inputs { inputs, aggregates: false }, Some(&ScalarType::Int64))?;
    let offset = bind_some(offset, &Scope::Inputs { inputs, aggregates: false }, Some(&ScalarType::Int64))?;
    Ok(SelectTail { clauses: b, order_by, offset, limit })
}

} // verus!
