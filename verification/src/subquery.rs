//! Subqueries in expressions: how their values are matched and numbered.

use vstd::prelude::*;

use crate::binding::{bind_expr_multi, bound_form, input_scope, make_expr};
use crate::bound::{
    BoundApply, BoundApplyKind, BoundApplyKindView, BoundApplyView, BoundExpr, BoundExprView, BoundStatement, BoundStatementView,
};
use crate::expr::{infer_type, type_of};
use crate::scope::{Checked, InputColumn, InputColumnView, Scope};
use crate::syntax::{BinaryOperator, ParsedExpr, ParsedExprKind, ParsedExprKindView, ParsedExprView, SubqueryQuantifier};
use crate::text::{text, text2, text5};
use crate::types::{
    described, error, error_at, internal_error, unsupported, unsupported_error, DATATYPE_MISMATCH, DbError, Field, FieldView, Result,
    SYNTAX_ERROR, ScalarType, ScalarTypeView, Schema, SchemaView,
};
use crate::typing::{common, common_type};

verus! {

/// The output of a bound query.
pub open spec fn query_schema(s: BoundStatementView) -> Checked<SchemaView> {
    match s {
        BoundStatementView::Select { schema, .. } => Ok(schema),
        BoundStatementView::AdvancedSelect { schema, .. } => Ok(schema),
        BoundStatementView::SetOperation { schema, .. } => Ok(schema),
        BoundStatementView::With { schema, .. } => Ok(schema),
        BoundStatementView::ViewSelect { schema, .. } => Ok(schema),
        BoundStatementView::ScalarSelect { schema, .. } => Ok(schema),
        BoundStatementView::RoutineSelect { schema, .. } => Ok(schema),
        BoundStatementView::SequenceValue { schema, .. } => Ok(schema),
        _ => Err(unsupported_error("views require a SELECT query"@, None)),
    }
}

/// Finds the output of a bound query.
pub fn bound_query_schema(statement: &BoundStatement) -> (r: Result<Schema>)
    ensures
        (match r {
            Ok(s) => Ok(s@),
            Err(e) => Err(e@),
        }) == query_schema(statement@),
{
    proof {
        statement.unfold();
    }
    match statement {
        BoundStatement::Select { schema, .. } => Ok(schema.clone()),
        BoundStatement::AdvancedSelect { schema, .. } => Ok(schema.clone()),
        BoundStatement::SetOperation { schema, .. } => Ok(schema.clone()),
        BoundStatement::With { schema, .. } => Ok(schema.clone()),
        BoundStatement::ViewSelect { schema, .. } => Ok(schema.clone()),
        BoundStatement::ScalarSelect { schema, .. } => Ok(schema.clone()),
        BoundStatement::RoutineSelect { schema, .. } => Ok(schema.clone()),
        BoundStatement::SequenceValue { schema, .. } => Ok(schema.clone()),
        _ => Err(unsupported("views require a SELECT query")),
    }
}

/// The only output column of a subquery.
pub open spec fn scalar_field(s: BoundStatementView, position: Option<usize>) -> Checked<FieldView> {
    match query_schema(s) {
        Err(x) => Err(x),
        Ok(schema) => if schema.fields.len() != 1 {
            Err(error_at(SYNTAX_ERROR@, "subquery must return only one column"@, position))
        } else {
            Ok(schema.fields[0])
        },
    }
}

/// Finds the only output column of a subquery.
pub fn scalar_subquery_field(statement: &BoundStatement, position: Option<usize>) -> (r: Result<Field>)
    ensures
        (match r {
            Ok(f) => Ok(f@),
            Err(e) => Err(e@),
        }) == scalar_field(statement@, position),
{
    let schema = bound_query_schema(statement)?;
    if schema.fields.len() != 1 {
        return Err(DbError::at(SYNTAX_ERROR, text("subquery must return only one column"), position));
    }
    assert(schema@.fields[0] == schema.fields@[0]@);
    Ok(schema.fields[0].clone())
}

/// An expression that reads the value of a subquery, after the subquery has been
/// added to the list of subqueries whose first value is at `base`.
pub open spec fn placed(
    kind: BoundApplyKindView,
    query: BoundStatementView,
    base: usize,
    applies: Seq<BoundApplyView>,
    data_type: ScalarTypeView,
    nullable: bool,
    position: Option<usize>,
) -> Checked<(ParsedExprView, Seq<BoundApplyView>)> {
    if base + applies.len() > usize::MAX {
        Err(error("54001"@, "Apply value index overflowed"@))
    } else {
        Ok(
            (
                ParsedExprView {
                    kind: ParsedExprKindView::ApplyValue { index: (base + applies.len()) as usize, data_type, nullable },
                    position,
                },
                applies.push(BoundApplyView { kind, query: Box::new(query) }),
            ),
        )
    }
}

/// The contents of a lowered expression with its subqueries, or of an error.
pub open spec fn applied_result(r: Result<(ParsedExpr, Vec<BoundApply>)>) -> Checked<(ParsedExprView, Seq<BoundApplyView>)> {
    match r {
        Ok(p) => Ok((p.0@, BoundApply::views(p.1@))),
        Err(e) => Err(e@),
    }
}

/// Adds a subquery to a list of subqueries.
pub fn push_bound_apply(
    applies: Vec<BoundApply>,
    base: usize,
    kind: BoundApplyKind,
    query: BoundStatement,
    data_type: ScalarType,
    nullable: bool,
    position: Option<usize>,
) -> (r: Result<(ParsedExpr, Vec<BoundApply>)>)
    ensures
        applied_result(r) == placed(kind@, query@, base, BoundApply::views(applies@), data_type@, nullable, position),
{
    let index: usize = match base.checked_add(applies.len()) {
        Some(k) => k,
        None => {
            return Err(DbError::new("54001", text("Apply value index overflowed")));
        },
    };
    let ghost before = BoundApply::views(applies@);
    let apply = BoundApply { kind, query: Box::new(query) };
    proof {
        apply.unfold();
    }
    let mut applies = applies;
    applies.push(apply);
    assert(BoundApply::views(applies@) =~= before.push(apply@));
    Ok((make_expr(ParsedExprKind::ApplyValue { index, data_type, nullable }, position), applies))
}

/// The type at which an operand meets an output column of a subquery.
pub open spec fn matched_type(
    label: Seq<char>,
    operator: Seq<char>,
    left: ParsedExprView,
    inputs: Seq<InputColumnView>,
    field: ScalarTypeView,
    position: Option<usize>,
) -> Checked<ScalarTypeView> {
    match type_of(left, input_scope(inputs, false)) {
        Err(x) => Err(x),
        Ok(t) => match (match t {
            Some(l) => common(l, field),
            None => Some(field),
        }) {
            None => Err(
                error_at(
                    DATATYPE_MISMATCH@,
                    label + "Some("@ + described(t->0) + ") and "@ + described(field) + " cannot be matched"@,
                    position,
                ),
            ),
            Some(m) => if m is Json {
                Err(error_at("42883"@, operator, position))
            } else {
                Ok(m)
            },
        },
    }
}

fn match_operand(
    label: &str,
    operator: &str,
    left: &ParsedExpr,
    inputs: &Vec<InputColumn>,
    field: &ScalarType,
    position: Option<usize>,
) -> (r:
    Result<ScalarType>)
    ensures
        (match r {
            Ok(t) => Ok(t@),
            Err(e) => Err(e@),
        }) == matched_type(label@, operator@, left@, InputColumn::views(inputs@), field@, position),
{
    let t = infer_type(left, &Scope::Inputs { inputs, aggregates: false })?;
    let m: ScalarType = match &t {
        None => field.clone(),
        Some(l) => match common_type(l, field) {
            Some(m) => m,
            None => {
                let start = text5(label, "Some(", l.describe().as_str(), ") and ", field.describe().as_str());
                return Err(DbError::at(DATATYPE_MISMATCH, text2(start.as_str(), " cannot be matched"), position));
            },
        },
    };
    if matches!(m, ScalarType::Json) {
        return Err(DbError::at("42883", text(operator), position));
    }
    Ok(m)
}

/// The value of a scalar subquery.
#[verifier::opaque]
pub open spec fn scalar_applied(query: BoundStatementView, base: usize, applies: Seq<BoundApplyView>, position: Option<usize>) -> Checked<
    (ParsedExprView, Seq<BoundApplyView>),
> {
    match scalar_field(query, position) {
        Err(x) => Err(x),
        Ok(field) => placed(BoundApplyKindView::Scalar, query, base, applies, field.data_type, true, position),
    }
}

/// Adds a scalar subquery.
pub fn apply_scalar(query: BoundStatement, base: usize, applies: Vec<BoundApply>, position: Option<usize>) -> (r: Result<
    (ParsedExpr, Vec<BoundApply>),
>)
    ensures
        applied_result(r) == scalar_applied(query@, base, BoundApply::views(applies@), position),
{
    reveal(scalar_applied);
    let field = scalar_subquery_field(&query, position)?;
    push_bound_apply(applies, base, BoundApplyKind::Scalar, query, field.data_type, true, position)
}

/// The value of an EXISTS predicate.
#[verifier::opaque]
pub open spec fn exists_applied(
    query: BoundStatementView,
    negated: bool,
    base: usize,
    applies: Seq<BoundApplyView>,
    position: Option<usize>,
) -> Checked<
    (ParsedExprView, Seq<BoundApplyView>),
> {
    placed(BoundApplyKindView::Exists { negated }, query, base, applies, ScalarTypeView::Boolean, false, position)
}

/// Adds an EXISTS predicate.
pub fn apply_exists(query: BoundStatement, negated: bool, base: usize, applies: Vec<BoundApply>, position: Option<usize>) -> (r: Result<
    (ParsedExpr, Vec<BoundApply>),
>)
    ensures
        applied_result(r) == exists_applied(query@, negated, base, BoundApply::views(applies@), position),
{
    reveal(exists_applied);
    push_bound_apply(applies, base, BoundApplyKind::Exists { negated }, query, ScalarType::Boolean, false, position)
}

/// A bound operand and the subquery output that it is compared with.
pub open spec fn operand_of(
    label: Seq<char>,
    operator: Seq<char>,
    left: ParsedExprView,
    query: BoundStatementView,
    inputs: Seq<InputColumnView>,
    position: Option<usize>,
) -> Checked<BoundExprView> {
    match scalar_field(query, position) {
        Err(x) => Err(x),
        Ok(field) => match matched_type(label, operator, left, inputs, field.data_type, position) {
            Err(x) => Err(x),
            Ok(t) => bound_form(left, input_scope(inputs, false), Some(t)),
        },
    }
}

fn bind_operand(
    label: &str,
    operator: &str,
    left: &ParsedExpr,
    query: &BoundStatement,
    inputs: &Vec<InputColumn>,
    position: Option<usize>,
) -> (r:
    Result<BoundExpr>)
    ensures
        crate::scope::expr_result(r) == operand_of(label@, operator@, left@, query@, InputColumn::views(inputs@), position),
{
    let field = scalar_subquery_field(query, position)?;
    let t = match_operand(label, operator, left, inputs, &field.data_type, position)?;
    bind_expr_multi(left, inputs, Some(&t), false)
}

/// The value of an IN predicate over a subquery.
#[verifier::opaque]
pub open spec fn in_applied(
    left: ParsedExprView,
    query: BoundStatementView,
    negated: bool,
    inputs: Seq<InputColumnView>,
    base: usize,
    applies: Seq<BoundApplyView>,
    position: Option<usize>,
) -> Checked<(ParsedExprView, Seq<BoundApplyView>)> {
    match operand_of("IN types "@, "could not identify an equality operator for type json"@, left, query, inputs, position) {
        Err(x) => Err(x),
        Ok(left) => placed(BoundApplyKindView::In { left, negated }, query, base, applies, ScalarTypeView::Boolean, true, position),
    }
}

/// Adds an IN predicate over a subquery.
pub fn apply_in(
    left: &ParsedExpr,
    query: BoundStatement,
    negated: bool,
    inputs: &Vec<InputColumn>,
    base: usize,
    applies: Vec<BoundApply>,
    position: Option<usize>,
) -> (r: Result<(ParsedExpr, Vec<BoundApply>)>)
    ensures
        applied_result(r) == in_applied(left@, query@, negated, InputColumn::views(inputs@), base, BoundApply::views(applies@), position),
{
    reveal(in_applied);
    let left = bind_operand("IN types ", "could not identify an equality operator for type json", left, &query, inputs, position)?;
    push_bound_apply(applies, base, BoundApplyKind::In { left, negated }, query, ScalarType::Boolean, true, position)
}

/// The value of an ANY or ALL comparison with a subquery.
#[verifier::opaque]
pub open spec fn quantified_applied(
    left: ParsedExprView,
    op: BinaryOperator,
    quantifier: SubqueryQuantifier,
    query: BoundStatementView,
    inputs: Seq<InputColumnView>,
    base: usize,
    applies: Seq<BoundApplyView>,
    position: Option<usize>,
) -> Checked<(ParsedExprView, Seq<BoundApplyView>)> {
    match operand_of(
        "quantified comparison types "@,
        "could not identify a comparison operator for type json"@,
        left,
        query,
        inputs,
        position,
    ) {
        Err(x) => Err(x),
        Ok(left) => placed(
            BoundApplyKindView::Quantified { left, op, quantifier },
            query,
            base,
            applies,
            ScalarTypeView::Boolean,
            true,
            position,
        ),
    }
}

/// Adds an ANY or ALL comparison with a subquery.
pub fn apply_quantified(
    left: &ParsedExpr,
    op: BinaryOperator,
    quantifier: SubqueryQuantifier,
    query: BoundStatement,
    inputs: &Vec<InputColumn>,
    base: usize,
    applies: Vec<BoundApply>,
    position: Option<usize>,
) -> (r: Result<(ParsedExpr, Vec<BoundApply>)>)
    ensures
        applied_result(r) == quantified_applied(
            left@,
            op,
            quantifier,
            query@,
            InputColumn::views(inputs@),
            base,
            BoundApply::views(applies@),
            position,
        ),
{
    reveal(quantified_applied);
    let left = bind_operand(
        "quantified comparison types ",
        "could not identify a comparison operator for type json",
        left,
        &query,
        inputs,
        position,
    )?;
    push_bound_apply(
        applies,
        base,
        BoundApplyKind::Quantified { left, op, quantifier },
        query,
        ScalarType::Boolean,
        true,
        position,
    )
}

/// The bound members of a row and the types at which they meet the output of a
/// subquery, from a position on.
pub open spec fn row_of(
    left: Seq<ParsedExprView>,
    fields: Seq<FieldView>,
    inputs: Seq<InputColumnView>,
    position: Option<usize>,
    i: int,
    bound: Seq<BoundExprView>,
    types: Seq<ScalarTypeView>,
) -> Checked<(Seq<BoundExprView>, Seq<ScalarTypeView>)>
    decreases left.len() - i,
{
    if i < 0 || i >= left.len() || i >= fields.len() {
        Ok((bound, types))
    } else {
        match matched_type(
            "row comparison types "@,
            "could not identify an equality operator for type json"@,
            left[i],
            inputs,
            fields[i].data_type,
            position,
        ) {
            Err(x) => Err(x),
            Ok(t) => match bound_form(left[i], input_scope(inputs, false), Some(t)) {
                Err(x) => Err(x),
                Ok(b) => row_of(left, fields, inputs, position, i + 1, bound.push(b), types.push(t)),
            },
        }
    }
}

fn bind_row(left: &Vec<ParsedExpr>, fields: &Vec<Field>, inputs: &Vec<InputColumn>, position: Option<usize>) -> (r: Result<
    (Vec<BoundExpr>, Vec<ScalarType>),
>)
    requires
        left.len() == fields.len(),
    ensures
        (match r {
            Ok(p) => Ok((BoundExpr::views(p.0@), ScalarType::views(p.1@))),
            Err(e) => Err(e@),
        }) == row_of(
            ParsedExpr::views(left@),
            Field::views(fields@),
            InputColumn::views(inputs@),
            position,
            0,
            Seq::empty(),
            Seq::empty(),
        ),
{
    let ghost l = ParsedExpr::views(left@);
    let ghost f = Field::views(fields@);
    let ghost n = InputColumn::views(inputs@);
    let ghost whole = row_of(l, f, n, position, 0, Seq::empty(), Seq::empty());
    let mut bound: Vec<BoundExpr> = Vec::new();
    let mut types: Vec<ScalarType> = Vec::new();
    assert(BoundExpr::views(bound@) =~= Seq::empty());
    assert(ScalarType::views(types@) =~= Seq::empty());
    for i in 0..left.len()
        invariant
            left.len() == fields.len(),
            l == ParsedExpr::views(left@),
            f == Field::views(fields@),
            n == InputColumn::views(inputs@),
            whole == row_of(l, f, n, position, 0, Seq::empty(), Seq::empty()),
            whole == row_of(l, f, n, position, i as int, BoundExpr::views(bound@), ScalarType::views(types@)),
    {
        assert(l[i as int] == left@[i as int]@);
        assert(f[i as int] == fields@[i as int]@);
        let t = match_operand(
            "row comparison types ",
            "could not identify an equality operator for type json",
            &left[i],
            inputs,
            &fields[i].data_type,
            position,
        )?;
        let b = bind_expr_multi(&left[i], inputs, Some(&t), false)?;
        let ghost before = BoundExpr::views(bound@);
        let ghost types_before = ScalarType::views(types@);
        bound.push(b);
        types.push(t);
        assert(BoundExpr::views(bound@) =~= before.push(b@));
        assert(ScalarType::views(types@) =~= types_before.push(t@));
    }
    Ok((bound, types))
}

/// The value of a comparison of a row with a subquery.
#[verifier::opaque]
pub open spec fn row_applied(
    left: Seq<ParsedExprView>,
    op: BinaryOperator,
    quantifier: Option<SubqueryQuantifier>,
    negated: bool,
    query: BoundStatementView,
    inputs: Seq<InputColumnView>,
    base: usize,
    applies: Seq<BoundApplyView>,
    position: Option<usize>,
) -> Checked<(ParsedExprView, Seq<BoundApplyView>)> {
    match query_schema(query) {
        Err(x) => Err(x),
        Ok(schema) => if left.len() != schema.fields.len() {
            Err(error_at(SYNTAX_ERROR@, "unequal number of entries in row expressions"@, position))
        } else {
            match row_of(left, schema.fields, inputs, position, 0, Seq::empty(), Seq::empty()) {
                Err(x) => Err(x),
                Ok((left, operand_types)) => match quantifier {
                    Some(quantifier) => placed(
                        BoundApplyKindView::RowQuantified { left, op, quantifier, negated, operand_types },
                        query,
                        base,
                        applies,
                        ScalarTypeView::Boolean,
                        true,
                        position,
                    ),
                    None => if negated {
                        Err(internal_error("scalar row subquery retained a negated quantifier flag"@))
                    } else {
                        placed(
                            BoundApplyKindView::RowScalar { left, op, operand_types },
                            query,
                            base,
                            applies,
                            ScalarTypeView::Boolean,
                            true,
                            position,
                        )
                    },
                },
            }
        },
    }
}

/// Adds a comparison of a row with a subquery.
pub fn apply_row(
    left: &Vec<ParsedExpr>,
    op: BinaryOperator,
    quantifier: Option<SubqueryQuantifier>,
    negated: bool,
    query: BoundStatement,
    inputs: &Vec<InputColumn>,
    base: usize,
    applies: Vec<BoundApply>,
    position: Option<usize>,
) -> (r: Result<(ParsedExpr, Vec<BoundApply>)>)
    ensures
        applied_result(r) == row_applied(
            ParsedExpr::views(left@),
            op,
            quantifier,
            negated,
            query@,
            InputColumn::views(inputs@),
            base,
            BoundApply::views(applies@),
            position,
        ),
{
    reveal(row_applied);
    let schema = bound_query_schema(&query)?;
    if left.len() != schema.fields.len() {
        return Err(DbError::at(SYNTAX_ERROR, text("unequal number of entries in row expressions"), position));
    }
    let (left, operand_types) = bind_row(left, &schema.fields, inputs, position)?;
    let kind = match quantifier {
        Some(quantifier) => BoundApplyKind::RowQuantified { left, op, quantifier, negated, operand_types },
        None => {
            if negated {
                return Err(DbError::internal("scalar row subquery retained a negated quantifier flag"));
            }
            BoundApplyKind::RowScalar { left, op, operand_types }
        },
    };
    push_bound_apply(applies, base, kind, query, ScalarType::Boolean, true, position)
}

} // verus!
