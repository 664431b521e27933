//! What rows, names, arrays and calls of sequences become.

use sqlparser::ast::{Expr, Function};
use vstd::prelude::*;

use crate::convert_parts::{either, row_compared, rows_equal, sequence_named, sequence_select, SequenceCall};
use crate::convert_rules::{
    converted_expr, plain_call, rows_in, unfold_array_expr, unfold_array_of, unfold_converted_expr, unfold_leaf_expr, unfold_list_expr,
    unfold_plain_call, unfold_row_items, unfold_rows_in,
};
use crate::laws_parse::{lemma_list_kept, says};
use crate::literals::{arity_check, at_parameter, row_comparison};
use crate::named_windows::{inherited, window_named, WindowDefinitionView};
use crate::queries::view_items;
use crate::ordering::field_named;
use crate::source::{ident_of, idents_of};
use crate::syntax::{
    BinaryOperator, ParsedExprKindView, ParsedExprView, ParsedIdentifierView, ParsedProjectionView, ParsedWindowSpecView, ScalarFunction,
};
use crate::types::{DbErrorView, FieldView, ValueView};

verus! {

/// Whether an expression compares the first members of two rows for equality, each with its
/// partner, and asks for all of them.
pub open spec fn equates(p: ParsedExprView, a: Seq<ParsedExprView>, b: Seq<ParsedExprView>, n: int) -> bool
    decreases n,
{
    &&& p.kind is Binary
    &&& if n <= 1 {
        p.kind->Binary_op is Eq && *p.kind->Binary_left == a[0] && *p.kind->Binary_right == b[0]
    } else {
        &&& p.kind->Binary_op is And
        &&& equates(*p.kind->Binary_left, a, b, n - 1)
        &&& p.kind->Binary_right.kind is Binary
        &&& p.kind->Binary_right.kind->Binary_op is Eq
        &&& *p.kind->Binary_right.kind->Binary_left == a[n - 1]
        &&& *p.kind->Binary_right.kind->Binary_right == b[n - 1]
    }
}

proof fn lemma_equates(a: Seq<ParsedExprView>, b: Seq<ParsedExprView>, n: nat, position: Option<usize>)
    ensures
        equates(rows_equal(a, b, n, position), a, b, n as int),
    decreases n,
{
    if n > 1 {
        lemma_equates(a, b, (n - 1) as nat, position);
    }
}

/// Two rows are equal where all their members are, and unequal where that is not so.
pub proof fn lemma_row_comparison_told(op: BinaryOperator, a: Seq<ParsedExprView>, b: Seq<ParsedExprView>, position: Option<usize>)
    ensures
        op is NotEq ==> ({
            let p = row_compared(op, a, b, position);
            &&& p.kind is Unary
            &&& p.kind->Unary_op is Not
            &&& equates(*p.kind->Unary_expr, a, b, a.len() as int)
        }),
        !(op is NotEq) ==> equates(row_compared(op, a, b, position), a, b, a.len() as int),
        row_comparison(op, position) is Ok <==> op is Eq || op is NotEq,
{
    reveal(row_compared);
    reveal(row_comparison);
    lemma_equates(a, b, a.len(), position);
}

/// Whether an expression asks for a row to equal one of several rows, in the order in which
/// they were written.
pub open spec fn matches_any(p: ParsedExprView, left: Seq<ParsedExprView>, rights: Seq<Seq<ParsedExprView>>) -> bool
    decreases rights.len(),
{
    if rights.len() == 0 {
        false
    } else if rights.len() == 1 {
        equates(p, left, rights[0], left.len() as int)
    } else {
        &&& p.kind is Binary
        &&& p.kind->Binary_op is Or
        &&& matches_any(*p.kind->Binary_left, left, rights.drop_last())
        &&& equates(*p.kind->Binary_right, left, rights.last(), left.len() as int)
    }
}

/// Whether rows are those of a list of expressions.
pub open spec fn rows_of_list(l: Seq<Expr>, sql: Seq<char>, n: int, rights: Seq<Seq<ParsedExprView>>) -> bool {
    &&& rights.len() == n
    &&& forall|k: int| 0 <= k < n ==> crate::laws_parse::same_row(#[trigger] l[k], sql, rights[k])
}

proof fn lemma_rows_in(
    left: Seq<ParsedExprView>,
    l: Seq<Expr>,
    sql: Seq<char>,
    position: Option<usize>,
    i: int,
    done: Option<ParsedExprView>,
    rights: Seq<Seq<ParsedExprView>>,
) -> (all: Seq<Seq<ParsedExprView>>)
    requires
        0 <= i <= l.len(),
        rows_of_list(l, sql, i, rights),
        done is Some <==> i > 0,
        done is Some ==> matches_any(done->0, left, rights),
    ensures
        rows_in(left, l, sql, position, i, done) matches Ok(r) ==> (l.len() > 0 ==> r is Some) && (r is Some ==> rows_of_list(
            l,
            sql,
            l.len() as int,
            all,
        ) && matches_any(r->0, left, all)),
    decreases l.len() - i,
{
    unfold_rows_in(left, l, sql, position, i, done);
    if i < l.len() && l[i] is Tuple {
        if let Expr::Tuple(r) = l[i] {
            unfold_row_items(r@, sql, position);
            lemma_list_kept(r@, sql);
            if let Ok(right) = crate::convert_rules::row_items(r@, sql, position) {
                let next = either(done, rows_equal(left, right, left.len(), position), position);
                lemma_equates(left, right, left.len(), position);
                let more = rights.push(right);
                assert(more.drop_last() =~= rights);
                assert forall|k: int| 0 <= k < i + 1 implies crate::laws_parse::same_row(#[trigger] l[k], sql, more[k]) by {
                    if k < i {
                        assert(more[k] == rights[k]);
                    }
                }
                lemma_rows_in(left, l, sql, position, i + 1, Some(next), more)
            } else {
                rights
            }
        } else {
            rights
        }
    } else {
        rights
    }
}

/// A row is in a list of rows where it equals one of them, and not in it where that is not
/// so.
pub proof fn lemma_row_in_list_told(e: Expr, sql: Seq<char>)
    ensures
        e matches Expr::InList { expr, list, negated } ==> (*expr is Tuple ==> (converted_expr(e, sql) matches Ok(p) ==> exists|
            left: Seq<ParsedExprView>,
            rights: Seq<Seq<ParsedExprView>>,
        |
            #![trigger rows_of_list(list@, sql, list@.len() as int, rights), crate::laws_parse::same_row(*expr, sql, left)]
            {
                &&& crate::laws_parse::same_row(*expr, sql, left)
                &&& rows_of_list(list@, sql, list@.len() as int, rights)
                &&& if negated {
                    p.kind is Unary && p.kind->Unary_op is Not && matches_any(*p.kind->Unary_expr, left, rights)
                } else {
                    matches_any(p, left, rights)
                }
            })),
{
    unfold_converted_expr(e, sql);
    let position = crate::source::place_of(sql, crate::outside::expr_start(e));
    if let Expr::InList { expr, list, negated } = e {
        unfold_list_expr(e, sql, position);
        if let Expr::Tuple(row) = *expr {
            unfold_row_items(row@, sql, position);
            lemma_list_kept(row@, sql);
            if let Ok(left) = crate::convert_rules::row_items(row@, sql, position) {
                let rights = lemma_rows_in(left, list@, sql, position, 0, None, Seq::empty());
                if converted_expr(e, sql) is Ok {
                    assert(crate::laws_parse::same_row(*expr, sql, left));
                    assert(rows_of_list(list@, sql, list@.len() as int, rights));
                }
            }
        }
    }
}

/// A name is a column of that name, part by part, unless it is written as a parameter.
pub proof fn lemma_names_kept(e: Expr, sql: Seq<char>)
    ensures
        e matches Expr::Identifier(i) ==> (converted_expr(e, sql) matches Ok(p) && (if i.quote_style is None && at_parameter(i.value@) is Some {
            p.kind == ParsedExprKindView::Parameter(at_parameter(i.value@)->0)
        } else {
            p.kind is Column && p.kind->Column_0.parts.len() == 1 && p.kind->Column_0.parts[0] == ident_of(i, sql)
        })),
        e matches Expr::CompoundIdentifier(l) ==> (converted_expr(e, sql) matches Ok(p) && p.kind is Column && p.kind->Column_0.parts.len()
            == l@.len() && forall|k: int| 0 <= k < l@.len() ==> p.kind->Column_0.parts[k] == ident_of(#[trigger] l@[k], sql)),
{
    unfold_converted_expr(e, sql);
    reveal(idents_of);
    let position = crate::source::place_of(sql, crate::outside::expr_start(e));
    if e is Identifier || e is CompoundIdentifier {
        unfold_leaf_expr(e, sql, position);
    }
}

/// An array of plain elements keeps them in their order, in one dimension that counts from
/// one.
pub proof fn lemma_array_kept(e: Expr, sql: Seq<char>)
    ensures
        e matches Expr::Array(a) ==> (a.elem@.len() > 0 && !(a.elem@[0] is Array) ==> (converted_expr(e, sql) matches Ok(p) ==> {
            &&& p.kind is Array
            &&& p.kind->Array_elements.len() == a.elem@.len()
            &&& forall|k: int| 0 <= k < a.elem@.len() ==> says(#[trigger] a.elem@[k], sql, p.kind->Array_elements[k])
            &&& p.kind->Array_dimensions.len() == 1
            &&& p.kind->Array_dimensions[0].length == a.elem@.len() as usize
            &&& p.kind->Array_dimensions[0].lower_bound == 1
        })),
{
    unfold_converted_expr(e, sql);
    let position = crate::source::place_of(sql, crate::outside::expr_start(e));
    if let Expr::Array(a) = e {
        unfold_array_expr(e, sql, position);
        unfold_array_of(a.elem@, sql, position);
        lemma_list_kept(a.elem@, sql);
    }
}

/// Whether a function takes a number of arguments.
pub open spec fn takes(f: ScalarFunction, count: nat) -> bool {
    match f {
        ScalarFunction::Version | ScalarFunction::CurrentDatabase | ScalarFunction::CurrentUser | ScalarFunction::SessionUser => count == 0,
        ScalarFunction::CurrentSetting => 1 <= count <= 2,
        ScalarFunction::Lower | ScalarFunction::Upper | ScalarFunction::CharacterLength | ScalarFunction::OctetLength | ScalarFunction::Abs
        | ScalarFunction::JsonbTypeof | ScalarFunction::Cardinality => count == 1,
        ScalarFunction::NullIf | ScalarFunction::Strpos | ScalarFunction::ArrayLength => count == 2,
        ScalarFunction::Substring => 2 <= count <= 3,
        ScalarFunction::Btrim | ScalarFunction::Ltrim | ScalarFunction::Rtrim => 1 <= count <= 2,
        ScalarFunction::Replace => count == 3,
        ScalarFunction::Coalesce | ScalarFunction::Concat | ScalarFunction::Greatest | ScalarFunction::Least => count >= 1,
    }
}

/// A call of a built-in function has as many arguments as the function takes.
pub proof fn lemma_calls_have_their_arguments(f: Function, sql: Seq<char>, position: Option<usize>)
    ensures
        plain_call(f, sql, position) matches Ok(k) ==> (k matches ParsedExprKindView::Function { function, arguments } ==> takes(
            function,
            arguments.len(),
        )),
{
    unfold_plain_call(f, sql, position);
    reveal(arity_check);
}

/// A window that builds on another takes its partitions from that one, its order from
/// itself or else from that one, and its frame from itself.
pub proof fn lemma_inherited_window(spec: ParsedWindowSpecView, windows: Seq<WindowDefinitionView>)
    ensures
        inherited(spec, windows) matches Ok(r) ==> {
            &&& r.frame == spec.frame
            &&& spec.order_by.len() > 0 ==> r.order_by == spec.order_by
            &&& spec.window_name is None ==> r == spec
            &&& spec.window_name matches Some(name) ==> (window_named(name, windows) matches Ok(base) && spec.partition_by.len() == 0
                && r.partition_by == base.partition_by && base.frame is None && (spec.order_by.len() == 0 ==> r.order_by == base.order_by) && !(
            spec.order_by.len() > 0 && base.order_by.len() > 0))
        },
{
    reveal(inherited);
}

/// A call that asks a sequence is the one that its name says, on the sequence that its first
/// argument names.
pub proof fn lemma_sequence_call_kept(call: SequenceCall, arguments: Seq<ParsedExprView>, alias: Option<ParsedIdentifierView>)
    ensures
        sequence_select(call, arguments, alias) matches Ok(s) ==> {
            &&& s is SequenceValue
            &&& s->SequenceValue_alias == alias
            &&& sequence_named(arguments[0]) == Ok::<_, DbErrorView>(s->SequenceValue_name)
            &&& match call {
                SequenceCall::NextValue => arguments.len() == 1 && s->SequenceValue_operation is NextValue,
                SequenceCall::CurrentValue => arguments.len() == 1 && s->SequenceValue_operation is CurrentValue,
                SequenceCall::SetValue => {
                    &&& s->SequenceValue_operation is SetValue
                    &&& s->SequenceValue_operation->SetValue_value == arguments[1]
                    &&& arguments.len() == 2 ==> s->SequenceValue_operation->SetValue_is_called
                    &&& arguments.len() != 2 ==> arguments.len() == 3 && arguments[2].kind == ParsedExprKindView::Literal(
                        ValueView::Boolean(s->SequenceValue_operation->SetValue_is_called),
                    )
                },
            }
        },
{
    reveal(sequence_select);
}

proof fn lemma_field_found(l: Seq<FieldView>, name: Seq<char>, i: int)
    requires
        0 <= i,
        l.len() <= usize::MAX,
    ensures
        field_named(l, name, i) matches Some(k) ==> i <= k < l.len() && l[k as int].name == name,
    decreases l.len() - i,
{
    if i < l.len() && l[i].name != name {
        lemma_field_found(l, name, i + 1);
    }
}

/// A query on a view without a star shows one column for each that it names: the column of
/// the view of that name, under its alias where it has one.
pub proof fn lemma_view_columns_told(
    l: Seq<ParsedProjectionView>,
    fields: Seq<FieldView>,
    i: int,
    positions: Seq<usize>,
    done: Seq<FieldView>,
)
    requires
        0 <= i <= l.len(),
        fields.len() <= usize::MAX,
        positions.len() == i,
        done.len() == i,
        forall|k: int| 0 <= k < l.len() ==> (#[trigger] l[k]) is Expression,
        forall|k: int| 0 <= k < i ==> view_column_told(#[trigger] l[k], fields, positions[k], done[k]),
    ensures
        view_items(l, fields, i, positions, done) matches Ok((p, f)) ==> p.len() == l.len() && f.len() == l.len() && forall|k: int|
            0 <= k < l.len() ==> view_column_told(#[trigger] l[k], fields, p[k], f[k]),
    decreases l.len() - i,
{
    if i < l.len() {
        if let ParsedProjectionView::Expression { expr, alias } = l[i] {
            if let ParsedExprKindView::Column(name) = expr.kind {
                if name.parts.len() > 0 {
                    lemma_field_found(fields, name.parts.last().name, 0);
                    if let Some(k) = field_named(fields, name.parts.last().name, 0) {
                        let f = FieldView {
                            name: match alias {
                                Some(a) => a.name,
                                None => fields[k as int].name,
                            },
                            ..fields[k as int]
                        };
                        let (p, d) = (positions.push(k), done.push(f));
                        assert forall|j: int| 0 <= j < i + 1 implies view_column_told(#[trigger] l[j], fields, p[j], d[j]) by {
                            if j < i {
                                assert(p[j] == positions[j]);
                                assert(d[j] == done[j]);
                            }
                        }
                        lemma_view_columns_told(l, fields, i + 1, p, d);
                    }
                }
            }
        }
    }
}

/// Whether a column of a view is the one that an item of a select list names.
pub open spec fn view_column_told(item: ParsedProjectionView, fields: Seq<FieldView>, position: usize, f: FieldView) -> bool {
    item matches ParsedProjectionView::Expression { expr, alias } && (expr.kind matches ParsedExprKindView::Column(name) && name.parts.len() > 0
        && position < fields.len() && fields[position as int].name == name.parts.last().name && f.data_type
        == fields[position as int].data_type && f.nullable == fields[position as int].nullable && f.name == (match alias {
        Some(a) => a.name,
        None => name.parts.last().name,
    }))
}

} // verus!
