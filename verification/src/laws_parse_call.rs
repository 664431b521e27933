//! What the syntax tree of constants and calls keeps of what was written.

use sqlparser::ast::{
    DuplicateTreatment, Expr, Function, FunctionArg, FunctionArgExpr, FunctionArguments, TrimWhereField, Value as SqlValue, WindowFrame,
    WindowFrameBound, WindowSpec, WindowType,
};
use vstd::prelude::*;

use crate::convert_parts::{aggregate_named, frame_units, only_star, path_text, scalar_named, trim_function, window_function_named};
use crate::convert_rules::{
    arguments_in, call_of, converted_expr, unfold_aggregate_argument, unfold_arguments_in, unfold_arguments_of, unfold_bound_of,
    unfold_call_expr, unfold_call_of, unfold_converted_box, unfold_converted_expr, unfold_frame_of, unfold_leaf_expr, unfold_plain_call,
    unfold_text_expr, unfold_window_arguments, unfold_window_call_of, unfold_window_spec_of, window_spec_of,
};
use crate::laws_parse::{lemma_list_kept, lemma_order_kept, same_sort_key, says};
use crate::literals::{function_named, literal_kind, starts_with};
use crate::numbers::unsigned_value;
use crate::syntax::{
    AggregateFunction, ParsedExprKindView, ParsedExprView, ParsedWindowFrameBoundView, ParsedWindowFrameView, ScalarFunction,
    WindowFunction,
};
use crate::types::{DbErrorView, ValueView};

verus! {

/// Whether a function goes under a name.
pub open spec fn goes_under(f: ScalarFunction, name: Seq<char>) -> bool {
    match f {
        ScalarFunction::Version => name == "version"@,
        ScalarFunction::CurrentDatabase => name == "current_database"@ || name == "current_catalog"@,
        ScalarFunction::CurrentUser => name == "current_user"@ || name == "user"@,
        ScalarFunction::SessionUser => name == "session_user"@,
        ScalarFunction::CurrentSetting => name == "current_setting"@,
        ScalarFunction::Lower => name == "lower"@,
        ScalarFunction::Upper => name == "upper"@,
        ScalarFunction::CharacterLength => name == "length"@ || name == "char_length"@ || name == "character_length"@,
        ScalarFunction::OctetLength => name == "octet_length"@,
        ScalarFunction::Abs => name == "abs"@,
        ScalarFunction::Coalesce => name == "coalesce"@,
        ScalarFunction::NullIf => name == "nullif"@,
        ScalarFunction::Concat => name == "concat"@,
        ScalarFunction::Substring => name == "substring"@ || name == "substr"@,
        ScalarFunction::Btrim => name == "btrim"@ || name == "trim"@,
        ScalarFunction::Ltrim => name == "ltrim"@,
        ScalarFunction::Rtrim => name == "rtrim"@,
        ScalarFunction::Replace => name == "replace"@,
        ScalarFunction::Strpos => name == "strpos"@,
        ScalarFunction::Greatest => name == "greatest"@,
        ScalarFunction::Least => name == "least"@,
        ScalarFunction::JsonbTypeof => name == "jsonb_typeof"@,
        ScalarFunction::ArrayLength => name == "array_length"@,
        ScalarFunction::Cardinality => name == "cardinality"@,
    }
}

/// A function is found only under its own names, with or without its schema.
pub proof fn lemma_functions_keep_their_names(name: Seq<char>)
    ensures
        scalar_named(Some(name)) matches Some(f) ==> goes_under(f, name) || exists|rest: Seq<char>|
            #[trigger] goes_under(f, rest) && name == "pg_catalog."@ + rest,
        scalar_named(None) is None,
{
    reveal(scalar_named);
    reveal(function_named);
    let prefix = "pg_catalog."@;
    if starts_with(name, prefix) {
        let rest = name.skip(prefix.len() as int);
        assert(prefix + rest =~= name);
        if let Some(f) = scalar_named(Some(name)) {
            assert(goes_under(f, rest));
        }
    }
}

/// An aggregate is found only under its own name.
pub proof fn lemma_aggregates_keep_their_names(path: Option<Seq<char>>)
    ensures
        aggregate_named(path) matches Some(f) ==> path == Some(
            match f {
                AggregateFunction::Count => "count"@,
                AggregateFunction::Sum => "sum"@,
                AggregateFunction::Avg => "avg"@,
                AggregateFunction::Min => "min"@,
                AggregateFunction::Max => "max"@,
            },
        ),
{
    reveal(aggregate_named);
}

/// A window function is found only under its own name; an aggregate over a window is that
/// aggregate.
pub proof fn lemma_window_functions_keep_their_names(path: Option<Seq<char>>)
    ensures
        window_function_named(path) matches Some(f) ==> match f {
            WindowFunction::RowNumber => path == Some("row_number"@),
            WindowFunction::Rank => path == Some("rank"@),
            WindowFunction::DenseRank => path == Some("dense_rank"@),
            WindowFunction::Lag => path == Some("lag"@),
            WindowFunction::Lead => path == Some("lead"@),
            WindowFunction::FirstValue => path == Some("first_value"@),
            WindowFunction::LastValue => path == Some("last_value"@),
            WindowFunction::NthValue => path == Some("nth_value"@),
            WindowFunction::Aggregate(a) => aggregate_named(path) == Some(a),
        },
{
    reveal(window_function_named);
}

/// A constant keeps its value: NULL, TRUE and FALSE, the characters of a string, and a
/// number that is written in digits. A number takes the smallest integer type that holds
/// it, from 32 bits up.
pub proof fn lemma_constants_kept(v: SqlValue, position: Option<usize>)
    ensures
        literal_kind(v, position) matches Ok(k) ==> match v {
            SqlValue::Null => k == ParsedExprKindView::Literal(ValueView::Null),
            SqlValue::Boolean(b) => k == ParsedExprKindView::Literal(ValueView::Boolean(b)),
            SqlValue::SingleQuotedString(s) => k == ParsedExprKindView::Literal(ValueView::Text(s@)),
            SqlValue::DollarQuotedString(s) => k == ParsedExprKindView::Literal(ValueView::Text(s.value@)),
            SqlValue::Number(s, _) => unsigned_value(s@) matches Some(n) ==> {
                &&& n <= 0x7fff_ffff ==> (k matches ParsedExprKindView::Literal(ValueView::Int32(i)) && i == n)
                &&& 0x7fff_ffff < n <= 0x7fff_ffff_ffff_ffff ==> (k matches ParsedExprKindView::Literal(ValueView::Int64(i)) && i == n)
                &&& n > 0x7fff_ffff_ffff_ffff ==> (k matches ParsedExprKindView::Literal(ValueView::Decimal(_)))
            },
            SqlValue::Placeholder(s) => k is Parameter && k->Parameter_0 > 0 && (s@.len() > 0 && s@[0] == '$' ==> unsigned_value(s@.skip(1)) == Some(
                k->Parameter_0 as nat,
            )),
            _ => k is Literal && k->Literal_0 is Text,
        },
{
    reveal(literal_kind);
    reveal(crate::literals::at_parameter);
}

proof fn lemma_arguments_from(
    l: Seq<FunctionArg>,
    sql: Seq<char>,
    message: Seq<char>,
    position: Option<usize>,
    i: int,
    done: Seq<ParsedExprView>,
)
    requires
        0 <= i <= l.len(),
    ensures
        arguments_in(l, sql, message, position, i, done) matches Ok(r) ==> {
            &&& r.len() == done.len() + l.len() - i
            &&& forall|k: int| 0 <= k < done.len() ==> r[k] == done[k]
            &&& forall|k: int| i <= k < l.len() ==> same_argument(#[trigger] l[k], sql, r[done.len() + k - i])
        },
    decreases l.len() - i,
{
    unfold_arguments_in(l, sql, message, position, i, done);
    if i < l.len() {
        if let FunctionArg::Unnamed(FunctionArgExpr::Expr(e)) = l[i] {
            if let Ok(b) = converted_expr(e, sql) {
                lemma_arguments_from(l, sql, message, position, i + 1, done.push(b));
                if let Ok(r) = arguments_in(l, sql, message, position, i, done) {
                    assert(r[done.len() as int] == done.push(b)[done.len() as int]);
                    assert forall|k: int| 0 <= k < done.len() implies r[k] == done[k] by {
                        assert(r[k] == done.push(b)[k]);
                    }
                }
            }
        }
    }
}

/// Whether an argument is the one that was written.
pub open spec fn same_argument(a: FunctionArg, sql: Seq<char>, p: ParsedExprView) -> bool {
    a matches FunctionArg::Unnamed(FunctionArgExpr::Expr(e)) && says(e, sql, p)
}

/// Whether arguments are those that were written, in order.
pub open spec fn same_arguments(l: Seq<FunctionArg>, sql: Seq<char>, r: Seq<ParsedExprView>) -> bool {
    &&& l.len() == r.len()
    &&& forall|k: int| 0 <= k < l.len() ==> same_argument(#[trigger] l[k], sql, r[k])
}

/// Whether a boxed clause is there exactly where it was written, and says the same.
pub open spec fn same_box(e: Option<Box<Expr>>, sql: Seq<char>, p: Option<Box<ParsedExprView>>) -> bool {
    &&& e is Some <==> p is Some
    &&& e is Some ==> says(*e->0, sql, *p->0)
}

/// A call without a window keeps its function, its arguments in their order, its DISTINCT
/// and its FILTER; COUNT(*) has no argument.
pub proof fn lemma_call_kept(f: Function, sql: Seq<char>, position: Option<usize>)
    requires
        f.over is None,
    ensures
        call_of(f, sql, position) matches Ok(k) ==> match k {
            ParsedExprKindView::Function { function, arguments } => {
                &&& scalar_named(path_text(f.name)) == Some(function)
                &&& f.filter is None
                &&& f.args is None ==> arguments.len() == 0
                &&& f.args matches FunctionArguments::List(list) ==> same_arguments(list.args@, sql, arguments) && list.duplicate_treatment is None
            },
            ParsedExprKindView::Aggregate { function, argument, distinct, filter } => {
                &&& scalar_named(path_text(f.name)) is None
                &&& aggregate_named(path_text(f.name)) == Some(function)
                &&& same_box(f.filter, sql, filter)
                &&& f.args matches FunctionArguments::List(list) && (distinct <==> list.duplicate_treatment == Some(
                    DuplicateTreatment::Distinct,
                )) && (argument is Some ==> list.args@.len() == 1 && same_argument(list.args@[0], sql, *argument->0)) && (argument is None
                    ==> function is Count && !distinct && list.args@.len() == 1 && (list.args@[0] matches FunctionArg::Unnamed(
                    FunctionArgExpr::Wildcard,
                )))
            },
            _ => false,
        },
{
    unfold_call_of(f, sql, position);
    unfold_plain_call(f, sql, position);
    unfold_converted_box(f.filter, sql);
    unfold_arguments_of(f.args, sql, position);
    if let FunctionArguments::List(list) = f.args {
        lemma_arguments_from(
            list.args@,
            sql,
            "function calls support positional expression arguments only"@,
            position,
            0,
            Seq::empty(),
        );
        if let Some(function) = aggregate_named(path_text(f.name)) {
            unfold_aggregate_argument(list, function, list.duplicate_treatment == Some(DuplicateTreatment::Distinct), sql, position);
        }
    }
}

/// Whether a bound of a frame is the one that was written.
pub open spec fn same_bound(b: WindowFrameBound, sql: Seq<char>, r: ParsedWindowFrameBoundView) -> bool {
    match b {
        WindowFrameBound::CurrentRow => r is CurrentRow,
        WindowFrameBound::Preceding(None) => r is UnboundedPreceding,
        WindowFrameBound::Preceding(Some(e)) => r is Preceding && says(*e, sql, *r->Preceding_0),
        WindowFrameBound::Following(None) => r is UnboundedFollowing,
        WindowFrameBound::Following(Some(e)) => r is Following && says(*e, sql, *r->Following_0),
    }
}

/// Whether a frame is the one that was written; it ends at the current row where no end
/// was written.
pub open spec fn same_frame(f: WindowFrame, sql: Seq<char>, r: ParsedWindowFrameView) -> bool {
    &&& f.units is Rows <==> r.units is Rows
    &&& f.units is Range <==> r.units is Range
    &&& same_bound(f.start_bound, sql, r.start_bound)
    &&& match f.end_bound {
        Some(b) => same_bound(b, sql, r.end_bound),
        None => r.end_bound is CurrentRow,
    }
}

/// A window keeps its PARTITION BY, its ORDER BY with the directions, and its frame.
pub proof fn lemma_window_kept(w: WindowSpec, sql: Seq<char>)
    ensures
        window_spec_of(w, sql) matches Ok(r) ==> {
            &&& r.partition_by.len() == w.partition_by@.len()
            &&& forall|k: int| 0 <= k < w.partition_by@.len() ==> says(#[trigger] w.partition_by@[k], sql, r.partition_by[k])
            &&& r.order_by.len() == w.order_by@.len()
            &&& forall|k: int| 0 <= k < w.order_by@.len() ==> same_sort_key(#[trigger] w.order_by@[k], sql, r.order_by[k])
            &&& w.window_frame is Some <==> r.frame is Some
            &&& w.window_frame is Some ==> same_frame(w.window_frame->0, sql, r.frame->0)
            &&& w.window_name is Some <==> r.window_name is Some
        },
{
    unfold_window_spec_of(w, sql);
    lemma_list_kept(w.partition_by@, sql);
    lemma_order_kept(w.order_by@, sql);
    reveal(frame_units);
    reveal(crate::source::some_ident);
    if let Some(f) = w.window_frame {
        unfold_frame_of(f, sql);
        unfold_bound_of(f.start_bound, sql);
        if let Some(b) = f.end_bound {
            unfold_bound_of(b, sql);
        }
    }
}

/// A call over a window keeps its function, its arguments in their order and its FILTER,
/// and its window is the one that was written.
pub proof fn lemma_window_call_kept(f: Function, sql: Seq<char>, position: Option<usize>)
    requires
        f.over is Some,
    ensures
        call_of(f, sql, position) matches Ok(k) ==> {
            let call = if k is Window {
                *k->Window_call
            } else {
                *k->NamedWindow_call
            };
            &&& window_function_named(path_text(f.name)) == Some(call.function)
            &&& same_box(f.filter, sql, call.filter)
            &&& f.args matches FunctionArguments::List(list) && (if call.count_star {
                only_star(list.args@) && call.arguments.len() == 0
            } else {
                same_arguments(list.args@, sql, call.arguments)
            })
            &&& match f.over->0 {
                WindowType::NamedWindow(name) => k is NamedWindow && k->NamedWindow_name == crate::source::ident_of(name, sql),
                WindowType::WindowSpec(w) => k is Window && window_spec_of(w, sql) == Ok::<_, DbErrorView>(*k->Window_spec),
            }
        },
{
    unfold_call_of(f, sql, position);
    unfold_window_call_of(f, sql, position);
    unfold_converted_box(f.filter, sql);
    if let Some(function) = window_function_named(path_text(f.name)) {
        unfold_window_arguments(f.args, function, sql, position);
        if let FunctionArguments::List(list) = f.args {
            lemma_arguments_from(
                list.args@,
                sql,
                "window calls support positional expression arguments only"@,
                position,
                0,
                Seq::empty(),
            );
        }
    }
}

/// SUBSTRING takes its text, its start and its length in that order, and TRIM trims the
/// side that was written.
pub proof fn lemma_text_functions_kept(e: Expr, sql: Seq<char>)
    ensures
        converted_expr(e, sql) matches Ok(p) ==> match e {
            Expr::Substring { expr, substring_from, substring_for, .. } => {
                &&& p.kind is Function
                &&& p.kind->Function_function is Substring
                &&& p.kind->Function_arguments.len() == if substring_for is Some {
                    3nat
                } else {
                    2nat
                }
                &&& says(*expr, sql, p.kind->Function_arguments[0])
                &&& substring_from is Some && says(*substring_from->0, sql, p.kind->Function_arguments[1])
                &&& substring_for is Some ==> says(*substring_for->0, sql, p.kind->Function_arguments[2])
            },
            Expr::Trim { expr, trim_where, trim_what, .. } => {
                &&& p.kind is Function
                &&& trim_where == Some(TrimWhereField::Leading) <==> p.kind->Function_function is Ltrim
                &&& trim_where == Some(TrimWhereField::Trailing) <==> p.kind->Function_function is Rtrim
                &&& (trim_where is None || trim_where == Some(TrimWhereField::Both)) <==> p.kind->Function_function is Btrim
                &&& says(*expr, sql, p.kind->Function_arguments[0])
                &&& trim_what is Some ==> p.kind->Function_arguments.len() == 2 && says(*trim_what->0, sql, p.kind->Function_arguments[1])
                &&& trim_what is None ==> p.kind->Function_arguments.len() == 1
            },
            Expr::Position { expr, .. } => {
                &&& p.kind is Function
                &&& p.kind->Function_function is Strpos
                &&& p.kind->Function_arguments.len() == 2
                &&& says(*expr, sql, p.kind->Function_arguments[1])
            },
            Expr::Function(f) => call_of(f, sql, p.position) == Ok::<_, DbErrorView>(p.kind),
            Expr::Value(v) => literal_kind(v.value, p.position) == Ok::<_, DbErrorView>(p.kind),
            _ => true,
        },
{
    unfold_converted_expr(e, sql);
    reveal(trim_function);
    let position = crate::source::place_of(sql, crate::outside::expr_start(e));
    match e {
        Expr::Substring { .. } | Expr::Trim { .. } | Expr::Position { .. } => unfold_text_expr(e, sql, position),
        Expr::Function(_) => unfold_call_expr(e, sql, position),
        Expr::Value(_) => unfold_leaf_expr(e, sql, position),
        _ => {},
    }
}

} // verus!
