//! The small pieces of taking over a syntax tree.

use sqlparser::ast::{
    Distinct, FunctionArg, FunctionArgExpr, GroupByExpr, ObjectName, ObjectNamePart, Select, SetOperator, SetQuantifier, TableAlias,
    TableAliasColumnDef, TableFactor, TableWithJoins, TrimWhereField, Value as SqlValue, WindowFrameUnits as SqlWindowFrameUnits,
};
use vstd::prelude::*;

use crate::binding::{make_expr, some_view};
use crate::literals::{function_named, scalar_function_from_name};
use crate::named_windows::{
    named_all, named_items, named_orders, named_some, resolve_named_window_expr_all, resolve_named_window_expr_items,
    resolve_named_window_expr_orders, resolve_named_window_some, WindowDefinition, WindowDefinitionView,
};
use crate::outside::text_view;
use crate::predicates::{
    any_order_holds_window, expr_has_subquery, expr_has_window, holds_subquery, holds_window, item_holds_aggregate, item_holds_subquery,
    item_holds_window, orders_have_window, projection_has_aggregate, projection_has_subquery, projection_has_window,
};
use crate::rewrite::{make_statement, statement_result};
use crate::scanning::{pieces, split_at};
use crate::scope::Checked;
use crate::select_list::{Clauses, ClausesView};
use crate::source::{convert_ident, convert_object_name, ident_of, name_view, object_name_of, object_result};
use crate::syntax::{
    AggregateFunction, BinaryOperator, ParsedExpr, ParsedExprKind, ParsedExprKindView, ParsedExprView, ParsedIdentifier,
    ParsedIdentifierView, ParsedJoin, ParsedJoinView, ParsedObjectName, ParsedObjectNameView, ParsedOrder, ParsedOrderView,
    ParsedProjection, ParsedProjectionView, ParsedSequenceOperation, ParsedSequenceOperationView, ParsedStatement, ParsedStatementView,
    ParsedTable, ParsedTableView, QuerySetOperator, ScalarFunction, UnaryOperator, WindowFrameUnits, WindowFunction,
};
use crate::text::{characters, lower, lowercase, same_ignoring_case, same_text, strings, text, text3};
use crate::types::{error, error_at, unsupported, unsupported_error, ArrayDimension, DbError, Identifier, Result, Value, ValueView};

verus! {

/// The elements of an array in one row, with its dimensions.
pub struct ArrayItems {
    pub elements: Vec<ParsedExpr>,
    pub dimensions: Vec<ArrayDimension>,
}

/// Mathematical contents of an [`ArrayItems`].
pub struct ArrayItemsView {
    pub elements: Seq<ParsedExprView>,
    pub dimensions: Seq<ArrayDimension>,
}

impl ArrayItems {
    /// The value as mathematical data.
    pub open spec fn view(&self) -> ArrayItemsView {
        ArrayItemsView { elements: ParsedExpr::views(self.elements@), dimensions: self.dimensions@ }
    }
}

/// The order and the page of a query.
pub struct Page {
    pub order_by: Vec<ParsedOrder>,
    pub offset: Option<ParsedExpr>,
    pub limit: Option<ParsedExpr>,
}

/// Mathematical contents of a [`Page`].
pub struct PageView {
    pub order_by: Seq<ParsedOrderView>,
    pub offset: Option<ParsedExprView>,
    pub limit: Option<ParsedExprView>,
}

impl Page {
    /// The value as mathematical data.
    pub open spec fn view(&self) -> PageView {
        PageView { order_by: ParsedOrder::views(self.order_by@), offset: some_view(self.offset), limit: some_view(self.limit) }
    }
}

/// No order, and all rows.
pub open spec fn no_page() -> PageView {
    PageView { order_by: Seq::empty(), offset: None, limit: None }
}

/// No order, and all rows.
pub fn make_no_page() -> (r: Page)
    ensures
        r@ == no_page(),
{
    let order_by: Vec<ParsedOrder> = Vec::new();
    assert(ParsedOrder::views(order_by@) =~= Seq::empty());
    Page { order_by, offset: None, limit: None }
}

/// Two conditions of which one has to hold; the second alone where there is no first.
pub open spec fn either(a: Option<ParsedExprView>, b: ParsedExprView, position: Option<usize>) -> ParsedExprView {
    match a {
        None => b,
        Some(a) => ParsedExprView {
            kind: ParsedExprKindView::Binary { left: Box::new(a), op: BinaryOperator::Or, right: Box::new(b) },
            position,
        },
    }
}

/// Combines two conditions of which one has to hold.
pub fn make_either(a: Option<ParsedExpr>, b: ParsedExpr, position: Option<usize>) -> (r: ParsedExpr)
    ensures
        r@ == either(some_view(a), b@, position),
{
    match a {
        None => b,
        Some(a) => make_expr(ParsedExprKind::Binary { left: Box::new(a), op: BinaryOperator::Or, right: Box::new(b) }, position),
    }
}

/// The comparison of two members of rows.
pub open spec fn member_equal(a: ParsedExprView, b: ParsedExprView, position: Option<usize>) -> ParsedExprView {
    ParsedExprView { kind: ParsedExprKindView::Binary { left: Box::new(a), op: BinaryOperator::Eq, right: Box::new(b) }, position }
}

/// That the first members of two rows are equal, one by one.
pub open spec fn rows_equal(a: Seq<ParsedExprView>, b: Seq<ParsedExprView>, n: nat, position: Option<usize>) -> ParsedExprView
    decreases n,
{
    if n <= 1 {
        member_equal(a[0], b[0], position)
    } else {
        ParsedExprView {
            kind: ParsedExprKindView::Binary {
                left: Box::new(rows_equal(a, b, (n - 1) as nat, position)),
                op: BinaryOperator::And,
                right: Box::new(member_equal(a[n - 1], b[n - 1], position)),
            },
            position,
        }
    }
}

fn make_member_equal(a: &ParsedExpr, b: &ParsedExpr, position: Option<usize>) -> (r: ParsedExpr)
    ensures
        r@ == member_equal(a@, b@, position),
{
    make_expr(ParsedExprKind::Binary { left: Box::new(a.clone()), op: BinaryOperator::Eq, right: Box::new(b.clone()) }, position)
}

/// Compares two rows of the same width.
pub fn make_rows_equal(a: &Vec<ParsedExpr>, b: &Vec<ParsedExpr>, position: Option<usize>) -> (r: ParsedExpr)
    requires
        a@.len() == b@.len(),
        a@.len() > 0,
    ensures
        r@ == rows_equal(ParsedExpr::views(a@), ParsedExpr::views(b@), a@.len(), position),
{
    let ghost v = ParsedExpr::views(a@);
    let ghost w = ParsedExpr::views(b@);
    assert(v[0] == a@[0]@ && w[0] == b@[0]@);
    let mut out = make_member_equal(&a[0], &b[0], position);
    for i in 1..a.len()
        invariant
            a@.len() == b@.len(),
            a@.len() > 0,
            v == ParsedExpr::views(a@),
            w == ParsedExpr::views(b@),
            out@ == rows_equal(v, w, i as nat, position),
    {
        assert(v[i as int] == a@[i as int]@ && w[i as int] == b@[i as int]@);
        let next = make_member_equal(&a[i], &b[i], position);
        out = make_expr(ParsedExprKind::Binary { left: Box::new(out), op: BinaryOperator::And, right: Box::new(next) }, position);
    }
    out
}

/// A condition or its opposite.
pub open spec fn negated_if(negated: bool, e: ParsedExprView, position: Option<usize>) -> ParsedExprView {
    if negated {
        ParsedExprView { kind: ParsedExprKindView::Unary { op: UnaryOperator::Not, expr: Box::new(e) }, position }
    } else {
        e
    }
}

/// Makes a condition or its opposite.
pub fn negate_if(negated: bool, e: ParsedExpr, position: Option<usize>) -> (r: ParsedExpr)
    ensures
        r@ == negated_if(negated, e@, position),
{
    if negated {
        make_expr(ParsedExprKind::Unary { op: UnaryOperator::Not, expr: Box::new(e) }, position)
    } else {
        e
    }
}

/// The comparison of two rows.
#[verifier::opaque]
pub open spec fn row_compared(
    op: BinaryOperator,
    a: Seq<ParsedExprView>,
    b: Seq<ParsedExprView>,
    position: Option<usize>,
) -> ParsedExprView {
    negated_if(op == BinaryOperator::NotEq, rows_equal(a, b, a.len(), position), position)
}

/// Compares two rows of the same width.
pub fn compare_rows(op: BinaryOperator, a: &Vec<ParsedExpr>, b: &Vec<ParsedExpr>, position: Option<usize>) -> (r: ParsedExpr)
    requires
        a@.len() == b@.len(),
        a@.len() > 0,
    ensures
        r@ == row_compared(op, ParsedExpr::views(a@), ParsedExpr::views(b@), position),
{
    reveal(row_compared);
    negate_if(op == BinaryOperator::NotEq, make_rows_equal(a, b, position), position)
}

/// The parts of a name in lower case, with dots; nothing where a part is quoted.
pub open spec fn path_from(l: Seq<ObjectNamePart>, i: int, done: Seq<char>) -> Option<Seq<char>>
    decreases l.len() - i,
{
    if i < 0 || i >= l.len() {
        Some(done)
    } else {
        match l[i] {
            ObjectNamePart::Function(_) => None,
            ObjectNamePart::Identifier(ident) => if ident.quote_style is Some {
                None
            } else {
                path_from(
                    l,
                    i + 1,
                    if i == 0 {
                        lower(ident.value@)
                    } else {
                        done + "."@ + lower(ident.value@)
                    },
                )
            },
        }
    }
}

/// A name in lower case, with dots; nothing where a part is quoted.
#[verifier::opaque]
pub open spec fn path_text(n: ObjectName) -> Option<Seq<char>> {
    path_from(n.0@, 0, ""@)
}

/// Writes a name in lower case.
pub fn make_path_text(n: &ObjectName) -> (r: Option<String>)
    ensures
        text_view(r) == path_text(*n),
{
    reveal(path_text);
    let l = &n.0;
    let mut out = text("");
    for i in 0..l.len()
        invariant
            l == n.0,
            path_text(*n) == path_from(l@, 0, ""@),
            path_text(*n) == path_from(l@, i as int, out@),
    {
        match &l[i] {
            ObjectNamePart::Function(_) => {
                return None;
            },
            ObjectNamePart::Identifier(ident) => {
                if ident.quote_style.is_some() {
                    return None;
                }
                let part = lowercase(ident.value.as_str());
                out = if i == 0 {
                    part
                } else {
                    text3(out.as_str(), ".", part.as_str())
                };
            },
        }
    }
    Some(out)
}

/// The built-in function of a name.
#[verifier::opaque]
pub open spec fn scalar_named(path: Option<Seq<char>>) -> Option<ScalarFunction> {
    match path {
        Some(p) => function_named(p),
        None => None,
    }
}

/// Finds the built-in function of a name.
pub fn find_scalar(path: &Option<String>) -> (r: Option<ScalarFunction>)
    ensures
        r == scalar_named(text_view(*path)),
{
    reveal(scalar_named);
    match path {
        Some(p) => scalar_function_from_name(p.as_str()),
        None => None,
    }
}

/// The aggregate of a name.
#[verifier::opaque]
pub open spec fn aggregate_named(path: Option<Seq<char>>) -> Option<AggregateFunction> {
    if path == Some("count"@) {
        Some(AggregateFunction::Count)
    } else if path == Some("sum"@) {
        Some(AggregateFunction::Sum)
    } else if path == Some("avg"@) {
        Some(AggregateFunction::Avg)
    } else if path == Some("min"@) {
        Some(AggregateFunction::Min)
    } else if path == Some("max"@) {
        Some(AggregateFunction::Max)
    } else {
        None
    }
}

fn path_is(path: &Option<String>, name: &str) -> (r: bool)
    ensures
        r == (text_view(*path) == Some(name@)),
{
    match path {
        Some(p) => same_text(p.as_str(), name),
        None => false,
    }
}

/// Finds the aggregate of a name.
pub fn find_aggregate(path: &Option<String>) -> (r: Option<AggregateFunction>)
    ensures
        r == aggregate_named(text_view(*path)),
{
    reveal(aggregate_named);
    if path_is(path, "count") {
        Some(AggregateFunction::Count)
    } else if path_is(path, "sum") {
        Some(AggregateFunction::Sum)
    } else if path_is(path, "avg") {
        Some(AggregateFunction::Avg)
    } else if path_is(path, "min") {
        Some(AggregateFunction::Min)
    } else if path_is(path, "max") {
        Some(AggregateFunction::Max)
    } else {
        None
    }
}

/// The window function of a name.
#[verifier::opaque]
pub open spec fn window_function_named(path: Option<Seq<char>>) -> Option<WindowFunction> {
    if path == Some("row_number"@) {
        Some(WindowFunction::RowNumber)
    } else if path == Some("rank"@) {
        Some(WindowFunction::Rank)
    } else if path == Some("dense_rank"@) {
        Some(WindowFunction::DenseRank)
    } else if path == Some("lag"@) {
        Some(WindowFunction::Lag)
    } else if path == Some("lead"@) {
        Some(WindowFunction::Lead)
    } else if path == Some("first_value"@) {
        Some(WindowFunction::FirstValue)
    } else if path == Some("last_value"@) {
        Some(WindowFunction::LastValue)
    } else if path == Some("nth_value"@) {
        Some(WindowFunction::NthValue)
    } else {
        match aggregate_named(path) {
            Some(f) => Some(WindowFunction::Aggregate(f)),
            None => None,
        }
    }
}

/// Finds the window function of a name.
pub fn find_window_function(path: &Option<String>) -> (r: Option<WindowFunction>)
    ensures
        r == window_function_named(text_view(*path)),
{
    reveal(window_function_named);
    if path_is(path, "row_number") {
        Some(WindowFunction::RowNumber)
    } else if path_is(path, "rank") {
        Some(WindowFunction::Rank)
    } else if path_is(path, "dense_rank") {
        Some(WindowFunction::DenseRank)
    } else if path_is(path, "lag") {
        Some(WindowFunction::Lag)
    } else if path_is(path, "lead") {
        Some(WindowFunction::Lead)
    } else if path_is(path, "first_value") {
        Some(WindowFunction::FirstValue)
    } else if path_is(path, "last_value") {
        Some(WindowFunction::LastValue)
    } else if path_is(path, "nth_value") {
        Some(WindowFunction::NthValue)
    } else {
        match find_aggregate(path) {
            Some(f) => Some(WindowFunction::Aggregate(f)),
            None => None,
        }
    }
}

/// Whether the arguments of a call are a star.
#[verifier::opaque]
pub open spec fn only_star(l: Seq<FunctionArg>) -> bool {
    l.len() == 1 && (match l[0] {
        FunctionArg::Unnamed(FunctionArgExpr::Wildcard) => true,
        _ => false,
    })
}

/// Decides whether the arguments of a call are a star.
pub fn is_only_star(l: &Vec<FunctionArg>) -> (r: bool)
    ensures
        r == only_star(l@),
{
    reveal(only_star);
    if l.len() != 1 {
        return false;
    }
    match &l[0] {
        FunctionArg::Unnamed(FunctionArgExpr::Wildcard) => true,
        _ => false,
    }
}

/// The units of a frame.
#[verifier::opaque]
pub open spec fn frame_units(u: SqlWindowFrameUnits) -> Checked<WindowFrameUnits> {
    match u {
        SqlWindowFrameUnits::Rows => Ok(WindowFrameUnits::Rows),
        SqlWindowFrameUnits::Range => Ok(WindowFrameUnits::Range),
        SqlWindowFrameUnits::Groups => Err(unsupported_error("GROUPS window frames are not supported"@, None)),
    }
}

/// Takes over the units of a frame.
pub fn convert_frame_units(u: &SqlWindowFrameUnits) -> (r: Result<WindowFrameUnits>)
    ensures
        (match r {
            Ok(x) => Ok(x),
            Err(e) => Err(e@),
        }) == frame_units(*u),
{
    reveal(frame_units);
    match u {
        SqlWindowFrameUnits::Rows => Ok(WindowFrameUnits::Rows),
        SqlWindowFrameUnits::Range => Ok(WindowFrameUnits::Range),
        SqlWindowFrameUnits::Groups => Err(unsupported("GROUPS window frames are not supported")),
    }
}

/// The text of a literal that is a string in any quotes.
#[verifier::opaque]
pub open spec fn any_string_of(v: SqlValue) -> Option<Seq<char>> {
    match v {
        SqlValue::SingleQuotedString(s) | SqlValue::DoubleQuotedString(s) | SqlValue::TripleSingleQuotedString(s)
        | SqlValue::TripleDoubleQuotedString(s) | SqlValue::SingleQuotedByteStringLiteral(s) | SqlValue::DoubleQuotedByteStringLiteral(s)
        | SqlValue::TripleSingleQuotedByteStringLiteral(s) | SqlValue::TripleDoubleQuotedByteStringLiteral(s)
        | SqlValue::SingleQuotedRawStringLiteral(s) | SqlValue::DoubleQuotedRawStringLiteral(s)
        | SqlValue::TripleSingleQuotedRawStringLiteral(s) | SqlValue::TripleDoubleQuotedRawStringLiteral(s)
        | SqlValue::EscapedStringLiteral(s) | SqlValue::UnicodeStringLiteral(s) | SqlValue::NationalStringLiteral(s)
        | SqlValue::HexStringLiteral(s) => Some(s@),
        SqlValue::DollarQuotedString(s) => Some(s.value@),
        SqlValue::QuoteDelimitedStringLiteral(s) | SqlValue::NationalQuoteDelimitedStringLiteral(s) => Some(s.value@),
        _ => None,
    }
}

/// The text of a literal that is a string in any quotes.
pub fn any_string_text(v: &SqlValue) -> (r: Option<String>)
    ensures
        text_view(r) == any_string_of(*v),
{
    reveal(any_string_of);
    match v {
        SqlValue::SingleQuotedString(s) | SqlValue::DoubleQuotedString(s) | SqlValue::TripleSingleQuotedString(s)
        | SqlValue::TripleDoubleQuotedString(s) | SqlValue::SingleQuotedByteStringLiteral(s) | SqlValue::DoubleQuotedByteStringLiteral(s)
        | SqlValue::TripleSingleQuotedByteStringLiteral(s) | SqlValue::TripleDoubleQuotedByteStringLiteral(s)
        | SqlValue::SingleQuotedRawStringLiteral(s) | SqlValue::DoubleQuotedRawStringLiteral(s)
        | SqlValue::TripleSingleQuotedRawStringLiteral(s) | SqlValue::TripleDoubleQuotedRawStringLiteral(s)
        | SqlValue::EscapedStringLiteral(s) | SqlValue::UnicodeStringLiteral(s) | SqlValue::NationalStringLiteral(s)
        | SqlValue::HexStringLiteral(s) => Some(s.clone()),
        SqlValue::DollarQuotedString(s) => Some(s.value.clone()),
        SqlValue::QuoteDelimitedStringLiteral(s) | SqlValue::NationalQuoteDelimitedStringLiteral(s) => Some(s.value.clone()),
        _ => None,
    }
}

/// The function that trims an end of a text, or both.
#[verifier::opaque]
pub open spec fn trim_function(w: Option<TrimWhereField>) -> ScalarFunction {
    match w {
        Some(TrimWhereField::Leading) => ScalarFunction::Ltrim,
        Some(TrimWhereField::Trailing) => ScalarFunction::Rtrim,
        _ => ScalarFunction::Btrim,
    }
}

/// Finds the function that trims.
pub fn find_trim_function(w: &Option<TrimWhereField>) -> (r: ScalarFunction)
    ensures
        r == trim_function(*w),
{
    reveal(trim_function);
    match w {
        Some(TrimWhereField::Leading) => ScalarFunction::Ltrim,
        Some(TrimWhereField::Trailing) => ScalarFunction::Rtrim,
        _ => ScalarFunction::Btrim,
    }
}

/// Whether a column alias has a type.
#[verifier::opaque]
pub open spec fn typed_columns(l: Seq<TableAliasColumnDef>) -> bool {
    exists|i: int| 0 <= i < l.len() && (#[trigger] l[i]).data_type is Some
}

/// Decides whether a column alias has a type.
pub fn has_typed_columns(l: &Vec<TableAliasColumnDef>) -> (r: bool)
    ensures
        r == typed_columns(l@),
{
    reveal(typed_columns);
    for i in 0..l.len()
        invariant
            forall|k: int| 0 <= k < i ==> (#[trigger] l@[k]).data_type is None,
    {
        reveal(typed_columns);
        if l[i].data_type.is_some() {
            return true;
        }
    }
    false
}

/// The names of column aliases.
#[verifier::opaque]
pub open spec fn column_names(l: Seq<TableAliasColumnDef>, sql: Seq<char>) -> Seq<ParsedIdentifierView> {
    Seq::new(l.len(), |i: int| ident_of(l[i].name, sql))
}

/// Takes over the names of column aliases.
pub fn convert_column_names(l: &Vec<TableAliasColumnDef>, sql: &str) -> (r: Vec<ParsedIdentifier>)
    ensures
        ParsedIdentifier::views(r@) == column_names(l@, sql@),
{
    reveal(column_names);
    let ghost want = column_names(l@, sql@);
    let mut out: Vec<ParsedIdentifier> = Vec::new();
    for i in 0..l.len()
        invariant
            want == column_names(l@, sql@),
            ParsedIdentifier::views(out@) =~= want.take(i as int),
    {
        reveal(column_names);
        let ghost before = ParsedIdentifier::views(out@);
        let x = convert_ident(&l[i].name, sql);
        out.push(x);
        assert(ParsedIdentifier::views(out@) =~= before.push(x@));
    }
    out
}

/// The alias of a table.
#[verifier::opaque]
pub open spec fn table_alias(a: Option<TableAlias>, sql: Seq<char>) -> Checked<Option<ParsedIdentifierView>> {
    match a {
        None => Ok(None),
        Some(a) => if a.columns@.len() > 0 || a.at is Some {
            Err(unsupported_error("column aliases on table bindings are not supported yet"@, None))
        } else {
            Ok(Some(ident_of(a.name, sql)))
        },
    }
}

/// Takes over the alias of a table.
pub fn convert_table_alias(a: &Option<TableAlias>, sql: &str) -> (r: Result<Option<ParsedIdentifier>>)
    ensures
        (match r {
            Ok(x) => Ok(name_view(x)),
            Err(e) => Err(e@),
        }) == table_alias(*a, sql@),
{
    reveal(table_alias);
    match a {
        None => Ok(None),
        Some(a) => if a.columns.len() > 0 || a.at.is_some() {
            Err(unsupported("column aliases on table bindings are not supported yet"))
        } else {
            Ok(Some(convert_ident(&a.name, sql)))
        },
    }
}

/// Whether a table has modifiers that are not supported.
pub open spec fn modified(t: TableFactor) -> bool {
    match t {
        TableFactor::Table { args, with_hints, version, with_ordinality, partitions, json_path, sample, index_hints, .. } => args is Some
            || with_hints@.len() > 0 || version is Some || with_ordinality || partitions@.len() > 0 || json_path is Some || sample is Some
            || index_hints@.len() > 0,
        _ => true,
    }
}

fn is_modified(t: &TableFactor) -> (r: bool)
    ensures
        r == modified(*t),
{
    match t {
        TableFactor::Table { args, with_hints, version, with_ordinality, partitions, json_path, sample, index_hints, .. } => args.is_some()
            || with_hints.len() > 0 || version.is_some() || *with_ordinality || partitions.len() > 0 || json_path.is_some()
            || sample.is_some() || index_hints.len() > 0,
        _ => true,
    }
}

/// A table of a query.
#[verifier::opaque]
pub open spec fn table_of(t: TableFactor, sql: Seq<char>) -> Checked<ParsedTableView> {
    match t {
        TableFactor::Table { name, alias, .. } => if modified(t) {
            Err(unsupported_error("table modifiers are not supported yet"@, None))
        } else {
            match object_name_of(name, sql) {
                Err(x) => Err(x),
                Ok(name) => match table_alias(alias, sql) {
                    Err(x) => Err(x),
                    Ok(alias) => Ok(ParsedTableView { name, alias }),
                },
            }
        },
        _ => Err(unsupported_error("derived tables and table functions are not supported yet"@, None)),
    }
}

/// Takes over a table of a query.
pub fn convert_select_table(t: &TableFactor, sql: &str) -> (r: Result<ParsedTable>)
    ensures
        (match r {
            Ok(x) => Ok(x@),
            Err(e) => Err(e@),
        }) == table_of(*t, sql@),
{
    reveal(table_of);
    match t {
        TableFactor::Table { name, alias, .. } => {
            if is_modified(t) {
                return Err(unsupported("table modifiers are not supported yet"));
            }
            let name = convert_object_name(name, sql)?;
            let alias = convert_table_alias(alias, sql)?;
            Ok(ParsedTable { name, alias })
        },
        _ => Err(unsupported("derived tables and table functions are not supported yet")),
    }
}

/// The one table that a statement names.
#[verifier::opaque]
pub open spec fn plain_table_of(t: TableWithJoins, sql: Seq<char>) -> Checked<ParsedObjectNameView> {
    if t.joins@.len() > 0 {
        Err(unsupported_error("joins are not supported yet"@, None))
    } else {
        match t.relation {
            TableFactor::Table { name, alias, .. } => if alias is Some || modified(t.relation) {
                Err(unsupported_error("table aliases and table modifiers are not supported yet"@, None))
            } else {
                object_name_of(name, sql)
            },
            _ => Err(unsupported_error("derived tables and table functions are not supported yet"@, None)),
        }
    }
}

/// Takes over the one table that a statement names.
pub fn convert_table_with_joins(t: &TableWithJoins, sql: &str) -> (r: Result<ParsedObjectName>)
    ensures
        object_result(r) == plain_table_of(*t, sql@),
{
    reveal(plain_table_of);
    if t.joins.len() > 0 {
        return Err(unsupported("joins are not supported yet"));
    }
    match &t.relation {
        TableFactor::Table { name, alias, .. } => {
            if alias.is_some() || is_modified(&t.relation) {
                return Err(unsupported("table aliases and table modifiers are not supported yet"));
            }
            convert_object_name(name, sql)
        },
        _ => Err(unsupported("derived tables and table functions are not supported yet")),
    }
}

/// Whether there is no grouping.
#[verifier::opaque]
pub open spec fn no_groups(g: GroupByExpr) -> bool {
    match g {
        GroupByExpr::Expressions(l, modifiers) => l@.len() == 0 && modifiers@.len() == 0,
        GroupByExpr::All(_) => false,
    }
}

/// Decides whether there is no grouping.
pub fn has_no_groups(g: &GroupByExpr) -> (r: bool)
    ensures
        r == no_groups(*g),
{
    reveal(no_groups);
    match g {
        GroupByExpr::Expressions(l, modifiers) => l.len() == 0 && modifiers.len() == 0,
        GroupByExpr::All(_) => false,
    }
}

/// Whether a call sends a notification.
#[verifier::opaque]
pub open spec fn notifies(path: Option<Seq<char>>) -> bool {
    path == Some("pg_notify"@) || path == Some("pg_catalog.pg_notify"@)
}

/// Decides whether a call sends a notification.
pub fn is_notification(path: &Option<String>) -> (r: bool)
    ensures
        r == notifies(text_view(*path)),
{
    reveal(notifies);
    path_is(path, "pg_notify") || path_is(path, "pg_catalog.pg_notify")
}

/// Whether a call in a SELECT without tables is one of a routine.
#[verifier::opaque]
pub open spec fn is_routine(path: Option<Seq<char>>) -> bool {
    notifies(path) || scalar_named(path) is None
}

/// Decides whether a call in a SELECT without tables is one of a routine.
pub fn is_routine_call(path: &Option<String>) -> (r: bool)
    ensures
        r == is_routine(text_view(*path)),
{
    reveal(is_routine);
    is_notification(path) || find_scalar(path).is_none()
}

/// A call that asks a sequence.
#[derive(Clone, Copy, PartialEq, Eq, Structural)]
pub enum SequenceCall {
    NextValue,
    CurrentValue,
    SetValue,
}

/// The call of a sequence that a name stands for.
#[verifier::opaque]
pub open spec fn sequence_call(name: ParsedObjectNameView) -> Option<SequenceCall> {
    if name.parts.len() == 0 || name.parts.len() > 2 {
        None
    } else {
        let last = lower(name.parts.last().name);
        if last == lower("nextval"@) {
            Some(SequenceCall::NextValue)
        } else if last == lower("currval"@) {
            Some(SequenceCall::CurrentValue)
        } else if last == lower("setval"@) {
            Some(SequenceCall::SetValue)
        } else {
            None
        }
    }
}

/// Finds the call of a sequence that a name stands for.
pub fn sequence_operation_name(name: &ParsedObjectName) -> (r: Option<SequenceCall>)
    ensures
        r == sequence_call(name@),
{
    reveal(sequence_call);
    let n: usize = name.parts.len();
    if n == 0 || n > 2 {
        return None;
    }
    assert(name@.parts.last() == name.parts@[n - 1]@);
    let last = name.parts[n - 1].name.as_str();
    if same_ignoring_case(last, "nextval") {
        Some(SequenceCall::NextValue)
    } else if same_ignoring_case(last, "currval") {
        Some(SequenceCall::CurrentValue)
    } else if same_ignoring_case(last, "setval") {
        Some(SequenceCall::SetValue)
    } else {
        None
    }
}

/// Whether a character can start a simple name.
pub open spec fn starts_name(c: char) -> bool {
    'a' <= c <= 'z' || 'A' <= c <= 'Z' || c == '_'
}

/// Whether a character can continue a simple name.
pub open spec fn continues_name(c: char) -> bool {
    starts_name(c) || '0' <= c <= '9'
}

/// Whether a text is a simple name.
pub open spec fn simple_name(s: Seq<char>) -> bool {
    s.len() > 0 && starts_name(s[0]) && forall|i: int| 1 <= i < s.len() ==> continues_name(#[trigger] s[i])
}

/// Decides whether a text is a simple name.
pub fn is_simple_identifier(s: &str) -> (r: bool)
    ensures
        r == simple_name(s@),
{
    let chars = characters(s);
    if chars.len() == 0 {
        return false;
    }
    let c = chars[0];
    if !(('a' <= c && c <= 'z') || ('A' <= c && c <= 'Z') || c == '_') {
        return false;
    }
    for i in 1..chars.len()
        invariant
            chars@ == s@,
            forall|k: int| 1 <= k < i ==> continues_name(#[trigger] chars@[k]),
    {
        let c = chars[i];
        if !(('a' <= c && c <= 'z') || ('A' <= c && c <= 'Z') || c == '_' || ('0' <= c && c <= '9')) {
            assert(!continues_name(s@[i as int]));
            return false;
        }
    }
    true
}

/// Whether a text names a sequence: a simple name, or one with a schema.
pub open spec fn names_sequence(parts: Seq<Seq<char>>) -> bool {
    parts.len() <= 2 && forall|i: int| 0 <= i < parts.len() ==> simple_name(#[trigger] parts[i])
}

/// The sequence that an argument names.
#[verifier::opaque]
pub open spec fn sequence_named(e: ParsedExprView) -> Checked<ParsedObjectNameView> {
    match e.kind {
        ParsedExprKindView::Literal(ValueView::Text(s)) => {
            let parts = pieces(s, '.');
            if names_sequence(parts) {
                Ok(
                    ParsedObjectNameView {
                        parts: Seq::new(
                            parts.len(),
                            |i: int| ParsedIdentifierView { name: lower(parts[i]), position: e.position },
                        ),
                    },
                )
            } else {
                Err(error_at("42602"@, "sequence regclass must be an unquoted name or schema.name"@, e.position))
            }
        },
        _ => Err(error_at("42804"@, "sequence name must be a text regclass literal"@, e.position)),
    }
}

/// Finds the sequence that an argument names.
pub fn parsed_sequence_regclass(argument: &ParsedExpr) -> (r: Result<ParsedObjectName>)
    ensures
        object_result(r) == sequence_named(argument@),
{
    reveal(sequence_named);
    proof {
        argument.unfold();
    }
    match &argument.kind {
        ParsedExprKind::Literal(Value::Text(s)) => {
            let parts = split_at(s.as_str(), '.');
            let ghost v = strings(parts@);
            let position = argument.position;
            let mut out: Vec<ParsedIdentifier> = Vec::new();
            let ghost want = Seq::new(v.len(), |i: int| ParsedIdentifierView { name: lower(v[i]), position });
            let mut fits: bool = parts.len() <= 2;
            for i in 0..parts.len()
                invariant
                    v == strings(parts@),
                    position == argument.position,
                    want == Seq::new(v.len(), |i: int| ParsedIdentifierView { name: lower(v[i]), position }),
                    ParsedIdentifier::views(out@) =~= want.take(i as int),
                    fits == (v.len() <= 2 && forall|k: int| 0 <= k < i ==> simple_name(#[trigger] v[k])),
            {
                assert(v[i as int] == parts@[i as int]@);
                if !is_simple_identifier(parts[i].as_str()) {
                    fits = false;
                }
                let ghost before = ParsedIdentifier::views(out@);
                let x = ParsedIdentifier { name: Identifier::unquoted(parts[i].as_str()), position };
                out.push(x);
                assert(ParsedIdentifier::views(out@) =~= before.push(x@));
            }
            assert(ParsedIdentifier::views(out@) =~= want);
            if !fits {
                return Err(
                    DbError::at("42602", text("sequence regclass must be an unquoted name or schema.name"), argument.position),
                );
            }
            Ok(ParsedObjectName { parts: out })
        },
        _ => Err(DbError::at("42804", text("sequence name must be a text regclass literal"), argument.position)),
    }
}

/// A SELECT of one call that asks a sequence.
#[verifier::opaque]
pub open spec fn sequence_select(call: SequenceCall, arguments: Seq<ParsedExprView>, alias: Option<ParsedIdentifierView>) -> Checked<
    ParsedStatementView,
> {
    match call {
        SequenceCall::NextValue => if arguments.len() != 1 {
            Err(error("42883"@, "nextval requires one positional argument(s)"@))
        } else {
            match sequence_named(arguments[0]) {
                Err(x) => Err(x),
                Ok(name) => Ok(ParsedStatementView::SequenceValue { name, operation: ParsedSequenceOperationView::NextValue, alias }),
            }
        },
        SequenceCall::CurrentValue => if arguments.len() != 1 {
            Err(error("42883"@, "currval requires one positional argument(s)"@))
        } else {
            match sequence_named(arguments[0]) {
                Err(x) => Err(x),
                Ok(name) => Ok(ParsedStatementView::SequenceValue { name, operation: ParsedSequenceOperationView::CurrentValue, alias }),
            }
        },
        SequenceCall::SetValue => if arguments.len() != 2 && arguments.len() != 3 {
            Err(error("42883"@, "setval requires two or three positional argument(s)"@))
        } else {
            match sequence_named(arguments[0]) {
                Err(x) => Err(x),
                Ok(name) => match (if arguments.len() == 2 {
                    Ok(true)
                } else {
                    match arguments[2].kind {
                        ParsedExprKindView::Literal(ValueView::Boolean(b)) => Ok(b),
                        _ => Err(error("42804"@, "setval third argument must be a boolean literal"@)),
                    }
                }) {
                    Err(x) => Err(x),
                    Ok(is_called) => Ok(
                        ParsedStatementView::SequenceValue {
                            name,
                            operation: ParsedSequenceOperationView::SetValue { value: arguments[1], is_called },
                            alias,
                        },
                    ),
                },
            }
        },
    }
}

fn make_sequence_value(name: ParsedObjectName, operation: ParsedSequenceOperation, alias: Option<ParsedIdentifier>) -> (r: ParsedStatement)
    ensures
        r@ == (ParsedStatementView::SequenceValue { name: name@, operation: operation@, alias: name_view(alias) }),
{
    make_statement(ParsedStatement::SequenceValue { name, operation, alias })
}

/// Makes a SELECT of one call that asks a sequence.
pub fn convert_sequence_value_select(call: SequenceCall, arguments: &Vec<ParsedExpr>, alias: Option<ParsedIdentifier>) -> (r: Result<
    ParsedStatement,
>)
    ensures
        statement_result(r) == sequence_select(call, ParsedExpr::views(arguments@), name_view(alias)),
{
    reveal(sequence_select);
    let ghost v = ParsedExpr::views(arguments@);
    match call {
        SequenceCall::NextValue => {
            if arguments.len() != 1 {
                return Err(DbError::new("42883", text("nextval requires one positional argument(s)")));
            }
            assert(v[0] == arguments@[0]@);
            let name = parsed_sequence_regclass(&arguments[0])?;
            let operation = ParsedSequenceOperation::NextValue;
            proof {
                operation.unfold();
            }
            Ok(make_sequence_value(name, operation, alias))
        },
        SequenceCall::CurrentValue => {
            if arguments.len() != 1 {
                return Err(DbError::new("42883", text("currval requires one positional argument(s)")));
            }
            assert(v[0] == arguments@[0]@);
            let name = parsed_sequence_regclass(&arguments[0])?;
            let operation = ParsedSequenceOperation::CurrentValue;
            proof {
                operation.unfold();
            }
            Ok(make_sequence_value(name, operation, alias))
        },
        SequenceCall::SetValue => {
            if arguments.len() != 2 && arguments.len() != 3 {
                return Err(DbError::new("42883", text("setval requires two or three positional argument(s)")));
            }
            assert(v[0] == arguments@[0]@ && v[1] == arguments@[1]@);
            let name = parsed_sequence_regclass(&arguments[0])?;
            let is_called: bool = if arguments.len() == 2 {
                true
            } else {
                assert(v[2] == arguments@[2]@);
                proof {
                    arguments@[2].unfold();
                }
                match &arguments[2].kind {
                    ParsedExprKind::Literal(Value::Boolean(b)) => *b,
                    _ => {
                        return Err(DbError::new("42804", text("setval third argument must be a boolean literal")));
                    },
                }
            };
            let operation = ParsedSequenceOperation::SetValue { value: arguments[1].clone(), is_called };
            proof {
                operation.unfold();
            }
            Ok(make_sequence_value(name, operation, alias))
        },
    }
}

/// Whether a select list holds a wildcard, from a position on.
pub open spec fn any_wildcard(l: Seq<ParsedProjectionView>, i: int) -> bool
    decreases l.len() - i,
{
    0 <= i < l.len() && (l[i] is Wildcard || any_wildcard(l, i + 1))
}

/// Decides whether a select list holds a wildcard.
pub fn has_wildcard(l: &Vec<ParsedProjection>) -> (r: bool)
    ensures
        r == any_wildcard(ParsedProjection::views(l@), 0),
{
    let ghost v = ParsedProjection::views(l@);
    for i in 0..l.len()
        invariant
            v == ParsedProjection::views(l@),
            any_wildcard(v, 0) == any_wildcard(v, i as int),
    {
        assert(v[i as int] == l@[i as int]@);
        if is_wildcard(&l[i]) {
            return true;
        }
    }
    false
}

fn is_wildcard(p: &ParsedProjection) -> (r: bool)
    ensures
        r == (p@ is Wildcard),
{
    proof {
        p.unfold();
    }
    match p {
        ParsedProjection::Wildcard => true,
        _ => false,
    }
}

/// Whether a select list holds an aggregate, a subquery or a window, from a position on.
pub open spec fn any_special(l: Seq<ParsedProjectionView>, i: int) -> bool
    decreases l.len() - i,
{
    0 <= i < l.len() && (item_holds_aggregate(l[i]) || item_holds_subquery(l[i]) || item_holds_window(l[i]) || any_special(l, i + 1))
}

/// Decides whether a select list holds an aggregate, a subquery or a window.
pub fn has_special(l: &Vec<ParsedProjection>) -> (r: bool)
    ensures
        r == any_special(ParsedProjection::views(l@), 0),
{
    let ghost v = ParsedProjection::views(l@);
    for i in 0..l.len()
        invariant
            v == ParsedProjection::views(l@),
            any_special(v, 0) == any_special(v, i as int),
    {
        assert(v[i as int] == l@[i as int]@);
        if projection_has_aggregate(&l[i]) || projection_has_subquery(&l[i]) || projection_has_window(&l[i]) {
            return true;
        }
    }
    false
}

/// Clauses whose windows stand on their own.
#[verifier::opaque]
pub open spec fn named_clauses(c: ClausesView, windows: Seq<WindowDefinitionView>) -> Checked<ClausesView> {
    match named_items(c.projection, windows, 0, Seq::empty()) {
        Err(x) => Err(x),
        Ok(projection) => match named_some(c.filter, windows) {
            Err(x) => Err(x),
            Ok(filter) => match named_all(c.group_by, windows, 0, Seq::empty()) {
                Err(x) => Err(x),
                Ok(group_by) => match named_some(c.having, windows) {
                    Err(x) => Err(x),
                    Ok(having) => match named_orders(c.order_by, windows, 0, Seq::empty()) {
                        Err(x) => Err(x),
                        Ok(order_by) => Ok(ClausesView { projection, filter, group_by, having, order_by }),
                    },
                },
            },
        },
    }
}

/// The contents of a result with clauses.
pub open spec fn clauses_result(r: Result<Clauses>) -> Checked<ClausesView> {
    match r {
        Ok(c) => Ok(c@),
        Err(e) => Err(e@),
    }
}

/// Makes the windows of clauses stand on their own.
pub fn resolve_named_clauses(c: &Clauses, windows: &Vec<WindowDefinition>) -> (r: Result<Clauses>)
    ensures
        clauses_result(r) == named_clauses(c@, WindowDefinition::views(windows@)),
{
    reveal(named_clauses);
    let projection = resolve_named_window_expr_items(&c.projection, windows)?;
    let filter = resolve_named_window_some(&c.filter, windows)?;
    let group_by = resolve_named_window_expr_all(&c.group_by, windows)?;
    let having = resolve_named_window_some(&c.having, windows)?;
    let order_by = resolve_named_window_expr_orders(&c.order_by, windows)?;
    Ok(Clauses { projection, filter, group_by, having, order_by })
}

/// Whether a table has an alias.
pub open spec fn aliased(t: TableFactor) -> bool {
    match t {
        TableFactor::Table { alias, .. } => alias is Some,
        _ => false,
    }
}

/// Whether a SELECT needs more than one table, its columns and a condition.
#[verifier::opaque]
pub open spec fn advanced(distinct: bool, from: TableWithJoins, c: ClausesView) -> bool {
    distinct || aliased(from.relation) || from.joins@.len() > 0 || c.group_by.len() > 0 || c.having is Some
        || any_special(c.projection, 0) || (
    c.filter is Some && (holds_subquery(c.filter->0) || holds_window(c.filter->0))) || any_order_holds_window(c.order_by, 0)
}

/// Decides whether a SELECT needs more than one table, its columns and a condition.
pub fn is_advanced(distinct: bool, from: &TableWithJoins, c: &Clauses) -> (r: bool)
    ensures
        r == advanced(distinct, *from, c@),
{
    reveal(advanced);
    let named_differently = match &from.relation {
        TableFactor::Table { alias, .. } => alias.is_some(),
        _ => false,
    };
    let filtered = match &c.filter {
        Some(f) => expr_has_subquery(f) || expr_has_window(f),
        None => false,
    };
    distinct || named_differently || from.joins.len() > 0 || c.group_by.len() > 0 || c.having.is_some() || has_special(&c.projection)
        || filtered || orders_have_window(&c.order_by)
}

/// A SELECT that needs more.
pub open spec fn advanced_select(
    distinct: bool,
    table: ParsedTableView,
    joins: Seq<ParsedJoinView>,
    c: ClausesView,
    page: PageView,
) -> ParsedStatementView {
    ParsedStatementView::AdvancedSelect {
        table,
        joins,
        projection: c.projection,
        distinct,
        filter: c.filter,
        group_by: c.group_by,
        having: c.having,
        order_by: c.order_by,
        offset: page.offset,
        limit: page.limit,
    }
}

/// Makes a SELECT that needs more.
pub fn make_advanced_select(distinct: bool, table: ParsedTable, joins: Vec<ParsedJoin>, c: Clauses, page: Page) -> (r: ParsedStatement)
    ensures
        r@ == advanced_select(distinct, table@, ParsedJoin::views(joins@), c@, page@),
{
    make_statement(
        ParsedStatement::AdvancedSelect {
            table,
            joins,
            projection: c.projection,
            distinct,
            filter: c.filter,
            group_by: c.group_by,
            having: c.having,
            order_by: c.order_by,
            offset: page.offset,
            limit: page.limit,
        },
    )
}

/// A SELECT on one table.
pub open spec fn plain_select(table: ParsedObjectNameView, c: ClausesView, page: PageView) -> ParsedStatementView {
    ParsedStatementView::Select {
        table,
        projection: c.projection,
        filter: c.filter,
        order_by: c.order_by,
        offset: page.offset,
        limit: page.limit,
    }
}

/// Makes a SELECT on one table.
pub fn make_plain_select(table: ParsedObjectName, c: Clauses, page: Page) -> (r: ParsedStatement)
    ensures
        r@ == plain_select(table@, c@, page@),
{
    make_statement(
        ParsedStatement::Select {
            table,
            projection: c.projection,
            filter: c.filter,
            order_by: c.order_by,
            offset: page.offset,
            limit: page.limit,
        },
    )
}

/// Whether rows have to differ.
#[verifier::opaque]
pub open spec fn distinct_of(d: Option<Distinct>) -> Checked<bool> {
    match d {
        None | Some(Distinct::All) => Ok(false),
        Some(Distinct::Distinct) => Ok(true),
        Some(Distinct::On(_)) => Err(unsupported_error("DISTINCT ON is not supported yet"@, None)),
    }
}

/// Takes over whether rows have to differ.
pub fn convert_distinct(d: &Option<Distinct>) -> (r: Result<bool>)
    ensures
        (match r {
            Ok(x) => Ok(x),
            Err(e) => Err(e@),
        }) == distinct_of(*d),
{
    reveal(distinct_of);
    match d {
        None | Some(Distinct::All) => Ok(false),
        Some(Distinct::Distinct) => Ok(true),
        Some(Distinct::On(_)) => Err(unsupported("DISTINCT ON is not supported yet")),
    }
}

/// Whether a SELECT has clauses that are not supported.
#[verifier::opaque]
pub open spec fn extended(s: Select, top_taken: bool) -> bool {
    s.optimizer_hints@.len() > 0 || s.select_modifiers is Some || (!top_taken && s.top is Some) || s.exclude is Some || s.into is Some
        || s.lateral_views@.len() > 0 || s.prewhere is Some || s.connect_by@.len() > 0 || s.cluster_by@.len() > 0 || s.distribute_by@.len()
        > 0 || s.sort_by@.len() > 0 || s.qualify is Some || s.value_table_mode is Some
}

/// Decides whether a SELECT has clauses that are not supported.
pub fn is_extended(s: &Select, top_taken: bool) -> (r: bool)
    ensures
        r == extended(*s, top_taken),
{
    reveal(extended);
    s.optimizer_hints.len() > 0 || s.select_modifiers.is_some() || (!top_taken && s.top.is_some()) || s.exclude.is_some()
        || s.into.is_some() || s.lateral_views.len() > 0 || s.prewhere.is_some() || s.connect_by.len() > 0 || s.cluster_by.len() > 0
        || s.distribute_by.len() > 0 || s.sort_by.len() > 0 || s.qualify.is_some() || s.value_table_mode.is_some()
}

/// The set operator that SQL names.
#[verifier::opaque]
pub open spec fn set_operator(op: SetOperator) -> Checked<QuerySetOperator> {
    match op {
        SetOperator::Union => Ok(QuerySetOperator::Union),
        SetOperator::Intersect => Ok(QuerySetOperator::Intersect),
        SetOperator::Except => Ok(QuerySetOperator::Except),
        SetOperator::Minus => Err(unsupported_error("MINUS set operations are not supported"@, None)),
    }
}

/// Takes over a set operator.
pub fn convert_set_operator(op: &SetOperator) -> (r: Result<QuerySetOperator>)
    ensures
        (match r {
            Ok(x) => Ok(x),
            Err(e) => Err(e@),
        }) == set_operator(*op),
{
    reveal(set_operator);
    match op {
        SetOperator::Union => Ok(QuerySetOperator::Union),
        SetOperator::Intersect => Ok(QuerySetOperator::Intersect),
        SetOperator::Except => Ok(QuerySetOperator::Except),
        SetOperator::Minus => Err(unsupported("MINUS set operations are not supported")),
    }
}

/// Whether a set operation keeps duplicates.
#[verifier::opaque]
pub open spec fn set_all(q: SetQuantifier) -> Checked<bool> {
    match q {
        SetQuantifier::All => Ok(true),
        SetQuantifier::None | SetQuantifier::Distinct => Ok(false),
        SetQuantifier::ByName | SetQuantifier::AllByName | SetQuantifier::DistinctByName => Err(
            unsupported_error("BY NAME set operations are not supported"@, None),
        ),
    }
}

/// Takes over whether a set operation keeps duplicates.
pub fn convert_set_quantifier(q: &SetQuantifier) -> (r: Result<bool>)
    ensures
        (match r {
            Ok(x) => Ok(x),
            Err(e) => Err(e@),
        }) == set_all(*q),
{
    reveal(set_all);
    match q {
        SetQuantifier::All => Ok(true),
        SetQuantifier::None | SetQuantifier::Distinct => Ok(false),
        SetQuantifier::ByName | SetQuantifier::AllByName | SetQuantifier::DistinctByName => Err(
            unsupported("BY NAME set operations are not supported"),
        ),
    }
}

/// A number of rows.
pub open spec fn integer_literal(n: i64) -> ParsedExprView {
    ParsedExprView { kind: ParsedExprKindView::Literal(ValueView::Int64(n)), position: None }
}

/// Makes a number of rows.
pub fn make_integer_literal(n: i64) -> (r: ParsedExpr)
    ensures
        r@ == integer_literal(n),
{
    make_expr(ParsedExprKind::Literal(Value::Int64(n)), None)
}

/// The one limit of a query.
#[verifier::opaque]
pub open spec fn one_limit(top: Option<ParsedExprView>, limit: Option<ParsedExprView>, fetch: Option<ParsedExprView>) -> Checked<
    Option<ParsedExprView>,
> {
    if (top is Some && limit is Some) || (top is Some && fetch is Some) || (limit is Some && fetch is Some) {
        Err(unsupported_error("a query may specify only one row-limit form"@, None))
    } else if top is Some {
        Ok(top)
    } else if limit is Some {
        Ok(limit)
    } else {
        Ok(fetch)
    }
}

/// The contents of a result with an expression that may be absent.
pub open spec fn some_result(r: Result<Option<ParsedExpr>>) -> Checked<Option<ParsedExprView>> {
    match r {
        Ok(e) => Ok(some_view(e)),
        Err(e) => Err(e@),
    }
}

/// Picks the one limit of a query.
pub fn pick_limit(top: Option<ParsedExpr>, limit: Option<ParsedExpr>, fetch: Option<ParsedExpr>) -> (r: Result<Option<ParsedExpr>>)
    ensures
        some_result(r) == one_limit(some_view(top), some_view(limit), some_view(fetch)),
{
    reveal(one_limit);
    if (top.is_some() && limit.is_some()) || (top.is_some() && fetch.is_some()) || (limit.is_some() && fetch.is_some()) {
        return Err(unsupported("a query may specify only one row-limit form"));
    }
    if top.is_some() {
        Ok(top)
    } else if limit.is_some() {
        Ok(limit)
    } else {
        Ok(fetch)
    }
}

} // verus!
