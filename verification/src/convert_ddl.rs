//! Takes over statements that define tables, indexes, sequences, views and domains
//! from a syntax tree.

use sqlparser::ast::{
    AlterColumnOperation, AlterTable, AlterTableOperation, BinaryOperator as SqlBinaryOperator, CheckConstraint, ColumnDef, ColumnOption,
    ColumnOptionDef, CreateDomain, CreateIndex, CreateTable, CreateTableOptions, CreateView, DataType, DropBehavior as SqlDropBehavior,
    Expr, ForeignKeyConstraint, HiveDistributionStyle, Ident, IndexColumn, IndexType, ObjectName, ReferentialAction as SqlReferentialAction,
    RenameTableNameKind, SequenceOptions, TableConstraint, Value as SqlValue, ViewColumnDef,
};
use vstd::prelude::*;

use crate::catalog::{
    CatalogExpression, CatalogExpressionView, DomainConstraint, DomainConstraintView, DropBehavior, IndexMethod, NewSequence,
    NewSequenceView, ReferentialAction, ViewKind,
};
use crate::convert::{convert_expr, convert_select_query};
use crate::convert_rules::{converted_expr, converted_query};
use crate::merge_tokens::{create_domain_not_null_tokens, domain_not_null};
use crate::numbers::{parse_unsigned, unsigned_value};
use crate::outside::{expr_text, expr_written, query_text, query_written, text_of_expr, text_of_query};
use crate::rewrite::make_statement;
use crate::scope::Checked;
use crate::source::{
    carried_columns, convert_ident, convert_idents, convert_object_name, convert_single_identifier, convert_some_ident,
    find_carried_columns, has_keyword_sequence, has_triple, ident_of, idents_of, name_view, object_name_of, single_name_of, some_ident,
    Source, SourceView,
};
use crate::sql_types::{column_type_of, convert_column_data_type, convert_data_type, data_type_of};
use crate::syntax::{
    ParsedAlterTableOperation, ParsedAlterTableOperationView, ParsedColumn, ParsedColumnView, ParsedCreateIndex, ParsedCreateIndexView,
    ParsedDefault, ParsedDefaultView, ParsedExpr, ParsedExprKind, ParsedExprKindView, ParsedExprView, ParsedIdentifier,
    ParsedIdentifierView, ParsedIndexOption, ParsedIndexOptionValue, ParsedIndexOptionValueView, ParsedIndexOptionView, ParsedObjectName,
    ParsedObjectNameView, ParsedStatement, ParsedStatementView, ParsedTableConstraint, ParsedTableConstraintView, UnaryOperator,
};
use crate::text::{lower, same_ignoring_case, text, text3};
use crate::types::{
    error, error_at, unsupported, unsupported_error, DbError, Identifier, Result, SYNTAX_ERROR, ScalarType, ScalarTypeView, Value,
    ValueView,
};
use crate::written::{
    change_written, column_written, columns_written, constraint_written, constraints_written, operation_written, operations_written,
    option_written,
};

verus! {

fn make_default(expression: ParsedExpr, sql: String) -> (r: ParsedDefault)
    ensures
        r@ == (ParsedDefaultView { expression: expression@, sql: sql@ }),
{
    let r = ParsedDefault { expression, sql };
    proof {
        r.unfold();
    }
    r
}

/// The contents of a default that may be absent.
pub open spec fn default_view(d: Option<ParsedDefault>) -> Option<ParsedDefaultView> {
    match d {
        Some(d) => Some(d@),
        None => None,
    }
}

fn make_constraint(c: ParsedTableConstraint) -> (r: ParsedTableConstraint)
    ensures
        r@ == c.shape(),
{
    proof {
        c.unfold();
    }
    c
}

fn make_operation(o: ParsedAlterTableOperation) -> (r: ParsedAlterTableOperation)
    ensures
        r@ == o.shape(),
{
    proof {
        o.unfold();
    }
    o
}

fn one_operation(o: ParsedAlterTableOperation) -> (r: Vec<ParsedAlterTableOperation>)
    ensures
        ParsedAlterTableOperation::views(r@) == seq![o.shape()],
{
    let x = make_operation(o);
    let l: Vec<ParsedAlterTableOperation> = vec![x];
    assert(ParsedAlterTableOperation::views(l@) =~= seq![x@]);
    l
}

/// Constraints that an ALTER TABLE adds.
pub open spec fn added_constraints(l: Seq<ParsedTableConstraintView>) -> Seq<ParsedAlterTableOperationView> {
    Seq::new(l.len(), |i: int| ParsedAlterTableOperationView::AddConstraint { constraint: l[i] })
}

fn added_column(column: ParsedColumn, if_not_exists: bool, constraints: Vec<ParsedTableConstraint>) -> (r: Vec<ParsedAlterTableOperation>)
    ensures
        ParsedAlterTableOperation::views(r@) == seq![ParsedAlterTableOperationView::AddColumn { column: column@, if_not_exists }]
            + added_constraints(ParsedTableConstraint::views(constraints@)),
{
    let ghost v = ParsedTableConstraint::views(constraints@);
    let mut out = one_operation(ParsedAlterTableOperation::AddColumn { column, if_not_exists });
    let ghost first = ParsedAlterTableOperation::views(out@);
    assert(first =~= first + added_constraints(v).take(0));
    for i in 0..constraints.len()
        invariant
            v == ParsedTableConstraint::views(constraints@),
            ParsedAlterTableOperation::views(out@) == first + added_constraints(v).take(i as int),
    {
        let ghost before = ParsedAlterTableOperation::views(out@);
        let x = make_operation(ParsedAlterTableOperation::AddConstraint { constraint: constraints[i].clone() });
        out.push(x);
        assert(ParsedAlterTableOperation::views(out@) =~= before.push(x@));
        assert(added_constraints(v).take(i + 1) =~= added_constraints(v).take(i as int).push(added_constraints(v)[i as int]));
    }
    assert(added_constraints(v).take(constraints@.len() as int) =~= added_constraints(v));
    out
}

fn joined_constraints(own: Vec<ParsedTableConstraint>, more: Vec<ParsedTableConstraint>) -> (r: Vec<ParsedTableConstraint>)
    ensures
        ParsedTableConstraint::views(r@) == ParsedTableConstraint::views(own@) + ParsedTableConstraint::views(more@),
{
    let ghost a = ParsedTableConstraint::views(own@);
    let ghost b = ParsedTableConstraint::views(more@);
    let mut out = own;
    let mut rest = more;
    out.append(&mut rest);
    assert(ParsedTableConstraint::views(out@) =~= a + b);
    out
}

fn only_name(name: &ParsedIdentifier) -> (r: Vec<ParsedIdentifier>)
    ensures
        ParsedIdentifier::views(r@) == seq![name@],
{
    let x = name.clone();
    let l: Vec<ParsedIdentifier> = vec![x];
    assert(ParsedIdentifier::views(l@) =~= seq![x@]);
    l
}

/// The first of two names that is there.
pub open spec fn first_name(a: Option<Ident>, b: Option<Ident>, sql: Seq<char>) -> Option<ParsedIdentifierView> {
    if a is Some {
        some_ident(a, sql)
    } else {
        some_ident(b, sql)
    }
}

fn pick_name(a: &Option<Ident>, b: &Option<Ident>, sql: &str) -> (r: Option<ParsedIdentifier>)
    ensures
        name_view(r) == first_name(*a, *b, sql@),
{
    if a.is_some() {
        convert_some_ident(a, sql)
    } else {
        convert_some_ident(b, sql)
    }
}

/// The spelling of a name that may be absent.
pub open spec fn plain_ident(i: Option<Ident>, sql: Seq<char>) -> Option<Seq<char>> {
    match i {
        Some(i) => Some(ident_of(i, sql).name),
        None => None,
    }
}

fn convert_plain_name(i: &Option<Ident>, sql: &str) -> (r: Option<Identifier>)
    ensures
        (match r {
            Some(n) => Some(n@),
            None => None,
        }) == plain_ident(*i, sql@),
{
    match i {
        Some(i) => Some(convert_ident(i, sql).name),
        None => None,
    }
}

/// What happens to rows that refer to a row.
pub open spec fn action_of(a: Option<SqlReferentialAction>) -> ReferentialAction {
    match a {
        None => ReferentialAction::NoAction,
        Some(SqlReferentialAction::NoAction) => ReferentialAction::NoAction,
        Some(SqlReferentialAction::Restrict) => ReferentialAction::Restrict,
        Some(SqlReferentialAction::Cascade) => ReferentialAction::Cascade,
        Some(SqlReferentialAction::SetNull) => ReferentialAction::SetNull,
        Some(SqlReferentialAction::SetDefault) => ReferentialAction::SetDefault,
    }
}

/// Takes over what happens to rows that refer to a row.
pub fn convert_referential_action(a: &Option<SqlReferentialAction>) -> (r: ReferentialAction)
    ensures
        r == action_of(*a),
{
    match a {
        None => ReferentialAction::NoAction,
        Some(SqlReferentialAction::NoAction) => ReferentialAction::NoAction,
        Some(SqlReferentialAction::Restrict) => ReferentialAction::Restrict,
        Some(SqlReferentialAction::Cascade) => ReferentialAction::Cascade,
        Some(SqlReferentialAction::SetNull) => ReferentialAction::SetNull,
        Some(SqlReferentialAction::SetDefault) => ReferentialAction::SetDefault,
    }
}

/// What a DROP does about objects that depend on the dropped one.
pub open spec fn behavior_of(b: Option<SqlDropBehavior>) -> DropBehavior {
    match b {
        Some(SqlDropBehavior::Cascade) => DropBehavior::Cascade,
        _ => DropBehavior::Restrict,
    }
}

/// Takes over what a DROP does about objects that depend on the dropped one.
pub fn convert_drop_behavior(b: &Option<SqlDropBehavior>) -> (r: DropBehavior)
    ensures
        r == behavior_of(*b),
{
    match b {
        Some(SqlDropBehavior::Cascade) => DropBehavior::Cascade,
        _ => DropBehavior::Restrict,
    }
}

/// What the options of a column say.
pub struct ColumnParts {
    pub nullable: bool,
    pub primary_key: bool,
    pub unique: bool,
    pub default: Option<ParsedDefault>,
    pub constraints: Vec<ParsedTableConstraint>,
}

/// Mathematical contents of [`ColumnParts`].
pub struct ColumnPartsView {
    pub nullable: bool,
    pub primary_key: bool,
    pub unique: bool,
    pub default: Option<ParsedDefaultView>,
    pub constraints: Seq<ParsedTableConstraintView>,
}

impl ColumnParts {
    /// The value as mathematical data.
    pub open spec fn view(&self) -> ColumnPartsView {
        ColumnPartsView {
            nullable: self.nullable,
            primary_key: self.primary_key,
            unique: self.unique,
            default: default_view(self.default),
            constraints: ParsedTableConstraint::views(self.constraints@),
        }
    }
}

/// A column without options.
pub open spec fn plain_column() -> ColumnPartsView {
    ColumnPartsView { nullable: true, primary_key: false, unique: false, default: None, constraints: Seq::empty() }
}

fn make_plain_column() -> (r: ColumnParts)
    ensures
        r@ == plain_column(),
{
    let constraints: Vec<ParsedTableConstraint> = Vec::new();
    assert(ParsedTableConstraint::views(constraints@) =~= Seq::empty());
    ColumnParts { nullable: true, primary_key: false, unique: false, default: None, constraints }
}

/// A column with one more constraint.
pub open spec fn with_constraint_of(parts: ColumnPartsView, c: ParsedTableConstraintView) -> ColumnPartsView {
    ColumnPartsView { constraints: parts.constraints.push(c), ..parts }
}

fn with_constraint(parts: ColumnParts, c: ParsedTableConstraint) -> (r: ColumnParts)
    ensures
        r@ == with_constraint_of(parts@, c@),
{
    let ghost before = ParsedTableConstraint::views(parts.constraints@);
    let mut constraints = parts.constraints;
    constraints.push(c);
    assert(ParsedTableConstraint::views(constraints@) =~= before.push(c@));
    ColumnParts { nullable: parts.nullable, primary_key: parts.primary_key, unique: parts.unique, default: parts.default, constraints }
}

fn make_column(
    name: ParsedIdentifier,
    data_type: ScalarType,
    declared_type: Option<ParsedObjectName>,
    nullable: bool,
    primary_key: bool,
    unique: bool,
    default: Option<ParsedDefault>,
) -> (r: ParsedColumn)
    ensures
        r@ == (ParsedColumnView {
            name: name@,
            data_type: data_type@,
            declared_type: (match declared_type {
                Some(n) => Some(n@),
                None => None,
            }),
            nullable,
            primary_key,
            unique,
            default: default_view(default),
        }),
{
    let r = ParsedColumn { name, data_type, declared_type, nullable, primary_key, unique, default };
    proof {
        r.unfold();
    }
    r
}

fn is_no_options(o: &CreateTableOptions) -> (r: bool)
    ensures
        r == (*o is None),
{
    match o {
        CreateTableOptions::None => true,
        _ => false,
    }
}

fn is_no_distribution(d: &HiveDistributionStyle) -> (r: bool)
    ensures
        r == (*d is NONE),
{
    match d {
        HiveDistributionStyle::NONE => true,
        _ => false,
    }
}

/// The integer that an expression writes.
#[verifier::opaque]
pub open spec fn constant_integer(e: ParsedExprView) -> Checked<i64> {
    match e.kind {
        ParsedExprKindView::Literal(ValueView::Int16(n)) => Ok(n as i64),
        ParsedExprKindView::Literal(ValueView::Int32(n)) => Ok(n as i64),
        ParsedExprKindView::Literal(ValueView::Int64(n)) => Ok(n),
        ParsedExprKindView::Unary { op: UnaryOperator::Negate, expr } => match expr.kind {
            ParsedExprKindView::Literal(ValueView::Int16(n)) => Ok((-n) as i64),
            ParsedExprKindView::Literal(ValueView::Int32(n)) => Ok((-n) as i64),
            ParsedExprKindView::Literal(ValueView::Int64(n)) => if n == i64::MIN {
                Err(error("22003"@, "sequence option is out of range"@))
            } else {
                Ok((-n) as i64)
            },
            _ => Err(error(SYNTAX_ERROR@, "sequence options must be integer constants"@)),
        },
        _ => Err(error(SYNTAX_ERROR@, "sequence options must be integer constants"@)),
    }
}

fn find_constant_integer(e: &ParsedExpr) -> (r: Result<i64>)
    ensures
        (match r {
            Ok(x) => Ok(x),
            Err(x) => Err(x@),
        }) == constant_integer(e@),
{
    reveal(constant_integer);
    proof {
        e.unfold();
    }
    match &e.kind {
        ParsedExprKind::Literal(Value::Int16(n)) => Ok(*n as i64),
        ParsedExprKind::Literal(Value::Int32(n)) => Ok(*n as i64),
        ParsedExprKind::Literal(Value::Int64(n)) => Ok(*n),
        ParsedExprKind::Unary { op: UnaryOperator::Negate, expr } => {
            proof {
                expr.unfold();
            }
            match &expr.kind {
                ParsedExprKind::Literal(Value::Int16(n)) => Ok(0 - (*n as i64)),
                ParsedExprKind::Literal(Value::Int32(n)) => Ok(0 - (*n as i64)),
                ParsedExprKind::Literal(Value::Int64(n)) => if *n == i64::MIN {
                    Err(DbError::new("22003", text("sequence option is out of range")))
                } else {
                    Ok(0 - *n)
                },
                _ => Err(DbError::new(SYNTAX_ERROR, text("sequence options must be integer constants"))),
            }
        },
        _ => Err(DbError::new(SYNTAX_ERROR, text("sequence options must be integer constants"))),
    }
}

/// The kind of a sequence option.
pub open spec fn option_kind(o: SequenceOptions) -> u8 {
    match o {
        SequenceOptions::IncrementBy(..) => 0,
        SequenceOptions::MinValue(..) => 1,
        SequenceOptions::MaxValue(..) => 2,
        SequenceOptions::StartWith(..) => 3,
        SequenceOptions::Cache(..) => 4,
        SequenceOptions::Cycle(..) => 5,
    }
}

fn find_option_kind(o: &SequenceOptions) -> (r: u8)
    ensures
        r == option_kind(*o),
{
    match o {
        SequenceOptions::IncrementBy(..) => 0,
        SequenceOptions::MinValue(..) => 1,
        SequenceOptions::MaxValue(..) => 2,
        SequenceOptions::StartWith(..) => 3,
        SequenceOptions::Cache(..) => 4,
        SequenceOptions::Cycle(..) => 5,
    }
}

/// A sequence of a type without options. Its name is still to come.
#[verifier::opaque]
pub open spec fn plain_sequence(t: Option<DataType>) -> Checked<NewSequenceView> {
    match (match t {
        None => Ok(ScalarTypeView::Int64),
        Some(t) => data_type_of(t),
    }) {
        Err(x) => Err(x),
        Ok(data_type) => Ok(
            NewSequenceView {
                name: lower("pending"@),
                data_type,
                increment: 1,
                min_value: None,
                max_value: None,
                start_value: None,
                cycle: false,
                owner: None,
            },
        ),
    }
}

fn make_plain_sequence(t: &Option<DataType>) -> (r: Result<NewSequence>)
    ensures
        (match r {
            Ok(x) => Ok(x@),
            Err(x) => Err(x@),
        }) == plain_sequence(*t),
{
    reveal(plain_sequence);
    let data_type = match t {
        None => ScalarType::Int64,
        Some(t) => convert_data_type(t)?,
    };
    Ok(
        NewSequence {
            name: Identifier::unquoted("pending"),
            data_type,
            increment: 1,
            min_value: None,
            max_value: None,
            start_value: None,
            cycle: false,
            owner: None,
        },
    )
}

/// The contents of an owner that may be absent.
pub open spec fn owner_view(o: Option<(ParsedObjectName, ParsedIdentifier)>) -> Option<(ParsedObjectNameView, ParsedIdentifierView)> {
    match o {
        Some(o) => Some((o.0@, o.1@)),
        None => None,
    }
}

/// Splits the last part off a name.
pub fn split_last(name: ParsedObjectName) -> (r: (ParsedObjectName, ParsedIdentifier))
    requires
        name.parts@.len() > 0,
    ensures
        r.0@ == (ParsedObjectNameView { parts: name@.parts.drop_last() }),
        r.1@ == name@.parts.last(),
{
    let ghost v = name@.parts;
    let n: usize = name.parts.len();
    let last = name.parts[n - 1].clone();
    assert(v.last() == last@);
    let mut parts = name.parts;
    parts.truncate(n - 1);
    assert(ParsedIdentifier::views(parts@) =~= v.drop_last());
    (ParsedObjectName { parts }, last)
}

/// The number in an index option.
pub open spec fn index_number(s: Seq<char>) -> Option<usize> {
    match unsigned_value(s) {
        Some(n) => if n <= usize::MAX && n <= u64::MAX {
            Some(n as usize)
        } else {
            None
        },
        None => None,
    }
}

fn read_index_number(s: &str) -> (r: Option<usize>)
    ensures
        r == index_number(s@),
{
    match parse_unsigned(s) {
        Some(n) => if n <= usize::MAX as u64 {
            Some(n as usize)
        } else {
            None
        },
        None => None,
    }
}

fn is_equals(op: &SqlBinaryOperator) -> (r: bool)
    ensures
        r == (*op is Eq),
{
    match op {
        SqlBinaryOperator::Eq => true,
        _ => false,
    }
}

/// A column of an index or a key.
#[verifier::opaque]
pub open spec fn index_column_of(c: IndexColumn, sql: Seq<char>) -> Checked<ParsedIdentifierView> {
    if c.operator_class is Some || c.column.options.asc is Some || c.column.options.nulls_first is Some || c.column.with_fill is Some {
        Err(unsupported_error("index column options are not supported yet"@, None))
    } else {
        match c.column.expr {
            Expr::Identifier(ident) => Ok(ident_of(ident, sql)),
            _ => Err(unsupported_error("index expressions are not supported yet"@, None)),
        }
    }
}

/// Takes over a column of an index or a key.
pub fn convert_index_column(c: &IndexColumn, sql: &str) -> (r: Result<ParsedIdentifier>)
    ensures
        (match r {
            Ok(x) => Ok(x@),
            Err(x) => Err(x@),
        }) == index_column_of(*c, sql@),
{
    reveal(index_column_of);
    if c.operator_class.is_some() || c.column.options.asc.is_some() || c.column.options.nulls_first.is_some()
        || c.column.with_fill.is_some() {
        return Err(unsupported("index column options are not supported yet"));
    }
    match &c.column.expr {
        Expr::Identifier(ident) => {
            Ok(convert_ident(ident, sql))
        },
        _ => {
            Err(unsupported("index expressions are not supported yet"))
        },
    }
}

/// The columns of an index or a key, from one of them on.
pub open spec fn index_columns_of(
    l: Seq<IndexColumn>,
    sql: Seq<char>,
    i: int,
    done: Seq<ParsedIdentifierView>,
) -> Checked<Seq<ParsedIdentifierView>>
    decreases l.len() - i,
{
    if i < 0 || i >= l.len() {
        Ok(done)
    } else {
        match index_column_of(l[i], sql) {
            Err(x) => Err(x),
            Ok(b) => index_columns_of(l, sql, i + 1, done.push(b)),
        }
    }
}

/// Takes over the columns of an index or a key.
pub fn convert_index_columns(l: &Vec<IndexColumn>, sql: &str) -> (r: Result<Vec<ParsedIdentifier>>)
    ensures
        (match r {
            Ok(x) => Ok(ParsedIdentifier::views(x@)),
            Err(x) => Err(x@),
        }) == index_columns_of(l@, sql@, 0, Seq::empty()),
{
    let mut out: Vec<ParsedIdentifier> = Vec::new();
    assert(ParsedIdentifier::views(out@) =~= Seq::empty());
    for i in 0..l.len()
        invariant
            index_columns_of(l@, sql@, 0, Seq::empty()) == index_columns_of(l@, sql@, i as int, ParsedIdentifier::views(out@)),
    {
        let ghost before = ParsedIdentifier::views(out@);
        let x = convert_index_column(&l[i], sql)?;
        out.push(x);
        assert(ParsedIdentifier::views(out@) =~= before.push(x@));
    }
    Ok(out)
}

/// A default with its text.
#[verifier::opaque]
pub open spec fn default_of(e: Expr, sql: Seq<char>) -> Checked<ParsedDefaultView> {
    match converted_expr(e, sql) {
        Err(x) => Err(x),
        Ok(expression) => Ok(ParsedDefaultView { expression, sql: expr_text(e) }),
    }
}

/// Takes over a default with its text.
pub(crate) fn convert_default(e: &Expr, sql: &str) -> (r: Result<ParsedDefault>)
    requires
        expr_written(*e),
    ensures
        (match r {
            Ok(x) => Ok(x@),
            Err(x) => Err(x@),
        }) == default_of(*e, sql@),
{
    reveal(default_of);
    let expression = convert_expr(e, sql)?;
    Ok(make_default(expression, text_of_expr(e)))
}

/// A foreign key.
#[verifier::opaque]
pub open spec fn foreign_key_of(
    c: ForeignKeyConstraint,
    name: Option<ParsedIdentifierView>,
    columns: Seq<ParsedIdentifierView>,
    sql: Seq<char>,
) -> Checked<ParsedTableConstraintView> {
    if c.index_name is Some || c.match_kind is Some || c.characteristics is Some {
        Err(unsupported_error("extended foreign-key constraints are not supported"@, None))
    } else {
        match object_name_of(c.foreign_table, sql) {
            Err(x) => Err(x),
            Ok(referenced_table) => Ok(
                ParsedTableConstraintView::ForeignKey {
                    name,
                    columns,
                    referenced_table,
                    referenced_columns: idents_of(c.referred_columns@, sql),
                    on_delete: action_of(c.on_delete),
                    on_update: action_of(c.on_update),
                },
            ),
        }
    }
}

/// Takes over a foreign key.
fn convert_foreign_key(
    c: &ForeignKeyConstraint,
    name: Option<ParsedIdentifier>,
    columns: Vec<ParsedIdentifier>,
    sql: &str,
) -> (r: Result<ParsedTableConstraint>)
    ensures
        (match r {
            Ok(x) => Ok(x@),
            Err(x) => Err(x@),
        }) == foreign_key_of(*c, name_view(name), ParsedIdentifier::views(columns@), sql@),
{
    reveal(foreign_key_of);
    if c.index_name.is_some() || c.match_kind.is_some() || c.characteristics.is_some() {
        return Err(unsupported("extended foreign-key constraints are not supported"));
    }
    let referenced_table = convert_object_name(&c.foreign_table, sql)?;
    Ok(
        make_constraint(
            ParsedTableConstraint::ForeignKey {
                name,
                columns,
                referenced_table,
                referenced_columns: convert_idents(&c.referred_columns, sql),
                on_delete: convert_referential_action(&c.on_delete),
                on_update: convert_referential_action(&c.on_update),
            },
        ),
    )
}

/// A CHECK constraint.
#[verifier::opaque]
pub open spec fn check_of(c: CheckConstraint, name: Option<ParsedIdentifierView>, sql: Seq<char>) -> Checked<ParsedTableConstraintView> {
    if c.enforced is Some {
        Err(unsupported_error("CHECK ENFORCED clauses are not supported"@, None))
    } else {
        match converted_expr(*c.expr, sql) {
            Err(x) => Err(x),
            Ok(expression) => Ok(ParsedTableConstraintView::Check { name, expression, sql: expr_text(*c.expr) }),
        }
    }
}

/// Takes over a CHECK constraint.
fn convert_check(c: &CheckConstraint, name: Option<ParsedIdentifier>, sql: &str) -> (r: Result<ParsedTableConstraint>)
    requires
        expr_written(*c.expr),
    ensures
        (match r {
            Ok(x) => Ok(x@),
            Err(x) => Err(x@),
        }) == check_of(*c, name_view(name), sql@),
{
    reveal(check_of);
    if c.enforced.is_some() {
        return Err(unsupported("CHECK ENFORCED clauses are not supported"));
    }
    let expression = convert_expr(&c.expr, sql)?;
    Ok(make_constraint(ParsedTableConstraint::Check { name, expression, sql: text_of_expr(&c.expr) }))
}

/// A constraint of a table.
#[verifier::opaque]
pub open spec fn table_constraint_of(c: TableConstraint, sql: Seq<char>) -> Checked<ParsedTableConstraintView> {
    match c {
        TableConstraint::PrimaryKey(c) => if c.characteristics is Some || c.index_name is Some || c.index_type is Some || c.index_options@.len() > 0 {
            Err(unsupported_error("extended primary-key constraints are not supported"@, None))
        } else {
            match index_columns_of(c.columns@, sql, 0, Seq::empty()) {
                Err(x) => Err(x),
                Ok(columns) => Ok(ParsedTableConstraintView::PrimaryKey { name: some_ident(c.name, sql), columns }),
            }
        },
        TableConstraint::Unique(c) => if c.characteristics is Some || c.index_name is Some || c.index_type is Some || c.index_options@.len() > 0 {
            Err(unsupported_error("extended unique constraints are not supported"@, None))
        } else {
            match index_columns_of(c.columns@, sql, 0, Seq::empty()) {
                Err(x) => Err(x),
                Ok(columns) => Ok(ParsedTableConstraintView::Unique { name: some_ident(c.name, sql), columns }),
            }
        },
        TableConstraint::Check(c) => check_of(c, some_ident(c.name, sql), sql),
        TableConstraint::ForeignKey(c) => foreign_key_of(c, some_ident(c.name, sql), idents_of(c.columns@, sql), sql),
        _ => Err(unsupported_error("this table constraint is not supported"@, None)),
    }
}

/// Takes over a constraint of a table.
pub(crate) fn convert_table_constraint(c: &TableConstraint, sql: &str) -> (r: Result<ParsedTableConstraint>)
    requires
        constraint_written(*c),
    ensures
        (match r {
            Ok(x) => Ok(x@),
            Err(x) => Err(x@),
        }) == table_constraint_of(*c, sql@),
{
    reveal(table_constraint_of);
    match c {
        TableConstraint::PrimaryKey(c) => {
            if c.characteristics.is_some() || c.index_name.is_some() || c.index_type.is_some() || c.index_options.len() > 0 {
                return Err(unsupported("extended primary-key constraints are not supported"));
            }
            let columns = convert_index_columns(&c.columns, sql)?;
            Ok(make_constraint(ParsedTableConstraint::PrimaryKey { name: convert_some_ident(&c.name, sql), columns }))
        },
        TableConstraint::Unique(c) => {
            if c.characteristics.is_some() || c.index_name.is_some() || c.index_type.is_some() || c.index_options.len() > 0 {
                return Err(unsupported("extended unique constraints are not supported"));
            }
            let columns = convert_index_columns(&c.columns, sql)?;
            Ok(make_constraint(ParsedTableConstraint::Unique { name: convert_some_ident(&c.name, sql), columns }))
        },
        TableConstraint::Check(c) => {
            convert_check(c, convert_some_ident(&c.name, sql), sql)
        },
        TableConstraint::ForeignKey(c) => {
            convert_foreign_key(c, convert_some_ident(&c.name, sql), convert_idents(&c.columns, sql), sql)
        },
        _ => {
            Err(unsupported("this table constraint is not supported"))
        },
    }
}

/// Constraints of a table, from one of them on.
pub open spec fn table_constraints_of(
    l: Seq<TableConstraint>,
    sql: Seq<char>,
    i: int,
    done: Seq<ParsedTableConstraintView>,
) -> Checked<Seq<ParsedTableConstraintView>>
    decreases l.len() - i,
{
    if i < 0 || i >= l.len() {
        Ok(done)
    } else {
        match table_constraint_of(l[i], sql) {
            Err(x) => Err(x),
            Ok(b) => table_constraints_of(l, sql, i + 1, done.push(b)),
        }
    }
}

/// Takes over constraints of a table.
fn convert_table_constraints(l: &Vec<TableConstraint>, sql: &str) -> (r: Result<Vec<ParsedTableConstraint>>)
    requires
        constraints_written(l@),
    ensures
        (match r {
            Ok(x) => Ok(ParsedTableConstraint::views(x@)),
            Err(x) => Err(x@),
        }) == table_constraints_of(l@, sql@, 0, Seq::empty()),
{
    let mut out: Vec<ParsedTableConstraint> = Vec::new();
    assert(ParsedTableConstraint::views(out@) =~= Seq::empty());
    for i in 0..l.len()
        invariant
            constraints_written(l@),
            table_constraints_of(l@, sql@, 0, Seq::empty()) == table_constraints_of(l@, sql@, i as int, ParsedTableConstraint::views(out@)),
    {
        let ghost before = ParsedTableConstraint::views(out@);
        let x = convert_table_constraint(&l[i], sql)?;
        out.push(x);
        assert(ParsedTableConstraint::views(out@) =~= before.push(x@));
    }
    Ok(out)
}

/// What an option says about a column.
#[verifier::opaque]
pub open spec fn column_option_of(
    o: ColumnOptionDef,
    name: ParsedIdentifierView,
    sql: Seq<char>,
    parts: ColumnPartsView,
) -> Checked<ColumnPartsView> {
    match o.option {
        ColumnOption::Null => Ok(ColumnPartsView { nullable: true, ..parts }),
        ColumnOption::NotNull => Ok(ColumnPartsView { nullable: false, ..parts }),
        ColumnOption::Default(e) => if parts.default is Some {
            Err(error_at(SYNTAX_ERROR@, "column "@ + name.name + " has more than one default"@, name.position))
        } else {
            match default_of(e, sql) {
                Err(x) => Err(x),
                Ok(default) => Ok(ColumnPartsView { default: Some(default), ..parts }),
            }
        },
        ColumnOption::PrimaryKey(c) => if c.characteristics is Some || c.index_name is Some || c.index_type is Some || c.index_options@.len() > 0 {
            Err(unsupported_error("extended primary-key constraints are not supported"@, None))
        } else if o.name is Some {
            Ok(
                with_constraint_of(
                    ColumnPartsView { nullable: false, ..parts },
                    ParsedTableConstraintView::PrimaryKey { name: some_ident(o.name, sql), columns: seq![name] },
                ),
            )
        } else {
            Ok(ColumnPartsView { nullable: false, primary_key: true, unique: true, ..parts })
        },
        ColumnOption::Unique(c) => if c.characteristics is Some || c.index_name is Some || c.index_type is Some || c.index_options@.len() > 0 {
            Err(unsupported_error("extended unique constraints are not supported"@, None))
        } else if o.name is Some {
            Ok(with_constraint_of(parts, ParsedTableConstraintView::Unique { name: some_ident(o.name, sql), columns: seq![name] }))
        } else {
            Ok(ColumnPartsView { unique: true, ..parts })
        },
        ColumnOption::Check(c) => match check_of(c, first_name(o.name, c.name, sql), sql) {
            Err(x) => Err(x),
            Ok(constraint) => Ok(with_constraint_of(parts, constraint)),
        },
        ColumnOption::ForeignKey(c) => match foreign_key_of(c, first_name(o.name, c.name, sql), seq![name], sql) {
            Err(x) => Err(x),
            Ok(constraint) => Ok(with_constraint_of(parts, constraint)),
        },
        _ => Err(unsupported_error("this column constraint is not supported"@, None)),
    }
}

/// Takes over what an option says about a column.
fn convert_column_option(o: &ColumnOptionDef, name: &ParsedIdentifier, sql: &str, parts: ColumnParts) -> (r: Result<ColumnParts>)
    requires
        option_written(o.option),
    ensures
        (match r {
            Ok(x) => Ok(x@),
            Err(x) => Err(x@),
        }) == column_option_of(*o, name@, sql@, parts@),
{
    reveal(column_option_of);
    match &o.option {
        ColumnOption::Null => {
            Ok(ColumnParts { nullable: true, ..parts })
        },
        ColumnOption::NotNull => {
            Ok(ColumnParts { nullable: false, ..parts })
        },
        ColumnOption::Default(e) => {
            if parts.default.is_some() {
                return Err(DbError::at(SYNTAX_ERROR, text3("column ", name.name.as_str(), " has more than one default"), name.position));
            }
            let default = convert_default(e, sql)?;
            Ok(ColumnParts { default: Some(default), ..parts })
        },
        ColumnOption::PrimaryKey(c) => {
            if c.characteristics.is_some() || c.index_name.is_some() || c.index_type.is_some() || c.index_options.len() > 0 {
                return Err(unsupported("extended primary-key constraints are not supported"));
            }
            if o.name.is_some() {
                Ok(
                    with_constraint(
                        ColumnParts { nullable: false, ..parts },
                        make_constraint(
                            ParsedTableConstraint::PrimaryKey { name: convert_some_ident(&o.name, sql), columns: only_name(name) },
                        ),
                    ),
                )
            } else {
                Ok(ColumnParts { nullable: false, primary_key: true, unique: true, ..parts })
            }
        },
        ColumnOption::Unique(c) => {
            if c.characteristics.is_some() || c.index_name.is_some() || c.index_type.is_some() || c.index_options.len() > 0 {
                return Err(unsupported("extended unique constraints are not supported"));
            }
            if o.name.is_some() {
                Ok(
                    with_constraint(
                        parts,
                        make_constraint(ParsedTableConstraint::Unique { name: convert_some_ident(&o.name, sql), columns: only_name(name) }),
                    ),
                )
            } else {
                Ok(ColumnParts { unique: true, ..parts })
            }
        },
        ColumnOption::Check(c) => {
            let constraint = convert_check(c, pick_name(&o.name, &c.name, sql), sql)?;
            Ok(with_constraint(parts, constraint))
        },
        ColumnOption::ForeignKey(c) => {
            let constraint = convert_foreign_key(c, pick_name(&o.name, &c.name, sql), only_name(name), sql)?;
            Ok(with_constraint(parts, constraint))
        },
        _ => {
            Err(unsupported("this column constraint is not supported"))
        },
    }
}

/// What options say about a column, from one of them on.
pub open spec fn column_options_of(
    l: Seq<ColumnOptionDef>,
    name: ParsedIdentifierView,
    sql: Seq<char>,
    i: int,
    parts: ColumnPartsView,
) -> Checked<
    ColumnPartsView,
>
    decreases l.len() - i,
{
    if i < 0 || i >= l.len() {
        Ok(parts)
    } else {
        match column_option_of(l[i], name, sql, parts) {
            Err(x) => Err(x),
            Ok(parts) => column_options_of(l, name, sql, i + 1, parts),
        }
    }
}

fn convert_column_options(l: &Vec<ColumnOptionDef>, name: &ParsedIdentifier, sql: &str, parts: ColumnParts) -> (r: Result<ColumnParts>)
    requires
        forall|i: int| 0 <= i < l@.len() ==> option_written((#[trigger] l@[i]).option),
    ensures
        (match r {
            Ok(x) => Ok(x@),
            Err(x) => Err(x@),
        }) == column_options_of(l@, name@, sql@, 0, parts@),
{
    let ghost start = parts@;
    let mut now: ColumnParts = parts;
    for i in 0..l.len()
        invariant
            forall|i: int| 0 <= i < l@.len() ==> option_written((#[trigger] l@[i]).option),
            column_options_of(l@, name@, sql@, 0, start) == column_options_of(l@, name@, sql@, i as int, now@),
            start == parts@,
    {
        now = convert_column_option(&l[i], name, sql, now)?;
    }
    Ok(now)
}

/// A column, with the constraints that stand at it.
#[verifier::opaque]
pub open spec fn column_of(c: ColumnDef, sql: Seq<char>) -> Checked<(ParsedColumnView, Seq<ParsedTableConstraintView>)> {
    let name = ident_of(c.name, sql);
    match column_type_of(c.data_type, sql) {
        Err(x) => Err(x),
        Ok((data_type, declared_type)) => match column_options_of(c.options@, name, sql, 0, plain_column()) {
            Err(x) => Err(x),
            Ok(parts) => Ok(
                (
                    ParsedColumnView {
                        name,
                        data_type,
                        declared_type,
                        nullable: parts.nullable,
                        primary_key: parts.primary_key,
                        unique: parts.unique,
                        default: parts.default,
                    },
                    parts.constraints,
                ),
            ),
        },
    }
}

/// Takes over a column, with the constraints that stand at it.
pub(crate) fn convert_column_definition(c: &ColumnDef, sql: &str) -> (r: Result<(ParsedColumn, Vec<ParsedTableConstraint>)>)
    requires
        column_written(*c),
    ensures
        (match r {
            Ok(x) => Ok((x.0@, ParsedTableConstraint::views(x.1@))),
            Err(x) => Err(x@),
        }) == column_of(*c, sql@),
{
    reveal(column_of);
    let name = convert_ident(&c.name, sql);
    let (data_type, declared_type) = convert_column_data_type(&c.data_type, sql)?;
    let parts = convert_column_options(&c.options, &name, sql, make_plain_column())?;
    Ok((make_column(name, data_type, declared_type, parts.nullable, parts.primary_key, parts.unique, parts.default), parts.constraints))
}

/// The columns of a table and the constraints that stand at them, from one of them on.
pub open spec fn columns_of(
    l: Seq<ColumnDef>,
    sql: Seq<char>,
    i: int,
    done: Seq<ParsedColumnView>,
    constraints: Seq<ParsedTableConstraintView>,
) -> Checked<(Seq<ParsedColumnView>, Seq<ParsedTableConstraintView>)>
    decreases l.len() - i,
{
    if i < 0 || i >= l.len() {
        Ok((done, constraints))
    } else {
        match column_of(l[i], sql) {
            Err(x) => Err(x),
            Ok((c, more)) => columns_of(l, sql, i + 1, done.push(c), constraints + more),
        }
    }
}

fn convert_columns(l: &Vec<ColumnDef>, sql: &str) -> (r: Result<(Vec<ParsedColumn>, Vec<ParsedTableConstraint>)>)
    requires
        columns_written(l@),
    ensures
        (match r {
            Ok(x) => Ok((ParsedColumn::views(x.0@), ParsedTableConstraint::views(x.1@))),
            Err(x) => Err(x@),
        }) == columns_of(l@, sql@, 0, Seq::empty(), Seq::empty()),
{
    let mut out: Vec<ParsedColumn> = Vec::new();
    let mut constraints: Vec<ParsedTableConstraint> = Vec::new();
    assert(ParsedColumn::views(out@) =~= Seq::empty());
    assert(ParsedTableConstraint::views(constraints@) =~= Seq::empty());
    for i in 0..l.len()
        invariant
            columns_written(l@),
            columns_of(l@, sql@, 0, Seq::empty(), Seq::empty()) == columns_of(
                l@,
                sql@,
                i as int,
                ParsedColumn::views(out@),
                ParsedTableConstraint::views(constraints@),
            ),
    {
        let ghost before = ParsedColumn::views(out@);
        let ghost held = ParsedTableConstraint::views(constraints@);
        let (c, found) = convert_column_definition(&l[i], sql)?;
        out.push(c);
        assert(ParsedColumn::views(out@) =~= before.push(c@));
        let mut more = found;
        let ghost added = ParsedTableConstraint::views(more@);
        constraints.append(&mut more);
        assert(ParsedTableConstraint::views(constraints@) =~= held + added);
    }
    Ok((out, constraints))
}

/// Whether a CREATE TABLE has clauses that are not supported.
#[verifier::opaque]
pub open spec fn unusual_table(s: CreateTable) -> bool {
    s.or_replace || s.temporary || s.external || s.dynamic || s.global is Some || s.transient || s.volatile || s.iceberg || s.snapshot
        || !(s.hive_distribution is NONE) || s.hive_formats is Some || !(s.table_options is None) || s.file_format is Some
        || s.location is Some || s.query is Some || s.without_rowid || s.like is Some || s.clone is Some || s.version is Some
        || s.comment is Some || s.on_commit is Some || s.on_cluster is Some || s.primary_key is Some || s.order_by is Some
        || s.partition_by is Some || s.cluster_by is Some || s.clustered_by is Some || s.inherits is Some || s.partition_of is Some
        || s.for_values is Some || s.strict || s.copy_grants || s.enable_schema_evolution is Some || s.change_tracking is Some
        || s.data_retention_time_in_days is Some || s.max_data_extension_time_in_days is Some || s.default_ddl_collation is Some
        || s.with_aggregation_policy is Some || s.with_row_access_policy is Some || s.with_storage_lifecycle_policy is Some
        || s.with_tags is Some || s.external_volume is Some || s.base_location is Some || s.catalog is Some || s.catalog_sync is Some
        || s.storage_serialization_policy is Some || s.target_lag is Some || s.warehouse is Some || s.refresh_mode is Some
        || s.initialize is Some || s.require_user || s.diststyle is Some || s.distkey is Some || s.sortkey is Some || s.backup is Some
}

/// Decides whether a CREATE TABLE has clauses that are not supported.
fn is_unusual_table(s: &CreateTable) -> (r: bool)
    ensures
        r == unusual_table(*s),
{
    reveal(unusual_table);
    s.or_replace || s.temporary || s.external || s.dynamic || s.global.is_some() || s.transient || s.volatile || s.iceberg || s.snapshot
        || !is_no_distribution(&s.hive_distribution) || s.hive_formats.is_some() || !is_no_options(&s.table_options)
        || s.file_format.is_some() || s.location.is_some() || s.query.is_some() || s.without_rowid || s.like.is_some() || s.clone.is_some()
        || s.version.is_some() || s.comment.is_some() || s.on_commit.is_some() || s.on_cluster.is_some() || s.primary_key.is_some()
        || s.order_by.is_some() || s.partition_by.is_some() || s.cluster_by.is_some() || s.clustered_by.is_some() || s.inherits.is_some()
        || s.partition_of.is_some() || s.for_values.is_some() || s.strict || s.copy_grants || s.enable_schema_evolution.is_some()
        || s.change_tracking.is_some() || s.data_retention_time_in_days.is_some() || s.max_data_extension_time_in_days.is_some()
        || s.default_ddl_collation.is_some() || s.with_aggregation_policy.is_some() || s.with_row_access_policy.is_some()
        || s.with_storage_lifecycle_policy.is_some() || s.with_tags.is_some() || s.external_volume.is_some() || s.base_location.is_some()
        || s.catalog.is_some() || s.catalog_sync.is_some() || s.storage_serialization_policy.is_some() || s.target_lag.is_some()
        || s.warehouse.is_some() || s.refresh_mode.is_some() || s.initialize.is_some() || s.require_user || s.diststyle.is_some()
        || s.distkey.is_some() || s.sortkey.is_some() || s.backup.is_some()
}

/// A CREATE TABLE.
#[verifier::opaque]
pub open spec fn create_table_of(s: CreateTable, sql: Seq<char>) -> Checked<ParsedStatementView> {
    if unusual_table(s) {
        Err(unsupported_error("this CREATE TABLE form is not supported yet"@, None))
    } else {
        match columns_of(s.columns@, sql, 0, Seq::empty(), Seq::empty()) {
            Err(x) => Err(x),
            Ok((columns, own)) => match table_constraints_of(s.constraints@, sql, 0, Seq::empty()) {
                Err(x) => Err(x),
                Ok(more) => match object_name_of(s.name, sql) {
                    Err(x) => Err(x),
                    Ok(name) => Ok(
                        ParsedStatementView::CreateTable { name, columns, constraints: own + more, if_not_exists: s.if_not_exists },
                    ),
                },
            },
        }
    }
}

/// Takes over a CREATE TABLE.
pub(crate) fn convert_create_table(s: &CreateTable, sql: &str) -> (r: Result<ParsedStatement>)
    requires
        columns_written(s.columns@),
        constraints_written(s.constraints@),
    ensures
        (match r {
            Ok(x) => Ok(x@),
            Err(x) => Err(x@),
        }) == create_table_of(*s, sql@),
{
    reveal(create_table_of);
    if is_unusual_table(s) {
        return Err(unsupported("this CREATE TABLE form is not supported yet"));
    }
    let (columns, own) = convert_columns(&s.columns, sql)?;
    let more = convert_table_constraints(&s.constraints, sql)?;
    let name = convert_object_name(&s.name, sql)?;
    Ok(
        make_statement(
            ParsedStatement::CreateTable { name, columns, constraints: joined_constraints(own, more), if_not_exists: s.if_not_exists },
        ),
    )
}

/// A change of a column.
#[verifier::opaque]
pub open spec fn column_change_of(
    op: AlterColumnOperation,
    column: ParsedIdentifierView,
    sql: Seq<char>,
) -> Checked<Seq<ParsedAlterTableOperationView>> {
    match op {
        AlterColumnOperation::SetNotNull => Ok(seq![ParsedAlterTableOperationView::SetNotNull { column }]),
        AlterColumnOperation::DropNotNull => Ok(seq![ParsedAlterTableOperationView::DropNotNull { column }]),
        AlterColumnOperation::SetDefault { value } => match default_of(value, sql) {
            Err(x) => Err(x),
            Ok(default) => Ok(seq![ParsedAlterTableOperationView::SetDefault { column, default }]),
        },
        AlterColumnOperation::DropDefault => Ok(seq![ParsedAlterTableOperationView::DropDefault { column }]),
        AlterColumnOperation::SetDataType { data_type, using, .. } => if using is Some {
            Err(unsupported_error("ALTER COLUMN TYPE USING expressions are not supported"@, None))
        } else {
            match column_type_of(data_type, sql) {
                Err(x) => Err(x),
                Ok((data_type, declared_type)) => Ok(seq![ParsedAlterTableOperationView::SetDataType { column, data_type, declared_type }]),
            }
        },
        AlterColumnOperation::AddGenerated { .. } => Err(unsupported_error("generated columns are not supported"@, None)),
    }
}

/// Takes over a change of a column.
fn convert_column_change(op: &AlterColumnOperation, column: ParsedIdentifier, sql: &str) -> (r: Result<Vec<ParsedAlterTableOperation>>)
    requires
        change_written(*op),
    ensures
        (match r {
            Ok(x) => Ok(ParsedAlterTableOperation::views(x@)),
            Err(x) => Err(x@),
        }) == column_change_of(*op, column@, sql@),
{
    reveal(column_change_of);
    match op {
        AlterColumnOperation::SetNotNull => {
            Ok(one_operation(ParsedAlterTableOperation::SetNotNull { column }))
        },
        AlterColumnOperation::DropNotNull => {
            Ok(one_operation(ParsedAlterTableOperation::DropNotNull { column }))
        },
        AlterColumnOperation::SetDefault { value } => {
            let default = convert_default(value, sql)?;
            Ok(one_operation(ParsedAlterTableOperation::SetDefault { column, default }))
        },
        AlterColumnOperation::DropDefault => {
            Ok(one_operation(ParsedAlterTableOperation::DropDefault { column }))
        },
        AlterColumnOperation::SetDataType { data_type, using, .. } => {
            if using.is_some() {
                return Err(unsupported("ALTER COLUMN TYPE USING expressions are not supported"));
            }
            let (data_type, declared_type) = convert_column_data_type(data_type, sql)?;
            Ok(one_operation(ParsedAlterTableOperation::SetDataType { column, data_type, declared_type }))
        },
        AlterColumnOperation::AddGenerated { .. } => {
            Err(unsupported("generated columns are not supported"))
        },
    }
}

/// What an operation of an ALTER TABLE does.
#[verifier::opaque]
pub open spec fn operation_of(op: AlterTableOperation, sql: Seq<char>) -> Checked<Seq<ParsedAlterTableOperationView>> {
    match op {
        AlterTableOperation::RenameTable { table_name } => match table_name {
            RenameTableNameKind::To(name) => match single_name_of(name, sql) {
                Err(x) => Err(x),
                Ok(new_name) => Ok(seq![ParsedAlterTableOperationView::RenameTable { new_name }]),
            },
            RenameTableNameKind::As(_) => Err(unsupported_error("ALTER TABLE rename requires RENAME TO"@, None)),
        },
        AlterTableOperation::RenameColumn { old_column_name, new_column_name } => Ok(
            seq![
                ParsedAlterTableOperationView::RenameColumn {
                    old_name: ident_of(old_column_name, sql),
                    new_name: ident_of(new_column_name, sql),
                },
            ],
        ),
        AlterTableOperation::AddColumn { if_not_exists, column_def, column_position, .. } => if column_position is Some {
            Err(unsupported_error("column positioning is not supported"@, None))
        } else {
            match column_of(column_def, sql) {
                Err(x) => Err(x),
                Ok((column, constraints)) => Ok(
                    seq![ParsedAlterTableOperationView::AddColumn { column, if_not_exists }] + added_constraints(constraints),
                ),
            }
        },
        AlterTableOperation::DropColumn { column_names, if_exists, drop_behavior, .. } => Ok(
            seq![
                ParsedAlterTableOperationView::DropColumns {
                    columns: idents_of(column_names@, sql),
                    if_exists,
                    behavior: behavior_of(drop_behavior),
                },
            ],
        ),
        AlterTableOperation::AlterColumn { column_name, op } => column_change_of(op, ident_of(column_name, sql), sql),
        AlterTableOperation::AddConstraint { constraint, not_valid } => if not_valid {
            Err(unsupported_error("NOT VALID constraints are not supported"@, None))
        } else {
            match table_constraint_of(constraint, sql) {
                Err(x) => Err(x),
                Ok(constraint) => Ok(seq![ParsedAlterTableOperationView::AddConstraint { constraint }]),
            }
        },
        AlterTableOperation::DropConstraint { if_exists, name, drop_behavior } => Ok(
            seq![
                ParsedAlterTableOperationView::DropConstraint {
                    name: ident_of(name, sql),
                    if_exists,
                    behavior: behavior_of(drop_behavior),
                },
            ],
        ),
        AlterTableOperation::EnableTrigger { name } => Ok(
            seq![ParsedAlterTableOperationView::SetTriggerEnabled { name: ident_of(name, sql), enabled: true }],
        ),
        AlterTableOperation::DisableTrigger { name } => Ok(
            seq![ParsedAlterTableOperationView::SetTriggerEnabled { name: ident_of(name, sql), enabled: false }],
        ),
        _ => Err(unsupported_error("this ALTER TABLE operation is not supported"@, None)),
    }
}

/// Takes over an operation of an ALTER TABLE.
fn convert_operation(op: &AlterTableOperation, sql: &str) -> (r: Result<Vec<ParsedAlterTableOperation>>)
    requires
        operation_written(*op),
    ensures
        (match r {
            Ok(x) => Ok(ParsedAlterTableOperation::views(x@)),
            Err(x) => Err(x@),
        }) == operation_of(*op, sql@),
{
    reveal(operation_of);
    match op {
        AlterTableOperation::RenameTable { table_name } => {
            match table_name {
                RenameTableNameKind::To(name) => {
                    let new_name = convert_single_identifier(name, sql)?;
                    Ok(one_operation(ParsedAlterTableOperation::RenameTable { new_name }))
                },
                RenameTableNameKind::As(_) => {
                    Err(unsupported("ALTER TABLE rename requires RENAME TO"))
                },
            }
        },
        AlterTableOperation::RenameColumn { old_column_name, new_column_name } => {
            Ok(
                one_operation(
                    ParsedAlterTableOperation::RenameColumn {
                        old_name: convert_ident(old_column_name, sql),
                        new_name: convert_ident(new_column_name, sql),
                    },
                ),
            )
        },
        AlterTableOperation::AddColumn { if_not_exists, column_def, column_position, .. } => {
            if column_position.is_some() {
                return Err(unsupported("column positioning is not supported"));
            }
            let (column, constraints) = convert_column_definition(column_def, sql)?;
            Ok(added_column(column, *if_not_exists, constraints))
        },
        AlterTableOperation::DropColumn { column_names, if_exists, drop_behavior, .. } => {
            Ok(
                one_operation(
                    ParsedAlterTableOperation::DropColumns {
                        columns: convert_idents(column_names, sql),
                        if_exists: *if_exists,
                        behavior: convert_drop_behavior(drop_behavior),
                    },
                ),
            )
        },
        AlterTableOperation::AlterColumn { column_name, op } => {
            convert_column_change(op, convert_ident(column_name, sql), sql)
        },
        AlterTableOperation::AddConstraint { constraint, not_valid } => {
            if *not_valid {
                return Err(unsupported("NOT VALID constraints are not supported"));
            }
            let constraint = convert_table_constraint(constraint, sql)?;
            Ok(one_operation(ParsedAlterTableOperation::AddConstraint { constraint }))
        },
        AlterTableOperation::DropConstraint { if_exists, name, drop_behavior } => {
            Ok(
                one_operation(
                    ParsedAlterTableOperation::DropConstraint {
                        name: convert_ident(name, sql),
                        if_exists: *if_exists,
                        behavior: convert_drop_behavior(drop_behavior),
                    },
                ),
            )
        },
        AlterTableOperation::EnableTrigger { name } => {
            Ok(one_operation(ParsedAlterTableOperation::SetTriggerEnabled { name: convert_ident(name, sql), enabled: true }))
        },
        AlterTableOperation::DisableTrigger { name } => {
            Ok(one_operation(ParsedAlterTableOperation::SetTriggerEnabled { name: convert_ident(name, sql), enabled: false }))
        },
        _ => {
            Err(unsupported("this ALTER TABLE operation is not supported"))
        },
    }
}

/// What the operations of an ALTER TABLE do, from one of them on.
pub open spec fn operations_of(l: Seq<AlterTableOperation>, sql: Seq<char>, i: int, done: Seq<ParsedAlterTableOperationView>) -> Checked<
    Seq<ParsedAlterTableOperationView>,
>
    decreases l.len() - i,
{
    if i < 0 || i >= l.len() {
        Ok(done)
    } else {
        match operation_of(l[i], sql) {
            Err(x) => Err(x),
            Ok(more) => operations_of(l, sql, i + 1, done + more),
        }
    }
}

fn convert_operations(l: &Vec<AlterTableOperation>, sql: &str) -> (r: Result<Vec<ParsedAlterTableOperation>>)
    requires
        operations_written(l@),
    ensures
        (match r {
            Ok(x) => Ok(ParsedAlterTableOperation::views(x@)),
            Err(x) => Err(x@),
        }) == operations_of(l@, sql@, 0, Seq::empty()),
{
    let mut out: Vec<ParsedAlterTableOperation> = Vec::new();
    assert(ParsedAlterTableOperation::views(out@) =~= Seq::empty());
    for i in 0..l.len()
        invariant
            operations_written(l@),
            operations_of(l@, sql@, 0, Seq::empty()) == operations_of(l@, sql@, i as int, ParsedAlterTableOperation::views(out@)),
    {
        let ghost before = ParsedAlterTableOperation::views(out@);
        let mut more = convert_operation(&l[i], sql)?;
        let ghost added = ParsedAlterTableOperation::views(more@);
        out.append(&mut more);
        assert(ParsedAlterTableOperation::views(out@) =~= before + added);
    }
    Ok(out)
}

/// An ALTER TABLE.
#[verifier::opaque]
pub open spec fn alter_table_of(s: AlterTable, sql: Seq<char>) -> Checked<ParsedStatementView> {
    if s.only || s.location is Some || s.on_cluster is Some || s.table_type is Some {
        Err(unsupported_error("this ALTER TABLE form is not supported"@, None))
    } else if s.operations@.len() == 0 {
        Err(error(SYNTAX_ERROR@, "ALTER TABLE requires at least one operation"@))
    } else {
        match operations_of(s.operations@, sql, 0, Seq::empty()) {
            Err(x) => Err(x),
            Ok(operations) => match object_name_of(s.name, sql) {
                Err(x) => Err(x),
                Ok(name) => Ok(ParsedStatementView::AlterTable { name, if_exists: s.if_exists, operations }),
            },
        }
    }
}

/// Takes over an ALTER TABLE.
pub(crate) fn convert_alter_table(s: &AlterTable, sql: &str) -> (r: Result<ParsedStatement>)
    requires
        operations_written(s.operations@),
    ensures
        (match r {
            Ok(x) => Ok(x@),
            Err(x) => Err(x@),
        }) == alter_table_of(*s, sql@),
{
    reveal(alter_table_of);
    if s.only || s.location.is_some() || s.on_cluster.is_some() || s.table_type.is_some() {
        return Err(unsupported("this ALTER TABLE form is not supported"));
    }
    if s.operations.len() == 0 {
        return Err(DbError::new(SYNTAX_ERROR, text("ALTER TABLE requires at least one operation")));
    }
    let operations = convert_operations(&s.operations, sql)?;
    let name = convert_object_name(&s.name, sql)?;
    Ok(make_statement(ParsedStatement::AlterTable { name, if_exists: s.if_exists, operations }))
}

/// The number that an option of a sequence gives.
#[verifier::opaque]
pub open spec fn sequence_number_of(e: Expr, sql: Seq<char>) -> Checked<i64> {
    match converted_expr(e, sql) {
        Err(x) => Err(x),
        Ok(e) => constant_integer(e),
    }
}

/// Takes over the number that an option of a sequence gives.
pub fn sequence_option_i64(e: &Expr, sql: &str) -> (r: Result<i64>)
    ensures
        (match r {
            Ok(x) => Ok(x),
            Err(x) => Err(x@),
        }) == sequence_number_of(*e, sql@),
{
    reveal(sequence_number_of);
    let e = convert_expr(e, sql)?;
    find_constant_integer(&e)
}

/// A number that may be absent.
#[verifier::opaque]
pub open spec fn some_number_of(e: Option<Expr>, sql: Seq<char>) -> Checked<Option<i64>> {
    match e {
        None => Ok(None),
        Some(e) => match sequence_number_of(e, sql) {
            Err(x) => Err(x),
            Ok(n) => Ok(Some(n)),
        },
    }
}

/// Takes over a number that may be absent.
fn convert_some_number(e: &Option<Expr>, sql: &str) -> (r: Result<Option<i64>>)
    ensures
        (match r {
            Ok(x) => Ok(x),
            Err(x) => Err(x@),
        }) == some_number_of(*e, sql@),
{
    reveal(some_number_of);
    match e {
        None => {
            Ok(None)
        },
        Some(e) => {
            let n = sequence_option_i64(e, sql)?;
            Ok(Some(n))
        },
    }
}

/// A sequence with an option.
#[verifier::opaque]
pub open spec fn sequence_option_of(o: SequenceOptions, sql: Seq<char>, sequence: NewSequenceView) -> Checked<NewSequenceView> {
    match o {
        SequenceOptions::IncrementBy(e, _) => match sequence_number_of(e, sql) {
            Err(x) => Err(x),
            Ok(increment) => Ok(NewSequenceView { increment, ..sequence }),
        },
        SequenceOptions::MinValue(e) => match some_number_of(e, sql) {
            Err(x) => Err(x),
            Ok(min_value) => Ok(NewSequenceView { min_value, ..sequence }),
        },
        SequenceOptions::MaxValue(e) => match some_number_of(e, sql) {
            Err(x) => Err(x),
            Ok(max_value) => Ok(NewSequenceView { max_value, ..sequence }),
        },
        SequenceOptions::StartWith(e, _) => match sequence_number_of(e, sql) {
            Err(x) => Err(x),
            Ok(start) => Ok(NewSequenceView { start_value: Some(start), ..sequence }),
        },
        SequenceOptions::Cache(e) => match sequence_number_of(e, sql) {
            Err(x) => Err(x),
            Ok(n) => if n != 1 {
                Err(unsupported_error("sequence CACHE values other than 1 are not supported"@, None))
            } else {
                Ok(sequence)
            },
        },
        SequenceOptions::Cycle(no_cycle) => Ok(NewSequenceView { cycle: !no_cycle, ..sequence }),
    }
}

/// Applies an option to a sequence.
fn apply_sequence_option(o: &SequenceOptions, sql: &str, sequence: NewSequence) -> (r: Result<NewSequence>)
    ensures
        (match r {
            Ok(x) => Ok(x@),
            Err(x) => Err(x@),
        }) == sequence_option_of(*o, sql@, sequence@),
{
    reveal(sequence_option_of);
    match o {
        SequenceOptions::IncrementBy(e, _) => {
            let increment = sequence_option_i64(e, sql)?;
            Ok(NewSequence { increment, ..sequence })
        },
        SequenceOptions::MinValue(e) => {
            let min_value = convert_some_number(e, sql)?;
            Ok(NewSequence { min_value, ..sequence })
        },
        SequenceOptions::MaxValue(e) => {
            let max_value = convert_some_number(e, sql)?;
            Ok(NewSequence { max_value, ..sequence })
        },
        SequenceOptions::StartWith(e, _) => {
            let start = sequence_option_i64(e, sql)?;
            Ok(NewSequence { start_value: Some(start), ..sequence })
        },
        SequenceOptions::Cache(e) => {
            let n = sequence_option_i64(e, sql)?;
            if n != 1 {
                return Err(unsupported("sequence CACHE values other than 1 are not supported"));
            }
            Ok(sequence)
        },
        SequenceOptions::Cycle(no_cycle) => {
            Ok(NewSequence { cycle: !*no_cycle, ..sequence })
        },
    }
}

/// Whether an option of the same kind stands before a place, from an option on.
pub open spec fn kind_seen(l: Seq<SequenceOptions>, end: int, kind: u8) -> bool {
    exists|k: int| 0 <= k < end && option_kind(#[trigger] l[k]) == kind
}

/// A sequence with options, from one of them on.
pub open spec fn sequence_options_of(l: Seq<SequenceOptions>, sql: Seq<char>, i: int, sequence: NewSequenceView) -> Checked<NewSequenceView>
    decreases l.len() - i,
{
    if i < 0 || i >= l.len() {
        Ok(sequence)
    } else if kind_seen(l, i, option_kind(l[i])) {
        Err(error(SYNTAX_ERROR@, "a sequence option was specified more than once"@))
    } else {
        match sequence_option_of(l[i], sql, sequence) {
            Err(x) => Err(x),
            Ok(sequence) => sequence_options_of(l, sql, i + 1, sequence),
        }
    }
}

/// Applies options to a sequence.
pub fn apply_sequence_options(l: &Vec<SequenceOptions>, sql: &str, sequence: NewSequence) -> (r: Result<NewSequence>)
    ensures
        (match r {
            Ok(x) => Ok(x@),
            Err(x) => Err(x@),
        }) == sequence_options_of(l@, sql@, 0, sequence@),
{
    let ghost start = sequence@;
    let mut now: NewSequence = sequence;
    for i in 0..l.len()
        invariant
            start == sequence@,
            sequence_options_of(l@, sql@, 0, start) == sequence_options_of(l@, sql@, i as int, now@),
    {
        let kind: u8 = find_option_kind(&l[i]);
        for k in 0..i
            invariant
                i < l.len(),
                kind == option_kind(l@[i as int]),
                forall|j: int| 0 <= j < k ==> option_kind(#[trigger] l@[j]) != kind,
                start == sequence@,
                sequence_options_of(l@, sql@, 0, start) == sequence_options_of(l@, sql@, i as int, now@),
        {
            if find_option_kind(&l[k]) == kind {
                assert(kind_seen(l@, i as int, kind));
                return Err(DbError::new(SYNTAX_ERROR, text("a sequence option was specified more than once")));
            }
        }
        now = apply_sequence_option(&l[i], sql, now)?;
    }
    Ok(now)
}

/// The column that owns a sequence, and its table.
#[verifier::opaque]
pub open spec fn owner_of(owner: ObjectName, sql: Seq<char>) -> Checked<(ParsedObjectNameView, ParsedIdentifierView)> {
    match object_name_of(owner, sql) {
        Err(x) => Err(x),
        Ok(name) => if name.parts.len() < 2 || name.parts.len() > 3 {
            Err(error(SYNTAX_ERROR@, "OWNED BY requires table.column or schema.table.column"@))
        } else {
            Ok((ParsedObjectNameView { parts: name.parts.drop_last() }, name.parts.last()))
        },
    }
}

/// Takes over the column that owns a sequence, and its table.
pub fn split_owned_by(owner: &ObjectName, sql: &str) -> (r: Result<(ParsedObjectName, ParsedIdentifier)>)
    ensures
        (match r {
            Ok(x) => Ok((x.0@, x.1@)),
            Err(x) => Err(x@),
        }) == owner_of(*owner, sql@),
{
    reveal(owner_of);
    let name = convert_object_name(owner, sql)?;
    if name.parts.len() < 2 || name.parts.len() > 3 {
        return Err(DbError::new(SYNTAX_ERROR, text("OWNED BY requires table.column or schema.table.column")));
    }
    Ok(split_last(name))
}

/// An owner that may be absent.
#[verifier::opaque]
pub open spec fn some_owner_of(owner: Option<ObjectName>, sql: Seq<char>) -> Checked<Option<(ParsedObjectNameView, ParsedIdentifierView)>> {
    match owner {
        None => Ok(None),
        Some(o) => match owner_of(o, sql) {
            Err(x) => Err(x),
            Ok(o) => Ok(Some(o)),
        },
    }
}

/// Takes over an owner that may be absent.
fn convert_some_owner(owner: &Option<ObjectName>, sql: &str) -> (r: Result<Option<(ParsedObjectName, ParsedIdentifier)>>)
    ensures
        (match r {
            Ok(x) => Ok(owner_view(x)),
            Err(x) => Err(x@),
        }) == some_owner_of(*owner, sql@),
{
    reveal(some_owner_of);
    match owner {
        None => {
            Ok(None)
        },
        Some(o) => {
            let o = split_owned_by(o, sql)?;
            Ok(Some(o))
        },
    }
}

/// A CREATE SEQUENCE.
#[verifier::opaque]
pub open spec fn create_sequence_of(
    temporary: bool,
    if_not_exists: bool,
    name: ObjectName,
    data_type: Option<DataType>,
    options: Seq<SequenceOptions>,
    owned_by: Option<ObjectName>,
    sql: Seq<char>,
) -> Checked<ParsedStatementView> {
    if temporary {
        Err(unsupported_error("temporary sequences are not supported"@, None))
    } else {
        match plain_sequence(data_type) {
            Err(x) => Err(x),
            Ok(plain) => match sequence_options_of(options, sql, 0, plain) {
                Err(x) => Err(x),
                Ok(sequence) => match some_owner_of(owned_by, sql) {
                    Err(x) => Err(x),
                    Ok(owner) => match object_name_of(name, sql) {
                        Err(x) => Err(x),
                        Ok(name) => Ok((ParsedStatementView::CreateSequence { name, sequence, if_not_exists, owner })),
                    },
                },
            },
        }
    }
}

/// Takes over a CREATE SEQUENCE.
pub fn convert_create_sequence(
    temporary: bool,
    if_not_exists: bool,
    name: &ObjectName,
    data_type: &Option<DataType>,
    options: &Vec<SequenceOptions>,
    owned_by: &Option<ObjectName>,
    sql: &str,
) -> (r: Result<ParsedStatement>)
    ensures
        (match r {
            Ok(x) => Ok(x@),
            Err(x) => Err(x@),
        }) == create_sequence_of(temporary, if_not_exists, *name, *data_type, options@, *owned_by, sql@),
{
    reveal(create_sequence_of);
    if temporary {
        return Err(unsupported("temporary sequences are not supported"));
    }
    let plain = make_plain_sequence(data_type)?;
    let sequence = apply_sequence_options(options, sql, plain)?;
    let owner = convert_some_owner(owned_by, sql)?;
    let name = convert_object_name(name, sql)?;
    Ok(make_statement(ParsedStatement::CreateSequence { name, sequence, if_not_exists, owner }))
}

/// Whether a CREATE VIEW has clauses that are not supported.
#[verifier::opaque]
pub open spec fn unusual_view(s: CreateView) -> bool {
    s.or_alter || s.secure || s.name_before_not_exists || !(s.options is None) || s.cluster_by@.len() > 0 || s.comment is Some
        || s.with_no_schema_binding || s.temporary || s.copy_grants || s.to is Some || s.params is Some
}

/// Decides whether a CREATE VIEW has clauses that are not supported.
fn is_unusual_view(s: &CreateView) -> (r: bool)
    ensures
        r == unusual_view(*s),
{
    reveal(unusual_view);
    s.or_alter || s.secure || s.name_before_not_exists || !is_no_options(&s.options) || s.cluster_by.len() > 0 || s.comment.is_some()
        || s.with_no_schema_binding || s.temporary || s.copy_grants || s.to.is_some() || s.params.is_some()
}

/// A column of a view.
#[verifier::opaque]
pub open spec fn view_column_of(c: ViewColumnDef, sql: Seq<char>) -> Checked<ParsedIdentifierView> {
    if c.data_type is Some || c.options is Some {
        Err(unsupported_error("typed or optioned view columns are not supported"@, None))
    } else {
        Ok(ident_of(c.name, sql))
    }
}

/// Takes over a column of a view.
fn convert_view_column(c: &ViewColumnDef, sql: &str) -> (r: Result<ParsedIdentifier>)
    ensures
        (match r {
            Ok(x) => Ok(x@),
            Err(x) => Err(x@),
        }) == view_column_of(*c, sql@),
{
    reveal(view_column_of);
    if c.data_type.is_some() || c.options.is_some() {
        return Err(unsupported("typed or optioned view columns are not supported"));
    }
    Ok(convert_ident(&c.name, sql))
}

/// The columns of a view, from one of them on.
pub open spec fn view_columns_of(
    l: Seq<ViewColumnDef>,
    sql: Seq<char>,
    i: int,
    done: Seq<ParsedIdentifierView>,
) -> Checked<Seq<ParsedIdentifierView>>
    decreases l.len() - i,
{
    if i < 0 || i >= l.len() {
        Ok(done)
    } else {
        match view_column_of(l[i], sql) {
            Err(x) => Err(x),
            Ok(b) => view_columns_of(l, sql, i + 1, done.push(b)),
        }
    }
}

/// Takes over the columns of a view.
fn convert_view_columns(l: &Vec<ViewColumnDef>, sql: &str) -> (r: Result<Vec<ParsedIdentifier>>)
    ensures
        (match r {
            Ok(x) => Ok(ParsedIdentifier::views(x@)),
            Err(x) => Err(x@),
        }) == view_columns_of(l@, sql@, 0, Seq::empty()),
{
    let mut out: Vec<ParsedIdentifier> = Vec::new();
    assert(ParsedIdentifier::views(out@) =~= Seq::empty());
    for i in 0..l.len()
        invariant
            view_columns_of(l@, sql@, 0, Seq::empty()) == view_columns_of(l@, sql@, i as int, ParsedIdentifier::views(out@)),
    {
        let ghost before = ParsedIdentifier::views(out@);
        let x = convert_view_column(&l[i], sql)?;
        out.push(x);
        assert(ParsedIdentifier::views(out@) =~= before.push(x@));
    }
    Ok(out)
}

/// A CREATE VIEW.
#[verifier::opaque]
pub open spec fn create_view_of(s: CreateView, source: SourceView) -> Checked<ParsedStatementView> {
    if unusual_view(s) || (s.or_replace && s.if_not_exists) || (s.materialized && s.or_replace) {
        Err(unsupported_error("this CREATE VIEW form is not supported"@, None))
    } else {
        match view_columns_of(s.columns@, source.sql, 0, Seq::empty()) {
            Err(x) => Err(x),
            Ok(columns) => match converted_query(*s.query, source.sql) {
                Err(x) => Err(x),
                Ok(query) => match object_name_of(s.name, source.sql) {
                    Err(x) => Err(x),
                    Ok(name) => Ok(
                        ParsedStatementView::CreateView {
                            name,
                            kind: if s.materialized { ViewKind::Materialized } else { ViewKind::Regular },
                            query: Box::new(query),
                            query_sql: query_text(*s.query),
                            columns,
                            replace: s.or_replace,
                            if_not_exists: s.if_not_exists,
                            with_data: !has_triple(source.tokens, "WITH"@, "NO"@, "DATA"@),
                        },
                    ),
                },
            },
        }
    }
}

/// Takes over a CREATE VIEW.
pub(crate) fn convert_create_view(s: &CreateView, source: &Source) -> (r: Result<ParsedStatement>)
    requires
        query_written(*s.query),
    ensures
        (match r {
            Ok(x) => Ok(x@),
            Err(x) => Err(x@),
        }) == create_view_of(*s, source@),
{
    reveal(create_view_of);
    if is_unusual_view(s) || (s.or_replace && s.if_not_exists) || (s.materialized && s.or_replace) {
        return Err(unsupported("this CREATE VIEW form is not supported"));
    }
    let columns = convert_view_columns(&s.columns, source.sql)?;
    let query = convert_select_query(&s.query, source.sql)?;
    let name = convert_object_name(&s.name, source.sql)?;
    Ok(
        make_statement(
            ParsedStatement::CreateView {
                name,
                kind: if s.materialized { ViewKind::Materialized } else { ViewKind::Regular },
                query: Box::new(query),
                query_sql: text_of_query(&s.query),
                columns,
                replace: s.or_replace,
                if_not_exists: s.if_not_exists,
                with_data: !has_keyword_sequence(&source.tokens, "WITH", "NO", "DATA"),
            },
        ),
    )
}

/// The method of an index.
#[verifier::opaque]
pub open spec fn index_method_of(t: Option<IndexType>) -> Checked<IndexMethod> {
    match t {
        None => Ok(IndexMethod::BTree),
        Some(IndexType::BTree) => Ok(IndexMethod::BTree),
        Some(IndexType::Custom(name)) => if lower(name.value@) == lower("fulltext"@) {
            Ok(IndexMethod::FullText)
        } else if lower(name.value@) == lower("hnsw"@) {
            Ok(IndexMethod::Hnsw)
        } else {
            Err(unsupported_error("this index method is not supported"@, None))
        },
        _ => Err(unsupported_error("this index method is not supported"@, None)),
    }
}

/// Takes over the method of an index.
pub fn convert_index_method(t: &Option<IndexType>) -> (r: Result<IndexMethod>)
    ensures
        (match r {
            Ok(x) => Ok(x),
            Err(x) => Err(x@),
        }) == index_method_of(*t),
{
    reveal(index_method_of);
    match t {
        None => {
            Ok(IndexMethod::BTree)
        },
        Some(IndexType::BTree) => {
            Ok(IndexMethod::BTree)
        },
        Some(IndexType::Custom(name)) => {
            if same_ignoring_case(name.value.as_str(), "fulltext") {
                Ok(IndexMethod::FullText)
            } else if same_ignoring_case(name.value.as_str(), "hnsw") {
                Ok(IndexMethod::Hnsw)
            } else {
                Err(unsupported("this index method is not supported"))
            }
        },
        _ => {
            Err(unsupported("this index method is not supported"))
        },
    }
}

/// The value of an index option.
#[verifier::opaque]
pub open spec fn index_value_of(v: SqlValue) -> Checked<ParsedIndexOptionValueView> {
    match v {
        SqlValue::Number(s, _) => match index_number(s@) {
            Some(n) => Ok(ParsedIndexOptionValueView::Integer(n)),
            None => Err(error("22023"@, "index option value is out of range"@)),
        },
        SqlValue::SingleQuotedString(s) => Ok(ParsedIndexOptionValueView::Text(s@)),
        _ => Err(unsupported_error("index options must be numbers or strings"@, None)),
    }
}

/// Takes over the value of an index option.
fn convert_index_value(v: &SqlValue) -> (r: Result<ParsedIndexOptionValue>)
    ensures
        (match r {
            Ok(x) => Ok(x@),
            Err(x) => Err(x@),
        }) == index_value_of(*v),
{
    reveal(index_value_of);
    match v {
        SqlValue::Number(s, _) => {
            match read_index_number(s.as_str()) {
                Some(n) => {
                    Ok(ParsedIndexOptionValue::Integer(n))
                },
                None => {
                    Err(DbError::new("22023", text("index option value is out of range")))
                },
            }
        },
        SqlValue::SingleQuotedString(s) => {
            Ok(ParsedIndexOptionValue::Text(s.clone()))
        },
        _ => {
            Err(unsupported("index options must be numbers or strings"))
        },
    }
}

/// An option of an index.
#[verifier::opaque]
pub open spec fn index_option_of(e: Expr, sql: Seq<char>) -> Checked<ParsedIndexOptionView> {
    match e {
        Expr::BinaryOp { left, op, right } => if !(op is Eq) {
            Err(unsupported_error("index options must be written as name = value"@, None))
        } else {
            match (*left, *right) {
                (Expr::Identifier(name), Expr::Value(v)) => match index_value_of(v.value) {
                    Err(x) => Err(x),
                    Ok(value) => Ok(ParsedIndexOptionView { name: ident_of(name, sql), value }),
                },
                _ => Err(unsupported_error("index options must be written as name = value"@, None)),
            }
        },
        _ => Err(unsupported_error("index options must be written as name = value"@, None)),
    }
}

/// Takes over an option of an index.
fn convert_index_option(e: &Expr, sql: &str) -> (r: Result<ParsedIndexOption>)
    ensures
        (match r {
            Ok(x) => Ok(x@),
            Err(x) => Err(x@),
        }) == index_option_of(*e, sql@),
{
    reveal(index_option_of);
    match e {
        Expr::BinaryOp { left, op, right } => {
            if !is_equals(op) {
                return Err(unsupported("index options must be written as name = value"));
            }
            match (&**left, &**right) {
                (Expr::Identifier(name), Expr::Value(v)) => {
                    let value = convert_index_value(&v.value)?;
                    Ok(ParsedIndexOption { name: convert_ident(name, sql), value })
                },
                _ => {
                    Err(unsupported("index options must be written as name = value"))
                },
            }
        },
        _ => {
            Err(unsupported("index options must be written as name = value"))
        },
    }
}

/// The options of an index, from one of them on.
pub open spec fn index_options_of(
    l: Seq<Expr>,
    sql: Seq<char>,
    i: int,
    done: Seq<ParsedIndexOptionView>,
) -> Checked<Seq<ParsedIndexOptionView>>
    decreases l.len() - i,
{
    if i < 0 || i >= l.len() {
        Ok(done)
    } else {
        match index_option_of(l[i], sql) {
            Err(x) => Err(x),
            Ok(b) => index_options_of(l, sql, i + 1, done.push(b)),
        }
    }
}

/// Takes over the options of an index.
pub fn convert_index_options(l: &Vec<Expr>, sql: &str) -> (r: Result<Vec<ParsedIndexOption>>)
    ensures
        (match r {
            Ok(x) => Ok(ParsedIndexOption::views(x@)),
            Err(x) => Err(x@),
        }) == index_options_of(l@, sql@, 0, Seq::empty()),
{
    let mut out: Vec<ParsedIndexOption> = Vec::new();
    assert(ParsedIndexOption::views(out@) =~= Seq::empty());
    for i in 0..l.len()
        invariant
            index_options_of(l@, sql@, 0, Seq::empty()) == index_options_of(l@, sql@, i as int, ParsedIndexOption::views(out@)),
    {
        let ghost before = ParsedIndexOption::views(out@);
        let x = convert_index_option(&l[i], sql)?;
        out.push(x);
        assert(ParsedIndexOption::views(out@) =~= before.push(x@));
    }
    Ok(out)
}

/// A CREATE INDEX.
#[verifier::opaque]
pub open spec fn create_index_of(s: CreateIndex, source: SourceView) -> Checked<ParsedStatementView> {
    if s.concurrently || s.nulls_distinct is Some || s.predicate is Some || s.index_options@.len() > 0 || s.alter_options@.len() > 0 {
        Err(unsupported_error("this CREATE INDEX form is not supported yet"@, None))
    } else {
        match index_method_of(s.using) {
            Err(x) => Err(x),
            Ok(method) => match index_options_of(s.with@, source.sql, 0, Seq::empty()) {
                Err(x) => Err(x),
                Ok(options) => match s.name {
                    None => Err(error(SYNTAX_ERROR@, "CREATE INDEX requires a name"@)),
                    Some(name) => match single_name_of(name, source.sql) {
                        Err(x) => Err(x),
                        Ok(name) => match index_columns_of(s.columns@, source.sql, 0, Seq::empty()) {
                            Err(x) => Err(x),
                            Ok(key_columns) => match object_name_of(s.table_name, source.sql) {
                                Err(x) => Err(x),
                                Ok(table) => Ok(
                                    ParsedStatementView::CreateIndex(
                                        ParsedCreateIndexView {
                                            name,
                                            table,
                                            key_columns,
                                            include_columns: carried_columns(source),
                                            unique: s.unique,
                                            method,
                                            options,
                                            if_not_exists: s.if_not_exists,
                                        },
                                    ),
                                ),
                            },
                        },
                    },
                },
            },
        }
    }
}

/// Takes over a CREATE INDEX.
pub fn convert_create_index(s: &CreateIndex, source: &Source) -> (r: Result<ParsedStatement>)
    ensures
        (match r {
            Ok(x) => Ok(x@),
            Err(x) => Err(x@),
        }) == create_index_of(*s, source@),
{
    reveal(create_index_of);
    if s.concurrently || s.nulls_distinct.is_some() || s.predicate.is_some() || s.index_options.len() > 0 || s.alter_options.len() > 0 {
        return Err(unsupported("this CREATE INDEX form is not supported yet"));
    }
    let method = convert_index_method(&s.using)?;
    let options = convert_index_options(&s.with, source.sql)?;
    match &s.name {
        None => {
            Err(DbError::new(SYNTAX_ERROR, text("CREATE INDEX requires a name")))
        },
        Some(name) => {
            let name = convert_single_identifier(name, source.sql)?;
            let key_columns = convert_index_columns(&s.columns, source.sql)?;
            let table = convert_object_name(&s.table_name, source.sql)?;
            Ok(
                make_statement(
                    ParsedStatement::CreateIndex(
                        ParsedCreateIndex {
                            name,
                            table,
                            key_columns,
                            include_columns: find_carried_columns(source),
                            unique: s.unique,
                            method,
                            options,
                            if_not_exists: s.if_not_exists,
                        },
                    ),
                ),
            )
        },
    }
}

/// A constraint of a domain.
#[verifier::opaque]
pub open spec fn domain_check_of(c: TableConstraint, sql: Seq<char>) -> Checked<DomainConstraintView> {
    match c {
        TableConstraint::Check(c) => if c.enforced is Some {
            Err(unsupported_error("domain CHECK ENFORCED clauses are not supported"@, None))
        } else {
            Ok(
                DomainConstraintView {
                    id: None,
                    name: plain_ident(c.name, sql),
                    expression: CatalogExpressionView { sql: expr_text(*c.expr) },
                },
            )
        },
        _ => Err(unsupported_error("CREATE DOMAIN supports only CHECK constraints in this build"@, None)),
    }
}

/// Takes over a constraint of a domain.
fn convert_domain_check(c: &TableConstraint, sql: &str) -> (r: Result<DomainConstraint>)
    requires
        constraint_written(*c),
    ensures
        (match r {
            Ok(x) => Ok(x@),
            Err(x) => Err(x@),
        }) == domain_check_of(*c, sql@),
{
    reveal(domain_check_of);
    match c {
        TableConstraint::Check(c) => {
            if c.enforced.is_some() {
                return Err(unsupported("domain CHECK ENFORCED clauses are not supported"));
            }
            Ok(
                DomainConstraint {
                    id: None,
                    name: convert_plain_name(&c.name, sql),
                    expression: CatalogExpression { sql: text_of_expr(&c.expr) },
                },
            )
        },
        _ => {
            Err(unsupported("CREATE DOMAIN supports only CHECK constraints in this build"))
        },
    }
}

/// Constraints of a domain, from one of them on.
pub open spec fn domain_checks_of(
    l: Seq<TableConstraint>,
    sql: Seq<char>,
    i: int,
    done: Seq<DomainConstraintView>,
) -> Checked<Seq<DomainConstraintView>>
    decreases l.len() - i,
{
    if i < 0 || i >= l.len() {
        Ok(done)
    } else {
        match domain_check_of(l[i], sql) {
            Err(x) => Err(x),
            Ok(b) => domain_checks_of(l, sql, i + 1, done.push(b)),
        }
    }
}

/// Takes over constraints of a domain.
fn convert_domain_checks(l: &Vec<TableConstraint>, sql: &str) -> (r: Result<Vec<DomainConstraint>>)
    requires
        constraints_written(l@),
    ensures
        (match r {
            Ok(x) => Ok(DomainConstraint::views(x@)),
            Err(x) => Err(x@),
        }) == domain_checks_of(l@, sql@, 0, Seq::empty()),
{
    let mut out: Vec<DomainConstraint> = Vec::new();
    assert(DomainConstraint::views(out@) =~= Seq::empty());
    for i in 0..l.len()
        invariant
            constraints_written(l@),
            domain_checks_of(l@, sql@, 0, Seq::empty()) == domain_checks_of(l@, sql@, i as int, DomainConstraint::views(out@)),
    {
        let ghost before = DomainConstraint::views(out@);
        let x = convert_domain_check(&l[i], sql)?;
        out.push(x);
        assert(DomainConstraint::views(out@) =~= before.push(x@));
    }
    Ok(out)
}

/// A default that may be absent.
#[verifier::opaque]
pub open spec fn some_default_of(e: Option<Expr>, sql: Seq<char>) -> Checked<Option<ParsedDefaultView>> {
    match e {
        None => Ok(None),
        Some(e) => match default_of(e, sql) {
            Err(x) => Err(x),
            Ok(d) => Ok(Some(d)),
        },
    }
}

/// Takes over a default that may be absent.
fn convert_some_default(e: &Option<Expr>, sql: &str) -> (r: Result<Option<ParsedDefault>>)
    requires
        *e matches Some(e) ==> expr_written(e),
    ensures
        (match r {
            Ok(x) => Ok(default_view(x)),
            Err(x) => Err(x@),
        }) == some_default_of(*e, sql@),
{
    reveal(some_default_of);
    match e {
        None => {
            Ok(None)
        },
        Some(e) => {
            let d = convert_default(e, sql)?;
            Ok(Some(d))
        },
    }
}

/// A CREATE DOMAIN.
#[verifier::opaque]
pub open spec fn create_domain_of(s: CreateDomain, source: SourceView) -> Checked<ParsedStatementView> {
    if s.collation is Some {
        Err(unsupported_error("CREATE DOMAIN COLLATE is not supported yet"@, None))
    } else {
        match column_type_of(s.data_type, source.sql) {
            Err(x) => Err(x),
            Ok((base_type, base_declared_type)) => match some_default_of(s.default, source.sql) {
                Err(x) => Err(x),
                Ok(default) => match domain_checks_of(s.constraints@, source.sql, 0, Seq::empty()) {
                    Err(x) => Err(x),
                    Ok(checks) => match object_name_of(s.name, source.sql) {
                        Err(x) => Err(x),
                        Ok(name) => Ok(
                            ParsedStatementView::CreateDomain {
                                name,
                                base_type,
                                base_declared_type,
                                not_null: domain_not_null(source.tokens) is Some,
                                default,
                                checks,
                            },
                        ),
                    },
                },
            },
        }
    }
}

/// Takes over a CREATE DOMAIN.
pub(crate) fn convert_create_domain(s: &CreateDomain, source: &Source) -> (r: Result<ParsedStatement>)
    requires
        s.default matches Some(e) ==> expr_written(e),
        constraints_written(s.constraints@),
    ensures
        (match r {
            Ok(x) => Ok(x@),
            Err(x) => Err(x@),
        }) == create_domain_of(*s, source@),
{
    reveal(create_domain_of);
    if s.collation.is_some() {
        return Err(unsupported("CREATE DOMAIN COLLATE is not supported yet"));
    }
    let (base_type, base_declared_type) = convert_column_data_type(&s.data_type, source.sql)?;
    let default = convert_some_default(&s.default, source.sql)?;
    let checks = convert_domain_checks(&s.constraints, source.sql)?;
    let name = convert_object_name(&s.name, source.sql)?;
    Ok(
        make_statement(
            ParsedStatement::CreateDomain {
                name,
                base_type,
                base_declared_type,
                not_null: create_domain_not_null_tokens(&source.tokens).is_some(),
                default,
                checks,
            },
        ),
    )
}

} // verus!
