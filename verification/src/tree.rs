//! The syntax tree that the SQL parser hands out: the parts that are read.

use sqlparser::ast::{
    BinaryOperator as SqlBinaryOperator, DropBehavior as SqlDropBehavior, ReferentialAction as SqlReferentialAction,
    TransactionAccessMode as SqlTransactionAccessMode, TriggerEvent as SqlTriggerEvent, UnaryOperator as SqlUnaryOperator,
    Value as SqlValue, WindowFrameUnits as SqlWindowFrameUnits,
};
use vstd::prelude::*;

verus! {

/// An alter column operation of the syntax tree.
#[verifier::external_type_specification]
pub struct ExAlterColumnOperation(sqlparser::ast::AlterColumnOperation);

/// An alter index operation of the syntax tree.
#[verifier::external_type_specification]
pub struct ExAlterIndexOperation(sqlparser::ast::AlterIndexOperation);

/// An alter schema of the syntax tree.
#[verifier::external_type_specification]
pub struct ExAlterSchema(sqlparser::ast::AlterSchema);

/// An alter schema operation of the syntax tree.
#[verifier::external_type_specification]
pub struct ExAlterSchemaOperation(sqlparser::ast::AlterSchemaOperation);

/// An alter table of the syntax tree.
#[verifier::external_type_specification]
pub struct ExAlterTable(sqlparser::ast::AlterTable);

/// An alter table operation of the syntax tree.
#[verifier::external_type_specification]
pub struct ExAlterTableOperation(sqlparser::ast::AlterTableOperation);

/// An alter type of the syntax tree.
#[verifier::external_type_specification]
pub struct ExAlterType(sqlparser::ast::AlterType);

/// An alter type add value of the syntax tree.
#[verifier::external_type_specification]
pub struct ExAlterTypeAddValue(sqlparser::ast::AlterTypeAddValue);

/// An alter type add value position of the syntax tree.
#[verifier::external_type_specification]
pub struct ExAlterTypeAddValuePosition(sqlparser::ast::AlterTypeAddValuePosition);

/// An alter type operation of the syntax tree.
#[verifier::external_type_specification]
pub struct ExAlterTypeOperation(sqlparser::ast::AlterTypeOperation);

/// An alter type rename value of the syntax tree.
#[verifier::external_type_specification]
pub struct ExAlterTypeRenameValue(sqlparser::ast::AlterTypeRenameValue);

/// An analyze of the syntax tree.
#[verifier::external_type_specification]
pub struct ExAnalyze(sqlparser::ast::Analyze);

/// An arg mode of the syntax tree.
#[verifier::external_type_specification]
pub struct ExArgMode(sqlparser::ast::ArgMode);

/// An array of the syntax tree.
#[verifier::external_type_specification]
pub struct ExArray(sqlparser::ast::Array);

/// An array elem type def of the syntax tree.
#[verifier::external_type_specification]
pub struct ExArrayElemTypeDef(sqlparser::ast::ArrayElemTypeDef);

/// An assignment of the syntax tree.
#[verifier::external_type_specification]
pub struct ExAssignment(sqlparser::ast::Assignment);

/// An assignment target of the syntax tree.
#[verifier::external_type_specification]
pub struct ExAssignmentTarget(sqlparser::ast::AssignmentTarget);

/// An attached token of the syntax tree.
#[verifier::external_type_specification]
pub struct ExAttachedToken(sqlparser::ast::helpers::attached_token::AttachedToken);

/// A begin transaction kind of the syntax tree.
#[verifier::external_type_specification]
pub struct ExBeginTransactionKind(sqlparser::ast::BeginTransactionKind);

/// A binary operator of the syntax tree.
#[verifier::external_type_specification]
pub struct ExBinaryOperator(SqlBinaryOperator);

/// A cast kind of the syntax tree.
#[verifier::external_type_specification]
pub struct ExCastKind(sqlparser::ast::CastKind);

/// A character length of the syntax tree.
#[verifier::external_type_specification]
pub struct ExCharacterLength(sqlparser::ast::CharacterLength);

/// A check constraint of the syntax tree.
#[verifier::external_type_specification]
pub struct ExCheckConstraint(sqlparser::ast::CheckConstraint);

/// A column def of the syntax tree.
#[verifier::external_type_specification]
pub struct ExColumnDef(sqlparser::ast::ColumnDef);

/// A column option of the syntax tree.
#[verifier::external_type_specification]
pub struct ExColumnOption(sqlparser::ast::ColumnOption);

/// A column option def of the syntax tree.
#[verifier::external_type_specification]
pub struct ExColumnOptionDef(sqlparser::ast::ColumnOptionDef);

/// A conflict target of the syntax tree.
#[verifier::external_type_specification]
pub struct ExConflictTarget(sqlparser::ast::ConflictTarget);

/// A create domain of the syntax tree.
#[verifier::external_type_specification]
pub struct ExCreateDomain(sqlparser::ast::CreateDomain);

/// A create function of the syntax tree.
#[verifier::external_type_specification]
pub struct ExCreateFunction(sqlparser::ast::CreateFunction);

/// A create function body of the syntax tree.
#[verifier::external_type_specification]
pub struct ExCreateFunctionBody(sqlparser::ast::CreateFunctionBody);

/// A create index of the syntax tree.
#[verifier::external_type_specification]
pub struct ExCreateIndex(sqlparser::ast::CreateIndex);

/// A create table of the syntax tree.
#[verifier::external_type_specification]
pub struct ExCreateTable(sqlparser::ast::CreateTable);

/// A create table options of the syntax tree.
#[verifier::external_type_specification]
pub struct ExCreateTableOptions(sqlparser::ast::CreateTableOptions);

/// A create trigger of the syntax tree.
#[verifier::external_type_specification]
pub struct ExCreateTrigger(sqlparser::ast::CreateTrigger);

/// A create view of the syntax tree.
#[verifier::external_type_specification]
pub struct ExCreateView(sqlparser::ast::CreateView);

/// A cte of the syntax tree.
#[verifier::external_type_specification]
pub struct ExCte(sqlparser::ast::Cte);

/// A data type of the syntax tree.
#[verifier::external_type_specification]
pub struct ExDataType(sqlparser::ast::DataType);

/// A delete of the syntax tree.
#[verifier::external_type_specification]
pub struct ExDelete(sqlparser::ast::Delete);

/// A discard object of the syntax tree.
#[verifier::external_type_specification]
pub struct ExDiscardObject(sqlparser::ast::DiscardObject);

/// A distinct of the syntax tree.
#[verifier::external_type_specification]
pub struct ExDistinct(sqlparser::ast::Distinct);

/// A do update of the syntax tree.
#[verifier::external_type_specification]
pub struct ExDoUpdate(sqlparser::ast::DoUpdate);

/// A dollar quoted string of the syntax tree.
#[verifier::external_type_specification]
pub struct ExDollarQuotedString(sqlparser::ast::DollarQuotedString);

/// A drop behavior of the syntax tree.
#[verifier::external_type_specification]
pub struct ExDropBehavior(SqlDropBehavior);

/// A drop function of the syntax tree.
#[verifier::external_type_specification]
pub struct ExDropFunction(sqlparser::ast::DropFunction);

/// A drop trigger of the syntax tree.
#[verifier::external_type_specification]
pub struct ExDropTrigger(sqlparser::ast::DropTrigger);

/// A duplicate treatment of the syntax tree.
#[verifier::external_type_specification]
pub struct ExDuplicateTreatment(sqlparser::ast::DuplicateTreatment);

/// An exact number info of the syntax tree.
#[verifier::external_type_specification]
pub struct ExExactNumberInfo(sqlparser::ast::ExactNumberInfo);

/// An expr of the syntax tree.
#[verifier::external_type_specification]
pub struct ExExpr(sqlparser::ast::Expr);

/// A fetch of the syntax tree.
#[verifier::external_type_specification]
pub struct ExFetch(sqlparser::ast::Fetch);

/// A foreign key constraint of the syntax tree.
#[verifier::external_type_specification]
pub struct ExForeignKeyConstraint(sqlparser::ast::ForeignKeyConstraint);

/// A from table of the syntax tree.
#[verifier::external_type_specification]
pub struct ExFromTable(sqlparser::ast::FromTable);

/// A function of the syntax tree.
#[verifier::external_type_specification]
pub struct ExFunction(sqlparser::ast::Function);

/// A function arg of the syntax tree.
#[verifier::external_type_specification]
pub struct ExFunctionArg(sqlparser::ast::FunctionArg);

/// A function arg expr of the syntax tree.
#[verifier::external_type_specification]
pub struct ExFunctionArgExpr(sqlparser::ast::FunctionArgExpr);

/// A function argument list of the syntax tree.
#[verifier::external_type_specification]
pub struct ExFunctionArgumentList(sqlparser::ast::FunctionArgumentList);

/// A function arguments of the syntax tree.
#[verifier::external_type_specification]
pub struct ExFunctionArguments(sqlparser::ast::FunctionArguments);

/// A function desc of the syntax tree.
#[verifier::external_type_specification]
pub struct ExFunctionDesc(sqlparser::ast::FunctionDesc);

/// A function return type of the syntax tree.
#[verifier::external_type_specification]
pub struct ExFunctionReturnType(sqlparser::ast::FunctionReturnType);

/// A function security of the syntax tree.
#[verifier::external_type_specification]
pub struct ExFunctionSecurity(sqlparser::ast::FunctionSecurity);

/// A group by expr of the syntax tree.
#[verifier::external_type_specification]
pub struct ExGroupByExpr(sqlparser::ast::GroupByExpr);

/// A hive distribution style of the syntax tree.
#[verifier::external_type_specification]
pub struct ExHiveDistributionStyle(sqlparser::ast::HiveDistributionStyle);

/// An ident of the syntax tree.
#[verifier::external_type_specification]
pub struct ExIdent(sqlparser::ast::Ident);

/// An index column of the syntax tree.
#[verifier::external_type_specification]
pub struct ExIndexColumn(sqlparser::ast::IndexColumn);

/// An index type of the syntax tree.
#[verifier::external_type_specification]
pub struct ExIndexType(sqlparser::ast::IndexType);

/// An insert of the syntax tree.
#[verifier::external_type_specification]
pub struct ExInsert(sqlparser::ast::Insert);

/// An interval of the syntax tree.
#[verifier::external_type_specification]
pub struct ExInterval(sqlparser::ast::Interval);

/// A join of the syntax tree.
#[verifier::external_type_specification]
pub struct ExJoin(sqlparser::ast::Join);

/// A join constraint of the syntax tree.
#[verifier::external_type_specification]
pub struct ExJoinConstraint(sqlparser::ast::JoinConstraint);

/// A join operator of the syntax tree.
#[verifier::external_type_specification]
pub struct ExJoinOperator(sqlparser::ast::JoinOperator);

/// A limit clause of the syntax tree.
#[verifier::external_type_specification]
pub struct ExLimitClause(sqlparser::ast::LimitClause);

/// A location of the syntax tree.
#[verifier::external_type_specification]
pub struct ExLocation(sqlparser::tokenizer::Location);

/// A merge of the syntax tree.
#[verifier::external_type_specification]
pub struct ExMerge(sqlparser::ast::Merge);

/// A merge action of the syntax tree.
#[verifier::external_type_specification]
pub struct ExMergeAction(sqlparser::ast::MergeAction);

/// A merge clause of the syntax tree.
#[verifier::external_type_specification]
pub struct ExMergeClause(sqlparser::ast::MergeClause);

/// A merge clause kind of the syntax tree.
#[verifier::external_type_specification]
pub struct ExMergeClauseKind(sqlparser::ast::MergeClauseKind);

/// A merge insert expr of the syntax tree.
#[verifier::external_type_specification]
pub struct ExMergeInsertExpr(sqlparser::ast::MergeInsertExpr);

/// A merge insert kind of the syntax tree.
#[verifier::external_type_specification]
pub struct ExMergeInsertKind(sqlparser::ast::MergeInsertKind);

/// A merge update expr of the syntax tree.
#[verifier::external_type_specification]
pub struct ExMergeUpdateExpr(sqlparser::ast::MergeUpdateExpr);

/// A named window definition of the syntax tree.
#[verifier::external_type_specification]
pub struct ExNamedWindowDefinition(sqlparser::ast::NamedWindowDefinition);

/// A named window expr of the syntax tree.
#[verifier::external_type_specification]
pub struct ExNamedWindowExpr(sqlparser::ast::NamedWindowExpr);

/// An object name of the syntax tree.
#[verifier::external_type_specification]
pub struct ExObjectName(sqlparser::ast::ObjectName);

/// An object name part of the syntax tree.
#[verifier::external_type_specification]
pub struct ExObjectNamePart(sqlparser::ast::ObjectNamePart);

/// An object type of the syntax tree.
#[verifier::external_type_specification]
pub struct ExObjectType(sqlparser::ast::ObjectType);

/// An offset of the syntax tree.
#[verifier::external_type_specification]
pub struct ExOffset(sqlparser::ast::Offset);

/// An on conflict of the syntax tree.
#[verifier::external_type_specification]
pub struct ExOnConflict(sqlparser::ast::OnConflict);

/// An on conflict action of the syntax tree.
#[verifier::external_type_specification]
pub struct ExOnConflictAction(sqlparser::ast::OnConflictAction);

/// An on insert of the syntax tree.
#[verifier::external_type_specification]
pub struct ExOnInsert(sqlparser::ast::OnInsert);

/// An one or many with parens of the syntax tree.
#[verifier::external_type_specification]
pub struct ExOneOrManyWithParens<T>(sqlparser::ast::OneOrManyWithParens<T>);

/// An operate function arg of the syntax tree.
#[verifier::external_type_specification]
pub struct ExOperateFunctionArg(sqlparser::ast::OperateFunctionArg);

/// An order by of the syntax tree.
#[verifier::external_type_specification]
pub struct ExOrderBy(sqlparser::ast::OrderBy);

/// An order by expr of the syntax tree.
#[verifier::external_type_specification]
pub struct ExOrderByExpr(sqlparser::ast::OrderByExpr);

/// An order by kind of the syntax tree.
#[verifier::external_type_specification]
pub struct ExOrderByKind(sqlparser::ast::OrderByKind);

/// An order by options of the syntax tree.
#[verifier::external_type_specification]
pub struct ExOrderByOptions(sqlparser::ast::OrderByOptions);

/// An output clause of the syntax tree.
#[verifier::external_type_specification]
pub struct ExOutputClause(sqlparser::ast::OutputClause);

/// A parens of the syntax tree.
#[verifier::external_type_specification]
pub struct ExParens<T>(sqlparser::ast::Parens<T>);

/// A primary key constraint of the syntax tree.
#[verifier::external_type_specification]
pub struct ExPrimaryKeyConstraint(sqlparser::ast::PrimaryKeyConstraint);

/// A query of the syntax tree.
#[verifier::external_type_specification]
pub struct ExQuery(sqlparser::ast::Query);

/// A quote delimited string of the syntax tree.
#[verifier::external_type_specification]
pub struct ExQuoteDelimitedString(sqlparser::ast::QuoteDelimitedString);

/// A referential action of the syntax tree.
#[verifier::external_type_specification]
pub struct ExReferentialAction(SqlReferentialAction);

/// A rename table name kind of the syntax tree.
#[verifier::external_type_specification]
pub struct ExRenameTableNameKind(sqlparser::ast::RenameTableNameKind);

/// A schema name of the syntax tree.
#[verifier::external_type_specification]
pub struct ExSchemaName(sqlparser::ast::SchemaName);

/// A select of the syntax tree.
#[verifier::external_type_specification]
pub struct ExSelect(sqlparser::ast::Select);

/// A select item of the syntax tree.
#[verifier::external_type_specification]
pub struct ExSelectItem(sqlparser::ast::SelectItem);

/// A sequence options of the syntax tree.
#[verifier::external_type_specification]
pub struct ExSequenceOptions(sqlparser::ast::SequenceOptions);

/// A set expr of the syntax tree.
#[verifier::external_type_specification]
pub struct ExSetExpr(sqlparser::ast::SetExpr);

/// A set operator of the syntax tree.
#[verifier::external_type_specification]
pub struct ExSetOperator(sqlparser::ast::SetOperator);

/// A set quantifier of the syntax tree.
#[verifier::external_type_specification]
pub struct ExSetQuantifier(sqlparser::ast::SetQuantifier);

/// A span of the syntax tree.
#[verifier::external_type_specification]
pub struct ExSpan(sqlparser::tokenizer::Span);

/// An option of the syntax tree.
#[verifier::external_type_specification]
pub struct ExSqlOption(sqlparser::ast::SqlOption);

/// A statement of the syntax tree.
#[verifier::external_type_specification]
pub struct ExStatement(sqlparser::ast::Statement);

/// A struct bracket kind of the syntax tree.
#[verifier::external_type_specification]
pub struct ExStructBracketKind(sqlparser::ast::StructBracketKind);

/// A table alias of the syntax tree.
#[verifier::external_type_specification]
pub struct ExTableAlias(sqlparser::ast::TableAlias);

/// A table alias column def of the syntax tree.
#[verifier::external_type_specification]
pub struct ExTableAliasColumnDef(sqlparser::ast::TableAliasColumnDef);

/// A table constraint of the syntax tree.
#[verifier::external_type_specification]
pub struct ExTableConstraint(sqlparser::ast::TableConstraint);

/// A table factor of the syntax tree.
#[verifier::external_type_specification]
pub struct ExTableFactor(sqlparser::ast::TableFactor);

/// A table object of the syntax tree.
#[verifier::external_type_specification]
pub struct ExTableObject(sqlparser::ast::TableObject);

/// A table with joins of the syntax tree.
#[verifier::external_type_specification]
pub struct ExTableWithJoins(sqlparser::ast::TableWithJoins);

/// A timezone info of the syntax tree.
#[verifier::external_type_specification]
pub struct ExTimezoneInfo(sqlparser::ast::TimezoneInfo);

/// A token of the syntax tree.
#[verifier::external_type_specification]
pub struct ExToken(sqlparser::tokenizer::Token);

/// A token with span of the syntax tree.
#[verifier::external_type_specification]
pub struct ExTokenWithSpan(sqlparser::tokenizer::TokenWithSpan);

/// A top of the syntax tree.
#[verifier::external_type_specification]
pub struct ExTop(sqlparser::ast::Top);

/// A top quantity of the syntax tree.
#[verifier::external_type_specification]
pub struct ExTopQuantity(sqlparser::ast::TopQuantity);

/// A transaction access mode of the syntax tree.
#[verifier::external_type_specification]
pub struct ExTransactionAccessMode(SqlTransactionAccessMode);

/// A transaction isolation level of the syntax tree.
#[verifier::external_type_specification]
pub struct ExTransactionIsolationLevel(sqlparser::ast::TransactionIsolationLevel);

/// A transaction mode of the syntax tree.
#[verifier::external_type_specification]
pub struct ExTransactionMode(sqlparser::ast::TransactionMode);

/// A trigger event of the syntax tree.
#[verifier::external_type_specification]
pub struct ExTriggerEvent(SqlTriggerEvent);

/// A trigger exec body of the syntax tree.
#[verifier::external_type_specification]
pub struct ExTriggerExecBody(sqlparser::ast::TriggerExecBody);

/// A trigger exec body type of the syntax tree.
#[verifier::external_type_specification]
pub struct ExTriggerExecBodyType(sqlparser::ast::TriggerExecBodyType);

/// A trigger object of the syntax tree.
#[verifier::external_type_specification]
pub struct ExTriggerObject(sqlparser::ast::TriggerObject);

/// A trigger object kind of the syntax tree.
#[verifier::external_type_specification]
pub struct ExTriggerObjectKind(sqlparser::ast::TriggerObjectKind);

/// A trigger period of the syntax tree.
#[verifier::external_type_specification]
pub struct ExTriggerPeriod(sqlparser::ast::TriggerPeriod);

/// A trim where field of the syntax tree.
#[verifier::external_type_specification]
pub struct ExTrimWhereField(sqlparser::ast::TrimWhereField);

/// A typed string of the syntax tree.
#[verifier::external_type_specification]
pub struct ExTypedString(sqlparser::ast::TypedString);

/// An unary operator of the syntax tree.
#[verifier::external_type_specification]
pub struct ExUnaryOperator(SqlUnaryOperator);

/// An unique constraint of the syntax tree.
#[verifier::external_type_specification]
pub struct ExUniqueConstraint(sqlparser::ast::UniqueConstraint);

/// An update of the syntax tree.
#[verifier::external_type_specification]
pub struct ExUpdate(sqlparser::ast::Update);

/// An user defined type representation of the syntax tree.
#[verifier::external_type_specification]
pub struct ExUserDefinedTypeRepresentation(sqlparser::ast::UserDefinedTypeRepresentation);

/// A vacuum statement of the syntax tree.
#[verifier::external_type_specification]
pub struct ExVacuumStatement(sqlparser::ast::VacuumStatement);

/// A value of the syntax tree.
#[verifier::external_type_specification]
pub struct ExValue(SqlValue);

/// A value with span of the syntax tree.
#[verifier::external_type_specification]
pub struct ExValueWithSpan(sqlparser::ast::ValueWithSpan);

/// A values of the syntax tree.
#[verifier::external_type_specification]
pub struct ExValues(sqlparser::ast::Values);

/// A view column def of the syntax tree.
#[verifier::external_type_specification]
pub struct ExViewColumnDef(sqlparser::ast::ViewColumnDef);

/// A whitespace of the syntax tree.
#[verifier::external_type_specification]
pub struct ExWhitespace(sqlparser::tokenizer::Whitespace);

/// A window frame of the syntax tree.
#[verifier::external_type_specification]
pub struct ExWindowFrame(sqlparser::ast::WindowFrame);

/// A window frame bound of the syntax tree.
#[verifier::external_type_specification]
pub struct ExWindowFrameBound(sqlparser::ast::WindowFrameBound);

/// A window frame units of the syntax tree.
#[verifier::external_type_specification]
pub struct ExWindowFrameUnits(SqlWindowFrameUnits);

/// A window spec of the syntax tree.
#[verifier::external_type_specification]
pub struct ExWindowSpec(sqlparser::ast::WindowSpec);

/// A window type of the syntax tree.
#[verifier::external_type_specification]
pub struct ExWindowType(sqlparser::ast::WindowType);

/// A with of the syntax tree.
#[verifier::external_type_specification]
pub struct ExWith(sqlparser::ast::With);

/// A word of the syntax tree.
#[verifier::external_type_specification]
pub struct ExWord(sqlparser::tokenizer::Word);

/// A wrapped collection of the syntax tree.
#[verifier::external_type_specification]
pub struct ExWrappedCollection<T>(sqlparser::ast::WrappedCollection<T>);

} // verus!
