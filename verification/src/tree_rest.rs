//! The syntax tree that the SQL parser hands out: the parts that are only passed over.

use vstd::prelude::*;

verus! {

/// An access expr of the syntax tree, whose contents are not read.
#[verifier::external_type_specification]
#[verifier::external_body]
pub struct ExAccessExpr(sqlparser::ast::AccessExpr);

/// An after match skip of the syntax tree, whose contents are not read.
#[verifier::external_type_specification]
#[verifier::external_body]
pub struct ExAfterMatchSkip(sqlparser::ast::AfterMatchSkip);

/// An alter collation of the syntax tree, whose contents are not read.
#[verifier::external_type_specification]
#[verifier::external_body]
pub struct ExAlterCollation(sqlparser::ast::AlterCollation);

/// An alter connector owner of the syntax tree, whose contents are not read.
#[verifier::external_type_specification]
#[verifier::external_body]
pub struct ExAlterConnectorOwner(sqlparser::ast::AlterConnectorOwner);

/// An alter function of the syntax tree, whose contents are not read.
#[verifier::external_type_specification]
#[verifier::external_body]
pub struct ExAlterFunction(sqlparser::ast::AlterFunction);

/// An alter operator of the syntax tree, whose contents are not read.
#[verifier::external_type_specification]
#[verifier::external_body]
pub struct ExAlterOperator(sqlparser::ast::AlterOperator);

/// An alter operator class of the syntax tree, whose contents are not read.
#[verifier::external_type_specification]
#[verifier::external_body]
pub struct ExAlterOperatorClass(sqlparser::ast::AlterOperatorClass);

/// An alter operator family of the syntax tree, whose contents are not read.
#[verifier::external_type_specification]
#[verifier::external_body]
pub struct ExAlterOperatorFamily(sqlparser::ast::AlterOperatorFamily);

/// An alter policy of the syntax tree, whose contents are not read.
#[verifier::external_type_specification]
#[verifier::external_body]
pub struct ExAlterPolicy(sqlparser::ast::AlterPolicy);

/// An alter role operation of the syntax tree, whose contents are not read.
#[verifier::external_type_specification]
#[verifier::external_body]
pub struct ExAlterRoleOperation(sqlparser::ast::AlterRoleOperation);

/// An alter table algorithm of the syntax tree, whose contents are not read.
#[verifier::external_type_specification]
#[verifier::external_body]
pub struct ExAlterTableAlgorithm(sqlparser::ast::AlterTableAlgorithm);

/// An alter table lock of the syntax tree, whose contents are not read.
#[verifier::external_type_specification]
#[verifier::external_body]
pub struct ExAlterTableLock(sqlparser::ast::AlterTableLock);

/// An alter table type of the syntax tree, whose contents are not read.
#[verifier::external_type_specification]
#[verifier::external_body]
pub struct ExAlterTableType(sqlparser::ast::AlterTableType);

/// An alter type rename of the syntax tree, whose contents are not read.
#[verifier::external_type_specification]
#[verifier::external_body]
pub struct ExAlterTypeRename(sqlparser::ast::AlterTypeRename);

/// An alter user of the syntax tree, whose contents are not read.
#[verifier::external_type_specification]
#[verifier::external_body]
pub struct ExAlterUser(sqlparser::ast::AlterUser);

/// An analyze format kind of the syntax tree, whose contents are not read.
#[verifier::external_type_specification]
#[verifier::external_body]
pub struct ExAnalyzeFormatKind(sqlparser::ast::AnalyzeFormatKind);

/// An attach duck dbdatabase option of the syntax tree, whose contents are not read.
#[verifier::external_type_specification]
#[verifier::external_body]
pub struct ExAttachDuckDBDatabaseOption(sqlparser::ast::AttachDuckDBDatabaseOption);

/// A begin end statements of the syntax tree, whose contents are not read.
#[verifier::external_type_specification]
#[verifier::external_body]
pub struct ExBeginEndStatements(sqlparser::ast::BeginEndStatements);

/// A binary length of the syntax tree, whose contents are not read.
#[verifier::external_type_specification]
#[verifier::external_body]
pub struct ExBinaryLength(sqlparser::ast::BinaryLength);

/// A case statement of the syntax tree, whose contents are not read.
#[verifier::external_type_specification]
#[verifier::external_body]
pub struct ExCaseStatement(sqlparser::ast::CaseStatement);

/// A case when of the syntax tree, whose contents are not read.
#[verifier::external_type_specification]
#[verifier::external_body]
pub struct ExCaseWhen(sqlparser::ast::CaseWhen);

/// A cast format of the syntax tree, whose contents are not read.
#[verifier::external_type_specification]
#[verifier::external_body]
pub struct ExCastFormat(sqlparser::ast::CastFormat);

/// A catalog sync namespace mode of the syntax tree, whose contents are not read.
#[verifier::external_type_specification]
#[verifier::external_body]
pub struct ExCatalogSyncNamespaceMode(sqlparser::ast::CatalogSyncNamespaceMode);

/// A ceil floor kind of the syntax tree, whose contents are not read.
#[verifier::external_type_specification]
#[verifier::external_body]
pub struct ExCeilFloorKind(sqlparser::ast::CeilFloorKind);

/// A char length units of the syntax tree, whose contents are not read.
#[verifier::external_type_specification]
#[verifier::external_body]
pub struct ExCharLengthUnits(sqlparser::ast::CharLengthUnits);

/// A close cursor of the syntax tree, whose contents are not read.
#[verifier::external_type_specification]
#[verifier::external_body]
pub struct ExCloseCursor(sqlparser::ast::CloseCursor);

/// A clustered by of the syntax tree, whose contents are not read.
#[verifier::external_type_specification]
#[verifier::external_body]
pub struct ExClusteredBy(sqlparser::ast::ClusteredBy);

/// A column options of the syntax tree, whose contents are not read.
#[verifier::external_type_specification]
#[verifier::external_body]
pub struct ExColumnOptions(sqlparser::ast::ColumnOptions);

/// A column policy of the syntax tree, whose contents are not read.
#[verifier::external_type_specification]
#[verifier::external_body]
pub struct ExColumnPolicy(sqlparser::ast::ColumnPolicy);

/// A comment def of the syntax tree, whose contents are not read.
#[verifier::external_type_specification]
#[verifier::external_body]
pub struct ExCommentDef(sqlparser::ast::CommentDef);

/// A comment object of the syntax tree, whose contents are not read.
#[verifier::external_type_specification]
#[verifier::external_body]
pub struct ExCommentObject(sqlparser::ast::CommentObject);

/// A conditional statements of the syntax tree, whose contents are not read.
#[verifier::external_type_specification]
#[verifier::external_body]
pub struct ExConditionalStatements(sqlparser::ast::ConditionalStatements);

/// A connect by kind of the syntax tree, whose contents are not read.
#[verifier::external_type_specification]
#[verifier::external_body]
pub struct ExConnectByKind(sqlparser::ast::ConnectByKind);

/// A constraint characteristics of the syntax tree, whose contents are not read.
#[verifier::external_type_specification]
#[verifier::external_body]
pub struct ExConstraintCharacteristics(sqlparser::ast::ConstraintCharacteristics);

/// A constraint reference match kind of the syntax tree, whose contents are not read.
#[verifier::external_type_specification]
#[verifier::external_body]
pub struct ExConstraintReferenceMatchKind(sqlparser::ast::ConstraintReferenceMatchKind);

/// A constraint using index of the syntax tree, whose contents are not read.
#[verifier::external_type_specification]
#[verifier::external_body]
pub struct ExConstraintUsingIndex(sqlparser::ast::ConstraintUsingIndex);

/// A contact entry of the syntax tree, whose contents are not read.
#[verifier::external_type_specification]
#[verifier::external_body]
pub struct ExContactEntry(sqlparser::ast::ContactEntry);

/// A copy into snowflake kind of the syntax tree, whose contents are not read.
#[verifier::external_type_specification]
#[verifier::external_body]
pub struct ExCopyIntoSnowflakeKind(sqlparser::ast::CopyIntoSnowflakeKind);

/// A copy legacy option of the syntax tree, whose contents are not read.
#[verifier::external_type_specification]
#[verifier::external_body]
pub struct ExCopyLegacyOption(sqlparser::ast::CopyLegacyOption);

/// A copy option of the syntax tree, whose contents are not read.
#[verifier::external_type_specification]
#[verifier::external_body]
pub struct ExCopyOption(sqlparser::ast::CopyOption);

/// A copy source of the syntax tree, whose contents are not read.
#[verifier::external_type_specification]
#[verifier::external_body]
pub struct ExCopySource(sqlparser::ast::CopySource);

/// A copy target of the syntax tree, whose contents are not read.
#[verifier::external_type_specification]
#[verifier::external_body]
pub struct ExCopyTarget(sqlparser::ast::CopyTarget);

/// A create collation of the syntax tree, whose contents are not read.
#[verifier::external_type_specification]
#[verifier::external_body]
pub struct ExCreateCollation(sqlparser::ast::CreateCollation);

/// A create connector of the syntax tree, whose contents are not read.
#[verifier::external_type_specification]
#[verifier::external_body]
pub struct ExCreateConnector(sqlparser::ast::CreateConnector);

/// A create extension of the syntax tree, whose contents are not read.
#[verifier::external_type_specification]
#[verifier::external_body]
pub struct ExCreateExtension(sqlparser::ast::CreateExtension);

/// A create function using of the syntax tree, whose contents are not read.
#[verifier::external_type_specification]
#[verifier::external_body]
pub struct ExCreateFunctionUsing(sqlparser::ast::CreateFunctionUsing);

/// A create operator of the syntax tree, whose contents are not read.
#[verifier::external_type_specification]
#[verifier::external_body]
pub struct ExCreateOperator(sqlparser::ast::CreateOperator);

/// A create operator class of the syntax tree, whose contents are not read.
#[verifier::external_type_specification]
#[verifier::external_body]
pub struct ExCreateOperatorClass(sqlparser::ast::CreateOperatorClass);

/// A create operator family of the syntax tree, whose contents are not read.
#[verifier::external_type_specification]
#[verifier::external_body]
pub struct ExCreateOperatorFamily(sqlparser::ast::CreateOperatorFamily);

/// A create policy of the syntax tree, whose contents are not read.
#[verifier::external_type_specification]
#[verifier::external_body]
pub struct ExCreatePolicy(sqlparser::ast::CreatePolicy);

/// A create role of the syntax tree, whose contents are not read.
#[verifier::external_type_specification]
#[verifier::external_body]
pub struct ExCreateRole(sqlparser::ast::CreateRole);

/// A create server statement of the syntax tree, whose contents are not read.
#[verifier::external_type_specification]
#[verifier::external_body]
pub struct ExCreateServerStatement(sqlparser::ast::CreateServerStatement);

/// A create table like kind of the syntax tree, whose contents are not read.
#[verifier::external_type_specification]
#[verifier::external_body]
pub struct ExCreateTableLikeKind(sqlparser::ast::CreateTableLikeKind);

/// A create user of the syntax tree, whose contents are not read.
#[verifier::external_type_specification]
#[verifier::external_body]
pub struct ExCreateUser(sqlparser::ast::CreateUser);

/// A create view params of the syntax tree, whose contents are not read.
#[verifier::external_type_specification]
#[verifier::external_body]
pub struct ExCreateViewParams(sqlparser::ast::CreateViewParams);

/// A cte as materialized of the syntax tree, whose contents are not read.
#[verifier::external_type_specification]
#[verifier::external_body]
pub struct ExCteAsMaterialized(sqlparser::ast::CteAsMaterialized);

/// A date time field of the syntax tree, whose contents are not read.
#[verifier::external_type_specification]
#[verifier::external_body]
pub struct ExDateTimeField(sqlparser::ast::DateTimeField);

/// A declare of the syntax tree, whose contents are not read.
#[verifier::external_type_specification]
#[verifier::external_body]
pub struct ExDeclare(sqlparser::ast::Declare);

/// A deduplicate of the syntax tree, whose contents are not read.
#[verifier::external_type_specification]
#[verifier::external_body]
pub struct ExDeduplicate(sqlparser::ast::Deduplicate);

/// A deny statement of the syntax tree, whose contents are not read.
#[verifier::external_type_specification]
#[verifier::external_body]
pub struct ExDenyStatement(sqlparser::ast::DenyStatement);

/// A describe alias of the syntax tree, whose contents are not read.
#[verifier::external_type_specification]
#[verifier::external_body]
pub struct ExDescribeAlias(sqlparser::ast::DescribeAlias);

/// A dictionary field of the syntax tree, whose contents are not read.
#[verifier::external_type_specification]
#[verifier::external_body]
pub struct ExDictionaryField(sqlparser::ast::DictionaryField);

/// A dist style of the syntax tree, whose contents are not read.
#[verifier::external_type_specification]
#[verifier::external_body]
pub struct ExDistStyle(sqlparser::ast::DistStyle);

/// A drop domain of the syntax tree, whose contents are not read.
#[verifier::external_type_specification]
#[verifier::external_body]
pub struct ExDropDomain(sqlparser::ast::DropDomain);

/// A drop extension of the syntax tree, whose contents are not read.
#[verifier::external_type_specification]
#[verifier::external_body]
pub struct ExDropExtension(sqlparser::ast::DropExtension);

/// A drop operator of the syntax tree, whose contents are not read.
#[verifier::external_type_specification]
#[verifier::external_body]
pub struct ExDropOperator(sqlparser::ast::DropOperator);

/// A drop operator class of the syntax tree, whose contents are not read.
#[verifier::external_type_specification]
#[verifier::external_body]
pub struct ExDropOperatorClass(sqlparser::ast::DropOperatorClass);

/// A drop operator family of the syntax tree, whose contents are not read.
#[verifier::external_type_specification]
#[verifier::external_body]
pub struct ExDropOperatorFamily(sqlparser::ast::DropOperatorFamily);

/// A drop policy of the syntax tree, whose contents are not read.
#[verifier::external_type_specification]
#[verifier::external_body]
pub struct ExDropPolicy(sqlparser::ast::DropPolicy);

/// An enum member of the syntax tree, whose contents are not read.
#[verifier::external_type_specification]
#[verifier::external_body]
pub struct ExEnumMember(sqlparser::ast::EnumMember);

/// An exception when of the syntax tree, whose contents are not read.
#[verifier::external_type_specification]
#[verifier::external_body]
pub struct ExExceptionWhen(sqlparser::ast::ExceptionWhen);

/// An exclude select item of the syntax tree, whose contents are not read.
#[verifier::external_type_specification]
#[verifier::external_body]
pub struct ExExcludeSelectItem(sqlparser::ast::ExcludeSelectItem);

/// An export data of the syntax tree, whose contents are not read.
#[verifier::external_type_specification]
#[verifier::external_body]
pub struct ExExportData(sqlparser::ast::ExportData);

/// An expr with alias of the syntax tree, whose contents are not read.
#[verifier::external_type_specification]
#[verifier::external_body]
pub struct ExExprWithAlias(sqlparser::ast::ExprWithAlias);

/// An extract syntax of the syntax tree, whose contents are not read.
#[verifier::external_type_specification]
#[verifier::external_body]
pub struct ExExtractSyntax(sqlparser::ast::ExtractSyntax);

/// A fetch direction of the syntax tree, whose contents are not read.
#[verifier::external_type_specification]
#[verifier::external_body]
pub struct ExFetchDirection(sqlparser::ast::FetchDirection);

/// A fetch position of the syntax tree, whose contents are not read.
#[verifier::external_type_specification]
#[verifier::external_body]
pub struct ExFetchPosition(sqlparser::ast::FetchPosition);

/// A file format of the syntax tree, whose contents are not read.
#[verifier::external_type_specification]
#[verifier::external_body]
pub struct ExFileFormat(sqlparser::ast::FileFormat);

/// A file staging command of the syntax tree, whose contents are not read.
#[verifier::external_type_specification]
#[verifier::external_body]
pub struct ExFileStagingCommand(sqlparser::ast::helpers::stmt_data_loading::FileStagingCommand);

/// A flush location of the syntax tree, whose contents are not read.
#[verifier::external_type_specification]
#[verifier::external_body]
pub struct ExFlushLocation(sqlparser::ast::FlushLocation);

/// A flush type of the syntax tree, whose contents are not read.
#[verifier::external_type_specification]
#[verifier::external_body]
pub struct ExFlushType(sqlparser::ast::FlushType);

/// A for clause of the syntax tree, whose contents are not read.
#[verifier::external_type_specification]
#[verifier::external_body]
pub struct ExForClause(sqlparser::ast::ForClause);

/// A for values of the syntax tree, whose contents are not read.
#[verifier::external_type_specification]
#[verifier::external_body]
pub struct ExForValues(sqlparser::ast::ForValues);

/// A format clause of the syntax tree, whose contents are not read.
#[verifier::external_type_specification]
#[verifier::external_body]
pub struct ExFormatClause(sqlparser::ast::FormatClause);

/// A full text or spatial constraint of the syntax tree, whose contents are not read.
#[verifier::external_type_specification]
#[verifier::external_body]
pub struct ExFullTextOrSpatialConstraint(sqlparser::ast::FullTextOrSpatialConstraint);

/// A function arg operator of the syntax tree, whose contents are not read.
#[verifier::external_type_specification]
#[verifier::external_body]
pub struct ExFunctionArgOperator(sqlparser::ast::FunctionArgOperator);

/// A function argument clause of the syntax tree, whose contents are not read.
#[verifier::external_type_specification]
#[verifier::external_body]
pub struct ExFunctionArgumentClause(sqlparser::ast::FunctionArgumentClause);

/// A function behavior of the syntax tree, whose contents are not read.
#[verifier::external_type_specification]
#[verifier::external_body]
pub struct ExFunctionBehavior(sqlparser::ast::FunctionBehavior);

/// A function called on null of the syntax tree, whose contents are not read.
#[verifier::external_type_specification]
#[verifier::external_body]
pub struct ExFunctionCalledOnNull(sqlparser::ast::FunctionCalledOnNull);

/// A function definition set param of the syntax tree, whose contents are not read.
#[verifier::external_type_specification]
#[verifier::external_body]
pub struct ExFunctionDefinitionSetParam(sqlparser::ast::FunctionDefinitionSetParam);

/// A function determinism specifier of the syntax tree, whose contents are not read.
#[verifier::external_type_specification]
#[verifier::external_body]
pub struct ExFunctionDeterminismSpecifier(sqlparser::ast::FunctionDeterminismSpecifier);

/// A function parallel of the syntax tree, whose contents are not read.
#[verifier::external_type_specification]
#[verifier::external_body]
pub struct ExFunctionParallel(sqlparser::ast::FunctionParallel);

/// A generated as of the syntax tree, whose contents are not read.
#[verifier::external_type_specification]
#[verifier::external_body]
pub struct ExGeneratedAs(sqlparser::ast::GeneratedAs);

/// A generated expression mode of the syntax tree, whose contents are not read.
#[verifier::external_type_specification]
#[verifier::external_body]
pub struct ExGeneratedExpressionMode(sqlparser::ast::GeneratedExpressionMode);

/// A geometric type kind of the syntax tree, whose contents are not read.
#[verifier::external_type_specification]
#[verifier::external_body]
pub struct ExGeometricTypeKind(sqlparser::ast::GeometricTypeKind);

/// A grant of the syntax tree, whose contents are not read.
#[verifier::external_type_specification]
#[verifier::external_body]
pub struct ExGrant(sqlparser::ast::Grant);

/// A group by with modifier of the syntax tree, whose contents are not read.
#[verifier::external_type_specification]
#[verifier::external_body]
pub struct ExGroupByWithModifier(sqlparser::ast::GroupByWithModifier);

/// A hive describe format of the syntax tree, whose contents are not read.
#[verifier::external_type_specification]
#[verifier::external_body]
pub struct ExHiveDescribeFormat(sqlparser::ast::HiveDescribeFormat);

/// A hive format of the syntax tree, whose contents are not read.
#[verifier::external_type_specification]
#[verifier::external_body]
pub struct ExHiveFormat(sqlparser::ast::HiveFormat);

/// A hive load data format of the syntax tree, whose contents are not read.
#[verifier::external_type_specification]
#[verifier::external_body]
pub struct ExHiveLoadDataFormat(sqlparser::ast::HiveLoadDataFormat);

/// A hive set location of the syntax tree, whose contents are not read.
#[verifier::external_type_specification]
#[verifier::external_body]
pub struct ExHiveSetLocation(sqlparser::ast::HiveSetLocation);

/// An iam role kind of the syntax tree, whose contents are not read.
#[verifier::external_type_specification]
#[verifier::external_body]
pub struct ExIamRoleKind(sqlparser::ast::IamRoleKind);

/// An identity property kind of the syntax tree, whose contents are not read.
#[verifier::external_type_specification]
#[verifier::external_body]
pub struct ExIdentityPropertyKind(sqlparser::ast::IdentityPropertyKind);

/// An if statement of the syntax tree, whose contents are not read.
#[verifier::external_type_specification]
#[verifier::external_body]
pub struct ExIfStatement(sqlparser::ast::IfStatement);

/// An index constraint of the syntax tree, whose contents are not read.
#[verifier::external_type_specification]
#[verifier::external_body]
pub struct ExIndexConstraint(sqlparser::ast::IndexConstraint);

/// An index option of the syntax tree, whose contents are not read.
#[verifier::external_type_specification]
#[verifier::external_body]
pub struct ExIndexOption(sqlparser::ast::IndexOption);

/// An initialize kind of the syntax tree, whose contents are not read.
#[verifier::external_type_specification]
#[verifier::external_body]
pub struct ExInitializeKind(sqlparser::ast::InitializeKind);

/// An input format clause of the syntax tree, whose contents are not read.
#[verifier::external_type_specification]
#[verifier::external_body]
pub struct ExInputFormatClause(sqlparser::ast::InputFormatClause);

/// An insert aliases of the syntax tree, whose contents are not read.
#[verifier::external_type_specification]
#[verifier::external_body]
pub struct ExInsertAliases(sqlparser::ast::InsertAliases);

/// An interpolate of the syntax tree, whose contents are not read.
#[verifier::external_type_specification]
#[verifier::external_body]
pub struct ExInterpolate(sqlparser::ast::Interpolate);

/// An interval fields of the syntax tree, whose contents are not read.
#[verifier::external_type_specification]
#[verifier::external_body]
pub struct ExIntervalFields(sqlparser::ast::IntervalFields);

/// A json path of the syntax tree, whose contents are not read.
#[verifier::external_type_specification]
#[verifier::external_body]
pub struct ExJsonPath(sqlparser::ast::JsonPath);

/// A json table column of the syntax tree, whose contents are not read.
#[verifier::external_type_specification]
#[verifier::external_body]
pub struct ExJsonTableColumn(sqlparser::ast::JsonTableColumn);

/// A key or index display of the syntax tree, whose contents are not read.
#[verifier::external_type_specification]
#[verifier::external_body]
pub struct ExKeyOrIndexDisplay(sqlparser::ast::KeyOrIndexDisplay);

/// A key value options of the syntax tree, whose contents are not read.
#[verifier::external_type_specification]
#[verifier::external_body]
pub struct ExKeyValueOptions(sqlparser::ast::helpers::key_value_options::KeyValueOptions);

/// A keyword of the syntax tree, whose contents are not read.
#[verifier::external_type_specification]
#[verifier::external_body]
pub struct ExKeyword(sqlparser::keywords::Keyword);

/// A kill type of the syntax tree, whose contents are not read.
#[verifier::external_type_specification]
#[verifier::external_body]
pub struct ExKillType(sqlparser::ast::KillType);

/// A lambda function of the syntax tree, whose contents are not read.
#[verifier::external_type_specification]
#[verifier::external_body]
pub struct ExLambdaFunction(sqlparser::ast::LambdaFunction);

/// A lateral view of the syntax tree, whose contents are not read.
#[verifier::external_type_specification]
#[verifier::external_body]
pub struct ExLateralView(sqlparser::ast::LateralView);

/// A lock of the syntax tree, whose contents are not read.
#[verifier::external_type_specification]
#[verifier::external_body]
pub struct ExLock(sqlparser::ast::Lock);

/// A lock clause of the syntax tree, whose contents are not read.
#[verifier::external_type_specification]
#[verifier::external_body]
pub struct ExLockClause(sqlparser::ast::LockClause);

/// A lock table of the syntax tree, whose contents are not read.
#[verifier::external_type_specification]
#[verifier::external_body]
pub struct ExLockTable(sqlparser::ast::LockTable);

/// A macro arg of the syntax tree, whose contents are not read.
#[verifier::external_type_specification]
#[verifier::external_body]
pub struct ExMacroArg(sqlparser::ast::MacroArg);

/// A macro definition of the syntax tree, whose contents are not read.
#[verifier::external_type_specification]
#[verifier::external_body]
pub struct ExMacroDefinition(sqlparser::ast::MacroDefinition);

/// A map of the syntax tree, whose contents are not read.
#[verifier::external_type_specification]
#[verifier::external_body]
pub struct ExMap(sqlparser::ast::Map);

/// A match recognize pattern of the syntax tree, whose contents are not read.
#[verifier::external_type_specification]
#[verifier::external_body]
pub struct ExMatchRecognizePattern(sqlparser::ast::MatchRecognizePattern);

/// A measure of the syntax tree, whose contents are not read.
#[verifier::external_type_specification]
#[verifier::external_body]
pub struct ExMeasure(sqlparser::ast::Measure);

/// A member of of the syntax tree, whose contents are not read.
#[verifier::external_type_specification]
#[verifier::external_body]
pub struct ExMemberOf(sqlparser::ast::MemberOf);

/// A msck of the syntax tree, whose contents are not read.
#[verifier::external_type_specification]
#[verifier::external_body]
pub struct ExMsck(sqlparser::ast::Msck);

/// A multi table insert into clause of the syntax tree, whose contents are not read.
#[verifier::external_type_specification]
#[verifier::external_body]
pub struct ExMultiTableInsertIntoClause(sqlparser::ast::MultiTableInsertIntoClause);

/// A multi table insert type of the syntax tree, whose contents are not read.
#[verifier::external_type_specification]
#[verifier::external_body]
pub struct ExMultiTableInsertType(sqlparser::ast::MultiTableInsertType);

/// A multi table insert when clause of the syntax tree, whose contents are not read.
#[verifier::external_type_specification]
#[verifier::external_body]
pub struct ExMultiTableInsertWhenClause(sqlparser::ast::MultiTableInsertWhenClause);

/// A my sqlcolumn position of the syntax tree, whose contents are not read.
#[verifier::external_type_specification]
#[verifier::external_body]
pub struct ExMySQLColumnPosition(sqlparser::ast::MySQLColumnPosition);

/// A mysql insert priority of the syntax tree, whose contents are not read.
#[verifier::external_type_specification]
#[verifier::external_body]
pub struct ExMysqlInsertPriority(sqlparser::ast::MysqlInsertPriority);

/// A named parenthesized list of the syntax tree, whose contents are not read.
#[verifier::external_type_specification]
#[verifier::external_body]
pub struct ExNamedParenthesizedList(sqlparser::ast::NamedParenthesizedList);

/// A normalization form of the syntax tree, whose contents are not read.
#[verifier::external_type_specification]
#[verifier::external_body]
pub struct ExNormalizationForm(sqlparser::ast::NormalizationForm);

/// A null inclusion of the syntax tree, whose contents are not read.
#[verifier::external_type_specification]
#[verifier::external_body]
pub struct ExNullInclusion(sqlparser::ast::NullInclusion);

/// A null treatment of the syntax tree, whose contents are not read.
#[verifier::external_type_specification]
#[verifier::external_body]
pub struct ExNullTreatment(sqlparser::ast::NullTreatment);

/// A nulls distinct option of the syntax tree, whose contents are not read.
#[verifier::external_type_specification]
#[verifier::external_body]
pub struct ExNullsDistinctOption(sqlparser::ast::NullsDistinctOption);

/// An object name part function of the syntax tree, whose contents are not read.
#[verifier::external_type_specification]
#[verifier::external_body]
pub struct ExObjectNamePartFunction(sqlparser::ast::ObjectNamePartFunction);

/// An offset rows of the syntax tree, whose contents are not read.
#[verifier::external_type_specification]
#[verifier::external_body]
pub struct ExOffsetRows(sqlparser::ast::OffsetRows);

/// An on commit of the syntax tree, whose contents are not read.
#[verifier::external_type_specification]
#[verifier::external_body]
pub struct ExOnCommit(sqlparser::ast::OnCommit);

/// An open json table column of the syntax tree, whose contents are not read.
#[verifier::external_type_specification]
#[verifier::external_body]
pub struct ExOpenJsonTableColumn(sqlparser::ast::OpenJsonTableColumn);

/// An open statement of the syntax tree, whose contents are not read.
#[verifier::external_type_specification]
#[verifier::external_body]
pub struct ExOpenStatement(sqlparser::ast::OpenStatement);

/// An optimizer hint of the syntax tree, whose contents are not read.
#[verifier::external_type_specification]
#[verifier::external_body]
pub struct ExOptimizerHint(sqlparser::ast::OptimizerHint);

/// An owner of the syntax tree, whose contents are not read.
#[verifier::external_type_specification]
#[verifier::external_body]
pub struct ExOwner(sqlparser::ast::Owner);

/// A partition of the syntax tree, whose contents are not read.
#[verifier::external_type_specification]
#[verifier::external_body]
pub struct ExPartition(sqlparser::ast::Partition);

/// A partition range direction of the syntax tree, whose contents are not read.
#[verifier::external_type_specification]
#[verifier::external_body]
pub struct ExPartitionRangeDirection(sqlparser::ast::PartitionRangeDirection);

/// A pipe operator of the syntax tree, whose contents are not read.
#[verifier::external_type_specification]
#[verifier::external_body]
pub struct ExPipeOperator(sqlparser::ast::PipeOperator);

/// A pivot value source of the syntax tree, whose contents are not read.
#[verifier::external_type_specification]
#[verifier::external_body]
pub struct ExPivotValueSource(sqlparser::ast::PivotValueSource);

/// A print statement of the syntax tree, whose contents are not read.
#[verifier::external_type_specification]
#[verifier::external_body]
pub struct ExPrintStatement(sqlparser::ast::PrintStatement);

/// A procedure param of the syntax tree, whose contents are not read.
#[verifier::external_type_specification]
#[verifier::external_body]
pub struct ExProcedureParam(sqlparser::ast::ProcedureParam);

/// A projection select of the syntax tree, whose contents are not read.
#[verifier::external_type_specification]
#[verifier::external_body]
pub struct ExProjectionSelect(sqlparser::ast::ProjectionSelect);

/// A rais error option of the syntax tree, whose contents are not read.
#[verifier::external_type_specification]
#[verifier::external_body]
pub struct ExRaisErrorOption(sqlparser::ast::RaisErrorOption);

/// A raise statement of the syntax tree, whose contents are not read.
#[verifier::external_type_specification]
#[verifier::external_body]
pub struct ExRaiseStatement(sqlparser::ast::RaiseStatement);

/// A refresh mode kind of the syntax tree, whose contents are not read.
#[verifier::external_type_specification]
#[verifier::external_body]
pub struct ExRefreshModeKind(sqlparser::ast::RefreshModeKind);

/// A rename table of the syntax tree, whose contents are not read.
#[verifier::external_type_specification]
#[verifier::external_body]
pub struct ExRenameTable(sqlparser::ast::RenameTable);

/// A replica identity of the syntax tree, whose contents are not read.
#[verifier::external_type_specification]
#[verifier::external_body]
pub struct ExReplicaIdentity(sqlparser::ast::ReplicaIdentity);

/// A reset statement of the syntax tree, whose contents are not read.
#[verifier::external_type_specification]
#[verifier::external_body]
pub struct ExResetStatement(sqlparser::ast::ResetStatement);

/// A return statement of the syntax tree, whose contents are not read.
#[verifier::external_type_specification]
#[verifier::external_body]
pub struct ExReturnStatement(sqlparser::ast::ReturnStatement);

/// A revoke of the syntax tree, whose contents are not read.
#[verifier::external_type_specification]
#[verifier::external_body]
pub struct ExRevoke(sqlparser::ast::Revoke);

/// A row access policy of the syntax tree, whose contents are not read.
#[verifier::external_type_specification]
#[verifier::external_body]
pub struct ExRowAccessPolicy(sqlparser::ast::RowAccessPolicy);

/// A rows per match of the syntax tree, whose contents are not read.
#[verifier::external_type_specification]
#[verifier::external_body]
pub struct ExRowsPerMatch(sqlparser::ast::RowsPerMatch);

/// A search modifier of the syntax tree, whose contents are not read.
#[verifier::external_type_specification]
#[verifier::external_body]
pub struct ExSearchModifier(sqlparser::ast::SearchModifier);

/// A secret option of the syntax tree, whose contents are not read.
#[verifier::external_type_specification]
#[verifier::external_body]
pub struct ExSecretOption(sqlparser::ast::SecretOption);

/// A select flavor of the syntax tree, whose contents are not read.
#[verifier::external_type_specification]
#[verifier::external_body]
pub struct ExSelectFlavor(sqlparser::ast::SelectFlavor);

/// A select into of the syntax tree, whose contents are not read.
#[verifier::external_type_specification]
#[verifier::external_body]
pub struct ExSelectInto(sqlparser::ast::SelectInto);

/// A select item qualified wildcard kind of the syntax tree, whose contents are not read.
#[verifier::external_type_specification]
#[verifier::external_body]
pub struct ExSelectItemQualifiedWildcardKind(sqlparser::ast::SelectItemQualifiedWildcardKind);

/// A select modifiers of the syntax tree, whose contents are not read.
#[verifier::external_type_specification]
#[verifier::external_body]
pub struct ExSelectModifiers(sqlparser::ast::SelectModifiers);

/// A set of the syntax tree, whose contents are not read.
#[verifier::external_type_specification]
#[verifier::external_body]
pub struct ExSet(sqlparser::ast::Set);

/// A setting of the syntax tree, whose contents are not read.
#[verifier::external_type_specification]
#[verifier::external_body]
pub struct ExSetting(sqlparser::ast::Setting);

/// A show charset of the syntax tree, whose contents are not read.
#[verifier::external_type_specification]
#[verifier::external_body]
pub struct ExShowCharset(sqlparser::ast::ShowCharset);

/// A show create object of the syntax tree, whose contents are not read.
#[verifier::external_type_specification]
#[verifier::external_body]
pub struct ExShowCreateObject(sqlparser::ast::ShowCreateObject);

/// A show objects of the syntax tree, whose contents are not read.
#[verifier::external_type_specification]
#[verifier::external_body]
pub struct ExShowObjects(sqlparser::ast::ShowObjects);

/// A show statement filter of the syntax tree, whose contents are not read.
#[verifier::external_type_specification]
#[verifier::external_body]
pub struct ExShowStatementFilter(sqlparser::ast::ShowStatementFilter);

/// A show statement options of the syntax tree, whose contents are not read.
#[verifier::external_type_specification]
#[verifier::external_body]
pub struct ExShowStatementOptions(sqlparser::ast::ShowStatementOptions);

/// A sqlite on conflict of the syntax tree, whose contents are not read.
#[verifier::external_type_specification]
#[verifier::external_body]
pub struct ExSqliteOnConflict(sqlparser::ast::SqliteOnConflict);

/// A stage load select item kind of the syntax tree, whose contents are not read.
#[verifier::external_type_specification]
#[verifier::external_body]
pub struct ExStageLoadSelectItemKind(sqlparser::ast::helpers::stmt_data_loading::StageLoadSelectItemKind);

/// A stage params object of the syntax tree, whose contents are not read.
#[verifier::external_type_specification]
#[verifier::external_body]
pub struct ExStageParamsObject(sqlparser::ast::helpers::stmt_data_loading::StageParamsObject);

/// A storage lifecycle policy of the syntax tree, whose contents are not read.
#[verifier::external_type_specification]
#[verifier::external_body]
pub struct ExStorageLifecyclePolicy(sqlparser::ast::StorageLifecyclePolicy);

/// A storage serialization policy of the syntax tree, whose contents are not read.
#[verifier::external_type_specification]
#[verifier::external_body]
pub struct ExStorageSerializationPolicy(sqlparser::ast::StorageSerializationPolicy);

/// A struct field of the syntax tree, whose contents are not read.
#[verifier::external_type_specification]
#[verifier::external_body]
pub struct ExStructField(sqlparser::ast::StructField);

/// A symbol definition of the syntax tree, whose contents are not read.
#[verifier::external_type_specification]
#[verifier::external_body]
pub struct ExSymbolDefinition(sqlparser::ast::SymbolDefinition);

/// A table of the syntax tree, whose contents are not read.
#[verifier::external_type_specification]
#[verifier::external_body]
pub struct ExTable(sqlparser::ast::Table);

/// A table alias without columns of the syntax tree, whose contents are not read.
#[verifier::external_type_specification]
#[verifier::external_body]
pub struct ExTableAliasWithoutColumns(sqlparser::ast::TableAliasWithoutColumns);

/// A table function args of the syntax tree, whose contents are not read.
#[verifier::external_type_specification]
#[verifier::external_body]
pub struct ExTableFunctionArgs(sqlparser::ast::TableFunctionArgs);

/// A table index hints of the syntax tree, whose contents are not read.
#[verifier::external_type_specification]
#[verifier::external_body]
pub struct ExTableIndexHints(sqlparser::ast::TableIndexHints);

/// A table options clustered of the syntax tree, whose contents are not read.
#[verifier::external_type_specification]
#[verifier::external_body]
pub struct ExTableOptionsClustered(sqlparser::ast::TableOptionsClustered);

/// A table sample kind of the syntax tree, whose contents are not read.
#[verifier::external_type_specification]
#[verifier::external_body]
pub struct ExTableSampleKind(sqlparser::ast::TableSampleKind);

/// A table version of the syntax tree, whose contents are not read.
#[verifier::external_type_specification]
#[verifier::external_body]
pub struct ExTableVersion(sqlparser::ast::TableVersion);

/// A tablespace option of the syntax tree, whose contents are not read.
#[verifier::external_type_specification]
#[verifier::external_body]
pub struct ExTablespaceOption(sqlparser::ast::TablespaceOption);

/// A tag of the syntax tree, whose contents are not read.
#[verifier::external_type_specification]
#[verifier::external_body]
pub struct ExTag(sqlparser::ast::Tag);

/// A tags column option of the syntax tree, whose contents are not read.
#[verifier::external_type_specification]
#[verifier::external_body]
pub struct ExTagsColumnOption(sqlparser::ast::TagsColumnOption);

/// A throw statement of the syntax tree, whose contents are not read.
#[verifier::external_type_specification]
#[verifier::external_body]
pub struct ExThrowStatement(sqlparser::ast::ThrowStatement);

/// A transaction modifier of the syntax tree, whose contents are not read.
#[verifier::external_type_specification]
#[verifier::external_body]
pub struct ExTransactionModifier(sqlparser::ast::TransactionModifier);

/// A trigger referencing of the syntax tree, whose contents are not read.
#[verifier::external_type_specification]
#[verifier::external_body]
pub struct ExTriggerReferencing(sqlparser::ast::TriggerReferencing);

/// A truncate of the syntax tree, whose contents are not read.
#[verifier::external_type_specification]
#[verifier::external_body]
pub struct ExTruncate(sqlparser::ast::Truncate);

/// An union field of the syntax tree, whose contents are not read.
#[verifier::external_type_specification]
#[verifier::external_body]
pub struct ExUnionField(sqlparser::ast::UnionField);

/// An update table from kind of the syntax tree, whose contents are not read.
#[verifier::external_type_specification]
#[verifier::external_body]
pub struct ExUpdateTableFromKind(sqlparser::ast::UpdateTableFromKind);

/// An use of the syntax tree, whose contents are not read.
#[verifier::external_type_specification]
#[verifier::external_body]
pub struct ExUse(sqlparser::ast::Use);

/// An user defined type composite attribute def of the syntax tree, whose contents are not read.
#[verifier::external_type_specification]
#[verifier::external_body]
pub struct ExUserDefinedTypeCompositeAttributeDef(sqlparser::ast::UserDefinedTypeCompositeAttributeDef);

/// An user defined type range option of the syntax tree, whose contents are not read.
#[verifier::external_type_specification]
#[verifier::external_body]
pub struct ExUserDefinedTypeRangeOption(sqlparser::ast::UserDefinedTypeRangeOption);

/// An user defined type sql definition option of the syntax tree, whose contents are not read.
#[verifier::external_type_specification]
#[verifier::external_body]
pub struct ExUserDefinedTypeSqlDefinitionOption(sqlparser::ast::UserDefinedTypeSqlDefinitionOption);

/// An utility option of the syntax tree, whose contents are not read.
#[verifier::external_type_specification]
#[verifier::external_body]
pub struct ExUtilityOption(sqlparser::ast::UtilityOption);

/// A value table mode of the syntax tree, whose contents are not read.
#[verifier::external_type_specification]
#[verifier::external_body]
pub struct ExValueTableMode(sqlparser::ast::ValueTableMode);

/// A wait for statement of the syntax tree, whose contents are not read.
#[verifier::external_type_specification]
#[verifier::external_body]
pub struct ExWaitForStatement(sqlparser::ast::WaitForStatement);

/// A while statement of the syntax tree, whose contents are not read.
#[verifier::external_type_specification]
#[verifier::external_body]
pub struct ExWhileStatement(sqlparser::ast::WhileStatement);

/// A wildcard additional options of the syntax tree, whose contents are not read.
#[verifier::external_type_specification]
#[verifier::external_body]
pub struct ExWildcardAdditionalOptions(sqlparser::ast::WildcardAdditionalOptions);

/// A with fill of the syntax tree, whose contents are not read.
#[verifier::external_type_specification]
#[verifier::external_body]
pub struct ExWithFill(sqlparser::ast::WithFill);

/// A xml namespace definition of the syntax tree, whose contents are not read.
#[verifier::external_type_specification]
#[verifier::external_body]
pub struct ExXmlNamespaceDefinition(sqlparser::ast::XmlNamespaceDefinition);

/// A xml passing clause of the syntax tree, whose contents are not read.
#[verifier::external_type_specification]
#[verifier::external_body]
pub struct ExXmlPassingClause(sqlparser::ast::XmlPassingClause);

/// A xml table column of the syntax tree, whose contents are not read.
#[verifier::external_type_specification]
#[verifier::external_body]
pub struct ExXmlTableColumn(sqlparser::ast::XmlTableColumn);

} // verus!
