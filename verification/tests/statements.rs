//! How texts become statements.

use ordadb_sql::catalog::{
    DropBehavior, EnumValuePosition, RoutineArgumentMode, RoutineKind, TriggerEvent, TriggerLevel, TriggerTiming, ViewKind,
};
use ordadb_sql::dialects::dialect_from_name;
use ordadb_sql::effects::classify_statement_effect;
use ordadb_sql::parser::{create_domain_is_not_null, parse, parse_with_dialect};
use ordadb_sql::syntax::{
    BinaryOperator, DdlObjectKind, IsolationLevel, JoinKind, ParsedAlterDomainOperation, ParsedAlterSequence, ParsedAlterTableOperation, ParsedConflictAction,
    ParsedExpr, ParsedExprKind, ParsedJoinSource, ParsedMergeAction, ParsedMergeClauseKind, ParsedObjectName, ParsedProjection,
    ParsedSequenceOperation, ParsedStatement, ParsedTableConstraint, QuerySetOperator, ScalarFunction, SqlDialect, StatementEffect, TransactionAccessMode,
    TransactionChain, UnaryOperator,
};
use ordadb_sql::types::{DbError, Identifier, ScalarType, Value};

fn statement(sql: &str) -> ParsedStatement {
    match parse(sql) {
        Ok(statement) => statement,
        Err(error) => panic!("{sql}: {error:?}"),
    }
}

fn refusal(sql: &str) -> DbError {
    match parse(sql) {
        Ok(statement) => panic!("{sql}: {statement:?}"),
        Err(error) => error,
    }
}

fn state(sql: &str) -> String {
    refusal(sql).sql_state
}

fn name(parts: &ParsedObjectName) -> Vec<String> {
    parts.parts.iter().map(|part| part.name.as_str().to_owned()).collect()
}

fn scalars(sql: &str) -> Vec<ParsedExpr> {
    let ParsedStatement::ScalarSelect { projection } = statement(sql) else {
        panic!("{sql} is not a scalar select");
    };
    projection
        .into_iter()
        .map(|item| match item {
            ParsedProjection::Expression { expr, .. } => expr,
            ParsedProjection::Wildcard => panic!("{sql} selects everything"),
        })
        .collect()
}

fn literal(sql: &str) -> Value {
    let expr = scalars(sql).remove(0);
    match expr.kind {
        ParsedExprKind::Literal(value) => value,
        other => panic!("{sql}: {other:?}"),
    }
}

fn filter(sql: &str) -> ParsedExpr {
    match statement(sql) {
        ParsedStatement::Select { filter: Some(filter), .. } => filter,
        ParsedStatement::AdvancedSelect { filter: Some(filter), .. } => filter,
        other => panic!("{sql}: {other:?}"),
    }
}

#[test]
fn reads_constants() {
    assert_eq!(literal("SELECT 1"), Value::Int32(1));
    assert_eq!(literal("SELECT 9223372036854775807"), Value::Int64(9223372036854775807));
    assert_eq!(literal("SELECT 1.50"), Value::Decimal("1.50".to_owned()));
    assert_eq!(literal("SELECT 007.50"), Value::Decimal("7.50".to_owned()));
    assert_eq!(literal("SELECT 1.5e2"), Value::Decimal("150".to_owned()));
    assert_eq!(literal("SELECT 'it''s'"), Value::Text("it's".to_owned()));
    assert_eq!(literal("SELECT TRUE"), Value::Boolean(true));
    assert_eq!(literal("SELECT NULL"), Value::Null);
}

#[test]
fn reads_dates_and_times() {
    assert_eq!(literal("SELECT DATE '2024-02-29'"), Value::Date("2024-02-29".to_owned()));
    assert_eq!(literal("SELECT TIME '10:20:30'"), Value::Time("10:20:30".to_owned()));
    assert_eq!(
        literal("SELECT TIMESTAMP '2024-02-29 10:20:30'"),
        Value::Timestamp { text: "2024-02-29 10:20:30".to_owned(), with_timezone: false }
    );
    assert!(matches!(
        literal("SELECT TIMESTAMP WITH TIME ZONE '2024-02-29 10:20:30+02:00'"),
        Value::Timestamp { with_timezone: true, text } if text.contains("10:20:30")
    ));
    assert_eq!(literal("SELECT DATE '2024-2-9'"), Value::Date("2024-02-09".to_owned()));
    assert_eq!(literal("SELECT TIME '1:02:03'"), Value::Time("01:02:03".to_owned()));
    assert_eq!(
        literal("SELECT TIMESTAMP '2024-2-9 1:02:03'"),
        Value::Timestamp { text: "2024-02-09 01:02:03".to_owned(), with_timezone: false }
    );
    assert_eq!(literal("SELECT INTERVAL '1 day'"), Value::Interval("1 day".to_owned()));
    assert_eq!(state("SELECT DATE '2023-02-29'"), "22007");
}

#[test]
fn reads_operators_and_functions() {
    let expr = scalars("SELECT -a.b + 2 * $1").remove(0);
    let ParsedExprKind::Binary { left, op: BinaryOperator::Add, right } = expr.kind else {
        panic!("sum expected");
    };
    assert!(matches!(left.kind, ParsedExprKind::Unary { op: UnaryOperator::Negate, .. }));
    assert!(matches!(right.kind, ParsedExprKind::Binary { op: BinaryOperator::Multiply, .. }));
    for (sql, expected, count) in [
        ("SELECT lower('A')", ScalarFunction::Lower, 1),
        ("SELECT UPPER('A')", ScalarFunction::Upper, 1),
        ("SELECT coalesce($1, 2, 3)", ScalarFunction::Coalesce, 3),
        ("SELECT nullif(1, 2)", ScalarFunction::NullIf, 2),
        ("SELECT concat('a', 'b')", ScalarFunction::Concat, 2),
        ("SELECT substring('abc' FROM 2 FOR 1)", ScalarFunction::Substring, 3),
        ("SELECT trim('  a ')", ScalarFunction::Btrim, 1),
        ("SELECT trim(leading 'x' from 'xa')", ScalarFunction::Ltrim, 2),
        ("SELECT trim(trailing 'x' from 'ax')", ScalarFunction::Rtrim, 2),
        ("SELECT replace('a', 'b', 'c')", ScalarFunction::Replace, 3),
        ("SELECT greatest(1, 2)", ScalarFunction::Greatest, 2),
        ("SELECT current_user", ScalarFunction::CurrentUser, 0),
        ("SELECT version()", ScalarFunction::Version, 0),
        ("SELECT current_setting('search_path')", ScalarFunction::CurrentSetting, 1),
    ] {
        let expr = scalars(sql).remove(0);
        match expr.kind {
            ParsedExprKind::Function { function, arguments } => {
                assert_eq!(function, expected, "{sql}");
                assert_eq!(arguments.len(), count, "{sql}");
            }
            other => panic!("{sql}: {other:?}"),
        }
    }
}

#[test]
fn position_names_the_searched_text_last() {
    for sql in [
        "SELECT POSITION('b' IN 'abc')",
        "SELECT strpos('abc', 'b')",
        "SELECT position ( 'b' in 'abc' )",
    ] {
        let expr = scalars(sql).remove(0);
        let ParsedExprKind::Function { function: ScalarFunction::Strpos, arguments } = expr.kind else {
            panic!("{sql} is not a search");
        };
        assert_eq!(arguments[0].kind, ParsedExprKind::Literal(Value::Text("abc".to_owned())), "{sql}");
        assert_eq!(arguments[1].kind, ParsedExprKind::Literal(Value::Text("b".to_owned())), "{sql}");
    }
    let nested = scalars("SELECT POSITION(lower('b') IN replace('abc', 'c', 'd')) + POSITION(POSITION('x' IN 'y')::text IN lower('z'))");
    let ParsedExprKind::Binary { left, right, .. } = &nested[0].kind else {
        panic!("sum expected");
    };
    assert!(matches!(&left.kind, ParsedExprKind::Function { function: ScalarFunction::Strpos, arguments }
        if matches!(arguments[0].kind, ParsedExprKind::Function { function: ScalarFunction::Replace, .. })
            && matches!(arguments[1].kind, ParsedExprKind::Function { function: ScalarFunction::Lower, .. })));
    assert!(matches!(&right.kind, ParsedExprKind::Function { function: ScalarFunction::Strpos, arguments }
        if matches!(arguments[0].kind, ParsedExprKind::Function { function: ScalarFunction::Lower, .. })
            && matches!(arguments[1].kind, ParsedExprKind::Cast { .. })));
    assert_eq!(scalars("SELECT POSITION('b' IN 'abc')")[0].position, Some(17));
    assert_eq!(state("SELECT POSITION('b' IN)"), "42601");
    assert_eq!(state("SELECT POSITION(a AND b IN c)"), "42601");
}

#[test]
fn stored_texts_keep_position() {
    let ParsedStatement::CreateTable { columns, constraints, .. } =
        statement("CREATE TABLE t (a INT DEFAULT POSITION('b' IN 'abc'), b TEXT, CHECK (POSITION('x' IN b) > 0))")
    else {
        panic!("table expected");
    };
    assert_eq!(columns[0].default.as_ref().map(|default| default.sql.as_str()), Some("POSITION('b' IN 'abc')"));
    assert!(matches!(&constraints[0], ParsedTableConstraint::Check { sql, .. } if sql == "POSITION('x' IN b) > 0"));
    assert!(matches!(
        statement("CREATE VIEW v AS SELECT POSITION('x' IN b) AS p FROM t"),
        ParsedStatement::CreateView { query_sql, .. } if query_sql == "SELECT POSITION('x' IN b) AS p FROM t"
    ));
    let ParsedStatement::CreateRoutine { name: routine, arguments, .. } =
        statement("CREATE FUNCTION position(a integer, IN b integer) RETURNS integer LANGUAGE plpgsql AS $$ BEGIN RETURN 1; END $$")
    else {
        panic!("function expected");
    };
    assert_eq!(name(&routine), vec!["position"]);
    assert_eq!(arguments.len(), 2);
}

fn included(sql: &str, dialect: SqlDialect) -> Vec<(String, Option<usize>)> {
    match parse_with_dialect(sql, dialect) {
        Ok(ParsedStatement::CreateIndex(index)) => {
            index.include_columns.iter().map(|column| (column.name.as_str().to_owned(), column.position)).collect()
        }
        other => panic!("{sql}: {other:?}"),
    }
}

#[test]
fn indexes_carry_columns_in_every_dialect() {
    let column = |name: &str, position: usize| (name.to_owned(), Some(position));
    assert_eq!(
        included("CREATE INDEX i ON t (a) INCLUDE (Bb, \"Cc\")", SqlDialect::PostgreSql),
        vec![column("bb", 34), column("Cc", 38)]
    );
    assert_eq!(
        included("CREATE INDEX i ON t (a) INCLUDE ([Order Date], [B], c)", SqlDialect::SqlServer),
        vec![column("Order Date", 34), column("B", 48), column("c", 53)]
    );
    for dialect in [SqlDialect::MySql, SqlDialect::Sqlite] {
        assert_eq!(included("CREATE INDEX i ON t (a) INCLUDE (`Bb`, C)", dialect), vec![column("Bb", 34), column("c", 40)]);
        assert_eq!(included("CREATE INDEX i ON t (a)", dialect), Vec::new());
    }
    assert_eq!(included("CREATE INDEX i ON t (a) # it's\n INCLUDE (b)", SqlDialect::MySql), vec![column("b", 42)]);
    assert_eq!(included("CREATE INDEX i ON include (a)", SqlDialect::PostgreSql), Vec::new());
    assert_eq!(included("CREATE INDEX i ON include (a) INCLUDE (b)", SqlDialect::PostgreSql), vec![column("b", 40)]);
}

#[test]
fn reads_predicates() {
    assert!(matches!(
        filter("SELECT id FROM t WHERE a >= 1 AND b <> 2 OR c").kind,
        ParsedExprKind::Binary { op: BinaryOperator::Or, .. }
    ));
    assert_eq!(state("SELECT id FROM t WHERE a BETWEEN 1 AND 2"), "0A000");
    assert!(matches!(
        filter("SELECT id FROM t WHERE a NOT IN (1, 2)").kind,
        ParsedExprKind::InList { negated: true, list, .. } if list.len() == 2
    ));
    assert!(matches!(
        filter("SELECT id FROM t WHERE NOT a").kind,
        ParsedExprKind::Unary { op: UnaryOperator::Not, .. }
    ));
    assert!(matches!(
        filter("SELECT id FROM t WHERE EXISTS (SELECT 1 FROM u)").kind,
        ParsedExprKind::Exists { negated: false, .. }
    ));
}

#[test]
fn errors_name_places() {
    let error = refusal("SELECT id\nFROM t\nWHERE a ~ 'x'");
    assert_eq!(error.sql_state, "0A000");
    assert_eq!(error.position, Some(24));
    let error = refusal("SELEC 1");
    assert_eq!(error.sql_state, "42601");
}

#[test]
fn exactly_one_statement_is_read() {
    let error = refusal("SELECT 1; SELECT 2");
    assert_eq!(error.sql_state, "0A000");
    assert_eq!(error.message, "exactly one SQL statement must be executed at a time");
    assert_eq!(state(""), "0A000");
    assert_eq!(statement("SELECT 1;"), statement("SELECT 1"));
}

#[test]
fn dialects_read_the_same_statement() {
    let plain = parse("SELECT id FROM documents LIMIT 2").expect("default dialect");
    for dialect in [SqlDialect::MySql, SqlDialect::Sqlite] {
        assert_eq!(parse_with_dialect("SELECT id FROM documents LIMIT 2", dialect), Ok(parse("SELECT id FROM documents LIMIT 2").expect("plain")));
    }
    let ParsedStatement::Select { limit: Some(limit), .. } = plain else {
        panic!("select expected");
    };
    let top = parse_with_dialect("SELECT TOP 2 id FROM documents", SqlDialect::SqlServer).expect("top");
    let ParsedStatement::Select { limit: Some(top), .. } = top else {
        panic!("select expected");
    };
    assert_eq!(top.kind, ParsedExprKind::Literal(Value::Int64(2)));
    assert_eq!(limit.kind, ParsedExprKind::Literal(Value::Int32(2)));
    assert_eq!(parse("SELECT 1"), parse_with_dialect("SELECT 1", SqlDialect::PostgreSql));
}

#[test]
fn question_marks_are_numbered() {
    for dialect in [SqlDialect::MySql, SqlDialect::Sqlite] {
        let ParsedStatement::ScalarSelect { projection } = parse_with_dialect("SELECT ?, 'a?', ?", dialect).expect("parameters") else {
            panic!("scalar select expected");
        };
        let indexes: Vec<Option<usize>> = projection
            .iter()
            .map(|item| match item {
                ParsedProjection::Expression { expr, .. } => match expr.kind {
                    ParsedExprKind::Parameter(index) => Some(index),
                    _ => None,
                },
                ParsedProjection::Wildcard => None,
            })
            .collect();
        assert_eq!(indexes, vec![Some(1), None, Some(2)]);
    }
    let ParsedStatement::ScalarSelect { projection } = parse_with_dialect("SELECT @p3", SqlDialect::SqlServer).expect("named parameter") else {
        panic!("scalar select expected");
    };
    assert!(matches!(&projection[0], ParsedProjection::Expression { expr, .. } if expr.kind == ParsedExprKind::Parameter(3)));
}

#[test]
fn quoting_follows_the_dialect() {
    let ParsedStatement::Select { table, .. } = parse_with_dialect("SELECT `Id` FROM `Docs`", SqlDialect::MySql).expect("backquotes") else {
        panic!("select expected");
    };
    assert_eq!(name(&table), vec!["Docs"]);
    let ParsedStatement::Select { table, .. } = parse_with_dialect("SELECT [Id] FROM [Docs]", SqlDialect::SqlServer).expect("brackets") else {
        panic!("select expected");
    };
    assert_eq!(name(&table), vec!["Docs"]);
    let ParsedStatement::Select { table, .. } = statement("SELECT id FROM Public.\"Docs\"") else {
        panic!("select expected");
    };
    assert_eq!(name(&table), vec!["public", "Docs"]);
}

#[test]
fn reads_transactions() {
    assert!(matches!(
        statement("BEGIN"),
        ParsedStatement::Begin { characteristics } if characteristics.isolation_level == IsolationLevel::ReadCommitted
            && characteristics.access_mode == TransactionAccessMode::ReadWrite && !characteristics.deferrable
    ));
    assert!(matches!(
        statement("BEGIN ISOLATION LEVEL SERIALIZABLE READ ONLY DEFERRABLE"),
        ParsedStatement::Begin { characteristics } if characteristics.isolation_level == IsolationLevel::Serializable
            && characteristics.access_mode == TransactionAccessMode::ReadOnly && characteristics.deferrable
    ));
    assert!(matches!(
        statement("START TRANSACTION ISOLATION LEVEL REPEATABLE READ"),
        ParsedStatement::Begin { characteristics } if characteristics.isolation_level == IsolationLevel::RepeatableRead
    ));
    assert!(matches!(statement("COMMIT AND CHAIN"), ParsedStatement::Commit { chain: TransactionChain::Chain }));
    assert!(matches!(statement("ROLLBACK"), ParsedStatement::Rollback { .. }));
    assert!(matches!(statement("SAVEPOINT s1"), ParsedStatement::Savepoint { name } if name.name.as_str() == "s1"));
    assert!(matches!(statement("ROLLBACK TO SAVEPOINT s1"), ParsedStatement::RollbackTo { name } if name.name.as_str() == "s1"));
    assert!(matches!(statement("RELEASE SAVEPOINT S1"), ParsedStatement::ReleaseSavepoint { name } if name.name.as_str() == "s1"));
}

#[test]
fn reads_session_and_maintenance_statements() {
    assert!(matches!(statement("VACUUM"), ParsedStatement::Vacuum { table: None, analyze: false }));
    assert!(matches!(statement("VACUUM documents"), ParsedStatement::Vacuum { table: Some(t), analyze: false } if name(&t) == vec!["documents"]));
    assert!(matches!(
        statement("VACUUM ANALYZE public.documents"),
        ParsedStatement::Vacuum { table: Some(t), analyze: true } if name(&t) == vec!["public", "documents"]
    ));
    assert!(matches!(statement("ANALYZE documents"), ParsedStatement::Analyze { table: Some(_) }));
    assert!(matches!(statement("LISTEN jobs"), ParsedStatement::Listen { channel } if channel.name.as_str() == "jobs"));
    assert!(matches!(statement("UNLISTEN *"), ParsedStatement::Unlisten { channel: None }));
    assert!(matches!(
        statement("NOTIFY jobs, 'done'"),
        ParsedStatement::Notify { channel, payload } if channel.name.as_str() == "jobs" && payload == "done"
    ));
    assert!(matches!(statement("NOTIFY jobs"), ParsedStatement::Notify { payload, .. } if payload.is_empty()));
    assert!(matches!(statement("DISCARD ALL"), ParsedStatement::DiscardAll));
    assert!(matches!(statement("DEALLOCATE ALL"), ParsedStatement::DeallocateAll));
    assert!(matches!(statement("DO $$ BEGIN NULL; END $$"), ParsedStatement::Do { body } if body.trim() == "BEGIN NULL; END"));
    assert!(matches!(statement("REINDEX TABLE documents"), ParsedStatement::Reindex { .. }));
    assert_eq!(state("FLUSH RELAY LOGS FOR CHANNEL"), "42601");
    let refused = |sql: &str| parse_with_dialect(sql, SqlDialect::MySql).expect_err("flush").sql_state;
    assert_eq!(refused("FLUSH RELAY LOGS FOR CHANNEL"), "0A000");
    assert_eq!(refused("FLUSH LOCAL RELAY LOGS FOR CHANNEL c"), "0A000");
    assert_eq!(refused("FLUSH LOCAL RELAY LOGS FOR CHANNEL"), "0A000");
    assert_eq!(refused("flush relay logs for channel c."), "0A000");
    assert_eq!(refused("EXPLAIN FLUSH RELAY LOGS FOR CHANNEL"), "0A000");
    assert_eq!(refused("SELECT relay logs for channel"), "42601");
    assert_eq!(refused("SELECT 1 FLUSH RELAY LOGS FOR CHANNEL x"), "42601");
    assert_eq!(refused("SELECT 1 FLUSH RELAY LOGS FOR CHANNEL"), "42601");
    let error = parse_with_dialect("SELECT 1; FLUSH RELAY LOGS FOR CHANNEL x", SqlDialect::MySql).expect_err("two statements");
    assert_eq!(error.message, "exactly one SQL statement must be executed at a time");
}

#[test]
fn reads_schema_definitions() {
    assert!(matches!(
        statement("CREATE SCHEMA IF NOT EXISTS App"),
        ParsedStatement::CreateSchema { name, if_not_exists: true } if name.name.as_str() == "app"
    ));
    assert!(matches!(
        statement("DROP TABLE IF EXISTS a, b CASCADE"),
        ParsedStatement::DropObjects { kind: DdlObjectKind::Table, names, if_exists: true, behavior: DropBehavior::Cascade } if names.len() == 2
    ));
    assert!(matches!(
        statement("DROP MATERIALIZED VIEW mv"),
        ParsedStatement::DropObjects { kind: DdlObjectKind::MaterializedView, if_exists: false, behavior: DropBehavior::Restrict, .. }
    ));
    assert!(matches!(
        statement("ALTER TYPE mood ADD VALUE 'calm' AFTER 'ok'"),
        ParsedStatement::AlterEnumAddValue { label, position: Some(EnumValuePosition::After(other)), if_not_exists: false, .. }
            if label == "calm" && other == "ok"
    ));
    assert!(matches!(
        statement("ALTER DOMAIN d DROP CONSTRAINT IF EXISTS c"),
        ParsedStatement::AlterDomain { operation: ParsedAlterDomainOperation::DropConstraint { if_exists: true, .. }, .. }
    ));
    assert!(create_domain_is_not_null("CREATE DOMAIN d AS INT NOT NULL"));
    assert!(!create_domain_is_not_null("CREATE DOMAIN d AS INT"));
    assert!(matches!(statement("CREATE DOMAIN d AS INT NOT NULL"), ParsedStatement::CreateDomain { not_null: true, .. }));
}

#[test]
fn reads_tables_and_columns() {
    let ParsedStatement::CreateTable { columns, constraints, if_not_exists: true, .. } = statement(
        "CREATE TABLE IF NOT EXISTS t (id BIGINT PRIMARY KEY, price NUMERIC(10, 2) NOT NULL, code VARCHAR(8) UNIQUE, tags TEXT[], v VECTOR(3), at TIMESTAMPTZ)",
    ) else {
        panic!("table expected");
    };
    let types: Vec<ScalarType> = columns.iter().map(|column| column.data_type.clone()).collect();
    assert_eq!(
        types,
        vec![
            ScalarType::Int64,
            ScalarType::Decimal { precision: Some(10), scale: Some(2) },
            ScalarType::Varchar { length: Some(8) },
            ScalarType::Array { element: Box::new(ScalarType::Text) },
            ScalarType::Vector { dimensions: Some(3) },
            ScalarType::Timestamp { with_timezone: true },
        ]
    );
    assert!(columns[0].primary_key && !columns[0].nullable);
    assert!(!columns[1].nullable && columns[2].unique && columns[2].nullable);
    assert!(constraints.is_empty());
    let ParsedStatement::CreateTable { columns, constraints, .. } = statement("CREATE TABLE t (a INT DEFAULT 1+2, CHECK (a>0))") else {
        panic!("table expected");
    };
    assert_eq!(columns[0].default.as_ref().map(|default| default.sql.as_str()), Some("1 + 2"));
    assert!(matches!(&constraints[0], ParsedTableConstraint::Check { sql, .. } if sql == "a > 0"));
    let ParsedStatement::AlterTable { operations, .. } = statement(
        "ALTER TABLE t ADD COLUMN IF NOT EXISTS a INT DEFAULT 1, DROP COLUMN b CASCADE, ALTER COLUMN c SET NOT NULL, ALTER COLUMN d TYPE TEXT, RENAME TO u",
    ) else {
        panic!("alteration expected");
    };
    assert_eq!(operations.len(), 5);
    assert!(matches!(&operations[0], ParsedAlterTableOperation::AddColumn { if_not_exists: true, column } if column.default.is_some()));
    assert!(matches!(&operations[1], ParsedAlterTableOperation::DropColumns { behavior: DropBehavior::Cascade, .. }));
    assert!(matches!(&operations[2], ParsedAlterTableOperation::SetNotNull { .. }));
    assert!(matches!(&operations[3], ParsedAlterTableOperation::SetDataType { data_type: ScalarType::Text, .. }));
    assert!(matches!(&operations[4], ParsedAlterTableOperation::RenameTable { .. }));
}

#[test]
fn reads_indexes_and_sequences() {
    let ParsedStatement::CreateIndex(index) = statement("CREATE UNIQUE INDEX IF NOT EXISTS i ON t (a, b) INCLUDE (c, \"D\")") else {
        panic!("index expected");
    };
    let included: Vec<&str> = index.include_columns.iter().map(|column| column.name.as_str()).collect();
    assert_eq!(included, vec!["c", "D"]);
    assert!(index.unique && index.if_not_exists);
    let ParsedStatement::CreateIndex(index) = statement("CREATE INDEX i ON t (a)") else {
        panic!("index expected");
    };
    assert!(index.include_columns.is_empty());
    assert!(matches!(
        statement("SELECT nextval('public.s') AS n"),
        ParsedStatement::SequenceValue { operation: ParsedSequenceOperation::NextValue, name: n, alias: Some(alias) }
            if name(&n) == vec!["public", "s"] && alias.name.as_str() == "n"
    ));
    assert!(matches!(
        statement("SELECT setval('s', 5, false)"),
        ParsedStatement::SequenceValue { operation: ParsedSequenceOperation::SetValue { is_called: false, .. }, .. }
    ));
    let ParsedStatement::CreateSequence { sequence, owner: None, .. } = statement("CREATE SEQUENCE s INCREMENT BY 2 START WITH 10 CYCLE") else {
        panic!("sequence expected");
    };
    assert_eq!(sequence.increment, 2);
    assert!(sequence.cycle);
    assert!(matches!(statement("ALTER SEQUENCE IF EXISTS s RENAME TO r"), ParsedStatement::AlterSequenceRename { if_exists: true, .. }));
    assert!(matches!(statement("ALTER SEQUENCE s RESTART WITH 5"), ParsedStatement::AlterSequence { options, .. } if options.restart == Some(5)));
}

#[test]
fn reads_views_and_routines() {
    let ParsedStatement::CreateView { kind: ViewKind::Regular, replace: true, columns, query_sql, .. } =
        statement("CREATE OR REPLACE VIEW v (a) AS SELECT id FROM t")
    else {
        panic!("view expected");
    };
    assert_eq!(columns.len(), 1);
    assert_eq!(query_sql, "SELECT id FROM t");
    assert!(matches!(
        statement("CREATE VIEW v AS SELECT   id\nFROM   t"),
        ParsedStatement::CreateView { query_sql, .. } if query_sql == "SELECT id FROM t"
    ));
    assert!(matches!(
        statement("CREATE MATERIALIZED VIEW mv AS SELECT id FROM t WITH NO DATA"),
        ParsedStatement::CreateView { kind: ViewKind::Materialized, with_data: false, .. }
    ));
    assert!(matches!(statement("REFRESH MATERIALIZED VIEW mv"), ParsedStatement::RefreshMaterializedView { with_data: true, .. }));
    assert!(matches!(
        statement("REFRESH MATERIALIZED VIEW mv WITH NO DATA"),
        ParsedStatement::RefreshMaterializedView { with_data: false, .. }
    ));
    assert!(matches!(statement("ALTER VIEW v RENAME TO w"), ParsedStatement::AlterViewRename { kind: ViewKind::Regular, .. }));
    let ParsedStatement::CreateRoutine { kind: RoutineKind::Function, arguments, return_type, language, body, .. } =
        statement("CREATE FUNCTION f(a INT, OUT b TEXT) RETURNS TEXT LANGUAGE plpgsql AS $$ BEGIN RETURN 'x'; END $$")
    else {
        panic!("function expected");
    };
    assert_eq!(arguments.len(), 2);
    assert_eq!(arguments[1].mode, RoutineArgumentMode::Out);
    assert_eq!(return_type, Some(ScalarType::Text));
    assert_eq!(language, "plpgsql");
    assert_eq!(body.trim(), "BEGIN RETURN 'x'; END");
    assert!(matches!(
        statement("CREATE TRIGGER g AFTER INSERT OR DELETE ON t FOR EACH ROW EXECUTE FUNCTION f()"),
        ParsedStatement::CreateTrigger { timing: TriggerTiming::After, level: TriggerLevel::Row, events, .. }
            if events == vec![TriggerEvent::Insert, TriggerEvent::Delete]
    ));
    assert!(matches!(statement("CALL p(1, 'a')"), ParsedStatement::Call { arguments, .. } if arguments.len() == 2));
    assert!(matches!(
        statement("DROP PROCEDURE IF EXISTS p(INT)"),
        ParsedStatement::DropRoutine { kind: RoutineKind::Procedure, argument_types: Some(types), if_exists: true, .. } if types.len() == 1
    ));
}

#[test]
fn reads_queries() {
    let ParsedStatement::AdvancedSelect { joins, group_by, having, distinct, .. } = statement(
        "SELECT a.x, count(*) FROM t AS a LEFT JOIN u ON a.id = u.id JOIN LATERAL (SELECT id AS n FROM u) AS q ON true GROUP BY a.x HAVING count(*) > 1",
    ) else {
        panic!("query expected");
    };
    assert_eq!(joins.len(), 2);
    assert_eq!(joins[0].kind, JoinKind::Left);
    assert!(matches!(&joins[1].source, ParsedJoinSource::Derived { lateral: true, alias, .. } if alias.name.as_str() == "q"));
    assert!(group_by.len() == 1 && having.is_some() && !distinct);
    assert!(matches!(
        statement("SELECT id FROM t UNION ALL SELECT id FROM u ORDER BY 1 LIMIT 3"),
        ParsedStatement::SetOperation { operator: QuerySetOperator::Union, all: true, order_by, limit: Some(_), .. } if order_by.len() == 1
    ));
    assert!(matches!(
        statement("WITH RECURSIVE c (n) AS (SELECT 1 UNION ALL SELECT n + 1 FROM c) SELECT n FROM c"),
        ParsedStatement::With { recursive: true, ctes, .. } if ctes.len() == 1 && ctes[0].columns.len() == 1
    ));
    assert!(matches!(statement("EXPLAIN SELECT id FROM t"), ParsedStatement::Explain { .. }));
}

#[test]
fn reads_writes() {
    let ParsedStatement::Insert { columns, rows, on_conflict: Some(on_conflict), returning, .. } = statement(
        "INSERT INTO t (a, b) VALUES (1, 2), (3, 4) ON CONFLICT (a) DO UPDATE SET b = excluded.b WHERE t.b > 0 RETURNING *",
    ) else {
        panic!("insert expected");
    };
    assert_eq!((columns.len(), rows.len(), returning.len()), (2, 2, 1));
    assert!(matches!(on_conflict.action, ParsedConflictAction::DoUpdate { filter: Some(_), .. }));
    let ParsedStatement::Merge(merge) = statement(
        "MERGE INTO t USING s ON t.id = s.id WHEN MATCHED AND s.x > 1 THEN UPDATE SET a = s.a WHEN NOT MATCHED THEN INSERT (id) VALUES (s.id) WHEN NOT MATCHED BY SOURCE THEN DO NOTHING",
    ) else {
        panic!("merge expected");
    };
    let kinds: Vec<ParsedMergeClauseKind> = merge.clauses.iter().map(|clause| clause.kind).collect();
    assert_eq!(
        kinds,
        vec![ParsedMergeClauseKind::Matched, ParsedMergeClauseKind::NotMatchedByTarget, ParsedMergeClauseKind::NotMatchedBySource]
    );
    assert!(matches!(merge.clauses[2].action, ParsedMergeAction::DoNothing));
    assert!(matches!(statement("UPDATE t SET a = 1, b = a WHERE id = $1"), ParsedStatement::Update { assignments, filter: Some(_), .. } if assignments.len() == 2));
    assert!(matches!(statement("DELETE FROM t RETURNING id"), ParsedStatement::Delete { filter: None, returning, .. } if returning.len() == 1));
}

#[test]
fn effects_of_statements() {
    for sql in [
        "SELECT 1",
        "SELECT id FROM t WHERE id IN (SELECT id FROM u)",
        "WITH c AS (SELECT 1) SELECT * FROM c",
        "EXPLAIN SELECT 1",
        "SELECT id FROM t UNION SELECT id FROM u",
    ] {
        assert_eq!(classify_statement_effect(&statement(sql)), StatementEffect::ReadOnly, "{sql}");
    }
    for sql in [
        "DELETE FROM t",
        "SELECT nextval('s')",
        "SELECT f()",
        "EXPLAIN DELETE FROM t",
        "WITH c AS (DELETE FROM t RETURNING id) SELECT * FROM c",
        "CREATE SCHEMA s",
        "VACUUM",
    ] {
        if let Ok(statement) = parse(sql) {
            assert_eq!(classify_statement_effect(&statement), StatementEffect::RequiresApproval, "{sql}");
        }
    }
}

#[test]
fn unquoted_names_ignore_case() {
    assert_eq!(Identifier::unquoted("DocS"), Identifier::unquoted("docs"));
    assert_ne!(Identifier::quoted("DocS"), Identifier::unquoted("docs"));
    assert_eq!(Identifier::unquoted(Identifier::unquoted("DocS").as_str()), Identifier::unquoted("DocS"));
}

#[test]
fn dialects_have_names() {
    for (text, dialect) in [
        ("postgres", SqlDialect::PostgreSql),
        (" PostgreSQL ", SqlDialect::PostgreSql),
        ("MySQL", SqlDialect::MySql),
        ("sqlite3", SqlDialect::Sqlite),
        ("SQLite", SqlDialect::Sqlite),
        ("mssql", SqlDialect::SqlServer),
        ("sql-server", SqlDialect::SqlServer),
        (" SQL-Server ", SqlDialect::SqlServer),
        ("sqlserver", SqlDialect::SqlServer),
    ] {
        assert_eq!(text.parse::<SqlDialect>(), Ok(dialect));
        assert_eq!(dialect_from_name(text), Ok(dialect));
    }
    let error = "oracle".parse::<SqlDialect>().expect_err("unknown dialect");
    assert_eq!(error.sql_state, "22023");
    assert_eq!(error.message, "unknown SQL dialect oracle");
    assert_eq!(error.hint.as_deref(), Some("Use postgresql, mysql, sqlite, or sqlserver."));
    assert_eq!(SqlDialect::SqlServer.label(), "SQL Server");
    assert_eq!(SqlDialect::default(), SqlDialect::PostgreSql);
    assert_eq!(TransactionChain::default(), TransactionChain::Default);
    assert_eq!(ParsedAlterSequence::default().restart, None);
}
