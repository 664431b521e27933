//! Texts that are refused, with the code and the message that say why.

use ordadb_sql::parser::{parse, parse_with_dialect};
use ordadb_sql::syntax::SqlDialect;

fn check(dialect: SqlDialect, cases: &[(&str, &str, &str)]) {
    let mut wrong = Vec::new();
    for (sql, state, message) in cases {
        match parse_with_dialect(sql, dialect) {
            Ok(statement) => wrong.push(format!("{sql}: accepted as {statement:?}")),
            Err(error) => {
                if error.sql_state != *state || !error.message.contains(message) {
                    wrong.push(format!("{sql}: {} {}", error.sql_state, error.message));
                }
            }
        }
    }
    assert!(wrong.is_empty(), "{}", wrong.join("\n"));
}

#[test]
fn refuses_transaction_modes() {
    check(
        SqlDialect::PostgreSql,
        &[
            ("BEGIN READ ONLY READ WRITE", "42601", "transaction access mode was specified more than once"),
            (
                "BEGIN ISOLATION LEVEL SERIALIZABLE, ISOLATION LEVEL READ COMMITTED",
                "42601",
                "transaction isolation level was specified more than once",
            ),
            ("BEGIN DEFERRABLE NOT DEFERRABLE", "42601", "transaction deferrability was specified more than once"),
            ("BEGIN , READ ONLY", "42601", "transaction mode is missing before comma"),
            ("BEGIN READ ONLY,", "42601", "transaction mode is missing after comma"),
            ("BEGIN sideways", "42601", "unrecognized transaction mode or trailing token"),
            ("BEGIN ISOLATION LEVEL SNAPSHOT", "0A000", "SNAPSHOT isolation is not supported"),
        ],
    );
}

#[test]
fn refuses_session_statements() {
    check(
        SqlDialect::PostgreSql,
        &[
            ("NOTIFY jobs, 1", "42601", "NOTIFY payload must be a string literal"),
            ("NOTIFY jobs,", "42601", "NOTIFY payload expected"),
            ("LISTEN", "42601", "identifier expected"),
            ("REINDEX", "0A000", "REINDEX requires INDEX, TABLE, SCHEMA, or DATABASE"),
            ("REINDEX SYSTEM main", "0A000", "REINDEX SYSTEM is not supported"),
            ("REINDEX (VERBOSE) TABLE t", "0A000", "REINDEX parameter clauses are not supported"),
            ("REINDEX TABLE CONCURRENTLY t", "0A000", "REINDEX CONCURRENTLY is not supported"),
            ("DO LANGUAGE sql 'x'", "0A000", "only LANGUAGE plpgsql DO blocks are supported"),
            ("DISCARD PLANS", "0A000", "only DISCARD ALL is supported"),
            ("DEALLOCATE p", "0A000", "only DEALLOCATE ALL is supported at the SQL boundary"),
            ("EXPLAIN ANALYZE SELECT 1", "0A000", "EXPLAIN options and EXPLAIN ANALYZE are not supported yet"),
            ("FLUSH RELAY LOGS FOR CHANNEL c", "42601", "Unsupported statement FLUSH"),
        ],
    );
    let long = format!("NOTIFY {}", "c".repeat(64));
    assert_eq!(parse(&long).expect_err("long channel").sql_state, "42622");
    let long = format!("NOTIFY c, '{}'", "p".repeat(8000));
    assert_eq!(parse(&long).expect_err("long payload").message, "NOTIFY payload is too long");
    let short = format!("NOTIFY c, '{}'", "p".repeat(7999));
    assert!(parse(&short).is_ok());
}

#[test]
fn refuses_definitions() {
    check(
        SqlDialect::PostgreSql,
        &[
            ("ALTER SEQUENCE s", "42601", "ALTER SEQUENCE requires an option or RENAME TO"),
            ("ALTER SEQUENCE s CYCLE CYCLE", "42601", "ALTER SEQUENCE option CYCLE is specified more than once"),
            ("ALTER SEQUENCE s RESTART", "0A000", "ALTER SEQUENCE RESTART requires an explicit value"),
            ("ALTER SEQUENCE s NO MINVALUE", "0A000", "NO MINVALUE and NO MAXVALUE are not supported yet"),
            ("ALTER SEQUENCE s OWNED BY t", "42601", "OWNED BY requires table.column or schema.table.column"),
            ("ALTER SEQUENCE s INCREMENT BY 99999999999999999999", "22003", "sequence option is outside BIGINT range"),
            ("ALTER VIEW v AS SELECT 1", "0A000", "only ALTER VIEW ... RENAME TO is supported"),
            ("ALTER DOMAIN d SET DEFAULT", "42601", "ALTER DOMAIN SET DEFAULT requires an expression"),
            ("ALTER DOMAIN d VALIDATE CONSTRAINT c", "0A000", "this ALTER DOMAIN operation is not supported yet"),
            ("ALTER DOMAIN d ADD CHECK VALUE", "42601", "domain CHECK constraint requires parentheses"),
            ("ALTER DOMAIN d ADD CHECK (VALUE > 1", "42601", "unterminated domain CHECK constraint"),
            ("REFRESH MATERIALIZED VIEW CONCURRENTLY mv", "0A000", "REFRESH MATERIALIZED VIEW CONCURRENTLY is not supported"),
            ("CREATE SCHEMA a.b", "0A000", "qualified schema names are not supported"),
            ("CREATE TYPE t AS (a INT)", "0A000", "only CREATE TYPE ... AS ENUM is supported"),
            ("ALTER TYPE t RENAME TO u", "0A000", "ALTER TYPE RENAME TO is not supported yet"),
            ("CREATE TABLE t (a INT DEFAULT 1 DEFAULT 2)", "42601", "has more than one default"),
            ("CREATE TABLE t (a INT GENERATED ALWAYS AS (1) STORED)", "0A000", "this column constraint is not supported"),
            ("ALTER TABLE t ALTER COLUMN a ADD GENERATED ALWAYS AS IDENTITY", "0A000", "generated columns are not supported"),
            ("CREATE TEMPORARY TABLE t (a INT)", "0A000", "this CREATE TABLE form is not supported yet"),
            ("CREATE INDEX ON t (a)", "42601", "CREATE INDEX requires a name"),
            ("CREATE INDEX i ON t (lower(a))", "0A000", "index expressions are not supported yet"),
            ("CREATE INDEX i ON t USING gist (a)", "0A000", "this index method is not supported"),
            ("CREATE TEMPORARY SEQUENCE s", "0A000", "temporary sequences are not supported"),
            ("CREATE SEQUENCE s CACHE 5", "0A000", "sequence CACHE values other than 1 are not supported"),
            ("CREATE DOMAIN d AS TEXT COLLATE \"C\"", "0A000", "CREATE DOMAIN COLLATE is not supported yet"),
            ("ALTER TABLE t ALTER COLUMN a TYPE INT USING a::int", "0A000", "ALTER COLUMN TYPE USING expressions are not supported"),
        ],
    );
}

#[test]
fn refuses_routines_and_triggers() {
    check(
        SqlDialect::PostgreSql,
        &[
            ("CREATE PROCEDURE p LANGUAGE plpgsql AS $$x$$", "42601", "CREATE PROCEDURE requires arguments"),
            ("CREATE PROCEDURE p() LANGUAGE plpgsql", "42601", "CREATE PROCEDURE requires AS body"),
            ("CREATE PROCEDURE p() LANGUAGE plpgsql AS 'x'", "42601", "procedure body must be dollar quoted"),
            ("CREATE PROCEDURE p() LANGUAGE plpgsql AS $$x", "42601", "unterminated dollar-quoted body"),
            ("CREATE PROCEDURE p() LANGUAGE sql AS $$x$$", "0A000", "only LANGUAGE plpgsql SECURITY INVOKER procedures are supported"),
            ("CREATE PROCEDURE p(a INT DEFAULT 1) LANGUAGE plpgsql AS $$x$$", "0A000", "defaulted procedure arguments are not supported yet"),
            ("CREATE FUNCTION f() LANGUAGE plpgsql AS $$x$$", "0A000", "CREATE FUNCTION requires a return type or OUT parameter"),
            ("CREATE FUNCTION f() RETURNS INT LANGUAGE sql AS $$x$$", "0A000", "only LANGUAGE plpgsql routines are supported"),
            ("DROP FUNCTION f, g", "0A000", "dropping multiple routines in one statement is not supported"),
            (
                "CREATE TRIGGER g INSTEAD OF INSERT ON v FOR EACH STATEMENT EXECUTE FUNCTION f()",
                "0A000",
                "INSTEAD OF triggers must use FOR EACH ROW",
            ),
            ("CREATE TRIGGER g AFTER TRUNCATE ON t EXECUTE FUNCTION f()", "0A000", "this trigger event is not supported"),
        ],
    );
}

#[test]
fn refuses_queries() {
    check(
        SqlDialect::PostgreSql,
        &[
            ("SELECT DISTINCT ON (a) a FROM t", "0A000", "DISTINCT ON is not supported yet"),
            ("SELECT t.* FROM t", "0A000", "qualified wildcards and multiple aliases are not supported yet"),
            ("SELECT *", "0A000", "wildcards"),
            ("SELECT a FROM t, u", "0A000", "SELECT supports exactly one table"),
            ("SELECT a FROM t JOIN u USING (a)", "0A000", "joins require an ON predicate"),
            ("SELECT a FROM t NATURAL JOIN u", "0A000", "joins require an ON predicate"),
            ("SELECT a FROM t RIGHT JOIN u ON true", "0A000", "only INNER and LEFT joins are supported"),
            ("SELECT a FROM t GROUP BY ALL", "0A000", "GROUP BY ALL is not supported yet"),
            ("SELECT a FROM t GROUP BY ROLLUP (a)", "0A000", "not supported yet"),
            ("VALUES (1)", "0A000", "standalone VALUES queries are not supported yet"),
            ("SELECT a FROM t FETCH FIRST 1 ROW WITH TIES", "0A000", "FETCH PERCENT and FETCH WITH TIES are not supported"),
            ("SELECT CASE WHEN a THEN 1 END FROM t", "0A000", "this SQL expression is not supported yet"),
            ("SELECT (1, 2)", "0A000", "row values are supported only in comparisons and IN predicates"),
            ("SELECT a || b FROM t", "0A000", "this binary operator is not supported yet"),
            ("SELECT a FROM t WHERE a = ANY (ARRAY[1])", "0A000", "ANY over arrays or non-subquery expressions is not supported yet"),
            ("SELECT missing_function(a) FROM t", "0A000", "this SQL function is not supported yet"),
            ("SELECT lower()", "42883", "does not accept 0 arguments"),
            ("SELECT count(DISTINCT *) FROM t", "42601", "DISTINCT aggregate requires an expression"),
            ("SELECT sum(a, b) FROM t", "0A000", "aggregate requires one expression, or COUNT(*)"),
            ("SELECT rank() OVER (GROUPS UNBOUNDED PRECEDING) FROM t", "0A000", "GROUPS window frames are not supported"),
            ("SELECT CAST(1 AS time with time zone)", "0A000", "TIME WITH TIME ZONE is not supported"),
            ("SELECT INTERVAL '1' DAY", "0A000", "INTERVAL field and precision qualifiers are not supported yet"),
            ("SELECT 99999999999999999999999999999999", "22003", "out of range"),
        ],
    );
}

#[test]
fn refuses_writes() {
    check(
        SqlDialect::PostgreSql,
        &[
            ("INSERT INTO t SELECT 1", "0A000", "INSERT ... SELECT is not supported yet"),
            ("INSERT INTO t DEFAULT VALUES", "42601", "INSERT requires VALUES"),
            ("UPDATE t SET (a, b) = (1, 2)", "0A000", "tuple assignments are not supported yet"),
            ("UPDATE t SET a = 1 FROM u", "0A000", "this UPDATE form is not supported yet"),
            ("DELETE FROM t USING u", "0A000", "this DELETE form is not supported yet"),
            ("MERGE INTO t USING s ON true WHEN MATCHED THEN INSERT (a) VALUES (1)", "42601", "INSERT is not allowed"),
            ("MERGE INTO t USING s ON true WHEN NOT MATCHED THEN INSERT (a) VALUES (1), (2)", "0A000", "MERGE INSERT requires exactly one standard VALUES row"),
        ],
    );
}

#[test]
fn other_dialects_say_which_feature_is_missing() {
    check(
        SqlDialect::MySql,
        &[
            ("SELECT a FROM t, u", "0A000", "MySQL feature is not supported: SELECT supports exactly one table"),
            ("INSERT INTO t VALUES (1) ON DUPLICATE KEY UPDATE a = 1", "0A000", "MySQL feature is not supported: ON DUPLICATE KEY UPDATE"),
            ("VACUUM ANALYZE t", "42601", ""),
        ],
    );
    check(
        SqlDialect::SqlServer,
        &[("SELECT TOP 1 WITH TIES a FROM t", "0A000", "SQL Server feature is not supported: TOP PERCENT and TOP WITH TIES are not supported")],
    );
    let error = parse_with_dialect("SELECT a FROM t, u", SqlDialect::Sqlite).expect_err("two tables");
    assert_eq!(error.hint.as_deref(), Some("Rewrite the statement using the OrdaDB/PostgreSQL-compatible subset."));
}
