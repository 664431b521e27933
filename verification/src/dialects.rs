//! The names of dialects.

use std::str::FromStr;

use vstd::prelude::*;

use crate::scanning::{trim, trimmed};
use crate::scope::Checked;
use crate::syntax::SqlDialect;
use crate::text::{lower, lowercase, same_text, text2};
use crate::types::{error, DbError, DbErrorView, Result};

verus! {

/// The dialect of a name, in any case and with white space around it.
pub open spec fn dialect_named(value: Seq<char>) -> Checked<SqlDialect> {
    let name = lower(trimmed(value));
    if name == "postgres"@ || name == "postgresql"@ {
        Ok(SqlDialect::PostgreSql)
    } else if name == "mysql"@ {
        Ok(SqlDialect::MySql)
    } else if name == "sqlite"@ || name == "sqlite3"@ {
        Ok(SqlDialect::Sqlite)
    } else if name == "mssql"@ || name == "sqlserver"@ || name == "sql-server"@ {
        Ok(SqlDialect::SqlServer)
    } else {
        Err(
            DbErrorView {
                hint: Some("Use postgresql, mysql, sqlite, or sqlserver."@),
                ..error("22023"@, "unknown SQL dialect "@ + value)
            },
        )
    }
}

/// Finds the dialect of a name.
pub fn dialect_from_name(value: &str) -> (r: Result<SqlDialect>)
    ensures
        (match r {
            Ok(d) => Ok(d),
            Err(e) => Err(e@),
        }) == dialect_named(value@),
{
    let name = lowercase(trim(value).as_str());
    let n = name.as_str();
    if same_text(n, "postgres") || same_text(n, "postgresql") {
        Ok(SqlDialect::PostgreSql)
    } else if same_text(n, "mysql") {
        Ok(SqlDialect::MySql)
    } else if same_text(n, "sqlite") || same_text(n, "sqlite3") {
        Ok(SqlDialect::Sqlite)
    } else if same_text(n, "mssql") || same_text(n, "sqlserver") || same_text(n, "sql-server") {
        Ok(SqlDialect::SqlServer)
    } else {
        Err(
            DbError::new("22023", text2("unknown SQL dialect ", value)).with_hint("Use postgresql, mysql, sqlite, or sqlserver."),
        )
    }
}

impl FromStr for SqlDialect {
    type Err = DbError;

    fn from_str(value: &str) -> (r: Result<SqlDialect>)
        ensures
            (match r {
                Ok(d) => Ok(d),
                Err(e) => Err(e@),
            }) == dialect_named(value@),
    {
        dialect_from_name(value)
    }
}

/// The name of a dialect that people see is a name that it is found by, but for SQL
/// Server, whose name is written with a space.
pub proof fn lemma_label_found(dialect: SqlDialect)
    requires
        dialect != SqlDialect::SqlServer,
    ensures
        dialect_named(dialect.name()) == Ok::<SqlDialect, DbErrorView>(dialect),
{
    reveal_strlit("PostgreSQL");
    reveal_strlit("MySQL");
    reveal_strlit("SQLite");
    reveal_strlit("postgres");
    reveal_strlit("postgresql");
    reveal_strlit("mysql");
    reveal_strlit("sqlite");
    reveal_strlit("sqlite3");
    match dialect {
        SqlDialect::PostgreSql => {
            assert(lower(trimmed("PostgreSQL"@)) =~= "postgresql"@);
        },
        SqlDialect::MySql => {
            assert(lower(trimmed("MySQL"@)) =~= "mysql"@);
        },
        SqlDialect::Sqlite => {
            assert(lower(trimmed("SQLite"@)) =~= "sqlite"@);
        },
        SqlDialect::SqlServer => {},
    }
}

} // verus!
