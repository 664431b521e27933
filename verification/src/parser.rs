//! Parses SQL text.

use sqlparser::ast::Statement;
use sqlparser::tokenizer::{Token, TokenWithSpan};
use vstd::prelude::*;

use crate::convert::statement_view;
use crate::convert_statement::{convert_statement, converted_statement};
use crate::domain_tokens::{alter_domain_of, parse_alter_domain};
use crate::flush::{flushes, has_missing_channel, misses_channel};
use crate::merge_tokens::{
    create_domain_not_null_tokens, domain_not_null, domain_spelled, merge_spelled, replaced, rewrite_postgres_create_domain_not_null,
    rewrite_postgres_merge_do_nothing,
};
use crate::numbers::{parse_unsigned, unsigned_value};
use crate::outside::{
    all_writable, make_placeholder, parse_tokens, placeholder_token, statements_of, text_of_token, token_text, tokenize, tokens_made,
    tokens_of, tokens_writable, Grammar,
};
use crate::rewrite::{make_statement, statement_result};
use crate::scanning::{bare, find_first, find_last, first_place, last_place, strip_statement};
use crate::scope::Checked;
use crate::source::{
    location_position, position_at, read_source, significant_of, significant_tokens, source_of, token_is_keyword, word_at, Source,
    SourceView,
};
use crate::syntax::{ParsedStatement, ParsedStatementView, SqlDialect};
use crate::text::{characters, decimal, index_text, same_text, substring, text, text2, text3};
use crate::text_statements::{
    materialized_view_parser_sql, parse_create_procedure, parse_refresh_materialized_view, procedure_of, refresh_of, view_text,
};
use crate::token_statements::{
    alter_sequence_of, alter_view_of, parse_alter_sequence, parse_alter_view, parse_postgres_session_or_maintenance, session_statement,
};
use crate::transaction_tokens::{begin_of, drop_semicolon, parse_transaction_begin, without_semicolon};
use crate::types::{
    error, internal_error, unsupported, unsupported_error, DbError, DbErrorView, FEATURE_NOT_SUPPORTED, Result, SYNTAX_ERROR,
};
use crate::written::all_written;

verus! {

/// Why a text has no syntax tree: the parser says so, or the parser is not asked.
pub enum Refusal {
    Message(String),
    Unsupported,
}

/// Mathematical contents of a [`Refusal`].
pub enum RefusalView {
    Message(Seq<char>),
    Unsupported,
}

impl Refusal {
    /// The value as mathematical data.
    pub open spec fn view(&self) -> RefusalView {
        match *self {
            Refusal::Message(m) => RefusalView::Message(m@),
            Refusal::Unsupported => RefusalView::Unsupported,
        }
    }
}

/// The contents of a result with statements.
pub open spec fn statements_view(r: std::result::Result<Vec<Statement>, Refusal>) -> std::result::Result<Seq<Statement>, RefusalView> {
    match r {
        Ok(l) => Ok(l@),
        Err(e) => Err(e@),
    }
}

/// The statements that tokens make up in a grammar.
pub open spec fn tree_of(grammar: Grammar, tokens: Seq<TokenWithSpan>) -> std::result::Result<Seq<Statement>, RefusalView> {
    if flushes(grammar) && misses_channel(tokens) {
        Err(RefusalView::Unsupported)
    } else {
        match statements_of(grammar, tokens) {
            Ok(l) => Ok(l),
            Err(m) => Err(RefusalView::Message(m)),
        }
    }
}

fn parse_tree(grammar: Grammar, tokens: Vec<TokenWithSpan>) -> (r: std::result::Result<Vec<Statement>, Refusal>)
    requires
        tokens_writable(tokens@),
        tokens_made(tokens@),
    ensures
        statements_view(r) == tree_of(grammar, tokens@),
        r matches Ok(l) ==> all_written(l@),
{
    if (grammar == Grammar::MySql || grammar == Grammar::Generic) && has_missing_channel(&tokens) {
        return Err(Refusal::Unsupported);
    }
    match parse_tokens(grammar, tokens) {
        Ok(l) => Ok(l),
        Err(m) => Err(Refusal::Message(m)),
    }
}

/// The grammar of a dialect.
pub open spec fn grammar_of(dialect: SqlDialect) -> Grammar {
    match dialect {
        SqlDialect::PostgreSql => Grammar::PostgreSql,
        SqlDialect::MySql => Grammar::MySql,
        SqlDialect::Sqlite => Grammar::Sqlite,
        SqlDialect::SqlServer => Grammar::SqlServer,
    }
}

fn find_grammar(dialect: SqlDialect) -> (r: Grammar)
    ensures
        r == grammar_of(dialect),
{
    match dialect {
        SqlDialect::PostgreSql => Grammar::PostgreSql,
        SqlDialect::MySql => Grammar::MySql,
        SqlDialect::Sqlite => Grammar::Sqlite,
        SqlDialect::SqlServer => Grammar::SqlServer,
    }
}

/// Whether a dialect writes parameters as question marks.
pub open spec fn asks(dialect: SqlDialect) -> bool {
    dialect == SqlDialect::MySql || dialect == SqlDialect::Sqlite
}

/// Whether a token is a question mark that stands for a parameter.
pub open spec fn question(t: Token) -> bool {
    match t {
        Token::Placeholder(s) => s@ == "?"@,
        _ => false,
    }
}

/// Tokens in which parameters that are question marks have become numbered ones, from a
/// token on.
pub open spec fn numbered(l: Seq<TokenWithSpan>, i: int, n: usize) -> Seq<TokenWithSpan>
    decreases l.len() - i,
{
    if i < 0 || i >= l.len() {
        l
    } else if question(l[i].token) {
        numbered(
            replaced(l, i, placeholder_token("$"@ + decimal(n as nat))),
            i + 1,
            if n < usize::MAX {
                (n + 1) as usize
            } else {
                n
            },
        )
    } else {
        numbered(l, i + 1, n)
    }
}

fn is_question(t: &Token) -> (r: bool)
    ensures
        r == question(*t),
{
    match t {
        Token::Placeholder(s) => same_text(s.as_str(), "?"),
        _ => false,
    }
}

/// Numbers the parameters that are question marks.
pub fn number_parameters(tokens: Vec<TokenWithSpan>) -> (r: Vec<TokenWithSpan>)
    requires
        tokens_writable(tokens@),
        tokens_made(tokens@),
    ensures
        r@ == numbered(tokens@, 0, 1),
        tokens_writable(r@),
        tokens_made(r@),
{
    let mut out: Vec<TokenWithSpan> = tokens;
    let mut n: usize = 1;
    let len: usize = out.len();
    for i in 0..len
        invariant
            out@.len() == len,
            tokens_writable(out@),
            tokens_made(out@),
            numbered(tokens@, 0, 1) == numbered(out@, i as int, n),
    {
        if is_question(&out[i].token) {
            let span = out[i].span;
            out.set(i, TokenWithSpan { token: make_placeholder(text2("$", index_text(n).as_str()).as_str()), span });
            if n < usize::MAX {
                n = n + 1;
            }
        }
    }
    out
}

/// The statements that a text in a dialect makes up.
#[verifier::opaque]
pub open spec fn sources_of(sql: Seq<char>, dialect: SqlDialect) -> std::result::Result<Seq<Statement>, RefusalView> {
    match tokens_of(grammar_of(dialect), sql) {
        Err(m) => Err(RefusalView::Message(m)),
        Ok(l) => if dialect == SqlDialect::PostgreSql {
            match merge_spelled(l) {
                Some(t) => tree_of(Grammar::Generic, t),
                None => match domain_spelled(l) {
                    Some(t) => tree_of(Grammar::PostgreSql, t),
                    None => match tokens_of(Grammar::PostgreSql, view_text(sql)) {
                        Err(m) => Err(RefusalView::Message(m)),
                        Ok(t) => tree_of(Grammar::PostgreSql, t),
                    },
                },
            }
        } else if asks(dialect) {
            tree_of(grammar_of(dialect), numbered(l, 0, 1))
        } else {
            tree_of(grammar_of(dialect), l)
        },
    }
}

/// Parses a text in a dialect into a syntax tree.
pub fn parse_source_statements(sql: &str, dialect: SqlDialect) -> (r: std::result::Result<Vec<Statement>, Refusal>)
    ensures
        statements_view(r) == sources_of(sql@, dialect),
        r matches Ok(l) ==> all_written(l@),
{
    reveal(sources_of);
    let grammar = find_grammar(dialect);
    let tokens = match tokenize(grammar, sql) {
        Ok(l) => l,
        Err(m) => {
            return Err(Refusal::Message(m));
        },
    };
    if dialect == SqlDialect::PostgreSql {
        let (tokens, changed) = rewrite_postgres_merge_do_nothing(tokens);
        if changed {
            return parse_tree(Grammar::Generic, tokens);
        }
        let (tokens, changed) = rewrite_postgres_create_domain_not_null(tokens);
        if changed {
            return parse_tree(Grammar::PostgreSql, tokens);
        }
        let sql = materialized_view_parser_sql(sql);
        match tokenize(Grammar::PostgreSql, sql.as_str()) {
            Ok(l) => parse_tree(Grammar::PostgreSql, l),
            Err(m) => Err(Refusal::Message(m)),
        }
    } else if dialect == SqlDialect::MySql || dialect == SqlDialect::Sqlite {
        parse_tree(grammar, number_parameters(tokens))
    } else {
        parse_tree(grammar, tokens)
    }
}

/// A number that fits a word.
pub open spec fn word_number(s: Seq<char>) -> Option<u64> {
    match unsigned_value(s) {
        Some(n) => if n <= u64::MAX {
            Some(n as u64)
        } else {
            None
        },
        None => None,
    }
}

/// The position that a message of the parser names at its end.
#[verifier::opaque]
pub open spec fn message_position(sql: Seq<char>, message: Seq<char>) -> Option<usize> {
    match last_place(message, " at Line: "@, message.len() as int) {
        None => None,
        Some(k) => {
            let rest = message.skip(k + " at Line: "@.len());
            match first_place(rest, ", Column: "@, 0) {
                None => None,
                Some(j) => match (word_number(rest.take(j)), word_number(rest.skip(j + ", Column: "@.len()))) {
                    (Some(line), Some(column)) => position_at(sql, line, column),
                    _ => None,
                },
            }
        },
    }
}

/// Finds the position that a message of the parser names at its end.
pub fn parser_error_position(sql: &str, message: &str) -> (r: Option<usize>)
    ensures
        r == message_position(sql@, message@),
{
    reveal(message_position);
    let chars = characters(message);
    assert(chars@.skip(0) =~= chars@);
    let marker: usize = characters(" at Line: ").len();
    let middle: usize = characters(", Column: ").len();
    match find_last(&chars, " at Line: ", 0) {
        None => None,
        Some(k) => {
            let rest = characters(substring(&chars, k + marker, chars.len()).as_str());
            assert(chars@.subrange(k + marker, chars@.len() as int) =~= chars@.skip(k + marker));
            match find_first(&rest, ", Column: ") {
                None => None,
                Some(j) => {
                    let line = parse_unsigned(substring(&rest, 0, j).as_str());
                    assert(rest@.subrange(0, j as int) =~= rest@.take(j as int));
                    let column = parse_unsigned(substring(&rest, j + middle, rest.len()).as_str());
                    assert(rest@.subrange(j + middle, rest@.len() as int) =~= rest@.skip(j + middle));
                    match (line, column) {
                        (Some(line), Some(column)) => location_position(sql, line, column),
                        _ => None,
                    }
                },
            }
        },
    }
}

/// An error as a dialect reports it: a missing feature is one of the dialect.
pub open spec fn reported(e: DbErrorView, dialect: SqlDialect) -> DbErrorView {
    if dialect != SqlDialect::PostgreSql && e.sql_state == FEATURE_NOT_SUPPORTED@ {
        DbErrorView {
            message: dialect.name() + " feature is not supported: "@ + e.message,
            hint: match e.hint {
                Some(h) => Some(h),
                None => Some("Rewrite the statement using the OrdaDB/PostgreSQL-compatible subset."@),
            },
            ..e
        }
    } else {
        e
    }
}

/// Reports an error of a dialect.
pub fn dialect_error(e: DbError, dialect: SqlDialect) -> (r: DbError)
    ensures
        r@ == reported(e@, dialect),
{
    if dialect != SqlDialect::PostgreSql && same_text(e.sql_state.as_str(), FEATURE_NOT_SUPPORTED) {
        DbError {
            sql_state: e.sql_state,
            message: text3(dialect.label(), " feature is not supported: ", e.message.as_str()),
            detail: e.detail,
            hint: match e.hint {
                Some(h) => Some(h),
                None => Some(text("Rewrite the statement using the OrdaDB/PostgreSQL-compatible subset.")),
            },
            position: e.position,
        }
    } else {
        e
    }
}

/// The one statement that a syntax tree has to hold.
#[verifier::opaque]
pub open spec fn only_statement(l: Seq<Statement>, source: SourceView) -> Checked<ParsedStatementView> {
    if l.len() != 1 {
        Err(error(FEATURE_NOT_SUPPORTED@, "exactly one SQL statement must be executed at a time"@))
    } else {
        converted_statement(l[0], source)
    }
}

pub(crate) fn convert_only_statement(l: &Vec<Statement>, source: &Source) -> (r: Result<ParsedStatement>)
    requires
        all_written(l@),
    ensures
        statement_result(r) == only_statement(l@, source@),
{
    reveal(only_statement);
    if l.len() != 1 {
        return Err(DbError::new(FEATURE_NOT_SUPPORTED, text("exactly one SQL statement must be executed at a time")));
    }
    convert_statement(&l[0], source)
}

/// The error that no syntax tree comes out of.
pub open spec fn refused(r: RefusalView) -> DbErrorView {
    match r {
        RefusalView::Message(m) => error(SYNTAX_ERROR@, m),
        RefusalView::Unsupported => unsupported_error("SQL statement is not supported in this milestone"@, None),
    }
}

/// Reports that no syntax tree comes out.
pub fn refusal_error(r: Refusal) -> (e: DbError)
    ensures
        e@ == refused(r@),
{
    match r {
        Refusal::Message(m) => DbError::new(SYNTAX_ERROR, m),
        Refusal::Unsupported => unsupported("SQL statement is not supported in this milestone"),
    }
}

/// The text of a VACUUM ANALYZE without its second word, from a token on.
pub open spec fn vacuum_text(l: Seq<Token>, i: int, done: Seq<char>) -> Seq<char>
    decreases l.len() - i,
{
    if i < 0 || i >= l.len() {
        done
    } else {
        vacuum_text(l, i + 1, done + " "@ + token_text(l[i]))
    }
}

/// The VACUUM that the statements of a VACUUM ANALYZE hold, with the analysis.
#[verifier::opaque]
pub open spec fn analyzed(s: Checked<ParsedStatementView>) -> Checked<ParsedStatementView> {
    match s {
        Err(x) => Err(x),
        Ok(ParsedStatementView::Vacuum { table, .. }) => Ok(ParsedStatementView::Vacuum { table, analyze: true }),
        Ok(_) => Err(internal_error("VACUUM ANALYZE normalization produced a non-VACUUM statement"@)),
    }
}

/// A VACUUM ANALYZE, where a text is one.
#[verifier::opaque]
pub open spec fn vacuum_of(sql: Seq<char>) -> Checked<Option<ParsedStatementView>> {
    let l = significant_of(sql);
    if word_at(l, 0, "VACUUM"@) && word_at(l, 1, "ANALYZE"@) {
        let plain = vacuum_text(l, 2, "VACUUM"@);
        match sources_of(plain, SqlDialect::PostgreSql) {
            Err(r) => Err(refused(r)),
            Ok(statements) => match analyzed(only_statement(statements, source_of(plain, Grammar::PostgreSql))) {
                Err(x) => Err(x),
                Ok(s) => Ok(Some(s)),
            },
        }
    } else {
        Ok(None)
    }
}

fn make_vacuum_text(l: &Vec<Token>) -> (r: String)
    requires
        all_writable(l@),
        l@.len() >= 2,
    ensures
        r@ == vacuum_text(l@, 2, "VACUUM"@),
{
    let mut out = text("VACUUM");
    for i in 2..l.len()
        invariant
            all_writable(l@),
            l@.len() >= 2,
            vacuum_text(l@, 2, "VACUUM"@) == vacuum_text(l@, i as int, out@),
    {
        out = text3(out.as_str(), " ", text_of_token(&l[i]).as_str());
    }
    out
}

/// The contents of a result with a statement that may be absent.
pub open spec fn found_result(r: Result<Option<ParsedStatement>>) -> Checked<Option<ParsedStatementView>> {
    match r {
        Ok(s) => Ok(statement_view(s)),
        Err(e) => Err(e@),
    }
}

/// Reads a VACUUM ANALYZE.
pub fn parse_vacuum_analyze(sql: &str) -> (r: Result<Option<ParsedStatement>>)
    ensures
        found_result(r) == vacuum_of(sql@),
{
    reveal(vacuum_of);
    reveal(analyzed);
    let l = significant_tokens(sql);
    if !token_is_keyword(&l, 0, "VACUUM") || !token_is_keyword(&l, 1, "ANALYZE") {
        return Ok(None);
    }
    let plain = make_vacuum_text(&l);
    let statements = match parse_source_statements(plain.as_str(), SqlDialect::PostgreSql) {
        Ok(l) => l,
        Err(r) => {
            return Err(refusal_error(r));
        },
    };
    let s = convert_only_statement(&statements, &read_source(plain.as_str(), Grammar::PostgreSql))?;
    proof {
        s.unfold();
    }
    match s {
        ParsedStatement::Vacuum { table, .. } => Ok(Some(make_statement(ParsedStatement::Vacuum { table, analyze: true }))),
        _ => Err(DbError::internal("VACUUM ANALYZE normalization produced a non-VACUUM statement")),
    }
}

/// The first of two readings that is a statement or an error.
pub open spec fn or_else(
    a: Checked<Option<ParsedStatementView>>,
    b: Checked<Option<ParsedStatementView>>,
) -> Checked<Option<ParsedStatementView>> {
    match a {
        Ok(None) => b,
        _ => a,
    }
}

/// The statement that a text of the default dialect is, where the library reads it
/// itself.
#[verifier::opaque]
pub open spec fn own_statement(sql: Seq<char>) -> Checked<Option<ParsedStatementView>> {
    let plain = bare(sql);
    let l = significant_of(plain);
    or_else(
        session_statement(l),
        or_else(
            vacuum_of(sql),
            or_else(
                begin_of(without_semicolon(significant_of(sql))),
                or_else(
                    procedure_of(plain),
                    or_else(alter_domain_of(l), or_else(alter_view_of(l), or_else(alter_sequence_of(l), refresh_of(plain)))),
                ),
            ),
        ),
    )
}

/// Reads the statements of the default dialect that the library reads itself.
pub fn parse_own_statement(sql: &str) -> (r: Result<Option<ParsedStatement>>)
    ensures
        found_result(r) == own_statement(sql@),
{
    reveal(own_statement);
    let plain = strip_statement(sql);
    let l = significant_tokens(plain.as_str());
    if let Some(s) = parse_postgres_session_or_maintenance(&l)? {
        return Ok(Some(s));
    }
    if let Some(s) = parse_vacuum_analyze(sql)? {
        return Ok(Some(s));
    }
    if let Some(s) = parse_transaction_begin(&drop_semicolon(significant_tokens(sql)))? {
        return Ok(Some(s));
    }
    if let Some(s) = parse_create_procedure(plain.as_str())? {
        return Ok(Some(s));
    }
    if let Some(s) = parse_alter_domain(&l)? {
        return Ok(Some(s));
    }
    if let Some(s) = parse_alter_view(&l)? {
        return Ok(Some(s));
    }
    if let Some(s) = parse_alter_sequence(&l)? {
        return Ok(Some(s));
    }
    parse_refresh_materialized_view(plain.as_str())
}

/// Decides whether a text is a CREATE DOMAIN with NOT NULL.
pub fn create_domain_is_not_null(sql: &str) -> (r: bool)
    ensures
        r == (domain_not_null(significant_of(sql@)) is Some),
{
    create_domain_not_null_tokens(&significant_tokens(sql)).is_some()
}

/// The statement that a text in a dialect holds, where the parser reads it.
#[verifier::opaque]
pub open spec fn foreign_statement(sql: Seq<char>, dialect: SqlDialect) -> Checked<ParsedStatementView> {
    match sources_of(sql, dialect) {
        Err(RefusalView::Message(m)) => Err(DbErrorView { position: message_position(sql, m), ..error(SYNTAX_ERROR@, m) }),
        Err(RefusalView::Unsupported) => Err(reported(refused(RefusalView::Unsupported), dialect)),
        Ok(l) => if l.len() != 1 {
            Err(error(FEATURE_NOT_SUPPORTED@, "exactly one SQL statement must be executed at a time"@))
        } else {
            match converted_statement(l[0], source_of(sql, grammar_of(dialect))) {
                Err(x) => Err(reported(x, dialect)),
                Ok(s) => Ok(s),
            }
        },
    }
}

fn parse_foreign_statement(sql: &str, dialect: SqlDialect) -> (r: Result<ParsedStatement>)
    ensures
        statement_result(r) == foreign_statement(sql@, dialect),
{
    reveal(foreign_statement);
    let l = match parse_source_statements(sql, dialect) {
        Ok(l) => l,
        Err(Refusal::Message(m)) => {
            let position = parser_error_position(sql, m.as_str());
            return Err(DbError::at(SYNTAX_ERROR, m, position));
        },
        Err(Refusal::Unsupported) => {
            return Err(dialect_error(refusal_error(Refusal::Unsupported), dialect));
        },
    };
    if l.len() != 1 {
        return Err(DbError::new(FEATURE_NOT_SUPPORTED, text("exactly one SQL statement must be executed at a time")));
    }
    match convert_statement(&l[0], &read_source(sql, find_grammar(dialect))) {
        Ok(s) => Ok(s),
        Err(e) => Err(dialect_error(e, dialect)),
    }
}

/// The statement that a text in a dialect holds.
#[verifier::opaque]
pub open spec fn parsed_sql(sql: Seq<char>, dialect: SqlDialect) -> Checked<ParsedStatementView> {
    match (if dialect == SqlDialect::PostgreSql {
        own_statement(sql)
    } else {
        Ok(None)
    }) {
        Err(x) => Err(x),
        Ok(Some(s)) => Ok(s),
        Ok(None) => foreign_statement(sql, dialect),
    }
}

/// Parses exactly one statement of the selected dialect and takes it over into the
/// syntax tree of the library.
pub fn parse_with_dialect(sql: &str, dialect: SqlDialect) -> (r: Result<ParsedStatement>)
    ensures
        statement_result(r) == parsed_sql(sql@, dialect),
{
    reveal(parsed_sql);
    if dialect == SqlDialect::PostgreSql {
        if let Some(s) = parse_own_statement(sql)? {
            return Ok(s);
        }
    }
    parse_foreign_statement(sql, dialect)
}

/// Parses exactly one statement of the default dialect.
pub fn parse(sql: &str) -> (r: Result<ParsedStatement>)
    ensures
        statement_result(r) == parsed_sql(sql@, SqlDialect::PostgreSql),
{
    parse_with_dialect(sql, SqlDialect::PostgreSql)
}

/// An error keeps its code, place and detail in every dialect, and an error of the
/// default dialect, or of another kind than a missing feature, stays as it is.
pub proof fn lemma_reported(e: DbErrorView, dialect: SqlDialect)
    ensures
        reported(e, dialect).sql_state == e.sql_state,
        reported(e, dialect).position == e.position,
        reported(e, dialect).detail == e.detail,
        dialect == SqlDialect::PostgreSql ==> reported(e, dialect) == e,
        e.sql_state != FEATURE_NOT_SUPPORTED@ ==> reported(e, dialect) == e,
{
}

/// Numbering parameters keeps the number and the places of tokens and every token that
/// is no question mark.
pub proof fn lemma_numbered(l: Seq<TokenWithSpan>, i: int, n: usize)
    requires
        0 <= i,
    ensures
        numbered(l, i, n).len() == l.len(),
        forall|k: int| 0 <= k < l.len() ==> (#[trigger] numbered(l, i, n)[k]).span == l[k].span,
        forall|k: int| 0 <= k < l.len() && !(i <= k && question(l[k].token)) ==> #[trigger] numbered(l, i, n)[k] == l[k],
    decreases l.len() - i,
{
    if i < l.len() {
        if question(l[i].token) {
            lemma_numbered(
                replaced(l, i, placeholder_token("$"@ + decimal(n as nat))),
                i + 1,
                if n < usize::MAX {
                    (n + 1) as usize
                } else {
                    n
                },
            );
        } else {
            lemma_numbered(l, i + 1, n);
        }
    }
}

/// A text that holds no statement or more than one is refused, unless the library reads
/// it itself.
pub proof fn lemma_one_statement(sql: Seq<char>, dialect: SqlDialect)
    ensures
        (dialect == SqlDialect::PostgreSql ==> own_statement(sql) == Ok::<Option<ParsedStatementView>, DbErrorView>(None)) && (sources_of(
            sql,
            dialect,
        ) matches Ok(l) && l.len() != 1) ==> parsed_sql(sql, dialect) == Err::<ParsedStatementView, DbErrorView>(
            error(FEATURE_NOT_SUPPORTED@, "exactly one SQL statement must be executed at a time"@),
        ),
{
    reveal(parsed_sql);
    reveal(foreign_statement);
}

/// What a syntax tree means does not depend on the dialect that it was written in: two
/// dialects that split and read a text alike give the same statement, or errors of the same code
/// at the same place.
pub proof fn lemma_dialects_agree(sql: Seq<char>, a: SqlDialect, b: SqlDialect)
    requires
        sources_of(sql, a) is Ok,
        sources_of(sql, a) == sources_of(sql, b),
        tokens_of(grammar_of(a), sql) == tokens_of(grammar_of(b), sql),
    ensures
        match (foreign_statement(sql, a), foreign_statement(sql, b)) {
            (Ok(s), Ok(t)) => s == t,
            (Err(x), Err(y)) => x.sql_state == y.sql_state && x.position == y.position && x.detail == y.detail,
            _ => false,
        },
{
    reveal(foreign_statement);
}

} // verus!
