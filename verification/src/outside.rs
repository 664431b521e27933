//! Calls of the SQL parser, and of the crates that read numbers and dates.

use std::ops::ControlFlow;
use std::str::FromStr;

use sqlparser::ast::{visit_expressions_mut, Expr, Query, Spanned, Statement};
use sqlparser::dialect::{Dialect, GenericDialect, MsSqlDialect, MySqlDialect, PostgreSqlDialect, SQLiteDialect};
use sqlparser::parser::{Parser, ParserError};
use sqlparser::tokenizer::{Location, Token, TokenWithSpan, Tokenizer, Whitespace};
use vstd::prelude::*;

use crate::flush::{flushes, misses_channel};
use crate::text::lower;
use crate::written::all_written;

verus! {

/// The contents of a text that may be absent.
pub open spec fn text_view(s: Option<String>) -> Option<Seq<char>> {
    match s {
        Some(s) => Some(s@),
        None => None,
    }
}

/// A grammar of the SQL parser.
#[derive(Clone, Copy, PartialEq, Eq, Structural)]
pub enum Grammar {
    Generic,
    PostgreSql,
    MySql,
    Sqlite,
    SqlServer,
}

/// Whether a token can be written out: the quotes of a word are known ones.
pub open spec fn writable(t: Token) -> bool {
    match t {
        Token::Word(w) => w.quote_style is None || w.quote_style == Some('"') || w.quote_style == Some('[') || w.quote_style == Some('`'),
        _ => true,
    }
}

/// Whether every token can be written out.
pub open spec fn all_writable(l: Seq<Token>) -> bool {
    forall|i: int| 0 <= i < l.len() ==> writable(#[trigger] l[i])
}

/// Whether every token of a text can be written out.
pub open spec fn tokens_writable(l: Seq<TokenWithSpan>) -> bool {
    forall|i: int| 0 <= i < l.len() ==> writable((#[trigger] l[i]).token)
}

/// The text of an unquoted word.
pub open spec fn unquoted(t: Token) -> Option<Seq<char>> {
    match t {
        Token::Word(w) => if w.quote_style is None {
            Some(w.value@)
        } else {
            None
        },
        _ => None,
    }
}

/// Whether a token is a given unquoted word, in any case.
pub open spec fn word_is(t: Token, word: Seq<char>) -> bool {
    match unquoted(t) {
        Some(w) => lower(w) == lower(word),
        None => false,
    }
}

/// The place where an expression starts.
pub uninterp spec fn expr_start(e: Expr) -> Location;

/// `sqlparser::ast::Spanned::span` on an expression: the start of its span. The
/// result depends on the expression alone.
#[verifier::external_body]
pub(crate) fn start_of_expr(e: &Expr) -> (r: Location)
    ensures
        r == expr_start(*e),
{
    e.span().start
}

/// The expressions in an expression, each behind those inside it.
pub uninterp spec fn expressions_of(e: Expr) -> Seq<Expr>;

/// `sqlparser::ast::visit_expressions_mut`: the expressions in an expression, each
/// behind those inside it, so that the whole comes last and its last operand just before
/// it. The result depends on the expression alone. A POSITION has two operands, which are
/// parts of it.
#[verifier::external_body]
pub(crate) fn expressions_in(e: &Expr) -> (r: Vec<Expr>)
    ensures
        r@ == expressions_of(*e),
        *e is Position ==> r@.len() >= 3 && decreases_to!(*e => r@[r@.len() - 2]),
{
    let mut found: Vec<Expr> = Vec::new();
    let mut copy = e.clone();
    let _ = visit_expressions_mut(&mut copy, |x: &mut Expr| {
        found.push(x.clone());
        ControlFlow::<()>::Continue(())
    });
    found
}

/// The last operand of an expression: what is searched by a POSITION.
pub open spec fn last_operand(e: Expr) -> Expr {
    expressions_of(e)[expressions_of(e).len() - 2]
}

/// Whether an expression can be written out: each name in it is unquoted or stands in
/// quotes that SQL has.
pub uninterp spec fn expr_written(e: Expr) -> bool;

/// Whether a query can be written out: each name in it is unquoted or stands in quotes
/// that SQL has, and each TABLE command has a name.
pub uninterp spec fn query_written(q: Query) -> bool;

/// The SQL text of an expression.
pub uninterp spec fn expr_text(e: Expr) -> Seq<char>;

/// `Display` of `sqlparser::ast::Expr`: the SQL text of an expression, which depends
/// on the expression alone. It panics on a name in unknown quotes, so the expression is
/// one that can be written out.
#[verifier::external_body]
pub(crate) fn text_of_expr(e: &Expr) -> (r: String)
    requires
        expr_written(*e),
    ensures
        r@ == expr_text(*e),
{
    e.to_string()
}

/// The SQL text of a query.
pub uninterp spec fn query_text(q: Query) -> Seq<char>;

/// `Display` of `sqlparser::ast::Query`: the SQL text of a query, which depends on
/// the query alone. It panics on a name in unknown quotes and on a TABLE command without
/// a name, so the query is one that can be written out.
#[verifier::external_body]
pub(crate) fn text_of_query(q: &Query) -> (r: String)
    requires
        query_written(*q),
    ensures
        r@ == query_text(*q),
{
    q.to_string()
}

/// The text of a token.
pub uninterp spec fn token_text(t: Token) -> Seq<char>;

/// `Display` of `sqlparser::tokenizer::Token`: the text of a token, which depends on
/// the token alone.
#[verifier::external_body]
pub(crate) fn text_of_token(t: &Token) -> (r: String)
    requires
        writable(*t),
    ensures
        r@ == token_text(*t),
{
    t.to_string()
}

/// `Clone` of `sqlparser::tokenizer::Token`, which is derived: an equal token.
pub assume_specification[ <Token as Clone>::clone ](t: &Token) -> (r: Token)
    ensures
        r == *t,
;

/// The token of a word in quotes, or without quotes.
pub uninterp spec fn made_word(word: Seq<char>, quote: Option<char>) -> Token;

/// Whether a token, where it is a word, is the one that the tokenizer makes of its text.
pub open spec fn made(t: Token) -> bool {
    t matches Token::Word(w) ==> t == made_word(w.value@, w.quote_style)
}

/// Whether every word of a text is one that the tokenizer makes.
pub open spec fn tokens_made(l: Seq<TokenWithSpan>) -> bool {
    forall|i: int| 0 <= i < l.len() ==> made((#[trigger] l[i]).token)
}

/// `sqlparser::tokenizer::Token::make_word` without quotes: an unquoted word with the
/// given text. The token depends on the text alone; its keyword is the one that the text
/// spells in any case of ASCII letters.
#[verifier::external_body]
pub(crate) fn make_word(word: &str) -> (r: Token)
    ensures
        r == made_word(word@, None),
        unquoted(r) == Some(word@),
{
    Token::make_word(word, None)
}

/// The token of a placeholder.
pub uninterp spec fn placeholder_token(text: Seq<char>) -> Token;

/// `sqlparser::tokenizer::Token::Placeholder`: the token of a placeholder with the
/// given text. The token depends on the text alone.
#[verifier::external_body]
pub(crate) fn make_placeholder(text: &str) -> (r: Token)
    ensures
        r == placeholder_token(text@),
        match r {
            Token::Placeholder(s) => s@ == text@,
            _ => false,
        },
{
    Token::Placeholder(text.to_owned())
}

/// The tokens of a text, with their places, or the parser's message.
pub uninterp spec fn tokens_of(grammar: Grammar, sql: Seq<char>) -> Result<Seq<TokenWithSpan>, Seq<char>>;

/// `sqlparser::tokenizer::Tokenizer::tokenize_with_location` with the rules of a
/// grammar. The result depends on the grammar and the text alone. A word that comes
/// out is unquoted or has one of the known quotes, and `Token::make_word` makes the same
/// token of its text and its quotes.
#[verifier::external_body]
pub(crate) fn tokenize(grammar: Grammar, sql: &str) -> (r: Result<Vec<TokenWithSpan>, String>)
    ensures
        (match r {
            Ok(l) => Ok(l@),
            Err(e) => Err(e@),
        }) == tokens_of(grammar, sql@),
        r matches Ok(l) ==> tokens_writable(l@),
        r matches Ok(l) ==> tokens_made(l@),
{
    let dialect: Box<dyn Dialect> = match grammar {
        Grammar::Generic => Box::new(GenericDialect {}),
        Grammar::PostgreSql => Box::new(PostgreSqlDialect {}),
        Grammar::MySql => Box::new(MySqlDialect {}),
        Grammar::Sqlite => Box::new(SQLiteDialect {}),
        Grammar::SqlServer => Box::new(MsSqlDialect {}),
    };
    Tokenizer::new(&*dialect, sql).tokenize_with_location().map_err(|e| ParserError::from(e).to_string())
}

/// The statements that tokens make up, or the parser's message.
pub uninterp spec fn statements_of(grammar: Grammar, tokens: Seq<TokenWithSpan>) -> Result<Seq<Statement>, Seq<char>>;

/// The places of the tokens that are no white space, from a place on.
pub open spec fn significant_places(l: Seq<TokenWithSpan>, i: int, done: Seq<usize>) -> Seq<usize>
    decreases l.len() - i,
{
    if i < 0 || i >= l.len() {
        done
    } else if l[i].token is Whitespace {
        significant_places(l, i + 1, done)
    } else {
        significant_places(l, i + 1, done.push(i as usize))
    }
}

/// `sqlparser::parser::Parser::parse_statements` on tokens, with the rules of a
/// grammar. The result depends on the grammar and the tokens alone. What comes out can be
/// written out. The parser panics where it reports a token that cannot be written, and on
/// a statement `FLUSH RELAY LOGS FOR CHANNEL` where no name follows, so such tokens are
/// left out. It goes by the keywords of words, which the text of a word settles where the
/// tokenizer makes it; so every word is one that the tokenizer makes.
#[verifier::external_body]
pub(crate) fn parse_tokens(grammar: Grammar, tokens: Vec<TokenWithSpan>) -> (r: Result<Vec<Statement>, String>)
    requires
        tokens_writable(tokens@),
        tokens_made(tokens@),
        flushes(grammar) ==> !misses_channel(tokens@),
    ensures
        (match r {
            Ok(l) => Ok(l@),
            Err(e) => Err(e@),
        }) == statements_of(grammar, tokens@),
        r matches Ok(l) ==> all_written(l@),
        r matches Ok(l) ==> forall|i: int| 0 <= i < l@.len() ==> (#[trigger] l@[i] matches Statement::Query(q) ==> query_written(*q)),
{
    let dialect: Box<dyn Dialect> = match grammar {
        Grammar::Generic => Box::new(GenericDialect {}),
        Grammar::PostgreSql => Box::new(PostgreSqlDialect {}),
        Grammar::MySql => Box::new(MySqlDialect {}),
        Grammar::Sqlite => Box::new(SQLiteDialect {}),
        Grammar::SqlServer => Box::new(MsSqlDialect {}),
    };
    Parser::new(&*dialect).with_tokens_with_locations(tokens).parse_statements().map_err(|e| e.to_string())
}

/// A number with a fraction, as the decimal crate writes it.
pub uninterp spec fn decimal_of(s: Seq<char>) -> Option<Seq<char>>;

/// `rust_decimal::Decimal::from_str`, and the text of the number that it reads. The
/// result depends on the text alone.
#[verifier::external_body]
pub(crate) fn read_decimal(s: &str) -> (r: Option<String>)
    ensures
        text_view(r) == decimal_of(s@),
{
    rust_decimal::Decimal::from_str(s).ok().map(|d| d.to_string())
}

/// A number with an exponent, as the decimal crate writes it.
pub uninterp spec fn scientific_of(s: Seq<char>) -> Option<Seq<char>>;

/// `rust_decimal::Decimal::from_scientific`, and the text of the number that it
/// reads. The result depends on the text alone.
#[verifier::external_body]
pub(crate) fn read_scientific(s: &str) -> (r: Option<String>)
    ensures
        text_view(r) == scientific_of(s@),
{
    rust_decimal::Decimal::from_scientific(s).ok().map(|d| d.to_string())
}

/// A date in a format, as the calendar crate writes it.
pub uninterp spec fn date_of(s: Seq<char>, format: Seq<char>) -> Option<Seq<char>>;

/// `chrono::NaiveDate::parse_from_str`, and the text of the date that it reads. The
/// result depends on the text and the format alone.
#[verifier::external_body]
pub(crate) fn read_date(s: &str, format: &str) -> (r: Option<String>)
    ensures
        text_view(r) == date_of(s@, format@),
{
    chrono::NaiveDate::parse_from_str(s, format).ok().map(|d| d.to_string())
}

/// A time of day in a format, as the calendar crate writes it.
pub uninterp spec fn time_of(s: Seq<char>, format: Seq<char>) -> Option<Seq<char>>;

/// `chrono::NaiveTime::parse_from_str`, and the text of the time that it reads. The
/// result depends on the text and the format alone.
#[verifier::external_body]
pub(crate) fn read_time(s: &str, format: &str) -> (r: Option<String>)
    ensures
        text_view(r) == time_of(s@, format@),
{
    chrono::NaiveTime::parse_from_str(s, format).ok().map(|d| d.to_string())
}

/// A date and time in a format, as the calendar crate writes it.
pub uninterp spec fn timestamp_of(s: Seq<char>, format: Seq<char>) -> Option<Seq<char>>;

/// `chrono::NaiveDateTime::parse_from_str`, and the text of what it reads. The result
/// depends on the text and the format alone.
#[verifier::external_body]
pub(crate) fn read_timestamp(s: &str, format: &str) -> (r: Option<String>)
    ensures
        text_view(r) == timestamp_of(s@, format@),
{
    chrono::NaiveDateTime::parse_from_str(s, format).ok().map(|d| d.to_string())
}

/// A date and time with an offset in a format, as the calendar crate writes it.
pub uninterp spec fn zoned_of(s: Seq<char>, format: Seq<char>) -> Option<Seq<char>>;

/// `chrono::DateTime::parse_from_str`, and the text of what it reads. The result
/// depends on the text and the format alone.
#[verifier::external_body]
pub(crate) fn read_zoned(s: &str, format: &str) -> (r: Option<String>)
    ensures
        text_view(r) == zoned_of(s@, format@),
{
    chrono::DateTime::parse_from_str(s, format).ok().map(|d| d.to_string())
}

/// The expression that tokens start with and the token behind it, or the parser's
/// message.
pub uninterp spec fn expression_of(tokens: Seq<TokenWithSpan>) -> Result<(Expr, Token), Seq<char>>;

/// `sqlparser::parser::Parser::parse_expr` on tokens in the PostgreSQL grammar, and
/// `peek_token` behind the expression. The result depends on the tokens alone. What comes
/// out can be written out. The parser panics where it reports a token that cannot be
/// written.
#[verifier::external_body]
pub(crate) fn parse_expr_tokens(tokens: Vec<TokenWithSpan>) -> (r: Result<(Expr, Token), String>)
    requires
        tokens_writable(tokens@),
    ensures
        (match r {
            Ok(x) => Ok(x),
            Err(e) => Err(e@),
        }) == expression_of(tokens@),
        r matches Ok(x) ==> expr_written(x.0),
{
    let dialect = PostgreSqlDialect {};
    let mut parser = Parser::new(&dialect).with_tokens_with_locations(tokens);
    let expr = parser.parse_expr().map_err(|e| e.to_string())?;
    Ok((expr, parser.peek_token().token))
}

} // verus!
