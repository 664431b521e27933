//! Reads statements about sessions, upkeep, views and sequences from their tokens.

use sqlparser::tokenizer::Token;
use vstd::prelude::*;

use crate::catalog::ViewKind;
use crate::convert::statement_view;
use crate::convert_ddl::{owner_view, split_last};
use crate::literals::{contains_char, holds_char};
use crate::numbers::{byte_length, longer_than};
use crate::outside::{all_writable, text_of_token, text_view, token_text, word_is};
use crate::rewrite::make_statement;
use crate::scope::Checked;
use crate::source::{is_unquoted_word, token_is_keyword, word_at};
use crate::syntax::{
    ParsedAlterSequence, ParsedAlterSequenceView, ParsedIdentifier, ParsedIdentifierView, ParsedObjectName, ParsedObjectNameView,
    ParsedReindexTarget, ParsedReindexTargetView, ParsedStatement, ParsedStatementView,
};
use crate::text::{characters, lower, same_ignoring_case, text, text2};
use crate::tokens::{
    ended, ensure_token_end, expect_keyword, has_pair_at, pair_at, parse_signed_i64, parse_token_identifier, parse_token_object_name, past,
    step_over, token_name, token_number, token_object, word_expected,
};
use crate::types::{error, unsupported, unsupported_error, DbError, Identifier, MAX_POSTGRES_NAME_BYTES, Result, SYNTAX_ERROR};

verus! {

fn is_empty_text(s: &str) -> (r: bool)
    ensures
        r == (s@.len() == 0),
{
    characters(s).len() == 0
}

/// Whether a token opens a parenthesis, from a token on.
pub open spec fn any_left(l: Seq<Token>, i: int) -> bool
    decreases l.len() - i,
{
    0 <= i < l.len() && (l[i] is LParen || any_left(l, i + 1))
}

fn has_left(l: &Vec<Token>) -> (r: bool)
    ensures
        r == any_left(l@, 0),
{
    for i in 0..l.len()
        invariant
            any_left(l@, 0) == any_left(l@, i as int),
    {
        if let Token::LParen = &l[i] {
            return true;
        }
    }
    false
}

/// Whether a token is a given word, from a token on.
pub open spec fn any_word(l: Seq<Token>, word: Seq<char>, i: int) -> bool
    decreases l.len() - i,
{
    0 <= i < l.len() && (word_is(l[i], word) || any_word(l, word, i + 1))
}

fn has_word(l: &Vec<Token>, word: &str) -> (r: bool)
    ensures
        r == any_word(l@, word@, 0),
{
    for i in 0..l.len()
        invariant
            any_word(l@, word@, 0) == any_word(l@, word@, i as int),
    {
        if is_unquoted_word(&l[i], word) {
            return true;
        }
    }
    false
}

/// Whether a star stands at a place.
pub open spec fn star_at(l: Seq<Token>, i: int) -> bool {
    0 <= i < l.len() && l[i] is Mul
}

fn is_star_at(l: &Vec<Token>, i: usize) -> (r: bool)
    ensures
        r == star_at(l@, i as int),
{
    if i < l.len() {
        match &l[i] {
            Token::Mul => true,
            _ => false,
        }
    } else {
        false
    }
}

/// Whether a comma stands at a place.
pub open spec fn comma_at(l: Seq<Token>, i: int) -> bool {
    0 <= i < l.len() && l[i] is Comma
}

/// Decides whether a comma stands at a place.
pub fn is_comma_at(l: &Vec<Token>, i: usize) -> (r: bool)
    ensures
        r == comma_at(l@, i as int),
        r ==> i < l.len(),
{
    if i < l.len() {
        match &l[i] {
            Token::Comma => true,
            _ => false,
        }
    } else {
        false
    }
}

/// The string at a place.
pub open spec fn quoted_at(l: Seq<Token>, i: int) -> Option<Seq<char>> {
    if 0 <= i < l.len() {
        match l[i] {
            Token::SingleQuotedString(s) => Some(s@),
            _ => None,
        }
    } else {
        None
    }
}

fn quoted_text(l: &Vec<Token>, i: usize) -> (r: Option<String>)
    ensures
        text_view(r) == quoted_at(l@, i as int),
        r is Some ==> i < l.len(),
{
    if i < l.len() {
        match &l[i] {
            Token::SingleQuotedString(s) => Some(s.clone()),
            _ => None,
        }
    } else {
        None
    }
}

/// The quoted body at a place.
pub open spec fn body_at(l: Seq<Token>, i: int) -> Option<Seq<char>> {
    if 0 <= i < l.len() {
        match l[i] {
            Token::DollarQuotedString(s) => Some(s.value@),
            Token::SingleQuotedString(s) => Some(s@),
            _ => None,
        }
    } else {
        None
    }
}

fn body_text(l: &Vec<Token>, i: usize) -> (r: Option<String>)
    ensures
        text_view(r) == body_at(l@, i as int),
        r is Some ==> i < l.len(),
{
    if i < l.len() {
        match &l[i] {
            Token::DollarQuotedString(s) => Some(s.value.clone()),
            Token::SingleQuotedString(s) => Some(s.clone()),
            _ => None,
        }
    } else {
        None
    }
}

/// A kind of view with a place.
pub open spec fn kind_place(k: Option<(ViewKind, usize)>) -> Option<(ViewKind, int)> {
    match k {
        Some(k) => Some((k.0, k.1 as int)),
        None => None,
    }
}

/// What has been read of an ALTER SEQUENCE.
pub struct AlterState {
    pub options: ParsedAlterSequence,
    pub seen_increment: bool,
    pub seen_min_value: bool,
    pub seen_max_value: bool,
    pub seen_restart: bool,
    pub seen_cycle: bool,
    pub seen_owner: bool,
    pub cursor: usize,
}

/// Mathematical contents of an [`AlterState`].
pub struct AlterStateView {
    pub options: ParsedAlterSequenceView,
    pub seen_increment: bool,
    pub seen_min_value: bool,
    pub seen_max_value: bool,
    pub seen_restart: bool,
    pub seen_cycle: bool,
    pub seen_owner: bool,
    pub cursor: int,
}

impl AlterState {
    /// The value as mathematical data.
    pub open spec fn view(&self) -> AlterStateView {
        AlterStateView {
            options: self.options@,
            seen_increment: self.seen_increment,
            seen_min_value: self.seen_min_value,
            seen_max_value: self.seen_max_value,
            seen_restart: self.seen_restart,
            seen_cycle: self.seen_cycle,
            seen_owner: self.seen_owner,
            cursor: self.cursor as int,
        }
    }
}

/// An ALTER SEQUENCE of which no option has been read.
pub open spec fn no_options(cursor: int) -> AlterStateView {
    AlterStateView {
        options: ParsedAlterSequenceView { increment: None, min_value: None, max_value: None, restart: None, cycle: None, owner: None },
        seen_increment: false,
        seen_min_value: false,
        seen_max_value: false,
        seen_restart: false,
        seen_cycle: false,
        seen_owner: false,
        cursor,
    }
}

fn make_no_options(cursor: usize) -> (r: AlterState)
    ensures
        r@ == no_options(cursor as int),
{
    AlterState {
        options: ParsedAlterSequence { increment: None, min_value: None, max_value: None, restart: None, cycle: None, owner: None },
        seen_increment: false,
        seen_min_value: false,
        seen_max_value: false,
        seen_restart: false,
        seen_cycle: false,
        seen_owner: false,
        cursor,
    }
}

/// Whether an option of an ALTER SEQUENCE starts at a place.
pub open spec fn option_starts(l: Seq<Token>, i: int) -> bool {
    word_at(l, i, "INCREMENT"@) || word_at(l, i, "MINVALUE"@) || word_at(l, i, "MAXVALUE"@) || word_at(l, i, "RESTART"@) || word_at(
        l,
        i,
        "CYCLE"@,
    ) || word_at(l, i, "NO"@) || word_at(l, i, "OWNED"@)
}

fn alter_sequence_option_starts(l: &Vec<Token>, i: usize) -> (r: bool)
    ensures
        r == option_starts(l@, i as int),
{
    token_is_keyword(l, i, "INCREMENT") || token_is_keyword(l, i, "MINVALUE") || token_is_keyword(l, i, "MAXVALUE") || token_is_keyword(
        l,
        i,
        "RESTART",
    ) || token_is_keyword(l, i, "CYCLE") || token_is_keyword(l, i, "NO") || token_is_keyword(l, i, "OWNED")
}

/// That a name can be the name of a channel.
#[verifier::opaque]
pub open spec fn channel_check(name: Seq<char>) -> Checked<()> {
    if name.len() == 0 || byte_length(name) > 63 {
        Err(error("42622"@, "notification channel name is empty or too long"@))
    } else if holds_char(name, '\0') {
        Err(error("22021"@, "notification channel cannot contain NUL"@))
    } else {
        Ok(())
    }
}

/// Checks that a name can be the name of a channel.
pub fn validate_notification_channel(name: &Identifier) -> (r: Result<()>)
    ensures
        (match r {
            Ok(x) => Ok(()),
            Err(x) => Err(x@),
        }) == channel_check(name@),
{
    reveal(channel_check);
    if is_empty_text(name.as_str()) || longer_than(name.as_str(), MAX_POSTGRES_NAME_BYTES) {
        return Err(DbError::new("42622", text("notification channel name is empty or too long")));
    }
    if contains_char(name.as_str(), '\0') {
        return Err(DbError::new("22021", text("notification channel cannot contain NUL")));
    }
    Ok(())
}

/// What a REINDEX is about.
#[verifier::opaque]
pub open spec fn reindex_target(l: Seq<Token>) -> Checked<(ParsedReindexTargetView, int)> {
    if word_at(l, 1, "INDEX"@) {
        match token_object(l, 2, 2) {
            Err(x) => Err(x),
            Ok((name, cursor)) => Ok((ParsedReindexTargetView::Index(name), cursor)),
        }
    } else if word_at(l, 1, "TABLE"@) {
        match token_object(l, 2, 2) {
            Err(x) => Err(x),
            Ok((name, cursor)) => Ok((ParsedReindexTargetView::Table(name), cursor)),
        }
    } else if word_at(l, 1, "SCHEMA"@) {
        match token_name(l, 2) {
            Err(x) => Err(x),
            Ok((name, cursor)) => Ok((ParsedReindexTargetView::Schema(name), cursor)),
        }
    } else if word_at(l, 1, "DATABASE"@) {
        match token_name(l, 2) {
            Err(x) => Err(x),
            Ok((name, cursor)) => Ok((ParsedReindexTargetView::Database(name), cursor)),
        }
    } else {
        Err(unsupported_error("REINDEX requires INDEX, TABLE, SCHEMA, or DATABASE"@, None))
    }
}

/// Reads what a REINDEX is about.
fn parse_reindex_target(l: &Vec<Token>) -> (r: Result<(ParsedReindexTarget, usize)>)
    ensures
        (match r {
            Ok(x) => Ok((x.0@, x.1 as int)),
            Err(x) => Err(x@),
        }) == reindex_target(l@),
{
    reveal(reindex_target);
    if token_is_keyword(l, 1, "INDEX") {
        let (name, cursor) = parse_token_object_name(l, 2, 2)?;
        Ok((ParsedReindexTarget::Index(name), cursor))
    } else if token_is_keyword(l, 1, "TABLE") {
        let (name, cursor) = parse_token_object_name(l, 2, 2)?;
        Ok((ParsedReindexTarget::Table(name), cursor))
    } else if token_is_keyword(l, 1, "SCHEMA") {
        let (name, cursor) = parse_token_identifier(l, 2)?;
        Ok((ParsedReindexTarget::Schema(name), cursor))
    } else if token_is_keyword(l, 1, "DATABASE") {
        let (name, cursor) = parse_token_identifier(l, 2)?;
        Ok((ParsedReindexTarget::Database(name), cursor))
    } else {
        Err(unsupported("REINDEX requires INDEX, TABLE, SCHEMA, or DATABASE"))
    }
}

/// A REINDEX.
#[verifier::opaque]
pub open spec fn reindex_of(l: Seq<Token>) -> Checked<ParsedStatementView> {
    if any_left(l, 0) {
        Err(unsupported_error("REINDEX parameter clauses are not supported"@, None))
    } else if any_word(l, "CONCURRENTLY"@, 0) {
        Err(unsupported_error("REINDEX CONCURRENTLY is not supported"@, None))
    } else if word_at(l, 1, "SYSTEM"@) {
        Err(unsupported_error("REINDEX SYSTEM is not supported"@, None))
    } else {
        match reindex_target(l) {
            Err(x) => Err(x),
            Ok((target, cursor)) => match ended(l, cursor) {
                Err(x) => Err(x),
                Ok(_) => Ok((ParsedStatementView::Reindex { target })),
            },
        }
    }
}

/// Reads a REINDEX.
fn parse_reindex(l: &Vec<Token>) -> (r: Result<ParsedStatement>)
    requires
        all_writable(l@),
    ensures
        (match r {
            Ok(x) => Ok(x@),
            Err(x) => Err(x@),
        }) == reindex_of(l@),
{
    reveal(reindex_of);
    if has_left(l) {
        return Err(unsupported("REINDEX parameter clauses are not supported"));
    }
    if has_word(l, "CONCURRENTLY") {
        return Err(unsupported("REINDEX CONCURRENTLY is not supported"));
    }
    if token_is_keyword(l, 1, "SYSTEM") {
        return Err(unsupported("REINDEX SYSTEM is not supported"));
    }
    let (target, cursor) = parse_reindex_target(l)?;
    let _ = ensure_token_end(l, cursor)?;
    Ok(make_statement(ParsedStatement::Reindex { target }))
}

/// A LISTEN.
#[verifier::opaque]
pub open spec fn listen_of(l: Seq<Token>) -> Checked<ParsedStatementView> {
    match token_name(l, 1) {
        Err(x) => Err(x),
        Ok((channel, cursor)) => match channel_check(channel.name) {
            Err(x) => Err(x),
            Ok(_) => match ended(l, cursor) {
                Err(x) => Err(x),
                Ok(_) => Ok((ParsedStatementView::Listen { channel })),
            },
        },
    }
}

/// Reads a LISTEN.
fn parse_listen(l: &Vec<Token>) -> (r: Result<ParsedStatement>)
    requires
        all_writable(l@),
    ensures
        (match r {
            Ok(x) => Ok(x@),
            Err(x) => Err(x@),
        }) == listen_of(l@),
{
    reveal(listen_of);
    let (channel, cursor) = parse_token_identifier(l, 1)?;
    let _ = validate_notification_channel(&channel.name)?;
    let _ = ensure_token_end(l, cursor)?;
    Ok(make_statement(ParsedStatement::Listen { channel }))
}

/// An UNLISTEN.
#[verifier::opaque]
pub open spec fn unlisten_of(l: Seq<Token>) -> Checked<ParsedStatementView> {
    if star_at(l, 1) {
        match ended(l, 2) {
            Err(x) => Err(x),
            Ok(_) => Ok((ParsedStatementView::Unlisten { channel: None })),
        }
    } else {
        match token_name(l, 1) {
            Err(x) => Err(x),
            Ok((channel, cursor)) => match channel_check(channel.name) {
                Err(x) => Err(x),
                Ok(_) => match ended(l, cursor) {
                    Err(x) => Err(x),
                    Ok(_) => Ok((ParsedStatementView::Unlisten { channel: Some(channel) })),
                },
            },
        }
    }
}

/// Reads an UNLISTEN.
fn parse_unlisten(l: &Vec<Token>) -> (r: Result<ParsedStatement>)
    requires
        all_writable(l@),
    ensures
        (match r {
            Ok(x) => Ok(x@),
            Err(x) => Err(x@),
        }) == unlisten_of(l@),
{
    reveal(unlisten_of);
    if is_star_at(l, 1) {
        let _ = ensure_token_end(l, 2)?;
        Ok(make_statement(ParsedStatement::Unlisten { channel: None }))
    } else {
        let (channel, cursor) = parse_token_identifier(l, 1)?;
        let _ = validate_notification_channel(&channel.name)?;
        let _ = ensure_token_end(l, cursor)?;
        Ok(make_statement(ParsedStatement::Unlisten { channel: Some(channel) }))
    }
}

/// The payload of a NOTIFY, and the place behind it.
#[verifier::opaque]
pub open spec fn payload_of(l: Seq<Token>, cursor: int) -> Checked<(Seq<char>, int)> {
    if comma_at(l, cursor) {
        match quoted_at(l, cursor + 1) {
            Some(s) => Ok((s, cursor + 2)),
            None => if cursor + 1 >= l.len() {
                Err(error(SYNTAX_ERROR@, "NOTIFY payload expected"@))
            } else {
                Err(error(SYNTAX_ERROR@, "NOTIFY payload must be a string literal"@))
            },
        }
    } else {
        Ok((Seq::empty(), cursor))
    }
}

/// Reads the payload of a NOTIFY.
fn parse_payload(l: &Vec<Token>, cursor: usize) -> (r: Result<(String, usize)>)
    ensures
        (match r {
            Ok(x) => Ok((x.0@, x.1 as int)),
            Err(x) => Err(x@),
        }) == payload_of(l@, cursor as int),
{
    reveal(payload_of);
    if is_comma_at(l, cursor) {
        match quoted_text(l, cursor + 1) {
            Some(s) => {
                Ok((s, cursor + 2))
            },
            None => {
                if cursor + 1 >= l.len() {
                    Err(DbError::new(SYNTAX_ERROR, text("NOTIFY payload expected")))
                } else {
                    Err(DbError::new(SYNTAX_ERROR, text("NOTIFY payload must be a string literal")))
                }
            },
        }
    } else {
        Ok((String::new(), cursor))
    }
}

/// A NOTIFY.
#[verifier::opaque]
pub open spec fn notify_of(l: Seq<Token>) -> Checked<ParsedStatementView> {
    match token_name(l, 1) {
        Err(x) => Err(x),
        Ok((channel, next)) => match channel_check(channel.name) {
            Err(x) => Err(x),
            Ok(_) => match payload_of(l, next) {
                Err(x) => Err(x),
                Ok((payload, cursor)) => if holds_char(payload, '\0') {
                    Err(error("22021"@, "NOTIFY payload cannot contain NUL"@))
                } else if byte_length(payload) > 7999 {
                    Err(error("22023"@, "NOTIFY payload is too long"@))
                } else {
                    match ended(l, cursor) {
                        Err(x) => Err(x),
                        Ok(_) => Ok((ParsedStatementView::Notify { channel, payload })),
                    }
                },
            },
        },
    }
}

/// Reads a NOTIFY.
fn parse_notify(l: &Vec<Token>) -> (r: Result<ParsedStatement>)
    requires
        all_writable(l@),
    ensures
        (match r {
            Ok(x) => Ok(x@),
            Err(x) => Err(x@),
        }) == notify_of(l@),
{
    reveal(notify_of);
    let (channel, next) = parse_token_identifier(l, 1)?;
    let _ = validate_notification_channel(&channel.name)?;
    let (payload, cursor) = parse_payload(l, next)?;
    if contains_char(payload.as_str(), '\0') {
        return Err(DbError::new("22021", text("NOTIFY payload cannot contain NUL")));
    }
    if longer_than(payload.as_str(), 7999) {
        return Err(DbError::new("22023", text("NOTIFY payload is too long")));
    }
    let _ = ensure_token_end(l, cursor)?;
    Ok(make_statement(ParsedStatement::Notify { channel, payload }))
}

/// The place behind the language of a DO.
#[verifier::opaque]
pub open spec fn do_language(l: Seq<Token>) -> Checked<int> {
    if word_at(l, 1, "LANGUAGE"@) {
        match token_name(l, 2) {
            Err(x) => Err(x),
            Ok((language, cursor)) => if lower(language.name) != lower("plpgsql"@) {
                Err(unsupported_error("only LANGUAGE plpgsql DO blocks are supported"@, None))
            } else {
                Ok(cursor)
            },
        }
    } else {
        Ok(1)
    }
}

/// Reads the language of a DO.
fn parse_do_language(l: &Vec<Token>) -> (r: Result<usize>)
    ensures
        (match r {
            Ok(x) => Ok(x as int),
            Err(x) => Err(x@),
        }) == do_language(l@),
{
    reveal(do_language);
    if token_is_keyword(l, 1, "LANGUAGE") {
        let (language, cursor) = parse_token_identifier(l, 2)?;
        if !same_ignoring_case(language.name.as_str(), "plpgsql") {
            return Err(unsupported("only LANGUAGE plpgsql DO blocks are supported"));
        }
        Ok(cursor)
    } else {
        Ok(1)
    }
}

/// A DO.
#[verifier::opaque]
pub open spec fn do_of(l: Seq<Token>) -> Checked<ParsedStatementView> {
    match do_language(l) {
        Err(x) => Err(x),
        Ok(at) => match body_at(l, at) {
            None => Err(error(SYNTAX_ERROR@, "DO requires a quoted body"@)),
            Some(body) => if byte_length(body) > 1048576 {
                Err(error("54000"@, "DO body exceeds the source limit"@))
            } else {
                match ended(l, at + 1) {
                    Err(x) => Err(x),
                    Ok(_) => Ok((ParsedStatementView::Do { body })),
                }
            },
        },
    }
}

/// Reads a DO.
fn parse_do(l: &Vec<Token>) -> (r: Result<ParsedStatement>)
    requires
        all_writable(l@),
    ensures
        (match r {
            Ok(x) => Ok(x@),
            Err(x) => Err(x@),
        }) == do_of(l@),
{
    reveal(do_of);
    let at = parse_do_language(l)?;
    match body_text(l, at) {
        None => {
            Err(DbError::new(SYNTAX_ERROR, text("DO requires a quoted body")))
        },
        Some(body) => {
            if longer_than(body.as_str(), 1048576) {
                return Err(DbError::new("54000", text("DO body exceeds the source limit")));
            }
            let _ = ensure_token_end(l, at + 1)?;
            Ok(make_statement(ParsedStatement::Do { body }))
        },
    }
}

/// A statement about the session or the upkeep of a database, where the tokens are one.
#[verifier::opaque]
pub open spec fn session_statement(l: Seq<Token>) -> Checked<Option<ParsedStatementView>> {
    if word_at(l, 0, "REINDEX"@) {
        match reindex_of(l) {
            Err(x) => Err(x),
            Ok(s) => Ok(Some(s)),
        }
    } else if word_at(l, 0, "LISTEN"@) {
        match listen_of(l) {
            Err(x) => Err(x),
            Ok(s) => Ok(Some(s)),
        }
    } else if word_at(l, 0, "UNLISTEN"@) {
        match unlisten_of(l) {
            Err(x) => Err(x),
            Ok(s) => Ok(Some(s)),
        }
    } else if word_at(l, 0, "NOTIFY"@) {
        match notify_of(l) {
            Err(x) => Err(x),
            Ok(s) => Ok(Some(s)),
        }
    } else if word_at(l, 0, "DO"@) {
        match do_of(l) {
            Err(x) => Err(x),
            Ok(s) => Ok(Some(s)),
        }
    } else {
        Ok(None)
    }
}

/// Reads a statement about the session or the upkeep of a database.
pub fn parse_postgres_session_or_maintenance(l: &Vec<Token>) -> (r: Result<Option<ParsedStatement>>)
    requires
        all_writable(l@),
    ensures
        (match r {
            Ok(x) => Ok(statement_view(x)),
            Err(x) => Err(x@),
        }) == session_statement(l@),
{
    reveal(session_statement);
    if token_is_keyword(l, 0, "REINDEX") {
        let s = parse_reindex(l)?;
        Ok(Some(s))
    } else if token_is_keyword(l, 0, "LISTEN") {
        let s = parse_listen(l)?;
        Ok(Some(s))
    } else if token_is_keyword(l, 0, "UNLISTEN") {
        let s = parse_unlisten(l)?;
        Ok(Some(s))
    } else if token_is_keyword(l, 0, "NOTIFY") {
        let s = parse_notify(l)?;
        Ok(Some(s))
    } else if token_is_keyword(l, 0, "DO") {
        let s = parse_do(l)?;
        Ok(Some(s))
    } else {
        Ok(None)
    }
}

/// The kind of view that an ALTER is about, and the place behind it.
#[verifier::opaque]
pub open spec fn view_kind(l: Seq<Token>) -> Checked<Option<(ViewKind, int)>> {
    if pair_at(l, 1, "MATERIALIZED"@, "VIEW"@) {
        Ok(Some((ViewKind::Materialized, 3)))
    } else if word_at(l, 1, "VIEW"@) {
        Ok(Some((ViewKind::Regular, 2)))
    } else {
        Ok(None)
    }
}

/// Reads the kind of view that an ALTER is about.
fn parse_view_kind(l: &Vec<Token>) -> (r: Result<Option<(ViewKind, usize)>>)
    ensures
        (match r {
            Ok(x) => Ok(kind_place(x)),
            Err(x) => Err(x@),
        }) == view_kind(l@),
{
    reveal(view_kind);
    if has_pair_at(l, 1, "MATERIALIZED", "VIEW") {
        Ok(Some((ViewKind::Materialized, 3)))
    } else if token_is_keyword(l, 1, "VIEW") {
        Ok(Some((ViewKind::Regular, 2)))
    } else {
        Ok(None)
    }
}

/// An ALTER VIEW, where the tokens are one.
#[verifier::opaque]
pub open spec fn alter_view_of(l: Seq<Token>) -> Checked<Option<ParsedStatementView>> {
    if l.len() < 3 || !word_at(l, 0, "ALTER"@) {
        Ok(None)
    } else {
        match view_kind(l) {
            Err(x) => Err(x),
            Ok(found) => match found {
                None => Ok(None),
                Some((kind, at)) => {
                    let if_exists = pair_at(l, at, "IF"@, "EXISTS"@);
                    {
                        let at = if if_exists { at + 2 } else { at };
                        match token_object(l, at, 2) {
                            Err(x) => Err(x),
                            Ok((name, next)) => if !word_at(l, next, "RENAME"@) {
                                Err(unsupported_error("only ALTER VIEW ... RENAME TO is supported"@, None))
                            } else {
                                match word_expected(l, next + 1, "TO"@) {
                                    Err(x) => Err(x),
                                    Ok(next) => match token_name(l, next) {
                                        Err(x) => Err(x),
                                        Ok((new_name, cursor)) => match ended(l, cursor) {
                                            Err(x) => Err(x),
                                            Ok(_) => Ok(Some(ParsedStatementView::AlterViewRename { name, kind, if_exists, new_name })),
                                        },
                                    },
                                }
                            },
                        }
                    }
                },
            },
        }
    }
}

/// Reads an ALTER VIEW.
pub fn parse_alter_view(l: &Vec<Token>) -> (r: Result<Option<ParsedStatement>>)
    requires
        all_writable(l@),
    ensures
        (match r {
            Ok(x) => Ok(statement_view(x)),
            Err(x) => Err(x@),
        }) == alter_view_of(l@),
{
    reveal(alter_view_of);
    if l.len() < 3 || !token_is_keyword(l, 0, "ALTER") {
        Ok(None)
    } else {
        let found = parse_view_kind(l)?;
        match found {
            None => {
                Ok(None)
            },
            Some((kind, at)) => {
                let if_exists = has_pair_at(l, at, "IF", "EXISTS");
                let at = if if_exists { at + 2 } else { at };
                let (name, next) = parse_token_object_name(l, at, 2)?;
                if !token_is_keyword(l, next, "RENAME") {
                    return Err(unsupported("only ALTER VIEW ... RENAME TO is supported"));
                }
                let next = expect_keyword(l, next + 1, "TO")?;
                let (new_name, cursor) = parse_token_identifier(l, next)?;
                let _ = ensure_token_end(l, cursor)?;
                Ok(Some(make_statement(ParsedStatement::AlterViewRename { name, kind, if_exists, new_name })))
            },
        }
    }
}

/// The owner that an ALTER SEQUENCE names, and the place behind it.
#[verifier::opaque]
pub open spec fn owner_option(l: Seq<Token>, at: int) -> Checked<(Option<(ParsedObjectNameView, ParsedIdentifierView)>, int)> {
    match word_expected(l, at, "BY"@) {
        Err(x) => Err(x),
        Ok(next) => if word_at(l, next, "NONE"@) {
            Ok((None, next + 1))
        } else {
            match token_object(l, next, 3) {
                Err(x) => Err(x),
                Ok((owner, cursor)) => if owner.parts.len() < 2 {
                    Err(error(SYNTAX_ERROR@, "OWNED BY requires table.column or schema.table.column"@))
                } else {
                    Ok((Some((ParsedObjectNameView { parts: owner.parts.drop_last() }, owner.parts.last())), cursor))
                },
            }
        },
    }
}

/// Reads the owner that an ALTER SEQUENCE names.
fn parse_owner_option(l: &Vec<Token>, at: usize) -> (r: Result<(Option<(ParsedObjectName, ParsedIdentifier)>, usize)>)
    ensures
        (match r {
            Ok(x) => Ok((owner_view(x.0), x.1 as int)),
            Err(x) => Err(x@),
        }) == owner_option(l@, at as int),
{
    reveal(owner_option);
    let next = expect_keyword(l, at, "BY")?;
    if token_is_keyword(l, next, "NONE") {
        Ok((None, next + 1))
    } else {
        let (owner, cursor) = parse_token_object_name(l, next, 3)?;
        if owner.parts.len() < 2 {
            return Err(DbError::new(SYNTAX_ERROR, text("OWNED BY requires table.column or schema.table.column")));
        }
        Ok((Some(split_last(owner)), cursor))
    }
}

/// An ALTER SEQUENCE with one more option.
#[verifier::opaque]
pub open spec fn sequence_option(l: Seq<Token>, s: AlterStateView) -> Checked<AlterStateView> {
    let i = s.cursor;
    if word_at(l, i, "INCREMENT"@) {
        if s.seen_increment {
            Err(error(SYNTAX_ERROR@, "ALTER SEQUENCE option INCREMENT is specified more than once"@))
        } else {
            {
                let at = past(l, i + 1, "BY"@);
                match token_number(l, at) {
                    Err(x) => Err(x),
                    Ok((n, cursor)) => Ok(
                        AlterStateView {
                            seen_increment: true,
                            options: ParsedAlterSequenceView { increment: Some(n), ..s.options },
                            cursor,
                            ..s
                        },
                    ),
                }
            }
        }
    } else if word_at(l, i, "MINVALUE"@) {
        if s.seen_min_value {
            Err(error(SYNTAX_ERROR@, "ALTER SEQUENCE option MINVALUE is specified more than once"@))
        } else {
            {
                let at = i + 1;
                match token_number(l, at) {
                    Err(x) => Err(x),
                    Ok((n, cursor)) => Ok(
                        AlterStateView {
                            seen_min_value: true,
                            options: ParsedAlterSequenceView { min_value: Some(n), ..s.options },
                            cursor,
                            ..s
                        },
                    ),
                }
            }
        }
    } else if word_at(l, i, "MAXVALUE"@) {
        if s.seen_max_value {
            Err(error(SYNTAX_ERROR@, "ALTER SEQUENCE option MAXVALUE is specified more than once"@))
        } else {
            {
                let at = i + 1;
                match token_number(l, at) {
                    Err(x) => Err(x),
                    Ok((n, cursor)) => Ok(
                        AlterStateView {
                            seen_max_value: true,
                            options: ParsedAlterSequenceView { max_value: Some(n), ..s.options },
                            cursor,
                            ..s
                        },
                    ),
                }
            }
        }
    } else if word_at(l, i, "RESTART"@) {
        if s.seen_restart {
            Err(error(SYNTAX_ERROR@, "ALTER SEQUENCE option RESTART is specified more than once"@))
        } else {
            {
                let at = past(l, i + 1, "WITH"@);
                if at >= l.len() || option_starts(l, at) {
                    Err(unsupported_error("ALTER SEQUENCE RESTART requires an explicit value"@, None))
                } else {
                    match token_number(l, at) {
                        Err(x) => Err(x),
                        Ok((n, cursor)) => Ok(
                            AlterStateView {
                                seen_restart: true,
                                options: ParsedAlterSequenceView { restart: Some(n), ..s.options },
                                cursor,
                                ..s
                            },
                        ),
                    }
                }
            }
        }
    } else if word_at(l, i, "CYCLE"@) {
        if s.seen_cycle {
            Err(error(SYNTAX_ERROR@, "ALTER SEQUENCE option CYCLE is specified more than once"@))
        } else {
            Ok(
                AlterStateView {
                    seen_cycle: true,
                    options: ParsedAlterSequenceView { cycle: Some(true), ..s.options },
                    cursor: i + 1,
                    ..s
                },
            )
        }
    } else if pair_at(l, i, "NO"@, "CYCLE"@) {
        if s.seen_cycle {
            Err(error(SYNTAX_ERROR@, "ALTER SEQUENCE option CYCLE is specified more than once"@))
        } else {
            Ok(
                AlterStateView {
                    seen_cycle: true,
                    options: ParsedAlterSequenceView { cycle: Some(false), ..s.options },
                    cursor: i + 2,
                    ..s
                },
            )
        }
    } else if word_at(l, i, "OWNED"@) {
        if s.seen_owner {
            Err(error(SYNTAX_ERROR@, "ALTER SEQUENCE option OWNED is specified more than once"@))
        } else {
            match owner_option(l, i + 1) {
                Err(x) => Err(x),
                Ok((owner, cursor)) => Ok(
                    AlterStateView {
                        seen_owner: true,
                        options: ParsedAlterSequenceView { owner: Some(owner), ..s.options },
                        cursor,
                        ..s
                    },
                ),
            }
        }
    } else if word_at(l, i, "NO"@) {
        Err(unsupported_error("NO MINVALUE and NO MAXVALUE are not supported yet"@, None))
    } else {
        Err(unsupported_error("this ALTER SEQUENCE option is not supported: "@ + token_text(l[i]), None))
    }
}

/// Reads an option of an ALTER SEQUENCE.
fn parse_sequence_option(l: &Vec<Token>, s: AlterState) -> (r: Result<AlterState>)
    requires
        all_writable(l@),
        s.cursor < l@.len(),
    ensures
        (match r {
            Ok(x) => Ok(x@),
            Err(x) => Err(x@),
        }) == sequence_option(l@, s@),
{
    reveal(sequence_option);
    let i = s.cursor;
    if token_is_keyword(l, i, "INCREMENT") {
        if s.seen_increment {
            return Err(DbError::new(SYNTAX_ERROR, text("ALTER SEQUENCE option INCREMENT is specified more than once")));
        }
        let at = step_over(l, i + 1, "BY");
        let (n, cursor) = parse_signed_i64(l, at)?;
        Ok(AlterState { seen_increment: true, options: ParsedAlterSequence { increment: Some(n), ..s.options }, cursor, ..s })
    } else if token_is_keyword(l, i, "MINVALUE") {
        if s.seen_min_value {
            return Err(DbError::new(SYNTAX_ERROR, text("ALTER SEQUENCE option MINVALUE is specified more than once")));
        }
        let at = i + 1;
        let (n, cursor) = parse_signed_i64(l, at)?;
        Ok(AlterState { seen_min_value: true, options: ParsedAlterSequence { min_value: Some(n), ..s.options }, cursor, ..s })
    } else if token_is_keyword(l, i, "MAXVALUE") {
        if s.seen_max_value {
            return Err(DbError::new(SYNTAX_ERROR, text("ALTER SEQUENCE option MAXVALUE is specified more than once")));
        }
        let at = i + 1;
        let (n, cursor) = parse_signed_i64(l, at)?;
        Ok(AlterState { seen_max_value: true, options: ParsedAlterSequence { max_value: Some(n), ..s.options }, cursor, ..s })
    } else if token_is_keyword(l, i, "RESTART") {
        if s.seen_restart {
            return Err(DbError::new(SYNTAX_ERROR, text("ALTER SEQUENCE option RESTART is specified more than once")));
        }
        let at = step_over(l, i + 1, "WITH");
        if at >= l.len() || alter_sequence_option_starts(l, at) {
            return Err(unsupported("ALTER SEQUENCE RESTART requires an explicit value"));
        }
        let (n, cursor) = parse_signed_i64(l, at)?;
        Ok(AlterState { seen_restart: true, options: ParsedAlterSequence { restart: Some(n), ..s.options }, cursor, ..s })
    } else if token_is_keyword(l, i, "CYCLE") {
        if s.seen_cycle {
            return Err(DbError::new(SYNTAX_ERROR, text("ALTER SEQUENCE option CYCLE is specified more than once")));
        }
        Ok(
            AlterState {
                seen_cycle: true,
                options: ParsedAlterSequence { cycle: Some(true), ..s.options },
                cursor: i + 1,
                ..s
            },
        )
    } else if has_pair_at(l, i, "NO", "CYCLE") {
        if s.seen_cycle {
            return Err(DbError::new(SYNTAX_ERROR, text("ALTER SEQUENCE option CYCLE is specified more than once")));
        }
        Ok(
            AlterState {
                seen_cycle: true,
                options: ParsedAlterSequence { cycle: Some(false), ..s.options },
                cursor: i + 2,
                ..s
            },
        )
    } else if token_is_keyword(l, i, "OWNED") {
        if s.seen_owner {
            return Err(DbError::new(SYNTAX_ERROR, text("ALTER SEQUENCE option OWNED is specified more than once")));
        }
        let (owner, cursor) = parse_owner_option(l, i + 1)?;
        Ok(
            AlterState {
                seen_owner: true,
                options: ParsedAlterSequence { owner: Some(owner), ..s.options },
                cursor,
                ..s
            },
        )
    } else if token_is_keyword(l, i, "NO") {
        Err(unsupported("NO MINVALUE and NO MAXVALUE are not supported yet"))
    } else {
        Err(
            unsupported(
                text2("this ALTER SEQUENCE option is not supported: ", text_of_token(&l[i]).as_str()).as_str(),
            ),
        )
    }
}

/// An ALTER SEQUENCE with its further options.
pub open spec fn sequence_options(l: Seq<Token>, s: AlterStateView) -> Checked<AlterStateView>
    decreases l.len() - s.cursor,
{
    if s.cursor < 0 || s.cursor >= l.len() {
        Ok(s)
    } else {
        match sequence_option(l, s) {
            Err(x) => Err(x),
            Ok(next) => if s.cursor < next.cursor <= l.len() {
                sequence_options(l, next)
            } else {
                Ok(next)
            },
        }
    }
}

fn parse_sequence_options(l: &Vec<Token>, s: AlterState) -> (r: Result<AlterState>)
    requires
        all_writable(l@),
    ensures
        (match r {
            Ok(x) => Ok(x@),
            Err(x) => Err(x@),
        }) == sequence_options(l@, s@),
{
    let ghost start = s@;
    let mut now: AlterState = s;
    while now.cursor < l.len()
        invariant
            all_writable(l@),
            sequence_options(l@, start) == sequence_options(l@, now@),
            start == s@,
        decreases l.len() - now.cursor,
    {
        let cursor: usize = now.cursor;
        let next = parse_sequence_option(l, now)?;
        if next.cursor <= cursor || next.cursor > l.len() {
            return Ok(next);
        }
        now = next;
    }
    Ok(now)
}

/// An ALTER SEQUENCE, where the tokens are one.
#[verifier::opaque]
pub open spec fn alter_sequence_of(l: Seq<Token>) -> Checked<Option<ParsedStatementView>> {
    if l.len() < 3 || !word_at(l, 0, "ALTER"@) || !word_at(l, 1, "SEQUENCE"@) {
        Ok(None)
    } else {
        {
            let if_exists = pair_at(l, 2, "IF"@, "EXISTS"@);
            match token_object(l, if if_exists { 4 } else { 2 }, 2) {
                Err(x) => Err(x),
                Ok((name, at)) => if word_at(l, at, "RENAME"@) {
                    match word_expected(l, at + 1, "TO"@) {
                        Err(x) => Err(x),
                        Ok(next) => match token_name(l, next) {
                            Err(x) => Err(x),
                            Ok((new_name, cursor)) => match ended(l, cursor) {
                                Err(x) => Err(x),
                                Ok(_) => Ok(Some(ParsedStatementView::AlterSequenceRename { name, if_exists, new_name })),
                            },
                        },
                    }
                } else if at >= l.len() {
                    Err(error(SYNTAX_ERROR@, "ALTER SEQUENCE requires an option or RENAME TO"@))
                } else {
                    match sequence_options(l, no_options(at)) {
                        Err(x) => Err(x),
                        Ok(s) => Ok(Some(ParsedStatementView::AlterSequence { name, if_exists, options: s.options })),
                    }
                },
            }
        }
    }
}

/// Reads an ALTER SEQUENCE.
pub fn parse_alter_sequence(l: &Vec<Token>) -> (r: Result<Option<ParsedStatement>>)
    requires
        all_writable(l@),
    ensures
        (match r {
            Ok(x) => Ok(statement_view(x)),
            Err(x) => Err(x@),
        }) == alter_sequence_of(l@),
{
    reveal(alter_sequence_of);
    if l.len() < 3 || !token_is_keyword(l, 0, "ALTER") || !token_is_keyword(l, 1, "SEQUENCE") {
        Ok(None)
    } else {
        let if_exists = has_pair_at(l, 2, "IF", "EXISTS");
        let (name, at) = parse_token_object_name(l, if if_exists { 4 } else { 2 }, 2)?;
        if token_is_keyword(l, at, "RENAME") {
            let next = expect_keyword(l, at + 1, "TO")?;
            let (new_name, cursor) = parse_token_identifier(l, next)?;
            let _ = ensure_token_end(l, cursor)?;
            Ok(Some(make_statement(ParsedStatement::AlterSequenceRename { name, if_exists, new_name })))
        } else {
            if at >= l.len() {
                return Err(DbError::new(SYNTAX_ERROR, text("ALTER SEQUENCE requires an option or RENAME TO")));
            }
            let s = parse_sequence_options(l, make_no_options(at))?;
            Ok(Some(make_statement(ParsedStatement::AlterSequence { name, if_exists, options: s.options })))
        }
    }
}

} // verus!
