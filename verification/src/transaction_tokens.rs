//! Reads the start of a transaction from its tokens.

use sqlparser::tokenizer::Token;
use vstd::prelude::*;

use crate::convert::statement_view;
use crate::rewrite::make_statement;
use crate::scope::Checked;
use crate::source::{token_is_keyword, word_at};
use crate::syntax::{IsolationLevel, ParsedStatement, ParsedStatementView, TransactionAccessMode, TransactionCharacteristics};
use crate::text::text;
use crate::token_statements::{comma_at, is_comma_at};
use crate::tokens::{expect_keyword, has_pair_at, pair_at, word_expected};
use crate::types::{error, unsupported, unsupported_error, DbError, Result, SYNTAX_ERROR};

verus! {

/// What has been read of the modes of a transaction.
pub struct Modes {
    pub characteristics: TransactionCharacteristics,
    pub isolation_seen: bool,
    pub access_seen: bool,
    pub deferrable_seen: bool,
    pub cursor: usize,
}

/// Mathematical contents of [`Modes`].
pub struct ModesView {
    pub characteristics: TransactionCharacteristics,
    pub isolation_seen: bool,
    pub access_seen: bool,
    pub deferrable_seen: bool,
    pub cursor: int,
}

impl Modes {
    /// The value as mathematical data.
    pub open spec fn view(&self) -> ModesView {
        ModesView {
            characteristics: self.characteristics,
            isolation_seen: self.isolation_seen,
            access_seen: self.access_seen,
            deferrable_seen: self.deferrable_seen,
            cursor: self.cursor as int,
        }
    }
}

/// A transaction of which no mode has been read.
pub open spec fn no_modes(cursor: int) -> ModesView {
    ModesView {
        characteristics: TransactionCharacteristics {
            isolation_level: IsolationLevel::ReadCommitted,
            access_mode: TransactionAccessMode::ReadWrite,
            deferrable: false,
        },
        isolation_seen: false,
        access_seen: false,
        deferrable_seen: false,
        cursor,
    }
}

fn make_no_modes(cursor: usize) -> (r: Modes)
    ensures
        r@ == no_modes(cursor as int),
{
    Modes {
        characteristics: TransactionCharacteristics {
            isolation_level: IsolationLevel::ReadCommitted,
            access_mode: TransactionAccessMode::ReadWrite,
            deferrable: false,
        },
        isolation_seen: false,
        access_seen: false,
        deferrable_seen: false,
        cursor,
    }
}

/// The place behind the words that start a transaction.
pub open spec fn begin_end(l: Seq<Token>) -> Option<int> {
    if word_at(l, 0, "BEGIN"@) {
        if word_at(l, 1, "WORK"@) || word_at(l, 1, "TRANSACTION"@) {
            Some(2)
        } else {
            Some(1)
        }
    } else if word_at(l, 0, "START"@) && word_at(l, 1, "TRANSACTION"@) {
        Some(2)
    } else {
        None
    }
}

fn find_begin_end(l: &Vec<Token>) -> (r: Option<usize>)
    ensures
        (match r {
            Some(i) => Some(i as int),
            None => None,
        }) == begin_end(l@),
{
    if token_is_keyword(l, 0, "BEGIN") {
        if token_is_keyword(l, 1, "WORK") || token_is_keyword(l, 1, "TRANSACTION") {
            Some(2)
        } else {
            Some(1)
        }
    } else if token_is_keyword(l, 0, "START") && token_is_keyword(l, 1, "TRANSACTION") {
        Some(2)
    } else {
        None
    }
}

/// Tokens without the semicolon at their end.
pub open spec fn without_semicolon(l: Seq<Token>) -> Seq<Token> {
    if l.len() > 0 && l.last() is SemiColon {
        l.drop_last()
    } else {
        l
    }
}

/// Takes the semicolon off the end of tokens.
pub fn drop_semicolon(l: Vec<Token>) -> (r: Vec<Token>)
    ensures
        r@ == without_semicolon(l@),
{
    let n: usize = l.len();
    if n == 0 {
        return l;
    }
    let last = match &l[n - 1] {
        Token::SemiColon => true,
        _ => false,
    };
    let mut out = l;
    if last {
        out.truncate(n - 1);
        assert(out@ =~= l@.drop_last());
    }
    out
}

/// The isolation level at a place, and the place behind it.
#[verifier::opaque]
pub open spec fn isolation_at(l: Seq<Token>, at: int) -> Checked<(IsolationLevel, int)> {
    if pair_at(l, at, "READ"@, "UNCOMMITTED"@) {
        Ok((IsolationLevel::ReadCommitted, at + 2))
    } else if pair_at(l, at, "READ"@, "COMMITTED"@) {
        Ok((IsolationLevel::ReadCommitted, at + 2))
    } else if pair_at(l, at, "REPEATABLE"@, "READ"@) {
        Ok((IsolationLevel::RepeatableRead, at + 2))
    } else if word_at(l, at, "SERIALIZABLE"@) {
        Ok((IsolationLevel::Serializable, at + 1))
    } else if word_at(l, at, "SNAPSHOT"@) {
        Err(unsupported_error("SNAPSHOT isolation is not supported"@, None))
    } else {
        Err(error(SYNTAX_ERROR@, "expected READ COMMITTED, REPEATABLE READ, or SERIALIZABLE"@))
    }
}

/// Reads the isolation level at a place.
fn parse_isolation(l: &Vec<Token>, at: usize) -> (r: Result<(IsolationLevel, usize)>)
    ensures
        (match r {
            Ok(x) => Ok((x.0, x.1 as int)),
            Err(x) => Err(x@),
        }) == isolation_at(l@, at as int),
{
    reveal(isolation_at);
    if has_pair_at(l, at, "READ", "UNCOMMITTED") {
        Ok((IsolationLevel::ReadCommitted, at + 2))
    } else if has_pair_at(l, at, "READ", "COMMITTED") {
        Ok((IsolationLevel::ReadCommitted, at + 2))
    } else if has_pair_at(l, at, "REPEATABLE", "READ") {
        Ok((IsolationLevel::RepeatableRead, at + 2))
    } else if token_is_keyword(l, at, "SERIALIZABLE") {
        Ok((IsolationLevel::Serializable, at + 1))
    } else if token_is_keyword(l, at, "SNAPSHOT") {
        Err(unsupported("SNAPSHOT isolation is not supported"))
    } else {
        Err(DbError::new(SYNTAX_ERROR, text("expected READ COMMITTED, REPEATABLE READ, or SERIALIZABLE")))
    }
}

/// The modes with one more of them.
#[verifier::opaque]
pub open spec fn mode_at(l: Seq<Token>, s: ModesView) -> Checked<ModesView> {
    let i = s.cursor;
    if comma_at(l, i) {
        Err(error(SYNTAX_ERROR@, "transaction mode is missing before comma"@))
    } else if word_at(l, i, "ISOLATION"@) {
        if s.isolation_seen {
            Err(error(SYNTAX_ERROR@, "transaction isolation level was specified more than once"@))
        } else {
            match word_expected(l, i + 1, "LEVEL"@) {
                Err(x) => Err(x),
                Ok(at) => match isolation_at(l, at) {
                    Err(x) => Err(x),
                    Ok((level, cursor)) => Ok(
                        ModesView {
                            characteristics: TransactionCharacteristics { isolation_level: level, ..s.characteristics },
                            isolation_seen: true,
                            cursor: cursor,
                            ..s
                        },
                    ),
                },
            }
        }
    } else if pair_at(l, i, "READ"@, "ONLY"@) {
        if s.access_seen {
            Err(error(SYNTAX_ERROR@, "transaction access mode was specified more than once"@))
        } else {
            Ok(
                ModesView {
                    characteristics: TransactionCharacteristics {
                        access_mode: TransactionAccessMode::ReadOnly,
                        ..s.characteristics
                    },
                    access_seen: true,
                    cursor: i + 2,
                    ..s
                },
            )
        }
    } else if pair_at(l, i, "READ"@, "WRITE"@) {
        if s.access_seen {
            Err(error(SYNTAX_ERROR@, "transaction access mode was specified more than once"@))
        } else {
            Ok(
                ModesView {
                    characteristics: TransactionCharacteristics {
                        access_mode: TransactionAccessMode::ReadWrite,
                        ..s.characteristics
                    },
                    access_seen: true,
                    cursor: i + 2,
                    ..s
                },
            )
        }
    } else if word_at(l, i, "DEFERRABLE"@) {
        if s.deferrable_seen {
            Err(error(SYNTAX_ERROR@, "transaction deferrability was specified more than once"@))
        } else {
            Ok(
                ModesView {
                    characteristics: TransactionCharacteristics { deferrable: true, ..s.characteristics },
                    deferrable_seen: true,
                    cursor: i + 1,
                    ..s
                },
            )
        }
    } else if pair_at(l, i, "NOT"@, "DEFERRABLE"@) {
        if s.deferrable_seen {
            Err(error(SYNTAX_ERROR@, "transaction deferrability was specified more than once"@))
        } else {
            Ok(
                ModesView {
                    characteristics: TransactionCharacteristics { deferrable: false, ..s.characteristics },
                    deferrable_seen: true,
                    cursor: i + 2,
                    ..s
                },
            )
        }
    } else {
        Err(error(SYNTAX_ERROR@, "unrecognized transaction mode or trailing token"@))
    }
}

/// Reads a transaction mode.
fn parse_mode(l: &Vec<Token>, s: Modes) -> (r: Result<Modes>)
    ensures
        (match r {
            Ok(x) => Ok(x@),
            Err(x) => Err(x@),
        }) == mode_at(l@, s@),
{
    reveal(mode_at);
    let i = s.cursor;
    if is_comma_at(l, i) {
        return Err(DbError::new(SYNTAX_ERROR, text("transaction mode is missing before comma")));
    }
    if token_is_keyword(l, i, "ISOLATION") {
        if s.isolation_seen {
            return Err(DbError::new(SYNTAX_ERROR, text("transaction isolation level was specified more than once")));
        }
        let at = expect_keyword(l, i + 1, "LEVEL")?;
        let (level, cursor) = parse_isolation(l, at)?;
        Ok(
            Modes {
                characteristics: TransactionCharacteristics { isolation_level: level, ..s.characteristics },
                isolation_seen: true,
                cursor: cursor,
                ..s
            },
        )
    } else if has_pair_at(l, i, "READ", "ONLY") {
        if s.access_seen {
            return Err(DbError::new(SYNTAX_ERROR, text("transaction access mode was specified more than once")));
        }
        Ok(
            Modes {
                characteristics: TransactionCharacteristics { access_mode: TransactionAccessMode::ReadOnly, ..s.characteristics },
                access_seen: true,
                cursor: i + 2,
                ..s
            },
        )
    } else if has_pair_at(l, i, "READ", "WRITE") {
        if s.access_seen {
            return Err(DbError::new(SYNTAX_ERROR, text("transaction access mode was specified more than once")));
        }
        Ok(
            Modes {
                characteristics: TransactionCharacteristics { access_mode: TransactionAccessMode::ReadWrite, ..s.characteristics },
                access_seen: true,
                cursor: i + 2,
                ..s
            },
        )
    } else if token_is_keyword(l, i, "DEFERRABLE") {
        if s.deferrable_seen {
            return Err(DbError::new(SYNTAX_ERROR, text("transaction deferrability was specified more than once")));
        }
        Ok(
            Modes {
                characteristics: TransactionCharacteristics { deferrable: true, ..s.characteristics },
                deferrable_seen: true,
                cursor: i + 1,
                ..s
            },
        )
    } else if has_pair_at(l, i, "NOT", "DEFERRABLE") {
        if s.deferrable_seen {
            return Err(DbError::new(SYNTAX_ERROR, text("transaction deferrability was specified more than once")));
        }
        Ok(
            Modes {
                characteristics: TransactionCharacteristics { deferrable: false, ..s.characteristics },
                deferrable_seen: true,
                cursor: i + 2,
                ..s
            },
        )
    } else {
        Err(DbError::new(SYNTAX_ERROR, text("unrecognized transaction mode or trailing token")))
    }
}

/// The modes behind the comma that may follow one.
#[verifier::opaque]
pub open spec fn comma_after(l: Seq<Token>, s: ModesView) -> Checked<ModesView> {
    if comma_at(l, s.cursor) {
        if s.cursor + 1 >= l.len() || comma_at(l, s.cursor + 1) {
            Err(error(SYNTAX_ERROR@, "transaction mode is missing after comma"@))
        } else {
            Ok(ModesView { cursor: s.cursor + 1, ..s })
        }
    } else {
        Ok(s)
    }
}

/// Reads the comma that may follow a transaction mode.
fn parse_comma(l: &Vec<Token>, s: Modes) -> (r: Result<Modes>)
    ensures
        (match r {
            Ok(x) => Ok(x@),
            Err(x) => Err(x@),
        }) == comma_after(l@, s@),
{
    reveal(comma_after);
    if is_comma_at(l, s.cursor) {
        if s.cursor + 1 >= l.len() || is_comma_at(l, s.cursor + 1) {
            return Err(DbError::new(SYNTAX_ERROR, text("transaction mode is missing after comma")));
        }
        Ok(Modes { cursor: s.cursor + 1, ..s })
    } else {
        Ok(s)
    }
}

/// The modes with all that follow.
pub open spec fn modes_at(l: Seq<Token>, s: ModesView) -> Checked<ModesView>
    decreases l.len() - s.cursor,
{
    if s.cursor < 0 || s.cursor >= l.len() {
        Ok(s)
    } else {
        match mode_at(l, s) {
            Err(x) => Err(x),
            Ok(read) => match comma_after(l, read) {
                Err(x) => Err(x),
                Ok(next) => if s.cursor < next.cursor <= l.len() {
                    modes_at(l, next)
                } else {
                    Ok(next)
                },
            },
        }
    }
}

fn parse_modes(l: &Vec<Token>, s: Modes) -> (r: Result<Modes>)
    ensures
        (match r {
            Ok(x) => Ok(x@),
            Err(x) => Err(x@),
        }) == modes_at(l@, s@),
{
    let ghost start = s@;
    let mut now: Modes = s;
    while now.cursor < l.len()
        invariant
            modes_at(l@, start) == modes_at(l@, now@),
            start == s@,
        decreases l.len() - now.cursor,
    {
        let cursor: usize = now.cursor;
        let read = parse_mode(l, now)?;
        let next = parse_comma(l, read)?;
        if next.cursor <= cursor || next.cursor > l.len() {
            return Ok(next);
        }
        now = next;
    }
    Ok(now)
}

/// The start of a transaction, where the tokens are one.
#[verifier::opaque]
pub open spec fn begin_of(l: Seq<Token>) -> Checked<Option<ParsedStatementView>> {
    match begin_end(l) {
        None => Ok(None),
        Some(at) => match modes_at(l, no_modes(at)) {
            Err(x) => Err(x),
            Ok(s) => Ok(Some(ParsedStatementView::Begin { characteristics: s.characteristics })),
        },
    }
}

/// Reads the start of a transaction.
pub fn parse_transaction_begin(l: &Vec<Token>) -> (r: Result<Option<ParsedStatement>>)
    ensures
        (match r {
            Ok(x) => Ok(statement_view(x)),
            Err(x) => Err(x@),
        }) == begin_of(l@),
{
    reveal(begin_of);
    match find_begin_end(l) {
        None => {
            Ok(None)
        },
        Some(at) => {
            let s = parse_modes(l, make_no_modes(at))?;
            Ok(Some(make_statement(ParsedStatement::Begin { characteristics: s.characteristics })))
        },
    }
}

} // verus!
