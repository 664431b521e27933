//! Reads statements from their tokens.

use sqlparser::tokenizer::Token;
use vstd::prelude::*;

use crate::numbers::{parse_signed, signed_value};
use crate::outside::{all_writable, text_of_token, token_text};
use crate::scope::Checked;
use crate::source::{token_is_keyword, word_at};
use crate::syntax::{ParsedIdentifier, ParsedIdentifierView, ParsedObjectName, ParsedObjectNameView};
use crate::text::{text, text2};
use crate::types::{error, normalized, DbError, Identifier, Result, SYNTAX_ERROR};

verus! {

/// The name at a place.
pub open spec fn name_at(l: Seq<Token>, i: int) -> Option<ParsedIdentifierView> {
    if 0 <= i < l.len() {
        match l[i] {
            Token::Word(w) => Some(ParsedIdentifierView { name: normalized(w.value@, w.quote_style is Some), position: None }),
            _ => None,
        }
    } else {
        None
    }
}

/// The name at a place, and the place behind it.
pub open spec fn token_name(l: Seq<Token>, i: int) -> Checked<(ParsedIdentifierView, int)> {
    match name_at(l, i) {
        Some(n) => Ok((n, i + 1)),
        None => Err(error(SYNTAX_ERROR@, "identifier expected"@)),
    }
}

/// The contents of a result with a name and a place.
pub open spec fn named_result(r: Result<(ParsedIdentifier, usize)>) -> Checked<(ParsedIdentifierView, int)> {
    match r {
        Ok(x) => Ok((x.0@, x.1 as int)),
        Err(x) => Err(x@),
    }
}

/// Reads the name at a place.
pub fn parse_token_identifier(l: &Vec<Token>, i: usize) -> (r: Result<(ParsedIdentifier, usize)>)
    ensures
        named_result(r) == token_name(l@, i as int),
        r matches Ok(x) ==> x.1 <= l@.len(),
{
    if i < l.len() {
        if let Token::Word(w) = &l[i] {
            return Ok(
                (ParsedIdentifier { name: Identifier::new(w.value.as_str(), w.quote_style.is_some()), position: None }, i + 1),
            );
        }
    }
    Err(DbError::new(SYNTAX_ERROR, text("identifier expected")))
}

/// The further parts of a dotted name, and the place behind them.
pub open spec fn more_parts(l: Seq<Token>, i: int, left: nat, done: Seq<ParsedIdentifierView>) -> Checked<(Seq<ParsedIdentifierView>, int)>
    decreases left,
{
    if left == 0 || i < 0 || i >= l.len() || !(l[i] is Period) {
        Ok((done, i))
    } else {
        match token_name(l, i + 1) {
            Err(x) => Err(x),
            Ok((n, i)) => more_parts(l, i, (left - 1) as nat, done.push(n)),
        }
    }
}

/// The dotted name of at most some parts at a place, and the place behind it.
#[verifier::opaque]
pub open spec fn token_object(l: Seq<Token>, i: int, most: nat) -> Checked<(ParsedObjectNameView, int)> {
    match token_name(l, i) {
        Err(x) => Err(x),
        Ok((n, i)) => match more_parts(l, i, (most - 1) as nat, seq![n]) {
            Err(x) => Err(x),
            Ok((parts, i)) => Ok((ParsedObjectNameView { parts }, i)),
        },
    }
}

fn is_period(t: &Token) -> (r: bool)
    ensures
        r == (*t is Period),
{
    match t {
        Token::Period => true,
        _ => false,
    }
}

/// Reads the dotted name of at most some parts at a place.
pub fn parse_token_object_name(l: &Vec<Token>, i: usize, most: usize) -> (r: Result<(ParsedObjectName, usize)>)
    requires
        most >= 1,
    ensures
        (match r {
            Ok(x) => Ok((x.0@, x.1 as int)),
            Err(x) => Err(x@),
        }) == token_object(l@, i as int, most as nat),
        r matches Ok(x) ==> x.1 <= l@.len() && x.0.parts@.len() >= 1,
{
    reveal(token_object);
    let (first, next) = parse_token_identifier(l, i)?;
    let mut parts: Vec<ParsedIdentifier> = vec![first];
    let ghost start = ParsedIdentifier::views(parts@);
    assert(start =~= seq![first@]);
    let ghost from = next as int;
    let mut cursor: usize = next;
    let mut left: usize = most - 1;
    while left > 0 && cursor < l.len() && is_period(&l[cursor])
        invariant
            cursor <= l@.len(),
            parts@.len() >= 1,
            more_parts(l@, from, (most - 1) as nat, start) == more_parts(l@, cursor as int, left as nat, ParsedIdentifier::views(parts@)),
            token_object(l@, i as int, most as nat) == (match more_parts(l@, from, (most - 1) as nat, start) {
                Err(x) => Err(x),
                Ok((parts, i)) => Ok((ParsedObjectNameView { parts }, i)),
            }),
        decreases left,
    {
        let ghost before = ParsedIdentifier::views(parts@);
        let (n, next) = parse_token_identifier(l, cursor + 1)?;
        parts.push(n);
        assert(ParsedIdentifier::views(parts@) =~= before.push(n@));
        cursor = next;
        left = left - 1;
    }
    Ok((ParsedObjectName { parts }, cursor))
}

/// The place behind a word that has to stand at a place.
pub open spec fn word_expected(l: Seq<Token>, i: int, word: Seq<char>) -> Checked<int> {
    if word_at(l, i, word) {
        Ok(i + 1)
    } else {
        Err(error(SYNTAX_ERROR@, "expected keyword "@ + word))
    }
}

/// The contents of a result with a place.
pub open spec fn place_result(r: Result<usize>) -> Checked<int> {
    match r {
        Ok(i) => Ok(i as int),
        Err(x) => Err(x@),
    }
}

/// Reads a word that has to stand at a place.
pub fn expect_keyword(l: &Vec<Token>, i: usize, word: &str) -> (r: Result<usize>)
    ensures
        place_result(r) == word_expected(l@, i as int, word@),
        r matches Ok(i) ==> i <= l@.len(),
{
    if token_is_keyword(l, i, word) {
        Ok(i + 1)
    } else {
        Err(DbError::new(SYNTAX_ERROR, text2("expected keyword ", word)))
    }
}

/// That no token is left.
pub open spec fn ended(l: Seq<Token>, i: int) -> Checked<()> {
    if 0 <= i < l.len() {
        Err(error(SYNTAX_ERROR@, "unexpected token "@ + token_text(l[i])))
    } else {
        Ok(())
    }
}

/// Checks that no token is left.
pub fn ensure_token_end(l: &Vec<Token>, i: usize) -> (r: Result<()>)
    requires
        all_writable(l@),
    ensures
        crate::grouping::check_result(r) == ended(l@, i as int),
{
    if i < l.len() {
        Err(DbError::new(SYNTAX_ERROR, text2("unexpected token ", text_of_token(&l[i]).as_str())))
    } else {
        Ok(())
    }
}

/// Whether two words stand at a place.
pub open spec fn pair_at(l: Seq<Token>, i: int, a: Seq<char>, b: Seq<char>) -> bool {
    word_at(l, i, a) && word_at(l, i + 1, b)
}

/// Decides whether two words stand at a place.
pub fn has_pair_at(l: &Vec<Token>, i: usize, a: &str, b: &str) -> (r: bool)
    ensures
        r == pair_at(l@, i as int, a@, b@),
        r ==> i + 1 < l.len(),
{
    token_is_keyword(l, i, a) && token_is_keyword(l, i + 1, b)
}

/// Whether three words stand at a place.
pub open spec fn triple_at(l: Seq<Token>, i: int, a: Seq<char>, b: Seq<char>, c: Seq<char>) -> bool {
    word_at(l, i, a) && word_at(l, i + 1, b) && word_at(l, i + 2, c)
}

/// Decides whether three words stand at a place.
pub fn has_triple_at(l: &Vec<Token>, i: usize, a: &str, b: &str, c: &str) -> (r: bool)
    ensures
        r == triple_at(l@, i as int, a@, b@, c@),
        r ==> i + 2 < l.len(),
{
    token_is_keyword(l, i, a) && token_is_keyword(l, i + 1, b) && token_is_keyword(l, i + 2, c)
}

/// The place behind a word, where it stands at a place.
pub open spec fn past(l: Seq<Token>, i: int, word: Seq<char>) -> int {
    if word_at(l, i, word) {
        i + 1
    } else {
        i
    }
}

/// Steps over a word, where it stands at a place.
pub fn step_over(l: &Vec<Token>, i: usize, word: &str) -> (r: usize)
    ensures
        r == past(l@, i as int, word@),
        i <= l@.len() ==> r <= l@.len(),
{
    if token_is_keyword(l, i, word) {
        i + 1
    } else {
        i
    }
}

/// The digits at a place.
pub open spec fn digits_at(l: Seq<Token>, i: int) -> Option<Seq<char>> {
    if 0 <= i < l.len() {
        match l[i] {
            Token::Number(s, _) => Some(s@),
            _ => None,
        }
    } else {
        None
    }
}

/// The number of a sign and digits.
pub open spec fn signed_number(negative: bool, s: Seq<char>) -> Option<i64> {
    match signed_value(s) {
        Some(n) => if i64::MIN <= n <= i64::MAX {
            if negative {
                if n == i64::MIN {
                    None
                } else {
                    Some((-n) as i64)
                }
            } else {
                Some(n as i64)
            }
        } else {
            None
        },
        None => None,
    }
}

/// The number at a place, and the place behind it.
#[verifier::opaque]
pub open spec fn token_number(l: Seq<Token>, i: int) -> Checked<(i64, int)> {
    let negative = 0 <= i < l.len() && l[i] is Minus;
    let at = if negative {
        i + 1
    } else {
        i
    };
    match digits_at(l, at) {
        None => Err(error(SYNTAX_ERROR@, "integer value expected"@)),
        Some(s) => match signed_number(negative, s) {
            None => Err(error("22003"@, "sequence option is outside BIGINT range"@)),
            Some(n) => Ok((n, at + 1)),
        },
    }
}

fn is_minus(t: &Token) -> (r: bool)
    ensures
        r == (*t is Minus),
{
    match t {
        Token::Minus => true,
        _ => false,
    }
}

/// Reads the number at a place.
pub fn parse_signed_i64(l: &Vec<Token>, i: usize) -> (r: Result<(i64, usize)>)
    ensures
        (match r {
            Ok(x) => Ok((x.0, x.1 as int)),
            Err(x) => Err(x@),
        }) == token_number(l@, i as int),
        r matches Ok(x) ==> x.1 <= l@.len(),
{
    reveal(token_number);
    let negative = i < l.len() && is_minus(&l[i]);
    let at: usize = if negative {
        i + 1
    } else {
        i
    };
    if at < l.len() {
        if let Token::Number(s, _) = &l[at] {
            let n: Option<i64> = match parse_signed(s.as_str()) {
                None => None,
                Some(n) => if negative {
                    if n == i64::MIN {
                        None
                    } else {
                        Some(0 - n)
                    }
                } else {
                    Some(n)
                },
            };
            return match n {
                None => Err(DbError::new("22003", text("sequence option is outside BIGINT range"))),
                Some(n) => Ok((n, at + 1)),
            };
        }
    }
    Err(DbError::new(SYNTAX_ERROR, text("integer value expected")))
}

} // verus!
