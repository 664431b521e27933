//! FLUSH statements that name no channel, which the parser does not survive.

use sqlparser::tokenizer::{Token, TokenWithSpan};
use vstd::prelude::*;

use crate::outside::{significant_places, word_is, Grammar};
use crate::source::{find_significant, is_unquoted_word};

verus! {

/// Whether a grammar has FLUSH statements.
pub open spec fn flushes(grammar: Grammar) -> bool {
    grammar == Grammar::MySql || grammar == Grammar::Generic
}

/// Whether a token can be a name, or a part of one.
pub open spec fn name_token(t: Token) -> bool {
    t is Word || t is SingleQuotedString || t is DoubleQuotedString
}

/// Whether a name stands at a place: parts that periods join.
pub open spec fn named_from(l: Seq<TokenWithSpan>, p: Seq<usize>, k: int) -> bool
    decreases p.len() - k,
{
    &&& 0 <= k < p.len()
    &&& name_token(l[p[k] as int].token)
    &&& k + 1 < p.len() && l[p[k + 1] as int].token is Period ==> named_from(l, p, k + 2)
}

/// Whether a word stands at a place.
pub open spec fn word_stands(l: Seq<TokenWithSpan>, p: Seq<usize>, k: int, word: Seq<char>) -> bool {
    0 <= k < p.len() && word_is(l[p[k] as int].token, word)
}

/// The place of the FLUSH that the words before a place belong to.
pub open spec fn flush_before(l: Seq<TokenWithSpan>, p: Seq<usize>, i: int) -> Option<int> {
    if word_stands(l, p, i - 1, "FLUSH"@) {
        Some(i - 1)
    } else if word_stands(l, p, i - 2, "FLUSH"@) && (word_stands(l, p, i - 1, "LOCAL"@) || word_stands(
        l,
        p,
        i - 1,
        "NO_WRITE_TO_BINLOG"@,
    )) {
        Some(i - 2)
    } else {
        None
    }
}

/// The place behind the last semicolon before a place.
pub open spec fn segment_start(l: Seq<TokenWithSpan>, p: Seq<usize>, i: int) -> int
    decreases i,
{
    if i <= 0 || i > p.len() {
        0
    } else if l[p[i - 1] as int].token is SemiColon {
        i
    } else {
        segment_start(l, p, i - 1)
    }
}

/// Whether a statement that starts at a place holds no other statement: it is a query or
/// changes rows.
pub open spec fn lone_statement(l: Seq<TokenWithSpan>, p: Seq<usize>, k: int) -> bool {
    0 <= k < p.len() && (l[p[k] as int].token is LParen || word_stands(l, p, k, "SELECT"@) || word_stands(l, p, k, "WITH"@)
        || word_stands(l, p, k, "VALUES"@) || word_stands(l, p, k, "INSERT"@) || word_stands(l, p, k, "UPDATE"@)
        || word_stands(l, p, k, "DELETE"@) || word_stands(l, p, k, "MERGE"@))
}

/// Whether a FLUSH that may start a statement leads, by the words from a place on, to a
/// channel without a name.
pub open spec fn channel_missing(l: Seq<TokenWithSpan>, p: Seq<usize>, i: int) -> bool {
    &&& word_stands(l, p, i, "RELAY"@)
    &&& word_stands(l, p, i + 1, "LOGS"@)
    &&& word_stands(l, p, i + 2, "FOR"@)
    &&& word_stands(l, p, i + 3, "CHANNEL"@)
    &&& !named_from(l, p, i + 4)
    &&& match flush_before(l, p, i) {
        Some(f) => !lone_statement(l, p, segment_start(l, p, f)),
        None => false,
    }
}

/// Whether a FLUSH that may start a statement leads to a channel without a name.
#[verifier::opaque]
pub open spec fn misses_channel(l: Seq<TokenWithSpan>) -> bool {
    exists|i: int| #[trigger] channel_missing(l, significant_places(l, 0, Seq::empty()), i)
}

/// Whether places lie in a list of tokens.
spec fn within(p: Seq<usize>, l: Seq<TokenWithSpan>) -> bool {
    forall|k: int| 0 <= k < p.len() ==> (#[trigger] p[k]) < l.len()
}

fn is_name_token(t: &Token) -> (r: bool)
    ensures
        r == name_token(*t),
{
    matches!(t, Token::Word(_) | Token::SingleQuotedString(_) | Token::DoubleQuotedString(_))
}

fn is_named_from(l: &Vec<TokenWithSpan>, p: &Vec<usize>, from: usize) -> (r: bool)
    requires
        within(p@, l@),
    ensures
        r == named_from(l@, p@, from as int),
{
    let mut k: usize = from;
    while k < p.len()
        invariant
            within(p@, l@),
            named_from(l@, p@, from as int) == named_from(l@, p@, k as int),
        decreases p.len() - k,
    {
        if !is_name_token(&l[p[k]].token) {
            return false;
        }
        if p.len() - k <= 1 || !matches!(l[p[k + 1]].token, Token::Period) {
            return true;
        }
        if p.len() - k <= 2 {
            assert(!named_from(l@, p@, k + 2));
            return false;
        }
        k = k + 2;
    }
    false
}

fn has_word(l: &Vec<TokenWithSpan>, p: &Vec<usize>, k: usize, word: &str) -> (r: bool)
    requires
        within(p@, l@),
    ensures
        r == word_stands(l@, p@, k as int, word@),
{
    k < p.len() && is_unquoted_word(&l[p[k]].token, word)
}

fn find_flush(l: &Vec<TokenWithSpan>, p: &Vec<usize>, i: usize) -> (r: Option<usize>)
    requires
        within(p@, l@),
        i <= p.len(),
    ensures
        match r {
            Some(f) => flush_before(l@, p@, i as int) == Some(f as int) && f < i,
            None => flush_before(l@, p@, i as int) is None,
        },
{
    if i >= 1 && has_word(l, p, i - 1, "FLUSH") {
        return Some(i - 1);
    }
    if i >= 2 && (has_word(l, p, i - 1, "LOCAL") || has_word(l, p, i - 1, "NO_WRITE_TO_BINLOG")) && has_word(l, p, i - 2, "FLUSH") {
        return Some(i - 2);
    }
    None
}

fn find_segment_start(l: &Vec<TokenWithSpan>, p: &Vec<usize>, i: usize) -> (r: usize)
    requires
        within(p@, l@),
        i <= p.len(),
    ensures
        r == segment_start(l@, p@, i as int),
{
    let mut k: usize = i;
    while k > 0
        invariant
            within(p@, l@),
            k <= i <= p.len(),
            segment_start(l@, p@, i as int) == segment_start(l@, p@, k as int),
        decreases k,
    {
        if matches!(l[p[k - 1]].token, Token::SemiColon) {
            return k;
        }
        k = k - 1;
    }
    0
}

fn is_lone_statement(l: &Vec<TokenWithSpan>, p: &Vec<usize>, k: usize) -> (r: bool)
    requires
        within(p@, l@),
    ensures
        r == lone_statement(l@, p@, k as int),
{
    k < p.len() && (matches!(l[p[k]].token, Token::LParen) || has_word(l, p, k, "SELECT") || has_word(l, p, k, "WITH") || has_word(
        l,
        p,
        k,
        "VALUES",
    ) || has_word(l, p, k, "INSERT") || has_word(l, p, k, "UPDATE") || has_word(l, p, k, "DELETE") || has_word(l, p, k, "MERGE"))
}

fn is_channel_missing(l: &Vec<TokenWithSpan>, p: &Vec<usize>, i: usize) -> (r: bool)
    requires
        within(p@, l@),
        i < p.len(),
    ensures
        r == channel_missing(l@, p@, i as int),
{
    if p.len() - i <= 3 || !has_word(l, p, i, "RELAY") || !has_word(l, p, i + 1, "LOGS") || !has_word(l, p, i + 2, "FOR") || !has_word(
        l,
        p,
        i + 3,
        "CHANNEL",
    ) {
        return false;
    }
    if is_named_from(l, p, i + 4) {
        return false;
    }
    match find_flush(l, p, i) {
        Some(f) => !is_lone_statement(l, p, find_segment_start(l, p, f)),
        None => false,
    }
}

/// Decides whether a FLUSH that may start a statement leads to a channel without a name.
pub fn has_missing_channel(tokens: &Vec<TokenWithSpan>) -> (r: bool)
    ensures
        r == misses_channel(tokens@),
{
    reveal(misses_channel);
    let places = find_significant(tokens);
    for i in 0..places.len()
        invariant
            places@ == significant_places(tokens@, 0, Seq::empty()),
            within(places@, tokens@),
            forall|k: int| k < i ==> !#[trigger] channel_missing(tokens@, places@, k),
    {
        if is_channel_missing(tokens, &places, i) {
            reveal(misses_channel);
            return true;
        }
    }
    false
}

} // verus!
