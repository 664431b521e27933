//! A statement's text: its tokens, its places and the names in it.

use sqlparser::ast::{Ident, ObjectName, ObjectNamePart};
use sqlparser::tokenizer::{Location, Token, TokenWithSpan};
use vstd::prelude::*;

use crate::outside::{all_writable, significant_places, tokenize, tokens_of, tokens_writable, word_is, Grammar};
use crate::scope::Checked;
use crate::syntax::{ParsedIdentifier, ParsedIdentifierView, ParsedObjectName, ParsedObjectNameView};
use crate::text::{characters, same_ignoring_case};
use crate::types::{normalized, unsupported, unsupported_error, Identifier, Result};

verus! {

/// A text, with those of its tokens that are no white space: as the default grammar reads
/// them, and with their places as the grammar that the text is written in does.
pub struct Source<'a> {
    pub sql: &'a str,
    pub tokens: Vec<Token>,
    pub own: Vec<TokenWithSpan>,
}

/// Mathematical contents of a [`Source`].
pub struct SourceView {
    pub sql: Seq<char>,
    pub tokens: Seq<Token>,
    pub own: Seq<TokenWithSpan>,
}

impl<'a> Source<'a> {
    /// The value as mathematical data.
    pub open spec fn view(&self) -> SourceView {
        SourceView { sql: self.sql@, tokens: self.tokens@, own: self.own@ }
    }
}

/// The end of the line that a place lies in: behind its line break, or the end of
/// the text.
pub open spec fn line_end(sql: Seq<char>, i: int) -> int
    decreases sql.len() - i,
{
    if i < 0 || i >= sql.len() {
        sql.len() as int
    } else if sql[i] == '\n' {
        i + 1
    } else {
        line_end(sql, i + 1)
    }
}

/// The start of a line, counted from the line that starts at a place.
pub open spec fn line_start(sql: Seq<char>, from: int, line: nat) -> Option<int>
    decreases line,
{
    if from < 0 || from >= sql.len() || line == 0 {
        None
    } else if line == 1 {
        Some(from)
    } else {
        line_start(sql, line_end(sql, from), (line - 1) as nat)
    }
}

/// The position of a character, counted from one, that stands in a line and column,
/// both counted from one. A column behind the end of the line is the end of the line.
pub open spec fn position_at(sql: Seq<char>, line: u64, column: u64) -> Option<usize> {
    if line == 0 || column == 0 {
        None
    } else {
        match line_start(sql, 0, line as nat) {
            None => None,
            Some(from) => {
                let width = line_end(sql, from) - from;
                let place = from + if column - 1 < width {
                    column - 1
                } else {
                    width
                };
                if place < usize::MAX {
                    Some((place + 1) as usize)
                } else {
                    None
                }
            },
        }
    }
}

/// The position of a place in a text.
#[verifier::opaque]
pub open spec fn place_of(sql: Seq<char>, location: Location) -> Option<usize> {
    position_at(sql, location.line, location.column)
}

proof fn lemma_line_end(sql: Seq<char>, i: int)
    requires
        0 <= i <= sql.len(),
    ensures
        i <= line_end(sql, i) <= sql.len(),
        i < sql.len() ==> i < line_end(sql, i),
    decreases sql.len() - i,
{
    if i < sql.len() && sql[i] != '\n' {
        lemma_line_end(sql, i + 1);
    }
}

fn find_line_end(chars: &Vec<char>, from: usize) -> (r: usize)
    requires
        from <= chars.len(),
    ensures
        r == line_end(chars@, from as int),
        from <= r <= chars.len(),
        from < chars.len() ==> from < r,
{
    proof {
        lemma_line_end(chars@, from as int);
    }
    let mut i: usize = from;
    while i < chars.len()
        invariant
            from <= i <= chars.len(),
            line_end(chars@, from as int) == line_end(chars@, i as int),
            from < chars.len() ==> from < line_end(chars@, from as int),
        decreases chars.len() - i,
    {
        if chars[i] == '\n' {
            return i + 1;
        }
        i = i + 1;
    }
    i
}

/// The position of a character from its line and column.
pub fn location_position(sql: &str, line: u64, column: u64) -> (r: Option<usize>)
    ensures
        r == position_at(sql@, line, column),
{
    if line == 0 || column == 0 {
        return None;
    }
    let chars = characters(sql);
    let mut from: usize = 0;
    let mut left: u64 = line;
    while from < chars.len() && left > 1
        invariant
            chars@ == sql@,
            0 <= from <= chars.len(),
            left >= 1,
            line_start(sql@, 0, line as nat) == line_start(sql@, from as int, left as nat),
        decreases left,
    {
        from = find_line_end(&chars, from);
        left = left - 1;
    }
    if from >= chars.len() {
        return None;
    }
    let end: usize = find_line_end(&chars, from);
    let width: usize = end - from;
    let place: usize = if column - 1 < width as u64 {
        from + (column - 1) as usize
    } else {
        end
    };
    if place < usize::MAX {
        Some(place + 1)
    } else {
        None
    }
}

/// The position of a place in a text.
pub fn position_of(sql: &str, location: Location) -> (r: Option<usize>)
    ensures
        r == place_of(sql@, location),
{
    reveal(place_of);
    location_position(sql, location.line, location.column)
}

/// The tokens that are no white space, from a place on.
pub open spec fn significant(l: Seq<TokenWithSpan>, i: int, done: Seq<Token>) -> Seq<Token>
    decreases l.len() - i,
{
    if i < 0 || i >= l.len() {
        done
    } else if l[i].token is Whitespace {
        significant(l, i + 1, done)
    } else {
        significant(l, i + 1, done.push(l[i].token))
    }
}

/// The tokens of a text that are no white space; none where the text has no tokens.
pub open spec fn significant_of(sql: Seq<char>) -> Seq<Token> {
    match tokens_of(Grammar::PostgreSql, sql) {
        Ok(l) => significant(l, 0, Seq::empty()),
        Err(_) => Seq::empty(),
    }
}

fn is_space(t: &Token) -> (r: bool)
    ensures
        r == (*t is Whitespace),
{
    match t {
        Token::Whitespace(_) => true,
        _ => false,
    }
}

/// Keeps the tokens that are no white space.
pub fn keep_significant(l: &Vec<TokenWithSpan>) -> (r: Vec<Token>)
    requires
        tokens_writable(l@),
    ensures
        r@ == significant(l@, 0, Seq::empty()),
        all_writable(r@),
{
    let mut out: Vec<Token> = Vec::new();
    for i in 0..l.len()
        invariant
            tokens_writable(l@),
            all_writable(out@),
            significant(l@, 0, Seq::empty()) == significant(l@, i as int, out@),
    {
        if !is_space(&l[i].token) {
            out.push(l[i].token.clone());
        }
    }
    out
}

/// The places of the tokens that are no white space.
pub fn find_significant(l: &Vec<TokenWithSpan>) -> (r: Vec<usize>)
    ensures
        r@ == significant_places(l@, 0, Seq::empty()),
        forall|i: int| 0 <= i < r@.len() ==> (#[trigger] r@[i]) < l@.len(),
{
    let mut out: Vec<usize> = Vec::new();
    for i in 0..l.len()
        invariant
            forall|i: int| 0 <= i < out@.len() ==> (#[trigger] out@[i]) < l@.len(),
            significant_places(l@, 0, Seq::empty()) == significant_places(l@, i as int, out@),
    {
        if !is_space(&l[i].token) {
            out.push(i);
        }
    }
    out
}

/// The tokens of a text that are no white space.
pub fn significant_tokens(sql: &str) -> (r: Vec<Token>)
    ensures
        r@ == significant_of(sql@),
        all_writable(r@),
{
    match tokenize(Grammar::PostgreSql, sql) {
        Ok(l) => keep_significant(&l),
        Err(_) => Vec::new(),
    }
}

/// The tokens that are no white space, with their places, from one of them on.
pub open spec fn placed_tokens(l: Seq<TokenWithSpan>, i: int, done: Seq<TokenWithSpan>) -> Seq<TokenWithSpan>
    decreases l.len() - i,
{
    if i < 0 || i >= l.len() {
        done
    } else if l[i].token is Whitespace {
        placed_tokens(l, i + 1, done)
    } else {
        placed_tokens(l, i + 1, done.push(l[i]))
    }
}

/// A text in a grammar with its tokens.
pub open spec fn source_of(sql: Seq<char>, grammar: Grammar) -> SourceView {
    SourceView {
        sql,
        tokens: significant_of(sql),
        own: match tokens_of(grammar, sql) {
            Ok(l) => placed_tokens(l, 0, Seq::empty()),
            Err(_) => Seq::empty(),
        },
    }
}

fn keep_placed(l: &Vec<TokenWithSpan>) -> (r: Vec<TokenWithSpan>)
    ensures
        r@ == placed_tokens(l@, 0, Seq::empty()),
{
    let mut out: Vec<TokenWithSpan> = Vec::new();
    for i in 0..l.len()
        invariant
            placed_tokens(l@, 0, Seq::empty()) == placed_tokens(l@, i as int, out@),
    {
        if !is_space(&l[i].token) {
            out.push(TokenWithSpan { token: l[i].token.clone(), span: l[i].span });
        }
    }
    out
}

/// Splits a text in a grammar into its tokens.
pub fn read_source(sql: &str, grammar: Grammar) -> (r: Source<'_>)
    ensures
        r@ == source_of(sql@, grammar),
        all_writable(r@.tokens),
{
    let own = match tokenize(grammar, sql) {
        Ok(l) => keep_placed(&l),
        Err(_) => Vec::new(),
    };
    Source { sql, tokens: significant_tokens(sql), own }
}

/// Decides whether a token is a given unquoted word.
pub fn is_unquoted_word(token: &Token, expected: &str) -> (r: bool)
    ensures
        r == word_is(*token, expected@),
{
    match token {
        Token::Word(w) => w.quote_style.is_none() && same_ignoring_case(w.value.as_str(), expected),
        _ => false,
    }
}

/// Whether a word stands at a place.
pub open spec fn word_at(l: Seq<Token>, i: int, word: Seq<char>) -> bool {
    0 <= i < l.len() && word_is(l[i], word)
}

/// Decides whether a word stands at a place.
pub fn token_is_keyword(tokens: &Vec<Token>, index: usize, keyword: &str) -> (r: bool)
    ensures
        r == word_at(tokens@, index as int, keyword@),
        r ==> index < tokens.len(),
{
    index < tokens.len() && is_unquoted_word(&tokens[index], keyword)
}

/// Whether two words stand in a row somewhere.
pub open spec fn has_pair(l: Seq<Token>, a: Seq<char>, b: Seq<char>) -> bool {
    exists|i: int| #[trigger] word_at(l, i, a) && word_at(l, i + 1, b)
}

/// Whether three words stand in a row somewhere.
pub open spec fn has_triple(l: Seq<Token>, a: Seq<char>, b: Seq<char>, c: Seq<char>) -> bool {
    exists|i: int| #[trigger] word_at(l, i, a) && word_at(l, i + 1, b) && word_at(l, i + 2, c)
}

/// Decides whether two words stand in a row somewhere.
pub fn has_keyword_pair(tokens: &Vec<Token>, a: &str, b: &str) -> (r: bool)
    ensures
        r == has_pair(tokens@, a@, b@),
{
    for i in 0..tokens.len()
        invariant
            forall|k: int| k < i ==> !(#[trigger] word_at(tokens@, k, a@) && word_at(tokens@, k + 1, b@)),
    {
        if token_is_keyword(tokens, i, a) && i + 1 < tokens.len() && token_is_keyword(tokens, i + 1, b) {
            return true;
        }
    }
    false
}

/// Decides whether three words stand in a row somewhere.
pub fn has_keyword_sequence(tokens: &Vec<Token>, a: &str, b: &str, c: &str) -> (r: bool)
    ensures
        r == has_triple(tokens@, a@, b@, c@),
{
    for i in 0..tokens.len()
        invariant
            forall|k: int| k < i ==> !(#[trigger] word_at(tokens@, k, a@) && word_at(tokens@, k + 1, b@) && word_at(tokens@, k + 2, c@)),
    {
        if token_is_keyword(tokens, i, a) && tokens.len() - i > 2 && token_is_keyword(tokens, i + 1, b)
            && token_is_keyword(tokens, i + 2, c) {
            return true;
        }
    }
    false
}

/// A name as it stands in a text.
#[verifier::opaque]
pub open spec fn ident_of(i: Ident, sql: Seq<char>) -> ParsedIdentifierView {
    ParsedIdentifierView { name: normalized(i.value@, i.quote_style is Some), position: place_of(sql, i.span.start) }
}

/// Takes over a name.
pub fn convert_ident(ident: &Ident, sql: &str) -> (r: ParsedIdentifier)
    ensures
        r@ == ident_of(*ident, sql@),
{
    reveal(ident_of);
    reveal(place_of);
    ParsedIdentifier {
        name: Identifier::new(ident.value.as_str(), ident.quote_style.is_some()),
        position: location_position(sql, ident.span.start.line, ident.span.start.column),
    }
}

/// Names as they stand in a text.
#[verifier::opaque]
pub open spec fn idents_of(l: Seq<Ident>, sql: Seq<char>) -> Seq<ParsedIdentifierView> {
    Seq::new(l.len(), |i: int| ident_of(l[i], sql))
}

/// Takes over names.
pub fn convert_idents(l: &Vec<Ident>, sql: &str) -> (r: Vec<ParsedIdentifier>)
    ensures
        ParsedIdentifier::views(r@) == idents_of(l@, sql@),
{
    reveal(idents_of);
    let ghost want = idents_of(l@, sql@);
    let mut out: Vec<ParsedIdentifier> = Vec::new();
    for i in 0..l.len()
        invariant
            want == idents_of(l@, sql@),
            ParsedIdentifier::views(out@) =~= want.take(i as int),
    {
        reveal(idents_of);
        let ghost before = ParsedIdentifier::views(out@);
        let x = convert_ident(&l[i], sql);
        out.push(x);
        assert(ParsedIdentifier::views(out@) =~= before.push(x@));
    }
    out
}

/// A name that may be absent.
#[verifier::opaque]
pub open spec fn some_ident(i: Option<Ident>, sql: Seq<char>) -> Option<ParsedIdentifierView> {
    match i {
        Some(i) => Some(ident_of(i, sql)),
        None => None,
    }
}

/// The contents of a name that may be absent.
pub open spec fn name_view(i: Option<ParsedIdentifier>) -> Option<ParsedIdentifierView> {
    match i {
        Some(i) => Some(i@),
        None => None,
    }
}

/// Takes over a name that may be absent.
pub fn convert_some_ident(ident: &Option<Ident>, sql: &str) -> (r: Option<ParsedIdentifier>)
    ensures
        name_view(r) == some_ident(*ident, sql@),
{
    reveal(some_ident);
    match ident {
        Some(i) => Some(convert_ident(i, sql)),
        None => None,
    }
}

/// The parts of a dotted name, from a part on.
pub open spec fn parts_of(
    l: Seq<ObjectNamePart>,
    sql: Seq<char>,
    i: int,
    done: Seq<ParsedIdentifierView>,
) -> Checked<Seq<ParsedIdentifierView>>
    decreases l.len() - i,
{
    if i < 0 || i >= l.len() {
        Ok(done)
    } else {
        match l[i] {
            ObjectNamePart::Identifier(ident) => parts_of(l, sql, i + 1, done.push(ident_of(ident, sql))),
            ObjectNamePart::Function(_) => Err(unsupported_error("function parts of object names are not supported"@, None)),
        }
    }
}

/// A dotted name as it stands in a text.
#[verifier::opaque]
pub open spec fn object_name_of(n: ObjectName, sql: Seq<char>) -> Checked<ParsedObjectNameView> {
    match parts_of(n.0@, sql, 0, Seq::empty()) {
        Err(x) => Err(x),
        Ok(parts) => Ok(ParsedObjectNameView { parts }),
    }
}

/// The contents of a result with a dotted name.
pub open spec fn object_result(r: Result<ParsedObjectName>) -> Checked<ParsedObjectNameView> {
    match r {
        Ok(n) => Ok(n@),
        Err(e) => Err(e@),
    }
}

/// The contents of a result with a name.
pub open spec fn ident_result(r: Result<ParsedIdentifier>) -> Checked<ParsedIdentifierView> {
    match r {
        Ok(n) => Ok(n@),
        Err(e) => Err(e@),
    }
}

/// Takes over a dotted name.
pub fn convert_object_name(name: &ObjectName, sql: &str) -> (r: Result<ParsedObjectName>)
    ensures
        object_result(r) == object_name_of(*name, sql@),
{
    reveal(object_name_of);
    let l = &name.0;
    let mut parts: Vec<ParsedIdentifier> = Vec::new();
    assert(ParsedIdentifier::views(parts@) =~= Seq::empty());
    for i in 0..l.len()
        invariant
            l == name.0,
            parts_of(l@, sql@, 0, Seq::empty()) == parts_of(l@, sql@, i as int, ParsedIdentifier::views(parts@)),
            object_name_of(*name, sql@) == (match parts_of(l@, sql@, 0, Seq::empty()) {
                Err(x) => Err(x),
                Ok(parts) => Ok(ParsedObjectNameView { parts }),
            }),
    {
        let ghost before = ParsedIdentifier::views(parts@);
        match &l[i] {
            ObjectNamePart::Identifier(ident) => {
                let x = convert_ident(ident, sql);
                parts.push(x);
                assert(ParsedIdentifier::views(parts@) =~= before.push(x@));
            },
            ObjectNamePart::Function(_) => {
                return Err(unsupported("function parts of object names are not supported"));
            },
        }
    }
    Ok(ParsedObjectName { parts })
}

/// A dotted name that has to be a single one.
#[verifier::opaque]
pub open spec fn single_name_of(n: ObjectName, sql: Seq<char>) -> Checked<ParsedIdentifierView> {
    match object_name_of(n, sql) {
        Err(x) => Err(x),
        Ok(o) => if o.parts.len() == 1 {
            Ok(o.parts[0])
        } else {
            Err(unsupported_error("qualified names are not supported here"@, None))
        },
    }
}

/// Takes over a dotted name that has to be a single one.
pub fn convert_single_identifier(name: &ObjectName, sql: &str) -> (r: Result<ParsedIdentifier>)
    ensures
        ident_result(r) == single_name_of(*name, sql@),
{
    reveal(single_name_of);
    let o = convert_object_name(name, sql)?;
    if o.parts.len() == 1 {
        assert(o@.parts[0] == o.parts@[0]@);
        Ok(o.parts[0].clone())
    } else {
        Err(unsupported("qualified names are not supported here"))
    }
}

/// The name that a token stands for: a word, or a text in quotes.
pub open spec fn token_name(t: TokenWithSpan, sql: Seq<char>) -> Option<ParsedIdentifierView> {
    match t.token {
        Token::Word(w) => Some(
            ParsedIdentifierView { name: normalized(w.value@, w.quote_style is Some), position: place_of(sql, t.span.start) },
        ),
        Token::SingleQuotedString(s) => Some(ParsedIdentifierView { name: s@, position: None }),
        Token::DoubleQuotedString(s) => Some(ParsedIdentifierView { name: s@, position: None }),
        _ => None,
    }
}

/// The names of a list in parentheses, from a token on: one for each token that is a
/// name.
pub open spec fn listed_names(l: Seq<TokenWithSpan>, sql: Seq<char>, i: int, done: Seq<ParsedIdentifierView>) -> Seq<ParsedIdentifierView>
    decreases l.len() - i,
{
    if i < 0 || i >= l.len() || l[i].token is RParen {
        done
    } else {
        match token_name(l[i], sql) {
            Some(n) => listed_names(l, sql, i + 1, done.push(n)),
            None => listed_names(l, sql, i + 1, done),
        }
    }
}

/// The place behind the first parentheses, from a token at a depth on.
pub open spec fn first_closed(l: Seq<TokenWithSpan>, i: int, depth: nat) -> int
    decreases l.len() - i,
{
    if i < 0 || i >= l.len() {
        l.len() as int
    } else if l[i].token is LParen {
        first_closed(l, i + 1, depth + 1)
    } else if l[i].token is RParen && depth <= 1 {
        i + 1
    } else if l[i].token is RParen {
        first_closed(l, i + 1, (depth - 1) as nat)
    } else {
        first_closed(l, i + 1, depth)
    }
}

/// The columns that an index carries beside its key: the names of the list that follows
/// the list of the key.
#[verifier::opaque]
pub open spec fn carried_columns(s: SourceView) -> Seq<ParsedIdentifierView> {
    let k = first_closed(s.own, 0, 0);
    if k + 1 < s.own.len() && word_is(s.own[k].token, "INCLUDE"@) && s.own[k + 1].token is LParen {
        listed_names(s.own, s.sql, k + 2, Seq::empty())
    } else {
        Seq::empty()
    }
}

fn is_left(t: &Token) -> (r: bool)
    ensures
        r == (*t is LParen),
{
    matches!(t, Token::LParen)
}

fn is_right(t: &Token) -> (r: bool)
    ensures
        r == (*t is RParen),
{
    matches!(t, Token::RParen)
}

fn find_token_name(t: &TokenWithSpan, sql: &str) -> (r: Option<ParsedIdentifier>)
    ensures
        name_view(r) == token_name(*t, sql@),
{
    match &t.token {
        Token::Word(w) => Some(
            ParsedIdentifier {
                name: Identifier::new(w.value.as_str(), w.quote_style.is_some()),
                position: position_of(sql, t.span.start),
            },
        ),
        Token::SingleQuotedString(s) => Some(ParsedIdentifier { name: Identifier::quoted(s.as_str()), position: None }),
        Token::DoubleQuotedString(s) => Some(ParsedIdentifier { name: Identifier::quoted(s.as_str()), position: None }),
        _ => None,
    }
}

fn list_names(l: &Vec<TokenWithSpan>, sql: &str, from: usize) -> (r: Vec<ParsedIdentifier>)
    ensures
        ParsedIdentifier::views(r@) == listed_names(l@, sql@, from as int, Seq::empty()),
{
    let mut out: Vec<ParsedIdentifier> = Vec::new();
    let mut i: usize = from;
    assert(ParsedIdentifier::views(out@) =~= Seq::empty());
    while i < l.len() && !is_right(&l[i].token)
        invariant
            listed_names(l@, sql@, from as int, Seq::empty()) == listed_names(l@, sql@, i as int, ParsedIdentifier::views(out@)),
        decreases l.len() - i,
    {
        if let Some(x) = find_token_name(&l[i], sql) {
            let ghost before = ParsedIdentifier::views(out@);
            out.push(x);
            assert(ParsedIdentifier::views(out@) =~= before.push(x@));
        }
        i = i + 1;
    }
    out
}

fn find_first_closed(l: &Vec<TokenWithSpan>) -> (r: usize)
    ensures
        r == first_closed(l@, 0, 0),
        r <= l.len(),
{
    let mut depth: usize = 0;
    for i in 0..l.len()
        invariant
            depth <= i,
            first_closed(l@, 0, 0) == first_closed(l@, i as int, depth as nat),
    {
        if is_left(&l[i].token) {
            depth = depth + 1;
        } else if is_right(&l[i].token) {
            if depth <= 1 {
                return i + 1;
            }
            depth = depth - 1;
        }
    }
    l.len()
}

/// Finds the columns that an index carries beside its key.
pub fn find_carried_columns(s: &Source) -> (r: Vec<ParsedIdentifier>)
    ensures
        ParsedIdentifier::views(r@) == carried_columns(s@),
{
    reveal(carried_columns);
    let k: usize = find_first_closed(&s.own);
    if k < s.own.len() && s.own.len() - k > 1 && is_unquoted_word(&s.own[k].token, "INCLUDE") && is_left(&s.own[k + 1].token) {
        return list_names(&s.own, s.sql, k + 2);
    }
    let none: Vec<ParsedIdentifier> = Vec::new();
    assert(ParsedIdentifier::views(none@) =~= Seq::empty());
    none
}

proof fn lemma_line_start(sql: Seq<char>, from: int, line: nat)
    requires
        0 <= from <= sql.len(),
    ensures
        line_start(sql, from, line) matches Some(k) ==> from <= k <= sql.len(),
    decreases line,
{
    lemma_line_end(sql, from);
    if line > 1 {
        lemma_line_start(sql, line_end(sql, from), (line - 1) as nat);
    }
}

/// A reported place lies in the text or just behind it; the first character is place 1.
pub proof fn lemma_position_at(sql: Seq<char>, line: u64, column: u64)
    ensures
        position_at(sql, line, column) matches Some(p) ==> 1 <= p <= sql.len() + 1,
{
    if line > 0 && column > 0 {
        lemma_line_start(sql, 0, line as nat);
        if let Some(from) = line_start(sql, 0, line as nat) {
            lemma_line_end(sql, from);
        }
    }
}

} // verus!
