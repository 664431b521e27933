//! Statements that the parser takes only in another spelling, found by their tokens.

use sqlparser::tokenizer::{Token, TokenWithSpan, Whitespace};
use vstd::prelude::*;

use crate::outside::{made, made_word, make_word, significant_places, tokens_made, tokens_writable, word_is, writable};
use crate::source::{find_significant, is_unquoted_word, keep_significant, significant, token_is_keyword, word_at};

verus! {

/// What the tokens of a MERGE clause tell.
#[derive(Clone, Copy)]
pub struct MergeClauseTokenInfo {
    pub not_matched_by_target: bool,
    pub do_nothing: Option<(usize, usize)>,
}

/// How deep a place lies in parentheses, and in CASE expressions outside of them.
pub struct Nesting {
    pub parentheses: nat,
    pub cases: nat,
}

/// The nesting behind a token.
pub open spec fn nested_by(t: Token, n: Nesting) -> Nesting {
    if t is LParen {
        Nesting { parentheses: n.parentheses + 1, ..n }
    } else if t is RParen {
        Nesting {
            parentheses: if n.parentheses > 0 {
                (n.parentheses - 1) as nat
            } else {
                0
            },
            ..n
        }
    } else if n.parentheses == 0 && word_is(t, "CASE"@) {
        Nesting { cases: n.cases + 1, ..n }
    } else if n.parentheses == 0 && word_is(t, "END"@) && n.cases > 0 {
        Nesting { cases: (n.cases - 1) as nat, ..n }
    } else {
        n
    }
}

/// Whether a token changes the nesting.
pub open spec fn nests(t: Token, n: Nesting) -> bool {
    t is LParen || t is RParen || (n.parentheses == 0 && word_is(t, "CASE"@)) || (n.parentheses == 0 && word_is(t, "END"@) && n.cases > 0)
}

/// No nesting.
pub open spec fn flat() -> Nesting {
    Nesting { parentheses: 0, cases: 0 }
}

/// Whether the words that start a MERGE clause stand at a place.
pub open spec fn clause_starts(l: Seq<Token>, i: int) -> bool {
    word_at(l, i, "WHEN"@) && (word_at(l, i + 1, "MATCHED"@) || (word_at(l, i + 1, "NOT"@) && word_at(l, i + 2, "MATCHED"@)))
}

/// The starts of the clauses of a MERGE, from a place on.
pub open spec fn clauses_from(l: Seq<Token>, i: int, n: Nesting, done: Seq<usize>) -> Seq<usize>
    decreases l.len() - i,
{
    if i < 0 || i >= l.len() {
        done
    } else if !nests(l[i], n) && n == flat() && clause_starts(l, i) {
        clauses_from(l, i + 1, n, done.push(i as usize))
    } else {
        clauses_from(l, i + 1, nested_by(l[i], n), done)
    }
}

/// The words DO NOTHING of a clause, from a place on.
pub open spec fn nothing_from(l: Seq<Token>, i: int, end: int, n: Nesting) -> Option<(usize, usize)>
    decreases end - i,
{
    if i < 0 || i >= end - 2 {
        None
    } else if !nests(l[i], n) && n == flat() && word_at(l, i, "THEN"@) && word_at(l, i + 1, "DO"@) && word_at(l, i + 2, "NOTHING"@) {
        Some(((i + 1) as usize, (i + 2) as usize))
    } else {
        nothing_from(l, i + 1, end, nested_by(l[i], n))
    }
}

/// What the tokens of a clause tell.
pub open spec fn clause_info(l: Seq<Token>, start: int, end: int) -> MergeClauseTokenInfo {
    MergeClauseTokenInfo {
        not_matched_by_target: word_at(l, start + 1, "NOT"@) && !(word_at(l, start + 3, "BY"@) && word_at(l, start + 4, "SOURCE"@)),
        do_nothing: nothing_from(l, start, end, flat()),
    }
}

/// What the tokens of the clauses of a MERGE tell, where it is a MERGE.
#[verifier::opaque]
pub open spec fn merge_info(l: Seq<Token>) -> Option<Seq<MergeClauseTokenInfo>> {
    if word_at(l, 0, "MERGE"@) {
        let starts = clauses_from(l, 0, flat(), Seq::empty());
        Some(
            Seq::new(
                starts.len(),
                |k: int|
                    clause_info(
                        l,
                        starts[k] as int,
                        if k + 1 < starts.len() {
                            starts[k + 1] as int
                        } else {
                            l.len() as int
                        },
                    ),
            ),
        )
    } else {
        None
    }
}

struct Depth {
    parentheses: usize,
    cases: usize,
}

impl Depth {
    closed spec fn view(&self) -> Nesting {
        Nesting { parentheses: self.parentheses as nat, cases: self.cases as nat }
    }
}

fn is_left(t: &Token) -> (r: bool)
    ensures
        r == (*t is LParen),
{
    match t {
        Token::LParen => true,
        _ => false,
    }
}

fn is_right(t: &Token) -> (r: bool)
    ensures
        r == (*t is RParen),
{
    match t {
        Token::RParen => true,
        _ => false,
    }
}

/// Follows the nesting over a token, and tells whether the token changed it.
fn follow(t: &Token, d: &Depth) -> (r: (Depth, bool))
    requires
        d.parentheses < usize::MAX,
        d.cases < usize::MAX,
    ensures
        r.0@ == nested_by(*t, d@),
        r.1 == nests(*t, d@),
        r.0.parentheses <= d.parentheses + 1,
        r.0.cases <= d.cases + 1,
{
    if is_left(t) {
        (Depth { parentheses: d.parentheses + 1, cases: d.cases }, true)
    } else if is_right(t) {
        (
            Depth {
                parentheses: if d.parentheses > 0 {
                    d.parentheses - 1
                } else {
                    0
                },
                cases: d.cases,
            },
            true,
        )
    } else if d.parentheses == 0 && is_unquoted_word(t, "CASE") {
        (Depth { parentheses: d.parentheses, cases: d.cases + 1 }, true)
    } else if d.parentheses == 0 && is_unquoted_word(t, "END") && d.cases > 0 {
        (Depth { parentheses: d.parentheses, cases: d.cases - 1 }, true)
    } else {
        (Depth { parentheses: d.parentheses, cases: d.cases }, false)
    }
}

fn word_follows(tokens: &Vec<Token>, index: usize, by: usize, word: &str) -> (r: bool)
    requires
        index <= tokens.len(),
        by <= 4,
    ensures
        r == word_at(tokens@, index + by, word@),
{
    tokens.len() - index > by && token_is_keyword(tokens, index + by, word)
}

/// Decides whether the words that start a MERGE clause stand at a place.
fn is_merge_clause_start(tokens: &Vec<Token>, index: usize) -> (r: bool)
    requires
        index < tokens.len(),
    ensures
        r == clause_starts(tokens@, index as int),
{
    token_is_keyword(tokens, index, "WHEN") && (word_follows(tokens, index, 1, "MATCHED") || (word_follows(tokens, index, 1, "NOT")
        && word_follows(tokens, index, 2, "MATCHED")))
}

fn find_clauses(tokens: &Vec<Token>) -> (r: Vec<usize>)
    ensures
        r@ == clauses_from(tokens@, 0, flat(), Seq::empty()),
        forall|k: int| 0 <= k < r@.len() ==> (#[trigger] r@[k]) < tokens@.len(),
        forall|k: int| 0 <= k < r@.len() - 1 ==> (#[trigger] r@[k]) < r@[k + 1],
{
    let mut starts: Vec<usize> = Vec::new();
    let mut depth = Depth { parentheses: 0, cases: 0 };
    for i in 0..tokens.len()
        invariant
            depth.parentheses <= i,
            depth.cases <= i,
            forall|k: int| 0 <= k < starts@.len() ==> (#[trigger] starts@[k]) < i,
            forall|k: int| 0 <= k < starts@.len() - 1 ==> (#[trigger] starts@[k]) < starts@[k + 1],
            clauses_from(tokens@, 0, flat(), Seq::empty()) == clauses_from(tokens@, i as int, depth@, starts@),
    {
        let (next, changed) = follow(&tokens[i], &depth);
        if !changed && depth.parentheses == 0 && depth.cases == 0 && is_merge_clause_start(tokens, i) {
            starts.push(i);
        } else {
            depth = next;
        }
    }
    starts
}

/// Finds the words DO NOTHING of a clause.
fn find_merge_do_nothing(tokens: &Vec<Token>, start: usize, end: usize) -> (r: Option<(usize, usize)>)
    requires
        start <= end <= tokens.len(),
    ensures
        r == nothing_from(tokens@, start as int, end as int, flat()),
        r matches Some(p) ==> p.0 < tokens@.len() && p.1 < tokens@.len(),
{
    let mut depth = Depth { parentheses: 0, cases: 0 };
    let mut i: usize = start;
    while end - i > 2
        invariant
            start <= i <= end <= tokens.len(),
            depth.parentheses <= i,
            depth.cases <= i,
            nothing_from(tokens@, start as int, end as int, flat()) == nothing_from(tokens@, i as int, end as int, depth@),
        decreases end - i,
    {
        let (next, changed) = follow(&tokens[i], &depth);
        if !changed && depth.parentheses == 0 && depth.cases == 0 && is_unquoted_word(&tokens[i], "THEN") && is_unquoted_word(
            &tokens[i + 1],
            "DO",
        ) && is_unquoted_word(&tokens[i + 2], "NOTHING") {
            return Some((i + 1, i + 2));
        }
        depth = next;
        i = i + 1;
    }
    None
}

/// Reads what the tokens of a clause tell.
fn read_clause(tokens: &Vec<Token>, start: usize, end: usize) -> (r: MergeClauseTokenInfo)
    requires
        start <= end <= tokens.len(),
    ensures
        r == clause_info(tokens@, start as int, end as int),
        r.do_nothing matches Some(p) ==> p.0 < tokens@.len() && p.1 < tokens@.len(),
{
    let not_matched = word_follows(tokens, start, 1, "NOT");
    let by_source = word_follows(tokens, start, 3, "BY") && word_follows(tokens, start, 4, "SOURCE");
    let do_nothing = find_merge_do_nothing(tokens, start, end);
    MergeClauseTokenInfo { not_matched_by_target: not_matched && !by_source, do_nothing }
}

/// What the tokens of the clauses of a MERGE tell.
#[verifier::spinoff_prover]
pub fn merge_clause_token_info(tokens: &Vec<Token>) -> (r: Option<Vec<MergeClauseTokenInfo>>)
    ensures
        (match r {
            Some(l) => Some(l@),
            None => None,
        }) == merge_info(tokens@),
        r matches Some(l) ==> forall|k: int|
            0 <= k < l@.len() ==> ((#[trigger] l@[k]).do_nothing matches Some(p) ==> p.0 < tokens@.len() && p.1 < tokens@.len()),
{
    reveal(merge_info);
    if !token_is_keyword(tokens, 0, "MERGE") {
        return None;
    }
    let starts = find_clauses(tokens);
    let ghost want = merge_info(tokens@)->0;
    let mut out: Vec<MergeClauseTokenInfo> = Vec::new();
    for k in 0..starts.len()
        invariant
            starts@ == clauses_from(tokens@, 0, flat(), Seq::empty()),
            forall|k: int| 0 <= k < starts@.len() ==> (#[trigger] starts@[k]) < tokens@.len(),
            forall|k: int| 0 <= k < starts@.len() - 1 ==> (#[trigger] starts@[k]) < starts@[k + 1],
            want == Seq::new(
                starts@.len(),
                |k: int|
                    clause_info(
                        tokens@,
                        starts@[k] as int,
                        if k + 1 < starts@.len() {
                            starts@[k + 1] as int
                        } else {
                            tokens@.len() as int
                        },
                    ),
            ),
            out@ =~= want.take(k as int),
            forall|k: int|
                0 <= k < out@.len() ==> ((#[trigger] out@[k]).do_nothing matches Some(p) ==> p.0 < tokens@.len() && p.1 < tokens@.len()),
    {
        let start: usize = starts[k];
        let end: usize = if k + 1 < starts.len() {
            starts[k + 1]
        } else {
            tokens.len()
        };
        out.push(read_clause(tokens, start, end));
    }
    assert(out@ =~= want);
    Some(out)
}

/// A token in place of another.
pub open spec fn replaced(l: Seq<TokenWithSpan>, k: int, t: Token) -> Seq<TokenWithSpan> {
    l.update(k, TokenWithSpan { token: t, span: l[k].span })
}

fn replace(l: &mut Vec<TokenWithSpan>, k: usize, t: Token)
    requires
        k < old(l)@.len(),
        tokens_writable(old(l)@),
        tokens_made(old(l)@),
        writable(t),
        made(t),
    ensures
        final(l)@ == replaced(old(l)@, k as int, t),
        tokens_writable(final(l)@),
        tokens_made(final(l)@),
{
    let span = l[k].span;
    l.set(k, TokenWithSpan { token: t, span });
}

/// Tokens in which the clauses that do nothing are spelled in a way that the parser
/// takes, from a clause on.
pub open spec fn spelled(l: Seq<TokenWithSpan>, places: Seq<usize>, infos: Seq<MergeClauseTokenInfo>, i: int) -> Seq<TokenWithSpan>
    decreases infos.len() - i,
{
    if i < 0 || i >= infos.len() {
        l
    } else {
        match infos[i].do_nothing {
            None => spelled(l, places, infos, i + 1),
            Some((first, second)) => spelled(
                if infos[i].not_matched_by_target {
                    replaced(
                        replaced(l, places[first as int] as int, made_word("INSERT"@, None)),
                        places[second as int] as int,
                        made_word("ROW"@, None),
                    )
                } else {
                    replaced(
                        replaced(l, places[first as int] as int, made_word("DELETE"@, None)),
                        places[second as int] as int,
                        Token::Whitespace(Whitespace::Space),
                    )
                },
                places,
                infos,
                i + 1,
            ),
        }
    }
}

/// Whether a clause does nothing, from a clause on.
pub open spec fn any_nothing(infos: Seq<MergeClauseTokenInfo>, i: int) -> bool
    decreases infos.len() - i,
{
    0 <= i < infos.len() && (infos[i].do_nothing is Some || any_nothing(infos, i + 1))
}

/// The tokens of a MERGE with clauses that do nothing, as the parser takes them.
#[verifier::opaque]
pub open spec fn merge_spelled(l: Seq<TokenWithSpan>) -> Option<Seq<TokenWithSpan>> {
    match merge_info(significant(l, 0, Seq::empty())) {
        None => None,
        Some(infos) => if any_nothing(infos, 0) {
            Some(spelled(l, significant_places(l, 0, Seq::empty()), infos, 0))
        } else {
            None
        },
    }
}

proof fn lemma_same_length(l: Seq<TokenWithSpan>, i: int, a: Seq<Token>, b: Seq<usize>)
    requires
        a.len() == b.len(),
        0 <= i,
    ensures
        significant(l, i, a).len() == significant_places(l, i, b).len(),
    decreases l.len() - i,
{
    if i < l.len() {
        if l[i].token is Whitespace {
            lemma_same_length(l, i + 1, a, b);
        } else {
            lemma_same_length(l, i + 1, a.push(l[i].token), b.push(i as usize));
        }
    }
}

fn has_nothing(infos: &Vec<MergeClauseTokenInfo>) -> (r: bool)
    ensures
        r == any_nothing(infos@, 0),
{
    for i in 0..infos.len()
        invariant
            any_nothing(infos@, 0) == any_nothing(infos@, i as int),
    {
        if infos[i].do_nothing.is_some() {
            return true;
        }
    }
    false
}

/// Spells a MERGE with clauses that do nothing as the parser takes it.
pub fn rewrite_postgres_merge_do_nothing(tokens: Vec<TokenWithSpan>) -> (r: (Vec<TokenWithSpan>, bool))
    requires
        tokens_writable(tokens@),
        tokens_made(tokens@),
    ensures
        r.1 == (merge_spelled(tokens@) is Some),
        r.0@ == (match merge_spelled(tokens@) {
            Some(l) => l,
            None => tokens@,
        }),
        tokens_writable(r.0@),
        tokens_made(r.0@),
{
    reveal(merge_spelled);
    let kept = keep_significant(&tokens);
    let places = find_significant(&tokens);
    proof {
        lemma_same_length(tokens@, 0, Seq::empty(), Seq::empty());
    }
    let infos = match merge_clause_token_info(&kept) {
        None => {
            return (tokens, false);
        },
        Some(infos) => infos,
    };
    if !has_nothing(&infos) {
        return (tokens, false);
    }
    let ghost start = tokens@;
    let mut out: Vec<TokenWithSpan> = tokens;
    for i in 0..infos.len()
        invariant
            out@.len() == start.len(),
            tokens_writable(out@),
            tokens_made(out@),
            places@ == significant_places(start, 0, Seq::empty()),
            forall|k: int| 0 <= k < places@.len() ==> (#[trigger] places@[k]) < start.len(),
            forall|k: int|
                0 <= k < infos@.len() ==> (
                    (#[trigger] infos@[k]).do_nothing matches Some(p) ==> p.0 < places@.len() && p.1 < places@.len()
                ),
            spelled(start, places@, infos@, 0) == spelled(out@, places@, infos@, i as int),
    {
        let info = infos[i];
        assert(infos@[i as int] == info);
        if let Some((first, second)) = info.do_nothing {
            let a: usize = places[first];
            let b: usize = places[second];
            if info.not_matched_by_target {
                replace(&mut out, a, make_word("INSERT"));
                replace(&mut out, b, make_word("ROW"));
            } else {
                replace(&mut out, a, make_word("DELETE"));
                replace(&mut out, b, Token::Whitespace(Whitespace::Space));
            }
        }
    }
    (out, true)
}

/// The words NOT NULL of a CREATE DOMAIN, from a place on.
pub open spec fn not_null_from(l: Seq<Token>, i: int, parentheses: nat) -> Option<(usize, usize)>
    decreases l.len() - i,
{
    if i < 0 || i >= l.len() - 1 {
        None
    } else if l[i] is LParen {
        not_null_from(l, i + 1, parentheses + 1)
    } else if l[i] is RParen {
        not_null_from(
            l,
            i + 1,
            if parentheses > 0 {
                (parentheses - 1) as nat
            } else {
                0
            },
        )
    } else if parentheses == 0 && word_at(l, i, "NOT"@) && !word_at(l, i - 1, "IS"@) && word_at(l, i + 1, "NULL"@) {
        Some((i as usize, (i + 1) as usize))
    } else {
        not_null_from(l, i + 1, parentheses)
    }
}

/// The words NOT NULL of a CREATE DOMAIN.
#[verifier::opaque]
pub open spec fn domain_not_null(l: Seq<Token>) -> Option<(usize, usize)> {
    if word_at(l, 0, "CREATE"@) && word_at(l, 1, "DOMAIN"@) {
        not_null_from(l, 2, 0)
    } else {
        None
    }
}

/// Finds the words NOT NULL of a CREATE DOMAIN.
pub fn create_domain_not_null_tokens(tokens: &Vec<Token>) -> (r: Option<(usize, usize)>)
    ensures
        r == domain_not_null(tokens@),
        r matches Some(p) ==> p.0 < tokens@.len() && p.1 < tokens@.len(),
{
    reveal(domain_not_null);
    if !token_is_keyword(tokens, 0, "CREATE") || !token_is_keyword(tokens, 1, "DOMAIN") {
        return None;
    }
    let mut parentheses: usize = 0;
    let mut i: usize = 2;
    while i < tokens.len() - 1
        invariant
            2 <= i,
            tokens@.len() >= 2,
            parentheses <= i,
            domain_not_null(tokens@) == not_null_from(tokens@, i as int, parentheses as nat),
        decreases tokens.len() - i,
    {
        if is_left(&tokens[i]) {
            parentheses = parentheses + 1;
        } else if is_right(&tokens[i]) {
            if parentheses > 0 {
                parentheses = parentheses - 1;
            }
        } else if parentheses == 0 && is_unquoted_word(&tokens[i], "NOT") && !is_unquoted_word(&tokens[i - 1], "IS") && is_unquoted_word(
            &tokens[i + 1],
            "NULL",
        ) {
            return Some((i, i + 1));
        }
        i = i + 1;
    }
    None
}

/// The tokens of a CREATE DOMAIN without its NOT NULL, where it has one.
#[verifier::opaque]
pub open spec fn domain_spelled(l: Seq<TokenWithSpan>) -> Option<Seq<TokenWithSpan>> {
    match domain_not_null(significant(l, 0, Seq::empty())) {
        None => None,
        Some((first, second)) => {
            let places = significant_places(l, 0, Seq::empty());
            Some(
                replaced(
                    replaced(l, places[first as int] as int, Token::Whitespace(Whitespace::Space)),
                    places[second as int] as int,
                    Token::Whitespace(Whitespace::Space),
                ),
            )
        },
    }
}

/// Takes the NOT NULL out of a CREATE DOMAIN.
pub fn rewrite_postgres_create_domain_not_null(tokens: Vec<TokenWithSpan>) -> (r: (Vec<TokenWithSpan>, bool))
    requires
        tokens_writable(tokens@),
        tokens_made(tokens@),
    ensures
        r.1 == (domain_spelled(tokens@) is Some),
        r.0@ == (match domain_spelled(tokens@) {
            Some(l) => l,
            None => tokens@,
        }),
        tokens_writable(r.0@),
        tokens_made(r.0@),
{
    reveal(domain_spelled);
    let kept = keep_significant(&tokens);
    let places = find_significant(&tokens);
    proof {
        lemma_same_length(tokens@, 0, Seq::empty(), Seq::empty());
    }
    match create_domain_not_null_tokens(&kept) {
        None => (tokens, false),
        Some((first, second)) => {
            let a: usize = places[first];
            let b: usize = places[second];
            let mut out: Vec<TokenWithSpan> = tokens;
            replace(&mut out, a, Token::Whitespace(Whitespace::Space));
            replace(&mut out, b, Token::Whitespace(Whitespace::Space));
            (out, true)
        },
    }
}

} // verus!
