//! Texts cut into pieces.

use vstd::prelude::*;

use crate::outside::text_view;
use crate::text::{characters, lower, same_ignoring_case, same_text, strings, substring};

verus! {

/// Whether a character is white space, as Unicode has it.
pub open spec fn is_space(c: char) -> bool {
    ('\u{9}' <= c && c <= '\u{d}') || c == ' ' || c == '\u{85}' || c == '\u{a0}' || c == '\u{1680}' || (
        '\u{2000}' <= c && c <= '\u{200a}'
    ) || c
        == '\u{2028}' || c == '\u{2029}' || c == '\u{202f}' || c == '\u{205f}' || c == '\u{3000}'
}

/// Decides whether a character is white space.
pub fn is_white(c: char) -> (r: bool)
    ensures
        r == is_space(c),
{
    ('\u{9}' <= c && c <= '\u{d}') || c == ' ' || c == '\u{85}' || c == '\u{a0}' || c == '\u{1680}' || (
        '\u{2000}' <= c && c <= '\u{200a}'
    ) || c
        == '\u{2028}' || c == '\u{2029}' || c == '\u{202f}' || c == '\u{205f}' || c == '\u{3000}'
}

/// A text without white space at its start.
pub open spec fn trim_start(s: Seq<char>) -> Seq<char>
    decreases s.len(),
{
    if s.len() > 0 && is_space(s[0]) {
        trim_start(s.skip(1))
    } else {
        s
    }
}

/// A text without white space at its end.
pub open spec fn trim_end(s: Seq<char>) -> Seq<char>
    decreases s.len(),
{
    if s.len() > 0 && is_space(s.last()) {
        trim_end(s.drop_last())
    } else {
        s
    }
}

/// A text without white space at its ends.
pub open spec fn trimmed(s: Seq<char>) -> Seq<char> {
    trim_end(trim_start(s))
}

/// A text without semicolons at its end.
pub open spec fn trim_semicolons(s: Seq<char>) -> Seq<char>
    decreases s.len(),
{
    if s.len() > 0 && s.last() == ';' {
        trim_semicolons(s.drop_last())
    } else {
        s
    }
}

/// A statement without white space around it and without the semicolons that end it.
#[verifier::opaque]
pub open spec fn bare(s: Seq<char>) -> Seq<char> {
    trim_end(trim_semicolons(trimmed(s)))
}

fn skip_white(chars: &Vec<char>) -> (r: usize)
    ensures
        r <= chars@.len(),
        trim_start(chars@) == chars@.skip(r as int),
{
    let mut i: usize = 0;
    assert(chars@.skip(0) =~= chars@);
    while i < chars.len() && is_white(chars[i])
        invariant
            i <= chars@.len(),
            trim_start(chars@) == trim_start(chars@.skip(i as int)),
        decreases chars.len() - i,
    {
        assert(chars@.skip(i as int)[0] == chars@[i as int]);
        assert(chars@.skip(i as int).skip(1) =~= chars@.skip(i + 1));
        i = i + 1;
    }
    if i < chars.len() {
        assert(chars@.skip(i as int)[0] == chars@[i as int]);
    }
    i
}

fn drop_white(chars: &Vec<char>, from: usize, to: usize) -> (r: usize)
    requires
        from <= to <= chars@.len(),
    ensures
        from <= r <= to,
        trim_end(chars@.subrange(from as int, to as int)) == chars@.subrange(from as int, r as int),
{
    let mut i: usize = to;
    while i > from && is_white(chars[i - 1])
        invariant
            from <= i <= to <= chars@.len(),
            trim_end(chars@.subrange(from as int, to as int)) == trim_end(chars@.subrange(from as int, i as int)),
        decreases i,
    {
        assert(chars@.subrange(from as int, i as int).last() == chars@[i - 1]);
        assert(chars@.subrange(from as int, i as int).drop_last() =~= chars@.subrange(from as int, i - 1));
        i = i - 1;
    }
    if i > from {
        assert(chars@.subrange(from as int, i as int).last() == chars@[i - 1]);
    }
    i
}

fn drop_semicolons(chars: &Vec<char>, from: usize, to: usize) -> (r: usize)
    requires
        from <= to <= chars@.len(),
    ensures
        from <= r <= to,
        trim_semicolons(chars@.subrange(from as int, to as int)) == chars@.subrange(from as int, r as int),
{
    let mut i: usize = to;
    while i > from && chars[i - 1] == ';'
        invariant
            from <= i <= to <= chars@.len(),
            trim_semicolons(chars@.subrange(from as int, to as int)) == trim_semicolons(chars@.subrange(from as int, i as int)),
        decreases i,
    {
        assert(chars@.subrange(from as int, i as int).last() == chars@[i - 1]);
        assert(chars@.subrange(from as int, i as int).drop_last() =~= chars@.subrange(from as int, i - 1));
        i = i - 1;
    }
    if i > from {
        assert(chars@.subrange(from as int, i as int).last() == chars@[i - 1]);
    }
    i
}

/// Takes white space off both ends of a text.
pub fn trim(s: &str) -> (r: String)
    ensures
        r@ == trimmed(s@),
{
    let chars = characters(s);
    let from: usize = skip_white(&chars);
    assert(chars@.subrange(from as int, chars@.len() as int) =~= chars@.skip(from as int));
    let to: usize = drop_white(&chars, from, chars.len());
    substring(&chars, from, to)
}

/// Takes white space off the end of a text.
pub fn trim_tail(s: &str) -> (r: String)
    ensures
        r@ == trim_end(s@),
{
    let chars = characters(s);
    assert(chars@.subrange(0, chars@.len() as int) =~= chars@);
    let to: usize = drop_white(&chars, 0, chars.len());
    substring(&chars, 0, to)
}

/// Takes white space and the semicolons that end it off a statement.
pub fn strip_statement(s: &str) -> (r: String)
    ensures
        r@ == bare(s@),
{
    reveal(bare);
    let chars = characters(s);
    let from: usize = skip_white(&chars);
    assert(chars@.subrange(from as int, chars@.len() as int) =~= chars@.skip(from as int));
    let to: usize = drop_white(&chars, from, chars.len());
    let to: usize = drop_semicolons(&chars, from, to);
    let to: usize = drop_white(&chars, from, to);
    substring(&chars, from, to)
}

/// Whether a text starts with another, in any case.
pub open spec fn starts_like(s: Seq<char>, prefix: Seq<char>) -> bool {
    s.len() >= prefix.len() && lower(s.take(prefix.len() as int)) == lower(prefix)
}

/// Whether a text ends with another, in any case.
pub open spec fn ends_like(s: Seq<char>, suffix: Seq<char>) -> bool {
    s.len() >= suffix.len() && lower(s.skip(s.len() - suffix.len())) == lower(suffix)
}

/// The rest of a text behind a prefix in any case.
pub open spec fn after(s: Seq<char>, prefix: Seq<char>) -> Option<Seq<char>> {
    if starts_like(s, prefix) {
        Some(s.skip(prefix.len() as int))
    } else {
        None
    }
}

/// The rest of a text before a suffix in any case.
pub open spec fn before(s: Seq<char>, suffix: Seq<char>) -> Option<Seq<char>> {
    if ends_like(s, suffix) {
        Some(s.take(s.len() - suffix.len()))
    } else {
        None
    }
}

/// Takes a prefix in any case off a text.
pub fn strip_prefix_like(s: &str, prefix: &str) -> (r: Option<String>)
    ensures
        text_view(r) == after(s@, prefix@),
{
    let chars = characters(s);
    let n: usize = characters(prefix).len();
    if chars.len() < n {
        return None;
    }
    assert(chars@.subrange(0, n as int) =~= chars@.take(n as int));
    assert(chars@.subrange(n as int, chars@.len() as int) =~= chars@.skip(n as int));
    if same_ignoring_case(substring(&chars, 0, n).as_str(), prefix) {
        Some(substring(&chars, n, chars.len()))
    } else {
        None
    }
}

/// Takes a suffix in any case off a text.
pub fn strip_suffix_like(s: &str, suffix: &str) -> (r: Option<String>)
    ensures
        text_view(r) == before(s@, suffix@),
{
    let chars = characters(s);
    let n: usize = characters(suffix).len();
    if chars.len() < n {
        return None;
    }
    let k: usize = chars.len() - n;
    assert(chars@.subrange(0, k as int) =~= chars@.take(k as int));
    assert(chars@.subrange(k as int, chars@.len() as int) =~= chars@.skip(k as int));
    if same_ignoring_case(substring(&chars, k, chars.len()).as_str(), suffix) {
        Some(substring(&chars, 0, k))
    } else {
        None
    }
}

/// The first place of a character, from a place on.
pub open spec fn char_place(s: Seq<char>, c: char, i: int) -> Option<int>
    decreases s.len() - i,
{
    if i < 0 || i >= s.len() {
        None
    } else if s[i] == c {
        Some(i)
    } else {
        char_place(s, c, i + 1)
    }
}

/// Finds the first place of a character, from a place on.
pub fn find_char(chars: &Vec<char>, c: char, from: usize) -> (r: Option<usize>)
    ensures
        (match r {
            Some(k) => Some(k as int),
            None => None,
        }) == char_place(chars@, c, from as int),
        r matches Some(k) ==> from <= k < chars@.len(),
{
    let mut i: usize = from;
    while i < chars.len()
        invariant
            from <= i,
            char_place(chars@, c, from as int) == char_place(chars@, c, i as int),
        decreases chars.len() - i,
    {
        if chars[i] == c {
            return Some(i);
        }
        i = i + 1;
    }
    None
}

/// The pieces of a text between the places of a character. A piece starts at one place
/// and the search goes on at another.
pub open spec fn pieces_from(s: Seq<char>, c: char, start: int, i: int, done: Seq<Seq<char>>) -> Seq<Seq<char>>
    decreases s.len() - i,
{
    if i < 0 || i >= s.len() {
        done.push(s.subrange(start, s.len() as int))
    } else if s[i] == c {
        pieces_from(s, c, i + 1, i + 1, done.push(s.subrange(start, i)))
    } else {
        pieces_from(s, c, start, i + 1, done)
    }
}

/// The pieces of a text between the places of a character.
pub open spec fn pieces(s: Seq<char>, c: char) -> Seq<Seq<char>> {
    pieces_from(s, c, 0, 0, Seq::empty())
}

/// Cuts a text at the places of a character.
pub fn split_at(s: &str, c: char) -> (r: Vec<String>)
    ensures
        strings(r@) == pieces(s@, c),
        r@.len() > 0,
{
    let chars = characters(s);
    let mut out: Vec<String> = Vec::new();
    let mut from: usize = 0;
    assert(strings(out@) =~= Seq::empty());
    for i in 0..chars.len()
        invariant
            chars@ == s@,
            from <= i,
            pieces(s@, c) == pieces_from(s@, c, from as int, i as int, strings(out@)),
    {
        if chars[i] == c {
            let ghost held = strings(out@);
            let part = substring(&chars, from, i);
            out.push(part);
            assert(strings(out@) =~= held.push(part@));
            from = i + 1;
        }
    }
    let ghost held = strings(out@);
    let part = substring(&chars, from, chars.len());
    out.push(part);
    assert(strings(out@) =~= held.push(part@));
    out
}

/// The end of the word that starts at a place.
pub open spec fn word_end(s: Seq<char>, i: int) -> int
    decreases s.len() - i,
{
    if i < 0 || i >= s.len() || is_space(s[i]) {
        i
    } else {
        word_end(s, i + 1)
    }
}

/// The words of a text between white space, from a place on.
pub open spec fn words_from(s: Seq<char>, i: int, done: Seq<Seq<char>>) -> Seq<Seq<char>>
    decreases s.len() - i,
{
    if i < 0 || i >= s.len() {
        done
    } else if is_space(s[i]) {
        words_from(s, i + 1, done)
    } else if i < word_end(s, i) <= s.len() {
        words_from(s, word_end(s, i), done.push(s.subrange(i, word_end(s, i))))
    } else {
        done
    }
}

/// The words of a text between white space.
pub open spec fn words(s: Seq<char>) -> Seq<Seq<char>> {
    words_from(s, 0, Seq::empty())
}

/// Finds the end of the word that starts at a place.
pub fn find_word_end(chars: &Vec<char>, from: usize) -> (r: usize)
    requires
        from <= chars@.len(),
    ensures
        r == word_end(chars@, from as int),
        from <= r <= chars@.len(),
        from < chars@.len() && !is_space(chars@[from as int]) ==> from < r,
{
    let mut i: usize = from;
    while i < chars.len() && !is_white(chars[i])
        invariant
            from <= i <= chars@.len(),
            word_end(chars@, from as int) == word_end(chars@, i as int),
            from < i || i == from,
        decreases chars.len() - i,
    {
        i = i + 1;
    }
    i
}

/// Cuts a text into its words.
pub fn split_words(s: &str) -> (r: Vec<String>)
    ensures
        strings(r@) == words(s@),
{
    let chars = characters(s);
    let mut out: Vec<String> = Vec::new();
    let mut i: usize = 0;
    assert(strings(out@) =~= Seq::empty());
    while i < chars.len()
        invariant
            chars@ == s@,
            i <= chars@.len(),
            words(s@) == words_from(s@, i as int, strings(out@)),
        decreases chars.len() - i,
    {
        if is_white(chars[i]) {
            i = i + 1;
        } else {
            let end: usize = find_word_end(&chars, i);
            let ghost held = strings(out@);
            let part = substring(&chars, i, end);
            out.push(part);
            assert(strings(out@) =~= held.push(part@));
            i = end;
        }
    }
    out
}

/// The first word of a text that is a given one, in any case: where it starts and where
/// it ends, from a place on.
pub open spec fn word_span(s: Seq<char>, word: Seq<char>, i: int) -> Option<(int, int)>
    decreases s.len() - i,
{
    if i < 0 || i >= s.len() {
        None
    } else if is_space(s[i]) {
        word_span(s, word, i + 1)
    } else if i < word_end(s, i) <= s.len() {
        if lower(s.subrange(i, word_end(s, i))) == lower(word) {
            Some((i, word_end(s, i)))
        } else {
            word_span(s, word, word_end(s, i))
        }
    } else {
        None
    }
}

/// Finds the first word of a text that is a given one.
pub fn keyword_span(chars: &Vec<char>, keyword: &str) -> (r: Option<(usize, usize)>)
    ensures
        (match r {
            Some(p) => Some((p.0 as int, p.1 as int)),
            None => None,
        }) == word_span(chars@, keyword@, 0),
        r matches Some(p) ==> p.0 <= p.1 <= chars@.len(),
{
    let mut i: usize = 0;
    while i < chars.len()
        invariant
            i <= chars@.len(),
            word_span(chars@, keyword@, 0) == word_span(chars@, keyword@, i as int),
        decreases chars.len() - i,
    {
        if is_white(chars[i]) {
            i = i + 1;
        } else {
            let end: usize = find_word_end(chars, i);
            if same_ignoring_case(substring(chars, i, end).as_str(), keyword) {
                return Some((i, end));
            }
            i = end;
        }
    }
    None
}

/// Whether a text stands at a place of another.
pub open spec fn stands_at(s: Seq<char>, part: Seq<char>, i: int) -> bool {
    0 <= i && i + part.len() <= s.len() && s.subrange(i, i + part.len()) == part
}

/// The last place of a text in another, from a place down.
pub open spec fn last_place(s: Seq<char>, part: Seq<char>, i: int) -> Option<int>
    decreases i + 1,
{
    if i < 0 {
        None
    } else if stands_at(s, part, i) {
        Some(i)
    } else {
        last_place(s, part, i - 1)
    }
}

/// Finds the last place of a text in another that lies at or behind a place.
pub fn find_last(chars: &Vec<char>, part: &str, from: usize) -> (r: Option<usize>)
    requires
        from <= chars@.len(),
    ensures
        (match r {
            Some(k) => Some(k - from),
            None => None,
        }) == last_place(chars@.skip(from as int), part@, chars@.len() - from),
        r matches Some(k) ==> from <= k && k + part@.len() <= chars.len(),
{
    let ghost s = chars@.skip(from as int);
    let n: usize = characters(part).len();
    let mut i: usize = chars.len();
    loop
        invariant
            from <= i <= chars@.len(),
            s == chars@.skip(from as int),
            n == part@.len(),
            last_place(s, part@, chars@.len() - from) == last_place(s, part@, i - from),
        decreases i,
    {
        if chars.len() - i >= n {
            let piece = substring(chars, i, i + n);
            assert(s.subrange(i - from, i - from + n) =~= chars@.subrange(i as int, i + n));
            if same_text(piece.as_str(), part) {
                return Some(i);
            }
        }
        if i == from {
            assert(last_place(s, part@, -1) is None);
            return None;
        }
        i = i - 1;
    }
}

/// A text in which each pair of double quotes has become one, from a place on.
pub open spec fn unescaped(s: Seq<char>, i: int, done: Seq<char>) -> Seq<char>
    decreases s.len() - i,
{
    if i < 0 || i >= s.len() {
        done
    } else if s[i] == '"' && i + 1 < s.len() && s[i + 1] == '"' {
        unescaped(s, i + 2, done.push('"'))
    } else {
        unescaped(s, i + 1, done.push(s[i]))
    }
}

/// Makes each pair of double quotes one.
pub fn unescape(chars: &Vec<char>) -> (r: String)
    ensures
        r@ == unescaped(chars@, 0, Seq::empty()),
{
    let mut out = String::new();
    let mut i: usize = 0;
    assert(out@ =~= Seq::empty());
    while i < chars.len()
        invariant
            i <= chars@.len(),
            unescaped(chars@, 0, Seq::empty()) == unescaped(chars@, i as int, out@),
        decreases chars.len() - i,
    {
        if chars[i] == '"' && chars.len() - i > 1 && chars[i + 1] == '"' {
            out.push('"');
            i = i + 2;
        } else {
            out.push(chars[i]);
            i = i + 1;
        }
    }
    out
}

/// The first place of a text in another, from a place on.
pub open spec fn first_place(s: Seq<char>, part: Seq<char>, i: int) -> Option<int>
    decreases s.len() + 1 - i,
{
    if i < 0 || i > s.len() {
        None
    } else if stands_at(s, part, i) {
        Some(i)
    } else {
        first_place(s, part, i + 1)
    }
}

/// Finds the first place of a text in another.
pub fn find_first(chars: &Vec<char>, part: &str) -> (r: Option<usize>)
    ensures
        (match r {
            Some(k) => Some(k as int),
            None => None,
        }) == first_place(chars@, part@, 0),
        r matches Some(k) ==> k + part@.len() <= chars.len(),
{
    let n: usize = characters(part).len();
    if chars.len() < n {
        proof {
            lemma_too_long(chars@, part@, 0);
        }
        return None;
    }
    let most: usize = chars.len() - n;
    let mut i: usize = 0;
    while i <= most
        invariant
            n == part@.len(),
            most == chars.len() - n,
            i <= most + 1,
            first_place(chars@, part@, 0) == first_place(chars@, part@, i as int),
        decreases most + 1 - i,
    {
        let piece = substring(chars, i, i + n);
        if same_text(piece.as_str(), part) {
            return Some(i);
        }
        if i == most {
            proof {
                lemma_too_long(chars@, part@, i + 1);
            }
            return None;
        }
        i = i + 1;
    }
    proof {
        lemma_too_long(chars@, part@, i as int);
    }
    None
}

proof fn lemma_too_long(s: Seq<char>, part: Seq<char>, i: int)
    requires
        i >= 0,
        i + part.len() > s.len(),
    ensures
        first_place(s, part, i) is None,
    decreases s.len() + 1 - i,
{
    if i <= s.len() {
        lemma_too_long(s, part, i + 1);
    }
}

/// Trimming takes away all white space at the ends of a text, so trimming again changes
/// nothing.
pub proof fn lemma_trimmed(s: Seq<char>)
    ensures
        trimmed(s).len() > 0 ==> !is_space(trimmed(s)[0]) && !is_space(trimmed(s).last()),
        trimmed(trimmed(s)) == trimmed(s),
{
    lemma_trim_start(s);
    lemma_trim_end(trim_start(s));
}

proof fn lemma_trim_start(s: Seq<char>)
    ensures
        trim_start(s).len() > 0 ==> !is_space(trim_start(s)[0]),
    decreases s.len(),
{
    if s.len() > 0 && is_space(s[0]) {
        lemma_trim_start(s.skip(1));
    }
}

proof fn lemma_trim_end(s: Seq<char>)
    ensures
        trim_end(s).len() > 0 ==> !is_space(trim_end(s).last()) && trim_end(s)[0] == s[0],
    decreases s.len(),
{
    if s.len() > 0 && is_space(s.last()) {
        lemma_trim_end(s.drop_last());
    }
}

} // verus!
