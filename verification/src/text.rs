//! Text helpers shared by the whole library.

use vstd::prelude::*;

verus! {

/// Appending one character, as `String::push` documents it: the text grows by
/// that character at its end.
pub assume_specification[ std::string::String::push ](buffer: &mut std::string::String, character: char)
    ensures
        final(buffer)@ == old(buffer)@.push(character),
;

/// An owned copy of a text.
pub fn text(a: &str) -> (r: String)
    ensures
        r@ == a@,
{
    a.to_owned()
}

/// Two texts, one after the other.
pub fn text2(a: &str, b: &str) -> (r: String)
    ensures
        r@ == a@ + b@,
{
    let mut out: String = a.to_owned();
    out.append(b);
    out
}

/// Three texts, one after the other.
pub fn text3(a: &str, b: &str, c: &str) -> (r: String)
    ensures
        r@ == a@ + b@ + c@,
{
    let mut out: String = a.to_owned();
    out.append(b);
    out.append(c);
    out
}

/// Four texts, one after the other.
pub fn text4(a: &str, b: &str, c: &str, d: &str) -> (r: String)
    ensures
        r@ == a@ + b@ + c@ + d@,
{
    let mut out: String = a.to_owned();
    out.append(b);
    out.append(c);
    out.append(d);
    out
}

/// Five texts, one after the other.
pub fn text5(a: &str, b: &str, c: &str, d: &str, e: &str) -> (r: String)
    ensures
        r@ == a@ + b@ + c@ + d@ + e@,
{
    let mut out: String = a.to_owned();
    out.append(b);
    out.append(c);
    out.append(d);
    out.append(e);
    out
}

/// The characters of a text.
pub fn characters(s: &str) -> (r: Vec<char>)
    ensures
        r@ == s@,
{
    let mut out: Vec<char> = Vec::new();
    for c in it: s.chars()
        invariant
            out@ == it.seq().take(it.index() as int),
            it.seq() == s@,
    {
        out.push(c);
    }
    assert(out@ =~= s@);
    out
}

/// The text made of a range of characters.
pub fn substring(chars: &Vec<char>, from: usize, to: usize) -> (r: String)
    requires
        from <= to <= chars.len(),
    ensures
        r@ == chars@.subrange(from as int, to as int),
{
    let mut out: String = String::new();
    for i in from..to
        invariant
            from <= to <= chars.len(),
            out@ == chars@.subrange(from as int, i as int),
    {
        out.push(chars[i]);
        assert(chars@.subrange(from as int, i + 1) =~= chars@.subrange(from as int, i as int).push(chars@[i as int]));
    }
    out
}

/// One character with ASCII upper case folded to lower case.
pub open spec fn lower_char(c: char) -> char {
    if 'A' <= c <= 'Z' {
        ((c as u8) + 32) as char
    } else {
        c
    }
}

/// A text with ASCII upper case folded to lower case.
pub open spec fn lower(s: Seq<char>) -> Seq<char> {
    s.map_values(|c: char| lower_char(c))
}

/// Folds one character to ASCII lower case.
pub fn lower_char_of(c: char) -> (r: char)
    ensures
        r == lower_char(c),
{
    if 'A' <= c && c <= 'Z' {
        ((c as u8) + 32) as char
    } else {
        c
    }
}

/// Folds a text to ASCII lower case.
pub fn lowercase(s: &str) -> (r: String)
    ensures
        r@ == lower(s@),
{
    let mut out: String = String::new();
    for c in it: s.chars()
        invariant
            out@ == lower(it.seq().take(it.index() as int)),
            it.seq() == s@,
    {
        out.push(lower_char_of(c));
        assert(lower(it.seq().take(it.index() + 1)) =~= lower(it.seq().take(it.index() as int)).push(lower_char(c)));
    }
    assert(s@.take(s@.len() as int) =~= s@);
    out
}

/// Decides whether two texts are the same.
pub fn same_text(a: &str, b: &str) -> (r: bool)
    ensures
        r == (a@ == b@),
{
    text(a) == text(b)
}

/// Decides whether two texts agree up to ASCII case.
pub fn same_ignoring_case(a: &str, b: &str) -> (r: bool)
    ensures
        r == (lower(a@) == lower(b@)),
{
    lowercase(a) == lowercase(b)
}

/// The decimal digits of a number.
pub open spec fn decimal(n: nat) -> Seq<char>
    decreases n,
{
    if n < 10 {
        seq![(48 + n) as char]
    } else {
        decimal(n / 10).push((48 + n % 10) as char)
    }
}

fn digit(n: u64) -> (r: char)
    requires
        n < 10,
    ensures
        r == (48 + n) as char,
{
    ((48 + n) as u8) as char
}

/// Writes a number in decimal.
pub fn decimal_text(n: u64) -> (r: String)
    ensures
        r@ == decimal(n as nat),
    decreases n,
{
    let mut out: String = if n < 10 {
        String::new()
    } else {
        decimal_text(n / 10)
    };
    out.push(digit(n % 10));
    assert(out@ =~= decimal(n as nat));
    out
}

/// Writes a machine word in decimal.
pub fn index_text(n: usize) -> (r: String)
    ensures
        r@ == decimal(n as nat),
{
    decimal_text(n as u64)
}

/// Copies a vector of plain values.
pub fn copy_items<T: Copy>(v: &Vec<T>) -> (r: Vec<T>)
    ensures
        r@ == v@,
{
    let mut out: Vec<T> = Vec::new();
    for i in 0..v.len()
        invariant
            out@ == v@.take(i as int),
    {
        out.push(v[i]);
        assert(v@.take(i + 1) =~= v@.take(i as int).push(v@[i as int]));
    }
    assert(out@ =~= v@);
    out
}

/// The contents of a sequence of texts.
pub open spec fn strings(l: Seq<String>) -> Seq<Seq<char>> {
    Seq::new(l.len(), |i: int| l[i]@)
}

/// Copies a vector of texts.
pub fn clone_strings(l: &Vec<String>) -> (out: Vec<String>)
    ensures
        strings(out@) == strings(l@),
{
    let mut out: Vec<String> = Vec::new();
    for i in 0..l.len()
        invariant
            out.len() == i,
            forall|k: int| 0 <= k < i ==> out@[k]@ == l@[k]@,
    {
        out.push(l[i].clone());
    }
    assert(strings(out@) =~= strings(l@));
    out
}

/// Decides whether two vectors hold the same texts.
pub fn same_strings(a: &Vec<String>, b: &Vec<String>) -> (r: bool)
    ensures
        r == (strings(a@) == strings(b@)),
{
    if a.len() != b.len() {
        assert(strings(a@).len() != strings(b@).len());
        return false;
    }
    for i in 0..a.len()
        invariant
            a.len() == b.len(),
            forall|k: int| 0 <= k < i ==> a@[k]@ == b@[k]@,
    {
        if a[i] != b[i] {
            assert(strings(a@)[i as int] != strings(b@)[i as int]);
            return false;
        }
    }
    assert(strings(a@) =~= strings(b@));
    true
}

} // verus!
