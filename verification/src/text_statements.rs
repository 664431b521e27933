//! Reads procedures and refreshes of views from their text.

use vstd::prelude::*;

use crate::catalog::{RoutineArgumentMode, RoutineKind};
use crate::convert::statement_view;
use crate::literals::{contains_char, holds_char};
use crate::outside::text_view;
use crate::rewrite::make_statement;
use crate::scanning::{
    after, before, char_place, find_char, find_last, keyword_span, last_place, pieces, split_at, split_words, strip_prefix_like,
    strip_suffix_like, trim, trim_end, trim_tail, trimmed, unescape, unescaped, word_span, words,
};
use crate::scope::Checked;
use crate::sql_types::declared_view;
use crate::syntax::{
    ParsedIdentifier, ParsedIdentifierView, ParsedObjectName, ParsedObjectNameView, ParsedRoutineArgument, ParsedRoutineArgumentView,
    ParsedStatement, ParsedStatementView,
};
use crate::text::{characters, lower, same_ignoring_case, strings, substring, text, text2};
use crate::types::{
    error, unsupported, unsupported_error, DbError, DbErrorView, Identifier, Result, SYNTAX_ERROR, ScalarType, ScalarTypeView,
};

verus! {

fn is_empty(s: &str) -> (r: bool)
    ensures
        r == (s@.len() == 0),
{
    characters(s).len() == 0
}

/// Whether a text stands in double quotes.
pub open spec fn quoted(s: Seq<char>) -> bool {
    s.len() >= 2 && s[0] == '"' && s.last() == '"'
}

/// The text between the quotes.
pub open spec fn inner(s: Seq<char>) -> Seq<char> {
    s.subrange(1, s.len() - 1)
}

fn is_quoted(chars: &Vec<char>) -> (r: bool)
    ensures
        r == quoted(chars@),
{
    chars.len() >= 2 && chars[0] == '"' && chars[chars.len() - 1] == '"'
}

fn inner_chars(chars: &Vec<char>) -> (r: Vec<char>)
    requires
        chars@.len() >= 2,
    ensures
        r@ == inner(chars@),
{
    let mut out: Vec<char> = Vec::new();
    for i in 1..chars.len() - 1
        invariant
            chars@.len() >= 2,
            out@ =~= chars@.subrange(1, i as int),
    {
        out.push(chars[i]);
    }
    out
}

/// Whether a character can stand in an unquoted name.
pub open spec fn name_char(c: char) -> bool {
    ('a' <= c <= 'z') || ('A' <= c <= 'Z') || ('0' <= c <= '9') || c == '_' || c == '$'
}

fn is_name_char(c: char) -> (r: bool)
    ensures
        r == name_char(c),
{
    ('a' <= c && c <= 'z') || ('A' <= c && c <= 'Z') || ('0' <= c && c <= '9') || c == '_' || c == '$'
}

/// Whether all characters from a place on can stand in an unquoted name.
pub open spec fn word_like(s: Seq<char>, i: int) -> bool {
    forall|k: int| i <= k < s.len() ==> name_char(#[trigger] s[k])
}

fn is_word_like(chars: &Vec<char>, from: usize) -> (r: bool)
    ensures
        r == word_like(chars@, from as int),
{
    let mut i: usize = from;
    while i < chars.len()
        invariant
            from <= i,
            forall|k: int| from <= k < i ==> name_char(#[trigger] chars@[k]),
        decreases chars.len() - i,
    {
        if !is_name_char(chars[i]) {
            return false;
        }
        i = i + 1;
    }
    true
}

/// Whether a text is the unquoted name of a type.
pub open spec fn type_word(s: Seq<char>) -> bool {
    s.len() > 0 && (('a' <= s[0] <= 'z') || ('A' <= s[0] <= 'Z') || s[0] == '_') && word_like(s, 0)
}

fn is_type_word(chars: &Vec<char>) -> (r: bool)
    ensures
        r == type_word(chars@),
{
    if chars.len() == 0 {
        return false;
    }
    let c = chars[0];
    (('a' <= c && c <= 'z') || ('A' <= c && c <= 'Z') || c == '_') && is_word_like(chars, 0)
}

/// The error of a text that names no type.
pub open spec fn bad_type_name(value: Seq<char>) -> DbErrorView {
    error(SYNTAX_ERROR@, "invalid procedure argument type name "@ + value)
}

fn no_type_name(value: &str) -> (r: DbError)
    ensures
        r@ == bad_type_name(value@),
{
    DbError::new(SYNTAX_ERROR, text2("invalid procedure argument type name ", value))
}

/// Whether two texts are the same in any case.
pub open spec fn like(a: Seq<char>, b: Seq<char>) -> bool {
    lower(a) == lower(b)
}

/// The built-in type that a text names.
#[verifier::opaque]
pub open spec fn named_type(s: Seq<char>) -> Option<ScalarTypeView> {
    if like(s, "BOOL"@) || like(s, "BOOLEAN"@) {
        Some(ScalarTypeView::Boolean)
    } else if like(s, "SMALLINT"@) || like(s, "INT2"@) {
        Some(ScalarTypeView::Int16)
    } else if like(s, "INT"@) || like(s, "INTEGER"@) || like(s, "INT4"@) {
        Some(ScalarTypeView::Int32)
    } else if like(s, "BIGINT"@) || like(s, "INT8"@) {
        Some(ScalarTypeView::Int64)
    } else if like(s, "REAL"@) || like(s, "FLOAT4"@) {
        Some(ScalarTypeView::Float32)
    } else if like(s, "DOUBLE PRECISION"@) || like(s, "FLOAT8"@) {
        Some(ScalarTypeView::Float64)
    } else if like(s, "TEXT"@) {
        Some(ScalarTypeView::Text)
    } else if like(s, "UUID"@) {
        Some(ScalarTypeView::Uuid)
    } else if like(s, "JSON"@) {
        Some(ScalarTypeView::Json)
    } else if like(s, "JSONB"@) {
        Some(ScalarTypeView::Jsonb)
    } else {
        None
    }
}

fn find_named_type(s: &str) -> (r: Option<ScalarType>)
    ensures
        ScalarType::opt(r) == named_type(s@),
{
    reveal(named_type);
    if same_ignoring_case(s, "BOOL") || same_ignoring_case(s, "BOOLEAN") {
        Some(ScalarType::Boolean)
    } else if same_ignoring_case(s, "SMALLINT") || same_ignoring_case(s, "INT2") {
        Some(ScalarType::Int16)
    } else if same_ignoring_case(s, "INT") || same_ignoring_case(s, "INTEGER") || same_ignoring_case(s, "INT4") {
        Some(ScalarType::Int32)
    } else if same_ignoring_case(s, "BIGINT") || same_ignoring_case(s, "INT8") {
        Some(ScalarType::Int64)
    } else if same_ignoring_case(s, "REAL") || same_ignoring_case(s, "FLOAT4") {
        Some(ScalarType::Float32)
    } else if same_ignoring_case(s, "DOUBLE PRECISION") || same_ignoring_case(s, "FLOAT8") {
        Some(ScalarType::Float64)
    } else if same_ignoring_case(s, "TEXT") {
        Some(ScalarType::Text)
    } else if same_ignoring_case(s, "UUID") {
        Some(ScalarType::Uuid)
    } else if same_ignoring_case(s, "JSON") {
        Some(ScalarType::Json)
    } else if same_ignoring_case(s, "JSONB") {
        Some(ScalarType::Jsonb)
    } else {
        None
    }
}

/// The text of the element type of an array.
pub open spec fn element_text(s: Seq<char>) -> Option<Seq<char>> {
    if s.len() >= 2 && s[s.len() - 2] == '[' && s[s.len() - 1] == ']' {
        Some(s.take(s.len() - 2))
    } else {
        None
    }
}

fn strip_array(s: &str) -> (r: Option<String>)
    ensures
        text_view(r) == element_text(s@),
{
    let chars = characters(s);
    let n: usize = chars.len();
    if n >= 2 && chars[n - 2] == '[' && chars[n - 1] == ']' {
        assert(chars@.subrange(0, n - 2) =~= chars@.take(n - 2));
        Some(substring(&chars, 0, n - 2))
    } else {
        None
    }
}

/// Whether the declaration of an argument has a default.
pub open spec fn defaulted(w: Seq<Seq<char>>) -> bool {
    exists|i: int| 0 <= i < w.len() && (like(#[trigger] w[i], "DEFAULT"@) || holds_char(w[i], '='))
}

fn is_defaulted(w: &Vec<String>) -> (r: bool)
    ensures
        r == defaulted(strings(w@)),
{
    let ghost v = strings(w@);
    for i in 0..w.len()
        invariant
            v == strings(w@),
            forall|k: int| 0 <= k < i ==> !(like(#[trigger] v[k], "DEFAULT"@) || holds_char(v[k], '=')),
    {
        assert(v[i as int] == w@[i as int]@);
        if same_ignoring_case(w[i].as_str(), "DEFAULT") || contains_char(w[i].as_str(), '=') {
            return true;
        }
    }
    false
}

/// The mode that a word names.
pub open spec fn mode_named(s: Seq<char>) -> Option<RoutineArgumentMode> {
    if like(s, "IN"@) {
        Some(RoutineArgumentMode::In)
    } else if like(s, "OUT"@) {
        Some(RoutineArgumentMode::Out)
    } else if like(s, "INOUT"@) {
        Some(RoutineArgumentMode::InOut)
    } else if like(s, "VARIADIC"@) {
        Some(RoutineArgumentMode::Variadic)
    } else {
        None
    }
}

/// Reads the mode that a word names.
pub fn parse_routine_argument_mode(s: &str) -> (r: Option<RoutineArgumentMode>)
    ensures
        r == mode_named(s@),
{
    if same_ignoring_case(s, "IN") {
        Some(RoutineArgumentMode::In)
    } else if same_ignoring_case(s, "OUT") {
        Some(RoutineArgumentMode::Out)
    } else if same_ignoring_case(s, "INOUT") {
        Some(RoutineArgumentMode::InOut)
    } else if same_ignoring_case(s, "VARIADIC") {
        Some(RoutineArgumentMode::Variadic)
    } else {
        None
    }
}

/// Whether a declaration starts with a mode.
pub open spec fn has_mode(w: Seq<Seq<char>>) -> bool {
    w.len() > 0 && mode_named(w[0]) is Some
}

/// The mode of a declaration.
pub open spec fn mode_of(w: Seq<Seq<char>>) -> RoutineArgumentMode {
    if has_mode(w) {
        mode_named(w[0])->0
    } else {
        RoutineArgumentMode::In
    }
}

fn leading_mode(w: &Vec<String>) -> (r: RoutineArgumentMode)
    ensures
        r == mode_of(strings(w@)),
{
    if w.len() > 0 {
        assert(strings(w@)[0] == w@[0]@);
        if let Some(m) = parse_routine_argument_mode(w[0].as_str()) {
            return m;
        }
    }
    RoutineArgumentMode::In
}

/// How a declaration reads.
pub enum Declaration {
    Right { name: Option<Identifier>, type_text: String },
    WrongType,
    Wrong,
}

/// Mathematical contents of a [`Declaration`].
pub enum DeclarationView {
    Right { name: Option<Seq<char>>, type_text: Seq<char> },
    WrongType,
    Wrong,
}

impl Declaration {
    /// The value as mathematical data.
    pub open spec fn view(&self) -> DeclarationView {
        match *self {
            Declaration::Right { name, type_text } => DeclarationView::Right {
                name: match name {
                    Some(n) => Some(n@),
                    None => None,
                },
                type_text: type_text@,
            },
            Declaration::WrongType => DeclarationView::WrongType,
            Declaration::Wrong => DeclarationView::Wrong,
        }
    }
}

/// How the words of a declaration read.
#[verifier::opaque]
pub open spec fn declaration(w: Seq<Seq<char>>) -> DeclarationView {
    let rest = if has_mode(w) {
        w.skip(1)
    } else {
        w
    };
    if rest.len() == 1 {
        DeclarationView::Right { name: None, type_text: rest[0] }
    } else if rest.len() == 2 {
        if like(rest[0], "DOUBLE"@) && like(rest[1], "PRECISION"@) {
            DeclarationView::Right { name: None, type_text: "DOUBLE PRECISION"@ }
        } else {
            DeclarationView::Right { name: Some(lower(rest[0])), type_text: rest[1] }
        }
    } else if rest.len() == 3 && like(rest[1], "DOUBLE"@) {
        if like(rest[2], "PRECISION"@) {
            DeclarationView::Right { name: Some(lower(rest[0])), type_text: "DOUBLE PRECISION"@ }
        } else {
            DeclarationView::WrongType
        }
    } else {
        DeclarationView::Wrong
    }
}

fn read_declaration(w: &Vec<String>) -> (r: Declaration)
    ensures
        r@ == declaration(strings(w@)),
{
    reveal(declaration);
    let ghost v = strings(w@);
    let first: usize = if w.len() > 0 && parse_routine_argument_mode(w[0].as_str()).is_some() {
        1
    } else {
        0
    };
    assert(w@.len() > 0 ==> v[0] == w@[0]@);
    assert(w@.len() > 1 ==> v[1] == w@[1]@);
    assert(w@.len() > 2 ==> v[2] == w@[2]@);
    assert(w@.len() > 3 ==> v[3] == w@[3]@);
    let n: usize = w.len() - first;
    if n == 1 {
        Declaration::Right { name: None, type_text: w[first].clone() }
    } else if n == 2 {
        if same_ignoring_case(w[first].as_str(), "DOUBLE") && same_ignoring_case(w[first + 1].as_str(), "PRECISION") {
            Declaration::Right { name: None, type_text: text("DOUBLE PRECISION") }
        } else {
            Declaration::Right { name: Some(Identifier::unquoted(w[first].as_str())), type_text: w[first + 1].clone() }
        }
    } else if n == 3 && same_ignoring_case(w[first + 1].as_str(), "DOUBLE") {
        if same_ignoring_case(w[first + 2].as_str(), "PRECISION") {
            Declaration::Right { name: Some(Identifier::unquoted(w[first].as_str())), type_text: text("DOUBLE PRECISION") }
        } else {
            Declaration::WrongType
        }
    } else {
        Declaration::Wrong
    }
}

fn no_arguments() -> (r: Vec<ParsedRoutineArgument>)
    ensures
        ParsedRoutineArgument::views(r@) == Seq::<ParsedRoutineArgumentView>::empty(),
{
    let l: Vec<ParsedRoutineArgument> = Vec::new();
    assert(ParsedRoutineArgument::views(l@) =~= Seq::empty());
    l
}

/// Whether the characters of a range can tag dollar quotes.
pub open spec fn tag_like(s: Seq<char>, from: int, to: int) -> bool {
    forall|k: int| from <= k < to ==> name_char(#[trigger] s[k]) && s[k] != '$'
}

fn is_tag_like(chars: &Vec<char>, from: usize, to: usize) -> (r: bool)
    requires
        from <= to <= chars@.len(),
    ensures
        r == tag_like(chars@, from as int, to as int),
{
    for i in from..to
        invariant
            from <= to <= chars@.len(),
            forall|k: int| from <= k < i ==> name_char(#[trigger] chars@[k]) && chars@[k] != '$',
    {
        if !is_name_char(chars[i]) || chars[i] == '$' {
            return false;
        }
    }
    true
}

/// Whether words are exactly some others in any case.
pub open spec fn same_words(w: Seq<Seq<char>>, expected: Seq<Seq<char>>) -> bool {
    w.len() == expected.len() && forall|i: int| 0 <= i < w.len() ==> like(#[trigger] w[i], expected[i])
}

/// Whether the options of a procedure are supported.
pub open spec fn supported_options(w: Seq<Seq<char>>) -> bool {
    w.len() == 0 || same_words(w, seq!["LANGUAGE"@, "plpgsql"@]) || same_words(w, seq!["LANGUAGE"@, "plpgsql"@, "SECURITY"@, "INVOKER"@])
}

fn has_supported_options(w: &Vec<String>) -> (r: bool)
    ensures
        r == supported_options(strings(w@)),
{
    let ghost v = strings(w@);
    assert(w@.len() > 0 ==> v[0] == w@[0]@);
    assert(w@.len() > 1 ==> v[1] == w@[1]@);
    assert(w@.len() > 2 ==> v[2] == w@[2]@);
    assert(w@.len() > 3 ==> v[3] == w@[3]@);
    if w.len() == 0 {
        return true;
    }
    if w.len() == 2 {
        let r = same_ignoring_case(w[0].as_str(), "LANGUAGE") && same_ignoring_case(w[1].as_str(), "plpgsql");
        assert(r ==> same_words(v, seq!["LANGUAGE"@, "plpgsql"@]));
        assert(!r ==> !like(v[0], seq!["LANGUAGE"@, "plpgsql"@][0]) || !like(v[1], seq!["LANGUAGE"@, "plpgsql"@][1]));
        return r;
    }
    if w.len() == 4 {
        let r = same_ignoring_case(w[0].as_str(), "LANGUAGE") && same_ignoring_case(w[1].as_str(), "plpgsql") && same_ignoring_case(
            w[2].as_str(),
            "SECURITY",
        ) && same_ignoring_case(w[3].as_str(), "INVOKER");
        let ghost e = seq!["LANGUAGE"@, "plpgsql"@, "SECURITY"@, "INVOKER"@];
        assert(r ==> same_words(v, e));
        assert(!r ==> !like(v[0], e[0]) || !like(v[1], e[1]) || !like(v[2], e[2]) || !like(v[3], e[3]));
        return r;
    }
    false
}

/// The name of the view to refresh, and whether it gets data.
pub open spec fn refresh_target(s: Seq<char>) -> (Seq<char>, bool) {
    match before(s, " WITH NO DATA"@) {
        Some(t) => (trim_end(t), false),
        None => match before(s, " WITH DATA"@) {
            Some(t) => (trim_end(t), true),
            None => (s, true),
        },
    }
}

fn split_refresh_target(s: &str) -> (r: (String, bool))
    ensures
        (r.0@, r.1) == refresh_target(s@),
{
    match strip_suffix_like(s, " WITH NO DATA") {
        Some(t) => (trim_tail(t.as_str()), false),
        None => match strip_suffix_like(s, " WITH DATA") {
            Some(t) => (trim_tail(t.as_str()), true),
            None => (text(s), true),
        },
    }
}

/// The text of a CREATE MATERIALIZED VIEW without the words about its data.
#[verifier::opaque]
pub open spec fn view_text(sql: Seq<char>) -> Seq<char> {
    let s = trimmed(sql);
    let s = if s.len() > 0 && s.last() == ';' {
        trim_end(s.drop_last())
    } else {
        trim_end(s)
    };
    if after(s, "CREATE MATERIALIZED VIEW "@) is None {
        sql
    } else {
        match before(s, " WITH NO DATA"@) {
            Some(t) => trim_end(t),
            None => match before(s, " WITH DATA"@) {
                Some(t) => trim_end(t),
                None => sql,
            },
        }
    }
}

/// Takes the words about its data off a CREATE MATERIALIZED VIEW.
pub fn materialized_view_parser_sql(sql: &str) -> (r: String)
    ensures
        r@ == view_text(sql@),
{
    reveal(view_text);
    let s = trim(sql);
    let chars = characters(s.as_str());
    let n: usize = chars.len();
    let s = if n > 0 && chars[n - 1] == ';' {
        assert(chars@.subrange(0, n - 1) =~= s@.drop_last());
        trim_tail(substring(&chars, 0, n - 1).as_str())
    } else {
        trim_tail(s.as_str())
    };
    if strip_prefix_like(s.as_str(), "CREATE MATERIALIZED VIEW ").is_none() {
        return text(sql);
    }
    match strip_suffix_like(s.as_str(), " WITH NO DATA") {
        Some(t) => trim_tail(t.as_str()),
        None => match strip_suffix_like(s.as_str(), " WITH DATA") {
            Some(t) => trim_tail(t.as_str()),
            None => text(sql),
        },
    }
}

/// A part of a dotted name in a text.
#[verifier::opaque]
pub open spec fn simple_part(value: Seq<char>) -> Checked<ParsedIdentifierView> {
    let part = trimmed(value);
    {
        let chars = part;
        if chars.len() == 0 {
            Err(error(SYNTAX_ERROR@, "object name has an empty part"@))
        } else if quoted(chars) {
            Ok(ParsedIdentifierView { name: unescaped(inner(chars), 0, Seq::empty()), position: None })
        } else if word_like(chars, 0) {
            Ok(ParsedIdentifierView { name: lower(part), position: None })
        } else {
            Err(error(SYNTAX_ERROR@, "invalid object-name part "@ + part))
        }
    }
}

/// Reads a part of a dotted name.
fn parse_simple_part(value: &str) -> (r: Result<ParsedIdentifier>)
    ensures
        (match r {
            Ok(x) => Ok(x@),
            Err(x) => Err(x@),
        }) == simple_part(value@),
{
    reveal(simple_part);
    let part = trim(value);
    let chars = characters(part.as_str());
    if chars.len() == 0 {
        return Err(DbError::new(SYNTAX_ERROR, text("object name has an empty part")));
    }
    if is_quoted(&chars) {
        Ok(ParsedIdentifier { name: Identifier::quoted(unescape(&inner_chars(&chars)).as_str()), position: None })
    } else if is_word_like(&chars, 0) {
        Ok(ParsedIdentifier { name: Identifier::unquoted(part.as_str()), position: None })
    } else {
        Err(DbError::new(SYNTAX_ERROR, text2("invalid object-name part ", part.as_str())))
    }
}

/// The parts of a dotted name in a text, from one of them on.
pub open spec fn simple_parts(l: Seq<Seq<char>>, i: int, done: Seq<ParsedIdentifierView>) -> Checked<Seq<ParsedIdentifierView>>
    decreases l.len() - i,
{
    if i < 0 || i >= l.len() {
        Ok(done)
    } else {
        match simple_part(l[i]) {
            Err(x) => Err(x),
            Ok(b) => simple_parts(l, i + 1, done.push(b)),
        }
    }
}

/// Reads the parts of a dotted name.
fn parse_simple_parts(l: &Vec<String>) -> (r: Result<Vec<ParsedIdentifier>>)
    ensures
        (match r {
            Ok(x) => Ok(ParsedIdentifier::views(x@)),
            Err(x) => Err(x@),
        }) == simple_parts(strings(l@), 0, Seq::empty()),
        r matches Ok(x) ==> x@.len() == l@.len(),
{
    let ghost v = strings(l@);
    let mut out: Vec<ParsedIdentifier> = Vec::new();
    assert(ParsedIdentifier::views(out@) =~= Seq::empty());
    for i in 0..l.len()
        invariant
            v == strings(l@),
            out@.len() == i,
            simple_parts(v, 0, Seq::empty()) == simple_parts(v, i as int, ParsedIdentifier::views(out@)),
    {
        assert(v[i as int] == l@[i as int]@);
        let ghost before = ParsedIdentifier::views(out@);
        let x = parse_simple_part(l[i].as_str())?;
        out.push(x);
        assert(ParsedIdentifier::views(out@) =~= before.push(x@));
    }
    Ok(out)
}

/// A dotted name in a text.
#[verifier::opaque]
pub open spec fn simple_object(value: Seq<char>) -> Checked<ParsedObjectNameView> {
    if value.len() == 0 {
        Err(error(SYNTAX_ERROR@, "object name is empty"@))
    } else {
        match simple_parts(pieces(value, '.'), 0, Seq::empty()) {
            Err(x) => Err(x),
            Ok(parts) => if parts.len() > 2 {
                Err(unsupported_error("database-qualified object names are not supported"@, None))
            } else {
                Ok(ParsedObjectNameView { parts })
            },
        }
    }
}

/// Reads a dotted name.
pub fn parse_simple_object_name(value: &str) -> (r: Result<ParsedObjectName>)
    ensures
        (match r {
            Ok(x) => Ok(x@),
            Err(x) => Err(x@),
        }) == simple_object(value@),
{
    reveal(simple_object);
    if is_empty(value) {
        return Err(DbError::new(SYNTAX_ERROR, text("object name is empty")));
    }
    let parts = parse_simple_parts(&split_at(value, '.'))?;
    if parts.len() > 2 {
        return Err(unsupported("database-qualified object names are not supported"));
    }
    Ok(ParsedObjectName { parts })
}

/// A part of the name of a type in a text.
#[verifier::opaque]
pub open spec fn type_part(value: Seq<char>, whole: Seq<char>) -> Checked<ParsedIdentifierView> {
    let chars = value;
    if quoted(chars) {
        {
            let name = inner(chars);
            if name.len() == 0 {
                Err(bad_type_name(whole))
            } else {
                Ok(ParsedIdentifierView { name, position: None })
            }
        }
    } else if type_word(chars) {
        Ok(ParsedIdentifierView { name: lower(value), position: None })
    } else {
        Err(bad_type_name(whole))
    }
}

/// Reads a part of the name of a type.
fn parse_type_part(value: &str, whole: &str) -> (r: Result<ParsedIdentifier>)
    ensures
        (match r {
            Ok(x) => Ok(x@),
            Err(x) => Err(x@),
        }) == type_part(value@, whole@),
{
    reveal(type_part);
    let chars = characters(value);
    if is_quoted(&chars) {
        let name = inner_chars(&chars);
        assert(name@.subrange(0, name@.len() as int) =~= name@);
        if name.len() == 0 {
            return Err(no_type_name(whole));
        }
        Ok(ParsedIdentifier { name: Identifier::quoted(substring(&name, 0, name.len()).as_str()), position: None })
    } else if is_type_word(&chars) {
        Ok(ParsedIdentifier { name: Identifier::unquoted(value), position: None })
    } else {
        Err(no_type_name(whole))
    }
}

/// The parts of the name of a type in a text, from one of them on.
pub open spec fn type_parts(
    l: Seq<Seq<char>>,
    whole: Seq<char>,
    i: int,
    done: Seq<ParsedIdentifierView>,
) -> Checked<Seq<ParsedIdentifierView>>
    decreases l.len() - i,
{
    if i < 0 || i >= l.len() {
        Ok(done)
    } else {
        match type_part(l[i], whole) {
            Err(x) => Err(x),
            Ok(b) => type_parts(l, whole, i + 1, done.push(b)),
        }
    }
}

/// Reads the parts of the name of a type.
fn parse_type_parts(l: &Vec<String>, whole: &str) -> (r: Result<Vec<ParsedIdentifier>>)
    ensures
        (match r {
            Ok(x) => Ok(ParsedIdentifier::views(x@)),
            Err(x) => Err(x@),
        }) == type_parts(strings(l@), whole@, 0, Seq::empty()),
        r matches Ok(x) ==> x@.len() == l@.len(),
{
    let ghost v = strings(l@);
    let mut out: Vec<ParsedIdentifier> = Vec::new();
    assert(ParsedIdentifier::views(out@) =~= Seq::empty());
    for i in 0..l.len()
        invariant
            v == strings(l@),
            out@.len() == i,
            type_parts(v, whole@, 0, Seq::empty()) == type_parts(v, whole@, i as int, ParsedIdentifier::views(out@)),
    {
        assert(v[i as int] == l@[i as int]@);
        let ghost before = ParsedIdentifier::views(out@);
        let x = parse_type_part(l[i].as_str(), whole)?;
        out.push(x);
        assert(ParsedIdentifier::views(out@) =~= before.push(x@));
    }
    Ok(out)
}

/// The type that a text names, which is no array.
#[verifier::opaque]
pub open spec fn plain_type(value: Seq<char>) -> Checked<(ScalarTypeView, Option<ParsedObjectNameView>)> {
    match named_type(value) {
        Some(t) => Ok((t, None)),
        None => match type_parts(pieces(value, '.'), value, 0, Seq::empty()) {
            Err(x) => Err(x),
            Ok(parts) => if parts.len() > 2 {
                Err(unsupported_error("procedure argument type names support at most one schema"@, None))
            } else {
                Ok((ScalarTypeView::Text, Some(ParsedObjectNameView { parts })))
            },
        },
    }
}

/// Reads a type that is no array.
fn parse_plain_type(value: &str) -> (r: Result<(ScalarType, Option<ParsedObjectName>)>)
    ensures
        (match r {
            Ok(x) => Ok(declared_view(x)),
            Err(x) => Err(x@),
        }) == plain_type(value@),
{
    reveal(plain_type);
    match find_named_type(value) {
        Some(t) => {
            Ok((t, None))
        },
        None => {
            let parts = parse_type_parts(&split_at(value, '.'), value)?;
            if parts.len() > 2 {
                return Err(unsupported("procedure argument type names support at most one schema"));
            }
            Ok((ScalarType::Text, Some(ParsedObjectName { parts })))
        },
    }
}

/// The type that a text names.
#[verifier::opaque]
pub open spec fn procedure_type(value: Seq<char>) -> Checked<(ScalarTypeView, Option<ParsedObjectNameView>)> {
    match element_text(value) {
        None => plain_type(value),
        Some(element) => match plain_type(element) {
            Err(x) => Err(x),
            Ok((t, n)) => Ok((ScalarTypeView::Array { element: Box::new(t) }, n)),
        },
    }
}

/// Reads a type.
pub fn parse_procedure_data_type(value: &str) -> (r: Result<(ScalarType, Option<ParsedObjectName>)>)
    ensures
        (match r {
            Ok(x) => Ok(declared_view(x)),
            Err(x) => Err(x@),
        }) == procedure_type(value@),
{
    reveal(procedure_type);
    match strip_array(value) {
        None => {
            parse_plain_type(value)
        },
        Some(element) => {
            let (t, n) = parse_plain_type(element.as_str())?;
            Ok((ScalarType::Array { element: Box::new(t) }, n))
        },
    }
}

/// An argument of a procedure.
#[verifier::opaque]
pub open spec fn argument_of(value: Seq<char>) -> Checked<ParsedRoutineArgumentView> {
    let w = words(value);
    if defaulted(w) {
        Err(unsupported_error("defaulted procedure arguments are not supported yet"@, None))
    } else {
        match declaration(w) {
            DeclarationView::WrongType => Err(unsupported_error("unsupported procedure argument type"@, None)),
            DeclarationView::Wrong => Err(unsupported_error("unsupported procedure argument declaration"@, None)),
            DeclarationView::Right { name, type_text } => match procedure_type(type_text) {
                Err(x) => Err(x),
                Ok((data_type, declared_type)) => Ok(ParsedRoutineArgumentView { name, data_type, declared_type, mode: mode_of(w) }),
            },
        }
    }
}

/// Reads an argument of a procedure.
fn parse_procedure_argument(value: &str) -> (r: Result<ParsedRoutineArgument>)
    ensures
        (match r {
            Ok(x) => Ok(x@),
            Err(x) => Err(x@),
        }) == argument_of(value@),
{
    reveal(argument_of);
    let w = split_words(value);
    if is_defaulted(&w) {
        return Err(unsupported("defaulted procedure arguments are not supported yet"));
    }
    match read_declaration(&w) {
        Declaration::WrongType => {
            Err(unsupported("unsupported procedure argument type"))
        },
        Declaration::Wrong => {
            Err(unsupported("unsupported procedure argument declaration"))
        },
        Declaration::Right { name, type_text } => {
            let (data_type, declared_type) = parse_procedure_data_type(type_text.as_str())?;
            Ok(ParsedRoutineArgument { name, data_type, declared_type, mode: leading_mode(&w) })
        },
    }
}

/// The arguments of a procedure, from one of them on.
pub open spec fn arguments_from(l: Seq<Seq<char>>, i: int, done: Seq<ParsedRoutineArgumentView>) -> Checked<Seq<ParsedRoutineArgumentView>>
    decreases l.len() - i,
{
    if i < 0 || i >= l.len() {
        Ok(done)
    } else {
        match argument_of(l[i]) {
            Err(x) => Err(x),
            Ok(b) => arguments_from(l, i + 1, done.push(b)),
        }
    }
}

/// Reads the arguments of a procedure.
fn parse_argument_list(l: &Vec<String>) -> (r: Result<Vec<ParsedRoutineArgument>>)
    ensures
        (match r {
            Ok(x) => Ok(ParsedRoutineArgument::views(x@)),
            Err(x) => Err(x@),
        }) == arguments_from(strings(l@), 0, Seq::empty()),
        r matches Ok(x) ==> x@.len() == l@.len(),
{
    let ghost v = strings(l@);
    let mut out: Vec<ParsedRoutineArgument> = Vec::new();
    assert(ParsedRoutineArgument::views(out@) =~= Seq::empty());
    for i in 0..l.len()
        invariant
            v == strings(l@),
            out@.len() == i,
            arguments_from(v, 0, Seq::empty()) == arguments_from(v, i as int, ParsedRoutineArgument::views(out@)),
    {
        assert(v[i as int] == l@[i as int]@);
        let ghost before = ParsedRoutineArgument::views(out@);
        let x = parse_procedure_argument(l[i].as_str())?;
        out.push(x);
        assert(ParsedRoutineArgument::views(out@) =~= before.push(x@));
    }
    Ok(out)
}

/// The arguments of a procedure in a text.
#[verifier::opaque]
pub open spec fn arguments_of(value: Seq<char>) -> Checked<Seq<ParsedRoutineArgumentView>> {
    if trimmed(value).len() == 0 {
        {
            let none = Seq::<ParsedRoutineArgumentView>::empty();
            Ok(none)
        }
    } else {
        arguments_from(pieces(value, ','), 0, Seq::empty())
    }
}

/// Reads the arguments of a procedure.
pub fn parse_procedure_arguments(value: &str) -> (r: Result<Vec<ParsedRoutineArgument>>)
    ensures
        (match r {
            Ok(x) => Ok(ParsedRoutineArgument::views(x@)),
            Err(x) => Err(x@),
        }) == arguments_of(value@),
{
    reveal(arguments_of);
    if is_empty(trim(value).as_str()) {
        let none = no_arguments();
        Ok(none)
    } else {
        parse_argument_list(&split_at(value, ','))
    }
}

/// The body between dollar quotes.
#[verifier::opaque]
pub open spec fn dollar_body(value: Seq<char>) -> Checked<Seq<char>> {
    let chars = value;
    if !(chars.len() > 0 && chars[0] == '$') {
        Err(error(SYNTAX_ERROR@, "procedure body must be dollar quoted"@))
    } else {
        match char_place(chars, '$', 1) {
            None => Err(error(SYNTAX_ERROR@, "invalid dollar-quote delimiter"@)),
            Some(end) => if !tag_like(chars, 1, end) {
                Err(error(SYNTAX_ERROR@, "invalid dollar-quote delimiter"@))
            } else {
                match last_place(chars.skip(end + 1), chars.subrange(0, end + 1), chars.len() - (end + 1)) {
                    None => Err(error(SYNTAX_ERROR@, "unterminated dollar-quoted body"@)),
                    Some(at) => if trimmed(chars.skip(at + 2 * (end + 1))).len() > 0 {
                        Err(error(SYNTAX_ERROR@, "unexpected SQL after procedure body"@))
                    } else {
                        Ok(chars.subrange(end + 1, at + (end + 1)))
                    },
                }
            },
        }
    }
}

/// Reads the body between dollar quotes.
pub fn parse_dollar_quoted_body(value: &str) -> (r: Result<String>)
    ensures
        (match r {
            Ok(x) => Ok(x@),
            Err(x) => Err(x@),
        }) == dollar_body(value@),
{
    reveal(dollar_body);
    let chars = characters(value);
    if !(chars.len() > 0 && chars[0] == '$') {
        return Err(DbError::new(SYNTAX_ERROR, text("procedure body must be dollar quoted")));
    }
    match find_char(&chars, '$', 1) {
        None => {
            Err(DbError::new(SYNTAX_ERROR, text("invalid dollar-quote delimiter")))
        },
        Some(end) => {
            if !is_tag_like(&chars, 1, end) {
                return Err(DbError::new(SYNTAX_ERROR, text("invalid dollar-quote delimiter")));
            }
            match find_last(&chars, substring(&chars, 0, end + 1).as_str(), end + 1) {
                None => {
                    Err(DbError::new(SYNTAX_ERROR, text("unterminated dollar-quoted body")))
                },
                Some(at) => {
                    assert(chars@.subrange(at + (end + 1), chars@.len() as int) =~= chars@.skip(at + (end + 1)));
                if !is_empty(trim(substring(&chars, at + (end + 1), chars.len()).as_str()).as_str()) {
                        return Err(DbError::new(SYNTAX_ERROR, text("unexpected SQL after procedure body")));
                    }
                    Ok(substring(&chars, end + 1, at))
                },
            }
        },
    }
}

/// The body of a procedure behind its arguments.
#[verifier::opaque]
pub open spec fn procedure_tail(value: Seq<char>) -> Checked<Seq<char>> {
    let chars = value;
    match word_span(chars, "AS"@, 0) {
        None => Err(error(SYNTAX_ERROR@, "CREATE PROCEDURE requires AS body"@)),
        Some((from, to)) => if !supported_options(words(chars.subrange(0, from))) {
            Err(unsupported_error("only LANGUAGE plpgsql SECURITY INVOKER procedures are supported"@, None))
        } else {
            dollar_body(trimmed(chars.skip(to)))
        },
    }
}

/// Reads the body of a procedure behind its arguments.
fn parse_procedure_tail(value: &str) -> (r: Result<String>)
    ensures
        (match r {
            Ok(x) => Ok(x@),
            Err(x) => Err(x@),
        }) == procedure_tail(value@),
{
    reveal(procedure_tail);
    let chars = characters(value);
    match keyword_span(&chars, "AS") {
        None => {
            Err(DbError::new(SYNTAX_ERROR, text("CREATE PROCEDURE requires AS body")))
        },
        Some((from, to)) => {
            if !has_supported_options(&split_words(substring(&chars, 0, from).as_str())) {
                return Err(unsupported("only LANGUAGE plpgsql SECURITY INVOKER procedures are supported"));
            }
            assert(chars@.subrange(to as int, chars@.len() as int) =~= chars@.skip(to as int));
            parse_dollar_quoted_body(trim(substring(&chars, to, chars.len()).as_str()).as_str())
        },
    }
}

/// A CREATE PROCEDURE behind its first words.
#[verifier::opaque]
pub open spec fn procedure_from(value: Seq<char>, replace: bool) -> Checked<ParsedStatementView> {
    let chars = value;
    match char_place(chars, '(', 0) {
        None => Err(error(SYNTAX_ERROR@, "CREATE PROCEDURE requires arguments"@)),
        Some(open) => match char_place(chars, ')', open + 1) {
            None => Err(error(SYNTAX_ERROR@, "unterminated procedure argument list"@)),
            Some(close) => match simple_object(trimmed(chars.subrange(0, open))) {
                Err(x) => Err(x),
                Ok(name) => match arguments_of(chars.subrange(open + 1, close)) {
                    Err(x) => Err(x),
                    Ok(arguments) => match procedure_tail(trimmed(chars.skip(close + 1))) {
                        Err(x) => Err(x),
                        Ok(body) => Ok(
                            ParsedStatementView::CreateRoutine {
                                name,
                                kind: RoutineKind::Procedure,
                                arguments,
                                return_type: None,
                                return_declared_type: None,
                                returns_set: false,
                                language: "plpgsql"@,
                                body,
                                replace,
                            },
                        ),
                    },
                },
            },
        },
    }
}

/// Reads a CREATE PROCEDURE behind its first words.
fn parse_procedure(value: &str, replace: bool) -> (r: Result<ParsedStatement>)
    ensures
        (match r {
            Ok(x) => Ok(x@),
            Err(x) => Err(x@),
        }) == procedure_from(value@, replace),
{
    reveal(procedure_from);
    let chars = characters(value);
    match find_char(&chars, '(', 0) {
        None => {
            Err(DbError::new(SYNTAX_ERROR, text("CREATE PROCEDURE requires arguments")))
        },
        Some(open) => {
            match find_char(&chars, ')', open + 1) {
                None => {
                    Err(DbError::new(SYNTAX_ERROR, text("unterminated procedure argument list")))
                },
                Some(close) => {
                    let name = parse_simple_object_name(trim(substring(&chars, 0, open).as_str()).as_str())?;
                    let arguments = parse_procedure_arguments(substring(&chars, open + 1, close).as_str())?;
                    assert(chars@.subrange(close + 1, chars@.len() as int) =~= chars@.skip(close + 1));
            let body = parse_procedure_tail(trim(substring(&chars, close + 1, chars.len()).as_str()).as_str())?;
                    Ok(
                        make_statement(
                            ParsedStatement::CreateRoutine {
                                name,
                                kind: RoutineKind::Procedure,
                                arguments,
                                return_type: None,
                                return_declared_type: None,
                                returns_set: false,
                                language: text("plpgsql"),
                                body,
                                replace,
                            },
                        ),
                    )
                },
            }
        },
    }
}

/// A CREATE PROCEDURE, where the text is one.
#[verifier::opaque]
pub open spec fn procedure_of(value: Seq<char>) -> Checked<Option<ParsedStatementView>> {
    match after(value, "CREATE OR REPLACE PROCEDURE "@) {
        Some(rest) => match procedure_from(rest, true) {
            Err(x) => Err(x),
            Ok(s) => Ok(Some(s)),
        },
        None => match after(value, "CREATE PROCEDURE "@) {
            Some(rest) => match procedure_from(rest, false) {
                Err(x) => Err(x),
                Ok(s) => Ok(Some(s)),
            },
            None => Ok(None),
        },
    }
}

/// Reads a CREATE PROCEDURE.
pub fn parse_create_procedure(value: &str) -> (r: Result<Option<ParsedStatement>>)
    ensures
        (match r {
            Ok(x) => Ok(statement_view(x)),
            Err(x) => Err(x@),
        }) == procedure_of(value@),
{
    reveal(procedure_of);
    match strip_prefix_like(value, "CREATE OR REPLACE PROCEDURE ") {
        Some(rest) => {
            let s = parse_procedure(rest.as_str(), true)?;
            Ok(Some(s))
        },
        None => {
            match strip_prefix_like(value, "CREATE PROCEDURE ") {
                Some(rest) => {
                    let s = parse_procedure(rest.as_str(), false)?;
                    Ok(Some(s))
                },
                None => {
                    Ok(None)
                },
            }
        },
    }
}

/// A REFRESH MATERIALIZED VIEW, where the text is one.
#[verifier::opaque]
pub open spec fn refresh_of(value: Seq<char>) -> Checked<Option<ParsedStatementView>> {
    match after(value, "REFRESH MATERIALIZED VIEW "@) {
        None => Ok(None),
        Some(rest) => {
            let target = trimmed(rest);
            if after(target, "CONCURRENTLY "@) is Some {
                Err(unsupported_error("REFRESH MATERIALIZED VIEW CONCURRENTLY is not supported"@, None))
            } else {
                {
                    let (name_text, with_data) = refresh_target(target);
                    match simple_object(name_text) {
                        Err(x) => Err(x),
                        Ok(name) => Ok(Some(ParsedStatementView::RefreshMaterializedView { name, with_data })),
                    }
                }
            }
        },
    }
}

/// Reads a REFRESH MATERIALIZED VIEW.
pub fn parse_refresh_materialized_view(value: &str) -> (r: Result<Option<ParsedStatement>>)
    ensures
        (match r {
            Ok(x) => Ok(statement_view(x)),
            Err(x) => Err(x@),
        }) == refresh_of(value@),
{
    reveal(refresh_of);
    match strip_prefix_like(value, "REFRESH MATERIALIZED VIEW ") {
        None => {
            Ok(None)
        },
        Some(rest) => {
            let target = trim(rest.as_str());
            if strip_prefix_like(target.as_str(), "CONCURRENTLY ").is_some() {
                return Err(unsupported("REFRESH MATERIALIZED VIEW CONCURRENTLY is not supported"));
            }
            let (name_text, with_data) = split_refresh_target(target.as_str());
            let name = parse_simple_object_name(name_text.as_str())?;
            Ok(Some(make_statement(ParsedStatement::RefreshMaterializedView { name, with_data })))
        },
    }
}

} // verus!
