//! Reads an ALTER DOMAIN from its tokens.

use sqlparser::tokenizer::Token;
use vstd::prelude::*;

use crate::catalog::{CatalogExpression, CatalogExpressionView, DomainConstraint, DomainConstraintView};
use crate::convert::statement_view;
use crate::expression_parser::{parse_parsed_expression, parsed_expression};
use crate::outside::{all_writable, text_of_token, token_text};
use crate::rewrite::make_statement;
use crate::scope::Checked;
use crate::source::{token_is_keyword, word_at};
use crate::syntax::{
    ParsedAlterDomainOperation, ParsedAlterDomainOperationView, ParsedDefault, ParsedDefaultView, ParsedExpr, ParsedStatement,
    ParsedStatementView,
};
use crate::text::{text, text3};
use crate::tokens::{
    ended, ensure_token_end, expect_keyword, has_pair_at, has_triple_at, pair_at, parse_token_identifier, parse_token_object_name, past,
    step_over, token_name, token_object, triple_at, word_expected,
};
use crate::types::{error, unsupported, unsupported_error, DbError, Identifier, Result, SYNTAX_ERROR};

verus! {

fn make_default(expression: ParsedExpr, sql: String) -> (r: ParsedDefault)
    ensures
        r@ == (ParsedDefaultView { expression: expression@, sql: sql@ }),
{
    let r = ParsedDefault { expression, sql };
    proof {
        r.unfold();
    }
    r
}

fn make_domain_operation(o: ParsedAlterDomainOperation) -> (r: ParsedAlterDomainOperation)
    ensures
        r@ == o.shape(),
{
    proof {
        o.unfold();
    }
    o
}

/// The contents of a spelling that may be absent.
pub open spec fn plain_view(n: Option<Identifier>) -> Option<Seq<char>> {
    match n {
        Some(n) => Some(n@),
        None => None,
    }
}

/// The texts of tokens with spaces between them.
pub open spec fn joined(l: Seq<Token>, from: int, to: int) -> Seq<char>
    decreases to - from,
{
    if from >= to {
        ""@
    } else if to == from + 1 {
        token_text(l[from])
    } else {
        joined(l, from, to - 1) + " "@ + token_text(l[to - 1])
    }
}

/// Writes tokens with spaces between them.
fn tokens_sql(l: &Vec<Token>, from: usize, to: usize) -> (r: String)
    requires
        all_writable(l@),
        from <= to <= l@.len(),
    ensures
        r@ == joined(l@, from as int, to as int),
{
    if from == to {
        return text("");
    }
    let mut out = text_of_token(&l[from]);
    for i in from + 1..to
        invariant
            all_writable(l@),
            from < i <= to <= l@.len(),
            out@ == joined(l@, from as int, i as int),
    {
        out = text3(out.as_str(), " ", text_of_token(&l[i]).as_str());
    }
    out
}

/// Whether an opening parenthesis stands at a place.
pub open spec fn left_at(l: Seq<Token>, i: int) -> bool {
    0 <= i < l.len() && l[i] is LParen
}

fn is_left_at(l: &Vec<Token>, i: usize) -> (r: bool)
    ensures
        r == left_at(l@, i as int),
        r ==> i < l.len(),
{
    if i < l.len() {
        match &l[i] {
            Token::LParen => true,
            _ => false,
        }
    } else {
        false
    }
}

/// The place of the parenthesis that closes some open ones, from a place on.
pub open spec fn closing(l: Seq<Token>, i: int, depth: nat) -> Option<int>
    decreases l.len() - i,
{
    if i < 0 || i >= l.len() {
        None
    } else if l[i] is LParen {
        closing(l, i + 1, depth + 1)
    } else if l[i] is RParen {
        if depth <= 1 {
            Some(i)
        } else {
            closing(l, i + 1, (depth - 1) as nat)
        }
    } else {
        closing(l, i + 1, depth)
    }
}

fn find_closing(l: &Vec<Token>, from: usize) -> (r: Option<usize>)
    requires
        1 <= from <= l@.len(),
    ensures
        (match r {
            Some(i) => Some(i as int),
            None => None,
        }) == closing(l@, from as int, 1),
        r matches Some(i) ==> from <= i < l.len(),
{
    let mut depth: usize = 1;
    for i in from..l.len()
        invariant
            1 <= from <= l@.len(),
            1 <= depth <= i - from + 1,
            closing(l@, from as int, 1) == closing(l@, i as int, depth as nat),
    {
        match &l[i] {
            Token::LParen => {
                depth = depth + 1;
            },
            Token::RParen => {
                if depth == 1 {
                    return Some(i);
                }
                depth = depth - 1;
            },
            _ => {},
        }
    }
    None
}

/// The default that tokens write.
#[verifier::opaque]
pub open spec fn default_from(l: Seq<Token>, from: int, to: int) -> Checked<ParsedDefaultView> {
    let sql = joined(l, from, to);
    match parsed_expression(sql, "domain expression contains trailing SQL"@) {
        Err(x) => Err(x),
        Ok(expression) => Ok(ParsedDefaultView { expression, sql }),
    }
}

/// Reads the default that tokens write.
fn parsed_default_from_tokens(l: &Vec<Token>, from: usize, to: usize) -> (r: Result<ParsedDefault>)
    requires
        all_writable(l@),
        from <= to <= l@.len(),
    ensures
        (match r {
            Ok(x) => Ok(x@),
            Err(x) => Err(x@),
        }) == default_from(l@, from as int, to as int),
{
    reveal(default_from);
    let sql = tokens_sql(l, from, to);
    let expression = parse_parsed_expression(sql.as_str(), "domain expression contains trailing SQL")?;
    Ok(make_default(expression, sql))
}

/// The name of a constraint, and the place behind it.
#[verifier::opaque]
pub open spec fn constraint_name(l: Seq<Token>, at: int) -> Checked<(Option<Seq<char>>, int)> {
    if word_at(l, at, "CONSTRAINT"@) {
        match token_name(l, at + 1) {
            Err(x) => Err(x),
            Ok((n, cursor)) => Ok((Some(n.name), cursor)),
        }
    } else {
        Ok((None, at))
    }
}

/// Reads the name of a constraint.
fn parse_constraint_name(l: &Vec<Token>, at: usize) -> (r: Result<(Option<Identifier>, usize)>)
    ensures
        (match r {
            Ok(x) => Ok((plain_view(x.0), x.1 as int)),
            Err(x) => Err(x@),
        }) == constraint_name(l@, at as int),
{
    reveal(constraint_name);
    if token_is_keyword(l, at, "CONSTRAINT") {
        let (n, cursor) = parse_token_identifier(l, at + 1)?;
        Ok((Some(n.name), cursor))
    } else {
        Ok((None, at))
    }
}

/// The CHECK constraint of a domain, and the place behind it.
#[verifier::opaque]
pub open spec fn check_at(l: Seq<Token>, at: int) -> Checked<(DomainConstraintView, int)> {
    match constraint_name(l, at) {
        Err(x) => Err(x),
        Ok((name, next)) => match word_expected(l, next, "CHECK"@) {
            Err(x) => Err(x),
            Ok(next) => if !left_at(l, next) {
                Err(error(SYNTAX_ERROR@, "domain CHECK constraint requires parentheses"@))
            } else {
                match closing(l, next + 1, 1) {
                    None => Err(error(SYNTAX_ERROR@, "unterminated domain CHECK constraint"@)),
                    Some(end) => if end == next + 1 {
                        Err(error(SYNTAX_ERROR@, "domain CHECK constraint requires an expression"@))
                    } else {
                        {
                            let sql = joined(l, next + 1, end);
                            match parsed_expression(sql, "domain expression contains trailing SQL"@) {
                                Err(x) => Err(x),
                                Ok(_) => Ok((DomainConstraintView { id: None, name, expression: CatalogExpressionView { sql } }, end + 1)),
                            }
                        }
                    },
                }
            },
        },
    }
}

/// Reads the CHECK constraint of a domain.
fn parse_domain_constraint_tokens(l: &Vec<Token>, at: usize) -> (r: Result<(DomainConstraint, usize)>)
    requires
        all_writable(l@),
    ensures
        (match r {
            Ok(x) => Ok((x.0@, x.1 as int)),
            Err(x) => Err(x@),
        }) == check_at(l@, at as int),
{
    reveal(check_at);
    let (name, next) = parse_constraint_name(l, at)?;
    let next = expect_keyword(l, next, "CHECK")?;
    if !is_left_at(l, next) {
        return Err(DbError::new(SYNTAX_ERROR, text("domain CHECK constraint requires parentheses")));
    }
    match find_closing(l, next + 1) {
        None => {
            Err(DbError::new(SYNTAX_ERROR, text("unterminated domain CHECK constraint")))
        },
        Some(end) => {
            if end == next + 1 {
                return Err(DbError::new(SYNTAX_ERROR, text("domain CHECK constraint requires an expression")));
            }
            let sql = tokens_sql(l, next + 1, end);
            let _ = parse_parsed_expression(sql.as_str(), "domain expression contains trailing SQL")?;
            Ok((DomainConstraint { id: None, name, expression: CatalogExpression { sql } }, end + 1))
        },
    }
}

/// What an ALTER DOMAIN does, and the place behind it.
#[verifier::opaque]
pub open spec fn domain_operation(l: Seq<Token>, at: int) -> Checked<(ParsedAlterDomainOperationView, int)> {
    if pair_at(l, at, "SET"@, "DEFAULT"@) {
        if at + 2 == l.len() {
            Err(error(SYNTAX_ERROR@, "ALTER DOMAIN SET DEFAULT requires an expression"@))
        } else {
            match default_from(l, at + 2, l.len() as int) {
                Err(x) => Err(x),
                Ok(default) => Ok((ParsedAlterDomainOperationView::SetDefault(default), l.len() as int)),
            }
        }
    } else if pair_at(l, at, "DROP"@, "DEFAULT"@) {
        Ok((ParsedAlterDomainOperationView::DropDefault, at + 2))
    } else if triple_at(l, at, "SET"@, "NOT"@, "NULL"@) {
        Ok((ParsedAlterDomainOperationView::SetNotNull, at + 3))
    } else if triple_at(l, at, "DROP"@, "NOT"@, "NULL"@) {
        Ok((ParsedAlterDomainOperationView::DropNotNull, at + 3))
    } else if word_at(l, at, "ADD"@) {
        match check_at(l, at + 1) {
            Err(x) => Err(x),
            Ok((constraint, cursor)) => if pair_at(l, cursor, "NOT"@, "VALID"@) {
                Err(unsupported_error("ALTER DOMAIN ADD CONSTRAINT NOT VALID is not supported yet"@, None))
            } else {
                Ok((ParsedAlterDomainOperationView::AddConstraint(constraint), cursor))
            },
        }
    } else if pair_at(l, at, "DROP"@, "CONSTRAINT"@) {
        {
            let if_exists = pair_at(l, at + 2, "IF"@, "EXISTS"@);
            match token_name(l, if if_exists { at + 4 } else { at + 2 }) {
                Err(x) => Err(x),
                Ok((name, cursor)) => if word_at(l, cursor, "CASCADE"@) {
                    Err(unsupported_error("ALTER DOMAIN DROP CONSTRAINT CASCADE is not supported yet"@, None))
                } else {
                    Ok(
                        (
                            ParsedAlterDomainOperationView::DropConstraint { name, if_exists },
                            past(l, cursor, "RESTRICT"@),
                        ),
                    )
                },
            }
        }
    } else {
        Err(unsupported_error("this ALTER DOMAIN operation is not supported yet"@, None))
    }
}

/// Reads what an ALTER DOMAIN does.
fn parse_domain_operation(l: &Vec<Token>, at: usize) -> (r: Result<(ParsedAlterDomainOperation, usize)>)
    requires
        all_writable(l@),
    ensures
        (match r {
            Ok(x) => Ok((x.0@, x.1 as int)),
            Err(x) => Err(x@),
        }) == domain_operation(l@, at as int),
{
    reveal(domain_operation);
    if has_pair_at(l, at, "SET", "DEFAULT") {
        if at + 2 == l.len() {
            return Err(DbError::new(SYNTAX_ERROR, text("ALTER DOMAIN SET DEFAULT requires an expression")));
        }
        let default = parsed_default_from_tokens(l, at + 2, l.len())?;
        Ok((make_domain_operation(ParsedAlterDomainOperation::SetDefault(default)), l.len()))
    } else if has_pair_at(l, at, "DROP", "DEFAULT") {
        Ok((make_domain_operation(ParsedAlterDomainOperation::DropDefault), at + 2))
    } else if has_triple_at(l, at, "SET", "NOT", "NULL") {
        Ok((make_domain_operation(ParsedAlterDomainOperation::SetNotNull), at + 3))
    } else if has_triple_at(l, at, "DROP", "NOT", "NULL") {
        Ok((make_domain_operation(ParsedAlterDomainOperation::DropNotNull), at + 3))
    } else if token_is_keyword(l, at, "ADD") {
        let (constraint, cursor) = parse_domain_constraint_tokens(l, at + 1)?;
        if has_pair_at(l, cursor, "NOT", "VALID") {
            return Err(unsupported("ALTER DOMAIN ADD CONSTRAINT NOT VALID is not supported yet"));
        }
        Ok((make_domain_operation(ParsedAlterDomainOperation::AddConstraint(constraint)), cursor))
    } else if has_pair_at(l, at, "DROP", "CONSTRAINT") {
        let if_exists = has_pair_at(l, at + 2, "IF", "EXISTS");
        let (name, cursor) = parse_token_identifier(l, if if_exists { at + 4 } else { at + 2 })?;
        if token_is_keyword(l, cursor, "CASCADE") {
            return Err(unsupported("ALTER DOMAIN DROP CONSTRAINT CASCADE is not supported yet"));
        }
        Ok(
            (
                make_domain_operation(ParsedAlterDomainOperation::DropConstraint { name, if_exists }),
                step_over(l, cursor, "RESTRICT"),
            ),
        )
    } else {
        Err(unsupported("this ALTER DOMAIN operation is not supported yet"))
    }
}

/// An ALTER DOMAIN, where the tokens are one.
#[verifier::opaque]
pub open spec fn alter_domain_of(l: Seq<Token>) -> Checked<Option<ParsedStatementView>> {
    if l.len() < 3 || !word_at(l, 0, "ALTER"@) || !word_at(l, 1, "DOMAIN"@) {
        Ok(None)
    } else {
        match token_object(l, 2, 2) {
            Err(x) => Err(x),
            Ok((name, at)) => match domain_operation(l, at) {
                Err(x) => Err(x),
                Ok((operation, cursor)) => match ended(l, cursor) {
                    Err(x) => Err(x),
                    Ok(_) => Ok(Some(ParsedStatementView::AlterDomain { name, operation })),
                },
            },
        }
    }
}

/// Reads an ALTER DOMAIN.
pub(crate) fn parse_alter_domain(l: &Vec<Token>) -> (r: Result<Option<ParsedStatement>>)
    requires
        all_writable(l@),
    ensures
        (match r {
            Ok(x) => Ok(statement_view(x)),
            Err(x) => Err(x@),
        }) == alter_domain_of(l@),
{
    reveal(alter_domain_of);
    if l.len() < 3 || !token_is_keyword(l, 0, "ALTER") || !token_is_keyword(l, 1, "DOMAIN") {
        Ok(None)
    } else {
        let (name, at) = parse_token_object_name(l, 2, 2)?;
        let (operation, cursor) = parse_domain_operation(l, at)?;
        let _ = ensure_token_end(l, cursor)?;
        Ok(Some(make_statement(ParsedStatement::AlterDomain { name, operation })))
    }
}

} // verus!
