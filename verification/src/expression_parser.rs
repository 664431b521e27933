//! Parses expressions that stand alone.

use sqlparser::tokenizer::Token;
use vstd::prelude::*;

use crate::convert::convert_expr;
use crate::convert_rules::converted_expr;
use crate::outside::{expression_of, parse_expr_tokens, tokenize, tokens_of, Grammar};
use crate::scope::Checked;
use crate::syntax::{ParsedExpr, ParsedExprView};
use crate::text::text;
use crate::types::{error, DbError, Result, SYNTAX_ERROR};

verus! {

/// The expression that a text holds. What follows it is an error with a message.
#[verifier::opaque]
pub open spec fn parsed_expression(sql: Seq<char>, trailing: Seq<char>) -> Checked<ParsedExprView> {
    match tokens_of(Grammar::PostgreSql, sql) {
        Err(message) => Err(error(SYNTAX_ERROR@, message)),
        Ok(tokens) => match expression_of(tokens) {
            Err(message) => Err(error(SYNTAX_ERROR@, message)),
            Ok((e, next)) => if !(next is EOF) {
                Err(error(SYNTAX_ERROR@, trailing))
            } else {
                converted_expr(e, sql)
            },
        },
    }
}

/// Parses an expression that stands alone.
pub fn parse_parsed_expression(sql: &str, trailing: &str) -> (r: Result<ParsedExpr>)
    ensures
        (match r {
            Ok(e) => Ok(e@),
            Err(e) => Err(e@),
        }) == parsed_expression(sql@, trailing@),
{
    reveal(parsed_expression);
    let tokens = match tokenize(Grammar::PostgreSql, sql) {
        Ok(l) => l,
        Err(message) => {
            return Err(DbError::new(SYNTAX_ERROR, message));
        },
    };
    match parse_expr_tokens(tokens) {
        Err(message) => Err(DbError::new(SYNTAX_ERROR, message)),
        Ok((e, next)) => {
            if !matches!(next, Token::EOF) {
                return Err(DbError::new(SYNTAX_ERROR, text(trailing)));
            }
            convert_expr(&e, sql)
        },
    }
}

} // verus!
