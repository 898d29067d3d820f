//! Failures of the parser.
use vstd::prelude::*;
use crate::diagnostics::{syntax_diag, syntax_err, XSError};
use crate::lexer::token::Token;
use crate::parser::grammar::{error_span, token_at};
use crate::span::{Span, Spanned};

verus! {

/// A failure of the parser: the token that stands in the way.
#[derive(Clone, Copy, Debug, PartialEq, Eq, Hash, Structural)]
pub struct ParseError {
    /// The position of the offending token in the input; the length of the
    /// input where the input ends too early.
    pub at: usize,
    /// The span of the offending token; the empty span at the end of the
    /// input where the input ends too early.
    pub span: Span,
}

impl ParseError {
    /// The failure at position `at` of `tokens`.
    pub fn new(tokens: &Vec<Spanned<Token>>, at: usize) -> (err: ParseError)
        ensures
            err.at == at,
            err.span == error_span(tokens@, at as nat),
    {
        let span = if at < tokens.len() {
            tokens[at].1
        } else if tokens.len() > 0 {
            Span::point(tokens[tokens.len() - 1].1.end)
        } else {
            Span::point(0)
        };
        ParseError { at, span }
    }

    /// The offending token; `None` where the input ends too early.
    pub fn found<'a>(&self, tokens: &'a Vec<Spanned<Token>>) -> (tok: Option<&'a Token>)
        ensures
            tok is Some <==> self.at < tokens.len(),
            tok matches Some(t) ==> Some(*t) == token_at(tokens@, self.at as nat),
    {
        if self.at < tokens.len() {
            Some(&tokens[self.at].0)
        } else {
            None
        }
    }

    /// The failure as a diagnostic: a syntax error at the span of the
    /// offending token.
    pub fn diagnostic(&self, tokens: &Vec<Spanned<Token>>) -> (e: XSError)
        ensures
            e@ == syntax_diag(
                if self.at < tokens.len() {
                    "Unexpected token"@
                } else {
                    "Unexpected end of input"@
                },
                self.span,
            ),
    {
        if self.at < tokens.len() {
            syntax_err("Unexpected token", &self.span)
        } else {
            syntax_err("Unexpected end of input", &self.span)
        }
    }
}

} // verus!
