//! `break`, `continue` and breakpoints.
use vstd::prelude::*;
use crate::ast::astree::ASTreeNode;
use crate::lexer::token::Token;
use crate::parser::error::ParseError;
use crate::parser::grammar::{error_span, parse_jump, Parse};
use crate::span::{Span, Spanned};

verus! {

/// The mathematical value of a result of reading a statement at `pos`.
pub open spec fn parsed_stmt_view(
    res: Result<(Spanned<ASTreeNode>, usize), ParseError>,
    pos: usize,
) -> Parse<Spanned<ASTreeNode>> {
    match res {
        Ok((node, next)) => Parse::Done(node, (next - pos) as nat),
        Err(err) => Parse::Failed(err.at as nat),
    }
}

/// Reads a `break`, a `continue` or a breakpoint from `tokens` at position
/// `pos`: one of the three keywords and the `;` that ends the statement.
///
/// On success, returns the statement, with the span from the start of the
/// keyword to the end of the `;`, and the position behind the `;`. On
/// failure, returns the position and the span of the token that stands in
/// the way: the one at `pos` where it is none of the keywords, the one
/// behind it where it is no `;`.
pub fn break_or_continue_or_breakpt(tokens: &Vec<Spanned<Token>>, pos: usize) -> (res: Result<
    (Spanned<ASTreeNode>, usize),
    ParseError,
>)
    ensures
        parsed_stmt_view(res, pos) == parse_jump(tokens@, pos as nat),
        res matches Ok((_, next)) ==> next == pos + 2 && next <= tokens.len(),
        res matches Err(err) ==> err.span == error_span(tokens@, err.at as nat),
{
    if pos >= tokens.len() {
        return Err(ParseError::new(tokens, pos));
    }
    let node = match &tokens[pos].0 {
        Token::Break => ASTreeNode::Break,
        Token::Continue => ASTreeNode::Continue,
        Token::Breakpoint => ASTreeNode::Breakpoint,
        _ => {
            return Err(ParseError::new(tokens, pos));
        },
    };
    let ends = pos + 1 < tokens.len() && match &tokens[pos + 1].0 {
        Token::SColon => true,
        _ => false,
    };
    if ends {
        Ok(((node, Span::cover(tokens[pos].1, tokens[pos + 1].1)), pos + 2))
    } else {
        Err(ParseError::new(tokens, pos + 1))
    }
}

} // verus!
