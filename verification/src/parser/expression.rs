//! The expression parser.
use vstd::prelude::*;
use crate::ast::expr::{exprs_view, lemma_exprs_view_push, BinOp, Expr, SpannedExprV};
use crate::ast::identifier::Identifier;
use crate::lexer::token::Token;
use crate::parser::error::ParseError;
use crate::parser::laws::{
    bracketed, ends, law_parse_reads_the_longest_bracketed_tree, law_tree_is_bracketed,
    law_tree_is_longest, law_tree_spells_its_tokens, spells, width,
};
use crate::parser::grammar::{
    after_args, binary_op, error_span, lemma_parse_args, lemma_parse_level, level_of,
    levels_below, name_of, parse_arg_list, parse_args, parse_expr, parse_level, parse_primary,
    parse_tail, parse_unary, parse_whole, remaining, stands_on, token_at,
    unary_level, Parse,
};
use crate::span::{Span, Spanned};

verus! {

/// What the parser hands back on reading an expression at `pos`: the tree
/// and the position behind it, or the failure.
pub type Parsed = Result<(Spanned<Expr>, usize), ParseError>;

/// The mathematical value of a result of reading at `pos`.
pub open spec fn parsed_view(res: Parsed, pos: usize) -> Parse<SpannedExprV> {
    match res {
        Ok((e, next)) => Parse::Done(e@, (next - pos) as nat),
        Err(err) => Parse::Failed(err.at as nat),
    }
}

/// Whether a result of reading `tokens` at `pos` is well formed: the
/// position behind a tree lies behind `pos` and inside the input, and a
/// failure carries the span of the token it points to.
pub open spec fn well_formed(res: Parsed, tokens: Seq<Spanned<Token>>, pos: usize) -> bool {
    match res {
        Ok((e, next)) => pos < next <= tokens.len(),
        Err(err) => err.span == error_span(tokens, err.at as nat),
    }
}

/// The binary operator of level `level` that `tok` stands for, if any.
fn operator(tok: &Token, level: u8) -> (op: Option<BinOp>)
    ensures
        op == match binary_op(*tok) {
            Some(o) => if level_of(o) == level {
                Some(o)
            } else {
                None
            },
            None => None,
        },
{
    let (op, of_level): (BinOp, u8) = match tok {
        Token::Or => (BinOp::Or, 1),
        Token::And => (BinOp::And, 2),
        Token::Deq => (BinOp::Eq, 3),
        Token::Neq => (BinOp::Ne, 3),
        Token::LT => (BinOp::Lt, 4),
        Token::LE => (BinOp::Le, 4),
        Token::GT => (BinOp::Gt, 4),
        Token::GE => (BinOp::Ge, 4),
        Token::Plus => (BinOp::Plus, 5),
        Token::Minus => (BinOp::Minus, 5),
        Token::Star => (BinOp::Star, 6),
        Token::FSlash => (BinOp::FSlash, 6),
        Token::PCent => (BinOp::PCent, 6),
        _ => {
            return None;
        },
    };
    if of_level == level {
        Some(op)
    } else {
        None
    }
}

/// Whether the token at `pos` is `)`.
fn closes(tokens: &Vec<Spanned<Token>>, pos: usize) -> (r: bool)
    ensures
        r == (token_at(tokens@, pos as nat) == Some(Token::RParen)),
        r ==> pos < tokens.len(),
{
    pos < tokens.len() && match &tokens[pos].0 {
        Token::RParen => true,
        _ => false,
    }
}

/// Whether the token at `pos` is `(`.
fn opens(tokens: &Vec<Spanned<Token>>, pos: usize) -> (r: bool)
    ensures
        r == (token_at(tokens@, pos as nat) == Some(Token::LParen)),
        r ==> pos < tokens.len(),
{
    pos < tokens.len() && match &tokens[pos].0 {
        Token::LParen => true,
        _ => false,
    }
}

/// Whether the token at `pos` is `,`.
fn separates(tokens: &Vec<Spanned<Token>>, pos: usize) -> (r: bool)
    ensures
        r == (token_at(tokens@, pos as nat) == Some(Token::Comma)),
        r ==> pos < tokens.len(),
{
    pos < tokens.len() && match &tokens[pos].0 {
        Token::Comma => true,
        _ => false,
    }
}

/// Whether the token at `pos` is `-`.
fn negates(tokens: &Vec<Spanned<Token>>, pos: usize) -> (r: bool)
    ensures
        r == (token_at(tokens@, pos as nat) == Some(Token::Minus)),
        r ==> pos < tokens.len(),
{
    pos < tokens.len() && match &tokens[pos].0 {
        Token::Minus => true,
        _ => false,
    }
}

/// Reads an expression of level `level` or stronger at `pos`.
fn binary(tokens: &Vec<Spanned<Token>>, pos: usize, level: u8) -> (res: Parsed)
    ensures
        parsed_view(res, pos) == parse_level(tokens@, pos as nat, level as nat),
        well_formed(res, tokens@, pos),
    decreases remaining(tokens@, pos as nat), 2 * levels_below(level as nat) + 3,
{
    if level >= 7 {
        return unary(tokens, pos);
    }
    let ghost ts = tokens@;
    let (mut lhs, mut next) = match binary(tokens, pos, level + 1) {
        Ok(read) => read,
        Err(err) => {
            return Err(err);
        },
    };
    proof {
        lemma_parse_level(ts, pos as nat, (level + 1) as nat);
    }
    loop
        invariant
            ts == tokens@,
            level < 7,
            pos < next <= tokens.len(),
            stands_on(ts, pos as nat, lhs@, (next - pos) as nat),
            parse_tail(ts, pos as nat, lhs@, (next - pos) as nat, level as nat) == parse_level(
                ts,
                pos as nat,
                level as nat,
            ),
        decreases tokens.len() - next,
    {
        if next >= tokens.len() {
            return Ok((lhs, next));
        }
        let Some(op) = operator(&tokens[next].0, level) else {
            return Ok((lhs, next));
        };
        match binary(tokens, next + 1, level + 1) {
            Err(err) => {
                return Err(err);
            },
            Ok((rhs, after)) => {
                proof {
                    lemma_parse_level(ts, (next + 1) as nat, (level + 1) as nat);
                }
                let span = Span::cover(lhs.1, rhs.1);
                lhs = (Expr::binary(op, lhs, rhs), span);
                next = after;
            },
        }
    }
}

/// Reads an optional unary minus and a primary at `pos`.
fn unary(tokens: &Vec<Spanned<Token>>, pos: usize) -> (res: Parsed)
    ensures
        parsed_view(res, pos) == parse_unary(tokens@, pos as nat),
        well_formed(res, tokens@, pos),
    decreases remaining(tokens@, pos as nat), 2nat,
{
    if negates(tokens, pos) {
        match primary(tokens, pos + 1) {
            Ok((operand, next)) => {
                let span = Span::cover(tokens[pos].1, operand.1);
                Ok(((Expr::Neg(Box::new(operand)), span), next))
            },
            Err(err) => Err(err),
        }
    } else {
        primary(tokens, pos)
    }
}

/// Reads a name at `pos`, or the call that it opens.
fn name_or_call(tokens: &Vec<Spanned<Token>>, pos: usize, name: Identifier) -> (res: Parsed)
    requires
        pos < tokens.len(),
        name_of(tokens[pos as int].0) == Some(name@),
    ensures
        parsed_view(res, pos) == parse_primary(tokens@, pos as nat),
        well_formed(res, tokens@, pos),
    decreases remaining(tokens@, pos as nat), 0nat,
{
    let span = tokens[pos].1;
    if opens(tokens, pos + 1) {
        match call_args(tokens, pos + 2) {
            Ok((args, next)) => {
                proof {
                    lemma_parse_args(tokens@, (pos + 2) as nat);
                }
                let whole = Span::cover(span, tokens[next - 1].1);
                Ok(((Expr::FnCall { name: (name, span), args }, whole), next))
            },
            Err(err) => Err(err),
        }
    } else {
        Ok(((Expr::Identifier(name), span), pos + 1))
    }
}

/// Reads a primary at `pos`.
fn primary(tokens: &Vec<Spanned<Token>>, pos: usize) -> (res: Parsed)
    ensures
        parsed_view(res, pos) == parse_primary(tokens@, pos as nat),
        well_formed(res, tokens@, pos),
    decreases remaining(tokens@, pos as nat), 1nat,
{
    if pos >= tokens.len() {
        return Err(ParseError::new(tokens, pos));
    }
    let span = tokens[pos].1;
    match &tokens[pos].0 {
        Token::Identifier(id) => name_or_call(tokens, pos, id.clone()),
        Token::Vector => name_or_call(tokens, pos, Identifier::new("vector")),
        Token::LParen => match binary(tokens, pos + 1, 1) {
            Ok((inner, next)) => {
                proof {
                    lemma_parse_level(tokens@, (pos + 1) as nat, 1);
                }
                if closes(tokens, next) {
                    let whole = Span::cover(span, tokens[next].1);
                    Ok(((Expr::Paren(Box::new(inner)), whole), next + 1))
                } else {
                    Err(ParseError::new(tokens, next))
                }
            },
            Err(err) => Err(err),
        },
        Token::Literal(lit) => Ok(((Expr::Literal(lit.clone()), span), pos + 1)),
        _ => Err(ParseError::new(tokens, pos)),
    }
}

/// What the parser hands back on reading the arguments of a call: the
/// arguments and the position behind the `)`, or the failure.
pub type ParsedArgs = Result<(Vec<Spanned<Expr>>, usize), ParseError>;

/// The mathematical value of a result of reading arguments at `pos`.
pub open spec fn parsed_args_view(res: ParsedArgs, pos: usize) -> Parse<Seq<SpannedExprV>> {
    match res {
        Ok((args, next)) => Parse::Done(exprs_view(args@), (next - pos) as nat),
        Err(err) => Parse::Failed(err.at as nat),
    }
}

/// Reads the arguments of a call, from behind its `(` at `pos` to its `)`.
fn call_args(tokens: &Vec<Spanned<Token>>, pos: usize) -> (res: ParsedArgs)
    ensures
        parsed_args_view(res, pos) == parse_args(tokens@, pos as nat),
        res matches Ok((_, next)) ==> pos < next <= tokens.len(),
        res matches Err(err) ==> err.span == error_span(tokens@, err.at as nat),
    decreases remaining(tokens@, pos as nat), 2 * unary_level() + 5,
{
    let ghost ts = tokens@;
    let mut args: Vec<Spanned<Expr>> = Vec::new();
    if closes(tokens, pos) {
        return Ok((args, pos + 1));
    }
    let mut at: usize = pos;
    assert(after_args(exprs_view(args@), 0, parse_arg_list(ts, pos as nat)) == parse_arg_list(
        ts,
        pos as nat,
    )) by {
        match parse_arg_list(ts, pos as nat) {
            Parse::Done(more, len) => {
                assert(exprs_view(args@) + more =~= more);
            },
            Parse::Failed(_) => {},
        }
    }
    loop
        invariant
            ts == tokens@,
            pos <= at,
            after_args(exprs_view(args@), (at - pos) as nat, parse_arg_list(ts, at as nat))
                == parse_args(ts, pos as nat),
        decreases remaining(ts, at as nat),
    {
        let ghost read = exprs_view(args@);
        match binary(tokens, at, 1) {
            Err(err) => {
                return Err(err);
            },
            Ok((arg, next)) => {
                proof {
                    lemma_parse_level(ts, at as nat, 1);
                    lemma_exprs_view_push(args@, arg);
                    assert(read + seq![arg@] =~= read.push(arg@));
                    match parse_arg_list(ts, (next + 1) as nat) {
                        Parse::Done(more, len) => {
                            assert(read + (seq![arg@] + more) =~= read.push(arg@) + more);
                        },
                        Parse::Failed(_) => {},
                    }
                }
                args.push(arg);
                if closes(tokens, next) {
                    return Ok((args, next + 1));
                }
                if separates(tokens, next) {
                    at = next + 1;
                } else {
                    return Err(ParseError::new(tokens, next));
                }
            },
        }
    }
}

/// Reads an expression from `tokens`, starting at position `pos`: the
/// longest one that starts there.
///
/// On success, returns the tree and the position behind its last token. The
/// tree is the one that the grammar gives: it spells the tokens between the
/// two positions, with the span of every node running from the start of the
/// node's first token to the end of its last; it is bracketed by precedence;
/// and the token behind it cannot go on with it.
///
/// On failure, returns the position and the span of the token that stands
/// in the way. Reading fails only where the tokens from `pos` on spell no
/// such tree.
pub fn expression(tokens: &Vec<Spanned<Token>>, pos: usize) -> (res: Parsed)
    ensures
        parsed_view(res, pos) == parse_expr(tokens@, pos as nat),
        res matches Ok((e, next)) ==> {
            &&& pos < next <= tokens.len()
            &&& next - pos == width(e.0@)
            &&& spells(tokens@, pos as nat, e@)
            &&& bracketed(e.0@)
            &&& ends(tokens@, next as nat, 1)
        },
        res matches Err(err) ==> {
            &&& err.span == error_span(tokens@, err.at as nat)
            &&& pos <= err.at
            &&& (err.at <= tokens.len() || err.at == pos)
            &&& forall|e: SpannedExprV|
                !(spells(tokens@, pos as nat, e) && bracketed(e.0) && ends(
                    tokens@,
                    pos as nat + width(e.0),
                    1,
                ))
        },
{
    proof {
        let ts = tokens@;
        lemma_parse_level(ts, pos as nat, 1);
        law_tree_spells_its_tokens(ts, pos as nat);
        law_tree_is_bracketed(ts, pos as nat);
        law_tree_is_longest(ts, pos as nat);
        assert forall|e: SpannedExprV|
            parse_expr(ts, pos as nat) is Failed implies !(spells(ts, pos as nat, e) && bracketed(
                e.0,
            ) && ends(ts, pos as nat + width(e.0), 1)) by {
            law_parse_reads_the_longest_bracketed_tree(ts, pos as nat, e);
        }
    }
    binary(tokens, pos, 1)
}

/// The mathematical value of a result of reading a whole input of `len`
/// tokens.
pub open spec fn parsed_whole_view(res: Result<Spanned<Expr>, ParseError>, len: nat) -> Parse<
    SpannedExprV,
> {
    match res {
        Ok(e) => Parse::Done(e@, len),
        Err(err) => Parse::Failed(err.at as nat),
    }
}

/// Reads `tokens` as one expression. A token that is left over behind the
/// expression stands in the way like any other.
pub fn parse_expression(tokens: &Vec<Spanned<Token>>) -> (res: Result<Spanned<Expr>, ParseError>)
    ensures
        parsed_whole_view(res, tokens@.len()) == parse_whole(tokens@),
        res matches Err(err) ==> err.span == error_span(tokens@, err.at as nat) && err.at
            <= tokens.len(),
{
    match expression(tokens, 0) {
        Ok((e, next)) => {
            if next == tokens.len() {
                Ok(e)
            } else {
                Err(ParseError::new(tokens, next))
            }
        },
        Err(err) => Err(err),
    }
}

} // verus!
