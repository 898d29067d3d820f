//! The grammar of expressions, as functions on sequences of tokens.
//!
//! From the weakest binding to the strongest:
//!
//! 1. `or`
//! 2. `and`
//! 3. `==` `!=`
//! 4. `<` `<=` `>` `>=`
//! 5. `+` `-`
//! 6. `*` `/` `%`
//! 7. one optional unary minus, on a primary
//! 8. a primary: a call, an expression in parentheses, a literal or a name
//!
//! Every binary level folds to the left: `a - b - c` is `(a - b) - c`. A call
//! is a name directly followed by `(`; once that is seen the parser is bound
//! to the call, and what follows must be its arguments: expressions
//! separated by commas, with no comma after the last, then `)`.
use vstd::prelude::*;
use crate::ast::astree::ASTreeNode;
use crate::ast::expr::{BinOp, ExprV, SpannedExprV, UnOp};
use crate::lexer::token::Token;
use crate::span::{Span, Spanned};

verus! {

/// The input of the parser: tokens, each with its span.
pub type Tokens = Seq<Spanned<Token>>;

/// What reading at a position of the input gives.
pub enum Parse<T> {
    /// The value read, and the number of tokens it was read from.
    Done(T, nat),
    /// The position of the token that stands in the way, which is the length
    /// of the input where the input ends too early.
    Failed(nat),
}

/// The token at position `pos`, if the input is that long.
pub open spec fn token_at(ts: Tokens, pos: nat) -> Option<Token> {
    if pos < ts.len() {
        Some(ts[pos as int].0)
    } else {
        None
    }
}

/// The number of tokens from position `pos` on.
pub open spec fn remaining(ts: Tokens, pos: nat) -> nat {
    if pos <= ts.len() {
        (ts.len() - pos) as nat
    } else {
        0
    }
}

/// How far a level is from the level of the unary minus.
pub open spec fn levels_below(level: nat) -> nat {
    if level < unary_level() {
        (unary_level() - level) as nat
    } else {
        0
    }
}

/// The span from the start of the token at `first` to the end of the token
/// at `last`.
pub open spec fn span_over(ts: Tokens, first: nat, last: nat) -> Span {
    Span::spec_cover(ts[first as int].1, ts[last as int].1)
}

/// The binary operator that a token stands for.
pub open spec fn binary_op(tok: Token) -> Option<BinOp> {
    match tok {
        Token::Or => Some(BinOp::Or),
        Token::And => Some(BinOp::And),
        Token::Deq => Some(BinOp::Eq),
        Token::Neq => Some(BinOp::Ne),
        Token::LT => Some(BinOp::Lt),
        Token::LE => Some(BinOp::Le),
        Token::GT => Some(BinOp::Gt),
        Token::GE => Some(BinOp::Ge),
        Token::Plus => Some(BinOp::Plus),
        Token::Minus => Some(BinOp::Minus),
        Token::Star => Some(BinOp::Star),
        Token::FSlash => Some(BinOp::FSlash),
        Token::PCent => Some(BinOp::PCent),
        _ => None,
    }
}

/// The level of a binary operator: 1 binds weakest, 6 strongest.
pub open spec fn level_of(op: BinOp) -> nat {
    match op {
        BinOp::Or => 1,
        BinOp::And => 2,
        BinOp::Eq | BinOp::Ne => 3,
        BinOp::Lt | BinOp::Le | BinOp::Gt | BinOp::Ge => 4,
        BinOp::Plus | BinOp::Minus => 5,
        BinOp::Star | BinOp::FSlash | BinOp::PCent => 6,
    }
}

/// The level of the unary minus.
pub open spec fn unary_level() -> nat {
    7
}

/// The binary operator of level `level` at position `pos`, if one stands
/// there.
pub open spec fn operator_at(ts: Tokens, pos: nat, level: nat) -> Option<BinOp> {
    match token_at(ts, pos) {
        Some(tok) => match binary_op(tok) {
            Some(op) => if level_of(op) == level {
                Some(op)
            } else {
                None
            },
            None => None,
        },
        None => None,
    }
}

/// The name that a token stands for: an identifier, or the keyword `vector`,
/// which names the function that makes a vector.
pub open spec fn name_of(tok: Token) -> Option<Seq<char>> {
    match tok {
        Token::Identifier(id) => Some(id@),
        Token::Vector => Some("vector"@),
        _ => None,
    }
}

/// The binary node of `op` over `lhs` and `rhs`. Its span runs from the
/// start of `lhs` to the end of `rhs`.
pub open spec fn binary_node(op: BinOp, lhs: SpannedExprV, rhs: SpannedExprV) -> SpannedExprV {
    (ExprV::Binary(op, Box::new(lhs), Box::new(rhs)), Span::spec_cover(lhs.1, rhs.1))
}

/// An expression of level `level` or stronger at position `pos`: an operand
/// of the next level, then every operator of this level with its operand,
/// folded to the left. At the level of the unary minus and beyond: an
/// optional minus, and a primary.
pub open spec fn parse_level(ts: Tokens, pos: nat, level: nat) -> Parse<SpannedExprV>
    decreases remaining(ts, pos), 2 * levels_below(level) + 3,
{
    if level >= unary_level() {
        parse_unary(ts, pos)
    } else {
        match parse_level(ts, pos, level + 1) {
            Parse::Done(lhs, len) => parse_tail(ts, pos, lhs, len, level),
            Parse::Failed(at) => Parse::Failed(at),
        }
    }
}

/// What follows the operand `lhs`, which was read from the `len` tokens at
/// `start`: the operators of level `level` with their operands, folded onto
/// `lhs` from the left.
pub open spec fn parse_tail(
    ts: Tokens,
    start: nat,
    lhs: SpannedExprV,
    len: nat,
    level: nat,
) -> Parse<SpannedExprV>
    decreases remaining(ts, start + len), 2 * levels_below(level) + 2,
{
    if level >= unary_level() {
        Parse::Done(lhs, len)
    } else {
        match operator_at(ts, start + len, level) {
            None => Parse::Done(lhs, len),
            Some(op) => match parse_level(ts, start + len + 1, level + 1) {
                Parse::Done(rhs, more) => parse_tail(
                    ts,
                    start,
                    binary_node(op, lhs, rhs),
                    len + 1 + more,
                    level,
                ),
                Parse::Failed(at) => Parse::Failed(at),
            },
        }
    }
}

/// An optional unary minus, and a primary.
pub open spec fn parse_unary(ts: Tokens, pos: nat) -> Parse<SpannedExprV>
    decreases remaining(ts, pos), 1nat,
{
    if token_at(ts, pos) == Some(Token::Minus) {
        match parse_primary(ts, pos + 1) {
            Parse::Done(operand, len) => Parse::Done(
                (
                    ExprV::Unary(UnOp::Neg, Box::new(operand)),
                    Span::spec_cover(ts[pos as int].1, operand.1),
                ),
                len + 1,
            ),
            Parse::Failed(at) => Parse::Failed(at),
        }
    } else {
        parse_primary(ts, pos)
    }
}

/// A primary: a call, an expression in parentheses, a literal or a name.
pub open spec fn parse_primary(ts: Tokens, pos: nat) -> Parse<SpannedExprV>
    decreases remaining(ts, pos), 0nat,
{
    match token_at(ts, pos) {
        None => Parse::Failed(pos),
        Some(tok) => if name_of(tok) is Some {
            if token_at(ts, pos + 1) == Some(Token::LParen) {
                match parse_args(ts, pos + 2) {
                    Parse::Done(args, len) => Parse::Done(
                        (
                            ExprV::FnCall { name: (name_of(tok)->0, ts[pos as int].1), args },
                            span_over(ts, pos, (pos + 1 + len) as nat),
                        ),
                        len + 2,
                    ),
                    Parse::Failed(at) => Parse::Failed(at),
                }
            } else {
                Parse::Done((ExprV::Identifier(name_of(tok)->0), ts[pos as int].1), 1)
            }
        } else if tok is LParen {
            match parse_level(ts, pos + 1, 1) {
                Parse::Done(inner, len) => if token_at(ts, pos + 1 + len) == Some(Token::RParen) {
                    Parse::Done(
                        (ExprV::Paren(Box::new(inner)), span_over(ts, pos, pos + 1 + len)),
                        len + 2,
                    )
                } else {
                    Parse::Failed(pos + 1 + len)
                },
                Parse::Failed(at) => Parse::Failed(at),
            }
        } else if tok is Literal {
            Parse::Done((ExprV::Literal(tok->Literal_0@), ts[pos as int].1), 1)
        } else {
            Parse::Failed(pos)
        },
    }
}

/// The arguments of a call, from behind its `(` to its `)`: nothing, or
/// expressions separated by commas.
pub open spec fn parse_args(ts: Tokens, pos: nat) -> Parse<Seq<SpannedExprV>>
    decreases remaining(ts, pos), 2 * unary_level() + 5,
{
    if token_at(ts, pos) == Some(Token::RParen) {
        Parse::Done(Seq::empty(), 1)
    } else {
        parse_arg_list(ts, pos)
    }
}

/// One argument and what follows it: a comma and more arguments, or the
/// `)` of the call.
pub open spec fn parse_arg_list(ts: Tokens, pos: nat) -> Parse<Seq<SpannedExprV>>
    decreases remaining(ts, pos), 2 * unary_level() + 4,
{
    match parse_level(ts, pos, 1) {
        Parse::Done(arg, len) => if token_at(ts, pos + len) == Some(Token::RParen) {
            Parse::Done(seq![arg], len + 1)
        } else if token_at(ts, pos + len) == Some(Token::Comma) {
            match parse_arg_list(ts, pos + len + 1) {
                Parse::Done(rest, more) => Parse::Done(seq![arg] + rest, len + 1 + more),
                Parse::Failed(at) => Parse::Failed(at),
            }
        } else {
            Parse::Failed(pos + len)
        },
        Parse::Failed(at) => Parse::Failed(at),
    }
}

/// The arguments `rest` of a call, behind the arguments `args` that were
/// read from `used` tokens before them.
pub open spec fn after_args(
    args: Seq<SpannedExprV>,
    used: nat,
    rest: Parse<Seq<SpannedExprV>>,
) -> Parse<Seq<SpannedExprV>> {
    match rest {
        Parse::Done(more, len) => Parse::Done(args + more, used + len),
        Parse::Failed(at) => Parse::Failed(at),
    }
}

/// An expression at position `pos`.
pub open spec fn parse_expr(ts: Tokens, pos: nat) -> Parse<SpannedExprV> {
    parse_level(ts, pos, 1)
}

/// An expression that is the whole input: what is left over after the
/// expression stands in the way.
pub open spec fn parse_whole(ts: Tokens) -> Parse<SpannedExprV> {
    match parse_expr(ts, 0) {
        Parse::Done(e, len) => if len == ts.len() {
            Parse::Done(e, len)
        } else {
            Parse::Failed(len)
        },
        Parse::Failed(at) => Parse::Failed(at),
    }
}

/// The statement that a keyword stands for when a `;` follows it: `break`,
/// `continue` or a breakpoint.
pub open spec fn jump_of(tok: Token) -> Option<ASTreeNode> {
    match tok {
        Token::Break => Some(ASTreeNode::Break),
        Token::Continue => Some(ASTreeNode::Continue),
        Token::Breakpoint => Some(ASTreeNode::Breakpoint),
        _ => None,
    }
}

/// A `break`, a `continue` or a breakpoint at position `pos`: the keyword
/// and a `;`. The span of the statement runs over both.
pub open spec fn parse_jump(ts: Tokens, pos: nat) -> Parse<Spanned<ASTreeNode>> {
    match token_at(ts, pos) {
        Some(tok) => match jump_of(tok) {
            Some(node) => if token_at(ts, pos + 1) == Some(Token::SColon) {
                Parse::Done((node, span_over(ts, pos, pos + 1)), 2)
            } else {
                Parse::Failed(pos + 1)
            },
            None => Parse::Failed(pos),
        },
        None => Parse::Failed(pos),
    }
}

/// The span that an error at position `at` points to: that of the token
/// there, or the empty span at the end of the last token where the input
/// ends too early.
pub open spec fn error_span(ts: Tokens, at: nat) -> Span {
    if at < ts.len() {
        ts[at as int].1
    } else if ts.len() > 0 {
        Span::spec_point(ts.last().1.end)
    } else {
        Span::spec_point(0)
    }
}

/// Whether the tree `e` stands on the `len` tokens at `pos`: they are at
/// least one, they lie inside the input, and the span of `e` runs from the
/// start of the first to the end of the last.
pub open spec fn stands_on(ts: Tokens, pos: nat, e: SpannedExprV, len: nat) -> bool {
    &&& len >= 1
    &&& pos + len <= ts.len()
    &&& e.1 == span_over(ts, pos, (pos + len - 1) as nat)
}

/// Whether a result of reading at `pos` is in order: a tree stands on the
/// tokens it was read from, and a failure points at `pos` or behind it, and
/// not past the end of the input.
pub open spec fn in_order(ts: Tokens, pos: nat, parsed: Parse<SpannedExprV>) -> bool {
    match parsed {
        Parse::Done(e, len) => stands_on(ts, pos, e, len),
        Parse::Failed(at) => pos <= at && (at <= ts.len() || at == pos),
    }
}

/// Whether a result of reading the arguments of a call at `pos` is in order:
/// they end with a `)` inside the input, and a failure points at `pos` or
/// behind it, and not past the end of the input.
pub open spec fn args_in_order(ts: Tokens, pos: nat, parsed: Parse<Seq<SpannedExprV>>) -> bool {
    match parsed {
        Parse::Done(args, len) => len >= 1 && pos + len <= ts.len() && token_at(
            ts,
            (pos + len - 1) as nat,
        ) == Some(Token::RParen),
        Parse::Failed(at) => pos <= at && (at <= ts.len() || at == pos),
    }
}

/// Every result of [`parse_level`] is in order.
pub proof fn lemma_parse_level(ts: Tokens, pos: nat, level: nat)
    ensures
        in_order(ts, pos, parse_level(ts, pos, level)),
    decreases remaining(ts, pos), 2 * levels_below(level) + 3,
{
    if level >= unary_level() {
        lemma_parse_unary(ts, pos);
    } else {
        lemma_parse_level(ts, pos, level + 1);
        match parse_level(ts, pos, level + 1) {
            Parse::Done(lhs, len) => lemma_parse_tail(ts, pos, lhs, len, level),
            Parse::Failed(at) => {},
        }
    }
}

/// Every result of [`parse_tail`] is in order, and stands on no fewer tokens
/// than the operand it started from.
proof fn lemma_parse_tail(ts: Tokens, start: nat, lhs: SpannedExprV, len: nat, level: nat)
    requires
        stands_on(ts, start, lhs, len),
    ensures
        in_order(ts, start, parse_tail(ts, start, lhs, len, level)),
        parse_tail(ts, start, lhs, len, level) matches Parse::Done(_, total) ==> total >= len,
        parse_tail(ts, start, lhs, len, level) matches Parse::Failed(at) ==> at > start + len,
    decreases remaining(ts, start + len), 2 * levels_below(level) + 2,
{
    if level < unary_level() {
        match operator_at(ts, start + len, level) {
            None => {},
            Some(op) => {
                lemma_parse_level(ts, start + len + 1, level + 1);
                match parse_level(ts, start + len + 1, level + 1) {
                    Parse::Done(rhs, more) => {
                        lemma_parse_tail(
                            ts,
                            start,
                            binary_node(op, lhs, rhs),
                            len + 1 + more,
                            level,
                        );
                    },
                    Parse::Failed(at) => {},
                }
            },
        }
    }
}

/// Every result of [`parse_unary`] is in order.
proof fn lemma_parse_unary(ts: Tokens, pos: nat)
    ensures
        in_order(ts, pos, parse_unary(ts, pos)),
    decreases remaining(ts, pos), 1nat,
{
    if token_at(ts, pos) == Some(Token::Minus) {
        lemma_parse_primary(ts, pos + 1);
    } else {
        lemma_parse_primary(ts, pos);
    }
}

/// Every result of [`parse_primary`] is in order.
proof fn lemma_parse_primary(ts: Tokens, pos: nat)
    ensures
        in_order(ts, pos, parse_primary(ts, pos)),
    decreases remaining(ts, pos), 0nat,
{
    match token_at(ts, pos) {
        None => {},
        Some(tok) => if name_of(tok) is Some {
            if token_at(ts, pos + 1) == Some(Token::LParen) {
                lemma_parse_args(ts, pos + 2);
            }
        } else if tok is LParen {
            lemma_parse_level(ts, pos + 1, 1);
        },
    }
}

/// Every result of [`parse_args`] is in order.
pub proof fn lemma_parse_args(ts: Tokens, pos: nat)
    ensures
        args_in_order(ts, pos, parse_args(ts, pos)),
    decreases remaining(ts, pos), 2 * unary_level() + 5,
{
    if token_at(ts, pos) != Some(Token::RParen) {
        lemma_parse_arg_list(ts, pos);
    }
}

/// Every result of [`parse_arg_list`] is in order.
proof fn lemma_parse_arg_list(ts: Tokens, pos: nat)
    ensures
        args_in_order(ts, pos, parse_arg_list(ts, pos)),
    decreases remaining(ts, pos), 2 * unary_level() + 4,
{
    lemma_parse_level(ts, pos, 1);
    match parse_level(ts, pos, 1) {
        Parse::Done(arg, len) => if token_at(ts, pos + len) == Some(Token::Comma) {
            lemma_parse_arg_list(ts, pos + len + 1);
        },
        Parse::Failed(at) => {},
    }
}

} // verus!
