//! What holds of every tree that the grammar gives.
//!
//! A tree spells the tokens it was read from: written out again, node by
//! node, it gives those tokens, and the span of every node runs from the
//! start of its first token to the end of its last. And a tree is bracketed
//! by precedence: the operands of a binary node bind as strongly as its
//! operator on the left, and more strongly on the right.
use vstd::prelude::*;
use crate::ast::expr::{ExprV, SpannedExprV, UnOp};
use crate::lexer::token::Token;
use crate::parser::grammar::{
    binary_node, binary_op, level_of, levels_below, name_of, operator_at, parse_arg_list,
    parse_args, parse_expr, parse_level, parse_primary, parse_tail, parse_unary, remaining,
    span_over, token_at, unary_level, Parse, Tokens,
};

verus! {

/// The number of tokens that spell the tree `e`.
pub open spec fn width(e: ExprV) -> nat
    decreases e,
{
    match e {
        ExprV::Literal(_) => 1,
        ExprV::Identifier(_) => 1,
        ExprV::Paren(inner) => width(inner.0) + 2,
        ExprV::Vec { x, y, z } => width(x.0) + width(y.0) + width(z.0) + 4,
        ExprV::FnCall { name, args } => args_width(args) + 3,
        ExprV::Unary(_, operand) => width(operand.0) + 1,
        ExprV::Binary(_, lhs, rhs) => width(lhs.0) + 1 + width(rhs.0),
    }
}

/// The number of tokens that spell the arguments `args`, with the commas
/// between them.
pub open spec fn args_width(args: Seq<SpannedExprV>) -> nat
    decreases args,
{
    if args.len() == 0 {
        0
    } else if args.len() == 1 {
        width(args[0].0)
    } else {
        width(args[0].0) + 1 + args_width(args.drop_first())
    }
}

/// Whether the tokens from position `pos` on spell the tree `e`, with the
/// span of every node running over the tokens of the node.
pub open spec fn spells(ts: Tokens, pos: nat, e: SpannedExprV) -> bool
    decreases e,
{
    &&& pos + width(e.0) <= ts.len()
    &&& e.1 == span_over(ts, pos, (pos + width(e.0) - 1) as nat)
    &&& match e.0 {
        ExprV::Literal(lit) => token_at(ts, pos) matches Some(Token::Literal(l)) && l@ == lit,
        ExprV::Identifier(name) => token_at(ts, pos) matches Some(tok) && name_of(tok) == Some(
            name,
        ),
        ExprV::Paren(inner) => {
            &&& token_at(ts, pos) == Some(Token::LParen)
            &&& spells(ts, pos + 1, *inner)
            &&& token_at(ts, pos + 1 + width(inner.0)) == Some(Token::RParen)
        },
        ExprV::FnCall { name, args } => {
            &&& token_at(ts, pos) matches Some(tok) && name_of(tok) == Some(name.0)
            &&& name.1 == ts[pos as int].1
            &&& token_at(ts, pos + 1) == Some(Token::LParen)
            &&& args_spell(ts, pos + 2, args)
            &&& token_at(ts, pos + 2 + args_width(args)) == Some(Token::RParen)
        },
        ExprV::Unary(op, operand) => {
            &&& op == UnOp::Neg
            &&& token_at(ts, pos) == Some(Token::Minus)
            &&& spells(ts, pos + 1, *operand)
        },
        ExprV::Binary(op, lhs, rhs) => {
            &&& spells(ts, pos, *lhs)
            &&& token_at(ts, pos + width(lhs.0)) matches Some(tok) && binary_op(tok) == Some(op)
            &&& spells(ts, pos + width(lhs.0) + 1, *rhs)
        },
        ExprV::Vec { .. } => false,
    }
}

/// Whether the tokens from position `pos` on spell the arguments `args`,
/// with a comma between every two.
pub open spec fn args_spell(ts: Tokens, pos: nat, args: Seq<SpannedExprV>) -> bool
    decreases args,
{
    if args.len() == 0 {
        true
    } else if args.len() == 1 {
        spells(ts, pos, args[0])
    } else {
        &&& spells(ts, pos, args[0])
        &&& token_at(ts, pos + width(args[0].0)) == Some(Token::Comma)
        &&& args_spell(ts, pos + width(args[0].0) + 1, args.drop_first())
    }
}

/// How strongly the tree `e` binds at its root: the level of its operator,
/// and past all operators where it is a primary.
pub open spec fn binding(e: ExprV) -> nat {
    match e {
        ExprV::Binary(op, _, _) => level_of(op),
        ExprV::Unary(_, _) => unary_level(),
        _ => unary_level() + 1,
    }
}

/// Whether the tree `e` is bracketed by precedence: at every binary node
/// the left operand binds as strongly as the operator or more, and the right
/// operand more strongly, so that operators of one level fold to the left;
/// and a unary minus stands on a primary.
pub open spec fn bracketed(e: ExprV) -> bool
    decreases e,
{
    match e {
        ExprV::Literal(_) => true,
        ExprV::Identifier(_) => true,
        ExprV::Paren(inner) => bracketed(inner.0),
        ExprV::Vec { x, y, z } => bracketed(x.0) && bracketed(y.0) && bracketed(z.0),
        ExprV::FnCall { name, args } => all_bracketed(args),
        ExprV::Unary(_, operand) => binding(operand.0) > unary_level() && bracketed(operand.0),
        ExprV::Binary(op, lhs, rhs) => {
            &&& binding(lhs.0) >= level_of(op)
            &&& binding(rhs.0) > level_of(op)
            &&& bracketed(lhs.0)
            &&& bracketed(rhs.0)
        },
    }
}

/// Whether every tree of `args` is bracketed by precedence.
pub open spec fn all_bracketed(args: Seq<SpannedExprV>) -> bool
    decreases args,
{
    args.len() > 0 ==> bracketed(args[0].0) && all_bracketed(args.drop_first())
}

/// Whether an expression of level `level` that ends before position `after`
/// ends there for good: the token at `after` is no binary operator of that
/// level or a stronger one, which would go on with the expression, and no
/// `(` behind a name, which would make the name a call.
pub open spec fn ends(ts: Tokens, after: nat, level: nat) -> bool {
    &&& match token_at(ts, after) {
        Some(tok) => match binary_op(tok) {
            Some(op) => level_of(op) < level,
            None => true,
        },
        None => true,
    }
    &&& !(after > 0 && name_of(ts[after - 1].0) is Some && token_at(ts, after) == Some(
        Token::LParen,
    ))
}

/// Whether the tree `e`, given for position `pos` as read from `len` tokens
/// at level `level`, is faithful: it spells exactly those tokens, is
/// bracketed by precedence, binds at least at that level, and ends for good
/// where it ends.
pub open spec fn faithful(ts: Tokens, pos: nat, e: SpannedExprV, len: nat, level: nat) -> bool {
    &&& len == width(e.0)
    &&& spells(ts, pos, e)
    &&& bracketed(e.0)
    &&& binding(e.0) >= level
    &&& ends(ts, pos + len, level)
}

/// Whether the arguments `args`, given for position `pos` as read from `len`
/// tokens up to and with the `)`, are faithful.
pub open spec fn faithful_args(ts: Tokens, pos: nat, args: Seq<SpannedExprV>, len: nat) -> bool {
    &&& len == args_width(args) + 1
    &&& args_spell(ts, pos, args)
    &&& all_bracketed(args)
    &&& token_at(ts, pos + args_width(args)) == Some(Token::RParen)
}

proof fn lemma_level(ts: Tokens, pos: nat, level: nat)
    ensures
        parse_level(ts, pos, level) matches Parse::Done(e, len) ==> faithful(
            ts,
            pos,
            e,
            len,
            if level < unary_level() {
                level
            } else {
                unary_level()
            },
        ),
    decreases remaining(ts, pos), 2 * levels_below(level) + 3,
{
    if level >= unary_level() {
        lemma_unary(ts, pos);
    } else {
        lemma_level(ts, pos, level + 1);
        match parse_level(ts, pos, level + 1) {
            Parse::Done(lhs, len) => lemma_tail(ts, pos, lhs, len, level),
            Parse::Failed(at) => {},
        }
    }
}

proof fn lemma_tail(ts: Tokens, start: nat, lhs: SpannedExprV, len: nat, level: nat)
    requires
        level < unary_level(),
        len == width(lhs.0),
        spells(ts, start, lhs),
        bracketed(lhs.0),
        binding(lhs.0) >= level,
        ends(ts, start + len, level + 1),
    ensures
        parse_tail(ts, start, lhs, len, level) matches Parse::Done(e, total) ==> faithful(
            ts,
            start,
            e,
            total,
            level,
        ),
    decreases remaining(ts, start + len), 2 * levels_below(level) + 2,
{
    match operator_at(ts, start + len, level) {
        None => {},
        Some(op) => {
            lemma_level(ts, start + len + 1, level + 1);
            match parse_level(ts, start + len + 1, level + 1) {
                Parse::Done(rhs, more) => {
                    lemma_tail(ts, start, binary_node(op, lhs, rhs), len + 1 + more, level);
                },
                Parse::Failed(at) => {},
            }
        },
    }
}

proof fn lemma_unary(ts: Tokens, pos: nat)
    ensures
        parse_unary(ts, pos) matches Parse::Done(e, len) ==> faithful(
            ts,
            pos,
            e,
            len,
            unary_level(),
        ),
    decreases remaining(ts, pos), 1nat,
{
    if token_at(ts, pos) == Some(Token::Minus) {
        lemma_primary(ts, pos + 1);
    } else {
        lemma_primary(ts, pos);
    }
}

proof fn lemma_primary(ts: Tokens, pos: nat)
    ensures
        parse_primary(ts, pos) matches Parse::Done(e, len) ==> faithful(
            ts,
            pos,
            e,
            len,
            unary_level() + 1,
        ),
    decreases remaining(ts, pos), 0nat,
{
    match token_at(ts, pos) {
        None => {},
        Some(tok) => if name_of(tok) is Some {
            if token_at(ts, pos + 1) == Some(Token::LParen) {
                lemma_args(ts, pos + 2);
            }
        } else if tok is LParen {
            lemma_level(ts, pos + 1, 1);
        },
    }
}

proof fn lemma_args(ts: Tokens, pos: nat)
    ensures
        parse_args(ts, pos) matches Parse::Done(args, len) ==> faithful_args(ts, pos, args, len),
    decreases remaining(ts, pos), 2 * unary_level() + 5,
{
    if token_at(ts, pos) != Some(Token::RParen) {
        lemma_arg_list(ts, pos);
    }
}

proof fn lemma_arg_list(ts: Tokens, pos: nat)
    ensures
        parse_arg_list(ts, pos) matches Parse::Done(args, len) ==> args.len() > 0
            && faithful_args(ts, pos, args, len),
    decreases remaining(ts, pos), 2 * unary_level() + 4,
{
    lemma_level(ts, pos, 1);
    match parse_level(ts, pos, 1) {
        Parse::Done(arg, len) => if token_at(ts, pos + len) == Some(Token::RParen) {
            let args = seq![arg];
            assert(args[0] == arg);
            assert(args.drop_first() =~= Seq::empty());
            assert(all_bracketed(args.drop_first()));
            assert(all_bracketed(args));
            assert(args_width(args) == width(arg.0));
            assert(args_spell(ts, pos, args));
        } else if token_at(ts, pos + len) == Some(Token::Comma) {
            lemma_arg_list(ts, pos + len + 1);
            match parse_arg_list(ts, pos + len + 1) {
                Parse::Done(rest, more) => {
                    let args = seq![arg] + rest;
                    assert(args.drop_first() =~= rest);
                    assert(args[0] == arg);
                    assert(args.len() >= 2);
                    assert(all_bracketed(args));
                    assert(args_width(args) == width(arg.0) + 1 + args_width(rest));
                    assert(args_spell(ts, pos, args));
                },
                Parse::Failed(at) => {},
            }
        },
        Parse::Failed(at) => {},
    }
}

/// The tree read at a position spells the tokens it was read from, and as
/// many: written out again it gives those tokens, and the span of every
/// node of it runs from the start of the node's first token to the end of
/// its last.
pub proof fn law_tree_spells_its_tokens(ts: Tokens, pos: nat)
    ensures
        parse_expr(ts, pos) matches Parse::Done(e, len) ==> len == width(e.0) && spells(
            ts,
            pos,
            e,
        ),
{
    lemma_level(ts, pos, 1);
}

/// The tree read at a position is bracketed by precedence: `or` binds
/// weakest, then `and`, equality, comparison, addition and multiplication,
/// then the unary minus; operators of one level fold to the left.
pub proof fn law_tree_is_bracketed(ts: Tokens, pos: nat)
    ensures
        parse_expr(ts, pos) matches Parse::Done(e, len) ==> bracketed(e.0),
{
    lemma_level(ts, pos, 1);
}

/// The tree read at a position is the longest: the token behind it is no
/// binary operator, and no `(` behind a name.
pub proof fn law_tree_is_longest(ts: Tokens, pos: nat)
    ensures
        parse_expr(ts, pos) matches Parse::Done(e, len) ==> ends(ts, pos + len, 1),
{
    lemma_level(ts, pos, 1);
}

/// A tree that is spelled from a position on does not start with a `)` nor
/// with a `,`, and is spelled by one token at least.
proof fn lemma_start(ts: Tokens, pos: nat, e: SpannedExprV)
    requires
        spells(ts, pos, e),
    ensures
        token_at(ts, pos) is Some,
        token_at(ts, pos) != Some(Token::RParen),
        token_at(ts, pos) != Some(Token::Comma),
        width(e.0) >= 1,
    decreases e,
{
    match e.0 {
        ExprV::Binary(op, lhs, rhs) => {
            lemma_start(ts, pos, *lhs);
        },
        _ => {},
    }
}

/// Reading at level `level` where the tree `e` is spelled, and ends for good
/// at that level, gives `e`.
proof fn lemma_complete_level(ts: Tokens, pos: nat, e: SpannedExprV, level: nat)
    requires
        1 <= level <= unary_level(),
        spells(ts, pos, e),
        bracketed(e.0),
        binding(e.0) >= level,
        ends(ts, pos + width(e.0), level),
    ensures
        parse_level(ts, pos, level) == Parse::Done(e, width(e.0)),
    decreases e, levels_below(level), 1nat,
{
    lemma_start(ts, pos, e);
    reveal_with_fuel(spells, 2);
    if level >= unary_level() {
        match e.0 {
            ExprV::Unary(op, operand) => {
                lemma_complete_primary(ts, pos + 1, *operand);
                assert(parse_unary(ts, pos) == Parse::Done(e, width(e.0)));
            },
            ExprV::Binary(_, _, _) => {},
            _ => {
                lemma_complete_primary(ts, pos, e);
                assert(token_at(ts, pos) != Some(Token::Minus));
                assert(parse_unary(ts, pos) == Parse::Done(e, width(e.0)));
            },
        }
    } else {
        lemma_complete_fold(ts, pos, e, level);
    }
}

/// Reading at level `level` where the tree `e` is spelled, and ends for good
/// at the next level, comes to `e` and goes on from there with the operators
/// of level `level`.
proof fn lemma_complete_fold(ts: Tokens, pos: nat, e: SpannedExprV, level: nat)
    requires
        1 <= level < unary_level(),
        spells(ts, pos, e),
        bracketed(e.0),
        binding(e.0) >= level,
        ends(ts, pos + width(e.0), level + 1),
    ensures
        parse_level(ts, pos, level) == parse_tail(ts, pos, e, width(e.0), level),
    decreases e, levels_below(level), 0nat,
{
    lemma_start(ts, pos, e);
    reveal_with_fuel(spells, 2);
    if binding(e.0) > level {
        lemma_complete_level(ts, pos, e, level + 1);
    } else {
        match e.0 {
            ExprV::Binary(op, lhs, rhs) => {
                lemma_start(ts, pos, *lhs);
                lemma_start(ts, pos + width(lhs.0) + 1, *rhs);
                lemma_complete_fold(ts, pos, *lhs, level);
                lemma_complete_level(ts, pos + width(lhs.0) + 1, *rhs, level + 1);
                assert(operator_at(ts, pos + width(lhs.0), level) == Some(op));
                assert(binary_node(op, *lhs, *rhs) == e);
            },
            _ => {},
        }
    }
}

/// Reading a primary where the primary `e` is spelled, and ends for good,
/// gives `e`.
proof fn lemma_complete_primary(ts: Tokens, pos: nat, e: SpannedExprV)
    requires
        spells(ts, pos, e),
        bracketed(e.0),
        binding(e.0) > unary_level(),
        ends(ts, pos + width(e.0), unary_level()),
    ensures
        parse_primary(ts, pos) == Parse::Done(e, width(e.0)),
    decreases e, 0nat, 0nat,
{
    reveal_with_fuel(spells, 2);
    reveal_with_fuel(args_spell, 2);
    match e.0 {
        ExprV::Paren(inner) => {
            lemma_start(ts, pos + 1, *inner);
            lemma_complete_level(ts, pos + 1, *inner, 1);
        },
        ExprV::FnCall { name, args } => {
            if args.len() > 0 {
                lemma_start(ts, pos + 2, args[0]);
                lemma_complete_args(ts, pos + 2, args);
            } else {
                assert(args =~= Seq::empty());
            }
        },
        _ => {},
    }
}

/// Reading arguments where the arguments `args` are spelled, with a `)`
/// behind them, gives `args`.
proof fn lemma_complete_args(ts: Tokens, pos: nat, args: Seq<SpannedExprV>)
    requires
        args.len() > 0,
        args_spell(ts, pos, args),
        all_bracketed(args),
        token_at(ts, pos + args_width(args)) == Some(Token::RParen),
    ensures
        parse_arg_list(ts, pos) == Parse::Done(args, args_width(args) + 1),
    decreases args, 0nat, 0nat,
{
    let arg = args[0];
    reveal_with_fuel(args_spell, 2);
    reveal_with_fuel(all_bracketed, 2);
    lemma_start(ts, pos, arg);
    lemma_complete_level(ts, pos, arg, 1);
    if args.len() == 1 {
        assert(args =~= seq![arg]);
    } else {
        let rest = args.drop_first();
        lemma_complete_args(ts, pos + width(arg.0) + 1, rest);
        assert(args =~= seq![arg] + rest);
    }
}

/// Reading at a position gives the tree `e` exactly where `e` is the
/// longest tree, bracketed by precedence, that the tokens from that position
/// on spell; and reading fails exactly where they spell no such tree.
pub proof fn law_parse_reads_the_longest_bracketed_tree(ts: Tokens, pos: nat, e: SpannedExprV)
    ensures
        parse_expr(ts, pos) == Parse::Done(e, width(e.0)) <==> spells(ts, pos, e) && bracketed(
            e.0,
        ) && ends(ts, pos + width(e.0), 1),
        parse_expr(ts, pos) matches Parse::Done(tree, len) ==> len == width(tree.0),
{
    lemma_level(ts, pos, 1);
    if spells(ts, pos, e) && bracketed(e.0) && ends(ts, pos + width(e.0), 1) {
        lemma_complete_level(ts, pos, e, 1);
    }
}

} // verus!
