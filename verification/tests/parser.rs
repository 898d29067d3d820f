use xs_check::ast::astree::ASTreeNode;
use xs_check::ast::expr::Expr;
use xs_check::ast::identifier::Identifier;
use xs_check::ast::literal::Literal;
use xs_check::diagnostics::ErrorKind;
use xs_check::lexer::token::Token;
use xs_check::parser::error::ParseError;
use xs_check::parser::expression::{expression, parse_expression};
use xs_check::parser::statement::break_or_continue::break_or_continue_or_breakpt;
use xs_check::span::{Span, Spanned};

/// Gives each token a span of two positions, with one position between
/// neighbours: token `i` spans `3 * i .. 3 * i + 2`.
fn p_spanned(tokens: Vec<Token>) -> Vec<Spanned<Token>> {
    tokens
        .into_iter()
        .enumerate()
        .map(|(i, tok)| (tok, Span { start: 3 * i, end: 3 * i + 2 }))
        .collect()
}

fn p_sp(first: usize, last: usize) -> Span {
    Span { start: 3 * first, end: 3 * last + 2 }
}

fn p_int(v: i64) -> Token {
    Token::Literal(Literal::Int(v))
}

fn p_name(s: &str) -> Token {
    Token::Identifier(Identifier::new(s))
}

fn p_lit(v: i64, at: usize) -> Box<Spanned<Expr>> {
    Box::new((Expr::Literal(Literal::Int(v)), p_sp(at, at)))
}

fn p_id(s: &str, at: usize) -> Box<Spanned<Expr>> {
    Box::new((Expr::Identifier(Identifier::new(s)), p_sp(at, at)))
}

#[test]
fn multiplication_binds_tighter_than_addition() {
    // 1 + 2 * 3
    let tokens = p_spanned(vec![p_int(1), Token::Plus, p_int(2), Token::Star, p_int(3)]);
    let expected = (
        Expr::Plus(p_lit(1, 0), Box::new((Expr::Star(p_lit(2, 2), p_lit(3, 4)), p_sp(2, 4)))),
        p_sp(0, 4),
    );
    assert_eq!(parse_expression(&tokens), Ok(expected));
}

#[test]
fn and_binds_tighter_than_or() {
    // a or b and c
    let tokens = p_spanned(vec![p_name("a"), Token::Or, p_name("b"), Token::And, p_name("c")]);
    let expected = (
        Expr::Or(p_id("a", 0), Box::new((Expr::And(p_id("b", 2), p_id("c", 4)), p_sp(2, 4)))),
        p_sp(0, 4),
    );
    assert_eq!(parse_expression(&tokens), Ok(expected));
}

#[test]
fn unary_minus_binds_tighter_than_multiplication() {
    // -1 * 2
    let tokens = p_spanned(vec![Token::Minus, p_int(1), Token::Star, p_int(2)]);
    let expected = (
        Expr::Star(Box::new((Expr::Neg(p_lit(1, 1)), p_sp(0, 1))), p_lit(2, 3)),
        p_sp(0, 3),
    );
    assert_eq!(parse_expression(&tokens), Ok(expected));
}

#[test]
fn subtraction_folds_to_the_left() {
    // a - b - c
    let tokens = p_spanned(vec![p_name("a"), Token::Minus, p_name("b"), Token::Minus, p_name("c")]);
    let expected = (
        Expr::Minus(
            Box::new((Expr::Minus(p_id("a", 0), p_id("b", 2)), p_sp(0, 2))),
            p_id("c", 4),
        ),
        p_sp(0, 4),
    );
    assert_eq!(parse_expression(&tokens), Ok(expected));
}

#[test]
fn all_six_binary_levels_nest_in_order() {
    // a or b and c == d < e + f * g
    let tokens = p_spanned(vec![
        p_name("a"),
        Token::Or,
        p_name("b"),
        Token::And,
        p_name("c"),
        Token::Deq,
        p_name("d"),
        Token::LT,
        p_name("e"),
        Token::Plus,
        p_name("f"),
        Token::Star,
        p_name("g"),
    ]);
    let mul = Box::new((Expr::Star(p_id("f", 10), p_id("g", 12)), p_sp(10, 12)));
    let add = Box::new((Expr::Plus(p_id("e", 8), mul), p_sp(8, 12)));
    let lt = Box::new((Expr::Lt(p_id("d", 6), add), p_sp(6, 12)));
    let eq = Box::new((Expr::Eq(p_id("c", 4), lt), p_sp(4, 12)));
    let and = Box::new((Expr::And(p_id("b", 2), eq), p_sp(2, 12)));
    let expected = (Expr::Or(p_id("a", 0), and), p_sp(0, 12));
    assert_eq!(parse_expression(&tokens), Ok(expected));
}

#[test]
fn every_operator_token_gives_its_node() {
    let cases: Vec<(Token, fn(Box<Spanned<Expr>>, Box<Spanned<Expr>>) -> Expr)> = vec![
        (Token::Star, Expr::Star),
        (Token::FSlash, Expr::FSlash),
        (Token::PCent, Expr::PCent),
        (Token::Plus, Expr::Plus),
        (Token::Minus, Expr::Minus),
        (Token::LT, Expr::Lt),
        (Token::GT, Expr::Gt),
        (Token::LE, Expr::Le),
        (Token::GE, Expr::Ge),
        (Token::Deq, Expr::Eq),
        (Token::Neq, Expr::Ne),
        (Token::And, Expr::And),
        (Token::Or, Expr::Or),
    ];
    for (tok, node) in cases {
        let tokens = p_spanned(vec![p_int(1), tok, p_int(2)]);
        let expected = (node(p_lit(1, 0), p_lit(2, 2)), p_sp(0, 2));
        assert_eq!(parse_expression(&tokens), Ok(expected));
    }
}

#[test]
fn parentheses_override_precedence() {
    // (1 + 2) * 3
    let tokens = p_spanned(vec![
        Token::LParen,
        p_int(1),
        Token::Plus,
        p_int(2),
        Token::RParen,
        Token::Star,
        p_int(3),
    ]);
    let sum = Box::new((Expr::Plus(p_lit(1, 1), p_lit(2, 3)), p_sp(1, 3)));
    let expected = (Expr::Star(Box::new((Expr::Paren(sum), p_sp(0, 4))), p_lit(3, 6)), p_sp(0, 6));
    assert_eq!(parse_expression(&tokens), Ok(expected));
}

#[test]
fn call_with_arguments() {
    // f(1, a + 2)
    let tokens = p_spanned(vec![
        p_name("f"),
        Token::LParen,
        p_int(1),
        Token::Comma,
        p_name("a"),
        Token::Plus,
        p_int(2),
        Token::RParen,
    ]);
    let expected = (
        Expr::FnCall {
            name: (Identifier::new("f"), p_sp(0, 0)),
            args: vec![*p_lit(1, 2), (Expr::Plus(p_id("a", 4), p_lit(2, 6)), p_sp(4, 6))],
        },
        p_sp(0, 7),
    );
    assert_eq!(parse_expression(&tokens), Ok(expected));
}

#[test]
fn call_without_arguments() {
    let tokens = p_spanned(vec![p_name("f"), Token::LParen, Token::RParen]);
    let expected =
        (Expr::FnCall { name: (Identifier::new("f"), p_sp(0, 0)), args: vec![] }, p_sp(0, 2));
    assert_eq!(parse_expression(&tokens), Ok(expected));
}

#[test]
fn vector_keyword_names_a_function() {
    // vector(1, 2, 3)
    let tokens = p_spanned(vec![
        Token::Vector,
        Token::LParen,
        p_int(1),
        Token::Comma,
        p_int(2),
        Token::Comma,
        p_int(3),
        Token::RParen,
    ]);
    let expected = (
        Expr::FnCall {
            name: (Identifier::new("vector"), p_sp(0, 0)),
            args: vec![*p_lit(1, 2), *p_lit(2, 4), *p_lit(3, 6)],
        },
        p_sp(0, 7),
    );
    assert_eq!(parse_expression(&tokens), Ok(expected));
}

#[test]
fn trailing_comma_in_call_is_rejected() {
    // f(1, )
    let tokens =
        p_spanned(vec![p_name("f"), Token::LParen, p_int(1), Token::Comma, Token::RParen]);
    assert_eq!(parse_expression(&tokens), Err(ParseError { at: 4, span: p_sp(4, 4) }));
}

#[test]
fn a_name_before_a_parenthesis_commits_to_a_call() {
    // f ( +   -- the call is not given up for the bare name
    let tokens = p_spanned(vec![p_name("f"), Token::LParen, Token::Plus]);
    assert_eq!(expression(&tokens, 0), Err(ParseError { at: 2, span: p_sp(2, 2) }));
}

#[test]
fn unclosed_parenthesis_fails_at_end_of_input() {
    // ( 1
    let tokens = p_spanned(vec![Token::LParen, p_int(1)]);
    let err = parse_expression(&tokens).unwrap_err();
    assert_eq!(err, ParseError { at: 2, span: Span { start: 5, end: 5 } });
    assert_eq!(err.found(&tokens), None);
    let diag = err.diagnostic(&tokens);
    assert_eq!(diag.kind, ErrorKind::Syntax);
    assert_eq!(diag.msg, "Unexpected end of input");
    assert_eq!(diag.span, Span { start: 5, end: 5 });
}

#[test]
fn empty_input_fails_at_position_zero() {
    let tokens: Vec<Spanned<Token>> = vec![];
    assert_eq!(parse_expression(&tokens), Err(ParseError { at: 0, span: Span { start: 0, end: 0 } }));
}

#[test]
fn operator_without_operand_fails_behind_it() {
    // 1 +
    let tokens = p_spanned(vec![p_int(1), Token::Plus]);
    assert_eq!(parse_expression(&tokens), Err(ParseError { at: 2, span: Span { start: 5, end: 5 } }));
}

#[test]
fn unexpected_token_is_identified() {
    // 1 + ;
    let tokens = p_spanned(vec![p_int(1), Token::Plus, Token::SColon]);
    let err = parse_expression(&tokens).unwrap_err();
    assert_eq!(err, ParseError { at: 2, span: p_sp(2, 2) });
    assert_eq!(err.found(&tokens), Some(&Token::SColon));
    let diag = err.diagnostic(&tokens);
    assert_eq!(diag.kind, ErrorKind::Syntax);
    assert_eq!(diag.msg, "Unexpected token");
    assert_eq!(diag.span, p_sp(2, 2));
}

#[test]
fn double_unary_minus_is_rejected() {
    // - - 1
    let tokens = p_spanned(vec![Token::Minus, Token::Minus, p_int(1)]);
    assert_eq!(parse_expression(&tokens), Err(ParseError { at: 1, span: p_sp(1, 1) }));
}

#[test]
fn expression_stops_before_what_is_not_part_of_it() {
    // a + 1 ; b
    let tokens =
        p_spanned(vec![p_name("a"), Token::Plus, p_int(1), Token::SColon, p_name("b")]);
    let expected = (Expr::Plus(p_id("a", 0), p_lit(1, 2)), p_sp(0, 2));
    assert_eq!(expression(&tokens, 0), Ok((expected, 3)));
    // the whole input is not one expression: the `;` is left over
    assert_eq!(parse_expression(&tokens), Err(ParseError { at: 3, span: p_sp(3, 3) }));
    // reading from the middle
    assert_eq!(expression(&tokens, 4), Ok((*p_id("b", 4), 5)));
}

#[test]
fn reading_behind_the_input_fails_there() {
    let tokens = p_spanned(vec![p_int(1)]);
    assert_eq!(expression(&tokens, 1), Err(ParseError { at: 1, span: Span { start: 2, end: 2 } }));
    assert_eq!(expression(&tokens, 7), Err(ParseError { at: 7, span: Span { start: 2, end: 2 } }));
}

#[test]
fn literals_of_every_kind_are_primaries() {
    let float = Literal::Float(2.5f64.to_bits());
    let text = Literal::Str(String::from("hi"));
    for lit in [Literal::Int(7), float, text] {
        let tokens = p_spanned(vec![Token::Literal(lit.clone())]);
        assert_eq!(parse_expression(&tokens), Ok((Expr::Literal(lit), p_sp(0, 0))));
    }
}

#[test]
fn break_continue_and_breakpoint_statements() {
    let cases = [
        (Token::Break, ASTreeNode::Break),
        (Token::Continue, ASTreeNode::Continue),
        (Token::Breakpoint, ASTreeNode::Breakpoint),
    ];
    for (tok, node) in cases {
        let tokens = p_spanned(vec![p_name("x"), tok, Token::SColon]);
        assert_eq!(break_or_continue_or_breakpt(&tokens, 1), Ok(((node, p_sp(1, 2)), 3)));
    }
}

#[test]
fn break_without_semicolon_fails_behind_the_keyword() {
    let tokens = p_spanned(vec![Token::Break, Token::RBrace]);
    assert_eq!(
        break_or_continue_or_breakpt(&tokens, 0),
        Err(ParseError { at: 1, span: p_sp(1, 1) })
    );
    let tokens = p_spanned(vec![Token::Continue]);
    assert_eq!(
        break_or_continue_or_breakpt(&tokens, 0),
        Err(ParseError { at: 1, span: Span { start: 2, end: 2 } })
    );
}

#[test]
fn other_keywords_are_no_jump_statements() {
    let tokens = p_spanned(vec![Token::Return, Token::SColon]);
    assert_eq!(
        break_or_continue_or_breakpt(&tokens, 0),
        Err(ParseError { at: 0, span: p_sp(0, 0) })
    );
    assert_eq!(
        break_or_continue_or_breakpt(&tokens, 2),
        Err(ParseError { at: 2, span: Span { start: 5, end: 5 } })
    );
}
