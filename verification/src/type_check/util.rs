//! The rules for literals, operators and type compatibility.
use vstd::prelude::*;
use vstd::string::StringExecFns;
use crate::ast::expr::Expr;
use crate::ast::literal::Literal;
use crate::ast::type_::{Type, TypeV};
use crate::diagnostics::{diagnostics, report, type_err, warn, XSError};
use crate::span::{Span, Spanned};
use crate::type_check::expression::xs_tc_expr;
use crate::type_check::rules::{
    arith_outcome, check_expr, compat_diags, int_lit_diags, logical_outcome, num_lit_diags,
    reln_outcome,
};
use crate::type_env::TypeEnv;

verus! {

/// The mathematical value of an optional type.
pub open spec fn type_opt_view(ty: Option<&Type>) -> Option<TypeV> {
    match ty {
        Some(t) => Some(t@),
        None => None,
    }
}

/// Whether two pieces of text hold the same characters.
pub fn same_text(a: &str, b: &str) -> (r: bool)
    ensures
        r == (a@ == b@),
{
    let x = a.to_owned();
    let y = b.to_owned();
    x == y
}

/// Checks that an `int` literal has at most nine digits: a type error where
/// its magnitude is over 999,999,999, nothing else.
pub fn chk_int_lit(val: &i64, span: &Span) -> (errs: Vec<XSError>)
    ensures
        diagnostics(errs@) == int_lit_diags(*val as int, *span),
{
    let mut errs: Vec<XSError> = Vec::new();
    if *val < -999_999_999 || 999_999_999 < *val {
        report(&mut errs, type_err("`int` literals cannot have more than 9 digits", span));
    }
    assert(diagnostics(errs@) =~= int_lit_diags(*val as int, *span));
    errs
}

/// Checks a component of a vector literal: it must be an `int` or `float`
/// literal, after at most one unary minus. `is_neg` says that a minus was
/// stripped already. The result holds one type error, or nothing.
pub fn chk_num_lit(expr: &Spanned<Expr>, is_neg: bool) -> (errs: Vec<XSError>)
    ensures
        diagnostics(errs@) == num_lit_diags(expr@, is_neg),
    decreases expr,
{
    let span = &expr.1;
    let mut errs: Vec<XSError> = Vec::new();
    match &expr.0 {
        Expr::Neg(inner) => {
            if is_neg {
                report(
                    &mut errs,
                    type_err("Unary negative may only be used with `int | float` literals", span),
                );
            } else {
                errs = chk_num_lit(inner, true);
            }
        },
        Expr::Literal(lit) => match lit {
            Literal::Int(val) => {
                errs = chk_int_lit(val, span);
            },
            Literal::Float(_) => {},
            _ => {
                report(&mut errs, type_err("Expected a value of type `int | float`", span));
            },
        },
        _ => {
            report(
                &mut errs,
                type_err("Only `int | float` literals are allowed in vector initialisations", span),
            );
        },
    }
    assert(diagnostics(errs@) =~= num_lit_diags(expr@, is_neg));
    errs
}

/// The message of a type error about an operation on two types.
fn cannot_combine(op_name: &str, type1: &Type, type2: &Type) -> (msg: String)
    ensures
        msg@ == "Cannot "@ + op_name@ + " types `"@ + type1@.name() + "` and `"@ + type2@.name()
            + "`"@,
{
    let mut msg = String::from_str("Cannot ");
    msg.append(op_name);
    msg.append(" types `");
    msg.append(type1.name().as_str());
    msg.append("` and `");
    msg.append(type2.name().as_str());
    msg.append("`");
    msg
}

/// Checks an arithmetic operation named `op_name` on `expr1` and `expr2`.
///
/// Both operands are checked. Where both have a type: `int` with `int` is
/// `int`; `int` with `float` is `int`, with a warning that the result follows
/// the left operand; `float` with `int` or `float` is `float`; text with
/// anything is text, under the name `add` only; anything else is a type
/// error, and the operation has no type.
pub fn arith_op<'src>(
    span: &'src Span,
    expr1: &'src Spanned<Expr>,
    expr2: &'src Spanned<Expr>,
    type_env: &'src TypeEnv,
    errs: &mut Vec<XSError>,
    op_name: &str,
) -> (ty: Option<&'src Type>)
    ensures
        type_opt_view(ty) == arith_outcome(*span, expr1@, expr2@, type_env@, op_name@).ty,
        diagnostics(final(errs)@) == diagnostics(old(errs)@) + arith_outcome(
            *span,
            expr1@,
            expr2@,
            type_env@,
            op_name@,
        ).diags,
    decreases expr1.0@.size() + expr2.0@.size(), 0nat,
{
    proof {
        expr1.0@.lemma_size_positive();
        expr2.0@.lemma_size_positive();
    }
    let ghost before = diagnostics(errs@);
    let ghost o1 = check_expr(expr1@, type_env@);
    let ghost o2 = check_expr(expr2@, type_env@);
    let found1 = xs_tc_expr(expr1, type_env, errs);
    let found2 = xs_tc_expr(expr2, type_env, errs);
    assert(diagnostics(errs@) =~= before + (o1.diags + o2.diags));
    let (type1, type2) = match (found1, found2) {
        (Some(type1), Some(type2)) => (type1, type2),
        _ => {
            return None;
        },
    };
    let ty = match (type1, type2) {
        (Type::Int, Type::Int) => Some(&Type::Int),
        (Type::Int, Type::Float) => {
            report(
                errs,
                warn(
                    "This expression yields an `int`, not a `float`.\n\nThe resulting type of an arithmetic operation depends on its first operand. yES.",
                    span,
                ),
            );
            Some(&Type::Int)
        },
        (Type::Float, Type::Int) | (Type::Float, Type::Float) => Some(&Type::Float),
        _ => {
            let joins = match (type1, type2) {
                (Type::Str, _) | (_, Type::Str) => same_text(op_name, "add"),
                _ => false,
            };
            if joins {
                Some(&Type::Str)
            } else {
                let msg = cannot_combine(op_name, type1, type2);
                report(errs, type_err(msg.as_str(), span));
                None
            }
        },
    };
    assert(diagnostics(errs@) =~= before + arith_outcome(
        *span,
        expr1@,
        expr2@,
        type_env@,
        op_name@,
    ).diags);
    ty
}

/// Checks a comparison of `expr1` and `expr2`. Every comparison operator is
/// held to the same rule, whatever its name `op_name`.
///
/// Both operands are checked. Where both have a type: two numbers compare,
/// and so do two texts; two vectors, or two `bool`s, compare with a warning
/// that the comparison will crash when it runs; anything else is a type
/// error, and the comparison has no type.
pub fn reln_op<'src>(
    span: &'src Span,
    expr1: &'src Spanned<Expr>,
    expr2: &'src Spanned<Expr>,
    type_env: &'src TypeEnv,
    errs: &mut Vec<XSError>,
    op_name: &str,
) -> (ty: Option<&'src Type>)
    ensures
        type_opt_view(ty) == reln_outcome(*span, expr1@, expr2@, type_env@).ty,
        diagnostics(final(errs)@) == diagnostics(old(errs)@) + reln_outcome(
            *span,
            expr1@,
            expr2@,
            type_env@,
        ).diags,
    decreases expr1.0@.size() + expr2.0@.size(), 0nat,
{
    proof {
        expr1.0@.lemma_size_positive();
        expr2.0@.lemma_size_positive();
    }
    let ghost before = diagnostics(errs@);
    let ghost o1 = check_expr(expr1@, type_env@);
    let ghost o2 = check_expr(expr2@, type_env@);
    let found1 = xs_tc_expr(expr1, type_env, errs);
    let found2 = xs_tc_expr(expr2, type_env, errs);
    assert(diagnostics(errs@) =~= before + (o1.diags + o2.diags));
    let (type1, type2) = match (found1, found2) {
        (Some(type1), Some(type2)) => (type1, type2),
        _ => {
            return None;
        },
    };
    let ty = match (type1, type2) {
        (Type::Int, Type::Int)
        | (Type::Int, Type::Float)
        | (Type::Float, Type::Int)
        | (Type::Float, Type::Float) => Some(&Type::Bool),
        (Type::Str, Type::Str) => Some(&Type::Bool),
        (Type::Vec, Type::Vec) | (Type::Bool, Type::Bool) => {
            report(errs, warn("This comparison will cause a silent XS crash!", span));
            Some(&Type::Bool)
        },
        _ => {
            let mut msg = String::from_str("Cannot compare types `");
            msg.append(type1.name().as_str());
            msg.append("` and `");
            msg.append(type2.name().as_str());
            msg.append("`");
            report(errs, type_err(msg.as_str(), span));
            None
        },
    };
    assert(diagnostics(errs@) =~= before + reln_outcome(*span, expr1@, expr2@, type_env@).diags);
    ty
}

/// Checks a logical operation named `op_name` on `expr1` and `expr2`.
///
/// Both operands are checked. Where both have a type: two `bool`s give a
/// `bool`; anything else is a type error, and the operation has no type.
pub fn logical_op<'src>(
    span: &'src Span,
    expr1: &'src Spanned<Expr>,
    expr2: &'src Spanned<Expr>,
    type_env: &'src TypeEnv,
    errs: &mut Vec<XSError>,
    op_name: &str,
) -> (ty: Option<&'src Type>)
    ensures
        type_opt_view(ty) == logical_outcome(*span, expr1@, expr2@, type_env@, op_name@).ty,
        diagnostics(final(errs)@) == diagnostics(old(errs)@) + logical_outcome(
            *span,
            expr1@,
            expr2@,
            type_env@,
            op_name@,
        ).diags,
    decreases expr1.0@.size() + expr2.0@.size(), 0nat,
{
    proof {
        expr1.0@.lemma_size_positive();
        expr2.0@.lemma_size_positive();
    }
    let ghost before = diagnostics(errs@);
    let ghost o1 = check_expr(expr1@, type_env@);
    let ghost o2 = check_expr(expr2@, type_env@);
    let found1 = xs_tc_expr(expr1, type_env, errs);
    let found2 = xs_tc_expr(expr2, type_env, errs);
    assert(diagnostics(errs@) =~= before + (o1.diags + o2.diags));
    let (type1, type2) = match (found1, found2) {
        (Some(type1), Some(type2)) => (type1, type2),
        _ => {
            return None;
        },
    };
    let ty = match (type1, type2) {
        (Type::Bool, Type::Bool) => Some(&Type::Bool),
        _ => {
            let msg = cannot_combine(op_name, type1, type2);
            report(errs, type_err(msg.as_str(), span));
            None
        },
    };
    assert(diagnostics(errs@) =~= before + logical_outcome(
        *span,
        expr1@,
        expr2@,
        type_env@,
        op_name@,
    ).diags);
    ty
}

/// Holds a value of type `actual`, read at `actual_span`, against the type
/// `expected` that its place asks for. `is_fn_call` says that the value is an
/// argument of a call.
///
/// The same type fits. A `float` where an `int` is expected fits, with a
/// warning of lost precision. An `int` where a `float` is expected fits, with
/// a warning in a call, that it may not be promoted, and silently elsewhere.
/// Anything else is a type error.
pub fn type_cmp(
    expected: &Type,
    actual: &Type,
    actual_span: &Span,
    errs: &mut Vec<XSError>,
    is_fn_call: bool,
)
    ensures
        diagnostics(final(errs)@) == diagnostics(old(errs)@) + compat_diags(
            expected@,
            actual@,
            *actual_span,
            is_fn_call,
        ),
{
    let ghost before = diagnostics(errs@);
    if expected.same(actual) {
    } else {
        match (expected, actual) {
            (Type::Int, Type::Float) => {
                report(
                    errs,
                    warn(
                        "Possible loss of precision due to downcast from `float` to an `int`",
                        actual_span,
                    ),
                );
            },
            (Type::Float, Type::Int) => {
                if is_fn_call {
                    report(
                        errs,
                        warn(
                            "`int` value may not get promoted to `float` automatically in a function call, floating point operations may not work correctly",
                            actual_span,
                        ),
                    );
                }
            },
            _ => {
                let mut msg = String::from_str("Expected `");
                msg.append(expected.name().as_str());
                msg.append("` found `");
                msg.append(actual.name().as_str());
                msg.append("`");
                report(errs, type_err(msg.as_str(), actual_span));
            },
        }
    }
    assert(diagnostics(errs@) =~= before + compat_diags(
        expected@,
        actual@,
        *actual_span,
        is_fn_call,
    ));
}

} // verus!
