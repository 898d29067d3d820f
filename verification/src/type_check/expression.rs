//! Types for expressions.
use vstd::prelude::*;
use vstd::string::StringExecFns;
use crate::ast::expr::{exprs_view, lemma_exprs_view, Expr, ExprV, SpannedExprV, UnOp};
use crate::ast::identifier::Identifier;
use crate::ast::literal::Literal;
use crate::ast::type_::{lemma_func_view, types_view, Type};
use crate::diagnostics::{
    diagnostics, lemma_diagnostics_concat, name_err, report, type_err, XSError,
};
use crate::span::{Span, Spanned};
use crate::type_check::rules::{arity_diags, check_args, check_expr, unary_rule};
use crate::type_check::util::{
    arith_op, chk_num_lit, logical_op, reln_op, type_cmp, type_opt_view,
};
use crate::type_env::TypeEnv;

verus! {

/// The mathematical value of the call, read at `span`, of the function
/// `name` with the arguments `args`.
pub open spec fn call_view(
    span: Span,
    name: Spanned<Identifier>,
    args: Vec<Spanned<Expr>>,
) -> SpannedExprV {
    (ExprV::FnCall { name: (name.0@, name.1), args: exprs_view(args@) }, span)
}

/// Appends the diagnostics `found` to `errs`.
fn report_all(errs: &mut Vec<XSError>, found: Vec<XSError>)
    ensures
        diagnostics(final(errs)@) == diagnostics(old(errs)@) + diagnostics(found@),
{
    let mut found = found;
    proof {
        lemma_diagnostics_concat(errs@, found@);
    }
    errs.append(&mut found);
}

/// The rule for a unary operator on an operand of type `ty`.
fn tc_unary<'src>(op: UnOp, span: &Span, ty: &'src Type, errs: &mut Vec<XSError>) -> (res: Option<
    &'src Type,
>)
    ensures
        type_opt_view(res) == unary_rule(op, *span, ty@).ty,
        diagnostics(final(errs)@) == diagnostics(old(errs)@) + unary_rule(op, *span, ty@).diags,
{
    let ghost before = diagnostics(errs@);
    let res = match (op, ty) {
        (UnOp::Neg, Type::Int) | (UnOp::Neg, Type::Float) => Some(ty),
        (UnOp::Not, Type::Bool) => Some(ty),
        (UnOp::Neg, _) => {
            let mut msg = String::from_str("Cannot negate type `");
            msg.append(ty.name().as_str());
            msg.append("`");
            report(errs, type_err(msg.as_str(), span));
            None
        },
        (UnOp::Not, _) => {
            let mut msg = String::from_str("Cannot invert type `");
            msg.append(ty.name().as_str());
            msg.append("`");
            report(errs, type_err(msg.as_str(), span));
            None
        },
    };
    assert(diagnostics(errs@) =~= before + unary_rule(op, *span, ty@).diags);
    res
}

/// The rule for a call, read at `span`, of the function `name` with the
/// arguments `args`.
fn tc_call<'src>(
    span: &Span,
    name: &Spanned<Identifier>,
    args: &'src Vec<Spanned<Expr>>,
    type_env: &'src TypeEnv,
    errs: &mut Vec<XSError>,
) -> (ty: Option<&'src Type>)
    ensures
        type_opt_view(ty) == check_expr(call_view(*span, *name, *args), type_env@).ty,
        diagnostics(final(errs)@) == diagnostics(old(errs)@) + check_expr(
            call_view(*span, *name, *args),
            type_env@,
        ).diags,
    decreases ExprV::sizes(exprs_view(args@)) + 1, 0nat,
{
    let ghost before = diagnostics(errs@);
    let ghost outcome = check_expr(call_view(*span, *name, *args), type_env@);
    let Some(callee) = type_env.get(&name.0) else {
        report(errs, name_err("Undefined function", &name.1));
        assert(diagnostics(errs@) =~= before + outcome.diags);
        return None;
    };
    let sig = match callee {
        Type::Func(sig) => sig,
        _ => {
            report(errs, type_err("Only functions can be called", &name.1));
            assert(diagnostics(errs@) =~= before + outcome.diags);
            return None;
        },
    };
    proof {
        lemma_func_view(*sig);
        lemma_exprs_view(args@);
    }
    if sig.len() == 0 {
        report(errs, type_err("Only functions can be called", &name.1));
        assert(diagnostics(errs@) =~= before + outcome.diags);
        return None;
    }
    let n_params: usize = sig.len() - 1;
    let ghost params = callee@.params();
    if args.len() != n_params {
        report(errs, type_err("Wrong number of arguments in function call", span));
    }
    let ghost arity = arity_diags(params.len(), args@.len(), *span);
    assert(diagnostics(errs@) =~= before + arity);
    let mut i: usize = 0;
    let ghost mut done: int = 0;
    assert(exprs_view(args@).take(0) =~= Seq::empty());
    while i < args.len()
        invariant
            i <= args.len(),
            done == i,
            n_params == sig.len() - 1,
            params == types_view(sig@).drop_last(),
            exprs_view(args@).len() == args.len(),
            forall|j: int| 0 <= j < args.len() ==> (#[trigger] exprs_view(args@)[j]) == args[j]@,
            diagnostics(errs@) == before + arity + check_args(
                params,
                exprs_view(args@).take(done),
                type_env@,
            ),
        decreases args.len() - i,
    {
        let arg = &args[i];
        let ghost so_far = diagnostics(errs@);
        let ghost o = check_expr(arg@, type_env@);
        proof {
            ExprV::lemma_sizes_bound(exprs_view(args@), done);
            assert(exprs_view(args@).take(done + 1).drop_last() =~= exprs_view(args@).take(
                done,
            ));
            assert(exprs_view(args@).take(done + 1).last() == arg@);
        }
        if let Some(arg_type) = xs_tc_expr(arg, type_env, errs) {
            if i < n_params {
                type_cmp(&sig[i], arg_type, &arg.1, errs, true);
            }
        }
        proof {
            assert(diagnostics(errs@) =~= before + arity + check_args(
                params,
                exprs_view(args@).take(done + 1),
                type_env@,
            ));
            done = done + 1;
        }
        i += 1;
    }
    assert(exprs_view(args@).take(done) =~= exprs_view(args@));
    assert(diagnostics(errs@) =~= before + outcome.diags);
    Some(&sig[n_params])
}

/// Checks the expression `expr` in the environment `type_env`: returns its
/// type and appends to `errs` the diagnostics it raises, in order.
///
/// The result is `None` where an error keeps the expression from having a
/// type; that error, or the one below it, is in `errs` then, and the caller
/// has nothing more to report.
///
/// - A literal has the type of its kind.
/// - A name has the type it is bound to; a name that is not in scope is a
///   name error.
/// - An expression in parentheses is what stands between them.
/// - A vector literal is a vector; each of its three components is held to
///   the rule for vector components.
/// - A call has the return type of the function it names. The name must be
///   in scope (else a name error) and bound to a function (else a type
///   error). The number of arguments must be the number of parameters (else
///   a type error); each argument is checked, and held against the parameter
///   at its place as an argument of a call.
/// - A minus keeps the type of a number; a negation keeps `bool`; on anything
///   else either is a type error.
/// - A binary operation follows the rule of its operator.
pub fn xs_tc_expr<'src>(
    expr: &'src Spanned<Expr>,
    type_env: &'src TypeEnv,
    errs: &mut Vec<XSError>,
) -> (ty: Option<&'src Type>)
    ensures
        type_opt_view(ty) == check_expr(expr@, type_env@).ty,
        diagnostics(final(errs)@) == diagnostics(old(errs)@) + check_expr(expr@, type_env@).diags,
    decreases expr.0@.size(), 1nat,
{
    let span = &expr.1;
    let ghost before = diagnostics(errs@);
    let ghost outcome = check_expr(expr@, type_env@);
    match &expr.0 {
        Expr::Literal(lit) => {
            assert(before =~= before + outcome.diags);
            match lit {
                Literal::Int(_) => Some(&Type::Int),
                Literal::Float(_) => Some(&Type::Float),
                Literal::Str(_) => Some(&Type::Str),
            }
        },
        Expr::Identifier(name) => match type_env.get(name) {
            Some(ty) => {
                assert(before =~= before + outcome.diags);
                Some(ty)
            },
            None => {
                report(errs, name_err("Undefined variable", span));
                assert(diagnostics(errs@) =~= before + outcome.diags);
                None
            },
        },
        Expr::Paren(inner) => xs_tc_expr(inner, type_env, errs),
        Expr::Vec { x, y, z } => {
            report_all(errs, chk_num_lit(x, false));
            report_all(errs, chk_num_lit(y, false));
            report_all(errs, chk_num_lit(z, false));
            assert(diagnostics(errs@) =~= before + outcome.diags);
            Some(&Type::Vec)
        },
        Expr::FnCall { name, args } => tc_call(span, name, args, type_env, errs),
        Expr::Neg(inner) => match xs_tc_expr(inner, type_env, errs) {
            Some(ty) => tc_unary(UnOp::Neg, span, ty, errs),
            None => None,
        },
        Expr::Not(inner) => match xs_tc_expr(inner, type_env, errs) {
            Some(ty) => tc_unary(UnOp::Not, span, ty, errs),
            None => None,
        },
        Expr::Star(a, b) => arith_op(span, a, b, type_env, errs, "multiply"),
        Expr::FSlash(a, b) => arith_op(span, a, b, type_env, errs, "divide"),
        Expr::PCent(a, b) => arith_op(span, a, b, type_env, errs, "modulo"),
        Expr::Plus(a, b) => arith_op(span, a, b, type_env, errs, "add"),
        Expr::Minus(a, b) => arith_op(span, a, b, type_env, errs, "subtract"),
        Expr::Lt(a, b) => reln_op(span, a, b, type_env, errs, "lt"),
        Expr::Gt(a, b) => reln_op(span, a, b, type_env, errs, "gt"),
        Expr::Le(a, b) => reln_op(span, a, b, type_env, errs, "le"),
        Expr::Ge(a, b) => reln_op(span, a, b, type_env, errs, "ge"),
        Expr::Eq(a, b) => reln_op(span, a, b, type_env, errs, "eq"),
        Expr::Ne(a, b) => reln_op(span, a, b, type_env, errs, "ne"),
        Expr::And(a, b) => logical_op(span, a, b, type_env, errs, "and"),
        Expr::Or(a, b) => logical_op(span, a, b, type_env, errs, "or"),
    }
}

} // verus!
