//! The rules for statements.
use vstd::prelude::*;
use vstd::string::StringExecFns;
use crate::ast::astree::{ASTreeNode, Param};
use crate::ast::expr::Expr;
use crate::ast::identifier::Identifier;
use crate::ast::literal::Literal;
use crate::ast::type_::{lemma_func_view, types_view, Type};
use crate::diagnostics::{diagnostics, name_err, report, syntax_err, warn, XSError};
use crate::span::{Span, Spanned};
use crate::type_check::expression::xs_tc_expr;
use crate::type_check::rules::{
    body_scope, check_body, check_params, check_stmt, initializer_diags, opt_expr_view,
    param_diags, redeclared_diags, return_diags, typed_diags, var_assign_diags, var_def_diags,
};
use crate::type_check::util::type_cmp;
use crate::type_env::TypeEnv;

verus! {

/// Declares `name` with type `ty` in `type_env`. A name that is in scope
/// already is a name error; the new binding is installed all the same.
fn declare(type_env: &mut TypeEnv, name: &Spanned<Identifier>, ty: Type, errs: &mut Vec<XSError>)
    ensures
        final(type_env)@ == old(type_env)@.insert(name.0@, ty@),
        diagnostics(final(errs)@) == diagnostics(old(errs)@) + redeclared_diags(
            old(type_env)@,
            (name.0@, name.1),
        ),
{
    let ghost before = diagnostics(errs@);
    if type_env.declare(name.0.clone(), ty) {
        report(errs, name_err("Variable name is already in use", &name.1));
    }
    assert(diagnostics(errs@) =~= before + redeclared_diags(old(type_env)@, (name.0@, name.1)));
}

/// Checks that the initializer `init` of a variable is a literal where it
/// has to be one: at the top level, and for a `const`.
fn tc_initializer(
    init: &Spanned<Expr>,
    is_top_level: bool,
    is_const: bool,
    errs: &mut Vec<XSError>,
)
    ensures
        diagnostics(final(errs)@) == diagnostics(old(errs)@) + initializer_diags(
            init@,
            is_top_level,
            is_const,
        ),
{
    let ghost before = diagnostics(errs@);
    if is_top_level || is_const {
        match &init.0 {
            Expr::Literal(lit) => {
                let is_text = match lit {
                    Literal::Str(_) => true,
                    _ => false,
                };
                if is_top_level && is_text {
                    report(
                        errs,
                        warn("Top level string initializers do not work correctly. yES", &init.1),
                    );
                }
            },
            _ => {
                report(
                    errs,
                    syntax_err(
                        "Top level or `const` variable initializers must be literals",
                        &init.1,
                    ),
                );
            },
        }
    }
    assert(diagnostics(errs@) =~= before + initializer_diags(init@, is_top_level, is_const));
}

/// Checks the expression `expr` and, where it has a type, holds that type
/// against `expected`.
fn tc_typed(expected: &Type, expr: &Spanned<Expr>, type_env: &TypeEnv, errs: &mut Vec<XSError>)
    ensures
        diagnostics(final(errs)@) == diagnostics(old(errs)@) + typed_diags(
            expected@,
            expr@,
            type_env@,
        ),
{
    let ghost before = diagnostics(errs@);
    if let Some(actual) = xs_tc_expr(expr, type_env, errs) {
        type_cmp(expected, actual, &expr.1, errs, false);
    }
    assert(diagnostics(errs@) =~= before + typed_diags(expected@, expr@, type_env@));
}

/// Checks the parameters of a function definition, in order, in the scope
/// `type_env` around the function. Returns the parameters' own scope and
/// their types in declaration order.
fn tc_params(params: &Vec<Param>, type_env: &TypeEnv, errs: &mut Vec<XSError>) -> (found: (
    TypeEnv,
    Vec<Type>,
))
    ensures
        found.0@ == check_params(params@, type_env@).scope,
        types_view(found.1@) == check_params(params@, type_env@).types,
        diagnostics(final(errs)@) == diagnostics(old(errs)@) + check_params(
            params@,
            type_env@,
        ).diags,
{
    let ghost before = diagnostics(errs@);
    let ghost env = type_env@;
    let mut own = TypeEnv::new();
    let mut param_types: Vec<Type> = Vec::new();
    let mut i: usize = 0;
    let ghost mut done: int = 0;
    assert(params@.take(0) =~= Seq::empty());
    assert(types_view(param_types@) =~= Seq::empty());
    assert(diagnostics(errs@) =~= before + Seq::empty());
    while i < params.len()
        invariant
            i <= params.len(),
            done == i,
            type_env@ == env,
            own@ == check_params(params@.take(done), env).scope,
            types_view(param_types@) == check_params(params@.take(done), env).types,
            diagnostics(errs@) == before + check_params(params@.take(done), env).diags,
        decreases params.len() - i,
    {
        let param = &params[i];
        let ghost so_far = check_params(params@.take(done), env);
        let ghost seen = diagnostics(errs@);
        proof {
            assert(params@.take(done + 1).drop_last() =~= params@.take(done));
            assert(params@.take(done + 1).last() == *param);
        }
        if type_env.contains(&param.name.0) || own.contains(&param.name.0) {
            report(errs, name_err("Variable name is already in use", &param.name.1));
        }
        own.insert(param.name.0.clone(), param.type_.clone());
        let ghost listed = types_view(param_types@);
        param_types.push(param.type_.clone());
        assert(types_view(param_types@) =~= listed.push(param.type_@));
        match &param.default.0 {
            Expr::Literal(_) => {},
            _ => {
                report(errs, syntax_err("Parameter defaults must be literals", &param.default.1));
            },
        }
        tc_typed(&param.type_, &param.default, type_env, errs);
        proof {
            assert(diagnostics(errs@) =~= seen + param_diags(*param, env, so_far.scope));
            done = done + 1;
        }
        i += 1;
    }
    assert(params@.take(done) =~= params@);
    (own, param_types)
}

/// The rule for the definition of a variable.
fn tc_var_def(
    is_extern: bool,
    is_const: bool,
    type_: &Type,
    name: &Spanned<Identifier>,
    value: &Option<Spanned<Expr>>,
    type_env: &mut TypeEnv,
    errs: &mut Vec<XSError>,
    is_top_level: bool,
)
    ensures
        final(type_env)@ == old(type_env)@.insert(name.0@, type_@),
        diagnostics(final(errs)@) == diagnostics(old(errs)@) + var_def_diags(
            is_extern,
            is_const,
            type_@,
            (name.0@, name.1),
            opt_expr_view(*value),
            old(type_env)@,
            is_top_level,
        ),
{
    let ghost before = diagnostics(errs@);
    let ghost outcome = var_def_diags(
        is_extern,
        is_const,
        type_@,
        (name.0@, name.1),
        opt_expr_view(*value),
        type_env@,
        is_top_level,
    );
    declare(type_env, name, type_.clone(), errs);
    let ghost declared = diagnostics(errs@);
    if !is_top_level && is_extern {
        report(errs, syntax_err("Local variables cannot be declared as `extern`", &name.1));
    }
    let ghost placed = diagnostics(errs@);
    match value {
        None => {
            if is_const {
                report(
                    errs,
                    syntax_err(
                        "Variable declared as `const` must be initialised with a value",
                        &name.1,
                    ),
                );
            }
        },
        Some(init) => {
            tc_initializer(init, is_top_level, is_const, errs);
            tc_typed(type_, init, type_env, errs);
            assert(diagnostics(errs@) =~= placed + (initializer_diags(
                init@,
                is_top_level,
                is_const,
            ) + typed_diags(type_@, init@, type_env@)));
        },
    }
    assert(diagnostics(errs@) =~= before + outcome);
}

/// The rule for an assignment.
fn tc_var_assign(
    name: &Spanned<Identifier>,
    value: &Spanned<Expr>,
    type_env: &TypeEnv,
    errs: &mut Vec<XSError>,
    span: &Span,
    is_top_level: bool,
)
    ensures
        diagnostics(final(errs)@) == diagnostics(old(errs)@) + var_assign_diags(
            (name.0@, name.1),
            value@,
            type_env@,
            *span,
            is_top_level,
        ),
{
    let ghost before = diagnostics(errs@);
    let ghost outcome = var_assign_diags((name.0@, name.1), value@, type_env@, *span, is_top_level);
    if is_top_level {
        report(errs, syntax_err("Assignments are not allowed at the top level", span));
    }
    match type_env.get(&name.0) {
        Some(bound) => tc_typed(bound, value, type_env, errs),
        None => report(errs, name_err("Undefined variable", &name.1)),
    }
    assert(diagnostics(errs@) =~= before + outcome);
}

/// The rule for a `return`.
fn tc_return(
    value: &Option<Spanned<Expr>>,
    type_env: &TypeEnv,
    errs: &mut Vec<XSError>,
    span: &Span,
)
    ensures
        diagnostics(final(errs)@) == diagnostics(old(errs)@) + return_diags(
            opt_expr_view(*value),
            type_env@,
            *span,
        ),
{
    let ghost before = diagnostics(errs@);
    let ghost outcome = return_diags(opt_expr_view(*value), type_env@, *span);
    let Some(return_type) = type_env.get(&Identifier::new("return")) else {
        report(errs, syntax_err("`return` statement is not allowed here", span));
        assert(diagnostics(errs@) =~= before + outcome);
        return ;
    };
    let returns_nothing = match return_type {
        Type::Void => true,
        _ => false,
    };
    match value {
        None => {
            if !returns_nothing {
                let mut msg = String::from_str(
                    "This function must return a value of type `",
                );
                msg.append(return_type.name().as_str());
                msg.append("`");
                report(errs, syntax_err(msg.as_str(), span));
            }
        },
        Some(returned) => {
            if returns_nothing {
                report(errs, syntax_err("This function cannot return a value", span));
            } else {
                match &returned.0 {
                    Expr::Paren(_) => {},
                    _ => {
                        report(
                            errs,
                            syntax_err(
                                "`return` statement expressions must be enclosed in parenthesis. yES",
                                &returned.1,
                            ),
                        );
                    },
                }
                tc_typed(return_type, returned, type_env, errs);
            }
        },
    }
    assert(diagnostics(errs@) =~= before + outcome);
}

/// Checks the statement `stmt` in the environment `type_env`: declares in
/// `type_env` what the statement declares and appends to `errs` the
/// diagnostics it raises, in order. `is_top_level` says that the statement
/// stands outside every function and rule.
///
/// - An include is a syntax error anywhere but at the top level.
/// - A variable definition binds its name to its declared type. A name that
///   is in scope already is a name error; the new binding is installed all
///   the same. `extern` on a local variable is a syntax error, and so is a
///   `const` without an initializer. An initializer at the top level or of a
///   `const` must be a literal (else a syntax error); a text literal at the
///   top level gets a warning. The initializer is checked, and held against
///   the declared type.
/// - An assignment is a syntax error at the top level. Its target must be in
///   scope (else a name error, and nothing more is checked); its value is
///   checked, and held against the type of the target.
/// - A rule definition binds its name to the type of rules; a name that is
///   in scope already is a name error. The body is checked in a copy of the
///   environment, so that what it declares does not show outside.
/// - A function definition checks its parameters in order: a parameter
///   named like something in scope, or like an earlier parameter, is a name
///   error; a default that is no literal is a syntax error; every default is
///   checked, and held against the parameter's type. The function's name is
///   then bound to the function type made of the parameter types, in order,
///   and the return type; a name that is in scope already is a name error.
///   The body is checked in a copy of the environment, with the parameters
///   over it and the return type under the name `return` over both.
/// - A `return` is a syntax error where no return type is in scope. Without
///   a value it is a syntax error unless the return type is `void`; with a
///   value it is a syntax error if the return type is `void`, and otherwise
///   the value must stand in parentheses (else a syntax error), is checked,
///   and is held against the return type.
/// - Every other statement is accepted as it is.
pub fn xs_tc_stmt(
    stmt: &Spanned<ASTreeNode>,
    type_env: &mut TypeEnv,
    errs: &mut Vec<XSError>,
    is_top_level: bool,
)
    ensures
        final(type_env)@ == check_stmt(*stmt, old(type_env)@, is_top_level).env,
        diagnostics(final(errs)@) == diagnostics(old(errs)@) + check_stmt(
            *stmt,
            old(type_env)@,
            is_top_level,
        ).diags,
    decreases stmt,
{
    let span = &stmt.1;
    let ghost before = diagnostics(errs@);
    let ghost env = type_env@;
    let ghost outcome = check_stmt(*stmt, env, is_top_level);
    match &stmt.0 {
        ASTreeNode::Include(_) => {
            if !is_top_level {
                report(
                    errs,
                    syntax_err(
                        "An include statement may only appear at the top of the module",
                        span,
                    ),
                );
            }
            assert(diagnostics(errs@) =~= before + outcome.diags);
        },
        ASTreeNode::VarDef { is_extern, is_static, is_const, type_, name, value } => {
            tc_var_def(*is_extern, *is_const, type_, name, value, type_env, errs, is_top_level);
        },
        ASTreeNode::VarAssign { name, value } => {
            tc_var_assign(name, value, type_env, errs, span, is_top_level);
        },
        ASTreeNode::RuleDef { name, rule_opts, body } => {
            declare(type_env, name, Type::Rule, errs);
            let mut scope = type_env.snapshot();
            xs_tc_stmts(&body.0.0, &mut scope, errs, false);
            assert(diagnostics(errs@) =~= before + outcome.diags);
        },
        ASTreeNode::FnDef { is_mutable, return_type, name, params, body } => {
            let ghost ps = check_params(params@, env);
            let (own, mut signature) = tc_params(params, type_env, errs);
            let ghost listed = types_view(signature@);
            signature.push(return_type.clone());
            proof {
                assert(types_view(signature@) =~= listed.push(return_type@));
                lemma_func_view(signature);
            }
            declare(type_env, name, Type::Func(signature), errs);
            let mut scope = type_env.snapshot();
            own.merge_into(&mut scope);
            scope.insert(Identifier::new("return"), return_type.clone());
            assert(scope@ == body_scope(type_env@, ps.scope, return_type@));
            xs_tc_stmts(&body.0.0, &mut scope, errs, false);
            assert(diagnostics(errs@) =~= before + outcome.diags);
        },
        ASTreeNode::Return(value) => {
            tc_return(value, type_env, errs, span);
        },
        _ => {
            assert(diagnostics(errs@) =~= before + outcome.diags);
        },
    }
}

/// Checks the statements `stmts` in order, each in the environment that the
/// one before it left in `type_env`, and appends to `errs` the diagnostics
/// they raise. A statement that raises an error does not keep the next one
/// from being checked.
pub fn xs_tc_stmts(
    stmts: &Vec<Spanned<ASTreeNode>>,
    type_env: &mut TypeEnv,
    errs: &mut Vec<XSError>,
    is_top_level: bool,
)
    ensures
        final(type_env)@ == check_body(stmts@, old(type_env)@, is_top_level).env,
        diagnostics(final(errs)@) == diagnostics(old(errs)@) + check_body(
            stmts@,
            old(type_env)@,
            is_top_level,
        ).diags,
    decreases stmts,
{
    let ghost before = diagnostics(errs@);
    let ghost env = type_env@;
    let mut i: usize = 0;
    let ghost mut done: int = 0;
    assert(stmts@.take(0) =~= Seq::empty());
    assert(diagnostics(errs@) =~= before + Seq::empty());
    while i < stmts.len()
        invariant
            i <= stmts.len(),
            done == i,
            type_env@ == check_body(stmts@.take(done), env, is_top_level).env,
            diagnostics(errs@) == before + check_body(stmts@.take(done), env, is_top_level).diags,
        decreases stmts.len() - i,
    {
        let ghost so_far = check_body(stmts@.take(done), env, is_top_level);
        proof {
            assert(stmts@.take(done + 1).drop_last() =~= stmts@.take(done));
            assert(stmts@.take(done + 1).last() == stmts[done]);
        }
        xs_tc_stmt(&stmts[i], type_env, errs, is_top_level);
        proof {
            assert(diagnostics(errs@) =~= before + check_body(
                stmts@.take(done + 1),
                env,
                is_top_level,
            ).diags);
            done = done + 1;
        }
        i += 1;
    }
    assert(stmts@.take(done) =~= stmts@);
}

/// Checks a whole module: its top-level statements in order, from the empty
/// environment. Returns the environment of the module and every diagnostic
/// raised, in order.
pub fn xs_tc_module(stmts: &Vec<Spanned<ASTreeNode>>) -> (checked: (TypeEnv, Vec<XSError>))
    ensures
        checked.0@ == check_body(stmts@, Map::empty(), true).env,
        diagnostics(checked.1@) == check_body(stmts@, Map::empty(), true).diags,
{
    let mut type_env = TypeEnv::new();
    let mut errs: Vec<XSError> = Vec::new();
    xs_tc_stmts(stmts, &mut type_env, &mut errs, true);
    assert(diagnostics(errs@) =~= check_body(stmts@, Map::empty(), true).diags);
    (type_env, errs)
}

} // verus!
