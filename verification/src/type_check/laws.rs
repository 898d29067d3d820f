//! What holds of the static checks on every input.
use vstd::prelude::*;
use crate::ast::astree::{ASTreeNode, Param};
use crate::ast::expr::{BinOp, ExprV, SpannedExprV, UnOp};
use crate::ast::literal::LiteralV;
use crate::ast::type_::TypeV;
use crate::diagnostics::{
    count_kind, lemma_count_kind_concat, lemma_count_kind_short, syntax_diag, Diagnostic, ErrorKind,
};
use crate::span::{Span, Spanned};
use crate::type_check::rules::{
    binary_rule, body_scope, check_args, check_body, check_expr, check_params, check_stmt,
    is_arithmetic, literal_type, max_int_lit, num_lit_diags, redeclared_diags, return_name,
    unary_rule, Env,
};

verus! {

/// Whether `e` is a literal of type `ty`.
pub open spec fn is_literal_of(e: SpannedExprV, ty: TypeV) -> bool {
    e.0 matches ExprV::Literal(lit) && literal_type(lit) == ty
}

/// Arithmetic on two numeric literals, under any of `* / % + -` and in any
/// environment: `int` with `int` is `int` and raises nothing; `int` with
/// `float` is `int` and raises exactly one warning; `float` with `int` or
/// `float` is `float` and raises nothing.
pub proof fn law_numeric_literal_arithmetic(
    op: BinOp,
    a: SpannedExprV,
    b: SpannedExprV,
    span: Span,
    env: Env,
)
    requires
        is_arithmetic(op),
        is_literal_of(a, TypeV::Int) || is_literal_of(a, TypeV::Float),
        is_literal_of(b, TypeV::Int) || is_literal_of(b, TypeV::Float),
    ensures
        ({
            let outcome = check_expr((ExprV::Binary(op, Box::new(a), Box::new(b)), span), env);
            &&& is_literal_of(a, TypeV::Int) && is_literal_of(b, TypeV::Int) ==> outcome.ty == Some(
                TypeV::Int,
            ) && outcome.diags.len() == 0
            &&& is_literal_of(a, TypeV::Int) && is_literal_of(b, TypeV::Float) ==> outcome.ty
                == Some(TypeV::Int) && outcome.diags.len() == 1 && outcome.diags[0].kind
                == ErrorKind::Warning && outcome.diags[0].span == span
            &&& is_literal_of(a, TypeV::Float) ==> outcome.ty == Some(TypeV::Float)
                && outcome.diags.len() == 0
        }),
{
    reveal_with_fuel(check_expr, 2);
}

/// The name that a statement declares, with the span it is written at: the
/// name of a variable, of a rule or of a function.
pub open spec fn declared_name(stmt: ASTreeNode) -> Option<Spanned<Seq<char>>> {
    match stmt {
        ASTreeNode::VarDef { name, .. } => Some((name.0@, name.1)),
        ASTreeNode::RuleDef { name, .. } => Some((name.0@, name.1)),
        ASTreeNode::FnDef { name, .. } => Some((name.0@, name.1)),
        _ => None,
    }
}

/// The diagnostics that a declaration raises about what it holds: those of
/// a variable definition behind the one about its name, those of the body of
/// a rule, those of the parameters and of the body of a function.
pub open spec fn held_diags(stmt: Spanned<ASTreeNode>, env: Env, is_top_level: bool) -> Seq<
    Diagnostic,
> {
    match stmt.0 {
        ASTreeNode::VarDef { name, .. } => check_stmt(stmt, env, is_top_level).diags.skip(
            redeclared_diags(env, (name.0@, name.1)).len() as int,
        ),
        ASTreeNode::RuleDef { name, rule_opts, body } => check_body(
            body.0.0@,
            env.insert(name.0@, TypeV::Rule),
            false,
        ).diags,
        ASTreeNode::FnDef { is_mutable, return_type, name, params, body } => {
            let ps = check_params(params@, env);
            let scope = env.insert(name.0@, TypeV::Func(ps.types.push(return_type@)));
            ps.diags + check_body(
                body.0.0@,
                body_scope(scope, ps.scope, return_type@),
                false,
            ).diags
        },
        _ => check_stmt(stmt, env, is_top_level).diags,
    }
}

/// A declaration raises what it raises about its name, and what it raises
/// about what it holds; and it binds its name.
pub proof fn lemma_declaration(
    stmt: Spanned<ASTreeNode>,
    env: Env,
    is_top_level: bool,
    kind: ErrorKind,
)
    requires
        declared_name(stmt.0) is Some,
    ensures
        count_kind(check_stmt(stmt, env, is_top_level).diags, kind) == count_kind(
            redeclared_diags(env, declared_name(stmt.0)->0),
            kind,
        ) + count_kind(held_diags(stmt, env, is_top_level), kind),
        check_stmt(stmt, env, is_top_level).env.contains_key((declared_name(stmt.0)->0).0),
{
    let name = declared_name(stmt.0)->0;
    let redeclared = redeclared_diags(env, name);
    let all = check_stmt(stmt, env, is_top_level).diags;
    let held = held_diags(stmt, env, is_top_level);
    match stmt.0 {
        ASTreeNode::VarDef { .. } => {
            assert(all =~= redeclared + held);
            lemma_count_kind_concat(redeclared, held, kind);
        },
        ASTreeNode::RuleDef { .. } => {
            lemma_count_kind_concat(redeclared, held, kind);
        },
        ASTreeNode::FnDef { is_mutable, return_type, name: n, params, body } => {
            let ps = check_params(params@, env);
            let scope = env.insert(n.0@, TypeV::Func(ps.types.push(return_type@)));
            let inside = check_body(
                body.0.0@,
                body_scope(scope, ps.scope, return_type@),
                false,
            ).diags;
            lemma_count_kind_concat(ps.diags + redeclared, inside, kind);
            lemma_count_kind_concat(ps.diags, redeclared, kind);
            lemma_count_kind_concat(ps.diags, inside, kind);
        },
        _ => {},
    }
}

/// Declaring the same name twice in one scope raises exactly one name
/// error, and the name stays bound.
///
/// The two declarations, of a variable, a rule or a function each, are
/// checked one after the other from an environment in which the name is
/// free. What a declaration holds may raise name errors of its own, for the
/// names it uses; the law speaks of declarations that raise none there.
pub proof fn law_redeclaration_is_one_name_error(
    first: Spanned<ASTreeNode>,
    second: Spanned<ASTreeNode>,
    env: Env,
    is_top_level: bool,
)
    requires
        declared_name(first.0) is Some,
        declared_name(second.0) is Some,
        (declared_name(first.0)->0).0 == (declared_name(second.0)->0).0,
        !env.contains_key((declared_name(first.0)->0).0),
        count_kind(held_diags(first, env, is_top_level), ErrorKind::Name) == 0,
        count_kind(
            held_diags(second, check_stmt(first, env, is_top_level).env, is_top_level),
            ErrorKind::Name,
        ) == 0,
    ensures
        count_kind(check_body(seq![first, second], env, is_top_level).diags, ErrorKind::Name) == 1,
        check_body(seq![first, second], env, is_top_level).env.contains_key(
            (declared_name(second.0)->0).0,
        ),
{
    let both = seq![first, second];
    let one = seq![first];
    assert(both.drop_last() =~= one);
    assert(one.drop_last() =~= Seq::empty());
    reveal_with_fuel(check_body, 3);
    let after_first = check_stmt(first, env, is_top_level);
    let after_second = check_stmt(second, after_first.env, is_top_level);
    assert(check_body(both, env, is_top_level).env == after_second.env);
    assert(check_body(both, env, is_top_level).diags =~= after_first.diags + after_second.diags);
    lemma_declaration(first, env, is_top_level, ErrorKind::Name);
    lemma_declaration(second, after_first.env, is_top_level, ErrorKind::Name);
    lemma_count_kind_short(redeclared_diags(env, declared_name(first.0)->0), ErrorKind::Name);
    lemma_count_kind_short(
        redeclared_diags(after_first.env, declared_name(second.0)->0),
        ErrorKind::Name,
    );
    lemma_count_kind_concat(after_first.diags, after_second.diags, ErrorKind::Name);
}

/// A `const` without an initializer, at the top level, raises exactly one
/// syntax error, and nothing about types: beside the syntax error there is
/// at most the name error of a name that is in scope already.
pub proof fn law_const_needs_initializer(stmt: Spanned<ASTreeNode>, env: Env)
    requires
        stmt.0 is VarDef,
        stmt.0->VarDef_is_const,
        stmt.0->VarDef_value is None,
    ensures
        check_stmt(stmt, env, true).diags == redeclared_diags(
            env,
            (stmt.0->VarDef_name.0@, stmt.0->VarDef_name.1),
        ) + seq![
            syntax_diag(
                "Variable declared as `const` must be initialised with a value"@,
                stmt.0->VarDef_name.1,
            ),
        ],
        count_kind(check_stmt(stmt, env, true).diags, ErrorKind::Syntax) == 1,
        count_kind(check_stmt(stmt, env, true).diags, ErrorKind::Type) == 0,
        count_kind(check_stmt(stmt, env, true).diags, ErrorKind::Warning) == 0,
{
    let name = (stmt.0->VarDef_name.0@, stmt.0->VarDef_name.1);
    let redeclared = redeclared_diags(env, name);
    let missing = seq![
        syntax_diag("Variable declared as `const` must be initialised with a value"@, name.1),
    ];
    assert(check_stmt(stmt, env, true).diags =~= redeclared + missing);
    lemma_count_kind_short(missing, ErrorKind::Syntax);
    lemma_count_kind_short(missing, ErrorKind::Type);
    lemma_count_kind_short(missing, ErrorKind::Warning);
    lemma_count_kind_short(redeclared, ErrorKind::Syntax);
    lemma_count_kind_short(redeclared, ErrorKind::Type);
    lemma_count_kind_short(redeclared, ErrorKind::Warning);
    lemma_count_kind_concat(redeclared, missing, ErrorKind::Syntax);
    lemma_count_kind_concat(redeclared, missing, ErrorKind::Type);
    lemma_count_kind_concat(redeclared, missing, ErrorKind::Warning);
}

/// A `return` where no return type is in scope, as it is outside every
/// function, raises exactly one syntax error, whatever it returns: nothing
/// else is checked, and the environment stays as it is.
pub proof fn law_return_outside_function(stmt: Spanned<ASTreeNode>, env: Env, is_top_level: bool)
    requires
        stmt.0 is Return,
        !env.contains_key(return_name()),
    ensures
        check_stmt(stmt, env, is_top_level).diags == seq![
            syntax_diag("`return` statement is not allowed here"@, stmt.1),
        ],
        check_stmt(stmt, env, is_top_level).env == env,
{
}

/// No return type is in scope at the top level of a module, as long as no
/// statement there declares the name `return` itself.
pub proof fn law_top_level_is_outside_function(stmts: Seq<Spanned<ASTreeNode>>)
    requires
        forall|i: int|
            0 <= i < stmts.len() ==> (declared_name(#[trigger] stmts[i].0) matches Some(name)
                ==> name.0 != return_name()),
    ensures
        !check_body(stmts, Map::empty(), true).env.contains_key(return_name()),
    decreases stmts.len(),
{
    if stmts.len() > 0 {
        law_top_level_is_outside_function(stmts.drop_last());
        law_scopes_do_not_leak(
            stmts.last(),
            check_body(stmts.drop_last(), Map::empty(), true).env,
            true,
            return_name(),
        );
    }
}

/// A statement changes the environment at most at the name it declares:
/// what a rule or a function declares in its body does not show outside.
pub proof fn law_scopes_do_not_leak(
    stmt: Spanned<ASTreeNode>,
    env: Env,
    is_top_level: bool,
    name: Seq<char>,
)
    requires
        declared_name(stmt.0) matches Some(declared) ==> declared.0 != name,
    ensures
        check_stmt(stmt, env, is_top_level).env.contains_key(name) == env.contains_key(name),
        env.contains_key(name) ==> check_stmt(stmt, env, is_top_level).env[name] == env[name],
{
}

/// The body of a function sees its return type under the name `return`, its
/// parameters, and everything else that is in scope around it; a parameter
/// hides what is named like it outside.
pub proof fn law_body_scope(outer: Env, params: Env, return_type: TypeV, name: Seq<char>)
    ensures
        body_scope(outer, params, return_type)[return_name()] == return_type,
        name != return_name() && params.contains_key(name) ==> body_scope(
            outer,
            params,
            return_type,
        ).contains_key(name) && body_scope(outer, params, return_type)[name] == params[name],
        name != return_name() && !params.contains_key(name) && outer.contains_key(name)
            ==> body_scope(outer, params, return_type).contains_key(name) && body_scope(
            outer,
            params,
            return_type,
        )[name] == outer[name],
{
}

/// Statements are checked one after the other: checking `first`, then
/// `rest` in the environment that `first` leaves, is checking both in a
/// row. No diagnostic of `first` keeps `rest` from being checked.
pub proof fn law_statements_are_checked_in_sequence(
    first: Seq<Spanned<ASTreeNode>>,
    rest: Seq<Spanned<ASTreeNode>>,
    env: Env,
    is_top_level: bool,
)
    ensures
        check_body(first + rest, env, is_top_level).env == check_body(
            rest,
            check_body(first, env, is_top_level).env,
            is_top_level,
        ).env,
        check_body(first + rest, env, is_top_level).diags == check_body(
            first,
            env,
            is_top_level,
        ).diags + check_body(rest, check_body(first, env, is_top_level).env, is_top_level).diags,
    decreases rest.len(),
{
    let before = check_body(first, env, is_top_level);
    if rest.len() == 0 {
        assert(first + rest =~= first);
        assert(before.diags + Seq::<Diagnostic>::empty() =~= before.diags);
    } else {
        assert((first + rest).drop_last() =~= first + rest.drop_last());
        law_statements_are_checked_in_sequence(first, rest.drop_last(), env, is_top_level);
        let most = check_body(rest.drop_last(), before.env, is_top_level);
        let last = check_stmt(rest.last(), most.env, is_top_level);
        assert(before.diags + most.diags + last.diags =~= before.diags + (most.diags
            + last.diags));
    }
}

/// A function definition binds its name to a function type that lists the
/// types of the parameters in declaration order and, last, the return type.
pub proof fn law_function_type_lists_parameters_then_return(
    stmt: Spanned<ASTreeNode>,
    env: Env,
    is_top_level: bool,
)
    requires
        stmt.0 is FnDef,
    ensures
        ({
            let bound = check_stmt(stmt, env, is_top_level).env[stmt.0->FnDef_name.0@];
            let params = stmt.0->FnDef_params@;
            &&& check_stmt(stmt, env, is_top_level).env.contains_key(stmt.0->FnDef_name.0@)
            &&& bound.callable()
            &&& bound.ret() == stmt.0->FnDef_return_type@
            &&& bound.params().len() == params.len()
            &&& forall|i: int| 0 <= i < params.len() ==> bound.params()[i] == params[i].type_@
        }),
{
    let params = stmt.0->FnDef_params@;
    lemma_param_types(params, env);
    let listed = check_params(params, env).types;
    assert(listed.push(stmt.0->FnDef_return_type@).drop_last() =~= listed);
}

/// The types that checking parameters lists are the declared types of the
/// parameters, in order.
proof fn lemma_param_types(params: Seq<Param>, env: Env)
    ensures
        check_params(params, env).types.len() == params.len(),
        forall|i: int|
            0 <= i < params.len() ==> (#[trigger] check_params(params, env).types[i])
                == params[i].type_@,
    decreases params.len(),
{
    if params.len() > 0 {
        lemma_param_types(params.drop_last(), env);
    }
}

/// Whether `e` is a number as a vector literal takes it: a `float` literal,
/// or an `int` literal of at most nine digits.
pub open spec fn is_number(e: SpannedExprV) -> bool {
    match e.0 {
        ExprV::Literal(LiteralV::Int(val)) => -max_int_lit() <= val <= max_int_lit(),
        ExprV::Literal(LiteralV::Float(_)) => true,
        _ => false,
    }
}

/// A component of a vector literal raises nothing exactly where it is a
/// number or the negative of a number; anything else raises exactly one type
/// error.
pub proof fn law_vector_component(e: SpannedExprV)
    ensures
        num_lit_diags(e, false).len() == 0 <==> is_number(e) || (e.0 matches ExprV::Unary(
            UnOp::Neg,
            operand,
        ) && is_number(*operand)),
        num_lit_diags(e, false).len() <= 1,
        num_lit_diags(e, false).len() == 1 ==> num_lit_diags(e, false)[0].kind == ErrorKind::Type,
{
    reveal_with_fuel(num_lit_diags, 2);
}

/// Whether one of the diagnostics `diags` is an error: anything but a
/// warning.
pub open spec fn has_error(diags: Seq<Diagnostic>) -> bool {
    exists|i: int| 0 <= i < diags.len() && (#[trigger] diags[i]).kind != ErrorKind::Warning
}

proof fn lemma_has_error_left(a: Seq<Diagnostic>, b: Seq<Diagnostic>)
    requires
        has_error(a),
    ensures
        has_error(a + b),
{
    let i = choose|i: int| 0 <= i < a.len() && (#[trigger] a[i]).kind != ErrorKind::Warning;
    assert((a + b)[i] == a[i]);
}

proof fn lemma_has_error_right(a: Seq<Diagnostic>, b: Seq<Diagnostic>)
    requires
        has_error(b),
    ensures
        has_error(a + b),
{
    let i = choose|i: int| 0 <= i < b.len() && (#[trigger] b[i]).kind != ErrorKind::Warning;
    assert((a + b)[a.len() + i] == b[i]);
}

/// An expression is without a type only where an error is reported for it
/// or for a part of it: whoever finds no type has nothing more to report.
pub proof fn law_no_type_means_reported_error(e: SpannedExprV, env: Env)
    ensures
        check_expr(e, env).ty is None ==> has_error(check_expr(e, env).diags),
    decreases e,
{
    let outcome = check_expr(e, env);
    if outcome.ty is None {
        match e.0 {
            ExprV::Paren(inner) => {
                law_no_type_means_reported_error(*inner, env);
            },
            ExprV::Unary(op, operand) => {
                let o = check_expr(*operand, env);
                law_no_type_means_reported_error(*operand, env);
                if o.ty is Some {
                    let rule = unary_rule(op, e.1, o.ty->0);
                    assert(rule.diags[0].kind != ErrorKind::Warning);
                    lemma_has_error_right(o.diags, rule.diags);
                }
            },
            ExprV::Binary(op, lhs, rhs) => {
                let o1 = check_expr(*lhs, env);
                let o2 = check_expr(*rhs, env);
                law_no_type_means_reported_error(*lhs, env);
                law_no_type_means_reported_error(*rhs, env);
                if o1.ty is None {
                    lemma_has_error_left(o1.diags, o2.diags);
                } else if o2.ty is None {
                    lemma_has_error_right(o1.diags, o2.diags);
                } else {
                    let rule = binary_rule(op, e.1, o1.ty->0, o2.ty->0);
                    assert(rule.diags[0].kind != ErrorKind::Warning);
                    lemma_has_error_right(o1.diags + o2.diags, rule.diags);
                }
            },
            _ => {
                assert(outcome.diags[0].kind != ErrorKind::Warning);
            },
        }
    }
}

/// Whether `span` is the span of a node of the tree `e`, or of the name of
/// a call in it.
pub open spec fn has_span(e: SpannedExprV, span: Span) -> bool
    decreases e,
{
    e.1 == span || match e.0 {
        ExprV::Literal(_) => false,
        ExprV::Identifier(_) => false,
        ExprV::Paren(inner) => has_span(*inner, span),
        ExprV::Vec { x, y, z } => has_span(*x, span) || has_span(*y, span) || has_span(*z, span),
        ExprV::FnCall { name, args } => name.1 == span || any_has_span(args, span),
        ExprV::Unary(_, operand) => has_span(*operand, span),
        ExprV::Binary(_, lhs, rhs) => has_span(*lhs, span) || has_span(*rhs, span),
    }
}

/// Whether `span` is the span of a node of one of the trees `exprs`, or of
/// the name of a call in one of them.
pub open spec fn any_has_span(exprs: Seq<SpannedExprV>, span: Span) -> bool
    decreases exprs,
{
    exprs.len() > 0 && (has_span(exprs.last(), span) || any_has_span(exprs.drop_last(), span))
}

/// Whether every diagnostic of `diags` is about a node of the tree `e`.
pub open spec fn point_into(diags: Seq<Diagnostic>, e: SpannedExprV) -> bool {
    forall|i: int| 0 <= i < diags.len() ==> has_span(e, (#[trigger] diags[i]).span)
}

proof fn lemma_component_spans(e: SpannedExprV, is_neg: bool)
    ensures
        point_into(num_lit_diags(e, is_neg), e),
    decreases e,
{
    match e.0 {
        ExprV::Unary(UnOp::Neg, inner) => {
            if !is_neg {
                lemma_component_spans(*inner, true);
            }
        },
        _ => {},
    }
}

proof fn lemma_argument_spans(params: Seq<TypeV>, args: Seq<SpannedExprV>, env: Env)
    ensures
        forall|i: int|
            0 <= i < check_args(params, args, env).len() ==> any_has_span(
                args,
                (#[trigger] check_args(params, args, env)[i]).span,
            ),
    decreases args,
{
    if args.len() > 0 {
        lemma_argument_spans(params, args.drop_last(), env);
        law_diagnostics_point_into_the_expression(args.last(), env);
        let arg = args.last();
        let before = check_args(params, args.drop_last(), env);
        let own = check_expr(arg, env).diags;
        let all = check_args(params, args, env);
        assert forall|i: int| 0 <= i < all.len() implies any_has_span(
            args,
            (#[trigger] all[i]).span,
        ) by {
            if i < before.len() {
                assert(all[i] == before[i]);
                assert(any_has_span(args.drop_last(), before[i].span));
            } else if i < before.len() + own.len() {
                assert(all[i] == own[i - before.len()]);
                assert(has_span(arg, own[i - before.len()].span));
            } else {
                assert(all[i].span == arg.1);
                assert(has_span(arg, arg.1));
            }
        }
    }
}

/// Every diagnostic that an expression raises carries, unchanged, the span
/// of the node it is about: a node of the expression, or the name of a call
/// in it.
pub proof fn law_diagnostics_point_into_the_expression(e: SpannedExprV, env: Env)
    ensures
        point_into(check_expr(e, env).diags, e),
    decreases e,
{
    match e.0 {
        ExprV::Paren(inner) => {
            law_diagnostics_point_into_the_expression(*inner, env);
        },
        ExprV::Vec { x, y, z } => {
            lemma_component_spans(*x, false);
            lemma_component_spans(*y, false);
            lemma_component_spans(*z, false);
        },
        ExprV::FnCall { name, args } => {
            if env.contains_key(name.0) && env[name.0].callable() {
                lemma_argument_spans(env[name.0].params(), args, env);
            }
        },
        ExprV::Unary(_, operand) => {
            law_diagnostics_point_into_the_expression(*operand, env);
        },
        ExprV::Binary(_, lhs, rhs) => {
            law_diagnostics_point_into_the_expression(*lhs, env);
            law_diagnostics_point_into_the_expression(*rhs, env);
        },
        _ => {},
    }
}

} // verus!
