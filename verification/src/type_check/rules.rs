//! The rules of the static checks, as functions on mathematical values.
//!
//! An environment is a map from names to types. Checking an expression in an
//! environment gives its type, or none where an error stands in its way, and
//! the diagnostics it raises, in order. Checking a statement gives the
//! environment it leaves behind and the diagnostics it raises.
use vstd::prelude::*;
use crate::ast::astree::{ASTreeNode, Param};
use crate::ast::expr::{BinOp, Expr, ExprV, SpannedExprV, UnOp};
use crate::ast::literal::LiteralV;
use crate::ast::type_::TypeV;
use crate::diagnostics::{name_diag, syntax_diag, type_diag, warn_diag, Diagnostic};
use crate::span::{Span, Spanned};

verus! {

/// The names in scope and their types.
pub type Env = Map<Seq<char>, TypeV>;

/// What checking an expression gives.
pub struct ExprOutcome {
    /// The type of the expression; `None` where an error, reported in
    /// `diags`, keeps it from having one.
    pub ty: Option<TypeV>,
    /// The diagnostics raised, in order.
    pub diags: Seq<Diagnostic>,
}

/// What checking a statement gives.
pub struct StmtOutcome {
    /// The environment after the statement.
    pub env: Env,
    /// The diagnostics raised, in order.
    pub diags: Seq<Diagnostic>,
}

/// What checking the parameters of a function definition gives.
pub struct ParamsOutcome {
    /// The parameters' own scope.
    pub scope: Env,
    /// The parameters' types, in declaration order.
    pub types: Seq<TypeV>,
    /// The diagnostics raised, in order.
    pub diags: Seq<Diagnostic>,
}

/// The largest magnitude of an `int` literal: nine decimal digits.
pub open spec fn max_int_lit() -> int {
    999_999_999
}

/// The name under which the body of a function finds its return type.
pub open spec fn return_name() -> Seq<char> {
    "return"@
}

/// An `int` literal has at most nine digits.
pub open spec fn int_lit_diags(val: int, span: Span) -> Seq<Diagnostic> {
    if val < -max_int_lit() || max_int_lit() < val {
        seq![type_diag("`int` literals cannot have more than 9 digits"@, span)]
    } else {
        Seq::empty()
    }
}

/// A component of a vector literal is an `int` or `float` literal, after at
/// most one unary minus. `is_neg` says that a minus was stripped already.
pub open spec fn num_lit_diags(e: SpannedExprV, is_neg: bool) -> Seq<Diagnostic>
    decreases e,
{
    match e.0 {
        ExprV::Unary(UnOp::Neg, inner) => if is_neg {
            seq![type_diag("Unary negative may only be used with `int | float` literals"@, e.1)]
        } else {
            num_lit_diags(*inner, true)
        },
        ExprV::Literal(LiteralV::Int(val)) => int_lit_diags(val, e.1),
        ExprV::Literal(LiteralV::Float(_)) => Seq::empty(),
        ExprV::Literal(_) => seq![type_diag("Expected a value of type `int | float`"@, e.1)],
        _ => seq![
            type_diag("Only `int | float` literals are allowed in vector initialisations"@, e.1),
        ],
    }
}

/// Whether a value of type `actual` may stand where one of type `expected`
/// is asked for. `is_fn_call` says that the value is an argument of a call.
pub open spec fn compat_diags(expected: TypeV, actual: TypeV, span: Span, is_fn_call: bool) -> Seq<
    Diagnostic,
> {
    if expected == actual {
        Seq::empty()
    } else if expected is Int && actual is Float {
        seq![
            warn_diag("Possible loss of precision due to downcast from `float` to an `int`"@, span),
        ]
    } else if expected is Float && actual is Int {
        if is_fn_call {
            seq![
                warn_diag(
                    "`int` value may not get promoted to `float` automatically in a function call, floating point operations may not work correctly"@,
                    span,
                ),
            ]
        } else {
            Seq::empty()
        }
    } else {
        seq![type_diag("Expected `"@ + expected.name() + "` found `"@ + actual.name() + "`"@, span)]
    }
}

/// The outcome of an expression of type `ty` that raises nothing.
pub open spec fn typed(ty: TypeV) -> ExprOutcome {
    ExprOutcome { ty: Some(ty), diags: Seq::empty() }
}

/// The outcome of an expression that has no type because of `diag`.
pub open spec fn failed(diag: Diagnostic) -> ExprOutcome {
    ExprOutcome { ty: None, diags: seq![diag] }
}

/// Arithmetic on operands of types `t1` and `t2`. The result follows the left
/// operand; text joins with anything, but only under the operation named
/// `add`.
pub open spec fn arith_rule(span: Span, t1: TypeV, t2: TypeV, op_name: Seq<char>) -> ExprOutcome {
    if t1 is Int && t2 is Int {
        typed(TypeV::Int)
    } else if t1 is Int && t2 is Float {
        ExprOutcome {
            ty: Some(TypeV::Int),
            diags: seq![
                warn_diag(
                    "This expression yields an `int`, not a `float`.\n\nThe resulting type of an arithmetic operation depends on its first operand. yES."@,
                    span,
                ),
            ],
        }
    } else if t1 is Float && (t2 is Int || t2 is Float) {
        typed(TypeV::Float)
    } else if (t1 is Str || t2 is Str) && op_name == "add"@ {
        typed(TypeV::Str)
    } else {
        failed(
            type_diag(
                "Cannot "@ + op_name + " types `"@ + t1.name() + "` and `"@ + t2.name() + "`"@,
                span,
            ),
        )
    }
}

/// A comparison of operands of types `t1` and `t2`.
pub open spec fn reln_rule(span: Span, t1: TypeV, t2: TypeV) -> ExprOutcome {
    if (t1 is Int || t1 is Float) && (t2 is Int || t2 is Float) {
        typed(TypeV::Bool)
    } else if t1 is Str && t2 is Str {
        typed(TypeV::Bool)
    } else if (t1 is Vec && t2 is Vec) || (t1 is Bool && t2 is Bool) {
        ExprOutcome {
            ty: Some(TypeV::Bool),
            diags: seq![warn_diag("This comparison will cause a silent XS crash!"@, span)],
        }
    } else {
        failed(
            type_diag("Cannot compare types `"@ + t1.name() + "` and `"@ + t2.name() + "`"@, span),
        )
    }
}

/// `and`, `or` on operands of types `t1` and `t2`.
pub open spec fn logical_rule(span: Span, t1: TypeV, t2: TypeV, op_name: Seq<char>) -> ExprOutcome {
    if t1 is Bool && t2 is Bool {
        typed(TypeV::Bool)
    } else {
        failed(
            type_diag(
                "Cannot "@ + op_name + " types `"@ + t1.name() + "` and `"@ + t2.name() + "`"@,
                span,
            ),
        )
    }
}

/// The outcome of a binary node, from the outcomes `o1` and `o2` of its
/// operands and the outcome `rule` of the operator's rule on their types.
/// Both operands are checked; the rule applies where both have a type.
pub open spec fn combine(o1: ExprOutcome, o2: ExprOutcome, rule: ExprOutcome) -> ExprOutcome {
    if o1.ty is Some && o2.ty is Some {
        ExprOutcome { ty: rule.ty, diags: o1.diags + o2.diags + rule.diags }
    } else {
        ExprOutcome { ty: None, diags: o1.diags + o2.diags }
    }
}

/// The outcome of an arithmetic operation named `op_name` on `e1` and `e2`.
pub open spec fn arith_outcome(
    span: Span,
    e1: SpannedExprV,
    e2: SpannedExprV,
    env: Env,
    op_name: Seq<char>,
) -> ExprOutcome {
    let o1 = check_expr(e1, env);
    let o2 = check_expr(e2, env);
    combine(o1, o2, arith_rule(span, o1.ty->0, o2.ty->0, op_name))
}

/// The outcome of a comparison of `e1` and `e2`.
pub open spec fn reln_outcome(
    span: Span,
    e1: SpannedExprV,
    e2: SpannedExprV,
    env: Env,
) -> ExprOutcome {
    let o1 = check_expr(e1, env);
    let o2 = check_expr(e2, env);
    combine(o1, o2, reln_rule(span, o1.ty->0, o2.ty->0))
}

/// The outcome of a logical operation named `op_name` on `e1` and `e2`.
pub open spec fn logical_outcome(
    span: Span,
    e1: SpannedExprV,
    e2: SpannedExprV,
    env: Env,
    op_name: Seq<char>,
) -> ExprOutcome {
    let o1 = check_expr(e1, env);
    let o2 = check_expr(e2, env);
    combine(o1, o2, logical_rule(span, o1.ty->0, o2.ty->0, op_name))
}

/// The name of a binary operator in a diagnostic.
pub open spec fn op_name(op: BinOp) -> Seq<char> {
    match op {
        BinOp::Star => "multiply"@,
        BinOp::FSlash => "divide"@,
        BinOp::PCent => "modulo"@,
        BinOp::Plus => "add"@,
        BinOp::Minus => "subtract"@,
        BinOp::Lt => "lt"@,
        BinOp::Gt => "gt"@,
        BinOp::Le => "le"@,
        BinOp::Ge => "ge"@,
        BinOp::Eq => "eq"@,
        BinOp::Ne => "ne"@,
        BinOp::And => "and"@,
        BinOp::Or => "or"@,
    }
}

/// Whether `op` is one of `* / % + -`.
pub open spec fn is_arithmetic(op: BinOp) -> bool {
    op is Star || op is FSlash || op is PCent || op is Plus || op is Minus
}

/// Whether `op` is one of `and`, `or`.
pub open spec fn is_logical(op: BinOp) -> bool {
    op is And || op is Or
}

/// The rule of the binary operator `op` on operands of types `t1` and `t2`.
/// What is neither arithmetic nor logical compares.
pub open spec fn binary_rule(op: BinOp, span: Span, t1: TypeV, t2: TypeV) -> ExprOutcome {
    if is_arithmetic(op) {
        arith_rule(span, t1, t2, op_name(op))
    } else if is_logical(op) {
        logical_rule(span, t1, t2, op_name(op))
    } else {
        reln_rule(span, t1, t2)
    }
}

/// The rule of the unary operator `op` on an operand of type `t`: a minus
/// keeps a number's type, a negation keeps `bool`.
pub open spec fn unary_rule(op: UnOp, span: Span, t: TypeV) -> ExprOutcome {
    match op {
        UnOp::Neg => if t is Int || t is Float {
            typed(t)
        } else {
            failed(type_diag("Cannot negate type `"@ + t.name() + "`"@, span))
        },
        UnOp::Not => if t is Bool {
            typed(TypeV::Bool)
        } else {
            failed(type_diag("Cannot invert type `"@ + t.name() + "`"@, span))
        },
    }
}

/// The type of a literal.
pub open spec fn literal_type(lit: LiteralV) -> TypeV {
    match lit {
        LiteralV::Int(_) => TypeV::Int,
        LiteralV::Float(_) => TypeV::Float,
        LiteralV::Str(_) => TypeV::Str,
    }
}

/// The type of the expression `e` in `env`, and the diagnostics it raises.
pub open spec fn check_expr(e: SpannedExprV, env: Env) -> ExprOutcome
    decreases e,
{
    match e.0 {
        ExprV::Literal(lit) => typed(literal_type(lit)),
        ExprV::Identifier(name) => if env.contains_key(name) {
            typed(env[name])
        } else {
            failed(name_diag("Undefined variable"@, e.1))
        },
        ExprV::Paren(inner) => check_expr(*inner, env),
        ExprV::Vec { x, y, z } => ExprOutcome {
            ty: Some(TypeV::Vec),
            diags: num_lit_diags(*x, false) + num_lit_diags(*y, false) + num_lit_diags(*z, false),
        },
        ExprV::FnCall { name, args } => if !env.contains_key(name.0) {
            failed(name_diag("Undefined function"@, name.1))
        } else if !env[name.0].callable() {
            failed(type_diag("Only functions can be called"@, name.1))
        } else {
            ExprOutcome {
                ty: Some(env[name.0].ret()),
                diags: arity_diags(env[name.0].params().len(), args.len(), e.1) + check_args(
                    env[name.0].params(),
                    args,
                    env,
                ),
            }
        },
        ExprV::Unary(op, inner) => {
            let o = check_expr(*inner, env);
            match o.ty {
                Some(t) => {
                    let rule = unary_rule(op, e.1, t);
                    ExprOutcome { ty: rule.ty, diags: o.diags + rule.diags }
                },
                None => o,
            }
        },
        ExprV::Binary(op, a, b) => {
            let o1 = check_expr(*a, env);
            let o2 = check_expr(*b, env);
            combine(o1, o2, binary_rule(op, e.1, o1.ty->0, o2.ty->0))
        },
    }
}

/// A call passes as many arguments as the function has parameters.
pub open spec fn arity_diags(params: nat, args: nat, span: Span) -> Seq<Diagnostic> {
    if params == args {
        Seq::empty()
    } else {
        seq![type_diag("Wrong number of arguments in function call"@, span)]
    }
}

/// The diagnostics of the arguments `args` of a call to a function with
/// parameter types `params`: each argument is checked, and held against the
/// parameter at its place, if there is one.
pub open spec fn check_args(params: Seq<TypeV>, args: Seq<SpannedExprV>, env: Env) -> Seq<
    Diagnostic,
>
    decreases args,
{
    if args.len() == 0 {
        Seq::empty()
    } else {
        let arg = args.last();
        let o = check_expr(arg, env);
        check_args(params, args.drop_last(), env) + o.diags + if o.ty is Some && args.len()
            <= params.len() {
            compat_diags(params[args.len() - 1], o.ty->0, arg.1, true)
        } else {
            Seq::empty()
        }
    }
}

/// The diagnostics of an expression `e` that must fit the type `expected`:
/// those of `e` itself, then, where `e` has a type, those of holding it
/// against `expected`.
pub open spec fn typed_diags(expected: TypeV, e: SpannedExprV, env: Env) -> Seq<Diagnostic> {
    let o = check_expr(e, env);
    o.diags + match o.ty {
        Some(actual) => compat_diags(expected, actual, e.1, false),
        None => Seq::empty(),
    }
}

/// A name may be declared once in a scope.
pub open spec fn redeclared_diags(env: Env, name: Spanned<Seq<char>>) -> Seq<Diagnostic> {
    if env.contains_key(name.0) {
        seq![name_diag("Variable name is already in use"@, name.1)]
    } else {
        Seq::empty()
    }
}

/// The initializer of a variable at the top level, or of a `const`, is a
/// literal; at the top level a text literal does not work as one would hope.
pub open spec fn initializer_diags(e: SpannedExprV, is_top_level: bool, is_const: bool) -> Seq<
    Diagnostic,
> {
    if !(is_top_level || is_const) {
        Seq::empty()
    } else if is_top_level && e.0 matches ExprV::Literal(LiteralV::Str(_)) {
        seq![warn_diag("Top level string initializers do not work correctly. yES"@, e.1)]
    } else if e.0 is Literal {
        Seq::empty()
    } else {
        seq![syntax_diag("Top level or `const` variable initializers must be literals"@, e.1)]
    }
}

/// The diagnostics of one parameter of a function definition, in the scope
/// `outer` around the function and after the parameters bound in `scope`.
pub open spec fn param_diags(p: Param, outer: Env, scope: Env) -> Seq<Diagnostic> {
    (if outer.contains_key(p.name.0@) || scope.contains_key(p.name.0@) {
        seq![name_diag("Variable name is already in use"@, p.name.1)]
    } else {
        Seq::empty()
    }) + (if p.default.0@ is Literal {
        Seq::empty()
    } else {
        seq![syntax_diag("Parameter defaults must be literals"@, p.default.1)]
    }) + typed_diags(p.type_@, p.default@, outer)
}

/// The parameters of a function definition, checked in order in the scope
/// `outer` around the function.
pub open spec fn check_params(params: Seq<Param>, outer: Env) -> ParamsOutcome
    decreases params.len(),
{
    if params.len() == 0 {
        ParamsOutcome { scope: Map::empty(), types: Seq::empty(), diags: Seq::empty() }
    } else {
        let before = check_params(params.drop_last(), outer);
        let p = params.last();
        ParamsOutcome {
            scope: before.scope.insert(p.name.0@, p.type_@),
            types: before.types.push(p.type_@),
            diags: before.diags + param_diags(p, outer, before.scope),
        }
    }
}

/// The scope of the body of a function: everything in the scope `outer`
/// around it, the parameters over that, and over both the return type under
/// the name `return`.
pub open spec fn body_scope(outer: Env, params: Env, return_type: TypeV) -> Env {
    outer.union_prefer_right(params).insert(return_name(), return_type)
}

/// The diagnostics of a `return` with value `value` where the return type
/// in scope is `return_type`.
pub open spec fn returned_diags(
    return_type: TypeV,
    value: Option<SpannedExprV>,
    env: Env,
    span: Span,
) -> Seq<Diagnostic> {
    match value {
        None => if return_type is Void {
            Seq::empty()
        } else {
            seq![
                syntax_diag(
                    "This function must return a value of type `"@ + return_type.name() + "`"@,
                    span,
                ),
            ]
        },
        Some(e) => if return_type is Void {
            seq![syntax_diag("This function cannot return a value"@, span)]
        } else {
            (if e.0 is Paren {
                Seq::empty()
            } else {
                seq![
                    syntax_diag(
                        "`return` statement expressions must be enclosed in parenthesis. yES"@,
                        e.1,
                    ),
                ]
            }) + typed_diags(return_type, e, env)
        },
    }
}

/// The diagnostics of a `return` with value `value`, read at `span`, in
/// `env`: it is allowed where a return type is in scope.
pub open spec fn return_diags(value: Option<SpannedExprV>, env: Env, span: Span) -> Seq<
    Diagnostic,
> {
    if env.contains_key(return_name()) {
        returned_diags(env[return_name()], value, env, span)
    } else {
        seq![syntax_diag("`return` statement is not allowed here"@, span)]
    }
}

/// The diagnostics of the definition of a variable `name` of type `type_`
/// with initializer `value`, in `env`.
pub open spec fn var_def_diags(
    is_extern: bool,
    is_const: bool,
    type_: TypeV,
    name: Spanned<Seq<char>>,
    value: Option<SpannedExprV>,
    env: Env,
    is_top_level: bool,
) -> Seq<Diagnostic> {
    redeclared_diags(env, name) + (if !is_top_level && is_extern {
        seq![syntax_diag("Local variables cannot be declared as `extern`"@, name.1)]
    } else {
        Seq::empty()
    }) + match value {
        None => if is_const {
            seq![
                syntax_diag(
                    "Variable declared as `const` must be initialised with a value"@,
                    name.1,
                ),
            ]
        } else {
            Seq::empty()
        },
        Some(init) => initializer_diags(init, is_top_level, is_const) + typed_diags(
            type_,
            init,
            env.insert(name.0, type_),
        ),
    }
}

/// The diagnostics of the assignment of `value` to `name`, read at `span`,
/// in `env`.
pub open spec fn var_assign_diags(
    name: Spanned<Seq<char>>,
    value: SpannedExprV,
    env: Env,
    span: Span,
    is_top_level: bool,
) -> Seq<Diagnostic> {
    (if is_top_level {
        seq![syntax_diag("Assignments are not allowed at the top level"@, span)]
    } else {
        Seq::empty()
    }) + if env.contains_key(name.0) {
        typed_diags(env[name.0], value, env)
    } else {
        seq![name_diag("Undefined variable"@, name.1)]
    }
}

/// The value of an optional expression.
pub open spec fn opt_expr_view(value: Option<Spanned<Expr>>) -> Option<SpannedExprV> {
    match value {
        Some(e) => Some(e@),
        None => None,
    }
}

/// The environment after the statement `stmt` in `env`, and the diagnostics
/// it raises. `is_top_level` says that the statement stands outside every
/// function and rule.
pub open spec fn check_stmt(stmt: Spanned<ASTreeNode>, env: Env, is_top_level: bool) -> StmtOutcome
    decreases stmt,
{
    match stmt.0 {
        ASTreeNode::Include(_) => StmtOutcome {
            env,
            diags: if is_top_level {
                Seq::empty()
            } else {
                seq![
                    syntax_diag(
                        "An include statement may only appear at the top of the module"@,
                        stmt.1,
                    ),
                ]
            },
        },
        ASTreeNode::VarDef { is_extern, is_static, is_const, type_, name, value } => StmtOutcome {
            env: env.insert(name.0@, type_@),
            diags: var_def_diags(
                is_extern,
                is_const,
                type_@,
                (name.0@, name.1),
                opt_expr_view(value),
                env,
                is_top_level,
            ),
        },
        ASTreeNode::VarAssign { name, value } => StmtOutcome {
            env,
            diags: var_assign_diags((name.0@, name.1), value@, env, stmt.1, is_top_level),
        },
        ASTreeNode::RuleDef { name, rule_opts, body } => {
            let scope = env.insert(name.0@, TypeV::Rule);
            StmtOutcome {
                env: scope,
                diags: redeclared_diags(env, (name.0@, name.1)) + check_body(
                    body.0.0@,
                    scope,
                    false,
                ).diags,
            }
        },
        ASTreeNode::FnDef { is_mutable, return_type, name, params, body } => {
            let ps = check_params(params@, env);
            let scope = env.insert(name.0@, TypeV::Func(ps.types.push(return_type@)));
            StmtOutcome {
                env: scope,
                diags: ps.diags + redeclared_diags(env, (name.0@, name.1)) + check_body(
                    body.0.0@,
                    body_scope(scope, ps.scope, return_type@),
                    false,
                ).diags,
            }
        },
        ASTreeNode::Return(value) => StmtOutcome {
            env,
            diags: return_diags(opt_expr_view(value), env, stmt.1),
        },
        _ => StmtOutcome { env, diags: Seq::empty() },
    }
}

/// The environment after the statements `stmts`, checked in order from
/// `env`, and the diagnostics they raise.
pub open spec fn check_body(
    stmts: Seq<Spanned<ASTreeNode>>,
    env: Env,
    is_top_level: bool,
) -> StmtOutcome
    decreases stmts,
{
    if stmts.len() == 0 {
        StmtOutcome { env, diags: Seq::empty() }
    } else {
        let before = check_body(stmts.drop_last(), env, is_top_level);
        let last = check_stmt(stmts.last(), before.env, is_top_level);
        StmtOutcome { env: last.env, diags: before.diags + last.diags }
    }
}

} // verus!
