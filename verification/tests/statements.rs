use xs_check::ast::astree::{ASTreeNode, Body, Param, RuleOpt};
use xs_check::ast::expr::Expr;
use xs_check::ast::identifier::Identifier;
use xs_check::ast::literal::Literal;
use xs_check::ast::type_::Type;
use xs_check::diagnostics::{name_err, syntax_err, type_err, warn, ErrorKind, XSError};
use xs_check::span::{Span, Spanned};
use xs_check::type_check::statement::{xs_tc_module, xs_tc_stmt, xs_tc_stmts};
use xs_check::type_env::TypeEnv;

const S_INT_FLOAT: &str = "This expression yields an `int`, not a `float`.\n\nThe resulting type of an arithmetic operation depends on its first operand. yES.";
const S_DOWNCAST: &str = "Possible loss of precision due to downcast from `float` to an `int`";
const S_IN_USE: &str = "Variable name is already in use";
const S_CONST: &str = "Variable declared as `const` must be initialised with a value";
const S_LITERAL: &str = "Top level or `const` variable initializers must be literals";
const S_RETURN: &str = "`return` statement is not allowed here";

fn s_sp(start: usize, end: usize) -> Span {
    Span { start, end }
}

fn s_name(s: &str, at: usize) -> Spanned<Identifier> {
    (Identifier::new(s), s_sp(at, at + s.len()))
}

fn s_int(v: i64, at: usize) -> Spanned<Expr> {
    (Expr::Literal(Literal::Int(v)), s_sp(at, at + 1))
}

fn s_float(v: f64, at: usize) -> Spanned<Expr> {
    (Expr::Literal(Literal::Float(v.to_bits())), s_sp(at, at + 3))
}

fn s_text(s: &str, at: usize) -> Spanned<Expr> {
    (Expr::Literal(Literal::Str(String::from(s))), s_sp(at, at + 3))
}

fn s_var(s: &str, at: usize) -> Spanned<Expr> {
    (Expr::Identifier(Identifier::new(s)), s_sp(at, at + s.len()))
}

fn s_paren(e: Spanned<Expr>) -> Spanned<Expr> {
    let span = s_sp(e.1.start - 1, e.1.end + 1);
    (Expr::Paren(Box::new(e)), span)
}

fn s_def(type_: Type, name: &str, value: Option<Spanned<Expr>>) -> Spanned<ASTreeNode> {
    (
        ASTreeNode::VarDef {
            is_extern: false,
            is_static: false,
            is_const: false,
            type_,
            name: s_name(name, 10),
            value,
        },
        s_sp(0, 40),
    )
}

fn s_const(type_: Type, name: &str, value: Option<Spanned<Expr>>) -> Spanned<ASTreeNode> {
    (
        ASTreeNode::VarDef {
            is_extern: false,
            is_static: false,
            is_const: true,
            type_,
            name: s_name(name, 10),
            value,
        },
        s_sp(0, 40),
    )
}

fn s_body(stmts: Vec<Spanned<ASTreeNode>>) -> Spanned<Body> {
    (Body(stmts), s_sp(50, 90))
}

fn s_return(value: Option<Spanned<Expr>>) -> Spanned<ASTreeNode> {
    (ASTreeNode::Return(value), s_sp(60, 70))
}

fn s_fn(return_type: Type, name: &str, params: Vec<Param>, body: Vec<Spanned<ASTreeNode>>) -> Spanned<ASTreeNode> {
    (
        ASTreeNode::FnDef {
            is_mutable: false,
            return_type,
            name: s_name(name, 5),
            params,
            body: s_body(body),
        },
        s_sp(0, 90),
    )
}

fn s_param(type_: Type, name: &str, at: usize, default: Spanned<Expr>) -> Param {
    Param { type_, name: s_name(name, at), default }
}

fn s_run(stmt: &Spanned<ASTreeNode>, env: &mut TypeEnv, is_top_level: bool) -> Vec<XSError> {
    let mut errs = Vec::new();
    xs_tc_stmt(stmt, env, &mut errs, is_top_level);
    errs
}

fn s_count(errs: &[XSError], kind: ErrorKind) -> usize {
    errs.iter().filter(|e| e.kind == kind).count()
}

#[test]
fn const_int_from_float_literal_warns_and_binds_int() {
    // const int x = 3.5;
    let mut env = TypeEnv::new();
    let errs = s_run(&s_const(Type::Int, "x", Some(s_float(3.5, 14))), &mut env, true);
    assert_eq!(errs, vec![warn(S_DOWNCAST, &s_sp(14, 17))]);
    assert_eq!(s_count(&errs, ErrorKind::Warning), 1);
    assert_eq!(env.get(&Identifier::new("x")), Some(&Type::Int));
}

#[test]
fn parameter_default_is_held_against_the_parameter_type() {
    // void f(int a = 2.5) { }
    let mut env = TypeEnv::new();
    let f = s_fn(Type::Void, "f", vec![s_param(Type::Int, "a", 12, s_float(2.5, 16))], vec![]);
    let errs = s_run(&f, &mut env, true);
    assert_eq!(errs, vec![warn(S_DOWNCAST, &s_sp(16, 19))]);
    assert_eq!(env.get(&Identifier::new("f")), Some(&Type::Func(vec![Type::Int, Type::Void])));
    assert_eq!(env.get(&Identifier::new("a")), None);
    assert_eq!(env.get(&Identifier::new("return")), None);
}

#[test]
fn top_level_initializer_that_is_no_literal() {
    // int y = a + 1.0;  with a: int
    let mut env = TypeEnv::new();
    env.insert(Identifier::new("a"), Type::Int);
    let sum = (Expr::Plus(Box::new(s_var("a", 14)), Box::new(s_float(1.0, 18))), s_sp(14, 21));
    let errs = s_run(&s_def(Type::Int, "y", Some(sum)), &mut env, true);
    assert_eq!(errs, vec![syntax_err(S_LITERAL, &s_sp(14, 21)), warn(S_INT_FLOAT, &s_sp(14, 21))]);
    assert_eq!(env.get(&Identifier::new("y")), Some(&Type::Int));
}

#[test]
fn declaring_a_name_twice_is_one_name_error() {
    let program = vec![s_def(Type::Int, "x", Some(s_int(1, 14))), s_def(Type::Float, "x", None)];
    let (env, errs) = xs_tc_module(&program);
    assert_eq!(errs, vec![name_err(S_IN_USE, &s_sp(10, 11))]);
    assert_eq!(s_count(&errs, ErrorKind::Name), 1);
    // the binding remains queryable, with the type of the latest declaration
    assert_eq!(env.get(&Identifier::new("x")), Some(&Type::Float));
}

#[test]
fn redeclaration_inside_a_scope_is_one_name_error() {
    let mut env = TypeEnv::new();
    let mut errs = Vec::new();
    let stmts = vec![s_def(Type::Str, "s", None), s_def(Type::Str, "s", None)];
    xs_tc_stmts(&stmts, &mut env, &mut errs, false);
    assert_eq!(errs, vec![name_err(S_IN_USE, &s_sp(10, 11))]);
    assert_eq!(env.get(&Identifier::new("s")), Some(&Type::Str));
}

#[test]
fn const_without_initializer_is_one_syntax_error() {
    let mut env = TypeEnv::new();
    let errs = s_run(&s_const(Type::Int, "k", None), &mut env, true);
    assert_eq!(errs, vec![syntax_err(S_CONST, &s_sp(10, 11))]);
    assert_eq!(env.get(&Identifier::new("k")), Some(&Type::Int));
    // a name that is taken adds its name error, and nothing about types
    let errs = s_run(&s_const(Type::Str, "k", None), &mut env, true);
    assert_eq!(errs, vec![name_err(S_IN_USE, &s_sp(10, 11)), syntax_err(S_CONST, &s_sp(10, 11))]);
    assert_eq!(s_count(&errs, ErrorKind::Syntax), 1);
    assert_eq!(s_count(&errs, ErrorKind::Type), 0);
}

#[test]
fn variable_without_initializer_is_accepted() {
    let mut env = TypeEnv::new();
    assert_eq!(s_run(&s_def(Type::Vec, "v", None), &mut env, true), vec![]);
    assert_eq!(s_run(&s_def(Type::Vec, "w", None), &mut env, false), vec![]);
    assert_eq!(env.get(&Identifier::new("v")), Some(&Type::Vec));
}

#[test]
fn return_outside_a_function_is_one_syntax_error() {
    let values: [fn() -> Option<Spanned<Expr>>; 3] =
        [|| None, || Some(s_var("nope", 67)), || Some(s_paren(s_int(1, 68)))];
    for value in values {
        for top in [true, false] {
            let mut env = TypeEnv::new();
            env.insert(Identifier::new("x"), Type::Int);
            let errs = s_run(&s_return(value()), &mut env, top);
            assert_eq!(errs, vec![syntax_err(S_RETURN, &s_sp(60, 70))]);
            assert_eq!(env.get(&Identifier::new("x")), Some(&Type::Int));
        }
    }
}

#[test]
fn return_inside_a_rule_is_not_allowed() {
    let rule = (
        ASTreeNode::RuleDef {
            name: s_name("tick", 5),
            rule_opts: vec![(RuleOpt::Active, s_sp(10, 16)), (RuleOpt::HighFrequency, s_sp(17, 30))],
            body: s_body(vec![s_return(None)]),
        },
        s_sp(0, 90),
    );
    let (env, errs) = xs_tc_module(&vec![rule]);
    assert_eq!(errs, vec![syntax_err(S_RETURN, &s_sp(60, 70))]);
    assert_eq!(env.get(&Identifier::new("tick")), Some(&Type::Rule));
}

#[test]
fn include_belongs_to_the_top_level() {
    let stmt = (ASTreeNode::Include((String::from("lib.xs"), s_sp(8, 16))), s_sp(0, 17));
    let mut env = TypeEnv::new();
    assert_eq!(s_run(&stmt, &mut env, true), vec![]);
    assert_eq!(
        s_run(&stmt, &mut env, false),
        vec![syntax_err("An include statement may only appear at the top of the module", &s_sp(0, 17))]
    );
}

#[test]
fn extern_belongs_to_the_top_level() {
    let def = |is_const: bool| {
        (
            ASTreeNode::VarDef {
                is_extern: true,
                is_static: true,
                is_const,
                type_: Type::Int,
                name: s_name("e", 10),
                value: None,
            },
            s_sp(0, 40),
        )
    };
    let mut env = TypeEnv::new();
    assert_eq!(s_run(&def(false), &mut env, true), vec![]);
    let mut env = TypeEnv::new();
    assert_eq!(
        s_run(&def(true), &mut env, false),
        vec![
            syntax_err("Local variables cannot be declared as `extern`", &s_sp(10, 11)),
            syntax_err(S_CONST, &s_sp(10, 11)),
        ]
    );
}

#[test]
fn top_level_text_initializer_gets_a_warning() {
    let mut env = TypeEnv::new();
    let errs = s_run(&s_def(Type::Str, "s", Some(s_text("hi", 14))), &mut env, true);
    assert_eq!(
        errs,
        vec![warn("Top level string initializers do not work correctly. yES", &s_sp(14, 17))]
    );
    // not at the top level: no warning, for a const neither
    let mut env = TypeEnv::new();
    assert_eq!(s_run(&s_const(Type::Str, "s", Some(s_text("hi", 14))), &mut env, false), vec![]);
    // held against the declared type all the same
    let mut env = TypeEnv::new();
    let errs = s_run(&s_def(Type::Int, "n", Some(s_text("hi", 14))), &mut env, true);
    assert_eq!(
        errs,
        vec![
            warn("Top level string initializers do not work correctly. yES", &s_sp(14, 17)),
            type_err("Expected `int` found `string`", &s_sp(14, 17)),
        ]
    );
}

#[test]
fn local_initializer_may_be_any_expression() {
    let mut env = TypeEnv::new();
    env.insert(Identifier::new("a"), Type::Float);
    assert_eq!(s_run(&s_def(Type::Float, "y", Some(s_var("a", 14))), &mut env, false), vec![]);
    // a const asks for a literal everywhere
    let errs = s_run(&s_const(Type::Float, "z", Some(s_var("a", 14))), &mut env, false);
    assert_eq!(errs, vec![syntax_err(S_LITERAL, &s_sp(14, 15))]);
    // an initializer without a type is not held against the declared type
    let errs = s_run(&s_def(Type::Float, "w", Some(s_var("nope", 14))), &mut env, false);
    assert_eq!(errs, vec![name_err("Undefined variable", &s_sp(14, 18))]);
    assert_eq!(env.get(&Identifier::new("w")), Some(&Type::Float));
}

#[test]
fn initializer_sees_the_variable_it_initializes() {
    let mut env = TypeEnv::new();
    assert_eq!(s_run(&s_def(Type::Int, "x", Some(s_var("x", 14))), &mut env, false), vec![]);
}

fn s_assign(name: &str, value: Spanned<Expr>) -> Spanned<ASTreeNode> {
    (ASTreeNode::VarAssign { name: s_name(name, 0), value }, s_sp(0, 20))
}

#[test]
fn assignment_rules() {
    let mut env = TypeEnv::new();
    env.insert(Identifier::new("i"), Type::Int);
    env.insert(Identifier::new("f"), Type::Float);
    assert_eq!(s_run(&s_assign("i", s_int(1, 4)), &mut env, false), vec![]);
    assert_eq!(s_run(&s_assign("f", s_int(1, 4)), &mut env, false), vec![]);
    assert_eq!(
        s_run(&s_assign("i", s_float(1.5, 4)), &mut env, false),
        vec![warn(S_DOWNCAST, &s_sp(4, 7))]
    );
    assert_eq!(
        s_run(&s_assign("i", s_text("a", 4)), &mut env, false),
        vec![type_err("Expected `int` found `string`", &s_sp(4, 7))]
    );
    // an unknown target ends the check: the value is not looked at
    assert_eq!(
        s_run(&s_assign("q", s_var("nope", 4)), &mut env, false),
        vec![name_err("Undefined variable", &s_sp(0, 1))]
    );
    assert_eq!(
        s_run(&s_assign("i", s_var("nope", 4)), &mut env, false),
        vec![name_err("Undefined variable", &s_sp(4, 8))]
    );
    assert_eq!(
        s_run(&s_assign("i", s_float(1.5, 4)), &mut env, true),
        vec![
            syntax_err("Assignments are not allowed at the top level", &s_sp(0, 20)),
            warn(S_DOWNCAST, &s_sp(4, 7)),
        ]
    );
    assert_eq!(env.get(&Identifier::new("q")), None);
}

#[test]
fn rule_body_is_checked_in_its_own_scope() {
    let rule = (
        ASTreeNode::RuleDef {
            name: s_name("tick", 5),
            rule_opts: vec![],
            body: s_body(vec![
                s_def(Type::Int, "local", Some(s_float(0.5, 14))),
                s_assign("local", s_int(2, 4)),
                s_assign("tick", s_int(2, 4)),
            ]),
        },
        s_sp(0, 90),
    );
    let mut env = TypeEnv::new();
    let errs = s_run(&rule, &mut env, true);
    assert_eq!(
        errs,
        vec![warn(S_DOWNCAST, &s_sp(14, 17)), type_err("Expected `rule` found `int`", &s_sp(4, 5))]
    );
    assert_eq!(env.get(&Identifier::new("tick")), Some(&Type::Rule));
    assert_eq!(env.get(&Identifier::new("local")), None);
    // a second rule of that name
    let errs = s_run(&rule, &mut env, true);
    assert_eq!(errs[0], name_err(S_IN_USE, &s_sp(5, 9)));
    assert_eq!(errs.len(), 3);
}

#[test]
fn function_body_sees_parameters_globals_and_return_type() {
    // float g = 1.5;
    // int f(int a = 1, float g = 2.0) { g = 1.5; k = a; return (a); }
    let f = s_fn(
        Type::Int,
        "f",
        vec![s_param(Type::Int, "a", 12, s_int(1, 16)), s_param(Type::Str, "g", 20, s_text("x", 24))],
        vec![
            s_assign("g", s_text("t", 4)),
            s_assign("k", s_var("a", 4)),
            s_assign("f", s_int(1, 6)),
            s_return(Some(s_paren(s_var("a", 68)))),
        ],
    );
    let program = vec![
        s_def(Type::Float, "g", Some(s_float(1.5, 14))),
        s_def(Type::Float, "k", None),
        f,
    ];
    let (env, errs) = xs_tc_module(&program);
    assert_eq!(
        errs,
        vec![
            // the parameter `g` is named like the global
            name_err(S_IN_USE, &s_sp(20, 21)),
            // inside, `g` is the parameter: text fits
            // `k` is the global float: an int fits silently
            // `f` is the function itself
            type_err("Expected `fn(int, string, int)` found `int`", &s_sp(6, 7)),
        ]
    );
    assert_eq!(
        env.get(&Identifier::new("f")),
        Some(&Type::Func(vec![Type::Int, Type::Str, Type::Int]))
    );
    assert_eq!(env.get(&Identifier::new("g")), Some(&Type::Float));
    assert_eq!(env.get(&Identifier::new("a")), None);
}

#[test]
fn parameters_are_checked_in_order() {
    let f = s_fn(
        Type::Void,
        "f",
        vec![
            s_param(Type::Int, "a", 12, s_var("one", 16)),
            s_param(Type::Float, "a", 22, s_int(1, 26)),
            s_param(Type::Bool, "f", 32, s_var("a", 36)),
        ],
        vec![],
    );
    let mut env = TypeEnv::new();
    env.insert(Identifier::new("one"), Type::Int);
    let errs = s_run(&f, &mut env, true);
    assert_eq!(
        errs,
        vec![
            syntax_err("Parameter defaults must be literals", &s_sp(16, 19)),
            name_err(S_IN_USE, &s_sp(22, 23)),
            syntax_err("Parameter defaults must be literals", &s_sp(36, 37)),
            // defaults are read in the scope around the function, where `a` is unknown
            name_err("Undefined variable", &s_sp(36, 37)),
        ]
    );
    assert_eq!(
        env.get(&Identifier::new("f")),
        Some(&Type::Func(vec![Type::Int, Type::Float, Type::Bool, Type::Void]))
    );
}

#[test]
fn function_name_must_be_free() {
    let mut env = TypeEnv::new();
    env.insert(Identifier::new("f"), Type::Int);
    let errs = s_run(&s_fn(Type::Void, "f", vec![], vec![]), &mut env, true);
    assert_eq!(errs, vec![name_err(S_IN_USE, &s_sp(5, 6))]);
    assert_eq!(env.get(&Identifier::new("f")), Some(&Type::Func(vec![Type::Void])));
}

#[test]
fn return_rules_inside_a_function() {
    let check = |return_type: Type, value: Option<Spanned<Expr>>| {
        let mut env = TypeEnv::new();
        s_run(&s_fn(return_type, "f", vec![], vec![s_return(value)]), &mut env, true)
    };
    assert_eq!(check(Type::Void, None), vec![]);
    assert_eq!(
        check(Type::Int, None),
        vec![syntax_err("This function must return a value of type `int`", &s_sp(60, 70))]
    );
    assert_eq!(
        check(Type::Void, Some(s_var("nope", 67))),
        vec![syntax_err("This function cannot return a value", &s_sp(60, 70))]
    );
    assert_eq!(check(Type::Int, Some(s_paren(s_int(1, 68)))), vec![]);
    assert_eq!(check(Type::Float, Some(s_paren(s_int(1, 68)))), vec![]);
    assert_eq!(
        check(Type::Int, Some(s_paren(s_float(1.5, 68)))),
        vec![warn(S_DOWNCAST, &s_sp(67, 72))]
    );
    assert_eq!(
        check(Type::Int, Some(s_float(1.5, 67))),
        vec![
            syntax_err(
                "`return` statement expressions must be enclosed in parenthesis. yES",
                &s_sp(67, 70)
            ),
            warn(S_DOWNCAST, &s_sp(67, 70)),
        ]
    );
    assert_eq!(
        check(Type::Str, Some(s_paren(s_var("nope", 68)))),
        vec![name_err("Undefined variable", &s_sp(68, 72))]
    );
}

#[test]
fn nested_function_returns_against_its_own_type() {
    // int outer() { void inner() { return; } return (1); }
    let inner = s_fn(Type::Void, "inner", vec![], vec![s_return(None)]);
    let outer = s_fn(Type::Int, "outer", vec![], vec![inner, s_return(Some(s_paren(s_int(1, 68))))]);
    let (env, errs) = xs_tc_module(&vec![outer]);
    assert_eq!(errs, vec![]);
    assert_eq!(env.get(&Identifier::new("outer")), Some(&Type::Func(vec![Type::Int])));
    assert_eq!(env.get(&Identifier::new("inner")), None);
}

#[test]
fn other_statements_are_accepted_as_they_are() {
    let cond = || s_var("nope", 4);
    let stmts = vec![
        (
            ASTreeNode::IfElse {
                condition: cond(),
                consequent: s_body(vec![s_return(None)]),
                alternate: Some(s_body(vec![s_assign("nope", s_int(1, 4))])),
            },
            s_sp(0, 9),
        ),
        (ASTreeNode::While { condition: cond(), body: s_body(vec![s_return(None)]) }, s_sp(0, 9)),
        (
            ASTreeNode::For {
                var: Box::new(s_assign("nope", s_int(1, 4))),
                condition: cond(),
                body: s_body(vec![]),
            },
            s_sp(0, 9),
        ),
        (
            ASTreeNode::Switch {
                clause: cond(),
                cases: vec![
                    (Some((Literal::Int(1), s_sp(3, 4))), s_body(vec![])),
                    (None, s_body(vec![s_return(None)])),
                ],
            },
            s_sp(0, 9),
        ),
        (ASTreeNode::PostDPlus(s_name("nope", 0)), s_sp(0, 9)),
        (ASTreeNode::PostDMinus(s_name("nope", 0)), s_sp(0, 9)),
        (ASTreeNode::Break, s_sp(0, 9)),
        (ASTreeNode::Continue, s_sp(0, 9)),
        (ASTreeNode::Breakpoint, s_sp(0, 9)),
        (ASTreeNode::LabelDef(s_name("l", 0)), s_sp(0, 9)),
        (ASTreeNode::Goto(s_name("nowhere", 0)), s_sp(0, 9)),
        (ASTreeNode::Discarded(cond()), s_sp(0, 9)),
        (ASTreeNode::Debug(s_name("nope", 0)), s_sp(0, 9)),
        (
            ASTreeNode::Class {
                name: s_name("c", 0),
                member_vars: vec![s_const(Type::Int, "m", None)],
            },
            s_sp(0, 9),
        ),
    ];
    for top in [true, false] {
        let mut env = TypeEnv::new();
        let mut errs = Vec::new();
        xs_tc_stmts(&stmts, &mut env, &mut errs, top);
        assert_eq!(errs, vec![]);
        assert_eq!(env.get(&Identifier::new("c")), None);
        assert_eq!(env.get(&Identifier::new("m")), None);
    }
}

#[test]
fn one_statement_can_raise_several_kinds() {
    // at the top level: extern const int x = nope + 1;  with x taken
    let sum = (Expr::Plus(Box::new(s_var("a", 14)), Box::new(s_text("t", 18))), s_sp(14, 21));
    let program = vec![
        s_def(Type::Int, "a", None),
        s_def(Type::Bool, "y", None),
        s_const(Type::Int, "y", Some(sum)),
        s_def(Type::Int, "after", Some(s_int(1, 14))),
    ];
    let (env, errs) = xs_tc_module(&program);
    assert_eq!(
        errs,
        vec![
            name_err(S_IN_USE, &s_sp(10, 11)),
            syntax_err(S_LITERAL, &s_sp(14, 21)),
            type_err("Expected `int` found `string`", &s_sp(14, 21)),
        ]
    );
    // what follows is checked all the same
    assert_eq!(env.get(&Identifier::new("after")), Some(&Type::Int));
    assert_eq!(env.get(&Identifier::new("y")), Some(&Type::Int));
}

#[test]
fn environments_can_be_copied() {
    let f = s_fn(
        Type::Int,
        "f",
        vec![s_param(Type::Int, "a", 12, s_int(1, 16))],
        vec![s_return(Some(s_paren(s_var("a", 68))))],
    );
    let mut env = TypeEnv::new();
    assert_eq!(s_run(&f, &mut env, true), vec![]);
    let mut other = env.clone();
    other.insert(Identifier::new("g"), Type::Bool);
    assert_eq!(env.get(&Identifier::new("g")), None);
    assert_eq!(other.get(&Identifier::new("f")), Some(&Type::Func(vec![Type::Int, Type::Int])));
}
