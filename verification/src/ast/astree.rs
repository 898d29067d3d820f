//! Statement trees.
use vstd::prelude::*;
use crate::ast::expr::Expr;
use crate::ast::identifier::Identifier;
use crate::ast::literal::Literal;
use crate::ast::type_::Type;
use crate::span::Spanned;

verus! {

/// The statements between a pair of braces, in source order.
#[derive(Debug, PartialEq, Eq, Hash)]
pub struct Body(pub Vec<Spanned<ASTreeNode>>);

/// A parameter of a function definition. Every parameter has a default.
#[derive(Debug, PartialEq, Eq, Hash)]
pub struct Param {
    pub type_: Type,
    pub name: Spanned<Identifier>,
    pub default: Spanned<Expr>,
}

/// An option in the header of a rule.
#[derive(Debug, Clone, PartialEq, Eq, Hash)]
pub enum RuleOpt {
    Active,
    Inactive,
    RunImmediately,
    HighFrequency,
    Group(Identifier),
    MinInterval(Literal),
    MaxInterval(Literal),
    Priority(Literal),
}

/// A statement. Every node owns its parts; each part carries the span of the
/// source text it was read from.
#[derive(Debug, PartialEq, Eq, Hash)]
pub enum ASTreeNode {
    Include(Spanned<String>),
    VarDef {
        is_extern: bool,
        is_static: bool,
        is_const: bool,
        type_: Type,
        name: Spanned<Identifier>,
        value: Option<Spanned<Expr>>,
    },
    VarAssign { name: Spanned<Identifier>, value: Spanned<Expr> },
    RuleDef { name: Spanned<Identifier>, rule_opts: Vec<Spanned<RuleOpt>>, body: Spanned<Body> },
    FnDef {
        is_mutable: bool,
        return_type: Type,
        name: Spanned<Identifier>,
        params: Vec<Param>,
        body: Spanned<Body>,
    },
    Return(Option<Spanned<Expr>>),
    IfElse {
        condition: Spanned<Expr>,
        consequent: Spanned<Body>,
        alternate: Option<Spanned<Body>>,
    },
    While { condition: Spanned<Expr>, body: Spanned<Body> },
    For {
        var: Box<Spanned<ASTreeNode>>,
        condition: Spanned<Expr>,
        body: Spanned<Body>,
    },
    Switch { clause: Spanned<Expr>, cases: Vec<(Option<Spanned<Literal>>, Spanned<Body>)> },
    PostDPlus(Spanned<Identifier>),
    PostDMinus(Spanned<Identifier>),
    Break,
    Continue,
    Breakpoint,
    LabelDef(Spanned<Identifier>),
    Goto(Spanned<Identifier>),
    Discarded(Spanned<Expr>),
    Debug(Spanned<Identifier>),
    Class { name: Spanned<Identifier>, member_vars: Vec<Spanned<ASTreeNode>> },
}

} // verus!
