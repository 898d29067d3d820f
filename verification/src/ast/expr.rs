//! Expression trees.
use vstd::prelude::*;
use crate::ast::identifier::Identifier;
use crate::ast::literal::{Literal, LiteralV};
use crate::span::{Span, Spanned};

verus! {

/// An expression. Every node owns its operands; each operand carries the span
/// of the source text it was read from.
///
/// The components of a `Vec` must reduce to `int` or `float` literals; the
/// static checks enforce this, not the parser.
#[derive(Debug, PartialEq, Eq, Hash)]
pub enum Expr {
    Literal(Literal),
    Identifier(Identifier),
    Paren(Box<Spanned<Expr>>),
    Vec { x: Box<Spanned<Expr>>, y: Box<Spanned<Expr>>, z: Box<Spanned<Expr>> },
    FnCall { name: Spanned<Identifier>, args: Vec<Spanned<Expr>> },
    Neg(Box<Spanned<Expr>>),
    Not(Box<Spanned<Expr>>),
    Star(Box<Spanned<Expr>>, Box<Spanned<Expr>>),
    FSlash(Box<Spanned<Expr>>, Box<Spanned<Expr>>),
    PCent(Box<Spanned<Expr>>, Box<Spanned<Expr>>),
    Plus(Box<Spanned<Expr>>, Box<Spanned<Expr>>),
    Minus(Box<Spanned<Expr>>, Box<Spanned<Expr>>),
    Lt(Box<Spanned<Expr>>, Box<Spanned<Expr>>),
    Gt(Box<Spanned<Expr>>, Box<Spanned<Expr>>),
    Le(Box<Spanned<Expr>>, Box<Spanned<Expr>>),
    Ge(Box<Spanned<Expr>>, Box<Spanned<Expr>>),
    Eq(Box<Spanned<Expr>>, Box<Spanned<Expr>>),
    Ne(Box<Spanned<Expr>>, Box<Spanned<Expr>>),
    And(Box<Spanned<Expr>>, Box<Spanned<Expr>>),
    Or(Box<Spanned<Expr>>, Box<Spanned<Expr>>),
}

/// A unary operator.
#[derive(Clone, Copy, Debug, PartialEq, Eq, Hash, Structural)]
pub enum UnOp {
    Neg,
    Not,
}

/// A binary operator.
#[derive(Clone, Copy, Debug, PartialEq, Eq, Hash, Structural)]
pub enum BinOp {
    Star,
    FSlash,
    PCent,
    Plus,
    Minus,
    Lt,
    Gt,
    Le,
    Ge,
    Eq,
    Ne,
    And,
    Or,
}

/// The mathematical value of an [`Expr`]: the same tree, with names and text
/// as sequences of characters, argument lists as sequences, and the operator
/// of a unary or binary node as a field of the node.
pub enum ExprV {
    Literal(LiteralV),
    Identifier(Seq<char>),
    Paren(Box<SpannedExprV>),
    Vec { x: Box<SpannedExprV>, y: Box<SpannedExprV>, z: Box<SpannedExprV> },
    FnCall { name: (Seq<char>, Span), args: Seq<SpannedExprV> },
    Unary(UnOp, Box<SpannedExprV>),
    Binary(BinOp, Box<SpannedExprV>, Box<SpannedExprV>),
}

/// The mathematical value of a `Spanned<Expr>`.
pub type SpannedExprV = (ExprV, Span);

/// The mathematical value of an expression.
pub open spec fn expr_view(e: Expr) -> ExprV
    decreases e,
{
    match e {
        Expr::Literal(lit) => ExprV::Literal(lit@),
        Expr::Identifier(id) => ExprV::Identifier(id@),
        Expr::Paren(e) => ExprV::Paren(Box::new((expr_view(e.0), e.1))),
        Expr::Vec { x, y, z } => ExprV::Vec {
            x: Box::new((expr_view(x.0), x.1)),
            y: Box::new((expr_view(y.0), y.1)),
            z: Box::new((expr_view(z.0), z.1)),
        },
        Expr::FnCall { name, args } => ExprV::FnCall {
            name: (name.0@, name.1),
            args: exprs_view(args@),
        },
        Expr::Neg(e) => ExprV::Unary(UnOp::Neg, Box::new((expr_view(e.0), e.1))),
        Expr::Not(e) => ExprV::Unary(UnOp::Not, Box::new((expr_view(e.0), e.1))),
        Expr::Star(a, b) => ExprV::Binary(
            BinOp::Star,
            Box::new((expr_view(a.0), a.1)),
            Box::new((expr_view(b.0), b.1)),
        ),
        Expr::FSlash(a, b) => ExprV::Binary(
            BinOp::FSlash,
            Box::new((expr_view(a.0), a.1)),
            Box::new((expr_view(b.0), b.1)),
        ),
        Expr::PCent(a, b) => ExprV::Binary(
            BinOp::PCent,
            Box::new((expr_view(a.0), a.1)),
            Box::new((expr_view(b.0), b.1)),
        ),
        Expr::Plus(a, b) => ExprV::Binary(
            BinOp::Plus,
            Box::new((expr_view(a.0), a.1)),
            Box::new((expr_view(b.0), b.1)),
        ),
        Expr::Minus(a, b) => ExprV::Binary(
            BinOp::Minus,
            Box::new((expr_view(a.0), a.1)),
            Box::new((expr_view(b.0), b.1)),
        ),
        Expr::Lt(a, b) => ExprV::Binary(
            BinOp::Lt,
            Box::new((expr_view(a.0), a.1)),
            Box::new((expr_view(b.0), b.1)),
        ),
        Expr::Gt(a, b) => ExprV::Binary(
            BinOp::Gt,
            Box::new((expr_view(a.0), a.1)),
            Box::new((expr_view(b.0), b.1)),
        ),
        Expr::Le(a, b) => ExprV::Binary(
            BinOp::Le,
            Box::new((expr_view(a.0), a.1)),
            Box::new((expr_view(b.0), b.1)),
        ),
        Expr::Ge(a, b) => ExprV::Binary(
            BinOp::Ge,
            Box::new((expr_view(a.0), a.1)),
            Box::new((expr_view(b.0), b.1)),
        ),
        Expr::Eq(a, b) => ExprV::Binary(
            BinOp::Eq,
            Box::new((expr_view(a.0), a.1)),
            Box::new((expr_view(b.0), b.1)),
        ),
        Expr::Ne(a, b) => ExprV::Binary(
            BinOp::Ne,
            Box::new((expr_view(a.0), a.1)),
            Box::new((expr_view(b.0), b.1)),
        ),
        Expr::And(a, b) => ExprV::Binary(
            BinOp::And,
            Box::new((expr_view(a.0), a.1)),
            Box::new((expr_view(b.0), b.1)),
        ),
        Expr::Or(a, b) => ExprV::Binary(
            BinOp::Or,
            Box::new((expr_view(a.0), a.1)),
            Box::new((expr_view(b.0), b.1)),
        ),
    }
}

/// The mathematical values of a list of expressions, in order.
pub open spec fn exprs_view(exprs: Seq<Spanned<Expr>>) -> Seq<SpannedExprV>
    decreases exprs,
{
    if exprs.len() == 0 {
        Seq::empty()
    } else {
        exprs_view(exprs.drop_last()).push((expr_view(exprs.last().0), exprs.last().1))
    }
}

impl View for Expr {
    type V = ExprV;

    open spec fn view(&self) -> ExprV {
        expr_view(*self)
    }
}

/// The values of a list are as many as its items, and each is the value of
/// the item at its place.
pub proof fn lemma_exprs_view(exprs: Seq<Spanned<Expr>>)
    ensures
        exprs_view(exprs).len() == exprs.len(),
        forall|i: int| 0 <= i < exprs.len() ==> (#[trigger] exprs_view(exprs)[i]) == exprs[i]@,
    decreases exprs.len(),
{
    if exprs.len() > 0 {
        lemma_exprs_view(exprs.drop_last());
    }
}

/// Appending an expression to a list appends its value to the list's values.
pub proof fn lemma_exprs_view_push(exprs: Seq<Spanned<Expr>>, e: Spanned<Expr>)
    ensures
        exprs_view(exprs.push(e)) == exprs_view(exprs).push(e@),
{
    assert(exprs.push(e).drop_last() =~= exprs);
}

impl Expr {
    /// The binary node with operator `op` over `a` and `b`.
    pub fn binary(op: BinOp, a: Spanned<Expr>, b: Spanned<Expr>) -> (e: Expr)
        ensures
            e@ == ExprV::Binary(op, Box::new(a@), Box::new(b@)),
    {
        match op {
            BinOp::Star => Expr::Star(Box::new(a), Box::new(b)),
            BinOp::FSlash => Expr::FSlash(Box::new(a), Box::new(b)),
            BinOp::PCent => Expr::PCent(Box::new(a), Box::new(b)),
            BinOp::Plus => Expr::Plus(Box::new(a), Box::new(b)),
            BinOp::Minus => Expr::Minus(Box::new(a), Box::new(b)),
            BinOp::Lt => Expr::Lt(Box::new(a), Box::new(b)),
            BinOp::Gt => Expr::Gt(Box::new(a), Box::new(b)),
            BinOp::Le => Expr::Le(Box::new(a), Box::new(b)),
            BinOp::Ge => Expr::Ge(Box::new(a), Box::new(b)),
            BinOp::Eq => Expr::Eq(Box::new(a), Box::new(b)),
            BinOp::Ne => Expr::Ne(Box::new(a), Box::new(b)),
            BinOp::And => Expr::And(Box::new(a), Box::new(b)),
            BinOp::Or => Expr::Or(Box::new(a), Box::new(b)),
        }
    }
}

impl ExprV {
    /// The number of nodes of the tree.
    pub open spec fn size(self) -> nat
        decreases self,
    {
        match self {
            ExprV::Literal(_) => 1,
            ExprV::Identifier(_) => 1,
            ExprV::Paren(e) => 1 + e.0.size(),
            ExprV::Vec { x, y, z } => 1 + x.0.size() + y.0.size() + z.0.size(),
            ExprV::FnCall { name, args } => 1 + ExprV::sizes(args),
            ExprV::Unary(_, e) => 1 + e.0.size(),
            ExprV::Binary(_, a, b) => 1 + a.0.size() + b.0.size(),
        }
    }

    /// The number of nodes of all the trees of `exprs`.
    pub open spec fn sizes(exprs: Seq<SpannedExprV>) -> nat
        decreases exprs,
    {
        if exprs.len() == 0 {
            0
        } else {
            ExprV::sizes(exprs.drop_last()) + exprs.last().0.size()
        }
    }

    /// Every tree has at least one node.
    pub proof fn lemma_size_positive(self)
        ensures
            self.size() >= 1,
    {
    }

    /// A tree of a list has fewer nodes than the whole list, or as many.
    pub proof fn lemma_sizes_bound(exprs: Seq<SpannedExprV>, i: int)
        requires
            0 <= i < exprs.len(),
        ensures
            exprs[i].0.size() <= ExprV::sizes(exprs),
        decreases exprs.len(),
    {
        if i < exprs.len() - 1 {
            ExprV::lemma_sizes_bound(exprs.drop_last(), i);
        }
    }
}

} // verus!
