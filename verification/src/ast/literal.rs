//! Literal values.
use vstd::prelude::*;

verus! {

/// A literal as written in the source.
///
/// A `float` literal is held as the IEEE 754 binary64 bit pattern of its
/// value; the static checks never look at it.
#[derive(Debug, PartialEq, Eq, Hash)]
pub enum Literal {
    Int(i64),
    Float(u64),
    Str(String),
}

/// The mathematical value of a [`Literal`].
pub enum LiteralV {
    Int(int),
    Float(u64),
    Str(Seq<char>),
}

impl View for Literal {
    type V = LiteralV;

    open spec fn view(&self) -> LiteralV {
        match self {
            Literal::Int(v) => LiteralV::Int(*v as int),
            Literal::Float(bits) => LiteralV::Float(*bits),
            Literal::Str(s) => LiteralV::Str(s@),
        }
    }
}

impl Clone for Literal {
    fn clone(&self) -> (res: Self)
        ensures
            res == *self,
    {
        match self {
            Literal::Int(v) => Literal::Int(*v),
            Literal::Float(bits) => Literal::Float(*bits),
            Literal::Str(s) => Literal::Str(s.clone()),
        }
    }
}

} // verus!
