//! The types that the static checks assign to expressions and names.
use vstd::prelude::*;
use vstd::string::StringExecFns;

verus! {

/// The type of a value or of a name in scope.
///
/// The list of a `Func` holds the parameter types in declaration order,
/// followed by the return type as its last element.
#[derive(Debug, PartialEq, Eq, Hash)]
pub enum Type {
    Int,
    Float,
    Str,
    Bool,
    Vec,
    Void,
    Rule,
    Func(std::vec::Vec<Type>),
}

/// The mathematical value of a [`Type`].
pub enum TypeV {
    Int,
    Float,
    Str,
    Bool,
    Vec,
    Void,
    Rule,
    Func(Seq<TypeV>),
}

impl View for Type {
    type V = TypeV;

    open spec fn view(&self) -> TypeV
        decreases self,
    {
        match self {
            Type::Int => TypeV::Int,
            Type::Float => TypeV::Float,
            Type::Str => TypeV::Str,
            Type::Bool => TypeV::Bool,
            Type::Vec => TypeV::Vec,
            Type::Void => TypeV::Void,
            Type::Rule => TypeV::Rule,
            Type::Func(sig) => TypeV::Func(
                Seq::new(
                    sig.len() as nat,
                    |i: int|
                        if 0 <= i < sig.len() {
                            sig[i].view()
                        } else {
                            TypeV::Void
                        },
                ),
            ),
        }
    }
}

/// The views of a list of types, in order.
pub open spec fn types_view(types: Seq<Type>) -> Seq<TypeV> {
    Seq::new(types.len(), |i: int| types[i]@)
}

/// The view of a function type lists the views of its entries.
pub proof fn lemma_func_view(sig: std::vec::Vec<Type>)
    ensures
        Type::Func(sig)@ == TypeV::Func(types_view(sig@)),
{
    assert(Type::Func(sig)@->Func_0 =~= types_view(sig@));
}

impl TypeV {
    /// The parameter types of a function type: all entries but the last.
    pub open spec fn params(self) -> Seq<TypeV>
        recommends
            self is Func,
            self->Func_0.len() > 0,
    {
        self->Func_0.drop_last()
    }

    /// The return type of a function type: the last entry.
    pub open spec fn ret(self) -> TypeV
        recommends
            self is Func,
            self->Func_0.len() > 0,
    {
        self->Func_0.last()
    }

    /// Whether a value of this type has a return type to give: a function
    /// type whose list is not empty.
    pub open spec fn callable(self) -> bool {
        self is Func && self->Func_0.len() > 0
    }

    /// How the type is written in a diagnostic.
    pub open spec fn name(self) -> Seq<char>
        decreases self,
    {
        match self {
            TypeV::Int => "int"@,
            TypeV::Float => "float"@,
            TypeV::Str => "string"@,
            TypeV::Bool => "bool"@,
            TypeV::Vec => "vector"@,
            TypeV::Void => "void"@,
            TypeV::Rule => "rule"@,
            TypeV::Func(sig) => "fn("@ + TypeV::names(sig) + ")"@,
        }
    }

    /// The names of `sig`, separated by `", "`.
    pub open spec fn names(sig: Seq<TypeV>) -> Seq<char>
        decreases sig,
    {
        if sig.len() == 0 {
            Seq::empty()
        } else if sig.len() == 1 {
            sig[0].name()
        } else {
            TypeV::names(sig.drop_last()) + ", "@ + sig.last().name()
        }
    }
}

impl Clone for Type {
    fn clone(&self) -> (res: Self)
        ensures
            res@ == self@,
        decreases self,
    {
        match self {
            Type::Int => Type::Int,
            Type::Float => Type::Float,
            Type::Str => Type::Str,
            Type::Bool => Type::Bool,
            Type::Vec => Type::Vec,
            Type::Void => Type::Void,
            Type::Rule => Type::Rule,
            Type::Func(sig) => {
                let mut copy: std::vec::Vec<Type> = std::vec::Vec::new();
                let mut i: usize = 0;
                while i < sig.len()
                    invariant
                        i <= sig.len(),
                        self is Func,
                        self->Func_0 == *sig,
                        copy.len() == i,
                        forall|j: int| 0 <= j < i ==> copy[j]@ == sig[j]@,
                    decreases sig.len() - i,
                {
                    copy.push(sig[i].clone());
                    i += 1;
                }
                proof {
                    lemma_func_view(*sig);
                    lemma_func_view(copy);
                    assert(types_view(copy@) =~= types_view(sig@));
                }
                Type::Func(copy)
            },
        }
    }
}

impl Type {
    /// Whether two types are the same type.
    pub fn same(&self, other: &Type) -> (r: bool)
        ensures
            r == (self@ == other@),
        decreases self,
    {
        match (self, other) {
            (Type::Int, Type::Int) => true,
            (Type::Float, Type::Float) => true,
            (Type::Str, Type::Str) => true,
            (Type::Bool, Type::Bool) => true,
            (Type::Vec, Type::Vec) => true,
            (Type::Void, Type::Void) => true,
            (Type::Rule, Type::Rule) => true,
            (Type::Func(a), Type::Func(b)) => {
                proof {
                    lemma_func_view(*a);
                    lemma_func_view(*b);
                }
                if a.len() != b.len() {
                    assert(types_view(a@).len() != types_view(b@).len());
                    return false;
                }
                let mut i: usize = 0;
                while i < a.len()
                    invariant
                        i <= a.len(),
                        a.len() == b.len(),
                        self is Func,
                        self->Func_0 == *a,
                        self@ == TypeV::Func(types_view(a@)),
                        other@ == TypeV::Func(types_view(b@)),
                        forall|j: int| 0 <= j < i ==> a[j]@ == b[j]@,
                    decreases a.len() - i,
                {
                    if !a[i].same(&b[i]) {
                        assert(types_view(a@)[i as int] != types_view(b@)[i as int]);
                        return false;
                    }
                    i += 1;
                }
                assert(types_view(a@) =~= types_view(b@));
                true
            },
            _ => false,
        }
    }

    /// How the type is written in a diagnostic.
    pub fn name(&self) -> (s: String)
        ensures
            s@ == self@.name(),
        decreases self,
    {
        match self {
            Type::Int => String::from_str("int"),
            Type::Float => String::from_str("float"),
            Type::Str => String::from_str("string"),
            Type::Bool => String::from_str("bool"),
            Type::Vec => String::from_str("vector"),
            Type::Void => String::from_str("void"),
            Type::Rule => String::from_str("rule"),
            Type::Func(sig) => {
                let mut s = String::from_str("fn(");
                let mut i: usize = 0;
                proof {
                    lemma_func_view(*sig);
                }
                while i < sig.len()
                    invariant
                        i <= sig.len(),
                        self is Func,
                        self->Func_0 == *sig,
                        s@ == "fn("@ + TypeV::names(types_view(sig@).take(i as int)),
                    decreases sig.len() - i,
                {
                    let ghost before = types_view(sig@).take(i as int);
                    let ghost after = types_view(sig@).take(i + 1);
                    proof {
                        assert(after.drop_last() =~= before);
                        assert(after.last() == sig[i as int]@);
                    }
                    if i > 0 {
                        s.append(", ");
                    }
                    let part = sig[i].name();
                    s.append(part.as_str());
                    proof {
                        assert(s@ =~= "fn("@ + TypeV::names(after));
                    }
                    i += 1;
                }
                proof {
                    assert(types_view(sig@).take(sig.len() as int) =~= types_view(sig@));
                }
                s.append(")");
                s
            },
        }
    }
}

} // verus!
