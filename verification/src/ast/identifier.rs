//! Names.
use vstd::prelude::*;
use vstd::string::StringExecFns;

verus! {

/// An immutable, case-sensitive name. Two identifiers are the same name when
/// they hold the same characters.
#[derive(Debug, PartialEq, Eq, Hash)]
pub struct Identifier(pub String);

impl View for Identifier {
    type V = Seq<char>;

    open spec fn view(&self) -> Seq<char> {
        self.0@
    }
}

impl Clone for Identifier {
    fn clone(&self) -> (res: Self)
        ensures
            res == *self,
    {
        Identifier(self.0.clone())
    }
}

impl Identifier {
    /// The identifier spelled `name`.
    pub fn new(name: &str) -> (id: Identifier)
        ensures
            id@ == name@,
    {
        Identifier(String::from_str(name))
    }

    /// Whether two identifiers are the same name.
    pub fn same(&self, other: &Identifier) -> (r: bool)
        ensures
            r == (self@ == other@),
    {
        self.0 == other.0
    }
}

} // verus!
