//! The type environment: which names are in scope, and with what type.
use vstd::prelude::*;
use crate::ast::identifier::Identifier;
use crate::ast::type_::{Type, TypeV};

verus! {

/// The names of one lexical scope and their types.
///
/// An environment is a snapshot: a nested scope starts from a copy of the
/// scope around it and shares no storage with it, so what is declared inside
/// never shows outside.
///
/// Its mathematical value is a map from names to types.
#[derive(Debug)]
pub struct TypeEnv {
    entries: Vec<(Identifier, Type)>,
}

/// The map that a list of bindings stands for: a later binding of a name
/// replaces an earlier one.
pub open spec fn bindings(entries: Seq<(Identifier, Type)>) -> Map<Seq<char>, TypeV>
    decreases entries.len(),
{
    if entries.len() == 0 {
        Map::empty()
    } else {
        bindings(entries.drop_last()).insert(entries.last().0@, entries.last().1@)
    }
}

proof fn lemma_bindings_push(entries: Seq<(Identifier, Type)>, entry: (Identifier, Type))
    ensures
        bindings(entries.push(entry)) == bindings(entries).insert(entry.0@, entry.1@),
{
    assert(entries.push(entry).drop_last() =~= entries);
}

proof fn lemma_bindings_concat(a: Seq<(Identifier, Type)>, b: Seq<(Identifier, Type)>)
    ensures
        bindings(a + b) == bindings(a).union_prefer_right(bindings(b)),
    decreases b.len(),
{
    if b.len() == 0 {
        assert(a + b =~= a);
        assert(bindings(a).union_prefer_right(bindings(b)) =~= bindings(a));
    } else {
        assert((a + b).drop_last() =~= a + b.drop_last());
        lemma_bindings_concat(a, b.drop_last());
        assert(bindings(a + b) =~= bindings(a).union_prefer_right(bindings(b)));
    }
}

proof fn lemma_bindings_same_views(a: Seq<(Identifier, Type)>, b: Seq<(Identifier, Type)>)
    requires
        a.len() == b.len(),
        forall|i: int| 0 <= i < a.len() ==> a[i].0@ == b[i].0@ && a[i].1@ == b[i].1@,
    ensures
        bindings(a) == bindings(b),
    decreases a.len(),
{
    if a.len() > 0 {
        lemma_bindings_same_views(a.drop_last(), b.drop_last());
    }
}

impl View for TypeEnv {
    type V = Map<Seq<char>, TypeV>;

    closed spec fn view(&self) -> Map<Seq<char>, TypeV> {
        bindings(self.entries@)
    }
}

impl Clone for TypeEnv {
    fn clone(&self) -> (copy: Self)
        ensures
            copy@ == self@,
    {
        self.snapshot()
    }
}

impl TypeEnv {
    /// The environment with no name in scope.
    pub fn new() -> (env: TypeEnv)
        ensures
            env@ == Map::<Seq<char>, TypeV>::empty(),
    {
        TypeEnv { entries: Vec::new() }
    }

    /// The type that `name` is bound to, if it is in scope.
    pub fn get<'a>(&'a self, name: &Identifier) -> (found: Option<&'a Type>)
        ensures
            found is Some <==> self@.contains_key(name@),
            found matches Some(t) ==> t@ == self@[name@],
    {
        let mut i: usize = self.entries.len();
        assert(self.entries@.take(i as int) =~= self.entries@);
        while i > 0
            invariant
                i <= self.entries.len(),
                self@.contains_key(name@) <==> bindings(self.entries@.take(i as int)).contains_key(
                    name@,
                ),
                self@.contains_key(name@) ==> self@[name@] == bindings(
                    self.entries@.take(i as int),
                )[name@],
            decreases i,
        {
            i -= 1;
            assert(self.entries@.take(i + 1).drop_last() =~= self.entries@.take(i as int));
            if self.entries[i].0.same(name) {
                return Some(&self.entries[i].1);
            }
        }
        None
    }

    /// Whether `name` is in scope.
    pub fn contains(&self, name: &Identifier) -> (r: bool)
        ensures
            r == self@.contains_key(name@),
    {
        self.get(name).is_some()
    }

    /// Binds `name` to `type_`, in place of what it was bound to, if anything.
    pub fn insert(&mut self, name: Identifier, type_: Type)
        ensures
            final(self)@ == old(self)@.insert(name@, type_@),
    {
        proof {
            lemma_bindings_push(self.entries@, (name, type_));
        }
        self.entries.push((name, type_));
    }

    /// Declares `name` with type `type_` and says whether the name was in
    /// scope already. The new binding is installed either way, so that what
    /// follows in the scope is judged against the latest declaration.
    pub fn declare(&mut self, name: Identifier, type_: Type) -> (conflict: bool)
        ensures
            conflict == old(self)@.contains_key(name@),
            final(self)@ == old(self)@.insert(name@, type_@),
    {
        let conflict = self.contains(&name);
        self.insert(name, type_);
        conflict
    }

    /// A copy of the environment that shares nothing with it.
    pub fn snapshot(&self) -> (copy: TypeEnv)
        ensures
            copy@ == self@,
    {
        let mut entries: Vec<(Identifier, Type)> = Vec::new();
        let mut i: usize = 0;
        while i < self.entries.len()
            invariant
                i <= self.entries.len(),
                entries.len() == i,
                forall|j: int|
                    0 <= j < i ==> entries[j].0@ == self.entries[j].0@ && entries[j].1@
                        == self.entries[j].1@,
            decreases self.entries.len() - i,
        {
            let name = self.entries[i].0.clone();
            let type_ = self.entries[i].1.clone();
            entries.push((name, type_));
            i += 1;
        }
        proof {
            lemma_bindings_same_views(entries@, self.entries@);
        }
        TypeEnv { entries }
    }

    /// Moves every binding of this environment into `target`. Where both
    /// bind a name, the binding that is moved in replaces the one of `target`.
    pub fn merge_into(self, target: &mut TypeEnv)
        ensures
            final(target)@ == old(target)@.union_prefer_right(self@),
    {
        let mut entries = self.entries;
        proof {
            lemma_bindings_concat(target.entries@, entries@);
        }
        target.entries.append(&mut entries);
    }
}

} // verus!
