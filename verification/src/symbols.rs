//! The symbol table: an immutable registry built once per manifest, mapping
//! every declared enum and object name to its type reference. It serves only
//! as a fallback while feature variables are resolved.

use vstd::prelude::*;

use crate::text::str_eq;
use crate::types::{TypeModel, TypeRef};

verus! {

/// Map denoted by a sequence of insertions, later entries overriding earlier
/// ones.
pub open spec fn entries_map(s: Seq<(String, TypeRef)>) -> Map<Seq<char>, TypeModel>
    decreases s.len(),
{
    if s.len() == 0 {
        Map::empty()
    } else {
        entries_map(s.subrange(0, s.len() - 1)).insert(
            s[s.len() - 1].0@,
            s[s.len() - 1].1.model(),
        )
    }
}

/// A registry of declared type names. Built once, by inserting every enum
/// name and then every object name; immutable afterward.
pub struct SymbolTable {
    entries: Vec<(String, TypeRef)>,
}

impl SymbolTable {
    pub closed spec fn model(&self) -> Map<Seq<char>, TypeModel> {
        entries_map(self.entries@)
    }

    /// An empty registry.
    pub fn new() -> (r: SymbolTable)
        ensures
            r.model() == Map::<Seq<char>, TypeModel>::empty(),
    {
        SymbolTable { entries: Vec::new() }
    }

    /// Registers `name` as denoting `t`, overriding any earlier entry.
    pub fn insert(&mut self, name: String, t: TypeRef)
        ensures
            final(self).model() == old(self).model().insert(name@, t.model()),
    {
        self.entries.push((name, t));
        proof {
            assert(self.entries@.subrange(0, self.entries@.len() - 1) =~= old(self).entries@);
        }
    }

    /// Looks a declared name up, returning the type reference it denotes.
    #[verifier::loop_isolation(false)]
    pub fn lookup(&self, name: &String) -> (r: Option<TypeRef>)
        ensures
            match r {
                Some(t) => self.model().contains_key(name@) && self.model()[name@] == t.model(),
                None => !self.model().contains_key(name@),
            },
    {
        let mut j = self.entries.len();
        proof {
            assert(self.entries@.subrange(0, self.entries@.len() as int) =~= self.entries@);
        }
        while j > 0
            invariant
                j <= self.entries@.len(),
                entries_map(self.entries@).contains_key(name@) == entries_map(
                    self.entries@.subrange(0, j as int),
                ).contains_key(name@),
                entries_map(self.entries@).contains_key(name@) ==> entries_map(
                    self.entries@,
                )[name@] == entries_map(self.entries@.subrange(0, j as int))[name@],
            decreases j,
        {
            proof {
                assert(self.entries@.subrange(0, j as int).subrange(0, j - 1) =~= self.entries@
                    .subrange(0, j as int - 1));
                assert(self.entries@.subrange(0, j as int)[j - 1] == self.entries@[j - 1]);
            }
            if str_eq(self.entries[j - 1].0.as_str(), name.as_str()) {
                return Some(self.entries[j - 1].1.clone());
            }
            j = j - 1;
        }
        proof {
            assert(self.entries@.subrange(0, 0) =~= Seq::<(String, TypeRef)>::empty());
        }
        None
    }
}

} // verus!
