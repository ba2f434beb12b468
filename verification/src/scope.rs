//! The scope: a mutable mapping from names to runtime values.
//!
//! A scope is the sole mechanism for variable and function lookup. Exactly
//! one top-level scope exists for a program run; each function call works on
//! a private copy of the caller's scope (see the interpreter). The model of
//! a scope is a [`Map`] from name to value model; rebinding a name
//! overwrites its entry (last write wins).

use crate::value::clone_value;
use crate::value::Value;
use crate::value::ValueView;
use vstd::prelude::*;

verus! {

/// The model of a scope: a finite map from names to value models.
pub type ScopeView = Map<Seq<char>, ValueView>;

/// A name-to-value mapping, stored as the history of bindings; the latest
/// binding of a name is the one in force.
#[derive(Debug)]
pub struct Scope {
    entries: Vec<(String, Value)>,
}

/// The models of binding entries, elementwise.
pub open spec fn entries_view(s: Seq<(String, Value)>) -> Seq<(Seq<char>, ValueView)> {
    Seq::new(s.len(), |k: int| (s[k].0@, s[k].1@))
}

/// The map that a binding history denotes: later bindings override earlier
/// ones.
pub open spec fn map_of(s: Seq<(Seq<char>, ValueView)>) -> ScopeView
    decreases s.len(),
{
    if s.len() == 0 {
        Map::empty()
    } else {
        map_of(s.drop_last()).insert(s.last().0, s.last().1)
    }
}

/// If position `i` holds the latest binding of `k`, the denoted map sends
/// `k` to that value.
proof fn lemma_map_of_found(s: Seq<(Seq<char>, ValueView)>, i: int, k: Seq<char>)
    requires
        0 <= i < s.len(),
        s[i].0 == k,
        forall|m: int| i < m < s.len() ==> s[m].0 != k,
    ensures
        map_of(s).contains_key(k),
        map_of(s)[k] == s[i].1,
    decreases s.len(),
{
    if i == s.len() - 1 {
    } else {
        lemma_map_of_found(s.drop_last(), i, k);
    }
}

/// A name bound at no position is absent from the denoted map.
proof fn lemma_map_of_absent(s: Seq<(Seq<char>, ValueView)>, k: Seq<char>)
    requires
        forall|m: int| 0 <= m < s.len() ==> s[m].0 != k,
    ensures
        !map_of(s).contains_key(k),
    decreases s.len(),
{
    if s.len() > 0 {
        lemma_map_of_absent(s.drop_last(), k);
    }
}

impl View for Scope {
    type V = ScopeView;

    closed spec fn view(&self) -> ScopeView {
        map_of(entries_view(self.entries@))
    }
}

impl Scope {
    /// An empty scope: no name is bound.
    pub fn new() -> (s: Scope)
        ensures
            s@ == ScopeView::empty(),
    {
        let s = Scope { entries: Vec::new() };
        proof {
            assert(entries_view(s.entries@) =~= Seq::<(Seq<char>, ValueView)>::empty());
        }
        s
    }

    /// Binds `name` to `value`, overwriting any earlier binding.
    pub fn set(&mut self, name: String, value: Value)
        ensures
            final(self)@ == old(self)@.insert(name@, value@),
    {
        let ghost old_entries = self.entries@;
        self.entries.push((name, value));
        proof {
            assert(entries_view(self.entries@).drop_last() =~= entries_view(old_entries));
            assert(final(self)@ =~= old(self)@.insert(name@, value@));
        }
    }

    /// Looks `name` up: the value of its latest binding, if any.
    pub fn get(&self, name: &String) -> (r: Option<&Value>)
        ensures
            match r {
                Some(v) => self@.contains_key(name@) && v@ == self@[name@],
                None => !self@.contains_key(name@),
            },
    {
        let mut k = self.entries.len();
        while k > 0
            invariant
                k <= self.entries@.len(),
                forall|m: int|
                    k as int <= m < self.entries@.len() ==> entries_view(self.entries@)[m].0
                        != name@,
            decreases k,
        {
            k = k - 1;
            let entry = &self.entries[k];
            if entry.0 == *name {
                proof {
                    lemma_map_of_found(entries_view(self.entries@), k as int, name@);
                }
                return Some(&entry.1);
            }
        }
        proof {
            lemma_map_of_absent(entries_view(self.entries@), name@);
        }
        None
    }
}

impl Clone for Scope {
    /// Cloning a scope preserves the mapping it denotes: the copy is a
    /// snapshot, and later changes to either scope leave the other as it
    /// was.
    fn clone(&self) -> (r: Scope)
        ensures
            r@ == self@,
    {
        let mut entries: Vec<(String, Value)> = Vec::new();
        let mut k: usize = 0;
        while k < self.entries.len()
            invariant
                k <= self.entries@.len(),
                entries@.len() == k as int,
                forall|m: int|
                    0 <= m < k as int ==> entries@[m].0@ == self.entries@[m].0@
                        && entries@[m].1@ == self.entries@[m].1@,
            decreases self.entries@.len() - k,
        {
            let entry = &self.entries[k];
            entries.push((entry.0.clone(), clone_value(&entry.1)));
            k = k + 1;
        }
        let r = Scope { entries };
        proof {
            assert(entries_view(r.entries@) =~= entries_view(self.entries@));
        }
        r
    }
}

} // verus!
