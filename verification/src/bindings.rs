//! The set of bindings that the innermost scope has declared so far.

use crate::ident::{BindingId, Ident};
use vstd::prelude::*;

verus! {

/// A finite set of bindings, kept in the order in which they were added.
pub struct BindingSet {
    items: Vec<Ident>,
}

impl View for BindingSet {
    type V = Set<BindingId>;

    closed spec fn view(&self) -> Set<BindingId> {
        Set::new(|id: BindingId| exists|i: int| 0 <= i < self.items.len() && self.items[i]@ == id)
    }
}

impl BindingSet {
    /// Whether the set holds no binding twice. A set that is made by
    /// [`BindingSet::new`] and filled by [`BindingSet::insert`] never does.
    pub closed spec fn no_duplicates(&self) -> bool {
        forall|i: int, j: int|
            0 <= i < j < self.items.len() ==> self.items[i]@ != self.items[j]@
    }

    /// The empty set.
    pub fn new() -> (res: Self)
        ensures
            res@ == Set::<BindingId>::empty(),
            res.no_duplicates(),
    {
        let res = BindingSet { items: Vec::new() };
        assert(res@ =~= Set::<BindingId>::empty());
        res
    }

    /// Whether the set holds the binding of `id`.
    pub fn contains(&self, id: &Ident) -> (res: bool)
        ensures
            res == self@.contains(id@),
    {
        let mut i: usize = 0;
        while i < self.items.len()
            invariant
                i <= self.items.len(),
                forall|j: int| 0 <= j < i ==> self.items[j]@ != id@,
            decreases self.items.len() - i,
        {
            if self.items[i].same_binding(id) {
                return true;
            }
            i += 1;
        }
        false
    }

    /// Adds the binding of `id` to the set, unless the set holds it.
    pub fn insert(&mut self, id: Ident)
        ensures
            final(self)@ == old(self)@.insert(id@),
            old(self).no_duplicates() ==> final(self).no_duplicates(),
    {
        if !self.contains(&id) {
            let ghost held = self.items@;
            self.items.push(id);
            assert(self@ =~= old(self)@.insert(id@)) by {
                assert forall|b: BindingId| old(self)@.insert(id@).contains(b) implies self@.contains(
                    b,
                ) by {
                    if b == id@ {
                        assert(self.items[held.len() as int]@ == b);
                    } else {
                        let i = choose|i: int| 0 <= i < held.len() && held[i]@ == b;
                        assert(self.items[i]@ == b);
                    }
                }
            }
            assert(old(self).no_duplicates() ==> self.no_duplicates()) by {
                if old(self).no_duplicates() {
                    assert forall|i: int, j: int| 0 <= i < j < self.items.len() implies self.items[i]@
                        != self.items[j]@ by {
                        if j == held.len() {
                            assert(held[i]@ != id@);
                        } else {
                            assert(held[i]@ != held[j]@);
                        }
                    }
                }
            }
        } else {
            assert(self@ =~= old(self)@.insert(id@));
        }
    }
}

} // verus!
