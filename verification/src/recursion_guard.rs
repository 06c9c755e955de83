//! The per-call cycle detector: the stack of identities of the values the
//! call is currently descending through.  Push and pop stay symmetric on
//! every exit path, so sibling branches are unaffected.
use vstd::prelude::*;

verus! {

#[derive(Debug)]
pub struct RecursionGuard {
    ids: Vec<usize>,
}

impl View for RecursionGuard {
    type V = Seq<usize>;

    closed spec fn view(&self) -> Seq<usize> {
        self.ids@
    }
}

impl RecursionGuard {
    pub fn new() -> (r: RecursionGuard)
        ensures
            r@ == Seq::<usize>::empty(),
    {
        RecursionGuard { ids: Vec::new() }
    }

    pub fn contains(&self, id: usize) -> (r: bool)
        ensures
            r == self@.contains(id),
    {
        let mut i: usize = 0;
        while i < self.ids.len()
            invariant
                0 <= i <= self.ids.len(),
                forall|j: int| 0 <= j < i ==> self.ids@[j] != id,
            decreases self.ids.len() - i,
        {
            if self.ids[i] == id {
                return true;
            }
            i += 1;
        }
        false
    }

    pub fn insert(&mut self, id: usize)
        ensures
            final(self)@ == old(self)@.push(id),
    {
        self.ids.push(id);
    }

    /// Removes the most recently inserted identity, which scoped use
    /// guarantees is `id`.
    pub fn remove(&mut self, id: usize)
        requires
            old(self)@.len() > 0,
            old(self)@.last() == id,
        ensures
            final(self)@ == old(self)@.drop_last(),
    {
        let _ = self.ids.pop();
    }
}

} // verus!
