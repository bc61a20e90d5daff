//! Explicit accounting of heap ownership units.
//!
//! A boxed heap value owns exactly one reference to its allocation. The
//! runtime embedding this core keeps the actual allocations; this ledger
//! models their reference counts as a multiset of held units, one entry per
//! ownership unit, so that acquiring and releasing references can be stated
//! and checked exactly: cloning a heap value adds one unit for its address,
//! dropping it removes one, and an allocation is free exactly when no unit
//! for its address is left.

use vstd::multiset::Multiset;
use vstd::prelude::*;
use vstd::seq_lib::group_to_multiset_ensures;

verus! {

broadcast use group_to_multiset_ensures;

/// A ledger of held heap references: one entry per ownership unit, keyed by
/// the allocation's address.
#[derive(Debug)]
pub struct RefCounts {
    /// Every held unit, one entry per unit.
    pub held: Vec<u64>,
}

impl RefCounts {
    /// The ledger as a multiset: the count of an address is the number of
    /// references held on its allocation.
    pub open spec fn counts(self) -> Multiset<u64> {
        self.held@.to_multiset()
    }

    /// An empty ledger: nothing is held.
    pub fn new() -> (r: RefCounts)
        ensures
            r.counts() =~= Multiset::empty(),
    {
        let r = RefCounts { held: Vec::new() };
        proof {
            assert(r.held@.to_multiset().len() == 0);
        }
        r
    }

    /// Acquire one more reference on `addr`.
    pub fn retain(&mut self, addr: u64)
        ensures
            final(self).counts() =~= old(self).counts().insert(addr),
            final(self).counts().count(addr) == old(self).counts().count(addr) + 1,
    {
        self.held.push(addr);
    }

    /// Release one reference on `addr`, which must be held. Returns whether
    /// this was the last reference, i.e. whether the allocation is now free.
    pub fn release(&mut self, addr: u64) -> (freed: bool)
        requires
            old(self).counts().count(addr) > 0,
        ensures
            final(self).counts() =~= old(self).counts().remove(addr),
            final(self).counts().count(addr) == old(self).counts().count(addr) - 1,
            freed == (old(self).counts().count(addr) == 1),
    {
        let before = self.count(addr);
        let mut i: usize = 0;
        loop
            invariant
                i < self.held.len(),
                forall|j: int| 0 <= j < i ==> self.held@[j] != addr,
                self.counts().count(addr) > 0,
            ensures
                i < self.held.len() && self.held@[i as int] == addr,
            decreases self.held.len() - i,
        {
            if self.held[i] == addr {
                break ;
            }
            i = i + 1;
            proof {
                if i == self.held@.len() {
                    assert(!self.held@.contains(addr));
                    assert(false);
                }
            }
        }
        let ghost g = self.held@;
        proof {
            assert(g[i as int] == addr);
        }
        self.held.remove(i);
        proof {
            assert(self.held@ =~= g.remove(i as int));
            assert(g.remove(i as int).to_multiset() =~= g.to_multiset().remove(g[i as int]));
        }
        before == 1
    }

    /// The number of references currently held on `addr`.
    pub fn count(&self, addr: u64) -> (n: usize)
        ensures
            n == self.counts().count(addr),
    {
        let mut n: usize = 0;
        let mut i: usize = 0;
        while i < self.held.len()
            invariant
                0 <= i <= self.held.len(),
                n == self.held@.subrange(0, i as int).to_multiset().count(addr),
                n <= i,
            decreases self.held.len() - i,
        {
            proof {
                assert(self.held@.subrange(0, i + 1) =~= self.held@.subrange(0, i as int).push(
                    self.held@[i as int],
                ));
            }
            if self.held[i] == addr {
                n = n + 1;
            }
            i = i + 1;
        }
        proof {
            assert(self.held@.subrange(0, self.held@.len() as int) =~= self.held@);
        }
        n
    }

    /// Whether no reference at all is held on `addr`.
    pub fn is_free(&self, addr: u64) -> (r: bool)
        ensures
            r == (self.counts().count(addr) == 0),
    {
        self.count(addr) == 0
    }
}

} // verus!
