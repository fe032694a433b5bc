//! The count of connection handlers at work, bounded by a fixed capacity.
//!
//! A handler starts only with a permit from the pool and gives it back when it
//! ends. The caller keeps the pool under a lock and waits while none is free.
use vstd::prelude::*;

verus! {

pub struct PermitPool {
    capacity: u32,
    active: u32,
}

impl PermitPool {
    #[verifier::type_invariant]
    spec fn within_capacity(self) -> bool {
        self.active <= self.capacity
    }

    /// How many permits the pool holds in all.
    pub closed spec fn limit(self) -> nat {
        self.capacity as nat
    }

    /// How many permits are out.
    pub closed spec fn in_use(self) -> nat {
        self.active as nat
    }

    /// A pool of `capacity` permits, none of them out.
    pub fn new(capacity: u32) -> (r: PermitPool)
        ensures
            r.limit() == capacity,
            r.in_use() == 0,
            r.in_use() <= r.limit(),
    {
        PermitPool { capacity, active: 0 }
    }

    /// Hands out a permit if one is free.
    pub fn try_acquire(&mut self) -> (granted: bool)
        ensures
            granted == (old(self).in_use() < old(self).limit()),
            granted ==> final(self).in_use() == old(self).in_use() + 1,
            !granted ==> final(self).in_use() == old(self).in_use(),
            final(self).limit() == old(self).limit(),
            final(self).in_use() <= final(self).limit(),
    {
        proof {
            use_type_invariant(&*self);
        }
        if self.active < self.capacity {
            self.active = self.active + 1;
            true
        } else {
            false
        }
    }

    /// Takes back a permit that was handed out.
    pub fn release(&mut self)
        requires
            old(self).in_use() > 0,
        ensures
            final(self).in_use() == old(self).in_use() - 1,
            final(self).limit() == old(self).limit(),
            final(self).in_use() <= final(self).limit(),
    {
        proof {
            use_type_invariant(&*self);
        }
        self.active = self.active - 1;
    }

    /// How many permits are out.
    pub fn active(&self) -> (r: u32)
        ensures
            r == self.in_use(),
            r <= self.limit(),
    {
        proof {
            use_type_invariant(self);
        }
        self.active
    }

    /// How many permits the pool holds in all.
    pub fn capacity(&self) -> (r: u32)
        ensures
            r == self.limit(),
    {
        self.capacity
    }
}

} // verus!
