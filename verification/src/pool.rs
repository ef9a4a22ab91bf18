//! Model of the bounded database connection pool.
//!
//! The real pool hands out database connections; this layer never looks
//! inside a connection, it only decides whether a slot is available. The
//! model therefore tracks the two numbers that drive every decision: the
//! bound the pool was built with and how many slots are checked out.

use vstd::prelude::*;

verus! {

/// A bounded pool of database connection slots.
///
/// `max_size` is fixed at construction; `in_use` rises by one for each
/// outstanding checkout and falls by one when a checkout is returned.
#[derive(Clone, Copy, Debug)]
pub struct PoolState {
    pub max_size: u32,
    pub in_use: u32,
}

impl PoolState {
    /// A pool never has more checkouts outstanding than its bound.
    pub open spec fn wf(self) -> bool {
        self.in_use <= self.max_size
    }

    /// How many checkouts can still be granted.
    pub open spec fn spec_free_slots(self) -> int {
        self.max_size - self.in_use
    }

    /// A freshly built pool with the given bound and no checkouts.
    pub fn new(max_size: u32) -> (pool: PoolState)
        ensures
            pool.max_size == max_size,
            pool.in_use == 0,
            pool.wf(),
    {
        PoolState { max_size, in_use: 0 }
    }

    pub fn free_slots(&self) -> (n: u32)
        requires
            self.wf(),
        ensures
            n == self.spec_free_slots(),
    {
        self.max_size - self.in_use
    }

    /// Non-blocking checkout of one slot: succeeds exactly when a slot is
    /// free, and then records one more outstanding checkout.
    pub fn try_check_out(&mut self) -> (r: Result<(), PoolError>)
        requires
            old(self).wf(),
        ensures
            final(self).wf(),
            final(self).max_size == old(self).max_size,
            r is Ok <==> old(self).in_use < old(self).max_size,
            r is Ok ==> final(self).in_use == old(self).in_use + 1,
            r is Err ==> *final(self) == *old(self),
    {
        if self.in_use < self.max_size {
            self.in_use = self.in_use + 1;
            Ok(())
        } else {
            Err(PoolError::Exhausted)
        }
    }

    /// Return one outstanding checkout to the pool.
    pub fn check_in(&mut self)
        requires
            old(self).wf(),
            old(self).in_use > 0,
        ensures
            final(self).wf(),
            final(self).max_size == old(self).max_size,
            final(self).in_use == old(self).in_use - 1,
    {
        self.in_use = self.in_use - 1;
    }
}

/// Why a checkout was refused.
#[derive(Clone, Copy, Debug, PartialEq, Eq, Structural)]
pub enum PoolError {
    /// Every slot is already checked out and the caller asked not to wait.
    Exhausted,
}

impl PoolError {
    /// Display text of the failure, used as the body of an error response.
    pub fn message(&self) -> (msg: String)
        ensures
            msg@ == "connection pool exhausted"@,
    {
        "connection pool exhausted".to_owned()
    }
}

} // verus!
