//! The bounded writer pool: write concurrency is capped by a fixed limit,
//! so fan-out cannot grow with input size. The pool tracks in-flight writes;
//! the shell acquires a slot before starting an insert and releases it when
//! the insert resolves.
use vstd::prelude::*;

verus! {

/// Counter of in-flight writes, bounded by a fixed concurrency limit.
pub struct WriterPool {
    pub in_flight: usize,
    pub limit: usize,
}

impl WriterPool {
    /// The pool's invariant: the number of in-flight writes never exceeds
    /// the configured limit.
    pub open spec fn wf(self) -> bool {
        self.in_flight <= self.limit
    }

    /// A new pool with the given concurrency limit and no writes in flight.
    pub fn new(limit: usize) -> (pool: WriterPool)
        ensures
            pool.wf(),
            pool.in_flight == 0,
            pool.limit == limit,
    {
        WriterPool { in_flight: 0, limit }
    }

    /// Tries to take one write slot. Succeeds exactly when a slot is free;
    /// on success the number of in-flight writes grows by one and still
    /// respects the limit. On refusal the caller must wait for a release.
    pub fn try_acquire(&mut self) -> (granted: bool)
        requires
            old(self).wf(),
        ensures
            final(self).wf(),
            final(self).limit == old(self).limit,
            granted == (old(self).in_flight < old(self).limit),
            granted ==> final(self).in_flight == old(self).in_flight + 1,
            !granted ==> *final(self) == *old(self),
    {
        if self.in_flight < self.limit {
            self.in_flight = self.in_flight + 1;
            true
        } else {
            false
        }
    }

    /// Releases one write slot after an insert resolved (whether it
    /// succeeded or failed).
    pub fn release(&mut self)
        requires
            old(self).wf(),
            old(self).in_flight > 0,
        ensures
            final(self).wf(),
            final(self).limit == old(self).limit,
            final(self).in_flight == old(self).in_flight - 1,
    {
        self.in_flight = self.in_flight - 1;
    }
}

/// One step of the pool's life: an attempt to start a write, or the end of
/// one.
pub enum PoolOp {
    Acquire,
    Release,
}

/// The number of in-flight writes after a sequence of pool operations,
/// starting from an empty pool: an acquire succeeds only below the limit,
/// a release only when something is in flight.
pub open spec fn pool_after(limit: nat, ops: Seq<PoolOp>) -> nat
    decreases ops.len(),
{
    if ops.len() == 0 {
        0
    } else {
        let prev = pool_after(limit, ops.drop_last());
        match ops.last() {
            PoolOp::Acquire => if prev < limit {
                prev + 1
            } else {
                prev
            },
            PoolOp::Release => if prev > 0 {
                (prev - 1) as nat
            } else {
                prev
            },
        }
    }
}

/// Under a concurrency limit, the number of simultaneously in-flight writes
/// never exceeds that limit, whatever sequence of acquires and releases the
/// run performs — however many records the input holds.
pub proof fn lemma_in_flight_bounded(limit: nat, ops: Seq<PoolOp>)
    ensures
        pool_after(limit, ops) <= limit,
    decreases ops.len(),
{
    if ops.len() > 0 {
        lemma_in_flight_bounded(limit, ops.drop_last());
    }
}

} // verus!
