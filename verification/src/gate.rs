//! Concurrency gate: a counting semaphore bounding simultaneous in-flight
//! operations.
//!
//! It limits request concurrency (how many calls run at once), while
//! the token bucket limits request rate. A permit is acquired before a unit
//! of work attempts execution and must be released exactly once when that
//! attempt concludes, on every exit path.

use vstd::prelude::*;

verus! {

/// A counting semaphore: at most `max_concurrent` permits are ever
/// outstanding at once.
#[derive(Debug, Clone, Copy, PartialEq, Eq, Structural)]
pub struct ConcurrencyGate {
    /// Fixed capacity: the maximum number of simultaneous permits
    pub max_concurrent: u64,
    /// Number of permits acquired and not yet released
    pub outstanding: u64,
}

impl ConcurrencyGate {
    /// The semaphore's invariant: outstanding permits never exceed the capacity.
    pub open spec fn wf(self) -> bool {
        self.outstanding <= self.max_concurrent
    }

    /// Whether a permit is free to take.
    pub open spec fn can_acquire(self) -> bool {
        self.outstanding < self.max_concurrent
    }

    /// Creates a gate with the given capacity and no outstanding permits.
    pub fn new(max_concurrent: u64) -> (g: Self)
        ensures
            g.wf(),
            g.max_concurrent == max_concurrent,
            g.outstanding == 0,
    {
        ConcurrencyGate { max_concurrent, outstanding: 0 }
    }

    /// Takes a permit if one is free; never oversubscribes the semaphore.
    ///
    /// A caller that needs the blocking behaviour of a semaphore polls this
    /// until it grants.
    pub fn try_acquire(&mut self) -> (granted: bool)
        requires
            old(self).wf(),
        ensures
            final(self).wf(),
            granted == old(self).can_acquire(),
            final(self).max_concurrent == old(self).max_concurrent,
            granted ==> final(self).outstanding == old(self).outstanding + 1,
            !granted ==> *final(self) == *old(self),
    {
        if self.outstanding < self.max_concurrent {
            self.outstanding = self.outstanding + 1;
            true
        } else {
            false
        }
    }

    /// Returns a permit. Must be called exactly once per successful
    /// acquire, whatever way the protected section exits.
    pub fn release(&mut self)
        requires
            old(self).wf(),
            old(self).outstanding >= 1,
        ensures
            final(self).wf(),
            final(self).max_concurrent == old(self).max_concurrent,
            final(self).outstanding == old(self).outstanding - 1,
    {
        self.outstanding = self.outstanding - 1;
    }

    /// The number of permits currently free.
    pub fn available(&self) -> (n: u64)
        requires
            self.wf(),
        ensures
            n == self.max_concurrent - self.outstanding,
    {
        self.max_concurrent - self.outstanding
    }

    /// The number of permits currently held.
    pub fn held(&self) -> (n: u64)
        ensures
            n == self.outstanding,
    {
        self.outstanding
    }
}

/// One step of an arbitrary concurrent workload, as the semaphore sees it: some
/// task tries to take a permit, or some task returns one it holds.
#[derive(Debug, Clone, Copy, PartialEq, Eq, Structural)]
pub enum GateOp {
    /// A task calls `try_acquire`
    Acquire,
    /// A task holding a permit calls `release`
    Release,
}

/// The semaphore after one operation. An acquire that finds no free permit
/// and a release by a task that holds none change nothing.
pub open spec fn gate_step(g: ConcurrencyGate, op: GateOp) -> ConcurrencyGate {
    match op {
        GateOp::Acquire => if g.can_acquire() {
            ConcurrencyGate { outstanding: (g.outstanding + 1) as u64, ..g }
        } else {
            g
        },
        GateOp::Release => if g.outstanding >= 1 {
            ConcurrencyGate { outstanding: (g.outstanding - 1) as u64, ..g }
        } else {
            g
        },
    }
}

/// The semaphore after a whole sequence of operations.
pub open spec fn gate_run(g: ConcurrencyGate, ops: Seq<GateOp>) -> ConcurrencyGate
    decreases ops.len(),
{
    if ops.len() == 0 {
        g
    } else {
        gate_run(gate_step(g, ops[0]), ops.skip(1))
    }
}

/// Law: under any workload — any interleaving of acquires and releases —
/// the number of outstanding permits never exceeds the fixed capacity.
pub proof fn lemma_gate_never_exceeds_capacity(g: ConcurrencyGate, ops: Seq<GateOp>)
    requires
        g.wf(),
    ensures
        gate_run(g, ops).wf(),
        gate_run(g, ops).outstanding <= g.max_concurrent,
        gate_run(g, ops).max_concurrent == g.max_concurrent,
    decreases ops.len(),
{
    if ops.len() > 0 {
        lemma_gate_never_exceeds_capacity(gate_step(g, ops[0]), ops.skip(1));
    }
}

} // verus!
