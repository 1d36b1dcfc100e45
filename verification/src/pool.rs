//! An accounting model of the bounded connection pool.
//!
//! The physical pool lives outside the library and suspends callers
//! asynchronously; what is verified here is its bookkeeping: a pool lends
//! each connection to at most one caller at a time, grows lazily up to its
//! bound, and once saturated makes the next caller wait — so the number of
//! physical connections in use never exceeds `max_size`, and a caller that
//! waits too long fails with the `Connection` error, never `Internal`.

use vstd::prelude::*;

verus! {

/// The pool's configuration: its size bound, the idle count it keeps warm,
/// and how long an acquisition may wait before it fails.
#[derive(PartialEq, Eq, Structural, Debug, Clone, Copy)]
pub struct PoolConfig {
    pub max_size: u32,
    pub min_idle: u32,
    pub connection_timeout_ms: u64,
}

impl PoolConfig {
    /// A configuration is sensible when the pool may hold at least one
    /// connection and keeps no more idle than its bound allows.
    pub open spec fn wf(self) -> bool {
        1 <= self.max_size && self.min_idle <= self.max_size
    }

    /// The configuration this workload runs with: a fully pre-warmed pool
    /// (`min_idle` equal to `max_size`, so no connection is established on
    /// the request path) and a five-second acquisition timeout.
    pub fn recommended() -> (c: PoolConfig)
        ensures
            c.wf(),
            c.max_size == 40,
            c.min_idle == 40,
            c.connection_timeout_ms == 5000,
    {
        PoolConfig { max_size: 40, min_idle: 40, connection_timeout_ms: 5000 }
    }
}

/// What the pool decides for one caller asking for a connection.
#[derive(PartialEq, Eq, Structural, Debug, Clone, Copy)]
pub enum AcquireAction {
    /// An idle connection is handed to the caller.
    Lend,
    /// No connection is idle but the bound is not reached: a new physical
    /// connection is established for the caller.
    Establish,
    /// The pool is saturated: the caller waits until a connection is freed
    /// or its timeout elapses.
    Wait,
}

/// The pool's bookkeeping: how many connections sit idle, how many are lent
/// out, and the bound neither side may together exceed.
#[derive(PartialEq, Eq, Structural, Debug, Clone, Copy)]
pub struct PoolState {
    pub idle: usize,
    pub in_use: usize,
    pub max_size: usize,
}

impl PoolState {
    /// All physical connections the pool currently owns.
    pub open spec fn total(self) -> int {
        self.idle + self.in_use
    }

    /// The pool never owns more connections than its bound.
    pub open spec fn wf(self) -> bool {
        self.idle + self.in_use <= self.max_size
    }

    /// A fresh pool owns no connections yet; it grows lazily.
    pub fn new(max_size: usize) -> (s: PoolState)
        ensures
            s.wf(),
            s.idle == 0,
            s.in_use == 0,
            s.max_size == max_size,
    {
        PoolState { idle: 0, in_use: 0, max_size }
    }

    /// One caller asks for a connection: an idle one is lent, else a new
    /// one is established if the bound allows, else the caller waits. In
    /// every case the bound still holds afterwards.
    pub fn checkout(&mut self) -> (a: AcquireAction)
        requires
            old(self).wf(),
        ensures
            final(self).wf(),
            final(self).max_size == old(self).max_size,
            old(self).idle > 0 ==> a is Lend && final(self).idle == old(self).idle - 1
                && final(self).in_use == old(self).in_use + 1,
            old(self).idle == 0 && old(self).total() < old(self).max_size ==> a is Establish
                && final(self).idle == 0 && final(self).in_use == old(self).in_use + 1,
            old(self).idle == 0 && old(self).total() == old(self).max_size ==> a is Wait
                && *final(self) == *old(self),
            final(self).in_use <= final(self).max_size,
    {
        if self.idle > 0 {
            self.idle = self.idle - 1;
            self.in_use = self.in_use + 1;
            AcquireAction::Lend
        } else if self.in_use < self.max_size {
            self.in_use = self.in_use + 1;
            AcquireAction::Establish
        } else {
            AcquireAction::Wait
        }
    }

    /// A caller returns its connection on any exit path; the connection
    /// becomes idle again.
    pub fn give_back(&mut self)
        requires
            old(self).wf(),
            old(self).in_use >= 1,
        ensures
            final(self).wf(),
            final(self).max_size == old(self).max_size,
            final(self).idle == old(self).idle + 1,
            final(self).in_use == old(self).in_use - 1,
    {
        self.in_use = self.in_use - 1;
        self.idle = self.idle + 1;
    }

    /// A lent connection found broken is destroyed instead of returned.
    pub fn discard_broken(&mut self)
        requires
            old(self).wf(),
            old(self).in_use >= 1,
        ensures
            final(self).wf(),
            final(self).max_size == old(self).max_size,
            final(self).idle == old(self).idle,
            final(self).in_use == old(self).in_use - 1,
    {
        self.in_use = self.in_use - 1;
    }

    /// An idle connection found dead on checkout is evicted lazily.
    pub fn evict_idle(&mut self)
        requires
            old(self).wf(),
            old(self).idle >= 1,
        ensures
            final(self).wf(),
            final(self).max_size == old(self).max_size,
            final(self).idle == old(self).idle - 1,
            final(self).in_use == old(self).in_use,
    {
        self.idle = self.idle - 1;
    }
}

/// In any well-formed pool state at most `max_size` physical connections
/// are in use simultaneously; with `max_size` callers holding one each, no
/// connection is idle, so a further caller can only wait — and a wait that
/// exceeds the timeout surfaces as the `Connection` error, never `Internal`.
pub proof fn lemma_in_use_bounded(s: PoolState)
    requires
        s.wf(),
    ensures
        s.in_use <= s.max_size,
        s.in_use == s.max_size ==> s.idle == 0,
{
}

} // verus!
