//! A model of the shared, bounded connection pool.
//!
//! The pool itself — sockets, timeouts, the suspension of a task while it
//! waits for an idle connection — lives outside this crate.  What is
//! modelled here is the resource accounting that the accessor contract in
//! the service relies on: the pool is sized once at startup, a connection
//! can be handed out exactly when one is idle, and every hand-out is paired
//! with a release when the handler's use of it ends.

use vstd::prelude::*;

verus! {

/// The number of connections the pool is created with at startup.
pub const POOL_SIZE: usize = 10;

/// The accounting state of a bounded connection pool: how many connections
/// exist, and how many are currently handed out.
pub struct ConnectionPool {
    capacity: usize,
    in_use: usize,
}

impl ConnectionPool {
    /// The number of connections the pool was created with.
    pub closed spec fn spec_capacity(self) -> usize {
        self.capacity
    }

    /// The number of connections currently handed out.
    pub closed spec fn spec_in_use(self) -> usize {
        self.in_use
    }

    /// The pool never hands out more connections than it has.
    pub open spec fn wf(self) -> bool {
        &&& self.spec_capacity() >= 1
        &&& self.spec_in_use() <= self.spec_capacity()
    }

    /// A fresh pool of `capacity` connections, all idle.
    pub fn new(capacity: usize) -> (p: ConnectionPool)
        requires
            capacity >= 1,
        ensures
            p.wf(),
            p.spec_capacity() == capacity,
            p.spec_in_use() == 0,
    {
        ConnectionPool { capacity, in_use: 0 }
    }

    pub fn capacity(&self) -> (c: usize)
        ensures
            c == self.spec_capacity(),
    {
        self.capacity
    }

    pub fn in_use(&self) -> (n: usize)
        ensures
            n == self.spec_in_use(),
    {
        self.in_use
    }

    /// Hands out a connection exactly when one is idle: the hand-out
    /// succeeds if and only if the pool is not exhausted, and on failure the
    /// pool is left as it was — an exhausted pool fails one request without
    /// affecting the others.
    pub fn try_acquire(&mut self) -> (got: bool)
        requires
            old(self).wf(),
        ensures
            final(self).wf(),
            final(self).spec_capacity() == old(self).spec_capacity(),
            got <==> old(self).spec_in_use() < old(self).spec_capacity(),
            got ==> final(self).spec_in_use() == old(self).spec_in_use() + 1,
            !got ==> final(self).spec_in_use() == old(self).spec_in_use(),
    {
        if self.in_use < self.capacity {
            self.in_use = self.in_use + 1;
            true
        } else {
            false
        }
    }

    /// Returns a handed-out connection to the pool.  Acquisition is scoped:
    /// a handler releases its connection on every exit path, so each
    /// successful `try_acquire` is matched by exactly one `release`.
    pub fn release(&mut self)
        requires
            old(self).wf(),
            old(self).spec_in_use() >= 1,
        ensures
            final(self).wf(),
            final(self).spec_capacity() == old(self).spec_capacity(),
            final(self).spec_in_use() == old(self).spec_in_use() - 1,
    {
        self.in_use = self.in_use - 1;
    }
}

/// Acquiring and then releasing a connection returns the pool to exactly
/// the state it was in, so a burst of requests larger than the pool drains
/// back to an all-idle pool once each request's scoped use ends, and every
/// request can eventually be served.
pub proof fn lemma_acquire_release_roundtrip(p: ConnectionPool, q: ConnectionPool, r: ConnectionPool)
    requires
        p.wf(),
        p.spec_in_use() < p.spec_capacity(),
        q.spec_capacity() == p.spec_capacity(),
        q.spec_in_use() == p.spec_in_use() + 1,
        r.spec_capacity() == q.spec_capacity(),
        r.spec_in_use() == q.spec_in_use() - 1,
    ensures
        r.spec_capacity() == p.spec_capacity(),
        r.spec_in_use() == p.spec_in_use(),
{
}

} // verus!
