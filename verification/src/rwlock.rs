//! The raw reader/writer adapter over a bounded semaphore. A reader takes one
//! permit; a writer takes the entire capacity `N` in a single step, so a
//! writer can only succeed once every reader and every other writer has
//! released. Using the maximum representable permit count as the capacity
//! lets any number of readers fit.

use crate::WaitStrategy;
use crate::semaphore::StaticSemaphore;
use vstd::prelude::*;

verus! {

impl<const N: usize, S: WaitStrategy> StaticSemaphore<N, S> {
    /// Acquire a shared (reader) slot, waiting as the strategy allows. A slot
    /// must be free for the acquisition to terminate.
    pub fn lock_shared(&mut self)
        requires
            old(self).inv(),
            old(self).count() >= 1,
        ensures
            final(self).inv(),
            final(self).count() + 1 == old(self).count(),
    {
        self.down();
    }

    /// Attempt to acquire a shared (reader) slot without blocking. Succeeds
    /// exactly when at least one permit is free.
    pub fn try_lock_shared(&mut self) -> (r: bool)
        requires
            old(self).inv(),
        ensures
            final(self).inv(),
            r <==> old(self).count() >= 1,
            r ==> final(self).count() + 1 == old(self).count(),
            !r ==> final(self).count() == old(self).count(),
    {
        self.try_down().is_ok()
    }

    /// Release a shared (reader) slot. The caller must hold one.
    pub fn unlock_shared(&mut self)
        requires
            old(self).inv(),
            old(self).count() < N as nat,
        ensures
            final(self).inv(),
            final(self).count() == old(self).count() + 1,
    {
        self.up();
    }

    /// Acquire exclusive (writer) access by taking the entire capacity in one
    /// step, waiting as the strategy allows. Every permit must be free for
    /// the acquisition to terminate.
    pub fn lock_exclusive(&mut self)
        requires
            old(self).inv(),
            old(self).count() == N as nat,
        ensures
            final(self).inv(),
            final(self).count() == 0,
    {
        self.down_n(N);
    }

    /// Attempt to acquire exclusive (writer) access without blocking.
    /// Succeeds exactly when every permit is free, i.e. when no reader and no
    /// writer currently holds anything.
    pub fn try_lock_exclusive(&mut self) -> (r: bool)
        requires
            old(self).inv(),
        ensures
            final(self).inv(),
            r <==> old(self).count() == N as nat,
            r ==> final(self).count() == 0,
            !r ==> final(self).count() == old(self).count(),
    {
        self.try_down_n(N).is_ok()
    }

    /// Release exclusive (writer) access, returning the entire capacity. The
    /// caller must hold it: every permit must currently be handed out to the
    /// writer, so the counter must read zero.
    pub fn unlock_exclusive(&mut self)
        requires
            old(self).inv(),
            old(self).count() == 0,
        ensures
            final(self).inv(),
            final(self).count() == N as nat,
    {
        self.up_n(N);
    }
}

/// Reader/writer exclusion law, over the permit-counting model: if `readers`
/// holders own one permit each and `writers` holders own the entire capacity
/// each, then at most one writer exists, a writer excludes every reader, and
/// without a writer any number of readers up to the capacity may coexist.
pub proof fn lemma_writer_excludes<const N: usize, S: WaitStrategy>(
    s: &StaticSemaphore<N, S>,
    readers: nat,
    writers: nat,
)
    requires
        s.inv(),
        N >= 1,
        readers + writers * (N as nat) == s.handed_out(),
    ensures
        writers <= 1,
        writers == 1 ==> readers == 0,
        writers == 0 ==> readers <= N as nat,
{
    assert(s.handed_out() <= N as int);
    if writers >= 2 {
        assert(writers * (N as nat) >= 2 * (N as nat)) by (nonlinear_arith)
            requires
                writers >= 2,
        ;
        assert(false);
    }
    if writers == 1 {
        assert(writers * (N as nat) == N as nat);
    }
}

} // verus!
