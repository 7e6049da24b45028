//! The raw mutual-exclusion adapter: a capacity-one bounded semaphore whose
//! single permit makes at most one holder possible at a time.

use crate::WaitStrategy;
use crate::semaphore::StaticSemaphore;
use vstd::prelude::*;

verus! {

impl<S: WaitStrategy> StaticSemaphore<1, S> {
    /// Attempt to acquire the lock without blocking. Succeeds exactly when
    /// the lock is free (its single permit is available).
    pub fn try_lock(&mut self) -> (r: bool)
        requires
            old(self).inv(),
        ensures
            final(self).inv(),
            r <==> old(self).count() == 1,
            r ==> final(self).count() == 0,
            !r ==> final(self).count() == old(self).count(),
    {
        self.try_down().is_ok()
    }

    /// Acquire the lock, waiting as the strategy allows until it is free.
    /// The lock must be free for the acquisition to terminate.
    pub fn lock(&mut self)
        requires
            old(self).inv(),
            old(self).count() == 1,
        ensures
            final(self).inv(),
            final(self).count() == 0,
    {
        self.down();
    }

    /// Release the lock. The caller must hold it: exactly one acquisition
    /// must have succeeded since the last release.
    pub fn unlock(&mut self)
        requires
            old(self).inv(),
            old(self).count() == 0,
        ensures
            final(self).inv(),
            final(self).count() == 1,
    {
        self.up();
    }
}

/// Mutual exclusion law: a capacity-one semaphore never has more than one
/// permit handed out, so no two successful acquirers can hold the lock at
/// the same time.
pub proof fn lemma_mutual_exclusion<S: WaitStrategy>(s: &StaticSemaphore<1, S>)
    requires
        s.inv(),
    ensures
        s.handed_out() <= 1,
{
}

} // verus!
