//! The counting semaphore core: an unbounded free-running semaphore and a
//! capacity-bounded wrapper around it.

use crate::{SyncErr, WaitStrategy};
use vstd::prelude::*;

verus! {

/// A counting semaphore with a free-running permit counter and an embedded
/// wait strategy. The counter is the number of available units of the guarded
/// resource; acquisition takes permits, release returns them.
#[derive(Debug)]
pub struct DynamicSemaphore<S: WaitStrategy> {
    counter: usize,
    strategy: S,
}

impl<S: WaitStrategy> DynamicSemaphore<S> {
    /// The number of permits currently available.
    pub closed spec fn count(&self) -> nat {
        self.counter as nat
    }

    /// Build a semaphore holding `counter` available permits.
    pub fn new(counter: usize) -> (s: Self)
        ensures
            s.count() == counter,
    {
        DynamicSemaphore { counter, strategy: S::init() }
    }

    /// Read the number of permits currently available.
    pub fn available(&self) -> (c: usize)
        ensures
            c == self.count(),
    {
        self.counter
    }

    /// Attempt to take one permit without blocking. Succeeds exactly when a
    /// permit is available; on contention the counter is left unchanged and
    /// the contention error is returned.
    pub fn try_down(&mut self) -> (r: Result<(), SyncErr>)
        ensures
            r is Ok <==> old(self).count() >= 1,
            r is Ok ==> final(self).count() + 1 == old(self).count(),
            r is Err ==> final(self).count() == old(self).count() && r->Err_0 == SyncErr::LockContended,
    {
        if self.counter >= 1 {
            self.counter = self.counter - 1;
            Ok(())
        } else {
            Err(SyncErr::LockContended)
        }
    }

    /// Take one permit, invoking the wait strategy between failed attempts
    /// until one is available. Never returns an error. A permit must already
    /// be available: in this sequential model no other holder can release
    /// while the caller waits, so a contended blocking acquisition could
    /// never terminate, and the retry loop is proved to need no retry.
    pub fn down(&mut self)
        requires
            old(self).count() >= 1,
        ensures
            final(self).count() + 1 == old(self).count(),
    {
        loop
            invariant
                self.count() == old(self).count(),
                self.count() >= 1,
            decreases self.count(),
        {
            if self.try_down().is_ok() {
                return;
            }
            self.strategy.wait();
        }
    }

    /// Return one permit. The caller must actually hold it: the counter after
    /// the release must still be representable.
    pub fn up(&mut self)
        requires
            old(self).count() < usize::MAX,
        ensures
            final(self).count() == old(self).count() + 1,
    {
        self.counter = self.counter + 1;
        self.strategy.signal();
    }

    /// Attempt to take `n` permits in one atomic step without blocking.
    /// Succeeds exactly when at least `n` permits are available; on
    /// contention the counter is left unchanged.
    pub fn try_down_n(&mut self, n: usize) -> (r: Result<(), SyncErr>)
        ensures
            r is Ok <==> old(self).count() >= n,
            r is Ok ==> final(self).count() + n == old(self).count(),
            r is Err ==> final(self).count() == old(self).count() && r->Err_0 == SyncErr::LockContended,
    {
        if self.counter >= n {
            self.counter = self.counter - n;
            Ok(())
        } else {
            Err(SyncErr::LockContended)
        }
    }

    /// Take `n` permits in one step, invoking the wait strategy between
    /// failed attempts until enough are available. As with `down`, the
    /// permits must already be available for the acquisition to terminate.
    pub fn down_n(&mut self, n: usize)
        requires
            old(self).count() >= n,
        ensures
            final(self).count() + n == old(self).count(),
    {
        loop
            invariant
                self.count() == old(self).count(),
                self.count() >= n,
            decreases self.count(),
        {
            if self.try_down_n(n).is_ok() {
                return;
            }
            self.strategy.wait();
        }
    }

    /// Return `n` permits. The caller must actually hold them: the counter
    /// after the release must still be representable.
    pub fn up_n(&mut self, n: usize)
        requires
            old(self).count() + n <= usize::MAX,
        ensures
            final(self).count() == old(self).count() + n,
    {
        self.counter = self.counter + n;
        self.strategy.signal();
    }
}

/// Cloning snapshots the counter into a brand-new, independent semaphore:
/// a value copy, never a second handle onto the same lock.
impl<S: Clone + WaitStrategy> Clone for DynamicSemaphore<S> {
    fn clone(&self) -> (c: Self)
        ensures
            c.count() == self.count(),
    {
        DynamicSemaphore { counter: self.counter, strategy: self.strategy.clone() }
    }
}

/// A counting semaphore bounded by a compile-time capacity `N`. The permit
/// counter always lies in `[0, N]`: release operations require that the
/// permits being returned are actually held.
#[derive(Debug)]
pub struct StaticSemaphore<const N: usize, S: WaitStrategy> {
    inner: DynamicSemaphore<S>,
}

impl<const N: usize, S: WaitStrategy> StaticSemaphore<N, S> {
    /// The number of permits currently available.
    pub closed spec fn count(&self) -> nat {
        self.inner.count()
    }

    /// The capacity invariant: the counter never exceeds `N`.
    pub open spec fn inv(&self) -> bool {
        self.count() <= N as nat
    }

    /// The number of permits currently handed out to holders.
    pub open spec fn handed_out(&self) -> int {
        N as int - self.count() as int
    }

    /// Build a fully-unlocked semaphore: all `N` permits available.
    pub fn new() -> (s: Self)
        ensures
            s.count() == N as nat,
            s.inv(),
    {
        StaticSemaphore { inner: DynamicSemaphore::new(N) }
    }

    /// Read the number of permits currently available.
    pub fn available(&self) -> (c: usize)
        ensures
            c == self.count(),
    {
        self.inner.available()
    }

    /// Attempt to take one permit without blocking.
    pub fn try_down(&mut self) -> (r: Result<(), SyncErr>)
        requires
            old(self).inv(),
        ensures
            final(self).inv(),
            r is Ok <==> old(self).count() >= 1,
            r is Ok ==> final(self).count() + 1 == old(self).count(),
            r is Err ==> final(self).count() == old(self).count() && r->Err_0 == SyncErr::LockContended,
    {
        self.inner.try_down()
    }

    /// Take one permit, waiting as the strategy allows. A permit must
    /// already be available for the acquisition to terminate.
    pub fn down(&mut self)
        requires
            old(self).inv(),
            old(self).count() >= 1,
        ensures
            final(self).inv(),
            final(self).count() + 1 == old(self).count(),
    {
        self.inner.down();
    }

    /// Return one permit. The caller must hold it: the counter prior to the
    /// release must be strictly below the capacity.
    pub fn up(&mut self)
        requires
            old(self).inv(),
            old(self).count() < N as nat,
        ensures
            final(self).inv(),
            final(self).count() == old(self).count() + 1,
    {
        self.inner.up();
    }

    /// Attempt to take `n` permits in one step without blocking.
    pub fn try_down_n(&mut self, n: usize) -> (r: Result<(), SyncErr>)
        requires
            old(self).inv(),
        ensures
            final(self).inv(),
            r is Ok <==> old(self).count() >= n,
            r is Ok ==> final(self).count() + n == old(self).count(),
            r is Err ==> final(self).count() == old(self).count() && r->Err_0 == SyncErr::LockContended,
    {
        self.inner.try_down_n(n)
    }

    /// Take `n` permits in one step, waiting as the strategy allows. The
    /// permits must already be available for the acquisition to terminate.
    pub fn down_n(&mut self, n: usize)
        requires
            old(self).inv(),
            old(self).count() >= n,
        ensures
            final(self).inv(),
            final(self).count() + n == old(self).count(),
    {
        self.inner.down_n(n);
    }

    /// Return `n` permits. The caller must hold them: the release must not
    /// push the counter above the capacity.
    pub fn up_n(&mut self, n: usize)
        requires
            old(self).inv(),
            old(self).count() + n <= N as nat,
        ensures
            final(self).inv(),
            final(self).count() == old(self).count() + n,
    {
        self.inner.up_n(n);
    }
}

/// Cloning snapshots the counter into a brand-new, independent semaphore.
impl<const N: usize, S: Clone + WaitStrategy> Clone for StaticSemaphore<N, S> {
    fn clone(&self) -> (c: Self)
        ensures
            c.count() == self.count(),
    {
        StaticSemaphore { inner: self.inner.clone() }
    }
}

/// The acquisition decision on a raw counter value: the new counter when `n`
/// permits can be taken, or nothing when too few are available. This is the
/// single step an atomic compare-and-retry acquisition applies on each
/// attempt; it can never underflow.
pub fn permit_take(counter: usize, n: usize) -> (r: Option<usize>)
    ensures
        counter >= n ==> r == Some((counter - n) as usize),
        counter < n ==> r is None,
{
    if counter >= n {
        Some(counter - n)
    } else {
        None
    }
}

/// Permit counter invariant: a bounded semaphore's counter always lies in
/// `[0, N]`. Every operation above requires and re-establishes `inv()`, so by
/// induction the bound holds after any sequence of successful acquire and
/// release operations starting from `new()`.
pub proof fn lemma_counter_in_range<const N: usize, S: WaitStrategy>(s: &StaticSemaphore<N, S>)
    requires
        s.inv(),
    ensures
        0 <= s.count() <= N as nat,
{
}

/// One successful operation on a bounded semaphore's permit counter: an
/// acquisition of `k` permits (`try_down`/`down` with `k == 1`, or the `_n`
/// forms), or a release of `k` permits (`up`/`up_n`).
pub enum PermitOp {
    Acquire(nat),
    Release(nat),
}

/// When an operation can succeed on a capacity-`cap` semaphore whose counter
/// reads `count`: an acquisition needs the permits to be available, a release
/// needs its permits to be held. These are exactly the conditions under which
/// the operations above succeed.
pub open spec fn permit_op_allowed(cap: nat, count: nat, op: PermitOp) -> bool {
    match op {
        PermitOp::Acquire(k) => count >= k,
        PermitOp::Release(k) => count + k <= cap,
    }
}

/// The counter after one successful operation, as the contracts of the
/// operations above state it.
pub open spec fn permit_op_apply(count: nat, op: PermitOp) -> nat {
    match op {
        PermitOp::Acquire(k) => (count - k) as nat,
        PermitOp::Release(k) => count + k,
    }
}

/// Whether a whole sequence of operations succeeds step by step starting from
/// counter `count` on a capacity-`cap` semaphore.
pub open spec fn permit_ops_allowed(cap: nat, count: nat, ops: Seq<PermitOp>) -> bool
    decreases ops.len(),
{
    ops.len() == 0 || (permit_op_allowed(cap, count, ops[0])
        && permit_ops_allowed(cap, permit_op_apply(count, ops[0]), ops.skip(1)))
}

/// The counter after a whole sequence of successful operations.
pub open spec fn permit_ops_apply(count: nat, ops: Seq<PermitOp>) -> nat
    decreases ops.len(),
{
    if ops.len() == 0 {
        count
    } else {
        permit_ops_apply(permit_op_apply(count, ops[0]), ops.skip(1))
    }
}

/// Counter invariant law, over operation sequences: for any capacity and any
/// sequence of successful acquire and release operations starting from a
/// counter within `[0, cap]`, the counter observed at the end still lies in
/// `[0, cap]` — and hence, by this very lemma applied to prefixes, at every
/// intermediate point as well.
pub proof fn lemma_counter_in_range_after_ops(cap: nat, count: nat, ops: Seq<PermitOp>)
    requires
        count <= cap,
        permit_ops_allowed(cap, count, ops),
    ensures
        0 <= permit_ops_apply(count, ops) <= cap,
    decreases ops.len(),
{
    if ops.len() > 0 {
        lemma_counter_in_range_after_ops(cap, permit_op_apply(count, ops[0]), ops.skip(1));
    }
}

} // verus!
