//! A minimal, portable locking core: a counting semaphore parameterized by a
//! pluggable wait strategy, together with adapters that expose it as a raw
//! mutual-exclusion lock and a raw reader/writer lock.
//!
//! The permit counter is the single source of truth for how many units of the
//! guarded resource are free. Every operation carries a contract relating the
//! counter before and after the call, and the capacity invariant
//! `0 <= counter <= N` is proved to be preserved by every operation.

use vstd::prelude::*;

pub mod mutex;
pub mod rwlock;
pub mod semaphore;

verus! {

/// A wait strategy that carries no state: a zero-size singleton policy.
///
/// `may_block()` says whether the strategy tolerates being asked to wait at
/// all; `wait()` may only be invoked when it does. A strategy that refuses to
/// block makes any attempt to wait a verification error instead of a hang.
pub trait StatelessWaitStrategy: Send + Sized {
    /// Whether a blocked acquirer is allowed to invoke `wait()` at all.
    spec fn stateless_may_block() -> bool;

    /// Produce the singleton value of this strategy.
    fn init() -> Self;

    /// Called by a blocked acquirer between retry attempts.
    fn wait()
        requires
            Self::stateless_may_block(),
    ;
}

/// The policy a blocked acquirer follows between failed acquisition attempts.
///
/// `wait()` is invoked between retries; `signal()` is invoked by a releaser to
/// notify waiters (a no-op for the strategies here, present for forward
/// compatibility with strategies that need explicit wake-up).
pub trait WaitStrategy: Send + Sized {
    /// Whether a blocked acquirer is allowed to invoke `wait()` at all.
    spec fn may_block() -> bool;

    /// Produce a fresh strategy instance for a newly built semaphore.
    fn init() -> Self;

    /// Called by a blocked acquirer between retry attempts.
    fn wait(&self)
        requires
            Self::may_block(),
    ;

    /// Called by a releaser after returning permits.
    fn signal(&self);
}

/// Every stateless strategy is a full wait strategy: the singleton value is
/// its own initial state, and releasing never needs to signal anyone.
impl<S: StatelessWaitStrategy> WaitStrategy for S {
    open spec fn may_block() -> bool {
        <S as StatelessWaitStrategy>::stateless_may_block()
    }

    fn init() -> Self {
        <S as StatelessWaitStrategy>::init()
    }

    fn wait(&self) {
        <S as StatelessWaitStrategy>::wait();
    }

    fn signal(&self) {
    }
}

/// Relies on core::hint::spin_loop: a CPU pause/backoff hint with no
/// observable effect on program state.
#[verifier::external_body]
fn spin_hint() {
    core::hint::spin_loop();
}

/// Busy-spin strategy: waiting executes a CPU pause hint and returns.
/// Usable in any environment, including ones without a scheduler.
#[derive(Clone, Copy, Debug)]
pub struct SpinWaiter;

impl StatelessWaitStrategy for SpinWaiter {
    open spec fn stateless_may_block() -> bool {
        true
    }

    fn init() -> Self {
        SpinWaiter
    }

    fn wait() {
        spin_hint();
    }
}

/// Strategy for locks that forbid blocking: waiting on one is a programming
/// error. `may_block()` is false, so verified callers can never reach
/// `wait()`; if unverified code calls it anyway, it terminates abnormally
/// rather than looping or hanging.
#[derive(Clone, Copy, Debug)]
pub struct NoBlock;

impl StatelessWaitStrategy for NoBlock {
    open spec fn stateless_may_block() -> bool {
        false
    }

    fn init() -> Self {
        NoBlock
    }

    fn wait() {
        vstd::pervasive::unreached()
    }
}

/// The single recoverable error of this library: a non-blocking acquisition
/// attempt found too few permits available.
#[derive(Debug, Clone, PartialEq, Eq, Structural)]
pub enum SyncErr {
    LockContended,
}

impl SyncErr {
    /// A human-readable description of the error.
    pub fn message(&self) -> (m: &'static str)
        ensures
            m@ == "tried to access a contended lock"@,
    {
        proof {
            reveal_strlit("tried to access a contended lock");
        }
        "tried to access a contended lock"
    }
}

} // verus!
