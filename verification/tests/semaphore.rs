use semalock::semaphore::{DynamicSemaphore, StaticSemaphore};
use semalock::{NoBlock, SpinWaiter, SyncErr};

#[test]
fn new_semaphores_start_full() {
    let s = StaticSemaphore::<4, SpinWaiter>::new();
    assert_eq!(s.available(), 4);
    let d = DynamicSemaphore::<SpinWaiter>::new(7);
    assert_eq!(d.available(), 7);
    let z = DynamicSemaphore::<SpinWaiter>::new(0);
    assert_eq!(z.available(), 0);
}

#[test]
fn try_down_takes_one_permit() {
    let mut d = DynamicSemaphore::<SpinWaiter>::new(2);
    assert_eq!(d.try_down(), Ok(()));
    assert_eq!(d.available(), 1);
    assert_eq!(d.try_down(), Ok(()));
    assert_eq!(d.available(), 0);
}

#[test]
fn try_down_on_empty_fails_and_keeps_counter() {
    let mut d = DynamicSemaphore::<SpinWaiter>::new(0);
    assert_eq!(d.try_down(), Err(SyncErr::LockContended));
    assert_eq!(d.available(), 0);
    let mut s = StaticSemaphore::<3, SpinWaiter>::new();
    assert_eq!(s.try_down_n(3), Ok(()));
    assert_eq!(s.try_down(), Err(SyncErr::LockContended));
    assert_eq!(s.available(), 0);
}

#[test]
fn down_and_up_are_exact_inverses() {
    let mut s = StaticSemaphore::<5, SpinWaiter>::new();
    s.down();
    assert_eq!(s.available(), 4);
    s.up();
    assert_eq!(s.available(), 5);
    s.down_n(3);
    assert_eq!(s.available(), 2);
    s.up_n(3);
    assert_eq!(s.available(), 5);
}

#[test]
fn try_down_n_needs_enough_permits() {
    let mut s = StaticSemaphore::<5, SpinWaiter>::new();
    assert_eq!(s.try_down_n(6), Err(SyncErr::LockContended));
    assert_eq!(s.available(), 5);
    assert_eq!(s.try_down_n(0), Ok(()));
    assert_eq!(s.available(), 5);
    assert_eq!(s.try_down_n(5), Ok(()));
    assert_eq!(s.available(), 0);
}

#[test]
fn counter_stays_within_capacity() {
    let mut s = StaticSemaphore::<3, SpinWaiter>::new();
    assert!(s.available() <= 3);
    assert_eq!(s.try_down(), Ok(()));
    assert!(s.available() <= 3);
    s.down_n(2);
    assert!(s.available() <= 3);
    s.up();
    assert!(s.available() <= 3);
    assert_eq!(s.try_down(), Ok(()));
    assert!(s.available() <= 3);
    s.up_n(3);
    assert_eq!(s.available(), 3);
}

#[test]
fn clone_is_an_independent_snapshot() {
    let mut d = DynamicSemaphore::<SpinWaiter>::new(5);
    let _ = d.try_down();
    let mut c = d.clone();
    assert_eq!(c.available(), 4);
    assert_eq!(c.try_down(), Ok(()));
    assert_eq!(c.available(), 3);
    assert_eq!(d.available(), 4);
    d.up();
    assert_eq!(d.available(), 5);
    assert_eq!(c.available(), 3);
}

#[test]
fn static_clone_is_an_independent_snapshot() {
    let mut s = StaticSemaphore::<4, SpinWaiter>::new();
    s.down_n(2);
    let mut c = s.clone();
    assert_eq!(c.available(), 2);
    c.up_n(2);
    assert_eq!(c.available(), 4);
    assert_eq!(s.available(), 2);
}

#[test]
fn no_block_semaphore_works_uncontended() {
    let mut s = StaticSemaphore::<2, NoBlock>::new();
    assert_eq!(s.try_down(), Ok(()));
    s.down();
    assert_eq!(s.available(), 0);
    assert_eq!(s.try_down(), Err(SyncErr::LockContended));
    s.up_n(2);
    assert_eq!(s.available(), 2);
}

#[test]
fn contention_error_message() {
    let e = SyncErr::LockContended;
    assert_eq!(e.message(), "tried to access a contended lock");
    assert_eq!(e.clone(), SyncErr::LockContended);
}
