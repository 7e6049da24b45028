use semalock::semaphore::StaticSemaphore;
use semalock::SpinWaiter;

#[test]
fn mutex_try_lock_succeeds_once() {
    let mut m = StaticSemaphore::<1, SpinWaiter>::new();
    assert!(m.try_lock());
    assert!(!m.try_lock());
    assert_eq!(m.available(), 0);
    m.unlock();
    assert_eq!(m.available(), 1);
    assert!(m.try_lock());
}

#[test]
fn mutex_guards_a_counter() {
    let mut m = StaticSemaphore::<1, SpinWaiter>::new();
    let mut counter: u64 = 0;
    for _ in 0..10 {
        m.lock();
        counter += 1;
        m.unlock();
    }
    assert_eq!(counter, 10);
    assert_eq!(m.available(), 1);
}

#[test]
fn readers_coexist_and_exclude_writers() {
    let mut l = StaticSemaphore::<8, SpinWaiter>::new();
    assert!(l.try_lock_shared());
    assert!(l.try_lock_shared());
    l.lock_shared();
    assert_eq!(l.available(), 5);
    assert!(!l.try_lock_exclusive());
    assert_eq!(l.available(), 5);
    l.unlock_shared();
    l.unlock_shared();
    l.unlock_shared();
    assert_eq!(l.available(), 8);
}

#[test]
fn writer_excludes_readers_and_writers() {
    let mut l = StaticSemaphore::<8, SpinWaiter>::new();
    assert!(l.try_lock_exclusive());
    assert_eq!(l.available(), 0);
    assert!(!l.try_lock_shared());
    assert!(!l.try_lock_exclusive());
    l.unlock_exclusive();
    assert_eq!(l.available(), 8);
    assert!(l.try_lock_shared());
    l.unlock_shared();
}

#[test]
fn exclusive_waits_for_every_permit() {
    let mut l = StaticSemaphore::<4, SpinWaiter>::new();
    l.lock_shared();
    assert!(!l.try_lock_exclusive());
    l.unlock_shared();
    l.lock_exclusive();
    assert_eq!(l.available(), 0);
    l.unlock_exclusive();
    assert_eq!(l.available(), 4);
}
