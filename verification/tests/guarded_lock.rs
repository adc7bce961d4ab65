use pflock::guarded::GuardedLock;
use std::sync::atomic::{AtomicUsize, Ordering};
use std::sync::Arc;

#[derive(Eq, PartialEq, Debug)]
struct NonCopy(i32);

#[test]
fn smoke() {
    let mut l = GuardedLock::new(());
    l.acquire_read();
    l.release_read();
    l.acquire_write();
    l.release_write();
    l.acquire_read();
    l.acquire_read();
    l.release_read();
    l.release_read();
    l.acquire_write();
    l.release_write();
}

#[test]
fn test_rwlock_try_read() {
    let mut lock = GuardedLock::new(0isize);
    {
        lock.acquire_read();
        let read_result = lock.try_acquire_read();
        assert!(
            read_result,
            "try_read should succeed while read_guard is in scope"
        );
        lock.release_read();
        lock.release_read();
    }
    {
        lock.acquire_write();
        let read_result = lock.try_acquire_read();
        assert!(
            !read_result,
            "try_read should fail while write_guard is in scope"
        );
        lock.release_write();
    }
}

#[test]
fn test_rwlock_try_write() {
    let mut lock = GuardedLock::new(0isize);
    {
        lock.acquire_read();
        let write_result = lock.try_acquire_write();
        assert!(
            !write_result,
            "try_write should fail while read_guard is in scope"
        );
        lock.release_read();
    }
    {
        lock.acquire_write();
        let write_result = lock.try_acquire_write();
        assert!(
            !write_result,
            "try_write should fail while write_guard is in scope"
        );
        lock.release_write();
    }
}

#[test]
fn test_into_inner() {
    let m = GuardedLock::new(NonCopy(10));
    assert_eq!(m.into_inner(), NonCopy(10));
}

#[test]
fn test_into_inner_drop() {
    struct Foo(Arc<AtomicUsize>);
    impl Drop for Foo {
        fn drop(&mut self) {
            self.0.fetch_add(1, Ordering::SeqCst);
        }
    }
    let num_drops = Arc::new(AtomicUsize::new(0));
    let m = GuardedLock::new(Foo(num_drops.clone()));
    assert_eq!(num_drops.load(Ordering::SeqCst), 0);
    {
        let _inner = m.into_inner();
        assert_eq!(num_drops.load(Ordering::SeqCst), 0);
    }
    assert_eq!(num_drops.load(Ordering::SeqCst), 1);
}

#[test]
fn test_get_mut() {
    let mut m = GuardedLock::new(NonCopy(10));
    *m.get_mut() = NonCopy(20);
    assert_eq!(m.into_inner(), NonCopy(20));
}

#[test]
fn writer_update_is_seen_by_readers() {
    let mut lock = GuardedLock::new(1u32);
    lock.acquire_write();
    let v = *lock.read();
    lock.write(v + 6);
    lock.release_write();
    lock.acquire_read();
    assert_eq!(*lock.read(), 7);
    lock.release_read();
}

#[test]
fn three_workers_alternate_writes_and_reads() {
    // three workers, each 2000 turns, alternating a write-increment with a
    // read-observation on a counter starting at zero: half the turns
    // increment, so the final value is exactly (3 * 2000) / 2, and no
    // observation ever goes backwards
    let mut lock = GuardedLock::new(0u64);
    let mut last_seen = [0u64; 3];
    for turn in 0..2000u64 {
        for worker in 0..3usize {
            if turn % 2 == 0 {
                lock.acquire_write();
                let v = *lock.read();
                lock.write(v + 1);
                lock.release_write();
            } else {
                lock.acquire_read();
                let v = *lock.read();
                assert!(v >= last_seen[worker]);
                last_seen[worker] = v;
                lock.release_read();
            }
        }
    }
    assert_eq!(lock.into_inner(), 3000);
}

#[test]
fn lock_survives_writer_abort() {
    // a writer stores a value and releases on its way out — as the guard
    // of the concurrent lock does when the critical section unwinds; the
    // lock stays acquirable and the stored value is seen
    let mut lock = GuardedLock::new(NonCopy(1));
    lock.acquire_write();
    lock.write(NonCopy(42));
    lock.release_write();
    lock.acquire_read();
    assert_eq!(*lock.read(), NonCopy(42));
    lock.release_read();
    lock.acquire_write();
    lock.release_write();
}
