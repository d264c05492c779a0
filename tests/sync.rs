use kernel_core::sync::{InitStateLock, Mutex, NullLock, PhaseError};

#[test]
fn guard_round_trip_returns_last_written_value() {
    let mut lock = NullLock::new(5u32);
    lock.lock(|_| (7u32, ()));
    lock.lock(|_| (11u32, ()));
    let read = lock.lock(|x| (x, x));
    assert_eq!(read, 11);
    let again = lock.read(|x| *x);
    assert_eq!(again, 11);
}

#[test]
fn guard_returns_closure_result_and_keeps_value() {
    let mut lock = NullLock::new(vec![1u8, 2, 3]);
    let len = lock.lock(|mut v: Vec<u8>| {
        v.push(4);
        let n = v.len();
        (v, n)
    });
    assert_eq!(len, 4);
    assert_eq!(lock.read(|v| v.clone()), vec![1, 2, 3, 4]);
}

#[test]
fn init_state_lock_writes_during_init() {
    let mut lock = InitStateLock::new(1u64);
    assert!(!lock.is_frozen());
    let r = lock.write(|x| (x + 41, "done"));
    assert_eq!(r, Ok("done"));
    assert_eq!(lock.read(|x| *x), 42);
}

#[test]
fn init_state_lock_refuses_writes_after_freeze() {
    let mut lock = InitStateLock::new(1u64);
    lock.freeze();
    assert!(lock.is_frozen());
    let r = lock.write(|x| (x + 1, ()));
    assert_eq!(r, Err(PhaseError::WriteAfterFreeze));
    assert_eq!(lock.read(|x| *x), 1);
}
