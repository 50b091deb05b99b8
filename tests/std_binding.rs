use safe_lock::std_sync::SafeRwLock;
use safe_lock::SafeLock;
use std::sync::{RwLock, TryLockError};

#[test]
fn std_unlock_then_upgrade_writes_value() {
    let lock = RwLock::new(5);
    let handle: SafeRwLock<i32> = SafeLock::new(&lock);
    let guard = match handle.try_lock_blocking() {
        Ok(guard) => guard,
        Err(_) => panic!("the lock is healthy"),
    };
    assert_eq!(*guard, 5);
    let handle = guard.unlock();
    let guard = match handle.try_lock_blocking_err() {
        Ok(guard) => guard,
        Err(_) => panic!("the lock is healthy"),
    };
    {
        let mut writer = guard.upgrade();
        *writer = 10;
    }
    let handle = match SafeLock::new(&lock).try_lock_blocking() {
        Ok(guard) => {
            assert_eq!(*guard, 10);
            guard.unlock()
        }
        Err(_) => panic!("the lock is healthy"),
    };
    assert!(handle.try_lock_immediate().is_ok());
}

#[test]
fn std_immediate_fails_while_upgraded_guard_is_held() {
    let lock = RwLock::new(0);
    let writer = match SafeLock::new(&lock).try_lock_immediate() {
        Ok(guard) => guard.upgrade(),
        Err(_) => panic!("the lock is free"),
    };
    let contender = match SafeLock::new(&lock).try_lock_immediate_err() {
        Ok(_) => panic!("the lock is held"),
        Err((handle, err)) => {
            assert!(matches!(err, TryLockError::WouldBlock));
            handle
        }
    };
    let contender = match contender.try_lock_immediate() {
        Ok(_) => panic!("the lock is held"),
        Err(handle) => handle,
    };
    drop(writer);
    assert!(contender.try_lock_immediate().is_ok());
}
