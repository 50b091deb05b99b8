use safe_lock::parking_lot::{SafeRwLock, WriteGuard};
use safe_lock::SafeLock;

#[derive(Debug)]
struct Pair {
    left: i32,
    right: i32,
}

#[test]
fn unlock_then_upgrade_writes_value() {
    let lock = parking_lot::RwLock::new(5);
    let handle: SafeRwLock<i32> = SafeLock::new(&lock);
    let guard = handle.lock_blocking();
    assert_eq!(*guard, 5);
    let handle = guard.unlock();
    let guard = handle.lock_blocking();
    {
        let mut writer = guard.upgrade();
        *writer = 10;
    }
    let again = SafeLock::new(&lock).lock_blocking();
    assert_eq!(*again, 10);
    let _handle = again.unlock();
    assert_eq!(*lock.read(), 10);
}

#[test]
fn unlock_releases_the_lock() {
    let lock = parking_lot::RwLock::new(1);
    let handle = SafeLock::new(&lock).lock_blocking().unlock();
    let other = SafeLock::new(&lock).try_lock_immediate();
    assert!(other.is_ok());
    drop(other);
    assert!(handle.try_lock_immediate().is_ok());
}

#[test]
fn inspection_guard_holds_write_lock() {
    let lock = parking_lot::RwLock::new(3);
    let guard = SafeLock::new(&lock).lock_blocking();
    assert!(lock.try_read().is_none());
    assert_eq!(*guard, 3);
    let _handle = guard.unlock();
    assert!(lock.try_read().is_some());
}

#[test]
fn immediate_fails_while_upgraded_guard_is_held() {
    let lock = parking_lot::RwLock::new(0);
    let mut writer = SafeLock::new(&lock).lock_blocking().upgrade();
    *writer = 7;
    let contender = SafeLock::new(&lock);
    let contender = match contender.try_lock_immediate_err() {
        Ok(_) => panic!("the lock is held"),
        Err((handle, err)) => {
            assert_eq!(err, ());
            handle
        }
    };
    let contender = match contender.try_lock_immediate() {
        Ok(_) => panic!("the lock is held"),
        Err(handle) => handle,
    };
    drop(writer);
    let guard = match contender.try_lock_immediate() {
        Ok(guard) => guard,
        Err(_) => panic!("the lock was released"),
    };
    assert_eq!(*guard, 7);
}

#[test]
fn lock_immediate_on_free_lock() {
    let lock = parking_lot::RwLock::new(2);
    let guard = match SafeLock::new(&lock).try_lock_immediate_err() {
        Ok(guard) => guard,
        Err(_) => panic!("the lock is free"),
    };
    assert_eq!(*guard, 2);
}

#[test]
fn blocking_attempts_on_free_lock_succeed() {
    let lock = parking_lot::RwLock::new(4);
    let handle = match SafeLock::new(&lock).try_lock_blocking() {
        Ok(guard) => guard.unlock(),
        Err(_) => panic!("blocking acquire cannot fail"),
    };
    match handle.try_lock_blocking_err() {
        Ok(guard) => assert_eq!(*guard, 4),
        Err(_) => panic!("blocking acquire cannot fail"),
    };
}

#[test]
fn map_projects_and_upgrade_writes_the_part() {
    let lock = parking_lot::RwLock::new(Pair { left: 1, right: 2 });
    let guard = SafeLock::new(&lock).lock_blocking();
    let mapped = guard.map(|p| &mut p.right);
    assert_eq!(*mapped, 2);
    {
        let mut part = mapped.upgrade();
        *part = 20;
    }
    let whole = lock.read();
    assert_eq!(whole.left, 1);
    assert_eq!(whole.right, 20);
}

#[test]
fn map_then_unlock_returns_whole_lock_handle() {
    let lock = parking_lot::RwLock::new(Pair { left: 1, right: 2 });
    let mapped = SafeLock::new(&lock).lock_blocking().map(|p| &mut p.left);
    assert_eq!(*mapped, 1);
    let handle = mapped.unlock();
    let guard = handle.lock_blocking();
    assert_eq!(guard.left, 1);
    assert_eq!(guard.right, 2);
}

#[test]
fn try_map_declined_keeps_lock_held() {
    let lock = parking_lot::RwLock::new(vec![1, 2, 3]);
    let guard = SafeLock::new(&lock).lock_blocking();
    let guard = match guard.try_map(|v| v.get_mut(10)) {
        Ok(_) => panic!("there is no such element"),
        Err(guard) => guard,
    };
    assert!(lock.try_read().is_none());
    assert_eq!(guard.len(), 3);
    let mapped = match guard.try_map(|v| v.get_mut(1)) {
        Ok(mapped) => mapped,
        Err(_) => panic!("the element exists"),
    };
    assert_eq!(*mapped, 2);
    *mapped.upgrade() = 9;
    assert_eq!(*lock.read(), vec![1, 9, 3]);
}

#[test]
fn map_guard_applies_the_projection() {
    let lock = parking_lot::RwLock::new(6);
    let guard = SafeLock::new(&lock).lock_blocking();
    let paired = guard.map_guard(|g: WriteGuard<i32>| {
        let seen = *g;
        (g, seen * 2)
    });
    let (writer, doubled) = paired.upgrade();
    assert_eq!(doubled, 12);
    assert_eq!(*writer, 6);
}

#[test]
fn try_map_guard_declined_returns_guard() {
    let lock = parking_lot::RwLock::new(8);
    let guard = SafeLock::new(&lock).lock_blocking();
    let guard = match guard.try_map_guard(|g: WriteGuard<i32>| -> Result<(WriteGuard<i32>, i32), WriteGuard<i32>> {
        if *g > 100 {
            Ok((g, 0))
        } else {
            Err(g)
        }
    }) {
        Ok(_) => panic!("the value is small"),
        Err(guard) => guard,
    };
    assert_eq!(*guard, 8);
    assert!(lock.try_read().is_none());
    let mapped = match guard.try_map_guard(|g: WriteGuard<i32>| -> Result<(WriteGuard<i32>, i32), WriteGuard<i32>> {
        let v = *g;
        Ok((g, v + 1))
    }) {
        Ok(mapped) => mapped,
        Err(_) => panic!("the projection accepts"),
    };
    let (_writer, next) = mapped.upgrade();
    assert_eq!(next, 9);
}

#[test]
fn try_map_guard_err_reports_error() {
    let lock = parking_lot::RwLock::new(8);
    let guard = SafeLock::new(&lock).lock_blocking();
    let result = guard.try_map_guard_err(|g: WriteGuard<i32>| -> Result<WriteGuard<i32>, (WriteGuard<i32>, &'static str)> {
        Err((g, "declined"))
    });
    let guard = match result {
        Ok(_) => panic!("the projection declines"),
        Err((guard, err)) => {
            assert_eq!(err, "declined");
            guard
        }
    };
    assert_eq!(*guard, 8);
    let handle = guard.unlock();
    let mapped = match handle.lock_blocking().try_map_guard_err(|g: WriteGuard<i32>| -> Result<WriteGuard<i32>, (WriteGuard<i32>, &'static str)> {
        Ok(g)
    }) {
        Ok(mapped) => mapped,
        Err(_) => panic!("the projection accepts"),
    };
    let mut writer = mapped.upgrade();
    *writer += 1;
    drop(writer);
    assert_eq!(*lock.read(), 9);
}
