use key_mutex::inner::default_lock;
use key_mutex::inner::LockMap;
use std::cell::Cell;
use std::sync::Arc;
use std::sync::Mutex;

type Locks = LockMap<u32, Mutex<Vec<u8>>>;

#[test]
fn new_map_has_no_entries() {
    let map = Locks::new();
    assert_eq!(map.len(), 0);
    assert!(map.is_empty());
    let map = Locks::default();
    assert_eq!(map.len(), 0);
    assert!(map.is_empty());
}

#[test]
fn obtain_creates_one_lock_per_key() {
    let map = Locks::new();
    let first = map.obtain(1);
    assert_eq!(map.len(), 1);
    assert!(!map.is_empty());
    let second = map.obtain(1);
    assert_eq!(map.len(), 1);
    assert!(Arc::ptr_eq(&first, &second));
    let third = map.obtain(2);
    assert_eq!(map.len(), 2);
    assert!(!Arc::ptr_eq(&first, &third));
}

#[test]
fn many_callers_get_the_same_lock() {
    let map = Locks::new();
    let locks: Vec<_> = (0..16).map(|_| map.obtain(7)).collect();
    assert_eq!(map.len(), 1);
    locks[0].lock().unwrap().push(3);
    for lock in &locks {
        assert!(Arc::ptr_eq(lock, &locks[0]));
        assert_eq!(*lock.lock().unwrap(), vec![3]);
    }
    // One reference for each caller, and the pool's own.
    assert_eq!(Arc::strong_count(&locks[0]), 17);
}

#[test]
fn obtained_lock_holds_the_default_value() {
    let map = Locks::new();
    assert_eq!(*map.obtain(1).lock().unwrap(), Vec::<u8>::new());
}

#[test]
fn obtain_returns_the_stored_lock_with_its_value() {
    let map = Locks::new();
    map.obtain(1).lock().unwrap().push(8);
    assert_eq!(*map.obtain(1).lock().unwrap(), vec![8]);
}

#[test]
fn remove_if_removes_when_the_predicate_agrees() {
    let map = Locks::new();
    map.obtain(1);
    map.obtain(2);
    assert!(map.remove_if(&1, |_| true));
    assert_eq!(map.len(), 1);
    assert!(!map.remove_if(&1, |_| true));
    assert_eq!(map.len(), 1);
}

#[test]
fn remove_if_keeps_when_the_predicate_refuses() {
    let map = Locks::new();
    map.obtain(1);
    assert!(!map.remove_if(&1, |_| false));
    assert_eq!(map.len(), 1);
}

#[test]
fn remove_if_skips_the_predicate_for_an_absent_key() {
    let map = Locks::new();
    map.obtain(2);
    let called = Cell::new(false);
    let removed = map.remove_if(&1, |_| {
        called.set(true);
        true
    });
    assert!(!removed);
    assert!(!called.get());
    assert_eq!(map.len(), 1);
}

#[test]
fn remove_if_shows_the_stored_lock_and_its_count() {
    let map = Locks::new();
    let held = map.obtain(1);
    let seen = Cell::new(0);
    let removed = map.remove_if(&1, |lock| {
        assert!(Arc::ptr_eq(lock, &held));
        seen.set(Arc::strong_count(lock));
        false
    });
    assert!(!removed);
    assert_eq!(seen.get(), 2);
    drop(held);
    map.remove_if(&1, |lock| {
        seen.set(Arc::strong_count(lock));
        false
    });
    assert_eq!(seen.get(), 1);
}

#[test]
fn clone_refers_to_the_same_map() {
    let map = Locks::new();
    let other = map.clone();
    let lock = other.obtain(5);
    assert_eq!(map.len(), 1);
    assert!(Arc::ptr_eq(&lock, &map.obtain(5)));
    assert!(map.remove_if(&5, |_| true));
    assert!(other.is_empty());
}

#[test]
fn default_lock_holds_the_default_value() {
    let lock = default_lock::<Mutex<Vec<u8>>>();
    assert_eq!(*lock.lock().unwrap(), Vec::<u8>::new());
    assert_eq!(Arc::strong_count(&lock), 1);
    let other = default_lock::<Mutex<Vec<u8>>>();
    assert!(!Arc::ptr_eq(&lock, &other));
}
