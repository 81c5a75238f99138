use guardian::ArcMutexGuardian;
use guardian::ArcRwLockReadGuardian;
use guardian::ArcRwLockWriteGuardian;
use key_mutex::inner::Access;
use key_mutex::inner::Handle;
use key_mutex::inner::LockMap;
use std::sync::Arc;
use std::sync::Mutex;
use std::sync::RwLock;

type Locks = LockMap<u32, Mutex<Vec<u8>>>;

fn acquire(map: &Locks, key: u32) -> Handle<u32, Mutex<Vec<u8>>, ArcMutexGuardian<Vec<u8>>> {
    let raw = ArcMutexGuardian::take(map.obtain(key)).unwrap();
    Handle::new(map, key, Access::Exclusive, raw)
}

#[test]
fn handle_remembers_key_and_access() {
    let map = Locks::new();
    let handle = acquire(&map, 6);
    assert_eq!(*handle.key(), 6);
    assert_eq!(handle.access(), Access::Exclusive);
}

#[test]
fn handle_reads_and_writes_the_value_behind_its_lock() {
    let map = Locks::new();
    let mut handle = acquire(&map, 1);
    assert_eq!(*handle.value(), Vec::<u8>::new());
    handle.value_mut().push(3);
    assert_eq!(*handle.value(), vec![3]);
    drop(handle);
    assert_eq!(*map.obtain(1).lock().unwrap(), vec![3]);
}

#[test]
fn handle_holds_its_lock_until_dropped() {
    let map = Locks::new();
    let lock = map.obtain(1);
    let mut handle = acquire(&map, 1);
    handle.value_mut().push(1);
    assert!(lock.try_lock().is_err());
    drop(handle);
    assert!(lock.try_lock().is_ok());
}

#[test]
fn dropped_handle_evicts_an_empty_value() {
    let map = Locks::new();
    let handle = acquire(&map, 1);
    assert_eq!(map.len(), 1);
    drop(handle);
    assert_eq!(map.len(), 0);
}

#[test]
fn dropped_handle_keeps_a_value_that_is_not_empty() {
    let map = Locks::new();
    let mut handle = acquire(&map, 1);
    handle.value_mut().push(1);
    drop(handle);
    assert_eq!(map.len(), 1);
}

#[test]
fn dropped_handle_keeps_an_entry_that_somebody_waits_for() {
    let map = Locks::new();
    let handle = acquire(&map, 1);
    let waiting = map.obtain(1);
    drop(handle);
    assert_eq!(map.len(), 1);
    assert!(Arc::ptr_eq(&waiting, &map.obtain(1)));
    // The one who waited gets the lock, and its release evicts.
    let raw = ArcMutexGuardian::take(waiting).unwrap();
    drop(Handle::new(&map, 1, Access::Exclusive, raw));
    assert_eq!(map.len(), 0);
}

#[test]
fn dropped_reader_leaves_the_pool_alone() {
    let map = LockMap::<u32, RwLock<Vec<u8>>>::new();
    let raw = ArcRwLockReadGuardian::take(map.obtain(1)).unwrap();
    let reader = Handle::new(&map, 1, Access::SharedRead, raw);
    assert_eq!(reader.access(), Access::SharedRead);
    assert!(reader.value().is_empty());
    drop(reader);
    assert_eq!(map.len(), 1);
}

#[test]
fn dropped_writer_evicts_an_empty_value() {
    let map = LockMap::<u32, RwLock<Vec<u8>>>::new();
    let raw = ArcRwLockWriteGuardian::take(map.obtain(1)).unwrap();
    let mut writer = Handle::new(&map, 1, Access::ExclusiveWrite, raw);
    writer.value_mut().push(1);
    writer.value_mut().clear();
    drop(writer);
    assert_eq!(map.len(), 0);
}

#[test]
fn handle_releases_into_the_pool_it_was_bound_to() {
    let map = Locks::new();
    let other = Locks::new();
    other.obtain(1);
    drop(acquire(&map, 1));
    assert_eq!(map.len(), 0);
    assert_eq!(other.len(), 1);
}
