use guardian::ArcMutexGuardian;
use guardian::ArcRwLockReadGuardian;
use guardian::ArcRwLockWriteGuardian;
use key_mutex::inner::conclude;
use key_mutex::inner::judge_released;
use key_mutex::inner::plan_release;
use key_mutex::inner::sole_owner;
use key_mutex::inner::Access;
use key_mutex::inner::KeyRef;
use key_mutex::inner::LockMap;
use key_mutex::inner::ReleaseOutcome;
use key_mutex::inner::ReleasePlan;
use std::sync::Arc;
use std::sync::Mutex;
use std::sync::RwLock;

type Locks = LockMap<u32, Mutex<Vec<u8>>>;

#[test]
fn plan_depends_on_access_and_emptiness() {
    assert_eq!(plan_release(Access::Exclusive, true), ReleasePlan::ConditionalRemove);
    assert_eq!(plan_release(Access::Exclusive, false), ReleasePlan::Plain);
    assert_eq!(plan_release(Access::ExclusiveWrite, true), ReleasePlan::ConditionalRemove);
    assert_eq!(plan_release(Access::ExclusiveWrite, false), ReleasePlan::Plain);
    assert_eq!(plan_release(Access::SharedRead, true), ReleasePlan::Plain);
    assert_eq!(plan_release(Access::SharedRead, false), ReleasePlan::Plain);
}

#[test]
fn sole_owner_is_a_count_of_one() {
    assert!(!sole_owner(0));
    assert!(sole_owner(1));
    assert!(!sole_owner(2));
    assert!(!sole_owner(usize::MAX));
}

#[test]
fn conclude_names_the_outcome() {
    assert_eq!(conclude(ReleasePlan::Plain, false), ReleaseOutcome::Retained);
    assert_eq!(conclude(ReleasePlan::Plain, true), ReleaseOutcome::Retained);
    assert_eq!(conclude(ReleasePlan::ConditionalRemove, true), ReleaseOutcome::Evicted);
    assert_eq!(conclude(ReleasePlan::ConditionalRemove, false), ReleaseOutcome::Shared);
}

#[test]
fn key_ref_keeps_its_key() {
    let map = Locks::new();
    let key_ref = KeyRef::new(&map, 9);
    assert_eq!(key_ref.key, 9);
    assert_eq!(*key_ref.key(), 9);
}

#[test]
fn key_ref_releases_into_the_map_it_was_made_from() {
    let map = Locks::new();
    let other = Locks::new();
    other.obtain(1);
    let guard = ArcMutexGuardian::take(map.obtain(1)).unwrap();
    let outcome = KeyRef::new(&map, 1).release(Access::Exclusive, guard, true);
    assert_eq!(outcome, ReleaseOutcome::Evicted);
    assert_eq!(map.len(), 0);
    assert_eq!(other.len(), 1);
}

#[test]
fn plain_release_unlocks_and_keeps_the_entry() {
    let map = Locks::new();
    let lock = map.obtain(1);
    let mut guard = ArcMutexGuardian::take(map.obtain(1)).unwrap();
    guard.push(1);
    assert!(lock.try_lock().is_err());
    let outcome = KeyRef::new(&map, 1).release(Access::Exclusive, guard, false);
    assert_eq!(outcome, ReleaseOutcome::Retained);
    assert_eq!(map.len(), 1);
    assert_eq!(*lock.try_lock().unwrap(), vec![1]);
    assert_eq!(Arc::strong_count(&lock), 2);
}

#[test]
fn release_of_the_last_reference_evicts() {
    let map = Locks::new();
    let guard = ArcMutexGuardian::take(map.obtain(1)).unwrap();
    assert_eq!(map.len(), 1);
    let outcome = KeyRef::new(&map, 1).release(Access::Exclusive, guard, true);
    assert_eq!(outcome, ReleaseOutcome::Evicted);
    assert_eq!(map.len(), 0);
}

#[test]
fn release_beside_another_reference_leaves_the_entry() {
    let map = Locks::new();
    let newcomer = map.obtain(1);
    let guard = ArcMutexGuardian::take(map.obtain(1)).unwrap();
    let outcome = KeyRef::new(&map, 1).release(Access::Exclusive, guard, true);
    assert_eq!(outcome, ReleaseOutcome::Shared);
    assert_eq!(map.len(), 1);
    // The newcomer's lock is the one that the pool still keeps, and it is unlocked.
    assert!(Arc::ptr_eq(&newcomer, &map.obtain(1)));
    newcomer.try_lock().unwrap().push(4);
    drop(newcomer);
    let guard = ArcMutexGuardian::take(map.obtain(1)).unwrap();
    assert_eq!(*guard, vec![4]);
}

#[test]
fn obtain_after_eviction_creates_a_new_lock() {
    let map = Locks::new();
    let mut guard = ArcMutexGuardian::take(map.obtain(1)).unwrap();
    guard.push(1);
    guard.clear();
    let outcome = KeyRef::new(&map, 1).release(Access::Exclusive, guard, true);
    assert_eq!(outcome, ReleaseOutcome::Evicted);
    let newcomer = map.obtain(1);
    assert_eq!(map.len(), 1);
    assert!(Arc::ptr_eq(&newcomer, &map.obtain(1)));
    assert_eq!(*newcomer.try_lock().unwrap(), Vec::<u8>::new());
}

#[test]
fn release_for_a_key_without_entry_changes_nothing() {
    let map = Locks::new();
    map.obtain(2);
    let stray = Arc::new(Mutex::new(Vec::<u8>::new()));
    let guard = ArcMutexGuardian::take(stray.clone()).unwrap();
    let outcome = KeyRef::new(&map, 1).release(Access::Exclusive, guard, true);
    assert_eq!(outcome, ReleaseOutcome::Shared);
    assert_eq!(map.len(), 1);
    assert!(stray.try_lock().is_ok());
}

#[test]
fn reader_release_never_asks_the_pool() {
    let map = LockMap::<u32, RwLock<Vec<u8>>>::new();
    let guard = ArcRwLockReadGuardian::take(map.obtain(1)).unwrap();
    let outcome = KeyRef::new(&map, 1).release(Access::SharedRead, guard, true);
    assert_eq!(outcome, ReleaseOutcome::Retained);
    assert_eq!(map.len(), 1);
    assert!(map.obtain(1).try_write().is_ok());
}

#[test]
fn writer_release_evicts_an_empty_value() {
    let map = LockMap::<u32, RwLock<Vec<u8>>>::new();
    let guard = ArcRwLockWriteGuardian::take(map.obtain(1)).unwrap();
    let outcome = KeyRef::new(&map, 1).release(Access::ExclusiveWrite, guard, true);
    assert_eq!(outcome, ReleaseOutcome::Evicted);
    assert_eq!(map.len(), 0);
}

#[test]
fn on_drop_asks_the_value_and_empties_the_slot() {
    let map = Locks::new();
    let key_ref = KeyRef::new(&map, 1);

    let mut guard = ArcMutexGuardian::take(map.obtain(1)).unwrap();
    guard.push(1);
    let mut slot = Some(guard);
    assert_eq!(key_ref.on_drop(Access::Exclusive, &mut slot), ReleaseOutcome::Retained);
    assert!(slot.is_none());
    assert_eq!(map.len(), 1);

    let mut guard = ArcMutexGuardian::take(map.obtain(1)).unwrap();
    guard.clear();
    let mut slot = Some(guard);
    assert_eq!(key_ref.on_drop(Access::Exclusive, &mut slot), ReleaseOutcome::Evicted);
    assert!(slot.is_none());
    assert_eq!(map.len(), 0);
}

#[test]
fn on_drop_without_access_does_nothing() {
    let map = Locks::new();
    map.obtain(1);
    let mut slot: Option<ArcMutexGuardian<Vec<u8>>> = None;
    let outcome = KeyRef::new(&map, 1).on_drop(Access::Exclusive, &mut slot);
    assert_eq!(outcome, ReleaseOutcome::Retained);
    assert!(slot.is_none());
    assert_eq!(map.len(), 1);
}

#[test]
fn on_drop_for_a_reader_leaves_an_empty_value_in_place() {
    let map = LockMap::<u32, RwLock<Vec<u8>>>::new();
    let mut slot = Some(ArcRwLockReadGuardian::take(map.obtain(1)).unwrap());
    let outcome = KeyRef::new(&map, 1).on_drop(Access::SharedRead, &mut slot);
    assert_eq!(outcome, ReleaseOutcome::Retained);
    assert!(slot.is_none());
    assert_eq!(map.len(), 1);
}

#[test]
fn on_drop_beside_a_waiting_caller_leaves_the_entry() {
    let map = Locks::new();
    let waiting = map.obtain(1);
    let mut slot = Some(ArcMutexGuardian::take(map.obtain(1)).unwrap());
    let outcome = KeyRef::new(&map, 1).on_drop(Access::Exclusive, &mut slot);
    assert_eq!(outcome, ReleaseOutcome::Shared);
    assert_eq!(map.len(), 1);
    assert!(Arc::ptr_eq(&waiting, &map.obtain(1)));
}

#[test]
fn reference_dropped_before_acquisition_leaves_its_entry() {
    let map = Locks::new();
    let abandoned = map.obtain(1);
    drop(abandoned);
    assert_eq!(map.len(), 1);
    let mut slot = Some(ArcMutexGuardian::take(map.obtain(1)).unwrap());
    let outcome = KeyRef::new(&map, 1).on_drop(Access::Exclusive, &mut slot);
    assert_eq!(outcome, ReleaseOutcome::Evicted);
    assert_eq!(map.len(), 0);
}

#[test]
fn judge_released_gives_the_guard_up_before_it_counts() {
    let lock = Arc::new(Mutex::new(Vec::<u8>::new()));
    let guard = ArcMutexGuardian::take(lock.clone()).unwrap();
    // The guard held the second reference: once it is gone, one is left.
    assert_eq!(Arc::strong_count(&lock), 2);
    assert!(judge_released(guard, &lock));
    assert!(lock.try_lock().is_ok());
    assert_eq!(Arc::strong_count(&lock), 1);
}

#[test]
fn judge_released_refuses_while_another_reference_lives() {
    let lock = Arc::new(Mutex::new(Vec::<u8>::new()));
    let other = lock.clone();
    let guard = ArcMutexGuardian::take(lock.clone()).unwrap();
    assert!(!judge_released(guard, &lock));
    assert!(other.try_lock().is_ok());
}

#[test]
fn remove_released_removes_an_entry_that_nobody_else_refers_to() {
    let map = Locks::new();
    let guard = ArcMutexGuardian::take(map.obtain(1)).unwrap();
    assert!(map.remove_released(&1, guard));
    assert_eq!(map.len(), 0);
}

#[test]
fn remove_released_keeps_an_entry_that_somebody_refers_to() {
    let map = Locks::new();
    let waiting = map.obtain(1);
    let guard = ArcMutexGuardian::take(map.obtain(1)).unwrap();
    assert!(!map.remove_released(&1, guard));
    assert_eq!(map.len(), 1);
    assert!(waiting.try_lock().is_ok());
}

#[test]
fn remove_released_gives_the_guard_up_for_a_key_without_entry() {
    let map = Locks::new();
    let stray = Arc::new(Mutex::new(Vec::<u8>::new()));
    let guard = ArcMutexGuardian::take(stray.clone()).unwrap();
    assert!(!map.remove_released(&1, guard));
    assert!(stray.try_lock().is_ok());
    assert_eq!(Arc::strong_count(&stray), 1);
}
