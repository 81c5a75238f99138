//! The trusted boundary of the crate.
//!
//! Everything the pool borrows from elsewhere passes through this file: the
//! concurrent map (`dashmap`), the owned lock guards (`guardian`), and the
//! parts of `std::sync` that have no specification in `vstd`. Verus accepts
//! the contracts written here without proof. Almost all of them are empty:
//! the map and the locks are shared between threads, so what a call observes
//! is decided by every thread that holds a reference, and no function of the
//! arguments describes it.
use dashmap::DashMap;
use dashmap::DashSet;
use guardian::ArcMutexGuardian;
use guardian::ArcRwLockReadGuardian;
use guardian::ArcRwLockWriteGuardian;
use std::hash::Hash;
use std::sync::Arc;
use std::sync::Mutex;
use std::sync::PoisonError;
use std::sync::RwLock;
use vstd::prelude::*;

verus! {

/// `dashmap::DashMap`, carried as an opaque value.
#[verifier::external_type_specification]
#[verifier::external_body]
#[verifier::reject_recursive_types(K)]
#[verifier::reject_recursive_types(V)]
#[verifier::reject_recursive_types(S)]
pub struct ExDashMap<K, V, S>(DashMap<K, V, S>);

/// `dashmap::DashSet`, carried as an opaque value.
#[verifier::external_type_specification]
#[verifier::external_body]
#[verifier::reject_recursive_types(K)]
#[verifier::reject_recursive_types(S)]
pub struct ExDashSet<K, S>(DashSet<K, S>);

/// `std::sync::Mutex`, carried as an opaque value.
#[verifier::external_type_specification]
#[verifier::external_body]
#[verifier::reject_recursive_types(T)]
pub struct ExMutex<T: ?Sized>(Mutex<T>);

/// `std::sync::RwLock`, carried as an opaque value.
#[verifier::external_type_specification]
#[verifier::external_body]
#[verifier::reject_recursive_types(T)]
pub struct ExRwLock<T: ?Sized>(RwLock<T>);

/// `std::sync::PoisonError`, carried as an opaque value.
#[verifier::external_type_specification]
#[verifier::external_body]
#[verifier::reject_recursive_types(T)]
pub struct ExPoisonError<T>(PoisonError<T>);

/// `guardian::ArcMutexGuardian`, carried as an opaque value.
#[verifier::external_type_specification]
#[verifier::external_body]
#[verifier::reject_recursive_types(T)]
pub struct ExArcMutexGuardian<T: ?Sized + 'static>(ArcMutexGuardian<T>);

/// `guardian::ArcRwLockReadGuardian`, carried as an opaque value.
#[verifier::external_type_specification]
#[verifier::external_body]
#[verifier::reject_recursive_types(T)]
pub struct ExArcRwLockReadGuardian<T: ?Sized + 'static>(ArcRwLockReadGuardian<T>);

/// `guardian::ArcRwLockWriteGuardian`, carried as an opaque value.
#[verifier::external_type_specification]
#[verifier::external_body]
#[verifier::reject_recursive_types(T)]
pub struct ExArcRwLockWriteGuardian<T: ?Sized + 'static>(ArcRwLockWriteGuardian<T>);

/// `DashMap::new`. Nothing is claimed of the map that comes back.
#[verifier::external_body]
pub(crate) fn map_new<K: Eq + Hash, L>() -> (map: DashMap<K, Arc<L>>) {
    DashMap::new()
}

/// `DashMap::len`. The count is taken shard by shard while other threads may
/// insert and remove, so nothing is claimed of it.
#[verifier::external_body]
pub(crate) fn map_len<K: Eq + Hash, L>(map: &DashMap<K, Arc<L>>) -> (count: usize) {
    map.len()
}

/// `DashMap::is_empty`. As with `map_len`, nothing is claimed of the answer.
#[verifier::external_body]
pub(crate) fn map_is_empty<K: Eq + Hash, V>(map: &DashMap<K, V>) -> (empty: bool) {
    map.is_empty()
}

/// `DashSet::is_empty`. Nothing is claimed of the answer.
#[verifier::external_body]
pub(crate) fn set_is_empty<K: Eq + Hash>(set: &DashSet<K>) -> (empty: bool) {
    set.is_empty()
}

/// `DashMap::entry` followed by `Entry::or_insert_with`, and a clone of the
/// pointer taken while the entry is still locked. The factory runs at most
/// once, and only when the key has no entry. Which of the two happened is not
/// reported, so nothing is claimed of the pointer that comes back.
#[verifier::external_body]
pub(crate) fn map_get_or_insert_with<K: Eq + Hash, L, F: FnOnce() -> Arc<L>>(
    map: &DashMap<K, Arc<L>>,
    key: K,
    factory: F,
) -> (lock: Arc<L>)
    requires
        call_requires(factory, ()),
{
    map.entry(key).or_insert_with(factory).clone()
}

/// `DashMap::remove_if`, with `judge` applied to `carried` and the stored
/// pointer as its predicate. The map calls the predicate at most once, on the
/// pointer stored under `key`, while it holds the write lock of that key's
/// shard. It removes the entry, and hands it out, only when the predicate
/// answered `true`: so a removed entry means that some call of `judge` on
/// `carried` returned `true`.
#[verifier::external_body]
pub(crate) fn map_remove_if<K: Eq + Hash, L, C, J: FnOnce(C, &Arc<L>) -> bool>(
    map: &DashMap<K, Arc<L>>,
    key: &K,
    carried: C,
    judge: J,
) -> (removed: Option<(K, Arc<L>)>)
    requires
        forall|lock: &Arc<L>| call_requires(judge, (carried, lock)),
    ensures
        removed is Some ==> exists|lock: &Arc<L>| call_ensures(judge, (carried, lock), true),
{
    map.remove_if(key, |_, lock| judge(carried, lock))
}

/// `Arc::clone`: one more pointer to the same allocation. Verus identifies an
/// `Arc` with the value it points to, so the new pointer equals the old one.
#[verifier::external_body]
pub(crate) fn arc_share<T>(pointer: &Arc<T>) -> (shared: Arc<T>)
    ensures
        shared == *pointer,
{
    Arc::clone(pointer)
}

/// `Arc::strong_count`. Other threads clone and drop pointers to the same
/// allocation at any time, so nothing is claimed of the count.
#[verifier::external_body]
pub(crate) fn arc_strong_count<T>(pointer: &Arc<T>) -> (count: usize) {
    Arc::strong_count(pointer)
}

/// `PoisonError::into_inner`: the guard that the error carries.
#[verifier::external_body]
pub(crate) fn poison_into_inner<G>(error: PoisonError<G>) -> (guard: G) {
    error.into_inner()
}

/// `ArcMutexGuardian::take`. Blocks until the mutex is acquired; the error
/// says that an earlier holder panicked. Which one comes back is decided by
/// the mutex.
#[verifier::external_body]
pub(crate) fn take_mutex<V: 'static>(lock: Arc<Mutex<V>>) -> (taken: Result<
    ArcMutexGuardian<V>,
    PoisonError<ArcMutexGuardian<V>>,
>) {
    ArcMutexGuardian::take(lock)
}

/// `ArcRwLockReadGuardian::take`. Blocks until shared access is granted; the
/// error says that an earlier writer panicked.
#[verifier::external_body]
pub(crate) fn take_read<V: 'static>(lock: Arc<RwLock<V>>) -> (taken: Result<
    ArcRwLockReadGuardian<V>,
    PoisonError<ArcRwLockReadGuardian<V>>,
>) {
    ArcRwLockReadGuardian::take(lock)
}

/// `ArcRwLockWriteGuardian::take`. Blocks until exclusive access is granted;
/// the error says that an earlier writer panicked.
#[verifier::external_body]
pub(crate) fn take_write<V: 'static>(lock: Arc<RwLock<V>>) -> (taken: Result<
    ArcRwLockWriteGuardian<V>,
    PoisonError<ArcRwLockWriteGuardian<V>>,
>) {
    ArcRwLockWriteGuardian::take(lock)
}

} // verus!
