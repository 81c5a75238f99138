//! Keyed mutexes and read-write locks that block the calling thread, built on
//! `std::sync::Mutex` and `std::sync::RwLock`.
use crate::empty::Empty;
use crate::inner::Access;
use crate::inner::lends;
use crate::inner::Handle;
use crate::inner::LockMap;
use crate::raw::poison_into_inner;
use crate::raw::take_mutex;
use crate::raw::take_read;
use crate::raw::take_write;
use guardian::ArcMutexGuardian;
use guardian::ArcRwLockReadGuardian;
use guardian::ArcRwLockWriteGuardian;
use std::hash::Hash;
use std::ops::Deref;
use std::ops::DerefMut;
use std::sync::Arc;
use std::sync::Mutex;
use std::sync::PoisonError;
use std::sync::RwLock;
use vstd::prelude::*;

verus! {

/// The error of an acquisition that found its lock poisoned: an earlier holder
/// panicked while it had access. The access was granted all the same, and the
/// error carries it, so that the caller can look at the value and repair it.
pub struct Poisoned<G> {
    guard: G,
}

impl<G> View for Poisoned<G> {
    type V = G;

    /// The access that the error carries.
    closed spec fn view(&self) -> G {
        self.guard
    }
}

impl<G> Poisoned<G> {
    pub fn new(guard: G) -> (poisoned: Self)
        ensures
            poisoned@ == guard,
    {
        Poisoned { guard }
    }

    /// Takes the access out of the error.
    pub fn into_inner(self) -> (guard: G)
        ensures
            guard == self@,
    {
        self.guard
    }

    /// The access that the error carries.
    pub fn get_ref(&self) -> (guard: &G)
        ensures
            *guard == self@,
    {
        &self.guard
    }

    /// The access that the error carries, for writing through it.
    pub fn get_mut(&mut self) -> (guard: &mut G)
        ensures
            *guard == old(self)@,
            final(self)@ == *final(guard),
    {
        &mut self.guard
    }
}

/// The result of a blocking acquisition: the access, or the access inside the
/// error that reports the poison.
pub type LockResult<G> = Result<G, Poisoned<G>>;

/// Whether `result` carries what the lock reported in `taken`: the guard
/// itself, or the guard that `PoisonError::into_inner` took out of the error.
pub closed spec fn spec_acquired<G>(taken: Result<G, PoisonError<G>>, result: LockResult<G>) -> bool {
    match taken {
        Ok(guard) => result == Ok::<G, Poisoned<G>>(guard),
        Err(error) => result matches Err(poisoned) && call_ensures(
            poison_into_inner::<G>,
            (error,),
            poisoned@,
        ),
    }
}

/// Turns what the lock reported into a `LockResult`, poison for poison.
fn acquired<G>(taken: Result<G, PoisonError<G>>) -> (result: LockResult<G>)
    ensures
        spec_acquired(taken, result),
        result is Ok <==> taken is Ok,
{
    match taken {
        Ok(guard) => Ok(guard),
        Err(error) => Err(Poisoned::new(poison_into_inner(error))),
    }
}

/// Applies `f` to the access inside `result`, poisoned or not, and keeps the
/// poison as it was.
pub fn map_guard<G, R>(result: LockResult<G>, f: impl FnOnce(G) -> R) -> (mapped: LockResult<R>)
    requires
        match result {
            Ok(guard) => call_requires(f, (guard,)),
            Err(poisoned) => call_requires(f, (poisoned@,)),
        },
    ensures
        match result {
            Ok(guard) => mapped matches Ok(handle) && call_ensures(f, (guard,), handle),
            Err(poisoned) => mapped matches Err(error) && call_ensures(f, (poisoned@,), error@),
        },
{
    match result {
        Ok(guard) => Ok(f(guard)),
        Err(poisoned) => Err(Poisoned::new(f(poisoned.into_inner()))),
    }
}

/// Exclusive access to the value that a `KeyMutex` keeps under one key.
/// Dropping the handle gives the access up and removes the entry from the pool
/// if the value is empty and nobody else refers to its mutex.
#[verifier::reject_recursive_types(K)]
#[verifier::reject_recursive_types(V)]
pub struct OwnedMutexGuard<K: Eq + Hash, V: Empty + 'static>(
    Handle<K, Mutex<V>, ArcMutexGuardian<V>>,
);

impl<K: Eq + Hash, V: Empty + 'static> OwnedMutexGuard<K, V> {
    /// The handle inside: the raw guard with its key, its pool and its kind
    /// of access.
    pub closed spec fn spec_handle(&self) -> Handle<K, Mutex<V>, ArcMutexGuardian<V>> {
        self.0
    }

    /// The key that the handle was acquired for.
    pub closed spec fn spec_key(&self) -> K {
        self.0.spec_key()
    }

    /// The pool that the handle came from, and that it releases into.
    pub closed spec fn spec_pool(&self) -> LockMap<K, Mutex<V>> {
        self.0.spec_map()
    }

    /// The kind of access that the handle grants: the only access there is.
    pub closed spec fn spec_access(&self) -> Access {
        self.0.spec_access()
    }

    pub fn key(&self) -> (key: &K)
        ensures
            *key == self.spec_key(),
    {
        self.0.key()
    }
}

impl<K: Eq + Hash, V: Empty + 'static> Deref for OwnedMutexGuard<K, V> {
    type Target = V;

    /// The value behind the lock: what the handle's raw guard gives out.
    fn deref(&self) -> (value: &V)
        ensures
            self.spec_handle().shows(value),
    {
        self.0.value()
    }
}

impl<K: Eq + Hash, V: Empty + 'static> DerefMut for OwnedMutexGuard<K, V> {
    /// The value behind the lock, for writing: what the handle's raw guard
    /// gives out. The handle keeps its key, its pool and its kind of access.
    fn deref_mut(&mut self) -> (value: &mut V)
        ensures
            final(self).spec_key() == old(self).spec_key(),
            final(self).spec_pool() == old(self).spec_pool(),
            final(self).spec_access() == old(self).spec_access(),
            exists|raw: &mut ArcMutexGuardian<V>|
                *raw == old(self).spec_handle().spec_raw()
                    && *final(raw) == final(self).spec_handle().spec_raw()
                    && #[trigger] lends(raw, value),
    {
        self.0.value_mut()
    }
}

/// A pool of mutexes, one per key. Clones refer to the same pool.
#[verifier::reject_recursive_types(K)]
#[verifier::reject_recursive_types(V)]
pub struct KeyMutex<K: Eq + Hash, V>(LockMap<K, Mutex<V>>);

impl<K: Eq + Hash, V> KeyMutex<K, V> {
    /// The map that holds the pool's mutexes.
    pub closed spec fn spec_pool(&self) -> LockMap<K, Mutex<V>> {
        self.0
    }
}

impl<K: Eq + Hash, V> Clone for KeyMutex<K, V> {
    fn clone(&self) -> (pool: Self)
        ensures
            pool.spec_pool() == self.spec_pool(),
    {
        KeyMutex(self.0.clone())
    }
}

impl<K: Eq + Hash, V> Default for KeyMutex<K, V> {
    fn default() -> (pool: Self)
        ensures
            pool.spec_pool().made_new(),
    {
        KeyMutex(LockMap::new())
    }
}

impl<K: Eq + Hash + Clone, V: Empty + Default + 'static> KeyMutex<K, V> {
    /// A pool of its own, with no entries.
    pub fn new() -> (pool: Self)
        ensures
            pool.spec_pool().made_new(),
    {
        KeyMutex(LockMap::new())
    }

    /// Whether `result` is what acquiring the mutex of `key` in this pool
    /// gave. The pool's map was asked for the lock of a clone of `key`; that
    /// lock was taken; a guard that came back clean is the raw guard of the
    /// handle in `Ok`, and a guard that came back inside a poison error is the
    /// raw guard of the handle in `Err`.
    pub closed spec fn lock_granted(&self, key: K, result: LockResult<OwnedMutexGuard<K, V>>) -> bool {
        exists|
            asked: K,
            lock: Arc<Mutex<V>>,
            taken: Result<ArcMutexGuardian<V>, PoisonError<ArcMutexGuardian<V>>>,
        |
            #![trigger self.spec_pool().obtained(asked, lock), call_ensures(take_mutex::<V>, (lock,), taken)]
            {
                &&& call_ensures(K::clone, (&key,), asked)
                &&& self.spec_pool().obtained(asked, lock)
                &&& call_ensures(take_mutex::<V>, (lock,), taken)
                &&& match taken {
                    Ok(guard) => result matches Ok(handle) && handle.spec_handle().spec_raw()
                        == guard,
                    Err(error) => result matches Err(poisoned) && call_ensures(
                        poison_into_inner::<ArcMutexGuardian<V>>,
                        (error,),
                        poisoned@.spec_handle().spec_raw(),
                    ),
                }
            }
    }

    /// Blocks until the mutex of `key` is acquired, creating it around a
    /// default value if the key has no entry. The handle that comes back, in
    /// the result or in its error, is bound to `key` and to this pool. An error
    /// reports that an earlier holder panicked; whether it comes is decided by
    /// the mutex.
    ///
    /// The call does not return while another handle for `key` is alive. A
    /// thread that asks for a key it already holds waits for itself.
    pub fn lock(&self, key: K) -> (result: LockResult<OwnedMutexGuard<K, V>>)
        ensures
            self.lock_granted(key, result),
            match result {
                Ok(handle) => {
                    &&& handle.spec_key() == key
                    &&& handle.spec_pool() == self.spec_pool()
                    &&& handle.spec_access() == Access::Exclusive
                },
                Err(poisoned) => {
                    &&& poisoned@.spec_key() == key
                    &&& poisoned@.spec_pool() == self.spec_pool()
                    &&& poisoned@.spec_access() == Access::Exclusive
                },
            },
    {
        let asked = key.clone();
        let lock = self.0.obtain(asked);
        let taken = take_mutex(lock);
        let clean = acquired(taken);
        let bind = |guard: ArcMutexGuardian<V>| -> (handle: OwnedMutexGuard<K, V>)
            ensures
                handle.spec_key() == key,
                handle.spec_pool() == self.spec_pool(),
                handle.spec_access() == Access::Exclusive,
                handle.spec_handle().spec_raw() == guard,
            { OwnedMutexGuard(Handle::new(&self.0, key, Access::Exclusive, guard)) };
        let result = map_guard(clean, bind);
        proof {
            assert(self.spec_pool().obtained(asked, lock));
            assert(call_ensures(take_mutex::<V>, (lock,), taken));
            assert(self.lock_granted(key, result));
        }
        result
    }

    /// The number of entries that the pool's map counted. Other holders of
    /// the pool may add and remove entries while it counts.
    pub fn len(&self) -> (count: usize)
        ensures
            self.spec_pool().counted(count),
    {
        self.0.len()
    }

    /// Whether the pool's map counted no entry.
    pub fn is_empty(&self) -> (empty: bool)
        ensures
            self.spec_pool().answered_empty(empty),
    {
        self.0.is_empty()
    }
}

/// Shared access, for reading, to the value that a `KeyRwLock` keeps under one
/// key. Dropping the handle gives the access up and leaves the pool alone: a
/// reader cannot have emptied the value.
#[verifier::reject_recursive_types(K)]
#[verifier::reject_recursive_types(V)]
pub struct OwnedReadGuard<K: Eq + Hash, V: Empty + 'static>(
    Handle<K, RwLock<V>, ArcRwLockReadGuardian<V>>,
);

impl<K: Eq + Hash, V: Empty + 'static> OwnedReadGuard<K, V> {
    /// The handle inside: the raw guard with its key, its pool and its kind
    /// of access.
    pub closed spec fn spec_handle(&self) -> Handle<K, RwLock<V>, ArcRwLockReadGuardian<V>> {
        self.0
    }

    /// The key that the handle was acquired for.
    pub closed spec fn spec_key(&self) -> K {
        self.0.spec_key()
    }

    /// The pool that the handle came from, and that it releases into.
    pub closed spec fn spec_pool(&self) -> LockMap<K, RwLock<V>> {
        self.0.spec_map()
    }

    /// The kind of access that the handle grants: access for reading.
    pub closed spec fn spec_access(&self) -> Access {
        self.0.spec_access()
    }

    pub fn key(&self) -> (key: &K)
        ensures
            *key == self.spec_key(),
    {
        self.0.key()
    }
}

impl<K: Eq + Hash, V: Empty + 'static> Deref for OwnedReadGuard<K, V> {
    type Target = V;

    /// The value behind the lock: what the handle's raw guard gives out.
    fn deref(&self) -> (value: &V)
        ensures
            self.spec_handle().shows(value),
    {
        self.0.value()
    }
}

/// Exclusive access, for writing, to the value that a `KeyRwLock` keeps under
/// one key. Dropping the handle gives the access up and removes the entry from
/// the pool if the value is empty and nobody else refers to its lock.
#[verifier::reject_recursive_types(K)]
#[verifier::reject_recursive_types(V)]
pub struct OwnedWriteGuard<K: Eq + Hash, V: Empty + 'static>(
    Handle<K, RwLock<V>, ArcRwLockWriteGuardian<V>>,
);

impl<K: Eq + Hash, V: Empty + 'static> OwnedWriteGuard<K, V> {
    /// The handle inside: the raw guard with its key, its pool and its kind
    /// of access.
    pub closed spec fn spec_handle(&self) -> Handle<K, RwLock<V>, ArcRwLockWriteGuardian<V>> {
        self.0
    }

    /// The key that the handle was acquired for.
    pub closed spec fn spec_key(&self) -> K {
        self.0.spec_key()
    }

    /// The pool that the handle came from, and that it releases into.
    pub closed spec fn spec_pool(&self) -> LockMap<K, RwLock<V>> {
        self.0.spec_map()
    }

    /// The kind of access that the handle grants: the only access there is.
    pub closed spec fn spec_access(&self) -> Access {
        self.0.spec_access()
    }

    pub fn key(&self) -> (key: &K)
        ensures
            *key == self.spec_key(),
    {
        self.0.key()
    }
}

impl<K: Eq + Hash, V: Empty + 'static> Deref for OwnedWriteGuard<K, V> {
    type Target = V;

    /// The value behind the lock: what the handle's raw guard gives out.
    fn deref(&self) -> (value: &V)
        ensures
            self.spec_handle().shows(value),
    {
        self.0.value()
    }
}

impl<K: Eq + Hash, V: Empty + 'static> DerefMut for OwnedWriteGuard<K, V> {
    /// The value behind the lock, for writing: what the handle's raw guard
    /// gives out. The handle keeps its key, its pool and its kind of access.
    fn deref_mut(&mut self) -> (value: &mut V)
        ensures
            final(self).spec_key() == old(self).spec_key(),
            final(self).spec_pool() == old(self).spec_pool(),
            final(self).spec_access() == old(self).spec_access(),
            exists|raw: &mut ArcRwLockWriteGuardian<V>|
                *raw == old(self).spec_handle().spec_raw()
                    && *final(raw) == final(self).spec_handle().spec_raw()
                    && #[trigger] lends(raw, value),
    {
        self.0.value_mut()
    }
}

/// A pool of read-write locks, one per key. Clones refer to the same pool.
#[verifier::reject_recursive_types(K)]
#[verifier::reject_recursive_types(V)]
pub struct KeyRwLock<K: Eq + Hash, V>(LockMap<K, RwLock<V>>);

impl<K: Eq + Hash, V> KeyRwLock<K, V> {
    /// The map that holds the pool's locks.
    pub closed spec fn spec_pool(&self) -> LockMap<K, RwLock<V>> {
        self.0
    }
}

impl<K: Eq + Hash, V> Clone for KeyRwLock<K, V> {
    fn clone(&self) -> (pool: Self)
        ensures
            pool.spec_pool() == self.spec_pool(),
    {
        KeyRwLock(self.0.clone())
    }
}

impl<K: Eq + Hash, V> Default for KeyRwLock<K, V> {
    fn default() -> (pool: Self)
        ensures
            pool.spec_pool().made_new(),
    {
        KeyRwLock(LockMap::new())
    }
}

impl<K: Eq + Hash + Clone, V: Empty + Default + 'static> KeyRwLock<K, V> {
    /// A pool of its own, with no entries.
    pub fn new() -> (pool: Self)
        ensures
            pool.spec_pool().made_new(),
    {
        KeyRwLock(LockMap::new())
    }

    /// Whether `result` is what acquiring the lock, for reading, of `key` in this pool
    /// gave. The pool's map was asked for the lock of a clone of `key`; that
    /// lock was taken; a guard that came back clean is the raw guard of the
    /// handle in `Ok`, and a guard that came back inside a poison error is the
    /// raw guard of the handle in `Err`.
    pub closed spec fn read_granted(&self, key: K, result: LockResult<OwnedReadGuard<K, V>>) -> bool {
        exists|
            asked: K,
            lock: Arc<RwLock<V>>,
            taken: Result<ArcRwLockReadGuardian<V>, PoisonError<ArcRwLockReadGuardian<V>>>,
        |
            #![trigger self.spec_pool().obtained(asked, lock), call_ensures(take_read::<V>, (lock,), taken)]
            {
                &&& call_ensures(K::clone, (&key,), asked)
                &&& self.spec_pool().obtained(asked, lock)
                &&& call_ensures(take_read::<V>, (lock,), taken)
                &&& match taken {
                    Ok(guard) => result matches Ok(handle) && handle.spec_handle().spec_raw()
                        == guard,
                    Err(error) => result matches Err(poisoned) && call_ensures(
                        poison_into_inner::<ArcRwLockReadGuardian<V>>,
                        (error,),
                        poisoned@.spec_handle().spec_raw(),
                    ),
                }
            }
    }

    /// Blocks until the lock of `key` grants shared access, creating it around
    /// a default value if the key has no entry. The handle that comes back, in
    /// the result or in its error, is bound to `key` and to this pool. An error
    /// reports that an earlier writer panicked; whether it comes is decided by
    /// the lock.
    ///
    /// The call does not return while a handle for writing under `key` is alive.
    pub fn read(&self, key: K) -> (result: LockResult<OwnedReadGuard<K, V>>)
        ensures
            self.read_granted(key, result),
            match result {
                Ok(handle) => {
                    &&& handle.spec_key() == key
                    &&& handle.spec_pool() == self.spec_pool()
                    &&& handle.spec_access() == Access::SharedRead
                },
                Err(poisoned) => {
                    &&& poisoned@.spec_key() == key
                    &&& poisoned@.spec_pool() == self.spec_pool()
                    &&& poisoned@.spec_access() == Access::SharedRead
                },
            },
    {
        let asked = key.clone();
        let lock = self.0.obtain(asked);
        let taken = take_read(lock);
        let clean = acquired(taken);
        let bind = |guard: ArcRwLockReadGuardian<V>| -> (handle: OwnedReadGuard<K, V>)
            ensures
                handle.spec_key() == key,
                handle.spec_pool() == self.spec_pool(),
                handle.spec_access() == Access::SharedRead,
                handle.spec_handle().spec_raw() == guard,
            { OwnedReadGuard(Handle::new(&self.0, key, Access::SharedRead, guard)) };
        let result = map_guard(clean, bind);
        proof {
            assert(self.spec_pool().obtained(asked, lock));
            assert(call_ensures(take_read::<V>, (lock,), taken));
            assert(self.read_granted(key, result));
        }
        result
    }

    /// Whether `result` is what acquiring the lock, for writing, of `key` in this pool
    /// gave. The pool's map was asked for the lock of a clone of `key`; that
    /// lock was taken; a guard that came back clean is the raw guard of the
    /// handle in `Ok`, and a guard that came back inside a poison error is the
    /// raw guard of the handle in `Err`.
    pub closed spec fn write_granted(&self, key: K, result: LockResult<OwnedWriteGuard<K, V>>) -> bool {
        exists|
            asked: K,
            lock: Arc<RwLock<V>>,
            taken: Result<ArcRwLockWriteGuardian<V>, PoisonError<ArcRwLockWriteGuardian<V>>>,
        |
            #![trigger self.spec_pool().obtained(asked, lock), call_ensures(take_write::<V>, (lock,), taken)]
            {
                &&& call_ensures(K::clone, (&key,), asked)
                &&& self.spec_pool().obtained(asked, lock)
                &&& call_ensures(take_write::<V>, (lock,), taken)
                &&& match taken {
                    Ok(guard) => result matches Ok(handle) && handle.spec_handle().spec_raw()
                        == guard,
                    Err(error) => result matches Err(poisoned) && call_ensures(
                        poison_into_inner::<ArcRwLockWriteGuardian<V>>,
                        (error,),
                        poisoned@.spec_handle().spec_raw(),
                    ),
                }
            }
    }

    /// Blocks until the lock of `key` grants exclusive access, creating it
    /// around a default value if the key has no entry. The handle that comes
    /// back, in the result or in its error, is bound to `key` and to this pool.
    /// An error reports that an earlier writer panicked; whether it comes is
    /// decided by the lock.
    ///
    /// The call does not return while any other handle for `key` is alive.
    pub fn write(&self, key: K) -> (result: LockResult<OwnedWriteGuard<K, V>>)
        ensures
            self.write_granted(key, result),
            match result {
                Ok(handle) => {
                    &&& handle.spec_key() == key
                    &&& handle.spec_pool() == self.spec_pool()
                    &&& handle.spec_access() == Access::ExclusiveWrite
                },
                Err(poisoned) => {
                    &&& poisoned@.spec_key() == key
                    &&& poisoned@.spec_pool() == self.spec_pool()
                    &&& poisoned@.spec_access() == Access::ExclusiveWrite
                },
            },
    {
        let asked = key.clone();
        let lock = self.0.obtain(asked);
        let taken = take_write(lock);
        let clean = acquired(taken);
        let bind = |guard: ArcRwLockWriteGuardian<V>| -> (handle: OwnedWriteGuard<K, V>)
            ensures
                handle.spec_key() == key,
                handle.spec_pool() == self.spec_pool(),
                handle.spec_access() == Access::ExclusiveWrite,
                handle.spec_handle().spec_raw() == guard,
            { OwnedWriteGuard(Handle::new(&self.0, key, Access::ExclusiveWrite, guard)) };
        let result = map_guard(clean, bind);
        proof {
            assert(self.spec_pool().obtained(asked, lock));
            assert(call_ensures(take_write::<V>, (lock,), taken));
            assert(self.write_granted(key, result));
        }
        result
    }

    /// The number of entries that the pool's map counted. Other holders of
    /// the pool may add and remove entries while it counts.
    pub fn len(&self) -> (count: usize)
        ensures
            self.spec_pool().counted(count),
    {
        self.0.len()
    }

    /// Whether the pool's map counted no entry.
    pub fn is_empty(&self) -> (empty: bool)
        ensures
            self.spec_pool().answered_empty(empty),
    {
        self.0.is_empty()
    }
}

/// A pool answers for the moment of the call: other holders may add and remove
/// entries, so its answer is no function of the value, and the implementation
/// promises nothing about it.
impl<K: Eq + Hash, V> Empty for KeyMutex<K, V> {
    fn is_empty(&self) -> (empty: bool)
        ensures
            self.spec_pool().answered_empty(empty),
    {
        self.0.is_empty()
    }
}

/// A pool answers for the moment of the call, as a pool of mutexes does.
impl<K: Eq + Hash, V> Empty for KeyRwLock<K, V> {
    fn is_empty(&self) -> (empty: bool)
        ensures
            self.spec_pool().answered_empty(empty),
    {
        self.0.is_empty()
    }
}

} // verus!
