//! The map core of the pool and the release algorithm that every handle runs.
use crate::empty::Empty;
use crate::raw::arc_share;
use crate::raw::arc_strong_count;
use crate::raw::map_get_or_insert_with;
use crate::raw::map_is_empty;
use crate::raw::map_len;
use crate::raw::map_new;
use crate::raw::map_remove_if;
use dashmap::DashMap;
use std::hash::Hash;
use std::ops::Deref;
use std::ops::DerefMut;
use std::sync::Arc;
use vstd::pervasive::unreached;
use vstd::prelude::*;

verus! {

/// The kind of access that a handle grants to the value behind its lock.
#[derive(Clone, Copy, Debug, PartialEq, Eq)]
pub enum Access {
    /// The only access to the value, granted by a mutex.
    Exclusive,
    /// Access for reading, which any number of handles may hold together.
    SharedRead,
    /// The only access to the value, granted by a read-write lock.
    ExclusiveWrite,
}

/// What a handle does with the pool when it gives its access up.
#[derive(Clone, Copy, Debug, PartialEq, Eq)]
pub enum ReleasePlan {
    /// Give the raw access up and leave the pool alone.
    Plain,
    /// Ask the map to remove the entry; give the raw access up inside the
    /// map's predicate, then let the reference count decide.
    ConditionalRemove,
}

/// How a release ended.
#[derive(Clone, Copy, Debug, PartialEq, Eq)]
pub enum ReleaseOutcome {
    /// The raw access was given up and the pool was not asked to remove anything.
    Retained,
    /// The pool removed the entry of the handle's key.
    Evicted,
    /// The pool was asked, and the entry stayed: somebody else still refers to
    /// the lock, or the key had no entry.
    Shared,
}

/// The plan for a release: only a handle that could have emptied the value, and
/// that found it empty, asks the pool to remove the entry.
pub open spec fn spec_plan_release(access: Access, value_is_empty: bool) -> ReleasePlan {
    if access is SharedRead || !value_is_empty {
        ReleasePlan::Plain
    } else {
        ReleasePlan::ConditionalRemove
    }
}

/// Whether a lock with this many strong references is referred to by the pool alone.
pub open spec fn spec_sole_owner(strong_count: nat) -> bool {
    strong_count == 1
}

/// The outcome of a release that followed `plan`, where `removed` says whether
/// the map took the entry out.
pub open spec fn spec_conclude(plan: ReleasePlan, removed: bool) -> ReleaseOutcome {
    match plan {
        ReleasePlan::Plain => ReleaseOutcome::Retained,
        ReleasePlan::ConditionalRemove => if removed {
            ReleaseOutcome::Evicted
        } else {
            ReleaseOutcome::Shared
        },
    }
}

/// Decides what a handle of kind `access` does on release, given whether the
/// value was empty when the handle looked at it for the last time.
pub fn plan_release(access: Access, value_is_empty: bool) -> (plan: ReleasePlan)
    ensures
        plan == spec_plan_release(access, value_is_empty),
{
    match access {
        Access::SharedRead => ReleasePlan::Plain,
        Access::Exclusive | Access::ExclusiveWrite => if value_is_empty {
            ReleasePlan::ConditionalRemove
        } else {
            ReleasePlan::Plain
        },
    }
}

/// The test that the map's predicate applies to the reference count it reads
/// after the raw access is gone: the entry may go only if the pool's own
/// reference is the last one.
pub fn sole_owner(strong_count: usize) -> (alone: bool)
    ensures
        alone == spec_sole_owner(strong_count as nat),
{
    strong_count == 1
}

/// Names the outcome of a release from its plan and from what the map reported.
pub fn conclude(plan: ReleasePlan, removed: bool) -> (outcome: ReleaseOutcome)
    ensures
        outcome == spec_conclude(plan, removed),
{
    match plan {
        ReleasePlan::Plain => ReleaseOutcome::Retained,
        ReleasePlan::ConditionalRemove => if removed {
            ReleaseOutcome::Evicted
        } else {
            ReleaseOutcome::Shared
        },
    }
}

/// A concurrent map from keys to shared locks. Clones refer to the same map.
#[verifier::reject_recursive_types(K)]
#[verifier::reject_recursive_types(L)]
pub struct LockMap<K, L>(Arc<DashMap<K, Arc<L>>>);

impl<K: Eq + Hash, L> LockMap<K, L> {
    /// Whether the concurrent map inside is one that `DashMap::new` made: a
    /// map of its own, which starts without entries.
    pub closed spec fn made_new(&self) -> bool {
        call_ensures(map_new::<K, L>, (), *self.0)
    }

    /// Whether `count` is what the concurrent map inside answered when it was
    /// asked for its length.
    pub closed spec fn counted(&self, count: usize) -> bool {
        call_ensures(map_len::<K, L>, (&*self.0,), count)
    }

    /// Whether `empty` is what the concurrent map inside answered when it was
    /// asked whether it is empty.
    pub closed spec fn answered_empty(&self, empty: bool) -> bool {
        call_ensures(map_is_empty::<K, Arc<L>>, (&*self.0,), empty)
    }

    /// A pool of its own, with no entries.
    pub fn new() -> (map: Self)
        ensures
            map.made_new(),
    {
        LockMap(Arc::new(map_new()))
    }

    /// Whether `removed` tells what the concurrent map inside did when it was
    /// asked to remove the entry of `key` if `predicate` agrees: whether it
    /// gave the entry out.
    pub closed spec fn asked_to_remove<F: FnOnce(&Arc<L>) -> bool>(
        &self,
        key: &K,
        predicate: F,
        removed: bool,
    ) -> bool {
        exists|gone: Option<(K, Arc<L>)>| #[trigger]
            call_ensures(map_remove_if, (&*self.0, key, predicate, apply::<L, F>), gone)
                && removed == gone is Some
    }

    /// Whether `removed` tells what the concurrent map inside did when it was
    /// asked to remove the entry of `key` under the predicate of the release
    /// algorithm, `judge_released` with `guard`: whether it gave the entry out.
    pub closed spec fn asked_to_release<G>(&self, key: &K, guard: G, removed: bool) -> bool {
        exists|gone: Option<(K, Arc<L>)>| #[trigger]
            call_ensures(map_remove_if, (&*self.0, key, guard, judge_released::<G, L>), gone)
                && removed == gone is Some
    }

    /// Runs `predicate` on the lock stored under `key`, if there is one, and
    /// removes the entry if the predicate says so. The map serialises this with
    /// every other operation on the same key. The result tells whether the map
    /// removed an entry; if it did, the predicate has answered `true`.
    pub fn remove_if<F: FnOnce(&Arc<L>) -> bool>(&self, key: &K, predicate: F) -> (removed: bool)
        requires
            forall|lock: &Arc<L>| call_requires(predicate, (lock,)),
        ensures
            self.asked_to_remove(key, predicate, removed),
            removed ==> exists|lock: &Arc<L>| call_ensures(predicate, (lock,), true),
    {
        map_remove_if(&self.0, key, predicate, apply::<L, F>).is_some()
    }

    /// The conditional removal of the release algorithm. Under the map's lock
    /// on `key`, `guard` is given up and the lock stored under `key` is
    /// judged by its strong count; the entry is removed if the pool's
    /// reference is the last. If `key` has no entry, nothing is judged, and
    /// `guard` is given up all the same. The result tells whether the map
    /// removed the entry; if it did, a count of one was read.
    pub fn remove_released<G>(&self, key: &K, guard: G) -> (removed: bool)
        ensures
            self.asked_to_release(key, guard, removed),
            removed ==> exists|lock: &Arc<L>| #[trigger] judged(lock, true),
    {
        map_remove_if(&self.0, key, guard, judge_released::<G, L>).is_some()
    }

    /// The number of entries that the map counted. Other holders of the pool
    /// may add and remove entries while it counts.
    pub fn len(&self) -> (count: usize)
        ensures
            self.counted(count),
    {
        map_len(&self.0)
    }

    /// Whether the map counted no entry.
    pub fn is_empty(&self) -> (empty: bool)
        ensures
            self.answered_empty(empty),
    {
        map_is_empty(&self.0)
    }
}

/// Applies a caller's predicate to the lock of an entry.
fn apply<L, F: FnOnce(&Arc<L>) -> bool>(predicate: F, lock: &Arc<L>) -> (answer: bool)
    requires
        call_requires(predicate, (lock,)),
    ensures
        call_ensures(predicate, (lock,), answer),
{
    predicate(lock)
}

/// Whether `alone` is the verdict on `lock` by a strong count that
/// `Arc::strong_count` gave for it: that the pool's reference is the last.
pub closed spec fn judged<L>(lock: &Arc<L>, alone: bool) -> bool {
    exists|count: usize| #[trigger]
        call_ensures(arc_strong_count::<L>, (lock,), count) && alone == spec_sole_owner(
            count as nat,
        )
}

/// The predicate of the release algorithm. It gives `guard` up, which unlocks
/// the lock and drops the handle's reference to it, and only then reads the
/// strong count of `lock`, the lock that the pool keeps under the handle's
/// key. The entry may go if the pool's reference is the last.
pub fn judge_released<G, L>(guard: G, lock: &Arc<L>) -> (alone: bool)
    ensures
        judged(lock, alone),
{
    give_up(guard);
    sole_owner(arc_strong_count(lock))
}

/// A new lock around a default value: what `obtain` stores under a key that
/// has no entry.
pub fn default_lock<L: Default>() -> (lock: Arc<L>)
    ensures
        call_ensures(L::default, (), *lock),
{
    Arc::new(L::default())
}

impl<K: Eq + Hash, L: Default> LockMap<K, L> {
    /// Whether `lock` is what the concurrent map inside gave when it was asked
    /// for the lock of `key`, with `default_lock` to make one if the key has
    /// no entry.
    pub closed spec fn obtained(&self, key: K, lock: Arc<L>) -> bool {
        call_ensures(map_get_or_insert_with, (&*self.0, key, default_lock::<L>), lock)
    }

    /// The lock stored under `key`. If the key has no entry, a lock around a
    /// default value is created and stored first. The caller's reference is
    /// taken before the map lets go of the key, so an entry that has been
    /// obtained cannot be removed until that reference is dropped.
    pub fn obtain(&self, key: K) -> (lock: Arc<L>)
        ensures
            self.obtained(key, lock),
    {
        map_get_or_insert_with(&self.0, key, default_lock::<L>)
    }
}

impl<K, L> Clone for LockMap<K, L> {
    fn clone(&self) -> (map: Self)
        ensures
            map == *self,
    {
        LockMap(arc_share(&self.0))
    }
}

impl<K: Eq + Hash, L> Default for LockMap<K, L> {
    fn default() -> (map: Self)
        ensures
            map.made_new(),
    {
        LockMap::new()
    }
}

/// What a handle remembers of where it came from: the pool and its key.
#[verifier::reject_recursive_types(K)]
#[verifier::reject_recursive_types(L)]
pub struct KeyRef<K, L> {
    map: LockMap<K, L>,
    pub key: K,
}

impl<K: Eq + Hash, L> KeyRef<K, L> {
    /// The pool that the handle releases into.
    pub closed spec fn spec_map(&self) -> LockMap<K, L> {
        self.map
    }

    /// The key of the handle.
    pub closed spec fn spec_key(&self) -> K {
        self.key
    }

    pub fn new(map: &LockMap<K, L>, key: K) -> (key_ref: Self)
        ensures
            key_ref.spec_map() == *map,
            key_ref.spec_key() == key,
    {
        KeyRef { map: map.clone(), key }
    }

    pub fn key(&self) -> (key: &K)
        ensures
            *key == self.spec_key(),
    {
        &self.key
    }

    /// Whether `outcome` is an end of the release of `guard`, of kind `access`,
    /// for a value that was found empty or not as `value_is_empty` says. A
    /// plain release is retained. Otherwise the pool was asked to remove the
    /// entry of the handle's key under the predicate of the release algorithm,
    /// and the outcome tells what the pool did.
    pub open spec fn spec_released<G>(
        &self,
        access: Access,
        guard: G,
        value_is_empty: bool,
        outcome: ReleaseOutcome,
    ) -> bool {
        match spec_plan_release(access, value_is_empty) {
            ReleasePlan::Plain => outcome is Retained,
            ReleasePlan::ConditionalRemove => exists|removed: bool| #[trigger]
                self.spec_map().asked_to_release(&self.spec_key(), guard, removed) && outcome
                    == spec_conclude(ReleasePlan::ConditionalRemove, removed),
        }
    }

    /// Gives up raw access `guard` of kind `access`, for a value that was
    /// found empty or not as `value_is_empty` says.
    ///
    /// With a plain release the guard is dropped at once. Otherwise the guard
    /// is dropped inside the predicate of the map's conditional removal, before
    /// the reference count is read: no other thread can obtain the lock between
    /// the moment it is unlocked and the moment its entry is judged. The entry
    /// is evicted only if the count that was read is one.
    pub fn release<G>(&self, access: Access, guard: G, value_is_empty: bool) -> (outcome:
        ReleaseOutcome)
        ensures
            self.spec_released(access, guard, value_is_empty, outcome),
            outcome is Retained <==> spec_plan_release(access, value_is_empty) is Plain,
            outcome is Evicted ==> exists|lock: &Arc<L>| #[trigger] judged(lock, true),
    {
        let plan = plan_release(access, value_is_empty);
        match plan {
            ReleasePlan::Plain => {
                give_up(guard);
                conclude(plan, false)
            },
            ReleasePlan::ConditionalRemove => {
                let removed = self.map.remove_released(&self.key, guard);
                assert(self.spec_map().asked_to_release(&self.spec_key(), guard, removed));
                conclude(plan, removed)
            },
        }
    }

    /// Runs the release algorithm on the raw access in `guard`, and leaves
    /// `guard` without it. A handle calls this once, when it is dropped.
    ///
    /// A handle for reading is released without looking at the value. Any other
    /// handle asks the value whether it is empty while it still has access,
    /// and is released as `release` does for that answer.
    pub fn on_drop<V: Empty, G: Deref<Target = V>>(
        &self,
        access: Access,
        guard: &mut Option<G>,
    ) -> (outcome: ReleaseOutcome)
        ensures
            *final(guard) is None,
            *old(guard) is None ==> outcome is Retained,
            access is SharedRead ==> outcome is Retained,
            !(access is SharedRead) ==> (*old(guard) matches Some(raw) ==> exists|
                value: &V,
                empty: bool,
            |
                #![trigger call_ensures(V::is_empty, (value,), empty)]
                {
                    &&& call_ensures(G::deref, (&raw,), value)
                    &&& call_ensures(V::is_empty, (value,), empty)
                    &&& self.spec_released(access, raw, empty, outcome)
                }),
            V::obeys_empty_spec() && !(access is SharedRead) ==> (*old(guard) matches Some(raw)
                ==> exists|value: &V| #[trigger]
                    call_ensures(G::deref, (&raw,), value) && (outcome is Retained
                        <==> !value.spec_is_empty())),
            outcome is Evicted ==> exists|lock: &Arc<L>| #[trigger] judged(lock, true),
    {
        match guard.take() {
            None => ReleaseOutcome::Retained,
            Some(raw) => {
                match access {
                    Access::SharedRead => self.release(access, raw, false),
                    Access::Exclusive | Access::ExclusiveWrite => {
                        let value_is_empty = raw.deref().is_empty();
                        self.release(access, raw, value_is_empty)
                    },
                }
            },
        }
    }
}

/// Ends the life of a raw guard, which unlocks its lock and drops its
/// reference to it.
fn give_up<G>(guard: G) {
}

/// Access to the value behind one of the pool's locks: the raw guard that the
/// lock gave out, together with the pool and the key it belongs to. Dropping
/// the handle runs the release algorithm.
///
/// The handles of the keyed locks are thin wrappers round this type, one for
/// each kind of raw guard.
#[verifier::reject_recursive_types(K)]
#[verifier::reject_recursive_types(L)]
#[verifier::reject_recursive_types(G)]
pub struct Handle<K: Eq + Hash, L, G: Deref> where G::Target: Empty + Sized {
    key_ref: KeyRef<K, L>,
    access: Access,
    raw: Option<G>,
}

impl<K: Eq + Hash, L, G: Deref> Handle<K, L, G> where G::Target: Empty + Sized {
    /// A handle has its raw guard from the moment it is made until it is dropped.
    #[verifier::type_invariant]
    spec fn holds_access(self) -> bool {
        self.raw is Some
    }

    /// The key that the handle was acquired for.
    pub closed spec fn spec_key(&self) -> K {
        self.key_ref.spec_key()
    }

    /// The pool that the handle came from, and that it releases into.
    pub closed spec fn spec_map(&self) -> LockMap<K, L> {
        self.key_ref.spec_map()
    }

    /// The kind of access that the handle grants.
    pub closed spec fn spec_access(&self) -> Access {
        self.access
    }

    /// Binds raw guard `raw`, which grants access of kind `access`, to `key`
    /// in the pool `map`.
    pub fn new(map: &LockMap<K, L>, key: K, access: Access, raw: G) -> (handle: Self)
        ensures
            handle.spec_key() == key,
            handle.spec_map() == *map,
            handle.spec_access() == access,
            handle.spec_raw() == raw,
    {
        Handle { key_ref: KeyRef::new(map, key), access, raw: Some(raw) }
    }

    pub fn key(&self) -> (key: &K)
        ensures
            *key == self.spec_key(),
    {
        self.key_ref.key()
    }

    pub fn access(&self) -> (access: Access)
        ensures
            access == self.spec_access(),
    {
        self.access
    }

    /// The raw guard that the handle holds.
    pub closed spec fn spec_raw(&self) -> G {
        self.raw->0
    }

    /// Whether `value` is what the handle's raw guard gives out for reading.
    pub open spec fn shows(&self, value: &G::Target) -> bool {
        call_ensures(G::deref, (&self.spec_raw(),), value)
    }

    /// The value behind the lock: what the handle's raw guard gives out.
    pub fn value(&self) -> (value: &G::Target)
        ensures
            self.shows(value),
    {
        proof {
            use_type_invariant(self);
        }
        match &self.raw {
            Some(raw) => raw.deref(),
            None => unreached(),
        }
    }

    /// The value behind the lock, for writing: what the handle's raw guard
    /// gives out. The handle keeps its key, its pool and its kind of access,
    /// and its raw guard is the one that the borrow leaves behind.
    pub fn value_mut(&mut self) -> (value: &mut G::Target) where G: DerefMut
        ensures
            final(self).spec_key() == old(self).spec_key(),
            final(self).spec_map() == old(self).spec_map(),
            final(self).spec_access() == old(self).spec_access(),
            exists|raw: &mut G|
                #![trigger lends(raw, value)]
                #![trigger call_ensures(G::deref_mut, (raw,), value)]
                *raw == old(self).spec_raw() && *final(raw) == final(self).spec_raw()
                    && lends(raw, value),
    {
        proof {
            use_type_invariant(&*self);
        }
        held_mut(&mut self.raw).deref_mut()
    }
}

/// Whether `value` is what the raw guard behind `raw` gives out for writing.
pub open spec fn lends<G: DerefMut>(raw: &mut G, value: &mut G::Target) -> bool {
    call_ensures(G::deref_mut, (raw,), value)
}

/// The raw guard in a slot that holds one.
fn held_mut<'a, G>(slot: &'a mut Option<G>) -> (raw: &'a mut G)
    requires
        *old(slot) is Some,
    ensures
        *raw == (*old(slot))->0,
        *final(slot) == Some(*final(raw)),
    no_unwind
{
    match slot {
        Some(raw) => raw,
        None => unreached(),
    }
}

impl<K: Eq + Hash, L, G: Deref> Drop for Handle<K, L, G> where G::Target: Empty + Sized {
    /// Runs the release algorithm. Verus does not check this body: it is the
    /// one place where a handle is left without its raw guard, and nothing can
    /// look at the handle afterwards.
    #[verifier::external_body]
    fn drop(&mut self)
        opens_invariants none
        no_unwind
    {
        self.key_ref.on_drop(self.access, &mut self.raw);
    }
}

} // verus!
