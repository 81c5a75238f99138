//! A model of the pool's bookkeeping, and the laws that the release algorithm
//! rests on.
//!
//! The pool itself is shared between threads, and no contract of its
//! operations can speak of what it holds. The model makes that state explicit.
//! Each step of the model is one atomic action of the pool: the concurrent map
//! serialises the actions on one key, so every run of the pool is a sequence
//! of such steps. The steps take their decisions from the same functions that
//! the pool's code calls: `spec_plan_release`, `spec_sole_owner` and
//! `spec_conclude`.
use crate::empty::Empty;
use crate::inner::spec_conclude;
use crate::inner::spec_plan_release;
use crate::inner::spec_sole_owner;
use crate::inner::Access;
use crate::inner::ReleaseOutcome;
use crate::inner::ReleasePlan;
use vstd::prelude::*;

verus! {

/// One reference to a lock outside the pool: taken by `obtain`, given back by
/// a release. It remembers which lock it refers to.
pub struct Held<K> {
    pub key: K,
    /// The identity of the lock that the handle refers to.
    pub lock: nat,
    pub access: Access,
}

/// An entry of the pool: a lock, the value behind it, and the tickets of the
/// handles that refer to it.
pub struct Slot<V> {
    /// The identity of the lock. Every lock that is created gets a new one.
    pub lock: nat,
    pub value: V,
    pub holders: Set<nat>,
}

/// The pool and the handles that are alive.
#[verifier::reject_recursive_types(K)]
pub struct Pool<K, V> {
    pub slots: Map<K, Slot<V>>,
    /// The live handles, by ticket.
    pub handles: Map<nat, Held<K>>,
    /// How many locks have been created.
    pub minted: nat,
    /// How many handles have been handed out.
    pub issued: nat,
}

/// One atomic action on the pool.
pub enum Step<K, V> {
    /// Get or create the lock of `key` and take a reference to it. `seed` is
    /// the value that a new lock is created around.
    Obtain { key: K, access: Access, seed: V },
    /// Write `value` through a handle that has exclusive access.
    Store { ticket: nat, value: V },
    /// Run the release algorithm for a handle.
    Release { ticket: nat },
    /// Drop a reference that never became a handle: the acquisition was given
    /// up after `obtain`. The release algorithm does not run.
    Abandon { ticket: nat },
}

impl<K, V: Empty> Pool<K, V> {
    /// The pool as `new` makes it.
    pub open spec fn new() -> Self {
        Pool { slots: Map::empty(), handles: Map::empty(), minted: 0, issued: 0 }
    }

    /// The number of entries.
    pub open spec fn len(self) -> nat {
        self.slots.dom().len()
    }

    /// Whether `ticket` stands for a live handle.
    pub open spec fn live(self, ticket: nat) -> bool {
        self.handles.contains_key(ticket)
    }

    /// Whether the lock that handle `ticket` refers to is the one that the pool
    /// keeps under the handle's key.
    pub open spec fn bound(self, ticket: nat) -> bool {
        let handle = self.handles[ticket];
        &&& self.slots.contains_key(handle.key)
        &&& self.slots[handle.key].lock == handle.lock
        &&& self.slots[handle.key].holders.contains(ticket)
    }

    /// Whether handle `ticket` is the only live handle for its key.
    pub open spec fn alone(self, ticket: nat) -> bool {
        forall|other: nat| #[trigger]
            self.handles.contains_key(other) && self.handles[other].key
                == self.handles[ticket].key ==> other == ticket
    }

    /// The invariant of the pool: every live handle is bound, no lock stands
    /// under two keys, and the holders of an entry are live handles for its key.
    pub open spec fn consistent(self) -> bool {
        &&& self.slots.dom().finite()
        &&& self.handles.dom().finite()
        &&& forall|key: K| #[trigger]
            self.slots.contains_key(key) ==> self.slots[key].lock < self.minted
                && self.slots[key].holders.finite()
        &&& forall|a: K, b: K|
            #![trigger self.slots.contains_key(a), self.slots.contains_key(b)]
            self.slots.contains_key(a) && self.slots.contains_key(b) && a != b
                ==> self.slots[a].lock != self.slots[b].lock
        &&& forall|ticket: nat| #[trigger]
            self.handles.contains_key(ticket) ==> ticket < self.issued && self.bound(ticket)
        &&& forall|key: K, ticket: nat|
            self.slots.contains_key(key) && #[trigger] self.slots[key].holders.contains(ticket)
                ==> self.handles.contains_key(ticket) && self.handles[ticket].key == key
    }

    /// The pool after `obtain`: the lock of `key` is created around `seed` if
    /// the key has no entry, and the new handle, with ticket `self.issued`,
    /// refers to the lock of `key`.
    pub open spec fn obtain(self, key: K, access: Access, seed: V) -> Self {
        let slot = if self.slots.contains_key(key) {
            Slot {
                lock: self.slots[key].lock,
                value: self.slots[key].value,
                holders: self.slots[key].holders.insert(self.issued),
            }
        } else {
            Slot { lock: self.minted, value: seed, holders: Set::empty().insert(self.issued) }
        };
        Pool {
            slots: self.slots.insert(key, slot),
            handles: self.handles.insert(self.issued, Held { key, lock: slot.lock, access }),
            minted: if self.slots.contains_key(key) {
                self.minted
            } else {
                self.minted + 1
            },
            issued: self.issued + 1,
        }
    }

    /// The pool after handle `ticket` has written `value`.
    pub open spec fn store(self, ticket: nat, value: V) -> Self {
        let key = self.handles[ticket].key;
        let slot = Slot {
            lock: self.slots[key].lock,
            value,
            holders: self.slots[key].holders,
        };
        Pool { slots: self.slots.insert(key, slot), ..self }
    }

    /// The plan that handle `ticket` follows when it is released now.
    pub open spec fn release_plan(self, ticket: nat) -> ReleasePlan {
        let handle = self.handles[ticket];
        spec_plan_release(handle.access, self.slots[handle.key].value.spec_is_empty())
    }

    /// The strong count that the release of handle `ticket` reads: the pool's
    /// own reference and one for each other handle for the key. The handle's
    /// own reference is gone by then.
    pub open spec fn count_at_release(self, ticket: nat) -> nat {
        self.slots[self.handles[ticket].key].holders.remove(ticket).len() + 1
    }

    /// Whether the release of handle `ticket` removes the entry of its key: the
    /// plan asks for it, and the count says that the pool's reference is the
    /// last.
    pub open spec fn release_removes(self, ticket: nat) -> bool {
        &&& self.release_plan(ticket) is ConditionalRemove
        &&& spec_sole_owner(self.count_at_release(ticket))
    }

    /// How the release of handle `ticket` ends.
    pub open spec fn release_outcome(self, ticket: nat) -> ReleaseOutcome {
        spec_conclude(self.release_plan(ticket), self.release_removes(ticket))
    }

    /// The pool after the release of handle `ticket`.
    pub open spec fn release(self, ticket: nat) -> Self {
        let key = self.handles[ticket].key;
        let slot = Slot {
            lock: self.slots[key].lock,
            value: self.slots[key].value,
            holders: self.slots[key].holders.remove(ticket),
        };
        Pool {
            slots: if self.release_removes(ticket) {
                self.slots.remove(key)
            } else {
                self.slots.insert(key, slot)
            },
            handles: self.handles.remove(ticket),
            ..self
        }
    }

    /// The pool after the reference `ticket` was dropped without a release.
    pub open spec fn abandon(self, ticket: nat) -> Self {
        let key = self.handles[ticket].key;
        let slot = Slot {
            lock: self.slots[key].lock,
            value: self.slots[key].value,
            holders: self.slots[key].holders.remove(ticket),
        };
        Pool { slots: self.slots.insert(key, slot), handles: self.handles.remove(ticket), ..self }
    }

    /// The value that handle `ticket` finds behind its lock.
    pub open spec fn value_seen(self, ticket: nat) -> V {
        self.slots[self.handles[ticket].key].value
    }

    /// The pool after one `obtain` of `key` for each of `requests`, in order.
    /// A request is the kind of access asked for and the seed that it brings.
    pub open spec fn obtain_all(self, key: K, requests: Seq<(Access, V)>) -> Self
        decreases requests.len(),
    {
        if requests.len() == 0 {
            self
        } else {
            self.obtain_all(key, requests.drop_last()).obtain(
                key,
                requests.last().0,
                requests.last().1,
            )
        }
    }

    /// Whether `step` can be taken: a handle can act only while it is alive,
    /// and can write only with exclusive access.
    pub open spec fn enabled(self, step: Step<K, V>) -> bool {
        match step {
            Step::Obtain { .. } => true,
            Step::Store { ticket, .. } => self.live(ticket) && !(self.handles[ticket].access
                is SharedRead),
            Step::Release { ticket } => self.live(ticket),
            Step::Abandon { ticket } => self.live(ticket),
        }
    }

    /// The key that `step` acts on.
    pub open spec fn key_of(self, step: Step<K, V>) -> K {
        match step {
            Step::Obtain { key, .. } => key,
            Step::Store { ticket, .. } => self.handles[ticket].key,
            Step::Release { ticket } => self.handles[ticket].key,
            Step::Abandon { ticket } => self.handles[ticket].key,
        }
    }

    /// The pool after `step`.
    pub open spec fn next(self, step: Step<K, V>) -> Self {
        match step {
            Step::Obtain { key, access, seed } => self.obtain(key, access, seed),
            Step::Store { ticket, value } => self.store(ticket, value),
            Step::Release { ticket } => self.release(ticket),
            Step::Abandon { ticket } => self.abandon(ticket),
        }
    }

    /// The pool after `steps`, taken in order from a new pool.
    pub open spec fn run(steps: Seq<Step<K, V>>) -> Self
        decreases steps.len(),
    {
        if steps.len() == 0 {
            Self::new()
        } else {
            Self::run(steps.drop_last()).next(steps.last())
        }
    }

    /// Whether each of `steps` can be taken when its turn comes.
    pub open spec fn admissible(steps: Seq<Step<K, V>>) -> bool
        decreases steps.len(),
    {
        steps.len() > 0 ==> Self::admissible(steps.drop_last()) && Self::run(
            steps.drop_last(),
        ).enabled(steps.last())
    }
}

/// A new pool is consistent.
pub proof fn law_new_is_consistent<K, V: Empty>()
    ensures
        Pool::<K, V>::new().consistent(),
        Pool::<K, V>::new().len() == 0,
{
}

/// Every step keeps the pool consistent.
pub proof fn law_step_keeps_consistent<K, V: Empty>(pool: Pool<K, V>, step: Step<K, V>)
    requires
        pool.consistent(),
        pool.enabled(step),
    ensures
        pool.next(step).consistent(),
{
}

/// Whatever steps were taken, in whatever order, the pool is consistent, and
/// so every live handle refers to the lock that the pool keeps under the
/// handle's key: no handle is ever left with a lock that the pool has let go
/// of, and none works on a lock other than the one that later callers get.
pub proof fn law_live_handles_are_bound<K, V: Empty>(steps: Seq<Step<K, V>>)
    requires
        Pool::<K, V>::admissible(steps),
    ensures
        Pool::<K, V>::run(steps).consistent(),
        forall|ticket: nat| #[trigger]
            Pool::<K, V>::run(steps).live(ticket) ==> Pool::<K, V>::run(steps).bound(ticket),
    decreases steps.len(),
{
    if steps.len() > 0 {
        law_live_handles_are_bound(steps.drop_last());
        law_step_keeps_consistent(Pool::<K, V>::run(steps.drop_last()), steps.last());
    }
}

/// Two live handles for one key refer to the same lock, however many callers
/// asked for the key and in whatever order they were served.
pub proof fn law_handles_of_a_key_share_its_lock<K, V: Empty>(
    pool: Pool<K, V>,
    first: nat,
    second: nat,
)
    requires
        pool.consistent(),
        pool.live(first),
        pool.live(second),
        pool.handles[first].key == pool.handles[second].key,
    ensures
        pool.handles[first].lock == pool.handles[second].lock,
{
}

/// `obtain` creates a lock only for a key that has none. The caller's handle
/// refers to the lock that the pool keeps under the key from then on.
pub proof fn law_obtain_gets_or_creates<K, V: Empty>(
    pool: Pool<K, V>,
    key: K,
    access: Access,
    seed: V,
)
    requires
        pool.consistent(),
    ensures
        ({
            let after = pool.obtain(key, access, seed);
            &&& after.live(pool.issued)
            &&& after.bound(pool.issued)
            &&& after.handles[pool.issued].key == key
            &&& pool.slots.contains_key(key) ==> {
                &&& after.slots[key].lock == pool.slots[key].lock
                &&& after.slots[key].value == pool.slots[key].value
                &&& after.minted == pool.minted
                &&& after.len() == pool.len()
            }
            &&& !pool.slots.contains_key(key) ==> {
                &&& after.slots[key].lock == pool.minted
                &&& after.slots[key].value == seed
                &&& after.minted == pool.minted + 1
                &&& after.len() == pool.len() + 1
            }
        }),
{
    let after = pool.obtain(key, access, seed);
    if pool.slots.contains_key(key) {
        assert(after.slots.dom() =~= pool.slots.dom());
    } else {
        assert(after.slots.dom() =~= pool.slots.dom().insert(key));
    }
}

/// However many callers ask for one key before any of them lets go, at most
/// one lock is created, and only if the key had none. All their handles refer
/// to that one lock, the lock that the pool keeps under the key.
pub proof fn law_burst_creates_one_lock<K, V: Empty>(
    pool: Pool<K, V>,
    key: K,
    requests: Seq<(Access, V)>,
)
    requires
        pool.consistent(),
    ensures
        ({
            let after = pool.obtain_all(key, requests);
            &&& after.consistent()
            &&& after.issued == pool.issued + requests.len()
            &&& after.minted == if pool.slots.contains_key(key) || requests.len() == 0 {
                pool.minted
            } else {
                pool.minted + 1
            }
            &&& forall|ticket: nat|
                pool.issued <= ticket < after.issued ==> {
                    &&& #[trigger] after.live(ticket)
                    &&& after.handles[ticket].key == key
                    &&& after.handles[ticket].lock == after.slots[key].lock
                }
        }),
    decreases requests.len(),
{
    if requests.len() > 0 {
        let before = pool.obtain_all(key, requests.drop_last());
        law_burst_creates_one_lock(pool, key, requests.drop_last());
        law_step_keeps_consistent(
            before,
            Step::Obtain { key, access: requests.last().0, seed: requests.last().1 },
        );
        law_obtain_gets_or_creates(before, key, requests.last().0, requests.last().1);
        let after = before.obtain(key, requests.last().0, requests.last().1);
        assert(after == pool.obtain_all(key, requests));
        assert forall|ticket: nat| pool.issued <= ticket < after.issued implies {
            &&& #[trigger] after.live(ticket)
            &&& after.handles[ticket].key == key
            &&& after.handles[ticket].lock == after.slots[key].lock
        } by {
            if ticket < before.issued {
                assert(before.live(ticket));
                assert(before.bound(ticket));
            }
        }
        if requests.len() > 1 {
            assert(before.live(pool.issued));
            assert(before.bound(pool.issued));
        }
    }
}

/// What one handle writes, every live handle for the same key finds.
pub proof fn law_store_is_seen_by_every_handle<K, V: Empty>(
    pool: Pool<K, V>,
    writer: nat,
    reader: nat,
    value: V,
)
    requires
        pool.consistent(),
        pool.enabled(Step::Store { ticket: writer, value }),
        pool.live(reader),
        pool.handles[reader].key == pool.handles[writer].key,
    ensures
        pool.store(writer, value).live(reader),
        pool.store(writer, value).value_seen(reader) == value,
{
}

/// When the last handle for a key is released with exclusive access and the
/// value is empty, the entry goes: the pool has one entry less, and whoever
/// asks for the key next gets a new lock around the value it is seeded with.
/// Nothing of the old lock is left.
pub proof fn law_last_release_of_empty_value_evicts<K, V: Empty>(
    pool: Pool<K, V>,
    ticket: nat,
    access: Access,
    seed: V,
)
    requires
        pool.consistent(),
        pool.live(ticket),
        pool.alone(ticket),
        !(pool.handles[ticket].access is SharedRead),
        pool.slots[pool.handles[ticket].key].value.spec_is_empty(),
    ensures
        ({
            let key = pool.handles[ticket].key;
            let after = pool.release(ticket);
            let again = after.obtain(key, access, seed);
            &&& pool.release_outcome(ticket) is Evicted
            &&& !after.slots.contains_key(key)
            &&& after.len() + 1 == pool.len()
            &&& after.consistent()
            &&& again.slots[key].value == seed
            &&& again.slots[key].lock != pool.slots[key].lock
            &&& again.handles[after.issued].lock == again.slots[key].lock
            &&& again.len() == pool.len()
        }),
{
    let key = pool.handles[ticket].key;
    let after = pool.release(ticket);
    lemma_alone_has_no_other_holder(pool, ticket);
    assert(pool.release_removes(ticket));
    assert(after.slots.dom() =~= pool.slots.dom().remove(key));
    law_step_keeps_consistent(pool, Step::Release { ticket });
    law_obtain_gets_or_creates(after, key, access, seed);
}

/// When a handle is released and the value is not empty, the entry stays as it
/// is: the same lock around the same value. Whoever asks for the key next gets
/// that lock and finds that value, not a new one.
pub proof fn law_release_of_nonempty_value_retains<K, V: Empty>(
    pool: Pool<K, V>,
    ticket: nat,
    access: Access,
    seed: V,
)
    requires
        pool.consistent(),
        pool.live(ticket),
        !pool.slots[pool.handles[ticket].key].value.spec_is_empty(),
    ensures
        ({
            let key = pool.handles[ticket].key;
            let after = pool.release(ticket);
            let again = after.obtain(key, access, seed);
            &&& pool.release_outcome(ticket) is Retained
            &&& after.slots.contains_key(key)
            &&& after.slots[key].lock == pool.slots[key].lock
            &&& after.slots[key].value == pool.slots[key].value
            &&& after.len() == pool.len()
            &&& after.consistent()
            &&& again.handles[after.issued].lock == pool.slots[key].lock
            &&& again.slots[key].value == pool.slots[key].value
            &&& again.minted == pool.minted
        }),
{
    let key = pool.handles[ticket].key;
    let after = pool.release(ticket);
    assert(after.slots.dom() =~= pool.slots.dom());
    law_step_keeps_consistent(pool, Step::Release { ticket });
}

/// A handle for reading never removes an entry, whatever the value is.
pub proof fn law_reader_never_evicts<K, V: Empty>(pool: Pool<K, V>, ticket: nat)
    requires
        pool.consistent(),
        pool.live(ticket),
        pool.handles[ticket].access is SharedRead,
    ensures
        ({
            let key = pool.handles[ticket].key;
            let after = pool.release(ticket);
            &&& pool.release_outcome(ticket) is Retained
            &&& after.slots.contains_key(key)
            &&& after.slots[key].lock == pool.slots[key].lock
            &&& after.slots[key].value == pool.slots[key].value
        }),
{
}

/// A release that finds the value empty races with a caller that asks for the
/// same key. Whichever of the two the map serves first, the newcomer ends up
/// with the lock that the pool keeps under the key. If the release is first,
/// the entry is removed and the newcomer creates a new lock. If the newcomer
/// is first, the release finds a second reference and leaves the entry alone,
/// and the newcomer shares the surviving lock with its value.
pub proof fn law_release_racing_obtain<K, V: Empty>(
    pool: Pool<K, V>,
    ticket: nat,
    access: Access,
    seed: V,
)
    requires
        pool.consistent(),
        pool.live(ticket),
        pool.alone(ticket),
        !(pool.handles[ticket].access is SharedRead),
        pool.slots[pool.handles[ticket].key].value.spec_is_empty(),
    ensures
        ({
            let key = pool.handles[ticket].key;
            let newcomer = pool.issued;
            let release_first = pool.release(ticket).obtain(key, access, seed);
            let obtain_first = pool.obtain(key, access, seed).release(ticket);
            &&& pool.release_outcome(ticket) is Evicted
            &&& release_first.consistent()
            &&& release_first.bound(newcomer)
            &&& release_first.handles[newcomer].lock == pool.minted
            &&& release_first.slots[key].value == seed
            &&& pool.obtain(key, access, seed).release_outcome(ticket) is Shared
            &&& obtain_first.consistent()
            &&& obtain_first.bound(newcomer)
            &&& obtain_first.handles[newcomer].lock == pool.slots[key].lock
            &&& obtain_first.slots[key].value == pool.slots[key].value
        }),
{
    let key = pool.handles[ticket].key;
    let newcomer = pool.issued;
    law_last_release_of_empty_value_evicts(pool, ticket, access, seed);
    law_step_keeps_consistent(pool.release(ticket), Step::Obtain { key, access, seed });
    law_obtain_gets_or_creates(pool.release(ticket), key, access, seed);
    let shared = pool.obtain(key, access, seed);
    law_step_keeps_consistent(pool, Step::Obtain { key, access, seed });
    law_obtain_gets_or_creates(pool, key, access, seed);
    assert(shared.slots[key].holders.remove(ticket).contains(newcomer));
    lemma_holders_counted(shared, key, ticket, newcomer);
    law_step_keeps_consistent(shared, Step::Release { ticket });
}

/// A step for one key leaves the entry of every other key as it was.
pub proof fn law_other_keys_are_untouched<K, V: Empty>(
    pool: Pool<K, V>,
    step: Step<K, V>,
    other: K,
)
    requires
        other != pool.key_of(step),
    ensures
        pool.next(step).slots.contains_key(other) == pool.slots.contains_key(other),
        pool.slots.contains_key(other) ==> pool.next(step).slots[other] == pool.slots[other],
{
}

/// An entry leaves the pool only when a handle for its key is released with
/// exclusive access, the value is empty, and no other handle for the key is
/// alive.
pub proof fn law_entry_leaves_only_by_eviction<K, V: Empty>(
    pool: Pool<K, V>,
    step: Step<K, V>,
    key: K,
)
    requires
        pool.consistent(),
        pool.enabled(step),
        pool.slots.contains_key(key),
        !pool.next(step).slots.contains_key(key),
    ensures
        step matches Step::Release { ticket } && {
            &&& pool.handles[ticket].key == key
            &&& !(pool.handles[ticket].access is SharedRead)
            &&& pool.slots[key].value.spec_is_empty()
            &&& pool.alone(ticket)
            &&& pool.release_outcome(ticket) is Evicted
        },
{
    match step {
        Step::Release { ticket } => {
            assert(pool.release_removes(ticket));
            lemma_sole_owner_is_alone(pool, ticket);
        },
        _ => {},
    }
}

/// An entry comes into the pool only when somebody asks for a key that has
/// none, and it starts with a new lock around the seed.
pub proof fn law_entry_appears_only_by_obtain<K, V: Empty>(
    pool: Pool<K, V>,
    step: Step<K, V>,
    key: K,
)
    requires
        pool.consistent(),
        pool.enabled(step),
        !pool.slots.contains_key(key),
        pool.next(step).slots.contains_key(key),
    ensures
        step matches Step::Obtain { key: asked, seed, .. } && {
            &&& asked == key
            &&& pool.next(step).slots[key].value == seed
            &&& pool.next(step).slots[key].lock == pool.minted
        },
{
}

/// A reference that is dropped without a release leaves its entry in the
/// pool, even if the value is empty and nobody else refers to the lock. The
/// entry stays until a later handle for the key is released.
pub proof fn law_abandoned_reference_leaves_entry<K, V: Empty>(pool: Pool<K, V>, ticket: nat)
    requires
        pool.consistent(),
        pool.live(ticket),
    ensures
        ({
            let key = pool.handles[ticket].key;
            let after = pool.abandon(ticket);
            &&& after.consistent()
            &&& !after.live(ticket)
            &&& after.slots.contains_key(key)
            &&& after.slots[key].lock == pool.slots[key].lock
            &&& after.slots[key].value == pool.slots[key].value
            &&& after.len() == pool.len()
        }),
{
    let key = pool.handles[ticket].key;
    law_step_keeps_consistent(pool, Step::Abandon { ticket });
    assert(pool.abandon(ticket).slots.dom() =~= pool.slots.dom());
}

/// In a consistent pool, a handle that is alone is the only holder of its entry.
proof fn lemma_alone_has_no_other_holder<K, V: Empty>(pool: Pool<K, V>, ticket: nat)
    requires
        pool.consistent(),
        pool.live(ticket),
        pool.alone(ticket),
    ensures
        pool.slots[pool.handles[ticket].key].holders.remove(ticket) =~= Set::<nat>::empty(),
        pool.slots[pool.handles[ticket].key].holders.remove(ticket).len() == 0,
{
    let key = pool.handles[ticket].key;
    let rest = pool.slots[key].holders.remove(ticket);
    assert forall|other: nat| !rest.contains(other) by {
        if rest.contains(other) {
            assert(pool.slots[key].holders.contains(other));
            assert(pool.handles.contains_key(other) && pool.handles[other].key == key);
        }
    }
    assert(rest =~= Set::<nat>::empty());
}

/// In a consistent pool, a handle whose release finds no other holder is alone.
proof fn lemma_sole_owner_is_alone<K, V: Empty>(pool: Pool<K, V>, ticket: nat)
    requires
        pool.consistent(),
        pool.live(ticket),
        pool.slots[pool.handles[ticket].key].holders.remove(ticket).len() == 0,
    ensures
        pool.alone(ticket),
{
    let key = pool.handles[ticket].key;
    let rest = pool.slots[key].holders.remove(ticket);
    assert(rest.finite());
    assert forall|other: nat|
        pool.handles.contains_key(other) && pool.handles[other].key == key implies other
        == ticket by {
        if other != ticket {
            assert(pool.bound(other));
            assert(rest.contains(other));
            assert(rest.len() > 0) by {
                if rest.len() == 0 {
                    rest.lemma_len0_is_empty();
                    assert(!rest.contains(other));
                }
            }
        }
    }
}

/// A finite set of holders with a member besides `ticket` counts more than
/// the pool's own reference.
proof fn lemma_holders_counted<K, V: Empty>(pool: Pool<K, V>, key: K, ticket: nat, other: nat)
    requires
        pool.slots[key].holders.finite(),
        pool.slots[key].holders.remove(ticket).contains(other),
    ensures
        pool.slots[key].holders.remove(ticket).len() > 0,
{
    let rest = pool.slots[key].holders.remove(ticket);
    if rest.len() == 0 {
        rest.lemma_len0_is_empty();
        assert(!rest.contains(other));
    }
}

} // verus!
