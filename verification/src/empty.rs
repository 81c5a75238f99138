//! The emptiness capability: how a value tells the pool that it no longer
//! needs to be kept.
use crate::raw::map_is_empty;
use crate::raw::set_is_empty;
use dashmap::DashMap;
use dashmap::DashSet;
use std::collections::BTreeMap;
use std::collections::BTreeSet;
use std::collections::HashMap;
use std::collections::HashSet;
use std::collections::VecDeque;
use std::hash::Hash;
use std::rc::Rc;
use std::sync::Arc;
use vstd::prelude::*;

verus! {

/// A value that can say whether it is empty. The pool asks when a handle is
/// released, while the handle still has access to the value; an entry whose
/// value is empty is removed once nobody else refers to its lock.
///
/// `is_empty` must not change the value. For a type whose answer is a function
/// of the value alone, `obeys_empty_spec` holds and `spec_is_empty` is that
/// function. A type that other threads can change behind a shared reference
/// cannot promise this, and leaves `obeys_empty_spec` false.
pub trait Empty {
    /// Whether `is_empty` returns what `spec_is_empty` says. An implementation
    /// that says nothing promises nothing.
    open spec fn obeys_empty_spec() -> bool {
        false
    }

    /// Whether the value is empty.
    open spec fn spec_is_empty(&self) -> bool {
        false
    }

    fn is_empty(&self) -> (empty: bool)
        ensures
            Self::obeys_empty_spec() ==> empty == self.spec_is_empty(),
    ;
}

/// A box is empty when its content is.
impl<T: Empty> Empty for Box<T> {
    open spec fn obeys_empty_spec() -> bool {
        T::obeys_empty_spec()
    }

    open spec fn spec_is_empty(&self) -> bool {
        (**self).spec_is_empty()
    }

    fn is_empty(&self) -> (empty: bool) {
        (**self).is_empty()
    }
}

/// A reference-counted pointer is empty when what it points to is.
impl<T: Empty> Empty for Rc<T> {
    open spec fn obeys_empty_spec() -> bool {
        T::obeys_empty_spec()
    }

    open spec fn spec_is_empty(&self) -> bool {
        (**self).spec_is_empty()
    }

    fn is_empty(&self) -> (empty: bool) {
        (**self).is_empty()
    }
}

/// An atomically reference-counted pointer is empty when what it points to is.
impl<T: Empty> Empty for Arc<T> {
    open spec fn obeys_empty_spec() -> bool {
        T::obeys_empty_spec()
    }

    open spec fn spec_is_empty(&self) -> bool {
        (**self).spec_is_empty()
    }

    fn is_empty(&self) -> (empty: bool) {
        (**self).is_empty()
    }
}

/// The unit value is always empty: a pool of plain locks keeps no entry that
/// nobody holds.
impl Empty for () {
    open spec fn obeys_empty_spec() -> bool {
        true
    }

    open spec fn spec_is_empty(&self) -> bool {
        true
    }

    fn is_empty(&self) -> (empty: bool) {
        true
    }
}

/// A number carries nothing that the pool would have to keep: `u8` is
/// always empty.
impl Empty for u8 {
    open spec fn obeys_empty_spec() -> bool {
        true
    }

    open spec fn spec_is_empty(&self) -> bool {
        true
    }

    fn is_empty(&self) -> (empty: bool) {
        true
    }
}

/// A number carries nothing that the pool would have to keep: `u16` is
/// always empty.
impl Empty for u16 {
    open spec fn obeys_empty_spec() -> bool {
        true
    }

    open spec fn spec_is_empty(&self) -> bool {
        true
    }

    fn is_empty(&self) -> (empty: bool) {
        true
    }
}

/// A number carries nothing that the pool would have to keep: `u32` is
/// always empty.
impl Empty for u32 {
    open spec fn obeys_empty_spec() -> bool {
        true
    }

    open spec fn spec_is_empty(&self) -> bool {
        true
    }

    fn is_empty(&self) -> (empty: bool) {
        true
    }
}

/// A number carries nothing that the pool would have to keep: `u64` is
/// always empty.
impl Empty for u64 {
    open spec fn obeys_empty_spec() -> bool {
        true
    }

    open spec fn spec_is_empty(&self) -> bool {
        true
    }

    fn is_empty(&self) -> (empty: bool) {
        true
    }
}

/// A number carries nothing that the pool would have to keep: `u128` is
/// always empty.
impl Empty for u128 {
    open spec fn obeys_empty_spec() -> bool {
        true
    }

    open spec fn spec_is_empty(&self) -> bool {
        true
    }

    fn is_empty(&self) -> (empty: bool) {
        true
    }
}

/// A number carries nothing that the pool would have to keep: `usize` is
/// always empty.
impl Empty for usize {
    open spec fn obeys_empty_spec() -> bool {
        true
    }

    open spec fn spec_is_empty(&self) -> bool {
        true
    }

    fn is_empty(&self) -> (empty: bool) {
        true
    }
}

/// A number carries nothing that the pool would have to keep: `i8` is
/// always empty.
impl Empty for i8 {
    open spec fn obeys_empty_spec() -> bool {
        true
    }

    open spec fn spec_is_empty(&self) -> bool {
        true
    }

    fn is_empty(&self) -> (empty: bool) {
        true
    }
}

/// A number carries nothing that the pool would have to keep: `i16` is
/// always empty.
impl Empty for i16 {
    open spec fn obeys_empty_spec() -> bool {
        true
    }

    open spec fn spec_is_empty(&self) -> bool {
        true
    }

    fn is_empty(&self) -> (empty: bool) {
        true
    }
}

/// A number carries nothing that the pool would have to keep: `i32` is
/// always empty.
impl Empty for i32 {
    open spec fn obeys_empty_spec() -> bool {
        true
    }

    open spec fn spec_is_empty(&self) -> bool {
        true
    }

    fn is_empty(&self) -> (empty: bool) {
        true
    }
}

/// A number carries nothing that the pool would have to keep: `i64` is
/// always empty.
impl Empty for i64 {
    open spec fn obeys_empty_spec() -> bool {
        true
    }

    open spec fn spec_is_empty(&self) -> bool {
        true
    }

    fn is_empty(&self) -> (empty: bool) {
        true
    }
}

/// A number carries nothing that the pool would have to keep: `i128` is
/// always empty.
impl Empty for i128 {
    open spec fn obeys_empty_spec() -> bool {
        true
    }

    open spec fn spec_is_empty(&self) -> bool {
        true
    }

    fn is_empty(&self) -> (empty: bool) {
        true
    }
}

/// A number carries nothing that the pool would have to keep: `isize` is
/// always empty.
impl Empty for isize {
    open spec fn obeys_empty_spec() -> bool {
        true
    }

    open spec fn spec_is_empty(&self) -> bool {
        true
    }

    fn is_empty(&self) -> (empty: bool) {
        true
    }
}

/// An option is empty when it is `None`.
impl<V> Empty for Option<V> {
    open spec fn obeys_empty_spec() -> bool {
        true
    }

    open spec fn spec_is_empty(&self) -> bool {
        *self is None
    }

    fn is_empty(&self) -> (empty: bool) {
        self.is_none()
    }
}

/// A vector is empty when it has no element.
impl<V> Empty for Vec<V> {
    open spec fn obeys_empty_spec() -> bool {
        true
    }

    open spec fn spec_is_empty(&self) -> bool {
        self@.len() == 0
    }

    fn is_empty(&self) -> (empty: bool) {
        Vec::is_empty(self)
    }
}

/// A double-ended queue is empty when it has no element.
impl<V> Empty for VecDeque<V> {
    open spec fn obeys_empty_spec() -> bool {
        true
    }

    open spec fn spec_is_empty(&self) -> bool {
        self@.len() == 0
    }

    fn is_empty(&self) -> (empty: bool) {
        self.len() == 0
    }
}

/// An ordered map is empty when it has no key.
impl<K, V> Empty for BTreeMap<K, V> {
    open spec fn obeys_empty_spec() -> bool {
        true
    }

    open spec fn spec_is_empty(&self) -> bool {
        self@.is_empty()
    }

    fn is_empty(&self) -> (empty: bool) {
        BTreeMap::is_empty(self)
    }
}

/// An ordered set is empty when it has no element.
impl<V> Empty for BTreeSet<V> {
    open spec fn obeys_empty_spec() -> bool {
        true
    }

    open spec fn spec_is_empty(&self) -> bool {
        self@.is_empty()
    }

    fn is_empty(&self) -> (empty: bool) {
        BTreeSet::is_empty(self)
    }
}

/// A hash map is empty when it has no key.
impl<K, V> Empty for HashMap<K, V> {
    open spec fn obeys_empty_spec() -> bool {
        true
    }

    open spec fn spec_is_empty(&self) -> bool {
        self@.is_empty()
    }

    fn is_empty(&self) -> (empty: bool) {
        HashMap::is_empty(self)
    }
}

/// A hash set is empty when it has no element.
impl<V> Empty for HashSet<V> {
    open spec fn obeys_empty_spec() -> bool {
        true
    }

    open spec fn spec_is_empty(&self) -> bool {
        self@.is_empty()
    }

    fn is_empty(&self) -> (empty: bool) {
        HashSet::is_empty(self)
    }
}

/// Whether `empty` is what `DashMap::is_empty` answered for `map`. The answer
/// holds for the moment it was given.
pub closed spec fn map_answered_empty<K: Eq + Hash, V>(map: &DashMap<K, V>, empty: bool) -> bool {
    call_ensures(map_is_empty::<K, V>, (map,), empty)
}

/// Whether `empty` is what `DashSet::is_empty` answered for `set`. The answer
/// holds for the moment it was given.
pub closed spec fn set_answered_empty<K: Eq + Hash>(set: &DashSet<K>, empty: bool) -> bool {
    call_ensures(set_is_empty::<K>, (set,), empty)
}

/// A concurrent map answers for the moment of the call: other threads may
/// change it through a shared reference, so its answer is no function of the
/// value, and the implementation promises nothing about it.
impl<K: Eq + Hash, V> Empty for DashMap<K, V> {
    fn is_empty(&self) -> (empty: bool)
        ensures
            map_answered_empty(self, empty),
    {
        map_is_empty(self)
    }
}

/// A concurrent set answers for the moment of the call, as a concurrent map does.
impl<K: Eq + Hash> Empty for DashSet<K> {
    fn is_empty(&self) -> (empty: bool)
        ensures
            set_answered_empty(self, empty),
    {
        set_is_empty(self)
    }
}

} // verus!
