use dashmap::DashMap;
use dashmap::DashSet;
use key_mutex::Empty;
use std::collections::BTreeMap;
use std::collections::BTreeSet;
use std::collections::HashMap;
use std::collections::HashSet;
use std::collections::VecDeque;
use std::rc::Rc;
use std::sync::Arc;

struct Counter {
    hits: u32,
}

impl Empty for Counter {
    fn is_empty(&self) -> bool {
        self.hits == 0
    }
}

#[test]
fn unit_is_always_empty() {
    assert!(().is_empty());
}

#[test]
fn numbers_are_always_empty() {
    assert!(Empty::is_empty(&0u8));
    assert!(Empty::is_empty(&7u8));
    assert!(Empty::is_empty(&7u16));
    assert!(Empty::is_empty(&7u32));
    assert!(Empty::is_empty(&u64::MAX));
    assert!(Empty::is_empty(&7u128));
    assert!(Empty::is_empty(&7usize));
    assert!(Empty::is_empty(&-7i8));
    assert!(Empty::is_empty(&7i16));
    assert!(Empty::is_empty(&i32::MIN));
    assert!(Empty::is_empty(&7i64));
    assert!(Empty::is_empty(&7i128));
    assert!(Empty::is_empty(&7isize));
}

#[test]
fn option_is_empty_when_none() {
    assert!(Empty::is_empty(&None::<u8>));
    assert!(!Empty::is_empty(&Some(0u8)));
    assert!(!Empty::is_empty(&Some(Vec::<u8>::new())));
}

#[test]
fn vec_is_empty_without_elements() {
    assert!(Empty::is_empty(&Vec::<u8>::new()));
    assert!(!Empty::is_empty(&vec![0u8]));
}

#[test]
fn vec_deque_is_empty_without_elements() {
    let mut queue = VecDeque::new();
    assert!(Empty::is_empty(&queue));
    queue.push_back(1u8);
    assert!(!Empty::is_empty(&queue));
    queue.pop_front();
    assert!(Empty::is_empty(&queue));
}

#[test]
fn btree_map_is_empty_without_keys() {
    let mut map = BTreeMap::new();
    assert!(Empty::is_empty(&map));
    map.insert(1u8, "one");
    assert!(!Empty::is_empty(&map));
}

#[test]
fn btree_set_is_empty_without_elements() {
    let mut set = BTreeSet::new();
    assert!(Empty::is_empty(&set));
    set.insert("one".to_owned());
    assert!(!Empty::is_empty(&set));
}

#[test]
fn hash_map_is_empty_without_keys() {
    let mut map = HashMap::new();
    assert!(Empty::is_empty(&map));
    map.insert(1u8, "one");
    assert!(!Empty::is_empty(&map));
}

#[test]
fn hash_set_is_empty_without_elements() {
    let mut set = HashSet::new();
    assert!(Empty::is_empty(&set));
    set.insert(1u8);
    assert!(!Empty::is_empty(&set));
}

#[test]
fn dash_map_is_empty_without_keys() {
    let map = DashMap::new();
    assert!(Empty::is_empty(&map));
    map.insert(1u8, "one");
    assert!(!Empty::is_empty(&map));
    map.remove(&1);
    assert!(Empty::is_empty(&map));
}

#[test]
fn dash_set_is_empty_without_elements() {
    let set = DashSet::new();
    assert!(Empty::is_empty(&set));
    set.insert(1u8);
    assert!(!Empty::is_empty(&set));
}

#[test]
fn pointers_answer_for_what_they_point_to() {
    assert!(Empty::is_empty(&Box::new(Vec::<u8>::new())));
    assert!(!Empty::is_empty(&Box::new(vec![1u8])));
    assert!(Empty::is_empty(&Rc::new(None::<u8>)));
    assert!(!Empty::is_empty(&Rc::new(Some(1u8))));
    assert!(Empty::is_empty(&Arc::new(Vec::<u8>::new())));
    assert!(!Empty::is_empty(&Arc::new(vec![1u8])));
    assert!(!Empty::is_empty(&Box::new(Arc::new(Rc::new(vec![1u8])))));
    assert!(Empty::is_empty(&Box::new(Arc::new(Rc::new(())))));
}

#[test]
fn a_type_of_the_caller_decides_for_itself() {
    assert!(Counter { hits: 0 }.is_empty());
    assert!(!Counter { hits: 2 }.is_empty());
    assert!(!Empty::is_empty(&Box::new(Counter { hits: 2 })));
}
