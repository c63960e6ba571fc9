use astrum_core::front_map::FrontInsertMap;
use astrum_core::unique_id::UniqueId;

fn id(s: &str) -> UniqueId {
    UniqueId::from_string(s.to_string())
}

fn keys_of(m: &FrontInsertMap<i32>) -> Vec<String> {
    m.keys().iter().map(|k| k.as_str().to_string()).collect()
}

#[test]
fn test_front_and_back_insertion_order() {
    let mut m: FrontInsertMap<i32> = FrontInsertMap::new();
    assert!(m.is_empty());
    assert!(m.insert(id("a"), 1).is_none());
    assert!(m.insert(id("b"), 2).is_none());
    assert!(m.insert_front(id("c"), 3).is_none());
    assert_eq!(keys_of(&m), vec!["c", "a", "b"]);
    assert_eq!(m.len(), 3);

    let values: Vec<i32> = m.values().into_iter().copied().collect();
    assert_eq!(values, vec![3, 1, 2]);
    let pairs: Vec<(String, i32)> = m
        .iter()
        .into_iter()
        .map(|(k, v)| (k.as_str().to_string(), *v))
        .collect();
    assert_eq!(
        pairs,
        vec![("c".to_string(), 3), ("a".to_string(), 1), ("b".to_string(), 2)]
    );
}

#[test]
fn test_reinsert_keeps_position_and_returns_prior() {
    let mut m: FrontInsertMap<i32> = FrontInsertMap::new();
    m.insert(id("a"), 1);
    m.insert(id("b"), 2);
    assert_eq!(m.insert_front(id("b"), 20), Some(2));
    assert_eq!(m.insert(id("a"), 10), Some(1));
    assert_eq!(keys_of(&m), vec!["a", "b"]);
    assert_eq!(m.get(&id("a")), Some(&10));
    assert_eq!(m.get(&id("b")), Some(&20));
    assert_eq!(m.len(), 2);
}

#[test]
fn test_remove_keeps_the_order_of_the_rest() {
    let mut m: FrontInsertMap<i32> = FrontInsertMap::with_capacity(4);
    m.insert(id("a"), 1);
    m.insert(id("b"), 2);
    m.insert(id("c"), 3);
    assert_eq!(m.remove(&id("b")), Some(2));
    assert_eq!(m.remove(&id("b")), None);
    assert!(!m.contains_key(&id("b")));
    assert!(m.contains_key(&id("a")));
    assert_eq!(keys_of(&m), vec!["a", "c"]);
}

#[test]
fn test_lookup_misses() {
    let mut m: FrontInsertMap<i32> = FrontInsertMap::new();
    assert_eq!(m.get(&id("nope")), None);
    assert!(!m.contains_key(&id("nope")));
    m.insert(id("yes"), 1);
    assert_eq!(m.get(&id("nope")), None);
}

#[test]
fn test_get_mut_rewrites_in_place() {
    let mut m: FrontInsertMap<i32> = FrontInsertMap::new();
    m.insert(id("a"), 1);
    m.insert(id("b"), 2);
    if let Some(v) = m.get_mut(&id("a")) {
        *v = 100;
    }
    assert!(m.get_mut(&id("zzz")).is_none());
    assert_eq!(m.get(&id("a")), Some(&100));
    assert_eq!(keys_of(&m), vec!["a", "b"]);
}
