use astrum_core::ordered_cache::{CacheError, GranularBTreeMap};
use astrum_core::unique_id::UniqueId;

fn id(s: &str) -> UniqueId {
    UniqueId::from_string(s.to_string())
}

#[test]
fn test_insert_and_get() {
    let mut m: GranularBTreeMap<String> = GranularBTreeMap::new();
    m.insert(id("a"), "alpha".to_string(), 3);
    m.insert(id("b"), "beta".to_string(), 5);
    assert_eq!(m.get(&id("a")), Some(&"alpha".to_string()));
    assert_eq!(m.get(&id("b")), Some(&"beta".to_string()));
    assert_eq!(m.get(&id("c")), None);
}

#[test]
fn test_values_order_scenario() {
    // insert A(order=3), B(order=5), C(order=1): values yields B, A, C;
    // after A moves to 10: A, B, C
    let mut m: GranularBTreeMap<String> = GranularBTreeMap::new();
    m.insert(id("A"), "a".to_string(), 3);
    m.insert(id("B"), "b".to_string(), 5);
    m.insert(id("C"), "c".to_string(), 1);
    let vals: Vec<String> = m.values().into_iter().cloned().collect();
    assert_eq!(vals, vec!["b".to_string(), "a".to_string(), "c".to_string()]);

    m.update_order_for_key(&id("A"), 10).unwrap();
    let vals: Vec<String> = m.values().into_iter().cloned().collect();
    assert_eq!(vals, vec!["a".to_string(), "b".to_string(), "c".to_string()]);
}

#[test]
fn test_update_order_absent_key_fails_and_mutates_nothing() {
    let mut m: GranularBTreeMap<String> = GranularBTreeMap::new();
    m.insert(id("x"), "ex".to_string(), 7);
    let r = m.update_order_for_key(&id("missing"), 1);
    assert_eq!(r, Err(CacheError::NotFound));
    assert_eq!(m.get(&id("x")), Some(&"ex".to_string()));
    assert_eq!(m.values().len(), 1);
}

#[test]
fn test_insert_replaces_order_entry() {
    // a key never has two order positions
    let mut m: GranularBTreeMap<String> = GranularBTreeMap::new();
    m.insert(id("k"), "one".to_string(), 1);
    m.insert(id("k"), "two".to_string(), 9);
    assert_eq!(m.values().len(), 1);
    assert_eq!(m.get(&id("k")), Some(&"two".to_string()));
}

#[test]
fn test_remove_clears_both_indices() {
    let mut m: GranularBTreeMap<String> = GranularBTreeMap::new();
    m.insert(id("a"), "alpha".to_string(), 2);
    m.insert(id("b"), "beta".to_string(), 4);
    let removed = m.remove(&id("a"));
    assert_eq!(removed, Some("alpha".to_string()));
    assert_eq!(m.get(&id("a")), None);
    assert_eq!(m.values().len(), 1);
    assert_eq!(m.remove(&id("a")), None);
}

#[test]
fn test_equal_order_keys_keep_every_entry() {
    let mut m: GranularBTreeMap<String> = GranularBTreeMap::new();
    m.insert(id("a"), "alpha".to_string(), 5);
    m.insert(id("b"), "beta".to_string(), 5);
    m.insert(id("c"), "gamma".to_string(), 5);
    assert_eq!(m.values().len(), 3);
    assert!(m.get(&id("a")).is_some());
    assert!(m.get(&id("b")).is_some());
    assert!(m.get(&id("c")).is_some());
}
