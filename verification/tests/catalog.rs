use astrum_core::catalog::ModelsCache;
use astrum_core::unique_id::UniqueId;

fn id(s: &str) -> UniqueId {
    UniqueId::from_string(s.to_string())
}

fn models(names: &[&str]) -> Vec<String> {
    names.iter().map(|s| s.to_string()).collect()
}

#[test]
fn test_ttl_staleness_scenario() {
    // TTL = 120 s; refresh at t = 0: fresh at 60, stale at 121
    let mut cache = ModelsCache::new();
    let p = id("p1");
    cache.refresh_models_for_provider(p.clone(), "Ollama".to_string(), models(&["a", "b"]), 0);
    assert!(!cache.is_provider_stale(&p, 60));
    assert!(cache.is_provider_stale(&p, 121));
}

#[test]
fn test_get_fresh_around_the_ttl_boundary() {
    let mut cache = ModelsCache::new();
    let p = id("p1");
    cache.refresh_models_for_provider(p.clone(), "Ollama".to_string(), models(&["a", "b"]), 0);
    let hit = cache.get_provider_models(&p, 119);
    assert!(hit.is_some());
    let (name, list) = hit.unwrap();
    assert_eq!(name, "Ollama");
    assert_eq!(list, &models(&["a", "b"]));
    assert!(cache.get_provider_models(&p, 121).is_none());
}

#[test]
fn test_missing_provider_is_stale() {
    let cache = ModelsCache::new();
    assert!(cache.is_provider_stale(&id("nobody"), 0));
    assert!(cache.get_provider_models(&id("nobody"), 0).is_none());
}

#[test]
fn test_refresh_overwrites_and_rebuilds() {
    let mut cache = ModelsCache::new();
    let p = id("p1");
    cache.refresh_models_for_provider(p.clone(), "Ollama".to_string(), models(&["a"]), 0);
    cache.refresh_models_for_provider(p.clone(), "Ollama".to_string(), models(&["b", "c"]), 10);
    let all = cache.get_all_models();
    assert_eq!(all.len(), 2);
    assert_eq!(all[0].model_id, "b");
    assert_eq!(all[1].model_id, "c");
    assert!(!cache.is_provider_stale(&p, 100));
}

#[test]
fn test_all_models_spans_providers() {
    let mut cache = ModelsCache::new();
    cache.refresh_models_for_provider(id("p1"), "One".to_string(), models(&["m1"]), 0);
    cache.refresh_models_for_provider(id("p2"), "Two".to_string(), models(&["m2", "m3"]), 0);
    let all = cache.get_all_models();
    assert_eq!(all.len(), 3);
    let mut seen: Vec<(String, String)> = all
        .iter()
        .map(|m| (m.provider_name.clone(), m.model_id.clone()))
        .collect();
    seen.sort();
    assert_eq!(
        seen,
        vec![
            ("One".to_string(), "m1".to_string()),
            ("Two".to_string(), "m2".to_string()),
            ("Two".to_string(), "m3".to_string()),
        ]
    );
}

#[test]
fn test_detect_config_change_first_call_is_silent() {
    let mut cache = ModelsCache::new();
    let p = id("p1");
    assert!(!cache.detect_config_change(&p, "http://localhost:11434", "key-1"));
}

#[test]
fn test_detect_config_change_exact_conditions() {
    let mut cache = ModelsCache::new();
    let p = id("p1");
    assert!(!cache.detect_config_change(&p, "http://a", "key-1"));
    // same values again and again: no change reported
    assert!(!cache.detect_config_change(&p, "http://a", "key-1"));
    assert!(!cache.detect_config_change(&p, "http://a", "key-1"));
    // a different URL is a change
    assert!(cache.detect_config_change(&p, "http://b", "key-1"));
    assert!(!cache.detect_config_change(&p, "http://b", "key-1"));
    // a credential whose digest differs is a change
    assert!(cache.detect_config_change(&p, "http://b", "key-2"));
    assert!(!cache.detect_config_change(&p, "http://b", "key-2"));
    // both at once still one change
    assert!(cache.detect_config_change(&p, "http://c", "key-3"));
}

#[test]
fn test_delete_drops_models_and_fingerprint() {
    let mut cache = ModelsCache::new();
    let p = id("p1");
    cache.refresh_models_for_provider(p.clone(), "One".to_string(), models(&["m"]), 0);
    assert!(!cache.detect_config_change(&p, "http://a", "k"));
    assert!(cache.detect_config_change(&p, "http://b", "k"));
    cache.delete_models_for_provider(&p);
    assert!(cache.is_provider_stale(&p, 0));
    assert!(cache.get_all_models().is_empty());
    // the fingerprint is gone too: the next call is a first call again
    assert!(!cache.detect_config_change(&p, "http://z", "other"));
}
