use astrum_core::catalog::{ModelsCache, ProviderConfigChange};
use astrum_core::coordinator::{plan_provider_refresh, FetchCoordinator, SweepAction};
use astrum_core::orchestrator::StreamingOrchestrator;
use astrum_core::unique_id::UniqueId;

fn id(s: &str) -> UniqueId {
    UniqueId::from_string(s.to_string())
}

#[test]
fn test_second_sweep_back_to_back_is_dropped() {
    // two sweeps issued without awaiting between them: exactly one runs
    let mut latch = FetchCoordinator::new();
    assert!(latch.try_begin_sweep());
    assert!(!latch.try_begin_sweep());
    latch.end_sweep();
    assert!(latch.try_begin_sweep());
}

#[test]
fn test_end_sweep_is_unconditional_and_idempotent() {
    let mut latch = FetchCoordinator::new();
    latch.end_sweep();
    assert!(!latch.is_sweep_running());
    assert!(latch.try_begin_sweep());
    assert!(latch.is_sweep_running());
    latch.end_sweep();
    latch.end_sweep();
    assert!(!latch.is_sweep_running());
}

#[test]
fn test_plan_uses_cache_while_fresh() {
    let mut cache = ModelsCache::new();
    let p = id("p1");
    cache.refresh_models_for_provider(
        p.clone(),
        "Ollama".to_string(),
        vec!["m1".to_string(), "m2".to_string()],
        100,
    );
    match plan_provider_refresh(&cache, &p, 150) {
        SweepAction::UseCached(models) => {
            assert_eq!(models, vec!["m1".to_string(), "m2".to_string()]);
        }
        SweepAction::FetchRemote => panic!("fresh cache must be served"),
    }
    match plan_provider_refresh(&cache, &p, 100 + 120) {
        SweepAction::FetchRemote => {}
        SweepAction::UseCached(_) => panic!("stale cache must not be served"),
    }
    match plan_provider_refresh(&cache, &id("unknown"), 0) {
        SweepAction::FetchRemote => {}
        SweepAction::UseCached(_) => panic!("missing cache must not be served"),
    }
}

#[test]
fn test_check_and_update_config_cache_kinds() {
    let mut cache = ModelsCache::new();
    let p = id("p1");
    // seeding from the current values: an unchanged URL is no change
    let same_url = ProviderConfigChange::Url("http://a".to_string());
    assert!(!cache.check_and_update_config_cache(&p, "http://a", "key-1", &same_url));
    // a differing URL is a change and is stored
    let new_url = ProviderConfigChange::Url("http://b".to_string());
    assert!(cache.check_and_update_config_cache(&p, "http://a", "key-1", &new_url));
    assert!(!cache.check_and_update_config_cache(&p, "http://a", "key-1", &new_url));
    // the credential dimension is compared by digest
    let same_key = ProviderConfigChange::ApiKey(Some("key-1".to_string()));
    assert!(!cache.check_and_update_config_cache(&p, "http://a", "key-1", &same_key));
    let new_key = ProviderConfigChange::ApiKey(Some("key-2".to_string()));
    assert!(cache.check_and_update_config_cache(&p, "http://a", "key-1", &new_key));
    // clearing the credential digests the empty string
    let cleared = ProviderConfigChange::ApiKey(None);
    assert!(cache.check_and_update_config_cache(&p, "http://a", "key-1", &cleared));
    assert!(!cache.check_and_update_config_cache(&p, "http://a", "key-1", &cleared));
    // a creation event always asks for a fetch
    assert!(cache.check_and_update_config_cache(&p, "http://a", "", &ProviderConfigChange::Create));
}

#[test]
fn test_restart_cancels_prior_generation() {
    // a new generation while one is active: the prior one stops growing
    let mut orch = StreamingOrchestrator::new();
    let g1 = orch.begin_generation();
    assert!(orch.is_streaming());
    assert!(orch.should_apply_delta(g1));
    let g2 = orch.begin_generation();
    assert_ne!(g1, g2);
    assert!(!orch.should_apply_delta(g1));
    assert!(orch.should_apply_delta(g2));
    // the pending cleanup brings the flag down, idempotently
    orch.finish_generation();
    assert!(!orch.is_streaming());
    orch.finish_generation();
    assert!(!orch.is_streaming());
}

#[test]
fn test_cancel_stops_deltas_without_rollback() {
    let mut orch = StreamingOrchestrator::new();
    let g = orch.begin_generation();
    orch.cancel_streaming();
    assert!(!orch.should_apply_delta(g));
    // cancellation alone does not clear the flag; the cleanup step does
    assert!(orch.is_streaming());
    orch.finish_generation();
    assert!(!orch.is_streaming());
}
