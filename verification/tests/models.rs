use astrum_core::models_manager::{ModelsManager, Provider, ProviderKind};
use astrum_core::session::DbError;
use astrum_core::unique_id::UniqueId;

fn mem_db() -> rusqlite::Connection {
    rusqlite::Connection::open_in_memory().unwrap()
}

#[test]
fn test_provider_kind_texts() {
    assert_eq!(ProviderKind::Ollama.as_str(), "ollama");
    assert_eq!(ProviderKind::Anthropic.as_str(), "anthropic");
    assert_eq!(ProviderKind::OpenAi.as_str(), "openai");
    assert_eq!(ProviderKind::from_str("ollama"), Some(ProviderKind::Ollama));
    assert_eq!(ProviderKind::from_str("anthropic"), Some(ProviderKind::Anthropic));
    assert_eq!(ProviderKind::from_str("openai"), Some(ProviderKind::OpenAi));
    assert_eq!(ProviderKind::from_str("mystery"), None);
    assert_eq!(ProviderKind::Ollama.default_url(), "http://localhost:11434");
    assert_eq!(ProviderKind::Anthropic.default_name(), "Anthropic");
}

#[test]
fn test_new_provider_and_reload() {
    let conn = mem_db();
    let mut mgr = ModelsManager::new();
    mgr.init(&conn).unwrap();
    let pid = mgr
        .new_provider(
            &conn,
            ProviderKind::Ollama,
            "Local".to_string(),
            "http://localhost:11434".to_string(),
            "icons/logo.svg".to_string(),
            5,
        )
        .unwrap();
    let p: &Provider = mgr.get_provider(&pid).unwrap();
    assert_eq!(p.name, "Local");
    assert_eq!(p.kind, ProviderKind::Ollama);

    let mut fresh = ModelsManager::new();
    fresh.init(&conn).unwrap();
    let p = fresh.get_provider(&pid).unwrap();
    assert_eq!(p.url, "http://localhost:11434");
}

#[test]
fn test_selection_round_trip() {
    let conn = mem_db();
    let pid;
    {
        let mut mgr = ModelsManager::new();
        mgr.init(&conn).unwrap();
        pid = mgr
            .new_provider(
                &conn,
                ProviderKind::OpenAi,
                "Cloud".to_string(),
                "https://api.openai.com".to_string(),
                String::new(),
                0,
            )
            .unwrap();
        mgr.set_current_provider(&conn, pid.clone(), "Cloud".to_string());
        mgr.set_current_model(&conn, "gpt-x".to_string());
        mgr.set_chat_titles_provider(&conn, pid.clone(), "Cloud".to_string());
        mgr.set_chat_titles_model(&conn, "gpt-mini".to_string());
    }
    let mut fresh = ModelsManager::new();
    fresh.init(&conn).unwrap();
    assert_eq!(fresh.current_model.provider_name.as_deref(), Some("Cloud"));
    assert_eq!(fresh.current_model.model.as_deref(), Some("gpt-x"));
    assert_eq!(fresh.chat_titles_model.model.as_deref(), Some("gpt-mini"));
    assert!(fresh.get_current_provider().is_some());
    assert!(fresh.get_chat_titles_provider().is_some());
}

#[test]
fn test_selection_of_a_deleted_provider_is_skipped() {
    let conn = mem_db();
    {
        let mut mgr = ModelsManager::new();
        mgr.init(&conn).unwrap();
        let pid = mgr
            .new_provider(
                &conn,
                ProviderKind::Anthropic,
                "Gone".to_string(),
                "https://api.anthropic.com".to_string(),
                String::new(),
                0,
            )
            .unwrap();
        mgr.set_current_provider(&conn, pid.clone(), "Gone".to_string());
        mgr.set_current_model(&conn, "model-z".to_string());
        mgr.delete_provider(&conn, &pid).unwrap();
    }
    let mut fresh = ModelsManager::new();
    fresh.init(&conn).unwrap();
    assert!(fresh.current_model.provider_id.is_none());
    assert!(fresh.get_current_provider().is_none());
}

#[test]
fn test_clear_selection_persists() {
    let conn = mem_db();
    {
        let mut mgr = ModelsManager::new();
        mgr.init(&conn).unwrap();
        let pid = mgr
            .new_provider(
                &conn,
                ProviderKind::Ollama,
                "Local".to_string(),
                "http://localhost:11434".to_string(),
                String::new(),
                0,
            )
            .unwrap();
        mgr.set_current_provider(&conn, pid, "Local".to_string());
        mgr.clear_current_selection(&conn);
        mgr.clear_chat_titles_selection(&conn);
    }
    let mut fresh = ModelsManager::new();
    fresh.init(&conn).unwrap();
    assert!(fresh.current_model.provider_id.is_none());
    assert!(fresh.current_model.model.is_none());
    assert!(fresh.chat_titles_model.provider_id.is_none());
}

#[test]
fn test_edit_provider_url() {
    let conn = mem_db();
    let mut mgr = ModelsManager::new();
    mgr.init(&conn).unwrap();
    let pid = mgr
        .new_provider(
            &conn,
            ProviderKind::Ollama,
            "Local".to_string(),
            "http://localhost:11434".to_string(),
            String::new(),
            0,
        )
        .unwrap();
    mgr.edit_provider_url(&conn, &pid, "http://localhost:9999".to_string(), 1)
        .unwrap();
    assert_eq!(mgr.get_provider(&pid).unwrap().url, "http://localhost:9999");

    let mut fresh = ModelsManager::new();
    fresh.init(&conn).unwrap();
    assert_eq!(fresh.get_provider(&pid).unwrap().url, "http://localhost:9999");

    let missing = UniqueId::from_string("missing".to_string());
    assert!(mgr.edit_provider_url(&conn, &missing, "x".to_string(), 2).is_err());
}

#[test]
fn test_delete_provider_clears_cached_models() {
    let conn = mem_db();
    let mut mgr = ModelsManager::new();
    mgr.init(&conn).unwrap();
    let pid = mgr
        .new_provider(
            &conn,
            ProviderKind::Ollama,
            "Local".to_string(),
            "http://localhost:11434".to_string(),
            String::new(),
            0,
        )
        .unwrap();
    mgr.models_cache.refresh_models_for_provider(
        pid.clone(),
        "Local".to_string(),
        vec!["m1".to_string()],
        0,
    );
    assert_eq!(mgr.models_cache.get_all_models().len(), 1);
    mgr.delete_provider(&conn, &pid).unwrap();
    assert!(mgr.models_cache.get_all_models().is_empty());
    assert!(mgr.get_provider(&pid).is_none());
}

#[test]
fn test_newest_provider_is_listed_first() {
    let conn = mem_db();
    let mut mgr = ModelsManager::new();
    mgr.init(&conn).unwrap();
    let p1 = mgr
        .new_provider(
            &conn,
            ProviderKind::Ollama,
            "First".to_string(),
            "http://a".to_string(),
            String::new(),
            0,
        )
        .unwrap();
    let p2 = mgr
        .new_provider(
            &conn,
            ProviderKind::OpenAi,
            "Second".to_string(),
            "http://b".to_string(),
            String::new(),
            1,
        )
        .unwrap();
    let keys: Vec<String> = mgr
        .providers
        .keys()
        .iter()
        .map(|k| k.as_str().to_string())
        .collect();
    assert_eq!(keys, vec![p2.as_str().to_string(), p1.as_str().to_string()]);
}

#[test]
fn test_prune_dangling_selections() {
    let conn = mem_db();
    let mut mgr = ModelsManager::new();
    mgr.init(&conn).unwrap();
    let keep = mgr
        .new_provider(
            &conn,
            ProviderKind::Ollama,
            "Keep".to_string(),
            "http://a".to_string(),
            String::new(),
            0,
        )
        .unwrap();
    let drop = mgr
        .new_provider(
            &conn,
            ProviderKind::OpenAi,
            "Drop".to_string(),
            "http://b".to_string(),
            String::new(),
            1,
        )
        .unwrap();
    mgr.set_current_provider(&conn, keep.clone(), "Keep".to_string());
    mgr.set_chat_titles_provider(&conn, drop.clone(), "Drop".to_string());
    mgr.delete_provider(&conn, &drop).unwrap();
    mgr.prune_dangling_selections(&conn);
    assert!(mgr.current_model.provider_id.is_some());
    assert!(mgr.chat_titles_model.provider_id.is_none());
    assert!(mgr.chat_titles_model.model.is_none());
}

#[test]
fn test_unknown_provider_kind_is_a_data_error() {
    let conn = mem_db();
    // a providers table without the kind constraint, as a foreign tool
    // might have left it
    conn.execute_batch(
        "CREATE TABLE providers (id TEXT PRIMARY KEY, kind TEXT NOT NULL, name TEXT NOT NULL, url TEXT NOT NULL, icon TEXT, created_at DATETIME NOT NULL, edited_at DATETIME NOT NULL);",
    )
    .unwrap();
    conn.execute(
        "INSERT INTO providers (id, kind, name, url, icon, created_at, edited_at) VALUES ('x', 'mystery', 'X', 'http://x', NULL, 0, 0)",
        [],
    )
    .unwrap();
    let mut mgr = ModelsManager::new();
    let r = mgr.load_providers_from_db(&conn);
    assert!(matches!(r, Err(DbError::Error(_))));
}

#[test]
fn test_api_key_name_composition() {
    let pid = UniqueId::from_string("abc123".to_string());
    let name = ModelsManager::construct_provider_api_key_name(&pid, "Ollama");
    assert_eq!(name, "chat.astrum.astrum:provider:Ollama:abc123");
}

#[test]
fn test_get_or_load_provider_falls_back_to_the_store() {
    let conn = mem_db();
    let mut mgr = ModelsManager::new();
    mgr.init(&conn).unwrap();
    // another writer adds a provider row after initialization
    conn.execute(
        "INSERT INTO providers (id, kind, name, url, icon, created_at, edited_at) VALUES ('late', 'ollama', 'Late', 'http://late', NULL, 0, 0)",
        [],
    )
    .unwrap();
    let late = UniqueId::from_string("late".to_string());
    assert!(mgr.get_provider(&late).is_none());
    let p = mgr.get_or_load_provider(&conn, &late).unwrap();
    assert_eq!(p.name, "Late");
    assert_eq!(p.kind, ProviderKind::Ollama);
    // now cached: served again without a row
    assert!(mgr.get_provider(&late).is_some());
    assert!(mgr.get_or_load_provider(&conn, &late).is_ok());

    let absent = UniqueId::from_string("nobody".to_string());
    assert!(mgr.get_or_load_provider(&conn, &absent).is_err());
}
