use astrum_core::chats_manager::{ChatsManager, StreamEvent};
use astrum_core::models_manager::{ModelsManager, ProviderKind};
use astrum_core::session::accumulate_title_chunk;
use astrum_core::orchestrator::StreamingOrchestrator;
use astrum_core::session::{Chat, DbError, MessageRole};
use astrum_core::unique_id::UniqueId;

fn mem_db() -> rusqlite::Connection {
    rusqlite::Connection::open_in_memory().unwrap()
}

fn content_of(mgr: &ChatsManager, chat_id: &UniqueId, mid: &UniqueId) -> String {
    let chats = mgr.chats.as_ref().unwrap();
    let chat = chats.get(chat_id).unwrap();
    let messages = chat.read_messages();
    let found = messages.iter().find(|(id, _)| *id == mid).unwrap();
    found.1.content.clone()
}

#[test]
fn test_create_chat_and_push_message() {
    let conn = mem_db();
    let mut mgr = ChatsManager::new();
    mgr.init(&conn).unwrap();
    let chat_id = mgr.create_chat(&conn, 1000).unwrap();
    let mid = mgr
        .push_message(&conn, &chat_id, 1001, "hello".to_string(), MessageRole::User)
        .unwrap();
    assert_eq!(content_of(&mgr, &chat_id, &mid), "hello");

    // the durable copy agrees
    let loaded = Chat::load_from_db(&conn, chat_id.clone()).unwrap();
    let messages = loaded.read_messages();
    assert_eq!(messages.len(), 1);
    assert_eq!(messages[0].1.content, "hello");
    assert_eq!(messages[0].1.role, MessageRole::User);
}

#[test]
fn test_push_message_content_concatenates_in_commit_order() {
    let conn = mem_db();
    let mut mgr = ChatsManager::new();
    mgr.init(&conn).unwrap();
    let chat_id = mgr.create_chat(&conn, 0).unwrap();
    let mid = mgr
        .push_message(&conn, &chat_id, 1, String::new(), MessageRole::Assistant)
        .unwrap();
    mgr.push_message_content(&conn, &chat_id, &mid, 2, "Hel").unwrap();
    mgr.push_message_content(&conn, &chat_id, &mid, 3, "lo").unwrap();
    assert_eq!(content_of(&mgr, &chat_id, &mid), "Hello");

    // memory converged to the stored content
    let stored: String = conn
        .query_row(
            "SELECT content FROM messages WHERE id = ?1",
            [mid.as_str()],
            |row| row.get(0),
        )
        .unwrap();
    assert_eq!(stored, "Hello");
}

#[test]
fn test_desync_is_resolved_with_the_store_as_authority() {
    let conn = mem_db();
    let mut mgr = ChatsManager::new();
    mgr.init(&conn).unwrap();
    let chat_id = mgr.create_chat(&conn, 0).unwrap();
    let mid = mgr
        .push_message(&conn, &chat_id, 1, "base".to_string(), MessageRole::Assistant)
        .unwrap();

    // an interleaved writer changes the durable copy behind our back
    conn.execute(
        "UPDATE messages SET content = 'rewritten' WHERE id = ?1",
        [mid.as_str()],
    )
    .unwrap();

    // the next append detects the mismatch and adopts the store's value
    mgr.push_message_content(&conn, &chat_id, &mid, 2, "+d").unwrap();
    assert_eq!(content_of(&mgr, &chat_id, &mid), "rewritten+d");
}

#[test]
fn test_push_message_content_without_row_is_a_storage_error() {
    let conn = mem_db();
    let mut mgr = ChatsManager::new();
    mgr.init(&conn).unwrap();
    let chat_id = mgr.create_chat(&conn, 0).unwrap();
    let ghost_message = UniqueId::from_string("no-such-message".to_string());
    let r = mgr.push_message_content(&conn, &chat_id, &ghost_message, 1, "x");
    assert!(matches!(r, Err(DbError::SqliteError(_))));
}

#[test]
fn test_uninitialized_manager_reports_missing_data() {
    let conn = mem_db();
    let mut mgr = ChatsManager::new();
    mgr.set_current_chat(UniqueId::from_string("c1".to_string()));
    let r = mgr.get_current_chat(&conn);
    assert!(matches!(r, Err(DbError::MissingData(_))));
}

#[test]
fn test_chats_order_follows_last_edit() {
    let conn = mem_db();
    let mut mgr = ChatsManager::new();
    mgr.init(&conn).unwrap();
    let a = mgr.create_chat(&conn, 10).unwrap();
    let b = mgr.create_chat(&conn, 20).unwrap();
    {
        let chats = mgr.chats.as_ref().unwrap();
        let in_order: Vec<String> = chats
            .values()
            .iter()
            .map(|c| c.chat_id.as_str().to_string())
            .collect();
        assert_eq!(in_order, vec![b.as_str().to_string(), a.as_str().to_string()]);
    }
    // an append to the older chat moves it to the front
    mgr.push_message(&conn, &a, 30, "hi".to_string(), MessageRole::User)
        .unwrap();
    let chats = mgr.chats.as_ref().unwrap();
    let in_order: Vec<String> = chats
        .values()
        .iter()
        .map(|c| c.chat_id.as_str().to_string())
        .collect();
    assert_eq!(in_order, vec![a.as_str().to_string(), b.as_str().to_string()]);
}

#[test]
fn test_set_title_persists() {
    let conn = mem_db();
    let mut mgr = ChatsManager::new();
    mgr.init(&conn).unwrap();
    let chat_id = mgr.create_chat(&conn, 0).unwrap();
    {
        let chats = mgr.chats.as_mut().unwrap();
        let mut chat = chats.remove(&chat_id).unwrap();
        assert_eq!(chat.title, "Untitled Chat");
        chat.set_title(&conn, 5, "Trip planning".to_string()).unwrap();
        let order = chat.edited_at;
        chats.insert(chat_id.clone(), chat, order);
    }
    let loaded = Chat::load_from_db(&conn, chat_id).unwrap();
    assert_eq!(loaded.title, "Trip planning");
    assert_eq!(loaded.edited_at, 5);
}

#[test]
fn test_init_reloads_chats_from_the_store() {
    let conn = mem_db();
    let chat_id;
    {
        let mut mgr = ChatsManager::new();
        mgr.init(&conn).unwrap();
        chat_id = mgr.create_chat(&conn, 7).unwrap();
        mgr.push_message(&conn, &chat_id, 8, "persisted".to_string(), MessageRole::User)
            .unwrap();
    }
    let mut fresh = ChatsManager::new();
    fresh.init(&conn).unwrap();
    let chats = fresh.chats.as_ref().unwrap();
    let chat = chats.get(&chat_id).unwrap();
    let messages = chat.read_messages();
    assert_eq!(messages.len(), 1);
    assert_eq!(messages[0].1.content, "persisted");
}

#[test]
fn test_send_message_and_stream_to_completion() {
    let conn = mem_db();
    let mut mgr = ChatsManager::new();
    let mut orch = StreamingOrchestrator::new();
    mgr.init(&conn).unwrap();

    let (mid, gen) = mgr
        .send_message(&mut orch, &conn, 100, "What is a monad?".to_string())
        .unwrap();
    assert!(orch.is_streaming());
    let chat_id = mgr.get_current_chat_id().unwrap().clone();
    assert_eq!(content_of(&mgr, &chat_id, &mid), "");

    let more = mgr
        .handle_stream_event(&mut orch, &conn, &chat_id, &mid, gen, 101, StreamEvent::Delta("A mon".to_string()))
        .unwrap();
    assert!(more);
    let more = mgr
        .handle_stream_event(&mut orch, &conn, &chat_id, &mid, gen, 102, StreamEvent::Delta("ad".to_string()))
        .unwrap();
    assert!(more);
    let more = mgr
        .handle_stream_event(&mut orch, &conn, &chat_id, &mid, gen, 103, StreamEvent::Completed)
        .unwrap();
    assert!(!more);
    assert!(!orch.is_streaming());
    assert_eq!(content_of(&mgr, &chat_id, &mid), "A monad");
}

#[test]
fn test_new_send_cancels_the_prior_stream() {
    let conn = mem_db();
    let mut mgr = ChatsManager::new();
    let mut orch = StreamingOrchestrator::new();
    mgr.init(&conn).unwrap();

    let (mid1, gen1) = mgr
        .send_message(&mut orch, &conn, 10, "first".to_string())
        .unwrap();
    let chat_id = mgr.get_current_chat_id().unwrap().clone();
    mgr.handle_stream_event(&mut orch, &conn, &chat_id, &mid1, gen1, 11, StreamEvent::Delta("abc".to_string()))
        .unwrap();

    let (mid2, gen2) = mgr
        .send_message(&mut orch, &conn, 12, "second".to_string())
        .unwrap();

    // the prior generation's deltas are dropped: its content stops growing
    let more = mgr
        .handle_stream_event(&mut orch, &conn, &chat_id, &mid1, gen1, 13, StreamEvent::Delta("XYZ".to_string()))
        .unwrap();
    assert!(!more);
    assert_eq!(content_of(&mgr, &chat_id, &mid1), "abc");

    // the new generation streams normally
    mgr.handle_stream_event(&mut orch, &conn, &chat_id, &mid2, gen2, 14, StreamEvent::Delta("ok".to_string()))
        .unwrap();
    assert_eq!(content_of(&mgr, &chat_id, &mid2), "ok");
    // the prior task's pending cleanup races in last and clears the flag
    mgr.handle_stream_event(&mut orch, &conn, &chat_id, &mid1, gen1, 15, StreamEvent::Completed)
        .unwrap();
    assert!(!orch.is_streaming());
}

#[test]
fn test_provider_error_is_shown_as_message_content() {
    let conn = mem_db();
    let mut mgr = ChatsManager::new();
    let mut orch = StreamingOrchestrator::new();
    mgr.init(&conn).unwrap();

    let (mid, gen) = mgr
        .send_message(&mut orch, &conn, 10, "hello".to_string())
        .unwrap();
    let chat_id = mgr.get_current_chat_id().unwrap().clone();
    let more = mgr
        .handle_stream_event(
            &mut orch,
            &conn,
            &chat_id,
            &mid,
            gen,
            11,
            StreamEvent::ProviderError("connection refused".to_string()),
        )
        .unwrap();
    assert!(!more);
    assert!(!orch.is_streaming());
    assert_eq!(content_of(&mgr, &chat_id, &mid), "connection refused");
}

#[test]
fn test_message_roles_round_trip() {
    assert_eq!(MessageRole::System.as_str(), "system");
    assert_eq!(MessageRole::User.as_str(), "user");
    assert_eq!(MessageRole::Assistant.as_str(), "assistant");
    assert_eq!(MessageRole::from_str("system"), MessageRole::System);
    assert_eq!(MessageRole::from_str("user"), MessageRole::User);
    assert_eq!(MessageRole::from_str("assistant"), MessageRole::Assistant);
    assert_eq!(MessageRole::from_str("weird"), MessageRole::Assistant);
}

#[test]
fn test_get_current_chat_loads_on_a_cache_miss() {
    let conn = mem_db();
    let mut mgr = ChatsManager::new();
    mgr.init(&conn).unwrap();
    let chat_id = mgr.create_chat(&conn, 3).unwrap();
    mgr.push_message(&conn, &chat_id, 4, "kept".to_string(), MessageRole::User)
        .unwrap();
    // evict the in-memory copy; the current chat must re-derive from
    // the store
    mgr.chats.as_mut().unwrap().remove(&chat_id).unwrap();
    mgr.set_current_chat(chat_id.clone());
    let loaded = mgr.get_current_chat(&conn).unwrap().unwrap();
    assert_eq!(loaded.chat_id.as_str(), chat_id.as_str());
    assert_eq!(loaded.read_messages()[0].1.content, "kept");
}

#[test]
fn test_chats_iter_yields_most_recent_first() {
    let conn = mem_db();
    let mut mgr = ChatsManager::new();
    assert!(mgr.chats_iter().is_none());
    mgr.init(&conn).unwrap();
    let a = mgr.create_chat(&conn, 10).unwrap();
    let _b = mgr.create_chat(&conn, 20).unwrap();
    mgr.push_message(&conn, &a, 30, "bump".to_string(), MessageRole::User)
        .unwrap();
    let in_order: Vec<String> = mgr
        .chats_iter()
        .unwrap()
        .iter()
        .map(|c| c.title.clone())
        .collect();
    assert_eq!(in_order.len(), 2);
    let first = mgr.chats_iter().unwrap()[0].chat_id.as_str().to_string();
    assert_eq!(first, a.as_str().to_string());
}

#[test]
fn test_send_without_selection_writes_nothing() {
    let conn = mem_db();
    let mut mgr = ChatsManager::new();
    let mut orch = StreamingOrchestrator::new();
    let mut models = ModelsManager::new();
    mgr.init(&conn).unwrap();
    models.init(&conn).unwrap();

    // nothing selected: the send is refused and nothing changes
    let r = mgr
        .send_message_if_selected(&mut orch, &models, &conn, 1, "hi".to_string())
        .unwrap();
    assert!(r.is_none());
    assert!(!orch.is_streaming());
    assert!(mgr.get_current_chat_id().is_none());

    // a provider alone is not enough: the model must be selected too
    let pid = models
        .new_provider(
            &conn,
            ProviderKind::Ollama,
            "Local".to_string(),
            "http://localhost:11434".to_string(),
            String::new(),
            0,
        )
        .unwrap();
    models.set_current_provider(&conn, pid, "Local".to_string());
    let r = mgr
        .send_message_if_selected(&mut orch, &models, &conn, 2, "hi".to_string())
        .unwrap();
    assert!(r.is_none());

    // with provider and model selected the send goes through
    models.set_current_model(&conn, "llama3:8b".to_string());
    assert!(orch.generation_counter() < u64::MAX);
    let r = mgr
        .send_message_if_selected(&mut orch, &models, &conn, 3, "hi".to_string())
        .unwrap();
    assert!(r.is_some());
    assert!(orch.is_streaming());
}

#[test]
fn test_send_loads_an_uncached_current_chat() {
    let conn = mem_db();
    let mut mgr = ChatsManager::new();
    let mut orch = StreamingOrchestrator::new();
    mgr.init(&conn).unwrap();
    let chat_id = mgr.create_chat(&conn, 1).unwrap();
    mgr.push_message(&conn, &chat_id, 2, "old".to_string(), MessageRole::User)
        .unwrap();
    // evict the chat; the send path must re-derive it from the store
    mgr.chats.as_mut().unwrap().remove(&chat_id).unwrap();
    mgr.set_current_chat(chat_id.clone());
    let (mid, _gen) = mgr
        .send_message(&mut orch, &conn, 3, "new".to_string())
        .unwrap();
    let chat = mgr.chats.as_ref().unwrap().get(&chat_id).unwrap();
    assert_eq!(chat.read_messages().len(), 3);
    assert_eq!(content_of(&mgr, &chat_id, &mid), "");
}

#[test]
fn test_chat_from_rows_replaces_later_duplicates() {
    let rows = vec![
        ("m1".to_string(), "one".to_string(), "user".to_string()),
        ("m2".to_string(), "two".to_string(), "assistant".to_string()),
        ("m1".to_string(), "rewritten".to_string(), "system".to_string()),
    ];
    let chat = Chat::chat_from_rows(
        UniqueId::from_string("c".to_string()),
        "T".to_string(),
        9,
        &rows,
    );
    assert_eq!(chat.title, "T");
    assert_eq!(chat.edited_at, 9);
    let messages = chat.read_messages();
    assert_eq!(messages.len(), 2);
    // the duplicate kept its position and took the later row's value
    assert_eq!(messages[0].0.as_str(), "m1");
    assert_eq!(messages[0].1.content, "rewritten");
    assert_eq!(messages[0].1.role, MessageRole::System);
    assert_eq!(messages[1].0.as_str(), "m2");
}

#[test]
fn test_title_accumulation_decision() {
    let mut acc = String::new();
    // whitespace-only accumulation shows nothing
    assert_eq!(accumulate_title_chunk(&mut acc, "  "), None);
    assert_eq!(acc, "  ");
    // once real text lands, the trimmed accumulation is the title
    assert_eq!(
        accumulate_title_chunk(&mut acc, " Trip plan"),
        Some("Trip plan".to_string())
    );
    assert_eq!(
        accumulate_title_chunk(&mut acc, "ning "),
        Some("Trip planning".to_string())
    );
    assert_eq!(acc, "   Trip planning ");
}
