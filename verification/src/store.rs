//! Trusted boundary to the durable relational store.
//!
//! The store is an external collaborator consumed through its query
//! contract only. Each wrapper here holds one statement against a
//! rusqlite connection; nothing is promised about what is on disk,
//! only what the statement itself guarantees of its returned value.

use vstd::prelude::*;

verus! {

#[verifier::external_type_specification]
#[verifier::external_body]
pub struct ExConnection(rusqlite::Connection);

#[verifier::external_type_specification]
#[verifier::external_body]
pub struct ExRusqliteError(rusqlite::Error);

/// Relies on rusqlite::Connection::execute_batch: creates the chats and
/// messages tables and their index when missing, with foreign keys on.
#[verifier::external_body]
pub(crate) fn create_chat_schema(conn: &rusqlite::Connection) -> (r: Result<(), rusqlite::Error>) {
    conn.execute_batch(
        "PRAGMA foreign_keys = ON; CREATE TABLE IF NOT EXISTS chats (id TEXT PRIMARY KEY, title TEXT, created_at DATETIME NOT NULL, edited_at DATETIME NOT NULL); CREATE TABLE IF NOT EXISTS messages (id TEXT PRIMARY KEY, chat_id TEXT NOT NULL, role TEXT NOT NULL CHECK (role IN ('system', 'user', 'assistant')), content TEXT NOT NULL, created_at DATETIME NOT NULL, edited_at DATETIME NOT NULL, FOREIGN KEY (chat_id) REFERENCES chats(id) ON DELETE CASCADE); CREATE INDEX IF NOT EXISTS idx_messages_chat ON messages(chat_id, created_at);",
    )
}

/// Relies on rusqlite::Connection::execute: inserts a chat row with the
/// given identity, title and timestamp.
#[verifier::external_body]
pub(crate) fn insert_chat_row(
    conn: &rusqlite::Connection,
    id: &str,
    title: &str,
    created_at: u64,
) -> (r: Result<(), rusqlite::Error>) {
    conn.execute(
        "INSERT INTO chats (id, title, created_at, edited_at) VALUES (?1, ?2, ?3, ?3)",
        (id, title, created_at as i64),
    ).map(|_| ())
}

/// Relies on rusqlite::Connection::execute: stores a chat's new title
/// and edit timestamp.
#[verifier::external_body]
pub(crate) fn update_chat_title_row(
    conn: &rusqlite::Connection,
    id: &str,
    title: &str,
    edited_at: u64,
) -> (r: Result<(), rusqlite::Error>) {
    conn.execute(
        "UPDATE chats SET title = ?2, edited_at = ?3 WHERE id = ?1",
        (id, title, edited_at as i64),
    ).map(|_| ())
}

/// Relies on rusqlite::Connection::execute: inserts a message row.
#[verifier::external_body]
pub(crate) fn insert_message_row(
    conn: &rusqlite::Connection,
    id: &str,
    chat_id: &str,
    role: &str,
    content: &str,
    created_at: u64,
) -> (r: Result<(), rusqlite::Error>) {
    conn.execute(
        "INSERT INTO messages (id, chat_id, role, content, created_at, edited_at) VALUES (?1, ?2, ?3, ?4, ?5, ?5)",
        (id, chat_id, role, content, created_at as i64),
    ).map(|_| ())
}

/// Relies on rusqlite::Connection::query_row over
/// `UPDATE … SET content = content || ?2 … RETURNING content`: the
/// statement atomically appends the delta to whatever content the row
/// holds and returns the result, so on success the returned string is
/// some prior content followed by the delta. Fails when the row is
/// missing.
#[verifier::external_body]
pub(crate) fn append_message_content_row(
    conn: &rusqlite::Connection,
    message_id: &str,
    delta: &str,
    edited_at: u64,
) -> (r: Result<String, rusqlite::Error>)
    ensures
        r is Ok ==> exists|prior: Seq<char>| r->Ok_0@ == #[trigger] (prior + delta@),
{
    conn.query_row(
        "UPDATE messages SET content = content || ?2, edited_at = ?3 WHERE id = ?1 RETURNING content",
        (message_id, delta, edited_at as i64),
        |row| row.get(0),
    )
}

/// Relies on rusqlite::Connection::query_row: reads a chat row's title
/// and edit timestamp.
#[verifier::external_body]
pub(crate) fn load_chat_row(conn: &rusqlite::Connection, id: &str) -> (r: Result<
    (String, u64),
    rusqlite::Error,
>) {
    conn.query_row(
        "SELECT title, edited_at FROM chats WHERE id = ?",
        [id],
        |row| Ok((row.get(0)?, row.get::<_, i64>(1)? as u64)),
    )
}

/// Relies on rusqlite::Statement::query_map: reads a chat's message rows
/// as (id, content, role), ordered by edit time.
#[verifier::external_body]
pub(crate) fn load_message_rows(conn: &rusqlite::Connection, chat_id: &str) -> (r: Result<
    Vec<(String, String, String)>,
    rusqlite::Error,
>) {
    let mut stmt = conn.prepare(
        "SELECT id, content, role FROM messages WHERE chat_id = ? ORDER BY edited_at ASC",
    )?;
    let rows = stmt.query_map([chat_id], |row| Ok((row.get(0)?, row.get(1)?, row.get(2)?)))?;
    rows.collect()
}

/// Relies on rusqlite::Statement::query_map: reads the identities of
/// all chat rows, oldest edit first.
#[verifier::external_body]
pub(crate) fn load_chat_id_rows(conn: &rusqlite::Connection) -> (r: Result<
    Vec<String>,
    rusqlite::Error,
>) {
    let mut stmt = conn.prepare("SELECT id FROM chats ORDER BY edited_at ASC")?;
    let rows = stmt.query_map([], |row| row.get(0))?;
    rows.collect()
}

/// Relies on rusqlite::Connection::execute_batch: creates the providers
/// and model_selections tables when missing.
#[verifier::external_body]
pub(crate) fn create_provider_schema(conn: &rusqlite::Connection) -> (r: Result<
    (),
    rusqlite::Error,
>) {
    conn.execute_batch(
        "PRAGMA foreign_keys = ON; CREATE TABLE IF NOT EXISTS providers (id TEXT PRIMARY KEY, kind TEXT NOT NULL CHECK (kind IN ('ollama', 'anthropic', 'openai')), name TEXT NOT NULL, url TEXT NOT NULL, icon TEXT, created_at DATETIME NOT NULL, edited_at DATETIME NOT NULL); CREATE TABLE IF NOT EXISTS model_selections (key TEXT PRIMARY KEY CHECK (key IN ('current', 'chat_titles')), provider_id TEXT, provider_name TEXT, model TEXT);",
    )
}

/// Relies on rusqlite::Connection::execute: inserts a provider row.
#[verifier::external_body]
pub(crate) fn insert_provider_row(
    conn: &rusqlite::Connection,
    id: &str,
    kind: &str,
    name: &str,
    url: &str,
    icon: &str,
    created_at: u64,
) -> (r: Result<(), rusqlite::Error>) {
    conn.execute(
        "INSERT INTO providers (id, kind, name, url, icon, created_at, edited_at) VALUES (?1, ?2, ?3, ?4, ?5, ?6, ?6)",
        (id, kind, name, url, icon, created_at as i64),
    ).map(|_| ())
}

/// Relies on rusqlite::Connection::execute: stores a provider's new URL
/// and edit timestamp.
#[verifier::external_body]
pub(crate) fn update_provider_url_row(
    conn: &rusqlite::Connection,
    id: &str,
    url: &str,
    edited_at: u64,
) -> (r: Result<(), rusqlite::Error>) {
    conn.execute(
        "UPDATE providers SET url = ?1, edited_at = ?2 WHERE id = ?3",
        (url, edited_at as i64, id),
    ).map(|_| ())
}

/// Relies on rusqlite::Connection::execute: deletes a provider row;
/// dependent rows cascade.
#[verifier::external_body]
pub(crate) fn delete_provider_row(conn: &rusqlite::Connection, id: &str) -> (r: Result<
    (),
    rusqlite::Error,
>) {
    conn.execute("DELETE FROM providers WHERE id = ?1", [id]).map(|_| ())
}

/// Relies on rusqlite::Connection::execute: stores one model selection
/// under its key, replacing any prior row.
#[verifier::external_body]
pub(crate) fn save_selection_row(
    conn: &rusqlite::Connection,
    key: &str,
    provider_id: Option<&str>,
    provider_name: Option<&str>,
    model: Option<&str>,
) -> (r: Result<(), rusqlite::Error>) {
    conn.execute(
        "INSERT OR REPLACE INTO model_selections (key, provider_id, provider_name, model) VALUES (?1, ?2, ?3, ?4)",
        (key, provider_id, provider_name, model),
    ).map(|_| ())
}

/// Relies on rusqlite::Statement::query_map: reads the stored model
/// selections as (key, provider id, provider name, model).
#[verifier::external_body]
pub(crate) fn load_selection_rows(conn: &rusqlite::Connection) -> (r: Result<
    Vec<(String, Option<String>, Option<String>, Option<String>)>,
    rusqlite::Error,
>) {
    let mut stmt = conn.prepare(
        "SELECT key, provider_id, provider_name, model FROM model_selections WHERE key IN ('current', 'chat_titles')",
    )?;
    let rows = stmt.query_map([], |row| {
        Ok((row.get(0)?, row.get(1)?, row.get(2)?, row.get(3)?))
    })?;
    rows.collect()
}

/// Relies on rusqlite::Connection::query_row: reads one provider row's
/// (kind, name, url, icon).
#[verifier::external_body]
pub(crate) fn load_provider_row(conn: &rusqlite::Connection, id: &str) -> (r: Result<
    (String, String, String, Option<String>),
    rusqlite::Error,
>) {
    conn.query_row(
        "SELECT kind, name, url, icon FROM providers WHERE id = ?1",
        [id],
        |row| Ok((row.get(0)?, row.get(1)?, row.get(2)?, row.get(3)?)),
    )
}

/// Relies on rusqlite::Statement::query_map: reads all provider rows as
/// (id, kind, name, url, icon), oldest first.
#[verifier::external_body]
pub(crate) fn load_provider_rows(conn: &rusqlite::Connection) -> (r: Result<
    Vec<(String, String, String, String, Option<String>)>,
    rusqlite::Error,
>) {
    let mut stmt = conn.prepare(
        "SELECT id, kind, name, url, icon FROM providers ORDER BY created_at",
    )?;
    let rows = stmt.query_map([], |row| {
        Ok((row.get(0)?, row.get(1)?, row.get(2)?, row.get(3)?, row.get(4)?))
    })?;
    rows.collect()
}

} // verus!
