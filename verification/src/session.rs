//! One conversation: an in-memory projection of ordered messages backed
//! by a row-per-message durable table.
//!
//! The in-memory sequence is a cache, authoritative on write: a message
//! append goes to the store first and mirrors into memory only on
//! success, while the streaming-path content append updates memory
//! optimistically and then corrects it from the store's returned value
//! when an interleaved writer made them disagree (the store wins).

use vstd::prelude::*;

use crate::front_map::FrontInsertMap;
use crate::store::{
    append_message_content_row, insert_chat_row, insert_message_row, load_chat_row,
    load_message_rows, update_chat_title_row,
};
use crate::unique_id::UniqueId;

verus! {

broadcast use crate::keyed::lemma_row_value_some, crate::keyed::lemma_has_row_value;

/// Errors of the session and manager layer.
#[derive(Debug)]
pub enum DbError {
    /// A required collaborator is missing (not yet initialized): a
    /// lifecycle error, surfaced rather than retried.
    MissingData(&'static str),
    /// A plain description of a failure of the session layer itself.
    Error(&'static str),
    /// The store's native error, propagated to the caller; the session
    /// state is left as the contract of the failing operation states.
    SqliteError(rusqlite::Error),
}

/// Who authored a message.
#[derive(Clone, Copy, PartialEq, Eq, Structural, Debug)]
pub enum MessageRole {
    System,
    User,
    Assistant,
}

/// The role a stored row's text denotes.
pub open spec fn spec_role_of(s: Seq<char>) -> MessageRole {
    if s == "system"@ {
        MessageRole::System
    } else if s == "user"@ {
        MessageRole::User
    } else {
        MessageRole::Assistant
    }
}

impl MessageRole {
    /// The text stored in the role column.
    pub open spec fn spec_str(self) -> Seq<char> {
        match self {
            MessageRole::System => "system"@,
            MessageRole::User => "user"@,
            MessageRole::Assistant => "assistant"@,
        }
    }

    /// The text stored in the role column.
    pub fn as_str(self) -> (r: &'static str)
        ensures
            r@ == self.spec_str(),
    {
        match self {
            MessageRole::System => "system",
            MessageRole::User => "user",
            MessageRole::Assistant => "assistant",
        }
    }

    /// Parses a stored role text; anything unrecognized reads as
    /// assistant output.
    pub fn from_str(s: &str) -> (r: MessageRole)
        ensures
            r == spec_role_of(s@),
    {
        if s.to_owned() == String::from_str("system") {
            MessageRole::System
        } else if s.to_owned() == String::from_str("user") {
            MessageRole::User
        } else {
            MessageRole::Assistant
        }
    }
}

/// One message as the session holds it; its identity key is the key it
/// sits under in the chat's message map.
pub struct MessageWithMetadata {
    pub role: MessageRole,
    pub content: String,
}

/// An in-memory projection of one conversation.
pub struct Chat {
    /// The chat's identity key.
    pub chat_id: UniqueId,
    /// The chat's title, mutated as summaries stream in.
    pub title: String,
    /// The last edit timestamp: the chat's order key in the chats map.
    pub edited_at: u64,
    /// The messages, keyed by message identity, in insertion order.
    pub messages: FrontInsertMap<MessageWithMetadata>,
}

impl Chat {
    /// Message identities are unique.
    pub open spec fn wf(&self) -> bool {
        self.messages.wf()
    }

    /// True when the chat holds the message.
    pub open spec fn has_message(&self, mid: Seq<char>) -> bool {
        self.messages.spec_contains_key(mid)
    }

    /// The message's content.
    pub open spec fn message_content(&self, mid: Seq<char>) -> Seq<char> {
        self.messages.spec_get(mid)->Some_0.content@
    }

    /// The message's role.
    pub open spec fn message_role(&self, mid: Seq<char>) -> MessageRole {
        self.messages.spec_get(mid)->Some_0.role
    }

    /// The message identities in insertion order.
    pub open spec fn message_order(&self) -> Seq<Seq<char>> {
        self.messages.keys_in_order()
    }

    /// Number of messages held.
    pub open spec fn message_count(&self) -> nat {
        self.messages.spec_len()
    }

    /// Creates a chat: writes the row to the store first and builds the
    /// in-memory projection only when that succeeded.
    pub fn new(conn: &rusqlite::Connection, now: u64) -> (r: Result<Chat, DbError>)
        ensures
            r matches Ok(c) ==> {
                &&& c.wf()
                &&& c.title@ == "Untitled Chat"@
                &&& c.edited_at == now
                &&& c.message_count() == 0
            },
    {
        let chat_id = UniqueId::new();
        match insert_chat_row(conn, chat_id.as_str(), "Untitled Chat", now) {
            Err(e) => Err(DbError::SqliteError(e)),
            Ok(()) => Ok(Chat {
                chat_id,
                title: String::from_str("Untitled Chat"),
                edited_at: now,
                messages: FrontInsertMap::new(),
            }),
        }
    }

    /// Builds a chat from stored row values: the chat row's title and
    /// edit time, and the message rows as (id, content, role) in stored
    /// order. Each row becomes the message under its id; a later row
    /// with an id already seen replaces that message (the store's
    /// primary key makes ids distinct in practice, and with distinct
    /// ids the message order is exactly the row order).
    pub fn chat_from_rows(
        chat_id: UniqueId,
        title: String,
        edited_at: u64,
        rows: &Vec<(String, String, String)>,
    ) -> (c: Chat)
        ensures
            c.wf(),
            c.chat_id@ == chat_id@,
            c.title@ == title@,
            c.edited_at == edited_at,
            // every message comes from a row
            forall|mid: Seq<char>| #[trigger] c.has_message(mid)
                ==> exists|i: int| 0 <= i < rows@.len() && #[trigger] rows@[i].0@ == mid,
            // each row's id carries that row's content and role, unless a
            // later row replaced it
            forall|i: int| 0 <= i < rows@.len()
                && (forall|j: int| i < j < rows@.len() ==> rows@[j].0@ != rows@[i].0@)
                ==> {
                    &&& c.has_message(#[trigger] rows@[i].0@)
                    &&& c.message_content(rows@[i].0@) == rows@[i].1@
                    &&& c.message_role(rows@[i].0@) == spec_role_of(rows@[i].2@)
                },
            // with distinct row ids, the messages are exactly the rows in
            // their stored order
            (forall|i: int, j: int| 0 <= i < j < rows@.len() ==> rows@[i].0@ != rows@[j].0@)
                ==> {
                    &&& c.message_count() == rows@.len()
                    &&& c.message_order() =~= Seq::new(rows@.len(), |i: int| rows@[i].0@)
                },
    {
        let ghost distinct_ids = forall|i: int, j: int|
            0 <= i < j < rows@.len() ==> rows@[i].0@ != rows@[j].0@;
        let mut messages: FrontInsertMap<MessageWithMetadata> = FrontInsertMap::new();
        let n = rows.len();
        for i in 0..n
            invariant
                n == rows@.len(),
                messages.wf(),
                distinct_ids == (forall|p: int, q: int|
                    0 <= p < q < rows@.len() ==> rows@[p].0@ != rows@[q].0@),
                forall|mid: Seq<char>| #[trigger] messages.spec_contains_key(mid)
                    ==> exists|p: int| 0 <= p < i && #[trigger] rows@[p].0@ == mid,
                forall|p: int| 0 <= p < i
                    && (forall|q: int| p < q < i ==> rows@[q].0@ != rows@[p].0@)
                    ==> {
                        &&& messages.spec_contains_key(#[trigger] rows@[p].0@)
                        &&& messages.spec_get(rows@[p].0@)->Some_0.content@ == rows@[p].1@
                        &&& messages.spec_get(rows@[p].0@)->Some_0.role == spec_role_of(rows@[p].2@)
                    },
                distinct_ids ==> messages.spec_len() == i
                    && messages.keys_in_order() =~= Seq::new(i as nat, |p: int| rows@[p].0@),
        {
            let (id, content, role) = (
                rows[i].0.clone(),
                rows[i].1.clone(),
                MessageRole::from_str(rows[i].2.as_str()),
            );
            let key = UniqueId::from_string(id);
            let ghost kv = key@;
            let ghost before = messages;
            let prior = messages.insert(key, MessageWithMetadata { role, content });
            proof {
                assert forall|mid: Seq<char>| #[trigger] messages.spec_contains_key(mid)
                    implies exists|p: int| 0 <= p < i + 1 && #[trigger] rows@[p].0@ == mid by {
                    if mid != rows@[i as int].0@ {
                        assert(messages.spec_get(mid) == before.spec_get(mid));
                        assert(before.spec_contains_key(mid));
                    } else {
                        assert(rows@[i as int].0@ == mid);
                    }
                }
                if distinct_ids {
                    assert(kv == rows@[i as int].0@);
                    if before.spec_contains_key(rows@[i as int].0@) {
                        let p = choose|p: int| 0 <= p < i && #[trigger] rows@[p].0@
                            == rows@[i as int].0@;
                        assert(false);
                    }
                    assert(prior is None);
                    assert(messages.rows().len() == i + 1);
                    assert forall|p: int| 0 <= p < i + 1
                        implies #[trigger] messages.keys_in_order()[p] == rows@[p].0@ by {
                        if p < i {
                            assert(messages.rows()[p] == before.rows()[p]);
                            assert(before.keys_in_order()[p] == rows@[p].0@);
                        } else {
                            assert(messages.rows()[p].0@ == kv);
                        }
                    }
                    assert(messages.keys_in_order()
                        =~= Seq::new((i + 1) as nat, |p: int| rows@[p].0@));
                }
            }
        }
        Chat { chat_id, title, edited_at, messages }
    }

    /// Rebuilds a chat from the store: its row and its message rows. The
    /// returned chat is [`Self::chat_from_rows`] applied to exactly what
    /// the store handed back, so its title, edit time and messages are
    /// the stored ones.
    pub fn load_from_db(conn: &rusqlite::Connection, chat_id: UniqueId) -> (r: Result<
        Chat,
        DbError,
    >)
        ensures
            r matches Ok(c) ==> c.wf() && c.chat_id@ == chat_id@,
    {
        let (title, edited_at) = match load_chat_row(conn, chat_id.as_str()) {
            Err(e) => {
                return Err(DbError::SqliteError(e));
            },
            Ok(row) => row,
        };
        let rows = match load_message_rows(conn, chat_id.as_str()) {
            Err(e) => {
                return Err(DbError::SqliteError(e));
            },
            Ok(rows) => rows,
        };
        Ok(Chat::chat_from_rows(chat_id, title, edited_at, &rows))
    }

    /// Appends a new message: writes the row with the given timestamp,
    /// then mirrors it into memory and advances the chat's edit time —
    /// the same timestamp for all steps, so readers cannot see skew. The
    /// memory is only mutated after a successful store write.
    pub fn push_message(
        &mut self,
        conn: &rusqlite::Connection,
        now: u64,
        content: String,
        role: MessageRole,
    ) -> (r: Result<UniqueId, DbError>)
        requires
            old(self).wf(),
        ensures
            final(self).wf(),
            r is Err ==> *final(self) == *old(self),
            r matches Ok(mid) ==> {
                &&& final(self).has_message(mid@)
                &&& final(self).message_content(mid@) == content@
                &&& final(self).message_role(mid@) == role
                &&& final(self).edited_at == now
                &&& final(self).title == old(self).title
                &&& final(self).chat_id == old(self).chat_id
                &&& final(self).message_count() <= old(self).message_count() + 1
                &&& forall|m2: Seq<char>| m2 != mid@ ==> {
                    &&& final(self).has_message(m2) == old(self).has_message(m2)
                    &&& final(self).has_message(m2) ==> {
                        &&& final(self).message_content(m2) == old(self).message_content(m2)
                        &&& final(self).message_role(m2) == old(self).message_role(m2)
                    }
                }
            },
    {
        let message_id = UniqueId::new();
        match insert_message_row(
            conn,
            message_id.as_str(),
            self.chat_id.as_str(),
            role.as_str(),
            content.as_str(),
            now,
        ) {
            Err(e) => Err(DbError::SqliteError(e)),
            Ok(()) => {
                let _ = self.messages.insert(
                    message_id.clone(),
                    MessageWithMetadata { role, content },
                );
                self.edited_at = now;
                Ok(message_id)
            },
        }
    }

    /// Overwrites a message's in-memory content with the store's
    /// authoritative value, keeping its role and position. The desync
    /// correction of the streaming path: not an error, the store wins.
    pub fn apply_authoritative_content(&mut self, message_id: &UniqueId, stored: String)
        requires
            old(self).wf(),
        ensures
            final(self).wf(),
            final(self).title == old(self).title,
            final(self).chat_id == old(self).chat_id,
            final(self).edited_at == old(self).edited_at,
            old(self).has_message(message_id@) ==> {
                &&& final(self).has_message(message_id@)
                &&& final(self).message_content(message_id@) == stored@
                &&& final(self).message_role(message_id@) == old(self).message_role(message_id@)
            },
            !old(self).has_message(message_id@) ==> *final(self) == *old(self),
            forall|m2: Seq<char>| m2 != message_id@ ==> final(self).messages.spec_get(m2)
                == old(self).messages.spec_get(m2),
            forall|m2: Seq<char>| m2 != message_id@ ==> {
                &&& final(self).has_message(m2) == old(self).has_message(m2)
                &&& final(self).has_message(m2) ==> {
                    &&& final(self).message_content(m2) == old(self).message_content(m2)
                    &&& final(self).message_role(m2) == old(self).message_role(m2)
                }
            },
    {
        let role = match self.messages.get(message_id) {
            None => {
                return ;
            },
            Some(m) => m.role,
        };
        let _ = self.messages.insert(
            message_id.clone(),
            MessageWithMetadata { role, content: stored },
        );
    }

    /// Appends a streamed delta to a message: memory first —
    /// optimistically, before the store confirms — then the atomic
    /// store-side append, then reconciliation against the content the
    /// store returned. On a store failure the optimistic memory change
    /// stays (the streaming path trades one round-trip for latency); on
    /// success memory has converged to exactly the stored content, which
    /// is some prior content followed by this delta.
    pub fn push_message_content(
        &mut self,
        conn: &rusqlite::Connection,
        now: u64,
        message_id: &UniqueId,
        delta: &str,
    ) -> (r: Result<(), DbError>)
        requires
            old(self).wf(),
        ensures
            final(self).wf(),
            final(self).title == old(self).title,
            final(self).chat_id == old(self).chat_id,
            forall|m2: Seq<char>| m2 != message_id@ ==> {
                &&& final(self).has_message(m2) == old(self).has_message(m2)
                &&& final(self).has_message(m2) ==> {
                    &&& final(self).message_content(m2) == old(self).message_content(m2)
                    &&& final(self).message_role(m2) == old(self).message_role(m2)
                }
            },
            final(self).has_message(message_id@) == old(self).has_message(message_id@),
            old(self).has_message(message_id@) ==> final(self).message_role(message_id@)
                == old(self).message_role(message_id@),
            r is Ok ==> final(self).edited_at == now,
            r is Ok && old(self).has_message(message_id@) ==> exists|prior: Seq<char>|
                final(self).message_content(message_id@) == #[trigger] (prior + delta@),
            r is Err ==> final(self).edited_at == old(self).edited_at
                && (old(self).has_message(message_id@) ==> final(self).message_content(message_id@)
                    == old(self).message_content(message_id@) + delta@),
    {
        let had = match self.messages.get(message_id) {
            None => false,
            Some(_) => true,
        };
        if had {
            let (role, mut content) = match self.messages.get(message_id) {
                None => (MessageRole::Assistant, String::new()),
                Some(m) => (m.role, m.content.clone()),
            };
            content.append(delta);
            let _ = self.messages.insert(
                message_id.clone(),
                MessageWithMetadata { role, content },
            );
        }
        let ghost mid_state = *self;
        match append_message_content_row(conn, message_id.as_str(), delta, now) {
            Err(e) => Err(DbError::SqliteError(e)),
            Ok(stored) => {
                self.apply_authoritative_content(message_id, stored);
                self.edited_at = now;
                proof {
                    assert forall|m2: Seq<char>| m2 != message_id@ implies
                        self.messages.spec_get(m2) == old(self).messages.spec_get(m2) by {
                        assert(mid_state.messages.spec_get(m2)
                            == old(self).messages.spec_get(m2));
                        assert(self.messages.spec_get(m2) == mid_state.messages.spec_get(m2));
                    }
                }
                Ok(())
            },
        }
    }

    /// Renames the chat: the store first, memory only on success.
    pub fn set_title(&mut self, conn: &rusqlite::Connection, now: u64, title: String) -> (r:
        Result<(), DbError>)
        requires
            old(self).wf(),
        ensures
            final(self).wf(),
            r is Err ==> *final(self) == *old(self),
            r is Ok ==> *final(self) == (Chat { title, edited_at: now, ..*old(self) }),
    {
        match update_chat_title_row(conn, self.chat_id.as_str(), title.as_str(), now) {
            Err(e) => Err(DbError::SqliteError(e)),
            Ok(()) => {
                self.title = title;
                self.edited_at = now;
                Ok(())
            },
        }
    }

    /// The messages in insertion order, for rendering.
    pub fn read_messages(&self) -> (r: Vec<(&UniqueId, &MessageWithMetadata)>)
        ensures
            r@.len() == self.message_count(),
            forall|i: int| 0 <= i < r@.len() ==> (#[trigger] r@[i]).0@ == self.message_order()[i]
                && *r@[i].1 == self.messages.rows()[i].1,
    {
        self.messages.iter()
    }
}

/// The whitespace-trimmed view of a string, a pure function of the
/// string. Named here; computed only by [`trim_str`].
pub uninterp spec fn trimmed_of(s: Seq<char>) -> Seq<char>;

/// Relies on str::trim: the string without leading and trailing
/// whitespace, which depends on the characters alone; an empty string
/// stays empty.
#[verifier::external_body]
fn trim_str(s: &str) -> (r: &str)
    ensures
        r@ == trimmed_of(s@),
        s@.len() == 0 ==> r@.len() == 0,
{
    s.trim()
}

/// The title-summary accumulation decision: appends a streamed chunk to
/// the running title text and says what title, if any, to show and
/// store — the trimmed accumulation, and only while it is non-empty.
pub fn accumulate_title_chunk(title: &mut String, chunk: &str) -> (r: Option<String>)
    ensures
        final(title)@ == old(title)@ + chunk@,
        match r {
            Some(t) => t@ == trimmed_of(old(title)@ + chunk@) && t@.len() > 0,
            None => trimmed_of(old(title)@ + chunk@).len() == 0,
        },
{
    title.append(chunk);
    let trimmed = trim_str(title.as_str()).to_owned();
    if trimmed == String::new() {
        None
    } else {
        proof {
            if trimmed@.len() == 0 {
                assert(trimmed@ =~= Seq::<char>::empty());
            }
        }
        Some(trimmed)
    }
}

} // verus!
