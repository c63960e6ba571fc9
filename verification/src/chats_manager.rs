//! The chat collection: an ordered cache of sessions over the durable
//! store, and the send/stream protocol that drives a generation.
//!
//! Every mutation keeps the chats map well formed: each chat sits under
//! its own identity key and its order key is exactly its last edit
//! time, so the sidebar's most-recent-first view always reflects the
//! latest append.

use vstd::prelude::*;

use crate::models_manager::ModelsManager;
use crate::ordered_cache::GranularBTreeMap;
use crate::orchestrator::{spec_may_apply, StreamingOrchestrator};
use crate::session::{Chat, DbError, MessageRole};
use crate::store::{create_chat_schema, load_chat_id_rows};
use crate::unique_id::UniqueId;

verus! {

broadcast use crate::keyed::lemma_row_value_some, crate::keyed::lemma_has_row_value;

/// Well-formedness of a chats map: the dual-index invariant holds, and
/// every chat sits under its own identity with its edit time as its
/// order key.
pub open spec fn chats_wf(m: GranularBTreeMap<Chat>) -> bool {
    &&& m.wf()
    &&& forall|k: Seq<char>| (#[trigger] m.spec_get(k)) is Some ==> {
        let oc = m.spec_get(k)->Some_0;
        &&& oc.1.wf()
        &&& oc.1.chat_id@ == k
        &&& oc.1.edited_at == oc.0
    }
}

/// Installs one loaded chat into a chats map under its own identity,
/// ordered by its edit time; any prior entry for that identity is
/// replaced.
pub fn install_chat(m: &mut GranularBTreeMap<Chat>, chat: Chat)
    requires
        chats_wf(*old(m)),
        chat.wf(),
    ensures
        chats_wf(*final(m)),
        final(m).spec_get(chat.chat_id@) == Some((chat.edited_at, chat)),
        forall|k2: Seq<char>| k2 != chat.chat_id@
            ==> final(m).spec_get(k2) == old(m).spec_get(k2),
{
    let ghost m0 = *m;
    let key = chat.chat_id.clone();
    let ghost kview = key@;
    let order = chat.edited_at;
    m.insert(key, chat, order);
    proof {
        assert forall|k2: Seq<char>| (#[trigger] m.spec_get(k2)) is Some implies {
            let oc = m.spec_get(k2)->Some_0;
            &&& oc.1.wf()
            &&& oc.1.chat_id@ == k2
            &&& oc.1.edited_at == oc.0
        } by {
            if k2 != kview {
                assert(m.spec_get(k2) == m0.spec_get(k2));
            }
        }
    }
}

/// One event of a running stream, as the driving loop hands it in.
pub enum StreamEvent {
    /// A content delta from the provider.
    Delta(String),
    /// The provider failed mid-stream; the text says why.
    ProviderError(String),
    /// The stream ended normally.
    Completed,
}

/// The chat collection and the current selection.
pub struct ChatsManager {
    /// The ordered chats, once initialized from the store.
    pub chats: Option<GranularBTreeMap<Chat>>,
    /// The chat the user is looking at.
    pub current_chat_id: Option<UniqueId>,
}

impl ChatsManager {
    /// Well-formedness of the whole manager.
    pub open spec fn wf(&self) -> bool {
        match self.chats {
            Some(m) => chats_wf(m),
            None => true,
        }
    }

    /// What the map holds for a chat key: its order key and the chat.
    pub open spec fn chat_at(&self, k: Seq<char>) -> Option<(u64, Chat)> {
        match self.chats {
            Some(m) => m.spec_get(k),
            None => None,
        }
    }

    /// An uninitialized manager.
    pub fn new() -> (r: Self)
        ensures
            r.wf(),
            r.chats is None,
            r.current_chat_id is None,
    {
        ChatsManager { chats: None, current_chat_id: None }
    }

    /// Creates the schema and loads every stored chat into a fresh
    /// ordered map: each stored id is rebuilt by [`Chat::load_from_db`]
    /// (whose result is the stored row values, see
    /// [`Chat::chat_from_rows`]) and placed by [`install_chat`] under
    /// its identity with its edit time as order key. On an error the
    /// manager is left as it was.
    pub fn init(&mut self, conn: &rusqlite::Connection) -> (r: Result<(), DbError>)
        requires
            old(self).wf(),
        ensures
            final(self).wf(),
            r is Ok ==> final(self).chats is Some,
            r is Err ==> *final(self) == *old(self),
    {
        if let Err(e) = create_chat_schema(conn) {
            return Err(DbError::SqliteError(e));
        }
        let ids = match load_chat_id_rows(conn) {
            Err(e) => {
                return Err(DbError::SqliteError(e));
            },
            Ok(ids) => ids,
        };
        let mut new_chats: GranularBTreeMap<Chat> = GranularBTreeMap::new();
        let n = ids.len();
        proof {
            assert(chats_wf(new_chats));
        }
        for i in 0..n
            invariant
                n == ids@.len(),
                chats_wf(new_chats),
                *self == *old(self),
                self.wf(),
        {
            let chat = match Chat::load_from_db(conn, UniqueId::from_string(ids[i].clone())) {
                Err(e) => {
                    return Err(e);
                },
                Ok(chat) => chat,
            };
            install_chat(&mut new_chats, chat);
        }
        self.chats = Some(new_chats);
        Ok(())
    }

    /// The identity of the chat the user is looking at, if any.
    pub fn get_current_chat_id(&self) -> (r: Option<&UniqueId>)
        ensures
            match r {
                Some(id) => self.current_chat_id is Some
                    && id@ == self.current_chat_id->Some_0@,
                None => self.current_chat_id is None,
            },
    {
        self.current_chat_id.as_ref()
    }

    /// Makes a chat the current one.
    pub fn set_current_chat(&mut self, chat_id: UniqueId)
        requires
            old(self).wf(),
        ensures
            final(self).wf(),
            final(self).current_chat_id == Some(chat_id),
            final(self).chats == old(self).chats,
    {
        self.current_chat_id = Some(chat_id);
    }

    /// Creates a fresh chat — store row first — inserts it into the
    /// ordered map (creating the map when none was loaded yet, as the
    /// first user action may precede initialization) and returns its
    /// identity.
    pub fn create_chat(&mut self, conn: &rusqlite::Connection, now: u64) -> (r: Result<
        UniqueId,
        DbError,
    >)
        requires
            old(self).wf(),
        ensures
            final(self).wf(),
            final(self).current_chat_id == old(self).current_chat_id,
            r matches Ok(id) ==> {
                &&& final(self).chat_at(id@) is Some
                &&& final(self).chat_at(id@)->Some_0.0 == now
                &&& final(self).chat_at(id@)->Some_0.1.message_count() == 0
                &&& final(self).chat_at(id@)->Some_0.1.title@ == "Untitled Chat"@
                &&& forall|k2: Seq<char>| k2 != id@
                    ==> final(self).chat_at(k2) == old(self).chat_at(k2)
            },
            r is Err ==> *final(self) == *old(self),
    {
        let chat = match Chat::new(conn, now) {
            Err(e) => {
                return Err(DbError::SqliteError(match e {
                    DbError::SqliteError(inner) => inner,
                    _ => {
                        return Err(e);
                    },
                }));
            },
            Ok(chat) => chat,
        };
        let chat_id = chat.chat_id.clone();
        if self.chats.is_none() {
            self.chats = Some(GranularBTreeMap::new());
        }
        let m = match &mut self.chats {
            Some(m) => m,
            None => {
                return Err(DbError::MissingData("chats"));
            },
        };
        let ghost m0 = *m;
        let key = chat.chat_id.clone();
        m.insert(key, chat, now);
        proof {
            assert forall|k2: Seq<char>| (#[trigger] m.spec_get(k2)) is Some implies {
                let oc = m.spec_get(k2)->Some_0;
                &&& oc.1.wf()
                &&& oc.1.chat_id@ == k2
                &&& oc.1.edited_at == oc.0
            } by {
                if k2 != chat_id@ {
                    assert(m.spec_get(k2) == m0.spec_get(k2));
                }
            }
        }
        Ok(chat_id)
    }

    /// The current chat, loading it from the store into the map when it
    /// is not cached yet — the in-memory copy re-derives from storage on
    /// a miss. Success is owed wherever no store call decides: no
    /// current chat gives `Ok(None)`, a cached current chat gives
    /// `Ok(Some)` with no store read, an uninitialized map with a
    /// current chat set is the lifecycle error; only the load on a miss
    /// can fail with a storage error, and every error leaves the
    /// manager untouched.
    pub fn get_current_chat(&mut self, conn: &rusqlite::Connection) -> (r: Result<
        Option<&Chat>,
        DbError,
    >)
        requires
            old(self).wf(),
        ensures
            final(self).wf(),
            final(self).current_chat_id == old(self).current_chat_id,
            old(self).current_chat_id is None ==> r == Ok::<Option<&Chat>, DbError>(None),
            r == Ok::<Option<&Chat>, DbError>(None) ==> old(self).current_chat_id is None,
            old(self).current_chat_id is Some && old(self).chats is None
                ==> r matches Err(DbError::MissingData(_)),
            old(self).current_chat_id matches Some(id)
                ==> (old(self).chats is Some && old(self).chat_at(id@) is Some
                    ==> r matches Ok(Some(_))),
            r is Err ==> *final(self) == *old(self),
            r matches Ok(Some(c)) ==> ({
                let k = old(self).current_chat_id->Some_0@;
                &&& old(self).current_chat_id is Some
                &&& c.chat_id@ == k
                &&& c.wf()
                &&& final(self).chat_at(k) == Some((c.edited_at, *c))
                &&& forall|k2: Seq<char>| k2 != k
                    ==> final(self).chat_at(k2) == old(self).chat_at(k2)
            }),
            // a cached current chat is served as it is
            old(self).current_chat_id matches Some(id) ==> (old(self).chat_at(id@) is Some
                ==> final(self).chat_at(id@) == old(self).chat_at(id@)),
    {
        let current = match &self.current_chat_id {
            None => {
                return Ok(None);
            },
            Some(id) => id.clone(),
        };
        let m = match &mut self.chats {
            Some(m) => m,
            None => {
                return Err(DbError::MissingData("chats"));
            },
        };
        let cached = match m.get(&current) {
            Some(_) => true,
            None => false,
        };
        if !cached {
            let chat = match Chat::load_from_db(conn, current.clone()) {
                Err(e) => {
                    return Err(e);
                },
                Ok(chat) => chat,
            };
            install_chat(m, chat);
        }
        match m.get(&current) {
            Some(chat) => Ok(Some(chat)),
            None => {
                proof {
                    assert(false);
                }
                Ok(None)
            },
        }
    }

    /// The chats in most-recently-edited-first order.
    pub fn chats_iter(&self) -> (r: Option<Vec<&Chat>>)
        requires
            self.wf(),
        ensures
            r is Some <==> self.chats is Some,
            r matches Some(v) ==> {
                &&& v@.len() == self.chats->Some_0.spec_len()
                &&& forall|i: int| 0 <= i < v@.len()
                    ==> *(#[trigger] v@[i]) == self.chats->Some_0.vals_in_order()[i]
            },
    {
        match &self.chats {
            Some(m) => Some(m.values()),
            None => None,
        }
    }

    /// Appends a message to a chat: the store row, the in-memory
    /// mirror, and the chat's position in the ordered map all move to
    /// the same timestamp in one step.
    pub fn push_message(
        &mut self,
        conn: &rusqlite::Connection,
        chat_id: &UniqueId,
        now: u64,
        content: String,
        role: MessageRole,
    ) -> (r: Result<UniqueId, DbError>)
        requires
            old(self).wf(),
        ensures
            final(self).wf(),
            final(self).current_chat_id == old(self).current_chat_id,
            forall|k2: Seq<char>| k2 != chat_id@
                ==> final(self).chat_at(k2) == old(self).chat_at(k2),
            r matches Ok(mid) ==> {
                &&& old(self).chat_at(chat_id@) is Some
                &&& final(self).chat_at(chat_id@) is Some
                &&& final(self).chat_at(chat_id@)->Some_0.0 == now
                &&& final(self).chat_at(chat_id@)->Some_0.1.has_message(mid@)
                &&& final(self).chat_at(chat_id@)->Some_0.1.message_content(mid@) == content@
                &&& final(self).chat_at(chat_id@)->Some_0.1.message_role(mid@) == role
                &&& final(self).chat_at(chat_id@)->Some_0.1.message_count()
                    <= old(self).chat_at(chat_id@)->Some_0.1.message_count() + 1
            },
            r is Err ==> final(self).chat_at(chat_id@) == old(self).chat_at(chat_id@),
    {
        let m = match &mut self.chats {
            Some(m) => m,
            None => {
                return Err(DbError::MissingData("chats"));
            },
        };
        let ghost m0 = *m;
        let mut chat = match m.remove(chat_id) {
            None => {
                return Err(DbError::MissingData("chat"));
            },
            Some(chat) => chat,
        };
        let ghost m1 = *m;
        let push_result = chat.push_message(conn, now, content, role);
        let key = chat.chat_id.clone();
        let order = chat.edited_at;
        let ghost kview = key@;
        let ghost chat_after = chat;
        m.insert(key, chat, order);
        proof {
            assert(kview == chat_id@);
            assert(m.spec_get(chat_id@) == Some((order, chat_after)));
            assert forall|k2: Seq<char>| k2 != chat_id@ implies m.spec_get(k2)
                == m0.spec_get(k2) by {
                assert(m1.spec_get(k2) == m0.spec_get(k2));
                assert(m.spec_get(k2) == m1.spec_get(k2));
            }
            assert forall|k2: Seq<char>| (#[trigger] m.spec_get(k2)) is Some implies {
                let oc = m.spec_get(k2)->Some_0;
                &&& oc.1.wf()
                &&& oc.1.chat_id@ == k2
                &&& oc.1.edited_at == oc.0
            } by {
                if k2 != chat_id@ {
                    assert(m.spec_get(k2) == m0.spec_get(k2));
                }
            }
        }
        match push_result {
            Ok(mid) => Ok(mid),
            Err(e) => Err(e),
        }
    }

    /// Appends a streamed delta to a message of a chat, advancing the
    /// chat's order key with the same timestamp on success.
    pub fn push_message_content(
        &mut self,
        conn: &rusqlite::Connection,
        chat_id: &UniqueId,
        message_id: &UniqueId,
        now: u64,
        delta: &str,
    ) -> (r: Result<(), DbError>)
        requires
            old(self).wf(),
        ensures
            final(self).wf(),
            final(self).current_chat_id == old(self).current_chat_id,
            forall|k2: Seq<char>| k2 != chat_id@
                ==> final(self).chat_at(k2) == old(self).chat_at(k2),
            r is Ok ==> {
                &&& old(self).chat_at(chat_id@) is Some
                &&& final(self).chat_at(chat_id@) is Some
                &&& final(self).chat_at(chat_id@)->Some_0.0 == now
                &&& (old(self).chat_at(chat_id@)->Some_0.1.has_message(message_id@)
                    ==> exists|prior: Seq<char>|
                        final(self).chat_at(chat_id@)->Some_0.1.message_content(message_id@)
                            == #[trigger] (prior + delta@))
            },
            // a store failure keeps the chat in the map with its order
            // unmoved; only the optimistic in-memory append stands
            r is Err && old(self).chat_at(chat_id@) is Some ==> ({
                let oc = old(self).chat_at(chat_id@)->Some_0;
                &&& final(self).chat_at(chat_id@) is Some
                &&& final(self).chat_at(chat_id@)->Some_0.0 == oc.0
                &&& final(self).chat_at(chat_id@)->Some_0.1.edited_at == oc.1.edited_at
                &&& final(self).chat_at(chat_id@)->Some_0.1.has_message(message_id@)
                    == oc.1.has_message(message_id@)
                &&& (oc.1.has_message(message_id@)
                    ==> final(self).chat_at(chat_id@)->Some_0.1.message_content(message_id@)
                        == oc.1.message_content(message_id@) + delta@)
            }),
    {
        let m = match &mut self.chats {
            Some(m) => m,
            None => {
                return Err(DbError::MissingData("chats"));
            },
        };
        let ghost m0 = *m;
        let mut chat = match m.remove(chat_id) {
            None => {
                return Err(DbError::MissingData("chat"));
            },
            Some(chat) => chat,
        };
        let ghost m1 = *m;
        let push_result = chat.push_message_content(conn, now, message_id, delta);
        let key = chat.chat_id.clone();
        let order = chat.edited_at;
        let ghost chat_after = chat;
        m.insert(key, chat, order);
        proof {
            assert(m.spec_get(chat_id@) == Some((order, chat_after)));
            assert forall|k2: Seq<char>| k2 != chat_id@ implies m.spec_get(k2)
                == m0.spec_get(k2) by {
                assert(m1.spec_get(k2) == m0.spec_get(k2));
                assert(m.spec_get(k2) == m1.spec_get(k2));
            }
            assert forall|k2: Seq<char>| (#[trigger] m.spec_get(k2)) is Some implies {
                let oc = m.spec_get(k2)->Some_0;
                &&& oc.1.wf()
                &&& oc.1.chat_id@ == k2
                &&& oc.1.edited_at == oc.0
            } by {
                if k2 != chat_id@ {
                    assert(m.spec_get(k2) == m0.spec_get(k2));
                }
            }
        }
        match push_result {
            Ok(()) => Ok(()),
            Err(e) => Err(e),
        }
    }

    /// The send action: ensures there is a current chat — creating one
    /// on the first message, loading a set-but-uncached one from the
    /// store — appends the user's message and an empty assistant
    /// message (the streaming target), and starts a new generation,
    /// cancelling any prior one. Returns the assistant message's
    /// identity and the generation number the driving loop must present
    /// with each delta. The writes run in that order, so on an error no
    /// generation has started, the assistant message has not landed,
    /// and at most the chat row and the user's message stand.
    pub fn send_message(
        &mut self,
        orchestrator: &mut StreamingOrchestrator,
        conn: &rusqlite::Connection,
        now: u64,
        contents: String,
    ) -> (r: Result<(UniqueId, u64), DbError>)
        requires
            old(self).wf(),
            old(orchestrator).wf(),
            old(orchestrator).next_generation() < u64::MAX,
        ensures
            final(self).wf(),
            final(orchestrator).wf(),
            // the one failure the library decides itself: a current chat
            // set while the map was never initialized
            old(self).current_chat_id is Some && old(self).chats is None ==> r is Err,
            r matches Ok((mid, gen)) ==> {
                &&& final(orchestrator).streaming()
                &&& final(orchestrator).current_generation() == gen
                &&& !spec_may_apply(*final(orchestrator), old(orchestrator).current_generation())
                &&& spec_may_apply(*final(orchestrator), gen)
                &&& final(self).current_chat_id is Some
                &&& (old(self).current_chat_id is Some
                    ==> final(self).current_chat_id == old(self).current_chat_id)
                &&& ({
                    let k = final(self).current_chat_id->Some_0@;
                    &&& final(self).chat_at(k) is Some
                    &&& final(self).chat_at(k)->Some_0.0 == now
                    &&& final(self).chat_at(k)->Some_0.1.has_message(mid@)
                    &&& final(self).chat_at(k)->Some_0.1.message_content(mid@)
                        == Seq::<char>::empty()
                    &&& final(self).chat_at(k)->Some_0.1.message_role(mid@)
                        == MessageRole::Assistant
                })
            },
            // on a failure no generation starts, other chats are
            // untouched, and the current chat gained at most the user's
            // message
            r is Err ==> ({
                &&& *final(orchestrator) == *old(orchestrator)
                &&& (old(self).current_chat_id is Some
                    ==> final(self).current_chat_id == old(self).current_chat_id)
                &&& forall|k2: Seq<char>|
                    (final(self).current_chat_id matches Some(id) ==> k2 != id@)
                        ==> final(self).chat_at(k2) == old(self).chat_at(k2)
                &&& (final(self).current_chat_id matches Some(id)
                    ==> (old(self).chat_at(id@) is Some && final(self).chat_at(id@) is Some
                        ==> final(self).chat_at(id@)->Some_0.1.message_count()
                            <= old(self).chat_at(id@)->Some_0.1.message_count() + 1))
            }),
    {
        let current = match &self.current_chat_id {
            Some(id) => {
                let id = id.clone();
                // make sure the current chat is cached, re-deriving it
                // from the store on a miss
                match self.get_current_chat(conn) {
                    Err(e) => {
                        return Err(e);
                    },
                    Ok(_) => {},
                }
                id
            },
            None => {
                let id = match self.create_chat(conn, now) {
                    Err(e) => {
                        return Err(e);
                    },
                    Ok(id) => id,
                };
                self.current_chat_id = Some(id.clone());
                id
            },
        };
        let ghost s1 = *self;
        if let Err(e) = self.push_message(conn, &current, now, contents, MessageRole::User) {
            proof {
                assert forall|k2: Seq<char>|
                    (self.current_chat_id matches Some(id) ==> k2 != id@)
                    implies self.chat_at(k2) == old(self).chat_at(k2) by {
                    assert(s1.chat_at(k2) == old(self).chat_at(k2));
                    assert(self.chat_at(k2) == s1.chat_at(k2));
                }
            }
            return Err(e);
        }
        let ghost s2 = *self;
        let empty = String::new();
        proof {
            reveal_strlit("");
        }
        let mid = match self.push_message(conn, &current, now, empty, MessageRole::Assistant) {
            Err(e) => {
                proof {
                    assert forall|k2: Seq<char>|
                        (self.current_chat_id matches Some(id) ==> k2 != id@)
                        implies self.chat_at(k2) == old(self).chat_at(k2) by {
                        assert(s1.chat_at(k2) == old(self).chat_at(k2));
                        assert(s2.chat_at(k2) == s1.chat_at(k2));
                        assert(self.chat_at(k2) == s2.chat_at(k2));
                    }
                    assert(self.chat_at(current@) == s2.chat_at(current@));
                }
                return Err(e);
            },
            Ok(mid) => mid,
        };
        let gen = orchestrator.begin_generation();
        Ok((mid, gen))
    }

    /// The entry check of a streaming generation: sending requires a
    /// selected provider — one whose record is loaded — and a selected
    /// model. Without them nothing is written and nothing starts;
    /// with them this is exactly [`Self::send_message`].
    pub fn send_message_if_selected(
        &mut self,
        orchestrator: &mut StreamingOrchestrator,
        models: &ModelsManager,
        conn: &rusqlite::Connection,
        now: u64,
        contents: String,
    ) -> (r: Result<Option<(UniqueId, u64)>, DbError>)
        requires
            old(self).wf(),
            old(orchestrator).wf(),
            models.wf(),
            old(orchestrator).next_generation() < u64::MAX,
        ensures
            final(self).wf(),
            final(orchestrator).wf(),
            ({
                let selected = models.current_model.provider_id matches Some(id)
                    && models.providers.spec_contains_key(id@)
                    && models.current_model.model is Some;
                &&& (!selected ==> r == Ok::<Option<(UniqueId, u64)>, DbError>(None)
                    && *final(self) == *old(self)
                    && *final(orchestrator) == *old(orchestrator))
                &&& (r == Ok::<Option<(UniqueId, u64)>, DbError>(None) ==> !selected)
            }),
            r matches Ok(Some((mid, gen))) ==> {
                &&& final(orchestrator).streaming()
                &&& final(orchestrator).current_generation() == gen
                &&& !spec_may_apply(*final(orchestrator), old(orchestrator).current_generation())
                &&& spec_may_apply(*final(orchestrator), gen)
                &&& final(self).current_chat_id is Some
                &&& ({
                    let k = final(self).current_chat_id->Some_0@;
                    &&& final(self).chat_at(k) is Some
                    &&& final(self).chat_at(k)->Some_0.0 == now
                    &&& final(self).chat_at(k)->Some_0.1.has_message(mid@)
                    &&& final(self).chat_at(k)->Some_0.1.message_content(mid@)
                        == Seq::<char>::empty()
                    &&& final(self).chat_at(k)->Some_0.1.message_role(mid@)
                        == MessageRole::Assistant
                })
            },
            r is Err ==> *final(orchestrator) == *old(orchestrator),
    {
        let provider_ok = match &models.current_model.provider_id {
            Some(id) => models.providers.contains_key(id),
            None => false,
        };
        let model_ok = models.current_model.model.is_some();
        if !(provider_ok && model_ok) {
            return Ok(None);
        }
        match self.send_message(orchestrator, conn, now, contents) {
            Ok(pair) => Ok(Some(pair)),
            Err(e) => Err(e),
        }
    }

    /// One step of the driving loop: applies a delta while its
    /// generation may still write, turns a provider failure into visible
    /// message content so the user sees why generation stopped, and runs
    /// the unconditional cleanup on every terminal event. Returns
    /// whether the loop should keep going.
    pub fn handle_stream_event(
        &mut self,
        orchestrator: &mut StreamingOrchestrator,
        conn: &rusqlite::Connection,
        chat_id: &UniqueId,
        message_id: &UniqueId,
        gen: u64,
        now: u64,
        event: StreamEvent,
    ) -> (r: Result<bool, DbError>)
        requires
            old(self).wf(),
            old(orchestrator).wf(),
        ensures
            final(self).wf(),
            final(orchestrator).wf(),
            forall|k2: Seq<char>| k2 != chat_id@
                ==> final(self).chat_at(k2) == old(self).chat_at(k2),
            !(event is Delta) ==> !final(orchestrator).streaming(),
            event is Delta && !spec_may_apply(*old(orchestrator), gen) ==> {
                &&& r == Ok::<bool, DbError>(false)
                &&& *final(self) == *old(self)
                &&& *final(orchestrator) == *old(orchestrator)
            },
            r == Ok::<bool, DbError>(true) ==> event is Delta
                && spec_may_apply(*old(orchestrator), gen),
            // what lands in the message: the delta while the generation
            // may write, or the provider's error text — the user sees
            // why generation stopped
            event matches StreamEvent::Delta(d) ==> ((r is Ok
                && spec_may_apply(*old(orchestrator), gen)
                && old(self).chat_at(chat_id@) is Some
                && old(self).chat_at(chat_id@)->Some_0.1.has_message(message_id@))
                ==> exists|prior: Seq<char>|
                    final(self).chat_at(chat_id@)->Some_0.1.message_content(message_id@)
                        == #[trigger] (prior + d@)),
            event matches StreamEvent::ProviderError(t) ==> ((r is Ok
                && spec_may_apply(*old(orchestrator), gen)
                && old(self).chat_at(chat_id@) is Some
                && old(self).chat_at(chat_id@)->Some_0.1.has_message(message_id@))
                ==> exists|prior: Seq<char>|
                    final(self).chat_at(chat_id@)->Some_0.1.message_content(message_id@)
                        == #[trigger] (prior + t@)),
            // a store failure still runs the cleanup; the chat keeps its
            // place with only the optimistic append standing
            r is Err ==> !final(orchestrator).streaming(),
            event matches StreamEvent::Delta(d) ==> ((r is Err
                && old(self).chat_at(chat_id@) is Some) ==> ({
                let oc = old(self).chat_at(chat_id@)->Some_0;
                &&& final(self).chat_at(chat_id@) is Some
                &&& final(self).chat_at(chat_id@)->Some_0.0 == oc.0
                &&& (oc.1.has_message(message_id@)
                    ==> final(self).chat_at(chat_id@)->Some_0.1.message_content(message_id@)
                        == oc.1.message_content(message_id@) + d@)
            })),
            event matches StreamEvent::ProviderError(t) ==> ((r is Err
                && old(self).chat_at(chat_id@) is Some) ==> ({
                let oc = old(self).chat_at(chat_id@)->Some_0;
                &&& final(self).chat_at(chat_id@) is Some
                &&& final(self).chat_at(chat_id@)->Some_0.0 == oc.0
                &&& (oc.1.has_message(message_id@)
                    ==> final(self).chat_at(chat_id@)->Some_0.1.message_content(message_id@)
                        == oc.1.message_content(message_id@) + t@)
            })),
    {
        match event {
            StreamEvent::Delta(delta) => {
                if !orchestrator.should_apply_delta(gen) {
                    return Ok(false);
                }
                let slice: &str = delta.as_str();
                match self.push_message_content(conn, chat_id, message_id, now, slice) {
                    Ok(()) => {
                        proof {
                            if old(self).chat_at(chat_id@) is Some
                                && old(self).chat_at(chat_id@)->Some_0.1.has_message(message_id@) {
                                let c = self.chat_at(chat_id@)->Some_0.1.message_content(
                                    message_id@,
                                );
                                let p0 = choose|p: Seq<char>| c == #[trigger] (p + slice@);
                                assert(c == p0 + delta@);
                            }
                        }
                        Ok(true)
                    },
                    Err(e) => {
                        orchestrator.finish_generation();
                        Err(e)
                    },
                }
            },
            StreamEvent::ProviderError(text) => {
                let may_write = orchestrator.should_apply_delta(gen);
                let mut result: Result<bool, DbError> = Ok(false);
                if may_write {
                    let slice: &str = text.as_str();
                    match self.push_message_content(conn, chat_id, message_id, now, slice) {
                        Ok(()) => {
                            proof {
                                if old(self).chat_at(chat_id@) is Some
                                    && old(self).chat_at(chat_id@)->Some_0.1.has_message(
                                    message_id@,
                                ) {
                                    let c = self.chat_at(chat_id@)->Some_0.1.message_content(
                                        message_id@,
                                    );
                                    let p0 = choose|p: Seq<char>| c == #[trigger] (p + slice@);
                                    assert(c == p0 + text@);
                                }
                            }
                        },
                        Err(e) => {
                            result = Err(e);
                        },
                    }
                }
                orchestrator.finish_generation();
                result
            },
            StreamEvent::Completed => {
                orchestrator.finish_generation();
                Ok(false)
            },
        }
    }
}

} // verus!
