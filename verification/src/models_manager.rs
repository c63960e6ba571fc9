//! Providers and model selections: the provider records loaded from the
//! store, the two independent selection pairs (the primary chat model
//! and the title-summarization model), and the per-provider model
//! catalog cache.
//!
//! A provider's chat and list-models capabilities, and its credential in
//! the OS keychain, live with the caller; this layer holds what the
//! logic reads — kind, name, URL, icon — and keeps the selections
//! mirrored in the store.

use vstd::prelude::*;

use crate::catalog::ModelsCache;
use crate::front_map::FrontInsertMap;
use crate::session::DbError;
use crate::store::{
    create_provider_schema, delete_provider_row, insert_provider_row, load_provider_row,
    load_provider_rows, load_selection_rows, save_selection_row, update_provider_url_row,
};
use crate::unique_id::UniqueId;

verus! {

broadcast use crate::keyed::lemma_row_value_some, crate::keyed::lemma_has_row_value;

/// The kind of backend a provider speaks to.
#[derive(Clone, Copy, PartialEq, Eq, Structural, Debug)]
pub enum ProviderKind {
    Ollama,
    Anthropic,
    OpenAi,
}

/// The kind a stored row's text denotes, if recognized.
pub open spec fn spec_kind_of(s: Seq<char>) -> Option<ProviderKind> {
    if s == "ollama"@ {
        Some(ProviderKind::Ollama)
    } else if s == "anthropic"@ {
        Some(ProviderKind::Anthropic)
    } else if s == "openai"@ {
        Some(ProviderKind::OpenAi)
    } else {
        None
    }
}

impl ProviderKind {
    /// The text stored in the kind column.
    pub open spec fn spec_str(self) -> Seq<char> {
        match self {
            ProviderKind::Ollama => "ollama"@,
            ProviderKind::Anthropic => "anthropic"@,
            ProviderKind::OpenAi => "openai"@,
        }
    }

    /// The text stored in the kind column.
    pub fn as_str(self) -> (r: &'static str)
        ensures
            r@ == self.spec_str(),
    {
        match self {
            ProviderKind::Ollama => "ollama",
            ProviderKind::Anthropic => "anthropic",
            ProviderKind::OpenAi => "openai",
        }
    }

    /// Parses a stored kind text; an unknown kind is a data error, not
    /// a default.
    pub fn from_str(s: &str) -> (r: Option<ProviderKind>)
        ensures
            r == spec_kind_of(s@),
    {
        if s.to_owned() == String::from_str("ollama") {
            Some(ProviderKind::Ollama)
        } else if s.to_owned() == String::from_str("anthropic") {
            Some(ProviderKind::Anthropic)
        } else if s.to_owned() == String::from_str("openai") {
            Some(ProviderKind::OpenAi)
        } else {
            None
        }
    }

    /// The default display name for this kind.
    pub fn default_name(self) -> (r: &'static str)
        ensures
            self is Ollama ==> r@ == "Ollama"@,
            self is Anthropic ==> r@ == "Anthropic"@,
            self is OpenAi ==> r@ == "OpenAI"@,
    {
        match self {
            ProviderKind::Ollama => "Ollama",
            ProviderKind::Anthropic => "Anthropic",
            ProviderKind::OpenAi => "OpenAI",
        }
    }

    /// The default base URL for this kind.
    pub fn default_url(self) -> (r: &'static str)
        ensures
            self is Ollama ==> r@ == "http://localhost:11434"@,
            self is Anthropic ==> r@ == "https://api.anthropic.com"@,
            self is OpenAi ==> r@ == "https://api.openai.com"@,
    {
        match self {
            ProviderKind::Ollama => "http://localhost:11434",
            ProviderKind::Anthropic => "https://api.anthropic.com",
            ProviderKind::OpenAi => "https://api.openai.com",
        }
    }
}

/// What the logic holds of one provider; the network capability built
/// from it lives with the caller.
pub struct Provider {
    pub kind: ProviderKind,
    pub name: String,
    pub url: String,
    pub icon: String,
}

/// One model selection: a provider identity, its display name, and a
/// model identifier — each independently nullable.
pub struct ProviderModelPair {
    pub provider_id: Option<UniqueId>,
    pub provider_name: Option<String>,
    pub model: Option<String>,
}

impl ProviderModelPair {
    /// An empty selection.
    pub fn new() -> (r: Self)
        ensures
            r.provider_id is None,
            r.provider_name is None,
            r.model is None,
    {
        ProviderModelPair { provider_id: None, provider_name: None, model: None }
    }
}

/// The provider list, the two model selections, and the catalog cache.
pub struct ModelsManager {
    /// The providers, newest first.
    pub providers: FrontInsertMap<Provider>,
    /// The model the chat box sends with.
    pub current_model: ProviderModelPair,
    /// The model that summarizes chat titles.
    pub chat_titles_model: ProviderModelPair,
    /// Cache for provider models.
    pub models_cache: ModelsCache,
}

impl ModelsManager {
    /// Well-formedness of the stores.
    pub open spec fn wf(&self) -> bool {
        self.providers.wf() && self.models_cache.wf()
    }

    /// An empty manager.
    pub fn new() -> (r: Self)
        ensures
            r.wf(),
            r.providers.spec_len() == 0,
            r.current_model.provider_id is None,
            r.chat_titles_model.provider_id is None,
    {
        ModelsManager {
            providers: FrontInsertMap::new(),
            current_model: ProviderModelPair::new(),
            chat_titles_model: ProviderModelPair::new(),
            models_cache: ModelsCache::new(),
        }
    }

    /// Creates the schema, loads the stored providers, then restores
    /// the stored model selections — skipping a selection whose
    /// provider no longer exists. An error leaves the manager as it
    /// was; on success a selection restored from the store points at a
    /// loaded provider.
    pub fn init(&mut self, conn: &rusqlite::Connection) -> (r: Result<(), DbError>)
        requires
            old(self).wf(),
        ensures
            final(self).wf(),
            final(self).models_cache == old(self).models_cache,
            r is Err ==> *final(self) == *old(self),
            r is Ok && old(self).current_model.provider_id is None
                ==> (final(self).current_model.provider_id matches Some(id)
                    ==> final(self).providers.spec_contains_key(id@)),
            r is Ok && old(self).chat_titles_model.provider_id is None
                ==> (final(self).chat_titles_model.provider_id matches Some(id)
                    ==> final(self).providers.spec_contains_key(id@)),
    {
        if let Err(e) = create_provider_schema(conn) {
            return Err(DbError::SqliteError(e));
        }
        if let Err(e) = self.load_providers_from_db(conn) {
            return Err(e);
        }
        self.load_model_selections_from_db(conn);
        Ok(())
    }

    /// Loads every stored provider row into the in-memory list, each
    /// row through [`Self::init_provider`]. The rows are validated
    /// first, so a row with an unrecognized kind is a data error that
    /// changes nothing.
    pub fn load_providers_from_db(&mut self, conn: &rusqlite::Connection) -> (r: Result<
        (),
        DbError,
    >)
        requires
            old(self).wf(),
        ensures
            final(self).wf(),
            final(self).current_model == old(self).current_model,
            final(self).chat_titles_model == old(self).chat_titles_model,
            final(self).models_cache == old(self).models_cache,
            r is Err ==> *final(self) == *old(self),
    {
        let rows = match load_provider_rows(conn) {
            Err(e) => {
                return Err(DbError::SqliteError(e));
            },
            Ok(rows) => rows,
        };
        let n = rows.len();
        for i in 0..n
            invariant
                n == rows@.len(),
                *self == *old(self),
                self.wf(),
                forall|j: int| 0 <= j < i ==> spec_kind_of((#[trigger] rows@[j]).1@) is Some,
        {
            if ProviderKind::from_str(rows[i].1.as_str()).is_none() {
                return Err(DbError::Error("unknown provider kind"));
            }
        }
        for i in 0..n
            invariant
                n == rows@.len(),
                self.wf(),
                self.current_model == old(self).current_model,
                self.chat_titles_model == old(self).chat_titles_model,
                self.models_cache == old(self).models_cache,
                forall|j: int| 0 <= j < n ==> spec_kind_of((#[trigger] rows@[j]).1@) is Some,
        {
            let (id, kind_text, name, url, icon) = (
                rows[i].0.clone(),
                rows[i].1.clone(),
                rows[i].2.clone(),
                rows[i].3.clone(),
                rows[i].4.clone(),
            );
            match self.init_provider(UniqueId::from_string(id), kind_text.as_str(), name, url, icon)
            {
                Ok(()) => {
                },
                Err(e) => {
                    proof {
                        assert(false);
                    }
                    return Err(e);
                },
            }
        }
        Ok(())
    }

    /// Installs one provider record at the front of the list. The kind
    /// text must be one the store's constraint admits; an unrecognized
    /// kind is a data error and changes nothing.
    pub fn init_provider(
        &mut self,
        provider_id: UniqueId,
        kind_text: &str,
        name: String,
        url: String,
        icon: Option<String>,
    ) -> (r: Result<(), DbError>)
        requires
            old(self).wf(),
        ensures
            final(self).wf(),
            final(self).current_model == old(self).current_model,
            final(self).chat_titles_model == old(self).chat_titles_model,
            final(self).models_cache == old(self).models_cache,
            r is Ok <==> spec_kind_of(kind_text@) is Some,
            r is Err ==> *final(self) == *old(self),
            r is Ok ==> {
                &&& final(self).providers.spec_get(provider_id@) matches Some(p)
                &&& Some(final(self).providers.spec_get(provider_id@)->Some_0.kind)
                    == spec_kind_of(kind_text@)
                &&& final(self).providers.spec_get(provider_id@)->Some_0.name@ == name@
                &&& final(self).providers.spec_get(provider_id@)->Some_0.url@ == url@
            },
            forall|pid2: Seq<char>| pid2 != provider_id@
                ==> final(self).providers.spec_get(pid2) == old(self).providers.spec_get(pid2),
    {
        let kind = match ProviderKind::from_str(kind_text) {
            None => {
                return Err(DbError::Error("unknown provider kind"));
            },
            Some(kind) => kind,
        };
        let icon_text = match icon {
            Some(icon) => icon,
            None => String::new(),
        };
        let _ = self.providers.insert_front(
            provider_id,
            Provider { kind, name, url, icon: icon_text },
        );
        Ok(())
    }

    /// Applies one stored selection row: a row whose provider is gone
    /// is skipped entirely; otherwise each present column fills its
    /// slot of the pair named by the key, and other keys change
    /// nothing.
    pub fn apply_selection_row(
        &mut self,
        key: &str,
        provider_id: Option<UniqueId>,
        provider_name: Option<String>,
        model: Option<String>,
    )
        requires
            old(self).wf(),
        ensures
            final(self).wf(),
            final(self).providers == old(self).providers,
            final(self).models_cache == old(self).models_cache,
            ({
                let known = provider_id matches Some(id)
                    && old(self).providers.spec_contains_key(id@);
                &&& !known ==> *final(self) == *old(self)
                &&& known && key@ == "current"@ ==> {
                    &&& final(self).chat_titles_model == old(self).chat_titles_model
                    &&& final(self).current_model.provider_id == provider_id
                    &&& final(self).current_model.provider_name == (if provider_name is Some {
                        provider_name
                    } else {
                        old(self).current_model.provider_name
                    })
                    &&& final(self).current_model.model == (if model is Some {
                        model
                    } else {
                        old(self).current_model.model
                    })
                }
                &&& known && key@ == "chat_titles"@ ==> {
                    &&& final(self).current_model == old(self).current_model
                    &&& final(self).chat_titles_model.provider_id == provider_id
                    &&& final(self).chat_titles_model.provider_name == (if provider_name is Some {
                        provider_name
                    } else {
                        old(self).chat_titles_model.provider_name
                    })
                    &&& final(self).chat_titles_model.model == (if model is Some {
                        model
                    } else {
                        old(self).chat_titles_model.model
                    })
                }
                &&& known && key@ != "current"@ && key@ != "chat_titles"@
                    ==> *final(self) == *old(self)
            }),
    {
        proof {
            reveal_strlit("current");
            reveal_strlit("chat_titles");
            assert("current"@.len() == 7);
            assert("chat_titles"@.len() == 11);
            assert("current"@ != "chat_titles"@);
        }
        let id = match provider_id {
            None => {
                return ;
            },
            Some(id) => id,
        };
        let known = self.providers.contains_key(&id);
        if !known {
            return ;
        }
        if key.to_owned() == String::from_str("current") {
            self.current_model.provider_id = Some(id);
            if provider_name.is_some() {
                self.current_model.provider_name = provider_name;
            }
            if model.is_some() {
                self.current_model.model = model;
            }
        } else if key.to_owned() == String::from_str("chat_titles") {
            self.chat_titles_model.provider_id = Some(id);
            if provider_name.is_some() {
                self.chat_titles_model.provider_name = provider_name;
            }
            if model.is_some() {
                self.chat_titles_model.model = model;
            }
        }
    }

    /// Restores the stored model selections, each row through
    /// [`Self::apply_selection_row`]; read errors leave the selections
    /// as they were rather than failing startup. A selection this
    /// restores points at a known provider.
    pub fn load_model_selections_from_db(&mut self, conn: &rusqlite::Connection)
        requires
            old(self).wf(),
        ensures
            final(self).wf(),
            final(self).providers == old(self).providers,
            final(self).models_cache == old(self).models_cache,
            final(self).current_model.provider_id matches Some(id)
                ==> old(self).current_model.provider_id == Some(id)
                    || final(self).providers.spec_contains_key(id@),
            final(self).chat_titles_model.provider_id matches Some(id)
                ==> old(self).chat_titles_model.provider_id == Some(id)
                    || final(self).providers.spec_contains_key(id@),
    {
        let rows = match load_selection_rows(conn) {
            Err(_) => {
                return ;
            },
            Ok(rows) => rows,
        };
        let n = rows.len();
        let ghost providers0 = self.providers;
        let ghost cache0 = self.models_cache;
        let ghost sel0 = (self.current_model.provider_id, self.chat_titles_model.provider_id);
        for i in 0..n
            invariant
                n == rows@.len(),
                self.wf(),
                self.providers == providers0,
                self.models_cache == cache0,
                self.current_model.provider_id matches Some(id) ==> sel0.0 == Some(id)
                    || self.providers.spec_contains_key(id@),
                self.chat_titles_model.provider_id matches Some(id) ==> sel0.1 == Some(id)
                    || self.providers.spec_contains_key(id@),
        {
            let key = rows[i].0.clone();
            let provider_id = match &rows[i].1 {
                Some(s) => Some(UniqueId::from_string(s.clone())),
                None => None,
            };
            let provider_name = match &rows[i].2 {
                Some(s) => Some(s.clone()),
                None => None,
            };
            let model = match &rows[i].3 {
                Some(s) => Some(s.clone()),
                None => None,
            };
            self.apply_selection_row(key.as_str(), provider_id, provider_name, model);
        }
    }

    /// The name under which a provider's credential sits in the OS
    /// keychain: the service prefix, the provider's display name and
    /// its identity key. The keychain itself is the caller's
    /// collaborator; only the naming rule lives here.
    pub fn construct_provider_api_key_name(provider_id: &UniqueId, name: &str) -> (r: String)
        ensures
            r@ == "chat.astrum.astrum:provider:"@ + name@ + ":"@ + provider_id@,
    {
        let mut key = String::new();
        key.append("chat.astrum.astrum:provider:");
        key.append(name);
        key.append(":");
        key.append(provider_id.as_str());
        proof {
            assert(key@ =~= "chat.astrum.astrum:provider:"@ + name@ + ":"@ + provider_id@);
        }
        key
    }

    /// Persists one selection; a write failure is logged by the caller
    /// and the in-memory selection stands.
    fn save_model_selection(
        &self,
        conn: &rusqlite::Connection,
        key: &str,
        provider_id: Option<&UniqueId>,
        provider_name: Option<&str>,
        model: Option<&str>,
    ) {
        let id_text = match provider_id {
            Some(id) => Some(id.as_str()),
            None => None,
        };
        let _ = save_selection_row(conn, key, id_text, provider_name, model);
    }

    /// The currently selected provider, if its record is loaded.
    pub fn get_current_provider(&self) -> (r: Option<&Provider>)
        requires
            self.wf(),
        ensures
            r is Some ==> self.current_model.provider_id is Some
                && self.providers.spec_contains_key(self.current_model.provider_id->Some_0@),
    {
        match &self.current_model.provider_id {
            None => None,
            Some(id) => self.providers.get(id),
        }
    }

    /// The provider selected for title summaries, if loaded.
    pub fn get_chat_titles_provider(&self) -> (r: Option<&Provider>)
        requires
            self.wf(),
        ensures
            r is Some ==> self.chat_titles_model.provider_id is Some
                && self.providers.spec_contains_key(self.chat_titles_model.provider_id->Some_0@),
    {
        match &self.chat_titles_model.provider_id {
            None => None,
            Some(id) => self.providers.get(id),
        }
    }

    /// The currently selected model identifier.
    pub fn get_current_model(&self) -> (r: Option<&String>)
        ensures
            match r {
                Some(m) => self.current_model.model == Some(*m),
                None => self.current_model.model is None,
            },
    {
        self.current_model.model.as_ref()
    }

    /// The model identifier selected for title summaries.
    pub fn get_chat_titles_model(&self) -> (r: Option<&String>)
        ensures
            match r {
                Some(m) => self.chat_titles_model.model == Some(*m),
                None => self.chat_titles_model.model is None,
            },
    {
        self.chat_titles_model.model.as_ref()
    }

    /// A provider's record by identity.
    pub fn get_provider(&self, provider_id: &UniqueId) -> (r: Option<&Provider>)
        requires
            self.wf(),
        ensures
            match r {
                Some(p) => self.providers.spec_get(provider_id@) == Some(*p),
                None => !self.providers.spec_contains_key(provider_id@),
            },
    {
        self.providers.get(provider_id)
    }

    /// Selects the current provider and persists the selection.
    pub fn set_current_provider(
        &mut self,
        conn: &rusqlite::Connection,
        provider_id: UniqueId,
        provider_name: String,
    )
        requires
            old(self).wf(),
        ensures
            final(self).wf(),
            final(self).current_model.provider_id == Some(provider_id),
            final(self).current_model.provider_name == Some(provider_name),
            final(self).current_model.model == old(self).current_model.model,
            final(self).chat_titles_model == old(self).chat_titles_model,
            final(self).providers == old(self).providers,
            final(self).models_cache == old(self).models_cache,
    {
        self.current_model.provider_id = Some(provider_id);
        self.current_model.provider_name = Some(provider_name);
        let model_text = match &self.current_model.model {
            Some(m) => Some(m.as_str()),
            None => None,
        };
        let name_text = match &self.current_model.provider_name {
            Some(n) => Some(n.as_str()),
            None => None,
        };
        self.save_model_selection(
            conn,
            "current",
            self.current_model.provider_id.as_ref(),
            name_text,
            model_text,
        );
    }

    /// Selects the current model and persists the selection.
    pub fn set_current_model(&mut self, conn: &rusqlite::Connection, model_name: String)
        requires
            old(self).wf(),
        ensures
            final(self).wf(),
            final(self).current_model.model == Some(model_name),
            final(self).current_model.provider_id == old(self).current_model.provider_id,
            final(self).current_model.provider_name == old(self).current_model.provider_name,
            final(self).chat_titles_model == old(self).chat_titles_model,
            final(self).providers == old(self).providers,
            final(self).models_cache == old(self).models_cache,
    {
        self.current_model.model = Some(model_name);
        let model_text = match &self.current_model.model {
            Some(m) => Some(m.as_str()),
            None => None,
        };
        let name_text = match &self.current_model.provider_name {
            Some(n) => Some(n.as_str()),
            None => None,
        };
        self.save_model_selection(
            conn,
            "current",
            self.current_model.provider_id.as_ref(),
            name_text,
            model_text,
        );
    }

    /// Clears the current selection and persists the empty row.
    pub fn clear_current_selection(&mut self, conn: &rusqlite::Connection)
        requires
            old(self).wf(),
        ensures
            final(self).wf(),
            final(self).current_model.provider_id is None,
            final(self).current_model.provider_name is None,
            final(self).current_model.model is None,
            final(self).chat_titles_model == old(self).chat_titles_model,
            final(self).providers == old(self).providers,
            final(self).models_cache == old(self).models_cache,
    {
        self.current_model = ProviderModelPair::new();
        self.save_model_selection(conn, "current", None, None, None);
    }

    /// Selects the title-summary provider and persists the selection.
    pub fn set_chat_titles_provider(
        &mut self,
        conn: &rusqlite::Connection,
        provider_id: UniqueId,
        provider_name: String,
    )
        requires
            old(self).wf(),
        ensures
            final(self).wf(),
            final(self).chat_titles_model.provider_id == Some(provider_id),
            final(self).chat_titles_model.provider_name == Some(provider_name),
            final(self).chat_titles_model.model == old(self).chat_titles_model.model,
            final(self).current_model == old(self).current_model,
            final(self).providers == old(self).providers,
            final(self).models_cache == old(self).models_cache,
    {
        self.chat_titles_model.provider_id = Some(provider_id);
        self.chat_titles_model.provider_name = Some(provider_name);
        let model_text = match &self.chat_titles_model.model {
            Some(m) => Some(m.as_str()),
            None => None,
        };
        let name_text = match &self.chat_titles_model.provider_name {
            Some(n) => Some(n.as_str()),
            None => None,
        };
        self.save_model_selection(
            conn,
            "chat_titles",
            self.chat_titles_model.provider_id.as_ref(),
            name_text,
            model_text,
        );
    }

    /// Selects the title-summary model and persists the selection.
    pub fn set_chat_titles_model(&mut self, conn: &rusqlite::Connection, model_name: String)
        requires
            old(self).wf(),
        ensures
            final(self).wf(),
            final(self).chat_titles_model.model == Some(model_name),
            final(self).chat_titles_model.provider_id == old(self).chat_titles_model.provider_id,
            final(self).chat_titles_model.provider_name
                == old(self).chat_titles_model.provider_name,
            final(self).current_model == old(self).current_model,
            final(self).providers == old(self).providers,
            final(self).models_cache == old(self).models_cache,
    {
        self.chat_titles_model.model = Some(model_name);
        let model_text = match &self.chat_titles_model.model {
            Some(m) => Some(m.as_str()),
            None => None,
        };
        let name_text = match &self.chat_titles_model.provider_name {
            Some(n) => Some(n.as_str()),
            None => None,
        };
        self.save_model_selection(
            conn,
            "chat_titles",
            self.chat_titles_model.provider_id.as_ref(),
            name_text,
            model_text,
        );
    }

    /// Clears the title-summary selection and persists the empty row.
    pub fn clear_chat_titles_selection(&mut self, conn: &rusqlite::Connection)
        requires
            old(self).wf(),
        ensures
            final(self).wf(),
            final(self).chat_titles_model.provider_id is None,
            final(self).chat_titles_model.provider_name is None,
            final(self).chat_titles_model.model is None,
            final(self).current_model == old(self).current_model,
            final(self).providers == old(self).providers,
            final(self).models_cache == old(self).models_cache,
    {
        self.chat_titles_model = ProviderModelPair::new();
        self.save_model_selection(conn, "chat_titles", None, None, None);
    }

    /// A provider's record, loading it from the store into the list
    /// when it is not cached — the fall-back for a provider row that
    /// another writer added after this manager initialized. A cached
    /// provider is served as it is, with no store read.
    pub fn get_or_load_provider(
        &mut self,
        conn: &rusqlite::Connection,
        provider_id: &UniqueId,
    ) -> (r: Result<&Provider, DbError>)
        requires
            old(self).wf(),
        ensures
            final(self).wf(),
            final(self).current_model == old(self).current_model,
            final(self).chat_titles_model == old(self).chat_titles_model,
            final(self).models_cache == old(self).models_cache,
            old(self).providers.spec_contains_key(provider_id@)
                ==> r is Ok && *final(self) == *old(self),
            r is Err ==> *final(self) == *old(self),
            r matches Ok(p) ==> final(self).providers.spec_get(provider_id@) == Some(*p),
            forall|pid2: Seq<char>| pid2 != provider_id@
                ==> final(self).providers.spec_get(pid2) == old(self).providers.spec_get(pid2),
    {
        let cached = self.providers.contains_key(provider_id);
        if !cached {
            let (kind_text, name, url, icon) = match load_provider_row(conn, provider_id.as_str())
            {
                Err(e) => {
                    return Err(DbError::SqliteError(e));
                },
                Ok(row) => row,
            };
            match self.init_provider(provider_id.clone(), kind_text.as_str(), name, url, icon) {
                Ok(()) => {
                },
                Err(e) => {
                    return Err(e);
                },
            }
        }
        match self.providers.get(provider_id) {
            Some(p) => Ok(p),
            None => {
                proof {
                    assert(false);
                }
                Err(DbError::MissingData("provider"))
            },
        }
    }

    /// Drops a selection whose provider no longer exists, persisting
    /// the cleared row. Run after the provider list changes, so the UI
    /// never offers a model of a deleted provider.
    pub fn prune_dangling_selections(&mut self, conn: &rusqlite::Connection)
        requires
            old(self).wf(),
        ensures
            final(self).wf(),
            final(self).providers == old(self).providers,
            final(self).models_cache == old(self).models_cache,
            final(self).current_model.provider_id matches Some(id)
                ==> old(self).providers.spec_contains_key(id@),
            final(self).chat_titles_model.provider_id matches Some(id)
                ==> old(self).providers.spec_contains_key(id@),
    {
        let current_gone = match &self.current_model.provider_id {
            Some(id) => !self.providers.contains_key(id),
            None => false,
        };
        if current_gone {
            self.clear_current_selection(conn);
        }
        let titles_gone = match &self.chat_titles_model.provider_id {
            Some(id) => !self.providers.contains_key(id),
            None => false,
        };
        if titles_gone {
            self.clear_chat_titles_selection(conn);
        }
    }

    /// Registers a new provider: the store row first, then the record
    /// at the front of the list. The credential, if any, goes to the OS
    /// keychain with the caller.
    pub fn new_provider(
        &mut self,
        conn: &rusqlite::Connection,
        kind: ProviderKind,
        name: String,
        url: String,
        icon: String,
        now: u64,
    ) -> (r: Result<UniqueId, DbError>)
        requires
            old(self).wf(),
        ensures
            final(self).wf(),
            final(self).current_model == old(self).current_model,
            final(self).chat_titles_model == old(self).chat_titles_model,
            final(self).models_cache == old(self).models_cache,
            r is Err ==> *final(self) == *old(self),
            r matches Ok(id) ==> {
                &&& final(self).providers.spec_get(id@) matches Some(p)
                &&& final(self).providers.spec_get(id@)->Some_0.kind == kind
                &&& final(self).providers.spec_get(id@)->Some_0.name@ == name@
                &&& final(self).providers.spec_get(id@)->Some_0.url@ == url@
                &&& forall|pid2: Seq<char>| pid2 != id@
                    ==> final(self).providers.spec_get(pid2) == old(self).providers.spec_get(pid2)
            },
    {
        let provider_id = UniqueId::new();
        match insert_provider_row(
            conn,
            provider_id.as_str(),
            kind.as_str(),
            name.as_str(),
            url.as_str(),
            icon.as_str(),
            now,
        ) {
            Err(e) => Err(DbError::SqliteError(e)),
            Ok(()) => {
                let _ = self.providers.insert_front(
                    provider_id.clone(),
                    Provider { kind, name, url, icon },
                );
                Ok(provider_id)
            },
        }
    }

    /// Changes a provider's URL: the store row first, then the record.
    /// The record's other fields and every other provider stay as they
    /// were.
    pub fn edit_provider_url(
        &mut self,
        conn: &rusqlite::Connection,
        provider_id: &UniqueId,
        url: String,
        now: u64,
    ) -> (r: Result<(), DbError>)
        requires
            old(self).wf(),
        ensures
            final(self).wf(),
            final(self).current_model == old(self).current_model,
            final(self).chat_titles_model == old(self).chat_titles_model,
            final(self).models_cache == old(self).models_cache,
            r is Err ==> *final(self) == *old(self),
            r is Ok ==> ({
                let before = old(self).providers.spec_get(provider_id@)->Some_0;
                let after = final(self).providers.spec_get(provider_id@)->Some_0;
                &&& old(self).providers.spec_contains_key(provider_id@)
                &&& after.url@ == url@
                &&& after.kind == before.kind
                &&& after.name == before.name
                &&& after.icon == before.icon
                &&& forall|pid2: Seq<char>| pid2 != provider_id@
                    ==> final(self).providers.spec_get(pid2)
                        == old(self).providers.spec_get(pid2)
            }),
    {
        let record = match self.providers.get(provider_id) {
            None => {
                return Err(DbError::MissingData("provider"));
            },
            Some(p) => Provider {
                kind: p.kind,
                name: p.name.clone(),
                url: url.clone(),
                icon: p.icon.clone(),
            },
        };
        if let Err(e) = update_provider_url_row(conn, provider_id.as_str(), url.as_str(), now) {
            return Err(DbError::SqliteError(e));
        }
        let _ = self.providers.insert(provider_id.clone(), record);
        Ok(())
    }

    /// Deletes a provider: its row (dependent rows cascade), its cached
    /// models and fingerprint, and its record. The caller removes its
    /// keychain entry.
    pub fn delete_provider(&mut self, conn: &rusqlite::Connection, provider_id: &UniqueId) -> (r:
        Result<(), DbError>)
        requires
            old(self).wf(),
        ensures
            final(self).wf(),
            final(self).current_model == old(self).current_model,
            final(self).chat_titles_model == old(self).chat_titles_model,
            r is Err ==> *final(self) == *old(self),
            r is Ok ==> {
                &&& !final(self).providers.spec_contains_key(provider_id@)
                &&& !final(self).models_cache.has_provider(provider_id@)
                &&& !final(self).models_cache.has_fingerprint(provider_id@)
                &&& forall|pid2: Seq<char>| pid2 != provider_id@ ==> {
                    &&& final(self).providers.spec_get(pid2)
                        == old(self).providers.spec_get(pid2)
                    &&& final(self).models_cache.has_provider(pid2)
                        == old(self).models_cache.has_provider(pid2)
                    &&& final(self).models_cache.has_fingerprint(pid2)
                        == old(self).models_cache.has_fingerprint(pid2)
                }
            },
    {
        if let Err(e) = delete_provider_row(conn, provider_id.as_str()) {
            return Err(DbError::SqliteError(e));
        }
        self.models_cache.delete_models_for_provider(provider_id);
        let _ = self.providers.remove(provider_id);
        Ok(())
    }
}

} // verus!
