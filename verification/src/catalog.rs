//! Per-provider cache of model identifiers with a time-to-live, plus a
//! cache of provider configuration fingerprints used to detect
//! configuration drift independently of the TTL.
//!
//! Time enters as an explicit parameter (seconds on a monotone clock),
//! so freshness is a pure function of the cache state and the clock.

use vstd::prelude::*;

use crate::front_map::FrontInsertMap;
use crate::unique_id::UniqueId;

verus! {

broadcast use crate::keyed::lemma_row_value_some, crate::keyed::lemma_has_row_value;

/// Minimum interval between model fetches per provider (in seconds).
pub const MODEL_FETCH_COOLDOWN_SECS: u64 = 120;

/// The views of a sequence of strings.
pub open spec fn str_seq_view(s: Seq<String>) -> Seq<Seq<char>> {
    Seq::new(s.len(), |i: int| s[i]@)
}

/// The SHA-256 digest of a credential string, a pure function of the
/// string. Named here; computed only by [`hash_api_key`].
pub uninterp spec fn sha256_of(key: Seq<char>) -> Seq<u8>;

/// Relies on sha2::Sha256: computes the 32-byte SHA-256 digest of the
/// key's bytes, which depends on the key alone.
#[verifier::external_body]
pub(crate) fn hash_api_key(api_key: &str) -> (r: Vec<u8>)
    ensures
        r@ == sha256_of(api_key@),
        r@.len() == 32,
{
    <sha2::Sha256 as sha2::Digest>::digest(api_key.as_bytes()).to_vec()
}

/// Byte-for-byte equality of two digests.
fn bytes_eq(a: &Vec<u8>, b: &Vec<u8>) -> (r: bool)
    ensures
        r == (a@ == b@),
{
    if a.len() != b.len() {
        return false;
    }
    let n = a.len();
    for i in 0..n
        invariant
            n == a.len() == b.len(),
            forall|j: int| 0 <= j < i ==> a@[j] == b@[j],
    {
        if a[i] != b[i] {
            return false;
        }
    }
    proof {
        assert(a@ =~= b@);
    }
    true
}

/// A cached model entry with provider info.
#[derive(Debug)]
pub struct CachedModel {
    pub provider_id: UniqueId,
    pub provider_name: String,
    pub model_id: String,
}

impl CachedModel {
    /// The entry as plain values: (provider id, provider name, model id).
    pub open spec fn view_triple(&self) -> (Seq<char>, Seq<char>, Seq<char>) {
        (self.provider_id@, self.provider_name@, self.model_id@)
    }
}

impl Clone for CachedModel {
    fn clone(&self) -> (r: Self)
        ensures
            r.view_triple() == self.view_triple(),
    {
        CachedModel {
            provider_id: self.provider_id.clone(),
            provider_name: self.provider_name.clone(),
            model_id: self.model_id.clone(),
        }
    }
}

/// Per-provider model cache entry.
struct ProviderModels {
    models: Vec<String>,
    provider_name: String,
    fetched_at: u64,
}

/// Cached configuration fingerprint of a provider: the URL verbatim and
/// a non-reversible digest of the credential. Detects drift without
/// storing or re-reading the credential itself.
struct CachedProviderState {
    url: String,
    api_key_hash: Vec<u8>,
}

impl CachedProviderState {
    /// A fingerprint of the current URL and credential.
    fn new(url: String, api_key: &str) -> (r: Self)
        ensures
            r.url@ == url@,
            r.api_key_hash@ == sha256_of(api_key@),
    {
        CachedProviderState { url, api_key_hash: hash_api_key(api_key) }
    }

    /// True when the URL differs from the stored one.
    fn url_changed(&self, new_url: &str) -> (r: bool)
        ensures
            r == (self.url@ != new_url@),
    {
        !(self.url == new_url.to_owned())
    }

    /// True when the credential's digest differs from the stored one.
    fn api_key_changed(&self, new_api_key: &str) -> (r: bool)
        ensures
            r == (self.api_key_hash@ != sha256_of(new_api_key@)),
    {
        let h = hash_api_key(new_api_key);
        !bytes_eq(&self.api_key_hash, &h)
    }

    /// Stores a new URL.
    fn set_url(&mut self, url: String)
        ensures
            final(self).url@ == url@,
            final(self).api_key_hash == old(self).api_key_hash,
    {
        self.url = url;
    }

    /// Stores the digest of a new credential.
    fn set_api_key(&mut self, api_key: &str)
        ensures
            final(self).api_key_hash@ == sha256_of(api_key@),
            final(self).url == old(self).url,
    {
        self.api_key_hash = hash_api_key(api_key);
    }
}

/// The reason a provider's models are being refetched.
pub enum ProviderConfigChange {
    /// New provider created — skip change detection.
    Create,
    /// The URL may have changed.
    Url(String),
    /// The credential may have changed (`None` = cleared).
    ApiKey(Option<String>),
}

/// The per-provider model catalog cache with change-detection
/// fingerprints.
pub struct ModelsCache {
    /// All models flattened, for iteration.
    all_models: Vec<CachedModel>,
    /// Per-provider model lists with fetch timestamps.
    per_provider: FrontInsertMap<ProviderModels>,
    /// Cached config fingerprint per provider.
    provider_config_cache: FrontInsertMap<CachedProviderState>,
}

/// A sequence of cached models as plain triples.
spec fn triples_of(s: Seq<CachedModel>) -> Seq<(Seq<char>, Seq<char>, Seq<char>)> {
    Seq::new(s.len(), |i: int| s[i].view_triple())
}

/// One provider row flattened into catalog triples.
spec fn provider_triples(e: (UniqueId, ProviderModels)) -> Seq<(Seq<char>, Seq<char>, Seq<char>)> {
    Seq::new(e.1.models@.len(), |i: int| (e.0@, e.1.provider_name@, e.1.models@[i]@))
}

/// All provider rows flattened into catalog triples, in row order.
spec fn flat_triples(s: Seq<(UniqueId, ProviderModels)>) -> Seq<(Seq<char>, Seq<char>, Seq<char>)>
    decreases s.len(),
{
    if s.len() == 0 {
        Seq::empty()
    } else {
        flat_triples(s.drop_last()) + provider_triples(s.last())
    }
}

/// Every position of the flattened rows names a row and one of its
/// models.
proof fn lemma_flat_triples_index(s: Seq<(UniqueId, ProviderModels)>, idx: int)
    requires
        0 <= idx < flat_triples(s).len(),
    ensures
        exists|i: int, j: int| {
            &&& 0 <= i < s.len()
            &&& 0 <= j < s[i].1.models@.len()
            &&& #[trigger] provider_triples(s[i])[j] == flat_triples(s)[idx]
        },
    decreases s.len(),
{
    let dl = s.drop_last();
    if idx < flat_triples(dl).len() {
        lemma_flat_triples_index(dl, idx);
        let (i, j) = choose|i: int, j: int| {
            &&& 0 <= i < dl.len()
            &&& 0 <= j < dl[i].1.models@.len()
            &&& #[trigger] provider_triples(dl[i])[j] == flat_triples(dl)[idx]
        };
        assert(s[i] == dl[i]);
        assert(provider_triples(s[i])[j] == flat_triples(s)[idx]);
    } else {
        let i = s.len() - 1;
        let j = idx - flat_triples(dl).len();
        assert(provider_triples(s[i])[j] == flat_triples(s)[idx]);
    }
}

/// Each model of each row appears in the flattened rows.
proof fn lemma_flat_triples_contains(s: Seq<(UniqueId, ProviderModels)>, i: int, j: int)
    requires
        0 <= i < s.len(),
        0 <= j < s[i].1.models@.len(),
    ensures
        flat_triples(s).contains(provider_triples(s[i])[j]),
    decreases s.len(),
{
    let dl = s.drop_last();
    if i < s.len() - 1 {
        assert(dl[i] == s[i]);
        lemma_flat_triples_contains(dl, i, j);
        let k = choose|k: int|
            0 <= k < flat_triples(dl).len() && flat_triples(dl)[k] == provider_triples(dl[i])[j];
        assert(flat_triples(s)[k] == provider_triples(s[i])[j]);
    } else {
        let k = flat_triples(dl).len() + j;
        assert(flat_triples(s)[k] == provider_triples(s[i])[j]);
    }
}

impl ModelsCache {
    /// True when the cache holds a model list for the provider.
    pub closed spec fn has_provider(&self, pid: Seq<char>) -> bool {
        self.per_provider.spec_contains_key(pid)
    }

    /// The provider name stored with the cached list.
    pub closed spec fn provider_name_of(&self, pid: Seq<char>) -> Seq<char> {
        self.per_provider.spec_get(pid)->Some_0.provider_name@
    }

    /// The cached model identifiers of the provider, in list order.
    pub closed spec fn models_of(&self, pid: Seq<char>) -> Seq<Seq<char>> {
        str_seq_view(self.per_provider.spec_get(pid)->Some_0.models@)
    }

    /// When the provider's list was last refreshed.
    pub closed spec fn fetched_at_of(&self, pid: Seq<char>) -> u64 {
        self.per_provider.spec_get(pid)->Some_0.fetched_at
    }

    /// True when the cache holds a configuration fingerprint for the
    /// provider.
    pub closed spec fn has_fingerprint(&self, pid: Seq<char>) -> bool {
        self.provider_config_cache.spec_contains_key(pid)
    }

    /// The URL stored in the provider's fingerprint.
    pub closed spec fn fingerprint_url(&self, pid: Seq<char>) -> Seq<char> {
        self.provider_config_cache.spec_get(pid)->Some_0.url@
    }

    /// The credential digest stored in the provider's fingerprint.
    pub closed spec fn fingerprint_digest(&self, pid: Seq<char>) -> Seq<u8> {
        self.provider_config_cache.spec_get(pid)->Some_0.api_key_hash@
    }

    /// The flattened catalog, as plain triples in iteration order.
    pub closed spec fn catalog_view(&self) -> Seq<(Seq<char>, Seq<char>, Seq<char>)> {
        triples_of(self.all_models@)
    }

    /// Staleness: no entry, or the TTL has elapsed. Staleness triggers a
    /// re-fetch, never an error.
    pub open spec fn stale_at(&self, pid: Seq<char>, now: u64) -> bool {
        !self.has_provider(pid) || now >= self.fetched_at_of(pid) + MODEL_FETCH_COOLDOWN_SECS
    }

    /// Well-formedness: the keyed stores are maps, and the flattened
    /// list is exactly the per-provider lists in row order.
    pub closed spec fn wf(&self) -> bool {
        &&& self.per_provider.wf()
        &&& self.provider_config_cache.wf()
        &&& self.catalog_view() == flat_triples(self.per_provider.rows())
    }

    /// An empty cache.
    pub fn new() -> (r: Self)
        ensures
            r.wf(),
            forall|pid: Seq<char>| !r.has_provider(pid) && !r.has_fingerprint(pid),
            r.catalog_view() == Seq::<(Seq<char>, Seq<char>, Seq<char>)>::empty(),
    {
        let r = ModelsCache {
            all_models: Vec::new(),
            per_provider: FrontInsertMap::new(),
            provider_config_cache: FrontInsertMap::new(),
        };
        proof {
            assert(r.catalog_view() =~= Seq::<(Seq<char>, Seq<char>, Seq<char>)>::empty());
            assert(flat_triples(r.per_provider.rows()) =~= Seq::empty());
        }
        r
    }

    /// All cached models, flattened for iteration.
    pub fn get_all_models(&self) -> (r: &Vec<CachedModel>)
        ensures
            r@.len() == self.catalog_view().len(),
            forall|i: int| 0 <= i < r@.len()
                ==> (#[trigger] r@[i]).view_triple() == self.catalog_view()[i],
    {
        &self.all_models
    }

    /// True when the provider's cache entry is missing or older than the
    /// cooldown.
    pub fn is_provider_stale(&self, provider_id: &UniqueId, now: u64) -> (r: bool)
        requires
            self.wf(),
        ensures
            r == self.stale_at(provider_id@, now),
    {
        match self.per_provider.get(provider_id) {
            Some(cached) => {
                now >= MODEL_FETCH_COOLDOWN_SECS
                    && cached.fetched_at <= now - MODEL_FETCH_COOLDOWN_SECS
            },
            None => true,
        }
    }

    /// The cached (name, models) of the provider, only while fresh:
    /// stale data is never served silently.
    pub fn get_provider_models(&self, provider_id: &UniqueId, now: u64) -> (r: Option<
        (&String, &Vec<String>),
    >)
        requires
            self.wf(),
        ensures
            r is Some <==> !self.stale_at(provider_id@, now),
            r is Some ==> r->Some_0.0@ == self.provider_name_of(provider_id@)
                && str_seq_view(r->Some_0.1@) == self.models_of(provider_id@),
    {
        match self.per_provider.get(provider_id) {
            Some(cached) => {
                let fresh = !(now >= MODEL_FETCH_COOLDOWN_SECS
                    && cached.fetched_at <= now - MODEL_FETCH_COOLDOWN_SECS);
                if fresh {
                    Some((&cached.provider_name, &cached.models))
                } else {
                    None
                }
            },
            None => None,
        }
    }

    /// Rebuilds the flattened list from the per-provider rows.
    fn rebuild_all_models(&mut self)
        ensures
            final(self).per_provider == old(self).per_provider,
            final(self).provider_config_cache == old(self).provider_config_cache,
            final(self).catalog_view() == flat_triples(final(self).per_provider.rows()),
    {
        let rows = self.per_provider.iter();
        let n = rows.len();
        let mut flat: Vec<CachedModel> = Vec::new();
        proof {
            assert(self.per_provider.rows().take(0) =~= Seq::empty());
            assert(triples_of(flat@) =~= Seq::empty());
        }
        for i in 0..n
            invariant
                n == rows@.len(),
                rows@.len() == self.per_provider.rows().len(),
                forall|j: int| 0 <= j < n ==> *(#[trigger] rows@[j]).0
                    == self.per_provider.rows()[j].0
                    && *rows@[j].1 == self.per_provider.rows()[j].1,
                triples_of(flat@) == flat_triples(self.per_provider.rows().take(i as int)),
        {
            let pm: &ProviderModels = rows[i].1;
            let provider_id: &UniqueId = rows[i].0;
            let m = pm.models.len();
            let ghost row = self.per_provider.rows()[i as int];
            let ghost before = triples_of(flat@);
            for j in 0..m
                invariant
                    m == pm.models@.len(),
                    pm == self.per_provider.rows()[i as int].1,
                    provider_id == self.per_provider.rows()[i as int].0,
                    row == self.per_provider.rows()[i as int],
                    triples_of(flat@) == before + provider_triples(row).take(j as int),
            {
                let entry = CachedModel {
                    provider_id: provider_id.clone(),
                    provider_name: pm.provider_name.clone(),
                    model_id: pm.models[j].clone(),
                };
                let ghost t = provider_triples(row)[j as int];
                let ghost ev = entry.view_triple();
                proof {
                    assert(ev.0 == t.0);
                    assert(ev.1 == t.1);
                    assert(ev.2 == t.2);
                    assert(ev == t);
                }
                let ghost flat_before = flat@;
                flat.push(entry);
                proof {
                    assert(triples_of(flat_before.push(flat@.last()))
                        =~= triples_of(flat_before).push(ev));
                    assert(triples_of(flat@)
                        == (before + provider_triples(row).take(j as int)).push(t));
                    assert((before + provider_triples(row).take(j as int)).push(t)
                        =~= before + provider_triples(row).take(j + 1));
                }
            }
            proof {
                assert(provider_triples(row).take(m as int) =~= provider_triples(row));
                let rs = self.per_provider.rows();
                assert(rs.take(i + 1).len() == i + 1);
                assert(rs.take(i + 1).drop_last() =~= rs.take(i as int));
                assert(rs.take(i + 1).last() == rs[i as int]);
                assert(flat_triples(rs.take(i + 1))
                    == flat_triples(rs.take(i as int)) + provider_triples(row));
            }
        }
        proof {
            assert(self.per_provider.rows().take(n as int) =~= self.per_provider.rows());
        }
        self.all_models = flat;
    }

    /// Unconditionally overwrites the provider's cached models, resets
    /// its timestamp to `now`, and rebuilds the flattened list.
    pub fn refresh_models_for_provider(
        &mut self,
        provider_id: UniqueId,
        provider_name: String,
        models: Vec<String>,
        now: u64,
    )
        requires
            old(self).wf(),
        ensures
            final(self).wf(),
            final(self).has_provider(provider_id@),
            final(self).provider_name_of(provider_id@) == provider_name@,
            final(self).models_of(provider_id@) == str_seq_view(models@),
            final(self).fetched_at_of(provider_id@) == now,
            forall|pid2: Seq<char>| pid2 != provider_id@ ==> {
                &&& final(self).has_provider(pid2) == old(self).has_provider(pid2)
                &&& final(self).provider_name_of(pid2) == old(self).provider_name_of(pid2)
                &&& final(self).models_of(pid2) == old(self).models_of(pid2)
                &&& final(self).fetched_at_of(pid2) == old(self).fetched_at_of(pid2)
            },
            forall|pid2: Seq<char>| {
                &&& final(self).has_fingerprint(pid2) == old(self).has_fingerprint(pid2)
                &&& final(self).fingerprint_url(pid2) == old(self).fingerprint_url(pid2)
                &&& final(self).fingerprint_digest(pid2) == old(self).fingerprint_digest(pid2)
            },
    {
        let entry = ProviderModels { models, provider_name, fetched_at: now };
        let _ = self.per_provider.insert(provider_id, entry);
        let ghost mid = self.per_provider;
        self.rebuild_all_models();
        proof {
            assert(self.per_provider == mid);
            assert forall|pid2: Seq<char>| pid2 != provider_id@ implies {
                &&& self.has_provider(pid2) == old(self).has_provider(pid2)
                &&& self.provider_name_of(pid2) == old(self).provider_name_of(pid2)
                &&& self.models_of(pid2) == old(self).models_of(pid2)
                &&& self.fetched_at_of(pid2) == old(self).fetched_at_of(pid2)
            } by {
                assert(mid.spec_get(pid2) == old(self).per_provider.spec_get(pid2));
                assert(self.per_provider.spec_get(pid2) == mid.spec_get(pid2));
            }
        }
    }

    /// Removes the provider's models and its config fingerprint, and
    /// rebuilds the flattened list. Used when a provider is deleted.
    pub fn delete_models_for_provider(&mut self, provider_id: &UniqueId)
        requires
            old(self).wf(),
        ensures
            final(self).wf(),
            !final(self).has_provider(provider_id@),
            !final(self).has_fingerprint(provider_id@),
            forall|pid2: Seq<char>| pid2 != provider_id@ ==> {
                &&& final(self).has_provider(pid2) == old(self).has_provider(pid2)
                &&& final(self).provider_name_of(pid2) == old(self).provider_name_of(pid2)
                &&& final(self).models_of(pid2) == old(self).models_of(pid2)
                &&& final(self).fetched_at_of(pid2) == old(self).fetched_at_of(pid2)
                &&& final(self).has_fingerprint(pid2) == old(self).has_fingerprint(pid2)
                &&& final(self).fingerprint_url(pid2) == old(self).fingerprint_url(pid2)
                &&& final(self).fingerprint_digest(pid2) == old(self).fingerprint_digest(pid2)
            },
    {
        let _ = self.per_provider.remove(provider_id);
        let _ = self.provider_config_cache.remove(provider_id);
        let ghost mid_pp = self.per_provider;
        let ghost mid_cfg = self.provider_config_cache;
        self.rebuild_all_models();
        proof {
            assert(self.per_provider == mid_pp);
            assert(self.provider_config_cache == mid_cfg);
            assert forall|pid2: Seq<char>| pid2 != provider_id@ implies {
                &&& self.has_provider(pid2) == old(self).has_provider(pid2)
                &&& self.provider_name_of(pid2) == old(self).provider_name_of(pid2)
                &&& self.models_of(pid2) == old(self).models_of(pid2)
                &&& self.fetched_at_of(pid2) == old(self).fetched_at_of(pid2)
                &&& self.has_fingerprint(pid2) == old(self).has_fingerprint(pid2)
                &&& self.fingerprint_url(pid2) == old(self).fingerprint_url(pid2)
                &&& self.fingerprint_digest(pid2) == old(self).fingerprint_digest(pid2)
            } by {
                assert(mid_pp.spec_get(pid2) == old(self).per_provider.spec_get(pid2));
                assert(self.per_provider.spec_get(pid2) == mid_pp.spec_get(pid2));
                assert(mid_cfg.spec_get(pid2) == old(self).provider_config_cache.spec_get(pid2));
                assert(self.provider_config_cache.spec_get(pid2) == mid_cfg.spec_get(pid2));
            }
        }
    }

    /// Compares the provider's configuration against the stored
    /// fingerprint and stores the new one.
    ///
    /// The first call for a provider creates the fingerprint and reports
    /// no change, so that provider creation cannot raise a spurious
    /// "changed" signal; every later call reports a change exactly when
    /// the URL differs verbatim or the credential's digest differs.
    pub fn detect_config_change(
        &mut self,
        provider_id: &UniqueId,
        url: &str,
        api_key: &str,
    ) -> (r: bool)
        requires
            old(self).wf(),
        ensures
            final(self).wf(),
            r == (old(self).has_fingerprint(provider_id@) && (
                url@ != old(self).fingerprint_url(provider_id@)
                || sha256_of(api_key@) != old(self).fingerprint_digest(provider_id@)
            )),
            final(self).has_fingerprint(provider_id@),
            final(self).fingerprint_url(provider_id@) == url@,
            final(self).fingerprint_digest(provider_id@) == sha256_of(api_key@),
            forall|pid2: Seq<char>| pid2 != provider_id@ ==> {
                &&& final(self).has_fingerprint(pid2) == old(self).has_fingerprint(pid2)
                &&& final(self).fingerprint_url(pid2) == old(self).fingerprint_url(pid2)
                &&& final(self).fingerprint_digest(pid2) == old(self).fingerprint_digest(pid2)
            },
            forall|pid2: Seq<char>| {
                &&& final(self).has_provider(pid2) == old(self).has_provider(pid2)
                &&& final(self).provider_name_of(pid2) == old(self).provider_name_of(pid2)
                &&& final(self).models_of(pid2) == old(self).models_of(pid2)
                &&& final(self).fetched_at_of(pid2) == old(self).fetched_at_of(pid2)
            },
            final(self).catalog_view() == old(self).catalog_view(),
    {
        let stored = self.provider_config_cache.remove(provider_id);
        let ghost mid_cfg = self.provider_config_cache;
        let (changed, fingerprint): (bool, CachedProviderState) = match stored {
            None => (false, CachedProviderState::new(url.to_owned(), api_key)),
            Some(prior) => {
                let differs = prior.url_changed(url) || prior.api_key_changed(api_key);
                if differs {
                    (true, CachedProviderState::new(url.to_owned(), api_key))
                } else {
                    (false, prior)
                }
            },
        };
        let _ = self.provider_config_cache.insert(provider_id.clone(), fingerprint);
        proof {
            assert forall|pid2: Seq<char>| pid2 != provider_id@ implies {
                &&& self.has_fingerprint(pid2) == old(self).has_fingerprint(pid2)
                &&& self.fingerprint_url(pid2) == old(self).fingerprint_url(pid2)
                &&& self.fingerprint_digest(pid2) == old(self).fingerprint_digest(pid2)
            } by {
                assert(mid_cfg.spec_get(pid2) == old(self).provider_config_cache.spec_get(pid2));
                assert(self.provider_config_cache.spec_get(pid2) == mid_cfg.spec_get(pid2));
            }
        }
        changed
    }

    /// The law of the flattened list, one direction: every entry of the
    /// catalog names a cached provider, carries that provider's stored
    /// name, and lists one of its cached models.
    pub proof fn lemma_catalog_sound(&self)
        requires
            self.wf(),
        ensures
            forall|idx: int| 0 <= idx < self.catalog_view().len() ==> {
                let t = #[trigger] self.catalog_view()[idx];
                &&& self.has_provider(t.0)
                &&& self.provider_name_of(t.0) == t.1
                &&& self.models_of(t.0).contains(t.2)
            },
    {
        let rows = self.per_provider.rows();
        assert forall|idx: int| 0 <= idx < self.catalog_view().len() implies {
            let t = #[trigger] self.catalog_view()[idx];
            &&& self.has_provider(t.0)
            &&& self.provider_name_of(t.0) == t.1
            &&& self.models_of(t.0).contains(t.2)
        } by {
            let t = self.catalog_view()[idx];
            lemma_flat_triples_index(rows, idx);
            let (i, j) = choose|i: int, j: int| {
                &&& 0 <= i < rows.len()
                &&& 0 <= j < rows[i].1.models@.len()
                &&& #[trigger] provider_triples(rows[i])[j] == flat_triples(rows)[idx]
            };
            crate::keyed::lemma_row_value_at(rows, i);
            assert(t.0 == rows[i].0@);
            assert(self.per_provider.spec_get(t.0) == Some(rows[i].1));
            assert(self.models_of(t.0)[j] == rows[i].1.models@[j]@);
            assert(self.models_of(t.0).contains(t.2));
        }
    }

    /// The law of the flattened list, the other direction: every cached
    /// model of every cached provider appears in the catalog, tagged
    /// with that provider's identity and stored name.
    pub proof fn lemma_catalog_complete(&self, pid: Seq<char>, j: int)
        requires
            self.wf(),
            self.has_provider(pid),
            0 <= j < self.models_of(pid).len(),
        ensures
            self.catalog_view().contains(
                (pid, self.provider_name_of(pid), self.models_of(pid)[j]),
            ),
    {
        let rows = self.per_provider.rows();
        let i = choose|i: int| 0 <= i < rows.len() && rows[i].0@ == pid;
        crate::keyed::lemma_row_value_at(rows, i);
        assert(self.per_provider.spec_get(pid) == Some(rows[i].1));
        lemma_flat_triples_contains(rows, i, j);
        assert(provider_triples(rows[i])[j]
            == (pid, self.provider_name_of(pid), self.models_of(pid)[j]));
    }

    /// The change-kind protocol of the settings forms: seeds a missing fingerprint
    /// from the provider's current configuration (silently), then
    /// compares only the dimension that the change touches and updates
    /// the stored fingerprint only when it differs. Returns whether a
    /// refetch is due.
    pub fn check_and_update_config_cache(
        &mut self,
        provider_id: &UniqueId,
        current_url: &str,
        current_api_key: &str,
        config_change: &ProviderConfigChange,
    ) -> (r: bool)
        requires
            old(self).wf(),
        ensures
            final(self).wf(),
            forall|pid2: Seq<char>| {
                &&& final(self).has_provider(pid2) == old(self).has_provider(pid2)
                &&& final(self).provider_name_of(pid2) == old(self).provider_name_of(pid2)
                &&& final(self).models_of(pid2) == old(self).models_of(pid2)
                &&& final(self).fetched_at_of(pid2) == old(self).fetched_at_of(pid2)
            },
            final(self).catalog_view() == old(self).catalog_view(),
            final(self).has_fingerprint(provider_id@),
            forall|pid2: Seq<char>| pid2 != provider_id@ ==> {
                &&& final(self).has_fingerprint(pid2) == old(self).has_fingerprint(pid2)
                &&& final(self).fingerprint_url(pid2) == old(self).fingerprint_url(pid2)
                &&& final(self).fingerprint_digest(pid2) == old(self).fingerprint_digest(pid2)
            },
            ({
                // the fingerprint the comparison ran against: the stored
                // one, or a fresh one seeded from the current values
                let base_url = if old(self).has_fingerprint(provider_id@) {
                    old(self).fingerprint_url(provider_id@)
                } else {
                    current_url@
                };
                let base_digest = if old(self).has_fingerprint(provider_id@) {
                    old(self).fingerprint_digest(provider_id@)
                } else {
                    sha256_of(current_api_key@)
                };
                match config_change {
                    ProviderConfigChange::Create => {
                        &&& r == true
                        &&& final(self).fingerprint_url(provider_id@) == base_url
                        &&& final(self).fingerprint_digest(provider_id@) == base_digest
                    },
                    ProviderConfigChange::Url(u) => {
                        &&& r == (base_url != u@)
                        &&& final(self).fingerprint_url(provider_id@) == if r { u@ } else { base_url }
                        &&& final(self).fingerprint_digest(provider_id@) == base_digest
                    },
                    ProviderConfigChange::ApiKey(k) => {
                        let key_view = match k {
                            Some(s) => s@,
                            None => Seq::<char>::empty(),
                        };
                        &&& r == (base_digest != sha256_of(key_view))
                        &&& final(self).fingerprint_url(provider_id@) == base_url
                        &&& final(self).fingerprint_digest(provider_id@) == if r {
                            sha256_of(key_view)
                        } else {
                            base_digest
                        }
                    },
                }
            }),
    {
        let stored = self.provider_config_cache.remove(provider_id);
        let ghost mid_cfg = self.provider_config_cache;
        let mut state: CachedProviderState = match stored {
            Some(prior) => prior,
            None => CachedProviderState::new(current_url.to_owned(), current_api_key),
        };
        let changed: bool = match config_change {
            ProviderConfigChange::Create => true,
            ProviderConfigChange::Url(u) => {
                let differs = state.url_changed(u.as_str());
                if differs {
                    state.set_url(u.clone());
                }
                differs
            },
            ProviderConfigChange::ApiKey(k) => {
                let key: &str = match k {
                    Some(s) => s.as_str(),
                    None => "",
                };
                proof {
                    reveal_strlit("");
                    assert(""@ =~= Seq::<char>::empty());
                }
                let differs = state.api_key_changed(key);
                if differs {
                    state.set_api_key(key);
                }
                differs
            },
        };
        let _ = self.provider_config_cache.insert(provider_id.clone(), state);
        proof {
            assert forall|pid2: Seq<char>| pid2 != provider_id@ implies {
                &&& self.has_fingerprint(pid2) == old(self).has_fingerprint(pid2)
                &&& self.fingerprint_url(pid2) == old(self).fingerprint_url(pid2)
                &&& self.fingerprint_digest(pid2) == old(self).fingerprint_digest(pid2)
            } by {
                assert(mid_cfg.spec_get(pid2) == old(self).provider_config_cache.spec_get(pid2));
                assert(self.provider_config_cache.spec_get(pid2) == mid_cfg.spec_get(pid2));
            }
        }
        changed
    }
}

} // verus!
