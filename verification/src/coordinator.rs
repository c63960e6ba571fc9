//! The process-wide latch that serializes bulk catalog-refresh sweeps,
//! and the per-provider fetch-or-cache decision.
//!
//! A second sweep requested while one runs is dropped, not queued:
//! staleness will trigger a retry later. The latch must be released on
//! every exit path; [`FetchCoordinator::end_sweep`] is unconditional and
//! idempotent so a stuck latch cannot block future refreshes.

use vstd::prelude::*;

use crate::catalog::{str_seq_view, ModelsCache};
use crate::unique_id::UniqueId;

verus! {

/// The mutual-exclusion latch for bulk catalog-refresh sweeps.
///
/// The callers that share it across tasks must drive it through a
/// single atomic owner; the contract here is the latch's logic: acquire
/// succeeds exactly when no sweep is running.
pub struct FetchCoordinator {
    fetch_in_progress: bool,
}

impl FetchCoordinator {
    /// True while a bulk sweep is running.
    pub closed spec fn in_progress(&self) -> bool {
        self.fetch_in_progress
    }

    /// A coordinator with no sweep running.
    pub fn new() -> (r: Self)
        ensures
            !r.in_progress(),
    {
        FetchCoordinator { fetch_in_progress: false }
    }

    /// Compare-and-swap acquire: returns true — and the right to sweep —
    /// exactly when no sweep was running; the latch is set either way.
    pub fn try_begin_sweep(&mut self) -> (r: bool)
        ensures
            r == !old(self).in_progress(),
            final(self).in_progress(),
    {
        let was_running = self.fetch_in_progress;
        self.fetch_in_progress = true;
        !was_running
    }

    /// Releases the latch, whatever state it is in. Safe to call on every
    /// exit path, including after cancellation, and idempotent.
    pub fn end_sweep(&mut self)
        ensures
            !final(self).in_progress(),
    {
        self.fetch_in_progress = false;
    }

    /// True while a bulk sweep is running.
    pub fn is_sweep_running(&self) -> (r: bool)
        ensures
            r == self.in_progress(),
    {
        self.fetch_in_progress
    }
}

/// The law of the latch: of two sweeps acquiring it back to back, the
/// second is dropped. The hypotheses are exactly what
/// [`FetchCoordinator::try_begin_sweep`] guarantees for each call, so
/// any two consecutive acquisitions satisfy them.
pub proof fn lemma_second_sweep_dropped(
    s0: FetchCoordinator,
    s1: FetchCoordinator,
    s2: FetchCoordinator,
    r1: bool,
    r2: bool,
)
    requires
        r1 == !s0.in_progress(),
        s1.in_progress(),
        r2 == !s1.in_progress(),
        s2.in_progress(),
    ensures
        !r2,
        !s0.in_progress() ==> r1,
{
}

/// What a sweep does for one provider.
pub enum SweepAction {
    /// The cache is fresh: use these cached model identifiers and make
    /// no network call.
    UseCached(Vec<String>),
    /// The cache is stale or missing: call the provider's list-models
    /// capability.
    FetchRemote,
}

/// Clones a list of model identifiers.
fn clone_string_vec(v: &Vec<String>) -> (r: Vec<String>)
    ensures
        r@.len() == v@.len(),
        forall|i: int| 0 <= i < v@.len() ==> (#[trigger] r@[i])@ == v@[i]@,
{
    let n = v.len();
    let mut r: Vec<String> = Vec::new();
    for i in 0..n
        invariant
            n == v@.len(),
            r@.len() == i,
            forall|j: int| 0 <= j < i ==> (#[trigger] r@[j])@ == v@[j]@,
    {
        r.push(v[i].clone());
    }
    r
}

/// The per-provider decision of a sweep: serve the cached list while it
/// is fresh, otherwise fetch from the network. On a fetch failure the
/// caller logs, skips the provider and leaves the cache as it is.
pub fn plan_provider_refresh(cache: &ModelsCache, provider_id: &UniqueId, now: u64) -> (r:
    SweepAction)
    requires
        cache.wf(),
    ensures
        match r {
            SweepAction::UseCached(models) => !cache.stale_at(provider_id@, now)
                && str_seq_view(models@) == cache.models_of(provider_id@),
            SweepAction::FetchRemote => cache.stale_at(provider_id@, now),
        },
{
    if cache.is_provider_stale(provider_id, now) {
        SweepAction::FetchRemote
    } else {
        match cache.get_provider_models(provider_id, now) {
            Some((_name, models)) => {
                let cloned = clone_string_vec(models);
                proof {
                    assert(str_seq_view(cloned@) =~= str_seq_view(models@));
                }
                SweepAction::UseCached(cloned)
            },
            None => SweepAction::FetchRemote,
        }
    }
}

} // verus!
