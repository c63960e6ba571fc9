//! Streaming-generation state: at most one main chat generation at a
//! time, cooperatively cancelled at delta boundaries.
//!
//! The orchestrator hands out a fresh generation number per stream. The
//! driver of a stream asks [`StreamingOrchestrator::should_apply_delta`]
//! with its own number before applying each delta; starting a newer
//! generation or a user cancellation makes that answer false, so the
//! prior message's content stops growing while whatever already landed
//! stays intact. The cleanup step is unconditional and idempotent, so
//! the streaming flag comes down on every exit path.

use vstd::prelude::*;

verus! {

/// The global streaming state: the flag the UI reads, the cancellation
/// request, and the generation counters.
pub struct StreamingOrchestrator {
    streaming: bool,
    cancel_requested: bool,
    current_gen: u64,
    next_gen: u64,
}

/// The state after starting a new generation, and that generation's
/// number.
pub closed spec fn spec_begin_generation(s: StreamingOrchestrator) -> (
    StreamingOrchestrator,
    u64,
) {
    (
        StreamingOrchestrator {
            streaming: true,
            cancel_requested: false,
            current_gen: s.next_gen,
            next_gen: (s.next_gen + 1) as u64,
        },
        s.next_gen,
    )
}

/// The state after requesting cancellation of the running generation.
pub closed spec fn spec_cancel(s: StreamingOrchestrator) -> StreamingOrchestrator {
    StreamingOrchestrator { cancel_requested: true, ..s }
}

/// The state after the cleanup that every generation runs on exit:
/// streaming flag down, cancellation handle cleared.
pub closed spec fn spec_finish(s: StreamingOrchestrator) -> StreamingOrchestrator {
    StreamingOrchestrator { streaming: false, cancel_requested: false, ..s }
}

/// True when a delta of generation `gen` may still be applied.
pub closed spec fn spec_may_apply(s: StreamingOrchestrator, gen: u64) -> bool {
    s.streaming && s.current_gen == gen && !s.cancel_requested
}

impl StreamingOrchestrator {
    /// True while a generation is streaming.
    pub closed spec fn streaming(&self) -> bool {
        self.streaming
    }

    /// True when the running generation has been asked to stop.
    pub closed spec fn cancel_requested(&self) -> bool {
        self.cancel_requested
    }

    /// The number of the most recently started generation.
    pub closed spec fn current_generation(&self) -> u64 {
        self.current_gen
    }

    /// The number the next generation will receive.
    pub closed spec fn next_generation(&self) -> u64 {
        self.next_gen
    }

    /// Generation numbers are handed out in order: the current one is
    /// always below the next fresh one.
    pub closed spec fn wf(&self) -> bool {
        self.current_gen < self.next_gen
    }

    /// An idle orchestrator.
    pub fn new() -> (r: Self)
        ensures
            r.wf(),
            !r.streaming(),
            !r.cancel_requested(),
            r.next_generation() == 1,
    {
        StreamingOrchestrator {
            streaming: false,
            cancel_requested: false,
            current_gen: 0,
            next_gen: 1,
        }
    }

    /// Starts a new generation and returns its number. Any prior
    /// generation loses the right to apply deltas from here on.
    pub fn begin_generation(&mut self) -> (gen: u64)
        requires
            old(self).wf(),
            old(self).next_generation() < u64::MAX,
        ensures
            final(self).wf(),
            *final(self) == spec_begin_generation(*old(self)).0,
            gen == spec_begin_generation(*old(self)).1,
            final(self).streaming(),
            !final(self).cancel_requested(),
            final(self).current_generation() == gen,
            final(self).next_generation() == gen + 1,
            !spec_may_apply(*final(self), old(self).current_generation()),
            spec_may_apply(*final(self), gen),
    {
        let gen = self.next_gen;
        self.streaming = true;
        self.cancel_requested = false;
        self.current_gen = gen;
        self.next_gen = gen + 1;
        gen
    }

    /// Requests cooperative cancellation of the running generation: no
    /// further delta will be applied, and content already landed stays.
    pub fn cancel_streaming(&mut self)
        requires
            old(self).wf(),
        ensures
            final(self).wf(),
            *final(self) == spec_cancel(*old(self)),
            final(self).streaming() == old(self).streaming(),
            final(self).current_generation() == old(self).current_generation(),
            final(self).cancel_requested(),
            forall|g: u64| !spec_may_apply(*final(self), g),
    {
        self.cancel_requested = true;
    }

    /// Asked by a stream's driver, with its own generation number, at
    /// each delta boundary (never mid-delta).
    pub fn should_apply_delta(&self, gen: u64) -> (r: bool)
        ensures
            r == spec_may_apply(*self, gen),
    {
        self.streaming && self.current_gen == gen && !self.cancel_requested
    }

    /// The cleanup run on every exit path — completion, provider error
    /// and cancellation alike: the streaming flag comes down and the
    /// cancellation handle is cleared. Unconditional and idempotent.
    pub fn finish_generation(&mut self)
        requires
            old(self).wf(),
        ensures
            final(self).wf(),
            *final(self) == spec_finish(*old(self)),
            !final(self).streaming(),
            !final(self).cancel_requested(),
            final(self).current_generation() == old(self).current_generation(),
    {
        self.streaming = false;
        self.cancel_requested = false;
    }

    /// The flag the send button reads.
    pub fn is_streaming(&self) -> (r: bool)
        ensures
            r == self.streaming(),
    {
        self.streaming
    }

    /// The generation counter, for callers that must check the machine
    /// limit on the counter before starting another generation.
    pub fn generation_counter(&self) -> (r: u64)
        ensures
            r == self.next_generation(),
    {
        self.next_gen
    }
}

/// The law of restart: starting a new generation while one is active
/// cancels the prior one — no delta of the prior generation is applied
/// after the start — while the new generation streams; and once the
/// pending cleanup runs, the global streaming flag is down and stays
/// down if cleanup runs again.
pub proof fn lemma_restart_cancels_prior(s: StreamingOrchestrator)
    requires
        s.wf(),
        s.streaming(),
    ensures
        ({
            let prior = s.current_generation();
            let (s2, fresh) = spec_begin_generation(s);
            &&& !spec_may_apply(s2, prior)
            &&& spec_may_apply(s2, fresh)
            &&& !spec_finish(s2).streaming()
            &&& !spec_finish(spec_finish(s2)).streaming()
        }),
{
}

/// The law of cancellation: after a cancellation request no generation
/// may apply a delta, and the state is otherwise untouched — content
/// already written is not rolled back by cancelling.
pub proof fn lemma_cancel_stops_deltas(s: StreamingOrchestrator, g: u64)
    ensures
        !spec_may_apply(spec_cancel(s), g),
        spec_cancel(s).streaming() == s.streaming(),
        spec_cancel(s).current_generation() == s.current_generation(),
{
}

} // verus!
