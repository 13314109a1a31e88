use vstd::prelude::*;
use wasmtime::ResourceLimiter;

verus! {

/// The fixed ceiling on the number of entries a guest table may grow to,
/// whatever the memory ceiling is.
pub const MAX_TABLE_ENTRIES: usize = 1000;

/// Whether a request to grow to `desired` units stays within `ceiling`.
///
/// This is the whole growth policy: a pure function of the request and the
/// ceiling.
pub open spec fn within_ceiling(desired: usize, ceiling: usize) -> bool {
    desired <= ceiling
}

/// A request of the guest to grow one of its resources.
#[derive(Clone, Copy, Debug, PartialEq, Eq, Structural)]
pub enum GrowthRequest {
    /// Grow a linear memory to `desired` bytes.
    Memory { desired: usize },
    /// Grow a table to `desired` entries.
    Table { desired: usize },
}

/// The host state of one sandboxed run: the ceiling on guest linear memory,
/// and the record of whether any growth request of the guest was refused.
#[derive(Clone, Copy, Debug, PartialEq, Eq, Structural)]
pub struct SandboxState {
    /// Ceiling on the size of a guest linear memory, in bytes.
    pub max_memory_bytes: usize,
    /// Set once a memory or table growth request has been refused.
    pub growth_denied: bool,
}

impl SandboxState {
    /// The state a run starts in: the given ceiling, nothing refused yet.
    pub open spec fn fresh(max_memory_bytes: usize) -> SandboxState {
        SandboxState { max_memory_bytes, growth_denied: false }
    }

    /// Whether `request` is within the ceilings: a memory may grow up to
    /// `max_memory_bytes`, a table up to `MAX_TABLE_ENTRIES`.
    pub open spec fn permits(self, request: GrowthRequest) -> bool {
        match request {
            GrowthRequest::Memory { desired } => within_ceiling(desired, self.max_memory_bytes),
            GrowthRequest::Table { desired } => within_ceiling(desired, MAX_TABLE_ENTRIES),
        }
    }

    /// The state after a growth request was answered with `allow`: the
    /// ceiling is untouched, and a refusal is remembered for good.
    pub open spec fn noting(self, allow: bool) -> SandboxState {
        SandboxState {
            max_memory_bytes: self.max_memory_bytes,
            growth_denied: self.growth_denied || !allow,
        }
    }

    /// The state after `requests` were answered one after the other.
    pub open spec fn after(self, requests: Seq<GrowthRequest>) -> SandboxState
        decreases requests.len(),
    {
        if requests.len() == 0 {
            self
        } else {
            let prior = self.after(requests.drop_last());
            prior.noting(prior.permits(requests.last()))
        }
    }

    /// `self` can become `later` in the course of a run: by answering
    /// growth requests, and in no other way.
    pub open spec fn leads_to(self, later: SandboxState) -> bool {
        exists|requests: Seq<GrowthRequest>| later == #[trigger] self.after(requests)
    }

    /// Makes the state a run starts in.
    pub fn new(max_memory_bytes: usize) -> (state: SandboxState)
        ensures
            state == SandboxState::fresh(max_memory_bytes),
    {
        SandboxState { max_memory_bytes, growth_denied: false }
    }

    /// Answers a growth request: it is allowed exactly when it is within
    /// the ceilings. A refusal is recorded; nothing else changes.
    pub fn answer(&mut self, request: GrowthRequest) -> (allow: bool)
        ensures
            allow == old(self).permits(request),
            *final(self) == old(self).noting(allow),
    {
        let allow = match request {
            GrowthRequest::Memory { desired } => desired <= self.max_memory_bytes,
            GrowthRequest::Table { desired } => desired <= MAX_TABLE_ENTRIES,
        };
        if !allow {
            self.growth_denied = true;
        }
        allow
    }
}

impl ResourceLimiter for SandboxState {
    /// Answers the runtime's question whether a linear memory may grow to
    /// `desired` bytes: yes exactly when `desired` is within
    /// `max_memory_bytes`, whatever its size is now and whatever maximum the
    /// module declares. It never fails.
    fn memory_growing(&mut self, _current: usize, desired: usize, _maximum: Option<usize>) -> (decision:
        Result<bool, wasmtime::Error>)
        ensures
            decision matches Ok(allow) && allow == within_ceiling(
                desired,
                old(self).max_memory_bytes,
            ) && *final(self) == old(self).noting(allow),
    {
        Ok(self.answer(GrowthRequest::Memory { desired }))
    }

    /// Answers the runtime's question whether a table may grow to `desired`
    /// entries: yes exactly when `desired` is within `MAX_TABLE_ENTRIES`,
    /// whatever its size is now and whatever maximum the module declares.
    /// It never fails.
    fn table_growing(&mut self, _current: usize, desired: usize, _maximum: Option<usize>) -> (decision:
        Result<bool, wasmtime::Error>)
        ensures
            decision matches Ok(allow) && allow == within_ceiling(desired, MAX_TABLE_ENTRIES)
                && *final(self) == old(self).noting(allow),
    {
        Ok(self.answer(GrowthRequest::Table { desired }))
    }
}

/// The ceilings never change in the course of a run, whatever the guest
/// asks for.
pub proof fn lemma_ceiling_is_fixed(state: SandboxState, requests: Seq<GrowthRequest>)
    ensures
        state.after(requests).max_memory_bytes == state.max_memory_bytes,
    decreases requests.len(),
{
    if requests.len() > 0 {
        lemma_ceiling_is_fixed(state, requests.drop_last());
    }
}

/// A run ends with a refusal on record exactly when it started with one or
/// one of its requests was beyond a ceiling: no request beyond a ceiling is
/// ever allowed to pass unnoticed, and none within is ever held against the
/// guest.
pub proof fn lemma_refusals_are_remembered(state: SandboxState, requests: Seq<GrowthRequest>)
    ensures
        state.after(requests).growth_denied <==> state.growth_denied || exists|i: int|
            0 <= i < requests.len() && !state.permits(#[trigger] requests[i]),
    decreases requests.len(),
{
    if requests.len() > 0 {
        let earlier = requests.drop_last();
        lemma_refusals_are_remembered(state, earlier);
        lemma_ceiling_is_fixed(state, earlier);
        if exists|i: int| 0 <= i < earlier.len() && !state.permits(#[trigger] earlier[i]) {
            let i = choose|i: int| 0 <= i < earlier.len() && !state.permits(#[trigger] earlier[i]);
            assert(requests[i] == earlier[i]);
        }
        if exists|i: int| 0 <= i < requests.len() && !state.permits(#[trigger] requests[i]) {
            let i = choose|i: int| 0 <= i < requests.len() && !state.permits(#[trigger] requests[i]);
            if i < earlier.len() {
                assert(earlier[i] == requests[i]);
            }
        }
    }
}

/// Whatever a state becomes in the course of a run, its ceiling is the same
/// and a refusal it had on record is still on record.
pub proof fn lemma_later_state_keeps_ceiling_and_refusal(state: SandboxState, later: SandboxState)
    requires
        state.leads_to(later),
    ensures
        later.max_memory_bytes == state.max_memory_bytes,
        state.growth_denied ==> later.growth_denied,
{
    let requests = choose|requests: Seq<GrowthRequest>| later == #[trigger] state.after(requests);
    lemma_ceiling_is_fixed(state, requests);
    lemma_refusals_are_remembered(state, requests);
}

/// In a run that ends with no refusal on record, every request was within
/// the ceilings: every memory the guest asked for within `max_memory_bytes`,
/// every table within `MAX_TABLE_ENTRIES`.
pub proof fn lemma_unrefused_run_stayed_within_ceilings(
    state: SandboxState,
    requests: Seq<GrowthRequest>,
    i: int,
)
    requires
        !state.after(requests).growth_denied,
        0 <= i < requests.len(),
    ensures
        state.permits(requests[i]),
{
    lemma_refusals_are_remembered(state, requests);
}

} // verus!
