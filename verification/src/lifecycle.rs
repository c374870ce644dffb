//! The load/unload state machine of the service.

use vstd::prelude::*;

verus! {

/// Whether the tables hold the synced data.
#[derive(Clone, Copy, Debug, PartialEq, Eq, Structural)]
pub enum LoadingState {
    /// Nothing is loaded; the next use loads on demand.
    Unloaded,
    /// A load is under way.
    Loading,
    /// The tables hold the data of the last successful load.
    Loaded,
}

/// What a caller that has asked for the tables must do next.
#[derive(Clone, Copy, Debug, PartialEq, Eq, Structural)]
pub enum Readiness {
    /// The tables are loaded: go on.
    Ready,
    /// Someone else is loading: give up and try again later.
    Busy,
    /// The caller has been made the loader: it must run the load and report
    /// how it ended.
    MustLoad,
}

/// The state after a caller has asked for loaded tables.
pub open spec fn ensure_next(state: LoadingState) -> LoadingState {
    match state {
        LoadingState::Unloaded => LoadingState::Loading,
        LoadingState::Loading => LoadingState::Loading,
        LoadingState::Loaded => LoadingState::Loaded,
    }
}

/// The answer to a caller that has asked for loaded tables.
pub open spec fn ensure_answer(state: LoadingState) -> Readiness {
    match state {
        LoadingState::Unloaded => Readiness::MustLoad,
        LoadingState::Loading => Readiness::Busy,
        LoadingState::Loaded => Readiness::Ready,
    }
}

/// The answer to an explicit request to load: granted unless a load is
/// already under way.
pub open spec fn force_answer(state: LoadingState) -> Readiness {
    match state {
        LoadingState::Loading => Readiness::Busy,
        _ => Readiness::MustLoad,
    }
}

/// The state in which a load leaves the service.
pub open spec fn finish_next(succeeded: bool) -> LoadingState {
    if succeeded {
        LoadingState::Loaded
    } else {
        LoadingState::Unloaded
    }
}

impl LoadingState {
    /// Asks for loaded tables. From `Unloaded` the caller becomes the loader
    /// and the state becomes `Loading`; otherwise the state stays as it is.
    pub fn ensure_loaded(&mut self) -> (r: Readiness)
        ensures
            r == ensure_answer(*old(self)),
            *final(self) == ensure_next(*old(self)),
    {
        match *self {
            LoadingState::Loaded => Readiness::Ready,
            LoadingState::Loading => Readiness::Busy,
            LoadingState::Unloaded => {
                *self = LoadingState::Loading;
                Readiness::MustLoad
            },
        }
    }

    /// Asks to load whatever is loaded now. Unless a load is under way, the
    /// caller becomes the loader and the state becomes `Loading`.
    pub fn force_load(&mut self) -> (r: Readiness)
        ensures
            r == force_answer(*old(self)),
            *final(self) == LoadingState::Loading,
    {
        match *self {
            LoadingState::Loading => Readiness::Busy,
            _ => {
                *self = LoadingState::Loading;
                Readiness::MustLoad
            },
        }
    }

    /// Records how a load ended: `Loaded` on success, `Unloaded` on failure,
    /// whatever the state was.
    pub fn finish_load(&mut self, succeeded: bool)
        ensures
            *final(self) == finish_next(succeeded),
    {
        *self = if succeeded {
            LoadingState::Loaded
        } else {
            LoadingState::Unloaded
        };
    }

    /// Records an unload: `Unloaded`, whatever the state was.
    pub fn unload(&mut self)
        ensures
            *final(self) == LoadingState::Unloaded,
    {
        *self = LoadingState::Unloaded;
    }
}

/// The state after `n` callers in a row have asked for loaded tables.
pub open spec fn ensure_state_after(state: LoadingState, n: nat) -> LoadingState
    decreases n,
{
    if n == 0 {
        state
    } else {
        ensure_next(ensure_state_after(state, (n - 1) as nat))
    }
}

/// The answer that the caller with index `k`, counted from zero, gets when
/// callers ask for loaded tables one after another.
pub open spec fn ensure_answer_at(state: LoadingState, k: nat) -> Readiness {
    ensure_answer(ensure_state_after(state, k))
}

/// Of any number of callers that ask for loaded tables while nothing is
/// loaded, the first becomes the loader and every other one is told that
/// the service is busy, for as long as the load has not ended.
pub proof fn lemma_exactly_one_loader(k: nat)
    ensures
        ensure_answer_at(LoadingState::Unloaded, 0) == Readiness::MustLoad,
        k > 0 ==> ensure_answer_at(LoadingState::Unloaded, k) == Readiness::Busy,
        k > 0 ==> ensure_state_after(LoadingState::Unloaded, k) == LoadingState::Loading,
    decreases k,
{
    if k > 1 {
        lemma_exactly_one_loader((k - 1) as nat);
    } else if k == 1 {
        assert(ensure_state_after(LoadingState::Unloaded, 0) == LoadingState::Unloaded);
    }
}

/// Once a load has succeeded, every caller that asks for loaded tables is
/// let through at once, and the state stays `Loaded`.
pub proof fn lemma_loaded_is_stable(k: nat)
    ensures
        ensure_state_after(finish_next(true), k) == LoadingState::Loaded,
        ensure_answer_at(finish_next(true), k) == Readiness::Ready,
    decreases k,
{
    if k > 0 {
        lemma_loaded_is_stable((k - 1) as nat);
    }
}

/// After a failed load the next caller becomes the loader again.
pub proof fn lemma_failed_load_is_retried()
    ensures
        ensure_answer(finish_next(false)) == Readiness::MustLoad,
        ensure_next(finish_next(false)) == LoadingState::Loading,
{
}

} // verus!
