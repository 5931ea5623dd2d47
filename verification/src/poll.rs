//! The poll-loop state machine.
//!
//! Each cycle runs resolve, search, extract, report in order and returns
//! to idle for the inter-cycle delay. The machine decides every
//! transition; the foreign calls and the delays themselves are performed
//! by the driver, which feeds their outcomes back as events. A failure to
//! resolve the focused element is common and recoverable, as is a search
//! that matches nothing: both end the cycle quietly. A genuine provider
//! failure during search or extraction is fatal: the provider itself is
//! broken and further polling cannot recover, so the loop aborts.

use vstd::prelude::*;
use crate::ProviderError;

verus! {

/// Where the loop stands within one poll cycle.
#[derive(Clone, Copy, PartialEq, Eq, Structural, Debug)]
pub enum PollPhase {
    /// Waiting out the inter-cycle delay.
    Idle,
    /// A focused-element lookup is outstanding.
    Resolving,
    /// A subtree search over the focused element is outstanding.
    Searching,
    /// Selection and caret extraction on the matched element is
    /// outstanding.
    Extracting,
    /// A report of the extracted text is being emitted.
    Reporting,
    /// The loop has aborted on a genuine provider failure.
    Failed(ProviderError),
}

/// What the driver observed since the last step.
#[derive(Clone, Copy, PartialEq, Eq, Structural, Debug)]
pub enum PollEvent {
    /// The delay before the next cycle has elapsed.
    TimerElapsed,
    /// The provider returned a focused element.
    ResolveSucceeded,
    /// The provider could not resolve a focused element; common when no
    /// element holds focus at this instant.
    ResolveFailed(ProviderError),
    /// The subtree search returned a matching element.
    SearchMatched,
    /// The subtree search succeeded and nothing matched.
    SearchNoMatch,
    /// The subtree search failed with a genuine error status.
    SearchFailed(ProviderError),
    /// Selection and caret extraction completed.
    ExtractSucceeded,
    /// A provider call during extraction failed.
    ExtractFailed(ProviderError),
    /// The report has been written out.
    ReportEmitted,
}

/// What the driver must do next.
#[derive(Clone, Copy, PartialEq, Eq, Structural, Debug)]
pub enum PollAction {
    /// Ask the provider for the element holding keyboard focus.
    StartResolve,
    /// Search the resolved element's subtree with the configured
    /// condition.
    StartSearch,
    /// Extract selection and caret text from the matched element.
    StartExtract,
    /// Emit the report lines.
    EmitReport,
    /// Sleep for the inter-cycle delay, then raise `TimerElapsed`.
    Delay,
    /// Stop polling and surface the error.
    Abort(ProviderError),
}

/// Which events can arrive in which phase: the driver raises exactly the
/// outcomes of the action the machine last asked for, and a failed loop
/// takes no further events.
pub open spec fn event_fits(phase: PollPhase, event: PollEvent) -> bool {
    match phase {
        PollPhase::Idle => event is TimerElapsed,
        PollPhase::Resolving => event is ResolveSucceeded || event is ResolveFailed,
        PollPhase::Searching => event is SearchMatched || event is SearchNoMatch
            || event is SearchFailed,
        PollPhase::Extracting => event is ExtractSucceeded || event is ExtractFailed,
        PollPhase::Reporting => event is ReportEmitted,
        PollPhase::Failed(_) => false,
    }
}

/// The transition relation of the loop, as a function of phase and event.
pub open spec fn transition(phase: PollPhase, event: PollEvent) -> (PollPhase, PollAction) {
    match (phase, event) {
        (PollPhase::Idle, PollEvent::TimerElapsed) => (
            PollPhase::Resolving,
            PollAction::StartResolve,
        ),
        (PollPhase::Resolving, PollEvent::ResolveSucceeded) => (
            PollPhase::Searching,
            PollAction::StartSearch,
        ),
        (PollPhase::Resolving, PollEvent::ResolveFailed(_)) => (PollPhase::Idle, PollAction::Delay),
        (PollPhase::Searching, PollEvent::SearchMatched) => (
            PollPhase::Extracting,
            PollAction::StartExtract,
        ),
        (PollPhase::Searching, PollEvent::SearchNoMatch) => (PollPhase::Idle, PollAction::Delay),
        (PollPhase::Searching, PollEvent::SearchFailed(e)) => (
            PollPhase::Failed(e),
            PollAction::Abort(e),
        ),
        (PollPhase::Extracting, PollEvent::ExtractSucceeded) => (
            PollPhase::Reporting,
            PollAction::EmitReport,
        ),
        (PollPhase::Extracting, PollEvent::ExtractFailed(e)) => (
            PollPhase::Failed(e),
            PollAction::Abort(e),
        ),
        (PollPhase::Reporting, PollEvent::ReportEmitted) => (PollPhase::Idle, PollAction::Delay),
        _ => (phase, PollAction::Delay),
    }
}

/// The phase the loop starts in, before the initial startup delay.
pub fn initial_phase() -> (p: PollPhase)
    ensures
        p == PollPhase::Idle,
{
    PollPhase::Idle
}

/// Advances the loop by one event, returning the next phase and the
/// action the driver must perform.
pub fn step(phase: PollPhase, event: PollEvent) -> (r: (PollPhase, PollAction))
    requires
        event_fits(phase, event),
    ensures
        r == transition(phase, event),
{
    match (phase, event) {
        (PollPhase::Idle, PollEvent::TimerElapsed) => (
            PollPhase::Resolving,
            PollAction::StartResolve,
        ),
        (PollPhase::Resolving, PollEvent::ResolveSucceeded) => (
            PollPhase::Searching,
            PollAction::StartSearch,
        ),
        (PollPhase::Resolving, PollEvent::ResolveFailed(_)) => (PollPhase::Idle, PollAction::Delay),
        (PollPhase::Searching, PollEvent::SearchMatched) => (
            PollPhase::Extracting,
            PollAction::StartExtract,
        ),
        (PollPhase::Searching, PollEvent::SearchNoMatch) => (PollPhase::Idle, PollAction::Delay),
        (PollPhase::Searching, PollEvent::SearchFailed(e)) => (
            PollPhase::Failed(e),
            PollAction::Abort(e),
        ),
        (PollPhase::Extracting, PollEvent::ExtractSucceeded) => (
            PollPhase::Reporting,
            PollAction::EmitReport,
        ),
        (PollPhase::Extracting, PollEvent::ExtractFailed(e)) => (
            PollPhase::Failed(e),
            PollAction::Abort(e),
        ),
        (PollPhase::Reporting, PollEvent::ReportEmitted) => (PollPhase::Idle, PollAction::Delay),
        _ => (phase, PollAction::Delay),
    }
}

/// The loop becomes fatal exactly on a genuine failure during search or
/// extraction; a resolve failure or an empty search always returns it to
/// idle, so neither can terminate the loop.
pub proof fn lemma_fatal_exactly_on_search_or_extract_failure(phase: PollPhase, event: PollEvent)
    requires
        event_fits(phase, event),
    ensures
        transition(phase, event).0 is Failed <==> (event is SearchFailed
            || event is ExtractFailed),
{
}

/// A resolve failure is handled exactly like any quiet end of cycle: the
/// loop returns to idle and waits, whatever the error was.
pub proof fn lemma_resolve_failure_recoverable(e: ProviderError)
    ensures
        transition(PollPhase::Resolving, PollEvent::ResolveFailed(e)) == (
            PollPhase::Idle,
            PollAction::Delay,
        ),
        transition(PollPhase::Resolving, PollEvent::ResolveFailed(e)) == transition(
            PollPhase::Searching,
            PollEvent::SearchNoMatch,
        ),
{
}

/// A fatal step surfaces the very error the provider reported: the abort
/// action and the failed phase carry it unchanged.
pub proof fn lemma_abort_carries_error(phase: PollPhase, event: PollEvent, e: ProviderError)
    requires
        event_fits(phase, event),
        event == PollEvent::SearchFailed(e) || event == PollEvent::ExtractFailed(e),
    ensures
        transition(phase, event) == (PollPhase::Failed(e), PollAction::Abort(e)),
{
}

} // verus!
