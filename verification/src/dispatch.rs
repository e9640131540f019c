//! Dispatch loop: the single consumer that runs handlers on the owner
//! thread. The loop has exactly two states -- idle, and executing one
//! handler to completion -- and it issues a handler invocation only from the
//! idle state, which is what makes the owner context safe to touch inside
//! handlers without further synchronization. An unknown method name, or a
//! failing handler, becomes an error response delivered through the normal
//! correlation path; neither ends the loop.

use crate::api::{spec_lookup, ApiManager};
use crate::protocol::{
    ApiRequest, ApiResponse, ApiResult, HandlerOutcome, SpecOutcome, SpecRequest, SpecResponse,
    SpecResult,
};
use vstd::assert_by_contradiction;
use vstd::prelude::*;

verus! {

/// The two states of the dispatch loop.
#[derive(Debug, Clone, PartialEq, Eq)]
pub enum DispatchState {
    /// Waiting for the next queued request or owner-thread event.
    Idle,
    /// Running the handler of the request registered under `key`.
    Executing { key: u64 },
}

/// What the loop wakes up on: a queued request arrived, or the handler it
/// was running came back.
#[derive(Debug, Clone, PartialEq, Eq)]
pub enum DispatchEvent {
    Arrived(ApiRequest),
    Finished(HandlerOutcome),
}

/// What the loop asks its surroundings to do next.
#[derive(Debug, Clone, PartialEq, Eq)]
pub enum DispatchAction {
    /// Run this handler, on the owner thread, with the request's arguments.
    RunHandler { handler: u64, request: ApiRequest },
    /// Fulfil the correlation registry's slot for `response.key` with this.
    Respond(ApiResponse),
    /// Nothing to do.
    Ignore,
}

/// Mathematical model of a dispatch event.
pub enum SpecDispatchEvent {
    Arrived(SpecRequest),
    Finished(SpecOutcome),
}

/// Mathematical model of a dispatch action.
pub enum SpecDispatchAction {
    RunHandler { handler: u64, request: SpecRequest },
    Respond(SpecResponse),
    Ignore,
}

impl View for DispatchEvent {
    type V = SpecDispatchEvent;

    open spec fn view(&self) -> SpecDispatchEvent {
        match self {
            DispatchEvent::Arrived(q) => SpecDispatchEvent::Arrived(q@),
            DispatchEvent::Finished(o) => SpecDispatchEvent::Finished(o@),
        }
    }
}

impl View for DispatchAction {
    type V = SpecDispatchAction;

    open spec fn view(&self) -> SpecDispatchAction {
        match self {
            DispatchAction::RunHandler { handler, request } => SpecDispatchAction::RunHandler {
                handler: *handler,
                request: request@,
            },
            DispatchAction::Respond(resp) => SpecDispatchAction::Respond(resp@),
            DispatchAction::Ignore => SpecDispatchAction::Ignore,
        }
    }
}

/// The response a handler outcome becomes, addressed by the request's key.
pub open spec fn spec_complete(key: u64, outcome: SpecOutcome) -> SpecResponse {
    match outcome {
        SpecOutcome::Success(v) => SpecResponse { key, result: SpecResult::Success(v) },
        SpecOutcome::Failure(e) => SpecResponse { key, result: SpecResult::Error(e) },
    }
}

/// The error response synthesized for a method no handler is registered for.
pub open spec fn spec_unknown_method(key: u64) -> SpecResponse {
    SpecResponse { key, result: SpecResult::Error("unknown method"@) }
}

/// One step of the dispatch loop.
pub open spec fn spec_dispatch_step(
    am: Seq<(Seq<char>, u64)>,
    st: DispatchState,
    ev: SpecDispatchEvent,
) -> (DispatchState, SpecDispatchAction) {
    match (st, ev) {
        (DispatchState::Idle, SpecDispatchEvent::Arrived(q)) => match spec_lookup(am, q.method) {
            Some(h) => (
                DispatchState::Executing { key: q.key },
                SpecDispatchAction::RunHandler { handler: h, request: q },
            ),
            None => (
                DispatchState::Idle,
                SpecDispatchAction::Respond(spec_unknown_method(q.key)),
            ),
        },
        (DispatchState::Executing { key }, SpecDispatchEvent::Finished(outcome)) => (
            DispatchState::Idle,
            SpecDispatchAction::Respond(spec_complete(key, outcome)),
        ),
        (DispatchState::Executing { key }, SpecDispatchEvent::Arrived(_)) => (
            DispatchState::Executing { key },
            SpecDispatchAction::Ignore,
        ),
        (DispatchState::Idle, SpecDispatchEvent::Finished(_)) => (
            DispatchState::Idle,
            SpecDispatchAction::Ignore,
        ),
    }
}

/// Builds the response for a completed handler invocation: the outcome's
/// value or failure, addressed by the key of the request that started it.
pub fn complete_request(key: u64, outcome: HandlerOutcome) -> (r: ApiResponse)
    ensures
        r@ == spec_complete(key, outcome@),
        r.key == key,
{
    match outcome {
        HandlerOutcome::Success(v) => ApiResponse { key, result: ApiResult::Success(v) },
        HandlerOutcome::Failure(e) => ApiResponse { key, result: ApiResult::Error(e) },
    }
}

/// The error response for an unregistered method name, addressed by the
/// offending request's own key.
pub fn unknown_method_response(key: u64) -> (r: ApiResponse)
    ensures
        r@ == spec_unknown_method(key),
        r.key == key,
{
    ApiResponse { key, result: ApiResult::Error("unknown method".to_owned()) }
}

/// One step of the dispatch loop. A handler completion can only arrive while
/// a handler is running, since the loop itself started it and ran it to
/// completion on this same thread.
pub fn dispatch_step(am: &ApiManager, st: DispatchState, ev: DispatchEvent) -> (r: (
    DispatchState,
    DispatchAction,
))
    requires
        ev is Finished ==> st is Executing,
    ensures
        r.0 == spec_dispatch_step(am@, st, ev@).0,
        r.1@ == spec_dispatch_step(am@, st, ev@).1,
{
    match (st, ev) {
        (DispatchState::Idle, DispatchEvent::Arrived(q)) => match am.lookup(&q.method) {
            Some(h) => (
                DispatchState::Executing { key: q.key },
                DispatchAction::RunHandler { handler: h, request: q },
            ),
            None => {
                let resp = unknown_method_response(q.key);
                (DispatchState::Idle, DispatchAction::Respond(resp))
            },
        },
        (DispatchState::Executing { key }, DispatchEvent::Finished(outcome)) => {
            let resp = complete_request(key, outcome);
            (DispatchState::Idle, DispatchAction::Respond(resp))
        },
        (DispatchState::Executing { key }, DispatchEvent::Arrived(_)) => (
            DispatchState::Executing { key },
            DispatchAction::Ignore,
        ),
        (DispatchState::Idle, DispatchEvent::Finished(_)) => (
            DispatchState::Idle,
            DispatchAction::Ignore,
        ),
    }
}

/// Law: handler execution never overlaps. An invocation is issued only from
/// the idle state and puts the loop into the executing state; while a
/// handler is executing, no step issues another invocation; and the loop
/// leaves the executing state only when that handler has finished.
pub proof fn lemma_handlers_never_overlap(
    am: Seq<(Seq<char>, u64)>,
    st: DispatchState,
    ev: SpecDispatchEvent,
)
    ensures
        (spec_dispatch_step(am, st, ev).1 matches SpecDispatchAction::RunHandler { .. }) ==> st
            is Idle && spec_dispatch_step(am, st, ev).0 is Executing,
        st is Executing ==> !(spec_dispatch_step(am, st, ev).1 matches
            SpecDispatchAction::RunHandler { .. }),
        st is Executing && spec_dispatch_step(am, st, ev).0 is Idle ==> ev is Finished,
{
}

/// The loop's state after the first `i` events.
pub open spec fn dispatch_trace_state(
    am: Seq<(Seq<char>, u64)>,
    st: DispatchState,
    evs: Seq<SpecDispatchEvent>,
    i: int,
) -> DispatchState
    recommends
        0 <= i <= evs.len(),
    decreases i,
{
    if i <= 0 {
        st
    } else {
        spec_dispatch_step(am, dispatch_trace_state(am, st, evs, i - 1), evs[i - 1]).0
    }
}

/// While no handler completion arrives, the loop stays in the executing
/// state: nothing but the running handler's own completion releases it.
proof fn lemma_executing_persists(
    am: Seq<(Seq<char>, u64)>,
    st: DispatchState,
    evs: Seq<SpecDispatchEvent>,
    k: int,
    j: int,
)
    requires
        0 <= k <= j <= evs.len(),
        dispatch_trace_state(am, st, evs, k) is Executing,
        forall|t: int| k <= t < j ==> !(#[trigger] evs[t] is Finished),
    ensures
        dispatch_trace_state(am, st, evs, j) is Executing,
    decreases j - k,
{
    if j > k {
        lemma_executing_persists(am, st, evs, k, j - 1);
        assert(dispatch_trace_state(am, st, evs, j) == spec_dispatch_step(
            am,
            dispatch_trace_state(am, st, evs, j - 1),
            evs[j - 1],
        ).0);
        assert(!(evs[j - 1] is Finished));
    }
}

/// Law (trace form): handler execution never overlaps, under any number of
/// connections issuing requests continuously. In any run of the loop, two
/// steps that each issue a handler invocation always have a handler
/// completion strictly between them: the first handler has finished before
/// the second is started.
pub proof fn lemma_invocations_separated_by_completion(
    am: Seq<(Seq<char>, u64)>,
    st: DispatchState,
    evs: Seq<SpecDispatchEvent>,
    i: int,
    j: int,
)
    requires
        0 <= i < j < evs.len(),
        spec_dispatch_step(am, dispatch_trace_state(am, st, evs, i), evs[i]).1 matches
            SpecDispatchAction::RunHandler { .. },
        spec_dispatch_step(am, dispatch_trace_state(am, st, evs, j), evs[j]).1 matches
            SpecDispatchAction::RunHandler { .. },
    ensures
        exists|t: int| i < t < j && (#[trigger] evs[t]) is Finished,
{
    assert_by_contradiction!(exists|t: int| i < t < j && (#[trigger] evs[t]) is Finished, {
        assert(forall|t: int| i + 1 <= t < j ==> !(#[trigger] evs[t] is Finished));
        assert(dispatch_trace_state(am, st, evs, i + 1) == spec_dispatch_step(
            am,
            dispatch_trace_state(am, st, evs, i),
            evs[i],
        ).0);
        assert(dispatch_trace_state(am, st, evs, i + 1) is Executing);
        lemma_executing_persists(am, st, evs, i + 1, j);
        assert(dispatch_trace_state(am, st, evs, j) is Idle);
    });
}

/// Law: a request with an unknown method name yields an error response that
/// carries the request's own correlation key; the loop stays idle and alive.
pub proof fn lemma_unknown_method_answered(am: Seq<(Seq<char>, u64)>, q: SpecRequest)
    requires
        spec_lookup(am, q.method) is None,
    ensures
        spec_dispatch_step(am, DispatchState::Idle, SpecDispatchEvent::Arrived(q)).0
            == DispatchState::Idle,
        spec_dispatch_step(am, DispatchState::Idle, SpecDispatchEvent::Arrived(q)).1 matches
            SpecDispatchAction::Respond(resp) && resp.key == q.key && resp.result
            == SpecResult::Error("unknown method"@),
{
}

} // verus!
