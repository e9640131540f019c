//! Connection handler: the per-connection request loop, as a state machine
//! the network task drives. Frames on one connection are strictly
//! sequential: a frame is accepted only while the connection is ready, and
//! after a request is enqueued the connection awaits that request's slot and
//! writes the fulfilled response before it reads anything further. A frame
//! whose payload does not decode to a request is skipped -- it registers
//! nothing and the connection lives on.

use crate::dispatch::{
    spec_dispatch_step, DispatchState, SpecDispatchAction, SpecDispatchEvent,
};
use crate::protocol::{ApiRequest, ApiResponse, SpecOutcome, SpecRequest, SpecResponse};
use crate::registry::CorrelationRegistry;
use vstd::prelude::*;

verus! {

/// What decoding a frame's payload came to: a request, or malformed
/// structured text.
#[derive(Debug, Clone, PartialEq, Eq)]
pub enum FrameOutcome {
    Parsed(ApiRequest),
    Malformed,
}

/// Mathematical model of a frame outcome.
pub enum SpecFrameOutcome {
    Parsed(SpecRequest),
    Malformed,
}

impl View for FrameOutcome {
    type V = SpecFrameOutcome;

    open spec fn view(&self) -> SpecFrameOutcome {
        match self {
            FrameOutcome::Parsed(q) => SpecFrameOutcome::Parsed(q@),
            FrameOutcome::Malformed => SpecFrameOutcome::Malformed,
        }
    }
}

/// Where one connection stands.
#[derive(Debug, Clone, PartialEq, Eq)]
pub enum ConnPhase {
    /// Between frames: the connection may read its next frame.
    Ready,
    /// A request is in flight; the connection awaits the slot registered
    /// under `key` and reads nothing meanwhile.
    Awaiting { key: u64 },
    /// The connection is done; no response is owed.
    Closed,
}

/// What the connection does with one frame.
#[derive(Debug, Clone, PartialEq, Eq)]
pub enum FrameStep {
    /// Push this request onto the dispatch loop's queue, then await the slot.
    Enqueue(ApiRequest),
    /// Discard the frame and read the next one.
    Skip,
}

/// Mathematical model of a frame step.
pub enum SpecFrameStep {
    Enqueue(SpecRequest),
    Skip,
}

impl View for FrameStep {
    type V = SpecFrameStep;

    open spec fn view(&self) -> SpecFrameStep {
        match self {
            FrameStep::Enqueue(q) => SpecFrameStep::Enqueue(q@),
            FrameStep::Skip => SpecFrameStep::Skip,
        }
    }
}

/// How the wait for a pending slot ended: fulfilled with the response, or
/// dropped unfulfilled (the dispatch side shut down).
#[derive(Debug, Clone, PartialEq, Eq)]
pub enum SlotOutcome {
    Fulfilled(ApiResponse),
    Dropped,
}

/// Mathematical model of a slot outcome.
pub enum SpecSlotOutcome {
    Fulfilled(SpecResponse),
    Dropped,
}

impl View for SlotOutcome {
    type V = SpecSlotOutcome;

    open spec fn view(&self) -> SpecSlotOutcome {
        match self {
            SlotOutcome::Fulfilled(resp) => SpecSlotOutcome::Fulfilled(resp@),
            SlotOutcome::Dropped => SpecSlotOutcome::Dropped,
        }
    }
}

/// What the connection does once its wait ends.
#[derive(Debug, Clone, PartialEq, Eq)]
pub enum RespStep {
    /// Frame this response's payload and write it to the connection.
    Write(ApiResponse),
    /// Stop the loop; the slot was dropped without a response.
    Abort,
}

/// Mathematical model of a response step.
pub enum SpecRespStep {
    Write(SpecResponse),
    Abort,
}

impl View for RespStep {
    type V = SpecRespStep;

    open spec fn view(&self) -> SpecRespStep {
        match self {
            RespStep::Write(resp) => SpecRespStep::Write(resp@),
            RespStep::Abort => SpecRespStep::Abort,
        }
    }
}

/// One frame's effect on a ready connection: the phase it moves to, what is
/// done with the frame, and the registry afterwards.
pub open spec fn spec_conn_on_frame<S>(
    pending: Map<u64, S>,
    outcome: SpecFrameOutcome,
    slot: S,
) -> (ConnPhase, SpecFrameStep, Map<u64, S>) {
    match outcome {
        SpecFrameOutcome::Malformed => (ConnPhase::Ready, SpecFrameStep::Skip, pending),
        SpecFrameOutcome::Parsed(q) => {
            if pending.contains_key(q.key) {
                (ConnPhase::Ready, SpecFrameStep::Skip, pending)
            } else {
                (
                    ConnPhase::Awaiting { key: q.key },
                    SpecFrameStep::Enqueue(q),
                    pending.insert(q.key, slot),
                )
            }
        },
    }
}

/// The end of a wait: a fulfilled slot's response is written and the
/// connection is ready again; a dropped slot closes the connection.
pub open spec fn spec_conn_on_slot(outcome: SpecSlotOutcome) -> (ConnPhase, SpecRespStep) {
    match outcome {
        SpecSlotOutcome::Fulfilled(resp) => (ConnPhase::Ready, SpecRespStep::Write(resp)),
        SpecSlotOutcome::Dropped => (ConnPhase::Closed, SpecRespStep::Abort),
    }
}

/// Takes one decoded frame on a ready connection. A request registers its
/// slot and goes to the dispatch queue, and the connection awaits that key;
/// a malformed payload, or a correlation collision, is skipped with the
/// registry untouched, and the connection stays ready for its next frame.
pub fn conn_on_frame<S>(
    reg: &mut CorrelationRegistry<S>,
    phase: ConnPhase,
    outcome: FrameOutcome,
    slot: S,
) -> (r: (ConnPhase, FrameStep))
    requires
        phase is Ready,
    ensures
        ({
            let (ph, step, m) = spec_conn_on_frame(old(reg)@, outcome@, slot);
            &&& r.0 == ph
            &&& r.1@ == step
            &&& final(reg)@ == m
        }),
{
    match outcome {
        FrameOutcome::Malformed => (ConnPhase::Ready, FrameStep::Skip),
        FrameOutcome::Parsed(q) => {
            let key = q.key;
            match reg.register(key, slot) {
                Ok(()) => (ConnPhase::Awaiting { key }, FrameStep::Enqueue(q)),
                Err(_) => (ConnPhase::Ready, FrameStep::Skip),
            }
        },
    }
}

/// Takes the end of a wait on an awaiting connection.
pub fn conn_on_slot(phase: ConnPhase, outcome: SlotOutcome) -> (r: (ConnPhase, RespStep))
    requires
        phase is Awaiting,
    ensures
        r.0 == spec_conn_on_slot(outcome@).0,
        r.1@ == spec_conn_on_slot(outcome@).1,
{
    match outcome {
        SlotOutcome::Fulfilled(resp) => (ConnPhase::Ready, RespStep::Write(resp)),
        SlotOutcome::Dropped => (ConnPhase::Closed, RespStep::Abort),
    }
}

/// One connection event: a frame the connection read, with the parse outcome
/// of its payload and the slot it would register, or the end of a wait on
/// the connection's pending slot.
pub enum SpecConnEvent<S> {
    Frame(SpecFrameOutcome, S),
    Slot(SpecSlotOutcome),
}

/// Which events a phase admits: a connection reads frames only while ready,
/// and takes a slot outcome only while awaiting one.
pub open spec fn conn_event_permitted<S>(phase: ConnPhase, ev: SpecConnEvent<S>) -> bool {
    match ev {
        SpecConnEvent::Frame(_, _) => phase is Ready,
        SpecConnEvent::Slot(_) => phase is Awaiting,
    }
}

/// The connection's phase and the registry after one event.
pub open spec fn conn_next<S>(st: (ConnPhase, Map<u64, S>), ev: SpecConnEvent<S>) -> (
    ConnPhase,
    Map<u64, S>,
) {
    match ev {
        SpecConnEvent::Frame(outcome, slot) => {
            let (ph, _, m) = spec_conn_on_frame(st.1, outcome, slot);
            (ph, m)
        },
        SpecConnEvent::Slot(so) => (spec_conn_on_slot(so).0, st.1),
    }
}

/// The connection's phase and the registry after the first `i` events.
pub open spec fn conn_trace_state<S>(
    st: (ConnPhase, Map<u64, S>),
    evs: Seq<SpecConnEvent<S>>,
    i: int,
) -> (ConnPhase, Map<u64, S>)
    recommends
        0 <= i <= evs.len(),
    decreases i,
{
    if i <= 0 {
        st
    } else {
        conn_next(conn_trace_state(st, evs, i - 1), evs[i - 1])
    }
}

/// A trace the connection can actually take: every event is permitted in the
/// phase it meets.
pub open spec fn conn_trace_valid<S>(
    st: (ConnPhase, Map<u64, S>),
    evs: Seq<SpecConnEvent<S>>,
) -> bool {
    forall|i: int|
        0 <= i < evs.len() ==> conn_event_permitted(
            #[trigger] conn_trace_state(st, evs, i).0,
            evs[i],
        )
}

/// Law: on one connection, no further frame is read until the enqueued
/// request's response has arrived. In any trace the connection can take,
/// once a fresh request is enqueued the connection is awaiting that
/// request's key, the very next event can only be the outcome of that wait,
/// and the connection reads again afterwards only if the wait ended in a
/// fulfilment -- whose response is written before that next read.
pub proof fn lemma_next_frame_only_after_response<S>(
    st: (ConnPhase, Map<u64, S>),
    evs: Seq<SpecConnEvent<S>>,
    i: int,
    q: SpecRequest,
    slot: S,
)
    requires
        conn_trace_valid(st, evs),
        0 <= i < evs.len(),
        evs[i] == SpecConnEvent::Frame(SpecFrameOutcome::Parsed(q), slot),
        !conn_trace_state(st, evs, i).1.contains_key(q.key),
    ensures
        conn_trace_state(st, evs, i + 1).0 == (ConnPhase::Awaiting { key: q.key }),
        i + 1 < evs.len() ==> evs[i + 1] is Slot,
        i + 1 < evs.len() && conn_trace_state(st, evs, i + 2).0 is Ready ==> (evs[i + 1] matches
            SpecConnEvent::Slot(so) && so matches SpecSlotOutcome::Fulfilled(resp)
            && spec_conn_on_slot(so).1 == SpecRespStep::Write(resp)),
{
    assert(conn_trace_state(st, evs, i + 1) == conn_next(conn_trace_state(st, evs, i), evs[i]));
    if i + 1 < evs.len() {
        assert(conn_event_permitted(conn_trace_state(st, evs, i + 1).0, evs[i + 1]));
        assert(conn_trace_state(st, evs, i + 2) == conn_next(
            conn_trace_state(st, evs, i + 1),
            evs[i + 1],
        ));
    }
}

/// Law: a response is delivered to its own connection and to no other. When
/// a ready connection registers a fresh request, the slot stored under the
/// request's key is this connection's; every response the dispatch loop can
/// produce for that request -- from its handler's outcome, or the error for
/// an unknown method -- carries the request's own correlation key, so
/// fulfilling the registry at the response's key yields exactly this
/// connection's slot and leaves the registry as it was before the request.
pub proof fn lemma_response_reaches_own_connection<S>(
    pending: Map<u64, S>,
    am: Seq<(Seq<char>, u64)>,
    q: SpecRequest,
    outcome: SpecOutcome,
    slot: S,
)
    requires
        !pending.contains_key(q.key),
    ensures
        ({
            let (ph, step, m) = spec_conn_on_frame(pending, SpecFrameOutcome::Parsed(q), slot);
            let (st1, a1) = spec_dispatch_step(
                am,
                DispatchState::Idle,
                SpecDispatchEvent::Arrived(q),
            );
            &&& ph == (ConnPhase::Awaiting { key: q.key })
            &&& step == SpecFrameStep::Enqueue(q)
            &&& m.contains_key(q.key) && m[q.key] == slot
            &&& m.remove(q.key) == pending
            &&& a1 matches SpecDispatchAction::Respond(resp) ==> resp.key == q.key && m[resp.key]
                == slot
            &&& a1 matches SpecDispatchAction::RunHandler { .. } ==> ({
                let (st2, a2) = spec_dispatch_step(am, st1, SpecDispatchEvent::Finished(outcome));
                &&& a2 matches SpecDispatchAction::Respond(resp) && resp.key == q.key
                    && m[resp.key] == slot
                &&& st2 is Idle
            })
        }),
{
    let m = pending.insert(q.key, slot);
    assert(m.remove(q.key) =~= pending);
}

/// Law: a malformed payload does not terminate the connection and leaves no
/// trace -- the phase stays ready, the registry is untouched, and any later
/// frame behaves exactly as it would have without the malformed one.
pub proof fn lemma_malformed_frame_harmless<S>(
    pending: Map<u64, S>,
    later: SpecFrameOutcome,
    s1: S,
    s2: S,
)
    ensures
        spec_conn_on_frame(pending, SpecFrameOutcome::Malformed, s1).0 == ConnPhase::Ready,
        spec_conn_on_frame(pending, SpecFrameOutcome::Malformed, s1).2 == pending,
        spec_conn_on_frame(
            spec_conn_on_frame(pending, SpecFrameOutcome::Malformed, s1).2,
            later,
            s2,
        ) == spec_conn_on_frame(pending, later, s2),
{
}

} // verus!
