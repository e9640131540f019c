use pyframe::api::{register_api_instances, ApiManager};
use pyframe::connection::{
    conn_on_frame, conn_on_slot, ConnPhase, FrameOutcome, FrameStep, RespStep, SlotOutcome,
};
use pyframe::dispatch::{dispatch_step, DispatchAction, DispatchEvent, DispatchState};
use pyframe::protocol::{ApiRequest, ApiResponse, ApiResult, HandlerOutcome};
use pyframe::registry::CorrelationRegistry;

fn request(key: u64, method: &str, arguments: &str) -> ApiRequest {
    ApiRequest { key, method: method.to_owned(), arguments: arguments.to_owned() }
}

/// Runs one request through the dispatch loop as the owner thread would,
/// handing every success back as the given value.
fn dispatch_one(am: &ApiManager, q: ApiRequest, success: &str) -> ApiResponse {
    let (st, action) = dispatch_step(am, DispatchState::Idle, DispatchEvent::Arrived(q));
    match action {
        DispatchAction::RunHandler { .. } => {
            let done = DispatchEvent::Finished(HandlerOutcome::Success(success.to_owned()));
            match dispatch_step(am, st, done).1 {
                DispatchAction::Respond(resp) => resp,
                _ => panic!("a finished handler must produce a response"),
            }
        }
        DispatchAction::Respond(resp) => resp,
        DispatchAction::Ignore => panic!("an idle loop must act on a request"),
    }
}

#[test]
fn well_formed_frame_is_registered_and_enqueued() {
    let mut reg: CorrelationRegistry<&'static str> = CorrelationRegistry::new();
    let q = request(1, "set_title", r#"{"title":"Hello"}"#);
    let (phase, step) =
        conn_on_frame(&mut reg, ConnPhase::Ready, FrameOutcome::Parsed(q.clone()), "slot");
    assert_eq!(phase, ConnPhase::Awaiting { key: 1 });
    assert_eq!(step, FrameStep::Enqueue(q));
    assert!(reg.contains(1));
}

#[test]
fn malformed_payload_keeps_the_connection_alive() {
    // A malformed frame is skipped without registering anything, and a
    // well-formed request that follows it on the same connection still gets
    // its correct response.
    let mut am = ApiManager::new();
    register_api_instances(&mut am);
    let mut reg: CorrelationRegistry<u32> = CorrelationRegistry::new();

    let (phase, step) = conn_on_frame(&mut reg, ConnPhase::Ready, FrameOutcome::Malformed, 0);
    assert_eq!(phase, ConnPhase::Ready);
    assert_eq!(step, FrameStep::Skip);
    assert!(!reg.contains(0));

    let q = request(2, "set_title", r#"{"title":"after the bad frame"}"#);
    let (phase, step) = conn_on_frame(&mut reg, phase, FrameOutcome::Parsed(q), 22);
    assert_eq!(phase, ConnPhase::Awaiting { key: 2 });
    let q = match step {
        FrameStep::Enqueue(q) => q,
        FrameStep::Skip => panic!("the request after a malformed frame must be enqueued"),
    };
    let resp = dispatch_one(&am, q, "true");
    assert_eq!(resp.key, 2);
    assert_eq!(reg.fulfill(resp.key), Some(22));
    assert_eq!(resp.result, ApiResult::Success("true".to_owned()));
}

#[test]
fn fulfilled_slot_writes_response_and_reopens_the_connection() {
    let resp = ApiResponse { key: 3, result: ApiResult::Success("true".to_owned()) };
    let (phase, step) =
        conn_on_slot(ConnPhase::Awaiting { key: 3 }, SlotOutcome::Fulfilled(resp.clone()));
    assert_eq!(phase, ConnPhase::Ready);
    assert_eq!(step, RespStep::Write(resp));
}

#[test]
fn dropped_slot_closes_the_connection() {
    let (phase, step) = conn_on_slot(ConnPhase::Awaiting { key: 3 }, SlotOutcome::Dropped);
    assert_eq!(phase, ConnPhase::Closed);
    assert_eq!(step, RespStep::Abort);
}

#[test]
fn correlation_collision_is_skipped() {
    let mut reg: CorrelationRegistry<u32> = CorrelationRegistry::new();
    let first = request(5, "set_title", r#"{"title":"one"}"#);
    let (_, _) = conn_on_frame(&mut reg, ConnPhase::Ready, FrameOutcome::Parsed(first), 50);
    let second = request(5, "set_title", r#"{"title":"two"}"#);
    let (phase, step) =
        conn_on_frame(&mut reg, ConnPhase::Ready, FrameOutcome::Parsed(second), 51);
    assert_eq!(phase, ConnPhase::Ready);
    assert_eq!(step, FrameStep::Skip);
    // The first registration still awaits its response.
    assert_eq!(reg.fulfill(5), Some(50));
}

#[test]
fn two_connections_get_their_own_responses() {
    // Two connections send one request each with distinct keys; both receive
    // exactly one response, each addressed to its own slot, whatever order
    // the dispatch loop serves them in.
    let mut am = ApiManager::new();
    register_api_instances(&mut am);
    let mut reg: CorrelationRegistry<&'static str> = CorrelationRegistry::new();

    let qa = request(1, "set_title", r#"{"title":"from connection a"}"#);
    let qb = request(2, "set_title", r#"{"title":"from connection b"}"#);
    let (phase_a, step_a) =
        conn_on_frame(&mut reg, ConnPhase::Ready, FrameOutcome::Parsed(qa), "conn a");
    let (phase_b, step_b) =
        conn_on_frame(&mut reg, ConnPhase::Ready, FrameOutcome::Parsed(qb), "conn b");
    assert_eq!(phase_a, ConnPhase::Awaiting { key: 1 });
    assert_eq!(phase_b, ConnPhase::Awaiting { key: 2 });

    let (qa, qb) = match (step_a, step_b) {
        (FrameStep::Enqueue(qa), FrameStep::Enqueue(qb)) => (qa, qb),
        _ => panic!("both requests must be enqueued"),
    };

    // The loop happens to serve connection b first.
    let resp_b = dispatch_one(&am, qb, "true");
    let resp_a = dispatch_one(&am, qa, "true");
    assert_eq!(resp_b.key, 2);
    assert_eq!(resp_a.key, 1);
    assert_eq!(reg.fulfill(resp_b.key), Some("conn b"));
    assert_eq!(reg.fulfill(resp_a.key), Some("conn a"));
    // Exactly one response each: the keys are now retired.
    assert_eq!(reg.fulfill(1), None);
    assert_eq!(reg.fulfill(2), None);
}
