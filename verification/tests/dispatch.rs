use pyframe::api::{register_api_instances, ApiManager, SET_TITLE_HANDLER};
use pyframe::dispatch::{
    complete_request, dispatch_step, unknown_method_response, DispatchAction, DispatchEvent,
    DispatchState,
};
use pyframe::protocol::{ApiRequest, ApiResponse, ApiResult, HandlerOutcome};

fn request(key: u64, method: &str, arguments: &str) -> ApiRequest {
    ApiRequest { key, method: method.to_owned(), arguments: arguments.to_owned() }
}

#[test]
fn set_title_request_runs_the_handler_and_answers_true() {
    // A client sends {correlationKey:1, method:"set_title",
    // arguments:{title:"Hello"}}; once the handler has applied the title the
    // response is {correlationKey:1, result:true}.
    let mut am = ApiManager::new();
    register_api_instances(&mut am);
    let q = request(1, "set_title", r#"{"title":"Hello"}"#);

    let (st, action) = dispatch_step(&am, DispatchState::Idle, DispatchEvent::Arrived(q));
    assert_eq!(st, DispatchState::Executing { key: 1 });
    match action {
        DispatchAction::RunHandler { handler, request } => {
            assert_eq!(handler, SET_TITLE_HANDLER);
            assert_eq!(request.key, 1);
            assert_eq!(request.method, "set_title");
            assert_eq!(request.arguments, r#"{"title":"Hello"}"#);
        }
        _ => panic!("expected a handler invocation"),
    }

    let done = DispatchEvent::Finished(HandlerOutcome::Success("true".to_owned()));
    let (st2, action2) = dispatch_step(&am, st, done);
    assert_eq!(st2, DispatchState::Idle);
    assert_eq!(
        action2,
        DispatchAction::Respond(ApiResponse {
            key: 1,
            result: ApiResult::Success("true".to_owned()),
        })
    );
}

#[test]
fn unknown_method_yields_error_response_with_original_key() {
    // method:"does_not_exist" must answer with the same correlation key and
    // an "unknown method" error, not drop the connection or the loop.
    let mut am = ApiManager::new();
    register_api_instances(&mut am);
    let q = request(9, "does_not_exist", "null");

    let (st, action) = dispatch_step(&am, DispatchState::Idle, DispatchEvent::Arrived(q));
    assert_eq!(st, DispatchState::Idle);
    assert_eq!(
        action,
        DispatchAction::Respond(ApiResponse {
            key: 9,
            result: ApiResult::Error("unknown method".to_owned()),
        })
    );
}

#[test]
fn failing_handler_becomes_error_response() {
    let resp = complete_request(4, HandlerOutcome::Failure("window not found".to_owned()));
    assert_eq!(
        resp,
        ApiResponse { key: 4, result: ApiResult::Error("window not found".to_owned()) }
    );
}

#[test]
fn response_always_echoes_the_request_key() {
    let resp = complete_request(77, HandlerOutcome::Success("null".to_owned()));
    assert_eq!(resp.key, 77);
    let err = unknown_method_response(78);
    assert_eq!(err.key, 78);
}

#[test]
fn no_invocation_while_a_handler_is_executing() {
    let mut am = ApiManager::new();
    register_api_instances(&mut am);
    let busy = DispatchState::Executing { key: 5 };
    let q = request(6, "set_title", r#"{"title":"late"}"#);
    let (st, action) = dispatch_step(&am, busy.clone(), DispatchEvent::Arrived(q));
    assert_eq!(st, busy);
    assert_eq!(action, DispatchAction::Ignore);
}

#[test]
fn later_registration_of_a_name_wins() {
    let mut am = ApiManager::new();
    am.register_api("set_title".to_owned(), 41);
    am.register_api("set_title".to_owned(), 42);
    assert_eq!(am.lookup(&"set_title".to_owned()), Some(42));
    assert_eq!(am.lookup(&"other".to_owned()), None);
}
