use tutorlol::relay::{
    after_backend_reply, after_invoke, after_local_fetch, begin_relay, failure_message,
    get_by_code_request, is_own_session, realtime_request, relay_result, request_policy,
    BackendReply, BackendRequest, Endpoint, InvokeReply, LocalFetch, Method, Payload,
    RelayAction, RelayResult, RelayStage, RequestPolicy, BACKEND_URL, LOCAL_TELEMETRY_URL,
    REQUEST_TIMEOUT_SECS, SIMULATED_ITEM,
};
use tutorlol::session::{AppState, ServerResponse};

fn session() -> AppState {
    AppState::new(123456, "game-1".to_string())
}

fn envelope(success: bool, data: Option<Payload>, message: Option<&str>) -> BackendReply {
    BackendReply::Envelope(ServerResponse {
        success,
        data,
        message: message.map(|m| m.to_string()),
    })
}

fn relay(state: &AppState, code: usize, local: LocalFetch, backend: BackendReply) -> RelayResult {
    let mut action = begin_relay(state, code);
    if action == RelayAction::FetchLocalTelemetry {
        action = after_local_fetch(state, local);
    }
    match action {
        RelayAction::Finish(result) => result,
        RelayAction::PostBackend(_) => after_backend_reply(backend),
        RelayAction::FetchLocalTelemetry => unreachable!(),
    }
}

#[test]
fn addresses_and_limits() {
    assert_eq!(BACKEND_URL, "http://localhost:8082");
    assert_eq!(LOCAL_TELEMETRY_URL, "https://127.0.0.1:2999/liveclientdata/allgamedata");
    assert_eq!(REQUEST_TIMEOUT_SECS, 10);
    assert_eq!(SIMULATED_ITEM, 3115);
}

#[test]
fn endpoint_paths() {
    assert_eq!(Endpoint::CreateGame.path(), "/api/games/create");
    assert_eq!(Endpoint::Realtime.path(), "/api/games/realtime");
    assert_eq!(Endpoint::GetByCode.path(), "/api/games/get_by_code");
}

#[test]
fn endpoint_methods() {
    assert_eq!(Endpoint::CreateGame.method(), Method::Get);
    assert_eq!(Endpoint::Realtime.method(), Method::Post);
    assert_eq!(Endpoint::GetByCode.method(), Method::Post);
}

#[test]
fn endpoint_urls_join_base_and_path() {
    assert_eq!(Endpoint::CreateGame.url(BACKEND_URL), "http://localhost:8082/api/games/create");
    assert_eq!(
        Endpoint::Realtime.url("https://example.org"),
        "https://example.org/api/games/realtime"
    );
    assert_eq!(Endpoint::GetByCode.url(""), "/api/games/get_by_code");
}

#[test]
fn own_session_is_told_by_exact_code() {
    let state = session();
    assert!(is_own_session(&state, 123456));
    assert!(!is_own_session(&state, 123457));
    assert!(!is_own_session(&state, 0));
    assert!(is_own_session(&AppState::bootstrap(None), 0));
}

#[test]
fn own_code_starts_with_the_local_game_client() {
    assert_eq!(begin_relay(&session(), 123456), RelayAction::FetchLocalTelemetry);
}

#[test]
fn foreign_code_goes_straight_to_the_backend() {
    let action = begin_relay(&session(), 654321);
    assert_eq!(
        action,
        RelayAction::PostBackend(BackendRequest {
            endpoint: Endpoint::GetByCode,
            game_id: None,
            game_code: 654321,
            game_data: None,
            simulated_items: vec![3115],
        })
    );
    assert_eq!(action, RelayAction::PostBackend(get_by_code_request(654321)));
}

#[test]
fn realtime_request_carries_identity_and_telemetry() {
    let request = realtime_request(&session(), "{\"gameData\":{}}".to_string());
    assert_eq!(
        request,
        BackendRequest {
            endpoint: Endpoint::Realtime,
            game_id: Some("game-1".to_string()),
            game_code: 123456,
            game_data: Some("{\"gameData\":{}}".to_string()),
            simulated_items: vec![3115],
        }
    );
}

#[test]
fn local_body_is_forwarded_to_the_backend() {
    let action = after_local_fetch(&session(), LocalFetch::Body("telemetry".to_string()));
    assert_eq!(
        action,
        RelayAction::PostBackend(realtime_request(&session(), "telemetry".to_string()))
    );
}

#[test]
fn unreadable_local_body_is_forwarded_as_empty() {
    let action = after_local_fetch(&session(), LocalFetch::BodyUnreadable);
    assert_eq!(action, RelayAction::PostBackend(realtime_request(&session(), String::new())));
}

#[test]
fn unreachable_game_client_fails_the_call() {
    let action =
        after_local_fetch(&session(), LocalFetch::SendFailed("connection refused".to_string()));
    assert_eq!(
        action,
        RelayAction::Finish(RelayResult::Failure(
            "Error occurred in getting live game: connection refused".to_string()
        ))
    );
}

#[test]
fn failure_messages_name_the_stage() {
    assert_eq!(
        failure_message(RelayStage::LocalFetch, "x"),
        "Error occurred in getting live game: x"
    );
    assert_eq!(
        failure_message(RelayStage::BackendSend, "timeout"),
        "Error on server response: timeout"
    );
    assert_eq!(
        failure_message(RelayStage::BackendDecode, "eof"),
        "Error occurred on json parsing: eof"
    );
    assert_eq!(
        failure_message(RelayStage::NativeInvoke, ""),
        "Error on invoking the native shell: "
    );
}

#[test]
fn relay_success_round_trip() {
    let own = relay(
        &session(),
        123456,
        LocalFetch::Body("{}".to_string()),
        envelope(true, Some(Payload::Text("X".to_string())), None),
    );
    assert_eq!(own, RelayResult::Success("X".to_string()));
    let foreign = relay(
        &session(),
        1,
        LocalFetch::SendFailed("unused".to_string()),
        envelope(true, Some(Payload::Text("X".to_string())), None),
    );
    assert_eq!(foreign, RelayResult::Success("X".to_string()));
}

#[test]
fn json_payload_is_handed_on_as_written() {
    let result = relay_result(ServerResponse {
        success: true,
        data: Some(Payload::Json("{\"best_item\":3115}".to_string())),
        message: Some("ignored".to_string()),
    });
    assert_eq!(result, RelayResult::Success("{\"best_item\":3115}".to_string()));
    assert_eq!(Payload::Json("[1,2]".to_string()).into_text(), "[1,2]");
    assert_eq!(Payload::Text("plain".to_string()).into_text(), "plain");
}

#[test]
fn relay_failure_surfaces_the_message() {
    let result = relay(
        &session(),
        123456,
        LocalFetch::Body("{}".to_string()),
        envelope(false, None, Some("M")),
    );
    assert_eq!(result, RelayResult::Failure("M".to_string()));
}

#[test]
fn relay_failure_without_message_uses_the_fallback() {
    let result = relay(&session(), 5, LocalFetch::BodyUnreadable, envelope(false, None, None));
    assert_eq!(result, RelayResult::Failure("unknown error".to_string()));
}

#[test]
fn unsuccessful_envelope_with_data_is_a_failure() {
    let result = relay_result(ServerResponse {
        success: false,
        data: Some(Payload::Text("X".to_string())),
        message: Some("M".to_string()),
    });
    assert_eq!(result, RelayResult::Failure("M".to_string()));
}

#[test]
fn successful_envelope_without_data_is_a_failure() {
    let with_message = relay_result(ServerResponse {
        success: true,
        data: None,
        message: Some("nothing yet".to_string()),
    });
    assert_eq!(with_message, RelayResult::Failure("nothing yet".to_string()));
    let without = relay_result(ServerResponse { success: true, data: None, message: None });
    assert_eq!(without, RelayResult::Failure("unknown error".to_string()));
}

#[test]
fn backend_transport_error_is_a_failure() {
    let result = after_backend_reply(BackendReply::SendFailed("timed out".to_string()));
    assert_eq!(result, RelayResult::Failure("Error on server response: timed out".to_string()));
}

#[test]
fn backend_decode_error_is_a_failure() {
    let result = after_backend_reply(BackendReply::DecodeFailed("expected value".to_string()));
    assert_eq!(
        result,
        RelayResult::Failure("Error occurred on json parsing: expected value".to_string())
    );
}

#[test]
fn local_failure_keeps_the_backend_out() {
    let result = relay(
        &session(),
        123456,
        LocalFetch::SendFailed("refused".to_string()),
        envelope(true, Some(Payload::Text("X".to_string())), None),
    );
    assert_eq!(
        result,
        RelayResult::Failure("Error occurred in getting live game: refused".to_string())
    );
}

#[test]
fn invoke_text_is_the_payload() {
    assert_eq!(
        after_invoke(9, InvokeReply::Text("{\"a\":1}".to_string())),
        RelayAction::Finish(RelayResult::Success("{\"a\":1}".to_string()))
    );
}

#[test]
fn invoke_outside_the_shell_falls_back_to_the_backend() {
    assert_eq!(
        after_invoke(9, InvokeReply::NotText),
        RelayAction::PostBackend(get_by_code_request(9))
    );
}

#[test]
fn invoke_failure_is_a_failure() {
    assert_eq!(
        after_invoke(9, InvokeReply::Failed("denied".to_string())),
        RelayAction::Finish(RelayResult::Failure(
            "Error on invoking the native shell: denied".to_string()
        ))
    );
}

#[test]
fn certificates_go_unvalidated_for_the_local_call_only() {
    assert_eq!(
        request_policy(&RelayAction::FetchLocalTelemetry),
        Some(RequestPolicy { timeout_secs: 10, accept_invalid_certs: true })
    );
    assert_eq!(
        request_policy(&RelayAction::PostBackend(get_by_code_request(1))),
        Some(RequestPolicy { timeout_secs: 10, accept_invalid_certs: false })
    );
    assert_eq!(
        request_policy(&RelayAction::Finish(RelayResult::Success(String::new()))),
        None
    );
}
