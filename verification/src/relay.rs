//! The relay of live game telemetry: which requests one relay call makes, in
//! which order, and what it reports back.
//!
//! One call is a short conversation. [`begin_relay`] names the first request;
//! the caller performs it and hands the answer to [`after_local_fetch`] or
//! [`after_backend_reply`], until a [`RelayResult`] comes out.

use crate::session::{AppState, ServerResponse, SessionView};
use vstd::prelude::*;

verus! {

/// Base address of the backend.
pub const BACKEND_URL: &'static str = "http://localhost:8082";

/// Address at which a running game client serves its telemetry. The client
/// signs its own certificate, so this one request goes out unvalidated.
pub const LOCAL_TELEMETRY_URL: &'static str = "https://127.0.0.1:2999/liveclientdata/allgamedata";

/// Seconds after which any request is given up.
pub const REQUEST_TIMEOUT_SECS: u64 = 10;

/// The item whose effect the backend is asked to simulate.
pub const SIMULATED_ITEM: usize = 3115;

/// The backend operations that the shell uses.
#[derive(Clone, Copy, Debug, PartialEq, Eq, Structural)]
pub enum Endpoint {
    /// Creates a game record and returns its code and identifier.
    CreateGame,
    /// Computes on telemetry that the request carries.
    Realtime,
    /// Returns what was computed for a game registered earlier.
    GetByCode,
}

/// The request methods that the backend is spoken to with.
#[derive(Clone, Copy, Debug, PartialEq, Eq, Structural)]
pub enum Method {
    Get,
    Post,
}

/// The method of an endpoint: a game is created by a plain read, everything
/// else is posted with a body.
pub open spec fn endpoint_method(endpoint: Endpoint) -> Method {
    match endpoint {
        Endpoint::CreateGame => Method::Get,
        _ => Method::Post,
    }
}

/// The path of an endpoint below the backend's base address.
pub open spec fn endpoint_path(endpoint: Endpoint) -> Seq<char> {
    match endpoint {
        Endpoint::CreateGame => "/api/games/create"@,
        Endpoint::Realtime => "/api/games/realtime"@,
        Endpoint::GetByCode => "/api/games/get_by_code"@,
    }
}

impl Endpoint {
    /// The method that this endpoint is asked with.
    pub fn method(&self) -> (method: Method)
        ensures
            method == endpoint_method(*self),
    {
        match self {
            Endpoint::CreateGame => Method::Get,
            _ => Method::Post,
        }
    }

    /// The path of this endpoint below the backend's base address.
    pub fn path(&self) -> (path: &'static str)
        ensures
            path@ == endpoint_path(*self),
    {
        match self {
            Endpoint::CreateGame => "/api/games/create",
            Endpoint::Realtime => "/api/games/realtime",
            Endpoint::GetByCode => "/api/games/get_by_code",
        }
    }

    /// The full address of this endpoint on the backend at `base`.
    pub fn url(&self, base: &str) -> (url: String)
        ensures
            url@ == base@ + endpoint_path(*self),
    {
        let mut url = String::from_str(base);
        url.append(self.path());
        url
    }
}

/// The body of a request to the backend.
#[derive(Clone, Debug, PartialEq, Eq)]
pub struct BackendRequest {
    /// The operation asked for.
    pub endpoint: Endpoint,
    /// The identifier of the own session, sent with telemetry only.
    pub game_id: Option<String>,
    /// The code of the game the request is about.
    pub game_code: usize,
    /// The telemetry as the game client returned it.
    pub game_data: Option<String>,
    /// The items to simulate.
    pub simulated_items: Vec<usize>,
}

/// A request body as a mathematical value.
pub struct RequestView {
    pub endpoint: Endpoint,
    pub game_id: Option<Seq<char>>,
    pub game_code: nat,
    pub game_data: Option<Seq<char>>,
    pub simulated_items: Seq<usize>,
}

/// The characters of an optional string.
pub open spec fn text_of(text: Option<String>) -> Option<Seq<char>> {
    match text {
        Some(t) => Some(t@),
        None => None,
    }
}

impl View for BackendRequest {
    type V = RequestView;

    open spec fn view(&self) -> RequestView {
        RequestView {
            endpoint: self.endpoint,
            game_id: text_of(self.game_id),
            game_code: self.game_code as nat,
            game_data: text_of(self.game_data),
            simulated_items: self.simulated_items@,
        }
    }
}

/// The payload of an envelope: a text, or any other JSON value.
#[derive(Clone, Debug, PartialEq, Eq)]
pub enum Payload {
    /// A JSON string; the field holds what the string says.
    Text(String),
    /// Any other JSON value but null; the field holds the value written out.
    Json(String),
}

/// The text that a payload is handed on as: what a string says, or the
/// value written out.
pub open spec fn payload_text(payload: Payload) -> Seq<char> {
    match payload {
        Payload::Text(text) => text@,
        Payload::Json(text) => text@,
    }
}

impl Payload {
    /// The text that the payload is handed on as.
    pub fn into_text(self) -> (text: String)
        ensures
            text@ == payload_text(self),
    {
        match self {
            Payload::Text(text) => text,
            Payload::Json(text) => text,
        }
    }
}

/// What a relay call reports to the user interface.
#[derive(Clone, Debug, PartialEq, Eq)]
pub enum RelayResult {
    /// The payload that the backend computed.
    Success(String),
    /// Why there is no payload.
    Failure(String),
}

/// A relay result as a mathematical value.
pub enum RelayOutcome {
    Success(Seq<char>),
    Failure(Seq<char>),
}

impl View for RelayResult {
    type V = RelayOutcome;

    open spec fn view(&self) -> RelayOutcome {
        match self {
            RelayResult::Success(payload) => RelayOutcome::Success(payload@),
            RelayResult::Failure(message) => RelayOutcome::Failure(message@),
        }
    }
}

/// How the request to the local game client ended.
#[derive(Clone, Debug, PartialEq, Eq)]
pub enum LocalFetch {
    /// The request did not get through; the text says why.
    SendFailed(String),
    /// An answer came, of whatever status, but its body could not be read.
    BodyUnreadable,
    /// The body of the answer, of whatever status.
    Body(String),
}

/// How a request to the backend ended.
#[derive(Clone, Debug, PartialEq, Eq)]
pub enum BackendReply {
    /// The request did not get through; the text says why.
    SendFailed(String),
    /// An answer came that is no envelope; the text says why.
    DecodeFailed(String),
    /// The envelope that came back.
    Envelope(ServerResponse<Payload>),
}

/// How the user interface's request to the native shell ended.
#[derive(Clone, Debug, PartialEq, Eq)]
pub enum InvokeReply {
    /// The request failed; the text says why.
    Failed(String),
    /// What came back is no text: the page runs outside the native shell.
    NotText,
    /// The payload that the shell returned.
    Text(String),
}

/// How a request is sent.
#[derive(Clone, Copy, Debug, PartialEq, Eq, Structural)]
pub struct RequestPolicy {
    /// Seconds after which the request is given up.
    pub timeout_secs: u64,
    /// Whether a certificate that cannot be validated is accepted.
    pub accept_invalid_certs: bool,
}

/// The next thing a relay call has to do.
#[derive(Clone, Debug, PartialEq, Eq)]
pub enum RelayAction {
    /// Ask the local game client for its telemetry.
    FetchLocalTelemetry,
    /// Send this request to the backend.
    PostBackend(BackendRequest),
    /// Report this result; the call is over.
    Finish(RelayResult),
}

/// A relay action as a mathematical value.
pub enum RelayActionView {
    FetchLocalTelemetry,
    PostBackend(RequestView),
    Finish(RelayOutcome),
}

impl View for RelayAction {
    type V = RelayActionView;

    open spec fn view(&self) -> RelayActionView {
        match self {
            RelayAction::FetchLocalTelemetry => RelayActionView::FetchLocalTelemetry,
            RelayAction::PostBackend(request) => RelayActionView::PostBackend(request@),
            RelayAction::Finish(result) => RelayActionView::Finish(result@),
        }
    }
}

/// The stage at which a relay call broke off.
#[derive(Clone, Copy, Debug, PartialEq, Eq, Structural)]
pub enum RelayStage {
    /// Reaching the local game client.
    LocalFetch,
    /// Reaching the backend.
    BackendSend,
    /// Decoding the backend's answer.
    BackendDecode,
    /// Asking the native shell from the user interface.
    NativeInvoke,
}

/// What a failure message starts with, by the stage that failed.
pub open spec fn stage_label(stage: RelayStage) -> Seq<char> {
    match stage {
        RelayStage::LocalFetch => "Error occurred in getting live game: "@,
        RelayStage::BackendSend => "Error on server response: "@,
        RelayStage::BackendDecode => "Error occurred on json parsing: "@,
        RelayStage::NativeInvoke => "Error on invoking the native shell: "@,
    }
}

/// The message of a failure that carries none of its own.
pub open spec fn unknown_error() -> Seq<char> {
    "unknown error"@
}

/// The request that relays telemetry of the own session.
pub open spec fn realtime_request_spec(session: SessionView, game_data: Seq<char>) -> RequestView {
    RequestView {
        endpoint: Endpoint::Realtime,
        game_id: Some(session.id),
        game_code: session.code,
        game_data: Some(game_data),
        simulated_items: seq![SIMULATED_ITEM],
    }
}

/// The request that looks up a game of another session by its code.
pub open spec fn get_by_code_request_spec(game_code: usize) -> RequestView {
    RequestView {
        endpoint: Endpoint::GetByCode,
        game_id: None,
        game_code: game_code as nat,
        game_data: None,
        simulated_items: seq![SIMULATED_ITEM],
    }
}

/// The requested code is that of the own session.
pub open spec fn is_own_session_spec(session: SessionView, game_code: usize) -> bool {
    game_code as nat == session.code
}

/// How a relay call starts: with the local game client for the own session,
/// with the backend's lookup for any other code.
pub open spec fn first_action(session: SessionView, game_code: usize) -> RelayActionView {
    if is_own_session_spec(session, game_code) {
        RelayActionView::FetchLocalTelemetry
    } else {
        RelayActionView::PostBackend(get_by_code_request_spec(game_code))
    }
}

/// The telemetry text that a local answer yields: its body, or nothing where
/// the body could not be read.
pub open spec fn telemetry_of(fetched: LocalFetch) -> Seq<char> {
    match fetched {
        LocalFetch::Body(body) => body@,
        _ => Seq::empty(),
    }
}

/// How a relay call goes on once the local game client was asked.
pub open spec fn action_after_local(session: SessionView, fetched: LocalFetch) -> RelayActionView {
    match fetched {
        LocalFetch::SendFailed(detail) => RelayActionView::Finish(
            RelayOutcome::Failure(stage_label(RelayStage::LocalFetch) + detail@),
        ),
        _ => RelayActionView::PostBackend(realtime_request_spec(session, telemetry_of(fetched))),
    }
}

/// What an envelope amounts to: its payload when it reports success and
/// carries one, else a failure with its message or the fallback.
pub open spec fn envelope_outcome(envelope: ServerResponse<Payload>) -> RelayOutcome {
    match envelope.data {
        Some(payload) if envelope.success => RelayOutcome::Success(payload_text(payload)),
        _ => RelayOutcome::Failure(
            match envelope.message {
                Some(message) => message@,
                None => unknown_error(),
            },
        ),
    }
}

/// What the backend's answer amounts to.
pub open spec fn reply_outcome(reply: BackendReply) -> RelayOutcome {
    match reply {
        BackendReply::SendFailed(detail) => RelayOutcome::Failure(
            stage_label(RelayStage::BackendSend) + detail@,
        ),
        BackendReply::DecodeFailed(detail) => RelayOutcome::Failure(
            stage_label(RelayStage::BackendDecode) + detail@,
        ),
        BackendReply::Envelope(envelope) => envelope_outcome(envelope),
    }
}

/// The result of a whole relay call, given how each request that it makes
/// ends. An answer to a request that the call does not make is not looked at.
pub open spec fn fetch_and_relay(
    session: SessionView,
    game_code: usize,
    local: LocalFetch,
    backend: BackendReply,
) -> RelayOutcome {
    match first_action(session, game_code) {
        RelayActionView::FetchLocalTelemetry => match action_after_local(session, local) {
            RelayActionView::Finish(outcome) => outcome,
            _ => reply_outcome(backend),
        },
        _ => reply_outcome(backend),
    }
}

/// The relay call reaches the backend: it asks for another session's code, or
/// the local game client answered.
pub open spec fn reaches_backend(
    session: SessionView,
    game_code: usize,
    local: LocalFetch,
) -> bool {
    !is_own_session_spec(session, game_code) || !(local is SendFailed)
}

/// How the user interface goes on once it asked the native shell for the
/// game under `game_code`: outside the shell it asks the backend itself.
pub open spec fn action_after_invoke(game_code: usize, reply: InvokeReply) -> RelayActionView {
    match reply {
        InvokeReply::Failed(detail) => RelayActionView::Finish(
            RelayOutcome::Failure(stage_label(RelayStage::NativeInvoke) + detail@),
        ),
        InvokeReply::NotText => RelayActionView::PostBackend(get_by_code_request_spec(game_code)),
        InvokeReply::Text(text) => RelayActionView::Finish(RelayOutcome::Success(text@)),
    }
}

/// How the request that an action asks for is sent, where it asks for one:
/// always with a timeout, and without validating the certificate only where
/// the request goes to the local game client.
pub open spec fn policy_of(action: RelayActionView) -> Option<RequestPolicy> {
    match action {
        RelayActionView::FetchLocalTelemetry => Some(
            RequestPolicy { timeout_secs: REQUEST_TIMEOUT_SECS, accept_invalid_certs: true },
        ),
        RelayActionView::PostBackend(_) => Some(
            RequestPolicy { timeout_secs: REQUEST_TIMEOUT_SECS, accept_invalid_certs: false },
        ),
        RelayActionView::Finish(_) => None,
    }
}

/// The message of a failure at `stage`: the stage's label, then the detail.
pub fn failure_message(stage: RelayStage, detail: &str) -> (message: String)
    ensures
        message@ == stage_label(stage) + detail@,
{
    let label = match stage {
        RelayStage::LocalFetch => "Error occurred in getting live game: ",
        RelayStage::BackendSend => "Error on server response: ",
        RelayStage::BackendDecode => "Error occurred on json parsing: ",
        RelayStage::NativeInvoke => "Error on invoking the native shell: ",
    };
    let mut message = String::from_str(label);
    message.append(detail);
    message
}

/// Tells whether `game_code` is the code of the own session.
pub fn is_own_session(state: &AppState, game_code: usize) -> (own: bool)
    ensures
        own == is_own_session_spec(state@, game_code),
{
    game_code == state.game_code()
}

/// The request that relays `game_data` under the identity of the session.
pub fn realtime_request(state: &AppState, game_data: String) -> (request: BackendRequest)
    ensures
        request@ == realtime_request_spec(state@, game_data@),
{
    let mut simulated_items: Vec<usize> = Vec::new();
    simulated_items.push(SIMULATED_ITEM);
    let request = BackendRequest {
        endpoint: Endpoint::Realtime,
        game_id: Some(state.game_id().clone()),
        game_code: state.game_code(),
        game_data: Some(game_data),
        simulated_items,
    };
    assert(request@.simulated_items =~= seq![SIMULATED_ITEM]);
    request
}

/// The request that looks up the game registered under `game_code`.
pub fn get_by_code_request(game_code: usize) -> (request: BackendRequest)
    ensures
        request@ == get_by_code_request_spec(game_code),
{
    let mut simulated_items: Vec<usize> = Vec::new();
    simulated_items.push(SIMULATED_ITEM);
    let request = BackendRequest {
        endpoint: Endpoint::GetByCode,
        game_id: None,
        game_code,
        game_data: None,
        simulated_items,
    };
    assert(request@.simulated_items =~= seq![SIMULATED_ITEM]);
    request
}

/// Starts a relay call for `game_code`.
pub fn begin_relay(state: &AppState, game_code: usize) -> (action: RelayAction)
    ensures
        action@ == first_action(state@, game_code),
{
    if is_own_session(state, game_code) {
        RelayAction::FetchLocalTelemetry
    } else {
        RelayAction::PostBackend(get_by_code_request(game_code))
    }
}

/// Goes on with a relay call once the local game client was asked.
pub fn after_local_fetch(state: &AppState, fetched: LocalFetch) -> (action: RelayAction)
    ensures
        action@ == action_after_local(state@, fetched),
{
    match fetched {
        LocalFetch::SendFailed(detail) => RelayAction::Finish(
            RelayResult::Failure(failure_message(RelayStage::LocalFetch, detail.as_str())),
        ),
        LocalFetch::BodyUnreadable => RelayAction::PostBackend(
            realtime_request(state, String::new()),
        ),
        LocalFetch::Body(body) => RelayAction::PostBackend(realtime_request(state, body)),
    }
}

/// Reads the result out of an envelope.
pub fn relay_result(envelope: ServerResponse<Payload>) -> (result: RelayResult)
    ensures
        result@ == envelope_outcome(envelope),
{
    let ServerResponse { success, data, message } = envelope;
    match data {
        Some(payload) if success => RelayResult::Success(payload.into_text()),
        _ => match message {
            Some(text) => RelayResult::Failure(text),
            None => RelayResult::Failure(String::from_str("unknown error")),
        },
    }
}

/// Ends a relay call with the backend's answer.
pub fn after_backend_reply(reply: BackendReply) -> (result: RelayResult)
    ensures
        result@ == reply_outcome(reply),
{
    match reply {
        BackendReply::SendFailed(detail) => RelayResult::Failure(
            failure_message(RelayStage::BackendSend, detail.as_str()),
        ),
        BackendReply::DecodeFailed(detail) => RelayResult::Failure(
            failure_message(RelayStage::BackendDecode, detail.as_str()),
        ),
        BackendReply::Envelope(envelope) => relay_result(envelope),
    }
}

/// Goes on, in the user interface, once the native shell was asked for the
/// game under `game_code`.
pub fn after_invoke(game_code: usize, reply: InvokeReply) -> (action: RelayAction)
    ensures
        action@ == action_after_invoke(game_code, reply),
{
    match reply {
        InvokeReply::Failed(detail) => RelayAction::Finish(
            RelayResult::Failure(failure_message(RelayStage::NativeInvoke, detail.as_str())),
        ),
        InvokeReply::NotText => RelayAction::PostBackend(get_by_code_request(game_code)),
        InvokeReply::Text(text) => RelayAction::Finish(RelayResult::Success(text)),
    }
}

/// Says how to send the request that `action` asks for, if it asks for one.
pub fn request_policy(action: &RelayAction) -> (policy: Option<RequestPolicy>)
    ensures
        policy == policy_of(action@),
{
    match action {
        RelayAction::FetchLocalTelemetry => Some(
            RequestPolicy { timeout_secs: REQUEST_TIMEOUT_SECS, accept_invalid_certs: true },
        ),
        RelayAction::PostBackend(_) => Some(
            RequestPolicy { timeout_secs: REQUEST_TIMEOUT_SECS, accept_invalid_certs: false },
        ),
        RelayAction::Finish(_) => None,
    }
}

/// Every request carries a timeout, and certificates go unvalidated for the
/// request to the local game client and for no other.
pub proof fn lemma_request_policy(action: RelayActionView)
    ensures
        policy_of(action) is Some <==> !(action is Finish),
        policy_of(action) matches Some(policy) ==> policy.timeout_secs > 0 && (
        policy.accept_invalid_certs <==> action is FetchLocalTelemetry),
{
}

/// A backend that answers with a successful envelope carrying a payload makes
/// the relay call succeed with exactly that payload, whenever the call
/// reaches the backend.
pub proof fn lemma_success_round_trip(
    session: SessionView,
    game_code: usize,
    local: LocalFetch,
    envelope: ServerResponse<Payload>,
)
    requires
        reaches_backend(session, game_code, local),
        envelope.success,
        envelope.data is Some,
    ensures
        fetch_and_relay(session, game_code, local, BackendReply::Envelope(envelope))
            == RelayOutcome::Success(payload_text(envelope.data->0)),
        envelope.data matches Some(Payload::Text(text)) ==> fetch_and_relay(
            session,
            game_code,
            local,
            BackendReply::Envelope(envelope),
        ) == RelayOutcome::Success(text@),
{
}

/// A backend that answers with an unsuccessful envelope makes the relay call
/// fail with the envelope's message, or with the fallback where it has none,
/// whenever the call reaches the backend.
pub proof fn lemma_failure_surfaces(
    session: SessionView,
    game_code: usize,
    local: LocalFetch,
    envelope: ServerResponse<Payload>,
)
    requires
        reaches_backend(session, game_code, local),
        !envelope.success,
    ensures
        envelope.message is Some ==> fetch_and_relay(
            session,
            game_code,
            local,
            BackendReply::Envelope(envelope),
        ) == RelayOutcome::Failure(envelope.message->0@),
        envelope.message is None ==> fetch_and_relay(
            session,
            game_code,
            local,
            BackendReply::Envelope(envelope),
        ) == RelayOutcome::Failure(unknown_error()),
{
}

/// A relay call always ends in a result: a local game client that cannot be
/// reached fails the call for the own session with a message that names the
/// stage, and the backend is not asked.
pub proof fn lemma_local_failure_surfaces(
    session: SessionView,
    game_code: usize,
    detail: String,
    backend: BackendReply,
)
    requires
        is_own_session_spec(session, game_code),
    ensures
        fetch_and_relay(session, game_code, LocalFetch::SendFailed(detail), backend)
            == RelayOutcome::Failure(stage_label(RelayStage::LocalFetch) + detail@),
{
}

} // verus!
