//! The identity of the running instance: created once at startup from the
//! backend's answer, never changed afterwards.

use vstd::prelude::*;

verus! {

/// The envelope that the backend wraps every answer in.
#[derive(Clone, Debug, PartialEq, Eq)]
pub struct ServerResponse<T> {
    /// Whether the backend did what was asked.
    pub success: bool,
    /// The answer itself, where there is one.
    pub data: Option<T>,
    /// What the backend says about a failure, where it says anything.
    pub message: Option<String>,
}

/// What the backend returns when it creates a game record.
#[derive(Clone, Debug, PartialEq, Eq)]
pub struct CreateGameResponse {
    /// The short code under which the game can be looked up.
    pub game_code: usize,
    /// The backend's identifier of the game record.
    pub game_id: String,
}

/// The session identity shared by every command handler.
#[derive(Clone, Debug, PartialEq, Eq)]
pub struct AppState {
    static_game_code: usize,
    static_game_id: String,
}

/// A session as a mathematical value: its code and the characters of its
/// identifier.
pub struct SessionView {
    pub code: nat,
    pub id: Seq<char>,
}

impl View for AppState {
    type V = SessionView;

    closed spec fn view(&self) -> SessionView {
        SessionView { code: self.static_game_code as nat, id: self.static_game_id@ }
    }
}

/// The identity of an instance that never reached the backend.
pub open spec fn default_session() -> SessionView {
    SessionView { code: 0, id: Seq::empty() }
}

/// The identity that a backend answer gives: that of the created game when
/// the answer arrived, reports success and carries the game; the default
/// identity otherwise.
pub open spec fn session_of(reply: Option<ServerResponse<CreateGameResponse>>) -> SessionView {
    match reply {
        Some(envelope) => match envelope.data {
            Some(created) if envelope.success => SessionView {
                code: created.game_code as nat,
                id: created.game_id@,
            },
            _ => default_session(),
        },
        None => default_session(),
    }
}

impl AppState {
    /// The identity with the given code and identifier.
    pub fn new(game_code: usize, game_id: String) -> (state: AppState)
        ensures
            state@ == (SessionView { code: game_code as nat, id: game_id@ }),
    {
        AppState { static_game_code: game_code, static_game_id: game_id }
    }

    /// Builds the identity from the backend's answer to the request that
    /// creates a game; `None` stands for a request that failed or an answer
    /// that could not be decoded. Startup never fails on this account.
    pub fn bootstrap(reply: Option<ServerResponse<CreateGameResponse>>) -> (state: AppState)
        ensures
            state@ == session_of(reply),
    {
        match reply {
            Some(envelope) => {
                if envelope.success {
                    match envelope.data {
                        Some(created) => AppState::new(created.game_code, created.game_id),
                        None => AppState::new(0, String::new()),
                    }
                } else {
                    AppState::new(0, String::new())
                }
            },
            None => AppState::new(0, String::new()),
        }
    }

    /// The session code.
    pub fn game_code(&self) -> (code: usize)
        ensures
            code as nat == self@.code,
    {
        self.static_game_code
    }

    /// The session identifier.
    pub fn game_id(&self) -> (id: &String)
        ensures
            id@ == self@.id,
    {
        &self.static_game_id
    }
}

/// The code of the running session, read without any request.
pub fn get_game_code(state: &AppState) -> (code: usize)
    ensures
        code as nat == state@.code,
{
    state.game_code()
}

} // verus!
