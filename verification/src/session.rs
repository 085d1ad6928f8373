//! The session that the client keeps.

use vstd::prelude::*;

use crate::messages::{AuthResponse, AuthResponseView};
use crate::text;
use crate::text::path_in;

verus! {

/// The tokens of the user who has logged in.
#[derive(Clone, Debug)]
pub struct Session {
    pub session_token: String,
    pub identity: String,
    pub expires_at: i64,
    pub refresh_token: String,
    pub refresh_expires_at: i64,
}

pub struct SessionView {
    pub session_token: Seq<char>,
    pub identity: Seq<char>,
    pub expires_at: i64,
    pub refresh_token: Seq<char>,
    pub refresh_expires_at: i64,
}

impl View for Session {
    type V = SessionView;

    open spec fn view(&self) -> SessionView {
        SessionView {
            session_token: self.session_token@,
            identity: self.identity@,
            expires_at: self.expires_at,
            refresh_token: self.refresh_token@,
            refresh_expires_at: self.refresh_expires_at,
        }
    }
}

/// The place of the client's files in the user's directory for configurations.
pub open spec fn client_file(config_dir: Seq<char>, file: Seq<char>) -> Seq<char> {
    text::path_within(text::path_within(config_dir, "supabased"@), file)
}

/// The place of the session.
pub fn session_path(config_dir: &str) -> (r: String)
    ensures
        r@ == client_file(config_dir@, "session.json"@),
{
    path_in(path_in(config_dir, "supabased").as_str(), "session.json")
}

/// What was found at the place of the session.
#[derive(Clone, Debug)]
pub enum SessionSource {
    Missing,
    /// There is a file, but it holds no session; the text says why.
    Corrupt(String),
    Found(Session),
}

/// What the user is told whose session is over.
pub open spec fn session_expired() -> Seq<char> {
    "session expired — run `supabased login` again"@
}

/// The session at `now`, or why there is none.
pub open spec fn session_at(path: Seq<char>, source: SessionSource, now: i64) -> Result<
    Session,
    Seq<char>,
> {
    match source {
        SessionSource::Missing => Err(
            "not logged in — run `supabased login` first\n  (no session file at "@ + path + ")"@,
        ),
        SessionSource::Corrupt(error) => Err(
            "corrupt session file at "@ + path + ": "@ + error@,
        ),
        SessionSource::Found(session) => if session.expires_at <= now {
            Err(session_expired())
        } else {
            Ok(session)
        },
    }
}

/// The session at `now`.
pub fn load_session(path: &str, source: SessionSource, now: i64) -> (r: Result<Session, String>)
    ensures
        match session_at(path@, source, now) {
            Ok(session) => r matches Ok(found) && found == session,
            Err(reason) => r matches Err(message) && message@ == reason,
        },
{
    match source {
        SessionSource::Missing => {
            let mut message =
                "not logged in — run `supabased login` first\n  (no session file at ".to_string();
            message.append(path);
            message.append(")");
            Err(message)
        },
        SessionSource::Corrupt(error) => {
            let mut message = "corrupt session file at ".to_string();
            message.append(path);
            message.append(": ");
            message.append(error.as_str());
            Err(message)
        },
        SessionSource::Found(session) => {
            if session.expires_at <= now {
                return Err("session expired — run `supabased login` again".to_string());
            }
            Ok(session)
        },
    }
}

/// The seconds before its end within which a session is refreshed.
pub const REFRESH_MARGIN_SECONDS: i64 = 300;

/// Whether a session is to be refreshed before it is used at `now`.
pub fn needs_refresh(session: &Session, now: i64) -> (r: bool)
    requires
        now + REFRESH_MARGIN_SECONDS <= i64::MAX,
    ensures
        r == (session.expires_at <= now + REFRESH_MARGIN_SECONDS),
{
    session.expires_at <= now + REFRESH_MARGIN_SECONDS
}

/// The session with these tokens.
pub open spec fn session_with(tokens: AuthResponseView) -> SessionView {
    SessionView {
        session_token: tokens.session_token,
        identity: tokens.identity,
        expires_at: tokens.expires_at,
        refresh_token: tokens.refresh_token,
        refresh_expires_at: tokens.refresh_expires_at,
    }
}

/// The session with the tokens that the server has given.
pub fn session_from(tokens: AuthResponse) -> (r: Session)
    ensures
        r@ == session_with(tokens@),
{
    Session {
        session_token: tokens.session_token,
        identity: tokens.identity,
        expires_at: tokens.expires_at,
        refresh_token: tokens.refresh_token,
        refresh_expires_at: tokens.refresh_expires_at,
    }
}

/// The session after the server was asked to refresh it; a server that does not do so ends it.
pub fn refreshed_session(reply: Option<AuthResponse>) -> (r: Result<Session, String>)
    ensures
        match reply {
            Some(tokens) => r matches Ok(session) && session@ == session_with(tokens@),
            None => r matches Err(message) && message@ == session_expired(),
        },
{
    match reply {
        Some(tokens) => Ok(session_from(tokens)),
        None => Err("session expired — run `supabased login` again".to_string()),
    }
}

/// A session that was loaded is the one that was found, and is not over.
pub proof fn law_loaded_session_is_not_over(
    path: Seq<char>,
    source: SessionSource,
    now: i64,
    session: Session,
)
    requires
        session_at(path, source, now) == Ok::<Session, Seq<char>>(session),
    ensures
        source == SessionSource::Found(session),
        session.expires_at > now,
{
}

} // verus!
