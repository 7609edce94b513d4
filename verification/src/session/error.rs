//! The errors of a session.
use vstd::prelude::*;

use crate::database::DatabaseError;
use crate::session::PlayerSetupError;

verus! {

/// Errors of the messages exchanged with a player process.
#[derive(Debug, Clone, PartialEq, Eq)]
pub enum IpcError {
    /// Reading or writing failed (with the reason).
    Io(String),
    /// A message was not valid JSON (with the reason).
    Json(String),
    /// The operation timed out.
    Timeout,
}

/// Why a session could not be set up or act.
#[derive(Debug, Clone, PartialEq, Eq)]
pub enum SessionError {
    /// The user executed an action inside of a channel that is not supported
    InvalidChannel,
    /// Cannot perform this action on an active session
    AlreadyActive,
    /// An error occured in the player
    PlayerError(String),
    /// Discord refused a request (with the reason).
    Serenity(String),
    /// Spotify refused a request.
    Spotify(crate::spotify::Error),
    /// The store failed.
    Database(DatabaseError),
    /// The voice call could not be joined (with the reason).
    JoinError(String),
    /// Talking to the player failed.
    Ipc(IpcError),
    /// Input or output failed (with the reason).
    Io(String),
}

/// The reason reported when the player's connection closed.
pub open spec fn connection_died_text() -> Seq<char> {
    "ipc connection died"@
}

impl SessionError {
    /// Whether the error leaves the player unstable, so that the session must
    /// end: an input/output failure or an error of the player.
    pub fn is_fatal(&self) -> (r: bool)
        ensures
            r == (self is Io || self is PlayerError),
    {
        match self {
            SessionError::Io(_) | SessionError::PlayerError(_) => true,
            _ => false,
        }
    }

    /// The session error for a failed player setup: a player error stays one; a
    /// closed connection is an input/output error of the messages.
    pub fn from_setup(e: PlayerSetupError) -> (r: SessionError)
        ensures
            match e {
                PlayerSetupError::PlayerError(m) => r == SessionError::PlayerError(m),
                PlayerSetupError::ConnectionDied => r matches SessionError::Ipc(IpcError::Io(t)) && t@ == connection_died_text(),
            },
    {
        match e {
            PlayerSetupError::PlayerError(m) => SessionError::PlayerError(m),
            PlayerSetupError::ConnectionDied => {
                let mut t = String::new();
                t.append("ipc connection died");
                SessionError::Ipc(IpcError::Io(t))
            },
        }
    }
}

} // verus!
