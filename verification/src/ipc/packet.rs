//! The messages exchanged with a player process.
use vstd::prelude::*;

use crate::shared::player_info::PlayerInfo;
use vstd::std_specs::convert::FromSpec;

verus! {

/// Messages from the bot to a player process.
pub enum BotMessage {
    /// The initial "handshake" message that informs the player how to connect to Discord
    Initialize {
        guild_id: u64,
        channel_id: u64,
        endpoint: String,
        token: String,
        session_id: String,
        user_id: u64,
    },
    /// Create a new librespot session for the target user, shutting down any active sessions running currently
    SetUser {
        /// The user's Discord id.
        user_id: u64,
        /// The device name.
        device_name: String,
        /// The access token.
        credentials: SecretString,
    },
    /// Requests the player to disconnect from Spotify.
    Disconnect,
    /// Requests the player to stop and shut down.
    Shutdown,
    /// Start or resume playback
    Play,
    /// Pause playback
    Pause,
    /// Advance to the next track in the queue
    NextTrack,
    /// Go back to the previous track in the queue
    PreviousTrack,
}

/// Messages from a player process to the bot: answers to a request, or events.
#[derive(Debug)]
pub enum PlayerMessage {
    Response(PlayerMessageResponse),
    Event(PlayerMessageEvent),
}

/// Answers of a player process to the bot's requests.
#[derive(Debug)]
pub enum PlayerMessageResponse {
    /// Reports that the player is ready and waiting for a user.
    Ready,
    /// Reports that the player has successfully connected to Spotify.
    Connected,
    /// Reports an error.
    Error(String),
}

/// What a player process reports on its own.
#[derive(Debug)]
pub enum PlayerMessageEvent {
    /// Reports that the player is shutting down.
    Shutdown,
    /// Reports that the player has been disconnected from Spotify.
    Disconnected,
    /// Reports an error.
    Error(String),
    /// Reports the full player info.
    Update { info: Box<PlayerInfo>, track_changed: bool },
}

/// A credential that is never shown: its printed form is `<secret>`.
pub struct SecretString(String);

impl SecretString {
    /// The text held.
    pub closed spec fn secret(&self) -> Seq<char> {
        self.0@
    }

    /// Gives up the secret text.
    pub fn expose(self) -> (r: String)
        ensures
            r@ == self.secret(),
    {
        self.0
    }

    /// The printed form: always `<secret>`.
    pub fn display(&self) -> (r: String)
        ensures
            r@ == "<secret>"@,
    {
        let mut s = String::new();
        s.append("<secret>");
        s
    }
}

impl From<String> for SecretString {
    fn from(value: String) -> (r: Self) {
        SecretString(value)
    }
}

impl vstd::std_specs::convert::FromSpecImpl<String> for SecretString {
    open spec fn obeys_from_spec() -> bool {
        true
    }

    closed spec fn from_spec(v: String) -> SecretString {
        SecretString(v)
    }
}

/// What is put into a secret comes out unchanged.
pub proof fn lemma_secret_round_trip(s: String)
    ensures
        SecretString::from_spec(s).secret() == s@,
{
}

} // verus!
