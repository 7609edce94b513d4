//! A playback session in one guild: its state, and the messages it shows.
pub mod error;
pub mod lyrics_embed;
pub mod manager;
pub mod playback_embed;

use vstd::prelude::*;

use crate::ipc::packet::{BotMessage, PlayerMessageEvent, PlayerMessageResponse};
use crate::session::manager::{spec_assign_owner, spec_remove_guild, spec_remove_owner, SessionManager};
use crate::shared::player_info::{PlayerInfo, PlayerInfoView};

verus! {

/// Playback commands that a session forwards to its player.
#[derive(Debug, Clone, Copy, PartialEq, Eq, Structural)]
pub enum SessionPlayerCommand {
    Play,
    Pause,
    NextTrack,
    PreviousTrack,
}

impl SessionPlayerCommand {
    /// The message that asks the player for this command.
    pub fn to_message(&self) -> (r: BotMessage)
        ensures
            match self {
                SessionPlayerCommand::Play => r is Play,
                SessionPlayerCommand::Pause => r is Pause,
                SessionPlayerCommand::NextTrack => r is NextTrack,
                SessionPlayerCommand::PreviousTrack => r is PreviousTrack,
            },
    {
        match self {
            SessionPlayerCommand::Play => BotMessage::Play,
            SessionPlayerCommand::Pause => BotMessage::Pause,
            SessionPlayerCommand::NextTrack => BotMessage::NextTrack,
            SessionPlayerCommand::PreviousTrack => BotMessage::PreviousTrack,
        }
    }
}


/// How handling a command to a session went, as far as it decides whether the
/// session goes on.
#[derive(Debug, Clone, Copy, PartialEq, Eq, Structural)]
pub enum CommandOutcome {
    /// The session was asked to shut down.
    ShutdownRequested,
    /// A playback command was passed to the player, or could not be.
    PlayerCommand { delivered: bool },
    /// A take-over was tried; `fatal_error` when it failed with an error that
    /// leaves the player unstable (see `SessionError::is_fatal`).
    Reactivation { fatal_error: bool },
    /// Anything else: a query, a disconnect or a new message was handled.
    Handled,
}

/// Whether a session goes on after a command: not after a shutdown request,
/// a playback command the player could not be reached for, or a fatal
/// take-over error.
pub fn session_continues(outcome: CommandOutcome) -> (r: bool)
    ensures
        r == match outcome {
            CommandOutcome::ShutdownRequested => false,
            CommandOutcome::PlayerCommand { delivered } => delivered,
            CommandOutcome::Reactivation { fatal_error } => !fatal_error,
            CommandOutcome::Handled => true,
        },
{
    match outcome {
        CommandOutcome::ShutdownRequested => false,
        CommandOutcome::PlayerCommand { delivered } => delivered,
        CommandOutcome::Reactivation { fatal_error } => !fatal_error,
        CommandOutcome::Handled => true,
    }
}

/// How long an inactive session waits for a new user before it leaves, in milliseconds.
pub const INACTIVITY_TIMEOUT_MS: u64 = 300_000;

/// The state of a session in a guild. Times are milliseconds on the caller's
/// monotonic clock.
#[derive(Debug)]
pub struct Session {
    pub guild_id: u64,
    pub voice_channel_id: u64,
    pub text_channel_id: u64,
    pub owner_id: u64,
    /// Whether a user is connected to Spotify through the session.
    pub active: bool,
    /// When an inactive session gives up and leaves.
    pub timeout: Option<u64>,
    /// What plays, as last reported by the player.
    pub player_info: Option<PlayerInfo>,
}

/// The view of optional track details.
pub open spec fn info_view(i: Option<PlayerInfo>) -> Option<PlayerInfoView> {
    match i {
        Some(i) => Some(i@),
        None => None,
    }
}

/// What the session does after an event from its player.
pub struct EventOutcome {
    /// Whether the session keeps running.
    pub keep_running: bool,
    /// A message to send to the player.
    pub send: Option<BotMessage>,
    /// How to redraw the "now playing" message: `true` edits it in place.
    pub force_edit: bool,
}

/// Why setting up or handing over a player failed.
#[derive(Debug, PartialEq, Eq)]
pub enum PlayerSetupError {
    /// The player reported an error, or answered something unexpected.
    PlayerError(String),
    /// The player's connection closed.
    ConnectionDied,
}

/// The answer that a request to the player waits for.
#[derive(Debug, Clone, Copy, PartialEq, Eq, Structural)]
pub enum ExpectedResponse {
    Ready,
    Connected,
}

/// The message of an unexpected answer during setup.
pub open spec fn unknown_response_text() -> Seq<char> {
    "Unknown response from player during intialization"@
}

/// Checks the player's answer to a setup request: the expected answer is
/// success, a reported error is passed on, any other answer is an error, and a
/// closed connection is reported as such.
pub fn check_response(response: Option<PlayerMessageResponse>, expected: ExpectedResponse) -> (r: Result<(), PlayerSetupError>)
    ensures
        match response {
            None => r == Err::<(), PlayerSetupError>(PlayerSetupError::ConnectionDied),
            Some(PlayerMessageResponse::Error(m)) => r matches Err(PlayerSetupError::PlayerError(e)) && e@ == m@,
            Some(PlayerMessageResponse::Ready) => if expected == ExpectedResponse::Ready {
                r is Ok
            } else {
                r matches Err(PlayerSetupError::PlayerError(e)) && e@ == unknown_response_text()
            },
            Some(PlayerMessageResponse::Connected) => if expected == ExpectedResponse::Connected {
                r is Ok
            } else {
                r matches Err(PlayerSetupError::PlayerError(e)) && e@ == unknown_response_text()
            },
        },
{
    match response {
        None => Err(PlayerSetupError::ConnectionDied),
        Some(PlayerMessageResponse::Error(m)) => Err(PlayerSetupError::PlayerError(m)),
        Some(PlayerMessageResponse::Ready) if matches!(expected, ExpectedResponse::Ready) => Ok(()),
        Some(PlayerMessageResponse::Connected) if matches!(expected, ExpectedResponse::Connected) => Ok(()),
        Some(_) => {
            let mut m = String::new();
            m.append("Unknown response from player during intialization");
            Err(PlayerSetupError::PlayerError(m))
        },
    }
}

/// How long the bot waits for a new player to become ready, in seconds: longer
/// while developing, when the player may first have to be compiled.
pub fn init_timeout_secs(developing: bool) -> (r: u64)
    ensures
        r == if developing { 120u64 } else { 5u64 },
{
    if developing {
        120
    } else {
        5
    }
}

impl Session {
    /// A new, active session with nothing playing yet.
    pub fn new(guild_id: u64, voice_channel_id: u64, text_channel_id: u64, owner_id: u64) -> (r: Session)
        ensures
            r.guild_id == guild_id,
            r.voice_channel_id == voice_channel_id,
            r.text_channel_id == text_channel_id,
            r.owner_id == owner_id,
            r.active,
            r.timeout is None,
            r.player_info is None,
    {
        Session { guild_id, voice_channel_id, text_channel_id, owner_id, active: true, timeout: None, player_info: None }
    }

    /// Deactivates the session at time `now`, so that another user can take it
    /// over: nothing plays any more, the inactivity timer starts, and the owner
    /// gives up the guild. Returns the message that disconnects the player.
    pub fn deactivate<H>(&mut self, now: u64, manager: &mut SessionManager<H>) -> (r: BotMessage)
        requires
            now <= u64::MAX - INACTIVITY_TIMEOUT_MS,
            old(manager).wf(),
        ensures
            r is Disconnect,
            !final(self).active,
            final(self).player_info is None,
            final(self).timeout == Some((now + INACTIVITY_TIMEOUT_MS) as u64),
            final(self).guild_id == old(self).guild_id,
            final(self).owner_id == old(self).owner_id,
            final(self).voice_channel_id == old(self).voice_channel_id,
            final(self).text_channel_id == old(self).text_channel_id,
            final(manager).wf(),
            final(manager)@.owners == spec_remove_owner(old(manager)@.owners, old(self).guild_id, old(self).owner_id),
            final(manager)@.sessions == old(manager)@.sessions,
    {
        self.player_info = None;
        self.active = false;
        self.timeout = Some(now + INACTIVITY_TIMEOUT_MS);
        manager.remove_owner(self.guild_id, self.owner_id);
        BotMessage::Disconnect
    }

    /// Ends the session: it leaves the registry, with everyone's ownership of it.
    /// Returns the message that shuts the player down.
    pub fn shutdown<H>(&self, manager: &mut SessionManager<H>) -> (r: BotMessage)
        requires
            old(manager).wf(),
        ensures
            r is Shutdown,
            final(manager).wf(),
            final(manager)@.sessions == old(manager)@.sessions.remove(self.guild_id),
            final(manager)@.owners == spec_remove_guild(old(manager)@.owners, self.guild_id),
    {
        manager.remove_session(self.guild_id);
        BotMessage::Shutdown
    }

    /// Whether a new owner may take the session over: not while it is active.
    pub fn begin_reactivate(&self) -> (r: bool)
        ensures
            r == !self.active,
    {
        !self.active
    }

    /// Completes a take-over by `new_owner` once the player has connected: the
    /// session is active again, owned by `new_owner`, and no longer times out.
    pub fn finish_reactivate<H>(&mut self, new_owner: u64, manager: &mut SessionManager<H>)
        requires
            old(manager).wf(),
        ensures
            final(self).active,
            final(self).owner_id == new_owner,
            final(self).timeout is None,
            final(self).guild_id == old(self).guild_id,
            info_view(final(self).player_info) == info_view(old(self).player_info),
            final(self).voice_channel_id == old(self).voice_channel_id,
            final(self).text_channel_id == old(self).text_channel_id,
            final(manager).wf(),
            final(manager)@.owners == spec_assign_owner(old(manager)@.owners, old(self).guild_id, new_owner),
            final(manager)@.sessions == old(manager)@.sessions,
    {
        self.active = true;
        self.owner_id = new_owner;
        self.timeout = None;
        manager.assign_owner(self.guild_id, self.owner_id);
    }

    /// Handles an event from the player at time `now`. A shutdown ends the
    /// session; a disconnect deactivates it; an update records what plays. The
    /// "now playing" message is edited in place unless the track changed.
    pub fn on_player_event<H>(&mut self, event: PlayerMessageEvent, now: u64, manager: &mut SessionManager<H>) -> (r: EventOutcome)
        requires
            now <= u64::MAX - INACTIVITY_TIMEOUT_MS,
            old(manager).wf(),
        ensures
            final(manager).wf(),
            final(self).guild_id == old(self).guild_id,
            final(self).owner_id == old(self).owner_id,
            final(self).voice_channel_id == old(self).voice_channel_id,
            final(self).text_channel_id == old(self).text_channel_id,
            !(event is Disconnected) ==> final(self).timeout == old(self).timeout,
            match event {
                PlayerMessageEvent::Shutdown => !r.keep_running && r.send is None
                    && final(manager)@ == old(manager)@ && final(self).active == old(self).active
                    && info_view(final(self).player_info) == info_view(old(self).player_info),
                PlayerMessageEvent::Disconnected => {
                    &&& r.keep_running
                    &&& r.send matches Some(m) && m is Disconnect
                    &&& r.force_edit
                    &&& !final(self).active
                    &&& final(self).player_info is None
                    &&& final(self).timeout == Some((now + INACTIVITY_TIMEOUT_MS) as u64)
                    &&& final(manager)@.owners == spec_remove_owner(old(manager)@.owners, old(self).guild_id, old(self).owner_id)
                    &&& final(manager)@.sessions == old(manager)@.sessions
                },
                PlayerMessageEvent::Error(_) => r.keep_running && r.send is None && r.force_edit
                    && final(manager)@ == old(manager)@ && final(self).active == old(self).active
                    && info_view(final(self).player_info) == info_view(old(self).player_info),
                PlayerMessageEvent::Update { info, track_changed } => {
                    &&& r.keep_running
                    &&& r.send is None
                    &&& r.force_edit == !track_changed
                    &&& info_view(final(self).player_info) == Some(info@)
                    &&& final(self).active == old(self).active
                    &&& final(manager)@ == old(manager)@
                },
            },
    {
        match event {
            PlayerMessageEvent::Shutdown => EventOutcome { keep_running: false, send: None, force_edit: true },
            PlayerMessageEvent::Disconnected => {
                let m = self.deactivate(now, manager);
                EventOutcome { keep_running: true, send: Some(m), force_edit: true }
            },
            PlayerMessageEvent::Error(_) => EventOutcome { keep_running: true, send: None, force_edit: true },
            PlayerMessageEvent::Update { info, track_changed } => {
                self.player_info = Some(*info);
                EventOutcome { keep_running: true, send: None, force_edit: !track_changed }
            },
        }
    }

    /// Whether the inactivity timer has run out at time `now`.
    pub fn timed_out(&self, now: u64) -> (r: bool)
        ensures
            r == (self.timeout matches Some(t) && now >= t),
    {
        match self.timeout {
            Some(t) => now >= t,
            None => false,
        }
    }
}

} // verus!
