//! The player process: what it does with the bot's commands, with voice call
//! events and with the events of its Spotify player.
use vstd::prelude::*;

use crate::ipc::packet::{BotMessage, PlayerMessage, PlayerMessageEvent, PlayerMessageResponse, SecretString};
use crate::session::info_view;
use crate::shared::lyrics::Lyrics;
use crate::shared::player_info::{
    artists_convertible, audio_item_convertible, lyrics_view, spec_track_of, AudioItem, PlayerInfo, PlayerInfoView, PlayerTrack, SpotifyUri,
    UniqueFields,
};

verus! {

/// Commands to the Spotify player.
#[derive(Debug, Clone, Copy, PartialEq, Eq, Structural)]
pub enum PlayerCommand {
    NextTrack,
    PreviousTrack,
    Pause,
    Play,
    Shutdown,
}

/// Events of the player that the process reports to the bot.
#[derive(Debug)]
pub enum PlayerEvent {
    Pause,
    Play,
    Stopped,
    Seeked,
    TrackChanged(Box<PlayerInfo>),
    ConnectionReset,
}

/// Voice call events that the process reacts to.
#[derive(Debug, Clone, Copy, PartialEq, Eq, Structural)]
pub enum CallEvent {
    /// The bot left the voice call.
    DriverDisconnect,
    /// A user (by id) left the voice call.
    ClientDisconnect(u64),
}

/// The state of the process's event loop: whose Spotify account plays, and
/// whether a Spotify player runs.
#[derive(Debug, Clone, Copy, PartialEq, Eq, Structural)]
pub struct EventLoop {
    pub owner: Option<u64>,
    pub has_player: bool,
}

/// What the event loop does with a command from the bot.
pub enum IpcDecision {
    /// Stop the current player (if `stop_current`, without telling the bot), then
    /// connect a new player for `user_id`.
    CreatePlayer { stop_current: bool, user_id: u64, device_name: String, credentials: SecretString },
    /// Nothing to do.
    Ignore,
    /// Stop the current player without telling the bot.
    StopSilent { stop_current: bool },
    /// Stop the current player, send `report` (the disconnect), and end the loop.
    Shutdown { stop_current: bool, report: PlayerMessage },
    /// Pass a playback command on to the player.
    Forward(PlayerCommand),
}

/// What the event loop does with a voice call event.
#[derive(Debug, PartialEq, Eq, Structural)]
pub enum CallDecision {
    /// End the loop.
    Exit,
    /// Stop the player (its owner left) and report the disconnect.
    StopPlayer { stop_current: bool },
    /// Nothing to do.
    Ignore,
}

/// What the event loop reports to the bot for an event of its player.
pub enum ReportPlan {
    /// Send this message.
    Send(PlayerMessage),
    /// Ask the player for its details and send them as an update without track change.
    SendCurrentInfo,
}

impl EventLoop {
    /// The state before any user is set.
    pub fn new() -> (r: EventLoop)
        ensures
            r.owner is None,
            !r.has_player,
    {
        EventLoop { owner: None, has_player: false }
    }

    /// Stops the player without telling the bot: there is no player and no owner
    /// afterwards. Returns whether a player was running.
    pub fn stop_player_silent(&mut self) -> (r: bool)
        ensures
            r == old(self).has_player,
            final(self).owner is None,
            !final(self).has_player,
    {
        let had = self.has_player;
        self.has_player = false;
        self.owner = None;
        had
    }

    /// Stops the player and returns the message that reports the disconnect.
    pub fn stop_player(&mut self) -> (r: (bool, PlayerMessage))
        ensures
            r.0 == old(self).has_player,
            r.1 matches PlayerMessage::Event(PlayerMessageEvent::Disconnected),
            final(self).owner is None,
            !final(self).has_player,
    {
        let had = self.stop_player_silent();
        (had, PlayerMessage::Event(PlayerMessageEvent::Disconnected))
    }

    /// Records the player that was connected for `user_id`.
    pub fn player_created(&mut self, user_id: u64)
        ensures
            final(self).owner == Some(user_id),
            final(self).has_player,
    {
        self.has_player = true;
        self.owner = Some(user_id);
    }

    /// Records how connecting a player for `user_id` went (`Err` with the
    /// reason when it failed) and returns the answer to the bot: `Connected`,
    /// with the player recorded for its owner, or the error, with no player.
    pub fn on_player_created(&mut self, user_id: u64, outcome: Result<(), String>) -> (r: PlayerMessage)
        ensures
            match outcome {
                Ok(()) => r matches PlayerMessage::Response(PlayerMessageResponse::Connected)
                    && final(self).owner == Some(user_id) && final(self).has_player,
                Err(m) => (r matches PlayerMessage::Response(PlayerMessageResponse::Error(e)) && e@ == m@)
                    && final(self).owner is None && !final(self).has_player,
            },
    {
        match outcome {
            Ok(()) => {
                self.player_created(user_id);
                PlayerMessage::Response(PlayerMessageResponse::Connected)
            },
            Err(m) => {
                self.stop_player_silent();
                PlayerMessage::Response(PlayerMessageResponse::Error(m))
            },
        }
    }

    /// Whether the loop goes on after a decision: only a shutdown ends it.
    pub fn keeps_running(decision: &IpcDecision) -> (r: bool)
        ensures
            r == !(decision is Shutdown),
    {
        !matches!(decision, IpcDecision::Shutdown { .. })
    }

    /// Decides what to do with a command from the bot.
    pub fn handle_ipc_command(&mut self, message: BotMessage) -> (r: IpcDecision)
        ensures
            match message {
                BotMessage::SetUser { user_id, device_name, credentials } => (r matches IpcDecision::CreatePlayer { stop_current, user_id: u, device_name: d, credentials: c } && {
                    &&& stop_current == old(self).has_player
                    &&& u == user_id
                    &&& d@ == device_name@
                    &&& c.secret() == credentials.secret()
                }) && final(self).owner is None && !final(self).has_player,
                BotMessage::Initialize { .. } => r is Ignore && *final(self) == *old(self),
                BotMessage::Disconnect => (r matches IpcDecision::StopSilent { stop_current } && stop_current == old(self).has_player)
                    && final(self).owner is None && !final(self).has_player,
                BotMessage::Shutdown => (r matches IpcDecision::Shutdown { stop_current, report } && stop_current == old(self).has_player
                    && report matches PlayerMessage::Event(PlayerMessageEvent::Disconnected))
                    && final(self).owner is None && !final(self).has_player,
                BotMessage::Play => *final(self) == *old(self) && if old(self).has_player {
                    r matches IpcDecision::Forward(PlayerCommand::Play)
                } else {
                    r is Ignore
                },
                BotMessage::Pause => *final(self) == *old(self) && if old(self).has_player {
                    r matches IpcDecision::Forward(PlayerCommand::Pause)
                } else {
                    r is Ignore
                },
                BotMessage::NextTrack => *final(self) == *old(self) && if old(self).has_player {
                    r matches IpcDecision::Forward(PlayerCommand::NextTrack)
                } else {
                    r is Ignore
                },
                BotMessage::PreviousTrack => *final(self) == *old(self) && if old(self).has_player {
                    r matches IpcDecision::Forward(PlayerCommand::PreviousTrack)
                } else {
                    r is Ignore
                },
            },
    {
        match message {
            BotMessage::SetUser { user_id, device_name, credentials } => {
                let stop_current = self.stop_player_silent();
                IpcDecision::CreatePlayer { stop_current, user_id, device_name, credentials }
            },
            BotMessage::Initialize { .. } => IpcDecision::Ignore,
            BotMessage::Disconnect => {
                let stop_current = self.stop_player_silent();
                IpcDecision::StopSilent { stop_current }
            },
            BotMessage::Shutdown => {
                let (stop_current, report) = self.stop_player();
                IpcDecision::Shutdown { stop_current, report }
            },
            BotMessage::Play => if self.has_player {
                IpcDecision::Forward(PlayerCommand::Play)
            } else {
                IpcDecision::Ignore
            },
            BotMessage::Pause => if self.has_player {
                IpcDecision::Forward(PlayerCommand::Pause)
            } else {
                IpcDecision::Ignore
            },
            BotMessage::NextTrack => if self.has_player {
                IpcDecision::Forward(PlayerCommand::NextTrack)
            } else {
                IpcDecision::Ignore
            },
            BotMessage::PreviousTrack => if self.has_player {
                IpcDecision::Forward(PlayerCommand::PreviousTrack)
            } else {
                IpcDecision::Ignore
            },
        }
    }

    /// Decides what to do with a voice call event: the bot leaving ends the
    /// loop; the owner leaving stops the player.
    pub fn handle_call_event(&mut self, event: CallEvent) -> (r: CallDecision)
        ensures
            event is DriverDisconnect ==> r is Exit && final(self).owner == old(self).owner && final(self).has_player == old(self).has_player,
            (event matches CallEvent::ClientDisconnect(user) && old(self).owner == Some(user)) ==> r == (CallDecision::StopPlayer { stop_current: old(self).has_player })
                && final(self).owner is None && !final(self).has_player,
            (event matches CallEvent::ClientDisconnect(user) && old(self).owner != Some(user)) ==> r is Ignore && final(self).owner == old(self).owner && final(self).has_player == old(self).has_player,
    {
        match event {
            CallEvent::DriverDisconnect => CallDecision::Exit,
            CallEvent::ClientDisconnect(user) => {
                if self.owner == Some(user) {
                    let stop_current = self.stop_player_silent();
                    CallDecision::StopPlayer { stop_current }
                } else {
                    CallDecision::Ignore
                }
            },
        }
    }
}

/// What the process reports for an event of its player: a new track as an
/// update with track change; a play state or position change as an update with
/// the current details; a stop or lost connection as a disconnect.
pub fn report_player_event(event: PlayerEvent) -> (r: ReportPlan)
    ensures
        match event {
            PlayerEvent::TrackChanged(info) => r matches ReportPlan::Send(
                PlayerMessage::Event(PlayerMessageEvent::Update { info: i, track_changed: true }),
            ) && i@ == info@,
            PlayerEvent::Play | PlayerEvent::Pause | PlayerEvent::Seeked => r is SendCurrentInfo,
            PlayerEvent::Stopped | PlayerEvent::ConnectionReset => r matches ReportPlan::Send(
                PlayerMessage::Event(PlayerMessageEvent::Disconnected),
            ),
        },
{
    match event {
        PlayerEvent::TrackChanged(info) => ReportPlan::Send(
            PlayerMessage::Event(PlayerMessageEvent::Update { info, track_changed: true }),
        ),
        PlayerEvent::Play | PlayerEvent::Pause | PlayerEvent::Seeked => ReportPlan::SendCurrentInfo,
        PlayerEvent::Stopped | PlayerEvent::ConnectionReset => ReportPlan::Send(
            PlayerMessage::Event(PlayerMessageEvent::Disconnected),
        ),
    }
}

/// How many times connecting the Spotify player is tried again after the first
/// failure.
pub const PLAYER_CONNECT_RETRIES: u32 = 3;

/// The pause before trying again, in milliseconds.
pub const PLAYER_CONNECT_RETRY_DELAY_MS: u64 = 1000;

/// Decides what follows a failed attempt to connect the Spotify player, after
/// `tries` earlier failures: refused credentials (`permission_denied`) end it at
/// once; otherwise it is tried again (`Some` with the new count of failures)
/// until the retries are used up.
pub fn player_connect_retry(tries: u32, permission_denied: bool) -> (r: Option<u32>)
    ensures
        permission_denied ==> r is None,
        !permission_denied && tries >= PLAYER_CONNECT_RETRIES ==> r is None,
        !permission_denied && tries < PLAYER_CONNECT_RETRIES ==> r == Some((tries + 1) as u32),
{
    if permission_denied || tries >= PLAYER_CONNECT_RETRIES {
        None
    } else {
        Some(tries + 1)
    }
}

/// Events of the Spotify player that the process reacts to.
pub enum SpotifyEvent {
    PositionCorrection { position_ms: u32 },
    PositionChanged { position_ms: u32 },
    Seeked { position_ms: u32 },
    Playing { position_ms: u32 },
    Paused { position_ms: u32 },
    Stopped,
    SessionDisconnected,
    /// A new item plays; `lyrics` are its lyrics, where they could be fetched.
    TrackChanged { audio_item: AudioItem, lyrics: Option<Lyrics> },
    Other,
}

/// What to do with the voice call's audio track for an event.
#[derive(Debug, Clone, Copy, PartialEq, Eq, Structural)]
pub enum TrackOp {
    Play,
    Pause,
    Nothing,
}

/// The audio track operation that comes first when an event arrives: resume
/// when Spotify plays, pause when it pauses, stops or disconnects.
pub fn track_op_for(event: &SpotifyEvent) -> (r: TrackOp)
    ensures
        r == match event {
            SpotifyEvent::Playing { .. } => TrackOp::Play,
            SpotifyEvent::Paused { .. } | SpotifyEvent::Stopped | SpotifyEvent::SessionDisconnected => TrackOp::Pause,
            _ => TrackOp::Nothing,
        },
{
    match event {
        SpotifyEvent::Playing { .. } => TrackOp::Play,
        SpotifyEvent::Paused { .. } | SpotifyEvent::Stopped | SpotifyEvent::SessionDisconnected => TrackOp::Pause,
        _ => TrackOp::Nothing,
    }
}

/// What the player does after an event of the Spotify player.
pub struct SpotifyOutcome {
    /// An event to report.
    pub emit: Option<PlayerEvent>,
    /// Whether the player stops taking commands (and so ends).
    pub close: bool,
}

/// The Spotify id of the item an audio item describes (zero when it is neither
/// a track nor an episode); lyrics are looked up by it.
pub fn lyrics_id(item: &AudioItem) -> (r: u128)
    ensures
        r == match item.track_id {
            SpotifyUri::Track { id } => id.id,
            SpotifyUri::Episode { id } => id.id,
            _ => 0u128,
        },
{
    match item.track_id {
        SpotifyUri::Track { id } => id.id,
        SpotifyUri::Episode { id } => id.id,
        _ => 0,
    }
}

/// Whether an audio item can be converted without failing outright (see
/// [`audio_item_convertible`]).
pub fn convertible(item: &AudioItem) -> (r: bool)
    ensures
        r == audio_item_convertible(*item),
{
    let is_track = matches!(item.track_id, SpotifyUri::Track { .. });
    let is_episode = matches!(item.track_id, SpotifyUri::Episode { .. });
    match &item.unique_fields {
        UniqueFields::Track { artists, .. } => !is_track || artists_convertible(artists),
        UniqueFields::Episode { .. } => !is_episode || item.covers.len() > 0,
    }
}

/// Whether an audio item converts into a track or episode.
pub fn converts(item: &AudioItem) -> (r: bool)
    ensures
        r == (spec_track_of(*item) is Some),
{
    match (&item.track_id, &item.unique_fields) {
        (SpotifyUri::Track { .. }, UniqueFields::Track { .. }) => true,
        (SpotifyUri::Episode { .. }, UniqueFields::Episode { .. }) => true,
        _ => false,
    }
}

/// The preconditions of handling an event: a new item can be converted (its
/// artists carry artist URIs and an episode has a cover), and when nothing
/// played before, it converts into a track or episode.
pub open spec fn spotify_event_ok(info: Option<PlayerInfoView>, event: SpotifyEvent) -> bool {
    match event {
        SpotifyEvent::TrackChanged { audio_item, .. } => audio_item_convertible(audio_item)
            && (info is None ==> spec_track_of(audio_item) is Some),
        _ => true,
    }
}

/// The state of the player: what plays.
pub struct PlayerState {
    pub info: Option<PlayerInfo>,
}

impl PlayerState {
    /// Updates what plays after an event of the Spotify player. `track_op_ok`
    /// tells whether the audio track operation (see [`track_op_for`]) succeeded;
    /// a failure to resume is fatal, other failures are only logged.
    ///
    /// Position changes keep the play state; playing and pausing set it; a stop
    /// forgets what played; a lost Spotify session forgets it and ends the
    /// player; a new item replaces the details (with position 0).
    pub fn on_spotify_event(&mut self, event: SpotifyEvent, track_op_ok: bool) -> (r: SpotifyOutcome)
        requires
            spotify_event_ok(info_view(old(self).info), event),
        ensures
            match event {
                SpotifyEvent::PositionCorrection { position_ms } | SpotifyEvent::PositionChanged { position_ms }
                | SpotifyEvent::Seeked { position_ms } => {
                    &&& r.emit matches Some(PlayerEvent::Seeked)
                    &&& !r.close
                    &&& match info_view(old(self).info) {
                        Some(i) => info_view(final(self).info) matches Some(n) && n.track == i.track
                            && n.lyrics == i.lyrics && n.position == position_ms && n.playing == i.playing,
                        None => final(self).info is None,
                    }
                },
                SpotifyEvent::Playing { position_ms } => if !track_op_ok {
                    r.emit is None && r.close && info_view(final(self).info) == info_view(old(self).info)
                } else {
                    &&& r.emit matches Some(PlayerEvent::Play)
                    &&& !r.close
                    &&& match info_view(old(self).info) {
                        Some(i) => info_view(final(self).info) matches Some(n) && n.track == i.track
                            && n.lyrics == i.lyrics && n.position == position_ms && n.playing,
                        None => final(self).info is None,
                    }
                },
                SpotifyEvent::Paused { position_ms } => {
                    &&& r.emit matches Some(PlayerEvent::Pause)
                    &&& !r.close
                    &&& match info_view(old(self).info) {
                        Some(i) => info_view(final(self).info) matches Some(n) && n.track == i.track
                            && n.lyrics == i.lyrics && n.position == position_ms && !n.playing,
                        None => final(self).info is None,
                    }
                },
                SpotifyEvent::Stopped => r.emit matches Some(PlayerEvent::Pause) && !r.close && final(self).info is None,
                SpotifyEvent::SessionDisconnected => r.emit matches Some(PlayerEvent::Stopped) && r.close
                    && final(self).info is None,
                SpotifyEvent::TrackChanged { audio_item, lyrics } => {
                    &&& !r.close
                    &&& info_view(final(self).info) matches Some(n)
                    &&& r.emit matches Some(PlayerEvent::TrackChanged(e)) && e@ == n
                    &&& n.lyrics == lyrics_view(lyrics)
                    &&& n.position == 0
                    &&& n.track == match spec_track_of(audio_item) {
                        Some(t) => t,
                        None => info_view(old(self).info)->0.track,
                    }
                    &&& n.playing == match info_view(old(self).info) {
                        Some(i) => i.playing,
                        None => false,
                    }
                },
                SpotifyEvent::Other => r.emit is None && !r.close && info_view(final(self).info) == info_view(old(self).info),
            },
    {
        match event {
            SpotifyEvent::PositionCorrection { position_ms } | SpotifyEvent::PositionChanged { position_ms }
            | SpotifyEvent::Seeked { position_ms } => {
                if let Some(info) = &mut self.info {
                    let playing = info.playing();
                    info.update_playback(position_ms, playing);
                }
                SpotifyOutcome { emit: Some(PlayerEvent::Seeked), close: false }
            },
            SpotifyEvent::Playing { position_ms } => {
                if !track_op_ok {
                    return SpotifyOutcome { emit: None, close: true };
                }
                if let Some(info) = &mut self.info {
                    info.update_playback(position_ms, true);
                }
                SpotifyOutcome { emit: Some(PlayerEvent::Play), close: false }
            },
            SpotifyEvent::Paused { position_ms } => {
                if let Some(info) = &mut self.info {
                    info.update_playback(position_ms, false);
                }
                SpotifyOutcome { emit: Some(PlayerEvent::Pause), close: false }
            },
            SpotifyEvent::Stopped => {
                self.info = None;
                SpotifyOutcome { emit: Some(PlayerEvent::Pause), close: false }
            },
            SpotifyEvent::SessionDisconnected => {
                self.info = None;
                SpotifyOutcome { emit: Some(PlayerEvent::Stopped), close: true }
            },
            SpotifyEvent::TrackChanged { audio_item, lyrics } => {
                let new_info = match self.info.take() {
                    Some(mut info) => {
                        info.update_track(audio_item, lyrics);
                        let playing = info.playing();
                        info.update_playback(0, playing);
                        info
                    },
                    None => match PlayerInfo::new(audio_item, lyrics, 0, false) {
                        Some(info) => info,
                        None => {
                            proof {
                                assert(false);
                            }
                            return SpotifyOutcome { emit: None, close: false };
                        },
                    },
                };
                let reported = new_info.clone();
                self.info = Some(new_info);
                SpotifyOutcome { emit: Some(PlayerEvent::TrackChanged(Box::new(reported))), close: false }
            },
            SpotifyEvent::Other => SpotifyOutcome { emit: None, close: false },
        }
    }
}

} // verus!
