use spoticord::ipc::packet::{BotMessage, PlayerMessageEvent, PlayerMessageResponse};
use spoticord::session::error::{IpcError, SessionError};
use spoticord::session::manager::SessionManager;
use spoticord::session::{
    check_response, init_timeout_secs, session_continues, CommandOutcome, ExpectedResponse, PlayerSetupError, Session,
    SessionPlayerCommand, INACTIVITY_TIMEOUT_MS,
};
use spoticord::shared::player_info::{AudioItem, PlayerInfo, SpotifyIdDef, SpotifyUri, UniqueFields};

fn episode_info() -> PlayerInfo {
    let item = AudioItem {
        track_id: SpotifyUri::Episode { id: SpotifyIdDef { id: 5 } },
        name: "Episode".to_string(),
        covers: vec!["https://img/ep".to_string()],
        duration_ms: 60_000,
        unique_fields: UniqueFields::Episode { show_name: "Show".to_string() },
    };
    PlayerInfo::new(item, None, 0, true).unwrap()
}

fn registry_with(session: &Session) -> SessionManager<u64> {
    let mut m = SessionManager::new();
    m.insert_session(session.guild_id, session.guild_id);
    m.assign_owner(session.guild_id, session.owner_id);
    m
}

#[test]
fn commands_map_to_player_messages() {
    assert!(matches!(SessionPlayerCommand::Play.to_message(), BotMessage::Play));
    assert!(matches!(SessionPlayerCommand::Pause.to_message(), BotMessage::Pause));
    assert!(matches!(SessionPlayerCommand::NextTrack.to_message(), BotMessage::NextTrack));
    assert!(matches!(SessionPlayerCommand::PreviousTrack.to_message(), BotMessage::PreviousTrack));
}

#[test]
fn setup_answers_are_checked() {
    assert_eq!(check_response(Some(PlayerMessageResponse::Ready), ExpectedResponse::Ready), Ok(()));
    assert_eq!(check_response(Some(PlayerMessageResponse::Connected), ExpectedResponse::Connected), Ok(()));
    assert_eq!(
        check_response(Some(PlayerMessageResponse::Connected), ExpectedResponse::Ready),
        Err(PlayerSetupError::PlayerError("Unknown response from player during intialization".to_string()))
    );
    assert_eq!(
        check_response(Some(PlayerMessageResponse::Error("bad login".to_string())), ExpectedResponse::Connected),
        Err(PlayerSetupError::PlayerError("bad login".to_string()))
    );
    assert_eq!(check_response(None, ExpectedResponse::Ready), Err(PlayerSetupError::ConnectionDied));
}

#[test]
fn setup_timeout_depends_on_build() {
    assert_eq!(init_timeout_secs(true), 120);
    assert_eq!(init_timeout_secs(false), 5);
}

#[test]
fn fatal_errors_end_the_session() {
    assert!(SessionError::Io("broken pipe".to_string()).is_fatal());
    assert!(SessionError::PlayerError("crash".to_string()).is_fatal());
    assert!(!SessionError::AlreadyActive.is_fatal());
    assert!(!SessionError::InvalidChannel.is_fatal());
    assert!(!SessionError::Ipc(IpcError::Timeout).is_fatal());
}

#[test]
fn setup_errors_become_session_errors() {
    assert_eq!(
        SessionError::from_setup(PlayerSetupError::ConnectionDied),
        SessionError::Ipc(IpcError::Io("ipc connection died".to_string()))
    );
    assert_eq!(
        SessionError::from_setup(PlayerSetupError::PlayerError("x".to_string())),
        SessionError::PlayerError("x".to_string())
    );
}

#[test]
fn new_session_is_active() {
    let s = Session::new(1, 2, 3, 4);
    assert_eq!((s.guild_id, s.voice_channel_id, s.text_channel_id, s.owner_id), (1, 2, 3, 4));
    assert!(s.active);
    assert_eq!(s.timeout, None);
    assert!(s.player_info.is_none());
    assert!(!s.begin_reactivate());
    assert!(!s.timed_out(u64::MAX));
}

#[test]
fn deactivation_starts_the_timer_and_frees_the_owner() {
    let mut s = Session::new(10, 2, 3, 7);
    let mut m = registry_with(&s);
    let msg = s.deactivate(1_000, &mut m);
    assert!(matches!(msg, BotMessage::Disconnect));
    assert!(!s.active);
    assert_eq!(s.timeout, Some(1_000 + INACTIVITY_TIMEOUT_MS));
    assert!(m.get_owner_guilds(7).is_empty());
    assert_eq!(m.get_session(10), Some(&10));
    assert!(s.begin_reactivate());
    assert!(!s.timed_out(1_000 + INACTIVITY_TIMEOUT_MS - 1));
    assert!(s.timed_out(1_000 + INACTIVITY_TIMEOUT_MS));
}

#[test]
fn reactivation_hands_the_session_over() {
    let mut s = Session::new(10, 2, 3, 7);
    let mut m = registry_with(&s);
    s.deactivate(0, &mut m);
    s.finish_reactivate(8, &mut m);
    assert!(s.active);
    assert_eq!(s.owner_id, 8);
    assert_eq!(s.timeout, None);
    assert_eq!(m.get_owner_guilds(8), vec![10]);
    assert!(m.get_owner_guilds(7).is_empty());
}

#[test]
fn shutdown_leaves_the_registry() {
    let s = Session::new(10, 2, 3, 7);
    let mut m = registry_with(&s);
    assert!(matches!(s.shutdown(&mut m), BotMessage::Shutdown));
    assert!(m.get_session(10).is_none());
    assert!(m.get_owner_guilds(7).is_empty());
}

#[test]
fn player_events_drive_the_session() {
    let mut s = Session::new(10, 2, 3, 7);
    let mut m = registry_with(&s);

    let out = s.on_player_event(
        PlayerMessageEvent::Update { info: Box::new(episode_info()), track_changed: true },
        0,
        &mut m,
    );
    assert!(out.keep_running && out.send.is_none() && !out.force_edit);
    assert!(s.player_info.as_ref().unwrap().is_episode());

    let out = s.on_player_event(
        PlayerMessageEvent::Update { info: Box::new(episode_info()), track_changed: false },
        0,
        &mut m,
    );
    assert!(out.force_edit);

    let out = s.on_player_event(PlayerMessageEvent::Error("oops".to_string()), 0, &mut m);
    assert!(out.keep_running && out.send.is_none() && out.force_edit);
    assert!(s.player_info.is_some());

    let out = s.on_player_event(PlayerMessageEvent::Disconnected, 50, &mut m);
    assert!(out.keep_running && matches!(out.send, Some(BotMessage::Disconnect)));
    assert!(!s.active && s.player_info.is_none());
    assert_eq!(s.timeout, Some(50 + INACTIVITY_TIMEOUT_MS));
    assert!(m.get_owner_guilds(7).is_empty());

    let out = s.on_player_event(PlayerMessageEvent::Shutdown, 60, &mut m);
    assert!(!out.keep_running && out.send.is_none());
}

#[test]
fn sessions_stop_only_for_the_right_outcomes() {
    assert!(!session_continues(CommandOutcome::ShutdownRequested));
    assert!(session_continues(CommandOutcome::Handled));
    assert!(session_continues(CommandOutcome::PlayerCommand { delivered: true }));
    assert!(!session_continues(CommandOutcome::PlayerCommand { delivered: false }));
    assert!(session_continues(CommandOutcome::Reactivation { fatal_error: false }));
    assert!(!session_continues(CommandOutcome::Reactivation { fatal_error: true }));
}
