use spoticord::ipc::packet::{BotMessage, PlayerMessage, PlayerMessageEvent, PlayerMessageResponse, SecretString};
use spoticord::player::{
    converts, convertible, lyrics_id, player_connect_retry, report_player_event, track_op_for, CallDecision, CallEvent, EventLoop,
    IpcDecision, PlayerCommand, PlayerEvent, PlayerState, ReportPlan, SpotifyEvent, TrackOp,
};
use spoticord::shared::player_info::{AudioItem, PlayerInfo, SpotifyIdDef, SpotifyUri, UniqueFields};

fn episode(n: u128) -> AudioItem {
    AudioItem {
        track_id: SpotifyUri::Episode { id: SpotifyIdDef { id: n } },
        name: "Ep".to_string(),
        covers: vec!["https://img/ep".to_string()],
        duration_ms: 60_000,
        unique_fields: UniqueFields::Episode { show_name: "Show".to_string() },
    }
}

fn mismatched(n: u128) -> AudioItem {
    AudioItem {
        track_id: SpotifyUri::Track { id: SpotifyIdDef { id: n } },
        name: "Odd".to_string(),
        covers: vec![],
        duration_ms: 1,
        unique_fields: UniqueFields::Episode { show_name: "Show".to_string() },
    }
}

#[test]
fn set_user_replaces_the_player() {
    let mut l = EventLoop::new();
    assert_eq!(l, EventLoop { owner: None, has_player: false });
    let d = l.handle_ipc_command(BotMessage::SetUser {
        user_id: 9,
        device_name: "Spoticord".to_string(),
        credentials: SecretString::from("tok".to_string()),
    });
    match d {
        IpcDecision::CreatePlayer { stop_current, user_id, device_name, credentials } => {
            assert!(!stop_current);
            assert_eq!(user_id, 9);
            assert_eq!(device_name, "Spoticord");
            assert_eq!(credentials.expose(), "tok");
        }
        _ => panic!("expected a new player"),
    }
    l.player_created(9);
    assert_eq!(l, EventLoop { owner: Some(9), has_player: true });
    let d = l.handle_ipc_command(BotMessage::SetUser {
        user_id: 10,
        device_name: "d".to_string(),
        credentials: SecretString::from("t".to_string()),
    });
    assert!(matches!(d, IpcDecision::CreatePlayer { stop_current: true, user_id: 10, .. }));
    assert_eq!(l, EventLoop { owner: None, has_player: false });
}

#[test]
fn playback_commands_need_a_player() {
    let mut l = EventLoop::new();
    assert!(matches!(l.handle_ipc_command(BotMessage::Play), IpcDecision::Ignore));
    l.player_created(1);
    assert!(matches!(l.handle_ipc_command(BotMessage::Play), IpcDecision::Forward(PlayerCommand::Play)));
    assert!(matches!(l.handle_ipc_command(BotMessage::Pause), IpcDecision::Forward(PlayerCommand::Pause)));
    assert!(matches!(l.handle_ipc_command(BotMessage::NextTrack), IpcDecision::Forward(PlayerCommand::NextTrack)));
    assert!(matches!(
        l.handle_ipc_command(BotMessage::PreviousTrack),
        IpcDecision::Forward(PlayerCommand::PreviousTrack)
    ));
    let init = BotMessage::Initialize {
        guild_id: 1,
        channel_id: 2,
        endpoint: "e".to_string(),
        token: "t".to_string(),
        session_id: "s".to_string(),
        user_id: 3,
    };
    assert!(matches!(l.handle_ipc_command(init), IpcDecision::Ignore));
    assert!(l.has_player);
    assert!(matches!(l.handle_ipc_command(BotMessage::Disconnect), IpcDecision::StopSilent { stop_current: true }));
    assert!(!l.has_player);
    assert!(matches!(l.handle_ipc_command(BotMessage::Shutdown), IpcDecision::Shutdown { stop_current: false, report: PlayerMessage::Event(PlayerMessageEvent::Disconnected) }));
}

#[test]
fn call_events() {
    let mut l = EventLoop::new();
    l.player_created(5);
    assert_eq!(l.handle_call_event(CallEvent::ClientDisconnect(6)), CallDecision::Ignore);
    assert!(l.has_player);
    assert_eq!(l.handle_call_event(CallEvent::ClientDisconnect(5)), CallDecision::StopPlayer { stop_current: true });
    assert_eq!(l, EventLoop { owner: None, has_player: false });
    assert_eq!(l.handle_call_event(CallEvent::DriverDisconnect), CallDecision::Exit);
    let (had, msg) = l.stop_player();
    assert!(!had);
    assert!(matches!(msg, PlayerMessage::Event(PlayerMessageEvent::Disconnected)));
}

#[test]
fn player_events_are_reported() {
    let info = PlayerInfo::new(episode(4), None, 0, true).unwrap();
    match report_player_event(PlayerEvent::TrackChanged(Box::new(info))) {
        ReportPlan::Send(PlayerMessage::Event(PlayerMessageEvent::Update { info, track_changed })) => {
            assert!(track_changed);
            assert!(info.is_episode());
        }
        _ => panic!("expected an update"),
    }
    assert!(matches!(report_player_event(PlayerEvent::Play), ReportPlan::SendCurrentInfo));
    assert!(matches!(report_player_event(PlayerEvent::Seeked), ReportPlan::SendCurrentInfo));
    assert!(matches!(
        report_player_event(PlayerEvent::Stopped),
        ReportPlan::Send(PlayerMessage::Event(PlayerMessageEvent::Disconnected))
    ));
    assert!(matches!(
        report_player_event(PlayerEvent::ConnectionReset),
        ReportPlan::Send(PlayerMessage::Event(PlayerMessageEvent::Disconnected))
    ));
}

#[test]
fn track_operations() {
    assert_eq!(track_op_for(&SpotifyEvent::Playing { position_ms: 0 }), TrackOp::Play);
    assert_eq!(track_op_for(&SpotifyEvent::Paused { position_ms: 0 }), TrackOp::Pause);
    assert_eq!(track_op_for(&SpotifyEvent::Stopped), TrackOp::Pause);
    assert_eq!(track_op_for(&SpotifyEvent::SessionDisconnected), TrackOp::Pause);
    assert_eq!(track_op_for(&SpotifyEvent::Seeked { position_ms: 3 }), TrackOp::Nothing);
    assert_eq!(track_op_for(&SpotifyEvent::Other), TrackOp::Nothing);
}

#[test]
fn item_ids_and_conversion() {
    assert_eq!(lyrics_id(&episode(77)), 77);
    assert_eq!(lyrics_id(&mismatched(5)), 5);
    let other = AudioItem { track_id: SpotifyUri::Other, ..episode(1) };
    assert_eq!(lyrics_id(&other), 0);
    assert!(converts(&episode(1)));
    assert!(!converts(&mismatched(1)));
}

#[test]
fn spotify_events_update_the_state() {
    let mut s = PlayerState { info: None };
    let out = s.on_spotify_event(SpotifyEvent::Seeked { position_ms: 10 }, true);
    assert!(matches!(out.emit, Some(PlayerEvent::Seeked)) && !out.close);
    assert!(s.info.is_none());

    let out = s.on_spotify_event(SpotifyEvent::TrackChanged { audio_item: episode(3), lyrics: None }, true);
    assert!(!out.close);
    assert!(matches!(out.emit, Some(PlayerEvent::TrackChanged(_))));
    let info = s.info.as_ref().unwrap();
    assert!(info.is_episode() && !info.playing());

    let out = s.on_spotify_event(SpotifyEvent::Playing { position_ms: 500 }, true);
    assert!(matches!(out.emit, Some(PlayerEvent::Play)) && !out.close);
    assert!(s.info.as_ref().unwrap().playing());

    // A new item that does not convert keeps the old details, from position 0.
    let out = s.on_spotify_event(SpotifyEvent::TrackChanged { audio_item: mismatched(8), lyrics: None }, true);
    assert!(matches!(out.emit, Some(PlayerEvent::TrackChanged(_))));
    let info = s.info.as_ref().unwrap();
    assert!(info.is_episode() && info.playing());
    assert_eq!(info.track().track_id(), SpotifyIdDef { id: 3 });

    let out = s.on_spotify_event(SpotifyEvent::Paused { position_ms: 700 }, true);
    assert!(matches!(out.emit, Some(PlayerEvent::Pause)));
    assert!(!s.info.as_ref().unwrap().playing());

    let out = s.on_spotify_event(SpotifyEvent::Playing { position_ms: 900 }, false);
    assert!(out.emit.is_none() && out.close);
    assert!(!s.info.as_ref().unwrap().playing());

    let out = s.on_spotify_event(SpotifyEvent::Other, true);
    assert!(out.emit.is_none() && !out.close);

    let out = s.on_spotify_event(SpotifyEvent::Stopped, true);
    assert!(matches!(out.emit, Some(PlayerEvent::Pause)) && !out.close);
    assert!(s.info.is_none());

    let out = s.on_spotify_event(SpotifyEvent::SessionDisconnected, true);
    assert!(matches!(out.emit, Some(PlayerEvent::Stopped)) && out.close);
}

#[test]
fn player_connection_is_retried_unless_refused() {
    assert_eq!(player_connect_retry(0, true), None);
    assert_eq!(player_connect_retry(0, false), Some(1));
    assert_eq!(player_connect_retry(2, false), Some(3));
    assert_eq!(player_connect_retry(3, false), None);
}

#[test]
fn convertibility_is_checked() {
    assert!(convertible(&episode(1)));
    assert!(!convertible(&AudioItem { covers: vec![], ..episode(1) }));
    assert!(convertible(&mismatched(1)));
    let track = AudioItem {
        track_id: SpotifyUri::Track { id: SpotifyIdDef { id: 1 } },
        name: "T".to_string(),
        covers: vec![],
        duration_ms: 1,
        unique_fields: UniqueFields::Track {
            artists: vec![spoticord::shared::player_info::ArtistItem {
                name: "A".to_string(),
                id: SpotifyUri::Track { id: SpotifyIdDef { id: 2 } },
            }],
            album: "B".to_string(),
        },
    };
    assert!(!convertible(&track));
}

fn credit(name: &str, id: SpotifyUri) -> spoticord::shared::player_info::ArtistItem {
    spoticord::shared::player_info::ArtistItem { name: name.to_string(), id }
}

fn track_with(artists: Vec<spoticord::shared::player_info::ArtistItem>) -> AudioItem {
    AudioItem {
        track_id: SpotifyUri::Track { id: SpotifyIdDef { id: 1 } },
        name: "T".to_string(),
        covers: vec![],
        duration_ms: 1,
        unique_fields: UniqueFields::Track { artists, album: "B".to_string() },
    }
}

#[test]
fn repeated_credits_of_another_kind_are_left_out() {
    // A later credit with an id already seen is dropped, whatever its kind.
    let item = track_with(vec![
        credit("A", SpotifyUri::Artist { id: SpotifyIdDef { id: 2 } }),
        credit("again", SpotifyUri::Track { id: SpotifyIdDef { id: 2 } }),
    ]);
    assert!(convertible(&item));
    let info = PlayerInfo::new(item, None, 0, false).unwrap();
    let artists = info.track().artists().unwrap();
    assert_eq!(artists.len(), 1);
    assert_eq!(artists[0].name, "A");
    // A credit whose URI has no known id does not convert.
    assert!(!convertible(&track_with(vec![credit("X", SpotifyUri::Other)])));
}

#[test]
fn player_creation_is_answered() {
    let mut l = EventLoop::new();
    let m = l.on_player_created(4, Ok(()));
    assert!(matches!(m, PlayerMessage::Response(PlayerMessageResponse::Connected)));
    assert_eq!(l, EventLoop { owner: Some(4), has_player: true });
    let m = l.on_player_created(5, Err("bad credentials".to_string()));
    match m {
        PlayerMessage::Response(PlayerMessageResponse::Error(e)) => assert_eq!(e, "bad credentials"),
        _ => panic!("expected an error answer"),
    }
    assert_eq!(l, EventLoop { owner: None, has_player: false });
    assert!(EventLoop::keeps_running(&IpcDecision::Ignore));
    let d = l.handle_ipc_command(BotMessage::Shutdown);
    assert!(!EventLoop::keeps_running(&d));
}
