use spoticord::session::playback_embed::{
    build_buttons, build_embed, handle_press, ButtonStyle, Command, CreatePlan, PlaybackEmbed,
    PressOutcome, UpdateAction, UpdateBehavior, UpdateDecision, UPDATE_INTERVAL_MS,
};
use spoticord::session::SessionPlayerCommand;
use spoticord::shared::player_info::{ArtistItem, AudioItem, PlayerInfo, SpotifyIdDef, SpotifyUri, UniqueFields};

fn followed(now: u64) -> PlaybackEmbed {
    match PlaybackEmbed::create(true, true, 42, UpdateBehavior::Default, now) {
        CreatePlan::Follow(e) => e,
        other => panic!("expected a followed message, got {:?}", other),
    }
}

#[test]
fn update_behavior_flags() {
    assert_eq!(UpdateBehavior::default(), UpdateBehavior::Default);
    assert!(UpdateBehavior::Static.is_static());
    assert!(!UpdateBehavior::Static.is_pinned());
    assert!(UpdateBehavior::Pinned.is_pinned());
    assert!(!UpdateBehavior::Default.is_static() && !UpdateBehavior::Default.is_pinned());
}

#[test]
fn creation_depends_on_session_and_behavior() {
    assert!(matches!(PlaybackEmbed::create(false, true, 1, UpdateBehavior::Default, 0), CreatePlan::NotPlaying));
    assert!(matches!(PlaybackEmbed::create(true, false, 1, UpdateBehavior::Pinned, 0), CreatePlan::NotPlaying));
    assert!(matches!(PlaybackEmbed::create(true, true, 1, UpdateBehavior::Static, 0), CreatePlan::Static));
    let e = followed(500);
    assert_eq!(e.id, 42);
    assert_eq!(e.last_update, 500);
    assert_eq!(e.update_in, None);
    assert!(!e.force_edit);
}

#[test]
fn redraws_are_throttled() {
    let mut e = followed(1_000);
    assert_eq!(e.handle_command(Command::InvokeUpdate(true), 1_500), UpdateDecision::Later);
    assert_eq!(e.update_in, Some(UPDATE_INTERVAL_MS - 500));
    assert!(e.force_edit);
    assert_eq!(e.scheduled_at(), 3_000);
    // A second request inside the interval waits for the scheduled one.
    assert_eq!(e.handle_command(Command::InvokeUpdate(false), 1_600), UpdateDecision::Later);
    assert_eq!(e.update_in, Some(1_500));
    assert!(e.force_edit);
    // The scheduled redraw is not taken before it is due.
    assert_eq!(e.take_scheduled(2_999), None);
    assert_eq!(e.take_scheduled(3_000), Some(true));
    assert_eq!(e.update_in, None);
    assert_eq!(e.last_update, 3_000);
    assert_eq!(e.take_scheduled(3_000), None);
    // The redraw time was recorded: the next request is held back again.
    assert_eq!(e.handle_command(Command::InvokeUpdate(false), 4_000), UpdateDecision::Later);
    assert_eq!(e.update_in, Some(1_000));
    // Once the interval has passed the redraw happens at once and drops the schedule.
    assert_eq!(e.handle_command(Command::InvokeUpdate(false), 5_000), UpdateDecision::Now(false));
    assert_eq!(e.update_in, None);
    assert_eq!(e.last_update, 5_000);
    // Two requests at the same instant do not both redraw.
    assert_eq!(e.handle_command(Command::InvokeUpdate(true), 5_000), UpdateDecision::Later);
}

#[test]
fn redraw_actions() {
    let mut e = followed(0);
    assert_eq!(e.update_action(false, true, true, false), UpdateAction::ShowNotPlaying { resend: false });
    assert_eq!(e.update_action(true, false, true, true), UpdateAction::ShowNotPlaying { resend: false });
    assert_eq!(e.update_action(true, true, false, false), UpdateAction::Stop);
    assert_eq!(e.update_action(true, true, true, false), UpdateAction::Edit);
    e.update_behavior = UpdateBehavior::Pinned;
    assert_eq!(e.update_action(false, false, true, false), UpdateAction::ShowNotPlaying { resend: true });
    assert_eq!(e.update_action(true, true, true, false), UpdateAction::Resend);
    assert_eq!(e.update_action(true, true, true, true), UpdateAction::Edit);
}

#[test]
fn only_pinned_messages_are_sent_anew() {
    let mut e = followed(0);
    assert!(!e.should_pin(false));
    e.update_behavior = UpdateBehavior::Pinned;
    assert!(e.should_pin(false));
    assert!(!e.should_pin(true));
}

#[test]
fn buttons_follow_the_play_state() {
    let b = build_buttons(42, true);
    assert_eq!(b.len(), 3);
    assert_eq!((b[0].id.as_str(), b[0].label.as_str(), b[0].style), ("42-prev", "<<", ButtonStyle::Primary));
    assert_eq!((b[1].id.as_str(), b[1].label.as_str(), b[1].style), ("42-pause", "Pause", ButtonStyle::Danger));
    assert_eq!((b[2].id.as_str(), b[2].label.as_str(), b[2].style), ("42-next", ">>", ButtonStyle::Primary));
    let b = build_buttons(7, false);
    assert_eq!((b[1].id.as_str(), b[1].label.as_str(), b[1].style), ("7-pause", "Play", ButtonStyle::Success));
}

#[test]
fn presses_are_answered() {
    assert_eq!(handle_press("42-next", None, true), PressOutcome::NotPlaying);
    assert_eq!(handle_press("42-next", Some(true), false), PressOutcome::NotHost);
    assert_eq!(handle_press("42-next", Some(true), true), PressOutcome::Act(Some(SessionPlayerCommand::NextTrack)));
    assert_eq!(handle_press("42-prev", Some(false), true), PressOutcome::Act(Some(SessionPlayerCommand::PreviousTrack)));
    assert_eq!(handle_press("42-pause", Some(true), true), PressOutcome::Act(Some(SessionPlayerCommand::Pause)));
    assert_eq!(handle_press("42-pause", Some(false), true), PressOutcome::Act(Some(SessionPlayerCommand::Play)));
    assert_eq!(handle_press("42-stop", Some(false), true), PressOutcome::Act(None));
}

#[test]
fn track_embed_text() {
    let item = AudioItem {
        track_id: SpotifyUri::Track { id: SpotifyIdDef { id: 1 } },
        name: "Song".to_string(),
        covers: vec!["https://img/a".to_string()],
        duration_ms: 200_000,
        unique_fields: UniqueFields::Track {
            artists: vec![
                ArtistItem { name: "A".to_string(), id: SpotifyUri::Artist { id: SpotifyIdDef { id: 2 } } },
                ArtistItem { name: "B".to_string(), id: SpotifyUri::Artist { id: SpotifyIdDef { id: 62 } } },
            ],
            album: "Album".to_string(),
        },
    };
    let info = PlayerInfo::new(item, None, 0, true).unwrap();
    let e = build_embed(&info, 100_000);
    let expected = "## [Song](https://open.spotify.com/track/0000000000000000000001)\n\
By [A](https://open.spotify.com/artist/0000000000000000000002), [B](https://open.spotify.com/artist/0000000000000000000010)\n\
Album: **Album**\n\
\n\
▶️ ▬▬▬▬▬▬▬▬▬▬🔵▬▬▬▬▬▬▬▬▬\n\
:alarm_clock: 1m40s / 3m20s";
    assert_eq!(e.description, expected);
    assert_eq!(e.thumbnail, Some("https://img/a".to_string()));
}

#[test]
fn episode_embed_text() {
    let item = AudioItem {
        track_id: SpotifyUri::Episode { id: SpotifyIdDef { id: 3 } },
        name: "Ep".to_string(),
        covers: vec!["https://img/ep".to_string()],
        duration_ms: 7_200_000,
        unique_fields: UniqueFields::Episode { show_name: "Show".to_string() },
    };
    let mut info = PlayerInfo::new(item, None, 0, true).unwrap();
    info.update_playback(0, false);
    let e = build_embed(&info, 0);
    let expected = "## [Ep](https://open.spotify.com/episode/0000000000000000000003)\n\
On Show\n\
\n\
⏸️ 🔵▬▬▬▬▬▬▬▬▬▬▬▬▬▬▬▬▬▬▬\n\
:alarm_clock: 0s / 2h0m0s";
    assert_eq!(e.description, expected);
    assert_eq!(e.thumbnail, Some("https://img/ep".to_string()));
}
