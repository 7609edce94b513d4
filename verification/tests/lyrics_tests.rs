use spoticord::session::lyrics_embed::{
    into_pages, lines_fit_check, lyrics_buttons, lyrics_drawable_check, lyrics_pageable_check, lyrics_embed, lyrics_length, page_at_position, page_count, LyricsEmbed,
    TickOutcome, PAGE_LENGTH,
};
use spoticord::shared::lyrics::{Line, Lyrics, SyncType};
use spoticord::shared::player_info::{ArtistItem, AudioItem, PlayerInfo, SpotifyIdDef, SpotifyUri, UniqueFields};

fn line(start: &str, words: &str) -> Line {
    Line { start_time_ms: start.to_string(), end_time_ms: "0".to_string(), words: words.to_string() }
}

fn lyrics(lines: Vec<Line>, sync_type: SyncType) -> Lyrics {
    Lyrics {
        is_dense_typeface: false,
        is_rtl_language: false,
        language: "en".to_string(),
        lines,
        provider: "musixmatch".to_string(),
        provider_display_name: "Musixmatch".to_string(),
        provider_lyrics_id: "42".to_string(),
        sync_lyrics_uri: String::new(),
        sync_type,
    }
}

fn info(track: u128, lyrics: Option<Lyrics>, artists: Vec<(&str, u128)>) -> PlayerInfo {
    let item = AudioItem {
        track_id: SpotifyUri::Track { id: SpotifyIdDef { id: track } },
        name: "Song".to_string(),
        covers: vec![],
        duration_ms: 200_000,
        unique_fields: UniqueFields::Track {
            artists: artists
                .into_iter()
                .map(|(n, i)| ArtistItem { name: n.to_string(), id: SpotifyUri::Artist { id: SpotifyIdDef { id: i } } })
                .collect(),
            album: "Album".to_string(),
        },
    };
    PlayerInfo::new(item, lyrics, 0, true).unwrap()
}

fn episode_info() -> PlayerInfo {
    let item = AudioItem {
        track_id: SpotifyUri::Episode { id: SpotifyIdDef { id: 9 } },
        name: "Ep".to_string(),
        covers: vec!["c".to_string()],
        duration_ms: 1000,
        unique_fields: UniqueFields::Episode { show_name: "Show".to_string() },
    };
    PlayerInfo::new(item, None, 0, true).unwrap()
}

fn words(n: usize) -> String {
    "x".repeat(n)
}

#[test]
fn pages_group_lines_up_to_page_length() {
    let lines = vec![line("0", &words(1000)), line("1", &words(1500)), line("2", &words(600)), line("3", &words(10))];
    let pages = into_pages(&lines);
    assert_eq!(pages.len(), 2);
    assert_eq!(pages[0].len(), 2);
    assert_eq!(pages[1].len(), 2);
    // Reading the pages one after the other gives the lines back.
    let flat: Vec<Line> = pages.concat();
    assert_eq!(flat, lines);
}

#[test]
fn exactly_full_page_stays_together() {
    let lines = vec![line("0", &words(1500)), line("1", &words(1500)), line("2", "a")];
    let pages = into_pages(&lines);
    assert_eq!(pages.iter().map(|p| p.len()).collect::<Vec<_>>(), vec![2, 1]);
}

#[test]
fn long_first_line_leaves_an_empty_first_page() {
    let lines = vec![line("0", &words(PAGE_LENGTH + 1)), line("1", "a")];
    let pages = into_pages(&lines);
    assert_eq!(pages.len(), 3);
    assert!(pages[0].is_empty());
    assert_eq!(pages[1].len(), 1);
    assert_eq!(pages[2].len(), 1);
}

#[test]
fn no_lines_give_one_empty_page() {
    let pages = into_pages(&vec![]);
    assert_eq!(pages.len(), 1);
    assert!(pages[0].is_empty());
}

#[test]
fn lengths_count_bytes() {
    let lines = vec![line("0", "♪♪"), line("0", "abc")];
    assert_eq!(lyrics_length(&lines), 9);
    assert!(lines_fit_check(&lines));
    assert_eq!(page_count(&lines), 1);
    assert_eq!(page_count(&vec![line("0", &words(3000))]), 1);
    assert_eq!(page_count(&vec![line("0", &words(3001))]), 2);
    assert_eq!(page_count(&vec![]), 0);
}

#[test]
fn page_follows_position() {
    let l = lyrics(
        vec![
            line("10000", &words(2000)),
            line("20000", &words(900)),
            line("30000", &words(2000)),
            line("40000", &words(900)),
        ],
        SyncType::LineSynced,
    );
    // Pages: [10000, 20000] and [30000, 40000]; pages start a second early.
    assert_eq!(page_at_position(&l, 0), Some(0));
    assert_eq!(page_at_position(&l, 9000), Some(0));
    assert_eq!(page_at_position(&l, 15000), Some(0));
    assert_eq!(page_at_position(&l, 25000), Some(0));
    assert_eq!(page_at_position(&l, 29000), Some(1));
    assert_eq!(page_at_position(&l, 35000), Some(1));
    assert_eq!(page_at_position(&l, 90000), Some(1));
}

#[test]
fn unparsable_start_time_gives_no_page() {
    let l = lyrics(vec![line("soon", "a")], SyncType::LineSynced);
    assert_eq!(page_at_position(&l, 0), None);
    let l = lyrics(vec![line("500", "a")], SyncType::LineSynced);
    assert_eq!(page_at_position(&l, 0), Some(0));
}

#[test]
fn buttons_page_through_unsynced_lyrics_only() {
    let unsynced = Some(lyrics(vec![line("0", &words(2500)), line("0", &words(2500))], SyncType::Unsynced));
    let b = lyrics_buttons("123", &unsynced, 0);
    assert_eq!(b.prev_id, "lyrics:prev:123");
    assert_eq!((b.prev_label.as_str(), b.next_label.as_str()), ("<", ">"));
    assert_eq!(b.next_id, "lyrics:next:123");
    assert!(!b.can_prev);
    assert!(b.can_next);
    let b = lyrics_buttons("123", &unsynced, 1);
    assert!(b.can_prev);
    assert!(!b.can_next);
    let synced = Some(lyrics(vec![line("0", "a")], SyncType::LineSynced));
    let b = lyrics_buttons("123", &synced, 0);
    assert!(!b.can_prev && !b.can_next);
    let b = lyrics_buttons("123", &None, 3);
    assert!(!b.can_prev && !b.can_next);
}

#[test]
fn lyrics_message_text() {
    let l = Some(lyrics(vec![line("0", "first ♪"), line("0", "second")], SyncType::LineSynced));
    let i = info(1, None, vec![("A", 1), ("B", 2)]);
    let content = lyrics_embed(&l, &i, 0);
    assert_eq!(content.title, "Song - A, B");
    assert_eq!(content.description, "first \n♪\n\nsecond");
    assert_eq!(content.footer.as_deref(), Some("Lyrics provided by Musixmatch | Synced to song"));

    let l = Some(lyrics(vec![line("0", "only")], SyncType::Unsynced));
    let content = lyrics_embed(&l, &i, 0);
    assert_eq!(content.footer.as_deref(), Some("Lyrics provided by Musixmatch"));
    // A page beyond the lyrics' length falls back to the first.
    assert_eq!(lyrics_embed(&l, &i, 5).description, "only");
}

#[test]
fn no_lyrics_message() {
    let i = info(1, None, vec![]);
    let content = lyrics_embed(&None, &i, 0);
    assert_eq!(content.title, "No lyrics available");
    assert_eq!(content.description, "The current track has no lyrics available. Just enjoy the tunes!");
    assert!(content.footer.is_none());
    // An episode has no artists, so its lyrics are not shown.
    let l = Some(lyrics(vec![line("0", "x")], SyncType::Unsynced));
    assert_eq!(lyrics_embed(&l, &episode_info(), 0).title, "No lyrics available");
}

#[test]
fn lyrics_message_is_created_only_while_playing() {
    let i = info(7, Some(lyrics(vec![line("0", "x")], SyncType::Unsynced)), vec![]);
    assert!(LyricsEmbed::create(false, Some(&i), "1".to_string()).is_none());
    assert!(LyricsEmbed::create(true, None, "1".to_string()).is_none());
    let e = LyricsEmbed::create(true, Some(&i), "1".to_string()).unwrap();
    assert_eq!(e.track, SpotifyIdDef { id: 7 });
    assert_eq!(e.page, 0);
    assert!(e.lyrics.is_some());
}

#[test]
fn press_ids_belong_to_their_guild() {
    let e = LyricsEmbed { guild_id: "99".to_string(), track: SpotifyIdDef { id: 0 }, lyrics: None, page: 0 };
    assert!(e.press_matches("lyrics:next:99"));
    assert!(e.press_matches("lyrics:prev:99"));
    assert!(!e.press_matches("lyrics:next:98"));
    assert!(!e.press_matches("other:next:99"));
    assert!(!e.press_matches("123-next"));
}

#[test]
fn presses_move_between_unsynced_pages() {
    let l = lyrics(vec![line("0", &words(2500)), line("0", &words(2500)), line("0", &words(2500))], SyncType::Unsynced);
    let mut e = LyricsEmbed { guild_id: "1".to_string(), track: SpotifyIdDef { id: 0 }, lyrics: Some(l), page: 0 };
    assert!(!e.handle_press("lyrics:prev:1", true));
    assert!(e.handle_press("lyrics:next:1", true));
    assert_eq!(e.page, 1);
    assert!(e.handle_press("lyrics:next:1", true));
    assert_eq!(e.page, 2);
    assert!(!e.handle_press("lyrics:next:1", true));
    assert_eq!(e.page, 2);
    assert!(!e.handle_press("lyrics:prev:1", false));
    assert!(!e.handle_press("lyrics:other:1", true));
    assert!(e.handle_press("lyrics:prev:1", true));
    assert_eq!(e.page, 1);
}

#[test]
fn presses_do_nothing_on_synced_lyrics() {
    let l = lyrics(vec![line("0", &words(2500)), line("0", &words(2500))], SyncType::LineSynced);
    let mut e = LyricsEmbed { guild_id: "1".to_string(), track: SpotifyIdDef { id: 0 }, lyrics: Some(l), page: 0 };
    assert!(!e.handle_press("lyrics:next:1", true));
    assert_eq!(e.page, 0);
}

#[test]
fn ticks_follow_the_song() {
    let synced = lyrics(vec![line("10000", &words(2500)), line("20000", &words(2500))], SyncType::LineSynced);
    let playing = info(1, Some(synced.clone()), vec![]);
    let mut e = LyricsEmbed::create(true, Some(&playing), "1".to_string()).unwrap();
    assert_eq!(e.handle_tick(false, true, Some(&playing), 0), TickOutcome::Stop);
    assert_eq!(e.handle_tick(true, false, Some(&playing), 0), TickOutcome::Keep);
    assert_eq!(e.handle_tick(true, true, None, 0), TickOutcome::Keep);
    assert_eq!(e.handle_tick(true, true, Some(&playing), 5000), TickOutcome::Keep);
    assert_eq!(e.handle_tick(true, true, Some(&playing), 19500), TickOutcome::Redraw);
    assert_eq!(e.page, 1);
    assert_eq!(e.handle_tick(true, true, Some(&playing), 19600), TickOutcome::Keep);
    // Another track: its lyrics are taken and the first page shown.
    let other = info(2, None, vec![]);
    assert_eq!(e.handle_tick(true, true, Some(&other), 0), TickOutcome::Redraw);
    assert_eq!(e.page, 0);
    assert_eq!(e.track, SpotifyIdDef { id: 2 });
    assert!(e.lyrics.is_none());
    assert_eq!(e.handle_tick(true, true, Some(&other), 50000), TickOutcome::Keep);
}

#[test]
fn drawable_and_pageable_checks() {
    assert!(lyrics_pageable_check(&None));
    assert!(lyrics_drawable_check(&None, 5));
    let empty_unsynced = lyrics(vec![], SyncType::Unsynced);
    assert!(!lyrics_pageable_check(&Some(empty_unsynced)));
    let empty_synced = lyrics(vec![], SyncType::LineSynced);
    assert!(lyrics_pageable_check(&Some(empty_synced.clone())));
    assert!(lyrics_drawable_check(&Some(empty_synced), 0));
    let two_pages = lyrics(vec![line("0", &words(PAGE_LENGTH)), line("1", "x")], SyncType::Unsynced);
    assert!(lyrics_pageable_check(&Some(two_pages.clone())));
    assert!(lyrics_drawable_check(&Some(two_pages.clone()), 1));
    // Past the text the first page is shown.
    assert!(lyrics_drawable_check(&Some(two_pages.clone()), 2));
    assert!(!lyrics_drawable_check(&Some(two_pages), usize::MAX));
}

#[test]
fn shown_page_never_moves_back() {
    let synced = lyrics(
        vec![line("0", &words(2000)), line("5000", &words(2000)), line("9000", &words(2000)), line("14000", "x")],
        SyncType::LineSynced,
    );
    let mut previous = 0;
    for position in (0..20_000).step_by(250) {
        let page = page_at_position(&synced, position).unwrap();
        assert!(page >= previous);
        previous = page;
    }
}
