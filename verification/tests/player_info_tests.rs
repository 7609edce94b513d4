use spoticord::shared::lyrics::{Line, Lyrics, SyncType};
use spoticord::shared::player_info::{
    ArtistItem, AudioItem, PlayerInfo, PlayerTrack, SpotifyIdDef, SpotifyUri, UniqueFields,
};

fn id(n: u128) -> SpotifyIdDef {
    SpotifyIdDef { id: n }
}

fn artist(name: &str, n: u128) -> ArtistItem {
    ArtistItem { name: name.to_string(), id: SpotifyUri::Artist { id: id(n) } }
}

fn track_item(n: u128, artists: Vec<ArtistItem>, covers: Vec<&str>) -> AudioItem {
    AudioItem {
        track_id: SpotifyUri::Track { id: id(n) },
        name: "Song".to_string(),
        covers: covers.into_iter().map(String::from).collect(),
        duration_ms: 180_000,
        unique_fields: UniqueFields::Track { artists, album: "Album".to_string() },
    }
}

fn episode_item(n: u128) -> AudioItem {
    AudioItem {
        track_id: SpotifyUri::Episode { id: id(n) },
        name: "Episode".to_string(),
        covers: vec!["https://img/ep".to_string(), "https://img/other".to_string()],
        duration_ms: 3_600_000,
        unique_fields: UniqueFields::Episode { show_name: "Show".to_string() },
    }
}

pub fn lyrics(sync_type: SyncType) -> Lyrics {
    Lyrics {
        is_dense_typeface: false,
        is_rtl_language: false,
        language: "en".to_string(),
        lines: vec![Line { start_time_ms: "0".to_string(), end_time_ms: "0".to_string(), words: "la".to_string() }],
        provider: "p".to_string(),
        provider_display_name: "Provider".to_string(),
        provider_lyrics_id: "1".to_string(),
        sync_lyrics_uri: String::new(),
        sync_type,
    }
}

#[test]
fn base62_matches_spotify_ids() {
    assert_eq!(id(0).to_base62(), "0000000000000000000000");
    assert_eq!(id(1).to_base62(), "0000000000000000000001");
    assert_eq!(id(62).to_base62(), "0000000000000000000010");
    assert_eq!(id(196373991439130863212091700994220317246).to_base62(), "4uLU6hMCjMI75M1A2tKUQC");
    assert_eq!(id(u128::MAX).to_base62(), "7N42dgm5tFLK9N8MT7fHC7");
}

#[test]
fn track_conversion_keeps_first_credit_of_each_artist() {
    let item = track_item(
        196373991439130863212091700994220317246,
        vec![artist("A", 1), artist("B", 2), artist("A again", 1), artist("C", 3), artist("B", 2)],
        vec!["https://img/1", "https://img/2"],
    );
    let track = PlayerTrack::try_from(item).unwrap();
    let artists = track.artists().unwrap();
    let names: Vec<&str> = artists.iter().map(|a| a.name.as_str()).collect();
    assert_eq!(names, vec!["A", "B", "C"]);
    assert_eq!(artists.iter().map(|a| a.id.id).collect::<Vec<_>>(), vec![1, 2, 3]);
    assert_eq!(track.url(), "https://open.spotify.com/track/4uLU6hMCjMI75M1A2tKUQC");
    assert_eq!(track.thumbnail().as_deref(), Some("https://img/1"));
    assert_eq!(track.name(), "Song");
    assert_eq!(track.album_name().as_deref(), Some("Album"));
    assert_eq!(track.show_name(), None);
    assert_eq!(track.duration(), 180_000);
    assert_eq!(track.track_id(), id(196373991439130863212091700994220317246));
}

#[test]
fn track_without_cover_has_no_thumbnail() {
    let track = PlayerTrack::try_from(track_item(5, vec![], vec![])).unwrap();
    assert_eq!(track.thumbnail(), None);
    assert_eq!(track.artists().unwrap().len(), 0);
}

#[test]
fn episode_conversion() {
    let track = PlayerTrack::try_from(episode_item(62)).unwrap();
    assert_eq!(track.url(), "https://open.spotify.com/episode/0000000000000000000010");
    assert_eq!(track.thumbnail().as_deref(), Some("https://img/ep"));
    assert_eq!(track.show_name().as_deref(), Some("Show"));
    assert!(track.artists().is_none());
    assert!(track.album_name().is_none());
    assert_eq!(track.duration(), 3_600_000);
}

#[test]
fn mismatched_items_do_not_convert() {
    let mut item = track_item(1, vec![], vec![]);
    item.unique_fields = UniqueFields::Episode { show_name: "x".to_string() };
    assert!(PlayerTrack::try_from(item).is_err());
    let mut item = track_item(1, vec![], vec![]);
    item.track_id = SpotifyUri::Other;
    assert!(PlayerTrack::try_from(item).is_err());
}

#[test]
fn player_info_updates() {
    let mut info = PlayerInfo::new(track_item(1, vec![artist("A", 1)], vec![]), None, 1000, true).unwrap();
    assert!(info.playing());
    assert!(info.is_track());
    assert!(!info.is_episode());
    assert!(info.lyrics().is_none());

    info.update_playback(5000, false);
    assert!(!info.playing());
    assert_eq!(info.current_position(), Some(5000));
    assert_eq!(info.current_position_at(0), 5000);

    info.update_track(episode_item(2), Some(lyrics(SyncType::LineSynced)));
    assert!(info.is_episode());
    assert_eq!(info.lyrics().unwrap().provider_display_name, "Provider");

    // An item that does not convert keeps the current one, but the lyrics are replaced.
    let mut odd = track_item(3, vec![], vec![]);
    odd.track_id = SpotifyUri::Other;
    info.update_track(odd, None);
    assert!(info.is_episode());
    assert!(info.lyrics().is_none());
}

#[test]
fn position_advances_while_playing() {
    let mut info = PlayerInfo::new(track_item(1, vec![], vec![]), None, 0, false).unwrap();
    info.update_playback(1000, true);
    let position = info.current_position().unwrap();
    assert!(position >= 1000);
    assert!(position < 1000 + 60_000);
}

#[test]
fn player_info_without_conversion_is_none() {
    let mut item = track_item(1, vec![], vec![]);
    item.track_id = SpotifyUri::Episode { id: id(1) };
    assert!(PlayerInfo::new(item, None, 0, false).is_none());
}

#[test]
fn clones_keep_contents() {
    let info = PlayerInfo::new(track_item(7, vec![artist("A", 1)], vec!["c"]), Some(lyrics(SyncType::Unsynced)), 3, true).unwrap();
    let copy = info.clone();
    assert_eq!(copy.track().url(), info.track().url());
    assert_eq!(copy.lyrics(), info.lyrics());
    assert_eq!(copy.playing(), info.playing());
}

#[test]
fn details_come_apart_and_back_together() {
    let info = PlayerInfo::new(episode_item(3), None, 250, false).unwrap();
    let (track, lyrics, updated_at, position, playing) = info.into_parts();
    assert_eq!(position, 250);
    assert!(!playing);
    assert!(lyrics.is_none());
    let back = PlayerInfo::from_parts(track, lyrics, updated_at, position, playing);
    assert!(back.is_episode());
    assert_eq!(back.current_position(), Some(250));
    assert_eq!(back.track().name(), "Episode");
}
