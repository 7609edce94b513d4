//! What is playing: the current track or episode, its lyrics and the playback position.
use vstd::prelude::*;

use crate::shared::lyrics::Lyrics;
use crate::text::{push_char, push_str};
use crate::utils::get_time;

verus! {

broadcast use vstd::std_specs::hash::group_hash_axioms;

/// A Spotify identifier: the 128-bit number behind a base62 id.
#[derive(Debug, Clone, Copy, PartialEq, Eq, Structural, Hash)]
pub struct SpotifyIdDef {
    pub id: u128,
}

/// The kinds of Spotify URI that track conversion looks at.
#[derive(Debug, Clone, Copy, PartialEq, Eq, Structural)]
pub enum SpotifyUri {
    Track { id: SpotifyIdDef },
    Episode { id: SpotifyIdDef },
    Artist { id: SpotifyIdDef },
    Other,
}

/// An artist credited on a track, as Spotify reports it.
#[derive(Debug)]
pub struct ArtistItem {
    pub name: String,
    pub id: SpotifyUri,
}

/// The fields that only tracks or only episodes have.
#[derive(Debug)]
pub enum UniqueFields {
    Track { artists: Vec<ArtistItem>, album: String },
    Episode { show_name: String },
}

/// An audio item reported by the Spotify player: what the conversion into a
/// [`PlayerTrack`] reads of it. `covers` holds the URLs of its cover images.
#[derive(Debug)]
pub struct AudioItem {
    pub track_id: SpotifyUri,
    pub name: String,
    pub covers: Vec<String>,
    pub duration_ms: u32,
    pub unique_fields: UniqueFields,
}

/// The details of what is playing.
#[derive(Debug)]
pub struct PlayerInfo {
    current_track: PlayerTrack,
    current_lyrics: Option<Lyrics>,
    updated_at: u128,
    position: u32,
    playing: bool,
}

/// A music track or a podcast episode.
#[derive(Debug)]
#[allow(inconsistent_fields)]
pub enum PlayerTrack {
    Track {
        id: SpotifyIdDef,
        name: String,
        artists: Vec<Artist>,
        album: String,
        thumbnail: Option<String>,
        duration: u32,
        url: String,
    },
    Episode {
        id: SpotifyIdDef,
        name: String,
        show_name: String,
        thumbnail: String,
        duration: u32,
        url: String,
    },
}

/// An artist of a track.
#[derive(Debug)]
pub struct Artist {
    pub name: String,
    pub id: SpotifyIdDef,
}

impl Clone for Artist {
    fn clone(&self) -> (r: Self)
        ensures
            r == *self,
    {
        Artist { name: self.name.clone(), id: self.id }
    }
}

/// The character of base-62 digit `d`: `0-9`, then `a-z`, then `A-Z`.
pub open spec fn base62_digit(d: int) -> char {
    if d < 10 {
        (d + 48) as char
    } else if d < 36 {
        (d - 10 + 97) as char
    } else {
        (d - 36 + 65) as char
    }
}

/// The `n` least significant base-62 digits of `id`, most significant first.
pub open spec fn base62_digits(id: nat, n: nat) -> Seq<char>
    decreases n,
{
    if n == 0 {
        seq![]
    } else {
        base62_digits(id / 62, (n - 1) as nat).push(base62_digit((id % 62) as int))
    }
}

/// The base62 form of a Spotify id: 22 digits, zero-padded.
pub open spec fn spec_base62(id: u128) -> Seq<char> {
    base62_digits(id as nat, 22)
}

/// The web link of a track.
pub open spec fn track_url(id: SpotifyIdDef) -> Seq<char> {
    "https://open.spotify.com/track/"@ + spec_base62(id.id)
}

/// The web link of an episode.
pub open spec fn episode_url(id: SpotifyIdDef) -> Seq<char> {
    "https://open.spotify.com/episode/"@ + spec_base62(id.id)
}

fn base62_char(d: u128) -> (c: char)
    requires
        d < 62,
    ensures
        c == base62_digit(d as int),
{
    let b: u8 = if d < 10 {
        48u8 + d as u8
    } else if d < 36 {
        97u8 + (d - 10) as u8
    } else {
        65u8 + (d - 36) as u8
    };
    b as char
}

fn push_base62(s: &mut String, id: u128, n: u64)
    ensures
        final(s)@ == old(s)@ + base62_digits(id as nat, n as nat),
    decreases n,
{
    if n > 0 {
        push_base62(s, id / 62, n - 1);
        let c = base62_char(id % 62);
        push_char(s, c);
        proof {
            assert(old(s)@ + base62_digits(id as nat, n as nat) =~= s@);
        }
    } else {
        proof {
            assert(old(s)@ + base62_digits(id as nat, n as nat) =~= s@);
        }
    }
}

impl SpotifyIdDef {
    /// The id as 22 base-62 digits, as it appears in Spotify links.
    pub fn to_base62(&self) -> (r: String)
        ensures
            r@ == spec_base62(self.id),
    {
        let mut s = String::new();
        push_base62(&mut s, self.id, 22);
        proof {
            assert(s@ =~= spec_base62(self.id));
        }
        s
    }
}

/// Builds a link from a fixed prefix and the base62 form of an id.
fn link(prefix: &str, id: SpotifyIdDef) -> (r: String)
    ensures
        r@ == prefix@ + spec_base62(id.id),
{
    let mut s = String::new();
    push_str(&mut s, prefix);
    let b = id.to_base62();
    push_str(&mut s, b.as_str());
    proof {
        assert(s@ =~= prefix@ + spec_base62(id.id));
    }
    s
}

/// The artists of a track with later duplicates of an id left out, keeping the
/// first name given for each id, in their original order.
pub open spec fn dedup_artists(items: Seq<ArtistItem>) -> Seq<Artist>
    decreases items.len(),
{
    if items.len() == 0 {
        seq![]
    } else {
        let prefix = dedup_artists(items.drop_last());
        let last = items.last();
        if artist_ids(items.drop_last()).contains(uri_id(last.id)) {
            prefix
        } else {
            prefix.push(Artist { name: last.name, id: uri_id(last.id) })
        }
    }
}

/// The id carried by a URI (zero for a URI of another kind).
pub open spec fn uri_id(u: SpotifyUri) -> SpotifyIdDef {
    match u {
        SpotifyUri::Track { id } => id,
        SpotifyUri::Episode { id } => id,
        SpotifyUri::Artist { id } => id,
        SpotifyUri::Other => SpotifyIdDef { id: 0 },
    }
}

/// The set of ids of a list of credited artists.
pub open spec fn artist_ids(items: Seq<ArtistItem>) -> Set<SpotifyIdDef> {
    items.map_values(|a: ArtistItem| uri_id(a.id)).to_set()
}

/// Whether the credit at `j` is the first with its id (later ones are left out
/// when converting).
pub open spec fn first_credit(items: Seq<ArtistItem>, j: int) -> bool {
    !artist_ids(items.take(j)).contains(uri_id(items[j].id))
}

/// The credit at `j` converts: its URI is a track, episode or artist URI (whose
/// id is known), and when it is the first with its id, an artist URI.
pub open spec fn credit_ok(items: Seq<ArtistItem>, j: int) -> bool {
    !(items[j].id is Other) && (first_credit(items, j) ==> items[j].id is Artist)
}

/// Every credit converts (see [`credit_ok`]).
pub open spec fn artists_well_formed(items: Seq<ArtistItem>) -> bool {
    forall|j: int| 0 <= j < items.len() ==> #[trigger] credit_ok(items, j)
}

/// The conditions under which converting an audio item does not fail outright:
/// the credits that are kept carry artist URIs, and an episode has at least one
/// cover image.
pub open spec fn audio_item_convertible(item: AudioItem) -> bool {
    match (item.track_id, item.unique_fields) {
        (SpotifyUri::Track { .. }, UniqueFields::Track { artists, .. }) => artists_well_formed(artists@),
        (SpotifyUri::Episode { .. }, UniqueFields::Episode { .. }) => item.covers@.len() > 0,
        _ => true,
    }
}

/// The track an audio item converts to, or `None` where the item is neither a
/// track with track fields nor an episode with episode fields.
pub open spec fn spec_track_of(item: AudioItem) -> Option<PlayerTrackView> {
    match (item.track_id, item.unique_fields) {
        (SpotifyUri::Track { id }, UniqueFields::Track { artists, album }) => Some(
            PlayerTrackView::Track {
                id,
                name: item.name@,
                artists: dedup_artists(artists@).map_values(|a: Artist| (a.name@, a.id)),
                album: album@,
                thumbnail: if item.covers@.len() > 0 { Some(item.covers@[0]@) } else { None },
                duration: item.duration_ms,
                url: track_url(id),
            },
        ),
        (SpotifyUri::Episode { id }, UniqueFields::Episode { show_name }) => Some(
            PlayerTrackView::Episode {
                id,
                name: item.name@,
                show_name: show_name@,
                thumbnail: item.covers@[0]@,
                duration: item.duration_ms,
                url: episode_url(id),
            },
        ),
        _ => None,
    }
}

/// A track or episode as plain values: strings as character sequences and the
/// artists as (name, id) pairs.
#[allow(inconsistent_fields)]
pub enum PlayerTrackView {
    Track {
        id: SpotifyIdDef,
        name: Seq<char>,
        artists: Seq<(Seq<char>, SpotifyIdDef)>,
        album: Seq<char>,
        thumbnail: Option<Seq<char>>,
        duration: u32,
        url: Seq<char>,
    },
    Episode {
        id: SpotifyIdDef,
        name: Seq<char>,
        show_name: Seq<char>,
        thumbnail: Seq<char>,
        duration: u32,
        url: Seq<char>,
    },
}

impl View for PlayerTrack {
    type V = PlayerTrackView;

    open spec fn view(&self) -> PlayerTrackView {
        match self {
            PlayerTrack::Track { id, name, artists, album, thumbnail, duration, url } => {
                PlayerTrackView::Track {
                    id: *id,
                    name: name@,
                    artists: artists@.map_values(|a: Artist| (a.name@, a.id)),
                    album: album@,
                    thumbnail: match thumbnail {
                        Some(t) => Some(t@),
                        None => None,
                    },
                    duration: *duration,
                    url: url@,
                }
            },
            PlayerTrack::Episode { id, name, show_name, thumbnail, duration, url } => {
                PlayerTrackView::Episode {
                    id: *id,
                    name: name@,
                    show_name: show_name@,
                    thumbnail: thumbnail@,
                    duration: *duration,
                    url: url@,
                }
            },
        }
    }
}

fn artist_uri_id(u: &SpotifyUri) -> (r: SpotifyIdDef)
    ensures
        r == uri_id(*u),
{
    match u {
        SpotifyUri::Track { id } => *id,
        SpotifyUri::Episode { id } => *id,
        SpotifyUri::Artist { id } => *id,
        SpotifyUri::Other => SpotifyIdDef { id: 0 },
    }
}

/// Whether every credit converts (see [`artists_well_formed`]).
pub fn artists_convertible(items: &Vec<ArtistItem>) -> (r: bool)
    ensures
        r == artists_well_formed(items@),
{
    let mut seen: std::collections::HashSet<u128> = std::collections::HashSet::new();
    for i in 0..items.len()
        invariant
            forall|k: u128| #[trigger] seen@.contains(k) <==> artist_ids(items@.take(i as int)).contains(SpotifyIdDef { id: k }),
            forall|j: int| 0 <= j < i ==> #[trigger] credit_ok(items@, j),
    {
        let item = &items[i];
        let id = artist_uri_id(&item.id);
        let ghost pre = items@.take(i as int);
        let ghost next = items@.take(i + 1);
        proof {
            assert(next.drop_last() =~= pre);
            assert(next.last() == *item);
            assert(pre.map_values(|a: ArtistItem| uri_id(a.id)).push(uri_id(item.id)) =~= next.map_values(|a: ArtistItem| uri_id(a.id)));
            vstd::seq_lib::lemma_seq_contains_after_push(pre.map_values(|a: ArtistItem| uri_id(a.id)), uri_id(item.id), uri_id(item.id));
        }
        let fresh = seen.insert(id.id);
        proof {
            assert(artist_ids(pre).contains(id) == !fresh);
            assert(first_credit(items@, i as int) == fresh);
        }
        if matches!(item.id, SpotifyUri::Other) || (fresh && !matches!(item.id, SpotifyUri::Artist { .. })) {
            proof {
                assert(!credit_ok(items@, i as int));
            }
            return false;
        }
        proof {
            let f = |a: ArtistItem| uri_id(a.id);
            let pm = pre.map_values(f);
            let nm = next.map_values(f);
            assert(nm =~= pm.push(uri_id(item.id)));
            assert forall|k: u128| #[trigger] seen@.contains(k) <==> artist_ids(next).contains(SpotifyIdDef { id: k }) by {
                let key = SpotifyIdDef { id: k };
                if nm.contains(key) {
                    let j = choose|j: int| 0 <= j < nm.len() && nm[j] == key;
                    if j < pm.len() {
                        assert(pm[j] == key);
                        assert(pm.contains(key));
                    }
                }
                if pm.contains(key) {
                    let j = choose|j: int| 0 <= j < pm.len() && pm[j] == key;
                    assert(nm[j] == key);
                }
                assert(nm[nm.len() - 1] == uri_id(item.id));
            }
            assert(credit_ok(items@, i as int));
        }
    }
    true
}

/// Keeps the first credit of each artist id, in order.
pub fn dedup_artist_items(items: &Vec<ArtistItem>) -> (r: Vec<Artist>)
    ensures
        r@ == dedup_artists(items@),
{
    let mut seen: std::collections::HashSet<u128> = std::collections::HashSet::new();
    let mut r: Vec<Artist> = Vec::new();
    for i in 0..items.len()
        invariant
            r@ == dedup_artists(items@.take(i as int)),
            forall|k: u128| #[trigger] seen@.contains(k) <==> artist_ids(items@.take(i as int)).contains(SpotifyIdDef { id: k }),
    {
        let item = &items[i];
        let id = artist_uri_id(&item.id);
        let ghost pre = items@.take(i as int);
        let ghost next = items@.take(i + 1);
        proof {
            assert(next.drop_last() =~= pre);
            assert(next.last() == *item);
            assert(pre.map_values(|a: ArtistItem| uri_id(a.id)).push(uri_id(item.id)) =~= next.map_values(|a: ArtistItem| uri_id(a.id)));
            vstd::seq_lib::lemma_seq_contains_after_push(pre.map_values(|a: ArtistItem| uri_id(a.id)), uri_id(item.id), uri_id(item.id));
        }
        let fresh = seen.insert(id.id);
        if fresh {
            r.push(Artist { name: item.name.clone(), id });
        }
        proof {
            let f = |a: ArtistItem| uri_id(a.id);
            let pm = pre.map_values(f);
            let nm = next.map_values(f);
            assert(nm =~= pm.push(uri_id(item.id)));
            assert forall|k: u128| #[trigger] seen@.contains(k) <==> artist_ids(next).contains(SpotifyIdDef { id: k }) by {
                let key = SpotifyIdDef { id: k };
                if nm.contains(key) {
                    let j = choose|j: int| 0 <= j < nm.len() && nm[j] == key;
                    if j < pm.len() {
                        assert(pm[j] == key);
                        assert(pm.contains(key));
                    }
                }
                if pm.contains(key) {
                    let j = choose|j: int| 0 <= j < pm.len() && pm[j] == key;
                    assert(nm[j] == key);
                }
                assert(nm[nm.len() - 1] == uri_id(item.id));
            }
            assert(artist_ids(pre).contains(id) == !fresh);
            assert(r@ =~= dedup_artists(next));
        }
    }
    proof {
        assert(items@.take(items@.len() as int) =~= items@);
    }
    r
}


fn clone_artists(artists: &Vec<Artist>) -> (r: Vec<Artist>)
    ensures
        r@ == artists@,
{
    let mut r: Vec<Artist> = Vec::new();
    for i in 0..artists.len()
        invariant
            r@ == artists@.take(i as int),
    {
        r.push(artists[i].clone());
        proof {
            assert(r@ =~= artists@.take(i + 1));
        }
    }
    proof {
        assert(artists@.take(artists@.len() as int) =~= artists@);
    }
    r
}

fn clone_opt_string(s: &Option<String>) -> (r: Option<String>)
    ensures
        r == *s,
{
    match s {
        Some(t) => Some(t.clone()),
        None => None,
    }
}

impl Clone for PlayerTrack {
    fn clone(&self) -> (r: Self)
        ensures
            r@ == self@,
    {
        match self {
            PlayerTrack::Track { id, name, artists, album, thumbnail, duration, url } => {
                let artists = clone_artists(artists);
                PlayerTrack::Track {
                    id: *id,
                    name: name.clone(),
                    artists,
                    album: album.clone(),
                    thumbnail: clone_opt_string(thumbnail),
                    duration: *duration,
                    url: url.clone(),
                }
            },
            PlayerTrack::Episode { id, name, show_name, thumbnail, duration, url } => {
                PlayerTrack::Episode {
                    id: *id,
                    name: name.clone(),
                    show_name: show_name.clone(),
                    thumbnail: thumbnail.clone(),
                    duration: *duration,
                    url: url.clone(),
                }
            },
        }
    }
}

impl PlayerTrack {
    /// Converts an audio item into a track or episode.
    ///
    /// Fails (`Err(())`) when the item is neither a track with track fields nor an
    /// episode with episode fields. The artists of a track keep their first
    /// credit only; the thumbnail is the first cover image; the link is the web
    /// link built from the base62 id.
    pub fn try_from(value: AudioItem) -> (r: Result<PlayerTrack, ()>)
        requires
            audio_item_convertible(value),
        ensures
            match spec_track_of(value) {
                Some(t) => r matches Ok(track) && track@ == t,
                None => r is Err,
            },
    {
        let AudioItem { track_id, name, covers, duration_ms, unique_fields } = value;
        match (track_id, unique_fields) {
            (SpotifyUri::Track { id }, UniqueFields::Track { artists, album }) => {
                let artists = dedup_artist_items(&artists);
                let thumbnail = if covers.len() > 0 {
                    Some(covers[0].clone())
                } else {
                    None
                };
                let url = link("https://open.spotify.com/track/", id);
                Ok(PlayerTrack::Track {
                    id,
                    name,
                    artists,
                    album,
                    thumbnail,
                    duration: duration_ms,
                    url,
                })
            },
            (SpotifyUri::Episode { id }, UniqueFields::Episode { show_name }) => {
                let thumbnail = covers[0].clone();
                let url = link("https://open.spotify.com/episode/", id);
                Ok(PlayerTrack::Episode {
                    id,
                    name,
                    show_name,
                    thumbnail,
                    duration: duration_ms,
                    url,
                })
            },
            _ => Err(()),
        }
    }

    /// The Spotify id of the track or episode.
    pub fn track_id(&self) -> (r: SpotifyIdDef)
        ensures
            r == self@.id(),
    {
        match self {
            PlayerTrack::Episode { id, .. } => *id,
            PlayerTrack::Track { id, .. } => *id,
        }
    }

    /// The title.
    pub fn name(&self) -> (r: &str)
        ensures
            r@ == self@.name(),
    {
        match self {
            PlayerTrack::Episode { name, .. } => name.as_str(),
            PlayerTrack::Track { name, .. } => name.as_str(),
        }
    }

    /// The artists of a track; `None` for an episode.
    pub fn artists(&self) -> (r: Option<Vec<Artist>>)
        ensures
            match self {
                PlayerTrack::Episode { .. } => r is None,
                PlayerTrack::Track { artists, .. } => r matches Some(a) && a@ == artists@,
            },
    {
        match self {
            PlayerTrack::Episode { .. } => None,
            PlayerTrack::Track { artists, .. } => Some(clone_artists(artists)),
        }
    }

    /// The show of an episode; `None` for a track.
    pub fn show_name(&self) -> (r: Option<String>)
        ensures
            match self@ {
                PlayerTrackView::Episode { show_name, .. } => r matches Some(s) && s@ == show_name,
                PlayerTrackView::Track { .. } => r is None,
            },
    {
        match self {
            PlayerTrack::Episode { show_name, .. } => Some(show_name.clone()),
            PlayerTrack::Track { .. } => None,
        }
    }

    /// The album of a track; `None` for an episode.
    pub fn album_name(&self) -> (r: Option<String>)
        ensures
            match self@ {
                PlayerTrackView::Episode { .. } => r is None,
                PlayerTrackView::Track { album, .. } => r matches Some(s) && s@ == album,
            },
    {
        match self {
            PlayerTrack::Episode { .. } => None,
            PlayerTrack::Track { album, .. } => Some(album.clone()),
        }
    }

    /// The cover image link: always present for an episode, optional for a track.
    pub fn thumbnail(&self) -> (r: Option<String>)
        ensures
            match self@ {
                PlayerTrackView::Episode { thumbnail, .. } => r matches Some(s) && s@ == thumbnail,
                PlayerTrackView::Track { thumbnail, .. } => match thumbnail {
                    Some(t) => r matches Some(s) && s@ == t,
                    None => r is None,
                },
            },
    {
        match self {
            PlayerTrack::Episode { thumbnail, .. } => Some(thumbnail.clone()),
            PlayerTrack::Track { thumbnail, .. } => clone_opt_string(thumbnail),
        }
    }

    /// The length in milliseconds.
    pub fn duration(&self) -> (r: u32)
        ensures
            r == self@.duration(),
    {
        match self {
            PlayerTrack::Episode { duration, .. } => *duration,
            PlayerTrack::Track { duration, .. } => *duration,
        }
    }

    /// The web link.
    pub fn url(&self) -> (r: String)
        ensures
            r@ == self@.url(),
    {
        match self {
            PlayerTrack::Episode { url, .. } => url.clone(),
            PlayerTrack::Track { url, .. } => url.clone(),
        }
    }
}

impl PlayerTrackView {
    pub open spec fn id(self) -> SpotifyIdDef {
        match self {
            PlayerTrackView::Track { id, .. } => id,
            PlayerTrackView::Episode { id, .. } => id,
        }
    }

    pub open spec fn name(self) -> Seq<char> {
        match self {
            PlayerTrackView::Track { name, .. } => name,
            PlayerTrackView::Episode { name, .. } => name,
        }
    }

    pub open spec fn duration(self) -> u32 {
        match self {
            PlayerTrackView::Track { duration, .. } => duration,
            PlayerTrackView::Episode { duration, .. } => duration,
        }
    }

    pub open spec fn url(self) -> Seq<char> {
        match self {
            PlayerTrackView::Track { url, .. } => url,
            PlayerTrackView::Episode { url, .. } => url,
        }
    }
}

/// The details of what is playing, as plain values.
pub struct PlayerInfoView {
    pub track: PlayerTrackView,
    pub lyrics: Option<crate::shared::lyrics::LyricsView>,
    pub updated_at: u128,
    pub position: u32,
    pub playing: bool,
}

/// The view of optional lyrics.
pub open spec fn lyrics_view(l: Option<Lyrics>) -> Option<crate::shared::lyrics::LyricsView> {
    match l {
        Some(l) => Some(l@),
        None => None,
    }
}

impl View for PlayerInfo {
    type V = PlayerInfoView;

    closed spec fn view(&self) -> PlayerInfoView {
        PlayerInfoView {
            track: self.current_track@,
            lyrics: lyrics_view(self.current_lyrics),
            updated_at: self.updated_at,
            position: self.position,
            playing: self.playing,
        }
    }
}

fn clone_opt_lyrics(l: &Option<Lyrics>) -> (r: Option<Lyrics>)
    ensures
        lyrics_view(r) == lyrics_view(*l),
{
    match l {
        Some(l) => Some(l.clone()),
        None => None,
    }
}

impl Clone for PlayerInfo {
    fn clone(&self) -> (r: Self)
        ensures
            r@ == self@,
    {
        PlayerInfo {
            current_track: self.current_track.clone(),
            current_lyrics: clone_opt_lyrics(&self.current_lyrics),
            updated_at: self.updated_at,
            position: self.position,
            playing: self.playing,
        }
    }
}

/// The playback position at time `now`: while playing, the position last
/// reported plus the milliseconds passed since then (taken modulo 2^32).
pub open spec fn position_at(info: PlayerInfoView, now: u128) -> int {
    if info.playing {
        info.position + ((now - info.updated_at) as u32)
    } else {
        info.position as int
    }
}

/// The time to stamp details with: the clock in milliseconds since the epoch,
/// or the epoch itself when the clock is set before it.
fn clock_or_epoch() -> u128 {
    match get_time() {
        Some(now) => now,
        None => 0,
    }
}

/// While playing, the position moves on with the clock: at a reading `now` no
/// earlier than the last update, and within 2^32 ms of it, the position is the
/// reported one plus the milliseconds that passed; while paused it stays put.
pub proof fn lemma_position_moves_with_clock(info: PlayerInfoView, now: u128)
    ensures
        info.playing && now >= info.updated_at && now - info.updated_at <= u32::MAX ==>
            position_at(info, now) == info.position + (now - info.updated_at),
        !info.playing ==> position_at(info, now) == info.position,
{
}

impl PlayerInfo {
    /// Creates the details of a newly started item; `None` when the item does not
    /// convert into a track or episode. The update time is read from the clock (the
    /// epoch when the clock is set before it).
    pub fn new(current_track: AudioItem, current_lyrics: Option<Lyrics>, position: u32, playing: bool) -> (r: Option<Self>)
        requires
            audio_item_convertible(current_track),
        ensures
            match spec_track_of(current_track) {
                None => r is None,
                Some(t) => r matches Some(info) && {
                    &&& info@.track == t
                    &&& info@.lyrics == lyrics_view(current_lyrics)
                    &&& info@.position == position
                    &&& info@.playing == playing
                },
            },
    {
        let track = match PlayerTrack::try_from(current_track) {
            Ok(track) => track,
            Err(()) => return None,
        };
        Some(PlayerInfo {
            current_track: track,
            current_lyrics,
            updated_at: clock_or_epoch(),
            position,
            playing,
        })
    }

    /// The track or episode.
    pub fn track(&self) -> (r: &PlayerTrack)
        ensures
            r@ == self@.track,
    {
        &self.current_track
    }

    /// The lyrics of the track, if there are any.
    pub fn lyrics(&self) -> (r: Option<&Lyrics>)
        ensures
            match r {
                Some(l) => self@.lyrics == Some(l@),
                None => self@.lyrics is None,
            },
    {
        match &self.current_lyrics {
            Some(l) => Some(l),
            None => None,
        }
    }

    /// The playback position at the given clock reading, accounting for the time
    /// that passed since the last update while playing.
    pub fn current_position_at(&self, now: u128) -> (r: u32)
        requires
            self@.playing ==> now >= self@.updated_at && position_at(self@, now) <= u32::MAX,
        ensures
            r == position_at(self@, now),
            self@.playing && now - self@.updated_at <= u32::MAX ==> r == self@.position + (now - self@.updated_at),
            !self@.playing ==> r == self@.position,
    {
        if self.playing {
            self.position + (now - self.updated_at) as u32
        } else {
            self.position
        }
    }

    /// The playback position now, read from the clock; `None` when the clock is
    /// set before the epoch or reads earlier than the last update, or the
    /// position would not fit in 32 bits.
    pub fn current_position(&self) -> (r: Option<u32>)
        ensures
            !self@.playing ==> r == Some(self@.position),
            r matches Some(p) ==> p >= self@.position,
            self@.playing ==> (r matches Some(p) ==> exists|now: u128|
                #![trigger position_at(self@, now)]
                now >= self@.updated_at && p == position_at(self@, now)
                    && (now - self@.updated_at <= u32::MAX ==> p == self@.position + (now - self@.updated_at))),
    {
        if !self.playing {
            return Some(self.position);
        }
        let now = match get_time() {
            Some(now) => now,
            None => return None,
        };
        if now < self.updated_at {
            return None;
        }
        let elapsed = (now - self.updated_at) as u32;
        if elapsed > u32::MAX - self.position {
            return None;
        }
        Some(self.current_position_at(now))
    }

    /// Whether playback is running.
    pub fn playing(&self) -> (r: bool)
        ensures
            r == self@.playing,
    {
        self.playing
    }

    /// Records a new position and play state, stamped with the current clock (the
    /// epoch when the clock is set before it).
    pub fn update_playback(&mut self, position: u32, playing: bool)
        ensures
            final(self)@.position == position,
            final(self)@.playing == playing,
            final(self)@.track == old(self)@.track,
            final(self)@.lyrics == old(self)@.lyrics,
    {
        self.position = position;
        self.playing = playing;
        self.updated_at = clock_or_epoch();
    }

    /// Records a new item and its lyrics. The item replaces the current one only
    /// where it converts; the lyrics are replaced in every case.
    pub fn update_track(&mut self, track: AudioItem, lyrics: Option<Lyrics>)
        requires
            audio_item_convertible(track),
        ensures
            final(self)@.track == match spec_track_of(track) {
                Some(t) => t,
                None => old(self)@.track,
            },
            final(self)@.lyrics == lyrics_view(lyrics),
            final(self)@.position == old(self)@.position,
            final(self)@.playing == old(self)@.playing,
            final(self)@.updated_at == old(self)@.updated_at,
    {
        if let Ok(track) = PlayerTrack::try_from(track) {
            self.current_track = track;
        }
        self.current_lyrics = lyrics;
    }

    /// Puts details together from their parts, as read back from a message.
    pub fn from_parts(track: PlayerTrack, lyrics: Option<Lyrics>, updated_at: u128, position: u32, playing: bool) -> (r: PlayerInfo)
        ensures
            r@ == (PlayerInfoView { track: track@, lyrics: lyrics_view(lyrics), updated_at, position, playing }),
    {
        PlayerInfo { current_track: track, current_lyrics: lyrics, updated_at, position, playing }
    }

    /// Takes the details apart, to be written into a message: the track, the
    /// lyrics, the update time, the position and the play state.
    pub fn into_parts(self) -> (r: (PlayerTrack, Option<Lyrics>, u128, u32, bool))
        ensures
            r.0@ == self@.track,
            lyrics_view(r.1) == self@.lyrics,
            r.2 == self@.updated_at,
            r.3 == self@.position,
            r.4 == self@.playing,
    {
        (self.current_track, self.current_lyrics, self.updated_at, self.position, self.playing)
    }

    /// Whether a podcast episode is playing.
    pub fn is_episode(&self) -> (r: bool)
        ensures
            r == (self@.track is Episode),
    {
        matches!(self.current_track, PlayerTrack::Episode { .. })
    }

    /// Whether a music track is playing.
    pub fn is_track(&self) -> (r: bool)
        ensures
            r == (self@.track is Track),
    {
        matches!(self.current_track, PlayerTrack::Track { .. })
    }
}

/// What is playing is always exactly one of a track and an episode.
pub proof fn lemma_track_or_episode(info: PlayerInfoView)
    ensures
        (info.track is Track) != (info.track is Episode),
{
}


proof fn lemma_base62_digits_len(id: nat, n: nat)
    ensures
        base62_digits(id, n).len() == n,
    decreases n,
{
    if n > 0 {
        lemma_base62_digits_len(id / 62, (n - 1) as nat);
    }
}

/// A Spotify id is always written with 22 base-62 digits.
pub proof fn lemma_base62_length(id: u128)
    ensures
        spec_base62(id).len() == 22,
{
    lemma_base62_digits_len(id as nat, 22);
}
} // verus!
