//! The lyrics message: splitting lyrics into pages, following the song, and the
//! text and buttons that the message shows.
use vstd::prelude::*;
use vstd::utf8::encode_utf8;

use crate::shared::lyrics::{clone_lines, Line, Lyrics, LyricsView, SyncType};
use crate::shared::player_info::{lyrics_view, Artist, PlayerInfo, PlayerInfoView, PlayerTrackView, SpotifyIdDef};
use crate::text::{chars_eq, parse_u32, parse_u32_spec, push_char, push_str, split_nth, split_on};

verus! {

/// The number of bytes of lyrics that one page holds.
pub const PAGE_LENGTH: usize = 3000;

/// How many milliseconds before a line is sung its page is shown.
pub const TIME_OFFSET: u32 = 1000;

/// The length in bytes (UTF-8) of the words of a line.
pub open spec fn word_len(l: Line) -> nat {
    encode_utf8(l.words@).len()
}

/// The total length in bytes of the words of all lines.
pub open spec fn total_len(lines: Seq<Line>) -> nat
    decreases lines.len(),
{
    if lines.len() == 0 {
        0
    } else {
        total_len(lines.drop_last()) + word_len(lines.last())
    }
}

/// Lyrics whose total length can be counted in a `usize`.
pub open spec fn lines_fit(lines: Seq<Line>) -> bool {
    total_len(lines) <= usize::MAX
}

/// The state of the page splitter after some lines: the finished pages, the page
/// being filled and its length in bytes.
pub struct Paging {
    pub done: Seq<Seq<Line>>,
    pub current: Seq<Line>,
    pub length: nat,
}

/// Splits lines into pages, in order: a line goes on the current page while the
/// page stays within `PAGE_LENGTH` bytes, and otherwise starts a new page.
pub open spec fn paginate(lines: Seq<Line>) -> Paging
    decreases lines.len(),
{
    if lines.len() == 0 {
        Paging { done: seq![], current: seq![], length: 0 }
    } else {
        let p = paginate(lines.drop_last());
        let l = lines.last();
        if p.length + word_len(l) > PAGE_LENGTH {
            Paging { done: p.done.push(p.current), current: seq![l], length: word_len(l) }
        } else {
            Paging { done: p.done, current: p.current.push(l), length: p.length + word_len(l) }
        }
    }
}

/// The pages of a list of lines.
pub open spec fn spec_pages(lines: Seq<Line>) -> Seq<Seq<Line>> {
    let p = paginate(lines);
    p.done.push(p.current)
}

/// The pages held in vectors, viewed as sequences.
pub open spec fn pages_view(pages: Seq<Vec<Line>>) -> Seq<Seq<Line>> {
    pages.map_values(|p: Vec<Line>| p@)
}

/// The number of pages shown by the page buttons: the total length divided by
/// `PAGE_LENGTH`, rounded up.
pub open spec fn spec_page_count(lines: Seq<Line>) -> nat {
    let t = total_len(lines);
    t / (PAGE_LENGTH as nat) + if t % (PAGE_LENGTH as nat) > 0 { 1nat } else { 0nat }
}

proof fn lemma_word_len_le_total(lines: Seq<Line>, i: int)
    requires
        0 <= i < lines.len(),
    ensures
        word_len(lines[i]) <= total_len(lines),
        total_len(lines.take(i)) + word_len(lines[i]) <= total_len(lines),
    decreases lines.len(),
{
    if i == lines.len() - 1 {
        assert(lines.take(i) =~= lines.drop_last());
    } else {
        lemma_word_len_le_total(lines.drop_last(), i);
        assert(lines.drop_last().take(i) =~= lines.take(i));
        assert(lines.drop_last()[i] == lines[i]);
    }
}

/// The byte length of the words of a line.
fn line_len(l: &Line) -> (r: usize)
    requires
        word_len(*l) <= usize::MAX,
    ensures
        r == word_len(*l),
{
    l.words.as_str().len()
}

/// Splits lines into pages of at most `PAGE_LENGTH` bytes each (a single longer
/// line gets a page of its own).
pub fn into_pages(lines: &Vec<Line>) -> (r: Vec<Vec<Line>>)
    requires
        lines_fit(lines@),
    ensures
        pages_view(r@) == spec_pages(lines@),
{
    let mut result: Vec<Vec<Line>> = Vec::new();
    let mut current: Vec<Line> = Vec::new();
    let mut current_position: usize = 0;
    proof {
        assert(lines@.take(0) =~= Seq::<Line>::empty());
        assert(pages_view(result@) =~= seq![]);
    }
    for i in 0..lines.len()
        invariant
            lines_fit(lines@),
            pages_view(result@) == paginate(lines@.take(i as int)).done,
            current@ == paginate(lines@.take(i as int)).current,
            current_position == paginate(lines@.take(i as int)).length,
            current_position <= PAGE_LENGTH || current@.len() == 1,
    {
        let line = &lines[i];
        let ghost pre = lines@.take(i as int);
        let ghost nxt = lines@.take(i + 1);
        proof {
            assert(nxt.drop_last() =~= pre);
            assert(nxt.last() == *line);
            lemma_word_len_le_total(lines@, i as int);
        }
        let len = line_len(line);
        if current_position > PAGE_LENGTH || len > PAGE_LENGTH - current_position {
            result.push(current);
            current = Vec::new();
            current.push(line.clone());
            current_position = len;
            proof {
                assert(pages_view(result@) =~= paginate(pre).done.push(paginate(pre).current));
            }
        } else {
            current.push(line.clone());
            current_position = current_position + len;
        }
    }
    result.push(current);
    proof {
        assert(lines@.take(lines@.len() as int) =~= lines@);
        assert(pages_view(result@) =~= spec_pages(lines@));
    }
    result
}

/// The total byte length of the words of all lines.
pub fn lyrics_length(lines: &Vec<Line>) -> (r: usize)
    requires
        lines_fit(lines@),
    ensures
        r == total_len(lines@),
{
    let mut total: usize = 0;
    for i in 0..lines.len()
        invariant
            lines_fit(lines@),
            total == total_len(lines@.take(i as int)),
    {
        proof {
            assert(lines@.take(i + 1).drop_last() =~= lines@.take(i as int));
            lemma_word_len_le_total(lines@, i as int);
        }
        total = total + line_len(&lines[i]);
    }
    proof {
        assert(lines@.take(lines@.len() as int) =~= lines@);
    }
    total
}

/// The number of pages that the page buttons count with.
pub fn page_count(lines: &Vec<Line>) -> (r: usize)
    requires
        lines_fit(lines@),
    ensures
        r == spec_page_count(lines@),
{
    let length = lyrics_length(lines);
    length / PAGE_LENGTH + if length % PAGE_LENGTH > 0 { 1 } else { 0 }
}

/// When the page holding a line begins: its start time less `TIME_OFFSET`
/// (never below zero); `None` when the start time is not a number.
pub open spec fn line_start(l: Line) -> Option<u32> {
    match parse_u32_spec(l.start_time_ms@) {
        Some(t) => Some(if t >= TIME_OFFSET { (t - TIME_OFFSET) as u32 } else { 0u32 }),
        None => None,
    }
}

/// The page to show at playback position `position`, looking at pages from
/// index `i` on: the page before the first page that starts later than
/// `position`, or the page whose first and last lines surround `position`, or
/// else the last page. `None` when a start time met on the way is not a number.
pub open spec fn spec_page_at(pages: Seq<Seq<Line>>, position: u32, i: nat) -> Option<nat>
    decreases pages.len() - i,
{
    if i >= pages.len() {
        Some((pages.len() - 1) as nat)
    } else if pages[i as int].len() == 0 {
        spec_page_at(pages, position, i + 1)
    } else {
        let page = pages[i as int];
        match line_start(page[0]) {
            None => None,
            Some(first) => if position < first {
                Some(if i == 0 { 0nat } else { (i - 1) as nat })
            } else {
                match line_start(page.last()) {
                    None => None,
                    Some(last) => if position <= last {
                        Some(i)
                    } else {
                        spec_page_at(pages, position, i + 1)
                    },
                }
            },
        }
    }
}

fn start_of(l: &Line) -> (r: Option<u32>)
    ensures
        r == line_start(*l),
{
    match parse_u32(l.start_time_ms.as_str()) {
        Some(t) => Some(if t >= TIME_OFFSET { t - TIME_OFFSET } else { 0 }),
        None => None,
    }
}

/// The page of synced lyrics to show at a playback position (in milliseconds).
pub fn page_at_position(lyrics: &Lyrics, position: u32) -> (r: Option<usize>)
    requires
        lines_fit(lyrics@.lines),
    ensures
        match r {
            Some(k) => spec_page_at(spec_pages(lyrics@.lines), position, 0) == Some(k as nat),
            None => spec_page_at(spec_pages(lyrics@.lines), position, 0) is None,
        },
{
    let pages = into_pages(&lyrics.lines);
    let ghost sp = spec_pages(lyrics@.lines);
    let n = pages.len();
    let mut i: usize = 0;
    while i < n
        invariant
            n == pages@.len(),
            pages_view(pages@) == sp,
            sp == spec_pages(lyrics@.lines),
            n >= 1,
            i <= n,
            spec_page_at(sp, position, 0) == spec_page_at(sp, position, i as nat),
        decreases n - i,
    {
        let page = &pages[i];
        proof {
            assert(sp[i as int] == page@);
        }
        if page.len() > 0 {
            let first = match start_of(&page[0]) {
                Some(t) => t,
                None => return None,
            };
            if position < first {
                return Some(if i == 0 { 0 } else { i - 1 });
            }
            let last = match start_of(&page[page.len() - 1]) {
                Some(t) => t,
                None => return None,
            };
            if position >= first && position <= last {
                return Some(i);
            }
        }
        i = i + 1;
    }
    Some(n - 1)
}

/// The two page buttons of a lyrics message: their ids and whether they can be used.
pub struct LyricsButtons {
    pub prev_id: String,
    pub next_id: String,
    pub prev_label: String,
    pub next_label: String,
    pub can_prev: bool,
    pub can_next: bool,
}

/// Whether page buttons can be used on the lyrics at `page`: only unsynced lyrics
/// can be paged through, back while not on the first page and forward while not
/// on the last counted page.
pub open spec fn spec_can_page(lyrics: Option<LyricsView>, page: nat) -> (bool, bool) {
    match lyrics {
        Some(l) => match l.sync_type {
            SyncType::Unsynced => (page > 0, page + 1 < spec_page_count(l.lines)),
            SyncType::LineSynced => (false, false),
        },
        None => (false, false),
    }
}

/// Lyrics whose page count the buttons can use: counted within a `usize`, and,
/// when unsynced, not empty.
pub open spec fn lyrics_pageable(lyrics: Option<LyricsView>) -> bool {
    match lyrics {
        Some(l) => lines_fit(l.lines) && (l.sync_type is Unsynced ==> spec_page_count(l.lines) > 0),
        None => true,
    }
}

/// The page buttons of a lyrics message whose id is `id` (the guild's id).
pub fn lyrics_buttons(id: &str, lyrics: &Option<Lyrics>, page: usize) -> (r: LyricsButtons)
    requires
        lyrics_pageable(lyrics_view(*lyrics)),
    ensures
        r.prev_id@ == "lyrics:prev:"@ + id@,
        r.next_id@ == "lyrics:next:"@ + id@,
        r.prev_label@ == "<"@,
        r.next_label@ == ">"@,
        (r.can_prev, r.can_next) == spec_can_page(lyrics_view(*lyrics), page as nat),
{
    let (can_prev, can_next) = match lyrics {
        Some(l) => match l.sync_type {
            SyncType::Unsynced => {
                let pages = page_count(&l.lines);
                (page > 0, page < pages - 1)
            },
            SyncType::LineSynced => (false, false),
        },
        None => (false, false),
    };
    let mut prev_id = String::new();
    push_str(&mut prev_id, "lyrics:prev:");
    push_str(&mut prev_id, id);
    let mut next_id = String::new();
    push_str(&mut next_id, "lyrics:next:");
    push_str(&mut next_id, id);
    let mut prev_label = String::new();
    push_str(&mut prev_label, "<");
    let mut next_label = String::new();
    push_str(&mut next_label, ">");
    LyricsButtons { prev_id, next_id, prev_label, next_label, can_prev, can_next }
}

/// The text of a lyrics message.
pub struct LyricsEmbedContent {
    pub title: String,
    pub description: String,
    pub footer: Option<String>,
}

/// The words of a line as shown: every note sign on a line of its own.
pub open spec fn show_words(w: Seq<char>) -> Seq<char>
    decreases w.len(),
{
    if w.len() == 0 {
        seq![]
    } else {
        show_words(w.drop_last()) + if w.last() == '♪' {
            seq!['\n', '♪', '\n']
        } else {
            seq![w.last()]
        }
    }
}

/// The lines of a page as shown, one per text line.
pub open spec fn show_page(page: Seq<Line>) -> Seq<char>
    decreases page.len(),
{
    if page.len() == 0 {
        seq![]
    } else if page.len() == 1 {
        show_words(page[0].words@)
    } else {
        show_page(page.drop_last()) + seq!['\n'] + show_words(page.last().words@)
    }
}

/// Names joined with `", "`.
pub open spec fn join_names(names: Seq<Seq<char>>) -> Seq<char>
    decreases names.len(),
{
    if names.len() == 0 {
        seq![]
    } else if names.len() == 1 {
        names[0]
    } else {
        join_names(names.drop_last()) + ", "@ + names.last()
    }
}

/// A page shows its lines one per text line: the text of two non-empty runs of
/// lines put together is the text of the first, a newline, and the text of the
/// second.
pub proof fn lemma_show_page_concat(a: Seq<Line>, b: Seq<Line>)
    requires
        a.len() > 0,
        b.len() > 0,
    ensures
        show_page(a + b) == show_page(a) + seq!['\n'] + show_page(b),
    decreases b.len(),
{
    let ab = a + b;
    if b.len() == 1 {
        assert(ab.drop_last() =~= a);
        assert(ab.last() == b[0]);
    } else {
        lemma_show_page_concat(a, b.drop_last());
        assert(ab.drop_last() =~= a + b.drop_last());
        assert(ab.last() == b.last());
        assert(show_page(ab) =~= show_page(a) + seq!['\n'] + show_page(b));
    }
}

/// Every artist is named in a title, in order: the names of two non-empty runs
/// of artists put together are the names of the first, `", "`, and the names of
/// the second.
pub proof fn lemma_join_names_concat(a: Seq<Seq<char>>, b: Seq<Seq<char>>)
    requires
        a.len() > 0,
        b.len() > 0,
    ensures
        join_names(a + b) == join_names(a) + ", "@ + join_names(b),
    decreases b.len(),
{
    let ab = a + b;
    if b.len() == 1 {
        assert(ab.drop_last() =~= a);
        assert(ab.last() == b[0]);
    } else {
        lemma_join_names_concat(a, b.drop_last());
        assert(ab.drop_last() =~= a + b.drop_last());
        assert(ab.last() == b.last());
        assert(join_names(ab) =~= join_names(a) + ", "@ + join_names(b));
    }
}

/// The page index a lyrics message uses for `page`: pages beyond the lyrics'
/// length fall back to the first.
pub open spec fn shown_page_index(lines: Seq<Line>, page: nat) -> nat {
    if page * (PAGE_LENGTH as nat) > total_len(lines) { 0 } else { page }
}

/// The title, text and footer of the lyrics message for the given lyrics and
/// track at `page`: with lyrics and a music track, the track and its artists, the
/// page's lines and who provides the lyrics; otherwise a notice that there are
/// no lyrics.
pub open spec fn spec_lyrics_content(lyrics: Option<LyricsView>, track: PlayerTrackView, page: nat) -> (Seq<char>, Seq<char>, Option<Seq<char>>) {
    match (lyrics, track) {
        (Some(l), PlayerTrackView::Track { name, artists, .. }) => (
            name + " - "@ + join_names(artists.map_values(|a: (Seq<char>, SpotifyIdDef)| a.0)),
            show_page(spec_pages(l.lines)[shown_page_index(l.lines, page) as int]),
            Some("Lyrics provided by "@ + l.provider_display_name + if l.sync_type is LineSynced {
                " | Synced to song"@
            } else {
                seq![]
            }),
        ),
        _ => (
            "No lyrics available"@,
            "The current track has no lyrics available. Just enjoy the tunes!"@,
            None,
        ),
    }
}

/// Whether the lyrics message can be drawn at `page`: the lyrics fit, and the
/// page index that is used exists.
pub open spec fn lyrics_drawable(lyrics: Option<LyricsView>, page: nat) -> bool {
    match lyrics {
        Some(l) => lines_fit(l.lines) && page * (PAGE_LENGTH as nat) <= usize::MAX
            && shown_page_index(l.lines, page) < spec_pages(l.lines).len(),
        None => true,
    }
}

fn push_shown_words(s: &mut String, w: &str)
    ensures
        final(s)@ == old(s)@ + show_words(w@),
{
    let cs = crate::text::chars_of(w);
    let ghost start = s@;
    for i in 0..cs.len()
        invariant
            s@ == start + show_words(cs@.take(i as int)),
    {
        let c = cs[i];
        proof {
            assert(cs@.take(i + 1).drop_last() =~= cs@.take(i as int));
            assert(cs@.take(i + 1).last() == c);
        }
        if c == '♪' {
            push_char(s, '\n');
            push_char(s, '♪');
            push_char(s, '\n');
        } else {
            push_char(s, c);
        }
        proof {
            assert(s@ =~= start + show_words(cs@.take(i + 1)));
        }
    }
    proof {
        assert(cs@.take(cs@.len() as int) =~= cs@);
    }
}

fn page_text(page: &Vec<Line>) -> (r: String)
    ensures
        r@ == show_page(page@),
{
    let mut s = String::new();
    for i in 0..page.len()
        invariant
            s@ == show_page(page@.take(i as int)),
    {
        proof {
            assert(page@.take(i + 1).drop_last() =~= page@.take(i as int));
        }
        if i > 0 {
            push_char(&mut s, '\n');
        }
        push_shown_words(&mut s, page[i].words.as_str());
        proof {
            assert(s@ =~= show_page(page@.take(i + 1)));
        }
    }
    proof {
        assert(page@.take(page@.len() as int) =~= page@);
    }
    s
}

fn artist_names(artists: &Vec<Artist>) -> (r: String)
    ensures
        r@ == join_names(artists@.map_values(|a: Artist| (a.name@, a.id)).map_values(|a: (Seq<char>, SpotifyIdDef)| a.0)),
{
    let ghost names = artists@.map_values(|a: Artist| (a.name@, a.id)).map_values(|a: (Seq<char>, SpotifyIdDef)| a.0);
    let mut s = String::new();
    for i in 0..artists.len()
        invariant
            names.len() == artists@.len(),
            names == artists@.map_values(|a: Artist| (a.name@, a.id)).map_values(|a: (Seq<char>, SpotifyIdDef)| a.0),
            s@ == join_names(names.take(i as int)),
    {
        proof {
            assert(names.take(i + 1).drop_last() =~= names.take(i as int));
            assert(names[i as int] == artists@[i as int].name@);
        }
        if i > 0 {
            push_str(&mut s, ", ");
        }
        push_str(&mut s, artists[i].name.as_str());
        proof {
            assert(s@ =~= join_names(names.take(i + 1)));
        }
    }
    proof {
        assert(names.take(names.len() as int) =~= names);
    }
    s
}

/// The title, text and footer of the lyrics message.
pub fn lyrics_embed(lyrics: &Option<Lyrics>, player_info: &PlayerInfo, page: usize) -> (r: LyricsEmbedContent)
    requires
        lyrics_drawable(lyrics_view(*lyrics), page as nat),
    ensures
        (r.title@, r.description@, match r.footer {
            Some(f) => Some(f@),
            None => None,
        }) == spec_lyrics_content(lyrics_view(*lyrics), player_info@.track, page as nat),
{
    let artists = player_info.track().artists();
    match (lyrics, artists) {
        (Some(l), Some(artists)) => {
            let length = lyrics_length(&l.lines);
            let pages = into_pages(&l.lines);
            let index = if page * PAGE_LENGTH > length { 0 } else { page };
            proof {
                assert(pages_view(pages@)[index as int] == pages@[index as int]@);
            }
            let mut title = String::new();
            push_str(&mut title, player_info.track().name());
            push_str(&mut title, " - ");
            let names = artist_names(&artists);
            push_str(&mut title, names.as_str());
            let description = page_text(&pages[index]);
            let mut footer = String::new();
            push_str(&mut footer, "Lyrics provided by ");
            push_str(&mut footer, l.provider_display_name.as_str());
            if matches!(l.sync_type, SyncType::LineSynced) {
                push_str(&mut footer, " | Synced to song");
            }
            proof {
                assert(title@ =~= spec_lyrics_content(lyrics_view(*lyrics), player_info@.track, page as nat).0);
                assert(footer@ =~= spec_lyrics_content(lyrics_view(*lyrics), player_info@.track, page as nat).2->0);
            }
            LyricsEmbedContent { title, description, footer: Some(footer) }
        },
        _ => {
            let mut title = String::new();
            push_str(&mut title, "No lyrics available");
            let mut description = String::new();
            push_str(&mut description, "The current track has no lyrics available. Just enjoy the tunes!");
            proof {
                assert(title@ =~= "No lyrics available"@);
                assert(description@ =~= "The current track has no lyrics available. Just enjoy the tunes!"@);
            }
            LyricsEmbedContent { title, description, footer: None }
        },
    }
}


/// A page that keeps to the page length, or holds a single line.
pub open spec fn page_fits(page: Seq<Line>) -> bool {
    total_len(page) <= PAGE_LENGTH || page.len() <= 1
}

proof fn lemma_total_len_push(s: Seq<Line>, l: Line)
    ensures
        total_len(s.push(l)) == total_len(s) + word_len(l),
{
    assert(s.push(l).drop_last() =~= s);
}

proof fn lemma_paginate(lines: Seq<Line>)
    ensures
        paginate(lines).done.flatten() + paginate(lines).current == lines,
        paginate(lines).length == total_len(paginate(lines).current),
        forall|i: int| 0 <= i < paginate(lines).done.len() ==> page_fits(#[trigger] paginate(lines).done[i]),
        page_fits(paginate(lines).current),
    decreases lines.len(),
{
    if lines.len() == 0 {
        assert(paginate(lines).done.flatten() + paginate(lines).current =~= lines);
    } else {
        let pre = lines.drop_last();
        let l = lines.last();
        lemma_paginate(pre);
        let p = paginate(pre);
        assert(lines =~= pre.push(l));
        if p.length + word_len(l) > PAGE_LENGTH {
            p.done.lemma_flatten_push(p.current);
            lemma_total_len_push(Seq::<Line>::empty(), l);
            assert(seq![l] =~= Seq::<Line>::empty().push(l));
            assert(paginate(lines).done.flatten() + paginate(lines).current =~= lines);
            assert forall|i: int| 0 <= i < paginate(lines).done.len() implies page_fits(#[trigger] paginate(lines).done[i]) by {
                if i < p.done.len() {
                    assert(paginate(lines).done[i] == p.done[i]);
                }
            }
        } else {
            lemma_total_len_push(p.current, l);
            assert(paginate(lines).done.flatten() + paginate(lines).current =~= lines);
        }
    }
}

/// Paging never loses, repeats or reorders lines: the pages, read one after the
/// other, are the lines themselves.
pub proof fn lemma_pages_cover_lines(lines: Seq<Line>)
    ensures
        spec_pages(lines).flatten() == lines,
{
    lemma_paginate(lines);
    let p = paginate(lines);
    p.done.lemma_flatten_push(p.current);
}

/// Every page keeps within `PAGE_LENGTH` bytes unless it holds a single line,
/// and there is always at least one page.
pub proof fn lemma_pages_fit(lines: Seq<Line>)
    ensures
        spec_pages(lines).len() >= 1,
        forall|i: int| 0 <= i < spec_pages(lines).len() ==> page_fits(#[trigger] spec_pages(lines)[i]),
{
    lemma_paginate(lines);
    let p = paginate(lines);
    assert forall|i: int| 0 <= i < spec_pages(lines).len() implies page_fits(#[trigger] spec_pages(lines)[i]) by {
        if i < p.done.len() {
            assert(spec_pages(lines)[i] == p.done[i]);
        }
    }
}

/// The page that follows the song is always one of the pages.
pub proof fn lemma_page_at_in_range(pages: Seq<Seq<Line>>, position: u32, i: nat)
    requires
        pages.len() >= 1,
    ensures
        spec_page_at(pages, position, i) matches Some(k) ==> k < pages.len(),
    decreases pages.len() - i,
{
    if i < pages.len() {
        lemma_page_at_in_range(pages, position, i + 1);
    }
}

/// A page found from index `j` on is at least the page before `j`.
proof fn lemma_page_at_lower(pages: Seq<Seq<Line>>, position: u32, j: nat)
    requires
        pages.len() >= 1,
        j <= pages.len(),
    ensures
        spec_page_at(pages, position, j) matches Some(k) ==> k + 1 >= j,
    decreases pages.len() - j,
{
    if j < pages.len() {
        lemma_page_at_lower(pages, position, j + 1);
    }
}

proof fn lemma_page_at_monotone(pages: Seq<Seq<Line>>, p1: u32, p2: u32, i: nat)
    requires
        pages.len() >= 1,
        i <= pages.len(),
        p1 <= p2,
    ensures
        (spec_page_at(pages, p1, i) is Some && spec_page_at(pages, p2, i) is Some) ==>
            spec_page_at(pages, p1, i)->0 <= spec_page_at(pages, p2, i)->0,
    decreases pages.len() - i,
{
    if i < pages.len() {
        lemma_page_at_monotone(pages, p1, p2, i + 1);
        lemma_page_at_lower(pages, p2, i + 1);
    }
}

/// The page shown never moves backwards as playback advances: at a later
/// position the page found is the same or a later one.
pub proof fn lemma_page_never_moves_back(lines: Seq<Line>, p1: u32, p2: u32)
    requires
        p1 <= p2,
    ensures
        (spec_page_at(spec_pages(lines), p1, 0) is Some && spec_page_at(spec_pages(lines), p2, 0) is Some) ==>
            spec_page_at(spec_pages(lines), p1, 0)->0 <= spec_page_at(spec_pages(lines), p2, 0)->0,
{
    lemma_page_at_monotone(spec_pages(lines), p1, p2, 0);
}

/// Every line's start time is a number.
pub open spec fn all_starts_parse(lines: Seq<Line>) -> bool {
    forall|i: int| 0 <= i < lines.len() ==> (#[trigger] line_start(lines[i])) is Some
}

/// The lines on the pages are lines of the input.
proof fn lemma_paginate_members(lines: Seq<Line>)
    ensures
        forall|k: int, j: int| 0 <= k < paginate(lines).done.len() && 0 <= j < paginate(lines).done[k].len()
            ==> lines.contains(#[trigger] paginate(lines).done[k][j]),
        forall|j: int| 0 <= j < paginate(lines).current.len() ==> lines.contains(#[trigger] paginate(lines).current[j]),
    decreases lines.len(),
{
    if lines.len() > 0 {
        let pre = lines.drop_last();
        let l = lines.last();
        lemma_paginate_members(pre);
        let p = paginate(pre);
        assert(lines[lines.len() - 1] == l);
        assert forall|x: Line| pre.contains(x) implies lines.contains(x) by {
            let i = choose|i: int| 0 <= i < pre.len() && pre[i] == x;
            assert(lines[i] == x);
        }
        let q = paginate(lines);
        assert forall|k: int, j: int| 0 <= k < q.done.len() && 0 <= j < q.done[k].len() implies lines.contains(#[trigger] q.done[k][j]) by {
            if k < p.done.len() {
                assert(q.done[k] == p.done[k]);
                assert(pre.contains(p.done[k][j]));
            } else {
                assert(q.done[k] == p.current);
                assert(pre.contains(p.current[j]));
            }
        }
        assert forall|j: int| 0 <= j < q.current.len() implies lines.contains(#[trigger] q.current[j]) by {
            if j < p.current.len() && q.current.len() == p.current.len() + 1 {
                assert(q.current[j] == p.current[j]);
                assert(pre.contains(p.current[j]));
            } else {
                assert(q.current[j] == l);
            }
        }
    }
}

proof fn lemma_page_at_found(pages: Seq<Seq<Line>>, position: u32, i: nat)
    requires
        pages.len() >= 1,
        i <= pages.len(),
        forall|k: int, j: int| 0 <= k < pages.len() && 0 <= j < pages[k].len() ==> (#[trigger] line_start(pages[k][j])) is Some,
    ensures
        spec_page_at(pages, position, i) is Some,
    decreases pages.len() - i,
{
    if i < pages.len() {
        lemma_page_at_found(pages, position, i + 1);
        if pages[i as int].len() > 0 {
            assert(line_start(pages[i as int][0]) is Some);
            assert(line_start(pages[i as int][pages[i as int].len() - 1]) is Some);
        }
    }
}

/// When every start time is a number, a page is found at every position, and
/// the page shown never moves backwards as playback advances.
pub proof fn lemma_page_found_and_advances(lines: Seq<Line>, p1: u32, p2: u32)
    requires
        all_starts_parse(lines),
        p1 <= p2,
    ensures
        spec_page_at(spec_pages(lines), p1, 0) is Some,
        spec_page_at(spec_pages(lines), p2, 0) is Some,
        spec_page_at(spec_pages(lines), p1, 0)->0 <= spec_page_at(spec_pages(lines), p2, 0)->0,
{
    lemma_paginate_members(lines);
    let pages = spec_pages(lines);
    let p = paginate(lines);
    assert forall|k: int, j: int| 0 <= k < pages.len() && 0 <= j < pages[k].len() implies (#[trigger] line_start(pages[k][j])) is Some by {
        let x = pages[k][j];
        if k < p.done.len() {
            assert(pages[k] == p.done[k]);
            assert(lines.contains(p.done[k][j]));
        } else {
            assert(pages[k] == p.current);
            assert(lines.contains(p.current[j]));
        }
        let i = choose|i: int| 0 <= i < lines.len() && lines[i] == x;
        assert(line_start(lines[i]) is Some);
    }
    lemma_page_at_found(pages, p1, 0);
    lemma_page_at_found(pages, p2, 0);
    lemma_page_never_moves_back(lines, p1, p2);
}

/// Whether the byte lengths of the lines add up within a `usize`.
pub fn lines_fit_check(lines: &Vec<Line>) -> (r: bool)
    ensures
        r == lines_fit(lines@),
{
    let mut total: usize = 0;
    for i in 0..lines.len()
        invariant
            total == total_len(lines@.take(i as int)),
    {
        proof {
            assert(lines@.take(i + 1).drop_last() =~= lines@.take(i as int));
        }
        let b = lines[i].words.as_str().as_bytes();
        let len = b.len();
        proof {
            assert(b@.len() == word_len(lines@[i as int]));
        }
        if len > usize::MAX - total {
            proof {
                lemma_total_len_prefix(lines@, i + 1);
            }
            return false;
        }
        total = total + len;
    }
    proof {
        assert(lines@.take(lines@.len() as int) =~= lines@);
    }
    true
}

/// Whether `lyrics_buttons` and `LyricsEmbed::handle_press` can work with these
/// lyrics (see [`lyrics_pageable`]).
pub fn lyrics_pageable_check(lyrics: &Option<Lyrics>) -> (r: bool)
    ensures
        r == lyrics_pageable(lyrics_view(*lyrics)),
{
    match lyrics {
        Some(l) => {
            if !lines_fit_check(&l.lines) {
                return false;
            }
            match l.sync_type {
                SyncType::Unsynced => page_count(&l.lines) > 0,
                SyncType::LineSynced => true,
            }
        },
        None => true,
    }
}

/// Whether `lyrics_embed` can show these lyrics at `page` (see
/// [`lyrics_drawable`]).
pub fn lyrics_drawable_check(lyrics: &Option<Lyrics>, page: usize) -> (r: bool)
    ensures
        r == lyrics_drawable(lyrics_view(*lyrics), page as nat),
{
    match lyrics {
        Some(l) => {
            if !lines_fit_check(&l.lines) {
                return false;
            }
            if page > usize::MAX / PAGE_LENGTH {
                proof {
                    assert(page * (PAGE_LENGTH as nat) > usize::MAX) by (nonlinear_arith)
                        requires
                            page > usize::MAX / PAGE_LENGTH,
                    ;
                }
                return false;
            }
            proof {
                assert(page * (PAGE_LENGTH as nat) <= usize::MAX) by (nonlinear_arith)
                    requires
                        page <= usize::MAX / PAGE_LENGTH,
                ;
            }
            let length = lyrics_length(&l.lines);
            let index = if page * PAGE_LENGTH > length { 0 } else { page };
            let pages = into_pages(&l.lines);
            proof {
                assert(pages@.len() == pages_view(pages@).len());
            }
            index < pages.len()
        },
        None => true,
    }
}

proof fn lemma_total_len_prefix(lines: Seq<Line>, n: int)
    requires
        0 <= n <= lines.len(),
    ensures
        total_len(lines.take(n)) <= total_len(lines),
    decreases lines.len(),
{
    if n < lines.len() {
        lemma_total_len_prefix(lines.drop_last(), n);
        assert(lines.drop_last().take(n) =~= lines.take(n));
    } else {
        assert(lines.take(n) =~= lines);
    }
}

/// What a lyrics message does on a clock tick.
#[derive(Debug, PartialEq, Eq, Structural)]
pub enum TickOutcome {
    /// The session is gone: stop following it.
    Stop,
    /// Nothing to redraw.
    Keep,
    /// The track or the page changed: redraw the message.
    Redraw,
}

/// The state of a lyrics message that follows a session: whose guild it belongs
/// to, the track it shows lyrics of, those lyrics and the page shown.
pub struct LyricsEmbed {
    pub guild_id: String,
    pub track: SpotifyIdDef,
    pub lyrics: Option<Lyrics>,
    pub page: usize,
}

/// Whether a button press belongs to the lyrics message of guild `guild_id`:
/// its id starts with the `lyrics` piece and ends with the guild's id.
pub open spec fn spec_press_matches(custom_id: Seq<char>, guild_id: Seq<char>) -> bool {
    split_on(custom_id, ':')[0] == "lyrics"@ && split_on(custom_id, ':').last() == guild_id
}

/// The page after a press of a page button (`next` tells which one), or `None`
/// where the press changes nothing: the lyrics are synced or missing, no track
/// details could be had, or the button leads off the pages.
pub open spec fn spec_press_page(lyrics: Option<LyricsView>, page: nat, next: bool, info_present: bool) -> Option<nat> {
    match lyrics {
        None => None,
        Some(l) => if l.sync_type is LineSynced || !info_present {
            None
        } else if next && page + 1 < spec_page_count(l.lines) {
            Some(page + 1)
        } else if !next && page > 0 {
            Some((page - 1) as nat)
        } else {
            None
        },
    }
}

impl LyricsEmbed {
    /// Starts a lyrics message for the track that plays; `None` (answered with "not
    /// playing") when the session is inactive or nothing plays.
    pub fn create(active: bool, player_info: Option<&PlayerInfo>, guild_id: String) -> (r: Option<LyricsEmbed>)
        ensures
            match player_info {
                Some(info) if active => r matches Some(e) && {
                    &&& e.guild_id == guild_id
                    &&& e.track == info@.track.id()
                    &&& lyrics_view(e.lyrics) == info@.lyrics
                    &&& e.page == 0
                },
                _ => r is None,
            },
    {
        if !active {
            return None;
        }
        let info = match player_info {
            Some(info) => info,
            None => return None,
        };
        let lyrics = match info.lyrics() {
            Some(l) => Some(l.clone()),
            None => None,
        };
        Some(LyricsEmbed { guild_id, track: info.track().track_id(), lyrics, page: 0 })
    }

    /// Whether a button press is meant for this message.
    pub fn press_matches(&self, custom_id: &str) -> (r: bool)
        ensures
            r == spec_press_matches(custom_id@, self.guild_id@),
    {
        let first = split_nth(custom_id, ':', 0);
        proof {
            crate::text::lemma_split_on_nonempty(custom_id@, ':');
        }
        let is_lyrics = match first {
            Some(p) => chars_eq(&p, "lyrics"),
            None => false,
        };
        let last = crate::text::split_last(custom_id, ':');
        is_lyrics && chars_eq(&last, self.guild_id.as_str())
    }

    /// Follows the session on a clock tick. `session_valid` tells whether the
    /// session still runs, `active` whether it has a user, `info` what plays and
    /// `position` the playback position (in milliseconds).
    ///
    /// When another track plays, its lyrics are taken and the first page is shown.
    /// Synced lyrics of the same track move to the page at the position (the first
    /// page when a start time is not a number).
    pub fn handle_tick(&mut self, session_valid: bool, active: bool, info: Option<&PlayerInfo>, position: u32) -> (r: TickOutcome)
        requires
            match lyrics_view(old(self).lyrics) {
                Some(l) => lines_fit(l.lines),
                None => true,
            },
        ensures
            final(self).guild_id == old(self).guild_id,
            !session_valid ==> r == TickOutcome::Stop && *final(self) == *old(self),
            session_valid && !active ==> r == TickOutcome::Keep && *final(self) == *old(self),
            session_valid && active ==> match info {
                None => r == TickOutcome::Keep && *final(self) == *old(self),
                Some(i) => if i@.track.id() != old(self).track {
                    &&& r == TickOutcome::Redraw
                    &&& final(self).track == i@.track.id()
                    &&& lyrics_view(final(self).lyrics) == i@.lyrics
                    &&& final(self).page == 0
                } else {
                    &&& final(self).track == old(self).track
                    &&& lyrics_view(final(self).lyrics) == lyrics_view(old(self).lyrics)
                    &&& match lyrics_view(old(self).lyrics) {
                        Some(l) if l.sync_type is LineSynced => {
                            let new_page = match spec_page_at(spec_pages(l.lines), position, 0) {
                                Some(k) => k,
                                None => 0,
                            };
                            &&& final(self).page == new_page
                            &&& r == if new_page != old(self).page { TickOutcome::Redraw } else { TickOutcome::Keep }
                        },
                        _ => final(self).page == old(self).page && r == TickOutcome::Keep,
                    }
                },
            },
    {
        if !session_valid {
            return TickOutcome::Stop;
        }
        if !active {
            return TickOutcome::Keep;
        }
        let info = match info {
            Some(i) => i,
            None => return TickOutcome::Keep,
        };
        let id = info.track().track_id();
        if id != self.track {
            self.lyrics = match info.lyrics() {
                Some(l) => Some(l.clone()),
                None => None,
            };
            self.page = 0;
            self.track = id;
            return TickOutcome::Redraw;
        }
        let lyrics = match &self.lyrics {
            Some(l) => l,
            None => return TickOutcome::Keep,
        };
        if !matches!(lyrics.sync_type, SyncType::LineSynced) {
            return TickOutcome::Keep;
        }
        let new_page = match page_at_position(lyrics, position) {
            Some(k) => k,
            None => 0,
        };
        if new_page != self.page {
            self.page = new_page;
            TickOutcome::Redraw
        } else {
            TickOutcome::Keep
        }
    }

    /// Handles a press of one of the page buttons (`custom_id` is the button's
    /// id, `info_present` whether the track details could be had). Returns
    /// whether the page changed and the message must be redrawn.
    pub fn handle_press(&mut self, custom_id: &str, info_present: bool) -> (r: bool)
        requires
            lyrics_pageable(lyrics_view(old(self).lyrics)),
        ensures
            final(self).guild_id == old(self).guild_id,
            final(self).track == old(self).track,
            final(self).lyrics == old(self).lyrics,
            ({
                let pieces = split_on(custom_id@, ':');
                let step = if pieces.len() > 1 && pieces[1] == "next"@ {
                    spec_press_page(lyrics_view(old(self).lyrics), old(self).page as nat, true, info_present)
                } else if pieces.len() > 1 && pieces[1] == "prev"@ {
                    spec_press_page(lyrics_view(old(self).lyrics), old(self).page as nat, false, info_present)
                } else {
                    None
                };
                match step {
                    Some(p) => r && final(self).page == p,
                    None => !r && final(self).page == old(self).page,
                }
            }),
    {
        let next = match split_nth(custom_id, ':', 1) {
            Some(p) => if chars_eq(&p, "next") {
                true
            } else if chars_eq(&p, "prev") {
                false
            } else {
                return false;
            },
            None => return false,
        };
        let pages = match &self.lyrics {
            None => return false,
            Some(l) => {
                if !matches!(l.sync_type, SyncType::Unsynced) {
                    return false;
                }
                page_count(&l.lines)
            },
        };
        if !info_present {
            return false;
        }
        if next && self.page < pages - 1 {
            self.page = self.page + 1;
        } else if !next && self.page > 0 {
            self.page = self.page - 1;
        } else {
            return false;
        }
        true
    }
}


/// The page buttons never lead off the pages: a press from a page within the
/// counted pages lands on a page within them.
pub proof fn lemma_press_stays_on_pages(lyrics: LyricsView, page: nat, next: bool, info_present: bool)
    requires
        page < spec_page_count(lyrics.lines),
    ensures
        spec_press_page(Some(lyrics), page, next, info_present) matches Some(p) ==> p < spec_page_count(lyrics.lines),
{
}
} // verus!
