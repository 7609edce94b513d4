//! Lyrics of a track, as Spotify provides them.
use vstd::prelude::*;

verus! {

/// The lyrics of one track.
#[derive(Debug, PartialEq, Eq)]
pub struct Lyrics {
    pub is_dense_typeface: bool,
    pub is_rtl_language: bool,
    pub language: String,
    pub lines: Vec<Line>,
    pub provider: String,
    pub provider_display_name: String,
    pub provider_lyrics_id: String,
    pub sync_lyrics_uri: String,
    pub sync_type: SyncType,
}

/// One line of lyrics with the times (in milliseconds, as text) at which it is sung.
#[derive(Debug, PartialEq, Eq)]
pub struct Line {
    pub start_time_ms: String,
    pub end_time_ms: String,
    pub words: String,
}

/// Whether the lines carry timing that follows the song.
#[derive(Debug, PartialEq, Eq, Structural, Clone, Copy)]
pub enum SyncType {
    Unsynced,
    LineSynced,
}

impl Clone for Line {
    fn clone(&self) -> (r: Self)
        ensures
            r == *self,
    {
        Line {
            start_time_ms: self.start_time_ms.clone(),
            end_time_ms: self.end_time_ms.clone(),
            words: self.words.clone(),
        }
    }
}

/// Clones a sequence of lines, element by element.
pub fn clone_lines(lines: &Vec<Line>) -> (r: Vec<Line>)
    ensures
        r@ == lines@,
{
    let mut r: Vec<Line> = Vec::new();
    for i in 0..lines.len()
        invariant
            r@ == lines@.take(i as int),
    {
        r.push(lines[i].clone());
        proof {
            assert(r@ =~= lines@.take(i + 1));
        }
    }
    proof {
        assert(lines@.take(lines@.len() as int) =~= lines@);
    }
    r
}

/// Lyrics as plain values.
pub struct LyricsView {
    pub is_dense_typeface: bool,
    pub is_rtl_language: bool,
    pub language: Seq<char>,
    pub lines: Seq<Line>,
    pub provider: Seq<char>,
    pub provider_display_name: Seq<char>,
    pub provider_lyrics_id: Seq<char>,
    pub sync_lyrics_uri: Seq<char>,
    pub sync_type: SyncType,
}

impl View for Lyrics {
    type V = LyricsView;

    open spec fn view(&self) -> LyricsView {
        LyricsView {
            is_dense_typeface: self.is_dense_typeface,
            is_rtl_language: self.is_rtl_language,
            language: self.language@,
            lines: self.lines@,
            provider: self.provider@,
            provider_display_name: self.provider_display_name@,
            provider_lyrics_id: self.provider_lyrics_id@,
            sync_lyrics_uri: self.sync_lyrics_uri@,
            sync_type: self.sync_type,
        }
    }
}

impl Clone for Lyrics {
    fn clone(&self) -> (r: Self)
        ensures
            r@ == self@,
    {
        let lines = clone_lines(&self.lines);
        proof {
            assert(lines@ =~= self.lines@);
        }
        Lyrics {
            is_dense_typeface: self.is_dense_typeface,
            is_rtl_language: self.is_rtl_language,
            language: self.language.clone(),
            lines,
            provider: self.provider.clone(),
            provider_display_name: self.provider_display_name.clone(),
            provider_lyrics_id: self.provider_lyrics_id.clone(),
            sync_lyrics_uri: self.sync_lyrics_uri.clone(),
            sync_type: self.sync_type,
        }
    }
}

} // verus!
