//! The "now playing" message: its text, its media buttons, how button presses
//! are answered, and how often it is redrawn.
use vstd::prelude::*;

use crate::session::SessionPlayerCommand;
use crate::shared::player_info::{spec_base62, Artist, PlayerInfo, PlayerInfoView, PlayerTrack, PlayerTrackView, SpotifyIdDef};
use crate::text::{chars_eq, push_char, push_decimal, push_str, split_last, split_on, decimal};
use crate::utils::{time_text, time_to_string};

verus! {

/// Commands to a running "now playing" message.
#[derive(Debug)]
pub enum Command {
    /// Redraw the message; `true` edits it in place even when it is pinned.
    InvokeUpdate(bool),
}

/// How a "now playing" message follows playback.
#[derive(Debug, Clone, Copy, PartialEq, Eq, Structural)]
pub enum UpdateBehavior {
    /// Automatically update the embed
    Default,
    /// Do not update the embed
    Static,
    /// Re-send the embed after track changes
    Pinned,
}

impl Default for UpdateBehavior {
    fn default() -> (r: Self)
        ensures
            r == UpdateBehavior::Default,
    {
        UpdateBehavior::Default
    }
}

impl UpdateBehavior {
    /// Whether the message is never updated.
    pub fn is_static(&self) -> (r: bool)
        ensures
            r == (*self == UpdateBehavior::Static),
    {
        matches!(self, UpdateBehavior::Static)
    }

    /// Whether the message is sent anew after track changes.
    pub fn is_pinned(&self) -> (r: bool)
        ensures
            r == (*self == UpdateBehavior::Pinned),
    {
        matches!(self, UpdateBehavior::Pinned)
    }
}

/// Milliseconds that must pass between two redraws of a message.
pub const UPDATE_INTERVAL_MS: u64 = 2000;

/// The redraw schedule of a "now playing" message that follows a session.
/// Times are milliseconds on the caller's monotonic clock.
#[derive(Debug)]
pub struct PlaybackEmbed {
    pub id: u64,
    pub last_update: u64,
    pub update_in: Option<u64>,
    pub force_edit: bool,
    pub update_behavior: UpdateBehavior,
}

/// What a "now playing" message does with a redraw request.
#[derive(Debug, PartialEq, Eq, Structural)]
pub enum UpdateDecision {
    /// Redraw now; `true` edits the message in place.
    Now(bool),
    /// A redraw is scheduled (or already was): wait for it.
    Later,
}

/// How a command to create a "now playing" message is answered.
#[derive(Debug)]
pub enum CreatePlan {
    /// Answer that nothing is playing.
    NotPlaying,
    /// Show the message once and never update it.
    Static,
    /// Show the message and follow playback with it.
    Follow(PlaybackEmbed),
}

/// Whether a redraw may happen at `now`: the interval since the last one has passed.
pub open spec fn redraw_due(last_update: u64, now: u64) -> bool {
    now >= last_update + UPDATE_INTERVAL_MS
}

/// The new schedule and the decision after a redraw request at `now`.
pub open spec fn spec_handle_command(e: PlaybackEmbed, force_edit: bool, now: u64) -> (PlaybackEmbed, UpdateDecision) {
    if redraw_due(e.last_update, now) {
        (PlaybackEmbed { last_update: now, update_in: None, ..e }, UpdateDecision::Now(force_edit))
    } else if e.update_in is Some {
        (e, UpdateDecision::Later)
    } else {
        (
            PlaybackEmbed { update_in: Some((e.last_update + UPDATE_INTERVAL_MS - now) as u64), force_edit, ..e },
            UpdateDecision::Later,
        )
    }
}

/// The new schedule and the scheduled redraw taken at `now`, if it is due.
pub open spec fn spec_take_scheduled(e: PlaybackEmbed, now: u64) -> (PlaybackEmbed, Option<bool>) {
    if e.update_in is Some && redraw_due(e.last_update, now) {
        (PlaybackEmbed { last_update: now, update_in: None, ..e }, Some(e.force_edit))
    } else {
        (e, None)
    }
}

/// What a redraw of the message does.
#[derive(Debug, Clone, Copy, PartialEq, Eq, Structural)]
pub enum UpdateAction {
    /// Show that nothing plays (deleting the message and sending it anew when
    /// `resend`), and stop following playback.
    ShowNotPlaying { resend: bool },
    /// Stop following playback without a change.
    Stop,
    /// Delete the message and send it anew.
    Resend,
    /// Edit the message in place.
    Edit,
}

/// See [`PlaybackEmbed::update_action`].
pub open spec fn spec_update_action(e: PlaybackEmbed, owner_known: bool, info_known: bool, owner_resolved: bool, force_edit: bool) -> UpdateAction {
    if !owner_known || !info_known {
        UpdateAction::ShowNotPlaying { resend: e.update_behavior == UpdateBehavior::Pinned }
    } else if !owner_resolved {
        UpdateAction::Stop
    } else if !force_edit && e.update_behavior == UpdateBehavior::Pinned {
        UpdateAction::Resend
    } else {
        UpdateAction::Edit
    }
}

/// A redraw decided at `now`, at once or from the schedule, records `now` as the
/// time of the last redraw; a decision that does not redraw keeps that time.
pub proof fn lemma_redraw_records_time(e: PlaybackEmbed, force_edit: bool, now: u64)
    ensures
        spec_handle_command(e, force_edit, now).1 is Now ==> spec_handle_command(e, force_edit, now).0.last_update == now,
        spec_handle_command(e, force_edit, now).1 is Later ==> spec_handle_command(e, force_edit, now).0.last_update == e.last_update,
        spec_take_scheduled(e, now).1 is Some ==> spec_take_scheduled(e, now).0.last_update == now,
        spec_take_scheduled(e, now).1 is None ==> spec_take_scheduled(e, now).0 == e,
{
}

/// The schedule after a redraw at `now` from `e`: the one handling the request
/// when that redraws at once, else the one taking the scheduled redraw.
pub open spec fn after_redraw(e: PlaybackEmbed, force_edit: bool, now: u64) -> PlaybackEmbed {
    if spec_handle_command(e, force_edit, now).1 is Now {
        spec_handle_command(e, force_edit, now).0
    } else {
        spec_take_scheduled(e, now).0
    }
}

/// Redraws are at least `UPDATE_INTERVAL_MS` apart: after a redraw at `t1` (at
/// once or from the schedule), any schedule `mid` reached from it by steps that
/// keep the recorded time lets the next redraw come only at
/// `t2 >= t1 + UPDATE_INTERVAL_MS`.
pub proof fn lemma_redraws_apart(e: PlaybackEmbed, f1: bool, t1: u64, mid: PlaybackEmbed, f2: bool, t2: u64)
    requires
        spec_handle_command(e, f1, t1).1 is Now || spec_take_scheduled(e, t1).1 is Some,
        mid.last_update == after_redraw(e, f1, t1).last_update,
        spec_handle_command(mid, f2, t2).1 is Now || spec_take_scheduled(mid, t2).1 is Some,
    ensures
        t2 >= t1 + UPDATE_INTERVAL_MS,
{
    lemma_redraw_records_time(e, f1, t1);
}

impl PlaybackEmbed {
    /// Decides how to answer a request for a "now playing" message with id `id`,
    /// created at time `now`: nothing to show when the session is inactive or
    /// nothing plays; a one-off message when static; else a followed message.
    pub fn create(active: bool, playing_something: bool, id: u64, update_behavior: UpdateBehavior, now: u64) -> (r: CreatePlan)
        ensures
            !active || !playing_something ==> r is NotPlaying,
            active && playing_something && update_behavior == UpdateBehavior::Static ==> r is Static,
            active && playing_something && update_behavior != UpdateBehavior::Static ==> (r matches CreatePlan::Follow(e) && {
                &&& e.id == id
                &&& e.last_update == now
                &&& e.update_in is None
                &&& !e.force_edit
                &&& e.update_behavior == update_behavior
            }),
    {
        if !active || !playing_something {
            return CreatePlan::NotPlaying;
        }
        if update_behavior.is_static() {
            return CreatePlan::Static;
        }
        CreatePlan::Follow(PlaybackEmbed { id, last_update: now, update_in: None, force_edit: false, update_behavior })
    }

    /// Handles a redraw request at time `now`. Within `UPDATE_INTERVAL_MS` of the
    /// last redraw the request is held back: the first such request schedules a
    /// redraw for when the interval ends, with its `force_edit`; later ones wait
    /// for it. Otherwise the message is redrawn now: the time is recorded and a
    /// scheduled redraw is dropped.
    pub fn handle_command(&mut self, command: Command, now: u64) -> (r: UpdateDecision)
        requires
            now >= old(self).last_update,
        ensures
            ({
                let Command::InvokeUpdate(force_edit) = command;
                (*final(self), r) == spec_handle_command(*old(self), force_edit, now)
            }),
            ({
                let Command::InvokeUpdate(force_edit) = command;
                now - old(self).last_update >= UPDATE_INTERVAL_MS ==> r == UpdateDecision::Now(force_edit)
                    && final(self).last_update == now
            }),
            ({
                let Command::InvokeUpdate(force_edit) = command;
                now - old(self).last_update < UPDATE_INTERVAL_MS ==> r == UpdateDecision::Later
                    && final(self).last_update == old(self).last_update
            }),
    {
        let Command::InvokeUpdate(force_edit) = command;
        let elapsed = now - self.last_update;
        if elapsed < UPDATE_INTERVAL_MS {
            if self.update_in.is_some() {
                return UpdateDecision::Later;
            }
            self.update_in = Some(UPDATE_INTERVAL_MS - elapsed);
            self.force_edit = force_edit;
            UpdateDecision::Later
        } else {
            self.last_update = now;
            self.update_in = None;
            UpdateDecision::Now(force_edit)
        }
    }

    /// Takes the scheduled redraw at time `now`, once the interval since the last
    /// redraw has passed: returns its `force_edit` and records the time. Before
    /// that, or with nothing scheduled, nothing changes.
    pub fn take_scheduled(&mut self, now: u64) -> (r: Option<bool>)
        requires
            now >= old(self).last_update,
        ensures
            (*final(self), r) == spec_take_scheduled(*old(self), now),
    {
        if self.update_in.is_some() && now - self.last_update >= UPDATE_INTERVAL_MS {
            self.update_in = None;
            self.last_update = now;
            Some(self.force_edit)
        } else {
            None
        }
    }

    /// When a scheduled redraw is due: the end of the interval since the last
    /// redraw (saturated at the end of the clock).
    pub fn scheduled_at(&self) -> (r: u64)
        ensures
            r == if self.last_update + UPDATE_INTERVAL_MS <= u64::MAX {
                (self.last_update + UPDATE_INTERVAL_MS) as u64
            } else {
                u64::MAX
            },
    {
        if self.last_update <= u64::MAX - UPDATE_INTERVAL_MS {
            self.last_update + UPDATE_INTERVAL_MS
        } else {
            u64::MAX
        }
    }

    /// What a redraw does, given whether the session's owner (`owner_known`) and
    /// the track details (`info_known`) could be had and whether the owner's
    /// profile could be looked up (`owner_resolved`): without owner or details
    /// the message says that nothing plays and stops following playback; without
    /// the profile it stops; otherwise it is sent anew when pinned and not
    /// edited in place, or else edited.
    pub fn update_action(&self, owner_known: bool, info_known: bool, owner_resolved: bool, force_edit: bool) -> (r: UpdateAction)
        ensures
            r == spec_update_action(*self, owner_known, info_known, owner_resolved, force_edit),
    {
        if !owner_known || !info_known {
            UpdateAction::ShowNotPlaying { resend: self.update_behavior.is_pinned() }
        } else if !owner_resolved {
            UpdateAction::Stop
        } else if self.should_pin(force_edit) {
            UpdateAction::Resend
        } else {
            UpdateAction::Edit
        }
    }

    /// Whether a redraw deletes the message and sends it anew (a pinned message
    /// that is not edited in place).
    pub fn should_pin(&self, force_edit: bool) -> (r: bool)
        ensures
            r == (!force_edit && self.update_behavior == UpdateBehavior::Pinned),
    {
        !force_edit && self.update_behavior.is_pinned()
    }
}

/// The style of a button.
#[derive(Debug, Clone, Copy, PartialEq, Eq, Structural)]
pub enum ButtonStyle {
    Primary,
    Success,
    Danger,
}

/// One button: its id, label and style.
pub struct Button {
    pub id: String,
    pub label: String,
    pub style: ButtonStyle,
}

/// The id of a media button of message `id`: the message id, `-` and the action.
pub open spec fn button_id(id: u64, action: Seq<char>) -> Seq<char> {
    decimal(id as nat) + seq!['-'] + action
}

fn make_button(id: u64, action: &str, label: &str, style: ButtonStyle) -> (r: Button)
    ensures
        r.id@ == button_id(id, action@),
        r.label@ == label@,
        r.style == style,
{
    let mut bid = String::new();
    push_decimal(&mut bid, id);
    push_char(&mut bid, '-');
    push_str(&mut bid, action);
    let mut l = String::new();
    push_str(&mut l, label);
    proof {
        assert(bid@ =~= button_id(id, action@));
        assert(l@ =~= label@);
    }
    Button { id: bid, label: l, style }
}

/// The media buttons of message `id`: back, play or pause, and forward. The
/// middle button pauses (red) while playing and plays (green) while paused.
pub fn build_buttons(id: u64, playing: bool) -> (r: Vec<Button>)
    ensures
        r@.len() == 3,
        r@[0].id@ == button_id(id, "prev"@) && r@[0].label@ == "<<"@ && r@[0].style == ButtonStyle::Primary,
        r@[1].id@ == button_id(id, "pause"@) && r@[1].label@ == (if playing { "Pause"@ } else { "Play"@ })
            && r@[1].style == (if playing { ButtonStyle::Danger } else { ButtonStyle::Success }),
        r@[2].id@ == button_id(id, "next"@) && r@[2].label@ == ">>"@ && r@[2].style == ButtonStyle::Primary,
{
    let prev = make_button(id, "prev", "<<", ButtonStyle::Primary);
    let next = make_button(id, "next", ">>", ButtonStyle::Primary);
    let pause = if playing {
        make_button(id, "pause", "Pause", ButtonStyle::Danger)
    } else {
        make_button(id, "pause", "Play", ButtonStyle::Success)
    };
    let mut v: Vec<Button> = Vec::new();
    v.push(prev);
    v.push(pause);
    v.push(next);
    v
}

/// How a press of a media button is answered.
#[derive(Debug, PartialEq, Eq, Structural)]
pub enum PressOutcome {
    /// Nothing plays (or its details could not be had): refuse.
    NotPlaying,
    /// Only the session's owner may use the buttons: refuse.
    NotHost,
    /// Acknowledge, after sending the command if there is one.
    Act(Option<SessionPlayerCommand>),
}

/// The command a button press asks for, from the last `-` piece of its id:
/// `next`, `prev`, or `pause`, which pauses while playing and plays while paused.
pub open spec fn spec_press_command(custom_id: Seq<char>, playing: bool) -> Option<SessionPlayerCommand> {
    let action = split_on(custom_id, '-').last();
    if action == "next"@ {
        Some(SessionPlayerCommand::NextTrack)
    } else if action == "prev"@ {
        Some(SessionPlayerCommand::PreviousTrack)
    } else if action == "pause"@ {
        Some(if playing { SessionPlayerCommand::Pause } else { SessionPlayerCommand::Play })
    } else {
        None
    }
}

/// Answers a press of a media button with id `custom_id`. `playing` is the
/// play state when the track details could be had, and `presser_is_owner`
/// whether the owner of the session pressed it.
pub fn handle_press(custom_id: &str, playing: Option<bool>, presser_is_owner: bool) -> (r: PressOutcome)
    ensures
        match playing {
            None => r == PressOutcome::NotPlaying,
            Some(p) => if !presser_is_owner {
                r == PressOutcome::NotHost
            } else {
                r == PressOutcome::Act(spec_press_command(custom_id@, p))
            },
        },
{
    let playing = match playing {
        Some(p) => p,
        None => return PressOutcome::NotPlaying,
    };
    if !presser_is_owner {
        return PressOutcome::NotHost;
    }
    let action = split_last(custom_id, '-');
    let command = if chars_eq(&action, "next") {
        Some(SessionPlayerCommand::NextTrack)
    } else if chars_eq(&action, "prev") {
        Some(SessionPlayerCommand::PreviousTrack)
    } else if chars_eq(&action, "pause") {
        Some(if playing { SessionPlayerCommand::Pause } else { SessionPlayerCommand::Play })
    } else {
        None
    };
    PressOutcome::Act(command)
}

/// Texts joined with a separator.
pub open spec fn join(parts: Seq<Seq<char>>, sep: Seq<char>) -> Seq<char>
    decreases parts.len(),
{
    if parts.len() == 0 {
        seq![]
    } else if parts.len() == 1 {
        parts[0]
    } else {
        join(parts.drop_last(), sep) + sep + parts.last()
    }
}

/// Joining puts the separator between every two neighbouring parts: the join
/// of two non-empty runs of parts put together is the join of the first, the
/// separator, and the join of the second.
pub proof fn lemma_join_concat(a: Seq<Seq<char>>, b: Seq<Seq<char>>, sep: Seq<char>)
    requires
        a.len() > 0,
        b.len() > 0,
    ensures
        join(a + b, sep) == join(a, sep) + sep + join(b, sep),
    decreases b.len(),
{
    let ab = a + b;
    if b.len() == 1 {
        assert(ab.drop_last() =~= a);
        assert(ab.last() == b[0]);
    } else {
        lemma_join_concat(a, b.drop_last(), sep);
        assert(ab.drop_last() =~= a + b.drop_last());
        assert(ab.last() == b.last());
        assert(join(ab, sep) =~= join(a, sep) + sep + join(b, sep));
    }
}

/// A redraw decided at once carries the request's own `force_edit`: once
/// `UPDATE_INTERVAL_MS` have passed since the last redraw, a request redraws now
/// and edits in place exactly when it asked to.
pub proof fn lemma_redraw_now_keeps_force(e: PlaybackEmbed, force_edit: bool, now: u64)
    requires
        now >= e.last_update + UPDATE_INTERVAL_MS,
    ensures
        spec_handle_command(e, force_edit, now).1 == UpdateDecision::Now(force_edit),
        spec_handle_command(e, force_edit, now).0.last_update == now,
        spec_handle_command(e, force_edit, now).0.update_in is None,
{
}

/// A Markdown link to an artist's page.
pub open spec fn artist_link(a: (Seq<char>, SpotifyIdDef)) -> Seq<char> {
    "["@ + a.0 + "](https://open.spotify.com/artist/"@ + spec_base62(a.1.id) + ")"@
}

/// The 20-step progress bar with the marker at step `index`.
pub open spec fn progress_bar(index: int) -> Seq<char> {
    Seq::new(20, |i: int| if i == index { '🔵' } else { '▬' })
}

/// The text of a "now playing" message for `track` at `position` (milliseconds):
/// title and link, artists, album or show, play state, a progress bar and the
/// elapsed and total time.
pub open spec fn spec_description(track: PlayerTrackView, playing: bool, position: u32) -> Seq<char> {
    "## ["@ + track.name() + "]("@ + track.url() + ")\n"@
        + match track {
            PlayerTrackView::Track { artists, .. } => "By "@ + join(artists.map_values(|a: (Seq<char>, SpotifyIdDef)| artist_link(a)), ", "@) + "\n"@,
            PlayerTrackView::Episode { .. } => seq![],
        }
        + match track {
            PlayerTrackView::Track { album, .. } => "Album: **"@ + album + "**\n"@,
            PlayerTrackView::Episode { .. } => seq![],
        }
        + match track {
            PlayerTrackView::Track { .. } => seq![],
            PlayerTrackView::Episode { show_name, .. } => "On "@ + show_name + "\n"@,
        }
        + "\n"@
        + (if playing { "▶️ "@ } else { "⏸️ "@ })
        + progress_bar(position * 20 / (track.duration() as int))
        + "\n:alarm_clock: "@
        + time_text((position / 1000) as nat) + " / "@ + time_text((track.duration() / 1000) as nat)
}

/// The parts of a "now playing" message that depend on what plays.
pub struct EmbedContent {
    pub description: String,
    pub thumbnail: Option<String>,
}

fn artist_links(artists: &Vec<Artist>) -> (r: String)
    ensures
        r@ == join(artists@.map_values(|a: Artist| (a.name@, a.id)).map_values(|a: (Seq<char>, SpotifyIdDef)| artist_link(a)), ", "@),
{
    let ghost parts = artists@.map_values(|a: Artist| (a.name@, a.id)).map_values(|a: (Seq<char>, SpotifyIdDef)| artist_link(a));
    let mut s = String::new();
    for i in 0..artists.len()
        invariant
            parts.len() == artists@.len(),
            parts == artists@.map_values(|a: Artist| (a.name@, a.id)).map_values(|a: (Seq<char>, SpotifyIdDef)| artist_link(a)),
            s@ == join(parts.take(i as int), ", "@),
    {
        proof {
            assert(parts.take(i + 1).drop_last() =~= parts.take(i as int));
            assert(parts[i as int] == artist_link((artists@[i as int].name@, artists@[i as int].id)));
        }
        let ghost before = s@;
        if i > 0 {
            push_str(&mut s, ", ");
        }
        let ghost mid = s@;
        push_str(&mut s, "[");
        push_str(&mut s, artists[i].name.as_str());
        push_str(&mut s, "](https://open.spotify.com/artist/");
        let b = artists[i].id.to_base62();
        push_str(&mut s, b.as_str());
        push_str(&mut s, ")");
        proof {
            assert(s@ =~= mid + parts[i as int]);
            assert(s@ =~= join(parts.take(i + 1), ", "@));
        }
    }
    proof {
        assert(parts.take(parts.len() as int) =~= parts);
    }
    s
}

fn push_bar(s: &mut String, index: u32)
    ensures
        final(s)@ == old(s)@ + progress_bar(index as int),
{
    let ghost start = s@;
    let mut i: u32 = 0;
    while i < 20
        invariant
            i <= 20,
            s@ == start + progress_bar(index as int).take(i as int),
        decreases 20 - i,
    {
        if i == index {
            push_char(s, '🔵');
        } else {
            push_char(s, '▬');
        }
        proof {
            assert(s@ =~= start + progress_bar(index as int).take(i + 1));
        }
        i = i + 1;
    }
    proof {
        assert(progress_bar(index as int).take(20) =~= progress_bar(index as int));
    }
}

/// The text and thumbnail of a "now playing" message at playback position
/// `position` (milliseconds).
pub fn build_embed(player_info: &PlayerInfo, position: u32) -> (r: EmbedContent)
    requires
        player_info@.track.duration() > 0,
        position * 20 <= u32::MAX,
    ensures
        r.description@ == spec_description(player_info@.track, player_info@.playing, position),
        match player_info@.track {
            PlayerTrackView::Track { thumbnail, .. } => match thumbnail {
                Some(t) => r.thumbnail matches Some(s) && s@ == t,
                None => r.thumbnail is None,
            },
            PlayerTrackView::Episode { thumbnail, .. } => r.thumbnail matches Some(s) && s@ == thumbnail,
        },
{
    let track = player_info.track();
    let ghost t = player_info@.track;
    let mut d = String::new();
    push_str(&mut d, "## [");
    push_str(&mut d, track.name());
    push_str(&mut d, "](");
    let url = track.url();
    push_str(&mut d, url.as_str());
    push_str(&mut d, ")\n");
    let ghost head = d@;
    if let Some(artists) = track.artists() {
        push_str(&mut d, "By ");
        let links = artist_links(&artists);
        push_str(&mut d, links.as_str());
        push_str(&mut d, "\n");
    }
    let ghost with_artists = d@;
    if let Some(album_name) = track.album_name() {
        push_str(&mut d, "Album: **");
        push_str(&mut d, album_name.as_str());
        push_str(&mut d, "**\n");
    }
    let ghost with_album = d@;
    if let Some(show_name) = track.show_name() {
        push_str(&mut d, "On ");
        push_str(&mut d, show_name.as_str());
        push_str(&mut d, "\n");
    }
    let ghost with_show = d@;
    push_str(&mut d, "\n");
    let playing = player_info.playing();
    if playing {
        push_str(&mut d, "▶️ ");
    } else {
        push_str(&mut d, "⏸️ ");
    }
    let duration = track.duration();
    let index = position * 20 / duration;
    push_bar(&mut d, index);
    push_str(&mut d, "\n:alarm_clock: ");
    let elapsed = time_to_string(position / 1000);
    push_str(&mut d, elapsed.as_str());
    push_str(&mut d, " / ");
    let total = time_to_string(duration / 1000);
    push_str(&mut d, total.as_str());
    proof {
        let artists_part = match t {
            PlayerTrackView::Track { artists, .. } => "By "@ + join(artists.map_values(|a: (Seq<char>, SpotifyIdDef)| artist_link(a)), ", "@) + "\n"@,
            PlayerTrackView::Episode { .. } => seq![],
        };
        let album_part = match t {
            PlayerTrackView::Track { album, .. } => "Album: **"@ + album + "**\n"@,
            PlayerTrackView::Episode { .. } => seq![],
        };
        let show_part = match t {
            PlayerTrackView::Track { .. } => seq![],
            PlayerTrackView::Episode { show_name, .. } => "On "@ + show_name + "\n"@,
        };
        assert(head =~= "## ["@ + t.name() + "]("@ + t.url() + ")\n"@);
        assert(with_artists =~= head + artists_part);
        assert(with_album =~= with_artists + album_part);
        assert(with_show =~= with_album + show_part);
        assert(d@ =~= spec_description(t, player_info@.playing, position));
    }
    EmbedContent { description: d, thumbnail: track.thumbnail() }
}

} // verus!
