//! The decisions of the bot's slash commands: who may do what, and what the
//! bot answers.
use vstd::prelude::*;

use crate::text::push_str;

verus! {

/// A title and text that the bot answers with.
pub struct Reply {
    pub title: &'static str,
    pub description: &'static str,
}

/// What the bot may do in a channel.
#[derive(Debug, Clone, Copy, PartialEq, Eq, Structural)]
pub struct ChannelPermissions {
    pub view_channel: bool,
    pub connect: bool,
    pub speak: bool,
    pub send_messages: bool,
    pub embed_links: bool,
    pub move_members: bool,
    pub manage_channels: bool,
    pub administrator: bool,
}

/// Whether the bot can join and play in a voice channel: see it, connect and speak.
pub fn has_voice_permissions(p: ChannelPermissions) -> (r: bool)
    ensures
        r == (p.view_channel && p.connect && p.speak),
{
    p.view_channel && p.connect && p.speak
}

/// Whether the bot can post its messages in a text channel: see it, send
/// messages and embed links.
pub fn has_text_permissions(p: ChannelPermissions) -> (r: bool)
    ensures
        r == (p.view_channel && p.send_messages && p.embed_links),
{
    p.view_channel && p.send_messages && p.embed_links
}

/// Whether a member may disconnect the bot though they do not own the session:
/// they may move members, manage channels, or administer the server.
pub fn can_force_leave(p: ChannelPermissions) -> (r: bool)
    ensures
        r == (p.move_members || p.manage_channels || p.administrator),
{
    p.move_members || p.manage_channels || p.administrator
}

/// The text of the version command.
pub fn version_description(version: &str) -> (r: String)
    ensures
        r@ == "Current version: "@ + version@
            + "\n\nSpoticord is open source, check it out [on GitHub](https://github.com/SpoticordMusic)"@,
{
    let mut s = String::new();
    push_str(&mut s, "Current version: ");
    push_str(&mut s, version);
    push_str(&mut s, "\n\nSpoticord is open source, check it out [on GitHub](https://github.com/SpoticordMusic)");
    s
}

/// Why the join command is refused, in the order the checks are made.
#[derive(Debug, Clone, Copy, PartialEq, Eq, Structural)]
pub enum JoinRefusal {
    /// The server is not known to the bot yet.
    GuildUnknown,
    /// The user is not in a voice channel.
    NotInVoice,
    /// The bot may not join or speak in the user's voice channel.
    NoVoicePermission,
    /// The bot may not post in the command's text channel.
    NoTextPermission,
    /// The user has not linked a Spotify account.
    NoAccount,
    /// Someone else's session is active in the server.
    InUse,
}

/// What is known when the join command is checked. A later fact is only looked
/// at once the earlier checks passed.
pub struct JoinFacts {
    pub guild_known: bool,
    /// The voice channel the user is in.
    pub user_channel: Option<u64>,
    pub voice_permitted: bool,
    pub text_permitted: bool,
    /// Whether the user has a linked account (only a missing record refuses).
    pub account_linked: bool,
    /// Whether the server's session (if there is one) is active.
    pub session_active: Option<bool>,
}

/// The first check of the join command that fails, if any.
pub fn join_refusal(facts: &JoinFacts) -> (r: Option<JoinRefusal>)
    ensures
        r == if !facts.guild_known {
            Some(JoinRefusal::GuildUnknown)
        } else if facts.user_channel is None {
            Some(JoinRefusal::NotInVoice)
        } else if !facts.voice_permitted {
            Some(JoinRefusal::NoVoicePermission)
        } else if !facts.text_permitted {
            Some(JoinRefusal::NoTextPermission)
        } else if !facts.account_linked {
            Some(JoinRefusal::NoAccount)
        } else if facts.session_active == Some(true) {
            Some(JoinRefusal::InUse)
        } else {
            None
        },
{
    if !facts.guild_known {
        Some(JoinRefusal::GuildUnknown)
    } else if facts.user_channel.is_none() {
        Some(JoinRefusal::NotInVoice)
    } else if !facts.voice_permitted {
        Some(JoinRefusal::NoVoicePermission)
    } else if !facts.text_permitted {
        Some(JoinRefusal::NoTextPermission)
    } else if !facts.account_linked {
        Some(JoinRefusal::NoAccount)
    } else if facts.session_active == Some(true) {
        Some(JoinRefusal::InUse)
    } else {
        None
    }
}

impl JoinRefusal {
    /// The answer to a refused join command.
    pub fn reply(&self) -> (r: Reply)
        ensures
            match self {
                JoinRefusal::GuildUnknown => r.title@ == "An error occured"@
                    && r.description@ == "This server hasn't been discovered by the bot yet (somehow). I blame Serenity, but you can just blame me."@,
                JoinRefusal::NotInVoice => r.title@ == "Cannot join voice channel"@
                    && r.description@ == "You need to connect to a voice channel before running /join"@,
                JoinRefusal::NoVoicePermission => r.title@ == "Cannot join voice channel"@
                    && r.description@ == "I do not have the appropriate permissions to join this voice channel."@,
                JoinRefusal::NoTextPermission => r.title@ == "Cannot join voice channel"@
                    && r.description@ == "I do not have permissions to send messages / links in this text channel."@,
                JoinRefusal::NoAccount => r.title@ == "No Spotify account"@
                    && r.description@ == "You need to link your Spotify account to Spoticord before being able to use it.\nUse the `/link` command to link your account."@,
                JoinRefusal::InUse => r.title@ == "Spoticord is already in use"@
                    && r.description@ == "Spoticord is already being used by somebody else in this server."@,
            },
    {
        match self {
            JoinRefusal::GuildUnknown => Reply {
                title: "An error occured",
                description: "This server hasn't been discovered by the bot yet (somehow). I blame Serenity, but you can just blame me.",
            },
            JoinRefusal::NotInVoice => Reply {
                title: "Cannot join voice channel",
                description: "You need to connect to a voice channel before running /join",
            },
            JoinRefusal::NoVoicePermission => Reply {
                title: "Cannot join voice channel",
                description: "I do not have the appropriate permissions to join this voice channel.",
            },
            JoinRefusal::NoTextPermission => Reply {
                title: "Cannot join voice channel",
                description: "I do not have permissions to send messages / links in this text channel.",
            },
            JoinRefusal::NoAccount => Reply {
                title: "No Spotify account",
                description: "You need to link your Spotify account to Spoticord before being able to use it.\nUse the `/link` command to link your account.",
            },
            JoinRefusal::InUse => Reply {
                title: "Spoticord is already in use",
                description: "Spoticord is already being used by somebody else in this server.",
            },
        }
    }
}

/// How the join command brings the bot to the user's voice channel.
#[derive(Debug, Clone, Copy, PartialEq, Eq, Structural)]
pub enum JoinPlan {
    /// Hand the server's inactive session, already in that channel, to the user.
    Reactivate,
    /// Create a new session, after shutting down the server's inactive session
    /// in another channel if `shutdown_existing`.
    Create { shutdown_existing: bool },
}

/// Plans the join of `channel` once the checks passed. `existing` is the voice
/// channel of the server's (inactive) session, if there is one.
pub fn join_plan(existing: Option<u64>, channel: u64) -> (r: JoinPlan)
    ensures
        r == match existing {
            None => JoinPlan::Create { shutdown_existing: false },
            Some(c) => if c == channel {
                JoinPlan::Reactivate
            } else {
                JoinPlan::Create { shutdown_existing: true }
            },
        },
{
    match existing {
        None => JoinPlan::Create { shutdown_existing: false },
        Some(c) => if c == channel {
            JoinPlan::Reactivate
        } else {
            JoinPlan::Create { shutdown_existing: true }
        },
    }
}

/// The text shown when a session could not be created: a failed token refresh
/// means the stored credentials were deleted and must be linked again.
pub fn create_failure_description(refresh_token_failure: bool) -> (r: &'static str)
    ensures
        refresh_token_failure ==> r@ == "Unable to authenticate with Spotify. Did you change your password?\n\nThe broken credentials used have been deleted.\n\nYou might need to relink your account using `/link`."@,
        !refresh_token_failure ==> r@ == "An error occured whilst trying to create a session. Please try again."@,
{
    if refresh_token_failure {
        "Unable to authenticate with Spotify. Did you change your password?\n\nThe broken credentials used have been deleted.\n\nYou might need to relink your account using `/link`."
    } else {
        "An error occured whilst trying to create a session. Please try again."
    }
}

/// How the leave command is answered.
#[derive(Debug, Clone, Copy, PartialEq, Eq, Structural)]
pub enum LeaveOutcome {
    /// The bot is in no voice channel of the server.
    NotConnected,
    /// Only the session's owner or a server admin may disconnect the bot now.
    NotAllowed,
    /// Shut the session down and say goodbye.
    Leave,
}

/// Decides the leave command of `author`. `session` tells, when the server has a
/// session, whether it is active and who owns it; `has_admin` whether the author
/// may manage the voice channel. An inactive session may be ended by anyone.
pub fn leave_decision(session: Option<(bool, u64)>, author: u64, has_admin: bool) -> (r: LeaveOutcome)
    ensures
        r == match session {
            None => LeaveOutcome::NotConnected,
            Some((active, owner)) => if active && owner != author && !has_admin {
                LeaveOutcome::NotAllowed
            } else {
                LeaveOutcome::Leave
            },
        },
{
    match session {
        None => LeaveOutcome::NotConnected,
        Some((active, owner)) => if active && owner != author && !has_admin {
            LeaveOutcome::NotAllowed
        } else {
            LeaveOutcome::Leave
        },
    }
}

/// The number of `true` entries.
pub open spec fn count_true(s: Seq<bool>) -> nat
    decreases s.len(),
{
    if s.len() == 0 {
        0
    } else {
        count_true(s.drop_last()) + if s.last() { 1nat } else { 0nat }
    }
}

/// The number of active sessions, from each session's answer to whether it is
/// active (a session that did not answer counts as inactive).
pub fn count_active(answers: &Vec<bool>) -> (r: usize)
    ensures
        r == count_true(answers@),
{
    let mut count: usize = 0;
    for i in 0..answers.len()
        invariant
            count == count_true(answers@.take(i as int)),
            count <= i,
    {
        proof {
            assert(answers@.take(i + 1).drop_last() =~= answers@.take(i as int));
        }
        if answers[i] {
            count = count + 1;
        }
    }
    proof {
        assert(answers@.take(answers@.len() as int) =~= answers@);
    }
    count
}

} // verus!
