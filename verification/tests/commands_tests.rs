use spoticord::commands::{
    can_force_leave, count_active, create_failure_description, has_text_permissions, has_voice_permissions,
    join_plan, join_refusal, leave_decision, version_description, ChannelPermissions, JoinFacts, JoinPlan,
    JoinRefusal, LeaveOutcome,
};

fn perms() -> ChannelPermissions {
    ChannelPermissions {
        view_channel: true,
        connect: true,
        speak: true,
        send_messages: true,
        embed_links: true,
        move_members: false,
        manage_channels: false,
        administrator: false,
    }
}

fn facts() -> JoinFacts {
    JoinFacts {
        guild_known: true,
        user_channel: Some(5),
        voice_permitted: true,
        text_permitted: true,
        account_linked: true,
        session_active: None,
    }
}

#[test]
fn permissions() {
    assert!(has_voice_permissions(perms()));
    assert!(!has_voice_permissions(ChannelPermissions { speak: false, ..perms() }));
    assert!(has_text_permissions(perms()));
    assert!(!has_text_permissions(ChannelPermissions { embed_links: false, ..perms() }));
    assert!(!can_force_leave(perms()));
    assert!(can_force_leave(ChannelPermissions { manage_channels: true, ..perms() }));
}

#[test]
fn version_text() {
    assert_eq!(
        version_description("2.2.6"),
        "Current version: 2.2.6\n\nSpoticord is open source, check it out [on GitHub](https://github.com/SpoticordMusic)"
    );
}

#[test]
fn join_checks_in_order() {
    assert_eq!(join_refusal(&facts()), None);
    assert_eq!(join_refusal(&JoinFacts { session_active: Some(false), ..facts() }), None);
    assert_eq!(join_refusal(&JoinFacts { session_active: Some(true), ..facts() }), Some(JoinRefusal::InUse));
    assert_eq!(join_refusal(&JoinFacts { account_linked: false, session_active: Some(true), ..facts() }), Some(JoinRefusal::NoAccount));
    assert_eq!(join_refusal(&JoinFacts { text_permitted: false, account_linked: false, ..facts() }), Some(JoinRefusal::NoTextPermission));
    assert_eq!(join_refusal(&JoinFacts { voice_permitted: false, text_permitted: false, ..facts() }), Some(JoinRefusal::NoVoicePermission));
    assert_eq!(join_refusal(&JoinFacts { user_channel: None, voice_permitted: false, ..facts() }), Some(JoinRefusal::NotInVoice));
    assert_eq!(join_refusal(&JoinFacts { guild_known: false, user_channel: None, ..facts() }), Some(JoinRefusal::GuildUnknown));
}

#[test]
fn refusal_replies() {
    let r = JoinRefusal::NotInVoice.reply();
    assert_eq!(r.title, "Cannot join voice channel");
    assert_eq!(r.description, "You need to connect to a voice channel before running /join");
    let r = JoinRefusal::InUse.reply();
    assert_eq!(r.title, "Spoticord is already in use");
    let r = JoinRefusal::NoAccount.reply();
    assert_eq!(r.title, "No Spotify account");
}

#[test]
fn join_reuses_a_session_in_the_same_channel() {
    assert_eq!(join_plan(None, 5), JoinPlan::Create { shutdown_existing: false });
    assert_eq!(join_plan(Some(5), 5), JoinPlan::Reactivate);
    assert_eq!(join_plan(Some(4), 5), JoinPlan::Create { shutdown_existing: true });
}

#[test]
fn failure_descriptions() {
    assert!(create_failure_description(true).starts_with("Unable to authenticate with Spotify."));
    assert_eq!(
        create_failure_description(false),
        "An error occured whilst trying to create a session. Please try again."
    );
}

#[test]
fn leaving() {
    assert_eq!(leave_decision(None, 1, false), LeaveOutcome::NotConnected);
    assert_eq!(leave_decision(Some((true, 2)), 1, false), LeaveOutcome::NotAllowed);
    assert_eq!(leave_decision(Some((true, 2)), 1, true), LeaveOutcome::Leave);
    assert_eq!(leave_decision(Some((true, 1)), 1, false), LeaveOutcome::Leave);
    assert_eq!(leave_decision(Some((false, 2)), 1, false), LeaveOutcome::Leave);
}

#[test]
fn active_sessions_are_counted() {
    assert_eq!(count_active(&vec![]), 0);
    assert_eq!(count_active(&vec![true, false, true, true]), 3);
}
