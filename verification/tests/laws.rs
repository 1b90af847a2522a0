use voice_bot::guild_id::guild_id_from;
use voice_bot::session::{parse_command, CommandKind, Session};
use voice_bot::commands::linus_timer;
use voice_bot::voice::{Action, Event, Stage};

/// Answers every request of a run the way a guild with a call, an
/// undeafened and unmuted call, and successful operations would.
fn answer(action: &Action) -> Event {
    match action {
        Action::FindCall => Event::CallLookup { present: true },
        Action::ReadDeaf | Action::ReadMute => Event::Flag { set: false },
        Action::Run { .. } => Event::Answered { reply: "ok".to_string() },
        Action::Play { .. } => Event::Started { source: "input".to_string() },
        _ => Event::Succeeded,
    }
}

#[test]
fn every_run_replies_within_six_events() {
    let kinds = [
        CommandKind::Ping,
        CommandKind::WonderfulCommand,
        CommandKind::Deafen,
        CommandKind::Join,
        CommandKind::Leave,
        CommandKind::Play,
        CommandKind::Undeafen,
        CommandKind::Mute,
        CommandKind::Unmute,
        CommandKind::Check,
        CommandKind::Unknown,
    ];
    for kind in kinds {
        let mut session = Session::new(kind, "song");
        let mut action = session.step(&Event::Invoked { in_guild: true });
        let mut events = 1;
        while !session.is_finished() {
            assert!(!matches!(action, Action::Reply { .. }));
            action = session.step(&answer(&action));
            events += 1;
        }
        assert!(matches!(action, Action::Reply { .. }), "{kind:?}");
        assert!(events <= 6);
    }
}

#[test]
fn operations_need_a_call() {
    for kind in [CommandKind::Deafen, CommandKind::Leave, CommandKind::Undeafen, CommandKind::Mute, CommandKind::Unmute] {
        let mut session = Session::new(kind, "");
        session.step(&Event::Invoked { in_guild: true });
        let action = session.step(&Event::CallLookup { present: false });
        assert!(matches!(action, Action::Reply { .. }));
        assert_eq!(session.stage(), Stage::Finished);
    }
    let mut session = Session::new(CommandKind::Mute, "");
    session.step(&Event::Invoked { in_guild: true });
    session.step(&Event::CallLookup { present: true });
    assert!(matches!(session.step(&Event::Flag { set: true }), Action::Reply { .. }));
}

#[test]
fn operations_match_their_command() {
    let expected = [
        (CommandKind::Deafen, Action::SetDeaf { on: true }),
        (CommandKind::Undeafen, Action::SetDeaf { on: false }),
        (CommandKind::Mute, Action::SetMute { on: true }),
        (CommandKind::Unmute, Action::SetMute { on: false }),
        (CommandKind::Leave, Action::RemoveCall),
    ];
    for (kind, operation) in expected {
        let mut session = Session::new(kind, "");
        let mut action = session.step(&Event::Invoked { in_guild: true });
        while !matches!(action, Action::SetDeaf { .. } | Action::SetMute { .. } | Action::RemoveCall) {
            action = session.step(&answer(&action));
        }
        assert_eq!(action, operation);
    }
}

#[test]
fn registered_commands_are_routed() {
    let names = ["ping", "deafen", "join", "leave", "play", "undeafen", "mute", "unmute", "check", "wonderful_command"];
    for name in names {
        assert_ne!(parse_command(name), CommandKind::Unknown, "{name}");
    }
}

#[test]
fn decimal_ids_are_accepted() {
    for id in [1u64, 9, 10, 395517793510096897, u64::MAX] {
        assert_eq!(guild_id_from(&id.to_string()), Ok(id));
    }
}

#[test]
fn linus_timer_waits_for_linus() {
    let mut stage = Stage::AwaitingLocation;
    for _ in 0..3 {
        let (next, action) = linus_timer::run(stage, &Event::Located { channel: None });
        assert_eq!((next, &action), (Stage::Waiting, &Action::Wait));
        let (next, action) = linus_timer::run(next, &Event::Succeeded);
        assert!(matches!(action, Action::LocateMember { .. }));
        stage = next;
    }
    let (next, _) = linus_timer::run(stage, &Event::Located { channel: Some(77) });
    let (next, _) = linus_timer::run(next, &Event::Succeeded);
    let (next, action) = linus_timer::run(next, &Event::Succeeded);
    assert_eq!(next, Stage::Finished);
    assert_eq!(action, Action::Reply { content: "connected to channel: ChannelId(77)".to_string() });
}
