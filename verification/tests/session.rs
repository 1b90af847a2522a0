use voice_bot::session::{parse_command, CommandKind, Session};
use voice_bot::text::{joined, same_text, starts_with};
use voice_bot::voice::{Action, Event, OtherCommand, Stage};

#[test]
fn routes_names() {
    assert_eq!(parse_command("ping"), CommandKind::Ping);
    assert_eq!(parse_command("wonderful_command"), CommandKind::WonderfulCommand);
    assert_eq!(parse_command("deafen"), CommandKind::Deafen);
    assert_eq!(parse_command("join"), CommandKind::Join);
    assert_eq!(parse_command("leave"), CommandKind::Leave);
    assert_eq!(parse_command("play"), CommandKind::Play);
    assert_eq!(parse_command("undeafen"), CommandKind::Undeafen);
    assert_eq!(parse_command("mute"), CommandKind::Mute);
    assert_eq!(parse_command("unmute"), CommandKind::Unmute);
    assert_eq!(parse_command("check"), CommandKind::Check);
    assert_eq!(parse_command("linus_timer"), CommandKind::Unknown);
    assert_eq!(parse_command("Deafen"), CommandKind::Unknown);
    assert_eq!(parse_command(""), CommandKind::Unknown);
}

#[test]
fn unknown_command_reply() {
    let mut session = Session::new(CommandKind::Unknown, "");
    let action = session.step(&Event::Invoked { in_guild: true });
    assert_eq!(action, Action::Reply { content: "not implemented :(".to_string() });
    assert!(session.is_finished());
}

#[test]
fn check_and_wonderful_reply_at_once() {
    let mut session = Session::new(CommandKind::Check, "");
    assert_eq!(session.step(&Event::Invoked { in_guild: false }), Action::Reply { content: "Hey, I'm alive!".to_string() });
    let mut session = Session::new(CommandKind::WonderfulCommand, "");
    assert_eq!(
        session.step(&Event::Invoked { in_guild: true }),
        Action::Reply { content: "This is a wonderful command!".to_string() }
    );
    assert_eq!(session.stage(), Stage::Finished);
}

#[test]
fn ping_and_join_reply_with_their_answer() {
    for (kind, other) in [(CommandKind::Ping, OtherCommand::Ping), (CommandKind::Join, OtherCommand::Join)] {
        let mut session = Session::new(kind, "");
        assert_eq!(session.step(&Event::Invoked { in_guild: true }), Action::Run { command: other });
        assert_eq!(session.stage(), Stage::AwaitingAnswer);
        assert_eq!(
            session.step(&Event::Answered { reply: "pong".to_string() }),
            Action::Reply { content: "pong".to_string() }
        );
        assert!(session.is_finished());
    }
}

#[test]
fn play_session_end_to_end() {
    let mut session = Session::new(CommandKind::Play, "https://example.com/song");
    assert_eq!(session.kind(), CommandKind::Play);
    assert_eq!(session.step(&Event::Invoked { in_guild: true }), Action::FindCall);
    assert_eq!(session.step(&Event::CallLookup { present: true }), Action::FindCall);
    assert_eq!(
        session.step(&Event::CallLookup { present: true }),
        Action::Play { query: "https://example.com/song".to_string() }
    );
    assert_eq!(
        session.step(&Event::Started { source: "src".to_string() }),
        Action::Reply { content: "Playing: src".to_string() }
    );
    assert!(session.is_finished());
}

#[test]
fn text_helpers() {
    assert!(starts_with("http://x", "http"));
    assert!(starts_with("abc", ""));
    assert!(!starts_with("ht", "http"));
    assert!(!starts_with("héllo", "hel"));
    assert!(same_text("ping", "ping"));
    assert!(!same_text("ping", "pin"));
    assert!(!same_text("ping", "pong"));
    assert_eq!(joined("Failed: ", "x"), "Failed: x");
    assert_eq!(joined("", ""), "");
}

#[test]
fn guild_bound_commands() {
    for kind in [CommandKind::Deafen, CommandKind::Leave, CommandKind::Play, CommandKind::Undeafen, CommandKind::Mute, CommandKind::Unmute] {
        assert!(kind.guild_bound());
    }
    for kind in [CommandKind::Ping, CommandKind::Join, CommandKind::Check, CommandKind::WonderfulCommand, CommandKind::Unknown] {
        assert!(!kind.guild_bound());
    }
}
