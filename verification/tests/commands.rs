use voice_bot::commands::{check, deafen, leave, linus_timer, mute, play, undeafen, unmute, wonderful_command};
use voice_bot::voice::{Action, Event, Stage};

fn reply(content: &str) -> (Stage, Action) {
    (Stage::Finished, Action::Reply { content: content.to_string() })
}

fn failed(reason: &str) -> Event {
    Event::Failed { reason: reason.to_string() }
}

#[test]
fn check_says_alive() {
    assert_eq!(check::run(), "Hey, I'm alive!");
}

#[test]
fn wonderful_command_reply() {
    assert_eq!(wonderful_command::run(&[]), "This is a wonderful command!");
}

#[test]
fn deafen_without_call() {
    let (stage, action) = deafen::run(Stage::Ready, &Event::Invoked { in_guild: true });
    assert_eq!((stage, action), (Stage::AwaitingCall, Action::FindCall));
    assert_eq!(
        deafen::run(Stage::AwaitingCall, &Event::CallLookup { present: false }),
        reply("Not in a vc you dumb fuck")
    );
}

#[test]
fn deafen_already_deaf() {
    assert_eq!(
        deafen::run(Stage::AwaitingCall, &Event::CallLookup { present: true }),
        (Stage::AwaitingFlag, Action::ReadDeaf)
    );
    assert_eq!(deafen::run(Stage::AwaitingFlag, &Event::Flag { set: true }), reply("Already deafened"));
}

#[test]
fn deafen_deafens() {
    assert_eq!(
        deafen::run(Stage::AwaitingFlag, &Event::Flag { set: false }),
        (Stage::AwaitingOutcome, Action::SetDeaf { on: true })
    );
    assert_eq!(deafen::run(Stage::AwaitingOutcome, &Event::Succeeded), reply("Deafened"));
    assert_eq!(deafen::run(Stage::AwaitingOutcome, &failed("NoCall")), reply("Failed: NoCall"));
}

#[test]
fn mute_flow() {
    assert_eq!(mute::run(Stage::Ready, &Event::Invoked { in_guild: true }), (Stage::AwaitingCall, Action::FindCall));
    assert_eq!(
        mute::run(Stage::AwaitingCall, &Event::CallLookup { present: false }),
        reply("Not in a voice channel to mute, why would you even try this? *idiot*")
    );
    assert_eq!(
        mute::run(Stage::AwaitingCall, &Event::CallLookup { present: true }),
        (Stage::AwaitingFlag, Action::ReadMute)
    );
    assert_eq!(mute::run(Stage::AwaitingFlag, &Event::Flag { set: true }), reply("I'm already muted! leave me alone now!!"));
    assert_eq!(
        mute::run(Stage::AwaitingFlag, &Event::Flag { set: false }),
        (Stage::AwaitingOutcome, Action::SetMute { on: true })
    );
    assert_eq!(mute::run(Stage::AwaitingOutcome, &Event::Succeeded), reply("Now Muted"));
    assert_eq!(mute::run(Stage::AwaitingOutcome, &failed("Dropped")), reply("Failed to mute: Dropped"));
}

#[test]
fn undeafen_flow() {
    assert_eq!(
        undeafen::run(Stage::AwaitingCall, &Event::CallLookup { present: false }),
        reply("Not in a voice channel to undeafen in")
    );
    assert_eq!(
        undeafen::run(Stage::AwaitingCall, &Event::CallLookup { present: true }),
        (Stage::AwaitingOutcome, Action::SetDeaf { on: false })
    );
    assert_eq!(undeafen::run(Stage::AwaitingOutcome, &Event::Succeeded), reply("Hey, I can hear again 😄"));
    assert_eq!(undeafen::run(Stage::AwaitingOutcome, &failed("NoCall")), reply("Failed to deafen: NoCall"));
}

#[test]
fn unmute_flow() {
    assert_eq!(
        unmute::run(Stage::AwaitingCall, &Event::CallLookup { present: false }),
        reply("Not in a voice channel to mute in. do you not have eyes?")
    );
    assert_eq!(
        unmute::run(Stage::AwaitingCall, &Event::CallLookup { present: true }),
        (Stage::AwaitingOutcome, Action::SetMute { on: false })
    );
    assert_eq!(unmute::run(Stage::AwaitingOutcome, &Event::Succeeded), reply("Unmuted :)"));
    assert_eq!(unmute::run(Stage::AwaitingOutcome, &failed("NoCall")), reply("Failed to mute: NoCall"));
}

#[test]
fn leave_flow() {
    assert_eq!(
        leave::run(Stage::AwaitingCall, &Event::CallLookup { present: false }),
        reply("Not in a voice channel to leave from. should i just leave the server? or what")
    );
    assert_eq!(
        leave::run(Stage::AwaitingCall, &Event::CallLookup { present: true }),
        (Stage::AwaitingOutcome, Action::RemoveCall)
    );
    assert_eq!(
        leave::run(Stage::AwaitingOutcome, &Event::Succeeded),
        reply("Left voice channel (*i am never coming back to you again*)")
    );
    assert_eq!(leave::run(Stage::AwaitingOutcome, &failed("NoCall")), reply("Failed **F**: NoCall"));
}

#[test]
fn play_query_for_links_and_searches() {
    assert_eq!(play::query_for("https://youtu.be/abc"), "https://youtu.be/abc");
    assert_eq!(play::query_for("http"), "http");
    assert_eq!(play::query_for("never gonna give you up"), "ytsearch1:never gonna give you up");
    assert_eq!(play::query_for("htt"), "ytsearch1:htt");
    assert_eq!(play::query_for("HTTP://x"), "ytsearch1:HTTP://x");
    assert_eq!(play::query_for(""), "ytsearch1:");
}

#[test]
fn play_joins_when_not_in_a_call() {
    let link = "lofi";
    assert_eq!(play::run(link, Stage::Ready, &Event::Invoked { in_guild: true }), (Stage::AwaitingPresence, Action::FindCall));
    assert_eq!(
        play::run(link, Stage::AwaitingPresence, &Event::CallLookup { present: false }),
        (Stage::AwaitingJoin, Action::Run { command: voice_bot::voice::OtherCommand::Join })
    );
    assert_eq!(
        play::run(link, Stage::AwaitingJoin, &Event::Answered { reply: "Joined".to_string() }),
        (Stage::AwaitingCall, Action::FindCall)
    );
    assert_eq!(
        play::run(link, Stage::AwaitingCall, &Event::CallLookup { present: true }),
        (Stage::AwaitingStart, Action::Play { query: "ytsearch1:lofi".to_string() })
    );
    assert_eq!(
        play::run(link, Stage::AwaitingStart, &Event::Started { source: "YoutubeDl { .. }".to_string() }),
        reply("Playing: YoutubeDl { .. }")
    );
}

#[test]
fn play_without_call_after_lookup() {
    assert_eq!(
        play::run("http://a", Stage::AwaitingPresence, &Event::CallLookup { present: true }),
        (Stage::AwaitingCall, Action::FindCall)
    );
    assert_eq!(
        play::run("http://a", Stage::AwaitingCall, &Event::CallLookup { present: false }),
        reply("Not in a voice channel to play in. do you not have eyes?")
    );
    assert_eq!(
        play::run("http://a", Stage::AwaitingCall, &Event::CallLookup { present: true }),
        (Stage::AwaitingStart, Action::Play { query: "http://a".to_string() })
    );
}

#[test]
fn linus_timer_outside_guild() {
    assert_eq!(linus_timer::run(Stage::Ready, &Event::Invoked { in_guild: false }), reply("I broke :("));
}

#[test]
fn linus_timer_waits_while_linus_is_away() {
    assert_eq!(
        linus_timer::run(Stage::Ready, &Event::Invoked { in_guild: true }),
        (Stage::AwaitingLocation, Action::LocateMember { user: 395517793510096897 })
    );
    assert_eq!(
        linus_timer::run(Stage::AwaitingLocation, &Event::Located { channel: None }),
        (Stage::Waiting, Action::Wait)
    );
    assert_eq!(
        linus_timer::run(Stage::Waiting, &Event::Succeeded),
        (Stage::AwaitingLocation, Action::LocateMember { user: 395517793510096897 })
    );
    assert_eq!(
        linus_timer::run(Stage::AwaitingLocation, &Event::Located { channel: Some(5) }),
        (Stage::AwaitingConnection { channel: 5 }, Action::JoinChannel { channel: 5 })
    );
}

#[test]
fn linus_timer_joins_and_watches() {
    assert_eq!(
        linus_timer::run(Stage::AwaitingLocation, &Event::Located { channel: Some(987654321) }),
        (Stage::AwaitingConnection { channel: 987654321 }, Action::JoinChannel { channel: 987654321 })
    );
    assert_eq!(
        linus_timer::run(Stage::AwaitingConnection { channel: 987654321 }, &Event::Succeeded),
        (Stage::AwaitingWatch { channel: 987654321 }, Action::WatchTrackErrors)
    );
    assert_eq!(
        linus_timer::run(Stage::AwaitingWatch { channel: 987654321 }, &Event::Succeeded),
        reply("connected to channel: ChannelId(987654321)")
    );
}

#[test]
fn linus_timer_replies_even_when_join_fails() {
    assert_eq!(
        linus_timer::run(Stage::AwaitingConnection { channel: 42 }, &failed("Dropped")),
        reply("connected to channel: ChannelId(42)")
    );
    assert_eq!(
        linus_timer::run(Stage::AwaitingConnection { channel: u64::MAX }, &failed("Dropped")),
        reply("connected to channel: ChannelId(18446744073709551615)")
    );
}
