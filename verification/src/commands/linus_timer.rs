use vstd::prelude::*;
use serenity::builder::CreateCommand;
use crate::discord::channel_debug;
use crate::discord::command_contents;
use crate::command_spec::{command_built, plain_command, to_create_command, CommandSpec, CommandSpecView};
use crate::text::{decimal, joined};
use crate::voice::{accepts, reply, reply_with, Action, ActionView, Event, EventView, Stage};

verus! {

/// The name the command is registered and invoked under.
pub const NAME: &'static str = "linus_timer";

/// The member whose voice channel the command joins.
pub const LINUS: u64 = 395517793510096897u64;

/// The command as registered with Discord.
pub open spec fn registration_spec() -> CommandSpecView {
    plain_command(NAME@, "Starts a timer and waits for Linus"@)
}

/// The `linus_timer` slash command as registered with Discord.
pub fn registration() -> (spec: CommandSpec)
    ensures
        spec@ == registration_spec(),
{
    CommandSpec::plain(NAME, "Starts a timer and waits for Linus")
}

/// serenity's builder for registering the `linus_timer` slash command.
pub fn register() -> (command: CreateCommand)
    ensures
        command_contents(command) == command_built(registration_spec()),
{
    to_create_command(&registration())
}

/// The stages a run of `linus_timer` can stand in; the channel it goes
/// for is a real channel id, never zero.
pub open spec fn own_stage(stage: Stage) -> bool {
    match stage {
        Stage::Ready | Stage::AwaitingLocation | Stage::Waiting | Stage::Finished => true,
        Stage::AwaitingConnection { channel } => channel != 0,
        Stage::AwaitingWatch { channel } => channel != 0,
        _ => false,
    }
}

/// The reply once the bot went for the given channel.
pub open spec fn connected_reply(channel: u64) -> Seq<char> {
    "connected to channel: "@ + ("ChannelId("@ + decimal(channel as nat) + ")"@)
}

/// One step of `linus_timer`: look for Linus's voice channel, and while he
/// is in none, start a timer and look again when it runs out; once he is in
/// one, join it, and watch the call for track errors if joining worked.
pub open spec fn spec_run(stage: Stage, event: EventView) -> (Stage, ActionView) {
    match (stage, event) {
        (Stage::Ready, EventView::Invoked { in_guild }) => if in_guild {
            (Stage::AwaitingLocation, ActionView::LocateMember { user: LINUS })
        } else {
            reply("I broke :("@)
        },
        (Stage::AwaitingLocation, EventView::Located { channel }) => match channel {
            Some(c) => (Stage::AwaitingConnection { channel: c }, ActionView::JoinChannel { channel: c }),
            None => (Stage::Waiting, ActionView::Wait),
        },
        (Stage::Waiting, EventView::Succeeded) => (Stage::AwaitingLocation, ActionView::LocateMember { user: LINUS }),
        (Stage::AwaitingConnection { channel }, EventView::Succeeded) =>
            (Stage::AwaitingWatch { channel }, ActionView::WatchTrackErrors),
        (Stage::AwaitingConnection { channel }, EventView::Failed { reason }) => reply(connected_reply(channel)),
        (Stage::AwaitingWatch { channel }, EventView::Succeeded) => reply(connected_reply(channel)),
        // Events the stage does not accept never reach `run`.
        _ => (stage, ActionView::FindCall),
    }
}

/// Ends the command with the reply for the given channel.
fn reply_connected(channel: u64) -> (next: (Stage, Action))
    requires
        channel != 0,
    ensures
        (next.0, next.1@) == reply(connected_reply(channel)),
{
    let rendered = channel_debug(channel);
    let content = joined("connected to channel: ", rendered.as_str());
    (Stage::Finished, Action::Reply { content })
}

/// Advances `linus_timer` by one event: the next stage and what to do next.
pub fn run(stage: Stage, event: &Event) -> (next: (Stage, Action))
    requires
        own_stage(stage),
        accepts(stage, event@),
    ensures
        own_stage(next.0),
        (next.0, next.1@) == spec_run(stage, event@),
{
    match (stage, event) {
        (Stage::Ready, Event::Invoked { in_guild }) => if *in_guild {
            (Stage::AwaitingLocation, Action::LocateMember { user: LINUS })
        } else {
            reply_with("I broke :(")
        },
        (Stage::AwaitingLocation, Event::Located { channel }) => match channel {
            Some(c) => (Stage::AwaitingConnection { channel: *c }, Action::JoinChannel { channel: *c }),
            None => (Stage::Waiting, Action::Wait),
        },
        (Stage::Waiting, Event::Succeeded) => (Stage::AwaitingLocation, Action::LocateMember { user: LINUS }),
        (Stage::AwaitingConnection { channel }, Event::Succeeded) =>
            (Stage::AwaitingWatch { channel }, Action::WatchTrackErrors),
        (Stage::AwaitingConnection { channel }, Event::Failed { .. }) => reply_connected(channel),
        (Stage::AwaitingWatch { channel }, Event::Succeeded) => reply_connected(channel),
        _ => (stage, Action::FindCall),
    }
}

} // verus!
