use vstd::prelude::*;
use serenity::builder::CreateCommand;
use crate::discord::command_contents;
use crate::command_spec::{command_built, plain_command, to_create_command, CommandSpec, CommandSpecView};
use crate::voice::{accepts, outside_guild, reply, reply_joined, reply_with, Action, ActionView, Event, EventView, Stage};

verus! {

/// The name the command is registered and invoked under.
pub const NAME: &'static str = "unmute";

/// The command as registered with Discord.
pub open spec fn registration_spec() -> CommandSpecView {
    plain_command(NAME@, "Unmutes me :)"@)
}

/// The `unmute` slash command as registered with Discord.
pub fn registration() -> (spec: CommandSpec)
    ensures
        spec@ == registration_spec(),
{
    CommandSpec::plain(NAME, "Unmutes me :)")
}

/// serenity's builder for registering the `unmute` slash command.
pub fn register() -> (command: CreateCommand)
    ensures
        command_contents(command) == command_built(registration_spec()),
{
    to_create_command(&registration())
}

/// The stages a run of `unmute` can stand in.
pub open spec fn own_stage(stage: Stage) -> bool {
    match stage {
        Stage::Ready | Stage::AwaitingCall | Stage::AwaitingOutcome | Stage::Finished => true,
        _ => false,
    }
}

/// One step of `unmute`: look for the guild's call and unmute it.
pub open spec fn spec_run(stage: Stage, event: EventView) -> (Stage, ActionView) {
    match (stage, event) {
        (Stage::Ready, _) => (Stage::AwaitingCall, ActionView::FindCall),
        (Stage::AwaitingCall, EventView::CallLookup { present }) => if present {
            (Stage::AwaitingOutcome, ActionView::SetMute { on: false })
        } else {
            reply("Not in a voice channel to mute in. do you not have eyes?"@)
        },
        (Stage::AwaitingOutcome, EventView::Failed { reason }) => reply("Failed to mute: "@ + reason),
        (Stage::AwaitingOutcome, EventView::Succeeded) => reply("Unmuted :)"@),
        // Events the stage does not accept never reach `run`.
        _ => (stage, ActionView::FindCall),
    }
}

/// Advances `unmute` by one event: the next stage and what to do next.
pub fn run(stage: Stage, event: &Event) -> (next: (Stage, Action))
    requires
        own_stage(stage),
        accepts(stage, event@),
        !outside_guild(event@),
    ensures
        own_stage(next.0),
        (next.0, next.1@) == spec_run(stage, event@),
{
    match (stage, event) {
        (Stage::Ready, _) => (Stage::AwaitingCall, Action::FindCall),
        (Stage::AwaitingCall, Event::CallLookup { present }) => if *present {
            (Stage::AwaitingOutcome, Action::SetMute { on: false })
        } else {
            reply_with("Not in a voice channel to mute in. do you not have eyes?")
        },
        (Stage::AwaitingOutcome, Event::Failed { reason }) => reply_joined("Failed to mute: ", reason.as_str()),
        (Stage::AwaitingOutcome, Event::Succeeded) => reply_with("Unmuted :)"),
        _ => (stage, Action::FindCall),
    }
}

} // verus!
