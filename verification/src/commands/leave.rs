use vstd::prelude::*;
use serenity::builder::CreateCommand;
use crate::discord::command_contents;
use crate::command_spec::{command_built, plain_command, to_create_command, CommandSpec, CommandSpecView};
use crate::voice::{accepts, outside_guild, reply, reply_joined, reply_with, Action, ActionView, Event, EventView, Stage};

verus! {

/// The name the command is registered and invoked under.
pub const NAME: &'static str = "leave";

/// The command as registered with Discord.
pub open spec fn registration_spec() -> CommandSpecView {
    plain_command(NAME@, "Leaves the current vc"@)
}

/// The `leave` slash command as registered with Discord.
pub fn registration() -> (spec: CommandSpec)
    ensures
        spec@ == registration_spec(),
{
    CommandSpec::plain(NAME, "Leaves the current vc")
}

/// serenity's builder for registering the `leave` slash command.
pub fn register() -> (command: CreateCommand)
    ensures
        command_contents(command) == command_built(registration_spec()),
{
    to_create_command(&registration())
}

/// The stages a run of `leave` can stand in.
pub open spec fn own_stage(stage: Stage) -> bool {
    match stage {
        Stage::Ready | Stage::AwaitingCall | Stage::AwaitingOutcome | Stage::Finished => true,
        _ => false,
    }
}

/// One step of `leave`: look for the guild's call and leave it.
pub open spec fn spec_run(stage: Stage, event: EventView) -> (Stage, ActionView) {
    match (stage, event) {
        (Stage::Ready, _) => (Stage::AwaitingCall, ActionView::FindCall),
        (Stage::AwaitingCall, EventView::CallLookup { present }) => if present {
            (Stage::AwaitingOutcome, ActionView::RemoveCall)
        } else {
            reply("Not in a voice channel to leave from. should i just leave the server? or what"@)
        },
        (Stage::AwaitingOutcome, EventView::Failed { reason }) => reply("Failed **F**: "@ + reason),
        (Stage::AwaitingOutcome, EventView::Succeeded) => reply("Left voice channel (*i am never coming back to you again*)"@),
        // Events the stage does not accept never reach `run`.
        _ => (stage, ActionView::FindCall),
    }
}

/// Advances `leave` by one event: the next stage and what to do next.
pub fn run(stage: Stage, event: &Event) -> (next: (Stage, Action))
    requires
        own_stage(stage),
        accepts(stage, event@),
        !outside_guild(event@),
    ensures
        own_stage(next.0),
        (next.0, next.1@) == spec_run(stage, event@),
{
    match (stage, event) {
        (Stage::Ready, _) => (Stage::AwaitingCall, Action::FindCall),
        (Stage::AwaitingCall, Event::CallLookup { present }) => if *present {
            (Stage::AwaitingOutcome, Action::RemoveCall)
        } else {
            reply_with("Not in a voice channel to leave from. should i just leave the server? or what")
        },
        (Stage::AwaitingOutcome, Event::Failed { reason }) => reply_joined("Failed **F**: ", reason.as_str()),
        (Stage::AwaitingOutcome, Event::Succeeded) => reply_with("Left voice channel (*i am never coming back to you again*)"),
        _ => (stage, Action::FindCall),
    }
}

} // verus!
