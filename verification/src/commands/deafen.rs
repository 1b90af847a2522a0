use vstd::prelude::*;
use serenity::builder::CreateCommand;
use crate::discord::command_contents;
use crate::command_spec::{command_built, plain_command, to_create_command, CommandSpec, CommandSpecView};
use crate::voice::{accepts, outside_guild, reply, reply_joined, reply_with, Action, ActionView, Event, EventView, Stage};

verus! {

/// The name the command is registered and invoked under.
pub const NAME: &'static str = "deafen";

/// The command as registered with Discord.
pub open spec fn registration_spec() -> CommandSpecView {
    plain_command(NAME@, "deafens the bot :)"@)
}

/// The `deafen` slash command as registered with Discord.
pub fn registration() -> (spec: CommandSpec)
    ensures
        spec@ == registration_spec(),
{
    CommandSpec::plain(NAME, "deafens the bot :)")
}

/// serenity's builder for registering the `deafen` slash command.
pub fn register() -> (command: CreateCommand)
    ensures
        command_contents(command) == command_built(registration_spec()),
{
    to_create_command(&registration())
}

/// The stages a run of `deafen` can stand in.
pub open spec fn own_stage(stage: Stage) -> bool {
    match stage {
        Stage::Ready | Stage::AwaitingCall | Stage::AwaitingFlag | Stage::AwaitingOutcome | Stage::Finished => true,
        _ => false,
    }
}

/// One step of `deafen`: look for the guild's call, and deafen it unless it
/// is deafened already.
pub open spec fn spec_run(stage: Stage, event: EventView) -> (Stage, ActionView) {
    match (stage, event) {
        (Stage::Ready, _) => (Stage::AwaitingCall, ActionView::FindCall),
        (Stage::AwaitingCall, EventView::CallLookup { present }) => if present {
            (Stage::AwaitingFlag, ActionView::ReadDeaf)
        } else {
            reply("Not in a vc you dumb fuck"@)
        },
        (Stage::AwaitingFlag, EventView::Flag { set }) => if set {
            reply("Already deafened"@)
        } else {
            (Stage::AwaitingOutcome, ActionView::SetDeaf { on: true })
        },
        (Stage::AwaitingOutcome, EventView::Failed { reason }) => reply("Failed: "@ + reason),
        (Stage::AwaitingOutcome, EventView::Succeeded) => reply("Deafened"@),
        // Events the stage does not accept never reach `run`.
        _ => (stage, ActionView::FindCall),
    }
}

/// Advances `deafen` by one event: the next stage and what to do next.
pub fn run(stage: Stage, event: &Event) -> (next: (Stage, Action))
    requires
        own_stage(stage),
        accepts(stage, event@),
        !outside_guild(event@),
    ensures
        own_stage(next.0),
        (next.0, next.1@) == spec_run(stage, event@),
{
    match (stage, event) {
        (Stage::Ready, _) => (Stage::AwaitingCall, Action::FindCall),
        (Stage::AwaitingCall, Event::CallLookup { present }) => if *present {
            (Stage::AwaitingFlag, Action::ReadDeaf)
        } else {
            reply_with("Not in a vc you dumb fuck")
        },
        (Stage::AwaitingFlag, Event::Flag { set }) => if *set {
            reply_with("Already deafened")
        } else {
            (Stage::AwaitingOutcome, Action::SetDeaf { on: true })
        },
        (Stage::AwaitingOutcome, Event::Failed { reason }) => reply_joined("Failed: ", reason.as_str()),
        (Stage::AwaitingOutcome, Event::Succeeded) => reply_with("Deafened"),
        _ => (stage, Action::FindCall),
    }
}

} // verus!
