use vstd::prelude::*;
use serenity::builder::CreateCommand;
use serenity::model::application::ResolvedOption;
use crate::discord::command_contents;
use crate::command_spec::{command_built, plain_command, to_create_command, CommandSpec, CommandSpecView};

verus! {

/// The name the command is registered and invoked under.
pub const NAME: &'static str = "wonderful_command";

/// The command as registered with Discord.
pub open spec fn registration_spec() -> CommandSpecView {
    plain_command(NAME@, "An amazing command"@)
}

/// The global `wonderful_command` slash command as registered with Discord.
pub fn registration() -> (spec: CommandSpec)
    ensures
        spec@ == registration_spec(),
{
    CommandSpec::plain(NAME, "An amazing command")
}

/// serenity's builder for registering the global `wonderful_command` slash command.
pub fn register() -> (command: CreateCommand)
    ensures
        command_contents(command) == command_built(registration_spec()),
{
    to_create_command(&registration())
}

/// The reply to `wonderful_command`, whatever options it was given.
pub fn run(_options: &[ResolvedOption]) -> (content: String)
    ensures
        content@ == "This is a wonderful command!"@,
{
    String::from_str("This is a wonderful command!")
}

} // verus!
