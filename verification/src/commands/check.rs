use vstd::prelude::*;
use serenity::builder::CreateCommand;
use crate::discord::command_contents;
use crate::command_spec::{command_built, plain_command, to_create_command, CommandSpec, CommandSpecView};

verus! {

/// The name the command is registered and invoked under.
pub const NAME: &'static str = "check";

/// The command as registered with Discord.
pub open spec fn registration_spec() -> CommandSpecView {
    plain_command(NAME@, " Checks that a message successfully sent; if not, then logs why to stdout."@)
}

/// The `check` slash command as registered with Discord.
pub fn registration() -> (spec: CommandSpec)
    ensures
        spec@ == registration_spec(),
{
    CommandSpec::plain(NAME, " Checks that a message successfully sent; if not, then logs why to stdout.")
}

/// serenity's builder for registering the `check` slash command.
pub fn register() -> (command: CreateCommand)
    ensures
        command_contents(command) == command_built(registration_spec()),
{
    to_create_command(&registration())
}

/// The reply to `check`: the bot answers, so it is alive.
pub fn run() -> (content: String)
    ensures
        content@ == "Hey, I'm alive!"@,
{
    String::from_str("Hey, I'm alive!")
}

} // verus!
