use vstd::prelude::*;
use serenity::builder::CreateCommand;
use crate::discord::command_contents;
use crate::command_spec::{command_built, to_create_command, CommandSpec, CommandSpecView};
use crate::commands::{check, deafen, leave, mute, play, undeafen, unmute};

verus! {

/// The commands registered in the configured guild, in order, given the
/// registrations of `ping` and `join`, whose modules lie outside this library.
pub open spec fn guild_registration_specs(ping: CommandSpecView, join: CommandSpecView) -> Seq<CommandSpecView> {
    seq![
        ping,
        deafen::registration_spec(),
        join,
        leave::registration_spec(),
        play::registration_spec(),
        undeafen::registration_spec(),
        mute::registration_spec(),
        unmute::registration_spec(),
        check::registration_spec(),
    ]
}

/// The commands to register in the configured guild once the bot is ready,
/// in order: ping, deafen, join, leave, play, undeafen, mute, unmute, check.
pub fn guild_registrations(ping: CommandSpec, join: CommandSpec) -> (specs: Vec<CommandSpec>)
    ensures
        specs.len() == guild_registration_specs(ping@, join@).len(),
        forall|i: int| 0 <= i < specs.len() ==> #[trigger] specs@[i]@ == guild_registration_specs(ping@, join@)[i],
{
    let ghost expected = guild_registration_specs(ping@, join@);
    let mut specs: Vec<CommandSpec> = Vec::new();
    specs.push(ping);
    specs.push(deafen::registration());
    specs.push(join);
    specs.push(leave::registration());
    specs.push(play::registration());
    specs.push(undeafen::registration());
    specs.push(mute::registration());
    specs.push(unmute::registration());
    specs.push(check::registration());
    assert forall|i: int| 0 <= i < specs.len() implies #[trigger] specs@[i]@ == expected[i] by {
        if i == 0 {} else if i == 1 {} else if i == 2 {} else if i == 3 {} else if i == 4 {}
        else if i == 5 {} else if i == 6 {} else if i == 7 {} else {}
    }
    specs
}

/// serenity's builders for the commands to register in the configured
/// guild, one for each of `guild_registrations`, in the same order.
pub fn guild_commands(ping: CommandSpec, join: CommandSpec) -> (commands: Vec<CreateCommand>)
    ensures
        commands.len() == guild_registration_specs(ping@, join@).len(),
        forall|i: int| 0 <= i < commands.len() ==> #[trigger] command_contents(commands@[i])
            == command_built(guild_registration_specs(ping@, join@)[i]),
{
    let specs = guild_registrations(ping, join);
    let mut commands: Vec<CreateCommand> = Vec::new();
    let n = specs.len();
    for i in 0..n
        invariant
            n == specs.len(),
            n == guild_registration_specs(ping@, join@).len(),
            forall|j: int| 0 <= j < n ==> #[trigger] specs@[j]@ == guild_registration_specs(ping@, join@)[j],
            commands.len() == i,
            forall|j: int| 0 <= j < i ==> #[trigger] command_contents(commands@[j])
                == command_built(guild_registration_specs(ping@, join@)[j]),
    {
        commands.push(to_create_command(&specs[i]));
    }
    commands
}

} // verus!
