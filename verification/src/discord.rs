use vstd::prelude::*;
use serenity::builder::{CreateCommand, CreateCommandOption};
use serenity::model::application::{CommandOptionType, ResolvedOption};
use serenity::model::id::ChannelId;
use crate::text::decimal;

verus! {

/// serenity's builder for a slash command, carried through opaquely.
#[verifier::external_type_specification]
#[verifier::external_body]
pub struct ExCreateCommand(CreateCommand);

/// serenity's builder for one option of a slash command, carried through opaquely.
#[verifier::external_type_specification]
#[verifier::external_body]
pub struct ExCreateCommandOption(CreateCommandOption);

/// An option of an invoked slash command as serenity resolves it.
#[verifier::external_type_specification]
#[verifier::external_body]
pub struct ExResolvedOption<'a>(ResolvedOption<'a>);

/// What a command builder holds that Discord reads: the command's name,
/// its description once one is set, and its options in order.
pub struct CommandContents {
    pub name: Seq<char>,
    pub description: Option<Seq<char>>,
    pub options: Seq<OptionContents>,
}

/// What an option builder holds that Discord reads: the numeric code of
/// its type (`u8::from` of its `CommandOptionType`), its name, its
/// description and whether it is required.
pub struct OptionContents {
    pub kind_code: u8,
    pub name: Seq<char>,
    pub description: Seq<char>,
    pub required: bool,
}

/// The contents of a command builder. The builder's localization maps
/// are left out: their hasher keys are drawn at random.
pub uninterp spec fn command_contents(command: CreateCommand) -> CommandContents;

/// The contents of an option builder.
pub uninterp spec fn option_contents(option: CreateCommandOption) -> OptionContents;

/// Calls `CreateCommand::new`, which makes a builder with the given name,
/// no description and no options.
#[verifier::external_body]
pub(crate) fn command_named(name: &str) -> (command: CreateCommand)
    ensures
        command_contents(command) == (CommandContents { name: name@, description: None, options: Seq::empty() }),
{
    CreateCommand::new(name)
}

/// Calls `CreateCommand::description`, which sets the description and
/// keeps the name and the options.
#[verifier::external_body]
pub(crate) fn describe_command(command: CreateCommand, description: &str) -> (described: CreateCommand)
    ensures
        command_contents(described) == (CommandContents {
            description: Some(description@),
            ..command_contents(command)
        }),
{
    command.description(description)
}

/// Calls `CreateCommand::add_option`, which appends the option to the
/// builder's options and keeps the name and the description.
#[verifier::external_body]
pub(crate) fn add_command_option(command: CreateCommand, option: CreateCommandOption) -> (extended: CreateCommand)
    ensures
        command_contents(extended) == (CommandContents {
            options: command_contents(command).options.push(option_contents(option)),
            ..command_contents(command)
        }),
{
    command.add_option(option)
}

/// Calls `CreateCommandOption::new` with the option type whose Discord
/// code is `kind_code` (`CommandOptionType::from`, which turns any code it
/// does not know into `Unknown` of that code, so `u8::from` gives the code
/// back); the option starts as not required.
#[verifier::external_body]
pub(crate) fn new_option(kind_code: u8, name: &str, description: &str) -> (option: CreateCommandOption)
    ensures
        option_contents(option) == (OptionContents {
            kind_code,
            name: name@,
            description: description@,
            required: false,
        }),
{
    CreateCommandOption::new(CommandOptionType::from(kind_code), name, description)
}

/// Calls `CreateCommandOption::required`, which sets whether the option
/// must be given and keeps the rest.
#[verifier::external_body]
pub(crate) fn make_required(option: CreateCommandOption, required: bool) -> (marked: CreateCommandOption)
    ensures
        option_contents(marked) == (OptionContents { required, ..option_contents(option) }),
{
    option.required(required)
}

/// Renders a channel id the way `{:?}` renders serenity's `ChannelId`: the
/// derived `Debug` of the tuple struct, whose inner id prints as its decimal
/// number. `ChannelId::new` panics on zero, which `requires` rules out.
#[verifier::external_body]
pub(crate) fn channel_debug(channel: u64) -> (rendered: String)
    requires
        channel != 0,
    ensures
        rendered@ == "ChannelId("@ + decimal(channel as nat) + ")"@,
{
    format!("{:?}", ChannelId::new(channel))
}

} // verus!
