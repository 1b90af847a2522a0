use vstd::prelude::*;
use serenity::builder::CreateCommand;
use crate::discord::{
    add_command_option, command_contents, command_named, describe_command, make_required, new_option,
    CommandContents, OptionContents,
};

verus! {

/// The type of value a slash command option takes.
#[derive(PartialEq, Eq, Structural, Clone, Copy, Debug)]
pub enum OptionKind {
    String,
    Integer,
    Boolean,
    User,
    Channel,
    Role,
    Mentionable,
    Number,
    Attachment,
}

/// Discord's numeric code for an option type.
pub open spec fn kind_code(kind: OptionKind) -> u8 {
    match kind {
        OptionKind::String => 3,
        OptionKind::Integer => 4,
        OptionKind::Boolean => 5,
        OptionKind::User => 6,
        OptionKind::Channel => 7,
        OptionKind::Role => 8,
        OptionKind::Mentionable => 9,
        OptionKind::Number => 10,
        OptionKind::Attachment => 11,
    }
}

impl OptionKind {
    /// Discord's numeric code for this option type.
    pub fn code(self) -> (code: u8)
        ensures
            code == kind_code(self),
    {
        match self {
            OptionKind::String => 3,
            OptionKind::Integer => 4,
            OptionKind::Boolean => 5,
            OptionKind::User => 6,
            OptionKind::Channel => 7,
            OptionKind::Role => 8,
            OptionKind::Mentionable => 9,
            OptionKind::Number => 10,
            OptionKind::Attachment => 11,
        }
    }
}

/// One option of a slash command, as registered.
#[derive(PartialEq, Eq, Debug)]
pub struct OptionSpec {
    pub kind: OptionKind,
    pub name: String,
    pub description: String,
    pub required: bool,
}

/// `OptionSpec` with its strings taken as character sequences.
pub struct OptionSpecView {
    pub kind: OptionKind,
    pub name: Seq<char>,
    pub description: Seq<char>,
    pub required: bool,
}

impl View for OptionSpec {
    type V = OptionSpecView;

    open spec fn view(&self) -> OptionSpecView {
        OptionSpecView {
            kind: self.kind,
            name: self.name@,
            description: self.description@,
            required: self.required,
        }
    }
}

/// A slash command as registered with Discord: its name, its description
/// and its options in order.
#[derive(PartialEq, Eq, Debug)]
pub struct CommandSpec {
    pub name: String,
    pub description: String,
    pub options: Vec<OptionSpec>,
}

/// `CommandSpec` with its strings taken as character sequences.
pub struct CommandSpecView {
    pub name: Seq<char>,
    pub description: Seq<char>,
    pub options: Seq<OptionSpecView>,
}

impl View for CommandSpec {
    type V = CommandSpecView;

    open spec fn view(&self) -> CommandSpecView {
        CommandSpecView {
            name: self.name@,
            description: self.description@,
            options: self.options@.map_values(|o: OptionSpec| o@),
        }
    }
}

/// A command without options.
pub open spec fn plain_command(name: Seq<char>, description: Seq<char>) -> CommandSpecView {
    CommandSpecView { name, description, options: Seq::empty() }
}

impl CommandSpec {
    /// A command with the given name and description and no options.
    pub fn plain(name: &str, description: &str) -> (spec: CommandSpec)
        ensures
            spec@ == plain_command(name@, description@),
    {
        let spec = CommandSpec {
            name: String::from_str(name),
            description: String::from_str(description),
            options: Vec::new(),
        };
        assert(spec@.options =~= Seq::<OptionSpecView>::empty());
        spec
    }
}

/// What the builder of an option holds once it is made from its spec.
pub open spec fn option_built(option: OptionSpecView) -> OptionContents {
    OptionContents {
        kind_code: kind_code(option.kind),
        name: option.name,
        description: option.description,
        required: option.required,
    }
}

/// What the builder of a command holds once it is made from its spec.
pub open spec fn command_built(spec: CommandSpecView) -> CommandContents {
    CommandContents {
        name: spec.name,
        description: Some(spec.description),
        options: spec.options.map_values(|o: OptionSpecView| option_built(o)),
    }
}

/// Builds serenity's builder for a registered command: the name, then the
/// description, then each option in order with its type, name, description
/// and whether it is required.
pub fn to_create_command(spec: &CommandSpec) -> (command: CreateCommand)
    ensures
        command_contents(command) == command_built(spec@),
{
    let mut command = describe_command(command_named(spec.name.as_str()), spec.description.as_str());
    let n = spec.options.len();
    let ghost built = command_built(spec@);
    for i in 0..n
        invariant
            n == spec.options.len(),
            built == command_built(spec@),
            command_contents(command).name == built.name,
            command_contents(command).description == built.description,
            command_contents(command).options == built.options.take(i as int),
    {
        let option = &spec.options[i];
        let made = make_required(
            new_option(option.kind.code(), option.name.as_str(), option.description.as_str()),
            option.required,
        );
        assert(spec@.options[i as int] == option@);
        command = add_command_option(command, made);
        assert(built.options.take(i + 1) =~= built.options.take(i as int).push(built.options[i as int]));
    }
    assert(built.options.take(n as int) =~= built.options);
    command
}

} // verus!
