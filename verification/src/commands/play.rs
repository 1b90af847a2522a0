use vstd::prelude::*;
use serenity::builder::CreateCommand;
use crate::discord::command_contents;
use crate::command_spec::{command_built, to_create_command, CommandSpec, CommandSpecView, OptionKind, OptionSpec, OptionSpecView};
use crate::text::{is_prefix_of, joined, starts_with};
use crate::voice::{
    accepts, outside_guild, reply, reply_joined, reply_with, Action, ActionView, Event, EventView,
    OtherCommand, Stage,
};

verus! {

/// The name the command is registered and invoked under.
pub const NAME: &'static str = "play";

/// The option that carries what to play.
pub open spec fn link_option() -> OptionSpecView {
    OptionSpecView {
        kind: OptionKind::String,
        name: "link"@,
        description: "The link to the song you want to play or a query for yt"@,
        required: true,
    }
}

/// The command as registered with Discord: one required string option, `link`.
pub open spec fn registration_spec() -> CommandSpecView {
    CommandSpecView {
        name: NAME@,
        description: "Plays a song with the provided link"@,
        options: seq![link_option()],
    }
}

/// The `play` slash command as registered with Discord.
pub fn registration() -> (spec: CommandSpec)
    ensures
        spec@ == registration_spec(),
{
    let link = OptionSpec {
        kind: OptionKind::String,
        name: String::from_str("link"),
        description: String::from_str("The link to the song you want to play or a query for yt"),
        required: true,
    };
    let mut options: Vec<OptionSpec> = Vec::new();
    options.push(link);
    let spec = CommandSpec {
        name: String::from_str(NAME),
        description: String::from_str("Plays a song with the provided link"),
        options,
    };
    assert(spec@.options =~= seq![link_option()]);
    spec
}

/// serenity's builder for registering the `play` slash command.
pub fn register() -> (command: CreateCommand)
    ensures
        command_contents(command) == command_built(registration_spec()),
{
    to_create_command(&registration())
}

/// What is handed to YouTube: a link that starts with `http` as it is, and
/// anything else as a search for its first hit.
pub open spec fn query_of(link: Seq<char>) -> Seq<char> {
    if is_prefix_of("http"@, link) {
        link
    } else {
        "ytsearch1:"@ + link
    }
}

/// The query that `play` hands to YouTube for the given option value.
pub fn query_for(link: &str) -> (query: String)
    ensures
        query@ == query_of(link@),
{
    let do_search = !starts_with(link, "http");
    if do_search {
        joined("ytsearch1:", link)
    } else {
        String::from_str(link)
    }
}

/// The stages a run of `play` can stand in.
pub open spec fn own_stage(stage: Stage) -> bool {
    match stage {
        Stage::Ready | Stage::AwaitingPresence | Stage::AwaitingJoin | Stage::AwaitingCall | Stage::AwaitingStart
        | Stage::Finished => true,
        _ => false,
    }
}

/// One step of `play`: join first when the bot holds no call in the guild,
/// then play `link` in the guild's call.
pub open spec fn spec_run(link: Seq<char>, stage: Stage, event: EventView) -> (Stage, ActionView) {
    match (stage, event) {
        (Stage::Ready, _) => (Stage::AwaitingPresence, ActionView::FindCall),
        (Stage::AwaitingPresence, EventView::CallLookup { present }) => if present {
            (Stage::AwaitingCall, ActionView::FindCall)
        } else {
            (Stage::AwaitingJoin, ActionView::Run { command: OtherCommand::Join })
        },
        (Stage::AwaitingJoin, EventView::Answered { reply }) => (Stage::AwaitingCall, ActionView::FindCall),
        (Stage::AwaitingCall, EventView::CallLookup { present }) => if present {
            (Stage::AwaitingStart, ActionView::Play { query: query_of(link) })
        } else {
            reply("Not in a voice channel to play in. do you not have eyes?"@)
        },
        (Stage::AwaitingStart, EventView::Started { source }) => reply("Playing: "@ + source),
        // Events the stage does not accept never reach `run`.
        _ => (stage, ActionView::FindCall),
    }
}

/// Advances `play` by one event: the next stage and what to do next.
/// `link` is the value of the command's `link` option.
pub fn run(link: &str, stage: Stage, event: &Event) -> (next: (Stage, Action))
    requires
        own_stage(stage),
        accepts(stage, event@),
        !outside_guild(event@),
    ensures
        own_stage(next.0),
        (next.0, next.1@) == spec_run(link@, stage, event@),
{
    match (stage, event) {
        (Stage::Ready, _) => (Stage::AwaitingPresence, Action::FindCall),
        (Stage::AwaitingPresence, Event::CallLookup { present }) => if *present {
            (Stage::AwaitingCall, Action::FindCall)
        } else {
            (Stage::AwaitingJoin, Action::Run { command: OtherCommand::Join })
        },
        (Stage::AwaitingJoin, Event::Answered { .. }) => (Stage::AwaitingCall, Action::FindCall),
        (Stage::AwaitingCall, Event::CallLookup { present }) => if *present {
            (Stage::AwaitingStart, Action::Play { query: query_for(link) })
        } else {
            reply_with("Not in a voice channel to play in. do you not have eyes?")
        },
        (Stage::AwaitingStart, Event::Started { source }) => reply_joined("Playing: ", source.as_str()),
        _ => (stage, Action::FindCall),
    }
}

} // verus!
