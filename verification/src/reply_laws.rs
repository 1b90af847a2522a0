use vstd::prelude::*;
use crate::command_spec::{command_built, kind_code, CommandSpecView, OptionKind};
use crate::commands::play;
use crate::commands::linus_timer;
use crate::guild_id::{digits_value, guild_id_of, is_digit, GuildIdError};
use crate::session::{kind_of, spec_step, CommandKind};
use crate::text::decimal;
use crate::voice::{ActionView, EventView, OtherCommand, Stage};

verus! {

/// A final answer with the given content.
pub open spec fn answer(content: Seq<char>) -> (Stage, ActionView) {
    (Stage::Finished, ActionView::Reply { content })
}

/// Invoked from a guild, each voice command first asks whether the bot has
/// a call there; when it has none, each answers with its own complaint and
/// does nothing else.
pub proof fn voice_commands_need_a_call(link: Seq<char>)
    ensures
        spec_step(CommandKind::Deafen, link, Stage::Ready, EventView::Invoked { in_guild: true })
            == (Stage::AwaitingCall, ActionView::FindCall),
        spec_step(CommandKind::Mute, link, Stage::Ready, EventView::Invoked { in_guild: true })
            == (Stage::AwaitingCall, ActionView::FindCall),
        spec_step(CommandKind::Undeafen, link, Stage::Ready, EventView::Invoked { in_guild: true })
            == (Stage::AwaitingCall, ActionView::FindCall),
        spec_step(CommandKind::Unmute, link, Stage::Ready, EventView::Invoked { in_guild: true })
            == (Stage::AwaitingCall, ActionView::FindCall),
        spec_step(CommandKind::Leave, link, Stage::Ready, EventView::Invoked { in_guild: true })
            == (Stage::AwaitingCall, ActionView::FindCall),
        spec_step(CommandKind::Play, link, Stage::Ready, EventView::Invoked { in_guild: true })
            == (Stage::AwaitingPresence, ActionView::FindCall),
        spec_step(CommandKind::Deafen, link, Stage::AwaitingCall, EventView::CallLookup { present: false })
            == answer("Not in a vc you dumb fuck"@),
        spec_step(CommandKind::Mute, link, Stage::AwaitingCall, EventView::CallLookup { present: false })
            == answer("Not in a voice channel to mute, why would you even try this? *idiot*"@),
        spec_step(CommandKind::Undeafen, link, Stage::AwaitingCall, EventView::CallLookup { present: false })
            == answer("Not in a voice channel to undeafen in"@),
        spec_step(CommandKind::Unmute, link, Stage::AwaitingCall, EventView::CallLookup { present: false })
            == answer("Not in a voice channel to mute in. do you not have eyes?"@),
        spec_step(CommandKind::Leave, link, Stage::AwaitingCall, EventView::CallLookup { present: false })
            == answer("Not in a voice channel to leave from. should i just leave the server? or what"@),
        spec_step(CommandKind::Play, link, Stage::AwaitingCall, EventView::CallLookup { present: false })
            == answer("Not in a voice channel to play in. do you not have eyes?"@),
{
}

/// With a call, `deafen` and `mute` first read the call's flag; when it is
/// already set they say so and leave the call alone, otherwise they set it.
/// `undeafen`, `unmute` and `leave` act on the call at once.
pub proof fn voice_commands_act_on_the_call(link: Seq<char>)
    ensures
        spec_step(CommandKind::Deafen, link, Stage::AwaitingCall, EventView::CallLookup { present: true })
            == (Stage::AwaitingFlag, ActionView::ReadDeaf),
        spec_step(CommandKind::Mute, link, Stage::AwaitingCall, EventView::CallLookup { present: true })
            == (Stage::AwaitingFlag, ActionView::ReadMute),
        spec_step(CommandKind::Deafen, link, Stage::AwaitingFlag, EventView::Flag { set: true })
            == answer("Already deafened"@),
        spec_step(CommandKind::Mute, link, Stage::AwaitingFlag, EventView::Flag { set: true })
            == answer("I'm already muted! leave me alone now!!"@),
        spec_step(CommandKind::Deafen, link, Stage::AwaitingFlag, EventView::Flag { set: false })
            == (Stage::AwaitingOutcome, ActionView::SetDeaf { on: true }),
        spec_step(CommandKind::Mute, link, Stage::AwaitingFlag, EventView::Flag { set: false })
            == (Stage::AwaitingOutcome, ActionView::SetMute { on: true }),
        spec_step(CommandKind::Undeafen, link, Stage::AwaitingCall, EventView::CallLookup { present: true })
            == (Stage::AwaitingOutcome, ActionView::SetDeaf { on: false }),
        spec_step(CommandKind::Unmute, link, Stage::AwaitingCall, EventView::CallLookup { present: true })
            == (Stage::AwaitingOutcome, ActionView::SetMute { on: false }),
        spec_step(CommandKind::Leave, link, Stage::AwaitingCall, EventView::CallLookup { present: true })
            == (Stage::AwaitingOutcome, ActionView::RemoveCall),
{
}

/// Each voice command reports how its operation went: a fixed message on
/// success, and on failure a fixed prefix followed by the error's text,
/// whatever that text is.
pub proof fn voice_commands_report_the_outcome(link: Seq<char>, reason: Seq<char>)
    ensures
        spec_step(CommandKind::Deafen, link, Stage::AwaitingOutcome, EventView::Succeeded) == answer("Deafened"@),
        spec_step(CommandKind::Mute, link, Stage::AwaitingOutcome, EventView::Succeeded) == answer("Now Muted"@),
        spec_step(CommandKind::Undeafen, link, Stage::AwaitingOutcome, EventView::Succeeded)
            == answer("Hey, I can hear again 😄"@),
        spec_step(CommandKind::Unmute, link, Stage::AwaitingOutcome, EventView::Succeeded) == answer("Unmuted :)"@),
        spec_step(CommandKind::Leave, link, Stage::AwaitingOutcome, EventView::Succeeded)
            == answer("Left voice channel (*i am never coming back to you again*)"@),
        spec_step(CommandKind::Deafen, link, Stage::AwaitingOutcome, EventView::Failed { reason })
            == answer("Failed: "@ + reason),
        spec_step(CommandKind::Mute, link, Stage::AwaitingOutcome, EventView::Failed { reason })
            == answer("Failed to mute: "@ + reason),
        spec_step(CommandKind::Undeafen, link, Stage::AwaitingOutcome, EventView::Failed { reason })
            == answer("Failed to deafen: "@ + reason),
        spec_step(CommandKind::Unmute, link, Stage::AwaitingOutcome, EventView::Failed { reason })
            == answer("Failed to mute: "@ + reason),
        spec_step(CommandKind::Leave, link, Stage::AwaitingOutcome, EventView::Failed { reason })
            == answer("Failed **F**: "@ + reason),
{
}

/// `play` joins the caller's channel first when the bot has no call, looks
/// for the call again either way, plays the link's query in it, and answers
/// with the played input's text.
pub proof fn play_joins_then_plays(link: Seq<char>, joined: Seq<char>, source: Seq<char>)
    ensures
        spec_step(CommandKind::Play, link, Stage::AwaitingPresence, EventView::CallLookup { present: false })
            == (Stage::AwaitingJoin, ActionView::Run { command: OtherCommand::Join }),
        spec_step(CommandKind::Play, link, Stage::AwaitingPresence, EventView::CallLookup { present: true })
            == (Stage::AwaitingCall, ActionView::FindCall),
        spec_step(CommandKind::Play, link, Stage::AwaitingJoin, EventView::Answered { reply: joined })
            == (Stage::AwaitingCall, ActionView::FindCall),
        spec_step(CommandKind::Play, link, Stage::AwaitingCall, EventView::CallLookup { present: true })
            == (Stage::AwaitingStart, ActionView::Play { query: play::query_of(link) }),
        spec_step(CommandKind::Play, link, Stage::AwaitingStart, EventView::Started { source })
            == answer("Playing: "@ + source),
{
}

/// `ping` and `join` are run by another component, and their answer,
/// whatever it is, becomes the reply unchanged.
pub proof fn other_commands_answer_for_themselves(link: Seq<char>, in_guild: bool, text: Seq<char>)
    ensures
        spec_step(CommandKind::Ping, link, Stage::Ready, EventView::Invoked { in_guild })
            == (Stage::AwaitingAnswer, ActionView::Run { command: OtherCommand::Ping }),
        spec_step(CommandKind::Join, link, Stage::Ready, EventView::Invoked { in_guild })
            == (Stage::AwaitingAnswer, ActionView::Run { command: OtherCommand::Join }),
        spec_step(CommandKind::Ping, link, Stage::AwaitingAnswer, EventView::Answered { reply: text }) == answer(text),
        spec_step(CommandKind::Join, link, Stage::AwaitingAnswer, EventView::Answered { reply: text }) == answer(text),
{
}

/// `linus_timer` answers "I broke :(" outside a guild; once it went for
/// Linus's channel, it answers with that channel as serenity prints it,
/// whether joining worked or not.
pub proof fn linus_timer_answers(channel: u64, reason: Seq<char>)
    ensures
        linus_timer::spec_run(Stage::Ready, EventView::Invoked { in_guild: false }) == answer("I broke :("@),
        linus_timer::spec_run(Stage::Ready, EventView::Invoked { in_guild: true })
            == (Stage::AwaitingLocation, ActionView::LocateMember { user: 395517793510096897u64 }),
        linus_timer::spec_run(Stage::AwaitingWatch { channel }, EventView::Succeeded)
            == answer("connected to channel: "@ + ("ChannelId("@ + decimal(channel as nat) + ")"@)),
        linus_timer::spec_run(Stage::AwaitingConnection { channel }, EventView::Failed { reason })
            == answer("connected to channel: "@ + ("ChannelId("@ + decimal(channel as nat) + ")"@)),
        linus_timer::spec_run(Stage::AwaitingConnection { channel }, EventView::Succeeded)
            == (Stage::AwaitingWatch { channel }, ActionView::WatchTrackErrors),
{
}

/// Only the ten command names route anywhere; every other name, however
/// close, is an unknown command.
pub proof fn only_command_names_route(name: Seq<char>)
    ensures
        kind_of(name) != CommandKind::Unknown ==> name == "ping"@ || name == "wonderful_command"@
            || name == "deafen"@ || name == "join"@ || name == "leave"@ || name == "play"@
            || name == "undeafen"@ || name == "mute"@ || name == "unmute"@ || name == "check"@,
{
}

/// A configured guild id is accepted only as a positive 64-bit number that
/// the text denotes; an empty text, a lone `+`, and any text with a
/// character other than a digit after an optional leading `+` are refused
/// as not an integer.
pub proof fn guild_ids_are_positive_numbers(text: Seq<char>)
    ensures
        guild_id_of(text) matches Ok(n) ==> n > 0 && digits_value(
            if text.len() > 0 && text[0] == '+' { text.drop_first() } else { text },
        ) == n,
        text.len() == 0 ==> guild_id_of(text) == Err::<u64, GuildIdError>(GuildIdError::NotAnInteger),
        text == seq!['+'] ==> guild_id_of(text) == Err::<u64, GuildIdError>(GuildIdError::NotAnInteger),
        (exists|i: int| 0 < i < text.len() && !is_digit(#[trigger] text[i]))
            ==> guild_id_of(text) == Err::<u64, GuildIdError>(GuildIdError::NotAnInteger),
        text.len() > 0 && !is_digit(text[0]) && text[0] != '+'
            ==> guild_id_of(text) == Err::<u64, GuildIdError>(GuildIdError::NotAnInteger),
{
    if exists|i: int| 0 < i < text.len() && !is_digit(#[trigger] text[i]) {
        let i = choose|i: int| 0 < i < text.len() && !is_digit(#[trigger] text[i]);
        if text.len() > 0 && text[0] == '+' {
            assert(text.drop_first()[i - 1] == text[i]);
        }
    }
    if text.len() > 0 && !is_digit(text[0]) && text[0] != '+' {
        assert(text[0] == text[0]);
    }
}

/// A builder made from a registration holds exactly what the registration
/// says: the same name, the registration's description, and the same
/// options in the same order, each with its type's Discord code and its
/// name, description and requiredness.
pub proof fn builders_hold_their_registration(spec: CommandSpecView)
    ensures
        command_built(spec).name == spec.name,
        command_built(spec).description == Some(spec.description),
        command_built(spec).options.len() == spec.options.len(),
        forall|i: int| 0 <= i < spec.options.len() ==> {
            &&& (#[trigger] command_built(spec).options[i]).name == spec.options[i].name
            &&& command_built(spec).options[i].description == spec.options[i].description
            &&& command_built(spec).options[i].required == spec.options[i].required
            &&& command_built(spec).options[i].kind_code == kind_code(spec.options[i].kind)
        },
        kind_code(OptionKind::String) == 3 && kind_code(OptionKind::Integer) == 4
            && kind_code(OptionKind::Boolean) == 5 && kind_code(OptionKind::User) == 6
            && kind_code(OptionKind::Channel) == 7 && kind_code(OptionKind::Role) == 8
            && kind_code(OptionKind::Mentionable) == 9 && kind_code(OptionKind::Number) == 10
            && kind_code(OptionKind::Attachment) == 11,
{
}

} // verus!
