use vstd::prelude::*;

verus! {

/// Where a running command stands: what it last asked the outside world for.
#[derive(PartialEq, Eq, Structural, Clone, Copy, Debug)]
pub enum Stage {
    /// Invoked, nothing asked yet.
    Ready,
    /// Asked whether the voice manager already holds a call in the guild (before joining).
    AwaitingPresence,
    /// Asked whether the voice manager holds a call in the guild.
    AwaitingCall,
    /// Asked for the call's deaf or mute flag.
    AwaitingFlag,
    /// Asked for an operation on the call.
    AwaitingOutcome,
    /// Asked the join command to run for the invoking member, before playing.
    AwaitingJoin,
    /// Asked another command to run and answer.
    AwaitingAnswer,
    /// Asked in which voice channel a member is.
    AwaitingLocation,
    /// Asked to wait a while before looking for the member again.
    Waiting,
    /// Asked to join the given voice channel.
    AwaitingConnection { channel: u64 },
    /// Asked to watch the joined call for track errors.
    AwaitingWatch { channel: u64 },
    /// Asked to start playing.
    AwaitingStart,
    /// Replied; nothing more to do.
    Finished,
}

/// A command whose behaviour lies outside this library.
#[derive(PartialEq, Eq, Structural, Clone, Copy, Debug)]
pub enum OtherCommand {
    Ping,
    Join,
}

/// What the outside world reports back to a running command.
#[derive(PartialEq, Eq, Debug)]
pub enum Event {
    /// The command was invoked; `in_guild` tells whether the interaction came from a guild.
    Invoked { in_guild: bool },
    /// Whether the voice manager holds a call in the guild.
    CallLookup { present: bool },
    /// The value of the flag that was asked for.
    Flag { set: bool },
    /// The operation that was asked for succeeded.
    Succeeded,
    /// The operation that was asked for failed; `reason` is the error's debug rendering.
    Failed { reason: String },
    /// The voice channel the member is in, if any (channel ids are never zero).
    Located { channel: Option<u64> },
    /// The other command that was asked to run answered with `reply`.
    Answered { reply: String },
    /// Playback began; `source` is the debug rendering of the played input.
    Started { source: String },
}

/// What a running command asks the outside world to do next.
#[derive(PartialEq, Eq, Debug)]
pub enum Action {
    /// Tell whether the voice manager holds a call in the guild.
    FindCall,
    /// Tell whether the call is deafened.
    ReadDeaf,
    /// Tell whether the call is muted.
    ReadMute,
    /// Deafen (`on`) or undeafen the call.
    SetDeaf { on: bool },
    /// Mute (`on`) or unmute the call.
    SetMute { on: bool },
    /// Remove the call from the voice manager, leaving the channel.
    RemoveCall,
    /// Run another command and report its answer.
    Run { command: OtherCommand },
    /// Tell in which voice channel of the guild the given user is.
    LocateMember { user: u64 },
    /// Join the given voice channel of the guild.
    JoinChannel { channel: u64 },
    /// Watch the call for track errors.
    WatchTrackErrors,
    /// Start a timer and report `Succeeded` when it runs out.
    Wait,
    /// Play the given link or search query in the call.
    Play { query: String },
    /// Answer the interaction with `content`; the command is over.
    Reply { content: String },
}

/// `Event` with its strings taken as character sequences.
pub enum EventView {
    Invoked { in_guild: bool },
    CallLookup { present: bool },
    Flag { set: bool },
    Succeeded,
    Failed { reason: Seq<char> },
    Located { channel: Option<u64> },
    Answered { reply: Seq<char> },
    Started { source: Seq<char> },
}

/// `Action` with its strings taken as character sequences.
pub enum ActionView {
    FindCall,
    ReadDeaf,
    ReadMute,
    SetDeaf { on: bool },
    SetMute { on: bool },
    RemoveCall,
    Run { command: OtherCommand },
    LocateMember { user: u64 },
    JoinChannel { channel: u64 },
    WatchTrackErrors,
    Wait,
    Play { query: Seq<char> },
    Reply { content: Seq<char> },
}

impl View for Event {
    type V = EventView;

    open spec fn view(&self) -> EventView {
        match self {
            Event::Invoked { in_guild } => EventView::Invoked { in_guild: *in_guild },
            Event::CallLookup { present } => EventView::CallLookup { present: *present },
            Event::Flag { set } => EventView::Flag { set: *set },
            Event::Succeeded => EventView::Succeeded,
            Event::Failed { reason } => EventView::Failed { reason: reason@ },
            Event::Located { channel } => EventView::Located { channel: *channel },
            Event::Answered { reply } => EventView::Answered { reply: reply@ },
            Event::Started { source } => EventView::Started { source: source@ },
        }
    }
}

impl View for Action {
    type V = ActionView;

    open spec fn view(&self) -> ActionView {
        match self {
            Action::FindCall => ActionView::FindCall,
            Action::ReadDeaf => ActionView::ReadDeaf,
            Action::ReadMute => ActionView::ReadMute,
            Action::SetDeaf { on } => ActionView::SetDeaf { on: *on },
            Action::SetMute { on } => ActionView::SetMute { on: *on },
            Action::RemoveCall => ActionView::RemoveCall,
            Action::Run { command } => ActionView::Run { command: *command },
            Action::LocateMember { user } => ActionView::LocateMember { user: *user },
            Action::JoinChannel { channel } => ActionView::JoinChannel { channel: *channel },
            Action::WatchTrackErrors => ActionView::WatchTrackErrors,
            Action::Wait => ActionView::Wait,
            Action::Play { query } => ActionView::Play { query: query@ },
            Action::Reply { content } => ActionView::Reply { content: content@ },
        }
    }
}

/// The events that answer what a command asked for in the given stage.
pub open spec fn accepts(stage: Stage, event: EventView) -> bool {
    match stage {
        Stage::Ready => event is Invoked,
        Stage::AwaitingPresence => event is CallLookup,
        Stage::AwaitingCall => event is CallLookup,
        Stage::AwaitingFlag => event is Flag,
        Stage::AwaitingOutcome => event is Succeeded || event is Failed,
        Stage::AwaitingJoin => event is Answered,
        Stage::AwaitingAnswer => event is Answered,
        Stage::AwaitingLocation => event matches EventView::Located { channel } && channel != Some(0u64),
        Stage::Waiting => event is Succeeded,
        Stage::AwaitingConnection { channel } => event is Succeeded || event is Failed,
        Stage::AwaitingWatch { channel } => event is Succeeded,
        Stage::AwaitingStart => event is Started,
        Stage::Finished => false,
    }
}

/// An invocation from outside a guild, where the guild-bound commands give up.
pub open spec fn outside_guild(event: EventView) -> bool {
    event matches EventView::Invoked { in_guild } && !in_guild
}

/// A reply with the given content, ending the command.
pub open spec fn reply(content: Seq<char>) -> (Stage, ActionView) {
    (Stage::Finished, ActionView::Reply { content })
}

/// Ends the command with a reply that holds `content`.
pub fn reply_with(content: &str) -> (next: (Stage, Action))
    ensures
        (next.0, next.1@) == reply(content@),
{
    (Stage::Finished, Action::Reply { content: String::from_str(content) })
}

/// Ends the command with a reply that holds `front` followed by `back`.
pub fn reply_joined(front: &str, back: &str) -> (next: (Stage, Action))
    ensures
        (next.0, next.1@) == reply(front@ + back@),
{
    (Stage::Finished, Action::Reply { content: crate::text::joined(front, back) })
}

} // verus!
