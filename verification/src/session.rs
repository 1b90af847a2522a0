use vstd::prelude::*;
use serenity::model::application::ResolvedOption;
use crate::commands::{check, deafen, leave, mute, play, undeafen, unmute, wonderful_command};
use crate::text::same_text;
use crate::voice::{accepts, outside_guild, reply, reply_with, Action, ActionView, Event, EventView, OtherCommand, Stage};

verus! {

/// The commands that an interaction can name.
#[derive(PartialEq, Eq, Structural, Clone, Copy, Debug)]
pub enum CommandKind {
    Ping,
    WonderfulCommand,
    Deafen,
    Join,
    Leave,
    Play,
    Undeafen,
    Mute,
    Unmute,
    Check,
    /// Any other name.
    Unknown,
}

/// The command that an interaction names.
pub open spec fn kind_of(name: Seq<char>) -> CommandKind {
    if name == "ping"@ {
        CommandKind::Ping
    } else if name == wonderful_command::NAME@ {
        CommandKind::WonderfulCommand
    } else if name == deafen::NAME@ {
        CommandKind::Deafen
    } else if name == "join"@ {
        CommandKind::Join
    } else if name == leave::NAME@ {
        CommandKind::Leave
    } else if name == play::NAME@ {
        CommandKind::Play
    } else if name == undeafen::NAME@ {
        CommandKind::Undeafen
    } else if name == mute::NAME@ {
        CommandKind::Mute
    } else if name == unmute::NAME@ {
        CommandKind::Unmute
    } else if name == check::NAME@ {
        CommandKind::Check
    } else {
        CommandKind::Unknown
    }
}

/// Routes an interaction's command name to its command.
pub fn parse_command(name: &str) -> (kind: CommandKind)
    ensures
        kind == kind_of(name@),
{
    if same_text(name, "ping") {
        CommandKind::Ping
    } else if same_text(name, wonderful_command::NAME) {
        CommandKind::WonderfulCommand
    } else if same_text(name, deafen::NAME) {
        CommandKind::Deafen
    } else if same_text(name, "join") {
        CommandKind::Join
    } else if same_text(name, leave::NAME) {
        CommandKind::Leave
    } else if same_text(name, play::NAME) {
        CommandKind::Play
    } else if same_text(name, undeafen::NAME) {
        CommandKind::Undeafen
    } else if same_text(name, mute::NAME) {
        CommandKind::Mute
    } else if same_text(name, unmute::NAME) {
        CommandKind::Unmute
    } else if same_text(name, check::NAME) {
        CommandKind::Check
    } else {
        CommandKind::Unknown
    }
}

/// The commands that panic when invoked outside a guild.
pub open spec fn needs_guild(kind: CommandKind) -> bool {
    match kind {
        CommandKind::Deafen | CommandKind::Leave | CommandKind::Play | CommandKind::Undeafen
        | CommandKind::Mute | CommandKind::Unmute => true,
        _ => false,
    }
}

impl CommandKind {
    /// Whether the command needs to be invoked from a guild.
    pub fn guild_bound(self) -> (bound: bool)
        ensures
            bound == needs_guild(self),
    {
        match self {
            CommandKind::Deafen | CommandKind::Leave | CommandKind::Play | CommandKind::Undeafen
            | CommandKind::Mute | CommandKind::Unmute => true,
            _ => false,
        }
    }
}

/// A command whose run ends at once with a fixed reply.
pub open spec fn immediate(content: Seq<char>, stage: Stage) -> (Stage, ActionView) {
    match stage {
        Stage::Ready => reply(content),
        _ => (stage, ActionView::FindCall),
    }
}

/// A command that another component runs and whose answer becomes the reply.
pub open spec fn delegated(command: OtherCommand, stage: Stage, event: EventView) -> (Stage, ActionView) {
    match (stage, event) {
        (Stage::Ready, _) => (Stage::AwaitingAnswer, ActionView::Run { command }),
        (Stage::AwaitingAnswer, EventView::Answered { reply }) => crate::voice::reply(reply),
        _ => (stage, ActionView::FindCall),
    }
}

/// One step of the named command, given the `link` option (used by `play` only).
pub open spec fn spec_step(kind: CommandKind, link: Seq<char>, stage: Stage, event: EventView) -> (Stage, ActionView) {
    match kind {
        CommandKind::Ping => delegated(OtherCommand::Ping, stage, event),
        CommandKind::WonderfulCommand => immediate("This is a wonderful command!"@, stage),
        CommandKind::Deafen => deafen::spec_run(stage, event),
        CommandKind::Join => delegated(OtherCommand::Join, stage, event),
        CommandKind::Leave => leave::spec_run(stage, event),
        CommandKind::Play => play::spec_run(link, stage, event),
        CommandKind::Undeafen => undeafen::spec_run(stage, event),
        CommandKind::Mute => mute::spec_run(stage, event),
        CommandKind::Unmute => unmute::spec_run(stage, event),
        CommandKind::Check => immediate("Hey, I'm alive!"@, stage),
        CommandKind::Unknown => immediate("not implemented :("@, stage),
    }
}

/// The events that a command of the given kind takes in the given stage.
pub open spec fn takes(kind: CommandKind, stage: Stage, event: EventView) -> bool {
    &&& accepts(stage, event)
    &&& needs_guild(kind) ==> !outside_guild(event)
}

/// The stages a run of the given command can stand in.
pub open spec fn reachable(kind: CommandKind, stage: Stage) -> bool {
    match kind {
        CommandKind::Ping | CommandKind::Join => stage is Ready || stage is AwaitingAnswer || stage is Finished,
        CommandKind::WonderfulCommand | CommandKind::Check | CommandKind::Unknown => stage is Ready
            || stage is Finished,
        CommandKind::Deafen => deafen::own_stage(stage),
        CommandKind::Mute => mute::own_stage(stage),
        CommandKind::Leave => leave::own_stage(stage),
        CommandKind::Undeafen => undeafen::own_stage(stage),
        CommandKind::Unmute => unmute::own_stage(stage),
        CommandKind::Play => play::own_stage(stage),
    }
}

/// One run of a command for one interaction.
pub struct Session {
    kind: CommandKind,
    link: String,
    stage: Stage,
}

impl Session {
    /// A run only ever stands in a stage of its own command.
    #[verifier::type_invariant]
    spec fn well_formed(self) -> bool {
        reachable(self.kind, self.stage)
    }

    /// The command being run.
    pub closed spec fn kind_spec(&self) -> CommandKind {
        self.kind
    }

    /// The `link` option the command was given.
    pub closed spec fn link_spec(&self) -> Seq<char> {
        self.link@
    }

    /// Where the run stands.
    pub closed spec fn stage_spec(&self) -> Stage {
        self.stage
    }

    /// A run of `kind` that has not begun; `link` is the value of the
    /// `link` option, which only `play` reads.
    pub fn new(kind: CommandKind, link: &str) -> (session: Session)
        ensures
            session.kind_spec() == kind,
            session.link_spec() == link@,
            session.stage_spec() == Stage::Ready,
    {
        Session { kind, link: String::from_str(link), stage: Stage::Ready }
    }

    /// The command being run.
    pub fn kind(&self) -> (kind: CommandKind)
        ensures
            kind == self.kind_spec(),
    {
        self.kind
    }

    /// Where the run stands.
    pub fn stage(&self) -> (stage: Stage)
        ensures
            stage == self.stage_spec(),
            reachable(self.kind_spec(), stage),
    {
        proof {
            use_type_invariant(self);
        }
        self.stage
    }

    /// Whether the run has replied.
    pub fn is_finished(&self) -> (finished: bool)
        ensures
            finished == (self.stage_spec() == Stage::Finished),
    {
        self.stage == Stage::Finished
    }

    /// Feeds the run one event and returns what it asks for next.
    pub fn step(&mut self, event: &Event) -> (action: Action)
        requires
            takes(old(self).kind_spec(), old(self).stage_spec(), event@),
        ensures
            final(self).kind_spec() == old(self).kind_spec(),
            final(self).link_spec() == old(self).link_spec(),
            reachable(final(self).kind_spec(), final(self).stage_spec()),
            (final(self).stage_spec(), action@) == spec_step(
                old(self).kind_spec(),
                old(self).link_spec(),
                old(self).stage_spec(),
                event@,
            ),
    {
        proof {
            use_type_invariant(&*self);
        }
        let (stage, action) = match self.kind {
            CommandKind::Ping => run_delegated(OtherCommand::Ping, self.stage, event),
            CommandKind::WonderfulCommand => {
                let no_options: Vec<ResolvedOption> = Vec::new();
                (Stage::Finished, Action::Reply { content: wonderful_command::run(no_options.as_slice()) })
            },
            CommandKind::Deafen => deafen::run(self.stage, event),
            CommandKind::Join => run_delegated(OtherCommand::Join, self.stage, event),
            CommandKind::Leave => leave::run(self.stage, event),
            CommandKind::Play => play::run(self.link.as_str(), self.stage, event),
            CommandKind::Undeafen => undeafen::run(self.stage, event),
            CommandKind::Mute => mute::run(self.stage, event),
            CommandKind::Unmute => unmute::run(self.stage, event),
            CommandKind::Check => (Stage::Finished, Action::Reply { content: check::run() }),
            CommandKind::Unknown => reply_with("not implemented :("),
        };
        self.stage = stage;
        action
    }
}

/// One step of a command that another component runs.
fn run_delegated(command: OtherCommand, stage: Stage, event: &Event) -> (next: (Stage, Action))
    requires
        accepts(stage, event@),
    ensures
        (next.0, next.1@) == delegated(command, stage, event@),
{
    match (stage, event) {
        (Stage::Ready, _) => (Stage::AwaitingAnswer, Action::Run { command }),
        (Stage::AwaitingAnswer, Event::Answered { reply }) => (Stage::Finished, Action::Reply { content: reply.clone() }),
        _ => (stage, Action::FindCall),
    }
}

} // verus!
