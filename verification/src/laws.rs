use vstd::prelude::*;
use crate::commands::{check, deafen, leave, linus_timer, mute, play, undeafen, unmute, wonderful_command};
use crate::guild_id::{all_digits, digit_value, digits_value, guild_id_of, is_digit};
use crate::command_spec::CommandSpecView;
use crate::registry::guild_registration_specs;
use crate::text::{decimal, digit_char};
use crate::presence::{changed_channels, left_alone};
use crate::command_spec::{plain_command, OptionKind, OptionSpecView};
use crate::session::{kind_of, reachable, spec_step, takes, CommandKind};
use crate::voice::{accepts, ActionView, EventView, Stage};

verus! {

/// How many more events a run in the given stage takes at most before it replies.
pub open spec fn events_left(stage: Stage) -> nat {
    match stage {
        Stage::Ready => 6,
        Stage::AwaitingPresence => 5,
        Stage::AwaitingJoin => 4,
        Stage::AwaitingCall => 3,
        Stage::AwaitingLocation => 3,
        Stage::Waiting => 4,
        Stage::AwaitingFlag => 2,
        Stage::AwaitingConnection { .. } => 2,
        Stage::AwaitingOutcome => 1,
        Stage::AwaitingAnswer => 1,
        Stage::AwaitingWatch { .. } => 1,
        Stage::AwaitingStart => 1,
        Stage::Finished => 0,
    }
}

/// Every run answers its interaction: each event that a run takes keeps it
/// among its command's stages and brings it strictly closer to its reply,
/// and it replies exactly when it finishes. So a run replies once, after at
/// most six events, and asks for nothing afterwards.
pub proof fn every_run_replies(kind: CommandKind, link: Seq<char>, stage: Stage, event: EventView)
    requires
        reachable(kind, stage),
        takes(kind, stage, event),
    ensures
        reachable(kind, spec_step(kind, link, stage, event).0),
        events_left(spec_step(kind, link, stage, event).0) < events_left(stage),
        (spec_step(kind, link, stage, event).1 is Reply) <==> (spec_step(kind, link, stage, event).0 == Stage::Finished),
        !takes(kind, Stage::Finished, event),
{
}

/// `linus_timer` waits for Linus instead of giving up: when he is in no
/// voice channel it starts a timer and looks for him again when it runs
/// out; when he is in one it goes to join it. Every other step brings the
/// run strictly closer to its reply, which it gives exactly when it finishes,
/// so once Linus is found the run replies within three more events.
pub proof fn linus_timer_waits_for_linus(stage: Stage, event: EventView)
    requires
        linus_timer::own_stage(stage),
        accepts(stage, event),
    ensures
        linus_timer::own_stage(linus_timer::spec_run(stage, event).0),
        event matches EventView::Located { channel: None }
            ==> linus_timer::spec_run(stage, event) == (Stage::Waiting, ActionView::Wait),
        stage is Waiting ==> linus_timer::spec_run(stage, event) == (
            Stage::AwaitingLocation,
            ActionView::LocateMember { user: linus_timer::LINUS },
        ),
        event matches EventView::Located { channel: Some(c) } ==> linus_timer::spec_run(stage, event) == (
            Stage::AwaitingConnection { channel: c },
            ActionView::JoinChannel { channel: c },
        ),
        stage !is Waiting && !(event matches EventView::Located { channel: None })
            ==> events_left(linus_timer::spec_run(stage, event).0) < events_left(stage),
        (linus_timer::spec_run(stage, event).1 is Reply) <==> (linus_timer::spec_run(stage, event).0 == Stage::Finished),
{
}

/// The requests that change the guild's call or what it plays.
pub open spec fn is_voice_operation(action: ActionView) -> bool {
    action is SetDeaf || action is SetMute || action is RemoveCall || action is Play
}

/// A run asks for a voice operation only right after it learned that the
/// guild has a call, or, for `deafen` and `mute`, that the call is not yet
/// deafened or muted: a missing call, and a call already in the wanted
/// state, are answered without touching anything.
pub proof fn operations_need_a_call(kind: CommandKind, link: Seq<char>, stage: Stage, event: EventView)
    requires
        reachable(kind, stage),
        takes(kind, stage, event),
        is_voice_operation(spec_step(kind, link, stage, event).1),
    ensures
        (event matches EventView::CallLookup { present } && present)
            || (event matches EventView::Flag { set } && !set),
{
}

/// Each command changes the call only in its own way: `deafen` only
/// deafens and `undeafen` only undeafens, `mute` only mutes and `unmute`
/// only unmutes, only `leave` leaves and only `play` plays.
pub proof fn operations_match_their_command(kind: CommandKind, link: Seq<char>, stage: Stage, event: EventView)
    requires
        reachable(kind, stage),
        takes(kind, stage, event),
    ensures
        spec_step(kind, link, stage, event).1 matches ActionView::SetDeaf { on }
            ==> (kind == CommandKind::Deafen && on) || (kind == CommandKind::Undeafen && !on),
        spec_step(kind, link, stage, event).1 matches ActionView::SetMute { on }
            ==> (kind == CommandKind::Mute && on) || (kind == CommandKind::Unmute && !on),
        spec_step(kind, link, stage, event).1 is RemoveCall ==> kind == CommandKind::Leave,
        spec_step(kind, link, stage, event).1 matches ActionView::Play { query }
            ==> kind == CommandKind::Play && query == play::query_of(link),
{
}

/// The commands registered in the configured guild, in the order of
/// `guild_registration_specs`.
pub open spec fn guild_command_kinds() -> Seq<CommandKind> {
    seq![
        CommandKind::Ping,
        CommandKind::Deafen,
        CommandKind::Join,
        CommandKind::Leave,
        CommandKind::Play,
        CommandKind::Undeafen,
        CommandKind::Mute,
        CommandKind::Unmute,
        CommandKind::Check,
    ]
}

/// Every command registered in the guild is routed to itself when invoked,
/// and so is the global `wonderful_command`, given that `ping` and `join`
/// are registered under their own names.
pub proof fn registered_commands_are_routed(ping: CommandSpecView, join: CommandSpecView)
    requires
        ping.name == "ping"@,
        join.name == "join"@,
    ensures
        guild_registration_specs(ping, join).len() == guild_command_kinds().len(),
        forall|i: int| 0 <= i < guild_registration_specs(ping, join).len()
            ==> kind_of(#[trigger] guild_registration_specs(ping, join)[i].name) == guild_command_kinds()[i],
        kind_of(wonderful_command::NAME@) == CommandKind::WonderfulCommand,
{
    broadcast use vstd::string::group_string_axioms;

    let names = seq!["ping"@, "join"@, "wonderful_command"@, "deafen"@, "leave"@, "play"@, "undeafen"@, "mute"@, "unmute"@, "check"@];
    reveal_strlit("ping");
    reveal_strlit("join");
    reveal_strlit("wonderful_command");
    reveal_strlit("deafen");
    reveal_strlit("leave");
    reveal_strlit("play");
    reveal_strlit("undeafen");
    reveal_strlit("mute");
    reveal_strlit("unmute");
    reveal_strlit("check");
    // Names of different lengths differ; names of one length differ in a character.
    assert("ping"@.len() == 4 && "join"@.len() == 4 && "play"@.len() == 4 && "mute"@.len() == 4);
    assert("leave"@.len() == 5 && "check"@.len() == 5);
    assert("deafen"@.len() == 6 && "unmute"@.len() == 6);
    assert("undeafen"@.len() == 8 && "wonderful_command"@.len() == 17);
    assert("ping"@[0] != "join"@[0] && "ping"@[0] != "mute"@[0] && "ping"@[1] != "play"@[1]);
    assert("join"@[0] != "play"@[0] && "join"@[0] != "mute"@[0] && "play"@[0] != "mute"@[0]);
    assert("leave"@[0] != "check"@[0] && "deafen"@[0] != "unmute"@[0]);
    assert forall|i: int, j: int| 0 <= i < j < names.len() implies names[i] != names[j] by {
        if names[i] == names[j] {
            assert(names[i].len() == names[j].len());
            assert(names[i][0] == names[j][0]);
            assert(names[i][1] == names[j][1]);
        }
    }
    assert(names[2] == wonderful_command::NAME@);
    assert(names[3] == deafen::NAME@);
    assert(names[4] == leave::NAME@);
    assert(names[5] == play::NAME@);
    assert(names[6] == undeafen::NAME@);
    assert(names[7] == mute::NAME@);
    assert(names[8] == unmute::NAME@);
    assert(names[9] == check::NAME@);
    let specs = guild_registration_specs(ping, join);
    assert forall|i: int| 0 <= i < specs.len() implies kind_of(#[trigger] specs[i].name) == guild_command_kinds()[i] by {
        if i == 0 {} else if i == 1 {} else if i == 2 {} else if i == 3 {} else if i == 4 {}
        else if i == 5 {} else if i == 6 {} else if i == 7 {} else {}
    }
}

/// The decimal rendering of a number is a non-empty run of digits that
/// denotes the number.
proof fn decimal_denotes(n: nat)
    ensures
        decimal(n).len() > 0,
        all_digits(decimal(n)),
        digits_value(decimal(n)) == n,
    decreases n,
{
    if n < 10 {
        assert(digit_value(digit_char(n)) == n);
        assert(decimal(n).drop_last() =~= Seq::<char>::empty());
        assert(digits_value(Seq::<char>::empty()) == 0);
        assert(decimal(n).last() == digit_char(n));
    } else {
        decimal_denotes(n / 10);
        let d = digit_char(n % 10);
        assert(digit_value(d) == n % 10);
        assert(decimal(n).drop_last() =~= decimal(n / 10));
        assert(decimal(n).last() == d);
        assert(n == (n / 10) * 10 + n % 10);
        assert(digits_value(decimal(n)) == digits_value(decimal(n / 10)) * 10 + digit_value(d));
        assert forall|i: int| 0 <= i < decimal(n).len() implies is_digit(#[trigger] decimal(n)[i]) by {
            if i < decimal(n / 10).len() {
                assert(decimal(n)[i] == decimal(n / 10)[i]);
            }
        }
    }
}

/// Every positive id written in decimal, as Discord shows ids, is accepted
/// as the configured guild id and denotes itself.
pub proof fn decimal_ids_are_accepted(id: u64)
    requires
        id > 0,
    ensures
        guild_id_of(decimal(id as nat)) == Ok::<u64, crate::guild_id::GuildIdError>(id),
{
    decimal_denotes(id as nat);
    assert(is_digit(decimal(id as nat)[0]));
}

/// `play` hands a link that starts with `http` to YouTube exactly as it
/// was given, character for character, and anything else as a search for
/// its first hit: `ytsearch1:` followed by the text.
pub proof fn links_are_played_as_given(link: Seq<char>)
    ensures
        link.len() >= 4 && link.subrange(0, 4) == seq!['h', 't', 't', 'p'] ==> play::query_of(link) == link,
        !(link.len() >= 4 && link.subrange(0, 4) == seq!['h', 't', 't', 'p'])
            ==> play::query_of(link) == seq!['y', 't', 's', 'e', 'a', 'r', 'c', 'h', '1', ':'] + link,
{
    reveal_strlit("http");
    reveal_strlit("ytsearch1:");
    assert("http"@ =~= seq!['h', 't', 't', 'p']);
    assert("ytsearch1:"@ =~= seq!['y', 't', 's', 'e', 'a', 'r', 'c', 'h', '1', ':']);
}

/// The bot leaves a channel only when it is a voice channel and the bot is
/// its one and only member; with anyone else there, it stays.
pub proof fn leaves_only_when_alone(is_voice: bool, members: Seq<u64>, bot: u64)
    ensures
        left_alone(is_voice, members, bot) <==> (is_voice && members =~= seq![bot]),
        members.len() != 1 ==> !left_alone(is_voice, members, bot),
        (exists|i: int| 0 <= i < members.len() && members[i] != bot) ==> !left_alone(is_voice, members, bot),
{
    if is_voice && members.len() == 1 && members[0] == bot {
        assert(members =~= seq![bot]);
    }
}

/// After a voice state update the bot looks at exactly the channel the
/// member left, if any, and the one they are in, if any, in that order.
pub proof fn checks_left_and_joined_channels(old: Option<Option<u64>>, new: Option<u64>)
    ensures
        forall|c: u64| changed_channels(old, new).contains(c) <==> (old == Some(Some(c)) || new == Some(c)),
        old matches Some(Some(o)) ==> changed_channels(old, new)[0] == o,
        changed_channels(old, new).len() == (if old matches Some(Some(_)) { 1int } else { 0 })
            + (if new is Some { 1int } else { 0 }),
{
    assert forall|c: u64| changed_channels(old, new).contains(c) <==> (old == Some(Some(c)) || new == Some(c)) by {
        let s = changed_channels(old, new);
        if old == Some(Some(c)) {
            assert(s[0] == c);
        }
        if new == Some(c) {
            assert(s[s.len() - 1] == c);
        }
    }
}

/// The commands that do not touch the voice manager answer on their first
/// event, from a guild or not: `wonderful_command` says "This is a
/// wonderful command!", `check` says "Hey, I'm alive!", and a name no
/// command has gets "not implemented :(".
pub proof fn fixed_replies_everywhere(link: Seq<char>, in_guild: bool)
    ensures
        spec_step(CommandKind::WonderfulCommand, link, Stage::Ready, EventView::Invoked { in_guild })
            == (Stage::Finished, ActionView::Reply { content: "This is a wonderful command!"@ }),
        spec_step(CommandKind::Check, link, Stage::Ready, EventView::Invoked { in_guild })
            == (Stage::Finished, ActionView::Reply { content: "Hey, I'm alive!"@ }),
        spec_step(CommandKind::Unknown, link, Stage::Ready, EventView::Invoked { in_guild })
            == (Stage::Finished, ActionView::Reply { content: "not implemented :("@ }),
        takes(CommandKind::WonderfulCommand, Stage::Ready, EventView::Invoked { in_guild }),
        takes(CommandKind::Check, Stage::Ready, EventView::Invoked { in_guild }),
        takes(CommandKind::Unknown, Stage::Ready, EventView::Invoked { in_guild }),
{
}

/// The commands registered in the guild are, in order, `ping`, then
/// deafen ("deafens the bot :)"), `join`, leave ("Leaves the current vc"),
/// play ("Plays a song with the provided link", with its required string
/// option `link`), undeafen ("Undeafens me"), mute ("Mutes me :X"), unmute
/// ("Unmutes me :)") and check; the global command is wonderful_command
/// ("An amazing command").
pub proof fn guild_registrations_are_the_commands_own(ping: CommandSpecView, join: CommandSpecView)
    ensures
        guild_registration_specs(ping, join) == seq![
            ping,
            plain_command("deafen"@, "deafens the bot :)"@),
            join,
            plain_command("leave"@, "Leaves the current vc"@),
            CommandSpecView {
                name: "play"@,
                description: "Plays a song with the provided link"@,
                options: seq![OptionSpecView {
                    kind: OptionKind::String,
                    name: "link"@,
                    description: "The link to the song you want to play or a query for yt"@,
                    required: true,
                }],
            },
            plain_command("undeafen"@, "Undeafens me"@),
            plain_command("mute"@, "Mutes me :X"@),
            plain_command("unmute"@, "Unmutes me :)"@),
            plain_command("check"@, " Checks that a message successfully sent; if not, then logs why to stdout."@),
        ],
        wonderful_command::registration_spec() == plain_command("wonderful_command"@, "An amazing command"@),
        linus_timer::registration_spec() == plain_command("linus_timer"@, "Starts a timer and waits for Linus"@),
{
}

} // verus!
