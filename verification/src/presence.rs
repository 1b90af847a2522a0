use vstd::prelude::*;

verus! {

/// The bot is the only member of a voice channel.
pub open spec fn left_alone(is_voice: bool, members: Seq<u64>, bot: u64) -> bool {
    is_voice && members.len() == 1 && members[0] == bot
}

/// Whether the bot should leave a channel: it does when the channel is a
/// voice channel whose only member is the bot itself.
pub fn should_disconnect(is_voice: bool, members: &[u64], bot: u64) -> (leave: bool)
    ensures
        leave == left_alone(is_voice, members@, bot),
{
    is_voice && members.len() == 1 && members[0] == bot
}

/// The channels to look at after a member's voice state changed: the
/// channel they were in before, if any, then the one they are in now, if any.
pub open spec fn changed_channels(old: Option<Option<u64>>, new: Option<u64>) -> Seq<u64> {
    let before = match old {
        Some(Some(c)) => seq![c],
        _ => Seq::empty(),
    };
    let after = match new {
        Some(c) => seq![c],
        None => Seq::empty(),
    };
    before + after
}

/// The channels whose members to check after a voice state update; `old`
/// is the member's previous voice state's channel, if a previous state is known.
pub fn channels_to_check(old: Option<Option<u64>>, new: Option<u64>) -> (channels: Vec<u64>)
    ensures
        channels@ == changed_channels(old, new),
{
    let mut channels: Vec<u64> = Vec::new();
    if let Some(Some(c)) = old {
        channels.push(c);
    }
    if let Some(c) = new {
        channels.push(c);
    }
    assert(channels@ =~= changed_channels(old, new));
    channels
}

} // verus!
