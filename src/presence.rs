//! Following the user through voice calls.
//!
//! The bridge casts while one user (the owner) is in a voice call. These are
//! the decisions taken on the chat platform's voice-state updates and cache
//! snapshots; ids are the platform's 64-bit snowflakes.
use vstd::prelude::*;

verus! {

/// Where a user's voice state puts them: the guild and the voice channel, if any.
#[derive(Clone, Copy, Debug, PartialEq, Eq, Structural)]
pub struct VoiceSnapshot {
    pub guild: Option<u64>,
    pub channel: Option<u64>,
}

/// What a voice-state update asks of the bridge.
#[derive(Clone, Copy, Debug, PartialEq, Eq, Structural)]
pub enum PresenceChange {
    /// Not the owner, or nothing that matters changed.
    Ignore,
    /// The owner joined a call: turn casting on.
    Enable,
    /// The owner left their call: go invisible, turn casting off, and leave
    /// the call in `guild`, when known.
    Disable { guild: Option<u64> },
    /// The owner moved from one channel to `new_channel` of `new_guild`;
    /// `old_guild` is where they were, when the update says.
    Moved { old_guild: Option<u64>, new_guild: u64, new_channel: u64 },
}

/// What to do about the bot's own call after the owner moved.
#[derive(Clone, Copy, Debug, PartialEq, Eq, Structural)]
pub enum MoveAction {
    /// The bot is in no call there: nothing to follow.
    Stay,
    /// The owner went to another guild: leave the call in `guild`.
    LeaveGuild { guild: u64 },
    /// The owner moved within the guild: join them in `channel`.
    JoinChannel { guild: u64, channel: u64 },
}

/// The change a voice-state update of `user` makes, where `owner` is the user
/// the bridge follows and `old` the user's previous state, if known.
pub open spec fn spec_presence_change(
    owner: u64,
    user: u64,
    old: Option<VoiceSnapshot>,
    new: VoiceSnapshot,
) -> PresenceChange {
    if user != owner {
        PresenceChange::Ignore
    } else {
        match old {
            None => PresenceChange::Enable,
            Some(prev) => match (prev.channel, new.channel) {
                (Some(_), None) => PresenceChange::Disable { guild: new.guild },
                (None, Some(_)) => PresenceChange::Enable,
                (Some(a), Some(b)) => if a != b && new.guild is Some {
                    PresenceChange::Moved {
                        old_guild: prev.guild,
                        new_guild: new.guild->0,
                        new_channel: b,
                    }
                } else {
                    PresenceChange::Ignore
                },
                (None, None) => PresenceChange::Ignore,
            },
        }
    }
}

/// The change one voice-state update makes.
pub fn presence_change(owner: u64, user: u64, old: Option<VoiceSnapshot>, new: VoiceSnapshot) -> (r:
    PresenceChange)
    ensures
        r == spec_presence_change(owner, user, old, new),
{
    if user != owner {
        return PresenceChange::Ignore;
    }
    match old {
        None => PresenceChange::Enable,
        Some(prev) => match (prev.channel, new.channel) {
            (Some(_), None) => PresenceChange::Disable { guild: new.guild },
            (None, Some(_)) => PresenceChange::Enable,
            (Some(a), Some(b)) => {
                match new.guild {
                    Some(g) => if a != b {
                        PresenceChange::Moved { old_guild: prev.guild, new_guild: g, new_channel: b }
                    } else {
                        PresenceChange::Ignore
                    },
                    None => PresenceChange::Ignore,
                }
            },
            (None, None) => PresenceChange::Ignore,
        },
    }
}

/// After the owner moved from `old_guild` to `new_channel` of `new_guild`:
/// when the bot is in a call of the old guild, it leaves that guild's call if
/// the owner changed guilds, else it joins the owner's new channel.
pub fn follow_move(old_guild: u64, new_guild: u64, new_channel: u64, bot_in_call: bool) -> (r:
    MoveAction)
    ensures
        !bot_in_call ==> r == MoveAction::Stay,
        bot_in_call && old_guild != new_guild ==> r == (MoveAction::LeaveGuild { guild: old_guild }),
        bot_in_call && old_guild == new_guild ==> r == (MoveAction::JoinChannel {
            guild: new_guild,
            channel: new_channel,
        }),
{
    if !bot_in_call {
        MoveAction::Stay
    } else if old_guild != new_guild {
        MoveAction::LeaveGuild { guild: old_guild }
    } else {
        MoveAction::JoinChannel { guild: new_guild, channel: new_channel }
    }
}

/// Whether the owner is in a call in any guild, given the owner's voice
/// channel in each guild (none where they are in no call).
pub fn owner_in_call(channels: &Vec<Option<u64>>) -> (r: bool)
    ensures
        r <==> exists|i: int| 0 <= i < channels@.len() && (#[trigger] channels@[i]) is Some,
{
    let mut i: usize = 0;
    while i < channels.len()
        invariant
            i <= channels@.len(),
            forall|j: int| 0 <= j < i ==> (#[trigger] channels@[j]) is None,
        decreases channels@.len() - i,
    {
        if channels[i].is_some() {
            return true;
        }
        i = i + 1;
    }
    false
}

/// The owner's call to join when playback starts: the first guild, in the
/// given order, where the owner is in a voice channel, with that channel.
/// Each entry is a guild and the owner's voice channel there, if any.
pub fn locate_owner(guilds: &Vec<(u64, Option<u64>)>) -> (r: Option<(u64, u64)>)
    ensures
        r is None <==> forall|i: int| 0 <= i < guilds@.len() ==> (#[trigger] guilds@[i]).1 is None,
        r matches Some((guild, channel)) ==> exists|i: int|
            0 <= i < guilds@.len() && (forall|j: int| 0 <= j < i ==> (#[trigger] guilds@[j]).1 is None)
                && guilds@[i] == (guild, Some(channel)),
{
    let mut i: usize = 0;
    while i < guilds.len()
        invariant
            i <= guilds@.len(),
            forall|j: int| 0 <= j < i ==> (#[trigger] guilds@[j]).1 is None,
        decreases guilds@.len() - i,
    {
        let (guild, channel) = guilds[i];
        match channel {
            Some(c) => {
                return Some((guild, c));
            },
            None => {},
        }
        i = i + 1;
    }
    None
}

} // verus!
