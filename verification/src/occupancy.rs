//! Keeping a lone listener company: from each change of membership in a
//! voice channel, decide whether the agent joins, leaves or stays.
//!
//! Nothing is counted along the way. Every decision starts from a fresh
//! observation of who is where, so a missed or repeated event cannot make
//! the agent drift.

use vstd::prelude::*;

verus! {

/// One change of membership, as the platform reports it.
#[derive(Clone, Copy, Debug, PartialEq, Eq)]
pub struct MembershipEvent {
    /// The guild that the new state names.
    pub new_guild: Option<u64>,
    /// The guild that the old state names.
    pub old_guild: Option<u64>,
    /// The channel that the member was in before.
    pub old_channel: Option<u64>,
    /// The channel that the member is in now.
    pub new_channel: Option<u64>,
    /// Whether the member who moved is automated.
    pub actor_is_bot: bool,
}

impl MembershipEvent {
    /// The guild that the event belongs to: the one of the new state, else
    /// the one of the old state.
    pub open spec fn guild(self) -> Option<u64> {
        match self.new_guild {
            Some(guild) => Some(guild),
            None => self.old_guild,
        }
    }

    /// The event that two voice states of a member tell of: the state
    /// before, of which the guild and the channel are given, and the state
    /// now. A member of whom it is not known whether it is automated is
    /// taken for a human.
    pub fn observed(
        old_guild: Option<u64>,
        old_channel: Option<u64>,
        new_guild: Option<u64>,
        new_channel: Option<u64>,
        actor_bot: Option<bool>,
    ) -> (event: MembershipEvent)
        ensures
            event == (MembershipEvent {
                new_guild,
                old_guild,
                old_channel,
                new_channel,
                actor_is_bot: actor_bot == Some(true),
            }),
    {
        let actor_is_bot = match actor_bot {
            Some(bot) => bot,
            None => false,
        };
        MembershipEvent { new_guild, old_guild, old_channel, new_channel, actor_is_bot }
    }

    /// The guild that the event belongs to.
    pub fn resolve_guild(&self) -> (guild: Option<u64>)
        ensures
            guild == self.guild(),
    {
        match self.new_guild {
            Some(guild) => Some(guild),
            None => self.old_guild,
        }
    }
}

/// One member of the guild who is in some voice channel.
#[derive(Clone, Copy, Debug, PartialEq, Eq)]
pub struct VoiceOccupant {
    pub channel: Option<u64>,
    /// Whether the member is automated, where that is known.
    pub known_bot: Option<bool>,
}

impl VoiceOccupant {
    /// An occupant of `channel` who counts: one not known to be automated.
    pub open spec fn is_human_in(self, channel: u64) -> bool {
        self.channel == Some(channel) && self.known_bot != Some(true)
    }
}

/// How many of `roster` are humans in `channel`.
pub open spec fn humans_among(roster: Seq<VoiceOccupant>, channel: u64) -> nat
    decreases roster.len(),
{
    if roster.len() == 0 {
        0
    } else {
        humans_among(roster.drop_last(), channel) + if roster.last().is_human_in(channel) {
            1nat
        } else {
            0nat
        }
    }
}

/// What is seen of a guild at the moment of a decision.
#[derive(Debug, PartialEq, Eq)]
pub struct VoiceSnapshot {
    /// The channel that the voice driver says the agent is connected to.
    pub agent_channel: Option<u64>,
    /// Who is in which voice channel; `None` where the guild is not known.
    pub roster: Option<Vec<VoiceOccupant>>,
}

/// The mathematical content of a [`VoiceSnapshot`].
pub struct SnapshotView {
    pub agent_channel: Option<u64>,
    pub roster: Option<Seq<VoiceOccupant>>,
}

impl View for VoiceSnapshot {
    type V = SnapshotView;

    open spec fn view(&self) -> SnapshotView {
        SnapshotView {
            agent_channel: self.agent_channel,
            roster: match self.roster {
                Some(roster) => Some(roster@),
                None => None,
            },
        }
    }
}

impl SnapshotView {
    /// The humans in `channel`: none where the guild is not known.
    pub open spec fn humans(self, channel: u64) -> nat {
        match self.roster {
            Some(roster) => humans_among(roster, channel),
            None => 0,
        }
    }

    /// The agent is in `channel`, and its one listener is gone or no longer
    /// alone.
    pub open spec fn leave_is_due(self, channel: u64) -> bool {
        self.agent_channel == Some(channel) && (self.humans(channel) == 0 || self.humans(channel)
            >= 2)
    }

    /// The agent is in `channel`, and its listener has company.
    pub open spec fn is_crowded(self, channel: u64) -> bool {
        self.agent_channel == Some(channel) && self.humans(channel) >= 2
    }

    /// The agent is connected nowhere, and `channel` holds exactly one human.
    pub open spec fn join_is_due(self, channel: u64) -> bool {
        self.agent_channel is None && self.humans(channel) == 1
    }
}

/// What the agent does about an event.
#[derive(Clone, Copy, Debug, PartialEq, Eq)]
pub enum VoiceAction {
    Stay,
    Leave { guild: u64 },
    Join { guild: u64, channel: u64 },
}

/// What is decided about the channel that the member left, if anything.
pub open spec fn departure_decision(guild: u64, channel: u64, seen: SnapshotView) -> Option<
    VoiceAction,
> {
    if seen.leave_is_due(channel) {
        Some(VoiceAction::Leave { guild })
    } else if seen.join_is_due(channel) {
        Some(VoiceAction::Join { guild, channel })
    } else {
        None
    }
}

/// What is decided about the channel that the member arrived in.
pub open spec fn arrival_decision(guild: u64, channel: u64, seen: SnapshotView) -> VoiceAction {
    if seen.is_crowded(channel) {
        VoiceAction::Leave { guild }
    } else if seen.join_is_due(channel) {
        VoiceAction::Join { guild, channel }
    } else {
        VoiceAction::Stay
    }
}

/// The action that an event calls for.
///
/// An event that an automated member caused, or that names no guild, calls
/// for none. Otherwise the channel that was left is looked at first, and a
/// decision about it stands; only where there is none, the channel that was
/// entered is looked at.
pub open spec fn decision(event: MembershipEvent, seen: SnapshotView) -> VoiceAction {
    if event.actor_is_bot {
        VoiceAction::Stay
    } else {
        match event.guild() {
            None => VoiceAction::Stay,
            Some(guild) => {
                let departure = match event.old_channel {
                    Some(channel) => departure_decision(guild, channel, seen),
                    None => None,
                };
                match (departure, event.new_channel) {
                    (Some(action), _) => action,
                    (None, Some(channel)) => arrival_decision(guild, channel, seen),
                    (None, None) => VoiceAction::Stay,
                }
            },
        }
    }
}

/// Counts the humans of `roster` who are in `channel`. A member counts
/// unless known to be automated; where the guild is not known, nobody
/// counts.
pub fn count_users_in_channel(roster: &Option<Vec<VoiceOccupant>>, channel: u64) -> (count: usize)
    ensures
        count == match roster {
            Some(members) => humans_among(members@, channel),
            None => 0,
        },
{
    let members = match roster {
        Some(members) => members,
        None => {
            return 0;
        },
    };
    let mut count: usize = 0;
    for n in 0..members.len()
        invariant
            count <= n,
            count == humans_among(members@.take(n as int), channel),
    {
        assert(members@.take(n + 1).drop_last() == members@.take(n as int));
        let occupant = &members[n];
        let here = match occupant.channel {
            Some(id) => id == channel,
            None => false,
        };
        let automated = match occupant.known_bot {
            Some(bot) => bot,
            None => false,
        };
        if here && !automated {
            count += 1;
        }
    }
    assert(members@.take(members.len() as int) == members@);
    count
}

/// Whether the agent should leave `channel`: it is connected there, and the
/// humans in the channel are none, or two and more.
pub fn should_leave(seen: &VoiceSnapshot, channel: u64) -> (due: bool)
    ensures
        due == seen@.leave_is_due(channel),
{
    match seen.agent_channel {
        Some(current) => {
            if current == channel {
                let humans = count_users_in_channel(&seen.roster, channel);
                humans == 0 || humans >= 2
            } else {
                false
            }
        },
        None => false,
    }
}

/// Whether the agent should join `channel`: it is connected nowhere, and the
/// channel holds exactly one human.
pub fn should_join(seen: &VoiceSnapshot, channel: u64) -> (due: bool)
    ensures
        due == seen@.join_is_due(channel),
{
    match seen.agent_channel {
        Some(_) => false,
        None => count_users_in_channel(&seen.roster, channel) == 1,
    }
}

/// Whether the agent is in `channel` with two humans or more.
fn is_crowded(seen: &VoiceSnapshot, channel: u64) -> (crowded: bool)
    ensures
        crowded == seen@.is_crowded(channel),
{
    match seen.agent_channel {
        Some(current) => current == channel && count_users_in_channel(&seen.roster, channel) >= 2,
        None => false,
    }
}

/// What one guild's state machine knows between events.
#[derive(Clone, Copy, Debug, PartialEq, Eq)]
pub struct GuildVoiceState {
    /// The agent's channel as last observed. It is a record of what the
    /// voice driver said, never a guess at what an action will bring.
    pub connected_channel: Option<u64>,
}

impl GuildVoiceState {
    /// The state of a guild of which nothing was seen yet.
    pub fn new() -> (state: GuildVoiceState)
        ensures
            state.connected_channel is None,
    {
        GuildVoiceState { connected_channel: None }
    }

    /// Decides what to do about `event`, given what is seen of the guild
    /// right now.
    ///
    /// The state takes over what the snapshot says of the agent's
    /// connection; the action is not assumed to succeed, so the state does
    /// not run ahead of it.
    pub fn on_membership_event(&mut self, event: &MembershipEvent, seen: &VoiceSnapshot) -> (action:
        VoiceAction)
        ensures
            action == decision(*event, seen@),
            event.actor_is_bot ==> action == VoiceAction::Stay,
            final(self).connected_channel == seen.agent_channel,
    {
        self.connected_channel = seen.agent_channel;
        if event.actor_is_bot {
            return VoiceAction::Stay;
        }
        let guild = match event.resolve_guild() {
            Some(guild) => guild,
            None => {
                return VoiceAction::Stay;
            },
        };
        if let Some(channel) = event.old_channel {
            if should_leave(seen, channel) {
                return VoiceAction::Leave { guild };
            }
            if should_join(seen, channel) {
                return VoiceAction::Join { guild, channel };
            }
        }
        if let Some(channel) = event.new_channel {
            if is_crowded(seen, channel) {
                return VoiceAction::Leave { guild };
            }
            if should_join(seen, channel) {
                return VoiceAction::Join { guild, channel };
            }
        }
        VoiceAction::Stay
    }
}

} // verus!
