//! What holds of the occupancy decisions over whole runs of events.

use vstd::prelude::*;
use crate::occupancy::{decision, MembershipEvent, SnapshotView, VoiceAction, VoiceOccupant};

verus! {

/// The agent's connection once `action` has been carried out.
pub open spec fn connection_after(agent: Option<u64>, action: VoiceAction) -> Option<u64> {
    match action {
        VoiceAction::Stay => agent,
        VoiceAction::Leave { .. } => None,
        VoiceAction::Join { channel, .. } => Some(channel),
    }
}

/// An event of a guild, with who was in which channel when it was decided.
pub struct Observed {
    pub event: MembershipEvent,
    pub roster: Option<Seq<VoiceOccupant>>,
}

impl Observed {
    /// What is seen when the event is decided while the agent is in `agent`.
    pub open spec fn seen_with(self, agent: Option<u64>) -> SnapshotView {
        SnapshotView { agent_channel: agent, roster: self.roster }
    }
}

/// The agent's connection after the first `n` events of `trace`, where it
/// starts unconnected and every action is carried out before the next event
/// is decided.
pub open spec fn connection_at(trace: Seq<Observed>, n: nat) -> Option<u64>
    decreases n,
{
    if n == 0 {
        None
    } else {
        let before = connection_at(trace, (n - 1) as nat);
        connection_after(before, decision(trace[n - 1].event, trace[n - 1].seen_with(before)))
    }
}

/// The action taken on event `m` of `trace`.
pub open spec fn action_at(trace: Seq<Observed>, m: int) -> VoiceAction {
    decision(trace[m].event, trace[m].seen_with(connection_at(trace, m as nat)))
}

/// Event `m` is the last of the first `n` events on which the agent acted.
pub open spec fn is_last_acted_on(trace: Seq<Observed>, n: nat, m: int) -> bool {
    &&& 0 <= m < n
    &&& action_at(trace, m) != VoiceAction::Stay
    &&& forall|k: int| m < k < n ==> #[trigger] action_at(trace, k) == VoiceAction::Stay
}

/// The event finds the agent unconnected and leaves exactly one human in
/// `channel`: in the channel that was left, or else in the channel that was
/// entered. Where both hold a lone human, it is the one that was left.
pub open spec fn leaves_lone_human(event: MembershipEvent, seen: SnapshotView, channel: u64) -> bool {
    &&& event.guild() is Some
    &&& seen.agent_channel is None
    &&& seen.humans(channel) == 1
    &&& {
        ||| event.old_channel == Some(channel)
        ||| (event.new_channel == Some(channel) && !(event.old_channel matches Some(left)
            && seen.humans(left) == 1))
    }
}

/// The agent joins a channel on an event of a human exactly if the event
/// finds it unconnected and leaves a lone human in that channel.
pub proof fn law_joins_exactly_a_lone_human(event: MembershipEvent, seen: SnapshotView, channel: u64)
    requires
        !event.actor_is_bot,
    ensures
        (decision(event, seen) matches VoiceAction::Join { channel: joined, .. } && joined
            == channel) <==> leaves_lone_human(event, seen, channel),
{
}

/// The event finds the agent in `channel` and ends the company it keeps
/// there: the channel that was left holds no human any more, or two and
/// more; or the channel that was entered holds two and more.
pub open spec fn ends_company(event: MembershipEvent, seen: SnapshotView, channel: u64) -> bool {
    &&& event.guild() is Some
    &&& seen.agent_channel == Some(channel)
    &&& {
        ||| (event.old_channel == Some(channel) && seen.humans(channel) != 1)
        ||| (event.new_channel == Some(channel) && seen.humans(channel) >= 2)
    }
}

/// The agent leaves on an event of a human exactly if the event finds it
/// in a channel and ends the company it keeps there.
pub proof fn law_leaves_exactly_when_company_ends(event: MembershipEvent, seen: SnapshotView)
    requires
        !event.actor_is_bot,
    ensures
        decision(event, seen) is Leave <==> (seen.agent_channel matches Some(channel)
            && ends_company(event, seen, channel)),
{
}

/// Event `m` is the last of the first `n` events on which the agent acted,
/// and it found the agent unconnected and left a lone human in `channel`.
pub open spec fn settled_on(trace: Seq<Observed>, n: nat, m: int, channel: u64) -> bool {
    &&& is_last_acted_on(trace, n, m)
    &&& leaves_lone_human(
        trace[m].event,
        trace[m].seen_with(connection_at(trace, m as nat)),
        channel,
    )
}

/// Over any run of events that humans caused, the agent is connected to a
/// channel exactly if the last event on which it acted found it unconnected
/// and left a lone human in that channel.
pub proof fn law_connected_iff_last_action_met_lone_human(
    trace: Seq<Observed>,
    n: nat,
    channel: u64,
)
    requires
        n <= trace.len(),
        forall|i: int| 0 <= i < n ==> !(#[trigger] trace[i]).event.actor_is_bot,
    ensures
        connection_at(trace, n) == Some(channel) <==> exists|m: int|
            settled_on(trace, n, m, channel),
    decreases n,
{
    if n == 0 {
        assert forall|m: int| !settled_on(trace, n, m, channel) by {}
    } else {
        let last = (n - 1) as int;
        let before = connection_at(trace, last as nat);
        let action = action_at(trace, last);
        assert(connection_at(trace, n) == connection_after(before, action));
        law_connected_iff_last_action_met_lone_human(trace, last as nat, channel);
        law_joins_exactly_a_lone_human(trace[last].event, trace[last].seen_with(before), channel);
        if action == VoiceAction::Stay {
            // Whatever was acted on last before this event still is.
            assert forall|m: int|
                #![trigger settled_on(trace, n, m, channel)]
                #![trigger settled_on(trace, last as nat, m, channel)]
                settled_on(trace, n, m, channel) <==> settled_on(
                    trace,
                    last as nat,
                    m,
                    channel,
                ) by {
                if settled_on(trace, n, m, channel) {
                    assert(m != last);
                }
            }
        } else {
            // This event was acted on, so it is the last one that was.
            assert(is_last_acted_on(trace, n, last));
            if connection_at(trace, n) == Some(channel) {
                assert(settled_on(trace, n, last, channel));
            }
            assert forall|m: int| settled_on(trace, n, m, channel) implies m == last by {
                if m < last {
                    assert(action_at(trace, last) == VoiceAction::Stay);
                }
            }
        }
    }
}

/// The agent leaves a channel on this event, and the same event leaves a
/// lone human in a channel that it names: a listener moved on and the agent
/// is to follow.
pub open spec fn calls_to_follow(event: MembershipEvent, seen: SnapshotView) -> bool {
    &&& decision(event, seen) is Leave
    &&& {
        ||| (event.old_channel matches Some(left) && seen.humans(left) == 1)
        ||| (event.new_channel matches Some(entered) && seen.humans(entered) == 1)
    }
}

/// An event that is delivered twice in a row leads to one action at most:
/// once the first action is carried out, the second delivery finds nothing
/// to do. The one exception is an event that calls the agent to follow a
/// listener: there the first delivery makes it leave, and the second makes
/// it join.
pub proof fn law_repeated_event_acts_once(event: MembershipEvent, seen: SnapshotView)
    requires
        !calls_to_follow(event, seen),
    ensures
        decision(event, seen) != VoiceAction::Stay ==> decision(
            event,
            SnapshotView {
                agent_channel: connection_after(seen.agent_channel, decision(event, seen)),
                roster: seen.roster,
            },
        ) == VoiceAction::Stay,
{
}

/// On an event that calls the agent to follow a listener, the second
/// delivery does act: the rule above leaves out these events and no others.
pub proof fn law_follow_takes_two_deliveries(event: MembershipEvent, seen: SnapshotView)
    requires
        calls_to_follow(event, seen),
    ensures
        decision(event, seen) is Leave,
        decision(event, SnapshotView { agent_channel: None, roster: seen.roster }) is Join,
{
}

/// An event that an automated member caused never makes the agent join or
/// leave, whatever is seen.
pub proof fn law_bot_events_are_ignored(event: MembershipEvent, seen: SnapshotView)
    requires
        event.actor_is_bot,
    ensures
        decision(event, seen) == VoiceAction::Stay,
{
}

} // verus!
