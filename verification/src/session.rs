//! Carrying out a decision: the commands that go to the voice driver, in
//! the order in which they go.

use vstd::prelude::*;

verus! {

/// One command to the voice driver.
#[derive(Clone, Copy, Debug, PartialEq, Eq)]
pub enum VoiceCommand {
    /// Drop whatever is queued for playback in the guild's session.
    StopQueue { guild: u64 },
    /// Connect to `channel`, and report whether that worked.
    Connect { guild: u64, channel: u64 },
    /// Play the audio resource in the guild's session, over and over.
    PlayLooping { guild: u64 },
    /// Tear the guild's session down.
    Disconnect { guild: u64 },
}

/// How far a join has come.
#[derive(Clone, Copy, Debug, PartialEq, Eq)]
pub enum JoinPhase {
    /// Nothing was asked of the driver yet.
    Start,
    /// The driver was told to connect and has not answered.
    Connecting,
    /// Nothing is left to do.
    Done,
}

/// What the driver reports while a join is under way.
#[derive(Clone, Copy, Debug, PartialEq, Eq)]
pub enum JoinEvent {
    /// The join begins; `session_exists` says whether the guild has a
    /// session already.
    Begin { session_exists: bool },
    /// The driver connected.
    Connected,
    /// The driver could not connect.
    Refused,
}

/// The next phase of a join and the commands to send, in order.
///
/// A join clears the queue of a session that is already there, then
/// connects. Once connected it clears the queue again and starts the
/// playback. A refusal ends the join with nothing more sent, and so does an
/// event that does not belong to the phase.
pub open spec fn join_step(phase: JoinPhase, event: JoinEvent, guild: u64, channel: u64) -> (
    JoinPhase,
    Seq<VoiceCommand>,
) {
    match (phase, event) {
        (JoinPhase::Start, JoinEvent::Begin { session_exists }) => (
            JoinPhase::Connecting,
            if session_exists {
                seq![VoiceCommand::StopQueue { guild }, VoiceCommand::Connect { guild, channel }]
            } else {
                seq![VoiceCommand::Connect { guild, channel }]
            },
        ),
        (JoinPhase::Connecting, JoinEvent::Connected) => (
            JoinPhase::Done,
            seq![VoiceCommand::StopQueue { guild }, VoiceCommand::PlayLooping { guild }],
        ),
        _ => (JoinPhase::Done, Seq::empty()),
    }
}

/// Takes a join one step further: from the phase it is in and what the
/// driver reported, to the next phase and the commands to send.
pub fn join_and_play(phase: JoinPhase, event: JoinEvent, guild: u64, channel: u64) -> (step: (
    JoinPhase,
    Vec<VoiceCommand>,
))
    ensures
        (step.0, step.1@) == join_step(phase, event, guild, channel),
{
    let mut commands: Vec<VoiceCommand> = Vec::new();
    let next = match (phase, event) {
        (JoinPhase::Start, JoinEvent::Begin { session_exists }) => {
            if session_exists {
                commands.push(VoiceCommand::StopQueue { guild });
            }
            commands.push(VoiceCommand::Connect { guild, channel });
            JoinPhase::Connecting
        },
        (JoinPhase::Connecting, JoinEvent::Connected) => {
            commands.push(VoiceCommand::StopQueue { guild });
            commands.push(VoiceCommand::PlayLooping { guild });
            JoinPhase::Done
        },
        _ => JoinPhase::Done,
    };
    assert(commands@ =~= join_step(phase, event, guild, channel).1);
    (next, commands)
}

/// The commands of a leave, in order: the queue of a session that is there
/// is cleared, and the session is torn down, whether one was seen or not.
pub open spec fn leave_commands(session_exists: bool, guild: u64) -> Seq<VoiceCommand> {
    if session_exists {
        seq![VoiceCommand::StopQueue { guild }, VoiceCommand::Disconnect { guild }]
    } else {
        seq![VoiceCommand::Disconnect { guild }]
    }
}

/// The commands that make the agent leave the guild's channel.
pub fn leave_channel(session_exists: bool, guild: u64) -> (commands: Vec<VoiceCommand>)
    ensures
        commands@ == leave_commands(session_exists, guild),
{
    let mut commands: Vec<VoiceCommand> = Vec::new();
    if session_exists {
        commands.push(VoiceCommand::StopQueue { guild });
    }
    commands.push(VoiceCommand::Disconnect { guild });
    assert(commands@ =~= leave_commands(session_exists, guild));
    commands
}

} // verus!
