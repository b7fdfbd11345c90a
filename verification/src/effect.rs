use crate::session::{AudioStream, ConnectionHandle, PlaybackHandle, VoiceSession};
use vstd::prelude::*;

verus! {

/// One instruction to the collaborators outside the core.
///
/// The core never performs outside work itself: every operation that changes a
/// session returns the instructions that bring the outside in line with the
/// new state, and they are to be carried out in the order given.
#[derive(Clone, Copy, Debug, PartialEq, Eq, Structural)]
pub enum Effect {
    /// Establish the voice connection.
    Establish { connection: ConnectionHandle },
    /// Leave the channel and drop the voice connection.
    Teardown { connection: ConnectionHandle },
    /// Install the playback's stream as the output of its group's connection,
    /// at the given volume.
    Start { playback: PlaybackHandle, volume_bits: u32 },
    /// Adjust the volume of a live playback.
    SetVolume { playback: PlaybackHandle, volume_bits: u32 },
    /// Stop consuming the playback's stream and release its decode pipeline.
    Stop { playback: PlaybackHandle },
    /// Release the decode pipeline of a stream that was never attached.
    Release { stream: AudioStream },
}

/// The instructions that stop a session's playback, if it has one.
pub open spec fn silence(session: VoiceSession) -> Seq<Effect> {
    match session.current_playback {
        Some(playback) => seq![Effect::Stop { playback }],
        None => Seq::empty(),
    }
}

/// The instructions that take a session down: its playback is stopped first,
/// then its connection is dropped.
pub open spec fn teardown(session: VoiceSession) -> Seq<Effect> {
    silence(session).push(Effect::Teardown { connection: session.connection_handle })
}

/// Appends to `effects` the instructions that stop the session's playback.
pub(crate) fn push_silence(effects: &mut Vec<Effect>, session: &VoiceSession)
    ensures
        final(effects)@ == old(effects)@ + silence(*session),
{
    if let Some(playback) = session.current_playback {
        effects.push(Effect::Stop { playback });
    }
}

/// Appends to `effects` the instructions that take the session down.
pub(crate) fn push_teardown(effects: &mut Vec<Effect>, session: &VoiceSession)
    ensures
        final(effects)@ == old(effects)@ + teardown(*session),
{
    push_silence(effects, session);
    effects.push(Effect::Teardown { connection: session.connection_handle });
}

} // verus!
