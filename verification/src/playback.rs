use crate::effect::{push_silence, silence, Effect};
use crate::error::CommandError;
use crate::registry::VoiceSessionRegistry;
use crate::session::{AudioStream, GroupId, PlaybackHandle, VoiceSession};
use vstd::prelude::*;

verus! {

/// The handle under which a stream plays in a group.
pub open spec fn handle_for(group_id: GroupId, stream: AudioStream) -> PlaybackHandle {
    PlaybackHandle { group_id, stream }
}

/// A playback is live while it is the current playback of its group's
/// session.
pub open spec fn live(sessions: Map<GroupId, VoiceSession>, playback: PlaybackHandle) -> bool {
    sessions.contains_key(playback.group_id) && sessions[playback.group_id].current_playback
        == Some(playback)
}

/// The sessions after a stream has been attached to the session of a group
/// that has one.
pub open spec fn attached(
    sessions: Map<GroupId, VoiceSession>,
    group_id: GroupId,
    stream: AudioStream,
    volume_bits: u32,
) -> Map<GroupId, VoiceSession> {
    sessions.insert(
        group_id,
        VoiceSession {
            current_playback: Some(handle_for(group_id, stream)),
            volume_bits,
            ..sessions[group_id]
        },
    )
}

/// What attaching asks of the outside: the playback that the session had is
/// stopped before the new one starts.
pub open spec fn attach_effects(
    sessions: Map<GroupId, VoiceSession>,
    group_id: GroupId,
    stream: AudioStream,
    volume_bits: u32,
) -> Seq<Effect> {
    silence(sessions[group_id]).push(
        Effect::Start { playback: handle_for(group_id, stream), volume_bits },
    )
}

/// The sessions after a playback has been cancelled, or has ended by itself:
/// its session, if the playback was live, plays nothing.
pub open spec fn detached(sessions: Map<GroupId, VoiceSession>, playback: PlaybackHandle) -> Map<
    GroupId,
    VoiceSession,
> {
    if live(sessions, playback) {
        sessions.insert(
            playback.group_id,
            VoiceSession { current_playback: None, ..sessions[playback.group_id] },
        )
    } else {
        sessions
    }
}

/// What cancelling asks of the outside: a live playback is stopped, one that
/// is no longer live needs nothing.
pub open spec fn cancel_effects(
    sessions: Map<GroupId, VoiceSession>,
    playback: PlaybackHandle,
) -> Seq<Effect> {
    if live(sessions, playback) {
        seq![Effect::Stop { playback }]
    } else {
        Seq::empty()
    }
}

/// The sessions after the volume of a playback has been set.
pub open spec fn volume_set(
    sessions: Map<GroupId, VoiceSession>,
    playback: PlaybackHandle,
    volume_bits: u32,
) -> Map<GroupId, VoiceSession> {
    if live(sessions, playback) {
        sessions.insert(
            playback.group_id,
            VoiceSession { volume_bits, ..sessions[playback.group_id] },
        )
    } else {
        sessions
    }
}

/// What setting the volume asks of the outside.
pub open spec fn set_volume_effects(
    sessions: Map<GroupId, VoiceSession>,
    playback: PlaybackHandle,
    volume_bits: u32,
) -> Seq<Effect> {
    if live(sessions, playback) {
        seq![Effect::SetVolume { playback, volume_bits }]
    } else {
        Seq::empty()
    }
}

/// The result of attaching a stream.
pub struct Attachment {
    /// The handle of the new playback.
    pub handle: PlaybackHandle,
    /// The instructions to carry out, in order.
    pub effects: Vec<Effect>,
}

/// Attaches frame streams to the output of sessions, and detaches them.
pub struct PlaybackController;

impl PlaybackController {
    /// Installs the stream as the output of the group's session, at the given
    /// volume, in place of whatever the session was playing.
    ///
    /// Fails with `NoActiveSession`, and changes nothing, exactly when the
    /// group has no session; the stream is then still the caller's to release.
    pub fn attach(
        registry: &mut VoiceSessionRegistry,
        group_id: GroupId,
        stream: AudioStream,
        volume_bits: u32,
    ) -> (out: Result<Attachment, CommandError>)
        requires
            old(registry).wf(),
        ensures
            final(registry).wf(),
            match out {
                Ok(attachment) => {
                    &&& old(registry)@.contains_key(group_id)
                    &&& final(registry)@ == attached(old(registry)@, group_id, stream, volume_bits)
                    &&& attachment.handle == handle_for(group_id, stream)
                    &&& attachment.effects@ == attach_effects(
                        old(registry)@,
                        group_id,
                        stream,
                        volume_bits,
                    )
                },
                Err(error) => {
                    &&& !old(registry)@.contains_key(group_id)
                    &&& final(registry)@ == old(registry)@
                    &&& error == CommandError::NoActiveSession
                },
            },
    {
        match registry.get(group_id) {
            None => Err(CommandError::NoActiveSession),
            Some(session) => {
                let handle = PlaybackHandle { group_id, stream };
                let mut effects: Vec<Effect> = Vec::new();
                push_silence(&mut effects, &session);
                effects.push(Effect::Start { playback: handle, volume_bits });
                registry.put(
                    VoiceSession { current_playback: Some(handle), volume_bits, ..session },
                );
                Ok(Attachment { handle, effects })
            },
        }
    }

    /// Adjusts the volume of a live playback. A handle that is no longer live
    /// changes nothing.
    pub fn set_volume(
        registry: &mut VoiceSessionRegistry,
        playback: PlaybackHandle,
        volume_bits: u32,
    ) -> (effects: Vec<Effect>)
        requires
            old(registry).wf(),
        ensures
            final(registry).wf(),
            final(registry)@ == volume_set(old(registry)@, playback, volume_bits),
            effects@ == set_volume_effects(old(registry)@, playback, volume_bits),
    {
        let mut effects: Vec<Effect> = Vec::new();
        if let Some(session) = registry.get(playback.group_id) {
            if session.current_playback == Some(playback) {
                effects.push(Effect::SetVolume { playback, volume_bits });
                registry.put(VoiceSession { volume_bits, ..session });
            }
        }
        effects
    }

    /// Stops a live playback and has its decode pipeline released. A handle
    /// that is no longer live changes nothing.
    pub fn cancel(registry: &mut VoiceSessionRegistry, playback: PlaybackHandle) -> (effects: Vec<
        Effect,
    >)
        requires
            old(registry).wf(),
        ensures
            final(registry).wf(),
            final(registry)@ == detached(old(registry)@, playback),
            effects@ == cancel_effects(old(registry)@, playback),
    {
        let mut effects: Vec<Effect> = Vec::new();
        if let Some(session) = registry.get(playback.group_id) {
            if session.current_playback == Some(playback) {
                effects.push(Effect::Stop { playback });
                registry.put(VoiceSession { current_playback: None, ..session });
            }
        }
        effects
    }

    /// Records that a playback has ended by itself, its stream exhausted. The
    /// outside has released the pipeline already, so nothing is asked of it.
    pub fn finished(registry: &mut VoiceSessionRegistry, playback: PlaybackHandle)
        requires
            old(registry).wf(),
        ensures
            final(registry).wf(),
            final(registry)@ == detached(old(registry)@, playback),
    {
        if let Some(session) = registry.get(playback.group_id) {
            if session.current_playback == Some(playback) {
                registry.put(VoiceSession { current_playback: None, ..session });
            }
        }
    }
}

} // verus!
