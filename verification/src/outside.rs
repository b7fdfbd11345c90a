use crate::effect::{silence, teardown, Effect};
use crate::playback::{
    attach_effects, attached, cancel_effects, detached, handle_for, live,
};
use crate::registry::{
    connect_effects, connected, disconnect_effects, disconnected, sessions_wf,
};
use crate::session::{
    AudioStream, ChannelId, ConnectionHandle, GroupId, PlaybackHandle, VoiceSession,
};
use vstd::prelude::*;

verus! {

/// What the collaborators outside the core hold, as far as the instructions
/// given to them determine it: the voice connections that stand, and the
/// playbacks that consume a decode pipeline.
pub struct Outside {
    pub connections: Set<ConnectionHandle>,
    pub playbacks: Set<PlaybackHandle>,
}

impl Outside {
    /// The outside after one instruction has been carried out.
    pub open spec fn after(self, effect: Effect) -> Outside {
        match effect {
            Effect::Establish { connection } => Outside {
                connections: self.connections.insert(connection),
                ..self
            },
            Effect::Teardown { connection } => Outside {
                connections: self.connections.remove(connection),
                ..self
            },
            Effect::Start { playback, volume_bits } => Outside {
                playbacks: self.playbacks.insert(playback),
                ..self
            },
            Effect::SetVolume { playback, volume_bits } => self,
            Effect::Stop { playback } => Outside {
                playbacks: self.playbacks.remove(playback),
                ..self
            },
            Effect::Release { stream } => self,
        }
    }

    /// The outside after a sequence of instructions has been carried out in
    /// order.
    pub open spec fn after_all(self, effects: Seq<Effect>) -> Outside
        decreases effects.len(),
    {
        if effects.len() == 0 {
            self
        } else {
            self.after_all(effects.drop_last()).after(effects.last())
        }
    }

    /// No group has two connections, and none has two playbacks.
    pub open spec fn exclusive(self) -> bool {
        &&& forall|a: ConnectionHandle, b: ConnectionHandle|
            #![trigger self.connections.contains(a), self.connections.contains(b)]
            self.connections.contains(a) && self.connections.contains(b) && a.group_id
                == b.group_id ==> a == b
        &&& forall|a: PlaybackHandle, b: PlaybackHandle|
            #![trigger self.playbacks.contains(a), self.playbacks.contains(b)]
            self.playbacks.contains(a) && self.playbacks.contains(b) && a.group_id == b.group_id
                ==> a == b
    }

    /// The outside is exclusive at every point of carrying the instructions
    /// out: before the first, between any two, and after the last.
    pub open spec fn exclusive_throughout(self, effects: Seq<Effect>) -> bool
        decreases effects.len(),
    {
        if effects.len() == 0 {
            self.exclusive()
        } else {
            self.exclusive_throughout(effects.drop_last()) && self.after_all(effects).exclusive()
        }
    }

    /// The outside holds exactly what the sessions say: the connection of
    /// each session and the playback of each session that plays.
    pub open spec fn mirrors(self, sessions: Map<GroupId, VoiceSession>) -> bool {
        &&& forall|connection: ConnectionHandle| #[trigger]
            self.connections.contains(connection) <==> sessions.contains_key(connection.group_id)
                && sessions[connection.group_id].connection_handle == connection
        &&& forall|playback: PlaybackHandle| #[trigger]
            self.playbacks.contains(playback) <==> live(sessions, playback)
    }
}

/// Carrying out one more instruction is one more step.
pub proof fn lemma_after_all_push(outside: Outside, effects: Seq<Effect>, effect: Effect)
    ensures
        outside.after_all(effects.push(effect)) == outside.after_all(effects).after(effect),
        outside.exclusive_throughout(effects.push(effect)) == (outside.exclusive_throughout(effects)
            && outside.after_all(effects).after(effect).exclusive()),
{
    assert(effects.push(effect).drop_last() =~= effects);
}

/// Carrying out two sequences one after the other is carrying out their
/// concatenation.
pub proof fn lemma_after_all_concat(outside: Outside, first: Seq<Effect>, second: Seq<Effect>)
    ensures
        outside.after_all(first + second) == outside.after_all(first).after_all(second),
        outside.exclusive_throughout(first + second) == (outside.exclusive_throughout(first)
            && outside.after_all(first).exclusive_throughout(second)),
    decreases second.len(),
{
    if second.len() == 0 {
        assert(first + second =~= first);
        if outside.exclusive_throughout(first) {
            lemma_throughout_ends_exclusive(outside, first);
        }
    } else {
        assert((first + second).drop_last() =~= first + second.drop_last());
        lemma_after_all_concat(outside, first, second.drop_last());
    }
}

/// An outside that is exclusive throughout a sequence is so at its start and
/// at its end.
pub proof fn lemma_throughout_ends_exclusive(outside: Outside, effects: Seq<Effect>)
    requires
        outside.exclusive_throughout(effects),
    ensures
        outside.exclusive(),
        outside.after_all(effects).exclusive(),
    decreases effects.len(),
{
    if effects.len() > 0 {
        lemma_throughout_ends_exclusive(outside, effects.drop_last());
    }
}

/// An outside that mirrors well-formed sessions is exclusive: a group has one
/// session, a session one connection and at most one playback.
pub proof fn lemma_mirror_is_exclusive(outside: Outside, sessions: Map<GroupId, VoiceSession>)
    requires
        outside.mirrors(sessions),
    ensures
        outside.exclusive(),
{
}

/// Stopping what a session plays keeps the outside in step with the session
/// gone silent.
pub proof fn lemma_silence_mirrored(
    outside: Outside,
    sessions: Map<GroupId, VoiceSession>,
    group_id: GroupId,
)
    requires
        sessions_wf(sessions),
        sessions.contains_key(group_id),
        outside.mirrors(sessions),
    ensures
        outside.exclusive_throughout(silence(sessions[group_id])),
        outside.after_all(silence(sessions[group_id])).mirrors(
            sessions.insert(
                group_id,
                VoiceSession { current_playback: None, ..sessions[group_id] },
            ),
        ),
{
    let session = sessions[group_id];
    let silent = sessions.insert(group_id, VoiceSession { current_playback: None, ..session });
    lemma_mirror_is_exclusive(outside, sessions);
    match session.current_playback {
        Some(playback) => {
            let none = Seq::<Effect>::empty();
            assert(silence(session) =~= none.push(Effect::Stop { playback }));
            lemma_after_all_push(outside, none, Effect::Stop { playback });
            let stopped = outside.after(Effect::Stop { playback });
            assert(stopped.mirrors(silent));
            lemma_mirror_is_exclusive(stopped, silent);
        },
        None => {
            assert(silent =~= sessions);
        },
    }
}

/// Taking a session down keeps the outside in step with the sessions without
/// it.
pub proof fn lemma_teardown_mirrored(
    outside: Outside,
    sessions: Map<GroupId, VoiceSession>,
    group_id: GroupId,
)
    requires
        sessions_wf(sessions),
        sessions.contains_key(group_id),
        outside.mirrors(sessions),
    ensures
        outside.exclusive_throughout(teardown(sessions[group_id])),
        outside.after_all(teardown(sessions[group_id])).mirrors(sessions.remove(group_id)),
{
    let session = sessions[group_id];
    let silent = sessions.insert(group_id, VoiceSession { current_playback: None, ..session });
    let drop = Effect::Teardown { connection: session.connection_handle };
    lemma_silence_mirrored(outside, sessions, group_id);
    lemma_after_all_push(outside, silence(session), drop);
    let gone = outside.after_all(silence(session)).after(drop);
    assert(gone.mirrors(sessions.remove(group_id)));
    lemma_mirror_is_exclusive(gone, sessions.remove(group_id));
}

/// Disconnecting a group keeps the outside in step with the registry, and
/// exclusive at every point.
pub proof fn lemma_disconnect_mirrored(
    outside: Outside,
    sessions: Map<GroupId, VoiceSession>,
    group_id: GroupId,
)
    requires
        sessions_wf(sessions),
        outside.mirrors(sessions),
    ensures
        outside.exclusive_throughout(disconnect_effects(sessions, group_id)),
        outside.after_all(disconnect_effects(sessions, group_id)).mirrors(
            disconnected(sessions, group_id),
        ),
{
    if sessions.contains_key(group_id) {
        lemma_teardown_mirrored(outside, sessions, group_id);
    } else {
        lemma_mirror_is_exclusive(outside, sessions);
        assert(sessions.remove(group_id) =~= sessions);
    }
}

/// Connecting a group keeps the outside in step with the registry, and
/// exclusive at every point: the prior connection is gone before the new one
/// stands.
pub proof fn lemma_connect_mirrored(
    outside: Outside,
    sessions: Map<GroupId, VoiceSession>,
    group_id: GroupId,
    channel_id: ChannelId,
)
    requires
        sessions_wf(sessions),
        outside.mirrors(sessions),
    ensures
        outside.exclusive_throughout(connect_effects(sessions, group_id, channel_id)),
        outside.after_all(connect_effects(sessions, group_id, channel_id)).mirrors(
            connected(sessions, group_id, channel_id),
        ),
{
    let leave = disconnect_effects(sessions, group_id);
    let establish = Effect::Establish { connection: ConnectionHandle { group_id, channel_id } };
    lemma_disconnect_mirrored(outside, sessions, group_id);
    lemma_after_all_push(outside, leave, establish);
    let joined = outside.after_all(leave).after(establish);
    assert(joined.mirrors(connected(sessions, group_id, channel_id)));
    lemma_mirror_is_exclusive(joined, connected(sessions, group_id, channel_id));
}

/// Attaching a stream keeps the outside in step with the registry, and
/// exclusive at every point: the prior playback is stopped before the new one
/// starts.
pub proof fn lemma_attach_mirrored(
    outside: Outside,
    sessions: Map<GroupId, VoiceSession>,
    group_id: GroupId,
    stream: AudioStream,
    volume_bits: u32,
)
    requires
        sessions_wf(sessions),
        sessions.contains_key(group_id),
        outside.mirrors(sessions),
    ensures
        outside.exclusive_throughout(attach_effects(sessions, group_id, stream, volume_bits)),
        outside.after_all(attach_effects(sessions, group_id, stream, volume_bits)).mirrors(
            attached(sessions, group_id, stream, volume_bits),
        ),
{
    let session = sessions[group_id];
    let start = Effect::Start { playback: handle_for(group_id, stream), volume_bits };
    lemma_silence_mirrored(outside, sessions, group_id);
    lemma_after_all_push(outside, silence(session), start);
    let playing = outside.after_all(silence(session)).after(start);
    assert(playing.mirrors(attached(sessions, group_id, stream, volume_bits)));
    lemma_mirror_is_exclusive(playing, attached(sessions, group_id, stream, volume_bits));
}

/// Cancelling a playback keeps the outside in step with the registry.
pub proof fn lemma_cancel_mirrored(
    outside: Outside,
    sessions: Map<GroupId, VoiceSession>,
    playback: PlaybackHandle,
)
    requires
        sessions_wf(sessions),
        outside.mirrors(sessions),
    ensures
        outside.exclusive_throughout(cancel_effects(sessions, playback)),
        outside.after_all(cancel_effects(sessions, playback)).mirrors(
            detached(sessions, playback),
        ),
{
    lemma_mirror_is_exclusive(outside, sessions);
    if live(sessions, playback) {
        lemma_silence_mirrored(outside, sessions, playback.group_id);
        assert(cancel_effects(sessions, playback) =~= silence(sessions[playback.group_id]));
    }
}

} // verus!
