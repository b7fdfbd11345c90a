use crate::command::{kind_of, CommandKind, CommandRequest};
use crate::dispatcher::{handle_step, resolved_step, started_step, DirectiveView, Step};
use crate::effect::{silence, Effect};
use crate::error::{CommandError, Reply};
use crate::outside::{
    lemma_after_all_concat, lemma_after_all_push, lemma_attach_mirrored, lemma_cancel_mirrored,
    lemma_connect_mirrored, lemma_disconnect_mirrored, lemma_mirror_is_exclusive, Outside,
};
use crate::playback::{
    attach_effects, attached, cancel_effects, detached, handle_for, live, set_volume_effects,
    volume_set,
};
use crate::registry::{
    connected, disconnect_effects, disconnected, lookup, loss_effects, lost, sessions_wf, stands,
    state_of,
};
use crate::resolver::{resolution, PipelineFault};
use crate::session::{
    AudioStream, ChannelId, ConnectionHandle, GroupId, PlaybackHandle, SessionState, UserId,
    VoiceSession, UNIT_VOLUME_BITS,
};
use vstd::prelude::*;

verus! {

/// After a group has been connected to a channel, looking the group up gives
/// a session, and that session is bound to the channel.
pub proof fn law_connect_then_get(
    sessions: Map<GroupId, VoiceSession>,
    group_id: GroupId,
    channel_id: ChannelId,
)
    ensures
        lookup(connected(sessions, group_id, channel_id), group_id) matches Some(session)
            && session.group_id == group_id && session.channel_id == channel_id,
        sessions_wf(sessions) ==> sessions_wf(connected(sessions, group_id, channel_id)),
{
}

/// Connecting a group leaves the sessions of all other groups as they were.
pub proof fn law_connect_is_local(
    sessions: Map<GroupId, VoiceSession>,
    group_id: GroupId,
    channel_id: ChannelId,
    other: GroupId,
)
    requires
        other != group_id,
    ensures
        lookup(connected(sessions, group_id, channel_id), other) == lookup(sessions, other),
{
}

/// Disconnecting a group that has no session changes no session and asks
/// nothing of the outside; so disconnecting twice is the same as
/// disconnecting once.
pub proof fn law_disconnect_is_idempotent(sessions: Map<GroupId, VoiceSession>, group_id: GroupId)
    ensures
        !sessions.contains_key(group_id) ==> disconnected(sessions, group_id) == sessions
            && disconnect_effects(sessions, group_id) == Seq::<Effect>::empty(),
        disconnected(disconnected(sessions, group_id), group_id) == disconnected(
            sessions,
            group_id,
        ),
        disconnect_effects(disconnected(sessions, group_id), group_id) == Seq::<Effect>::empty(),
        lookup(disconnected(sessions, group_id), group_id) == None::<VoiceSession>,
{
    assert(!sessions.contains_key(group_id) ==> sessions.remove(group_id) =~= sessions);
    assert(sessions.remove(group_id).remove(group_id) =~= sessions.remove(group_id));
}

/// The life of a group's session: a join connects the group, an attach makes
/// a connected group play, the end of its live playback, cancelled or run
/// out, leaves it connected, and a disconnect ends in the state that
/// everything started in. Nothing plays in a group that is not connected.
pub proof fn law_session_life(
    sessions: Map<GroupId, VoiceSession>,
    group_id: GroupId,
    channel_id: ChannelId,
    stream: AudioStream,
    volume_bits: u32,
    playback: PlaybackHandle,
)
    ensures
        state_of(Map::empty(), group_id) == SessionState::Disconnected,
        state_of(connected(sessions, group_id, channel_id), group_id) == SessionState::Connected,
        state_of(sessions, group_id) != SessionState::Disconnected ==> state_of(
            attached(sessions, group_id, stream, volume_bits),
            group_id,
        ) == SessionState::Playing,
        live(sessions, playback) ==> state_of(sessions, playback.group_id)
            == SessionState::Playing && state_of(
            detached(sessions, playback),
            playback.group_id,
        ) == SessionState::Connected,
        !live(sessions, playback) ==> detached(sessions, playback) == sessions,
        state_of(disconnected(sessions, group_id), group_id) == SessionState::Disconnected,
{
}

/// A play for a group that has no session never asks for the decode pipeline
/// and changes no session. Where its option is a resolved attachment, the
/// reply is that of `NoActiveSession`.
pub proof fn law_play_without_session(
    sessions: Map<GroupId, VoiceSession>,
    command: CommandRequest,
    presence: Map<UserId, ChannelId>,
)
    requires
        kind_of(command.name@) == CommandKind::Play,
        command.group_id matches Some(group_id) ==> !sessions.contains_key(group_id),
    ensures
        handle_step(sessions, command, presence).sessions == sessions,
        handle_step(sessions, command, presence).directive matches DirectiveView::Reply {
            effects,
            reply,
        } && effects == Seq::<Effect>::empty() && reply is Failed,
        command.group_id is Some && command.carries_attachment() ==> handle_step(sessions, command, presence).directive == (DirectiveView::Reply {
            effects: Seq::empty(),
            reply: Reply::Failed(CommandError::NoActiveSession),
        }),
{
}

/// A command ends in exactly one reply: its first step replies or asks for
/// the decode pipeline, the step after the pipeline replies or asks for the
/// start to be confirmed, and the step after the start replies.
pub proof fn law_one_reply_per_command(
    sessions: Map<GroupId, VoiceSession>,
    command: CommandRequest,
    presence: Map<UserId, ChannelId>,
    group_id: GroupId,
    outcome: Result<AudioStream, PipelineFault>,
    playback: PlaybackHandle,
    took_hold: bool,
)
    ensures
        !(handle_step(sessions, command, presence).directive is Confirm),
        handle_step(sessions, command, presence).directive is Resolve ==> kind_of(command.name@)
            == CommandKind::Play,
        !(resolved_step(sessions, group_id, outcome).directive is Resolve),
        started_step(sessions, playback, took_hold).directive is Reply,
{
}

/// Every step of the dispatcher keeps the sessions well formed and the
/// outside in step with them, and at every point of carrying its
/// instructions out no group has two connections or two playbacks.
pub proof fn law_steps_keep_outside_in_step(
    outside: Outside,
    sessions: Map<GroupId, VoiceSession>,
    command: CommandRequest,
    presence: Map<UserId, ChannelId>,
    group_id: GroupId,
    outcome: Result<AudioStream, PipelineFault>,
    playback: PlaybackHandle,
    took_hold: bool,
)
    requires
        sessions_wf(sessions),
        outside.mirrors(sessions),
    ensures
        step_in_step(outside, handle_step(sessions, command, presence)),
        step_in_step(outside, resolved_step(sessions, group_id, outcome)),
        step_in_step(outside, started_step(sessions, playback, took_hold)),
{
    lemma_mirror_is_exclusive(outside, sessions);
    match command.group_id {
        Some(target) => {
            lemma_disconnect_mirrored(outside, sessions, target);
            if presence.contains_key(command.invoking_user_id) {
                lemma_connect_mirrored(
                    outside,
                    sessions,
                    target,
                    presence[command.invoking_user_id],
                );
            }
        },
        None => {},
    }
    match resolution(outcome) {
        Ok(stream) => {
            if sessions.contains_key(group_id) {
                lemma_attach_mirrored(outside, sessions, group_id, stream, UNIT_VOLUME_BITS);
            } else {
                let release = Effect::Release { stream };
                let none = Seq::<Effect>::empty();
                assert(seq![release] =~= none.push(release));
                lemma_after_all_push(outside, none, release);
            }
        },
        Err(error) => {},
    }
    lemma_cancel_mirrored(outside, sessions, playback);
}

/// A step leaves well-formed sessions, and its instructions take an outside
/// to one that mirrors them, exclusive at every point.
pub open spec fn step_in_step(outside: Outside, step: Step) -> bool {
    &&& sessions_wf(step.sessions)
    &&& outside.exclusive_throughout(step.directive.effects())
    &&& outside.after_all(step.directive.effects()).mirrors(step.sessions)
}

/// Once a playback that was attached to a silent session is cancelled, or its
/// group disconnected, the playbacks outside, each of which holds one decode
/// pipeline, are those from before the attach, and as many. Where the
/// session was playing, the playback that the attach replaced is gone too.
pub proof fn law_cancel_restores_baseline(
    outside: Outside,
    sessions: Map<GroupId, VoiceSession>,
    group_id: GroupId,
    stream: AudioStream,
    volume_bits: u32,
)
    requires
        sessions_wf(sessions),
        sessions.contains_key(group_id),
        outside.mirrors(sessions),
    ensures
        ({
            let playing = attached(sessions, group_id, stream, volume_bits);
            let attach = attach_effects(sessions, group_id, stream, volume_bits);
            let cancel = cancel_effects(playing, handle_for(group_id, stream));
            let leave = disconnect_effects(playing, group_id);
            let baseline = match sessions[group_id].current_playback {
                Some(replaced) => outside.playbacks.remove(replaced),
                None => outside.playbacks,
            };
            &&& cancel == seq![Effect::Stop { playback: handle_for(group_id, stream) }]
            &&& outside.after_all(attach + cancel).playbacks == baseline
            &&& outside.after_all(attach + leave).playbacks == baseline
            &&& outside.after_all(attach + cancel).playbacks.len() == baseline.len()
            &&& outside.after_all(attach + leave).playbacks.len() == baseline.len()
            &&& !live(detached(playing, handle_for(group_id, stream)), handle_for(group_id, stream))
        }),
{
    let playback = handle_for(group_id, stream);
    let playing = attached(sessions, group_id, stream, volume_bits);
    let attach = attach_effects(sessions, group_id, stream, volume_bits);
    let cancel = cancel_effects(playing, playback);
    let leave = disconnect_effects(playing, group_id);
    let baseline = match sessions[group_id].current_playback {
        Some(replaced) => outside.playbacks.remove(replaced),
        None => outside.playbacks,
    };
    lemma_attach_mirrored(outside, sessions, group_id, stream, volume_bits);
    let heard = outside.after_all(attach);
    lemma_cancel_mirrored(heard, playing, playback);
    lemma_disconnect_mirrored(heard, playing, group_id);
    lemma_after_all_concat(outside, attach, cancel);
    lemma_after_all_concat(outside, attach, leave);
    assert(outside.after_all(attach + cancel).playbacks =~= baseline);
    assert(outside.after_all(attach + leave).playbacks =~= baseline);
}

/// Two plays on one group, one right after the other, leave exactly one
/// playback in that group, the second; and at every point of carrying their
/// instructions out the group has at most one.
pub proof fn law_second_play_replaces_first(
    outside: Outside,
    sessions: Map<GroupId, VoiceSession>,
    group_id: GroupId,
    first: AudioStream,
    second: AudioStream,
)
    requires
        sessions_wf(sessions),
        sessions.contains_key(group_id),
        outside.mirrors(sessions),
    ensures
        ({
            let one = resolved_step(sessions, group_id, Ok(first));
            let two = resolved_step(one.sessions, group_id, Ok(second));
            let all = one.directive.effects() + two.directive.effects();
            &&& outside.exclusive_throughout(all)
            &&& outside.after_all(all).mirrors(two.sessions)
            &&& lookup(two.sessions, group_id) matches Some(session) && session.current_playback
                == Some(handle_for(group_id, second))
            &&& forall|playback: PlaybackHandle|
                playback.group_id == group_id ==> (#[trigger] outside.after_all(
                    all,
                ).playbacks.contains(playback) <==> playback == handle_for(group_id, second))
        }),
{
    let one = resolved_step(sessions, group_id, Ok(first));
    let two = resolved_step(one.sessions, group_id, Ok(second));
    lemma_attach_mirrored(outside, sessions, group_id, first, UNIT_VOLUME_BITS);
    let heard = outside.after_all(one.directive.effects());
    lemma_attach_mirrored(heard, one.sessions, group_id, second, UNIT_VOLUME_BITS);
    lemma_after_all_concat(outside, one.directive.effects(), two.directive.effects());
}

/// When a playback ends by itself, the registry that records it is in step
/// with the outside that lost it.
pub proof fn law_finished_playback_keeps_in_step(
    outside: Outside,
    sessions: Map<GroupId, VoiceSession>,
    playback: PlaybackHandle,
)
    requires
        sessions_wf(sessions),
        outside.mirrors(sessions),
    ensures
        (Outside { playbacks: outside.playbacks.remove(playback), ..outside }).mirrors(
            detached(sessions, playback),
        ),
{
}

/// When a connection is lost, the instructions of the registry that records
/// it bring the outside that lost it in step again.
pub proof fn law_lost_connection_keeps_in_step(
    outside: Outside,
    sessions: Map<GroupId, VoiceSession>,
    connection: ConnectionHandle,
)
    requires
        sessions_wf(sessions),
        outside.mirrors(sessions),
    ensures
        ({
            let dropped = Outside {
                connections: outside.connections.remove(connection),
                ..outside
            };
            &&& dropped.exclusive_throughout(loss_effects(sessions, connection))
            &&& dropped.after_all(loss_effects(sessions, connection)).mirrors(
                lost(sessions, connection),
            )
        }),
{
    let dropped = Outside { connections: outside.connections.remove(connection), ..outside };
    lemma_mirror_is_exclusive(outside, sessions);
    if stands(sessions, connection) {
        let group_id = connection.group_id;
        let session = sessions[group_id];
        match session.current_playback {
            Some(playback) => {
                let none = Seq::<Effect>::empty();
                let stop = Effect::Stop { playback };
                assert(silence(session) =~= none.push(stop));
                lemma_after_all_push(dropped, none, stop);
                assert(dropped.after(stop).mirrors(sessions.remove(group_id)));
                lemma_mirror_is_exclusive(dropped.after(stop), sessions.remove(group_id));
            },
            None => {
                assert(dropped.mirrors(sessions.remove(group_id)));
            },
        }
    } else {
        assert(dropped.connections =~= outside.connections);
    }
}

/// Setting a volume keeps the outside in step with the registry.
pub proof fn law_set_volume_keeps_in_step(
    outside: Outside,
    sessions: Map<GroupId, VoiceSession>,
    playback: PlaybackHandle,
    volume_bits: u32,
)
    requires
        sessions_wf(sessions),
        outside.mirrors(sessions),
    ensures
        outside.exclusive_throughout(set_volume_effects(sessions, playback, volume_bits)),
        outside.after_all(set_volume_effects(sessions, playback, volume_bits)).mirrors(
            volume_set(sessions, playback, volume_bits),
        ),
{
    lemma_mirror_is_exclusive(outside, sessions);
    if live(sessions, playback) {
        let adjust = Effect::SetVolume { playback, volume_bits };
        let none = Seq::<Effect>::empty();
        assert(set_volume_effects(sessions, playback, volume_bits) =~= none.push(adjust));
        lemma_after_all_push(outside, none, adjust);
        assert(outside.mirrors(volume_set(sessions, playback, volume_bits)));
    }
}

} // verus!
