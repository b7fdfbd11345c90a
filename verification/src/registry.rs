use crate::effect::{push_silence, push_teardown, silence, teardown, Effect};
use crate::error::CommandError;
use crate::session::{ChannelId, ConnectionHandle, GroupId, SessionState, VoiceSession};
use std::collections::HashMap;
use vstd::prelude::*;

verus! {

broadcast use vstd::std_specs::hash::group_hash_axioms;

/// Sessions are keyed by their own group, and each is well formed.
pub open spec fn sessions_wf(sessions: Map<GroupId, VoiceSession>) -> bool {
    forall|group_id: GroupId|
        sessions.contains_key(group_id) ==> (#[trigger] sessions[group_id]).group_id == group_id
            && sessions[group_id].wf()
}

/// The session of a group, if it has one.
pub open spec fn lookup(sessions: Map<GroupId, VoiceSession>, group_id: GroupId) -> Option<
    VoiceSession,
> {
    if sessions.contains_key(group_id) {
        Some(sessions[group_id])
    } else {
        None
    }
}

/// Where a group stands in the life of its session.
pub open spec fn state_of(sessions: Map<GroupId, VoiceSession>, group_id: GroupId) -> SessionState {
    match lookup(sessions, group_id) {
        None => SessionState::Disconnected,
        Some(session) => if session.playing() {
            SessionState::Playing
        } else {
            SessionState::Connected
        },
    }
}

/// The sessions after a group has been connected to a channel.
pub open spec fn connected(
    sessions: Map<GroupId, VoiceSession>,
    group_id: GroupId,
    channel_id: ChannelId,
) -> Map<GroupId, VoiceSession> {
    sessions.insert(group_id, VoiceSession::fresh(group_id, channel_id))
}

/// What connecting asks of the outside: the group's prior session, if any, is
/// taken down before the new connection is established.
pub open spec fn connect_effects(
    sessions: Map<GroupId, VoiceSession>,
    group_id: GroupId,
    channel_id: ChannelId,
) -> Seq<Effect> {
    disconnect_effects(sessions, group_id).push(
        Effect::Establish { connection: ConnectionHandle { group_id, channel_id } },
    )
}

/// The sessions after a group has been disconnected.
pub open spec fn disconnected(sessions: Map<GroupId, VoiceSession>, group_id: GroupId) -> Map<
    GroupId,
    VoiceSession,
> {
    sessions.remove(group_id)
}

/// What disconnecting asks of the outside: nothing when the group has no
/// session.
pub open spec fn disconnect_effects(
    sessions: Map<GroupId, VoiceSession>,
    group_id: GroupId,
) -> Seq<Effect> {
    match lookup(sessions, group_id) {
        Some(session) => teardown(session),
        None => Seq::empty(),
    }
}

/// True where the connection is the one that its group's session stands on.
pub open spec fn stands(sessions: Map<GroupId, VoiceSession>, connection: ConnectionHandle) -> bool {
    sessions.contains_key(connection.group_id) && sessions[connection.group_id].connection_handle
        == connection
}

/// The sessions after the outside has reported a connection lost: the session
/// that stood on it is gone. A report on a connection that no session stands
/// on, such as one that a later join has replaced, changes nothing.
pub open spec fn lost(sessions: Map<GroupId, VoiceSession>, connection: ConnectionHandle) -> Map<
    GroupId,
    VoiceSession,
> {
    if stands(sessions, connection) {
        sessions.remove(connection.group_id)
    } else {
        sessions
    }
}

/// What a lost connection asks of the outside: the playback of the session
/// that stood on it is stopped. The connection itself is gone already.
pub open spec fn loss_effects(
    sessions: Map<GroupId, VoiceSession>,
    connection: ConnectionHandle,
) -> Seq<Effect> {
    if stands(sessions, connection) {
        silence(sessions[connection.group_id])
    } else {
        Seq::empty()
    }
}

/// The result of connecting a group.
pub struct Connected {
    /// The session that now stands for the group.
    pub session: VoiceSession,
    /// The instructions to carry out, in order.
    pub effects: Vec<Effect>,
}

/// Owns the voice session of every group: at most one per group.
pub struct VoiceSessionRegistry {
    sessions: HashMap<GroupId, VoiceSession>,
}

impl View for VoiceSessionRegistry {
    type V = Map<GroupId, VoiceSession>;

    closed spec fn view(&self) -> Map<GroupId, VoiceSession> {
        self.sessions@
    }
}

impl VoiceSessionRegistry {
    /// The registry's invariant: every session is stored under its own group
    /// and is well formed.
    pub open spec fn wf(&self) -> bool {
        sessions_wf(self@)
    }

    /// A registry without sessions.
    pub fn new() -> (registry: VoiceSessionRegistry)
        ensures
            registry.wf(),
            registry@ == Map::<GroupId, VoiceSession>::empty(),
    {
        VoiceSessionRegistry { sessions: HashMap::new() }
    }

    /// Gives the group a new session bound to the channel, replacing the one
    /// it had.
    pub fn connect(&mut self, group_id: GroupId, channel_id: ChannelId) -> (out: Connected)
        requires
            old(self).wf(),
        ensures
            final(self).wf(),
            final(self)@ == connected(old(self)@, group_id, channel_id),
            out.session == VoiceSession::fresh(group_id, channel_id),
            out.effects@ == connect_effects(old(self)@, group_id, channel_id),
    {
        let session = VoiceSession::new(group_id, channel_id);
        let mut effects: Vec<Effect> = Vec::new();
        if let Some(prior) = self.sessions.insert(group_id, session) {
            push_teardown(&mut effects, &prior);
        }
        effects.push(Effect::Establish { connection: session.connection_handle });
        Connected { session, effects }
    }

    /// Looks the group's session up.
    pub fn get(&self, group_id: GroupId) -> (found: Option<VoiceSession>)
        ensures
            found == lookup(self@, group_id),
    {
        match self.sessions.get(&group_id) {
            Some(session) => Some(*session),
            None => None,
        }
    }

    /// Tells where the group stands in the life of its session.
    pub fn state(&self, group_id: GroupId) -> (state: SessionState)
        ensures
            state == state_of(self@, group_id),
    {
        match self.get(group_id) {
            None => SessionState::Disconnected,
            Some(session) => if session.is_playing() {
                SessionState::Playing
            } else {
                SessionState::Connected
            },
        }
    }

    /// Removes the group's session and has it taken down. Succeeds, and
    /// changes nothing, when the group has none.
    pub fn disconnect(&mut self, group_id: GroupId) -> (out: Result<Vec<Effect>, CommandError>)
        requires
            old(self).wf(),
        ensures
            final(self).wf(),
            final(self)@ == disconnected(old(self)@, group_id),
            out matches Ok(effects) && effects@ == disconnect_effects(old(self)@, group_id),
            !old(self)@.contains_key(group_id) ==> final(self)@ == old(self)@ && out is Ok
                && out->Ok_0@.len() == 0,
    {
        let mut effects: Vec<Effect> = Vec::new();
        if let Some(prior) = self.sessions.remove(&group_id) {
            push_teardown(&mut effects, &prior);
        }
        assert(!old(self)@.contains_key(group_id) ==> self@ =~= old(self)@);
        Ok(effects)
    }

    /// Records that the outside has lost a connection, and removes the session
    /// that stood on it.
    pub fn connection_lost(&mut self, connection: ConnectionHandle) -> (effects: Vec<Effect>)
        requires
            old(self).wf(),
        ensures
            final(self).wf(),
            final(self)@ == lost(old(self)@, connection),
            effects@ == loss_effects(old(self)@, connection),
    {
        let mut effects: Vec<Effect> = Vec::new();
        if let Some(session) = self.get(connection.group_id) {
            if session.connection_handle == connection {
                push_silence(&mut effects, &session);
                self.sessions.remove(&connection.group_id);
            }
        }
        effects
    }

    /// True when no group has a session.
    pub fn is_empty(&self) -> (empty: bool)
        ensures
            empty == (self@ == Map::<GroupId, VoiceSession>::empty()),
    {
        let empty = self.sessions.is_empty();
        proof {
            if empty {
                assert(self@ =~= Map::<GroupId, VoiceSession>::empty());
            }
        }
        empty
    }

    /// The number of groups that have a session.
    pub fn len(&self) -> (count: usize)
        ensures
            count == self@.len(),
    {
        self.sessions.len()
    }

    /// Replaces the stored session of a group by an updated value of it.
    pub(crate) fn put(&mut self, session: VoiceSession)
        requires
            old(self).wf(),
            session.wf(),
            old(self)@.contains_key(session.group_id),
        ensures
            final(self).wf(),
            final(self)@ == old(self)@.insert(session.group_id, session),
    {
        self.sessions.insert(session.group_id, session);
    }
}

} // verus!
