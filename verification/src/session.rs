use vstd::prelude::*;

verus! {

/// Identifier of a group, the unit that voice sessions are scoped to.
pub type GroupId = u64;

/// Identifier of a voice channel inside a group.
pub type ChannelId = u64;

/// Identifier of a user of the platform.
pub type UserId = u64;

/// The volume scalar `1.0`, as the bit pattern of a single-precision float.
///
/// Volume scalars are carried as bit patterns and never interpreted here.
pub const UNIT_VOLUME_BITS: u32 = 0x3F80_0000;

/// An opaque handle to one decode pipeline that yields audio frames on demand.
///
/// The token names the pipeline to whoever runs it; a stream is consumed by at
/// most one playback and cannot be restarted.
#[derive(Clone, Copy, Debug, PartialEq, Eq, Structural)]
pub struct AudioStream {
    pub token: u64,
}

/// Names the voice connection between the bot participant and one channel of
/// a group.
#[derive(Clone, Copy, Debug, PartialEq, Eq, Structural)]
pub struct ConnectionHandle {
    pub group_id: GroupId,
    pub channel_id: ChannelId,
}

/// Identifies one attachment of an audio stream to the output of a group's
/// voice session.
#[derive(Clone, Copy, Debug, PartialEq, Eq, Structural)]
pub struct PlaybackHandle {
    pub group_id: GroupId,
    pub stream: AudioStream,
}

/// The voice session of one group.
#[derive(Clone, Copy, Debug, PartialEq, Eq, Structural)]
pub struct VoiceSession {
    pub group_id: GroupId,
    pub channel_id: ChannelId,
    pub connection_handle: ConnectionHandle,
    pub current_playback: Option<PlaybackHandle>,
    pub volume_bits: u32,
}

/// Where a group stands in the life of its voice session. A group starts
/// and ends disconnected.
#[derive(Clone, Copy, Debug, PartialEq, Eq, Structural)]
pub enum SessionState {
    /// The group has no session.
    Disconnected,
    /// The group has a session that plays nothing.
    Connected,
    /// The group has a session with a live playback.
    Playing,
}

impl VoiceSession {
    /// A session is well formed when its handles name its own group and
    /// channel.
    pub open spec fn wf(self) -> bool {
        &&& self.connection_handle == (ConnectionHandle {
            group_id: self.group_id,
            channel_id: self.channel_id,
        })
        &&& (self.current_playback matches Some(playback) ==> playback.group_id
            == self.group_id)
    }

    /// The session that a join creates: connected, silent, at unit volume.
    pub open spec fn fresh(group_id: GroupId, channel_id: ChannelId) -> VoiceSession {
        VoiceSession {
            group_id,
            channel_id,
            connection_handle: ConnectionHandle { group_id, channel_id },
            current_playback: None,
            volume_bits: UNIT_VOLUME_BITS,
        }
    }

    /// Builds the session that a join creates.
    pub fn new(group_id: GroupId, channel_id: ChannelId) -> (session: VoiceSession)
        ensures
            session == VoiceSession::fresh(group_id, channel_id),
            session.wf(),
    {
        VoiceSession {
            group_id,
            channel_id,
            connection_handle: ConnectionHandle { group_id, channel_id },
            current_playback: None,
            volume_bits: UNIT_VOLUME_BITS,
        }
    }

    /// True while a playback is attached to the session.
    pub open spec fn playing(self) -> bool {
        self.current_playback is Some
    }

    pub fn is_playing(&self) -> (playing: bool)
        ensures
            playing == self.playing(),
    {
        self.current_playback.is_some()
    }
}

} // verus!
