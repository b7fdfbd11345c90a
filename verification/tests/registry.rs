use voice_sessions::effect::Effect;
use voice_sessions::playback::PlaybackController;
use voice_sessions::registry::VoiceSessionRegistry;
use voice_sessions::session::{
    AudioStream, ConnectionHandle, PlaybackHandle, SessionState, VoiceSession, UNIT_VOLUME_BITS,
};

fn connection(group_id: u64, channel_id: u64) -> ConnectionHandle {
    ConnectionHandle { group_id, channel_id }
}

fn playback(group_id: u64, token: u64) -> PlaybackHandle {
    PlaybackHandle { group_id, stream: AudioStream { token } }
}

#[test]
fn new_registry_is_empty() {
    let registry = VoiceSessionRegistry::new();
    assert!(registry.is_empty());
    assert_eq!(registry.len(), 0);
    assert_eq!(registry.get(42), None);
}

#[test]
fn connect_then_get_gives_the_channel() {
    let mut registry = VoiceSessionRegistry::new();
    let out = registry.connect(42, 7);
    assert_eq!(out.effects, vec![Effect::Establish { connection: connection(42, 7) }]);
    assert_eq!(out.session, VoiceSession::new(42, 7));
    let session = registry.get(42).unwrap();
    assert_eq!(session.group_id, 42);
    assert_eq!(session.channel_id, 7);
    assert_eq!(session.connection_handle, connection(42, 7));
    assert_eq!(session.current_playback, None);
    assert!(!session.is_playing());
    assert_eq!(session.volume_bits, UNIT_VOLUME_BITS);
    assert_eq!(f32::from_bits(session.volume_bits), 1.0f32);
    assert_eq!(registry.len(), 1);
    assert!(!registry.is_empty());
}

#[test]
fn connect_holds_for_many_groups_and_channels() {
    let mut registry = VoiceSessionRegistry::new();
    for group_id in [0u64, 1, 42, u64::MAX] {
        for channel_id in [0u64, 7, u64::MAX] {
            registry.connect(group_id, channel_id);
            assert_eq!(registry.get(group_id).unwrap().channel_id, channel_id);
        }
    }
    assert_eq!(registry.len(), 4);
}

#[test]
fn connect_replaces_and_tears_the_prior_session_down_first() {
    let mut registry = VoiceSessionRegistry::new();
    registry.connect(42, 7);
    PlaybackController::attach(&mut registry, 42, AudioStream { token: 5 }, UNIT_VOLUME_BITS)
        .unwrap();
    let out = registry.connect(42, 8);
    assert_eq!(
        out.effects,
        vec![
            Effect::Stop { playback: playback(42, 5) },
            Effect::Teardown { connection: connection(42, 7) },
            Effect::Establish { connection: connection(42, 8) },
        ]
    );
    assert_eq!(registry.get(42), Some(VoiceSession::new(42, 8)));
    assert_eq!(registry.len(), 1);
}

#[test]
fn connect_leaves_other_groups_alone() {
    let mut registry = VoiceSessionRegistry::new();
    registry.connect(1, 10);
    registry.connect(2, 20);
    assert_eq!(registry.get(1), Some(VoiceSession::new(1, 10)));
    assert_eq!(registry.get(2), Some(VoiceSession::new(2, 20)));
}

#[test]
fn disconnect_without_session_succeeds_and_changes_nothing() {
    let mut registry = VoiceSessionRegistry::new();
    registry.connect(1, 10);
    let out = registry.disconnect(99);
    assert_eq!(out, Ok(vec![]));
    assert_eq!(registry.len(), 1);
    assert_eq!(registry.get(1), Some(VoiceSession::new(1, 10)));
    assert_eq!(registry.get(99), None);
}

#[test]
fn disconnect_removes_the_session_and_is_idempotent() {
    let mut registry = VoiceSessionRegistry::new();
    registry.connect(42, 7);
    assert_eq!(
        registry.disconnect(42),
        Ok(vec![Effect::Teardown { connection: connection(42, 7) }])
    );
    assert_eq!(registry.get(42), None);
    assert_eq!(registry.disconnect(42), Ok(vec![]));
    assert!(registry.is_empty());
}

#[test]
fn disconnect_stops_the_playback_before_the_teardown() {
    let mut registry = VoiceSessionRegistry::new();
    registry.connect(42, 7);
    PlaybackController::attach(&mut registry, 42, AudioStream { token: 9 }, UNIT_VOLUME_BITS)
        .unwrap();
    assert_eq!(
        registry.disconnect(42),
        Ok(vec![
            Effect::Stop { playback: playback(42, 9) },
            Effect::Teardown { connection: connection(42, 7) },
        ])
    );
}

#[test]
fn lost_connection_removes_its_session() {
    let mut registry = VoiceSessionRegistry::new();
    registry.connect(42, 7);
    PlaybackController::attach(&mut registry, 42, AudioStream { token: 9 }, UNIT_VOLUME_BITS)
        .unwrap();
    let effects = registry.connection_lost(connection(42, 7));
    assert_eq!(effects, vec![Effect::Stop { playback: playback(42, 9) }]);
    assert_eq!(registry.get(42), None);
}

#[test]
fn lost_connection_that_was_replaced_changes_nothing() {
    let mut registry = VoiceSessionRegistry::new();
    registry.connect(42, 7);
    registry.connect(42, 8);
    assert_eq!(registry.connection_lost(connection(42, 7)), vec![]);
    assert_eq!(registry.get(42), Some(VoiceSession::new(42, 8)));
    assert_eq!(registry.connection_lost(connection(99, 1)), vec![]);
}

#[test]
fn session_goes_through_its_states() {
    let mut registry = VoiceSessionRegistry::new();
    assert_eq!(registry.state(42), SessionState::Disconnected);
    registry.connect(42, 7);
    assert_eq!(registry.state(42), SessionState::Connected);
    let out = PlaybackController::attach(&mut registry, 42, AudioStream { token: 1 }, UNIT_VOLUME_BITS)
        .unwrap();
    assert_eq!(registry.state(42), SessionState::Playing);
    PlaybackController::cancel(&mut registry, out.handle);
    assert_eq!(registry.state(42), SessionState::Connected);
    registry.disconnect(42).unwrap();
    assert_eq!(registry.state(42), SessionState::Disconnected);
    assert_eq!(registry.state(43), SessionState::Disconnected);
}
