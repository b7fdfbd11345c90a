use voice_sessions::effect::Effect;
use voice_sessions::error::CommandError;
use voice_sessions::playback::PlaybackController;
use voice_sessions::registry::VoiceSessionRegistry;
use voice_sessions::session::{AudioStream, PlaybackHandle, VoiceSession, UNIT_VOLUME_BITS};

fn playback(group_id: u64, token: u64) -> PlaybackHandle {
    PlaybackHandle { group_id, stream: AudioStream { token } }
}

fn connected() -> VoiceSessionRegistry {
    let mut registry = VoiceSessionRegistry::new();
    registry.connect(42, 7);
    registry
}

#[test]
fn attach_installs_the_stream_at_the_volume() {
    let mut registry = connected();
    let half = 0.5f32.to_bits();
    let out = PlaybackController::attach(&mut registry, 42, AudioStream { token: 5 }, half).unwrap();
    assert_eq!(out.handle, playback(42, 5));
    assert_eq!(out.effects, vec![Effect::Start { playback: playback(42, 5), volume_bits: half }]);
    let session = registry.get(42).unwrap();
    assert_eq!(session.current_playback, Some(playback(42, 5)));
    assert!(session.is_playing());
    assert_eq!(f32::from_bits(session.volume_bits), 0.5f32);
    assert_eq!(session.channel_id, 7);
}

#[test]
fn attach_without_session_fails_and_changes_nothing() {
    let mut registry = connected();
    let out = PlaybackController::attach(&mut registry, 99, AudioStream { token: 5 }, UNIT_VOLUME_BITS);
    assert_eq!(out.err(), Some(CommandError::NoActiveSession));
    assert_eq!(registry.len(), 1);
    assert_eq!(registry.get(42), Some(VoiceSession::new(42, 7)));
}

#[test]
fn attach_cancels_the_previous_playback_first() {
    let mut registry = connected();
    PlaybackController::attach(&mut registry, 42, AudioStream { token: 5 }, UNIT_VOLUME_BITS)
        .unwrap();
    let out = PlaybackController::attach(&mut registry, 42, AudioStream { token: 6 }, UNIT_VOLUME_BITS)
        .unwrap();
    assert_eq!(
        out.effects,
        vec![
            Effect::Stop { playback: playback(42, 5) },
            Effect::Start { playback: playback(42, 6), volume_bits: UNIT_VOLUME_BITS },
        ]
    );
    assert_eq!(registry.get(42).unwrap().current_playback, Some(playback(42, 6)));
}

#[test]
fn cancel_stops_a_live_playback_and_restores_the_session() {
    let mut registry = connected();
    let before = registry.get(42).unwrap();
    let out = PlaybackController::attach(&mut registry, 42, AudioStream { token: 5 }, UNIT_VOLUME_BITS)
        .unwrap();
    let effects = PlaybackController::cancel(&mut registry, out.handle);
    assert_eq!(effects, vec![Effect::Stop { playback: playback(42, 5) }]);
    assert_eq!(registry.get(42), Some(before));
}

#[test]
fn cancel_of_a_dead_handle_changes_nothing() {
    let mut registry = connected();
    PlaybackController::attach(&mut registry, 42, AudioStream { token: 5 }, UNIT_VOLUME_BITS)
        .unwrap();
    assert_eq!(PlaybackController::cancel(&mut registry, playback(42, 4)), vec![]);
    assert_eq!(PlaybackController::cancel(&mut registry, playback(99, 5)), vec![]);
    assert_eq!(registry.get(42).unwrap().current_playback, Some(playback(42, 5)));
    assert_eq!(
        PlaybackController::cancel(&mut registry, playback(42, 5)),
        vec![Effect::Stop { playback: playback(42, 5) }]
    );
    assert_eq!(PlaybackController::cancel(&mut registry, playback(42, 5)), vec![]);
}

#[test]
fn set_volume_adjusts_a_live_playback_only() {
    let mut registry = connected();
    let quiet = 0.25f32.to_bits();
    assert_eq!(PlaybackController::set_volume(&mut registry, playback(42, 5), quiet), vec![]);
    assert_eq!(registry.get(42).unwrap().volume_bits, UNIT_VOLUME_BITS);
    PlaybackController::attach(&mut registry, 42, AudioStream { token: 5 }, UNIT_VOLUME_BITS)
        .unwrap();
    assert_eq!(
        PlaybackController::set_volume(&mut registry, playback(42, 5), quiet),
        vec![Effect::SetVolume { playback: playback(42, 5), volume_bits: quiet }]
    );
    let session = registry.get(42).unwrap();
    assert_eq!(f32::from_bits(session.volume_bits), 0.25f32);
    assert_eq!(session.current_playback, Some(playback(42, 5)));
}

#[test]
fn finished_playback_leaves_the_session_connected() {
    let mut registry = connected();
    PlaybackController::attach(&mut registry, 42, AudioStream { token: 5 }, UNIT_VOLUME_BITS)
        .unwrap();
    PlaybackController::finished(&mut registry, playback(42, 4));
    assert!(registry.get(42).unwrap().is_playing());
    PlaybackController::finished(&mut registry, playback(42, 5));
    let session = registry.get(42).unwrap();
    assert_eq!(session.current_playback, None);
    assert_eq!(session.channel_id, 7);
}
