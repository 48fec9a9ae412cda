use std::time::Duration;

use galahad_encoder::stream_state::{
    backoff_delay, backoff_ms, next_state, StreamEvent, StreamMachine, StreamState,
};

#[test]
fn happy_path_to_streaming() {
    let mut m = StreamMachine::default();
    assert_eq!(m.apply(StreamEvent::Start), StreamState::Starting);
    assert_eq!(m.apply(StreamEvent::Up), StreamState::Streaming);
}

#[test]
fn recoverable_error_reconnects_not_fails() {
    let mut m = StreamMachine::default();
    m.apply(StreamEvent::Start);
    m.apply(StreamEvent::Up);
    assert_eq!(
        m.apply(StreamEvent::RecoverableError),
        StreamState::Reconnecting
    );
    assert_eq!(m.apply(StreamEvent::Up), StreamState::Streaming);
}

#[test]
fn stop_always_returns_to_idle() {
    for state in [
        StreamState::Starting,
        StreamState::Streaming,
        StreamState::Degraded,
        StreamState::Reconnecting,
        StreamState::Failed,
    ] {
        assert_eq!(next_state(state, StreamEvent::Stop), StreamState::Idle);
    }
}

#[test]
fn fatal_error_fails_but_can_restart() {
    let mut m = StreamMachine::default();
    m.apply(StreamEvent::Start);
    assert_eq!(m.apply(StreamEvent::FatalError), StreamState::Failed);
    assert_eq!(m.apply(StreamEvent::Start), StreamState::Starting);
}

#[test]
fn degraded_recovers_to_streaming() {
    let mut m = StreamMachine::default();
    m.apply(StreamEvent::Start);
    m.apply(StreamEvent::Up);
    assert_eq!(m.apply(StreamEvent::Degrade), StreamState::Degraded);
    assert_eq!(m.apply(StreamEvent::Recover), StreamState::Streaming);
}

#[test]
fn backoff_is_exponential_and_capped() {
    assert_eq!(backoff_delay(0), Duration::from_millis(500));
    assert_eq!(backoff_delay(1), Duration::from_millis(1000));
    assert_eq!(backoff_delay(2), Duration::from_millis(2000));
    // Capped at 10s.
    assert_eq!(backoff_delay(20), Duration::from_millis(10_000));
    assert_eq!(backoff_delay(99), Duration::from_millis(10_000));
}

#[test]
fn attempt_resets_on_streaming() {
    let mut m = StreamMachine::default();
    m.apply(StreamEvent::Start);
    m.apply(StreamEvent::RecoverableError);
    m.apply(StreamEvent::RetryTick);
    m.apply(StreamEvent::RetryTick);
    assert_eq!(m.attempt, 2);
    m.apply(StreamEvent::Up);
    assert_eq!(m.attempt, 0);
}

#[test]
fn nothing_but_stop_or_a_fatal_error_ends_a_stream() {
    let mut m = StreamMachine::default();
    m.apply(StreamEvent::Start);
    for event in [
        StreamEvent::RecoverableError,
        StreamEvent::RetryTick,
        StreamEvent::Up,
        StreamEvent::Degrade,
        StreamEvent::RecoverableError,
        StreamEvent::Start,
        StreamEvent::Recover,
    ] {
        let state = m.apply(event);
        assert_ne!(state, StreamState::Idle);
        assert_ne!(state, StreamState::Failed);
    }
    assert_eq!(m.current_backoff(), Duration::from_millis(500));
    assert_eq!(backoff_ms(4), 8000);
    assert_eq!(backoff_ms(u32::MAX), 10_000);
}
