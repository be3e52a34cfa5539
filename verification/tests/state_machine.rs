use nota::models::RecordingState;
use nota::state_machine::{transition, IllegalTransition, RecordingEvent};

#[test]
fn repeated_controls_are_idempotent() {
    assert_eq!(
        transition(RecordingState::Paused, RecordingEvent::Pause).unwrap(),
        RecordingState::Paused
    );
    assert_eq!(
        transition(RecordingState::Recording, RecordingEvent::Resume).unwrap(),
        RecordingState::Recording
    );
    assert_eq!(
        transition(RecordingState::Finalizing, RecordingEvent::Stop).unwrap(),
        RecordingState::Finalizing
    );
}

#[test]
fn source_failures_preserve_the_surviving_source() {
    assert_eq!(
        transition(
            RecordingState::Recording,
            RecordingEvent::SourcesChanged {
                system: false,
                microphone: true,
            },
        )
        .unwrap(),
        RecordingState::Recording
    );
    assert_eq!(
        transition(
            RecordingState::Recording,
            RecordingEvent::SourcesChanged {
                system: false,
                microphone: false,
            },
        )
        .unwrap(),
        RecordingState::Interrupted
    );
}

#[test]
fn supports_recovery_and_safe_finalization() {
    assert_eq!(
        transition(RecordingState::Idle, RecordingEvent::Recover).unwrap(),
        RecordingState::Recovering
    );
    assert_eq!(
        transition(RecordingState::Recording, RecordingEvent::Stop).unwrap(),
        RecordingState::Finalizing
    );
    assert_eq!(
        transition(RecordingState::Finalizing, RecordingEvent::Finalized).unwrap(),
        RecordingState::Completed
    );
}

#[test]
fn refused_transitions_name_the_state_and_event() {
    assert_eq!(
        transition(RecordingState::Idle, RecordingEvent::Stop).unwrap_err(),
        IllegalTransition {
            state: RecordingState::Idle,
            event: RecordingEvent::Stop,
        }
    );
    assert_eq!(
        transition(RecordingState::Interrupted, RecordingEvent::SourcesChanged { system: true, microphone: false }).unwrap(),
        RecordingState::Recording
    );
    assert_eq!(
        transition(RecordingState::Completed, RecordingEvent::Fail).unwrap(),
        RecordingState::Error
    );
}
