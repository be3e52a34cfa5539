//! The recorder's life cycle: which event moves a recording from one state to
//! the next, and which events are refused.
use crate::models::RecordingState;
use vstd::prelude::*;

verus! {

#[derive(Debug, Clone, Copy, PartialEq, Eq, Structural)]
pub enum RecordingEvent {
    Prepare,
    Started,
    Pause,
    Resume,
    Stop,
    Finalized,
    SourcesChanged { system: bool, microphone: bool },
    Recover,
    Fail,
}

/// A refused transition: the event cannot happen in that state.
#[derive(Debug, Clone, Copy, PartialEq, Eq, Structural)]
pub struct IllegalTransition {
    pub state: RecordingState,
    pub event: RecordingEvent,
}

/// The state that `event` leads to from `state`, or `None` when the event is
/// refused there. The arms are tried in order.
pub open spec fn next_state(state: RecordingState, event: RecordingEvent) -> Option<RecordingState> {
    match (state, event) {
        (RecordingState::Idle, RecordingEvent::Prepare)
        | (RecordingState::Completed, RecordingEvent::Prepare)
        | (RecordingState::Error, RecordingEvent::Prepare) => Some(RecordingState::Preparing),
        (RecordingState::Preparing, RecordingEvent::Started) => Some(RecordingState::Recording),
        (RecordingState::Recording, RecordingEvent::Pause)
        | (RecordingState::Interrupted, RecordingEvent::Pause)
        | (RecordingState::Paused, RecordingEvent::Pause) => Some(RecordingState::Paused),
        (RecordingState::Paused, RecordingEvent::Resume)
        | (RecordingState::Recording, RecordingEvent::Resume) => Some(RecordingState::Recording),
        (RecordingState::Preparing, RecordingEvent::Stop)
        | (RecordingState::Recording, RecordingEvent::Stop)
        | (RecordingState::Paused, RecordingEvent::Stop)
        | (RecordingState::Interrupted, RecordingEvent::Stop)
        | (RecordingState::Finalizing, RecordingEvent::Stop) => Some(RecordingState::Finalizing),
        (RecordingState::Finalizing, RecordingEvent::Finalized)
        | (RecordingState::Recovering, RecordingEvent::Finalized) => Some(RecordingState::Completed),
        (_, RecordingEvent::SourcesChanged { system, microphone }) => {
            if !system && !microphone {
                Some(RecordingState::Interrupted)
            } else if state == RecordingState::Interrupted {
                Some(RecordingState::Recording)
            } else {
                Some(state)
            }
        },
        (RecordingState::Idle, RecordingEvent::Recover)
        | (RecordingState::Completed, RecordingEvent::Recover)
        | (RecordingState::Error, RecordingEvent::Recover) => Some(RecordingState::Recovering),
        (_, RecordingEvent::Fail) => Some(RecordingState::Error),
        _ => None,
    }
}

/// Applies `event` to `state`.
pub fn transition(state: RecordingState, event: RecordingEvent) -> (r: Result<
    RecordingState,
    IllegalTransition,
>)
    ensures
        match next_state(state, event) {
            Some(next) => r == Ok::<RecordingState, IllegalTransition>(next),
            None => r == Err::<RecordingState, IllegalTransition>(IllegalTransition { state, event }),
        },
{
    match (state, event) {
        (RecordingState::Idle, RecordingEvent::Prepare)
        | (RecordingState::Completed, RecordingEvent::Prepare)
        | (RecordingState::Error, RecordingEvent::Prepare) => Ok(RecordingState::Preparing),
        (RecordingState::Preparing, RecordingEvent::Started) => Ok(RecordingState::Recording),
        (RecordingState::Recording, RecordingEvent::Pause)
        | (RecordingState::Interrupted, RecordingEvent::Pause)
        | (RecordingState::Paused, RecordingEvent::Pause) => Ok(RecordingState::Paused),
        (RecordingState::Paused, RecordingEvent::Resume)
        | (RecordingState::Recording, RecordingEvent::Resume) => Ok(RecordingState::Recording),
        (RecordingState::Preparing, RecordingEvent::Stop)
        | (RecordingState::Recording, RecordingEvent::Stop)
        | (RecordingState::Paused, RecordingEvent::Stop)
        | (RecordingState::Interrupted, RecordingEvent::Stop)
        | (RecordingState::Finalizing, RecordingEvent::Stop) => Ok(RecordingState::Finalizing),
        (RecordingState::Finalizing, RecordingEvent::Finalized)
        | (RecordingState::Recovering, RecordingEvent::Finalized) => Ok(RecordingState::Completed),
        (_, RecordingEvent::SourcesChanged { system, microphone }) => {
            if !system && !microphone {
                Ok(RecordingState::Interrupted)
            } else if state == RecordingState::Interrupted {
                Ok(RecordingState::Recording)
            } else {
                Ok(state)
            }
        },
        (RecordingState::Idle, RecordingEvent::Recover)
        | (RecordingState::Completed, RecordingEvent::Recover)
        | (RecordingState::Error, RecordingEvent::Recover) => Ok(RecordingState::Recovering),
        (_, RecordingEvent::Fail) => Ok(RecordingState::Error),
        _ => Err(IllegalTransition { state, event }),
    }
}

/// Repeating a control that has already taken effect changes nothing:
/// pausing a paused recording, resuming a running one, stopping a recording
/// that is already being finalized.
pub proof fn lemma_repeated_controls_are_idempotent()
    ensures
        next_state(RecordingState::Paused, RecordingEvent::Pause) == Some(RecordingState::Paused),
        next_state(RecordingState::Recording, RecordingEvent::Resume) == Some(
            RecordingState::Recording,
        ),
        next_state(RecordingState::Finalizing, RecordingEvent::Stop) == Some(
            RecordingState::Finalizing,
        ),
        forall|s: RecordingState, e: RecordingEvent|
            #![trigger next_state(s, e)]
            (e == RecordingEvent::Pause || e == RecordingEvent::Resume || e == RecordingEvent::Stop)
                ==> (next_state(s, e) matches Some(t) ==> next_state(t, e) == Some(t)),
{
}

/// A change of sources interrupts the recording exactly when neither source
/// survives; while one survives, a running recording keeps running and an
/// interrupted one resumes.
pub proof fn lemma_sources_change(state: RecordingState, system: bool, microphone: bool)
    ensures
        next_state(state, RecordingEvent::SourcesChanged { system, microphone }) == Some(
            if !system && !microphone {
                RecordingState::Interrupted
            } else if state == RecordingState::Interrupted {
                RecordingState::Recording
            } else {
                state
            },
        ),
{
}

/// A failure is accepted in every state and leads to the error state.
pub proof fn lemma_failure_always_accepted(state: RecordingState)
    ensures
        next_state(state, RecordingEvent::Fail) == Some(RecordingState::Error),
{
}

/// A recording that is being captured can always be stopped safely, and
/// finalizing it completes it: a started session never loses the way to a
/// saved file.
pub proof fn lemma_safe_finalization(state: RecordingState)
    requires
        state == RecordingState::Preparing || state == RecordingState::Recording || state
            == RecordingState::Paused || state == RecordingState::Interrupted || state
            == RecordingState::Finalizing,
    ensures
        next_state(state, RecordingEvent::Stop) == Some(RecordingState::Finalizing),
        next_state(RecordingState::Finalizing, RecordingEvent::Finalized) == Some(
            RecordingState::Completed,
        ),
{
}

/// Recovery starts only from a resting state (idle, completed or failed) and
/// ends in the completed state.
pub proof fn lemma_recovery_from_rest(state: RecordingState)
    ensures
        (next_state(state, RecordingEvent::Recover) is Some) <==> (state == RecordingState::Idle
            || state == RecordingState::Completed || state == RecordingState::Error),
        next_state(RecordingState::Recovering, RecordingEvent::Finalized) == Some(
            RecordingState::Completed,
        ),
{
}

/// A new session can be prepared only from a resting state, so a running
/// session is never replaced.
pub proof fn lemma_prepare_only_from_rest(state: RecordingState)
    ensures
        (next_state(state, RecordingEvent::Prepare) is Some) <==> (state == RecordingState::Idle
            || state == RecordingState::Completed || state == RecordingState::Error),
        next_state(state, RecordingEvent::Prepare) is Some ==> next_state(
            state,
            RecordingEvent::Prepare,
        ) == Some(RecordingState::Preparing),
{
}

/// Every control leads where its name says, from every state that accepts
/// it, and each is accepted exactly in the states listed: preparing from
/// rest (idle, completed, failed), starting from preparing, pausing a
/// running, interrupted or paused recording, resuming a paused or running
/// one, stopping any session that is capturing or finalizing, finishing a
/// finalization or a recovery, recovering from rest, and failing anywhere.
pub proof fn lemma_controls_lead_where_named(state: RecordingState)
    ensures
        next_state(state, RecordingEvent::Prepare) == (if state == RecordingState::Idle || state
            == RecordingState::Completed || state == RecordingState::Error {
            Some(RecordingState::Preparing)
        } else {
            None
        }),
        next_state(state, RecordingEvent::Started) == (if state == RecordingState::Preparing {
            Some(RecordingState::Recording)
        } else {
            None
        }),
        next_state(state, RecordingEvent::Pause) == (if state == RecordingState::Recording || state
            == RecordingState::Interrupted || state == RecordingState::Paused {
            Some(RecordingState::Paused)
        } else {
            None
        }),
        next_state(state, RecordingEvent::Resume) == (if state == RecordingState::Paused || state
            == RecordingState::Recording {
            Some(RecordingState::Recording)
        } else {
            None
        }),
        next_state(state, RecordingEvent::Stop) == (if state == RecordingState::Preparing || state
            == RecordingState::Recording || state == RecordingState::Paused || state
            == RecordingState::Interrupted || state == RecordingState::Finalizing {
            Some(RecordingState::Finalizing)
        } else {
            None
        }),
        next_state(state, RecordingEvent::Finalized) == (if state == RecordingState::Finalizing
            || state == RecordingState::Recovering {
            Some(RecordingState::Completed)
        } else {
            None
        }),
        next_state(state, RecordingEvent::Recover) == (if state == RecordingState::Idle || state
            == RecordingState::Completed || state == RecordingState::Error {
            Some(RecordingState::Recovering)
        } else {
            None
        }),
        next_state(state, RecordingEvent::Fail) == Some(RecordingState::Error),
{
}

} // verus!
