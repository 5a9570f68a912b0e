use matrix_session::error::Error;
use matrix_session::verification::{
    replay, step, verify, AbortReason, Transition, VerificationAction, VerificationEvent,
    VerificationState,
};

fn happy_path() -> Vec<VerificationEvent> {
    vec![
        VerificationEvent::Request { approved: true },
        VerificationEvent::KeysReceived,
        VerificationEvent::EmojiReady,
        VerificationEvent::OperatorDecision { matches: true },
        VerificationEvent::RemoteConfirmed,
    ]
}

#[test]
fn verify_needs_a_session() {
    assert_eq!(verify(false), Err(Error::NotLoggedIn));
    assert_eq!(verify(true), Ok(VerificationState::Idle));
}

#[test]
fn the_handshake_runs_through_every_state() {
    let mut state = verify(true).unwrap();
    let mut states = vec![];
    let mut actions = vec![];
    for event in happy_path() {
        assert!(!state.finished());
        assert_eq!(state.outcome(), None);
        let t = step(state, event);
        state = t.state;
        states.push(t.state);
        actions.push(t.action);
    }
    assert_eq!(
        states,
        vec![
            VerificationState::Requested,
            VerificationState::KeysExchanged,
            VerificationState::EmojiPresented,
            VerificationState::Confirmed,
            VerificationState::Done,
        ]
    );
    assert_eq!(
        actions,
        vec![
            VerificationAction::AcceptRequest,
            VerificationAction::Wait,
            VerificationAction::PresentEmoji,
            VerificationAction::SendConfirmation,
            VerificationAction::TrustDevice,
        ]
    );
    assert!(state.finished());
    assert_eq!(state.outcome(), Some(Ok(())));
    assert_eq!(replay(&happy_path()), VerificationState::Done);
}

#[test]
fn only_an_approved_request_leaves_idle_for_requested() {
    let idle = VerificationState::Idle;
    assert_eq!(
        step(idle, VerificationEvent::Request { approved: true }).state,
        VerificationState::Requested
    );
    assert_eq!(
        step(idle, VerificationEvent::Request { approved: false }),
        Transition { state: VerificationState::Idle, action: VerificationAction::Wait }
    );
    for event in [
        VerificationEvent::KeysReceived,
        VerificationEvent::ExchangeFailed,
        VerificationEvent::EmojiReady,
        VerificationEvent::OperatorDecision { matches: true },
        VerificationEvent::OperatorDecision { matches: false },
        VerificationEvent::RemoteConfirmed,
        VerificationEvent::Cancelled,
        VerificationEvent::TimedOut,
    ] {
        assert_ne!(step(idle, event).state, VerificationState::Requested);
    }
}

#[test]
fn an_unapproved_request_can_be_followed_by_an_approved_one() {
    let events = vec![
        VerificationEvent::Request { approved: false },
        VerificationEvent::Request { approved: false },
        VerificationEvent::Request { approved: true },
    ];
    assert_eq!(replay(&events), VerificationState::Requested);
}

#[test]
fn a_rejection_by_the_operator_is_never_done() {
    let t = step(
        VerificationState::EmojiPresented,
        VerificationEvent::OperatorDecision { matches: false },
    );
    assert_eq!(t.state, VerificationState::Aborted(AbortReason::Rejected));
    assert_eq!(t.action, VerificationAction::SendCancellation);
    assert_eq!(t.state.outcome(), Some(Err(Error::VerificationRejected)));
    let mut events = happy_path();
    events[3] = VerificationEvent::OperatorDecision { matches: false };
    events.push(VerificationEvent::OperatorDecision { matches: true });
    events.push(VerificationEvent::RemoteConfirmed);
    assert_eq!(replay(&events), VerificationState::Aborted(AbortReason::Rejected));
}

#[test]
fn a_failed_key_exchange_is_a_failed_verification() {
    let t = step(VerificationState::Requested, VerificationEvent::ExchangeFailed);
    assert_eq!(t.state, VerificationState::Aborted(AbortReason::Failed));
    assert_eq!(t.state.outcome(), Some(Err(Error::VerificationFailed)));
}

#[test]
fn an_event_out_of_order_is_a_failed_verification() {
    let t = step(VerificationState::Requested, VerificationEvent::RemoteConfirmed);
    assert_eq!(t.state, VerificationState::Aborted(AbortReason::Failed));
    let t = step(VerificationState::Confirmed, VerificationEvent::Request { approved: true });
    assert_eq!(t.state, VerificationState::Aborted(AbortReason::Failed));
    let t = step(VerificationState::KeysExchanged, VerificationEvent::KeysReceived);
    assert_eq!(
        t,
        Transition {
            state: VerificationState::Aborted(AbortReason::Failed),
            action: VerificationAction::SendCancellation,
        }
    );
}

#[test]
fn a_timeout_aborts_from_every_state_under_way() {
    for state in [
        VerificationState::Idle,
        VerificationState::Requested,
        VerificationState::KeysExchanged,
        VerificationState::EmojiPresented,
        VerificationState::Confirmed,
    ] {
        let t = step(state, VerificationEvent::TimedOut);
        assert_eq!(t.state, VerificationState::Aborted(AbortReason::TimedOut));
        assert_eq!(t.action, VerificationAction::SendCancellation);
        assert_eq!(t.state.outcome(), Some(Err(Error::VerificationTimeout)));
    }
}

#[test]
fn a_cancellation_aborts_from_every_state_under_way() {
    for state in [
        VerificationState::Idle,
        VerificationState::Requested,
        VerificationState::KeysExchanged,
        VerificationState::EmojiPresented,
        VerificationState::Confirmed,
    ] {
        let t = step(state, VerificationEvent::Cancelled);
        assert_eq!(t.state, VerificationState::Aborted(AbortReason::Cancelled));
        assert_eq!(t.action, VerificationAction::Wait);
        assert_eq!(t.state.outcome(), Some(Err(Error::VerificationFailed)));
    }
}

#[test]
fn a_timeout_differs_from_a_rejection() {
    let timeout = VerificationState::Aborted(AbortReason::TimedOut).outcome();
    let rejection = VerificationState::Aborted(AbortReason::Rejected).outcome();
    let failure = VerificationState::Aborted(AbortReason::Failed).outcome();
    assert_ne!(timeout, rejection);
    assert_ne!(timeout, failure);
    assert_ne!(rejection, failure);
}

#[test]
fn final_states_take_no_more_events() {
    for state in [
        VerificationState::Done,
        VerificationState::Aborted(AbortReason::Cancelled),
        VerificationState::Aborted(AbortReason::Rejected),
        VerificationState::Aborted(AbortReason::TimedOut),
        VerificationState::Aborted(AbortReason::Failed),
    ] {
        assert!(state.finished());
        for event in happy_path() {
            assert_eq!(
                step(state, event),
                Transition { state, action: VerificationAction::Wait }
            );
        }
        assert_eq!(step(state, VerificationEvent::TimedOut).state, state);
        assert_eq!(step(state, VerificationEvent::Cancelled).state, state);
    }
}

#[test]
fn replay_of_nothing_is_idle() {
    assert_eq!(replay(&vec![]), VerificationState::Idle);
    assert_eq!(VerificationState::Idle.outcome(), None);
}

#[test]
fn a_session_stays_usable_after_an_abort() {
    let aborted = replay(&vec![
        VerificationEvent::Request { approved: true },
        VerificationEvent::Cancelled,
    ]);
    assert_eq!(aborted, VerificationState::Aborted(AbortReason::Cancelled));
    assert_eq!(verify(true), Ok(VerificationState::Idle));
    assert_eq!(replay(&happy_path()), VerificationState::Done);
}
