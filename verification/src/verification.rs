//! Interactive emoji verification as an explicit state machine.
//!
//! The handshake moves `Idle → Requested → KeysExchanged → EmojiPresented →
//! Confirmed → Done`. Every state before `Done` can end in `Aborted`, which
//! keeps the reason. The caller waits for the next event, bounded by its
//! timeout, hands it to [`step`], performs the action that comes back, and
//! stops once the state is final.

use vstd::prelude::*;
use crate::error::Error;

verus! {

/// Why a verification was aborted.
#[derive(Clone, Copy, Debug, PartialEq, Eq, Structural)]
pub enum AbortReason {
    /// The other party cancelled.
    Cancelled,
    /// The operator saw different emoji and rejected the pairing.
    Rejected,
    /// A step was not answered within its time window.
    TimedOut,
    /// The exchange was malformed or out of protocol.
    Failed,
}

/// Where a verification stands.
#[derive(Clone, Copy, Debug, PartialEq, Eq, Structural)]
pub enum VerificationState {
    /// Waiting for the other party to ask for a verification.
    Idle,
    /// A request was received and accepted.
    Requested,
    /// Key material has been exchanged.
    KeysExchanged,
    /// The emoji are shown to the operator.
    EmojiPresented,
    /// The operator confirmed that the emoji match.
    Confirmed,
    /// Both confirmations are exchanged: the pairing is trusted.
    Done,
    /// The verification ended without trust.
    Aborted(AbortReason),
}

/// What arrives while a verification is under way.
#[derive(Clone, Copy, Debug, PartialEq, Eq, Structural)]
pub enum VerificationEvent {
    /// The other party asks to verify this device; `approved` says whether
    /// the caller has approved the request.
    Request { approved: bool },
    /// Key material was exchanged.
    KeysReceived,
    /// The key exchange was malformed or did not follow the protocol.
    ExchangeFailed,
    /// The emoji have been derived from the shared secret.
    EmojiReady,
    /// The operator compared the emoji; `matches` is the verdict.
    OperatorDecision { matches: bool },
    /// The other party's confirmation arrived.
    RemoteConfirmed,
    /// The other party cancelled.
    Cancelled,
    /// The time window of the current step ran out.
    TimedOut,
}

/// What the caller does after an event.
#[derive(Clone, Copy, Debug, PartialEq, Eq, Structural)]
pub enum VerificationAction {
    /// Nothing is to be done but to wait for the next event.
    Wait,
    /// Accept the request of the other party.
    AcceptRequest,
    /// Show the emoji to the operator.
    PresentEmoji,
    /// Tell the other party that the emoji match.
    SendConfirmation,
    /// Tell the other party that the verification is cancelled.
    SendCancellation,
    /// Mark the pairing as trusted.
    TrustDevice,
}

/// A state together with the action that leads into it.
#[derive(Clone, Copy, Debug, PartialEq, Eq, Structural)]
pub struct Transition {
    pub state: VerificationState,
    pub action: VerificationAction,
}

impl VerificationState {
    /// Whether the verification is over.
    pub open spec fn is_final(self) -> bool {
        self is Done || self is Aborted
    }

    /// How far the handshake has come; an aborted one counts as not begun.
    pub open spec fn progress(self) -> nat {
        match self {
            VerificationState::Idle => 0,
            VerificationState::Requested => 1,
            VerificationState::KeysExchanged => 2,
            VerificationState::EmojiPresented => 3,
            VerificationState::Confirmed => 4,
            VerificationState::Done => 5,
            VerificationState::Aborted(_) => 0,
        }
    }

    /// What a verification that stands here has come to, if it is over.
    pub open spec fn result(self) -> Option<Result<(), Error>> {
        match self {
            VerificationState::Done => Some(Ok(())),
            VerificationState::Aborted(AbortReason::Rejected) => Some(
                Err(Error::VerificationRejected),
            ),
            VerificationState::Aborted(AbortReason::TimedOut) => Some(
                Err(Error::VerificationTimeout),
            ),
            VerificationState::Aborted(_) => Some(Err(Error::VerificationFailed)),
            _ => None,
        }
    }

    /// Whether the verification is over.
    pub fn finished(&self) -> (b: bool)
        ensures
            b == self.is_final(),
    {
        match self {
            VerificationState::Done => true,
            VerificationState::Aborted(_) => true,
            _ => false,
        }
    }

    /// The outcome of a verification that is over, `None` while it is under
    /// way. Only `Done` is a success; a rejection by the operator and a
    /// timeout each have an error of their own, and every other abort is a
    /// failed verification.
    pub fn outcome(&self) -> (r: Option<Result<(), Error>>)
        ensures
            r == self.result(),
            r is Some <==> self.is_final(),
    {
        match self {
            VerificationState::Done => Some(Ok(())),
            VerificationState::Aborted(AbortReason::Rejected) => Some(
                Err(Error::VerificationRejected),
            ),
            VerificationState::Aborted(AbortReason::TimedOut) => Some(
                Err(Error::VerificationTimeout),
            ),
            VerificationState::Aborted(_) => Some(Err(Error::VerificationFailed)),
            _ => None,
        }
    }
}

/// The transition that `event` causes in `state`.
///
/// A final state absorbs every event. Before that, a cancellation and a
/// timeout abort from anywhere; each state goes on with the one event it
/// waits for; a request that the caller has not approved leaves `Idle` as it
/// is; and anything else is a breach of the protocol.
pub open spec fn next(state: VerificationState, event: VerificationEvent) -> Transition {
    if state.is_final() {
        Transition { state, action: VerificationAction::Wait }
    } else if event is Cancelled {
        Transition {
            state: VerificationState::Aborted(AbortReason::Cancelled),
            action: VerificationAction::Wait,
        }
    } else if event is TimedOut {
        Transition {
            state: VerificationState::Aborted(AbortReason::TimedOut),
            action: VerificationAction::SendCancellation,
        }
    } else {
        match (state, event) {
            (VerificationState::Idle, VerificationEvent::Request { approved: true }) => Transition {
                state: VerificationState::Requested,
                action: VerificationAction::AcceptRequest,
            },
            (VerificationState::Idle, VerificationEvent::Request { approved: false }) => Transition {
                state: VerificationState::Idle,
                action: VerificationAction::Wait,
            },
            (VerificationState::Requested, VerificationEvent::KeysReceived) => Transition {
                state: VerificationState::KeysExchanged,
                action: VerificationAction::Wait,
            },
            (VerificationState::KeysExchanged, VerificationEvent::EmojiReady) => Transition {
                state: VerificationState::EmojiPresented,
                action: VerificationAction::PresentEmoji,
            },
            (
                VerificationState::EmojiPresented,
                VerificationEvent::OperatorDecision { matches: true },
            ) => Transition {
                state: VerificationState::Confirmed,
                action: VerificationAction::SendConfirmation,
            },
            (
                VerificationState::EmojiPresented,
                VerificationEvent::OperatorDecision { matches: false },
            ) => Transition {
                state: VerificationState::Aborted(AbortReason::Rejected),
                action: VerificationAction::SendCancellation,
            },
            (VerificationState::Confirmed, VerificationEvent::RemoteConfirmed) => Transition {
                state: VerificationState::Done,
                action: VerificationAction::TrustDevice,
            },
            _ => Transition {
                state: VerificationState::Aborted(AbortReason::Failed),
                action: VerificationAction::SendCancellation,
            },
        }
    }
}

/// The state after all of `events` have arrived in order, starting in `state`.
pub open spec fn after(state: VerificationState, events: Seq<VerificationEvent>) -> VerificationState
    decreases events.len(),
{
    if events.len() == 0 {
        state
    } else {
        next(after(state, events.drop_last()), events.last()).state
    }
}

/// Opens a verification: it needs a logged-in session and starts in `Idle`.
pub fn verify(logged_in: bool) -> (r: Result<VerificationState, Error>)
    ensures
        logged_in ==> r == Ok::<VerificationState, Error>(VerificationState::Idle),
        !logged_in ==> r == Err::<VerificationState, Error>(Error::NotLoggedIn),
{
    if logged_in {
        Ok(VerificationState::Idle)
    } else {
        Err(Error::NotLoggedIn)
    }
}

/// Advances the verification by one event.
pub fn step(state: VerificationState, event: VerificationEvent) -> (t: Transition)
    ensures
        t == next(state, event),
{
    let wait = VerificationAction::Wait;
    let cancel = VerificationAction::SendCancellation;
    if state.finished() {
        return Transition { state, action: wait };
    }
    match event {
        VerificationEvent::Cancelled => Transition {
            state: VerificationState::Aborted(AbortReason::Cancelled),
            action: wait,
        },
        VerificationEvent::TimedOut => Transition {
            state: VerificationState::Aborted(AbortReason::TimedOut),
            action: cancel,
        },
        VerificationEvent::Request { approved } => match state {
            VerificationState::Idle => if approved {
                Transition {
                    state: VerificationState::Requested,
                    action: VerificationAction::AcceptRequest,
                }
            } else {
                Transition { state: VerificationState::Idle, action: wait }
            },
            _ => failed(),
        },
        VerificationEvent::KeysReceived => match state {
            VerificationState::Requested => Transition {
                state: VerificationState::KeysExchanged,
                action: wait,
            },
            _ => failed(),
        },
        VerificationEvent::EmojiReady => match state {
            VerificationState::KeysExchanged => Transition {
                state: VerificationState::EmojiPresented,
                action: VerificationAction::PresentEmoji,
            },
            _ => failed(),
        },
        VerificationEvent::OperatorDecision { matches } => match state {
            VerificationState::EmojiPresented => if matches {
                Transition {
                    state: VerificationState::Confirmed,
                    action: VerificationAction::SendConfirmation,
                }
            } else {
                Transition {
                    state: VerificationState::Aborted(AbortReason::Rejected),
                    action: cancel,
                }
            },
            _ => failed(),
        },
        VerificationEvent::RemoteConfirmed => match state {
            VerificationState::Confirmed => Transition {
                state: VerificationState::Done,
                action: VerificationAction::TrustDevice,
            },
            _ => failed(),
        },
        VerificationEvent::ExchangeFailed => failed(),
    }
}

/// The transition of a breach of protocol.
fn failed() -> (t: Transition)
    ensures
        t == (Transition {
            state: VerificationState::Aborted(AbortReason::Failed),
            action: VerificationAction::SendCancellation,
        }),
{
    Transition {
        state: VerificationState::Aborted(AbortReason::Failed),
        action: VerificationAction::SendCancellation,
    }
}

/// Replays a sequence of events on a fresh verification and gives the state
/// it ends in.
pub fn replay(events: &Vec<VerificationEvent>) -> (state: VerificationState)
    ensures
        state == after(VerificationState::Idle, events@),
{
    let mut state = VerificationState::Idle;
    let mut i: usize = 0;
    while i < events.len()
        invariant
            i <= events.len(),
            state == after(VerificationState::Idle, events@.subrange(0, i as int)),
        decreases events.len() - i,
    {
        assert(events@.subrange(0, i + 1).drop_last() =~= events@.subrange(0, i as int));
        state = step(state, events[i]).state;
        i = i + 1;
    }
    assert(events@.subrange(0, i as int) =~= events@);
    state
}

/// `Requested` is entered only from `Idle`, and only by a request that the
/// caller has approved; a request without approval leaves `Idle` as it is.
pub proof fn requested_only_by_approved_request(state: VerificationState, event: VerificationEvent)
    ensures
        next(VerificationState::Idle, event).state == VerificationState::Requested <==> event
            == (VerificationEvent::Request { approved: true }),
        next(VerificationState::Idle, VerificationEvent::Request { approved: false }).state
            == VerificationState::Idle,
        state != VerificationState::Requested && next(state, event).state
            == VerificationState::Requested ==> state == VerificationState::Idle && event
            == (VerificationEvent::Request { approved: true }),
{
}

/// A rejection by the operator while the emoji are shown aborts with the
/// rejection as its reason, and whatever arrives afterwards the verification
/// never gets to `Done`: it stays aborted and reports the rejection.
pub proof fn rejection_is_final(events: Seq<VerificationEvent>)
    ensures
        next(
            VerificationState::EmojiPresented,
            VerificationEvent::OperatorDecision { matches: false },
        ).state == VerificationState::Aborted(AbortReason::Rejected),
        after(VerificationState::Aborted(AbortReason::Rejected), events)
            == VerificationState::Aborted(AbortReason::Rejected),
        after(VerificationState::Aborted(AbortReason::Rejected), events).result() == Some(
            Err::<(), Error>(Error::VerificationRejected),
        ),
{
    final_states_absorb(VerificationState::Aborted(AbortReason::Rejected), events);
}

/// A verification that is over stays as it is, whatever arrives.
pub proof fn final_states_absorb(state: VerificationState, events: Seq<VerificationEvent>)
    requires
        state.is_final(),
    ensures
        after(state, events) == state,
    decreases events.len(),
{
    if events.len() > 0 {
        final_states_absorb(state, events.drop_last());
    }
}

/// `Done` is entered only from `Confirmed`, by the confirmation of the other
/// party, and `Confirmed` only from `EmojiPresented`, by a match that the
/// operator declared.
pub proof fn done_only_after_confirmation(state: VerificationState, event: VerificationEvent)
    ensures
        state != VerificationState::Done && next(state, event).state == VerificationState::Done
            ==> state == VerificationState::Confirmed && event
            == VerificationEvent::RemoteConfirmed,
        state != VerificationState::Confirmed && next(state, event).state
            == VerificationState::Confirmed ==> state == VerificationState::EmojiPresented
            && event == (VerificationEvent::OperatorDecision { matches: true }),
{
}

/// Nothing is accepted or confirmed silently: a verification that has left
/// `Idle` for a later state of the handshake has seen an approved request,
/// and one that got as far as `Confirmed` has seen the operator declare a match.
pub proof fn progress_needs_consent(events: Seq<VerificationEvent>)
    ensures
        after(VerificationState::Idle, events).progress() >= 1 ==> events.contains(
            VerificationEvent::Request { approved: true },
        ),
        after(VerificationState::Idle, events).progress() >= 4 ==> events.contains(
            VerificationEvent::OperatorDecision { matches: true },
        ),
    decreases events.len(),
{
    if events.len() > 0 {
        let before = events.drop_last();
        progress_needs_consent(before);
        let prev = after(VerificationState::Idle, before);
        let last = events.last();
        assert(events[events.len() - 1] == last);
        assert(forall|e: VerificationEvent| before.contains(e) ==> events.contains(e)) by {
            assert forall|e: VerificationEvent| before.contains(e) implies events.contains(e) by {
                let k = choose|k: int| 0 <= k < before.len() && before[k] == e;
                assert(events[k] == e);
            }
        }
    }
}

} // verus!
