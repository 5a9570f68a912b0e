//! The synchronization policy: no round at all, or exactly one bounded round.

use vstd::prelude::*;
use crate::error::Error;

verus! {

/// How much synchronization an invocation wants before it goes on.
#[derive(Clone, Copy, Debug, PartialEq, Eq, Structural)]
pub enum SyncMode {
    /// No synchronization: the caller accepts stale or empty room state.
    Off,
    /// One synchronization round, bounded by the configured timeout.
    Full,
}

/// How the one synchronization round ended.
#[derive(Clone, Copy, Debug, PartialEq, Eq, Structural)]
pub enum SyncReply {
    /// The round completed within its bound.
    Completed,
    /// The round did not complete within its bound.
    TimedOut,
    /// The transport failed before the round completed.
    Failed,
}

/// Where a synchronization stands.
#[derive(Clone, Copy, Debug, PartialEq, Eq, Structural)]
pub enum SyncStep {
    /// One round is to be made now, bounded by this many seconds.
    Round { timeout_secs: u64 },
    /// Synchronization is over and was successful.
    Synced,
    /// Synchronization is over and failed.
    Failed(Error),
}

impl SyncStep {
    /// The number of network calls that this step asks for.
    pub open spec fn calls(self) -> nat {
        match self {
            SyncStep::Round { .. } => 1,
            _ => 0,
        }
    }

    /// Whether nothing more follows this step.
    pub open spec fn is_final(self) -> bool {
        !(self is Round)
    }
}

/// The first step of a synchronization in the given mode.
pub open spec fn sync_first(mode: SyncMode, timeout_secs: u64) -> SyncStep {
    match mode {
        SyncMode::Off => SyncStep::Synced,
        SyncMode::Full => SyncStep::Round { timeout_secs },
    }
}

/// The step that follows `step` once the round it asked for has ended with `reply`.
pub open spec fn sync_next(step: SyncStep, reply: SyncReply) -> SyncStep {
    match step {
        SyncStep::Round { .. } => match reply {
            SyncReply::Completed => SyncStep::Synced,
            SyncReply::TimedOut => SyncStep::Failed(Error::Transport),
            SyncReply::Failed => SyncStep::Failed(Error::Transport),
        },
        _ => step,
    }
}

/// The network calls of a whole synchronization: those of the first step and
/// of the step that follows the reply, if a round was made.
pub open spec fn sync_calls(mode: SyncMode, timeout_secs: u64, reply: SyncReply) -> nat {
    let first = sync_first(mode, timeout_secs);
    if first.is_final() {
        first.calls()
    } else {
        first.calls() + sync_next(first, reply).calls()
    }
}

/// Starts a synchronization: mode `Off` is over at once and successful, mode
/// `Full` asks for one round bounded by `timeout_secs`.
pub fn sync_once(mode: SyncMode, timeout_secs: u64) -> (step: SyncStep)
    ensures
        step == sync_first(mode, timeout_secs),
{
    match mode {
        SyncMode::Off => SyncStep::Synced,
        SyncMode::Full => SyncStep::Round { timeout_secs },
    }
}

/// Ends a synchronization round: a completed round succeeds, a round that ran
/// out of time or lost its transport fails. A step that asked for no round
/// stays as it is.
pub fn sync_reply(step: SyncStep, reply: SyncReply) -> (next: SyncStep)
    ensures
        next == sync_next(step, reply),
        next.is_final(),
{
    match step {
        SyncStep::Round { .. } => match reply {
            SyncReply::Completed => SyncStep::Synced,
            SyncReply::TimedOut => SyncStep::Failed(Error::Transport),
            SyncReply::Failed => SyncStep::Failed(Error::Transport),
        },
        _ => step,
    }
}

/// The outcome of a synchronization that is over; `None` while a round is pending.
pub fn sync_outcome(step: SyncStep) -> (r: Option<Result<(), Error>>)
    ensures
        step is Round ==> r is None,
        step is Synced ==> r == Some(Ok::<(), Error>(())),
        step matches SyncStep::Failed(e) ==> r == Some(Err::<(), Error>(e)),
{
    match step {
        SyncStep::Round { .. } => None,
        SyncStep::Synced => Some(Ok(())),
        SyncStep::Failed(e) => Some(Err(e)),
    }
}

/// With synchronization off no network call is ever made, whatever is replied.
pub proof fn sync_off_makes_no_call(timeout_secs: u64, reply: SyncReply)
    ensures
        sync_calls(SyncMode::Off, timeout_secs, reply) == 0,
        sync_first(SyncMode::Off, timeout_secs) == SyncStep::Synced,
{
}

/// A full synchronization makes exactly one call, bounded by the configured
/// timeout, and is over after the reply; it fails when the bound was exceeded
/// and succeeds only when the round completed.
pub proof fn sync_full_makes_one_bounded_call(timeout_secs: u64, reply: SyncReply)
    ensures
        sync_calls(SyncMode::Full, timeout_secs, reply) == 1,
        sync_first(SyncMode::Full, timeout_secs) == (SyncStep::Round { timeout_secs }),
        sync_next(sync_first(SyncMode::Full, timeout_secs), reply).is_final(),
        reply == SyncReply::TimedOut ==> sync_next(sync_first(SyncMode::Full, timeout_secs), reply)
            == SyncStep::Failed(Error::Transport),
        sync_next(sync_first(SyncMode::Full, timeout_secs), reply) == SyncStep::Synced <==> reply
            == SyncReply::Completed,
{
}

} // verus!
