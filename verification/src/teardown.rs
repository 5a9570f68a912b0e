//! Logout: the server is told first, then the local traces are removed.
//!
//! The two local removals are tried whatever the server said, and each of
//! the three steps reports its failure on its own.

use vstd::prelude::*;
use crate::error::Error;

verus! {

/// The outside work that is pending in a logout.
#[derive(Clone, Copy, Debug, PartialEq, Eq, Structural)]
pub enum LogoutStep {
    /// Tell the homeserver that the session ends.
    ServerLogout,
    /// Look whether a credentials file is there.
    CheckCredentials,
    /// Remove the credentials file.
    RemoveCredentials,
    /// Remove the directory of the local encrypted store.
    RemoveStore,
    /// Nothing is left to do.
    Done,
}

/// What went wrong during a logout, each step on its own.
#[derive(Clone, Copy, Debug, PartialEq, Eq, Structural)]
pub struct LogoutReport {
    /// The homeserver did not confirm the logout.
    pub server_logout_failed: bool,
    /// No credentials file was there to remove.
    pub credentials_missing: bool,
    /// The credentials file is there but could not be removed.
    pub credentials_not_removed: bool,
    /// The store directory could not be removed.
    pub store_not_removed: bool,
}

/// A logout under way: the pending step and the failures so far.
#[derive(Clone, Copy, Debug, PartialEq, Eq, Structural)]
pub struct LogoutState {
    pub step: LogoutStep,
    pub report: LogoutReport,
}

/// The report in which nothing has gone wrong.
pub open spec fn clean_report() -> LogoutReport {
    LogoutReport {
        server_logout_failed: false,
        credentials_missing: false,
        credentials_not_removed: false,
        store_not_removed: false,
    }
}

/// The first state of a logout: the server is told only where a session is
/// established.
pub open spec fn logout_first(connected: bool) -> LogoutState {
    LogoutState {
        step: if connected {
            LogoutStep::ServerLogout
        } else {
            LogoutStep::CheckCredentials
        },
        report: clean_report(),
    }
}

/// The state after the server has answered the logout call: the local
/// cleanup comes next whatever the answer, and a refusal is noted.
pub open spec fn server_answered(state: LogoutState, accepted: bool) -> LogoutState {
    LogoutState {
        step: LogoutStep::CheckCredentials,
        report: LogoutReport { server_logout_failed: !accepted, ..state.report },
    }
}

/// The state that follows `state` once its outside work has succeeded (`ok`)
/// or failed. For the look at the credentials file, `ok` says that it is there.
pub open spec fn logout_next(state: LogoutState, ok: bool) -> LogoutState {
    match state.step {
        LogoutStep::ServerLogout => server_answered(state, ok),
        LogoutStep::CheckCredentials => if ok {
            LogoutState { step: LogoutStep::RemoveCredentials, ..state }
        } else {
            LogoutState {
                step: LogoutStep::RemoveStore,
                report: LogoutReport { credentials_missing: true, ..state.report },
            }
        },
        LogoutStep::RemoveCredentials => LogoutState {
            step: LogoutStep::RemoveStore,
            report: LogoutReport { credentials_not_removed: !ok, ..state.report },
        },
        LogoutStep::RemoveStore => LogoutState {
            step: LogoutStep::Done,
            report: LogoutReport { store_not_removed: !ok, ..state.report },
        },
        LogoutStep::Done => state,
    }
}

/// The state in which a whole logout ends, given the outcome of each step
/// that may be taken.
pub open spec fn logout_run(
    connected: bool,
    server_accepted: bool,
    credentials_exist: bool,
    credentials_removed: bool,
    store_removed: bool,
) -> LogoutState {
    let first = logout_first(connected);
    let told = if connected {
        logout_next(first, server_accepted)
    } else {
        first
    };
    let checked = logout_next(told, credentials_exist);
    let cleared = if credentials_exist {
        logout_next(checked, credentials_removed)
    } else {
        checked
    };
    logout_next(cleared, store_removed)
}

/// Starts a logout.
pub fn logout(connected: bool) -> (state: LogoutState)
    ensures
        state == logout_first(connected),
{
    LogoutState {
        step: if connected {
            LogoutStep::ServerLogout
        } else {
            LogoutStep::CheckCredentials
        },
        report: LogoutReport {
            server_logout_failed: false,
            credentials_missing: false,
            credentials_not_removed: false,
            store_not_removed: false,
        },
    }
}

/// Takes the answer of the server to the logout call. A refusal is noted in
/// the report and blocks nothing: the local cleanup comes next either way.
pub fn logout_server(state: LogoutState, accepted: bool) -> (next: LogoutState)
    ensures
        next == server_answered(state, accepted),
{
    let mut report = state.report;
    report.server_logout_failed = !accepted;
    LogoutState { step: LogoutStep::CheckCredentials, report }
}

/// Advances a logout by the outcome of the step that was pending. No failure
/// ends the logout: a file that is not there is noted and skipped, a removal
/// that fails is noted, and the next step follows.
pub fn logout_step(state: LogoutState, ok: bool) -> (next: LogoutState)
    ensures
        next == logout_next(state, ok),
{
    let mut report = state.report;
    match state.step {
        LogoutStep::ServerLogout => logout_server(state, ok),
        LogoutStep::CheckCredentials => if ok {
            LogoutState { step: LogoutStep::RemoveCredentials, report }
        } else {
            report.credentials_missing = true;
            LogoutState { step: LogoutStep::RemoveStore, report }
        },
        LogoutStep::RemoveCredentials => {
            report.credentials_not_removed = !ok;
            LogoutState { step: LogoutStep::RemoveStore, report }
        },
        LogoutStep::RemoveStore => {
            report.store_not_removed = !ok;
            LogoutState { step: LogoutStep::Done, report }
        },
        LogoutStep::Done => state,
    }
}

/// The outcome of a logout: it has none while a step is pending, and once
/// it is over it has succeeded, with the failures of its steps in the report.
pub fn logout_outcome(state: LogoutState) -> (r: Option<Result<LogoutReport, Error>>)
    ensures
        state.step is Done ==> r == Some(Ok::<LogoutReport, Error>(state.report)),
        !(state.step is Done) ==> r is None,
{
    match state.step {
        LogoutStep::Done => Some(Ok(state.report)),
        _ => None,
    }
}

/// The local cleanup does not depend on the server: whatever the server
/// answered, and whether a session was established at all, the logout goes
/// on to remove the credentials file, if there is one, and then the store,
/// and it reports the refusal of the server and nothing else about it.
pub proof fn cleanup_follows_any_server_answer(
    connected: bool,
    server_accepted: bool,
    credentials_exist: bool,
    credentials_removed: bool,
    store_removed: bool,
)
    ensures
        logout_run(connected, server_accepted, credentials_exist, credentials_removed, store_removed)
            == (LogoutState {
            step: LogoutStep::Done,
            report: LogoutReport {
                server_logout_failed: connected && !server_accepted,
                credentials_missing: !credentials_exist,
                credentials_not_removed: credentials_exist && !credentials_removed,
                store_not_removed: !store_removed,
            },
        }),
        logout_next(logout_first(true), server_accepted).step == LogoutStep::CheckCredentials,
{
}

/// No step of a logout is skipped because an earlier one failed: the removal
/// of the store follows the removal of the credentials whether that worked
/// or not, and the end follows the removal of the store.
pub proof fn failures_do_not_stop_cleanup(state: LogoutState, ok: bool)
    ensures
        state.step == LogoutStep::ServerLogout ==> logout_next(state, ok).step
            == LogoutStep::CheckCredentials,
        state.step == LogoutStep::CheckCredentials ==> logout_next(state, ok).step == (if ok {
            LogoutStep::RemoveCredentials
        } else {
            LogoutStep::RemoveStore
        }),
        state.step == LogoutStep::RemoveCredentials ==> logout_next(state, ok).step
            == LogoutStep::RemoveStore,
        state.step == LogoutStep::RemoveStore ==> logout_next(state, ok).step == LogoutStep::Done,
{
}

} // verus!
