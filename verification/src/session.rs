//! Building a session: the client configuration and the two ways to log in.
//!
//! A fresh login and a restore from stored credentials end in the same kind
//! of session. Each is a flow of outside steps; the functions here say which
//! step comes next and what a failed step means.

use vstd::prelude::*;
use crate::error::Error;

verus! {

/// How a client is configured before it connects.
#[derive(Clone, Debug)]
pub struct ClientConfig {
    /// The URL of the homeserver.
    pub homeserver: String,
    /// The directory of the local encrypted store.
    pub store_path: String,
    /// The bound on a request, in seconds.
    pub request_timeout_secs: u64,
    /// The bound on the retries of a request, in seconds.
    pub retry_timeout_secs: u64,
}

/// Configures a client for `homeserver` with its store at `store_path`. One
/// timeout governs both the first attempt of a request and its retries.
pub fn create_client(homeserver: String, store_path: String, timeout_secs: u64) -> (config:
    ClientConfig)
    ensures
        config.homeserver@ == homeserver@,
        config.store_path@ == store_path@,
        config.request_timeout_secs == timeout_secs,
        config.retry_timeout_secs == timeout_secs,
{
    ClientConfig {
        homeserver,
        store_path,
        request_timeout_secs: timeout_secs,
        retry_timeout_secs: timeout_secs,
    }
}

/// The outside work that is pending in a restore, or how the restore ended.
#[derive(Clone, Copy, Debug, PartialEq, Eq, Structural)]
pub enum RestoreStep {
    /// Look whether a credentials file is there.
    CheckCredentials,
    /// Read and decode the credentials file.
    LoadCredentials,
    /// Build the client and open its local store.
    BuildClient,
    /// Replay the stored session into the client.
    RestoreSession,
    /// Make the synchronization that the policy asks for.
    Sync,
    /// The session is restored.
    Restored,
    /// The restore failed.
    Failed(Error),
}

/// The outside work that is pending in a fresh login, or how the login ended.
#[derive(Clone, Copy, Debug, PartialEq, Eq, Structural)]
pub enum LoginStep {
    /// Build the client and open its local store.
    BuildClient,
    /// Log in at the homeserver with user name and password.
    PasswordLogin,
    /// Write the credentials of the new session to their file.
    SaveCredentials,
    /// Make the synchronization that the policy asks for.
    Sync,
    /// The session is established and its credentials are stored.
    LoggedIn,
    /// The login failed.
    Failed(Error),
}

impl RestoreStep {
    /// Whether nothing more follows this step.
    pub open spec fn is_final(self) -> bool {
        self is Restored || self is Failed
    }
}

impl LoginStep {
    /// Whether nothing more follows this step.
    pub open spec fn is_final(self) -> bool {
        self is LoggedIn || self is Failed
    }
}

/// The step that follows `step` of a restore once its outside work has
/// succeeded (`ok`) or failed.
pub open spec fn restore_next(step: RestoreStep, ok: bool) -> RestoreStep {
    match step {
        RestoreStep::CheckCredentials => if ok {
            RestoreStep::LoadCredentials
        } else {
            RestoreStep::Failed(Error::NotLoggedIn)
        },
        RestoreStep::LoadCredentials => if ok {
            RestoreStep::BuildClient
        } else {
            RestoreStep::Failed(Error::MalformedCredentials)
        },
        RestoreStep::BuildClient => if ok {
            RestoreStep::RestoreSession
        } else {
            RestoreStep::Failed(Error::Store)
        },
        RestoreStep::RestoreSession => if ok {
            RestoreStep::Sync
        } else {
            RestoreStep::Failed(Error::LoginFailed)
        },
        RestoreStep::Sync => if ok {
            RestoreStep::Restored
        } else {
            RestoreStep::Failed(Error::LoginFailed)
        },
        _ => step,
    }
}

/// The step that follows `step` of a fresh login once its outside work has
/// succeeded (`ok`) or failed.
pub open spec fn login_next(step: LoginStep, ok: bool) -> LoginStep {
    match step {
        LoginStep::BuildClient => if ok {
            LoginStep::PasswordLogin
        } else {
            LoginStep::Failed(Error::Store)
        },
        LoginStep::PasswordLogin => if ok {
            LoginStep::SaveCredentials
        } else {
            LoginStep::Failed(Error::LoginFailed)
        },
        LoginStep::SaveCredentials => if ok {
            LoginStep::Sync
        } else {
            LoginStep::Failed(Error::Store)
        },
        LoginStep::Sync => if ok {
            LoginStep::LoggedIn
        } else {
            LoginStep::Failed(Error::Transport)
        },
        _ => step,
    }
}

/// The step a restore stands at after the outcomes `oks` of its steps, in order.
pub open spec fn restore_after(oks: Seq<bool>) -> RestoreStep
    decreases oks.len(),
{
    if oks.len() == 0 {
        RestoreStep::CheckCredentials
    } else {
        restore_next(restore_after(oks.drop_last()), oks.last())
    }
}

/// The step a fresh login stands at after the outcomes `oks` of its steps, in order.
pub open spec fn login_after(oks: Seq<bool>) -> LoginStep
    decreases oks.len(),
{
    if oks.len() == 0 {
        LoginStep::BuildClient
    } else {
        login_next(login_after(oks.drop_last()), oks.last())
    }
}

/// Starts a restore from stored credentials: the first thing to find out is
/// whether a credentials file is there.
pub fn restore_login() -> (step: RestoreStep)
    ensures
        step == RestoreStep::CheckCredentials,
{
    RestoreStep::CheckCredentials
}

/// Advances a restore by the outcome of the step that was pending.
///
/// Without a credentials file the restore fails with `NotLoggedIn`, with one
/// that cannot be decoded with `MalformedCredentials`, without a local store
/// with `Store`. A session that the homeserver does not take back, be it at
/// the replay or at the synchronization that follows, fails with
/// `LoginFailed`. A restore that is over stays as it is.
pub fn restore_login_step(step: RestoreStep, ok: bool) -> (next: RestoreStep)
    ensures
        next == restore_next(step, ok),
{
    match step {
        RestoreStep::CheckCredentials => if ok {
            RestoreStep::LoadCredentials
        } else {
            RestoreStep::Failed(Error::NotLoggedIn)
        },
        RestoreStep::LoadCredentials => if ok {
            RestoreStep::BuildClient
        } else {
            RestoreStep::Failed(Error::MalformedCredentials)
        },
        RestoreStep::BuildClient => if ok {
            RestoreStep::RestoreSession
        } else {
            RestoreStep::Failed(Error::Store)
        },
        RestoreStep::RestoreSession => if ok {
            RestoreStep::Sync
        } else {
            RestoreStep::Failed(Error::LoginFailed)
        },
        RestoreStep::Sync => if ok {
            RestoreStep::Restored
        } else {
            RestoreStep::Failed(Error::LoginFailed)
        },
        _ => step,
    }
}

/// The outcome of a restore that is over; `None` while a step is pending.
pub fn restore_outcome(step: RestoreStep) -> (r: Option<Result<(), Error>>)
    ensures
        r is Some <==> step.is_final(),
        step is Restored ==> r == Some(Ok::<(), Error>(())),
        step matches RestoreStep::Failed(e) ==> r == Some(Err::<(), Error>(e)),
{
    match step {
        RestoreStep::Restored => Some(Ok(())),
        RestoreStep::Failed(e) => Some(Err(e)),
        _ => None,
    }
}

/// Starts a fresh login: the client is built first.
pub fn login() -> (step: LoginStep)
    ensures
        step == LoginStep::BuildClient,
{
    LoginStep::BuildClient
}

/// Advances a fresh login by the outcome of the step that was pending.
///
/// Without a local store the login fails with `Store`, a rejection by the
/// homeserver is `LoginFailed`, credentials that cannot be written are a
/// `Store` failure and a synchronization that fails is a `Transport`
/// failure. A login that is over stays as it is.
pub fn login_step(step: LoginStep, ok: bool) -> (next: LoginStep)
    ensures
        next == login_next(step, ok),
{
    match step {
        LoginStep::BuildClient => if ok {
            LoginStep::PasswordLogin
        } else {
            LoginStep::Failed(Error::Store)
        },
        LoginStep::PasswordLogin => if ok {
            LoginStep::SaveCredentials
        } else {
            LoginStep::Failed(Error::LoginFailed)
        },
        LoginStep::SaveCredentials => if ok {
            LoginStep::Sync
        } else {
            LoginStep::Failed(Error::Store)
        },
        LoginStep::Sync => if ok {
            LoginStep::LoggedIn
        } else {
            LoginStep::Failed(Error::Transport)
        },
        _ => step,
    }
}

/// The outcome of a fresh login that is over; `None` while a step is pending.
pub fn login_outcome(step: LoginStep) -> (r: Option<Result<(), Error>>)
    ensures
        r is Some <==> step.is_final(),
        step is LoggedIn ==> r == Some(Ok::<(), Error>(())),
        step matches LoginStep::Failed(e) ==> r == Some(Err::<(), Error>(e)),
{
    match step {
        LoginStep::LoggedIn => Some(Ok(())),
        LoginStep::Failed(e) => Some(Err(e)),
        _ => None,
    }
}

/// A restore tells a missing session from a rejected one: it fails with
/// `NotLoggedIn` only where no credentials file was found, and with
/// `LoginFailed` only where the homeserver did not take the session back.
pub proof fn restore_tells_absent_from_rejected(step: RestoreStep, ok: bool)
    requires
        !step.is_final(),
    ensures
        restore_next(step, ok) == RestoreStep::Failed(Error::NotLoggedIn) <==> step
            == RestoreStep::CheckCredentials && !ok,
        restore_next(step, ok) == RestoreStep::Failed(Error::MalformedCredentials) <==> step
            == RestoreStep::LoadCredentials && !ok,
        restore_next(step, ok) == RestoreStep::Failed(Error::LoginFailed) <==> (step
            == RestoreStep::RestoreSession || step == RestoreStep::Sync) && !ok,
{
}

/// A restore succeeds only through all of its steps: it is restored exactly
/// after five outcomes that are all successes, and the last of them is that
/// of the synchronization.
pub proof fn restore_succeeds_through_every_step(oks: Seq<bool>)
    requires
        oks.len() <= 5,
    ensures
        restore_after(oks) == RestoreStep::Restored <==> oks.len() == 5 && forall|i: int|
            0 <= i < 5 ==> oks[i],
{
    reveal_with_fuel(restore_after, 6);
}

/// A fresh login succeeds only through all of its steps: it is logged in
/// exactly after four outcomes that are all successes, so the credentials
/// were stored before success is reported.
pub proof fn login_succeeds_through_every_step(oks: Seq<bool>)
    requires
        oks.len() <= 4,
    ensures
        login_after(oks) == LoginStep::LoggedIn <==> oks.len() == 4 && forall|i: int|
            0 <= i < 4 ==> oks[i],
        login_after(oks) == LoginStep::Sync ==> login_after(oks.drop_last())
            == LoginStep::SaveCredentials && oks.last(),
{
    reveal_with_fuel(login_after, 5);
}

} // verus!
