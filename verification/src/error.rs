//! The error kinds shared by all operations.

use vstd::prelude::*;
use vstd::string::*;

verus! {

/// Why an operation did not succeed.
#[derive(Clone, Copy, Debug, PartialEq, Eq, Structural)]
pub enum Error {
    /// No usable credentials: nothing was stored, or no session is open.
    NotLoggedIn,
    /// A credentials file is there but does not hold a complete record.
    MalformedCredentials,
    /// The homeserver rejected a fresh or a restored login.
    LoginFailed,
    /// A dispatch was attempted without an established session.
    InvalidClientConnection,
    /// The room identifier is malformed, or names a room that is not joined.
    InvalidRoom,
    /// The attachment has no derivable name.
    InvalidFile,
    /// The verification handshake broke at the protocol level.
    VerificationFailed,
    /// The operator saw different emoji and rejected the pairing.
    VerificationRejected,
    /// A verification step was not answered within its time window.
    VerificationTimeout,
    /// The transport to the homeserver failed or ran out of time.
    Transport,
    /// The local store or the file system failed.
    Store,
}

impl Error {
    /// The text that describes this error to a user.
    pub open spec fn text(self) -> Seq<char> {
        match self {
            Error::NotLoggedIn => "not logged in"@,
            Error::MalformedCredentials => "credentials file is malformed"@,
            Error::LoginFailed => "login failed"@,
            Error::InvalidClientConnection => "invalid client connection"@,
            Error::InvalidRoom => "invalid room"@,
            Error::InvalidFile => "invalid file"@,
            Error::VerificationFailed => "verification failed"@,
            Error::VerificationRejected => "verification rejected"@,
            Error::VerificationTimeout => "verification timed out"@,
            Error::Transport => "transport failure"@,
            Error::Store => "local store failure"@,
        }
    }

    /// Renders the error as user-facing text.
    pub fn message(&self) -> (s: String)
        ensures
            s@ == self.text(),
    {
        match self {
            Error::NotLoggedIn => String::from_str("not logged in"),
            Error::MalformedCredentials => String::from_str("credentials file is malformed"),
            Error::LoginFailed => String::from_str("login failed"),
            Error::InvalidClientConnection => String::from_str("invalid client connection"),
            Error::InvalidRoom => String::from_str("invalid room"),
            Error::InvalidFile => String::from_str("invalid file"),
            Error::VerificationFailed => String::from_str("verification failed"),
            Error::VerificationRejected => String::from_str("verification rejected"),
            Error::VerificationTimeout => String::from_str("verification timed out"),
            Error::Transport => String::from_str("transport failure"),
            Error::Store => String::from_str("local store failure"),
        }
    }
}

} // verus!
