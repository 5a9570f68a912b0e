//! Session and verification core of a Matrix client.
//!
//! The crate holds the decisions of the client: how credentials are laid out
//! in their file, how a client is configured, when a synchronization round is
//! made, how an emoji verification proceeds, what is sent to a room, and how
//! a session is torn down. Network and file access stay with the caller: each
//! flow is a function from the step that was pending and the outcome of the
//! outside work to the step that comes next.

pub mod attachment;
pub mod credentials;
pub mod delivery;
pub mod devices;
pub mod error;
pub mod message;
pub mod outside;
pub mod record;
pub mod replace;
pub mod session;
pub mod sync;
pub mod teardown;
pub mod text;
pub mod verification;
