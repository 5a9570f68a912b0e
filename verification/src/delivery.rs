//! Delivery of planned content: the outside steps and what their failure means.

use vstd::prelude::*;
use crate::error::Error;

verus! {

/// What is being delivered.
#[derive(Clone, Copy, Debug, PartialEq, Eq, Structural)]
pub enum Payload {
    /// A text message: nothing is read from disk.
    Message,
    /// A file attachment: the file is read into memory first.
    File,
}

/// The outside work that is pending in a delivery, or how the delivery ended.
#[derive(Clone, Copy, Debug, PartialEq, Eq, Structural)]
pub enum DeliveryStep {
    /// Read the whole file into memory.
    ReadFile,
    /// Resolve the room identifier to a joined room.
    ResolveRoom,
    /// Send the content to the resolved room.
    Send,
    /// The content was sent.
    Delivered,
    /// The delivery failed.
    Failed(Error),
}

impl DeliveryStep {
    /// Whether nothing more follows this step.
    pub open spec fn is_final(self) -> bool {
        self is Delivered || self is Failed
    }
}

/// The first step of a delivery.
pub open spec fn delivery_first(payload: Payload) -> DeliveryStep {
    match payload {
        Payload::Message => DeliveryStep::ResolveRoom,
        Payload::File => DeliveryStep::ReadFile,
    }
}

/// The step that follows `step` once its outside work has succeeded (`ok`)
/// or failed.
pub open spec fn delivery_next(step: DeliveryStep, ok: bool) -> DeliveryStep {
    match step {
        DeliveryStep::ReadFile => if ok {
            DeliveryStep::ResolveRoom
        } else {
            DeliveryStep::Failed(Error::Store)
        },
        DeliveryStep::ResolveRoom => if ok {
            DeliveryStep::Send
        } else {
            DeliveryStep::Failed(Error::InvalidRoom)
        },
        DeliveryStep::Send => if ok {
            DeliveryStep::Delivered
        } else {
            DeliveryStep::Failed(Error::Transport)
        },
        _ => step,
    }
}

/// Starts a delivery: a file is read first, a message goes straight to the
/// resolution of its room.
pub fn deliver(payload: Payload) -> (step: DeliveryStep)
    ensures
        step == delivery_first(payload),
{
    match payload {
        Payload::Message => DeliveryStep::ResolveRoom,
        Payload::File => DeliveryStep::ReadFile,
    }
}

/// Advances a delivery by the outcome of the step that was pending. A file
/// that cannot be read is a store failure, a room that is not joined is an
/// invalid room, and a send that fails is a transport failure. A delivery
/// that is over stays as it is.
pub fn deliver_step(step: DeliveryStep, ok: bool) -> (next: DeliveryStep)
    ensures
        next == delivery_next(step, ok),
{
    match step {
        DeliveryStep::ReadFile => if ok {
            DeliveryStep::ResolveRoom
        } else {
            DeliveryStep::Failed(Error::Store)
        },
        DeliveryStep::ResolveRoom => if ok {
            DeliveryStep::Send
        } else {
            DeliveryStep::Failed(Error::InvalidRoom)
        },
        DeliveryStep::Send => if ok {
            DeliveryStep::Delivered
        } else {
            DeliveryStep::Failed(Error::Transport)
        },
        _ => step,
    }
}

/// The outcome of a delivery that is over; `None` while a step is pending.
pub fn delivery_outcome(step: DeliveryStep) -> (r: Option<Result<(), Error>>)
    ensures
        r is Some <==> step.is_final(),
        step is Delivered ==> r == Some(Ok::<(), Error>(())),
        step matches DeliveryStep::Failed(e) ==> r == Some(Err::<(), Error>(e)),
{
    match step {
        DeliveryStep::Delivered => Some(Ok(())),
        DeliveryStep::Failed(e) => Some(Err(e)),
        _ => None,
    }
}

/// A room that cannot be resolved is reported as an invalid room and as
/// nothing else, and nothing but the resolution of the room is: a failed
/// send is a transport failure.
pub proof fn unresolved_room_is_invalid_room(step: DeliveryStep, ok: bool)
    ensures
        delivery_next(DeliveryStep::ResolveRoom, false) == DeliveryStep::Failed(Error::InvalidRoom),
        !step.is_final() && delivery_next(step, ok) == DeliveryStep::Failed(Error::InvalidRoom)
            ==> step == DeliveryStep::ResolveRoom && !ok,
        delivery_next(DeliveryStep::Send, false) == DeliveryStep::Failed(Error::Transport),
{
}

/// Nothing is sent before the room is resolved: the send step is entered
/// only by a successful resolution.
pub proof fn send_only_to_resolved_room(step: DeliveryStep, ok: bool)
    ensures
        step != DeliveryStep::Send && delivery_next(step, ok) == DeliveryStep::Send ==> step
            == DeliveryStep::ResolveRoom && ok,
{
}

} // verus!
