//! What the WebSocket connection to one animation client does next, given
//! what just happened on it: the decisions of its loop, apart from the I/O.

use vstd::prelude::*;

verus! {

/// What happened on a connection.
pub enum ConnEvent {
    /// A batch of events arrived from the parser.
    BatchArrived,
    /// No batch arrived while waiting.
    NoBatch,
    /// The parser side dropped the subscription.
    Unsubscribed,
    /// The client sent a close frame.
    ClientClosed,
    /// The client sent some other message.
    ClientMessage,
    /// Reading from the client timed out or would block.
    ReadTimedOut,
    /// Reading from the client failed otherwise.
    ReadFailed,
}

/// What the connection does next.
pub enum ConnAction {
    /// Send the batch and every batch already queued, then wait for more.
    Forward,
    /// Look for a message from the client.
    ReadClient,
    /// Go back to waiting for batches.
    Wait,
    /// Close the connection.
    Stop,
}

/// The next action after an event: batches are forwarded; with none, the
/// client is read; a lost subscription, a close frame or a failed read ends
/// the connection; anything else goes back to waiting.
pub open spec fn connection_action(ev: ConnEvent) -> ConnAction {
    if ev is BatchArrived {
        ConnAction::Forward
    } else if ev is NoBatch {
        ConnAction::ReadClient
    } else if ev is Unsubscribed || ev is ClientClosed || ev is ReadFailed {
        ConnAction::Stop
    } else {
        ConnAction::Wait
    }
}

/// Decide what the connection does after `ev`.
pub fn connection_step(ev: ConnEvent) -> (a: ConnAction)
    ensures
        a == connection_action(ev),
{
    match ev {
        ConnEvent::BatchArrived => ConnAction::Forward,
        ConnEvent::NoBatch => ConnAction::ReadClient,
        ConnEvent::Unsubscribed => ConnAction::Stop,
        ConnEvent::ClientClosed => ConnAction::Stop,
        ConnEvent::ClientMessage => ConnAction::Wait,
        ConnEvent::ReadTimedOut => ConnAction::Wait,
        ConnEvent::ReadFailed => ConnAction::Stop,
    }
}

} // verus!
