//! The fetch channel: a single-producer, single-consumer handoff from the
//! background fetch task to the render loop. The consumer side never blocks;
//! the producer side is consumed by its one send, so a task cannot send a
//! second message. Built on `std::sync::mpsc`, which Verus does not model:
//! the three small wrappers below are the trusted boundary.

use vstd::prelude::*;
use std::sync::mpsc::{channel, Receiver, Sender, TryRecvError};
use crate::profile::Profile;
use crate::status::Poll;

verus! {

#[verifier::external_type_specification]
#[verifier::external_body]
#[verifier::reject_recursive_types(T)]
pub struct ExSender<T>(Sender<T>);

#[verifier::external_type_specification]
#[verifier::external_body]
#[verifier::reject_recursive_types(T)]
pub struct ExReceiver<T>(Receiver<T>);

/// Relies on `std::sync::mpsc::channel`: a fresh asynchronous channel with
/// an unbounded buffer, whose two endpoints are connected to each other and
/// to nothing else.
#[verifier::external_body]
fn new_channel() -> (endpoints: (Sender<Option<Profile>>, Receiver<Option<Profile>>)) {
    channel()
}

/// Relies on `std::sync::mpsc::Sender::send`: never blocks, since the buffer
/// is unbounded; queues the message and returns `Ok` unless the receiver has
/// been dropped, in which case the message is dropped and `Err` comes back —
/// it never panics.
#[verifier::external_body]
fn send_raw(tx: &Sender<Option<Profile>>, message: Option<Profile>) -> (delivered: bool) {
    match tx.send(message) {
        Ok(()) => true,
        Err(_) => false,
    }
}

/// Relies on `std::sync::mpsc::Receiver::try_recv`: never blocks and never
/// panics; hands out the oldest queued message if one is waiting, reports
/// `Empty` when none is queued but a sender is still attached, and
/// `Disconnected` when none is queued and every sender is gone.
#[verifier::external_body]
fn try_recv_raw(rx: &Receiver<Option<Profile>>) -> (poll: Poll) {
    match rx.try_recv() {
        Ok(message) => Poll::Message(message),
        Err(TryRecvError::Empty) => Poll::Empty,
        Err(TryRecvError::Disconnected) => Poll::Closed,
    }
}

/// The producer endpoint, owned by exactly one fetch task.
pub struct FetchSender {
    tx: Sender<Option<Profile>>,
}

/// The consumer endpoint, owned by the render loop.
pub struct FetchReceiver {
    rx: Receiver<Option<Profile>>,
}

/// Open a fresh fetch channel: one producer endpoint for the task, one
/// consumer endpoint for the render loop.
pub fn fetch_channel() -> (endpoints: (FetchSender, FetchReceiver)) {
    let (tx, rx) = new_channel();
    (FetchSender { tx }, FetchReceiver { rx })
}

impl FetchSender {
    /// Hand the session's one message to the render loop. The sender is
    /// consumed, so a task can send at most once, by construction. Returns
    /// whether a receiver was still attached to take the message; a lost
    /// message is reported, never raised.
    pub fn send(self, message: Option<Profile>) -> (delivered: bool) {
        send_raw(&self.tx, message)
    }
}

impl FetchReceiver {
    /// One non-blocking poll: a queued message if one arrived, otherwise
    /// whether the channel is still open. Safe to call any number of times,
    /// in a loop that must never stall.
    pub fn try_receive(&self) -> (poll: Poll) {
        try_recv_raw(&self.rx)
    }
}

} // verus!
