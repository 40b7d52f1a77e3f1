//! The broadcast hub: one fan-out channel shared by every connection. Each
//! connection subscribes once; every published message goes to every
//! subscriber, the publisher included.
use crate::message::ChatMessage;
use std::sync::Arc;
use tokio::sync::broadcast::Sender;
use vstd::prelude::*;

verus! {

#[verifier::external_type_specification]
#[verifier::external_body]
#[verifier::reject_recursive_types(T)]
pub struct ExSender<T>(Sender<T>);

/// How many undelivered messages the hub keeps for each subscriber before the
/// oldest are dropped for it and it is told that it lagged.
pub const FANOUT_CAPACITY: usize = 100;

/// The capacity per subscriber that a fan-out sender was made with.
pub uninterp spec fn fanout_capacity(s: Sender<ChatMessage>) -> nat;

/// How many receivers are subscribed to a fan-out sender.
pub uninterp spec fn fanout_subscribers(s: Sender<ChatMessage>) -> nat;

/// Relies on tokio::sync::broadcast::Sender::new: a sender made with this
/// capacity and no receiver (so nothing it is sent is kept). It panics on a
/// capacity of zero or above `usize::MAX / 2`.
#[verifier::external_body]
fn fanout_sender(capacity: usize) -> (r: Sender<ChatMessage>)
    requires
        0 < capacity <= usize::MAX / 2,
    ensures
        fanout_capacity(r) == capacity,
        fanout_subscribers(r) == 0,
{
    Sender::new(capacity)
}

/// What every connection handler is given: the hub's sending half, from which
/// it subscribes and to which it publishes.
pub struct AppState {
    pub tx: Sender<ChatMessage>,
}

impl AppState {
    /// A hub with no subscribers yet and `FANOUT_CAPACITY` slots per
    /// subscriber.
    pub fn new() -> (r: Arc<AppState>)
        ensures
            fanout_capacity(r.tx) == FANOUT_CAPACITY,
            fanout_subscribers(r.tx) == 0,
    {
        let tx = fanout_sender(FANOUT_CAPACITY);
        Arc::new(AppState { tx })
    }
}

} // verus!
