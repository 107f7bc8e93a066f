//! The one channel through which change signals reach every session.
//!
//! It is a bounded `tokio::sync::broadcast` channel of unit values: a receiver
//! sees what is sent after it subscribed, a slow receiver skips the oldest
//! values instead of holding up the sender, and dropping a receiver
//! unsubscribes it.

use vstd::prelude::*;
use tokio::sync::broadcast::{Receiver, Sender};

verus! {

#[verifier::external_type_specification]
#[verifier::external_body]
#[verifier::reject_recursive_types(T)]
pub struct ExSender<T>(Sender<T>);

#[verifier::external_type_specification]
#[verifier::external_body]
#[verifier::reject_recursive_types(T)]
pub struct ExReceiver<T>(Receiver<T>);

/// The channel that a sender sends on.
pub uninterp spec fn sender_channel(tx: Sender<()>) -> int;

/// The channel that a receiver receives from.
pub uninterp spec fn receiver_channel(rx: Receiver<()>) -> int;

/// The capacity that a sender's channel was made with.
pub uninterp spec fn sender_capacity(tx: Sender<()>) -> nat;

/// Relies on `tokio::sync::broadcast::Sender::new`: a sender on a new channel
/// whose buffer is built from `capacity`. It panics when `capacity` is 0 or
/// above `usize::MAX / 2`.
#[verifier::external_body]
fn new_sender(capacity: usize) -> (r: Sender<()>)
    requires
        0 < capacity <= usize::MAX / 2,
    ensures
        sender_capacity(r) == capacity,
{
    Sender::new(capacity)
}

/// Relies on `Clone for tokio::sync::broadcast::Sender`: another sender that
/// shares the same channel.
#[verifier::external_body]
fn clone_sender(tx: &Sender<()>) -> (r: Sender<()>)
    ensures
        sender_channel(r) == sender_channel(*tx),
        sender_capacity(r) == sender_capacity(*tx),
{
    tx.clone()
}

/// Relies on `tokio::sync::broadcast::Sender::send`: `Ok` with the number of
/// receivers subscribed when it was sent, which is at least one, or an error
/// when there are none.
#[verifier::external_body]
fn send_unit(tx: &Sender<()>) -> (r: Option<usize>)
    ensures
        match r {
            Some(n) => n >= 1,
            None => true,
        },
{
    tx.send(()).ok()
}

/// Relies on `tokio::sync::broadcast::Sender::subscribe`: a receiver of what
/// is sent on the sender's channel after this call. It panics only once
/// `usize::MAX >> 2` receivers are alive at the same time, which no memory
/// can hold.
#[verifier::external_body]
fn subscribe_to(tx: &Sender<()>) -> (r: Receiver<()>)
    ensures
        receiver_channel(r) == sender_channel(*tx),
{
    tx.subscribe()
}

/// The number of changes that the server buffers for a slow session.
pub const CHANNEL_CAPACITY: usize = 16;

/// A handle on the server's change channel. Each handle counts the changes
/// announced through it.
pub struct Broadcaster {
    tx: Sender<()>,
    capacity: usize,
    sent: Ghost<nat>,
}

impl Broadcaster {
    #[verifier::type_invariant]
    spec fn capacity_known(&self) -> bool {
        self.capacity as nat == sender_capacity(self.tx)
    }

    /// The channel this handle publishes on.
    pub closed spec fn channel(&self) -> int {
        sender_channel(self.tx)
    }

    /// The capacity the channel was made with.
    pub closed spec fn capacity_spec(&self) -> nat {
        sender_capacity(self.tx)
    }

    /// How many changes were announced through this handle.
    pub closed spec fn sent(&self) -> nat {
        self.sent@
    }

    /// A channel that buffers up to `capacity` changes for a slow receiver.
    pub fn new(capacity: usize) -> (r: Broadcaster)
        requires
            0 < capacity <= usize::MAX / 2,
        ensures
            r.capacity_spec() == capacity,
            r.sent() == 0,
    {
        Broadcaster { tx: new_sender(capacity), capacity, sent: Ghost(0) }
    }

    /// Another handle on the same channel, with a count of its own.
    pub fn share(&self) -> (r: Broadcaster)
        ensures
            r.channel() == self.channel(),
            r.capacity_spec() == self.capacity_spec(),
            r.sent() == 0,
    {
        proof {
            use_type_invariant(self);
        }
        Broadcaster { tx: clone_sender(&self.tx), capacity: self.capacity, sent: Ghost(0) }
    }

    /// The number of changes buffered for a slow receiver.
    pub fn capacity(&self) -> (r: usize)
        ensures
            r == self.capacity_spec(),
    {
        proof {
            use_type_invariant(self);
        }
        self.capacity
    }

    /// Announces one change to every current subscriber, without waiting.
    /// Gives the number of subscribers at that moment, or `None` where there
    /// were none and the change was dropped.
    pub fn publish(&mut self) -> (r: Option<usize>)
        ensures
            final(self).sent() == old(self).sent() + 1,
            final(self).channel() == old(self).channel(),
            final(self).capacity_spec() == old(self).capacity_spec(),
            match r {
                Some(n) => n >= 1,
                None => true,
            },
    {
        proof {
            use_type_invariant(&*self);
        }
        let r = send_unit(&self.tx);
        self.sent = Ghost(self.sent@ + 1);
        r
    }

    /// A new subscription to this channel, which sees the changes published
    /// after this call.
    pub fn subscribe(&self) -> (r: Receiver<()>)
        ensures
            receiver_channel(r) == self.channel(),
    {
        subscribe_to(&self.tx)
    }
}

} // verus!
