//! The channel over which the server hands rendered buffers to its clients.
//!
//! A channel is shared: each of its handles sees what is sent through any of the others, so the
//! value of a handle stands for the channel and not for what the channel holds. What is done to a
//! channel is said by the calls that were made: [`opened`], [`published`] and [`subscribed`] say
//! that a call with these arguments gave that result.

use tokio::sync::broadcast::error::SendError;
use tokio::sync::broadcast::{Receiver, Sender};
use vstd::prelude::*;

verus! {

/// How many messages a channel keeps for a client that is behind.
pub const CAPACITY: usize = 16;

/// `tokio::sync::broadcast::Sender`, a handle through which messages are sent.
#[verifier::external_type_specification]
#[verifier::external_body]
#[verifier::reject_recursive_types(T)]
pub struct ExSender<T>(tokio::sync::broadcast::Sender<T>);

/// `tokio::sync::broadcast::Receiver`, a handle through which messages arrive.
#[verifier::external_type_specification]
#[verifier::external_body]
#[verifier::reject_recursive_types(T)]
pub struct ExReceiver<T>(tokio::sync::broadcast::Receiver<T>);

/// `tokio::sync::broadcast::error::SendError`, which gives a message back that nobody receives.
#[verifier::external_type_specification]
#[verifier::reject_recursive_types(T)]
pub struct ExSendError<T>(tokio::sync::broadcast::error::SendError<T>);

/// `tokio::sync::broadcast::channel`: opens a channel that keeps `capacity` messages. The
/// capacities that it panics on are left out.
pub assume_specification<T: Clone>[ tokio::sync::broadcast::channel::<T> ](
    capacity: usize,
) -> (handles: (Sender<T>, Receiver<T>))
    requires
        0 < capacity <= usize::MAX / 2,
;

/// `Sender::clone`: another handle of the same channel.
pub assume_specification<T>[ <Sender<T> as Clone>::clone ](tx: &Sender<T>) -> (handle: Sender<T>)
    ensures
        handle == *tx,
;

/// `Sender::send`: hands a message to all clients that are subscribed, and tells how many they
/// are. Where there is none, the message comes back.
pub assume_specification<T>[ Sender::<T>::send ](tx: &Sender<T>, value: T) -> (outcome: Result<
    usize,
    SendError<T>,
>)
    ensures
        match outcome {
            Ok(clients) => clients > 0,
            Err(back) => back.0 == value,
        },
;

/// `Sender::subscribe`: a new receiver on the channel. Nothing is said of what will arrive there:
/// that depends on what is sent, and on how fast it is read.
pub assume_specification<T>[ Sender::<T>::subscribe ](tx: &Sender<T>) -> (rx: Receiver<T>);

/// Whether opening a channel for `capacity` messages gave the handle `tx`.
pub open spec fn opened<T: Clone>(capacity: usize, tx: Sender<T>) -> bool {
    exists|rx: Receiver<T>|
        #[trigger] call_ensures(tokio::sync::broadcast::channel::<T>, (capacity,), (tx, rx))
}

/// Whether sending `value` through `tx` had that `outcome`.
pub open spec fn sent<T>(
    tx: Sender<T>,
    value: T,
    outcome: Result<usize, SendError<T>>,
) -> bool {
    call_ensures(Sender::<T>::send, (&tx, value), outcome)
}

/// Whether `value` was sent through `tx`.
pub open spec fn published<T>(tx: Sender<T>, value: T) -> bool {
    exists|outcome: Result<usize, SendError<T>>| sent(tx, value, outcome)
}

/// Whether `rx` came of subscribing to the channel of `tx`.
pub open spec fn subscribed<T>(tx: Sender<T>, rx: Receiver<T>) -> bool {
    call_ensures(Sender::<T>::subscribe, (&tx,), rx)
}

/// The end of a channel that clients subscribe to. Nothing can be sent from here.
#[verifier::reject_recursive_types(T)]
pub struct Feed<T> {
    tx: Sender<T>,
}

impl<T> Feed<T> {
    /// The channel.
    pub closed spec fn channel(self) -> Sender<T> {
        self.tx
    }

    /// Subscribes a client.
    pub fn subscribe(&self) -> (rx: Receiver<T>)
        ensures
            subscribed(self.channel(), rx),
    {
        self.tx.subscribe()
    }
}

impl<T> Clone for Feed<T> {
    /// The same end of the same channel.
    fn clone(&self) -> (feed: Self)
        ensures
            feed == *self,
    {
        Feed { tx: self.tx.clone() }
    }
}

/// The end of a channel that messages are sent from, and the only one. It keeps account of them.
#[verifier::reject_recursive_types(T)]
pub struct Outbox<T> {
    tx: Sender<T>,
    log: Ghost<Seq<T>>,
}

impl<T> Outbox<T> {
    /// The channel.
    pub closed spec fn channel(self) -> Sender<T> {
        self.tx
    }

    /// The messages that were sent, in order.
    pub closed spec fn log(self) -> Seq<T> {
        self.log@
    }

    /// Opens a channel.
    pub fn open() -> (outbox: Self) where T: Clone
        ensures
            opened(CAPACITY, outbox.channel()),
            outbox.log() == Seq::<T>::empty(),
    {
        let (tx, rx) = tokio::sync::broadcast::channel::<T>(CAPACITY);
        assert(call_ensures(tokio::sync::broadcast::channel::<T>, (CAPACITY,), (tx, rx)));
        Outbox { tx, log: Ghost(Seq::empty()) }
    }

    /// Sends a message, whether or not there is a client to receive it.
    pub fn send(&mut self, message: T)
        ensures
            published(old(self).channel(), message),
            final(self).channel() == old(self).channel(),
            final(self).log() == old(self).log().push(message),
    {
        let outcome = self.tx.send(message);
        assert(sent(self.tx, message, outcome));
        self.log = Ghost(self.log@.push(message));
    }

    /// The end to subscribe to.
    pub fn feed(&self) -> (feed: Feed<T>)
        ensures
            feed.channel() == self.channel(),
    {
        Feed { tx: self.tx.clone() }
    }
}

/// A message that is sent goes through the channel as it is, and is put on record once; the channel
/// stays the same.
pub proof fn messages_go_through_the_channel<T>(outbox: &mut Outbox<T>, message: T)
    requires
        call_ensures(Outbox::<T>::send, (outbox, message), ()),
    ensures
        exists|outcome: Result<usize, SendError<T>>| #[trigger]
            call_ensures(Sender::<T>::send, (&old(outbox).channel(), message), outcome),
        final(outbox).channel() == old(outbox).channel(),
        final(outbox).log().len() == old(outbox).log().len() + 1,
        final(outbox).log().last() == message,
        final(outbox).log().drop_last() == old(outbox).log(),
{
    assert(published(old(outbox).channel(), message));
    let outcome = choose|outcome: Result<usize, SendError<T>>| sent(
        old(outbox).channel(),
        message,
        outcome,
    );
    assert(call_ensures(Sender::<T>::send, (&old(outbox).channel(), message), outcome));
    assert(final(outbox).log().drop_last() =~= old(outbox).log());
}

/// A channel that was just opened keeps sixteen messages, and nothing was sent through it.
pub proof fn channels_open_empty<T: Clone>(outbox: Outbox<T>)
    requires
        call_ensures(Outbox::<T>::open, (), outbox),
    ensures
        exists|rx: Receiver<T>| #[trigger]
            call_ensures(
                tokio::sync::broadcast::channel::<T>,
                (16usize,),
                (outbox.channel(), rx),
            ),
        outbox.log().len() == 0,
{
}

/// Whoever subscribes at an end of a channel, or at another one like it, is subscribed to what is
/// sent from its outbox.
pub proof fn subscribers_hear_the_outbox<T>(
    outbox: Outbox<T>,
    feed: Feed<T>,
    again: Feed<T>,
    rx: Receiver<T>,
)
    requires
        call_ensures(Outbox::<T>::feed, (&outbox,), feed),
        call_ensures(<Feed<T> as Clone>::clone, (&feed,), again),
        call_ensures(Feed::<T>::subscribe, (&again,), rx),
    ensures
        call_ensures(Sender::<T>::subscribe, (&outbox.channel(),), rx),
{
}

} // verus!
