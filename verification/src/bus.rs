//! The message bus: the hub that takes each event once and hands it to
//! every subscription, and what travels over it, an event and the users it
//! is for.
//!
//! The bus does not look at recipients. Every subscription gets every event
//! and keeps its own place in the stream, so that a slow subscriber holds up
//! nobody; one that falls behind by more than the bus keeps loses the oldest
//! events it has not read and goes on with the oldest that is left.

use vstd::prelude::*;
use tokio::sync::broadcast::error::TryRecvError;
use tokio::sync::broadcast::{Receiver, Sender};
use crate::requests::{clone_texts, texts, WsMessageData, WsMessageDataView};
use crate::text::same_text;

verus! {

/// The number of events that the bus keeps for subscribers that lag behind.
pub const MAX_MESSAGES: usize = 100;

/// Whether `id` occurs among `ids`.
pub fn names(ids: &Vec<String>, id: &String) -> (found: bool)
    ensures
        found == texts(ids@).contains(id@),
{
    let mut i: usize = 0;
    while i < ids.len()
        invariant
            i <= ids.len(),
            forall|j: int| 0 <= j < i ==> (#[trigger] texts(ids@)[j]) != id@,
        decreases ids.len() - i,
    {
        if same_text(&ids[i], id) {
            assert(texts(ids@)[i as int] == id@);
            return true;
        }
        i = i + 1;
    }
    false
}

/// An event together with the set of users whose sockets should get it.
#[derive(Debug)]
pub struct WsMessage {
    recipient_ids: Vec<String>,
    data: WsMessageData,
}

/// `WsMessage` as contracts see it.
pub struct WsMessageView {
    pub recipient_ids: Set<Seq<char>>,
    pub data: WsMessageDataView,
}

impl View for WsMessage {
    type V = WsMessageView;

    closed spec fn view(&self) -> WsMessageView {
        WsMessageView { recipient_ids: texts(self.recipient_ids@).to_set(), data: self.data@ }
    }
}

impl WsMessage {
    /// No recipient is listed twice.
    pub closed spec fn wf(&self) -> bool {
        texts(self.recipient_ids@).no_duplicates()
    }

    /// An event for the given members. A member that is named more than
    /// once is one recipient.
    pub fn new(members: &Vec<String>, data: WsMessageData) -> (message: Self)
        ensures
            message.wf(),
            message@ == (WsMessageView { recipient_ids: texts(members@).to_set(), data: data@ }),
    {
        let mut recipient_ids: Vec<String> = Vec::new();
        let mut i: usize = 0;
        while i < members.len()
            invariant
                i <= members.len(),
                texts(recipient_ids@).no_duplicates(),
                texts(recipient_ids@).to_set() == texts(members@).take(i as int).to_set(),
            decreases members.len() - i,
        {
            let ghost before = texts(recipient_ids@);
            let ghost seen = texts(members@).take(i as int);
            let ghost id = members@[i as int]@;
            let known = names(&recipient_ids, &members[i]);
            if !known {
                recipient_ids.push(members[i].clone());
                assert(texts(recipient_ids@) =~= before.push(id));
            }
            proof {
                let after = texts(recipient_ids@);
                let seen_more = texts(members@).take(i + 1);
                assert(seen_more =~= seen.push(id));
                assert forall|x: Seq<char>| after.to_set().contains(x) == seen_more.to_set().contains(
                    x,
                ) by {
                    if after.contains(x) {
                        let k = choose|k: int| 0 <= k < after.len() && after[k] == x;
                        if k < before.len() {
                            assert(before[k] == x);
                            assert(before.to_set().contains(x));
                            assert(seen.contains(x));
                            let m = choose|m: int| 0 <= m < seen.len() && seen[m] == x;
                            assert(seen_more[m] == x);
                        } else {
                            assert(seen_more[i as int] == x);
                        }
                    }
                    if seen_more.contains(x) {
                        let m = choose|m: int| 0 <= m < seen_more.len() && seen_more[m] == x;
                        if m < i {
                            assert(seen[m] == x);
                            assert(seen.to_set().contains(x));
                            assert(before.contains(x));
                            let k = choose|k: int| 0 <= k < before.len() && before[k] == x;
                            assert(after[k] == x);
                        } else if known {
                            assert(before.contains(x));
                        } else {
                            assert(after[before.len() as int] == x);
                        }
                    }
                }
                assert(after.to_set() =~= seen_more.to_set());
            }
            i = i + 1;
        }
        assert(texts(members@).take(members.len() as int) =~= texts(members@));
        WsMessage { recipient_ids, data }
    }

    /// Whether the event is meant for `user_id`.
    pub fn is_for(&self, user_id: &String) -> (wanted: bool)
        ensures
            wanted == self@.recipient_ids.contains(user_id@),
    {
        names(&self.recipient_ids, user_id)
    }

    /// The recipients, each once.
    pub fn recipient_ids(&self) -> (ids: &Vec<String>)
        ensures
            texts(ids@).to_set() == self@.recipient_ids,
            self.wf() ==> texts(ids@).no_duplicates(),
    {
        &self.recipient_ids
    }

    /// The event.
    pub fn data(&self) -> (data: &WsMessageData)
        ensures
            data@ == self@.data,
    {
        &self.data
    }
}

impl Clone for WsMessage {
    fn clone(&self) -> (copy: Self)
        ensures
            copy@ == self@,
            self.wf() ==> copy.wf(),
    {
        WsMessage { recipient_ids: clone_texts(&self.recipient_ids), data: self.data.clone() }
    }
}

/// Trusted: makes `tokio::sync::broadcast::Sender`, the sending half of a
/// broadcast channel, known as a type. Nothing is claimed of its fields.
#[verifier::external_type_specification]
#[verifier::external_body]
#[verifier::reject_recursive_types(T)]
pub struct ExSender<T>(Sender<T>);

/// Trusted: makes `tokio::sync::broadcast::Receiver`, one receiving half of
/// a broadcast channel, known as a type. Nothing is claimed of its fields.
#[verifier::external_type_specification]
#[verifier::external_body]
#[verifier::reject_recursive_types(T)]
pub struct ExReceiver<T>(Receiver<T>);

/// The number of events that a channel was asked to keep when it was made.
pub uninterp spec fn asked_capacity(sender: Sender<WsMessage>) -> nat;

/// Trusted: `tokio::sync::broadcast::channel` makes a channel that keeps at
/// least `capacity` events for receivers that lag. It aborts for a capacity
/// of zero or of more than half of `usize::MAX`. The receiver that it makes
/// along with the sender is let go at once.
#[verifier::external_body]
fn channel(capacity: usize) -> (sender: Sender<WsMessage>)
    requires
        0 < capacity <= usize::MAX / 2,
    ensures
        asked_capacity(sender) == capacity,
{
    tokio::sync::broadcast::channel(capacity).0
}

/// Trusted: `Sender::send` hands a value to the channel and returns the
/// number of receivers that were subscribed at that moment, or fails when
/// there was none. Nothing is claimed of the number: receivers come and go
/// on their own.
#[verifier::external_body]
fn send(sender: &Sender<WsMessage>, message: WsMessage) -> (receivers: Option<usize>) {
    sender.send(message).ok()
}

/// Trusted: `Sender::subscribe` makes a receiver for the values sent from
/// then on.
#[verifier::external_body]
fn subscribe(sender: &Sender<WsMessage>) -> (receiver: Receiver<WsMessage>) {
    sender.subscribe()
}

/// Trusted: `Receiver::try_recv` returns the next value without waiting,
/// or says that none is there yet, that values were lost to lag, or that no
/// sender is left. Nothing is claimed of which: it depends on what others
/// sent.
#[verifier::external_body]
fn try_recv(receiver: &mut Receiver<WsMessage>) -> (delivery: Delivery) {
    match receiver.try_recv() {
        Ok(message) => Delivery::Event(message),
        Err(TryRecvError::Empty) => Delivery::Empty,
        Err(TryRecvError::Lagged(missed)) => Delivery::Lagged(missed),
        Err(TryRecvError::Closed) => Delivery::Closed,
    }
}

/// What the bus has for a subscription that asks.
pub enum Delivery {
    /// The next event.
    Event(WsMessage),
    /// So many events were dropped before the subscription could take them;
    /// the stream goes on with the oldest event that is left.
    Lagged(u64),
    /// No event is waiting.
    Empty,
    /// The bus is gone.
    Closed,
}

/// The hub that publishers hand events to.
pub struct MessageBus {
    sender: Sender<WsMessage>,
}

/// One subscriber's place in the stream of events.
pub struct Subscription {
    receiver: Receiver<WsMessage>,
}

impl MessageBus {
    /// The number of events that the bus was asked to keep.
    pub closed spec fn capacity(&self) -> nat {
        asked_capacity(self.sender)
    }

    /// A bus that keeps `MAX_MESSAGES` events and has no subscription yet.
    pub fn new() -> (bus: Self)
        ensures
            bus.capacity() == MAX_MESSAGES,
    {
        MessageBus { sender: channel(MAX_MESSAGES) }
    }

    /// Hands an event to the bus, without waiting for anyone to take it.
    /// Returns the number of subscriptions at that moment, or `None` when
    /// there was none and the event is dropped.
    pub fn publish(&self, event: WsMessage) -> (subscriptions: Option<usize>) {
        send(&self.sender, event)
    }

    /// A subscription to the events that are published from now on.
    pub fn subscribe(&self) -> (subscription: Subscription) {
        Subscription { receiver: subscribe(&self.sender) }
    }
}

impl Subscription {
    /// The receiving half of the channel that the subscription reads from.
    pub closed spec fn receiver(self) -> Receiver<WsMessage> {
        self.receiver
    }

    /// Takes the next event off the stream, if one is waiting.
    pub fn next(&mut self) -> (delivery: Delivery) {
        try_recv(&mut self.receiver)
    }

    /// The receiving half itself, with its place in the stream, for a
    /// caller that wants to wait on it.
    pub fn into_receiver(self) -> (receiver: Receiver<WsMessage>)
        ensures
            receiver == self.receiver(),
    {
        self.receiver
    }
}

} // verus!
