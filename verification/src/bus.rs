//! The fan-out bus: the semantic core of message distribution.
//!
//! One publish handle is shared by every connection; each connection holds
//! one private subscription. Publishing never blocks and never fails, even
//! with zero subscribers. A subscription that falls behind the fixed
//! retention capacity is told how many messages it missed and resumes from
//! the oldest still-retained one — it is never blocked indefinitely and
//! never silently desyncs.
//!
//! This module is the verified model of those semantics: the bus keeps the
//! publish log and each subscription is a position in it. The process that
//! serves live connections drives an asynchronous bus with the same
//! contract; the state machine in [`crate::client`] is proved against this
//! model.

use vstd::prelude::*;

verus! {

/// Retention capacity the server constructs its bus with.
pub const DEFAULT_CAPACITY: usize = 10;

/// One relayed unit: an inbound line after transformation, attributed to
/// the connection that produced it. Immutable once constructed.
#[derive(Clone)]
pub struct Message {
    /// Identity of the originating connection, minted at accept time;
    /// used to exclude the sender from its own broadcast.
    pub origin: u64,
    /// The full broadcast payload, line terminator included.
    pub payload: String,
    /// The sender's wire label (its peer port) in decimal.
    pub from: String,
}

/// Two messages with the same attribution and the same text.
pub open spec fn msg_matches(a: Message, b: Message) -> bool {
    &&& a.origin == b.origin
    &&& a.payload@ == b.payload@
    &&& a.from@ == b.from@
}

impl Message {
    /// An identical message, to hand one more subscriber its own copy.
    pub fn duplicate(&self) -> (r: Message)
        ensures
            msg_matches(r, *self),
    {
        Message {
            origin: self.origin,
            payload: self.payload.clone(),
            from: self.from.clone(),
        }
    }
}

/// The bus itself: a publish log and the retention capacity fixed at
/// construction.
pub struct Bus {
    capacity: usize,
    log: Vec<Message>,
}

/// One subscription: a private position in the bus's publish log. Dropping
/// a subscription is unsubscribing; the bus itself is untouched by it.
pub struct Subscription {
    cursor: usize,
}

/// The outcome of asking a subscription for its next message.
pub enum RecvOutcome {
    /// Nothing was published past this subscription's position yet; a live
    /// receiver suspends here instead of spinning.
    Pending,
    /// The subscription fell behind the retention capacity: this many
    /// messages were dropped before it could read them. Delivery resumes
    /// from the oldest retained message.
    Lagged(usize),
    /// The next message, in publish order.
    Delivered(Message),
}

impl Subscription {
    /// The position in the publish log this subscription has consumed up to.
    pub closed spec fn pos(&self) -> nat {
        self.cursor as nat
    }
}

impl Bus {
    /// Every message ever published, in publish order.
    pub closed spec fn log(&self) -> Seq<Message> {
        self.log@
    }

    /// The retention capacity fixed at construction.
    pub closed spec fn cap(&self) -> nat {
        self.capacity as nat
    }

    /// A bus retains at least one message.
    pub open spec fn wf(&self) -> bool {
        self.cap() >= 1
    }

    /// A subscription position never points past the publish log.
    pub open spec fn valid_sub(&self, sub: &Subscription) -> bool {
        sub.pos() <= self.log().len()
    }

    /// A fresh bus with the given retention capacity.
    pub fn new(capacity: usize) -> (bus: Bus)
        requires
            capacity >= 1,
        ensures
            bus.wf(),
            bus.cap() == capacity,
            bus.log() == Seq::<Message>::empty(),
    {
        let bus = Bus { capacity, log: Vec::new() };
        proof {
            assert(bus.log() =~= Seq::<Message>::empty());
        }
        bus
    }

    /// Publishes a message: appends it to the log and returns at once.
    /// It never blocks and never fails, whatever the number or pace of
    /// subscribers; with none, the message is simply never delivered.
    pub fn publish(&mut self, m: Message)
        ensures
            final(self).log() == old(self).log().push(m),
            final(self).cap() == old(self).cap(),
    {
        self.log.push(m);
    }

    /// A fresh, independent subscription, positioned at the present end of
    /// the log: it sees exactly the messages published after this call.
    pub fn subscribe(&self) -> (sub: Subscription)
        ensures
            sub.pos() == self.log().len(),
            self.valid_sub(&sub),
    {
        Subscription { cursor: self.log.len() }
    }

    /// Advances a subscription by one receive attempt. In publish order,
    /// every retained message is delivered exactly once; a subscription
    /// more than `cap()` behind is told how many messages it missed and
    /// repositioned to the oldest retained one; one that has consumed the
    /// whole log is told to wait.
    pub fn receive(&self, sub: &mut Subscription) -> (out: RecvOutcome)
        requires
            self.wf(),
            self.valid_sub(old(sub)),
        ensures
            self.valid_sub(final(sub)),
            ({
                let behind = self.log().len() - old(sub).pos();
                if behind == 0 {
                    &&& out is Pending
                    &&& final(sub).pos() == old(sub).pos()
                } else if behind > self.cap() {
                    &&& (out matches RecvOutcome::Lagged(n) && n == behind - self.cap())
                    &&& final(sub).pos() == self.log().len() - self.cap()
                } else {
                    &&& (out matches RecvOutcome::Delivered(m) && msg_matches(
                        m,
                        self.log()[old(sub).pos() as int],
                    ))
                    &&& final(sub).pos() == old(sub).pos() + 1
                }
            }),
    {
        let len = self.log.len();
        if sub.cursor == len {
            RecvOutcome::Pending
        } else if len - sub.cursor > self.capacity {
            let oldest_retained = len - self.capacity;
            let missed = oldest_retained - sub.cursor;
            sub.cursor = oldest_retained;
            RecvOutcome::Lagged(missed)
        } else {
            let m = self.log[sub.cursor].duplicate();
            sub.cursor = sub.cursor + 1;
            RecvOutcome::Delivered(m)
        }
    }
}

} // verus!
