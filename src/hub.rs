use vstd::prelude::*;
use std::collections::VecDeque;
use crate::message::{Message, MessageView};

verus! {

/// The retained-history size used when nothing else is configured.
pub const DEFAULT_CAPACITY: usize = 1024;

/// The hub as a mathematical value: every message it has accepted, in order,
/// the size of its retained history, how many subscriptions are live, and
/// whether it has been shut down.
pub struct HubView {
    pub history: Seq<MessageView>,
    pub capacity: nat,
    pub subscribers: nat,
    pub closed: bool,
}

/// What one receive call observes.
pub enum Delivery {
    Got(MessageView),
    Lagged(nat),
    Empty,
    Closed,
}

/// How many of the accepted messages are still retained.
pub open spec fn retained_count(v: HubView) -> nat {
    if v.history.len() <= v.capacity {
        v.history.len()
    } else {
        v.capacity
    }
}

/// Position in the history of the oldest retained message.
pub open spec fn oldest(v: HubView) -> nat {
    (v.history.len() - retained_count(v)) as nat
}

/// Publishing: with no live subscription the message is dropped, otherwise it
/// is appended to the history.
pub open spec fn publish_spec(v: HubView, m: MessageView) -> HubView {
    if v.subscribers == 0 {
        v
    } else {
        HubView { history: v.history.push(m), ..v }
    }
}

/// What a publish returns: the number of live subscriptions, or that there
/// was none.
pub open spec fn publish_result(v: HubView) -> Result<usize, NoSubscribers> {
    if v.subscribers == 0 {
        Err(NoSubscribers)
    } else {
        Ok(v.subscribers as usize)
    }
}

/// Publishing several messages one after the other.
pub open spec fn publish_all(v: HubView, ms: Seq<MessageView>) -> HubView
    decreases ms.len(),
{
    if ms.len() == 0 {
        v
    } else {
        publish_spec(publish_all(v, ms.drop_last()), ms.last())
    }
}

/// Subscribing adds one live subscription and leaves the history as it is.
pub open spec fn subscribe_spec(v: HubView) -> HubView {
    HubView { subscribers: v.subscribers + 1, ..v }
}

/// A receive with cursor `k`: what it observes, and the cursor afterwards.
/// A cursor behind the retained history skips forward to the oldest retained
/// message; one at the end of the history waits, or ends once the hub is
/// closed.
pub open spec fn receive_spec(v: HubView, k: nat) -> (Delivery, nat) {
    if k < oldest(v) {
        (Delivery::Lagged((oldest(v) - k) as nat), oldest(v))
    } else if k < v.history.len() {
        (Delivery::Got(v.history[k as int]), k + 1)
    } else if v.closed {
        (Delivery::Closed, k)
    } else {
        (Delivery::Empty, k)
    }
}

/// Returned by a publish that found no live subscription.
#[derive(Debug, PartialEq, Eq, Structural)]
pub struct NoSubscribers;

/// A consumer's cursor into the hub's stream: the position of the next
/// message it will receive.
pub struct Subscription {
    next: u64,
}

impl View for Subscription {
    type V = nat;

    closed spec fn view(&self) -> nat {
        self.next as nat
    }
}

/// The outcome of one receive call.
#[derive(Debug, PartialEq, Eq)]
pub enum Received {
    /// The next message for this subscription.
    Message(Message),
    /// The subscription fell behind; this many messages were skipped.
    Lagged(u64),
    /// Nothing new yet.
    Empty,
    /// The hub is shut down and this subscription has seen everything.
    Closed,
}

impl View for Received {
    type V = Delivery;

    open spec fn view(&self) -> Delivery {
        match self {
            Received::Message(m) => Delivery::Got(m@),
            Received::Lagged(n) => Delivery::Lagged(*n as nat),
            Received::Empty => Delivery::Empty,
            Received::Closed => Delivery::Closed,
        }
    }
}

/// An in-memory broadcast point with a bounded retained history.
pub struct Hub {
    retained: VecDeque<Message>,
    capacity: usize,
    published: u64,
    subscribers: usize,
    closed: bool,
    history: Ghost<Seq<MessageView>>,
}

impl View for Hub {
    type V = HubView;

    closed spec fn view(&self) -> HubView {
        HubView {
            history: self.history@,
            capacity: self.capacity as nat,
            subscribers: self.subscribers as nat,
            closed: self.closed,
        }
    }
}

impl Hub {
    /// The retained messages are the last `retained_count` of the history.
    pub closed spec fn wf(&self) -> bool {
        &&& self.capacity > 0
        &&& self.published as nat == self.history@.len()
        &&& self.retained@.len() == retained_count(self@)
        &&& forall|i: int|
            0 <= i < self.retained@.len() ==> (#[trigger] self.retained@[i])@
                == self.history@[oldest(self@) + i]
    }

    /// An open hub with no subscriptions and an empty history.
    pub fn new(capacity: usize) -> (h: Hub)
        requires
            capacity > 0,
        ensures
            h.wf(),
            h@ == (HubView { history: Seq::empty(), capacity: capacity as nat, subscribers: 0, closed: false }),
    {
        Hub {
            retained: VecDeque::new(),
            capacity,
            published: 0,
            subscribers: 0,
            closed: false,
            history: Ghost(Seq::empty()),
        }
    }

    /// Makes `msg` available to every live subscription, and returns how many
    /// there are.
    pub fn publish(&mut self, msg: Message) -> (r: Result<usize, NoSubscribers>)
        requires
            old(self).wf(),
            old(self)@.history.len() < u64::MAX,
        ensures
            final(self).wf(),
            final(self)@ == publish_spec(old(self)@, msg@),
            r == publish_result(old(self)@),
    {
        if self.subscribers == 0 {
            return Err(NoSubscribers);
        }
        let ghost m = msg@;
        let ghost before = self.retained@;
        if self.retained.len() == self.capacity {
            self.retained.pop_front();
        }
        self.retained.push_back(msg);
        self.published = self.published + 1;
        self.history = Ghost(self.history@.push(m));
        proof {
            let v = self@;
            assert forall|i: int| 0 <= i < self.retained@.len() implies (#[trigger] self.retained@[i])@
                == self.history@[oldest(v) + i] by {
                if i + 1 < self.retained@.len() {
                    if before.len() == self.capacity {
                        assert(self.retained@[i] == before[i + 1]);
                    } else {
                        assert(self.retained@[i] == before[i]);
                    }
                }
            }
        }
        Ok(self.subscribers)
    }

    /// A new subscription, which sees only what is published from now on.
    pub fn subscribe(&mut self) -> (s: Subscription)
        requires
            old(self).wf(),
            old(self)@.subscribers < usize::MAX,
        ensures
            final(self).wf(),
            final(self)@ == subscribe_spec(old(self)@),
            s@ == old(self)@.history.len(),
    {
        self.subscribers = self.subscribers + 1;
        Subscription { next: self.published }
    }

    /// Ends a subscription.
    pub fn unsubscribe(&mut self, sub: Subscription)
        requires
            old(self).wf(),
        ensures
            final(self).wf(),
            final(self)@ == (HubView {
                subscribers: if old(self)@.subscribers > 0 { (old(self)@.subscribers - 1) as nat } else { 0 },
                ..old(self)@
            }),
    {
        if self.subscribers > 0 {
            self.subscribers = self.subscribers - 1;
        }
    }

    /// Shuts the hub down: subscriptions end once they have drained it.
    pub fn close(&mut self)
        requires
            old(self).wf(),
        ensures
            final(self).wf(),
            final(self)@ == (HubView { closed: true, ..old(self)@ }),
    {
        self.closed = true;
    }

    /// Takes the next message for `sub`, or says why there is none.
    pub fn receive(&self, sub: &mut Subscription) -> (r: Received)
        requires
            self.wf(),
        ensures
            (r@, final(sub)@) == receive_spec(self@, old(sub)@),
    {
        let len = self.retained.len() as u64;
        let first: u64 = self.published - len;
        let k: u64 = sub.next;
        if k < first {
            sub.next = first;
            Received::Lagged(first - k)
        } else if k < self.published {
            let m = self.retained[(k - first) as usize].clone();
            sub.next = k + 1;
            Received::Message(m)
        } else if self.closed {
            Received::Closed
        } else {
            Received::Empty
        }
    }

    pub fn subscriber_count(&self) -> (n: usize)
        requires
            self.wf(),
        ensures
            n as nat == self@.subscribers,
    {
        self.subscribers
    }

    pub fn published_count(&self) -> (n: u64)
        requires
            self.wf(),
        ensures
            n as nat == self@.history.len(),
    {
        self.published
    }

    pub fn capacity(&self) -> (n: usize)
        ensures
            n as nat == self@.capacity,
    {
        self.capacity
    }

    pub fn is_closed(&self) -> (b: bool)
        ensures
            b == self@.closed,
    {
        self.closed
    }
}

/// With a live subscription, publishing several messages appends them all.
pub proof fn lemma_publish_all(v: HubView, ms: Seq<MessageView>)
    requires
        v.subscribers > 0,
    ensures
        publish_all(v, ms) == (HubView { history: v.history + ms, ..v }),
    decreases ms.len(),
{
    if ms.len() > 0 {
        lemma_publish_all(v, ms.drop_last());
        assert(v.history + ms.drop_last() + seq![ms.last()] =~= v.history + ms);
        assert((v.history + ms.drop_last()).push(ms.last()) =~= v.history + ms);
    }
}

/// Fan-out: while live subscriptions exist, each subscription whose backlog
/// stays within the retained history receives, one receive after another,
/// every message from its cursor on without a lag, the published messages
/// among them once each and in publish order, and then nothing more.
pub proof fn fan_out(v: HubView, ms: Seq<MessageView>, cursors: Seq<nat>)
    requires
        v.subscribers > 0,
        forall|i: int|
            0 <= i < cursors.len() ==> oldest(v) <= #[trigger] cursors[i] <= v.history.len()
                && v.history.len() + ms.len() - cursors[i] <= v.capacity,
    ensures
        publish_all(v, ms).history == v.history + ms,
        forall|i: int, c: nat|
            #![trigger cursors[i], receive_spec(publish_all(v, ms), c)]
            0 <= i < cursors.len() && cursors[i] <= c < v.history.len() + ms.len()
                ==> receive_spec(publish_all(v, ms), c) == (
                Delivery::Got(publish_all(v, ms).history[c as int]),
                c + 1,
            ),
        receive_spec(publish_all(v, ms), v.history.len() + ms.len()).1 == v.history.len() + ms.len(),
        !(receive_spec(publish_all(v, ms), v.history.len() + ms.len()).0 is Got),
{
    lemma_publish_all(v, ms);
    let w = publish_all(v, ms);
    assert forall|i: int, c: nat|
        #![trigger cursors[i], receive_spec(w, c)]
        0 <= i < cursors.len() && cursors[i] <= c < v.history.len() + ms.len()
            implies receive_spec(w, c) == (Delivery::Got(w.history[c as int]), c + 1) by {
        assert(oldest(w) <= cursors[i]);
    }
}

/// A subscription sees nothing published before it was made: after
/// `publish(m1)`, then a subscribe, then further publishes `ms`, every
/// receive from a cursor at or after the subscribe point keeps the cursor
/// there or later, and any message it yields is the one of `ms` at that
/// place.
pub proof fn no_history_before_subscribe(v: HubView, m1: MessageView, ms: Seq<MessageView>, c: nat)
    requires
        c >= publish_spec(v, m1).history.len(),
    ensures
        ({
            let start = publish_spec(v, m1).history.len();
            let w = publish_all(subscribe_spec(publish_spec(v, m1)), ms);
            let (d, next) = receive_spec(w, c);
            &&& next >= start
            &&& d is Got ==> c < start + ms.len() && d == Delivery::Got(ms[c - start])
        }),
{
    let u = subscribe_spec(publish_spec(v, m1));
    lemma_publish_all(u, ms);
}

/// A subscription that falls behind by more than the retained history sees
/// a lag of at least one message on its next receive, then carries on
/// receiving from the oldest retained message.
pub proof fn lag_skips_forward(v: HubView, ms: Seq<MessageView>, k: nat)
    requires
        v.subscribers > 0,
        v.capacity > 0,
        k <= v.history.len(),
        ms.len() == v.capacity + 1,
    ensures
        ({
            let w = publish_all(v, ms);
            &&& receive_spec(w, k).0 is Lagged
            &&& receive_spec(w, k).0->Lagged_0 >= 1
            &&& receive_spec(w, k).1 == oldest(w)
            &&& receive_spec(w, oldest(w)) == (Delivery::Got(w.history[oldest(w) as int]), oldest(w) + 1)
        }),
{
    lemma_publish_all(v, ms);
}

} // verus!
