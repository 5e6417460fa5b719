use vstd::prelude::*;

verus! {

/// What a hub looks like: every message ever published, the sequence number
/// of the oldest one still held, how many it holds at most, and for each
/// subscriber id ever handed out the sequence number it reads next (`None`
/// once it has left).
pub struct HubModel<T> {
    pub history: Seq<T>,
    pub first: nat,
    pub capacity: nat,
    pub cursors: Seq<Option<u64>>,
}

pub open spec fn is_subscribed<T>(m: HubModel<T>, id: int) -> bool {
    0 <= id < m.cursors.len() && m.cursors[id] is Some
}

/// The messages that subscriber `id` has still to receive, oldest first.
pub open spec fn pending<T>(m: HubModel<T>, id: int) -> Seq<T> {
    if is_subscribed(m, id) {
        let c = m.cursors[id]->0 as int;
        let from = if c < m.first {
            m.first as int
        } else {
            c
        };
        m.history.subrange(from, m.history.len() as int)
    } else {
        Seq::empty()
    }
}

/// The hub after `msg` is published: the oldest held message is dropped
/// when it already held `capacity` of them.
pub open spec fn publish_model<T>(m: HubModel<T>, msg: T) -> HubModel<T> {
    HubModel {
        history: m.history.push(msg),
        first: if m.history.len() + 1 - m.first > m.capacity {
            m.first + 1
        } else {
            m.first
        },
        capacity: m.capacity,
        cursors: m.cursors,
    }
}

/// The hub after a new subscriber joins: it reads from the next message on.
pub open spec fn subscribe_model<T>(m: HubModel<T>) -> HubModel<T> {
    HubModel {
        history: m.history,
        first: m.first,
        capacity: m.capacity,
        cursors: m.cursors.push(Some(m.history.len() as u64)),
    }
}

pub open spec fn model_wf<T>(m: HubModel<T>) -> bool {
    &&& m.capacity > 0
    &&& m.first <= m.history.len()
    &&& m.history.len() - m.first <= m.capacity
    &&& m.first > 0 ==> m.history.len() - m.first == m.capacity
    &&& forall|i: int|
        0 <= i < m.cursors.len() && (#[trigger] m.cursors[i]) is Some ==> m.cursors[i]->0
            <= m.history.len()
}

/// Broadcast isolation: subscribers present when a message is published
/// both have it as their latest pending message; a subscriber that joins
/// afterwards has nothing pending, and of what is published next it has
/// exactly that message.
pub proof fn lemma_broadcast_isolation<T>(m: HubModel<T>, a: int, b: int, msg: T, later: T)
    requires
        model_wf(m),
        m.history.len() + 2 <= u64::MAX,
        is_subscribed(m, a),
        is_subscribed(m, b),
    ensures
        pending(publish_model(m, msg), a).len() > 0,
        pending(publish_model(m, msg), a).last() == msg,
        pending(publish_model(m, msg), b).len() > 0,
        pending(publish_model(m, msg), b).last() == msg,
        is_subscribed(subscribe_model(publish_model(m, msg)), m.cursors.len() as int),
        pending(subscribe_model(publish_model(m, msg)), m.cursors.len() as int) == Seq::<
            T,
        >::empty(),
        pending(publish_model(subscribe_model(publish_model(m, msg)), later), m.cursors.len() as int)
            == seq![later],
{
    let m1 = publish_model(m, msg);
    let m2 = subscribe_model(m1);
    let m3 = publish_model(m2, later);
    let c = m.cursors.len() as int;
    assert(m.cursors[a]->0 <= m.history.len());
    assert(m.cursors[b]->0 <= m.history.len());
    assert(m2.cursors[c] == Some(m1.history.len() as u64));
    assert(pending(m2, c) =~= Seq::<T>::empty());
    assert(pending(m3, c) =~= seq![later]);
}

/// What one read from a subscription found.
#[derive(Clone, Copy, Debug, PartialEq, Eq, Structural)]
pub enum Receive {
    /// The message with this sequence number is next; fetch it with
    /// `Hub::message`.
    Message(u64),
    /// This many messages were dropped before the subscriber read them; it
    /// now reads from the oldest one still held.
    Lagged(u64),
    /// Nothing new since the last read.
    Empty,
    /// No such subscriber.
    Closed,
}

/// A fan-out channel: every published message reaches every subscriber
/// present at the time, in publish order. It holds the last `capacity`
/// messages; a subscriber that falls further behind loses the oldest ones
/// and is told how many, so publishing never waits for a reader.
pub struct Hub<T> {
    buffer: Vec<T>,
    first: u64,
    capacity: usize,
    subscribers: Vec<Option<u64>>,
    history: Ghost<Seq<T>>,
}

impl<T> Hub<T> {
    pub closed spec fn view(&self) -> HubModel<T> {
        HubModel {
            history: self.history@,
            first: self.first as nat,
            capacity: self.capacity as nat,
            cursors: self.subscribers@,
        }
    }

    /// The model is well formed, and the held messages are the last ones
    /// published.
    pub open spec fn wf(&self) -> bool {
        &&& model_wf(self.view())
        &&& self.view().history.len() <= u64::MAX
        &&& self.holds_tail()
    }

    pub closed spec fn holds_tail(&self) -> bool {
        self.buffer@ == self.history@.subrange(self.first as int, self.history@.len() as int)
    }

    /// A hub that holds at most `capacity` messages, with no subscriber.
    pub fn new(capacity: usize) -> (r: Hub<T>)
        requires
            capacity > 0,
        ensures
            r.wf(),
            r.view().history == Seq::<T>::empty(),
            r.view().first == 0,
            r.view().capacity == capacity,
            r.view().cursors == Seq::<Option<u64>>::empty(),
    {
        let r = Hub {
            buffer: Vec::new(),
            first: 0,
            capacity,
            subscribers: Vec::new(),
            history: Ghost(Seq::empty()),
        };
        assert(r.buffer@ =~= r.history@.subrange(0, 0));
        r
    }

    /// Whether `n` more messages can be numbered.
    pub fn has_room(&self, n: u64) -> (r: bool)
        requires
            self.wf(),
        ensures
            r == (self.view().history.len() + n < u64::MAX),
    {
        let end = self.first + self.buffer.len() as u64;
        end < u64::MAX - n
    }

    /// Whether `id` is a current subscriber.
    pub fn is_subscribed(&self, id: usize) -> (r: bool)
        ensures
            r == is_subscribed(self.view(), id as int),
    {
        id < self.subscribers.len() && self.subscribers[id].is_some()
    }

    /// Hands `msg` to every current subscriber.
    pub fn publish(&mut self, msg: T)
        requires
            old(self).wf(),
            old(self).view().history.len() < u64::MAX,
        ensures
            final(self).wf(),
            final(self).view() == publish_model(old(self).view(), msg),
    {
        let ghost all = self.history@.push(msg);
        self.buffer.push(msg);
        self.history = Ghost(all);
        if self.buffer.len() > self.capacity {
            self.buffer.remove(0);
            self.first = self.first + 1;
        }
        assert(self.buffer@ =~= all.subrange(self.first as int, all.len() as int));
    }

    /// Adds a subscriber that receives what is published from now on, and
    /// returns its id.
    pub fn subscribe(&mut self) -> (id: usize)
        requires
            old(self).wf(),
        ensures
            final(self).wf(),
            final(self).view() == subscribe_model(old(self).view()),
            id == old(self).view().cursors.len(),
    {
        let id = self.subscribers.len();
        let next = self.first + self.buffer.len() as u64;
        self.subscribers.push(Some(next));
        id
    }

    /// Removes subscriber `id`; what it had pending is no longer kept for it.
    pub fn unsubscribe(&mut self, id: usize)
        requires
            old(self).wf(),
        ensures
            final(self).wf(),
            final(self).view().history == old(self).view().history,
            final(self).view().first == old(self).view().first,
            final(self).view().capacity == old(self).view().capacity,
            final(self).view().cursors == (if id < old(self).view().cursors.len() {
                old(self).view().cursors.update(id as int, None)
            } else {
                old(self).view().cursors
            }),
    {
        if id < self.subscribers.len() {
            self.subscribers.set(id, None);
        }
    }

    /// Reads the next thing subscriber `id` has to receive, and moves its
    /// cursor past it.
    pub fn recv(&mut self, id: usize) -> (r: Receive)
        requires
            old(self).wf(),
        ensures
            final(self).wf(),
            final(self).view().history == old(self).view().history,
            final(self).view().first == old(self).view().first,
            final(self).view().capacity == old(self).view().capacity,
            final(self).view().cursors.len() == old(self).view().cursors.len(),
            forall|j: int|
                0 <= j < old(self).view().cursors.len() && j != id ==> #[trigger] final(self).view().cursors[j] == old(self).view().cursors[j],
            (r == Receive::Closed) <==> !is_subscribed(old(self).view(), id as int),
            r is Empty <==> is_subscribed(old(self).view(), id as int) && pending(
                old(self).view(),
                id as int,
            ).len() == 0,
            r is Lagged ==> old(self).view().cursors[id as int]->0 < old(self).view().first
                && r->Lagged_0 == old(self).view().first - old(self).view().cursors[id as int]->0
                && pending(final(self).view(), id as int) == pending(old(self).view(), id as int),
            r is Message ==> r->Message_0 == old(self).view().cursors[id as int]->0
                && old(self).view().first <= r->Message_0 < old(self).view().history.len()
                && old(self).view().history[r->Message_0 as int] == pending(
                old(self).view(),
                id as int,
            )[0] && pending(final(self).view(), id as int) == pending(
                old(self).view(),
                id as int,
            ).drop_first(),
    {
        if id >= self.subscribers.len() {
            return Receive::Closed;
        }
        match self.subscribers[id] {
            None => Receive::Closed,
            Some(c) => {
                let end = self.first + self.buffer.len() as u64;
                if c < self.first {
                    self.subscribers.set(id, Some(self.first));
                    Receive::Lagged(self.first - c)
                } else if c < end {
                    self.subscribers.set(id, Some(c + 1));
                    let ghost h = self.history@;
                    assert(pending(self.view(), id as int) =~= h.subrange(c as int, h.len() as int).drop_first());
                    Receive::Message(c)
                } else {
                    Receive::Empty
                }
            },
        }
    }

    /// The published message with sequence number `seq`, while it is held.
    pub fn message(&self, seq: u64) -> (r: &T)
        requires
            self.wf(),
            self.view().first <= seq < self.view().history.len(),
        ensures
            *r == self.view().history[seq as int],
    {
        &self.buffer[(seq - self.first) as usize]
    }
}

} // verus!
