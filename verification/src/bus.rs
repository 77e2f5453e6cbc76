//! The in-process broadcast bus: a multi-producer/multi-consumer channel
//! that fans every published event out to all current subscribers.
//!
//! The bus owns no business logic.  Its contract is:
//! - `publish` hands a copy of the event to every current subscriber and
//!   never blocks and never fails: with zero subscribers the event is
//!   simply discarded.
//! - each subscriber holds a bounded queue; when it is full the oldest
//!   unread event *for that subscriber only* is dropped, and that
//!   subscriber's next `recv` reports `Lagged(n)` instead of an event,
//!   after which it resumes with the retained, more recent events.
//! - a subscriber created after a publication never sees that event.

use vstd::prelude::*;

use crate::types::Event;

verus! {

/// What one call to [`EventBus::recv`] can yield.
#[derive(PartialEq, Eq, Debug)]
pub enum RecvOutcome {
    /// The oldest retained event for this subscriber, in publish order.
    Received(Event),
    /// The subscriber fell behind and `n` events were dropped for it since
    /// the last report; it resumes with the retained events.
    Lagged(usize),
    /// Nothing pending; a live system would suspend here until the next
    /// publication.
    Empty,
}

struct Subscriber {
    /// Events published but not yet received, oldest first.  Always a
    /// suffix of the publish history.
    queue: Vec<Event>,
    /// Events dropped for this subscriber since the last lag report.
    missed: usize,
    /// Length of the publish history when this subscriber was created.
    started_at: Ghost<nat>,
}

/// A typed broadcast channel with per-subscriber bounded queues.
pub struct EventBus {
    capacity: usize,
    subs: Vec<Subscriber>,
    history: Ghost<Seq<Event>>,
}

/// Saturating increment, used for the per-subscriber drop counter.
pub open spec fn inc_sat(n: usize) -> usize {
    if n == usize::MAX {
        n
    } else {
        (n + 1) as usize
    }
}

impl EventBus {
    /// Every event ever published on this bus, in publish order.
    pub closed spec fn published(&self) -> Seq<Event> {
        self.history@
    }

    /// The bound on each subscriber's queue.
    pub closed spec fn capacity(&self) -> nat {
        self.capacity as nat
    }

    /// The number of live subscribers.
    pub closed spec fn subscriber_count(&self) -> nat {
        self.subs@.len()
    }

    /// The events subscriber `id` has yet to receive, oldest first.
    pub closed spec fn pending(&self, id: int) -> Seq<Event> {
        self.subs@[id].queue@
    }

    /// Events dropped for subscriber `id` since its last lag report.
    pub closed spec fn missed(&self, id: int) -> usize {
        self.subs@[id].missed
    }

    /// Length of the publish history when subscriber `id` was created.
    pub closed spec fn subscribed_at(&self, id: int) -> nat {
        self.subs@[id].started_at@
    }

    /// Index into the publish history of the next event subscriber `id`
    /// will receive (everything before it was received or dropped).
    pub open spec fn cursor(&self, id: int) -> int {
        self.published().len() - self.pending(id).len()
    }

    /// The bus invariant: every subscriber's queue is a suffix of the
    /// publish history, bounded by the capacity, and contains no event
    /// published before the subscription.
    pub closed spec fn wf(&self) -> bool {
        &&& 1 <= self.capacity
        &&& forall|i: int|
            0 <= i < self.subs@.len() ==> {
                &&& (#[trigger] self.subs@[i]).queue@.len() <= self.capacity
                &&& self.subs@[i].queue@ == self.history@.subrange(
                    self.history@.len() - self.subs@[i].queue@.len(),
                    self.history@.len() as int,
                )
                &&& self.subs@[i].started_at@ + self.subs@[i].queue@.len() <= self.history@.len()
            }
    }

    /// A fresh bus with no subscribers and the given per-subscriber bound.
    pub fn new(capacity: usize) -> (bus: EventBus)
        requires
            1 <= capacity,
        ensures
            bus.wf(),
            bus.capacity() == capacity,
            bus.subscriber_count() == 0,
            bus.published() == Seq::<Event>::empty(),
    {
        EventBus { capacity, subs: Vec::new(), history: Ghost(Seq::empty()) }
    }

    /// Number of live subscribers, for observability: a publisher can see
    /// whether anyone is listening instead of silently discarding.
    pub fn active_subscribers(&self) -> (n: usize)
        ensures
            n == self.subscriber_count(),
    {
        self.subs.len()
    }

    /// Creates a new subscription and returns its handle.  The new
    /// subscriber starts with an empty queue: it will never observe an
    /// event published before this call.
    pub fn subscribe(&mut self) -> (id: usize)
        requires
            old(self).wf(),
        ensures
            final(self).wf(),
            id == old(self).subscriber_count(),
            final(self).subscriber_count() == old(self).subscriber_count() + 1,
            final(self).published() == old(self).published(),
            final(self).capacity() == old(self).capacity(),
            final(self).pending(id as int) == Seq::<Event>::empty(),
            final(self).missed(id as int) == 0,
            final(self).subscribed_at(id as int) == old(self).published().len(),
            forall|i: int|
                0 <= i < old(self).subscriber_count() ==> {
                    &&& final(self).pending(i) == old(self).pending(i)
                    &&& final(self).missed(i) == old(self).missed(i)
                    &&& final(self).subscribed_at(i) == old(self).subscribed_at(i)
                },
    {
        let id = self.subs.len();
        let sub = Subscriber {
            queue: Vec::new(),
            missed: 0,
            started_at: Ghost(self.history@.len()),
        };
        self.subs.push(sub);
        proof {
            assert(self.subs@[id as int].queue@ =~= self.history@.subrange(
                self.history@.len() as int,
                self.history@.len() as int,
            ));
        }
        id
    }

    /// Delivers a copy of `event` to every current subscriber and records
    /// the event in the publish history.  Never blocks and never fails:
    /// a full subscriber queue loses its oldest unread event (counted in
    /// that subscriber's `missed`), and with zero subscribers the event is
    /// simply discarded.  Returns the number of subscribers reached.
    pub fn publish(&mut self, event: &Event) -> (n: usize)
        requires
            old(self).wf(),
        ensures
            final(self).wf(),
            n == old(self).subscriber_count(),
            final(self).subscriber_count() == old(self).subscriber_count(),
            final(self).capacity() == old(self).capacity(),
            final(self).published() == old(self).published().push(*event),
            forall|i: int|
                0 <= i < old(self).subscriber_count() ==> {
                    &&& final(self).subscribed_at(i) == old(self).subscribed_at(i)
                    &&& if old(self).pending(i).len() < old(self).capacity() {
                        &&& final(self).pending(i) == old(self).pending(i).push(*event)
                        &&& final(self).missed(i) == old(self).missed(i)
                    } else {
                        &&& final(self).pending(i) == old(self).pending(i).drop_first().push(
                            *event,
                        )
                        &&& final(self).missed(i) == inc_sat(old(self).missed(i))
                    }
                    &&& final(self).cursor(i) >= old(self).cursor(i)
                },
    {
        let ghost pre = *self;
        self.history = Ghost(self.history@.push(*event));
        let n = self.subs.len();
        let capacity = self.capacity;
        let mut i: usize = 0;
        while i < n
            invariant
                n == self.subs@.len(),
                n == pre.subs@.len(),
                i <= n,
                capacity == self.capacity,
                pre.wf(),
                self.capacity == pre.capacity,
                self.history@ == pre.history@.push(*event),
                forall|j: int|
                    i <= j < n ==> #[trigger] self.subs@[j] == pre.subs@[j],
                forall|j: int|
                    0 <= j < i ==> {
                        &&& (#[trigger] self.subs@[j]).started_at == pre.subs@[j].started_at
                        &&& self.subs@[j].queue@.len() <= self.capacity
                        &&& self.subs@[j].queue@ == self.history@.subrange(
                            self.history@.len() - self.subs@[j].queue@.len(),
                            self.history@.len() as int,
                        )
                        &&& self.subs@[j].started_at@ + self.subs@[j].queue@.len()
                            <= self.history@.len()
                        &&& if pre.subs@[j].queue@.len() < pre.capacity {
                            &&& self.subs@[j].queue@ == pre.subs@[j].queue@.push(*event)
                            &&& self.subs@[j].missed == pre.subs@[j].missed
                        } else {
                            &&& self.subs@[j].queue@ == pre.subs@[j].queue@.drop_first().push(
                                *event,
                            )
                            &&& self.subs@[j].missed == inc_sat(pre.subs@[j].missed)
                        }
                    },
            decreases n - i,
        {
            let ghost old_q = self.subs@[i as int].queue@;
            proof {
                assert(self.subs@[i as int] == pre.subs@[i as int]);
                assert(old_q == pre.history@.subrange(
                    pre.history@.len() - old_q.len(),
                    pre.history@.len() as int,
                ));
                assert(old_q.len() <= pre.capacity);
            }
            let sub = &mut self.subs[i];
            if sub.queue.len() == capacity {
                sub.queue.remove(0);
                if sub.missed < usize::MAX {
                    sub.missed = sub.missed + 1;
                }
            }
            sub.queue.push(event.clone());
            proof {
                let j = i as int;
                let hist = self.history@;
                let q = self.subs@[j].queue@;
                if old_q.len() < pre.capacity {
                    assert(q =~= old_q.push(*event));
                } else {
                    assert(q =~= old_q.drop_first().push(*event));
                }
                assert(old_q == pre.history@.subrange(
                    pre.history@.len() - old_q.len(),
                    pre.history@.len() as int,
                ));
                assert(q =~= hist.subrange(hist.len() - q.len(), hist.len() as int));
            }
            i = i + 1;
        }
        n
    }

    /// Takes the next item for subscriber `id`.  A pending lag is reported
    /// first; otherwise the oldest retained event is returned — it is
    /// exactly the event at this subscriber's cursor in the publish
    /// history, so successive receives observe events in publish order.
    pub fn recv(&mut self, id: usize) -> (r: RecvOutcome)
        requires
            old(self).wf(),
            id < old(self).subscriber_count(),
        ensures
            final(self).wf(),
            final(self).subscriber_count() == old(self).subscriber_count(),
            final(self).capacity() == old(self).capacity(),
            final(self).published() == old(self).published(),
            final(self).subscribed_at(id as int) == old(self).subscribed_at(id as int),
            forall|i: int|
                0 <= i < old(self).subscriber_count() && i != id ==> {
                    &&& final(self).pending(i) == old(self).pending(i)
                    &&& final(self).missed(i) == old(self).missed(i)
                    &&& final(self).subscribed_at(i) == old(self).subscribed_at(i)
                },
            match r {
                RecvOutcome::Lagged(n) => {
                    &&& n == old(self).missed(id as int)
                    &&& n > 0
                    &&& final(self).missed(id as int) == 0
                    &&& final(self).pending(id as int) == old(self).pending(id as int)
                },
                RecvOutcome::Received(e) => {
                    &&& old(self).missed(id as int) == 0
                    &&& old(self).pending(id as int).len() > 0
                    &&& e == old(self).pending(id as int)[0]
                    &&& e == old(self).published()[old(self).cursor(id as int)]
                    &&& final(self).pending(id as int) == old(self).pending(
                        id as int,
                    ).drop_first()
                    &&& final(self).missed(id as int) == 0
                    &&& final(self).cursor(id as int) == old(self).cursor(id as int) + 1
                },
                RecvOutcome::Empty => {
                    &&& old(self).missed(id as int) == 0
                    &&& old(self).pending(id as int).len() == 0
                    &&& final(self).pending(id as int) == old(self).pending(id as int)
                    &&& final(self).missed(id as int) == 0
                },
            },
    {
        let ghost pre = *self;
        let sub = &mut self.subs[id];
        if sub.missed > 0 {
            let n = sub.missed;
            sub.missed = 0;
            proof {
                assert(self.subs@[id as int].queue@ == pre.subs@[id as int].queue@);
            }
            RecvOutcome::Lagged(n)
        } else if sub.queue.len() == 0 {
            RecvOutcome::Empty
        } else {
            let e = sub.queue.remove(0);
            proof {
                let j = id as int;
                let q = self.subs@[j].queue@;
                let old_q = pre.subs@[j].queue@;
                assert(q =~= old_q.drop_first());
                assert(old_q == pre.history@.subrange(
                    pre.history@.len() - old_q.len(),
                    pre.history@.len() as int,
                ));
                assert(q =~= self.history@.subrange(
                    self.history@.len() - q.len(),
                    self.history@.len() as int,
                ));
                assert(e == pre.history@[pre.history@.len() - old_q.len()]);
            }
            RecvOutcome::Received(e)
        }
    }

    /// Everything still pending for a live subscriber sits at consecutive
    /// positions of the publish history, starting at its cursor: events
    /// are received in publish order, with drops only ever removing a
    /// prefix of what is pending.
    pub proof fn lemma_pending_is_history_suffix(&self, id: int)
        requires
            self.wf(),
            0 <= id < self.subscriber_count(),
        ensures
            0 <= self.cursor(id) <= self.published().len(),
            forall|k: int|
                0 <= k < self.pending(id).len() ==> self.pending(id)[k] == self.published()[self.cursor(
                    id,
                ) + k],
    {
    }

    /// A subscriber never observes an event published before its
    /// subscription: its cursor never points below the history length at
    /// subscribe time, so everything it still can receive was published
    /// after it subscribed.
    pub proof fn lemma_nothing_from_before_subscription(&self, id: int)
        requires
            self.wf(),
            0 <= id < self.subscriber_count(),
        ensures
            self.cursor(id) >= self.subscribed_at(id),
    {
    }
}

} // verus!
