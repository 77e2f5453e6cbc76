//! The handler runtime: owns the bus, registers handlers, and tracks
//! each handler's lifecycle.
//!
//! Each registered handler owns one bus subscription for its entire
//! lifetime and, in a live system, runs as one independently scheduled
//! task.  Its state machine is `Registered -> Running -> {Completed |
//! Failed}`: a handler fails only when its body returns an error, and in
//! normal operation it never completes — the loop is the process's
//! steady state.  When one handler fails, its siblings are not
//! cancelled: the failure is surfaced and the rest keep running.

use vstd::prelude::*;

use crate::bus::EventBus;

verus! {

/// Lifecycle of one registered handler.
#[derive(Clone, Copy, PartialEq, Eq, Structural, Debug)]
pub enum HandlerState {
    Registered,
    Running,
    Completed,
    Failed,
}

/// The registration record of one handler: created at startup, destroyed
/// only at shutdown, owner of its subscription (and, in a live system,
/// of its own remote-service client — one client per handler, never
/// shared).
#[derive(Debug)]
pub struct HandlerRecord {
    pub name: String,
    pub state: HandlerState,
    pub subscription: usize,
}

/// The event loop: the bus plus every handler registered on it.
pub struct EventLoop {
    pub bus: EventBus,
    pub handlers: Vec<HandlerRecord>,
}

impl EventLoop {
    /// Each handler holds the subscription created when it was pushed,
    /// in registration order.
    pub open spec fn wf(&self) -> bool {
        &&& self.bus.wf()
        &&& self.bus.subscriber_count() == self.handlers@.len()
        &&& forall|i: int|
            0 <= i < self.handlers@.len() ==> (#[trigger] self.handlers@[i]).subscription == i
    }

    /// A fresh loop with no handlers, over a bus with the given
    /// per-subscriber bound.
    pub fn new(capacity: usize) -> (r: EventLoop)
        requires
            1 <= capacity,
        ensures
            r.wf(),
            r.handlers@.len() == 0,
            r.bus.published() == Seq::<crate::types::Event>::empty(),
            r.bus.capacity() == capacity,
    {
        EventLoop { bus: EventBus::new(capacity), handlers: Vec::new() }
    }

    /// Registers a handler: it gets its own fresh subscription — so it
    /// will never observe an event published before this call — and
    /// starts in `Registered`.
    pub fn push(&mut self, name: String) -> (id: usize)
        requires
            old(self).wf(),
        ensures
            final(self).wf(),
            id == old(self).handlers@.len(),
            final(self).handlers@.len() == old(self).handlers@.len() + 1,
            final(self).handlers@[id as int].name == name,
            final(self).handlers@[id as int].state == HandlerState::Registered,
            final(self).handlers@[id as int].subscription == id,
            forall|i: int|
                0 <= i < old(self).handlers@.len() ==> final(self).handlers@[i] == old(
                    self,
                ).handlers@[i],
            final(self).bus.published() == old(self).bus.published(),
            final(self).bus.capacity() == old(self).bus.capacity(),
            final(self).bus.pending(id as int) == Seq::<crate::types::Event>::empty(),
            final(self).bus.subscribed_at(id as int) == old(self).bus.published().len(),
    {
        let subscription = self.bus.subscribe();
        let id = self.handlers.len();
        self.handlers.push(
            HandlerRecord { name, state: HandlerState::Registered, subscription },
        );
        id
    }

    /// Starts every registered handler: all states become `Running`;
    /// names and subscriptions are untouched.
    pub fn start_all(&mut self)
        requires
            old(self).wf(),
        ensures
            final(self).wf(),
            final(self).bus == old(self).bus,
            final(self).handlers@.len() == old(self).handlers@.len(),
            forall|i: int|
                0 <= i < old(self).handlers@.len() ==> {
                    &&& (#[trigger] final(self).handlers@[i]).state == HandlerState::Running
                    &&& final(self).handlers@[i].name == old(self).handlers@[i].name
                    &&& final(self).handlers@[i].subscription == old(self).handlers@[i].subscription
                },
    {
        let ghost pre = *self;
        let n = self.handlers.len();
        let mut i: usize = 0;
        while i < n
            invariant
                i <= n,
                n == self.handlers@.len(),
                n == pre.handlers@.len(),
                self.bus == pre.bus,
                forall|j: int| i <= j < n ==> #[trigger] self.handlers@[j] == pre.handlers@[j],
                forall|j: int|
                    0 <= j < i ==> {
                        &&& (#[trigger] self.handlers@[j]).state == HandlerState::Running
                        &&& self.handlers@[j].name == pre.handlers@[j].name
                        &&& self.handlers@[j].subscription == pre.handlers@[j].subscription
                    },
            decreases n - i,
        {
            let h = &mut self.handlers[i];
            h.state = HandlerState::Running;
            i = i + 1;
        }
    }

    /// Surfaces the failure of one handler's body.  Only that handler's
    /// state changes: sibling handlers are not cancelled and keep their
    /// state, and the bus is untouched.
    pub fn mark_failed(&mut self, id: usize)
        requires
            old(self).wf(),
            id < old(self).handlers@.len(),
        ensures
            final(self).wf(),
            final(self).bus == old(self).bus,
            final(self).handlers@.len() == old(self).handlers@.len(),
            final(self).handlers@[id as int].state == HandlerState::Failed,
            final(self).handlers@[id as int].name == old(self).handlers@[id as int].name,
            final(self).handlers@[id as int].subscription == old(
                self,
            ).handlers@[id as int].subscription,
            forall|i: int|
                0 <= i < old(self).handlers@.len() && i != id ==> final(self).handlers@[i] == old(
                    self,
                ).handlers@[i],
    {
        let h = &mut self.handlers[id];
        h.state = HandlerState::Failed;
    }
}

} // verus!
