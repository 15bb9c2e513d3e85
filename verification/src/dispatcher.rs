//! The dispatcher: a fixed-priority, run-to-completion executor over the
//! system's three handlers.
//!
//! Each handler owns a bounded FIFO queue of pending invocations. A hardware
//! interrupt or a software `spawn` appends to the handler's queue; when the
//! queue is full the spawn is refused with `QueueFull` and reported to the
//! caller, and what is already queued is never reordered or lost.
//! Selection always picks a handler with the
//! highest priority among those with pending work, and the oldest pending
//! invocation among equal priorities; each invocation then runs to
//! completion before the next is selected.

use vstd::prelude::*;
use crate::state::Event;

verus! {

/// Priority of the two interrupt-bound handlers (button edge and timer
/// overflow).
pub const PRIO_INTERRUPT: u8 = 2;

/// Priority of the software-spawned update/orchestration handler.
pub const PRIO_UPDATE: u8 = 1;

/// The three handlers of the system: a closed, enumerable set.
#[derive(Clone, Copy, Debug, PartialEq, Eq, Structural)]
pub enum HandlerId {
    Button,
    TimerOvf,
    Update,
}

/// Why a spawn was refused.
#[derive(Clone, Copy, Debug, PartialEq, Eq, Structural)]
pub enum SpawnError {
    /// The handler's pending-invocation queue is at capacity; the event was
    /// dropped and must be reported by the caller.
    QueueFull,
}

/// One queued invocation: the payload plus a globally increasing stamp that
/// records arrival order across all queues.
#[derive(Clone, Copy, Debug, PartialEq, Eq, Structural)]
pub struct Pending {
    pub stamp: u64,
    pub event: Event,
}

/// One handler's descriptor: its fixed priority and its bounded FIFO queue.
pub struct HandlerSlot {
    pub priority: u8,
    pub capacity: usize,
    pub queue: Vec<Pending>,
}

impl HandlerSlot {
    /// The queue respects its bound and holds stamps in arrival order.
    pub open spec fn wf(self) -> bool {
        &&& self.capacity >= 1
        &&& self.queue@.len() <= self.capacity
        &&& forall|i: int, j: int|
            0 <= i < j < self.queue@.len() ==> self.queue@[i].stamp < self.queue@[j].stamp
    }

    /// Every queued stamp is below `bound`.
    pub open spec fn stamps_below(self, bound: u64) -> bool {
        forall|i: int| 0 <= i < self.queue@.len() ==> self.queue@[i].stamp < bound
    }

    /// Append one invocation, stamped `stamp`, unless the queue is full.
    fn enqueue(&mut self, stamp: u64, event: Event) -> (r: Result<(), SpawnError>)
        requires
            old(self).wf(),
            old(self).stamps_below(stamp),
            stamp < u64::MAX,
        ensures
            final(self).wf(),
            final(self).priority == old(self).priority,
            final(self).capacity == old(self).capacity,
            final(self).stamps_below((stamp + 1) as u64),
            if old(self).queue@.len() < old(self).capacity {
                &&& r is Ok
                &&& final(self).queue@ == old(self).queue@.push(Pending { stamp, event })
            } else {
                &&& r == Err::<(), SpawnError>(SpawnError::QueueFull)
                &&& *final(self) == *old(self)
            },
    {
        if self.queue.len() < self.capacity {
            self.queue.push(Pending { stamp, event });
            Ok(())
        } else {
            Err(SpawnError::QueueFull)
        }
    }

    /// Remove and return the oldest pending invocation.
    fn dequeue(&mut self) -> (p: Pending)
        requires
            old(self).wf(),
            old(self).queue@.len() > 0,
        ensures
            final(self).wf(),
            final(self).priority == old(self).priority,
            final(self).capacity == old(self).capacity,
            p == old(self).queue@[0],
            final(self).queue@ == old(self).queue@.remove(0),
    {
        self.queue.remove(0)
    }
}

/// The dispatcher's whole state: the three handler descriptors and the next
/// arrival stamp.
pub struct Dispatcher {
    pub button: HandlerSlot,
    pub timer_ovf: HandlerSlot,
    pub update: HandlerSlot,
    pub next_stamp: u64,
}

impl Dispatcher {
    /// The handler descriptor bound to `id`.
    pub open spec fn slot(self, id: HandlerId) -> HandlerSlot {
        match id {
            HandlerId::Button => self.button,
            HandlerId::TimerOvf => self.timer_ovf,
            HandlerId::Update => self.update,
        }
    }

    /// Whether handler `id` has pending work.
    pub open spec fn pending(self, id: HandlerId) -> bool {
        self.slot(id).queue@.len() > 0
    }

    /// The stamp of handler `id`'s oldest pending invocation.
    pub open spec fn front_stamp(self, id: HandlerId) -> u64 {
        self.slot(id).queue@[0].stamp
    }

    /// When both are pending, `a` is dispatched no later than `b`: it has
    /// strictly higher priority, or equal priority and the older front entry.
    pub open spec fn precedes(self, a: HandlerId, b: HandlerId) -> bool {
        ||| self.slot(a).priority > self.slot(b).priority
        ||| (self.slot(a).priority == self.slot(b).priority && self.front_stamp(a)
            <= self.front_stamp(b))
    }

    /// The fixed priority table, well-formed queues, and stamps all below the
    /// next one to be handed out.
    pub open spec fn wf(self) -> bool {
        &&& self.button.wf()
        &&& self.timer_ovf.wf()
        &&& self.update.wf()
        &&& self.button.priority == PRIO_INTERRUPT
        &&& self.timer_ovf.priority == PRIO_INTERRUPT
        &&& self.update.priority == PRIO_UPDATE
        &&& self.button.stamps_below(self.next_stamp)
        &&& self.timer_ovf.stamps_below(self.next_stamp)
        &&& self.update.stamps_below(self.next_stamp)
    }

    /// A fresh dispatcher: empty queues, the fixed priority table, a single
    /// pending slot per interrupt handler (the hardware pending bit), and the
    /// chosen queue depth for the update handler.
    pub fn new(update_queue_depth: usize) -> (d: Dispatcher)
        requires
            update_queue_depth >= 1,
        ensures
            d.wf(),
            d.next_stamp == 0,
            d.button.queue@.len() == 0,
            d.timer_ovf.queue@.len() == 0,
            d.update.queue@.len() == 0,
            d.button.capacity == 1,
            d.timer_ovf.capacity == 1,
            d.update.capacity == update_queue_depth,
    {
        Dispatcher {
            button: HandlerSlot { priority: PRIO_INTERRUPT, capacity: 1, queue: Vec::new() },
            timer_ovf: HandlerSlot { priority: PRIO_INTERRUPT, capacity: 1, queue: Vec::new() },
            update: HandlerSlot {
                priority: PRIO_UPDATE,
                capacity: update_queue_depth,
                queue: Vec::new(),
            },
            next_stamp: 0,
        }
    }

    /// Post one invocation to handler `id`. The queue keeps arrival order;
    /// a full queue refuses the spawn and nothing changes.
    pub fn spawn(&mut self, id: HandlerId, event: Event) -> (r: Result<(), SpawnError>)
        requires
            old(self).wf(),
            old(self).next_stamp < u64::MAX,
        ensures
            final(self).wf(),
            spawn_post(*old(self), *final(self), id, event, r),
    {
        let stamp = self.next_stamp;
        let r = match id {
            HandlerId::Button => self.button.enqueue(stamp, event),
            HandlerId::TimerOvf => self.timer_ovf.enqueue(stamp, event),
            HandlerId::Update => self.update.enqueue(stamp, event),
        };
        if r.is_ok() {
            self.next_stamp = stamp + 1;
        }
        r
    }

    /// The handler to run next: among those with pending work, one of highest
    /// priority, oldest front entry among equal priorities. `None` exactly
    /// when nothing is pending.
    pub fn select(&self) -> (r: Option<HandlerId>)
        ensures
            r is None <==> {
                &&& !self.pending(HandlerId::Button)
                &&& !self.pending(HandlerId::TimerOvf)
                &&& !self.pending(HandlerId::Update)
            },
            r matches Some(h) ==> {
                &&& self.pending(h)
                &&& (self.pending(HandlerId::Button) ==> self.precedes(h, HandlerId::Button))
                &&& (self.pending(HandlerId::TimerOvf) ==> self.precedes(h, HandlerId::TimerOvf))
                &&& (self.pending(HandlerId::Update) ==> self.precedes(h, HandlerId::Update))
            },
    {
        let mut best: Option<HandlerId> = None;
        if self.button.queue.len() > 0 {
            best = Some(HandlerId::Button);
        }
        if self.timer_ovf.queue.len() > 0 {
            best = match best {
                None => Some(HandlerId::TimerOvf),
                Some(b) => if self.beats(HandlerId::TimerOvf, b) {
                    Some(HandlerId::TimerOvf)
                } else {
                    Some(b)
                },
            };
        }
        if self.update.queue.len() > 0 {
            best = match best {
                None => Some(HandlerId::Update),
                Some(b) => if self.beats(HandlerId::Update, b) {
                    Some(HandlerId::Update)
                } else {
                    Some(b)
                },
            };
        }
        best
    }

    /// A borrow of handler `id`'s descriptor.
    fn slot_ref(&self, id: HandlerId) -> (r: &HandlerSlot)
        ensures
            *r == self.slot(id),
    {
        match id {
            HandlerId::Button => &self.button,
            HandlerId::TimerOvf => &self.timer_ovf,
            HandlerId::Update => &self.update,
        }
    }

    /// Strictly before: higher priority, or same priority and strictly older
    /// front entry.
    fn beats(&self, a: HandlerId, b: HandlerId) -> (r: bool)
        requires
            self.pending(a),
            self.pending(b),
        ensures
            r == (self.slot(a).priority > self.slot(b).priority || (self.slot(a).priority
                == self.slot(b).priority && self.front_stamp(a) < self.front_stamp(b))),
    {
        let sa = self.slot_ref(a);
        let sb = self.slot_ref(b);
        sa.priority > sb.priority || (sa.priority == sb.priority && sa.queue[0].stamp
            < sb.queue[0].stamp)
    }

    /// Select the next handler and consume its oldest pending invocation,
    /// handing back the payload for the caller to run to completion.
    pub fn take_next(&mut self) -> (r: Option<(HandlerId, Event)>)
        requires
            old(self).wf(),
        ensures
            final(self).wf(),
            final(self).next_stamp == old(self).next_stamp,
            match r {
                None => {
                    &&& *final(self) == *old(self)
                    &&& !old(self).pending(HandlerId::Button)
                    &&& !old(self).pending(HandlerId::TimerOvf)
                    &&& !old(self).pending(HandlerId::Update)
                },
                Some((h, event)) => {
                    &&& old(self).pending(h)
                    &&& (old(self).pending(HandlerId::Button) ==> old(self).precedes(
                        h,
                        HandlerId::Button,
                    ))
                    &&& (old(self).pending(HandlerId::TimerOvf) ==> old(self).precedes(
                        h,
                        HandlerId::TimerOvf,
                    ))
                    &&& (old(self).pending(HandlerId::Update) ==> old(self).precedes(
                        h,
                        HandlerId::Update,
                    ))
                    &&& event == old(self).slot(h).queue@[0].event
                    &&& popped_front(*old(self), *final(self), h)
                },
            },
    {
        match self.select() {
            None => None,
            Some(h) => {
                let p = match h {
                    HandlerId::Button => self.button.dequeue(),
                    HandlerId::TimerOvf => self.timer_ovf.dequeue(),
                    HandlerId::Update => self.update.dequeue(),
                };
                Some((h, p.event))
            },
        }
    }
}

/// How a spawn to handler `id` relates the dispatcher before (`pre`) and
/// after (`post`): with room in the queue the invocation is appended, stamped
/// with the arrival order; with a full queue the spawn is refused and the
/// dispatcher is untouched.
pub open spec fn spawn_post(
    pre: Dispatcher,
    post: Dispatcher,
    id: HandlerId,
    event: Event,
    r: Result<(), SpawnError>,
) -> bool {
    &&& (id != HandlerId::Button ==> post.button == pre.button)
    &&& (id != HandlerId::TimerOvf ==> post.timer_ovf == pre.timer_ovf)
    &&& (id != HandlerId::Update ==> post.update == pre.update)
    &&& post.slot(id).priority == pre.slot(id).priority
    &&& post.slot(id).capacity == pre.slot(id).capacity
    &&& if pre.slot(id).queue@.len() < pre.slot(id).capacity {
        &&& r is Ok
        &&& post.slot(id).queue@ == pre.slot(id).queue@.push(
            Pending { stamp: pre.next_stamp, event },
        )
        &&& post.next_stamp == pre.next_stamp + 1
    } else {
        &&& r == Err::<(), SpawnError>(SpawnError::QueueFull)
        &&& post == pre
    }
}

/// How consuming handler `h`'s oldest invocation relates the dispatcher
/// before and after: `h`'s queue loses its front entry, everything else is
/// untouched.
pub open spec fn popped_front(pre: Dispatcher, post: Dispatcher, h: HandlerId) -> bool {
    &&& (h != HandlerId::Button ==> post.button == pre.button)
    &&& (h != HandlerId::TimerOvf ==> post.timer_ovf == pre.timer_ovf)
    &&& (h != HandlerId::Update ==> post.update == pre.update)
    &&& post.slot(h).priority == pre.slot(h).priority
    &&& post.slot(h).capacity == pre.slot(h).capacity
    &&& post.slot(h).queue@ == pre.slot(h).queue@.remove(0)
    &&& post.next_stamp == pre.next_stamp
}

/// Two back-to-back spawns to the update handler before it has a chance to
/// run: the first is always accepted; with room for both, both sit in the
/// queue in arrival order; with a single-slot queue the second is refused
/// with `QueueFull` — reported to its caller, never silently lost, and the
/// queue is left exactly as it was, so nothing is reordered.
pub proof fn lemma_back_to_back_spawns(
    d0: Dispatcher,
    d1: Dispatcher,
    d2: Dispatcher,
    e1: Event,
    e2: Event,
    r1: Result<(), SpawnError>,
    r2: Result<(), SpawnError>,
)
    requires
        d0.wf(),
        d0.update.queue@.len() == 0,
        spawn_post(d0, d1, HandlerId::Update, e1, r1),
        spawn_post(d1, d2, HandlerId::Update, e2, r2),
    ensures
        r1 is Ok,
        d1.update.queue@.len() == 1,
        d1.update.queue@[0].event == e1,
        d0.update.capacity >= 2 ==> {
            &&& r2 is Ok
            &&& d2.update.queue@.len() == 2
            &&& d2.update.queue@[0].event == e1
            &&& d2.update.queue@[1].event == e2
            &&& d2.update.queue@[0].stamp < d2.update.queue@[1].stamp
        },
        d0.update.capacity == 1 ==> {
            &&& r2 == Err::<(), SpawnError>(SpawnError::QueueFull)
            &&& d2 == d1
        },
{
}

} // verus!
