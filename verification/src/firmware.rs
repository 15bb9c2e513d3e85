//! The orchestration layer: the whole device as one model.
//!
//! Hardware events (a button edge, a timer overflow) latch a pending flag
//! and make the bound interrupt handler ready. Each interrupt handler is a
//! thin producer: it clears its hardware flag and spawns the update handler
//! with a typed event. The update handler is the sole owner of the state
//! machine and of the LED pins: it applies the event, drives the four
//! active-low pins from the new value, and while counting re-arms the shared
//! timer under the priority ceiling. A spawn refused by a full queue is
//! counted in `dropped_updates`, never silently lost.

use vstd::prelude::*;
use crate::dispatcher::{
    Dispatcher,
    HandlerId,
    Pending,
    SpawnError,
    PRIO_INTERRUPT,
    PRIO_UPDATE,
    popped_front,
    spawn_post,
};
use crate::output::{pin_levels, spec_pin_level, LED_COUNT};
use crate::state::{spec_update, Event, State};
use crate::timer::{HwTimer, TimerError};

verus! {

/// The priority ceiling of the shared timer: the highest priority of any
/// party that ever touches it (the timer-overflow handler).
pub const TIMER_CEILING: u8 = 2;

/// The period the timer is re-armed for while counting, in microseconds
/// (200 ms).
pub const TIMER_INTERVAL_US: u32 = 200000;

/// An unrecoverable configuration error: the system must halt.
#[derive(Clone, Copy, Debug, PartialEq, Eq, Structural)]
pub enum FatalError {
    /// Arming the shared timer failed: a design-time invariant violation.
    TimerStart,
}

/// Whether work at priority `contender` may preempt code running at
/// effective priority `running_at`: only strictly higher priority preempts.
pub open spec fn can_preempt(running_at: u8, contender: u8) -> bool {
    contender > running_at
}

/// Increment a diagnostic counter, sticking at the maximum instead of
/// wrapping.
pub open spec fn sat_inc(c: u32) -> u32 {
    if c == u32::MAX {
        c
    } else {
        (c + 1) as u32
    }
}

/// The device: dispatcher, state machine, LED pin levels, shared timer, the
/// button's pending flag, the running context's effective priority, and the
/// count of update spawns refused by a full queue.
pub struct Firmware {
    pub dispatcher: Dispatcher,
    pub state: State,
    /// Electrical level of each of the four LED pins (active-low wiring).
    pub pins: Vec<bool>,
    pub timer: HwTimer,
    /// The button interrupt's pending bit, latched by hardware.
    pub button_pending: bool,
    /// Effective priority of the code now running; 0 when no handler runs.
    pub current_priority: u8,
    /// Update invocations refused because the queue was full: the overflow
    /// report demanded by the drop policy.
    pub dropped_updates: u32,
}

/// The four pins show `value`: pin `i` carries the inverted bit `i` of the
/// 4-bit pattern.
pub open spec fn pins_show(fw: Firmware, value: u32) -> bool {
    forall|i: u32| i < 4 ==> fw.pins@[i as int] == spec_pin_level(value, i)
}

impl Firmware {
    /// A well-formed device: sound dispatcher, a full bank of pins, and a
    /// counter within its bound.
    pub open spec fn wf(self) -> bool {
        &&& self.dispatcher.wf()
        &&& self.pins@.len() == LED_COUNT
        &&& self.state.wf()
    }

    /// Bring the device up: state `Idle`, all LEDs off, the timer configured
    /// but not running, and one `Reset` update queued so the first dispatch
    /// drives the outputs. `update_queue_depth` is the update handler's
    /// queue capacity, the stated configuration parameter of the drop
    /// policy.
    pub fn boot(update_queue_depth: usize) -> (fw: Firmware)
        requires
            update_queue_depth >= 1,
        ensures
            fw.wf(),
            fw.state == State::Idle,
            pins_show(fw, 0),
            fw.timer == (HwTimer {
                configured: true,
                running: false,
                interval_us: 0,
                overflow_pending: false,
            }),
            fw.button_pending == false,
            fw.current_priority == 0,
            fw.dropped_updates == 0,
            fw.dispatcher.update.capacity == update_queue_depth,
            fw.dispatcher.update.queue@.len() == 1,
            fw.dispatcher.update.queue@[0].event == Event::Reset,
            !fw.dispatcher.pending(HandlerId::Button),
            !fw.dispatcher.pending(HandlerId::TimerOvf),
            fw.dispatcher.next_stamp == 1,
    {
        let mut dispatcher = Dispatcher::new(update_queue_depth);
        let _ = dispatcher.spawn(HandlerId::Update, Event::Reset);
        Firmware {
            dispatcher,
            state: State::Idle,
            pins: pin_levels(0),
            timer: HwTimer::new(true),
            button_pending: false,
            current_priority: 0,
            dropped_updates: 0,
        }
    }

    /// A rising edge on the button pin: hardware latches the pending bit and
    /// the button handler becomes ready. A second edge while one is already
    /// pending is refused (the pending bit is single).
    pub fn button_edge(&mut self) -> (r: Result<(), SpawnError>)
        requires
            old(self).wf(),
            old(self).dispatcher.next_stamp < u64::MAX,
        ensures
            final(self).wf(),
            final(self).button_pending == true,
            spawn_post(
                old(self).dispatcher,
                final(self).dispatcher,
                HandlerId::Button,
                Event::ButtonPress,
                r,
            ),
            final(self).state == old(self).state,
            final(self).pins == old(self).pins,
            final(self).timer == old(self).timer,
            final(self).current_priority == old(self).current_priority,
            final(self).dropped_updates == old(self).dropped_updates,
    {
        self.button_pending = true;
        self.dispatcher.spawn(HandlerId::Button, Event::ButtonPress)
    }

    /// The timer period elapsing: hardware raises the overflow flag and the
    /// timer handler becomes ready. Only a running timer overflows.
    pub fn timer_tick(&mut self) -> (r: Result<(), SpawnError>)
        requires
            old(self).wf(),
            old(self).timer.running,
            old(self).dispatcher.next_stamp < u64::MAX,
        ensures
            final(self).wf(),
            final(self).timer == (HwTimer { overflow_pending: true, ..old(self).timer }),
            spawn_post(
                old(self).dispatcher,
                final(self).dispatcher,
                HandlerId::TimerOvf,
                Event::TimerElapsed,
                r,
            ),
            final(self).state == old(self).state,
            final(self).pins == old(self).pins,
            final(self).button_pending == old(self).button_pending,
            final(self).current_priority == old(self).current_priority,
            final(self).dropped_updates == old(self).dropped_updates,
    {
        self.timer.overflow();
        self.dispatcher.spawn(HandlerId::TimerOvf, Event::TimerElapsed)
    }

    /// Spawn the update handler with `event`; a refusal is counted in
    /// `dropped_updates`, so no drop goes unreported.
    fn deliver_update(&mut self, event: Event)
        requires
            old(self).dispatcher.wf(),
            old(self).dispatcher.next_stamp < u64::MAX,
        ensures
            final(self).dispatcher.wf(),
            delivered(
                old(self).dispatcher,
                final(self).dispatcher,
                old(self).dropped_updates,
                final(self).dropped_updates,
                event,
            ),
            final(self).state == old(self).state,
            final(self).pins == old(self).pins,
            final(self).timer == old(self).timer,
            final(self).button_pending == old(self).button_pending,
            final(self).current_priority == old(self).current_priority,
    {
        match self.dispatcher.spawn(HandlerId::Update, event) {
            Ok(()) => {},
            Err(SpawnError::QueueFull) => {
                if self.dropped_updates < u32::MAX {
                    self.dropped_updates = self.dropped_updates + 1;
                }
            },
        }
    }

    /// The button handler: clears the pending interrupt flag, then spawns an
    /// update with `ButtonPress`. It never inspects or mutates the state.
    pub fn press(&mut self)
        requires
            old(self).wf(),
            old(self).dispatcher.next_stamp < u64::MAX,
        ensures
            final(self).wf(),
            final(self).button_pending == false,
            delivered(
                old(self).dispatcher,
                final(self).dispatcher,
                old(self).dropped_updates,
                final(self).dropped_updates,
                Event::ButtonPress,
            ),
            final(self).state == old(self).state,
            final(self).pins == old(self).pins,
            final(self).timer == old(self).timer,
            final(self).current_priority == old(self).current_priority,
    {
        self.button_pending = false;
        self.deliver_update(Event::ButtonPress);
    }

    /// The timer-overflow handler: under the priority ceiling it clears the
    /// timer's status flags, then spawns an update with `TimerElapsed`. It
    /// never inspects or mutates the state.
    pub fn handle_timer(&mut self)
        requires
            old(self).wf(),
            old(self).dispatcher.next_stamp < u64::MAX,
        ensures
            final(self).wf(),
            final(self).timer == (HwTimer { overflow_pending: false, ..old(self).timer }),
            delivered(
                old(self).dispatcher,
                final(self).dispatcher,
                old(self).dropped_updates,
                final(self).dropped_updates,
                Event::TimerElapsed,
            ),
            final(self).state == old(self).state,
            final(self).pins == old(self).pins,
            final(self).button_pending == old(self).button_pending,
            final(self).current_priority == old(self).current_priority,
    {
        let saved = self.current_priority;
        self.current_priority = TIMER_CEILING;
        self.timer.clear_flags();
        self.current_priority = saved;
        self.deliver_update(Event::TimerElapsed);
    }

    /// The update/orchestration handler, sole owner of the state and the LED
    /// pins: apply the event to the state machine, drive the four pins from
    /// the new value, and while counting re-arm the shared timer for
    /// `TIMER_INTERVAL_US` under the priority ceiling. A failed arming is
    /// the fatal configuration error.
    pub fn update_led(&mut self, event: Event) -> (r: Result<(), FatalError>)
        requires
            old(self).wf(),
        ensures
            final(self).wf(),
            final(self).state == spec_update(old(self).state, event),
            pins_show(*final(self), spec_update(old(self).state, event).spec_value()),
            final(self).dispatcher == old(self).dispatcher,
            final(self).button_pending == old(self).button_pending,
            final(self).dropped_updates == old(self).dropped_updates,
            final(self).current_priority == old(self).current_priority,
            ({
                let next = spec_update(old(self).state, event);
                if next.spec_active() {
                    if old(self).timer.configured {
                        &&& r is Ok
                        &&& final(self).timer == (HwTimer {
                            running: true,
                            interval_us: TIMER_INTERVAL_US,
                            ..old(self).timer
                        })
                    } else {
                        &&& r == Err::<(), FatalError>(FatalError::TimerStart)
                        &&& final(self).timer == old(self).timer
                    }
                } else {
                    &&& r is Ok
                    &&& final(self).timer == old(self).timer
                }
            }),
    {
        self.state.update(event);
        let n = self.state.value();
        self.pins = pin_levels(n);
        if self.state.active() {
            // Priority-ceiling critical section around the shared timer.
            let saved = self.current_priority;
            self.current_priority = TIMER_CEILING;
            let started = self.timer.start(TIMER_INTERVAL_US);
            self.current_priority = saved;
            match started {
                Ok(()) => Ok(()),
                Err(TimerError::NotConfigured) => Err(FatalError::TimerStart),
            }
        } else {
            Ok(())
        }
    }

    /// One dispatch: select the ready handler of highest priority (oldest
    /// first among ties), consume its pending invocation and run it to
    /// completion at its priority. `None` when nothing is pending.
    pub fn step(&mut self) -> (r: Option<(HandlerId, Result<(), FatalError>)>)
        requires
            old(self).wf(),
            old(self).dispatcher.next_stamp < u64::MAX,
        ensures
            final(self).wf(),
            match r {
                None => {
                    &&& *final(self) == *old(self)
                    &&& !old(self).dispatcher.pending(HandlerId::Button)
                    &&& !old(self).dispatcher.pending(HandlerId::TimerOvf)
                    &&& !old(self).dispatcher.pending(HandlerId::Update)
                },
                Some((h, res)) => {
                    &&& old(self).dispatcher.pending(h)
                    &&& (old(self).dispatcher.pending(HandlerId::Button) ==> old(
                        self,
                    ).dispatcher.precedes(h, HandlerId::Button))
                    &&& (old(self).dispatcher.pending(HandlerId::TimerOvf) ==> old(
                        self,
                    ).dispatcher.precedes(h, HandlerId::TimerOvf))
                    &&& (old(self).dispatcher.pending(HandlerId::Update) ==> old(
                        self,
                    ).dispatcher.precedes(h, HandlerId::Update))
                    &&& step_post(*old(self), *final(self), h, res)
                },
            },
    {
        match self.dispatcher.take_next() {
            None => None,
            Some((h, event)) => {
                let saved = self.current_priority;
                let res = match h {
                    HandlerId::Button => {
                        self.current_priority = PRIO_INTERRUPT;
                        self.press();
                        Ok(())
                    },
                    HandlerId::TimerOvf => {
                        self.current_priority = PRIO_INTERRUPT;
                        self.handle_timer();
                        Ok(())
                    },
                    HandlerId::Update => {
                        self.current_priority = PRIO_UPDATE;
                        self.update_led(event)
                    },
                };
                self.current_priority = saved;
                Some((h, res))
            },
        }
    }

    /// Whether LED `i` is lit: its active-low pin is driven low.
    pub fn led_is_lit(&self, i: usize) -> (b: bool)
        requires
            self.wf(),
            i < LED_COUNT,
        ensures
            b == !self.pins@[i as int],
    {
        !self.pins[i]
    }

    /// Whether another arrival stamp can still be handed out; exhausting the
    /// 64-bit arrival counter is not reachable in a device's uptime, but the
    /// dispatch entry points ask their caller to check.
    pub fn stamps_available(&self) -> (b: bool)
        ensures
            b == (self.dispatcher.next_stamp < u64::MAX),
    {
        self.dispatcher.next_stamp < u64::MAX
    }
}

/// How delivering `event` to the update handler relates the dispatcher and
/// the drop counter before and after: with room the spawn succeeds; with a
/// full queue nothing changes but the report counter.
pub open spec fn delivered(
    pre: Dispatcher,
    post: Dispatcher,
    pre_drops: u32,
    post_drops: u32,
    event: Event,
) -> bool {
    if pre.update.queue@.len() < pre.update.capacity {
        &&& spawn_post(pre, post, HandlerId::Update, event, Ok(()))
        &&& post_drops == pre_drops
    } else {
        &&& post == pre
        &&& post_drops == sat_inc(pre_drops)
    }
}

/// The dispatcher-and-report effect of running an interrupt handler `own`
/// (button or timer overflow): its own queue loses the front entry, the other
/// interrupt handler's queue is untouched, and `event` is delivered to the
/// update handler under the drop policy.
pub open spec fn interrupt_step_dispatch(
    pre: Firmware,
    post: Firmware,
    own: HandlerId,
    event: Event,
) -> bool {
    let pd = pre.dispatcher;
    let qd = post.dispatcher;
    &&& qd.slot(own).queue@ == pd.slot(own).queue@.remove(0)
    &&& qd.slot(own).priority == pd.slot(own).priority
    &&& qd.slot(own).capacity == pd.slot(own).capacity
    &&& (own != HandlerId::Button ==> qd.button == pd.button)
    &&& (own != HandlerId::TimerOvf ==> qd.timer_ovf == pd.timer_ovf)
    &&& if pd.update.queue@.len() < pd.update.capacity {
        &&& qd.update.queue@ == pd.update.queue@.push(Pending { stamp: pd.next_stamp, event })
        &&& qd.update.priority == pd.update.priority
        &&& qd.update.capacity == pd.update.capacity
        &&& qd.next_stamp == pd.next_stamp + 1
        &&& post.dropped_updates == pre.dropped_updates
    } else {
        &&& qd.update == pd.update
        &&& qd.next_stamp == pd.next_stamp
        &&& post.dropped_updates == sat_inc(pre.dropped_updates)
    }
}

/// What one dispatch of handler `h` does to the device, relating the state
/// before (`pre`) and after (`post`); `res` is the handler's outcome.
pub open spec fn step_post(
    pre: Firmware,
    post: Firmware,
    h: HandlerId,
    res: Result<(), FatalError>,
) -> bool {
    let event = pre.dispatcher.slot(h).queue@[0].event;
    &&& post.current_priority == pre.current_priority
    &&& match h {
        HandlerId::Button => {
            &&& res is Ok
            &&& post.button_pending == false
            &&& post.state == pre.state
            &&& post.pins == pre.pins
            &&& post.timer == pre.timer
            &&& interrupt_step_dispatch(pre, post, HandlerId::Button, Event::ButtonPress)
        },
        HandlerId::TimerOvf => {
            &&& res is Ok
            &&& post.button_pending == pre.button_pending
            &&& post.state == pre.state
            &&& post.pins == pre.pins
            &&& post.timer == (HwTimer { overflow_pending: false, ..pre.timer })
            &&& interrupt_step_dispatch(pre, post, HandlerId::TimerOvf, Event::TimerElapsed)
        },
        HandlerId::Update => {
            &&& post.button_pending == pre.button_pending
            &&& post.dropped_updates == pre.dropped_updates
            &&& popped_front(pre.dispatcher, post.dispatcher, HandlerId::Update)
            &&& post.state == spec_update(pre.state, event)
            &&& pins_show(post, spec_update(pre.state, event).spec_value())
            &&& ({
                let next = spec_update(pre.state, event);
                if next.spec_active() {
                    if pre.timer.configured {
                        &&& res is Ok
                        &&& post.timer == (HwTimer {
                            running: true,
                            interval_us: TIMER_INTERVAL_US,
                            ..pre.timer
                        })
                    } else {
                        &&& res == Err::<(), FatalError>(FatalError::TimerStart)
                        &&& post.timer == pre.timer
                    }
                } else {
                    &&& res is Ok
                    &&& post.timer == pre.timer
                }
            })
        },
    }
}

/// The priority-ceiling guarantee for the shared timer: code whose effective
/// priority has been raised to the ceiling cannot be preempted by any party
/// that touches the timer — neither an interrupt handler nor the update
/// handler — so no access ever observes the timer mid-update.
pub proof fn lemma_ceiling_excludes_timer_parties(running_at: u8)
    requires
        running_at >= TIMER_CEILING,
    ensures
        !can_preempt(running_at, PRIO_INTERRUPT),
        !can_preempt(running_at, PRIO_UPDATE),
{
}

} // verus!
