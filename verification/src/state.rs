//! The counting state machine: a pure, total transition function over
//! `{Idle, Counting(c)}` driven by `{Reset, TimerElapsed, ButtonPress}`.
//!
//! The counter is bounded: `count` stays in `[0, 32]`, and a `TimerElapsed`
//! arriving at `Counting(32)` returns the machine to `Idle`.

use vstd::prelude::*;

verus! {

/// Largest value the counter reaches; one more elapsed tick returns to `Idle`.
pub const COUNT_LIMIT: u32 = 32;

/// The state owned by the update handler: either idle, or counting ticks.
#[derive(Clone, Copy, Debug, PartialEq, Eq, Structural)]
pub enum State {
    Idle,
    Counting { count: u32 },
}

/// A hardware event, built at the interrupt boundary and consumed by exactly
/// one state update.
#[derive(Clone, Copy, Debug, PartialEq, Eq, Structural)]
pub enum Event {
    Reset,
    TimerElapsed,
    ButtonPress,
}

/// The transition table:
///
/// | Current       | Event                      | Next           |
/// |---------------|----------------------------|----------------|
/// | any           | `Reset`                    | `Idle`         |
/// | `Idle`        | `ButtonPress`              | `Counting(0)`  |
/// | `Counting(c)` | `TimerElapsed`, `c < 32`   | `Counting(c+1)`|
/// | `Counting(c)` | `TimerElapsed`, `c >= 32`  | `Idle`         |
/// | `Idle`        | `TimerElapsed`             | `Idle`         |
/// | `Counting(c)` | `ButtonPress`              | `Counting(c)`  |
pub open spec fn spec_update(s: State, event: Event) -> State {
    match (s, event) {
        (_, Event::Reset) => State::Idle,
        (State::Idle, Event::ButtonPress) => State::Counting { count: 0 },
        (State::Counting { count }, Event::TimerElapsed) => {
            if count < COUNT_LIMIT {
                State::Counting { count: (count + 1) as u32 }
            } else {
                State::Idle
            }
        }
        (s2, _) => s2,
    }
}

impl State {
    /// The counter never leaves `[0, COUNT_LIMIT]`.
    pub open spec fn wf(self) -> bool {
        self matches State::Counting { count } ==> count <= COUNT_LIMIT
    }

    /// The numeric value shown on the LEDs: the count while counting, else 0.
    pub open spec fn spec_value(self) -> u32 {
        match self {
            State::Idle => 0,
            State::Counting { count } => count,
        }
    }

    /// Whether the machine is counting (and the timer must stay armed).
    pub open spec fn spec_active(self) -> bool {
        self is Counting
    }

    /// Apply one event in place, following the transition table exactly.
    /// Total: every `(state, event)` pair is covered.
    pub fn update(&mut self, event: Event)
        ensures
            *final(self) == spec_update(*old(self), event),
    {
        *self = match (*self, event) {
            (_, Event::Reset) => State::Idle,
            (State::Idle, Event::ButtonPress) => State::Counting { count: 0 },
            (State::Counting { count }, Event::TimerElapsed) => {
                if count < COUNT_LIMIT {
                    State::Counting { count: count + 1 }
                } else {
                    State::Idle
                }
            }
            (s, _) => s,
        };
    }

    /// True exactly while counting.
    pub fn active(&self) -> (r: bool)
        ensures
            r == self.spec_active(),
    {
        matches!(self, State::Counting { .. })
    }

    /// The value driven onto the LED bank.
    pub fn value(&self) -> (r: u32)
        ensures
            r == self.spec_value(),
    {
        if let State::Counting { count } = self {
            *count
        } else {
            0
        }
    }
}

/// Every transition preserves the counter bound: from a well-formed state,
/// `update` never produces a count above `COUNT_LIMIT`.
pub proof fn lemma_update_preserves_wf(s: State, event: Event)
    requires
        s.wf(),
    ensures
        spec_update(s, event).wf(),
{
}

/// The two no-op rows of the table: a timer tick while idle and a button
/// press while counting leave the state unchanged.
pub proof fn lemma_update_noop_cases(c: u32)
    ensures
        spec_update(State::Idle, Event::TimerElapsed) == State::Idle,
        spec_update(State::Counting { count: c }, Event::ButtonPress) == (State::Counting {
            count: c,
        }),
{
}

/// Reset is absorbing and idempotent: it reaches `Idle` from every state,
/// and a second Reset changes nothing.
pub proof fn lemma_reset_idempotent(s: State)
    ensures
        spec_update(s, Event::Reset) == State::Idle,
        spec_update(spec_update(s, Event::Reset), Event::Reset) == spec_update(s, Event::Reset),
{
}

/// The state after feeding `n` consecutive `TimerElapsed` events to `s`.
pub open spec fn after_ticks(s: State, n: nat) -> State
    decreases n,
{
    if n == 0 {
        s
    } else {
        after_ticks(spec_update(s, Event::TimerElapsed), (n - 1) as nat)
    }
}

/// While the bound is not hit, each tick adds exactly one to the count.
pub proof fn lemma_ticks_add(c: u32, n: nat)
    requires
        c + n <= COUNT_LIMIT,
    ensures
        after_ticks(State::Counting { count: c }, n) == (State::Counting {
            count: (c + n) as u32,
        }),
    decreases n,
{
    if n > 0 {
        lemma_ticks_add((c + 1) as u32, (n - 1) as nat);
    }
}

/// However many ticks arrive, a well-formed state stays well-formed: the
/// count never exceeds `COUNT_LIMIT`.
pub proof fn lemma_ticks_preserve_wf(s: State, n: nat)
    requires
        s.wf(),
    ensures
        after_ticks(s, n).wf(),
    decreases n,
{
    if n > 0 {
        lemma_update_preserves_wf(s, Event::TimerElapsed);
        lemma_ticks_preserve_wf(spec_update(s, Event::TimerElapsed), (n - 1) as nat);
    }
}

/// Monotonic bounded counting: a button press while idle starts at 0;
/// 32 elapsed ticks then reach `Counting(32)` (never `Counting(33)`),
/// and the 33rd tick returns the machine to `Idle`.
pub proof fn lemma_bounded_count_cycle()
    ensures
        spec_update(State::Idle, Event::ButtonPress) == (State::Counting { count: 0 }),
        after_ticks(State::Counting { count: 0 }, 32) == (State::Counting { count: 32 }),
        after_ticks(State::Counting { count: 0 }, 33) == State::Idle,
{
    lemma_ticks_add(0, 32);
    assert(after_ticks(State::Counting { count: 0 }, 33) == spec_update(
        after_ticks(State::Counting { count: 0 }, 32),
        Event::TimerElapsed,
    )) by {
        lemma_after_ticks_snoc(State::Counting { count: 0 }, 32);
    }
}

/// Unfolding `after_ticks` at the far end: `n + 1` ticks are `n` ticks
/// followed by one more.
pub proof fn lemma_after_ticks_snoc(s: State, n: nat)
    ensures
        after_ticks(s, n + 1) == spec_update(after_ticks(s, n), Event::TimerElapsed),
    decreases n,
{
    let s1 = spec_update(s, Event::TimerElapsed);
    assert(after_ticks(s, n + 1) == after_ticks(s1, n));
    if n > 0 {
        lemma_after_ticks_snoc(s1, (n - 1) as nat);
        assert(after_ticks(s, n) == after_ticks(s1, (n - 1) as nat));
    }
}

} // verus!
