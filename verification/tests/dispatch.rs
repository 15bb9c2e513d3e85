use led_counter::dispatcher::{Dispatcher, HandlerId, SpawnError};
use led_counter::state::Event;

#[test]
fn spawn_then_take_round_trip() {
    let mut d = Dispatcher::new(2);
    assert_eq!(d.spawn(HandlerId::Update, Event::ButtonPress), Ok(()));
    let next = d.take_next();
    assert_eq!(next, Some((HandlerId::Update, Event::ButtonPress)));
    assert_eq!(d.take_next(), None);
}

#[test]
fn back_to_back_spawns_kept_in_arrival_order() {
    // With room for both, two spawns posted before the handler runs are
    // both processed, in arrival order.
    let mut d = Dispatcher::new(2);
    assert_eq!(d.spawn(HandlerId::Update, Event::ButtonPress), Ok(()));
    assert_eq!(d.spawn(HandlerId::Update, Event::TimerElapsed), Ok(()));
    assert_eq!(d.take_next(), Some((HandlerId::Update, Event::ButtonPress)));
    assert_eq!(d.take_next(), Some((HandlerId::Update, Event::TimerElapsed)));
    assert_eq!(d.take_next(), None);
}

#[test]
fn full_queue_refuses_spawn_and_keeps_order() {
    // With a single-slot queue the second spawn is refused and reported;
    // the queued invocation is untouched.
    let mut d = Dispatcher::new(1);
    assert_eq!(d.spawn(HandlerId::Update, Event::ButtonPress), Ok(()));
    assert_eq!(
        d.spawn(HandlerId::Update, Event::TimerElapsed),
        Err(SpawnError::QueueFull)
    );
    assert_eq!(d.take_next(), Some((HandlerId::Update, Event::ButtonPress)));
    assert_eq!(d.take_next(), None);
}

#[test]
fn higher_priority_runs_first() {
    // The update handler was posted first, but an interrupt handler
    // (priority 2) preempts it in the dispatch order.
    let mut d = Dispatcher::new(2);
    assert_eq!(d.spawn(HandlerId::Update, Event::Reset), Ok(()));
    assert_eq!(d.spawn(HandlerId::Button, Event::ButtonPress), Ok(()));
    assert_eq!(d.take_next(), Some((HandlerId::Button, Event::ButtonPress)));
    assert_eq!(d.take_next(), Some((HandlerId::Update, Event::Reset)));
}

#[test]
fn equal_priority_runs_oldest_first() {
    // Button and timer handlers share a priority: the older arrival wins.
    let mut d = Dispatcher::new(1);
    assert_eq!(d.spawn(HandlerId::TimerOvf, Event::TimerElapsed), Ok(()));
    assert_eq!(d.spawn(HandlerId::Button, Event::ButtonPress), Ok(()));
    assert_eq!(d.take_next(), Some((HandlerId::TimerOvf, Event::TimerElapsed)));
    assert_eq!(d.take_next(), Some((HandlerId::Button, Event::ButtonPress)));

    let mut d2 = Dispatcher::new(1);
    assert_eq!(d2.spawn(HandlerId::Button, Event::ButtonPress), Ok(()));
    assert_eq!(d2.spawn(HandlerId::TimerOvf, Event::TimerElapsed), Ok(()));
    assert_eq!(d2.take_next(), Some((HandlerId::Button, Event::ButtonPress)));
    assert_eq!(d2.take_next(), Some((HandlerId::TimerOvf, Event::TimerElapsed)));
}

#[test]
fn interrupt_pending_bit_is_single() {
    // Each interrupt handler has one pending slot: a second trigger while
    // one is pending is refused, modelling the latched hardware bit.
    let mut d = Dispatcher::new(1);
    assert_eq!(d.spawn(HandlerId::Button, Event::ButtonPress), Ok(()));
    assert_eq!(
        d.spawn(HandlerId::Button, Event::ButtonPress),
        Err(SpawnError::QueueFull)
    );
}
