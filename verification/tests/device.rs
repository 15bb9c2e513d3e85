use led_counter::dispatcher::{Dispatcher, HandlerId};
use led_counter::firmware::{FatalError, Firmware, TIMER_INTERVAL_US};
use led_counter::state::{Event, State};
use led_counter::timer::HwTimer;

fn leds(fw: &Firmware) -> [bool; 4] {
    [
        fw.led_is_lit(0),
        fw.led_is_lit(1),
        fw.led_is_lit(2),
        fw.led_is_lit(3),
    ]
}

#[test]
fn end_to_end_scenario() {
    // Boot: state Idle, LEDs all off, one Reset update queued.
    let mut fw = Firmware::boot(2);
    assert_eq!(fw.state, State::Idle);
    assert_eq!(leds(&fw), [false, false, false, false]);
    assert!(fw.stamps_available());

    // The queued Reset drains: still Idle, LEDs off, timer not armed.
    assert_eq!(fw.step(), Some((HandlerId::Update, Ok(()))));
    assert_eq!(fw.state, State::Idle);
    assert_eq!(leds(&fw), [false, false, false, false]);
    assert!(!fw.timer.running);
    assert_eq!(fw.step(), None);

    // Button press: the edge latches, its handler runs, then the update:
    // Counting(0), pattern 0000, timer armed for 200 ms.
    assert_eq!(fw.button_edge(), Ok(()));
    assert!(fw.button_pending);
    assert_eq!(fw.step(), Some((HandlerId::Button, Ok(()))));
    assert!(!fw.button_pending);
    assert_eq!(fw.step(), Some((HandlerId::Update, Ok(()))));
    assert_eq!(fw.state, State::Counting { count: 0 });
    assert_eq!(leds(&fw), [false, false, false, false]);
    assert!(fw.timer.running);
    assert_eq!(fw.timer.interval_us, TIMER_INTERVAL_US);
    assert_eq!(TIMER_INTERVAL_US, 200_000);

    // Three timer periods elapse: Counting(3), the two low LEDs lit.
    let mut i: u32 = 0;
    while i < 3 {
        assert_eq!(fw.timer_tick(), Ok(()));
        assert!(fw.timer.overflow_pending);
        assert_eq!(fw.step(), Some((HandlerId::TimerOvf, Ok(()))));
        assert!(!fw.timer.overflow_pending);
        assert_eq!(fw.step(), Some((HandlerId::Update, Ok(()))));
        i = i + 1;
    }
    assert_eq!(fw.state, State::Counting { count: 3 });
    assert_eq!(leds(&fw), [true, true, false, false]);

    // A Reset arrives: Idle again, LEDs off, the timer is not re-armed.
    let armed_interval = fw.timer.interval_us;
    assert_eq!(fw.dispatcher.spawn(HandlerId::Update, Event::Reset), Ok(()));
    assert_eq!(fw.step(), Some((HandlerId::Update, Ok(()))));
    assert_eq!(fw.state, State::Idle);
    assert_eq!(leds(&fw), [false, false, false, false]);
    assert_eq!(fw.timer.interval_us, armed_interval);
    assert_eq!(fw.step(), None);
}

#[test]
fn full_count_cycle_through_device() {
    let mut fw = Firmware::boot(2);
    assert_eq!(fw.step(), Some((HandlerId::Update, Ok(()))));
    assert_eq!(fw.button_edge(), Ok(()));
    assert_eq!(fw.step(), Some((HandlerId::Button, Ok(()))));
    assert_eq!(fw.step(), Some((HandlerId::Update, Ok(()))));
    let mut i: u32 = 0;
    while i < 32 {
        assert_eq!(fw.timer_tick(), Ok(()));
        assert_eq!(fw.step(), Some((HandlerId::TimerOvf, Ok(()))));
        assert_eq!(fw.step(), Some((HandlerId::Update, Ok(()))));
        i = i + 1;
    }
    assert_eq!(fw.state, State::Counting { count: 32 });
    // Pattern shows the low four bits of 32: all LEDs off.
    assert_eq!(leds(&fw), [false, false, false, false]);
    // The 33rd elapsed tick returns the machine to Idle.
    assert_eq!(fw.timer_tick(), Ok(()));
    assert_eq!(fw.step(), Some((HandlerId::TimerOvf, Ok(()))));
    assert_eq!(fw.step(), Some((HandlerId::Update, Ok(()))));
    assert_eq!(fw.state, State::Idle);
}

#[test]
fn dropped_update_is_reported() {
    // Queue depth 1: the boot-time Reset still sits in the queue when the
    // button handler tries to spawn, so the spawn is dropped and counted.
    let mut fw = Firmware::boot(1);
    assert_eq!(fw.dropped_updates, 0);
    assert_eq!(fw.button_edge(), Ok(()));
    assert_eq!(fw.step(), Some((HandlerId::Button, Ok(()))));
    assert_eq!(fw.dropped_updates, 1);
    // The queued Reset was neither lost nor reordered.
    assert_eq!(fw.step(), Some((HandlerId::Update, Ok(()))));
    assert_eq!(fw.state, State::Idle);
}

#[test]
fn queue_depth_two_is_lossless_for_double_event() {
    // With the capacity raised to 2, a button press and a timer overflow
    // arriving back to back are both processed, in arrival order.
    let mut fw = Firmware::boot(2);
    assert_eq!(fw.step(), Some((HandlerId::Update, Ok(()))));
    assert_eq!(fw.button_edge(), Ok(()));
    assert_eq!(fw.step(), Some((HandlerId::Button, Ok(()))));
    assert_eq!(fw.step(), Some((HandlerId::Update, Ok(()))));
    assert_eq!(fw.state, State::Counting { count: 0 });

    // Two interrupts before the update handler gets to run.
    assert_eq!(fw.timer_tick(), Ok(()));
    assert_eq!(fw.button_edge(), Ok(()));
    assert_eq!(fw.step(), Some((HandlerId::TimerOvf, Ok(()))));
    assert_eq!(fw.step(), Some((HandlerId::Button, Ok(()))));
    assert_eq!(fw.dropped_updates, 0);
    // Both updates run, oldest first: the tick counts, the press is a no-op.
    assert_eq!(fw.step(), Some((HandlerId::Update, Ok(()))));
    assert_eq!(fw.state, State::Counting { count: 1 });
    assert_eq!(fw.step(), Some((HandlerId::Update, Ok(()))));
    assert_eq!(fw.state, State::Counting { count: 1 });
}

#[test]
fn unconfigured_timer_is_fatal() {
    // Arming a never-configured timer is the fatal configuration error.
    let mut bare = HwTimer::new(false);
    assert!(bare.start(1000).is_err());

    let mut fw = Firmware {
        dispatcher: Dispatcher::new(1),
        state: State::Idle,
        pins: vec![true, true, true, true],
        timer: HwTimer::new(false),
        button_pending: false,
        current_priority: 0,
        dropped_updates: 0,
    };
    assert_eq!(
        fw.update_led(Event::ButtonPress),
        Err(FatalError::TimerStart)
    );
    // The state and the LEDs were still driven; only the arming failed.
    assert_eq!(fw.state, State::Counting { count: 0 });
    assert!(!fw.timer.running);
}

#[test]
fn idle_update_does_not_arm_timer() {
    let mut fw = Firmware::boot(1);
    assert_eq!(fw.step(), Some((HandlerId::Update, Ok(()))));
    assert_eq!(fw.update_led(Event::TimerElapsed), Ok(()));
    assert_eq!(fw.state, State::Idle);
    assert!(!fw.timer.running);
}
