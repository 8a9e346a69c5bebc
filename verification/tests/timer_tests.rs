use pomod::state::TimerState;
use pomod::timer::Remaining;
use pomod::timer::Timer;

#[test]
fn new_timer_is_stopped_and_uninitialized() {
    let t = Timer::new(7);
    assert!(!t.running);
    assert_eq!(t.state, TimerState::Uninitialized);
    assert_eq!(t.state_start_time, None);
    assert_eq!(t.remaining_time, Remaining::Time(25 * 60 * 1000));
    assert_eq!(t.last_poll, 7);
    assert_eq!(t.break_counter, 0);
}

#[test]
fn first_start_enters_work_with_full_duration() {
    let mut t = Timer::new(0);
    t.start(10);
    assert!(t.running);
    assert_eq!(t.state, TimerState::Work);
    assert_eq!(t.state_start_time, Some(10));
    assert_eq!(t.remaining_time, Remaining::Time(25 * 60 * 1000));
}

#[test]
fn start_twice_is_like_starting_once() {
    let mut once = Timer::new(0);
    once.start(10);
    let mut twice = Timer::new(0);
    twice.start(10);
    twice.start(900);
    assert_eq!(twice.running, once.running);
    assert_eq!(twice.state, once.state);
    assert_eq!(twice.state_start_time, once.state_start_time);
    assert_eq!(twice.remaining_time, once.remaining_time);
    assert_eq!(twice.break_counter, once.break_counter);
}

#[test]
fn stop_then_wait_then_start_does_not_decrease_remaining() {
    let mut t = Timer::new(0);
    t.start(0);
    // Burn the phase down to ten seconds left.
    t.poll(25 * 60 * 1000 - 10_000);
    assert_eq!(t.remaining_time, Remaining::Time(10_000));

    t.stop();
    assert_eq!(t.remaining_time, Remaining::Time(10_000));
    // Two seconds of wall time pass, with the usual polling ticks.
    let stop_at: u64 = 25 * 60 * 1000 - 10_000;
    t.poll(stop_at + 500);
    t.poll(stop_at + 1000);
    t.poll(stop_at + 1500);
    t.poll(stop_at + 2000);
    assert_eq!(t.remaining_time, Remaining::Time(10_000));

    t.start(stop_at + 2000);
    assert_eq!(t.remaining_time, Remaining::Time(10_000));
    // The poll right after resuming reads ~10s, not ~8s.
    t.poll(stop_at + 2000);
    assert_eq!(t.remaining_time, Remaining::Time(10_000));
}

#[test]
fn exhaustion_is_detected_then_transitions_on_the_next_poll() {
    let mut t = Timer::new(0);
    t.start(0);
    t.poll(25 * 60 * 1000 - 200);
    assert_eq!(t.remaining_time, Remaining::Time(200));

    // At least 200ms elapse: this poll only marks the exhaustion.
    let first = t.poll(25 * 60 * 1000);
    assert_eq!(first, None);
    assert_eq!(t.remaining_time, Remaining::Exhausted);
    assert_eq!(t.state, TimerState::Work);

    // The following poll transitions and reports exactly one notification.
    let second = t.poll(25 * 60 * 1000 + 500);
    assert_eq!(second, Some(TimerState::ShortBreak));
    assert_eq!(t.state, TimerState::ShortBreak);
    assert_eq!(t.remaining_time, Remaining::Time(5 * 60 * 1000));

    // And the one after that reports none.
    let third = t.poll(25 * 60 * 1000 + 1000);
    assert_eq!(third, None);
}

#[test]
fn poll_while_stopped_only_moves_the_poll_timestamp() {
    let mut t = Timer::new(0);
    let notice = t.poll(123_456);
    assert_eq!(notice, None);
    assert!(!t.running);
    assert_eq!(t.state, TimerState::Uninitialized);
    assert_eq!(t.remaining_time, Remaining::Time(25 * 60 * 1000));
    assert_eq!(t.last_poll, 123_456);
}

#[test]
fn toggle_alternates_start_and_stop() {
    let mut t = Timer::new(0);
    t.toggle(5);
    assert!(t.running);
    assert_eq!(t.state, TimerState::Work);
    t.toggle(10);
    assert!(!t.running);
    assert_eq!(t.state, TimerState::Work);
    t.toggle(15);
    assert!(t.running);
    // Resuming neither transitions the phase nor resets the duration.
    assert_eq!(t.state, TimerState::Work);
    assert_eq!(t.remaining_time, Remaining::Time(25 * 60 * 1000));
}

#[test]
fn full_cycle_of_phases_through_polling() {
    let mut t = Timer::new(0);
    t.start(0);
    let mut now = 0u64;
    let mut seen = Vec::new();
    // Run long enough to cross eight transitions.
    while seen.len() < 8 {
        now += 400_000;
        if let Some(next) = t.poll(now) {
            seen.push(next);
        }
    }
    assert_eq!(
        seen,
        vec![
            TimerState::ShortBreak,
            TimerState::Work,
            TimerState::ShortBreak,
            TimerState::Work,
            TimerState::ShortBreak,
            TimerState::Work,
            TimerState::LongBreak,
            TimerState::Work,
        ]
    );
}
