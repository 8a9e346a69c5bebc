use pomod::state::TimerState;
use pomod::status::decimal_string;
use pomod::status::minutes;
use pomod::status::mm_ss_string;
use pomod::status::notification_body;
use pomod::status::notification_summary;
use pomod::status::seconds;
use pomod::status::status_line;
use pomod::status::two_digit_string;
use pomod::timer::Remaining;
use pomod::timer::Timer;

#[test]
fn minutes_and_seconds_split_a_duration() {
    assert_eq!(minutes(754_000), 12);
    assert_eq!(seconds(754_000), 34);
    assert_eq!(minutes(0), 0);
    assert_eq!(seconds(0), 0);
    assert_eq!(minutes(59_999), 0);
    assert_eq!(seconds(59_999), 59);
    assert_eq!(minutes(25 * 60 * 1000), 25);
    assert_eq!(seconds(25 * 60 * 1000), 0);
}

#[test]
fn decimal_rendering() {
    assert_eq!(decimal_string(0), "0");
    assert_eq!(decimal_string(7), "7");
    assert_eq!(decimal_string(42), "42");
    assert_eq!(decimal_string(1500), "1500");
}

#[test]
fn two_digit_rendering_pads_with_zero() {
    assert_eq!(two_digit_string(0), "00");
    assert_eq!(two_digit_string(5), "05");
    assert_eq!(two_digit_string(34), "34");
    assert_eq!(two_digit_string(59), "59");
}

#[test]
fn mm_ss_rendering() {
    assert_eq!(mm_ss_string(754_000), "12:34");
    assert_eq!(mm_ss_string(0), "00:00");
    assert_eq!(mm_ss_string(25 * 60 * 1000), "25:00");
    assert_eq!(mm_ss_string(5 * 60 * 1000), "05:00");
    assert_eq!(mm_ss_string(30 * 60 * 1000), "30:00");
}

#[test]
fn status_suffix_for_remaining_time() {
    let line = status_line(&TimerState::Work, &Remaining::Time(754_000));
    assert!(line.ends_with(" 12:34"));
}

#[test]
fn status_suffix_for_exhausted_phase() {
    let line = status_line(&TimerState::Work, &Remaining::Exhausted);
    assert!(line.ends_with(" 00:00"));
}

#[test]
fn status_line_is_glyph_space_time() {
    let glyph = TimerState::ShortBreak.pomicon();
    let line = status_line(&TimerState::ShortBreak, &Remaining::Time(300_000));
    assert_eq!(line, format!("{} 05:00", glyph));
}

#[test]
fn notification_texts() {
    assert_eq!(notification_summary(), "pomod: time is up");
    assert_eq!(notification_body(&TimerState::Work), "next up: pomodoro");
    assert_eq!(
        notification_body(&TimerState::ShortBreak),
        "next up: short break"
    );
    assert_eq!(
        notification_body(&TimerState::LongBreak),
        "next up: long break"
    );
}

#[test]
fn end_to_end_work_to_short_break() {
    let mut t = Timer::new(0);
    t.toggle(0);
    assert!(t.running);
    assert_eq!(t.state, TimerState::Work);
    assert_eq!(t.remaining_time, Remaining::Time(1500 * 1000));

    let notice = t.poll(0);
    assert_eq!(notice, None);
    let line = status_line(&t.state, &t.remaining_time);
    assert_eq!(line, format!("{} 25:00", TimerState::Work.pomicon()));

    // 1500 seconds of simulated wall time pass, then two polls.
    let first = t.poll(1500 * 1000);
    assert_eq!(first, None);
    assert_eq!(t.remaining_time, Remaining::Exhausted);
    let line = status_line(&t.state, &t.remaining_time);
    assert!(line.ends_with(" 00:00"));

    let second = t.poll(1500 * 1000 + 500);
    assert_eq!(second, Some(TimerState::ShortBreak));
    assert_eq!(t.state, TimerState::ShortBreak);
    assert_eq!(
        notification_body(&second.unwrap()),
        "next up: short break"
    );
    let line = status_line(&t.state, &t.remaining_time);
    assert!(line.ends_with(" 05:00"));
}
