//! The stateful timer driver: start, stop, toggle, and the poll operation
//! that accounts elapsed wall-clock time and triggers phase transitions.
//!
//! Timestamps and durations are plain milliseconds. The host reads them
//! from a monotonic clock and passes them in; the timer itself never looks
//! at a clock.

use crate::state::BREAK_CYCLE;
use crate::state::TimerState;
use vstd::prelude::*;

verus! {

/// Time left in the current phase: either a positive number of
/// milliseconds, or the mark that the previous poll exhausted the phase
/// and the transition is pending.
#[derive(Copy, Clone, Debug, PartialEq, Eq, Structural)]
pub enum Remaining {
    /// Milliseconds left in the current phase; always positive.
    Time(u64),
    /// The phase ran out; the next poll performs the transition.
    Exhausted,
}

/// Milliseconds elapsed from `last` to `now`; zero when `now` is not
/// later (a monotonic clock never runs backwards, so only by a host bug).
pub open spec fn elapsed_ms(now: u64, last: u64) -> u64 {
    if now >= last {
        (now - last) as u64
    } else {
        0
    }
}

/// The Pomodoro timer: the current phase, whether time is being consumed,
/// the time left in the phase, and the bookkeeping for polling.
pub struct Timer {
    /// Whether time is currently being consumed.
    pub running: bool,
    /// The current phase.
    pub state: TimerState,
    /// Set once, at the very first start; `None` before it.
    pub state_start_time: Option<u64>,
    /// Time left in the current phase.
    pub remaining_time: Remaining,
    /// Timestamp of the previous poll, in milliseconds.
    pub last_poll: u64,
    /// Position within the break cycle; advances when leaving a work phase.
    pub break_counter: u8,
}

impl Timer {
    /// Well-formedness: the break counter stays inside the cycle, a
    /// running timer has seen its first start, and a phase that has time
    /// left has a positive amount of it.
    pub open spec fn wf(self) -> bool {
        &&& self.break_counter < BREAK_CYCLE
        &&& (self.running ==> self.state_start_time is Some)
        &&& (self.remaining_time matches Remaining::Time(d) ==> d > 0)
    }

    /// The timer after a phase transition: the next phase of the cycle,
    /// with the break counter advanced and the full duration of the new
    /// phase ahead of it.
    pub open spec fn transitioned(self) -> Timer {
        Timer {
            state: self.state.next_state(self.break_counter),
            break_counter: self.state.next_counter(self.break_counter),
            remaining_time: Remaining::Time(
                self.state.next_state(self.break_counter).spec_time(),
            ),
            ..self
        }
    }

    /// The timer after `start` at time `now_ms`: a no-op when already
    /// running; on the very first start it records the time and enters the
    /// first work phase; after a stop it only resumes consuming time.
    pub open spec fn started(self, now_ms: u64) -> Timer {
        if self.running {
            self
        } else if self.state_start_time is None {
            Timer { running: true, state_start_time: Some(now_ms), ..self.transitioned() }
        } else {
            Timer { running: true, ..self }
        }
    }

    /// The timer after `stop`: time is no longer consumed; everything
    /// else, the remaining time in particular, is untouched.
    pub open spec fn stopped(self) -> Timer {
        Timer { running: false, ..self }
    }

    /// The timer after `toggle` at time `now_ms`.
    pub open spec fn toggled(self, now_ms: u64) -> Timer {
        if self.running {
            self.stopped()
        } else {
            self.started(now_ms)
        }
    }

    /// The timer after `poll` at time `now_ms`. Stopped: only the poll
    /// timestamp advances. Running with the phase exhausted: the pending
    /// transition happens. Running with time left: the elapsed wall-clock
    /// time is subtracted, exhausting the phase when nothing remains.
    pub open spec fn polled(self, now_ms: u64) -> Timer {
        if !self.running {
            Timer { last_poll: now_ms, ..self }
        } else {
            match self.remaining_time {
                Remaining::Exhausted => Timer { last_poll: now_ms, ..self.transitioned() },
                Remaining::Time(d) => Timer {
                    last_poll: now_ms,
                    remaining_time: if elapsed_ms(now_ms, self.last_poll) >= d {
                        Remaining::Exhausted
                    } else {
                        Remaining::Time((d - elapsed_ms(now_ms, self.last_poll)) as u64)
                    },
                    ..self
                },
            }
        }
    }

    /// The notification that `poll` emits: exactly when it performs the
    /// pending transition, it names the phase that then begins.
    pub open spec fn notice(self) -> Option<TimerState> {
        if self.running && self.remaining_time is Exhausted {
            Some(self.state.next_state(self.break_counter))
        } else {
            None
        }
    }

    /// Creates a stopped timer in the placeholder phase, with a full work
    /// duration ahead of it.
    pub fn new(now_ms: u64) -> (t: Timer)
        ensures
            t == (Timer {
                running: false,
                state: TimerState::Uninitialized,
                state_start_time: None,
                remaining_time: Remaining::Time(TimerState::Uninitialized.spec_time()),
                last_poll: now_ms,
                break_counter: 0,
            }),
            t.wf(),
    {
        Timer {
            running: false,
            state: TimerState::Uninitialized,
            state_start_time: None,
            remaining_time: Remaining::Time(TimerState::Uninitialized.time()),
            last_poll: now_ms,
            break_counter: 0,
        }
    }

    /// Advances to the next phase and grants it its full duration.
    pub fn begin_next_state(&mut self)
        requires
            old(self).wf(),
        ensures
            *final(self) == old(self).transitioned(),
            final(self).wf(),
            final(self).state != TimerState::Uninitialized,
    {
        self.state.next(&mut self.break_counter);
        self.remaining_time = Remaining::Time(self.state.time());
    }

    /// Starts consuming time; see [`Timer::started`]. After the first
    /// start, starting never changes the remaining time.
    pub fn start(&mut self, now_ms: u64)
        requires
            old(self).wf(),
        ensures
            *final(self) == old(self).started(now_ms),
            final(self).wf(),
            final(self).running,
            old(self).state_start_time is Some ==> final(self).remaining_time == old(
                self,
            ).remaining_time,
    {
        if !self.running {
            if self.state_start_time.is_none() {
                self.state_start_time = Some(now_ms);
                self.begin_next_state();
            }
            self.running = true;
        }
    }

    /// Stops consuming time; the remaining time is frozen as it stands.
    pub fn stop(&mut self)
        requires
            old(self).wf(),
        ensures
            *final(self) == old(self).stopped(),
            final(self).wf(),
            !final(self).running,
            final(self).remaining_time == old(self).remaining_time,
    {
        if self.running {
            self.running = false;
        }
    }

    /// Starts when stopped, stops when running.
    pub fn toggle(&mut self, now_ms: u64)
        requires
            old(self).wf(),
        ensures
            *final(self) == old(self).toggled(now_ms),
            final(self).wf(),
            final(self).running == !old(self).running,
    {
        if !self.running {
            self.start(now_ms);
        } else {
            self.stop();
        }
    }

    /// Accounts the wall-clock time elapsed since the previous poll; see
    /// [`Timer::polled`]. Returns the phase that a pending transition
    /// enters, to be named in a notification — never the placeholder
    /// phase, so every notification has a proper phase name.
    pub fn poll(&mut self, now_ms: u64) -> (notice: Option<TimerState>)
        requires
            old(self).wf(),
        ensures
            *final(self) == old(self).polled(now_ms),
            final(self).wf(),
            notice == old(self).notice(),
            notice matches Some(next) ==> next == final(self).state && next
                != TimerState::Uninitialized,
            !old(self).running ==> final(self).remaining_time == old(self).remaining_time,
    {
        let mut notice: Option<TimerState> = None;
        if self.running {
            match self.remaining_time {
                Remaining::Exhausted => {
                    self.begin_next_state();
                    notice = Some(self.state);
                }
                Remaining::Time(d) => {
                    let elapsed: u64 = if now_ms >= self.last_poll {
                        now_ms - self.last_poll
                    } else {
                        0
                    };
                    self.remaining_time = if elapsed >= d {
                        Remaining::Exhausted
                    } else {
                        Remaining::Time(d - elapsed)
                    };
                }
            }
        }
        self.last_poll = now_ms;
        notice
    }
}

/// The timer after a sequence of polls at the given times, in order.
pub open spec fn polled_many(t: Timer, times: Seq<u64>) -> Timer
    decreases times.len(),
{
    if times.len() == 0 {
        t
    } else {
        polled_many(t.polled(times[0]), times.drop_first())
    }
}

/// While stopped, polling only moves the poll timestamp: the phase, the
/// break counter, the remaining time and the first-start record are all
/// untouched, however many polls happen and whatever they read.
pub proof fn lemma_polls_while_stopped(t: Timer, times: Seq<u64>)
    requires
        !t.running,
    ensures
        !polled_many(t, times).running,
        polled_many(t, times).remaining_time == t.remaining_time,
        polled_many(t, times).state == t.state,
        polled_many(t, times).break_counter == t.break_counter,
        polled_many(t, times).state_start_time == t.state_start_time,
    decreases times.len(),
{
    if times.len() > 0 {
        lemma_polls_while_stopped(t.polled(times[0]), times.drop_first());
    }
}

/// Law: stopping freezes the remaining time. Stop, then any number of
/// polls while stopped (any amount of wall time passing), then start: the
/// remaining time is exactly what it was; and when time was left, a poll
/// at the moment of resuming still leaves it unchanged.
pub proof fn lemma_remaining_frozen_while_stopped(t: Timer, pause_polls: Seq<u64>, resume_now: u64)
    requires
        t.wf(),
        t.state_start_time is Some,
    ensures
        ({
            let resumed = polled_many(t.stopped(), pause_polls).started(resume_now);
            &&& resumed.remaining_time == t.remaining_time
            &&& t.remaining_time is Time ==> resumed.polled(
                resumed.last_poll,
            ).remaining_time == t.remaining_time
        }),
{
    lemma_polls_while_stopped(t.stopped(), pause_polls);
}

/// Law: starting is idempotent — a second start without an intervening
/// stop changes nothing, whatever time it happens at: no second phase
/// transition, no reset of the remaining time.
pub proof fn lemma_start_idempotent(t: Timer, now1: u64, now2: u64)
    ensures
        t.started(now1).started(now2) == t.started(now1),
{
}

/// Law: exhaustion takes two polls. When the elapsed time at a poll
/// covers all the remaining time, that poll marks the phase exhausted and
/// emits no notification; the following poll performs the transition,
/// grants the new phase its full duration, and emits exactly one
/// notification, naming the phase that begins.
pub proof fn lemma_exhaustion_two_polls(t: Timer, now1: u64, now2: u64)
    requires
        t.wf(),
        t.running,
        t.remaining_time matches Remaining::Time(d) && elapsed_ms(now1, t.last_poll) >= d,
    ensures
        ({
            let t1 = t.polled(now1);
            let t2 = t1.polled(now2);
            &&& t.notice() is None
            &&& t1.remaining_time is Exhausted
            &&& t1.notice() == Some(t.state.next_state(t.break_counter))
            &&& t2.state == t.state.next_state(t.break_counter)
            &&& t2.remaining_time == Remaining::Time(t2.state.spec_time())
            &&& t2.notice() is None
        }),
{
}

} // verus!
