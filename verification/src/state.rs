//! The phases of the Pomodoro cycle and the transition between them.

use vstd::prelude::*;

verus! {

/// Length of a work interval, in milliseconds (25 minutes).
pub const POMODORO_TIME_MS: u64 = 25 * 60 * 1000;

/// Length of a short break, in milliseconds (5 minutes).
pub const SHORT_BREAK_TIME_MS: u64 = 5 * 60 * 1000;

/// Length of a long break, in milliseconds (30 minutes).
pub const LONG_BREAK_TIME_MS: u64 = 30 * 60 * 1000;

/// Number of work intervals per break cycle: after every fourth work
/// interval the break is long instead of short.
pub const BREAK_CYCLE: u8 = 4;

/// The phase of the Pomodoro cycle that is currently active.
#[derive(Copy, Clone, Debug, PartialEq, Eq, Structural)]
pub enum TimerState {
    /// Placeholder before the very first start; no transition ever
    /// produces it again.
    Uninitialized,
    /// The focus (work) interval.
    Work,
    /// A brief rest between work intervals.
    ShortBreak,
    /// The extended rest that ends a full break cycle.
    LongBreak,
}

impl TimerState {
    /// The fixed length of this phase, in milliseconds. The placeholder
    /// phase shares the work duration.
    pub open spec fn spec_time(&self) -> u64 {
        match self {
            TimerState::Uninitialized | TimerState::Work => POMODORO_TIME_MS,
            TimerState::ShortBreak => SHORT_BREAK_TIME_MS,
            TimerState::LongBreak => LONG_BREAK_TIME_MS,
        }
    }

    /// Returns the fixed length of this phase, in milliseconds.
    #[verifier::when_used_as_spec(spec_time)]
    pub fn time(&self) -> (d: u64)
        ensures
            d == self.spec_time(),
    {
        match self {
            TimerState::Uninitialized | TimerState::Work => POMODORO_TIME_MS,
            TimerState::ShortBreak => SHORT_BREAK_TIME_MS,
            TimerState::LongBreak => LONG_BREAK_TIME_MS,
        }
    }

    /// The one-glyph display icon of this phase, as a character sequence.
    /// The placeholder phase shows a dash; the others show a letter.
    pub open spec fn glyph(self) -> Seq<char> {
        match self {
            TimerState::Uninitialized => "-"@,
            TimerState::Work => "P"@,
            TimerState::ShortBreak => "b"@,
            TimerState::LongBreak => "B"@,
        }
    }

    /// Returns the display icon of this phase.
    pub fn pomicon(&self) -> (r: String)
        ensures
            r@ == (*self).glyph(),
    {
        String::from_str(
            match self {
                TimerState::Uninitialized => "-",
                TimerState::Work => "P",
                TimerState::ShortBreak => "b",
                TimerState::LongBreak => "B",
            },
        )
    }

    /// The human-readable name of this phase, used in notification bodies.
    /// The placeholder phase has none: no transition produces it, so a
    /// notification never names it.
    pub open spec fn spec_phase_name(self) -> Seq<char> {
        match self {
            TimerState::Uninitialized => ""@,
            TimerState::Work => "pomodoro"@,
            TimerState::ShortBreak => "short break"@,
            TimerState::LongBreak => "long break"@,
        }
    }

    /// Returns the human-readable name of this phase.
    pub fn phase_name(&self) -> (r: &'static str)
        requires
            *self != TimerState::Uninitialized,
        ensures
            r@ == (*self).spec_phase_name(),
    {
        match self {
            TimerState::Uninitialized => "",
            TimerState::Work => "pomodoro",
            TimerState::ShortBreak => "short break",
            TimerState::LongBreak => "long break",
        }
    }

    /// The phase that follows this one, given the current break counter:
    /// the break after a work interval is short until the counter reaches
    /// the last slot of the cycle, then long; every break leads back to work.
    pub open spec fn next_state(self, break_counter: u8) -> TimerState {
        match self {
            TimerState::Uninitialized => TimerState::Work,
            TimerState::Work => if break_counter < BREAK_CYCLE - 1 {
                TimerState::ShortBreak
            } else {
                TimerState::LongBreak
            },
            TimerState::ShortBreak | TimerState::LongBreak => TimerState::Work,
        }
    }

    /// The break counter after the transition: it advances (modulo the
    /// cycle length) exactly when leaving a work interval.
    pub open spec fn next_counter(self, break_counter: u8) -> u8 {
        if self is Work {
            (((break_counter as nat) + 1) % (BREAK_CYCLE as nat)) as u8
        } else {
            break_counter
        }
    }

    /// Advances to the next phase of the cycle, updating the break counter.
    /// The transition is total and never yields the placeholder phase.
    pub fn next(&mut self, break_counter: &mut u8)
        requires
            *old(break_counter) < BREAK_CYCLE,
        ensures
            *final(self) == (*old(self)).next_state(*old(break_counter)),
            *final(break_counter) == (*old(self)).next_counter(*old(break_counter)),
            *final(self) != TimerState::Uninitialized,
            *final(break_counter) < BREAK_CYCLE,
            *old(self) is Work ==> (*final(self) is LongBreak <==> *final(break_counter) == 0),
    {
        match self {
            TimerState::Uninitialized => {
                *self = TimerState::Work;
            }
            TimerState::Work => {
                if *break_counter < BREAK_CYCLE - 1 {
                    *self = TimerState::ShortBreak;
                } else {
                    *self = TimerState::LongBreak;
                }
                *break_counter = (*break_counter + 1) % BREAK_CYCLE;
            }
            TimerState::ShortBreak | TimerState::LongBreak => {
                *self = TimerState::Work;
            }
        }
    }
}

/// The phase and break counter reached after `n` transitions from the
/// initial configuration: the placeholder phase with the counter at zero.
pub open spec fn iterate(n: nat) -> (TimerState, u8)
    decreases n,
{
    if n == 0 {
        (TimerState::Uninitialized, 0u8)
    } else {
        let (s, c) = iterate((n - 1) as nat);
        (s.next_state(c), s.next_counter(c))
    }
}

/// Law: from the initial configuration the phases follow the Pomodoro
/// cycle — every odd transition enters work, every even one enters a
/// break, and the break is long exactly when it is the last of its cycle
/// of four (three short breaks, then a long one, repeating). The break
/// counter reads how many breaks of the current cycle have begun.
pub proof fn lemma_pomodoro_cycle(n: nat)
    requires
        n >= 1,
    ensures
        iterate(n).1 as nat == (n / 2) % (BREAK_CYCLE as nat),
        n % 2 == 1 ==> iterate(n).0 == TimerState::Work,
        n % 2 == 0 ==> iterate(n).0 == (if (n / 2) % (BREAK_CYCLE as nat) == 0 {
            TimerState::LongBreak
        } else {
            TimerState::ShortBreak
        }),
    decreases n,
{
    if n == 1 {
        assert(iterate(0) == (TimerState::Uninitialized, 0u8));
        assert(iterate(1) == (TimerState::Work, 0u8));
    } else {
        let m = (n - 1) as nat;
        lemma_pomodoro_cycle(m);
        let s = iterate(m).0;
        let c = iterate(m).1;
        assert(iterate(n) == (s.next_state(c), s.next_counter(c)));
        if n % 2 == 0 {
            let k = (n / 2) as int;
            assert((n - 1) / 2 == k - 1) by (nonlinear_arith)
                requires
                    n >= 2,
                    n % 2 == 0,
                    k == n / 2,
            ;
            assert((((k - 1) % 4) + 1) % 4 == k % 4) by (nonlinear_arith)
                requires
                    k >= 1,
            ;
            assert(((k - 1) % 4 == 3) <==> (k % 4 == 0)) by (nonlinear_arith)
                requires
                    k >= 1,
            ;
        } else {
            assert(n / 2 == (n - 1) / 2) by (nonlinear_arith)
                requires
                    n >= 3,
                    n % 2 == 1,
            ;
        }
    }
}

/// Law: the break counter stays inside the cycle, whatever transitions
/// are taken.
pub proof fn lemma_counter_in_cycle(n: nat)
    ensures
        iterate(n).1 < BREAK_CYCLE,
    decreases n,
{
    if n > 0 {
        lemma_counter_in_cycle((n - 1) as nat);
    }
}

/// Law: the break counter cycles back to zero exactly when a long break
/// is chosen.
pub proof fn lemma_long_break_resets_counter(s: TimerState, c: u8)
    requires
        c < BREAK_CYCLE,
    ensures
        s.next_state(c) == TimerState::LongBreak ==> s.next_counter(c) == 0,
        s is Work && s.next_counter(c) == 0 ==> s.next_state(c) == TimerState::LongBreak,
{
}

} // verus!
