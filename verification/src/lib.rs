//! A minimal Pomodoro timer core: a finite-state phase machine, a polling
//! timer that accounts elapsed wall-clock time handed in by the host, and
//! the formatting of the status line and notification texts.
//!
//! The host is expected to run a loop that waits (with a bounded timeout)
//! for external control events, applies them with [`timer::Timer::toggle`]
//! or by replacing the timer with [`timer::Timer::new`], polls the timer
//! with the current time, and emits the status line.

pub mod state;
pub mod status;
pub mod timer;
