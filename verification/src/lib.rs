//! A pomodoro countdown timer, modelled as an explicit state machine.
//!
//! The timer alternates a 25-minute work phase with a 5-minute break phase.
//! A host render loop owns one [`timer::PomodoroTimer`], drives it once per
//! frame with [`timer::PomodoroTimer::tick`], and reads the derived values
//! (remaining time, phase, progress ratio, clock text, indicator count) to
//! draw the screen. All state transitions are verified: the remaining time
//! never leaves the current phase's range, expiry flips the phase exactly
//! once, and the completed-work counter grows only on work-phase expiry.

pub mod display;
pub mod laws;
pub mod timer;
