//! The timer state machine: alternating work and break phases, driven by a
//! monotonic clock sampled once per frame.

use vstd::prelude::*;

verus! {

/// Length of a work phase, in seconds (25 minutes).
pub const WORK_SECS: u64 = 25 * 60;

/// Length of a break phase, in seconds (5 minutes).
pub const BREAK_SECS: u64 = 5 * 60;

/// Full duration of a phase: the break length when `is_break`, else the work
/// length.
pub open spec fn spec_phase_total(is_break: bool) -> u64 {
    if is_break {
        BREAK_SECS
    } else {
        WORK_SECS
    }
}

/// Full duration of a phase, in seconds.
pub fn phase_total_duration(is_break: bool) -> (r: u64)
    ensures
        r == spec_phase_total(is_break),
{
    if is_break {
        BREAK_SECS
    } else {
        WORK_SECS
    }
}

/// One running stretch of the countdown: when it began and how much time it
/// was started with.
#[derive(Clone, Copy)]
pub struct Segment {
    /// Clock reading (seconds) at the moment the segment was started.
    pub started_at: u64,
    /// Remaining time (seconds) captured at that moment.
    pub duration: u64,
}

/// What the host loop should do after a frame: keep repainting while the
/// countdown runs, or go idle until the user interacts.
#[derive(Clone, Copy, Debug, PartialEq, Eq, Structural)]
pub enum WakePolicy {
    Idle,
    RepaintNow,
}

/// The whole timer state. The host owns exactly one value of this type and
/// mutates it only through `tick`, `start`, `pause` and `reset`.
#[derive(Clone, Copy)]
pub struct PomodoroTimer {
    /// The running segment; `None` while paused or stopped.
    pub segment: Option<Segment>,
    /// Seconds left in the current phase. Authoritative while not running;
    /// refreshed from the clock on every tick while running.
    pub remaining: u64,
    /// `false` during a work phase, `true` during a break.
    pub is_break: bool,
    /// How many work phases have fully expired.
    pub completed_count: u32,
}

impl PomodoroTimer {
    /// The countdown is actively advancing.
    pub open spec fn spec_running(self) -> bool {
        self.segment is Some
    }

    /// Well-formedness, which holds of every reachable state: the remaining
    /// time never leaves `[1, phase_total]` (expiry refills it at once, and a
    /// running countdown is only ever observed strictly before its segment
    /// runs out), and a running segment was started with at least one second
    /// and at most a full phase.
    pub open spec fn wf(self) -> bool {
        &&& 1 <= self.remaining <= spec_phase_total(self.is_break)
        &&& match self.segment {
            Some(seg) => 1 <= seg.duration <= spec_phase_total(self.is_break),
            None => true,
        }
    }

    /// The four-slot indicator: how many of the dots are filled, wrapping
    /// every four completed work phases.
    pub open spec fn spec_indicator(self) -> u32 {
        (self.completed_count % 4) as u32
    }
}

/// Seconds elapsed since `since`, saturating at zero (the clock is meant to
/// be monotonic; a sample from before the segment started counts as no time
/// passed).
pub open spec fn spec_elapsed(since: u64, now: u64) -> u64 {
    if now >= since {
        (now - since) as u64
    } else {
        0
    }
}

/// The running segment has run out at clock reading `now`.
pub open spec fn spec_expires(s: PomodoroTimer, now: u64) -> bool {
    match s.segment {
        Some(seg) => spec_elapsed(seg.started_at, now) >= seg.duration,
        None => false,
    }
}

/// The state after one frame at clock reading `now`. Not running: unchanged.
/// Running and not yet expired: the remaining time is refreshed from the
/// clock. Expired: the work counter grows if a work phase just ended, the
/// phase flips, the countdown stops, and the remaining time is refilled to
/// the new phase's full duration.
pub open spec fn spec_tick(s: PomodoroTimer, now: u64) -> PomodoroTimer {
    match s.segment {
        None => s,
        Some(seg) => {
            let elapsed = spec_elapsed(seg.started_at, now);
            if elapsed >= seg.duration {
                PomodoroTimer {
                    segment: None,
                    is_break: !s.is_break,
                    remaining: spec_phase_total(!s.is_break),
                    completed_count: if !s.is_break {
                        (s.completed_count + 1) as u32
                    } else {
                        s.completed_count
                    },
                }
            } else {
                PomodoroTimer { remaining: (seg.duration - elapsed) as u64, ..s }
            }
        },
    }
}

/// The state after `start` at clock reading `now`: a new segment begins,
/// carrying whatever time was remaining (a resume after a pause does not
/// refill the phase).
pub open spec fn spec_start(s: PomodoroTimer, now: u64) -> PomodoroTimer {
    PomodoroTimer {
        segment: Some(Segment { started_at: now, duration: s.remaining }),
        ..s
    }
}

/// The state after `pause`: the countdown stops; nothing else moves.
pub open spec fn spec_pause(s: PomodoroTimer) -> PomodoroTimer {
    PomodoroTimer { segment: None, ..s }
}

/// The state after `reset`: the countdown stops and the remaining time is
/// refilled to the current phase's full duration. The phase itself and the
/// work counter are untouched.
pub open spec fn spec_reset(s: PomodoroTimer) -> PomodoroTimer {
    PomodoroTimer { segment: None, remaining: spec_phase_total(s.is_break), ..s }
}

impl PomodoroTimer {
    /// A fresh timer: idle at the start of a full work phase, nothing
    /// completed yet.
    pub fn new() -> (t: PomodoroTimer)
        ensures
            t.wf(),
            !t.spec_running(),
            t.remaining == WORK_SECS,
            !t.is_break,
            t.completed_count == 0,
    {
        PomodoroTimer { segment: None, remaining: WORK_SECS, is_break: false, completed_count: 0 }
    }

    /// Advance the timer by one frame at clock reading `now`, and say whether
    /// the host should schedule another repaint right away (it should exactly
    /// while the countdown was running).
    pub fn tick(&mut self, now: u64) -> (w: WakePolicy)
        requires
            old(self).wf(),
            old(self).completed_count < u32::MAX,
        ensures
            final(self).wf(),
            *final(self) == spec_tick(*old(self), now),
            w == (if old(self).spec_running() {
                WakePolicy::RepaintNow
            } else {
                WakePolicy::Idle
            }),
    {
        match self.segment {
            None => WakePolicy::Idle,
            Some(seg) => {
                let elapsed: u64 = if now >= seg.started_at {
                    now - seg.started_at
                } else {
                    0
                };
                if elapsed >= seg.duration {
                    if !self.is_break {
                        self.completed_count = self.completed_count + 1;
                    }
                    self.segment = None;
                    self.is_break = !self.is_break;
                    self.remaining = phase_total_duration(self.is_break);
                } else {
                    self.remaining = seg.duration - elapsed;
                }
                WakePolicy::RepaintNow
            },
        }
    }

    /// Begin (or resume) the countdown at clock reading `now`, from however
    /// much time is currently remaining.
    pub fn start(&mut self, now: u64)
        requires
            old(self).wf(),
            !old(self).spec_running(),
        ensures
            final(self).wf(),
            *final(self) == spec_start(*old(self), now),
            final(self).spec_running(),
            final(self).remaining == old(self).remaining,
            final(self).is_break == old(self).is_break,
            final(self).completed_count == old(self).completed_count,
    {
        self.segment = Some(Segment { started_at: now, duration: self.remaining });
    }

    /// Freeze the countdown. The remaining time keeps the value the frame's
    /// tick just computed; the host loop ticks before it handles the click,
    /// so that value is current.
    pub fn pause(&mut self)
        requires
            old(self).wf(),
            old(self).spec_running(),
        ensures
            final(self).wf(),
            *final(self) == spec_pause(*old(self)),
            !final(self).spec_running(),
            final(self).remaining == old(self).remaining,
            final(self).is_break == old(self).is_break,
            final(self).completed_count == old(self).completed_count,
    {
        self.segment = None;
    }

    /// Stop the countdown and refill the current phase to its full duration.
    /// The phase is kept (a reset during a break stays in the break), and the
    /// work counter is untouched.
    pub fn reset(&mut self)
        requires
            old(self).wf(),
        ensures
            final(self).wf(),
            *final(self) == spec_reset(*old(self)),
            !final(self).spec_running(),
            final(self).remaining == spec_phase_total(old(self).is_break),
            final(self).is_break == old(self).is_break,
            final(self).completed_count == old(self).completed_count,
    {
        self.segment = None;
        self.remaining = phase_total_duration(self.is_break);
    }
}

impl PomodoroTimer {
    /// Seconds left in the current phase.
    pub fn remaining_secs(&self) -> (r: u64)
        ensures
            r == self.remaining,
    {
        self.remaining
    }

    /// Whether the current phase is a break.
    pub fn is_break(&self) -> (r: bool)
        ensures
            r == self.is_break,
    {
        self.is_break
    }

    /// How many work phases have fully expired.
    pub fn completed_count(&self) -> (r: u32)
        ensures
            r == self.completed_count,
    {
        self.completed_count
    }

    /// Whether the countdown is actively advancing.
    pub fn is_running(&self) -> (r: bool)
        ensures
            r == self.spec_running(),
    {
        self.segment.is_some()
    }

    /// How many of the four indicator dots are filled: the completed-work
    /// count, wrapping every four.
    pub fn indicator_count(&self) -> (r: u32)
        ensures
            r == self.spec_indicator(),
            r < 4,
    {
        self.completed_count % 4
    }

    /// The progress fraction as an exact ratio: remaining seconds over the
    /// current phase's total, a value in `[0, 1]` (numerator never above the
    /// denominator, denominator never zero). The renderer sizes the arc sweep
    /// from it.
    pub fn progress_ratio(&self) -> (r: (u64, u64))
        requires
            self.wf(),
        ensures
            r.0 == self.remaining,
            r.1 == spec_phase_total(self.is_break),
            0 < r.0 <= r.1,
    {
        (self.remaining, phase_total_duration(self.is_break))
    }

    /// The countdown readout, `MM:SS`, from the remaining time truncated to
    /// whole seconds.
    pub fn display_text(&self) -> (r: String)
        requires
            self.wf(),
        ensures
            r@ == crate::display::spec_clock_text(self.remaining as int),
    {
        crate::display::clock_text(self.remaining)
    }
}

impl Default for PomodoroTimer {
    /// Same state as [`PomodoroTimer::new`].
    fn default() -> (t: Self)
        ensures
            t.wf(),
            !t.spec_running(),
            t.remaining == WORK_SECS,
            !t.is_break,
            t.completed_count == 0,
    {
        PomodoroTimer::new()
    }
}

} // verus!
