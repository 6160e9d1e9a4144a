//! Laws of the timer state machine, each proved once and for all states.

use vstd::prelude::*;
use crate::timer::{
    PomodoroTimer, spec_expires, spec_pause, spec_phase_total, spec_reset, spec_start, spec_tick,
};

verus! {

/// In every well-formed (hence every reachable) state, the remaining time
/// lies between zero and the current phase's full duration.
pub proof fn lemma_remaining_in_range(t: PomodoroTimer)
    requires
        t.wf(),
    ensures
        0 <= t.remaining <= spec_phase_total(t.is_break),
{
}

/// Every transition keeps the state well-formed, so every reachable state is.
pub proof fn lemma_transitions_preserve_wf(t: PomodoroTimer, now: u64)
    requires
        t.wf(),
        t.completed_count < u32::MAX,
    ensures
        spec_tick(t, now).wf(),
        spec_start(t, now).wf(),
        spec_pause(t).wf(),
        spec_reset(t).wf(),
{
}

/// Starting an idle timer and ticking at the very same instant is harmless:
/// the tick confirms the state `start` produced, so the remaining time is
/// unchanged.
pub proof fn lemma_start_then_tick_same_instant(t: PomodoroTimer, now: u64)
    requires
        t.wf(),
        !t.spec_running(),
    ensures
        spec_tick(spec_start(t, now), now) == spec_start(t, now),
        spec_tick(spec_start(t, now), now).remaining == t.remaining,
{
}

/// A tick of a stopped timer changes nothing at all.
pub proof fn lemma_tick_stopped_is_noop(t: PomodoroTimer, now: u64)
    requires
        !t.spec_running(),
    ensures
        spec_tick(t, now) == t,
{
}

/// Expiry is idempotent in effect: the expiring tick stops the countdown, so
/// however many further ticks follow (without an intervening `start`), the
/// state — phase and counter included — no longer moves.
pub proof fn lemma_expiry_idempotent(t: PomodoroTimer, now1: u64, now2: u64)
    requires
        t.wf(),
        spec_expires(t, now1),
    ensures
        !spec_tick(t, now1).spec_running(),
        spec_tick(spec_tick(t, now1), now2) == spec_tick(t, now1),
{
}

/// The completed-work counter grows by exactly one when a work phase expires,
/// and never otherwise: not on a break expiry, not on a tick that does not
/// expire, and not on start, pause or reset.
pub proof fn lemma_completed_count(t: PomodoroTimer, now: u64)
    requires
        t.wf(),
        t.completed_count < u32::MAX,
    ensures
        (spec_expires(t, now) && !t.is_break) ==> spec_tick(t, now).completed_count == t.completed_count
            + 1,
        !(spec_expires(t, now) && !t.is_break) ==> spec_tick(t, now).completed_count
            == t.completed_count,
        spec_start(t, now).completed_count == t.completed_count,
        spec_pause(t).completed_count == t.completed_count,
        spec_reset(t).completed_count == t.completed_count,
{
}

/// The indicator cycles 0, 1, 2, 3, 0, 1, ... as work phases complete: it is
/// always below four, and a work-phase expiry advances it by one modulo four.
pub proof fn lemma_indicator_cycles(t: PomodoroTimer, now: u64)
    requires
        t.wf(),
        t.completed_count < u32::MAX,
        spec_expires(t, now),
        !t.is_break,
    ensures
        t.spec_indicator() < 4,
        spec_tick(t, now).spec_indicator() == (t.spec_indicator() + 1) % 4,
{
}

} // verus!
