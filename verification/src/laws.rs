//! Laws of the timer: properties that relate several transitions, proved
//! once over the ghost model. The per-operation guarantees live in the
//! contracts of [`crate::timer::TimerService`]; what stands here is what
//! holds across operations.

use vstd::prelude::*;
use crate::model::{
    TimerModel, inv, duration_of, ticked, paused_model, resumed_model, started_model,
    cleared_model, set_phase_model, completed_model, elapsed_since, initial_of, overtime_of,
    start_phase, initial_model,
};
use crate::timer::{WORK_DURATION_SECS, OVERTIME_CAP_SECS};

verus! {

/// A fresh timer is well-formed; every operation's contract then keeps
/// [`inv`] across each transition, so it holds of every reachable state.
pub proof fn lemma_initial_inv()
    ensures
        inv(initial_model()),
{
}

/// In every well-formed state the countdown never exceeds the nominal
/// duration, and the duration is the fixed constant of the current phase.
pub proof fn lemma_duration_bounds(m: TimerModel)
    requires
        inv(m),
    ensures
        m.remaining <= m.duration,
        m.duration == duration_of(m.phase),
        m.duration == 1500 || m.duration == 300,
{
}

/// In every well-formed state the started reference exists exactly while
/// running, and the completed-at reference and the completion flag exist
/// exactly while complete.
pub proof fn lemma_reference_coherence(m: TimerModel)
    requires
        inv(m),
    ensures
        m.started is Some <==> m.status is Running,
        m.completed is Some <==> m.status is Complete,
        m.flag <==> m.status is Complete,
{
}

/// Switching to the phase that is already current never changes anything,
/// whatever the status and whatever the clock reads.
pub proof fn lemma_set_phase_idempotent(m: TimerModel, now: nat)
    ensures
        set_phase_model(m, m.phase, now) == m,
{
}

/// Pause followed by resume, with nothing in between, reproduces the frozen
/// remaining value exactly, however much time passes while paused.
pub proof fn lemma_pause_resume_round_trip(m: TimerModel, pause_now: nat, resume_now: nat)
    requires
        inv(m),
        ticked(m, pause_now).status is Running,
    ensures
        ({
            let frozen = paused_model(ticked(m, pause_now));
            let resumed = resumed_model(frozen, resume_now);
            &&& resumed.remaining == frozen.remaining
            &&& ticked(resumed, resume_now).remaining == frozen.remaining
        }),
{
}

/// A countdown started at `start_now` and read `elapsed` seconds later,
/// before the duration is consumed, shows exactly the duration less the
/// elapsed time.
pub proof fn lemma_monotonic_countdown(m: TimerModel, start_now: nat, elapsed: nat)
    requires
        inv(m),
        m.status is WorkReady || m.status is BreakReady || m.status is Complete,
        elapsed < duration_of(start_phase(m)),
    ensures
        ({
            let run = started_model(m, start_now);
            &&& ticked(run, start_now + elapsed).status is Running
            &&& ticked(run, start_now + elapsed).remaining == duration_of(start_phase(m))
                - elapsed
        }),
{
}

/// Once the elapsed time consumes the countdown, derive-remaining completes
/// the interval: zero remaining, flag raised, the moment recorded, and the
/// phase left in place.
pub proof fn lemma_completion_boundary(m: TimerModel, now: nat)
    requires
        inv(m),
        m.status is Running,
        m.started matches Some(st) && elapsed_since(st, now) >= initial_of(m),
    ensures
        ticked(m, now) == completed_model(m, now),
        ticked(m, now).status is Complete,
        ticked(m, now).remaining == 0,
        ticked(m, now).flag,
        ticked(m, now).phase == m.phase,
        ticked(m, now).completed == Some(now),
{
}

/// Overtime read `t` seconds after completion is `t` clamped to the cap,
/// for every `t`.
pub proof fn lemma_overtime_clamp(m: TimerModel, c: nat, t: nat)
    requires
        inv(m),
        m.status is Complete,
        m.completed == Some(c),
    ensures
        overtime_of(m, c + t) == Some(
            if t <= OVERTIME_CAP_SECS as nat {
                t
            } else {
                OVERTIME_CAP_SECS as nat
            },
        ),
{
}

/// Clear from any status in the work phase always yields the same ready
/// state, with the break phase's saved countdown untouched.
pub proof fn lemma_clear_uniform(m: TimerModel)
    requires
        m.phase is Work,
    ensures
        cleared_model(m).phase is Work,
        cleared_model(m).status is WorkReady,
        cleared_model(m).remaining == WORK_DURATION_SECS as nat,
        cleared_model(m).duration == WORK_DURATION_SECS as nat,
        !cleared_model(m).flag,
        cleared_model(m).saved_break == m.saved_break,
{
}

} // verus!
