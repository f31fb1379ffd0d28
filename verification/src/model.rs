//! The mathematical model of the timer: a ghost record of its fields and
//! spec-level transition functions that the executable methods are proved
//! against.

use vstd::prelude::*;
use crate::timer::{Phase, Status, WORK_DURATION_SECS, BREAK_DURATION_SECS, OVERTIME_CAP_SECS};

verus! {

/// Ghost image of a [`crate::timer::TimerService`].
#[verifier::ext_equal]
pub ghost struct TimerModel {
    pub phase: Phase,
    pub status: Status,
    pub remaining: nat,
    pub duration: nat,
    pub flag: bool,
    pub started: Option<nat>,
    pub completed: Option<nat>,
    pub saved_work: Option<nat>,
    pub saved_break: Option<nat>,
    pub label: Seq<char>,
}

/// Ghost image of a [`crate::timer::TimerState`] snapshot.
#[verifier::ext_equal]
pub ghost struct StateModel {
    pub phase: Phase,
    pub status: Status,
    pub remaining: nat,
    pub duration: nat,
    pub flag: bool,
    pub label: Seq<char>,
    pub overtime: Option<nat>,
}

/// The fixed nominal length of a phase, in seconds.
pub open spec fn duration_of(p: Phase) -> nat {
    match p {
        Phase::Work => WORK_DURATION_SECS as nat,
        Phase::Break => BREAK_DURATION_SECS as nat,
    }
}

/// The idle status of a phase.
pub open spec fn ready_status(p: Phase) -> Status {
    match p {
        Phase::Work => Status::WorkReady,
        Phase::Break => Status::BreakReady,
    }
}

/// The human-readable label that mirrors phase and status.
pub open spec fn label_text(p: Phase, s: Status) -> Seq<char> {
    match s {
        Status::WorkReady => "Ready to work"@,
        Status::BreakReady => "Ready to break"@,
        Status::Running => match p {
            Phase::Work => "Working"@,
            Phase::Break => "Break time"@,
        },
        Status::Paused => match p {
            Phase::Work => "Paused (work)"@,
            Phase::Break => "Paused (break)"@,
        },
        Status::Complete => match p {
            Phase::Work => "Work completed"@,
            Phase::Break => "Break completed"@,
        },
    }
}

/// The saved-remaining slot of a phase.
pub open spec fn saved_of(m: TimerModel, p: Phase) -> Option<nat> {
    match p {
        Phase::Work => m.saved_work,
        Phase::Break => m.saved_break,
    }
}

/// The value a running countdown counts down from: the saved-remaining for
/// the current phase if one exists, else the phase's fixed duration.
pub open spec fn initial_of(m: TimerModel) -> nat {
    match saved_of(m, m.phase) {
        Some(v) => v,
        None => m.duration,
    }
}

/// Well-formedness: what holds of every reachable timer state.
pub open spec fn inv(m: TimerModel) -> bool {
    &&& m.duration == duration_of(m.phase)
    &&& m.remaining <= m.duration
    &&& (m.started is Some <==> m.status is Running)
    &&& (m.completed is Some <==> m.status is Complete)
    &&& (m.flag <==> m.status is Complete)
    &&& (m.status is WorkReady ==> m.phase is Work)
    &&& (m.status is BreakReady ==> m.phase is Break)
    &&& (m.saved_work matches Some(v) ==> v <= WORK_DURATION_SECS as nat)
    &&& (m.saved_break matches Some(v) ==> v <= BREAK_DURATION_SECS as nat)
    &&& (m.status is Paused ==> saved_of(m, m.phase) == Some(m.remaining))
    &&& m.label == label_text(m.phase, m.status)
}

/// The state of a fresh timer.
pub open spec fn initial_model() -> TimerModel {
    TimerModel {
        phase: Phase::Work,
        status: Status::WorkReady,
        remaining: WORK_DURATION_SECS as nat,
        duration: WORK_DURATION_SECS as nat,
        flag: false,
        started: None,
        completed: None,
        saved_work: None,
        saved_break: None,
        label: label_text(Phase::Work, Status::WorkReady),
    }
}

/// Whole seconds from `started` to `now`, zero if `now` is earlier.
pub open spec fn elapsed_since(started: nat, now: nat) -> nat {
    if now >= started {
        (now - started) as nat
    } else {
        0
    }
}

/// The state after the countdown reaches zero: the machine stays in its
/// phase, flags completion, and records when it happened.
pub open spec fn completed_model(m: TimerModel, now: nat) -> TimerModel {
    TimerModel {
        status: Status::Complete,
        remaining: 0,
        flag: true,
        started: None,
        completed: Some(now),
        label: label_text(m.phase, Status::Complete),
        ..m
    }
}

/// Derive-remaining: recompute the countdown of a running timer from the
/// clock reading `now`. A timer that is not running is left frozen.
pub open spec fn ticked(m: TimerModel, now: nat) -> TimerModel {
    if m.status is Running {
        match m.started {
            Some(st) => {
                let e = elapsed_since(st, now);
                if e >= initial_of(m) {
                    completed_model(m, now)
                } else {
                    TimerModel { remaining: (initial_of(m) - e) as nat, ..m }
                }
            },
            None => m,
        }
    } else {
        m
    }
}

/// The phase a successful `start` begins: the ready phase when idle, the
/// current phase when restarting after completion.
pub open spec fn start_phase(m: TimerModel) -> Phase {
    match m.status {
        Status::WorkReady => Phase::Work,
        Status::BreakReady => Phase::Break,
        _ => m.phase,
    }
}

/// The state after a successful `start` at `now`: a fresh countdown over the
/// full fixed duration, with the started phase's saved-remaining consumed and
/// any completion record cleared.
pub open spec fn started_model(m: TimerModel, now: nat) -> TimerModel {
    let p = start_phase(m);
    TimerModel {
        phase: p,
        status: Status::Running,
        duration: duration_of(p),
        remaining: duration_of(p),
        flag: false,
        started: Some(now),
        completed: None,
        saved_work: if p is Work { None } else { m.saved_work },
        saved_break: if p is Break { None } else { m.saved_break },
        label: label_text(p, Status::Running),
    }
}

/// The state after `pause` freezes a running countdown (`m` already ticked):
/// the remaining value is stored in the current phase's saved slot.
pub open spec fn paused_model(m: TimerModel) -> TimerModel {
    TimerModel {
        status: Status::Paused,
        started: None,
        saved_work: if m.phase is Work { Some(m.remaining) } else { m.saved_work },
        saved_break: if m.phase is Break { Some(m.remaining) } else { m.saved_break },
        label: label_text(m.phase, Status::Paused),
        ..m
    }
}

/// The state after `resume` restarts a paused countdown at `now`: the frozen
/// remaining value stands and counts down from the saved slot.
pub open spec fn resumed_model(m: TimerModel, now: nat) -> TimerModel {
    TimerModel {
        status: Status::Running,
        started: Some(now),
        label: label_text(m.phase, Status::Running),
        ..m
    }
}

/// The state after `clear`: the current phase back in its ready state with
/// the fixed duration, its saved slot and any completion record gone. The
/// other phase's saved slot is untouched.
pub open spec fn cleared_model(m: TimerModel) -> TimerModel {
    let p = m.phase;
    TimerModel {
        phase: p,
        status: ready_status(p),
        remaining: duration_of(p),
        duration: duration_of(p),
        flag: false,
        started: None,
        completed: None,
        saved_work: if p is Work { None } else { m.saved_work },
        saved_break: if p is Break { None } else { m.saved_break },
        label: label_text(p, ready_status(p)),
    }
}

/// The state after an actual switch to phase `p` (`m` already ticked,
/// `p != m.phase`): a running or paused outgoing countdown is saved in the
/// outgoing phase's slot; the incoming phase restores its saved remaining as
/// a paused countdown, or stands ready at the fixed duration; completion
/// state is cleared either way.
pub open spec fn phase_switched(m: TimerModel, p: Phase) -> TimerModel {
    let saving = m.status is Running || m.status is Paused;
    let sw = if m.phase is Work && saving { Some(m.remaining) } else { m.saved_work };
    let sb = if m.phase is Break && saving { Some(m.remaining) } else { m.saved_break };
    let sv = match p {
        Phase::Work => sw,
        Phase::Break => sb,
    };
    let st = match sv {
        Some(_) => Status::Paused,
        None => ready_status(p),
    };
    TimerModel {
        phase: p,
        status: st,
        remaining: match sv {
            Some(v) => v,
            None => duration_of(p),
        },
        duration: duration_of(p),
        flag: false,
        started: None,
        completed: None,
        saved_work: sw,
        saved_break: sb,
        label: label_text(p, st),
    }
}

/// The state after `set_phase(p)` at `now`: a no-op when `p` is already the
/// current phase, else derive-remaining followed by the switch.
pub open spec fn set_phase_model(m: TimerModel, p: Phase, now: nat) -> TimerModel {
    if p == m.phase {
        m
    } else {
        phase_switched(ticked(m, now), p)
    }
}

/// Seconds a completed interval has been left unacknowledged at `now`,
/// clamped to [`OVERTIME_CAP_SECS`]; absent while not complete.
pub open spec fn overtime_of(m: TimerModel, now: nat) -> Option<nat> {
    if m.status is Complete {
        match m.completed {
            Some(c) => {
                let t = elapsed_since(c, now);
                if t >= OVERTIME_CAP_SECS as nat {
                    Some(OVERTIME_CAP_SECS as nat)
                } else {
                    Some(t)
                }
            },
            None => None,
        }
    } else {
        None
    }
}

/// What `start` at `now` does: after derive-remaining, a running timer is
/// rejected, a paused one is pointed at `resume`, and otherwise a fresh
/// countdown begins in the current phase.
pub open spec fn start_post(
    pre: TimerModel,
    post: TimerModel,
    r: Result<crate::timer::TimerState, String>,
    now: nat,
) -> bool {
    let m1 = ticked(pre, now);
    &&& (m1.status is Running ==> {
        &&& post == m1
        &&& r matches Err(e) && e@ == "Timer already running"@
    })
    &&& (m1.status is Paused ==> {
        &&& post == m1
        &&& r matches Err(e) && e@ == "Timer is paused, use resume instead"@
    })
    &&& (!(m1.status is Running) && !(m1.status is Paused) ==> {
        &&& post == started_model(m1, now)
        &&& r matches Ok(st) && st@ == snapshot_of(post, now)
    })
}

/// What `pause` at `now` does: after derive-remaining, only a running timer
/// can be paused; its remaining value is frozen and saved.
pub open spec fn pause_post(
    pre: TimerModel,
    post: TimerModel,
    r: Result<crate::timer::TimerState, String>,
    now: nat,
) -> bool {
    let m1 = ticked(pre, now);
    &&& (!(m1.status is Running) ==> {
        &&& post == m1
        &&& r matches Err(e) && e@ == "No running timer to pause"@
    })
    &&& (m1.status is Running ==> {
        &&& post == paused_model(m1)
        &&& r matches Ok(st) && st@ == snapshot_of(post, now)
    })
}

/// What `resume` at `now` does: only a paused timer can be resumed; its
/// frozen remaining value stands and counts down again.
pub open spec fn resume_post(
    pre: TimerModel,
    post: TimerModel,
    r: Result<crate::timer::TimerState, String>,
    now: nat,
) -> bool {
    &&& (!(pre.status is Paused) ==> {
        &&& post == ticked(pre, now)
        &&& r matches Err(e) && e@ == "No paused timer to resume"@
    })
    &&& (pre.status is Paused ==> {
        &&& post == resumed_model(pre, now)
        &&& r matches Ok(st) && st@ == snapshot_of(post, now)
    })
}

/// The snapshot reported for state `m` at `now`.
pub open spec fn snapshot_of(m: TimerModel, now: nat) -> StateModel {
    StateModel {
        phase: m.phase,
        status: m.status,
        remaining: m.remaining,
        duration: m.duration,
        flag: m.flag,
        label: m.label,
        overtime: overtime_of(m, now),
    }
}

} // verus!
