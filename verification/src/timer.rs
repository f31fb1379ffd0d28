//! The timer core: state, snapshots, and the five operations.

use vstd::prelude::*;
use std::time::Instant;
use crate::clock::{monotonic_now, seconds_since};
use crate::model::{
    TimerModel, StateModel, duration_of, label_text, initial_model, inv, ticked, snapshot_of,
    start_post, pause_post, resume_post, started_model, paused_model, resumed_model,
    cleared_model, set_phase_model, phase_switched, completed_model, start_phase,
};

verus! {

/// Nominal length of a work interval, in seconds (25 minutes).
pub const WORK_DURATION_SECS: u32 = 1500;

/// Nominal length of a break interval, in seconds (5 minutes).
pub const BREAK_DURATION_SECS: u32 = 300;

/// Longest overtime ever reported, in seconds (59 minutes 59 seconds).
pub const OVERTIME_CAP_SECS: u32 = 3599;

/// Which of the two fixed-duration interval types is current.
#[derive(Debug, Clone, Copy, PartialEq, Eq, Structural)]
pub enum Phase {
    Work,
    Break,
}

/// The operational sub-state within a phase.
#[derive(Debug, Clone, Copy, PartialEq, Eq, Structural)]
pub enum Status {
    WorkReady,
    BreakReady,
    Running,
    Paused,
    Complete,
}

/// An immutable snapshot of the timer, derived on demand.
#[derive(Debug, Clone)]
pub struct TimerState {
    pub phase: Phase,
    pub status: Status,
    pub remaining_secs: u32,
    pub duration_secs: u32,
    pub completion_flag: bool,
    pub state_label: String,
    pub overtime_secs: Option<u32>,
}

impl View for TimerState {
    type V = StateModel;

    open spec fn view(&self) -> StateModel {
        StateModel {
            phase: self.phase,
            status: self.status,
            remaining: self.remaining_secs as nat,
            duration: self.duration_secs as nat,
            flag: self.completion_flag,
            label: self.state_label@,
            overtime: match self.overtime_secs {
                Some(v) => Some(v as nat),
                None => None,
            },
        }
    }
}

/// The mutable timer core. Time references are whole seconds of monotonic
/// time since `origin`, the instant the timer was created.
pub struct TimerService {
    pub phase: Phase,
    pub status: Status,
    pub remaining_secs: u32,
    pub duration_secs: u32,
    pub completion_flag: bool,
    pub started_at: Option<u64>,
    pub completed_at: Option<u64>,
    pub paused_work_secs: Option<u32>,
    pub paused_break_secs: Option<u32>,
    pub state_label: String,
    pub origin: Instant,
}

impl View for TimerService {
    type V = TimerModel;

    open spec fn view(&self) -> TimerModel {
        TimerModel {
            phase: self.phase,
            status: self.status,
            remaining: self.remaining_secs as nat,
            duration: self.duration_secs as nat,
            flag: self.completion_flag,
            started: match self.started_at {
                Some(t) => Some(t as nat),
                None => None,
            },
            completed: match self.completed_at {
                Some(t) => Some(t as nat),
                None => None,
            },
            saved_work: match self.paused_work_secs {
                Some(v) => Some(v as nat),
                None => None,
            },
            saved_break: match self.paused_break_secs {
                Some(v) => Some(v as nat),
                None => None,
            },
            label: self.state_label@,
        }
    }
}

/// The label that mirrors `phase` and `status`.
fn label_for(phase: Phase, status: Status) -> (r: String)
    ensures
        r@ == label_text(phase, status),
{
    match status {
        Status::WorkReady => "Ready to work".to_owned(),
        Status::BreakReady => "Ready to break".to_owned(),
        Status::Running => {
            if phase == Phase::Work {
                "Working".to_owned()
            } else {
                "Break time".to_owned()
            }
        },
        Status::Paused => {
            if phase == Phase::Work {
                "Paused (work)".to_owned()
            } else {
                "Paused (break)".to_owned()
            }
        },
        Status::Complete => {
            if phase == Phase::Work {
                "Work completed".to_owned()
            } else {
                "Break completed".to_owned()
            }
        },
    }
}

impl TimerService {
    /// A fresh timer: work phase, waiting to be started.
    pub fn new() -> (s: Self)
        ensures
            s@ == initial_model(),
            inv(s@),
    {
        TimerService {
            phase: Phase::Work,
            status: Status::WorkReady,
            remaining_secs: WORK_DURATION_SECS,
            duration_secs: WORK_DURATION_SECS,
            completion_flag: false,
            started_at: None,
            completed_at: None,
            paused_work_secs: None,
            paused_break_secs: None,
            state_label: label_for(Phase::Work, Status::WorkReady),
            origin: monotonic_now(),
        }
    }

    /// The current reading of the monotonic clock, as whole seconds since
    /// this timer was created.
    fn now_secs(&self) -> u64 {
        seconds_since(&self.origin)
    }

    /// Completion: the countdown reached zero at `now`. The machine stays in
    /// its phase; phase, duration, and the saved-remaining slots are kept.
    pub fn handle_completion(&mut self, now: u64)
        ensures
            final(self)@ == completed_model(old(self)@, now as nat),
    {
        self.completion_flag = true;
        self.remaining_secs = 0;
        self.status = Status::Complete;
        self.started_at = None;
        self.completed_at = Some(now);
        self.state_label = label_for(self.phase, Status::Complete);
        proof {
            assert(self@ =~= completed_model(old(self)@, now as nat));
        }
    }

    /// Derive-remaining at clock reading `now`: recompute the countdown of a
    /// running timer, completing it when the elapsed time has consumed it; a
    /// timer that is not running is left frozen.
    pub fn update_remaining_at(&mut self, now: u64)
        requires
            inv(old(self)@),
        ensures
            final(self)@ == ticked(old(self)@, now as nat),
            inv(final(self)@),
    {
        if self.status == Status::Running {
            match self.started_at {
                Some(st) => {
                    let elapsed: u64 = if now >= st {
                        now - st
                    } else {
                        0
                    };
                    let initial: u32 = match self.phase {
                        Phase::Work => match self.paused_work_secs {
                            Some(v) => v,
                            None => self.duration_secs,
                        },
                        Phase::Break => match self.paused_break_secs {
                            Some(v) => v,
                            None => self.duration_secs,
                        },
                    };
                    if elapsed >= initial as u64 {
                        self.handle_completion(now);
                        proof {
                            assert(self@ =~= ticked(old(self)@, now as nat));
                        }
                    } else {
                        self.remaining_secs = initial - (elapsed as u32);
                        proof {
                            assert(self@ =~= ticked(old(self)@, now as nat));
                        }
                    }
                },
                None => {
                },
            }
        }
    }

    /// The snapshot of the current state at clock reading `now`, with
    /// overtime reported while complete.
    fn snapshot_at(&self, now: u64) -> (st: TimerState)
        ensures
            st@ == snapshot_of(self@, now as nat),
    {
        let overtime_secs: Option<u32> = if self.status == Status::Complete {
            match self.completed_at {
                Some(c) => {
                    let t: u64 = if now >= c {
                        now - c
                    } else {
                        0
                    };
                    if t >= OVERTIME_CAP_SECS as u64 {
                        Some(OVERTIME_CAP_SECS)
                    } else {
                        Some(t as u32)
                    }
                },
                None => None,
            }
        } else {
            None
        };
        let st = TimerState {
            phase: self.phase,
            status: self.status,
            remaining_secs: self.remaining_secs,
            duration_secs: self.duration_secs,
            completion_flag: self.completion_flag,
            state_label: self.state_label.clone(),
            overtime_secs,
        };
        proof {
            assert(st@ =~= snapshot_of(self@, now as nat));
        }
        st
    }

    /// Derive-remaining at `now`, then report the snapshot.
    pub fn get_state_at(&mut self, now: u64) -> (st: TimerState)
        requires
            inv(old(self)@),
        ensures
            final(self)@ == ticked(old(self)@, now as nat),
            inv(final(self)@),
            st@ == snapshot_of(final(self)@, now as nat),
    {
        self.update_remaining_at(now);
        self.snapshot_at(now)
    }

    /// Begin a fresh countdown in the current phase at clock reading `now`.
    /// Fails while running (and, while paused, points the caller at
    /// `resume`); a completed interval restarts in place, the phase never
    /// advances by itself.
    pub fn start_at(&mut self, now: u64) -> (r: Result<TimerState, String>)
        requires
            inv(old(self)@),
        ensures
            inv(final(self)@),
            start_post(old(self)@, final(self)@, r, now as nat),
    {
        self.update_remaining_at(now);
        if self.status == Status::Running {
            return Err("Timer already running".to_owned());
        }
        if self.status == Status::Paused {
            return Err("Timer is paused, use resume instead".to_owned());
        }
        let p = match self.status {
            Status::WorkReady => Phase::Work,
            Status::BreakReady => Phase::Break,
            _ => self.phase,
        };
        let d = match p {
            Phase::Work => WORK_DURATION_SECS,
            Phase::Break => BREAK_DURATION_SECS,
        };
        self.phase = p;
        self.status = Status::Running;
        self.duration_secs = d;
        self.remaining_secs = d;
        self.completion_flag = false;
        self.started_at = Some(now);
        self.completed_at = None;
        match p {
            Phase::Work => {
                self.paused_work_secs = None;
            },
            Phase::Break => {
                self.paused_break_secs = None;
            },
        }
        self.state_label = label_for(p, Status::Running);
        proof {
            assert(self@ =~= started_model(ticked(old(self)@, now as nat), now as nat));
        }
        Ok(self.snapshot_at(now))
    }

    /// Freeze a running countdown at clock reading `now`: the remaining value
    /// is captured up to `now` and saved for the current phase. Fails while
    /// not running.
    pub fn pause_at(&mut self, now: u64) -> (r: Result<TimerState, String>)
        requires
            inv(old(self)@),
        ensures
            inv(final(self)@),
            pause_post(old(self)@, final(self)@, r, now as nat),
    {
        self.update_remaining_at(now);
        if self.status != Status::Running {
            return Err("No running timer to pause".to_owned());
        }
        self.status = Status::Paused;
        match self.phase {
            Phase::Work => {
                self.paused_work_secs = Some(self.remaining_secs);
            },
            Phase::Break => {
                self.paused_break_secs = Some(self.remaining_secs);
            },
        }
        self.started_at = None;
        self.state_label = label_for(self.phase, Status::Paused);
        proof {
            assert(self@ =~= paused_model(ticked(old(self)@, now as nat)));
        }
        Ok(self.snapshot_at(now))
    }

    /// Restart a paused countdown at clock reading `now`: the frozen
    /// remaining value stands and counts down again from `now`. Fails while
    /// not paused.
    pub fn resume_at(&mut self, now: u64) -> (r: Result<TimerState, String>)
        requires
            inv(old(self)@),
        ensures
            inv(final(self)@),
            resume_post(old(self)@, final(self)@, r, now as nat),
    {
        self.update_remaining_at(now);
        if self.status != Status::Paused {
            return Err("No paused timer to resume".to_owned());
        }
        self.status = Status::Running;
        self.started_at = Some(now);
        self.state_label = label_for(self.phase, Status::Running);
        proof {
            assert(self@ =~= resumed_model(old(self)@, now as nat));
        }
        Ok(self.snapshot_at(now))
    }

    /// Reset the current phase to its ready state with the fixed duration,
    /// clearing any completion record and the phase's saved-remaining slot.
    /// The other phase's slot, and the phase itself, are untouched. Always
    /// succeeds.
    pub fn clear_at(&mut self, now: u64) -> (r: Result<TimerState, String>)
        requires
            inv(old(self)@),
        ensures
            inv(final(self)@),
            final(self)@ == cleared_model(old(self)@),
            r matches Ok(st) && st@ == snapshot_of(final(self)@, now as nat),
    {
        let p = self.phase;
        let d = match p {
            Phase::Work => WORK_DURATION_SECS,
            Phase::Break => BREAK_DURATION_SECS,
        };
        let ready = match p {
            Phase::Work => Status::WorkReady,
            Phase::Break => Status::BreakReady,
        };
        self.status = ready;
        self.remaining_secs = d;
        self.duration_secs = d;
        self.completion_flag = false;
        self.started_at = None;
        self.completed_at = None;
        match p {
            Phase::Work => {
                self.paused_work_secs = None;
            },
            Phase::Break => {
                self.paused_break_secs = None;
            },
        }
        self.state_label = label_for(p, ready);
        proof {
            assert(self@ =~= cleared_model(old(self)@));
        }
        Ok(self.snapshot_at(now))
    }

    /// Switch to `new_phase` at clock reading `now`. A no-op when the phase
    /// is already current. Otherwise a running or paused countdown is saved
    /// for the outgoing phase, and the incoming phase either restores its
    /// saved countdown as paused or stands ready at the fixed duration;
    /// completion state is cleared on any actual switch.
    pub fn set_phase_at(&mut self, new_phase: Phase, now: u64)
        requires
            inv(old(self)@),
        ensures
            inv(final(self)@),
            final(self)@ == set_phase_model(old(self)@, new_phase, now as nat),
    {
        if new_phase == self.phase {
            return ;
        }
        self.update_remaining_at(now);
        if self.status == Status::Running || self.status == Status::Paused {
            match self.phase {
                Phase::Work => {
                    self.paused_work_secs = Some(self.remaining_secs);
                },
                Phase::Break => {
                    self.paused_break_secs = Some(self.remaining_secs);
                },
            }
        }
        self.phase = new_phase;
        let d = match new_phase {
            Phase::Work => WORK_DURATION_SECS,
            Phase::Break => BREAK_DURATION_SECS,
        };
        self.duration_secs = d;
        let sv = match new_phase {
            Phase::Work => self.paused_work_secs,
            Phase::Break => self.paused_break_secs,
        };
        match sv {
            Some(v) => {
                self.remaining_secs = v;
                self.status = Status::Paused;
            },
            None => {
                self.remaining_secs = d;
                self.status = match new_phase {
                    Phase::Work => Status::WorkReady,
                    Phase::Break => Status::BreakReady,
                };
            },
        }
        self.started_at = None;
        self.completed_at = None;
        self.completion_flag = false;
        self.state_label = label_for(self.phase, self.status);
        proof {
            assert(self@ =~= phase_switched(ticked(old(self)@, now as nat), new_phase));
        }
    }

    /// Derive-remaining at the clock's current reading. The reading is not
    /// an argument, so only its existence is stated; a timer that is not
    /// running is unchanged whatever the clock says.
    pub fn update_remaining(&mut self)
        requires
            inv(old(self)@),
        ensures
            inv(final(self)@),
            exists|now: nat| final(self)@ == #[trigger] ticked(old(self)@, now),
            !(old(self)@.status is Running) ==> final(self)@ == old(self)@,
    {
        let now = self.now_secs();
        self.update_remaining_at(now);
    }

    /// Derive-remaining at the clock's current reading, then report the
    /// snapshot. Every field of the snapshot except the overtime reading
    /// mirrors the timer itself.
    pub fn get_state(&mut self) -> (st: TimerState)
        requires
            inv(old(self)@),
        ensures
            inv(final(self)@),
            exists|now: nat|
                {
                    &&& final(self)@ == #[trigger] ticked(old(self)@, now)
                    &&& st@ == snapshot_of(final(self)@, now)
                },
            !(old(self)@.status is Running) ==> final(self)@ == old(self)@,
            st@.phase == final(self)@.phase,
            st@.status == final(self)@.status,
            st@.remaining == final(self)@.remaining,
            st@.duration == final(self)@.duration,
            st@.flag == final(self)@.flag,
            st@.label == final(self)@.label,
            st@.overtime is Some <==> final(self)@.status is Complete,
    {
        let now = self.now_secs();
        let st = self.get_state_at(now);
        st
    }

    /// `start` at the clock's current reading: see [`Self::start_at`]. While
    /// paused or freshly running the outcome does not depend on the clock;
    /// a ready or completed timer always begins a full countdown.
    pub fn start(&mut self) -> (r: Result<TimerState, String>)
        requires
            inv(old(self)@),
        ensures
            inv(final(self)@),
            exists|now: nat| #[trigger] start_post(old(self)@, final(self)@, r, now),
            old(self)@.status is Paused ==> final(self)@ == old(self)@ && r is Err,
            !(old(self)@.status is Running) && !(old(self)@.status is Paused) ==> {
                &&& r is Ok
                &&& final(self)@.status is Running
                &&& final(self)@.phase == start_phase(old(self)@)
                &&& final(self)@.duration == duration_of(final(self)@.phase)
                &&& final(self)@.remaining == final(self)@.duration
                &&& !final(self)@.flag
                &&& final(self)@.completed is None
            },
    {
        let now = self.now_secs();
        let r = self.start_at(now);
        r
    }

    /// `pause` at the clock's current reading: see [`Self::pause_at`]. A
    /// timer that is not running is rejected unchanged whatever the clock
    /// says.
    pub fn pause(&mut self) -> (r: Result<TimerState, String>)
        requires
            inv(old(self)@),
        ensures
            inv(final(self)@),
            exists|now: nat| #[trigger] pause_post(old(self)@, final(self)@, r, now),
            !(old(self)@.status is Running) ==> final(self)@ == old(self)@ && r is Err,
    {
        let now = self.now_secs();
        let r = self.pause_at(now);
        r
    }

    /// `resume` at the clock's current reading: see [`Self::resume_at`]. The
    /// frozen remaining value is reproduced exactly, whatever the clock says.
    pub fn resume(&mut self) -> (r: Result<TimerState, String>)
        requires
            inv(old(self)@),
        ensures
            inv(final(self)@),
            exists|now: nat| #[trigger] resume_post(old(self)@, final(self)@, r, now),
            !(old(self)@.status is Paused) && !(old(self)@.status is Running) ==> final(self)@
                == old(self)@ && r is Err,
            old(self)@.status is Running ==> r is Err,
            old(self)@.status is Paused ==> {
                &&& r is Ok
                &&& final(self)@.status is Running
                &&& final(self)@.phase == old(self)@.phase
                &&& final(self)@.remaining == old(self)@.remaining
                &&& final(self)@.duration == old(self)@.duration
                &&& final(self)@.saved_work == old(self)@.saved_work
                &&& final(self)@.saved_break == old(self)@.saved_break
                &&& !final(self)@.flag
            },
    {
        let now = self.now_secs();
        let r = self.resume_at(now);
        r
    }

    /// `clear` at the clock's current reading: see [`Self::clear_at`]. The
    /// outcome never depends on the clock.
    pub fn clear(&mut self) -> (r: Result<TimerState, String>)
        requires
            inv(old(self)@),
        ensures
            inv(final(self)@),
            final(self)@ == cleared_model(old(self)@),
            r matches Ok(st) && st@ == snapshot_of(final(self)@, 0),
    {
        let now = self.now_secs();
        let r = self.clear_at(now);
        proof {
            let m = cleared_model(old(self)@);
            assert(snapshot_of(m, now as nat) =~= snapshot_of(m, 0));
        }
        r
    }

    /// `set_phase` at the clock's current reading: see [`Self::set_phase_at`].
    /// Idempotent on the current phase; the clock matters only when an
    /// outgoing running countdown is captured.
    pub fn set_phase(&mut self, new_phase: Phase)
        requires
            inv(old(self)@),
        ensures
            inv(final(self)@),
            exists|now: nat| final(self)@ == #[trigger] set_phase_model(
                old(self)@,
                new_phase,
                now,
            ),
            new_phase == old(self)@.phase ==> final(self)@ == old(self)@,
            new_phase != old(self)@.phase && !(old(self)@.status is Running) ==> final(self)@
                == phase_switched(old(self)@, new_phase),
    {
        let now = self.now_secs();
        self.set_phase_at(new_phase, now);
    }
}

/// A timer behind the mutual-exclusion lock that serializes the adapter's
/// concurrent calls.
pub type SharedTimerService = std::sync::Mutex<TimerService>;

/// A fresh timer behind a fresh lock, for the adapter to own.
pub fn create_timer_service() -> SharedTimerService {
    std::sync::Mutex::new(TimerService::new())
}

} // verus!
