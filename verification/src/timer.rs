//! The session timer: a Stopped / Running / Paused state machine for
//! manually started focus and break sessions.
//!
//! Elapsed time is accumulated from a monotonic clock whose readings (whole
//! seconds) the caller passes in; wall-clock instants are carried only as
//! bookkeeping on the session record, so adjusting the system time never
//! changes a session's elapsed seconds.

use vstd::prelude::*;
use vstd::string::*;

verus! {

#[derive(Clone, Copy, PartialEq, Eq, Structural, Debug)]
pub enum TimerState {
    Stopped,
    Running,
    Paused,
}

#[derive(Clone, Copy, PartialEq, Eq, Structural, Debug)]
pub enum SessionType {
    Focus,
    ShortBreak,
    LongBreak,
}

#[derive(Clone, Copy, PartialEq, Eq, Structural, Debug)]
pub enum SessionStatus {
    Pending,
    Active,
    Paused,
    Completed,
    Cancelled,
}

/// One work or break session. Mutated only through the timer's own
/// operations; handed out to the caller when stopped.
#[derive(Debug, PartialEq)]
pub struct FocusSession {
    pub id: String,
    pub session_type: SessionType,
    pub status: SessionStatus,
    pub duration_minutes: u32,
    pub elapsed_seconds: u32,
    pub task_id: Option<String>,
    pub started_at: Option<u64>,
    pub paused_at: Option<u64>,
    pub completed_at: Option<u64>,
    pub interruptions: u32,
    pub notes: Option<String>,
}

/// The longest planned duration whose second count still fits in a `u32`.
pub const MAX_SESSION_MINUTES: u32 = u32::MAX / 60;

/// Why a timer operation was refused.
#[derive(Clone, Copy, PartialEq, Eq, Structural, Debug)]
pub enum TimerError {
    SessionAlreadyActive,
}

/// Status snapshot for the user interface.
#[derive(Debug, PartialEq)]
pub struct TimerStatus {
    pub is_running: bool,
    pub session_type: Option<String>,
    pub elapsed_seconds: u32,
    pub remaining_seconds: u32,
    pub task_id: Option<String>,
    pub duration_minutes: u32,
}

/// The timer itself. At most one live (non-terminal) session exists at a
/// time; starting while one is live is refused.
pub struct TimerService {
    pub current_session: Option<FocusSession>,
    pub timer_state: TimerState,
    /// Monotonic reading taken at the last start or resume.
    pub start_time: Option<u64>,
    /// Seconds accumulated across earlier Running stretches.
    pub elapsed_when_paused: u32,
}

impl TimerService {
    pub open spec fn wf(self) -> bool {
        &&& (self.timer_state is Stopped <==> self.current_session is None)
        &&& (self.timer_state is Running ==> self.start_time is Some)
        &&& (self.current_session matches Some(s) ==> s.status is Active
            && s.duration_minutes <= MAX_SESSION_MINUTES)
        &&& (self.timer_state is Stopped ==> self.start_time is None
            && self.elapsed_when_paused == 0)
    }

    /// Seconds of Running time the timer has seen by the monotonic instant
    /// `now`: the accumulated stretches plus the one still open, if any.
    pub open spec fn elapsed_at(self, now: u64) -> int {
        if self.timer_state is Running {
            self.elapsed_when_paused + (now - self.start_time->0)
        } else {
            self.elapsed_when_paused as int
        }
    }

    /// The caller's clock readings never run backwards past the last
    /// recorded instant, and the accumulated seconds stay within `u32`.
    pub open spec fn clock_ok(self, now: u64) -> bool {
        self.timer_state is Running ==> self.start_time->0 <= now && self.elapsed_at(now)
            <= u32::MAX
    }

    /// Pausing closes the open Running stretch into the accumulator.
    pub open spec fn pause_tr(self, now: u64) -> TimerService {
        TimerService {
            timer_state: TimerState::Paused,
            elapsed_when_paused: self.elapsed_at(now) as u32,
            ..self
        }
    }

    /// Resuming opens a new Running stretch at `now`.
    pub open spec fn resume_tr(self, now: u64) -> TimerService {
        TimerService { timer_state: TimerState::Running, start_time: Some(now), ..self }
    }

    pub fn new() -> (t: TimerService)
        ensures
            t.wf(),
            t.timer_state is Stopped,
            t.current_session is None,
    {
        TimerService {
            current_session: None,
            timer_state: TimerState::Stopped,
            start_time: None,
            elapsed_when_paused: 0,
        }
    }

    /// Starts a fresh session at monotonic instant `now_mono` (wall clock
    /// `now_wall`), returning its identifier; refused while another
    /// session is live, which leaves the timer untouched.
    pub fn start_session(
        &mut self,
        session_type: SessionType,
        duration_minutes: u32,
        now_mono: u64,
        now_wall: u64,
    ) -> (r: Result<String, TimerError>)
        requires
            old(self).wf(),
            duration_minutes <= MAX_SESSION_MINUTES,
        ensures
            final(self).wf(),
            old(self).timer_state is Stopped <==> r is Ok,
            r matches Err(e) ==> e == TimerError::SessionAlreadyActive && *final(self) == *old(
                self,
            ),
            r matches Ok(id) ==> {
                &&& final(self).timer_state is Running
                &&& final(self).start_time == Some(now_mono)
                &&& final(self).elapsed_when_paused == 0
                &&& final(self).current_session matches Some(s) && s == (FocusSession {
                    id,
                    session_type,
                    status: SessionStatus::Active,
                    duration_minutes,
                    elapsed_seconds: 0,
                    task_id: None,
                    started_at: Some(now_wall),
                    paused_at: None,
                    completed_at: None,
                    interruptions: 0,
                    notes: None,
                })
            },
    {
        if self.current_session.is_some() {
            return Err(TimerError::SessionAlreadyActive);
        }
        let id = fresh_session_id();
        let session = FocusSession {
            id: id.clone(),
            session_type,
            status: SessionStatus::Active,
            duration_minutes,
            elapsed_seconds: 0,
            task_id: None,
            started_at: Some(now_wall),
            paused_at: None,
            completed_at: None,
            interruptions: 0,
            notes: None,
        };
        self.current_session = Some(session);
        self.timer_state = TimerState::Running;
        self.start_time = Some(now_mono);
        self.elapsed_when_paused = 0;
        Ok(id)
    }

    /// A no-op unless Running; otherwise banks the open stretch and pauses.
    pub fn pause_session(&mut self, now_mono: u64)
        requires
            old(self).wf(),
            old(self).clock_ok(now_mono),
        ensures
            final(self).wf(),
            old(self).timer_state is Running ==> *final(self) == old(self).pause_tr(now_mono),
            !(old(self).timer_state is Running) ==> *final(self) == *old(self),
            final(self).elapsed_at(now_mono) == old(self).elapsed_at(now_mono),
    {
        if let TimerState::Running = self.timer_state {
            let start = match self.start_time {
                Some(s) => s,
                None => {
                    proof {
                        assert(false);
                    }
                    0
                },
            };
            self.elapsed_when_paused = self.elapsed_when_paused + ((now_mono - start) as u32);
            self.timer_state = TimerState::Paused;
        }
    }

    /// A no-op unless Paused; otherwise opens a new Running stretch.
    pub fn resume_session(&mut self, now_mono: u64)
        requires
            old(self).wf(),
        ensures
            final(self).wf(),
            old(self).timer_state is Paused ==> *final(self) == old(self).resume_tr(now_mono),
            !(old(self).timer_state is Paused) ==> *final(self) == *old(self),
            final(self).elapsed_at(now_mono) == old(self).elapsed_at(now_mono),
    {
        if let TimerState::Paused = self.timer_state {
            self.timer_state = TimerState::Running;
            self.start_time = Some(now_mono);
        }
    }

    /// Finalizes and returns the live session, if any: its elapsed seconds
    /// are exactly the timer's Running time, it is marked Completed at
    /// wall-clock `now_wall`, and the timer returns to Stopped.
    pub fn stop_session(&mut self, now_mono: u64, now_wall: u64) -> (r: Option<FocusSession>)
        requires
            old(self).wf(),
            old(self).clock_ok(now_mono),
        ensures
            final(self).wf(),
            old(self).current_session is None ==> r is None && *final(self) == *old(self),
            old(self).current_session matches Some(live) ==> r matches Some(done) && done
                == (FocusSession {
                status: SessionStatus::Completed,
                elapsed_seconds: old(self).elapsed_at(now_mono) as u32,
                completed_at: Some(now_wall),
                ..live
            }),
            old(self).current_session is Some ==> final(self).timer_state is Stopped
                && final(self).current_session is None,
    {
        let live = self.current_session.take();
        match live {
            Some(mut session) => {
                let current_stretch: u32 = if let TimerState::Running = self.timer_state {
                    let start = match self.start_time {
                        Some(s) => s,
                        None => {
                            proof {
                                assert(false);
                            }
                            0
                        },
                    };
                    (now_mono - start) as u32
                } else {
                    0
                };
                session.status = SessionStatus::Completed;
                session.completed_at = Some(now_wall);
                session.elapsed_seconds = self.elapsed_when_paused + current_stretch;
                self.timer_state = TimerState::Stopped;
                self.start_time = None;
                self.elapsed_when_paused = 0;
                Some(session)
            },
            None => None,
        }
    }

    /// The timer's Running time by the monotonic instant `now_mono`.
    pub fn get_elapsed_seconds(&self, now_mono: u64) -> (r: u32)
        requires
            self.wf(),
            self.clock_ok(now_mono),
        ensures
            r == self.elapsed_at(now_mono),
    {
        match self.timer_state {
            TimerState::Running => {
                let start = match self.start_time {
                    Some(s) => s,
                    None => {
                        proof {
                            assert(false);
                        }
                        0
                    },
                };
                self.elapsed_when_paused + ((now_mono - start) as u32)
            },
            _ => self.elapsed_when_paused,
        }
    }

    /// Seconds left of the planned duration; zero on overrun or with no
    /// live session.
    pub fn get_remaining_seconds(&self, now_mono: u64) -> (r: u32)
        requires
            self.wf(),
            self.clock_ok(now_mono),
        ensures
            self.current_session matches Some(s) ==> r == if self.elapsed_at(now_mono)
                >= s.duration_minutes * 60 {
                0int
            } else {
                s.duration_minutes * 60 - self.elapsed_at(now_mono)
            },
            self.current_session is None ==> r == 0,
    {
        match &self.current_session {
            Some(session) => {
                let total: u32 = session.duration_minutes * 60;
                let elapsed = self.get_elapsed_seconds(now_mono);
                if elapsed >= total {
                    0
                } else {
                    total - elapsed
                }
            },
            None => 0,
        }
    }
}

/// The name a session type is reported under.
pub open spec fn session_type_label(t: SessionType) -> Seq<char> {
    match t {
        SessionType::Focus => "Focus"@,
        SessionType::ShortBreak => "ShortBreak"@,
        SessionType::LongBreak => "LongBreak"@,
    }
}

impl TimerService {
    /// A status snapshot: running with the live session's type, task,
    /// elapsed and remaining seconds, or an all-idle record.
    pub fn get_status(&self, now_mono: u64) -> (st: TimerStatus)
        requires
            self.wf(),
            self.clock_ok(now_mono),
        ensures
            st.is_running == (self.current_session is Some),
            st.elapsed_seconds == self.elapsed_at(now_mono),
            self.current_session matches Some(s) ==> {
                &&& st.session_type matches Some(l) && l@ == session_type_label(s.session_type)
                &&& st.task_id == s.task_id
                &&& st.duration_minutes == s.duration_minutes
                &&& st.remaining_seconds == if self.elapsed_at(now_mono) >= s.duration_minutes
                    * 60 {
                    0int
                } else {
                    s.duration_minutes * 60 - self.elapsed_at(now_mono)
                }
            },
            self.current_session is None ==> st.session_type is None && st.task_id is None
                && st.duration_minutes == 0 && st.remaining_seconds == 0,
    {
        let elapsed_seconds = self.get_elapsed_seconds(now_mono);
        let remaining_seconds = self.get_remaining_seconds(now_mono);
        match &self.current_session {
            Some(s) => TimerStatus {
                is_running: true,
                session_type: Some(
                    match s.session_type {
                        SessionType::Focus => String::from_str("Focus"),
                        SessionType::ShortBreak => String::from_str("ShortBreak"),
                        SessionType::LongBreak => String::from_str("LongBreak"),
                    },
                ),
                elapsed_seconds,
                remaining_seconds,
                task_id: crate::text::clone_opt_string(&s.task_id),
                duration_minutes: s.duration_minutes,
            },
            None => TimerStatus {
                is_running: false,
                session_type: None,
                elapsed_seconds,
                remaining_seconds,
                task_id: None,
                duration_minutes: 0,
            },
        }
    }
}

/// Relies on uuid::Uuid::new_v4 and its hyphenated `Display` form: a fresh
/// random identifier, written as 36 characters.
#[verifier::external_body]
fn fresh_session_id() -> (r: String)
    ensures
        r@.len() == 36,
{
    uuid::Uuid::new_v4().to_string()
}

/// Law: a session's elapsed time is exactly the monotonic Running time —
/// the stretch before a pause plus the stretch after the resume; the wall
/// clock never enters the account.
pub proof fn lemma_elapsed_counts_running_time_only(
    s0: TimerService,
    t1: u64,
    t2: u64,
    t3: u64,
    t4: u64,
)
    requires
        s0.wf(),
        s0.timer_state is Running,
        s0.start_time == Some(t1),
        s0.elapsed_when_paused == 0,
        t1 <= t2,
        t3 <= t4,
        (t2 - t1) + (t4 - t3) <= u32::MAX,
    ensures
        s0.pause_tr(t2).resume_tr(t3).elapsed_at(t4) == (t2 - t1) + (t4 - t3),
{
}

} // verus!
