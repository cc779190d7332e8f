//! Shared data model: classification results, the cached current activity,
//! application-activity records and tasks. Wall-clock instants are carried
//! as whole seconds since the Unix epoch; the shell that owns the clock
//! supplies them.

use vstd::prelude::*;

verus! {

/// The contents of an optional string.
pub open spec fn opt_view(o: Option<String>) -> Option<Seq<char>> {
    match o {
        Some(s) => Some(s@),
        None => None,
    }
}

/// Terminal classification of one sample. A new sample simply replaces it;
/// it never transitions on its own.
#[derive(Clone, Copy, PartialEq, Eq, Structural, Debug)]
pub enum FocusState {
    Focused,
    Distracted,
    SeverelyDistracted,
    Unknown,
}

/// One finished classification cycle. Immutable once created.
///
/// `confidence` is kept in hundredths: 95 stands for 0.95. A well-formed
/// result never exceeds 100 (the certainty 1.0).
#[derive(Debug, PartialEq)]
pub struct MonitoringResult {
    pub timestamp: u64,
    pub focus_state: FocusState,
    pub application_name: Option<String>,
    pub window_title: Option<String>,
    pub ocr_text: Option<String>,
    pub ai_analysis: Option<String>,
    pub confidence: u8,
}

/// The mathematical contents of a `MonitoringResult`: every string by its
/// characters.
pub ghost struct MonitoringResultView {
    pub timestamp: u64,
    pub focus_state: FocusState,
    pub application_name: Option<Seq<char>>,
    pub window_title: Option<Seq<char>>,
    pub ocr_text: Option<Seq<char>>,
    pub ai_analysis: Option<Seq<char>>,
    pub confidence: u8,
}

impl View for MonitoringResult {
    type V = MonitoringResultView;

    open spec fn view(&self) -> MonitoringResultView {
        MonitoringResultView {
            timestamp: self.timestamp,
            focus_state: self.focus_state,
            application_name: opt_view(self.application_name),
            window_title: opt_view(self.window_title),
            ocr_text: opt_view(self.ocr_text),
            ai_analysis: opt_view(self.ai_analysis),
            confidence: self.confidence,
        }
    }
}

impl MonitoringResult {
    pub open spec fn wf(self) -> bool {
        self.confidence <= 100
    }
}

/// Derived view of the foreground activity, cached by the scheduler for
/// cheap polling; overwritten every tick and cleared on stop.
#[derive(Debug, PartialEq)]
pub struct CurrentActivity {
    pub application_name: Option<String>,
    pub window_title: Option<String>,
    pub is_productive: Option<bool>,
    pub timestamp: u64,
}

/// Coarse liveness summary handed to the user interface.
#[derive(Clone, Debug, PartialEq)]
pub struct AppStatus {
    pub version: String,
    pub is_monitoring: bool,
    pub is_timer_running: bool,
    pub uptime: u64,
}

/// Aggregate of one day of monitoring records.
#[derive(Clone, Copy, PartialEq, Eq, Structural, Debug)]
pub struct TodayStats {
    pub total_focus_time: u32,
    pub total_distract_time: u32,
    pub focus_score: u32,
    pub interruption_count: u32,
}

/// A to-do item as the storage collaborator keeps it.
#[derive(Clone, Debug, PartialEq)]
pub struct Task {
    pub id: String,
    pub text: String,
    pub completed: bool,
    pub created_at: u64,
    pub updated_at: u64,
}

/// What a caller supplies to create a task; the id and the timestamps are
/// added on creation.
#[derive(Clone, Debug, PartialEq)]
pub struct NewTask {
    pub text: String,
}

/// Builds the stored form of a new task.
pub fn make_task(new_task: NewTask, id: String, now: u64) -> (t: Task)
    ensures
        t.id == id,
        t.text == new_task.text,
        !t.completed,
        t.created_at == now,
        t.updated_at == now,
{
    Task { id, text: new_task.text, completed: false, created_at: now, updated_at: now }
}

/// What kind of foreground change an activity record describes.
#[derive(Clone, Copy, PartialEq, Eq, Structural, Debug)]
pub enum ActivityType {
    ApplicationFocus,
    ApplicationSwitch,
    WindowFocus,
    WindowSwitch,
    Idle,
    Active,
}

/// One span of foreground use of an application.
#[derive(Clone, Debug, PartialEq)]
pub struct ApplicationActivity {
    pub id: String,
    pub activity_type: ActivityType,
    pub application_name: String,
    pub window_title: Option<String>,
    pub process_id: Option<u32>,
    pub started_at: u64,
    pub ended_at: Option<u64>,
    pub duration_seconds: u32,
    pub focus_session_id: Option<String>,
    pub is_productive: Option<bool>,
}

/// Per-application usage rollup.
#[derive(Clone, Debug, PartialEq)]
pub struct ApplicationUsage {
    pub application_name: String,
    pub usage_time_seconds: u32,
    pub switch_count: u32,
    pub is_productive: Option<bool>,
}

} // verus!
