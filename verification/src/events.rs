//! The payloads published to the event sink: one on every finished
//! classification cycle, and one more when a cycle found distraction. The
//! shell only delivers them; their content is fixed here.

use vstd::prelude::*;
use vstd::string::*;
use crate::intervene::{light_message, severe_message};
use crate::model::{FocusState, MonitoringResult};
use crate::text::clone_opt_string;

verus! {

/// The lowercase name a focus state is published under.
pub open spec fn state_label(f: FocusState) -> Seq<char> {
    match f {
        FocusState::Focused => "focused"@,
        FocusState::Distracted => "distracted"@,
        FocusState::SeverelyDistracted => "severely_distracted"@,
        FocusState::Unknown => "unknown"@,
    }
}

fn state_label_str(f: FocusState) -> (r: &'static str)
    ensures
        r@ == state_label(f),
{
    match f {
        FocusState::Focused => "focused",
        FocusState::Distracted => "distracted",
        FocusState::SeverelyDistracted => "severely_distracted",
        FocusState::Unknown => "unknown",
    }
}

/// The "focus_state_changed" payload, sent after every cycle.
#[derive(Debug, PartialEq)]
pub struct FocusStateEvent {
    pub state: String,
    pub confidence: u8,
    pub application_name: Option<String>,
    pub window_title: Option<String>,
    pub timestamp: u64,
    pub ai_analysis: Option<String>,
}

/// Builds the focus-state payload for one finished cycle.
pub fn focus_event_of(result: &MonitoringResult) -> (e: FocusStateEvent)
    ensures
        e.state@ == state_label(result.focus_state),
        e.confidence == result.confidence,
        e.application_name == result.application_name,
        e.window_title == result.window_title,
        e.timestamp == result.timestamp,
        e.ai_analysis == result.ai_analysis,
{
    FocusStateEvent {
        state: String::from_str(state_label_str(result.focus_state)),
        confidence: result.confidence,
        application_name: clone_opt_string(&result.application_name),
        window_title: clone_opt_string(&result.window_title),
        timestamp: result.timestamp,
        ai_analysis: clone_opt_string(&result.ai_analysis),
    }
}

/// The "distraction_intervention" payload, sent only for the two
/// distracted states.
#[derive(Debug, PartialEq)]
pub struct DistractionEvent {
    pub kind: String,
    pub message: String,
    pub timestamp: u64,
    pub focus_state: String,
    pub confidence: u8,
    pub application_name: Option<String>,
    pub window_title: Option<String>,
    pub urgent: bool,
    pub duration_seconds: u32,
    pub sound_enabled: bool,
}

/// Builds the distraction payload: `Some` exactly for the two distracted
/// states, labelled light or severe, urgent and shown longer when severe.
pub fn distraction_event_of(result: &MonitoringResult) -> (r: Option<DistractionEvent>)
    ensures
        r is Some <==> (result.focus_state is Distracted
            || result.focus_state is SeverelyDistracted),
        r matches Some(e) ==> {
            &&& e.kind@ == if result.focus_state is SeverelyDistracted {
                "severe"@
            } else {
                "light"@
            }
            &&& e.message@ == if result.focus_state is SeverelyDistracted {
                severe_message(None)
            } else {
                light_message(None)
            }
            &&& e.timestamp == result.timestamp
            &&& e.focus_state@ == state_label(result.focus_state)
            &&& e.confidence == result.confidence
            &&& e.application_name == result.application_name
            &&& e.window_title == result.window_title
            &&& e.urgent == (result.focus_state is SeverelyDistracted)
            &&& e.duration_seconds == if result.focus_state is SeverelyDistracted {
                15int
            } else {
                10int
            }
            &&& e.sound_enabled
        },
{
    let severe = match result.focus_state {
        FocusState::SeverelyDistracted => true,
        FocusState::Distracted => false,
        _ => {
            return None;
        },
    };
    Some(
        DistractionEvent {
            kind: if severe {
                String::from_str("severe")
            } else {
                String::from_str("light")
            },
            message: if severe {
                String::from_str("严重分心警告！请立即回到工作状态！")
            } else {
                String::from_str("检测到轻度分心，建议重新集中注意力。")
            },
            timestamp: result.timestamp,
            focus_state: String::from_str(state_label_str(result.focus_state)),
            confidence: result.confidence,
            application_name: clone_opt_string(&result.application_name),
            window_title: clone_opt_string(&result.window_title),
            urgent: severe,
            duration_seconds: if severe {
                15
            } else {
                10
            },
            sound_enabled: true,
        },
    )
}

} // verus!
