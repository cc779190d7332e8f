//! The intervention policy: a pure decision over one classification
//! outcome, the user's toggles, and the single global cooldown shared by
//! all action kinds. The probabilistic encouragement sample is taken by
//! the caller and handed in as a boolean.

use vstd::prelude::*;
use vstd::string::*;
use crate::model::FocusState;
use crate::settings::DistractionInterventionSettings;
use crate::text::str_eq;

verus! {

#[derive(Clone, Copy, PartialEq, Eq, Structural, Debug)]
pub enum InterventionKind {
    Light,
    Severe,
    Encouragement,
}

/// What the policy asks the shell to show.
#[derive(Debug, PartialEq)]
pub struct InterventionAction {
    pub kind: InterventionKind,
    pub title: String,
    pub message: String,
    pub urgent: bool,
    pub display_seconds: u32,
    pub sound_enabled: bool,
}

/// When the last intervention of any kind was issued. Single global
/// cooldown: every action kind resets it.
#[derive(Clone, Copy, PartialEq, Eq, Structural, Debug)]
pub struct InterventionState {
    pub last_intervention_at: Option<u64>,
}

impl InterventionState {
    pub fn new() -> (s: InterventionState)
        ensures
            s.last_intervention_at is None,
    {
        InterventionState { last_intervention_at: None }
    }

    /// Remembers that an intervention was issued now; called for every
    /// action kind, so the cooldown is shared across all three.
    pub fn record(&mut self, now: u64)
        ensures
            final(self).last_intervention_at == Some(now),
    {
        self.last_intervention_at = Some(now);
    }
}

/// Still within `intervention_cooldown_minutes` of the last action.
pub open spec fn in_cooldown(
    state: InterventionState,
    settings: DistractionInterventionSettings,
    now: u64,
) -> bool {
    match state.last_intervention_at {
        Some(last) => now - last < settings.intervention_cooldown_minutes * 60,
        None => false,
    }
}

/// The modulus the encouragement sample is drawn with: rarer for "low",
/// more frequent for "high", and "medium" otherwise.
pub open spec fn encouragement_modulus(freq: Seq<char>) -> u64 {
    if freq == "low"@ {
        20
    } else if freq == "high"@ {
        5
    } else {
        10
    }
}

/// The probabilistic gate on encouragements, derived from a timestamp.
pub fn should_send_encouragement(
    settings: &DistractionInterventionSettings,
    timestamp: u64,
) -> (r: bool)
    ensures
        r == (timestamp % encouragement_modulus(settings.encouragement_frequency@) == 0),
{
    let modulus: u64 = if str_eq(settings.encouragement_frequency.as_str(), "low") {
        20
    } else if str_eq(settings.encouragement_frequency.as_str(), "high") {
        5
    } else {
        10
    };
    timestamp % modulus == 0
}

/// Which action kind (if any) the policy takes: nothing while disabled or
/// cooling down; Distracted and SeverelyDistracted map to Light and Severe
/// behind their own gates; Focused may earn an Encouragement when the
/// caller's sample says so; Unknown never acts.
pub open spec fn decide_kind(
    state: FocusState,
    settings: DistractionInterventionSettings,
    cooldown: InterventionState,
    now: u64,
    encourage_sample: bool,
) -> Option<InterventionKind> {
    if !settings.enabled {
        None
    } else if in_cooldown(cooldown, settings, now) {
        None
    } else {
        match state {
            FocusState::Distracted => if settings.light_distraction_notification {
                Some(InterventionKind::Light)
            } else {
                None
            },
            FocusState::SeverelyDistracted => if settings.severe_distraction_popup {
                Some(InterventionKind::Severe)
            } else {
                None
            },
            FocusState::Focused => if settings.encouragement_enabled && encourage_sample {
                Some(InterventionKind::Encouragement)
            } else {
                None
            },
            FocusState::Unknown => None,
        }
    }
}

pub open spec fn view_opt_str(task: Option<&str>) -> Option<Seq<char>> {
    match task {
        Some(t) => Some(t@),
        None => None,
    }
}

/// The light reminder's wording, referencing the current task if set.
pub open spec fn light_message(task: Option<Seq<char>>) -> Seq<char> {
    match task {
        Some(t) => "检测到轻度分心，当前任务："@ + t + "。建议重新集中注意力。"@,
        None => "检测到轻度分心，建议重新集中注意力。"@,
    }
}

/// The severe warning's wording.
pub open spec fn severe_message(task: Option<Seq<char>>) -> Seq<char> {
    match task {
        Some(t) => "严重分心警告！当前任务："@ + t + "。请立即回到工作状态！"@,
        None => "严重分心警告！请立即回到工作状态！"@,
    }
}

/// The encouragement's wording.
pub open spec fn encouragement_message(task: Option<Seq<char>>) -> Seq<char> {
    match task {
        Some(t) => "专注状态良好！继续保持对「"@ + t + "」的专注。"@,
        None => "专注状态良好！继续保持。"@,
    }
}

fn message_with_task(before: &str, task: &str, after: &str) -> (r: String)
    ensures
        r@ == before@ + task@ + after@,
{
    let mut out = String::from_str(before);
    out.append(task);
    out.append(after);
    assert(out@ =~= before@ + task@ + after@);
    out
}

/// The full policy decision. Any action it returns must be recorded with
/// `InterventionState::record`, whatever its kind, so that the single
/// cooldown covers all three.
pub fn decide_intervention(
    state: FocusState,
    settings: &DistractionInterventionSettings,
    cooldown: &InterventionState,
    now: u64,
    task: Option<&str>,
    encourage_sample: bool,
) -> (r: Option<InterventionAction>)
    ensures
        r is Some <==> decide_kind(state, *settings, *cooldown, now, encourage_sample) is Some,
        r matches Some(a) ==> {
            &&& Some(a.kind) == decide_kind(state, *settings, *cooldown, now, encourage_sample)
            &&& a.sound_enabled == settings.notification_sound
            &&& a.urgent == (a.kind is Severe)
            &&& a.display_seconds == if a.kind is Severe {
                15int
            } else {
                10int
            }
            &&& a.kind is Light ==> a.title@ == "专注提醒"@ && a.message@ == light_message(
                view_opt_str(task),
            )
            &&& a.kind is Severe ==> a.title@ == "严重分心警告"@ && a.message@ == severe_message(
                view_opt_str(task),
            )
            &&& a.kind is Encouragement ==> a.title@ == "专注鼓励"@ && a.message@
                == encouragement_message(view_opt_str(task))
        },
{
    if !settings.enabled {
        return None;
    }
    let cooling = match cooldown.last_intervention_at {
        Some(last) => now < last || now - last < (settings.intervention_cooldown_minutes as u64)
            * 60,
        None => false,
    };
    if cooling {
        return None;
    }
    match state {
        FocusState::Distracted => {
            if settings.light_distraction_notification {
                let message = match task {
                    Some(t) => message_with_task("检测到轻度分心，当前任务：", t, "。建议重新集中注意力。"),
                    None => String::from_str("检测到轻度分心，建议重新集中注意力。"),
                };
                Some(InterventionAction {
                    kind: InterventionKind::Light,
                    title: String::from_str("专注提醒"),
                    message,
                    urgent: false,
                    display_seconds: 10,
                    sound_enabled: settings.notification_sound,
                })
            } else {
                None
            }
        },
        FocusState::SeverelyDistracted => {
            if settings.severe_distraction_popup {
                let message = match task {
                    Some(t) => message_with_task("严重分心警告！当前任务：", t, "。请立即回到工作状态！"),
                    None => String::from_str("严重分心警告！请立即回到工作状态！"),
                };
                Some(InterventionAction {
                    kind: InterventionKind::Severe,
                    title: String::from_str("严重分心警告"),
                    message,
                    urgent: true,
                    display_seconds: 15,
                    sound_enabled: settings.notification_sound,
                })
            } else {
                None
            }
        },
        FocusState::Focused => {
            if settings.encouragement_enabled && encourage_sample {
                let message = match task {
                    Some(t) => message_with_task("专注状态良好！继续保持对「", t, "」的专注。"),
                    None => String::from_str("专注状态良好！继续保持。"),
                };
                Some(InterventionAction {
                    kind: InterventionKind::Encouragement,
                    title: String::from_str("专注鼓励"),
                    message,
                    urgent: false,
                    display_seconds: 10,
                    sound_enabled: settings.notification_sound,
                })
            } else {
                None
            }
        },
        FocusState::Unknown => None,
    }
}

/// Law: two consecutive Distracted samples within the cooldown window
/// yield exactly one action — after the first is taken and recorded, the
/// second decision is no action at all.
pub proof fn lemma_cooldown_gates_consecutive_distractions(
    settings: DistractionInterventionSettings,
    cooldown: InterventionState,
    t1: u64,
    t2: u64,
    sample: bool,
)
    requires
        decide_kind(FocusState::Distracted, settings, cooldown, t1, sample) is Some,
        t1 <= t2,
        t2 - t1 < settings.intervention_cooldown_minutes * 60,
    ensures
        decide_kind(
            FocusState::Distracted,
            settings,
            InterventionState { last_intervention_at: Some(t1) },
            t2,
            sample,
        ) is None,
{
}

} // verus!

