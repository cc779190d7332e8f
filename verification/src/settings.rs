//! User settings, including the distraction-intervention toggles the
//! intervention policy consumes.

use vstd::prelude::*;
use vstd::string::*;

verus! {

/// The user-configurable gates of the intervention policy.
#[derive(Debug, PartialEq)]
pub struct DistractionInterventionSettings {
    pub enabled: bool,
    pub light_distraction_notification: bool,
    pub severe_distraction_popup: bool,
    pub encouragement_enabled: bool,
    pub intervention_cooldown_minutes: u32,
    pub notification_sound: bool,
    pub popup_duration_seconds: u32,
    /// One of "low", "medium", "high"; anything else reads as "medium".
    pub encouragement_frequency: String,
}

impl Default for DistractionInterventionSettings {
    /// Interventions on, every gate open, a 5-minute cooldown, sound on,
    /// 10-second popups, medium encouragement frequency.
    fn default() -> (d: Self)
        ensures
            d.enabled,
            d.light_distraction_notification,
            d.severe_distraction_popup,
            d.encouragement_enabled,
            d.intervention_cooldown_minutes == 5,
            d.notification_sound,
            d.popup_duration_seconds == 10,
            d.encouragement_frequency@ == "medium"@,
    {
        DistractionInterventionSettings {
            enabled: true,
            light_distraction_notification: true,
            severe_distraction_popup: true,
            encouragement_enabled: true,
            intervention_cooldown_minutes: 5,
            notification_sound: true,
            popup_duration_seconds: 10,
            encouragement_frequency: String::from_str("medium"),
        }
    }
}

/// All user settings the application keeps.
#[derive(Debug, PartialEq)]
pub struct UserSettings {
    pub user_id: String,
    pub username: String,
    pub default_focus_duration: u32,
    pub short_break_duration: u32,
    pub long_break_duration: u32,
    pub notification_enabled: bool,
    pub sound_enabled: bool,
    pub theme: String,
    pub auto_start_break: bool,
    pub auto_start_focus: bool,
    pub whitelist: Vec<String>,
    pub blacklist: Vec<String>,
    pub autostart: bool,
    pub fatigue_notify: bool,
    pub distraction_intervention: DistractionInterventionSettings,
}

impl Default for UserSettings {
    /// 25-minute focus, 5- and 15-minute breaks, notifications and sound
    /// on, light theme, nothing automatic, empty application lists.
    fn default() -> (u: Self)
        ensures
            u.user_id@ == ""@,
            u.username@ == ""@,
            u.default_focus_duration == 25,
            u.short_break_duration == 5,
            u.long_break_duration == 15,
            u.notification_enabled,
            u.sound_enabled,
            u.theme@ == "light"@,
            !u.auto_start_break,
            !u.auto_start_focus,
            u.whitelist@.len() == 0,
            u.blacklist@.len() == 0,
            !u.autostart,
            u.fatigue_notify,
            u.distraction_intervention.enabled,
            u.distraction_intervention.intervention_cooldown_minutes == 5,
    {
        UserSettings {
            user_id: String::from_str(""),
            username: String::from_str(""),
            default_focus_duration: 25,
            short_break_duration: 5,
            long_break_duration: 15,
            notification_enabled: true,
            sound_enabled: true,
            theme: String::from_str("light"),
            auto_start_break: false,
            auto_start_focus: false,
            whitelist: Vec::new(),
            blacklist: Vec::new(),
            autostart: false,
            fatigue_notify: true,
            distraction_intervention: Default::default(),
        }
    }
}

} // verus!
