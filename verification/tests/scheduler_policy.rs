use my_focus::classify::analyze_focus_with_ai;
use my_focus::config::MonitoringConfig;
use my_focus::events::{distraction_event_of, focus_event_of};
use my_focus::intervene::{
    decide_intervention, should_send_encouragement, InterventionKind, InterventionState,
};
use my_focus::model::FocusState;
use my_focus::scheduler::{perform_monitoring_check, ConfigError, MonitorService, TickAction};
use my_focus::settings::DistractionInterventionSettings;

#[test]
fn update_config_rejects_out_of_range_intervals_and_keeps_the_old_config() {
    let mut scheduler = MonitorService::new();
    let mut low = MonitoringConfig::new_default();
    low.interval_minutes = 0;
    assert_eq!(scheduler.update_config(low), Err(ConfigError::IntervalOutOfRange));
    let mut high = MonitoringConfig::new_default();
    high.interval_minutes = 11;
    high.enabled = true;
    assert_eq!(scheduler.update_config(high), Err(ConfigError::IntervalOutOfRange));
    // Prior configuration intact: still the default.
    let kept = scheduler.get_config();
    assert_eq!(kept.interval_minutes, 3);
    assert!(!kept.enabled);

    let mut fine = MonitoringConfig::new_default();
    fine.interval_minutes = 10;
    assert_eq!(scheduler.update_config(fine), Ok(()));
    assert_eq!(scheduler.get_config().interval_minutes, 10);

    assert_eq!(scheduler.update_interval(1), Ok(()));
    assert_eq!(scheduler.get_config().interval_minutes, 1);
    assert_eq!(scheduler.update_interval(11), Err(ConfigError::IntervalOutOfRange));
    assert_eq!(scheduler.get_config().interval_minutes, 1);
}

#[test]
fn start_twice_yields_exactly_one_new_loop() {
    let mut scheduler = MonitorService::new();
    assert!(scheduler.start());
    assert!(!scheduler.start());
    assert!(scheduler.is_monitoring());
}

#[test]
fn stop_on_a_stopped_scheduler_is_a_noop() {
    let mut scheduler = MonitorService::new();
    scheduler.stop();
    assert!(!scheduler.is_monitoring());
    assert_eq!(scheduler.get_current_activity(), None);
    assert_eq!(scheduler.get_last_result(), None);
}

#[test]
fn tick_actions_follow_the_flag_and_the_config() {
    let mut scheduler = MonitorService::new();
    assert_eq!(scheduler.next_tick_action(), TickAction::Stop);
    scheduler.start();
    // Running but disabled: short backoff.
    assert_eq!(scheduler.next_tick_action(), TickAction::Recheck { wait_seconds: 10 });
    let mut config = MonitoringConfig::new_default();
    config.enabled = true;
    config.interval_minutes = 3;
    scheduler.update_config(config).unwrap();
    assert_eq!(scheduler.next_tick_action(), TickAction::RunCycle { wait_seconds: 180 });
}

#[test]
fn a_cycle_updates_both_snapshots_and_stop_clears_them() {
    let mut scheduler = MonitorService::new();
    scheduler.start();
    let result = analyze_focus_with_ai(
        &Some("Code.exe".to_string()),
        &Some("main.rs".to_string()),
        &Some("fn main".to_string()),
        Ok("状态: 专注\n分析: 正在写代码。".to_string()),
        1_700_000_000,
    );
    assert_eq!(result.focus_state, FocusState::Focused);
    assert_eq!(result.confidence, 90);
    scheduler.record_cycle(result.clone());
    let activity = scheduler.get_current_activity().unwrap();
    assert_eq!(activity.application_name.as_deref(), Some("Code.exe"));
    assert_eq!(activity.is_productive, Some(true));
    assert_eq!(activity.timestamp, 1_700_000_000);
    assert_eq!(scheduler.get_last_result(), Some(result));
    scheduler.stop();
    assert_eq!(scheduler.get_current_activity(), None);
    assert_eq!(scheduler.get_last_result(), None);
}

#[test]
fn two_distractions_within_cooldown_produce_exactly_one_action() {
    let settings = DistractionInterventionSettings::default();
    let mut cooldown = InterventionState::new();
    let first = decide_intervention(FocusState::Distracted, &settings, &cooldown, 1_000, None, false);
    let action = first.expect("the first distraction must act");
    assert_eq!(action.kind, InterventionKind::Light);
    cooldown.record(1_000);
    // 2 minutes later, still within the 5-minute cooldown: no action.
    let second =
        decide_intervention(FocusState::Distracted, &settings, &cooldown, 1_120, None, false);
    assert!(second.is_none());
    // Past the cooldown the policy acts again.
    let third =
        decide_intervention(FocusState::Distracted, &settings, &cooldown, 1_000 + 5 * 60, None, false);
    assert!(third.is_some());
}

#[test]
fn intervention_actions_carry_the_documented_shape() {
    let settings = DistractionInterventionSettings::default();
    let fresh = InterventionState::new();
    let light = decide_intervention(
        FocusState::Distracted,
        &settings,
        &fresh,
        0,
        Some("写代码"),
        false,
    )
    .unwrap();
    assert_eq!(light.title, "专注提醒");
    assert_eq!(light.message, "检测到轻度分心，当前任务：写代码。建议重新集中注意力。");
    assert!(!light.urgent);
    assert_eq!(light.display_seconds, 10);
    assert!(light.sound_enabled);

    let severe =
        decide_intervention(FocusState::SeverelyDistracted, &settings, &fresh, 0, None, false)
            .unwrap();
    assert_eq!(severe.kind, InterventionKind::Severe);
    assert_eq!(severe.title, "严重分心警告");
    assert_eq!(severe.message, "严重分心警告！请立即回到工作状态！");
    assert!(severe.urgent);
    assert_eq!(severe.display_seconds, 15);

    let praised =
        decide_intervention(FocusState::Focused, &settings, &fresh, 0, Some("读书"), true).unwrap();
    assert_eq!(praised.kind, InterventionKind::Encouragement);
    assert_eq!(praised.message, "专注状态良好！继续保持对「读书」的专注。");
    // Without the sample, focus earns nothing.
    assert!(decide_intervention(FocusState::Focused, &settings, &fresh, 0, None, false).is_none());
    // Unknown never acts.
    assert!(decide_intervention(FocusState::Unknown, &settings, &fresh, 0, None, true).is_none());
}

#[test]
fn disabled_gates_suppress_actions() {
    let mut settings = DistractionInterventionSettings::default();
    settings.enabled = false;
    let fresh = InterventionState::new();
    assert!(
        decide_intervention(FocusState::SeverelyDistracted, &settings, &fresh, 0, None, false)
            .is_none()
    );
    let mut no_light = DistractionInterventionSettings::default();
    no_light.light_distraction_notification = false;
    assert!(decide_intervention(FocusState::Distracted, &no_light, &fresh, 0, None, false).is_none());
}

#[test]
fn encouragement_sampling_follows_the_frequency_tier() {
    let medium = DistractionInterventionSettings::default();
    assert!(should_send_encouragement(&medium, 20));
    assert!(!should_send_encouragement(&medium, 21));
    let mut low = DistractionInterventionSettings::default();
    low.encouragement_frequency = "low".to_string();
    assert!(should_send_encouragement(&low, 40));
    assert!(!should_send_encouragement(&low, 30));
    let mut high = DistractionInterventionSettings::default();
    high.encouragement_frequency = "high".to_string();
    assert!(should_send_encouragement(&high, 25));
}

#[test]
fn the_cooldown_gates_every_action_kind() {
    // An encouragement within the cooldown of a reminder is withheld too:
    // the cooldown is global, not per kind.
    let settings = DistractionInterventionSettings::default();
    let mut cooldown = InterventionState::new();
    assert!(decide_intervention(FocusState::Distracted, &settings, &cooldown, 500, None, false)
        .is_some());
    cooldown.record(500);
    assert!(decide_intervention(FocusState::Focused, &settings, &cooldown, 600, None, true)
        .is_none());
    assert!(
        decide_intervention(FocusState::SeverelyDistracted, &settings, &cooldown, 600, None, false)
            .is_none()
    );
}

#[test]
fn a_whole_cycle_composes_result_and_events() {
    let cycle = perform_monitoring_check(
        &Some("Game.exe".to_string()),
        &None,
        &None,
        Err("timeout".to_string()),
        7,
    );
    // A failed backend degrades to Unknown at half confidence, with the
    // fallback reply recorded verbatim.
    assert_eq!(cycle.result.focus_state, FocusState::Unknown);
    assert_eq!(cycle.result.confidence, 50);
    assert!(cycle.result.ai_analysis.as_deref().unwrap().starts_with("状态: 未知"));
    assert_eq!(cycle.focus_event.state, "unknown");
    assert!(cycle.distraction_event.is_none());
}

#[test]
fn events_mirror_the_result() {
    let result = analyze_focus_with_ai(
        &Some("Game.exe".to_string()),
        &None,
        &None,
        Ok("状态: 严重分心".to_string()),
        42,
    );
    let focus_event = focus_event_of(&result);
    assert_eq!(focus_event.state, "severely_distracted");
    assert_eq!(focus_event.confidence, 95);
    assert_eq!(focus_event.timestamp, 42);

    let intervention = distraction_event_of(&result).unwrap();
    assert_eq!(intervention.kind, "severe");
    assert!(intervention.urgent);
    assert_eq!(intervention.duration_seconds, 15);

    let calm = analyze_focus_with_ai(&None, &None, &None, Ok("状态: 专注".to_string()), 43);
    assert!(distraction_event_of(&calm).is_none());
}
