use my_focus::classify::{build_analysis_prompt, parse_ai_response, reply_or_fallback};
use my_focus::config::{AIConfig, MonitoringConfig};
use my_focus::model::FocusState;

#[test]
fn explicit_severe_status_line_wins() {
    let (state, confidence) = parse_ai_response("状态: 严重分心\n分析: 用户长时间在玩游戏，与任务无关。");
    assert_eq!(state, FocusState::SeverelyDistracted);
    assert_eq!(confidence, 95);
}

#[test]
fn explicit_status_line_without_space() {
    let (state, confidence) = parse_ai_response("状态:严重分心");
    assert_eq!(state, FocusState::SeverelyDistracted);
    assert_eq!(confidence, 95);
}

#[test]
fn explicit_distracted_status_line() {
    let (state, confidence) = parse_ai_response("状态: 分心\n分析: 在刷社交网络。");
    assert_eq!(state, FocusState::Distracted);
    assert_eq!(confidence, 90);
}

#[test]
fn explicit_focused_status_line() {
    let (state, confidence) = parse_ai_response("状态: 专注\n分析: 正在写代码。");
    assert_eq!(state, FocusState::Focused);
    assert_eq!(confidence, 90);
}

#[test]
fn bare_keywords_resolve_by_severity_order() {
    // Both a distraction keyword and a focus keyword, no explicit status
    // line: the scan order makes the distraction keyword win.
    let (state, confidence) = parse_ai_response("用户看起来有些分心，但偶尔也能专注。");
    assert_eq!(state, FocusState::Distracted);
    assert!(confidence >= 75);
}

#[test]
fn severe_keyword_wins_over_plain_distracted() {
    // "严重分心" contains "分心"; the severity order must pick the severe
    // reading, not whichever substring is searched first.
    let (state, confidence) = parse_ai_response("看起来严重分心了，比普通的分心更糟，完全谈不上专注。");
    assert_eq!(state, FocusState::SeverelyDistracted);
    assert_eq!(confidence, 85);
}

#[test]
fn bare_focused_keyword() {
    let (state, confidence) = parse_ai_response("用户非常专注。");
    assert_eq!(state, FocusState::Focused);
    assert_eq!(confidence, 70);
}

#[test]
fn unrecognized_text_reads_unknown() {
    let (state, confidence) = parse_ai_response("nothing to see here");
    assert_eq!(state, FocusState::Unknown);
    assert_eq!(confidence, 50);
}

#[test]
fn case_is_folded_before_matching() {
    // Latin noise in any case around the keyword must not disturb the scan.
    let (state, _) = parse_ai_response("REPLY: 用户分心 END OF REPLY");
    assert_eq!(state, FocusState::Distracted);
}

#[test]
fn backend_failure_degrades_to_unknown_at_half_confidence() {
    let reply = reply_or_fallback(Err("connection refused".to_string()));
    let (state, confidence) = parse_ai_response(reply.as_str());
    assert_eq!(state, FocusState::Unknown);
    assert_eq!(confidence, 50);
}

fn small_config() -> MonitoringConfig {
    let mut config = MonitoringConfig::new_default();
    config.whitelist = vec!["Code".to_string(), "Terminal".to_string()];
    config.blacklist = vec!["Game".to_string()];
    config
}

#[test]
fn prompt_holds_every_section_in_order() {
    let config = small_config();
    let prompt = build_analysis_prompt(
        &config,
        &Some("Code.exe".to_string()),
        &Some("main.rs - editor".to_string()),
        &Some("fn main() {}".to_string()),
        Some("写代码"),
    );
    let expected = "请分析用户当前的专注状态和任务执行情况。\n\n\
**当前用户任务**: 写代码\n\n\
**应用使用规则**:\n\
白名单应用（通常有助于专注）: Code, Terminal\n\
黑名单应用（通常导致分心）: Game\n\n\
**当前活动信息**:\n\
- 应用程序: Code.exe\n\
- 窗口标题: main.rs - editor\n\
- 屏幕内容: fn main() {}\n\n\
请根据以上信息判断用户当前的专注状态，并按以下格式回答：\n\n\
状态: [专注/分心/严重分心]\n\
分析: [详细说明判断理由]\n\n\
判断标准：\n\
- 专注：当前活动与设定任务相关，或使用有助于任务完成的工具\n\
- 分心：当前活动与设定任务无关，但不影响长期目标\n\
- 严重分心：长时间从事与任务完全无关的活动，可能影响工作效率\n";
    assert_eq!(prompt, expected);
}

#[test]
fn prompt_without_task_or_lists_uses_defaults() {
    let config = MonitoringConfig::new_default();
    let prompt = build_analysis_prompt(&config, &None, &None, &None, None);
    assert!(prompt.contains("**当前用户任务**: 无明确任务设定"));
    assert!(!prompt.contains("**应用使用规则**"));
    assert!(prompt.contains("- 应用程序: 未知应用"));
    assert!(prompt.contains("- 窗口标题: 无标题"));
    assert!(prompt.contains("- 屏幕内容: 无文本内容"));
    assert!(prompt.contains("- 专注：使用白名单中的应用，或从事提升个人能力的活动"));
}

#[test]
fn prompt_truncates_ocr_text_to_one_thousand_characters() {
    let config = MonitoringConfig::new_default();
    let long_text = "甲".repeat(1005);
    let prompt = build_analysis_prompt(&config, &None, &None, &Some(long_text), None);
    assert!(prompt.contains(&"甲".repeat(1000)));
    assert!(!prompt.contains(&"甲".repeat(1001)));
}
