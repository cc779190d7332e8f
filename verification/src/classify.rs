//! The classifier's reply handling: substitution of a fixed fallback for a
//! failed backend call, and the priority-ordered keyword parse of the reply
//! into a `(FocusState, confidence)` pair.

use vstd::prelude::*;
use vstd::string::*;
use crate::config::{AIConfig, MonitoringConfig};
use crate::model::{opt_view, FocusState, MonitoringResult};
use crate::text::{chars_of, contains_seq, find_sub};

verus! {

/// The lowercase mapping of a text, determined by its characters alone.
pub uninterp spec fn lower_of(s: Seq<char>) -> Seq<char>;

/// Relies on str::to_lowercase: its result depends on the characters of the
/// input alone.
#[verifier::external_body]
fn lowercase(s: &str) -> (r: String)
    ensures
        r@ == lower_of(s@),
{
    s.to_lowercase()
}

/// The explicit status lines and bare keywords the parser recognizes, in
/// severity order. The status label is looked for with and without
/// a space after the colon.
pub open spec fn kw_status_severe_spaced() -> Seq<char> {
    "状态: 严重分心"@
}

pub open spec fn kw_status_severe() -> Seq<char> {
    "状态:严重分心"@
}

pub open spec fn kw_status_distracted_spaced() -> Seq<char> {
    "状态: 分心"@
}

pub open spec fn kw_status_distracted() -> Seq<char> {
    "状态:分心"@
}

pub open spec fn kw_status_focused_spaced() -> Seq<char> {
    "状态: 专注"@
}

pub open spec fn kw_status_focused() -> Seq<char> {
    "状态:专注"@
}

pub open spec fn kw_severe() -> Seq<char> {
    "严重分心"@
}

pub open spec fn kw_distracted() -> Seq<char> {
    "分心"@
}

pub open spec fn kw_focused() -> Seq<char> {
    "专注"@
}

/// How a (lower-cased) reply text reads as a classification.
///
/// Priority order: an explicit status line wins over bare keywords, and
/// within each tier the more severe state is checked first, so a text
/// holding both a severe and a plain keyword resolves to the severe state.
/// Confidence is in hundredths: explicit lines give 95/90/90, bare
/// keywords 85/75/70, and anything else is Unknown at 50.
pub open spec fn classify_reply(t: Seq<char>) -> (FocusState, u8) {
    if contains_seq(t, kw_status_severe_spaced()) || contains_seq(t, kw_status_severe()) {
        (FocusState::SeverelyDistracted, 95u8)
    } else if contains_seq(t, kw_status_distracted_spaced()) || contains_seq(
        t,
        kw_status_distracted(),
    ) {
        (FocusState::Distracted, 90u8)
    } else if contains_seq(t, kw_status_focused_spaced()) || contains_seq(
        t,
        kw_status_focused(),
    ) {
        (FocusState::Focused, 90u8)
    } else if contains_seq(t, kw_severe()) {
        (FocusState::SeverelyDistracted, 85u8)
    } else if contains_seq(t, kw_distracted()) {
        (FocusState::Distracted, 75u8)
    } else if contains_seq(t, kw_focused()) {
        (FocusState::Focused, 70u8)
    } else {
        (FocusState::Unknown, 50u8)
    }
}

/// Law: in a reply without any explicit status line, a distraction keyword
/// always outranks the focus keyword, the severe keyword outranks the
/// plain one whenever both occur, and the confidence is at least 75 of
/// 100 — whichever order the keywords appear in.
pub proof fn lemma_keyword_severity_order(t: Seq<char>)
    requires
        !contains_seq(t, kw_status_severe_spaced()),
        !contains_seq(t, kw_status_severe()),
        !contains_seq(t, kw_status_distracted_spaced()),
        !contains_seq(t, kw_status_distracted()),
        !contains_seq(t, kw_status_focused_spaced()),
        !contains_seq(t, kw_status_focused()),
        contains_seq(t, kw_distracted()),
    ensures
        classify_reply(t).0 is SeverelyDistracted || classify_reply(t).0 is Distracted,
        contains_seq(t, kw_severe()) ==> classify_reply(t).0 is SeverelyDistracted,
        classify_reply(t).1 >= 75,
{
}

/// Parses an already lower-cased reply, exactly as `classify_reply` reads.
pub fn parse_classifier_reply(lowered: &str) -> (r: (FocusState, u8))
    ensures
        r == classify_reply(lowered@),
{
    let text = chars_of(lowered);
    if find_sub(&text, &chars_of("状态: 严重分心")) || find_sub(&text, &chars_of("状态:严重分心")) {
        (FocusState::SeverelyDistracted, 95)
    } else if find_sub(&text, &chars_of("状态: 分心")) || find_sub(&text, &chars_of("状态:分心")) {
        (FocusState::Distracted, 90)
    } else if find_sub(&text, &chars_of("状态: 专注")) || find_sub(&text, &chars_of("状态:专注")) {
        (FocusState::Focused, 90)
    } else if find_sub(&text, &chars_of("严重分心")) {
        (FocusState::SeverelyDistracted, 85)
    } else if find_sub(&text, &chars_of("分心")) {
        (FocusState::Distracted, 75)
    } else if find_sub(&text, &chars_of("专注")) {
        (FocusState::Focused, 70)
    } else {
        (FocusState::Unknown, 50)
    }
}

/// Parses a raw classifier reply: the text is lower-cased first, then read
/// by `classify_reply`'s priority order.
pub fn parse_ai_response(response: &str) -> (r: (FocusState, u8))
    ensures
        r == classify_reply(lower_of(response@)),
{
    let lowered = lowercase(response);
    parse_classifier_reply(lowered.as_str())
}

/// The reply used in place of a failed backend call; the parser reads it
/// as `Unknown` with confidence 50.
pub open spec fn fallback_reply_text() -> Seq<char> {
    "状态: 未知\n分析: AI服务暂不可用，无法进行状态分析。请检查网络连接和API配置。"@
}

/// A backend outcome becomes the reply text to parse: a transient backend
/// failure degrades to the fixed fallback reply instead of propagating.
pub fn reply_or_fallback(outcome: Result<String, String>) -> (r: String)
    ensures
        match outcome {
            Ok(reply) => r == reply,
            Err(_) => r@ == fallback_reply_text(),
        },
{
    match outcome {
        Ok(reply) => reply,
        Err(_) => String::from_str(
            "状态: 未知\n分析: AI服务暂不可用，无法进行状态分析。请检查网络连接和API配置。",
        ),
    }
}

/// OCR text is truncated to this many characters before it enters the
/// prompt.
pub const MAX_OCR_PROMPT_CHARS: usize = 1000;

/// A sequence of string views, for stating what the prompt holds.
pub open spec fn views_of(v: Seq<String>) -> Seq<Seq<char>> {
    v.map_values(|s: String| s@)
}

/// The prompt's task paragraph.
pub open spec fn task_block(task: Option<Seq<char>>) -> Seq<char> {
    match task {
        Some(t) => "**当前用户任务**: "@ + t + "\n\n"@,
        None => "**当前用户任务**: 无明确任务设定\n\n"@,
    }
}

/// The prompt's whitelist/blacklist paragraph; absent when both lists are
/// empty.
pub open spec fn rules_block(wl: Seq<Seq<char>>, bl: Seq<Seq<char>>) -> Seq<char> {
    if wl.len() == 0 && bl.len() == 0 {
        Seq::empty()
    } else {
        "**应用使用规则**:\n"@ + (if wl.len() > 0 {
            "白名单应用（通常有助于专注）: "@ + crate::text::join_sp(wl, ", "@) + "\n"@
        } else {
            Seq::<char>::empty()
        }) + (if bl.len() > 0 {
            "黑名单应用（通常导致分心）: "@ + crate::text::join_sp(bl, ", "@) + "\n"@
        } else {
            Seq::<char>::empty()
        }) + "\n"@
    }
}

/// The prompt's activity paragraph: application, window title, and the
/// OCR text truncated to `MAX_OCR_PROMPT_CHARS` characters.
pub open spec fn activity_block(
    app: Option<Seq<char>>,
    title: Option<Seq<char>>,
    ocr: Option<Seq<char>>,
) -> Seq<char> {
    "**当前活动信息**:\n- 应用程序: "@ + (match app {
        Some(a) => a,
        None => "未知应用"@,
    }) + "\n- 窗口标题: "@ + (match title {
        Some(t) => t,
        None => "无标题"@,
    }) + "\n- 屏幕内容: "@ + (match ocr {
        Some(t) => crate::text::truncate_sp(t, MAX_OCR_PROMPT_CHARS as nat),
        None => "无文本内容"@,
    }) + "\n\n"@
}

/// The closing judgment criteria, phrased around the task when one is set.
pub open spec fn criteria_block(has_task: bool) -> Seq<char> {
    "判断标准：\n"@ + if has_task {
        "- 专注：当前活动与设定任务相关，或使用有助于任务完成的工具\n- 分心：当前活动与设定任务无关，但不影响长期目标\n- 严重分心：长时间从事与任务完全无关的活动，可能影响工作效率\n"@
    } else {
        "- 专注：使用白名单中的应用，或从事提升个人能力的活动\n- 分心：使用黑名单中的应用，或从事娱乐休闲活动\n- 严重分心：长时间沉迷娱乐，可能影响个人发展\n"@
    }
}

/// The whole analysis prompt, in order: instruction, current task, usage
/// rules, current activity, the required reply format, and the criteria.
pub open spec fn analysis_prompt_sp(
    task: Option<Seq<char>>,
    wl: Seq<Seq<char>>,
    bl: Seq<Seq<char>>,
    app: Option<Seq<char>>,
    title: Option<Seq<char>>,
    ocr: Option<Seq<char>>,
) -> Seq<char> {
    "请分析用户当前的专注状态和任务执行情况。\n\n"@ + task_block(task) + rules_block(wl, bl) + activity_block(
        app,
        title,
        ocr,
    ) + "请根据以上信息判断用户当前的专注状态，并按以下格式回答：\n\n状态: [专注/分心/严重分心]\n分析: [详细说明判断理由]\n\n"@
        + criteria_block(task is Some)
}

/// The task paragraph of the prompt.
fn task_paragraph(current_task: Option<&str>) -> (r: String)
    ensures
        r@ == task_block(
            match current_task {
                Some(t) => Some(t@),
                None => None,
            },
        ),
{
    match current_task {
        Some(t) => {
            let mut out = String::from_str("**当前用户任务**: ");
            out.append(t);
            out.append("\n\n");
            assert(out@ =~= "**当前用户任务**: "@ + t@ + "\n\n"@);
            out
        },
        None => String::from_str("**当前用户任务**: 无明确任务设定\n\n"),
    }
}

/// The usage-rules paragraph of the prompt.
fn rules_paragraph(config: &MonitoringConfig) -> (r: String)
    ensures
        r@ == rules_block(views_of(config.whitelist@), views_of(config.blacklist@)),
{
    let ghost wl_v = views_of(config.whitelist@);
    let ghost bl_v = views_of(config.blacklist@);
    if config.whitelist.len() == 0 && config.blacklist.len() == 0 {
        let out = String::new();
        assert(out@ =~= rules_block(wl_v, bl_v));
        return out;
    }
    let mut out = String::from_str("**应用使用规则**:\n");
    let ghost head = out@;
    if config.whitelist.len() > 0 {
        out.append("白名单应用（通常有助于专注）: ");
        let joined = crate::text::join_with(&config.whitelist, ", ");
        out.append(joined.as_str());
        out.append("\n");
    }
    assert(out@ =~= head + (if wl_v.len() > 0 {
        "白名单应用（通常有助于专注）: "@ + crate::text::join_sp(wl_v, ", "@) + "\n"@
    } else {
        Seq::<char>::empty()
    }));
    let ghost with_wl = out@;
    if config.blacklist.len() > 0 {
        out.append("黑名单应用（通常导致分心）: ");
        let joined = crate::text::join_with(&config.blacklist, ", ");
        out.append(joined.as_str());
        out.append("\n");
    }
    assert(out@ =~= with_wl + (if bl_v.len() > 0 {
        "黑名单应用（通常导致分心）: "@ + crate::text::join_sp(bl_v, ", "@) + "\n"@
    } else {
        Seq::<char>::empty()
    }));
    out.append("\n");
    assert(out@ =~= rules_block(wl_v, bl_v));
    out
}

/// The current-activity paragraph of the prompt.
fn activity_paragraph(
    app_name: &Option<String>,
    window_title: &Option<String>,
    ocr_text: &Option<String>,
) -> (r: String)
    ensures
        r@ == activity_block(opt_view(*app_name), opt_view(*window_title), opt_view(*ocr_text)),
{
    let mut out = String::from_str("**当前活动信息**:\n- 应用程序: ");
    match app_name {
        Some(a) => out.append(a.as_str()),
        None => out.append("未知应用"),
    }
    out.append("\n- 窗口标题: ");
    match window_title {
        Some(t) => out.append(t.as_str()),
        None => out.append("无标题"),
    }
    out.append("\n- 屏幕内容: ");
    match ocr_text {
        Some(t) => {
            let truncated = crate::text::truncate_chars(t.as_str(), MAX_OCR_PROMPT_CHARS);
            out.append(truncated.as_str());
        },
        None => out.append("无文本内容"),
    }
    out.append("\n\n");
    assert(out@ =~= activity_block(opt_view(*app_name), opt_view(*window_title), opt_view(
        *ocr_text,
    )));
    out
}

/// The judgment-criteria paragraph of the prompt.
fn criteria_paragraph(has_task: bool) -> (r: String)
    ensures
        r@ == criteria_block(has_task),
{
    let mut out = String::from_str("判断标准：\n");
    if has_task {
        out.append(
            "- 专注：当前活动与设定任务相关，或使用有助于任务完成的工具\n- 分心：当前活动与设定任务无关，但不影响长期目标\n- 严重分心：长时间从事与任务完全无关的活动，可能影响工作效率\n",
        );
    } else {
        out.append(
            "- 专注：使用白名单中的应用，或从事提升个人能力的活动\n- 分心：使用黑名单中的应用，或从事娱乐休闲活动\n- 严重分心：长时间沉迷娱乐，可能影响个人发展\n",
        );
    }
    out
}

/// Builds the structured analysis prompt from the configuration, the
/// probed activity, the extracted text and the current task.
pub fn build_analysis_prompt(
    config: &MonitoringConfig,
    app_name: &Option<String>,
    window_title: &Option<String>,
    ocr_text: &Option<String>,
    current_task: Option<&str>,
) -> (r: String)
    ensures
        r@ == analysis_prompt_sp(
            match current_task {
                Some(t) => Some(t@),
                None => None,
            },
            views_of(config.whitelist@),
            views_of(config.blacklist@),
            opt_view(*app_name),
            opt_view(*window_title),
            opt_view(*ocr_text),
        ),
{
    let mut prompt = String::from_str("请分析用户当前的专注状态和任务执行情况。\n\n");
    let task = task_paragraph(current_task);
    prompt.append(task.as_str());
    let rules = rules_paragraph(config);
    prompt.append(rules.as_str());
    let activity = activity_paragraph(app_name, window_title, ocr_text);
    prompt.append(activity.as_str());
    prompt.append(
        "请根据以上信息判断用户当前的专注状态，并按以下格式回答：\n\n状态: [专注/分心/严重分心]\n分析: [详细说明判断理由]\n\n",
    );
    let criteria = criteria_paragraph(current_task.is_some());
    prompt.append(criteria.as_str());
    proof {
        assert(prompt@ =~= analysis_prompt_sp(
            match current_task {
                Some(t) => Some(t@),
                None => None,
            },
            views_of(config.whitelist@),
            views_of(config.blacklist@),
            opt_view(*app_name),
            opt_view(*window_title),
            opt_view(*ocr_text),
        ));
    }
    prompt
}

/// What the reply text is after the fallback substitution.
pub open spec fn reply_text_of(outcome: Result<String, String>) -> Seq<char> {
    match outcome {
        Ok(t) => t@,
        Err(_) => fallback_reply_text(),
    }
}

/// One whole classification of a sample: the backend's outcome (already
/// obtained by the caller) degrades to the fallback reply on failure, the
/// reply is parsed by the priority order, and everything is assembled into
/// an immutable result stamped `now`.
pub fn analyze_focus_with_ai(
    app_name: &Option<String>,
    window_title: &Option<String>,
    ocr_text: &Option<String>,
    backend_outcome: Result<String, String>,
    now: u64,
) -> (r: MonitoringResult)
    ensures
        r.timestamp == now,
        r.application_name == *app_name,
        r.window_title == *window_title,
        r.ocr_text == *ocr_text,
        r.ai_analysis matches Some(raw) && raw@ == reply_text_of(backend_outcome),
        (r.focus_state, r.confidence) == classify_reply(lower_of(reply_text_of(backend_outcome))),
        r.wf(),
{
    let reply = reply_or_fallback(backend_outcome);
    let (focus_state, confidence) = parse_ai_response(reply.as_str());
    MonitoringResult {
        timestamp: now,
        focus_state,
        application_name: crate::text::clone_opt_string(app_name),
        window_title: crate::text::clone_opt_string(window_title),
        ocr_text: crate::text::clone_opt_string(ocr_text),
        ai_analysis: Some(reply),
        confidence,
    }
}

/// Which configured model a role selects: "detection" and "report" are the
/// only roles; anything else is rejected.
pub fn model_for_role<'a>(config: &'a AIConfig, role: &str) -> (r: Result<&'a String, String>)
    ensures
        role@ == "detection"@ ==> (r matches Ok(m) && m == &config.detection_model),
        role@ != "detection"@ && role@ == "report"@ ==> (r matches Ok(m) && m
            == &config.report_model),
        role@ != "detection"@ && role@ != "report"@ ==> (r matches Err(e) && e@
            == "不支持的模型类型"@),
{
    if crate::text::str_eq(role, "detection") {
        Ok(&config.detection_model)
    } else if crate::text::str_eq(role, "report") {
        Ok(&config.report_model)
    } else {
        Err(String::from_str("不支持的模型类型"))
    }
}

} // verus!

