use my_focus::capture::{
    compress_screenshot, decide_capture, resolve_extracted_text, smart_image_analysis,
    CaptureError, ScreenFrame, TickCaptureAction,
};
use my_focus::codec::{decode_result, encode_result};
use my_focus::insights::{
    analyze_focus_patterns, analyze_productivity, generate_daily_summary, suggest_break_activities,
};
use my_focus::model::{ApplicationActivity, ActivityType, FocusState, MonitoringResult, NewTask, make_task};
use my_focus::store::{
    current_task_name, generate_storage_recommendations, StorageService,
};
use my_focus::text::clean_ocr_text;
use my_focus::timer::{FocusSession, SessionStatus, SessionType, TimerService};

fn full_record() -> MonitoringResult {
    MonitoringResult {
        timestamp: 1_700_000_123,
        focus_state: FocusState::Distracted,
        application_name: Some("Game.exe".to_string()),
        window_title: Some("关卡 3 | 进度 42%".to_string()),
        ocr_text: Some("line one\nline 2 | with bars\n数字123".to_string()),
        ai_analysis: Some("状态: 分心\n分析: 在玩游戏。".to_string()),
        confidence: 75,
    }
}

#[test]
fn codec_round_trips_a_full_record() {
    let record = full_record();
    let line = encode_result(&record);
    let back = decode_result(line.as_str()).expect("a written record must read back");
    assert_eq!(back, record);
}

#[test]
fn codec_round_trips_the_unknown_default() {
    // The empty cycle: Unknown at confidence 0.50, nothing probed.
    let record = MonitoringResult {
        timestamp: 0,
        focus_state: FocusState::Unknown,
        application_name: None,
        window_title: None,
        ocr_text: None,
        ai_analysis: None,
        confidence: 50,
    };
    let line = encode_result(&record);
    assert_eq!(line, "0|U|50|NNNN");
    let back = decode_result(line.as_str()).unwrap();
    assert_eq!(back, record);
}

#[test]
fn decoder_rejects_malformed_lines() {
    assert!(decode_result("").is_none());
    assert!(decode_result("12|X|50|NNNN").is_none());
    assert!(decode_result("12|F|101|NNNN").is_none());
    assert!(decode_result("12|F|50|NNN").is_none());
    assert!(decode_result("12|F|50|NNNN junk").is_none());
    assert!(decode_result("|F|50|NNNN").is_none());
    assert!(decode_result("12|F|50|S3|abNNN").is_none());
}

#[test]
fn updating_an_unknown_task_changes_nothing() {
    let mut store = StorageService::new();
    store.save_task(make_task(NewTask { text: "读论文".to_string() }, "id-1".to_string(), 100));
    store.update_task_status("missing", true, 200);
    assert!(!store.tasks[0].completed);
    assert_eq!(store.tasks[0].updated_at, 100);
}

#[test]
fn codec_round_trips_full_confidence() {
    let record = MonitoringResult {
        timestamp: u64::MAX,
        focus_state: FocusState::Focused,
        application_name: Some(String::new()),
        window_title: None,
        ocr_text: Some("S5|abcde".to_string()),
        ai_analysis: None,
        confidence: 100,
    };
    let line = encode_result(&record);
    assert_eq!(decode_result(line.as_str()).unwrap(), record);
}

#[test]
fn store_upserts_tasks_by_id_last_write_wins() {
    let mut store = StorageService::new();
    let first = make_task(NewTask { text: "读论文".to_string() }, "id-1".to_string(), 100);
    assert!(!first.completed);
    assert_eq!(first.created_at, 100);
    store.save_task(first);
    store.save_task(make_task(NewTask { text: "写代码".to_string() }, "id-2".to_string(), 110));
    // Same id again: replaced in place, not duplicated.
    store.save_task(make_task(NewTask { text: "读两篇论文".to_string() }, "id-1".to_string(), 120));
    assert_eq!(store.tasks.len(), 2);
    assert_eq!(store.tasks[0].text, "读两篇论文");

    store.update_task_status("id-1", true, 130);
    assert!(store.tasks[0].completed);
    assert_eq!(store.tasks[0].updated_at, 130);
    // The current task is the first unfinished one.
    assert_eq!(current_task_name(&store.tasks).as_deref(), Some("写代码"));

    store.delete_task("id-2");
    assert_eq!(store.tasks.len(), 1);
    assert_eq!(current_task_name(&store.tasks), None);
}

fn record_at(timestamp: u64, state: FocusState) -> MonitoringResult {
    MonitoringResult {
        timestamp,
        focus_state: state,
        application_name: None,
        window_title: None,
        ocr_text: None,
        ai_analysis: None,
        confidence: 50,
    }
}

#[test]
fn saving_results_enforces_the_retention_window() {
    let mut store = StorageService::new();
    store.save_monitoring_result(record_at(1_000, FocusState::Focused), 0);
    store.save_monitoring_result(record_at(2_000, FocusState::Distracted), 0);
    // The next save moves the cutoff past the first record.
    store.save_monitoring_result(record_at(3_000, FocusState::Focused), 1_500);
    assert_eq!(store.monitoring_results.len(), 2);
    assert_eq!(store.monitoring_results[0].timestamp, 2_000);

    let removed = store.cleanup_old_monitoring_results(2_500);
    assert_eq!(removed, 1);
    assert_eq!(store.monitoring_results.len(), 1);
}

#[test]
fn today_stats_total_one_sampling_span_per_record() {
    let mut store = StorageService::new();
    let day = (86_400, 172_800);
    store.save_monitoring_result(record_at(90_000, FocusState::Focused), 0);
    store.save_monitoring_result(record_at(91_000, FocusState::Focused), 0);
    store.save_monitoring_result(record_at(92_000, FocusState::Distracted), 0);
    store.save_monitoring_result(record_at(93_000, FocusState::Unknown), 0);
    // Outside the day: ignored.
    store.save_monitoring_result(record_at(10, FocusState::SeverelyDistracted), 0);
    let stats = store.get_today_monitoring_stats(day.0, day.1);
    assert_eq!(stats.total_focus_time, 2 * 180);
    assert_eq!(stats.total_distract_time, 180);
    assert_eq!(stats.interruption_count, 1);
    // 360 of 540 classified seconds: 66%.
    assert_eq!(stats.focus_score, 66);
}

#[test]
fn sessions_are_upserted_and_cleaned_by_age() {
    let mut store = StorageService::new();
    let mut timer = TimerService::new();
    timer.start_session(SessionType::Focus, 25, 0, 5_000).unwrap();
    let done = timer.stop_session(300, 5_300).unwrap();
    let id = done.id.clone();
    store.save_focus_session(done);
    assert_eq!(store.focus_sessions.len(), 1);
    // Saving the same session again replaces it.
    let kept = &store.focus_sessions[0];
    let replacement = FocusSession {
        id: kept.id.clone(),
        session_type: kept.session_type,
        status: kept.status,
        duration_minutes: kept.duration_minutes,
        elapsed_seconds: kept.elapsed_seconds,
        task_id: kept.task_id.clone(),
        started_at: kept.started_at,
        paused_at: kept.paused_at,
        completed_at: kept.completed_at,
        interruptions: kept.interruptions,
        notes: Some("补记".to_string()),
    };
    store.save_focus_session(replacement);
    assert_eq!(store.focus_sessions.len(), 1);
    assert_eq!(store.focus_sessions[0].notes.as_deref(), Some("补记"));
    assert_eq!(store.focus_sessions[0].id, id);

    let removed = store.cleanup_old_focus_sessions(6_000);
    assert_eq!(removed, 1);
    assert!(store.focus_sessions.is_empty());
}

#[test]
fn storage_recommendations_follow_the_thresholds() {
    assert_eq!(generate_storage_recommendations(1_000, 10), vec!["存储使用正常".to_string()]);
    assert_eq!(
        generate_storage_recommendations(60 * 1024 * 1024, 20_000),
        vec![
            "数据量较大，建议定期清理旧数据".to_string(),
            "监控记录过多，建议调整监控频率或清理周期".to_string(),
            "建议执行存储优化以减少空间占用".to_string(),
        ]
    );
    assert_eq!(
        generate_storage_recommendations(21 * 1024 * 1024, 10),
        vec!["建议执行存储优化以减少空间占用".to_string()]
    );
}

fn span(seconds: u32, productive: Option<bool>) -> ApplicationActivity {
    ApplicationActivity {
        id: "a".to_string(),
        activity_type: ActivityType::ApplicationFocus,
        application_name: "App".to_string(),
        window_title: None,
        process_id: None,
        started_at: 0,
        ended_at: None,
        duration_seconds: seconds,
        focus_session_id: None,
        is_productive: productive,
    }
}

#[test]
fn productivity_is_the_productive_share_of_recorded_time() {
    assert_eq!(analyze_productivity(&vec![]), 0);
    let activities = vec![span(30, Some(true)), span(20, Some(false)), span(10, None)];
    // 30 productive of 60 recorded.
    assert_eq!(analyze_productivity(&activities), 50);
}

fn finished_session(status: SessionStatus, minutes: u32) -> FocusSession {
    FocusSession {
        id: "s".to_string(),
        session_type: SessionType::Focus,
        status,
        duration_minutes: minutes,
        elapsed_seconds: minutes * 60,
        task_id: None,
        started_at: Some(0),
        paused_at: None,
        completed_at: Some(1),
        interruptions: 0,
        notes: None,
    }
}

#[test]
fn daily_summary_counts_completed_sessions() {
    let sessions = vec![
        finished_session(SessionStatus::Completed, 25),
        finished_session(SessionStatus::Cancelled, 25),
        finished_session(SessionStatus::Completed, 15),
    ];
    let summary = generate_daily_summary(&sessions, "gpt-4-turbo-preview");
    assert_eq!(
        summary,
        "今日总结（使用模型: gpt-4-turbo-preview）：您完成了 2 个专注会话，总专注时间 40 分钟。继续保持专注，明天会更好！"
    );
}

#[test]
fn focus_patterns_state_the_completion_rate() {
    assert_eq!(analyze_focus_patterns(&vec![], "m"), vec!["暂无足够的数据进行分析".to_string()]);
    let sessions = vec![
        finished_session(SessionStatus::Completed, 25),
        finished_session(SessionStatus::Completed, 25),
        finished_session(SessionStatus::Cancelled, 25),
    ];
    // 2 of 3: 666 permille, printed as 66.6%.
    let lines = analyze_focus_patterns(&sessions, "gpt-3.5-turbo");
    assert_eq!(lines[0], "您的专注会话完成率为 66.6%（使用模型: gpt-3.5-turbo）");
    assert_eq!(lines[1], "可以尝试适当调整专注时长");

    let all_done = vec![finished_session(SessionStatus::Completed, 25)];
    let lines = analyze_focus_patterns(&all_done, "m");
    assert_eq!(lines[0], "您的专注会话完成率为 100.0%（使用模型: m）");
    assert_eq!(lines[1], "保持良好的专注习惯！");
}

#[test]
fn break_suggestions_are_the_fixed_five() {
    let list = suggest_break_activities();
    assert_eq!(list.len(), 5);
    assert_eq!(list[0], "站起来走动5分钟");
    assert_eq!(list[4], "做简单的颈部和肩部拉伸");
}

#[test]
fn ocr_cleanup_trims_lines_and_drops_blank_ones() {
    assert_eq!(clean_ocr_text("  hello \r\n\n\t \n世界  "), "hello\n世界");
    assert_eq!(clean_ocr_text("   \n\t\n"), "");
    assert_eq!(clean_ocr_text("one"), "one");
}

#[test]
fn extraction_falls_back_tier_by_tier() {
    // The combined-language attempt wins when it has text.
    let text = resolve_extracted_text(Some("  合并识别 \n".to_string()), Some("english".to_string()), 0);
    assert_eq!(text, "合并识别");
    // A blank first attempt falls through to the retry.
    let text = resolve_extracted_text(Some(" \n \n".to_string()), Some(" english ".to_string()), 0);
    assert_eq!(text, "english");
    // With both attempts empty the heuristic answers, by payload size.
    let text = resolve_extracted_text(None, None, 200 * 1024);
    assert_eq!(text, smart_image_analysis(200 * 1024));
    assert_eq!(text, "标准分辨率屏幕内容，包含基本界面元素，可能正在使用桌面应用");
    assert_eq!(
        smart_image_analysis(1_100 * 1024),
        "高分辨率屏幕内容，可能包含大量文本信息，建议检查是否在进行文档编辑或网页浏览"
    );
    assert_eq!(smart_image_analysis(10), "低分辨率或压缩度高的屏幕内容，文本信息有限");
}

#[test]
fn screenshots_compress_to_real_jpeg_payloads() {
    let frame = ScreenFrame { width: 2, height: 2, rgba: vec![255u8; 16] };
    let payload = compress_screenshot(&frame).expect("a well-formed frame must encode");
    // A real JPEG stream, not the raw pixels handed back.
    assert!(payload.len() > 4);
    assert_eq!(&payload[0..2], &[0xFF, 0xD8]);
    assert_ne!(payload, frame.rgba);

    let bad = ScreenFrame { width: 2, height: 2, rgba: vec![0u8; 15] };
    assert_eq!(compress_screenshot(&bad), Err(CaptureError::BadDimensions));
}

#[test]
fn frames_beyond_the_jpeg_bound_are_refused_by_the_codec() {
    // Well-formed, but 70000 exceeds what the format can carry.
    let frame = ScreenFrame { width: 70_000, height: 1, rgba: vec![0u8; 280_000] };
    assert_eq!(compress_screenshot(&frame), Err(CaptureError::EncodingFailed));
}

#[test]
fn capture_failures_abandon_the_tick_and_good_frames_go_on() {
    match decide_capture(Err(CaptureError::NoDisplay)) {
        TickCaptureAction::AbandonCycle(CaptureError::NoDisplay) => {}
        other => panic!("a failed capture must abandon the tick, got {:?}", other),
    }
    let bad = ScreenFrame { width: 2, height: 2, rgba: vec![0u8; 15] };
    match decide_capture(Ok(bad)) {
        TickCaptureAction::AbandonCycle(CaptureError::BadDimensions) => {}
        other => panic!("a malformed frame must abandon the tick, got {:?}", other),
    }
    let good = ScreenFrame { width: 2, height: 2, rgba: vec![255u8; 16] };
    match decide_capture(Ok(good)) {
        TickCaptureAction::ExtractText(payload) => assert_eq!(&payload[0..2], &[0xFF, 0xD8]),
        other => panic!("a good frame must go on to extraction, got {:?}", other),
    }
}
