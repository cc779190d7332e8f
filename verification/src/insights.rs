//! Summaries computed over already-classified records: a productivity
//! percentage over activity spans, the daily summary line, completion-rate
//! feedback, and break suggestions. The backend that would phrase nicer
//! prose lives outside; these are the deterministic fallbacks.

use vstd::prelude::*;
use vstd::string::*;
use crate::model::ApplicationActivity;
use crate::text::{push_dec, u64_dec};
use crate::timer::{FocusSession, SessionStatus};

verus! {

/// Seconds spent in spans marked productive.
pub open spec fn productive_secs(s: Seq<ApplicationActivity>) -> nat
    decreases s.len(),
{
    if s.len() == 0 {
        0nat
    } else {
        productive_secs(s.drop_last()) + (if s.last().is_productive == Some(true) {
            s.last().duration_seconds as nat
        } else {
            0nat
        })
    }
}

/// Seconds spent in all spans.
pub open spec fn total_secs(s: Seq<ApplicationActivity>) -> nat
    decreases s.len(),
{
    if s.len() == 0 {
        0nat
    } else {
        total_secs(s.drop_last()) + s.last().duration_seconds as nat
    }
}

/// The share of recorded time spent productively, as a whole percentage;
/// zero when nothing was recorded.
pub fn analyze_productivity(activities: &Vec<ApplicationActivity>) -> (r: u32)
    ensures
        r == if total_secs(activities@) == 0 {
            0int
        } else {
            ((productive_secs(activities@) * 100) as int) / (total_secs(activities@) as int)
        },
        r <= 100,
{
    let ghost acts = activities@;
    let n = activities.len();
    let mut productive: u128 = 0;
    let mut total: u128 = 0;
    let mut i: usize = 0;
    while i < n
        invariant
            i <= n,
            n == acts.len(),
            activities@ == acts,
            productive == productive_secs(acts.subrange(0, i as int)),
            total == total_secs(acts.subrange(0, i as int)),
            productive <= total,
            total <= (i as int) * 0xffff_ffff,
        decreases n - i,
    {
        proof {
            assert(acts.subrange(0, i + 1).drop_last() =~= acts.subrange(0, i as int));
            assert(acts.subrange(0, i + 1).last() == acts[i as int]);
            assert((i as int) * 0xffff_ffff + 0xffff_ffff == (i as int + 1) * 0xffff_ffff)
                by (nonlinear_arith);
            assert((i as int + 1) * 0xffff_ffff <= 0xffff_ffff_ffff_ffff_ffffu128 * 0xffff_ffff)
                by (nonlinear_arith)
                requires
                    i as int + 1 <= 0xffff_ffff_ffff_ffff_ffffu128,
            ;
        }
        let d = activities[i].duration_seconds;
        let counted = match activities[i].is_productive {
            Some(p) => p,
            None => false,
        };
        if counted {
            productive = productive + (d as u128);
        }
        total = total + (d as u128);
        i = i + 1;
    }
    proof {
        assert(acts.subrange(0, n as int) =~= acts);
    }
    if total == 0 {
        0
    } else {
        proof {
            assert(((productive as int) * 100) / (total as int) <= 100) by (nonlinear_arith)
                requires
                    total > 0,
                    productive <= total,
            ;
            assert((productive as int) * 100 <= (total as int) * 100) by (nonlinear_arith)
                requires
                    productive <= total,
            ;
        }
        let percent: u128 = productive * 100 / total;
        percent as u32
    }
}

/// How many of the sessions were completed.
pub open spec fn completed_count(s: Seq<FocusSession>) -> nat
    decreases s.len(),
{
    if s.len() == 0 {
        0nat
    } else {
        completed_count(s.drop_last()) + (if s.last().status is Completed {
            1nat
        } else {
            0nat
        })
    }
}

/// Planned minutes of the completed sessions.
pub open spec fn completed_minutes(s: Seq<FocusSession>) -> nat
    decreases s.len(),
{
    if s.len() == 0 {
        0nat
    } else {
        completed_minutes(s.drop_last()) + (if s.last().status is Completed {
            s.last().duration_minutes as nat
        } else {
            0nat
        })
    }
}

/// The daily summary's exact wording.
pub open spec fn daily_summary_sp(sessions: Seq<FocusSession>, model: Seq<char>) -> Seq<char> {
    "今日总结（使用模型: "@ + model + "）：您完成了 "@ + u64_dec(completed_count(sessions)) + " 个专注会话，总专注时间 "@
        + u64_dec(completed_minutes(sessions)) + " 分钟。继续保持专注，明天会更好！"@
}

/// Writes the one-line daily summary: completed sessions and their total
/// planned minutes, naming the reporting model used.
pub fn generate_daily_summary(sessions: &Vec<FocusSession>, report_model: &str) -> (r: String)
    requires
        sessions@.len() <= 0xffff_ffff,
    ensures
        r@ == daily_summary_sp(sessions@, report_model@),
{
    let ghost ss = sessions@;
    let n = sessions.len();
    let mut count: u64 = 0;
    let mut minutes: u64 = 0;
    let mut i: usize = 0;
    while i < n
        invariant
            i <= n,
            n == ss.len(),
            n <= 0xffff_ffff,
            sessions@ == ss,
            count == completed_count(ss.subrange(0, i as int)),
            minutes == completed_minutes(ss.subrange(0, i as int)),
            count <= i,
            minutes <= (i as int) * 0xffff_ffff,
        decreases n - i,
    {
        proof {
            assert(ss.subrange(0, i + 1).drop_last() =~= ss.subrange(0, i as int));
            assert(ss.subrange(0, i + 1).last() == ss[i as int]);
            assert((i as int) * 0xffff_ffff + 0xffff_ffff == (i as int + 1) * 0xffff_ffff)
                by (nonlinear_arith);
            assert((i as int + 1) * 0xffff_ffff <= 0xffff_ffffu64 * 0xffff_ffffu64)
                by (nonlinear_arith)
                requires
                    i as int + 1 <= 0xffff_ffffu64,
            ;
        }
        let completed = match sessions[i].status {
            SessionStatus::Completed => true,
            _ => false,
        };
        if completed {
            count = count + 1;
            minutes = minutes + (sessions[i].duration_minutes as u64);
        }
        i = i + 1;
    }
    proof {
        assert(ss.subrange(0, n as int) =~= ss);
    }
    let mut out = String::from_str("今日总结（使用模型: ");
    out.append(report_model);
    out.append("）：您完成了 ");
    push_dec(&mut out, count);
    out.append(" 个专注会话，总专注时间 ");
    push_dec(&mut out, minutes);
    out.append(" 分钟。继续保持专注，明天会更好！");
    proof {
        assert(out@ =~= daily_summary_sp(ss, report_model@));
    }
    out
}

/// The completion-rate feedback lines, the rate in tenths of a percent.
pub open spec fn focus_patterns_sp(sessions: Seq<FocusSession>, model: Seq<char>) -> Seq<
    Seq<char>,
> {
    if sessions.len() == 0 {
        seq!["暂无足够的数据进行分析"@]
    } else {
        let permille = completed_count(sessions) * 1000 / sessions.len();
        let rate_line = "您的专注会话完成率为 "@ + u64_dec(permille / 10) + "."@ + u64_dec(permille % 10)
            + "%（使用模型: "@ + model + "）"@;
        let advice = if permille > 800 {
            "保持良好的专注习惯！"@
        } else if permille > 600 {
            "可以尝试适当调整专注时长"@
        } else {
            "建议从较短的专注时间开始"@
        };
        seq![rate_line, advice]
    }
}

/// States the session completion rate (to a tenth of a percent) and one
/// piece of advice tiered on it.
pub fn analyze_focus_patterns(sessions: &Vec<FocusSession>, detection_model: &str) -> (r: Vec<
    String,
>)
    ensures
        r@.map_values(|s: String| s@) == focus_patterns_sp(sessions@, detection_model@),
{
    let ghost ss = sessions@;
    let n = sessions.len();
    if n == 0 {
        let mut out: Vec<String> = Vec::new();
        out.push(String::from_str("暂无足够的数据进行分析"));
        proof {
            assert(out@.map_values(|s: String| s@) =~= focus_patterns_sp(ss, detection_model@));
        }
        return out;
    }
    let mut count: u64 = 0;
    let mut i: usize = 0;
    while i < n
        invariant
            i <= n,
            n == ss.len(),
            sessions@ == ss,
            count == completed_count(ss.subrange(0, i as int)),
            count <= i,
        decreases n - i,
    {
        proof {
            assert(ss.subrange(0, i + 1).drop_last() =~= ss.subrange(0, i as int));
            assert(ss.subrange(0, i + 1).last() == ss[i as int]);
        }
        let completed = match sessions[i].status {
            SessionStatus::Completed => true,
            _ => false,
        };
        if completed {
            count = count + 1;
        }
        i = i + 1;
    }
    proof {
        assert(ss.subrange(0, n as int) =~= ss);
    }
    let permille: u128 = (count as u128) * 1000 / (n as u128);
    proof {
        assert(((count as int) * 1000) / (n as int) <= 1000) by (nonlinear_arith)
            requires
                n > 0,
                count as int <= n as int,
        ;
    }
    let permille64: u64 = permille as u64;
    let mut rate_line = String::from_str("您的专注会话完成率为 ");
    push_dec(&mut rate_line, permille64 / 10);
    rate_line.append(".");
    push_dec(&mut rate_line, permille64 % 10);
    rate_line.append("%（使用模型: ");
    rate_line.append(detection_model);
    rate_line.append("）");
    let advice = if permille64 > 800 {
        String::from_str("保持良好的专注习惯！")
    } else if permille64 > 600 {
        String::from_str("可以尝试适当调整专注时长")
    } else {
        String::from_str("建议从较短的专注时间开始")
    };
    let mut out: Vec<String> = Vec::new();
    out.push(rate_line);
    out.push(advice);
    proof {
        assert(out@.map_values(|s: String| s@) =~= focus_patterns_sp(ss, detection_model@));
    }
    out
}

/// The fixed break suggestions, in order.
pub open spec fn break_activities_sp() -> Seq<Seq<char>> {
    seq![
        "站起来走动5分钟"@,
        "做几个深呼吸练习"@,
        "眺望远方放松眼睛"@,
        "喝一杯水"@,
        "做简单的颈部和肩部拉伸"@,
    ]
}

/// Suggests what to do in a break.
pub fn suggest_break_activities() -> (r: Vec<String>)
    ensures
        r@.map_values(|s: String| s@) == break_activities_sp(),
        r@.len() == 5,
{
    let mut out: Vec<String> = Vec::new();
    out.push(String::from_str("站起来走动5分钟"));
    out.push(String::from_str("做几个深呼吸练习"));
    out.push(String::from_str("眺望远方放松眼睛"));
    out.push(String::from_str("喝一杯水"));
    out.push(String::from_str("做简单的颈部和肩部拉伸"));
    proof {
        assert(out@.map_values(|s: String| s@) =~= break_activities_sp());
    }
    out
}

} // verus!
