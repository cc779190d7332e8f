//! In-memory model of the record store: tasks, monitoring results and
//! finished sessions, with last-write-wins upserts keyed by caller-supplied
//! ids and age-based cleanup. Reading and writing the files themselves is
//! the shell's business; it keeps one of these in step with the disk.

use vstd::prelude::*;
use vstd::string::*;
use crate::model::{FocusState, MonitoringResult, Task, TodayStats};
use crate::text::str_eq;
use crate::timer::FocusSession;

verus! {

/// Seconds one monitoring record is taken to stand for when the day is
/// totalled (the default three-minute sampling interval).
pub const SAMPLE_SPAN_SECONDS: u32 = 180;

/// The most records one day's totals can hold without overflowing.
pub const MAX_COUNTED_RECORDS: usize = 23_000_000;

/// The first position at or after `i` whose task carries `id`, or the
/// length when none does.
pub open spec fn first_task_with_id(tasks: Seq<Task>, id: Seq<char>, i: int) -> int
    decreases tasks.len() - i,
{
    if i < 0 || i >= tasks.len() {
        tasks.len() as int
    } else if tasks[i].id@ == id {
        i
    } else {
        first_task_with_id(tasks, id, i + 1)
    }
}

/// The first position at or after `i` whose session carries `id`.
pub open spec fn first_session_with_id(sessions: Seq<FocusSession>, id: Seq<char>, i: int) -> int
    decreases sessions.len() - i,
{
    if i < 0 || i >= sessions.len() {
        sessions.len() as int
    } else if sessions[i].id@ == id {
        i
    } else {
        first_session_with_id(sessions, id, i + 1)
    }
}

/// Records young enough to keep.
pub open spec fn kept_after(cutoff: u64) -> spec_fn(MonitoringResult) -> bool {
    |r: MonitoringResult| r.timestamp > cutoff
}

/// Sessions young enough to keep: they must have started, after `cutoff`.
pub open spec fn session_kept_after(cutoff: u64) -> spec_fn(FocusSession) -> bool {
    |s: FocusSession| s.started_at matches Some(t) && t > cutoff
}

/// Tasks other than the named one.
pub open spec fn task_not_named(id: Seq<char>) -> spec_fn(Task) -> bool {
    |t: Task| t.id@ != id
}

/// How many records within `[lo, hi)` classified as `f`.
pub open spec fn count_in_window(
    rs: Seq<MonitoringResult>,
    lo: u64,
    hi: u64,
    f: FocusState,
) -> nat
    decreases rs.len(),
{
    if rs.len() == 0 {
        0nat
    } else {
        count_in_window(rs.drop_last(), lo, hi, f) + (if rs.last().timestamp >= lo
            && rs.last().timestamp < hi && rs.last().focus_state == f {
            1nat
        } else {
            0nat
        })
    }
}

/// The in-memory record store.
pub struct StorageService {
    pub monitoring_results: Vec<MonitoringResult>,
    pub focus_sessions: Vec<FocusSession>,
    pub tasks: Vec<Task>,
}

impl StorageService {
    pub fn new() -> (s: StorageService)
        ensures
            s.monitoring_results@.len() == 0,
            s.focus_sessions@.len() == 0,
            s.tasks@.len() == 0,
    {
        StorageService {
            monitoring_results: Vec::new(),
            focus_sessions: Vec::new(),
            tasks: Vec::new(),
        }
    }

    /// Saves a task, last write winning: the first task with the same id is
    /// replaced; a new id is appended.
    pub fn save_task(&mut self, task: Task)
        ensures
            ({
                let k = first_task_with_id(old(self).tasks@, task.id@, 0);
                &&& k < old(self).tasks@.len() ==> final(self).tasks@ == old(self).tasks@.update(
                    k,
                    task,
                )
                &&& k == old(self).tasks@.len() ==> final(self).tasks@ == old(self).tasks@.push(
                    task,
                )
            }),
            final(self).monitoring_results == old(self).monitoring_results,
            final(self).focus_sessions == old(self).focus_sessions,
    {
        let ghost tasks0 = self.tasks@;
        let n = self.tasks.len();
        let mut i: usize = 0;
        while i < n
            invariant
                i <= n,
                n == tasks0.len(),
                tasks0 == old(self).tasks@,
                self.tasks@ == tasks0,
                first_task_with_id(tasks0, task.id@, 0) == first_task_with_id(
                    tasks0,
                    task.id@,
                    i as int,
                ),
                forall|j: int| 0 <= j < i ==> (#[trigger] tasks0[j].id)@ != task.id@,
                self.monitoring_results == old(self).monitoring_results,
                self.focus_sessions == old(self).focus_sessions,
            decreases n - i,
        {
            if str_eq(self.tasks[i].id.as_str(), task.id.as_str()) {
                assert(first_task_with_id(tasks0, task.id@, i as int) == i as int);
                self.tasks.set(i, task);
                return ;
            }
            i = i + 1;
        }
        self.tasks.push(task);
    }

    /// Removes every task with the given id.
    pub fn delete_task(&mut self, task_id: &str)
        ensures
            final(self).tasks@ == old(self).tasks@.filter(task_not_named(task_id@)),
            final(self).monitoring_results == old(self).monitoring_results,
            final(self).focus_sessions == old(self).focus_sessions,
    {
        let ghost tasks0 = self.tasks@;
        let ghost pred = task_not_named(task_id@);
        let n = self.tasks.len();
        let mut kept: Vec<Task> = Vec::new();
        let mut i: usize = 0;
        while i < n
            invariant
                i <= n,
                n == tasks0.len(),
                self.tasks@ == tasks0,
                pred == task_not_named(task_id@),
                kept@ == tasks0.subrange(0, i as int).filter(pred),
                self.monitoring_results == old(self).monitoring_results,
                self.focus_sessions == old(self).focus_sessions,
            decreases n - i,
        {
            let keep = !str_eq(self.tasks[i].id.as_str(), task_id);
            proof {
                reveal(Seq::filter);
                assert(tasks0.subrange(0, i + 1).drop_last() =~= tasks0.subrange(0, i as int));
                assert(tasks0.subrange(0, i + 1).last() == tasks0[i as int]);
            }
            if keep {
                let t = clone_task(&self.tasks[i]);
                kept.push(t);
            }
            i = i + 1;
        }
        proof {
            assert(tasks0.subrange(0, n as int) =~= tasks0);
        }
        self.tasks = kept;
    }

    /// Marks the first task with the given id (un)completed, touching its
    /// update time; a no-op when the id is unknown.
    pub fn update_task_status(&mut self, task_id: &str, completed: bool, now: u64)
        ensures
            ({
                let k = first_task_with_id(old(self).tasks@, task_id@, 0);
                &&& k < old(self).tasks@.len() ==> final(self).tasks@ == old(self).tasks@.update(
                    k,
                    (Task {
                        completed,
                        updated_at: now,
                        ..old(self).tasks@[k]
                    }),
                )
                &&& k == old(self).tasks@.len() ==> final(self).tasks@ == old(self).tasks@
            }),
            final(self).monitoring_results == old(self).monitoring_results,
            final(self).focus_sessions == old(self).focus_sessions,
    {
        let ghost tasks0 = self.tasks@;
        let n = self.tasks.len();
        let mut i: usize = 0;
        while i < n
            invariant
                i <= n,
                n == tasks0.len(),
                tasks0 == old(self).tasks@,
                self.tasks@ == tasks0,
                first_task_with_id(tasks0, task_id@, 0) == first_task_with_id(
                    tasks0,
                    task_id@,
                    i as int,
                ),
                forall|j: int| 0 <= j < i ==> (#[trigger] tasks0[j].id)@ != task_id@,
                self.monitoring_results == old(self).monitoring_results,
                self.focus_sessions == old(self).focus_sessions,
            decreases n - i,
        {
            if str_eq(self.tasks[i].id.as_str(), task_id) {
                assert(first_task_with_id(tasks0, task_id@, i as int) == i as int);
                let old_task = clone_task(&self.tasks[i]);
                let updated = Task { completed, updated_at: now, ..old_task };
                self.tasks.set(i, updated);
                return ;
            }
            i = i + 1;
        }
    }

    /// Appends one monitoring result, then drops everything at or before
    /// `cutoff` (the retention window's lower edge).
    pub fn save_monitoring_result(&mut self, result: MonitoringResult, cutoff: u64)
        ensures
            final(self).monitoring_results@ == old(self).monitoring_results@.push(result).filter(
                kept_after(cutoff),
            ),
            final(self).tasks == old(self).tasks,
            final(self).focus_sessions == old(self).focus_sessions,
    {
        self.monitoring_results.push(result);
        let _removed = self.retain_recent_results(cutoff);
    }

    /// Drops every result at or before `cutoff`; returns how many went.
    pub fn cleanup_old_monitoring_results(&mut self, cutoff: u64) -> (removed: usize)
        ensures
            final(self).monitoring_results@ == old(self).monitoring_results@.filter(
                kept_after(cutoff),
            ),
            removed == old(self).monitoring_results@.len()
                - final(self).monitoring_results@.len(),
            final(self).tasks == old(self).tasks,
            final(self).focus_sessions == old(self).focus_sessions,
    {
        self.retain_recent_results(cutoff)
    }

    fn retain_recent_results(&mut self, cutoff: u64) -> (removed: usize)
        ensures
            final(self).monitoring_results@ == old(self).monitoring_results@.filter(
                kept_after(cutoff),
            ),
            removed == old(self).monitoring_results@.len()
                - final(self).monitoring_results@.len(),
            final(self).tasks == old(self).tasks,
            final(self).focus_sessions == old(self).focus_sessions,
    {
        let ghost rs0 = self.monitoring_results@;
        let ghost pred = kept_after(cutoff);
        let n = self.monitoring_results.len();
        let mut kept: Vec<MonitoringResult> = Vec::new();
        let mut i: usize = 0;
        while i < n
            invariant
                i <= n,
                n == rs0.len(),
                self.monitoring_results@ == rs0,
                pred == kept_after(cutoff),
                kept@ == rs0.subrange(0, i as int).filter(pred),
                kept@.len() <= i,
                self.tasks == old(self).tasks,
                self.focus_sessions == old(self).focus_sessions,
            decreases n - i,
        {
            proof {
                reveal(Seq::filter);
                assert(rs0.subrange(0, i + 1).drop_last() =~= rs0.subrange(0, i as int));
                assert(rs0.subrange(0, i + 1).last() == rs0[i as int]);
            }
            if self.monitoring_results[i].timestamp > cutoff {
                let r = self.monitoring_results[i].clone();
                kept.push(r);
            }
            i = i + 1;
        }
        proof {
            assert(rs0.subrange(0, n as int) =~= rs0);
        }
        let remaining = kept.len();
        self.monitoring_results = kept;
        n - remaining
    }

    /// Saves a finished session, last write winning by id.
    pub fn save_focus_session(&mut self, session: FocusSession)
        ensures
            ({
                let k = first_session_with_id(old(self).focus_sessions@, session.id@, 0);
                &&& k < old(self).focus_sessions@.len() ==> final(self).focus_sessions@ == old(
                    self,
                ).focus_sessions@.update(k, session)
                &&& k == old(self).focus_sessions@.len() ==> final(self).focus_sessions@ == old(
                    self,
                ).focus_sessions@.push(session)
            }),
            final(self).monitoring_results == old(self).monitoring_results,
            final(self).tasks == old(self).tasks,
    {
        let ghost ss0 = self.focus_sessions@;
        let n = self.focus_sessions.len();
        let mut i: usize = 0;
        while i < n
            invariant
                i <= n,
                n == ss0.len(),
                ss0 == old(self).focus_sessions@,
                self.focus_sessions@ == ss0,
                first_session_with_id(ss0, session.id@, 0) == first_session_with_id(
                    ss0,
                    session.id@,
                    i as int,
                ),
                forall|j: int| 0 <= j < i ==> (#[trigger] ss0[j].id)@ != session.id@,
                self.monitoring_results == old(self).monitoring_results,
                self.tasks == old(self).tasks,
            decreases n - i,
        {
            if str_eq(self.focus_sessions[i].id.as_str(), session.id.as_str()) {
                assert(first_session_with_id(ss0, session.id@, i as int) == i as int);
                self.focus_sessions.set(i, session);
                return ;
            }
            i = i + 1;
        }
        self.focus_sessions.push(session);
    }

    /// Drops every session that never started or started at or before
    /// `cutoff`; returns how many went.
    pub fn cleanup_old_focus_sessions(&mut self, cutoff: u64) -> (removed: usize)
        ensures
            final(self).focus_sessions@ == old(self).focus_sessions@.filter(
                session_kept_after(cutoff),
            ),
            removed == old(self).focus_sessions@.len() - final(self).focus_sessions@.len(),
            final(self).monitoring_results == old(self).monitoring_results,
            final(self).tasks == old(self).tasks,
    {
        let ghost ss0 = self.focus_sessions@;
        let ghost pred = session_kept_after(cutoff);
        let n = self.focus_sessions.len();
        let mut kept: Vec<FocusSession> = Vec::new();
        let mut i: usize = 0;
        while i < n
            invariant
                i <= n,
                n == ss0.len(),
                self.focus_sessions@ == ss0,
                pred == session_kept_after(cutoff),
                kept@ == ss0.subrange(0, i as int).filter(pred),
                kept@.len() <= i,
                self.monitoring_results == old(self).monitoring_results,
                self.tasks == old(self).tasks,
            decreases n - i,
        {
            proof {
                reveal(Seq::filter);
                assert(ss0.subrange(0, i + 1).drop_last() =~= ss0.subrange(0, i as int));
                assert(ss0.subrange(0, i + 1).last() == ss0[i as int]);
            }
            let keep = match &self.focus_sessions[i].started_at {
                Some(t) => *t > cutoff,
                None => false,
            };
            if keep {
                let s = clone_session(&self.focus_sessions[i]);
                kept.push(s);
            }
            i = i + 1;
        }
        proof {
            assert(ss0.subrange(0, n as int) =~= ss0);
        }
        let remaining = kept.len();
        self.focus_sessions = kept;
        n - remaining
    }

    /// Totals one day of records, each standing for one sampling span:
    /// focused and distracted seconds, the focus score as a percentage of
    /// the classified time, and one interruption per distracted record.
    pub fn get_today_monitoring_stats(&self, day_start: u64, day_end: u64) -> (stats: TodayStats)
        requires
            self.monitoring_results@.len() <= MAX_COUNTED_RECORDS,
        ensures
            ({
                let rs = self.monitoring_results@;
                let focused = count_in_window(rs, day_start, day_end, FocusState::Focused);
                let light = count_in_window(rs, day_start, day_end, FocusState::Distracted);
                let severe = count_in_window(
                    rs,
                    day_start,
                    day_end,
                    FocusState::SeverelyDistracted,
                );
                &&& stats.total_focus_time == SAMPLE_SPAN_SECONDS * focused
                &&& stats.total_distract_time == SAMPLE_SPAN_SECONDS * (light + severe)
                &&& stats.interruption_count == light + severe
                &&& stats.focus_score == if focused + light + severe > 0 {
                    (SAMPLE_SPAN_SECONDS * focused * 100) as int / (SAMPLE_SPAN_SECONDS * (focused
                        + light + severe)) as int
                } else {
                    0int
                }
            }),
    {
        let ghost rs = self.monitoring_results@;
        let n = self.monitoring_results.len();
        let mut focused: u32 = 0;
        let mut light: u32 = 0;
        let mut severe: u32 = 0;
        let mut i: usize = 0;
        while i < n
            invariant
                i <= n,
                n == rs.len(),
                n <= MAX_COUNTED_RECORDS,
                self.monitoring_results@ == rs,
                focused == count_in_window(
                    rs.subrange(0, i as int),
                    day_start,
                    day_end,
                    FocusState::Focused,
                ),
                light == count_in_window(
                    rs.subrange(0, i as int),
                    day_start,
                    day_end,
                    FocusState::Distracted,
                ),
                severe == count_in_window(
                    rs.subrange(0, i as int),
                    day_start,
                    day_end,
                    FocusState::SeverelyDistracted,
                ),
                focused + light + severe <= i,
            decreases n - i,
        {
            proof {
                assert(rs.subrange(0, i + 1).drop_last() =~= rs.subrange(0, i as int));
                assert(rs.subrange(0, i + 1).last() == rs[i as int]);
            }
            let r = &self.monitoring_results[i];
            if r.timestamp >= day_start && r.timestamp < day_end {
                match r.focus_state {
                    FocusState::Focused => focused = focused + 1,
                    FocusState::Distracted => light = light + 1,
                    FocusState::SeverelyDistracted => severe = severe + 1,
                    FocusState::Unknown => (),
                }
            }
            i = i + 1;
        }
        proof {
            assert(rs.subrange(0, n as int) =~= rs);
        }
        let focus_time: u32 = SAMPLE_SPAN_SECONDS * focused;
        let distract_time: u32 = SAMPLE_SPAN_SECONDS * (light + severe);
        let total_time: u64 = (focus_time as u64) + (distract_time as u64);
        let focus_score: u32 = if total_time > 0 {
            let score64 = (focus_time as u64) * 100 / total_time;
            proof {
                assert(((focus_time as int) * 100) / (total_time as int) <= 100)
                    by (nonlinear_arith)
                    requires
                        total_time > 0,
                        focus_time as int <= total_time as int,
                ;
            }
            score64 as u32
        } else {
            0
        };
        TodayStats {
            total_focus_time: focus_time,
            total_distract_time: distract_time,
            focus_score,
            interruption_count: light + severe,
        }
    }
}

fn clone_task(t: &Task) -> (r: Task)
    ensures
        r == *t,
{
    Task {
        id: t.id.clone(),
        text: t.text.clone(),
        completed: t.completed,
        created_at: t.created_at,
        updated_at: t.updated_at,
    }
}

fn clone_session(s: &FocusSession) -> (r: FocusSession)
    ensures
        r == *s,
{
    FocusSession {
        id: s.id.clone(),
        session_type: s.session_type,
        status: s.status,
        duration_minutes: s.duration_minutes,
        elapsed_seconds: s.elapsed_seconds,
        task_id: crate::text::clone_opt_string(&s.task_id),
        started_at: s.started_at,
        paused_at: s.paused_at,
        completed_at: s.completed_at,
        interruptions: s.interruptions,
        notes: crate::text::clone_opt_string(&s.notes),
    }
}

/// The first position at or after `i` holding an unfinished task.
pub open spec fn first_incomplete(tasks: Seq<Task>, i: int) -> int
    decreases tasks.len() - i,
{
    if i < 0 || i >= tasks.len() {
        tasks.len() as int
    } else if !tasks[i].completed {
        i
    } else {
        first_incomplete(tasks, i + 1)
    }
}

/// The text of the first unfinished task, if any: what a classification
/// cycle takes as the user's current task.
pub fn current_task_name(tasks: &Vec<Task>) -> (r: Option<String>)
    ensures
        ({
            let k = first_incomplete(tasks@, 0);
            &&& k < tasks@.len() ==> (r matches Some(t) && t@ == tasks@[k].text@)
            &&& k == tasks@.len() ==> r is None
        }),
{
    let n = tasks.len();
    let mut i: usize = 0;
    while i < n
        invariant
            i <= n,
            n == tasks@.len(),
            first_incomplete(tasks@, 0) == first_incomplete(tasks@, i as int),
            forall|j: int| 0 <= j < i ==> (#[trigger] tasks@[j]).completed,
        decreases n - i,
    {
        if !tasks[i].completed {
            return Some(tasks[i].text.clone());
        }
        i = i + 1;
    }
    None
}

/// What the storage-usage report recommends for the given totals.
pub open spec fn recommendations_sp(total_size: u32, monitoring_count: u32) -> Seq<Seq<char>> {
    let with_thresholds = (if total_size > 52428800 {
        seq!["数据量较大，建议定期清理旧数据"@]
    } else {
        Seq::<Seq<char>>::empty()
    }) + (if monitoring_count > 10000 {
        seq!["监控记录过多，建议调整监控频率或清理周期"@]
    } else {
        Seq::<Seq<char>>::empty()
    }) + (if total_size > 20971520 {
        seq!["建议执行存储优化以减少空间占用"@]
    } else {
        Seq::<Seq<char>>::empty()
    });
    if with_thresholds.len() == 0 {
        seq!["存储使用正常"@]
    } else {
        with_thresholds
    }
}

/// Sizes a storage report and suggests cleanups; never silent.
pub fn generate_storage_recommendations(total_size: u32, monitoring_count: u32) -> (r: Vec<
    String,
>)
    ensures
        r@.map_values(|s: String| s@) == recommendations_sp(total_size, monitoring_count),
        r@.len() >= 1,
{
    let mut recommendations: Vec<String> = Vec::new();
    if total_size > 50 * 1024 * 1024 {
        recommendations.push(String::from_str("数据量较大，建议定期清理旧数据"));
    }
    if monitoring_count > 10000 {
        recommendations.push(String::from_str("监控记录过多，建议调整监控频率或清理周期"));
    }
    if total_size > 20 * 1024 * 1024 {
        recommendations.push(String::from_str("建议执行存储优化以减少空间占用"));
    }
    if recommendations.len() == 0 {
        recommendations.push(String::from_str("存储使用正常"));
    }
    proof {
        assert(recommendations@.map_values(|s: String| s@) =~= recommendations_sp(
            total_size,
            monitoring_count,
        ));
    }
    recommendations
}

/// Report generation around the store; the rollup arithmetic itself is the
/// reporting collaborator's side of the system.
pub struct ReportService {
    pub storage_service: StorageService,
}

impl ReportService {
    pub fn new(storage_service: StorageService) -> (r: ReportService)
        ensures
            r.storage_service == storage_service,
    {
        ReportService { storage_service }
    }
}

} // verus!
