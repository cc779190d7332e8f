//! The monitoring scheduler: enable/disable and interval configuration,
//! the Stopped/Running flag, the per-tick decision, and the shared
//! "current activity" / "last result" snapshots.
//!
//! The periodic loop itself lives in the unverified shell: each iteration
//! it asks `next_tick_action` what to do, runs one classification cycle
//! when told to, and feeds the outcome back through `record_cycle`.

use vstd::prelude::*;
use crate::config::{config_eq, interval_in_range, AIConfig, MonitoringConfig};
use crate::model::{CurrentActivity, FocusState, MonitoringResult};
use crate::text::clone_opt_string;

verus! {

/// Why a configuration update was refused.
#[derive(Clone, Copy, PartialEq, Eq, Structural, Debug)]
pub enum ConfigError {
    IntervalOutOfRange,
}

/// What the loop should do next, decided at the top of each iteration.
#[derive(Clone, Copy, PartialEq, Eq, Structural, Debug)]
pub enum TickAction {
    /// The scheduler was stopped: leave the loop.
    Stop,
    /// Monitoring is disabled: sleep a short backoff and ask again.
    Recheck { wait_seconds: u64 },
    /// Run one classification cycle, then sleep the configured interval.
    RunCycle { wait_seconds: u64 },
}

/// Seconds between re-checks while monitoring is disabled.
pub const DISABLED_BACKOFF_SECONDS: u64 = 10;

/// The scheduler's state. The two snapshots are populated only while
/// running and cleared on stop.
pub struct MonitorService {
    pub running: bool,
    pub config: MonitoringConfig,
    pub current_activity: Option<CurrentActivity>,
    pub last_result: Option<MonitoringResult>,
}

impl Clone for AIConfig {
    fn clone(&self) -> (res: Self)
        ensures
            res == *self,
    {
        AIConfig {
            api_type: self.api_type.clone(),
            api_url: self.api_url.clone(),
            api_key: self.api_key.clone(),
            detection_model: self.detection_model.clone(),
            report_model: self.report_model.clone(),
        }
    }
}

impl Clone for MonitoringConfig {
    fn clone(&self) -> (res: Self)
        ensures
            config_eq(res, *self),
    {
        MonitoringConfig {
            enabled: self.enabled,
            interval_minutes: self.interval_minutes,
            whitelist: crate::text::clone_string_vec(&self.whitelist),
            blacklist: crate::text::clone_string_vec(&self.blacklist),
            ai_config: self.ai_config.clone(),
        }
    }
}

impl Clone for CurrentActivity {
    fn clone(&self) -> (res: Self)
        ensures
            res == *self,
    {
        CurrentActivity {
            application_name: clone_opt_string(&self.application_name),
            window_title: clone_opt_string(&self.window_title),
            is_productive: self.is_productive,
            timestamp: self.timestamp,
        }
    }
}

impl Clone for MonitoringResult {
    fn clone(&self) -> (res: Self)
        ensures
            res == *self,
    {
        MonitoringResult {
            timestamp: self.timestamp,
            focus_state: self.focus_state,
            application_name: clone_opt_string(&self.application_name),
            window_title: clone_opt_string(&self.window_title),
            ocr_text: clone_opt_string(&self.ocr_text),
            ai_analysis: clone_opt_string(&self.ai_analysis),
            confidence: self.confidence,
        }
    }
}

impl MonitorService {
    pub open spec fn wf(self) -> bool {
        &&& self.config.valid()
        &&& (!self.running ==> self.current_activity is None && self.last_result is None)
    }

    /// Starting only raises the running flag.
    pub open spec fn start_tr(self) -> MonitorService {
        MonitorService { running: true, ..self }
    }

    /// Stopping lowers the flag and clears both snapshots.
    pub open spec fn stop_tr(self) -> MonitorService {
        MonitorService { running: false, current_activity: None, last_result: None, ..self }
    }

    pub open spec fn tick_action_spec(self) -> TickAction {
        if !self.running {
            TickAction::Stop
        } else if !self.config.enabled {
            TickAction::Recheck { wait_seconds: DISABLED_BACKOFF_SECONDS }
        } else {
            TickAction::RunCycle { wait_seconds: (self.config.interval_minutes * 60) as u64 }
        }
    }

    pub fn new() -> (s: MonitorService)
        ensures
            s.wf(),
            !s.running,
            s.current_activity is None,
            s.last_result is None,
            crate::config::is_default_config(s.config),
    {
        MonitorService {
            running: false,
            config: MonitoringConfig::new_default(),
            current_activity: None,
            last_result: None,
        }
    }

    /// Starts the scheduler. Returns whether a loop must now be launched:
    /// `false` means it was already running and nothing changed, so two
    /// starts in a row still yield exactly one loop.
    pub fn start(&mut self) -> (newly_started: bool)
        requires
            old(self).wf(),
        ensures
            final(self).wf(),
            *final(self) == old(self).start_tr(),
            newly_started == !old(self).running,
            old(self).running ==> *final(self) == *old(self),
    {
        if self.running {
            return false;
        }
        self.running = true;
        true
    }

    /// Stops the scheduler and clears both snapshots; a no-op (still
    /// succeeding) when not running.
    pub fn stop(&mut self)
        requires
            old(self).wf(),
        ensures
            final(self).wf(),
            *final(self) == old(self).stop_tr(),
            !old(self).running ==> *final(self) == *old(self),
    {
        self.running = false;
        self.current_activity = None;
        self.last_result = None;
    }

    /// Adopts `config` wholesale if its interval lies in [1, 10] minutes;
    /// anything else is refused and the prior configuration stays intact.
    /// A change takes effect at the next tick, which re-reads the config.
    pub fn update_config(&mut self, config: MonitoringConfig) -> (r: Result<(), ConfigError>)
        requires
            old(self).wf(),
        ensures
            final(self).wf(),
            r is Ok <==> interval_in_range(config.interval_minutes),
            r is Ok ==> *final(self) == (MonitorService { config, ..*old(self) }),
            r is Err ==> *final(self) == *old(self) && r == Result::<(), ConfigError>::Err(
                ConfigError::IntervalOutOfRange,
            ),
    {
        if config.interval_minutes < 1 || config.interval_minutes > 10 {
            return Err(ConfigError::IntervalOutOfRange);
        }
        self.config = config;
        Ok(())
    }

    /// Changes only the sampling interval, under the same [1, 10] bound.
    pub fn update_interval(&mut self, interval_minutes: u8) -> (r: Result<(), ConfigError>)
        requires
            old(self).wf(),
        ensures
            final(self).wf(),
            r is Ok <==> interval_in_range(interval_minutes),
            r is Ok ==> *final(self) == (MonitorService {
                config: (MonitoringConfig { interval_minutes, ..old(self).config }),
                ..*old(self)
            }),
            r is Err ==> *final(self) == *old(self) && r == Result::<(), ConfigError>::Err(
                ConfigError::IntervalOutOfRange,
            ),
    {
        if interval_minutes < 1 || interval_minutes > 10 {
            return Err(ConfigError::IntervalOutOfRange);
        }
        self.config.interval_minutes = interval_minutes;
        Ok(())
    }

    pub fn get_config(&self) -> (r: MonitoringConfig)
        ensures
            config_eq(r, self.config),
    {
        self.config.clone()
    }

    pub fn is_monitoring(&self) -> (r: bool)
        ensures
            r == self.running,
    {
        self.running
    }

    pub fn get_current_activity(&self) -> (r: Option<CurrentActivity>)
        ensures
            r == self.current_activity,
    {
        match &self.current_activity {
            Some(a) => Some(a.clone()),
            None => None,
        }
    }

    pub fn get_last_result(&self) -> (r: Option<MonitoringResult>)
        ensures
            r == self.last_result,
    {
        match &self.last_result {
            Some(res) => Some(res.clone()),
            None => None,
        }
    }

    /// What the loop should do at the top of this iteration.
    pub fn next_tick_action(&self) -> (r: TickAction)
        ensures
            r == self.tick_action_spec(),
    {
        if !self.running {
            TickAction::Stop
        } else if !self.config.enabled {
            TickAction::Recheck { wait_seconds: DISABLED_BACKOFF_SECONDS }
        } else {
            TickAction::RunCycle { wait_seconds: self.config.interval_minutes as u64 * 60 }
        }
    }

    /// The derived activity view a finished cycle leaves behind: the
    /// sample's names, productive exactly when it classified as Focused.
    pub open spec fn activity_of(result: MonitoringResult) -> CurrentActivity {
        CurrentActivity {
            application_name: result.application_name,
            window_title: result.window_title,
            is_productive: Some(result.focus_state is Focused),
            timestamp: result.timestamp,
        }
    }

    /// Publishes one finished cycle: both snapshots are overwritten, and
    /// nothing else changes. Only the running loop publishes, so the
    /// stopped scheduler's snapshots stay clear.
    pub fn record_cycle(&mut self, result: MonitoringResult)
        requires
            old(self).wf(),
            old(self).running,
        ensures
            final(self).wf(),
            *final(self) == (MonitorService {
                current_activity: Some(MonitorService::activity_of(result)),
                last_result: Some(result),
                ..*old(self)
            }),
    {
        let is_productive = match result.focus_state {
            FocusState::Focused => true,
            _ => false,
        };
        let activity = CurrentActivity {
            application_name: clone_opt_string(&result.application_name),
            window_title: clone_opt_string(&result.window_title),
            is_productive: Some(is_productive),
            timestamp: result.timestamp,
        };
        self.current_activity = Some(activity);
        self.last_result = Some(result);
    }
}

/// Everything one classification cycle produces: the immutable result and
/// the payloads the event sink receives for it.
pub struct CycleOutcome {
    pub result: MonitoringResult,
    pub focus_event: crate::events::FocusStateEvent,
    pub distraction_event: Option<crate::events::DistractionEvent>,
}

/// One full classification cycle over what the shell gathered: the backend
/// outcome degrades to the fallback reply, the reply is parsed in severity
/// order, and the result is stamped and wrapped with its event payloads.
/// The caller publishes the events, records the result on the scheduler
/// (when the loop is running), and persists it.
pub fn perform_monitoring_check(
    app_name: &Option<String>,
    window_title: &Option<String>,
    ocr_text: &Option<String>,
    backend_outcome: Result<String, String>,
    now: u64,
) -> (r: CycleOutcome)
    ensures
        r.result.timestamp == now,
        r.result.application_name == *app_name,
        r.result.window_title == *window_title,
        r.result.ocr_text == *ocr_text,
        r.result.ai_analysis matches Some(raw) && raw@ == crate::classify::reply_text_of(
            backend_outcome,
        ),
        (r.result.focus_state, r.result.confidence) == crate::classify::classify_reply(
            crate::classify::lower_of(crate::classify::reply_text_of(backend_outcome)),
        ),
        r.result.wf(),
        r.focus_event.state@ == crate::events::state_label(r.result.focus_state),
        r.focus_event.confidence == r.result.confidence,
        r.focus_event.timestamp == now,
        r.focus_event.application_name == *app_name,
        r.focus_event.window_title == *window_title,
        r.distraction_event is Some <==> (r.result.focus_state is Distracted
            || r.result.focus_state is SeverelyDistracted),
{
    let result = crate::classify::analyze_focus_with_ai(
        app_name,
        window_title,
        ocr_text,
        backend_outcome,
        now,
    );
    let focus_event = crate::events::focus_event_of(&result);
    let distraction_event = crate::events::distraction_event_of(&result);
    CycleOutcome { result, focus_event, distraction_event }
}

/// Law: starting is idempotent — a second `start` finds the scheduler
/// running and changes nothing, so exactly one loop results.
pub proof fn lemma_start_idempotent(s: MonitorService)
    ensures
        s.start_tr().start_tr() == s.start_tr(),
        s.start_tr().running,
{
}

/// Law: `stop` on a scheduler that is not running changes nothing (and the
/// operation itself always succeeds).
pub proof fn lemma_stop_not_running_noop(s: MonitorService)
    requires
        s.wf(),
        !s.running,
    ensures
        s.stop_tr() == s,
{
}

} // verus!
