//! Monitoring configuration and the backend (model) configuration.

use vstd::prelude::*;

verus! {

/// Which text-understanding backend to call, and with which models.
/// Plain data; the network client lives outside the library.
pub struct AIConfig {
    pub api_type: String,
    pub api_url: String,
    pub api_key: String,
    pub detection_model: String,
    pub report_model: String,
}

impl AIConfig {
    /// The configuration used before the user has chosen anything.
    pub fn new_default() -> (c: AIConfig)
        ensures
            c.api_type@ == "OpenAI Compatible"@,
            c.api_url@ == "https://api.openai.com/v1"@,
            c.api_key@ == ""@,
            c.detection_model@ == "gpt-3.5-turbo"@,
            c.report_model@ == "gpt-4-turbo-preview"@,
    {
        AIConfig {
            api_type: String::from_str("OpenAI Compatible"),
            api_url: String::from_str("https://api.openai.com/v1"),
            api_key: String::from_str(""),
            detection_model: String::from_str("gpt-3.5-turbo"),
            report_model: String::from_str("gpt-4-turbo-preview"),
        }
    }
}

/// The backend configuration used before the user has chosen anything.
pub open spec fn is_default_ai_config(c: AIConfig) -> bool {
    &&& c.api_type@ == "OpenAI Compatible"@
    &&& c.api_url@ == "https://api.openai.com/v1"@
    &&& c.api_key@ == ""@
    &&& c.detection_model@ == "gpt-3.5-turbo"@
    &&& c.report_model@ == "gpt-4-turbo-preview"@
}

/// The monitoring configuration used before anything is stored: disabled,
/// a 3-minute interval, empty application lists, default backend.
pub open spec fn is_default_config(c: MonitoringConfig) -> bool {
    &&& !c.enabled
    &&& c.interval_minutes == 3
    &&& c.whitelist@ == Seq::<String>::empty()
    &&& c.blacklist@ == Seq::<String>::empty()
    &&& is_default_ai_config(c.ai_config)
}

/// Two configurations with the same settings, compared list-for-list.
pub open spec fn config_eq(a: MonitoringConfig, b: MonitoringConfig) -> bool {
    &&& a.enabled == b.enabled
    &&& a.interval_minutes == b.interval_minutes
    &&& a.whitelist@ == b.whitelist@
    &&& a.blacklist@ == b.blacklist@
    &&& a.ai_config == b.ai_config
}

/// The scheduler's configuration. `interval_minutes` must stay within
/// [1, 10]; `update_config` on the scheduler rejects anything else.
pub struct MonitoringConfig {
    pub enabled: bool,
    pub interval_minutes: u8,
    pub whitelist: Vec<String>,
    pub blacklist: Vec<String>,
    pub ai_config: AIConfig,
}

/// The interval bound every adopted configuration satisfies.
pub open spec fn interval_in_range(interval_minutes: u8) -> bool {
    1 <= interval_minutes <= 10
}

impl MonitoringConfig {
    pub open spec fn valid(self) -> bool {
        interval_in_range(self.interval_minutes)
    }

    /// Monitoring is off by default, sampling every 3 minutes once enabled.
    pub fn new_default() -> (c: MonitoringConfig)
        ensures
            !c.enabled,
            c.interval_minutes == 3,
            c.whitelist@.len() == 0,
            c.blacklist@.len() == 0,
            c.valid(),
            is_default_config(c),
    {
        let c = MonitoringConfig {
            enabled: false,
            interval_minutes: 3,
            whitelist: Vec::new(),
            blacklist: Vec::new(),
            ai_config: AIConfig::new_default(),
        };
        assert(c.whitelist@ =~= Seq::<String>::empty());
        assert(c.blacklist@ =~= Seq::<String>::empty());
        c
    }
}

} // verus!
