//! Logging, diagnostics and metrics toggles.
use vstd::prelude::*;

verus! {

/// Every field is optional and maps to one n8n env var.
#[derive(Debug, Clone)]
pub struct LoggingConfig {
    /// `N8N_LOG_LEVEL`.
    pub level: Option<String>,
    /// `N8N_LOG_OUTPUT`.
    pub output: Option<String>,
    /// `N8N_DIAGNOSTICS_ENABLED`.
    pub diagnostics: Option<bool>,
    /// `N8N_VERSION_NOTIFICATIONS_ENABLED`.
    pub version_notifications: Option<bool>,
    /// `N8N_METRICS`.
    pub metrics: Option<bool>,
}

impl Default for LoggingConfig {
    fn default() -> (r: Self)
        ensures
            r.level is None,
            r.output is None,
            r.diagnostics is None,
            r.version_notifications is None,
            r.metrics is None,
    {
        LoggingConfig { level: None, output: None, diagnostics: None, version_notifications: None, metrics: None }
    }
}

} // verus!
