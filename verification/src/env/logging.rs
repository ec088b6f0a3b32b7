//! Logging, diagnostics and metrics env.
use vstd::prelude::*;
use crate::env::{EnvVarView, env_var_views, lit, lit_var};
use crate::spec::{EnvVar, LoggingConfig};
use crate::text::{bool_text, bool_to_text};

verus! {

/// One entry per set field, in the order level, output, diagnostics, version
/// notifications, metrics.
pub open spec fn logging_env_views(l: LoggingConfig) -> Seq<EnvVarView> {
    (match l.level {
        Some(v) => seq![lit_var("N8N_LOG_LEVEL"@, v@)],
        None => Seq::empty(),
    }) + (match l.output {
        Some(v) => seq![lit_var("N8N_LOG_OUTPUT"@, v@)],
        None => Seq::empty(),
    }) + (match l.diagnostics {
        Some(b) => seq![lit_var("N8N_DIAGNOSTICS_ENABLED"@, bool_text(b))],
        None => Seq::empty(),
    }) + (match l.version_notifications {
        Some(b) => seq![lit_var("N8N_VERSION_NOTIFICATIONS_ENABLED"@, bool_text(b))],
        None => Seq::empty(),
    }) + (match l.metrics {
        Some(b) => seq![lit_var("N8N_METRICS"@, bool_text(b))],
        None => Seq::empty(),
    })
}

/// Maps `LoggingConfig` to n8n's logging / diagnostics / metrics env; only set
/// fields are emitted.
pub fn build_logging_env(l: &LoggingConfig) -> (r: Vec<EnvVar>)
    ensures
        env_var_views(r@) == logging_env_views(*l),
{
    let mut out: Vec<EnvVar> = Vec::new();
    if let Some(level) = &l.level {
        out.push(lit("N8N_LOG_LEVEL", level.clone()));
    }
    if let Some(output) = &l.output {
        out.push(lit("N8N_LOG_OUTPUT", output.clone()));
    }
    if let Some(d) = l.diagnostics {
        out.push(lit("N8N_DIAGNOSTICS_ENABLED", bool_to_text(d)));
    }
    if let Some(v) = l.version_notifications {
        out.push(lit("N8N_VERSION_NOTIFICATIONS_ENABLED", bool_to_text(v)));
    }
    if let Some(m) = l.metrics {
        out.push(lit("N8N_METRICS", bool_to_text(m)));
    }
    assert(env_var_views(out@) =~= logging_env_views(*l));
    out
}

/// Each set logging field reaches the env with its value, and nothing else does:
/// there is one entry per set field.
pub proof fn logging_env_carries_its_settings(l: LoggingConfig)
    ensures
        ({
            let env = logging_env_views(l);
            &&& (l.level matches Some(v) ==> env.contains(lit_var("N8N_LOG_LEVEL"@, v@)))
            &&& (l.output matches Some(v) ==> env.contains(lit_var("N8N_LOG_OUTPUT"@, v@)))
            &&& (l.diagnostics matches Some(b) ==> env.contains(lit_var("N8N_DIAGNOSTICS_ENABLED"@, bool_text(b))))
            &&& (l.version_notifications matches Some(b) ==> env.contains(
                lit_var("N8N_VERSION_NOTIFICATIONS_ENABLED"@, bool_text(b)),
            ))
            &&& (l.metrics matches Some(b) ==> env.contains(lit_var("N8N_METRICS"@, bool_text(b))))
            &&& env.len() == (if l.level is Some { 1int } else { 0 }) + (if l.output is Some { 1int } else { 0 })
                + (if l.diagnostics is Some { 1int } else { 0 }) + (if l.version_notifications is Some {
                1int
            } else {
                0
            }) + (if l.metrics is Some { 1int } else { 0 })
        }),
{
    let env = logging_env_views(l);
    let a: int = if l.level is Some { 1 } else { 0 };
    let b: int = a + if l.output is Some { 1int } else { 0 };
    let c: int = b + if l.diagnostics is Some { 1int } else { 0 };
    let d: int = c + if l.version_notifications is Some { 1int } else { 0 };
    if let Some(v) = l.level {
        assert(env[0] == lit_var("N8N_LOG_LEVEL"@, v@));
    }
    if let Some(v) = l.output {
        assert(env[a] == lit_var("N8N_LOG_OUTPUT"@, v@));
    }
    if let Some(x) = l.diagnostics {
        assert(env[b] == lit_var("N8N_DIAGNOSTICS_ENABLED"@, bool_text(x)));
    }
    if let Some(x) = l.version_notifications {
        assert(env[c] == lit_var("N8N_VERSION_NOTIFICATIONS_ENABLED"@, bool_text(x)));
    }
    if let Some(x) = l.metrics {
        assert(env[d] == lit_var("N8N_METRICS"@, bool_text(x)));
    }
}

} // verus!
