//! SMTP notification env.
use vstd::prelude::*;
use crate::env::{EnvVarView, env_var_views, lit, lit_var, secret_lit, secret_var};
use crate::spec::{EnvVar, SmtpConfig};
use crate::text::{bool_text, bool_to_text, decimal, owned, u64_text};

verus! {

/// `N8N_EMAIL_MODE=smtp`, host, port, sender, then SSL / STARTTLS when set, then
/// the credentials as Secret references.
pub open spec fn smtp_env_views(s: SmtpConfig) -> Seq<EnvVarView> {
    seq![
        lit_var("N8N_EMAIL_MODE"@, "smtp"@),
        lit_var("N8N_SMTP_HOST"@, s.host@),
        lit_var("N8N_SMTP_PORT"@, decimal(s.port as nat)),
        lit_var("N8N_SMTP_SENDER"@, s.sender@),
    ] + (match s.ssl {
        Some(b) => seq![lit_var("N8N_SMTP_SSL"@, bool_text(b))],
        None => Seq::empty(),
    }) + (match s.start_tls {
        Some(b) => seq![lit_var("N8N_SMTP_STARTTLS"@, bool_text(b))],
        None => Seq::empty(),
    }) + (match s.auth {
        Some(a) => seq![
            secret_var("N8N_SMTP_USER"@, a.user_secret),
            secret_var("N8N_SMTP_PASS"@, a.password_secret),
        ],
        None => Seq::empty(),
    })
}

/// Maps `SmtpConfig` to n8n's `N8N_EMAIL_MODE` / `N8N_SMTP_*` env.
pub fn build_smtp_env(s: &SmtpConfig) -> (r: Vec<EnvVar>)
    ensures
        env_var_views(r@) == smtp_env_views(*s),
{
    let mut out: Vec<EnvVar> = Vec::new();
    out.push(lit("N8N_EMAIL_MODE", owned("smtp")));
    out.push(lit("N8N_SMTP_HOST", s.host.clone()));
    out.push(lit("N8N_SMTP_PORT", u64_text(s.port as u64)));
    out.push(lit("N8N_SMTP_SENDER", s.sender.clone()));
    if let Some(ssl) = s.ssl {
        out.push(lit("N8N_SMTP_SSL", bool_to_text(ssl)));
    }
    if let Some(starttls) = s.start_tls {
        out.push(lit("N8N_SMTP_STARTTLS", bool_to_text(starttls)));
    }
    if let Some(auth) = &s.auth {
        out.push(secret_lit("N8N_SMTP_USER", &auth.user_secret));
        out.push(secret_lit("N8N_SMTP_PASS", &auth.password_secret));
    }
    assert(env_var_views(out@) =~= smtp_env_views(*s));
    out
}

/// SMTP mail goes through the configured host and port as the configured
/// sender, authenticating (when credentials are given) as the user read from
/// `userSecret` with the password read from `passwordSecret`.
pub proof fn smtp_env_carries_its_settings(s: SmtpConfig)
    ensures
        ({
            let env = smtp_env_views(s);
            &&& env.contains(lit_var("N8N_EMAIL_MODE"@, "smtp"@))
            &&& env.contains(lit_var("N8N_SMTP_HOST"@, s.host@))
            &&& env.contains(lit_var("N8N_SMTP_PORT"@, decimal(s.port as nat)))
            &&& env.contains(lit_var("N8N_SMTP_SENDER"@, s.sender@))
            &&& (s.ssl matches Some(b) ==> env.contains(lit_var("N8N_SMTP_SSL"@, bool_text(b))))
            &&& (s.start_tls matches Some(b) ==> env.contains(lit_var("N8N_SMTP_STARTTLS"@, bool_text(b))))
            &&& (s.auth matches Some(a) ==> {
                &&& env.contains(secret_var("N8N_SMTP_USER"@, a.user_secret))
                &&& env.contains(secret_var("N8N_SMTP_PASS"@, a.password_secret))
            })
        }),
{
    let env = smtp_env_views(s);
    assert(env[0] == lit_var("N8N_EMAIL_MODE"@, "smtp"@));
    assert(env[1] == lit_var("N8N_SMTP_HOST"@, s.host@));
    assert(env[2] == lit_var("N8N_SMTP_PORT"@, decimal(s.port as nat)));
    assert(env[3] == lit_var("N8N_SMTP_SENDER"@, s.sender@));
    if let Some(b) = s.ssl {
        assert(env[4] == lit_var("N8N_SMTP_SSL"@, bool_text(b)));
    }
    if let Some(b) = s.start_tls {
        let k: int = 4 + (if s.ssl is Some { 1int } else { 0 });
        assert(env[k] == lit_var("N8N_SMTP_STARTTLS"@, bool_text(b)));
    }
    if let Some(a) = s.auth {
        let k: int = 4 + (if s.ssl is Some { 1int } else { 0 }) + (if s.start_tls is Some { 1int } else { 0 });
        assert(env[k] == secret_var("N8N_SMTP_USER"@, a.user_secret));
        assert(env[k + 1] == secret_var("N8N_SMTP_PASS"@, a.password_secret));
    }
}

} // verus!
