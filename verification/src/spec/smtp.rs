//! SMTP notification settings.
use vstd::prelude::*;
use crate::spec::common::SecretKeyRef;

verus! {

/// Its presence sets `N8N_EMAIL_MODE=smtp`; the rest map to `N8N_SMTP_*`.
#[derive(Debug, Clone)]
pub struct SmtpConfig {
    pub host: String,
    pub port: u16,
    pub sender: String,
    pub ssl: Option<bool>,
    pub start_tls: Option<bool>,
    pub auth: Option<SmtpAuth>,
}

#[derive(Debug, Clone)]
pub struct SmtpAuth {
    pub user_secret: SecretKeyRef,
    pub password_secret: SecretKeyRef,
}

} // verus!
