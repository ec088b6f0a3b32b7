//! The Redis queue behind a cluster.
use vstd::prelude::*;
use crate::spec::common::SecretKeyRef;

verus! {

#[derive(Debug, Clone)]
pub struct RedisConfig {
    pub host: String,
    pub port: Option<u16>,
    pub db: Option<u32>,
    pub password_secret: Option<SecretKeyRef>,
    pub username_secret: Option<SecretKeyRef>,
    pub tls: Option<bool>,
    /// `QUEUE_BULL_PREFIX` for namespacing within a shared Redis instance.
    pub prefix: Option<String>,
}

} // verus!
