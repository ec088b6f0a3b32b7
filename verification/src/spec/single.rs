//! `Single`: one standalone n8n process.
use vstd::prelude::*;
use crate::spec::{
    common::{EncryptionKeySpec, EnvVar, PersistenceConfig, ResourceRequirements, ServiceConfig},
    database::DatabaseSpec,
    logging::LoggingConfig,
    meta::ObjectMeta,
    networking::NetworkingSpec,
    pod::PodConfig,
    smtp::SmtpConfig,
};
use crate::text::owned;

verus! {

pub const SINGLE_FINALIZER: &'static str = "singles.n8n.slys.dev";

#[derive(Debug)]
pub struct SingleSpec {
    /// Container image to deploy (e.g. `n8nio/n8n:1.70.0`).
    pub image: String,
    pub replicas: i32,
    /// Externally-facing hostname.
    pub host: Option<String>,
    pub service: Option<ServiceConfig>,
    pub networking: Option<NetworkingSpec>,
    /// `N8N_ENCRYPTION_KEY` source. Generated if omitted.
    pub encryption_key: Option<EncryptionKeySpec>,
    pub database: Option<DatabaseSpec>,
    /// PVC at `/home/node/.n8n`.
    pub persistence: Option<PersistenceConfig>,
    /// Sets `N8N_SECURE_COOKIE`; an `extra_env` entry of the same name wins.
    pub secure_cookie: Option<bool>,
    pub extra_env: Vec<EnvVar>,
    /// Names of Secrets used to pull the container image.
    pub image_pull_secrets: Vec<String>,
    pub resources: Option<ResourceRequirements>,
    pub pod: Option<PodConfig>,
    pub smtp: Option<SmtpConfig>,
    pub logging: Option<LoggingConfig>,
}

/// The image deployed when none is configured.
pub fn default_image() -> (r: String)
    ensures
        r@ == "n8nio/n8n:latest"@,
{
    owned("n8nio/n8n:latest")
}

/// The replica count of a `Single` when the field is omitted.
pub fn default_replicas() -> (r: i32)
    ensures
        r == 1,
{
    1
}

#[derive(Debug, Clone)]
pub struct SingleStatus {
    pub ready: bool,
    pub replicas: i32,
    pub url: Option<String>,
    pub encryption_key_secret: Option<String>,
}

impl Default for SingleStatus {
    fn default() -> (r: Self)
        ensures
            !r.ready,
            r.replicas == 0,
            r.url is None,
            r.encryption_key_secret is None,
    {
        SingleStatus { ready: false, replicas: 0, url: None, encryption_key_secret: None }
    }
}

/// A `Single` resource: its metadata, desired state and reported status.
#[derive(Debug)]
pub struct Single {
    pub metadata: ObjectMeta,
    pub spec: SingleSpec,
    pub status: Option<SingleStatus>,
}

} // verus!
