//! `Cluster`: queue-mode n8n with main, worker and webhook roles.
use vstd::prelude::*;
use crate::spec::{
    common::{EncryptionKeySpec, EnvVar},
    community::CommunityNodesConfig,
    database::DatabaseSpec,
    logging::LoggingConfig,
    meta::ObjectMeta,
    redis::RedisConfig,
    roles::{MainConfig, WebhookConfig, WorkerConfig},
    smtp::SmtpConfig,
    storage::BinaryDataSpec,
};

verus! {

pub const CLUSTER_FINALIZER: &'static str = "clusters.n8n.slys.dev";

#[derive(Debug)]
pub struct ClusterSpec {
    /// Cascading default image. Each role can override.
    pub image: String,
    pub encryption_key: Option<EncryptionKeySpec>,
    /// Queue mode requires a shared DB; sqlite is rejected.
    pub database: DatabaseSpec,
    pub redis: RedisConfig,
    pub main: MainConfig,
    pub workers: WorkerConfig,
    pub webhooks: Option<WebhookConfig>,
    /// Sets `N8N_SECURE_COOKIE` on every role; an `extra_env` entry of the same name wins.
    pub secure_cookie: Option<bool>,
    /// Extra env applied to every role; a role's own `extra_env` wins by name.
    pub extra_env: Vec<EnvVar>,
    /// Names of Secrets used to pull the images.
    pub image_pull_secrets: Vec<String>,
    pub smtp: Option<SmtpConfig>,
    pub logging: Option<LoggingConfig>,
    pub community_nodes: Option<CommunityNodesConfig>,
    pub binary_data: Option<BinaryDataSpec>,
}

#[derive(Debug, Clone)]
pub struct ClusterStatus {
    pub ready: bool,
    pub main_replicas: i32,
    pub worker_replicas: i32,
    pub webhook_replicas: i32,
    pub encryption_key_secret: Option<String>,
}

impl Default for ClusterStatus {
    fn default() -> (r: Self)
        ensures
            !r.ready,
            r.main_replicas == 0,
            r.worker_replicas == 0,
            r.webhook_replicas == 0,
            r.encryption_key_secret is None,
    {
        ClusterStatus {
            ready: false,
            main_replicas: 0,
            worker_replicas: 0,
            webhook_replicas: 0,
            encryption_key_secret: None,
        }
    }
}

/// A `Cluster` resource: its metadata, desired state and reported status.
#[derive(Debug)]
pub struct Cluster {
    pub metadata: ObjectMeta,
    pub spec: ClusterSpec,
    pub status: Option<ClusterStatus>,
}

} // verus!
