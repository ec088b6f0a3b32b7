//! The three roles of a queue-mode cluster.
use vstd::prelude::*;
use crate::spec::{
    common::{DeploymentStrategy, EnvVar, PersistenceConfig, ResourceRequirements, ServiceConfig},
    networking::NetworkingSpec,
    pod::PodConfig,
};

verus! {

#[derive(Debug)]
pub struct MainConfig {
    /// Number of main pods. More than one auto-enables n8n's multi-main setup.
    pub replicas: i32,
    pub image: Option<String>,
    pub host: Option<String>,
    pub service: Option<ServiceConfig>,
    pub networking: Option<NetworkingSpec>,
    /// PVC at `/home/node/.n8n` for the main pod only.
    pub persistence: Option<PersistenceConfig>,
    /// Extra env for the main role; overrides the cluster's `extra_env` by name.
    pub extra_env: Vec<EnvVar>,
    pub resources: Option<ResourceRequirements>,
    pub pod: Option<PodConfig>,
    pub strategy: Option<DeploymentStrategy>,
    /// `N8N_MULTI_MAIN_SETUP_KEY_TTL`.
    pub multi_main_key_ttl: Option<u32>,
    /// `N8N_MULTI_MAIN_SETUP_CHECK_INTERVAL`.
    pub multi_main_check_interval: Option<u32>,
}

impl Default for MainConfig {
    /// The value an omitted `main` block takes: every field empty, zero replicas.
    fn default() -> (r: Self)
        ensures
            r.replicas == 0,
            r.image is None,
            r.host is None,
            r.service is None,
            r.networking is None,
            r.persistence is None,
            r.extra_env@.len() == 0,
            r.resources is None,
            r.pod is None,
            r.strategy is None,
            r.multi_main_key_ttl is None,
            r.multi_main_check_interval is None,
    {
        MainConfig {
            replicas: 0,
            image: None,
            host: None,
            service: None,
            networking: None,
            persistence: None,
            extra_env: Vec::new(),
            resources: None,
            pod: None,
            strategy: None,
            multi_main_key_ttl: None,
            multi_main_check_interval: None,
        }
    }
}

/// The replica count of the main role when the field is omitted.
pub fn default_main_replicas() -> (r: i32)
    ensures
        r == 1,
{
    1
}

#[derive(Debug)]
pub struct WorkerConfig {
    /// Static replica count. Ignored when `autoscaling` is set.
    pub replicas: i32,
    pub image: Option<String>,
    /// Maps to `N8N_CONCURRENCY_PRODUCTION_LIMIT`.
    pub concurrency: Option<u32>,
    pub autoscaling: Option<Autoscaling>,
    pub extra_env: Vec<EnvVar>,
    pub resources: Option<ResourceRequirements>,
    pub pod: Option<PodConfig>,
    pub strategy: Option<DeploymentStrategy>,
}

#[derive(Debug, Clone)]
pub struct Autoscaling {
    pub min_replicas: i32,
    pub max_replicas: i32,
    pub target_cpu_utilization_percentage: Option<i32>,
}

#[derive(Debug)]
pub struct WebhookConfig {
    pub replicas: i32,
    pub image: Option<String>,
    pub host: Option<String>,
    pub service: Option<ServiceConfig>,
    pub networking: Option<NetworkingSpec>,
    pub extra_env: Vec<EnvVar>,
    pub resources: Option<ResourceRequirements>,
    pub pod: Option<PodConfig>,
    pub strategy: Option<DeploymentStrategy>,
}

} // verus!
