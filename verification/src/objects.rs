//! The Kubernetes objects the operator owns, as plain values: what a Deployment,
//! Service, Ingress, HPA, PVC, HTTPRoute, DestinationRule or Secret carries.
use vstd::prelude::*;
use crate::env::ContainerEnv;
use crate::spec::ResourceRequirements;
use crate::strmap::StrMap;

verus! {

/// An owner reference that ties a child object to its custom resource.
#[derive(Debug)]
pub struct OwnerRef {
    pub api_version: String,
    pub kind: String,
    pub name: String,
    pub uid: String,
    pub controller: Option<bool>,
    pub block_owner_deletion: Option<bool>,
}

impl Clone for OwnerRef {
    fn clone(&self) -> (r: Self)
        ensures
            r == *self,
    {
        OwnerRef {
            api_version: self.api_version.clone(),
            kind: self.kind.clone(),
            name: self.name.clone(),
            uid: self.uid.clone(),
            controller: self.controller,
            block_owner_deletion: self.block_owner_deletion,
        }
    }
}

/// Metadata of a managed object: name, labels, annotations and its single owner.
#[derive(Debug)]
pub struct ObjectMetaModel {
    pub name: String,
    pub namespace: Option<String>,
    pub labels: StrMap,
    pub annotations: StrMap,
    pub owner: OwnerRef,
}

/// Where a pod volume comes from.
#[derive(Debug)]
pub enum VolumeSource {
    /// A PersistentVolumeClaim by name.
    Claim(String),
    /// One key of a Secret, projected as a file.
    Secret { secret_name: String, key: String, path: String },
}

/// A pod volume.
#[derive(Debug)]
pub struct Volume {
    pub name: String,
    pub source: VolumeSource,
}

impl Clone for VolumeSource {
    fn clone(&self) -> (r: Self)
        ensures
            r == *self,
    {
        match self {
            VolumeSource::Claim(c) => VolumeSource::Claim(c.clone()),
            VolumeSource::Secret { secret_name, key, path } => VolumeSource::Secret {
                secret_name: secret_name.clone(),
                key: key.clone(),
                path: path.clone(),
            },
        }
    }
}

impl Clone for Volume {
    fn clone(&self) -> (r: Self)
        ensures
            r == *self,
    {
        Volume { name: self.name.clone(), source: self.source.clone() }
    }
}

/// A volume as character sequences.
pub enum VolumeSourceView {
    Claim(Seq<char>),
    Secret(Seq<char>, Seq<char>, Seq<char>),
}

pub struct VolumeView {
    pub name: Seq<char>,
    pub source: VolumeSourceView,
}

impl View for Volume {
    type V = VolumeView;

    open spec fn view(&self) -> VolumeView {
        VolumeView {
            name: self.name@,
            source: match self.source {
                VolumeSource::Claim(c) => VolumeSourceView::Claim(c@),
                VolumeSource::Secret { secret_name, key, path } => VolumeSourceView::Secret(
                    secret_name@,
                    key@,
                    path@,
                ),
            },
        }
    }
}

/// The views of a list of volumes.
pub open spec fn volume_views(s: Seq<Volume>) -> Seq<VolumeView> {
    s.map_values(|v: Volume| v@)
}

/// A container volume mount.
#[derive(Debug)]
pub struct VolumeMount {
    pub name: String,
    pub mount_path: String,
    pub read_only: Option<bool>,
}

impl Clone for VolumeMount {
    fn clone(&self) -> (r: Self)
        ensures
            r == *self,
    {
        VolumeMount { name: self.name.clone(), mount_path: self.mount_path.clone(), read_only: self.read_only }
    }
}

/// A mount as character sequences.
pub struct MountView {
    pub name: Seq<char>,
    pub mount_path: Seq<char>,
    pub read_only: Option<bool>,
}

impl View for VolumeMount {
    type V = MountView;

    open spec fn view(&self) -> MountView {
        MountView { name: self.name@, mount_path: self.mount_path@, read_only: self.read_only }
    }
}

/// The views of a list of mounts.
pub open spec fn mount_views(s: Seq<VolumeMount>) -> Seq<MountView> {
    s.map_values(|m: VolumeMount| m@)
}

/// The views of a list of strings.
pub open spec fn strs_view(s: Seq<String>) -> Seq<Seq<char>> {
    s.map_values(|x: String| x@)
}

/// The n8n container of a pod.
#[derive(Debug)]
pub struct ContainerModel {
    pub name: String,
    pub image: String,
    pub port: i32,
    pub port_name: String,
    pub env: Vec<ContainerEnv>,
    pub volume_mounts: Vec<VolumeMount>,
    pub command: Option<Vec<String>>,
    pub resources: Option<ResourceRequirements>,
    /// HTTP readiness probe on `port_name`.
    pub probe_path: String,
    pub probe_initial_delay_seconds: i32,
    pub probe_period_seconds: i32,
}

/// A pod template: its metadata, volumes, the n8n container and scheduling.
#[derive(Debug)]
pub struct PodTemplateModel {
    pub labels: StrMap,
    pub annotations: StrMap,
    pub volumes: Vec<Volume>,
    pub container: ContainerModel,
    pub image_pull_secrets: Vec<String>,
    pub service_account_name: Option<String>,
    pub node_selector: Option<StrMap>,
    pub tolerations: Option<serde_json::Value>,
    pub affinity: Option<serde_json::Value>,
}

/// The `rollingUpdate` bounds of a strategy.
#[derive(Debug)]
pub struct RollingUpdateModel {
    pub max_surge: Option<String>,
    pub max_unavailable: Option<String>,
}

/// A rendered Deployment `spec.strategy`.
#[derive(Debug)]
pub struct StrategyModel {
    pub type_: String,
    pub rolling_update: Option<RollingUpdateModel>,
}

/// A Deployment. `replicas` is `None` when the operator leaves the field to an HPA.
#[derive(Debug)]
pub struct DeploymentModel {
    pub meta: ObjectMetaModel,
    pub replicas: Option<i32>,
    pub selector: StrMap,
    pub template: PodTemplateModel,
    pub strategy: Option<StrategyModel>,
}

/// A Service exposing port `port` (named `port_name`) of the selected pods.
#[derive(Debug)]
pub struct ServiceModel {
    pub meta: ObjectMetaModel,
    pub selector: StrMap,
    pub port_name: String,
    pub port: i32,
    pub target_port: String,
    pub protocol: String,
    pub type_: String,
    pub session_affinity: Option<String>,
}

/// TLS termination of an Ingress.
#[derive(Debug)]
pub struct IngressTls {
    pub host: String,
    pub secret_name: String,
}

/// An Ingress routing `path` on `host` to a Service port.
#[derive(Debug)]
pub struct IngressModel {
    pub meta: ObjectMetaModel,
    pub class_name: Option<String>,
    pub host: String,
    pub path: String,
    pub path_type: String,
    pub service_name: String,
    pub service_port: i32,
    pub tls: Option<IngressTls>,
}

/// A HorizontalPodAutoscaler on average CPU utilisation.
#[derive(Debug)]
pub struct HpaModel {
    pub meta: ObjectMetaModel,
    pub target_api_version: String,
    pub target_kind: String,
    pub target_name: String,
    pub min_replicas: i32,
    pub max_replicas: i32,
    pub cpu_utilization: i32,
}

/// A PersistentVolumeClaim.
#[derive(Debug)]
pub struct PvcModel {
    pub meta: ObjectMetaModel,
    pub access_modes: Vec<String>,
    pub storage: String,
    pub storage_class_name: Option<String>,
}

/// `parentRefs[0]` of an HTTPRoute: a Gateway, optionally pinned to a listener.
#[derive(Debug)]
pub struct ParentRefModel {
    pub name: String,
    pub kind: String,
    pub group: String,
    pub namespace: Option<String>,
    pub section_name: Option<String>,
}

/// What an HTTPRoute rule does.
#[derive(Debug)]
pub enum RouteRule {
    /// Forward to a Service port.
    Backend { name: String, port: i32 },
    /// Answer with a redirect to another scheme.
    Redirect { scheme: String, status_code: i32 },
}

/// An HTTPRoute.
#[derive(Debug)]
pub struct HttpRouteModel {
    pub meta: ObjectMetaModel,
    pub parent: ParentRefModel,
    pub hostnames: Vec<String>,
    pub rule: RouteRule,
}

/// An Istio DestinationRule with cookie-based consistent hashing.
#[derive(Debug)]
pub struct DestinationRuleModel {
    pub meta: ObjectMetaModel,
    pub host: String,
    pub cookie_name: String,
    pub cookie_ttl: String,
}

/// An opaque Secret holding one generated key.
#[derive(Debug)]
pub struct SecretModel {
    pub meta: ObjectMetaModel,
    pub key: String,
    pub value: String,
    pub type_: String,
}

/// An API group the cluster serves, with its versions.
#[derive(Debug, Clone)]
pub struct ApiGroup {
    pub name: String,
    pub versions: Vec<String>,
}

} // verus!
