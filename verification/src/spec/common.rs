//! Building blocks shared by both custom resources.
use vstd::prelude::*;
use crate::text::owned;

verus! {

/// A key inside a Kubernetes Secret.
#[derive(Debug)]
pub struct SecretKeyRef {
    pub name: String,
    /// Key within the Secret. Defaults to `encryption_key`.
    pub key: String,
}

impl Clone for SecretKeyRef {
    fn clone(&self) -> (r: Self)
        ensures
            r == *self,
    {
        SecretKeyRef { name: self.name.clone(), key: self.key.clone() }
    }
}

/// The key used when a `SecretKeyRef` names none.
pub fn default_secret_key() -> (r: String)
    ensures
        r@ == "encryption_key"@,
{
    owned("encryption_key")
}

/// A user-supplied environment variable passed straight through to the n8n
/// container. Set exactly one of `value` (inline literal) or `value_from`
/// (pulled from a Secret).
#[derive(Debug)]
pub struct EnvVar {
    pub name: String,
    /// Inline literal value. Mutually exclusive with `value_from`.
    pub value: Option<String>,
    /// Pull the value from a Secret. Mutually exclusive with `value`.
    pub value_from: Option<EnvVarSource>,
}

impl Clone for EnvVar {
    fn clone(&self) -> (r: Self)
        ensures
            r == *self,
    {
        EnvVar { name: self.name.clone(), value: self.value.clone(), value_from: self.value_from.clone() }
    }
}

/// Source for an `EnvVar` whose value is resolved at runtime: a Secret key.
#[derive(Debug)]
pub struct EnvVarSource {
    pub secret_ref: SecretKeyRef,
}

impl Clone for EnvVarSource {
    fn clone(&self) -> (r: Self)
        ensures
            r == *self,
    {
        EnvVarSource { secret_ref: self.secret_ref.clone() }
    }
}

/// Where `N8N_ENCRYPTION_KEY` comes from; without a reference one is generated.
#[derive(Debug)]
pub struct EncryptionKeySpec {
    pub secret_ref: Option<SecretKeyRef>,
}

impl Clone for EncryptionKeySpec {
    fn clone(&self) -> (r: Self)
        ensures
            r == *self,
    {
        EncryptionKeySpec { secret_ref: self.secret_ref.clone() }
    }
}

/// Service shape: `ClusterIP` (default), `NodePort`, or `LoadBalancer`.
#[derive(Debug)]
pub struct ServiceConfig {
    pub type_: String,
}

impl Clone for ServiceConfig {
    fn clone(&self) -> (r: Self)
        ensures
            r == *self,
    {
        ServiceConfig { type_: self.type_.clone() }
    }
}

/// The Service type used when none is configured.
pub fn default_service_type() -> (r: String)
    ensures
        r@ == "ClusterIP"@,
{
    owned("ClusterIP")
}

/// A PVC mounted at `/home/node/.n8n`.
#[derive(Debug)]
pub struct PersistenceConfig {
    /// Storage request, e.g. `1Gi`.
    pub size: String,
    pub storage_class_name: Option<String>,
    pub access_mode: String,
}

impl Clone for PersistenceConfig {
    fn clone(&self) -> (r: Self)
        ensures
            r == *self,
    {
        PersistenceConfig {
            size: self.size.clone(),
            storage_class_name: self.storage_class_name.clone(),
            access_mode: self.access_mode.clone(),
        }
    }
}

/// The access mode used when a persistence block names none.
pub fn default_access_mode() -> (r: String)
    ensures
        r@ == "ReadWriteOnce"@,
{
    owned("ReadWriteOnce")
}

/// A volume shared by every role of a cluster (typically `ReadWriteMany`).
#[derive(Debug)]
pub struct SharedStorage {
    pub size: String,
    pub storage_class_name: Option<String>,
    pub access_mode: String,
}

impl Clone for SharedStorage {
    fn clone(&self) -> (r: Self)
        ensures
            r == *self,
    {
        SharedStorage {
            size: self.size.clone(),
            storage_class_name: self.storage_class_name.clone(),
            access_mode: self.access_mode.clone(),
        }
    }
}

/// CPU and memory quantities.
#[derive(Debug)]
pub struct ResourceList {
    pub cpu: Option<String>,
    pub memory: Option<String>,
}

impl Clone for ResourceList {
    fn clone(&self) -> (r: Self)
        ensures
            r == *self,
    {
        ResourceList { cpu: self.cpu.clone(), memory: self.memory.clone() }
    }
}

/// Container CPU/memory requests and limits.
#[derive(Debug)]
pub struct ResourceRequirements {
    pub limits: Option<ResourceList>,
    pub requests: Option<ResourceList>,
}

impl Clone for ResourceRequirements {
    fn clone(&self) -> (r: Self)
        ensures
            r == *self,
    {
        ResourceRequirements { limits: self.limits.clone(), requests: self.requests.clone() }
    }
}

/// Deployment update strategy: `RollingUpdate` (with optional surge and
/// unavailability bounds) or `Recreate`.
#[derive(Debug)]
pub struct DeploymentStrategy {
    pub type_: String,
    pub max_surge: Option<String>,
    pub max_unavailable: Option<String>,
}

impl Clone for DeploymentStrategy {
    fn clone(&self) -> (r: Self)
        ensures
            r == *self,
    {
        DeploymentStrategy {
            type_: self.type_.clone(),
            max_surge: self.max_surge.clone(),
            max_unavailable: self.max_unavailable.clone(),
        }
    }
}

} // verus!
