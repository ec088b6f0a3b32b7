//! The desired state users declare: the `Single` and `Cluster` resources.
pub mod cluster;
pub mod common;
pub mod community;
pub mod database;
pub mod logging;
pub mod meta;
pub mod networking;
pub mod pod;
pub mod redis;
pub mod roles;
pub mod single;
pub mod smtp;
pub mod storage;

pub use cluster::{CLUSTER_FINALIZER, Cluster, ClusterSpec, ClusterStatus};
pub use common::{
    DeploymentStrategy, EncryptionKeySpec, EnvVar, EnvVarSource, PersistenceConfig, ResourceList,
    ResourceRequirements, SecretKeyRef, ServiceConfig, SharedStorage, default_access_mode,
    default_secret_key, default_service_type,
};
pub use community::{CommunityNodesConfig, CommunityPackage};
pub use database::{DatabaseSpec, DatabaseSsl, MysqlConfig, PostgresConfig, SqliteConfig, default_db_type};
pub use logging::LoggingConfig;
pub use meta::ObjectMeta;
pub use networking::{GatewayRef, HttpRouteConfig, IngressConfig, NetworkingSpec};
pub use pod::PodConfig;
pub use redis::RedisConfig;
pub use roles::{Autoscaling, MainConfig, WebhookConfig, WorkerConfig, default_main_replicas};
pub use single::{SINGLE_FINALIZER, Single, SingleSpec, SingleStatus, default_image, default_replicas};
pub use smtp::{SmtpAuth, SmtpConfig};
pub use storage::{BinaryDataSpec, S3Config};
