//! Verified core of an n8n Kubernetes operator.
pub mod builders;
pub mod copy;
pub mod env;
pub mod error;
pub mod labels;
pub mod metrics;
pub mod objects;
pub mod reconciler;
pub mod spec;
pub mod strmap;
pub mod text;
pub mod validate;

