//! Where n8n keeps binary data.
use vstd::prelude::*;
use crate::spec::common::{SecretKeyRef, SharedStorage};

verus! {

/// `default` (in-memory), `database`, `filesystem`, or `s3`.
#[derive(Debug, Clone)]
pub struct BinaryDataSpec {
    pub mode: String,
    /// Required when `mode` is `s3`.
    pub s3: Option<S3Config>,
    /// Only valid with `mode: filesystem`.
    pub shared_storage: Option<SharedStorage>,
}

#[derive(Debug, Clone)]
pub struct S3Config {
    pub host: String,
    pub bucket: String,
    pub region: String,
    pub access_key_secret: SecretKeyRef,
    pub access_secret_secret: SecretKeyRef,
}

} // verus!
