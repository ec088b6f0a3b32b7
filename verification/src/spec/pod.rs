//! Pod-level scheduling and metadata applied to a role's pod template.
use vstd::prelude::*;
use crate::strmap::StrMap;

verus! {

#[verifier::external_type_specification]
#[verifier::external_body]
pub struct ExJsonValue(serde_json::Value);

/// `Clone` of a JSON value. Claimed: the copy equals the value cloned, as the
/// derived `Clone` of `serde_json::Value` copies every node.
pub assume_specification[ <serde_json::Value as Clone>::clone ](v: &serde_json::Value) -> (r: serde_json::Value)
    ensures
        r == *v,
;

/// Every field is optional; the free-form fields are passed through verbatim.
#[derive(Debug)]
pub struct PodConfig {
    pub service_account_name: Option<String>,
    pub node_selector: Option<StrMap>,
    /// Free-form pod tolerations (k8s `[]Toleration`).
    pub tolerations: Option<serde_json::Value>,
    /// Free-form pod affinity (k8s `Affinity`).
    pub affinity: Option<serde_json::Value>,
    /// Free-form pod security context (k8s `PodSecurityContext`).
    pub security_context: Option<serde_json::Value>,
    /// Extra labels merged onto the pod template metadata.
    pub pod_labels: Option<StrMap>,
    /// Extra annotations merged onto the pod template metadata.
    pub pod_annotations: Option<StrMap>,
}

} // verus!
