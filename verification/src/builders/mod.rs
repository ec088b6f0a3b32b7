//! Builders for the objects each role owns.
pub mod deployment;
pub mod destination_rule;
pub mod hpa;
pub mod http_route;
pub mod ingress;
pub mod pvc;
pub mod service;
pub mod volumes;

use vstd::prelude::*;
use crate::labels::{common_annotations, common_annotations_map};
use crate::objects::{ObjectMetaModel, OwnerRef, PodTemplateModel, RollingUpdateModel, StrategyModel};
use crate::spec::{DeploymentStrategy, PodConfig};
use crate::strmap::StrMap;
use crate::text::{owned, str_eq};

verus! {

/// Metadata named `name` with the given labels, the operator annotations and one owner.
pub open spec fn meta_is(m: ObjectMetaModel, name: Seq<char>, labels: Map<Seq<char>, Seq<char>>, owner: OwnerRef) -> bool {
    &&& m.name@ == name
    &&& m.namespace is None
    &&& m.labels@ == labels
    &&& m.annotations@ == common_annotations_map()
    &&& m.owner == owner
}

/// Metadata of a managed object.
pub fn object_meta(name: &str, labels: StrMap, owner: &OwnerRef) -> (r: ObjectMetaModel)
    ensures
        meta_is(r, name@, labels@, *owner),
{
    ObjectMetaModel {
        name: owned(name),
        namespace: None,
        labels,
        annotations: common_annotations(),
        owner: owner.clone(),
    }
}

/// `base` with a pod config's extra map merged over it, where the config has one.
pub open spec fn merged(base: Map<Seq<char>, Seq<char>>, extra: Option<StrMap>) -> Map<Seq<char>, Seq<char>> {
    match extra {
        Some(m) => base.union_prefer_right(m@),
        None => base,
    }
}

/// What applying a pod config does to a pod template: the service account,
/// node selector, tolerations and affinity it sets replace the template's, and
/// its extra labels and annotations are merged over the template's.
pub open spec fn pod_config_applied(t0: PodTemplateModel, t1: PodTemplateModel, pc: PodConfig) -> bool {
    &&& t1.labels@ == merged(t0.labels@, pc.pod_labels)
    &&& t1.annotations@ == merged(t0.annotations@, pc.pod_annotations)
    &&& t1.service_account_name == (if pc.service_account_name is Some {
        pc.service_account_name
    } else {
        t0.service_account_name
    })
    &&& (match pc.node_selector {
        Some(ns) => t1.node_selector matches Some(m) && m@ == ns@,
        None => t1.node_selector == t0.node_selector,
    })
    &&& t1.tolerations == (if pc.tolerations is Some { pc.tolerations } else { t0.tolerations })
    &&& t1.affinity == (if pc.affinity is Some { pc.affinity } else { t0.affinity })
    &&& t1.volumes == t0.volumes
    &&& t1.container == t0.container
    &&& t1.image_pull_secrets == t0.image_pull_secrets
}

/// Applies a `PodConfig` to a pod template: scheduling fields that are set
/// replace the template's, extra labels and annotations are merged into its
/// metadata. The pod security context is not applied.
pub fn apply_pod_config(template: &mut PodTemplateModel, pc: &PodConfig)
    ensures
        pod_config_applied(*old(template), *final(template), *pc),
{
    if let Some(sa) = &pc.service_account_name {
        template.service_account_name = Some(sa.clone());
    }
    if let Some(ns) = &pc.node_selector {
        template.node_selector = Some(ns.copy());
    }
    if let Some(t) = &pc.tolerations {
        template.tolerations = Some(t.clone());
    }
    if let Some(a) = &pc.affinity {
        template.affinity = Some(a.clone());
    }
    if let Some(labels) = &pc.pod_labels {
        template.labels.merge(labels);
    }
    if let Some(ann) = &pc.pod_annotations {
        template.annotations.merge(ann);
    }
}

/// A rendered strategy: its type, and for `RollingUpdate` the surge and
/// unavailability bounds when at least one is set.
pub open spec fn strategy_is(r: StrategyModel, s: DeploymentStrategy) -> bool {
    &&& r.type_ == s.type_
    &&& if s.type_@ == "RollingUpdate"@ && (s.max_surge is Some || s.max_unavailable is Some) {
        r.rolling_update matches Some(ru) && ru.max_surge == s.max_surge && ru.max_unavailable
            == s.max_unavailable
    } else {
        r.rolling_update is None
    }
}

/// Renders a Deployment `spec.strategy`. `Recreate` is emitted bare; for
/// `RollingUpdate` the optional bounds go under `rollingUpdate`.
pub fn deployment_strategy(s: &DeploymentStrategy) -> (r: StrategyModel)
    ensures
        strategy_is(r, *s),
{
    let rolling = str_eq(s.type_.as_str(), "RollingUpdate");
    let rolling_update = if rolling && (s.max_surge.is_some() || s.max_unavailable.is_some()) {
        Some(RollingUpdateModel { max_surge: s.max_surge.clone(), max_unavailable: s.max_unavailable.clone() })
    } else {
        None
    };
    StrategyModel { type_: s.type_.clone(), rolling_update }
}

} // verus!
