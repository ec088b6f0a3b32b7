//! The worker autoscaler.
use vstd::prelude::*;
use crate::builders::{meta_is, object_meta};
use crate::labels::{common_labels, common_labels_map};
use crate::objects::{HpaModel, OwnerRef};
use crate::spec::Autoscaling;
use crate::text::owned;

verus! {

/// An HPA named `name` scaling the Deployment `name` between the configured
/// bounds on average CPU utilisation (70 percent unless configured).
pub open spec fn hpa_is(h: HpaModel, name: Seq<char>, image: Seq<char>, a: Autoscaling, owner: OwnerRef) -> bool {
    &&& meta_is(h.meta, name, common_labels_map(name, image, "worker"@), owner)
    &&& h.target_api_version@ == "apps/v1"@
    &&& h.target_kind@ == "Deployment"@
    &&& h.target_name@ == name
    &&& h.min_replicas == a.min_replicas
    &&& h.max_replicas == a.max_replicas
    &&& h.cpu_utilization == match a.target_cpu_utilization_percentage {
        Some(c) => c,
        None => 70i32,
    }
}

/// The worker HorizontalPodAutoscaler.
pub fn build_worker_hpa(name: &str, image: &str, autoscaling: &Autoscaling, owner: &OwnerRef) -> (h: HpaModel)
    ensures
        hpa_is(h, name@, image@, *autoscaling, *owner),
{
    let cpu = match autoscaling.target_cpu_utilization_percentage {
        Some(c) => c,
        None => 70,
    };
    HpaModel {
        meta: object_meta(name, common_labels(name, image, "worker"), owner),
        target_api_version: owned("apps/v1"),
        target_kind: owned("Deployment"),
        target_name: owned(name),
        min_replicas: autoscaling.min_replicas,
        max_replicas: autoscaling.max_replicas,
        cpu_utilization: cpu,
    }
}

} // verus!
