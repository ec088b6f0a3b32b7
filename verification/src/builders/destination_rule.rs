//! Istio DestinationRules for sticky sessions in front of a multi-main setup.
use vstd::prelude::*;
use crate::builders::{meta_is, object_meta};
use crate::builders::http_route::{group_serves_v1, serves_v1};
use crate::labels::{common_labels, common_labels_map};
use crate::objects::{ApiGroup, DestinationRuleModel, OwnerRef};
use crate::text::{concat3, owned};

verus! {

/// Whether the cluster serves `networking.istio.io/v1`, where DestinationRule lives.
pub fn destination_rule_v1_served(groups: &[ApiGroup]) -> (r: bool)
    ensures
        r == group_serves_v1(groups@, "networking.istio.io"@),
{
    serves_v1(groups, "networking.istio.io")
}

/// A DestinationRule named `name` for the Service's in-cluster host, hashing
/// on the `n8n-route` cookie with a one-hour TTL.
pub open spec fn destination_rule_is(d: DestinationRuleModel, name: Seq<char>, image: Seq<char>, ns: Seq<char>, owner: OwnerRef) -> bool {
    &&& meta_is(d.meta, name, common_labels_map(name, image, "main"@), owner)
    &&& d.host@ == name + "."@ + ns + ".svc.cluster.local"@
    &&& d.cookie_name@ == "n8n-route"@
    &&& d.cookie_ttl@ == "3600s"@
}

/// The cookie-based consistent-hash DestinationRule of the main role.
pub fn build_destination_rule(name: &str, image: &str, ns: &str, owner: &OwnerRef) -> (d: DestinationRuleModel)
    ensures
        destination_rule_is(d, name@, image@, ns@, *owner),
{
    let head = concat3(name, ".", ns);
    let host = head.concat(".svc.cluster.local");
    DestinationRuleModel {
        meta: object_meta(name, common_labels(name, image, "main"), owner),
        host,
        cookie_name: owned("n8n-route"),
        cookie_ttl: owned("3600s"),
    }
}

} // verus!
