//! Services in front of each role.
use vstd::prelude::*;
use crate::builders::{meta_is, object_meta};
use crate::labels::{common_labels, common_labels_map, selector_labels, selector_labels_map};
use crate::objects::{OwnerRef, ServiceModel};
use crate::spec::{ServiceConfig, SingleSpec, default_service_type};
use crate::text::owned;

verus! {

/// A Service named `name` for a role: full labels, the selector labels, port
/// 5678 named `http` targeting the `http` container port over TCP, the given
/// type, and `ClientIP` session affinity when asked for.
pub open spec fn service_is(
    s: ServiceModel,
    name: Seq<char>,
    image: Seq<char>,
    component: Seq<char>,
    svc_type: Seq<char>,
    session_affinity: bool,
    owner: OwnerRef,
) -> bool {
    &&& meta_is(s.meta, name, common_labels_map(name, image, component), owner)
    &&& s.selector@ == selector_labels_map(name)
    &&& s.port_name@ == "http"@
    &&& s.port == 5678
    &&& s.target_port@ == "http"@
    &&& s.protocol@ == "TCP"@
    &&& s.type_@ == svc_type
    &&& (if session_affinity {
        s.session_affinity matches Some(a) && a@ == "ClientIP"@
    } else {
        s.session_affinity is None
    })
}

/// The Service type a service block asks for, `ClusterIP` without one.
pub open spec fn service_type_of(svc: Option<ServiceConfig>) -> Seq<char> {
    match svc {
        Some(s) => s.type_@,
        None => "ClusterIP"@,
    }
}

fn service_with_labels(
    name: &str,
    image: &str,
    component: &str,
    svc_type: String,
    session_affinity: bool,
    owner: &OwnerRef,
) -> (s: ServiceModel)
    ensures
        service_is(s, name@, image@, component@, svc_type@, session_affinity, *owner),
{
    ServiceModel {
        meta: object_meta(name, common_labels(name, image, component), owner),
        selector: selector_labels(name),
        port_name: owned("http"),
        port: 5678,
        target_port: owned("http"),
        protocol: owned("TCP"),
        type_: svc_type,
        session_affinity: if session_affinity {
            Some(owned("ClientIP"))
        } else {
            None
        },
    }
}

/// The Service of a `Single` (component `workflow-engine`, no session affinity).
pub fn build_service(name: &str, spec: &SingleSpec, owner: &OwnerRef) -> (s: ServiceModel)
    ensures
        service_is(s, name@, spec.image@, "workflow-engine"@, service_type_of(spec.service), false, *owner),
{
    let svc_type = match &spec.service {
        Some(s) => s.type_.clone(),
        None => default_service_type(),
    };
    service_with_labels(name, spec.image.as_str(), "workflow-engine", svc_type, false, owner)
}

/// The Service of a cluster role.
pub fn build_cluster_service(
    name: &str,
    image: &str,
    component: &str,
    svc: Option<&ServiceConfig>,
    session_affinity: bool,
    owner: &OwnerRef,
) -> (s: ServiceModel)
    ensures
        service_is(
            s,
            name@,
            image@,
            component@,
            service_type_of(
                match svc {
                    Some(c) => Some(*c),
                    None => None,
                },
            ),
            session_affinity,
            *owner,
        ),
{
    let svc_type = match svc {
        Some(s) => s.type_.clone(),
        None => default_service_type(),
    };
    service_with_labels(name, image, component, svc_type, session_affinity, owner)
}

} // verus!
