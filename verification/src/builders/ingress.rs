//! Ingresses.
use vstd::prelude::*;
use crate::builders::{meta_is, object_meta};
use crate::labels::{common_labels, common_labels_map};
use crate::objects::{IngressModel, IngressTls, OwnerRef};
use crate::spec::IngressConfig;
use crate::text::owned;

verus! {

/// An Ingress named `name` labelled with `component`: the configured class,
/// prefix `/` on `host` to port 5678 of the Service `name`, and TLS for `host`
/// with the configured Secret when one is named.
pub open spec fn ingress_is(
    i: IngressModel,
    name: Seq<char>,
    image: Seq<char>,
    component: Seq<char>,
    host: Seq<char>,
    cfg: IngressConfig,
    owner: OwnerRef,
) -> bool {
    &&& meta_is(i.meta, name, common_labels_map(name, image, component), owner)
    &&& i.class_name == cfg.class_name
    &&& i.host@ == host
    &&& i.path@ == "/"@
    &&& i.path_type@ == "Prefix"@
    &&& i.service_name@ == name
    &&& i.service_port == 5678
    &&& (match cfg.tls_secret_name {
        Some(t) => i.tls matches Some(tls) && tls.host@ == host && tls.secret_name == t,
        None => i.tls is None,
    })
}

/// An Ingress labelled with the given component.
pub fn ingress_with_component(
    name: &str,
    image: &str,
    component: &str,
    host: &str,
    cfg: &IngressConfig,
    owner: &OwnerRef,
) -> (i: IngressModel)
    ensures
        ingress_is(i, name@, image@, component@, host@, *cfg, *owner),
{
    IngressModel {
        meta: object_meta(name, common_labels(name, image, component), owner),
        class_name: cfg.class_name.clone(),
        host: owned(host),
        path: owned("/"),
        path_type: owned("Prefix"),
        service_name: owned(name),
        service_port: 5678,
        tls: match &cfg.tls_secret_name {
            Some(t) => Some(IngressTls { host: owned(host), secret_name: t.clone() }),
            None => None,
        },
    }
}

/// The Ingress of a role, labelled with component `ingress`.
pub fn build_ingress(name: &str, image: &str, host: &str, cfg: &IngressConfig, owner: &OwnerRef) -> (i:
    IngressModel)
    ensures
        ingress_is(i, name@, image@, "ingress"@, host@, *cfg, *owner),
{
    ingress_with_component(name, image, "ingress", host, cfg, owner)
}

} // verus!
