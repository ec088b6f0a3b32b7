//! How a role is exposed: which Ingress and HTTPRoutes it should have.
use vstd::prelude::*;
use crate::builders::http_route::{RoutePlan, RouteTarget, http_route_plan, route_plan_is};
use crate::builders::ingress::{ingress_is, ingress_with_component};
use crate::error::{Error, ErrorView};
use crate::objects::{IngressModel, OwnerRef, RouteRule, strs_view};
use crate::spec::NetworkingSpec;
use crate::text::concat2;

verus! {

/// A role whose networking is reconciled.
pub struct RoleNetworking<'a> {
    pub name: &'a str,
    pub image: &'a str,
    pub component: &'a str,
    pub host: Option<&'a str>,
    pub net: Option<&'a NetworkingSpec>,
}

/// The desired exposure of a role. Without an Ingress, an existing one of the
/// role's name is deleted; without a route plan, the role's routes are removed
/// on a best-effort basis.
pub struct NetworkingPlan {
    pub ingress: Option<IngressModel>,
    pub route: Option<RoutePlan>,
}

/// The host the role is reached at, empty when none is set.
pub open spec fn host_or_empty(host: Option<Seq<char>>) -> Seq<char> {
    match host {
        Some(h) => h,
        None => Seq::empty(),
    }
}

/// Both an Ingress and an HTTPRoute are refused; otherwise the Ingress, labelled
/// `<component>-ingress`, and the routes follow the networking block.
pub open spec fn networking_plan_is(
    r: Result<NetworkingPlan, Error>,
    name: Seq<char>,
    image: Seq<char>,
    component: Seq<char>,
    host: Option<Seq<char>>,
    net: Option<NetworkingSpec>,
    owner: OwnerRef,
) -> bool {
    let h = host_or_empty(host);
    let conflict = match net {
        Some(n) => n.ingress is Some && n.http_route is Some,
        None => false,
    };
    if conflict {
        r matches Err(e) && e@ == ErrorView::ConflictingNetworking
    } else {
        r is Ok && {
            let p = r->Ok_0;
            &&& match net {
                Some(n) => match n.ingress {
                    Some(cfg) => p.ingress matches Some(i) && ingress_is(i, name, image, component + "-ingress"@, h, cfg, owner),
                    None => p.ingress is None,
                },
                None => p.ingress is None,
            }
            &&& match net {
                Some(n) => match n.http_route {
                    Some(cfg) => p.route matches Some(rp) && route_plan_is(rp, name, image, h, cfg, owner),
                    None => p.route is None,
                },
                None => p.route is None,
            }
        }
    }
}

/// Plans a role's Ingress and HTTPRoutes.
pub fn role_networking_plan(rn: &RoleNetworking, owner: &OwnerRef) -> (r: Result<NetworkingPlan, Error>)
    ensures
        networking_plan_is(
            r,
            rn.name@,
            rn.image@,
            rn.component@,
            match rn.host {
                Some(h) => Some(h@),
                None => None,
            },
            match rn.net {
                Some(n) => Some(*n),
                None => None,
            },
            *owner,
        ),
{
    let host: &str = match rn.host {
        Some(h) => h,
        None => "",
    };
    proof {
        reveal_strlit("");
    }
    assert(host@ == host_or_empty(
        match rn.host {
            Some(h) => Some(h@),
            None => None,
        },
    ));
    match rn.net {
        None => Ok(NetworkingPlan { ingress: None, route: None }),
        Some(net) => {
            if net.ingress.is_some() && net.http_route.is_some() {
                return Err(Error::ConflictingNetworking);
            }
            let ingress = match &net.ingress {
                Some(cfg) => {
                    let component = concat2(rn.component, "-ingress");
                    Some(ingress_with_component(rn.name, rn.image, component.as_str(), host, cfg, owner))
                },
                None => None,
            };
            let route = match &net.http_route {
                Some(cfg) => {
                    let target = RouteTarget { name: rn.name, image: rn.image, host, cfg };
                    Some(http_route_plan(&target, owner))
                },
                None => None,
            };
            Ok(NetworkingPlan { ingress, route })
        },
    }
}

/// A role exposed at host `h` is routed there: its Ingress (named after the
/// role, with the configured class) matches `/` on `h` (with TLS for `h` from
/// the named Secret when one is named) and sends it to port 5678 of the role's
/// Service; its HTTPRoutes hang off the configured Gateway and list exactly
/// `h`, the primary one (named after the role, on the Gateway's listener)
/// forwarding to port 5678 of the role's Service and the redirect one (named
/// `<role>-redirect`, on the plain-HTTP listener) answering with a 301 to
/// `https`.
pub proof fn exposed_roles_serve_their_host(
    r: Result<NetworkingPlan, Error>,
    name: Seq<char>,
    image: Seq<char>,
    component: Seq<char>,
    h: Seq<char>,
    net: NetworkingSpec,
    owner: OwnerRef,
)
    requires
        networking_plan_is(r, name, image, component, Some(h), Some(net), owner),
        !(net.ingress is Some && net.http_route is Some),
    ensures
        r is Ok,
        net.ingress matches Some(cfg) ==> (r->Ok_0.ingress matches Some(i) && {
            &&& i.meta.name@ == name
            &&& i.class_name == cfg.class_name
            &&& i.host@ == h
            &&& i.path@ == "/"@
            &&& i.service_name@ == name
            &&& i.service_port == 5678
            &&& (cfg.tls_secret_name is Some <==> i.tls is Some)
            &&& (i.tls matches Some(t) ==> t.host@ == h && Some(t.secret_name) == cfg.tls_secret_name)
        }),
        net.ingress is None ==> r->Ok_0.ingress is None,
        net.http_route matches Some(cfg) ==> (r->Ok_0.route matches Some(rp) && {
            &&& rp.primary.meta.name@ == name
            &&& rp.primary.parent.name@ == cfg.gateway.name@
            &&& rp.primary.parent.namespace == cfg.gateway.namespace
            &&& (match cfg.gateway.section_name {
                Some(sec) => rp.primary.parent.section_name matches Some(v) && v@ == sec@,
                None => rp.primary.parent.section_name is None,
            })
            &&& strs_view(rp.primary.hostnames@) == seq![h]
            &&& (rp.primary.rule matches RouteRule::Backend { name: b, port } && b@ == name && port == 5678)
            &&& (cfg.https_redirect_section_name is Some <==> rp.redirect is Some)
            &&& (rp.redirect matches Some(rr) ==> {
                &&& rr.meta.name@ == name + "-redirect"@
                &&& rr.parent.name@ == cfg.gateway.name@
                &&& (cfg.https_redirect_section_name matches Some(sec) && rr.parent.section_name matches Some(v)
                    && v@ == sec@)
                &&& strs_view(rr.hostnames@) == seq![h]
                &&& (rr.rule matches RouteRule::Redirect { scheme, status_code } && scheme@ == "https"@
                    && status_code == 301)
            })
        }),
        net.http_route is None ==> r->Ok_0.route is None,
{
}

} // verus!
