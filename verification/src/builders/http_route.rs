//! Gateway API HTTPRoutes.
use vstd::prelude::*;
use crate::builders::{meta_is, object_meta};
use crate::labels::{common_labels, common_labels_map};
use crate::objects::{ApiGroup, HttpRouteModel, OwnerRef, ParentRefModel, RouteRule, strs_view};
use crate::spec::{GatewayRef, HttpRouteConfig};
use crate::text::{concat2, owned, str_eq};

verus! {

/// Whether `group` is among the served API groups with version `v1`.
pub open spec fn group_serves_v1(groups: Seq<ApiGroup>, group: Seq<char>) -> bool {
    exists|i: int|
        0 <= i < groups.len() && (#[trigger] groups[i]).name@ == group && exists|j: int|
            0 <= j < groups[i].versions@.len() && (#[trigger] groups[i].versions@[j])@ == "v1"@
}

fn has_v1(versions: &Vec<String>) -> (r: bool)
    ensures
        r == exists|j: int| 0 <= j < versions@.len() && (#[trigger] versions@[j])@ == "v1"@,
{
    let n = versions.len();
    let mut j: usize = 0;
    while j < n
        invariant
            n == versions@.len(),
            j <= n,
            forall|k: int| 0 <= k < j ==> versions@[k]@ != "v1"@,
        decreases n - j,
    {
        if str_eq(versions[j].as_str(), "v1") {
            return true;
        }
        j = j + 1;
    }
    false
}

/// Whether the cluster serves `group` at version `v1`.
pub fn serves_v1(groups: &[ApiGroup], group: &str) -> (r: bool)
    ensures
        r == group_serves_v1(groups@, group@),
{
    let n = groups.len();
    let mut i: usize = 0;
    while i < n
        invariant
            n == groups@.len(),
            i <= n,
            forall|k: int| 0 <= k < i ==> !((#[trigger] groups@[k]).name@ == group@ && exists|j: int|
                0 <= j < groups@[k].versions@.len() && (#[trigger] groups@[k].versions@[j])@ == "v1"@),
        decreases n - i,
    {
        if str_eq(groups[i].name.as_str(), group) && has_v1(&groups[i].versions) {
            return true;
        }
        i = i + 1;
    }
    false
}

/// Whether the cluster serves `gateway.networking.k8s.io/v1`, where HTTPRoute lives.
pub fn gateway_v1_served(groups: &[ApiGroup]) -> (r: bool)
    ensures
        r == group_serves_v1(groups@, "gateway.networking.k8s.io"@),
{
    serves_v1(groups, "gateway.networking.k8s.io")
}

/// What a role's HTTPRoute is built for.
pub struct RouteTarget<'a> {
    pub name: &'a str,
    pub image: &'a str,
    pub host: &'a str,
    pub cfg: &'a HttpRouteConfig,
}

/// The name of a route's companion redirect route.
pub fn redirect_name(name: &str) -> (r: String)
    ensures
        r@ == name@ + "-redirect"@,
{
    concat2(name, "-redirect")
}

/// A Gateway parent reference, pinned to a listener when `section` is given.
pub open spec fn parent_is(p: ParentRefModel, gw: GatewayRef, section: Option<Seq<char>>) -> bool {
    &&& p.name == gw.name
    &&& p.kind@ == "Gateway"@
    &&& p.group@ == "gateway.networking.k8s.io"@
    &&& p.namespace == gw.namespace
    &&& match section {
        Some(s) => p.section_name matches Some(v) && v@ == s,
        None => p.section_name is None,
    }
}

/// `parentRefs[0]` for a Gateway, optionally pinned to a listener.
pub fn gateway_parent(gw: &GatewayRef, section: Option<&str>) -> (r: ParentRefModel)
    ensures
        parent_is(
            r,
            *gw,
            match section {
                Some(s) => Some(s@),
                None => None,
            },
        ),
{
    ParentRefModel {
        name: gw.name.clone(),
        kind: owned("Gateway"),
        group: owned("gateway.networking.k8s.io"),
        namespace: gw.namespace.clone(),
        section_name: match section {
            Some(s) => Some(owned(s)),
            None => None,
        },
    }
}

/// The routes of a role: the primary one, and the companion redirect route
/// when a plain-HTTP listener is configured (otherwise a stale one named
/// `redirect_name` is removed).
pub struct RoutePlan {
    pub primary: HttpRouteModel,
    pub redirect_name: String,
    pub redirect: Option<HttpRouteModel>,
}

/// The primary route forwards `host` to port 5678 of the Service `name`,
/// pinned to the gateway's listener when one is named; the redirect route
/// answers `host` on the plain-HTTP listener with a 301 to `https`.
pub open spec fn route_plan_is(p: RoutePlan, name: Seq<char>, image: Seq<char>, host: Seq<char>, cfg: HttpRouteConfig, owner: OwnerRef) -> bool {
    let gw = cfg.gateway;
    let rname = name + "-redirect"@;
    &&& meta_is(p.primary.meta, name, common_labels_map(name, image, "http-route"@), owner)
    &&& parent_is(p.primary.parent, gw, match gw.section_name {
        Some(s) => Some(s@),
        None => None,
    })
    &&& strs_view(p.primary.hostnames@) == seq![host]
    &&& (p.primary.rule matches RouteRule::Backend { name: b, port } && b@ == name && port == 5678)
    &&& p.redirect_name@ == rname
    &&& match cfg.https_redirect_section_name {
        Some(sec) => p.redirect matches Some(r) && {
            &&& meta_is(r.meta, rname, common_labels_map(rname, image, "http-redirect"@), owner)
            &&& parent_is(r.parent, gw, Some(sec@))
            &&& strs_view(r.hostnames@) == seq![host]
            &&& (r.rule matches RouteRule::Redirect { scheme, status_code } && scheme@ == "https"@
                && status_code == 301)
        },
        None => p.redirect is None,
    }
}

fn host_list(host: &str) -> (r: Vec<String>)
    ensures
        strs_view(r@) == seq![host@],
{
    let mut v: Vec<String> = Vec::new();
    v.push(owned(host));
    assert(strs_view(v@) =~= seq![host@]);
    v
}

/// The HTTPRoutes of a role.
pub fn http_route_plan(target: &RouteTarget, owner: &OwnerRef) -> (p: RoutePlan)
    ensures
        route_plan_is(p, target.name@, target.image@, target.host@, *target.cfg, *owner),
{
    let gw = &target.cfg.gateway;
    let section: Option<&str> = match &gw.section_name {
        Some(s) => Some(s.as_str()),
        None => None,
    };
    let primary = HttpRouteModel {
        meta: object_meta(target.name, common_labels(target.name, target.image, "http-route"), owner),
        parent: gateway_parent(gw, section),
        hostnames: host_list(target.host),
        rule: RouteRule::Backend { name: owned(target.name), port: 5678 },
    };
    let rname = redirect_name(target.name);
    let redirect = match &target.cfg.https_redirect_section_name {
        Some(http_section) => Some(
            HttpRouteModel {
                meta: object_meta(rname.as_str(), common_labels(rname.as_str(), target.image, "http-redirect"), owner),
                parent: gateway_parent(gw, Some(http_section.as_str())),
                hostnames: host_list(target.host),
                rule: RouteRule::Redirect { scheme: owned("https"), status_code: 301 },
            },
        ),
        None => None,
    };
    RoutePlan { primary, redirect_name: rname, redirect }
}

} // verus!
