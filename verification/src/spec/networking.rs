//! How a role is exposed: an Ingress or a Gateway API HTTPRoute.
use vstd::prelude::*;

verus! {

/// Ingress and HTTPRoute are mutually exclusive.
#[derive(Debug, Clone)]
pub struct NetworkingSpec {
    pub ingress: Option<IngressConfig>,
    pub http_route: Option<HttpRouteConfig>,
}

#[derive(Debug, Clone)]
pub struct IngressConfig {
    pub class_name: Option<String>,
    /// Name of a TLS Secret in the same namespace.
    pub tls_secret_name: Option<String>,
}

#[derive(Debug, Clone)]
pub struct HttpRouteConfig {
    /// Gateway to attach this HTTPRoute to (`parentRefs[0]`).
    pub gateway: GatewayRef,
    /// Listener of the gateway that serves plain HTTP; when set, a companion
    /// route there redirects to HTTPS.
    pub https_redirect_section_name: Option<String>,
}

#[derive(Debug, Clone)]
pub struct GatewayRef {
    pub name: String,
    pub namespace: Option<String>,
    /// Listener the primary route is pinned to.
    pub section_name: Option<String>,
}

} // verus!
