//! What a `Single` owns, and the status it reports.
use vstd::prelude::*;
use crate::builders::deployment::{build_deployment, deployment_is, single_env_views, single_mount_views, single_volume_views};
use crate::builders::pvc::{build_data_pvc, pvc_is};
use crate::builders::service::{build_service, service_is, service_type_of};
use crate::error::Error;
use crate::objects::{
    DeploymentModel, OwnerRef, PvcModel, RouteRule, ServiceModel, mount_views, strs_view, volume_views,
};
use crate::builders::volumes::{claim_volume_view, rw_mount};
use crate::reconciler::networking::{
    NetworkingPlan, RoleNetworking, exposed_roles_serve_their_host, networking_plan_is, role_networking_plan,
};
use crate::spec::{SecretKeyRef, Single, SingleStatus};
use crate::spec::meta::name_any_of;
use crate::env::{container_env_views, secret_entry, value_entry};
use crate::labels::selector_labels_map;
use crate::text::{concat2, owned};
use crate::validate::{accepted_single_is_consistent, single_check};

verus! {

/// The child objects of a `Single`, in the order they are applied.
pub struct SinglePlan {
    pub pvc: Option<PvcModel>,
    pub deployment: DeploymentModel,
    pub service: ServiceModel,
    pub networking: Result<NetworkingPlan, Error>,
}

/// A data claim `<name>-data` when persistence is set, the Deployment and Service
/// named after the resource, and its networking.
pub open spec fn single_plan_is(p: SinglePlan, s: Single, key_secret: SecretKeyRef, owner: OwnerRef) -> bool {
    let name = name_any_of(s.metadata);
    let spec = s.spec;
    &&& match spec.persistence {
        Some(pc) => p.pvc matches Some(v) && pvc_is(
            v,
            name + "-data"@,
            name,
            spec.image@,
            "data"@,
            pc.access_mode@,
            pc.size@,
            pc.storage_class_name,
            owner,
        ),
        None => p.pvc is None,
    }
    &&& deployment_is(
        p.deployment,
        name,
        spec.image@,
        "workflow-engine"@,
        Some(spec.replicas),
        single_env_views(spec, key_secret),
        single_volume_views(name, spec),
        single_mount_views(spec),
        None,
        strs_view(spec.image_pull_secrets@),
        spec.resources,
        spec.pod,
        None,
        owner,
    )
    &&& service_is(p.service, name, spec.image@, "workflow-engine"@, service_type_of(spec.service), false, owner)
    &&& networking_plan_is(
        p.networking,
        name,
        spec.image@,
        "workflow-engine"@,
        match spec.host {
            Some(h) => Some(h@),
            None => None,
        },
        spec.networking,
        owner,
    )
}

/// Plans the children of a `Single` given its encryption key.
pub fn single_children_plan(s: &Single, key_secret: &SecretKeyRef, owner: &OwnerRef) -> (p: SinglePlan)
    ensures
        single_plan_is(p, *s, *key_secret, *owner),
{
    let name = s.metadata.name_any();
    let pvc_name = concat2(name.as_str(), "-data");
    let pvc = build_data_pvc(
        pvc_name.as_str(),
        name.as_str(),
        s.spec.image.as_str(),
        s.spec.persistence.as_ref(),
        owner,
    );
    let deployment = build_deployment(name.as_str(), &s.spec, key_secret, owner);
    let service = build_service(name.as_str(), &s.spec, owner);
    let host: Option<&str> = match &s.spec.host {
        Some(h) => Some(h.as_str()),
        None => None,
    };
    let rn = RoleNetworking {
        name: name.as_str(),
        image: s.spec.image.as_str(),
        component: "workflow-engine",
        host,
        net: s.spec.networking.as_ref(),
    };
    let networking = role_networking_plan(&rn, owner);
    SinglePlan { pvc, deployment, service, networking }
}

/// An accepted `Single` always gets a networking plan: the one conflict that
/// refuses a plan is refused by validation first.
pub proof fn accepted_single_has_networking_plan(
    s: Single,
    p: SinglePlan,
    key_secret: SecretKeyRef,
    owner: OwnerRef,
)
    requires
        single_check(s) is Ok,
        single_plan_is(p, s, key_secret, owner),
    ensures
        p.networking is Ok,
{
    accepted_single_is_consistent(s);
}

/// Ready, the desired replica count, the `https://` URL of the host when one is
/// set, and the name of the encryption-key Secret.
pub open spec fn single_status_is(st: SingleStatus, s: Single, key_secret: Seq<char>) -> bool {
    &&& st.ready
    &&& st.replicas == s.spec.replicas
    &&& match s.spec.host {
        Some(h) => st.url matches Some(u) && u@ == "https://"@ + h@,
        None => st.url is None,
    }
    &&& st.encryption_key_secret matches Some(k) && k@ == key_secret
}

/// The status a reconciled `Single` reports.
pub fn single_status(s: &Single, key_secret: &str) -> (st: SingleStatus)
    ensures
        single_status_is(st, *s, key_secret@),
{
    SingleStatus {
        ready: true,
        replicas: s.spec.replicas,
        url: match &s.spec.host {
            Some(h) => Some(concat2("https://", h.as_str())),
            None => None,
        },
        encryption_key_secret: Some(owned(key_secret)),
    }
}

/// The children of a `Single` named `n`: a Deployment `n` running the spec's
/// image with the spec's replica count, whose container reads the encryption
/// key first and carries the database type when a database is set and the
/// selector labels of `n`; a Service `n` of the configured type (`ClusterIP`
/// by default) forwarding port 5678 to the pods' `http` port; a
/// data claim `n-data` of the configured size, access mode and storage class exactly when
/// persistence is set, which the Deployment mounts as `n8n-data` at
/// `/home/node/.n8n`; pods scheduled with the spec's service account,
/// tolerations and affinity; an `n8n` container with the spec's resources, probed on
/// `/healthz`, pulling with the spec's image-pull Secrets; and a status that is
/// ready with the spec's replica count.
pub proof fn single_children_follow_the_spec(
    p: SinglePlan,
    s: Single,
    key_secret: SecretKeyRef,
    owner: OwnerRef,
    st: SingleStatus,
)
    requires
        single_plan_is(p, s, key_secret, owner),
        single_status_is(st, s, key_secret.name@),
    ensures
        ({
            let n = name_any_of(s.metadata);
            let env = container_env_views(p.deployment.template.container.env@);
            &&& p.deployment.meta.name@ == n
            &&& p.deployment.replicas == Some(s.spec.replicas)
            &&& p.deployment.template.container.image@ == s.spec.image@
            &&& p.deployment.template.container.port == 5678
            &&& env[0] == secret_entry("N8N_ENCRYPTION_KEY"@, key_secret)
            &&& (s.spec.database matches Some(db) ==> env.contains(value_entry("DB_TYPE"@, db.type_@)))
            &&& p.deployment.selector@ == selector_labels_map(n)
            &&& p.service.meta.name@ == n
            &&& p.service.selector@ == selector_labels_map(n)
            &&& p.service.port == 5678
            &&& p.service.target_port@ == "http"@
            &&& p.deployment.template.container.port_name@ == "http"@
            &&& (s.spec.service matches Some(sc) ==> p.service.type_@ == sc.type_@)
            &&& (s.spec.service is None ==> p.service.type_@ == "ClusterIP"@)
            &&& (s.spec.persistence matches Some(pc) ==> (p.pvc matches Some(v) && {
                &&& v.meta.name@ == n + "-data"@
                &&& v.storage@ == pc.size@
                &&& strs_view(v.access_modes@) == seq![pc.access_mode@]
                &&& v.storage_class_name == pc.storage_class_name
            }))
            &&& (s.spec.persistence is None ==> p.pvc is None)
            &&& (p.pvc matches Some(v) ==> {
                &&& volume_views(p.deployment.template.volumes@).contains(
                    claim_volume_view("n8n-data"@, v.meta.name@),
                )
                &&& mount_views(p.deployment.template.container.volume_mounts@).contains(
                    rw_mount("n8n-data"@, "/home/node/.n8n"@),
                )
            })
            &&& p.deployment.template.container.name@ == "n8n"@
            &&& p.deployment.template.container.probe_path@ == "/healthz"@
            &&& p.deployment.template.container.resources == s.spec.resources
            &&& (s.spec.pod matches Some(pc) ==> {
                &&& p.deployment.template.service_account_name == pc.service_account_name
                &&& p.deployment.template.tolerations == pc.tolerations
                &&& p.deployment.template.affinity == pc.affinity
            })
            &&& strs_view(p.deployment.template.image_pull_secrets@) == strs_view(s.spec.image_pull_secrets@)
            &&& st.ready
            &&& st.replicas == s.spec.replicas
            &&& st.encryption_key_secret matches Some(k) && k@ == key_secret.name@
        }),
{
    let env = container_env_views(p.deployment.template.container.env@);
    if let Some(db) = s.spec.database {
        assert(env[1] == value_entry("DB_TYPE"@, db.type_@));
    }
    if let Some(v) = p.pvc {
        let n = name_any_of(s.metadata);
        let vols = single_volume_views(n, s.spec);
        let mounts = single_mount_views(s.spec);
        assert(vols[vols.len() - 1] == claim_volume_view("n8n-data"@, v.meta.name@));
        assert(mounts[mounts.len() - 1] == rw_mount("n8n-data"@, "/home/node/.n8n"@));
    }
}

/// A `Single` exposed at its host sends it to its own Service: its Ingress or
/// primary HTTPRoute matches the host and forwards to the Service's port.
pub proof fn exposed_single_reaches_its_service(p: SinglePlan, s: Single, key_secret: SecretKeyRef, owner: OwnerRef)
    requires
        single_plan_is(p, s, key_secret, owner),
    ensures
        s.spec.host matches Some(h) ==> (s.spec.networking matches Some(net) ==> (!(net.ingress is Some
            && net.http_route is Some) ==> {
            &&& p.networking is Ok
            &&& (p.networking->Ok_0.ingress matches Some(i) ==> i.host@ == h@ && i.service_name@
                == p.service.meta.name@ && i.service_port == p.service.port)
            &&& (p.networking->Ok_0.route matches Some(rp) ==> strs_view(rp.primary.hostnames@) == seq![h@]
                && (rp.primary.rule matches RouteRule::Backend { name: bn, port } && bn@ == p.service.meta.name@
                && port == p.service.port))
        })),
{
    if let Some(h) = s.spec.host {
        if let Some(net) = s.spec.networking {
            if !(net.ingress is Some && net.http_route is Some) {
                exposed_roles_serve_their_host(
                    p.networking,
                    name_any_of(s.metadata),
                    s.spec.image@,
                    "workflow-engine"@,
                    h@,
                    net,
                    owner,
                );
            }
        }
    }
}

} // verus!
