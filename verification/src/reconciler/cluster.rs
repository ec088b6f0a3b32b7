//! What a `Cluster` owns: the shared bundle, its main, worker and webhook
//! roles, and the status it reports.
use vstd::prelude::*;
use crate::builders::deployment::{DeploymentInputs, build_cluster_deployment, deployment_is};
use crate::builders::destination_rule::{build_destination_rule, destination_rule_is};
use crate::builders::hpa::{build_worker_hpa, hpa_is};
use crate::builders::pvc::{build_data_pvc, build_shared_pvc, pvc_is};
use crate::builders::service::{build_cluster_service, service_is, service_type_of};
use crate::builders::volumes::{
    build_binary_data_volume, build_db_volumes, build_nodes_volume, build_persistence_volume,
    claim_volume_view, db_mount_views, db_volume_views, rw_mount,
};
use crate::env::{
    ContainerEnv, ContainerEnvView, build_user_env, cluster_role_defaults, cluster_role_defaults_views,
    container_env_views, env_str, env_u64, env_var_views, layered_env, push_env, secret_entry, str_entry, user_layers, value_entry,
};
use crate::env::redis::{build_cluster_common_env, cluster_common_env_views};
use crate::env::storage::BINARY_DATA_STORAGE_PATH;
use crate::error::Error;
use crate::objects::{
    DeploymentModel, DestinationRuleModel, HpaModel, MountView, OwnerRef, PvcModel, ServiceModel, Volume,
    VolumeMount, VolumeView, mount_views, strs_view, volume_views,
};
use crate::reconciler::networking::{
    NetworkingPlan, RoleNetworking, exposed_roles_serve_their_host, networking_plan_is, role_networking_plan,
};
use crate::objects::RouteRule;
use crate::spec::{Cluster, ClusterStatus, SecretKeyRef};
use crate::text::{concat2, decimal, owned};

verus! {

/// Env, volumes and mounts shared by every role of a cluster.
pub struct Bundle {
    pub env: Vec<ContainerEnv>,
    pub volumes: Vec<Volume>,
    pub mounts: Vec<VolumeMount>,
}

/// The shared bundle and the shared claims behind its volumes.
pub struct BundlePlan {
    /// `<name>-nodes`, when community nodes use a shared volume.
    pub nodes_pvc: Option<PvcModel>,
    /// `<name>-binary-data`, when binary data uses a shared volume.
    pub binary_data_pvc: Option<PvcModel>,
    pub bundle: Bundle,
}

/// Whether community nodes are shared through a volume.
pub open spec fn nodes_shared(c: Cluster) -> bool {
    c.spec.community_nodes matches Some(cn) && cn.shared_storage is Some
}

/// Whether binary data is shared through a volume.
pub open spec fn binary_data_shared(c: Cluster) -> bool {
    c.spec.binary_data matches Some(bd) && bd.shared_storage is Some
}

/// The shared volumes: database certificate files, then the community-nodes
/// claim and the binary-data claim when shared.
pub open spec fn bundle_volume_views(c: Cluster, name: Seq<char>) -> Seq<VolumeView> {
    db_volume_views(c.spec.database) + (if nodes_shared(c) {
        seq![claim_volume_view("n8n-nodes"@, name + "-nodes"@)]
    } else {
        Seq::empty()
    }) + (if binary_data_shared(c) {
        seq![claim_volume_view("n8n-binary-data"@, name + "-binary-data"@)]
    } else {
        Seq::empty()
    })
}

/// The mounts matching `bundle_volume_views`.
pub open spec fn bundle_mount_views(c: Cluster) -> Seq<MountView> {
    db_mount_views(c.spec.database) + (if nodes_shared(c) {
        seq![rw_mount("n8n-nodes"@, "/home/node/.n8n/nodes"@)]
    } else {
        Seq::empty()
    }) + (if binary_data_shared(c) {
        seq![rw_mount("n8n-binary-data"@, BINARY_DATA_STORAGE_PATH@)]
    } else {
        Seq::empty()
    })
}

/// The shared env, volumes and mounts, and the shared claims labelled `nodes`.
pub open spec fn bundle_plan_is(p: BundlePlan, c: Cluster, name: Seq<char>, key_secret: SecretKeyRef, owner: OwnerRef) -> bool {
    &&& container_env_views(p.bundle.env@) == cluster_common_env_views(c, key_secret)
    &&& volume_views(p.bundle.volumes@) == bundle_volume_views(c, name)
    &&& mount_views(p.bundle.mounts@) == bundle_mount_views(c)
    &&& if nodes_shared(c) {
        let st = c.spec.community_nodes->0.shared_storage->0;
        p.nodes_pvc matches Some(v) && pvc_is(v, name + "-nodes"@, name, c.spec.image@, "nodes"@, st.access_mode@, st.size@, st.storage_class_name, owner)
    } else {
        p.nodes_pvc is None
    }
    &&& if binary_data_shared(c) {
        let st = c.spec.binary_data->0.shared_storage->0;
        p.binary_data_pvc matches Some(v) && pvc_is(v, name + "-binary-data"@, name, c.spec.image@, "nodes"@, st.access_mode@, st.size@, st.storage_class_name, owner)
    } else {
        p.binary_data_pvc is None
    }
}

/// Plans the bundle every role of the cluster `name` shares.
pub fn cluster_bundle(c: &Cluster, name: &str, key_secret: &SecretKeyRef, owner: &OwnerRef) -> (p: BundlePlan)
    ensures
        bundle_plan_is(p, *c, name@, *key_secret, *owner),
{
    let (mut volumes, mut mounts) = build_db_volumes(name, &c.spec.database);
    let ghost v0 = volume_views(volumes@);
    let ghost m0 = mount_views(mounts@);
    let mut nodes_pvc: Option<PvcModel> = None;
    if let Some(cn) = &c.spec.community_nodes {
        if let Some(storage) = &cn.shared_storage {
            let pvc_name = concat2(name, "-nodes");
            nodes_pvc = Some(build_shared_pvc(pvc_name.as_str(), name, c.spec.image.as_str(), storage, owner));
            let (v, m) = build_nodes_volume(pvc_name.as_str());
            volumes.push(v);
            mounts.push(m);
        }
    }
    let ghost v1 = volume_views(volumes@);
    let ghost m1 = mount_views(mounts@);
    assert(v1 =~= v0 + (if nodes_shared(*c) {
        seq![claim_volume_view("n8n-nodes"@, name@ + "-nodes"@)]
    } else {
        Seq::empty()
    }));
    assert(m1 =~= m0 + (if nodes_shared(*c) {
        seq![rw_mount("n8n-nodes"@, "/home/node/.n8n/nodes"@)]
    } else {
        Seq::empty()
    }));
    let mut binary_data_pvc: Option<PvcModel> = None;
    if let Some(bd) = &c.spec.binary_data {
        if let Some(storage) = &bd.shared_storage {
            let pvc_name = concat2(name, "-binary-data");
            binary_data_pvc = Some(build_shared_pvc(pvc_name.as_str(), name, c.spec.image.as_str(), storage, owner));
            let (v, m) = build_binary_data_volume(pvc_name.as_str());
            volumes.push(v);
            mounts.push(m);
        }
    }
    assert(volume_views(volumes@) =~= bundle_volume_views(*c, name@));
    assert(mount_views(mounts@) =~= bundle_mount_views(*c));
    let env = build_cluster_common_env(c, key_secret);
    BundlePlan { nodes_pvc, binary_data_pvc, bundle: Bundle { env, volumes, mounts } }
}

/// The image of a role: its own when set, else the cluster's.
pub open spec fn role_image(own: Option<String>, c: Cluster) -> Seq<char> {
    match own {
        Some(i) => i@,
        None => c.spec.image@,
    }
}

fn image_of(own: &Option<String>, c: &Cluster) -> (r: String)
    ensures
        r@ == role_image(*own, *c),
{
    match own {
        Some(i) => i.clone(),
        None => c.spec.image.clone(),
    }
}

/// Multi-main HA env: `N8N_MULTI_MAIN_SETUP_ENABLED=true` with the optional key
/// TTL and check interval; nothing unless multi-main is active.
pub open spec fn multi_main_env_views(c: Cluster, enabled: bool) -> Seq<ContainerEnvView> {
    if !enabled {
        Seq::empty()
    } else {
        seq![str_entry("N8N_MULTI_MAIN_SETUP_ENABLED"@, "true"@)] + (match c.spec.main.multi_main_key_ttl {
            Some(t) => seq![value_entry("N8N_MULTI_MAIN_SETUP_KEY_TTL"@, decimal(t as nat))],
            None => Seq::empty(),
        }) + (match c.spec.main.multi_main_check_interval {
            Some(i) => seq![value_entry("N8N_MULTI_MAIN_SETUP_CHECK_INTERVAL"@, decimal(i as nat))],
            None => Seq::empty(),
        })
    }
}

/// Multi-main HA env for the main role.
pub fn multi_main_env(c: &Cluster, enabled: bool) -> (r: Vec<ContainerEnv>)
    ensures
        container_env_views(r@) == multi_main_env_views(*c, enabled),
{
    let mut out: Vec<ContainerEnv> = Vec::new();
    if enabled {
        push_env(&mut out, env_str("N8N_MULTI_MAIN_SETUP_ENABLED", "true"));
        if let Some(ttl) = c.spec.main.multi_main_key_ttl {
            push_env(&mut out, env_u64("N8N_MULTI_MAIN_SETUP_KEY_TTL", ttl as u64));
        }
        if let Some(iv) = c.spec.main.multi_main_check_interval {
            push_env(&mut out, env_u64("N8N_MULTI_MAIN_SETUP_CHECK_INTERVAL", iv as u64));
        }
    }
    assert(container_env_views(out@) =~= multi_main_env_views(*c, enabled));
    out
}

fn copy_env(src: &Vec<ContainerEnv>) -> (r: Vec<ContainerEnv>)
    ensures
        r@ == src@,
{
    crate::copy::copy_all(src.as_slice())
}

/// The main role: `<cluster>-main`.
pub struct MainPlan {
    pub name: String,
    pub pvc: Option<PvcModel>,
    pub deployment: DeploymentModel,
    pub service: ServiceModel,
    /// More than one main: multi-main HA with sticky sessions.
    pub multi_main: bool,
    /// Applied when multi-main is active; otherwise one of this name is removed.
    pub destination_rule: Option<DestinationRuleModel>,
    pub networking: Result<NetworkingPlan, Error>,
}

/// The env of the main role: the shared env, multi-main HA, the production
/// webhook offload when a webhook role exists, then its user layers.
pub open spec fn main_env_views(c: Cluster, bundle_env: Seq<ContainerEnvView>) -> Seq<ContainerEnvView> {
    let m = c.spec.main;
    bundle_env + multi_main_env_views(c, m.replicas > 1) + (if c.spec.webhooks is Some {
        seq![str_entry("N8N_DISABLE_PRODUCTION_MAIN_PROCESS"@, "true"@)]
    } else {
        Seq::empty()
    }) + layered_env(
        user_layers(
            cluster_role_defaults_views(c, match m.host {
                Some(h) => Some(h@),
                None => None,
            }, m.networking),
            c.spec.secure_cookie,
            c.spec.extra_env@,
            m.extra_env@,
        ),
    )
}

/// The main role of cluster `cluster_name` in namespace `ns`.
pub open spec fn main_plan_is(p: MainPlan, c: Cluster, cluster_name: Seq<char>, ns: Seq<char>, b: Bundle, owner: OwnerRef) -> bool {
    let m = c.spec.main;
    let name = cluster_name + "-main"@;
    let image = role_image(m.image, c);
    let multi = m.replicas > 1;
    &&& p.name@ == name
    &&& p.multi_main == multi
    &&& match m.persistence {
        Some(pc) => p.pvc matches Some(v) && pvc_is(v, name + "-data"@, name, image, "data"@, pc.access_mode@, pc.size@, pc.storage_class_name, owner),
        None => p.pvc is None,
    }
    &&& deployment_is(
        p.deployment,
        name,
        image,
        "main"@,
        Some(m.replicas),
        main_env_views(c, container_env_views(b.env@)),
        volume_views(b.volumes@) + (if m.persistence is Some {
            seq![claim_volume_view("n8n-data"@, name + "-data"@)]
        } else {
            Seq::empty()
        }),
        mount_views(b.mounts@) + (if m.persistence is Some {
            seq![rw_mount("n8n-data"@, "/home/node/.n8n"@)]
        } else {
            Seq::empty()
        }),
        None,
        strs_view(c.spec.image_pull_secrets@),
        m.resources,
        m.pod,
        m.strategy,
        owner,
    )
    &&& service_is(p.service, name, image, "main"@, service_type_of(m.service), multi, owner)
    &&& if multi {
        p.destination_rule matches Some(d) && destination_rule_is(d, name, image, ns, owner)
    } else {
        p.destination_rule is None
    }
    &&& networking_plan_is(p.networking, name, image, "main"@, match m.host {
        Some(h) => Some(h@),
        None => None,
    }, m.networking, owner)
}

/// Plans the main role.
pub fn main_plan(c: &Cluster, cluster_name: &str, ns: &str, bundle: &Bundle, owner: &OwnerRef) -> (p: MainPlan)
    ensures
        main_plan_is(p, *c, cluster_name@, ns@, *bundle, *owner),
{
    let m = &c.spec.main;
    let name = concat2(cluster_name, "-main");
    let image = image_of(&m.image, c);
    let multi_main = m.replicas > 1;
    let pvc_name = concat2(name.as_str(), "-data");
    let pvc = build_data_pvc(pvc_name.as_str(), name.as_str(), image.as_str(), m.persistence.as_ref(), owner);
    let mut vols = crate::copy::copy_all(bundle.volumes.as_slice());
    let mut mounts = crate::copy::copy_all(bundle.mounts.as_slice());
    if m.persistence.is_some() {
        let (v, mt) = build_persistence_volume(pvc_name.as_str());
        vols.push(v);
        mounts.push(mt);
    }
    let host: Option<&str> = match &m.host {
        Some(h) => Some(h.as_str()),
        None => None,
    };
    let defaults = cluster_role_defaults(c, host, m.networking.as_ref());
    let mut env = copy_env(&bundle.env);
    let mut mm = multi_main_env(c, multi_main);
    env.append(&mut mm);
    if c.spec.webhooks.is_some() {
        env.push(env_str("N8N_DISABLE_PRODUCTION_MAIN_PROCESS", "true"));
    }
    let mut user = build_user_env(defaults.as_slice(), c.spec.secure_cookie, c.spec.extra_env.as_slice(), m.extra_env.as_slice());
    env.append(&mut user);
    assert(container_env_views(env@) =~= main_env_views(*c, container_env_views(bundle.env@)));
    assert(volume_views(vols@) =~= volume_views(bundle.volumes@) + (if m.persistence is Some {
        seq![claim_volume_view("n8n-data"@, name@ + "-data"@)]
    } else {
        Seq::empty()
    }));
    assert(mount_views(mounts@) =~= mount_views(bundle.mounts@) + (if m.persistence is Some {
        seq![rw_mount("n8n-data"@, "/home/node/.n8n"@)]
    } else {
        Seq::empty()
    }));
    let deployment = build_cluster_deployment(
        &DeploymentInputs {
            name: name.as_str(),
            image: image.as_str(),
            component: "main",
            replicas: Some(m.replicas),
            env: env.as_slice(),
            volumes: vols.as_slice(),
            mounts: mounts.as_slice(),
            command: None,
            image_pull_secrets: c.spec.image_pull_secrets.as_slice(),
            resources: m.resources.as_ref(),
            pod: m.pod.as_ref(),
            strategy: m.strategy.as_ref(),
        },
        owner,
    );
    let service = build_cluster_service(name.as_str(), image.as_str(), "main", m.service.as_ref(), multi_main, owner);
    let destination_rule = if multi_main {
        Some(build_destination_rule(name.as_str(), image.as_str(), ns, owner))
    } else {
        None
    };
    let networking = role_networking_plan(
        &RoleNetworking {
            name: name.as_str(),
            image: image.as_str(),
            component: "main",
            host,
            net: m.networking.as_ref(),
        },
        owner,
    );
    MainPlan { name, pvc, deployment, service, multi_main, destination_rule, networking }
}

/// The worker role: `<cluster>-worker`, and its autoscaler when configured
/// (otherwise an existing one of that name is removed).
pub struct WorkerPlan {
    pub name: String,
    pub deployment: DeploymentModel,
    pub hpa: Option<HpaModel>,
}

/// The env of the worker role: the shared env, the concurrency limit when set,
/// the queue health check, then its user layers.
pub open spec fn worker_env_views(c: Cluster, bundle_env: Seq<ContainerEnvView>) -> Seq<ContainerEnvView> {
    let w = c.spec.workers;
    bundle_env + (match w.concurrency {
        Some(cc) => seq![value_entry("N8N_CONCURRENCY_PRODUCTION_LIMIT"@, decimal(cc as nat))],
        None => Seq::empty(),
    }) + seq![str_entry("QUEUE_HEALTH_CHECK_ACTIVE"@, "true"@)] + layered_env(
        user_layers(cluster_role_defaults_views(c, None, None), c.spec.secure_cookie, c.spec.extra_env@, w.extra_env@),
    )
}

/// The worker role of cluster `cluster_name`: runs `n8n worker`; its replica
/// count is left to the HPA when autoscaling is set.
pub open spec fn worker_plan_is(p: WorkerPlan, c: Cluster, cluster_name: Seq<char>, b: Bundle, owner: OwnerRef) -> bool {
    let w = c.spec.workers;
    let name = cluster_name + "-worker"@;
    let image = role_image(w.image, c);
    &&& p.name@ == name
    &&& deployment_is(
        p.deployment,
        name,
        image,
        "worker"@,
        if w.autoscaling is Some { None } else { Some(w.replicas) },
        worker_env_views(c, container_env_views(b.env@)),
        volume_views(b.volumes@),
        mount_views(b.mounts@),
        Some(seq!["n8n"@, "worker"@]),
        strs_view(c.spec.image_pull_secrets@),
        w.resources,
        w.pod,
        w.strategy,
        owner,
    )
    &&& match w.autoscaling {
        Some(a) => p.hpa matches Some(h) && hpa_is(h, name, image, a, owner),
        None => p.hpa is None,
    }
}

fn command(a: &str, b: &str) -> (r: Vec<String>)
    ensures
        strs_view(r@) == seq![a@, b@],
{
    let mut v: Vec<String> = Vec::new();
    v.push(owned(a));
    v.push(owned(b));
    assert(strs_view(v@) =~= seq![a@, b@]);
    v
}

/// Plans the worker role.
pub fn worker_plan(c: &Cluster, cluster_name: &str, bundle: &Bundle, owner: &OwnerRef) -> (p: WorkerPlan)
    ensures
        worker_plan_is(p, *c, cluster_name@, *bundle, *owner),
{
    let w = &c.spec.workers;
    let name = concat2(cluster_name, "-worker");
    let image = image_of(&w.image, c);
    let defaults = cluster_role_defaults(c, None, None);
    let mut env = copy_env(&bundle.env);
    if let Some(cc) = w.concurrency {
        env.push(env_u64("N8N_CONCURRENCY_PRODUCTION_LIMIT", cc as u64));
    }
    env.push(env_str("QUEUE_HEALTH_CHECK_ACTIVE", "true"));
    let mut user = build_user_env(defaults.as_slice(), c.spec.secure_cookie, c.spec.extra_env.as_slice(), w.extra_env.as_slice());
    env.append(&mut user);
    assert(container_env_views(env@) =~= worker_env_views(*c, container_env_views(bundle.env@)));
    let replicas = if w.autoscaling.is_some() {
        None
    } else {
        Some(w.replicas)
    };
    let deployment = build_cluster_deployment(
        &DeploymentInputs {
            name: name.as_str(),
            image: image.as_str(),
            component: "worker",
            replicas,
            env: env.as_slice(),
            volumes: bundle.volumes.as_slice(),
            mounts: bundle.mounts.as_slice(),
            command: Some(command("n8n", "worker")),
            image_pull_secrets: c.spec.image_pull_secrets.as_slice(),
            resources: w.resources.as_ref(),
            pod: w.pod.as_ref(),
            strategy: w.strategy.as_ref(),
        },
        owner,
    );
    let hpa = match &w.autoscaling {
        Some(a) => Some(build_worker_hpa(name.as_str(), image.as_str(), a, owner)),
        None => None,
    };
    WorkerPlan { name, deployment, hpa }
}

/// The name of the webhook role of a cluster.
pub fn webhook_name(cluster_name: &str) -> (r: String)
    ensures
        r@ == cluster_name@ + "-webhook"@,
{
    concat2(cluster_name, "-webhook")
}

/// The webhook role: `<cluster>-webhook`, running `n8n webhook`.
pub struct WebhookPlan {
    pub name: String,
    pub deployment: DeploymentModel,
    pub service: ServiceModel,
    pub networking: Result<NetworkingPlan, Error>,
}

/// The env of the webhook role: the shared env, then its user layers.
pub open spec fn webhook_env_views(c: Cluster, bundle_env: Seq<ContainerEnvView>) -> Seq<ContainerEnvView> {
    let w = c.spec.webhooks->0;
    bundle_env + layered_env(
        user_layers(
            cluster_role_defaults_views(c, match w.host {
                Some(h) => Some(h@),
                None => None,
            }, w.networking),
            c.spec.secure_cookie,
            c.spec.extra_env@,
            w.extra_env@,
        ),
    )
}

/// Without a webhook block there is no webhook role (its objects are removed);
/// with one, its Deployment, Service and networking.
pub open spec fn webhook_plan_is(p: Option<WebhookPlan>, c: Cluster, cluster_name: Seq<char>, b: Bundle, owner: OwnerRef) -> bool {
    match c.spec.webhooks {
        None => p is None,
        Some(w) => p matches Some(wp) && {
            let name = cluster_name + "-webhook"@;
            let image = role_image(w.image, c);
            &&& wp.name@ == name
            &&& deployment_is(
                wp.deployment,
                name,
                image,
                "webhook"@,
                Some(w.replicas),
                webhook_env_views(c, container_env_views(b.env@)),
                volume_views(b.volumes@),
                mount_views(b.mounts@),
                Some(seq!["n8n"@, "webhook"@]),
                strs_view(c.spec.image_pull_secrets@),
                w.resources,
                w.pod,
                w.strategy,
                owner,
            )
            &&& service_is(wp.service, name, image, "webhook"@, service_type_of(w.service), false, owner)
            &&& networking_plan_is(wp.networking, name, image, "webhook"@, match w.host {
                Some(h) => Some(h@),
                None => None,
            }, w.networking, owner)
        },
    }
}

/// Plans the webhook role, if the cluster has one.
pub fn webhook_plan(c: &Cluster, cluster_name: &str, bundle: &Bundle, owner: &OwnerRef) -> (p: Option<WebhookPlan>)
    ensures
        webhook_plan_is(p, *c, cluster_name@, *bundle, *owner),
{
    let w = match &c.spec.webhooks {
        Some(w) => w,
        None => return None,
    };
    let name = webhook_name(cluster_name);
    let image = image_of(&w.image, c);
    let host: Option<&str> = match &w.host {
        Some(h) => Some(h.as_str()),
        None => None,
    };
    let defaults = cluster_role_defaults(c, host, w.networking.as_ref());
    let mut env = copy_env(&bundle.env);
    let mut user = build_user_env(defaults.as_slice(), c.spec.secure_cookie, c.spec.extra_env.as_slice(), w.extra_env.as_slice());
    env.append(&mut user);
    assert(container_env_views(env@) =~= webhook_env_views(*c, container_env_views(bundle.env@)));
    let deployment = build_cluster_deployment(
        &DeploymentInputs {
            name: name.as_str(),
            image: image.as_str(),
            component: "webhook",
            replicas: Some(w.replicas),
            env: env.as_slice(),
            volumes: bundle.volumes.as_slice(),
            mounts: bundle.mounts.as_slice(),
            command: Some(command("n8n", "webhook")),
            image_pull_secrets: c.spec.image_pull_secrets.as_slice(),
            resources: w.resources.as_ref(),
            pod: w.pod.as_ref(),
            strategy: w.strategy.as_ref(),
        },
        owner,
    );
    let service = build_cluster_service(name.as_str(), image.as_str(), "webhook", w.service.as_ref(), false, owner);
    let networking = role_networking_plan(
        &RoleNetworking {
            name: name.as_str(),
            image: image.as_str(),
            component: "webhook",
            host,
            net: w.networking.as_ref(),
        },
        owner,
    );
    Some(WebhookPlan { name, deployment, service, networking })
}

/// Ready, the desired replica counts of each role (0 webhooks without a
/// webhook role), and the name of the encryption-key Secret.
pub open spec fn cluster_status_is(st: ClusterStatus, c: Cluster, key_secret: Seq<char>) -> bool {
    &&& st.ready
    &&& st.main_replicas == c.spec.main.replicas
    &&& st.worker_replicas == c.spec.workers.replicas
    &&& st.webhook_replicas == match c.spec.webhooks {
        Some(w) => w.replicas,
        None => 0i32,
    }
    &&& st.encryption_key_secret matches Some(k) && k@ == key_secret
}

/// The status a reconciled `Cluster` reports.
pub fn cluster_status(c: &Cluster, key_secret: &str) -> (st: ClusterStatus)
    ensures
        cluster_status_is(st, *c, key_secret@),
{
    ClusterStatus {
        ready: true,
        main_replicas: c.spec.main.replicas,
        worker_replicas: c.spec.workers.replicas,
        webhook_replicas: match &c.spec.webhooks {
            Some(w) => w.replicas,
            None => 0,
        },
        encryption_key_secret: Some(owned(key_secret)),
    }
}

/// The env of the main role's container.
pub open spec fn main_container_env(p: MainPlan) -> Seq<ContainerEnvView> {
    container_env_views(p.deployment.template.container.env@)
}

/// With more than one main, the main container switches multi-main on, with
/// the leader key TTL and the leader check interval each taken from its own
/// setting when set, and its Service's traffic is kept sticky: by session
/// affinity, and by a DestinationRule on that Service's in-cluster host in `ns`
/// hashing on the `n8n-route` cookie; with one main, the Service has no session
/// affinity and there is no DestinationRule.
pub proof fn multi_main_settings_reach_the_main_env(
    p: MainPlan,
    c: Cluster,
    cluster_name: Seq<char>,
    ns: Seq<char>,
    b: Bundle,
    owner: OwnerRef,
)
    requires
        main_plan_is(p, c, cluster_name, ns, b, owner),
    ensures
        c.spec.main.replicas > 1 ==> main_container_env(p).contains(str_entry("N8N_MULTI_MAIN_SETUP_ENABLED"@, "true"@)),
        c.spec.main.replicas > 1 ==> (c.spec.main.multi_main_key_ttl matches Some(t) ==> main_container_env(p).contains(
            value_entry("N8N_MULTI_MAIN_SETUP_KEY_TTL"@, decimal(t as nat)),
        )),
        c.spec.main.replicas > 1 ==> (c.spec.main.multi_main_check_interval matches Some(i)
            ==> main_container_env(p).contains(value_entry("N8N_MULTI_MAIN_SETUP_CHECK_INTERVAL"@, decimal(i as nat)))),
        c.spec.main.replicas > 1 <==> p.multi_main,
        c.spec.main.replicas > 1 <==> p.destination_rule is Some,
        c.spec.main.replicas > 1 <==> p.service.session_affinity is Some,
        p.destination_rule matches Some(d) ==> {
            &&& d.meta.name@ == p.service.meta.name@
            &&& d.host@ == p.service.meta.name@ + "."@ + ns + ".svc.cluster.local"@
            &&& d.cookie_name@ == "n8n-route"@
        },
{
    let m = c.spec.main;
    let env = main_container_env(p);
    let be = container_env_views(b.env@);
    let k: int = be.len() as int;
    if m.replicas > 1 {
        let mm = multi_main_env_views(c, true);
        let rest = (if c.spec.webhooks is Some {
            seq![str_entry("N8N_DISABLE_PRODUCTION_MAIN_PROCESS"@, "true"@)]
        } else {
            Seq::empty()
        }) + layered_env(
            user_layers(
                cluster_role_defaults_views(c, match m.host {
                    Some(h) => Some(h@),
                    None => None,
                }, m.networking),
                c.spec.secure_cookie,
                c.spec.extra_env@,
                m.extra_env@,
            ),
        );
        assert(env == be + mm + rest);
        assert(env[k] == mm[0]);
        let ttl_len: int = if m.multi_main_key_ttl is Some { 1 } else { 0 };
        if let Some(t) = m.multi_main_key_ttl {
            assert(mm[1] == value_entry("N8N_MULTI_MAIN_SETUP_KEY_TTL"@, decimal(t as nat)));
            assert(env[k + 1] == mm[1]);
        }
        if let Some(i) = m.multi_main_check_interval {
            assert(mm[1 + ttl_len] == value_entry("N8N_MULTI_MAIN_SETUP_CHECK_INTERVAL"@, decimal(i as nat)));
            assert(env[k + 1 + ttl_len] == mm[1 + ttl_len]);
        }
    }
}

/// Autoscaled workers leave their replica count to an HPA on their own
/// Deployment, bounded by the configured minimum and maximum and targeting the
/// configured CPU utilisation (70% when none is set); without autoscaling the
/// Deployment keeps the configured count and there is no HPA.
pub proof fn autoscaled_workers_follow_their_bounds(
    p: WorkerPlan,
    c: Cluster,
    cluster_name: Seq<char>,
    b: Bundle,
    owner: OwnerRef,
)
    requires
        worker_plan_is(p, c, cluster_name, b, owner),
    ensures
        match c.spec.workers.autoscaling {
            Some(a) => {
                &&& p.deployment.replicas is None
                &&& p.hpa matches Some(h) && {
                    &&& h.meta.name@ == cluster_name + "-worker"@
                    &&& h.target_name@ == p.deployment.meta.name@
                    &&& h.target_name@ == cluster_name + "-worker"@
                    &&& h.target_api_version@ == "apps/v1"@
                    &&& h.target_kind@ == "Deployment"@
                    &&& h.min_replicas == a.min_replicas
                    &&& h.max_replicas == a.max_replicas
                    &&& (a.target_cpu_utilization_percentage matches Some(t) ==> h.cpu_utilization == t)
                    &&& (a.target_cpu_utilization_percentage is None ==> h.cpu_utilization == 70)
                }
            },
            None => p.deployment.replicas == Some(c.spec.workers.replicas) && p.hpa is None,
        },
{
}

/// The roles of a cluster named `n`: each Deployment (`n-main`, `n-worker`,
/// `n-webhook`) runs its own image when it sets one and the cluster's
/// otherwise, with the shared env first (queue mode, then the encryption key
/// read from the resolved Secret key). Main keeps its replica count; the worker
/// runs `n8n worker` with the queue health check (and its concurrency limit when
/// set); the webhook role runs `n8n webhook` with its replica count, and its
/// presence makes main stop serving production webhooks. Every Service is on
/// port 5678. The status reports each role's replica count (0 webhooks without
/// a webhook role).
#[verifier::rlimit(40)]
pub proof fn cluster_roles_follow_the_spec(
    bp: BundlePlan,
    main: MainPlan,
    worker: WorkerPlan,
    webhook: Option<WebhookPlan>,
    c: Cluster,
    n: Seq<char>,
    ns: Seq<char>,
    key_secret: SecretKeyRef,
    owner: OwnerRef,
    st: ClusterStatus,
)
    requires
        bundle_plan_is(bp, c, n, key_secret, owner),
        main_plan_is(main, c, n, ns, bp.bundle, owner),
        worker_plan_is(worker, c, n, bp.bundle, owner),
        webhook_plan_is(webhook, c, n, bp.bundle, owner),
        cluster_status_is(st, c, key_secret.name@),
    ensures
        ({
            let menv = container_env_views(main.deployment.template.container.env@);
            let wenv = container_env_views(worker.deployment.template.container.env@);
            &&& main.deployment.meta.name@ == n + "-main"@
            &&& main.deployment.template.container.image@ == role_image(c.spec.main.image, c)
            &&& main.deployment.replicas == Some(c.spec.main.replicas)
            &&& menv[0] == str_entry("EXECUTIONS_MODE"@, "queue"@)
            &&& menv[1] == secret_entry("N8N_ENCRYPTION_KEY"@, key_secret)
            &&& (c.spec.webhooks is Some ==> menv.contains(str_entry("N8N_DISABLE_PRODUCTION_MAIN_PROCESS"@, "true"@)))
            &&& main.service.port == 5678
            &&& worker.deployment.meta.name@ == n + "-worker"@
            &&& worker.deployment.template.container.image@ == role_image(c.spec.workers.image, c)
            &&& wenv[0] == str_entry("EXECUTIONS_MODE"@, "queue"@)
            &&& wenv[1] == secret_entry("N8N_ENCRYPTION_KEY"@, key_secret)
            &&& wenv.contains(str_entry("QUEUE_HEALTH_CHECK_ACTIVE"@, "true"@))
            &&& (c.spec.workers.concurrency matches Some(cc) ==> wenv.contains(
                value_entry("N8N_CONCURRENCY_PRODUCTION_LIMIT"@, decimal(cc as nat)),
            ))
            &&& (worker.deployment.template.container.command matches Some(cmd) && strs_view(cmd@) == seq![
                "n8n"@,
                "worker"@,
            ])
            &&& (webhook is Some <==> c.spec.webhooks is Some)
            &&& (webhook matches Some(h) ==> {
                let henv = container_env_views(h.deployment.template.container.env@);
                &&& h.deployment.meta.name@ == n + "-webhook"@
                &&& h.deployment.template.container.image@ == role_image(c.spec.webhooks->0.image, c)
                &&& h.deployment.replicas == Some(c.spec.webhooks->0.replicas)
                &&& henv[0] == str_entry("EXECUTIONS_MODE"@, "queue"@)
                &&& henv[1] == secret_entry("N8N_ENCRYPTION_KEY"@, key_secret)
                &&& (h.deployment.template.container.command matches Some(cmd) && strs_view(cmd@) == seq![
                    "n8n"@,
                    "webhook"@,
                ])
                &&& h.service.port == 5678
            })
            &&& st.main_replicas == c.spec.main.replicas
            &&& st.worker_replicas == c.spec.workers.replicas
            &&& st.webhook_replicas == (match c.spec.webhooks {
                Some(w) => w.replicas,
                None => 0i32,
            })
        }),
{
    let be = container_env_views(bp.bundle.env@);
    let menv = container_env_views(main.deployment.template.container.env@);
    let wenv = container_env_views(worker.deployment.template.container.env@);
    assert(menv[0] == be[0]);
    assert(menv[1] == be[1]);
    assert(wenv[0] == be[0]);
    assert(wenv[1] == be[1]);
    let m = c.spec.main;
    let mm = multi_main_env_views(c, m.replicas > 1);
    if c.spec.webhooks is Some {
        assert(menv[(be.len() + mm.len()) as int] == str_entry("N8N_DISABLE_PRODUCTION_MAIN_PROCESS"@, "true"@));
    }
    let w = c.spec.workers;
    let cl: int = if w.concurrency is Some { 1 } else { 0 };
    if let Some(cc) = w.concurrency {
        assert(wenv[be.len() as int] == value_entry("N8N_CONCURRENCY_PRODUCTION_LIMIT"@, decimal(cc as nat)));
    }
    assert(wenv[be.len() + cl] == str_entry("QUEUE_HEALTH_CHECK_ACTIVE"@, "true"@));
    if let Some(h) = webhook {
        let henv = container_env_views(h.deployment.template.container.env@);
        assert(henv[0] == be[0]);
        assert(henv[1] == be[1]);
    }
}

/// Whether Deployment `d` mounts the claim `claim` as volume `vol` at `path`.
pub open spec fn mounts_claim(d: DeploymentModel, vol: Seq<char>, claim: Seq<char>, path: Seq<char>) -> bool {
    &&& volume_views(d.template.volumes@).contains(claim_volume_view(vol, claim))
    &&& mount_views(d.template.container.volume_mounts@).contains(rw_mount(vol, path))
}

/// A cluster has a shared claim `n-nodes` (community nodes) or `n-binary-data`
/// (binary data) exactly when that block asks for shared storage, with the
/// requested size, access mode and storage class; each is mounted on every
/// role, the community-nodes claim at `/home/node/.n8n/nodes` and the
/// binary-data claim at the binary-data storage path, by the name of the claim
/// that is applied.
#[verifier::rlimit(40)]
pub proof fn shared_claims_are_mounted_on_every_role(
    bp: BundlePlan,
    main: MainPlan,
    worker: WorkerPlan,
    webhook: Option<WebhookPlan>,
    c: Cluster,
    n: Seq<char>,
    ns: Seq<char>,
    key_secret: SecretKeyRef,
    owner: OwnerRef,
)
    requires
        bundle_plan_is(bp, c, n, key_secret, owner),
        main_plan_is(main, c, n, ns, bp.bundle, owner),
        worker_plan_is(worker, c, n, bp.bundle, owner),
        webhook_plan_is(webhook, c, n, bp.bundle, owner),
    ensures
        bp.nodes_pvc is Some <==> (c.spec.community_nodes matches Some(cn) && cn.shared_storage is Some),
        bp.binary_data_pvc is Some <==> (c.spec.binary_data matches Some(bd) && bd.shared_storage is Some),
        bp.nodes_pvc matches Some(v) ==> {
            let st = c.spec.community_nodes->0.shared_storage->0;
            &&& v.meta.name@ == n + "-nodes"@
            &&& v.storage@ == st.size@
            &&& strs_view(v.access_modes@) == seq![st.access_mode@]
            &&& v.storage_class_name == st.storage_class_name
        },
        bp.binary_data_pvc matches Some(v) ==> {
            let st = c.spec.binary_data->0.shared_storage->0;
            &&& v.meta.name@ == n + "-binary-data"@
            &&& v.storage@ == st.size@
            &&& strs_view(v.access_modes@) == seq![st.access_mode@]
            &&& v.storage_class_name == st.storage_class_name
        },
        bp.nodes_pvc matches Some(v) ==> {
            let claim = v.meta.name@;
            &&& mounts_claim(main.deployment, "n8n-nodes"@, claim, "/home/node/.n8n/nodes"@)
            &&& mounts_claim(worker.deployment, "n8n-nodes"@, claim, "/home/node/.n8n/nodes"@)
            &&& (webhook matches Some(h) ==> mounts_claim(h.deployment, "n8n-nodes"@, claim, "/home/node/.n8n/nodes"@))
        },
        bp.binary_data_pvc matches Some(v) ==> {
            let claim = v.meta.name@;
            &&& mounts_claim(main.deployment, "n8n-binary-data"@, claim, BINARY_DATA_STORAGE_PATH@)
            &&& mounts_claim(worker.deployment, "n8n-binary-data"@, claim, BINARY_DATA_STORAGE_PATH@)
            &&& (webhook matches Some(h) ==> mounts_claim(
                h.deployment,
                "n8n-binary-data"@,
                claim,
                BINARY_DATA_STORAGE_PATH@,
            ))
        },
{
    let bv = bundle_volume_views(c, n);
    let bm = bundle_mount_views(c);
    let l: int = db_volume_views(c.spec.database).len() as int;
    let lm: int = db_mount_views(c.spec.database).len() as int;
    let k: int = if nodes_shared(c) { 1 } else { 0 };
    let mv = volume_views(main.deployment.template.volumes@);
    let mm = mount_views(main.deployment.template.container.volume_mounts@);
    let wv = volume_views(worker.deployment.template.volumes@);
    let wm = mount_views(worker.deployment.template.container.volume_mounts@);
    if let Some(v) = bp.nodes_pvc {
        let cv = claim_volume_view("n8n-nodes"@, v.meta.name@);
        let cm = rw_mount("n8n-nodes"@, "/home/node/.n8n/nodes"@);
        assert(bv[l] == cv);
        assert(bm[lm] == cm);
        assert(mv[l] == cv);
        assert(mm[lm] == cm);
        assert(wv[l] == cv);
        assert(wm[lm] == cm);
        if let Some(h) = webhook {
            assert(volume_views(h.deployment.template.volumes@)[l] == cv);
            assert(mount_views(h.deployment.template.container.volume_mounts@)[lm] == cm);
        }
    }
    if let Some(v) = bp.binary_data_pvc {
        let cv = claim_volume_view("n8n-binary-data"@, v.meta.name@);
        let cm = rw_mount("n8n-binary-data"@, BINARY_DATA_STORAGE_PATH@);
        assert(bv[l + k] == cv);
        assert(bm[lm + k] == cm);
        assert(mv[l + k] == cv);
        assert(mm[lm + k] == cm);
        assert(wv[l + k] == cv);
        assert(wm[lm + k] == cm);
        if let Some(h) = webhook {
            assert(volume_views(h.deployment.template.volumes@)[l + k] == cv);
            assert(mount_views(h.deployment.template.container.volume_mounts@)[lm + k] == cm);
        }
    }
}

/// Each cluster role takes its own resources, service account, tolerations
/// and rollout strategy type; the main role's data claim `n-main-data` exists
/// exactly when main persistence is set, with its size and access mode, and is
/// mounted at `/home/node/.n8n`.
#[verifier::rlimit(40)]
pub proof fn cluster_roles_take_their_own_settings(
    bp: BundlePlan,
    main: MainPlan,
    worker: WorkerPlan,
    webhook: Option<WebhookPlan>,
    c: Cluster,
    n: Seq<char>,
    ns: Seq<char>,
    key_secret: SecretKeyRef,
    owner: OwnerRef,
)
    requires
        bundle_plan_is(bp, c, n, key_secret, owner),
        main_plan_is(main, c, n, ns, bp.bundle, owner),
        worker_plan_is(worker, c, n, bp.bundle, owner),
        webhook_plan_is(webhook, c, n, bp.bundle, owner),
    ensures
        main.deployment.template.container.resources == c.spec.main.resources,
        worker.deployment.template.container.resources == c.spec.workers.resources,
        c.spec.main.pod matches Some(pc) ==> {
            &&& main.deployment.template.service_account_name == pc.service_account_name
            &&& main.deployment.template.tolerations == pc.tolerations
        },
        c.spec.workers.pod matches Some(pc) ==> {
            &&& worker.deployment.template.service_account_name == pc.service_account_name
            &&& worker.deployment.template.tolerations == pc.tolerations
        },
        c.spec.main.strategy matches Some(st) ==> (main.deployment.strategy matches Some(m) && m.type_ == st.type_),
        c.spec.main.strategy is None ==> main.deployment.strategy is None,
        c.spec.workers.strategy matches Some(st) ==> (worker.deployment.strategy matches Some(m) && m.type_
            == st.type_),
        c.spec.workers.strategy is None ==> worker.deployment.strategy is None,
        webhook matches Some(h) ==> {
            let wh = c.spec.webhooks->0;
            &&& h.deployment.template.container.resources == wh.resources
            &&& (wh.strategy is None ==> h.deployment.strategy is None)
        },
        main.pvc is Some <==> c.spec.main.persistence is Some,
        main.pvc matches Some(v) ==> {
            let pc = c.spec.main.persistence->0;
            &&& v.meta.name@ == n + "-main-data"@
            &&& v.storage@ == pc.size@
            &&& strs_view(v.access_modes@) == seq![pc.access_mode@]
            &&& mounts_claim(main.deployment, "n8n-data"@, v.meta.name@, "/home/node/.n8n"@)
        },
{
    if let Some(v) = main.pvc {
        let name = n + "-main"@;
        assert(name + "-data"@ =~= n + "-main-data"@) by {
            reveal_strlit("-main");
            reveal_strlit("-data");
            reveal_strlit("-main-data");
        }
        let vols = volume_views(main.deployment.template.volumes@);
        let mounts = mount_views(main.deployment.template.container.volume_mounts@);
        assert(vols[vols.len() - 1] == claim_volume_view("n8n-data"@, v.meta.name@));
        assert(mounts[mounts.len() - 1] == rw_mount("n8n-data"@, "/home/node/.n8n"@));
    }
}

/// A cluster role exposed at a host sends it to that role's own Service: the
/// main role's Ingress or primary HTTPRoute matches the main host and forwards
/// to the main Service, and the webhook role's to the webhook Service.
pub proof fn exposed_cluster_roles_reach_their_service(
    main: MainPlan,
    webhook: Option<WebhookPlan>,
    c: Cluster,
    n: Seq<char>,
    ns: Seq<char>,
    b: Bundle,
    owner: OwnerRef,
)
    requires
        main_plan_is(main, c, n, ns, b, owner),
        webhook_plan_is(webhook, c, n, b, owner),
    ensures
        c.spec.main.host matches Some(h) ==> (c.spec.main.networking matches Some(net) ==> (!(net.ingress is Some
            && net.http_route is Some) ==> {
            &&& main.networking is Ok
            &&& (main.networking->Ok_0.ingress matches Some(i) ==> i.host@ == h@ && i.service_name@
                == main.service.meta.name@)
            &&& (main.networking->Ok_0.route matches Some(rp) ==> strs_view(rp.primary.hostnames@) == seq![h@]
                && (rp.primary.rule matches RouteRule::Backend { name: bn, port } && bn@ == main.service.meta.name@
                && port == main.service.port))
        })),
        webhook matches Some(wp) ==> (c.spec.webhooks->0.host matches Some(h) ==> (
        c.spec.webhooks->0.networking matches Some(net) ==> (!(net.ingress is Some && net.http_route is Some) ==> {
            &&& wp.networking is Ok
            &&& (wp.networking->Ok_0.ingress matches Some(i) ==> i.host@ == h@ && i.service_name@
                == wp.service.meta.name@)
            &&& (wp.networking->Ok_0.route matches Some(rp) ==> strs_view(rp.primary.hostnames@) == seq![h@]
                && (rp.primary.rule matches RouteRule::Backend { name: bn, port } && bn@ == wp.service.meta.name@
                && port == wp.service.port))
        }))),
{
    let m = c.spec.main;
    if let Some(h) = m.host {
        if let Some(net) = m.networking {
            if !(net.ingress is Some && net.http_route is Some) {
                exposed_roles_serve_their_host(main.networking, n + "-main"@, role_image(m.image, c), "main"@, h@, net, owner);
            }
        }
    }
    if let Some(wp) = webhook {
        let w = c.spec.webhooks->0;
        if let Some(h) = w.host {
            if let Some(net) = w.networking {
                if !(net.ingress is Some && net.http_route is Some) {
                    exposed_roles_serve_their_host(wp.networking, n + "-webhook"@, role_image(w.image, c), "webhook"@, h@, net, owner);
                }
            }
        }
    }
}

} // verus!
