//! Deployments: one per role.
use vstd::prelude::*;
use crate::builders::{apply_pod_config, deployment_strategy, merged, meta_is, object_meta, strategy_is};
use crate::builders::volumes::{build_db_volumes, build_persistence_volume, claim_volume_view, db_mount_views, db_volume_views, rw_mount};
use crate::copy::copy_all;
use crate::env::{
    ContainerEnv, ContainerEnvView, build_user_env, container_env_views, env_secret, env_var_views, layered_env,
    secret_entry, single_defaults, single_defaults_views, user_layers,
};
use crate::env::database::{build_db_env, db_env_views};
use crate::labels::{common_annotations, common_annotations_map, common_labels, common_labels_map, selector_labels, selector_labels_map};
use crate::objects::{
    ContainerModel, DeploymentModel, MountView, OwnerRef, PodTemplateModel, VolumeView, Volume, VolumeMount,
    mount_views, strs_view, volume_views,
};
use crate::spec::{DeploymentStrategy, PodConfig, ResourceRequirements, SecretKeyRef, SingleSpec};
use crate::text::{concat2, owned};

verus! {

/// Everything a Deployment is built from.
pub struct DeploymentInputs<'a> {
    pub name: &'a str,
    pub image: &'a str,
    pub component: &'a str,
    /// `None` leaves `spec.replicas` unmanaged (an HPA owns it).
    pub replicas: Option<i32>,
    pub env: &'a [ContainerEnv],
    pub volumes: &'a [Volume],
    pub mounts: &'a [VolumeMount],
    pub command: Option<Vec<String>>,
    /// Secret names for pulling the image from a private registry.
    pub image_pull_secrets: &'a [String],
    pub resources: Option<&'a ResourceRequirements>,
    pub pod: Option<&'a PodConfig>,
    pub strategy: Option<&'a DeploymentStrategy>,
}

/// The n8n container: image, port 5678 named `http`, the env and mounts, an
/// optional command and resources, and an HTTP readiness probe on `/healthz`
/// after 10 s, every 10 s.
pub open spec fn container_is(
    c: ContainerModel,
    image: Seq<char>,
    env: Seq<ContainerEnvView>,
    mounts: Seq<MountView>,
    command: Option<Seq<Seq<char>>>,
    resources: Option<ResourceRequirements>,
) -> bool {
    &&& c.name@ == "n8n"@
    &&& c.image@ == image
    &&& c.port == 5678
    &&& c.port_name@ == "http"@
    &&& container_env_views(c.env@) == env
    &&& mount_views(c.volume_mounts@) == mounts
    &&& (match command {
        Some(cmd) => c.command matches Some(v) && strs_view(v@) == cmd,
        None => c.command is None,
    })
    &&& c.resources == resources
    &&& c.probe_path@ == "/healthz"@
    &&& c.probe_initial_delay_seconds == 10
    &&& c.probe_period_seconds == 10
}

/// A Deployment named `name` of the given role: the full label set and operator
/// annotations with one owner; the selector labels as selector; a pod template
/// carrying the same labels and annotations (with the pod config's extras
/// merged over them), the volumes, the image-pull Secrets, the pod config's
/// scheduling, and the n8n container; and the rendered strategy.
pub open spec fn deployment_is(
    d: DeploymentModel,
    name: Seq<char>,
    image: Seq<char>,
    component: Seq<char>,
    replicas: Option<i32>,
    env: Seq<ContainerEnvView>,
    volumes: Seq<VolumeView>,
    mounts: Seq<MountView>,
    command: Option<Seq<Seq<char>>>,
    pull_secrets: Seq<Seq<char>>,
    resources: Option<ResourceRequirements>,
    pod: Option<PodConfig>,
    strategy: Option<DeploymentStrategy>,
    owner: OwnerRef,
) -> bool {
    let labels = common_labels_map(name, image, component);
    let t = d.template;
    &&& meta_is(d.meta, name, labels, owner)
    &&& d.replicas == replicas
    &&& d.selector@ == selector_labels_map(name)
    &&& volume_views(t.volumes@) == volumes
    &&& strs_view(t.image_pull_secrets@) == pull_secrets
    &&& container_is(t.container, image, env, mounts, command, resources)
    &&& match pod {
        Some(pc) => {
            &&& t.labels@ == merged(labels, pc.pod_labels)
            &&& t.annotations@ == merged(common_annotations_map(), pc.pod_annotations)
            &&& t.service_account_name == pc.service_account_name
            &&& (match pc.node_selector {
                Some(ns) => t.node_selector matches Some(m) && m@ == ns@,
                None => t.node_selector is None,
            })
            &&& t.tolerations == pc.tolerations
            &&& t.affinity == pc.affinity
        },
        None => {
            &&& t.labels@ == labels
            &&& t.annotations@ == common_annotations_map()
            &&& t.service_account_name is None
            &&& t.node_selector is None
            &&& t.tolerations is None
            &&& t.affinity is None
        },
    }
    &&& match strategy {
        Some(s) => d.strategy matches Some(m) && strategy_is(m, s),
        None => d.strategy is None,
    }
}

/// Builds a role's Deployment from its inputs.
pub fn build_cluster_deployment(input: &DeploymentInputs, owner: &OwnerRef) -> (d: DeploymentModel)
    ensures
        deployment_is(
            d,
            input.name@,
            input.image@,
            input.component@,
            input.replicas,
            container_env_views(input.env@),
            volume_views(input.volumes@),
            mount_views(input.mounts@),
            match input.command {
                Some(c) => Some(strs_view(c@)),
                None => None,
            },
            strs_view(input.image_pull_secrets@),
            match input.resources {
                Some(r) => Some(*r),
                None => None,
            },
            match input.pod {
                Some(p) => Some(*p),
                None => None,
            },
            match input.strategy {
                Some(s) => Some(*s),
                None => None,
            },
            *owner,
        ),
{
    let container = ContainerModel {
        name: owned("n8n"),
        image: owned(input.image),
        port: 5678,
        port_name: owned("http"),
        env: copy_all(input.env),
        volume_mounts: copy_all(input.mounts),
        command: match &input.command {
            Some(c) => Some(copy_all(c.as_slice())),
            None => None,
        },
        resources: match input.resources {
            Some(r) => Some(r.clone()),
            None => None,
        },
        probe_path: owned("/healthz"),
        probe_initial_delay_seconds: 10,
        probe_period_seconds: 10,
    };
    let mut template = PodTemplateModel {
        labels: common_labels(input.name, input.image, input.component),
        annotations: common_annotations(),
        volumes: copy_all(input.volumes),
        container,
        image_pull_secrets: copy_all(input.image_pull_secrets),
        service_account_name: None,
        node_selector: None,
        tolerations: None,
        affinity: None,
    };
    if let Some(pc) = input.pod {
        apply_pod_config(&mut template, pc);
    }
    let strategy = match input.strategy {
        Some(s) => Some(deployment_strategy(s)),
        None => None,
    };
    DeploymentModel {
        meta: object_meta(input.name, common_labels(input.name, input.image, input.component), owner),
        replicas: input.replicas,
        selector: selector_labels(input.name),
        template,
        strategy,
    }
}

/// The container env of a `Single`: the encryption key, the database env when
/// a database is configured, then its user-controlled layers.
pub open spec fn single_env_views(spec: SingleSpec, key_secret: SecretKeyRef) -> Seq<ContainerEnvView> {
    seq![secret_entry("N8N_ENCRYPTION_KEY"@, key_secret)] + (match spec.database {
        Some(db) => db_env_views(db),
        None => Seq::empty(),
    }) + layered_env(
        user_layers(single_defaults_views(spec), spec.secure_cookie, spec.extra_env@, Seq::empty()),
    )
}

/// The volumes of a `Single`: the database certificate files, then its data claim.
pub open spec fn single_volume_views(name: Seq<char>, spec: SingleSpec) -> Seq<VolumeView> {
    (match spec.database {
        Some(db) => db_volume_views(db),
        None => Seq::empty(),
    }) + (if spec.persistence is Some {
        seq![claim_volume_view("n8n-data"@, name + "-data"@)]
    } else {
        Seq::empty()
    })
}

/// The mounts matching `single_volume_views`.
pub open spec fn single_mount_views(spec: SingleSpec) -> Seq<MountView> {
    (match spec.database {
        Some(db) => db_mount_views(db),
        None => Seq::empty(),
    }) + (if spec.persistence is Some {
        seq![rw_mount("n8n-data"@, "/home/node/.n8n"@)]
    } else {
        Seq::empty()
    })
}

/// The Deployment of a `Single` (component `workflow-engine`, its replica
/// count, no command, no strategy).
pub fn build_deployment(name: &str, spec: &SingleSpec, key_secret: &SecretKeyRef, owner: &OwnerRef) -> (d:
    DeploymentModel)
    ensures
        deployment_is(
            d,
            name@,
            spec.image@,
            "workflow-engine"@,
            Some(spec.replicas),
            single_env_views(*spec, *key_secret),
            single_volume_views(name@, *spec),
            single_mount_views(*spec),
            None,
            strs_view(spec.image_pull_secrets@),
            spec.resources,
            spec.pod,
            None,
            *owner,
        ),
{
    let mut env: Vec<ContainerEnv> = Vec::new();
    env.push(env_secret("N8N_ENCRYPTION_KEY", key_secret));
    let mut volumes: Vec<Volume> = Vec::new();
    let mut mounts: Vec<VolumeMount> = Vec::new();
    if let Some(db) = &spec.database {
        let mut db_env = build_db_env(db);
        env.append(&mut db_env);
        let (mut vols, mut vm) = build_db_volumes(name, db);
        volumes.append(&mut vols);
        mounts.append(&mut vm);
    }
    if spec.persistence.is_some() {
        let pvc_name = concat2(name, "-data");
        let (v, m) = build_persistence_volume(pvc_name.as_str());
        volumes.push(v);
        mounts.push(m);
    }
    let defaults = single_defaults(spec);
    let mut user = build_user_env(defaults.as_slice(), spec.secure_cookie, spec.extra_env.as_slice(), &[]);
    env.append(&mut user);
    assert(container_env_views(env@) =~= single_env_views(*spec, *key_secret));
    assert(volume_views(volumes@) =~= single_volume_views(name@, *spec));
    assert(mount_views(mounts@) =~= single_mount_views(*spec));
    let input = DeploymentInputs {
        name,
        image: spec.image.as_str(),
        component: "workflow-engine",
        replicas: Some(spec.replicas),
        env: env.as_slice(),
        volumes: volumes.as_slice(),
        mounts: mounts.as_slice(),
        command: None,
        image_pull_secrets: spec.image_pull_secrets.as_slice(),
        resources: spec.resources.as_ref(),
        pod: spec.pod.as_ref(),
        strategy: None,
    };
    build_cluster_deployment(&input, owner)
}

} // verus!
