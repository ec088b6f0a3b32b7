use n8n_rustful_operator::builders::destination_rule::destination_rule_v1_served;
use n8n_rustful_operator::builders::http_route::{gateway_v1_served, redirect_name};
use n8n_rustful_operator::env::{ContainerEnv, EnvSource};
use n8n_rustful_operator::error::Error;
use n8n_rustful_operator::labels::{common_annotations, common_labels, image_version, selector_labels};
use n8n_rustful_operator::objects::{ApiGroup, OwnerRef};
use n8n_rustful_operator::metrics::TraceLabel;
use n8n_rustful_operator::reconciler::cluster::{cluster_bundle, cluster_status, main_plan, webhook_plan, worker_plan};
use n8n_rustful_operator::reconciler::encryption::{
    KeySource, create_conflict_tolerated, encryption_key_source, generate_encryption_key,
};
use n8n_rustful_operator::reconciler::ops::{ObjectKind, Op, Removal, cluster_ops, single_ops};
use n8n_rustful_operator::reconciler::owner::{cluster_owner, single_owner};
use n8n_rustful_operator::reconciler::pass::{Admission, admit_cluster, admit_single, cluster_pass, single_pass};
use n8n_rustful_operator::reconciler::single::{single_children_plan, single_status};
use n8n_rustful_operator::spec::{
    Autoscaling, Cluster, ClusterSpec, DatabaseSpec, EncryptionKeySpec, GatewayRef, HttpRouteConfig,
    IngressConfig, MainConfig, NetworkingSpec, ObjectMeta, PostgresConfig, RedisConfig, SecretKeyRef,
    Single, SingleSpec, WebhookConfig, WorkerConfig,
};
use n8n_rustful_operator::strmap::StrMap;
use n8n_rustful_operator::validate::{validate_cluster, validate_single};

fn get<'a>(m: &'a StrMap, k: &str) -> Option<&'a str> {
    m.entries().iter().find(|(key, _)| key == k).map(|(_, v)| v.as_str())
}

fn meta(name: &str) -> ObjectMeta {
    ObjectMeta { name: Some(name.into()), generate_name: None, namespace: Some("ns".into()), uid: Some("u-1".into()) }
}

fn skref(name: &str, key: &str) -> SecretKeyRef {
    SecretKeyRef { name: name.into(), key: key.into() }
}

fn single(name: &str, networking: Option<NetworkingSpec>) -> Single {
    Single {
        metadata: meta(name),
        spec: SingleSpec {
            image: "n8nio/n8n:1.80.0".into(),
            replicas: 1,
            host: Some("n8n.example.com".into()),
            service: None,
            networking,
            encryption_key: None,
            database: None,
            persistence: None,
            secure_cookie: None,
            extra_env: vec![],
            image_pull_secrets: vec![],
            resources: None,
            pod: None,
            smtp: None,
            logging: None,
        },
        status: None,
    }
}

fn tls_ingress() -> NetworkingSpec {
    NetworkingSpec {
        ingress: Some(IngressConfig { class_name: Some("nginx".into()), tls_secret_name: Some("n8n-tls".into()) }),
        http_route: None,
    }
}

fn route(redirect: Option<&str>) -> HttpRouteConfig {
    HttpRouteConfig {
        gateway: GatewayRef { name: "gw".into(), namespace: Some("infra".into()), section_name: Some("https".into()) },
        https_redirect_section_name: redirect.map(|r| r.to_string()),
    }
}

fn value_of<'a>(env: &'a [ContainerEnv], name: &str) -> Option<&'a str> {
    env.iter().find(|e| e.name == name).and_then(|e| match &e.source {
        EnvSource::Value(v) => Some(v.as_str()),
        EnvSource::SecretKey { .. } => None,
    })
}

#[test]
fn image_version_takes_the_tag_of_the_last_segment() {
    assert_eq!(image_version("n8nio/n8n:1.80.0"), "1.80.0");
    assert_eq!(image_version("n8nio/n8n"), "latest");
    assert_eq!(image_version("registry:5000/n8n"), "latest");
    assert_eq!(image_version("registry:5000/team/n8n:2"), "2");
    assert_eq!(image_version(""), "latest");
}

#[test]
fn labels_and_annotations() {
    let sel = selector_labels("demo");
    assert_eq!(sel.entries().len(), 2);
    assert_eq!(get(&sel, "app.kubernetes.io/name"), Some("n8n"));
    assert_eq!(get(&sel, "app.kubernetes.io/instance"), Some("demo"));
    let all = common_labels("demo", "n8nio/n8n:1.80.0", "main");
    assert_eq!(all.entries().len(), 6);
    for (k, v) in sel.entries() {
        assert_eq!(get(&all, k), Some(v.as_str()));
    }
    assert_eq!(get(&all, "app.kubernetes.io/managed-by"), Some("n8n-rustful-operator"));
    assert_eq!(get(&all, "app.kubernetes.io/part-of"), Some("n8n"));
    assert_eq!(get(&all, "app.kubernetes.io/component"), Some("main"));
    assert_eq!(get(&all, "app.kubernetes.io/version"), Some("1.80.0"));
    let ann = common_annotations();
    assert_eq!(get(&ann, "n8n.slys.dev/operator-version"), Some("0.1.0"));
}

#[test]
fn generated_keys_are_sixty_four_hex_digits() {
    let a = generate_encryption_key();
    let b = generate_encryption_key();
    assert_eq!(a.len(), 64);
    assert!(a.chars().all(|c| c.is_ascii_digit() || ('a'..='f').contains(&c)));
    assert_ne!(a, b);
}

#[test]
fn key_source_prefers_the_users_reference() {
    match encryption_key_source("demo", None) {
        KeySource::Managed(r) => {
            assert_eq!(r.name, "demo-encryption-key");
            assert_eq!(r.key, "encryption_key");
        },
        other => panic!("unexpected {:?}", other),
    }
    let spec = EncryptionKeySpec { secret_ref: Some(skref("mine", "k")) };
    match encryption_key_source("demo", Some(&spec)) {
        KeySource::Referenced(r) => assert_eq!((r.name.as_str(), r.key.as_str()), ("mine", "k")),
        other => panic!("unexpected {:?}", other),
    }
    assert!(create_conflict_tolerated(409));
    assert!(!create_conflict_tolerated(500));
}

#[test]
fn trace_labels() {
    assert!(TraceLabel::from_trace_id(&[0u8; 16]).is_none());
    let mut b = [0u8; 16];
    b[15] = 0xab;
    b[0] = 0x01;
    let l = TraceLabel::from_trace_id(&b).expect("a valid trace id");
    assert_eq!(l.trace_id, format!("01{}ab", "0".repeat(28)));
}

#[test]
fn api_group_discovery() {
    let groups = vec![
        ApiGroup { name: "gateway.networking.k8s.io".into(), versions: vec!["v1beta1".into(), "v1".into()] },
        ApiGroup { name: "networking.istio.io".into(), versions: vec!["v1beta1".into()] },
    ];
    assert!(gateway_v1_served(&groups));
    assert!(!destination_rule_v1_served(&groups));
    assert!(!gateway_v1_served(&[]));
    assert_eq!(redirect_name("demo"), "demo-redirect");
}

#[test]
fn single_validation_variants() {
    let s = single("illegal", None);
    assert!(matches!(validate_single(&s), Err(Error::IllegalSingle)));
    let both = NetworkingSpec { ingress: tls_ingress().ingress, http_route: Some(route(None)) };
    let s = single("demo", Some(both));
    assert!(matches!(validate_single(&s), Err(Error::ConflictingNetworking)));
    assert!(validate_single(&single("demo", Some(tls_ingress()))).is_ok());
    let mut hostless = single("demo", Some(tls_ingress()));
    hostless.spec.host = None;
    assert!(matches!(validate_single(&hostless), Err(Error::IllegalSingle)));
    hostless.spec.networking = None;
    assert!(validate_single(&hostless).is_ok());
}

#[test]
fn single_plan_and_writes() {
    let s = single("demo", Some(tls_ingress()));
    let owner = single_owner(&s);
    assert_eq!(owner.kind, "Single");
    assert_eq!(owner.uid, "u-1");
    let key = skref("demo-encryption-key", "encryption_key");
    let plan = single_children_plan(&s, &key, &owner);
    assert!(plan.pvc.is_none());
    assert_eq!(plan.deployment.meta.name, "demo");
    assert_eq!(plan.deployment.replicas, Some(1));
    let env = &plan.deployment.template.container.env;
    assert!(value_of(env, "N8N_HOST").is_none());
    assert!(value_of(env, "N8N_PROTOCOL").is_none());
    assert!(value_of(env, "WEBHOOK_URL").is_none());
    assert!(value_of(env, "N8N_EDITOR_BASE_URL").is_none());
    assert_eq!(env[0].name, "N8N_ENCRYPTION_KEY");
    assert_eq!(plan.service.port, 5678);
    let ops = single_ops(plan, "demo", true);
    let kinds: Vec<&str> = ops
        .iter()
        .map(|o| match o {
            Op::ApplyDeployment(_) => "deployment",
            Op::ApplyService(_) => "service",
            Op::ApplyIngress(_) => "ingress",
            Op::RemoveRoutes(_) => "remove-routes",
            _ => "other",
        })
        .collect();
    assert_eq!(kinds, ["deployment", "service", "ingress", "remove-routes"]);
    match &ops[3] {
        Op::RemoveRoutes(names) => assert_eq!(names, &vec!["demo".to_string(), "demo-redirect".to_string()]),
        _ => unreachable!(),
    }
    let st = single_status(&s, "demo-encryption-key");
    assert!(st.ready);
    assert_eq!(st.url.as_deref(), Some("https://n8n.example.com"));
    assert_eq!(st.encryption_key_secret.as_deref(), Some("demo-encryption-key"));
}

#[test]
fn single_route_writes_redirect() {
    let net = NetworkingSpec { ingress: None, http_route: Some(route(Some("http"))) };
    let s = single("demo", Some(net));
    let owner = single_owner(&s);
    let plan = single_children_plan(&s, &skref("k", "k"), &owner);
    let ops = single_ops(plan, "demo", false);
    assert_eq!(ops.len(), 5);
    assert!(matches!(&ops[2], Op::Remove { kind: ObjectKind::Ingress, name, removal: Removal::Strict } if name == "demo"));
    match (&ops[3], &ops[4]) {
        (Op::ApplyHttpRoute(p), Op::ApplyHttpRoute(r)) => {
            assert_eq!(p.meta.name, "demo");
            assert_eq!(p.parent.section_name.as_deref(), Some("https"));
            assert_eq!(r.meta.name, "demo-redirect");
            assert_eq!(r.parent.section_name.as_deref(), Some("http"));
        },
        other => panic!("unexpected {:?}", other),
    }
}

#[test]
fn conflicting_networking_ends_the_writes() {
    let both = NetworkingSpec { ingress: tls_ingress().ingress, http_route: Some(route(None)) };
    let s = single("demo", Some(both));
    let owner = single_owner(&s);
    let plan = single_children_plan(&s, &skref("k", "k"), &owner);
    let ops = single_ops(plan, "demo", true);
    assert_eq!(ops.len(), 3);
    assert!(matches!(ops.last(), Some(Op::Fail(Error::ConflictingNetworking))));
}

fn pg_db() -> DatabaseSpec {
    DatabaseSpec {
        type_: "postgresdb".into(),
        sqlite: None,
        postgres: Some(PostgresConfig {
            host: "pg".into(),
            port: Some(5432),
            database: "n8n".into(),
            user_secret: skref("pg", "user"),
            password_secret: skref("pg", "password"),
            schema: None,
            ssl: None,
            pool_size: None,
            connection_timeout_ms: None,
        }),
        mysql: None,
    }
}

fn cluster(main_replicas: i32, autoscaling: Option<Autoscaling>, webhooks: Option<WebhookConfig>) -> Cluster {
    let mut main = MainConfig::default();
    main.replicas = main_replicas;
    main.host = Some("n8n.example.com".into());
    main.networking = Some(tls_ingress());
    Cluster {
        metadata: meta("prod"),
        spec: ClusterSpec {
            image: "n8nio/n8n:1.80.0".into(),
            encryption_key: None,
            database: pg_db(),
            redis: RedisConfig {
                host: "redis".into(),
                port: Some(6379),
                db: None,
                password_secret: None,
                username_secret: None,
                tls: None,
                prefix: None,
            },
            main,
            workers: WorkerConfig {
                replicas: 3,
                image: None,
                concurrency: Some(10),
                autoscaling,
                extra_env: vec![],
                resources: None,
                pod: None,
                strategy: None,
            },
            webhooks,
            secure_cookie: None,
            extra_env: vec![],
            image_pull_secrets: vec![],
            smtp: None,
            logging: None,
            community_nodes: None,
            binary_data: None,
        },
        status: None,
    }
}

fn webhook_role() -> WebhookConfig {
    WebhookConfig {
        replicas: 2,
        image: None,
        host: Some("hooks.example.com".into()),
        service: None,
        networking: None,
        extra_env: vec![],
        resources: None,
        pod: None,
        strategy: None,
    }
}

#[test]
fn cluster_refuses_sqlite() {
    let mut c = cluster(1, None, None);
    c.spec.database = DatabaseSpec { type_: "sqlite".into(), sqlite: None, postgres: None, mysql: None };
    match validate_cluster(&c) {
        Err(Error::IllegalCluster(m)) => assert_eq!(m, "queue mode requires a shared DB; sqlite is not supported"),
        other => panic!("unexpected {:?}", other),
    }
    assert!(validate_cluster(&cluster(1, None, None)).is_ok());
}

#[test]
fn multi_main_autoscaled_cluster_with_webhooks() {
    let auto = Autoscaling { min_replicas: 2, max_replicas: 6, target_cpu_utilization_percentage: None };
    let c = cluster(2, Some(auto), Some(webhook_role()));
    let owner = cluster_owner(&c);
    let key = skref("prod-encryption-key", "encryption_key");
    let bundle_plan = cluster_bundle(&c, "prod", &key, &owner);
    let bundle = &bundle_plan.bundle;
    assert_eq!(value_of(&bundle.env, "EXECUTIONS_MODE"), Some("queue"));
    let main = main_plan(&c, "prod", "ns", bundle, &owner);
    assert_eq!(main.name, "prod-main");
    assert!(main.multi_main);
    let dr = main.destination_rule.as_ref().expect("sticky sessions for multi-main");
    assert_eq!(dr.host, "prod-main.ns.svc.cluster.local");
    assert_eq!(main.service.session_affinity.as_deref(), Some("ClientIP"));
    let menv = &main.deployment.template.container.env;
    assert_eq!(value_of(menv, "N8N_MULTI_MAIN_SETUP_ENABLED"), Some("true"));
    assert_eq!(value_of(menv, "N8N_DISABLE_PRODUCTION_MAIN_PROCESS"), Some("true"));
    assert_eq!(value_of(menv, "WEBHOOK_URL"), Some("http://hooks.example.com/"));
    assert_eq!(value_of(menv, "N8N_HOST"), Some("n8n.example.com"));
    let worker = worker_plan(&c, "prod", bundle, &owner);
    assert_eq!(worker.deployment.replicas, None);
    let hpa = worker.hpa.as_ref().expect("autoscaled workers get an HPA");
    assert_eq!((hpa.min_replicas, hpa.max_replicas), (2, 6));
    let wenv = &worker.deployment.template.container.env;
    assert_eq!(value_of(wenv, "N8N_CONCURRENCY_PRODUCTION_LIMIT"), Some("10"));
    assert_eq!(value_of(wenv, "QUEUE_HEALTH_CHECK_ACTIVE"), Some("true"));
    assert_eq!(value_of(wenv, "WEBHOOK_URL"), Some("http://hooks.example.com/"));
    assert_eq!(
        worker.deployment.template.container.command,
        Some(vec!["n8n".to_string(), "worker".to_string()])
    );
    let hook = webhook_plan(&c, "prod", bundle, &owner).expect("webhook role");
    assert_eq!(hook.name, "prod-webhook");
    assert_eq!(hook.deployment.replicas, Some(2));
    assert_eq!(value_of(&hook.deployment.template.container.env, "WEBHOOK_URL"), Some("http://hooks.example.com/"));
    let st = cluster_status(&c, "prod-encryption-key");
    assert_eq!((st.main_replicas, st.worker_replicas, st.webhook_replicas), (2, 3, 2));

    let ops = cluster_ops(
        bundle_plan.nodes_pvc,
        bundle_plan.binary_data_pvc,
        main,
        worker,
        Some(hook),
        "prod",
        true,
        false,
    );
    let kinds: Vec<&str> = ops
        .iter()
        .map(|o| match o {
            Op::ApplyDeployment(_) => "deployment",
            Op::ApplyService(_) => "service",
            Op::ApplyIngress(_) => "ingress",
            Op::ApplyDestinationRule(_) => "destination-rule",
            Op::ApplyHpa(_) => "hpa",
            Op::Remove { kind: ObjectKind::Ingress, .. } => "remove-ingress",
            _ => "other",
        })
        .collect();
    assert_eq!(
        kinds,
        [
            "deployment",
            "service",
            "destination-rule",
            "ingress",
            "deployment",
            "hpa",
            "deployment",
            "service",
            "remove-ingress"
        ]
    );
}

#[test]
fn single_main_cluster_without_webhooks_removes_stale_objects() {
    let c = cluster(1, None, None);
    let owner = cluster_owner(&c);
    let key = skref("prod-encryption-key", "encryption_key");
    let bundle_plan = cluster_bundle(&c, "prod", &key, &owner);
    let bundle = &bundle_plan.bundle;
    let main = main_plan(&c, "prod", "ns", bundle, &owner);
    assert!(!main.multi_main);
    assert!(main.destination_rule.is_none());
    let menv = &main.deployment.template.container.env;
    assert_eq!(value_of(menv, "WEBHOOK_URL"), Some("https://n8n.example.com/"));
    assert!(value_of(menv, "N8N_DISABLE_PRODUCTION_MAIN_PROCESS").is_none());
    let worker = worker_plan(&c, "prod", bundle, &owner);
    assert_eq!(worker.deployment.replicas, Some(3));
    assert!(worker.hpa.is_none());
    assert!(webhook_plan(&c, "prod", bundle, &owner).is_none());
    let ops = cluster_ops(None, None, main, worker, None, "prod", true, true);
    let removals: Vec<String> = ops
        .iter()
        .filter_map(|o| match o {
            Op::Remove { kind, name, removal } => Some(format!("{:?} {} {:?}", kind, name, removal)),
            Op::RemoveRoutes(names) => Some(format!("routes {}", names.join(","))),
            _ => None,
        })
        .collect();
    assert_eq!(
        removals,
        [
            "DestinationRule prod-main Lenient",
            "routes prod-main,prod-main-redirect",
            "HorizontalPodAutoscaler prod-worker Strict",
            "Deployment prod-webhook Quiet",
            "Service prod-webhook Quiet",
            "Ingress prod-webhook Quiet",
            "routes prod-webhook,prod-webhook-redirect",
        ]
    );
}

#[test]
fn cluster_checks_every_extra_env_list() {
    let mut c = cluster(1, None, Some(webhook_role()));
    assert!(validate_cluster(&c).is_ok());
    c.spec.webhooks.as_mut().unwrap().extra_env =
        vec![n8n_rustful_operator::spec::EnvVar { name: "QUEUE_BULL_X".into(), value: Some("1".into()), value_from: None }];
    match validate_cluster(&c) {
        Err(Error::IllegalEnv(m)) => assert_eq!(m, "extraEnv may not set operator-managed variable \"QUEUE_BULL_X\""),
        other => panic!("unexpected {:?}", other),
    }
    let mut c = cluster(1, None, None);
    c.spec.workers.extra_env =
        vec![n8n_rustful_operator::spec::EnvVar { name: "N8N_CONCURRENCY_PRODUCTION_LIMIT".into(), value: Some("1".into()), value_from: None }];
    assert!(matches!(validate_cluster(&c), Err(Error::IllegalEnv(_))));
}

#[test]
fn role_extra_env_overrides_cluster_defaults() {
    let mut c = cluster(1, None, None);
    c.spec.extra_env = vec![n8n_rustful_operator::spec::EnvVar {
        name: "N8N_HOST".into(),
        value: Some("cluster.example.com".into()),
        value_from: None,
    }];
    c.spec.main.extra_env = vec![n8n_rustful_operator::spec::EnvVar {
        name: "N8N_HOST".into(),
        value: Some("role.example.com".into()),
        value_from: None,
    }];
    let owner = cluster_owner(&c);
    let key = skref("prod-encryption-key", "encryption_key");
    let bundle_plan = cluster_bundle(&c, "prod", &key, &owner);
    let main = main_plan(&c, "prod", "ns", &bundle_plan.bundle, &owner);
    let env = &main.deployment.template.container.env;
    assert_eq!(env.iter().filter(|e| e.name == "N8N_HOST").count(), 1);
    assert_eq!(value_of(env, "N8N_HOST"), Some("role.example.com"));
    let worker = worker_plan(&c, "prod", &bundle_plan.bundle, &owner);
    assert_eq!(value_of(&worker.deployment.template.container.env, "N8N_HOST"), Some("cluster.example.com"));
}

#[test]
fn ingress_routes_the_host_to_the_service() {
    let s = single("demo", None);
    let owner = single_owner(&s);
    let cfg = IngressConfig { class_name: Some("nginx".into()), tls_secret_name: Some("n8n-tls".into()) };
    let i = n8n_rustful_operator::builders::ingress::build_ingress("demo", "n8nio/n8n:1.80.0", "n8n.example.com", &cfg, &owner);
    assert_eq!(i.meta.name, "demo");
    assert_eq!(get(&i.meta.labels, "app.kubernetes.io/component"), Some("ingress"));
    assert_eq!(i.class_name.as_deref(), Some("nginx"));
    assert_eq!(i.host, "n8n.example.com");
    assert_eq!((i.path.as_str(), i.path_type.as_str()), ("/", "Prefix"));
    assert_eq!((i.service_name.as_str(), i.service_port), ("demo", 5678));
    let tls = i.tls.as_ref().expect("tls");
    assert_eq!((tls.host.as_str(), tls.secret_name.as_str()), ("n8n.example.com", "n8n-tls"));
}

#[test]
fn pod_config_reaches_the_pod_template() {
    let mut s = single("demo", None);
    let mut labels = StrMap::new();
    labels.insert("team".into(), "automation".into());
    labels.insert("app.kubernetes.io/component".into(), "custom".into());
    let mut tol = serde_json::Map::new();
    tol.insert("key".into(), serde_json::Value::String("dedicated".into()));
    tol.insert("operator".into(), serde_json::Value::String("Exists".into()));
    let tolerations = serde_json::Value::Array(vec![serde_json::Value::Object(tol)]);
    let mut sc = serde_json::Map::new();
    sc.insert("fsGroup".into(), serde_json::Value::from(1000));
    s.spec.pod = Some(n8n_rustful_operator::spec::PodConfig {
        service_account_name: Some("n8n".into()),
        node_selector: None,
        tolerations: Some(tolerations.clone()),
        affinity: None,
        security_context: Some(serde_json::Value::Object(sc)),
        pod_labels: Some(labels),
        pod_annotations: None,
    });
    let owner = single_owner(&s);
    let plan = single_children_plan(&s, &skref("k", "k"), &owner);
    let t = &plan.deployment.template;
    assert_eq!(t.tolerations, Some(tolerations));
    assert_eq!(t.service_account_name.as_deref(), Some("n8n"));
    assert_eq!(get(&t.labels, "team"), Some("automation"));
    assert_eq!(get(&t.labels, "app.kubernetes.io/component"), Some("custom"));
    assert_eq!(get(&plan.deployment.meta.labels, "app.kubernetes.io/component"), Some("workflow-engine"));
    assert_eq!(get(&plan.deployment.selector, "app.kubernetes.io/instance"), Some("demo"));
}

fn applied_meta(op: &Op) -> Option<&n8n_rustful_operator::objects::ObjectMetaModel> {
    match op {
        Op::ApplyPvc(m) => Some(&m.meta),
        Op::ApplyDeployment(m) => Some(&m.meta),
        Op::ApplyService(m) => Some(&m.meta),
        Op::ApplyIngress(m) => Some(&m.meta),
        Op::ApplyHttpRoute(m) => Some(&m.meta),
        Op::ApplyDestinationRule(m) => Some(&m.meta),
        Op::ApplyHpa(m) => Some(&m.meta),
        _ => None,
    }
}

#[test]
fn every_applied_object_is_owned_and_managed() {
    let auto = Autoscaling { min_replicas: 1, max_replicas: 3, target_cpu_utilization_percentage: Some(50) };
    let mut hook = webhook_role();
    hook.networking = Some(NetworkingSpec { ingress: None, http_route: Some(route(Some("http"))) });
    let c = cluster(3, Some(auto), Some(hook));
    let owner: OwnerRef = cluster_owner(&c);
    let key = skref("prod-encryption-key", "encryption_key");
    let bp = cluster_bundle(&c, "prod", &key, &owner);
    let main = main_plan(&c, "prod", "ns", &bp.bundle, &owner);
    let worker = worker_plan(&c, "prod", &bp.bundle, &owner);
    let webhook = webhook_plan(&c, "prod", &bp.bundle, &owner);
    let ops = cluster_ops(bp.nodes_pvc, bp.binary_data_pvc, main, worker, webhook, "prod", true, true);
    let metas: Vec<_> = ops.iter().filter_map(applied_meta).collect();
    assert_eq!(metas.len(), 10);
    for m in metas {
        assert_eq!(m.owner.kind, "Cluster");
        assert_eq!(m.owner.name, "prod");
        assert_eq!(m.owner.uid, "u-1");
        assert_eq!(m.owner.controller, Some(true));
        assert_eq!(get(&m.labels, "app.kubernetes.io/managed-by"), Some("n8n-rustful-operator"));
    }
}

#[test]
fn a_missing_key_secret_is_created_with_a_fresh_key() {
    let s = single("demo", None);
    let owner = single_owner(&s);
    let key = skref("demo-encryption-key", "encryption_key");
    assert!(n8n_rustful_operator::reconciler::encryption::missing_key_secret("demo", "n8nio/n8n:1.80.0", "ns", &owner, &key, true).is_none());
    let sec = n8n_rustful_operator::reconciler::encryption::missing_key_secret("demo", "n8nio/n8n:1.80.0", "ns", &owner, &key, false)
        .expect("created when missing");
    assert_eq!(sec.meta.name, "demo-encryption-key");
    assert_eq!(sec.meta.namespace.as_deref(), Some("ns"));
    assert_eq!(sec.key, "encryption_key");
    assert_eq!(sec.value.len(), 64);
    assert_eq!(sec.type_, "Opaque");
    assert_eq!(get(&sec.meta.labels, "app.kubernetes.io/component"), Some("encryption-key"));
}

#[test]
fn a_pass_reports_after_its_writes_and_a_refusal_writes_nothing() {
    let mut hostless = single("demo", Some(tls_ingress()));
    hostless.spec.host = None;
    assert!(matches!(admit_single(&hostless), Admission::Refused(Error::IllegalSingle)));
    let owner = single_owner(&hostless);
    let key = skref("demo-encryption-key", "encryption_key");
    let ops = single_pass(&hostless, &key, &owner, true);
    assert_eq!(ops.len(), 1);
    assert!(matches!(&ops[0], Op::Fail(Error::IllegalSingle)));

    let s = single("demo", Some(tls_ingress()));
    match admit_single(&s) {
        Admission::Admitted(KeySource::Managed(r)) => assert_eq!(r.name, "demo-encryption-key"),
        other => panic!("unexpected {:?}", other),
    }
    let ops = single_pass(&s, &key, &owner, true);
    assert_eq!(ops.len(), 6);
    match &ops[4] {
        Op::Publish { reason, note, action } => {
            assert_eq!(reason, "Applied");
            assert_eq!(note, "Applied child resources for `demo`");
            assert_eq!(action, "Reconciling");
        },
        other => panic!("unexpected {:?}", other),
    }
    match &ops[5] {
        Op::PatchSingleStatus(st) => assert_eq!(st.url.as_deref(), Some("https://n8n.example.com")),
        other => panic!("unexpected {:?}", other),
    }

    let mut c = cluster(1, None, None);
    c.spec.main.networking = Some(NetworkingSpec { ingress: tls_ingress().ingress, http_route: Some(route(None)) });
    assert!(matches!(admit_cluster(&c), Admission::Admitted(_)));
    let owner = cluster_owner(&c);
    let ops = cluster_pass(&c, "ns", &skref("prod-encryption-key", "encryption_key"), &owner, false, false);
    assert!(matches!(ops.last(), Some(Op::Fail(Error::ConflictingNetworking))));
    assert!(!ops.iter().any(|o| matches!(o, Op::Publish { .. } | Op::PatchClusterStatus(_))));

    let mut refused = cluster(1, None, None);
    refused.spec.database.type_ = "sqlite".into();
    refused.spec.database.postgres = None;
    assert!(matches!(admit_cluster(&refused), Admission::Refused(Error::IllegalCluster(_))));
    let ops = cluster_pass(&refused, "ns", &skref("k", "k"), &owner, true, true);
    assert_eq!(ops.len(), 1);

    let ok = cluster(1, None, None);
    let ops = cluster_pass(&ok, "ns", &skref("prod-encryption-key", "encryption_key"), &owner, false, false);
    match (&ops[ops.len() - 2], &ops[ops.len() - 1]) {
        (Op::Publish { note, .. }, Op::PatchClusterStatus(st)) => {
            assert_eq!(note, "Applied cluster children for `prod`");
            assert_eq!(st.encryption_key_secret.as_deref(), Some("prod-encryption-key"));
        },
        other => panic!("unexpected {:?}", other),
    }
}
