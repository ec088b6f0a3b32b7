use n8n_rustful_operator::env::community::build_community_env;
use n8n_rustful_operator::env::logging::build_logging_env;
use n8n_rustful_operator::env::{
    ContainerEnv, EnvSource, build_user_env, env_str, host_env, protocol_for, render_user_env,
    webhook_url_env,
};
use n8n_rustful_operator::spec::{
    CommunityNodesConfig, CommunityPackage, EnvVar, EnvVarSource, GatewayRef, HttpRouteConfig,
    IngressConfig, LoggingConfig, NetworkingSpec, SecretKeyRef, SharedStorage,
};
use n8n_rustful_operator::text::{bool_to_text, i64_text, json_trimmed_text, u64_text};

#[test]
fn logging_env_maps_set_fields() {
    let l = LoggingConfig {
        level: Some("debug".into()),
        output: Some("console".into()),
        diagnostics: Some(true),
        version_notifications: Some(false),
        metrics: Some(true),
    };
    let env = build_logging_env(&l);
    let by_name = |n: &str| env.iter().find(|e| e.name == n).and_then(|e| e.value.as_deref());
    assert_eq!(by_name("N8N_LOG_LEVEL"), Some("debug"));
    assert_eq!(by_name("N8N_LOG_OUTPUT"), Some("console"));
    assert_eq!(by_name("N8N_DIAGNOSTICS_ENABLED"), Some("true"));
    assert_eq!(by_name("N8N_VERSION_NOTIFICATIONS_ENABLED"), Some("false"));
    assert_eq!(by_name("N8N_METRICS"), Some("true"));
}

#[test]
fn logging_env_omits_unset_fields() {
    let l = LoggingConfig { level: Some("info".into()), ..Default::default() };
    let names: Vec<_> = build_logging_env(&l).into_iter().map(|e| e.name).collect();
    assert_eq!(names, ["N8N_LOG_LEVEL"]);
}

#[test]
fn packages_enable_declarative_management() {
    let cn = CommunityNodesConfig {
        enabled: Some(true),
        packages: vec![
            CommunityPackage { name: "n8n-nodes-foo".into(), version: Some("1.2.3".into()), checksum: None },
            CommunityPackage { name: "n8n-nodes-bar".into(), version: None, checksum: None },
        ],
        shared_storage: None,
        reinstall_missing: None,
    };
    let env = build_community_env(&cn);
    let by_name = |n: &str| env.iter().find(|e| e.name == n).and_then(|e| e.value.as_deref());
    assert_eq!(by_name("N8N_COMMUNITY_PACKAGES_ENABLED"), Some("true"));
    assert_eq!(by_name("N8N_COMMUNITY_PACKAGES_MANAGED_BY_ENV"), Some("true"));
    assert_eq!(
        by_name("N8N_COMMUNITY_PACKAGES"),
        Some(r#"[{"name":"n8n-nodes-foo","version":"1.2.3"},{"name":"n8n-nodes-bar"}]"#)
    );
    assert!(by_name("N8N_REINSTALL_MISSING_PACKAGES").is_none());
}

#[test]
fn shared_storage_emits_no_env() {
    let cn = CommunityNodesConfig {
        enabled: None,
        packages: vec![],
        shared_storage: Some(SharedStorage {
            size: "5Gi".into(),
            storage_class_name: None,
            access_mode: "ReadWriteMany".into(),
        }),
        reinstall_missing: None,
    };
    assert!(build_community_env(&cn).is_empty());
}

// ----- own scenarios -----

fn val(name: &str, v: &str) -> EnvVar {
    EnvVar { name: name.into(), value: Some(v.into()), value_from: None }
}

fn sec(name: &str, s: &str, k: &str) -> EnvVar {
    EnvVar {
        name: name.into(),
        value: None,
        value_from: Some(EnvVarSource { secret_ref: SecretKeyRef { name: s.into(), key: k.into() } }),
    }
}

fn value_text(e: &ContainerEnv) -> Option<&str> {
    match &e.source {
        EnvSource::Value(v) => Some(v.as_str()),
        EnvSource::SecretKey { .. } => None,
    }
}

#[test]
fn later_layers_win_and_names_appear_once() {
    let defaults = vec![val("A", "1"), val("B", "2")];
    let cluster = vec![val("B", "3"), sec("C", "creds", "token"), val("B", "4")];
    let role = vec![val("A", "5")];
    let env = build_user_env(&defaults, Some(false), &cluster, &role);
    let names: Vec<&str> = env.iter().map(|e| e.name.as_str()).collect();
    assert_eq!(names, ["A", "B", "N8N_SECURE_COOKIE", "C"]);
    assert_eq!(value_text(&env[0]), Some("5"));
    assert_eq!(value_text(&env[1]), Some("4"));
    assert_eq!(value_text(&env[2]), Some("false"));
    match &env[3].source {
        EnvSource::SecretKey { name, key } => {
            assert_eq!(name, "creds");
            assert_eq!(key, "token");
        },
        other => panic!("unexpected {:?}", other),
    }
}

#[test]
fn extra_env_overrides_secure_cookie_and_defaults() {
    let defaults = vec![val("N8N_HOST", "a.example.com")];
    let role = vec![val("N8N_SECURE_COOKIE", "true"), val("N8N_HOST", "b.example.com")];
    let env = build_user_env(&defaults, Some(false), &[], &role);
    assert_eq!(env.len(), 2);
    assert_eq!(env[0].name, "N8N_HOST");
    assert_eq!(value_text(&env[0]), Some("b.example.com"));
    assert_eq!(env[1].name, "N8N_SECURE_COOKIE");
    assert_eq!(value_text(&env[1]), Some("true"));
    assert!(build_user_env(&[], None, &[], &[]).is_empty());
}

#[test]
fn an_entry_without_value_renders_empty() {
    let e = render_user_env(&EnvVar { name: "X".into(), value: None, value_from: None });
    assert_eq!(e.name, "X");
    assert_eq!(value_text(&e), Some(""));
}

fn ingress(tls: Option<&str>) -> NetworkingSpec {
    NetworkingSpec {
        ingress: Some(IngressConfig { class_name: Some("nginx".into()), tls_secret_name: tls.map(|t| t.to_string()) }),
        http_route: None,
    }
}

fn route() -> NetworkingSpec {
    NetworkingSpec {
        ingress: None,
        http_route: Some(HttpRouteConfig {
            gateway: GatewayRef { name: "gw".into(), namespace: None, section_name: None },
            https_redirect_section_name: None,
        }),
    }
}

#[test]
fn protocol_follows_tls() {
    assert_eq!(protocol_for(None), "http");
    assert_eq!(protocol_for(Some(&ingress(None))), "http");
    assert_eq!(protocol_for(Some(&ingress(Some("n8n-tls")))), "https");
    assert_eq!(protocol_for(Some(&route())), "https");
}

#[test]
fn host_env_derives_urls() {
    assert!(host_env(None, "https").is_empty());
    let env = host_env(Some("n8n.example.com"), "https");
    let pairs: Vec<(String, Option<String>)> = env.into_iter().map(|e| (e.name, e.value)).collect();
    assert_eq!(
        pairs,
        vec![
            ("N8N_HOST".to_string(), Some("n8n.example.com".to_string())),
            ("N8N_PROTOCOL".to_string(), Some("https".to_string())),
            ("WEBHOOK_URL".to_string(), Some("https://n8n.example.com/".to_string())),
            ("N8N_EDITOR_BASE_URL".to_string(), Some("https://n8n.example.com".to_string())),
        ]
    );
    let w = webhook_url_env("hooks.example.com", "http");
    assert_eq!(w.name, "WEBHOOK_URL");
    assert_eq!(w.value.as_deref(), Some("http://hooks.example.com/"));
}

#[test]
fn json_round_trip_escapes_and_trims() {
    assert_eq!(json_trimmed_text("plain"), "plain");
    assert_eq!(json_trimmed_text("a\"b"), "a\\\"b");
    assert_eq!(json_trimmed_text("back\\slash"), "back\\\\slash");
    assert_eq!(json_trimmed_text("line\nbreak"), "line\\nbreak");
    assert_eq!(json_trimmed_text("a\""), "a\\");
    assert_eq!(json_trimmed_text("tab\tbell\u{7}"), "tab\\tbell\\u0007");
    assert_eq!(json_trimmed_text("esc\u{1b}\u{8}\u{c}\r"), "esc\\u001b\\b\\f\\r");
    assert_eq!(json_trimmed_text("ünïcödé/\u{7f}"), "ünïcödé/\u{7f}");
    let e = env_str("X", "say \"hi\"");
    assert_eq!(value_text(&e), Some("say \\\"hi\\"));
}

#[test]
fn numbers_and_booleans_render_like_to_string() {
    assert_eq!(u64_text(0), "0");
    assert_eq!(u64_text(u64::MAX), u64::MAX.to_string());
    assert_eq!(i64_text(-42), "-42");
    assert_eq!(i64_text(i64::MIN), i64::MIN.to_string());
    assert_eq!(i64_text(7), "7");
    assert_eq!(bool_to_text(true), "true");
    assert_eq!(bool_to_text(false), "false");
}
