use n8n_rustful_operator::error::Error;
use n8n_rustful_operator::spec::{
    BinaryDataSpec, CommunityNodesConfig, CommunityPackage, DatabaseSpec, EnvVar, EnvVarSource,
    MysqlConfig, PostgresConfig, S3Config, SecretKeyRef, SharedStorage, SmtpAuth, SmtpConfig,
};
use n8n_rustful_operator::validate::{
    validate_binary_data, validate_community, validate_database, validate_extra_env, validate_smtp,
};

fn skref(name: &str, key: &str) -> SecretKeyRef {
    SecretKeyRef { name: name.into(), key: key.into() }
}

fn pg() -> PostgresConfig {
    PostgresConfig {
        host: "h".into(),
        port: None,
        database: "d".into(),
        user_secret: skref("s", "user"),
        password_secret: skref("s", "pw"),
        schema: None,
        ssl: None,
        pool_size: None,
        connection_timeout_ms: None,
    }
}

fn mysql() -> MysqlConfig {
    MysqlConfig {
        host: "h".into(),
        port: None,
        database: "d".into(),
        user: "u".into(),
        password_secret: skref("s", "pw"),
        ssl: None,
        connection_timeout_ms: None,
    }
}

fn db(type_: &str) -> DatabaseSpec {
    DatabaseSpec { type_: type_.into(), sqlite: None, postgres: None, mysql: None }
}

#[test]
fn database_postgres_requires_block_then_ok() {
    let mut d = db("postgresdb");
    assert!(validate_database(&d).is_err());
    d.postgres = Some(pg());
    assert!(validate_database(&d).is_ok());
}

#[test]
fn database_rejects_cross_type_extras() {
    let d = DatabaseSpec {
        type_: "postgresdb".into(),
        postgres: Some(pg()),
        mysql: Some(mysql()),
        sqlite: None,
    };
    assert!(validate_database(&d).is_err());
}

#[test]
fn database_mysql_sqlite_unknown() {
    let mut my = db("mysqldb");
    assert!(validate_database(&my).is_err());
    my.mysql = Some(mysql());
    assert!(validate_database(&my).is_ok());

    let mut sq = db("sqlite");
    assert!(validate_database(&sq).is_ok());
    sq.postgres = Some(pg());
    assert!(validate_database(&sq).is_err());

    assert!(validate_database(&db("nope")).is_err());
}

fn ev_val(name: &str) -> EnvVar {
    EnvVar { name: name.into(), value: Some("v".into()), value_from: None }
}

#[test]
fn extra_env_rules() {
    assert!(validate_extra_env(&[ev_val("OK")]).is_ok());
    assert!(validate_extra_env(&[ev_val("DB_FOO")]).is_err());
    assert!(validate_extra_env(&[ev_val("N8N_ENCRYPTION_KEY")]).is_err());
    assert!(validate_extra_env(&[EnvVar { name: "X".into(), value: None, value_from: None }]).is_err());
    assert!(validate_extra_env(&[EnvVar {
        name: "X".into(),
        value: Some("v".into()),
        value_from: Some(EnvVarSource { secret_ref: skref("s", "k") }),
    }])
    .is_err());
}

#[test]
fn smtp_rules() {
    assert!(validate_smtp(None).is_ok());
    let mut s = SmtpConfig {
        host: "h".into(),
        port: 587,
        sender: "a@b".into(),
        ssl: None,
        start_tls: None,
        auth: Some(SmtpAuth { user_secret: skref("s", "u"), password_secret: skref("s", "p") }),
    };
    assert!(validate_smtp(Some(&s)).is_ok());
    s.port = 0;
    assert!(validate_smtp(Some(&s)).is_err());
}

fn cn() -> CommunityNodesConfig {
    CommunityNodesConfig { enabled: Some(true), packages: vec![], shared_storage: None, reinstall_missing: None }
}

fn rwx() -> SharedStorage {
    SharedStorage { size: "1Gi".into(), storage_class_name: None, access_mode: "ReadWriteMany".into() }
}

fn pkg() -> CommunityPackage {
    CommunityPackage { name: "n8n-nodes-x".into(), version: None, checksum: None }
}

#[test]
fn community_single_strategy_ok() {
    assert!(validate_community(None).is_ok());
    assert!(validate_community(Some(&cn())).is_ok());
    let mut p = cn();
    p.packages = vec![pkg()];
    assert!(validate_community(Some(&p)).is_ok());
    let mut s = cn();
    s.shared_storage = Some(rwx());
    assert!(validate_community(Some(&s)).is_ok());
    let mut r = cn();
    r.reinstall_missing = Some(true);
    assert!(validate_community(Some(&r)).is_ok());
}

#[test]
fn community_multiple_strategies_rejected() {
    let mut both = cn();
    both.packages = vec![pkg()];
    both.shared_storage = Some(rwx());
    assert!(validate_community(Some(&both)).is_err());

    let mut pr = cn();
    pr.packages = vec![pkg()];
    pr.reinstall_missing = Some(true);
    assert!(validate_community(Some(&pr)).is_err());
}

fn s3() -> S3Config {
    S3Config {
        host: "h".into(),
        bucket: "b".into(),
        region: "r".into(),
        access_key_secret: skref("s", "ak"),
        access_secret_secret: skref("s", "as"),
    }
}

fn bd(mode: &str, s3: Option<S3Config>, shared: Option<SharedStorage>) -> BinaryDataSpec {
    BinaryDataSpec { mode: mode.into(), s3, shared_storage: shared }
}

#[test]
fn binary_data_modes() {
    assert!(validate_binary_data(None).is_ok());
    for m in ["default", "database", "filesystem"] {
        assert!(validate_binary_data(Some(&bd(m, None, None))).is_ok());
    }
    assert!(validate_binary_data(Some(&bd("memory", None, None))).is_err());
}

#[test]
fn binary_data_s3_and_shared_storage_rules() {
    assert!(validate_binary_data(Some(&bd("s3", None, None))).is_err());
    assert!(validate_binary_data(Some(&bd("s3", Some(s3()), None))).is_ok());
    assert!(validate_binary_data(Some(&bd("filesystem", None, Some(rwx())))).is_ok());
    assert!(validate_binary_data(Some(&bd("database", None, Some(rwx())))).is_err());
}

// ----- the messages and variants of each refusal -----

fn database_message(r: Result<(), Error>) -> String {
    match r {
        Err(Error::IllegalDatabase(m)) => m,
        other => panic!("expected IllegalDatabase, got {:?}", other),
    }
}

#[test]
fn database_messages_name_the_offence() {
    assert_eq!(database_message(validate_database(&db("postgresdb"))), "type=postgresdb requires .database.postgres");
    assert_eq!(database_message(validate_database(&db("mariadb"))), "type=mariadb requires .database.mysql");
    assert_eq!(database_message(validate_database(&db("nope"))), "unknown type \"nope\"");
    let mut sq = db("sqlite");
    sq.postgres = Some(pg());
    sq.mysql = Some(mysql());
    assert_eq!(database_message(validate_database(&sq)), "type=sqlite but .postgres, .mysql also set");
    let mut my = db("mysqldb");
    my.mysql = Some(mysql());
    my.postgres = Some(pg());
    assert_eq!(database_message(validate_database(&my)), "type=mysqldb but .postgres also set");
}

#[test]
fn extra_env_messages_quote_the_name() {
    match validate_extra_env(&[ev_val("OK"), ev_val("QUEUE_BULL_REDIS_HOST")]) {
        Err(Error::IllegalEnv(m)) => {
            assert_eq!(m, "extraEnv may not set operator-managed variable \"QUEUE_BULL_REDIS_HOST\"")
        },
        other => panic!("unexpected {:?}", other),
    }
    match validate_extra_env(&[EnvVar { name: "A\"B".into(), value: None, value_from: None }]) {
        Err(Error::IllegalEnv(m)) => assert_eq!(m, "extraEnv \"A\\\"B\" must set exactly one of value or valueFrom"),
        other => panic!("unexpected {:?}", other),
    }
    assert!(validate_extra_env(&[]).is_ok());
    assert!(validate_extra_env(&[ev_val("DB")]).is_ok());
    assert!(validate_extra_env(&[ev_val("EXECUTIONS_MODE")]).is_err());
}

#[test]
fn smtp_and_community_variants() {
    let s = SmtpConfig { host: "h".into(), port: 0, sender: "a@b".into(), ssl: None, start_tls: None, auth: None };
    match validate_smtp(Some(&s)) {
        Err(Error::IllegalSmtp(m)) => assert_eq!(m, "smtp.port must be 1-65535"),
        other => panic!("unexpected {:?}", other),
    }
    let mut all = cn();
    all.packages = vec![pkg()];
    all.shared_storage = Some(rwx());
    all.reinstall_missing = Some(true);
    match validate_community(Some(&all)) {
        Err(Error::IllegalCluster(m)) => {
            assert_eq!(m, "communityNodes: set at most one of packages, sharedStorage, reinstallMissing=true")
        },
        other => panic!("unexpected {:?}", other),
    }
    let mut off = cn();
    off.packages = vec![pkg()];
    off.reinstall_missing = Some(false);
    assert!(validate_community(Some(&off)).is_ok());
}

#[test]
fn binary_data_messages() {
    match validate_binary_data(Some(&bd("memory", None, None))) {
        Err(Error::IllegalCluster(m)) => {
            assert_eq!(m, "unknown binaryData.mode \"memory\" (want default, database, filesystem or s3)")
        },
        other => panic!("unexpected {:?}", other),
    }
    match validate_binary_data(Some(&bd("s3", None, None))) {
        Err(Error::IllegalCluster(m)) => assert_eq!(m, "binaryData.mode=s3 requires .binaryData.s3"),
        other => panic!("unexpected {:?}", other),
    }
    match validate_binary_data(Some(&bd("s3", Some(s3()), Some(rwx())))) {
        Err(Error::IllegalCluster(m)) => {
            assert_eq!(m, "binaryData.sharedStorage is only valid with mode=filesystem")
        },
        other => panic!("unexpected {:?}", other),
    }
}

#[test]
fn errors_read_like_their_variant() {
    assert_eq!(Error::IllegalSingle.message(), "IllegalSingle");
    assert_eq!(
        Error::ConflictingNetworking.message(),
        "ConflictingNetworking: spec.networking.ingress and spec.networking.httpRoute are mutually exclusive"
    );
    assert_eq!(Error::IllegalDatabase("x".into()).message(), "IllegalDatabase: x");
    assert_eq!(Error::IllegalCluster("y".into()).message(), "IllegalCluster: y");
    assert_eq!(Error::IllegalEnv("z".into()).message(), "IllegalEnv: z");
    assert_eq!(Error::IllegalSmtp("p".into()).message(), "IllegalSmtp: p");
    assert_eq!(Error::IllegalStrategy("q".into()).message(), "IllegalStrategy: q");
}
