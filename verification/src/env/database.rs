//! Database env: `DB_TYPE` and the backend's `DB_*` settings.
use vstd::prelude::*;
use crate::env::{push_env, 
    ContainerEnv, ContainerEnvView, container_env_views, env_bool, env_i32, env_secret, env_str,
    env_u64, env_value, secret_entry, str_entry, value_entry,
};
use crate::spec::{DatabaseSpec, DatabaseSsl, MysqlConfig, PostgresConfig, SqliteConfig};
use crate::text::{bool_text, concat2, decimal, signed_decimal, str_eq};

verus! {

/// The SSL env of a backend whose variables start with `prefix`.
pub open spec fn ssl_env_views(prefix: Seq<char>, ssl: DatabaseSsl) -> Seq<ContainerEnvView> {
    seq![value_entry(prefix + "_SSL_ENABLED"@, bool_text(ssl.enabled))] + (match ssl.reject_unauthorized {
        Some(b) => seq![value_entry(prefix + "_SSL_REJECT_UNAUTHORIZED"@, bool_text(b))],
        None => Seq::empty(),
    }) + (if ssl.ca_secret is Some {
        seq![str_entry(prefix + "_SSL_CA"@, "/etc/n8n/ssl/ca/ca.crt"@)]
    } else {
        Seq::empty()
    }) + (if ssl.cert_secret is Some {
        seq![str_entry(prefix + "_SSL_CERT"@, "/etc/n8n/ssl/cert/cert.crt"@)]
    } else {
        Seq::empty()
    }) + (if ssl.key_secret is Some {
        seq![str_entry(prefix + "_SSL_KEY"@, "/etc/n8n/ssl/key/key.pem"@)]
    } else {
        Seq::empty()
    })
}

/// The PostgreSQL env.
pub open spec fn postgres_env_views(pg: PostgresConfig) -> Seq<ContainerEnvView> {
    seq![value_entry("DB_POSTGRESDB_HOST"@, pg.host@)] + (match pg.port {
        Some(p) => seq![value_entry("DB_POSTGRESDB_PORT"@, signed_decimal(p as int))],
        None => Seq::empty(),
    }) + seq![
        value_entry("DB_POSTGRESDB_DATABASE"@, pg.database@),
        secret_entry("DB_POSTGRESDB_USER"@, pg.user_secret),
        secret_entry("DB_POSTGRESDB_PASSWORD"@, pg.password_secret),
    ] + (match pg.schema {
        Some(s) => seq![value_entry("DB_POSTGRESDB_SCHEMA"@, s@)],
        None => Seq::empty(),
    }) + (match pg.pool_size {
        Some(n) => seq![value_entry("DB_POSTGRESDB_POOL_SIZE"@, decimal(n as nat))],
        None => Seq::empty(),
    }) + (match pg.connection_timeout_ms {
        Some(n) => seq![value_entry("DB_POSTGRESDB_CONNECTION_TIMEOUT"@, decimal(n as nat))],
        None => Seq::empty(),
    }) + (match pg.ssl {
        Some(ssl) => ssl_env_views("DB_POSTGRESDB"@, ssl),
        None => Seq::empty(),
    })
}

spec fn pg_schema_part(pg: PostgresConfig) -> Seq<ContainerEnvView> {
    match pg.schema {
        Some(s) => seq![value_entry("DB_POSTGRESDB_SCHEMA"@, s@)],
        None => Seq::empty(),
    }
}

spec fn pg_ssl_part(pg: PostgresConfig) -> Seq<ContainerEnvView> {
    match pg.ssl {
        Some(ssl) => ssl_env_views("DB_POSTGRESDB"@, ssl),
        None => Seq::empty(),
    }
}

/// The MySQL / MariaDB env.
pub open spec fn mysql_env_views(my: MysqlConfig) -> Seq<ContainerEnvView> {
    seq![value_entry("DB_MYSQLDB_HOST"@, my.host@)] + (match my.port {
        Some(p) => seq![value_entry("DB_MYSQLDB_PORT"@, signed_decimal(p as int))],
        None => Seq::empty(),
    }) + seq![
        value_entry("DB_MYSQLDB_DATABASE"@, my.database@),
        value_entry("DB_MYSQLDB_USER"@, my.user@),
        secret_entry("DB_MYSQLDB_PASSWORD"@, my.password_secret),
    ] + (match my.connection_timeout_ms {
        Some(n) => seq![value_entry("DB_MYSQLDB_CONNECTION_TIMEOUT"@, decimal(n as nat))],
        None => Seq::empty(),
    }) + (match my.ssl {
        Some(ssl) => ssl_env_views("DB_MYSQLDB"@, ssl),
        None => Seq::empty(),
    })
}

/// The SQLite env.
pub open spec fn sqlite_env_views(sq: SqliteConfig) -> Seq<ContainerEnvView> {
    (match sq.pool_size {
        Some(n) => seq![value_entry("DB_SQLITE_POOL_SIZE"@, decimal(n as nat))],
        None => Seq::empty(),
    }) + (match sq.vacuum_on_startup {
        Some(b) => seq![value_entry("DB_SQLITE_VACUUM_ON_STARTUP"@, bool_text(b))],
        None => Seq::empty(),
    }) + (match sq.database {
        Some(d) => seq![value_entry("DB_SQLITE_DATABASE"@, d@)],
        None => Seq::empty(),
    })
}

/// `DB_TYPE`, then the settings of the block that belongs to the type, if present.
pub open spec fn db_env_views(db: DatabaseSpec) -> Seq<ContainerEnvView> {
    let t = db.type_@;
    seq![value_entry("DB_TYPE"@, t)] + if t == "postgresdb"@ {
        match db.postgres {
            Some(pg) => postgres_env_views(pg),
            None => Seq::empty(),
        }
    } else if t == "mysqldb"@ || t == "mariadb"@ {
        match db.mysql {
            Some(my) => mysql_env_views(my),
            None => Seq::empty(),
        }
    } else if t == "sqlite"@ {
        match db.sqlite {
            Some(sq) => sqlite_env_views(sq),
            None => Seq::empty(),
        }
    } else {
        Seq::empty()
    }
}

/// Appends the SSL env of a backend.
pub fn push_ssl_env(out: &mut Vec<ContainerEnv>, prefix: &str, ssl: &DatabaseSsl)
    ensures
        container_env_views(final(out)@) == container_env_views(old(out)@) + ssl_env_views(prefix@, *ssl),
{
    let ghost start = container_env_views(out@);
    let n1 = concat2(prefix, "_SSL_ENABLED");
    push_env(out, env_bool(n1.as_str(), ssl.enabled));
    if let Some(r) = ssl.reject_unauthorized {
        let n = concat2(prefix, "_SSL_REJECT_UNAUTHORIZED");
        push_env(out, env_bool(n.as_str(), r));
    }
    if ssl.ca_secret.is_some() {
        let n = concat2(prefix, "_SSL_CA");
        push_env(out, env_str(n.as_str(), "/etc/n8n/ssl/ca/ca.crt"));
    }
    if ssl.cert_secret.is_some() {
        let n = concat2(prefix, "_SSL_CERT");
        push_env(out, env_str(n.as_str(), "/etc/n8n/ssl/cert/cert.crt"));
    }
    if ssl.key_secret.is_some() {
        let n = concat2(prefix, "_SSL_KEY");
        push_env(out, env_str(n.as_str(), "/etc/n8n/ssl/key/key.pem"));
    }
    assert(container_env_views(out@) =~= start + ssl_env_views(prefix@, *ssl));
}

#[verifier::rlimit(60)]
fn postgres_env(out: &mut Vec<ContainerEnv>, pg: &PostgresConfig)
    ensures
        container_env_views(final(out)@) == container_env_views(old(out)@) + postgres_env_views(*pg),
{
    let ghost start = container_env_views(out@);
    push_env(out, env_value("DB_POSTGRESDB_HOST", pg.host.as_str()));
    if let Some(p) = pg.port {
        push_env(out, env_i32("DB_POSTGRESDB_PORT", p));
    }
    let ghost part1 = seq![value_entry("DB_POSTGRESDB_HOST"@, pg.host@)] + (match pg.port {
        Some(p) => seq![value_entry("DB_POSTGRESDB_PORT"@, signed_decimal(p as int))],
        None => Seq::empty(),
    });
    assert(container_env_views(out@) =~= start + part1);
    push_env(out, env_value("DB_POSTGRESDB_DATABASE", pg.database.as_str()));
    push_env(out, env_secret("DB_POSTGRESDB_USER", &pg.user_secret));
    push_env(out, env_secret("DB_POSTGRESDB_PASSWORD", &pg.password_secret));
    let ghost part2 = seq![
        value_entry("DB_POSTGRESDB_DATABASE"@, pg.database@),
        secret_entry("DB_POSTGRESDB_USER"@, pg.user_secret),
        secret_entry("DB_POSTGRESDB_PASSWORD"@, pg.password_secret),
    ];
    assert(container_env_views(out@) =~= start + part1 + part2);
    let ghost mid = container_env_views(out@);
    if let Some(s) = &pg.schema {
        push_env(out, env_value("DB_POSTGRESDB_SCHEMA", s.as_str()));
    }
    let ghost part3 = pg_schema_part(*pg);
    assert(container_env_views(out@) =~= mid + part3);
    let ghost mid2 = container_env_views(out@);
    if let Some(sz) = pg.pool_size {
        push_env(out, env_u64("DB_POSTGRESDB_POOL_SIZE", sz as u64));
    }
    let ghost part4 = match pg.pool_size {
        Some(n) => seq![value_entry("DB_POSTGRESDB_POOL_SIZE"@, decimal(n as nat))],
        None => Seq::<ContainerEnvView>::empty(),
    };
    assert(container_env_views(out@) =~= mid2 + part4);
    let ghost mid3 = container_env_views(out@);
    if let Some(t) = pg.connection_timeout_ms {
        push_env(out, env_u64("DB_POSTGRESDB_CONNECTION_TIMEOUT", t as u64));
    }
    let ghost part5 = match pg.connection_timeout_ms {
        Some(n) => seq![value_entry("DB_POSTGRESDB_CONNECTION_TIMEOUT"@, decimal(n as nat))],
        None => Seq::<ContainerEnvView>::empty(),
    };
    assert(container_env_views(out@) =~= mid3 + part5);
    let ghost mid4 = container_env_views(out@);
    if let Some(ssl) = &pg.ssl {
        push_ssl_env(out, "DB_POSTGRESDB", ssl);
    }
    let ghost part6 = pg_ssl_part(*pg);
    assert(container_env_views(out@) =~= mid4 + part6);
    assert(postgres_env_views(*pg) =~= part1 + part2 + part3 + part4 + part5 + part6);
    assert(container_env_views(out@) =~= start + postgres_env_views(*pg));
}

fn mysql_env(out: &mut Vec<ContainerEnv>, my: &MysqlConfig)
    ensures
        container_env_views(final(out)@) == container_env_views(old(out)@) + mysql_env_views(*my),
{
    let ghost start = container_env_views(out@);
    push_env(out, env_value("DB_MYSQLDB_HOST", my.host.as_str()));
    if let Some(p) = my.port {
        push_env(out, env_i32("DB_MYSQLDB_PORT", p));
    }
    push_env(out, env_value("DB_MYSQLDB_DATABASE", my.database.as_str()));
    push_env(out, env_value("DB_MYSQLDB_USER", my.user.as_str()));
    push_env(out, env_secret("DB_MYSQLDB_PASSWORD", &my.password_secret));
    if let Some(t) = my.connection_timeout_ms {
        push_env(out, env_u64("DB_MYSQLDB_CONNECTION_TIMEOUT", t as u64));
    }
    if let Some(ssl) = &my.ssl {
        push_ssl_env(out, "DB_MYSQLDB", ssl);
    }
    assert(container_env_views(out@) =~= start + mysql_env_views(*my));
}

fn sqlite_env(out: &mut Vec<ContainerEnv>, sq: &SqliteConfig)
    ensures
        container_env_views(final(out)@) == container_env_views(old(out)@) + sqlite_env_views(*sq),
{
    let ghost start = container_env_views(out@);
    if let Some(sz) = sq.pool_size {
        push_env(out, env_u64("DB_SQLITE_POOL_SIZE", sz as u64));
    }
    if let Some(v) = sq.vacuum_on_startup {
        push_env(out, env_bool("DB_SQLITE_VACUUM_ON_STARTUP", v));
    }
    if let Some(d) = &sq.database {
        push_env(out, env_value("DB_SQLITE_DATABASE", d.as_str()));
    }
    assert(container_env_views(out@) =~= start + sqlite_env_views(*sq));
}

/// Maps the database block to `DB_TYPE` and the backend's `DB_*` env.
pub fn build_db_env(db: &DatabaseSpec) -> (r: Vec<ContainerEnv>)
    ensures
        container_env_views(r@) == db_env_views(*db),
{
    let mut out: Vec<ContainerEnv> = Vec::new();
    push_env(&mut out, env_value("DB_TYPE", db.type_.as_str()));
    assert(container_env_views(out@) =~= seq![value_entry("DB_TYPE"@, db.type_@)]);
    let t = db.type_.as_str();
    if str_eq(t, "postgresdb") {
        if let Some(pg) = &db.postgres {
            postgres_env(&mut out, pg);
        }
    } else if str_eq(t, "mysqldb") || str_eq(t, "mariadb") {
        if let Some(my) = &db.mysql {
            mysql_env(&mut out, my);
        }
    } else if str_eq(t, "sqlite") {
        if let Some(sq) = &db.sqlite {
            sqlite_env(&mut out, sq);
        }
    }
    assert(container_env_views(out@) =~= db_env_views(*db));
    out
}

/// A PostgreSQL database is reached at the configured host (and port, when
/// set) and database, as the user read from `userSecret` with the password
/// read from `passwordSecret`, in the configured schema, with the configured
/// pool size, connection timeout and SSL switches.
pub proof fn postgres_env_reads_its_settings(db: DatabaseSpec)
    requires
        db.type_@ == "postgresdb"@,
        db.postgres is Some,
    ensures
        ({
            let pg = db.postgres->0;
            let env = db_env_views(db);
            &&& env[0] == value_entry("DB_TYPE"@, "postgresdb"@)
            &&& env.contains(value_entry("DB_POSTGRESDB_HOST"@, pg.host@))
            &&& env.contains(value_entry("DB_POSTGRESDB_DATABASE"@, pg.database@))
            &&& env.contains(secret_entry("DB_POSTGRESDB_USER"@, pg.user_secret))
            &&& env.contains(secret_entry("DB_POSTGRESDB_PASSWORD"@, pg.password_secret))
            &&& (pg.port matches Some(p) ==> env.contains(
                value_entry("DB_POSTGRESDB_PORT"@, signed_decimal(p as int)),
            ))
            &&& (pg.schema matches Some(sc) ==> env.contains(value_entry("DB_POSTGRESDB_SCHEMA"@, sc@)))
            &&& (pg.pool_size matches Some(n) ==> env.contains(
                value_entry("DB_POSTGRESDB_POOL_SIZE"@, decimal(n as nat)),
            ))
            &&& (pg.connection_timeout_ms matches Some(n) ==> env.contains(
                value_entry("DB_POSTGRESDB_CONNECTION_TIMEOUT"@, decimal(n as nat)),
            ))
            &&& (pg.ssl matches Some(ssl) ==> env.contains(
                value_entry("DB_POSTGRESDB_SSL_ENABLED"@, bool_text(ssl.enabled)),
            ))
            &&& (pg.ssl matches Some(ssl) ==> (ssl.reject_unauthorized matches Some(b) ==> env.contains(
                value_entry("DB_POSTGRESDB_SSL_REJECT_UNAUTHORIZED"@, bool_text(b)),
            )))
        }),
{
    let pg = db.postgres->0;
    let env = db_env_views(db);
    let pe = postgres_env_views(pg);
    assert(env == seq![value_entry("DB_TYPE"@, db.type_@)] + pe);
    let port_len: int = if pg.port is Some { 1 } else { 0 };
    assert(env[1] == value_entry("DB_POSTGRESDB_HOST"@, pg.host@));
    if let Some(p) = pg.port {
        assert(env[2] == value_entry("DB_POSTGRESDB_PORT"@, signed_decimal(p as int)));
    }
    assert(env[2 + port_len] == value_entry("DB_POSTGRESDB_DATABASE"@, pg.database@));
    assert(env[3 + port_len] == secret_entry("DB_POSTGRESDB_USER"@, pg.user_secret));
    assert(env[4 + port_len] == secret_entry("DB_POSTGRESDB_PASSWORD"@, pg.password_secret));
    if let Some(sc) = pg.schema {
        assert(env[5 + port_len] == value_entry("DB_POSTGRESDB_SCHEMA"@, sc@));
    }
    let sc_len: int = if pg.schema is Some { 1 } else { 0 };
    let ps_len: int = if pg.pool_size is Some { 1 } else { 0 };
    let ct_len: int = if pg.connection_timeout_ms is Some { 1 } else { 0 };
    let at: int = 5 + port_len + sc_len;
    if let Some(n) = pg.pool_size {
        assert(env[at] == value_entry("DB_POSTGRESDB_POOL_SIZE"@, decimal(n as nat)));
    }
    if let Some(n) = pg.connection_timeout_ms {
        assert(env[at + ps_len] == value_entry("DB_POSTGRESDB_CONNECTION_TIMEOUT"@, decimal(n as nat)));
    }
    if let Some(ssl) = pg.ssl {
        let se = ssl_env_views("DB_POSTGRESDB"@, ssl);
        reveal_strlit("DB_POSTGRESDB");
        reveal_strlit("_SSL_ENABLED");
        reveal_strlit("DB_POSTGRESDB_SSL_ENABLED");
        assert("DB_POSTGRESDB"@ + "_SSL_ENABLED"@ =~= "DB_POSTGRESDB_SSL_ENABLED"@);
        assert(env[at + ps_len + ct_len] == se[0]);
        if let Some(b) = ssl.reject_unauthorized {
            reveal_strlit("_SSL_REJECT_UNAUTHORIZED");
            reveal_strlit("DB_POSTGRESDB_SSL_REJECT_UNAUTHORIZED");
            assert("DB_POSTGRESDB"@ + "_SSL_REJECT_UNAUTHORIZED"@ =~= "DB_POSTGRESDB_SSL_REJECT_UNAUTHORIZED"@);
            assert(env[at + ps_len + ct_len + 1] == se[1]);
        }
    }
}

/// A MySQL or MariaDB database is reached at the configured host (and port,
/// when set) and database, as the configured user with the password read from
/// `passwordSecret`, with the configured connection timeout and SSL switches.
pub proof fn mysql_env_reads_its_settings(db: DatabaseSpec)
    requires
        db.type_@ == "mysqldb"@ || db.type_@ == "mariadb"@,
        db.mysql is Some,
    ensures
        ({
            let my = db.mysql->0;
            let env = db_env_views(db);
            &&& env[0] == value_entry("DB_TYPE"@, db.type_@)
            &&& env.contains(value_entry("DB_MYSQLDB_HOST"@, my.host@))
            &&& env.contains(value_entry("DB_MYSQLDB_DATABASE"@, my.database@))
            &&& env.contains(value_entry("DB_MYSQLDB_USER"@, my.user@))
            &&& env.contains(secret_entry("DB_MYSQLDB_PASSWORD"@, my.password_secret))
            &&& (my.port matches Some(p) ==> env.contains(
                value_entry("DB_MYSQLDB_PORT"@, signed_decimal(p as int)),
            ))
            &&& (my.connection_timeout_ms matches Some(n) ==> env.contains(
                value_entry("DB_MYSQLDB_CONNECTION_TIMEOUT"@, decimal(n as nat)),
            ))
            &&& (my.ssl matches Some(ssl) ==> env.contains(
                value_entry("DB_MYSQLDB_SSL_ENABLED"@, bool_text(ssl.enabled)),
            ))
            &&& (my.ssl matches Some(ssl) ==> (ssl.reject_unauthorized matches Some(b) ==> env.contains(
                value_entry("DB_MYSQLDB_SSL_REJECT_UNAUTHORIZED"@, bool_text(b)),
            )))
        }),
{
    reveal_strlit("postgresdb");
    reveal_strlit("mysqldb");
    reveal_strlit("mariadb");
    assert("postgresdb"@.len() != "mysqldb"@.len());
    assert("postgresdb"@.len() != "mariadb"@.len());
    let my = db.mysql->0;
    let env = db_env_views(db);
    let me = mysql_env_views(my);
    assert(env == seq![value_entry("DB_TYPE"@, db.type_@)] + me);
    let port_len: int = if my.port is Some { 1 } else { 0 };
    assert(env[1] == value_entry("DB_MYSQLDB_HOST"@, my.host@));
    if let Some(p) = my.port {
        assert(env[2] == value_entry("DB_MYSQLDB_PORT"@, signed_decimal(p as int)));
    }
    assert(env[2 + port_len] == value_entry("DB_MYSQLDB_DATABASE"@, my.database@));
    assert(env[3 + port_len] == value_entry("DB_MYSQLDB_USER"@, my.user@));
    assert(env[4 + port_len] == secret_entry("DB_MYSQLDB_PASSWORD"@, my.password_secret));
    let ct_len: int = if my.connection_timeout_ms is Some { 1 } else { 0 };
    if let Some(n) = my.connection_timeout_ms {
        assert(env[5 + port_len] == value_entry("DB_MYSQLDB_CONNECTION_TIMEOUT"@, decimal(n as nat)));
    }
    if let Some(ssl) = my.ssl {
        let se = ssl_env_views("DB_MYSQLDB"@, ssl);
        reveal_strlit("DB_MYSQLDB");
        reveal_strlit("_SSL_ENABLED");
        reveal_strlit("DB_MYSQLDB_SSL_ENABLED");
        assert("DB_MYSQLDB"@ + "_SSL_ENABLED"@ =~= "DB_MYSQLDB_SSL_ENABLED"@);
        assert(env[5 + port_len + ct_len] == se[0]);
        if let Some(b) = ssl.reject_unauthorized {
            reveal_strlit("_SSL_REJECT_UNAUTHORIZED");
            reveal_strlit("DB_MYSQLDB_SSL_REJECT_UNAUTHORIZED");
            assert("DB_MYSQLDB"@ + "_SSL_REJECT_UNAUTHORIZED"@ =~= "DB_MYSQLDB_SSL_REJECT_UNAUTHORIZED"@);
            assert(env[5 + port_len + ct_len + 1] == se[1]);
        }
    }
}

} // verus!
