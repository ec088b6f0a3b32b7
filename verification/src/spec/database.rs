//! Database backend selection.
use vstd::prelude::*;
use crate::spec::common::SecretKeyRef;
use crate::text::owned;

verus! {

/// `sqlite` (default), `postgresdb`, `mysqldb` or `mariadb`, with the block
/// that configures the chosen backend.
#[derive(Debug, Clone)]
pub struct DatabaseSpec {
    pub type_: String,
    pub sqlite: Option<SqliteConfig>,
    pub postgres: Option<PostgresConfig>,
    pub mysql: Option<MysqlConfig>,
}

impl Default for DatabaseSpec {
    fn default() -> (r: Self)
        ensures
            r.type_@ == Seq::<char>::empty(),
            r.sqlite is None,
            r.postgres is None,
            r.mysql is None,
    {
        DatabaseSpec { type_: String::new(), sqlite: None, postgres: None, mysql: None }
    }
}

/// The database type used when none is configured.
pub fn default_db_type() -> (r: String)
    ensures
        r@ == "sqlite"@,
{
    owned("sqlite")
}

#[derive(Debug, Clone)]
pub struct PostgresConfig {
    pub host: String,
    pub port: Option<i32>,
    pub database: String,
    /// DB user, sourced from a Secret.
    pub user_secret: SecretKeyRef,
    pub password_secret: SecretKeyRef,
    pub schema: Option<String>,
    pub ssl: Option<DatabaseSsl>,
    pub pool_size: Option<u32>,
    pub connection_timeout_ms: Option<u32>,
}

#[derive(Debug, Clone)]
pub struct MysqlConfig {
    pub host: String,
    pub port: Option<i32>,
    pub database: String,
    pub user: String,
    pub password_secret: SecretKeyRef,
    pub ssl: Option<DatabaseSsl>,
    pub connection_timeout_ms: Option<u32>,
}

#[derive(Debug, Clone)]
pub struct SqliteConfig {
    pub pool_size: Option<u32>,
    pub vacuum_on_startup: Option<bool>,
    /// Path inside the pod, mapped to `DB_SQLITE_DATABASE`.
    pub database: Option<String>,
}

#[derive(Debug, Clone)]
pub struct DatabaseSsl {
    pub enabled: bool,
    pub reject_unauthorized: Option<bool>,
    pub ca_secret: Option<SecretKeyRef>,
    pub cert_secret: Option<SecretKeyRef>,
    pub key_secret: Option<SecretKeyRef>,
}

} // verus!
