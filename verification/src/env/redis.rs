//! Queue env: Redis settings and the env every cluster role shares.
use vstd::prelude::*;
use crate::env::{push_env, 
    ContainerEnv, ContainerEnvView, container_env_views, env_bool, env_secret, env_str, env_u64,
    env_value, secret_entry, str_entry, value_entry,
};
use crate::env::database::{build_db_env, db_env_views};
use crate::env::storage::{binary_data_env_views, build_binary_data_env};
use crate::spec::{Cluster, RedisConfig, SecretKeyRef};
use crate::text::{bool_text, decimal};

verus! {

/// `QUEUE_BULL_REDIS_HOST`, then port, db, password, username, TLS and prefix when set.
pub open spec fn redis_env_views(redis: RedisConfig) -> Seq<ContainerEnvView> {
    seq![value_entry("QUEUE_BULL_REDIS_HOST"@, redis.host@)] + (match redis.port {
        Some(p) => seq![value_entry("QUEUE_BULL_REDIS_PORT"@, decimal(p as nat))],
        None => Seq::empty(),
    }) + (match redis.db {
        Some(d) => seq![value_entry("QUEUE_BULL_REDIS_DB"@, decimal(d as nat))],
        None => Seq::empty(),
    }) + (match redis.password_secret {
        Some(s) => seq![secret_entry("QUEUE_BULL_REDIS_PASSWORD"@, s)],
        None => Seq::empty(),
    }) + (match redis.username_secret {
        Some(s) => seq![secret_entry("QUEUE_BULL_REDIS_USERNAME"@, s)],
        None => Seq::empty(),
    }) + (match redis.tls {
        Some(b) => seq![value_entry("QUEUE_BULL_REDIS_TLS"@, bool_text(b))],
        None => Seq::empty(),
    }) + (match redis.prefix {
        Some(p) => seq![value_entry("QUEUE_BULL_PREFIX"@, p@)],
        None => Seq::empty(),
    })
}

/// Maps the Redis block to the `QUEUE_BULL_*` env.
pub fn build_redis_env(redis: &RedisConfig) -> (r: Vec<ContainerEnv>)
    ensures
        container_env_views(r@) == redis_env_views(*redis),
{
    let mut out: Vec<ContainerEnv> = Vec::new();
    push_env(&mut out, env_value("QUEUE_BULL_REDIS_HOST", redis.host.as_str()));
    if let Some(p) = redis.port {
        push_env(&mut out, env_u64("QUEUE_BULL_REDIS_PORT", p as u64));
    }
    if let Some(d) = redis.db {
        push_env(&mut out, env_u64("QUEUE_BULL_REDIS_DB", d as u64));
    }
    if let Some(s) = &redis.password_secret {
        push_env(&mut out, env_secret("QUEUE_BULL_REDIS_PASSWORD", s));
    }
    if let Some(s) = &redis.username_secret {
        push_env(&mut out, env_secret("QUEUE_BULL_REDIS_USERNAME", s));
    }
    if let Some(t) = redis.tls {
        push_env(&mut out, env_bool("QUEUE_BULL_REDIS_TLS", t));
    }
    if let Some(p) = &redis.prefix {
        push_env(&mut out, env_value("QUEUE_BULL_PREFIX", p.as_str()));
    }
    assert(container_env_views(out@) =~= redis_env_views(*redis));
    out
}

/// The env every cluster role shares: queue mode, the encryption key, the
/// database, Redis, and binary-data storage.
pub open spec fn cluster_common_env_views(c: Cluster, key_secret: SecretKeyRef) -> Seq<ContainerEnvView> {
    seq![
        str_entry("EXECUTIONS_MODE"@, "queue"@),
        secret_entry("N8N_ENCRYPTION_KEY"@, key_secret),
    ] + db_env_views(c.spec.database) + redis_env_views(c.spec.redis) + match c.spec.binary_data {
        Some(bd) => binary_data_env_views(bd),
        None => Seq::empty(),
    }
}

fn extend(out: &mut Vec<ContainerEnv>, src: Vec<ContainerEnv>)
    ensures
        final(out)@ == old(out)@ + src@,
{
    let mut src = src;
    out.append(&mut src);
}

/// The shared env of a cluster's roles.
pub fn build_cluster_common_env(c: &Cluster, key_secret: &SecretKeyRef) -> (r: Vec<ContainerEnv>)
    ensures
        container_env_views(r@) == cluster_common_env_views(*c, *key_secret),
{
    let mut env: Vec<ContainerEnv> = Vec::new();
    push_env(&mut env, env_str("EXECUTIONS_MODE", "queue"));
    push_env(&mut env, env_secret("N8N_ENCRYPTION_KEY", key_secret));
    extend(&mut env, build_db_env(&c.spec.database));
    extend(&mut env, build_redis_env(&c.spec.redis));
    if let Some(bd) = &c.spec.binary_data {
        extend(&mut env, build_binary_data_env(bd));
    }
    assert(container_env_views(env@) =~= cluster_common_env_views(*c, *key_secret));
    env
}

/// The queue is reached at the configured Redis host (and port, database, TLS
/// switch and key prefix when set), with the password and user name each read
/// from its own Secret key.
pub proof fn redis_env_carries_its_settings(redis: RedisConfig)
    ensures
        ({
            let env = redis_env_views(redis);
            &&& env[0] == value_entry("QUEUE_BULL_REDIS_HOST"@, redis.host@)
            &&& (redis.port matches Some(p) ==> env.contains(value_entry("QUEUE_BULL_REDIS_PORT"@, decimal(p as nat))))
            &&& (redis.db matches Some(d) ==> env.contains(value_entry("QUEUE_BULL_REDIS_DB"@, decimal(d as nat))))
            &&& (redis.password_secret matches Some(s) ==> env.contains(secret_entry("QUEUE_BULL_REDIS_PASSWORD"@, s)))
            &&& (redis.username_secret matches Some(s) ==> env.contains(secret_entry("QUEUE_BULL_REDIS_USERNAME"@, s)))
            &&& (redis.tls matches Some(t) ==> env.contains(value_entry("QUEUE_BULL_REDIS_TLS"@, bool_text(t))))
            &&& (redis.prefix matches Some(p) ==> env.contains(value_entry("QUEUE_BULL_PREFIX"@, p@)))
        }),
{
    let env = redis_env_views(redis);
    let a: int = if redis.port is Some { 1 } else { 0 };
    let b: int = if redis.db is Some { 1 } else { 0 };
    let c: int = if redis.password_secret is Some { 1 } else { 0 };
    let d: int = if redis.username_secret is Some { 1 } else { 0 };
    let e: int = if redis.tls is Some { 1 } else { 0 };
    if let Some(p) = redis.port {
        assert(env[1] == value_entry("QUEUE_BULL_REDIS_PORT"@, decimal(p as nat)));
    }
    if let Some(x) = redis.db {
        assert(env[1 + a] == value_entry("QUEUE_BULL_REDIS_DB"@, decimal(x as nat)));
    }
    if let Some(s) = redis.password_secret {
        assert(env[1 + a + b] == secret_entry("QUEUE_BULL_REDIS_PASSWORD"@, s));
    }
    if let Some(s) = redis.username_secret {
        assert(env[1 + a + b + c] == secret_entry("QUEUE_BULL_REDIS_USERNAME"@, s));
    }
    if let Some(t) = redis.tls {
        assert(env[1 + a + b + c + d] == value_entry("QUEUE_BULL_REDIS_TLS"@, bool_text(t)));
    }
    if let Some(p) = redis.prefix {
        assert(env[1 + a + b + c + d + e] == value_entry("QUEUE_BULL_PREFIX"@, p@));
    }
}

/// Every cluster role runs in queue mode with the encryption key read from the
/// resolved Secret key, and carries the database type and the Redis host.
pub proof fn cluster_roles_share_queue_key_and_stores(c: Cluster, key_secret: SecretKeyRef)
    ensures
        ({
            let env = cluster_common_env_views(c, key_secret);
            &&& env[0] == str_entry("EXECUTIONS_MODE"@, "queue"@)
            &&& env[1] == secret_entry("N8N_ENCRYPTION_KEY"@, key_secret)
            &&& env.contains(value_entry("DB_TYPE"@, c.spec.database.type_@))
            &&& env.contains(value_entry("QUEUE_BULL_REDIS_HOST"@, c.spec.redis.host@))
        }),
{
    let env = cluster_common_env_views(c, key_secret);
    let dbe = db_env_views(c.spec.database);
    assert(env[2] == dbe[0]);
    assert(env[2 + dbe.len() as int] == redis_env_views(c.spec.redis)[0]);
}

} // verus!
