//! Binary-data storage env.
use vstd::prelude::*;
use crate::env::{push_env, ContainerEnv, ContainerEnvView, container_env_views, env_secret, env_str, secret_entry, str_entry};
use crate::spec::BinaryDataSpec;
use crate::text::str_eq;

verus! {

/// Mount path of the shared binary-data volume, and the storage path n8n is
/// pointed at. Kept outside `~/.n8n` to avoid nesting under a role's own mount.
pub const BINARY_DATA_STORAGE_PATH: &'static str = "/home/node/binary-data";

/// - `s3`: both modes available, `s3` the default, and the bucket and credentials.
/// - `database`: binary data in the DB.
/// - `filesystem`: on disk; with a shared volume the path is that mount.
/// - anything else: that mode as the default.
pub open spec fn binary_data_env_views(bd: BinaryDataSpec) -> Seq<ContainerEnvView> {
    let m = bd.mode@;
    if m == "s3"@ {
        seq![
            str_entry("N8N_AVAILABLE_BINARY_DATA_MODES"@, "filesystem,s3"@),
            str_entry("N8N_DEFAULT_BINARY_DATA_MODE"@, "s3"@),
        ] + match bd.s3 {
            Some(s3) => seq![
                str_entry("N8N_EXTERNAL_STORAGE_S3_HOST"@, s3.host@),
                str_entry("N8N_EXTERNAL_STORAGE_S3_BUCKET_NAME"@, s3.bucket@),
                str_entry("N8N_EXTERNAL_STORAGE_S3_BUCKET_REGION"@, s3.region@),
                secret_entry("N8N_EXTERNAL_STORAGE_S3_ACCESS_KEY"@, s3.access_key_secret),
                secret_entry("N8N_EXTERNAL_STORAGE_S3_ACCESS_SECRET"@, s3.access_secret_secret),
            ],
            None => Seq::empty(),
        }
    } else if m == "database"@ {
        seq![
            str_entry("N8N_AVAILABLE_BINARY_DATA_MODES"@, "filesystem,database"@),
            str_entry("N8N_DEFAULT_BINARY_DATA_MODE"@, "database"@),
        ]
    } else if m == "filesystem"@ {
        seq![str_entry("N8N_DEFAULT_BINARY_DATA_MODE"@, "filesystem"@)] + if bd.shared_storage is Some {
            seq![str_entry("N8N_BINARY_DATA_STORAGE_PATH"@, BINARY_DATA_STORAGE_PATH@)]
        } else {
            Seq::empty()
        }
    } else {
        seq![str_entry("N8N_DEFAULT_BINARY_DATA_MODE"@, m)]
    }
}

/// Maps the binary-data block to n8n's binary-data / external-storage env.
pub fn build_binary_data_env(bd: &BinaryDataSpec) -> (r: Vec<ContainerEnv>)
    ensures
        container_env_views(r@) == binary_data_env_views(*bd),
{
    let m = bd.mode.as_str();
    let mut out: Vec<ContainerEnv> = Vec::new();
    if str_eq(m, "s3") {
        push_env(&mut out, env_str("N8N_AVAILABLE_BINARY_DATA_MODES", "filesystem,s3"));
        push_env(&mut out, env_str("N8N_DEFAULT_BINARY_DATA_MODE", "s3"));
        if let Some(s3) = &bd.s3 {
            push_env(&mut out, env_str("N8N_EXTERNAL_STORAGE_S3_HOST", s3.host.as_str()));
            push_env(&mut out, env_str("N8N_EXTERNAL_STORAGE_S3_BUCKET_NAME", s3.bucket.as_str()));
            push_env(&mut out, env_str("N8N_EXTERNAL_STORAGE_S3_BUCKET_REGION", s3.region.as_str()));
            push_env(&mut out, env_secret("N8N_EXTERNAL_STORAGE_S3_ACCESS_KEY", &s3.access_key_secret));
            push_env(&mut out, env_secret("N8N_EXTERNAL_STORAGE_S3_ACCESS_SECRET", &s3.access_secret_secret));
        }
    } else if str_eq(m, "database") {
        push_env(&mut out, env_str("N8N_AVAILABLE_BINARY_DATA_MODES", "filesystem,database"));
        push_env(&mut out, env_str("N8N_DEFAULT_BINARY_DATA_MODE", "database"));
    } else if str_eq(m, "filesystem") {
        push_env(&mut out, env_str("N8N_DEFAULT_BINARY_DATA_MODE", "filesystem"));
        if bd.shared_storage.is_some() {
            push_env(&mut out, env_str("N8N_BINARY_DATA_STORAGE_PATH", BINARY_DATA_STORAGE_PATH));
        }
    } else {
        push_env(&mut out, env_str("N8N_DEFAULT_BINARY_DATA_MODE", m));
    }
    assert(container_env_views(out@) =~= binary_data_env_views(*bd));
    out
}

/// Binary data in S3 goes to the configured host, bucket and region, with the
/// access key and the secret each read from its own Secret key, and `s3` as
/// the default mode.
pub proof fn s3_env_carries_its_settings(bd: BinaryDataSpec)
    requires
        bd.mode@ == "s3"@,
        bd.s3 is Some,
    ensures
        ({
            let s3 = bd.s3->0;
            let env = binary_data_env_views(bd);
            &&& env.contains(str_entry("N8N_DEFAULT_BINARY_DATA_MODE"@, "s3"@))
            &&& env.contains(str_entry("N8N_EXTERNAL_STORAGE_S3_HOST"@, s3.host@))
            &&& env.contains(str_entry("N8N_EXTERNAL_STORAGE_S3_BUCKET_NAME"@, s3.bucket@))
            &&& env.contains(str_entry("N8N_EXTERNAL_STORAGE_S3_BUCKET_REGION"@, s3.region@))
            &&& env.contains(secret_entry("N8N_EXTERNAL_STORAGE_S3_ACCESS_KEY"@, s3.access_key_secret))
            &&& env.contains(secret_entry("N8N_EXTERNAL_STORAGE_S3_ACCESS_SECRET"@, s3.access_secret_secret))
        }),
{
    let s3 = bd.s3->0;
    let env = binary_data_env_views(bd);
    assert(env[1] == str_entry("N8N_DEFAULT_BINARY_DATA_MODE"@, "s3"@));
    assert(env[2] == str_entry("N8N_EXTERNAL_STORAGE_S3_HOST"@, s3.host@));
    assert(env[3] == str_entry("N8N_EXTERNAL_STORAGE_S3_BUCKET_NAME"@, s3.bucket@));
    assert(env[4] == str_entry("N8N_EXTERNAL_STORAGE_S3_BUCKET_REGION"@, s3.region@));
    assert(env[5] == secret_entry("N8N_EXTERNAL_STORAGE_S3_ACCESS_KEY"@, s3.access_key_secret));
    assert(env[6] == secret_entry("N8N_EXTERNAL_STORAGE_S3_ACCESS_SECRET"@, s3.access_secret_secret));
}

/// The configured binary-data mode is always n8n's default mode; `s3` and
/// `database` are also made available next to `filesystem`, and a filesystem
/// mode on a shared volume stores its files under the shared mount.
pub proof fn binary_data_mode_reaches_the_env(bd: BinaryDataSpec)
    ensures
        ({
            let env = binary_data_env_views(bd);
            &&& env.contains(str_entry("N8N_DEFAULT_BINARY_DATA_MODE"@, bd.mode@))
            &&& (bd.mode@ == "s3"@ ==> env.contains(
                str_entry("N8N_AVAILABLE_BINARY_DATA_MODES"@, "filesystem,s3"@),
            ))
            &&& (bd.mode@ == "database"@ ==> env.contains(
                str_entry("N8N_AVAILABLE_BINARY_DATA_MODES"@, "filesystem,database"@),
            ))
            &&& ((bd.mode@ == "filesystem"@ && bd.shared_storage is Some) ==> env.contains(
                str_entry("N8N_BINARY_DATA_STORAGE_PATH"@, BINARY_DATA_STORAGE_PATH@),
            ))
        }),
{
    let env = binary_data_env_views(bd);
    let m = bd.mode@;
    reveal_strlit("s3");
    reveal_strlit("database");
    reveal_strlit("filesystem");
    assert("s3"@.len() != "database"@.len() && "s3"@.len() != "filesystem"@.len());
    assert("database"@.len() != "filesystem"@.len());
    if m == "s3"@ {
        assert(env[0] == str_entry("N8N_AVAILABLE_BINARY_DATA_MODES"@, "filesystem,s3"@));
        assert(env[1] == str_entry("N8N_DEFAULT_BINARY_DATA_MODE"@, "s3"@));
    } else if m == "database"@ {
        assert(env[0] == str_entry("N8N_AVAILABLE_BINARY_DATA_MODES"@, "filesystem,database"@));
        assert(env[1] == str_entry("N8N_DEFAULT_BINARY_DATA_MODE"@, "database"@));
    } else if m == "filesystem"@ {
        assert(env[0] == str_entry("N8N_DEFAULT_BINARY_DATA_MODE"@, "filesystem"@));
        if bd.shared_storage is Some {
            assert(env[1] == str_entry("N8N_BINARY_DATA_STORAGE_PATH"@, BINARY_DATA_STORAGE_PATH@));
        }
    } else {
        assert(env[0] == str_entry("N8N_DEFAULT_BINARY_DATA_MODE"@, m));
    }
}

} // verus!
