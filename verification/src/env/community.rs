//! Community-package env.
use vstd::prelude::*;
use crate::env::{EnvVarView, env_var_views, lit, lit_var};
use crate::spec::{CommunityNodesConfig, CommunityPackage, EnvVar};
use crate::text::{bool_text, bool_to_text, owned};

verus! {

/// What `serde_json` writes for a JSON array of objects whose members are the
/// given (key, string value) pairs.
pub uninterp spec fn json_objects_text(objs: Seq<Seq<(Seq<char>, Seq<char>)>>) -> Seq<char>;

/// The views of the members of each object.
pub open spec fn object_views(objs: Seq<Vec<(String, String)>>) -> Seq<Seq<(Seq<char>, Seq<char>)>> {
    objs.map_values(
        |o: Vec<(String, String)>| o@.map_values(|kv: (String, String)| (kv.0@, kv.1@)),
    )
}

/// `serde_json::Value::Array` of `serde_json::Value::Object`s built from the
/// pairs, rendered with `to_string`. Claimed: the result is the named
/// serialisation of the pairs.
#[verifier::external_body]
fn json_object_array(objs: &Vec<Vec<(String, String)>>) -> (r: String)
    ensures
        r@ == json_objects_text(object_views(objs@)),
{
    let arr: Vec<serde_json::Value> = objs
        .iter()
        .map(|o| {
            let mut m = serde_json::Map::new();
            for (k, v) in o {
                m.insert(k.clone(), serde_json::Value::String(v.clone()));
            }
            serde_json::Value::Object(m)
        })
        .collect();
    serde_json::Value::Array(arr).to_string()
}

/// The members of one package object: `name`, then `version` and `checksum` when set.
pub open spec fn package_fields(p: CommunityPackage) -> Seq<(Seq<char>, Seq<char>)> {
    seq![("name"@, p.name@)] + (match p.version {
        Some(v) => seq![("version"@, v@)],
        None => Seq::empty(),
    }) + (match p.checksum {
        Some(c) => seq![("checksum"@, c@)],
        None => Seq::empty(),
    })
}

fn package_object(p: &CommunityPackage) -> (r: Vec<(String, String)>)
    ensures
        r@.map_values(|kv: (String, String)| (kv.0@, kv.1@)) == package_fields(*p),
{
    let mut o: Vec<(String, String)> = Vec::new();
    o.push((owned("name"), p.name.clone()));
    if let Some(v) = &p.version {
        o.push((owned("version"), v.clone()));
    }
    if let Some(c) = &p.checksum {
        o.push((owned("checksum"), c.clone()));
    }
    assert(o@.map_values(|kv: (String, String)| (kv.0@, kv.1@)) =~= package_fields(*p));
    o
}

/// `N8N_COMMUNITY_PACKAGES_ENABLED` when set; for a non-empty package list the
/// JSON package array and `N8N_COMMUNITY_PACKAGES_MANAGED_BY_ENV=true`; then
/// `N8N_REINSTALL_MISSING_PACKAGES` when set. A shared volume emits no env.
pub open spec fn community_env_views(cn: CommunityNodesConfig) -> Seq<EnvVarView> {
    (match cn.enabled {
        Some(b) => seq![lit_var("N8N_COMMUNITY_PACKAGES_ENABLED"@, bool_text(b))],
        None => Seq::empty(),
    }) + (if cn.packages@.len() > 0 {
        seq![
            lit_var(
                "N8N_COMMUNITY_PACKAGES"@,
                json_objects_text(cn.packages@.map_values(|p: CommunityPackage| package_fields(p))),
            ),
            lit_var("N8N_COMMUNITY_PACKAGES_MANAGED_BY_ENV"@, "true"@),
        ]
    } else {
        Seq::empty()
    }) + (match cn.reinstall_missing {
        Some(b) => seq![lit_var("N8N_REINSTALL_MISSING_PACKAGES"@, bool_text(b))],
        None => Seq::empty(),
    })
}

/// Maps `CommunityNodesConfig` to n8n's community-package env.
pub fn build_community_env(cn: &CommunityNodesConfig) -> (r: Vec<EnvVar>)
    ensures
        env_var_views(r@) == community_env_views(*cn),
{
    let mut out: Vec<EnvVar> = Vec::new();
    if let Some(enabled) = cn.enabled {
        out.push(lit("N8N_COMMUNITY_PACKAGES_ENABLED", bool_to_text(enabled)));
    }
    if cn.packages.len() > 0 {
        let mut objs: Vec<Vec<(String, String)>> = Vec::new();
        let n = cn.packages.len();
        let mut i: usize = 0;
        while i < n
            invariant
                n == cn.packages@.len(),
                i <= n,
                objs@.len() == i,
                object_views(objs@) == cn.packages@.subrange(0, i as int).map_values(
                    |p: CommunityPackage| package_fields(p),
                ),
            decreases n - i,
        {
            let ghost prev = objs@;
            let o = package_object(&cn.packages[i]);
            objs.push(o);
            assert forall|k: int| 0 <= k < i + 1 implies #[trigger] object_views(objs@)[k]
                == package_fields(cn.packages@[k]) by {
                if k < i {
                    assert(objs@[k] == prev[k]);
                    assert(object_views(prev)[k] == package_fields(cn.packages@.subrange(0, i as int)[k]));
                }
            }
            assert(object_views(objs@) =~= cn.packages@.subrange(0, i + 1).map_values(
                |p: CommunityPackage| package_fields(p),
            ));
            i = i + 1;
        }
        assert(cn.packages@.subrange(0, n as int) =~= cn.packages@);
        out.push(lit("N8N_COMMUNITY_PACKAGES", json_object_array(&objs)));
        out.push(lit("N8N_COMMUNITY_PACKAGES_MANAGED_BY_ENV", owned("true")));
    }
    if let Some(r) = cn.reinstall_missing {
        out.push(lit("N8N_REINSTALL_MISSING_PACKAGES", bool_to_text(r)));
    }
    assert(env_var_views(out@) =~= community_env_views(*cn));
    out
}

/// The community-node switches reach the env with their values; declared
/// packages are handed over (each as its name with its version and checksum
/// when set, in order) and then marked as managed by the env; nothing is
/// emitted for what is unset.
pub proof fn community_env_carries_its_settings(cn: CommunityNodesConfig)
    ensures
        ({
            let env = community_env_views(cn);
            &&& (cn.enabled matches Some(b) ==> env.contains(
                lit_var("N8N_COMMUNITY_PACKAGES_ENABLED"@, bool_text(b)),
            ))
            &&& (cn.packages@.len() > 0 ==> {
                &&& env.contains(
                    lit_var(
                        "N8N_COMMUNITY_PACKAGES"@,
                        json_objects_text(cn.packages@.map_values(|p: CommunityPackage| package_fields(p))),
                    ),
                )
                &&& env.contains(lit_var("N8N_COMMUNITY_PACKAGES_MANAGED_BY_ENV"@, "true"@))
            })
            &&& (cn.reinstall_missing matches Some(b) ==> env.contains(
                lit_var("N8N_REINSTALL_MISSING_PACKAGES"@, bool_text(b)),
            ))
            &&& env.len() == (if cn.enabled is Some { 1int } else { 0 }) + (if cn.packages@.len() > 0 {
                2int
            } else {
                0
            }) + (if cn.reinstall_missing is Some { 1int } else { 0 })
        }),
        forall|p: CommunityPackage|
            #![trigger package_fields(p)]
            {
                &&& package_fields(p)[0] == ("name"@, p.name@)
                &&& (p.version matches Some(v) ==> package_fields(p)[1] == ("version"@, v@))
                &&& (p.checksum matches Some(c) ==> package_fields(p).contains(("checksum"@, c@)))
            },
{
    let env = community_env_views(cn);
    let a: int = if cn.enabled is Some { 1 } else { 0 };
    let b: int = a + if cn.packages@.len() > 0 { 2int } else { 0 };
    if let Some(x) = cn.enabled {
        assert(env[0] == lit_var("N8N_COMMUNITY_PACKAGES_ENABLED"@, bool_text(x)));
    }
    if cn.packages@.len() > 0 {
        assert(env[a] == lit_var(
            "N8N_COMMUNITY_PACKAGES"@,
            json_objects_text(cn.packages@.map_values(|p: CommunityPackage| package_fields(p))),
        ));
        assert(env[a + 1] == lit_var("N8N_COMMUNITY_PACKAGES_MANAGED_BY_ENV"@, "true"@));
    }
    if let Some(x) = cn.reinstall_missing {
        assert(env[b] == lit_var("N8N_REINSTALL_MISSING_PACKAGES"@, bool_text(x)));
    }
    assert forall|p: CommunityPackage| #![trigger package_fields(p)] {
        &&& package_fields(p)[0] == ("name"@, p.name@)
        &&& (p.version matches Some(v) ==> package_fields(p)[1] == ("version"@, v@))
        &&& (p.checksum matches Some(c) ==> package_fields(p).contains(("checksum"@, c@)))
    } by {
        let f = package_fields(p);
        if let Some(c) = p.checksum {
            let k: int = if p.version is Some { 2 } else { 1 };
            assert(f[k] == ("checksum"@, c@));
        }
    }
}

} // verus!
