//! How the user-controlled layers of a container env combine: each name once,
//! the last layer to set a name deciding its value.
use vstd::prelude::*;
use crate::env::{
    ContainerEnvView, EnvVarView, cluster_role_defaults_views, cluster_webhook_url_view, env_var_views,
    first_names, last_with_name, layered_env, lemma_first_names, lemma_last_with_name, lit_var, render_view,
    user_layers,
};
use crate::text::bool_text;
use crate::spec::{Cluster, EnvVar, NetworkingSpec};

verus! {

/// An entry that no later entry renames is the last entry of its name.
proof fn lemma_last_at(s: Seq<EnvVarView>, i: int)
    requires
        0 <= i < s.len(),
        forall|j: int| i < j < s.len() ==> (#[trigger] s[j]).name != s[i].name,
    ensures
        last_with_name(s, s[i].name) == s[i],
    decreases s.len(),
{
    if i < s.len() - 1 {
        let t = s.drop_last();
        assert(s[s.len() - 1] == s.last());
        assert(t[i] == s[i]);
        assert forall|j: int| i < j < t.len() implies (#[trigger] t[j]).name != t[i].name by {
            assert(t[j] == s[j]);
        }
        lemma_last_at(t, i);
    }
}

/// The entry at position `k` of a layered env carries the `k`-th first-seen name.
proof fn lemma_layered_at(s: Seq<EnvVarView>, k: int)
    requires
        0 <= k < layered_env(s).len(),
    ensures
        layered_env(s)[k].name == first_names(s)[k],
        layered_env(s)[k] == render_view(last_with_name(s, first_names(s)[k])),
{
    lemma_last_with_name(s, first_names(s)[k]);
}

/// A layered env never names a variable twice.
pub proof fn layered_names_distinct(s: Seq<EnvVarView>)
    ensures
        forall|a: int, b: int|
            0 <= a < b < layered_env(s).len() ==> #[trigger] layered_env(s)[a].name
                != #[trigger] layered_env(s)[b].name,
{
    lemma_first_names(s);
    assert forall|a: int, b: int| 0 <= a < b < layered_env(s).len() implies #[trigger] layered_env(
        s,
    )[a].name != #[trigger] layered_env(s)[b].name by {
        lemma_layered_at(s, a);
        lemma_layered_at(s, b);
    }
}

/// A layered env names exactly the variables that some layer names.
pub proof fn layered_names_complete(s: Seq<EnvVarView>, n: Seq<char>)
    ensures
        (exists|i: int| 0 <= i < s.len() && (#[trigger] s[i]).name == n) <==> (exists|k: int|
            0 <= k < layered_env(s).len() && (#[trigger] layered_env(s)[k]).name == n),
{
    lemma_first_names(s);
    let f = first_names(s);
    if exists|i: int| 0 <= i < s.len() && (#[trigger] s[i]).name == n {
        assert(f.contains(n));
        let k = choose|k: int| 0 <= k < f.len() && f[k] == n;
        lemma_layered_at(s, k);
    }
    if exists|k: int| 0 <= k < layered_env(s).len() && (#[trigger] layered_env(s)[k]).name == n {
        let k = choose|k: int| 0 <= k < layered_env(s).len() && (#[trigger] layered_env(s)[k]).name == n;
        lemma_layered_at(s, k);
        assert(f.contains(f[k]));
    }
}

/// Each entry of a layered env is the rendering of the last layer entry of its name.
pub proof fn layered_entry_is_last_of_name(s: Seq<EnvVarView>, k: int)
    requires
        0 <= k < layered_env(s).len(),
    ensures
        layered_env(s)[k] == render_view(last_with_name(s, layered_env(s)[k].name)),
{
    lemma_layered_at(s, k);
}

/// The last entry of a name wins: the layered env holds its rendering, and
/// every entry of that name is that rendering.
pub proof fn later_entry_wins(s: Seq<EnvVarView>, i: int)
    requires
        0 <= i < s.len(),
        forall|j: int| i < j < s.len() ==> (#[trigger] s[j]).name != s[i].name,
    ensures
        exists|k: int| 0 <= k < layered_env(s).len() && #[trigger] layered_env(s)[k] == render_view(s[i]),
        forall|k: int|
            0 <= k < layered_env(s).len() && (#[trigger] layered_env(s)[k]).name == s[i].name
                ==> layered_env(s)[k] == render_view(s[i]),
{
    lemma_last_at(s, i);
    layered_names_complete(s, s[i].name);
    let k = choose|k: int| 0 <= k < layered_env(s).len() && (#[trigger] layered_env(s)[k]).name == s[i].name;
    lemma_layered_at(s, k);
    assert forall|k: int|
        0 <= k < layered_env(s).len() && (#[trigger] layered_env(s)[k]).name == s[i].name implies layered_env(
        s,
    )[k] == render_view(s[i]) by {
        lemma_layered_at(s, k);
    }
}

/// A role's `extraEnv` entry overrides the defaults, the `secureCookie` sugar and
/// the cluster-wide `extraEnv`: the role env holds it, as the only entry of its
/// name, unless a later entry of the same list sets that name again.
pub proof fn role_extra_env_wins(
    defaults: Seq<EnvVarView>,
    secure_cookie: Option<bool>,
    cluster: Seq<EnvVar>,
    role: Seq<EnvVar>,
    i: int,
)
    requires
        0 <= i < role.len(),
        forall|j: int| i < j < role.len() ==> (#[trigger] role[j]).name@ != role[i].name@,
    ensures
        ({
            let out = layered_env(user_layers(defaults, secure_cookie, cluster, role));
            &&& exists|k: int| 0 <= k < out.len() && #[trigger] out[k] == render_view(role[i]@)
            &&& forall|k: int|
                0 <= k < out.len() && (#[trigger] out[k]).name == role[i].name@ ==> out[k] == render_view(
                    role[i]@,
                )
        }),
{
    let s = user_layers(defaults, secure_cookie, cluster, role);
    let r = env_var_views(role);
    let d = s.len() - r.len();
    assert(s[d + i] == r[i]);
    assert forall|j: int| d + i < j < s.len() implies (#[trigger] s[j]).name != s[d + i].name by {
        assert(s[j] == r[j - d]);
        assert(r[j - d] == role[j - d]@);
    }
    later_entry_wins(s, d + i);
}

/// A cluster-wide `extraEnv` entry overrides the defaults and the `secureCookie`
/// sugar of every role whose own `extraEnv` leaves its name alone.
pub proof fn cluster_extra_env_wins(
    defaults: Seq<EnvVarView>,
    secure_cookie: Option<bool>,
    cluster: Seq<EnvVar>,
    role: Seq<EnvVar>,
    i: int,
)
    requires
        0 <= i < cluster.len(),
        forall|j: int| i < j < cluster.len() ==> (#[trigger] cluster[j]).name@ != cluster[i].name@,
        forall|j: int| 0 <= j < role.len() ==> (#[trigger] role[j]).name@ != cluster[i].name@,
    ensures
        ({
            let out = layered_env(user_layers(defaults, secure_cookie, cluster, role));
            &&& exists|k: int| 0 <= k < out.len() && #[trigger] out[k] == render_view(cluster[i]@)
            &&& forall|k: int|
                0 <= k < out.len() && (#[trigger] out[k]).name == cluster[i].name@ ==> out[k]
                    == render_view(cluster[i]@)
        }),
{
    let s = user_layers(defaults, secure_cookie, cluster, role);
    let c = env_var_views(cluster);
    let r = env_var_views(role);
    let d = s.len() - r.len() - c.len();
    assert(s[d + i] == c[i]);
    assert forall|j: int| d + i < j < s.len() implies (#[trigger] s[j]).name != s[d + i].name by {
        if j < d + c.len() {
            assert(s[j] == c[j - d]);
            assert(c[j - d] == cluster[j - d]@);
        } else {
            assert(s[j] == r[j - d - c.len()]);
            assert(r[j - d - c.len()] == role[j - d - c.len()]@);
        }
    }
    later_entry_wins(s, d + i);
}

/// The user env of a cluster role: its defaults, the `secureCookie` sugar, the
/// cluster-wide and the role's `extraEnv`.
pub open spec fn cluster_role_user_env(
    c: Cluster,
    host: Option<Seq<char>>,
    net: Option<NetworkingSpec>,
    role: Seq<EnvVar>,
) -> Seq<ContainerEnvView> {
    layered_env(
        user_layers(cluster_role_defaults_views(c, host, net), c.spec.secure_cookie, c.spec.extra_env@, role),
    )
}

/// Every role of a cluster gets the same `WEBHOOK_URL`, whatever its own host
/// and networking, unless an `extraEnv` sets that name.
pub proof fn webhook_url_same_on_every_role(
    c: Cluster,
    host: Option<Seq<char>>,
    net: Option<NetworkingSpec>,
    role: Seq<EnvVar>,
)
    requires
        cluster_webhook_url_view(c) is Some,
        forall|j: int| 0 <= j < c.spec.extra_env@.len() ==> (#[trigger] c.spec.extra_env@[j]).name@ != "WEBHOOK_URL"@,
        forall|j: int| 0 <= j < role.len() ==> (#[trigger] role[j]).name@ != "WEBHOOK_URL"@,
    ensures
        ({
            let out = cluster_role_user_env(c, host, net, role);
            let w = render_view(cluster_webhook_url_view(c)->0);
            &&& exists|k: int| 0 <= k < out.len() && #[trigger] out[k] == w
            &&& forall|k: int| 0 <= k < out.len() && (#[trigger] out[k]).name == "WEBHOOK_URL"@ ==> out[k] == w
        }),
{
    reveal_strlit("WEBHOOK_URL");
    reveal_strlit("N8N_SECURE_COOKIE");
    let defaults = cluster_role_defaults_views(c, host, net);
    let s = user_layers(defaults, c.spec.secure_cookie, c.spec.extra_env@, role);
    let w = cluster_webhook_url_view(c)->0;
    let i = defaults.len() - 1;
    assert(defaults[i] == w);
    assert(w.name == "WEBHOOK_URL"@);
    assert(s[i] == w);
    let x = env_var_views(c.spec.extra_env@);
    let r = env_var_views(role);
    let ck = s.len() - r.len() - x.len() - defaults.len();
    assert forall|j: int| i < j < s.len() implies (#[trigger] s[j]).name != s[i].name by {
        if j < defaults.len() + ck {
            assert(s[j].name == "N8N_SECURE_COOKIE"@);
            assert("N8N_SECURE_COOKIE"@[0] != "WEBHOOK_URL"@[0]);
        } else if j < defaults.len() + ck + x.len() {
            assert(s[j] == x[j - defaults.len() - ck]);
            assert(x[j - defaults.len() - ck] == c.spec.extra_env@[j - defaults.len() - ck]@);
        } else {
            assert(s[j] == r[j - defaults.len() - ck - x.len()]);
            assert(r[j - defaults.len() - ck - x.len()] == role[j - defaults.len() - ck - x.len()]@);
        }
    }
    later_entry_wins(s, i);
}

/// `secureCookie` sets `N8N_SECURE_COOKIE` to its value over the defaults,
/// unless an `extraEnv` list (cluster-wide or the role's) sets that name.
pub proof fn secure_cookie_reaches_the_env(
    defaults: Seq<EnvVarView>,
    b: bool,
    cluster: Seq<EnvVar>,
    role: Seq<EnvVar>,
)
    requires
        forall|j: int| 0 <= j < cluster.len() ==> (#[trigger] cluster[j]).name@ != "N8N_SECURE_COOKIE"@,
        forall|j: int| 0 <= j < role.len() ==> (#[trigger] role[j]).name@ != "N8N_SECURE_COOKIE"@,
    ensures
        ({
            let out = layered_env(user_layers(defaults, Some(b), cluster, role));
            let e = render_view(lit_var("N8N_SECURE_COOKIE"@, bool_text(b)));
            &&& exists|k: int| 0 <= k < out.len() && #[trigger] out[k] == e
            &&& forall|k: int| 0 <= k < out.len() && (#[trigger] out[k]).name == "N8N_SECURE_COOKIE"@ ==> out[k] == e
        }),
{
    let s = user_layers(defaults, Some(b), cluster, role);
    let d = defaults.len() as int;
    let cv = env_var_views(cluster);
    let rv = env_var_views(role);
    assert(s[d] == lit_var("N8N_SECURE_COOKIE"@, bool_text(b)));
    assert forall|j: int| d < j < s.len() implies (#[trigger] s[j]).name != s[d].name by {
        if j < d + 1 + cv.len() {
            assert(s[j] == cv[j - d - 1]);
            assert(cv[j - d - 1] == cluster[j - d - 1]@);
        } else {
            assert(s[j] == rv[j - d - 1 - cv.len()]);
            assert(rv[j - d - 1 - cv.len()] == role[j - d - 1 - cv.len()]@);
        }
    }
    later_entry_wins(s, d);
}

} // verus!
