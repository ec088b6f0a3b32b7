//! The container environment of every n8n pod: operator-managed entries, and
//! the user-controlled layers where a later layer wins on a name clash.
pub mod community;
pub mod database;
pub mod logging;
pub mod precedence;
pub mod redis;
pub mod smtp;
pub mod storage;

use vstd::prelude::*;
use crate::spec::{Cluster, EnvVar, EnvVarSource, NetworkingSpec, SecretKeyRef, SingleSpec};
use crate::text::{
    bool_text, bool_to_text, concat3, decimal, json_plain, json_trimmed, json_trimmed_text, owned,
    signed_decimal, str_eq,
};

verus! {

// ----- the rendered container env -----

/// Where a container env entry takes its value from.
#[derive(Debug)]
pub enum EnvSource {
    /// An inline literal.
    Value(String),
    /// `valueFrom.secretKeyRef`.
    SecretKey { name: String, key: String },
}

/// One entry of a container's `env`.
#[derive(Debug)]
pub struct ContainerEnv {
    pub name: String,
    pub source: EnvSource,
}

impl Clone for EnvSource {
    fn clone(&self) -> (r: Self)
        ensures
            r == *self,
    {
        match self {
            EnvSource::Value(v) => EnvSource::Value(v.clone()),
            EnvSource::SecretKey { name, key } => EnvSource::SecretKey { name: name.clone(), key: key.clone() },
        }
    }
}

impl Clone for ContainerEnv {
    fn clone(&self) -> (r: Self)
        ensures
            r == *self,
    {
        ContainerEnv { name: self.name.clone(), source: self.source.clone() }
    }
}

/// A container env entry as character sequences.
pub enum EnvSourceView {
    Value(Seq<char>),
    SecretKey(Seq<char>, Seq<char>),
}

pub struct ContainerEnvView {
    pub name: Seq<char>,
    pub source: EnvSourceView,
}

impl View for ContainerEnv {
    type V = ContainerEnvView;

    open spec fn view(&self) -> ContainerEnvView {
        ContainerEnvView {
            name: self.name@,
            source: match self.source {
                EnvSource::Value(v) => EnvSourceView::Value(v@),
                EnvSource::SecretKey { name, key } => EnvSourceView::SecretKey(name@, key@),
            },
        }
    }
}

/// The views of a list of container env entries.
pub open spec fn container_env_views(s: Seq<ContainerEnv>) -> Seq<ContainerEnvView> {
    s.map_values(|e: ContainerEnv| e@)
}

/// Appends one entry.
pub fn push_env(out: &mut Vec<ContainerEnv>, e: ContainerEnv)
    ensures
        final(out)@ == old(out)@.push(e),
        container_env_views(final(out)@) == container_env_views(old(out)@).push(e@),
{
    out.push(e);
    assert(container_env_views(out@) =~= container_env_views(old(out)@).push(e@));
}

/// Appends one `EnvVar`.
pub fn push_var(out: &mut Vec<EnvVar>, e: EnvVar)
    ensures
        final(out)@ == old(out)@.push(e),
        env_var_views(final(out)@) == env_var_views(old(out)@).push(e@),
{
    out.push(e);
    assert(env_var_views(out@) =~= env_var_views(old(out)@).push(e@));
}

/// An inline entry.
pub open spec fn value_entry(name: Seq<char>, value: Seq<char>) -> ContainerEnvView {
    ContainerEnvView { name, source: EnvSourceView::Value(value) }
}

/// An entry read from a Secret key.
pub open spec fn secret_entry(name: Seq<char>, sec: SecretKeyRef) -> ContainerEnvView {
    ContainerEnvView { name, source: EnvSourceView::SecretKey(sec.name@, sec.key@) }
}

/// An inline entry whose value went through a JSON string round trip with its
/// quotes trimmed (see `env_str`).
pub open spec fn str_entry(name: Seq<char>, value: Seq<char>) -> ContainerEnvView {
    value_entry(name, json_trimmed(value))
}

/// An inline entry with exactly the given value.
pub fn env_value(name: &str, value: &str) -> (r: ContainerEnv)
    ensures
        r@ == value_entry(name@, value@),
{
    ContainerEnv { name: owned(name), source: EnvSource::Value(owned(value)) }
}

/// An inline entry whose value is the given text rendered as a JSON string with
/// its surrounding quotes trimmed; plain text comes out unchanged.
pub fn env_str(name: &str, value: &str) -> (r: ContainerEnv)
    ensures
        r@ == str_entry(name@, value@),
        json_plain(value@) ==> r@ == value_entry(name@, value@),
{
    ContainerEnv { name: owned(name), source: EnvSource::Value(json_trimmed_text(value)) }
}

/// An entry read from a Secret key.
pub fn env_secret(name: &str, sec: &SecretKeyRef) -> (r: ContainerEnv)
    ensures
        r@ == secret_entry(name@, *sec),
{
    ContainerEnv {
        name: owned(name),
        source: EnvSource::SecretKey { name: sec.name.clone(), key: sec.key.clone() },
    }
}

proof fn lemma_digit_plain(d: nat)
    ensures
        digit_char_plain(crate::text::digit_char(d)),
{
}

/// A character that JSON string serialisation leaves as it is.
pub open spec fn digit_char_plain(c: char) -> bool {
    c != '"' && c != '\\' && c >= ' '
}

/// Decimal text contains nothing that JSON escapes.
pub proof fn lemma_decimal_plain(n: nat)
    ensures
        json_plain(decimal(n)),
    decreases n,
{
    if n >= 10 {
        lemma_decimal_plain(n / 10);
        lemma_digit_plain(n % 10);
        assert(forall|i: int| 0 <= i < decimal(n / 10).len() ==> decimal(n)[i] == decimal(n / 10)[i]);
    } else {
        lemma_digit_plain(n);
    }
}

/// Signed decimal text contains nothing that JSON escapes.
pub proof fn lemma_signed_decimal_plain(i: int)
    ensures
        json_plain(signed_decimal(i)),
{
    if i < 0 {
        lemma_decimal_plain((-i) as nat);
        let d = decimal((-i) as nat);
        assert forall|j: int| 0 <= j < signed_decimal(i).len() implies digit_char_plain(
            #[trigger] signed_decimal(i)[j],
        ) by {
            if j > 0 {
                assert(signed_decimal(i)[j] == d[j - 1]);
            }
        }
    } else {
        lemma_decimal_plain(i as nat);
    }
}

/// `true` and `false` contain nothing that JSON escapes.
pub proof fn lemma_bool_plain(b: bool)
    ensures
        json_plain(bool_text(b)),
{
    let s = bool_text(b);
    assert forall|j: int| 0 <= j < s.len() implies digit_char_plain(#[trigger] s[j]) by {
        if b {
            if j == 0 {
            } else if j == 1 {
            } else if j == 2 {
            } else {
            }
        } else {
            if j == 0 {
            } else if j == 1 {
            } else if j == 2 {
            } else if j == 3 {
            } else {
            }
        }
    }
}

/// An entry whose value is the decimal text of `n`.
pub fn env_u64(name: &str, n: u64) -> (r: ContainerEnv)
    ensures
        r@ == value_entry(name@, decimal(n as nat)),
{
    let t = crate::text::u64_text(n);
    proof {
        lemma_decimal_plain(n as nat);
    }
    env_str(name, t.as_str())
}

/// An entry whose value is the decimal text of `i`.
pub fn env_i32(name: &str, i: i32) -> (r: ContainerEnv)
    ensures
        r@ == value_entry(name@, signed_decimal(i as int)),
{
    let t = crate::text::i64_text(i as i64);
    proof {
        lemma_signed_decimal_plain(i as int);
    }
    env_str(name, t.as_str())
}

/// An entry whose value is `true` or `false`.
pub fn env_bool(name: &str, b: bool) -> (r: ContainerEnv)
    ensures
        r@ == value_entry(name@, bool_text(b)),
{
    let t = bool_to_text(b);
    proof {
        lemma_bool_plain(b);
    }
    env_str(name, t.as_str())
}

// ----- user-controlled env -----

/// An `EnvVar` as character sequences; `secret` is the (name, key) it reads.
pub struct EnvVarView {
    pub name: Seq<char>,
    pub value: Option<Seq<char>>,
    pub secret: Option<(Seq<char>, Seq<char>)>,
}

impl View for EnvVar {
    type V = EnvVarView;

    open spec fn view(&self) -> EnvVarView {
        EnvVarView {
            name: self.name@,
            value: match self.value {
                Some(v) => Some(v@),
                None => None,
            },
            secret: match self.value_from {
                Some(src) => Some((src.secret_ref.name@, src.secret_ref.key@)),
                None => None,
            },
        }
    }
}

/// The views of a list of `EnvVar`s.
pub open spec fn env_var_views(s: Seq<EnvVar>) -> Seq<EnvVarView> {
    s.map_values(|e: EnvVar| e@)
}

/// An inline `EnvVar`.
pub open spec fn lit_var(name: Seq<char>, value: Seq<char>) -> EnvVarView {
    EnvVarView { name, value: Some(value), secret: None }
}

/// An `EnvVar` read from a Secret key.
pub open spec fn secret_var(name: Seq<char>, sec: SecretKeyRef) -> EnvVarView {
    EnvVarView { name, value: None, secret: Some((sec.name@, sec.key@)) }
}

/// An inline `EnvVar`.
pub fn lit(name: &str, value: String) -> (r: EnvVar)
    ensures
        r@ == lit_var(name@, value@),
{
    EnvVar { name: owned(name), value: Some(value), value_from: None }
}

/// An `EnvVar` read from a Secret key.
pub fn secret_lit(name: &str, sec: &SecretKeyRef) -> (r: EnvVar)
    ensures
        r@ == secret_var(name@, *sec),
{
    EnvVar { name: owned(name), value: None, value_from: Some(EnvVarSource { secret_ref: sec.clone() }) }
}

/// How an `EnvVar` renders: a `value_from` becomes a Secret key reference,
/// otherwise the inline value, empty when unset.
pub open spec fn render_view(e: EnvVarView) -> ContainerEnvView {
    match e.secret {
        Some(s) => ContainerEnvView { name: e.name, source: EnvSourceView::SecretKey(s.0, s.1) },
        None => ContainerEnvView {
            name: e.name,
            source: EnvSourceView::Value(
                match e.value {
                    Some(v) => v,
                    None => Seq::empty(),
                },
            ),
        },
    }
}

/// One `EnvVar` rendered as a container env entry.
pub fn render_user_env(e: &EnvVar) -> (r: ContainerEnv)
    ensures
        r@ == render_view(e@),
{
    match &e.value_from {
        Some(src) => env_secret(e.name.as_str(), &src.secret_ref),
        None => {
            let v = match &e.value {
                Some(v) => v.clone(),
                None => String::new(),
            };
            ContainerEnv { name: e.name.clone(), source: EnvSource::Value(v) }
        },
    }
}

/// The `secureCookie` layer: `N8N_SECURE_COOKIE` when set.
pub open spec fn cookie_layer(secure_cookie: Option<bool>) -> Seq<EnvVarView> {
    match secure_cookie {
        Some(b) => seq![lit_var("N8N_SECURE_COOKIE"@, bool_text(b))],
        None => Seq::empty(),
    }
}

/// The distinct names of a layered list, in order of first appearance.
pub open spec fn first_names(s: Seq<EnvVarView>) -> Seq<Seq<char>>
    decreases s.len(),
{
    if s.len() == 0 {
        Seq::empty()
    } else {
        let p = first_names(s.drop_last());
        if p.contains(s.last().name) {
            p
        } else {
            p.push(s.last().name)
        }
    }
}

/// The last entry of a layered list with the given name.
pub open spec fn last_with_name(s: Seq<EnvVarView>, n: Seq<char>) -> EnvVarView
    decreases s.len(),
{
    if s.len() == 0 {
        EnvVarView { name: n, value: None, secret: None }
    } else if s.last().name == n {
        s.last()
    } else {
        last_with_name(s.drop_last(), n)
    }
}

/// A layered list with one entry per name: each name once, in order of first
/// appearance, taking the value of its last entry.
pub open spec fn layered_env(s: Seq<EnvVarView>) -> Seq<ContainerEnvView> {
    first_names(s).map_values(|n: Seq<char>| render_view(last_with_name(s, n)))
}

/// The user-controlled layers of a role, low to high: operator defaults,
/// `secureCookie`, cluster-wide `extraEnv`, the role's own `extraEnv`.
pub open spec fn user_layers(
    defaults: Seq<EnvVarView>,
    secure_cookie: Option<bool>,
    cluster: Seq<EnvVar>,
    role: Seq<EnvVar>,
) -> Seq<EnvVarView> {
    defaults + cookie_layer(secure_cookie) + env_var_views(cluster) + env_var_views(
        role,
    )
}

proof fn lemma_first_names_push(s: Seq<EnvVarView>, x: EnvVarView)
    ensures
        first_names(s.push(x)) == (if first_names(s).contains(x.name) {
            first_names(s)
        } else {
            first_names(s).push(x.name)
        }),
        forall|n: Seq<char>| #[trigger]
            last_with_name(s.push(x), n) == (if x.name == n {
                x
            } else {
                last_with_name(s, n)
            }),
{
    assert(s.push(x).drop_last() =~= s);
}

/// The names of `first_names(s)` are distinct, and they are exactly the names occurring in `s`.
pub proof fn lemma_first_names(s: Seq<EnvVarView>)
    ensures
        first_names(s).no_duplicates(),
        forall|n: Seq<char>|
            first_names(s).contains(n) <==> exists|i: int| 0 <= i < s.len() && (#[trigger] s[i]).name == n,
    decreases s.len(),
{
    if s.len() > 0 {
        let t = s.drop_last();
        let x = s.last();
        lemma_first_names(t);
        assert(s =~= t.push(x));
        lemma_first_names_push(t, x);
        let p = first_names(t);
        let q = first_names(s);
        assert forall|n: Seq<char>| q.contains(n) implies exists|i: int|
            0 <= i < s.len() && (#[trigger] s[i]).name == n by {
            let k = choose|k: int| 0 <= k < q.len() && q[k] == n;
            if k < p.len() {
                assert(p[k] == n);
                assert(p.contains(n));
                let i = choose|i: int| 0 <= i < t.len() && (#[trigger] t[i]).name == n;
                assert(s[i] == t[i]);
            } else {
                assert(n == x.name);
                assert(s[s.len() - 1] == x);
            }
        }
        assert forall|n: Seq<char>| (exists|i: int| 0 <= i < s.len() && (#[trigger] s[i]).name == n) implies q.contains(n) by {
            let i = choose|i: int| 0 <= i < s.len() && (#[trigger] s[i]).name == n;
            if i < s.len() - 1 {
                assert(t[i] == s[i]);
                assert(p.contains(n));
                let k = choose|k: int| 0 <= k < p.len() && p[k] == n;
                assert(q[k] == p[k]);
            } else {
                assert(s[i] == x);
                if !p.contains(n) {
                    assert(q[p.len() as int] == n);
                }
            }
        }
    }
}

/// The last entry named `n` in a list that contains that name carries the name `n`
/// and is an element of the list.
pub proof fn lemma_last_with_name(s: Seq<EnvVarView>, n: Seq<char>)
    ensures
        last_with_name(s, n).name == n,
        (exists|i: int| 0 <= i < s.len() && (#[trigger] s[i]).name == n) ==> s.contains(last_with_name(s, n)),
    decreases s.len(),
{
    if s.len() > 0 && s.last().name != n {
        let t = s.drop_last();
        lemma_last_with_name(t, n);
        if exists|i: int| 0 <= i < s.len() && (#[trigger] s[i]).name == n {
            let i = choose|i: int| 0 <= i < s.len() && (#[trigger] s[i]).name == n;
            assert(t[i] == s[i]);
            let j = choose|j: int| 0 <= j < t.len() && t[j] == last_with_name(t, n);
            assert(s[j] == t[j]);
        }
    } else if s.len() > 0 {
        assert(s[s.len() - 1] == s.last());
    }
}

fn find_name(order: &Vec<String>, name: &str) -> (r: Option<usize>)
    ensures
        match r {
            Some(k) => k < order@.len() && order@[k as int]@ == name@,
            None => forall|t: int| 0 <= t < order@.len() ==> order@[t]@ != name@,
        },
{
    let m = order.len();
    let mut k: usize = 0;
    while k < m
        invariant
            m == order@.len(),
            k <= m,
            forall|t: int| 0 <= t < k ==> order@[t]@ != name@,
        decreases m - k,
    {
        if str_eq(order[k].as_str(), name) {
            return Some(k);
        }
        k = k + 1;
    }
    None
}

fn append_views(out: &mut Vec<EnvVar>, src: &[EnvVar])
    ensures
        final(out)@ == old(out)@ + src@,
{
    let n = src.len();
    let mut i: usize = 0;
    while i < n
        invariant
            n == src@.len(),
            i <= n,
            out@ == old(out)@ + src@.subrange(0, i as int),
        decreases n - i,
    {
        out.push(src[i].clone());
        assert(src@.subrange(0, i + 1) =~= src@.subrange(0, i as int).push(src@[i as int]));
        i = i + 1;
    }
    assert(src@.subrange(0, n as int) =~= src@);
}

/// Renders the user-controlled env of a role: operator `defaults`, the
/// `secureCookie` sugar, the cluster-wide `extraEnv` and the per-role
/// `extraEnv`, layered low to high. A later layer wins on a name clash, each
/// name appears once (at its first position), and each entry is rendered as an
/// inline value or a Secret key reference. For a `Single`, `role` is empty.
pub fn build_user_env(
    defaults: &[EnvVar],
    secure_cookie: Option<bool>,
    cluster: &[EnvVar],
    role: &[EnvVar],
) -> (r: Vec<ContainerEnv>)
    ensures
        container_env_views(r@) == layered_env(
            user_layers(env_var_views(defaults@), secure_cookie, cluster@, role@),
        ),
{
    let mut layered: Vec<EnvVar> = Vec::new();
    append_views(&mut layered, defaults);
    if let Some(b) = secure_cookie {
        layered.push(lit("N8N_SECURE_COOKIE", bool_to_text(b)));
    }
    append_views(&mut layered, cluster);
    append_views(&mut layered, role);
    let ghost all = env_var_views(layered@);
    assert(all =~= user_layers(env_var_views(defaults@), secure_cookie, cluster@, role@));

    let mut order: Vec<String> = Vec::new();
    let mut latest: Vec<EnvVar> = Vec::new();
    let n = layered.len();
    let mut i: usize = 0;
    while i < n
        invariant
            n == layered@.len(),
            i <= n,
            all == env_var_views(layered@),
            order@.len() == latest@.len(),
            order@.map_values(|s: String| s@) == first_names(all.subrange(0, i as int)),
            forall|j: int|
                0 <= j < latest@.len() ==> (#[trigger] latest@[j])@ == last_with_name(
                    all.subrange(0, i as int),
                    order@[j]@,
                ),
        decreases n - i,
    {
        let e = &layered[i];
        let ghost pre = all.subrange(0, i as int);
        let ghost x = all[i as int];
        assert(all.subrange(0, i + 1) =~= pre.push(x));
        proof {
            lemma_first_names_push(pre, x);
        }
        let found = find_name(&order, e.name.as_str());
        let ghost names = order@.map_values(|s: String| s@);
        assert(e@ == x);
        if let Some(k) = found {
            assert(names[k as int] == x.name);
            assert(first_names(pre).contains(x.name));
            let ghost old_latest = latest@;
            latest.set(k, e.clone());
            assert forall|j: int| 0 <= j < latest@.len() implies (#[trigger] latest@[j])@ == last_with_name(
                pre.push(x),
                order@[j]@,
            ) by {
                if j != k {
                    assert(latest@[j] == old_latest[j]);
                    assert(names[j] == order@[j]@);
                    assert(names[j] != names[k as int]) by {
                        lemma_first_names(pre);
                    }
                }
            }
        } else {
            assert(!first_names(pre).contains(x.name)) by {
                if first_names(pre).contains(x.name) {
                    let t = choose|t: int| 0 <= t < names.len() && names[t] == x.name;
                    assert(order@[t]@ == x.name);
                }
            }
            order.push(e.name.clone());
            latest.push(e.clone());
            assert(order@.map_values(|s: String| s@) =~= names.push(x.name));
            assert forall|j: int| 0 <= j < latest@.len() implies (#[trigger] latest@[j])@ == last_with_name(
                pre.push(x),
                order@[j]@,
            ) by {
                if j < latest@.len() - 1 {
                    assert(names[j] == order@[j]@);
                    assert(names[j] != x.name) by {
                        assert(first_names(pre)[j] == names[j]);
                    }
                }
            }
        }
        i = i + 1;
    }
    assert(all.subrange(0, n as int) =~= all);
    let mut out: Vec<ContainerEnv> = Vec::new();
    let c = latest.len();
    let mut j: usize = 0;
    while j < c
        invariant
            c == latest@.len(),
            c == order@.len(),
            j <= c,
            order@.map_values(|s: String| s@) == first_names(all),
            forall|t: int| 0 <= t < c ==> (#[trigger] latest@[t])@ == last_with_name(all, order@[t]@),
            container_env_views(out@) == layered_env(all).subrange(0, j as int),
        decreases c - j,
    {
        let r = render_user_env(&latest[j]);
        assert(order@.map_values(|s: String| s@)[j as int] == order@[j as int]@);
        assert(r@ == layered_env(all)[j as int]);
        push_env(&mut out, r);
        assert(container_env_views(out@) =~= layered_env(all).subrange(0, j + 1));
        j = j + 1;
    }
    assert(layered_env(all).subrange(0, c as int) =~= layered_env(all));
    out
}

// ----- host-derived URLs -----

/// `https` when the networking terminates TLS (an Ingress with a TLS secret, or
/// any HTTPRoute), otherwise `http`.
pub open spec fn protocol_of(net: Option<NetworkingSpec>) -> Seq<char> {
    match net {
        Some(n) => if n.http_route is Some {
            "https"@
        } else if n.ingress matches Some(i) && i.tls_secret_name is Some {
            "https"@
        } else {
            "http"@
        },
        None => "http"@,
    }
}

/// The URL scheme a role is reached by.
pub fn protocol_for(net: Option<&NetworkingSpec>) -> (r: &'static str)
    ensures
        r@ == protocol_of(
            match net {
                Some(n) => Some(*n),
                None => None,
            },
        ),
{
    match net {
        Some(n) => {
            if n.http_route.is_some() {
                "https"
            } else {
                match &n.ingress {
                    Some(i) => if i.tls_secret_name.is_some() {
                        "https"
                    } else {
                        "http"
                    },
                    None => "http",
                }
            }
        },
        None => "http",
    }
}

/// `N8N_HOST`, `N8N_PROTOCOL`, `WEBHOOK_URL` and `N8N_EDITOR_BASE_URL` for a
/// host; nothing without one.
pub open spec fn host_env_views(host: Option<Seq<char>>, protocol: Seq<char>) -> Seq<EnvVarView> {
    match host {
        Some(h) => seq![
            lit_var("N8N_HOST"@, h),
            lit_var("N8N_PROTOCOL"@, protocol),
            webhook_url_view(h, protocol),
            lit_var("N8N_EDITOR_BASE_URL"@, protocol + "://"@ + h),
        ],
        None => Seq::empty(),
    }
}

/// Host-derived n8n URL env (`N8N_HOST`, `N8N_PROTOCOL`, `WEBHOOK_URL`,
/// `N8N_EDITOR_BASE_URL`), the lowest user layer; empty when no host is set.
pub fn host_env(host: Option<&str>, protocol: &str) -> (r: Vec<EnvVar>)
    ensures
        env_var_views(r@) == host_env_views(
            match host {
                Some(h) => Some(h@),
                None => None,
            },
            protocol@,
        ),
{
    match host {
        None => Vec::new(),
        Some(h) => {
            let base = concat3(protocol, "://", h);
            let mut v: Vec<EnvVar> = Vec::new();
            v.push(lit("N8N_HOST", owned(h)));
            v.push(lit("N8N_PROTOCOL", owned(protocol)));
            v.push(webhook_url_env(h, protocol));
            v.push(lit("N8N_EDITOR_BASE_URL", base));
            assert(env_var_views(v@) =~= host_env_views(Some(h@), protocol@));
            v
        },
    }
}

/// `WEBHOOK_URL` for a host: `protocol://host/`.
pub open spec fn webhook_url_view(host: Seq<char>, protocol: Seq<char>) -> EnvVarView {
    lit_var("WEBHOOK_URL"@, protocol + "://"@ + host + "/"@)
}

/// `WEBHOOK_URL` for a host; the externally reachable webhook base.
pub fn webhook_url_env(host: &str, protocol: &str) -> (r: EnvVar)
    ensures
        r@ == webhook_url_view(host@, protocol@),
{
    let head = concat3(protocol, "://", host);
    let url = head.concat("/");
    lit("WEBHOOK_URL", url)
}

/// The cluster-wide `WEBHOOK_URL`: the webhook role's host when it has one,
/// otherwise the main host; none when neither is set.
pub open spec fn cluster_webhook_url_view(c: Cluster) -> Option<EnvVarView> {
    let s = c.spec;
    let main_url = match s.main.host {
        Some(h) => Some(webhook_url_view(h@, protocol_of(s.main.networking))),
        None => None,
    };
    match s.webhooks {
        Some(w) => match w.host {
            Some(h) => Some(webhook_url_view(h@, protocol_of(w.networking))),
            None => main_url,
        },
        None => main_url,
    }
}

/// The cluster-wide `WEBHOOK_URL`, the same for every role.
pub fn cluster_webhook_url(c: &Cluster) -> (r: Option<EnvVar>)
    ensures
        match r {
            Some(e) => cluster_webhook_url_view(*c) == Some(e@),
            None => cluster_webhook_url_view(*c) is None,
        },
{
    if let Some(w) = &c.spec.webhooks {
        if let Some(h) = &w.host {
            return Some(webhook_url_env(h.as_str(), protocol_for(w.networking.as_ref())));
        }
    }
    match &c.spec.main.host {
        Some(h) => Some(webhook_url_env(h.as_str(), protocol_for(c.spec.main.networking.as_ref()))),
        None => None,
    }
}

/// The operator-derived defaults of a cluster role: its host URLs, the
/// cluster-wide SMTP, logging and community-node settings, and the cluster-wide
/// webhook URL.
pub open spec fn cluster_role_defaults_views(
    c: Cluster,
    host: Option<Seq<char>>,
    net: Option<NetworkingSpec>,
) -> Seq<EnvVarView> {
    host_env_views(host, protocol_of(net)) + match c.spec.smtp {
        Some(s) => smtp::smtp_env_views(s),
        None => Seq::empty(),
    } + match c.spec.logging {
        Some(l) => logging::logging_env_views(l),
        None => Seq::empty(),
    } + match c.spec.community_nodes {
        Some(cn) => community::community_env_views(cn),
        None => Seq::empty(),
    } + match cluster_webhook_url_view(c) {
        Some(e) => seq![e],
        None => Seq::empty(),
    }
}

fn append_owned(out: &mut Vec<EnvVar>, src: Vec<EnvVar>)
    ensures
        final(out)@ == old(out)@ + src@,
{
    let mut src = src;
    let ghost s0 = src@;
    out.append(&mut src);
}

/// The operator-derived env defaults of a cluster role, to be passed to
/// `build_user_env` where `extraEnv` can still override every entry.
pub fn cluster_role_defaults(c: &Cluster, host: Option<&str>, net: Option<&NetworkingSpec>) -> (r: Vec<
    EnvVar,
>)
    ensures
        env_var_views(r@) == cluster_role_defaults_views(
            *c,
            match host {
                Some(h) => Some(h@),
                None => None,
            },
            match net {
                Some(n) => Some(*n),
                None => None,
            },
        ),
{
    let mut out = host_env(host, protocol_for(net));
    let ghost a = out@;
    let smtp_env = match &c.spec.smtp {
        Some(s) => smtp::build_smtp_env(s),
        None => Vec::new(),
    };
    append_owned(&mut out, smtp_env);
    let log_env = match &c.spec.logging {
        Some(l) => logging::build_logging_env(l),
        None => Vec::new(),
    };
    append_owned(&mut out, log_env);
    let cn_env = match &c.spec.community_nodes {
        Some(cn) => community::build_community_env(cn),
        None => Vec::new(),
    };
    append_owned(&mut out, cn_env);
    match cluster_webhook_url(c) {
        Some(e) => out.push(e),
        None => {},
    }
    assert(env_var_views(out@) =~= cluster_role_defaults_views(
        *c,
        match host {
            Some(h) => Some(h@),
            None => None,
        },
        match net {
            Some(n) => Some(*n),
            None => None,
        },
    ));
    out
}

/// The operator-derived env defaults of a `Single`: its SMTP and logging
/// settings. A `Single` gets no host-derived URL env.
pub open spec fn single_defaults_views(spec: SingleSpec) -> Seq<EnvVarView> {
    (match spec.smtp {
        Some(s) => smtp::smtp_env_views(s),
        None => Seq::empty(),
    }) + (match spec.logging {
        Some(l) => logging::logging_env_views(l),
        None => Seq::empty(),
    })
}

/// The operator-derived env defaults of a `Single`, to be passed to
/// `build_user_env` where `extraEnv` can still override every entry.
pub fn single_defaults(spec: &SingleSpec) -> (r: Vec<EnvVar>)
    ensures
        env_var_views(r@) == single_defaults_views(*spec),
{
    let mut out = match &spec.smtp {
        Some(s) => smtp::build_smtp_env(s),
        None => Vec::new(),
    };
    let log_env = match &spec.logging {
        Some(l) => logging::build_logging_env(l),
        None => Vec::new(),
    };
    append_owned(&mut out, log_env);
    assert(env_var_views(out@) =~= single_defaults_views(*spec));
    out
}

/// A role is reached over `https` exactly when it is exposed through an
/// HTTPRoute or through an Ingress with TLS, and over `http` otherwise; a host
/// then gives n8n its name, that scheme, and the webhook and editor URLs built
/// from both.
pub proof fn host_env_follows_exposure(h: Seq<char>, net: Option<NetworkingSpec>)
    ensures
        protocol_of(net) == "https"@ <==> (net matches Some(n) && (n.http_route is Some || (n.ingress matches Some(
            i,
        ) && i.tls_secret_name is Some))),
        protocol_of(net) == "https"@ || protocol_of(net) == "http"@,
        ({
            let p = protocol_of(net);
            let env = host_env_views(Some(h), p);
            &&& env.contains(lit_var("N8N_HOST"@, h))
            &&& env.contains(lit_var("N8N_PROTOCOL"@, p))
            &&& env.contains(lit_var("WEBHOOK_URL"@, p + "://"@ + h + "/"@))
            &&& env.contains(lit_var("N8N_EDITOR_BASE_URL"@, p + "://"@ + h))
        }),
        host_env_views(None, protocol_of(net)).len() == 0,
{
    reveal_strlit("https");
    reveal_strlit("http");
    assert("https"@.len() != "http"@.len());
    let p = protocol_of(net);
    let env = host_env_views(Some(h), p);
    assert(env[0] == lit_var("N8N_HOST"@, h));
    assert(env[1] == lit_var("N8N_PROTOCOL"@, p));
    assert(env[2] == lit_var("WEBHOOK_URL"@, p + "://"@ + h + "/"@));
    assert(env[3] == lit_var("N8N_EDITOR_BASE_URL"@, p + "://"@ + h));
}

} // verus!
