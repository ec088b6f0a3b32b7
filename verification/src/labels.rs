//! Recommended `app.kubernetes.io/*` labels and the operator annotation put on
//! every managed object.
use vstd::prelude::*;
use crate::strmap::StrMap;
use crate::text::owned;

verus! {

/// The operator's version, stamped on every managed object.
pub const OPERATOR_VERSION: &'static str = "0.1.0";

/// The selector subset: `app.kubernetes.io/name=n8n` and
/// `app.kubernetes.io/instance=<name>`.
pub open spec fn selector_labels_map(name: Seq<char>) -> Map<Seq<char>, Seq<char>> {
    Map::<Seq<char>, Seq<char>>::empty().insert("app.kubernetes.io/name"@, "n8n"@).insert(
        "app.kubernetes.io/instance"@,
        name,
    )
}

/// The full label set: the selector subset plus managed-by, part-of, component and version.
pub open spec fn common_labels_map(name: Seq<char>, image: Seq<char>, component: Seq<char>) -> Map<
    Seq<char>,
    Seq<char>,
> {
    selector_labels_map(name).insert("app.kubernetes.io/managed-by"@, "n8n-rustful-operator"@).insert(
        "app.kubernetes.io/part-of"@,
        "n8n"@,
    ).insert("app.kubernetes.io/component"@, component).insert(
        "app.kubernetes.io/version"@,
        image_version_of(image),
    )
}

/// The annotation set: the operator version.
pub open spec fn common_annotations_map() -> Map<Seq<char>, Seq<char>> {
    Map::<Seq<char>, Seq<char>>::empty().insert("n8n.slys.dev/operator-version"@, OPERATOR_VERSION@)
}

/// Index of the last occurrence of `c` in `s`, or -1.
pub open spec fn last_index_of(s: Seq<char>, c: char) -> int
    decreases s.len(),
{
    if s.len() == 0 {
        -1
    } else if s.last() == c {
        s.len() - 1
    } else {
        last_index_of(s.drop_last(), c)
    }
}

proof fn lemma_last_index_of(s: Seq<char>, c: char)
    ensures
        -1 <= last_index_of(s, c) < s.len(),
        last_index_of(s, c) >= 0 ==> s[last_index_of(s, c)] == c,
        forall|j: int| last_index_of(s, c) < j < s.len() ==> s[j] != c,
    decreases s.len(),
{
    if s.len() > 0 && s.last() != c {
        let t = s.drop_last();
        lemma_last_index_of(t, c);
        assert forall|j: int| last_index_of(s, c) < j < s.len() implies s[j] != c by {
            if j < s.len() - 1 {
                assert(s[j] == t[j]);
            }
        }
    }
}

/// The part of `s` after the last `c` (all of `s` when there is none).
pub open spec fn after_last(s: Seq<char>, c: char) -> Seq<char> {
    s.subrange(last_index_of(s, c) + 1, s.len() as int)
}

/// The image tag: the text after the last `:` of the last path segment, or
/// `latest` when that segment has no `:`.
pub open spec fn image_version_of(image: Seq<char>) -> Seq<char> {
    let seg = after_last(image, '/');
    if last_index_of(seg, ':') >= 0 {
        after_last(seg, ':')
    } else {
        "latest"@
    }
}

fn last_index(s: &str, c: char) -> (r: (bool, usize))
    ensures
        r.0 <==> last_index_of(s@, c) >= 0,
        r.0 ==> r.1 == last_index_of(s@, c) && r.1 < s@.len(),
{
    proof {
        lemma_last_index_of(s@, c);
    }
    let n = s.unicode_len();
    let mut i: usize = n;
    while i > 0
        invariant
            n == s@.len(),
            i <= n,
            forall|j: int| i <= j < n ==> s@[j] != c,
            -1 <= last_index_of(s@, c) < n,
            last_index_of(s@, c) >= 0 ==> s@[last_index_of(s@, c)] == c,
            forall|j: int| last_index_of(s@, c) < j < n ==> s@[j] != c,
        decreases i,
    {
        if s.get_char(i - 1) == c {
            return (true, i - 1);
        }
        i = i - 1;
    }
    (false, 0)
}

/// The version label derived from an image reference.
pub fn image_version(image: &str) -> (r: String)
    ensures
        r@ == image_version_of(image@),
{
    proof {
        lemma_last_index_of(image@, '/');
    }
    let n = image.unicode_len();
    let (found, at) = last_index(image, '/');
    let start = if found {
        at + 1
    } else {
        0
    };
    let seg = image.substring_char(start, n);
    assert(seg@ == after_last(image@, '/'));
    let m = seg.unicode_len();
    let (has_colon, colon) = last_index(seg, ':');
    if has_colon {
        seg.substring_char(colon + 1, m).to_owned()
    } else {
        owned("latest")
    }
}

/// The stable selector labels of a named object. They never change for a name:
/// selectors are immutable after creation.
pub fn selector_labels(name: &str) -> (m: StrMap)
    ensures
        m@ == selector_labels_map(name@),
{
    let mut m = StrMap::new();
    m.insert(owned("app.kubernetes.io/name"), owned("n8n"));
    m.insert(owned("app.kubernetes.io/instance"), owned(name));
    m
}

/// The full label set put on every managed object and on the pod template.
pub fn common_labels(name: &str, image: &str, component: &str) -> (m: StrMap)
    ensures
        m@ == common_labels_map(name@, image@, component@),
{
    let mut m = selector_labels(name);
    m.insert(owned("app.kubernetes.io/managed-by"), owned("n8n-rustful-operator"));
    m.insert(owned("app.kubernetes.io/part-of"), owned("n8n"));
    m.insert(owned("app.kubernetes.io/component"), owned(component));
    m.insert(owned("app.kubernetes.io/version"), image_version(image));
    m
}

/// The annotations put on every managed object.
pub fn common_annotations() -> (m: StrMap)
    ensures
        m@ == common_annotations_map(),
{
    let mut m = StrMap::new();
    m.insert(owned("n8n.slys.dev/operator-version"), owned(OPERATOR_VERSION));
    m
}

/// The selector labels are a subset of the full label set, with the same values.
pub proof fn selector_labels_within_common_labels(name: Seq<char>, image: Seq<char>, component: Seq<char>)
    ensures
        selector_labels_map(name) <= common_labels_map(name, image, component),
{
    reveal_strlit("app.kubernetes.io/name");
    reveal_strlit("app.kubernetes.io/instance");
    reveal_strlit("app.kubernetes.io/managed-by");
    reveal_strlit("app.kubernetes.io/part-of");
    reveal_strlit("app.kubernetes.io/component");
    reveal_strlit("app.kubernetes.io/version");
    let n1 = "app.kubernetes.io/name"@;
    let n2 = "app.kubernetes.io/instance"@;
    let ks = seq![
        "app.kubernetes.io/managed-by"@,
        "app.kubernetes.io/part-of"@,
        "app.kubernetes.io/component"@,
        "app.kubernetes.io/version"@,
    ];
    assert(n1.len() == 22);
    assert(n2.len() == 26);
    assert("app.kubernetes.io/managed-by"@.len() == 28);
    assert("app.kubernetes.io/part-of"@.len() == 25);
    assert("app.kubernetes.io/component"@.len() == 27);
    assert("app.kubernetes.io/version"@.len() == 25);
    assert(n2 != "app.kubernetes.io/part-of"@) by {
        assert(n2[18] != "app.kubernetes.io/part-of"@[18]);
    }
    assert(n2 != "app.kubernetes.io/version"@) by {
        assert(n2[18] != "app.kubernetes.io/version"@[18]);
    }
    assert(selector_labels_map(name) <= common_labels_map(name, image, component));
}

proof fn lemma_last_index_skip(a: Seq<char>, b: Seq<char>, c: char)
    requires
        forall|i: int| 0 <= i < b.len() ==> b[i] != c,
    ensures
        last_index_of(a + b, c) == last_index_of(a, c),
    decreases b.len(),
{
    if b.len() == 0 {
        assert(a + b =~= a);
    } else {
        lemma_last_index_skip(a, b.drop_last(), c);
        assert((a + b).drop_last() =~= a + b.drop_last());
        assert((a + b).last() == b.last());
    }
}

/// The version label of `repo:tag`, for a tag without `:` or `/`, is the tag;
/// an image reference without any `:` is labelled `latest`.
pub proof fn image_tag_is_the_version(repo: Seq<char>, tag: Seq<char>)
    requires
        forall|i: int| 0 <= i < tag.len() ==> tag[i] != ':' && tag[i] != '/',
    ensures
        image_version_of(repo + seq![':'] + tag) == tag,
        (forall|i: int| 0 <= i < repo.len() ==> repo[i] != ':') ==> image_version_of(repo) == "latest"@,
{
    let img = repo + seq![':'] + tag;
    lemma_last_index_skip(repo, seq![':'], '/');
    lemma_last_index_skip(repo + seq![':'], tag, '/');
    lemma_last_index_of(repo, '/');
    let k = last_index_of(repo, '/');
    let a = repo.subrange(k + 1, repo.len() as int) + seq![':'];
    let seg = after_last(img, '/');
    assert(seg =~= a + tag);
    assert(last_index_of(a, ':') == a.len() - 1);
    lemma_last_index_skip(a, tag, ':');
    assert(after_last(seg, ':') =~= tag);
    if forall|i: int| 0 <= i < repo.len() ==> repo[i] != ':' {
        lemma_last_index_of(repo, '/');
        let s2 = after_last(repo, '/');
        assert(forall|i: int| 0 <= i < s2.len() ==> s2[i] == repo[k + 1 + i]);
        lemma_last_index_skip(Seq::<char>::empty(), s2, ':');
        assert(Seq::<char>::empty() + s2 =~= s2);
    }
}

} // verus!
