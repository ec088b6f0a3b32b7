//! The `N8N_ENCRYPTION_KEY` Secret: a user reference, or one the operator generates and owns.
use vstd::prelude::*;
use crate::builders::object_meta;
use crate::labels::{common_annotations_map, common_labels, common_labels_map};
use crate::objects::{OwnerRef, SecretModel};
use crate::spec::{EncryptionKeySpec, SecretKeyRef};
use crate::text::{concat2, hex_digit, owned};

verus! {

/// Where the encryption key is read from.
#[derive(Debug)]
pub enum KeySource {
    /// A Secret the user named; used as it is.
    Referenced(SecretKeyRef),
    /// `<name>-encryption-key` / `encryption_key`, created by the operator when missing.
    Managed(SecretKeyRef),
}

/// The user's reference when the spec names one, otherwise the managed Secret
/// `<name>-encryption-key` with key `encryption_key`.
pub open spec fn key_source_is(r: KeySource, obj_name: Seq<char>, spec: Option<EncryptionKeySpec>) -> bool {
    match spec {
        Some(s) if s.secret_ref is Some => r == KeySource::Referenced(s.secret_ref->0),
        _ => r matches KeySource::Managed(k) && k.name@ == obj_name + "-encryption-key"@ && k.key@
            == "encryption_key"@,
    }
}

/// Decides which Secret key feeds `N8N_ENCRYPTION_KEY`.
pub fn encryption_key_source(obj_name: &str, spec: Option<&EncryptionKeySpec>) -> (r: KeySource)
    ensures
        key_source_is(
            r,
            obj_name@,
            match spec {
                Some(s) => Some(*s),
                None => None,
            },
        ),
{
    if let Some(s) = spec {
        if let Some(r) = &s.secret_ref {
            return KeySource::Referenced(r.clone());
        }
    }
    KeySource::Managed(SecretKeyRef { name: concat2(obj_name, "-encryption-key"), key: owned("encryption_key") })
}

/// The Secret key a source names.
pub open spec fn key_ref_of(k: KeySource) -> SecretKeyRef {
    match k {
        KeySource::Referenced(r) => r,
        KeySource::Managed(r) => r,
    }
}

/// Key resolution is the same on every pass over the same resource: two
/// decisions for one name and one spec agree on the kind of source and on the
/// Secret name and key (and are equal for a user reference). With
/// `missing_key_secret`, which plans nothing once the Secret exists, a second
/// pass after a first one that created the Secret creates nothing more.
pub proof fn key_resolution_is_stable(
    obj_name: Seq<char>,
    spec: Option<EncryptionKeySpec>,
    first: KeySource,
    second: KeySource,
)
    requires
        key_source_is(first, obj_name, spec),
        key_source_is(second, obj_name, spec),
    ensures
        (first is Referenced) == (second is Referenced),
        first is Referenced ==> first == second,
        key_ref_of(first).name@ == key_ref_of(second).name@,
        key_ref_of(first).key@ == key_ref_of(second).key@,
{
}

/// Lower-case hexadecimal text of a byte string, two digits per byte.
pub open spec fn hex_lower(bytes: Seq<u8>) -> Seq<char>
    decreases bytes.len(),
{
    if bytes.len() == 0 {
        Seq::empty()
    } else {
        hex_lower(bytes.drop_last()) + seq![
            hex_digit(bytes.last() as int / 16),
            hex_digit(bytes.last() as int % 16),
        ]
    }
}

/// `hex::encode`. Claimed: the lower-case hexadecimal digits of the bytes, two
/// per byte, most significant first (`HEX_CHARS_LOWER` in the crate's source).
#[verifier::external_body]
fn hex_encode(bytes: &[u8]) -> (r: String)
    ensures
        r@ == hex_lower(bytes@),
{
    hex::encode(bytes)
}

/// Hexadecimal text has two digits per byte, each one of `0-9` or `a-f`.
pub proof fn hex_lower_is_lowercase_hex(bytes: Seq<u8>)
    ensures
        hex_lower(bytes).len() == 2 * bytes.len(),
        forall|i: int|
            0 <= i < hex_lower(bytes).len() ==> ('0' <= #[trigger] hex_lower(bytes)[i] <= '9' || 'a'
                <= hex_lower(bytes)[i] <= 'f'),
    decreases bytes.len(),
{
    if bytes.len() > 0 {
        let t = bytes.drop_last();
        hex_lower_is_lowercase_hex(t);
        let b = bytes.last() as int;
        let p = hex_lower(t);
        let q = hex_lower(bytes);
        assert(q == p + seq![hex_digit(b / 16), hex_digit(b % 16)]);
        assert forall|i: int| 0 <= i < q.len() implies ('0' <= #[trigger] q[i] <= '9' || 'a' <= q[i] <= 'f') by {
            if i < p.len() {
                assert(q[i] == p[i]);
            } else {
                let d = if i == p.len() { b / 16 } else { b % 16 };
                assert(0 <= d < 16);
                assert(q[i] == hex_digit(d));
            }
        }
    }
}

/// 32 bytes from `rand::rng()` via `RngCore::fill_bytes`. Claimed: there are
/// 32 of them; nothing is stated of their values.
#[verifier::external_body]
fn random_key_bytes() -> (r: Vec<u8>)
    ensures
        r@.len() == 32,
{
    let mut buf = [0u8; 32];
    rand::RngCore::fill_bytes(&mut rand::rng(), &mut buf);
    buf.to_vec()
}

/// A fresh encryption key: 32 random bytes as 64 lower-case hexadecimal digits.
pub fn generate_encryption_key() -> (r: String)
    ensures
        exists|b: Seq<u8>| b.len() == 32 && r@ == hex_lower(b),
{
    let bytes = random_key_bytes();
    hex_encode(bytes.as_slice())
}

/// The managed Secret: named and keyed as `key_ref`, in namespace `ns`, owned by
/// the resource, labelled `encryption-key`, holding `value`, type `Opaque`.
pub open spec fn secret_is(
    s: SecretModel,
    obj_name: Seq<char>,
    image: Seq<char>,
    ns: Seq<char>,
    owner: OwnerRef,
    key_ref: SecretKeyRef,
    value: Seq<char>,
) -> bool {
    &&& s.meta.name@ == key_ref.name@
    &&& s.meta.namespace matches Some(n) && n@ == ns
    &&& s.meta.labels@ == common_labels_map(obj_name, image, "encryption-key"@)
    &&& s.meta.annotations@ == common_annotations_map()
    &&& s.meta.owner == owner
    &&& s.key@ == key_ref.key@
    &&& s.value@ == value
    &&& s.type_@ == "Opaque"@
}

/// The Secret the operator creates to hold a generated key.
pub fn encryption_secret(
    obj_name: &str,
    image: &str,
    ns: &str,
    owner: &OwnerRef,
    key_ref: &SecretKeyRef,
    value: String,
) -> (s: SecretModel)
    ensures
        secret_is(s, obj_name@, image@, ns@, *owner, *key_ref, value@),
{
    let mut meta = object_meta(key_ref.name.as_str(), common_labels(obj_name, image, "encryption-key"), owner);
    meta.namespace = Some(owned(ns));
    SecretModel { meta, key: key_ref.key.clone(), value, type_: owned("Opaque") }
}

/// What to do about the managed Secret once a lookup has told whether it
/// exists: nothing when it does; otherwise create it, holding a fresh key.
pub fn missing_key_secret(
    obj_name: &str,
    image: &str,
    ns: &str,
    owner: &OwnerRef,
    key_ref: &SecretKeyRef,
    exists: bool,
) -> (r: Option<SecretModel>)
    ensures
        r is None <==> exists,
        r matches Some(s) ==> exists|b: Seq<u8>|
            b.len() == 32 && secret_is(s, obj_name@, image@, ns@, *owner, *key_ref, hex_lower(b)),
{
    if exists {
        None
    } else {
        let value = generate_encryption_key();
        let ghost v = value@;
        let s = encryption_secret(obj_name, image, ns, owner, key_ref, value);
        proof {
            let b = choose|b: Seq<u8>| b.len() == 32 && v == hex_lower(b);
            assert(secret_is(s, obj_name@, image@, ns@, *owner, *key_ref, hex_lower(b)));
        }
        Some(s)
    }
}

/// Whether a failed create is the desired state after all: a 409 means the
/// Secret exists already (a concurrent creator, or a name reused).
pub fn create_conflict_tolerated(status_code: u16) -> (r: bool)
    ensures
        r == (status_code == 409),
{
    status_code == 409
}

/// A generated encryption key (the hex encoding of 32 bytes) is 64 lower-case
/// hexadecimal characters.
pub proof fn generated_keys_are_64_hex_digits(key: Seq<char>)
    requires
        exists|b: Seq<u8>| b.len() == 32 && key == hex_lower(b),
    ensures
        key.len() == 64,
        forall|i: int| 0 <= i < key.len() ==> ('0' <= #[trigger] key[i] <= '9' || 'a' <= key[i] <= 'f'),
{
    let b = choose|b: Seq<u8>| b.len() == 32 && key == hex_lower(b);
    hex_lower_is_lowercase_hex(b);
}

} // verus!
