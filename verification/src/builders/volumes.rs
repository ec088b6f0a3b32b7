//! Pod volumes and their mounts.
use vstd::prelude::*;
use crate::env::storage::BINARY_DATA_STORAGE_PATH;
use crate::objects::{
    MountView, Volume, VolumeMount, VolumeSource, VolumeSourceView, VolumeView, mount_views, volume_views,
};
use crate::spec::{DatabaseSpec, DatabaseSsl, SecretKeyRef};
use crate::text::{owned, str_eq};

verus! {

/// A volume projecting Secret `secret_name`'s key `key` as file `path`.
pub open spec fn secret_volume_view(name: Seq<char>, secret_name: Seq<char>, key: Seq<char>, path: Seq<char>) -> VolumeView {
    VolumeView { name, source: VolumeSourceView::Secret(secret_name, key, path) }
}

/// A volume projecting one Secret key as a file.
pub fn secret_volume(name: &str, secret_name: &str, secret_key: &str, file: &str) -> (r: Volume)
    ensures
        r@ == secret_volume_view(name@, secret_name@, secret_key@, file@),
{
    Volume {
        name: owned(name),
        source: VolumeSource::Secret { secret_name: owned(secret_name), key: owned(secret_key), path: owned(file) },
    }
}

/// A volume named `name` backed by claim `claim`.
pub open spec fn claim_volume_view(name: Seq<char>, claim: Seq<char>) -> VolumeView {
    VolumeView { name, source: VolumeSourceView::Claim(claim) }
}

/// A writable mount of volume `name` at `path`.
pub open spec fn rw_mount(name: Seq<char>, path: Seq<char>) -> MountView {
    MountView { name, mount_path: path, read_only: None }
}

fn claim_volume(vol_name: &str, pvc_name: &str, path: &str) -> (r: (Volume, VolumeMount))
    ensures
        r.0@ == claim_volume_view(vol_name@, pvc_name@),
        r.1@ == rw_mount(vol_name@, path@),
{
    (
        Volume { name: owned(vol_name), source: VolumeSource::Claim(owned(pvc_name)) },
        VolumeMount { name: owned(vol_name), mount_path: owned(path), read_only: None },
    )
}

/// The `n8n-data` claim mounted at `/home/node/.n8n`.
pub fn build_persistence_volume(pvc_name: &str) -> (r: (Volume, VolumeMount))
    ensures
        r.0@ == claim_volume_view("n8n-data"@, pvc_name@),
        r.1@ == rw_mount("n8n-data"@, "/home/node/.n8n"@),
{
    claim_volume("n8n-data", pvc_name, "/home/node/.n8n")
}

/// The shared community-nodes claim, mounted at the n8n nodes directory.
pub fn build_nodes_volume(pvc_name: &str) -> (r: (Volume, VolumeMount))
    ensures
        r.0@ == claim_volume_view("n8n-nodes"@, pvc_name@),
        r.1@ == rw_mount("n8n-nodes"@, "/home/node/.n8n/nodes"@),
{
    claim_volume("n8n-nodes", pvc_name, "/home/node/.n8n/nodes")
}

/// The shared binary-data claim, mounted at the binary-data storage path.
pub fn build_binary_data_volume(pvc_name: &str) -> (r: (Volume, VolumeMount))
    ensures
        r.0@ == claim_volume_view("n8n-binary-data"@, pvc_name@),
        r.1@ == rw_mount("n8n-binary-data"@, BINARY_DATA_STORAGE_PATH@),
{
    claim_volume("n8n-binary-data", pvc_name, BINARY_DATA_STORAGE_PATH)
}

/// The SSL block of the backend that the database type selects, if any.
pub open spec fn db_ssl_of(db: DatabaseSpec) -> Option<DatabaseSsl> {
    let t = db.type_@;
    if t == "postgresdb"@ {
        match db.postgres {
            Some(p) => p.ssl,
            None => None,
        }
    } else if t == "mysqldb"@ || t == "mariadb"@ {
        match db.mysql {
            Some(m) => m.ssl,
            None => None,
        }
    } else {
        None
    }
}

/// The certificate-file volumes of the selected backend: CA, client certificate, key.
pub open spec fn db_volume_views(db: DatabaseSpec) -> Seq<VolumeView> {
    match db_ssl_of(db) {
        Some(ssl) => (match ssl.ca_secret {
            Some(s) => seq![secret_volume_view("n8n-db-ssl-ca"@, s.name@, s.key@, "ca.crt"@)],
            None => Seq::empty(),
        }) + (match ssl.cert_secret {
            Some(s) => seq![secret_volume_view("n8n-db-ssl-cert"@, s.name@, s.key@, "cert.crt"@)],
            None => Seq::empty(),
        }) + (match ssl.key_secret {
            Some(s) => seq![secret_volume_view("n8n-db-ssl-key"@, s.name@, s.key@, "key.pem"@)],
            None => Seq::empty(),
        }),
        None => Seq::empty(),
    }
}

/// A read-only mount of volume `name` at `path`.
pub open spec fn ro_mount(name: Seq<char>, path: Seq<char>) -> MountView {
    MountView { name, mount_path: path, read_only: Some(true) }
}

/// The read-only mounts of the certificate-file volumes, under `/etc/n8n/ssl`.
pub open spec fn db_mount_views(db: DatabaseSpec) -> Seq<MountView> {
    match db_ssl_of(db) {
        Some(ssl) => (if ssl.ca_secret is Some {
            seq![ro_mount("n8n-db-ssl-ca"@, "/etc/n8n/ssl/ca"@)]
        } else {
            Seq::empty()
        }) + (if ssl.cert_secret is Some {
            seq![ro_mount("n8n-db-ssl-cert"@, "/etc/n8n/ssl/cert"@)]
        } else {
            Seq::empty()
        }) + (if ssl.key_secret is Some {
            seq![ro_mount("n8n-db-ssl-key"@, "/etc/n8n/ssl/key"@)]
        } else {
            Seq::empty()
        }),
        None => Seq::empty(),
    }
}

fn push_ssl_file(
    vols: &mut Vec<Volume>,
    mounts: &mut Vec<VolumeMount>,
    vol: &str,
    sec: &SecretKeyRef,
    file: &str,
    dir: &str,
)
    ensures
        volume_views(final(vols)@) == volume_views(old(vols)@).push(
            secret_volume_view(vol@, sec.name@, sec.key@, file@),
        ),
        mount_views(final(mounts)@) == mount_views(old(mounts)@).push(ro_mount(vol@, dir@)),
{
    vols.push(secret_volume(vol, sec.name.as_str(), sec.key.as_str(), file));
    mounts.push(VolumeMount { name: owned(vol), mount_path: owned(dir), read_only: Some(true) });
    assert(volume_views(vols@) =~= volume_views(old(vols)@).push(
        secret_volume_view(vol@, sec.name@, sec.key@, file@),
    ));
    assert(mount_views(mounts@) =~= mount_views(old(mounts)@).push(ro_mount(vol@, dir@)));
}

/// Volumes and mounts for the database SSL certificate Secrets.
pub fn build_db_volumes(instance: &str, db: &DatabaseSpec) -> (r: (Vec<Volume>, Vec<VolumeMount>))
    ensures
        volume_views(r.0@) == db_volume_views(*db),
        mount_views(r.1@) == db_mount_views(*db),
{
    let mut vols: Vec<Volume> = Vec::new();
    let mut mounts: Vec<VolumeMount> = Vec::new();
    let t = db.type_.as_str();
    let ssl_ref: Option<&DatabaseSsl> = if str_eq(t, "postgresdb") {
        match &db.postgres {
            Some(p) => p.ssl.as_ref(),
            None => None,
        }
    } else if str_eq(t, "mysqldb") || str_eq(t, "mariadb") {
        match &db.mysql {
            Some(m) => m.ssl.as_ref(),
            None => None,
        }
    } else {
        None
    };
    if let Some(ssl) = ssl_ref {
        if let Some(sec) = &ssl.ca_secret {
            push_ssl_file(&mut vols, &mut mounts, "n8n-db-ssl-ca", sec, "ca.crt", "/etc/n8n/ssl/ca");
        }
        if let Some(sec) = &ssl.cert_secret {
            push_ssl_file(&mut vols, &mut mounts, "n8n-db-ssl-cert", sec, "cert.crt", "/etc/n8n/ssl/cert");
        }
        if let Some(sec) = &ssl.key_secret {
            push_ssl_file(&mut vols, &mut mounts, "n8n-db-ssl-key", sec, "key.pem", "/etc/n8n/ssl/key");
        }
    }
    assert(volume_views(vols@) =~= db_volume_views(*db));
    assert(mount_views(mounts@) =~= db_mount_views(*db));
    let _ = instance;
    (vols, mounts)
}

} // verus!
