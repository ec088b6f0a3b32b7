//! Owner references that tie every child object to its custom resource.
use vstd::prelude::*;
use crate::objects::OwnerRef;
use crate::spec::{Cluster, ObjectMeta, Single};
use crate::spec::meta::name_any_of;
use crate::text::owned;

verus! {

/// A controlling, deletion-blocking owner reference to an `n8n.slys.dev/v1` object of `kind`.
pub open spec fn owner_is(o: OwnerRef, kind: Seq<char>, meta: ObjectMeta) -> bool {
    &&& o.api_version@ == "n8n.slys.dev/v1"@
    &&& o.kind@ == kind
    &&& o.name@ == name_any_of(meta)
    &&& o.uid == meta.uid->0
    &&& o.controller == Some(true)
    &&& o.block_owner_deletion == Some(true)
}

fn owner_of(kind: &str, meta: &ObjectMeta) -> (o: OwnerRef)
    requires
        meta.uid is Some,
    ensures
        owner_is(o, kind@, *meta),
{
    OwnerRef {
        api_version: owned("n8n.slys.dev/v1"),
        kind: owned(kind),
        name: meta.name_any(),
        uid: match &meta.uid {
            Some(u) => u.clone(),
            None => String::new(),
        },
        controller: Some(true),
        block_owner_deletion: Some(true),
    }
}

/// The owner reference of a `Single`; it must have been assigned a uid.
pub fn single_owner(s: &Single) -> (o: OwnerRef)
    requires
        s.metadata.uid is Some,
    ensures
        owner_is(o, "Single"@, s.metadata),
{
    owner_of("Single", &s.metadata)
}

/// The owner reference of a `Cluster`; it must have been assigned a uid.
pub fn cluster_owner(c: &Cluster) -> (o: OwnerRef)
    requires
        c.metadata.uid is Some,
    ensures
        owner_is(o, "Cluster"@, c.metadata),
{
    owner_of("Cluster", &c.metadata)
}

} // verus!
