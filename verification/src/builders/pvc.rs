//! PersistentVolumeClaims.
use vstd::prelude::*;
use crate::builders::{meta_is, object_meta};
use crate::labels::{common_labels, common_labels_map};
use crate::objects::{OwnerRef, PvcModel, strs_view};
use crate::spec::{PersistenceConfig, SharedStorage};
use crate::text::owned;

verus! {

/// A claim named `pvc_name`, labelled for `instance` with `component`, asking
/// for `size` in the one access mode and storage class given.
pub open spec fn pvc_is(
    p: PvcModel,
    pvc_name: Seq<char>,
    instance: Seq<char>,
    image: Seq<char>,
    component: Seq<char>,
    access_mode: Seq<char>,
    size: Seq<char>,
    class: Option<String>,
    owner: OwnerRef,
) -> bool {
    &&& meta_is(p.meta, pvc_name, common_labels_map(instance, image, component), owner)
    &&& strs_view(p.access_modes@) == seq![access_mode]
    &&& p.storage@ == size
    &&& p.storage_class_name == class
}

fn pvc(
    pvc_name: &str,
    instance: &str,
    image: &str,
    component: &str,
    access_mode: &String,
    size: &String,
    class: &Option<String>,
    owner: &OwnerRef,
) -> (p: PvcModel)
    ensures
        pvc_is(p, pvc_name@, instance@, image@, component@, access_mode@, size@, *class, *owner),
{
    let mut modes: Vec<String> = Vec::new();
    modes.push(access_mode.clone());
    assert(strs_view(modes@) =~= seq![access_mode@]);
    PvcModel {
        meta: object_meta(pvc_name, common_labels(instance, image, component), owner),
        access_modes: modes,
        storage: size.clone(),
        storage_class_name: class.clone(),
    }
}

/// A shared claim (typically `ReadWriteMany`) used by every role, labelled `nodes`.
pub fn build_shared_pvc(
    pvc_name: &str,
    instance: &str,
    image: &str,
    storage: &SharedStorage,
    owner: &OwnerRef,
) -> (p: PvcModel)
    ensures
        pvc_is(
            p,
            pvc_name@,
            instance@,
            image@,
            "nodes"@,
            storage.access_mode@,
            storage.size@,
            storage.storage_class_name,
            *owner,
        ),
{
    pvc(pvc_name, instance, image, "nodes", &storage.access_mode, &storage.size, &storage.storage_class_name, owner)
}

/// The data claim of a role with persistence, labelled `data`; none without persistence.
pub fn build_data_pvc(
    pvc_name: &str,
    instance: &str,
    image: &str,
    persistence: Option<&PersistenceConfig>,
    owner: &OwnerRef,
) -> (r: Option<PvcModel>)
    ensures
        match persistence {
            Some(pc) => r matches Some(p) && pvc_is(
                p,
                pvc_name@,
                instance@,
                image@,
                "data"@,
                pc.access_mode@,
                pc.size@,
                pc.storage_class_name,
                *owner,
            ),
            None => r is None,
        },
{
    match persistence {
        Some(p) => Some(pvc(pvc_name, instance, image, "data", &p.access_mode, &p.size, &p.storage_class_name, owner)),
        None => None,
    }
}

} // verus!
