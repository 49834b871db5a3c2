//! The owned-resource builder: a pure mapping from a `Dataset` to the one
//! PersistentVolumeClaim it should own.

use vstd::prelude::*;

use crate::model::Dataset;
use crate::model::DatasetView;
use crate::model::Error;
use crate::model::ObjectMeta;
use crate::model::ObjectMetaView;
use crate::model::OwnerReference;
use crate::model::OwnerReferenceView;
use crate::model::Pvc;
use crate::model::PvcSpec;
use crate::model::PvcSpecView;
use crate::model::PvcView;

verus! {

/// The api version of the `Dataset` custom resource: group `ketzu.net`,
/// version `v1`.
pub open spec fn dataset_api_version() -> Seq<char> {
    "ketzu.net/v1"@
}

/// The kind of the `Dataset` custom resource.
pub open spec fn dataset_kind() -> Seq<char> {
    "Dataset"@
}

/// The one access mode this operator grants, whatever the storage template
/// asks for.
pub open spec fn access_mode_read_write_once() -> Seq<char> {
    "ReadWriteOnce"@
}

/// An owner reference can be built exactly when the object's metadata holds
/// both a name and a uid.
pub open spec fn has_owner_meta(meta: ObjectMetaView) -> bool {
    meta.name is Some && meta.uid is Some
}

/// The owner reference a well-formed `Dataset` hands to its PVC: it marks the
/// `Dataset` as the controlling owner, so the garbage collector deletes the
/// PVC when the `Dataset` is deleted.
pub open spec fn spec_owner_ref(meta: ObjectMetaView) -> OwnerReferenceView
    recommends
        has_owner_meta(meta),
{
    OwnerReferenceView {
        api_version: dataset_api_version(),
        kind: dataset_kind(),
        name: meta.name->0,
        uid: meta.uid->0,
        controller: true,
        block_owner_deletion: false,
    }
}

/// The storage template of a `Dataset`, or the empty template when it
/// declares none.
pub open spec fn storage_template(ds: DatasetView) -> PvcSpecView {
    match ds.spec.storage {
        Some(t) => t,
        None => PvcSpec::spec_empty(),
    }
}

/// The PVC a well-formed `Dataset` owns: named after `spec.name`, carrying
/// exactly the `Dataset`'s owner reference, and shaped by the storage
/// template with the access modes forced to read-write-once.
pub open spec fn spec_owned_pvc(ds: DatasetView) -> PvcView
    recommends
        has_owner_meta(ds.metadata),
{
    PvcView {
        name: ds.spec.name,
        owner_references: seq![spec_owner_ref(ds.metadata)],
        spec: PvcSpecView {
            access_modes: Some(seq![access_mode_read_write_once()]),
            storage_class_name: storage_template(ds).storage_class_name,
            storage_request: storage_template(ds).storage_request,
        },
    }
}

/// Builds the controlling owner reference for an object, in the way the
/// client runtime does: it requires the metadata to hold a name and a uid,
/// and marks the reference as controlling; blocking owner deletion is left
/// unset.
pub fn controller_owner_ref(meta: &ObjectMeta) -> (r: Option<OwnerReference>)
    ensures
        has_owner_meta(meta@) ==> (r matches Some(o) && o@ == spec_owner_ref(meta@)),
        !has_owner_meta(meta@) ==> r is None,
{
    match (&meta.name, &meta.uid) {
        (Some(name), Some(uid)) => {
            let o = OwnerReference {
                api_version: String::from_str("ketzu.net/v1"),
                kind: String::from_str("Dataset"),
                name: name.clone(),
                uid: uid.clone(),
                controller: true,
                block_owner_deletion: false,
            };
            proof {
                assert(o@ =~= spec_owner_ref(meta@));
            }
            Some(o)
        },
        _ => None,
    }
}

/// Maps a `Dataset` to the PVC it should own.
///
/// For a `Dataset` whose metadata holds a name and a uid this returns the
/// owned PVC of `spec_owned_pvc`; otherwise it fails with
/// `OwnerReferenceFailed`, which signals malformed object metadata.
pub fn create_owned_pvc(obj: &Dataset) -> (r: Result<Pvc, Error>)
    ensures
        has_owner_meta(obj@.metadata) ==> (r matches Ok(p) && p@ == spec_owned_pvc(obj@)),
        !has_owner_meta(obj@.metadata) ==> (r matches Err(e) && e == Error::OwnerReferenceFailed),
{
    let owner_ref = match controller_owner_ref(&obj.metadata) {
        Some(o) => o,
        None => {
            return Err(Error::OwnerReferenceFailed);
        },
    };
    let template = match &obj.spec.storage {
        Some(t) => PvcSpec {
            access_modes: None,
            storage_class_name: t.storage_class_name.clone(),
            storage_request: t.storage_request.clone(),
        },
        None => PvcSpec::empty(),
    };
    let mut owner_references: Vec<OwnerReference> = Vec::new();
    owner_references.push(owner_ref);
    let mut access_modes: Vec<String> = Vec::new();
    access_modes.push(String::from_str("ReadWriteOnce"));
    let pvc = Pvc {
        name: obj.spec.name.clone(),
        owner_references,
        spec: PvcSpec {
            access_modes: Some(access_modes),
            storage_class_name: template.storage_class_name,
            storage_request: template.storage_request,
        },
    };
    proof {
        assert(pvc@.owner_references =~= spec_owned_pvc(obj@).owner_references);
        assert(pvc@.spec.access_modes->0 =~= spec_owned_pvc(obj@).spec.access_modes->0);
        assert(pvc@.spec =~= spec_owned_pvc(obj@).spec);
        assert(pvc@ =~= spec_owned_pvc(obj@));
    }
    Ok(pvc)
}

} // verus!
