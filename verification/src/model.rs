//! The resource model: the `Dataset` custom resource, the PVC it owns, and
//! the errors the reconciler can report.
//!
//! Every field is held as a plain value; the views project the model into
//! mathematical types for use in contracts.

use vstd::prelude::*;

verus! {

/// The object metadata the reconciler reads: the object's name, its
/// namespace, and the unique id the cluster assigned to it.
#[derive(Clone, Debug)]
pub struct ObjectMeta {
    pub name: Option<String>,
    pub namespace: Option<String>,
    pub uid: Option<String>,
}

#[verifier::ext_equal]
pub struct ObjectMetaView {
    pub name: Option<Seq<char>>,
    pub namespace: Option<Seq<char>>,
    pub uid: Option<Seq<char>>,
}

impl View for ObjectMeta {
    type V = ObjectMetaView;

    open spec fn view(&self) -> ObjectMetaView {
        ObjectMetaView {
            name: self.name.deep_view(),
            namespace: self.namespace.deep_view(),
            uid: self.uid.deep_view(),
        }
    }
}

/// The storage template of a `Dataset`, holding the PVC fields this operator
/// reads or writes: access modes, storage class, and the requested storage
/// size.
#[derive(Clone, Debug)]
pub struct PvcSpec {
    pub access_modes: Option<Vec<String>>,
    pub storage_class_name: Option<String>,
    pub storage_request: Option<String>,
}

#[verifier::ext_equal]
pub struct PvcSpecView {
    pub access_modes: Option<Seq<Seq<char>>>,
    pub storage_class_name: Option<Seq<char>>,
    pub storage_request: Option<Seq<char>>,
}

impl View for PvcSpec {
    type V = PvcSpecView;

    open spec fn view(&self) -> PvcSpecView {
        PvcSpecView {
            access_modes: self.access_modes.deep_view(),
            storage_class_name: self.storage_class_name.deep_view(),
            storage_request: self.storage_request.deep_view(),
        }
    }
}

impl PvcSpec {
    /// The empty template used when a `Dataset` declares no storage.
    pub open spec fn spec_empty() -> PvcSpecView {
        PvcSpecView { access_modes: None, storage_class_name: None, storage_request: None }
    }

    pub fn empty() -> (r: PvcSpec)
        ensures
            r@ == PvcSpec::spec_empty(),
    {
        PvcSpec { access_modes: None, storage_class_name: None, storage_request: None }
    }
}

/// The desired state of a `Dataset`: the name of the PVC to provision, the
/// source location of the data, and an optional storage template.
#[derive(Clone, Debug)]
pub struct DatasetSpec {
    pub name: String,
    pub url: String,
    pub storage: Option<PvcSpec>,
}

#[verifier::ext_equal]
pub struct DatasetSpecView {
    pub name: Seq<char>,
    pub url: Seq<char>,
    pub storage: Option<PvcSpecView>,
}

impl View for DatasetSpec {
    type V = DatasetSpecView;

    open spec fn view(&self) -> DatasetSpecView {
        DatasetSpecView {
            name: self.name@,
            url: self.url@,
            storage: match self.storage {
                Some(s) => Some(s@),
                None => None,
            },
        }
    }
}

/// The observed state of a `Dataset`: the reconciliation phase and the time
/// of the last status transition, as seconds since the Unix epoch.
#[derive(Clone, Debug)]
pub struct DatasetStatus {
    pub phase: String,
    pub last_updated: Option<i64>,
}

#[verifier::ext_equal]
pub struct DatasetStatusView {
    pub phase: Seq<char>,
    pub last_updated: Option<i64>,
}

impl View for DatasetStatus {
    type V = DatasetStatusView;

    open spec fn view(&self) -> DatasetStatusView {
        DatasetStatusView { phase: self.phase@, last_updated: self.last_updated }
    }
}

/// The `Dataset` custom resource: metadata, desired spec, observed status.
/// A status of `None` means the object has never been reconciled.
#[derive(Clone, Debug)]
pub struct Dataset {
    pub metadata: ObjectMeta,
    pub spec: DatasetSpec,
    pub status: Option<DatasetStatus>,
}

#[verifier::ext_equal]
pub struct DatasetView {
    pub metadata: ObjectMetaView,
    pub spec: DatasetSpecView,
    pub status: Option<DatasetStatusView>,
}

impl View for Dataset {
    type V = DatasetView;

    open spec fn view(&self) -> DatasetView {
        DatasetView {
            metadata: self.metadata@,
            spec: self.spec@,
            status: match self.status {
                Some(s) => Some(s@),
                None => None,
            },
        }
    }
}

/// A back-link from an owned object to its owner; the cluster's garbage
/// collector deletes the owned object when the owner is deleted.
#[derive(Clone, Debug)]
pub struct OwnerReference {
    pub api_version: String,
    pub kind: String,
    pub name: String,
    pub uid: String,
    pub controller: bool,
    pub block_owner_deletion: bool,
}

#[verifier::ext_equal]
pub struct OwnerReferenceView {
    pub api_version: Seq<char>,
    pub kind: Seq<char>,
    pub name: Seq<char>,
    pub uid: Seq<char>,
    pub controller: bool,
    pub block_owner_deletion: bool,
}

impl View for OwnerReference {
    type V = OwnerReferenceView;

    open spec fn view(&self) -> OwnerReferenceView {
        OwnerReferenceView {
            api_version: self.api_version@,
            kind: self.kind@,
            name: self.name@,
            uid: self.uid@,
            controller: self.controller,
            block_owner_deletion: self.block_owner_deletion,
        }
    }
}

/// The PersistentVolumeClaim this operator provisions: its name, the owner
/// references it carries, and its spec.
#[derive(Clone, Debug)]
pub struct Pvc {
    pub name: String,
    pub owner_references: Vec<OwnerReference>,
    pub spec: PvcSpec,
}

#[verifier::ext_equal]
pub struct PvcView {
    pub name: Seq<char>,
    pub owner_references: Seq<OwnerReferenceView>,
    pub spec: PvcSpecView,
}

impl View for Pvc {
    type V = PvcView;

    open spec fn view(&self) -> PvcView {
        PvcView {
            name: self.name@,
            owner_references: Seq::new(
                self.owner_references@.len(),
                |i: int| self.owner_references@[i]@,
            ),
            spec: self.spec@,
        }
    }
}

/// The errors the reconciliation core can report. Failures of cluster writes
/// are reported by the runtime that performs them, not here.
#[derive(Clone, Copy, Debug, PartialEq, Eq, Structural)]
pub enum Error {
    /// An owner reference could not be built: the object lacks a name or a
    /// uid in its metadata.
    OwnerReferenceFailed,
    /// The status subresource holds a phase outside the recognized set.
    UnknownStatus,
}

impl Error {
    /// A fixed description of the error, for logs.
    pub fn describe(&self) -> (r: String)
        ensures
            *self is OwnerReferenceFailed ==> r@ == "owner reference could not be created"@,
            *self is UnknownStatus ==> r@ == "unknown status"@,
    {
        match self {
            Error::OwnerReferenceFailed => String::from_str("owner reference could not be created"),
            Error::UnknownStatus => String::from_str("unknown status"),
        }
    }
}

} // verus!
