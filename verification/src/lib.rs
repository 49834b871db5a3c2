//! A verified reconciliation core for a Kubernetes operator that manages a
//! `Dataset` custom resource.
//!
//! A `Dataset` declares a named data source and an optional storage template.
//! The operator provisions one PersistentVolumeClaim (PVC) per `Dataset`,
//! owned by it through an owner reference, and tracks progress in the
//! `Dataset`'s status subresource through the phases
//! `Initializing` and `PVC Created`.
//!
//! The crate holds the decision logic only: given the observed object it says
//! which writes to perform and when to reconcile again. The surrounding
//! runtime performs the writes against the cluster.

pub mod builder;
pub mod cluster;
pub mod immutability;
pub mod model;
pub mod reconciler;
