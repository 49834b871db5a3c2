//! The reconciliation state machine.
//!
//! One reconcile invocation reads the observed `Dataset` and decides which
//! cluster writes are required to converge, without performing them: the
//! runtime around this library carries out the returned transition in order
//! and schedules the next invocation after the returned delay.
//!
//! The phase moves monotonically forward through uninitialized (status
//! absent, or its phase unset), then `Initializing`, then `PVC Created`; the
//! last phase is steady state, reconciled again only by periodic resync.

use vstd::prelude::*;

use crate::builder::create_owned_pvc;
use crate::builder::has_owner_meta;
use crate::builder::spec_owned_pvc;
use crate::cluster::apply_to;
use crate::cluster::lemma_apply_idempotent;
use crate::cluster::PvcMap;
use crate::model::Dataset;
use crate::model::DatasetStatus;
use crate::model::DatasetStatusView;
use crate::model::Error;
use crate::model::ObjectMeta;
use crate::model::Pvc;
use crate::model::PvcView;

verus! {

/// The delay before the next reconcile while the object is still converging:
/// a just-issued write may not be visible yet.
pub const REQUEUE_SHORT_SECS: u64 = 5;

/// The delay before the next reconcile once the object is in steady state.
pub const REQUEUE_LONG_SECS: u64 = 3600;

/// The fixed field-manager name the PVC apply patch is issued under: it
/// tells this operator's applied fields apart from other writers' for
/// conflict resolution.
pub fn field_manager() -> (r: String)
    ensures
        r@ == "dataset-controller"@,
{
    String::from_str("dataset-controller")
}

/// The phase written when reconciliation of a new object begins.
pub open spec fn phase_initializing() -> Seq<char> {
    "Initializing"@
}

/// The terminal phase: the owned PVC has been applied.
pub open spec fn phase_pvc_created() -> Seq<char> {
    "PVC Created"@
}

/// The set of phases this reconciler recognizes: the empty string (an unset
/// phase, read as uninitialized) and the two written phases. Any other value
/// is a data-corruption condition.
pub open spec fn known_phase(p: Seq<char>) -> bool {
    p == Seq::<char>::empty() || p == phase_initializing() || p == phase_pvc_created()
}

/// An object is uninitialized when it has no status at all, or a status
/// whose phase was never set.
pub open spec fn uninitialized(st: Option<DatasetStatusView>) -> bool {
    match st {
        None => true,
        Some(s) => s.phase == Seq::<char>::empty(),
    }
}

/// The two written phases differ, from each other and from the unset phase.
pub proof fn lemma_phases_distinct()
    ensures
        phase_initializing() != phase_pvc_created(),
        phase_initializing() != Seq::<char>::empty(),
        phase_pvc_created() != Seq::<char>::empty(),
{
    reveal_strlit("Initializing");
    reveal_strlit("PVC Created");
    assert(phase_initializing().len() == 12);
    assert(phase_pvc_created().len() == 11);
}

/// The writes one reconcile invocation asks the runtime to perform, in
/// order. Every invocation performs at most one status write and at most one
/// PVC write.
pub enum Transition {
    /// Merge-patch the status subresource to the given value.
    Initialize(DatasetStatus),
    /// Server-side-apply the PVC, then merge-patch the status to the given
    /// value.
    Provision(Pvc, DatasetStatus),
    /// Leave the cluster untouched.
    Steady,
}

pub enum TransitionView {
    Initialize(DatasetStatusView),
    Provision(PvcView, DatasetStatusView),
    Steady,
}

impl View for Transition {
    type V = TransitionView;

    open spec fn view(&self) -> TransitionView {
        match self {
            Transition::Initialize(s) => TransitionView::Initialize(s@),
            Transition::Provision(p, s) => TransitionView::Provision(p@, s@),
            Transition::Steady => TransitionView::Steady,
        }
    }
}

/// How many status writes a transition performs.
pub open spec fn status_writes(t: TransitionView) -> nat {
    match t {
        TransitionView::Initialize(_) => 1,
        TransitionView::Provision(_, _) => 1,
        TransitionView::Steady => 0,
    }
}

/// How many PVC writes a transition performs.
pub open spec fn pvc_writes(t: TransitionView) -> nat {
    match t {
        TransitionView::Provision(_, _) => 1,
        _ => 0,
    }
}

/// How many cluster writes a transition performs in all.
pub open spec fn writes(t: TransitionView) -> nat {
    status_writes(t) + pvc_writes(t)
}

/// What one reconcile invocation returns on success: the writes to perform
/// and the delay before the next invocation.
pub struct Outcome {
    pub transition: Transition,
    pub requeue_secs: u64,
}

/// The status value a transition writes: the given phase, stamped with the
/// time of the write as seconds since the Unix epoch.
pub fn make_status(phase: String, now: i64) -> (s: DatasetStatus)
    ensures
        s@.phase == phase@,
        s@.last_updated == Some(now),
{
    DatasetStatus { phase, last_updated: Some(now) }
}

/// What a reconcile of an uninitialized object returns: write `Initializing`,
/// no PVC yet, come back soon.
fn initialize_outcome(now: i64) -> (o: Outcome)
    ensures
        o.transition@ matches TransitionView::Initialize(st) && st.phase == phase_initializing()
            && st.last_updated == Some(now),
        o.requeue_secs == REQUEUE_SHORT_SECS,
{
    let st = make_status(String::from_str("Initializing"), now);
    Outcome { transition: Transition::Initialize(st), requeue_secs: REQUEUE_SHORT_SECS }
}

/// One reconcile invocation for a `Dataset`, observed at time `now` (seconds
/// since the Unix epoch).
///
/// The decision follows the phase:
/// - absent status, or a status whose phase was never set: write
///   `Initializing`, no PVC yet, come back soon;
/// - `Initializing`: apply the owned PVC, then write `PVC Created`;
/// - `PVC Created`: steady state, no writes;
/// - any other phase: fail with `UnknownStatus`, no writes.
///
/// An error performs no writes: the runtime's error policy schedules a
/// retry instead.
pub fn reconcile(obj: &Dataset, now: i64) -> (r: Result<Outcome, Error>)
    ensures
        uninitialized(obj@.status) ==> (r matches Ok(o) && (o.transition@
            matches TransitionView::Initialize(st) && st.phase == phase_initializing()
            && st.last_updated == Some(now) && pvc_writes(o.transition@) == 0 && o.requeue_secs
            == REQUEUE_SHORT_SECS)),
        obj@.status matches Some(cur) ==> ((cur.phase == phase_initializing() && has_owner_meta(
            obj@.metadata,
        )) ==> (r matches Ok(o) && (o.transition@ matches TransitionView::Provision(p, st) && p
            == spec_owned_pvc(obj@) && pvc_writes(o.transition@) == 1 && st.phase
            == phase_pvc_created() && st.last_updated == Some(now) && o.requeue_secs
            == REQUEUE_LONG_SECS))),
        obj@.status matches Some(cur) ==> ((cur.phase == phase_initializing() && !has_owner_meta(
            obj@.metadata,
        )) ==> (r matches Err(e) && e == Error::OwnerReferenceFailed)),
        obj@.status matches Some(cur) ==> (cur.phase == phase_pvc_created() ==> (r matches Ok(o)
            && (o.transition@ matches TransitionView::Steady && writes(o.transition@) == 0
            && o.requeue_secs == REQUEUE_LONG_SECS))),
        obj@.status matches Some(cur) ==> (!known_phase(cur.phase) ==> (r matches Err(e) && e
            == Error::UnknownStatus)),
{
    proof {
        lemma_phases_distinct();
    }
    let status = match &obj.status {
        None => {
            return Ok(initialize_outcome(now));
        },
        Some(s) => s,
    };
    if status.phase == String::new() {
        return Ok(initialize_outcome(now));
    }
    let initializing = String::from_str("Initializing");
    let created = String::from_str("PVC Created");
    if status.phase == initializing {
        let pvc = match create_owned_pvc(obj) {
            Ok(p) => p,
            Err(e) => {
                return Err(e);
            },
        };
        let st = make_status(created, now);
        Ok(Outcome { transition: Transition::Provision(pvc, st), requeue_secs: REQUEUE_LONG_SECS })
    } else if status.phase == created {
        Ok(Outcome { transition: Transition::Steady, requeue_secs: REQUEUE_LONG_SECS })
    } else {
        Err(Error::UnknownStatus)
    }
}

/// The status the object holds after the runtime carries out a transition,
/// given the status it held before.
pub open spec fn transition_status_effect(st: Option<DatasetStatusView>, t: TransitionView) -> Option<
    DatasetStatusView,
> {
    match t {
        TransitionView::Initialize(s) => Some(s),
        TransitionView::Provision(_, s) => Some(s),
        TransitionView::Steady => st,
    }
}

/// How far along the one-way phase sequence a status stands: uninitialized
/// (absent or unset), then `Initializing`, then `PVC Created`.
pub open spec fn phase_rank(st: Option<DatasetStatusView>) -> int {
    match st {
        None => 0,
        Some(s) => if s.phase == phase_initializing() {
            1
        } else if s.phase == phase_pvc_created() {
            2
        } else {
            0
        },
    }
}

/// The PVCs after the runtime carries out a transition: a provision upserts
/// the one owned PVC; the other transitions touch nothing.
pub open spec fn transition_pvc_effect(m: PvcMap, t: TransitionView) -> PvcMap {
    match t {
        TransitionView::Provision(p, _) => apply_to(m, p),
        _ => m,
    }
}

/// The phase moves monotonically forward: whatever `reconcile` returns, the
/// status its transition writes never stands earlier in the phase sequence
/// than the status that was observed.
pub proof fn lemma_phase_monotonic(obj: &Dataset, now: i64, r: Result<Outcome, Error>)
    requires
        call_ensures(reconcile, (obj, now), r),
    ensures
        r matches Ok(o) ==> phase_rank(transition_status_effect(obj@.status, o.transition@))
            >= phase_rank(obj@.status),
{
    lemma_phases_distinct();
}

/// The core never deletes: whatever transition a reconcile returns, every
/// PVC that existed before its writes still exists after them. An owned PVC
/// disappears only through the cluster's garbage collector following its
/// owner reference.
pub proof fn lemma_core_never_deletes(t: TransitionView, m: PvcMap, name: Seq<char>)
    requires
        m.contains_key(name),
    ensures
        transition_pvc_effect(m, t).contains_key(name),
{
}

/// A provision interrupted between its two writes is safe. The PVC apply
/// strictly precedes the `PVC Created` status patch, so an invocation
/// abandoned in between leaves the phase at `Initializing`; the next
/// invocation then takes the same branch and provisions the same PVC, and
/// re-applying it leaves the cluster as the first apply did.
pub proof fn lemma_interrupted_provision_resumes(
    obj: &Dataset,
    now1: i64,
    now2: i64,
    r1: Result<Outcome, Error>,
    r2: Result<Outcome, Error>,
    m: PvcMap,
)
    requires
        obj@.status matches Some(cur) && cur.phase == phase_initializing(),
        has_owner_meta(obj@.metadata),
        call_ensures(reconcile, (obj, now1), r1),
        call_ensures(reconcile, (obj, now2), r2),
    ensures
        r1 matches Ok(o1) && (o1.transition@ matches TransitionView::Provision(p1, st1) && (r2
            matches Ok(o2) && (o2.transition@ matches TransitionView::Provision(p2, st2) && p2
            == p1 && apply_to(apply_to(m, p1), p2) == apply_to(m, p1)))),
{
    let p = spec_owned_pvc(obj@);
    lemma_apply_idempotent(m, p);
}

/// The namespace the runtime routes an object's writes to: the object's own
/// namespace, or `default` when the metadata names none.
pub fn effective_namespace(meta: &ObjectMeta) -> (r: String)
    ensures
        meta@.namespace matches Some(ns) ==> r@ == ns,
        meta@.namespace is None ==> r@ == "default"@,
{
    match &meta.namespace {
        Some(ns) => ns.clone(),
        None => String::from_str("default"),
    }
}

/// The error policy the runtime applies: whatever the object and the error,
/// retry after the same short delay. Every failure is treated as transient.
pub fn error_policy(_obj: &Dataset, _err: &Error) -> (d: u64)
    ensures
        d == REQUEUE_SHORT_SECS,
{
    REQUEUE_SHORT_SECS
}

} // verus!

