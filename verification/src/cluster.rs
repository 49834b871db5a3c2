//! A model of the cluster-side behavior this operator relies on: the PVCs
//! that exist, keyed by name; server-side apply as an upsert; and garbage
//! collection by owner reference.
//!
//! The model gives the reconciler's contracts something to speak about and
//! lets the laws of the design be stated and proved: apply is idempotent,
//! and deleting a `Dataset` deletes its owned PVC without an explicit delete
//! call.

use vstd::pervasive::VecAdditionalExecFns;
use vstd::prelude::*;

use crate::builder::has_owner_meta;
use crate::builder::spec_owned_pvc;
use crate::model::DatasetView;
use crate::model::Pvc;
use crate::model::PvcView;

verus! {

/// The PVCs of a namespace, keyed by object name.
pub type PvcMap = Map<Seq<char>, PvcView>;

/// Server-side apply of a PVC: an upsert keyed by the object's name.
pub open spec fn apply_to(m: PvcMap, p: PvcView) -> PvcMap {
    m.insert(p.name, p)
}

/// Whether a PVC is owned, as controlling owner, by the object with the
/// given uid.
pub open spec fn owned_by(p: PvcView, uid: Seq<char>) -> bool {
    exists|i: int|
        0 <= i < p.owner_references.len() && p.owner_references[i].controller
            && p.owner_references[i].uid == uid
}

/// Garbage collection after the owner with the given uid is deleted: every
/// PVC it controlled disappears, everything else stays.
pub open spec fn garbage_collect(m: PvcMap, owner_uid: Seq<char>) -> PvcMap {
    Map::new(|k: Seq<char>| m.contains_key(k) && !owned_by(m[k], owner_uid), |k: Seq<char>| m[k])
}

/// Applying the same PVC twice gives the same cluster as applying it once:
/// server-side apply is idempotent.
pub proof fn lemma_apply_idempotent(m: PvcMap, p: PvcView)
    ensures
        apply_to(apply_to(m, p), p) == apply_to(m, p),
{
    assert(apply_to(apply_to(m, p), p) =~= apply_to(m, p));
}

/// The PVC built for a `Dataset` is controlled by that `Dataset`.
pub proof fn lemma_owned_pvc_owned_by_dataset(ds: DatasetView)
    requires
        has_owner_meta(ds.metadata),
    ensures
        owned_by(spec_owned_pvc(ds), ds.metadata.uid->0),
{
    assert(spec_owned_pvc(ds).owner_references[0].uid == ds.metadata.uid->0);
}

/// Deleting a `Dataset` deletes its owned PVC: after the owned PVC has been
/// applied, garbage collection for the deleted `Dataset`'s uid leaves no PVC
/// under `spec.name`, with no explicit delete call from the reconciler.
pub proof fn lemma_gc_deletes_owned_pvc(ds: DatasetView, m: PvcMap)
    requires
        has_owner_meta(ds.metadata),
    ensures
        !garbage_collect(apply_to(m, spec_owned_pvc(ds)), ds.metadata.uid->0).contains_key(
            ds.spec.name,
        ),
{
    lemma_owned_pvc_owned_by_dataset(ds);
}

/// Garbage collection deletes nothing but what the deleted owner controlled:
/// a PVC it did not control is still there, unchanged.
pub proof fn lemma_gc_spares_unowned(m: PvcMap, owner_uid: Seq<char>, name: Seq<char>)
    requires
        m.contains_key(name),
        !owned_by(m[name], owner_uid),
    ensures
        garbage_collect(m, owner_uid).contains_key(name),
        garbage_collect(m, owner_uid)[name] == m[name],
{
}

/// The views of a sequence of PVCs.
pub open spec fn pvc_views(s: Seq<Pvc>) -> Seq<PvcView> {
    Seq::new(s.len(), |i: int| s[i]@)
}

/// No two PVCs share a name: the cluster keys objects by name.
pub open spec fn names_unique(s: Seq<PvcView>) -> bool {
    forall|i: int, j: int|
        0 <= i < s.len() && 0 <= j < s.len() && i != j ==> s[i].name != s[j].name
}

/// The map a sequence of PVCs stands for, keyed by name; a later entry wins.
pub open spec fn pvc_map(s: Seq<PvcView>) -> PvcMap
    decreases s.len(),
{
    if s.len() == 0 {
        Map::<Seq<char>, PvcView>::empty()
    } else {
        pvc_map(s.drop_last()).insert(s.last().name, s.last())
    }
}

/// A name is a key of the map exactly when some entry carries it.
pub proof fn lemma_pvc_map_contains(s: Seq<PvcView>, k: Seq<char>)
    ensures
        pvc_map(s).contains_key(k) <==> exists|i: int| 0 <= i < s.len() && s[i].name == k,
    decreases s.len(),
{
    if s.len() > 0 {
        let t = s.drop_last();
        lemma_pvc_map_contains(t, k);
        if s.last().name == k {
            assert(s[s.len() - 1].name == k);
        } else {
            if pvc_map(s).contains_key(k) {
                let i = choose|i: int| 0 <= i < t.len() && t[i].name == k;
                assert(s[i].name == k);
            }
            if exists|i: int| 0 <= i < s.len() && s[i].name == k {
                let i = choose|i: int| 0 <= i < s.len() && s[i].name == k;
                assert(t[i].name == k);
            }
        }
    }
}

/// Appending a fresh PVC inserts it into the map.
pub proof fn lemma_pvc_map_push(s: Seq<PvcView>, p: PvcView)
    ensures
        pvc_map(s.push(p)) == pvc_map(s).insert(p.name, p),
{
    assert(s.push(p).drop_last() =~= s);
    assert(s.push(p).last() == p);
    assert(pvc_map(s.push(p)) == pvc_map(s.push(p).drop_last()).insert(p.name, p));
}

/// Replacing the entry that carries a name inserts the replacement into the
/// map, provided names are unique.
pub proof fn lemma_pvc_map_update(s: Seq<PvcView>, i: int, p: PvcView)
    requires
        names_unique(s),
        0 <= i < s.len(),
        s[i].name == p.name,
    ensures
        pvc_map(s.update(i, p)) == pvc_map(s).insert(p.name, p),
    decreases s.len(),
{
    let u = s.update(i, p);
    let t = s.drop_last();
    if i == s.len() - 1 {
        assert(u.drop_last() =~= t);
        assert(u.last() == p);
        assert(pvc_map(s).insert(p.name, p) =~= pvc_map(t).insert(p.name, p));
    } else {
        assert(names_unique(t)) by {
            assert(forall|a: int| 0 <= a < t.len() ==> t[a] == s[a]);
        }
        lemma_pvc_map_update(t, i, p);
        assert(u.drop_last() =~= t.update(i, p));
        assert(u.last() == s.last());
        assert(s.last().name != p.name) by {
            assert(s[s.len() - 1].name != s[i].name);
        }
        assert(pvc_map(u) == pvc_map(t.update(i, p)).insert(s.last().name, s.last()));
        assert(pvc_map(t).insert(p.name, p).insert(s.last().name, s.last()) =~= pvc_map(t).insert(
            s.last().name,
            s.last(),
        ).insert(p.name, p));
    }
}

/// The PVCs of one namespace, as the reconciler's runtime would observe
/// them. Holds each PVC once: the cluster keys objects by name.
pub struct Cluster {
    pub pvcs: Vec<Pvc>,
}

impl View for Cluster {
    type V = PvcMap;

    open spec fn view(&self) -> PvcMap {
        pvc_map(pvc_views(self.pvcs@))
    }
}

impl Cluster {
    /// The cluster's invariant: no two PVCs share a name.
    pub open spec fn well_formed(&self) -> bool {
        names_unique(pvc_views(self.pvcs@))
    }

    /// A namespace with no PVCs.
    pub fn new() -> (c: Cluster)
        ensures
            c.well_formed(),
            c@ == Map::<Seq<char>, PvcView>::empty(),
    {
        let c = Cluster { pvcs: Vec::new() };
        proof {
            assert(pvc_views(c.pvcs@) =~= Seq::<PvcView>::empty());
        }
        c
    }

    /// Server-side apply: upsert the PVC under its name. Applying a PVC that
    /// is already there, unchanged, leaves the cluster as it was.
    #[verifier::loop_isolation(false)]
    pub fn apply_pvc(&mut self, pvc: Pvc)
        requires
            old(self).well_formed(),
        ensures
            final(self).well_formed(),
            final(self)@ == apply_to(old(self)@, pvc@),
    {
        let ghost s0 = pvc_views(old(self).pvcs@);
        let mut i: usize = 0;
        while i < self.pvcs.len()
            invariant
                *self == *old(self),
                old(self).well_formed(),
                i <= self.pvcs@.len(),
                forall|j: int| 0 <= j < i ==> pvc_views(self.pvcs@)[j].name != pvc@.name,
            decreases self.pvcs@.len() - i,
        {
            if self.pvcs[i].name == pvc.name {
                proof {
                    lemma_pvc_map_update(s0, i as int, pvc@);
                }
                self.pvcs.set(i, pvc);
                proof {
                    let s1 = pvc_views(self.pvcs@);
                    assert(s1 =~= s0.update(i as int, pvc@));
                    assert forall|a: int, b: int|
                        0 <= a < s1.len() && 0 <= b < s1.len() && a != b implies s1[a].name
                        != s1[b].name by {
                        assert(s1[a].name == s0[a].name);
                        assert(s1[b].name == s0[b].name);
                    }
                }
                return ;
            }
            i += 1;
        }
        proof {
            lemma_pvc_map_push(s0, pvc@);
        }
        self.pvcs.push(pvc);
        proof {
            let s1 = pvc_views(self.pvcs@);
            assert(s1 =~= s0.push(pvc@));
            assert forall|a: int, b: int|
                0 <= a < s1.len() && 0 <= b < s1.len() && a != b implies s1[a].name
                != s1[b].name by {
                if a < s0.len() && b < s0.len() {
                } else if a == s0.len() {
                    assert(s1[b].name == s0[b].name);
                } else {
                    assert(s1[a].name == s0[a].name);
                }
            }
        }
    }

    /// How many PVCs exist.
    pub fn pvc_count(&self) -> (n: usize)
        ensures
            n == pvc_views(self.pvcs@).len(),
    {
        self.pvcs.len()
    }

    /// What the cluster's garbage collector does once the owner with the
    /// given uid is deleted: every PVC it controlled is removed, everything
    /// else stays. The reconciler never calls this; the cluster does.
    #[verifier::loop_isolation(false)]
    pub fn collect_garbage(&mut self, owner_uid: &String)
        requires
            old(self).well_formed(),
        ensures
            final(self).well_formed(),
            final(self)@ == garbage_collect(old(self)@, owner_uid@),
    {
        let mut kept: Vec<Pvc> = Vec::new();
        proof {
            assert(pvc_views(kept@) =~= Seq::<PvcView>::empty());
            assert(pvc_views(self.pvcs@) + pvc_views(kept@) =~= pvc_views(self.pvcs@));
            assert(garbage_collect(pvc_map(pvc_views(self.pvcs@)), owner_uid@).union_prefer_right(
                pvc_map(pvc_views(kept@)),
            ) =~= garbage_collect(pvc_map(pvc_views(self.pvcs@)), owner_uid@));
        }
        while self.pvcs.len() > 0
            invariant
                names_unique(pvc_views(self.pvcs@) + pvc_views(kept@)),
                garbage_collect(pvc_map(pvc_views(old(self).pvcs@)), owner_uid@) == garbage_collect(
                    pvc_map(pvc_views(self.pvcs@)),
                    owner_uid@,
                ).union_prefer_right(pvc_map(pvc_views(kept@))),
            decreases self.pvcs@.len(),
        {
            let ghost s = pvc_views(self.pvcs@);
            let ghost k = pvc_views(kept@);
            let ghost s_rest = s.drop_last();
            let p = self.pvcs.pop().unwrap();
            proof {
                assert(pvc_views(self.pvcs@) =~= s_rest);
                assert(p@ == s.last());
                assert(forall|a: int| 0 <= a < s_rest.len() ==> (s_rest + k)[a] == (s + k)[a]);
                assert(forall|a: int|
                    s_rest.len() <= a < s_rest.len() + k.len() ==> (s_rest + k)[a] == (s + k)[a
                        + 1]);
                assert(names_unique(s_rest + k)) by {
                    assert forall|a: int, b: int|
                        0 <= a < (s_rest + k).len() && 0 <= b < (s_rest + k).len() && a
                            != b implies (s_rest + k)[a].name != (s_rest + k)[b].name by {
                        let a2 = if a < s_rest.len() {
                            a
                        } else {
                            a + 1
                        };
                        let b2 = if b < s_rest.len() {
                            b
                        } else {
                            b + 1
                        };
                        assert((s_rest + k)[a] == (s + k)[a2]);
                        assert((s_rest + k)[b] == (s + k)[b2]);
                    }
                }
                assert(forall|j: int| 0 <= j < s_rest.len() ==> s_rest[j].name != p@.name) by {
                    assert(forall|j: int| 0 <= j < s_rest.len() ==> s_rest[j] == (s + k)[j]);
                    assert(p@ == (s + k)[s.len() - 1]);
                }
                assert(forall|j: int| 0 <= j < k.len() ==> k[j].name != p@.name) by {
                    assert(forall|j: int| 0 <= j < k.len() ==> k[j] == (s + k)[s.len() + j]);
                    assert(p@ == (s + k)[s.len() - 1]);
                }
                lemma_pvc_map_contains(s_rest, p@.name);
                lemma_pvc_map_contains(k, p@.name);
                assert(pvc_map(s) == pvc_map(s_rest).insert(p@.name, p@));
            }
            if !is_owned_by(&p, owner_uid) {
                proof {
                    lemma_pvc_map_push(k, p@);
                    assert(garbage_collect(pvc_map(s), owner_uid@) =~= garbage_collect(
                        pvc_map(s_rest),
                        owner_uid@,
                    ).insert(p@.name, p@));
                    assert(garbage_collect(pvc_map(s_rest), owner_uid@).insert(
                        p@.name,
                        p@,
                    ).union_prefer_right(pvc_map(k)) =~= garbage_collect(
                        pvc_map(s_rest),
                        owner_uid@,
                    ).union_prefer_right(pvc_map(k).insert(p@.name, p@)));
                }
                kept.push(p);
                proof {
                    assert(pvc_views(kept@) =~= k.push(s.last()));
                    let k2 = pvc_views(kept@);
                    assert(names_unique(s_rest + k2)) by {
                        assert forall|a: int, b: int|
                            0 <= a < (s_rest + k2).len() && 0 <= b < (s_rest + k2).len() && a
                                != b implies (s_rest + k2)[a].name != (s_rest + k2)[b].name by {
                            let a2 = if a < s_rest.len() {
                                a
                            } else if a < s_rest.len() + k.len() {
                                a + 1
                            } else {
                                s.len() - 1
                            };
                            let b2 = if b < s_rest.len() {
                                b
                            } else if b < s_rest.len() + k.len() {
                                b + 1
                            } else {
                                s.len() - 1
                            };
                            assert((s_rest + k2)[a] == (s + k)[a2]);
                            assert((s_rest + k2)[b] == (s + k)[b2]);
                        }
                    }
                }
            } else {
                proof {
                    assert(garbage_collect(pvc_map(s), owner_uid@) =~= garbage_collect(
                        pvc_map(s_rest),
                        owner_uid@,
                    ));
                }
            }
        }
        proof {
            assert(pvc_views(self.pvcs@) =~= Seq::<PvcView>::empty());
            let k = pvc_views(kept@);
            assert(garbage_collect(pvc_map(pvc_views(self.pvcs@)), owner_uid@).union_prefer_right(
                pvc_map(k),
            ) =~= pvc_map(k));
            assert(names_unique(k)) by {
                assert(forall|a: int| 0 <= a < k.len() ==> k[a] == (pvc_views(self.pvcs@) + k)[a]);
            }
        }
        self.pvcs = kept;
    }
}

/// Whether the PVC carries a controlling owner reference to the object with
/// the given uid.
#[verifier::loop_isolation(false)]
pub fn is_owned_by(p: &Pvc, uid: &String) -> (r: bool)
    ensures
        r == owned_by(p@, uid@),
{
    let mut i: usize = 0;
    while i < p.owner_references.len()
        invariant
            i <= p.owner_references@.len(),
            forall|j: int|
                0 <= j < i ==> !(p@.owner_references[j].controller && p@.owner_references[j].uid
                    == uid@),
        decreases p.owner_references@.len() - i,
    {
        let o = &p.owner_references[i];
        if o.controller && o.uid == *uid {
            assert(p@.owner_references[i as int].controller);
            return true;
        }
        i += 1;
    }
    false
}

} // verus!
