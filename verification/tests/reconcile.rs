use dataset_controller::builder::create_owned_pvc;
use dataset_controller::cluster::Cluster;
use dataset_controller::model::Dataset;
use dataset_controller::model::DatasetSpec;
use dataset_controller::model::DatasetStatus;
use dataset_controller::model::Error;
use dataset_controller::model::ObjectMeta;
use dataset_controller::model::PvcSpec;
use dataset_controller::reconciler::error_policy;
use dataset_controller::reconciler::reconcile;
use dataset_controller::reconciler::Transition;
use dataset_controller::reconciler::REQUEUE_LONG_SECS;
use dataset_controller::reconciler::REQUEUE_SHORT_SECS;

fn meta(name: &str, uid: Option<&str>) -> ObjectMeta {
    ObjectMeta {
        name: Some(name.to_string()),
        namespace: Some("default".to_string()),
        uid: uid.map(|u| u.to_string()),
    }
}

fn dataset(phase: Option<&str>) -> Dataset {
    Dataset {
        metadata: meta("ds1", Some("uid-1")),
        spec: DatasetSpec {
            name: "ds1".to_string(),
            url: "http://x/data.tar".to_string(),
            storage: Some(PvcSpec {
                access_modes: None,
                storage_class_name: None,
                storage_request: Some("10Gi".to_string()),
            }),
        },
        status: phase.map(|p| DatasetStatus { phase: p.to_string(), last_updated: None }),
    }
}

#[test]
fn absent_status_initializes_and_creates_no_pvc() {
    let ds = dataset(None);
    let outcome = reconcile(&ds, 100).expect("reconcile should succeed");
    assert_eq!(outcome.requeue_secs, REQUEUE_SHORT_SECS);
    let mut cluster = Cluster::new();
    match outcome.transition {
        Transition::Initialize(st) => {
            assert_eq!(st.phase, "Initializing");
            assert_eq!(st.last_updated, Some(100));
        }
        _ => panic!("expected an Initialize transition"),
    }
    // The transition carries no PVC write: the cluster stays empty.
    assert_eq!(cluster.pvc_count(), 0);
    cluster.apply_pvc(create_owned_pvc(&dataset(None)).unwrap());
    assert_eq!(cluster.pvc_count(), 1);
}

#[test]
fn initializing_provisions_owned_pvc_and_advances() {
    let ds = dataset(Some("Initializing"));
    let outcome = reconcile(&ds, 200).expect("reconcile should succeed");
    assert_eq!(outcome.requeue_secs, REQUEUE_LONG_SECS);
    match outcome.transition {
        Transition::Provision(pvc, st) => {
            assert_eq!(pvc.name, "ds1");
            assert_eq!(pvc.owner_references.len(), 1);
            let owner = &pvc.owner_references[0];
            assert_eq!(owner.api_version, "ketzu.net/v1");
            assert_eq!(owner.kind, "Dataset");
            assert_eq!(owner.name, "ds1");
            assert_eq!(owner.uid, "uid-1");
            assert!(owner.controller);
            assert_eq!(pvc.spec.access_modes, Some(vec!["ReadWriteOnce".to_string()]));
            assert_eq!(pvc.spec.storage_request, Some("10Gi".to_string()));
            assert_eq!(st.phase, "PVC Created");
            assert_eq!(st.last_updated, Some(200));
        }
        _ => panic!("expected a Provision transition"),
    }
}

#[test]
fn access_modes_of_template_are_overridden() {
    let mut ds = dataset(Some("Initializing"));
    ds.spec.storage = Some(PvcSpec {
        access_modes: Some(vec!["ReadWriteMany".to_string(), "ReadOnlyMany".to_string()]),
        storage_class_name: Some("fast".to_string()),
        storage_request: Some("1Gi".to_string()),
    });
    let outcome = reconcile(&ds, 0).expect("reconcile should succeed");
    match outcome.transition {
        Transition::Provision(pvc, _) => {
            assert_eq!(pvc.spec.access_modes, Some(vec!["ReadWriteOnce".to_string()]));
            assert_eq!(pvc.spec.storage_class_name, Some("fast".to_string()));
            assert_eq!(pvc.spec.storage_request, Some("1Gi".to_string()));
        }
        _ => panic!("expected a Provision transition"),
    }
}

#[test]
fn pvc_created_is_steady_state_with_zero_writes() {
    let ds = dataset(Some("PVC Created"));
    let outcome = reconcile(&ds, 300).expect("reconcile should succeed");
    assert_eq!(outcome.requeue_secs, REQUEUE_LONG_SECS);
    assert!(matches!(outcome.transition, Transition::Steady));
}

#[test]
fn unknown_phase_fails_without_writes() {
    let ds = dataset(Some("Bogus"));
    match reconcile(&ds, 0) {
        Err(Error::UnknownStatus) => {}
        _ => panic!("expected UnknownStatus"),
    }
    let ds = dataset(Some("pvc created"));
    match reconcile(&ds, 0) {
        Err(Error::UnknownStatus) => {}
        _ => panic!("expected UnknownStatus"),
    }
}

#[test]
fn empty_phase_counts_as_uninitialized() {
    // A status whose phase was never set is the uninitialized state: the
    // reconcile behaves as if the status were absent.
    let ds = dataset(Some(""));
    let outcome = reconcile(&ds, 400).expect("reconcile should succeed");
    assert_eq!(outcome.requeue_secs, REQUEUE_SHORT_SECS);
    match outcome.transition {
        Transition::Initialize(st) => {
            assert_eq!(st.phase, "Initializing");
            assert_eq!(st.last_updated, Some(400));
        }
        _ => panic!("expected an Initialize transition"),
    }
}

#[test]
fn missing_uid_fails_owner_reference() {
    let mut ds = dataset(Some("Initializing"));
    ds.metadata.uid = None;
    match reconcile(&ds, 0) {
        Err(Error::OwnerReferenceFailed) => {}
        _ => panic!("expected OwnerReferenceFailed"),
    }
    let mut ds = dataset(None);
    ds.metadata.uid = None;
    // Without a status the first transition needs no owner reference yet.
    assert!(reconcile(&ds, 0).is_ok());
    match create_owned_pvc(&ds) {
        Err(Error::OwnerReferenceFailed) => {}
        _ => panic!("expected OwnerReferenceFailed"),
    }
}

#[test]
fn error_policy_retries_after_short_delay() {
    let ds = dataset(None);
    assert_eq!(error_policy(&ds, &Error::UnknownStatus), REQUEUE_SHORT_SECS);
    assert_eq!(error_policy(&ds, &Error::OwnerReferenceFailed), REQUEUE_SHORT_SECS);
}

#[test]
fn two_reconciles_converge_from_nothing() {
    // The declared scenario: a new Dataset with a 10Gi request and no status.
    let mut ds = dataset(None);
    let mut cluster = Cluster::new();
    let now: i64 = 1;

    // First reconcile: status becomes Initializing, no PVC yet.
    let outcome = reconcile(&ds, now).expect("first reconcile should succeed");
    match outcome.transition {
        Transition::Initialize(st) => {
            assert_eq!(st.phase, "Initializing");
            ds.status = Some(st);
        }
        _ => panic!("expected an Initialize transition"),
    }
    assert_eq!(cluster.pvc_count(), 0);

    // Second reconcile: the owned PVC is applied, status becomes PVC Created.
    let outcome = reconcile(&ds, now + 5).expect("second reconcile should succeed");
    match outcome.transition {
        Transition::Provision(pvc, st) => {
            cluster.apply_pvc(pvc);
            assert_eq!(st.phase, "PVC Created");
            ds.status = Some(st);
        }
        _ => panic!("expected a Provision transition"),
    }
    assert_eq!(cluster.pvc_count(), 1);
    let pvc = &cluster.pvcs[0];
    assert_eq!(pvc.name, "ds1");
    assert_eq!(pvc.spec.storage_request, Some("10Gi".to_string()));
    assert_eq!(pvc.spec.access_modes, Some(vec!["ReadWriteOnce".to_string()]));

    // Third reconcile: steady state, nothing to do.
    let outcome = reconcile(&ds, now + 10).expect("third reconcile should succeed");
    assert!(matches!(outcome.transition, Transition::Steady));
    assert_eq!(cluster.pvc_count(), 1);
}
