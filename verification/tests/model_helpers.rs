use dataset_controller::immutability::immutable_string_message;
use dataset_controller::immutability::immutable_string_rule;
use dataset_controller::model::Error;
use dataset_controller::model::ObjectMeta;
use dataset_controller::reconciler::effective_namespace;
use dataset_controller::reconciler::make_status;

#[test]
fn immutability_rule_and_message_are_fixed() {
    assert_eq!(immutable_string_rule(), "self == oldSelf");
    assert_eq!(immutable_string_message(), "field is immutable");
}

#[test]
fn namespace_defaults_when_absent() {
    let named = ObjectMeta {
        name: Some("ds1".to_string()),
        namespace: Some("team-a".to_string()),
        uid: None,
    };
    assert_eq!(effective_namespace(&named), "team-a");
    let bare = ObjectMeta { name: Some("ds1".to_string()), namespace: None, uid: None };
    assert_eq!(effective_namespace(&bare), "default");
}

#[test]
fn status_carries_phase_and_timestamp() {
    let st = make_status("Initializing".to_string(), 42);
    assert_eq!(st.phase, "Initializing");
    assert_eq!(st.last_updated, Some(42));
}

#[test]
fn errors_describe_themselves() {
    assert_eq!(Error::OwnerReferenceFailed.describe(), "owner reference could not be created");
    assert_eq!(Error::UnknownStatus.describe(), "unknown status");
}

#[test]
fn field_manager_name_is_fixed() {
    assert_eq!(dataset_controller::reconciler::field_manager(), "dataset-controller");
}

#[test]
fn requeue_delays_are_five_seconds_and_one_hour() {
    assert_eq!(dataset_controller::reconciler::REQUEUE_SHORT_SECS, 5);
    assert_eq!(dataset_controller::reconciler::REQUEUE_LONG_SECS, 3600);
}
