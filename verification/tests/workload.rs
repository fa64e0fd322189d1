//! The owner-reference builder and the workload synthesizer, on concrete
//! values.
use engula_operator::api::journal::journal_config;
use engula_operator::api::storage::storage_config;
use engula_operator::meta::{Label, ObjectMeta};
use engula_operator::owner::object_to_owner_reference;
use engula_operator::state::{Metrics, State};
use engula_operator::workload::synthesize_workload;
use engula_operator::Error;

fn persisted_meta(name: &str, namespace: &str, uid: &str) -> ObjectMeta {
    ObjectMeta {
        name: Some(name.to_owned()),
        namespace: Some(namespace.to_owned()),
        uid: Some(uid.to_owned()),
        deletion_timestamp: None,
        finalizers: None,
        labels: Vec::new(),
        owner_references: Vec::new(),
    }
}

#[test]
fn owner_reference_links_child_to_storage() {
    let cfg = storage_config();
    let m = persisted_meta("s1", "ns1", "abc-123");
    let o = object_to_owner_reference(&cfg, &m).unwrap();
    assert_eq!(o.api_version, "engula.io/v1alpha1");
    assert_eq!(o.kind, "Storage");
    assert_eq!(o.name, "s1");
    assert_eq!(o.uid, "abc-123");
    assert_eq!(o.controller, Some(true));
    assert_eq!(o.block_owner_deletion, None);
}

#[test]
fn owner_reference_missing_uid_is_an_error() {
    let cfg = storage_config();
    let mut m = persisted_meta("s1", "ns1", "abc-123");
    m.uid = None;
    let e = object_to_owner_reference(&cfg, &m).unwrap_err();
    assert_eq!(e, Error::MissingObjectKey(".metadata.uid"));
}

#[test]
fn owner_reference_missing_name_is_an_error() {
    let cfg = storage_config();
    let mut m = persisted_meta("s1", "ns1", "abc-123");
    m.name = None;
    let e = object_to_owner_reference(&cfg, &m).unwrap_err();
    assert_eq!(e, Error::MissingObjectKey(".metadata.name"));
}

#[test]
fn synthesized_journal_workload_is_complete() {
    let cfg = journal_config();
    let m = persisted_meta("j1", "ns1", "u-9");
    let owner = object_to_owner_reference(&cfg, &m).unwrap();
    let d = synthesize_workload(&cfg, &"j1".to_owned(), &"ns1".to_owned(), owner);

    assert_eq!(d.metadata.name.as_deref(), Some("j1"));
    assert_eq!(d.metadata.namespace.as_deref(), Some("ns1"));
    assert_eq!(d.metadata.owner_references.len(), 1);
    assert_eq!(d.metadata.owner_references[0].kind, "Journal");

    let spec = d.spec.expect("deployment spec");
    assert_eq!(spec.replicas, Some(1));

    let expected = vec![Label { key: "app".to_owned(), value: "j1".to_owned() }];
    assert_eq!(d.metadata.labels, expected);
    assert_eq!(spec.selector.match_labels, expected);
    assert_eq!(spec.template.labels, expected);

    let pod = spec.template.spec.expect("pod spec");
    assert_eq!(pod.containers.len(), 1);
    let c = &pod.containers[0];
    assert_eq!(c.name, "j1");
    assert_eq!(c.image.as_deref(), Some("engula/journal:latest"));
    assert_eq!(c.image_pull_policy.as_deref(), Some("IfNotPresent"));
    assert_eq!(c.command, Some(vec!["journal".to_owned()]));
    assert_eq!(c.args, Some(vec!["j1".to_owned()]));

    let env = c.env.clone().expect("env vars");
    assert_eq!(env.len(), 2);
    assert_eq!(env[0].name, "JOURNAL_NAME");
    assert_eq!(env[0].value.as_deref(), Some("j1"));
    assert_eq!(env[1].name, "JOURNAL_NAMESPACE");
    assert_eq!(env[1].value.as_deref(), Some("ns1"));
}

#[test]
fn synthesized_storage_workload_has_no_env() {
    let cfg = storage_config();
    let m = persisted_meta("s1", "ns1", "u-9");
    let owner = object_to_owner_reference(&cfg, &m).unwrap();
    let d = synthesize_workload(&cfg, &"s1".to_owned(), &"ns1".to_owned(), owner);

    let spec = d.spec.expect("deployment spec");
    let pod = spec.template.spec.expect("pod spec");
    assert_eq!(pod.containers.len(), 1);
    let c = &pod.containers[0];
    assert_eq!(c.image.as_deref(), Some("engula/storage:latest"));
    assert_eq!(c.command, Some(vec!["storage".to_owned()]));
    assert_eq!(c.args, Some(vec!["s1".to_owned()]));
    assert!(c.env.is_none());
}

#[test]
fn process_state_and_metrics_start_clean() {
    let mut s = State::new(5000);
    assert_eq!(s.reporter, "engula-operator");
    assert_eq!(s.last_event_millis, 5000);
    s.record_event(6000);
    assert_eq!(s.last_event_millis, 6000);
    assert_eq!(s.reporter, "engula-operator");

    let mut m = Metrics::new();
    assert_eq!(m.handled_events, 0);
    assert_eq!(m.duration_count, 0);
    assert_eq!(m.duration_sum_millis, 0);

    m.inc_handled_events();
    m.observe_duration(250);
    m.observe_duration(750);
    assert_eq!(m.handled_events, 1);
    assert_eq!(m.duration_count, 2);
    assert_eq!(m.duration_sum_millis, 1000);
}

#[test]
fn duration_sum_saturates_instead_of_wrapping() {
    let mut m = Metrics::new();
    m.observe_duration(u64::MAX);
    m.observe_duration(7);
    assert_eq!(m.duration_count, 2);
    assert_eq!(m.duration_sum_millis, u64::MAX);
}
