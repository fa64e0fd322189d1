//! End-to-end behaviour of the reconciliation engine against the modelled
//! cluster store.
use engula_operator::action::{determine_action, Action};
use engula_operator::api::journal::{journal_config, Journal, JournalSpec};
use engula_operator::api::storage::{storage_config, Storage, StorageSpec};
use engula_operator::cluster::ModelCluster;
use engula_operator::engine::{
    create_outcome, error_policy, plan_reconcile, reconcile_step, update, WorkloadLookup,
    AMBIGUOUS_REQUEUE_SECS, ERROR_REQUEUE_SECS, STEADY_REQUEUE_SECS,
};
use engula_operator::meta::ObjectMeta;
use engula_operator::state::{Metrics, State};
use engula_operator::Error;

fn meta_of(
    name: Option<&str>,
    namespace: Option<&str>,
    uid: Option<&str>,
    deletion_timestamp: Option<i64>,
    finalizers: Option<Vec<&str>>,
) -> ObjectMeta {
    ObjectMeta {
        name: name.map(|s| s.to_owned()),
        namespace: namespace.map(|s| s.to_owned()),
        uid: uid.map(|s| s.to_owned()),
        deletion_timestamp,
        finalizers: finalizers.map(|v| v.into_iter().map(|s| s.to_owned()).collect()),
        labels: Vec::new(),
        owner_references: Vec::new(),
    }
}

#[test]
fn classifier_delete_wins_over_finalizers() {
    let m = meta_of(Some("j1"), Some("ns1"), Some("u1"), Some(7), Some(vec!["keep"]));
    assert_eq!(determine_action(&m), Action::Delete);
}

#[test]
fn classifier_delete_without_finalizers() {
    let m = meta_of(Some("j1"), Some("ns1"), Some("u1"), Some(7), None);
    assert_eq!(determine_action(&m), Action::Delete);
}

#[test]
fn classifier_create_when_finalizers_absent() {
    let m = meta_of(Some("j1"), Some("ns1"), Some("u1"), None, None);
    assert_eq!(determine_action(&m), Action::Create);
}

#[test]
fn classifier_create_when_finalizers_empty() {
    let m = meta_of(Some("j1"), Some("ns1"), Some("u1"), None, Some(vec![]));
    assert_eq!(determine_action(&m), Action::Create);
}

#[test]
fn classifier_noop_when_finalized() {
    let m = meta_of(Some("j1"), Some("ns1"), Some("u1"), None, Some(vec!["adopted"]));
    assert_eq!(determine_action(&m), Action::NoOp);
}

#[test]
fn update_requeues_after_half_hour() {
    let r = update().unwrap();
    assert_eq!(r.requeue_after, Some(1800));
    assert_eq!(STEADY_REQUEUE_SECS, 1800);
}

#[test]
fn error_policy_fixed_backoff() {
    let a = error_policy(&Error::KubeError("boom".to_owned()));
    assert_eq!(a.requeue_after, Some(360));
    assert_eq!(ERROR_REQUEUE_SECS, 360);
    assert!(ERROR_REQUEUE_SECS > AMBIGUOUS_REQUEUE_SECS);
}

#[test]
fn plan_requires_namespace() {
    let cfg = journal_config();
    let m = meta_of(Some("j1"), None, Some("u1"), None, None);
    let r = plan_reconcile(&cfg, &m);
    assert_eq!(r.unwrap_err(), Error::MissingObjectKey(".metadata.namespace"));
}

#[test]
fn plan_carries_patch_and_action() {
    let cfg = journal_config();
    let m = meta_of(Some("j1"), Some("ns1"), Some("u1"), None, None);
    let p = plan_reconcile(&cfg, &m).unwrap();
    assert_eq!(p.name, "j1");
    assert_eq!(p.namespace, "ns1");
    assert_eq!(p.action, Action::Create);
    assert_eq!(p.status_patch.api_version, "engula.io/v1alpha1");
    assert_eq!(p.status_patch.kind, "Journal");
    assert!(p.status_patch.status.deployment_status.is_none());
}

#[test]
fn step_delete_requests_no_requeue() {
    let cfg = storage_config();
    let m = meta_of(Some("s1"), Some("ns1"), Some("u1"), Some(9), None);
    let (op, a) = reconcile_step(&cfg, &m, Action::Delete, &WorkloadLookup::NotFound).unwrap();
    assert!(op.is_none());
    assert_eq!(a.requeue_after, None);
}

#[test]
fn step_noop_requeues_steady() {
    let cfg = storage_config();
    let m = meta_of(Some("s1"), Some("ns1"), Some("u1"), None, Some(vec!["adopted"]));
    let (op, a) = reconcile_step(&cfg, &m, Action::NoOp, &WorkloadLookup::NotFound).unwrap();
    assert!(op.is_none());
    assert_eq!(a.requeue_after, Some(1800));
}

#[test]
fn create_outcome_present_leaves_workload_alone() {
    let cfg = journal_config();
    let m = meta_of(Some("j1"), Some("ns1"), Some("u1"), None, None);
    let (op, a) = create_outcome(&cfg, &m, &WorkloadLookup::Present).unwrap();
    assert!(op.is_none());
    assert_eq!(a.requeue_after, Some(1800));
}

#[test]
fn create_outcome_absent_synthesizes() {
    let cfg = journal_config();
    let m = meta_of(Some("j1"), Some("ns1"), Some("u1"), None, None);
    let (op, a) = create_outcome(&cfg, &m, &WorkloadLookup::NotFound).unwrap();
    let d = op.expect("a workload must be synthesized");
    assert_eq!(d.metadata.name.as_deref(), Some("j1"));
    assert_eq!(d.metadata.namespace.as_deref(), Some("ns1"));
    assert_eq!(a.requeue_after, Some(1800));
}

#[test]
fn create_outcome_api_error_propagates() {
    let cfg = journal_config();
    let m = meta_of(Some("j1"), Some("ns1"), Some("u1"), None, None);
    let e = create_outcome(&cfg, &m, &WorkloadLookup::ApiError("500".to_owned())).unwrap_err();
    assert_eq!(e, Error::KubeError("500".to_owned()));
}

#[test]
fn create_outcome_ambiguous_short_delay() {
    let cfg = journal_config();
    let m = meta_of(Some("j1"), Some("ns1"), Some("u1"), None, None);
    let (op, a) = create_outcome(&cfg, &m, &WorkloadLookup::Unrecognized).unwrap();
    assert!(op.is_none());
    assert_eq!(a.requeue_after, Some(5));
    assert_eq!(AMBIGUOUS_REQUEUE_SECS, 5);
}

#[test]
fn journal_pass_creates_workload_then_is_idempotent() {
    let j = Journal {
        metadata: meta_of(Some("j1"), Some("ns1"), Some("uid-1"), None, None),
        spec: JournalSpec { template: None },
        status: None,
    };
    let mut cluster = ModelCluster::new();
    let mut state = State::new(0);
    let mut metrics = Metrics::new();

    let r1 =
        engula_operator::api::journal::reconcile(&j, &mut cluster, &mut state, &mut metrics, 1000);
    assert_eq!(r1.unwrap().requeue_after, Some(1800));
    assert_eq!(cluster.deployments.len(), 1);
    assert_eq!(cluster.status_generation, 1);
    assert_eq!(metrics.handled_events, 1);
    assert_eq!(metrics.duration_count, 1);
    assert_eq!(state.last_event_millis, 1000);

    let first = cluster.deployments.clone();
    let r2 =
        engula_operator::api::journal::reconcile(&j, &mut cluster, &mut state, &mut metrics, 2000);
    assert_eq!(r2.unwrap().requeue_after, Some(1800));
    assert_eq!(cluster.deployments.len(), 1);
    assert_eq!(cluster.deployments, first);
    assert_eq!(cluster.status_generation, 2);
    assert_eq!(metrics.handled_events, 2);
    assert_eq!(metrics.duration_count, 2);
    assert_eq!(state.last_event_millis, 2000);
}

#[test]
fn storage_pass_creates_workload_with_owner() {
    let s = Storage {
        metadata: meta_of(Some("s1"), Some("ns1"), Some("abc-123"), None, None),
        spec: StorageSpec { template: None },
        status: None,
    };
    let mut cluster = ModelCluster::new();
    let mut state = State::new(0);
    let mut metrics = Metrics::new();

    let r = engula_operator::api::storage::reconcile(&s, &mut cluster, &mut state, &mut metrics, 42);
    assert_eq!(r.unwrap().requeue_after, Some(1800));
    assert_eq!(cluster.deployments.len(), 1);
    let owners = &cluster.deployments[0].metadata.owner_references;
    assert_eq!(owners.len(), 1);
    assert_eq!(owners[0].kind, "Storage");
    assert_eq!(owners[0].uid, "abc-123");
    assert_eq!(owners[0].controller, Some(true));
}

#[test]
fn noop_pass_still_patches_status() {
    let j = Journal {
        metadata: meta_of(Some("j1"), Some("ns1"), Some("uid-1"), None, Some(vec!["adopted"])),
        spec: JournalSpec { template: None },
        status: None,
    };
    let mut cluster = ModelCluster::new();
    let mut state = State::new(0);
    let mut metrics = Metrics::new();

    let before = cluster.status_generation;
    let r = engula_operator::api::journal::reconcile(&j, &mut cluster, &mut state, &mut metrics, 42);
    assert_eq!(r.unwrap().requeue_after, Some(1800));
    assert_eq!(cluster.deployments.len(), 0);
    assert_eq!(cluster.status_generation, before + 1);
    assert!(cluster.resource_status.deployment_status.is_none());
}

#[test]
fn delete_pass_mutates_nothing_and_stops_requeueing() {
    let s = Storage {
        metadata: meta_of(Some("s1"), Some("ns1"), Some("u1"), Some(3), Some(vec!["keep"])),
        spec: StorageSpec { template: None },
        status: None,
    };
    let mut cluster = ModelCluster::new();
    let mut state = State::new(0);
    let mut metrics = Metrics::new();

    let r = engula_operator::api::storage::reconcile(&s, &mut cluster, &mut state, &mut metrics, 42);
    assert_eq!(r.unwrap().requeue_after, None);
    assert_eq!(cluster.deployments.len(), 0);
    assert_eq!(cluster.status_generation, 1);
}

#[test]
fn pass_without_namespace_fails_before_patching() {
    let j = Journal {
        metadata: meta_of(Some("j1"), None, Some("u1"), None, None),
        spec: JournalSpec { template: None },
        status: None,
    };
    let mut cluster = ModelCluster::new();
    let mut state = State::new(0);
    let mut metrics = Metrics::new();

    let e = engula_operator::api::journal::reconcile(&j, &mut cluster, &mut state, &mut metrics, 42)
        .unwrap_err();
    assert_eq!(e, Error::MissingObjectKey(".metadata.namespace"));
    assert_eq!(cluster.status_generation, 0);
    assert_eq!(metrics.handled_events, 0);
}

#[test]
fn create_pass_without_uid_fails_after_patching() {
    let j = Journal {
        metadata: meta_of(Some("j1"), Some("ns1"), None, None, None),
        spec: JournalSpec { template: None },
        status: None,
    };
    let mut cluster = ModelCluster::new();
    let mut state = State::new(0);
    let mut metrics = Metrics::new();

    let e = engula_operator::api::journal::reconcile(&j, &mut cluster, &mut state, &mut metrics, 42)
        .unwrap_err();
    assert_eq!(e, Error::MissingObjectKey(".metadata.uid"));
    assert_eq!(cluster.deployments.len(), 0);
    assert_eq!(cluster.status_generation, 1);
    assert_eq!(metrics.handled_events, 0);
}

#[test]
fn lookup_finds_only_matching_identity() {
    let j = Journal {
        metadata: meta_of(Some("j1"), Some("ns1"), Some("u1"), None, None),
        spec: JournalSpec { template: None },
        status: None,
    };
    let mut cluster = ModelCluster::new();
    let mut state = State::new(0);
    let mut metrics = Metrics::new();
    engula_operator::api::journal::reconcile(&j, &mut cluster, &mut state, &mut metrics, 42).unwrap();

    assert!(cluster.has_deployment(&"j1".to_owned(), &"ns1".to_owned()));
    assert!(!cluster.has_deployment(&"j1".to_owned(), &"ns2".to_owned()));
    assert!(!cluster.has_deployment(&"j2".to_owned(), &"ns1".to_owned()));
}
