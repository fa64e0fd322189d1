//! The Storage custom resource and its reconciler configuration.
use vstd::prelude::*;

use crate::cluster::{reconcile_pass, spec_pass, ModelCluster};
use crate::engine::{outcome_view, ReconcilerAction};
use crate::meta::{KindConfig, KindConfigV, ObjectMeta};
use crate::state::{Metrics, State};
use crate::status::DeploymentStatus;
use crate::workload::PodTemplateSpec;
use crate::Error;

verus! {

/// The Storage custom resource spec: the declared pod template fragment.
#[derive(Debug, Clone, PartialEq, Eq)]
pub struct StorageSpec {
    pub template: Option<PodTemplateSpec>,
}

/// The Storage status sub-document, written back by the reconciler.
#[derive(Debug, Clone, Copy, PartialEq, Eq, Structural)]
pub struct StorageStatus {
    pub deployment_status: Option<DeploymentStatus>,
}

/// One Storage custom resource instance, as delivered by the watch feed.
#[derive(Debug, Clone, PartialEq, Eq)]
pub struct Storage {
    pub metadata: ObjectMeta,
    pub spec: StorageSpec,
    pub status: Option<StorageStatus>,
}

/// The Storage kind's reconciler configuration: its API identity and the
/// default workload image and command.  Storage workloads receive no
/// identifying environment variables.
pub open spec fn spec_storage_config() -> KindConfigV {
    KindConfigV {
        api_version: "engula.io/v1alpha1"@,
        kind: "Storage"@,
        image: "engula/storage:latest"@,
        command: "storage"@,
        env_name_var: None,
        env_namespace_var: None,
    }
}

/// Builds the Storage kind's configuration record.
pub fn storage_config() -> (c: KindConfig)
    ensures
        c@ == spec_storage_config(),
{
    KindConfig {
        api_version: "engula.io/v1alpha1".to_owned(),
        kind: "Storage".to_owned(),
        image: "engula/storage:latest".to_owned(),
        command: "storage".to_owned(),
        env_name_var: None,
        env_namespace_var: None,
    }
}

/// Reconciles one Storage instance against the modelled store, stamping
/// the event with the caller's clock reading.
pub fn reconcile(
    storage: &Storage,
    cluster: &mut ModelCluster,
    state: &mut State,
    metrics: &mut Metrics,
    now_millis: i64,
) -> (r: Result<ReconcilerAction, Error>)
    requires
        old(cluster).status_generation < u64::MAX,
        old(metrics).handled_events < u64::MAX,
        old(metrics).duration_count < u64::MAX,
    ensures
        final(cluster)@ == spec_pass(spec_storage_config(), storage.metadata@, old(cluster)@).0,
        outcome_view(r) == spec_pass(spec_storage_config(), storage.metadata@, old(cluster)@).1,
        final(state).last_event_millis == now_millis,
        final(state).reporter == old(state).reporter,
        r is Ok ==> final(metrics).handled_events == old(metrics).handled_events + 1
            && final(metrics).duration_count == old(metrics).duration_count + 1,
        r is Err ==> final(metrics).handled_events == old(metrics).handled_events
            && final(metrics).duration_count == old(metrics).duration_count,
{
    let cfg = storage_config();
    reconcile_pass(&cfg, &storage.metadata, cluster, state, metrics, now_millis)
}

} // verus!
