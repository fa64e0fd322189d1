//! The Journal custom resource and its reconciler configuration.
use vstd::prelude::*;

use crate::cluster::{reconcile_pass, spec_pass, ModelCluster};
use crate::engine::{outcome_view, ReconcilerAction};
use crate::meta::{KindConfig, KindConfigV, ObjectMeta};
use crate::state::{Metrics, State};
use crate::status::DeploymentStatus;
use crate::workload::PodTemplateSpec;
use crate::Error;

verus! {

/// The Journal custom resource spec: the declared pod template fragment.
#[derive(Debug, Clone, PartialEq, Eq)]
pub struct JournalSpec {
    pub template: Option<PodTemplateSpec>,
}

/// The Journal status sub-document, written back by the reconciler.
#[derive(Debug, Clone, Copy, PartialEq, Eq, Structural)]
pub struct JournalStatus {
    pub deployment_status: Option<DeploymentStatus>,
}

/// One Journal custom resource instance, as delivered by the watch feed.
#[derive(Debug, Clone, PartialEq, Eq)]
pub struct Journal {
    pub metadata: ObjectMeta,
    pub spec: JournalSpec,
    pub status: Option<JournalStatus>,
}

/// The Journal kind's reconciler configuration: its API identity, the
/// default workload image and command, and the environment variables the
/// workload container receives.
pub open spec fn spec_journal_config() -> KindConfigV {
    KindConfigV {
        api_version: "engula.io/v1alpha1"@,
        kind: "Journal"@,
        image: "engula/journal:latest"@,
        command: "journal"@,
        env_name_var: Some("JOURNAL_NAME"@),
        env_namespace_var: Some("JOURNAL_NAMESPACE"@),
    }
}

/// Builds the Journal kind's configuration record.
pub fn journal_config() -> (c: KindConfig)
    ensures
        c@ == spec_journal_config(),
{
    KindConfig {
        api_version: "engula.io/v1alpha1".to_owned(),
        kind: "Journal".to_owned(),
        image: "engula/journal:latest".to_owned(),
        command: "journal".to_owned(),
        env_name_var: Some("JOURNAL_NAME".to_owned()),
        env_namespace_var: Some("JOURNAL_NAMESPACE".to_owned()),
    }
}

/// Reconciles one Journal instance against the modelled store, stamping
/// the event with the caller's clock reading.
pub fn reconcile(
    journal: &Journal,
    cluster: &mut ModelCluster,
    state: &mut State,
    metrics: &mut Metrics,
    now_millis: i64,
) -> (r: Result<ReconcilerAction, Error>)
    requires
        old(cluster).status_generation < u64::MAX,
        old(metrics).handled_events < u64::MAX,
        old(metrics).duration_count < u64::MAX,
    ensures
        final(cluster)@ == spec_pass(spec_journal_config(), journal.metadata@, old(cluster)@).0,
        outcome_view(r) == spec_pass(spec_journal_config(), journal.metadata@, old(cluster)@).1,
        final(state).last_event_millis == now_millis,
        final(state).reporter == old(state).reporter,
        r is Ok ==> final(metrics).handled_events == old(metrics).handled_events + 1
            && final(metrics).duration_count == old(metrics).duration_count + 1,
        r is Err ==> final(metrics).handled_events == old(metrics).handled_events
            && final(metrics).duration_count == old(metrics).duration_count,
{
    let cfg = journal_config();
    reconcile_pass(&cfg, &journal.metadata, cluster, state, metrics, now_millis)
}

} // verus!
