//! A model of the slice of the cluster store one resource instance sees:
//! its managed workloads and its own status document.  The full
//! reconciliation pass is run against this model, which is how the
//! engine's level-triggered properties — idempotence, one workload per
//! resource, a status patch on every pass — are stated and proved.
use vstd::prelude::*;

use crate::action::{determine_action, spec_action, Action};
use crate::engine::{outcome_view, update, ReconcilerAction, STEADY_REQUEUE_SECS};
use crate::meta::{KindConfig, KindConfigV, ObjectMeta, ObjectMetaV};
use crate::owner::{object_to_owner_reference, spec_owner_reference};
use crate::state::{now_unix_millis, Metrics, State};
use crate::status::{build_status_patch, spec_status_patch, StatusDoc, StatusPatch};
use crate::workload::{spec_desired_deployment, synthesize_workload, Deployment, DeploymentV};
use crate::{Error, ErrorV};

verus! {

/// The modelled store: the deployments in the resource's namespace scope,
/// the resource's status document, and a generation counter that advances
/// on every status patch, standing in for the store's update timestamp.
#[derive(Debug, Clone, PartialEq, Eq)]
pub struct ModelCluster {
    pub deployments: Vec<Deployment>,
    pub resource_status: StatusDoc,
    pub status_generation: u64,
}

#[verifier::ext_equal]
pub struct ModelClusterV {
    pub deployments: Seq<DeploymentV>,
    pub resource_status: StatusDoc,
    pub status_generation: int,
}

impl View for ModelCluster {
    type V = ModelClusterV;

    open spec fn view(&self) -> ModelClusterV {
        ModelClusterV {
            deployments: self.deployments.deep_view(),
            resource_status: self.resource_status,
            status_generation: self.status_generation as int,
        }
    }
}

/// Whether a deployment carries the given workload identity.
pub open spec fn dep_matches(d: DeploymentV, name: Seq<char>, ns: Seq<char>) -> bool {
    d.metadata.name == Some(name) && d.metadata.namespace == Some(ns)
}

/// Whether the store holds a workload with the given identity.
pub open spec fn spec_has_deployment(c: ModelClusterV, name: Seq<char>, ns: Seq<char>) -> bool {
    exists|i: int| 0 <= i < c.deployments.len() && dep_matches(#[trigger] c.deployments[i], name, ns)
}

/// Whether two deployments name the same workload.
pub open spec fn same_workload_identity(a: DeploymentV, b: DeploymentV) -> bool {
    a.metadata.name == b.metadata.name && a.metadata.namespace == b.metadata.namespace
}

/// The store invariant: at most one managed workload per identity.
pub open spec fn cluster_wf(c: ModelClusterV) -> bool {
    forall|i: int, j: int|
        0 <= i < c.deployments.len() && 0 <= j < c.deployments.len() && i != j
            ==> !same_workload_identity(
            #[trigger] c.deployments[i],
            #[trigger] c.deployments[j],
        )
}

impl ModelCluster {
    /// An empty store scope: no workloads, an empty status document.
    pub fn new() -> (c: ModelCluster)
        ensures
            c@.deployments.len() == 0,
            c@.resource_status == (StatusDoc { deployment_status: None }),
            c@.status_generation == 0,
            cluster_wf(c@),
    {
        ModelCluster {
            deployments: Vec::new(),
            resource_status: StatusDoc { deployment_status: None },
            status_generation: 0,
        }
    }

    /// Looks the managed workload up by name in the resource's namespace.
    pub fn has_deployment(&self, name: &String, namespace: &String) -> (found: bool)
        ensures
            found == spec_has_deployment(self@, name@, namespace@),
    {
        let mut i: usize = 0;
        while i < self.deployments.len()
            invariant
                i <= self.deployments.len(),
                self@.deployments.len() == self.deployments.len(),
                forall|j: int|
                    0 <= j < i ==> !dep_matches(#[trigger] self@.deployments[j], name@, namespace@),
            decreases self.deployments.len() - i,
        {
            let d = &self.deployments[i];
            proof {
                assert(self@.deployments[i as int] == d.deep_view());
            }
            let name_matches = match &d.metadata.name {
                Some(n) => n.eq(name),
                None => false,
            };
            let ns_matches = match &d.metadata.namespace {
                Some(ns) => ns.eq(namespace),
                None => false,
            };
            proof {
                assert(name_matches == (d.deep_view().metadata.name == Some(name@)));
                assert(ns_matches == (d.deep_view().metadata.namespace == Some(namespace@)));
            }
            if name_matches && ns_matches {
                proof {
                    assert(dep_matches(self@.deployments[i as int], name@, namespace@));
                }
                return true;
            }
            i = i + 1;
        }
        false
    }

    /// Applies the status patch to the resource: the status document is
    /// replaced by the patch's and the store's generation advances.
    pub fn apply_status_patch(&mut self, patch: &StatusPatch)
        requires
            old(self).status_generation < u64::MAX,
        ensures
            final(self)@ == (ModelClusterV {
                deployments: old(self)@.deployments,
                resource_status: patch@.status,
                status_generation: old(self)@.status_generation + 1,
            }),
    {
        self.resource_status = patch.status;
        self.status_generation = self.status_generation + 1;
    }

    /// Creates the given workload in the store.
    pub fn create_deployment(&mut self, d: Deployment)
        ensures
            final(self)@ == (ModelClusterV {
                deployments: old(self)@.deployments.push(d@),
                resource_status: old(self)@.resource_status,
                status_generation: old(self)@.status_generation,
            }),
    {
        let ghost dv = d@;
        let ghost pre = self.deployments.deep_view();
        self.deployments.push(d);
        proof {
            assert forall|i: int| 0 <= i < self.deployments.deep_view().len() implies
                self.deployments.deep_view()[i] == pre.push(dv)[i] by {
                if i < pre.len() {
                    assert(self.deployments@[i] == old(self).deployments@[i]);
                } else {
                    assert(self.deployments@[i].deep_view() == dv);
                }
            }
            assert(self.deployments.deep_view() =~= pre.push(dv));
        }
    }
}

/// One whole reconciliation pass over the modelled store, as a function of
/// the pre-state: the resulting store and the pass outcome.  A missing
/// namespace or name aborts before any store mutation; otherwise the
/// status patch lands first, and the classified action then decides
/// whether a workload is created.
pub open spec fn spec_pass(cfg: KindConfigV, meta: ObjectMetaV, c: ModelClusterV) -> (
    ModelClusterV,
    Result<ReconcilerAction, ErrorV>,
) {
    if meta.namespace is None {
        (c, Err(ErrorV::MissingObjectKey(".metadata.namespace"@)))
    } else if meta.name is None {
        (c, Err(ErrorV::MissingObjectKey(".metadata.name"@)))
    } else {
        let name = meta.name->0;
        let ns = meta.namespace->0;
        let c1 = ModelClusterV {
            deployments: c.deployments,
            resource_status: spec_status_patch(cfg).status,
            status_generation: c.status_generation + 1,
        };
        match spec_action(meta) {
            Action::Delete => (c1, Ok(ReconcilerAction { requeue_after: None })),
            Action::NoOp => (
                c1,
                Ok(ReconcilerAction { requeue_after: Some(STEADY_REQUEUE_SECS) }),
            ),
            Action::Create => {
                if spec_has_deployment(c1, name, ns) {
                    (c1, Ok(ReconcilerAction { requeue_after: Some(STEADY_REQUEUE_SECS) }))
                } else if meta.uid is Some {
                    (
                        ModelClusterV {
                            deployments: c1.deployments.push(
                                spec_desired_deployment(
                                    cfg,
                                    name,
                                    ns,
                                    spec_owner_reference(cfg, meta),
                                ),
                            ),
                            resource_status: c1.resource_status,
                            status_generation: c1.status_generation,
                        },
                        Ok(ReconcilerAction { requeue_after: Some(STEADY_REQUEUE_SECS) }),
                    )
                } else {
                    (c1, Err(ErrorV::MissingObjectKey(".metadata.uid"@)))
                }
            },
        }
    }
}

/// Runs one reconciliation pass for the resource described by `meta`
/// against the modelled store: stamp the event with the caller's clock
/// reading, resolve identity, patch status, then create the workload
/// exactly when the classifier asks for one and none exists.  The store
/// ends exactly as `spec_pass` says, the last-event timestamp is the given
/// stamp, the reporter identity never changes, and every successful pass
/// counts one handled event and observes one duration.
pub fn reconcile_pass(
    cfg: &KindConfig,
    meta: &ObjectMeta,
    cluster: &mut ModelCluster,
    state: &mut State,
    metrics: &mut Metrics,
    now_millis: i64,
) -> (r: Result<ReconcilerAction, Error>)
    requires
        old(cluster).status_generation < u64::MAX,
        old(metrics).handled_events < u64::MAX,
        old(metrics).duration_count < u64::MAX,
    ensures
        final(cluster)@ == spec_pass(cfg@, meta@, old(cluster)@).0,
        outcome_view(r) == spec_pass(cfg@, meta@, old(cluster)@).1,
        final(state).last_event_millis == now_millis,
        final(state).reporter == old(state).reporter,
        r is Ok ==> final(metrics).handled_events == old(metrics).handled_events + 1
            && final(metrics).duration_count == old(metrics).duration_count + 1
            && final(metrics).duration_sum_millis >= old(metrics).duration_sum_millis,
        r is Err ==> final(metrics).handled_events == old(metrics).handled_events
            && final(metrics).duration_count == old(metrics).duration_count
            && final(metrics).duration_sum_millis == old(metrics).duration_sum_millis,
        cluster_wf(old(cluster)@) ==> cluster_wf(final(cluster)@),
{
    proof {
        if cluster_wf(old(cluster)@) {
            lemma_pass_preserves_uniqueness(cfg@, meta@, old(cluster)@);
        }
    }
    state.record_event(now_millis);
    let started_millis = now_unix_millis();
    let namespace = match &meta.namespace {
        Some(ns) => ns.clone(),
        None => {
            return Err(Error::MissingObjectKey(".metadata.namespace"));
        },
    };
    let name = match &meta.name {
        Some(n) => n.clone(),
        None => {
            return Err(Error::MissingObjectKey(".metadata.name"));
        },
    };
    let patch = build_status_patch(cfg);
    cluster.apply_status_patch(&patch);
    let action = determine_action(meta);
    let outcome = match action {
        Action::Delete => Ok(ReconcilerAction { requeue_after: None }),
        Action::NoOp => Ok(ReconcilerAction { requeue_after: Some(STEADY_REQUEUE_SECS) }),
        Action::Create => {
            if cluster.has_deployment(&name, &namespace) {
                update()
            } else {
                match object_to_owner_reference(cfg, meta) {
                    Ok(owner) => {
                        let d = synthesize_workload(cfg, &name, &namespace, owner);
                        cluster.create_deployment(d);
                        Ok(ReconcilerAction { requeue_after: Some(STEADY_REQUEUE_SECS) })
                    },
                    Err(e) => Err(e),
                }
            }
        },
    };
    match &outcome {
        Ok(_) => {
            let finished_millis = now_unix_millis();
            let duration_millis: u64 = if started_millis >= 0 && finished_millis > started_millis {
                (finished_millis - started_millis) as u64
            } else {
                0
            };
            metrics.observe_duration(duration_millis);
            metrics.inc_handled_events();
        },
        Err(_) => (),
    }
    outcome
}

/// A pass keeps the store invariant: it never creates a second workload
/// for an identity that already has one.
pub proof fn lemma_pass_preserves_uniqueness(cfg: KindConfigV, meta: ObjectMetaV, c: ModelClusterV)
    requires
        cluster_wf(c),
    ensures
        cluster_wf(spec_pass(cfg, meta, c).0),
{
    let after = spec_pass(cfg, meta, c).0;
    if after.deployments != c.deployments {
        let name = meta.name->0;
        let ns = meta.namespace->0;
        let nd = spec_desired_deployment(cfg, name, ns, spec_owner_reference(cfg, meta));
        assert(after.deployments =~= c.deployments.push(nd));
        assert forall|i: int, j: int|
            0 <= i < after.deployments.len() && 0 <= j < after.deployments.len() && i != j
                implies !same_workload_identity(
            #[trigger] after.deployments[i],
            #[trigger] after.deployments[j],
        ) by {
            let n = c.deployments.len() as int;
            if i < n && j < n {
                assert(!same_workload_identity(c.deployments[i], c.deployments[j]));
            } else if i == n {
                if same_workload_identity(after.deployments[i], after.deployments[j]) {
                    assert(dep_matches(c.deployments[j], name, ns));
                }
            } else {
                if same_workload_identity(after.deployments[i], after.deployments[j]) {
                    assert(dep_matches(c.deployments[i], name, ns));
                }
            }
        }
    }
}

/// Level-triggered idempotence: a second pass on an unchanged resource
/// leaves the workloads and the status document exactly as the first pass
/// did, and reaches the same outcome; only the patch generation advances.
pub proof fn lemma_reconcile_idempotent(cfg: KindConfigV, meta: ObjectMetaV, c: ModelClusterV)
    ensures
        ({
            let (c1, r1) = spec_pass(cfg, meta, c);
            let (c2, r2) = spec_pass(cfg, meta, c1);
            &&& c2.deployments == c1.deployments
            &&& c2.resource_status == c1.resource_status
            &&& r2 == r1
        }),
{
    let (c1, r1) = spec_pass(cfg, meta, c);
    if meta.namespace is Some && meta.name is Some && spec_action(meta) == Action::Create {
        let name = meta.name->0;
        let ns = meta.namespace->0;
        if !spec_has_deployment(c, name, ns) && meta.uid is Some {
            let n = c.deployments.len() as int;
            assert(dep_matches(c1.deployments[n], name, ns));
            assert(spec_has_deployment(c1, name, ns));
        }
    }
}

/// The status patch lands on every pass that resolves the resource's
/// identity: the store's patch generation advances and the status document
/// is the patch's, even when — as on a `NoOp` pass — no workload changes.
pub proof fn lemma_status_patch_every_pass(cfg: KindConfigV, meta: ObjectMetaV, c: ModelClusterV)
    requires
        meta.namespace is Some,
        meta.name is Some,
    ensures
        spec_pass(cfg, meta, c).0.status_generation == c.status_generation + 1,
        spec_pass(cfg, meta, c).0.resource_status == spec_status_patch(cfg).status,
        spec_action(meta) == Action::NoOp ==> spec_pass(cfg, meta, c).0.deployments
            == c.deployments,
{
}

} // verus!
