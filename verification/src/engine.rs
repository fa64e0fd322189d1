//! The per-pass decision procedure of the reconciler: resolving identity,
//! planning the status patch, reacting to the workload lookup, and choosing
//! the next requeue delay.
//!
//! Everything here is pure: the surrounding process performs the cluster
//! calls and feeds their classified outcomes back in.
use vstd::prelude::*;

use crate::action::{determine_action, spec_action, Action};
use crate::meta::{KindConfig, KindConfigV, ObjectMeta, ObjectMetaV};
use crate::owner::{object_to_owner_reference, spec_owner_reference};
use crate::status::{build_status_patch, spec_status_patch, StatusPatch};
use crate::workload::{spec_desired_deployment, synthesize_workload, Deployment, DeploymentV};
use crate::{Error, ErrorV};

verus! {

/// Requeue delay after a successful create or steady-state pass: 30 minutes.
pub const STEADY_REQUEUE_SECS: u64 = 1800;

/// Requeue delay after a failed pass: a coarse backoff on the order of
/// minutes, longer than the short ambiguous-lookup delay.
pub const ERROR_REQUEUE_SECS: u64 = 360;

/// Requeue delay when the workload lookup outcome was unrecognized:
/// a few seconds.
pub const AMBIGUOUS_REQUEUE_SECS: u64 = 5;

/// The outcome of a successful pass: when to run the next one, if at all.
#[derive(Debug, Clone, Copy, PartialEq, Eq, Structural)]
pub struct ReconcilerAction {
    /// Seconds until the next pass; `None` asks for no further requeue.
    pub requeue_after: Option<u64>,
}

/// The classified outcome of looking the managed workload up by name.
#[derive(Debug, Clone, PartialEq, Eq)]
pub enum WorkloadLookup {
    /// The workload exists.
    Present,
    /// The store answered that no such workload exists.
    NotFound,
    /// The store reported an API failure, carried as its message.
    ApiError(String),
    /// The lookup failed in a way the engine does not recognize.
    Unrecognized,
}

/// Mathematical image of a `WorkloadLookup`.
pub enum WorkloadLookupV {
    Present,
    NotFound,
    ApiError(Seq<char>),
    Unrecognized,
}

impl View for WorkloadLookup {
    type V = WorkloadLookupV;

    open spec fn view(&self) -> WorkloadLookupV {
        match self {
            WorkloadLookup::Present => WorkloadLookupV::Present,
            WorkloadLookup::NotFound => WorkloadLookupV::NotFound,
            WorkloadLookup::ApiError(m) => WorkloadLookupV::ApiError(m@),
            WorkloadLookup::Unrecognized => WorkloadLookupV::Unrecognized,
        }
    }
}

/// View of a pass outcome, with the error abstracted.
pub open spec fn outcome_view(r: Result<ReconcilerAction, Error>) -> Result<
    ReconcilerAction,
    ErrorV,
> {
    match r {
        Ok(a) => Ok(a),
        Err(e) => Err(e@),
    }
}

/// View of a workload decision: the deployment to create, if any, and the
/// requeue choice, with the error abstracted.
pub open spec fn step_view(r: Result<(Option<Deployment>, ReconcilerAction), Error>) -> Result<
    (Option<DeploymentV>, ReconcilerAction),
    ErrorV,
> {
    match r {
        Ok((d, a)) => Ok((d.deep_view(), a)),
        Err(e) => Err(e@),
    }
}

/// What the engine plans before touching the cluster: the resolved
/// identity, the status patch to apply, and the classified action.
#[derive(Debug, Clone, PartialEq, Eq)]
pub struct ReconcilePlan {
    pub name: String,
    pub namespace: String,
    pub status_patch: StatusPatch,
    pub action: Action,
}

/// Resolves the resource's identity and plans the pass.  All resources in
/// scope are namespace-scoped by contract, so a missing namespace (or
/// name) is surfaced as a `MissingObjectKey` error for this pass.
pub fn plan_reconcile(cfg: &KindConfig, meta: &ObjectMeta) -> (r: Result<ReconcilePlan, Error>)
    ensures
        meta@.namespace is None ==> (r matches Err(e) && e@ == ErrorV::MissingObjectKey(
            ".metadata.namespace"@,
        )),
        meta@.namespace is Some && meta@.name is None ==> (r matches Err(e) && e@
            == ErrorV::MissingObjectKey(".metadata.name"@)),
        meta@.namespace is Some && meta@.name is Some ==> (r matches Ok(p) && p.name@
            == meta@.name->0 && p.namespace@ == meta@.namespace->0 && p.status_patch@
            == spec_status_patch(cfg@) && p.action == spec_action(meta@)),
{
    let namespace = match &meta.namespace {
        Some(ns) => ns.clone(),
        None => {
            return Err(Error::MissingObjectKey(".metadata.namespace"));
        },
    };
    let name = match &meta.name {
        Some(n) => n.clone(),
        None => {
            return Err(Error::MissingObjectKey(".metadata.name"));
        },
    };
    Ok(
        ReconcilePlan {
            name,
            namespace,
            status_patch: build_status_patch(cfg),
            action: determine_action(meta),
        },
    )
}

/// The steady-state pass over an already existing workload: the engine
/// leaves it unchanged and requeues after the long interval.
pub fn update() -> (r: Result<ReconcilerAction, Error>)
    ensures
        r matches Ok(a) && a.requeue_after == Some(STEADY_REQUEUE_SECS),
{
    Ok(ReconcilerAction { requeue_after: Some(STEADY_REQUEUE_SECS) })
}

/// Maps a reconciliation failure to the fixed backoff delay.  Every
/// failure is retried after the same bounded interval; none crashes the
/// controller.
pub fn error_policy(error: &Error) -> (a: ReconcilerAction)
    ensures
        a.requeue_after == Some(ERROR_REQUEUE_SECS),
{
    let _ = error;
    ReconcilerAction { requeue_after: Some(ERROR_REQUEUE_SECS) }
}

/// What the `Create` branch decides once the workload lookup has answered.
pub open spec fn spec_create_outcome(
    cfg: KindConfigV,
    meta: ObjectMetaV,
    lookup: WorkloadLookupV,
) -> Result<(Option<DeploymentV>, ReconcilerAction), ErrorV>
    recommends
        meta.namespace is Some,
{
    match lookup {
        WorkloadLookupV::Present => Ok(
            (None, ReconcilerAction { requeue_after: Some(STEADY_REQUEUE_SECS) }),
        ),
        WorkloadLookupV::NotFound => {
            if meta.name is None {
                Err(ErrorV::MissingObjectKey(".metadata.name"@))
            } else if meta.uid is None {
                Err(ErrorV::MissingObjectKey(".metadata.uid"@))
            } else {
                Ok(
                    (
                        Some(
                            spec_desired_deployment(
                                cfg,
                                meta.name->0,
                                meta.namespace->0,
                                spec_owner_reference(cfg, meta),
                            ),
                        ),
                        ReconcilerAction { requeue_after: Some(STEADY_REQUEUE_SECS) },
                    ),
                )
            }
        },
        WorkloadLookupV::ApiError(m) => Err(ErrorV::KubeError(m)),
        WorkloadLookupV::Unrecognized => Ok(
            (None, ReconcilerAction { requeue_after: Some(AMBIGUOUS_REQUEUE_SECS) }),
        ),
    }
}

/// The full decision once the action is classified: `Delete` asks for no
/// requeue and leaves teardown to garbage collection, `NoOp` requeues
/// after the steady interval, `Create` reacts to the workload lookup.
pub open spec fn spec_step(cfg: KindConfigV, meta: ObjectMetaV, lookup: WorkloadLookupV) -> Result<
    (Option<DeploymentV>, ReconcilerAction),
    ErrorV,
>
    recommends
        meta.namespace is Some,
{
    match spec_action(meta) {
        Action::Delete => Ok((None, ReconcilerAction { requeue_after: None })),
        Action::NoOp => Ok((None, ReconcilerAction { requeue_after: Some(STEADY_REQUEUE_SECS) })),
        Action::Create => spec_create_outcome(cfg, meta, lookup),
    }
}

/// Decides what the `Create` branch does for this lookup outcome: create
/// the synthesized workload when it is absent, leave it alone when it is
/// present, propagate an API failure, requeue shortly on an unrecognized
/// outcome.
pub fn create_outcome(cfg: &KindConfig, meta: &ObjectMeta, lookup: &WorkloadLookup) -> (r: Result<
    (Option<Deployment>, ReconcilerAction),
    Error,
>)
    requires
        meta@.namespace is Some,
    ensures
        step_view(r) == spec_create_outcome(cfg@, meta@, lookup@),
{
    match lookup {
        WorkloadLookup::Present => Ok(
            (None, ReconcilerAction { requeue_after: Some(STEADY_REQUEUE_SECS) }),
        ),
        WorkloadLookup::NotFound => {
            let name = match &meta.name {
                Some(n) => n.clone(),
                None => {
                    return Err(Error::MissingObjectKey(".metadata.name"));
                },
            };
            let namespace = match &meta.namespace {
                Some(ns) => ns.clone(),
                None => {
                    return Err(Error::MissingObjectKey(".metadata.namespace"));
                },
            };
            let owner = match object_to_owner_reference(cfg, meta) {
                Ok(o) => o,
                Err(e) => {
                    return Err(e);
                },
            };
            let d = synthesize_workload(cfg, &name, &namespace, owner);
            Ok((Some(d), ReconcilerAction { requeue_after: Some(STEADY_REQUEUE_SECS) }))
        },
        WorkloadLookup::ApiError(m) => Err(Error::KubeError(m.clone())),
        WorkloadLookup::Unrecognized => Ok(
            (None, ReconcilerAction { requeue_after: Some(AMBIGUOUS_REQUEUE_SECS) }),
        ),
    }
}

/// The requeue intervals keep their intended order: a failed pass backs
/// off for minutes, strictly longer than the few seconds after an
/// ambiguous lookup, and the steady-state interval is the longest of all.
pub proof fn lemma_requeue_ordering()
    ensures
        AMBIGUOUS_REQUEUE_SECS < ERROR_REQUEUE_SECS,
        ERROR_REQUEUE_SECS < STEADY_REQUEUE_SECS,
{
}

/// Runs one decision step for an already classified action.  The caller
/// performs the workload lookup only when the action asks for it and hands
/// the classified outcome in.
pub fn reconcile_step(
    cfg: &KindConfig,
    meta: &ObjectMeta,
    action: Action,
    lookup: &WorkloadLookup,
) -> (r: Result<(Option<Deployment>, ReconcilerAction), Error>)
    requires
        meta@.namespace is Some,
        action == spec_action(meta@),
    ensures
        step_view(r) == spec_step(cfg@, meta@, lookup@),
{
    match action {
        Action::Delete => Ok((None, ReconcilerAction { requeue_after: None })),
        Action::NoOp => Ok((None, ReconcilerAction { requeue_after: Some(STEADY_REQUEUE_SECS) })),
        Action::Create => create_outcome(cfg, meta, lookup),
    }
}

} // verus!
