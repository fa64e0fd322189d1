//! The status patch document: the partial document a pass applies to the
//! custom resource once per reconciliation, with field-owner-scoped merge
//! semantics, so that status is eventually consistent even when no other
//! action is taken.
use vstd::prelude::*;

use crate::meta::{KindConfig, KindConfigV};

verus! {

/// The observed state of a managed workload, as mirrored into the owning
/// resource's status document.
#[derive(Debug, Clone, Copy, PartialEq, Eq, Structural)]
pub struct DeploymentStatus {
    pub replicas: i32,
    pub available_replicas: i32,
}

/// The `status` sub-document of a custom resource.
#[derive(Debug, Clone, Copy, PartialEq, Eq, Structural)]
pub struct StatusDoc {
    pub deployment_status: Option<DeploymentStatus>,
}

/// The partial document `{apiVersion, kind, status}` applied to the
/// custom resource with server-side-apply semantics.
#[derive(Debug, Clone, PartialEq, Eq)]
pub struct StatusPatch {
    pub api_version: String,
    pub kind: String,
    pub status: StatusDoc,
}

#[verifier::ext_equal]
pub struct StatusPatchV {
    pub api_version: Seq<char>,
    pub kind: Seq<char>,
    pub status: StatusDoc,
}

impl View for StatusPatch {
    type V = StatusPatchV;

    open spec fn view(&self) -> StatusPatchV {
        StatusPatchV { api_version: self.api_version@, kind: self.kind@, status: self.status }
    }
}

impl DeepView for StatusPatch {
    type V = StatusPatchV;

    open spec fn deep_view(&self) -> StatusPatchV {
        self.view()
    }
}

/// The patch a pass applies: it names the kind and reports the best-known
/// deployment status, which this engine does not yet observe.
pub open spec fn spec_status_patch(cfg: KindConfigV) -> StatusPatchV {
    StatusPatchV {
        api_version: cfg.api_version,
        kind: cfg.kind,
        status: StatusDoc { deployment_status: None },
    }
}

/// Builds the status patch document applied on every reconciliation pass.
pub fn build_status_patch(cfg: &KindConfig) -> (p: StatusPatch)
    ensures
        p@ == spec_status_patch(cfg@),
{
    StatusPatch {
        api_version: cfg.api_version.clone(),
        kind: cfg.kind.clone(),
        status: StatusDoc { deployment_status: None },
    }
}

} // verus!
