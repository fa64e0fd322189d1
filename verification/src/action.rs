//! The action classifier: a pure, total map from a resource's lifecycle
//! markers to the action a reconciliation pass must take.
use vstd::prelude::*;

use crate::meta::{ObjectMeta, ObjectMetaV};

verus! {

/// Action to be taken upon a custom resource during reconciliation.
#[derive(Debug, Clone, Copy, PartialEq, Eq, Structural)]
pub enum Action {
    /// Create the managed sub-objects for this resource.
    Create,
    /// The resource is being torn down; leave deletion to the cluster's
    /// owner-reference garbage collector.
    Delete,
    /// The resource is in its desired state and requires no action.
    NoOp,
}

/// What the classifier returns: `Delete` whenever a deletion timestamp is
/// present, `Create` when there is none and the finalizer set is absent or
/// empty, `NoOp` otherwise.
pub open spec fn spec_action(m: ObjectMetaV) -> Action {
    if m.deletion_timestamp is Some {
        Action::Delete
    } else if (match m.finalizers {
        Some(f) => f.len() == 0,
        None => true,
    }) {
        Action::Create
    } else {
        Action::NoOp
    }
}

/// Looks at the lifecycle markers of the resource being reconciled and
/// decides which action to perform next.
pub fn determine_action(meta: &ObjectMeta) -> (a: Action)
    ensures
        a == spec_action(meta@),
{
    if meta.deletion_timestamp.is_some() {
        Action::Delete
    } else {
        match &meta.finalizers {
            None => Action::Create,
            Some(f) => {
                if f.len() == 0 {
                    Action::Create
                } else {
                    Action::NoOp
                }
            },
        }
    }
}

} // verus!
