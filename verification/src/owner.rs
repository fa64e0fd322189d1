//! The owner-reference builder: derives the back-reference from a managed
//! sub-object to its owning custom resource.
use vstd::prelude::*;

use crate::meta::{KindConfig, KindConfigV, ObjectMeta, ObjectMetaV, OwnerReference, OwnerReferenceV};
use crate::{Error, ErrorV};

verus! {

/// The owner reference derived from a kind's identity and a resource's
/// metadata: it names the resource and carries the controller flag.
pub open spec fn spec_owner_reference(cfg: KindConfigV, m: ObjectMetaV) -> OwnerReferenceV
    recommends
        m.name is Some,
        m.uid is Some,
{
    OwnerReferenceV {
        api_version: cfg.api_version,
        kind: cfg.kind,
        name: m.name->0,
        uid: m.uid->0,
        controller: Some(true),
        block_owner_deletion: None,
    }
}

/// Builds the owner reference linking a child object to the resource
/// described by `meta`.  A resource already persisted in the cluster store
/// always carries a name and a UID, so a missing field is surfaced as an
/// error rather than retried silently.
pub fn object_to_owner_reference(cfg: &KindConfig, meta: &ObjectMeta) -> (r: Result<
    OwnerReference,
    Error,
>)
    ensures
        meta@.name is Some && meta@.uid is Some ==> (r matches Ok(o) && o@ == spec_owner_reference(
            cfg@,
            meta@,
        )),
        meta@.name is None ==> (r matches Err(e) && e@ == ErrorV::MissingObjectKey(
            ".metadata.name"@,
        )),
        meta@.name is Some && meta@.uid is None ==> (r matches Err(e) && e@
            == ErrorV::MissingObjectKey(".metadata.uid"@)),
{
    let name = match &meta.name {
        Some(n) => n.clone(),
        None => {
            return Err(Error::MissingObjectKey(".metadata.name"));
        },
    };
    let uid = match &meta.uid {
        Some(u) => u.clone(),
        None => {
            return Err(Error::MissingObjectKey(".metadata.uid"));
        },
    };
    Ok(
        OwnerReference {
            api_version: cfg.api_version.clone(),
            kind: cfg.kind.clone(),
            name,
            uid,
            controller: Some(true),
            block_owner_deletion: None,
        },
    )
}

} // verus!
