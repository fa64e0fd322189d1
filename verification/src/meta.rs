//! Models of the cluster object metadata the engine reads and writes.
//!
//! The cluster store's own types are opaque to verification, so the fields
//! the engine's logic depends on are held here as plain values, together
//! with their mathematical views.
use vstd::prelude::*;

verus! {

/// One `key = value` entry of a label map.
#[derive(Debug, Clone, PartialEq, Eq)]
pub struct Label {
    pub key: String,
    pub value: String,
}

#[verifier::ext_equal]
pub struct LabelV {
    pub key: Seq<char>,
    pub value: Seq<char>,
}

impl View for Label {
    type V = LabelV;

    open spec fn view(&self) -> LabelV {
        LabelV { key: self.key@, value: self.value@ }
    }
}

impl DeepView for Label {
    type V = LabelV;

    open spec fn deep_view(&self) -> LabelV {
        self.view()
    }
}

/// A back-link from a managed sub-object to the resource that owns it,
/// so that cluster-level garbage collection can cascade a deletion.
#[derive(Debug, Clone, PartialEq, Eq)]
pub struct OwnerReference {
    pub api_version: String,
    pub kind: String,
    pub name: String,
    pub uid: String,
    pub controller: Option<bool>,
    pub block_owner_deletion: Option<bool>,
}

#[verifier::ext_equal]
pub struct OwnerReferenceV {
    pub api_version: Seq<char>,
    pub kind: Seq<char>,
    pub name: Seq<char>,
    pub uid: Seq<char>,
    pub controller: Option<bool>,
    pub block_owner_deletion: Option<bool>,
}

impl View for OwnerReference {
    type V = OwnerReferenceV;

    open spec fn view(&self) -> OwnerReferenceV {
        OwnerReferenceV {
            api_version: self.api_version@,
            kind: self.kind@,
            name: self.name@,
            uid: self.uid@,
            controller: self.controller,
            block_owner_deletion: self.block_owner_deletion,
        }
    }
}

impl DeepView for OwnerReference {
    type V = OwnerReferenceV;

    open spec fn deep_view(&self) -> OwnerReferenceV {
        self.view()
    }
}

/// The metadata of a cluster object: identity, lifecycle markers, labels
/// and ownership links.  A deletion timestamp is kept as an epoch value in
/// milliseconds; only its presence matters to the engine.
#[derive(Debug, Clone, PartialEq, Eq)]
pub struct ObjectMeta {
    pub name: Option<String>,
    pub namespace: Option<String>,
    pub uid: Option<String>,
    pub deletion_timestamp: Option<i64>,
    pub finalizers: Option<Vec<String>>,
    pub labels: Vec<Label>,
    pub owner_references: Vec<OwnerReference>,
}

#[verifier::ext_equal]
pub struct ObjectMetaV {
    pub name: Option<Seq<char>>,
    pub namespace: Option<Seq<char>>,
    pub uid: Option<Seq<char>>,
    pub deletion_timestamp: Option<i64>,
    pub finalizers: Option<Seq<Seq<char>>>,
    pub labels: Seq<LabelV>,
    pub owner_references: Seq<OwnerReferenceV>,
}

impl View for ObjectMeta {
    type V = ObjectMetaV;

    open spec fn view(&self) -> ObjectMetaV {
        ObjectMetaV {
            name: self.name.deep_view(),
            namespace: self.namespace.deep_view(),
            uid: self.uid.deep_view(),
            deletion_timestamp: self.deletion_timestamp,
            finalizers: self.finalizers.deep_view(),
            labels: self.labels.deep_view(),
            owner_references: self.owner_references.deep_view(),
        }
    }
}

impl DeepView for ObjectMeta {
    type V = ObjectMetaV;

    open spec fn deep_view(&self) -> ObjectMetaV {
        self.view()
    }
}

/// The per-kind configuration record: one generic reconciler is
/// instantiated with one of these per resource kind.
#[derive(Debug, Clone, PartialEq, Eq)]
pub struct KindConfig {
    /// API group and version of the resource kind, e.g. `engula.io/v1alpha1`.
    pub api_version: String,
    /// Kind name, e.g. `Journal`.
    pub kind: String,
    /// Default container image for the managed workload.
    pub image: String,
    /// Command run in the workload's single container.
    pub command: String,
    /// Environment variable carrying the resource name, when the kind uses one.
    pub env_name_var: Option<String>,
    /// Environment variable carrying the resource namespace, when the kind uses one.
    pub env_namespace_var: Option<String>,
}

#[verifier::ext_equal]
pub struct KindConfigV {
    pub api_version: Seq<char>,
    pub kind: Seq<char>,
    pub image: Seq<char>,
    pub command: Seq<char>,
    pub env_name_var: Option<Seq<char>>,
    pub env_namespace_var: Option<Seq<char>>,
}

impl View for KindConfig {
    type V = KindConfigV;

    open spec fn view(&self) -> KindConfigV {
        KindConfigV {
            api_version: self.api_version@,
            kind: self.kind@,
            image: self.image@,
            command: self.command@,
            env_name_var: self.env_name_var.deep_view(),
            env_namespace_var: self.env_namespace_var.deep_view(),
        }
    }
}

impl DeepView for KindConfig {
    type V = KindConfigV;

    open spec fn deep_view(&self) -> KindConfigV {
        self.view()
    }
}

} // verus!
