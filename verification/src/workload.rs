//! The workload synthesizer: builds the complete desired Deployment for a
//! custom resource from its identity and the per-kind configuration.
//!
//! The synthesizer is pure; it has no knowledge of prior cluster state.
//! Labels are applied to the Deployment metadata, its selector and its pod
//! template alike, so the selector always matches the workload's own pods.
use vstd::prelude::*;

use crate::meta::{
    KindConfig, KindConfigV, Label, LabelV, ObjectMeta, ObjectMetaV, OwnerReference,
    OwnerReferenceV,
};

verus! {

/// An environment variable of the workload's container.
#[derive(Debug, Clone, PartialEq, Eq)]
pub struct EnvVar {
    pub name: String,
    pub value: Option<String>,
}

#[verifier::ext_equal]
pub struct EnvVarV {
    pub name: Seq<char>,
    pub value: Option<Seq<char>>,
}

impl View for EnvVar {
    type V = EnvVarV;

    open spec fn view(&self) -> EnvVarV {
        EnvVarV { name: self.name@, value: self.value.deep_view() }
    }
}

impl DeepView for EnvVar {
    type V = EnvVarV;

    open spec fn deep_view(&self) -> EnvVarV {
        self.view()
    }
}

/// One container of a pod.
#[derive(Debug, Clone, PartialEq, Eq)]
pub struct Container {
    pub name: String,
    pub image: Option<String>,
    pub image_pull_policy: Option<String>,
    pub command: Option<Vec<String>>,
    pub args: Option<Vec<String>>,
    pub env: Option<Vec<EnvVar>>,
}

#[verifier::ext_equal]
pub struct ContainerV {
    pub name: Seq<char>,
    pub image: Option<Seq<char>>,
    pub image_pull_policy: Option<Seq<char>>,
    pub command: Option<Seq<Seq<char>>>,
    pub args: Option<Seq<Seq<char>>>,
    pub env: Option<Seq<EnvVarV>>,
}

impl View for Container {
    type V = ContainerV;

    open spec fn view(&self) -> ContainerV {
        ContainerV {
            name: self.name@,
            image: self.image.deep_view(),
            image_pull_policy: self.image_pull_policy.deep_view(),
            command: self.command.deep_view(),
            args: self.args.deep_view(),
            env: self.env.deep_view(),
        }
    }
}

impl DeepView for Container {
    type V = ContainerV;

    open spec fn deep_view(&self) -> ContainerV {
        self.view()
    }
}

/// The pod specification of the workload.
#[derive(Debug, Clone, PartialEq, Eq)]
pub struct PodSpec {
    pub containers: Vec<Container>,
}

#[verifier::ext_equal]
pub struct PodSpecV {
    pub containers: Seq<ContainerV>,
}

impl View for PodSpec {
    type V = PodSpecV;

    open spec fn view(&self) -> PodSpecV {
        PodSpecV { containers: self.containers.deep_view() }
    }
}

impl DeepView for PodSpec {
    type V = PodSpecV;

    open spec fn deep_view(&self) -> PodSpecV {
        self.view()
    }
}

/// The pod template: the labels stamped onto each pod and the pod spec.
#[derive(Debug, Clone, PartialEq, Eq)]
pub struct PodTemplateSpec {
    pub labels: Vec<Label>,
    pub spec: Option<PodSpec>,
}

#[verifier::ext_equal]
pub struct PodTemplateSpecV {
    pub labels: Seq<LabelV>,
    pub spec: Option<PodSpecV>,
}

impl View for PodTemplateSpec {
    type V = PodTemplateSpecV;

    open spec fn view(&self) -> PodTemplateSpecV {
        PodTemplateSpecV { labels: self.labels.deep_view(), spec: self.spec.deep_view() }
    }
}

impl DeepView for PodTemplateSpec {
    type V = PodTemplateSpecV;

    open spec fn deep_view(&self) -> PodTemplateSpecV {
        self.view()
    }
}

/// The label selector a Deployment uses to find its pods.
#[derive(Debug, Clone, PartialEq, Eq)]
pub struct LabelSelector {
    pub match_labels: Vec<Label>,
}

#[verifier::ext_equal]
pub struct LabelSelectorV {
    pub match_labels: Seq<LabelV>,
}

impl View for LabelSelector {
    type V = LabelSelectorV;

    open spec fn view(&self) -> LabelSelectorV {
        LabelSelectorV { match_labels: self.match_labels.deep_view() }
    }
}

impl DeepView for LabelSelector {
    type V = LabelSelectorV;

    open spec fn deep_view(&self) -> LabelSelectorV {
        self.view()
    }
}

/// The desired-state part of a Deployment.
#[derive(Debug, Clone, PartialEq, Eq)]
pub struct DeploymentSpec {
    pub replicas: Option<i32>,
    pub selector: LabelSelector,
    pub template: PodTemplateSpec,
}

#[verifier::ext_equal]
pub struct DeploymentSpecV {
    pub replicas: Option<i32>,
    pub selector: LabelSelectorV,
    pub template: PodTemplateSpecV,
}

impl View for DeploymentSpec {
    type V = DeploymentSpecV;

    open spec fn view(&self) -> DeploymentSpecV {
        DeploymentSpecV {
            replicas: self.replicas,
            selector: self.selector.view(),
            template: self.template.view(),
        }
    }
}

impl DeepView for DeploymentSpec {
    type V = DeploymentSpecV;

    open spec fn deep_view(&self) -> DeploymentSpecV {
        self.view()
    }
}

/// The managed workload: a Deployment owned by one custom resource.
#[derive(Debug, Clone, PartialEq, Eq)]
pub struct Deployment {
    pub metadata: ObjectMeta,
    pub spec: Option<DeploymentSpec>,
}

#[verifier::ext_equal]
pub struct DeploymentV {
    pub metadata: ObjectMetaV,
    pub spec: Option<DeploymentSpecV>,
}

impl View for Deployment {
    type V = DeploymentV;

    open spec fn view(&self) -> DeploymentV {
        DeploymentV { metadata: self.metadata.view(), spec: self.spec.deep_view() }
    }
}

impl DeepView for Deployment {
    type V = DeploymentV;

    open spec fn deep_view(&self) -> DeploymentV {
        self.view()
    }
}

/// The labels a workload carries: a single entry keyed on the resource name.
pub open spec fn spec_workload_labels(name: Seq<char>) -> Seq<LabelV> {
    seq![LabelV { key: "app"@, value: name }]
}

/// The environment of the workload container: the resource's name and
/// namespace, for kinds configured to pass them; absent otherwise.
pub open spec fn spec_workload_env(cfg: KindConfigV, name: Seq<char>, ns: Seq<char>) -> Option<
    Seq<EnvVarV>,
> {
    if cfg.env_name_var is Some && cfg.env_namespace_var is Some {
        Some(
            seq![
                EnvVarV { name: cfg.env_name_var->0, value: Some(name) },
                EnvVarV { name: cfg.env_namespace_var->0, value: Some(ns) },
            ],
        )
    } else {
        None
    }
}

/// The single container of the workload: the kind's default image, the
/// kind name as command, and the resource name as its only argument.
pub open spec fn spec_workload_container(cfg: KindConfigV, name: Seq<char>, ns: Seq<char>) -> ContainerV {
    ContainerV {
        name: name,
        image: Some(cfg.image),
        image_pull_policy: Some("IfNotPresent"@),
        command: Some(seq![cfg.command]),
        args: Some(seq![name]),
        env: spec_workload_env(cfg, name, ns),
    }
}

/// The complete desired Deployment for a resource: same name and namespace
/// as the owner, one replica, the owner reference attached, and one label
/// set shared by metadata, selector and pod template.
pub open spec fn spec_desired_deployment(
    cfg: KindConfigV,
    name: Seq<char>,
    ns: Seq<char>,
    owner: OwnerReferenceV,
) -> DeploymentV {
    DeploymentV {
        metadata: ObjectMetaV {
            name: Some(name),
            namespace: Some(ns),
            uid: None,
            deletion_timestamp: None,
            finalizers: None,
            labels: spec_workload_labels(name),
            owner_references: seq![owner],
        },
        spec: Some(
            DeploymentSpecV {
                replicas: Some(1i32),
                selector: LabelSelectorV { match_labels: spec_workload_labels(name) },
                template: PodTemplateSpecV {
                    labels: spec_workload_labels(name),
                    spec: Some(PodSpecV { containers: seq![spec_workload_container(cfg, name, ns)] }),
                },
            },
        ),
    }
}

/// Builds the labels shared by the Deployment, its selector and its pods.
fn workload_labels(name: &String) -> (l: Vec<Label>)
    ensures
        l.deep_view() == spec_workload_labels(name@),
{
    let l: Vec<Label> = vec![Label { key: "app".to_owned(), value: name.clone() }];
    proof {
        assert(l.deep_view() =~= spec_workload_labels(name@));
    }
    l
}

/// Synthesizes the desired managed workload for the resource named `name`
/// in `namespace`, owned through `owner`, under the kind's conventions.
pub fn synthesize_workload(
    cfg: &KindConfig,
    name: &String,
    namespace: &String,
    owner: OwnerReference,
) -> (d: Deployment)
    ensures
        d@ == spec_desired_deployment(cfg@, name@, namespace@, owner@),
{
    let ghost owner_v = owner@;
    let env: Option<Vec<EnvVar>> = match (&cfg.env_name_var, &cfg.env_namespace_var) {
        (Some(nv), Some(sv)) => Some(
            vec![
                EnvVar { name: nv.clone(), value: Some(name.clone()) },
                EnvVar { name: sv.clone(), value: Some(namespace.clone()) },
            ],
        ),
        _ => None,
    };
    proof {
        assert(env.deep_view() =~= spec_workload_env(cfg@, name@, namespace@));
    }
    let container = Container {
        name: name.clone(),
        image: Some(cfg.image.clone()),
        image_pull_policy: Some("IfNotPresent".to_owned()),
        command: Some(vec![cfg.command.clone()]),
        args: Some(vec![name.clone()]),
        env,
    };
    proof {
        assert(container@ =~~= spec_workload_container(cfg@, name@, namespace@));
    }
    let containers: Vec<Container> = vec![container];
    proof {
        assert(containers.deep_view() =~~= seq![
            spec_workload_container(cfg@, name@, namespace@),
        ]);
    }
    let owners: Vec<OwnerReference> = vec![owner];
    proof {
        assert(owners.deep_view() =~= seq![owner_v]);
    }
    let d = Deployment {
        metadata: ObjectMeta {
            name: Some(name.clone()),
            namespace: Some(namespace.clone()),
            uid: None,
            deletion_timestamp: None,
            finalizers: None,
            labels: workload_labels(name),
            owner_references: owners,
        },
        spec: Some(
            DeploymentSpec {
                replicas: Some(1),
                selector: LabelSelector { match_labels: workload_labels(name) },
                template: PodTemplateSpec {
                    labels: workload_labels(name),
                    spec: Some(PodSpec { containers }),
                },
            },
        ),
    };
    proof {
        assert(d@ =~~= spec_desired_deployment(cfg@, name@, namespace@, owner_v));
    }
    d
}

/// The synthesized workload keeps its selector aligned with its own pods:
/// the selector's labels equal the pod template's labels, are non-empty,
/// and the workload runs a single replica of a single container.
pub proof fn lemma_selector_matches_template(
    cfg: KindConfigV,
    name: Seq<char>,
    ns: Seq<char>,
    owner: OwnerReferenceV,
)
    ensures
        ({
            let d = spec_desired_deployment(cfg, name, ns, owner);
            &&& d.spec is Some
            &&& d.spec->0.selector.match_labels == d.spec->0.template.labels
            &&& d.spec->0.selector.match_labels.len() > 0
            &&& d.spec->0.replicas == Some(1i32)
            &&& d.spec->0.template.spec is Some
            &&& d.spec->0.template.spec->0.containers.len() == 1
        }),
{
}

} // verus!
