//! Reconciliation engine for the Journal and Storage custom resources.
//!
//! The library holds the decision core of a level-triggered controller:
//! classifying a resource's lifecycle state, building the owner reference
//! for a managed sub-object, synthesizing the desired Deployment, patching
//! status once per pass, and choosing the next requeue delay.  Cluster I/O
//! is left to the surrounding process; the engine is exercised here against
//! a model of the cluster store.
#![allow(unused_imports)]
use vstd::prelude::*;

pub mod action;
pub mod api;
pub mod cluster;
pub mod engine;
pub mod meta;
pub mod owner;
pub mod state;
pub mod status;
pub mod workload;

verus! {

/// The failures a reconciliation pass can surface.  All are recoverable:
/// the surrounding process maps each to a bounded retry delay.
#[derive(Debug, Clone, PartialEq, Eq)]
pub enum Error {
    /// Transport or API failure reported by the cluster client.
    KubeError(String),
    /// A malformed document could not be encoded or decoded.
    SerializationError(String),
    /// A required field was absent from an otherwise valid resource.
    MissingObjectKey(&'static str),
}

/// Mathematical image of an `Error`: each message as a character sequence.
pub enum ErrorV {
    KubeError(Seq<char>),
    SerializationError(Seq<char>),
    MissingObjectKey(Seq<char>),
}

impl View for Error {
    type V = ErrorV;

    open spec fn view(&self) -> ErrorV {
        match self {
            Error::KubeError(s) => ErrorV::KubeError(s@),
            Error::SerializationError(s) => ErrorV::SerializationError(s@),
            Error::MissingObjectKey(s) => ErrorV::MissingObjectKey(s@),
        }
    }
}

} // verus!
