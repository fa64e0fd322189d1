//! The custom resource kinds this controller reconciles.
pub mod journal;
pub mod storage;
