//! The two workflows: forming a batch and reconciling one.

pub mod create_batch;
pub mod reconcile;
