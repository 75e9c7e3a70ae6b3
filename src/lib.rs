//! Scheduling and reconciliation core: the artifact / rollout / instance model, the
//! deployment arithmetic, the decisions of the dispatch loop and of the reconciliation
//! passes.
pub mod artifact;
pub mod error;
pub mod instance;
pub mod manifest;
pub mod naming;
pub mod ops;
pub mod pipeline;
pub mod queue;
pub mod reconciler;
pub mod rollout;
pub mod scheduler;
pub mod text;
