//! A small registry of named build-and-deploy pipelines, and the decisions
//! of the deploy sequence (build, push, delete the old manifest, create the
//! new one) as a state machine whose steps a driver carries out.
pub mod pipeline;
pub mod registry;
pub mod deploy;
