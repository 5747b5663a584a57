//! Orchestration engine for deploying a static website: the decisions that turn
//! poll-based status signals from independent remote services into one
//! sequential, idempotent, timeout-bounded workflow.

pub mod deploy;
pub mod error;
pub mod invalidation;
pub mod poller;
pub mod stack;
pub mod target;
pub mod text;
pub mod upload;
pub mod zone;
