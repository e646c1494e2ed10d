//! Coordination of a compute job that is fanned out over short-lived workers
//! in a cluster namespace of its own.
//!
//! Three parties take part. The orchestrator ([`orchestrator`], [`plan`],
//! [`manifest`]) provisions the namespace, the coordinator and the workers
//! in a fixed order and classifies what the control plane answers. The
//! coordinator ([`coordinator`], [`history`]) keeps one record per worker,
//! whichever of registration and result arrives first. The worker
//! ([`worker`], [`lifecycle`], [`sieve`]) finds the coordinator, registers,
//! computes and hands in its result.
//!
//! The library decides and computes; it does no input or output. Whoever
//! calls it performs the actions that the state machines hand out and reports
//! how they ended. Random draws are the one thing it takes from outside
//! ([`chance`]).

pub mod chance;
pub mod config;
pub mod coordinator;
pub mod history;
pub mod lifecycle;
pub mod manifest;
pub mod orchestrator;
pub mod plan;
pub mod sieve;
pub mod text;
pub mod worker;
