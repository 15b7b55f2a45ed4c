//! Core logic of an edge-node telemetry system: nodes sample GPU health
//! metrics, show them in a local display, and report them to a central
//! orchestrator over a reconnecting heartbeat connection; the orchestrator
//! keeps the latest metric per node in a concurrent registry.
//!
//! Floating-point metrics are carried as their IEEE 754 bit patterns
//! (`f32::to_bits`), so that the logic that stores and forwards them can be
//! verified; callers convert at the boundary.

pub mod cell;
pub mod client;
pub mod display;
pub mod queue;
pub mod registry;
pub mod sample;
pub mod wire;
