//! Typed access to a workflow and hardware orchestration service: wire records,
//! their validated domain forms, and the order-keeping collection of a record stream.
pub mod collect;
pub mod config;
pub mod hardware;
pub mod laws;
pub mod wire;
pub mod workflow;

pub use wire::{WireActionStatus, WireDhcp, WireHardware, WireInterface, WireNetwork, WireTimestamp, WireWorkflow};
pub use workflow::{State, WorkflowError};
