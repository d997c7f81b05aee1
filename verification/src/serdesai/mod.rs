//! The agent-runtime layer: turning tool results into the values handed back
//! to the model, rendering delegation targets, and resolving provider
//! endpoints and credentials.

pub mod agent_ext;
pub mod convert;
pub mod custom;
pub mod glob;
pub mod mock;
pub mod provider_bridge;
pub mod task;
