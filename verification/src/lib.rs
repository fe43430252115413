//! Provisioning of a paired virtual network link.
//!
//! The library holds the verified core of the provisioner: the configuration
//! naming the two endpoints, the endpoint descriptor, the error taxonomy, and
//! the lifecycle state machine that decides, step by step, which request to
//! send to the kernel's network-configuration channel and how to interpret
//! each response. The unverified shell that actually owns the channel
//! connection and the execution context drives this machine and performs the
//! requests it asks for.

pub mod config;
pub mod error;
pub mod laws;
pub mod link;
pub mod setup;
