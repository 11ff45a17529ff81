//! Keyleash: policy-driven delivery of named secrets to a launched process.
//!
//! The verified core: secret-name validation, the allow-list policy, the
//! request/response frame model with its size limits, the broker session
//! state machine, the client's reading of a reply, and the plan for handing
//! the child its channel descriptor.
pub mod name;
pub mod policy;
pub mod protocol;
pub mod session;
pub mod client;
pub mod process;
