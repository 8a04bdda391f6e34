//! Core logic of a small microkernel: task contexts, a round-robin
//! scheduler, capability-checked IPC, and the host-call bridge that
//! sandboxed guest modules talk to.
#![verifier::loop_isolation(false)]

pub mod benchmark;
pub mod capability;
pub mod exceptions;
pub mod hal;
pub mod ipc;
pub mod scheduler;
pub mod task;
pub mod wasm_bridge;

pub use task::TaskId;
