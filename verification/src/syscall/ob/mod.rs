//! Object-manager syscalls: the ABI records they exchange, the SMP
//! statistics snapshots, and the service-control protocol.

pub mod types;
pub mod stats;
pub mod service;
pub mod set;
pub mod query;
pub mod create;
pub mod wait;
pub mod handle;
