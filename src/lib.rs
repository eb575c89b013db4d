//! Execution core of a sandboxed bytecode host: the tagged word format that
//! crosses the host/guest boundary, allocation descriptors, a bump allocator
//! over the guest's linear-memory page, the host capability table and the
//! per-call steps that stage input and decode what the guest returned.
pub mod allocation;
pub mod capability;
pub mod driver;
pub mod encoding;
pub mod memory;
