//! Verified construction of the fixed-offset boot image and shared-memory
//! block handed to the foreign game module, together with the pure decision
//! logic of the bootstrap sequence (flag encoding, ini defaults, module
//! selection, and the orchestration state machine).
//!
//! Everything that touches the operating system (named mutexes, global
//! memory, module loading, the foreign call itself) lives outside this
//! library; it hands plain values in and takes plain values and byte
//! buffers out.

pub mod boot;
pub mod bytes;
pub mod config;
pub mod flags;
pub mod image;
pub mod ini;
pub mod layout;
pub mod naming;
pub mod shared_block;
