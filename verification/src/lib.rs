//! A verified WASI (WebAssembly System Interface) preview1 host shim.
//!
//! A sandboxed guest program issues OS-like requests (command-line
//! arguments, environment variables, standard-output writes, process
//! exit) and has them serviced by the host, with all data crossing
//! through the guest's linear memory.  This crate provides the
//! capability-gated descriptor table, the shared environment state, and
//! the ABI-level marshalling functions, each with a machine-checked
//! contract.

pub mod ctx;
pub mod dir;
pub mod environ;
pub mod error;
pub mod fd_map;
pub mod file;
pub mod memory;
pub mod module;
pub mod pipe;
pub mod string_array;
pub mod wasi;
