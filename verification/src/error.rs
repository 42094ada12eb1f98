//! Error types for the WASI shim.
//!
//! Capacity errors are reported to the caller of the setup API and are
//! never surfaced through the WASI ABI itself, since setup precedes
//! guest execution.

use vstd::prelude::*;

verus! {

/// An error raised by the shared environment state or the descriptor
/// table.
#[derive(Clone, Copy, Debug, PartialEq, Eq, Structural)]
pub enum WasiCommonError {
    /// The descriptor table already holds the maximum number of live
    /// entries.
    FdMapFull,
    /// A string-array limit was exceeded; the payload says which one.
    StringArray(StringArrayError),
    /// Arguments and environment variables are fixed once any host
    /// function has executed; a later push is rejected.
    Sealed,
}

/// A capacity error raised by a [`StringArray`](crate::string_array::StringArray).
#[derive(Clone, Copy, Debug, PartialEq, Eq, Structural)]
pub enum StringArrayError {
    /// The number of elements would exceed the 32-bit unsigned range.
    NumberElements,
    /// A single element's byte length exceeds the 32-bit unsigned range.
    ElementSize,
    /// The cumulative byte size would exceed the 32-bit unsigned range.
    CumulativeSize,
}

/// An error raised by the importable WASI module wrapper.
#[derive(Clone, Copy, Debug, PartialEq, Eq, Structural)]
pub enum InstanceError {
    /// The import unit could not be allocated.
    CreateImportModule,
    /// The queried descriptor has no host-native handle backing it.
    NotFoundMappedFdHandler,
}

} // verus!
