//! Status codes returned by the store's operations.
use vstd::prelude::*;

verus! {

/// The operation completed.
pub const OK: u8 = 0;

/// The operation was queued and completes later.
pub const PENDING: u8 = 1;

/// The key is not present.
pub const NOT_FOUND: u8 = 2;

/// The store ran out of memory for the operation.
pub const OUT_OF_MEMORY: u8 = 3;

/// An I/O error occurred.
pub const IO_ERROR: u8 = 4;

/// Stored data was found corrupted.
pub const CORRUPTION: u8 = 5;

/// The operation was aborted.
pub const ABORTED: u8 = 6;

} // verus!
