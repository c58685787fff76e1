//! Verified core of a raw-bytes key-value store binding: configuration
//! validation, the native configuration derived from it, the decisions made
//! around each call into the native store, the C strings that cross to it, and
//! the hand-off of read results from the native store to their waiters.
pub mod status;
pub mod units;
pub mod error;
pub mod cstr;
pub mod store;
pub mod builder;
pub mod read_slot;
pub mod config_laws;

pub use crate::builder::{
    FasterKvConfig, FasterKvConfigBuilder, HlogCompactionConfig, HlogCompactionConfigBuilder,
    NativeCompactionConfig, NativeConfig, NativeReadCacheConfig, ReadCacheConfig,
    ReadCacheConfigBuilder, LOG_PAGE_SIZE_BYTES,
};
pub use crate::error::{ConfigError, FasterError, ReadError};
pub use crate::read_slot::ReadSlot;
pub use crate::store::{CheckPoint, FasterKv, NativeCheckPoint, NativeRecover, Recover};
pub use crate::units::{Fraction, TimeSpan};
