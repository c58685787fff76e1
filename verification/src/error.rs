//! Errors reported by the library.
use vstd::prelude::*;

verus! {

/// Declares `std::io::Error`, which [`FasterError::IOError`] carries through unread.
#[verifier::external_type_specification]
#[verifier::external_body]
pub struct ExIoError(std::io::Error);

/// Why a configuration was refused; each kind carries the message that explains it.
#[derive(Clone, Copy, Debug, PartialEq, Eq, Structural)]
pub enum ConfigError {
    TableSizeNotPowerOfTwo,
    TableSizeTooLarge,
    LogSizeTooSmall,
    LogSizeUnaligned,
    LogSizeTooLarge,
    LogMutableFraction,
    StoragePathEmpty,
    StoragePathNul,
    ReadCacheTooSmall,
    ReadCacheUnaligned,
    ReadCacheTooLarge,
    ReadCacheMutableFraction,
    CompactionIntervalZero,
    CompactionIntervalTooLarge,
    CompactionTriggerPercent,
    CompactionPercent,
    CompactionMaxSizeZero,
    CompactionBudgetZero,
    CompactionThreadsZero,
    /// The native store refused to open with a configuration that passed validation.
    OpenFailed,
}

impl ConfigError {
    /// The message of this kind of refusal.
    pub open spec fn text(self) -> Seq<char> {
        match self {
            ConfigError::TableSizeNotPowerOfTwo => "Index table size must be a power of two"@,
            ConfigError::TableSizeTooLarge => "Index table size is too large"@,
            ConfigError::LogSizeTooSmall => "Log size must be at least one log page"@,
            ConfigError::LogSizeUnaligned => "Log size must be a multiple of the log page size"@,
            ConfigError::LogSizeTooLarge => "Log size is too large for the log page index"@,
            ConfigError::LogMutableFraction => "Log mutable fraction must be between 0 and 1"@,
            ConfigError::StoragePathEmpty => "Storage path must not be empty"@,
            ConfigError::StoragePathNul => "Storage path contains an interior NUL byte"@,
            ConfigError::ReadCacheTooSmall => "Read cache size must be at least one log page"@,
            ConfigError::ReadCacheUnaligned => "Read cache size must be a multiple of the log page size"@,
            ConfigError::ReadCacheTooLarge => "Read cache size is too large for the log page index"@,
            ConfigError::ReadCacheMutableFraction => "Read cache mutable fraction must be between 0 and 1"@,
            ConfigError::CompactionIntervalZero => "Compaction check interval must be greater than zero"@,
            ConfigError::CompactionIntervalTooLarge => "Compaction check interval is too large"@,
            ConfigError::CompactionTriggerPercent => "Compaction trigger percent must be between 0 and 1"@,
            ConfigError::CompactionPercent => "Compaction percent must be between 0 and 1"@,
            ConfigError::CompactionMaxSizeZero => "Compaction max compacted size must be greater than zero"@,
            ConfigError::CompactionBudgetZero => "Compaction log size budget must be greater than zero"@,
            ConfigError::CompactionThreadsZero => "Compaction thread count must be greater than zero"@,
            ConfigError::OpenFailed => "faster_open_with_config returned null"@,
        }
    }

    /// The message of this kind of refusal.
    pub fn message(&self) -> (m: &'static str)
        ensures
            m@ == self.text(),
    {
        match self {
            ConfigError::TableSizeNotPowerOfTwo => "Index table size must be a power of two",
            ConfigError::TableSizeTooLarge => "Index table size is too large",
            ConfigError::LogSizeTooSmall => "Log size must be at least one log page",
            ConfigError::LogSizeUnaligned => "Log size must be a multiple of the log page size",
            ConfigError::LogSizeTooLarge => "Log size is too large for the log page index",
            ConfigError::LogMutableFraction => "Log mutable fraction must be between 0 and 1",
            ConfigError::StoragePathEmpty => "Storage path must not be empty",
            ConfigError::StoragePathNul => "Storage path contains an interior NUL byte",
            ConfigError::ReadCacheTooSmall => "Read cache size must be at least one log page",
            ConfigError::ReadCacheUnaligned => "Read cache size must be a multiple of the log page size",
            ConfigError::ReadCacheTooLarge => "Read cache size is too large for the log page index",
            ConfigError::ReadCacheMutableFraction => "Read cache mutable fraction must be between 0 and 1",
            ConfigError::CompactionIntervalZero => "Compaction check interval must be greater than zero",
            ConfigError::CompactionIntervalTooLarge => "Compaction check interval is too large",
            ConfigError::CompactionTriggerPercent => "Compaction trigger percent must be between 0 and 1",
            ConfigError::CompactionPercent => "Compaction percent must be between 0 and 1",
            ConfigError::CompactionMaxSizeZero => "Compaction max compacted size must be greater than zero",
            ConfigError::CompactionBudgetZero => "Compaction log size budget must be greater than zero",
            ConfigError::CompactionThreadsZero => "Compaction thread count must be greater than zero",
            ConfigError::OpenFailed => "faster_open_with_config returned null",
        }
    }
}

/// Errors of the store's operations.
#[derive(Debug)]
pub enum FasterError {
    /// A file-system operation on the storage directory failed.
    IOError(std::io::Error),
    /// The operation needs a store that keeps its log on disk.
    InvalidType,
    /// The native store could not recover from the given checkpoints.
    RecoveryError,
    /// The native store could not take the checkpoint.
    CheckpointError,
    /// The configuration was refused.
    BuilderError(ConfigError),
}

/// The text that describes an error other than a file-system one.
pub open spec fn error_text(e: FasterError) -> Seq<char> {
    match e {
        FasterError::IOError(_) => Seq::empty(),
        FasterError::InvalidType => "Cannot call method with in-memory FasterKv"@,
        FasterError::RecoveryError => "Failed to recover"@,
        FasterError::CheckpointError => "Checkpoint failed"@,
        FasterError::BuilderError(k) => "Builder error: "@ + k.text(),
    }
}

impl FasterError {
    /// The text that describes the error.
    pub fn to_string(&self) -> (s: String)
        ensures
            !(self is IOError) ==> s@ == error_text(*self),
    {
        match self {
            FasterError::IOError(e) => e.to_string(),
            FasterError::InvalidType => "Cannot call method with in-memory FasterKv".to_owned(),
            FasterError::RecoveryError => "Failed to recover".to_owned(),
            FasterError::CheckpointError => "Checkpoint failed".to_owned(),
            FasterError::BuilderError(k) => {
                let mut s = "Builder error: ".to_owned();
                s.append(k.message());
                s
            },
        }
    }
}

/// Why a read produced no value.
#[derive(Clone, Copy, Debug, PartialEq, Eq, Structural)]
pub enum ReadError {
    /// The read completed with a status other than success.
    NotFound,
    /// The read succeeded but its value had already been taken.
    Empty,
}

} // verus!
