//! Store configuration: its builders, its validation, and the native
//! configuration the store is opened with.
use vstd::prelude::*;
use vstd::arithmetic::power2::is_pow2;
use crate::cstr::{c_string_bytes, c_string_of, nul_free};
use crate::error::{ConfigError, FasterError};
use crate::store::FasterKv;
use crate::units::{Fraction, TimeSpan, bits_in_unit_interval, NANOS_PER_MILLI};

verus! {

/// Size of one page of the hybrid log, in bytes; the native store uses this fixed size,
/// and the log and read-cache sizes must be whole numbers of pages.
pub const LOG_PAGE_SIZE_BYTES: u64 = 33_554_432;

/// Bit pattern of the `f64` value `0.9`, the default mutable fraction of the log.
pub const DEFAULT_LOG_MUTABLE_FRACTION_BITS: u64 = 0x3fec_cccc_cccc_cccd;

/// Index table size of the default store.
pub const DEFAULT_TABLE_SIZE: u64 = 32768;

/// Log size of the default store, in bytes.
pub const DEFAULT_LOG_SIZE: u64 = 1_073_741_824;

/// Read-cache configuration.
#[derive(Debug)]
pub struct ReadCacheConfig {
    /// Total read-cache memory size in bytes.
    pub mem_size: u64,
    /// Fraction of the read cache treated as "second chance" space, in (0, 1].
    pub mutable_fraction: Fraction,
    /// Whether to pre-allocate the read-cache log.
    pub pre_allocate: bool,
}

/// Hybrid-log compaction configuration.
#[derive(Debug)]
pub struct HlogCompactionConfig {
    /// How often to check whether compaction should run.
    pub check_interval: TimeSpan,
    /// Trigger compaction when the log reaches this fraction of the size budget.
    pub trigger_pct: Fraction,
    /// Fraction of the log to compact once compaction is triggered.
    pub compact_pct: Fraction,
    /// Maximum number of bytes to compact in a single run.
    pub max_compacted_size: u64,
    /// Total log size budget in bytes for triggering compaction.
    pub hlog_size_budget: u64,
    /// Number of threads to use for compaction.
    pub num_threads: u8,
}

/// Full store configuration.
#[derive(Debug)]
pub struct FasterKvConfig {
    /// Hash index size in number of buckets.
    pub table_size: u64,
    /// Hybrid-log in-memory size in bytes.
    pub log_size: u64,
    /// Storage directory for the hybrid log; `None` keeps the store in memory.
    pub storage_path: Option<String>,
    /// Fraction of the log treated as mutable in-memory space, in (0, 1].
    pub log_mutable_fraction: Fraction,
    /// Whether to pre-allocate the hybrid log on disk.
    pub pre_allocate_log: bool,
    /// Optional read-cache configuration.
    pub read_cache: Option<ReadCacheConfig>,
    /// Optional hybrid-log compaction configuration.
    pub hlog_compaction: Option<HlogCompactionConfig>,
}

/// Read-cache configuration as the native store receives it.
#[derive(Debug)]
pub struct NativeReadCacheConfig {
    pub enabled: bool,
    pub mem_size: u64,
    pub mutable_fraction: Fraction,
    pub pre_allocate: bool,
}

/// Compaction configuration as the native store receives it.
#[derive(Debug)]
pub struct NativeCompactionConfig {
    pub enabled: bool,
    pub check_interval_ms: u64,
    pub trigger_pct: Fraction,
    pub compact_pct: Fraction,
    pub max_compacted_size: u64,
    pub hlog_size_budget: u64,
    pub num_threads: u8,
}

/// Store configuration as the native store receives it.
#[derive(Debug)]
pub struct NativeConfig {
    pub table_size: u64,
    pub log_size: u64,
    /// The storage directory as a NUL-terminated C string.
    pub storage: Option<Vec<u8>>,
    pub log_mutable_fraction: Fraction,
    pub pre_allocate_log: bool,
    pub read_cache: NativeReadCacheConfig,
    pub hlog_compaction: NativeCompactionConfig,
}

/// The refusal of a size that must be a whole number of log pages, numbering at most
/// `u32::MAX`: `small`, `unaligned` and `large` name the three ways to fail.
pub open spec fn page_count_error(
    size: u64,
    small: ConfigError,
    unaligned: ConfigError,
    large: ConfigError,
) -> Option<ConfigError> {
    if size < LOG_PAGE_SIZE_BYTES {
        Some(small)
    } else if size % LOG_PAGE_SIZE_BYTES != 0 {
        Some(unaligned)
    } else if size / LOG_PAGE_SIZE_BYTES > u32::MAX {
        Some(large)
    } else {
        None
    }
}

/// The refusal of a storage directory, if any: it must be non-empty and hold no NUL.
pub open spec fn storage_error(path: Option<String>) -> Option<ConfigError> {
    match path {
        Some(p) => if p@.len() == 0 {
            Some(ConfigError::StoragePathEmpty)
        } else if !nul_free(p@) {
            Some(ConfigError::StoragePathNul)
        } else {
            None
        },
        None => None,
    }
}

/// The refusal of a read-cache configuration, if any.
pub open spec fn read_cache_error(read_cache: Option<ReadCacheConfig>) -> Option<ConfigError> {
    match read_cache {
        Some(rc) => match page_count_error(
            rc.mem_size,
            ConfigError::ReadCacheTooSmall,
            ConfigError::ReadCacheUnaligned,
            ConfigError::ReadCacheTooLarge,
        ) {
            Some(e) => Some(e),
            None => if !bits_in_unit_interval(rc.mutable_fraction.bits) {
                Some(ConfigError::ReadCacheMutableFraction)
            } else {
                None
            },
        },
        None => None,
    }
}

/// The refusal of a compaction configuration, if any.
pub open spec fn compaction_error(compaction: Option<HlogCompactionConfig>) -> Option<ConfigError> {
    match compaction {
        Some(hc) => if hc.check_interval@ == 0 {
            Some(ConfigError::CompactionIntervalZero)
        } else if hc.check_interval@ / (NANOS_PER_MILLI as nat) > u64::MAX {
            Some(ConfigError::CompactionIntervalTooLarge)
        } else if !bits_in_unit_interval(hc.trigger_pct.bits) {
            Some(ConfigError::CompactionTriggerPercent)
        } else if !bits_in_unit_interval(hc.compact_pct.bits) {
            Some(ConfigError::CompactionPercent)
        } else if hc.max_compacted_size == 0 {
            Some(ConfigError::CompactionMaxSizeZero)
        } else if hc.hlog_size_budget == 0 {
            Some(ConfigError::CompactionBudgetZero)
        } else if hc.num_threads == 0 {
            Some(ConfigError::CompactionThreadsZero)
        } else {
            None
        },
        None => None,
    }
}

/// The refusal of a configuration, if any: the first of its rules, in this order, that
/// the configuration breaks.
pub open spec fn config_error(c: FasterKvConfig) -> Option<ConfigError> {
    if !is_pow2(c.table_size as int) {
        Some(ConfigError::TableSizeNotPowerOfTwo)
    } else if c.table_size > i32::MAX {
        Some(ConfigError::TableSizeTooLarge)
    } else if page_count_error(
        c.log_size,
        ConfigError::LogSizeTooSmall,
        ConfigError::LogSizeUnaligned,
        ConfigError::LogSizeTooLarge,
    ) is Some {
        page_count_error(
            c.log_size,
            ConfigError::LogSizeTooSmall,
            ConfigError::LogSizeUnaligned,
            ConfigError::LogSizeTooLarge,
        )
    } else if !bits_in_unit_interval(c.log_mutable_fraction.bits) {
        Some(ConfigError::LogMutableFraction)
    } else if storage_error(c.storage_path) is Some {
        storage_error(c.storage_path)
    } else if read_cache_error(c.read_cache) is Some {
        read_cache_error(c.read_cache)
    } else {
        compaction_error(c.hlog_compaction)
    }
}

/// The native form of a read-cache configuration; an absent one is disabled and zeroed.
pub open spec fn native_read_cache_of(read_cache: Option<ReadCacheConfig>) -> NativeReadCacheConfig {
    match read_cache {
        Some(rc) => NativeReadCacheConfig {
            enabled: true,
            mem_size: rc.mem_size,
            mutable_fraction: rc.mutable_fraction,
            pre_allocate: rc.pre_allocate,
        },
        None => NativeReadCacheConfig {
            enabled: false,
            mem_size: 0,
            mutable_fraction: Fraction { bits: 0 },
            pre_allocate: false,
        },
    }
}

/// The native form of a compaction configuration; an absent one is disabled and zeroed.
/// The check interval is handed over in whole milliseconds.
pub open spec fn native_compaction_of(compaction: Option<HlogCompactionConfig>) -> NativeCompactionConfig {
    match compaction {
        Some(hc) => NativeCompactionConfig {
            enabled: true,
            check_interval_ms: (hc.check_interval@ / (NANOS_PER_MILLI as nat)) as u64,
            trigger_pct: hc.trigger_pct,
            compact_pct: hc.compact_pct,
            max_compacted_size: hc.max_compacted_size,
            hlog_size_budget: hc.hlog_size_budget,
            num_threads: hc.num_threads,
        },
        None => NativeCompactionConfig {
            enabled: false,
            check_interval_ms: 0,
            trigger_pct: Fraction { bits: 0 },
            compact_pct: Fraction { bits: 0 },
            max_compacted_size: 0,
            hlog_size_budget: 0,
            num_threads: 0,
        },
    }
}

/// Whether `n` is the native form of configuration `c`: the same sizes, fraction and
/// pre-allocation flag, the storage directory as its C string, and the native forms of
/// the read-cache and compaction configurations.
pub open spec fn native_config_matches(n: NativeConfig, c: FasterKvConfig) -> bool {
    &&& n.table_size == c.table_size
    &&& n.log_size == c.log_size
    &&& match c.storage_path {
        None => n.storage is None,
        Some(p) => n.storage matches Some(bytes) && c_string_of(p@) == Some(bytes@),
    }
    &&& n.log_mutable_fraction == c.log_mutable_fraction
    &&& n.pre_allocate_log == c.pre_allocate_log
    &&& n.read_cache == native_read_cache_of(c.read_cache)
    &&& n.hlog_compaction == native_compaction_of(c.hlog_compaction)
}

/// What opening a store with configuration `c` returns, given the native opener
/// `native_open`: a refused configuration is reported without opening anything;
/// otherwise the native store is opened with the native form of `c`, and the store
/// keeps the handle it returns and the configured storage directory.
pub open spec fn open_outcome<H, F: FnOnce(&NativeConfig) -> Option<H>>(
    c: FasterKvConfig,
    native_open: F,
    r: Result<FasterKv<H>, FasterError>,
) -> bool {
    match config_error(c) {
        Some(e) => r == Err::<FasterKv<H>, FasterError>(FasterError::BuilderError(e)),
        None => exists|n: NativeConfig, o: Option<H>|
            {
                &&& native_config_matches(n, c)
                &&& #[trigger] native_open.ensures((&n,), o)
                &&& match o {
                    None => r == Err::<FasterKv<H>, FasterError>(
                        FasterError::BuilderError(ConfigError::OpenFailed),
                    ),
                    Some(h) => r matches Ok(kv) && kv.native() == h && kv.storage()
                        == c.storage_path,
                }
            },
    }
}

/// Whether `n` is a power of two.
pub fn is_power_of_two(n: u64) -> (b: bool)
    ensures
        b == is_pow2(n as int),
{
    reveal(is_pow2);
    if n == 0 {
        return false;
    }
    let mut m: u64 = n;
    while m % 2 == 0
        invariant
            m > 0,
            is_pow2(m as int) == is_pow2(n as int),
        decreases m,
    {
        reveal(is_pow2);
        m = m / 2;
    }
    reveal(is_pow2);
    m == 1
}

/// The refusal of a size that must be a whole number of log pages.
fn check_page_count(size: u64, small: ConfigError, unaligned: ConfigError, large: ConfigError) -> (r:
    Option<ConfigError>)
    ensures
        r == page_count_error(size, small, unaligned, large),
{
    if size < LOG_PAGE_SIZE_BYTES {
        return Some(small);
    }
    if !size.is_multiple_of(LOG_PAGE_SIZE_BYTES) {
        return Some(unaligned);
    }
    if size / LOG_PAGE_SIZE_BYTES > u32::MAX as u64 {
        return Some(large);
    }
    None
}

impl FasterKvConfig {
    /// A builder for a configuration; the table size and the log size must be set.
    pub fn builder() -> (b: FasterKvConfigBuilder)
        ensures
            !b.has_table_size(),
            !b.has_log_size(),
            !b.has_log_mutable_fraction(),
            !b.has_pre_allocate_log(),
            b.config() == (FasterKvConfig {
                table_size: 0,
                log_size: 0,
                storage_path: None,
                log_mutable_fraction: Fraction { bits: DEFAULT_LOG_MUTABLE_FRACTION_BITS },
                pre_allocate_log: false,
                read_cache: None,
                hlog_compaction: None,
            }),
    {
        FasterKvConfigBuilder {
            table_size: None,
            log_size: None,
            storage_path: None,
            log_mutable_fraction: None,
            pre_allocate_log: None,
            read_cache: None,
            hlog_compaction: None,
        }
    }

    /// The builder of the default store: an index of [`DEFAULT_TABLE_SIZE`] buckets and a
    /// log of [`DEFAULT_LOG_SIZE`] bytes, kept in memory. Its configuration passes
    /// validation.
    pub fn default_builder() -> (b: FasterKvConfigBuilder)
        ensures
            b.is_complete(),
            b.config() == (FasterKvConfig {
                table_size: DEFAULT_TABLE_SIZE,
                log_size: DEFAULT_LOG_SIZE,
                storage_path: None,
                log_mutable_fraction: Fraction { bits: DEFAULT_LOG_MUTABLE_FRACTION_BITS },
                pre_allocate_log: false,
                read_cache: None,
                hlog_compaction: None,
            }),
            config_error(b.config()) is None,
    {
        let b = FasterKvConfig::builder().table_size(DEFAULT_TABLE_SIZE).log_size(DEFAULT_LOG_SIZE);
        assert(is_pow2(DEFAULT_TABLE_SIZE as int)) by {
            reveal_with_fuel(is_pow2, 17);
        }
        b
    }

    /// Checks the configuration against every rule, in order, and reports the first
    /// one it breaks.
    pub fn validate(&self) -> (r: Result<(), FasterError>)
        ensures
            match config_error(*self) {
                None => r is Ok,
                Some(e) => r == Err::<(), FasterError>(FasterError::BuilderError(e)),
            },
    {
        if !is_power_of_two(self.table_size) {
            return Err(FasterError::BuilderError(ConfigError::TableSizeNotPowerOfTwo));
        }
        if self.table_size > i32::MAX as u64 {
            return Err(FasterError::BuilderError(ConfigError::TableSizeTooLarge));
        }
        if let Some(e) = check_page_count(
            self.log_size,
            ConfigError::LogSizeTooSmall,
            ConfigError::LogSizeUnaligned,
            ConfigError::LogSizeTooLarge,
        ) {
            return Err(FasterError::BuilderError(e));
        }
        if !self.log_mutable_fraction.in_unit_interval() {
            return Err(FasterError::BuilderError(ConfigError::LogMutableFraction));
        }
        if let Some(path) = &self.storage_path {
            if path.as_str().is_empty() {
                return Err(FasterError::BuilderError(ConfigError::StoragePathEmpty));
            }
            if c_string_bytes(path.as_str()).is_none() {
                return Err(FasterError::BuilderError(ConfigError::StoragePathNul));
            }
        }
        if let Some(read_cache) = &self.read_cache {
            if let Some(e) = check_page_count(
                read_cache.mem_size,
                ConfigError::ReadCacheTooSmall,
                ConfigError::ReadCacheUnaligned,
                ConfigError::ReadCacheTooLarge,
            ) {
                return Err(FasterError::BuilderError(e));
            }
            if !read_cache.mutable_fraction.in_unit_interval() {
                return Err(FasterError::BuilderError(ConfigError::ReadCacheMutableFraction));
            }
        }
        if let Some(hlog_compaction) = &self.hlog_compaction {
            if hlog_compaction.check_interval.is_zero() {
                return Err(FasterError::BuilderError(ConfigError::CompactionIntervalZero));
            }
            if hlog_compaction.check_interval.as_millis() > u64::MAX as u128 {
                return Err(FasterError::BuilderError(ConfigError::CompactionIntervalTooLarge));
            }
            if !hlog_compaction.trigger_pct.in_unit_interval() {
                return Err(FasterError::BuilderError(ConfigError::CompactionTriggerPercent));
            }
            if !hlog_compaction.compact_pct.in_unit_interval() {
                return Err(FasterError::BuilderError(ConfigError::CompactionPercent));
            }
            if hlog_compaction.max_compacted_size == 0 {
                return Err(FasterError::BuilderError(ConfigError::CompactionMaxSizeZero));
            }
            if hlog_compaction.hlog_size_budget == 0 {
                return Err(FasterError::BuilderError(ConfigError::CompactionBudgetZero));
            }
            if hlog_compaction.num_threads == 0 {
                return Err(FasterError::BuilderError(ConfigError::CompactionThreadsZero));
            }
        }
        Ok(())
    }

    /// The native form of the configuration; its storage directory must hold no NUL.
    pub fn native_config(&self) -> (n: NativeConfig)
        requires
            self.storage_path matches Some(p) ==> nul_free(p@),
        ensures
            native_config_matches(n, *self),
    {
        let storage = match &self.storage_path {
            Some(path) => Some(c_string_bytes(path.as_str()).unwrap()),
            None => None,
        };
        let read_cache = match &self.read_cache {
            Some(read_cache) => NativeReadCacheConfig {
                enabled: true,
                mem_size: read_cache.mem_size,
                mutable_fraction: read_cache.mutable_fraction,
                pre_allocate: read_cache.pre_allocate,
            },
            None => NativeReadCacheConfig {
                enabled: false,
                mem_size: 0,
                mutable_fraction: Fraction::zero(),
                pre_allocate: false,
            },
        };
        let hlog_compaction = match &self.hlog_compaction {
            Some(hlog_compaction) => NativeCompactionConfig {
                enabled: true,
                check_interval_ms: hlog_compaction.check_interval.as_millis() as u64,
                trigger_pct: hlog_compaction.trigger_pct,
                compact_pct: hlog_compaction.compact_pct,
                max_compacted_size: hlog_compaction.max_compacted_size,
                hlog_size_budget: hlog_compaction.hlog_size_budget,
                num_threads: hlog_compaction.num_threads,
            },
            None => NativeCompactionConfig {
                enabled: false,
                check_interval_ms: 0,
                trigger_pct: Fraction::zero(),
                compact_pct: Fraction::zero(),
                max_compacted_size: 0,
                hlog_size_budget: 0,
                num_threads: 0,
            },
        };
        NativeConfig {
            table_size: self.table_size,
            log_size: self.log_size,
            storage,
            log_mutable_fraction: self.log_mutable_fraction,
            pre_allocate_log: self.pre_allocate_log,
            read_cache,
            hlog_compaction,
        }
    }

    /// Validates the configuration and, if it passes, opens the native store with its
    /// native form through `native_open`, which returns the native handle or `None`
    /// where the native store could not be opened.
    pub fn open<H, F: FnOnce(&NativeConfig) -> Option<H>>(&self, native_open: F) -> (r: Result<
        FasterKv<H>,
        FasterError,
    >)
        requires
            config_error(*self) is None ==> forall|n: &NativeConfig| native_open.requires((n,)),
        ensures
            open_outcome(*self, native_open, r),
    {
        if let Err(e) = self.validate() {
            return Err(e);
        }
        let native = self.native_config();
        let opened = native_open(&native);
        match opened {
            None => Err(FasterError::BuilderError(ConfigError::OpenFailed)),
            Some(handle) => {
                let storage_dir = match &self.storage_path {
                    Some(path) => Some(path.clone()),
                    None => None,
                };
                Ok(FasterKv::new(handle, storage_dir))
            },
        }
    }
}

/// Builder of a [`FasterKvConfig`]; the table size and the log size must be set, the
/// other settings have defaults.
pub struct FasterKvConfigBuilder {
    table_size: Option<u64>,
    log_size: Option<u64>,
    storage_path: Option<String>,
    log_mutable_fraction: Option<Fraction>,
    pre_allocate_log: Option<bool>,
    read_cache: Option<ReadCacheConfig>,
    hlog_compaction: Option<HlogCompactionConfig>,
}

impl FasterKvConfigBuilder {
    /// Whether the table size has been set.
    pub closed spec fn has_table_size(&self) -> bool {
        self.table_size is Some
    }

    /// Whether the log size has been set.
    pub closed spec fn has_log_size(&self) -> bool {
        self.log_size is Some
    }

    /// Whether the log's mutable fraction has been set.
    pub closed spec fn has_log_mutable_fraction(&self) -> bool {
        self.log_mutable_fraction is Some
    }

    /// Whether pre-allocation of the log has been set.
    pub closed spec fn has_pre_allocate_log(&self) -> bool {
        self.pre_allocate_log is Some
    }

    /// Whether every setting without a default has been set.
    pub open spec fn is_complete(&self) -> bool {
        self.has_table_size() && self.has_log_size()
    }

    /// The configuration built so far, with defaults for what is not set (and zero for
    /// a size that is not set yet).
    pub closed spec fn config(&self) -> FasterKvConfig {
        FasterKvConfig {
            table_size: match self.table_size {
                Some(v) => v,
                None => 0,
            },
            log_size: match self.log_size {
                Some(v) => v,
                None => 0,
            },
            storage_path: self.storage_path,
            log_mutable_fraction: match self.log_mutable_fraction {
                Some(v) => v,
                None => Fraction { bits: DEFAULT_LOG_MUTABLE_FRACTION_BITS },
            },
            pre_allocate_log: match self.pre_allocate_log {
                Some(v) => v,
                None => false,
            },
            read_cache: self.read_cache,
            hlog_compaction: self.hlog_compaction,
        }
    }

    /// Whether every setting without a default has been set, so that the builder can build.
    pub fn is_ready(&self) -> (b: bool)
        ensures
            b == self.is_complete(),
    {
        self.table_size.is_some() && self.log_size.is_some()
    }

    /// Sets the hash index size, in buckets.
    pub fn table_size(self, table_size: u64) -> (b: Self)
        ensures
            b.config() == (FasterKvConfig { table_size, ..self.config() }),
            b.has_table_size(),
            b.has_log_size() == self.has_log_size(),
    {
        FasterKvConfigBuilder { table_size: Some(table_size), ..self }
    }

    /// Sets the in-memory size of the hybrid log, in bytes.
    pub fn log_size(self, log_size: u64) -> (b: Self)
        ensures
            b.config() == (FasterKvConfig { log_size, ..self.config() }),
            b.has_table_size() == self.has_table_size(),
            b.has_log_size(),
    {
        FasterKvConfigBuilder { log_size: Some(log_size), ..self }
    }

    /// Sets the storage directory of the hybrid log.
    pub fn storage_path(self, storage_path: String) -> (b: Self)
        ensures
            b.config() == (FasterKvConfig { storage_path: Some(storage_path), ..self.config() }),
            b.has_table_size() == self.has_table_size(),
            b.has_log_size() == self.has_log_size(),
    {
        FasterKvConfigBuilder { storage_path: Some(storage_path), ..self }
    }

    /// Sets the mutable fraction of the hybrid log.
    pub fn log_mutable_fraction(self, log_mutable_fraction: Fraction) -> (b: Self)
        ensures
            b.config() == (FasterKvConfig { log_mutable_fraction, ..self.config() }),
            b.has_table_size() == self.has_table_size(),
            b.has_log_size() == self.has_log_size(),
    {
        FasterKvConfigBuilder { log_mutable_fraction: Some(log_mutable_fraction), ..self }
    }

    /// Sets whether the hybrid log is pre-allocated on disk.
    pub fn pre_allocate_log(self, pre_allocate_log: bool) -> (b: Self)
        ensures
            b.config() == (FasterKvConfig { pre_allocate_log, ..self.config() }),
            b.has_table_size() == self.has_table_size(),
            b.has_log_size() == self.has_log_size(),
    {
        FasterKvConfigBuilder { pre_allocate_log: Some(pre_allocate_log), ..self }
    }

    /// Sets the read-cache configuration.
    pub fn read_cache(self, read_cache: ReadCacheConfig) -> (b: Self)
        ensures
            b.config() == (FasterKvConfig { read_cache: Some(read_cache), ..self.config() }),
            b.has_table_size() == self.has_table_size(),
            b.has_log_size() == self.has_log_size(),
    {
        FasterKvConfigBuilder { read_cache: Some(read_cache), ..self }
    }

    /// Sets the compaction configuration.
    pub fn hlog_compaction(self, hlog_compaction: HlogCompactionConfig) -> (b: Self)
        ensures
            b.config() == (FasterKvConfig {
                hlog_compaction: Some(hlog_compaction),
                ..self.config()
            }),
            b.has_table_size() == self.has_table_size(),
            b.has_log_size() == self.has_log_size(),
    {
        FasterKvConfigBuilder { hlog_compaction: Some(hlog_compaction), ..self }
    }

    fn build_internal(self) -> (c: FasterKvConfig)
        requires
            self.is_complete(),
        ensures
            c == self.config(),
    {
        FasterKvConfig {
            table_size: self.table_size.unwrap(),
            log_size: self.log_size.unwrap(),
            storage_path: self.storage_path,
            log_mutable_fraction: match self.log_mutable_fraction {
                Some(v) => v,
                None => Fraction::from_bits(DEFAULT_LOG_MUTABLE_FRACTION_BITS),
            },
            pre_allocate_log: match self.pre_allocate_log {
                Some(v) => v,
                None => false,
            },
            read_cache: self.read_cache,
            hlog_compaction: self.hlog_compaction,
        }
    }

    /// Builds the configuration and opens the store with it through `native_open`.
    pub fn build<H, F: FnOnce(&NativeConfig) -> Option<H>>(self, native_open: F) -> (r: Result<
        FasterKv<H>,
        FasterError,
    >)
        requires
            self.is_complete(),
            config_error(self.config()) is None ==> forall|n: &NativeConfig| native_open.requires(
                (n,),
            ),
        ensures
            open_outcome(self.config(), native_open, r),
    {
        let config = self.build_internal();
        config.open(native_open)
    }
}

/// Defaults of the store configuration: a builder whose log mutable fraction is not set
/// builds the fraction `0.9` (bit pattern `0x3fec_cccc_cccc_cccd`), one whose log
/// pre-allocation is not set does not pre-allocate the log, and a fresh builder keeps the
/// store in memory with neither read cache nor compaction.
pub proof fn lemma_store_config_defaults(b: FasterKvConfigBuilder)
    ensures
        !b.has_log_mutable_fraction() ==> b.config().log_mutable_fraction.bits
            == 0x3fec_cccc_cccc_cccd,
        !b.has_pre_allocate_log() ==> !b.config().pre_allocate_log,
{
}

/// Default of the read-cache configuration: a builder whose pre-allocation is not set
/// builds a read cache that is not pre-allocated.
pub proof fn lemma_read_cache_defaults(b: ReadCacheConfigBuilder)
    ensures
        !b.has_pre_allocate() ==> !b.config().pre_allocate,
{
}

/// Builder of a [`ReadCacheConfig`]; the memory size and the mutable fraction must be set.
pub struct ReadCacheConfigBuilder {
    mem_size: Option<u64>,
    mutable_fraction: Option<Fraction>,
    pre_allocate: Option<bool>,
}

impl ReadCacheConfig {
    /// A builder for a read-cache configuration, with none of its settings set.
    pub fn builder() -> (b: ReadCacheConfigBuilder)
        ensures
            !b.is_complete(),
            !b.has_mem_size(),
            !b.has_mutable_fraction(),
            !b.has_pre_allocate(),
            b.config() == (ReadCacheConfig {
                mem_size: 0,
                mutable_fraction: Fraction { bits: 0 },
                pre_allocate: false,
            }),
    {
        ReadCacheConfigBuilder { mem_size: None, mutable_fraction: None, pre_allocate: None }
    }
}

impl ReadCacheConfigBuilder {
    /// Whether every setting without a default has been set.
    pub closed spec fn is_complete(&self) -> bool {
        self.mem_size is Some && self.mutable_fraction is Some
    }

    /// Whether the memory size has been set.
    pub closed spec fn has_mem_size(&self) -> bool {
        self.mem_size is Some
    }

    /// Whether the mutable fraction has been set.
    pub closed spec fn has_mutable_fraction(&self) -> bool {
        self.mutable_fraction is Some
    }

    /// Whether pre-allocation has been set.
    pub closed spec fn has_pre_allocate(&self) -> bool {
        self.pre_allocate is Some
    }

    /// The configuration built so far, with defaults for what is not set.
    pub closed spec fn config(&self) -> ReadCacheConfig {
        ReadCacheConfig {
            mem_size: match self.mem_size {
                Some(v) => v,
                None => 0,
            },
            mutable_fraction: match self.mutable_fraction {
                Some(v) => v,
                None => Fraction { bits: 0 },
            },
            pre_allocate: match self.pre_allocate {
                Some(v) => v,
                None => false,
            },
        }
    }

    /// Whether every setting without a default has been set, so that the builder can build.
    pub fn is_ready(&self) -> (b: bool)
        ensures
            b == self.is_complete(),
    {
        self.mem_size.is_some() && self.mutable_fraction.is_some()
    }

    /// Sets the read-cache memory size, in bytes.
    pub fn mem_size(self, mem_size: u64) -> (b: Self)
        ensures
            b.config() == (ReadCacheConfig { mem_size, ..self.config() }),
            b.is_complete() == self.has_mutable_fraction(),
            b.has_mutable_fraction() == self.has_mutable_fraction(),
            b.has_pre_allocate() == self.has_pre_allocate(),
            b.has_mem_size(),
    {
        ReadCacheConfigBuilder { mem_size: Some(mem_size), ..self }
    }

    /// Sets the mutable fraction of the read cache.
    pub fn mutable_fraction(self, mutable_fraction: Fraction) -> (b: Self)
        ensures
            b.config() == (ReadCacheConfig { mutable_fraction, ..self.config() }),
            b.is_complete() == self.has_mem_size(),
            b.has_mem_size() == self.has_mem_size(),
            b.has_pre_allocate() == self.has_pre_allocate(),
            b.has_mutable_fraction(),
    {
        ReadCacheConfigBuilder { mutable_fraction: Some(mutable_fraction), ..self }
    }

    /// Sets whether the read-cache log is pre-allocated.
    pub fn pre_allocate(self, pre_allocate: bool) -> (b: Self)
        ensures
            b.config() == (ReadCacheConfig { pre_allocate, ..self.config() }),
            b.is_complete() == self.is_complete(),
            b.has_mem_size() == self.has_mem_size(),
            b.has_mutable_fraction() == self.has_mutable_fraction(),
            b.has_pre_allocate(),
    {
        ReadCacheConfigBuilder { pre_allocate: Some(pre_allocate), ..self }
    }

    /// The read-cache configuration.
    pub fn build(self) -> (c: ReadCacheConfig)
        requires
            self.is_complete(),
        ensures
            c == self.config(),
    {
        ReadCacheConfig {
            mem_size: self.mem_size.unwrap(),
            mutable_fraction: self.mutable_fraction.unwrap(),
            pre_allocate: match self.pre_allocate {
                Some(v) => v,
                None => false,
            },
        }
    }
}

/// Builder of an [`HlogCompactionConfig`]; every setting must be set.
pub struct HlogCompactionConfigBuilder {
    check_interval: Option<TimeSpan>,
    trigger_pct: Option<Fraction>,
    compact_pct: Option<Fraction>,
    max_compacted_size: Option<u64>,
    hlog_size_budget: Option<u64>,
    num_threads: Option<u8>,
}

impl HlogCompactionConfig {
    /// A builder for a compaction configuration, with none of its settings set.
    pub fn builder() -> (b: HlogCompactionConfigBuilder)
        ensures
            b.set_count() == 0,
            !b.has_check_interval(),
            !b.has_trigger_pct(),
            !b.has_compact_pct(),
            !b.has_max_compacted_size(),
            !b.has_hlog_size_budget(),
            !b.has_num_threads(),
            b.config() == (HlogCompactionConfig {
                check_interval: TimeSpan::spec_zero(),
                trigger_pct: Fraction { bits: 0 },
                compact_pct: Fraction { bits: 0 },
                max_compacted_size: 0,
                hlog_size_budget: 0,
                num_threads: 0,
            }),
    {
        HlogCompactionConfigBuilder {
            check_interval: None,
            trigger_pct: None,
            compact_pct: None,
            max_compacted_size: None,
            hlog_size_budget: None,
            num_threads: None,
        }
    }
}

impl HlogCompactionConfigBuilder {
    /// How many of the six settings have been set.
    pub closed spec fn set_count(&self) -> nat {
        (if self.check_interval is Some { 1nat } else { 0nat }) + (if self.trigger_pct is Some {
            1nat
        } else {
            0nat
        }) + (if self.compact_pct is Some { 1nat } else { 0nat }) + (if self.max_compacted_size is Some {
            1nat
        } else {
            0nat
        }) + (if self.hlog_size_budget is Some { 1nat } else { 0nat }) + (if self.num_threads is Some {
            1nat
        } else {
            0nat
        })
    }

    /// Whether every setting has been set.
    pub open spec fn is_complete(&self) -> bool {
        self.set_count() == 6
    }

    /// Whether the check interval has been set.
    pub closed spec fn has_check_interval(&self) -> bool {
        self.check_interval is Some
    }

    /// Whether the trigger fraction has been set.
    pub closed spec fn has_trigger_pct(&self) -> bool {
        self.trigger_pct is Some
    }

    /// Whether the compaction fraction has been set.
    pub closed spec fn has_compact_pct(&self) -> bool {
        self.compact_pct is Some
    }

    /// Whether the largest compaction size has been set.
    pub closed spec fn has_max_compacted_size(&self) -> bool {
        self.max_compacted_size is Some
    }

    /// Whether the log size budget has been set.
    pub closed spec fn has_hlog_size_budget(&self) -> bool {
        self.hlog_size_budget is Some
    }

    /// Whether the thread count has been set.
    pub closed spec fn has_num_threads(&self) -> bool {
        self.num_threads is Some
    }

    /// The configuration built so far, with zero for what is not set.
    pub closed spec fn config(&self) -> HlogCompactionConfig {
        HlogCompactionConfig {
            check_interval: match self.check_interval {
                Some(v) => v,
                None => TimeSpan::spec_zero(),
            },
            trigger_pct: match self.trigger_pct {
                Some(v) => v,
                None => Fraction { bits: 0 },
            },
            compact_pct: match self.compact_pct {
                Some(v) => v,
                None => Fraction { bits: 0 },
            },
            max_compacted_size: match self.max_compacted_size {
                Some(v) => v,
                None => 0,
            },
            hlog_size_budget: match self.hlog_size_budget {
                Some(v) => v,
                None => 0,
            },
            num_threads: match self.num_threads {
                Some(v) => v,
                None => 0,
            },
        }
    }

    /// Whether every setting has been set, so that the builder can build.
    pub fn is_ready(&self) -> (b: bool)
        ensures
            b == self.is_complete(),
    {
        self.check_interval.is_some() && self.trigger_pct.is_some() && self.compact_pct.is_some()
            && self.max_compacted_size.is_some() && self.hlog_size_budget.is_some()
            && self.num_threads.is_some()
    }

    /// Sets how often to check whether compaction should run.
    pub fn check_interval(self, check_interval: TimeSpan) -> (b: Self)
        ensures
            b.config() == (HlogCompactionConfig { check_interval, ..self.config() }),
            b.has_check_interval(),
            b.has_trigger_pct() == self.has_trigger_pct(),
            b.has_compact_pct() == self.has_compact_pct(),
            b.has_max_compacted_size() == self.has_max_compacted_size(),
            b.has_hlog_size_budget() == self.has_hlog_size_budget(),
            b.has_num_threads() == self.has_num_threads(),
            b.set_count() == self.set_count() + if self.has_check_interval() { 0nat } else { 1nat },
    {
        HlogCompactionConfigBuilder { check_interval: Some(check_interval), ..self }
    }

    /// Sets the fraction of the size budget at which compaction is triggered.
    pub fn trigger_pct(self, trigger_pct: Fraction) -> (b: Self)
        ensures
            b.config() == (HlogCompactionConfig { trigger_pct, ..self.config() }),
            b.has_trigger_pct(),
            b.has_check_interval() == self.has_check_interval(),
            b.has_compact_pct() == self.has_compact_pct(),
            b.has_max_compacted_size() == self.has_max_compacted_size(),
            b.has_hlog_size_budget() == self.has_hlog_size_budget(),
            b.has_num_threads() == self.has_num_threads(),
            b.set_count() == self.set_count() + if self.has_trigger_pct() { 0nat } else { 1nat },
    {
        HlogCompactionConfigBuilder { trigger_pct: Some(trigger_pct), ..self }
    }

    /// Sets the fraction of the log to compact.
    pub fn compact_pct(self, compact_pct: Fraction) -> (b: Self)
        ensures
            b.config() == (HlogCompactionConfig { compact_pct, ..self.config() }),
            b.has_compact_pct(),
            b.has_check_interval() == self.has_check_interval(),
            b.has_trigger_pct() == self.has_trigger_pct(),
            b.has_max_compacted_size() == self.has_max_compacted_size(),
            b.has_hlog_size_budget() == self.has_hlog_size_budget(),
            b.has_num_threads() == self.has_num_threads(),
            b.set_count() == self.set_count() + if self.has_compact_pct() { 0nat } else { 1nat },
    {
        HlogCompactionConfigBuilder { compact_pct: Some(compact_pct), ..self }
    }

    /// Sets the largest number of bytes compacted in one run.
    pub fn max_compacted_size(self, max_compacted_size: u64) -> (b: Self)
        ensures
            b.config() == (HlogCompactionConfig { max_compacted_size, ..self.config() }),
            b.has_max_compacted_size(),
            b.has_check_interval() == self.has_check_interval(),
            b.has_trigger_pct() == self.has_trigger_pct(),
            b.has_compact_pct() == self.has_compact_pct(),
            b.has_hlog_size_budget() == self.has_hlog_size_budget(),
            b.has_num_threads() == self.has_num_threads(),
            b.set_count() == self.set_count() + if self.has_max_compacted_size() {
                0nat
            } else {
                1nat
            },
    {
        HlogCompactionConfigBuilder { max_compacted_size: Some(max_compacted_size), ..self }
    }

    /// Sets the log size budget, in bytes.
    pub fn hlog_size_budget(self, hlog_size_budget: u64) -> (b: Self)
        ensures
            b.config() == (HlogCompactionConfig { hlog_size_budget, ..self.config() }),
            b.has_hlog_size_budget(),
            b.has_check_interval() == self.has_check_interval(),
            b.has_trigger_pct() == self.has_trigger_pct(),
            b.has_compact_pct() == self.has_compact_pct(),
            b.has_max_compacted_size() == self.has_max_compacted_size(),
            b.has_num_threads() == self.has_num_threads(),
            b.set_count() == self.set_count() + if self.has_hlog_size_budget() {
                0nat
            } else {
                1nat
            },
    {
        HlogCompactionConfigBuilder { hlog_size_budget: Some(hlog_size_budget), ..self }
    }

    /// Sets the number of compaction threads.
    pub fn num_threads(self, num_threads: u8) -> (b: Self)
        ensures
            b.config() == (HlogCompactionConfig { num_threads, ..self.config() }),
            b.has_num_threads(),
            b.has_check_interval() == self.has_check_interval(),
            b.has_trigger_pct() == self.has_trigger_pct(),
            b.has_compact_pct() == self.has_compact_pct(),
            b.has_max_compacted_size() == self.has_max_compacted_size(),
            b.has_hlog_size_budget() == self.has_hlog_size_budget(),
            b.set_count() == self.set_count() + if self.has_num_threads() { 0nat } else { 1nat },
    {
        HlogCompactionConfigBuilder { num_threads: Some(num_threads), ..self }
    }

    /// The compaction configuration.
    pub fn build(self) -> (c: HlogCompactionConfig)
        requires
            self.is_complete(),
        ensures
            c == self.config(),
    {
        HlogCompactionConfig {
            check_interval: self.check_interval.unwrap(),
            trigger_pct: self.trigger_pct.unwrap(),
            compact_pct: self.compact_pct.unwrap(),
            max_compacted_size: self.max_compacted_size.unwrap(),
            hlog_size_budget: self.hlog_size_budget.unwrap(),
            num_threads: self.num_threads.unwrap(),
        }
    }
}

} // verus!
