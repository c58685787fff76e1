//! Laws of configuration validation and of the native configuration, stated
//! directly over the settings with plain arithmetic.
use vstd::prelude::*;
use vstd::arithmetic::power2::is_pow2;
use vstd::utf8::encode_utf8;
use crate::builder::{
    config_error, native_config_matches, page_count_error, FasterKvConfig, HlogCompactionConfig,
    NativeConfig, ReadCacheConfig,
};
use crate::cstr::c_string_of;
use crate::error::ConfigError;
use crate::units::Fraction;

verus! {

/// The bytes in `k` log pages of 32 MiB.
pub open spec fn pages_bytes(k: int) -> int {
    k * 0x200_0000
}

/// Whether `size` is a whole number of 32 MiB log pages, from one page up to `u32::MAX`
/// pages.
pub open spec fn whole_page_count(size: u64) -> bool {
    exists|k: int| 1 <= k <= 0xffff_ffff && size == #[trigger] pages_bytes(k)
}

/// Whether a fraction lies in (0, 1]: its bit pattern is positive and at most that of
/// `1.0`.
pub open spec fn unit_fraction(f: Fraction) -> bool {
    0 < f.bits && f.bits <= 0x3ff0_0000_0000_0000
}

/// Whether the UTF-8 encoding of `text` holds a NUL byte.
pub open spec fn encodes_nul(text: Seq<char>) -> bool {
    exists|i: int| 0 <= i < encode_utf8(text).len() && encode_utf8(text)[i] == 0
}

/// Whether the table size is a power of two that fits an `i32`.
pub open spec fn table_size_ok(c: FasterKvConfig) -> bool {
    is_pow2(c.table_size as int) && c.table_size <= 0x7fff_ffff
}

/// Whether a storage directory, if any, is non-empty and has no NUL byte.
pub open spec fn storage_ok(c: FasterKvConfig) -> bool {
    c.storage_path matches Some(p) ==> p@.len() > 0 && !encodes_nul(p@)
}

/// Whether a read cache, if any, is a whole number of pages with a fraction in (0, 1].
pub open spec fn read_cache_ok(c: FasterKvConfig) -> bool {
    c.read_cache matches Some(rc) ==> whole_page_count(rc.mem_size) && unit_fraction(
        rc.mutable_fraction,
    )
}

/// Whether a compaction configuration, if any, has a non-empty check interval of at most
/// `u64::MAX` whole milliseconds, fractions in (0, 1], and positive sizes and thread count.
pub open spec fn compaction_ok(c: FasterKvConfig) -> bool {
    c.hlog_compaction matches Some(hc) ==> {
        &&& hc.check_interval@ > 0
        &&& hc.check_interval@ < 0x1_0000_0000_0000_0000 * 1_000_000
        &&& unit_fraction(hc.trigger_pct)
        &&& unit_fraction(hc.compact_pct)
        &&& hc.max_compacted_size > 0
        &&& hc.hlog_size_budget > 0
        &&& hc.num_threads > 0
    }
}

/// The size rules accept exactly the whole page counts from one page up to `u32::MAX`
/// pages, and refuse any other size for the reason it fails: below one page, not a whole
/// number of pages, or too many pages.
pub proof fn lemma_page_count_rules(
    size: u64,
    small: ConfigError,
    unaligned: ConfigError,
    large: ConfigError,
)
    ensures
        page_count_error(size, small, unaligned, large) is None <==> whole_page_count(size),
        size < 0x200_0000 ==> page_count_error(size, small, unaligned, large) == Some(small),
        size >= 0x200_0000 && size % 0x200_0000 != 0 ==> page_count_error(
            size,
            small,
            unaligned,
            large,
        ) == Some(unaligned),
        size % 0x200_0000 == 0 && size > 0xffff_ffff * 0x200_0000 ==> page_count_error(
            size,
            small,
            unaligned,
            large,
        ) == Some(large),
{
    if page_count_error(size, small, unaligned, large) is None {
        let k = size / 0x200_0000;
        assert(size == pages_bytes(k as int));
        assert(1 <= k <= 0xffff_ffff);
    }
    if whole_page_count(size) {
        let k = choose|k: int| 1 <= k <= 0xffff_ffff && size == #[trigger] pages_bytes(k);
        assert(size % 0x200_0000 == 0);
        assert(size / 0x200_0000 == k);
    }
}

/// A configuration passes validation exactly when every setting is acceptable: a
/// power-of-two table size that fits an `i32`, a log of whole pages, fractions in (0, 1],
/// a usable storage directory, and acceptable read-cache and compaction settings.
pub proof fn lemma_validation_accepts_exactly(c: FasterKvConfig)
    ensures
        config_error(c) is None <==> {
            &&& table_size_ok(c)
            &&& whole_page_count(c.log_size)
            &&& unit_fraction(c.log_mutable_fraction)
            &&& storage_ok(c)
            &&& read_cache_ok(c)
            &&& compaction_ok(c)
        },
{
    lemma_page_count_rules(
        c.log_size,
        ConfigError::LogSizeTooSmall,
        ConfigError::LogSizeUnaligned,
        ConfigError::LogSizeTooLarge,
    );
    if let Some(rc) = c.read_cache {
        lemma_page_count_rules(
            rc.mem_size,
            ConfigError::ReadCacheTooSmall,
            ConfigError::ReadCacheUnaligned,
            ConfigError::ReadCacheTooLarge,
        );
    }
}

/// The table-size rules come first: a size that is not a power of two is refused as such,
/// and a power of two above `i32::MAX` as too large.
pub proof fn lemma_table_size_rules(c: FasterKvConfig)
    ensures
        !is_pow2(c.table_size as int) ==> config_error(c) == Some(ConfigError::TableSizeNotPowerOfTwo),
        is_pow2(c.table_size as int) && c.table_size > 0x7fff_ffff ==> config_error(c) == Some(
            ConfigError::TableSizeTooLarge,
        ),
{
}

/// With an acceptable table size, the log size is checked next, and then the log's mutable
/// fraction.
pub proof fn lemma_log_rules(c: FasterKvConfig)
    requires
        table_size_ok(c),
    ensures
        c.log_size < 0x200_0000 ==> config_error(c) == Some(ConfigError::LogSizeTooSmall),
        c.log_size >= 0x200_0000 && c.log_size % 0x200_0000 != 0 ==> config_error(c) == Some(
            ConfigError::LogSizeUnaligned,
        ),
        c.log_size % 0x200_0000 == 0 && c.log_size > 0xffff_ffff * 0x200_0000 ==> config_error(c)
            == Some(ConfigError::LogSizeTooLarge),
        whole_page_count(c.log_size) && !unit_fraction(c.log_mutable_fraction) ==> config_error(c)
            == Some(ConfigError::LogMutableFraction),
{
    lemma_page_count_rules(
        c.log_size,
        ConfigError::LogSizeTooSmall,
        ConfigError::LogSizeUnaligned,
        ConfigError::LogSizeTooLarge,
    );
}

/// With acceptable table and log settings, the storage directory is checked next: an
/// empty one is refused as empty, and one whose encoding holds a NUL byte for that NUL.
pub proof fn lemma_storage_rules(c: FasterKvConfig)
    requires
        table_size_ok(c),
        whole_page_count(c.log_size),
        unit_fraction(c.log_mutable_fraction),
    ensures
        c.storage_path matches Some(p) && p@.len() == 0 ==> config_error(c) == Some(
            ConfigError::StoragePathEmpty,
        ),
        c.storage_path matches Some(p) && p@.len() > 0 && encodes_nul(p@) ==> config_error(c)
            == Some(ConfigError::StoragePathNul),
{
    lemma_page_count_rules(
        c.log_size,
        ConfigError::LogSizeTooSmall,
        ConfigError::LogSizeUnaligned,
        ConfigError::LogSizeTooLarge,
    );
}

/// With acceptable table, log and storage settings, the read cache is checked next: its
/// size for the reason it fails, then its mutable fraction, which must lie in (0, 1].
pub proof fn lemma_read_cache_rules(c: FasterKvConfig, rc: ReadCacheConfig)
    requires
        table_size_ok(c),
        whole_page_count(c.log_size),
        unit_fraction(c.log_mutable_fraction),
        storage_ok(c),
        c.read_cache == Some(rc),
    ensures
        rc.mem_size < 0x200_0000 ==> config_error(c) == Some(ConfigError::ReadCacheTooSmall),
        rc.mem_size >= 0x200_0000 && rc.mem_size % 0x200_0000 != 0 ==> config_error(c) == Some(
            ConfigError::ReadCacheUnaligned,
        ),
        rc.mem_size % 0x200_0000 == 0 && rc.mem_size > 0xffff_ffff * 0x200_0000 ==> config_error(c)
            == Some(ConfigError::ReadCacheTooLarge),
        whole_page_count(rc.mem_size) && !unit_fraction(rc.mutable_fraction) ==> config_error(c)
            == Some(ConfigError::ReadCacheMutableFraction),
{
    lemma_page_count_rules(
        c.log_size,
        ConfigError::LogSizeTooSmall,
        ConfigError::LogSizeUnaligned,
        ConfigError::LogSizeTooLarge,
    );
    lemma_page_count_rules(
        rc.mem_size,
        ConfigError::ReadCacheTooSmall,
        ConfigError::ReadCacheUnaligned,
        ConfigError::ReadCacheTooLarge,
    );
    if let Some(p) = c.storage_path {
        assert(p@.len() > 0 && !encodes_nul(p@));
    }
}

/// With every earlier setting acceptable, the compaction settings are checked last, in
/// this order: the check interval (empty, then too long), the trigger and compaction
/// fractions, the largest compaction size, the size budget and the thread count.
pub proof fn lemma_compaction_rules(c: FasterKvConfig, hc: HlogCompactionConfig)
    requires
        table_size_ok(c),
        whole_page_count(c.log_size),
        unit_fraction(c.log_mutable_fraction),
        storage_ok(c),
        read_cache_ok(c),
        c.hlog_compaction == Some(hc),
    ensures
        hc.check_interval@ == 0 ==> config_error(c) == Some(ConfigError::CompactionIntervalZero),
        hc.check_interval@ > 0 && hc.check_interval@ >= 0x1_0000_0000_0000_0000 * 1_000_000
            ==> config_error(c) == Some(ConfigError::CompactionIntervalTooLarge),
        ({
            &&& hc.check_interval@ > 0
            &&& hc.check_interval@ < 0x1_0000_0000_0000_0000 * 1_000_000
        }) ==> {
            &&& !unit_fraction(hc.trigger_pct) ==> config_error(c) == Some(
                ConfigError::CompactionTriggerPercent,
            )
            &&& unit_fraction(hc.trigger_pct) && !unit_fraction(hc.compact_pct) ==> config_error(c)
                == Some(ConfigError::CompactionPercent)
            &&& unit_fraction(hc.trigger_pct) && unit_fraction(hc.compact_pct)
                && hc.max_compacted_size == 0 ==> config_error(c) == Some(
                ConfigError::CompactionMaxSizeZero,
            )
            &&& unit_fraction(hc.trigger_pct) && unit_fraction(hc.compact_pct)
                && hc.max_compacted_size > 0 && hc.hlog_size_budget == 0 ==> config_error(c)
                == Some(ConfigError::CompactionBudgetZero)
            &&& unit_fraction(hc.trigger_pct) && unit_fraction(hc.compact_pct)
                && hc.max_compacted_size > 0 && hc.hlog_size_budget > 0 && hc.num_threads == 0
                ==> config_error(c) == Some(ConfigError::CompactionThreadsZero)
        },
{
    lemma_validation_accepts_exactly(c);
    lemma_page_count_rules(
        c.log_size,
        ConfigError::LogSizeTooSmall,
        ConfigError::LogSizeUnaligned,
        ConfigError::LogSizeTooLarge,
    );
    if let Some(rc) = c.read_cache {
        lemma_page_count_rules(
            rc.mem_size,
            ConfigError::ReadCacheTooSmall,
            ConfigError::ReadCacheUnaligned,
            ConfigError::ReadCacheTooLarge,
        );
    }
    if let Some(p) = c.storage_path {
        assert(p@.len() > 0 && !encodes_nul(p@));
    }
}

/// The native store receives exactly the configured settings: the same sizes, fraction
/// and pre-allocation flag; the storage directory as its NUL-terminated encoding; a read
/// cache enabled with its own settings where one is configured; compaction enabled with
/// its own fractions, sizes and thread count and its interval in whole milliseconds where
/// it is configured; and whatever is not configured disabled.
pub proof fn lemma_native_config_carries_settings(n: NativeConfig, c: FasterKvConfig)
    requires
        native_config_matches(n, c),
    ensures
        n.table_size == c.table_size,
        n.log_size == c.log_size,
        n.log_mutable_fraction == c.log_mutable_fraction,
        n.pre_allocate_log == c.pre_allocate_log,
        c.storage_path is None ==> n.storage is None,
        c.storage_path matches Some(p) ==> (!encodes_nul(p@) ==> (n.storage matches Some(bytes)
            && bytes@ == encode_utf8(p@).push(0))),
        c.read_cache is None ==> !n.read_cache.enabled,
        c.read_cache matches Some(rc) ==> {
            &&& n.read_cache.enabled
            &&& n.read_cache.mem_size == rc.mem_size
            &&& n.read_cache.mutable_fraction == rc.mutable_fraction
            &&& n.read_cache.pre_allocate == rc.pre_allocate
        },
        c.hlog_compaction is None ==> !n.hlog_compaction.enabled,
        c.hlog_compaction matches Some(hc) ==> {
            &&& n.hlog_compaction.enabled
            &&& hc.check_interval@ < 0x1_0000_0000_0000_0000 * 1_000_000
                ==> n.hlog_compaction.check_interval_ms == hc.check_interval@ / 1_000_000
            &&& n.hlog_compaction.trigger_pct == hc.trigger_pct
            &&& n.hlog_compaction.compact_pct == hc.compact_pct
            &&& n.hlog_compaction.max_compacted_size == hc.max_compacted_size
            &&& n.hlog_compaction.hlog_size_budget == hc.hlog_size_budget
            &&& n.hlog_compaction.num_threads == hc.num_threads
        },
{
    if let Some(p) = c.storage_path {
        if !encodes_nul(p@) {
            assert(c_string_of(p@) == Some(encode_utf8(p@).push(0)));
        }
    }
}

} // verus!
