use faster_rs::{
    ConfigError, FasterError, FasterKvConfig, Fraction, HlogCompactionConfig, NativeConfig,
    ReadCacheConfig, TimeSpan, LOG_PAGE_SIZE_BYTES,
};
use tempfile::TempDir;

fn frac(x: f64) -> Fraction {
    Fraction::from_bits(x.to_bits())
}

fn open_stub(_config: &NativeConfig) -> Option<()> {
    Some(())
}

fn build_err(builder: faster_rs::FasterKvConfigBuilder) -> FasterError {
    builder.build(open_stub).err().unwrap()
}

fn compaction(
    interval: TimeSpan,
    trigger: f64,
    compact: f64,
    max_size: u64,
    budget: u64,
    threads: u8,
) -> HlogCompactionConfig {
    HlogCompactionConfig::builder()
        .check_interval(interval)
        .trigger_pct(frac(trigger))
        .compact_pct(frac(compact))
        .max_compacted_size(max_size)
        .hlog_size_budget(budget)
        .num_threads(threads)
        .build()
}

#[test]
fn can_build_with_disk() {
    let dir = TempDir::new().unwrap();
    let dir_str = dir.path().to_str().unwrap();
    let kv = FasterKvConfig::builder()
        .table_size(1 << 15)
        .log_size(1024 * 1024 * 1024)
        .storage_path(dir_str.to_owned())
        .pre_allocate_log(true)
        .log_mutable_fraction(frac(0.8))
        .build(open_stub)
        .unwrap();
    let storage = kv.storage_dir();
    assert_eq!(storage.as_ref().unwrap(), dir_str);
}

#[test]
fn rejects_non_power_of_two_table_size() {
    let err = FasterKvConfig::builder()
        .table_size(3)
        .log_size(LOG_PAGE_SIZE_BYTES)
        .build(open_stub)
        .err()
        .unwrap();
    assert_eq!(err.to_string(), "Builder error: Index table size must be a power of two");
}

#[test]
fn rejects_unaligned_log_size() {
    let err = FasterKvConfig::builder()
        .table_size(1 << 10)
        .log_size(LOG_PAGE_SIZE_BYTES + 1)
        .build(open_stub)
        .err()
        .unwrap();
    assert_eq!(
        err.to_string(),
        "Builder error: Log size must be a multiple of the log page size"
    );
}

#[test]
fn rejects_read_cache_without_size() {
    let err = FasterKvConfig::builder()
        .table_size(1 << 10)
        .log_size(LOG_PAGE_SIZE_BYTES)
        .read_cache(
            ReadCacheConfig::builder()
                .mem_size(0)
                .mutable_fraction(frac(0.5))
                .build(),
        )
        .build(open_stub)
        .err()
        .unwrap();
    assert_eq!(
        err.to_string(),
        "Builder error: Read cache size must be at least one log page"
    );
}

#[test]
fn rejects_read_cache_bad_fraction() {
    let err = FasterKvConfig::builder()
        .table_size(1 << 10)
        .log_size(LOG_PAGE_SIZE_BYTES)
        .read_cache(
            ReadCacheConfig::builder()
                .mem_size(LOG_PAGE_SIZE_BYTES)
                .mutable_fraction(frac(0.0))
                .build(),
        )
        .build(open_stub)
        .err()
        .unwrap();
    assert_eq!(
        err.to_string(),
        "Builder error: Read cache mutable fraction must be between 0 and 1"
    );
}

#[test]
fn rejects_compaction_without_threads() {
    let err = FasterKvConfig::builder()
        .table_size(1 << 10)
        .log_size(LOG_PAGE_SIZE_BYTES)
        .hlog_compaction(
            HlogCompactionConfig::builder()
                .check_interval(TimeSpan::from_millis(1))
                .trigger_pct(frac(0.5))
                .compact_pct(frac(0.2))
                .max_compacted_size(LOG_PAGE_SIZE_BYTES)
                .hlog_size_budget(LOG_PAGE_SIZE_BYTES * 2)
                .num_threads(0)
                .build(),
        )
        .build(open_stub)
        .err()
        .unwrap();
    assert_eq!(
        err.to_string(),
        "Builder error: Compaction thread count must be greater than zero"
    );
}

#[test]
fn rejects_compaction_trigger_percent() {
    let err = FasterKvConfig::builder()
        .table_size(1 << 10)
        .log_size(LOG_PAGE_SIZE_BYTES)
        .hlog_compaction(
            HlogCompactionConfig::builder()
                .check_interval(TimeSpan::from_millis(1))
                .trigger_pct(frac(1.5))
                .compact_pct(frac(0.2))
                .max_compacted_size(LOG_PAGE_SIZE_BYTES)
                .hlog_size_budget(LOG_PAGE_SIZE_BYTES * 2)
                .num_threads(1)
                .build(),
        )
        .build(open_stub)
        .err()
        .unwrap();
    assert_eq!(
        err.to_string(),
        "Builder error: Compaction trigger percent must be between 0 and 1"
    );
}

#[test]
fn rejects_empty_storage_path() {
    let err = FasterKvConfig::builder()
        .table_size(1 << 10)
        .log_size(LOG_PAGE_SIZE_BYTES)
        .storage_path("".to_owned())
        .build(open_stub)
        .err()
        .unwrap();
    assert_eq!(err.to_string(), "Builder error: Storage path must not be empty");
}

#[test]
fn rejects_log_size_too_small() {
    let err = FasterKvConfig::builder()
        .table_size(1 << 10)
        .log_size(LOG_PAGE_SIZE_BYTES - 1)
        .build(open_stub)
        .err()
        .unwrap();
    assert_eq!(err.to_string(), "Builder error: Log size must be at least one log page");
}

#[test]
fn rejects_log_mutable_fraction_zero() {
    let err = FasterKvConfig::builder()
        .table_size(1 << 10)
        .log_size(LOG_PAGE_SIZE_BYTES)
        .log_mutable_fraction(frac(0.0))
        .build(open_stub)
        .err()
        .unwrap();
    assert_eq!(
        err.to_string(),
        "Builder error: Log mutable fraction must be between 0 and 1"
    );
}

#[test]
fn rejects_log_size_too_large() {
    let max_pages: u64 = u32::MAX as u64;
    let err = FasterKvConfig::builder()
        .table_size(1 << 10)
        .log_size(LOG_PAGE_SIZE_BYTES * (max_pages + 1))
        .build(open_stub)
        .err()
        .unwrap();
    assert_eq!(
        err.to_string(),
        "Builder error: Log size is too large for the log page index"
    );
}

#[test]
fn rejects_zero_table_size() {
    let b = FasterKvConfig::builder().table_size(0).log_size(LOG_PAGE_SIZE_BYTES);
    assert!(matches!(
        build_err(b),
        FasterError::BuilderError(ConfigError::TableSizeNotPowerOfTwo)
    ));
}

#[test]
fn rejects_table_size_too_large() {
    let b = FasterKvConfig::builder().table_size(1 << 31).log_size(LOG_PAGE_SIZE_BYTES);
    let err = build_err(b);
    assert_eq!(err.to_string(), "Builder error: Index table size is too large");
    let ok = FasterKvConfig::builder().table_size(1 << 30).log_size(LOG_PAGE_SIZE_BYTES);
    assert!(ok.build(open_stub).is_ok());
}

#[test]
fn table_size_is_checked_before_log_size() {
    let b = FasterKvConfig::builder().table_size(6).log_size(1);
    assert!(matches!(
        build_err(b),
        FasterError::BuilderError(ConfigError::TableSizeNotPowerOfTwo)
    ));
}

#[test]
fn rejects_fractions_outside_unit_interval() {
    for x in [-0.5f64, -0.0, 1.0000001, f64::NAN, f64::INFINITY, 2.0] {
        let b = FasterKvConfig::builder()
            .table_size(1 << 10)
            .log_size(LOG_PAGE_SIZE_BYTES)
            .log_mutable_fraction(frac(x));
        assert!(matches!(
            build_err(b),
            FasterError::BuilderError(ConfigError::LogMutableFraction)
        ));
    }
    for x in [1.0f64, 0.5, f64::MIN_POSITIVE, 5e-324] {
        let b = FasterKvConfig::builder()
            .table_size(1 << 10)
            .log_size(LOG_PAGE_SIZE_BYTES)
            .log_mutable_fraction(frac(x));
        assert!(b.build(open_stub).is_ok());
    }
}

#[test]
fn rejects_storage_path_with_nul() {
    let b = FasterKvConfig::builder()
        .table_size(1 << 10)
        .log_size(LOG_PAGE_SIZE_BYTES)
        .storage_path("a\0b".to_owned());
    assert_eq!(
        build_err(b).to_string(),
        "Builder error: Storage path contains an interior NUL byte"
    );
}

#[test]
fn rejects_read_cache_unaligned_and_too_large() {
    let b = FasterKvConfig::builder()
        .table_size(1 << 10)
        .log_size(LOG_PAGE_SIZE_BYTES)
        .read_cache(
            ReadCacheConfig::builder()
                .mem_size(LOG_PAGE_SIZE_BYTES + 7)
                .mutable_fraction(frac(0.5))
                .build(),
        );
    assert!(matches!(
        build_err(b),
        FasterError::BuilderError(ConfigError::ReadCacheUnaligned)
    ));
    let b = FasterKvConfig::builder()
        .table_size(1 << 10)
        .log_size(LOG_PAGE_SIZE_BYTES)
        .read_cache(
            ReadCacheConfig::builder()
                .mem_size(LOG_PAGE_SIZE_BYTES * (u32::MAX as u64 + 1))
                .mutable_fraction(frac(0.5))
                .build(),
        );
    assert_eq!(
        build_err(b).to_string(),
        "Builder error: Read cache size is too large for the log page index"
    );
}

#[test]
fn rejects_each_bad_compaction_setting() {
    let page = LOG_PAGE_SIZE_BYTES;
    let cases = [
        (
            compaction(TimeSpan::zero(), 0.5, 0.2, page, page, 1),
            "Builder error: Compaction check interval must be greater than zero",
        ),
        (
            compaction(TimeSpan::from_secs(u64::MAX), 0.5, 0.2, page, page, 1),
            "Builder error: Compaction check interval is too large",
        ),
        (
            compaction(TimeSpan::from_millis(1), 0.5, 0.0, page, page, 1),
            "Builder error: Compaction percent must be between 0 and 1",
        ),
        (
            compaction(TimeSpan::from_millis(1), 0.5, 0.2, 0, page, 1),
            "Builder error: Compaction max compacted size must be greater than zero",
        ),
        (
            compaction(TimeSpan::from_millis(1), 0.5, 0.2, page, 0, 1),
            "Builder error: Compaction log size budget must be greater than zero",
        ),
    ];
    for (hc, message) in cases {
        let b = FasterKvConfig::builder()
            .table_size(1 << 10)
            .log_size(page)
            .hlog_compaction(hc);
        assert_eq!(build_err(b).to_string(), message);
    }
}

#[test]
fn sub_millisecond_interval_is_accepted() {
    let hc = compaction(TimeSpan::new(0, 1), 0.5, 0.2, 1, 1, 1);
    let b = FasterKvConfig::builder()
        .table_size(1 << 10)
        .log_size(LOG_PAGE_SIZE_BYTES)
        .hlog_compaction(hc);
    let mut seen = None;
    let kv = b.build(|n: &NativeConfig| {
        seen = Some(n.hlog_compaction.check_interval_ms);
        Some(())
    });
    assert!(kv.is_ok());
    assert_eq!(seen, Some(0));
}

#[test]
fn reports_native_open_failure() {
    let b = FasterKvConfig::builder().table_size(1 << 10).log_size(LOG_PAGE_SIZE_BYTES);
    let err = b.build(|_n: &NativeConfig| -> Option<()> { None }).err().unwrap();
    assert!(matches!(err, FasterError::BuilderError(ConfigError::OpenFailed)));
    assert_eq!(err.to_string(), "Builder error: faster_open_with_config returned null");
}

#[test]
fn refused_configuration_never_reaches_native_store() {
    let b = FasterKvConfig::builder().table_size(3).log_size(LOG_PAGE_SIZE_BYTES);
    let err = b
        .build(|_n: &NativeConfig| -> Option<()> { unreachable!("native open must not run") })
        .err()
        .unwrap();
    assert!(matches!(
        err,
        FasterError::BuilderError(ConfigError::TableSizeNotPowerOfTwo)
    ));
}

#[test]
fn native_config_carries_every_setting() {
    let dir = "/tmp/store-dir".to_owned();
    let config = FasterKvConfig::builder()
        .table_size(1 << 12)
        .log_size(LOG_PAGE_SIZE_BYTES * 4)
        .storage_path(dir.clone())
        .pre_allocate_log(true)
        .read_cache(
            ReadCacheConfig::builder()
                .mem_size(LOG_PAGE_SIZE_BYTES * 2)
                .mutable_fraction(frac(0.25))
                .pre_allocate(true)
                .build(),
        )
        .hlog_compaction(compaction(
            TimeSpan::new(2, 500_000_000),
            0.75,
            0.1,
            LOG_PAGE_SIZE_BYTES,
            LOG_PAGE_SIZE_BYTES * 8,
            3,
        ));
    let mut captured: Option<(u64, u64, Option<Vec<u8>>, u64, bool, bool, u64, u64, bool, u64, u64, u8)> =
        None;
    let kv = config
        .build(|n: &NativeConfig| {
            captured = Some((
                n.table_size,
                n.log_size,
                n.storage.clone(),
                n.log_mutable_fraction.to_bits(),
                n.pre_allocate_log,
                n.read_cache.enabled,
                n.read_cache.mem_size,
                n.read_cache.mutable_fraction.to_bits(),
                n.hlog_compaction.enabled,
                n.hlog_compaction.check_interval_ms,
                n.hlog_compaction.hlog_size_budget,
                n.hlog_compaction.num_threads,
            ));
            Some(42u32)
        })
        .unwrap();
    assert_eq!(*kv.handle(), 42);
    assert_eq!(
        captured,
        Some((
            1 << 12,
            LOG_PAGE_SIZE_BYTES * 4,
            Some(b"/tmp/store-dir\0".to_vec()),
            0.9f64.to_bits(),
            true,
            true,
            LOG_PAGE_SIZE_BYTES * 2,
            0.25f64.to_bits(),
            true,
            2500,
            LOG_PAGE_SIZE_BYTES * 8,
            3,
        ))
    );
}

#[test]
fn absent_optional_settings_are_disabled_and_zeroed() {
    let n = FasterKvConfig::default_builder()
        .build(|n: &NativeConfig| {
            Some((
                n.read_cache.enabled,
                n.read_cache.mem_size,
                n.read_cache.mutable_fraction.to_bits(),
                n.hlog_compaction.enabled,
                n.hlog_compaction.check_interval_ms,
                n.hlog_compaction.num_threads,
                n.storage.is_none(),
                n.table_size,
                n.log_size,
            ))
        })
        .unwrap();
    assert_eq!(*n.handle(), (false, 0, 0, false, 0, 0, true, 1 << 15, 1024 * 1024 * 1024));
    assert!(n.storage_dir().is_none());
}

#[test]
fn validate_reports_first_broken_rule() {
    let config = FasterKvConfig {
        table_size: 1 << 10,
        log_size: LOG_PAGE_SIZE_BYTES,
        storage_path: Some(String::new()),
        log_mutable_fraction: frac(0.5),
        pre_allocate_log: false,
        read_cache: Some(
            ReadCacheConfig::builder().mem_size(0).mutable_fraction(frac(0.5)).build(),
        ),
        hlog_compaction: None,
    };
    assert!(matches!(
        config.validate(),
        Err(FasterError::BuilderError(ConfigError::StoragePathEmpty))
    ));
}
