use insightora_core::config::pool_request;
use insightora_core::{
    check_memory_limit, configure, get_config, get_current_config, ConfigContext,
    InsightoraError, RustConfig,
};

#[test]
fn test_default_config() {
    let config = RustConfig::default();
    assert!(config.thread_count > 0);
    assert_eq!(config.chunk_size, 100_000);
    assert_eq!(config.memory_limit_mb, 4096);
    assert!(config.enable_simd);
}

#[test]
fn test_memory_limit_check() {
    let ctx = ConfigContext::new();
    let result = check_memory_limit(&ctx, 2048);
    assert!(result.is_ok());

    let result = check_memory_limit(&ctx, 5000);
    assert!(result.is_err());
}

#[test]
fn default_config_has_default_cache_size() {
    let config = RustConfig::default();
    assert_eq!(config.cache_size, 1000);
}

#[test]
fn new_context_holds_defaults_and_no_pool() {
    let ctx = ConfigContext::new();
    let config = get_config(&ctx);
    assert!(config.thread_count >= 1);
    assert_eq!(config.chunk_size, 100_000);
    assert_eq!(config.memory_limit_mb, 4096);
    assert!(config.enable_simd);
    assert_eq!(config.cache_size, 1000);
    assert!(!ctx.is_pool_initialized());
}

#[test]
fn memory_limit_check_reports_requested_and_limit() {
    let ctx = ConfigContext::new();
    match check_memory_limit(&ctx, 5000) {
        Err(InsightoraError::MemoryLimitExceeded { requested, limit }) => {
            assert_eq!(requested, 5000);
            assert_eq!(limit, 4096);
        }
        other => panic!("unexpected outcome: {:?}", other),
    }
}

#[test]
fn memory_limit_check_accepts_the_limit_itself() {
    let ctx = ConfigContext::new();
    assert!(check_memory_limit(&ctx, 4096).is_ok());
    assert!(check_memory_limit(&ctx, 4097).is_err());
    assert!(check_memory_limit(&ctx, 0).is_ok());
}

#[test]
fn configure_rejects_zero_chunk_size() {
    let mut ctx = ConfigContext::new();
    let before = get_config(&ctx);
    let result = configure(&mut ctx, None, Some(0), None, None, None);
    match result {
        Err(InsightoraError::ValidationError(reason)) => {
            assert_eq!(reason, "chunk_size must be greater than 0");
        }
        other => panic!("unexpected outcome: {:?}", other),
    }
    assert_eq!(get_config(&ctx), before);
    assert_eq!(get_config(&ctx).chunk_size, 100_000);
}

#[test]
fn configure_rejects_zero_memory_limit() {
    let mut ctx = ConfigContext::new();
    let before = get_config(&ctx);
    let result = configure(&mut ctx, None, None, Some(0), None, None);
    match result {
        Err(InsightoraError::ValidationError(reason)) => {
            assert_eq!(reason, "memory_limit_mb must be greater than 0");
        }
        other => panic!("unexpected outcome: {:?}", other),
    }
    assert_eq!(get_config(&ctx), before);
}

#[test]
fn configure_rejection_leaves_every_field_alone() {
    let mut ctx = ConfigContext::new();
    let before = get_config(&ctx);
    let result = configure(&mut ctx, Some(3), Some(500), Some(0), Some(false), Some(7));
    assert!(matches!(result, Err(InsightoraError::ValidationError(_))));
    assert_eq!(get_config(&ctx), before);
    assert!(!ctx.is_pool_initialized());
}

#[test]
fn configure_reports_zero_chunk_size_first() {
    let mut ctx = ConfigContext::new();
    let result = configure(&mut ctx, None, Some(0), Some(0), None, None);
    match result {
        Err(InsightoraError::ValidationError(reason)) => {
            assert_eq!(reason, "chunk_size must be greater than 0");
        }
        other => panic!("unexpected outcome: {:?}", other),
    }
}

#[test]
fn configure_changes_only_the_fields_given() {
    let mut ctx = ConfigContext::new();
    let before = get_config(&ctx);
    configure(&mut ctx, None, Some(500), None, None, None).unwrap();
    let after = get_config(&ctx);
    assert_eq!(after.chunk_size, 500);
    assert_eq!(after.thread_count, before.thread_count);
    assert_eq!(after.memory_limit_mb, before.memory_limit_mb);
    assert_eq!(after.enable_simd, before.enable_simd);
    assert_eq!(after.cache_size, before.cache_size);

    configure(&mut ctx, None, None, Some(8192), Some(false), Some(0)).unwrap();
    let last = get_config(&ctx);
    assert_eq!(last.chunk_size, 500);
    assert_eq!(last.memory_limit_mb, 8192);
    assert!(!last.enable_simd);
    assert_eq!(last.cache_size, 0);
    assert!(!ctx.is_pool_initialized());
}

#[test]
fn configure_without_arguments_changes_nothing() {
    let mut ctx = ConfigContext::new();
    let before = get_config(&ctx);
    configure(&mut ctx, None, None, None, None, None).unwrap();
    assert_eq!(get_config(&ctx), before);
}

#[test]
fn configure_builds_the_pool_once_and_stores_later_thread_counts() {
    // Whichever context asks first in this process builds the pool; the
    // second context finds it built and fails.
    let mut first = ConfigContext::new();
    let started = configure(&mut first, Some(2), None, None, None, None);
    assert_eq!(get_config(&first).thread_count, 2);
    if started.is_ok() {
        assert!(first.is_pool_initialized());
        assert_eq!(first.pool_threads(), Some(2));
        // A later call stores its thread count and leaves the pool alone.
        configure(&mut first, Some(5), Some(10), None, None, None).unwrap();
        assert_eq!(get_config(&first).thread_count, 5);
        assert_eq!(get_config(&first).chunk_size, 10);
        assert!(first.is_pool_initialized());
        assert_eq!(first.pool_threads(), Some(2));
    }

    let mut second = ConfigContext::new();
    let before = get_config(&second);
    let refused = configure(&mut second, Some(3), Some(77), None, Some(false), None);
    assert!(matches!(refused, Err(InsightoraError::ThreadPoolError(_))));
    let after = get_config(&second);
    assert_eq!(after.thread_count, 3);
    assert_eq!(after.chunk_size, before.chunk_size);
    assert_eq!(after.enable_simd, before.enable_simd);
    assert!(!second.is_pool_initialized());
    assert_eq!(second.pool_threads(), None);
}

#[test]
fn first_thread_count_builds_a_pool_of_that_size() {
    let mut ctx = ConfigContext::new();
    assert_eq!(ctx.pool_threads(), None);
    assert_eq!(pool_request(&ctx, Some(3)), Some(3));
    assert_eq!(pool_request(&ctx, None), None);
    configure(&mut ctx, Some(3), None, None, None, None).unwrap();
    assert_eq!(ctx.pool_threads(), Some(3));
    assert_eq!(rayon::current_num_threads(), 3);
    // Once the pool is built nothing more is asked for, whatever the count.
    assert_eq!(pool_request(&ctx, Some(6)), None);
    configure(&mut ctx, Some(6), None, None, None, None).unwrap();
    assert_eq!(get_config(&ctx).thread_count, 6);
    assert_eq!(ctx.pool_threads(), Some(3));
    assert_eq!(rayon::current_num_threads(), 3);
}

#[test]
fn calls_without_a_thread_count_build_no_pool() {
    let mut ctx = ConfigContext::new();
    configure(&mut ctx, None, Some(9), Some(9), Some(false), Some(9)).unwrap();
    assert!(!ctx.is_pool_initialized());
    assert_eq!(ctx.pool_threads(), None);
}

#[test]
fn configure_zero_threads_means_the_processors() {
    let mut ctx = ConfigContext::new();
    let built = configure(&mut ctx, Some(0), None, None, None, None);
    assert!(get_config(&ctx).thread_count >= 1);
    assert_eq!(get_config(&ctx).thread_count, RustConfig::default().thread_count);
    if built.is_ok() {
        assert_eq!(ctx.pool_threads(), Some(RustConfig::default().thread_count));
    }
}

#[test]
fn snapshots_are_equal_until_configured() {
    let mut ctx = ConfigContext::new();
    let one = get_config(&ctx);
    let two = get_config(&ctx);
    assert_eq!(one, two);
    assert_eq!(get_current_config(&ctx), one);
    configure(&mut ctx, None, Some(42), None, None, None).unwrap();
    let three = get_config(&ctx);
    assert_ne!(one, three);
    assert_eq!(three, get_config(&ctx));
}

#[test]
fn changing_a_snapshot_changes_nothing_in_the_context() {
    let ctx = ConfigContext::new();
    let mut snapshot = get_config(&ctx);
    snapshot.chunk_size = 1;
    snapshot.memory_limit_mb = 1;
    assert_eq!(get_config(&ctx).chunk_size, 100_000);
    assert_eq!(get_config(&ctx).memory_limit_mb, 4096);
    assert!(check_memory_limit(&ctx, 2).is_ok());
}

#[test]
fn memory_limit_check_follows_the_configuration() {
    let mut ctx = ConfigContext::new();
    configure(&mut ctx, None, None, Some(100), None, None).unwrap();
    assert!(check_memory_limit(&ctx, 100).is_ok());
    match check_memory_limit(&ctx, 101) {
        Err(InsightoraError::MemoryLimitExceeded { requested, limit }) => {
            assert_eq!((requested, limit), (101, 100));
        }
        other => panic!("unexpected outcome: {:?}", other),
    }
}
