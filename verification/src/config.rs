//! The process-wide configuration: one context that every ingestion call
//! reads, changed only through [`configure`], together with the flag that
//! says whether the worker pool has been built.

use vstd::prelude::*;
use vstd::string::*;
use crate::error::InsightoraError;
use crate::memory::{exceeds_limit, over_limit};
use crate::pool::{available_cpus, build_global_pool, pool_error_text};

verus! {

/// Rows per chunk unless configured otherwise.
pub const DEFAULT_CHUNK_SIZE: usize = 100_000;

/// The memory ceiling, in megabytes, unless configured otherwise.
pub const DEFAULT_MEMORY_LIMIT_MB: usize = 4096;

/// The cache size unless configured otherwise.
pub const DEFAULT_CACHE_SIZE: usize = 1000;

/// The tunables of the process.
#[derive(Debug, Clone, Copy, PartialEq, Eq, Structural)]
pub struct RustConfig {
    pub thread_count: usize,
    pub chunk_size: usize,
    pub memory_limit_mb: usize,
    pub enable_simd: bool,
    pub cache_size: usize,
}

impl RustConfig {
    /// What every stored configuration satisfies: a chunk holds at least one
    /// row and the memory ceiling is at least one megabyte.
    pub open spec fn valid(self) -> bool {
        self.chunk_size > 0 && self.memory_limit_mb > 0
    }

    /// The defaults, but for the thread count, which the machine decides.
    pub open spec fn is_default(self) -> bool {
        &&& self.thread_count >= 1
        &&& self.chunk_size == DEFAULT_CHUNK_SIZE
        &&& self.memory_limit_mb == DEFAULT_MEMORY_LIMIT_MB
        &&& self.enable_simd
        &&& self.cache_size == DEFAULT_CACHE_SIZE
    }
}

impl Default for RustConfig {
    /// One thread per available processor, and the default tunables.
    fn default() -> (config: Self)
        ensures
            config.is_default(),
    {
        RustConfig {
            thread_count: available_cpus(),
            chunk_size: DEFAULT_CHUNK_SIZE,
            memory_limit_mb: DEFAULT_MEMORY_LIMIT_MB,
            enable_simd: true,
            cache_size: DEFAULT_CACHE_SIZE,
        }
    }
}

/// How the attempt to build the worker pool ended.
#[derive(Debug)]
pub enum PoolBuild {
    /// No attempt was due: no thread count was given, or the pool exists.
    NotNeeded,
    /// The pool was built by this call.
    Built,
    /// The attempt failed, for the reason given.
    Failed(String),
}

/// Whether a request is refused before anything changes.
pub open spec fn rejected(chunk_size: Option<usize>, memory_limit_mb: Option<usize>) -> bool {
    chunk_size == Some(0usize) || memory_limit_mb == Some(0usize)
}

/// The message of the refusal. A zero chunk size is reported before a zero
/// memory ceiling.
pub open spec fn rejection_reason(chunk_size: Option<usize>) -> Seq<char> {
    if chunk_size == Some(0usize) {
        "chunk_size must be greater than 0"@
    } else {
        "memory_limit_mb must be greater than 0"@
    }
}

/// The thread count that is stored for a requested one: zero asks for the
/// number of processors the machine reports.
pub open spec fn resolved_threads(requested: usize, detected: usize) -> usize {
    if requested == 0 {
        detected
    } else {
        requested
    }
}

/// A configuration with the given fields replaced and the others kept.
pub open spec fn merged(
    base: RustConfig,
    threads: Option<usize>,
    chunk_size: Option<usize>,
    memory_limit_mb: Option<usize>,
    enable_simd: Option<bool>,
    cache_size: Option<usize>,
) -> RustConfig {
    RustConfig {
        thread_count: match threads {
            Some(n) => n,
            None => base.thread_count,
        },
        chunk_size: match chunk_size {
            Some(n) => n,
            None => base.chunk_size,
        },
        memory_limit_mb: match memory_limit_mb {
            Some(n) => n,
            None => base.memory_limit_mb,
        },
        enable_simd: match enable_simd {
            Some(b) => b,
            None => base.enable_simd,
        },
        cache_size: match cache_size {
            Some(n) => n,
            None => base.cache_size,
        },
    }
}

/// The thread count a request stores, given the count that ended up stored:
/// a request for zero stores what the machine reported.
pub open spec fn stored_threads(requested: Option<usize>, stored: usize) -> Option<usize> {
    match requested {
        Some(n) => Some(resolved_threads(n, stored)),
        None => None,
    }
}

/// The worker pool that a request asks to be built: one of the given size
/// where a thread count is given and no pool has been built, none otherwise.
pub open spec fn requested_pool(pool_built: bool, threads: Option<usize>) -> Option<usize> {
    if pool_built {
        None
    } else {
        threads
    }
}

/// The configuration of the process and the state of its worker pool: not
/// built yet, or built with a number of threads that no later call changes.
pub struct ConfigContext {
    config: RustConfig,
    pool_threads: Option<usize>,
}

impl ConfigContext {
    #[verifier::type_invariant]
    spec fn well_formed(self) -> bool {
        self.config.valid()
    }

    /// The configuration held.
    pub closed spec fn config(self) -> RustConfig {
        self.config
    }

    /// The number of threads the worker pool was built with through this
    /// context, or `None` while it has not been built.
    pub closed spec fn pool_size(self) -> Option<usize> {
        self.pool_threads
    }

    /// Whether the worker pool has been built through this context.
    pub open spec fn pool_initialized(self) -> bool {
        self.pool_size() is Some
    }

    /// A context with the default configuration and no worker pool.
    pub fn new() -> (ctx: Self)
        ensures
            ctx.config().is_default(),
            !ctx.pool_initialized(),
    {
        ConfigContext { config: RustConfig::default(), pool_threads: None }
    }

    /// Tells whether the worker pool has been built.
    pub fn is_pool_initialized(&self) -> (built: bool)
        ensures
            built == self.pool_initialized(),
    {
        self.pool_threads.is_some()
    }

    /// The number of threads the worker pool was built with, if it has been
    /// built. The stored thread count may differ from it: a thread count
    /// given after the pool was built is stored and changes no pool.
    pub fn pool_threads(&self) -> (size: Option<usize>)
        ensures
            size == self.pool_size(),
    {
        self.pool_threads
    }
}

/// The worker pool to build for a request that stores `threads`: one of that
/// many threads where a thread count is given and no pool has been built yet.
pub fn pool_request(ctx: &ConfigContext, threads: Option<usize>) -> (request: Option<usize>)
    ensures
        request == requested_pool(ctx.pool_initialized(), threads),
{
    if ctx.is_pool_initialized() {
        None
    } else {
        threads
    }
}

/// Checks a request before anything changes: a chunk size or a memory
/// ceiling of zero is refused.
pub fn validate_request(chunk_size: Option<usize>, memory_limit_mb: Option<usize>) -> (outcome:
    Result<(), InsightoraError>)
    ensures
        rejected(chunk_size, memory_limit_mb) ==> {
            &&& outcome matches Err(InsightoraError::ValidationError(reason))
            &&& reason@ == rejection_reason(chunk_size)
        },
        !rejected(chunk_size, memory_limit_mb) ==> outcome is Ok,
{
    if let Some(0) = chunk_size {
        return Err(
            InsightoraError::ValidationError(
                String::from_str("chunk_size must be greater than 0"),
            ),
        );
    }
    if let Some(0) = memory_limit_mb {
        return Err(
            InsightoraError::ValidationError(
                String::from_str("memory_limit_mb must be greater than 0"),
            ),
        );
    }
    Ok(())
}

/// Stores an accepted request, given the thread count to store and how the
/// build of the pool that [`pool_request`] asked for ended.
///
/// The thread count is stored before the pool is built, so it stays stored
/// when the build fails; the other fields are stored only when it did not.
/// A pool that was built is recorded with its size.
pub fn apply_configuration(
    ctx: &mut ConfigContext,
    threads: Option<usize>,
    pool: PoolBuild,
    chunk_size: Option<usize>,
    memory_limit_mb: Option<usize>,
    enable_simd: Option<bool>,
    cache_size: Option<usize>,
) -> (outcome: Result<(), InsightoraError>)
    requires
        !rejected(chunk_size, memory_limit_mb),
        (pool is NotNeeded) <==> requested_pool(old(ctx).pool_initialized(), threads) is None,
    ensures
        final(ctx).pool_size() == if pool is Built {
            threads
        } else {
            old(ctx).pool_size()
        },
        match pool {
            PoolBuild::Failed(reason) => {
                &&& outcome matches Err(InsightoraError::ThreadPoolError(text))
                &&& text@ == reason@
                &&& final(ctx).config() == merged(old(ctx).config(), threads, None, None, None, None)
            },
            _ => {
                &&& outcome is Ok
                &&& final(ctx).config() == merged(
                    old(ctx).config(),
                    threads,
                    chunk_size,
                    memory_limit_mb,
                    enable_simd,
                    cache_size,
                )
            },
        },
{
    proof {
        use_type_invariant(&*ctx);
    }
    let mut next = ctx.config;
    if let Some(n) = threads {
        next.thread_count = n;
    }
    match pool {
        PoolBuild::Failed(reason) => {
            ctx.config = next;
            return Err(InsightoraError::ThreadPoolError(reason));
        },
        PoolBuild::Built => {
            ctx.pool_threads = threads;
        },
        PoolBuild::NotNeeded => {},
    }
    if let Some(n) = chunk_size {
        next.chunk_size = n;
    }
    if let Some(n) = memory_limit_mb {
        next.memory_limit_mb = n;
    }
    if let Some(b) = enable_simd {
        next.enable_simd = b;
    }
    if let Some(n) = cache_size {
        next.cache_size = n;
    }
    ctx.config = next;
    Ok(())
}

/// Changes the configuration: only the fields given change.
///
/// A chunk size or memory ceiling of zero is refused and nothing changes. A
/// thread count of zero stands for the number of processors. The first call
/// that gives a thread count asks for the worker pool that [`pool_request`]
/// names, of that many threads, and records its size; later calls store
/// their thread count and leave the pool and its recorded size as they are.
pub fn configure(
    ctx: &mut ConfigContext,
    thread_count: Option<usize>,
    chunk_size: Option<usize>,
    memory_limit_mb: Option<usize>,
    enable_simd: Option<bool>,
    cache_size: Option<usize>,
) -> (outcome: Result<(), InsightoraError>)
    ensures
        rejected(chunk_size, memory_limit_mb) ==> {
            &&& outcome matches Err(InsightoraError::ValidationError(reason))
            &&& reason@ == rejection_reason(chunk_size)
            &&& final(ctx).config() == old(ctx).config()
            &&& final(ctx).pool_size() == old(ctx).pool_size()
        },
        !rejected(chunk_size, memory_limit_mb) ==> {
            let threads = stored_threads(thread_count, final(ctx).config().thread_count);
            match outcome {
                Ok(_) => {
                    &&& final(ctx).config() == merged(
                        old(ctx).config(),
                        threads,
                        chunk_size,
                        memory_limit_mb,
                        enable_simd,
                        cache_size,
                    )
                    &&& final(ctx).pool_size() == if old(ctx).pool_initialized() {
                        old(ctx).pool_size()
                    } else {
                        threads
                    }
                },
                Err(error) => {
                    &&& error is ThreadPoolError
                    &&& requested_pool(old(ctx).pool_initialized(), threads) is Some
                    &&& final(ctx).pool_size() is None
                    &&& final(ctx).config() == merged(
                        old(ctx).config(),
                        threads,
                        None,
                        None,
                        None,
                        None,
                    )
                },
            }
        },
        !rejected(chunk_size, memory_limit_mb) && (thread_count is None
            || old(ctx).pool_initialized()) ==> outcome is Ok,
        !rejected(chunk_size, memory_limit_mb) && thread_count == Some(0usize)
            ==> final(ctx).config().thread_count >= 1,
{
    match validate_request(chunk_size, memory_limit_mb) {
        Err(refusal) => {
            return Err(refusal);
        },
        Ok(_) => {},
    }
    let threads = match thread_count {
        Some(requested) => Some(
            if requested == 0 {
                available_cpus()
            } else {
                requested
            },
        ),
        None => None,
    };
    let pool = match pool_request(ctx, threads) {
        Some(size) => match build_global_pool(size) {
            Ok(_) => PoolBuild::Built,
            Err(error) => PoolBuild::Failed(pool_error_text(&error)),
        },
        None => PoolBuild::NotNeeded,
    };
    apply_configuration(ctx, threads, pool, chunk_size, memory_limit_mb, enable_simd, cache_size)
}

/// A copy of the configuration as it stands. Changing the copy changes
/// nothing in the context.
pub fn get_config(ctx: &ConfigContext) -> (snapshot: RustConfig)
    ensures
        snapshot == ctx.config(),
        snapshot.valid(),
{
    proof {
        use_type_invariant(ctx);
    }
    ctx.config
}

/// The configuration that the ingestion calls read.
pub fn get_current_config(ctx: &ConfigContext) -> (snapshot: RustConfig)
    ensures
        snapshot == ctx.config(),
        snapshot.valid(),
{
    get_config(ctx)
}

/// Checks an estimate against the configured memory ceiling.
pub fn check_memory_limit(ctx: &ConfigContext, estimated_mb: u64) -> (outcome: Result<
    (),
    InsightoraError,
>)
    ensures
        over_limit(estimated_mb as nat, ctx.config().memory_limit_mb as nat) ==> {
            &&& outcome matches Err(InsightoraError::MemoryLimitExceeded { requested, limit })
            &&& requested == estimated_mb
            &&& limit == ctx.config().memory_limit_mb
        },
        !over_limit(estimated_mb as nat, ctx.config().memory_limit_mb as nat) ==> outcome is Ok,
{
    let config = get_current_config(ctx);
    if exceeds_limit(estimated_mb, config.memory_limit_mb) {
        return Err(
            InsightoraError::MemoryLimitExceeded {
                requested: estimated_mb,
                limit: config.memory_limit_mb,
            },
        );
    }
    Ok(())
}

} // verus!
