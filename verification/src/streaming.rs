//! The memory-aware parse: small files go through the full parse, large
//! ones are read in low-memory mode, and a parsed table can be handed on
//! batch by batch.

use vstd::prelude::*;
use polars::prelude::DataFrame;
use crate::batch::{
    accepted_batches, batch_count, batch_events, batch_rows, batch_start,
    lemma_batch_end, lemma_batch_exists, lemma_batches_are_contiguous, lemma_run_steps_extend,
    run_steps, BatchConsumer, Delivery, NoObserver, ProgressEvent, ProgressObserver, RunJournal,
    Step,
};
use crate::config::{ConfigContext, DEFAULT_CHUNK_SIZE};
use crate::engine::{frame_rows, frame_schema, row_count, slice_rows};
use crate::error::InsightoraError;
use crate::memory::{
    estimate_memory_mb, estimated_mb, exceeds_limit, is_large_file, large_file, over_limit,
};
use crate::parser::{
    full_read, CsvParserConfig, ParallelCsvParser, DEFAULT_DELIMITER, DEFAULT_QUOTE_CHAR,
    DEFAULT_SCHEMA_SAMPLE,
};
use crate::plan::{
    check_presence, file_size, is_io_failure, is_missing_file, missing_file, preflight_checked,
    presence_checked, FileProbe, ReadPlan, SchemaSampling,
};

verus! {

/// The memory ceiling of the streaming parse, in megabytes, unless
/// configured otherwise.
pub const DEFAULT_STREAMING_LIMIT_MB: usize = 1024;

/// The options of the streaming parse. They stand by themselves: the memory
/// ceiling here is not the one of the process configuration.
#[derive(Debug, Clone, Copy, PartialEq, Eq, Structural)]
pub struct StreamingCsvConfig {
    pub chunk_size: usize,
    pub memory_limit_mb: usize,
    pub has_header: bool,
    pub delimiter: u8,
}

impl StreamingCsvConfig {
    /// The default options.
    pub open spec fn standard() -> StreamingCsvConfig {
        StreamingCsvConfig {
            chunk_size: DEFAULT_CHUNK_SIZE,
            memory_limit_mb: DEFAULT_STREAMING_LIMIT_MB,
            has_header: true,
            delimiter: DEFAULT_DELIMITER,
        }
    }
}

impl Default for StreamingCsvConfig {
    /// Chunks of 100 000 rows, a ceiling of 1024 megabytes, a header line
    /// and comma-separated fields.
    fn default() -> (config: Self)
        ensures
            config == StreamingCsvConfig::standard(),
    {
        StreamingCsvConfig {
            chunk_size: DEFAULT_CHUNK_SIZE,
            memory_limit_mb: DEFAULT_STREAMING_LIMIT_MB,
            has_header: true,
            delimiter: DEFAULT_DELIMITER,
        }
    }
}

/// The options of the full parse that a small file is handed to.
pub open spec fn delegated_config(config: StreamingCsvConfig) -> CsvParserConfig {
    CsvParserConfig {
        chunk_size: config.chunk_size,
        has_header: config.has_header,
        delimiter: config.delimiter,
        quote_char: DEFAULT_QUOTE_CHAR,
        infer_schema_length: Some(DEFAULT_SCHEMA_SAMPLE),
    }
}

/// The low-memory read under `config`.
pub open spec fn low_memory_read(config: StreamingCsvConfig) -> ReadPlan {
    ReadPlan {
        has_header: config.has_header,
        separator: config.delimiter,
        quote_char: None,
        sampling: SchemaSampling::EngineDefault,
        chunk_size: Some(config.chunk_size),
        low_memory: true,
    }
}

/// The answer owed by the streaming parse: the failure for a missing file,
/// else the failure of the size request; then, for a file under the
/// threshold, whatever the full parse answers under the process ceiling, and
/// for a larger one the low-memory read, without a memory check.
pub open spec fn streaming_checked(
    outcome: Result<ReadPlan, InsightoraError>,
    path: Seq<char>,
    probe: FileProbe,
    ceiling: usize,
    config: StreamingCsvConfig,
) -> bool {
    if !probe.exists {
        outcome matches Err(error) && is_missing_file(error, path)
    } else {
        match probe.size {
            Err(cause) => outcome matches Err(error) && is_io_failure(error, cause),
            Ok(size) => if large_file(size as nat) {
                outcome == Ok::<ReadPlan, InsightoraError>(low_memory_read(config))
            } else {
                preflight_checked(
                    outcome,
                    path,
                    probe,
                    ceiling,
                    full_read(
                        delegated_config(config),
                        SchemaSampling::Rows(DEFAULT_SCHEMA_SAMPLE),
                    ),
                )
            },
        }
    }
}

/// The estimate owed for a probed file: the failure of the size request, or
/// the estimate for the size.
pub open spec fn estimate_checked(outcome: Result<u64, InsightoraError>, probe: FileProbe) -> bool {
    match probe.size {
        Err(cause) => outcome matches Err(error) && is_io_failure(error, cause),
        Ok(size) => outcome == Ok::<u64, InsightoraError>(estimated_mb(size as nat) as u64),
    }
}

/// Whether streaming is recommended for a file of `size` bytes under a
/// ceiling of `limit_mb` megabytes.
pub open spec fn streaming_recommended(size: nat, limit_mb: nat) -> bool {
    over_limit(estimated_mb(size), limit_mb)
}

/// Lowering the ceiling never withdraws a recommendation: what is
/// recommended under a ceiling is recommended under every lower one.
pub proof fn lemma_recommendation_monotonic(size: nat, lower_limit: nat, higher_limit: nat)
    requires
        lower_limit <= higher_limit,
    ensures
        streaming_recommended(size, higher_limit) ==> streaming_recommended(size, lower_limit),
{
}

/// What a run over the batches of a table leaves behind when every batch
/// was accepted: the consumer has met each batch in order, the observer has
/// heard one report after each, and the calls were made in turn, each report
/// after its batch was accepted and before the next batch was handed over.
pub open spec fn run_completed(
    schema: Seq<(Seq<char>, Seq<char>)>,
    rows: Seq<Seq<Option<Seq<char>>>>,
    chunk: nat,
    met_before: Seq<Delivery>,
    met_after: Seq<Delivery>,
    heard_before: Seq<ProgressEvent>,
    heard_after: Seq<ProgressEvent>,
    steps_before: Seq<Step>,
    steps_after: Seq<Step>,
) -> bool {
    let count = batch_count(rows.len(), chunk);
    &&& met_after == met_before + accepted_batches(schema, rows, chunk, count)
    &&& heard_after == heard_before + batch_events(rows.len(), chunk, count)
    &&& steps_after == steps_before + run_steps(schema, rows, chunk, count)
}

/// What a run leaves behind when the consumer refused batch `failed` with
/// `error`: the consumer has met the batches before it and then that one,
/// nothing after it, and the observer has heard of the batches before it
/// only. The calls were made in turn up to the refusal, which is the last.
pub open spec fn run_stopped(
    schema: Seq<(Seq<char>, Seq<char>)>,
    rows: Seq<Seq<Option<Seq<char>>>>,
    chunk: nat,
    failed: nat,
    error: InsightoraError,
    met_before: Seq<Delivery>,
    met_after: Seq<Delivery>,
    heard_before: Seq<ProgressEvent>,
    heard_after: Seq<ProgressEvent>,
    steps_before: Seq<Step>,
    steps_after: Seq<Step>,
) -> bool {
    let refused = Delivery {
        schema,
        rows: batch_rows(rows, chunk, failed),
        refusal: Some(error),
    };
    &&& failed < batch_count(rows.len(), chunk)
    &&& met_after == (met_before + accepted_batches(schema, rows, chunk, failed)).push(refused)
    &&& heard_after == heard_before + batch_events(rows.len(), chunk, failed)
    &&& steps_after == (steps_before + run_steps(schema, rows, chunk, failed)).push(
        Step::Handed(refused),
    )
}

/// Parses files with an eye on memory, and hands tables on in batches. Its
/// observer hears of the progress.
pub struct StreamingCsvParser<P> {
    config: StreamingCsvConfig,
    progress_callback: P,
    journal: RunJournal,
}

impl StreamingCsvParser<NoObserver> {
    /// A parser with the default options that nobody watches.
    pub fn new() -> (parser: Self)
        ensures
            parser.config() == StreamingCsvConfig::standard(),
            parser.steps() == Seq::<Step>::empty(),
    {
        StreamingCsvParser {
            config: StreamingCsvConfig::default(),
            progress_callback: NoObserver::new(),
            journal: RunJournal::new(),
        }
    }

    /// A parser with the given options that nobody watches.
    pub fn with_config(config: StreamingCsvConfig) -> (parser: Self)
        ensures
            parser.config() == config,
            parser.steps() == Seq::<Step>::empty(),
    {
        StreamingCsvParser { config, progress_callback: NoObserver::new(), journal: RunJournal::new() }
    }
}

impl Default for StreamingCsvParser<NoObserver> {
    /// The same as [`StreamingCsvParser::new`].
    fn default() -> (parser: Self)
        ensures
            parser.config() == StreamingCsvConfig::standard(),
            parser.steps() == Seq::<Step>::empty(),
    {
        StreamingCsvParser::new()
    }
}

impl<P: ProgressObserver> StreamingCsvParser<P> {
    /// The options this parser works with.
    pub closed spec fn config(self) -> StreamingCsvConfig {
        self.config
    }

    /// The observer of this parser.
    pub closed spec fn observer(self) -> P {
        self.progress_callback
    }

    /// The calls this parser has made to consumers and observers, in the
    /// order in which it made them.
    pub closed spec fn steps(self) -> Seq<Step> {
        self.journal.steps()
    }

    /// Registers `callback` as the observer, in place of the one before.
    pub fn with_progress_callback<Q: ProgressObserver>(self, callback: Q) -> (parser:
        StreamingCsvParser<Q>)
        ensures
            parser.config() == self.config(),
            parser.observer() == callback,
            parser.steps() == self.steps(),
    {
        StreamingCsvParser {
            config: self.config,
            progress_callback: callback,
            journal: self.journal,
        }
    }

    /// The options this parser works with.
    pub fn options(&self) -> (options: StreamingCsvConfig)
        ensures
            options == self.config(),
    {
        self.config
    }

    /// The observer, to look at what it has heard.
    pub fn progress_callback(&self) -> (observer: &P)
        ensures
            *observer == self.observer(),
    {
        &self.progress_callback
    }

    /// The first step of the streaming parse: what to read. A file under the
    /// threshold of 100 megabytes goes through the full parse and its memory
    /// check; a file at or over it is read in low-memory mode.
    pub fn parse_streaming(&self, ctx: &ConfigContext, file_path: &str, probe: &FileProbe) -> (outcome:
        Result<ReadPlan, InsightoraError>)
        ensures
            streaming_checked(
                outcome,
                file_path@,
                *probe,
                ctx.config().memory_limit_mb,
                self.config(),
            ),
    {
        if !probe.exists {
            return Err(missing_file(file_path));
        }
        let size = match file_size(probe) {
            Ok(size) => size,
            Err(error) => {
                return Err(error);
            },
        };
        if !is_large_file(size) {
            let parser = ParallelCsvParser::with_config(
                CsvParserConfig {
                    chunk_size: self.config.chunk_size,
                    has_header: self.config.has_header,
                    delimiter: self.config.delimiter,
                    quote_char: DEFAULT_QUOTE_CHAR,
                    infer_schema_length: Some(DEFAULT_SCHEMA_SAMPLE),
                },
            );
            return parser.parse(ctx, file_path, probe);
        }
        Ok(self.low_memory_plan())
    }

    /// The last step of the streaming parse, once the read of `plan` has
    /// succeeded on a file of `total_bytes` bytes: after a low-memory read
    /// the observer hears exactly one report, of all bytes out of all bytes.
    /// After a full parse it hears nothing.
    pub fn finish_streaming(&mut self, plan: &ReadPlan, total_bytes: u64)
        ensures
            final(self).config() == old(self).config(),
            final(self).observer().reported() == if plan.low_memory {
                old(self).observer().reported().push(
                    ProgressEvent { processed: total_bytes, total: total_bytes },
                )
            } else {
                old(self).observer().reported()
            },
            final(self).steps() == if plan.low_memory {
                old(self).steps().push(
                    Step::Reported(ProgressEvent { processed: total_bytes, total: total_bytes }),
                )
            } else {
                old(self).steps()
            },
    {
        if plan.low_memory {
            self.journal.report(
                &mut self.progress_callback,
                ProgressEvent { processed: total_bytes, total: total_bytes },
            );
        }
    }

    /// The first step of a run over batches: what to read. Only a missing
    /// file is refused; the whole table is read, in low-memory mode.
    pub fn plan_batches(&self, file_path: &str, probe: &FileProbe) -> (outcome: Result<
        ReadPlan,
        InsightoraError,
    >)
        ensures
            presence_checked(outcome, file_path@, *probe, low_memory_read(self.config())),
    {
        check_presence(file_path, probe, self.low_memory_plan())
    }

    /// Hands `table` to `consumer` in batches of `chunk_size` rows, first
    /// rows first, the last batch holding what is left. After each batch that
    /// the consumer accepts, and before the next one is handed over, the
    /// observer hears how many rows have been handed over, out of how many.
    /// The first refusal ends the run with the
    /// consumer's error: no later batch is handed over and nothing is
    /// reported for the refused one. A table without rows gives no batch and
    /// no report.
    pub fn parse_batches<C: BatchConsumer>(&mut self, table: &DataFrame, consumer: &mut C) -> (outcome:
        Result<(), InsightoraError>)
        requires
            old(self).config().chunk_size > 0,
        ensures
            final(self).config() == old(self).config(),
            match outcome {
                Ok(_) => run_completed(
                    frame_schema(*table),
                    frame_rows(*table),
                    old(self).config().chunk_size as nat,
                    old(consumer).deliveries(),
                    final(consumer).deliveries(),
                    old(self).observer().reported(),
                    final(self).observer().reported(),
                    old(self).steps(),
                    final(self).steps(),
                ),
                Err(error) => exists|failed: nat|
                    run_stopped(
                        frame_schema(*table),
                        frame_rows(*table),
                        old(self).config().chunk_size as nat,
                        failed,
                        error,
                        old(consumer).deliveries(),
                        final(consumer).deliveries(),
                        old(self).observer().reported(),
                        final(self).observer().reported(),
                        old(self).steps(),
                        final(self).steps(),
                    ),
            },
    {
        let ghost schema = frame_schema(*table);
        let ghost rows = frame_rows(*table);
        let ghost chunk_rows = self.config.chunk_size as nat;
        let ghost met_before = consumer.deliveries();
        let ghost heard_before = self.observer().reported();
        let ghost steps_before = self.steps();
        let total = row_count(table);
        let chunk = self.config.chunk_size;
        let mut start: usize = 0;
        let ghost mut k: nat = 0;
        proof {
            lemma_batches_are_contiguous(total as nat, chunk_rows, 0);
            assert(met_before + accepted_batches(schema, rows, chunk_rows, 0) =~= met_before);
            assert(heard_before + batch_events(total as nat, chunk_rows, 0) =~= heard_before);
            assert(steps_before + run_steps(schema, rows, chunk_rows, 0) =~= steps_before);
        }
        while start < total
            invariant
                chunk > 0,
                chunk == self.config.chunk_size,
                chunk_rows == chunk,
                self.config == old(self).config,
                met_before == old(consumer).deliveries(),
                heard_before == old(self).observer().reported(),
                steps_before == old(self).steps(),
                self.steps() == steps_before + run_steps(schema, rows, chunk_rows, k),
                rows == frame_rows(*table),
                schema == frame_schema(*table),
                total == rows.len(),
                total <= u32::MAX,
                k <= batch_count(total as nat, chunk_rows),
                start == batch_start(total as nat, chunk_rows, k),
                consumer.deliveries() == met_before + accepted_batches(schema, rows, chunk_rows, k),
                self.observer().reported() == heard_before + batch_events(
                    total as nat,
                    chunk_rows,
                    k,
                ),
            decreases total - start,
        {
            proof {
                lemma_batch_exists(total as nat, chunk_rows, k);
                lemma_batch_end(total as nat, chunk_rows, k);
            }
            let remaining = total - start;
            let len = if chunk < remaining {
                chunk
            } else {
                remaining
            };
            let end = start + len;
            let batch = slice_rows(table, start, len);
            match self.journal.hand_over(consumer, batch) {
                Err(error) => {
                    assert(run_stopped(
                        frame_schema(*table),
                        frame_rows(*table),
                        old(self).config().chunk_size as nat,
                        k,
                        error,
                        old(consumer).deliveries(),
                        consumer.deliveries(),
                        old(self).observer().reported(),
                        self.observer().reported(),
                        old(self).steps(),
                        self.steps(),
                    ));
                    return Err(error);
                },
                Ok(_) => {},
            }
            proof {
                assert(accepted_batches(schema, rows, chunk_rows, k + 1) =~= accepted_batches(
                    schema,
                    rows,
                    chunk_rows,
                    k,
                ).push(Delivery { schema, rows: batch_rows(rows, chunk_rows, k), refusal: None }));
                assert(consumer.deliveries() =~= met_before + accepted_batches(
                    schema,
                    rows,
                    chunk_rows,
                    k + 1,
                ));
            }
            let event = ProgressEvent { processed: end as u64, total: total as u64 };
            self.journal.report(&mut self.progress_callback, event);
            proof {
                lemma_run_steps_extend(schema, rows, chunk_rows, k);
                assert(self.steps() =~= steps_before + run_steps(schema, rows, chunk_rows, k + 1));
                assert(batch_events(total as nat, chunk_rows, k + 1) =~= batch_events(
                    total as nat,
                    chunk_rows,
                    k,
                ).push(event));
                assert(self.observer().reported() =~= heard_before + batch_events(
                    total as nat,
                    chunk_rows,
                    k + 1,
                ));
                lemma_batches_are_contiguous(total as nat, chunk_rows, k);
                k = k + 1;
            }
            start = end;
        }
        proof {
            lemma_batch_exists(total as nat, chunk_rows, k);
        }
        Ok(())
    }

    /// Estimates the megabytes needed to parse the probed file.
    pub fn estimate_memory_usage(&self, probe: &FileProbe) -> (outcome: Result<
        u64,
        InsightoraError,
    >)
        ensures
            estimate_checked(outcome, *probe),
    {
        match file_size(probe) {
            Ok(size) => Ok(estimate_memory_mb(size)),
            Err(error) => Err(error),
        }
    }

    /// Tells whether streaming is recommended for the probed file: whether
    /// its estimate is over the memory ceiling of this parser's own options.
    pub fn should_use_streaming(&self, probe: &FileProbe) -> (outcome: Result<
        bool,
        InsightoraError,
    >)
        ensures
            match probe.size {
                Err(cause) => outcome matches Err(error) && is_io_failure(error, cause),
                Ok(size) => outcome == Ok::<bool, InsightoraError>(
                    streaming_recommended(size as nat, self.config().memory_limit_mb as nat),
                ),
            },
    {
        match self.estimate_memory_usage(probe) {
            Ok(estimate) => Ok(exceeds_limit(estimate, self.config.memory_limit_mb)),
            Err(error) => Err(error),
        }
    }

    fn low_memory_plan(&self) -> (plan: ReadPlan)
        ensures
            plan == low_memory_read(self.config()),
    {
        ReadPlan {
            has_header: self.config.has_header,
            separator: self.config.delimiter,
            quote_char: None,
            sampling: SchemaSampling::EngineDefault,
            chunk_size: Some(self.config.chunk_size),
            low_memory: true,
        }
    }
}

} // verus!
