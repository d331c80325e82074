//! The full parse: one read of the whole file, after a pre-flight check of
//! the memory it is expected to need.

use vstd::prelude::*;
use crate::config::{get_current_config, ConfigContext, DEFAULT_CHUNK_SIZE};
use crate::error::InsightoraError;
use crate::lines::line_count;
use crate::plan::{
    check_preflight, check_presence, preflight_checked, presence_checked, sampling_for,
    sampling_of, FileProbe, ReadPlan, SchemaSampling,
};

verus! {

/// The field separator unless configured otherwise.
pub const DEFAULT_DELIMITER: u8 = 44;

/// The quote byte unless configured otherwise.
pub const DEFAULT_QUOTE_CHAR: u8 = 34;

/// The rows sampled to settle the column types unless configured otherwise.
pub const DEFAULT_SCHEMA_SAMPLE: usize = 1000;

/// The options of one full parse.
#[derive(Debug, Clone, Copy, PartialEq, Eq, Structural)]
pub struct CsvParserConfig {
    pub chunk_size: usize,
    pub has_header: bool,
    pub delimiter: u8,
    pub quote_char: u8,
    pub infer_schema_length: Option<usize>,
}

impl CsvParserConfig {
    /// The default options with the given rows per chunk.
    pub open spec fn with_chunk_size(chunk_size: usize) -> CsvParserConfig {
        CsvParserConfig {
            chunk_size,
            has_header: true,
            delimiter: DEFAULT_DELIMITER,
            quote_char: DEFAULT_QUOTE_CHAR,
            infer_schema_length: Some(DEFAULT_SCHEMA_SAMPLE),
        }
    }
}

impl Default for CsvParserConfig {
    /// A header line, comma-separated fields, double quotes, chunks of
    /// 100 000 rows and a sample of 1000 rows.
    fn default() -> (config: Self)
        ensures
            config == CsvParserConfig::with_chunk_size(DEFAULT_CHUNK_SIZE),
    {
        CsvParserConfig {
            chunk_size: DEFAULT_CHUNK_SIZE,
            has_header: true,
            delimiter: DEFAULT_DELIMITER,
            quote_char: DEFAULT_QUOTE_CHAR,
            infer_schema_length: Some(DEFAULT_SCHEMA_SAMPLE),
        }
    }
}

/// The read of a full parse under `config`, with the given sampling.
pub open spec fn full_read(config: CsvParserConfig, sampling: SchemaSampling) -> ReadPlan {
    ReadPlan {
        has_header: config.has_header,
        separator: config.delimiter,
        quote_char: Some(config.quote_char),
        sampling,
        chunk_size: Some(config.chunk_size),
        low_memory: false,
    }
}

/// The read that only settles the columns of a file under `config`.
pub open spec fn schema_read(config: CsvParserConfig) -> ReadPlan {
    ReadPlan {
        has_header: config.has_header,
        separator: config.delimiter,
        quote_char: None,
        sampling: sampling_of(config.infer_schema_length),
        chunk_size: None,
        low_memory: false,
    }
}

/// Parses whole files in one read.
pub struct ParallelCsvParser {
    config: CsvParserConfig,
}

impl ParallelCsvParser {
    /// The options this parser reads with.
    pub closed spec fn config(self) -> CsvParserConfig {
        self.config
    }

    /// A parser with the default options and the rows per chunk of the
    /// process configuration.
    pub fn new(ctx: &ConfigContext) -> (parser: Self)
        ensures
            parser.config() == CsvParserConfig::with_chunk_size(ctx.config().chunk_size),
    {
        let global = get_current_config(ctx);
        ParallelCsvParser {
            config: CsvParserConfig {
                chunk_size: global.chunk_size,
                has_header: true,
                delimiter: DEFAULT_DELIMITER,
                quote_char: DEFAULT_QUOTE_CHAR,
                infer_schema_length: Some(DEFAULT_SCHEMA_SAMPLE),
            },
        }
    }

    /// A parser with the given options.
    pub fn with_config(config: CsvParserConfig) -> (parser: Self)
        ensures
            parser.config() == config,
    {
        ParallelCsvParser { config }
    }

    /// The options this parser reads with.
    pub fn options(&self) -> (options: CsvParserConfig)
        ensures
            options == self.config(),
    {
        self.config
    }

    /// The pre-flight of a full parse. A missing file and an estimate over
    /// the configured memory ceiling are refused, so that no read is asked
    /// for; otherwise the answer is the read to perform.
    pub fn parse(&self, ctx: &ConfigContext, file_path: &str, probe: &FileProbe) -> (outcome:
        Result<ReadPlan, InsightoraError>)
        ensures
            preflight_checked(
                outcome,
                file_path@,
                *probe,
                ctx.config().memory_limit_mb,
                full_read(self.config(), sampling_of(self.config().infer_schema_length)),
            ),
    {
        let sampling = sampling_for(self.config.infer_schema_length);
        self.preflight(ctx, file_path, probe, sampling)
    }

    /// The pre-flight of a full parse that samples `sample_size` rows to
    /// settle the column types, whatever the options say.
    pub fn parse_with_inference(
        &self,
        ctx: &ConfigContext,
        file_path: &str,
        probe: &FileProbe,
        sample_size: usize,
    ) -> (outcome: Result<ReadPlan, InsightoraError>)
        ensures
            preflight_checked(
                outcome,
                file_path@,
                *probe,
                ctx.config().memory_limit_mb,
                full_read(self.config(), SchemaSampling::Rows(sample_size)),
            ),
    {
        self.preflight(ctx, file_path, probe, SchemaSampling::Rows(sample_size))
    }

    /// Counts the lines of a file's content, the header line included. No
    /// memory check applies.
    pub fn count_lines(&self, content: &[u8]) -> (count: usize)
        ensures
            count == line_count(content@),
    {
        crate::lines::count_lines(content)
    }

    /// The read that settles the columns of a file. Only a missing file is
    /// refused.
    pub fn infer_schema(&self, file_path: &str, probe: &FileProbe) -> (outcome: Result<
        ReadPlan,
        InsightoraError,
    >)
        ensures
            presence_checked(outcome, file_path@, *probe, schema_read(self.config())),
    {
        let plan = ReadPlan {
            has_header: self.config.has_header,
            separator: self.config.delimiter,
            quote_char: None,
            sampling: sampling_for(self.config.infer_schema_length),
            chunk_size: None,
            low_memory: false,
        };
        check_presence(file_path, probe, plan)
    }

    fn preflight(
        &self,
        ctx: &ConfigContext,
        file_path: &str,
        probe: &FileProbe,
        sampling: SchemaSampling,
    ) -> (outcome: Result<ReadPlan, InsightoraError>)
        ensures
            preflight_checked(
                outcome,
                file_path@,
                *probe,
                ctx.config().memory_limit_mb,
                full_read(self.config(), sampling),
            ),
    {
        let plan = ReadPlan {
            has_header: self.config.has_header,
            separator: self.config.delimiter,
            quote_char: Some(self.config.quote_char),
            sampling,
            chunk_size: Some(self.config.chunk_size),
            low_memory: false,
        };
        check_preflight(ctx, file_path, probe, plan)
    }
}

} // verus!
