//! The operations a host application calls. Each takes what the host
//! learned from the file system and answers with the read to perform, or
//! with the failure that makes the read pointless.

use vstd::prelude::*;
use vstd::string::*;
use crate::config::{get_current_config, ConfigContext};
use crate::error::InsightoraError;
use crate::memory::estimated_mb;
use crate::parser::{
    full_read, schema_read, CsvParserConfig, ParallelCsvParser, DEFAULT_QUOTE_CHAR,
    DEFAULT_SCHEMA_SAMPLE,
};
use crate::plan::{
    is_io_failure, preflight_checked, presence_checked, sampling_of, FileProbe, ReadPlan,
};
use crate::streaming::{
    streaming_checked, streaming_recommended, StreamingCsvConfig, StreamingCsvParser,
};

verus! {

/// Whether streaming is recommended for a file, and the numbers behind it.
#[derive(Debug, Clone, Copy, PartialEq, Eq, Structural)]
pub struct StreamingAdvice {
    pub recommended: bool,
    pub estimated_memory_mb: u64,
    pub memory_limit_mb: usize,
}

/// The options that a call with explicit options parses with: what is not
/// given comes from the process configuration, or is the default.
pub open spec fn chosen_options(
    global_chunk_size: usize,
    has_header: bool,
    delimiter: u8,
    chunk_size: Option<usize>,
    infer_schema_length: Option<usize>,
) -> CsvParserConfig {
    CsvParserConfig {
        chunk_size: match chunk_size {
            Some(rows) => rows,
            None => global_chunk_size,
        },
        has_header,
        delimiter,
        quote_char: DEFAULT_QUOTE_CHAR,
        infer_schema_length: Some(
            match infer_schema_length {
                Some(rows) => rows,
                None => DEFAULT_SCHEMA_SAMPLE,
            },
        ),
    }
}

/// The options of the streaming parse that a host call stands for.
pub open spec fn streaming_options(chunk_size: usize, memory_limit_mb: usize) -> StreamingCsvConfig {
    StreamingCsvConfig {
        chunk_size,
        memory_limit_mb,
        ..StreamingCsvConfig::standard()
    }
}

/// The pre-flight of a parse with the default options.
pub fn parse_csv(ctx: &ConfigContext, file_path: &str, probe: &FileProbe) -> (outcome: Result<
    ReadPlan,
    InsightoraError,
>)
    ensures
        preflight_checked(
            outcome,
            file_path@,
            *probe,
            ctx.config().memory_limit_mb,
            full_read(
                CsvParserConfig::with_chunk_size(ctx.config().chunk_size),
                sampling_of(Some(DEFAULT_SCHEMA_SAMPLE)),
            ),
        ),
{
    let parser = ParallelCsvParser::new(ctx);
    parser.parse(ctx, file_path, probe)
}

/// The pre-flight of a parse with the given options. A delimiter that is
/// not exactly one byte long is refused before anything else is looked at.
pub fn parse_csv_with_options(
    ctx: &ConfigContext,
    file_path: &str,
    probe: &FileProbe,
    has_header: bool,
    delimiter: &str,
    chunk_size: Option<usize>,
    infer_schema_length: Option<usize>,
) -> (outcome: Result<ReadPlan, InsightoraError>)
    ensures
        delimiter.spec_bytes().len() != 1 ==> {
            &&& outcome matches Err(InsightoraError::ValidationError(reason))
            &&& reason@ == "Delimiter must be a single character"@
        },
        delimiter.spec_bytes().len() == 1 ==> {
            let options = chosen_options(
                ctx.config().chunk_size,
                has_header,
                delimiter.spec_bytes()[0],
                chunk_size,
                infer_schema_length,
            );
            preflight_checked(
                outcome,
                file_path@,
                *probe,
                ctx.config().memory_limit_mb,
                full_read(options, sampling_of(options.infer_schema_length)),
            )
        },
{
    if delimiter.len() != 1 {
        return Err(
            InsightoraError::ValidationError(
                String::from_str("Delimiter must be a single character"),
            ),
        );
    }
    let delimiter_byte = delimiter.as_bytes()[0];
    let global = get_current_config(ctx);
    let config = CsvParserConfig {
        chunk_size: match chunk_size {
            Some(rows) => rows,
            None => global.chunk_size,
        },
        has_header,
        delimiter: delimiter_byte,
        quote_char: DEFAULT_QUOTE_CHAR,
        infer_schema_length: Some(
            match infer_schema_length {
                Some(rows) => rows,
                None => DEFAULT_SCHEMA_SAMPLE,
            },
        ),
    };
    let parser = ParallelCsvParser::with_config(config);
    parser.parse(ctx, file_path, probe)
}

/// The read that settles the columns of a file, with the default options.
/// The sample size is taken for information only.
pub fn infer_csv_schema(
    ctx: &ConfigContext,
    file_path: &str,
    probe: &FileProbe,
    _sample_size: usize,
) -> (outcome: Result<ReadPlan, InsightoraError>)
    ensures
        presence_checked(
            outcome,
            file_path@,
            *probe,
            schema_read(CsvParserConfig::with_chunk_size(ctx.config().chunk_size)),
        ),
{
    let parser = ParallelCsvParser::new(ctx);
    parser.infer_schema(file_path, probe)
}

/// The first step of a streaming parse with the given rows per chunk and
/// memory ceiling, a header line and comma-separated fields.
pub fn parse_csv_streaming(
    ctx: &ConfigContext,
    file_path: &str,
    probe: &FileProbe,
    chunk_size: usize,
    memory_limit_mb: usize,
) -> (outcome: Result<ReadPlan, InsightoraError>)
    ensures
        streaming_checked(
            outcome,
            file_path@,
            *probe,
            ctx.config().memory_limit_mb,
            streaming_options(chunk_size, memory_limit_mb),
        ),
{
    let defaults = StreamingCsvConfig::default();
    let config = StreamingCsvConfig {
        chunk_size,
        memory_limit_mb,
        has_header: defaults.has_header,
        delimiter: defaults.delimiter,
    };
    let parser = StreamingCsvParser::with_config(config);
    parser.parse_streaming(ctx, file_path, probe)
}

/// Tells whether streaming is recommended for the probed file under a
/// ceiling of `memory_limit_mb` megabytes, with the estimate and the ceiling.
pub fn should_use_streaming(probe: &FileProbe, memory_limit_mb: usize) -> (outcome: Result<
    StreamingAdvice,
    InsightoraError,
>)
    ensures
        match probe.size {
            Err(cause) => outcome matches Err(error) && is_io_failure(error, cause),
            Ok(size) => outcome == Ok::<StreamingAdvice, InsightoraError>(
                StreamingAdvice {
                    recommended: streaming_recommended(size as nat, memory_limit_mb as nat),
                    estimated_memory_mb: estimated_mb(size as nat) as u64,
                    memory_limit_mb,
                },
            ),
        },
{
    let defaults = StreamingCsvConfig::default();
    let config = StreamingCsvConfig {
        chunk_size: defaults.chunk_size,
        memory_limit_mb,
        has_header: defaults.has_header,
        delimiter: defaults.delimiter,
    };
    let parser = StreamingCsvParser::with_config(config);
    let estimated_memory_mb = match parser.estimate_memory_usage(probe) {
        Ok(estimate) => estimate,
        Err(error) => {
            return Err(error);
        },
    };
    let recommended = match parser.should_use_streaming(probe) {
        Ok(recommended) => recommended,
        Err(error) => {
            return Err(error);
        },
    };
    Ok(StreamingAdvice { recommended, estimated_memory_mb, memory_limit_mb })
}

} // verus!
