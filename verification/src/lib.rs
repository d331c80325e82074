//! Ingestion strategy engine for delimited tabular files.
//!
//! The crate decides how a file is to be read (a full parallel parse or a
//! low-memory read), checks the estimated memory cost against the configured
//! ceiling before anything is read, cuts a parsed table into row batches, and
//! keeps the process-wide configuration. Reading files is left to the caller:
//! every operation takes what the caller learned from the file system and
//! answers with the read the table engine is to perform.

pub mod api;
pub mod batch;
pub mod coerce;
pub mod config;
pub mod engine;
pub mod error;
pub mod lines;
pub mod memory;
pub mod parser;
pub mod plan;
pub mod pool;
pub mod streaming;
pub mod table;

pub use api::{
    infer_csv_schema, parse_csv, parse_csv_streaming, parse_csv_with_options,
    should_use_streaming, StreamingAdvice,
};
pub use batch::{
    BatchCollector, BatchConsumer, FnConsumer, FnObserver, NoObserver, ProgressEvent,
    ProgressLog, ProgressObserver, RunJournal,
};
pub use coerce::{coerce_cell, parse_integer, CellValue};
pub use config::{
    check_memory_limit, configure, get_config, get_current_config, pool_request, ConfigContext,
    RustConfig,
};
pub use error::{ErrorCategory, InsightoraError, IoErrorKind, IoFailure};
pub use memory::{estimate_memory_mb, exceeds_limit, is_large_file};
pub use parser::{CsvParserConfig, ParallelCsvParser};
pub use plan::{FileProbe, ReadPlan, SchemaSampling};
pub use streaming::{StreamingCsvConfig, StreamingCsvParser};
pub use table::{
    export_table, summarize_schema, table_schema, ColumnSchema, ParsedTable, SchemaSummary,
};
