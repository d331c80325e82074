//! What the caller tells the library about a file, and what the library
//! tells the caller to read. The library opens no file: the caller asks the
//! file system, hands over the answer, and carries out the read it gets back.

use vstd::prelude::*;
use vstd::string::*;
use crate::config::{check_memory_limit, ConfigContext};
use crate::error::{InsightoraError, IoErrorKind, IoFailure};
use crate::memory::{estimate_memory_mb, estimated_mb, over_limit};

verus! {

/// What the file system said of a path: whether a file is there, and its
/// size in bytes or why the size could not be had.
#[derive(Debug)]
pub struct FileProbe {
    pub exists: bool,
    pub size: Result<u64, IoFailure>,
}

/// How many rows the engine looks at to settle the column types.
#[derive(Debug, Clone, Copy, PartialEq, Eq, Structural)]
pub enum SchemaSampling {
    /// As many as the engine does by itself.
    EngineDefault,
    /// At most this many.
    Rows(usize),
    /// All of them.
    AllRows,
}

/// One read of a delimited file, as the engine is to perform it.
#[derive(Debug, Clone, Copy, PartialEq, Eq, Structural)]
pub struct ReadPlan {
    /// Whether the first line names the columns.
    pub has_header: bool,
    /// The byte between two fields.
    pub separator: u8,
    /// The quote byte to set, or `None` to leave the engine's own.
    pub quote_char: Option<u8>,
    /// How the column types are settled.
    pub sampling: SchemaSampling,
    /// The rows per chunk to set, or `None` to leave the engine's own.
    pub chunk_size: Option<usize>,
    /// Whether the engine is asked to spare memory.
    pub low_memory: bool,
}

/// The sampling that stands for a configured sample length: no length means
/// the whole file.
pub open spec fn sampling_of(infer_schema_length: Option<usize>) -> SchemaSampling {
    match infer_schema_length {
        Some(rows) => SchemaSampling::Rows(rows),
        None => SchemaSampling::AllRows,
    }
}

/// The message of the failure for a path without a file.
pub open spec fn missing_message(path: Seq<char>) -> Seq<char> {
    "File not found: "@ + path
}

/// Whether `error` says that there is no file at `path`.
pub open spec fn is_missing_file(error: InsightoraError, path: Seq<char>) -> bool {
    &&& error matches InsightoraError::IoError(failure)
    &&& failure.kind == IoErrorKind::NotFound
    &&& failure.message@ == missing_message(path)
}

/// Whether `error` passes on the failure `cause` of the file system.
pub open spec fn is_io_failure(error: InsightoraError, cause: IoFailure) -> bool {
    &&& error matches InsightoraError::IoError(failure)
    &&& failure.kind == cause.kind
    &&& failure.message@ == cause.message@
}

/// Whether `error` says that `size` bytes are estimated over `ceiling`.
pub open spec fn is_over_ceiling(error: InsightoraError, size: u64, ceiling: usize) -> bool {
    &&& error matches InsightoraError::MemoryLimitExceeded { requested, limit }
    &&& requested == estimated_mb(size as nat)
    &&& limit == ceiling
}

/// The answer owed for a file that only has to be there: the failure for a
/// missing file, else the plan.
pub open spec fn presence_checked(
    outcome: Result<ReadPlan, InsightoraError>,
    path: Seq<char>,
    probe: FileProbe,
    plan: ReadPlan,
) -> bool {
    if !probe.exists {
        outcome matches Err(error) && is_missing_file(error, path)
    } else {
        outcome == Ok::<ReadPlan, InsightoraError>(plan)
    }
}

/// The answer owed for a file whose estimated memory has to stay within
/// `ceiling`: the failure for a missing file, else the failure of the size
/// request, else the failure for an estimate over the ceiling, else the plan.
pub open spec fn preflight_checked(
    outcome: Result<ReadPlan, InsightoraError>,
    path: Seq<char>,
    probe: FileProbe,
    ceiling: usize,
    plan: ReadPlan,
) -> bool {
    if !probe.exists {
        outcome matches Err(error) && is_missing_file(error, path)
    } else {
        match probe.size {
            Err(cause) => outcome matches Err(error) && is_io_failure(error, cause),
            Ok(size) => if over_limit(estimated_mb(size as nat), ceiling as nat) {
                outcome matches Err(error) && is_over_ceiling(error, size, ceiling)
            } else {
                outcome == Ok::<ReadPlan, InsightoraError>(plan)
            },
        }
    }
}

/// Turns a configured sample length into a sampling.
pub fn sampling_for(infer_schema_length: Option<usize>) -> (sampling: SchemaSampling)
    ensures
        sampling == sampling_of(infer_schema_length),
{
    match infer_schema_length {
        Some(rows) => SchemaSampling::Rows(rows),
        None => SchemaSampling::AllRows,
    }
}

/// The failure for a path without a file.
pub fn missing_file(file_path: &str) -> (error: InsightoraError)
    ensures
        is_missing_file(error, file_path@),
{
    let message = String::from_str("File not found: ").concat(file_path);
    InsightoraError::IoError(IoFailure { kind: IoErrorKind::NotFound, message })
}

/// The size of the file, or the failure of the request for it.
pub fn file_size(probe: &FileProbe) -> (outcome: Result<u64, InsightoraError>)
    ensures
        match probe.size {
            Ok(size) => outcome == Ok::<u64, InsightoraError>(size),
            Err(cause) => outcome matches Err(error) && is_io_failure(error, cause),
        },
{
    match &probe.size {
        Ok(size) => Ok(*size),
        Err(cause) => Err(
            InsightoraError::IoError(
                IoFailure { kind: cause.kind, message: cause.message.clone() },
            ),
        ),
    }
}

/// Lets `plan` through if the file is there.
pub fn check_presence(file_path: &str, probe: &FileProbe, plan: ReadPlan) -> (outcome: Result<
    ReadPlan,
    InsightoraError,
>)
    ensures
        presence_checked(outcome, file_path@, *probe, plan),
{
    if !probe.exists {
        return Err(missing_file(file_path));
    }
    Ok(plan)
}

/// Lets `plan` through if the file is there and its estimated memory is
/// within the memory ceiling of the process.
pub fn check_preflight(
    ctx: &ConfigContext,
    file_path: &str,
    probe: &FileProbe,
    plan: ReadPlan,
) -> (outcome: Result<ReadPlan, InsightoraError>)
    ensures
        preflight_checked(outcome, file_path@, *probe, ctx.config().memory_limit_mb, plan),
{
    if !probe.exists {
        return Err(missing_file(file_path));
    }
    let size = match file_size(probe) {
        Ok(size) => size,
        Err(error) => {
            return Err(error);
        },
    };
    match check_memory_limit(ctx, estimate_memory_mb(size)) {
        Ok(_) => Ok(plan),
        Err(error) => Err(error),
    }
}

} // verus!
