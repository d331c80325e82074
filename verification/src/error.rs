//! The failures of this library, and how a host application is to class them.

use vstd::prelude::*;
use polars::error::PolarsError;

verus! {

/// What went wrong when the file system was asked about a file.
#[derive(Debug, Clone, Copy, PartialEq, Eq, Structural)]
pub enum IoErrorKind {
    /// There is no file at the path.
    NotFound,
    /// Any other failure the operating system reported.
    Other,
}

/// A failed file-system request, as plain values.
#[derive(Debug)]
pub struct IoFailure {
    pub kind: IoErrorKind,
    pub message: String,
}

/// Every failure an ingestion or configuration call can end in.
#[derive(Debug)]
pub enum InsightoraError {
    /// The file system refused a request.
    IoError(IoFailure),
    /// The input is malformed.
    ParseError(String),
    /// The pre-flight estimate is over the configured ceiling.
    MemoryLimitExceeded { requested: u64, limit: usize },
    /// A value has another type than the caller expected.
    InvalidDataType { expected: String, actual: String },
    /// The table engine reported a failure.
    PolarsError(PolarsError),
    /// The worker pool could not be built.
    ThreadPoolError(String),
    /// The configuration is inconsistent.
    ConfigError(String),
    /// An argument of the call is not acceptable.
    ValidationError(String),
}

/// The classes of failure a host application tells apart.
#[derive(Debug, Clone, Copy, PartialEq, Eq, Structural)]
pub enum ErrorCategory {
    /// A failure of the environment or of a collaborator.
    Runtime,
    /// Not enough memory, or a memory ceiling that would be passed.
    Memory,
    /// A value of the wrong type.
    Type,
    /// A bad argument or bad input.
    Value,
}

impl InsightoraError {
    /// The class a failure belongs to.
    pub open spec fn category_of(self) -> ErrorCategory {
        match self {
            InsightoraError::MemoryLimitExceeded { .. } => ErrorCategory::Memory,
            InsightoraError::InvalidDataType { .. } => ErrorCategory::Type,
            InsightoraError::ValidationError(_) => ErrorCategory::Value,
            InsightoraError::ConfigError(_) => ErrorCategory::Value,
            InsightoraError::ParseError(_) => ErrorCategory::Value,
            InsightoraError::ThreadPoolError(_) => ErrorCategory::Runtime,
            InsightoraError::IoError(_) => ErrorCategory::Runtime,
            InsightoraError::PolarsError(_) => ErrorCategory::Runtime,
        }
    }

    /// Classes a failure for the host application.
    pub fn category(&self) -> (class: ErrorCategory)
        ensures
            class == self.category_of(),
    {
        match self {
            InsightoraError::MemoryLimitExceeded { .. } => ErrorCategory::Memory,
            InsightoraError::InvalidDataType { .. } => ErrorCategory::Type,
            InsightoraError::ValidationError(_) => ErrorCategory::Value,
            InsightoraError::ConfigError(_) => ErrorCategory::Value,
            InsightoraError::ParseError(_) => ErrorCategory::Value,
            InsightoraError::ThreadPoolError(_) => ErrorCategory::Runtime,
            InsightoraError::IoError(_) => ErrorCategory::Runtime,
            InsightoraError::PolarsError(_) => ErrorCategory::Runtime,
        }
    }
}

} // verus!
