//! The machine's processors and the process-wide worker pool. Both belong to
//! other crates; the functions here only make the calls. Nothing in this
//! module is proved.

use vstd::prelude::*;

verus! {

/// Why the worker pool could not be built.
#[verifier::external_type_specification]
#[verifier::external_body]
pub struct ExThreadPoolBuildError(rayon::ThreadPoolBuildError);

/// `num_cpus::get`: the number of logical processors this process may use.
/// Its documentation promises at least one.
#[verifier::external_body]
pub(crate) fn available_cpus() -> (count: usize)
    ensures
        count >= 1,
{
    num_cpus::get()
}

/// `rayon::ThreadPoolBuilder::build_global` on a builder sized with
/// `num_threads`: builds the worker pool of the process. It fails when the
/// process already has one or when the threads cannot be started, so nothing
/// is promised of the outcome.
#[verifier::external_body]
pub(crate) fn build_global_pool(threads: usize) -> (built: Result<
    (),
    rayon::ThreadPoolBuildError,
>) {
    rayon::ThreadPoolBuilder::new().num_threads(threads).build_global()
}

/// The `Display` text of a pool failure.
#[verifier::external_body]
pub(crate) fn pool_error_text(error: &rayon::ThreadPoolBuildError) -> (text: String) {
    error.to_string()
}

} // verus!
