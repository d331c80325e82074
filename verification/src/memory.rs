//! Memory estimation: what a parse is expected to cost, from the file's size.

use vstd::prelude::*;

verus! {

/// Bytes in one megabyte.
pub const BYTES_PER_MB: u64 = 1_048_576;

/// Parsing is taken to need this many times the file's size.
pub const PARSE_OVERHEAD: u64 = 2;

/// Files of at least this many whole megabytes are read in low-memory mode.
pub const STREAMING_THRESHOLD_MB: u64 = 100;

/// The estimated peak memory, in megabytes, of parsing a file of `file_size` bytes.
pub open spec fn estimated_mb(file_size: nat) -> nat {
    (file_size * 2) / 1_048_576
}

/// Whether an estimate is over a ceiling. An estimate equal to the ceiling is not.
pub open spec fn over_limit(estimated: nat, limit_mb: nat) -> bool {
    estimated > limit_mb
}

/// The size of a file in whole megabytes.
pub open spec fn whole_mb(file_size: nat) -> nat {
    file_size / 1_048_576
}

/// Whether a file is large enough for the low-memory read: the threshold itself is.
pub open spec fn large_file(file_size: nat) -> bool {
    whole_mb(file_size) >= 100
}

/// Estimates the megabytes needed to parse a file of `file_size` bytes.
pub fn estimate_memory_mb(file_size: u64) -> (mb: u64)
    ensures
        mb == estimated_mb(file_size as nat),
{
    proof {
        lemma_doubling_halves_divisor(file_size as nat);
    }
    // Halving the divisor doubles the quotient without the product leaving `u64`.
    file_size / (BYTES_PER_MB / PARSE_OVERHEAD)
}

/// Doubling the dividend is halving the divisor.
proof fn lemma_doubling_halves_divisor(n: nat)
    ensures
        (n * 2) / 1_048_576 == n / 524_288,
{
    let q = n / 524_288;
    let r = n % 524_288;
    assert(n == q * 524_288 + r);
    assert(n * 2 == q * 1_048_576 + r * 2);
    assert(0 <= r * 2 < 1_048_576);
    vstd::arithmetic::div_mod::lemma_fundamental_div_mod_converse(
        (n * 2) as int,
        1_048_576,
        q as int,
        (r * 2) as int,
    );
}

/// Compares an estimate with a ceiling.
pub fn exceeds_limit(estimated_mb: u64, limit_mb: usize) -> (over: bool)
    ensures
        over == over_limit(estimated_mb as nat, limit_mb as nat),
{
    estimated_mb > limit_mb as u64
}

/// Tells whether a file of `file_size` bytes is read in low-memory mode.
pub fn is_large_file(file_size: u64) -> (large: bool)
    ensures
        large == large_file(file_size as nat),
{
    file_size / BYTES_PER_MB >= STREAMING_THRESHOLD_MB
}

} // verus!
