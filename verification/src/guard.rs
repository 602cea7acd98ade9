//! The size guard: inputs are measured in whole megabytes and turned away
//! before any parsing when they exceed the limit.

use crate::error::PipelineError;
use vstd::prelude::*;

verus! {

/// The number of bytes in one megabyte.
pub const BYTES_PER_MB: u64 = 1048576;

/// The whole megabytes in `size_bytes`; a remainder under one megabyte does
/// not count.
pub open spec fn whole_megabytes(size_bytes: u64) -> u64 {
    size_bytes / BYTES_PER_MB
}

/// Whether an input of `size_bytes` bytes is over a limit of `max_mb`
/// megabytes.
pub open spec fn oversized(size_bytes: u64, max_mb: usize) -> bool {
    whole_megabytes(size_bytes) > max_mb
}

/// Lets an input pass unless it holds more whole megabytes than `max_mb`; the
/// error carries the limit and the size found.
pub fn check_size(size_bytes: u64, max_mb: usize) -> (r: Result<(), PipelineError>)
    ensures
        r is Err <==> oversized(size_bytes, max_mb),
        r is Err ==> r == Err::<(), PipelineError>(
            PipelineError::InputTooLarge { max_mb, actual_mb: whole_megabytes(size_bytes) },
        ),
{
    let size_mb: u64 = size_bytes / BYTES_PER_MB;
    if size_mb > max_mb as u64 {
        Err(PipelineError::InputTooLarge { max_mb, actual_mb: size_mb })
    } else {
        Ok(())
    }
}

/// An input is turned away exactly when it reaches one full megabyte past
/// the limit: up to `max_mb` megabytes and any part of one more pass.
pub proof fn lemma_oversized_by_a_megabyte(size_bytes: u64, max_mb: usize)
    ensures
        oversized(size_bytes, max_mb) <==> size_bytes >= (max_mb + 1) * BYTES_PER_MB,
{
}

} // verus!
