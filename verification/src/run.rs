//! The configuration of a run of the executor.

use crate::error::PipelineError;
use crate::session::ExitCode;
use vstd::prelude::*;

verus! {

/// The smallest segment size limit that the proving backend supports, as a
/// power of two of cycles.
pub const MIN_SEGMENT_LIMIT_PO2: u32 = 13;

/// The largest segment size limit that the proving backend supports, as a
/// power of two of cycles.
pub const MAX_SEGMENT_LIMIT_PO2: u32 = 24;

/// Whether a run may be started with the given segment size limit: none,
/// which leaves the choice to the backend, or one within the supported range.
pub open spec fn segment_limit_supported(segment_size_limit: Option<u32>) -> bool {
    segment_size_limit matches Some(limit) ==> MIN_SEGMENT_LIMIT_PO2 <= limit
        <= MAX_SEGMENT_LIMIT_PO2
}

/// Accepts a segment size limit that the backend supports, and refuses any
/// other before the executor is set up.
pub fn check_segment_limit(segment_size_limit: Option<u32>) -> (r: Result<(), PipelineError>)
    ensures
        r == (if segment_limit_supported(segment_size_limit) {
            Ok::<(), PipelineError>(())
        } else {
            Err(PipelineError::ConfigurationError)
        }),
{
    match segment_size_limit {
        Some(limit) => {
            if limit < MIN_SEGMENT_LIMIT_PO2 || limit > MAX_SEGMENT_LIMIT_PO2 {
                Err(PipelineError::ConfigurationError)
            } else {
                Ok(())
            }
        },
        None => Ok(()),
    }
}

/// Whether a run that stopped with `exit_code` is handed on to the caller: a
/// run in which the guest faulted fails, every other is a result.
pub fn run_outcome(exit_code: ExitCode) -> (r: Result<(), PipelineError>)
    ensures
        r == (if exit_code is Fault {
            Err::<(), PipelineError>(PipelineError::ExecutionFault)
        } else {
            Ok(())
        }),
{
    match exit_code {
        ExitCode::Fault => Err(PipelineError::ExecutionFault),
        _ => Ok(()),
    }
}

} // verus!
