//! The failures that the pipeline's stages report.

use vstd::prelude::*;

verus! {

/// Why a stage of the pipeline failed.
#[derive(Clone, Copy, Debug, PartialEq, Eq, Structural)]
pub enum PipelineError {
    /// The executable could not be parsed as a loadable program.
    InvalidExecutable,
    /// The program needs more memory than the bound allows.
    MemoryBoundExceeded,
    /// The segment size limit is outside the supported range.
    ConfigurationError,
    /// The guest faulted, or the machine could not run it.
    ExecutionFault,
    /// The proving backend lacks a circuit that the segment needs.
    UnsupportedCircuit,
    /// The backend could not produce a proof.
    ProvingError,
    /// Two receipts handed to a join do not cover adjacent ranges.
    NonAdjacentReceipts,
    /// A reduction was asked of no receipts.
    EmptyInput,
    /// An accessor was called on an exit code of another variant.
    WrongVariant,
}

} // verus!
