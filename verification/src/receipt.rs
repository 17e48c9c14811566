//! Receipts: the backend's proof objects, and the range of execution that
//! each attests.

use crate::error::PipelineError;
use crate::span::{join_spans, MachineState, ReceiptSpan, Span, State};
use risc0_zkvm::sha::Digest;
use risc0_zkvm::SegmentReceipt as BackendSegmentReceipt;
use risc0_zkvm::SuccinctReceipt as BackendSuccinctReceipt;
use risc0_zkvm::{ReceiptMetadata, SystemState};
use vstd::prelude::*;

verus! {

#[verifier::external_type_specification]
#[verifier::external_body]
pub struct ExDigest(Digest);

#[verifier::external_type_specification]
pub struct ExSystemState(SystemState);

#[verifier::external_type_specification]
pub struct ExReceiptMetadata(ReceiptMetadata);

#[verifier::external_type_specification]
#[verifier::external_body]
pub struct ExBackendSegmentReceipt(BackendSegmentReceipt);

#[verifier::external_type_specification]
pub struct ExBackendSuccinctReceipt(BackendSuccinctReceipt);

/// The eight words that a digest holds, in order.
pub uninterp spec fn digest_words(digest: Digest) -> Seq<u32>;

/// The words of `digest`.
///
/// Trusted: calls the conversion from `risc0_zkp::core::digest::Digest` into
/// an array of its eight words, which hands out the words that the digest
/// holds.
#[verifier::external_body]
fn words_of(digest: &Digest) -> (words: [u32; 8])
    ensures
        words@ == digest_words(*digest),
{
    (*digest).into()
}

/// A copy of `receipt`.
///
/// Trusted: calls the `Clone` impl that `risc0_zkvm` derives for
/// `SuccinctReceipt`, which copies every field.
#[verifier::external_body]
fn clone_succinct(receipt: &BackendSuccinctReceipt) -> (copy: BackendSuccinctReceipt)
    ensures
        copy == *receipt,
{
    receipt.clone()
}

/// Whether `error` is a refusal by the backend's receipt verifier.
pub uninterp spec fn verifier_refusal(error: anyhow::Error) -> bool;

/// Whether `error` is a refusal by the backend's receipt verifier.
///
/// Trusted: calls `anyhow::Error::is` for the type
/// `risc0_zkp::verify::VerificationError`. The answer depends on nothing but
/// the error, so the contract names it and does not define it.
#[verifier::external_body]
fn refused_by_verifier(error: &anyhow::Error) -> (refused: bool)
    ensures
        refused == verifier_refusal(*error),
{
    error.is::<risc0_zkp::verify::VerificationError>()
}

/// Why proving a segment failed: a receipt that the verification context
/// refuses was proved with circuits that the context does not support, any
/// other failure is the prover's own.
pub fn prove_failure(refused_by_context: bool) -> (e: PipelineError)
    ensures
        e == if refused_by_context {
            PipelineError::UnsupportedCircuit
        } else {
            PipelineError::ProvingError
        },
{
    if refused_by_context {
        PipelineError::UnsupportedCircuit
    } else {
        PipelineError::ProvingError
    }
}

/// The machine state that the backend's record of a state stands for.
pub open spec fn state_of(state: SystemState) -> State {
    State { pc: state.pc, merkle_root: digest_words(state.merkle_root) }
}

/// The range of execution that a backend receipt attests: from the state
/// before its first cycle to the state after its last, as its metadata
/// records them.
pub open spec fn attested(receipt: BackendSuccinctReceipt) -> Span {
    Span { start: state_of(receipt.meta.pre), end: state_of(receipt.meta.post) }
}

/// Reads a machine state out of the backend's record of it.
fn read_state(state: &SystemState) -> (read: MachineState)
    ensures
        read@ == state_of(*state),
{
    MachineState::new(state.pc, words_of(&state.merkle_root))
}

/// The proof of one segment's execution.
pub struct SegmentReceipt {
    segment_receipt: BackendSegmentReceipt,
}

impl SegmentReceipt {
    /// The backend's receipt that this receipt holds.
    pub closed spec fn backend(&self) -> BackendSegmentReceipt {
        self.segment_receipt
    }

    pub fn new(segment_receipt: BackendSegmentReceipt) -> (receipt: Self)
        ensures
            receipt.backend() == segment_receipt,
    {
        SegmentReceipt { segment_receipt }
    }

    /// The receipt that proving a segment produced, or the failure that it
    /// reports: an unsupported circuit where the verification context refused
    /// the receipt, a proving error otherwise.
    pub fn from_prove(outcome: Result<BackendSegmentReceipt, anyhow::Error>) -> (r: Result<
        SegmentReceipt,
        PipelineError,
    >)
        ensures
            match outcome {
                Ok(proved) => r matches Ok(receipt) && receipt.backend() == proved,
                Err(error) => r == Err::<SegmentReceipt, PipelineError>(
                    if verifier_refusal(error) {
                        PipelineError::UnsupportedCircuit
                    } else {
                        PipelineError::ProvingError
                    },
                ),
            },
    {
        match outcome {
            Ok(proved) => Ok(SegmentReceipt::new(proved)),
            Err(error) => Err(prove_failure(refused_by_verifier(&error))),
        }
    }

    pub fn get_segment_receipt_ref(&self) -> (backend: &BackendSegmentReceipt)
        ensures
            *backend == self.backend(),
    {
        &self.segment_receipt
    }
}

/// A recursive proof of a range of a session's execution, together with the
/// range that it attests.
pub struct SuccinctReceipt {
    succinct_receipt: BackendSuccinctReceipt,
    span: ReceiptSpan,
}

impl SuccinctReceipt {
    /// The recorded range is the one that the backend receipt attests.
    #[verifier::type_invariant]
    spec fn recorded_range_is_attested(self) -> bool {
        self.span@ == attested(self.succinct_receipt)
    }

    /// The backend's receipt that this receipt holds.
    pub closed spec fn backend(&self) -> BackendSuccinctReceipt {
        self.succinct_receipt
    }

    /// The range of execution that this receipt attests.
    pub open spec fn span(&self) -> Span {
        attested(self.backend())
    }

    /// Wraps a backend receipt, reading the range that it attests.
    pub fn new(succinct_receipt: BackendSuccinctReceipt) -> (receipt: Self)
        ensures
            receipt.backend() == succinct_receipt,
    {
        let start = read_state(&succinct_receipt.meta.pre);
        let end = read_state(&succinct_receipt.meta.post);
        SuccinctReceipt { succinct_receipt, span: ReceiptSpan::new(start, end) }
    }

    pub fn get_succinct_receipt_ref(&self) -> (backend: &BackendSuccinctReceipt)
        ensures
            *backend == self.backend(),
    {
        &self.succinct_receipt
    }

    /// The range of execution that this receipt attests.
    pub fn get_span(&self) -> (span: ReceiptSpan)
        ensures
            span@ == self.span(),
    {
        proof {
            use_type_invariant(self);
        }
        self.span
    }

    /// A copy of this receipt.
    pub fn duplicate(&self) -> (copy: Self)
        ensures
            copy.backend() == self.backend(),
    {
        proof {
            use_type_invariant(self);
        }
        let succinct_receipt = clone_succinct(&self.succinct_receipt);
        SuccinctReceipt { succinct_receipt, span: self.span }
    }

    /// Whether `a` and `b`, in this order, may be joined: `b` must begin in
    /// the state in which `a` ends.
    pub fn check_join(a: &SuccinctReceipt, b: &SuccinctReceipt) -> (r: Result<(), PipelineError>)
        ensures
            r == (if join_spans(a.span(), b.span()) is Some {
                Ok::<(), PipelineError>(())
            } else {
                Err(PipelineError::NonAdjacentReceipts)
            }),
    {
        proof {
            use_type_invariant(a);
            use_type_invariant(b);
        }
        if a.span.meets(&b.span) {
            Ok(())
        } else {
            Err(PipelineError::NonAdjacentReceipts)
        }
    }

    /// The receipt that a lift of a segment receipt produced, or the failure
    /// that it reports.
    pub fn from_lift(outcome: Result<BackendSuccinctReceipt, anyhow::Error>) -> (r: Result<
        SuccinctReceipt,
        PipelineError,
    >)
        ensures
            match outcome {
                Ok(lifted) => r matches Ok(receipt) && receipt.backend() == lifted,
                Err(_) => r == Err::<SuccinctReceipt, PipelineError>(PipelineError::ProvingError),
            },
    {
        match outcome {
            Ok(lifted) => Ok(SuccinctReceipt::new(lifted)),
            Err(_) => Err(PipelineError::ProvingError),
        }
    }

    /// Whether a join of `a` and `b`, in this order, is owed a receipt, given
    /// what the backend returned: the operands are adjacent, the backend
    /// succeeded, and its receipt attests the concatenation of their ranges.
    pub open spec fn join_accepted(
        a: Span,
        b: Span,
        outcome: Result<BackendSuccinctReceipt, anyhow::Error>,
    ) -> bool {
        outcome matches Ok(produced) && join_spans(a, b) == Some(attested(produced))
    }

    /// The receipt that a join of `a` and `b`, in this order, produced, or
    /// the failure that it reports.
    ///
    /// Operands that are not adjacent are refused whatever the backend
    /// returned, and so is a backend receipt that attests another range than
    /// the concatenation of the ranges of `a` and `b`.
    pub fn from_join(
        a: &SuccinctReceipt,
        b: &SuccinctReceipt,
        outcome: Result<BackendSuccinctReceipt, anyhow::Error>,
    ) -> (r: Result<SuccinctReceipt, PipelineError>)
        ensures
            Self::join_accepted(a.span(), b.span(), outcome) <==> r is Ok,
            r matches Ok(joined) ==> outcome == Ok::<BackendSuccinctReceipt, anyhow::Error>(
                joined.backend(),
            ) && Some(joined.span()) == join_spans(a.span(), b.span()),
            r matches Err(e) ==> e == (if join_spans(a.span(), b.span()) is None {
                PipelineError::NonAdjacentReceipts
            } else {
                PipelineError::ProvingError
            }),
    {
        proof {
            use_type_invariant(a);
            use_type_invariant(b);
        }
        if !a.span.meets(&b.span) {
            return Err(PipelineError::NonAdjacentReceipts);
        }
        match outcome {
            Ok(backend) => {
                let joined = SuccinctReceipt::new(backend);
                let expected = ReceiptSpan::new(a.span.start, b.span.end);
                proof {
                    use_type_invariant(&joined);
                }
                if joined.span.same(&expected) {
                    Ok(joined)
                } else {
                    Err(PipelineError::ProvingError)
                }
            },
            Err(_) => Err(PipelineError::ProvingError),
        }
    }
}

} // verus!
