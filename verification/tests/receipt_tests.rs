use risc0_zkvm::sha::Digest;
use risc0_zkvm::{ReceiptMetadata, SystemState};
use zkvm_orchestrator::error::PipelineError;
use zkvm_orchestrator::receipt::{prove_failure, SegmentReceipt, SuccinctReceipt};
use zkvm_orchestrator::span::MachineState;

fn root(n: u32) -> [u32; 8] {
    [n, n + 10, n + 20, n + 30, n + 40, n + 50, n + 60, n + 70]
}

fn system_state(n: u32) -> SystemState {
    SystemState { pc: 0x2000 + 4 * n, merkle_root: Digest::new(root(n)) }
}

fn backend_receipt(from: u32, to: u32) -> risc0_zkvm::SuccinctReceipt {
    risc0_zkvm::SuccinctReceipt {
        seal: vec![from, to],
        control_id: Digest::new([0; 8]),
        meta: ReceiptMetadata {
            pre: system_state(from),
            post: system_state(to),
            exit_code: risc0_zkvm::ExitCode::SystemSplit,
            input: Digest::new([0; 8]),
            output: Digest::new([0; 8]),
        },
    }
}

fn receipt(from: u32, to: u32) -> SuccinctReceipt {
    SuccinctReceipt::new(backend_receipt(from, to))
}

#[test]
fn succinct_receipt_reads_the_attested_states() {
    let r = receipt(1, 2);
    let span = r.get_span();
    assert!(span.start.same(&MachineState::new(0x2004, root(1))));
    assert!(span.end.same(&MachineState::new(0x2008, root(2))));
    assert!(!span.start.same(&span.end));
    assert_eq!(r.get_succinct_receipt_ref(), &backend_receipt(1, 2));
}

#[test]
fn duplicate_keeps_receipt_and_range() {
    let r = receipt(4, 9);
    let copy = r.duplicate();
    assert_eq!(copy.get_succinct_receipt_ref(), r.get_succinct_receipt_ref());
    assert!(copy.get_span().same(&r.get_span()));
}

#[test]
fn segment_receipt_keeps_the_backend_receipt() {
    let backend =
        risc0_zkvm::SegmentReceipt { seal: vec![1, 2, 3], index: 5, hashfn: String::from("sha-256") };
    let r = SegmentReceipt::new(backend);
    assert_eq!(r.get_segment_receipt_ref().index, 5);
    assert_eq!(r.get_segment_receipt_ref().seal, vec![1, 2, 3]);
    assert_eq!(r.get_segment_receipt_ref().hashfn, "sha-256");
}

#[test]
fn adjacent_receipts_may_be_joined_in_session_order_only() {
    let a = receipt(0, 1);
    let b = receipt(1, 2);
    assert_eq!(SuccinctReceipt::check_join(&a, &b), Ok(()));
    assert_eq!(SuccinctReceipt::check_join(&b, &a), Err(PipelineError::NonAdjacentReceipts));
    assert_eq!(SuccinctReceipt::check_join(&a, &a), Err(PipelineError::NonAdjacentReceipts));
}

#[test]
fn join_of_adjacent_receipts_attests_the_concatenation() {
    let a = receipt(0, 1);
    let b = receipt(1, 2);
    let joined = SuccinctReceipt::from_join(&a, &b, Ok(backend_receipt(0, 2)));
    let joined = match joined {
        Ok(r) => r,
        Err(e) => panic!("join failed: {:?}", e),
    };
    assert!(joined.get_span().start.same(&a.get_span().start));
    assert!(joined.get_span().end.same(&b.get_span().end));
    assert_eq!(joined.get_succinct_receipt_ref(), &backend_receipt(0, 2));
}

#[test]
fn join_of_non_adjacent_receipts_fails_whatever_the_backend_returned() {
    let a = receipt(0, 1);
    let c = receipt(2, 3);
    let r = SuccinctReceipt::from_join(&a, &c, Ok(backend_receipt(0, 3)));
    assert!(matches!(r, Err(PipelineError::NonAdjacentReceipts)));
    let r = SuccinctReceipt::from_join(&c, &a, Err(anyhow::Error::msg("backend refused")));
    assert!(matches!(r, Err(PipelineError::NonAdjacentReceipts)));
}

#[test]
fn backend_failure_in_join_is_a_proving_error() {
    let a = receipt(0, 1);
    let b = receipt(1, 2);
    let r = SuccinctReceipt::from_join(&a, &b, Err(anyhow::Error::msg("out of memory")));
    assert!(matches!(r, Err(PipelineError::ProvingError)));
}

#[test]
fn backend_receipt_for_another_range_is_a_proving_error() {
    let a = receipt(0, 1);
    let b = receipt(1, 2);
    let r = SuccinctReceipt::from_join(&a, &b, Ok(backend_receipt(1, 2)));
    assert!(matches!(r, Err(PipelineError::ProvingError)));
}

#[test]
fn lift_outcome_becomes_receipt_or_proving_error() {
    let lifted = SuccinctReceipt::from_lift(Ok(backend_receipt(3, 4)));
    match lifted {
        Ok(r) => {
            assert!(r.get_span().start.same(&MachineState::new(0x200c, root(3))));
            assert!(r.get_span().end.same(&MachineState::new(0x2010, root(4))));
        }
        Err(e) => panic!("lift failed: {:?}", e),
    }
    let failed = SuccinctReceipt::from_lift(Err(anyhow::Error::msg("malformed receipt")));
    assert!(matches!(failed, Err(PipelineError::ProvingError)));
}

fn backend_segment_receipt(index: u32) -> risc0_zkvm::SegmentReceipt {
    risc0_zkvm::SegmentReceipt { seal: vec![9, 8, 7], index, hashfn: String::from("poseidon") }
}

#[test]
fn proved_segment_becomes_a_segment_receipt() {
    match SegmentReceipt::from_prove(Ok(backend_segment_receipt(3))) {
        Ok(r) => {
            assert_eq!(r.get_segment_receipt_ref().index, 3);
            assert_eq!(r.get_segment_receipt_ref().seal, vec![9, 8, 7]);
        }
        Err(e) => panic!("prove failed: {:?}", e),
    }
}

#[test]
fn receipt_refused_by_the_context_is_an_unsupported_circuit() {
    let refusal = anyhow::Error::new(risc0_zkp::verify::VerificationError::InvalidHashSuite);
    let r = SegmentReceipt::from_prove(Err(refusal));
    assert!(matches!(r, Err(PipelineError::UnsupportedCircuit)));
    let refusal = anyhow::Error::new(risc0_zkp::verify::VerificationError::ControlVerificationError);
    let r = SegmentReceipt::from_prove(Err(refusal));
    assert!(matches!(r, Err(PipelineError::UnsupportedCircuit)));
}

#[test]
fn other_prover_failure_is_a_proving_error() {
    let r = SegmentReceipt::from_prove(Err(anyhow::Error::msg("loader failed")));
    assert!(matches!(r, Err(PipelineError::ProvingError)));
}

#[test]
fn prove_failure_is_classified_by_the_refusal() {
    assert_eq!(prove_failure(true), PipelineError::UnsupportedCircuit);
    assert_eq!(prove_failure(false), PipelineError::ProvingError);
}

#[test]
fn refusal_wrapped_in_context_text_is_still_told_apart_from_plain_failures() {
    let refusal = anyhow::Error::new(risc0_zkp::verify::VerificationError::InvalidProof);
    assert!(matches!(SegmentReceipt::from_prove(Err(refusal)), Err(PipelineError::UnsupportedCircuit)));
    let plain = anyhow::Error::msg("invalid receipt format");
    assert!(matches!(SegmentReceipt::from_prove(Err(plain)), Err(PipelineError::ProvingError)));
}
