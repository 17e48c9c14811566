use zkvm_orchestrator::error::PipelineError;
use zkvm_orchestrator::reduce::{Action, Reduction};
use zkvm_orchestrator::span::{MachineState, ReceiptSpan};

fn state(n: u32) -> MachineState {
    MachineState::new(0x1000 + 4 * n, [n, n + 1, n + 2, n + 3, n + 4, n + 5, n + 6, n + 7])
}

fn span(from: u32, to: u32) -> ReceiptSpan {
    ReceiptSpan::new(state(from), state(to))
}

fn fold_succinct(spans: Vec<ReceiptSpan>) -> Result<(ReceiptSpan, usize), PipelineError> {
    let mut fold = Reduction::of_succinct(spans.clone())?;
    loop {
        match fold.action() {
            Action::Finish => return Ok((fold.covered_span(), fold.joins_done())),
            Action::Join { index } => {
                let acc = fold.covered_span();
                assert!(acc.meets(&spans[index]));
                fold.joined(Some(ReceiptSpan::new(acc.start, spans[index].end)))?;
            }
            Action::Lift { .. } => panic!("succinct receipts are never lifted"),
        }
    }
}

#[test]
fn states_compare_by_counter_and_root() {
    assert!(state(1).same(&state(1)));
    assert!(!state(1).same(&state(2)));
    let a = MachineState::new(8, [0; 8]);
    let mut root = [0u32; 8];
    root[7] = 1;
    assert!(!a.same(&MachineState::new(8, root)));
    assert!(!a.same(&MachineState::new(12, [0; 8])));
}

#[test]
fn spans_meet_where_end_and_start_agree() {
    assert!(span(0, 1).meets(&span(1, 2)));
    assert!(!span(0, 1).meets(&span(2, 3)));
    assert!(!span(1, 2).meets(&span(0, 1)));
    assert!(span(0, 1).same(&span(0, 1)));
    assert!(!span(0, 1).same(&span(0, 2)));
}

#[test]
fn empty_succinct_input_is_refused() {
    assert!(matches!(Reduction::of_succinct(vec![]), Err(PipelineError::EmptyInput)));
}

#[test]
fn empty_segment_input_is_refused() {
    assert!(matches!(Reduction::of_segments(0), Err(PipelineError::EmptyInput)));
}

#[test]
fn single_succinct_receipt_needs_no_join() {
    let fold = Reduction::of_succinct(vec![span(3, 4)]).unwrap();
    assert_eq!(fold.action(), Action::Finish);
    assert_eq!(fold.joins_done(), 0);
    assert!(fold.covered_span().same(&span(3, 4)));
}

#[test]
fn single_segment_receipt_is_lifted_and_not_joined() {
    let mut fold = Reduction::of_segments(1).unwrap();
    assert_eq!(fold.action(), Action::Lift { index: 0 });
    assert_eq!(fold.lifted(Some(span(0, 1))), Ok(()));
    assert_eq!(fold.action(), Action::Finish);
    assert_eq!(fold.joins_done(), 0);
    assert!(fold.covered_span().same(&span(0, 1)));
}

#[test]
fn succinct_receipts_fold_left_to_right() {
    let mut fold = Reduction::of_succinct(vec![span(0, 1), span(1, 2), span(2, 3)]).unwrap();
    assert_eq!(fold.action(), Action::Join { index: 1 });
    assert_eq!(fold.joined(Some(span(0, 2))), Ok(()));
    assert_eq!(fold.joins_done(), 1);
    assert_eq!(fold.action(), Action::Join { index: 2 });
    assert_eq!(fold.joined(Some(span(0, 3))), Ok(()));
    assert_eq!(fold.action(), Action::Finish);
    assert_eq!(fold.joins_done(), 2);
    assert!(fold.covered_span().same(&span(0, 3)));
}

#[test]
fn segment_receipts_are_lifted_then_joined_in_turn() {
    let mut fold = Reduction::of_segments(3).unwrap();
    assert_eq!(fold.action(), Action::Lift { index: 0 });
    assert_eq!(fold.lifted(Some(span(0, 1))), Ok(()));
    assert_eq!(fold.action(), Action::Lift { index: 1 });
    assert_eq!(fold.lifted(Some(span(1, 2))), Ok(()));
    assert_eq!(fold.action(), Action::Join { index: 1 });
    assert_eq!(fold.joined(Some(span(0, 2))), Ok(()));
    assert_eq!(fold.action(), Action::Lift { index: 2 });
    assert_eq!(fold.lifted(Some(span(2, 3))), Ok(()));
    assert_eq!(fold.action(), Action::Join { index: 2 });
    assert_eq!(fold.joined(Some(span(0, 3))), Ok(()));
    assert_eq!(fold.action(), Action::Finish);
    assert_eq!(fold.joins_done(), 2);
    assert!(fold.covered_span().same(&span(0, 3)));
}

#[test]
fn succinct_receipts_out_of_order_are_refused_before_any_join() {
    assert!(matches!(
        Reduction::of_succinct(vec![span(1, 2), span(0, 1)]),
        Err(PipelineError::NonAdjacentReceipts)
    ));
    assert!(matches!(
        Reduction::of_succinct(vec![span(0, 1), span(1, 2), span(3, 4)]),
        Err(PipelineError::NonAdjacentReceipts)
    ));
}

#[test]
fn lifted_receipt_that_does_not_follow_is_refused() {
    let mut fold = Reduction::of_segments(2).unwrap();
    assert_eq!(fold.lifted(Some(span(0, 1))), Ok(()));
    assert_eq!(fold.lifted(Some(span(5, 6))), Err(PipelineError::NonAdjacentReceipts));
    assert_eq!(fold.action(), Action::Lift { index: 1 });
    assert_eq!(fold.lifted(Some(span(1, 2))), Ok(()));
    assert_eq!(fold.action(), Action::Join { index: 1 });
}

#[test]
fn failed_backend_calls_are_proving_errors_and_change_nothing() {
    let mut fold = Reduction::of_segments(2).unwrap();
    assert_eq!(fold.lifted(None), Err(PipelineError::ProvingError));
    assert_eq!(fold.action(), Action::Lift { index: 0 });
    assert_eq!(fold.lifted(Some(span(0, 1))), Ok(()));
    assert_eq!(fold.lifted(Some(span(1, 2))), Ok(()));
    assert_eq!(fold.joined(None), Err(PipelineError::ProvingError));
    assert_eq!(fold.action(), Action::Join { index: 1 });
    assert_eq!(fold.joins_done(), 0);
}

#[test]
fn joined_receipt_for_another_range_is_refused() {
    let mut fold = Reduction::of_succinct(vec![span(0, 1), span(1, 2)]).unwrap();
    assert_eq!(fold.joined(Some(span(1, 2))), Err(PipelineError::ProvingError));
    assert_eq!(fold.joined(Some(span(0, 1))), Err(PipelineError::ProvingError));
    assert_eq!(fold.action(), Action::Join { index: 1 });
    assert_eq!(fold.joined(Some(span(0, 2))), Ok(()));
    assert_eq!(fold.action(), Action::Finish);
}

#[test]
fn reducing_prefix_and_suffix_then_joining_equals_reducing_the_whole() {
    let whole = vec![span(0, 1), span(1, 2), span(2, 3), span(3, 4), span(4, 5)];
    let (all, joins) = fold_succinct(whole.clone()).unwrap();
    assert_eq!(joins, 4);
    for k in 1..whole.len() {
        let (prefix, _) = fold_succinct(whole[..k].to_vec()).unwrap();
        let (suffix, _) = fold_succinct(whole[k..].to_vec()).unwrap();
        let (joined, _) = fold_succinct(vec![prefix, suffix]).unwrap();
        assert!(joined.same(&all));
    }
}

#[test]
fn reduction_covers_from_first_start_to_last_end() {
    let (all, _) = fold_succinct(vec![span(7, 8), span(8, 9)]).unwrap();
    assert!(all.start.same(&state(7)));
    assert!(all.end.same(&state(9)));
}

#[test]
fn whole_run_over_segments_covers_the_session_after_one_join_less() {
    let spans = vec![span(0, 1), span(1, 2), span(2, 3), span(3, 4)];
    match Reduction::run_segments(&spans) {
        Ok((all, joins)) => {
            assert!(all.same(&span(0, 4)));
            assert_eq!(joins, 3);
        }
        Err(e) => panic!("reduction failed: {:?}", e),
    }
    match Reduction::run_segments(&vec![span(5, 6)]) {
        Ok((all, joins)) => {
            assert!(all.same(&span(5, 6)));
            assert_eq!(joins, 0);
        }
        Err(e) => panic!("reduction failed: {:?}", e),
    }
}

#[test]
fn whole_run_over_succinct_receipts_covers_the_session_after_one_join_less() {
    match Reduction::run_succinct(vec![span(0, 1), span(1, 2), span(2, 3)]) {
        Ok((all, joins)) => {
            assert!(all.same(&span(0, 3)));
            assert_eq!(joins, 2);
        }
        Err(e) => panic!("reduction failed: {:?}", e),
    }
    match Reduction::run_succinct(vec![span(2, 9)]) {
        Ok((all, joins)) => {
            assert!(all.same(&span(2, 9)));
            assert_eq!(joins, 0);
        }
        Err(e) => panic!("reduction failed: {:?}", e),
    }
}

#[test]
fn whole_run_fails_on_empty_and_on_broken_chains() {
    assert!(matches!(Reduction::run_segments(&vec![]), Err(PipelineError::EmptyInput)));
    assert!(matches!(Reduction::run_succinct(vec![]), Err(PipelineError::EmptyInput)));
    let broken = vec![span(0, 1), span(1, 2), span(3, 4)];
    assert!(matches!(Reduction::run_segments(&broken), Err(PipelineError::NonAdjacentReceipts)));
    assert!(matches!(Reduction::run_succinct(broken), Err(PipelineError::NonAdjacentReceipts)));
}

#[test]
fn expected_join_runs_from_first_start_to_the_joined_end() {
    let mut fold = Reduction::of_succinct(vec![span(0, 1), span(1, 2), span(2, 3)]).unwrap();
    assert!(fold.expected_join_span().same(&span(0, 2)));
    assert_eq!(fold.joined(Some(span(0, 2))), Ok(()));
    assert!(fold.expected_join_span().same(&span(0, 3)));
}
