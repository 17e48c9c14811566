//! The reduction of a session's receipts to one: which backend call comes
//! next, and what each outcome does to the fold.
//!
//! The fold runs left to right. The proving calls themselves are made by the
//! caller: it asks the reduction for the next action, performs it, and reports
//! the outcome.

use crate::error::PipelineError;
use crate::span::{
    chained, hull, lemma_reduce_is_hull_of_chain, reduce_spans, views, ReceiptSpan, Span,
};
use vstd::prelude::*;

verus! {

/// The backend call that the fold needs next.
#[derive(Clone, Copy, Debug, PartialEq, Eq, Structural)]
pub enum Action {
    /// Lift the segment receipt at `index`.
    Lift { index: usize },
    /// Join the accumulated receipt, on the left, with the receipt at `index`
    /// (lifted, if the inputs are segment receipts), on the right.
    Join { index: usize },
    /// Nothing is left to do: the accumulated receipt is the result.
    Finish,
}

/// The state of a left-to-right fold over the receipts of one session.
pub struct Reduction {
    /// How many receipts the fold was started with.
    total: usize,
    /// Whether the inputs are segment receipts, each lifted before it is
    /// folded in.
    raw: bool,
    /// How many receipts, from the first, the accumulated receipt covers.
    folded: usize,
    /// The ranges known so far: all of them for succinct inputs, those of the
    /// receipts lifted so far for segment receipts.
    spans: Vec<ReceiptSpan>,
}

impl Reduction {
    /// The invariant of a fold in progress.
    pub closed spec fn wf(&self) -> bool {
        &&& self.total >= 1
        &&& self.folded <= self.total
        &&& self.spans.len() <= self.total
        &&& chained(views(self.spans@))
        &&& !self.raw ==> self.spans.len() == self.total && self.folded >= 1
        &&& self.raw ==> self.folded <= self.spans.len() <= self.folded + 1
        &&& self.raw && self.folded == 0 ==> self.spans.len() == 0
    }

    /// How many receipts the fold was started with.
    pub closed spec fn total(&self) -> nat {
        self.total as nat
    }

    /// Whether the inputs are segment receipts.
    pub closed spec fn raw(&self) -> bool {
        self.raw
    }

    /// How many receipts, from the first, the accumulated receipt covers.
    pub closed spec fn folded(&self) -> nat {
        self.folded as nat
    }

    /// The ranges known so far, in session order.
    pub closed spec fn known(&self) -> Seq<Span> {
        views(self.spans@)
    }

    /// The backend call that comes next.
    pub open spec fn next_action(&self) -> Action {
        if self.folded() == self.total() {
            Action::Finish
        } else if self.raw() && self.known().len() == self.folded() {
            Action::Lift { index: self.folded() as usize }
        } else {
            Action::Join { index: self.folded() as usize }
        }
    }

    /// How many joins the fold has performed.
    pub open spec fn joins(&self) -> nat {
        if self.folded() == 0 {
            0
        } else {
            (self.folded() - 1) as nat
        }
    }

    /// The range that the accumulated receipt attests, once there is one.
    pub open spec fn covered(&self) -> Option<Span> {
        reduce_spans(self.known().take(self.folded() as int))
    }

    /// Starts a fold over succinct receipts that attest the given ranges.
    ///
    /// Fails on an empty input, and where two neighbours do not meet, before
    /// any proving is asked for. The first receipt is the initial accumulator,
    /// so a single receipt is its own reduction and needs no join.
    pub fn of_succinct(spans: Vec<ReceiptSpan>) -> (r: Result<Reduction, PipelineError>)
        ensures
            spans.len() == 0 <==> r == Err::<Reduction, PipelineError>(PipelineError::EmptyInput),
            spans.len() > 0 && !chained(views(spans@)) <==> r == Err::<Reduction, PipelineError>(
                PipelineError::NonAdjacentReceipts,
            ),
            spans.len() > 0 && chained(views(spans@)) <==> r is Ok,
            r matches Ok(fold) ==> {
                &&& fold.wf()
                &&& !fold.raw()
                &&& fold.total() == spans.len()
                &&& fold.folded() == 1
                &&& fold.known() == views(spans@)
                &&& fold.joins() == 0
                &&& fold.covered() == Some(spans[0]@)
                &&& (spans.len() == 1 ==> fold.next_action() == Action::Finish)
            },
    {
        let n = spans.len();
        if n == 0 {
            return Err(PipelineError::EmptyInput);
        }
        let mut i: usize = 0;
        while i + 1 < n
            invariant
                n == spans.len(),
                n >= 1,
                i + 1 <= n,
                forall|k: int| 0 <= k < i ==> (#[trigger] spans[k])@.end == spans[k + 1]@.start,
            decreases n - i,
        {
            if !spans[i].meets(&spans[i + 1]) {
                proof {
                    let v = views(spans@);
                    assert(v[i as int].end != v[i as int + 1].start);
                }
                return Err(PipelineError::NonAdjacentReceipts);
            }
            i = i + 1;
        }
        proof {
            let v = views(spans@);
            assert forall|k: int| 0 <= k < v.len() - 1 implies (#[trigger] v[k]).end == v[k
                + 1].start by {
                assert(spans[k]@.end == spans[k + 1]@.start);
            }
            assert(v.take(1) =~= seq![spans[0]@]);
            reveal_with_fuel(reduce_spans, 2);
        }
        Ok(Reduction { total: n, raw: false, folded: 1, spans })
    }

    /// Starts a fold over `count` segment receipts, none of them lifted yet.
    pub fn of_segments(count: usize) -> (r: Result<Reduction, PipelineError>)
        ensures
            count == 0 <==> r == Err::<Reduction, PipelineError>(PipelineError::EmptyInput),
            count > 0 <==> r is Ok,
            r matches Ok(fold) ==> {
                &&& fold.wf()
                &&& fold.raw()
                &&& fold.total() == count
                &&& fold.folded() == 0
                &&& fold.known() == Seq::<Span>::empty()
                &&& fold.joins() == 0
                &&& fold.next_action() == (Action::Lift { index: 0 })
            },
    {
        if count == 0 {
            return Err(PipelineError::EmptyInput);
        }
        let fold = Reduction { total: count, raw: true, folded: 0, spans: Vec::new() };
        assert(fold.known() =~= Seq::<Span>::empty());
        Ok(fold)
    }

    /// The backend call that comes next.
    pub fn action(&self) -> (a: Action)
        requires
            self.wf(),
        ensures
            a == self.next_action(),
    {
        if self.folded == self.total {
            Action::Finish
        } else if self.raw && self.spans.len() == self.folded {
            Action::Lift { index: self.folded }
        } else {
            Action::Join { index: self.folded }
        }
    }

    /// How many joins the fold has performed.
    pub fn joins_done(&self) -> (n: usize)
        requires
            self.wf(),
        ensures
            n == self.joins(),
    {
        if self.folded == 0 {
            0
        } else {
            self.folded - 1
        }
    }

    /// Records the outcome of the lift that `action` asked for: the range that
    /// the lifted receipt attests, or `None` where the backend failed.
    ///
    /// The first lifted receipt becomes the accumulator. A later one must
    /// begin where the accumulator ends, and then awaits its join. On failure
    /// nothing changes.
    pub fn lifted(&mut self, outcome: Option<ReceiptSpan>) -> (r: Result<(), PipelineError>)
        requires
            old(self).wf(),
            old(self).next_action() is Lift,
        ensures
            final(self).wf(),
            final(self).total() == old(self).total(),
            final(self).raw(),
            match outcome {
                None => r == Err::<(), PipelineError>(PipelineError::ProvingError) && *final(self)
                    == *old(self),
                Some(span) => if old(self).folded() == 0 {
                    &&& r is Ok
                    &&& final(self).folded() == 1
                    &&& final(self).known() == seq![span@]
                    &&& final(self).covered() == Some(span@)
                    &&& final(self).next_action() == (if old(self).total() == 1 {
                        Action::Finish
                    } else {
                        Action::Lift { index: 1 }
                    })
                } else if old(self).known().last().end == span@.start {
                    &&& r is Ok
                    &&& final(self).folded() == old(self).folded()
                    &&& final(self).known() == old(self).known().push(span@)
                    &&& final(self).next_action() == (Action::Join {
                        index: old(self).folded() as usize,
                    })
                } else {
                    &&& r == Err::<(), PipelineError>(PipelineError::NonAdjacentReceipts)
                    &&& *final(self) == *old(self)
                },
            },
    {
        let span = match outcome {
            None => {
                return Err(PipelineError::ProvingError);
            },
            Some(span) => span,
        };
        if self.folded == 0 {
            self.spans.push(span);
            self.folded = 1;
            proof {
                assert(self.known() =~= seq![span@]);
                assert(self.known().take(1) =~= seq![span@]);
                reveal_with_fuel(reduce_spans, 2);
            }
            return Ok(());
        }
        let last = self.spans.len() - 1;
        proof {
            assert(old(self).known().last() == self.spans[last as int]@);
        }
        if !self.spans[last].meets(&span) {
            return Err(PipelineError::NonAdjacentReceipts);
        }
        self.spans.push(span);
        proof {
            let before = old(self).known();
            let after = self.known();
            assert(after =~= before.push(span@));
            assert forall|k: int| 0 <= k < after.len() - 1 implies (#[trigger] after[k]).end
                == after[k + 1].start by {
                if k < before.len() - 1 {
                    assert(before[k].end == before[k + 1].start);
                }
            }
        }
        Ok(())
    }

    /// The range that the join which `action` asks for must attest: from the
    /// start of the first receipt to the end of the receipt joined in.
    pub open spec fn expected_join(&self) -> Span
        recommends
            self.wf(),
            self.next_action() is Join,
    {
        hull(self.known().take(self.folded() as int + 1))
    }

    /// Records the outcome of the join that `action` asked for: the range that
    /// the joined receipt attests, or `None` where the backend failed.
    ///
    /// A receipt that attests another range than the concatenation of its two
    /// operands is refused. On failure nothing changes.
    pub fn joined(&mut self, outcome: Option<ReceiptSpan>) -> (r: Result<(), PipelineError>)
        requires
            old(self).wf(),
            old(self).next_action() is Join,
        ensures
            final(self).wf(),
            final(self).total() == old(self).total(),
            final(self).raw() == old(self).raw(),
            final(self).known() == old(self).known(),
            match outcome {
                Some(span) if span@ == old(self).expected_join() => {
                    &&& r is Ok
                    &&& final(self).folded() == old(self).folded() + 1
                    &&& final(self).joins() == old(self).joins() + 1
                    &&& final(self).covered() == Some(span@)
                    &&& final(self).next_action() == (if old(self).folded() + 1 == old(
                        self,
                    ).total() {
                        Action::Finish
                    } else if old(self).raw() {
                        Action::Lift { index: (old(self).folded() + 1) as usize }
                    } else {
                        Action::Join { index: (old(self).folded() + 1) as usize }
                    })
                },
                _ => r == Err::<(), PipelineError>(PipelineError::ProvingError) && *final(self)
                    == *old(self),
            },
    {
        let span = match outcome {
            None => {
                return Err(PipelineError::ProvingError);
            },
            Some(span) => span,
        };
        let expected = ReceiptSpan::new(self.spans[0].start, self.spans[self.folded].end);
        proof {
            let upto = self.known().take(self.folded() as int + 1);
            assert(upto.first() == self.spans[0]@);
            assert(upto.last() == self.spans[self.folded as int]@);
            assert(expected@ == self.expected_join());
        }
        if !span.same(&expected) {
            return Err(PipelineError::ProvingError);
        }
        self.folded = self.folded + 1;
        proof {
            self.lemma_covered();
        }
        Ok(())
    }

    /// The range that the join which `action` asks for must attest.
    pub fn expected_join_span(&self) -> (span: ReceiptSpan)
        requires
            self.wf(),
            self.next_action() is Join,
        ensures
            span@ == self.expected_join(),
    {
        let span = ReceiptSpan::new(self.spans[0].start, self.spans[self.folded].end);
        proof {
            let upto = self.known().take(self.folded() as int + 1);
            assert(upto.first() == self.spans[0]@);
            assert(upto.last() == self.spans[self.folded as int]@);
        }
        span
    }

    /// Carries a fold over succinct receipts that attest `spans` through to
    /// its end, where every join succeeds and returns the receipt that it
    /// owes: the range of the one receipt left, and the number of joins made.
    ///
    /// A whole reduction of a session's receipts attests the range from the
    /// start of the first to the end of the last, after one join less than
    /// there are receipts.
    pub fn run_succinct(spans: Vec<ReceiptSpan>) -> (r: Result<(ReceiptSpan, usize), PipelineError>)
        ensures
            spans.len() == 0 <==> r == Err::<(ReceiptSpan, usize), PipelineError>(
                PipelineError::EmptyInput,
            ),
            spans.len() > 0 && !chained(views(spans@)) <==> r == Err::<
                (ReceiptSpan, usize),
                PipelineError,
            >(PipelineError::NonAdjacentReceipts),
            r matches Ok((span, joins)) ==> {
                &&& span@ == hull(views(spans@))
                &&& Some(span@) == reduce_spans(views(spans@))
                &&& joins == spans.len() - 1
            },
    {
        let ghost input = views(spans@);
        let ghost count = spans.len();
        let mut fold = match Reduction::of_succinct(spans) {
            Ok(fold) => fold,
            Err(e) => {
                return Err(e);
            },
        };
        loop
            invariant
                fold.wf(),
                !fold.raw(),
                fold.known() == input,
                fold.total() == count,
                count > 0,
                chained(input),
                input == views(spans@),
                count == spans.len(),
            decreases fold.total() - fold.folded(),
        {
            match fold.action() {
                Action::Finish => {
                    proof {
                        fold.lemma_finished();
                    }
                    return Ok((fold.covered_span(), fold.joins_done()));
                },
                Action::Join { index } => {
                    let expected = fold.expected_join_span();
                    let step = fold.joined(Some(expected));
                    if step.is_err() {
                        return Err(PipelineError::ProvingError);
                    }
                },
                Action::Lift { index } => {
                    return Err(PipelineError::ProvingError);
                },
            }
        }
    }

    /// Carries a fold over segment receipts through to its end, where the
    /// receipts lifted from them attest `spans`, in session order, and every
    /// join succeeds and returns the receipt that it owes: the range of the
    /// one receipt left, and the number of joins made.
    ///
    /// A whole reduction of a session's segment receipts attests the range
    /// from the start of the first segment to the end of the last, after one
    /// join less than there are segments.
    pub fn run_segments(spans: &Vec<ReceiptSpan>) -> (r: Result<
        (ReceiptSpan, usize),
        PipelineError,
    >)
        ensures
            spans.len() == 0 <==> r == Err::<(ReceiptSpan, usize), PipelineError>(
                PipelineError::EmptyInput,
            ),
            spans.len() > 0 && !chained(views(spans@)) <==> r == Err::<
                (ReceiptSpan, usize),
                PipelineError,
            >(PipelineError::NonAdjacentReceipts),
            r matches Ok((span, joins)) ==> {
                &&& span@ == hull(views(spans@))
                &&& Some(span@) == reduce_spans(views(spans@))
                &&& joins == spans.len() - 1
            },
    {
        let n = spans.len();
        let mut fold = match Reduction::of_segments(n) {
            Ok(fold) => fold,
            Err(e) => {
                return Err(e);
            },
        };
        loop
            invariant
                n == spans.len(),
                n > 0,
                fold.wf(),
                fold.raw(),
                fold.total() == n,
                fold.known().len() <= n,
                fold.known() == views(spans@).take(fold.known().len() as int),
            decreases 2 * (n - fold.folded()) - (fold.known().len() - fold.folded()),
        {
            match fold.action() {
                Action::Finish => {
                    proof {
                        fold.lemma_finished();
                        assert(views(spans@).take(n as int) =~= views(spans@));
                    }
                    return Ok((fold.covered_span(), fold.joins_done()));
                },
                Action::Lift { index } => {
                    let ghost before = fold.known();
                    let step = fold.lifted(Some(spans[index]));
                    match step {
                        Ok(()) => {
                            proof {
                                assert(fold.known() =~= views(spans@).take(index as int + 1));
                            }
                        },
                        Err(e) => {
                            proof {
                                let all = views(spans@);
                                assert(before.last() == all[index as int - 1]);
                                assert(all[index as int - 1].end != all[index as int - 1 + 1].start);
                            }
                            return Err(e);
                        },
                    }
                },
                Action::Join { index } => {
                    let expected = fold.expected_join_span();
                    let step = fold.joined(Some(expected));
                    if step.is_err() {
                        return Err(PipelineError::ProvingError);
                    }
                },
            }
        }
    }

    /// The range that the accumulated receipt attests.
    pub fn covered_span(&self) -> (span: ReceiptSpan)
        requires
            self.wf(),
            self.folded() >= 1,
        ensures
            self.covered() == Some(span@),
            span@ == hull(self.known().take(self.folded() as int)),
    {
        let span = ReceiptSpan::new(self.spans[0].start, self.spans[self.folded - 1].end);
        proof {
            self.lemma_covered();
            let upto = self.known().take(self.folded() as int);
            assert(upto.first() == self.spans[0]@);
            assert(upto.last() == self.spans[self.folded as int - 1]@);
        }
        span
    }

    /// Once a receipt is folded in, the accumulated range is the hull of the
    /// ranges folded so far.
    pub proof fn lemma_covered(&self)
        requires
            self.wf(),
            self.folded() >= 1,
        ensures
            self.covered() == Some(hull(self.known().take(self.folded() as int))),
    {
        let all = self.known();
        let upto = all.take(self.folded() as int);
        assert forall|k: int| 0 <= k < upto.len() - 1 implies (#[trigger] upto[k]).end == upto[k
            + 1].start by {
            assert(all[k].end == all[k + 1].start);
        }
        lemma_reduce_is_hull_of_chain(upto);
    }

    /// A finished fold over succinct receipts has performed one join less than
    /// it had receipts, none for a single receipt, and its accumulated range
    /// is the reduction of all the input ranges.
    pub proof fn lemma_finished(&self)
        requires
            self.wf(),
            self.next_action() == Action::Finish,
        ensures
            self.joins() == self.total() - 1,
            self.total() == 1 ==> self.joins() == 0,
            self.known().len() == self.total(),
            self.covered() == reduce_spans(self.known()),
            self.covered() == Some(hull(self.known())),
    {
        assert(self.known().take(self.folded() as int) =~= self.known());
        self.lemma_covered();
    }
}

} // verus!
