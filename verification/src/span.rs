//! The mathematical model of what a receipt attests: a range of execution
//! between two machine states, and how adjacent ranges combine.

use vstd::prelude::*;

verus! {

/// Number of 32-bit words in the root hash of a memory image.
pub const DIGEST_WORDS: usize = 8;

/// A machine state as contracts see it.
pub struct State {
    pub pc: u32,
    pub merkle_root: Seq<u32>,
}

/// A machine state: the program counter and the root hash of the memory image.
#[derive(Clone, Copy, Debug)]
pub struct MachineState {
    pub pc: u32,
    pub merkle_root: [u32; 8],
}

impl View for MachineState {
    type V = State;

    open spec fn view(&self) -> State {
        State { pc: self.pc, merkle_root: self.merkle_root@ }
    }
}

impl MachineState {
    /// The state with the given program counter and root hash.
    pub fn new(pc: u32, merkle_root: [u32; 8]) -> (state: Self)
        ensures
            state.pc == pc,
            state.merkle_root == merkle_root,
    {
        MachineState { pc, merkle_root }
    }

    /// Whether two states have the same program counter and root hash.
    pub fn same(&self, other: &MachineState) -> (r: bool)
        ensures
            r == (self@ == other@),
    {
        if self.pc != other.pc {
            return false;
        }
        let mut i: usize = 0;
        while i < DIGEST_WORDS
            invariant
                i <= DIGEST_WORDS,
                forall|k: int| 0 <= k < i ==> self.merkle_root@[k] == other.merkle_root@[k],
            decreases DIGEST_WORDS - i,
        {
            if self.merkle_root[i] != other.merkle_root[i] {
                return false;
            }
            i = i + 1;
        }
        assert(self.merkle_root@ =~= other.merkle_root@);
        true
    }
}

/// The range of execution that a receipt attests: from the state just before
/// its first cycle to the state just after its last.
pub struct Span {
    pub start: State,
    pub end: State,
}

/// The range that a receipt attests, as the receipt records it.
#[derive(Clone, Copy, Debug)]
pub struct ReceiptSpan {
    pub start: MachineState,
    pub end: MachineState,
}

impl View for ReceiptSpan {
    type V = Span;

    open spec fn view(&self) -> Span {
        Span { start: self.start@, end: self.end@ }
    }
}

impl ReceiptSpan {
    /// The range from `start` to `end`.
    pub fn new(start: MachineState, end: MachineState) -> (span: Self)
        ensures
            span.start == start,
            span.end == end,
    {
        ReceiptSpan { start, end }
    }

    /// Whether two ranges have the same start and the same end.
    pub fn same(&self, other: &ReceiptSpan) -> (r: bool)
        ensures
            r == (self@ == other@),
    {
        self.start.same(&other.start) && self.end.same(&other.end)
    }

    /// Whether `next` begins in the state in which `self` ends.
    pub fn meets(&self, next: &ReceiptSpan) -> (r: bool)
        ensures
            r == (join_spans(self@, next@) is Some),
    {
        self.end.same(&next.start)
    }
}

/// The ranges of a sequence of receipts, in order.
pub open spec fn views(spans: Seq<ReceiptSpan>) -> Seq<Span> {
    Seq::new(spans.len(), |i: int| spans[i]@)
}

/// The range that joining `a` then `b` attests, if `b` begins where `a` ends.
pub open spec fn join_spans(a: Span, b: Span) -> Option<Span> {
    if a.end == b.start {
        Some(Span { start: a.start, end: b.end })
    } else {
        None
    }
}

/// Each range begins in the state in which the one before it ends.
pub open spec fn chained(spans: Seq<Span>) -> bool {
    forall|i: int| 0 <= i < spans.len() - 1 ==> (#[trigger] spans[i]).end == spans[i + 1].start
}

/// The range from the start of the first of `spans` to the end of the last.
pub open spec fn hull(spans: Seq<Span>) -> Span
    recommends
        spans.len() > 0,
{
    Span { start: spans.first().start, end: spans.last().end }
}

/// The range that a left-to-right fold of `join_spans` over `spans` attests.
/// There is none for an empty sequence, nor where two neighbours do not meet.
pub open spec fn reduce_spans(spans: Seq<Span>) -> Option<Span>
    decreases spans.len(),
{
    if spans.len() == 0 {
        None
    } else if spans.len() == 1 {
        Some(spans[0])
    } else {
        match reduce_spans(spans.drop_last()) {
            Some(acc) => join_spans(acc, spans.last()),
            None => None,
        }
    }
}

/// A fold over a non-empty sequence yields a range exactly when the sequence
/// is chained, and the range is then its hull.
pub proof fn lemma_reduce_is_hull_of_chain(spans: Seq<Span>)
    ensures
        reduce_spans(spans) == if spans.len() > 0 && chained(spans) {
            Some(hull(spans))
        } else {
            None
        },
    decreases spans.len(),
{
    if spans.len() >= 2 {
        let init = spans.drop_last();
        lemma_reduce_is_hull_of_chain(init);
        let n = spans.len() as int;
        if chained(spans) {
            assert forall|i: int| 0 <= i < init.len() - 1 implies (#[trigger] init[i]).end
                == init[i + 1].start by {
                assert(init[i] == spans[i]);
                assert(init[i + 1] == spans[i + 1]);
            }
            assert(spans[n - 2].end == spans[n - 2 + 1].start);
            assert(init.last() == spans[n - 2]);
            assert(init.first() == spans.first());
        } else {
            if chained(init) {
                assert(init.last() == spans[n - 2]);
                if init.last().end == spans.last().start {
                    assert forall|i: int| 0 <= i < spans.len() - 1 implies (#[trigger] spans[i]).end
                        == spans[i + 1].start by {
                        if i < n - 2 {
                            assert(init[i] == spans[i]);
                            assert(init[i + 1] == spans[i + 1]);
                        }
                    }
                }
            }
        }
    }
}

/// Joining is associative where it is defined: the range attested does not
/// depend on the shape of the reduction tree.
pub proof fn lemma_join_associative(a: Span, b: Span, c: Span)
    ensures
        (match join_spans(a, b) {
            Some(ab) => join_spans(ab, c),
            None => None,
        }) == (match join_spans(b, c) {
            Some(bc) => join_spans(a, bc),
            None => None,
        }),
{
}

/// Reducing a prefix and the remaining suffix and joining the two results
/// attests the same range as reducing the whole sequence, and fails where
/// reducing the whole fails.
pub proof fn lemma_reduce_concatenation(spans: Seq<Span>, k: int)
    requires
        0 < k < spans.len(),
    ensures
        reduce_spans(spans) == (match (
            reduce_spans(spans.subrange(0, k)),
            reduce_spans(spans.subrange(k, spans.len() as int)),
        ) {
            (Some(a), Some(b)) => join_spans(a, b),
            _ => None,
        }),
{
    let n = spans.len() as int;
    let pre = spans.subrange(0, k);
    let suf = spans.subrange(k, n);
    lemma_reduce_is_hull_of_chain(spans);
    lemma_reduce_is_hull_of_chain(pre);
    lemma_reduce_is_hull_of_chain(suf);
    assert(pre.last() == spans[k - 1]);
    assert(suf.first() == spans[k]);
    assert(pre.first() == spans.first());
    assert(suf.last() == spans.last());
    if chained(spans) {
        assert forall|i: int| 0 <= i < pre.len() - 1 implies (#[trigger] pre[i]).end == pre[i
            + 1].start by {
            assert(pre[i] == spans[i]);
            assert(pre[i + 1] == spans[i + 1]);
        }
        assert forall|i: int| 0 <= i < suf.len() - 1 implies (#[trigger] suf[i]).end == suf[i
            + 1].start by {
            assert(suf[i] == spans[k + i]);
            assert(suf[i + 1] == spans[k + i + 1]);
        }
        assert(spans[k - 1].end == spans[k - 1 + 1].start);
    } else if chained(pre) && chained(suf) && pre.last().end == suf.first().start {
        assert forall|i: int| 0 <= i < spans.len() - 1 implies (#[trigger] spans[i]).end
            == spans[i + 1].start by {
            if i < k - 1 {
                assert(pre[i] == spans[i]);
                assert(pre[i + 1] == spans[i + 1]);
            } else if i >= k {
                assert(suf[i - k] == spans[i]);
                assert(suf[i - k + 1] == spans[i + 1]);
            }
        }
    }
}

} // verus!
