//! Splitting a block range into the windows that are queried one at a time.

use vstd::prelude::*;

verus! {

/// The policy default for the width of one window.
pub const DEFAULT_WINDOW: u64 = 2000;

/// An inclusive range of block numbers, queried in one log request.
#[derive(Clone, Copy, Debug, PartialEq, Eq, Structural)]
pub struct BlockSpan {
    pub first: u64,
    pub last: u64,
}

/// Where the window that starts at `from` ends: `size` blocks further on,
/// or at `to` if that comes first.
pub open spec fn span_end(from: u64, to: u64, size: u64) -> u64
    recommends
        from <= to,
{
    if to - from <= size {
        to
    } else {
        (from + size) as u64
    }
}

/// The windows of `[from, to]`, in ascending order. Each window reaches
/// `size` blocks beyond its first block, the last one is clipped to `to`, and
/// each window after the first starts one block after its predecessor ends.
pub open spec fn spans(from: u64, to: u64, size: u64) -> Seq<BlockSpan>
    decreases to - from,
{
    if from > to {
        Seq::empty()
    } else {
        let end = span_end(from, to, size);
        let head = seq![BlockSpan { first: from, last: end }];
        if end >= to {
            head
        } else {
            head + spans((end + 1) as u64, to, size)
        }
    }
}

/// The first window of `[from, to]`, or `None` when the range is empty.
pub fn next_span(from: u64, to: u64, size: u64) -> (r: Option<BlockSpan>)
    ensures
        from > to ==> r.is_none(),
        from <= to ==> r == Some(BlockSpan { first: from, last: span_end(from, to, size) }),
{
    if from > to {
        None
    } else if to - from <= size {
        Some(BlockSpan { first: from, last: to })
    } else {
        Some(BlockSpan { first: from, last: from + size })
    }
}

/// The windows of a range that are still to come. They are handed out one
/// at a time, in ascending order, and there are finitely many.
#[derive(Clone, Copy, Debug)]
pub struct Windows {
    /// The first block that no window handed out so far holds.
    pub cursor: u64,
    /// The last block of the range.
    pub to: u64,
    /// How far a window reaches beyond its first block.
    pub size: u64,
    /// Whether the window that ends at `to` has been handed out.
    pub done: bool,
}

impl Windows {
    /// The windows that are still to come.
    pub open spec fn remaining(&self) -> Seq<BlockSpan> {
        if self.done {
            Seq::empty()
        } else {
            spans(self.cursor, self.to, self.size)
        }
    }

    /// All windows of `[from, to]`, none of them handed out yet.
    pub fn new(from: u64, to: u64, size: u64) -> (r: Self)
        ensures
            r.remaining() == spans(from, to, size),
    {
        Windows { cursor: from, to, size, done: from > to }
    }

    /// Hands out the next window, or `None` when the range is used up.
    pub fn next_window(&mut self) -> (r: Option<BlockSpan>)
        ensures
            old(self).remaining().len() == 0 ==> r.is_none() && final(self).remaining().len() == 0,
            old(self).remaining().len() > 0 ==> r == Some(old(self).remaining()[0]),
            old(self).remaining().len() > 0 ==> final(self).remaining() == old(
                self,
            ).remaining().subrange(1, old(self).remaining().len() as int),
    {
        if self.done {
            return None;
        }
        match next_span(self.cursor, self.to, self.size) {
            None => {
                self.done = true;
                None
            },
            Some(span) => {
                let ghost before = self.remaining();
                if span.last >= self.to {
                    self.done = true;
                } else {
                    self.cursor = span.last + 1;
                }
                assert(self.remaining() =~= before.subrange(1, before.len() as int));
                Some(span)
            },
        }
    }
}

/// All windows of `[from, to]`, in ascending order.
pub fn chunk(from: u64, to: u64, size: u64) -> (out: Vec<BlockSpan>)
    ensures
        out@ == spans(from, to, size),
{
    let mut out: Vec<BlockSpan> = Vec::new();
    let mut cursor: u64 = from;
    let mut done: bool = from > to;
    while !done
        invariant
            !done ==> from <= cursor <= to,
            !done ==> out@ + spans(cursor, to, size) =~= spans(from, to, size),
            done ==> out@ =~= spans(from, to, size),
        decreases
            (if done { 0 } else { to - cursor + 1 }),
    {
        let last: u64 = if to - cursor <= size { to } else { cursor + size };
        out.push(BlockSpan { first: cursor, last });
        if last >= to {
            done = true;
        } else {
            cursor = last + 1;
        }
    }
    out
}

/// Every window lies inside `[from, to]`, is not empty and reaches at most
/// `size` blocks beyond its first block. A range that is not empty has at
/// least one window; the first window starts at `from` and the last one ends
/// at `to`.
pub proof fn lemma_spans_bounds(from: u64, to: u64, size: u64)
    ensures
        from > to ==> spans(from, to, size).len() == 0,
        from <= to ==> spans(from, to, size).len() > 0,
        from <= to ==> spans(from, to, size)[0].first == from,
        from <= to ==> spans(from, to, size).last().last == to,
        forall|i: int|
            0 <= i < spans(from, to, size).len() ==> {
                let s = #[trigger] spans(from, to, size)[i];
                &&& from <= s.first <= s.last <= to
                &&& s.last - s.first <= size
            },
    decreases to - from,
{
    if from <= to {
        let end = span_end(from, to, size);
        if end < to {
            let next = (end + 1) as u64;
            lemma_spans_bounds(next, to, size);
            let head = seq![BlockSpan { first: from, last: end }];
            let rest = spans(next, to, size);
            assert(spans(from, to, size) =~= head + rest);
            assert forall|i: int| 0 <= i < spans(from, to, size).len() implies {
                let s = #[trigger] spans(from, to, size)[i];
                &&& from <= s.first <= s.last <= to
                &&& s.last - s.first <= size
            } by {
                if i > 0 {
                    assert(spans(from, to, size)[i] == rest[i - 1]);
                }
            }
            assert(spans(from, to, size).last() == rest.last());
        }
    }
}

/// Consecutive windows are contiguous and ascending: each window starts
/// exactly one block after the window before it ends, so no two windows
/// share a block and no block lies between them.
pub proof fn lemma_spans_contiguous(from: u64, to: u64, size: u64)
    ensures
        forall|i: int|
            0 <= i < spans(from, to, size).len() - 1 ==> (#[trigger] spans(from, to, size)[i
                + 1]).first == spans(from, to, size)[i].last + 1,
    decreases to - from,
{
    if from <= to {
        let end = span_end(from, to, size);
        if end < to {
            let next = (end + 1) as u64;
            lemma_spans_contiguous(next, to, size);
            lemma_spans_bounds(next, to, size);
            let head = seq![BlockSpan { first: from, last: end }];
            let rest = spans(next, to, size);
            assert(spans(from, to, size) =~= head + rest);
            assert forall|i: int| 0 <= i < spans(from, to, size).len() - 1 implies (
            #[trigger] spans(from, to, size)[i + 1]).first == spans(from, to, size)[i].last
                + 1 by {
                assert(spans(from, to, size)[i + 1] == rest[i]);
                if i > 0 {
                    assert(spans(from, to, size)[i] == rest[i - 1]);
                    assert(rest[(i - 1) + 1] == rest[i]);
                }
            }
        }
    }
}

/// Windows further on hold higher blocks: of two windows, the earlier one
/// ends before the later one starts.
pub proof fn lemma_spans_disjoint(from: u64, to: u64, size: u64, i: int, j: int)
    requires
        0 <= i < j < spans(from, to, size).len(),
    ensures
        spans(from, to, size)[i].last < spans(from, to, size)[j].first,
    decreases j - i,
{
    lemma_spans_contiguous(from, to, size);
    lemma_spans_bounds(from, to, size);
    if j == i + 1 {
        assert(spans(from, to, size)[i + 1].first == spans(from, to, size)[i].last + 1);
    } else {
        lemma_spans_disjoint(from, to, size, i, j - 1);
        assert(spans(from, to, size)[(j - 1) + 1].first == spans(from, to, size)[j - 1].last + 1);
        assert(spans(from, to, size)[j - 1].first <= spans(from, to, size)[j - 1].last);
    }
}

/// The windows together hold every block of `[from, to]`.
pub proof fn lemma_spans_cover(from: u64, to: u64, size: u64, block: u64)
    requires
        from <= block <= to,
    ensures
        exists|i: int|
            0 <= i < spans(from, to, size).len() && (#[trigger] spans(from, to, size)[i]).first
                <= block <= spans(from, to, size)[i].last,
    decreases to - from,
{
    let end = span_end(from, to, size);
    let head = seq![BlockSpan { first: from, last: end }];
    if block <= end {
        assert(spans(from, to, size)[0] == head[0]);
        assert(spans(from, to, size)[0].first <= block <= spans(from, to, size)[0].last);
    } else {
        let next = (end + 1) as u64;
        lemma_spans_cover(next, to, size, block);
        let rest = spans(next, to, size);
        let k = choose|k: int| 0 <= k < rest.len() && (#[trigger] rest[k]).first <= block <= rest[k].last;
        assert(spans(from, to, size) =~= head + rest);
        assert(spans(from, to, size)[k + 1] == rest[k]);
    }
}

} // verus!
