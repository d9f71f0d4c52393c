//! The capture buffer between the hardware callback and the delivery loop.
//!
//! The callback side appends normalized samples with [`CaptureBuffer::push`];
//! the delivery side removes everything at once with [`CaptureBuffer::drain`].
//! The shell shares one buffer between the two threads under a lock whose
//! critical section is exactly one `push` or one `drain`; under that
//! discipline every interleaving of calls is some sequence of these two
//! operations, and [`lemma_buffer_conservation`] shows that no sample is ever
//! delivered twice or lost: the samples handed out across all drains,
//! together with what still sits in the buffer, are exactly the multiset of
//! samples pushed.

use vstd::prelude::*;
use vstd::multiset::Multiset;

use crate::normalizer::Sample;

verus! {

/// An accumulation buffer of normalized samples: append-only from the
/// callback side, drain-and-clear from the delivery side.
pub struct CaptureBuffer {
    samples: Vec<Sample>,
}

impl View for CaptureBuffer {
    type V = Seq<Sample>;

    closed spec fn view(&self) -> Seq<Sample> {
        self.samples@
    }
}

impl CaptureBuffer {
    /// Create an empty buffer at session start.
    pub fn new() -> (b: CaptureBuffer)
        ensures
            b@ == Seq::<Sample>::empty(),
    {
        CaptureBuffer { samples: Vec::new() }
    }

    /// How many samples are currently buffered.
    pub fn len(&self) -> (n: usize)
        ensures
            n == self@.len(),
    {
        self.samples.len()
    }

    /// Append one sample. The buffer afterwards holds exactly what it held
    /// before, in order, with `s` at the end.
    pub fn push(&mut self, s: Sample)
        ensures
            final(self)@ == old(self)@.push(s),
    {
        self.samples.push(s);
    }

    /// Atomically remove and return everything currently buffered, in the
    /// order it was pushed, leaving the buffer empty. An empty result means
    /// "nothing to deliver this tick", not an error.
    pub fn drain(&mut self) -> (out: Vec<Sample>)
        ensures
            out@ == old(self)@,
            final(self)@ == Seq::<Sample>::empty(),
    {
        let mut out: Vec<Sample> = Vec::new();
        core::mem::swap(&mut self.samples, &mut out);
        out
    }
}

/// One operation on the buffer, as the interleaved history of the two
/// threads records it.
pub enum BufferOp {
    Push(Sample),
    Drain,
}

/// The samples still sitting in the buffer after a history of operations,
/// starting from an empty buffer.
pub open spec fn remaining_after(ops: Seq<BufferOp>) -> Seq<Sample>
    decreases ops.len(),
{
    if ops.len() == 0 {
        Seq::<Sample>::empty()
    } else {
        match ops.last() {
            BufferOp::Push(s) => remaining_after(ops.drop_last()).push(s),
            BufferOp::Drain => Seq::<Sample>::empty(),
        }
    }
}

/// The multiset of all samples returned across all drains of a history.
pub open spec fn drained_during(ops: Seq<BufferOp>) -> Multiset<Sample>
    decreases ops.len(),
{
    if ops.len() == 0 {
        Multiset::<Sample>::empty()
    } else {
        match ops.last() {
            BufferOp::Push(_) => drained_during(ops.drop_last()),
            BufferOp::Drain => drained_during(ops.drop_last()).add(
                remaining_after(ops.drop_last()).to_multiset(),
            ),
        }
    }
}

/// The multiset of all samples pushed during a history.
pub open spec fn pushed_during(ops: Seq<BufferOp>) -> Multiset<Sample>
    decreases ops.len(),
{
    if ops.len() == 0 {
        Multiset::<Sample>::empty()
    } else {
        match ops.last() {
            BufferOp::Push(s) => pushed_during(ops.drop_last()).insert(s),
            BufferOp::Drain => pushed_during(ops.drop_last()),
        }
    }
}

/// The samples handed out across all drains of a history, concatenated in
/// the order they were returned.
pub open spec fn drained_seq(ops: Seq<BufferOp>) -> Seq<Sample>
    decreases ops.len(),
{
    if ops.len() == 0 {
        Seq::<Sample>::empty()
    } else {
        match ops.last() {
            BufferOp::Push(_) => drained_seq(ops.drop_last()),
            BufferOp::Drain => drained_seq(ops.drop_last()) + remaining_after(ops.drop_last()),
        }
    }
}

/// The samples pushed during a history, in push order.
pub open spec fn pushed_seq(ops: Seq<BufferOp>) -> Seq<Sample>
    decreases ops.len(),
{
    if ops.len() == 0 {
        Seq::<Sample>::empty()
    } else {
        match ops.last() {
            BufferOp::Push(s) => pushed_seq(ops.drop_last()).push(s),
            BufferOp::Drain => pushed_seq(ops.drop_last()),
        }
    }
}

/// Ordering: for every sequence of interleaved `push` and `drain` operations
/// starting from an empty buffer, what the drains hand out, in order,
/// followed by what still sits in the buffer, is exactly the sequence of
/// samples pushed — every sample pushed before a given drain is included in
/// that drain or a strictly later one, with no reordering.
pub proof fn lemma_buffer_order(ops: Seq<BufferOp>)
    ensures
        drained_seq(ops) + remaining_after(ops) == pushed_seq(ops),
    decreases ops.len(),
{
    if ops.len() == 0 {
        assert(drained_seq(ops) + remaining_after(ops) =~= pushed_seq(ops));
    } else {
        let prev = ops.drop_last();
        lemma_buffer_order(prev);
        match ops.last() {
            BufferOp::Push(s) => {
                assert(drained_seq(ops) + remaining_after(ops) =~= (drained_seq(prev)
                    + remaining_after(prev)).push(s));
            },
            BufferOp::Drain => {
                assert(drained_seq(ops) + remaining_after(ops) =~= drained_seq(prev)
                    + remaining_after(prev));
            },
        }
    }
}

/// Buffer integrity: for every sequence of interleaved `push` and `drain`
/// operations starting from an empty buffer, the multiset of samples
/// returned across all drains plus the samples still buffered equals exactly
/// the multiset pushed — no duplicates, no losses. In particular a sample
/// pushed during a drain's critical section appears in the current drain or
/// a later one, never in both and never in none.
pub proof fn lemma_buffer_conservation(ops: Seq<BufferOp>)
    ensures
        drained_during(ops).add(remaining_after(ops).to_multiset()) == pushed_during(ops),
    decreases ops.len(),
{
    broadcast use vstd::seq_lib::group_to_multiset_ensures;

    if ops.len() == 0 {
        assert(remaining_after(ops).to_multiset() =~= Multiset::<Sample>::empty());
        assert(drained_during(ops).add(remaining_after(ops).to_multiset()) =~= pushed_during(
            ops,
        ));
    } else {
        let prev = ops.drop_last();
        lemma_buffer_conservation(prev);
        match ops.last() {
            BufferOp::Push(s) => {
                assert(remaining_after(ops).to_multiset() =~= remaining_after(
                    prev,
                ).to_multiset().insert(s));
                assert(drained_during(ops).add(remaining_after(ops).to_multiset())
                    =~= drained_during(prev).add(remaining_after(prev).to_multiset()).insert(s));
            },
            BufferOp::Drain => {
                assert(remaining_after(ops).to_multiset() =~= Multiset::<Sample>::empty());
                assert(drained_during(ops).add(remaining_after(ops).to_multiset())
                    =~= drained_during(prev).add(remaining_after(prev).to_multiset()));
            },
        }
    }
}

} // verus!
