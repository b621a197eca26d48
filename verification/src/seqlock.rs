//! The sequence protocol of a sequential lock: the writer makes the sequence
//! odd while it writes, and a read is kept only when the sequence was even and
//! unchanged around it.
use vstd::prelude::*;

verus! {

/// A write is in progress: the sequence is odd.
pub fn is_writing(seq: usize) -> (r: bool)
    ensures
        r == (seq % 2 == 1),
{
    seq % 2 == 1
}

/// A read that saw the sequence `before` it and `after` it did not overlap a
/// write: no write was in progress and none started or ended meanwhile.
pub fn is_consistent_read(before: usize, after: usize) -> (r: bool)
    ensures
        r == (before % 2 == 0 && before == after),
{
    before % 2 == 0 && before == after
}

/// A write moves the sequence from even to odd, then back to even: each step
/// adds one (wrapping).
pub open spec fn next_seq(seq: usize) -> usize {
    if seq == usize::MAX {
        0
    } else {
        (seq + 1) as usize
    }
}

/// A reader that starts while no write is in progress, and sees the sequence
/// again after a whole write, rejects its read; a reader that sees the
/// sequence during a write waits.
pub proof fn lemma_write_invalidates_reads(seq: usize)
    requires
        seq % 2 == 0,
        seq < usize::MAX - 1,
    ensures
        next_seq(seq) % 2 == 1,
        next_seq(next_seq(seq)) % 2 == 0,
        next_seq(next_seq(seq)) != seq,
{
}

} // verus!
