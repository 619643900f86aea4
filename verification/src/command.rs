//! Walking through the command buffers of a pool, one index at a time.

use vstd::prelude::*;

verus! {

/// Position of a walk through a list of `len` command buffers.
#[derive(Debug, Clone, Copy, PartialEq, Eq, Structural)]
pub struct CommandBufferCursor {
    len: usize,
    index: usize,
}

impl CommandBufferCursor {
    /// Number of command buffers walked through.
    pub closed spec fn total(&self) -> usize {
        self.len
    }

    /// Index of the next command buffer to hand out.
    pub closed spec fn position(&self) -> usize {
        self.index
    }

    /// The position never passes the end.
    pub closed spec fn well_formed(&self) -> bool {
        self.index <= self.len
    }

    /// A well-formed cursor's position is at most its total.
    pub proof fn lemma_position_bounded(&self)
        requires
            self.well_formed(),
        ensures
            self.position() <= self.total(),
    {
    }

    /// A walk from the first of `len` command buffers.
    pub fn new(len: usize) -> (cursor: Self)
        ensures
            cursor.well_formed(),
            cursor.total() == len,
            cursor.position() == 0,
    {
        CommandBufferCursor { len, index: 0 }
    }

    /// Hands out the index of the next command buffer, if any is left.
    pub fn next(&mut self) -> (item: Option<usize>)
        requires
            old(self).well_formed(),
        ensures
            final(self).well_formed(),
            final(self).total() == old(self).total(),
            (final(self).position(), item) == walk_step(old(self).total(), old(self).position()),
    {
        let index = self.index;
        if index < self.len {
            self.index = self.index + 1;
            Some(index)
        } else {
            None
        }
    }

    /// Bounds on the number of command buffers: the whole list's length,
    /// both below and above.
    pub fn size_hint(&self) -> (hint: (usize, Option<usize>))
        ensures
            hint == (self.total(), Some(self.total())),
    {
        (self.len, Some(self.len))
    }

    /// Number of command buffers in the whole list.
    pub fn len(&self) -> (len: usize)
        ensures
            len == self.total(),
    {
        self.len
    }
}

/// One step of a walk through `len` command buffers from `position`: the
/// next position and the index handed out.
pub open spec fn walk_step(len: usize, position: usize) -> (usize, Option<usize>) {
    if position < len {
        ((position + 1) as usize, Some(position))
    } else {
        (position, None)
    }
}

/// What `k` steps of a walk through `len` command buffers from `position`
/// hand out, in order.
pub open spec fn walk(len: usize, position: usize, k: nat) -> Seq<Option<usize>>
    decreases k,
{
    if k == 0 {
        seq![]
    } else {
        let (next, item) = walk_step(len, position);
        seq![item] + walk(len, next, (k - 1) as nat)
    }
}

/// A walk through `len` command buffers hands out the indices from its
/// position up, one per step, and nothing once they are used up.
pub proof fn lemma_walk_order(len: usize, position: usize, k: nat)
    requires
        position <= len,
    ensures
        walk(len, position, k).len() == k,
        forall|i: int|
            0 <= i < k ==> #[trigger] walk(len, position, k)[i] == (if position + i < len {
                Some((position + i) as usize)
            } else {
                None
            }),
    decreases k,
{
    if k > 0 {
        let (next, item) = walk_step(len, position);
        lemma_walk_order(len, next, (k - 1) as nat);
        assert forall|i: int| 0 <= i < k implies #[trigger] walk(len, position, k)[i] == (if position
            + i < len {
            Some((position + i) as usize)
        } else {
            None
        }) by {
            if i > 0 {
                assert(walk(len, position, k)[i] == walk(len, next, (k - 1) as nat)[i - 1]);
            }
        }
    }
}

} // verus!