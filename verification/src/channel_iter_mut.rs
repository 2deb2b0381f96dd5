//! Sequential write cursor over one buffer region of an output channel.

use vstd::prelude::*;

verus! {

/// Yields the write positions of one region in order, front to back, and
/// never a position past the region's fixed length: writing through this
/// cursor cannot wrap around or grow the region.
pub struct ChannelIterMut {
    /// The fixed length of the region being written.
    pub len: usize,
    /// The next position to hand out.
    pub pos: usize,
}

impl ChannelIterMut {
    /// Starts a cursor at the front of a region of the given length.
    pub fn new(len: usize) -> (it: ChannelIterMut)
        ensures
            it.len == len,
            it.pos == 0,
    {
        ChannelIterMut { len, pos: 0 }
    }

    /// Hands out the next write position, or `None` once the region is full.
    pub fn next(&mut self) -> (r: Option<usize>)
        ensures
            final(self).len == old(self).len,
            old(self).pos < old(self).len ==> {
                &&& r == Some(old(self).pos)
                &&& final(self).pos == old(self).pos + 1
            },
            old(self).pos >= old(self).len ==> {
                &&& r is None
                &&& final(self).pos == old(self).pos
            },
    {
        if self.pos < self.len {
            let p = self.pos;
            self.pos = self.pos + 1;
            Some(p)
        } else {
            None
        }
    }
}

} // verus!
