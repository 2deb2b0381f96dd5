//! Sequential read cursor over one buffer region of an input channel.

use vstd::prelude::*;

verus! {

/// Reads the samples of one region in order, front to back. Holds its own
/// copy of the region, so it stays valid for the whole callback regardless
/// of what happens to the channel meanwhile.
pub struct ChannelIter {
    /// The samples of the region being read.
    pub samples: Vec<i32>,
    /// Index of the next sample to hand out.
    pub pos: usize,
}

impl ChannelIter {
    /// Starts a cursor at the front of the given region.
    pub fn new(samples: Vec<i32>) -> (it: ChannelIter)
        ensures
            it.samples@ == samples@,
            it.pos == 0,
    {
        ChannelIter { samples, pos: 0 }
    }

    /// How many samples have not been handed out yet.
    pub open spec fn spec_remaining(&self) -> int {
        self.samples@.len() - self.pos
    }

    /// Hands out the next sample, or `None` once every sample of the region
    /// has been read.
    pub fn next(&mut self) -> (r: Option<i32>)
        ensures
            final(self).samples@ == old(self).samples@,
            old(self).pos < old(self).samples@.len() ==> {
                &&& r == Some(old(self).samples@[old(self).pos as int])
                &&& final(self).pos == old(self).pos + 1
            },
            old(self).pos >= old(self).samples@.len() ==> {
                &&& r is None
                &&& final(self).pos == old(self).pos
            },
    {
        if self.pos < self.samples.len() {
            let v = self.samples[self.pos];
            self.pos = self.pos + 1;
            Some(v)
        } else {
            None
        }
    }
}

} // verus!
