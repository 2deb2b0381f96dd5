//! An input channel: a name and the double buffer the driver fills.

use vstd::prelude::*;

use crate::channel_iter::ChannelIter;
use crate::double_buffer::{spec_input_half, input_half, DoubleBuffer};

verus! {

/// One input channel of a device session. The driver deposits native
/// samples into one half of its double buffer per period; the host reads
/// that half during the callback.
pub struct InputChannel {
    /// Human-readable channel name reported by the driver.
    pub name: String,
    /// The channel's ping-pong storage.
    pub buffer: DoubleBuffer,
}

impl InputChannel {
    /// The channel's regions have the session's fixed length.
    pub open spec fn wf(&self) -> bool {
        self.buffer.wf()
    }

    /// Binds a name to a channel's double buffer.
    pub fn new(name: &str, buffer: DoubleBuffer) -> (r: InputChannel)
        ensures
            r.name@ == name@,
            r.buffer == buffer,
    {
        InputChannel { name: name.to_string(), buffer }
    }

    /// The samples readable during the callback with the given switch index:
    /// the contents of the half the driver has just filled.
    pub open spec fn spec_current(&self, index: int) -> Seq<i32> {
        self.buffer.spec_region(spec_input_half(index))
    }

    /// Starts a read cursor over the half that is readable for this switch
    /// index.
    pub fn iter(&self, double_buffer_index: i32) -> (it: ChannelIter)
        ensures
            it.samples@ == self.spec_current(double_buffer_index as int),
            it.pos == 0,
    {
        let region = self.buffer.region_copy(input_half(double_buffer_index));
        ChannelIter::new(region)
    }

    /// Deposits one period of native samples into the half that the callback
    /// with the given switch index will read, as the driver does between two
    /// callbacks. The other half keeps its contents.
    pub fn load(&mut self, double_buffer_index: i32, samples: Vec<i32>)
        requires
            old(self).wf(),
            samples@.len() == old(self).buffer.spec_len(),
        ensures
            final(self).wf(),
            final(self).name@ == old(self).name@,
            final(self).buffer.spec_len() == old(self).buffer.spec_len(),
            final(self).spec_current(double_buffer_index as int) == samples@,
    {
        self.buffer.set_region(input_half(double_buffer_index), samples);
    }
}

} // verus!
