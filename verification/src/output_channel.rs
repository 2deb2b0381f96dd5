//! An output channel: a name and the double buffer the host fills.

use vstd::prelude::*;

use crate::channel_iter_mut::ChannelIterMut;
use crate::double_buffer::{spec_output_half, output_half, DoubleBuffer};

verus! {

/// One period of produced samples, fitted to a region of length `n`: the
/// first `n` produced samples where enough were produced, and the produced
/// samples followed by silence (zeros) where too few were.
pub open spec fn spec_fitted(samples: Seq<i32>, n: nat) -> Seq<i32> {
    Seq::new(n, |i: int| if i < samples.len() { samples[i] } else { 0i32 })
}

/// One output channel of a device session. The host deposits native samples
/// into one half of its double buffer per period; the driver plays that half
/// during the next period.
pub struct OutputChannel {
    /// Human-readable channel name reported by the driver.
    pub name: String,
    /// The channel's ping-pong storage.
    pub buffer: DoubleBuffer,
}

impl OutputChannel {
    /// The channel's regions have the session's fixed length.
    pub open spec fn wf(&self) -> bool {
        self.buffer.wf()
    }

    /// Binds a name to a channel's double buffer.
    pub fn new(name: &str, buffer: DoubleBuffer) -> (r: OutputChannel)
        ensures
            r.name@ == name@,
            r.buffer == buffer,
    {
        OutputChannel { name: name.to_string(), buffer }
    }

    /// The samples the driver will play after the callback with the given
    /// switch index: the contents of the half the host must fill now.
    pub open spec fn spec_current(&self, index: int) -> Seq<i32> {
        self.buffer.spec_region(spec_output_half(index))
    }

    /// Starts a write cursor over the half to fill for this switch index.
    /// Both halves have the same fixed length, so the cursor itself is the
    /// same for either index; [`Self::write`] picks the half.
    pub fn iter_mut(&self, _double_buffer_index: i32) -> (it: ChannelIterMut)
        ensures
            it.len == self.buffer.spec_len(),
            it.pos == 0,
    {
        ChannelIterMut::new(self.buffer.len())
    }

    /// Writes one period of native samples into the half selected for this
    /// switch index, never past the region's fixed length. A shorter period
    /// than the region is an output underrun: the remainder is padded with
    /// silence and the call reports `true`, the real-time path never fails. A
    /// longer one is cut at the region's length. The other half keeps its
    /// contents.
    pub fn write(&mut self, double_buffer_index: i32, native_samples: &Vec<i32>) -> (underrun:
        bool)
        requires
            old(self).wf(),
        ensures
            final(self).wf(),
            final(self).name@ == old(self).name@,
            final(self).buffer.spec_len() == old(self).buffer.spec_len(),
            final(self).spec_current(double_buffer_index as int) == spec_fitted(
                native_samples@,
                old(self).buffer.spec_len(),
            ),
            final(self).buffer.spec_region(
                crate::double_buffer::other_half(spec_output_half(double_buffer_index as int)),
            ) == old(self).buffer.spec_region(
                crate::double_buffer::other_half(spec_output_half(double_buffer_index as int)),
            ),
            underrun == (native_samples@.len() < old(self).buffer.spec_len()),
    {
        let n = self.buffer.len();
        let underrun = native_samples.len() < n;
        let mut fitted: Vec<i32> = Vec::new();
        let mut i: usize = 0;
        while i < n
            invariant
                i <= n,
                fitted@.len() == i,
                forall|j: int|
                    0 <= j < i ==> fitted@[j] == (if j < native_samples@.len() {
                        native_samples@[j]
                    } else {
                        0i32
                    }),
            decreases n - i,
        {
            if i < native_samples.len() {
                fitted.push(native_samples[i]);
            } else {
                fitted.push(0);
            }
            i = i + 1;
        }
        proof {
            assert(fitted@ =~= spec_fitted(native_samples@, old(self).buffer.spec_len()));
        }
        self.buffer.set_region(output_half(double_buffer_index), fitted);
        underrun
    }
}

} // verus!
