//! One channel's ping-pong storage: two fixed-length native sample regions,
//! "A" and "B", and the protocol that selects one of them for the current
//! driver callback.
//!
//! The driver's buffer-switch index (0 or 1) names the half the host must now
//! fill on the output side; on the input side the freshly readable half is
//! the opposite one, so the two sides always select opposite regions for the
//! same index. The selected half is recomputed from the index on every call
//! and never stored; the pair of regions is fixed for the session.

use vstd::prelude::*;

use crate::types::SetupError;

verus! {

/// Which of the two fixed regions of a double buffer is meant.
#[derive(Copy, Clone, Debug, PartialEq, Eq, Structural)]
pub enum BufferHalf {
    A,
    B,
}

/// The half an input channel reads during the callback with the given
/// switch index: the half the driver has just finished filling.
pub open spec fn spec_input_half(index: int) -> BufferHalf {
    if index == 0 {
        BufferHalf::B
    } else {
        BufferHalf::A
    }
}

/// The half an output channel writes during the callback with the given
/// switch index: the half the driver expects the host to fill now.
pub open spec fn spec_output_half(index: int) -> BufferHalf {
    if index == 0 {
        BufferHalf::A
    } else {
        BufferHalf::B
    }
}

/// Returns the half to read on the input side for this switch index.
pub fn input_half(double_buffer_index: i32) -> (h: BufferHalf)
    ensures
        h == spec_input_half(double_buffer_index as int),
{
    if double_buffer_index == 0 {
        BufferHalf::B
    } else {
        BufferHalf::A
    }
}

/// Returns the half to write on the output side for this switch index.
pub fn output_half(double_buffer_index: i32) -> (h: BufferHalf)
    ensures
        h == spec_output_half(double_buffer_index as int),
{
    if double_buffer_index == 0 {
        BufferHalf::A
    } else {
        BufferHalf::B
    }
}

/// Half alternation. As the driver's switch index alternates 0,1,0,1,...,
/// the selected half alternates strictly between A and B, on the read side
/// and on the write side alike; and at every index the two sides select
/// opposite halves (the inverted-sense rule for inputs against outputs).
pub proof fn lemma_half_alternation(i: int, j: int)
    requires
        i == 0 || i == 1,
        j == 0 || j == 1,
        i != j,
    ensures
        spec_input_half(i) != spec_input_half(j),
        spec_output_half(i) != spec_output_half(j),
        spec_input_half(i) != spec_output_half(i),
{
}

/// One channel's two fixed-length regions of native samples. The regions
/// are established once, at session setup, and only their contents change
/// afterwards; every channel of a session has the same region length.
pub struct DoubleBuffer {
    /// Region A, selected for output when the switch index is 0.
    pub a: Vec<i32>,
    /// Region B, selected for input when the switch index is 0.
    pub b: Vec<i32>,
}

impl DoubleBuffer {
    /// Both regions have the same fixed length.
    pub open spec fn wf(&self) -> bool {
        self.a@.len() == self.b@.len()
    }

    /// The fixed region length, in samples.
    pub open spec fn spec_len(&self) -> nat {
        self.a@.len()
    }

    /// The contents of the given half.
    pub open spec fn spec_region(&self, h: BufferHalf) -> Seq<i32> {
        match h {
            BufferHalf::A => self.a@,
            BufferHalf::B => self.b@,
        }
    }

    /// Builds a double buffer of the given region length with both regions
    /// silent (all samples zero).
    pub fn new(len: usize) -> (r: DoubleBuffer)
        ensures
            r.wf(),
            r.spec_len() == len,
            forall|i: int| 0 <= i < len ==> r.a@[i] == 0i32,
            forall|i: int| 0 <= i < len ==> r.b@[i] == 0i32,
    {
        let mut a: Vec<i32> = Vec::new();
        let mut i: usize = 0;
        while i < len
            invariant
                i <= len,
                a@.len() == i,
                forall|j: int| 0 <= j < i ==> a@[j] == 0i32,
            decreases len - i,
        {
            a.push(0);
            i = i + 1;
        }
        let mut b: Vec<i32> = Vec::new();
        let mut k: usize = 0;
        while k < len
            invariant
                k <= len,
                b@.len() == k,
                forall|j: int| 0 <= j < k ==> b@[j] == 0i32,
            decreases len - k,
        {
            b.push(0);
            k = k + 1;
        }
        DoubleBuffer { a, b }
    }

    /// Adopts two regions delivered by the setup layer. Regions of unequal
    /// length cannot form a ping-pong pair and are a setup-time fatal error.
    pub fn from_regions(a: Vec<i32>, b: Vec<i32>) -> (r: Result<DoubleBuffer, SetupError>)
        ensures
            a@.len() == b@.len() <==> r is Ok,
            r is Ok ==> r->Ok_0.a@ == a@ && r->Ok_0.b@ == b@ && r->Ok_0.wf(),
            r is Err ==> r->Err_0 == SetupError::BufferLengthMismatch,
    {
        if a.len() == b.len() {
            Ok(DoubleBuffer { a, b })
        } else {
            Err(SetupError::BufferLengthMismatch)
        }
    }

    /// The number of samples in each region.
    pub fn len(&self) -> (n: usize)
        ensures
            n == self.spec_len(),
    {
        self.a.len()
    }

    /// Borrows the region selected as current for this callback, valid for
    /// the duration of the call.
    pub fn current_region(&self, h: BufferHalf) -> (r: &Vec<i32>)
        ensures
            r@ == self.spec_region(h),
    {
        match h {
            BufferHalf::A => &self.a,
            BufferHalf::B => &self.b,
        }
    }

    /// Copies the contents of one half out, sample by sample.
    pub fn region_copy(&self, h: BufferHalf) -> (r: Vec<i32>)
        ensures
            r@ == self.spec_region(h),
    {
        let region = self.current_region(h);
        let mut r: Vec<i32> = Vec::new();
        let mut i: usize = 0;
        while i < region.len()
            invariant
                i <= region@.len(),
                r@.len() == i,
                region@ == self.spec_region(h),
                forall|j: int| 0 <= j < i ==> r@[j] == region@[j],
            decreases region@.len() - i,
        {
            r.push(region[i]);
            i = i + 1;
        }
        proof {
            assert(r@ =~= self.spec_region(h));
        }
        r
    }

    /// Replaces the contents of one half, leaving the other untouched. The
    /// new contents must have the fixed region length: the pair never grows,
    /// shrinks or moves.
    pub fn set_region(&mut self, h: BufferHalf, data: Vec<i32>)
        requires
            data@.len() == old(self).spec_len(),
            old(self).wf(),
        ensures
            final(self).wf(),
            final(self).spec_len() == old(self).spec_len(),
            final(self).spec_region(h) == data@,
            final(self).spec_region(other_half(h)) == old(self).spec_region(other_half(h)),
    {
        match h {
            BufferHalf::A => {
                self.a = data;
            },
            BufferHalf::B => {
                self.b = data;
            },
        }
    }
}

/// The half that is not the given one.
pub open spec fn other_half(h: BufferHalf) -> BufferHalf {
    match h {
        BufferHalf::A => BufferHalf::B,
        BufferHalf::B => BufferHalf::A,
    }
}

} // verus!
