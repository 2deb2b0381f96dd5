//! The verifiable planning half of device setup.
//!
//! Opening a device is driver I/O and lives outside this library; what can be
//! decided from plain values is decided here: how many channels a session
//! uses of those the driver offers, and the exact layout of the buffer
//! request records handed to the driver.

use vstd::prelude::*;

use crate::types::{ASIOBool, BufferInfo};

verus! {

/// Builds sessions from what the driver reports; only the decisions on plain
/// values stand here, the driver calls themselves stay with the setup layer.
pub struct DeviceFactory {}

impl DeviceFactory {
    /// How many channels of one direction a session uses: all the driver
    /// offers, capped at stereo.
    pub fn usable_channel_count(max_channels: i32) -> (r: i32)
        ensures
            r == if max_channels < 2 {
                max_channels as int
            } else {
                2int
            },
    {
        if max_channels < 2 {
            max_channels
        } else {
            2
        }
    }

    /// The buffer request records for one session, in the order the driver
    /// expects them: one per input channel, then one per output channel, each
    /// naming its channel index and direction, with the region handles left
    /// blank for the driver to fill.
    pub fn plan_buffer_infos(num_input_channels: i32, num_output_channels: i32) -> (r: Vec<
        BufferInfo,
    >)
        requires
            0 <= num_input_channels,
            0 <= num_output_channels,
            num_input_channels + num_output_channels <= i32::MAX,
        ensures
            r@.len() == num_input_channels + num_output_channels,
            forall|j: int|
                0 <= j < num_input_channels ==> {
                    &&& (#[trigger] r@[j]).is_input == ASIOBool::True
                    &&& r@[j].channel_num == j
                    &&& r@[j].buffers[0] == 0
                    &&& r@[j].buffers[1] == 0
                },
            forall|j: int|
                num_input_channels <= j < r@.len() ==> {
                    &&& (#[trigger] r@[j]).is_input == ASIOBool::False
                    &&& r@[j].channel_num == j - num_input_channels
                    &&& r@[j].buffers[0] == 0
                    &&& r@[j].buffers[1] == 0
                },
    {
        let mut r: Vec<BufferInfo> = Vec::new();
        let mut id: i32 = 0;
        while id < num_input_channels
            invariant
                0 <= id <= num_input_channels,
                r@.len() == id,
                forall|j: int|
                    0 <= j < id ==> {
                        &&& (#[trigger] r@[j]).is_input == ASIOBool::True
                        &&& r@[j].channel_num == j
                        &&& r@[j].buffers[0] == 0
                        &&& r@[j].buffers[1] == 0
                    },
            decreases num_input_channels - id,
        {
            r.push(
                BufferInfo {
                    channel_num: id,
                    is_input: ASIOBool::True,
                    buffers: [0usize; 2],
                },
            );
            id = id + 1;
        }
        let mut id2: i32 = 0;
        while id2 < num_output_channels
            invariant
                0 <= id2 <= num_output_channels,
                0 <= num_input_channels,
                num_input_channels + num_output_channels <= i32::MAX,
                r@.len() == num_input_channels + id2,
                forall|j: int|
                    0 <= j < num_input_channels ==> {
                        &&& (#[trigger] r@[j]).is_input == ASIOBool::True
                        &&& r@[j].channel_num == j
                        &&& r@[j].buffers[0] == 0
                        &&& r@[j].buffers[1] == 0
                    },
                forall|j: int|
                    num_input_channels <= j < r@.len() ==> {
                        &&& (#[trigger] r@[j]).is_input == ASIOBool::False
                        &&& r@[j].channel_num == j - num_input_channels
                        &&& r@[j].buffers[0] == 0
                        &&& r@[j].buffers[1] == 0
                    },
            decreases num_output_channels - id2,
        {
            r.push(
                BufferInfo {
                    channel_num: id2,
                    is_input: ASIOBool::False,
                    buffers: [0usize; 2],
                },
            );
            id2 = id2 + 1;
        }
        r
    }
}

} // verus!
