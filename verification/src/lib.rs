//! Verified core of an ASIO-style audio host: the sample codec between the
//! driver's native integer samples and a normalized fixed-point domain, the
//! ping-pong (double) buffer half-selection protocol, the mono/stereo channel
//! router with its linear pan law, and the buffer-switch dispatcher that runs
//! one buffer period per driver callback.
//!
//! Driver discovery, COM plumbing and every other I/O edge live outside this
//! library; they hand it plain values (channel counts, buffer length, native
//! sample words) and read plain values back.

pub mod channel_iter;
pub mod channel_iter_mut;
pub mod channel_router;
pub mod device_factory;
pub mod dispatcher;
pub mod double_buffer;
pub mod input_channel;
pub mod output_channel;
pub mod sample_codec;
pub mod types;
