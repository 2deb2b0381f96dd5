//! The single entry point of the real-time path.
//!
//! A [`DeviceSession`] bundles what the setup layer established once: the
//! channels with their double buffers, the codec resolved from the native
//! format tag, the router with its pan law, the buffer length and the nominal
//! sample rate. The [`BufferSwitchDispatcher`] holds at most one session —
//! idle without one, active with one — and runs one buffer period per
//! callback: select buffer halves, read and decode every input channel,
//! route, encode and write every output channel.
//!
//! An output period shorter than the region is an underrun: the remainder is
//! padded with silence and counted, and the callback never fails. Nothing is
//! retained across calls except the buffers themselves and the underrun
//! counter.

use vstd::prelude::*;

use crate::channel_router::{
    spec_route,
    spec_topology_supported,
    spec_views,
    ChannelRouter,
    PanState,
};
use crate::double_buffer::{other_half, spec_output_half, input_half};
use crate::input_channel::InputChannel;
use crate::output_channel::{spec_fitted, OutputChannel};
use crate::sample_codec::{
    spec_decode_seq,
    spec_encode_seq,
    spec_norm_bounded,
    SampleCodec,
};
use crate::types::{ASIOSampleType, MessageSelector, SetupError};

verus! {

/// All input channels of a session, read at the given switch index and
/// decoded into the normalized domain.
pub open spec fn spec_decoded_inputs(inputs: Seq<InputChannel>, index: int) -> Seq<Seq<i64>> {
    Seq::new(inputs.len(), |c: int| spec_decode_seq(inputs[c].spec_current(index)))
}

/// The native output streams one callback produces: inputs read and decoded,
/// routed, and encoded again.
pub open spec fn spec_period_outputs(sess: DeviceSession, index: int) -> Seq<Seq<i32>> {
    let routed = spec_route(
        spec_decoded_inputs(sess.input_channels@, index),
        sess.output_channels@.len() as int,
        sess.router.pan_state.pan as int,
        sess.router.pan_state.volume as int,
    );
    Seq::new(routed.len(), |c: int| spec_encode_seq(routed[c]))
}

/// Identity passthrough. With as many output channels as input channels —
/// mono to mono or stereo to stereo — one callback reproduces every input
/// region bit for bit on its output channel: the routing is identity and
/// the normalization round trip is exact.
pub proof fn lemma_identity_passthrough(sess: DeviceSession, index: int)
    requires
        sess.wf(),
        sess.input_channels@.len() == sess.output_channels@.len(),
    ensures
        forall|c: int|
            0 <= c < sess.output_channels@.len() ==> spec_period_outputs(sess, index)[c]
                == sess.input_channels@[c].spec_current(index),
{
    let decoded = spec_decoded_inputs(sess.input_channels@, index);
    let routed = spec_route(
        decoded,
        sess.output_channels@.len() as int,
        sess.router.pan_state.pan as int,
        sess.router.pan_state.volume as int,
    );
    assert(routed =~= decoded);
    assert forall|c: int| 0 <= c < sess.output_channels@.len() implies spec_period_outputs(
        sess,
        index,
    )[c] == sess.input_channels@[c].spec_current(index) by {
        crate::sample_codec::lemma_buffer_round_trip(sess.input_channels@[c].spec_current(index));
    }
}

/// How many of the produced streams fall short of the region length: the
/// number of output underruns one delivery causes.
pub open spec fn spec_underruns(outs: Seq<Seq<i32>>, n: nat) -> nat
    decreases outs.len(),
{
    if outs.len() == 0 {
        0
    } else {
        spec_underruns(outs.drop_last(), n) + (if outs.last().len() < n {
            1nat
        } else {
            0nat
        })
    }
}

/// Counting underruns over a prefix, one stream at a time.
proof fn lemma_underruns_step(outs: Seq<Seq<i32>>, n: nat, k: int)
    requires
        0 <= k < outs.len(),
    ensures
        spec_underruns(outs.take(k + 1), n) == spec_underruns(outs.take(k), n) + (if outs[k].len()
            < n {
            1nat
        } else {
            0nat
        }),
{
    assert(outs.take(k + 1).drop_last() =~= outs.take(k));
    assert(outs.take(k + 1).last() == outs[k]);
}

/// Streams that all reach the region length cause no underrun.
pub proof fn lemma_full_streams_no_underrun(outs: Seq<Seq<i32>>, n: nat)
    requires
        forall|c: int| 0 <= c < outs.len() ==> (#[trigger] outs[c]).len() >= n,
    ensures
        spec_underruns(outs, n) == 0,
    decreases outs.len(),
{
    if outs.len() > 0 {
        assert(forall|c: int|
            0 <= c < outs.drop_last().len() ==> (#[trigger] outs.drop_last()[c]).len() >= n);
        lemma_full_streams_no_underrun(outs.drop_last(), n);
    }
}

/// How one write of produced samples relates an output channel's state after
/// a callback to its state before: the selected half holds the produced
/// samples fitted to the region, the opposite half and the name are
/// untouched.
pub open spec fn spec_channel_written(
    before: OutputChannel,
    after: OutputChannel,
    index: int,
    data: Seq<i32>,
    n: nat,
) -> bool {
    &&& after.name@ == before.name@
    &&& after.wf()
    &&& after.buffer.spec_len() == n
    &&& after.spec_current(index) == spec_fitted(data, n)
    &&& after.buffer.spec_region(other_half(spec_output_half(index)))
        == before.buffer.spec_region(other_half(spec_output_half(index)))
}

/// Everything the setup layer establishes once for one device: name, codec,
/// router configuration, the channels with their double buffers, the fixed
/// buffer length and the nominal sample rate (informational only here).
pub struct DeviceSession {
    /// The driver's reported name.
    pub driver_name: String,
    /// Codec resolved from the native format tag, once, at setup.
    pub codec: SampleCodec,
    /// Router with its pan law configuration.
    pub router: ChannelRouter,
    /// The input channels, at most two.
    pub input_channels: Vec<InputChannel>,
    /// The output channels, at most two.
    pub output_channels: Vec<OutputChannel>,
    /// Samples per buffer half, identical across all channels.
    pub buffer_len: usize,
    /// Nominal sample rate in hertz; used for period-budget reasoning by the
    /// setup layer, not enforced here.
    pub sample_rate: u32,
}

/// Every channel's double buffer is intact and has the session's length.
pub open spec fn spec_channels_sized(
    inputs: Seq<InputChannel>,
    outputs: Seq<OutputChannel>,
    n: nat,
) -> bool {
    &&& forall|c: int|
        0 <= c < inputs.len() ==> (#[trigger] inputs[c]).wf() && inputs[c].buffer.spec_len() == n
    &&& forall|c: int|
        0 <= c < outputs.len() ==> (#[trigger] outputs[c]).wf() && outputs[c].buffer.spec_len()
            == n
}

impl DeviceSession {
    /// A session the dispatcher can run: supported topology, well-formed pan
    /// law, every channel's regions of the session's length.
    pub open spec fn wf(&self) -> bool {
        &&& spec_topology_supported(
            self.input_channels@.len() as int,
            self.output_channels@.len() as int,
        )
        &&& self.router.wf()
        &&& spec_channels_sized(self.input_channels@, self.output_channels@, self.buffer_len as nat)
    }

    /// Builds a session from what the setup layer negotiated, rejecting at
    /// this single point everything the real-time path must never see: a
    /// native format this library cannot convert, a channel topology beyond
    /// stereo or without a channel on one side, and buffer regions that do
    /// not have the announced length.
    pub fn new(
        driver_name: String,
        sample_type: ASIOSampleType,
        pan_state: PanState,
        input_channels: Vec<InputChannel>,
        output_channels: Vec<OutputChannel>,
        buffer_len: usize,
        sample_rate: u32,
    ) -> (r: Result<DeviceSession, SetupError>)
        requires
            pan_state.wf(),
        ensures
            r is Ok <==> {
                &&& SampleCodec::spec_supports(sample_type)
                &&& spec_topology_supported(
                    input_channels@.len() as int,
                    output_channels@.len() as int,
                )
                &&& spec_channels_sized(input_channels@, output_channels@, buffer_len as nat)
            },
            !SampleCodec::spec_supports(sample_type) ==> r == Result::<
                DeviceSession,
                SetupError,
            >::Err(SetupError::UnsupportedSampleType),
            SampleCodec::spec_supports(sample_type) && !spec_topology_supported(
                input_channels@.len() as int,
                output_channels@.len() as int,
            ) ==> r == Result::<DeviceSession, SetupError>::Err(SetupError::UnsupportedTopology),
            SampleCodec::spec_supports(sample_type) && spec_topology_supported(
                input_channels@.len() as int,
                output_channels@.len() as int,
            ) && !spec_channels_sized(input_channels@, output_channels@, buffer_len as nat) ==> r
                == Result::<DeviceSession, SetupError>::Err(SetupError::BufferLengthMismatch),
            r is Ok ==> {
                &&& r->Ok_0.wf()
                &&& r->Ok_0.driver_name@ == driver_name@
                &&& r->Ok_0.codec == SampleCodec::Int32Lsb
                &&& r->Ok_0.router.pan_state == pan_state
                &&& r->Ok_0.input_channels@ == input_channels@
                &&& r->Ok_0.output_channels@ == output_channels@
                &&& r->Ok_0.buffer_len == buffer_len
                &&& r->Ok_0.sample_rate == sample_rate
            },
    {
        let codec = match SampleCodec::for_format(sample_type) {
            Ok(codec) => codec,
            Err(e) => {
                return Err(e);
            },
        };
        let ins = input_channels.len();
        let outs = output_channels.len();
        if !((ins == 1 || ins == 2) && (outs == 1 || outs == 2)) {
            return Err(SetupError::UnsupportedTopology);
        }
        let mut c: usize = 0;
        while c < input_channels.len()
            invariant
                c <= input_channels@.len(),
                SampleCodec::spec_supports(sample_type),
                spec_topology_supported(
                    input_channels@.len() as int,
                    output_channels@.len() as int,
                ),
                forall|j: int|
                    0 <= j < c ==> (#[trigger] input_channels@[j]).wf()
                        && input_channels@[j].buffer.spec_len() == buffer_len,
            decreases input_channels@.len() - c,
        {
            let ch = &input_channels[c];
            if ch.buffer.a.len() != buffer_len || ch.buffer.b.len() != buffer_len {
                return Err(SetupError::BufferLengthMismatch);
            }
            c = c + 1;
        }
        let mut k: usize = 0;
        while k < output_channels.len()
            invariant
                k <= output_channels@.len(),
                SampleCodec::spec_supports(sample_type),
                spec_topology_supported(
                    input_channels@.len() as int,
                    output_channels@.len() as int,
                ),
                forall|j: int|
                    0 <= j < k ==> (#[trigger] output_channels@[j]).wf()
                        && output_channels@[j].buffer.spec_len() == buffer_len,
            decreases output_channels@.len() - k,
        {
            let ch = &output_channels[k];
            if ch.buffer.a.len() != buffer_len || ch.buffer.b.len() != buffer_len {
                return Err(SetupError::BufferLengthMismatch);
            }
            k = k + 1;
        }
        Ok(
            DeviceSession {
                driver_name,
                codec,
                router: ChannelRouter::new(pan_state),
                input_channels,
                output_channels,
                buffer_len,
                sample_rate,
            },
        )
    }

    /// Runs the read half of one buffer period: reads every input channel's
    /// current half, decodes, routes, and encodes the output streams. The
    /// session is not touched.
    pub fn compute_outputs(&self, double_buffer_index: i32) -> (produced: Vec<Vec<i32>>)
        requires
            self.wf(),
        ensures
            spec_views(produced@) == spec_period_outputs(*self, double_buffer_index as int),
            produced@.len() == self.output_channels@.len(),
            forall|c: int|
                0 <= c < produced@.len() ==> (#[trigger] produced@[c])@.len() == self.buffer_len,
    {
        let ghost index = double_buffer_index as int;
        let mut norm: Vec<Vec<i64>> = Vec::new();
        let mut c: usize = 0;
        while c < self.input_channels.len()
            invariant
                self.wf(),
                index == double_buffer_index as int,
                c <= self.input_channels@.len(),
                norm@.len() == c,
                forall|j: int|
                    0 <= j < c ==> (#[trigger] norm@[j])@ == spec_decode_seq(
                        self.input_channels@[j].spec_current(index),
                    ),
                forall|j: int| 0 <= j < c ==> spec_norm_bounded((#[trigger] norm@[j])@),
                forall|j: int| 0 <= j < c ==> (#[trigger] norm@[j])@.len() == self.buffer_len,
            decreases self.input_channels@.len() - c,
        {
            let ch = &self.input_channels[c];
            let region = ch.buffer.current_region(input_half(double_buffer_index));
            norm.push(self.codec.decode_buffer(region));
            c = c + 1;
        }
        proof {
            assert(spec_views(norm@) =~= spec_decoded_inputs(self.input_channels@, index));
        }
        let routed = self.router.route(&norm, self.output_channels.len());
        let ghost routed_views = spec_route(
            spec_decoded_inputs(self.input_channels@, index),
            self.output_channels@.len() as int,
            self.router.pan_state.pan as int,
            self.router.pan_state.volume as int,
        );
        proof {
            assert(spec_views(routed@) == routed_views);
            assert forall|j: int| 0 <= j < routed@.len() implies (#[trigger] routed@[j])@.len()
                == self.buffer_len by {
                assert(routed@[j]@ == spec_views(routed@)[j]);
            }
        }
        let mut produced: Vec<Vec<i32>> = Vec::new();
        let mut k: usize = 0;
        while k < routed.len()
            invariant
                self.wf(),
                k <= routed@.len(),
                produced@.len() == k,
                spec_views(routed@) == routed_views,
                forall|j: int| 0 <= j < routed@.len() ==> (#[trigger] routed@[j])@.len()
                    == self.buffer_len,
                forall|j: int|
                    0 <= j < k ==> (#[trigger] produced@[j])@ == spec_encode_seq(routed@[j]@),
                forall|j: int| 0 <= j < k ==> (#[trigger] produced@[j])@.len() == self.buffer_len,
            decreases routed@.len() - k,
        {
            produced.push(self.codec.encode_buffer(&routed[k]));
            k = k + 1;
        }
        proof {
            assert(spec_views(produced@) =~= spec_period_outputs(
                *self,
                double_buffer_index as int,
            ));
        }
        produced
    }

    /// Runs the write half of one buffer period: fits each produced stream
    /// into its output channel's current half, padding a short one with
    /// silence, and returns how many channels underran. Input channels and
    /// configuration are untouched; the opposite halves keep their contents.
    pub fn write_outputs(&mut self, double_buffer_index: i32, produced: &Vec<Vec<i32>>) -> (underruns:
        u64)
        requires
            old(self).wf(),
            produced@.len() == old(self).output_channels@.len(),
        ensures
            final(self).wf(),
            final(self).driver_name == old(self).driver_name,
            final(self).codec == old(self).codec,
            final(self).router == old(self).router,
            final(self).input_channels == old(self).input_channels,
            final(self).buffer_len == old(self).buffer_len,
            final(self).sample_rate == old(self).sample_rate,
            final(self).output_channels@.len() == old(self).output_channels@.len(),
            forall|c: int|
                0 <= c < produced@.len() ==> spec_channel_written(
                    old(self).output_channels@[c],
                    final(self).output_channels@[c],
                    double_buffer_index as int,
                    (#[trigger] produced@[c])@,
                    old(self).buffer_len as nat,
                ),
            underruns as nat == spec_underruns(
                spec_views(produced@),
                old(self).buffer_len as nat,
            ),
    {
        let ghost orig = *self;
        let ghost index = double_buffer_index as int;
        let ghost n = orig.buffer_len as nat;
        let mut under: u64 = 0;
        let mut c: usize = 0;
        while c < self.output_channels.len()
            invariant
                index == double_buffer_index as int,
                n == orig.buffer_len as nat,
                c <= produced@.len(),
                produced@.len() == orig.output_channels@.len(),
                self.output_channels@.len() == orig.output_channels@.len(),
                self.driver_name == orig.driver_name,
                self.codec == orig.codec,
                self.router == orig.router,
                self.input_channels == orig.input_channels,
                self.buffer_len == orig.buffer_len,
                self.sample_rate == orig.sample_rate,
                orig.wf(),
                forall|j: int|
                    0 <= j < c ==> spec_channel_written(
                        orig.output_channels@[j],
                        self.output_channels@[j],
                        index,
                        (#[trigger] produced@[j])@,
                        n,
                    ),
                forall|j: int|
                    c <= j < produced@.len() ==> self.output_channels@[j]
                        == orig.output_channels@[j],
                under <= c,
                under as nat == spec_underruns(spec_views(produced@).take(c as int), n),
            decreases produced@.len() - c,
        {
            let ghost pre = self.output_channels@;
            proof {
                assert(self.output_channels@[c as int] == orig.output_channels@[c as int]);
                assert(orig.output_channels@[c as int].wf());
                assert(orig.output_channels@[c as int].buffer.spec_len() == n);
            }
            let mut ch = self.output_channels.remove(c);
            let flag = ch.write(double_buffer_index, &produced[c]);
            self.output_channels.insert(c, ch);
            proof {
                assert(self.output_channels@ =~= pre.update(c as int, self.output_channels@[c as int]));
                lemma_underruns_step(spec_views(produced@), n, c as int);
                assert(spec_views(produced@)[c as int] == produced@[c as int]@);
            }
            if flag {
                under = under + 1;
            }
            c = c + 1;
        }
        proof {
            assert(spec_views(produced@).take(produced@.len() as int) =~= spec_views(produced@));
            assert forall|j: int| 0 <= j < self.output_channels@.len() implies (
            #[trigger] self.output_channels@[j]).wf() && self.output_channels@[j].buffer.spec_len()
                == self.buffer_len by {
                assert(spec_channel_written(
                    orig.output_channels@[j],
                    self.output_channels@[j],
                    index,
                    produced@[j]@,
                    n,
                ));
            }
        }
        under
    }
}

/// The host side of the driver's buffer-switch callback. Idle until a
/// session is installed, active until it is torn down; no other states
/// exist, since each callback is synchronous and self-contained. The only
/// state carried across callbacks besides the buffers is the underrun
/// counter.
pub struct BufferSwitchDispatcher {
    /// The bound session; `None` while idle.
    pub session: Option<DeviceSession>,
    /// How many output underruns have been padded since the dispatcher was
    /// created. Never reset by the dispatcher itself.
    pub underrun_count: u64,
}

impl BufferSwitchDispatcher {
    /// Whatever session is bound can be run.
    pub open spec fn wf(&self) -> bool {
        self.session is Some ==> self.session->0.wf()
    }

    /// A dispatcher with no session bound and a clear underrun counter.
    pub fn new() -> (r: BufferSwitchDispatcher)
        ensures
            r.session is None,
            r.underrun_count == 0,
            r.wf(),
    {
        BufferSwitchDispatcher { session: None, underrun_count: 0 }
    }

    /// Binds a session: the idle-to-active transition. A session already
    /// bound is replaced.
    pub fn install(&mut self, session: DeviceSession)
        requires
            session.wf(),
        ensures
            final(self).session == Some(session),
            final(self).underrun_count == old(self).underrun_count,
            final(self).wf(),
    {
        self.session = Some(session);
    }

    /// Unbinds the session, if any: the active-to-idle transition. The
    /// underrun counter keeps its value.
    pub fn teardown(&mut self) -> (r: Option<DeviceSession>)
        ensures
            final(self).session is None,
            final(self).underrun_count == old(self).underrun_count,
            r == old(self).session,
            final(self).wf(),
    {
        self.session.take()
    }

    /// Whether a session is bound.
    pub fn is_active(&self) -> (b: bool)
        ensures
            b == (self.session is Some),
    {
        match &self.session {
            Some(_) => true,
            None => false,
        }
    }

    /// Delivers one period of produced output streams to the bound session's
    /// output channels: each stream is fitted to its channel's current half —
    /// a short one padded with silence, never a failure — and the underrun
    /// counter grows by exactly the number of short streams.
    pub fn deliver_outputs(&mut self, double_buffer_index: i32, produced: &Vec<Vec<i32>>)
        requires
            old(self).wf(),
            old(self).session is Some,
            produced@.len() == old(self).session->0.output_channels@.len(),
            old(self).underrun_count + spec_underruns(
                spec_views(produced@),
                old(self).session->0.buffer_len as nat,
            ) <= u64::MAX,
        ensures
            final(self).wf(),
            final(self).session is Some,
            final(self).session->0.driver_name == old(self).session->0.driver_name,
            final(self).session->0.codec == old(self).session->0.codec,
            final(self).session->0.router == old(self).session->0.router,
            final(self).session->0.input_channels == old(self).session->0.input_channels,
            final(self).session->0.buffer_len == old(self).session->0.buffer_len,
            final(self).session->0.sample_rate == old(self).session->0.sample_rate,
            final(self).session->0.output_channels@.len() == old(
                self,
            ).session->0.output_channels@.len(),
            forall|c: int|
                0 <= c < produced@.len() ==> spec_channel_written(
                    old(self).session->0.output_channels@[c],
                    final(self).session->0.output_channels@[c],
                    double_buffer_index as int,
                    (#[trigger] produced@[c])@,
                    old(self).session->0.buffer_len as nat,
                ),
            final(self).underrun_count == old(self).underrun_count + spec_underruns(
                spec_views(produced@),
                old(self).session->0.buffer_len as nat,
            ),
    {
        let sess_opt = self.session.take();
        match sess_opt {
            None => {},
            Some(mut sess) => {
                let under = sess.write_outputs(double_buffer_index, produced);
                self.session = Some(sess);
                self.underrun_count = self.underrun_count + under;
            },
        }
    }

    /// Runs one whole buffer period, the callback's work: reads and decodes
    /// every input channel's current half, routes, encodes, and fills every
    /// output channel's current half. Idle, it does nothing. The verified
    /// pipeline always produces full periods, so the underrun counter is
    /// unchanged.
    pub fn on_buffer_switch(&mut self, double_buffer_index: i32)
        requires
            old(self).wf(),
        ensures
            final(self).wf(),
            old(self).session is None ==> *final(self) == *old(self),
            final(self).underrun_count == old(self).underrun_count,
            old(self).session is Some ==> {
                &&& final(self).session is Some
                &&& final(self).session->0.driver_name == old(self).session->0.driver_name
                &&& final(self).session->0.codec == old(self).session->0.codec
                &&& final(self).session->0.router == old(self).session->0.router
                &&& final(self).session->0.input_channels == old(self).session->0.input_channels
                &&& final(self).session->0.buffer_len == old(self).session->0.buffer_len
                &&& final(self).session->0.sample_rate == old(self).session->0.sample_rate
                &&& final(self).session->0.output_channels@.len() == old(
                    self,
                ).session->0.output_channels@.len()
                &&& forall|c: int|
                    0 <= c < final(self).session->0.output_channels@.len()
                        ==> spec_channel_written(
                        old(self).session->0.output_channels@[c],
                        final(self).session->0.output_channels@[c],
                        double_buffer_index as int,
                        spec_period_outputs(old(self).session->0, double_buffer_index as int)[c],
                        old(self).session->0.buffer_len as nat,
                    )
            },
    {
        let sess_opt = self.session.take();
        match sess_opt {
            None => {},
            Some(mut sess) => {
                let ghost osess = sess;
                let produced = sess.compute_outputs(double_buffer_index);
                proof {
                    lemma_full_streams_no_underrun(
                        spec_views(produced@),
                        sess.buffer_len as nat,
                    );
                }
                let under = sess.write_outputs(double_buffer_index, &produced);
                self.session = Some(sess);
                self.underrun_count = self.underrun_count + under;
            },
        }
    }
}

/// The fixed answer to a driver capability query: affirmative (1) exactly
/// for the time-info and time-code capabilities, "not supported" (0) for
/// every other selector, never a failure.
pub open spec fn spec_message_answer(selector: MessageSelector) -> int {
    match selector {
        MessageSelector::SupportsTimeInfo => 1,
        MessageSelector::SupportsTimeCode => 1,
        _ => 0,
    }
}

/// Answers a capability or message query from the driver.
pub fn answer_message(selector: MessageSelector) -> (r: i32)
    ensures
        r as int == spec_message_answer(selector),
{
    match selector {
        MessageSelector::SupportsTimeInfo => 1,
        MessageSelector::SupportsTimeCode => 1,
        _ => 0,
    }
}

} // verus!
