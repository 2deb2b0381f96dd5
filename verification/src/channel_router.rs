//! Mono/stereo routing and mixing in the normalized domain.
//!
//! Gains are exact fixed-point numbers with denominator [`GAIN_UNIT`]: a gain
//! of `GAIN_UNIT` is unity, `GAIN_UNIT / 2` is one half. Applying a gain
//! multiplies a normalized sample by the gain's numerator and divides by
//! `GAIN_UNIT`, truncating the quotient toward zero.
//!
//! The pan law is linear: for pan `p` in [-1, 1] and volume `v`, the left
//! gain is `0.5 * (1 - p) * v` and the right gain `0.5 * (p + 1) * v`. At
//! center both gains are `0.5 * v`, not the equal-power `0.707 * v`; this is
//! a deliberate simplification of the law, not an oversight.

use vstd::prelude::*;

use vstd::arithmetic::div_mod::{
    lemma_div_denominator,
    lemma_div_is_ordered,
    lemma_div_multiples_vanish,
    lemma_fundamental_div_mod,
    lemma_mod_bound,
};

use crate::sample_codec::spec_norm_bounded;

verus! {

/// Unity gain: the fixed-point denominator of pan and volume values.
pub const GAIN_UNIT: i64 = 0x10_0000;

/// Largest admissible volume numerator, 16 units of linear gain; bounds all
/// gain arithmetic away from overflow.
pub const VOLUME_MAX: i64 = 16 * GAIN_UNIT;

/// Pan numerator for hard left.
pub const PAN_LEFT: i64 = -GAIN_UNIT;

/// Pan numerator for center.
pub const PAN_CENTER: i64 = 0;

/// Pan numerator for hard right.
pub const PAN_RIGHT: i64 = GAIN_UNIT;

/// A normalized sample scaled by a gain: multiplied by the gain's numerator
/// and divided by `GAIN_UNIT`, the quotient truncated toward zero.
pub open spec fn spec_scale(n: int, g: int) -> int {
    if n >= 0 {
        (n * g) / (GAIN_UNIT as int)
    } else {
        -(((-n) * g) / (GAIN_UNIT as int))
    }
}

/// Left gain of the linear pan law: `0.5 * (1 - pan) * volume`, computed on
/// numerators and truncated toward zero (all factors are non-negative).
pub open spec fn spec_left_gain(pan: int, volume: int) -> int {
    (GAIN_UNIT - pan) * volume / (2 * GAIN_UNIT as int)
}

/// Right gain of the linear pan law: `0.5 * (pan + 1) * volume`.
pub open spec fn spec_right_gain(pan: int, volume: int) -> int {
    (GAIN_UNIT + pan) * volume / (2 * GAIN_UNIT as int)
}

/// A whole stream scaled by one gain.
pub open spec fn spec_scaled_seq(s: Seq<i64>, g: int) -> Seq<i64> {
    Seq::new(s.len(), |i: int| spec_scale(s[i] as int, g) as i64)
}

/// Two streams summed sample by sample and scaled by the volume:
/// `(left + right) * volume`, the stereo-to-mono collapse.
pub open spec fn spec_mixed_seq(l: Seq<i64>, r: Seq<i64>, volume: int) -> Seq<i64> {
    Seq::new(l.len(), |i: int| spec_scale(l[i] + r[i], volume) as i64)
}

/// A silent stream: all samples zero.
pub open spec fn spec_silence(n: nat) -> Seq<i64> {
    Seq::new(n, |i: int| 0i64)
}

/// Half a sample, truncated toward zero: what a centered pan law at unity
/// volume sends to each side.
pub open spec fn spec_half(n: int) -> int {
    if n >= 0 {
        n / 2
    } else {
        -((-n) / 2)
    }
}

/// A whole stream halved.
pub open spec fn spec_half_seq(s: Seq<i64>) -> Seq<i64> {
    Seq::new(s.len(), |i: int| spec_half(s[i] as int) as i64)
}

/// The input/output channel-count combinations the router supports: one or
/// two channels on either side, nothing beyond stereo.
pub open spec fn spec_topology_supported(in_count: int, out_count: int) -> bool {
    (in_count == 1 || in_count == 2) && (out_count == 1 || out_count == 2)
}

/// What the router produces: from one or two input streams of equal length,
/// the requested number of output streams of that same length.
///
/// Mono to mono and stereo to stereo are identity; mono to stereo applies
/// the pan law; stereo to mono sums and scales by the volume.
pub open spec fn spec_route(inputs: Seq<Seq<i64>>, out_count: int, pan: int, volume: int) -> Seq<
    Seq<i64>,
> {
    if inputs.len() == 1 && out_count == 1 {
        seq![inputs[0]]
    } else if inputs.len() == 1 && out_count == 2 {
        seq![
            spec_scaled_seq(inputs[0], spec_left_gain(pan, volume)),
            spec_scaled_seq(inputs[0], spec_right_gain(pan, volume)),
        ]
    } else if inputs.len() == 2 && out_count == 1 {
        seq![spec_mixed_seq(inputs[0], inputs[1], volume)]
    } else if inputs.len() == 2 && out_count == 2 {
        inputs
    } else {
        Seq::empty()
    }
}

/// The views of a vector of sample buffers.
pub open spec fn spec_views<T>(s: Seq<Vec<T>>) -> Seq<Seq<T>> {
    Seq::new(s.len(), |i: int| s[i]@)
}

/// Pan and volume for one callback: immutable configuration of the router,
/// supplied by the setup layer.
#[derive(Copy, Clone, Debug, PartialEq, Eq, Structural)]
pub struct PanState {
    /// Pan numerator over `GAIN_UNIT`: `-GAIN_UNIT` is hard left, `0` center,
    /// `GAIN_UNIT` hard right.
    pub pan: i64,
    /// Volume numerator over `GAIN_UNIT`: linear gain, `GAIN_UNIT` is unity.
    pub volume: i64,
}

impl PanState {
    /// Pan lies in [-1, 1] and the volume under the arithmetic headroom.
    pub open spec fn wf(&self) -> bool {
        &&& PAN_LEFT <= self.pan <= PAN_RIGHT
        &&& 0 <= self.volume <= VOLUME_MAX
    }

    /// Accepts a pan in [-1, 1] and a non-negative volume up to the headroom
    /// bound; anything else names no pan state.
    pub fn new(pan: i64, volume: i64) -> (r: Option<PanState>)
        ensures
            (PAN_LEFT <= pan <= PAN_RIGHT && 0 <= volume <= VOLUME_MAX) <==> r is Some,
            r is Some ==> r->0 == (PanState { pan, volume }),
            r is Some ==> r->0.wf(),
    {
        if PAN_LEFT <= pan && pan <= PAN_RIGHT && 0 <= volume && volume <= VOLUME_MAX {
            Some(PanState { pan, volume })
        } else {
            None
        }
    }

    /// Centered pan at unity volume.
    pub fn centered() -> (r: PanState)
        ensures
            r == (PanState { pan: PAN_CENTER, volume: GAIN_UNIT }),
            r.wf(),
    {
        PanState { pan: PAN_CENTER, volume: GAIN_UNIT }
    }
}

/// Applies one gain to one normalized sample, truncating toward zero.
fn scale(n: i64, g: i64) -> (r: i64)
    requires
        -0x1_0000_0000 <= n <= 0x1_0000_0000,
        0 <= g <= VOLUME_MAX,
    ensures
        r as int == spec_scale(n as int, g as int),
{
    let neg = n < 0;
    let mag: u64 = if neg {
        (-n) as u64
    } else {
        n as u64
    };
    assert(mag <= 0x1_0000_0000u64);
    assert(mag as int * (g as int) <= 0x100_0000_0000_0000) by (nonlinear_arith)
        requires
            0 <= mag as int <= 0x1_0000_0000,
            0 <= g as int <= 0x100_0000,
    ;
    let prod: u64 = mag * (g as u64);
    let q: u64 = prod / (GAIN_UNIT as u64);
    proof {
        lemma_div_is_ordered(prod as int, 0x100_0000_0000_0000, GAIN_UNIT as int);
    }
    if neg {
        -(q as i64)
    } else {
        q as i64
    }
}

/// Left gain of the pan law on numerators.
fn left_gain(pan: i64, volume: i64) -> (r: i64)
    requires
        PAN_LEFT <= pan <= PAN_RIGHT,
        0 <= volume <= VOLUME_MAX,
    ensures
        r as int == spec_left_gain(pan as int, volume as int),
        0 <= r <= VOLUME_MAX,
{
    let width: u64 = (GAIN_UNIT - pan) as u64;
    assert(width <= 0x20_0000u64);
    assert(width as int * (volume as int) <= 0x2000_0000_0000) by (nonlinear_arith)
        requires
            0 <= width as int <= 0x20_0000,
            0 <= volume as int <= 0x100_0000,
    ;
    let prod: u64 = width * (volume as u64);
    let q: u64 = prod / (2 * GAIN_UNIT) as u64;
    proof {
        assert((2 * GAIN_UNIT) as u64 == 0x20_0000u64);
        lemma_fundamental_div_mod(prod as int, 0x20_0000int);
        lemma_mod_bound(prod as int, 0x20_0000int);
        assert(prod as int <= 0x2000_0000_0000int);
        assert(0x20_0000int * (prod as int / 0x20_0000int) <= prod as int);
        assert(q as int == prod as int / 0x20_0000int);
        assert(q as int <= 0x100_0000int);
    }
    q as i64
}

/// Right gain of the pan law on numerators.
fn right_gain(pan: i64, volume: i64) -> (r: i64)
    requires
        PAN_LEFT <= pan <= PAN_RIGHT,
        0 <= volume <= VOLUME_MAX,
    ensures
        r as int == spec_right_gain(pan as int, volume as int),
        0 <= r <= VOLUME_MAX,
{
    let width: u64 = (GAIN_UNIT + pan) as u64;
    assert(width <= 0x20_0000u64);
    assert(width as int * (volume as int) <= 0x2000_0000_0000) by (nonlinear_arith)
        requires
            0 <= width as int <= 0x20_0000,
            0 <= volume as int <= 0x100_0000,
    ;
    let prod: u64 = width * (volume as u64);
    let q: u64 = prod / (2 * GAIN_UNIT) as u64;
    proof {
        assert((2 * GAIN_UNIT) as u64 == 0x20_0000u64);
        lemma_fundamental_div_mod(prod as int, 0x20_0000int);
        lemma_mod_bound(prod as int, 0x20_0000int);
        assert(prod as int <= 0x2000_0000_0000int);
        assert(0x20_0000int * (prod as int / 0x20_0000int) <= prod as int);
        assert(q as int == prod as int / 0x20_0000int);
        assert(q as int <= 0x100_0000int);
    }
    q as i64
}

/// Copies one normalized stream unchanged.
fn copy_stream(input: &Vec<i64>) -> (r: Vec<i64>)
    ensures
        r@ == input@,
{
    let mut r: Vec<i64> = Vec::new();
    let mut i: usize = 0;
    while i < input.len()
        invariant
            i <= input@.len(),
            r@.len() == i,
            forall|j: int| 0 <= j < i ==> r@[j] == input@[j],
        decreases input@.len() - i,
    {
        r.push(input[i]);
        i = i + 1;
    }
    proof {
        assert(r@ =~= input@);
    }
    r
}

/// Scales a whole stream by one gain.
fn scaled_stream(input: &Vec<i64>, g: i64) -> (r: Vec<i64>)
    requires
        spec_norm_bounded(input@),
        0 <= g <= VOLUME_MAX,
    ensures
        r@ == spec_scaled_seq(input@, g as int),
{
    let mut r: Vec<i64> = Vec::new();
    let mut i: usize = 0;
    while i < input.len()
        invariant
            i <= input@.len(),
            r@.len() == i,
            spec_norm_bounded(input@),
            0 <= g <= VOLUME_MAX,
            forall|j: int| 0 <= j < i ==> r@[j] as int == spec_scale(input@[j] as int, g as int),
        decreases input@.len() - i,
    {
        r.push(scale(input[i], g));
        i = i + 1;
    }
    proof {
        assert(r@ =~= spec_scaled_seq(input@, g as int));
    }
    r
}

/// Sums two streams sample by sample and scales the sum by the volume.
fn mixed_stream(left: &Vec<i64>, right: &Vec<i64>, volume: i64) -> (r: Vec<i64>)
    requires
        left@.len() == right@.len(),
        spec_norm_bounded(left@),
        spec_norm_bounded(right@),
        0 <= volume <= VOLUME_MAX,
    ensures
        r@ == spec_mixed_seq(left@, right@, volume as int),
{
    let mut r: Vec<i64> = Vec::new();
    let mut i: usize = 0;
    while i < left.len()
        invariant
            i <= left@.len(),
            left@.len() == right@.len(),
            r@.len() == i,
            spec_norm_bounded(left@),
            spec_norm_bounded(right@),
            0 <= volume <= VOLUME_MAX,
            forall|j: int|
                0 <= j < i ==> r@[j] as int == spec_scale(
                    left@[j] + right@[j],
                    volume as int,
                ),
        decreases left@.len() - i,
    {
        let sum: i64 = left[i] + right[i];
        r.push(scale(sum, volume));
        i = i + 1;
    }
    proof {
        assert(r@ =~= spec_mixed_seq(left@, right@, volume as int));
    }
    r
}

/// Combines one or two normalized input streams into one or two normalized
/// output streams under the pan law. The router never mutates its inputs and
/// never changes a stream's length.
pub struct ChannelRouter {
    /// The pan law configuration applied to mono-to-stereo spreading and
    /// stereo-to-mono collapse.
    pub pan_state: PanState,
}

impl ChannelRouter {
    /// The router's configuration is well formed.
    pub open spec fn wf(&self) -> bool {
        self.pan_state.wf()
    }

    /// Fixes the pan law configuration for this router.
    pub fn new(pan_state: PanState) -> (r: ChannelRouter)
        ensures
            r.pan_state == pan_state,
    {
        ChannelRouter { pan_state }
    }

    /// Mono to mono: identity copy.
    pub fn route_mono_to_mono(&self, input: &Vec<i64>) -> (r: Vec<i64>)
        ensures
            r@ == input@,
    {
        copy_stream(input)
    }

    /// Mono to stereo: spreads one stream onto two under the pan law.
    pub fn route_mono_to_stereo(&self, input: &Vec<i64>) -> (r: (Vec<i64>, Vec<i64>))
        requires
            self.wf(),
            spec_norm_bounded(input@),
        ensures
            r.0@ == spec_scaled_seq(
                input@,
                spec_left_gain(self.pan_state.pan as int, self.pan_state.volume as int),
            ),
            r.1@ == spec_scaled_seq(
                input@,
                spec_right_gain(self.pan_state.pan as int, self.pan_state.volume as int),
            ),
    {
        let lg = left_gain(self.pan_state.pan, self.pan_state.volume);
        let rg = right_gain(self.pan_state.pan, self.pan_state.volume);
        (scaled_stream(input, lg), scaled_stream(input, rg))
    }

    /// Stereo to mono: sums the sides and scales by the volume.
    pub fn route_stereo_to_mono(&self, left: &Vec<i64>, right: &Vec<i64>) -> (r: Vec<i64>)
        requires
            self.wf(),
            left@.len() == right@.len(),
            spec_norm_bounded(left@),
            spec_norm_bounded(right@),
        ensures
            r@ == spec_mixed_seq(left@, right@, self.pan_state.volume as int),
    {
        mixed_stream(left, right, self.pan_state.volume)
    }

    /// Stereo to stereo: identity pass-through per side. No per-side gain is
    /// applied to an already-stereo source in this minimal design.
    pub fn route_stereo_to_stereo(&self, left: &Vec<i64>, right: &Vec<i64>) -> (r: (
        Vec<i64>,
        Vec<i64>,
    ))
        ensures
            r.0@ == left@,
            r.1@ == right@,
    {
        (copy_stream(left), copy_stream(right))
    }

    /// Routes one buffer period: from the given input streams, produces the
    /// requested number of output streams, as [`spec_route`] states. Any
    /// channel-count combination beyond stereo was refused when the pipeline
    /// was built and cannot reach this call.
    pub fn route(&self, inputs: &Vec<Vec<i64>>, output_count: usize) -> (outs: Vec<Vec<i64>>)
        requires
            self.wf(),
            spec_topology_supported(inputs@.len() as int, output_count as int),
            forall|c: int| 0 <= c < inputs@.len() ==> spec_norm_bounded(#[trigger] inputs@[c]@),
            inputs@.len() == 2 ==> inputs@[0]@.len() == inputs@[1]@.len(),
        ensures
            spec_views(outs@) == spec_route(
                spec_views(inputs@),
                output_count as int,
                self.pan_state.pan as int,
                self.pan_state.volume as int,
            ),
            outs@.len() == output_count,
    {
        let ghost expected = spec_route(
            spec_views(inputs@),
            output_count as int,
            self.pan_state.pan as int,
            self.pan_state.volume as int,
        );
        let mut outs: Vec<Vec<i64>> = Vec::new();
        if inputs.len() == 1 && output_count == 1 {
            outs.push(self.route_mono_to_mono(&inputs[0]));
        } else if inputs.len() == 1 && output_count == 2 {
            let pair = self.route_mono_to_stereo(&inputs[0]);
            outs.push(pair.0);
            outs.push(pair.1);
        } else if inputs.len() == 2 && output_count == 1 {
            outs.push(self.route_stereo_to_mono(&inputs[0], &inputs[1]));
        } else {
            let pair = self.route_stereo_to_stereo(&inputs[0], &inputs[1]);
            outs.push(pair.0);
            outs.push(pair.1);
        }
        proof {
            assert(spec_views(outs@) =~= expected);
        }
        outs
    }
}

/// Pan law boundaries for a mono source at unity volume. Hard left sends the
/// input unchanged to the left and silence to the right; hard right mirrors
/// it; center sends half the input, truncated toward zero, to both sides.
pub proof fn lemma_pan_law_boundary(s: Seq<i64>)
    ensures
        spec_scaled_seq(s, spec_left_gain(PAN_LEFT as int, GAIN_UNIT as int)) == s,
        spec_scaled_seq(s, spec_right_gain(PAN_LEFT as int, GAIN_UNIT as int)) == spec_silence(
            s.len(),
        ),
        spec_scaled_seq(s, spec_right_gain(PAN_RIGHT as int, GAIN_UNIT as int)) == s,
        spec_scaled_seq(s, spec_left_gain(PAN_RIGHT as int, GAIN_UNIT as int)) == spec_silence(
            s.len(),
        ),
        spec_scaled_seq(s, spec_left_gain(PAN_CENTER as int, GAIN_UNIT as int)) == spec_half_seq(
            s,
        ),
        spec_scaled_seq(s, spec_right_gain(PAN_CENTER as int, GAIN_UNIT as int)) == spec_half_seq(
            s,
        ),
{
    assert(spec_left_gain(PAN_LEFT as int, GAIN_UNIT as int) == GAIN_UNIT);
    assert(spec_right_gain(PAN_LEFT as int, GAIN_UNIT as int) == 0);
    assert(spec_right_gain(PAN_RIGHT as int, GAIN_UNIT as int) == GAIN_UNIT);
    assert(spec_left_gain(PAN_RIGHT as int, GAIN_UNIT as int) == 0);
    assert(spec_left_gain(PAN_CENTER as int, GAIN_UNIT as int) == GAIN_UNIT as int / 2);
    assert(spec_right_gain(PAN_CENTER as int, GAIN_UNIT as int) == GAIN_UNIT as int / 2);
    assert forall|i: int| 0 <= i < s.len() implies {
        &&& spec_scale(s[i] as int, GAIN_UNIT as int) == s[i] as int
        &&& spec_scale(s[i] as int, 0) == 0
        &&& spec_scale(s[i] as int, GAIN_UNIT as int / 2) == spec_half(s[i] as int)
    } by {
        lemma_scale_unity(s[i] as int);
        lemma_scale_zero(s[i] as int);
        lemma_scale_half(s[i] as int);
    }
    assert(spec_scaled_seq(s, GAIN_UNIT as int) =~= s);
    assert(spec_scaled_seq(s, 0) =~= spec_silence(s.len()));
    assert(spec_scaled_seq(s, GAIN_UNIT as int / 2) =~= spec_half_seq(s));
}

/// Unity gain is the identity.
proof fn lemma_scale_unity(n: int)
    ensures
        spec_scale(n, GAIN_UNIT as int) == n,
{
    if n >= 0 {
        lemma_div_multiples_vanish(n, GAIN_UNIT as int);
        assert(n * GAIN_UNIT == GAIN_UNIT * n);
    } else {
        lemma_div_multiples_vanish(-n, GAIN_UNIT as int);
        assert((-n) * GAIN_UNIT == GAIN_UNIT * (-n));
    }
}

/// Zero gain silences.
proof fn lemma_scale_zero(n: int)
    ensures
        spec_scale(n, 0) == 0,
{
}

/// Gain of one half halves, truncating toward zero.
proof fn lemma_scale_half(n: int)
    ensures
        spec_scale(n, GAIN_UNIT as int / 2) == spec_half(n),
{
    let h = GAIN_UNIT as int / 2;
    if n >= 0 {
        lemma_div_denominator(n * h, h, 2);
        assert((n * h) / h == n) by {
            lemma_div_multiples_vanish(n, h);
            assert(n * h == h * n);
        }
        assert((n * h) / (h * 2) == n / 2);
        assert(h * 2 == GAIN_UNIT as int);
    } else {
        let m = -n;
        lemma_div_denominator(m * h, h, 2);
        assert((m * h) / h == m) by {
            lemma_div_multiples_vanish(m, h);
            assert(m * h == h * m);
        }
        assert((m * h) / (h * 2) == m / 2);
        assert(h * 2 == GAIN_UNIT as int);
    }
}

/// Stereo cancellation: sides that are exact opposites collapse to silence
/// at any volume.
pub proof fn lemma_opposite_sides_cancel(l: Seq<i64>, r: Seq<i64>, volume: int)
    requires
        l.len() == r.len(),
        forall|i: int| 0 <= i < l.len() ==> #[trigger] (r[i] as int) == -(l[i] as int),
    ensures
        spec_mixed_seq(l, r, volume) == spec_silence(l.len()),
{
    assert forall|i: int| 0 <= i < l.len() implies spec_scale(l[i] + r[i], volume) == 0 by {
        assert(l[i] + r[i] == 0);
    }
    assert(spec_mixed_seq(l, r, volume) =~= spec_silence(l.len()));
}

} // verus!
