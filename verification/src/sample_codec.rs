//! Conversion between the driver's native samples and the normalized domain.
//!
//! A normalized sample is an exact fixed-point number: an `i64` numerator
//! whose denominator is [`NATIVE_MAX`], the largest positive native value.
//! A numerator of `NATIVE_MAX` denotes full scale (1.0), `-NATIVE_MAX`
//! denotes -1.0. Decoding a native sample divides it by `NATIVE_MAX`; with
//! this denominator the quotient is represented exactly by the native value
//! itself, so decoding is lossless. Encoding multiplies by `NATIVE_MAX`
//! again and clamps to the native range, as routing may have driven a value
//! beyond full scale.

use vstd::prelude::*;

use crate::types::{ASIOSampleType, SetupError};

verus! {

/// Largest positive value of a 32-bit signed native sample; also the
/// denominator of the normalized fixed-point domain, so that this numerator
/// denotes 1.0.
pub const NATIVE_MAX: i64 = 0x7fff_ffff;

/// Smallest value of a 32-bit signed native sample.
pub const NATIVE_MIN: i64 = -0x8000_0000;

/// The normalized numerator a native sample decodes to: the division by
/// `NATIVE_MAX` is absorbed into the denominator, so the numerator is the
/// native value unchanged.
pub open spec fn spec_decode(x: int) -> int {
    x
}

/// The native value a normalized numerator encodes to: multiplying by
/// `NATIVE_MAX` cancels the denominator, and the result is clamped to the
/// native range.
pub open spec fn spec_encode(n: int) -> int {
    if n > NATIVE_MAX {
        NATIVE_MAX as int
    } else if n < NATIVE_MIN {
        NATIVE_MIN as int
    } else {
        n
    }
}

/// A whole buffer of native samples, decoded.
pub open spec fn spec_decode_seq(native: Seq<i32>) -> Seq<i64> {
    Seq::new(native.len(), |i: int| native[i] as i64)
}

/// Every sample of the stream lies in the nominal normalized range.
pub open spec fn spec_norm_bounded(s: Seq<i64>) -> bool {
    forall|i: int| 0 <= i < s.len() ==> NATIVE_MIN <= #[trigger] s[i] <= NATIVE_MAX
}

/// A whole buffer of normalized samples, encoded.
pub open spec fn spec_encode_seq(norm: Seq<i64>) -> Seq<i32> {
    Seq::new(norm.len(), |i: int| spec_encode(norm[i] as int) as i32)
}

/// Identity of the normalization round trip on whole buffers: encoding a
/// decoded buffer reproduces it bit for bit.
pub proof fn lemma_buffer_round_trip(native: Seq<i32>)
    ensures
        spec_encode_seq(spec_decode_seq(native)) == native,
{
    assert(spec_encode_seq(spec_decode_seq(native)) =~= native);
}

/// Round trip through the normalized domain reproduces every native sample
/// exactly. The classical fixed-point bound allows one native unit of
/// truncation error; with an exact fixed-point normalized domain the error
/// is zero.
pub proof fn lemma_codec_round_trip(x: i32)
    ensures
        spec_encode(spec_decode(x as int)) == x as int,
{
}

/// Decoding never leaves the nominal normalized range: the numerator of a
/// decoded sample lies between `NATIVE_MIN` and `NATIVE_MAX`.
pub proof fn lemma_decode_bounded(x: i32)
    ensures
        NATIVE_MIN as int <= spec_decode(x as int) <= NATIVE_MAX as int,
{
}

/// Converter between one native sample representation and the normalized
/// domain. The representation is resolved once, at session setup; the
/// per-sample paths dispatch on nothing else.
#[derive(Copy, Clone, Debug, PartialEq, Eq, Structural)]
pub enum SampleCodec {
    /// 32-bit signed integer samples, least significant byte first.
    Int32Lsb,
}

impl SampleCodec {
    /// Whether this library can convert the given native format.
    pub open spec fn spec_supports(tag: ASIOSampleType) -> bool {
        tag is Int32LSB
    }

    /// Resolves a native format tag to its codec, once, at session setup.
    /// Every tag this library cannot convert is a setup-time fatal error.
    pub fn for_format(tag: ASIOSampleType) -> (r: Result<SampleCodec, SetupError>)
        ensures
            SampleCodec::spec_supports(tag) <==> r is Ok,
            r is Ok ==> r->Ok_0 == SampleCodec::Int32Lsb,
            r is Err ==> r->Err_0 == SetupError::UnsupportedSampleType,
    {
        match tag {
            ASIOSampleType::Int32LSB => Ok(SampleCodec::Int32Lsb),
            _ => Err(SetupError::UnsupportedSampleType),
        }
    }

    /// Decodes one native sample into the normalized domain.
    pub fn decode(self, x: i32) -> (n: i64)
        ensures
            n as int == spec_decode(x as int),
            NATIVE_MIN <= n <= NATIVE_MAX,
    {
        x as i64
    }

    /// Encodes one normalized sample back into a native sample, clamping at
    /// the ends of the native range.
    pub fn encode(self, n: i64) -> (x: i32)
        ensures
            x as int == spec_encode(n as int),
    {
        if n > NATIVE_MAX {
            0x7fff_ffff
        } else if n < NATIVE_MIN {
            -0x8000_0000
        } else {
            n as i32
        }
    }

    /// Decodes a whole buffer of native samples.
    pub fn decode_buffer(self, native: &Vec<i32>) -> (norm: Vec<i64>)
        ensures
            norm@ == spec_decode_seq(native@),
            spec_norm_bounded(norm@),
    {
        let mut norm: Vec<i64> = Vec::new();
        let mut i: usize = 0;
        while i < native.len()
            invariant
                i <= native@.len(),
                norm@.len() == i,
                forall|j: int| 0 <= j < i ==> norm@[j] == native@[j] as i64,
            decreases native@.len() - i,
        {
            norm.push(self.decode(native[i]));
            i = i + 1;
        }
        proof {
            assert(norm@ =~= spec_decode_seq(native@));
        }
        norm
    }

    /// Encodes a whole buffer of normalized samples.
    pub fn encode_buffer(self, norm: &Vec<i64>) -> (native: Vec<i32>)
        ensures
            native@ == spec_encode_seq(norm@),
    {
        let mut native: Vec<i32> = Vec::new();
        let mut i: usize = 0;
        while i < norm.len()
            invariant
                i <= norm@.len(),
                native@.len() == i,
                forall|j: int| 0 <= j < i ==> native@[j] as int == spec_encode(norm@[j] as int),
            decreases norm@.len() - i,
        {
            native.push(self.encode(norm[i]));
            i = i + 1;
        }
        proof {
            assert(native@ =~= spec_encode_seq(norm@));
        }
        native
    }
}

} // verus!
