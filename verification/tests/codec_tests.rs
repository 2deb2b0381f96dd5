use asio_core::sample_codec::{SampleCodec, NATIVE_MAX, NATIVE_MIN};
use asio_core::types::{ASIOSampleType, SetupError};

fn int32_codec() -> SampleCodec {
    SampleCodec::for_format(ASIOSampleType::Int32LSB).expect("codec for Int32LSB")
}

#[test]
fn round_trip_is_exact_for_plain_values() {
    let codec = int32_codec();
    for &x in &[0i32, 1, -1, 42, -42, 123_456_789, -123_456_789] {
        let back = codec.encode(codec.decode(x));
        assert!((back as i64 - x as i64).abs() <= 1);
        assert_eq!(back, x);
    }
}

#[test]
fn round_trip_is_exact_at_the_native_extremes() {
    let codec = int32_codec();
    for &x in &[i32::MAX, i32::MIN, i32::MAX - 1, i32::MIN + 1] {
        assert_eq!(codec.encode(codec.decode(x)), x);
    }
}

#[test]
fn decode_divides_by_the_native_maximum() {
    let codec = int32_codec();
    // Full scale decodes to the numerator denoting 1.0, half scale to half.
    assert_eq!(codec.decode(i32::MAX), NATIVE_MAX);
    assert_eq!(codec.decode(1_073_741_823), 1_073_741_823);
    assert_eq!(codec.decode(0), 0);
}

#[test]
fn encode_clamps_beyond_full_scale() {
    let codec = int32_codec();
    assert_eq!(codec.encode(NATIVE_MAX + 1), i32::MAX);
    assert_eq!(codec.encode(i64::MAX), i32::MAX);
    assert_eq!(codec.encode(NATIVE_MIN - 1), i32::MIN);
    assert_eq!(codec.encode(i64::MIN), i32::MIN);
    assert_eq!(codec.encode(NATIVE_MIN), i32::MIN);
}

#[test]
fn buffer_codec_round_trips_whole_buffers() {
    let codec = int32_codec();
    let native = vec![7, -9, 0, i32::MAX, i32::MIN, 536_870_912];
    let norm = codec.decode_buffer(&native);
    assert_eq!(norm, vec![7i64, -9, 0, NATIVE_MAX, -2_147_483_648, 536_870_912]);
    let back = codec.encode_buffer(&norm);
    assert_eq!(back, native);
}

#[test]
fn only_int32_lsb_resolves_to_a_codec() {
    assert_eq!(
        SampleCodec::for_format(ASIOSampleType::Int32LSB),
        Ok(SampleCodec::Int32Lsb)
    );
    for tag in [
        ASIOSampleType::Int16LSB,
        ASIOSampleType::Int32MSB,
        ASIOSampleType::Float32LSB,
        ASIOSampleType::Float64LSB,
        ASIOSampleType::DSDInt8NER8,
        ASIOSampleType::LastEntry,
    ] {
        assert_eq!(
            SampleCodec::for_format(tag),
            Err(SetupError::UnsupportedSampleType)
        );
    }
}
