use asio_core::channel_router::PanState;
use asio_core::dispatcher::{answer_message, BufferSwitchDispatcher, DeviceSession};
use asio_core::double_buffer::{BufferHalf, DoubleBuffer};
use asio_core::input_channel::InputChannel;
use asio_core::output_channel::OutputChannel;
use asio_core::types::{ASIOSampleType, MessageSelector, SetupError};

fn session(inputs: Vec<InputChannel>, outputs: Vec<OutputChannel>, n: usize) -> DeviceSession {
    DeviceSession::new(
        "Test Driver".to_string(),
        ASIOSampleType::Int32LSB,
        PanState::centered(),
        inputs,
        outputs,
        n,
        48_000,
    )
    .expect("valid session")
}

fn mono_session(n: usize) -> DeviceSession {
    session(
        vec![InputChannel::new("in 1", DoubleBuffer::new(n))],
        vec![OutputChannel::new("out 1", DoubleBuffer::new(n))],
        n,
    )
}

#[test]
fn mono_passthrough_reproduces_the_input_exactly() {
    let mut sess = mono_session(4);
    sess.input_channels[0].load(0, vec![5, -9, 0, 123_456]);
    let mut disp = BufferSwitchDispatcher::new();
    disp.install(sess);
    disp.on_buffer_switch(0);
    let sess = disp.session.as_ref().expect("active");
    // Index 0: inputs were read from half B, the output was written to half A.
    assert_eq!(
        sess.output_channels[0].buffer.current_region(BufferHalf::A),
        &vec![5, -9, 0, 123_456]
    );
    assert_eq!(
        sess.output_channels[0].buffer.current_region(BufferHalf::B),
        &vec![0, 0, 0, 0]
    );
    assert_eq!(disp.underrun_count, 0);
}

#[test]
fn stereo_passthrough_reproduces_both_sides_exactly() {
    let mut sess = session(
        vec![
            InputChannel::new("in 1", DoubleBuffer::new(3)),
            InputChannel::new("in 2", DoubleBuffer::new(3)),
        ],
        vec![
            OutputChannel::new("out 1", DoubleBuffer::new(3)),
            OutputChannel::new("out 2", DoubleBuffer::new(3)),
        ],
        3,
    );
    sess.input_channels[0].load(1, vec![1, 2, 3]);
    sess.input_channels[1].load(1, vec![-1, -2, -3]);
    let mut disp = BufferSwitchDispatcher::new();
    disp.install(sess);
    disp.on_buffer_switch(1);
    let sess = disp.session.as_ref().expect("active");
    // Index 1: inputs were read from half A, the outputs written to half B.
    assert_eq!(
        sess.output_channels[0].buffer.current_region(BufferHalf::B),
        &vec![1, 2, 3]
    );
    assert_eq!(
        sess.output_channels[1].buffer.current_region(BufferHalf::B),
        &vec![-1, -2, -3]
    );
    assert_eq!(disp.underrun_count, 0);
}

#[test]
fn one_period_of_native_int32_survives_the_whole_pipeline() {
    // One input channel, one output channel, four samples of 32-bit signed
    // native audio around half and quarter scale.
    let natives = vec![1_073_741_823, -1_073_741_824, 0, 536_870_912];
    let mut sess = mono_session(4);
    sess.input_channels[0].load(0, natives.clone());
    let mut disp = BufferSwitchDispatcher::new();
    disp.install(sess);
    disp.on_buffer_switch(0);
    let sess = disp.session.as_ref().expect("active");
    let written = sess.output_channels[0].buffer.current_region(BufferHalf::A);
    assert_eq!(written.len(), natives.len());
    for (w, x) in written.iter().zip(natives.iter()) {
        assert!((*w as i64 - *x as i64).abs() <= 1);
    }
    assert_eq!(written, &natives);
}

#[test]
fn successive_callbacks_fill_alternating_halves() {
    let mut sess = mono_session(2);
    sess.input_channels[0].load(0, vec![11, 12]);
    sess.input_channels[0].load(1, vec![21, 22]);
    let mut disp = BufferSwitchDispatcher::new();
    disp.install(sess);
    disp.on_buffer_switch(0);
    disp.on_buffer_switch(1);
    let sess = disp.session.as_ref().expect("active");
    assert_eq!(
        sess.output_channels[0].buffer.current_region(BufferHalf::A),
        &vec![11, 12]
    );
    assert_eq!(
        sess.output_channels[0].buffer.current_region(BufferHalf::B),
        &vec![21, 22]
    );
}

#[test]
fn short_period_is_padded_and_counted_once() {
    // The router of this library always produces full periods; delivering a
    // short one exercises the underrun policy: silence padding, one count,
    // no failure.
    let sess = mono_session(4);
    let mut disp = BufferSwitchDispatcher::new();
    disp.install(sess);
    disp.deliver_outputs(0, &vec![vec![1, 2, 3]]);
    let sess = disp.session.as_ref().expect("active");
    assert_eq!(
        sess.output_channels[0].buffer.current_region(BufferHalf::A),
        &vec![1, 2, 3, 0]
    );
    assert_eq!(disp.underrun_count, 1);
}

#[test]
fn full_period_delivery_counts_no_underrun() {
    let sess = mono_session(2);
    let mut disp = BufferSwitchDispatcher::new();
    disp.install(sess);
    disp.deliver_outputs(0, &vec![vec![4, 5]]);
    let sess = disp.session.as_ref().expect("active");
    assert_eq!(
        sess.output_channels[0].buffer.current_region(BufferHalf::A),
        &vec![4, 5]
    );
    assert_eq!(disp.underrun_count, 0);
}

#[test]
fn idle_dispatcher_ignores_callbacks() {
    let mut disp = BufferSwitchDispatcher::new();
    assert!(!disp.is_active());
    disp.on_buffer_switch(0);
    disp.on_buffer_switch(1);
    assert!(disp.session.is_none());
    assert_eq!(disp.underrun_count, 0);
}

#[test]
fn install_and_teardown_move_between_the_two_states() {
    let mut disp = BufferSwitchDispatcher::new();
    disp.install(mono_session(2));
    assert!(disp.is_active());
    let sess = disp.teardown();
    assert!(sess.is_some());
    assert!(!disp.is_active());
    assert!(disp.teardown().is_none());
}

#[test]
fn unsupported_format_is_a_setup_error() {
    let r = DeviceSession::new(
        "drv".to_string(),
        ASIOSampleType::Float64LSB,
        PanState::centered(),
        vec![InputChannel::new("in", DoubleBuffer::new(2))],
        vec![OutputChannel::new("out", DoubleBuffer::new(2))],
        2,
        48_000,
    );
    assert_eq!(r.err(), Some(SetupError::UnsupportedSampleType));
}

#[test]
fn too_many_channels_are_a_setup_error() {
    let r = DeviceSession::new(
        "drv".to_string(),
        ASIOSampleType::Int32LSB,
        PanState::centered(),
        vec![InputChannel::new("in", DoubleBuffer::new(2))],
        vec![
            OutputChannel::new("o1", DoubleBuffer::new(2)),
            OutputChannel::new("o2", DoubleBuffer::new(2)),
            OutputChannel::new("o3", DoubleBuffer::new(2)),
        ],
        2,
        48_000,
    );
    assert_eq!(r.err(), Some(SetupError::UnsupportedTopology));
}

#[test]
fn a_side_without_channels_is_a_setup_error() {
    let r = DeviceSession::new(
        "drv".to_string(),
        ASIOSampleType::Int32LSB,
        PanState::centered(),
        vec![],
        vec![OutputChannel::new("out", DoubleBuffer::new(2))],
        2,
        48_000,
    );
    assert_eq!(r.err(), Some(SetupError::UnsupportedTopology));
}

#[test]
fn wrong_region_length_is_a_setup_error() {
    let r = DeviceSession::new(
        "drv".to_string(),
        ASIOSampleType::Int32LSB,
        PanState::centered(),
        vec![InputChannel::new("in", DoubleBuffer::new(3))],
        vec![OutputChannel::new("out", DoubleBuffer::new(2))],
        2,
        48_000,
    );
    assert_eq!(r.err(), Some(SetupError::BufferLengthMismatch));
}

#[test]
fn capability_queries_get_the_fixed_answers() {
    assert_eq!(answer_message(MessageSelector::SupportsTimeInfo), 1);
    assert_eq!(answer_message(MessageSelector::SupportsTimeCode), 1);
    for other in [
        MessageSelector::SelectorSupported,
        MessageSelector::EngineVersion,
        MessageSelector::ResetRequest,
        MessageSelector::BufferSizeChange,
        MessageSelector::ResyncRequest,
        MessageSelector::LatenciesChanged,
        MessageSelector::MMCCommand,
        MessageSelector::SupportsInputMonitor,
        MessageSelector::SupportsInputGain,
        MessageSelector::SupportsInputMeter,
        MessageSelector::SupportsOutputGain,
        MessageSelector::SupportsOutputMeter,
        MessageSelector::Overload,
        MessageSelector::NumMessageSelectors,
    ] {
        assert_eq!(answer_message(other), 0);
    }
}

#[test]
fn mono_to_stereo_pipeline_spreads_under_the_pan_law() {
    // Centered pan at unity volume: both sides carry half the input,
    // truncated toward zero.
    let mut sess = session(
        vec![InputChannel::new("in", DoubleBuffer::new(2))],
        vec![
            OutputChannel::new("o1", DoubleBuffer::new(2)),
            OutputChannel::new("o2", DoubleBuffer::new(2)),
        ],
        2,
    );
    sess.input_channels[0].load(0, vec![1_000_000, -7]);
    let mut disp = BufferSwitchDispatcher::new();
    disp.install(sess);
    disp.on_buffer_switch(0);
    let sess = disp.session.as_ref().expect("active");
    assert_eq!(
        sess.output_channels[0].buffer.current_region(BufferHalf::A),
        &vec![500_000, -3]
    );
    assert_eq!(
        sess.output_channels[1].buffer.current_region(BufferHalf::A),
        &vec![500_000, -3]
    );
}

#[test]
fn stereo_to_mono_pipeline_collapses_opposite_sides() {
    let mut sess = session(
        vec![
            InputChannel::new("l", DoubleBuffer::new(4)),
            InputChannel::new("r", DoubleBuffer::new(4)),
        ],
        vec![OutputChannel::new("out", DoubleBuffer::new(4))],
        4,
    );
    sess.input_channels[0].load(0, vec![i32::MAX; 4]);
    sess.input_channels[1].load(0, vec![-i32::MAX; 4]);
    let mut disp = BufferSwitchDispatcher::new();
    disp.install(sess);
    disp.on_buffer_switch(0);
    let sess = disp.session.as_ref().expect("active");
    assert_eq!(
        sess.output_channels[0].buffer.current_region(BufferHalf::A),
        &vec![0, 0, 0, 0]
    );
}
