use asio_core::channel_iter::ChannelIter;
use asio_core::channel_iter_mut::ChannelIterMut;
use asio_core::double_buffer::{input_half, output_half, BufferHalf, DoubleBuffer};
use asio_core::input_channel::InputChannel;
use asio_core::output_channel::OutputChannel;
use asio_core::types::SetupError;

#[test]
fn halves_alternate_with_the_switch_index() {
    // Over the driver's index sequence 0,1,0,1,... each side alternates
    // strictly between the two regions.
    assert_eq!(input_half(0), BufferHalf::B);
    assert_eq!(input_half(1), BufferHalf::A);
    assert_ne!(input_half(0), input_half(1));
    assert_eq!(output_half(0), BufferHalf::A);
    assert_eq!(output_half(1), BufferHalf::B);
    assert_ne!(output_half(0), output_half(1));
}

#[test]
fn input_and_output_select_opposite_halves() {
    for index in [0, 1] {
        assert_ne!(input_half(index), output_half(index));
    }
}

#[test]
fn new_double_buffer_is_silent() {
    let b = DoubleBuffer::new(3);
    assert_eq!(b.len(), 3);
    assert_eq!(b.current_region(BufferHalf::A), &vec![0, 0, 0]);
    assert_eq!(b.current_region(BufferHalf::B), &vec![0, 0, 0]);
}

#[test]
fn set_region_touches_only_the_named_half() {
    let mut b = DoubleBuffer::new(2);
    b.set_region(BufferHalf::A, vec![5, 6]);
    assert_eq!(b.current_region(BufferHalf::A), &vec![5, 6]);
    assert_eq!(b.current_region(BufferHalf::B), &vec![0, 0]);
    b.set_region(BufferHalf::B, vec![-1, -2]);
    assert_eq!(b.current_region(BufferHalf::A), &vec![5, 6]);
    assert_eq!(b.current_region(BufferHalf::B), &vec![-1, -2]);
}

#[test]
fn unequal_regions_are_a_setup_error() {
    assert!(matches!(
        DoubleBuffer::from_regions(vec![1, 2], vec![3]),
        Err(SetupError::BufferLengthMismatch)
    ));
    let ok = DoubleBuffer::from_regions(vec![1, 2], vec![3, 4]).expect("equal lengths");
    assert_eq!(ok.current_region(BufferHalf::A), &vec![1, 2]);
    assert_eq!(ok.current_region(BufferHalf::B), &vec![3, 4]);
}

#[test]
fn input_channel_reads_the_half_the_driver_filled() {
    let mut ch = InputChannel::new("mic", DoubleBuffer::new(2));
    assert_eq!(ch.name, "mic");
    ch.load(0, vec![10, 20]);
    // Index 0 reads region B; region A stays silent.
    assert_eq!(ch.buffer.current_region(BufferHalf::B), &vec![10, 20]);
    assert_eq!(ch.buffer.current_region(BufferHalf::A), &vec![0, 0]);
    let mut it = ch.iter(0);
    assert_eq!(it.next(), Some(10));
    assert_eq!(it.next(), Some(20));
    assert_eq!(it.next(), None);
    // The other index reads the other, still silent, half.
    let mut other = ch.iter(1);
    assert_eq!(other.next(), Some(0));
}

#[test]
fn output_channel_writes_the_half_the_host_must_fill() {
    let mut ch = OutputChannel::new("spk", DoubleBuffer::new(2));
    assert_eq!(ch.name, "spk");
    let underrun = ch.write(0, &vec![7, 8]);
    assert!(!underrun);
    assert_eq!(ch.buffer.current_region(BufferHalf::A), &vec![7, 8]);
    assert_eq!(ch.buffer.current_region(BufferHalf::B), &vec![0, 0]);
    let underrun_b = ch.write(1, &vec![9, 10]);
    assert!(!underrun_b);
    assert_eq!(ch.buffer.current_region(BufferHalf::A), &vec![7, 8]);
    assert_eq!(ch.buffer.current_region(BufferHalf::B), &vec![9, 10]);
}

#[test]
fn short_write_pads_with_silence_and_reports_underrun() {
    let mut ch = OutputChannel::new("spk", DoubleBuffer::new(4));
    let underrun = ch.write(0, &vec![1, 2, 3]);
    assert!(underrun);
    assert_eq!(ch.buffer.current_region(BufferHalf::A), &vec![1, 2, 3, 0]);
}

#[test]
fn long_write_is_cut_at_the_region_length() {
    let mut ch = OutputChannel::new("spk", DoubleBuffer::new(2));
    let underrun = ch.write(0, &vec![1, 2, 3, 4]);
    assert!(!underrun);
    assert_eq!(ch.buffer.current_region(BufferHalf::A), &vec![1, 2]);
}

#[test]
fn read_cursor_hands_out_every_sample_once() {
    let mut it = ChannelIter::new(vec![3, 1, 4]);
    assert_eq!(it.next(), Some(3));
    assert_eq!(it.next(), Some(1));
    assert_eq!(it.next(), Some(4));
    assert_eq!(it.next(), None);
    assert_eq!(it.next(), None);
}

#[test]
fn write_cursor_yields_each_position_and_stops() {
    let mut it = ChannelIterMut::new(2);
    assert_eq!(it.next(), Some(0));
    assert_eq!(it.next(), Some(1));
    assert_eq!(it.next(), None);
}
