use asio_core::channel_router::{
    ChannelRouter, PanState, GAIN_UNIT, PAN_CENTER, PAN_LEFT, PAN_RIGHT, VOLUME_MAX,
};
use asio_core::sample_codec::NATIVE_MAX;

fn router(pan: i64, volume: i64) -> ChannelRouter {
    ChannelRouter::new(PanState::new(pan, volume).expect("valid pan state"))
}

#[test]
fn hard_left_pan_sends_input_left_and_silence_right() {
    let r = router(PAN_LEFT, GAIN_UNIT);
    let input = vec![1_000_000i64, -NATIVE_MAX, 7, 0];
    let (left, right) = r.route_mono_to_stereo(&input);
    assert_eq!(left, input);
    assert_eq!(right, vec![0, 0, 0, 0]);
}

#[test]
fn hard_right_pan_mirrors_hard_left() {
    let r = router(PAN_RIGHT, GAIN_UNIT);
    let input = vec![1_000_000i64, -NATIVE_MAX, 7, 0];
    let (left, right) = r.route_mono_to_stereo(&input);
    assert_eq!(left, vec![0, 0, 0, 0]);
    assert_eq!(right, input);
}

#[test]
fn centered_pan_halves_both_sides() {
    let r = router(PAN_CENTER, GAIN_UNIT);
    let input = vec![1_000_000i64, -NATIVE_MAX, 7, -7];
    let (left, right) = r.route_mono_to_stereo(&input);
    // Half of each sample, truncated toward zero.
    let half = vec![500_000i64, -1_073_741_823, 3, -3];
    assert_eq!(left, half);
    assert_eq!(right, half);
}

#[test]
fn volume_scales_the_panned_output() {
    // Twice unity volume at hard left doubles the left side.
    let r = router(PAN_LEFT, 2 * GAIN_UNIT);
    let (left, right) = r.route_mono_to_stereo(&vec![10, -10]);
    assert_eq!(left, vec![20, -20]);
    assert_eq!(right, vec![0, 0]);
}

#[test]
fn opposite_sides_collapse_to_silence() {
    let r = router(PAN_CENTER, GAIN_UNIT);
    let left = vec![NATIVE_MAX; 4];
    let right = vec![-NATIVE_MAX; 4];
    assert_eq!(r.route_stereo_to_mono(&left, &right), vec![0, 0, 0, 0]);
}

#[test]
fn stereo_collapse_sums_and_scales() {
    let r = router(PAN_CENTER, GAIN_UNIT);
    assert_eq!(
        r.route_stereo_to_mono(&vec![1000, 5], &vec![3000, -2]),
        vec![4000, 3]
    );
    let attenuated = router(PAN_CENTER, GAIN_UNIT / 2);
    assert_eq!(
        attenuated.route_stereo_to_mono(&vec![5, -5], &vec![2, -2]),
        vec![3, -3]
    );
}

#[test]
fn mono_to_mono_is_identity() {
    let r = router(PAN_LEFT, GAIN_UNIT / 4);
    let input = vec![9i64, -9, 0, NATIVE_MAX];
    assert_eq!(r.route_mono_to_mono(&input), input);
}

#[test]
fn stereo_to_stereo_is_identity_per_side() {
    let r = router(PAN_RIGHT, GAIN_UNIT);
    let l = vec![1i64, 2, 3];
    let rr = vec![-1i64, -2, -3];
    let (out_l, out_r) = r.route_stereo_to_stereo(&l, &rr);
    assert_eq!(out_l, l);
    assert_eq!(out_r, rr);
}

#[test]
fn top_level_route_dispatches_on_the_topology() {
    let r = router(PAN_LEFT, GAIN_UNIT);
    let mono = vec![vec![4i64, -4]];
    let one = r.route(&mono, 1);
    assert_eq!(one, vec![vec![4, -4]]);
    let two = r.route(&mono, 2);
    assert_eq!(two, vec![vec![4, -4], vec![0, 0]]);
    let stereo = vec![vec![4i64, -4], vec![6i64, 4]];
    let collapsed = r.route(&stereo, 1);
    assert_eq!(collapsed, vec![vec![10, 0]]);
    let through = r.route(&stereo, 2);
    assert_eq!(through, stereo);
}

#[test]
fn pan_state_rejects_out_of_range_values() {
    assert!(PanState::new(PAN_LEFT, GAIN_UNIT).is_some());
    assert!(PanState::new(PAN_RIGHT, 0).is_some());
    assert!(PanState::new(PAN_RIGHT + 1, GAIN_UNIT).is_none());
    assert!(PanState::new(PAN_LEFT - 1, GAIN_UNIT).is_none());
    assert!(PanState::new(0, -1).is_none());
    assert!(PanState::new(0, VOLUME_MAX + 1).is_none());
    let centered = PanState::centered();
    assert_eq!(centered.pan, PAN_CENTER);
    assert_eq!(centered.volume, GAIN_UNIT);
}
