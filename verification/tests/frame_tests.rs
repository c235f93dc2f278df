use magic_light_2d::frame::next_frame_counter;

#[test]
fn counter_increments_within_cycle() {
    assert_eq!(next_frame_counter(0, 8, false), 1);
    assert_eq!(next_frame_counter(42, 8, false), 43);
    assert_eq!(next_frame_counter(62, 8, false), 63);
}

#[test]
fn counter_wraps_at_cycle_end() {
    // probe_size 8 gives a 64 frame cycle.
    assert_eq!(next_frame_counter(63, 8, false), 0);
    assert_eq!(next_frame_counter(3, 2, false), 0);
}

#[test]
fn reset_forces_counter_to_zero() {
    assert_eq!(next_frame_counter(0, 8, true), 0);
    assert_eq!(next_frame_counter(17, 8, true), 0);
    assert_eq!(next_frame_counter(63, 8, true), 0);
}

#[test]
fn counter_stays_inside_cycle_for_all_frames() {
    let mut counter: u32 = 0;
    for step in 0..200u32 {
        let reset = step % 71 == 0;
        counter = next_frame_counter(counter, 8, reset);
        assert!(counter < 64);
        if reset {
            assert_eq!(counter, 0);
        }
    }
}

#[test]
fn smallest_probe_size_cycles_every_frame() {
    assert_eq!(next_frame_counter(0, 1, false), 0);
    assert_eq!(next_frame_counter(0, 1, true), 0);
}
