use orbit_scene::frames::{frame_values, FrameCounters, FrameValues, ANGLE_STEPS, SIZE_DENOMINATOR, SIZE_STEPS};

#[test]
fn first_frame_reads_zero_degrees_and_lowest_size() {
    assert_eq!(frame_values(0), FrameValues { degrees: 0, size_offset: -120 });
}

#[test]
fn angle_wraps_after_a_full_turn() {
    assert_eq!(frame_values(359).degrees, 359);
    assert_eq!(frame_values(360).degrees, 0);
    assert_eq!(frame_values(725).degrees, 5);
    assert_eq!(ANGLE_STEPS, 360);
}

#[test]
fn size_wraps_after_its_period() {
    assert_eq!(frame_values(120).size_offset, 0);
    assert_eq!(frame_values(239).size_offset, 119);
    assert_eq!(frame_values(240).size_offset, -120);
    assert_eq!(frame_values(485).size_offset, -115);
    assert_eq!(SIZE_STEPS, 240);
}

#[test]
fn ticking_matches_frame_values() {
    let mut c = FrameCounters::new();
    for i in 0..1000u64 {
        let v = c.tick();
        assert_eq!(v, frame_values(i));
    }
}

#[test]
fn current_does_not_advance() {
    let mut c = FrameCounters::new();
    c.tick();
    c.tick();
    let a = c.current();
    let b = c.current();
    assert_eq!(a, b);
    assert_eq!(a, FrameValues { degrees: 2, size_offset: -118 });
}

#[test]
fn angle_in_radians_stays_below_a_full_turn() {
    let pi = std::f32::consts::PI;
    for i in [0u64, 1, 90, 180, 359, 360, 719, 100_000] {
        let a = frame_values(i).degrees as f32 * pi / 180.0;
        assert!(a >= 0.0 && a < 2.0 * pi);
        let expected = (i % 360) as f32 * pi / 180.0;
        assert_eq!(a, expected);
    }
}

#[test]
fn size_scale_follows_the_formula() {
    for i in [0u64, 1, 119, 120, 239, 240, 1000] {
        let offset = frame_values(i).size_offset;
        let scale = offset as f32 * 0.3 / 240.0 + 0.4;
        let expected = ((i % 240) as f32 - 120.0) * 0.3 / 240.0 + 0.4;
        assert!((scale - expected).abs() < 1e-6);
        assert!(scale >= 0.25 - 1e-6 && scale < 0.55);
        let exact = (offset + 320) as f32 / SIZE_DENOMINATOR as f32;
        assert!((scale - exact).abs() < 1e-6);
    }
    assert!((frame_values(0).size_offset as f32 * 0.3 / 240.0 + 0.4 - 0.25).abs() < 1e-6);
    assert!((frame_values(120).size_offset as f32 * 0.3 / 240.0 + 0.4 - 0.4).abs() < 1e-6);
}
