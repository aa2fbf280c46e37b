use aurora::ambient::{bgra_to_rgba, frame_interval_nanos, frame_zone_pixels, rgba_to_rgb};

#[test]
fn channels_turn_from_bgra_to_rgba() {
    let bgra = [1, 2, 3, 4, 5, 6, 7, 8, 9, 10, 11, 12, 13, 14, 15, 16];
    assert_eq!(bgra_to_rgba(bgra), [3, 2, 1, 4, 7, 6, 5, 8, 11, 10, 9, 12, 15, 14, 13, 16]);
}

#[test]
fn alpha_is_dropped_and_missing_zones_stay_dark() {
    let rgba = [1, 2, 3, 4, 5, 6, 7, 8, 9, 10, 11, 12, 13, 14, 15, 16];
    assert_eq!(rgba_to_rgb(&rgba), [1, 2, 3, 5, 6, 7, 9, 10, 11, 13, 14, 15]);
    assert_eq!(rgba_to_rgb(&rgba[..8]), [1, 2, 3, 5, 6, 7, 0, 0, 0, 0, 0, 0]);
}

#[test]
fn a_frame_is_shrunk_to_one_pixel_per_zone() {
    // Two rows of four pixels: a dark row above a bright one.
    let mut frame = Vec::new();
    for _ in 0..4 {
        frame.extend_from_slice(&[0, 0, 0, 255]);
    }
    for _ in 0..4 {
        frame.extend_from_slice(&[40, 120, 200, 255]);
    }
    let pixels = frame_zone_pixels(&frame, 4, 2).expect("a frame of the right size");
    for zone in pixels.chunks_exact(4) {
        // Red came from the capture's third byte, blue from its first.
        assert!((90..=110).contains(&zone[0]), "{zone:?}");
        assert!((50..=70).contains(&zone[1]), "{zone:?}");
        assert!((10..=30).contains(&zone[2]), "{zone:?}");
        assert_eq!(zone[3], 255);
    }
    assert!(frame_zone_pixels(&frame[..16], 4, 2).is_none());
}

#[test]
fn frames_are_spaced_by_the_frame_rate() {
    assert_eq!(frame_interval_nanos(1), 1_000_000_000);
    assert_eq!(frame_interval_nanos(30), 33_333_333);
    assert_eq!(frame_interval_nanos(60), 16_666_666);
}
