use robot36_encoder::timing::{
    ticks, HORIZONTAL_SYNC_MICROS, PORCH_MICROS, SEPARATOR_MICROS, SYNC_PORCH_MICROS, UV_MICROS,
    Y_MICROS,
};

#[test]
fn segment_durations() {
    assert_eq!(HORIZONTAL_SYNC_MICROS, 9_000);
    assert_eq!(SYNC_PORCH_MICROS, 3_000);
    assert_eq!(PORCH_MICROS, 1_500);
    assert_eq!(SEPARATOR_MICROS, 4_500);
    assert_eq!(Y_MICROS, 88_000);
    assert_eq!(UV_MICROS, 44_000);
}

#[test]
fn ticks_at_48000() {
    assert_eq!(ticks(48_000, HORIZONTAL_SYNC_MICROS), 432);
    assert_eq!(ticks(48_000, SYNC_PORCH_MICROS), 144);
    assert_eq!(ticks(48_000, PORCH_MICROS), 72);
    assert_eq!(ticks(48_000, SEPARATOR_MICROS), 216);
    assert_eq!(ticks(48_000, Y_MICROS), 4224);
    assert_eq!(ticks(48_000, UV_MICROS), 2112);
}

#[test]
fn ticks_take_the_floor() {
    // 44100 * 0.009 = 396.9
    assert_eq!(ticks(44_100, HORIZONTAL_SYNC_MICROS), 396);
    // 44100 * 0.003 = 132.3
    assert_eq!(ticks(44_100, SYNC_PORCH_MICROS), 132);
    // 44100 * 0.0015 = 66.15
    assert_eq!(ticks(44_100, PORCH_MICROS), 66);
    // 44100 * 0.0045 = 198.45
    assert_eq!(ticks(44_100, SEPARATOR_MICROS), 198);
    // 44100 * 0.088 = 3880.8
    assert_eq!(ticks(44_100, Y_MICROS), 3880);
    // 44100 * 0.044 = 1940.4
    assert_eq!(ticks(44_100, UV_MICROS), 1940);
}

#[test]
fn ticks_of_nothing() {
    assert_eq!(ticks(0, Y_MICROS), 0);
    assert_eq!(ticks(48_000, 0), 0);
    assert_eq!(ticks(1, 999_999), 0);
    assert_eq!(ticks(1, 1_000_000), 1);
}

#[test]
fn ticks_at_the_largest_rate() {
    assert_eq!(ticks(u64::MAX, 1_000_000), u64::MAX);
    assert_eq!(ticks(u64::MAX, 500_000), u64::MAX / 2);
    // a count beyond 64 bits is held at the largest value
    assert_eq!(ticks(u64::MAX, 1_000_001), u64::MAX);
    assert_eq!(ticks(u64::MAX, u64::MAX), u64::MAX);
}

#[test]
fn ticks_never_decrease_with_the_rate() {
    for micros in [1_500u64, 3_000, 4_500, 9_000, 44_000, 88_000] {
        let mut last = 0;
        for rate in 0..60_000u64 {
            let now = ticks(rate, micros);
            assert!(last <= now);
            last = now;
        }
    }
}
