use ahrs_monitor::timing::{
    clamp_delta_us, raw_delta_us, sequence_increases, TimingTracker, MAX_DELTA_US, MIN_DELTA_US,
};

#[test]
fn wraparound_delta_hits_the_clamp_floor() {
    let raw = raw_delta_us(4294967290, 10);
    // (u32::MAX - last) + current
    assert_eq!(raw, 15);
    assert_eq!(clamp_delta_us(raw), 100);
    assert_eq!(clamp_delta_us(raw) as f32 / 1_000_000.0, 0.0001);
}

#[test]
fn plain_delta_and_clamp_bounds() {
    assert_eq!(raw_delta_us(1_000, 11_000), 10_000);
    assert_eq!(clamp_delta_us(10_000), 10_000);
    assert_eq!(clamp_delta_us(0), MIN_DELTA_US);
    assert_eq!(clamp_delta_us(99), 100);
    assert_eq!(clamp_delta_us(100), 100);
    assert_eq!(clamp_delta_us(100_000), 100_000);
    assert_eq!(clamp_delta_us(100_001), MAX_DELTA_US);
    assert_eq!(clamp_delta_us(u32::MAX), MAX_DELTA_US);
    assert_eq!(raw_delta_us(5, 5), 0);
}

#[test]
fn sequence_order_wraps() {
    assert!(sequence_increases(1, 2));
    assert!(!sequence_increases(2, 2));
    assert!(!sequence_increases(3, 2));
    assert!(sequence_increases(u32::MAX, 0));
    assert!(sequence_increases(u32::MAX - 5, 3));
    assert!(!sequence_increases(0, 0x8000_0000));
    assert!(sequence_increases(0, 0x7FFF_FFFF));
}

#[test]
fn first_frame_uses_the_default_delta() {
    let mut t = TimingTracker::new(10_000);
    let a = t.accept(1, 500);
    assert_eq!(a.delta_us, 10_000);
    assert!(a.in_order);
    assert_eq!(t.last_sequence, Some(1));
    assert_eq!(t.last_timestamp_us, Some(500));
    let b = t.accept(2, 5_500);
    assert_eq!(b.delta_us, 5_000);
    assert!(b.in_order);
    let c = t.accept(2, 5_500);
    assert_eq!(c.delta_us, MIN_DELTA_US);
    assert!(!c.in_order);
    let d = t.accept(3, 2_000_000);
    assert_eq!(d.delta_us, MAX_DELTA_US);
}
