use ahrs_monitor::attitude::AttitudeStep;
use ahrs_monitor::frame::{build_frame, CryptoKeys, FrameError, FrameHeader, SecurityMode, PREAMBLE};
use ahrs_monitor::ingest::IngesterState;
use ahrs_monitor::payload::{Axes, Imu6, StandardPayload, TAG_IMU6};

fn keys() -> CryptoKeys {
    CryptoKeys { aes_key: [3u8; 16], hmac_key: [9u8; 32] }
}

fn datagram(mode: SecurityMode, sequence: u32, timestamp_us: u32, tag: u8) -> Vec<u8> {
    let acc = Axes { x: 0, y: 0, z: 9.80665f32.to_bits() };
    let gyr = Axes { x: 0, y: 0, z: 0 };
    let p = StandardPayload::Imu6(Imu6 { acc, gyr }).to_bytes();
    let h = FrameHeader {
        preamble: PREAMBLE,
        version: 0x20,
        flags: mode.to_bits(),
        device_id: 1,
        timestamp_us,
        sequence,
        payload_type: tag,
        checksum: 0,
        payload_len: p.len() as u16,
    };
    build_frame(&h, &p, &keys())
}

#[test]
fn fifty_datagrams_then_idle_ticks() {
    let mut s = IngesterState::new(keys(), 10_000);
    for i in 0..50u32 {
        let r = s.on_datagram(&datagram(SecurityMode::Verified, i, i * 20_000, TAG_IMU6));
        assert!(r.is_valid());
        assert_eq!(r.stats.current_pps, 0);
    }
    s.on_tick();
    assert_eq!(s.stats.current_pps, 50);
    s.on_tick();
    assert_eq!(s.stats.current_pps, 0);
    assert_eq!(s.stats.total_packets, 50);
    assert_eq!(s.stats.valid_packets, 50);
    assert_eq!(s.stats.bad_packets, 0);
    let r = s.on_datagram(&datagram(SecurityMode::Verified, 50, 1_000_000, TAG_IMU6));
    assert_eq!(r.stats.current_pps, 0);
    assert_eq!(r.stats.packets_in_window, 1);
}

#[test]
fn length_mismatch_counts_only_as_bad() {
    let mut s = IngesterState::new(keys(), 10_000);
    let mut raw = datagram(SecurityMode::Critical, 1, 100, TAG_IMU6);
    raw.pop();
    let r = s.on_datagram(&raw);
    assert!(!r.is_valid());
    assert_eq!(r.outcome.unwrap_err(), FrameError::Malformed);
    assert_eq!(s.stats.bad_packets, 1);
    assert_eq!(s.stats.valid_packets, 0);
    assert_eq!(s.stats.total_packets, 1);
    assert_eq!(s.tracker.last_sequence, None);
    assert_eq!(s.tracker.last_timestamp_us, None);
    let ok = s.on_datagram(&datagram(SecurityMode::Critical, 2, 200, TAG_IMU6));
    assert!(ok.is_valid());
}

#[test]
fn unknown_payload_type_is_a_bad_packet() {
    let mut s = IngesterState::new(keys(), 10_000);
    let r = s.on_datagram(&datagram(SecurityMode::Trusted, 1, 100, 0x07));
    assert_eq!(r.outcome.unwrap_err(), FrameError::PayloadDecode);
    assert_eq!(s.stats.bad_packets, 1);
    assert_eq!(s.stats.valid_packets, 0);
    let r = s.on_datagram(&datagram(SecurityMode::Trusted, 2, 200, TAG_IMU6));
    assert!(r.is_valid());
}

#[test]
fn accepted_frame_carries_step_delta_and_order() {
    let mut s = IngesterState::new(keys(), 10_000);
    let first = s.on_datagram(&datagram(SecurityMode::Lite, 10, 4294967290, TAG_IMU6));
    let f = first.outcome.unwrap();
    assert_eq!(f.delta_us, 10_000);
    assert_eq!(f.timestamp_us(), 4294967290);
    assert!(f.in_order);
    match f.step {
        AttitudeStep::Imu { acc, .. } => assert_eq!(f32::from_bits(acc.z), 9.80665),
        _ => panic!("6-axis payload must call for a 6-axis step"),
    }
    let second = s.on_datagram(&datagram(SecurityMode::Lite, 11, 10, TAG_IMU6));
    assert_eq!(second.outcome.unwrap().delta_us, 100);
    let replay = s.on_datagram(&datagram(SecurityMode::Lite, 11, 20_010, TAG_IMU6));
    let f = replay.outcome.unwrap();
    assert!(!f.in_order);
    assert_eq!(f.delta_us, 20_000);
    assert_eq!(s.stats.bad_packets, 1);
    assert_eq!(s.stats.valid_packets, 3);
}

#[test]
fn authentication_failure_leaves_tracker_alone() {
    let mut s = IngesterState::new(keys(), 10_000);
    let mut raw = datagram(SecurityMode::Verified, 1, 100, TAG_IMU6);
    raw[25] ^= 0x40;
    let r = s.on_datagram(&raw);
    assert_eq!(r.outcome.unwrap_err(), FrameError::Authentication);
    assert_eq!(s.tracker.last_sequence, None);
    assert_eq!(r.stats.bad_packets, 1);
}
