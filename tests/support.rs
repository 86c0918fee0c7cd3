use ahrs_monitor::attitude::{attitude_step, AttitudeStep};
use ahrs_monitor::config::{ImuConfig, ImuMetrics};
use ahrs_monitor::inspector::{to_print, InspectorTab};
use ahrs_monitor::payload::{Axes, Imu10, Imu6, Imu9, ImuQuat, StandardPayload};
use ahrs_monitor::queue::BoundedQueue;

#[test]
fn queue_drops_oldest_when_full() {
    let mut q: BoundedQueue<u32> = BoundedQueue::new(3);
    assert!(q.is_empty());
    assert_eq!(q.push(1), None);
    assert_eq!(q.push(2), None);
    assert_eq!(q.push(3), None);
    assert_eq!(q.push(4), Some(1));
    assert_eq!(q.len(), 3);
    assert_eq!(q.capacity(), 3);
    assert_eq!(q.pop(), Some(2));
    assert_eq!(q.pop(), Some(3));
    assert_eq!(q.pop(), Some(4));
    assert_eq!(q.pop(), None);
}

#[test]
fn config_accepts_the_seven_standard_types() {
    for t in 0u8..=6 {
        assert!(ImuConfig::new(10_000, t, 0xAA, 1).is_correct());
    }
    for t in [7u8, 8, 0x80, 0xFF] {
        assert!(!ImuConfig::new(10_000, t, 0xAA, 1).is_correct());
    }
}

#[test]
fn metrics_follow_the_payload_type() {
    let m = ImuMetrics::from(0x05);
    assert!(m.acc && m.gyr && m.mag && m.baro && !m.quat);
    let m = ImuMetrics::from(0x01);
    assert!(!m.acc && m.gyr && !m.mag && !m.baro && !m.quat);
    let m = ImuMetrics::from(0x06);
    assert!(m.quat && !m.acc);
    assert_eq!(ImuMetrics::from(0x42), ImuMetrics::default());
    assert_eq!(ImuConfig::new(1, 0x04, 2, 3).metrics, ImuMetrics::from(0x04));
}

#[test]
fn printable_bytes() {
    assert_eq!(to_print(b'A'), 'A');
    assert_eq!(to_print(b'~'), '~');
    assert_eq!(to_print(b'!'), '!');
    assert_eq!(to_print(b' '), '.');
    assert_eq!(to_print(0x00), '.');
    assert_eq!(to_print(0x7F), '.');
    assert_eq!(to_print(0xC3), '.');
}

#[test]
fn hex_dump_columns() {
    let label: String = InspectorTab::offset_label(0x10).into_iter().collect();
    assert_eq!(label, "<00000010>  ");
    let label: String = InspectorTab::offset_label(0xDEADBEEF).into_iter().collect();
    assert_eq!(label, "<deadbeef>  ");
    let chunk = [0x49u8, 0x44, 0x54, 0x50, 0x00, 0xFF, 0x0A, 0x7E, 0x41];
    let hex: String = InspectorTab::hex_column(&chunk).into_iter().collect();
    let mut expected = String::new();
    for i in 0..16 {
        match chunk.get(i) {
            Some(b) => expected.push_str(&format!("{b:02x} ")),
            None => expected.push_str("   "),
        }
        if (i + 1) % 8 == 0 {
            expected.push(' ');
        }
    }
    assert_eq!(hex, expected);
    let ascii: String = InspectorTab::ascii_column(&chunk).into_iter().collect();
    assert_eq!(ascii, "|IDTP...~A|");
}

#[test]
fn attitude_step_per_payload() {
    let a = Axes { x: 1, y: 2, z: 3 };
    let g = Axes { x: 4, y: 5, z: 6 };
    let m = Axes { x: 7, y: 8, z: 9 };
    assert_eq!(attitude_step(&StandardPayload::Imu6(Imu6 { acc: a, gyr: g })), AttitudeStep::Imu { acc: a, gyr: g });
    assert_eq!(
        attitude_step(&StandardPayload::Imu9(Imu9 { acc: a, gyr: g, mag: m })),
        AttitudeStep::Marg { acc: a, gyr: g, mag: m }
    );
    let q = ImuQuat { w: 2.0f32.to_bits(), x: 0, y: 0, z: 0 };
    assert_eq!(attitude_step(&StandardPayload::ImuQuat(q)), AttitudeStep::Direct(q));
    for p in [
        StandardPayload::Imu3Acc(a),
        StandardPayload::Imu3Gyr(g),
        StandardPayload::Imu3Mag(m),
        StandardPayload::Imu10(Imu10 { acc: a, gyr: g, mag: m, baro: 1 }),
    ] {
        assert_eq!(attitude_step(&p), AttitudeStep::Hold);
    }
}
