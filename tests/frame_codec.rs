use ahrs_monitor::frame::{
    build_frame, parse, CryptoKeys, FrameError, FrameHeader, SecurityMode, FLAG_ENCRYPTED,
    HEADER_LEN, PREAMBLE,
};
use ahrs_monitor::payload::{Axes, Imu6, StandardPayload, TAG_IMU6};
use aes_gcm::aead::Aead;
use aes_gcm::{Aes128Gcm, KeyInit};
use hmac::Mac;

fn keys() -> CryptoKeys {
    let mut aes_key = [0u8; 16];
    let mut hmac_key = [0u8; 32];
    for (i, b) in aes_key.iter_mut().enumerate() {
        *b = i as u8 + 1;
    }
    for (i, b) in hmac_key.iter_mut().enumerate() {
        *b = 0xA0 ^ i as u8;
    }
    CryptoKeys { aes_key, hmac_key }
}

fn payload() -> Vec<u8> {
    let acc = Axes { x: 0.0f32.to_bits(), y: 0.0f32.to_bits(), z: 9.80665f32.to_bits() };
    let gyr = Axes { x: 0, y: 0, z: 0 };
    StandardPayload::Imu6(Imu6 { acc, gyr }).to_bytes()
}

fn header(mode: SecurityMode, flags_extra: u8, len: usize) -> FrameHeader {
    FrameHeader {
        preamble: PREAMBLE,
        version: 0x21,
        flags: mode.to_bits() | flags_extra,
        device_id: 0x00AA,
        timestamp_us: 123_456,
        sequence: 7,
        payload_type: TAG_IMU6,
        checksum: 0x5A,
        payload_len: len as u16,
    }
}

fn frame(mode: SecurityMode) -> Vec<u8> {
    let p = payload();
    build_frame(&header(mode, 0, p.len()), &p, &keys())
}

const MODES: [SecurityMode; 4] =
    [SecurityMode::Lite, SecurityMode::Verified, SecurityMode::Trusted, SecurityMode::Critical];

#[test]
fn header_layout_on_the_wire() {
    let h = header(SecurityMode::Verified, 0, 24);
    let b = h.to_bytes();
    assert_eq!(b.len(), HEADER_LEN);
    assert_eq!(&b[0..4], b"IDTP");
    assert_eq!(b[4], 0x21);
    assert_eq!(b[5], 0x01);
    assert_eq!(&b[6..8], &[0xAA, 0x00]);
    assert_eq!(&b[8..12], &123_456u32.to_le_bytes());
    assert_eq!(&b[12..16], &7u32.to_le_bytes());
    assert_eq!(b[16], TAG_IMU6);
    assert_eq!(b[17], 0x5A);
    assert_eq!(&b[18..20], &24u16.to_le_bytes());
    assert_eq!(FrameHeader::read(&b), h);
    assert_eq!(h.version_major(), 2);
    assert_eq!(h.version_minor(), 1);
}

#[test]
fn every_mode_parses_its_own_frame() {
    for mode in MODES {
        let raw = frame(mode);
        let f = parse(&raw, &keys()).unwrap();
        assert_eq!(f.header, header(mode, 0, 24));
        assert_eq!(f.payload, payload());
        assert_eq!(f.trailer, raw[HEADER_LEN + 24..].to_vec());
        assert_eq!(f.trailer.len(), mode.trailer_size());
    }
}

#[test]
fn trailers_match_the_outside_primitives() {
    let k = keys();
    let verified = frame(SecurityMode::Verified);
    let signed = &verified[..HEADER_LEN + 24];
    assert_eq!(&verified[HEADER_LEN + 24..], &crc32fast::hash(signed).to_le_bytes());

    let trusted = frame(SecurityMode::Trusted);
    let mut cmac = <cmac::Cmac<aes::Aes128> as KeyInit>::new_from_slice(&k.aes_key).unwrap();
    cmac.update(&trusted[..HEADER_LEN + 24]);
    assert_eq!(&trusted[HEADER_LEN + 24..], cmac.finalize().into_bytes().as_slice());

    let critical = frame(SecurityMode::Critical);
    let mut hmac = <hmac::Hmac<sha2::Sha256> as Mac>::new_from_slice(&k.hmac_key).unwrap();
    hmac.update(&critical[..HEADER_LEN + 24]);
    assert_eq!(&critical[HEADER_LEN + 24..], hmac.finalize().into_bytes().as_slice());
}

#[test]
fn single_bit_flip_fails_authentication() {
    for mode in [SecurityMode::Verified, SecurityMode::Trusted, SecurityMode::Critical] {
        let raw = frame(mode);
        for byte in 4..HEADER_LEN + 24 {
            for bit in 0..8 {
                // The structure is checked first: a flip of the major version,
                // the mode bits or the payload length makes the frame malformed.
                let structural = (byte == 4 && bit >= 4) || (byte == 5 && bit < 2) || byte == 18 || byte == 19;
                let mut bad = raw.clone();
                bad[byte] ^= 1 << bit;
                let expected = if structural { FrameError::Malformed } else { FrameError::Authentication };
                assert_eq!(parse(&bad, &keys()).unwrap_err(), expected);
            }
        }
        for byte in 0..4 {
            let mut bad = raw.clone();
            bad[byte] ^= 0x01;
            assert_eq!(parse(&bad, &keys()).unwrap_err(), FrameError::Malformed);
        }
    }
}

#[test]
fn lite_frame_is_not_checked() {
    let mut raw = frame(SecurityMode::Lite);
    raw[HEADER_LEN] ^= 0xFF;
    assert!(parse(&raw, &keys()).is_ok());
}

#[test]
fn wrong_key_fails_authentication() {
    let raw = frame(SecurityMode::Critical);
    let mut other = keys();
    other.hmac_key[0] ^= 1;
    assert_eq!(parse(&raw, &other).unwrap_err(), FrameError::Authentication);
}

#[test]
fn declared_length_mismatch_is_malformed() {
    for mode in MODES {
        let mut raw = frame(mode);
        raw.push(0);
        assert_eq!(parse(&raw, &keys()).unwrap_err(), FrameError::Malformed);
        raw.truncate(raw.len() - 2);
        assert_eq!(parse(&raw, &keys()).unwrap_err(), FrameError::Malformed);
    }
}

#[test]
fn bad_preamble_version_or_short_input_is_malformed() {
    let mut raw = frame(SecurityMode::Lite);
    raw[0] = b'X';
    assert_eq!(parse(&raw, &keys()).unwrap_err(), FrameError::Malformed);
    let mut raw = frame(SecurityMode::Lite);
    raw[4] = 0x31;
    assert_eq!(parse(&raw, &keys()).unwrap_err(), FrameError::Malformed);
    assert_eq!(parse(&[], &keys()).unwrap_err(), FrameError::Malformed);
    assert_eq!(parse(&frame(SecurityMode::Lite)[..19], &keys()).unwrap_err(), FrameError::Malformed);
}

fn sealed_region(plain: &[u8], key: &[u8; 16]) -> Vec<u8> {
    let nonce = [7u8; 12];
    let cipher = Aes128Gcm::new(key.into());
    let ct = cipher.encrypt(aes_gcm::Nonce::from_slice(&nonce), plain).unwrap();
    let mut region = nonce.to_vec();
    region.extend_from_slice(&ct);
    region
}

#[test]
fn encrypted_payload_is_opened() {
    let k = keys();
    let region = sealed_region(&payload(), &k.aes_key);
    assert_eq!(region.len(), 12 + 24 + 16);
    for mode in MODES {
        let raw = build_frame(&header(mode, FLAG_ENCRYPTED, region.len()), &region, &k);
        let f = parse(&raw, &k).unwrap();
        assert!(f.header.is_encrypted());
        assert_eq!(f.payload, payload());
    }
}

#[test]
fn tampered_ciphertext_fails_decryption() {
    let k = keys();
    let mut region = sealed_region(&payload(), &k.aes_key);
    region[20] ^= 0x01;
    let raw = build_frame(&header(SecurityMode::Lite, FLAG_ENCRYPTED, region.len()), &region, &k);
    assert_eq!(parse(&raw, &k).unwrap_err(), FrameError::Decryption);
    let short = vec![0u8; 5];
    let raw = build_frame(&header(SecurityMode::Verified, FLAG_ENCRYPTED, 5), &short, &k);
    assert_eq!(parse(&raw, &k).unwrap_err(), FrameError::Decryption);
}

#[test]
fn flag_bits_are_read_independently() {
    let h = header(SecurityMode::Trusted, 0x04 | 0x10, 0);
    assert_eq!(h.security_mode(), SecurityMode::Trusted);
    assert!(h.is_batch());
    assert!(h.is_high_priority());
    assert!(!h.is_encrypted());
    assert_eq!(SecurityMode::from_flags(0xFF), SecurityMode::Critical);
    assert_eq!(SecurityMode::from_flags(0xFC), SecurityMode::Lite);
}
