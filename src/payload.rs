//! Fixed-layout sensor payload records.
//!
//! Every reading is an IEEE-754 single-precision value sent little-endian.
//! The records keep each reading as its raw 32-bit pattern, so decoding and
//! encoding are exact and no floating-point arithmetic takes place here.
use vstd::prelude::*;

verus! {

/// Tag of the accelerometer-only record.
pub const TAG_IMU3_ACC: u8 = 0x00;
/// Tag of the gyroscope-only record.
pub const TAG_IMU3_GYR: u8 = 0x01;
/// Tag of the magnetometer-only record.
pub const TAG_IMU3_MAG: u8 = 0x02;
/// Tag of the 6-axis record (accelerometer and gyroscope).
pub const TAG_IMU6: u8 = 0x03;
/// Tag of the 9-axis record (accelerometer, gyroscope and magnetometer).
pub const TAG_IMU9: u8 = 0x04;
/// Tag of the 10-axis record (9-axis plus barometric pressure).
pub const TAG_IMU10: u8 = 0x05;
/// Tag of the orientation quaternion record.
pub const TAG_IMU_QUAT: u8 = 0x06;

/// The four bytes of `w`, least significant first.
pub open spec fn u32_le_bytes(w: u32) -> Seq<u8> {
    seq![w as u8, (w >> 8u32) as u8, (w >> 16u32) as u8, (w >> 24u32) as u8]
}

/// The word whose little-endian bytes start at `off` in `b`.
pub open spec fn le_u32_at(b: Seq<u8>, off: int) -> u32 {
    (b[off] as u32) | ((b[off + 1] as u32) << 8u32) | ((b[off + 2] as u32) << 16u32) | ((
    b[off + 3] as u32) << 24u32)
}

/// Words laid out one after another, each little-endian.
pub open spec fn words_to_bytes(ws: Seq<u32>) -> Seq<u8> {
    Seq::new(4 * ws.len(), |i: int| u32_le_bytes(ws[i / 4])[i % 4])
}

/// Bytes read back as little-endian words; a trailing partial word is ignored.
pub open spec fn bytes_to_words(b: Seq<u8>) -> Seq<u32> {
    Seq::new(b.len() / 4, |j: int| le_u32_at(b, 4 * j))
}

pub proof fn lemma_word_round_trip(w: u32)
    ensures
        le_u32_at(u32_le_bytes(w), 0) == w,
{
    let b0 = w as u8;
    let b1 = (w >> 8u32) as u8;
    let b2 = (w >> 16u32) as u8;
    let b3 = (w >> 24u32) as u8;
    assert((b0 as u32) | ((b1 as u32) << 8u32) | ((b2 as u32) << 16u32) | ((b3 as u32) << 24u32)
        == w) by (bit_vector)
        requires
            b0 == w as u8,
            b1 == (w >> 8u32) as u8,
            b2 == (w >> 16u32) as u8,
            b3 == (w >> 24u32) as u8,
    ;
}

/// Reading back the bytes of a word sequence gives the words again.
pub proof fn lemma_words_round_trip(ws: Seq<u32>)
    ensures
        words_to_bytes(ws).len() == 4 * ws.len(),
        bytes_to_words(words_to_bytes(ws)) == ws,
{
    let b = words_to_bytes(ws);
    assert forall|j: int| 0 <= j < ws.len() implies #[trigger] le_u32_at(b, 4 * j) == ws[j] by {
        assert((4 * j) / 4 == j && (4 * j + 1) / 4 == j && (4 * j + 2) / 4 == j && (4 * j + 3) / 4
            == j);
        assert((4 * j) % 4 == 0 && (4 * j + 1) % 4 == 1 && (4 * j + 2) % 4 == 2 && (4 * j + 3) % 4
            == 3);
        lemma_word_round_trip(ws[j]);
    }
    assert(bytes_to_words(b) =~= ws);
}

/// Three readings along the x, y and z axes, as raw float32 bit patterns.
#[derive(Clone, Copy, Debug, PartialEq, Eq, Structural)]
pub struct Axes {
    pub x: u32,
    pub y: u32,
    pub z: u32,
}

/// Accelerometer and gyroscope readings.
#[derive(Clone, Copy, Debug, PartialEq, Eq, Structural)]
pub struct Imu6 {
    pub acc: Axes,
    pub gyr: Axes,
}

/// Accelerometer, gyroscope and magnetometer readings.
#[derive(Clone, Copy, Debug, PartialEq, Eq, Structural)]
pub struct Imu9 {
    pub acc: Axes,
    pub gyr: Axes,
    pub mag: Axes,
}

/// Accelerometer, gyroscope, magnetometer and barometric pressure readings.
#[derive(Clone, Copy, Debug, PartialEq, Eq, Structural)]
pub struct Imu10 {
    pub acc: Axes,
    pub gyr: Axes,
    pub mag: Axes,
    pub baro: u32,
}

/// Hamiltonian orientation quaternion (w, x, y, z), as raw float32 bit patterns.
#[derive(Clone, Copy, Debug, PartialEq, Eq, Structural)]
pub struct ImuQuat {
    pub w: u32,
    pub x: u32,
    pub y: u32,
    pub z: u32,
}

/// The seven standard payload records.
#[derive(Clone, Copy, Debug, PartialEq, Eq, Structural)]
pub enum StandardPayload {
    /// Accelerometer only (3-axis sensor).
    Imu3Acc(Axes),
    /// Gyroscope only (3-axis sensor).
    Imu3Gyr(Axes),
    /// Magnetometer only (3-axis sensor).
    Imu3Mag(Axes),
    /// Accelerometer and gyroscope (6-axis sensor).
    Imu6(Imu6),
    /// Accelerometer, gyroscope and magnetometer (9-axis sensor).
    Imu9(Imu9),
    /// 9-axis readings plus barometric pressure (10-axis sensor).
    Imu10(Imu10),
    /// Orientation quaternion.
    ImuQuat(ImuQuat),
}

/// Number of float32 readings in the record that `tag` names, if it names one.
pub open spec fn word_count(tag: u8) -> Option<nat> {
    if tag == TAG_IMU3_ACC || tag == TAG_IMU3_GYR || tag == TAG_IMU3_MAG {
        Some(3)
    } else if tag == TAG_IMU6 {
        Some(6)
    } else if tag == TAG_IMU9 {
        Some(9)
    } else if tag == TAG_IMU10 {
        Some(10)
    } else if tag == TAG_IMU_QUAT {
        Some(4)
    } else {
        None
    }
}

/// Whether `tag` names one of the seven standard records.
pub open spec fn is_standard_tag(tag: u8) -> bool {
    word_count(tag) is Some
}

pub open spec fn axes_words(a: Axes) -> Seq<u32> {
    seq![a.x, a.y, a.z]
}

pub open spec fn axes_from(ws: Seq<u32>, off: int) -> Axes {
    Axes { x: ws[off], y: ws[off + 1], z: ws[off + 2] }
}

impl StandardPayload {
    /// The tag that identifies this record on the wire.
    pub open spec fn tag(self) -> u8 {
        match self {
            StandardPayload::Imu3Acc(_) => TAG_IMU3_ACC,
            StandardPayload::Imu3Gyr(_) => TAG_IMU3_GYR,
            StandardPayload::Imu3Mag(_) => TAG_IMU3_MAG,
            StandardPayload::Imu6(_) => TAG_IMU6,
            StandardPayload::Imu9(_) => TAG_IMU9,
            StandardPayload::Imu10(_) => TAG_IMU10,
            StandardPayload::ImuQuat(_) => TAG_IMU_QUAT,
        }
    }

    /// The readings of the record in wire order.
    pub open spec fn words(self) -> Seq<u32> {
        match self {
            StandardPayload::Imu3Acc(a) => axes_words(a),
            StandardPayload::Imu3Gyr(a) => axes_words(a),
            StandardPayload::Imu3Mag(a) => axes_words(a),
            StandardPayload::Imu6(p) => axes_words(p.acc) + axes_words(p.gyr),
            StandardPayload::Imu9(p) => axes_words(p.acc) + axes_words(p.gyr) + axes_words(p.mag),
            StandardPayload::Imu10(p) => axes_words(p.acc) + axes_words(p.gyr) + axes_words(p.mag)
                + seq![p.baro],
            StandardPayload::ImuQuat(q) => seq![q.w, q.x, q.y, q.z],
        }
    }

    /// The record's bytes on the wire.
    pub open spec fn encoded(self) -> Seq<u8> {
        words_to_bytes(self.words())
    }
}

/// The record of type `tag` made of the readings `ws`, given in wire order.
pub open spec fn from_words(tag: u8, ws: Seq<u32>) -> Option<StandardPayload> {
    if tag == TAG_IMU3_ACC {
        Some(StandardPayload::Imu3Acc(axes_from(ws, 0)))
    } else if tag == TAG_IMU3_GYR {
        Some(StandardPayload::Imu3Gyr(axes_from(ws, 0)))
    } else if tag == TAG_IMU3_MAG {
        Some(StandardPayload::Imu3Mag(axes_from(ws, 0)))
    } else if tag == TAG_IMU6 {
        Some(StandardPayload::Imu6(Imu6 { acc: axes_from(ws, 0), gyr: axes_from(ws, 3) }))
    } else if tag == TAG_IMU9 {
        Some(
            StandardPayload::Imu9(
                Imu9 { acc: axes_from(ws, 0), gyr: axes_from(ws, 3), mag: axes_from(ws, 6) },
            ),
        )
    } else if tag == TAG_IMU10 {
        Some(
            StandardPayload::Imu10(
                Imu10 {
                    acc: axes_from(ws, 0),
                    gyr: axes_from(ws, 3),
                    mag: axes_from(ws, 6),
                    baro: ws[9],
                },
            ),
        )
    } else if tag == TAG_IMU_QUAT {
        Some(StandardPayload::ImuQuat(ImuQuat { w: ws[0], x: ws[1], y: ws[2], z: ws[3] }))
    } else {
        None
    }
}

/// What `bytes` decode to as a record of type `tag`: nothing for an unknown
/// tag or for a length other than the record's exact length.
pub open spec fn decode(tag: u8, bytes: Seq<u8>) -> Option<StandardPayload> {
    match word_count(tag) {
        Some(n) => if bytes.len() == 4 * n {
            from_words(tag, bytes_to_words(bytes))
        } else {
            None
        },
        None => None,
    }
}

/// Decoding the encoding of a record, under the record's own tag, gives the
/// record back.
pub proof fn lemma_decode_encode(p: StandardPayload)
    ensures
        decode(p.tag(), p.encoded()) == Some(p),
{
    let ws = p.words();
    lemma_words_round_trip(ws);
    lemma_from_own_words(p);
    let b = p.encoded();
    assert(word_count(p.tag()) == Some(ws.len()));
    assert(decode(p.tag(), b) == from_words(p.tag(), bytes_to_words(b)));
}

proof fn lemma_from_own_words(p: StandardPayload)
    ensures
        from_words(p.tag(), p.words()) == Some(p),
        word_count(p.tag()) == Some(p.words().len()),
{
    let ws = p.words();
    match p {
        StandardPayload::Imu3Acc(a) => assert(axes_from(ws, 0) == a),
        StandardPayload::Imu3Gyr(a) => assert(axes_from(ws, 0) == a),
        StandardPayload::Imu3Mag(a) => assert(axes_from(ws, 0) == a),
        StandardPayload::Imu6(r) => {
            assert(axes_from(ws, 0) == r.acc);
            assert(axes_from(ws, 3) == r.gyr);
        },
        StandardPayload::Imu9(r) => {
            assert(axes_from(ws, 0) == r.acc);
            assert(axes_from(ws, 3) == r.gyr);
            assert(axes_from(ws, 6) == r.mag);
        },
        StandardPayload::Imu10(r) => {
            assert(axes_from(ws, 0) == r.acc);
            assert(axes_from(ws, 3) == r.gyr);
            assert(axes_from(ws, 6) == r.mag);
            assert(ws[9] == r.baro);
        },
        StandardPayload::ImuQuat(_) => {},
    }
}

/// Reads the little-endian word at `off`.
pub fn read_u32_le(b: &[u8], off: usize) -> (r: u32)
    requires
        off + 4 <= b@.len(),
    ensures
        r == le_u32_at(b@, off as int),
{
    (b[off] as u32) | ((b[off + 1] as u32) << 8u32) | ((b[off + 2] as u32) << 16u32) | ((b[off
        + 3] as u32) << 24u32)
}

/// Appends the four little-endian bytes of `w`.
pub fn push_u32_le(out: &mut Vec<u8>, w: u32)
    ensures
        final(out)@ == old(out)@ + u32_le_bytes(w),
{
    out.push(w as u8);
    out.push((w >> 8u32) as u8);
    out.push((w >> 16u32) as u8);
    out.push((w >> 24u32) as u8);
    assert(final(out)@ =~= old(out)@ + u32_le_bytes(w));
}

fn read_axes(b: &[u8], off: usize) -> (r: Axes)
    requires
        off + 12 <= b.len(),
        off % 4 == 0,
    ensures
        r == axes_from(bytes_to_words(b@), off as int / 4),
{
    let r = Axes { x: read_u32_le(b, off), y: read_u32_le(b, off + 4), z: read_u32_le(b, off + 8) };
    assert(4 * (off as int / 4) == off as int);
    r
}

impl StandardPayload {
    /// The record's readings in wire order.
    pub fn to_words(&self) -> (r: Vec<u32>)
        ensures
            r@ == self.words(),
    {
        let mut v: Vec<u32> = Vec::new();
        match self {
            StandardPayload::Imu3Acc(a) | StandardPayload::Imu3Gyr(a) | StandardPayload::Imu3Mag(
                a,
            ) => {
                v.push(a.x);
                v.push(a.y);
                v.push(a.z);
            },
            StandardPayload::Imu6(p) => {
                v.push(p.acc.x);
                v.push(p.acc.y);
                v.push(p.acc.z);
                v.push(p.gyr.x);
                v.push(p.gyr.y);
                v.push(p.gyr.z);
            },
            StandardPayload::Imu9(p) => {
                v.push(p.acc.x);
                v.push(p.acc.y);
                v.push(p.acc.z);
                v.push(p.gyr.x);
                v.push(p.gyr.y);
                v.push(p.gyr.z);
                v.push(p.mag.x);
                v.push(p.mag.y);
                v.push(p.mag.z);
            },
            StandardPayload::Imu10(p) => {
                v.push(p.acc.x);
                v.push(p.acc.y);
                v.push(p.acc.z);
                v.push(p.gyr.x);
                v.push(p.gyr.y);
                v.push(p.gyr.z);
                v.push(p.mag.x);
                v.push(p.mag.y);
                v.push(p.mag.z);
                v.push(p.baro);
            },
            StandardPayload::ImuQuat(q) => {
                v.push(q.w);
                v.push(q.x);
                v.push(q.y);
                v.push(q.z);
            },
        }
        assert(v@ =~= self.words());
        v
    }

    /// Converts the record to its bytes on the wire.
    pub fn to_bytes(&self) -> (r: Vec<u8>)
        ensures
            r@ == self.encoded(),
            decode(self.tag(), r@) == Some(*self),
    {
        let words = self.to_words();
        let mut out: Vec<u8> = Vec::new();
        let mut i: usize = 0;
        while i < words.len()
            invariant
                words@ == self.words(),
                words@.len() <= 10,
                i <= words@.len(),
                out@ == words_to_bytes(words@.subrange(0, i as int)),
            decreases words@.len() - i,
        {
            let ghost before = out@;
            push_u32_le(&mut out, words[i]);
            proof {
                let pre = words@.subrange(0, i as int);
                let post = words@.subrange(0, i as int + 1);
                assert forall|k: int| 0 <= k < 4 * post.len() implies #[trigger] out@[k]
                    == u32_le_bytes(post[k / 4])[k % 4] by {
                    if k < 4 * i {
                        assert(post[k / 4] == pre[k / 4]);
                    } else {
                        assert(k / 4 == i as int);
                        assert(k % 4 == k - 4 * i);
                    }
                }
                assert(out@ =~= words_to_bytes(post));
            }
            i = i + 1;
        }
        assert(words@.subrange(0, words@.len() as int) =~= words@);
        proof {
            lemma_decode_encode(*self);
        }
        out
    }

    /// The tag that identifies this record on the wire.
    pub fn payload_type(&self) -> (r: u8)
        ensures
            r == self.tag(),
            is_standard_tag(r),
    {
        match self {
            StandardPayload::Imu3Acc(_) => TAG_IMU3_ACC,
            StandardPayload::Imu3Gyr(_) => TAG_IMU3_GYR,
            StandardPayload::Imu3Mag(_) => TAG_IMU3_MAG,
            StandardPayload::Imu6(_) => TAG_IMU6,
            StandardPayload::Imu9(_) => TAG_IMU9,
            StandardPayload::Imu10(_) => TAG_IMU10,
            StandardPayload::ImuQuat(_) => TAG_IMU_QUAT,
        }
    }

    /// Decodes `payload` as a record of type `payload_type`: `None` for a tag
    /// outside the seven standard ones or a length other than the record's.
    pub fn try_from(payload: &[u8], payload_type: u8) -> (r: Option<StandardPayload>)
        ensures
            r == decode(payload_type, payload@),
            r matches Some(p) ==> p.tag() == payload_type && p.encoded() == payload@,
    {
        let expected = Self::len_from(payload_type);
        if expected == 0 || payload.len() != expected {
            return None;
        }
        let tag = payload_type;
        let b = payload;
        let r = if tag == TAG_IMU3_ACC {
            Some(StandardPayload::Imu3Acc(read_axes(b, 0)))
        } else if tag == TAG_IMU3_GYR {
            Some(StandardPayload::Imu3Gyr(read_axes(b, 0)))
        } else if tag == TAG_IMU3_MAG {
            Some(StandardPayload::Imu3Mag(read_axes(b, 0)))
        } else if tag == TAG_IMU6 {
            Some(StandardPayload::Imu6(Imu6 { acc: read_axes(b, 0), gyr: read_axes(b, 12) }))
        } else if tag == TAG_IMU9 {
            Some(
                StandardPayload::Imu9(
                    Imu9 { acc: read_axes(b, 0), gyr: read_axes(b, 12), mag: read_axes(b, 24) },
                ),
            )
        } else if tag == TAG_IMU10 {
            let baro = read_u32_le(b, 36);
            assert(bytes_to_words(b@)[9] == baro);
            Some(
                StandardPayload::Imu10(
                    Imu10 {
                        acc: read_axes(b, 0),
                        gyr: read_axes(b, 12),
                        mag: read_axes(b, 24),
                        baro,
                    },
                ),
            )
        } else {
            let ghost ws = bytes_to_words(b@);
            let q = ImuQuat {
                w: read_u32_le(b, 0),
                x: read_u32_le(b, 4),
                y: read_u32_le(b, 8),
                z: read_u32_le(b, 12),
            };
            assert(ws[0] == q.w && ws[1] == q.x && ws[2] == q.y && ws[3] == q.z);
            Some(StandardPayload::ImuQuat(q))
        };
        proof {
            if let Some(p) = r {
                lemma_encode_decode(payload_type, payload@);
            }
        }
        r
    }

    /// Length in bytes of the record of type `payload_type`; 0 for a tag
    /// outside the seven standard ones.
    pub fn len_from(payload_type: u8) -> (r: usize)
        ensures
            r == match word_count(payload_type) {
                Some(n) => 4 * n,
                None => 0,
            },
    {
        if payload_type == TAG_IMU3_ACC || payload_type == TAG_IMU3_GYR || payload_type
            == TAG_IMU3_MAG {
            12
        } else if payload_type == TAG_IMU6 {
            24
        } else if payload_type == TAG_IMU9 {
            36
        } else if payload_type == TAG_IMU10 {
            40
        } else if payload_type == TAG_IMU_QUAT {
            16
        } else {
            0
        }
    }
}

/// Whatever decodes carries the decoded tag and encodes back to the same bytes.
pub proof fn lemma_encode_decode(tag: u8, bytes: Seq<u8>)
    requires
        decode(tag, bytes) is Some,
    ensures
        decode(tag, bytes).unwrap().tag() == tag,
        decode(tag, bytes).unwrap().encoded() == bytes,
{
    let p = decode(tag, bytes).unwrap();
    let ws = bytes_to_words(bytes);
    assert(p.words() =~= ws);
    assert(bytes.len() % 4 == 0);
    let e = words_to_bytes(ws);
    assert forall|i: int| 0 <= i < bytes.len() implies #[trigger] e[i] == bytes[i] by {
        let j = i / 4;
        let w = ws[j];
        assert(w == le_u32_at(bytes, 4 * j));
        let b0 = bytes[4 * j];
        let b1 = bytes[4 * j + 1];
        let b2 = bytes[4 * j + 2];
        let b3 = bytes[4 * j + 3];
        assert(w as u8 == b0 && (w >> 8u32) as u8 == b1 && (w >> 16u32) as u8 == b2 && (w
            >> 24u32) as u8 == b3) by (bit_vector)
            requires
                w == (b0 as u32) | ((b1 as u32) << 8u32) | ((b2 as u32) << 16u32) | ((
                b3 as u32) << 24u32),
        ;
        assert(i == 4 * j + i % 4);
    }
    assert(e =~= bytes);
}

/// A tag outside the seven standard ones decodes to no record, whatever
/// the bytes.
pub proof fn lemma_unknown_tag_decodes_to_nothing(tag: u8, bytes: Seq<u8>)
    requires
        !is_standard_tag(tag),
    ensures
        decode(tag, bytes) is None,
{
}

} // verus!
