//! Frame codec and validator.
//!
//! A frame is a fixed 20-byte header, a payload region of the length that
//! the header declares, and a trailer whose size the header's security mode
//! fixes. Header layout, multi-byte fields little-endian:
//!
//! | offset | size | field                                 |
//! |--------|------|---------------------------------------|
//! | 0      | 4    | preamble, the bytes `I D T P`         |
//! | 4      | 1    | version, major in the high nibble     |
//! | 5      | 1    | flags                                 |
//! | 6      | 2    | device identifier                     |
//! | 8      | 4    | sensor timestamp in microseconds      |
//! | 12     | 4    | sequence number                       |
//! | 16     | 1    | payload type tag                      |
//! | 17     | 1    | header checksum                       |
//! | 18     | 2    | payload length                        |
//!
//! Flags: bits 0-1 select the security mode, bit 2 marks batched samples,
//! bit 3 an encrypted payload, bit 4 a high-priority frame. An encrypted
//! payload region is a 12-byte nonce followed by the AES-128-GCM ciphertext
//! and its tag. The trailer authenticates the header and the payload region
//! exactly as they stand in the frame. The header checksum is carried as
//! received; the trailer is what protects the header.
//!
//! Checks run in a fixed order: structure (preamble, major version,
//! lengths), then the trailer, then decryption. A frame that fails one is
//! dropped, never repaired.
use crate::crypto::{
    aes128_gcm_decrypt, aes128_gcm_open, cmac_aes128, cmac_aes128_of, crc32, crc32_of,
    hmac_sha256, hmac_sha256_of,
};
use crate::payload::{le_u32_at, lemma_word_round_trip, push_u32_le, read_u32_le, u32_le_bytes};
use vstd::prelude::*;
use vstd::slice::{slice_subrange, slice_to_vec};

verus! {

/// Length of the header in bytes.
pub const HEADER_LEN: usize = 20;
/// The preamble `I D T P` read as a little-endian word.
pub const PREAMBLE: u32 = 0x5054_4449;
/// The protocol major version this codec reads.
pub const PROTOCOL_MAJOR: u8 = 2;
/// Flag bits that select the security mode.
pub const MODE_MASK: u8 = 0x03;
/// Flag bit: the payload carries a batch of samples.
pub const FLAG_BATCH: u8 = 0x04;
/// Flag bit: the payload region is encrypted.
pub const FLAG_ENCRYPTED: u8 = 0x08;
/// Flag bit: the frame has high priority.
pub const FLAG_HIGH_PRIORITY: u8 = 0x10;
/// Length of the AES-GCM nonce at the start of an encrypted payload region.
pub const NONCE_LEN: usize = 12;

/// Security mode of a frame: how its trailer authenticates it.
#[derive(Clone, Copy, Debug, PartialEq, Eq, Structural)]
pub enum SecurityMode {
    /// No trailer, no check.
    Lite,
    /// 4-byte CRC-32, little-endian.
    Verified,
    /// 16-byte CMAC-AES-128.
    Trusted,
    /// 32-byte HMAC-SHA256.
    Critical,
}

/// The security mode that `flags` select.
pub open spec fn mode_of(flags: u8) -> SecurityMode {
    let m = flags & MODE_MASK;
    if m == 0 {
        SecurityMode::Lite
    } else if m == 1 {
        SecurityMode::Verified
    } else if m == 2 {
        SecurityMode::Trusted
    } else {
        SecurityMode::Critical
    }
}

impl SecurityMode {
    /// Trailer length in bytes.
    pub open spec fn trailer_len(self) -> nat {
        match self {
            SecurityMode::Lite => 0,
            SecurityMode::Verified => 4,
            SecurityMode::Trusted => 16,
            SecurityMode::Critical => 32,
        }
    }

    /// The two flag bits that select this mode.
    pub open spec fn bits(self) -> u8 {
        match self {
            SecurityMode::Lite => 0,
            SecurityMode::Verified => 1,
            SecurityMode::Trusted => 2,
            SecurityMode::Critical => 3,
        }
    }

    /// The security mode that `flags` select.
    pub fn from_flags(flags: u8) -> (r: SecurityMode)
        ensures
            r == mode_of(flags),
    {
        let m = flags & MODE_MASK;
        if m == 0 {
            SecurityMode::Lite
        } else if m == 1 {
            SecurityMode::Verified
        } else if m == 2 {
            SecurityMode::Trusted
        } else {
            SecurityMode::Critical
        }
    }

    /// The two flag bits that select this mode.
    pub fn to_bits(&self) -> (r: u8)
        ensures
            r == self.bits(),
            mode_of(r) == *self,
    {
        let r: u8 = match self {
            SecurityMode::Lite => 0,
            SecurityMode::Verified => 1,
            SecurityMode::Trusted => 2,
            SecurityMode::Critical => 3,
        };
        assert(r & MODE_MASK == r) by (bit_vector)
            requires
                r <= 3,
        ;
        r
    }

    /// Trailer length in bytes.
    pub fn trailer_size(&self) -> (r: usize)
        ensures
            r == self.trailer_len(),
    {
        match self {
            SecurityMode::Lite => 0,
            SecurityMode::Verified => 4,
            SecurityMode::Trusted => 16,
            SecurityMode::Critical => 32,
        }
    }
}

/// The two little-endian bytes of `v`.
pub open spec fn u16_le_bytes(v: u16) -> Seq<u8> {
    seq![v as u8, (v >> 8u16) as u8]
}

/// The little-endian half-word that starts at `off` in `b`.
pub open spec fn le_u16_at(b: Seq<u8>, off: int) -> u16 {
    (b[off] as u16) | ((b[off + 1] as u16) << 8u16)
}

/// Decoded frame header.
#[derive(Clone, Copy, Debug, PartialEq, Eq, Structural)]
pub struct FrameHeader {
    pub preamble: u32,
    pub version: u8,
    pub flags: u8,
    pub device_id: u16,
    pub timestamp_us: u32,
    pub sequence: u32,
    pub payload_type: u8,
    pub checksum: u8,
    pub payload_len: u16,
}

/// The header that the first 20 bytes of `raw` hold.
pub open spec fn header_of(raw: Seq<u8>) -> FrameHeader {
    FrameHeader {
        preamble: le_u32_at(raw, 0),
        version: raw[4],
        flags: raw[5],
        device_id: le_u16_at(raw, 6),
        timestamp_us: le_u32_at(raw, 8),
        sequence: le_u32_at(raw, 12),
        payload_type: raw[16],
        checksum: raw[17],
        payload_len: le_u16_at(raw, 18),
    }
}

impl FrameHeader {
    /// The header's 20 bytes on the wire.
    pub open spec fn encoded(self) -> Seq<u8> {
        u32_le_bytes(self.preamble) + seq![self.version, self.flags] + u16_le_bytes(self.device_id)
            + u32_le_bytes(self.timestamp_us) + u32_le_bytes(self.sequence) + seq![
            self.payload_type,
            self.checksum,
        ] + u16_le_bytes(self.payload_len)
    }

    pub open spec fn mode(self) -> SecurityMode {
        mode_of(self.flags)
    }

    pub open spec fn encrypted(self) -> bool {
        self.flags & FLAG_ENCRYPTED != 0
    }

    /// Preamble and major version are the ones this codec reads.
    pub open spec fn supported(self) -> bool {
        self.preamble == PREAMBLE && self.version >> 4u8 == PROTOCOL_MAJOR
    }

    /// Reads the header from the first 20 bytes of `raw`.
    pub fn read(raw: &[u8]) -> (r: FrameHeader)
        requires
            raw@.len() >= HEADER_LEN,
        ensures
            r == header_of(raw@),
    {
        FrameHeader {
            preamble: read_u32_le(raw, 0),
            version: raw[4],
            flags: raw[5],
            device_id: (raw[6] as u16) | ((raw[7] as u16) << 8u16),
            timestamp_us: read_u32_le(raw, 8),
            sequence: read_u32_le(raw, 12),
            payload_type: raw[16],
            checksum: raw[17],
            payload_len: (raw[18] as u16) | ((raw[19] as u16) << 8u16),
        }
    }

    /// Security mode that the flags select.
    pub fn security_mode(&self) -> (r: SecurityMode)
        ensures
            r == self.mode(),
    {
        SecurityMode::from_flags(self.flags)
    }

    /// Whether the payload region is encrypted.
    pub fn is_encrypted(&self) -> (r: bool)
        ensures
            r == self.encrypted(),
    {
        self.flags & FLAG_ENCRYPTED != 0
    }

    /// Whether the payload carries a batch of samples.
    pub fn is_batch(&self) -> (r: bool)
        ensures
            r == (self.flags & FLAG_BATCH != 0),
    {
        self.flags & FLAG_BATCH != 0
    }

    /// Whether the frame has high priority.
    pub fn is_high_priority(&self) -> (r: bool)
        ensures
            r == (self.flags & FLAG_HIGH_PRIORITY != 0),
    {
        self.flags & FLAG_HIGH_PRIORITY != 0
    }

    /// Major version, the high nibble of the version byte.
    pub fn version_major(&self) -> (r: u8)
        ensures
            r == self.version >> 4u8,
    {
        self.version >> 4u8
    }

    /// Minor version, the low nibble of the version byte.
    pub fn version_minor(&self) -> (r: u8)
        ensures
            r == self.version & 0x0fu8,
    {
        self.version & 0x0fu8
    }
}

/// Key material, provisioned from outside.
#[derive(Clone, Copy, Debug)]
pub struct CryptoKeys {
    /// 128-bit key for CMAC-AES-128 and AES-128-GCM.
    pub aes_key: [u8; 16],
    /// 256-bit key for HMAC-SHA256.
    pub hmac_key: [u8; 32],
}

/// Per-datagram errors of the frame codec and the payload decoder.
#[derive(Clone, Copy, Debug, PartialEq, Eq, Structural)]
pub enum FrameError {
    /// Bad preamble or version, or lengths that do not add up.
    Malformed,
    /// The trailer does not match the one recomputed over header and payload.
    Authentication,
    /// The encrypted payload region does not open.
    Decryption,
    /// Unknown payload type, or a payload of the wrong length for its type.
    PayloadDecode,
}

/// End of the payload region: header length plus declared payload length.
pub open spec fn payload_end(raw: Seq<u8>) -> int {
    HEADER_LEN + header_of(raw).payload_len
}

/// Preamble, version and the three lengths all agree with `raw`.
pub open spec fn structurally_valid(raw: Seq<u8>) -> bool {
    &&& raw.len() >= HEADER_LEN
    &&& header_of(raw).supported()
    &&& payload_end(raw) + header_of(raw).mode().trailer_len() == raw.len()
}

/// Header and payload region: the bytes that the trailer authenticates.
pub open spec fn signed_region(raw: Seq<u8>) -> Seq<u8> {
    raw.subrange(0, payload_end(raw))
}

/// The payload region as it stands in the frame.
pub open spec fn payload_region(raw: Seq<u8>) -> Seq<u8> {
    raw.subrange(HEADER_LEN as int, payload_end(raw))
}

/// The trailer as it stands in the frame.
pub open spec fn trailer_of(raw: Seq<u8>) -> Seq<u8> {
    raw.subrange(payload_end(raw), raw.len() as int)
}

/// The trailer that `mode` asks for over `region`.
pub open spec fn expected_trailer(mode: SecurityMode, keys: CryptoKeys, region: Seq<u8>) -> Seq<
    u8,
> {
    match mode {
        SecurityMode::Lite => Seq::empty(),
        SecurityMode::Verified => u32_le_bytes(crc32_of(region)),
        SecurityMode::Trusted => cmac_aes128_of(keys.aes_key@, region),
        SecurityMode::Critical => hmac_sha256_of(keys.hmac_key@, region),
    }
}

/// The trailer matches the one recomputed over header and payload region.
pub open spec fn authentic(raw: Seq<u8>, keys: CryptoKeys) -> bool {
    trailer_of(raw) == expected_trailer(header_of(raw).mode(), keys, signed_region(raw))
}

/// The payload in clear: the region itself, or what it opens to when the
/// encrypted flag is set.
pub open spec fn plaintext_of(raw: Seq<u8>, keys: CryptoKeys) -> Option<Seq<u8>> {
    let p = payload_region(raw);
    if !header_of(raw).encrypted() {
        Some(p)
    } else if p.len() < NONCE_LEN {
        None
    } else {
        aes128_gcm_open(keys.aes_key@, p.subrange(0, NONCE_LEN as int), p.subrange(NONCE_LEN as int, p.len() as int))
    }
}

/// What parsing `raw` under `keys` gives: header, payload in clear and
/// trailer, or the first check that fails, in the order structure,
/// authentication, decryption.
pub open spec fn parse_outcome(raw: Seq<u8>, keys: CryptoKeys) -> Result<
    (FrameHeader, Seq<u8>, Seq<u8>),
    FrameError,
> {
    if !structurally_valid(raw) {
        Err(FrameError::Malformed)
    } else if !authentic(raw, keys) {
        Err(FrameError::Authentication)
    } else {
        match plaintext_of(raw, keys) {
            Some(p) => Ok((header_of(raw), p, trailer_of(raw))),
            None => Err(FrameError::Decryption),
        }
    }
}

/// A frame that passed every check.
#[derive(Debug)]
pub struct ParsedFrame {
    pub header: FrameHeader,
    /// Payload in clear.
    pub payload: Vec<u8>,
    /// Trailer bytes as received.
    pub trailer: Vec<u8>,
}

/// Whether two byte slices hold the same bytes.
pub fn bytes_equal(a: &[u8], b: &[u8]) -> (r: bool)
    ensures
        r == (a@ == b@),
{
    if a.len() != b.len() {
        return false;
    }
    let mut i: usize = 0;
    while i < a.len()
        invariant
            a@.len() == b@.len(),
            i <= a@.len(),
            forall|k: int| 0 <= k < i ==> a@[k] == b@[k],
        decreases a@.len() - i,
    {
        if a[i] != b[i] {
            return false;
        }
        i = i + 1;
    }
    assert(a@ =~= b@);
    true
}

/// The trailer that `mode` asks for over `region`.
pub fn compute_trailer(mode: SecurityMode, keys: &CryptoKeys, region: &[u8]) -> (r: Vec<u8>)
    ensures
        r@ == expected_trailer(mode, *keys, region@),
        r@.len() == mode.trailer_len(),
{
    match mode {
        SecurityMode::Lite => {
            let r: Vec<u8> = Vec::new();
            assert(r@ =~= Seq::empty());
            r
        },
        SecurityMode::Verified => {
            let mut r: Vec<u8> = Vec::new();
            push_u32_le(&mut r, crc32(region));
            assert(r@ =~= u32_le_bytes(crc32_of(region@)));
            r
        },
        SecurityMode::Trusted => cmac_aes128(&keys.aes_key, region),
        SecurityMode::Critical => hmac_sha256(&keys.hmac_key, region),
    }
}

/// Parses and checks a received datagram: structure first, then the
/// trailer over header and payload region, then decryption of an encrypted
/// payload. The header is never encrypted.
pub fn parse(raw: &[u8], keys: &CryptoKeys) -> (r: Result<ParsedFrame, FrameError>)
    ensures
        match parse_outcome(raw@, *keys) {
            Ok((h, p, t)) => r matches Ok(f) && f.header == h && f.payload@ == p && f.trailer@ == t,
            Err(e) => r matches Err(e2) && e2 == e,
        },
{
    if raw.len() < HEADER_LEN {
        return Err(FrameError::Malformed);
    }
    let header = FrameHeader::read(raw);
    if header.preamble != PREAMBLE || header.version_major() != PROTOCOL_MAJOR {
        return Err(FrameError::Malformed);
    }
    let mode = header.security_mode();
    let end = HEADER_LEN + header.payload_len as usize;
    if end + mode.trailer_size() != raw.len() {
        return Err(FrameError::Malformed);
    }
    let region = slice_subrange(raw, 0, end);
    let trailer = slice_subrange(raw, end, raw.len());
    let expected = compute_trailer(mode, keys, region);
    if !bytes_equal(trailer, expected.as_slice()) {
        return Err(FrameError::Authentication);
    }
    let body = slice_subrange(raw, HEADER_LEN, end);
    assert(body@ == payload_region(raw@));
    let payload = if header.is_encrypted() {
        if body.len() < NONCE_LEN {
            return Err(FrameError::Decryption);
        }
        let nonce = slice_subrange(body, 0, NONCE_LEN);
        let sealed = slice_subrange(body, NONCE_LEN, body.len());
        match aes128_gcm_decrypt(&keys.aes_key, nonce, sealed) {
            Some(p) => p,
            None => return Err(FrameError::Decryption),
        }
    } else {
        slice_to_vec(body)
    };
    Ok(ParsedFrame { header, payload, trailer: slice_to_vec(trailer) })
}

impl FrameHeader {
    /// The header's 20 bytes on the wire.
    pub fn to_bytes(&self) -> (r: Vec<u8>)
        ensures
            r@ == self.encoded(),
            r@.len() == HEADER_LEN,
    {
        let mut r: Vec<u8> = Vec::new();
        push_u32_le(&mut r, self.preamble);
        r.push(self.version);
        r.push(self.flags);
        r.push(self.device_id as u8);
        r.push((self.device_id >> 8u16) as u8);
        push_u32_le(&mut r, self.timestamp_us);
        push_u32_le(&mut r, self.sequence);
        r.push(self.payload_type);
        r.push(self.checksum);
        r.push(self.payload_len as u8);
        r.push((self.payload_len >> 8u16) as u8);
        assert(r@ =~= self.encoded());
        r
    }
}

proof fn lemma_half_word_round_trip(v: u16)
    ensures
        le_u16_at(u16_le_bytes(v), 0) == v,
{
    let b0 = v as u8;
    let b1 = (v >> 8u16) as u8;
    assert((b0 as u16) | ((b1 as u16) << 8u16) == v) by (bit_vector)
        requires
            b0 == v as u8,
            b1 == (v >> 8u16) as u8,
    ;
}

/// Reading an encoded header back gives the header, whatever follows it.
pub proof fn lemma_header_round_trip(h: FrameHeader, rest: Seq<u8>)
    ensures
        header_of(h.encoded() + rest) == h,
{
    let b = h.encoded() + rest;
    lemma_word_round_trip(h.preamble);
    lemma_word_round_trip(h.timestamp_us);
    lemma_word_round_trip(h.sequence);
    lemma_half_word_round_trip(h.device_id);
    lemma_half_word_round_trip(h.payload_len);
    assert(b.subrange(0, 4) =~= u32_le_bytes(h.preamble));
    assert(b.subrange(6, 8) =~= u16_le_bytes(h.device_id));
    assert(b.subrange(8, 12) =~= u32_le_bytes(h.timestamp_us));
    assert(b.subrange(12, 16) =~= u32_le_bytes(h.sequence));
    assert(b.subrange(18, 20) =~= u16_le_bytes(h.payload_len));
    assert(le_u32_at(b, 0) == le_u32_at(b.subrange(0, 4), 0));
    assert(le_u32_at(b, 8) == le_u32_at(b.subrange(8, 12), 0));
    assert(le_u32_at(b, 12) == le_u32_at(b.subrange(12, 16), 0));
    assert(le_u16_at(b, 6) == le_u16_at(b.subrange(6, 8), 0));
    assert(le_u16_at(b, 18) == le_u16_at(b.subrange(18, 20), 0));
}

/// The frame made of `h`, the payload region `region` and the trailer that
/// `h`'s security mode asks for.
pub open spec fn framed(h: FrameHeader, region: Seq<u8>, keys: CryptoKeys) -> Seq<u8> {
    h.encoded() + region + expected_trailer(h.mode(), keys, h.encoded() + region)
}

/// Builds a frame from a header, a payload region that is already in its
/// wire form (sealed when the header marks it encrypted) and the keys for
/// the trailer.
pub fn build_frame(header: &FrameHeader, region: &[u8], keys: &CryptoKeys) -> (r: Vec<u8>)
    requires
        region@.len() == header.payload_len,
    ensures
        r@ == framed(*header, region@, *keys),
        expected_trailer(header.mode(), *keys, header.encoded() + region@).len()
            == header.mode().trailer_len(),
{
    let mut out = header.to_bytes();
    let mut i: usize = 0;
    while i < region.len()
        invariant
            i <= region@.len(),
            out@ == header.encoded() + region@.subrange(0, i as int),
        decreases region@.len() - i,
    {
        out.push(region[i]);
        assert(out@ =~= header.encoded() + region@.subrange(0, i as int + 1));
        i = i + 1;
    }
    assert(region@.subrange(0, region@.len() as int) =~= region@);
    let trailer = compute_trailer(header.security_mode(), keys, out.as_slice());
    let mut j: usize = 0;
    let ghost signed = out@;
    while j < trailer.len()
        invariant
            j <= trailer@.len(),
            out@ == signed + trailer@.subrange(0, j as int),
        decreases trailer@.len() - j,
    {
        out.push(trailer[j]);
        assert(out@ =~= signed + trailer@.subrange(0, j as int + 1));
        j = j + 1;
    }
    assert(trailer@.subrange(0, trailer@.len() as int) =~= trailer@);
    out
}

/// A frame built from a supported header, a payload region of the
/// declared length and a trailer of its mode's length parses: to that header, that region and that trailer
/// when the payload is in clear, and to no structural or authentication
/// error when it is encrypted.
pub proof fn lemma_build_then_parse(h: FrameHeader, region: Seq<u8>, keys: CryptoKeys)
    requires
        h.supported(),
        region.len() == h.payload_len,
        expected_trailer(h.mode(), keys, h.encoded() + region).len() == h.mode().trailer_len(),
    ensures
        !h.encrypted() ==> parse_outcome(framed(h, region, keys), keys) == Ok::<
            (FrameHeader, Seq<u8>, Seq<u8>),
            FrameError,
        >((h, region, expected_trailer(h.mode(), keys, h.encoded() + region))),
        h.encrypted() ==> parse_outcome(framed(h, region, keys), keys) != Err::<
            (FrameHeader, Seq<u8>, Seq<u8>),
            FrameError,
        >(FrameError::Malformed) && parse_outcome(framed(h, region, keys), keys) != Err::<
            (FrameHeader, Seq<u8>, Seq<u8>),
            FrameError,
        >(FrameError::Authentication),
{
    let signed = h.encoded() + region;
    let t = expected_trailer(h.mode(), keys, signed);
    let raw = framed(h, region, keys);
    lemma_header_round_trip(h, region + t);
    assert(raw =~= h.encoded() + (region + t));
    assert(header_of(raw) == h);
    assert(signed_region(raw) =~= signed);
    assert(trailer_of(raw) =~= t);
    assert(payload_region(raw) =~= region);
}

} // verus!
