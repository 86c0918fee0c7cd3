//! Per-link ingestion state: what one received datagram or one tick of the
//! one-second timer does to it.
//!
//! The socket, the timer and the filter live outside this library. For each
//! datagram the caller hands over the bytes and gets back a result record;
//! for each tick it calls `on_tick`.
//!
//! A frame whose sequence number does not come after the last accepted one
//! is still accepted and still updates the orientation; it is flagged in its
//! record and counted as bad, as a diagnostic.
use crate::attitude::{attitude_step, step_for, AttitudeStep};
use crate::frame::{
    header_of, parse, parse_outcome, CryptoKeys, FrameError, FrameHeader, HEADER_LEN,
};
use crate::payload::{decode, is_standard_tag, StandardPayload};
use crate::timing::TimingTracker;
use vstd::prelude::*;

verus! {

/// `x + 1`, staying at `u64::MAX` once there.
pub open spec fn bump(x: u64) -> u64 {
    if x < u64::MAX {
        (x + 1) as u64
    } else {
        x
    }
}

fn bump_exec(x: u64) -> (r: u64)
    ensures
        r == bump(x),
{
    if x < u64::MAX {
        x + 1
    } else {
        x
    }
}

/// Packet counters of one link.
#[derive(Clone, Copy, Debug, PartialEq, Eq, Structural)]
pub struct PacketStats {
    /// Datagrams received.
    pub total_packets: u64,
    /// Datagrams that passed every check and were decoded.
    pub valid_packets: u64,
    /// Datagrams rejected, plus accepted ones whose sequence number was out
    /// of order.
    pub bad_packets: u64,
    /// Datagrams received since the last tick.
    pub packets_in_window: u64,
    /// Datagrams received in the window that the last tick closed.
    pub current_pps: u64,
}

impl PacketStats {
    /// All counters at zero.
    pub open spec fn zero() -> PacketStats {
        PacketStats {
            total_packets: 0,
            valid_packets: 0,
            bad_packets: 0,
            packets_in_window: 0,
            current_pps: 0,
        }
    }

    /// Counts one received datagram, whatever becomes of it.
    pub open spec fn received(self) -> PacketStats {
        PacketStats {
            total_packets: bump(self.total_packets),
            packets_in_window: bump(self.packets_in_window),
            ..self
        }
    }

    /// Closes the one-second window.
    pub open spec fn ticked(self) -> PacketStats {
        PacketStats { current_pps: self.packets_in_window, packets_in_window: 0, ..self }
    }

    /// Counters after `n` datagrams and no tick.
    pub open spec fn received_n(self, n: nat) -> PacketStats
        decreases n,
    {
        if n == 0 {
            self
        } else {
            self.received_n((n - 1) as nat).received()
        }
    }
}

/// What a datagram decodes to: header, payload record and trailer, or the
/// first check that fails.
pub open spec fn datagram_outcome(raw: Seq<u8>, keys: CryptoKeys) -> Result<
    (FrameHeader, StandardPayload, Seq<u8>),
    FrameError,
> {
    match parse_outcome(raw, keys) {
        Err(e) => Err(e),
        Ok((h, p, t)) => match decode(h.payload_type, p) {
            Some(rec) => Ok((h, rec, t)),
            None => Err(FrameError::PayloadDecode),
        },
    }
}

/// A datagram that passed every check.
#[derive(Debug)]
pub struct AcceptedFrame {
    pub header: FrameHeader,
    pub payload: StandardPayload,
    /// Trailer bytes as received.
    pub trailer: Vec<u8>,
    /// Time step for the filter in microseconds.
    pub delta_us: u32,
    /// The sequence number came after the last accepted one.
    pub in_order: bool,
    /// The filter step that the payload calls for.
    pub step: AttitudeStep,
}

impl AcceptedFrame {
    /// Sensor timestamp of the sample in microseconds.
    pub fn timestamp_us(&self) -> (r: u32)
        ensures
            r == self.header.timestamp_us,
    {
        self.header.timestamp_us
    }
}

/// Result of one datagram: the frame when it was accepted, the reason when
/// it was not, and the counters after it.
#[derive(Debug)]
pub struct ResultRecord {
    pub outcome: Result<AcceptedFrame, FrameError>,
    pub stats: PacketStats,
}

impl ResultRecord {
    /// Whether the datagram was accepted.
    pub fn is_valid(&self) -> (r: bool)
        ensures
            r == self.outcome is Ok,
    {
        self.outcome.is_ok()
    }
}

/// State of one link, created once per session.
pub struct IngesterState {
    pub keys: CryptoKeys,
    pub tracker: TimingTracker,
    pub stats: PacketStats,
}

impl IngesterState {
    /// Fresh state: nothing accepted yet, all counters at zero.
    /// `default_delta_us` is one sample period of the configured rate.
    pub fn new(keys: CryptoKeys, default_delta_us: u32) -> (r: IngesterState)
        ensures
            r.keys == keys,
            r.tracker.last_sequence is None,
            r.tracker.last_timestamp_us is None,
            r.tracker.default_delta_us == default_delta_us,
            r.stats == PacketStats::zero(),
    {
        IngesterState {
            keys,
            tracker: TimingTracker::new(default_delta_us),
            stats: PacketStats {
                total_packets: 0,
                valid_packets: 0,
                bad_packets: 0,
                packets_in_window: 0,
                current_pps: 0,
            },
        }
    }

    /// Handles one received datagram. It is counted as received; when a
    /// check fails it is counted as bad and the tracker is left alone; when
    /// it passes, the tracker accepts it, it is counted as valid, and also
    /// as bad when its sequence number is out of order.
    pub fn on_datagram(&mut self, raw: &[u8]) -> (r: ResultRecord)
        ensures
            final(self).keys == old(self).keys,
            final(self).stats.total_packets == old(self).stats.received().total_packets,
            final(self).stats.packets_in_window == old(self).stats.received().packets_in_window,
            final(self).stats.current_pps == old(self).stats.current_pps,
            r.stats == final(self).stats,
            match datagram_outcome(raw@, old(self).keys) {
                Err(e) => {
                    &&& r.outcome matches Err(e2) && e2 == e
                    &&& final(self).tracker == old(self).tracker
                    &&& final(self).stats.bad_packets == bump(old(self).stats.bad_packets)
                    &&& final(self).stats.valid_packets == old(self).stats.valid_packets
                },
                Ok((h, p, t)) => {
                    let in_order = old(self).tracker.in_order(h.sequence);
                    &&& r.outcome matches Ok(f) && f.header == h && f.payload == p && f.trailer@
                        == t && f.delta_us == old(self).tracker.delta_for(h.timestamp_us)
                        && f.in_order == in_order && f.step == step_for(p)
                    &&& final(self).tracker.last_sequence == Some(h.sequence)
                    &&& final(self).tracker.last_timestamp_us == Some(h.timestamp_us)
                    &&& final(self).tracker.default_delta_us
                        == old(self).tracker.default_delta_us
                    &&& final(self).stats.valid_packets == bump(old(self).stats.valid_packets)
                    &&& final(self).stats.bad_packets == if in_order {
                        old(self).stats.bad_packets
                    } else {
                        bump(old(self).stats.bad_packets)
                    }
                },
            },
    {
        self.stats.total_packets = bump_exec(self.stats.total_packets);
        self.stats.packets_in_window = bump_exec(self.stats.packets_in_window);
        let outcome = match parse(raw, &self.keys) {
            Err(e) => Err(e),
            Ok(frame) => match StandardPayload::try_from(frame.payload.as_slice(), frame.header.payload_type) {
                None => Err(FrameError::PayloadDecode),
                Some(payload) => {
                    let accepted = self.tracker.accept(frame.header.sequence, frame.header.timestamp_us);
                    self.stats.valid_packets = bump_exec(self.stats.valid_packets);
                    if !accepted.in_order {
                        self.stats.bad_packets = bump_exec(self.stats.bad_packets);
                    }
                    let step = attitude_step(&payload);
                    Ok(
                        AcceptedFrame {
                            header: frame.header,
                            payload,
                            trailer: frame.trailer,
                            delta_us: accepted.delta_us,
                            in_order: accepted.in_order,
                            step,
                        },
                    )
                },
            },
        };
        if outcome.is_err() {
            self.stats.bad_packets = bump_exec(self.stats.bad_packets);
        }
        ResultRecord { outcome, stats: self.stats }
    }

    /// Handles one tick of the one-second timer: the datagrams of the window
    /// become the packet rate, and a new window starts.
    pub fn on_tick(&mut self)
        ensures
            final(self).stats == old(self).stats.ticked(),
            final(self).keys == old(self).keys,
            final(self).tracker == old(self).tracker,
    {
        self.stats.current_pps = self.stats.packets_in_window;
        self.stats.packets_in_window = 0;
    }
}

/// Packet-rate accounting: starting from a closed window, `n` datagrams and
/// a tick give a rate of `n`, and a second tick with no datagram in between
/// gives a rate of 0.
pub proof fn lemma_rate_accounting(s: PacketStats, n: nat)
    requires
        s.packets_in_window == 0,
        n < u64::MAX,
    ensures
        s.received_n(n).ticked().current_pps == n,
        s.received_n(n).ticked().ticked().current_pps == 0,
    decreases n,
{
    lemma_window_counts(s, n);
}

proof fn lemma_window_counts(s: PacketStats, n: nat)
    requires
        s.packets_in_window == 0,
        n < u64::MAX,
    ensures
        s.received_n(n).packets_in_window == n,
    decreases n,
{
    if n > 0 {
        lemma_window_counts(s, (n - 1) as nat);
    }
}

/// A datagram whose declared payload length and mode's trailer length do not
/// add up to what follows the header is rejected as malformed, whatever the
/// keys.
pub proof fn lemma_length_mismatch_rejected(raw: Seq<u8>, keys: CryptoKeys)
    requires
        raw.len() < HEADER_LEN || HEADER_LEN + header_of(raw).payload_len + header_of(
            raw,
        ).mode().trailer_len() != raw.len(),
    ensures
        datagram_outcome(raw, keys) == Err::<(FrameHeader, StandardPayload, Seq<u8>), FrameError>(
            FrameError::Malformed,
        ),
{
}

/// A frame that passes every check but carries a payload type outside the
/// seven standard ones is rejected as undecodable.
pub proof fn lemma_unknown_tag_rejected(raw: Seq<u8>, keys: CryptoKeys)
    requires
        parse_outcome(raw, keys) is Ok,
        !is_standard_tag(header_of(raw).payload_type),
    ensures
        datagram_outcome(raw, keys) == Err::<(FrameHeader, StandardPayload, Seq<u8>), FrameError>(
            FrameError::PayloadDecode,
        ),
{
}

} // verus!
