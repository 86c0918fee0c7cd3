//! Sequence and timing tracker.
//!
//! Time deltas are kept in whole microseconds: the sensor clock counts
//! microseconds in a `u32`, and the clamp bounds 0.0001 s and 0.1 s are
//! 100 and 100 000 microseconds.
use vstd::prelude::*;

verus! {

/// Smallest delta fed to the estimator: 0.0001 s.
pub const MIN_DELTA_US: u32 = 100;
/// Largest delta fed to the estimator: 0.1 s.
pub const MAX_DELTA_US: u32 = 100_000;

/// Microseconds from `last` to `current`. When `current` is below `last` the
/// clock is taken to have wrapped, and the delta is
/// `(u32::MAX - last) + current`.
pub open spec fn raw_delta(last: u32, current: u32) -> int {
    if current >= last {
        current - last
    } else {
        (u32::MAX - last) + current
    }
}

/// `d` clamped to `[MIN_DELTA_US, MAX_DELTA_US]`.
pub open spec fn clamp_delta(d: int) -> int {
    if d < MIN_DELTA_US {
        MIN_DELTA_US as int
    } else if d > MAX_DELTA_US {
        MAX_DELTA_US as int
    } else {
        d
    }
}

/// Distance from sequence number `last` to `current`, counted modulo 2^32.
pub open spec fn sequence_gap(last: u32, current: u32) -> int {
    if current >= last {
        current - last
    } else {
        current + 0x1_0000_0000 - last
    }
}

/// `current` comes after `last`: it is ahead by less than half the range.
pub open spec fn sequence_follows(last: u32, current: u32) -> bool {
    0 < sequence_gap(last, current) < 0x8000_0000
}

/// Microseconds from `last` to `current`, with wraparound.
pub fn raw_delta_us(last: u32, current: u32) -> (r: u32)
    ensures
        r == raw_delta(last, current),
{
    if current >= last {
        current - last
    } else {
        (u32::MAX - last) + current
    }
}

/// `d` clamped to `[MIN_DELTA_US, MAX_DELTA_US]`.
pub fn clamp_delta_us(d: u32) -> (r: u32)
    ensures
        r == clamp_delta(d as int),
        MIN_DELTA_US <= r <= MAX_DELTA_US,
{
    if d < MIN_DELTA_US {
        MIN_DELTA_US
    } else if d > MAX_DELTA_US {
        MAX_DELTA_US
    } else {
        d
    }
}

/// Whether sequence number `current` comes after `last`, modulo 2^32.
pub fn sequence_increases(last: u32, current: u32) -> (r: bool)
    ensures
        r == sequence_follows(last, current),
{
    let gap: u32 = if current >= last {
        current - last
    } else {
        current + (u32::MAX - last) + 1
    };
    gap != 0 && gap < 0x8000_0000
}

/// What one accepted frame gives the caller.
#[derive(Clone, Copy, Debug, PartialEq, Eq, Structural)]
pub struct Accepted {
    /// Time step for the estimator in microseconds.
    pub delta_us: u32,
    /// The sequence number came after the last accepted one (always true
    /// for the first frame).
    pub in_order: bool,
}

/// Last accepted sequence number and timestamp of one link.
#[derive(Clone, Copy, Debug, PartialEq, Eq, Structural)]
pub struct TimingTracker {
    /// Sequence number of the last accepted frame.
    pub last_sequence: Option<u32>,
    /// Timestamp of the last accepted frame in microseconds.
    pub last_timestamp_us: Option<u32>,
    /// Time step used for the first frame: one sample period of the
    /// configured sample rate, in microseconds.
    pub default_delta_us: u32,
}

impl TimingTracker {
    /// Time step for a frame stamped `timestamp_us`.
    pub open spec fn delta_for(self, timestamp_us: u32) -> u32 {
        match self.last_timestamp_us {
            None => self.default_delta_us,
            Some(last) => clamp_delta(raw_delta(last, timestamp_us)) as u32,
        }
    }

    /// Whether a frame numbered `sequence` is in order.
    pub open spec fn in_order(self, sequence: u32) -> bool {
        match self.last_sequence {
            None => true,
            Some(last) => sequence_follows(last, sequence),
        }
    }

    /// A tracker that has accepted nothing yet.
    pub fn new(default_delta_us: u32) -> (r: TimingTracker)
        ensures
            r.last_sequence is None,
            r.last_timestamp_us is None,
            r.default_delta_us == default_delta_us,
    {
        TimingTracker { last_sequence: None, last_timestamp_us: None, default_delta_us }
    }

    /// Records a frame that passed every check and returns its time step and
    /// whether its sequence number is in order. The frame becomes the last
    /// accepted one either way.
    pub fn accept(&mut self, sequence: u32, timestamp_us: u32) -> (r: Accepted)
        ensures
            r.delta_us == old(self).delta_for(timestamp_us),
            r.in_order == old(self).in_order(sequence),
            final(self).last_sequence == Some(sequence),
            final(self).last_timestamp_us == Some(timestamp_us),
            final(self).default_delta_us == old(self).default_delta_us,
    {
        let delta_us = match self.last_timestamp_us {
            None => self.default_delta_us,
            Some(last) => clamp_delta_us(raw_delta_us(last, timestamp_us)),
        };
        let in_order = match self.last_sequence {
            None => true,
            Some(last) => sequence_increases(last, sequence),
        };
        self.last_sequence = Some(sequence);
        self.last_timestamp_us = Some(timestamp_us);
        Accepted { delta_us, in_order }
    }
}

/// After any accepted frame the next time step lies in the clamp range.
pub proof fn lemma_delta_clamped(t: TimingTracker, timestamp_us: u32)
    requires
        t.last_timestamp_us is Some,
    ensures
        MIN_DELTA_US <= t.delta_for(timestamp_us) <= MAX_DELTA_US,
{
}

} // verus!
