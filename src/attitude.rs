//! Which update of the orientation filter a decoded payload calls for.
//!
//! The filter itself works in floating point and runs outside this library;
//! here it is decided, per payload, whether it fuses 6 or 9 axes, takes a
//! quaternion as it stands, or keeps its orientation unchanged.
use crate::payload::{Axes, ImuQuat, StandardPayload};
use vstd::prelude::*;

verus! {

/// One step of the orientation filter. Readings are raw float32 bit
/// patterns: accelerometer in m/s^2, gyroscope in rad/s, magnetometer in
/// microtesla. The filter converts acceleration to standard gravities
/// (9.80665 m/s^2) and angular rate to degrees per second before fusing.
#[derive(Clone, Copy, Debug, PartialEq, Eq, Structural)]
pub enum AttitudeStep {
    /// Gyroscope integration corrected by gravity.
    Imu { acc: Axes, gyr: Axes },
    /// Gyroscope integration corrected by gravity and magnetic north.
    Marg { acc: Axes, gyr: Axes, mag: Axes },
    /// The payload's quaternion is the orientation, unmodified and
    /// unnormalised; the filter state is left alone.
    Direct(ImuQuat),
    /// Too few axes for fusion: the orientation stays as it is.
    Hold,
}

/// The filter step that `p` calls for.
pub open spec fn step_for(p: StandardPayload) -> AttitudeStep {
    match p {
        StandardPayload::Imu6(r) => AttitudeStep::Imu { acc: r.acc, gyr: r.gyr },
        StandardPayload::Imu9(r) => AttitudeStep::Marg { acc: r.acc, gyr: r.gyr, mag: r.mag },
        StandardPayload::ImuQuat(q) => AttitudeStep::Direct(q),
        _ => AttitudeStep::Hold,
    }
}

/// The filter step that `p` calls for.
pub fn attitude_step(p: &StandardPayload) -> (r: AttitudeStep)
    ensures
        r == step_for(*p),
{
    match p {
        StandardPayload::Imu6(r) => AttitudeStep::Imu { acc: r.acc, gyr: r.gyr },
        StandardPayload::Imu9(r) => AttitudeStep::Marg { acc: r.acc, gyr: r.gyr, mag: r.mag },
        StandardPayload::ImuQuat(q) => AttitudeStep::Direct(*q),
        _ => AttitudeStep::Hold,
    }
}

} // verus!
